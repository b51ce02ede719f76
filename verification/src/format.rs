//! The shape of the persisted file.
//!
//! The file is one JSON array. Each element is an object with the eight fields
//! of a record under their names: the amount as a number, every other field as
//! a string. Nothing else is written: no header, no version, no checksum. On
//! reading, members with other names are passed over, the order of the members
//! within an object does not matter, and of a name that a text gives twice the
//! later value counts.

use crate::json::distinct_keys;
use crate::json::has_key;
use crate::json::key_index;
use crate::json::member;
use crate::json::Json;
use crate::json::Member;
use crate::transaction::TransactionView;
use serde_json::Number;
use vstd::prelude::*;

verus! {

/// The members of the object that stands for a record, in the order in which
/// they are written.
pub open spec fn record_members(record: TransactionView) -> Seq<Member> {
    seq![
        ("id"@, Json::Text(record.id)),
        ("description"@, Json::Text(record.description)),
        ("amount"@, Json::Number(record.amount)),
        ("transaction_type"@, Json::Text(record.transaction_type)),
        ("category"@, Json::Text(record.category)),
        ("account"@, Json::Text(record.account)),
        ("month"@, Json::Text(record.month)),
        ("date"@, Json::Text(record.date)),
    ]
}

/// The object that stands for a record.
pub open spec fn record_json(record: TransactionView) -> Json {
    Json::Object(record_members(record))
}

/// The array that stands for a collection: one object per record, in the
/// collection's order.
pub open spec fn document_json(records: Seq<TransactionView>) -> Json {
    Json::Array(records.map_values(|record: TransactionView| record_json(record)))
}

/// What is reported for a field that an object lacks.
pub open spec fn missing_field(key: Seq<char>) -> Seq<char> {
    "missing field `"@ + key + "`"@
}

/// What is reported for a text field that holds something other than a string.
pub open spec fn not_a_string(key: Seq<char>) -> Seq<char> {
    "expected a string for field `"@ + key + "`"@
}

/// What is reported for a numeric field that holds something other than a
/// number.
pub open spec fn not_a_number(key: Seq<char>) -> Seq<char> {
    "expected a number for field `"@ + key + "`"@
}

/// What is wrong with the text field `key` of an object, if anything.
pub open spec fn text_fault(members: Seq<Member>, key: Seq<char>) -> Option<Seq<char>> {
    match member(members, key) {
        None => Some(missing_field(key)),
        Some(Json::Text(_)) => None,
        Some(_) => Some(not_a_string(key)),
    }
}

/// What is wrong with the numeric field `key` of an object, if anything.
pub open spec fn number_fault(members: Seq<Member>, key: Seq<char>) -> Option<Seq<char>> {
    match member(members, key) {
        None => Some(missing_field(key)),
        Some(Json::Number(_)) => None,
        Some(_) => Some(not_a_number(key)),
    }
}

/// The text stored under `key`, where the field is sound.
pub open spec fn text_at(members: Seq<Member>, key: Seq<char>) -> Seq<char> {
    match member(members, key) {
        Some(Json::Text(text)) => text,
        _ => Seq::empty(),
    }
}

/// The number stored under `key`, where the field is sound.
pub open spec fn number_at(members: Seq<Member>, key: Seq<char>) -> Number {
    match member(members, key) {
        Some(Json::Number(number)) => number,
        _ => arbitrary(),
    }
}

/// The first of two reports.
pub open spec fn or_else(first: Option<Seq<char>>, second: Option<Seq<char>>) -> Option<Seq<char>> {
    if first is Some {
        first
    } else {
        second
    }
}

/// What is wrong with an object that should stand for a record: the report for
/// the first unsound field, going through the fields in the order in which
/// they are written, or `None` if all eight are sound.
pub open spec fn record_fault(members: Seq<Member>) -> Option<Seq<char>> {
    or_else(
        text_fault(members, "id"@),
        or_else(
            text_fault(members, "description"@),
            or_else(
                number_fault(members, "amount"@),
                or_else(
                    text_fault(members, "transaction_type"@),
                    or_else(
                        text_fault(members, "category"@),
                        or_else(
                            text_fault(members, "account"@),
                            or_else(
                                text_fault(members, "month"@),
                                text_fault(members, "date"@),
                            ),
                        ),
                    ),
                ),
            ),
        ),
    )
}

/// What is reported for an element of the array that is no object.
pub open spec fn not_an_object() -> Seq<char> {
    "expected an object for a transaction"@
}

/// What is reported for a file whose value is no array.
pub open spec fn not_an_array() -> Seq<char> {
    "expected an array of transactions"@
}

/// The record that a JSON value stands for, or what is wrong with it.
pub open spec fn read_record(json: Json) -> Result<TransactionView, Seq<char>> {
    match json {
        Json::Object(members) => match record_fault(members) {
            Some(detail) => Err(detail),
            None => Ok(
                TransactionView {
                    id: text_at(members, "id"@),
                    description: text_at(members, "description"@),
                    amount: number_at(members, "amount"@),
                    transaction_type: text_at(members, "transaction_type"@),
                    category: text_at(members, "category"@),
                    account: text_at(members, "account"@),
                    month: text_at(members, "month"@),
                    date: text_at(members, "date"@),
                },
            ),
        },
        _ => Err(not_an_object()),
    }
}

/// Every element stands for a record.
pub open spec fn all_records(items: Seq<Json>) -> bool {
    forall|i: int| 0 <= i < items.len() ==> read_record(#[trigger] items[i]) is Ok
}

/// `i` is the position of the first element that stands for no record.
pub open spec fn is_first_fault(items: Seq<Json>, i: int) -> bool {
    &&& 0 <= i < items.len()
    &&& read_record(items[i]) is Err
    &&& forall|j: int| 0 <= j < i ==> read_record(#[trigger] items[j]) is Ok
}

/// The position of the first element that stands for no record, where there
/// is one.
pub open spec fn first_fault(items: Seq<Json>) -> int {
    choose|i: int| is_first_fault(items, i)
}

/// The collection that a JSON value stands for, in the order of the array, or
/// what is wrong with the first element that stands for no record.
pub open spec fn read_records(json: Json) -> Result<Seq<TransactionView>, Seq<char>> {
    match json {
        Json::Array(items) => if all_records(items) {
            Ok(items.map_values(|item: Json| read_record(item)->Ok_0))
        } else {
            Err(read_record(items[first_fault(items)])->Err_0)
        },
        _ => Err(not_an_array()),
    }
}

/// The eight field names have eight different lengths.
pub proof fn lemma_field_names()
    ensures
        "id"@.len() == 2,
        "description"@.len() == 11,
        "amount"@.len() == 6,
        "transaction_type"@.len() == 16,
        "category"@.len() == 8,
        "account"@.len() == 7,
        "month"@.len() == 5,
        "date"@.len() == 4,
{
    reveal_strlit("id");
    reveal_strlit("description");
    reveal_strlit("amount");
    reveal_strlit("transaction_type");
    reveal_strlit("category");
    reveal_strlit("account");
    reveal_strlit("month");
    reveal_strlit("date");
}

/// In an object without repeated keys, the member found at a position is the
/// member found by its key.
pub proof fn lemma_member_at(members: Seq<Member>, i: int)
    requires
        distinct_keys(members),
        0 <= i < members.len(),
    ensures
        has_key(members, members[i].0),
        member(members, members[i].0) == Some(members[i].1),
{
    let key = members[i].0;
    assert(has_key(members, key));
    let k = key_index(members, key);
    if k < i {
        assert(members[k].0 != members[i].0);
    } else if i < k {
        assert(members[i].0 != members[k].0);
    }
}

/// The object written for a record holds each field name once, and under each
/// name the field's value.
pub proof fn lemma_record_members(record: TransactionView)
    ensures
        distinct_keys(record_members(record)),
        member(record_members(record), "id"@) == Some(Json::Text(record.id)),
        member(record_members(record), "description"@) == Some(Json::Text(record.description)),
        member(record_members(record), "amount"@) == Some(Json::Number(record.amount)),
        member(record_members(record), "transaction_type"@) == Some(
            Json::Text(record.transaction_type),
        ),
        member(record_members(record), "category"@) == Some(Json::Text(record.category)),
        member(record_members(record), "account"@) == Some(Json::Text(record.account)),
        member(record_members(record), "month"@) == Some(Json::Text(record.month)),
        member(record_members(record), "date"@) == Some(Json::Text(record.date)),
{
    lemma_field_names();
    let members = record_members(record);
    lemma_member_at(members, 0);
    lemma_member_at(members, 1);
    lemma_member_at(members, 2);
    lemma_member_at(members, 3);
    lemma_member_at(members, 4);
    lemma_member_at(members, 5);
    lemma_member_at(members, 6);
    lemma_member_at(members, 7);
}

/// Reading what was written for a record gives the record back.
pub proof fn lemma_record_round_trip(record: TransactionView)
    ensures
        read_record(record_json(record)) == Ok::<TransactionView, Seq<char>>(record),
{
    lemma_record_members(record);
}

/// Reading what was written for a collection gives the collection back: the
/// same records in the same order, whatever they hold, be the collection empty
/// or hold one identifier twice.
pub proof fn lemma_document_round_trip(records: Seq<TransactionView>)
    ensures
        read_records(document_json(records)) == Ok::<Seq<TransactionView>, Seq<char>>(records),
{
    let items = records.map_values(|record: TransactionView| record_json(record));
    assert forall|i: int| 0 <= i < items.len() implies read_record(#[trigger] items[i]) == Ok::<
        TransactionView,
        Seq<char>,
    >(records[i]) by {
        lemma_record_round_trip(records[i]);
    }
    assert(items.map_values(|item: Json| read_record(item)->Ok_0) =~= records);
}

} // verus!
