//! Records to the text of the file, and back.

use crate::error::StoreError;
use crate::error::StoreErrorView;
use crate::format::all_records;
use crate::format::document_json;
use crate::format::first_fault;
use crate::format::is_first_fault;
use crate::format::lemma_field_names;
use crate::format::lemma_member_at;
use crate::format::missing_field;
use crate::format::number_at;
use crate::format::number_fault;
use crate::format::read_record;
use crate::format::read_records;
use crate::format::record_json;
use crate::format::record_members;
use crate::format::text_at;
use crate::format::text_fault;
use crate::json::array_value;
use crate::json::as_array;
use crate::json::as_number;
use crate::json::as_object;
use crate::json::as_text;
use crate::json::detail_of;
use crate::json::distinct_keys;
use crate::json::error_detail;
use crate::json::has_key;
use crate::json::json_of;
use crate::json::jsons_of;
use crate::json::members_of;
use crate::json::number_value;
use crate::json::object_get;
use crate::json::object_insert;
use crate::json::object_new;
use crate::json::object_value;
use crate::json::parse;
use crate::json::parsed;
use crate::json::pretty;
use crate::json::print_pretty;
use crate::json::text_value;
use crate::json::Json;
use crate::text::append;
use crate::text::concat;
use crate::transaction::views;
use crate::transaction::Transaction;
use crate::transaction::TransactionView;
use serde_json::Number;
use serde_json::Value;
use vstd::prelude::*;

verus! {

/// What a save makes of the printer's outcome: the text, or a `Serialization`
/// with the printer's message.
pub open spec fn encoded_from(printed: Result<Seq<char>, serde_json::Error>) -> Result<
    Seq<char>,
    StoreErrorView,
> {
    match printed {
        Ok(text) => Ok(text),
        Err(error) => Err(StoreErrorView::Serialization(detail_of(error))),
    }
}

/// The text of the file for a collection, or why it cannot be written: the
/// collection's array, printed with indentation.
pub open spec fn encoded(records: Seq<TransactionView>) -> Result<Seq<char>, StoreErrorView> {
    encoded_from(pretty(document_json(records)))
}

/// The collection that a JSON value stands for, or why it stands for none.
pub open spec fn interpreted(json: Json) -> Result<Seq<TransactionView>, StoreErrorView> {
    match read_records(json) {
        Ok(records) => Ok(records),
        Err(detail) => Err(StoreErrorView::Deserialization(detail)),
    }
}

/// What a load makes of the parser's outcome: the collection that the value
/// stands for, or a `Deserialization` with what is wrong, be it the parser's
/// message or the value's shape.
pub open spec fn decoded_from(parsed: Result<Json, serde_json::Error>) -> Result<
    Seq<TransactionView>,
    StoreErrorView,
> {
    match parsed {
        Ok(json) => interpreted(json),
        Err(error) => Err(StoreErrorView::Deserialization(detail_of(error))),
    }
}

/// The collection that the text of a file holds, or why it holds none: the
/// text must be one JSON value, and that value an array of records.
pub open spec fn decoded(text: Seq<char>) -> Result<Seq<TransactionView>, StoreErrorView> {
    decoded_from(parsed(text))
}

/// The printer's outcome as mathematical values.
pub open spec fn printed_view(printed: Result<String, serde_json::Error>) -> Result<
    Seq<char>,
    serde_json::Error,
> {
    match printed {
        Ok(text) => Ok(text@),
        Err(error) => Err(error),
    }
}

/// The parser's outcome as mathematical values.
pub open spec fn parsed_view(parsed: Result<Value, serde_json::Error>) -> Result<
    Json,
    serde_json::Error,
> {
    match parsed {
        Ok(value) => Ok(json_of(value)),
        Err(error) => Err(error),
    }
}

/// Adds a member under a key that the object does not hold yet.
fn put(object: &mut serde_json::Map<String, Value>, key: &str, value: Value)
    requires
        !has_key(members_of(*old(object)), key@),
    ensures
        members_of(*final(object)) == members_of(*old(object)).push((key@, json_of(value))),
{
    object_insert(object, key.to_owned(), value);
}

/// The JSON object for one record.
pub fn record_to_value(record: &Transaction) -> (value: Value)
    ensures
        json_of(value) == record_json(record@),
{
    proof {
        lemma_field_names();
    }
    let mut object = object_new();
    put(&mut object, "id", text_value(record.id.clone()));
    put(&mut object, "description", text_value(record.description.clone()));
    put(&mut object, "amount", number_value(record.amount.clone()));
    put(&mut object, "transaction_type", text_value(record.transaction_type.clone()));
    put(&mut object, "category", text_value(record.category.clone()));
    put(&mut object, "account", text_value(record.account.clone()));
    put(&mut object, "month", text_value(record.month.clone()));
    put(&mut object, "date", text_value(record.date.clone()));
    assert(members_of(object) =~= record_members(record@));
    object_value(object)
}

/// The JSON array for a collection: one object per record, in order.
pub fn records_to_value(records: &Vec<Transaction>) -> (value: Value)
    ensures
        json_of(value) == document_json(views(records@)),
{
    let mut items: Vec<Value> = Vec::new();
    let mut i: usize = 0;
    while i < records.len()
        invariant
            i <= records.len(),
            items@.len() == i,
            forall|j: int| 0 <= j < i ==> json_of(#[trigger] items@[j]) == record_json(records@[j]@),
        decreases records.len() - i,
    {
        items.push(record_to_value(&records[i]));
        i += 1;
    }
    assert(jsons_of(items@) =~= views(records@).map_values(
        |record: TransactionView| record_json(record),
    ));
    array_value(items)
}

/// Ends an encoding on the printer's outcome: the printed text is the text of
/// the file, and an error of the printer becomes a `Serialization` that holds
/// its message.
pub fn finish_encode(printed: Result<String, serde_json::Error>) -> (outcome: Result<
    String,
    StoreError,
>)
    ensures
        match outcome {
            Ok(text) => encoded_from(printed_view(printed)) == Ok::<Seq<char>, StoreErrorView>(
                text@,
            ),
            Err(error) => encoded_from(printed_view(printed)) == Err::<Seq<char>, StoreErrorView>(
                error@,
            ),
        },
{
    match printed {
        Ok(text) => Ok(text),
        Err(error) => Err(StoreError::Serialization(error_detail(&error))),
    }
}

/// Writes a collection as the text of the file.
///
/// The text is the collection's JSON array as `serde_json` prints it with
/// indentation. Where `serde_json` reports an error instead, the failure is a
/// `Serialization` that holds its message.
pub fn encode(records: &Vec<Transaction>) -> (outcome: Result<String, StoreError>)
    ensures
        match outcome {
            Ok(text) => encoded(views(records@)) == Ok::<Seq<char>, StoreErrorView>(text@),
            Err(error) => encoded(views(records@)) == Err::<Seq<char>, StoreErrorView>(error@),
        },
{
    let value = records_to_value(records);
    finish_encode(print_pretty(&value))
}

/// The report for a field that is not there.
fn missing(key: &str) -> (detail: String)
    ensures
        detail@ == missing_field(key@),
{
    let mut detail = concat("missing field `", key);
    append(&mut detail, "`");
    detail
}

/// The text field `key` of an object.
fn text_member(object: &serde_json::Map<String, Value>, key: &str) -> (outcome: Result<
    String,
    String,
>)
    requires
        distinct_keys(members_of(*object)),
    ensures
        match outcome {
            Ok(text) => text_fault(members_of(*object), key@) is None && text_at(
                members_of(*object),
                key@,
            ) == text@,
            Err(detail) => text_fault(members_of(*object), key@) == Some(detail@),
        },
{
    match object_get(object, key) {
        None => Err(missing(key)),
        Some(value) => {
            proof {
                let members = members_of(*object);
                let i = choose|i: int|
                    0 <= i < members.len() && #[trigger] members[i] == (key@, json_of(*value));
                lemma_member_at(members, i);
            }
            match as_text(value) {
                Some(text) => Ok(text.to_owned()),
                None => {
                    let mut detail = concat("expected a string for field `", key);
                    append(&mut detail, "`");
                    Err(detail)
                },
            }
        },
    }
}

/// The numeric field `key` of an object.
fn number_member(object: &serde_json::Map<String, Value>, key: &str) -> (outcome: Result<
    Number,
    String,
>)
    requires
        distinct_keys(members_of(*object)),
    ensures
        match outcome {
            Ok(number) => number_fault(members_of(*object), key@) is None && number_at(
                members_of(*object),
                key@,
            ) == number,
            Err(detail) => number_fault(members_of(*object), key@) == Some(detail@),
        },
{
    match object_get(object, key) {
        None => Err(missing(key)),
        Some(value) => {
            proof {
                let members = members_of(*object);
                let i = choose|i: int|
                    0 <= i < members.len() && #[trigger] members[i] == (key@, json_of(*value));
                lemma_member_at(members, i);
            }
            match as_number(value) {
                Some(number) => Ok(number.clone()),
                None => {
                    let mut detail = concat("expected a number for field `", key);
                    append(&mut detail, "`");
                    Err(detail)
                },
            }
        },
    }
}

/// Reads one record from a JSON value.
///
/// The value must be an object that holds each of the eight fields under its
/// name, the amount as a number and every other field as a string. Otherwise
/// the report names the first field, in the order in which they are written,
/// that is missing or of the wrong kind.
pub fn record_from_value(value: &Value) -> (outcome: Result<Transaction, String>)
    ensures
        match outcome {
            Ok(record) => read_record(json_of(*value)) == Ok::<TransactionView, Seq<char>>(record@),
            Err(detail) => read_record(json_of(*value)) == Err::<TransactionView, Seq<char>>(
                detail@,
            ),
        },
{
    let object = match as_object(value) {
        Some(object) => object,
        None => {
            return Err("expected an object for a transaction".to_owned());
        },
    };
    let id = text_member(object, "id")?;
    let description = text_member(object, "description")?;
    let amount = number_member(object, "amount")?;
    let transaction_type = text_member(object, "transaction_type")?;
    let category = text_member(object, "category")?;
    let account = text_member(object, "account")?;
    let month = text_member(object, "month")?;
    let date = text_member(object, "date")?;
    Ok(Transaction { id, description, amount, transaction_type, category, account, month, date })
}

/// Reads a collection from a JSON value.
///
/// The value must be an array in which every element stands for a record; the
/// records come back in the order of the array. Otherwise the failure is a
/// `Deserialization` that holds the report for the first element that stands
/// for none, or says that the value is no array.
pub fn records_from_value(value: &Value) -> (outcome: Result<Vec<Transaction>, StoreError>)
    ensures
        match outcome {
            Ok(records) => interpreted(json_of(*value)) == Ok::<
                Seq<TransactionView>,
                StoreErrorView,
            >(views(records@)),
            Err(error) => interpreted(json_of(*value)) == Err::<
                Seq<TransactionView>,
                StoreErrorView,
            >(error@),
        },
{
    let items = match as_array(value) {
        Some(items) => items,
        None => {
            return Err(
                StoreError::Deserialization("expected an array of transactions".to_owned()),
            );
        },
    };
    let ghost jsons = jsons_of(items@);
    let mut records: Vec<Transaction> = Vec::new();
    let mut i: usize = 0;
    while i < items.len()
        invariant
            i <= items.len(),
            records@.len() == i,
            jsons == jsons_of(items@),
            json_of(*value) == Json::Array(jsons),
            forall|j: int|
                0 <= j < i ==> read_record(#[trigger] jsons[j]) == Ok::<
                    TransactionView,
                    Seq<char>,
                >(records@[j]@),
        decreases items.len() - i,
    {
        match record_from_value(&items[i]) {
            Ok(record) => {
                records.push(record);
            },
            Err(detail) => {
                assert(is_first_fault(jsons, i as int));
                return Err(StoreError::Deserialization(detail));
            },
        }
        i += 1;
    }
    proof {
        assert(jsons.map_values(|item: Json| read_record(item)->Ok_0) =~= views(records@));
    }
    Ok(records)
}

/// Ends a decoding on the parser's outcome: a value is read as a collection,
/// and an error of the parser becomes a `Deserialization` that holds its
/// message.
pub fn finish_decode(parsed: Result<Value, serde_json::Error>) -> (outcome: Result<
    Vec<Transaction>,
    StoreError,
>)
    ensures
        match outcome {
            Ok(records) => decoded_from(parsed_view(parsed)) == Ok::<
                Seq<TransactionView>,
                StoreErrorView,
            >(views(records@)),
            Err(error) => decoded_from(parsed_view(parsed)) == Err::<
                Seq<TransactionView>,
                StoreErrorView,
            >(error@),
        },
{
    match parsed {
        Ok(value) => records_from_value(&value),
        Err(error) => Err(StoreError::Deserialization(error_detail(&error))),
    }
}

/// Reads a collection from the text of the file.
///
/// The text must be one JSON value, as `serde_json` reads it, and that value
/// an array of records. Text that is no JSON value gives a `Deserialization`
/// with the message of `serde_json`; a value that is no array of records gives
/// a `Deserialization` that says what is wrong. No partial collection is ever
/// returned.
pub fn decode(text: &str) -> (outcome: Result<Vec<Transaction>, StoreError>)
    ensures
        match outcome {
            Ok(records) => decoded(text@) == Ok::<Seq<TransactionView>, StoreErrorView>(
                views(records@),
            ),
            Err(error) => decoded(text@) == Err::<Seq<TransactionView>, StoreErrorView>(error@),
        },
{
    finish_decode(parse(text))
}

} // verus!
