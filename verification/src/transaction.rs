//! The record that the store persists.

use serde_json::Number;
use vstd::prelude::*;

verus! {

/// One financial record.
///
/// The store validates none of the fields: identifiers need not be unique, and
/// the type, category, account, month and date are free text whose meaning
/// belongs to the caller. The amount is kept as the JSON number it is written
/// as; its sign convention is the caller's as well.
#[derive(Clone, Debug, PartialEq, Eq)]
pub struct Transaction {
    pub id: String,
    pub description: String,
    pub amount: Number,
    pub transaction_type: String,
    pub category: String,
    pub account: String,
    pub month: String,
    pub date: String,
}

/// A record as mathematical values: every text as its sequence of characters.
pub struct TransactionView {
    pub id: Seq<char>,
    pub description: Seq<char>,
    pub amount: Number,
    pub transaction_type: Seq<char>,
    pub category: Seq<char>,
    pub account: Seq<char>,
    pub month: Seq<char>,
    pub date: Seq<char>,
}

impl View for Transaction {
    type V = TransactionView;

    open spec fn view(&self) -> TransactionView {
        TransactionView {
            id: self.id@,
            description: self.description@,
            amount: self.amount,
            transaction_type: self.transaction_type@,
            category: self.category@,
            account: self.account@,
            month: self.month@,
            date: self.date@,
        }
    }
}

/// A collection as mathematical values, in the collection's order.
pub open spec fn views(records: Seq<Transaction>) -> Seq<TransactionView> {
    records.map_values(|record: Transaction| record@)
}

} // verus!
