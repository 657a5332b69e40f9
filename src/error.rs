use vstd::prelude::*;

verus! {

/// What can go wrong in the ledger.
#[derive(PartialEq, Eq, Debug)]
pub enum Error {
    /// The store failed; the message is the store's own.
    QueryError(String),
    /// A row could not be read as date, label, amount and memo.
    MalformedRow,
    /// A row's label is neither `Income` nor `Expense`.
    InvalidCSVIncome,
    /// The request carried no CSV under the expected field name.
    MissingInputField,
    /// A stored figure could not be read back as an amount.
    ColumnDecode,
    /// A total does not fit the amount representation.
    AmountOverflow,
}

} // verus!
