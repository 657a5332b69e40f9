use vstd::prelude::*;

use crate::amount::{decimal_text_of, FRACTION_DIGITS};
use crate::entity::{calendar_date_text_of, uuid_text, uuid_text_of, Report, Transaction, WithId};
use crate::error::Error;
use crate::logic::fields_view;

verus! {

/// The SQLite statement that `sea_query` writes to insert `rows` under
/// `columns` into `table`, values inlined as literals.
pub uninterp spec fn insert_sql_of(
    table: Seq<char>,
    columns: Seq<Seq<char>>,
    rows: Seq<Seq<Seq<char>>>,
) -> Seq<char>;

/// The SQLite statement that `sea_query` writes to select `columns` of every
/// row of `table`.
pub uninterp spec fn select_sql_of(table: Seq<char>, columns: Seq<Seq<char>>) -> Seq<char>;

pub open spec fn rows_view(rows: Seq<Vec<String>>) -> Seq<Seq<Seq<char>>> {
    rows.map_values(|r: Vec<String>| fields_view(r))
}

/// Relies on `sea_query::Query::insert` with `InsertStatement::values`, which
/// refuses a row only when its length differs from the number of columns, and
/// on `to_string(SqliteQueryBuilder)` to write the statement.
#[verifier::external_body]
fn insert_sql(table: &str, columns: &Vec<String>, rows: &Vec<Vec<String>>) -> (r: Option<String>)
    ensures
        r matches Some(s) ==> s@ == insert_sql_of(table@, fields_view(*columns), rows_view(rows@)),
        (forall|i: int| 0 <= i < rows@.len() ==> #[trigger] rows@[i]@.len() == columns@.len()) ==> r is Some,
{
    let mut statement = sea_query::Query::insert();
    statement.into_table(sea_query::Alias::new(table));
    statement.columns(columns.iter().map(|c| sea_query::Alias::new(c.as_str())));
    for row in rows.iter() {
        statement.values(row.iter().map(|v| sea_query::SimpleExpr::from(v.as_str()))).ok()?;
    }
    Some(sea_query::QueryStatementWriter::to_string(&statement, sea_query::SqliteQueryBuilder))
}

/// Relies on `sea_query::Query::select` and `to_string(SqliteQueryBuilder)` to
/// write a statement that selects columns of a table.
#[verifier::external_body]
fn select_sql(table: &str, columns: &Vec<String>) -> (r: String)
    ensures
        r@ == select_sql_of(table@, fields_view(*columns)),
{
    let mut statement = sea_query::Query::select();
    statement.from(sea_query::Alias::new(table));
    statement.columns(columns.iter().map(|c| sea_query::Alias::new(c.as_str())));
    sea_query::QueryStatementWriter::to_string(&statement, sea_query::SqliteQueryBuilder)
}

pub open spec fn report_table() -> Seq<char> {
    "report"@
}

pub open spec fn report_columns() -> Seq<Seq<char>> {
    seq!["id"@, "gross_revenue"@, "expenses"@]
}

pub open spec fn report_figure_columns() -> Seq<Seq<char>> {
    seq!["gross_revenue"@, "expenses"@]
}

pub open spec fn movement_table() -> Seq<char> {
    "transactions"@
}

pub open spec fn movement_columns() -> Seq<Seq<char>> {
    seq!["id"@, "date"@, "amount"@, "memo"@]
}

/// The stored row of a report fragment: its identifier and the text of its
/// revenue and expenses; the net revenue is derived when read back.
pub open spec fn report_row(report: WithId<Report>) -> Option<Seq<Seq<char>>> {
    match (
        decimal_text_of(report.data.gross_revenue.units, FRACTION_DIGITS),
        decimal_text_of(report.data.expenses.units, FRACTION_DIGITS),
    ) {
        (Some(g), Some(e)) => Some(seq![uuid_text_of(report.id), g, e]),
        _ => None,
    }
}

/// The stored row of a movement: identifier, date, amount and memo as text.
pub open spec fn movement_row(movement: WithId<Transaction>) -> Result<Seq<Seq<char>>, Error> {
    let t = movement.data;
    match calendar_date_text_of(t.date.year, t.date.month, t.date.day) {
        None => Err(Error::MalformedRow),
        Some(d) => match decimal_text_of(t.amount.units, FRACTION_DIGITS) {
            None => Err(Error::AmountOverflow),
            Some(a) => Ok(seq![uuid_text_of(movement.id), d, a, t.memo@]),
        },
    }
}

fn names3(a: &str, b: &str, c: &str) -> (r: Vec<String>)
    ensures
        fields_view(r) == seq![a@, b@, c@],
        r@.len() == 3,
{
    let r = vec![a.to_owned(), b.to_owned(), c.to_owned()];
    assert(fields_view(r) =~= seq![a@, b@, c@]);
    r
}

fn names4(a: &str, b: &str, c: &str, d: &str) -> (r: Vec<String>)
    ensures
        fields_view(r) == seq![a@, b@, c@, d@],
        r@.len() == 4,
{
    let r = vec![a.to_owned(), b.to_owned(), c.to_owned(), d.to_owned()];
    assert(fields_view(r) =~= seq![a@, b@, c@, d@]);
    r
}

/// The statement that reads the revenue and expenses of every report fragment.
pub fn select_reports_statement() -> (r: String)
    ensures
        r@ == select_sql_of(report_table(), report_figure_columns()),
{
    let columns = vec!["gross_revenue".to_owned(), "expenses".to_owned()];
    proof {
        reveal_strlit("gross_revenue");
        reveal_strlit("expenses");
        assert(fields_view(columns) =~= report_figure_columns());
    }
    select_sql("report", &columns)
}

/// The statement that reads every stored movement.
pub fn select_movements_statement() -> (r: String)
    ensures
        r@ == select_sql_of(movement_table(), movement_columns()),
{
    let columns = names4("id", "date", "amount", "memo");
    select_sql("transactions", &columns)
}

/// The statement that appends one report fragment; `AmountOverflow` where a
/// figure cannot be written as a decimal.
pub fn insert_report_statement(report: &WithId<Report>) -> (r: Result<String, Error>)
    ensures
        match report_row(*report) {
            Some(row) => r matches Ok(s) && s@ == insert_sql_of(
                report_table(),
                report_columns(),
                seq![row],
            ),
            None => r == Err::<String, Error>(Error::AmountOverflow),
        },
{
    let gross = match report.data.gross_revenue.to_text() {
        Some(t) => t,
        None => {
            return Err(Error::AmountOverflow);
        },
    };
    let expenses = match report.data.expenses.to_text() {
        Some(t) => t,
        None => {
            return Err(Error::AmountOverflow);
        },
    };
    let row = vec![uuid_text(report.id), gross, expenses];
    assert(fields_view(row) =~= report_row(*report)->Some_0);
    let rows = vec![row];
    let columns = names3("id", "gross_revenue", "expenses");
    assert(rows_view(rows@) =~= seq![report_row(*report)->Some_0]);
    match insert_sql("report", &columns, &rows) {
        Some(s) => Ok(s),
        None => {
            assert(rows@[0]@.len() == columns@.len());
            Err(Error::AmountOverflow)
        },
    }
}

/// The stored row of one movement.
fn movement_columns_of(m: &WithId<Transaction>) -> (r: Result<Vec<String>, Error>)
    ensures
        match movement_row(*m) {
            Ok(row) => r matches Ok(v) && fields_view(v) == row && v@.len() == 4,
            Err(e) => r == Err::<Vec<String>, Error>(e),
        },
{
    let date = match m.data.date.to_text() {
        Some(t) => t,
        None => {
            return Err(Error::MalformedRow);
        },
    };
    let amount = match m.data.amount.to_text() {
        Some(t) => t,
        None => {
            return Err(Error::AmountOverflow);
        },
    };
    let row = vec![uuid_text(m.id), date, amount, m.data.memo.clone()];
    assert(fields_view(row) =~= movement_row(*m)->Ok_0);
    Ok(row)
}

/// The statement that appends every movement, in order; `None` where there is
/// none. A movement whose date is no calendar date gives `MalformedRow`, one
/// whose amount cannot be written as a decimal `AmountOverflow`: the first such
/// movement decides.
pub fn insert_movements_statement(movements: &Vec<WithId<Transaction>>) -> (r: Result<
    Option<String>,
    Error,
>)
    ensures
        (forall|i: int| 0 <= i < movements@.len() ==> #[trigger] movement_row(movements@[i]) is Ok)
            ==> (if movements@.len() == 0 {
            r == Ok::<Option<String>, Error>(None)
        } else {
            r matches Ok(Some(s)) && s@ == insert_sql_of(
                movement_table(),
                movement_columns(),
                Seq::new(movements@.len(), |i: int| movement_row(movements@[i])->Ok_0),
            )
        }),
        r matches Err(e) ==> exists|i: int|
            0 <= i < movements@.len() && movement_row(movements@[i]) == Err::<Seq<Seq<char>>, Error>(e)
                && forall|j: int| 0 <= j < i ==> #[trigger] movement_row(movements@[j]) is Ok,
        (exists|i: int| 0 <= i < movements@.len() && #[trigger] movement_row(movements@[i]) is Err)
            ==> r is Err,
{
    let mut rows: Vec<Vec<String>> = Vec::new();
    let n = movements.len();
    let mut i: usize = 0;
    while i < n
        invariant
            n == movements@.len(),
            0 <= i <= n,
            rows@.len() == i,
            forall|j: int| 0 <= j < i ==> #[trigger] movement_row(movements@[j]) is Ok,
            forall|j: int|
                0 <= j < i ==> fields_view(#[trigger] rows@[j]) == movement_row(movements@[j])->Ok_0
                    && rows@[j]@.len() == 4,
        decreases n - i,
    {
        let row = match movement_columns_of(&movements[i]) {
            Ok(row) => row,
            Err(e) => {
                return Err(e);
            },
        };
        rows.push(row);
        i = i + 1;
    }
    if n == 0 {
        return Ok(None);
    }
    let columns = names4("id", "date", "amount", "memo");
    let ghost expected = Seq::new(movements@.len(), |k: int| movement_row(movements@[k])->Ok_0);
    assert(rows_view(rows@) =~= expected);
    match insert_sql("transactions", &columns, &rows) {
        Some(s) => Ok(Some(s)),
        None => {
            assert(forall|k: int| 0 <= k < rows@.len() ==> #[trigger] rows@[k]@.len() == columns@.len());
            Err(Error::AmountOverflow)
        },
    }
}

} // verus!
