use vstd::prelude::*;

use crate::amount::{amount_of, Amount};
use crate::error::Error;

verus! {

/// Relies on `uuid::Uuid::new_v4` for a random identifier, given as its
/// 128 bits; nothing is promised of it.
#[verifier::external_body]
fn fresh_id() -> (r: u128) {
    uuid::Uuid::new_v4().as_u128()
}

/// The hyphenated text that `uuid` writes for the identifier with these bits.
pub uninterp spec fn uuid_text_of(id: u128) -> Seq<char>;

/// Relies on `uuid::Uuid::from_u128` and the `Display` of `Uuid` to write an
/// identifier as text.
#[verifier::external_body]
pub(crate) fn uuid_text(id: u128) -> (r: String)
    ensures
        r@ == uuid_text_of(id),
{
    uuid::Uuid::from_u128(id).to_string()
}

/// A value paired with the identifier that it is stored under.
#[derive(Debug)]
pub struct WithId<T> {
    /// The bits of a version 4 UUID.
    pub id: u128,
    pub data: T,
}

impl<T> WithId<T> {
    /// Stamps `data` with a freshly generated identifier.
    pub fn from_data(data: T) -> (r: WithId<T>)
        ensures
            r.data == data,
    {
        WithId { id: fresh_id(), data }
    }
}

impl<T: Default> WithId<T> {
    /// Stamps the default value of `T` with a freshly generated identifier.
    pub fn new() -> (r: WithId<T>)
        ensures
            call_ensures(T::default, (), r.data),
    {
        WithId { id: fresh_id(), data: T::default() }
    }
}

impl<T: Default> Default for WithId<T> {
    fn default() -> (r: WithId<T>) {
        WithId::new()
    }
}

/// A calendar date, as year, month and day.
#[derive(PartialEq, Eq, Structural, Clone, Copy, Debug)]
pub struct Date {
    pub year: i32,
    pub month: u32,
    pub day: u32,
}

/// A date written as `YYYY-MM-DD`, as `chrono` reads it, as (year, month, day).
pub uninterp spec fn calendar_date_of(s: Seq<char>) -> Option<(i32, u32, u32)>;

/// Relies on `chrono::NaiveDate::from_str` to read a date, and on `Datelike`
/// to take it apart into year, month and day.
#[verifier::external_body]
fn parse_calendar_date(s: &str) -> (r: Option<(i32, u32, u32)>)
    ensures
        r == calendar_date_of(s@),
{
    <chrono::NaiveDate as std::str::FromStr>::from_str(s).ok().map(
        |d| (chrono::Datelike::year(&d), chrono::Datelike::month(&d), chrono::Datelike::day(&d)),
    )
}

/// The text that `chrono` writes for a date, `YYYY-MM-DD`; `None` where the
/// parts do not make a date.
pub uninterp spec fn calendar_date_text_of(year: i32, month: u32, day: u32) -> Option<Seq<char>>;

/// Relies on `chrono::NaiveDate::from_ymd_opt` to build the date and on its
/// `Display` to write it.
#[verifier::external_body]
fn calendar_date_text(year: i32, month: u32, day: u32) -> (r: Option<String>)
    ensures
        r matches Some(t) ==> calendar_date_text_of(year, month, day) == Some(t@),
        r is None ==> calendar_date_text_of(year, month, day) is None,
{
    chrono::NaiveDate::from_ymd_opt(year, month, day).map(|d| d.to_string())
}

pub open spec fn date_from_parts(p: (i32, u32, u32)) -> Date {
    Date { year: p.0, month: p.1, day: p.2 }
}

impl Date {
    /// The date as `YYYY-MM-DD`, as it is stored; `None` where it is no
    /// calendar date.
    pub fn to_text(&self) -> (r: Option<String>)
        ensures
            r matches Some(t) ==> calendar_date_text_of(self.year, self.month, self.day) == Some(t@),
            r is None ==> calendar_date_text_of(self.year, self.month, self.day) is None,
    {
        calendar_date_text(self.year, self.month, self.day)
    }

    /// Reads a date written as `YYYY-MM-DD`.
    pub fn parse(s: &str) -> (r: Option<Date>)
        ensures
            r == (match calendar_date_of(s@) {
                Some(p) => Some(date_from_parts(p)),
                None => None,
            }),
    {
        match parse_calendar_date(s) {
            Some(p) => Some(Date { year: p.0, month: p.1, day: p.2 }),
            None => None,
        }
    }
}

/// The mathematical content of a report: gross revenue, expenses and net
/// revenue, in millionths.
pub struct Totals {
    pub gross: int,
    pub expenses: int,
    pub net: int,
}

pub open spec fn zero_totals() -> Totals {
    Totals { gross: 0, expenses: 0, net: 0 }
}

/// A report is consistent when revenue and expenses are non-negative and the
/// net revenue is their difference.
pub open spec fn consistent(t: Totals) -> bool {
    t.gross >= 0 && t.expenses >= 0 && t.net == t.gross - t.expenses
}

/// Books one movement: a positive amount is revenue, any other an expense.
pub open spec fn add_movement(r: Totals, amount: int) -> Totals {
    if amount > 0 {
        Totals { gross: r.gross + amount, expenses: r.expenses, net: r.net + amount }
    } else {
        Totals { gross: r.gross, expenses: r.expenses - amount, net: r.net + amount }
    }
}

/// Component-wise sum of two reports.
pub open spec fn merge(a: Totals, b: Totals) -> Totals {
    Totals { gross: a.gross + b.gross, expenses: a.expenses + b.expenses, net: a.net + b.net }
}

/// Whether revenue and expenses both fit the amount representation.
pub open spec fn representable(t: Totals) -> bool {
    t.gross <= i128::MAX && t.expenses <= i128::MAX
}

/// Gross revenue, expenses and net revenue of a batch or of the whole ledger.
#[derive(PartialEq, Eq, Structural, Clone, Copy, Debug)]
pub struct Report {
    pub gross_revenue: Amount,
    pub expenses: Amount,
    pub net_revenue: Amount,
}

impl View for Report {
    type V = Totals;

    open spec fn view(&self) -> Totals {
        Totals { gross: self.gross_revenue@, expenses: self.expenses@, net: self.net_revenue@ }
    }
}

impl Report {
    pub open spec fn wf(&self) -> bool {
        consistent(self@)
    }

    /// Whether revenue and expenses are non-negative and the net revenue is
    /// their difference.
    pub fn is_consistent(&self) -> (r: bool)
        ensures
            r == self.wf(),
    {
        self.gross_revenue.units >= 0 && self.expenses.units >= 0
            && self.net_revenue.units as i128 == (self.gross_revenue.units - self.expenses.units)
    }

    /// A report from its three figures, which must agree.
    pub fn from_dec(gross_revenue: Amount, expenses: Amount, net_revenue: Amount) -> (r: Report)
        requires
            gross_revenue@ >= 0,
            expenses@ >= 0,
            net_revenue@ == gross_revenue@ - expenses@,
        ensures
            r@ == (Totals { gross: gross_revenue@, expenses: expenses@, net: net_revenue@ }),
            r.wf(),
    {
        Report { gross_revenue, expenses, net_revenue }
    }

    /// A report from the two figures that are stored for it, as decimal text;
    /// the net revenue is derived from them. Fails with `ColumnDecode` where a
    /// figure is not a non-negative amount.
    pub fn from_columns(gross_revenue: &str, expenses: &str) -> (r: Result<Report, Error>)
        ensures
            match (amount_of(gross_revenue@), amount_of(expenses@)) {
                (Some(g), Some(e)) => if g >= 0 && e >= 0 {
                    r matches Ok(x) && x@ == (Totals { gross: g, expenses: e, net: g - e })
                } else {
                    r == Err::<Report, Error>(Error::ColumnDecode)
                },
                _ => r == Err::<Report, Error>(Error::ColumnDecode),
            },
    {
        match (Amount::parse(gross_revenue), Amount::parse(expenses)) {
            (Some(g), Some(e)) => {
                if g.units >= 0 && e.units >= 0 {
                    Ok(Report::from_dec(g, e, Amount { units: g.units - e.units }))
                } else {
                    Err(Error::ColumnDecode)
                }
            },
            _ => Err(Error::ColumnDecode),
        }
    }

    /// The empty report, neutral for both `add_transaction` and `add`.
    pub fn new() -> (r: Report)
        ensures
            r@ == zero_totals(),
            r.wf(),
    {
        Report { gross_revenue: Amount::zero(), expenses: Amount::zero(), net_revenue: Amount::zero() }
    }

    pub fn gross_revenue(&self) -> (r: Amount)
        ensures
            r == self.gross_revenue,
    {
        self.gross_revenue
    }

    pub fn expenses(&self) -> (r: Amount)
        ensures
            r == self.expenses,
    {
        self.expenses
    }

    pub fn net_revenue(&self) -> (r: Amount)
        ensures
            r == self.net_revenue,
    {
        self.net_revenue
    }

    /// Books one movement into a report.
    pub fn add_transaction(report: &Report, transaction: &Transaction) -> (r: Report)
        requires
            report.wf(),
            representable(add_movement(report@, transaction.amount@)),
        ensures
            r@ == add_movement(report@, transaction.amount@),
            r.wf(),
    {
        let a = transaction.amount.units;
        if a > 0 {
            Report {
                gross_revenue: Amount { units: report.gross_revenue.units + a },
                expenses: report.expenses,
                net_revenue: Amount { units: report.net_revenue.units + a },
            }
        } else {
            Report {
                gross_revenue: report.gross_revenue,
                expenses: Amount { units: report.expenses.units - a },
                net_revenue: Amount { units: report.net_revenue.units + a },
            }
        }
    }

    /// Books one movement, or `None` where the result would not fit.
    pub fn checked_add_transaction(report: &Report, transaction: &Transaction) -> (r: Option<Report>)
        requires
            report.wf(),
        ensures
            r is Some <==> representable(add_movement(report@, transaction.amount@)),
            r matches Some(x) ==> x@ == add_movement(report@, transaction.amount@) && x.wf(),
    {
        let a = transaction.amount.units;
        let fits = if a > 0 {
            report.gross_revenue.units.checked_add(a).is_some()
        } else {
            report.expenses.units.checked_sub(a).is_some()
        };
        if fits {
            Some(Report::add_transaction(report, transaction))
        } else {
            None
        }
    }

    /// Sums two reports figure by figure.
    pub fn add(lhs: &Report, rhs: &Report) -> (r: Report)
        requires
            lhs.wf(),
            rhs.wf(),
            representable(merge(lhs@, rhs@)),
        ensures
            r@ == merge(lhs@, rhs@),
            r.wf(),
    {
        Report {
            gross_revenue: Amount { units: lhs.gross_revenue.units + rhs.gross_revenue.units },
            expenses: Amount { units: lhs.expenses.units + rhs.expenses.units },
            net_revenue: Amount { units: lhs.net_revenue.units + rhs.net_revenue.units },
        }
    }

    /// Sums two reports, or `None` where the result would not fit.
    pub fn checked_add(lhs: &Report, rhs: &Report) -> (r: Option<Report>)
        requires
            lhs.wf(),
            rhs.wf(),
        ensures
            r is Some <==> representable(merge(lhs@, rhs@)),
            r matches Some(x) ==> x@ == merge(lhs@, rhs@) && x.wf(),
    {
        if lhs.gross_revenue.units.checked_add(rhs.gross_revenue.units).is_some()
            && lhs.expenses.units.checked_add(rhs.expenses.units).is_some() {
            Some(Report::add(lhs, rhs))
        } else {
            None
        }
    }
}

impl Default for Report {
    fn default() -> (r: Report)
        ensures
            r@ == zero_totals(),
    {
        Report::new()
    }
}

/// One row of a statement as read: date, label, amount as written, memo.
#[derive(Debug, Clone)]
pub struct TransactionFromCSV {
    pub date: Date,
    pub income: String,
    pub amount: Amount,
    pub memo: String,
}

/// One signed movement of money: positive for income, negative for an expense.
#[derive(Debug, Clone)]
pub struct Transaction {
    pub date: Date,
    pub amount: Amount,
    pub memo: String,
}

impl PartialEq for Transaction {
    fn eq(&self, other: &Transaction) -> (r: bool) {
        self.date == other.date && self.amount == other.amount && self.memo == other.memo
    }
}

impl vstd::std_specs::cmp::PartialEqSpecImpl for Transaction {
    open spec fn obeys_eq_spec() -> bool {
        true
    }

    open spec fn eq_spec(&self, other: &Transaction) -> bool {
        self.date == other.date && self.amount == other.amount && self.memo@ == other.memo@
    }
}

pub open spec fn is_income_label(s: Seq<char>) -> bool {
    s == "Income"@
}

pub open spec fn is_expense_label(s: Seq<char>) -> bool {
    s == "Expense"@
}

impl Transaction {
    /// Turns a row into a movement: an `Income` row keeps its amount, an
    /// `Expense` row has it negated; any other label is refused.
    pub fn try_from(value: TransactionFromCSV) -> (r: Result<Transaction, Error>)
        ensures
            is_income_label(value.income@) ==> (r matches Ok(t) && t.amount == value.amount
                && t.date == value.date && t.memo@ == value.memo@),
            is_expense_label(value.income@) && value.amount.units != i128::MIN ==> (r matches Ok(t)
                && t.amount@ == -value.amount@ && t.date == value.date && t.memo@ == value.memo@),
            is_expense_label(value.income@) && value.amount.units == i128::MIN ==> r
                == Err::<Transaction, Error>(Error::AmountOverflow),
            !is_income_label(value.income@) && !is_expense_label(value.income@) ==> r
                == Err::<Transaction, Error>(Error::InvalidCSVIncome),
    {
        proof {
            reveal_strlit("Income");
            reveal_strlit("Expense");
            assert("Income"@[0] != "Expense"@[0]);
        }
        let income = "Income".to_owned();
        let expense = "Expense".to_owned();
        if value.income == income {
            Ok(Transaction { date: value.date, amount: value.amount, memo: value.memo })
        } else if value.income == expense {
            if value.amount.units == i128::MIN {
                Err(Error::AmountOverflow)
            } else {
                Ok(
                    Transaction {
                        date: value.date,
                        amount: Amount { units: -value.amount.units },
                        memo: value.memo,
                    },
                )
            }
        } else {
            Err(Error::InvalidCSVIncome)
        }
    }
}

} // verus!
