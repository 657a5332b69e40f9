use vstd::prelude::*;

use crate::amount::{amount_of, Amount};
use crate::entity::{
    add_movement, calendar_date_of, consistent, date_from_parts, is_expense_label,
    is_income_label, merge, representable, zero_totals, Date, Report, Totals, Transaction,
    TransactionFromCSV, WithId,
};
use crate::error::Error;

verus! {

/// Folds amounts into a report, from the empty report, in order.
pub open spec fn balance(amounts: Seq<int>) -> Totals
    decreases amounts.len(),
{
    if amounts.len() == 0 {
        zero_totals()
    } else {
        add_movement(balance(amounts.drop_last()), amounts.last())
    }
}

/// Folds reports together with `merge`, from the empty report, in order.
pub open spec fn total(reports: Seq<Totals>) -> Totals
    decreases reports.len(),
{
    if reports.len() == 0 {
        zero_totals()
    } else {
        merge(total(reports.drop_last()), reports.last())
    }
}

pub open spec fn amounts_of(transactions: Seq<Transaction>) -> Seq<int> {
    transactions.map_values(|t: Transaction| t.amount@)
}

pub open spec fn totals_of(reports: Seq<Report>) -> Seq<Totals> {
    reports.map_values(|r: Report| r@)
}

/// Merging reports is associative and commutative.
pub proof fn merge_associative_commutative(a: Totals, b: Totals, c: Totals)
    ensures
        merge(merge(a, b), c) == merge(a, merge(b, c)),
        merge(a, b) == merge(b, a),
{
}

/// Every report that a batch of movements folds into is consistent: revenue and
/// expenses are non-negative and the net revenue is their difference.
pub proof fn balance_consistent(amounts: Seq<int>)
    ensures
        consistent(balance(amounts)),
    decreases amounts.len(),
{
    if amounts.len() > 0 {
        balance_consistent(amounts.drop_last());
    }
}

/// Merging consistent reports gives a consistent report.
pub proof fn total_consistent(reports: Seq<Totals>)
    requires
        forall|i: int| 0 <= i < reports.len() ==> consistent(#[trigger] reports[i]),
    ensures
        consistent(total(reports)),
    decreases reports.len(),
{
    if reports.len() > 0 {
        total_consistent(reports.drop_last());
    }
}

/// Folding two batches one after the other gives the merge of their reports.
pub proof fn balance_concat(a: Seq<int>, b: Seq<int>)
    ensures
        balance(a + b) == merge(balance(a), balance(b)),
    decreases b.len(),
{
    if b.len() == 0 {
        assert(a + b =~= a);
    } else {
        balance_concat(a, b.drop_last());
        assert((a + b).drop_last() =~= a + b.drop_last());
        assert((a + b).last() == b.last());
    }
}

/// Splitting a batch at any point and merging the reports of the two parts
/// gives the report of the whole batch.
pub proof fn batch_split(amounts: Seq<int>, k: int)
    requires
        0 <= k <= amounts.len(),
    ensures
        balance(amounts) == merge(balance(amounts.take(k)), balance(amounts.skip(k))),
{
    assert(amounts =~= amounts.take(k) + amounts.skip(k));
    balance_concat(amounts.take(k), amounts.skip(k));
}

/// Totalling two lists of reports one after the other gives the merge of their
/// totals.
pub proof fn total_concat(a: Seq<Totals>, b: Seq<Totals>)
    ensures
        total(a + b) == merge(total(a), total(b)),
    decreases b.len(),
{
    if b.len() == 0 {
        assert(a + b =~= a);
    } else {
        total_concat(a, b.drop_last());
        assert((a + b).drop_last() =~= a + b.drop_last());
        assert((a + b).last() == b.last());
    }
}

/// Where the ingest of one batch stands. `Committed` and `Aborted` are final.
#[derive(PartialEq, Eq, Structural, Clone, Copy, Debug)]
pub enum IngestState {
    WritingMovements,
    WritingReport,
    Committing,
    Committed,
    Aborted,
}

/// What the store is asked to do next.
#[derive(PartialEq, Eq, Structural, Clone, Copy, Debug)]
pub enum StoreAction {
    /// Insert every movement of the batch, under the open transaction.
    InsertMovements,
    /// Insert the batch's report fragment, under the open transaction.
    InsertReportFragment,
    /// Commit the transaction.
    Commit,
    /// Discard the transaction: nothing of the batch may stay.
    Rollback,
    /// Nothing more: the batch is committed.
    Finished,
}

/// How the store carried out the last action.
#[derive(Debug)]
pub enum StoreOutcome {
    Done,
    Fault(String),
}

pub open spec fn next_state(s: IngestState, outcome: StoreOutcome) -> IngestState {
    match s {
        IngestState::WritingMovements => match outcome {
            StoreOutcome::Done => IngestState::WritingReport,
            StoreOutcome::Fault(_) => IngestState::Aborted,
        },
        IngestState::WritingReport => match outcome {
            StoreOutcome::Done => IngestState::Committing,
            StoreOutcome::Fault(_) => IngestState::Aborted,
        },
        IngestState::Committing => match outcome {
            StoreOutcome::Done => IngestState::Committed,
            StoreOutcome::Fault(_) => IngestState::Aborted,
        },
        IngestState::Committed => IngestState::Committed,
        IngestState::Aborted => IngestState::Aborted,
    }
}

pub open spec fn action_for(s: IngestState) -> StoreAction {
    match s {
        IngestState::WritingMovements => StoreAction::InsertMovements,
        IngestState::WritingReport => StoreAction::InsertReportFragment,
        IngestState::Committing => StoreAction::Commit,
        IngestState::Committed => StoreAction::Finished,
        IngestState::Aborted => StoreAction::Rollback,
    }
}

/// The actions asked of the store from state `s` on, as the outcomes come in.
pub open spec fn actions_after(s: IngestState, outcomes: Seq<StoreOutcome>) -> Seq<StoreAction>
    decreases outcomes.len(),
{
    if outcomes.len() == 0 {
        Seq::empty()
    } else {
        let n = next_state(s, outcomes[0]);
        seq![action_for(n)] + actions_after(n, outcomes.skip(1))
    }
}

proof fn final_state_never_commits(s: IngestState, outcomes: Seq<StoreOutcome>)
    requires
        s == IngestState::Committed || s == IngestState::Aborted,
    ensures
        forall|k: int|
            0 <= k < actions_after(s, outcomes).len() ==> #[trigger] actions_after(s, outcomes)[k]
                != StoreAction::Commit,
    decreases outcomes.len(),
{
    if outcomes.len() > 0 {
        final_state_never_commits(s, outcomes.skip(1));
    }
}

/// Once the insert of the report fragment has failed, the transaction is
/// rolled back and never committed, whatever the store reports afterwards: no
/// movement of the batch becomes visible.
pub proof fn report_fault_never_commits(message: String, later: Seq<StoreOutcome>)
    ensures
        !actions_after(IngestState::WritingReport, seq![StoreOutcome::Fault(message)] + later).contains(
            StoreAction::Commit,
        ),
        actions_after(IngestState::WritingReport, seq![StoreOutcome::Fault(message)] + later)[0]
            == StoreAction::Rollback,
{
    let outs = seq![StoreOutcome::Fault(message)] + later;
    assert(outs.skip(1) =~= later);
    final_state_never_commits(IngestState::Aborted, later);
    let acts = actions_after(IngestState::WritingReport, outs);
    assert(acts =~= seq![StoreAction::Rollback] + actions_after(IngestState::Aborted, later));
    if acts.contains(StoreAction::Commit) {
        let k = choose|k: int| 0 <= k < acts.len() && acts[k] == StoreAction::Commit;
        assert(acts[k] == actions_after(IngestState::Aborted, later)[k - 1]);
    }
}

/// From the start of an ingest, a commit is asked for only as the second
/// action, after both the movements and the report fragment were written.
pub proof fn commit_only_after_both_inserts(outcomes: Seq<StoreOutcome>)
    ensures
        forall|k: int|
            0 <= k < actions_after(IngestState::WritingMovements, outcomes).len() && #[trigger] actions_after(
                IngestState::WritingMovements,
                outcomes,
            )[k] == StoreAction::Commit ==> k == 1 && outcomes[0] is Done && outcomes[1] is Done,
{
    let acts = actions_after(IngestState::WritingMovements, outcomes);
    if outcomes.len() > 0 {
        let s1 = next_state(IngestState::WritingMovements, outcomes[0]);
        let o1 = outcomes.skip(1);
        assert(acts =~= seq![action_for(s1)] + actions_after(s1, o1));
        if s1 == IngestState::Aborted {
            final_state_never_commits(s1, o1);
            assert forall|k: int| 0 <= k < acts.len() implies acts[k] != StoreAction::Commit by {
                if k > 0 {
                    assert(acts[k] == actions_after(s1, o1)[k - 1]);
                }
            }
        } else if o1.len() > 0 {
            let s2 = next_state(s1, o1[0]);
            let o2 = o1.skip(1);
            assert(actions_after(s1, o1) =~= seq![action_for(s2)] + actions_after(s2, o2));
            if o2.len() > 0 {
                let s3 = next_state(s2, o2[0]);
                let o3 = o2.skip(1);
                assert(actions_after(s2, o2) =~= seq![action_for(s3)] + actions_after(s3, o3));
                if s2 == IngestState::Aborted {
                    final_state_never_commits(s2, o2);
                } else {
                    assert(s3 == IngestState::Committed || s3 == IngestState::Aborted);
                    final_state_never_commits(s3, o3);
                }
                assert forall|k: int| 0 <= k < acts.len() && acts[k] == StoreAction::Commit implies k
                    == 1 && outcomes[0] is Done && outcomes[1] is Done by {
                    if k >= 3 {
                        assert(acts[k] == actions_after(s3, o3)[k - 3]);
                    } else if k == 2 {
                        assert(acts[k] == action_for(s3));
                    } else if k == 1 {
                        assert(acts[k] == action_for(s2));
                        assert(o1[0] == outcomes[1]);
                    }
                }
            } else {
                assert forall|k: int| 0 <= k < acts.len() && acts[k] == StoreAction::Commit implies k
                    == 1 && outcomes[0] is Done && outcomes[1] is Done by {
                    if k == 1 {
                        assert(acts[k] == action_for(s2));
                        assert(o1[0] == outcomes[1]);
                    }
                }
            }
        }
    }
}

/// The ingest of one batch: its report fragment and its movements, each under a
/// fresh identifier, and where the writing of them stands.
pub struct Ingest {
    pub state: IngestState,
    pub report: WithId<Report>,
    pub movements: Vec<WithId<Transaction>>,
    pub failure: Option<String>,
}

impl Ingest {
    /// What the store is to do now.
    pub fn action(&self) -> (r: StoreAction)
        ensures
            r == action_for(self.state),
    {
        match self.state {
            IngestState::WritingMovements => StoreAction::InsertMovements,
            IngestState::WritingReport => StoreAction::InsertReportFragment,
            IngestState::Committing => StoreAction::Commit,
            IngestState::Committed => StoreAction::Finished,
            IngestState::Aborted => StoreAction::Rollback,
        }
    }

    /// Takes in how the store carried out the last action and says what it is
    /// to do next. A fault aborts the ingest; a final state stays as it is.
    pub fn step(&mut self, outcome: StoreOutcome) -> (r: StoreAction)
        ensures
            final(self).state == next_state(old(self).state, outcome),
            r == action_for(final(self).state),
            final(self).report == old(self).report,
            final(self).movements == old(self).movements,
            old(self).state != IngestState::Aborted && outcome is Fault && old(self).state
                != IngestState::Committed ==> final(self).failure == Some(outcome->Fault_0),
            !(old(self).state != IngestState::Aborted && outcome is Fault && old(self).state
                != IngestState::Committed) ==> final(self).failure == old(self).failure,
    {
        let live = match self.state {
            IngestState::Committed => false,
            IngestState::Aborted => false,
            _ => true,
        };
        if live {
            match outcome {
                StoreOutcome::Done => {
                    self.state = match self.state {
                        IngestState::WritingMovements => IngestState::WritingReport,
                        IngestState::WritingReport => IngestState::Committing,
                        _ => IngestState::Committed,
                    };
                },
                StoreOutcome::Fault(message) => {
                    self.state = IngestState::Aborted;
                    self.failure = Some(message);
                },
            }
        }
        self.action()
    }

    /// The result of the ingest once it is over: the batch's report when it was
    /// committed, the store's failure when it was aborted.
    pub fn outcome(&self) -> (r: Option<Result<Report, Error>>)
        ensures
            self.state == IngestState::Committed ==> r == Some(Ok::<Report, Error>(self.report.data)),
            self.state == IngestState::Aborted ==> (r matches Some(Err(Error::QueryError(m)))
                && (self.failure matches Some(f) ==> m@ == f@)),
            self.state != IngestState::Committed && self.state != IngestState::Aborted ==> r is None,
    {
        match self.state {
            IngestState::Committed => Some(Ok(self.report.data)),
            IngestState::Aborted => match &self.failure {
                Some(f) => Some(Err(Error::QueryError(f.clone()))),
                None => Some(Err(Error::QueryError(String::new()))),
            },
            _ => None,
        }
    }
}

fn copy_transaction(t: &Transaction) -> (r: Transaction)
    ensures
        movement_view(r) == movement_view(*t),
{
    Transaction { date: t.date, amount: t.amount, memo: t.memo.clone() }
}

pub struct Model;

impl Model {
    /// The report of a batch: its movements booked in order into the empty
    /// report; `None` where revenue or expenses would not fit.
    pub fn calculate_balance_from_transactions(transactions: &Vec<Transaction>) -> (r: Option<
        Report,
    >)
        ensures
            r is Some <==> representable(balance(amounts_of(transactions@))),
            r matches Some(x) ==> x@ == balance(amounts_of(transactions@)) && x.wf(),
    {
        let mut report = Report::new();
        let n = transactions.len();
        let mut i: usize = 0;
        while i < n
            invariant
                n == transactions@.len(),
                0 <= i <= n,
                report.wf(),
                report@ == balance(amounts_of(transactions@.take(i as int))),
            decreases n - i,
        {
            let ghost prefix = amounts_of(transactions@.take(i as int));
            assert(amounts_of(transactions@.take(i + 1)) =~= prefix.push(transactions@[i as int].amount@));
            assert(amounts_of(transactions@.take(i + 1)).drop_last() =~= prefix);
            match Report::checked_add_transaction(&report, &transactions[i]) {
                Some(next) => {
                    report = next;
                },
                None => {
                    proof {
                        let whole = amounts_of(transactions@);
                        let k = i + 1;
                        assert(whole.take(k) =~= amounts_of(transactions@.take(k)));
                        batch_split(whole, k);
                        balance_consistent(whole.skip(k));
                    }
                    return None;
                },
            }
            i = i + 1;
        }
        assert(transactions@.take(n as int) =~= transactions@);
        Some(report)
    }

    /// The total of a list of reports, merged in order into the empty report;
    /// `None` where revenue or expenses would not fit.
    pub fn calculate_total_report(reports: &Vec<Report>) -> (r: Option<Report>)
        requires
            forall|i: int| 0 <= i < reports@.len() ==> (#[trigger] reports@[i]).wf(),
        ensures
            r is Some <==> representable(total(totals_of(reports@))),
            r matches Some(x) ==> x@ == total(totals_of(reports@)) && x.wf(),
    {
        let mut report = Report::new();
        let n = reports.len();
        let mut i: usize = 0;
        while i < n
            invariant
                n == reports@.len(),
                0 <= i <= n,
                forall|j: int| 0 <= j < reports@.len() ==> (#[trigger] reports@[j]).wf(),
                report.wf(),
                report@ == total(totals_of(reports@.take(i as int))),
            decreases n - i,
        {
            let ghost prefix = totals_of(reports@.take(i as int));
            assert(totals_of(reports@.take(i + 1)) =~= prefix.push(reports@[i as int]@));
            assert(totals_of(reports@.take(i + 1)).drop_last() =~= prefix);
            match Report::checked_add(&report, &reports[i]) {
                Some(next) => {
                    report = next;
                },
                None => {
                    proof {
                        let whole = totals_of(reports@);
                        let k = i + 1;
                        assert(whole =~= totals_of(reports@.take(k)) + whole.skip(k));
                        total_concat(totals_of(reports@.take(k)), whole.skip(k));
                        assert forall|j: int| 0 <= j < whole.skip(k).len() implies consistent(
                            #[trigger] whole.skip(k)[j],
                        ) by {
                            assert(reports@[k + j].wf());
                        }
                        total_consistent(whole.skip(k));
                    }
                    return None;
                },
            }
            i = i + 1;
        }
        assert(reports@.take(n as int) =~= reports@);
        Some(report)
    }

    /// Starts the ingest of a batch: its report, and each movement in order,
    /// under fresh identifiers; the first action is to insert the movements.
    /// Fails with `AmountOverflow` exactly when the batch's revenue or
    /// expenses do not fit.
    pub fn commit_transactions(transactions: &Vec<Transaction>) -> (r: Result<Ingest, Error>)
        ensures
            !representable(balance(amounts_of(transactions@))) ==> r == Err::<Ingest, Error>(
                Error::AmountOverflow,
            ),
            representable(balance(amounts_of(transactions@))) ==> (r matches Ok(ingest)
                && ingest.state == IngestState::WritingMovements
                && ingest.report.data@ == balance(amounts_of(transactions@))
                && ingest.report.data.wf()
                && ingest.failure is None
                && ingest.movements@.len() == transactions@.len()
                && forall|i: int| 0 <= i < transactions@.len() ==>
                    movement_view(#[trigger] ingest.movements@[i].data) == movement_view(transactions@[i])),
    {
        let report = match Model::calculate_balance_from_transactions(transactions) {
            Some(report) => report,
            None => {
                return Err(Error::AmountOverflow);
            },
        };
        let mut movements: Vec<WithId<Transaction>> = Vec::new();
        let n = transactions.len();
        let mut i: usize = 0;
        while i < n
            invariant
                n == transactions@.len(),
                0 <= i <= n,
                movements@.len() == i,
                forall|j: int| 0 <= j < i ==>
                    movement_view(#[trigger] movements@[j].data) == movement_view(transactions@[j]),
            decreases n - i,
        {
            movements.push(WithId::from_data(copy_transaction(&transactions[i])));
            i = i + 1;
        }
        Ok(Ingest {
            state: IngestState::WritingMovements,
            report: WithId::from_data(report),
            movements,
            failure: None,
        })
    }
}

/// Lines that start with this byte (`#`) are comments.
pub const COMMENT_MARKER: u8 = 0x23;

/// The records of a CSV text as `csv_async` reads it with fields trimmed, no
/// header row, a varying number of fields per record and lines that start with
/// `comment` skipped: for each record its fields, or `None` where the record
/// could not be read.
pub uninterp spec fn csv_records_of(bytes: Seq<u8>, comment: u8) -> Seq<Option<Seq<Seq<char>>>>;

pub open spec fn fields_view(fields: Vec<String>) -> Seq<Seq<char>> {
    fields@.map_values(|s: String| s@)
}

pub open spec fn record_view(record: Option<Vec<String>>) -> Option<Seq<Seq<char>>> {
    match record {
        Some(fields) => Some(fields_view(fields)),
        None => None,
    }
}

pub open spec fn records_view(records: Seq<Option<Vec<String>>>) -> Seq<Option<Seq<Seq<char>>>> {
    records.map_values(|r: Option<Vec<String>>| record_view(r))
}

/// Relies on `csv_async::AsyncReaderBuilder` and `AsyncReader::records` to split
/// CSV text into records of trimmed fields, run to completion with
/// `futures::executor::block_on`.
#[verifier::external_body]
fn read_csv_records(bytes: &[u8], comment: u8) -> (r: Vec<Option<Vec<String>>>)
    ensures
        records_view(r@) == csv_records_of(bytes@, comment),
{
    let mut reader = csv_async::AsyncReaderBuilder::new()
        .trim(csv_async::Trim::All)
        .comment(Some(comment))
        .has_headers(false)
        .flexible(true)
        .create_reader(bytes);
    let records: Vec<_> = futures::executor::block_on(
        futures::StreamExt::collect(reader.records()),
    );
    records.into_iter().map(|r| r.ok().map(|rec| rec.iter().map(String::from).collect())).collect()
}

/// A movement as values: date, signed amount in millionths, memo.
pub type MovementView = (Date, int, Seq<char>);

pub open spec fn movement_view(t: Transaction) -> MovementView {
    (t.date, t.amount@, t.memo@)
}

/// What one record of fields turns into: a movement, or the reason it is
/// dropped. The first four fields are date, label, amount and memo; further
/// fields are ignored.
pub open spec fn row_outcome(fields: Seq<Seq<char>>) -> Result<MovementView, Error> {
    if fields.len() < 4 {
        Err(Error::MalformedRow)
    } else {
        match (calendar_date_of(fields[0]), amount_of(fields[2])) {
            (Some(d), Some(a)) => if is_income_label(fields[1]) {
                Ok((date_from_parts(d), a, fields[3]))
            } else if is_expense_label(fields[1]) {
                if a == i128::MIN {
                    Err(Error::AmountOverflow)
                } else {
                    Ok((date_from_parts(d), -a, fields[3]))
                }
            } else {
                Err(Error::InvalidCSVIncome)
            },
            _ => Err(Error::MalformedRow),
        }
    }
}

pub open spec fn record_movement(record: Option<Seq<Seq<char>>>) -> Option<MovementView> {
    match record {
        Some(fields) => match row_outcome(fields) {
            Ok(m) => Some(m),
            Err(_) => None,
        },
        None => None,
    }
}

/// The movements of a list of records: those that decode, in their order.
pub open spec fn decode_all(records: Seq<Option<Seq<Seq<char>>>>) -> Seq<MovementView>
    decreases records.len(),
{
    if records.len() == 0 {
        Seq::empty()
    } else {
        let before = decode_all(records.drop_last());
        match record_movement(records.last()) {
            Some(m) => before.push(m),
            None => before,
        }
    }
}

/// Decoding two lists of records one after the other gives the movements of
/// the first followed by those of the second.
pub proof fn decode_concat(a: Seq<Option<Seq<Seq<char>>>>, b: Seq<Option<Seq<Seq<char>>>>)
    ensures
        decode_all(a + b) == decode_all(a) + decode_all(b),
    decreases b.len(),
{
    if b.len() == 0 {
        assert(a + b =~= a);
        assert(decode_all(a) + decode_all(b) =~= decode_all(a));
    } else {
        decode_concat(a, b.drop_last());
        assert((a + b).drop_last() =~= a + b.drop_last());
        assert((a + b).last() == b.last());
        match record_movement(b.last()) {
            Some(m) => {
                assert(decode_all(a) + decode_all(b.drop_last()).push(m) =~= (decode_all(a)
                    + decode_all(b.drop_last())).push(m));
            },
            None => {},
        }
    }
}

/// A record that does not decode, wherever it stands among the others, changes
/// nothing in the movements that come out: they are those of the well-formed
/// records, in their order.
pub proof fn malformed_record_ignored(
    before: Seq<Option<Seq<Seq<char>>>>,
    bad: Option<Seq<Seq<char>>>,
    after: Seq<Option<Seq<Seq<char>>>>,
)
    requires
        record_movement(bad) is None,
    ensures
        decode_all(before + seq![bad] + after) == decode_all(before + after),
{
    decode_concat(before + seq![bad], after);
    decode_concat(before, seq![bad]);
    decode_concat(before, after);
    assert(seq![bad].drop_last() =~= Seq::<Option<Seq<Seq<char>>>>::empty());
    assert(seq![bad].last() == bad);
    assert(decode_all(Seq::<Option<Seq<Seq<char>>>>::empty()) =~= Seq::<MovementView>::empty());
    assert(decode_all(seq![bad]) =~= Seq::<MovementView>::empty());
    assert(decode_all(before) + decode_all(seq![bad]) =~= decode_all(before));
}

pub struct CSVReader;

impl CSVReader {
    /// Turns the fields of one record into a movement, or says why it is dropped.
    pub fn read_record(fields: &Vec<String>) -> (r: Result<Transaction, Error>)
        ensures
            match (r, row_outcome(fields_view(*fields))) {
                (Ok(t), Ok(m)) => movement_view(t) == m,
                (Err(e), Err(f)) => e == f,
                _ => false,
            },
    {
        if fields.len() < 4 {
            return Err(Error::MalformedRow);
        }
        let ghost fv = fields_view(*fields);
        assert(fv[0] == fields@[0]@ && fv[1] == fields@[1]@ && fv[2] == fields@[2]@ && fv[3]
            == fields@[3]@);
        let date = Date::parse(fields[0].as_str());
        let amount = Amount::parse(fields[2].as_str());
        match (date, amount) {
            (Some(date), Some(amount)) => {
                let value = TransactionFromCSV {
                    date,
                    income: fields[1].clone(),
                    amount,
                    memo: fields[3].clone(),
                };
                Transaction::try_from(value)
            },
            _ => Err(Error::MalformedRow),
        }
    }

    /// The movements of a list of records, in order; records that are not
    /// readable or do not decode are dropped.
    pub fn decode_records(records: &Vec<Option<Vec<String>>>) -> (r: Vec<Transaction>)
        ensures
            r@.map_values(|t: Transaction| movement_view(t)) == decode_all(records_view(records@)),
    {
        let mut out: Vec<Transaction> = Vec::new();
        let n = records.len();
        let mut i: usize = 0;
        while i < n
            invariant
                n == records@.len(),
                0 <= i <= n,
                out@.map_values(|t: Transaction| movement_view(t)) == decode_all(
                    records_view(records@.take(i as int)),
                ),
            decreases n - i,
        {
            let ghost rv = records_view(records@.take(i + 1));
            assert(rv.drop_last() =~= records_view(records@.take(i as int)));
            assert(rv.last() == record_view(records@[i as int]));
            let ghost old_out = out@;
            match &records[i] {
                Some(fields) => {
                    match CSVReader::read_record(fields) {
                        Ok(t) => {
                            out.push(t);
                            assert(out@.map_values(|t: Transaction| movement_view(t)) =~= old_out.map_values(
                                |t: Transaction| movement_view(t),
                            ).push(movement_view(t)));
                        },
                        Err(_) => {},
                    }
                },
                None => {},
            }
            i = i + 1;
        }
        assert(records@.take(n as int) =~= records@);
        out
    }

    /// The movements of a CSV text, in the order of its rows: comment lines,
    /// rows that cannot be read and rows with another label than `Income` or
    /// `Expense` are dropped.
    pub fn read_transaction_from_csv_bytes(bytes: &[u8]) -> (r: Vec<Transaction>)
        ensures
            r@.map_values(|t: Transaction| movement_view(t)) == decode_all(
                csv_records_of(bytes@, COMMENT_MARKER),
            ),
    {
        let records = read_csv_records(bytes, COMMENT_MARKER);
        CSVReader::decode_records(&records)
    }
}

} // verus!
