use ledger::amount::Amount;
use ledger::entity::{Date, Report, Transaction};
use ledger::error::Error;
use ledger::logic::{CSVReader, IngestState, Model, StoreAction, StoreOutcome};

fn amount(s: &str) -> Amount {
    Amount::parse(s).unwrap()
}

fn date(s: &str) -> Date {
    Date::parse(s).unwrap()
}

fn movement(d: &str, a: &str, memo: &str) -> Transaction {
    Transaction { date: date(d), amount: amount(a), memo: memo.to_string() }
}

fn report(g: &str, e: &str, n: &str) -> Report {
    Report::from_dec(amount(g), amount(e), amount(n))
}

#[test]
fn valid_csv() {
    let csv = vec!["2021-07-12, Income, 87.32, first", "2023-08-20, Expense, 12.13, second"].join("\n");
    let expected_transactions = vec![
        movement("2021-07-12", "87.32", "first"),
        movement("2023-08-20", "-12.13", "second"),
    ];

    let transactions = CSVReader::read_transaction_from_csv_bytes(csv.as_bytes());

    assert_eq!(transactions, expected_transactions);
}

#[test]
fn invalid_csv() {
    let csv = vec![
        "text",
        "# comment",
        "2020-09-12, Income",
        "2021-07-12, Income, 87.32, first",
        "2023-08-13, NotExpense, 10.12, third",
        "2023-08-20, Expense, 12.13, second",
        "20-08-2023, Income, 10.00, fourth",
    ]
    .join("\n");
    let expected_transactions = vec![
        movement("2021-07-12", "87.32", "first"),
        movement("2023-08-20", "-12.13", "second"),
    ];

    let transactions = CSVReader::read_transaction_from_csv_bytes(csv.as_bytes());

    assert_eq!(transactions, expected_transactions);
    let report = Model::calculate_balance_from_transactions(&transactions).unwrap();
    assert_eq!(report, report_of_first_and_second());
}

fn report_of_first_and_second() -> Report {
    report("87.32", "12.13", "75.19")
}

#[test]
fn empty_csv_gives_no_movements() {
    assert!(CSVReader::read_transaction_from_csv_bytes(b"").is_empty());
    assert!(CSVReader::read_transaction_from_csv_bytes(b"# only\nbad,row\n").is_empty());
}

#[test]
fn duplicate_rows_are_kept() {
    let csv = "2021-07-12, Income, 1, a\n2021-07-12, Income, 1, a";
    let transactions = CSVReader::read_transaction_from_csv_bytes(csv.as_bytes());
    assert_eq!(transactions.len(), 2);
}

#[test]
fn extra_fields_are_ignored() {
    let csv = "2021-07-12, Income, 1.5, a, extra, more";
    let transactions = CSVReader::read_transaction_from_csv_bytes(csv.as_bytes());
    assert_eq!(transactions, vec![movement("2021-07-12", "1.5", "a")]);
}

#[test]
fn malformed_rows_anywhere_are_dropped() {
    let good = ["2021-07-12, Income, 87.32, first", "2023-08-20, Expense, 12.13, second"];
    let bad = ["nonsense", "2023-08-13, NotExpense, 10.12, third", "# note"];
    for pos in 0..3 {
        let mut rows: Vec<&str> = good.to_vec();
        for b in bad.iter() {
            rows.insert(pos, b);
        }
        let transactions = CSVReader::read_transaction_from_csv_bytes(rows.join("\n").as_bytes());
        assert_eq!(
            transactions,
            vec![movement("2021-07-12", "87.32", "first"), movement("2023-08-20", "-12.13", "second")]
        );
    }
}

#[test]
fn read_record_reports_each_failure() {
    let fields = |v: &[&str]| v.iter().map(|s| s.to_string()).collect::<Vec<String>>();
    assert_eq!(CSVReader::read_record(&fields(&["2020-09-12", "Income"])), Err(Error::MalformedRow));
    assert_eq!(
        CSVReader::read_record(&fields(&["2020-09-12", "Income", "x", "m"])),
        Err(Error::MalformedRow)
    );
    assert_eq!(
        CSVReader::read_record(&fields(&["2020-13-12", "Income", "1", "m"])),
        Err(Error::MalformedRow)
    );
    assert_eq!(
        CSVReader::read_record(&fields(&["2020-09-12", "Other", "1", "m"])),
        Err(Error::InvalidCSVIncome)
    );
    assert_eq!(
        CSVReader::read_record(&fields(&["2020-09-12", "Expense", "2.5", "m"])),
        Ok(movement("2020-09-12", "-2.5", "m"))
    );
}

#[test]
fn decode_records_skips_unreadable_records() {
    let records = vec![
        None,
        Some(vec!["2020-09-12".to_string(), "Income".to_string(), "3".to_string(), "m".to_string()]),
        Some(vec!["bad".to_string()]),
    ];
    assert_eq!(CSVReader::decode_records(&records), vec![movement("2020-09-12", "3", "m")]);
}

#[test]
fn balance_from_transactions() {
    let transactions = vec![
        movement("2021-07-12", "87.32", "first"),
        movement("2023-08-20", "-12.13", "second"),
    ];
    let expected_report = report("87.32", "12.13", "75.19");

    let report = Model::calculate_balance_from_transactions(&transactions).unwrap();

    assert_eq!(report, expected_report);
}

#[test]
fn balance_overflow_is_none() {
    let big = Transaction { date: date("2020-01-01"), amount: Amount { units: i128::MAX }, memo: String::new() };
    let one = Transaction { date: date("2020-01-01"), amount: Amount { units: 1 }, memo: String::new() };
    assert_eq!(Model::calculate_balance_from_transactions(&vec![big, one]), None);
}

#[test]
fn total_reports() {
    let reports = vec![report("87.32", "12.13", "75.19"), report("10.01", "2.05", "7.96")];
    let expected_report = report("97.33", "14.18", "83.15");

    let report = Model::calculate_total_report(&reports).unwrap();

    assert_eq!(report, expected_report);
}

#[test]
fn empty_report() {
    let report = Model::calculate_total_report(&vec![]).unwrap();
    assert_eq!(report, Report::new());
    assert_eq!(report.net_revenue(), amount("0"));
}

#[test]
fn merge_is_associative_and_commutative() {
    let a = report("87.32", "12.13", "75.19");
    let b = report("10.01", "2.05", "7.96");
    let c = report("0.5", "3", "-2.5");
    assert_eq!(Report::add(&Report::add(&a, &b), &c), Report::add(&a, &Report::add(&b, &c)));
    assert_eq!(Report::add(&a, &b), Report::add(&b, &a));
}

#[test]
fn batch_split_agrees_with_whole_batch() {
    let all = vec![
        movement("2021-07-12", "87.32", "first"),
        movement("2023-08-20", "-12.13", "second"),
        movement("2023-08-21", "0", "third"),
        movement("2023-08-22", "4.01", "fourth"),
    ];
    let whole = Model::calculate_balance_from_transactions(&all).unwrap();
    for k in 0..=all.len() {
        let first = Model::calculate_balance_from_transactions(&all[..k].to_vec()).unwrap();
        let second = Model::calculate_balance_from_transactions(&all[k..].to_vec()).unwrap();
        assert_eq!(Report::add(&first, &second), whole);
    }
    assert_eq!(whole, report("91.33", "12.13", "79.2"));
}

#[test]
fn commit_transactions() {
    let transactions = vec![
        movement("2021-07-12", "87.32", "first"),
        movement("2023-08-20", "-12.13", "second"),
    ];
    let expected_report = report("87.32", "12.13", "75.19");

    let mut ingest = Model::commit_transactions(&transactions).unwrap();
    assert_eq!(ingest.action(), StoreAction::InsertMovements);
    assert_eq!(ingest.movements.len(), 2);
    assert_eq!(ingest.movements[0].data, transactions[0]);
    assert_eq!(ingest.movements[1].data, transactions[1]);
    assert_ne!(ingest.movements[0].id, ingest.movements[1].id);
    assert_eq!(ingest.step(StoreOutcome::Done), StoreAction::InsertReportFragment);
    assert_eq!(ingest.report.data, expected_report);
    assert_eq!(ingest.step(StoreOutcome::Done), StoreAction::Commit);
    assert_eq!(ingest.outcome(), None);
    assert_eq!(ingest.step(StoreOutcome::Done), StoreAction::Finished);
    assert_eq!(ingest.state, IngestState::Committed);

    let report = ingest.outcome().unwrap().unwrap();

    assert_eq!(report, expected_report);
}

#[test]
fn fault_on_report_fragment_rolls_back() {
    let transactions = vec![movement("2021-07-12", "87.32", "first")];
    let mut ingest = Model::commit_transactions(&transactions).unwrap();
    assert_eq!(ingest.step(StoreOutcome::Done), StoreAction::InsertReportFragment);
    assert_eq!(ingest.step(StoreOutcome::Fault("disk full".to_string())), StoreAction::Rollback);
    assert_eq!(ingest.step(StoreOutcome::Done), StoreAction::Rollback);
    assert_eq!(ingest.state, IngestState::Aborted);
    assert_eq!(ingest.outcome(), Some(Err(Error::QueryError("disk full".to_string()))));
}

#[test]
fn empty_batch_still_writes_a_zero_report() {
    let ingest = Model::commit_transactions(&vec![]).unwrap();
    assert_eq!(ingest.report.data, Report::new());
    assert_eq!(ingest.action(), StoreAction::InsertMovements);
}

#[test]
fn overflowing_batch_is_refused() {
    let big = Transaction { date: date("2020-01-01"), amount: Amount { units: i128::MIN + 1 }, memo: String::new() };
    let more = Transaction { date: date("2020-01-01"), amount: Amount { units: -5 }, memo: String::new() };
    assert!(matches!(Model::commit_transactions(&vec![big, more]), Err(Error::AmountOverflow)));
}

#[test]
fn every_report_on_the_way_is_consistent() {
    let rows = "2021-07-12, Income, 87.32, a\n2021-07-13, Expense, 100, b\n2021-07-14, Income, 0, c";
    let transactions = CSVReader::read_transaction_from_csv_bytes(rows.as_bytes());
    let mut report = Report::new();
    for t in &transactions {
        report = Report::add_transaction(&report, t);
        assert!(report.is_consistent());
    }
    assert_eq!(report, Model::calculate_balance_from_transactions(&transactions).unwrap());
    assert_eq!(report.net_revenue(), amount("-12.68"));
    let total = Model::calculate_total_report(&vec![report, report]).unwrap();
    assert!(total.is_consistent());
    assert_eq!(total.expenses(), amount("200"));
}

#[test]
fn inconsistent_report_is_detected() {
    let r = Report { gross_revenue: amount("1"), expenses: amount("1"), net_revenue: amount("1") };
    assert!(!r.is_consistent());
}
