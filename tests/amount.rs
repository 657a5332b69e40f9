use ledger::amount::Amount;
use ledger::entity::Date;

#[test]
fn parses_decimal_text_to_millionths() {
    assert_eq!(Amount::parse("87.32"), Some(Amount { units: 87_320_000 }));
    assert_eq!(Amount::parse("-12.13"), Some(Amount { units: -12_130_000 }));
    assert_eq!(Amount::parse("10"), Some(Amount { units: 10_000_000 }));
    assert_eq!(Amount::parse("0.000001"), Some(Amount { units: 1 }));
}

#[test]
fn trailing_zeros_beyond_millionths_are_exact() {
    assert_eq!(Amount::parse("1.50000000"), Some(Amount { units: 1_500_000 }));
}

#[test]
fn finer_than_millionths_is_refused() {
    assert_eq!(Amount::parse("0.0000001"), None);
}

#[test]
fn non_numeric_amount_is_refused() {
    assert_eq!(Amount::parse("ten"), None);
    assert_eq!(Amount::parse(""), None);
}

#[test]
fn from_decimal_scales() {
    assert_eq!(Amount::from_decimal(8732, 2), Some(Amount { units: 87_320_000 }));
    assert_eq!(Amount::from_decimal(-15, 7), None);
    assert_eq!(Amount::from_decimal(-150, 7), Some(Amount { units: -15 }));
    assert_eq!(Amount::from_decimal(i128::MAX, 0), None);
}

#[test]
fn parses_dates() {
    assert_eq!(Date::parse("2021-07-12"), Some(Date { year: 2021, month: 7, day: 12 }));
    assert_eq!(Date::parse("20-08-2023"), None);
    assert_eq!(Date::parse("2023-02-30"), None);
}

#[test]
fn amounts_are_written_as_decimal_text() {
    assert_eq!(Amount::parse("87.32").unwrap().to_text(), Some("87.32".to_string()));
    assert_eq!(Amount::parse("-12.13").unwrap().to_text(), Some("-12.13".to_string()));
    assert_eq!(Amount { units: 0 }.to_text(), Some("0".to_string()));
    assert_eq!(Amount { units: i128::MAX }.to_text(), None);
}

#[test]
fn dates_are_written_as_iso_text() {
    assert_eq!(Date { year: 2021, month: 7, day: 12 }.to_text(), Some("2021-07-12".to_string()));
    assert_eq!(Date { year: 2021, month: 2, day: 30 }.to_text(), None);
}
