use stockbot::notice::{failure_notice, format_usd, greeting, price_notice};
use stockbot::price::PriceDelta;
use stockbot::quote_text::parse_price;

#[test]
fn formats_cents_as_dollars() {
    assert_eq!(format_usd(1850), "18.50");
    assert_eq!(format_usd(1801), "18.01");
    assert_eq!(format_usd(0), "0.00");
    assert_eq!(format_usd(5), "0.05");
    assert_eq!(format_usd(50), "0.50");
    assert_eq!(format_usd(99), "0.99");
    assert_eq!(format_usd(100), "1.00");
    assert_eq!(format_usd(123456789), "1234567.89");
}

#[test]
fn formats_the_largest_price() {
    assert_eq!(format_usd(u64::MAX), "184467440737095516.15");
}

#[test]
fn format_agrees_with_two_decimals_of_std() {
    let mut cents: u64 = 0;
    while cents < 25_000 {
        assert_eq!(format_usd(cents), format!("{}.{:02}", cents / 100, cents % 100));
        cents += 7;
    }
}

#[test]
fn notice_for_a_move_up() {
    assert_eq!(
        price_notice("AMD", PriceDelta::Up, 1850),
        Some(String::from("AMD price is UP to $18.50"))
    );
}

#[test]
fn notice_for_a_move_down() {
    assert_eq!(
        price_notice("AMD", PriceDelta::Down, 1749),
        Some(String::from("AMD price is DOWN to $17.49"))
    );
}

#[test]
fn no_notice_without_a_move() {
    assert_eq!(price_notice("AMD", PriceDelta::Unchanged, 1801), None);
}

#[test]
fn notice_names_the_symbol() {
    assert_eq!(
        price_notice("MSFT", PriceDelta::Up, 10000),
        Some(String::from("MSFT price is UP to $100.00"))
    );
    assert_eq!(price_notice("", PriceDelta::Down, 1), Some(String::from(" price is DOWN to $0.01")));
}

#[test]
fn fixed_texts() {
    assert_eq!(greeting(), "✓ - Hello!");
    assert_eq!(failure_notice(), "✗ - Error in processing update.");
}

#[test]
fn a_formatted_price_reads_back() {
    let mut cents: u64 = 0;
    while cents < 120_000 {
        assert_eq!(parse_price(&format_usd(cents)), Some(cents));
        cents += 13;
    }
    assert_eq!(parse_price(&format_usd(u64::MAX)), Some(u64::MAX));
    assert_eq!(parse_price(&format_usd(u64::MAX - 1)), Some(u64::MAX - 1));
}
