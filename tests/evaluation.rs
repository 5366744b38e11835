use sma_tracker::evaluation::{
    classify_simple, classify_two_factor, evaluate, render_report, Classification,
    SimpleClassification,
};
use sma_tracker::text::{format_deviation, format_price};

#[test]
fn close_below_average_is_buy_whatever_the_price() {
    for price in [0u64, 1, 4399, 4400, 4401, u64::MAX] {
        assert_eq!(classify_two_factor(price, 4400, 4399), Classification::BuyOpportunity);
    }
}

#[test]
fn close_above_and_price_on_average_is_indeterminate() {
    assert_eq!(classify_two_factor(4400, 4400, 4401), Classification::Indeterminate);
}

#[test]
fn close_above_then_price_decides() {
    assert_eq!(classify_two_factor(4401, 4400, 4500), Classification::TooExpensive);
    assert_eq!(classify_two_factor(4300, 4400, 4500), Classification::Wait);
}

#[test]
fn close_on_average_is_anomalous() {
    assert_eq!(classify_two_factor(4500, 4400, 4400), Classification::Anomalous);
}

#[test]
fn simple_mode_compares_price_and_average() {
    assert_eq!(classify_simple(4500, 4400), SimpleClassification::CrossedAbove);
    assert_eq!(classify_simple(4300, 4400), SimpleClassification::CrossedBelow);
    assert_eq!(classify_simple(4400, 4400), SimpleClassification::Equal);
    assert_eq!(SimpleClassification::CrossedAbove.label(), "überschritten");
    assert_eq!(SimpleClassification::CrossedBelow.label(), "unterschritten");
    assert_eq!(SimpleClassification::Equal.label(), "Gleich");
}

#[test]
fn labels() {
    assert_eq!(Classification::BuyOpportunity.label(), "🚀🚀🚀🚀🚀 Kaufgelegenheit 🚀🚀🚀🚀🚀");
    assert_eq!(Classification::TooExpensive.label(), "🫰 zu teuer");
    assert_eq!(Classification::Wait.label(), "🧘 abwarten und ☕ trinken");
    assert_eq!(Classification::Indeterminate.label(), "🤔 Lotto spielen");
    assert_eq!(Classification::Anomalous.label(), "Something weird happened 🤷‍");
}

#[test]
fn prices_round_half_up_to_two_places() {
    assert_eq!(format_price(0), "0.00");
    assert_eq!(format_price(45_000_000), "4500.00");
    assert_eq!(format_price(12_345_678), "1234.57");
    assert_eq!(format_price(12_345_649), "1234.56");
    assert_eq!(format_price(50), "0.01");
    assert_eq!(format_price(49), "0.00");
    assert_eq!(format_price(9_999_950), "1000.00");
}

#[test]
fn deviation_values() {
    assert_eq!(format_deviation(45_000_000, 44_000_000), "-2.22");
    assert_eq!(format_deviation(44_000_000, 45_000_000), "2.27");
    assert_eq!(format_deviation(10_000, 10_000), "0.00");
    assert_eq!(format_deviation(10_000, 30_000), "200.00");
    assert_eq!(format_deviation(1_000_000_000, 999_999_999), "0.00");
}

#[test]
fn deviation_against_zero_price_is_not_a_number() {
    assert_eq!(format_deviation(0, 44_000_000), "n/a");
    assert_eq!(format_deviation(0, 0), "n/a");
}

#[test]
fn report_layout() {
    let text = render_report("X", 45_000_000, 44_000_000, 43_000_000);
    assert_eq!(text, "X\nAktueller Preis: 4500.00\nSMA 200: 4400.00 (-2.22%)\nYCP: 4300.00");
}

#[test]
fn evaluate_with_zero_price_does_not_fail() {
    let report = evaluate(0, 44_000_000, 45_000_000);
    assert_eq!(report.classification, Classification::Wait);
    assert_eq!(
        report.message,
        "🧘 abwarten und ☕ trinken\nAktueller Preis: 0.00\nSMA 200: 4400.00 (n/a%)\nYCP: 4500.00"
    );
}

#[test]
fn evaluate_buy_report() {
    let report = evaluate(45_000_000, 44_000_000, 43_000_000);
    assert_eq!(report.classification, Classification::BuyOpportunity);
    assert_eq!(report.current_price, 45_000_000);
    assert_eq!(report.sma200, 44_000_000);
    assert_eq!(report.yesterday_close, 43_000_000);
    assert!(report.message.starts_with("🚀🚀🚀🚀🚀 Kaufgelegenheit 🚀🚀🚀🚀🚀\n"));
}
