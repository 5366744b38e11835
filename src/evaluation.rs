use vstd::prelude::*;
use vstd::string::*;
use crate::text::{deviation_text, format_deviation, format_price, price_text};

verus! {

/// The two-factor signal: first yesterday's close against the average, then,
/// when yesterday closed above it, the current price against the average.
#[derive(Debug, Clone, Copy, PartialEq, Eq, Structural)]
pub enum Classification {
    /// Yesterday closed below the average.
    BuyOpportunity,
    /// Yesterday closed above the average and the price is still above it.
    TooExpensive,
    /// Yesterday closed above the average and the price is now below it.
    Wait,
    /// Yesterday closed above the average and the price is exactly on it.
    Indeterminate,
    /// Yesterday closed exactly on the average.
    Anomalous,
}

/// The simple signal: the current price against the average.
#[derive(Debug, Clone, Copy, PartialEq, Eq, Structural)]
pub enum SimpleClassification {
    /// The price is above the average.
    CrossedAbove,
    /// The price is below the average.
    CrossedBelow,
    /// The price is exactly on the average.
    Equal,
}

/// The two-factor classification of the figures.
pub open spec fn two_factor(current_price: nat, sma200: nat, yesterday_close: nat) -> Classification {
    if yesterday_close < sma200 {
        Classification::BuyOpportunity
    } else if yesterday_close > sma200 {
        if current_price > sma200 {
            Classification::TooExpensive
        } else if current_price < sma200 {
            Classification::Wait
        } else {
            Classification::Indeterminate
        }
    } else {
        Classification::Anomalous
    }
}

/// The simple classification of the figures.
pub open spec fn simple(current_price: nat, sma200: nat) -> SimpleClassification {
    if current_price > sma200 {
        SimpleClassification::CrossedAbove
    } else if current_price < sma200 {
        SimpleClassification::CrossedBelow
    } else {
        SimpleClassification::Equal
    }
}

/// The heading of a report of each classification.
pub open spec fn label_of(c: Classification) -> Seq<char> {
    match c {
        Classification::BuyOpportunity => "🚀🚀🚀🚀🚀 Kaufgelegenheit 🚀🚀🚀🚀🚀"@,
        Classification::TooExpensive => "🫰 zu teuer"@,
        Classification::Wait => "🧘 abwarten und ☕ trinken"@,
        Classification::Indeterminate => "🤔 Lotto spielen"@,
        Classification::Anomalous => "Something weird happened 🤷‍"@,
    }
}

/// The text logged for each simple classification.
pub open spec fn simple_label_of(c: SimpleClassification) -> Seq<char> {
    match c {
        SimpleClassification::CrossedAbove => "überschritten"@,
        SimpleClassification::CrossedBelow => "unterschritten"@,
        SimpleClassification::Equal => "Gleich"@,
    }
}

/// The report: the label, then the current price, the average with its
/// deviation in percent, and yesterday's close, one per line.
pub open spec fn report_text(
    label: Seq<char>,
    current_price: nat,
    sma200: nat,
    yesterday_close: nat,
) -> Seq<char> {
    label + "\nAktueller Preis: "@ + price_text(current_price) + "\nSMA 200: "@ + price_text(sma200)
        + " ("@ + deviation_text(current_price, sma200) + "%)\nYCP: "@ + price_text(yesterday_close)
}

impl Classification {
    /// The text that heads a report of this classification.
    pub fn label(&self) -> (r: &'static str)
        ensures
            r@ == label_of(*self),
    {
        match self {
            Classification::BuyOpportunity => "🚀🚀🚀🚀🚀 Kaufgelegenheit 🚀🚀🚀🚀🚀",
            Classification::TooExpensive => "🫰 zu teuer",
            Classification::Wait => "🧘 abwarten und ☕ trinken",
            Classification::Indeterminate => "🤔 Lotto spielen",
            Classification::Anomalous => "Something weird happened 🤷‍",
        }
    }
}

impl SimpleClassification {
    /// The text logged for this classification.
    pub fn label(&self) -> (r: &'static str)
        ensures
            r@ == simple_label_of(*self),
    {
        match self {
            SimpleClassification::CrossedAbove => "überschritten",
            SimpleClassification::CrossedBelow => "unterschritten",
            SimpleClassification::Equal => "Gleich",
        }
    }
}

/// Classifies by yesterday's close first, then by the current price.
pub fn classify_two_factor(current_price: u64, sma200: u64, yesterday_close: u64) -> (r: Classification)
    ensures
        r == two_factor(current_price as nat, sma200 as nat, yesterday_close as nat),
{
    if yesterday_close < sma200 {
        Classification::BuyOpportunity
    } else if yesterday_close > sma200 {
        if current_price > sma200 {
            Classification::TooExpensive
        } else if current_price < sma200 {
            Classification::Wait
        } else {
            Classification::Indeterminate
        }
    } else {
        Classification::Anomalous
    }
}

/// Classifies by the current price against the average alone.
pub fn classify_simple(current_price: u64, sma200: u64) -> (r: SimpleClassification)
    ensures
        r == simple(current_price as nat, sma200 as nat),
{
    if current_price > sma200 {
        SimpleClassification::CrossedAbove
    } else if current_price < sma200 {
        SimpleClassification::CrossedBelow
    } else {
        SimpleClassification::Equal
    }
}

/// The outcome of one evaluation, with the figures it was made from.
pub struct EvaluationReport {
    pub classification: Classification,
    pub current_price: u64,
    pub sma200: u64,
    pub yesterday_close: u64,
    pub message: String,
}

/// Renders the report text for a classification label and its figures.
pub fn render_report(label: &str, current_price: u64, sma200: u64, yesterday_close: u64) -> (r: String)
    ensures
        r@ == report_text(label@, current_price as nat, sma200 as nat, yesterday_close as nat),
{
    let mut out = String::from_str(label);
    out.append("\nAktueller Preis: ");
    let cur = format_price(current_price);
    out.append(cur.as_str());
    out.append("\nSMA 200: ");
    let avg = format_price(sma200);
    out.append(avg.as_str());
    out.append(" (");
    let dev = format_deviation(current_price, sma200);
    out.append(dev.as_str());
    out.append("%)\nYCP: ");
    let ycp = format_price(yesterday_close);
    out.append(ycp.as_str());
    out
}

/// Evaluates the figures in two-factor mode and renders the report.
pub fn evaluate(current_price: u64, sma200: u64, yesterday_close: u64) -> (r: EvaluationReport)
    ensures
        r.classification == two_factor(current_price as nat, sma200 as nat, yesterday_close as nat),
        r.current_price == current_price,
        r.sma200 == sma200,
        r.yesterday_close == yesterday_close,
        r.message@ == report_text(
            label_of(r.classification),
            current_price as nat,
            sma200 as nat,
            yesterday_close as nat,
        ),
{
    let classification = classify_two_factor(current_price, sma200, yesterday_close);
    let message = render_report(classification.label(), current_price, sma200, yesterday_close);
    EvaluationReport { classification, current_price, sma200, yesterday_close, message }
}

/// A close below the average yields a buy opportunity whatever the current price.
pub proof fn lemma_close_below_average_is_buy_opportunity(
    current_price: nat,
    sma200: nat,
    yesterday_close: nat,
)
    requires
        yesterday_close < sma200,
    ensures
        two_factor(current_price, sma200, yesterday_close) == Classification::BuyOpportunity,
{
}

/// After a close above the average, a price exactly on the average is indeterminate.
pub proof fn lemma_price_on_average_is_indeterminate(sma200: nat, yesterday_close: nat)
    requires
        yesterday_close > sma200,
    ensures
        two_factor(sma200, sma200, yesterday_close) == Classification::Indeterminate,
{
}

} // verus!
