use vstd::prelude::*;
use vstd::string::*;
use crate::errors::AppError;
use crate::evaluation::{evaluate, label_of, report_text, two_factor, EvaluationReport};
use crate::sma::{compute_sma200, sma_of};
use crate::text::{decimal, push_decimal};

verus! {

/// Host queried when no other is configured.
pub const DEFAULT_API_URL: &'static str = "https://query1.finance.yahoo.com";

/// The tracked instrument, the S&P 500 index, as it stands in a request path.
pub const SP500_SYMBOL: &'static str = "%5EGSPC";

/// Number of trailing days requested.
pub const WINDOW_DAYS: u64 = 200;

/// The decoded upstream answer. Prices are fixed-point integers with
/// `PRICE_SCALE` units per currency unit.
pub struct YahooFinanceResponse {
    pub chart: Chart,
}

pub struct Chart {
    pub result: Vec<ChartResult>,
}

/// One chart entry of the upstream answer.
pub struct ChartResult {
    pub meta: Meta,
    pub indicators: Indicators,
}

pub struct Meta {
    pub currency: String,
    pub symbol: String,
    pub regular_market_price: u64,
}

pub struct Indicators {
    pub quote: Vec<Quote>,
}

/// One quote series; an absent close marks a day without data.
pub struct Quote {
    pub close: Vec<Option<u64>>,
}

/// What one evaluation reads from the upstream answer.
pub struct MarketSnapshot {
    pub currency: String,
    pub symbol: String,
    pub current_price: u64,
    pub daily_closes: Vec<Option<u64>>,
}

/// The three figures an evaluation is made from.
#[derive(Debug, Clone, Copy, PartialEq, Eq, Structural)]
pub struct FinanceData {
    pub current_price: u64,
    pub current_sma200: u64,
    pub yesterday_close_price: u64,
}

/// The closes of the first quote series of an entry; none when it has no series.
pub open spec fn first_closes(entry: ChartResult) -> Seq<Option<u64>> {
    if entry.indicators.quote@.len() == 0 {
        Seq::empty()
    } else {
        entry.indicators.quote@[0].close@
    }
}

/// Yesterday's close: the last entry of the raw series, zero when that entry
/// is absent or the series is empty.
pub open spec fn last_close(closes: Seq<Option<u64>>) -> nat {
    if closes.len() == 0 {
        0
    } else {
        match closes.last() {
            Option::Some(v) => v as nat,
            Option::None => 0,
        }
    }
}

/// The request path and query for a symbol over a trailing window of days.
pub open spec fn chart_url_text(base_url: Seq<char>, symbol: Seq<char>, window_days: nat) -> Seq<char> {
    base_url + "/v8/finance/chart/"@ + symbol + "?interval=1d&range="@ + decimal(window_days) + "d"@
}

/// Builds `{base_url}/v8/finance/chart/{symbol}?interval=1d&range={window_days}d`.
pub fn chart_url(base_url: &str, symbol: &str, window_days: u64) -> (r: String)
    ensures
        r@ == chart_url_text(base_url@, symbol@, window_days as nat),
{
    let mut out = String::from_str(base_url);
    out.append("/v8/finance/chart/");
    out.append(symbol);
    out.append("?interval=1d&range=");
    push_decimal(&mut out, window_days as u128);
    out.append("d");
    out
}

/// Takes the first chart entry and its first quote series; an answer without
/// entries is `NoDataAvailable`.
pub fn extract_snapshot(response: YahooFinanceResponse) -> (r: Result<MarketSnapshot, AppError>)
    ensures
        response.chart.result@.len() == 0 <==> r == Err::<MarketSnapshot, AppError>(
            AppError::NoDataAvailable,
        ),
        r is Err ==> r == Err::<MarketSnapshot, AppError>(AppError::NoDataAvailable),
        r matches Ok(s) ==> {
            let entry = response.chart.result@[0];
            &&& s.current_price == entry.meta.regular_market_price
            &&& s.symbol@ == entry.meta.symbol@
            &&& s.currency@ == entry.meta.currency@
            &&& s.daily_closes@ == first_closes(entry)
        },
{
    let mut results = response.chart.result;
    if results.len() == 0 {
        return Err(AppError::NoDataAvailable);
    }
    let entry = results.swap_remove(0);
    let mut quotes = entry.indicators.quote;
    let daily_closes = if quotes.len() == 0 {
        Vec::new()
    } else {
        quotes.swap_remove(0).close
    };
    Ok(MarketSnapshot {
        currency: entry.meta.currency,
        symbol: entry.meta.symbol,
        current_price: entry.meta.regular_market_price,
        daily_closes,
    })
}

/// Yesterday's close of a raw close series.
pub fn yesterday_close(closes: &Vec<Option<u64>>) -> (r: u64)
    ensures
        r as nat == last_close(closes@),
{
    let n = closes.len();
    if n == 0 {
        0
    } else {
        match closes[n - 1] {
            Option::Some(v) => v,
            Option::None => 0,
        }
    }
}

/// The figures of an upstream answer: current price, average of the closes of
/// its first entry, and yesterday's close.
pub open spec fn finance_data_of(entry: ChartResult) -> Option<FinanceData> {
    match sma_of(first_closes(entry)) {
        Option::Some(m) => Option::Some(FinanceData {
            current_price: entry.meta.regular_market_price,
            current_sma200: m as u64,
            yesterday_close_price: last_close(first_closes(entry)) as u64,
        }),
        Option::None => Option::None,
    }
}

/// Reads the figures out of a decoded answer: `NoDataAvailable` without chart
/// entries, `InsufficientData` when the average is not defined.
pub fn fetch_data(response: YahooFinanceResponse) -> (r: Result<FinanceData, AppError>)
    ensures
        response.chart.result@.len() == 0 ==> r == Err::<FinanceData, AppError>(
            AppError::NoDataAvailable,
        ),
        response.chart.result@.len() > 0 ==> match finance_data_of(response.chart.result@[0]) {
            Option::Some(d) => r == Ok::<FinanceData, AppError>(d),
            Option::None => r == Err::<FinanceData, AppError>(AppError::InsufficientData),
        },
{
    let snapshot = match extract_snapshot(response) {
        Ok(s) => s,
        Err(e) => return Err(e),
    };
    let current_sma200 = match compute_sma200(&snapshot.daily_closes) {
        Ok(m) => m,
        Err(e) => return Err(e),
    };
    let yesterday_close_price = yesterday_close(&snapshot.daily_closes);
    Ok(FinanceData { current_price: snapshot.current_price, current_sma200, yesterday_close_price })
}

/// Runs the evaluation on the outcome of a fetch: a failed fetch is passed on
/// unchanged; otherwise the figures are read and a two-factor report made.
pub fn evaluate_response(fetched: Result<YahooFinanceResponse, AppError>) -> (r: Result<EvaluationReport, AppError>)
    ensures
        fetched matches Err(e) ==> r == Err::<EvaluationReport, AppError>(e),
        fetched matches Ok(resp) ==> {
            if resp.chart.result@.len() == 0 {
                r == Err::<EvaluationReport, AppError>(AppError::NoDataAvailable)
            } else {
                match finance_data_of(resp.chart.result@[0]) {
                    Option::None => r == Err::<EvaluationReport, AppError>(AppError::InsufficientData),
                    Option::Some(d) => r matches Ok(rep) && {
                        &&& rep.classification == two_factor(
                            d.current_price as nat,
                            d.current_sma200 as nat,
                            d.yesterday_close_price as nat,
                        )
                        &&& rep.current_price == d.current_price
                        &&& rep.sma200 == d.current_sma200
                        &&& rep.yesterday_close == d.yesterday_close_price
                        &&& rep.message@ == report_text(
                            label_of(rep.classification),
                            d.current_price as nat,
                            d.current_sma200 as nat,
                            d.yesterday_close_price as nat,
                        )
                    },
                }
            }
        },
{
    let response = match fetched {
        Ok(resp) => resp,
        Err(e) => return Err(e),
    };
    match fetch_data(response) {
        Ok(d) => Ok(evaluate(d.current_price, d.current_sma200, d.yesterday_close_price)),
        Err(e) => Err(e),
    }
}

} // verus!
