use vstd::prelude::*;
use vstd::string::*;
use crate::errors::AppError;
use crate::market::DEFAULT_API_URL;

verus! {

/// Cron expression of the recurring trigger when none is configured: every
/// minute on weekdays.
pub const DEFAULT_CRON_SCHEDULE: &'static str = "0 */1 * * * 1-5";

/// How the process runs the evaluation.
#[derive(Debug, Clone, Copy, PartialEq, Eq, Structural)]
pub enum ExecutionMode {
    /// One evaluation, then exit.
    Once,
    /// Recurring evaluations and a command listener, side by side.
    Server,
}

/// The settings assembled once at startup.
pub struct Config {
    pub mode: ExecutionMode,
    pub api_url: String,
    pub cron_schedule: String,
}

/// The mode named by a configured value; no value means `Once`.
pub open spec fn mode_of(value: Option<Seq<char>>) -> Option<ExecutionMode> {
    match value {
        Option::None => Option::Some(ExecutionMode::Once),
        Option::Some(s) => if s == "once"@ {
            Option::Some(ExecutionMode::Once)
        } else if s == "server"@ {
            Option::Some(ExecutionMode::Server)
        } else {
            Option::None
        },
    }
}

/// A configured value as characters.
pub open spec fn view_of(value: Option<String>) -> Option<Seq<char>> {
    match value {
        Option::Some(s) => Option::Some(s@),
        Option::None => Option::None,
    }
}

/// A configured value, or the default when none is given.
pub open spec fn or_default(value: Option<String>, default: Seq<char>) -> Seq<char> {
    match value {
        Option::Some(s) => s@,
        Option::None => default,
    }
}

/// An ASCII decimal digit.
pub open spec fn is_digit(c: char) -> bool {
    '0' <= c && c <= '9'
}

/// Every character is a decimal digit.
pub open spec fn all_digits(s: Seq<char>) -> bool {
    forall|k: int| 0 <= k < s.len() ==> is_digit(#[trigger] s[k])
}

/// The value of a string of decimal digits.
pub open spec fn digits_value(s: Seq<char>) -> nat
    decreases s.len(),
{
    if s.len() == 0 {
        0
    } else {
        digits_value(s.drop_last()) * 10 + ((s.last() as u32 - '0' as u32) as nat)
    }
}

/// The recipient identifier written by `s`: an optional `+` or `-`, then one or
/// more decimal digits, the whole within the range of `i64`.
pub open spec fn chat_id_of(s: Seq<char>) -> Option<int> {
    let negative = s.len() > 0 && s[0] == '-';
    let body = if s.len() > 0 && (s[0] == '-' || s[0] == '+') { s.skip(1) } else { s };
    let v: int = if negative { -digits_value(body) } else { digits_value(body) as int };
    if body.len() > 0 && all_digits(body) && i64::MIN <= v && v <= i64::MAX {
        Option::Some(v)
    } else {
        Option::None
    }
}

proof fn lemma_digits_value_grows(s: Seq<char>, k: int)
    requires
        0 <= k <= s.len(),
        all_digits(s),
    ensures
        digits_value(s.subrange(0, k)) <= digits_value(s),
    decreases s.len(),
{
    if k < s.len() {
        let d = s.drop_last();
        assert(all_digits(d)) by {
            assert forall|j: int| 0 <= j < d.len() implies is_digit(#[trigger] d[j]) by {
                assert(d[j] == s[j]);
            }
        }
        lemma_digits_value_grows(d, k);
        assert(d.subrange(0, k) =~= s.subrange(0, k));
    } else {
        assert(s.subrange(0, k) =~= s);
    }
}

/// Parses the recipient identifier; anything but an optional sign followed by
/// decimal digits within the range of `i64` is `InvalidChatId`.
pub fn parse_chat_id(text: &str) -> (r: Result<i64, AppError>)
    ensures
        match chat_id_of(text@) {
            Option::Some(v) => r == Ok::<i64, AppError>(v as i64),
            Option::None => r == Err::<i64, AppError>(AppError::InvalidChatId),
        },
{
    let n = text.unicode_len();
    let mut start: usize = 0;
    let mut negative = false;
    if n > 0 {
        let c = text.get_char(0);
        if c == '-' {
            negative = true;
            start = 1;
        } else if c == '+' {
            start = 1;
        }
    }
    let ghost body = if text@.len() > 0 && (text@[0] == '-' || text@[0] == '+') {
        text@.skip(1)
    } else {
        text@
    };
    assert(body =~= text@.subrange(start as int, n as int));
    if start == n {
        return Err(AppError::InvalidChatId);
    }
    let limit: u128 = if negative { 9223372036854775808 } else { 9223372036854775807 };
    let mut acc: u128 = 0;
    let mut i: usize = start;
    while i < n
        invariant
            start <= i <= n,
            n == text@.len(),
            body =~= text@.subrange(start as int, n as int),
            body == (if text@.len() > 0 && (text@[0] == '-' || text@[0] == '+') {
                text@.skip(1)
            } else {
                text@
            }),
            negative == (text@.len() > 0 && text@[0] == '-'),
            all_digits(body.subrange(0, i - start)),
            acc as nat == digits_value(body.subrange(0, i - start)),
            acc <= limit,
            limit == (if negative { 9223372036854775808u128 } else { 9223372036854775807u128 }),
        decreases n - i,
    {
        let c = text.get_char(i);
        if !('0' <= c && c <= '9') {
            assert(body[i - start] == c);
            assert(!is_digit(body[i - start]));
            assert(!all_digits(body));
            return Err(AppError::InvalidChatId);
        }
        let d: u128 = (c as u32 - '0' as u32) as u128;
        let next: u128 = acc * 10 + d;
        proof {
            let p = body.subrange(0, i - start + 1);
            assert(p.drop_last() =~= body.subrange(0, i - start));
            assert(p.last() == c);
            assert(digits_value(p) == acc * 10 + d);
            assert(all_digits(p)) by {
                assert forall|j: int| 0 <= j < p.len() implies is_digit(#[trigger] p[j]) by {
                    if j < p.len() - 1 {
                        assert(p[j] == body.subrange(0, i - start)[j]);
                    }
                }
            }
        }
        if next > limit {
            proof {
                if all_digits(body) {
                    lemma_digits_value_grows(body, i - start + 1);
                    assert(digits_value(body) > limit);
                }
            }
            return Err(AppError::InvalidChatId);
        }
        acc = next;
        i = i + 1;
    }
    assert(body.subrange(0, n - start) =~= body);
    if negative {
        if acc == 9223372036854775808 {
            Ok(i64::MIN)
        } else {
            Ok(-(acc as i64))
        }
    } else {
        Ok(acc as i64)
    }
}

/// Reads the execution mode: `once` (also when unset) or `server`; anything
/// else is `UnsupportedExecutionMode`.
pub fn parse_execution_mode(value: Option<String>) -> (r: Result<ExecutionMode, AppError>)
    ensures
        match mode_of(view_of(value)) {
            Option::Some(m) => r == Ok::<ExecutionMode, AppError>(m),
            Option::None => r == Err::<ExecutionMode, AppError>(AppError::UnsupportedExecutionMode),
        },
{
    match value {
        Option::None => Ok(ExecutionMode::Once),
        Option::Some(s) => {
            let once = String::from_str("once");
            let server = String::from_str("server");
            if s == once {
                Ok(ExecutionMode::Once)
            } else if s == server {
                Ok(ExecutionMode::Server)
            } else {
                Err(AppError::UnsupportedExecutionMode)
            }
        },
    }
}

fn value_or(value: Option<String>, default: &str) -> (r: String)
    ensures
        r@ == or_default(value, default@),
{
    match value {
        Option::Some(s) => s,
        Option::None => String::from_str(default),
    }
}

impl Config {
    /// Assembles the settings from the configured values, filling in the
    /// default host and schedule; fails only on an unknown execution mode.
    pub fn from_values(
        mode: Option<String>,
        api_url: Option<String>,
        cron_schedule: Option<String>,
    ) -> (r: Result<Config, AppError>)
        ensures
            mode_of(view_of(mode)) is None ==> r == Err::<Config, AppError>(
                AppError::UnsupportedExecutionMode,
            ),
            mode_of(view_of(mode)) matches Some(m) ==> r matches Ok(c) && {
                &&& c.mode == m
                &&& c.api_url@ == or_default(api_url, DEFAULT_API_URL@)
                &&& c.cron_schedule@ == or_default(cron_schedule, DEFAULT_CRON_SCHEDULE@)
            },
    {
        let mode = match parse_execution_mode(mode) {
            Ok(m) => m,
            Err(e) => return Err(e),
        };
        Ok(Config {
            mode,
            api_url: value_or(api_url, DEFAULT_API_URL),
            cron_schedule: value_or(cron_schedule, DEFAULT_CRON_SCHEDULE),
        })
    }
}

} // verus!
