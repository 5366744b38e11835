use vstd::prelude::*;
use crate::errors::AppError;

verus! {

/// Number of present closing prices needed before an average is computed.
pub const MIN_SAMPLES: usize = 200;

/// The present values of a close series, in the order in which they stand.
pub open spec fn present(closes: Seq<Option<u64>>) -> Seq<u64>
    decreases closes.len(),
{
    if closes.len() == 0 {
        Seq::empty()
    } else {
        let rest = present(closes.drop_last());
        match closes.last() {
            Option::Some(v) => rest.push(v),
            Option::None => rest,
        }
    }
}

/// The sum of a sequence of prices.
pub open spec fn total(s: Seq<u64>) -> nat
    decreases s.len(),
{
    if s.len() == 0 {
        0
    } else {
        total(s.drop_last()) + (s.last() as nat)
    }
}

/// The simple moving average of a close series: the (truncated) mean of all its
/// present values, defined once at least `MIN_SAMPLES` of them are present.
pub open spec fn sma_of(closes: Seq<Option<u64>>) -> Option<nat> {
    let p = present(closes);
    if p.len() < MIN_SAMPLES {
        Option::None
    } else {
        Option::Some(total(p) / p.len())
    }
}

proof fn lemma_total_bound(s: Seq<u64>)
    ensures
        total(s) <= s.len() * (u64::MAX as nat),
    decreases s.len(),
{
    if s.len() > 0 {
        lemma_total_bound(s.drop_last());
        assert(total(s) <= (s.len() - 1) * (u64::MAX as nat) + u64::MAX) by (nonlinear_arith)
            requires
                total(s) == total(s.drop_last()) + s.last(),
                total(s.drop_last()) <= s.drop_last().len() * (u64::MAX as nat),
                s.drop_last().len() == s.len() - 1,
                s.last() <= u64::MAX,
        ;
        assert(total(s) <= s.len() * (u64::MAX as nat)) by (nonlinear_arith)
            requires
                total(s) <= (s.len() - 1) * (u64::MAX as nat) + u64::MAX,
                s.len() >= 1,
        ;
    }
}

proof fn lemma_total_constant(s: Seq<u64>, v: u64)
    requires
        forall|k: int| 0 <= k < s.len() ==> s[k] == v,
    ensures
        total(s) == s.len() * (v as nat),
    decreases s.len(),
{
    if s.len() > 0 {
        lemma_total_constant(s.drop_last(), v);
        assert(total(s) == s.len() * (v as nat)) by (nonlinear_arith)
            requires
                total(s) == total(s.drop_last()) + (v as nat),
                total(s.drop_last()) == (s.len() - 1) * (v as nat),
        ;
    }
}

/// When at least `MIN_SAMPLES` values are present and all of them equal `v`,
/// the average is `v` exactly.
pub proof fn lemma_identical_values_average_to_themselves(closes: Seq<Option<u64>>, v: u64)
    requires
        present(closes).len() >= MIN_SAMPLES,
        forall|k: int| 0 <= k < present(closes).len() ==> present(closes)[k] == v,
    ensures
        sma_of(closes) == Option::Some(v as nat),
{
    let p = present(closes);
    lemma_total_constant(p, v);
    assert(total(p) / p.len() == v as nat) by (nonlinear_arith)
        requires
            total(p) == p.len() * (v as nat),
            p.len() > 0,
    ;
}

/// Below `MIN_SAMPLES` present values there is no average, however many
/// absent entries the series also holds.
pub proof fn lemma_too_few_present_values(closes: Seq<Option<u64>>)
    requires
        present(closes).len() < MIN_SAMPLES,
    ensures
        sma_of(closes) == Option::<nat>::None,
{
}

/// Two series whose present values have the same sum and the same count have
/// the same average, wherever their absent entries stand.
pub proof fn lemma_average_depends_on_sum_and_count(a: Seq<Option<u64>>, b: Seq<Option<u64>>)
    requires
        total(present(a)) == total(present(b)),
        present(a).len() == present(b).len(),
    ensures
        sma_of(a) == sma_of(b),
{
}

/// Inserting an absent entry at any position leaves the present values, and so
/// the average, unchanged.
pub proof fn lemma_absent_entry_ignored(closes: Seq<Option<u64>>, i: int)
    requires
        0 <= i <= closes.len(),
    ensures
        present(closes.insert(i, Option::None)) == present(closes),
        sma_of(closes.insert(i, Option::None)) == sma_of(closes),
    decreases closes.len(),
{
    let c = closes.insert(i, Option::None);
    if i == closes.len() {
        assert(c.drop_last() =~= closes);
    } else {
        lemma_absent_entry_ignored(closes.drop_last(), i);
        assert(c.drop_last() =~= closes.drop_last().insert(i, Option::None));
        assert(c.last() == closes.last());
    }
}

/// Averages every present closing price, failing with `InsufficientData` when
/// fewer than `MIN_SAMPLES` are present. Prices are fixed-point integers and
/// the mean is rounded down to the same unit.
pub fn compute_sma200(closes: &Vec<Option<u64>>) -> (r: Result<u64, AppError>)
    ensures
        match sma_of(closes@) {
            Option::Some(m) => r == Ok::<u64, AppError>(m as u64) && m <= u64::MAX,
            Option::None => r == Err::<u64, AppError>(AppError::InsufficientData),
        },
{
    let mut sum: u128 = 0;
    let mut count: u64 = 0;
    let mut i: usize = 0;
    while i < closes.len()
        invariant
            i <= closes@.len(),
            count as nat == present(closes@.subrange(0, i as int)).len(),
            sum as nat == total(present(closes@.subrange(0, i as int))),
            count <= i,
        decreases closes@.len() - i,
    {
        proof {
            let prefix = closes@.subrange(0, i as int);
            let next = closes@.subrange(0, i as int + 1);
            assert(next.drop_last() =~= prefix);
            lemma_total_bound(present(prefix));
            assert(sum as nat <= count as nat * (u64::MAX as nat));
            assert(count as nat * (u64::MAX as nat) <= (u64::MAX as nat) * (u64::MAX as nat))
                by (nonlinear_arith)
                requires
                    count <= u64::MAX,
            ;
        }
        match closes[i] {
            Option::Some(v) => {
                proof {
                    let prefix = closes@.subrange(0, i as int);
                    let next = closes@.subrange(0, i as int + 1);
                    assert(present(next) == present(prefix).push(v));
                    assert(present(prefix).push(v).drop_last() =~= present(prefix));
                }
                sum = sum + v as u128;
                count = count + 1;
            },
            Option::None => {},
        }
        i = i + 1;
    }
    assert(closes@.subrange(0, closes@.len() as int) =~= closes@);
    if count < MIN_SAMPLES as u64 {
        return Err(AppError::InsufficientData);
    }
    let mean: u128 = sum / (count as u128);
    proof {
        let p = present(closes@);
        lemma_total_bound(p);
        assert(total(p) / p.len() <= u64::MAX) by (nonlinear_arith)
            requires
                total(p) <= p.len() * (u64::MAX as nat),
                p.len() > 0,
        ;
    }
    Ok(mean as u64)
}

} // verus!
