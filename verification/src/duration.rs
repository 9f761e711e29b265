use std::time::Duration;
use vstd::prelude::*;

verus! {

/// Nanoseconds in one second.
pub const NANOS_PER_SEC: u128 = 1_000_000_000;

/// The longest span a `std::time::Duration` can hold, in nanoseconds
/// (`u64::MAX` seconds plus 999_999_999 nanoseconds).
pub const MAX_DURATION_NANOS: u128 = 18_446_744_073_709_551_615_999_999_999;

/// The `Duration` that `Duration::new(secs, subsec_nanos)` builds.
pub uninterp spec fn std_duration(secs: u64, subsec_nanos: u32) -> Duration;

/// Calls `std::time::Duration::new`. For a nanosecond part below one second
/// it does not carry into the seconds and cannot panic; the value it returns
/// is named by `std_duration`.
#[verifier::external_body]
pub(crate) fn duration_new(secs: u64, subsec_nanos: u32) -> (d: Duration)
    requires
        subsec_nanos < 1_000_000_000,
    ensures
        d == std_duration(secs, subsec_nanos),
{
    Duration::new(secs, subsec_nanos)
}


/// The `Duration` of `n` nanoseconds.
pub open spec fn duration_of_nanos(n: nat) -> Duration {
    std_duration((n / 1_000_000_000) as u64, (n % 1_000_000_000) as u32)
}

/// A duration given in nanoseconds as a `std::time::Duration`.
pub open spec fn duration_of(d: Option<nat>) -> Option<Duration> {
    match d {
        Some(n) => Some(duration_of_nanos(n)),
        None => None,
    }
}

/// Whether a duration in nanoseconds fits into `std::time::Duration`.
pub open spec fn fits_duration(d: Option<nat>) -> bool {
    match d {
        Some(n) => n <= MAX_DURATION_NANOS,
        None => true,
    }
}

/// Splits `n` nanoseconds into seconds and nanoseconds and builds a `Duration`.
pub fn duration_from_nanos(n: u128) -> (d: Duration)
    requires
        n <= MAX_DURATION_NANOS,
    ensures
        d == duration_of_nanos(n as nat),
{
    let secs = n / NANOS_PER_SEC;
    let sub = n % NANOS_PER_SEC;
    assert(secs <= u64::MAX) by {
        assert(n / 1_000_000_000 <= MAX_DURATION_NANOS / 1_000_000_000) by (nonlinear_arith)
            requires
                n <= MAX_DURATION_NANOS,
        ;
    }
    duration_new(secs as u64, sub as u32)
}

/// Converts an optional nanosecond count to an optional `Duration`.
pub fn duration_from_opt(n: Option<u128>) -> (d: Option<Duration>)
    requires
        n matches Some(v) ==> v <= MAX_DURATION_NANOS,
    ensures
        d == duration_of(opt_nat(n)),
{
    match n {
        Some(v) => Some(duration_from_nanos(v)),
        None => None,
    }
}

/// An optional `u128` read as an optional natural number.
pub open spec fn opt_nat(n: Option<u128>) -> Option<nat> {
    match n {
        Some(v) => Some(v as nat),
        None => None,
    }
}

/// Sum of the durations when every one is known (`None` as soon as one is
/// unknown); the sum of no durations is zero.
pub open spec fn sum_all_known(ds: Seq<Option<nat>>) -> Option<nat>
    decreases ds.len(),
{
    if ds.len() == 0 {
        Some(0)
    } else {
        match (sum_all_known(ds.drop_last()), ds.last()) {
            (Some(a), Some(b)) => Some(a + b),
            _ => None,
        }
    }
}

/// Longest of the durations when every one is known (`None` as soon as one is
/// unknown); the longest of no durations is zero.
pub open spec fn max_all_known(ds: Seq<Option<nat>>) -> Option<nat>
    decreases ds.len(),
{
    if ds.len() == 0 {
        Some(0)
    } else {
        match (max_all_known(ds.drop_last()), ds.last()) {
            (Some(a), Some(b)) => Some(if a >= b { a } else { b }),
            _ => None,
        }
    }
}

/// Sum of the known durations, ignoring unknown ones; `None` when none is known.
pub open spec fn sum_known(ds: Seq<Option<nat>>) -> Option<nat>
    decreases ds.len(),
{
    if ds.len() == 0 {
        None
    } else {
        match (sum_known(ds.drop_last()), ds.last()) {
            (Some(a), Some(b)) => Some(a + b),
            (Some(a), None) => Some(a),
            (None, b) => b,
        }
    }
}

/// Longest of the known durations, ignoring unknown ones; `None` when none is known.
pub open spec fn max_known(ds: Seq<Option<nat>>) -> Option<nat>
    decreases ds.len(),
{
    if ds.len() == 0 {
        None
    } else {
        match (max_known(ds.drop_last()), ds.last()) {
            (Some(a), Some(b)) => Some(if a >= b { a } else { b }),
            (Some(a), None) => Some(a),
            (None, b) => b,
        }
    }
}

/// Shortest of the known durations, ignoring unknown ones; `None` when none is known.
pub open spec fn min_known(ds: Seq<Option<nat>>) -> Option<nat>
    decreases ds.len(),
{
    if ds.len() == 0 {
        None
    } else {
        match (min_known(ds.drop_last()), ds.last()) {
            (Some(a), Some(b)) => Some(if a <= b { a } else { b }),
            (Some(a), None) => Some(a),
            (None, b) => b,
        }
    }
}

/// The known durations of two lists together add up: the sum over `s + t` is
/// the sum over `s` plus the sum over `t`, each counted only when some
/// duration in it is known; a single duration sums to itself.
pub proof fn lemma_sum_known_concat(s: Seq<Option<nat>>, t: Seq<Option<nat>>)
    ensures
        sum_known(s + t) == match (sum_known(s), sum_known(t)) {
            (Some(a), Some(b)) => Some(a + b),
            (Some(a), None) => Some(a),
            (None, b) => b,
        },
        forall|d: Option<nat>| #[trigger] sum_known(seq![d]) == d,
    decreases t.len(),
{
    assert forall|d: Option<nat>| #[trigger] sum_known(seq![d]) == d by {
        let one = seq![d];
        assert(one.drop_last() =~= Seq::<Option<nat>>::empty());
        assert(one.last() == d);
        assert(sum_known(one.drop_last()) == sum_known(Seq::<Option<nat>>::empty()));
    }
    if t.len() == 0 {
        assert(s + t =~= s);
    } else {
        lemma_sum_known_concat(s, t.drop_last());
        assert((s + t).drop_last() =~= s + t.drop_last());
        assert((s + t).last() == t.last());
    }
}

/// When every duration is known, the sum over `s + t` is the sum over `s`
/// plus the sum over `t`; one unknown duration makes the sum unknown; a
/// single duration sums to itself.
pub proof fn lemma_sum_all_known_concat(s: Seq<Option<nat>>, t: Seq<Option<nat>>)
    ensures
        sum_all_known(s + t) == match (sum_all_known(s), sum_all_known(t)) {
            (Some(a), Some(b)) => Some(a + b),
            _ => None,
        },
        forall|d: Option<nat>| #[trigger] sum_all_known(seq![d]) == d,
    decreases t.len(),
{
    assert forall|d: Option<nat>| #[trigger] sum_all_known(seq![d]) == d by {
        let one = seq![d];
        assert(one.drop_last() =~= Seq::<Option<nat>>::empty());
        assert(one.last() == d);
        assert(sum_all_known(one.drop_last()) == sum_all_known(Seq::<Option<nat>>::empty()));
    }
    if t.len() == 0 {
        assert(s + t =~= s);
    } else {
        lemma_sum_all_known_concat(s, t.drop_last());
        assert((s + t).drop_last() =~= s + t.drop_last());
        assert((s + t).last() == t.last());
    }
}

/// The longest known duration of two lists together is the longer of the
/// longest of each; a single duration is its own longest.
pub proof fn lemma_max_known_concat(s: Seq<Option<nat>>, t: Seq<Option<nat>>)
    ensures
        max_known(s + t) == match (max_known(s), max_known(t)) {
            (Some(a), Some(b)) => Some(if a >= b { a } else { b }),
            (Some(a), None) => Some(a),
            (None, b) => b,
        },
        forall|d: Option<nat>| #[trigger] max_known(seq![d]) == d,
    decreases t.len(),
{
    assert forall|d: Option<nat>| #[trigger] max_known(seq![d]) == d by {
        let one = seq![d];
        assert(one.drop_last() =~= Seq::<Option<nat>>::empty());
        assert(one.last() == d);
        assert(max_known(one.drop_last()) == max_known(Seq::<Option<nat>>::empty()));
    }
    if t.len() == 0 {
        assert(s + t =~= s);
    } else {
        lemma_max_known_concat(s, t.drop_last());
        assert((s + t).drop_last() =~= s + t.drop_last());
        assert((s + t).last() == t.last());
    }
}

/// When every duration is known, the longest of two lists together is the
/// longer of the longest of each; one unknown duration makes it unknown; a
/// single duration is its own longest.
pub proof fn lemma_max_all_known_concat(s: Seq<Option<nat>>, t: Seq<Option<nat>>)
    ensures
        max_all_known(s + t) == match (max_all_known(s), max_all_known(t)) {
            (Some(a), Some(b)) => Some(if a >= b { a } else { b }),
            _ => None,
        },
        forall|d: Option<nat>| #[trigger] max_all_known(seq![d]) == d,
    decreases t.len(),
{
    assert forall|d: Option<nat>| #[trigger] max_all_known(seq![d]) == d by {
        let one = seq![d];
        assert(one.drop_last() =~= Seq::<Option<nat>>::empty());
        assert(one.last() == d);
        assert(max_all_known(one.drop_last()) == max_all_known(Seq::<Option<nat>>::empty()));
    }
    if t.len() == 0 {
        assert(s + t =~= s);
    } else {
        lemma_max_all_known_concat(s, t.drop_last());
        assert((s + t).drop_last() =~= s + t.drop_last());
        assert((s + t).last() == t.last());
    }
}

/// The shortest known duration of two lists together is the shorter of the
/// shortest of each; a single duration is its own shortest.
pub proof fn lemma_min_known_concat(s: Seq<Option<nat>>, t: Seq<Option<nat>>)
    ensures
        min_known(s + t) == match (min_known(s), min_known(t)) {
            (Some(a), Some(b)) => Some(if a <= b { a } else { b }),
            (Some(a), None) => Some(a),
            (None, b) => b,
        },
        forall|d: Option<nat>| #[trigger] min_known(seq![d]) == d,
    decreases t.len(),
{
    assert forall|d: Option<nat>| #[trigger] min_known(seq![d]) == d by {
        let one = seq![d];
        assert(one.drop_last() =~= Seq::<Option<nat>>::empty());
        assert(one.last() == d);
        assert(min_known(one.drop_last()) == min_known(Seq::<Option<nat>>::empty()));
    }
    if t.len() == 0 {
        assert(s + t =~= s);
    } else {
        lemma_min_known_concat(s, t.drop_last());
        assert((s + t).drop_last() =~= s + t.drop_last());
        assert((s + t).last() == t.last());
    }
}

/// A duration that does not fit into `std::time::Duration` is reported as unknown.
pub open spec fn capped(d: Option<nat>) -> Option<nat> {
    match d {
        Some(n) => if n <= MAX_DURATION_NANOS { Some(n) } else { None },
        None => None,
    }
}

/// Running sum over durations that all have to be known, one duration at a time.
pub(crate) fn sum_all_known_step(
    acc: Option<u128>,
    d: Option<u128>,
    Ghost(prefix): Ghost<Seq<Option<nat>>>,
) -> (r: Option<u128>)
    requires
        opt_nat(acc) == capped(sum_all_known(prefix)),
        fits_duration(opt_nat(d)),
    ensures
        opt_nat(r) == capped(sum_all_known(prefix.push(opt_nat(d)))),
        fits_duration(opt_nat(r)),
{
    assert(prefix.push(opt_nat(d)).drop_last() =~= prefix);
    match (acc, d) {
        (Some(a), Some(b)) => {
            if b <= MAX_DURATION_NANOS - a {
                Some(a + b)
            } else {
                None
            }
        },
        _ => None,
    }
}

/// Running sum over the known durations, one duration at a time.
pub(crate) fn sum_known_step(
    acc: Option<u128>,
    overflowed: bool,
    d: Option<u128>,
    Ghost(prefix): Ghost<Seq<Option<nat>>>,
) -> (r: (Option<u128>, bool))
    requires
        overflowed ==> acc is None && !fits_duration(sum_known(prefix)),
        !overflowed ==> opt_nat(acc) == sum_known(prefix),
        fits_duration(opt_nat(acc)),
        fits_duration(opt_nat(d)),
    ensures
        r.1 ==> r.0 is None && !fits_duration(sum_known(prefix.push(opt_nat(d)))),
        !r.1 ==> opt_nat(r.0) == sum_known(prefix.push(opt_nat(d))),
        fits_duration(opt_nat(r.0)),
{
    assert(prefix.push(opt_nat(d)).drop_last() =~= prefix);
    if overflowed {
        return (None, true);
    }
    match (acc, d) {
        (Some(a), Some(b)) => {
            if b <= MAX_DURATION_NANOS - a {
                (Some(a + b), false)
            } else {
                (None, true)
            }
        },
        (Some(a), None) => (Some(a), false),
        (None, b) => (b, false),
    }
}

/// Running maximum over durations that all have to be known, one duration at a time.
pub(crate) fn max_all_known_step(
    acc: Option<u128>,
    d: Option<u128>,
    Ghost(prefix): Ghost<Seq<Option<nat>>>,
) -> (r: Option<u128>)
    requires
        opt_nat(acc) == max_all_known(prefix),
        fits_duration(opt_nat(acc)),
        fits_duration(opt_nat(d)),
    ensures
        opt_nat(r) == max_all_known(prefix.push(opt_nat(d))),
        fits_duration(opt_nat(r)),
{
    assert(prefix.push(opt_nat(d)).drop_last() =~= prefix);
    match (acc, d) {
        (Some(a), Some(b)) => Some(if a >= b { a } else { b }),
        _ => None,
    }
}

/// Running maximum over the known durations, one duration at a time.
pub(crate) fn max_known_step(
    acc: Option<u128>,
    d: Option<u128>,
    Ghost(prefix): Ghost<Seq<Option<nat>>>,
) -> (r: Option<u128>)
    requires
        opt_nat(acc) == max_known(prefix),
        fits_duration(opt_nat(acc)),
        fits_duration(opt_nat(d)),
    ensures
        opt_nat(r) == max_known(prefix.push(opt_nat(d))),
        fits_duration(opt_nat(r)),
{
    assert(prefix.push(opt_nat(d)).drop_last() =~= prefix);
    match (acc, d) {
        (Some(a), Some(b)) => Some(if a >= b { a } else { b }),
        (Some(a), None) => Some(a),
        (None, b) => b,
    }
}

/// Running minimum over the known durations, one duration at a time.
pub(crate) fn min_known_step(
    acc: Option<u128>,
    d: Option<u128>,
    Ghost(prefix): Ghost<Seq<Option<nat>>>,
) -> (r: Option<u128>)
    requires
        opt_nat(acc) == min_known(prefix),
        fits_duration(opt_nat(acc)),
        fits_duration(opt_nat(d)),
    ensures
        opt_nat(r) == min_known(prefix.push(opt_nat(d))),
        fits_duration(opt_nat(r)),
{
    assert(prefix.push(opt_nat(d)).drop_last() =~= prefix);
    match (acc, d) {
        (Some(a), Some(b)) => Some(if a <= b { a } else { b }),
        (Some(a), None) => Some(a),
        (None, b) => b,
    }
}

} // verus!
