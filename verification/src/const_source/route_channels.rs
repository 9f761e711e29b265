use vstd::prelude::*;

use crate::const_source::list_of_sources::ListOfSources;
use crate::const_source::pops;
use crate::duration::{fits_duration, max_known, max_known_step, min_known, min_known_step, opt_nat};

pub mod array;
pub mod helpful_compile_time_error;
pub mod tuple;
pub mod vec;

verus! {

/// Total number of samples held by a collection of sample sequences.
pub open spec fn total_len<T>(s: Seq<Seq<T>>) -> nat
    decreases s.len(),
{
    if s.len() == 0 {
        0
    } else {
        total_len(s.drop_last()) + s.last().len()
    }
}

/// Taking one sample from the `i`-th sequence leaves one sample less in total.
pub proof fn lemma_total_len_pop<T>(s: Seq<Seq<T>>, i: int)
    requires
        0 <= i < s.len(),
        s[i].len() > 0,
    ensures
        total_len(s.update(i, s[i].drop_first())) + 1 == total_len(s),
    decreases s.len(),
{
    let u = s.update(i, s[i].drop_first());
    if i == s.len() - 1 {
        assert(u.drop_last() =~= s.drop_last());
    } else {
        assert(u.drop_last() =~= s.drop_last().update(i, s[i].drop_first()));
        lemma_total_len_pop(s.drop_last(), i);
    }
}

/// The input that output channel `cur` is taken from, searching from input
/// `i` whose first channel is `start`: the first input whose channels
/// `start..start + chans[i]` hold `cur`, or `chans.len()` when none does.
pub open spec fn channel_owner(chans: Seq<nat>, i: int, start: int, cur: int) -> int
    decreases chans.len() - i,
{
    if i < 0 || i >= chans.len() {
        chans.len() as int
    } else if start <= cur < start + chans[i] {
        i
    } else {
        channel_owner(chans, i + 1, start + chans[i], cur)
    }
}

/// The samples a channel combiner yields before it reports its end: inputs
/// with `chans[i]` channels each fill consecutive output channels, output
/// channel `cur` is next, and there are `ch_out` output channels. It ends as
/// soon as the input for the next output channel has run out.
pub open spec fn combined_output<T>(
    seqs: Seq<Seq<T>>,
    chans: Seq<nat>,
    cur: int,
    ch_out: int,
) -> Seq<T>
    decreases total_len(seqs),
{
    let i = channel_owner(chans, 0, 0, cur);
    if 0 <= i < seqs.len() && seqs[i].len() > 0 && ch_out > 0 {
        proof {
            lemma_total_len_pop(seqs, i);
        }
        seq![seqs[i][0]] + combined_output(
            seqs.update(i, seqs[i].drop_first()),
            chans,
            (cur + 1) % ch_out,
            ch_out,
        )
    } else {
        Seq::empty()
    }
}

/// `n` inputs with `ch` channels each.
pub open spec fn uniform_channels(n: nat, ch: nat) -> Seq<nat> {
    Seq::new(n, |i: int| ch)
}

/// What one step of a channel combiner does: it asked input `i`, the owner
/// of output channel `cur`, for a sample and moved on to the next output
/// channel.
pub proof fn lemma_combined_step<T>(
    before: Seq<Seq<T>>,
    after: Seq<Seq<T>>,
    chans: Seq<nat>,
    cur: int,
    ch_out: int,
    r: Option<T>,
)
    requires
        ch_out > 0,
        chans.len() == before.len(),
        0 <= channel_owner(chans, 0, 0, cur) < before.len(),
        after.len() == before.len(),
        after == before.update(channel_owner(chans, 0, 0, cur), after[channel_owner(chans, 0, 0, cur)]),
        pops(before[channel_owner(chans, 0, 0, cur)], after[channel_owner(chans, 0, 0, cur)], r),
    ensures
        pops(
            combined_output(before, chans, cur, ch_out),
            combined_output(after, chans, (cur + 1) % ch_out, ch_out),
            r,
        ),
{
    let i = channel_owner(chans, 0, 0, cur);
    if before[i].len() > 0 {
        assert(after =~= before.update(i, before[i].drop_first()));
        let rest = combined_output(after, chans, (cur + 1) % ch_out, ch_out);
        assert((seq![before[i][0]] + rest).drop_first() =~= rest);
    }
}

/// With inputs of `ch` channels each, channel `cur` belongs to input
/// `cur / ch` when that input exists.
pub proof fn lemma_uniform_owner(n: nat, ch: nat, i: int, cur: int)
    requires
        ch > 0,
        0 <= i <= n,
        i * ch <= cur,
    ensures
        channel_owner(uniform_channels(n, ch), i, i * ch, cur) == if cur < n * ch {
            cur / (ch as int)
        } else {
            n as int
        },
    decreases n - i,
{
    let chans = uniform_channels(n, ch);
    if i < n {
        if cur < i * ch + ch {
            assert(cur / (ch as int) == i) by (nonlinear_arith)
                requires
                    i * ch <= cur < i * ch + ch,
                    ch > 0,
            ;
            assert(cur < n * ch) by (nonlinear_arith)
                requires
                    cur < i * ch + ch,
                    i < n,
                    ch > 0,
            ;
        } else {
            assert((i + 1) * ch == i * ch + ch) by (nonlinear_arith);
            lemma_uniform_owner(n, ch, i + 1, cur);
        }
    } else {
        assert(!(cur < n * ch));
    }
}

/// Yields the next sample of a combiner whose inputs all have `CH_IN`
/// channels and together fill its `ch_out` output channels; `*current` is
/// the output channel that comes next.
pub(crate) fn next_combined<const SR: u32, const CH_IN: u16, T, L: ListOfSources<SR, CH_IN, T>>(
    list: &mut L,
    current: &mut u16,
    ch_out: u16,
) -> (r: Option<T>)
    requires
        old(list).wf(),
        ch_out > 0,
        CH_IN * old(list).sources().len() == ch_out,
        *old(current) < ch_out,
    ensures
        final(list).wf(),
        final(list).sources().len() == old(list).sources().len(),
        *final(current) < ch_out,
        pops(
            combined_output(
                old(list).sources(),
                uniform_channels(old(list).sources().len(), CH_IN as nat),
                *old(current) as int,
                ch_out as int,
            ),
            combined_output(
                final(list).sources(),
                uniform_channels(old(list).sources().len(), CH_IN as nat),
                *final(current) as int,
                ch_out as int,
            ),
            r,
        ),
{
    let n = list.len();
    let ghost chans = uniform_channels(n as nat, CH_IN as nat);
    let ghost cur = *current as int;
    proof {
        lemma_uniform_owner(n as nat, CH_IN as nat, 0, cur);
    }
    let mut channel: u16 = 0;
    let mut i: usize = 0;
    while i < n
        invariant
            list.wf(),
            list.sources().len() == n,
            n == old(list).sources().len(),
            list.sources() == old(list).sources(),
            *current == cur,
            cur == *old(current),
            cur < ch_out,
            CH_IN * n == ch_out,
            ch_out > 0,
            i <= n,
            channel == i * CH_IN,
            chans == uniform_channels(n as nat, CH_IN as nat),
            channel_owner(chans, 0, 0, cur) == channel_owner(chans, i as int, channel as int, cur),
        decreases n - i,
    {
        let ch = list.channels(i);
        assert(channel + ch <= ch_out) by (nonlinear_arith)
            requires
                channel == i * CH_IN,
                ch == CH_IN,
                i < n,
                CH_IN * n == ch_out,
        ;
        assert(chans[i as int] == CH_IN as nat);
        if channel <= *current && *current < channel + ch {
            assert(channel_owner(chans, 0, 0, cur) == i);
            *current = (*current + 1) % ch_out;
            let ghost before = list.sources();
            let r = list.next(i);
            proof {
                lemma_combined_step(before, list.sources(), chans, cur, ch_out as int, r);
            }
            return r;
        }
        assert((i + 1) * CH_IN == i * CH_IN + CH_IN) by (nonlinear_arith);
        channel = channel + ch;
        i = i + 1;
    }
    None
}

/// Longest of the known durations of a list's sources.
pub(crate) fn max_known_durations<const SR: u32, const CH: u16, T, L: ListOfSources<SR, CH, T>>(
    list: &L,
) -> (r: Option<u128>)
    requires
        list.wf(),
    ensures
        opt_nat(r) == max_known(list.durations()),
        fits_duration(opt_nat(r)),
{
    let n = list.len();
    let ghost ds = list.durations();
    let mut acc: Option<u128> = None;
    let mut i: usize = 0;
    assert(ds.take(0) =~= Seq::<Option<nat>>::empty());
    while i < n
        invariant
            n == ds.len(),
            n == list.sources().len(),
            ds == list.durations(),
            list.wf(),
            i <= n,
            opt_nat(acc) == max_known(ds.take(i as int)),
            fits_duration(opt_nat(acc)),
        decreases n - i,
    {
        let d = list.total_duration(i);
        acc = max_known_step(acc, d, Ghost(ds.take(i as int)));
        assert(ds.take(i as int).push(ds[i as int]) =~= ds.take(i + 1));
        i = i + 1;
    }
    assert(ds.take(n as int) =~= ds);
    acc
}

/// Shortest of the known durations of a list's sources.
pub(crate) fn min_known_durations<const SR: u32, const CH: u16, T, L: ListOfSources<SR, CH, T>>(
    list: &L,
) -> (r: Option<u128>)
    requires
        list.wf(),
    ensures
        opt_nat(r) == min_known(list.durations()),
        fits_duration(opt_nat(r)),
{
    let n = list.len();
    let ghost ds = list.durations();
    let mut acc: Option<u128> = None;
    let mut i: usize = 0;
    assert(ds.take(0) =~= Seq::<Option<nat>>::empty());
    while i < n
        invariant
            n == ds.len(),
            n == list.sources().len(),
            ds == list.durations(),
            list.wf(),
            i <= n,
            opt_nat(acc) == min_known(ds.take(i as int)),
            fits_duration(opt_nat(acc)),
        decreases n - i,
    {
        let d = list.total_duration(i);
        acc = min_known_step(acc, d, Ghost(ds.take(i as int)));
        assert(ds.take(i as int).push(ds[i as int]) =~= ds.take(i + 1));
        i = i + 1;
    }
    assert(ds.take(n as int) =~= ds);
    acc
}

} // verus!
