use vstd::prelude::*;

use crate::duration::MAX_DURATION_NANOS;

verus! {

/// How an envelope's gain maps to a linear factor.
#[derive(Debug, Clone, Copy, PartialEq, Eq, Structural)]
pub enum Scale {
    /// The gain is the linear factor.
    Linear,
    /// The gain is normalized loudness in `[0.0, 1.0]`, which better matches
    /// how loud people hear a sound.
    Normalized,
}

impl Default for Scale {
    fn default() -> (r: Self)
        ensures
            r == Scale::Linear,
    {
        Scale::Linear
    }
}

/// The gain a ramp gives one sample.
#[derive(Debug, Clone, Copy, PartialEq, Eq, Structural)]
pub enum RampGain {
    /// The ramp is over and holds its end gain.
    End,
    /// The ramp is over and leaves the sample as it is.
    Unity,
    /// The ramp is under way: the gain lies between the start and end gains
    /// in the proportion `elapsed / total` (both in nanoseconds).
    Interpolate { elapsed: u128, total: u128 },
}

/// One sample of a ramp that has run for `elapsed` of `total` nanoseconds
/// and counted `sample_idx` samples: the gain for the sample, the elapsed
/// time after it and the count after it. The count only moves while the
/// ramp is under way, and the elapsed time moves on by one sample period
/// whenever the count is a multiple of the channel count.
pub open spec fn ramp_step_spec(
    elapsed: nat,
    total: nat,
    sample_idx: nat,
    channels: nat,
    sample_rate: nat,
    clamp_end: bool,
) -> (RampGain, nat, nat) {
    let gain = if elapsed >= total {
        if clamp_end {
            RampGain::End
        } else {
            RampGain::Unity
        }
    } else {
        RampGain::Interpolate { elapsed: elapsed as u128, total: total as u128 }
    };
    let idx = if elapsed >= total {
        sample_idx
    } else {
        sample_idx + 1
    };
    let after = if idx % channels == 0 {
        elapsed + 1_000_000_000nat / sample_rate
    } else {
        elapsed
    };
    (gain, after, idx)
}

/// The bookkeeping of a gain ramp for one sample (see `ramp_step_spec`).
pub fn ramp_step(
    elapsed_nanos: u128,
    total_nanos: u128,
    sample_idx: u64,
    channels: u16,
    sample_rate: u32,
    clamp_end: bool,
) -> (r: (RampGain, u128, u64))
    requires
        channels > 0,
        sample_rate > 0,
        elapsed_nanos < total_nanos ==> sample_idx < u64::MAX,
        ramp_step_spec(
            elapsed_nanos as nat,
            total_nanos as nat,
            sample_idx as nat,
            channels as nat,
            sample_rate as nat,
            clamp_end,
        ).1 <= MAX_DURATION_NANOS,
    ensures
        (r.0, r.1 as nat, r.2 as nat) == ramp_step_spec(
            elapsed_nanos as nat,
            total_nanos as nat,
            sample_idx as nat,
            channels as nat,
            sample_rate as nat,
            clamp_end,
        ),
{
    let mut idx = sample_idx;
    let gain = if elapsed_nanos >= total_nanos {
        if clamp_end {
            RampGain::End
        } else {
            RampGain::Unity
        }
    } else {
        idx = idx + 1;
        RampGain::Interpolate { elapsed: elapsed_nanos, total: total_nanos }
    };
    let mut elapsed = elapsed_nanos;
    if idx % (channels as u64) == 0 {
        let period = 1_000_000_000u64 / (sample_rate as u64);
        elapsed = elapsed + period as u128;
    }
    (gain, elapsed, idx)
}

} // verus!
