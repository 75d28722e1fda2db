//! Audio format negotiation: which stream formats the effect accepts, and
//! which supported format it proposes in place of an unsupported one.
//!
//! The effect processes 32-bit float PCM, mono or stereo, at 44.1, 48, 96 or
//! 192 kHz. Wider channel layouts would need more engines than the
//! dual-engine design provides.
use vstd::prelude::*;

verus! {

/// The sample rates (Hz) the effect can process.
pub open spec fn is_supported_rate(sample_rate: u32) -> bool {
    sample_rate == 44100 || sample_rate == 48000 || sample_rate == 96000 || sample_rate == 192000
}

/// A format is supported when it is 32-bit float, at a supported rate,
/// with one or two channels.
pub open spec fn spec_format_supported(
    sample_rate: u32,
    bits_per_sample: u16,
    channels: u16,
    is_float: bool,
) -> bool {
    &&& is_float
    &&& bits_per_sample == 32
    &&& is_supported_rate(sample_rate)
    &&& 1 <= channels <= 2
}

/// The supported rate that a requested rate snaps to: the nearest one,
/// cutting over at the midpoints between neighbouring rates (a rate exactly
/// halfway goes to the lower one).
pub open spec fn spec_snap_rate(sample_rate: u32) -> u32 {
    if sample_rate <= 46050 {
        44100
    } else if sample_rate <= 72000 {
        48000
    } else if sample_rate <= 144000 {
        96000
    } else {
        192000
    }
}

/// The channel count clamped to mono or stereo.
pub open spec fn spec_clamp_channels(channels: u16) -> u16 {
    if channels < 1 {
        1
    } else if channels > 2 {
        2
    } else {
        channels
    }
}

/// Check if we support the given audio format parameters.
pub fn is_format_supported(sample_rate: u32, bits_per_sample: u16, channels: u16, is_float: bool) -> (r: bool)
    ensures
        r == spec_format_supported(sample_rate, bits_per_sample, channels, is_float),
{
    if !is_float || bits_per_sample != 32 {
        return false;
    }
    let supported_rates: [u32; 4] = [44100, 48000, 96000, 192000];
    let mut found = false;
    let mut i: usize = 0;
    while i < 4
        invariant
            0 <= i <= 4,
            supported_rates@ == seq![44100u32, 48000u32, 96000u32, 192000u32],
            found == (exists|j: int| 0 <= j < i && supported_rates@[j] == sample_rate),
        decreases 4 - i,
    {
        if supported_rates[i] == sample_rate {
            found = true;
        }
        i = i + 1;
    }
    if !found {
        return false;
    }
    if channels < 1 || channels > 2 {
        return false;
    }
    true
}

/// Suggest the closest supported format: (sample_rate, bits_per_sample, channels).
pub fn suggest_format(sample_rate: u32, bits_per_sample: u16, channels: u16) -> (r: (u32, u16, u16))
    ensures
        r == (spec_snap_rate(sample_rate), 32u16, spec_clamp_channels(channels)),
{
    let bits: u16 = 32;
    let rate: u32 = if sample_rate <= 46050 {
        44100
    } else if sample_rate <= 72000 {
        48000
    } else if sample_rate <= 144000 {
        96000
    } else {
        192000
    };
    let ch: u16 = if channels < 1 {
        1
    } else if channels > 2 {
        2
    } else {
        channels
    };
    (rate, bits, ch)
}

/// The distance between two rates.
pub open spec fn rate_distance(a: u32, b: u32) -> int {
    if a >= b { a - b } else { b - a }
}

/// The suggested rate is a supported rate no farther from the requested
/// rate than any other supported rate.
pub proof fn lemma_suggestion_is_nearest_rate(sample_rate: u32, other: u32)
    requires
        is_supported_rate(other),
    ensures
        is_supported_rate(spec_snap_rate(sample_rate)),
        rate_distance(spec_snap_rate(sample_rate), sample_rate) <= rate_distance(other, sample_rate),
{
}

/// Every suggestion is a format the effect accepts.
pub proof fn lemma_suggestion_is_supported(sample_rate: u32, bits_per_sample: u16, channels: u16)
    ensures
        spec_format_supported(
            spec_snap_rate(sample_rate),
            32u16,
            spec_clamp_channels(channels),
            true,
        ),
{
}

/// A supported format is suggested unchanged.
pub proof fn lemma_supported_format_is_fixed_point(sample_rate: u32, channels: u16)
    requires
        spec_format_supported(sample_rate, 32u16, channels, true),
    ensures
        spec_snap_rate(sample_rate) == sample_rate,
        spec_clamp_channels(channels) == channels,
{
}

} // verus!
