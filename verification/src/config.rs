//! Engine configuration enums whose behaviour is integral: synthesis mode,
//! style presets, phase mode and quality mode.
use vstd::prelude::*;

verus! {

/// Synthesis mode selector: how validated frequency-domain residual becomes
/// time-domain output. Kept in the configuration so the UI can switch it at
/// runtime.
#[derive(Debug, Clone, Copy, PartialEq, Eq, Structural)]
pub enum SynthesisMode {
    /// Additive synthesis (sum of cosines); the established sound.
    LegacyAdditive,
    /// Core-lattice ISTFT with overlap-add.
    FftOlaPilot,
    /// Hop-aligned ISTFT with overlap-add across all lattices.
    FftOlaFull,
}

/// The integer code of a synthesis mode on the UI bridge.
pub open spec fn synthesis_code(m: SynthesisMode) -> u32 {
    match m {
        SynthesisMode::LegacyAdditive => 0,
        SynthesisMode::FftOlaPilot => 1,
        SynthesisMode::FftOlaFull => 2,
    }
}

/// The synthesis mode that an integer code decodes to; unknown codes mean
/// `LegacyAdditive`.
pub open spec fn synthesis_from_code(v: u32) -> SynthesisMode {
    if v == 1 {
        SynthesisMode::FftOlaPilot
    } else if v == 2 {
        SynthesisMode::FftOlaFull
    } else {
        SynthesisMode::LegacyAdditive
    }
}

impl Default for SynthesisMode {
    fn default() -> (r: Self)
        ensures
            r == SynthesisMode::LegacyAdditive,
    {
        SynthesisMode::LegacyAdditive
    }
}

impl SynthesisMode {
    /// Convert from integer (UI bridge): 0=LegacyAdditive, 1=FftOlaPilot,
    /// 2=FftOlaFull, anything else LegacyAdditive.
    pub fn from_u32(v: u32) -> (r: Self)
        ensures
            r == synthesis_from_code(v),
    {
        match v {
            1 => SynthesisMode::FftOlaPilot,
            2 => SynthesisMode::FftOlaFull,
            _ => SynthesisMode::LegacyAdditive,
        }
    }

    /// Convert to integer for serialization.
    pub fn to_u32(self) -> (r: u32)
        ensures
            r == synthesis_code(self),
    {
        match self {
            SynthesisMode::LegacyAdditive => 0,
            SynthesisMode::FftOlaPilot => 1,
            SynthesisMode::FftOlaFull => 2,
        }
    }
}

/// Decoding the code of a mode gives the mode back.
pub proof fn lemma_synthesis_code_roundtrip(m: SynthesisMode)
    ensures
        synthesis_from_code(synthesis_code(m)) == m,
{
}

/// Encoding a decoded code gives the code back exactly for the known codes
/// 0, 1 and 2; every other code encodes back to 0.
pub proof fn lemma_synthesis_decode_encode(v: u32)
    ensures
        v <= 2 ==> synthesis_code(synthesis_from_code(v)) == v,
        v > 2 ==> synthesis_code(synthesis_from_code(v)) == 0,
{
}

/// Style preset identifiers.
#[derive(Debug, Clone, Copy, PartialEq, Eq, Structural)]
pub enum StylePreset {
    Reference,
    Grand,
    Smooth,
    Vocal,
    Punch,
    Air,
    Night,
}

/// Phase correction mode.
#[derive(Debug, Clone, Copy, PartialEq, Eq, Structural)]
pub enum PhaseMode {
    /// Better quality, higher latency.
    Linear,
    /// Lower latency, slight phase artifacts.
    Minimum,
}

/// Quality mode controlling CPU budget and algorithm complexity.
#[derive(Debug, Clone, Copy, PartialEq, Eq, Structural)]
pub enum QualityMode {
    /// CPU-only, simplified analysis, about 6-10 ms latency.
    Light,
    /// Standard precision, about 14-24 ms latency.
    Standard,
    /// Full pipeline, maximum quality, about 28-45 ms latency.
    Ultra,
}

/// Core lattice FFT size of a quality mode.
pub open spec fn spec_core_fft_size(q: QualityMode) -> usize {
    match q {
        QualityMode::Light => 512,
        QualityMode::Standard => 1024,
        QualityMode::Ultra => 2048,
    }
}

/// Hop size of a quality mode: a quarter of the core FFT size (75% overlap).
pub open spec fn spec_hop_size(q: QualityMode) -> usize {
    (spec_core_fft_size(q) / 4) as usize
}

/// Maximum reprojection iterations of a quality mode.
pub open spec fn spec_max_reprojection_iters(q: QualityMode) -> usize {
    match q {
        QualityMode::Light => 1,
        QualityMode::Standard => 2,
        QualityMode::Ultra => 3,
    }
}

impl QualityMode {
    /// Core lattice FFT size for this quality mode.
    pub fn core_fft_size(&self) -> (r: usize)
        ensures
            r == spec_core_fft_size(*self),
    {
        match self {
            QualityMode::Light => 512,
            QualityMode::Standard => 1024,
            QualityMode::Ultra => 2048,
        }
    }

    /// Hop size (core lattice) for this quality mode.
    pub fn hop_size(&self) -> (r: usize)
        ensures
            r == spec_hop_size(*self),
    {
        self.core_fft_size() / 4
    }

    /// Maximum reprojection iterations allowed.
    pub fn max_reprojection_iters(&self) -> (r: usize)
        ensures
            r == spec_max_reprojection_iters(*self),
    {
        match self {
            QualityMode::Light => 1,
            QualityMode::Standard => 2,
            QualityMode::Ultra => 3,
        }
    }

    /// FFT size under its older name; the same as `core_fft_size`.
    pub fn fft_size(&self) -> (r: usize)
        ensures
            r == spec_core_fft_size(*self),
    {
        self.core_fft_size()
    }
}

/// Every quality mode overlaps its frames by 75%: four hops make one core
/// frame, and a higher quality never has a smaller frame or fewer iterations.
pub proof fn lemma_quality_mode_geometry(q: QualityMode, p: QualityMode)
    ensures
        spec_hop_size(q) * 4 == spec_core_fft_size(q),
        spec_hop_size(q) > 0,
        quality_rank(q) <= quality_rank(p) ==> spec_core_fft_size(q) <= spec_core_fft_size(p)
            && spec_max_reprojection_iters(q) <= spec_max_reprojection_iters(p),
{
}

/// The order of quality modes from lightest to heaviest.
pub open spec fn quality_rank(q: QualityMode) -> int {
    match q {
        QualityMode::Light => 0,
        QualityMode::Standard => 1,
        QualityMode::Ultra => 2,
    }
}

} // verus!
