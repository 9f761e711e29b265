//! Dithering for audio quantization and requantization.
//!
//! Dithering adds a little noise before a signal is quantized, so that the
//! quantization error does not follow the signal. The noise that is used is
//! selected by an [`Algorithm`].
use vstd::prelude::*;

verus! {

/// Dither algorithm selection for runtime choice
#[derive(Debug, Clone, Copy, PartialEq, Eq, Structural)]
pub enum Algorithm {
    /// GPDF (Gaussian PDF) - normal/bell curve distribution.
    ///
    /// Uses Gaussian white noise which more closely mimics natural processes and
    /// analog circuits. Higher noise floor than TPDF.
    GPDF,
    /// High-pass dithering - reduces low-frequency artifacts.
    ///
    /// Uses blue noise (high-pass filtered white noise) to push dither energy
    /// toward higher frequencies.
    HighPass,
    /// RPDF (Rectangular PDF) - uniform distribution.
    ///
    /// Uses uniform white noise for basic decorrelation.
    RPDF,
    /// TPDF (Triangular PDF) - triangular distribution; the default.
    TPDF,
}

impl Default for Algorithm {
    fn default() -> (r: Self)
        ensures
            r == Algorithm::TPDF,
    {
        Algorithm::TPDF
    }
}

/// Makes the noise generators a dither algorithm draws from.
pub trait NoiseFactory<Tri, Uni, Gau, Blu> {
    /// White noise with a triangular distribution.
    fn triangular(&self) -> Tri;

    /// White noise with a uniform distribution.
    fn uniform(&self) -> Uni;

    /// White noise with a Gaussian distribution.
    fn gaussian(&self) -> Gau;

    /// Blue (high-pass filtered) noise.
    fn blue(&self) -> Blu;
}

/// The noise source of a dither: one generator, or one blue noise generator
/// per channel for high-pass dithering, so that no state crosses channel
/// boundaries in interleaved audio.
pub enum NoiseGenerator<Tri, Uni, Gau, Blu> {
    TPDF(Tri),
    RPDF(Uni),
    GPDF(Gau),
    HighPass(Vec<Blu>),
}

impl<Tri, Uni, Gau, Blu> NoiseGenerator<Tri, Uni, Gau, Blu> {
    /// The algorithm a generator serves.
    pub open spec fn algorithm_spec(&self) -> Algorithm {
        match self {
            NoiseGenerator::TPDF(_) => Algorithm::TPDF,
            NoiseGenerator::RPDF(_) => Algorithm::RPDF,
            NoiseGenerator::GPDF(_) => Algorithm::GPDF,
            NoiseGenerator::HighPass(_) => Algorithm::HighPass,
        }
    }

    /// Each algorithm has its own kind of noise: triangular for TPDF,
    /// uniform (rectangular) for RPDF, Gaussian for GPDF and blue noise per
    /// channel for high-pass dithering.
    pub proof fn lemma_algorithm_names_noise(&self)
        ensures
            (self.algorithm_spec() == Algorithm::TPDF) <==> self is TPDF,
            (self.algorithm_spec() == Algorithm::RPDF) <==> self is RPDF,
            (self.algorithm_spec() == Algorithm::GPDF) <==> self is GPDF,
            (self.algorithm_spec() == Algorithm::HighPass) <==> self is HighPass,
    {
    }

    /// The noise source for `algorithm` on a stream with `channels` channels.
    pub fn new<F: NoiseFactory<Tri, Uni, Gau, Blu>>(
        algorithm: Algorithm,
        channels: u16,
        factory: &F,
    ) -> (r: Self)
        ensures
            r.algorithm_spec() == algorithm,
            r matches NoiseGenerator::HighPass(v) ==> v@.len() == channels,
            (algorithm == Algorithm::TPDF) <==> r is TPDF,
            (algorithm == Algorithm::RPDF) <==> r is RPDF,
            (algorithm == Algorithm::GPDF) <==> r is GPDF,
            (algorithm == Algorithm::HighPass) <==> r is HighPass,
    {
        match algorithm {
            Algorithm::TPDF => NoiseGenerator::TPDF(factory.triangular()),
            Algorithm::RPDF => NoiseGenerator::RPDF(factory.uniform()),
            Algorithm::GPDF => NoiseGenerator::GPDF(factory.gaussian()),
            Algorithm::HighPass => {
                let mut generators: Vec<Blu> = Vec::new();
                let mut i: u16 = 0;
                while i < channels
                    invariant
                        i <= channels,
                        generators@.len() == i,
                    decreases channels - i,
                {
                    generators.push(factory.blue());
                    i = i + 1;
                }
                NoiseGenerator::HighPass(generators)
            },
        }
    }

    /// The algorithm this noise source serves.
    pub fn algorithm(&self) -> (r: Algorithm)
        ensures
            r == self.algorithm_spec(),
            self is TPDF ==> r == Algorithm::TPDF,
            self is RPDF ==> r == Algorithm::RPDF,
            self is GPDF ==> r == Algorithm::GPDF,
            self is HighPass ==> r == Algorithm::HighPass,
    {
        match self {
            NoiseGenerator::TPDF(_) => Algorithm::TPDF,
            NoiseGenerator::RPDF(_) => Algorithm::RPDF,
            NoiseGenerator::GPDF(_) => Algorithm::GPDF,
            NoiseGenerator::HighPass(_) => Algorithm::HighPass,
        }
    }

    /// Switches to `algorithm`; the noise source is only made anew when the
    /// algorithm changes.
    pub fn set_algorithm<F: NoiseFactory<Tri, Uni, Gau, Blu>>(
        &mut self,
        algorithm: Algorithm,
        channels: u16,
        factory: &F,
    )
        ensures
            final(self).algorithm_spec() == algorithm,
            (algorithm == Algorithm::TPDF) <==> *final(self) is TPDF,
            (algorithm == Algorithm::RPDF) <==> *final(self) is RPDF,
            (algorithm == Algorithm::GPDF) <==> *final(self) is GPDF,
            (algorithm == Algorithm::HighPass) <==> *final(self) is HighPass,
            old(self).algorithm_spec() == algorithm ==> *final(self) == *old(self),
    {
        if self.algorithm() != algorithm {
            *self = NoiseGenerator::new(algorithm, channels, factory);
        }
    }
}

} // verus!
