//! Quality checks on embedding vectors.
//!
//! The checks that depend only on the vector's shape — emptiness, dimension
//! bounds, finiteness of every element, and the share of exact zeros — are
//! decided here directly on the bit patterns of the 32-bit float elements.
//! The two aggregate measurements that require floating-point arithmetic,
//! the L2 magnitude and the variance, are taken as arguments in fixed-point
//! form: magnitude in millionths, variance in trillionths. The caller
//! measures; this module decides, identically for every measurement it may
//! be handed.

use vstd::prelude::*;

use crate::error::EmbedError;
use crate::error::ValidationFailure;

verus! {

/// A 32-bit float is NaN when its exponent bits are all ones and its
/// mantissa is non-zero.
pub open spec fn spec_bits_is_nan(b: u32) -> bool {
    (b >> 23) & 0xff == 0xff && b & 0x7fffff != 0
}

/// A 32-bit float is infinite when its exponent bits are all ones and its
/// mantissa is zero.
pub open spec fn spec_bits_is_infinite(b: u32) -> bool {
    (b >> 23) & 0xff == 0xff && b & 0x7fffff == 0
}

/// Finite: neither NaN nor infinite, that is, the exponent bits are not
/// all ones.
pub open spec fn spec_bits_is_finite(b: u32) -> bool {
    !spec_bits_is_nan(b) && !spec_bits_is_infinite(b)
}

/// A 32-bit float is an exact zero (of either sign) when all bits but the
/// sign are zero.
pub open spec fn spec_bits_is_zero(b: u32) -> bool {
    b & 0x7fffffff == 0
}

/// Executable counterpart of [`spec_bits_is_finite`].
pub fn bits_is_finite(b: u32) -> (r: bool)
    ensures
        r == spec_bits_is_finite(b),
{
    (b >> 23) & 0xff != 0xff
}

/// Executable counterpart of [`spec_bits_is_zero`].
pub fn bits_is_zero(b: u32) -> (r: bool)
    ensures
        r == spec_bits_is_zero(b),
{
    b & 0x7fffffff == 0
}

/// Number of exact zeros among the elements.
pub open spec fn spec_zero_count(s: Seq<u32>) -> int
    decreases s.len(),
{
    if s.len() == 0 {
        0
    } else {
        spec_zero_count(s.drop_last()) + if spec_bits_is_zero(s.last()) {
            1int
        } else {
            0int
        }
    }
}

/// Every element is finite.
pub open spec fn spec_all_finite(s: Seq<u32>) -> bool {
    forall|i: int| 0 <= i < s.len() ==> spec_bits_is_finite(#[trigger] s[i])
}

/// The first non-finite index: the unique position whose element is not
/// finite while everything before it is.
pub open spec fn spec_first_nonfinite(s: Seq<u32>) -> int {
    choose|i: int|
        0 <= i < s.len() && !spec_bits_is_finite(s[i]) && forall|j: int|
            0 <= j < i ==> spec_bits_is_finite(#[trigger] s[j])
}

/// Configuration for embedding validation. Ratios are in permille,
/// magnitudes in millionths, so that every threshold is an exact integer.
#[derive(Clone, Copy, Debug)]
pub struct ValidationConfig {
    /// Minimum acceptable embedding dimension.
    pub min_dimension: usize,
    /// Maximum acceptable embedding dimension.
    pub max_dimension: usize,
    /// Exact dimension required of the vector, when set.
    pub expected_dimension: Option<usize>,
    /// Largest allowed share of exact zeros, in permille.
    pub max_zero_ratio_permille: u32,
    /// Minimum L2 magnitude, in millionths.
    pub min_magnitude_micros: u64,
    /// Maximum L2 magnitude, in millionths.
    pub max_magnitude_micros: u64,
    /// Whether NaN and infinite elements are rejected.
    pub check_finite: bool,
    /// Largest allowed share of repeats of one value, in permille; exceeding
    /// it is reported by [`EmbeddingValidator::duplicate_ratio_exceeded`]
    /// but does not fail validation.
    pub max_duplicate_ratio_permille: u32,
}

impl ValidationConfig {
    pub open spec fn spec_default() -> Self {
        ValidationConfig {
            min_dimension: 100,
            max_dimension: 4096,
            expected_dimension: None,
            max_zero_ratio_permille: 900,
            min_magnitude_micros: 10_000,
            max_magnitude_micros: 100_000_000,
            check_finite: true,
            max_duplicate_ratio_permille: 500,
        }
    }
}

impl Default for ValidationConfig {
    fn default() -> (r: Self)
        ensures
            r == ValidationConfig::spec_default(),
    {
        ValidationConfig {
            min_dimension: 100,
            max_dimension: 4096,
            expected_dimension: None,
            max_zero_ratio_permille: 900,
            min_magnitude_micros: 10_000,
            max_magnitude_micros: 100_000_000,
            check_finite: true,
            max_duplicate_ratio_permille: 500,
        }
    }
}

/// Validates embeddings against shape, finiteness, sparsity and magnitude
/// rules.
#[derive(Clone, Copy, Debug)]
pub struct EmbeddingValidator {
    pub config: ValidationConfig,
}

/// The verdict of validation, before it is wrapped into an error with its
/// context.
pub open spec fn spec_verdict(
    config: ValidationConfig,
    bits: Seq<u32>,
    magnitude_micros: u64,
    variance_picos: u64,
) -> Option<ValidationFailure> {
    if bits.len() == 0 {
        Some(ValidationFailure::Empty)
    } else if config.expected_dimension matches Some(d) && bits.len() != d {
        Some(
            ValidationFailure::WrongDimension {
                expected: config.expected_dimension->Some_0,
                actual: bits.len() as usize,
            },
        )
    } else if bits.len() < config.min_dimension {
        Some(
            ValidationFailure::BelowMinDimension {
                len: bits.len() as usize,
                min: config.min_dimension,
            },
        )
    } else if bits.len() > config.max_dimension {
        Some(
            ValidationFailure::AboveMaxDimension {
                len: bits.len() as usize,
                max: config.max_dimension,
            },
        )
    } else if config.check_finite && !spec_all_finite(bits) {
        Some(ValidationFailure::NotFinite { index: spec_first_nonfinite(bits) as usize })
    } else if spec_zero_count(bits) * 1000 > config.max_zero_ratio_permille * bits.len() {
        Some(
            ValidationFailure::ZeroRatioExceeded {
                zero_count: spec_zero_count(bits) as usize,
                len: bits.len() as usize,
            },
        )
    } else if magnitude_micros < config.min_magnitude_micros {
        Some(
            ValidationFailure::MagnitudeTooLow {
                magnitude_micros,
                min_micros: config.min_magnitude_micros,
            },
        )
    } else if magnitude_micros > config.max_magnitude_micros {
        Some(
            ValidationFailure::MagnitudeTooHigh {
                magnitude_micros,
                max_micros: config.max_magnitude_micros,
            },
        )
    } else if variance_picos < 1_000_000 {
        Some(ValidationFailure::LowVariance)
    } else {
        None
    }
}

impl EmbeddingValidator {
    pub fn new(config: ValidationConfig) -> (r: Self)
        ensures
            r.config == config,
    {
        EmbeddingValidator { config }
    }

    /// Requires the vector to have exactly `dimension` elements.
    pub fn with_dimension(self, dimension: usize) -> (r: Self)
        ensures
            r.config == (ValidationConfig {
                expected_dimension: Some(dimension),
                min_dimension: dimension,
                max_dimension: dimension,
                ..self.config
            }),
    {
        EmbeddingValidator {
            config: ValidationConfig {
                expected_dimension: Some(dimension),
                min_dimension: dimension,
                max_dimension: dimension,
                ..self.config
            },
        }
    }

    /// Bounds the L2 magnitude, in millionths.
    pub fn with_magnitude_range(self, min_micros: u64, max_micros: u64) -> (r: Self)
        ensures
            r.config == (ValidationConfig {
                min_magnitude_micros: min_micros,
                max_magnitude_micros: max_micros,
                ..self.config
            }),
    {
        EmbeddingValidator {
            config: ValidationConfig {
                min_magnitude_micros: min_micros,
                max_magnitude_micros: max_micros,
                ..self.config
            },
        }
    }

    /// Validate an embedding, given as the bit patterns of its elements
    /// together with its measured magnitude (millionths) and variance
    /// (trillionths).
    ///
    /// The checks run in a fixed order — emptiness, expected dimension,
    /// dimension bounds, finiteness (reporting the first offending index),
    /// zero ratio, magnitude range, variance — and the first violated rule
    /// decides the error.
    pub fn validate(
        &self,
        bits: &Vec<u32>,
        magnitude_micros: u64,
        variance_picos: u64,
        context: &str,
    ) -> (r: Result<(), EmbedError>)
        ensures
            r is Ok <==> spec_verdict(
                self.config,
                bits@,
                magnitude_micros,
                variance_picos,
            ) is None,
            spec_verdict(self.config, bits@, magnitude_micros, variance_picos) matches Some(f)
                ==> match f {
                ValidationFailure::WrongDimension { expected, actual } => r == Err::<
                    (),
                    EmbedError,
                >(EmbedError::InvalidDimension { expected, actual }),
                _ => r matches Err(e) && e matches EmbedError::Validation {
                    context: c,
                    reason,
                } && c@ == context@ && reason == f,
            },
    {
        let n = bits.len();
        if n == 0 {
            return Err(
                EmbedError::Validation {
                    context: context.to_owned(),
                    reason: ValidationFailure::Empty,
                },
            );
        }
        match self.config.expected_dimension {
            Some(d) => {
                if n != d {
                    return Err(EmbedError::InvalidDimension { expected: d, actual: n });
                }
            },
            None => {},
        }
        if n < self.config.min_dimension {
            return Err(
                EmbedError::Validation {
                    context: context.to_owned(),
                    reason: ValidationFailure::BelowMinDimension {
                        len: n,
                        min: self.config.min_dimension,
                    },
                },
            );
        }
        if n > self.config.max_dimension {
            return Err(
                EmbedError::Validation {
                    context: context.to_owned(),
                    reason: ValidationFailure::AboveMaxDimension {
                        len: n,
                        max: self.config.max_dimension,
                    },
                },
            );
        }
        if self.config.check_finite {
            let mut i: usize = 0;
            while i < n
                invariant
                    n == bits@.len(),
                    n != 0,
                    self.config.expected_dimension matches Some(d) ==> n == d,
                    n >= self.config.min_dimension,
                    n <= self.config.max_dimension,
                    self.config.check_finite,
                    i <= n,
                    forall|j: int| 0 <= j < i ==> spec_bits_is_finite(#[trigger] bits@[j]),
                decreases n - i,
            {
                if !bits_is_finite(bits[i]) {
                    proof {
                        let c = spec_first_nonfinite(bits@);
                        assert(0 <= i < bits@.len() && !spec_bits_is_finite(bits@[i as int])
                            && forall|j: int|
                            0 <= j < i ==> spec_bits_is_finite(#[trigger] bits@[j]));
                        assert(0 <= c < bits@.len() && !spec_bits_is_finite(bits@[c]) && forall|
                            j: int,
                        |
                            0 <= j < c ==> spec_bits_is_finite(#[trigger] bits@[j]));
                        assert(c == i as int);
                    }
                    return Err(
                        EmbedError::Validation {
                            context: context.to_owned(),
                            reason: ValidationFailure::NotFinite { index: i },
                        },
                    );
                }
                i = i + 1;
            }
            proof {
                assert(spec_all_finite(bits@));
            }
        }
        let zeros = count_zeros(bits);
        proof {
            assert(spec_zero_count(bits@) <= bits@.len()) by {
                lemma_zero_count_bound(bits@);
            }
        }
        proof {
            assert((zeros as u128) * 1000 < (0x1_0000_0000_0000_0000u128) * 1000)
                by (nonlinear_arith)
                requires
                    zeros < 0x1_0000_0000_0000_0000u128,
            ;
            assert((self.config.max_zero_ratio_permille as u128) * (n as u128) < (
            0x1_0000_0000u128) * (0x1_0000_0000_0000_0000u128)) by (nonlinear_arith)
                requires
                    self.config.max_zero_ratio_permille < 0x1_0000_0000u128,
                    n < 0x1_0000_0000_0000_0000u128,
            ;
        }
        if (zeros as u128) * 1000 > (self.config.max_zero_ratio_permille as u128) * (n as u128) {
            return Err(
                EmbedError::Validation {
                    context: context.to_owned(),
                    reason: ValidationFailure::ZeroRatioExceeded { zero_count: zeros, len: n },
                },
            );
        }
        if magnitude_micros < self.config.min_magnitude_micros {
            return Err(
                EmbedError::Validation {
                    context: context.to_owned(),
                    reason: ValidationFailure::MagnitudeTooLow {
                        magnitude_micros,
                        min_micros: self.config.min_magnitude_micros,
                    },
                },
            );
        }
        if magnitude_micros > self.config.max_magnitude_micros {
            return Err(
                EmbedError::Validation {
                    context: context.to_owned(),
                    reason: ValidationFailure::MagnitudeTooHigh {
                        magnitude_micros,
                        max_micros: self.config.max_magnitude_micros,
                    },
                },
            );
        }
        if variance_picos < 1_000_000 {
            return Err(
                EmbedError::Validation {
                    context: context.to_owned(),
                    reason: ValidationFailure::LowVariance,
                },
            );
        }
        Ok(())
    }

    /// Whether more than the allowed share of elements repeat one single
    /// value. This is reported, never fatal.
    pub fn duplicate_ratio_exceeded(&self, bits: &Vec<u32>) -> (r: bool)
        ensures
            r == (spec_max_duplicates(bits@) > 1 && (spec_max_duplicates(bits@) - 1) * 1000
                > self.config.max_duplicate_ratio_permille * bits@.len()),
    {
        let m = max_duplicates(bits);
        let n = bits.len();
        if m <= 1 {
            return false;
        }
        proof {
            assert(((m - 1) as u128) * 1000 < (0x1_0000_0000_0000_0000u128) * 1000)
                by (nonlinear_arith)
                requires
                    1 <= m < 0x1_0000_0000_0000_0000u128,
            ;
            assert((self.config.max_duplicate_ratio_permille as u128) * (n as u128) < (
            0x1_0000_0000u128) * (0x1_0000_0000_0000_0000u128)) by (nonlinear_arith)
                requires
                    self.config.max_duplicate_ratio_permille < 0x1_0000_0000u128,
                    n < 0x1_0000_0000_0000_0000u128,
            ;
        }
        ((m - 1) as u128) * 1000 > (self.config.max_duplicate_ratio_permille as u128) * (
        n as u128)
    }
}

impl Default for EmbeddingValidator {
    fn default() -> (r: Self)
        ensures
            r.config == ValidationConfig::spec_default(),
    {
        EmbeddingValidator { config: ValidationConfig::default() }
    }
}

/// The validator preset for 1024-dimensional normalized embeddings:
/// exactly 1024 elements with magnitude between one half and two.
pub fn together_e5_validator() -> (r: EmbeddingValidator)
    ensures
        r.config == (ValidationConfig {
            expected_dimension: Some(1024usize),
            min_dimension: 1024,
            max_dimension: 1024,
            min_magnitude_micros: 500_000,
            max_magnitude_micros: 2_000_000,
            ..ValidationConfig::spec_default()
        }),
{
    EmbeddingValidator::new(ValidationConfig::default()).with_dimension(1024).with_magnitude_range(
        500_000,
        2_000_000,
    )
}

/// Counts the exact zeros among the elements.
fn count_zeros(bits: &Vec<u32>) -> (r: usize)
    ensures
        r == spec_zero_count(bits@),
{
    proof {
        lemma_zero_count_bound(bits@);
    }
    let mut count: usize = 0;
    let mut i: usize = 0;
    while i < bits.len()
        invariant
            i <= bits@.len(),
            count == spec_zero_count(bits@.subrange(0, i as int)),
            count <= i,
        decreases bits@.len() - i,
    {
        proof {
            assert(bits@.subrange(0, i + 1).drop_last() =~= bits@.subrange(0, i as int));
            assert(bits@.subrange(0, i + 1).last() == bits@[i as int]);
        }
        if bits_is_zero(bits[i]) {
            count = count + 1;
        }
        i = i + 1;
    }
    proof {
        assert(bits@.subrange(0, i as int) =~= bits@);
    }
    count
}

/// How many elements equal `v`.
pub open spec fn spec_count_eq(s: Seq<u32>, v: u32) -> int
    decreases s.len(),
{
    if s.len() == 0 {
        0
    } else {
        spec_count_eq(s.drop_last(), v) + if s.last() == v {
            1int
        } else {
            0int
        }
    }
}

/// The largest repeat count among the first `n` elements' values.
pub open spec fn spec_max_dup_upto(s: Seq<u32>, n: int) -> int
    decreases n,
{
    if n <= 0 {
        0
    } else {
        let rest = spec_max_dup_upto(s, n - 1);
        let here = spec_count_eq(s, s[n - 1]);
        if here > rest {
            here
        } else {
            rest
        }
    }
}

/// The largest number of repeats of any single value in the sequence.
pub open spec fn spec_max_duplicates(s: Seq<u32>) -> int {
    spec_max_dup_upto(s, s.len() as int)
}

proof fn lemma_zero_count_bound(s: Seq<u32>)
    ensures
        0 <= spec_zero_count(s) <= s.len(),
    decreases s.len(),
{
    if s.len() > 0 {
        lemma_zero_count_bound(s.drop_last());
    }
}

proof fn lemma_count_eq_bound(s: Seq<u32>, v: u32)
    ensures
        0 <= spec_count_eq(s, v) <= s.len(),
    decreases s.len(),
{
    if s.len() > 0 {
        lemma_count_eq_bound(s.drop_last(), v);
    }
}

/// Counts how many elements equal `v`.
fn count_eq(bits: &Vec<u32>, v: u32) -> (r: usize)
    ensures
        r == spec_count_eq(bits@, v),
{
    proof {
        lemma_count_eq_bound(bits@, v);
    }
    let mut count: usize = 0;
    let mut i: usize = 0;
    while i < bits.len()
        invariant
            i <= bits@.len(),
            count == spec_count_eq(bits@.subrange(0, i as int), v),
            count <= i,
        decreases bits@.len() - i,
    {
        proof {
            assert(bits@.subrange(0, i + 1).drop_last() =~= bits@.subrange(0, i as int));
            assert(bits@.subrange(0, i + 1).last() == bits@[i as int]);
            lemma_count_eq_bound(bits@.subrange(0, i as int), v);
        }
        if bits[i] == v {
            count = count + 1;
        }
        i = i + 1;
    }
    proof {
        assert(bits@.subrange(0, i as int) =~= bits@);
    }
    count
}

/// The largest repeat count of any single value.
fn max_duplicates(bits: &Vec<u32>) -> (r: usize)
    ensures
        r == spec_max_duplicates(bits@),
{
    let mut best: usize = 0;
    let mut i: usize = 0;
    while i < bits.len()
        invariant
            i <= bits@.len(),
            best == spec_max_dup_upto(bits@, i as int),
        decreases bits@.len() - i,
    {
        let c = count_eq(bits, bits[i]);
        if c > best {
            best = c;
        }
        i = i + 1;
    }
    best
}

} // verus!
