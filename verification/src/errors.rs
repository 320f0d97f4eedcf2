//! The kernel's error taxonomy.
//!
//! Every way a kernel function can refuse its input is one of these kinds;
//! no function fails in any other way, and each kind is raised by exactly
//! the condition its guard states.

use vstd::prelude::*;

verus! {

/// The reason a kernel function rejected its input.
#[derive(Clone, Copy, Debug, PartialEq, Eq, Structural)]
pub enum ErrorKind {
    /// A sequence argument was empty where at least one element is required.
    EmptyInput,
    /// Two sequence arguments differ in length.
    LengthMismatch,
    /// A vector norm is at or below machine epsilon.
    ZeroNormError,
    /// The standard deviation is at or below machine epsilon.
    ZeroVariance,
    /// The spread between minimum and maximum is below machine epsilon.
    DegenerateRange,
    /// A probability-like input was at or below zero where a logarithm is
    /// required.
    NonPositivePrediction,
    /// The sum of exponentials collapsed to exactly zero.
    SoftmaxUnderflow,
    /// A smoothing coefficient fell outside the closed interval [0, 1].
    InvalidAlpha,
    /// A lower bound exceeded an upper bound.
    InvalidRange,
}

/// The human-readable message attached to each kind.
pub open spec fn message_spec(kind: ErrorKind) -> Seq<char> {
    match kind {
        ErrorKind::EmptyInput => "Data cannot be empty"@,
        ErrorKind::LengthMismatch => "Vectors must be same length"@,
        ErrorKind::ZeroNormError => "Cannot compute cosine similarity for zero vectors"@,
        ErrorKind::ZeroVariance => "Standard deviation is zero, cannot normalize"@,
        ErrorKind::DegenerateRange => "All elements are equal, cannot normalize"@,
        ErrorKind::NonPositivePrediction => "Predictions must be positive for cross entropy"@,
        ErrorKind::SoftmaxUnderflow => "Underflow in softmax computation"@,
        ErrorKind::InvalidAlpha => "Alpha must be between 0 and 1"@,
        ErrorKind::InvalidRange => "min_val cannot be greater than max_val"@,
    }
}

impl ErrorKind {
    /// The human-readable message for this kind.
    pub fn message(&self) -> (r: &'static str)
        ensures
            r@ == message_spec(*self),
    {
        match *self {
            ErrorKind::EmptyInput => "Data cannot be empty",
            ErrorKind::LengthMismatch => "Vectors must be same length",
            ErrorKind::ZeroNormError => "Cannot compute cosine similarity for zero vectors",
            ErrorKind::ZeroVariance => "Standard deviation is zero, cannot normalize",
            ErrorKind::DegenerateRange => "All elements are equal, cannot normalize",
            ErrorKind::NonPositivePrediction => "Predictions must be positive for cross entropy",
            ErrorKind::SoftmaxUnderflow => "Underflow in softmax computation",
            ErrorKind::InvalidAlpha => "Alpha must be between 0 and 1",
            ErrorKind::InvalidRange => "min_val cannot be greater than max_val",
        }
    }
}

} // verus!
