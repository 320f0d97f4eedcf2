//! A verified numeric kernel for statistical and machine-learning
//! preprocessing.
//!
//! Scalars are IEEE-754 double-precision values, carried through this crate
//! as their 64-bit encodings.  The `fp` module gives those encodings a
//! mathematical model (classification, sign-magnitude ordering, min/max) and
//! proves the comparison operations against it.  The `kernel` module holds
//! every decision the kernel functions make: input validation with an exact
//! error taxonomy, saturation and clamping branches, and sequence extremes.
//! Floating-point arithmetic itself (sums, products, exponentials) cannot be
//! reasoned about here and is left to the surrounding numeric layer, which
//! calls into this crate for every branch it takes.

pub mod errors;
pub mod fp;
pub mod kernel;
