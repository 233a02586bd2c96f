//! Errors of session creation: everything that can go wrong between a raw
//! configuration document and a resolved session.

use vstd::prelude::*;

verus! {

/// The ascii-required fields of a document that a [`CreationError::NotAscii`]
/// can point at. `Wrapper`, `Stdout` and `Stderr` are reported both for the
/// session-level defaults and for per-job overrides.
#[derive(Clone, Copy, Debug, PartialEq, Eq, Structural)]
pub enum Field {
    /// The session name.
    Name,
    /// A wrapper command.
    Wrapper,
    /// A stdout routing path.
    Stdout,
    /// A stderr routing path.
    Stderr,
}

/// Error type covering the ways a session may fail to come into being:
/// reading the document, parsing it, validating it, and resolving it.
///
/// `Io` and `Parse` arise only at the input boundary, outside this library;
/// they are carried here so that every failure of the pipeline has one type.
#[derive(Clone, Copy, Debug, PartialEq, Eq, Structural)]
pub enum CreationError {
    /// Reading the configuration source failed.
    Io,
    /// The document does not match the schema.
    Parse,
    /// An ascii-required string holds a non-ascii character.
    NotAscii(Field),
    /// The document declares no jobs.
    EmptyJobs,
    /// A job carries no `value` at resolution time.
    MissingValue,
    /// The summed job values break the strategy's aggregate bound.
    WeightOrStepBoundViolated,
    /// `steps` or `parallel` is zero, or `parallel` exceeds `steps`.
    InvalidShape,
}

} // verus!
