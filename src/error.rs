//! The library's error values.
use vstd::prelude::*;

verus! {

/// Why an operation of this library failed.
#[derive(Debug, Clone, Copy, PartialEq, Eq, Structural)]
pub enum CwmpError {
    /// A schema graph lacks an identity that unification looks up.
    UnresolvedIdent,
    /// A schema graph node is not of the variant that unification expects.
    UnexpectedVariant,
    /// A parameter path puts a wildcard in its last segment.
    InvalidPath,
    /// A required child element is absent from a message.
    MissingElement,
    /// An element or attribute holds text outside its value space.
    InvalidValue,
    /// An envelope carries no `ID` header.
    MissingId,
}

} // verus!
