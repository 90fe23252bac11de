//! The error taxonomy of the resolver.

use vstd::prelude::*;

verus! {

/// Why a resolver operation failed.
#[derive(Clone, Copy, Debug, PartialEq, Eq, Structural)]
pub enum GraphError {
    /// A node description matches none of the three known node shapes.
    UnrecognizedKind,
    /// A `Regex` atomic filter carries a pattern the regular-expression
    /// engine rejects.
    InvalidFilterPattern,
    /// A resolution request names a graph absent from the graph cache.
    GraphNotFound,
}

impl GraphError {
    /// A short description of the error.
    pub fn describe(&self) -> (r: &'static str)
        ensures
            *self == GraphError::UnrecognizedKind ==> r@ == "unrecognized node kind"@,
            *self == GraphError::InvalidFilterPattern ==> r@ == "invalid filter pattern"@,
            *self == GraphError::GraphNotFound ==> r@ == "graph not found"@,
    {
        match self {
            GraphError::UnrecognizedKind => "unrecognized node kind",
            GraphError::InvalidFilterPattern => "invalid filter pattern",
            GraphError::GraphNotFound => "graph not found",
        }
    }
}

} // verus!
