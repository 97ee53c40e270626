//! Errors of the generator: every failure aborts the whole declaration's
//! compilation and carries the offending element.

use vstd::prelude::*;

use crate::decl::{
    fields_dv, seg_dv, type_dv, Fields, PathSegment, SpecFields, SpecPathSegment, SpecType, Type,
};

verus! {

/// Mathematical model of a generator error.
pub enum SpecError {
    /// A required configuration entry is missing: its name and a hint.
    ConfigError(Seq<char>, Seq<char>),
    /// A field type that cannot be embedded in the raw-union representation.
    UnknownType(SpecType),
    /// A payload shape without a lowering: record-style fields, or an empty or
    /// missing positional list where one is required.
    UnknownFieldsType(SpecFields),
    /// A path segment whose argument list is not bracketed type arguments.
    InvalidTypePathSegment(SpecPathSegment),
}

/// A generator error, carrying the offending element for error reporting.
#[derive(Debug)]
pub enum Error {
    ConfigError(String, String),
    UnknownType(Type),
    UnknownFieldsType(Fields),
    InvalidTypePathSegment(PathSegment),
}

impl DeepView for Error {
    type V = SpecError;

    open spec fn deep_view(&self) -> SpecError {
        match self {
            Error::ConfigError(k, m) => SpecError::ConfigError(k@, m@),
            Error::UnknownType(t) => SpecError::UnknownType(type_dv(*t)),
            Error::UnknownFieldsType(f) => SpecError::UnknownFieldsType(fields_dv(*f)),
            Error::InvalidTypePathSegment(s) => SpecError::InvalidTypePathSegment(seg_dv(*s)),
        }
    }
}

} // verus!
