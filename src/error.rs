use vstd::prelude::*;

verus! {

/// Which width limit a struct's flags went past.
#[derive(Debug, Clone, Copy, PartialEq, Eq, Structural)]
pub enum WidthChoice {
    /// More flags than the largest supported width holds.
    Auto,
    /// More flags than the width named in the options holds.
    Declared,
}

/// What went wrong while working out a struct's layout.
#[derive(Debug, Clone, Copy, PartialEq, Eq, Structural)]
pub enum ErrorKind {
    /// More than one option block targets the same field.
    AmbiguousConfig,
    /// Options attached to a field that is not a `bool`.
    InvalidFieldType,
    /// Too many flags for the chosen width.
    OutOfRange(WidthChoice),
    /// A flag defaults to `true` while the container is inline.
    InvalidDefault,
    /// A name template lacks its `%` marker or holds an invalid fragment.
    MalformedTemplate,
    /// An option name or value that is not recognised.
    UnknownOption,
}

/// Where an error is attributed.
#[derive(Debug, Clone, Copy, PartialEq, Eq, Structural)]
pub enum Location {
    /// The struct as a whole, or its own options.
    Struct,
    /// The field at this position in declaration order.
    Field(usize),
}

/// An error together with the place it is attributed to.
#[derive(Debug, Clone, Copy, PartialEq, Eq, Structural)]
pub struct PackError {
    pub kind: ErrorKind,
    pub location: Location,
}

impl PackError {
    pub fn new(kind: ErrorKind, location: Location) -> (r: PackError)
        ensures
            r.kind == kind,
            r.location == location,
    {
        PackError { kind, location }
    }
}

} // verus!
