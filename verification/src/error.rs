use vstd::prelude::*;

verus! {

/// Why a line was rejected.
#[derive(Debug, Clone, Copy, PartialEq, Eq, Structural)]
pub enum ErrorKind {
    /// The line, or a list within it, has the wrong number of parts.
    MalformedLine,
    /// The curve's type is none of `B`, `C`, `L` and `P`.
    UnknownCurveTag,
    /// The type bits name no kind of hit object, or more than one.
    UnknownObjectKind,
    /// A part that should be a number is none, or lies outside its range.
    NumericFormat,
    /// A part that the kind of object requires is absent.
    MissingMandatoryField,
}

/// The part of a line that an error is about.
#[derive(Debug, Clone, Copy, PartialEq, Eq, Structural)]
pub enum Field {
    /// The line as a whole.
    Line,
    PositionX,
    PositionY,
    Time,
    ObjectType,
    Hitsound,
    Curve,
    CurveType,
    CurvePoints,
    Slides,
    Length,
    EdgeSounds,
    EdgeAdditions,
    EndTime,
    HitSample,
    NormalSet,
    AdditionSet,
    Index,
    Volume,
    BeatLength,
    Meter,
    SampleSet,
    SampleIndex,
    Uninherited,
    Effects,
    /// The version number of the file format.
    Version,
    /// The type of an event.
    EventType,
    /// The value of a `Key: Value` line.
    Value,
}

/// The error of one line: its kind, and the part of the line that it is about.
#[derive(Debug, Clone, Copy, PartialEq, Eq, Structural)]
pub struct DecodeError {
    pub kind: ErrorKind,
    pub field: Field,
}

/// The error of a whole text: the error of its first line that was rejected,
/// and the number of that line, the first line being line 1.
#[derive(Debug, Clone, Copy, PartialEq, Eq, Structural)]
pub struct LineError {
    pub line: usize,
    pub error: DecodeError,
}

/// A wrong number of parts in `field`.
pub open spec fn malformed(field: Field) -> DecodeError {
    DecodeError { kind: ErrorKind::MalformedLine, field }
}

/// A number in `field` that is none.
pub open spec fn numeric(field: Field) -> DecodeError {
    DecodeError { kind: ErrorKind::NumericFormat, field }
}

/// The absence of the required `field`.
pub open spec fn missing(field: Field) -> DecodeError {
    DecodeError { kind: ErrorKind::MissingMandatoryField, field }
}

impl DecodeError {
    /// The error `malformed(field)`.
    pub fn malformed(field: Field) -> (e: DecodeError)
        ensures
            e == malformed(field),
    {
        DecodeError { kind: ErrorKind::MalformedLine, field }
    }

    /// The error `numeric(field)`.
    pub fn numeric(field: Field) -> (e: DecodeError)
        ensures
            e == numeric(field),
    {
        DecodeError { kind: ErrorKind::NumericFormat, field }
    }

    /// The error `missing(field)`.
    pub fn missing(field: Field) -> (e: DecodeError)
        ensures
            e == missing(field),
    {
        DecodeError { kind: ErrorKind::MissingMandatoryField, field }
    }
}

} // verus!
