use vstd::prelude::*;

verus! {

/// Spec-level image of an [`NBAError`]: field and column names are sequences
/// of characters, so contracts can pin down exactly which error is returned.
pub enum ErrV {
    Validation(Seq<char>),
    Transport(Seq<char>),
    MissingField(Seq<char>),
    HeaderMissing(Seq<char>),
    Shape,
}

/// Errors the library reports to its caller.
///
/// - `ValidationError(field)`: the named query parameter fails its kind's
///   syntactic rule.
/// - `TransportError(msg)`: the HTTP collaborator failed; surfaced as-is.
/// - `MissingField(name)`: an expected field of the JSON response is absent
///   (or not the expected list).
/// - `HeaderMissingError(column)`: a column the schema requires is not among
///   the result table's headers.
/// - `ShapeError`: the response violates its own shape invariants (table
///   index out of range, a row that is not a list, or a row too short for a
///   resolved column index), or the body is not a JSON document at all.
#[derive(Debug, PartialEq, Eq)]
pub enum NBAError {
    ValidationError(String),
    TransportError(String),
    MissingField(String),
    HeaderMissingError(String),
    ShapeError,
}

impl View for NBAError {
    type V = ErrV;

    open spec fn view(&self) -> ErrV {
        match self {
            NBAError::ValidationError(f) => ErrV::Validation(f@),
            NBAError::TransportError(m) => ErrV::Transport(m@),
            NBAError::MissingField(f) => ErrV::MissingField(f@),
            NBAError::HeaderMissingError(c) => ErrV::HeaderMissing(c@),
            NBAError::ShapeError => ErrV::Shape,
        }
    }
}

impl NBAError {
    /// A short description of the error, for callers that print it.
    pub fn describe(&self) -> (r: &'static str)
        ensures
            r@ == spec_describe(*self),
    {
        match self {
            NBAError::ValidationError(_) => "a query parameter fails its kind's pattern",
            NBAError::TransportError(_) => "the transport failed",
            NBAError::MissingField(_) => "an expected response field is absent",
            NBAError::HeaderMissingError(_) => "a schema column is not among the headers",
            NBAError::ShapeError => "the response violates its shape invariants",
        }
    }
}

/// What [`NBAError::describe`] returns for each variant.
pub open spec fn spec_describe(e: NBAError) -> Seq<char> {
    match e {
        NBAError::ValidationError(_) => "a query parameter fails its kind's pattern"@,
        NBAError::TransportError(_) => "the transport failed"@,
        NBAError::MissingField(_) => "an expected response field is absent"@,
        NBAError::HeaderMissingError(_) => "a schema column is not among the headers"@,
        NBAError::ShapeError => "the response violates its shape invariants"@,
    }
}

} // verus!
