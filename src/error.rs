use vstd::prelude::*;

verus! {

/// Error raised when input data does not satisfy the container's layout rules.
#[derive(Debug, Clone, Copy, PartialEq, Eq, Structural)]
#[non_exhaustive]
pub enum ParseError {
    /// Unexpected magic numbers
    BadMagic,
    /// Zero pixel width
    ZeroWidth,
    /// Zero face count
    ZeroFaceCount,
    /// Unexpected end of buffer
    UnexpectedEnd,
}

impl ParseError {
    /// Human readable description of the error.
    pub fn message(&self) -> (r: &'static str)
        ensures
            *self == ParseError::BadMagic ==> r@ == "unexpected magic numbers"@,
            *self == ParseError::ZeroWidth ==> r@ == "zero pixel width"@,
            *self == ParseError::ZeroFaceCount ==> r@ == "zero face count"@,
            *self == ParseError::UnexpectedEnd ==> r@ == "unexpected end of buffer"@,
    {
        match self {
            ParseError::BadMagic => "unexpected magic numbers",
            ParseError::ZeroWidth => "zero pixel width",
            ParseError::ZeroFaceCount => "zero face count",
            ParseError::UnexpectedEnd => "unexpected end of buffer",
        }
    }
}

} // verus!
