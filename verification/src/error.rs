//! Why an asset text was refused.

use crate::text::decimal;
use crate::text::push_decimal;
use vstd::prelude::*;
use vstd::string::StringExecFns;

verus! {

/// The reason for which a parser gave up. Lines are counted from one.
#[derive(Clone, Copy, Debug, PartialEq, Eq, Structural)]
pub enum ParseError {
    /// A field of the line that takes a binary32 value holds a word that
    /// writes none.
    InvalidNumber { line: usize },
    /// A count or an index on the line is no unsigned decimal number, or is
    /// too large.
    InvalidCount { line: usize },
    /// A geometry text names no mesh file and declares no vertices.
    MissingGeometry,
    /// A mesh file holds no model.
    NoModels,
}

/// What a reader is told of a refusal.
pub open spec fn message_of(e: ParseError) -> Seq<char> {
    match e {
        ParseError::InvalidNumber { line } => "invalid number on line "@ + decimal(line as nat),
        ParseError::InvalidCount { line } => "invalid count or index on line "@ + decimal(
            line as nat,
        ),
        ParseError::MissingGeometry => "neither a mesh file nor vertices"@,
        ParseError::NoModels => "mesh file contains no models"@,
    }
}

impl ParseError {
    /// The refusal in words. The caller knows which file was read and puts
    /// its path in front.
    pub fn message(&self) -> (m: String)
        ensures
            m@ == message_of(*self),
    {
        match *self {
            ParseError::InvalidNumber { line } => {
                let mut m = String::from_str("invalid number on line ");
                push_decimal(&mut m, line);
                m
            },
            ParseError::InvalidCount { line } => {
                let mut m = String::from_str("invalid count or index on line ");
                push_decimal(&mut m, line);
                m
            },
            ParseError::MissingGeometry => String::from_str("neither a mesh file nor vertices"),
            ParseError::NoModels => String::from_str("mesh file contains no models"),
        }
    }
}

} // verus!
