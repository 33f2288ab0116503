//! Error values of the library and the messages they render to.

use vstd::prelude::*;
use crate::text::{chars_of, string_from_chars};

verus! {

/// Why a row or a field could not be parsed.
#[derive(Debug)]
pub enum ParseError {
    MissingField(String),
    InvalidDate(String),
    InvalidAmount(String),
}

/// Errors of the library.
#[derive(Debug)]
pub enum Error {
    /// A file could not be read.
    Io { path: String, message: String },
    /// An import row or field could not be parsed.
    Parse(ParseError),
    /// The caller supplied an unusable value.
    InvalidInput(String),
    /// The storage layer reported a failure.
    Database(String),
    /// A report could not be produced.
    Report(String),
    /// An unexpected internal failure.
    Internal(String),
}

/// The text an error renders to.
pub open spec fn error_text(e: Error) -> Seq<char> {
    match e {
        Error::Io { path, message } => "I/O error on "@ + path@ + ": "@ + message@,
        Error::Parse(p) => "Parse error: "@ + parse_error_text(p),
        Error::InvalidInput(m) => "Invalid input: "@ + m@,
        Error::Database(m) => "Database error: "@ + m@,
        Error::Report(m) => "Report error: "@ + m@,
        Error::Internal(m) => "Internal error: "@ + m@,
    }
}

/// The text a parse error renders to.
pub open spec fn parse_error_text(p: ParseError) -> Seq<char> {
    match p {
        ParseError::MissingField(m) => "Missing required field: "@ + m@,
        ParseError::InvalidDate(m) => "Invalid date: "@ + m@,
        ParseError::InvalidAmount(m) => "Invalid amount: "@ + m@,
    }
}

fn concat2(a: &str, b: &String) -> (r: Vec<char>)
    ensures
        r@ == a@ + b@,
{
    let mut r = chars_of(a);
    let tail = chars_of(b.as_str());
    let ghost base = r@;
    let mut i: usize = 0;
    while i < tail.len()
        invariant
            i <= tail.len(),
            r@ == base + tail@.take(i as int),
        decreases tail.len() - i,
    {
        r.push(tail[i]);
        i += 1;
    }
    assert(tail@.take(tail@.len() as int) =~= tail@);
    r
}

impl ParseError {
    /// The message of this parse error.
    pub fn message(&self) -> (r: String)
        ensures
            r@ == parse_error_text(*self),
    {
        let v = match self {
            ParseError::MissingField(m) => concat2("Missing required field: ", m),
            ParseError::InvalidDate(m) => concat2("Invalid date: ", m),
            ParseError::InvalidAmount(m) => concat2("Invalid amount: ", m),
        };
        string_from_chars(v.as_slice())
    }
}

impl Error {
    /// The message of this error.
    pub fn message(&self) -> (r: String)
        ensures
            r@ == error_text(*self),
    {
        match self {
            Error::Io { path, message } => {
                let mut v = concat2("I/O error on ", path);
                let rest = concat2(": ", message);
                let ghost base = v@;
                let mut i: usize = 0;
                while i < rest.len()
                    invariant
                        i <= rest.len(),
                        v@ == base + rest@.take(i as int),
                    decreases rest.len() - i,
                {
                    v.push(rest[i]);
                    i += 1;
                }
                assert(rest@.take(rest@.len() as int) =~= rest@);
                assert(v@ =~= "I/O error on "@ + path@ + ": "@ + message@);
                string_from_chars(v.as_slice())
            },
            Error::Parse(p) => {
                let inner = p.message();
                string_from_chars(concat2("Parse error: ", &inner).as_slice())
            },
            Error::InvalidInput(m) => string_from_chars(concat2("Invalid input: ", m).as_slice()),
            Error::Database(m) => string_from_chars(concat2("Database error: ", m).as_slice()),
            Error::Report(m) => string_from_chars(concat2("Report error: ", m).as_slice()),
            Error::Internal(m) => string_from_chars(concat2("Internal error: ", m).as_slice()),
        }
    }
}

} // verus!
