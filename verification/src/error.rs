//! The errors that reading a `pci.ids` stream can end in.

use vstd::prelude::*;
use vstd::string::StringExecFns;

verus! {

/// Why a line, or the order of the records, was rejected.
#[derive(Clone, Copy, Debug, PartialEq, Eq, Structural)]
pub enum ParseFailure {
    /// The line holds no two-space delimiter between its id field and its name.
    MissingDelimiter,
    /// The id field is not made of hexadecimal tokens of the expected width.
    InvalidInt,
    /// An unindented line in the class section that does not start with the class marker.
    UnexpectedLine,
    /// A device had to be stored while no vendor was open.
    NoCurrentVendor,
    /// A subdevice arrived while no device was open.
    NoCurrentDevice,
    /// A subclass had to be stored while no class was open.
    NoCurrentClass,
    /// A programming interface arrived while no subclass was open.
    NoCurrentSubClass,
}

/// An error of the parser, the aggregator or a streaming search.
#[derive(Clone, Debug, PartialEq, Eq)]
pub enum Error {
    /// Malformed input. `line` is the offending raw line; it is empty for the failures that
    /// concern the order of the records rather than one line. `token` is the offending id
    /// token of [`ParseFailure::InvalidInt`], and empty for the other failures.
    Parse { reason: ParseFailure, line: Vec<u8>, token: Vec<u8> },
    /// The name on `line` is not valid UTF-8.
    Utf8Decode { line: Vec<u8> },
}

/// The mathematical value of an [`Error`].
pub ghost enum ErrorView {
    Parse { reason: ParseFailure, line: Seq<u8>, token: Seq<u8> },
    Utf8Decode { line: Seq<u8> },
}

impl View for Error {
    type V = ErrorView;

    open spec fn view(&self) -> ErrorView {
        match self {
            Error::Parse { reason, line, token } => ErrorView::Parse {
                reason: *reason,
                line: line@,
                token: token@,
            },
            Error::Utf8Decode { line } => ErrorView::Utf8Decode { line: line@ },
        }
    }
}

impl ParseFailure {
    /// The text that [`ParseFailure::describe`] returns.
    pub open spec fn description(self) -> Seq<char> {
        match self {
            ParseFailure::MissingDelimiter => "line has no two-space delimiter"@,
            ParseFailure::InvalidInt => "could not parse id field as hexadecimal integer"@,
            ParseFailure::UnexpectedLine => "could not match class section line"@,
            ParseFailure::NoCurrentVendor => "trying to add a device without a vendor"@,
            ParseFailure::NoCurrentDevice => "trying to add a subdevice without a device"@,
            ParseFailure::NoCurrentClass => "trying to add a subclass without a class"@,
            ParseFailure::NoCurrentSubClass =>
                "trying to add a programming interface without a subclass"@,
        }
    }

    /// A short description of the failure.
    pub fn describe(self) -> (text: &'static str)
        ensures
            text@ == self.description(),
    {
        match self {
            ParseFailure::MissingDelimiter => "line has no two-space delimiter",
            ParseFailure::InvalidInt => "could not parse id field as hexadecimal integer",
            ParseFailure::UnexpectedLine => "could not match class section line",
            ParseFailure::NoCurrentVendor => "trying to add a device without a vendor",
            ParseFailure::NoCurrentDevice => "trying to add a subdevice without a device",
            ParseFailure::NoCurrentClass => "trying to add a subclass without a class",
            ParseFailure::NoCurrentSubClass =>
                "trying to add a programming interface without a subclass",
        }
    }
}

impl ErrorView {
    /// The text that [`Error::message`] returns for an error with this value.
    pub open spec fn message(self) -> Seq<char> {
        match self {
            ErrorView::Parse { reason, .. } => "parsing error: "@ + reason.description(),
            ErrorView::Utf8Decode { .. } => "decode error: name is not valid UTF-8"@,
        }
    }
}

impl Error {
    /// An error for a failure that concerns the order of the records, with no line.
    pub fn structural(reason: ParseFailure) -> (error: Error)
        ensures
            error@ == (ErrorView::Parse {
                reason,
                line: Seq::<u8>::empty(),
                token: Seq::<u8>::empty(),
            }),
    {
        Error::Parse { reason, line: Vec::new(), token: Vec::new() }
    }

    /// An error for a failure on one line, of which it keeps a copy.
    pub fn malformed(reason: ParseFailure, line: &[u8]) -> (error: Error)
        ensures
            error@ == (ErrorView::Parse { reason, line: line@, token: Seq::<u8>::empty() }),
    {
        Error::Parse { reason, line: vstd::slice::slice_to_vec(line), token: Vec::new() }
    }

    /// An error for an id token that cannot be read, with a copy of the token and of its
    /// line.
    pub fn invalid_int(line: &[u8], token: &[u8]) -> (error: Error)
        ensures
            error@ == (ErrorView::Parse {
                reason: ParseFailure::InvalidInt,
                line: line@,
                token: token@,
            }),
    {
        Error::Parse {
            reason: ParseFailure::InvalidInt,
            line: vstd::slice::slice_to_vec(line),
            token: vstd::slice::slice_to_vec(token),
        }
    }

    /// An error for a line whose name is not valid UTF-8.
    pub fn undecodable(line: &[u8]) -> (error: Error)
        ensures
            error@ == (ErrorView::Utf8Decode { line: line@ }),
    {
        Error::Utf8Decode { line: vstd::slice::slice_to_vec(line) }
    }

    /// The error in words, as a program would print it.
    pub fn message(&self) -> (text: String)
        ensures
            text@ == self@.message(),
    {
        match self {
            Error::Parse { reason, .. } => {
                String::from_str("parsing error: ").concat(reason.describe())
            },
            Error::Utf8Decode { .. } => String::from_str("decode error: name is not valid UTF-8"),
        }
    }
}

} // verus!
