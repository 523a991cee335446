//! Error categories of the native hook provider and their translation.
//!
//! The provider reports a failure as a small integer status code together
//! with a process-wide last-error message. This module gives the codes their
//! fixed meanings and renders an error as text.

use vstd::prelude::*;
use vstd::string::StringExecFns;

verus! {

/// Error categories from the native hook provider.
///
/// Codes 1 through 7 carry fixed meanings; every other code is preserved in
/// [`ErrorKind::UnknownCode`] for diagnostics.
#[derive(Clone, Copy, Debug, PartialEq, Eq, Structural)]
pub enum ErrorKind {
    FileNotFound,
    InvalidFileFormat,
    FunctionNotFound,
    InvalidArgument,
    OutOfMemory,
    InternalError,
    NotImplemented,
    UnknownCode(i32),
}

/// The category a native status code stands for.
pub open spec fn kind_of_code(code: i32) -> ErrorKind {
    if code == 1 {
        ErrorKind::FileNotFound
    } else if code == 2 {
        ErrorKind::InvalidFileFormat
    } else if code == 3 {
        ErrorKind::FunctionNotFound
    } else if code == 4 {
        ErrorKind::InvalidArgument
    } else if code == 5 {
        ErrorKind::OutOfMemory
    } else if code == 6 {
        ErrorKind::InternalError
    } else if code == 7 {
        ErrorKind::NotImplemented
    } else {
        ErrorKind::UnknownCode(code)
    }
}

impl From<i32> for ErrorKind {
    fn from(value: i32) -> (kind: ErrorKind) {
        match value {
            1 => ErrorKind::FileNotFound,
            2 => ErrorKind::InvalidFileFormat,
            3 => ErrorKind::FunctionNotFound,
            4 => ErrorKind::InvalidArgument,
            5 => ErrorKind::OutOfMemory,
            6 => ErrorKind::InternalError,
            7 => ErrorKind::NotImplemented,
            _ => ErrorKind::UnknownCode(value),
        }
    }
}

impl vstd::std_specs::convert::FromSpecImpl<i32> for ErrorKind {
    open spec fn obeys_from_spec() -> bool {
        true
    }

    open spec fn from_spec(value: i32) -> Self {
        kind_of_code(value)
    }
}

/// The character of one decimal digit.
pub open spec fn digit_char(d: nat) -> char {
    if d == 0 {
        '0'
    } else if d == 1 {
        '1'
    } else if d == 2 {
        '2'
    } else if d == 3 {
        '3'
    } else if d == 4 {
        '4'
    } else if d == 5 {
        '5'
    } else if d == 6 {
        '6'
    } else if d == 7 {
        '7'
    } else if d == 8 {
        '8'
    } else {
        '9'
    }
}

/// The decimal digits of `n`, most significant first.
pub open spec fn dec_digits(n: nat) -> Seq<char>
    decreases n,
{
    if n < 10 {
        seq![digit_char(n)]
    } else {
        dec_digits(n / 10) + seq![digit_char(n % 10)]
    }
}

/// The decimal text of an integer, with a leading minus sign when negative.
pub open spec fn int_text(x: int) -> Seq<char> {
    if x >= 0 {
        dec_digits(x as nat)
    } else {
        seq!['-'] + dec_digits((-x) as nat)
    }
}

/// How a category renders: its name, or the preserved code of an unknown one.
pub open spec fn kind_text(kind: ErrorKind) -> Seq<char> {
    match kind {
        ErrorKind::FileNotFound => "FileNotFound"@,
        ErrorKind::InvalidFileFormat => "InvalidFileFormat"@,
        ErrorKind::FunctionNotFound => "FunctionNotFound"@,
        ErrorKind::InvalidArgument => "InvalidArgument"@,
        ErrorKind::OutOfMemory => "OutOfMemory"@,
        ErrorKind::InternalError => "InternalError"@,
        ErrorKind::NotImplemented => "NotImplemented"@,
        ErrorKind::UnknownCode(code) => "Error#"@ + int_text(code as int),
    }
}

/// A string of one decimal digit.
fn digit_string(d: u64) -> (s: String)
    requires
        d < 10,
    ensures
        s@ == seq![digit_char(d as nat)],
{
    let s = match d {
        0 => "0",
        1 => "1",
        2 => "2",
        3 => "3",
        4 => "4",
        5 => "5",
        6 => "6",
        7 => "7",
        8 => "8",
        _ => "9",
    };
    proof {
        reveal_strlit("0");
        reveal_strlit("1");
        reveal_strlit("2");
        reveal_strlit("3");
        reveal_strlit("4");
        reveal_strlit("5");
        reveal_strlit("6");
        reveal_strlit("7");
        reveal_strlit("8");
        reveal_strlit("9");
        assert(s@ =~= seq![digit_char(d as nat)]);
    }
    s.to_owned()
}

/// The decimal text of `n`.
fn nat_string(n: u64) -> (s: String)
    ensures
        s@ == dec_digits(n as nat),
    decreases n,
{
    if n < 10 {
        digit_string(n)
    } else {
        let high = nat_string(n / 10);
        let low = digit_string(n % 10);
        let s = high.concat(low.as_str());
        proof {
            assert(s@ =~= dec_digits(n as nat));
        }
        s
    }
}

/// The decimal text of `x`, signed.
fn int_string(x: i32) -> (s: String)
    ensures
        s@ == int_text(x as int),
{
    if x >= 0 {
        nat_string(x as u64)
    } else {
        let magnitude: u64 = (-(x as i64)) as u64;
        let s = "-".to_owned().concat(nat_string(magnitude).as_str());
        proof {
            reveal_strlit("-");
            assert(s@ =~= int_text(x as int));
        }
        s
    }
}

impl ErrorKind {
    /// The category's name; an unknown code renders with the code attached.
    pub fn name(&self) -> (s: String)
        ensures
            s@ == kind_text(*self),
    {
        match self {
            ErrorKind::FileNotFound => "FileNotFound".to_owned(),
            ErrorKind::InvalidFileFormat => "InvalidFileFormat".to_owned(),
            ErrorKind::FunctionNotFound => "FunctionNotFound".to_owned(),
            ErrorKind::InvalidArgument => "InvalidArgument".to_owned(),
            ErrorKind::OutOfMemory => "OutOfMemory".to_owned(),
            ErrorKind::InternalError => "InternalError".to_owned(),
            ErrorKind::NotImplemented => "NotImplemented".to_owned(),
            ErrorKind::UnknownCode(code) => {
                let s = "Error#".to_owned().concat(int_string(*code).as_str());
                proof {
                    assert(s@ =~= kind_text(*self));
                }
                s
            },
        }
    }
}

/// How a whole error renders: the category, then the diagnostic message.
pub open spec fn error_text(e: Error) -> Seq<char> {
    "plthook error: "@ + kind_text(e.kind) + ": "@ + e.message@
}

/// An error from the binding: a category together with the diagnostic message
/// the native layer reported. The message is empty when the failure was
/// detected locally and no native call was made.
#[derive(Clone, Debug)]
pub struct Error {
    pub kind: ErrorKind,
    pub message: String,
}

impl Error {
    /// An error of the given category carrying the given message.
    pub fn new(kind: ErrorKind, message: String) -> (e: Error)
        ensures
            e.kind == kind,
            e.message == message,
    {
        Error { kind, message }
    }

    /// The category of this error.
    pub fn kind(&self) -> (kind: ErrorKind)
        ensures
            kind == self.kind,
    {
        self.kind
    }

    /// The diagnostic message attached to this error.
    pub fn message(&self) -> (message: &str)
        ensures
            message@ == self.message@,
    {
        self.message.as_str()
    }

    /// A human-readable rendering: the category and the message.
    pub fn describe(&self) -> (s: String)
        ensures
            s@ == error_text(*self),
    {
        let mut s = "plthook error: ".to_owned();
        s.append(self.kind.name().as_str());
        s.append(": ");
        s.append(self.message.as_str());
        proof {
            assert(s@ =~= error_text(*self));
        }
        s
    }
}

} // verus!
