//! Outcome of publishing the status line through `xsetroot -name`.
use crate::text::{decimal, push_decimal};
use vstd::prelude::*;
use vstd::string::*;

verus! {

/// Why the status line could not be published.
#[derive(Debug, Clone, Copy, PartialEq, Eq, Structural)]
pub enum Error {
    /// The line was not valid UTF-8.
    NotUtf8,
    /// The process could not be spawned or waited for.
    Io,
    /// The process exited with this non-zero code.
    XSetRootCode(i32),
    /// The process was killed by a signal.
    XSetRootSignal,
}

/// The decimal notation of a signed number.
pub open spec fn signed_decimal(n: int) -> Seq<char> {
    if n < 0 {
        "-"@ + decimal((-n) as nat)
    } else {
        decimal(n as nat)
    }
}

/// What an error says to a reader.
pub open spec fn error_message(e: Error) -> Seq<char> {
    match e {
        Error::NotUtf8 => "Not UTF-8"@,
        Error::Io => "IO error"@,
        Error::XSetRootCode(code) => "xsetroot exited with code: "@ + signed_decimal(code as int),
        Error::XSetRootSignal => "xsetroot was killed by a signal"@,
    }
}

impl Error {
    /// A message for the log.
    pub fn message(&self) -> (r: String)
        ensures
            r@ == error_message(*self),
    {
        let mut s = String::new();
        match self {
            Error::NotUtf8 => s.append("Not UTF-8"),
            Error::Io => s.append("IO error"),
            Error::XSetRootCode(code) => {
                s.append("xsetroot exited with code: ");
                let c = *code as i64;
                if c < 0 {
                    s.append("-");
                    push_decimal(&mut s, (-c) as u64);
                } else {
                    push_decimal(&mut s, c as u64);
                }
            },
            Error::XSetRootSignal => s.append("xsetroot was killed by a signal"),
        }
        s
    }
}

/// The outcome of a finished `xsetroot` process: exit code zero is success,
/// another code or no code (a signal) is an error.
pub fn exit_outcome(code: Option<i32>) -> (r: Result<(), Error>)
    ensures
        code == Some(0i32) ==> r is Ok,
        code is Some && code != Some(0i32) ==> r == Err::<(), Error>(
            Error::XSetRootCode(code->0),
        ),
        code is None ==> r == Err::<(), Error>(Error::XSetRootSignal),
{
    match code {
        Some(0) => Ok(()),
        Some(c) => Err(Error::XSetRootCode(c)),
        None => Err(Error::XSetRootSignal),
    }
}

} // verus!
