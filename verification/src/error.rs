//! The error taxonomy of the service and its encoding on the wire.

use vstd::prelude::*;

verus! {

/// Why an operation did not produce a result.
#[derive(Clone, Copy, Debug, PartialEq, Eq, Structural)]
pub enum Error {
    /// Handled, and no reply is to be sent: the outcome of a notification.
    Success,
    /// The badge names no socket or ring.
    NotFound,
    /// A malformed address, size or configuration.
    InvalidArgs,
    /// The socket is not ready, or a ring is empty.
    WouldBlock,
    /// Receiving on the endpoint timed out.
    Timeout,
    /// A stub, or an unknown opcode.
    NotSupported,
    /// The service was run before it was given its endpoint.
    NotInitialized,
    /// The stack failed the transfer.
    Io,
    /// The stack refused to listen.
    InternalError,
}

impl Error {
    /// The number that stands for this error in register 0 of an error reply
    /// and, negated, in a completion entry.
    pub open spec fn spec_code(self) -> int {
        match self {
            Error::Success => 0,
            Error::NotFound => 1,
            Error::InvalidArgs => 2,
            Error::WouldBlock => 3,
            Error::Timeout => 4,
            Error::NotSupported => 5,
            Error::NotInitialized => 6,
            Error::Io => 7,
            Error::InternalError => 8,
        }
    }

    /// The wire code of this error.
    #[verifier::when_used_as_spec(spec_code_usize)]
    pub fn code(self) -> (c: usize)
        ensures
            c == self.spec_code(),
    {
        match self {
            Error::Success => 0,
            Error::NotFound => 1,
            Error::InvalidArgs => 2,
            Error::WouldBlock => 3,
            Error::Timeout => 4,
            Error::NotSupported => 5,
            Error::NotInitialized => 6,
            Error::Io => 7,
            Error::InternalError => 8,
        }
    }

    /// The error that a wire code stands for, if any.
    pub fn from_code(code: usize) -> (e: Option<Error>)
        ensures
            e matches Some(err) ==> err.spec_code() == code,
            e is None <==> code > 8,
    {
        match code {
            0 => Some(Error::Success),
            1 => Some(Error::NotFound),
            2 => Some(Error::InvalidArgs),
            3 => Some(Error::WouldBlock),
            4 => Some(Error::Timeout),
            5 => Some(Error::NotSupported),
            6 => Some(Error::NotInitialized),
            7 => Some(Error::Io),
            8 => Some(Error::InternalError),
            _ => None,
        }
    }

    /// A short name for logs.
    pub fn name(self) -> (s: &'static str)
        ensures
            s@ == self.spec_name(),
    {
        match self {
            Error::Success => "success",
            Error::NotFound => "not found",
            Error::InvalidArgs => "invalid arguments",
            Error::WouldBlock => "would block",
            Error::Timeout => "timeout",
            Error::NotSupported => "not supported",
            Error::NotInitialized => "not initialized",
            Error::Io => "i/o error",
            Error::InternalError => "internal error",
        }
    }

    /// The text that `name` returns.
    pub open spec fn spec_name(self) -> Seq<char> {
        match self {
            Error::Success => "success"@,
            Error::NotFound => "not found"@,
            Error::InvalidArgs => "invalid arguments"@,
            Error::WouldBlock => "would block"@,
            Error::Timeout => "timeout"@,
            Error::NotSupported => "not supported"@,
            Error::NotInitialized => "not initialized"@,
            Error::Io => "i/o error"@,
            Error::InternalError => "internal error"@,
        }
    }

    /// The wire code as a machine word.
    pub open spec fn spec_code_usize(self) -> usize {
        self.spec_code() as usize
    }
}

/// Distinct errors have distinct wire codes, so a reply names its error.
pub proof fn lemma_codes_are_distinct(a: Error, b: Error)
    ensures
        a.spec_code() == b.spec_code() <==> a == b,
        0 <= a.spec_code() <= 8,
{
}

} // verus!
