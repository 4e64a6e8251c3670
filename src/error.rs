use vstd::prelude::*;

verus! {

/// The failures that the session layer reports itself.
#[derive(Clone, Copy, Debug, PartialEq, Eq, Structural)]
pub enum Error {
    /// A zero width or height, or a display and a surface of different backends.
    InvalidInput,
    /// The operation is not available on this backend.
    NotSupported,
    /// A checked session is already open on this thread.
    Concurrency,
    /// The native context of the session is no longer current on this thread.
    ContextNotCurrent,
    /// `restore` was called with only the base frame on the stack.
    StackUnbalance,
    /// The session was used after `finish` consumed its renderer.
    Finished,
}

/// The description of each failure.
pub open spec fn message_of(e: Error) -> Seq<char> {
    match e {
        Error::InvalidInput => "invalid input"@,
        Error::NotSupported => "not supported by this backend"@,
        Error::Concurrency => "Only one context can be active per thread."@,
        Error::ContextNotCurrent => "Context is not current"@,
        Error::StackUnbalance => "restore called without a matching save"@,
        Error::Finished => "the session's renderer was consumed by finish"@,
    }
}

impl Error {
    /// A short description of the failure.
    pub fn message(&self) -> (r: String)
        ensures
            r@ == message_of(*self),
    {
        match self {
            Error::InvalidInput => String::from_str("invalid input"),
            Error::NotSupported => String::from_str("not supported by this backend"),
            Error::Concurrency => String::from_str("Only one context can be active per thread."),
            Error::ContextNotCurrent => String::from_str("Context is not current"),
            Error::StackUnbalance => String::from_str("restore called without a matching save"),
            Error::Finished => String::from_str("the session's renderer was consumed by finish"),
        }
    }
}

} // verus!
