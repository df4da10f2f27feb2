use vstd::prelude::*;

verus! {

/// Errors of the wire protocol and of the session rules.
#[derive(Clone, Copy, Debug, PartialEq, Eq, Structural)]
pub enum Error {
    /// The input ends before a version cell or a frame is complete.
    Truncated,
    /// A payload is too long for the 4-byte length prefix.
    TooLarge,
    /// The peer speaks another protocol version (the one it advertised).
    Incompatible(u16),
    /// A sampling interval of zero, which cannot pace a session.
    InvalidInterval,
}

} // verus!
