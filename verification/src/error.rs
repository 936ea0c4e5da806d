use vstd::prelude::*;

verus! {

/// Everything that can go wrong while a command for the audio node is
/// prepared.
#[derive(Debug, Clone, Copy, PartialEq, Eq)]
pub enum LavalinkError {
    /// A command was issued for a guild that has no node yet.
    NoSessionPresent,
    /// No socket session is attached to the connection handle.
    MissingLavalinkSocket,
    /// The state that the operation needs is in use elsewhere right now;
    /// nothing was changed.
    OperationWouldBlock,
    /// The voice connection lacks the named field.
    MissingConnectionField(&'static str),
    /// The value meant for the named header holds a byte that no header
    /// value may hold.
    InvalidHeaderValue(&'static str),
}

/// What a fallible operation of this library returns.
pub type LavalinkResult<T> = Result<T, LavalinkError>;

} // verus!
