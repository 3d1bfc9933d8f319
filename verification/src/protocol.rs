//! Shared wire-protocol definitions: reply padding, geometry, window
//! presentation hints and the protocol error taxonomy.

use vstd::prelude::*;

verus! {

/// Tag placed in the first byte of every normal reply.
pub const REPLY_TYPE_REPLY: u8 = 1;

/// Number of zero bytes that pad a payload of length `n` to a multiple of 4.
pub open spec fn spec_pad(n: int) -> int
    recommends
        n >= 0,
{
    (4 - n % 4) % 4
}

/// Returns the number of zero bytes to append to a payload of `n` bytes so
/// that the total is a multiple of 4, as every reply body must be.
pub fn pad(n: usize) -> (r: usize)
    ensures
        r == spec_pad(n as int),
        r <= 3,
        (n as int + r) % 4 == 0,
{
    (4 - n % 4) % 4
}

/// Position and size of a window on the screen.
#[derive(Clone, Copy, Debug, PartialEq, Eq, Structural)]
pub struct Rectangle {
    /// Horizontal offset of the top-left corner.
    pub x: i16,
    /// Vertical offset of the top-left corner.
    pub y: i16,
    /// Width in pixels.
    pub width: u16,
    /// Height in pixels.
    pub height: u16,
}

/// Where the contents of a window are moved when its parent is resized.
#[derive(Clone, Copy, Debug, PartialEq, Eq, Structural)]
pub enum BitGravity {
    Forget,
    NorthWest,
    North,
    NorthEast,
    West,
    Center,
    East,
    SouthWest,
    South,
    SouthEast,
    Static,
}

/// Where a window is moved when its parent is resized.
#[derive(Clone, Copy, Debug, PartialEq, Eq, Structural)]
pub enum WinGravity {
    Unmap,
    NorthWest,
    North,
    NorthEast,
    West,
    Center,
    East,
    SouthWest,
    South,
    SouthEast,
    Static,
}

/// Whether the server should maintain the contents of obscured regions.
#[derive(Clone, Copy, Debug, PartialEq, Eq, Structural)]
pub enum BackingStore {
    NotUseful,
    WhenMapped,
    Always,
}

/// The input/output class of a window.
#[derive(Clone, Copy, Debug, PartialEq, Eq, Structural)]
pub enum Class {
    CopyFromParent,
    InputOutput,
    InputOnly,
}

/// Visibility state of a window.
#[derive(Clone, Copy, Debug, PartialEq, Eq, Structural)]
pub enum MapState {
    Unmapped,
    Unviewable,
    Viewable,
}

/// A protocol-level fault caused by a client's request. The connection
/// survives it: the caller turns it into an error reply.
#[derive(Clone, Copy, Debug, PartialEq, Eq, Structural)]
pub enum ProtocolError {
    /// The request named an atom id that resolves to no interned name.
    UnknownAtom(u32),
}

/// Outcome of handling a request that could not be completed normally.
#[derive(Clone, Copy, Debug, PartialEq, Eq, Structural)]
pub enum HandleError {
    /// Recoverable client fault: an error reply is owed, the connection stays
    /// open.
    Client(ProtocolError),
    /// Fatal transport fault: the connection is torn down.
    Io,
}

} // verus!
