//! The failure kinds a decoder can report.

use vstd::prelude::*;

verus! {

/// Why a decoding step refused its input.
#[derive(PartialEq, Eq, Structural, Clone, Copy, Debug)]
pub enum DecodeError {
    /// The decoder does not implement the requested form; the dispatcher
    /// treats this as "try the next family".
    Unsupported,
    /// A format did not match or a subfield was out of range; the
    /// dispatcher treats this as "try the next family".
    InvalidInput,
    /// A structural violation of the packet: a compact instruction header
    /// stands outside the last slot.  Fails the whole packet.
    InvalidData,
    /// An internal contract violation: a missing field or a field of the
    /// wrong kind; unreachable with a well-formed format table.
    Other,
}

} // verus!
