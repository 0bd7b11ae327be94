//! Error taxonomy of the protocol layer.

use vstd::prelude::*;

verus! {

/// Which text field of a fixed-size record failed to decode.
#[derive(Clone, Copy, Debug, PartialEq, Eq, Structural)]
pub enum RecordField {
    DeviceId,
    DeviceName,
    CardId,
    CardDriver,
    CardName,
    CardLongname,
    CardMixername,
    CardComponents,
}

/// A typed failure of the protocol layer. None of these is retried; each is
/// returned to the immediate caller.
#[derive(Clone, Copy, Debug, PartialEq, Eq, Structural)]
pub enum HdaError {
    /// The underlying device-control call failed; carries the original
    /// OS-level error code, unchanged.
    Transport { code: i32 },
    /// A fixed-width byte buffer did not decode to valid UTF-8 text.
    MalformedRecord { field: RecordField },
    /// A verb field (node id, command or parameter) exceeds its bit width.
    OutOfRange,
    /// A decoded node range or node id is implausible for an 8-bit node-id
    /// space.
    ProtocolViolation,
}

} // verus!
