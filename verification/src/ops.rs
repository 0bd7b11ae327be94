//! The declarative table of device-control operations: for each operation,
//! how its control code is formed, which direction it transfers, and the
//! size of its payload.

use vstd::prelude::*;

verus! {

/// The fixed numeric control code of the device-info operation.
pub const DEVICE_INFO_CODE: u32 = 0x80dc_4801;

/// Magic byte of the card-info operation.
pub const CARD_INFO_MAGIC: u8 = 0x55; // the ASCII byte 'U'

/// Sub-type of the card-info operation.
pub const CARD_INFO_MODE: u8 = 0x01;

/// Magic byte shared by the hardware-dependent operations.
pub const HWDEP_MAGIC: u8 = 0x48; // the ASCII byte 'H'

/// Sub-type of the protocol-version operation.
pub const PVERSION_MODE: u8 = 0x10;

/// Sub-type of the verb-exchange operation.
pub const VERB_MODE: u8 = 0x11;

/// Sub-type of the widget-capability operation.
pub const WCAP_MODE: u8 = 0x12;

/// Size in bytes of a verb-exchange or widget-capability payload: the packed
/// command word followed by the response word.
pub const VERB_PAYLOAD_SIZE: usize = 8;

/// Size in bytes of a protocol-version payload: one signed 32-bit value.
pub const PVERSION_PAYLOAD_SIZE: usize = 4;

/// The control operations of the protocol surface. The widget-capability
/// exchange shares the verb exchange's transport pattern; the
/// protocol-version query is present in the surface but unused by the
/// enumeration algorithm.
#[derive(Clone, Copy, Debug, PartialEq, Eq, Structural)]
pub enum ControlOp {
    DeviceInfo,
    CardInfo,
    ProtocolVersion,
    VerbExchange,
    WidgetCapability,
}

/// How an operation's control code is formed: a fixed numeric code, or the
/// conventional magic byte and sub-type pair from which the platform's
/// request-code macro builds the code.
#[derive(Clone, Copy, Debug, PartialEq, Eq, Structural)]
pub enum OpCode {
    Fixed { code: u32 },
    Conventional { magic: u8, mode: u8 },
}

/// The control code entry of the table for `op`.
pub open spec fn spec_op_code(op: ControlOp) -> OpCode {
    match op {
        ControlOp::DeviceInfo => OpCode::Fixed { code: DEVICE_INFO_CODE },
        ControlOp::CardInfo => OpCode::Conventional { magic: CARD_INFO_MAGIC, mode: CARD_INFO_MODE },
        ControlOp::ProtocolVersion => OpCode::Conventional { magic: HWDEP_MAGIC, mode: PVERSION_MODE },
        ControlOp::VerbExchange => OpCode::Conventional { magic: HWDEP_MAGIC, mode: VERB_MODE },
        ControlOp::WidgetCapability => OpCode::Conventional { magic: HWDEP_MAGIC, mode: WCAP_MODE },
    }
}

/// Looks an operation's control code up in the table.
pub fn op_code(op: ControlOp) -> (c: OpCode)
    ensures
        c == spec_op_code(op),
{
    match op {
        ControlOp::DeviceInfo => OpCode::Fixed { code: DEVICE_INFO_CODE },
        ControlOp::CardInfo => OpCode::Conventional { magic: CARD_INFO_MAGIC, mode: CARD_INFO_MODE },
        ControlOp::ProtocolVersion => OpCode::Conventional { magic: HWDEP_MAGIC, mode: PVERSION_MODE },
        ControlOp::VerbExchange => OpCode::Conventional { magic: HWDEP_MAGIC, mode: VERB_MODE },
        ControlOp::WidgetCapability => OpCode::Conventional { magic: HWDEP_MAGIC, mode: WCAP_MODE },
    }
}

/// True for the operations that both send and receive data — the verb and
/// widget-capability exchanges; the identity and version queries only read.
pub fn op_is_read_write(op: ControlOp) -> (b: bool)
    ensures
        b <==> (op is VerbExchange || op is WidgetCapability),
{
    match op {
        ControlOp::VerbExchange => true,
        ControlOp::WidgetCapability => true,
        _ => false,
    }
}

/// The payload byte count of each operation in the table.
pub fn op_payload_size(op: ControlOp) -> (n: usize)
    ensures
        op is DeviceInfo ==> n == crate::record::DEVICE_RECORD_SIZE,
        op is CardInfo ==> n == crate::record::CARD_RECORD_SIZE,
        op is ProtocolVersion ==> n == PVERSION_PAYLOAD_SIZE,
        op is VerbExchange ==> n == VERB_PAYLOAD_SIZE,
        op is WidgetCapability ==> n == VERB_PAYLOAD_SIZE,
{
    match op {
        ControlOp::DeviceInfo => crate::record::DEVICE_RECORD_SIZE,
        ControlOp::CardInfo => crate::record::CARD_RECORD_SIZE,
        ControlOp::ProtocolVersion => PVERSION_PAYLOAD_SIZE,
        ControlOp::VerbExchange => VERB_PAYLOAD_SIZE,
        ControlOp::WidgetCapability => VERB_PAYLOAD_SIZE,
    }
}

} // verus!
