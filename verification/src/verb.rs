//! The verb codec: packing and unpacking of the 32-bit command word and the
//! 32-bit response word exchanged with the driver.
//!
//! A command word packs three fields: the node id in the high 8 bits, the
//! command in the middle 16 bits, and the parameter in the low 8 bits.
//! A response word to a sub-node-count query packs two 15-bit fields: the
//! child count in the low half and the first child id in bits 16..31.

use vstd::prelude::*;

use crate::error::HdaError;

verus! {

/// Command group "parameters": the 16-bit command used for parameter reads.
pub const VERBS_PARAMETERS: u32 = 0x0f00;

/// Parameter sub-code "node count": asks a node for its sub-node range.
pub const PARAMS_NODE_COUNT: u32 = 0x04;

/// The packed command word for `(node_id, command, parameter)`.
pub open spec fn pack_verb(node_id: u32, command: u32, parameter: u32) -> u32 {
    (node_id << 24) | (command << 8) | parameter
}

/// The node-id field (high 8 bits) of a packed command word.
pub open spec fn verb_node_id(word: u32) -> u32 {
    (word >> 24) & 0xff
}

/// The command field (bits 8..24) of a packed command word.
pub open spec fn verb_command(word: u32) -> u32 {
    (word >> 8) & 0xffff
}

/// The parameter field (low 8 bits) of a packed command word.
pub open spec fn verb_parameter(word: u32) -> u32 {
    word & 0xff
}

/// The sub-node count carried in the low 15 bits of a response word.
pub open spec fn range_count(response: u32) -> u32 {
    response & 0x7fff
}

/// The first sub-node id carried in bits 16..31 of a response word.
pub open spec fn range_start(response: u32) -> u32 {
    (response >> 16) & 0x7fff
}

/// Packing is injective on in-range fields: each field can be re-extracted
/// from the packed word by its documented shift and mask.
pub proof fn lemma_encode_round_trip(node_id: u32, command: u32, parameter: u32)
    requires
        node_id < 256,
        command < 65536,
        parameter < 256,
    ensures
        verb_node_id(pack_verb(node_id, command, parameter)) == node_id,
        verb_command(pack_verb(node_id, command, parameter)) == command,
        verb_parameter(pack_verb(node_id, command, parameter)) == parameter,
{
    assert((((node_id << 24) | (command << 8) | parameter) >> 24) & 0xff == node_id
        && (((node_id << 24) | (command << 8) | parameter) >> 8) & 0xffff == command
        && (((node_id << 24) | (command << 8) | parameter)) & 0xff == parameter) by (bit_vector)
        requires
            node_id < 256,
            command < 65536,
            parameter < 256,
    ;
}

/// One command/response exchange unit: the packed command word sent to the
/// driver and the response word the driver fills in.
#[allow(non_camel_case_types)]
pub struct hda_verb {
    pub verb: u32,
    pub response: u32,
}

impl hda_verb {
    /// Packs the three verb fields into a fresh exchange unit with a zeroed
    /// response word. The fields must be within their bit widths; out-of-range
    /// values are rejected by [`encode`] instead.
    pub fn new(node_id: u32, verb: u32, param: u32) -> (v: hda_verb)
        requires
            node_id < 256,
            verb < 65536,
            param < 256,
        ensures
            v.verb == pack_verb(node_id, verb, param),
            v.response == 0,
            verb_node_id(v.verb) == node_id,
            verb_command(v.verb) == verb,
            verb_parameter(v.verb) == param,
    {
        proof {
            lemma_encode_round_trip(node_id, verb, param);
        }
        hda_verb { verb: (node_id << 24) | (verb << 8) | param, response: 0 }
    }
}

/// Packs `(node_id, command, parameter)` into a command word, rejecting any
/// field that exceeds its bit width with `OutOfRange` rather than silently
/// corrupting adjacent fields.
pub fn encode(node_id: u32, command: u32, parameter: u32) -> (r: Result<u32, HdaError>)
    ensures
        node_id < 256 && command < 65536 && parameter < 256 <==> r is Ok,
        r is Ok ==> r->Ok_0 == pack_verb(node_id, command, parameter),
        r is Err ==> r->Err_0 == HdaError::OutOfRange,
{
    if node_id < 256 && command < 65536 && parameter < 256 {
        Ok((node_id << 24) | (command << 8) | parameter)
    } else {
        Err(HdaError::OutOfRange)
    }
}

/// Splits a sub-node-count response word into `(count, start_id)`: the number
/// of child nodes and the id of the first child, both 15-bit quantities.
pub fn decode_node_range(response: u32) -> (r: (u32, u32))
    ensures
        r.0 == range_count(response),
        r.1 == range_start(response),
        r.0 < 0x8000,
        r.1 < 0x8000,
{
    proof {
        assert(response & 0x7fff < 0x8000 && (response >> 16) & 0x7fff < 0x8000) by (bit_vector);
    }
    (response & 0x7fff, (response >> 16) & 0x7fff)
}

} // verus!
