//! The node enumerator: discovers the contiguous range of widget node ids of
//! a codec from two sub-node-count queries.
//!
//! The first query goes to node 0 and only its `start_id` half is used: it is
//! the codec's root node id. The second query goes to that root node and its
//! `(count, start_id)` halves give the widget range `[start_id, start_id +
//! count)`. The caller performs the two device exchanges and feeds each
//! outcome back; the decisions between the exchanges are made here.

use vstd::prelude::*;

use crate::error::HdaError;
use crate::verb::{
    hda_verb, pack_verb, range_count, range_start, PARAMS_NODE_COUNT, VERBS_PARAMETERS,
};

verus! {

/// One past the largest node id addressable by the verb word's 8-bit node-id
/// field; a decoded id or range beyond it is a protocol violation.
pub const NODE_ID_LIMIT: u32 = 256;

/// The contiguous range of widget node ids `[start_id, start_id + count)`.
#[derive(Clone, Copy, Debug, PartialEq, Eq, Structural)]
pub struct NodeRange {
    pub start_id: u32,
    pub count: u32,
}

impl NodeRange {
    /// A well-formed range stays inside the 8-bit node-id space, so every id
    /// in it can be addressed by a further verb.
    pub open spec fn wf(&self) -> bool {
        self.start_id + self.count <= NODE_ID_LIMIT
    }

    /// True when `id` is one of the node ids of the range.
    pub open spec fn spec_contains(&self, id: u32) -> bool {
        self.start_id <= id < self.start_id + self.count
    }

    /// One past the last node id of the range.
    pub fn end(&self) -> (e: u32)
        requires
            self.wf(),
        ensures
            e == self.start_id + self.count,
            forall|id: u32| self.spec_contains(id) <==> self.start_id <= id < e,
    {
        self.start_id + self.count
    }
}

/// Where a two-step enumeration stands: before the root query, before the
/// child query against the discovered root node, or finished.
#[derive(Clone, Copy, Debug, PartialEq, Eq, Structural)]
pub enum EnumState {
    QueryRoot,
    QueryChildren { root: u32 },
    Done { range: NodeRange },
}

impl EnumState {
    /// Every state the machine can reach holds only addressable node ids.
    pub open spec fn wf(&self) -> bool {
        match *self {
            EnumState::QueryRoot => true,
            EnumState::QueryChildren { root } => root < NODE_ID_LIMIT,
            EnumState::Done { range } => range.wf(),
        }
    }
}

/// The step the enumerator takes from `state` once the pending exchange
/// finished with `outcome`: a failed exchange aborts with a `Transport` error
/// carrying the original code; a successful root query yields the root node
/// id (rejected as a protocol violation when it cannot be addressed); a
/// successful child query yields the widget range (rejected as a protocol
/// violation when it leaves the 8-bit node-id space).
pub open spec fn spec_advance(state: EnumState, outcome: Result<u32, i32>) -> Result<
    EnumState,
    HdaError,
> {
    match outcome {
        Err(code) => Err(HdaError::Transport { code }),
        Ok(response) => match state {
            EnumState::QueryRoot => {
                if range_start(response) < NODE_ID_LIMIT {
                    Ok(EnumState::QueryChildren { root: range_start(response) })
                } else {
                    Err(HdaError::ProtocolViolation)
                }
            },
            EnumState::QueryChildren { root } => {
                if range_start(response) + range_count(response) <= NODE_ID_LIMIT {
                    Ok(
                        EnumState::Done {
                            range: NodeRange {
                                start_id: range_start(response),
                                count: range_count(response),
                            },
                        },
                    )
                } else {
                    Err(HdaError::ProtocolViolation)
                }
            },
            EnumState::Done { range } => Ok(state),
        },
    }
}

/// The verb to send for the exchange `state` is waiting on, if any: a
/// sub-node-count query against node 0 first, then against the discovered
/// root node. A finished enumeration has no pending exchange.
pub fn pending_query(state: &EnumState) -> (q: Option<hda_verb>)
    requires
        state.wf(),
    ensures
        state is QueryRoot ==> q is Some && q->0.verb == pack_verb(
            0,
            VERBS_PARAMETERS,
            PARAMS_NODE_COUNT,
        ) && q->0.response == 0,
        *state matches EnumState::QueryChildren { root } ==> q is Some && q->0.verb == pack_verb(
            root,
            VERBS_PARAMETERS,
            PARAMS_NODE_COUNT,
        ) && q->0.response == 0,
        state is Done <==> q is None,
{
    match state {
        EnumState::QueryRoot => Some(hda_verb::new(0, VERBS_PARAMETERS, PARAMS_NODE_COUNT)),
        EnumState::QueryChildren { root } => Some(
            hda_verb::new(*root, VERBS_PARAMETERS, PARAMS_NODE_COUNT),
        ),
        EnumState::Done { .. } => None,
    }
}

/// Advances the enumerator by one exchange outcome. The successful response
/// word or the OS-level error code of the pending exchange goes in; the next
/// state or the aborting error comes out, exactly as [`spec_advance`] says.
pub fn advance(state: &EnumState, outcome: Result<u32, i32>) -> (r: Result<EnumState, HdaError>)
    requires
        !(state is Done),
    ensures
        r == spec_advance(*state, outcome),
        outcome matches Err(code) ==> r == Err::<EnumState, HdaError>(
            HdaError::Transport { code },
        ),
        r is Ok ==> r->Ok_0.wf(),
{
    match outcome {
        Err(code) => Err(HdaError::Transport { code }),
        Ok(response) => match state {
            EnumState::QueryRoot => {
                let (_, start_id) = crate::verb::decode_node_range(response);
                if start_id < NODE_ID_LIMIT {
                    Ok(EnumState::QueryChildren { root: start_id })
                } else {
                    Err(HdaError::ProtocolViolation)
                }
            },
            EnumState::QueryChildren { .. } => {
                let (count, start_id) = crate::verb::decode_node_range(response);
                if start_id <= NODE_ID_LIMIT && count <= NODE_ID_LIMIT - start_id {
                    Ok(EnumState::Done { range: NodeRange { start_id, count } })
                } else {
                    Err(HdaError::ProtocolViolation)
                }
            },
            EnumState::Done { .. } => Err(HdaError::ProtocolViolation),
        },
    }
}

/// The result of a complete two-step enumeration in which the driver
/// answered the root query with `root_response` and the child query with
/// `child_response`.
pub open spec fn spec_enumeration(root_response: u32, child_response: u32) -> Result<
    NodeRange,
    HdaError,
> {
    match spec_advance(EnumState::QueryRoot, Ok(root_response)) {
        Err(e) => Err(e),
        Ok(mid) => match spec_advance(mid, Ok(child_response)) {
            Err(e) => Err(e),
            Ok(fin) => match fin {
                EnumState::Done { range } => Ok(range),
                _ => Err(HdaError::ProtocolViolation),
            },
        },
    }
}

/// Composes the two enumeration steps on already-received response words:
/// the root node id comes from the first response, the widget range from the
/// second.
pub fn enumerate_from_responses(root_response: u32, child_response: u32) -> (r: Result<
    NodeRange,
    HdaError,
>)
    ensures
        r == spec_enumeration(root_response, child_response),
        r is Ok ==> r->Ok_0.wf(),
{
    let mid = match advance(&EnumState::QueryRoot, Ok(root_response)) {
        Ok(s) => s,
        Err(e) => {
            return Err(e);
        },
    };
    match advance(&mid, Ok(child_response)) {
        Ok(EnumState::Done { range }) => Ok(range),
        Ok(_) => Err(HdaError::ProtocolViolation),
        Err(e) => Err(e),
    }
}

/// A transport failure at any step aborts the enumeration with a `Transport`
/// error carrying the original OS-level code unchanged, never with a partial
/// result.
pub proof fn lemma_transport_failure_propagates(state: EnumState, code: i32)
    ensures
        spec_advance(state, Err(code)) == Err::<EnumState, HdaError>(HdaError::Transport { code }),
{
}

/// Repeating the same query sequence against an unchanged device — the same
/// two response words — yields the identical node range or error.
pub proof fn lemma_enumeration_idempotent(
    root_a: u32,
    child_a: u32,
    root_b: u32,
    child_b: u32,
)
    requires
        root_a == root_b,
        child_a == child_b,
    ensures
        spec_enumeration(root_a, child_a) == spec_enumeration(root_b, child_b),
{
}

} // verus!
