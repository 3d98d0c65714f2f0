//! The ingestion decision: what to do with one inbound event.
//!
//! The caller parses the transport envelope into an [`EventData`], looks up
//! the idempotency record and the conversation's stored routing target, and
//! hands the plain facts in; the decision — ignore, acknowledge a
//! duplicate, reject, or dispatch a constructed outbound event — is a
//! verified function of those facts alone.

use vstd::prelude::*;
use crate::errors::AppError;
use crate::utils::fresh_uuid;

verus! {

/// The message payload carried by an inbound event, each field as the
/// envelope may or may not supply it.
pub struct EventData {
    pub message_id: Option<String>,
    pub idempotency_key: Option<String>,
    pub conversation_id: Option<String>,
    pub sequence_number: Option<u64>,
    pub sender_id: Option<String>,
    pub receiver_id: Option<String>,
    pub content: Option<String>,
}

/// The outbound event constructed for the broker: a fresh unique id, this
/// service's address as source, a fixed type tag, and the inbound payload.
pub struct OutboundEvent {
    pub id: String,
    pub source: String,
    pub event_type: String,
    pub data: EventData,
}

/// What an accepted first-seen event dispatches: the resolved routing
/// target and the constructed outbound event.
pub struct DispatchPlan {
    pub agent_id: String,
    pub outbound: OutboundEvent,
}

/// Outcome of ingesting one event that was not rejected.
pub enum HandleOutcome {
    /// The event is of a type this pipeline does not act on: a no-op
    /// success, not an error.
    Ignored,
    /// The idempotency key was already on record: acknowledged, and
    /// nothing is dispatched.
    Duplicate,
    /// A first-seen, well-formed event: deliver the plan's outbound event.
    Dispatched(DispatchPlan),
}

/// The one event type the pipeline acts on.
pub open spec fn spec_is_message_received(event_type: Seq<char>) -> bool {
    event_type == "messaging.message.received"@
}

/// Routing resolution: an agent stored with the conversation is kept; a
/// missing or unreadable one degrades to the fixed default. Never fails.
pub fn resolve_agent(stored_agent_id: Option<String>) -> (agent_id: String)
    ensures
        (stored_agent_id matches Some(a) ==> agent_id == a),
        (stored_agent_id is None ==> agent_id@ == "agent-bruno"@),
{
    match stored_agent_id {
        Some(a) => a,
        None => "agent-bruno".to_owned(),
    }
}

/// Decides what one inbound event leads to.
///
/// An event of any other type is ignored with a success acknowledgment. A
/// missing payload, idempotency key, or conversation id is rejected as a
/// validation error, in that order. An event whose key is already on
/// record is acknowledged as a duplicate, and nothing is dispatched — the
/// duplicate outcome suppresses every later publish attempt for that key.
/// Otherwise the event is dispatched: the routing target is resolved, and
/// the outbound event carries a fresh 36-character id, the given source,
/// the fixed outbound type tag, and the inbound payload unchanged.
pub fn handle_event(
    event_type: &String,
    data: Option<EventData>,
    key_exists: bool,
    stored_agent_id: Option<String>,
    source: String,
) -> (r: Result<HandleOutcome, AppError>)
    ensures
        !spec_is_message_received(event_type@) ==> (r matches Ok(o) && o is Ignored),
        (spec_is_message_received(event_type@) && data is None) ==> (r matches Err(e)
            && e matches AppError::Validation(m) && m@ == "Missing event data"@),
        data matches Some(d) ==> {
            let received = spec_is_message_received(event_type@);
            &&& (received && d.idempotency_key is None) ==> (r matches Err(e)
                && e matches AppError::Validation(m) && m@ == "Missing idempotency_key"@)
            &&& (received && d.idempotency_key is Some && key_exists) ==> (r matches Ok(o)
                && o is Duplicate)
            &&& (received && d.idempotency_key is Some && !key_exists
                && d.conversation_id is None) ==> (r matches Err(e)
                && e matches AppError::Validation(m) && m@ == "Missing conversation_id"@)
            &&& (received && d.idempotency_key is Some && !key_exists
                && d.conversation_id is Some) ==> (r matches Ok(o)
                && o matches HandleOutcome::Dispatched(p) && {
                &&& (stored_agent_id matches Some(a) ==> p.agent_id == a)
                &&& (stored_agent_id is None ==> p.agent_id@ == "agent-bruno"@)
                &&& p.outbound.event_type@ == "agent.message"@
                &&& p.outbound.data == d
                &&& p.outbound.source == source
                &&& p.outbound.id@.len() == 36
            })
        },
{
    let expected: String = "messaging.message.received".to_owned();
    if !event_type.eq(&expected) {
        return Ok(HandleOutcome::Ignored);
    }
    let d = match data {
        None => {
            return Err(AppError::Validation("Missing event data".to_owned()));
        },
        Some(d) => d,
    };
    if d.idempotency_key.is_none() {
        return Err(AppError::Validation("Missing idempotency_key".to_owned()));
    }
    if key_exists {
        return Ok(HandleOutcome::Duplicate);
    }
    if d.conversation_id.is_none() {
        return Err(AppError::Validation("Missing conversation_id".to_owned()));
    }
    let agent_id = resolve_agent(stored_agent_id);
    let id = fresh_uuid();
    let outbound = OutboundEvent { id, source, event_type: "agent.message".to_owned(), data: d };
    Ok(HandleOutcome::Dispatched(DispatchPlan { agent_id, outbound }))
}

} // verus!
