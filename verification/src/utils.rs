//! Generation of the platform's identifiers. Each identifier embeds a
//! fresh UUID; the prefixes distinguish the kinds.

use vstd::prelude::*;
use vstd::string::StringExecFns;

verus! {

/// Relies on uuid's `Uuid::new_v4` and its `Display` impl: the rendering
/// is the 36-character hyphenated form. The value itself is random, so
/// nothing is assumed beyond the length.
#[verifier::external_body]
pub(crate) fn fresh_uuid() -> (id: String)
    ensures
        id@.len() == 36,
{
    uuid::Uuid::new_v4().to_string()
}

/// Generates a new idempotency key: a bare UUID.
pub fn generate_idempotency_key() -> (key: String)
    ensures
        key@.len() == 36,
{
    fresh_uuid()
}

/// Appends a fresh UUID to the given prefix.
fn prefixed_uuid(prefix: &str) -> (id: String)
    ensures
        id@.len() == prefix@.len() + 36,
        id@.subrange(0, prefix@.len() as int) == prefix@,
{
    let uuid = fresh_uuid();
    let mut id = prefix.to_owned();
    id.append(uuid.as_str());
    proof {
        assert(id@.subrange(0, prefix@.len() as int) =~= prefix@);
    }
    id
}

/// Generates a new message ID.
pub fn generate_message_id() -> (id: String)
    ensures
        id@.len() == 40,
        id@.subrange(0, 4) == "msg_"@,
{
    proof {
        reveal_strlit("msg_");
    }
    prefixed_uuid("msg_")
}

/// Generates a new conversation ID.
pub fn generate_conversation_id() -> (id: String)
    ensures
        id@.len() == 41,
        id@.subrange(0, 5) == "conv_"@,
{
    proof {
        reveal_strlit("conv_");
    }
    prefixed_uuid("conv_")
}

/// Generates a new session ID.
pub fn generate_session_id() -> (id: String)
    ensures
        id@.len() == 41,
        id@.subrange(0, 5) == "sess_"@,
{
    proof {
        reveal_strlit("sess_");
    }
    prefixed_uuid("sess_")
}

} // verus!
