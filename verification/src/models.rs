//! Data model of the messaging platform: message envelopes, conversation and
//! user records, and the dead-letter bookkeeping types.
//!
//! Timestamps are carried as milliseconds since the Unix epoch.

use vstd::prelude::*;

verus! {

/// Message types supported by the platform.
#[derive(Clone, Copy, Debug, PartialEq, Eq, Structural)]
pub enum MessageType {
    Text,
    Image,
    Video,
    Audio,
    Document,
    Location,
    System,
}

/// Delivery status of a message.
#[derive(Clone, Copy, Debug, PartialEq, Eq, Structural)]
pub enum MessageStatus {
    Sent,
    Delivered,
    Read,
}

/// Presence status of a user.
#[derive(Clone, Copy, Debug, PartialEq, Eq, Structural)]
pub enum UserStatus {
    Online,
    Offline,
}

/// Shape of a conversation.
#[derive(Clone, Copy, Debug, PartialEq, Eq, Structural)]
pub enum ConversationType {
    OneToOne,
    Group,
}

/// Closed taxonomy of dead-letter failure causes, used for triage and
/// statistics; retry behavior does not branch on it.
#[derive(Clone, Copy, Debug, PartialEq, Eq, Structural)]
pub enum DLQErrorType {
    BrokerPublishFailed,
    StorageFailed,
    ValidationFailed,
    Timeout,
    ServiceUnavailable,
    NetworkError,
    Unknown,
}

/// Lifecycle state of a dead-letter entry.
#[derive(Clone, Copy, Debug, PartialEq, Eq, Structural)]
pub enum DLQStatus {
    Pending,
    Retrying,
    Failed,
    Resolved,
}

/// Credentials presented when a client connection authenticates.
pub struct AuthPayload {
    pub user_id: String,
    pub auth_token: String,
    pub device_id: String,
    pub platform: String,
    pub app_version: String,
}

/// Server acknowledgment of a successful authentication.
pub struct AuthSuccessPayload {
    pub session_id: String,
    pub server_time: i64,
    pub unread_count: u64,
}

/// Body of a message sent by a client.
pub struct MessagePayload {
    pub conversation_id: String,
    pub receiver_id: String,
    pub content: String,
    pub message_type: MessageType,
    pub media_url: Option<String>,
    pub reply_to_message_id: Option<String>,
    pub timestamp: i64,
}

/// Server acknowledgment that a message was stored.
pub struct MessageAckPayload {
    pub message_id: String,
    pub sequence_number: u64,
    pub status: MessageStatus,
    pub timestamp: i64,
}

/// A batch of stored messages, as returned for retransmission.
pub struct MessagesPayload {
    pub conversation_id: String,
    pub messages: Vec<StoredMessage>,
}

/// Instruction to migrate a connection to a new endpoint.
pub struct MigrationPayload {
    pub new_endpoint: String,
    pub session_token: String,
}

/// Messages exchanged over a client connection.
#[allow(inconsistent_fields)]
pub enum WebSocketMessage {
    Auth { payload: AuthPayload },
    AuthSuccess { payload: AuthSuccessPayload },
    AuthError { error: String },
    Message {
        client_message_id: Option<String>,
        idempotency_key: String,
        payload: MessagePayload,
    },
    MessageAck { client_message_id: String, payload: MessageAckPayload },
    DeliveryAck { message_id: String, timestamp: i64 },
    ReadReceipt { message_ids: Vec<String>, timestamp: i64 },
    Heartbeat { timestamp: i64 },
    HeartbeatAck { server_time: i64 },
    Retransmit { conversation_id: String, from_sequence: u64, to_sequence: u64 },
    Messages { payload: MessagesPayload },
    Migration { payload: MigrationPayload },
}

/// A message as persisted by the message store.
pub struct StoredMessage {
    pub message_id: Option<String>,
    pub idempotency_key: String,
    pub conversation_id: String,
    pub sequence_number: u64,
    pub sender_id: String,
    pub receiver_id: String,
    pub message_type: MessageType,
    pub content: String,
    pub media_url: Option<String>,
    pub reply_to_message_id: Option<String>,
    pub timestamp: u64,
    pub status: MessageStatus,
    pub created_at: u64,
}

/// A registered user.
pub struct User {
    pub user_id: Option<String>,
    pub phone: Option<String>,
    pub email: Option<String>,
    pub name: String,
    pub avatar_url: Option<String>,
    pub created_at: u64,
    pub last_seen: Option<u64>,
    pub status: UserStatus,
}

/// A conversation between a user and an agent, holding the routing target.
pub struct Conversation {
    pub conversation_id: Option<String>,
    pub user_id: String,
    pub agent_id: String,
    pub conversation_type: ConversationType,
    pub participants: Vec<String>,
    pub last_sequence_number: u64,
    pub last_message_at: Option<u64>,
    pub created_at: u64,
}

/// Record whose existence marks an idempotency key as already processed.
pub struct IdempotencyKey {
    pub idempotency_key: String,
    pub message_id: String,
    pub created_at: u64,
}

/// Last sequence number handed out for a conversation.
pub struct SequenceNumber {
    pub conversation_id: String,
    pub last_sequence_number: u64,
    pub updated_at: u64,
}

/// Where a client connection lives, as registered in the cache.
pub struct ConnectionRegistry {
    pub instance_id: String,
    pub connection_id: String,
    pub timestamp: i64,
}

/// Presence record of a user.
pub struct Presence {
    pub status: UserStatus,
    pub last_seen: i64,
}

/// Inbound event announcing that a message was received.
pub struct MessageReceivedEvent {
    pub message_id: String,
    pub idempotency_key: String,
    pub conversation_id: String,
    pub sender_id: String,
    pub receiver_id: String,
    pub sequence_number: u64,
    pub message_type: MessageType,
    pub content: String,
    pub timestamp: u64,
}

/// Outbound event carrying an agent's response.
pub struct AgentResponseEvent {
    pub idempotency_key: String,
    pub conversation_id: String,
    pub user_id: String,
    pub agent_id: String,
    pub response: String,
    pub timestamp: u64,
}

/// One unit of failure bookkeeping in the dead-letter store.
pub struct DeadLetterQueueEntry {
    pub id: Option<String>,
    pub message: StoredMessage,
    pub error: String,
    pub error_type: DLQErrorType,
    pub retry_count: u32,
    pub max_retries: u32,
    pub next_retry_at: Option<u64>,
    pub created_at: u64,
    pub last_retry_at: Option<u64>,
    pub status: DLQStatus,
    pub resolved_at: Option<u64>,
    pub resolved_reason: Option<String>,
    pub expires_at: u64,
}

impl DeadLetterQueueEntry {
    /// The invariant every entry observes: the retry budget is never
    /// exceeded, a retry is scheduled exactly while the entry is pending,
    /// and an entry whose budget is exhausted is failed unless resolved.
    pub open spec fn wf(self) -> bool {
        &&& self.retry_count <= self.max_retries
        &&& self.next_retry_at is Some <==> self.status is Pending
        &&& self.status is Failed ==> self.retry_count == self.max_retries
        &&& self.retry_count == self.max_retries ==> (self.status is Failed
            || self.status is Resolved)
    }
}

} // verus!
