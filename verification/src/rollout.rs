//! The items of a rollout file.

use vstd::prelude::*;
use crate::json::JsonValue;
use crate::protocol::{EventMsg, ResponseItemEnvelope};

verus! {

/// A compaction of a thread's history, with the history that replaces it.
#[derive(Debug, PartialEq)]
pub struct CompactedItem {
    pub message: String,
    pub replacement_history: Option<Vec<ResponseItemEnvelope>>,
    pub guardian_history: Option<JsonValue>,
    pub mcp_resource_origins: Option<JsonValue>,
    pub window_number: Option<u64>,
    pub first_window_id: Option<String>,
    pub previous_window_id: Option<String>,
    pub window_id: Option<String>,
    pub compaction_response_id: Option<String>,
    pub latest_token_usage_record: Option<JsonValue>,
}

/// One line of a rollout file. Variants whose content persistence never
/// reads carry it as opaque JSON.
#[derive(Debug, PartialEq)]
pub enum RolloutItem {
    SessionMeta(JsonValue),
    ResponseItem(ResponseItemEnvelope),
    InterAgentCommunication(JsonValue),
    InterAgentCommunicationMetadata(JsonValue),
    Compacted(CompactedItem),
    TurnContext(JsonValue),
    WorldState(JsonValue),
    SecurityRiskScore(JsonValue),
    EventMsg(EventMsg),
    RealtimeItem(JsonValue),
}

} // verus!
