//! The protocol items that rollout persistence reads and rewrites, held as
//! plain values. Payloads that persistence never looks into are carried as
//! opaque JSON.

use vstd::prelude::*;
use crate::json::JsonValue;
use crate::web_search::WebSearchItem;

verus! {

/// How a thread's history is stored.
#[derive(Debug, Clone, Copy, PartialEq, Eq, Structural)]
pub enum ThreadHistoryMode {
    Legacy,
    Paginated,
}

/// Requested detail of an image input.
#[derive(Debug, Clone, Copy, PartialEq, Eq, Structural)]
pub enum ImageDetail {
    Auto,
    Low,
    High,
}

/// One piece of a model message.
#[derive(Debug, PartialEq)]
pub enum ContentItem {
    InputText { text: String },
    InputImage { image_url: String, detail: Option<ImageDetail> },
    InputAudio { audio_url: String },
    OutputText { text: String },
}

/// One piece of a tool's output.
#[derive(Debug, PartialEq)]
pub enum FunctionCallOutputContentItem {
    InputText { text: String },
    InputImage { image_url: String, detail: Option<ImageDetail> },
    InputAudio { audio_url: String },
    EncryptedContent { encrypted_content: String },
}

/// The body of a tool's output: plain text or a list of content items.
#[derive(Debug, PartialEq)]
pub enum FunctionCallOutputBody {
    Text(String),
    ContentItems(Vec<FunctionCallOutputContentItem>),
}

/// A tool's output, as the model receives it.
#[derive(Debug, PartialEq)]
pub struct FunctionCallOutputPayload {
    pub body: FunctionCallOutputBody,
    pub success: Option<bool>,
}

impl FunctionCallOutputPayload {
    /// A payload holding `items`, with no success flag.
    pub fn from_content_items(items: Vec<FunctionCallOutputContentItem>) -> (r: Self)
        ensures
            r.body == FunctionCallOutputBody::ContentItems(items),
            r.success is None,
    {
        FunctionCallOutputPayload { body: FunctionCallOutputBody::ContentItems(items), success: None }
    }

    /// The content items of the payload, when its body holds items.
    pub fn content_items(&self) -> (r: Option<&Vec<FunctionCallOutputContentItem>>)
        ensures
            match self.body {
                FunctionCallOutputBody::ContentItems(items) => r == Some(&items),
                FunctionCallOutputBody::Text(_) => r is None,
            },
    {
        match &self.body {
            FunctionCallOutputBody::ContentItems(items) => Some(items),
            FunctionCallOutputBody::Text(_) => None,
        }
    }
}

/// An item of a model response. Variants whose content persistence never
/// reads carry it as opaque JSON.
#[derive(Debug, PartialEq)]
pub enum ResponseItem {
    Message {
        id: Option<String>,
        role: String,
        content: Vec<ContentItem>,
        phase: Option<JsonValue>,
        internal_chat_message_metadata_passthrough: Option<JsonValue>,
    },
    AgentMessage(JsonValue),
    Reasoning(JsonValue),
    LocalShellCall(JsonValue),
    FunctionCall(JsonValue),
    ToolSearchCall(JsonValue),
    FunctionCallOutput {
        id: Option<String>,
        call_id: Option<String>,
        name: Option<String>,
        namespace: Option<String>,
        output: FunctionCallOutputPayload,
        internal_chat_message_metadata_passthrough: Option<JsonValue>,
    },
    ToolSearchOutput(JsonValue),
    CustomToolCall(JsonValue),
    CustomToolCallOutput {
        id: Option<String>,
        call_id: String,
        name: Option<String>,
        output: FunctionCallOutputPayload,
        internal_chat_message_metadata_passthrough: Option<JsonValue>,
    },
    WebSearchCall(JsonValue),
    ImageGenerationCall {
        id: Option<String>,
        status: String,
        revised_prompt: Option<String>,
        result: String,
        internal_chat_message_metadata_passthrough: Option<JsonValue>,
    },
    Compaction(JsonValue),
    ContextCompaction(JsonValue),
    AdditionalTools(JsonValue),
    CompactionTrigger(JsonValue),
    Other,
}

/// A response item with the metadata recorded beside it.
#[derive(Debug, PartialEq)]
pub struct ResponseItemEnvelope {
    pub item: ResponseItem,
    pub metadata: Option<JsonValue>,
}

impl ResponseItemEnvelope {
    /// An envelope holding `item` and no metadata.
    pub fn new(item: ResponseItem) -> (r: Self)
        ensures
            r.item == item,
            r.metadata is None,
    {
        ResponseItemEnvelope { item, metadata: None }
    }
}

/// One piece of what a user sent.
#[derive(Debug, PartialEq)]
pub enum UserInput {
    Text { text: String, text_elements: Vec<JsonValue> },
    Image { image_url: String, detail: Option<ImageDetail> },
    LocalImage { path: String },
    Audio { audio_url: String },
    LocalAudio { path: String },
}

/// A user message of a turn.
#[derive(Debug, PartialEq)]
pub struct UserMessageItem {
    pub id: String,
    pub client_id: Option<String>,
    pub content: Vec<UserInput>,
}

/// A generated image of a turn.
#[derive(Debug, PartialEq)]
pub struct ImageGenerationItem {
    pub id: String,
    pub status: String,
    pub revised_prompt: Option<String>,
    pub result: String,
    pub saved_path: Option<String>,
}

/// A generated image, as the image-generation extension records it.
#[derive(Debug, PartialEq)]
pub struct ExtensionImageGenerationItem {
    pub id: String,
    pub status: String,
    pub revised_prompt: Option<String>,
    pub result: String,
    pub transparent_background: Option<bool>,
    pub failure: Option<String>,
    pub saved_path: Option<String>,
    pub imagegen_request_id: Option<String>,
}

/// An item owned by an extension.
#[derive(Debug, PartialEq)]
pub enum ExtensionItem {
    ImageGeneration(ExtensionImageGenerationItem),
    WebSearch(WebSearchItem),
    Sleep(JsonValue),
}

/// One piece of a dynamic tool's output.
#[derive(Debug, PartialEq)]
pub enum DynamicToolCallOutputContentItem {
    InputText { text: String },
    InputImage { image_url: String },
    InputAudio { audio_url: String },
}

/// Progress of a tool call.
#[derive(Debug, Clone, Copy, PartialEq, Eq, Structural)]
pub enum ToolCallStatus {
    InProgress,
    Completed,
    Failed,
}

/// A dynamic tool call of a turn. Durations are in milliseconds.
#[derive(Debug, PartialEq)]
pub struct DynamicToolCallItem {
    pub id: String,
    pub namespace: Option<String>,
    pub tool: String,
    pub arguments: JsonValue,
    pub status: ToolCallStatus,
    pub content_items: Option<Vec<DynamicToolCallOutputContentItem>>,
    pub success: Option<bool>,
    pub error: Option<String>,
    pub duration: Option<u64>,
}

/// The result of an MCP tool call.
#[derive(Debug, PartialEq)]
pub struct CallToolResult {
    pub content: Vec<JsonValue>,
    pub structured_content: Option<JsonValue>,
    pub is_error: Option<bool>,
    pub meta: Option<JsonValue>,
}

/// An MCP tool call of a turn. Durations are in milliseconds.
#[derive(Debug, PartialEq)]
pub struct McpToolCallItem {
    pub id: String,
    pub server: String,
    pub tool: String,
    pub arguments: JsonValue,
    pub connector_id: Option<String>,
    pub mcp_app_resource_uri: Option<String>,
    pub link_id: Option<String>,
    pub app_name: Option<String>,
    pub action_name: Option<String>,
    pub plugin_id: Option<String>,
    pub read_only_hint: Option<bool>,
    pub status: ToolCallStatus,
    pub result: Option<CallToolResult>,
    pub error: Option<String>,
    pub duration: Option<u64>,
}

/// A function call's output, as a turn item.
#[derive(Debug, PartialEq)]
pub struct FunctionCallOutputItem {
    pub id: String,
    pub name: String,
    pub namespace: Option<String>,
    pub output: FunctionCallOutputBody,
}

/// Stage of a sub-agent's activity.
#[derive(Debug, Clone, Copy, PartialEq, Eq, Structural)]
pub enum SubAgentActivityKind {
    Started,
    Progress,
    Completed,
}

/// A sub-agent's activity, as a turn item or an event.
#[derive(Debug, PartialEq)]
pub struct SubAgentActivity {
    pub kind: SubAgentActivityKind,
    pub detail: JsonValue,
}

/// An item of a turn.
#[derive(Debug, PartialEq)]
pub enum TurnItem {
    UserMessage(UserMessageItem),
    AgentMessage(JsonValue),
    Reasoning(JsonValue),
    Plan(JsonValue),
    ImageGeneration(ImageGenerationItem),
    FunctionCallOutput(FunctionCallOutputItem),
    DynamicToolCall(DynamicToolCallItem),
    McpToolCall(McpToolCallItem),
    SubAgentActivity(SubAgentActivity),
    Extension(ExtensionItem),
}

/// A turn item that has completed. Times are in milliseconds.
#[derive(Debug, PartialEq)]
pub struct ItemCompletedEvent {
    pub thread_id: String,
    pub turn_id: String,
    pub item: TurnItem,
    pub started_at_ms: Option<i64>,
    pub completed_at_ms: i64,
}

/// The end of an image generation.
#[derive(Debug, PartialEq)]
pub struct ImageGenerationEndEvent {
    pub call_id: String,
    pub status: String,
    pub revised_prompt: Option<String>,
    pub result: String,
    pub transparent_background: Option<bool>,
    pub failure: Option<String>,
    pub saved_path: Option<String>,
}

/// A user message, as legacy history records it. `image_details[i]` belongs
/// to `images[i]`.
#[derive(Debug, PartialEq)]
pub struct UserMessageEvent {
    pub client_id: Option<String>,
    pub message: String,
    pub images: Option<Vec<String>>,
    pub image_details: Vec<Option<ImageDetail>>,
    pub local_images: Vec<String>,
    pub local_image_details: Vec<Option<ImageDetail>>,
    pub audio: Option<Vec<String>>,
    pub local_audio: Vec<String>,
    pub text_elements: Vec<JsonValue>,
}

/// Which MCP tool was called, and how.
#[derive(Debug, PartialEq)]
pub struct McpInvocation {
    pub server: String,
    pub tool: String,
    pub arguments: Option<JsonValue>,
}

/// The end of an MCP tool call, as legacy history records it. The duration
/// is in milliseconds.
#[derive(Debug, PartialEq)]
pub struct McpToolCallEndEvent {
    pub call_id: String,
    pub invocation: McpInvocation,
    pub connector_id: Option<String>,
    pub mcp_app_resource_uri: Option<String>,
    pub link_id: Option<String>,
    pub app_name: Option<String>,
    pub action_name: Option<String>,
    pub plugin_id: Option<String>,
    pub read_only_hint: Option<bool>,
    pub duration: u64,
    pub result: Result<CallToolResult, String>,
}

/// The end of a web search, as legacy history records it.
#[derive(Debug, PartialEq)]
pub struct WebSearchEndEvent {
    pub call_id: String,
    pub query: String,
    pub action: JsonValue,
    pub results: Option<Vec<JsonValue>>,
}

/// An event of a thread. Events whose content persistence never reads carry
/// it as opaque JSON.
#[derive(Debug, PartialEq)]
pub enum EventMsg {
    ItemCompleted(ItemCompletedEvent),
    SubAgentActivity(SubAgentActivity),
    TokenCount(JsonValue),
    ThreadGoalUpdated(JsonValue),
    ThreadRolledBack(JsonValue),
    TurnAborted(JsonValue),
    TurnStarted(JsonValue),
    TurnComplete(JsonValue),
    ThreadSettingsApplied(JsonValue),
    UserMessage(UserMessageEvent),
    AgentMessage(JsonValue),
    AgentReasoning(JsonValue),
    AgentReasoningRawContent(JsonValue),
    EnteredReviewMode(JsonValue),
    ExitedReviewMode(JsonValue),
    PatchApplyEnd(JsonValue),
    ContextCompacted(JsonValue),
    McpToolCallEnd(McpToolCallEndEvent),
    WebSearchEnd(WebSearchEndEvent),
    ImageGenerationEnd(ImageGenerationEndEvent),
    Error(JsonValue),
    ThreadQueueChanged(JsonValue),
    GuardianAssessment(JsonValue),
    ExecCommandEnd(JsonValue),
    ViewImageToolCall(JsonValue),
    CollabAgentSpawnEnd(JsonValue),
    CollabAgentInteractionEnd(JsonValue),
    CollabWaitingEnd(JsonValue),
    CollabCloseEnd(JsonValue),
    CollabResumeEnd(JsonValue),
    DynamicToolCallRequest(JsonValue),
    DynamicToolCallResponse(JsonValue),
    Warning(JsonValue),
    GuardianWarning(JsonValue),
    RealtimeConversationStarted(JsonValue),
    RealtimeConversationSdp(JsonValue),
    RealtimeConversationRealtime(JsonValue),
    RealtimeConversationClosed(JsonValue),
    SafetyBuffering(JsonValue),
    ModelReroute(JsonValue),
    ModelVerification(JsonValue),
    TurnModerationMetadata(JsonValue),
    AgentReasoningSectionBreak(JsonValue),
    RawResponseItem(JsonValue),
    RawResponseCompleted(JsonValue),
    SessionConfigured(JsonValue),
    EnvironmentConnected(JsonValue),
    EnvironmentDisconnected(JsonValue),
    McpToolCallBegin(JsonValue),
    ExecCommandBegin(JsonValue),
    TerminalInteraction(JsonValue),
    ExecCommandOutputDelta(JsonValue),
    ExecApprovalRequest(JsonValue),
    RequestPermissions(JsonValue),
    RequestUserInput(JsonValue),
    ElicitationRequest(JsonValue),
    ApplyPatchApprovalRequest(JsonValue),
    StreamError(JsonValue),
    PatchApplyBegin(JsonValue),
    PatchApplyUpdated(JsonValue),
    TurnDiff(JsonValue),
    RealtimeConversationListVoicesResponse(JsonValue),
    McpStartupUpdate(JsonValue),
    McpStartupComplete(JsonValue),
    WebSearchBegin(JsonValue),
    PlanUpdate(JsonValue),
    ShutdownComplete,
    DeprecationNotice(JsonValue),
    ItemStarted(JsonValue),
    HookStarted(JsonValue),
    HookCompleted(JsonValue),
    AgentMessageContentDelta(JsonValue),
    PlanDelta(JsonValue),
    ReasoningContentDelta(JsonValue),
    ReasoningRawContentDelta(JsonValue),
    ImageGenerationBegin(JsonValue),
    CollabAgentSpawnBegin(JsonValue),
    CollabAgentInteractionBegin(JsonValue),
    CollabWaitingBegin(JsonValue),
    CollabCloseBegin(JsonValue),
    CollabResumeBegin(JsonValue),
}

/// Events that every history keeps.
pub open spec fn is_durable_event(ev: EventMsg) -> bool {
    ||| ev is TokenCount
    ||| ev is ThreadGoalUpdated
    ||| ev is ThreadRolledBack
    ||| ev is TurnAborted
    ||| ev is TurnStarted
    ||| ev is TurnComplete
    ||| ev is ThreadSettingsApplied
}

/// Events that only legacy history keeps; paginated history keeps completed
/// turn items in their place.
pub open spec fn is_legacy_event(ev: EventMsg) -> bool {
    ||| ev is UserMessage
    ||| ev is AgentMessage
    ||| ev is AgentReasoning
    ||| ev is AgentReasoningRawContent
    ||| ev is EnteredReviewMode
    ||| ev is ExitedReviewMode
    ||| ev is PatchApplyEnd
    ||| ev is ContextCompacted
    ||| ev is McpToolCallEnd
    ||| ev is WebSearchEnd
    ||| ev is ImageGenerationEnd
}

} // verus!
