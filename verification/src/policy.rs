//! Which rollout items are persisted, and the copy of each that is written:
//! the same item with its inline media payloads removed.

use vstd::prelude::*;
use crate::json::{JsonValue, lemma_ascii_prefix, spec_starts_with, starts_with, text_eq};
use crate::protocol::{
    CallToolResult, ContentItem, DynamicToolCallItem, DynamicToolCallOutputContentItem, EventMsg,
    ExtensionImageGenerationItem, ExtensionItem, FunctionCallOutputBody,
    FunctionCallOutputContentItem, FunctionCallOutputItem, FunctionCallOutputPayload,
    ImageDetail, ImageGenerationEndEvent, ImageGenerationItem, McpToolCallEndEvent,
    McpToolCallItem, ResponseItem, ResponseItemEnvelope, SubAgentActivityKind, ThreadHistoryMode,
    TurnItem, UserInput, UserMessageEvent, UserMessageItem, WebSearchEndEvent, is_durable_event,
    is_legacy_event,
};
use crate::rollout::{CompactedItem, RolloutItem};
use crate::web_search::{
    has_data_scheme, json_without_media, optional_results_without_media, spec_has_data_scheme,
    results_without_inline_media, value_without_media,
};

verus! {

/// Whether a response item is kept in rollout files: every kind but the
/// tool list, the compaction trigger and unknown items.
pub open spec fn spec_should_persist_response_item(item: ResponseItem) -> bool {
    !(item is AdditionalTools || item is CompactionTrigger || item is Other)
}

/// Whether a response item is kept for memories: messages not from the
/// developer, agent messages, and tool calls with their outputs.
pub open spec fn spec_should_persist_response_item_for_memories(item: ResponseItem) -> bool {
    match item {
        ResponseItem::Message { role, .. } => role@ != "developer"@,
        _ => {
            ||| item is AgentMessage
            ||| item is LocalShellCall
            ||| item is FunctionCall
            ||| item is ToolSearchCall
            ||| item is FunctionCallOutput
            ||| item is ToolSearchOutput
            ||| item is CustomToolCall
            ||| item is CustomToolCallOutput
            ||| item is WebSearchCall
        },
    }
}

/// Turn items that legacy history keeps as completed items, having no
/// lossless raw response item or legacy event in their place.
pub open spec fn kept_as_completed_in_legacy(item: TurnItem) -> bool {
    ||| item is FunctionCallOutput
    ||| item is Plan
    ||| item matches TurnItem::Extension(ExtensionItem::Sleep(_))
    ||| item matches TurnItem::SubAgentActivity(a) && a.kind == SubAgentActivityKind::Completed
}

/// Whether an event is kept in rollout files of the given history mode.
pub open spec fn spec_should_persist_event_msg(ev: EventMsg, mode: ThreadHistoryMode) -> bool {
    match ev {
        EventMsg::ItemCompleted(e) => mode == ThreadHistoryMode::Paginated
            || kept_as_completed_in_legacy(e.item),
        EventMsg::SubAgentActivity(a) => mode == ThreadHistoryMode::Legacy && a.kind
            != SubAgentActivityKind::Completed,
        _ => is_durable_event(ev) || (is_legacy_event(ev) && mode == ThreadHistoryMode::Legacy),
    }
}

/// Whether a rollout item is kept in rollout files of the given history mode.
pub open spec fn spec_is_persisted_rollout_item(item: RolloutItem, mode: ThreadHistoryMode) -> bool {
    match item {
        RolloutItem::ResponseItem(e) => spec_should_persist_response_item(e.item),
        RolloutItem::EventMsg(ev) => spec_should_persist_event_msg(ev, mode),
        RolloutItem::RealtimeItem(_) => mode == ThreadHistoryMode::Paginated,
        _ => true,
    }
}

/// Whether a `ResponseItem` should be persisted in rollout files.
pub fn should_persist_response_item(item: &ResponseItem) -> (r: bool)
    ensures
        r == spec_should_persist_response_item(*item),
{
    match item {
        ResponseItem::Message { .. }
        | ResponseItem::AgentMessage(_)
        | ResponseItem::Reasoning(_)
        | ResponseItem::LocalShellCall(_)
        | ResponseItem::FunctionCall(_)
        | ResponseItem::ToolSearchCall(_)
        | ResponseItem::FunctionCallOutput { .. }
        | ResponseItem::ToolSearchOutput(_)
        | ResponseItem::CustomToolCall(_)
        | ResponseItem::CustomToolCallOutput { .. }
        | ResponseItem::WebSearchCall(_)
        | ResponseItem::ImageGenerationCall { .. }
        | ResponseItem::Compaction(_)
        | ResponseItem::ContextCompaction(_) => true,
        ResponseItem::AdditionalTools(_)
        | ResponseItem::CompactionTrigger(_)
        | ResponseItem::Other => false,
    }
}

/// Whether a `ResponseItem` should be persisted for the memories.
pub fn should_persist_response_item_for_memories(item: &ResponseItem) -> (r: bool)
    ensures
        r == spec_should_persist_response_item_for_memories(*item),
        item matches ResponseItem::Message { role, .. } ==> (r <==> role@ != "developer"@),
{
    match item {
        ResponseItem::Message { role, .. } => !text_eq(role.as_str(), "developer"),
        ResponseItem::AgentMessage(_)
        | ResponseItem::LocalShellCall(_)
        | ResponseItem::FunctionCall(_)
        | ResponseItem::ToolSearchCall(_)
        | ResponseItem::FunctionCallOutput { .. }
        | ResponseItem::ToolSearchOutput(_)
        | ResponseItem::CustomToolCall(_)
        | ResponseItem::CustomToolCallOutput { .. }
        | ResponseItem::WebSearchCall(_) => true,
        ResponseItem::AdditionalTools(_)
        | ResponseItem::Reasoning(_)
        | ResponseItem::ImageGenerationCall { .. }
        | ResponseItem::Compaction(_)
        | ResponseItem::CompactionTrigger(_)
        | ResponseItem::ContextCompaction(_)
        | ResponseItem::Other => false,
    }
}


/// Whether an `EventMsg` should be persisted in rollout files.
pub fn should_persist_event_msg(ev: &EventMsg, history_mode: ThreadHistoryMode) -> (r: bool)
    ensures
        r == spec_should_persist_event_msg(*ev, history_mode),
        ev matches EventMsg::ItemCompleted(e) ==> (r <==> (history_mode
            == ThreadHistoryMode::Paginated || e.item is FunctionCallOutput || e.item is Plan
            || e.item matches TurnItem::Extension(ExtensionItem::Sleep(_)) || (e.item matches TurnItem::SubAgentActivity(a)
            && a.kind == SubAgentActivityKind::Completed))),
{
    match ev {
        EventMsg::ItemCompleted(event) => {
            // Paginated rollouts store turn items. Legacy rollouts keep only
            // items with no lossless raw response item or legacy equivalent.
            history_mode == ThreadHistoryMode::Paginated || match &event.item {
                TurnItem::FunctionCallOutput(_)
                | TurnItem::Plan(_)
                | TurnItem::Extension(ExtensionItem::Sleep(_)) => true,
                TurnItem::SubAgentActivity(item) => item.kind == SubAgentActivityKind::Completed,
                _ => false,
            }
        },
        EventMsg::TokenCount(_)
        | EventMsg::ThreadGoalUpdated(_)
        | EventMsg::ThreadRolledBack(_)
        | EventMsg::TurnAborted(_)
        | EventMsg::TurnStarted(_)
        | EventMsg::TurnComplete(_)
        | EventMsg::ThreadSettingsApplied(_) => true,

        // Only persist these legacy events when the thread's history mode is
        // Legacy. Paginated rollouts persist completed turn items instead.
        EventMsg::UserMessage(_)
        | EventMsg::AgentMessage(_)
        | EventMsg::AgentReasoning(_)
        | EventMsg::AgentReasoningRawContent(_)
        | EventMsg::EnteredReviewMode(_)
        | EventMsg::ExitedReviewMode(_)
        | EventMsg::PatchApplyEnd(_)
        | EventMsg::ContextCompacted(_)
        | EventMsg::McpToolCallEnd(_)
        | EventMsg::WebSearchEnd(_)
        | EventMsg::ImageGenerationEnd(_) => history_mode == ThreadHistoryMode::Legacy,
        EventMsg::SubAgentActivity(event) => history_mode == ThreadHistoryMode::Legacy
            && event.kind != SubAgentActivityKind::Completed,

        // Transient, non-durable events.
        EventMsg::Error(_)
        | EventMsg::ThreadQueueChanged(_)
        | EventMsg::GuardianAssessment(_)
        | EventMsg::ExecCommandEnd(_)
        | EventMsg::ViewImageToolCall(_)
        | EventMsg::CollabAgentSpawnEnd(_)
        | EventMsg::CollabAgentInteractionEnd(_)
        | EventMsg::CollabWaitingEnd(_)
        | EventMsg::CollabCloseEnd(_)
        | EventMsg::CollabResumeEnd(_)
        | EventMsg::DynamicToolCallRequest(_)
        | EventMsg::DynamicToolCallResponse(_)
        | EventMsg::Warning(_)
        | EventMsg::GuardianWarning(_)
        | EventMsg::RealtimeConversationStarted(_)
        | EventMsg::RealtimeConversationSdp(_)
        | EventMsg::RealtimeConversationRealtime(_)
        | EventMsg::RealtimeConversationClosed(_)
        | EventMsg::SafetyBuffering(_)
        | EventMsg::ModelReroute(_)
        | EventMsg::ModelVerification(_)
        | EventMsg::TurnModerationMetadata(_)
        | EventMsg::AgentReasoningSectionBreak(_)
        | EventMsg::RawResponseItem(_)
        | EventMsg::RawResponseCompleted(_)
        | EventMsg::SessionConfigured(_)
        | EventMsg::EnvironmentConnected(_)
        | EventMsg::EnvironmentDisconnected(_)
        | EventMsg::McpToolCallBegin(_)
        | EventMsg::ExecCommandBegin(_)
        | EventMsg::TerminalInteraction(_)
        | EventMsg::ExecCommandOutputDelta(_)
        | EventMsg::ExecApprovalRequest(_)
        | EventMsg::RequestPermissions(_)
        | EventMsg::RequestUserInput(_)
        | EventMsg::ElicitationRequest(_)
        | EventMsg::ApplyPatchApprovalRequest(_)
        | EventMsg::StreamError(_)
        | EventMsg::PatchApplyBegin(_)
        | EventMsg::PatchApplyUpdated(_)
        | EventMsg::TurnDiff(_)
        | EventMsg::RealtimeConversationListVoicesResponse(_)
        | EventMsg::McpStartupUpdate(_)
        | EventMsg::McpStartupComplete(_)
        | EventMsg::WebSearchBegin(_)
        | EventMsg::PlanUpdate(_)
        | EventMsg::ShutdownComplete
        | EventMsg::DeprecationNotice(_)
        | EventMsg::ItemStarted(_)
        | EventMsg::HookStarted(_)
        | EventMsg::HookCompleted(_)
        | EventMsg::AgentMessageContentDelta(_)
        | EventMsg::PlanDelta(_)
        | EventMsg::ReasoningContentDelta(_)
        | EventMsg::ReasoningRawContentDelta(_)
        | EventMsg::ImageGenerationBegin(_)
        | EventMsg::CollabAgentSpawnBegin(_)
        | EventMsg::CollabAgentInteractionBegin(_)
        | EventMsg::CollabWaitingBegin(_)
        | EventMsg::CollabCloseBegin(_)
        | EventMsg::CollabResumeBegin(_) => false,
    }
}

/// Whether a rollout `item` should be persisted in rollout files.
pub fn is_persisted_rollout_item(item: &RolloutItem, history_mode: ThreadHistoryMode) -> (r: bool)
    ensures
        r == spec_is_persisted_rollout_item(*item, history_mode),
        !(item is ResponseItem || item is EventMsg || item is RealtimeItem) ==> r,
        item is RealtimeItem ==> (r <==> history_mode == ThreadHistoryMode::Paginated),
{
    match item {
        RolloutItem::ResponseItem(item) => should_persist_response_item(&item.item),
        RolloutItem::InterAgentCommunication(_)
        | RolloutItem::InterAgentCommunicationMetadata(_) => true,
        RolloutItem::EventMsg(ev) => should_persist_event_msg(ev, history_mode),
        RolloutItem::RealtimeItem(_) => history_mode == ThreadHistoryMode::Paginated,
        // Persist executive markers so that flows (compaction, API turns) can be analyzed.
        RolloutItem::Compacted(_)
        | RolloutItem::TurnContext(_)
        | RolloutItem::WorldState(_)
        | RolloutItem::SecurityRiskScore(_)
        | RolloutItem::SessionMeta(_) => true,
    }
}

/// What stands in persisted history for an inline image in tool output.
pub const OMITTED_INLINE_TOOL_IMAGE: &'static str = "[inline tool image omitted from persisted history]";

/// What stands in persisted history for inline audio in tool output.
pub const OMITTED_INLINE_TOOL_AUDIO: &'static str = "[inline tool audio omitted from persisted history]";

/// What stands in persisted history for an inline image a user sent.
pub const OMITTED_INLINE_USER_IMAGE: &'static str = "[inline user image omitted from persisted history]";

/// What stands in persisted history for inline audio a user sent.
pub const OMITTED_INLINE_USER_AUDIO: &'static str = "[inline user audio omitted from persisted history]";

/// What stands in persisted history for inline media in an MCP tool result.
pub const OMITTED_INLINE_TOOL_MEDIA: &'static str = "[inline tool media omitted from persisted history]";

/// Whether tool output audio is held inline: its URL begins with
/// `data:audio/`, in that case.
pub open spec fn spec_is_inline_tool_audio(url: Seq<char>) -> bool {
    spec_starts_with(url, "data:audio/"@)
}

/// Whether tool output audio is held inline: its URL begins with
/// `data:audio/`, in that case.
pub fn is_inline_tool_audio(url: &str) -> (r: bool)
    ensures
        r == spec_is_inline_tool_audio(url@),
        r <==> "data:audio/"@.is_prefix_of(url@),
{
    let r = starts_with(url, "data:audio/");
    proof {
        lemma_data_audio_prefix(url@);
    }
    r
}

/// Tool output audio is inline exactly when its URL begins, character for
/// character, with `data:audio/`.
pub proof fn lemma_data_audio_prefix(url: Seq<char>)
    ensures
        spec_starts_with(url, "data:audio/"@) <==> "data:audio/"@.is_prefix_of(url),
{
    let p = "data:audio/"@;
    reveal_strlit("data:audio/");
    assert(vstd::utf8::is_ascii_chars(p));
    lemma_ascii_prefix(url, p);
}

/// `b` is the tool output item `a` with inline media replaced by a text
/// placeholder: an image with a `data:` URL in any case, or audio whose URL
/// begins with `data:audio/`.
pub open spec fn tool_item_without_media(
    a: FunctionCallOutputContentItem,
    b: FunctionCallOutputContentItem,
) -> bool {
    match a {
        FunctionCallOutputContentItem::InputImage { image_url, .. } => if spec_has_data_scheme(
            image_url@,
        ) {
            b matches FunctionCallOutputContentItem::InputText { text } && text@
                == OMITTED_INLINE_TOOL_IMAGE@
        } else {
            b == a
        },
        FunctionCallOutputContentItem::InputAudio { audio_url } => if spec_is_inline_tool_audio(
            audio_url@,
        ) {
            b matches FunctionCallOutputContentItem::InputText { text } && text@
                == OMITTED_INLINE_TOOL_AUDIO@
        } else {
            b == a
        },
        _ => b == a,
    }
}

/// Item by item, `b` is `a` without inline media.
pub open spec fn tool_items_without_media(
    a: Seq<FunctionCallOutputContentItem>,
    b: Seq<FunctionCallOutputContentItem>,
) -> bool {
    &&& b.len() == a.len()
    &&& forall|i: int| 0 <= i < a.len() ==> tool_item_without_media(#[trigger] a[i], b[i])
}

/// `b` is the output body `a` without inline media: text bodies are kept.
pub open spec fn body_without_media(a: FunctionCallOutputBody, b: FunctionCallOutputBody) -> bool {
    match a {
        FunctionCallOutputBody::Text(_) => b == a,
        FunctionCallOutputBody::ContentItems(items) => b matches FunctionCallOutputBody::ContentItems(
            kept,
        ) && tool_items_without_media(items@, kept@),
    }
}

/// `b` is the tool output `a` without inline media.
pub open spec fn output_without_media(a: FunctionCallOutputPayload, b: FunctionCallOutputPayload) -> bool {
    b.success == a.success && body_without_media(a.body, b.body)
}

/// `b` is the message content item `a` with inline media replaced by a text
/// placeholder.
pub open spec fn content_item_without_media(a: ContentItem, b: ContentItem) -> bool {
    match a {
        ContentItem::InputImage { image_url, .. } => if spec_has_data_scheme(image_url@) {
            b matches ContentItem::InputText { text } && text@ == OMITTED_INLINE_USER_IMAGE@
        } else {
            b == a
        },
        ContentItem::InputAudio { audio_url } => if spec_has_data_scheme(audio_url@) {
            b matches ContentItem::InputText { text } && text@ == OMITTED_INLINE_USER_AUDIO@
        } else {
            b == a
        },
        _ => b == a,
    }
}

/// Item by item, `b` is `a` without inline media.
pub open spec fn content_items_without_media(a: Seq<ContentItem>, b: Seq<ContentItem>) -> bool {
    &&& b.len() == a.len()
    &&& forall|i: int| 0 <= i < a.len() ==> content_item_without_media(#[trigger] a[i], b[i])
}

/// `b` is the response item `a` without inline media: message and tool
/// output media replaced, a generated image's bytes cleared, all else kept.
pub open spec fn response_without_media(a: ResponseItem, b: ResponseItem) -> bool {
    match a {
        ResponseItem::Message {
            id,
            role,
            content,
            phase,
            internal_chat_message_metadata_passthrough: meta,
        } => b matches ResponseItem::Message {
            id: id2,
            role: role2,
            content: content2,
            phase: phase2,
            internal_chat_message_metadata_passthrough: meta2,
        } && id2 == id && role2 == role && phase2 == phase && meta2 == meta
            && content_items_without_media(content@, content2@),
        ResponseItem::FunctionCallOutput {
            id,
            call_id,
            name,
            namespace,
            output,
            internal_chat_message_metadata_passthrough: meta,
        } => b matches ResponseItem::FunctionCallOutput {
            id: id2,
            call_id: call_id2,
            name: name2,
            namespace: namespace2,
            output: output2,
            internal_chat_message_metadata_passthrough: meta2,
        } && id2 == id && call_id2 == call_id && name2 == name && namespace2 == namespace && meta2
            == meta && output_without_media(output, output2),
        ResponseItem::CustomToolCallOutput {
            id,
            call_id,
            name,
            output,
            internal_chat_message_metadata_passthrough: meta,
        } => b matches ResponseItem::CustomToolCallOutput {
            id: id2,
            call_id: call_id2,
            name: name2,
            output: output2,
            internal_chat_message_metadata_passthrough: meta2,
        } && id2 == id && call_id2 == call_id && name2 == name && meta2 == meta
            && output_without_media(output, output2),
        ResponseItem::ImageGenerationCall {
            id,
            status,
            revised_prompt,
            result: _,
            internal_chat_message_metadata_passthrough: meta,
        } => b matches ResponseItem::ImageGenerationCall {
            id: id2,
            status: status2,
            revised_prompt: revised_prompt2,
            result: result2,
            internal_chat_message_metadata_passthrough: meta2,
        } && id2 == id && status2 == status && revised_prompt2 == revised_prompt && meta2 == meta
            && result2@ == Seq::<char>::empty(),
        _ => b == a,
    }
}

/// `b` is the envelope `a` with its item without inline media.
pub open spec fn envelope_without_media(a: ResponseItemEnvelope, b: ResponseItemEnvelope) -> bool {
    b.metadata == a.metadata && response_without_media(a.item, b.item)
}

/// Envelope by envelope, `b` is `a` without inline media.
pub open spec fn envelopes_without_media(
    a: Seq<ResponseItemEnvelope>,
    b: Seq<ResponseItemEnvelope>,
) -> bool {
    &&& b.len() == a.len()
    &&& forall|i: int| 0 <= i < a.len() ==> envelope_without_media(#[trigger] a[i], b[i])
}

/// `b` is the user input `a` with inline media replaced by a text
/// placeholder.
pub open spec fn user_input_without_media(a: UserInput, b: UserInput) -> bool {
    match a {
        UserInput::Image { image_url, .. } => if spec_has_data_scheme(image_url@) {
            b matches UserInput::Text { text, text_elements } && text@ == OMITTED_INLINE_USER_IMAGE@
                && text_elements@.len() == 0
        } else {
            b == a
        },
        UserInput::Audio { audio_url } => if spec_has_data_scheme(audio_url@) {
            b matches UserInput::Text { text, text_elements } && text@ == OMITTED_INLINE_USER_AUDIO@
                && text_elements@.len() == 0
        } else {
            b == a
        },
        _ => b == a,
    }
}

/// Input by input, `b` is `a` without inline media.
pub open spec fn user_inputs_without_media(a: Seq<UserInput>, b: Seq<UserInput>) -> bool {
    &&& b.len() == a.len()
    &&& forall|i: int| 0 <= i < a.len() ==> user_input_without_media(#[trigger] a[i], b[i])
}

/// `b` is the dynamic tool output item `a` with inline media replaced by a
/// text placeholder: an image with a `data:` URL in any case, or audio whose
/// URL begins with `data:audio/`.
pub open spec fn dynamic_item_without_media(
    a: DynamicToolCallOutputContentItem,
    b: DynamicToolCallOutputContentItem,
) -> bool {
    match a {
        DynamicToolCallOutputContentItem::InputImage { image_url } => if spec_has_data_scheme(
            image_url@,
        ) {
            b matches DynamicToolCallOutputContentItem::InputText { text } && text@
                == OMITTED_INLINE_TOOL_IMAGE@
        } else {
            b == a
        },
        DynamicToolCallOutputContentItem::InputAudio { audio_url } => if spec_is_inline_tool_audio(
            audio_url@,
        ) {
            b matches DynamicToolCallOutputContentItem::InputText { text } && text@
                == OMITTED_INLINE_TOOL_AUDIO@
        } else {
            b == a
        },
        _ => b == a,
    }
}

/// Item by item, `b` is `a` without inline media.
pub open spec fn dynamic_items_without_media(
    a: Seq<DynamicToolCallOutputContentItem>,
    b: Seq<DynamicToolCallOutputContentItem>,
) -> bool {
    &&& b.len() == a.len()
    &&& forall|i: int| 0 <= i < a.len() ==> dynamic_item_without_media(#[trigger] a[i], b[i])
}

/// `b` is the optional JSON value `a` without inline media.
pub open spec fn optional_json_without_media(
    a: Option<JsonValue>,
    b: Option<JsonValue>,
    placeholder: Seq<char>,
) -> bool {
    match a {
        None => b is None,
        Some(v) => b matches Some(w) && json_without_media(v, w, placeholder),
    }
}

/// `b` is the MCP tool result `a` with inline media in its content,
/// structured content and metadata replaced.
pub open spec fn call_result_without_media(a: CallToolResult, b: CallToolResult) -> bool {
    &&& b.is_error == a.is_error
    &&& b.content@.len() == a.content@.len()
    &&& forall|i: int|
        0 <= i < a.content@.len() ==> json_without_media(
            #[trigger] a.content@[i],
            b.content@[i],
            OMITTED_INLINE_TOOL_MEDIA@,
        )
    &&& optional_json_without_media(
        a.structured_content,
        b.structured_content,
        OMITTED_INLINE_TOOL_MEDIA@,
    )
    &&& optional_json_without_media(a.meta, b.meta, OMITTED_INLINE_TOOL_MEDIA@)
}

/// `b` is the turn item `a` without inline media: user and tool media
/// replaced, generated image bytes cleared, MCP and web search results
/// filtered, all else kept.
pub open spec fn turn_item_without_media(a: TurnItem, b: TurnItem) -> bool {
    match a {
        TurnItem::UserMessage(u) => b matches TurnItem::UserMessage(v) && v.id == u.id
            && v.client_id == u.client_id && user_inputs_without_media(u.content@, v.content@),
        TurnItem::ImageGeneration(i) => b matches TurnItem::ImageGeneration(j) && j.id == i.id
            && j.status == i.status && j.revised_prompt == i.revised_prompt && j.saved_path
            == i.saved_path && j.result@ == Seq::<char>::empty(),
        TurnItem::FunctionCallOutput(f) => b matches TurnItem::FunctionCallOutput(g) && g.id == f.id
            && g.name == f.name && g.namespace == f.namespace && body_without_media(
            f.output,
            g.output,
        ),
        TurnItem::DynamicToolCall(d) => b matches TurnItem::DynamicToolCall(e) && e.id == d.id
            && e.namespace == d.namespace && e.tool == d.tool && e.arguments == d.arguments
            && e.status == d.status && e.success == d.success && e.error == d.error && e.duration
            == d.duration && match d.content_items {
            None => e.content_items is None,
            Some(items) => e.content_items matches Some(kept) && dynamic_items_without_media(
                items@,
                kept@,
            ),
        },
        TurnItem::McpToolCall(m) => b matches TurnItem::McpToolCall(n) && n.id == m.id && n.server
            == m.server && n.tool == m.tool && n.arguments == m.arguments && n.connector_id
            == m.connector_id && n.mcp_app_resource_uri == m.mcp_app_resource_uri && n.link_id
            == m.link_id && n.app_name == m.app_name && n.action_name == m.action_name
            && n.plugin_id == m.plugin_id && n.read_only_hint == m.read_only_hint && n.status
            == m.status && n.error == m.error && n.duration == m.duration && match m.result {
            None => n.result is None,
            Some(r) => n.result matches Some(s) && call_result_without_media(r, s),
        },
        TurnItem::Extension(ExtensionItem::ImageGeneration(i)) => b matches TurnItem::Extension(
            ExtensionItem::ImageGeneration(j),
        ) && j.id == i.id && j.status == i.status && j.revised_prompt == i.revised_prompt
            && j.transparent_background == i.transparent_background && j.failure == i.failure
            && j.saved_path == i.saved_path && j.imagegen_request_id == i.imagegen_request_id
            && j.result@ == Seq::<char>::empty(),
        TurnItem::Extension(ExtensionItem::WebSearch(w)) => b matches TurnItem::Extension(
            ExtensionItem::WebSearch(x),
        ) && x.id == w.id && x.query == w.query && x.action == w.action
            && optional_results_without_media(w.results, x.results),
        _ => b == a,
    }
}

/// `urls` without the `data:` URLs, in order.
pub open spec fn urls_without_data(urls: Seq<String>) -> Seq<String>
    decreases urls.len(),
{
    if urls.len() == 0 {
        Seq::empty()
    } else {
        urls_without_data(urls.drop_last()) + if spec_has_data_scheme(urls.last()@) {
            Seq::empty()
        } else {
            seq![urls.last()]
        }
    }
}

/// The details that stay aligned with `urls_without_data(urls)`: the detail
/// at a position whose URL is a `data:` URL goes with it.
pub open spec fn details_aligned(urls: Seq<String>, details: Seq<Option<ImageDetail>>) -> Seq<
    Option<ImageDetail>,
>
    decreases details.len(),
{
    if details.len() == 0 {
        Seq::empty()
    } else {
        let i = details.len() - 1;
        details_aligned(urls, details.drop_last()) + if i < urls.len() && spec_has_data_scheme(
            urls[i]@,
        ) {
            Seq::empty()
        } else {
            seq![details.last()]
        }
    }
}

/// The URLs of an optional list, none when there is no list.
pub open spec fn optional_urls(urls: Option<Vec<String>>) -> Seq<String> {
    match urls {
        Some(v) => v@,
        None => Seq::empty(),
    }
}

/// `b` is the optional URL list `a` without its `data:` URLs.
pub open spec fn optional_urls_without_data(a: Option<Vec<String>>, b: Option<Vec<String>>) -> bool {
    match a {
        None => b is None,
        Some(v) => b matches Some(w) && w@ == urls_without_data(v@),
    }
}

/// `b` is the legacy user message `a` without its inline image and audio
/// URLs, each image's detail kept beside its image; local files and text
/// are kept.
pub open spec fn legacy_user_message_without_media(a: UserMessageEvent, b: UserMessageEvent) -> bool {
    &&& b.client_id == a.client_id
    &&& b.message == a.message
    &&& optional_urls_without_data(a.images, b.images)
    &&& b.image_details@ == details_aligned(optional_urls(a.images), a.image_details@)
    &&& b.local_images == a.local_images
    &&& b.local_image_details == a.local_image_details
    &&& optional_urls_without_data(a.audio, b.audio)
    &&& b.local_audio == a.local_audio
    &&& b.text_elements == a.text_elements
}

/// `b` is the event `a` without inline media.
pub open spec fn event_without_media(a: EventMsg, b: EventMsg) -> bool {
    match a {
        EventMsg::ItemCompleted(e) => b matches EventMsg::ItemCompleted(f) && f.thread_id
            == e.thread_id && f.turn_id == e.turn_id && f.started_at_ms == e.started_at_ms
            && f.completed_at_ms == e.completed_at_ms && turn_item_without_media(e.item, f.item),
        EventMsg::ImageGenerationEnd(e) => b matches EventMsg::ImageGenerationEnd(f) && f.call_id
            == e.call_id && f.status == e.status && f.revised_prompt == e.revised_prompt
            && f.transparent_background == e.transparent_background && f.failure == e.failure
            && f.saved_path == e.saved_path && f.result@ == Seq::<char>::empty(),
        EventMsg::UserMessage(e) => b matches EventMsg::UserMessage(f)
            && legacy_user_message_without_media(e, f),
        EventMsg::McpToolCallEnd(e) => b matches EventMsg::McpToolCallEnd(f) && f.call_id
            == e.call_id && f.invocation == e.invocation && f.connector_id == e.connector_id
            && f.mcp_app_resource_uri == e.mcp_app_resource_uri && f.link_id == e.link_id
            && f.app_name == e.app_name && f.action_name == e.action_name && f.plugin_id
            == e.plugin_id && f.read_only_hint == e.read_only_hint && f.duration == e.duration
            && match e.result {
            Ok(r) => f.result matches Ok(s) && call_result_without_media(r, s),
            Err(_) => f.result == e.result,
        },
        EventMsg::WebSearchEnd(e) => b matches EventMsg::WebSearchEnd(f) && f.call_id == e.call_id
            && f.query == e.query && f.action == e.action && optional_results_without_media(
            e.results,
            f.results,
        ),
        _ => b == a,
    }
}

/// `b` is the compaction `a` with its replacement history without inline
/// media.
pub open spec fn compacted_without_media(a: CompactedItem, b: CompactedItem) -> bool {
    &&& b.message == a.message
    &&& match a.replacement_history {
        None => b.replacement_history is None,
        Some(h) => b.replacement_history matches Some(k) && envelopes_without_media(h@, k@),
    }
    &&& b.guardian_history == a.guardian_history
    &&& b.mcp_resource_origins == a.mcp_resource_origins
    &&& b.window_number == a.window_number
    &&& b.first_window_id == a.first_window_id
    &&& b.previous_window_id == a.previous_window_id
    &&& b.window_id == a.window_id
    &&& b.compaction_response_id == a.compaction_response_id
    &&& b.latest_token_usage_record == a.latest_token_usage_record
}

/// `b` is the rollout item `a` prepared for durable storage: the same item
/// with its inline media payloads removed.
pub open spec fn rollout_without_media(a: RolloutItem, b: RolloutItem) -> bool {
    match a {
        RolloutItem::ResponseItem(e) => b matches RolloutItem::ResponseItem(f)
            && envelope_without_media(e, f),
        RolloutItem::Compacted(c) => b matches RolloutItem::Compacted(d) && compacted_without_media(
            c,
            d,
        ),
        RolloutItem::EventMsg(e) => b matches RolloutItem::EventMsg(f) && event_without_media(e, f),
        _ => b == a,
    }
}

fn clone_function_output_item_without_inline_media(
    item: FunctionCallOutputContentItem,
) -> (r: FunctionCallOutputContentItem)
    ensures
        tool_item_without_media(item, r),
{
    match item {
        FunctionCallOutputContentItem::InputImage { image_url, detail } => {
            if has_data_scheme(image_url.as_str()) {
                FunctionCallOutputContentItem::InputText { text: OMITTED_INLINE_TOOL_IMAGE.to_owned() }
            } else {
                FunctionCallOutputContentItem::InputImage { image_url, detail }
            }
        },
        FunctionCallOutputContentItem::InputAudio { audio_url } => {
            if is_inline_tool_audio(audio_url.as_str()) {
                FunctionCallOutputContentItem::InputText { text: OMITTED_INLINE_TOOL_AUDIO.to_owned() }
            } else {
                FunctionCallOutputContentItem::InputAudio { audio_url }
            }
        },
        other => other,
    }
}

fn tool_items_without_inline_media(items: Vec<FunctionCallOutputContentItem>) -> (r: Vec<
    FunctionCallOutputContentItem,
>)
    ensures
        tool_items_without_media(items@, r@),
{
    let ghost orig = items@;
    let mut out: Vec<FunctionCallOutputContentItem> = Vec::new();
    for x in it: items
        invariant
            it.seq() == orig,
            out@.len() == it.index(),
            forall|j: int| 0 <= j < it.index() ==> tool_item_without_media(orig[j], #[trigger] out@[j]),
    {
        out.push(clone_function_output_item_without_inline_media(x));
    }
    out
}

fn body_without_inline_media(body: FunctionCallOutputBody) -> (r: FunctionCallOutputBody)
    ensures
        body_without_media(body, r),
{
    match body {
        FunctionCallOutputBody::Text(text) => FunctionCallOutputBody::Text(text),
        FunctionCallOutputBody::ContentItems(items) => FunctionCallOutputBody::ContentItems(
            tool_items_without_inline_media(items),
        ),
    }
}

fn clone_output_without_inline_media(output: FunctionCallOutputPayload) -> (r: FunctionCallOutputPayload)
    ensures
        output_without_media(output, r),
{
    FunctionCallOutputPayload { body: body_without_inline_media(output.body), success: output.success }
}

fn content_item_without_inline_media(item: ContentItem) -> (r: ContentItem)
    ensures
        content_item_without_media(item, r),
{
    match item {
        ContentItem::InputImage { image_url, detail } => {
            if has_data_scheme(image_url.as_str()) {
                ContentItem::InputText { text: OMITTED_INLINE_USER_IMAGE.to_owned() }
            } else {
                ContentItem::InputImage { image_url, detail }
            }
        },
        ContentItem::InputAudio { audio_url } => {
            if has_data_scheme(audio_url.as_str()) {
                ContentItem::InputText { text: OMITTED_INLINE_USER_AUDIO.to_owned() }
            } else {
                ContentItem::InputAudio { audio_url }
            }
        },
        other => other,
    }
}

fn content_items_without_inline_media(items: Vec<ContentItem>) -> (r: Vec<ContentItem>)
    ensures
        content_items_without_media(items@, r@),
{
    let ghost orig = items@;
    let mut out: Vec<ContentItem> = Vec::new();
    for x in it: items
        invariant
            it.seq() == orig,
            out@.len() == it.index(),
            forall|j: int| 0 <= j < it.index() ==> content_item_without_media(orig[j], #[trigger] out@[j]),
    {
        out.push(content_item_without_inline_media(x));
    }
    out
}

fn clone_response_without_inline_media(item: ResponseItem) -> (r: ResponseItem)
    ensures
        response_without_media(item, r),
{
    match item {
        ResponseItem::Message { id, role, content, phase, internal_chat_message_metadata_passthrough } => {
            ResponseItem::Message {
                id,
                role,
                content: content_items_without_inline_media(content),
                phase,
                internal_chat_message_metadata_passthrough,
            }
        },
        ResponseItem::ImageGenerationCall {
            id,
            status,
            revised_prompt,
            internal_chat_message_metadata_passthrough,
            ..
        } => ResponseItem::ImageGenerationCall {
            id,
            status,
            revised_prompt,
            result: String::new(),
            internal_chat_message_metadata_passthrough,
        },
        ResponseItem::FunctionCallOutput {
            id,
            call_id,
            name,
            namespace,
            output,
            internal_chat_message_metadata_passthrough,
        } => ResponseItem::FunctionCallOutput {
            id,
            call_id,
            name,
            namespace,
            output: clone_output_without_inline_media(output),
            internal_chat_message_metadata_passthrough,
        },
        ResponseItem::CustomToolCallOutput {
            id,
            call_id,
            name,
            output,
            internal_chat_message_metadata_passthrough,
        } => ResponseItem::CustomToolCallOutput {
            id,
            call_id,
            name,
            output: clone_output_without_inline_media(output),
            internal_chat_message_metadata_passthrough,
        },
        other => other,
    }
}

/// The envelope with its response item prepared for durable storage.
pub fn clone_response_envelope_without_inline_media(envelope: ResponseItemEnvelope) -> (r:
    ResponseItemEnvelope)
    ensures
        envelope_without_media(envelope, r),
{
    ResponseItemEnvelope {
        item: clone_response_without_inline_media(envelope.item),
        metadata: envelope.metadata,
    }
}

fn envelopes_without_inline_media(envelopes: Vec<ResponseItemEnvelope>) -> (r: Vec<ResponseItemEnvelope>)
    ensures
        envelopes_without_media(envelopes@, r@),
{
    let ghost orig = envelopes@;
    let mut out: Vec<ResponseItemEnvelope> = Vec::new();
    for x in it: envelopes
        invariant
            it.seq() == orig,
            out@.len() == it.index(),
            forall|j: int| 0 <= j < it.index() ==> envelope_without_media(orig[j], #[trigger] out@[j]),
    {
        out.push(clone_response_envelope_without_inline_media(x));
    }
    out
}

fn user_input_without_inline_media(input: UserInput) -> (r: UserInput)
    ensures
        user_input_without_media(input, r),
{
    match input {
        UserInput::Image { image_url, detail } => {
            if has_data_scheme(image_url.as_str()) {
                UserInput::Text { text: OMITTED_INLINE_USER_IMAGE.to_owned(), text_elements: Vec::new() }
            } else {
                UserInput::Image { image_url, detail }
            }
        },
        UserInput::Audio { audio_url } => {
            if has_data_scheme(audio_url.as_str()) {
                UserInput::Text { text: OMITTED_INLINE_USER_AUDIO.to_owned(), text_elements: Vec::new() }
            } else {
                UserInput::Audio { audio_url }
            }
        },
        other => other,
    }
}

fn user_inputs_without_inline_media(inputs: Vec<UserInput>) -> (r: Vec<UserInput>)
    ensures
        user_inputs_without_media(inputs@, r@),
{
    let ghost orig = inputs@;
    let mut out: Vec<UserInput> = Vec::new();
    for x in it: inputs
        invariant
            it.seq() == orig,
            out@.len() == it.index(),
            forall|j: int| 0 <= j < it.index() ==> user_input_without_media(orig[j], #[trigger] out@[j]),
    {
        out.push(user_input_without_inline_media(x));
    }
    out
}

fn clone_dynamic_tool_item_without_inline_media(
    item: DynamicToolCallOutputContentItem,
) -> (r: DynamicToolCallOutputContentItem)
    ensures
        dynamic_item_without_media(item, r),
{
    match item {
        DynamicToolCallOutputContentItem::InputImage { image_url } => {
            if has_data_scheme(image_url.as_str()) {
                DynamicToolCallOutputContentItem::InputText { text: OMITTED_INLINE_TOOL_IMAGE.to_owned() }
            } else {
                DynamicToolCallOutputContentItem::InputImage { image_url }
            }
        },
        DynamicToolCallOutputContentItem::InputAudio { audio_url } => {
            if is_inline_tool_audio(audio_url.as_str()) {
                DynamicToolCallOutputContentItem::InputText { text: OMITTED_INLINE_TOOL_AUDIO.to_owned() }
            } else {
                DynamicToolCallOutputContentItem::InputAudio { audio_url }
            }
        },
        other => other,
    }
}

fn dynamic_items_without_inline_media(items: Vec<DynamicToolCallOutputContentItem>) -> (r: Vec<
    DynamicToolCallOutputContentItem,
>)
    ensures
        dynamic_items_without_media(items@, r@),
{
    let ghost orig = items@;
    let mut out: Vec<DynamicToolCallOutputContentItem> = Vec::new();
    for x in it: items
        invariant
            it.seq() == orig,
            out@.len() == it.index(),
            forall|j: int| 0 <= j < it.index() ==> dynamic_item_without_media(orig[j], #[trigger] out@[j]),
    {
        out.push(clone_dynamic_tool_item_without_inline_media(x));
    }
    out
}

fn optional_json_without_inline_media(value: Option<JsonValue>, placeholder: &str) -> (r: Option<
    JsonValue,
>)
    ensures
        optional_json_without_media(value, r, placeholder@),
{
    match value {
        Some(v) => Some(value_without_media(v, placeholder)),
        None => None,
    }
}

fn call_result_without_inline_media(result: CallToolResult) -> (r: CallToolResult)
    ensures
        call_result_without_media(result, r),
{
    let ghost orig = result.content@;
    let mut content: Vec<JsonValue> = Vec::new();
    for x in it: result.content
        invariant
            it.seq() == orig,
            content@.len() == it.index(),
            forall|j: int|
                0 <= j < it.index() ==> json_without_media(
                    orig[j],
                    #[trigger] content@[j],
                    OMITTED_INLINE_TOOL_MEDIA@,
                ),
    {
        content.push(value_without_media(x, OMITTED_INLINE_TOOL_MEDIA));
    }
    CallToolResult {
        content,
        structured_content: optional_json_without_inline_media(
            result.structured_content,
            OMITTED_INLINE_TOOL_MEDIA,
        ),
        is_error: result.is_error,
        meta: optional_json_without_inline_media(result.meta, OMITTED_INLINE_TOOL_MEDIA),
    }
}

fn clone_turn_item_without_inline_media(item: TurnItem) -> (r: TurnItem)
    ensures
        turn_item_without_media(item, r),
{
    match item {
        TurnItem::UserMessage(u) => TurnItem::UserMessage(
            UserMessageItem {
                id: u.id,
                client_id: u.client_id,
                content: user_inputs_without_inline_media(u.content),
            },
        ),
        TurnItem::Extension(ExtensionItem::ImageGeneration(image)) => TurnItem::Extension(
            ExtensionItem::ImageGeneration(
                ExtensionImageGenerationItem {
                    id: image.id,
                    status: image.status,
                    revised_prompt: image.revised_prompt,
                    result: String::new(),
                    transparent_background: image.transparent_background,
                    failure: image.failure,
                    saved_path: image.saved_path,
                    imagegen_request_id: image.imagegen_request_id,
                },
            ),
        ),
        TurnItem::Extension(ExtensionItem::WebSearch(search)) => TurnItem::Extension(
            ExtensionItem::WebSearch(search.without_inline_media()),
        ),
        TurnItem::ImageGeneration(image) => TurnItem::ImageGeneration(
            ImageGenerationItem {
                id: image.id,
                status: image.status,
                revised_prompt: image.revised_prompt,
                result: String::new(),
                saved_path: image.saved_path,
            },
        ),
        TurnItem::FunctionCallOutput(f) => TurnItem::FunctionCallOutput(
            FunctionCallOutputItem {
                id: f.id,
                name: f.name,
                namespace: f.namespace,
                output: body_without_inline_media(f.output),
            },
        ),
        TurnItem::DynamicToolCall(d) => TurnItem::DynamicToolCall(
            DynamicToolCallItem {
                id: d.id,
                namespace: d.namespace,
                tool: d.tool,
                arguments: d.arguments,
                status: d.status,
                content_items: match d.content_items {
                    Some(items) => Some(dynamic_items_without_inline_media(items)),
                    None => None,
                },
                success: d.success,
                error: d.error,
                duration: d.duration,
            },
        ),
        TurnItem::McpToolCall(m) => TurnItem::McpToolCall(
            McpToolCallItem {
                id: m.id,
                server: m.server,
                tool: m.tool,
                arguments: m.arguments,
                connector_id: m.connector_id,
                mcp_app_resource_uri: m.mcp_app_resource_uri,
                link_id: m.link_id,
                app_name: m.app_name,
                action_name: m.action_name,
                plugin_id: m.plugin_id,
                read_only_hint: m.read_only_hint,
                status: m.status,
                result: match m.result {
                    Some(r) => Some(call_result_without_inline_media(r)),
                    None => None,
                },
                error: m.error,
                duration: m.duration,
            },
        ),
        other => other,
    }
}

fn urls_without_inline_media(urls: Vec<String>) -> (r: Vec<String>)
    ensures
        r@ == urls_without_data(urls@),
{
    let ghost orig = urls@;
    let mut out: Vec<String> = Vec::new();
    for url in it: urls
        invariant
            it.seq() == orig,
            out@ == urls_without_data(orig.take(it.index() as int)),
    {
        let ghost k = it.index() as int;
        assert(orig.take(k + 1).drop_last() =~= orig.take(k));
        if !has_data_scheme(url.as_str()) {
            out.push(url);
        }
        assert(out@ =~= urls_without_data(orig.take(k + 1)));
    }
    assert(orig.take(orig.len() as int) =~= orig);
    out
}

fn optional_urls_without_inline_media(urls: Option<Vec<String>>) -> (r: Option<Vec<String>>)
    ensures
        optional_urls_without_data(urls, r),
{
    match urls {
        Some(v) => Some(urls_without_inline_media(v)),
        None => None,
    }
}

fn details_aligned_with_urls(urls: &Option<Vec<String>>, details: Vec<Option<ImageDetail>>) -> (r: Vec<
    Option<ImageDetail>,
>)
    ensures
        r@ == details_aligned(optional_urls(*urls), details@),
{
    let ghost orig = details@;
    let ghost us = optional_urls(*urls);
    let mut out: Vec<Option<ImageDetail>> = Vec::new();
    let mut i: usize = 0;
    let n = details.len();
    for detail in it: details
        invariant
            it.seq() == orig,
            orig.len() == n,
            us == optional_urls(*urls),
            i == it.index(),
            out@ == details_aligned(us, orig.take(it.index() as int)),
    {
        let ghost k = it.index() as int;
        assert(orig.take(k + 1).drop_last() =~= orig.take(k));
        let dropped = match urls {
            Some(v) => i < v.len() && has_data_scheme(v[i].as_str()),
            None => false,
        };
        if !dropped {
            out.push(detail);
        }
        assert(out@ =~= details_aligned(us, orig.take(k + 1)));
        i = i + 1;
    }
    assert(orig.take(orig.len() as int) =~= orig);
    out
}

fn legacy_user_message_without_inline_media(event: UserMessageEvent) -> (r: UserMessageEvent)
    ensures
        legacy_user_message_without_media(event, r),
{
    let image_details = details_aligned_with_urls(&event.images, event.image_details);
    UserMessageEvent {
        client_id: event.client_id,
        message: event.message,
        images: optional_urls_without_inline_media(event.images),
        image_details,
        local_images: event.local_images,
        local_image_details: event.local_image_details,
        audio: optional_urls_without_inline_media(event.audio),
        local_audio: event.local_audio,
        text_elements: event.text_elements,
    }
}

fn clone_event_without_inline_media(event: EventMsg) -> (r: EventMsg)
    ensures
        event_without_media(event, r),
{
    match event {
        EventMsg::ItemCompleted(e) => EventMsg::ItemCompleted(
            crate::protocol::ItemCompletedEvent {
                thread_id: e.thread_id,
                turn_id: e.turn_id,
                item: clone_turn_item_without_inline_media(e.item),
                started_at_ms: e.started_at_ms,
                completed_at_ms: e.completed_at_ms,
            },
        ),
        EventMsg::ImageGenerationEnd(e) => EventMsg::ImageGenerationEnd(
            ImageGenerationEndEvent {
                call_id: e.call_id,
                status: e.status,
                revised_prompt: e.revised_prompt,
                result: String::new(),
                transparent_background: e.transparent_background,
                failure: e.failure,
                saved_path: e.saved_path,
            },
        ),
        EventMsg::UserMessage(e) => EventMsg::UserMessage(legacy_user_message_without_inline_media(e)),
        EventMsg::McpToolCallEnd(e) => EventMsg::McpToolCallEnd(
            McpToolCallEndEvent {
                call_id: e.call_id,
                invocation: e.invocation,
                connector_id: e.connector_id,
                mcp_app_resource_uri: e.mcp_app_resource_uri,
                link_id: e.link_id,
                app_name: e.app_name,
                action_name: e.action_name,
                plugin_id: e.plugin_id,
                read_only_hint: e.read_only_hint,
                duration: e.duration,
                result: match e.result {
                    Ok(r) => Ok(call_result_without_inline_media(r)),
                    Err(message) => Err(message),
                },
            },
        ),
        EventMsg::WebSearchEnd(e) => EventMsg::WebSearchEnd(
            WebSearchEndEvent {
                call_id: e.call_id,
                query: e.query,
                action: e.action,
                results: match e.results {
                    Some(results) => Some(results_without_inline_media(results)),
                    None => None,
                },
            },
        ),
        other => other,
    }
}

/// The rollout item prepared for durable storage: inline media payloads in
/// response items, compacted history and events are removed.
pub fn clone_without_inline_media_payloads(item: RolloutItem) -> (r: RolloutItem)
    ensures
        rollout_without_media(item, r),
{
    match item {
        RolloutItem::ResponseItem(envelope) => RolloutItem::ResponseItem(
            clone_response_envelope_without_inline_media(envelope),
        ),
        RolloutItem::Compacted(compacted) => RolloutItem::Compacted(
            CompactedItem {
                message: compacted.message,
                replacement_history: match compacted.replacement_history {
                    Some(history) => Some(envelopes_without_inline_media(history)),
                    None => None,
                },
                guardian_history: compacted.guardian_history,
                mcp_resource_origins: compacted.mcp_resource_origins,
                window_number: compacted.window_number,
                first_window_id: compacted.first_window_id,
                previous_window_id: compacted.previous_window_id,
                window_id: compacted.window_id,
                compaction_response_id: compacted.compaction_response_id,
                latest_token_usage_record: compacted.latest_token_usage_record,
            },
        ),
        RolloutItem::EventMsg(event) => RolloutItem::EventMsg(clone_event_without_inline_media(event)),
        other => other,
    }
}

/// Returns the rollout item prepared for durable storage, or `None` when it
/// is transient. This is the single-item persistence boundary: an item is
/// never kept without also having its inline media removed.
pub fn persisted_rollout_item(item: RolloutItem, history_mode: ThreadHistoryMode) -> (r: Option<
    RolloutItem,
>)
    ensures
        r is Some <==> spec_is_persisted_rollout_item(item, history_mode),
        r matches Some(kept) ==> rollout_without_media(item, kept),
{
    if !is_persisted_rollout_item(&item, history_mode) {
        return None;
    }
    Some(clone_without_inline_media_payloads(item))
}

/// `b` is what persistence writes for the items `a`: in order, each item
/// that the history mode keeps, prepared for durable storage.
pub open spec fn persisted_items(a: Seq<RolloutItem>, b: Seq<RolloutItem>, mode: ThreadHistoryMode) -> bool
    decreases a.len(),
{
    if a.len() == 0 {
        b.len() == 0
    } else if spec_is_persisted_rollout_item(a.last(), mode) {
        &&& b.len() > 0
        &&& rollout_without_media(a.last(), b.last())
        &&& persisted_items(a.drop_last(), b.drop_last(), mode)
    } else {
        persisted_items(a.drop_last(), b, mode)
    }
}

/// The rollout items that should be persisted for a live append, each
/// prepared for durable storage.
pub fn persisted_rollout_items(items: Vec<RolloutItem>, history_mode: ThreadHistoryMode) -> (r: Vec<
    RolloutItem,
>)
    ensures
        persisted_items(items@, r@, history_mode),
{
    let ghost orig = items@;
    let mut out: Vec<RolloutItem> = Vec::new();
    for item in it: items
        invariant
            it.seq() == orig,
            persisted_items(orig.take(it.index() as int), out@, history_mode),
    {
        let ghost k = it.index() as int;
        let ghost before = out@;
        assert(orig.take(k + 1).drop_last() =~= orig.take(k));
        assert(orig.take(k + 1).last() == orig[k]);
        if let Some(kept) = persisted_rollout_item(item, history_mode) {
            out.push(kept);
            assert(out@.drop_last() =~= before);
        }
    }
    assert(orig.take(orig.len() as int) =~= orig);
    out
}

} // verus!
