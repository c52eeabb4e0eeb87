use codex_rollout::command_cwd::{command_cwd, CommandExecutionSource, CommandExecutionStatus, ThreadItem};
use codex_rollout::json::JsonValue;
use codex_rollout::notification_media::{filtered_tool_output_items, tool_output_items};
use codex_rollout::policy::{
    clone_response_envelope_without_inline_media, clone_without_inline_media_payloads,
    is_persisted_rollout_item, persisted_rollout_item, persisted_rollout_items,
    should_persist_event_msg, should_persist_response_item,
    should_persist_response_item_for_memories, OMITTED_INLINE_TOOL_IMAGE,
    OMITTED_INLINE_TOOL_MEDIA,
};
use codex_rollout::protocol::{
    DynamicToolCallItem, DynamicToolCallOutputContentItem, ToolCallStatus, CallToolResult, EventMsg, ExtensionItem, FunctionCallOutputBody, FunctionCallOutputContentItem,
    FunctionCallOutputItem, FunctionCallOutputPayload, ImageDetail, ImageGenerationEndEvent,
    ImageGenerationItem, ItemCompletedEvent, McpInvocation, McpToolCallEndEvent, ResponseItem,
    ResponseItemEnvelope, SubAgentActivity, SubAgentActivityKind, ThreadHistoryMode, TurnItem,
    UserMessageEvent,
};
use codex_rollout::rollout::RolloutItem;

fn text(s: &str) -> JsonValue {
    JsonValue::Str(s.to_string())
}

fn completed(item: TurnItem) -> EventMsg {
    EventMsg::ItemCompleted(ItemCompletedEvent {
        thread_id: "thread".to_string(),
        turn_id: "turn".to_string(),
        item,
        started_at_ms: None,
        completed_at_ms: 7,
    })
}

fn message(role: &str) -> ResponseItem {
    ResponseItem::Message {
        id: None,
        role: role.to_string(),
        content: Vec::new(),
        phase: None,
        internal_chat_message_metadata_passthrough: None,
    }
}

fn all_response_items() -> Vec<ResponseItem> {
    vec![
        message("user"),
        message("developer"),
        ResponseItem::AgentMessage(JsonValue::Null),
        ResponseItem::Reasoning(JsonValue::Null),
        ResponseItem::LocalShellCall(JsonValue::Null),
        ResponseItem::FunctionCall(JsonValue::Null),
        ResponseItem::ToolSearchCall(JsonValue::Null),
        ResponseItem::FunctionCallOutput {
            id: None,
            call_id: None,
            name: None,
            namespace: None,
            output: FunctionCallOutputPayload::from_content_items(Vec::new()),
            internal_chat_message_metadata_passthrough: None,
        },
        ResponseItem::ToolSearchOutput(JsonValue::Null),
        ResponseItem::CustomToolCall(JsonValue::Null),
        ResponseItem::CustomToolCallOutput {
            id: None,
            call_id: "c".to_string(),
            name: None,
            output: FunctionCallOutputPayload::from_content_items(Vec::new()),
            internal_chat_message_metadata_passthrough: None,
        },
        ResponseItem::WebSearchCall(JsonValue::Null),
        ResponseItem::ImageGenerationCall {
            id: None,
            status: "completed".to_string(),
            revised_prompt: None,
            result: "bytes".to_string(),
            internal_chat_message_metadata_passthrough: None,
        },
        ResponseItem::Compaction(JsonValue::Null),
        ResponseItem::ContextCompaction(JsonValue::Null),
        ResponseItem::AdditionalTools(JsonValue::Null),
        ResponseItem::CompactionTrigger(JsonValue::Null),
        ResponseItem::Other,
    ]
}

#[test]
fn response_item_persistence_table() {
    let rollout: Vec<bool> = all_response_items().iter().map(should_persist_response_item).collect();
    assert_eq!(
        rollout,
        vec![
            true, true, true, true, true, true, true, true, true, true, true, true, true, true,
            true, false, false, false
        ]
    );
    let memories: Vec<bool> =
        all_response_items().iter().map(should_persist_response_item_for_memories).collect();
    assert_eq!(
        memories,
        vec![
            true, false, true, false, true, true, true, true, true, true, true, true, false, false,
            false, false, false, false
        ]
    );
}

#[test]
fn memories_keep_nothing_that_rollout_files_drop() {
    for item in all_response_items() {
        if should_persist_response_item_for_memories(&item) {
            assert!(should_persist_response_item(&item));
        }
    }
}

#[test]
fn event_persistence_depends_on_history_mode() {
    let legacy = ThreadHistoryMode::Legacy;
    let paginated = ThreadHistoryMode::Paginated;

    let agent_message = completed(TurnItem::AgentMessage(JsonValue::Null));
    assert!(should_persist_event_msg(&agent_message, paginated));
    assert!(!should_persist_event_msg(&agent_message, legacy));

    let plan = completed(TurnItem::Plan(JsonValue::Null));
    assert!(should_persist_event_msg(&plan, legacy));
    let sleep = completed(TurnItem::Extension(ExtensionItem::Sleep(JsonValue::Null)));
    assert!(should_persist_event_msg(&sleep, legacy));
    let output = completed(TurnItem::FunctionCallOutput(FunctionCallOutputItem {
        id: "f".to_string(),
        name: "n".to_string(),
        namespace: None,
        output: FunctionCallOutputBody::Text("t".to_string()),
    }));
    assert!(should_persist_event_msg(&output, legacy));

    let done = SubAgentActivity { kind: SubAgentActivityKind::Completed, detail: JsonValue::Null };
    let started = SubAgentActivity { kind: SubAgentActivityKind::Started, detail: JsonValue::Null };
    assert!(should_persist_event_msg(&completed(TurnItem::SubAgentActivity(done)), legacy));
    let started_item = completed(TurnItem::SubAgentActivity(SubAgentActivity {
        kind: SubAgentActivityKind::Started,
        detail: JsonValue::Null,
    }));
    assert!(!should_persist_event_msg(&started_item, legacy));

    let started_event = EventMsg::SubAgentActivity(started);
    assert!(should_persist_event_msg(&started_event, legacy));
    assert!(!should_persist_event_msg(&started_event, paginated));
    let done_event = EventMsg::SubAgentActivity(SubAgentActivity {
        kind: SubAgentActivityKind::Completed,
        detail: JsonValue::Null,
    });
    assert!(!should_persist_event_msg(&done_event, legacy));

    for durable in [EventMsg::TokenCount(JsonValue::Null), EventMsg::TurnComplete(JsonValue::Null)] {
        assert!(should_persist_event_msg(&durable, legacy));
        assert!(should_persist_event_msg(&durable, paginated));
    }
    let agent_event = EventMsg::AgentMessage(JsonValue::Null);
    assert!(should_persist_event_msg(&agent_event, legacy));
    assert!(!should_persist_event_msg(&agent_event, paginated));
    for transient in [
        EventMsg::Error(JsonValue::Null),
        EventMsg::ShutdownComplete,
        EventMsg::ExecCommandOutputDelta(JsonValue::Null),
    ] {
        assert!(!should_persist_event_msg(&transient, legacy));
        assert!(!should_persist_event_msg(&transient, paginated));
    }
}

#[test]
fn rollout_item_persistence() {
    let realtime = RolloutItem::RealtimeItem(JsonValue::Null);
    assert!(is_persisted_rollout_item(&realtime, ThreadHistoryMode::Paginated));
    assert!(!is_persisted_rollout_item(&realtime, ThreadHistoryMode::Legacy));
    for marker in [
        RolloutItem::SessionMeta(JsonValue::Null),
        RolloutItem::TurnContext(JsonValue::Null),
        RolloutItem::WorldState(JsonValue::Null),
        RolloutItem::SecurityRiskScore(JsonValue::Null),
        RolloutItem::InterAgentCommunication(JsonValue::Null),
        RolloutItem::InterAgentCommunicationMetadata(JsonValue::Null),
    ] {
        assert!(is_persisted_rollout_item(&marker, ThreadHistoryMode::Legacy));
    }
    let trigger = RolloutItem::ResponseItem(ResponseItemEnvelope::new(ResponseItem::CompactionTrigger(
        JsonValue::Null,
    )));
    assert!(!is_persisted_rollout_item(&trigger, ThreadHistoryMode::Paginated));
    assert_eq!(persisted_rollout_item(trigger, ThreadHistoryMode::Paginated), None);
    assert_eq!(
        persisted_rollout_item(RolloutItem::WorldState(text("w")), ThreadHistoryMode::Legacy),
        Some(RolloutItem::WorldState(text("w")))
    );
}

fn mixed_items() -> Vec<RolloutItem> {
    vec![
        RolloutItem::EventMsg(EventMsg::Error(JsonValue::Null)),
        RolloutItem::EventMsg(EventMsg::ImageGenerationEnd(ImageGenerationEndEvent {
            call_id: "c".to_string(),
            status: "done".to_string(),
            revised_prompt: None,
            result: "bytes".to_string(),
            transparent_background: Some(true),
            failure: None,
            saved_path: Some("/tmp/i.png".to_string()),
        })),
        RolloutItem::RealtimeItem(JsonValue::Null),
        RolloutItem::EventMsg(completed(TurnItem::ImageGeneration(ImageGenerationItem {
            id: "i".to_string(),
            status: "done".to_string(),
            revised_prompt: Some("p".to_string()),
            result: "bytes".to_string(),
            saved_path: None,
        }))),
        RolloutItem::EventMsg(EventMsg::UserMessage(UserMessageEvent {
            client_id: None,
            message: "m".to_string(),
            images: Some(vec!["data:a".to_string(), "b".to_string(), "DATA:c".to_string()]),
            image_details: vec![Some(ImageDetail::Low), Some(ImageDetail::High), None, Some(ImageDetail::Auto)],
            local_images: Vec::new(),
            local_image_details: Vec::new(),
            audio: None,
            local_audio: Vec::new(),
            text_elements: Vec::new(),
        })),
    ]
}

#[test]
fn persisted_items_keep_order_and_drop_transient_items() {
    let legacy = persisted_rollout_items(mixed_items(), ThreadHistoryMode::Legacy);
    assert_eq!(legacy.len(), 2);
    let RolloutItem::EventMsg(EventMsg::ImageGenerationEnd(end)) = &legacy[0] else {
        panic!("expected image generation end");
    };
    assert_eq!(end.result, "");
    assert_eq!(end.saved_path.as_deref(), Some("/tmp/i.png"));
    assert_eq!(end.transparent_background, Some(true));
    let RolloutItem::EventMsg(EventMsg::UserMessage(user)) = &legacy[1] else {
        panic!("expected user message");
    };
    assert_eq!(user.images, Some(vec!["b".to_string()]));
    // Details past the end of the image list stay.
    assert_eq!(user.image_details, vec![Some(ImageDetail::High), Some(ImageDetail::Auto)]);

    let paginated = persisted_rollout_items(mixed_items(), ThreadHistoryMode::Paginated);
    assert_eq!(paginated.len(), 2);
    assert_eq!(paginated[0], RolloutItem::RealtimeItem(JsonValue::Null));
    let RolloutItem::EventMsg(EventMsg::ItemCompleted(done)) = &paginated[1] else {
        panic!("expected completed item");
    };
    assert_eq!(
        done.item,
        TurnItem::ImageGeneration(ImageGenerationItem {
            id: "i".to_string(),
            status: "done".to_string(),
            revised_prompt: Some("p".to_string()),
            result: String::new(),
            saved_path: None,
        })
    );
}

#[test]
fn persisting_persisted_items_again_changes_nothing() {
    for mode in [ThreadHistoryMode::Legacy, ThreadHistoryMode::Paginated] {
        let once = persisted_rollout_items(mixed_items(), mode);
        let twice = persisted_rollout_items(persisted_rollout_items(mixed_items(), mode), mode);
        assert_eq!(once, twice);
    }
}

#[test]
fn error_mcp_results_are_kept_and_ok_results_filtered() {
    let end = |result: Result<CallToolResult, String>| {
        RolloutItem::EventMsg(EventMsg::McpToolCallEnd(McpToolCallEndEvent {
            call_id: "m".to_string(),
            invocation: McpInvocation { server: "s".to_string(), tool: "t".to_string(), arguments: None },
            connector_id: None,
            mcp_app_resource_uri: None,
            link_id: None,
            app_name: None,
            action_name: None,
            plugin_id: None,
            read_only_hint: None,
            duration: 3,
            result,
        }))
    };
    let kept = clone_without_inline_media_payloads(end(Err("data:boom".to_string())));
    assert_eq!(kept, end(Err("data:boom".to_string())));
    let filtered = clone_without_inline_media_payloads(end(Ok(CallToolResult {
        content: vec![text("data:x")],
        structured_content: None,
        is_error: None,
        meta: Some(text("data:y")),
    })));
    assert_eq!(
        filtered,
        end(Ok(CallToolResult {
            content: vec![text(OMITTED_INLINE_TOOL_MEDIA)],
            structured_content: None,
            is_error: None,
            meta: Some(text(OMITTED_INLINE_TOOL_MEDIA)),
        }))
    );
}

#[test]
fn envelope_metadata_is_kept_and_text_output_untouched() {
    let envelope = ResponseItemEnvelope {
        item: ResponseItem::FunctionCallOutput {
            id: Some("id".to_string()),
            call_id: Some("call".to_string()),
            name: None,
            namespace: None,
            output: FunctionCallOutputPayload {
                body: FunctionCallOutputBody::Text("data:not-media-in-text-body".to_string()),
                success: Some(false),
            },
            internal_chat_message_metadata_passthrough: Some(JsonValue::Bool(true)),
        },
        metadata: Some(text("meta")),
    };
    let copy = clone_response_envelope_without_inline_media(envelope);
    assert_eq!(copy.metadata, Some(text("meta")));
    let ResponseItem::FunctionCallOutput { output, .. } = &copy.item else {
        panic!("expected function call output");
    };
    assert_eq!(output.body, FunctionCallOutputBody::Text("data:not-media-in-text-body".to_string()));
    assert_eq!(output.success, Some(false));
    assert_eq!(output.content_items(), None);
}

#[test]
fn notification_fixtures_differ_only_by_media() {
    let items = tool_output_items();
    assert_eq!(items.len(), 4);
    assert_eq!(
        items[0],
        FunctionCallOutputContentItem::InputImage {
            image_url: "data:image/png;base64,image".to_string(),
            detail: Some(ImageDetail::High),
        }
    );
    let filtered = filtered_tool_output_items();
    assert_eq!(filtered.as_slice(), &items[2..]);
    let payload = FunctionCallOutputPayload::from_content_items(items);
    let copy = clone_response_envelope_without_inline_media(ResponseItemEnvelope::new(
        ResponseItem::CustomToolCallOutput {
            id: None,
            call_id: "custom".to_string(),
            name: None,
            output: payload,
            internal_chat_message_metadata_passthrough: None,
        },
    ));
    let ResponseItem::CustomToolCallOutput { output, .. } = &copy.item else {
        panic!("expected custom tool output");
    };
    assert_eq!(
        output.content_items().unwrap()[0],
        FunctionCallOutputContentItem::InputText { text: OMITTED_INLINE_TOOL_IMAGE.to_string() }
    );
}

fn command(source: CommandExecutionSource, status: CommandExecutionStatus) -> ThreadItem {
    ThreadItem::CommandExecution {
        id: "id".to_string(),
        command: "pwd".to_string(),
        cwd: "/worktrees/alpha".to_string(),
        source,
        status,
    }
}

#[test]
fn command_cwd_follows_only_agent_and_startup_commands_that_ran() {
    for source in [CommandExecutionSource::Agent, CommandExecutionSource::UnifiedExecStartup] {
        for status in [
            CommandExecutionStatus::InProgress,
            CommandExecutionStatus::Completed,
            CommandExecutionStatus::Failed,
        ] {
            assert_eq!(command_cwd(&command(source, status)), Some("/worktrees/alpha".to_string()));
        }
        assert_eq!(command_cwd(&command(source, CommandExecutionStatus::Declined)), None);
    }
    for source in [CommandExecutionSource::UserShell, CommandExecutionSource::UnifiedExecInteraction] {
        assert_eq!(command_cwd(&command(source, CommandExecutionStatus::InProgress)), None);
    }
    assert_eq!(command_cwd(&ThreadItem::Other(JsonValue::Null)), None);
}

#[test]
fn tool_audio_is_inline_only_with_a_data_audio_url() {
    let copy = |audio_url: &str| {
        clone_response_envelope_without_inline_media(ResponseItemEnvelope::new(
            ResponseItem::CustomToolCallOutput {
                id: None,
                call_id: "c".to_string(),
                name: None,
                output: FunctionCallOutputPayload::from_content_items(vec![
                    FunctionCallOutputContentItem::InputAudio { audio_url: audio_url.to_string() },
                ]),
                internal_chat_message_metadata_passthrough: None,
            },
        ))
    };
    let first_item = |envelope: ResponseItemEnvelope| match envelope.item {
        ResponseItem::CustomToolCallOutput { output, .. } => match output.body {
            FunctionCallOutputBody::ContentItems(mut items) => items.remove(0),
            FunctionCallOutputBody::Text(_) => panic!("expected content items"),
        },
        _ => panic!("expected custom tool output"),
    };
    assert_eq!(
        first_item(copy("data:audio/wav;base64,a")),
        FunctionCallOutputContentItem::InputText {
            text: "[inline tool audio omitted from persisted history]".to_string()
        }
    );
    for kept in ["DATA:AUDIO/WAV;base64,a", "data:application/octet-stream;base64,a", "https://x/a.wav"] {
        assert_eq!(
            first_item(copy(kept)),
            FunctionCallOutputContentItem::InputAudio { audio_url: kept.to_string() }
        );
    }
}

#[test]
fn dynamic_tool_audio_is_inline_only_with_a_data_audio_url() {
    let item = RolloutItem::EventMsg(completed(TurnItem::DynamicToolCall(DynamicToolCallItem {
        id: "d".to_string(),
        namespace: None,
        tool: "tool".to_string(),
        arguments: JsonValue::Null,
        status: ToolCallStatus::Completed,
        content_items: Some(vec![
            DynamicToolCallOutputContentItem::InputAudio { audio_url: "data:audio/wav;base64,a".to_string() },
            DynamicToolCallOutputContentItem::InputAudio { audio_url: "Data:Audio/wav;base64,a".to_string() },
        ]),
        success: None,
        error: None,
        duration: None,
    })));
    let RolloutItem::EventMsg(EventMsg::ItemCompleted(done)) = clone_without_inline_media_payloads(item) else {
        panic!("expected completed item");
    };
    let TurnItem::DynamicToolCall(call) = done.item else {
        panic!("expected dynamic tool call");
    };
    assert_eq!(
        call.content_items,
        Some(vec![
            DynamicToolCallOutputContentItem::InputText {
                text: "[inline tool audio omitted from persisted history]".to_string()
            },
            DynamicToolCallOutputContentItem::InputAudio { audio_url: "Data:Audio/wav;base64,a".to_string() },
        ])
    );
}
