//! Properties that hold across the persistence functions.

use vstd::prelude::*;
use vstd::utf8::encode_utf8;
use crate::json::{JsonValue, json_same, member_lookup};
use crate::policy::{
    persisted_items, spec_is_persisted_rollout_item, spec_should_persist_event_msg,
    spec_should_persist_response_item,
    spec_should_persist_response_item_for_memories, spec_is_inline_tool_audio,
    lemma_data_audio_prefix, tool_item_without_media, dynamic_item_without_media,
    OMITTED_INLINE_TOOL_AUDIO,
    OMITTED_INLINE_TOOL_MEDIA, body_without_media, call_result_without_media,
    content_items_without_media, details_aligned,
    dynamic_items_without_media, envelope_without_media, envelopes_without_media,
    event_without_media, legacy_user_message_without_media, optional_json_without_media,
    optional_urls, optional_urls_without_data, response_without_media,
    rollout_without_media, tool_items_without_media, turn_item_without_media, urls_without_data,
    user_inputs_without_media,
};
use crate::protocol::{
    is_durable_event, is_legacy_event, ItemCompletedEvent, CallToolResult, ContentItem, DynamicToolCallOutputContentItem, EventMsg, ExtensionItem,
    FunctionCallOutputBody, FunctionCallOutputContentItem,
    ImageDetail, ResponseItem, ResponseItemEnvelope, SubAgentActivityKind, ThreadHistoryMode, TurnItem, UserInput,
    UserMessageEvent,
};
use crate::rollout::RolloutItem;
use crate::command_cwd::{
    CommandExecutionSource, CommandExecutionStatus, ThreadItem, is_command_start,
};
use crate::web_search::{
    OMITTED_OVERSIZED_RESULTS, OMITTED_WEB_SEARCH_MEDIA, is_media_object, json_media_free,
    is_text_object, json_without_media, optional_results_without_media, results_fit,
    results_without_media, spec_has_data_scheme,
};

verus! {

/// The first byte of the UTF-8 text of a string that begins with an ASCII
/// character is that character.
proof fn lemma_ascii_first_byte(s: Seq<char>)
    requires
        s.len() > 0,
        (s[0] as u32) < 0x80,
    ensures
        encode_utf8(s).len() > 0,
        encode_utf8(s)[0] == (s[0] as u32) as u8,
{
    let c = s[0] as u32;
    assert((c & 0x7F) as u8 == c as u8) by (bit_vector)
        requires
            c < 0x80,
    ;
    assert(encode_utf8(s) == vstd::utf8::encode_scalar(c) + encode_utf8(s.drop_first()));
}

/// A string whose first character is an ASCII character other than `d` or
/// `D` has no `data:` scheme.
proof fn lemma_no_data_scheme(s: Seq<char>)
    requires
        s.len() > 0,
        (s[0] as u32) < 0x80,
        (s[0] as u32) != 0x64,
        (s[0] as u32) != 0x44,
    ensures
        !spec_has_data_scheme(s),
{
    lemma_ascii_first_byte(s);
    let c = s[0] as u32;
    assert(c as u8 == c);
}

/// What a placeholder must be so that filtering what it replaced again
/// changes nothing: no `data:` scheme, and not a media type name.
pub open spec fn inert_placeholder(p: Seq<char>) -> bool {
    &&& !spec_has_data_scheme(p)
    &&& p != "image"@
    &&& p != "audio"@
}

proof fn lemma_text_is_inert()
    ensures
        inert_placeholder("text"@),
        "text"@ != "type"@,
        "text"@ != "resource"@,
        "text"@ != "blob"@,
        "type"@ != "resource"@,
        "type"@ != "blob"@,
{
    reveal_strlit("blob");
    reveal_strlit("text");
    reveal_strlit("type");
    reveal_strlit("image");
    reveal_strlit("audio");
    reveal_strlit("resource");
    assert("text"@[1] != "type"@[1]);
    assert("text"@[0] != "image"@[0]);
    assert("text"@[0] != "audio"@[0]);
    assert("text"@[0] != "resource"@[0]);
    assert("text"@[0] != "blob"@[0]);
    assert("type"@[0] != "resource"@[0]);
    assert("type"@[0] != "blob"@[0]);
    lemma_no_data_scheme("text"@);
}

/// Every placeholder that the web search filter writes is inert.
pub proof fn lemma_web_placeholders_inert()
    ensures
        inert_placeholder(OMITTED_WEB_SEARCH_MEDIA@),
        inert_placeholder(OMITTED_OVERSIZED_RESULTS@),
{
    reveal_strlit("[inline web search media omitted from history]");
    reveal_strlit("[oversized web search results omitted from history]");
    reveal_strlit("image");
    reveal_strlit("audio");
    assert(OMITTED_WEB_SEARCH_MEDIA@[0] != "image"@[0]);
    assert(OMITTED_WEB_SEARCH_MEDIA@[0] != "audio"@[0]);
    assert(OMITTED_OVERSIZED_RESULTS@[0] != "image"@[0]);
    assert(OMITTED_OVERSIZED_RESULTS@[0] != "audio"@[0]);
    lemma_no_data_scheme(OMITTED_WEB_SEARCH_MEDIA@);
    lemma_no_data_scheme(OMITTED_OVERSIZED_RESULTS@);
}

/// Looking a key up in two member lists with the same keys finds a member
/// at the same position in both, or in neither.
proof fn lemma_lookup_same_keys(
    ms: Seq<(String, JsonValue)>,
    ns: Seq<(String, JsonValue)>,
    key: Seq<char>,
) -> (j: int)
    requires
        ns.len() == ms.len(),
        forall|i: int| 0 <= i < ms.len() ==> (#[trigger] ns[i]).0 == ms[i].0,
    ensures
        member_lookup(ms, key) is None <==> member_lookup(ns, key) is None,
        member_lookup(ms, key) is Some ==> 0 <= j < ms.len() && member_lookup(ms, key) == Some(
            ms[j].1,
        ) && member_lookup(ns, key) == Some(ns[j].1),
    decreases ms.len(),
{
    if ms.len() == 0 {
        0
    } else if ms[0].0@ == key {
        assert(ns[0].0 == ms[0].0);
        0
    } else {
        assert(ns[0].0 == ms[0].0);
        let rest_ms = ms.drop_first();
        let rest_ns = ns.drop_first();
        assert forall|i: int| 0 <= i < rest_ms.len() implies (#[trigger] rest_ns[i]).0
            == rest_ms[i].0 by {
            assert(ns[i + 1].0 == ms[i + 1].0);
        }
        let j = lemma_lookup_same_keys(rest_ms, rest_ns, key);
        j + 1
    }
}

/// The text object holding an inert placeholder is left as it is.
proof fn lemma_text_object_fixpoint(b: JsonValue, q: Seq<char>, p: Seq<char>)
    requires
        is_text_object(b, q),
        inert_placeholder(q),
    ensures
        json_without_media(b, b, p),
        !is_media_object(b->Object_0@),
{
    lemma_text_is_inert();
    let ms = b->Object_0@;
    assert(ms.drop_first().drop_first().len() == 0);
    reveal_with_fuel(member_lookup, 3);
    assert(member_lookup(ms, "resource"@) is None);
    assert(member_lookup(ms, "type"@) == Some(ms[1].1));
    assert(!is_media_object(ms));
    assert(json_without_media(ms[0].1, ms[0].1, p));
    assert(json_without_media(ms[1].1, ms[1].1, p));
    assert forall|i: int| 0 <= i < ms.len() implies (#[trigger] ms[i]).0 == ms[i].0
        && json_without_media(ms[i].1, ms[i].1, p) by {
        if i == 0 {
        } else {
            assert(i == 1);
        }
    }
}

/// Filtering a JSON value that has been filtered with an inert placeholder
/// leaves it as it is.
pub proof fn lemma_json_without_media_fixpoint(a: JsonValue, b: JsonValue, p: Seq<char>)
    requires
        json_without_media(a, b, p),
        inert_placeholder(p),
    ensures
        json_without_media(b, b, p),
    decreases a,
{
    match a {
        JsonValue::Array(vs) => {
            let ws = b->Array_0;
            assert forall|i: int| 0 <= i < ws@.len() implies json_without_media(
                #[trigger] ws@[i],
                ws@[i],
                p,
            ) by {
                assert(decreases_to!(a => a->Array_0));
                vstd::std_specs::vec::axiom_vec_decreases_to_view(vs);
                vstd::seq::axiom_seq_index_decreases(vs@, i);
                lemma_json_without_media_fixpoint(vs@[i], ws@[i], p);
            }
        },
        JsonValue::Object(ms) => {
            if is_media_object(ms@) {
                lemma_text_object_fixpoint(b, p, p);
            } else {
                let ns = b->Object_0;
                assert forall|i: int| 0 <= i < ns@.len() implies json_without_media(
                    (#[trigger] ns@[i]).1,
                    ns@[i].1,
                    p,
                ) by {
                    assert(decreases_to!(a => a->Object_0));
                    vstd::std_specs::vec::axiom_vec_decreases_to_view(ms);
                    vstd::seq::axiom_seq_index_decreases(ms@, i);
                    assert(decreases_to!(ms@[i] => ms@[i].1));
                    lemma_json_without_media_fixpoint(ms@[i].1, ns@[i].1, p);
                }
                lemma_filtered_object_not_media(ms@, ns@, p);
            }
        },
        _ => {},
    }
}

/// Filtering the members of an object that is not media does not make it
/// media.
proof fn lemma_filtered_object_not_media(
    ms: Seq<(String, JsonValue)>,
    ns: Seq<(String, JsonValue)>,
    p: Seq<char>,
)
    requires
        !is_media_object(ms),
        inert_placeholder(p),
        ns.len() == ms.len(),
        forall|i: int|
            0 <= i < ms.len() ==> (#[trigger] ns[i]).0 == ms[i].0 && json_without_media(
                ms[i].1,
                ns[i].1,
                p,
            ),
    ensures
        !is_media_object(ns),
{
    lemma_text_is_inert();
    let j = lemma_lookup_same_keys(ms, ns, "type"@);
    if member_lookup(ms, "type"@) is Some {
        let v = ms[j].1;
        let w = ns[j].1;
        assert(json_without_media(v, w, p));
        match v {
            JsonValue::Object(vm) => {
                if is_media_object(vm@) {
                    assert(w is Object);
                }
            },
            _ => {},
        }
    }
    let k = lemma_lookup_same_keys(ms, ns, "resource"@);
    if member_lookup(ms, "resource"@) is Some {
        let v = ms[k].1;
        let w = ns[k].1;
        assert(json_without_media(v, w, p));
        match v {
            JsonValue::Object(vm) => {
                if is_media_object(vm@) {
                    let wm = w->Object_0@;
                    assert(wm.drop_first().drop_first().len() == 0);
                    reveal_with_fuel(member_lookup, 3);
                    assert(member_lookup(wm, "blob"@) is None);
                } else {
                    let wm = w->Object_0@;
                    assert forall|i: int| 0 <= i < vm@.len() implies (#[trigger] wm[i]).0
                        == vm@[i].0 by {}
                    lemma_lookup_same_keys(vm@, wm, "blob"@);
                }
            },
            _ => {},
        }
    }
}

/// What the media filter returns, with an inert placeholder, holds no
/// inline media.
pub proof fn lemma_filtered_json_media_free(a: JsonValue, b: JsonValue, p: Seq<char>)
    requires
        json_without_media(a, b, p),
        inert_placeholder(p),
    ensures
        json_media_free(b),
    decreases a,
{
    lemma_text_is_inert();
    match a {
        JsonValue::Array(vs) => {
            let ws = b->Array_0;
            assert forall|i: int| 0 <= i < ws@.len() implies json_media_free(#[trigger] ws@[i]) by {
                assert(decreases_to!(a => a->Array_0));
                vstd::std_specs::vec::axiom_vec_decreases_to_view(vs);
                vstd::seq::axiom_seq_index_decreases(vs@, i);
                lemma_filtered_json_media_free(vs@[i], ws@[i], p);
            }
            assert(json_media_free(b));
        },
        JsonValue::Object(ms) => {
            let ns = b->Object_0;
            if is_media_object(ms@) {
                lemma_text_object_fixpoint(b, p, p);
                assert(json_media_free(ns@[0].1));
                assert(json_media_free(ns@[1].1));
                assert forall|i: int| 0 <= i < ns@.len() implies json_media_free(
                    (#[trigger] ns@[i]).1,
                ) by {
                    if i == 0 {
                    } else {
                        assert(i == 1);
                    }
                }
            } else {
                assert forall|i: int| 0 <= i < ns@.len() implies json_media_free(
                    (#[trigger] ns@[i]).1,
                ) by {
                    assert(decreases_to!(a => a->Object_0));
                    vstd::std_specs::vec::axiom_vec_decreases_to_view(ms);
                    vstd::seq::axiom_seq_index_decreases(ms@, i);
                    assert(decreases_to!(ms@[i] => ms@[i].1));
                    lemma_filtered_json_media_free(ms@[i].1, ns@[i].1, p);
                }
                lemma_filtered_object_not_media(ms@, ns@, p);
            }
        },
        _ => {},
    }
}

/// The media filter returns a value without inline media as the same JSON.
pub proof fn lemma_media_free_json_kept(a: JsonValue, b: JsonValue, p: Seq<char>)
    requires
        json_without_media(a, b, p),
        json_media_free(a),
    ensures
        json_same(a, b),
    decreases a,
{
    match a {
        JsonValue::Array(vs) => {
            let ws = b->Array_0;
            assert forall|i: int| 0 <= i < vs@.len() implies json_same(#[trigger] vs@[i], ws@[i]) by {
                assert(decreases_to!(a => a->Array_0));
                vstd::std_specs::vec::axiom_vec_decreases_to_view(vs);
                vstd::seq::axiom_seq_index_decreases(vs@, i);
                lemma_media_free_json_kept(vs@[i], ws@[i], p);
            }
        },
        JsonValue::Object(ms) => {
            let ns = b->Object_0;
            assert forall|i: int| 0 <= i < ms@.len() implies (#[trigger] ns@[i]).0 == ms@[i].0
                && json_same(ms@[i].1, ns@[i].1) by {
                assert(decreases_to!(a => a->Object_0));
                vstd::std_specs::vec::axiom_vec_decreases_to_view(ms);
                vstd::seq::axiom_seq_index_decreases(ms@, i);
                assert(decreases_to!(ms@[i] => ms@[i].1));
                assert(json_media_free(ms@[i].1));
                lemma_media_free_json_kept(ms@[i].1, ns@[i].1, p);
            }
        },
        _ => {},
    }
}

/// Filtering a value twice with an inert placeholder gives the same JSON as
/// filtering it once.
pub proof fn lemma_filtering_json_twice_changes_nothing(
    a: JsonValue,
    b: JsonValue,
    c: JsonValue,
    p: Seq<char>,
)
    requires
        json_without_media(a, b, p),
        json_without_media(b, c, p),
        inert_placeholder(p),
    ensures
        json_same(b, c),
{
    lemma_filtered_json_media_free(a, b, p);
    lemma_media_free_json_kept(b, c, p);
}

/// Filtering web search results that were filtered already, and whose JSON
/// text fits in the budget, leaves them as they are.
pub proof fn lemma_results_without_media_fixpoint(a: Seq<JsonValue>, b: Seq<JsonValue>)
    requires
        results_without_media(a, b),
        results_fit(b),
    ensures
        results_without_media(b, b),
{
    lemma_web_placeholders_inert();
    if results_fit(a) {
        assert forall|i: int| 0 <= i < b.len() implies json_without_media(
            #[trigger] b[i],
            b[i],
            OMITTED_WEB_SEARCH_MEDIA@,
        ) by {
            lemma_json_without_media_fixpoint(a[i], b[i], OMITTED_WEB_SEARCH_MEDIA@);
        }
    } else {
        lemma_text_object_fixpoint(b[0], OMITTED_OVERSIZED_RESULTS@, OMITTED_WEB_SEARCH_MEDIA@);
    }
}

/// Whether optional web search results fit in the history budget.
pub open spec fn optional_results_fit(results: Option<Vec<JsonValue>>) -> bool {
    match results {
        Some(rs) => results_fit(rs@),
        None => true,
    }
}

proof fn lemma_optional_results_fixpoint(a: Option<Vec<JsonValue>>, b: Option<Vec<JsonValue>>)
    requires
        optional_results_without_media(a, b),
        optional_results_fit(b),
    ensures
        optional_results_without_media(b, b),
{
    if let Some(rs) = a {
        lemma_results_without_media_fixpoint(rs@, b->0@);
    }
}

proof fn lemma_tool_media_placeholder_inert()
    ensures
        inert_placeholder(OMITTED_INLINE_TOOL_MEDIA@),
{
    reveal_strlit("[inline tool media omitted from persisted history]");
    reveal_strlit("image");
    reveal_strlit("audio");
    assert(OMITTED_INLINE_TOOL_MEDIA@[0] != "image"@[0]);
    assert(OMITTED_INLINE_TOOL_MEDIA@[0] != "audio"@[0]);
    lemma_no_data_scheme(OMITTED_INLINE_TOOL_MEDIA@);
}

proof fn lemma_tool_items_fixpoint(
    a: Seq<FunctionCallOutputContentItem>,
    b: Seq<FunctionCallOutputContentItem>,
)
    requires
        tool_items_without_media(a, b),
    ensures
        tool_items_without_media(b, b),
{
    assert forall|i: int| 0 <= i < b.len() implies crate::policy::tool_item_without_media(
        #[trigger] b[i],
        b[i],
    ) by {
        assert(crate::policy::tool_item_without_media(a[i], b[i]));
    }
}

proof fn lemma_body_fixpoint(a: FunctionCallOutputBody, b: FunctionCallOutputBody)
    requires
        body_without_media(a, b),
    ensures
        body_without_media(b, b),
{
    if let FunctionCallOutputBody::ContentItems(items) = a {
        lemma_tool_items_fixpoint(items@, b->ContentItems_0@);
    }
}

proof fn lemma_content_items_fixpoint(a: Seq<ContentItem>, b: Seq<ContentItem>)
    requires
        content_items_without_media(a, b),
    ensures
        content_items_without_media(b, b),
{
    assert forall|i: int| 0 <= i < b.len() implies crate::policy::content_item_without_media(
        #[trigger] b[i],
        b[i],
    ) by {
        assert(crate::policy::content_item_without_media(a[i], b[i]));
    }
}

proof fn lemma_user_inputs_fixpoint(a: Seq<UserInput>, b: Seq<UserInput>)
    requires
        user_inputs_without_media(a, b),
    ensures
        user_inputs_without_media(b, b),
{
    assert forall|i: int| 0 <= i < b.len() implies crate::policy::user_input_without_media(
        #[trigger] b[i],
        b[i],
    ) by {
        assert(crate::policy::user_input_without_media(a[i], b[i]));
    }
}

proof fn lemma_dynamic_items_fixpoint(
    a: Seq<DynamicToolCallOutputContentItem>,
    b: Seq<DynamicToolCallOutputContentItem>,
)
    requires
        dynamic_items_without_media(a, b),
    ensures
        dynamic_items_without_media(b, b),
{
    assert forall|i: int| 0 <= i < b.len() implies crate::policy::dynamic_item_without_media(
        #[trigger] b[i],
        b[i],
    ) by {
        assert(crate::policy::dynamic_item_without_media(a[i], b[i]));
    }
}

proof fn lemma_response_fixpoint(a: ResponseItem, b: ResponseItem)
    requires
        response_without_media(a, b),
    ensures
        response_without_media(b, b),
{
    match a {
        ResponseItem::Message { content, .. } => {
            lemma_content_items_fixpoint(content@, b->Message_content@);
        },
        ResponseItem::FunctionCallOutput { output, .. } => {
            lemma_body_fixpoint(output.body, b->FunctionCallOutput_output.body);
        },
        ResponseItem::CustomToolCallOutput { output, .. } => {
            lemma_body_fixpoint(output.body, b->CustomToolCallOutput_output.body);
        },
        _ => {},
    }
}

proof fn lemma_envelopes_fixpoint(a: Seq<ResponseItemEnvelope>, b: Seq<ResponseItemEnvelope>)
    requires
        envelopes_without_media(a, b),
    ensures
        envelopes_without_media(b, b),
{
    assert forall|i: int| 0 <= i < b.len() implies envelope_without_media(#[trigger] b[i], b[i]) by {
        assert(envelope_without_media(a[i], b[i]));
        lemma_response_fixpoint(a[i].item, b[i].item);
    }
}

proof fn lemma_optional_json_fixpoint(a: Option<JsonValue>, b: Option<JsonValue>, p: Seq<char>)
    requires
        optional_json_without_media(a, b, p),
        inert_placeholder(p),
    ensures
        optional_json_without_media(b, b, p),
{
    if let Some(v) = a {
        lemma_json_without_media_fixpoint(v, b->0, p);
    }
}

proof fn lemma_call_result_fixpoint(a: CallToolResult, b: CallToolResult)
    requires
        call_result_without_media(a, b),
    ensures
        call_result_without_media(b, b),
{
    lemma_tool_media_placeholder_inert();
    assert forall|i: int| 0 <= i < b.content@.len() implies json_without_media(
        #[trigger] b.content@[i],
        b.content@[i],
        OMITTED_INLINE_TOOL_MEDIA@,
    ) by {
        lemma_json_without_media_fixpoint(a.content@[i], b.content@[i], OMITTED_INLINE_TOOL_MEDIA@);
    }
    lemma_optional_json_fixpoint(a.structured_content, b.structured_content, OMITTED_INLINE_TOOL_MEDIA@);
    lemma_optional_json_fixpoint(a.meta, b.meta, OMITTED_INLINE_TOOL_MEDIA@);
}

/// Whether every web search result list that a turn item carries fits in the
/// history budget.
pub open spec fn turn_item_results_fit(item: TurnItem) -> bool {
    match item {
        TurnItem::Extension(ExtensionItem::WebSearch(w)) => optional_results_fit(w.results),
        _ => true,
    }
}

proof fn lemma_turn_item_fixpoint(a: TurnItem, b: TurnItem)
    requires
        turn_item_without_media(a, b),
        turn_item_results_fit(b),
    ensures
        turn_item_without_media(b, b),
{
    match a {
        TurnItem::UserMessage(u) => {
            lemma_user_inputs_fixpoint(u.content@, b->UserMessage_0.content@);
        },
        TurnItem::FunctionCallOutput(f) => {
            lemma_body_fixpoint(f.output, b->FunctionCallOutput_0.output);
        },
        TurnItem::DynamicToolCall(d) => {
            if let Some(items) = d.content_items {
                lemma_dynamic_items_fixpoint(items@, b->DynamicToolCall_0.content_items->0@);
            }
        },
        TurnItem::McpToolCall(m) => {
            if let Some(r) = m.result {
                lemma_call_result_fixpoint(r, b->McpToolCall_0.result->0);
            }
        },
        TurnItem::Extension(ExtensionItem::WebSearch(w)) => {
            let x = b->Extension_0->WebSearch_0;
            lemma_optional_results_fixpoint(w.results, x.results);
        },
        _ => {},
    }
}

/// No URL that `urls_without_data` keeps has a `data:` scheme.
proof fn lemma_urls_without_data_clean(urls: Seq<String>)
    ensures
        forall|i: int|
            0 <= i < urls_without_data(urls).len() ==> !spec_has_data_scheme(
                #[trigger] urls_without_data(urls)[i]@,
            ),
    decreases urls.len(),
{
    if urls.len() > 0 {
        lemma_urls_without_data_clean(urls.drop_last());
        let prefix = urls_without_data(urls.drop_last());
        let whole = urls_without_data(urls);
        assert forall|i: int| 0 <= i < whole.len() implies !spec_has_data_scheme(
            #[trigger] whole[i]@,
        ) by {
            if i < prefix.len() {
                assert(whole[i] == prefix[i]);
            } else {
                assert(whole[i] == urls.last());
            }
        }
    }
}

/// A list with no `data:` URL is kept whole.
proof fn lemma_clean_urls_kept(urls: Seq<String>)
    requires
        forall|i: int| 0 <= i < urls.len() ==> !spec_has_data_scheme(#[trigger] urls[i]@),
    ensures
        urls_without_data(urls) == urls,
    decreases urls.len(),
{
    if urls.len() > 0 {
        lemma_clean_urls_kept(urls.drop_last());
        assert(urls.drop_last().push(urls.last()) =~= urls);
    }
}

/// Beside a list with no `data:` URL every detail is kept.
proof fn lemma_clean_details_kept(urls: Seq<String>, details: Seq<Option<ImageDetail>>)
    requires
        forall|i: int| 0 <= i < urls.len() ==> !spec_has_data_scheme(#[trigger] urls[i]@),
    ensures
        details_aligned(urls, details) == details,
    decreases details.len(),
{
    if details.len() > 0 {
        lemma_clean_details_kept(urls, details.drop_last());
        assert(details.drop_last().push(details.last()) =~= details);
    }
}

proof fn lemma_optional_urls_fixpoint(a: Option<Vec<String>>, b: Option<Vec<String>>)
    requires
        optional_urls_without_data(a, b),
    ensures
        optional_urls_without_data(b, b),
        forall|i: int| 0 <= i < optional_urls(b).len() ==> !spec_has_data_scheme(
            #[trigger] optional_urls(b)[i]@,
        ),
{
    if let Some(v) = a {
        lemma_urls_without_data_clean(v@);
        lemma_clean_urls_kept(b->0@);
    }
}

proof fn lemma_legacy_user_message_fixpoint(a: UserMessageEvent, b: UserMessageEvent)
    requires
        legacy_user_message_without_media(a, b),
    ensures
        legacy_user_message_without_media(b, b),
{
    lemma_optional_urls_fixpoint(a.images, b.images);
    lemma_optional_urls_fixpoint(a.audio, b.audio);
    lemma_clean_details_kept(optional_urls(b.images), b.image_details@);
}

/// Whether every web search result list that an event carries fits in the
/// history budget.
pub open spec fn event_results_fit(ev: EventMsg) -> bool {
    match ev {
        EventMsg::ItemCompleted(e) => turn_item_results_fit(e.item),
        EventMsg::WebSearchEnd(e) => optional_results_fit(e.results),
        _ => true,
    }
}

proof fn lemma_event_fixpoint(a: EventMsg, b: EventMsg)
    requires
        event_without_media(a, b),
        event_results_fit(b),
    ensures
        event_without_media(b, b),
{
    match a {
        EventMsg::ItemCompleted(e) => {
            lemma_turn_item_fixpoint(e.item, b->ItemCompleted_0.item);
        },
        EventMsg::UserMessage(e) => {
            lemma_legacy_user_message_fixpoint(e, b->UserMessage_0);
        },
        EventMsg::McpToolCallEnd(e) => {
            if let Ok(r) = e.result {
                lemma_call_result_fixpoint(r, b->McpToolCallEnd_0.result->Ok_0);
            }
        },
        EventMsg::WebSearchEnd(e) => {
            lemma_optional_results_fixpoint(e.results, b->WebSearchEnd_0.results);
        },
        _ => {},
    }
}

/// Whether every web search result list that a rollout item carries fits in
/// the history budget.
pub open spec fn rollout_results_fit(item: RolloutItem) -> bool {
    match item {
        RolloutItem::EventMsg(ev) => event_results_fit(ev),
        _ => true,
    }
}

/// Preparing an item for durable storage a second time changes nothing,
/// unless a web search result list of the prepared item is over the budget
/// (its placeholders can be longer than what they replaced).
pub proof fn lemma_rollout_without_media_fixpoint(a: RolloutItem, b: RolloutItem)
    requires
        rollout_without_media(a, b),
        rollout_results_fit(b),
    ensures
        rollout_without_media(b, b),
{
    match a {
        RolloutItem::ResponseItem(e) => {
            lemma_response_fixpoint(e.item, b->ResponseItem_0.item);
        },
        RolloutItem::Compacted(c) => {
            if let Some(h) = c.replacement_history {
                lemma_envelopes_fixpoint(h@, b->Compacted_0.replacement_history->0@);
            }
        },
        RolloutItem::EventMsg(e) => {
            lemma_event_fixpoint(e, b->EventMsg_0);
        },
        _ => {},
    }
}

/// Every response item kept for memories is also kept in rollout files.
pub proof fn lemma_memories_within_rollout(item: ResponseItem)
    ensures
        spec_should_persist_response_item_for_memories(item) ==> spec_should_persist_response_item(
            item,
        ),
{
}

/// Removing inline media does not change whether an item is persisted.
pub proof fn lemma_without_media_keeps_persistence(
    a: RolloutItem,
    b: RolloutItem,
    mode: ThreadHistoryMode,
)
    requires
        rollout_without_media(a, b),
    ensures
        spec_is_persisted_rollout_item(b, mode) == spec_is_persisted_rollout_item(a, mode),
{
}

/// Persisting the items that persistence wrote keeps every one of them and
/// changes none, unless a web search result list among them is over the
/// budget.
pub proof fn lemma_persisting_twice_changes_nothing(
    a: Seq<RolloutItem>,
    b: Seq<RolloutItem>,
    mode: ThreadHistoryMode,
)
    requires
        persisted_items(a, b, mode),
        forall|i: int| 0 <= i < b.len() ==> rollout_results_fit(#[trigger] b[i]),
    ensures
        persisted_items(b, b, mode),
    decreases a.len(),
{
    if a.len() == 0 {
    } else if spec_is_persisted_rollout_item(a.last(), mode) {
        let rest = b.drop_last();
        assert forall|i: int| 0 <= i < rest.len() implies rollout_results_fit(#[trigger] rest[i]) by {
            assert(rest[i] == b[i]);
        }
        lemma_persisting_twice_changes_nothing(a.drop_last(), rest, mode);
        lemma_without_media_keeps_persistence(a.last(), b.last(), mode);
        assert(rollout_results_fit(b[b.len() - 1]));
        lemma_rollout_without_media_fixpoint(a.last(), b.last());
    } else {
        lemma_persisting_twice_changes_nothing(a.drop_last(), b, mode);
    }
}

/// Paginated history keeps every completed turn item.
pub proof fn lemma_paginated_keeps_completed_items(e: ItemCompletedEvent)
    ensures
        spec_should_persist_event_msg(EventMsg::ItemCompleted(e), ThreadHistoryMode::Paginated),
{
}

/// The legacy events are kept in legacy history and never in paginated
/// history, which keeps completed turn items in their place.
pub proof fn lemma_legacy_events_only_in_legacy_history(ev: EventMsg)
    requires
        is_legacy_event(ev),
    ensures
        spec_should_persist_event_msg(ev, ThreadHistoryMode::Legacy),
        !spec_should_persist_event_msg(ev, ThreadHistoryMode::Paginated),
{
}

/// Events that are neither durable, nor legacy, nor a completed item or
/// sub-agent activity are transient: no history keeps them.
pub proof fn lemma_transient_events_never_persisted(ev: EventMsg, mode: ThreadHistoryMode)
    requires
        !is_durable_event(ev),
        !is_legacy_event(ev),
        !(ev is ItemCompleted),
        !(ev is SubAgentActivity),
    ensures
        !spec_should_persist_event_msg(ev, mode),
{
}

/// Durable events (token counts, turn boundaries, goals, rollbacks, applied
/// settings) are kept in every history mode.
pub proof fn lemma_durable_events_always_kept(ev: EventMsg, mode: ThreadHistoryMode)
    requires
        is_durable_event(ev),
    ensures
        spec_should_persist_event_msg(ev, mode),
{
}

/// Memories keep every message that the developer did not write, assistant
/// and user messages alike, and no developer message.
pub proof fn lemma_memories_keep_messages_not_from_developer(item: ResponseItem)
    ensures
        item matches ResponseItem::Message { role, .. } ==> (
        spec_should_persist_response_item_for_memories(item) <==> role@ != "developer"@),
        item matches ResponseItem::Message { role, .. } && role@ == "assistant"@
            ==> spec_should_persist_response_item_for_memories(item),
{
    reveal_strlit("assistant");
    reveal_strlit("developer");
    if let ResponseItem::Message { role, .. } = item {
        if role@ == "assistant"@ {
            assert(role@[0] != "developer"@[0]);
        }
    }
}

/// Compaction markers, turn contexts, world states, risk scores, session
/// metadata and inter-agent messages are persisted in every history mode;
/// whether any item but an event or a realtime item is persisted does not
/// depend on the mode; realtime items are persisted in paginated history
/// only.
pub proof fn lemma_markers_persisted_in_every_mode(item: RolloutItem, mode: ThreadHistoryMode)
    ensures
        !(item is ResponseItem || item is EventMsg || item is RealtimeItem)
            ==> spec_is_persisted_rollout_item(item, mode),
        !(item is EventMsg || item is RealtimeItem) ==> (spec_is_persisted_rollout_item(
            item,
            ThreadHistoryMode::Legacy,
        ) == spec_is_persisted_rollout_item(item, ThreadHistoryMode::Paginated)),
        item is RealtimeItem ==> (spec_is_persisted_rollout_item(item, mode) <==> mode
            == ThreadHistoryMode::Paginated),
{
}

/// Appending a single marker item (compaction, turn context, world state,
/// risk score, session metadata, inter-agent message) writes exactly one
/// item, its copy prepared for durable storage, in every history mode.
pub proof fn lemma_marker_append_writes_it(item: RolloutItem, b: Seq<RolloutItem>, mode: ThreadHistoryMode)
    requires
        !(item is ResponseItem || item is EventMsg || item is RealtimeItem),
        persisted_items(seq![item], b, mode),
    ensures
        b.len() == 1,
        rollout_without_media(item, b[0]),
{
    let a = seq![item];
    assert(a.last() == item);
    assert(a.drop_last() =~= Seq::<RolloutItem>::empty());
    assert(spec_is_persisted_rollout_item(a.last(), mode));
    assert(persisted_items(a.drop_last(), b.drop_last(), mode));
    assert(persisted_items(Seq::<RolloutItem>::empty(), b.drop_last(), mode));
    assert(b.drop_last().len() == 0);
}

/// Legacy history keeps a completed turn item exactly when it is a function
/// call output, a plan, a sleep, or a completed sub-agent activity: the
/// other kinds have a raw response item or a legacy event in their place.
pub proof fn lemma_legacy_completed_items(e: ItemCompletedEvent)
    ensures
        spec_should_persist_event_msg(EventMsg::ItemCompleted(e), ThreadHistoryMode::Legacy) <==> (
        e.item is FunctionCallOutput || e.item is Plan || e.item matches TurnItem::Extension(
            ExtensionItem::Sleep(_),
        ) || (e.item matches TurnItem::SubAgentActivity(a) && a.kind
            == SubAgentActivityKind::Completed)),
        e.item is UserMessage ==> !spec_should_persist_event_msg(
            EventMsg::ItemCompleted(e),
            ThreadHistoryMode::Legacy,
        ),
{
}

/// A user message is persisted in exactly one form in each history mode:
/// legacy history keeps the user message event, paginated history the
/// completed user message item.
pub proof fn lemma_user_message_persisted_once(
    e: ItemCompletedEvent,
    u: UserMessageEvent,
    mode: ThreadHistoryMode,
)
    requires
        e.item is UserMessage,
    ensures
        spec_should_persist_event_msg(EventMsg::ItemCompleted(e), mode) != spec_should_persist_event_msg(
            EventMsg::UserMessage(u),
            mode,
        ),
        spec_should_persist_event_msg(EventMsg::ItemCompleted(e), mode) <==> mode
            == ThreadHistoryMode::Paginated,
{
}

/// Tool output audio counts as inline exactly when its URL begins with
/// `data:audio/`, whatever the subtype after it.
pub proof fn lemma_inline_tool_audio_is_data_audio(url: Seq<char>)
    ensures
        spec_is_inline_tool_audio(url) <==> "data:audio/"@.is_prefix_of(url),
{
    lemma_data_audio_prefix(url);
}

/// In the persisted copy, tool output audio whose URL begins with
/// `data:audio/` is replaced by the audio placeholder, and any other audio
/// is kept as it is; the same holds of dynamic tool output.
pub proof fn lemma_inline_tool_audio_replaced(
    a: FunctionCallOutputContentItem,
    b: FunctionCallOutputContentItem,
    c: DynamicToolCallOutputContentItem,
    d: DynamicToolCallOutputContentItem,
)
    requires
        tool_item_without_media(a, b),
        dynamic_item_without_media(c, d),
    ensures
        a matches FunctionCallOutputContentItem::InputAudio { audio_url } ==> (if "data:audio/"@.is_prefix_of(
            audio_url@,
        ) {
            b matches FunctionCallOutputContentItem::InputText { text } && text@
                == OMITTED_INLINE_TOOL_AUDIO@
        } else {
            b == a
        }),
        c matches DynamicToolCallOutputContentItem::InputAudio { audio_url } ==> (if "data:audio/"@.is_prefix_of(
            audio_url@,
        ) {
            d matches DynamicToolCallOutputContentItem::InputText { text } && text@
                == OMITTED_INLINE_TOOL_AUDIO@
        } else {
            d == c
        }),
{
    if let FunctionCallOutputContentItem::InputAudio { audio_url } = a {
        lemma_data_audio_prefix(audio_url@);
    }
    if let DynamicToolCallOutputContentItem::InputAudio { audio_url } = c {
        lemma_data_audio_prefix(audio_url@);
    }
}

/// The displayed working directory follows only commands that the agent or
/// a unified exec startup ran: a user shell command or an interaction with a
/// running process never moves it, whatever its status, and neither does a
/// declined command.
pub proof fn lemma_command_cwd_follows_agent_starts(item: ThreadItem)
    ensures
        is_command_start(item) <==> (item matches ThreadItem::CommandExecution {
            source,
            status,
            ..
        } && (source == CommandExecutionSource::Agent || source
            == CommandExecutionSource::UnifiedExecStartup) && status
            != CommandExecutionStatus::Declined),
        item matches ThreadItem::CommandExecution { source, .. } && (source
            == CommandExecutionSource::UserShell || source
            == CommandExecutionSource::UnifiedExecInteraction) ==> !is_command_start(item),
{
}

} // verus!
