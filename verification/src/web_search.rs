//! The standalone web-search item and the filter that keeps inline media
//! bytes and oversized opaque results out of its history copy.

use vstd::prelude::*;
use crate::json::{JsonValue, json_same, json_array_bytes, json_array_text, member_lookup, value_lookup, text_eq, object_get, value_get};

verus! {

/// The most bytes that a history copy keeps of a web search's results, as
/// compact JSON.
pub const MAX_PERSISTED_RESULTS_BYTES: usize = 1048576;

/// What stands in history for an inline media value in opaque results.
pub const OMITTED_WEB_SEARCH_MEDIA: &'static str = "[inline web search media omitted from history]";

/// What stands in history for results too large to keep.
pub const OMITTED_OVERSIZED_RESULTS: &'static str = "[oversized web search results omitted from history]";

/// The web search action, as the app server describes it.
#[derive(Debug, Clone, PartialEq, Eq)]
pub enum WebSearchAction {
    Search { query: Option<String>, queries: Option<Vec<String>> },
    OpenPage { url: Option<String> },
    FindInPage { url: Option<String>, pattern: Option<String> },
    Other,
}

/// A standalone web-search item, with its structured results held as opaque
/// JSON.
#[derive(Debug, PartialEq)]
pub struct WebSearchItem {
    pub id: String,
    pub query: String,
    pub action: Option<WebSearchAction>,
    pub results: Option<Vec<JsonValue>>,
}

/// ASCII upper-case letters mapped to lower case; every other byte kept.
pub open spec fn ascii_lower(b: u8) -> u8 {
    if 65 <= b <= 90 { (b + 32) as u8 } else { b }
}

/// Whether the UTF-8 text of `s` begins with `data:`, compared without
/// regard to ASCII case.
pub open spec fn spec_has_data_scheme(s: Seq<char>) -> bool {
    let b = vstd::utf8::encode_utf8(s);
    &&& b.len() >= 5
    &&& ascii_lower(b[0]) == 0x64
    &&& ascii_lower(b[1]) == 0x61
    &&& ascii_lower(b[2]) == 0x74
    &&& ascii_lower(b[3]) == 0x61
    &&& b[4] == 0x3a
}

fn ascii_lower_exec(b: u8) -> (r: u8)
    ensures
        r == ascii_lower(b),
{
    if 65 <= b && b <= 90 { b + 32 } else { b }
}

/// Whether `value` begins with the `data:` URL scheme, in any ASCII case.
pub fn has_data_scheme(value: &str) -> (r: bool)
    ensures
        r == spec_has_data_scheme(value@),
{
    let b = value.as_bytes();
    b.len() >= 5 && ascii_lower_exec(b[0]) == 0x64 && ascii_lower_exec(b[1]) == 0x61
        && ascii_lower_exec(b[2]) == 0x74 && ascii_lower_exec(b[3]) == 0x61 && b[4] == 0x3a
}

/// Whether an object's members mark it as inline media: a `type` of
/// `image` or `audio`, or a `resource` that carries a `blob`.
pub open spec fn is_media_object(members: Seq<(String, JsonValue)>) -> bool {
    ||| (match member_lookup(members, "type"@) {
        Some(JsonValue::Str(t)) => t@ == "image"@ || t@ == "audio"@,
        _ => false,
    })
    ||| (match member_lookup(members, "resource"@) {
        Some(resource) => value_lookup(resource, "blob"@) is Some,
        None => false,
    })
}

/// Whether `v` is the object `{"text": text, "type": "text"}`.
pub open spec fn is_text_object(v: JsonValue, text: Seq<char>) -> bool {
    &&& v matches JsonValue::Object(ms)
    &&& ms@.len() == 2
    &&& ms@[0].0@ == "text"@
    &&& ms@[0].1 matches JsonValue::Str(t) && t@ == text
    &&& ms@[1].0@ == "type"@
    &&& ms@[1].1 matches JsonValue::Str(u) && u@ == "text"@
}

/// `b` is `a` with its inline media replaced by `placeholder`: a string
/// with a `data:` scheme becomes the placeholder string, a media object
/// becomes a text object holding the placeholder, arrays and other objects
/// are filtered member by member, and every other value is kept.
pub open spec fn json_without_media(a: JsonValue, b: JsonValue, placeholder: Seq<char>) -> bool
    decreases a,
{
    match a {
        JsonValue::Str(s) => if spec_has_data_scheme(s@) {
            b matches JsonValue::Str(t) && t@ == placeholder
        } else {
            b == a
        },
        JsonValue::Array(vs) => {
            &&& b matches JsonValue::Array(ws)
            &&& ws@.len() == vs@.len()
            &&& forall|i: int|
                0 <= i < vs@.len() ==> json_without_media(
                    #[trigger] vs@[i],
                    ws@[i],
                    placeholder,
                )
        },
        JsonValue::Object(ms) => if is_media_object(ms@) {
            is_text_object(b, placeholder)
        } else {
            &&& b matches JsonValue::Object(ns)
            &&& ns@.len() == ms@.len()
            &&& forall|i: int|
                0 <= i < ms@.len() ==> (#[trigger] ns@[i]).0 == ms@[i].0 && json_without_media(
                    ms@[i].1,
                    ns@[i].1,
                    placeholder,
                )
        },
        _ => b == a,
    }
}

/// Whether a value holds no inline media at any depth: no string with a
/// `data:` scheme and no media object.
pub open spec fn json_media_free(a: JsonValue) -> bool
    decreases a,
{
    match a {
        JsonValue::Str(s) => !spec_has_data_scheme(s@),
        JsonValue::Array(vs) => forall|i: int| 0 <= i < vs@.len() ==> json_media_free(#[trigger] vs@[i]),
        JsonValue::Object(ms) => {
            &&& !is_media_object(ms@)
            &&& forall|i: int| 0 <= i < ms@.len() ==> json_media_free((#[trigger] ms@[i]).1)
        },
        _ => true,
    }
}

/// The object `{"text": text, "type": "text"}`.
pub fn text_object(text: &str) -> (r: JsonValue)
    ensures
        is_text_object(r, text@),
{
    let mut ms: Vec<(String, JsonValue)> = Vec::new();
    ms.push(("text".to_owned(), JsonValue::Str(text.to_owned())));
    ms.push(("type".to_owned(), JsonValue::Str("text".to_owned())));
    JsonValue::Object(ms)
}

fn is_media_object_exec(ms: &Vec<(String, JsonValue)>) -> (r: bool)
    ensures
        r == is_media_object(ms@),
{
    let typed = match object_get(ms, "type") {
        Some(JsonValue::Str(t)) => text_eq(t.as_str(), "image") || text_eq(t.as_str(), "audio"),
        _ => false,
    };
    if typed {
        return true;
    }
    match object_get(ms, "resource") {
        Some(resource) => value_get(resource, "blob").is_some(),
        None => false,
    }
}

/// `value` with its inline media replaced by `placeholder`.
#[verifier::loop_isolation(false)]
pub fn value_without_media(value: JsonValue, placeholder: &str) -> (r: JsonValue)
    ensures
        json_without_media(value, r, placeholder@),
    decreases value,
{
    let ghost v0 = value;
    match value {
        JsonValue::Str(s) => {
            if has_data_scheme(s.as_str()) {
                JsonValue::Str(placeholder.to_owned())
            } else {
                JsonValue::Str(s)
            }
        },
        JsonValue::Array(vs) => {
            let ghost orig = vs@;
            let ghost vsg = vs;
            let mut out: Vec<JsonValue> = Vec::new();
            for x in it: vs
                invariant
                    it.seq() == orig,
                    v0 == JsonValue::Array(vsg),
                    vsg@ == orig,
                    out@.len() == it.index(),
                    forall|j: int|
                        0 <= j < it.index() ==> json_without_media(
                            orig[j],
                            #[trigger] out@[j],
                            placeholder@,
                        ),
            {
                proof {
                    let k = it.index() as int;
                    assert(v0->Array_0 == vsg);
                    assert(decreases_to!(v0 => v0->Array_0));
                    vstd::std_specs::vec::axiom_vec_decreases_to_view(vsg);
                    vstd::seq::axiom_seq_index_decreases(orig, k);
                }
                let y = value_without_media(x, placeholder);
                out.push(y);
            }
            JsonValue::Array(out)
        },
        JsonValue::Object(ms) => {
            if is_media_object_exec(&ms) {
                return text_object(placeholder);
            }
            let ghost orig = ms@;
            let ghost msg = ms;
            let mut out: Vec<(String, JsonValue)> = Vec::new();
            for m in it: ms
                invariant
                    it.seq() == orig,
                    v0 == JsonValue::Object(msg),
                    msg@ == orig,
                    out@.len() == it.index(),
                    forall|j: int|
                        0 <= j < it.index() ==> (#[trigger] out@[j]).0 == orig[j].0
                            && json_without_media(orig[j].1, out@[j].1, placeholder@),
            {
                proof {
                    let k = it.index() as int;
                    assert(v0->Object_0 == msg);
                    assert(decreases_to!(v0 => v0->Object_0));
                    vstd::std_specs::vec::axiom_vec_decreases_to_view(msg);
                    vstd::seq::axiom_seq_index_decreases(orig, k);
                    assert(decreases_to!(orig[k] => orig[k].1));
                }
                let (key, inner) = m;
                let y = value_without_media(inner, placeholder);
                out.push((key, y));
            }
            JsonValue::Object(out)
        },
        other => other,
    }
}

/// `value` with its inline media replaced by the web-search placeholder.
/// The result holds no inline media, so filtering it again gives the same
/// JSON; a value without inline media comes back as the same JSON.
pub fn clone_value_without_inline_media(value: JsonValue) -> (r: JsonValue)
    ensures
        json_without_media(value, r, OMITTED_WEB_SEARCH_MEDIA@),
        json_media_free(r),
        json_media_free(value) ==> json_same(value, r),
{
    let r = value_without_media(value, OMITTED_WEB_SEARCH_MEDIA);
    proof {
        crate::laws::lemma_web_placeholders_inert();
        crate::laws::lemma_filtered_json_media_free(value, r, OMITTED_WEB_SEARCH_MEDIA@);
        if json_media_free(value) {
            crate::laws::lemma_media_free_json_kept(value, r, OMITTED_WEB_SEARCH_MEDIA@);
        }
    }
    r
}


/// Refusal of a write that would go past a writer's byte budget.
#[derive(Debug, PartialEq, Eq)]
pub struct HistoryLimitExceeded;

/// A sink that only counts bytes and refuses any write past its budget.
/// The bytes it has accepted and the budget that remains always add up to
/// the limit it was made with.
pub struct SizeLimitWriter {
    remaining: usize,
    limit: Ghost<nat>,
}

/// What remains of a budget after a write of `len` bytes: the write is taken
/// whole when it fits and refused, taking nothing, when it does not.
pub open spec fn write_step(remaining: nat, len: nat) -> nat {
    if len <= remaining {
        (remaining - len) as nat
    } else {
        remaining
    }
}

/// What remains of a budget of `limit` after writes of the lengths `lens`,
/// in order.
pub open spec fn remaining_after(limit: nat, lens: Seq<nat>) -> nat
    decreases lens.len(),
{
    if lens.len() == 0 {
        limit
    } else {
        write_step(remaining_after(limit, lens.drop_last()), lens.last())
    }
}

/// How many bytes a budget of `limit` accepts of writes of the lengths
/// `lens`, in order.
pub open spec fn accepted_after(limit: nat, lens: Seq<nat>) -> nat
    decreases lens.len(),
{
    if lens.len() == 0 {
        0
    } else {
        accepted_after(limit, lens.drop_last()) + if lens.last() <= remaining_after(
            limit,
            lens.drop_last(),
        ) {
            lens.last()
        } else {
            0
        }
    }
}

/// Over any sequence of writes, the bytes accepted and the budget that
/// remains add up to the limit, so no more than the limit is ever accepted.
pub proof fn lemma_writes_stay_within_budget(limit: nat, lens: Seq<nat>)
    ensures
        accepted_after(limit, lens) + remaining_after(limit, lens) == limit,
        accepted_after(limit, lens) <= limit,
    decreases lens.len(),
{
    if lens.len() > 0 {
        lemma_writes_stay_within_budget(limit, lens.drop_last());
    }
}

impl SizeLimitWriter {
    #[verifier::type_invariant]
    spec fn within_limit(&self) -> bool {
        self.remaining <= self.limit@
    }

    /// How many more bytes the writer accepts.
    pub closed spec fn spec_remaining(&self) -> nat {
        self.remaining as nat
    }

    /// The budget the writer was made with.
    pub closed spec fn spec_limit(&self) -> nat {
        self.limit@
    }

    /// How many bytes the writer has accepted.
    pub closed spec fn spec_accepted(&self) -> nat {
        (self.limit@ - self.remaining) as nat
    }

    /// A writer that accepts `limit` bytes.
    pub fn new(limit: usize) -> (w: Self)
        ensures
            w.spec_limit() == limit,
            w.spec_remaining() == limit,
            w.spec_accepted() == 0,
    {
        Self { remaining: limit, limit: Ghost(limit as nat) }
    }

    /// How many more bytes the writer accepts.
    pub fn remaining(&self) -> (r: usize)
        ensures
            r == self.spec_remaining(),
            self.spec_accepted() + self.spec_remaining() == self.spec_limit(),
    {
        proof {
            use_type_invariant(self);
        }
        self.remaining
    }

    /// Takes all of `buffer` when it fits in what remains of the budget, and
    /// refuses it, taking nothing, when it does not.
    pub fn write(&mut self, buffer: &[u8]) -> (r: Result<usize, HistoryLimitExceeded>)
        ensures
            final(self).spec_limit() == old(self).spec_limit(),
            final(self).spec_accepted() + final(self).spec_remaining() == final(self).spec_limit(),
            final(self).spec_remaining() == write_step(old(self).spec_remaining(), buffer@.len()),
            r is Ok <==> buffer@.len() <= old(self).spec_remaining(),
            r is Ok ==> r == Ok::<usize, HistoryLimitExceeded>(buffer@.len() as usize)
                && final(self).spec_accepted() == old(self).spec_accepted() + buffer@.len(),
            r is Err ==> final(self).spec_accepted() == old(self).spec_accepted(),
    {
        proof {
            use_type_invariant(&*self);
        }
        if buffer.len() > self.remaining {
            return Err(HistoryLimitExceeded);
        }
        self.remaining = self.remaining - buffer.len();
        Ok(buffer.len())
    }

    /// Nothing is buffered, so there is nothing to flush.
    pub fn flush(&mut self) -> (r: Result<(), HistoryLimitExceeded>)
        ensures
            r is Ok,
            final(self).spec_limit() == old(self).spec_limit(),
            final(self).spec_remaining() == old(self).spec_remaining(),
            final(self).spec_accepted() + final(self).spec_remaining() == final(self).spec_limit(),
    {
        proof {
            use_type_invariant(&*self);
        }
        Ok(())
    }
}

/// Whether the compact JSON text of `results` fits in the history budget.
pub open spec fn results_fit(results: Seq<JsonValue>) -> bool {
    json_array_bytes(results).len() <= MAX_PERSISTED_RESULTS_BYTES
}

/// `b` is the history copy of the results `a`: each value without its inline
/// media when their JSON text fits in the budget, and otherwise the single
/// text object saying that the results were omitted.
pub open spec fn results_without_media(a: Seq<JsonValue>, b: Seq<JsonValue>) -> bool {
    if results_fit(a) {
        &&& b.len() == a.len()
        &&& forall|i: int|
            0 <= i < a.len() ==> json_without_media(
                #[trigger] a[i],
                b[i],
                OMITTED_WEB_SEARCH_MEDIA@,
            )
    } else {
        &&& b.len() == 1
        &&& is_text_object(b[0], OMITTED_OVERSIZED_RESULTS@)
    }
}

/// The history copy of opaque web search results.
pub fn results_without_inline_media(results: Vec<JsonValue>) -> (r: Vec<JsonValue>)
    ensures
        results_without_media(results@, r@),
{
    let mut counter = SizeLimitWriter::new(MAX_PERSISTED_RESULTS_BYTES);
    let text = json_array_text(&results);
    if counter.write(text.as_slice()).is_err() {
        return vec![text_object(OMITTED_OVERSIZED_RESULTS)];
    }
    let ghost orig = results@;
    let mut out: Vec<JsonValue> = Vec::new();
    for x in it: results
        invariant
            it.seq() == orig,
            results_fit(orig),
            out@.len() == it.index(),
            forall|j: int|
                0 <= j < it.index() ==> json_without_media(
                    orig[j],
                    #[trigger] out@[j],
                    OMITTED_WEB_SEARCH_MEDIA@,
                ),
    {
        out.push(clone_value_without_inline_media(x));
    }
    out
}

/// `b` is the history copy of the optional results `a`.
pub open spec fn optional_results_without_media(
    a: Option<Vec<JsonValue>>,
    b: Option<Vec<JsonValue>>,
) -> bool {
    match a {
        None => b is None,
        Some(rs) => b matches Some(qs) && results_without_media(rs@, qs@),
    }
}

impl WebSearchItem {
    /// The UI/history copy: identity, query and action kept, results without
    /// inline media bytes.
    pub fn without_inline_media(self) -> (r: Self)
        ensures
            r.id == self.id,
            r.query == self.query,
            r.action == self.action,
            optional_results_without_media(self.results, r.results),
    {
        let results = match self.results {
            Some(rs) => Some(results_without_inline_media(rs)),
            None => None,
        };
        WebSearchItem { id: self.id, query: self.query, action: self.action, results }
    }
}

} // verus!
