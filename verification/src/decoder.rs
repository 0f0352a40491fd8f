//! Incremental stream decoding.
//!
//! The transport delivers arbitrarily sized byte chunks with no alignment
//! to frame boundaries. The decoder buffers input, extracts every complete
//! newline-terminated frame, ignores frames without the `data: ` prefix,
//! stops at the `[DONE]` sentinel, and decodes each remaining payload into
//! an event record, skipping payloads that fail structural decoding.
//!
//! The frame discipline is specified and verified here down to the bytes;
//! what a single JSON payload decodes to is pinned by named results of
//! small trusted wrappers over serde_json.

use vstd::prelude::*;
use crate::chat::ChatChunk;
use crate::chat::ChunkChoice;
use crate::chat::MessageDelta;
use crate::chat::Role;
use crate::chat::ToolCallDelta;
use crate::chat::ToolFunctionDelta;
use crate::strutil::str_eq;

verus! {

// ---------------------------------------------------------------------
// Raw payload splitting, behind trusted wrappers.
// ---------------------------------------------------------------------
/// The top level of one event payload: its metadata fields and the
/// re-serialized text of each choice.
#[derive(Debug)]
pub struct RawChunk {
    /// `id` field, empty when absent.
    pub id: String,
    /// `object` field, empty when absent.
    pub object: String,
    /// `created` field, zero when absent.
    pub created: u64,
    /// `model` field, empty when absent.
    pub model: String,
    /// The serialized text of each element of `choices`.
    pub choice_jsons: Vec<Vec<u8>>,
}

/// The scalar fields of one choice of an event payload.
#[derive(Debug)]
pub struct RawChoice {
    /// `index` field, zero when absent.
    pub index: u64,
    /// `delta.role` field.
    pub role: Option<String>,
    /// `delta.content` field.
    pub content: Option<String>,
    /// `finish_reason` field.
    pub finish_reason: Option<String>,
}

/// The scalar fields of one tool-call fragment.
#[derive(Debug)]
pub struct RawToolDelta {
    /// `index` field; required.
    pub index: u64,
    /// `id` field.
    pub id: Option<String>,
    /// The serialized text of the `function` object, when present.
    pub function_json: Option<Vec<u8>>,
}

/// The fields of a function fragment.
#[derive(Debug)]
pub struct RawToolFn {
    /// `name` field.
    pub name: Option<String>,
    /// `arguments` field.
    pub arguments: Option<String>,
}

/// What `parse_chunk_raw` returns for a given payload; the result depends
/// on the payload bytes alone.
pub uninterp spec fn raw_chunk_of(payload: Seq<u8>) -> Option<RawChunk>;

/// What `parse_choice_raw` returns for a given choice text; the result
/// depends on the bytes alone.
pub uninterp spec fn raw_choice_of(cj: Seq<u8>) -> Option<RawChoice>;

/// What `parse_choice_tools_raw` returns for a given choice text; the
/// result depends on the bytes alone.
pub uninterp spec fn raw_choice_tools_of(cj: Seq<u8>) -> Option<Option<Vec<Vec<u8>>>>;

/// What `parse_tool_delta_raw` returns for a given fragment text; the
/// result depends on the bytes alone.
pub uninterp spec fn raw_tool_delta_of(tj: Seq<u8>) -> Option<RawToolDelta>;

/// What `parse_tool_fn_raw` returns for a given function text; the
/// result depends on the bytes alone.
pub uninterp spec fn raw_tool_fn_of(fj: Seq<u8>) -> Option<RawToolFn>;

/// Relies on serde_json::from_slice to parse one event payload, on
/// serde_json::Value's accessors to read its top-level fields, and on
/// serde_json::to_vec to re-serialize each choice. Parsing and
/// serialization are functions of the bytes alone. The payload must be a
/// JSON object whose `choices` field is an array; `id`, `object`,
/// `created` and `model` take defaults when absent and reject the payload
/// when present with the wrong type.
#[verifier::external_body]
fn parse_chunk_raw(payload: &[u8]) -> (r: Option<RawChunk>)
    ensures
        r == raw_chunk_of(payload@),
{
    let v: serde_json::Value = serde_json::from_slice(payload).ok()?;
    let choice_jsons = v.get("choices")?.as_array()?.iter().map(|c| serde_json::to_vec(c).unwrap_or_default()).collect();
    Some(RawChunk {
        id: match v.get("id") { None => String::new(), Some(x) => x.as_str()?.to_owned() },
        object: match v.get("object") { None => String::new(), Some(x) => x.as_str()?.to_owned() },
        created: match v.get("created") { None => 0, Some(x) => x.as_u64()? },
        model: match v.get("model") { None => String::new(), Some(x) => x.as_str()?.to_owned() },
        choice_jsons,
    })
}

/// Relies on serde_json::from_slice and serde_json::Value's accessors to
/// read the scalar fields of one choice: a `delta` object is required,
/// `index` defaults to zero, and the optional string fields treat `null`
/// as absent and reject any other non-string value.
#[verifier::external_body]
fn parse_choice_raw(cj: &[u8]) -> (r: Option<RawChoice>)
    ensures
        r == raw_choice_of(cj@),
{
    let v: serde_json::Value = serde_json::from_slice(cj).ok()?;
    let d = v.get("delta")?;
    if !d.is_object() {
        return None;
    }
    Some(RawChoice {
        index: match v.get("index") { None => 0, Some(x) => x.as_u64()? },
        role: match d.get("role") { None | Some(serde_json::Value::Null) => None, Some(x) => Some(x.as_str()?.to_owned()) },
        content: match d.get("content") { None | Some(serde_json::Value::Null) => None, Some(x) => Some(x.as_str()?.to_owned()) },
        finish_reason: match v.get("finish_reason") { None | Some(serde_json::Value::Null) => None, Some(x) => Some(x.as_str()?.to_owned()) },
    })
}

/// Relies on serde_json::from_slice, serde_json::Value's accessors and
/// serde_json::to_vec to re-serialize the `delta.tool_calls` array of one
/// choice; absent or `null` stays absent, and anything but an array
/// rejects the choice.
#[verifier::external_body]
fn parse_choice_tools_raw(cj: &[u8]) -> (r: Option<Option<Vec<Vec<u8>>>>)
    ensures
        r == raw_choice_tools_of(cj@),
{
    let v: serde_json::Value = serde_json::from_slice(cj).ok()?;
    match v.get("delta")?.get("tool_calls") {
        None | Some(serde_json::Value::Null) => Some(None),
        Some(t) => Some(Some(t.as_array()?.iter().map(|x| serde_json::to_vec(x).unwrap_or_default()).collect())),
    }
}

/// Relies on serde_json::from_slice and serde_json::Value's accessors to
/// read one tool-call fragment: `index` is required, the `id` field
/// treats `null` as absent and rejects any other non-string value, and
/// serde_json::to_vec re-serializes the `function` object.
#[verifier::external_body]
fn parse_tool_delta_raw(tj: &[u8]) -> (r: Option<RawToolDelta>)
    ensures
        r == raw_tool_delta_of(tj@),
{
    let v: serde_json::Value = serde_json::from_slice(tj).ok()?;
    Some(RawToolDelta {
        index: v.get("index")?.as_u64()?,
        id: match v.get("id") { None | Some(serde_json::Value::Null) => None, Some(x) => Some(x.as_str()?.to_owned()) },
        function_json: match v.get("function") { None | Some(serde_json::Value::Null) => None, Some(x) => Some(serde_json::to_vec(x).unwrap_or_default()) },
    })
}

/// Relies on serde_json::from_slice and serde_json::Value's accessors to
/// read a function fragment: it must be a JSON object, and the optional
/// string fields treat `null` as absent and reject any other non-string
/// value.
#[verifier::external_body]
fn parse_tool_fn_raw(fj: &[u8]) -> (r: Option<RawToolFn>)
    ensures
        r == raw_tool_fn_of(fj@),
{
    let v: serde_json::Value = serde_json::from_slice(fj).ok()?;
    if !v.is_object() {
        return None;
    }
    Some(RawToolFn {
        name: match v.get("name") { None | Some(serde_json::Value::Null) => None, Some(x) => Some(x.as_str()?.to_owned()) },
        arguments: match v.get("arguments") { None | Some(serde_json::Value::Null) => None, Some(x) => Some(x.as_str()?.to_owned()) },
    })
}

// ---------------------------------------------------------------------
// The mathematical form of a decoded event, and what each payload
// decodes to.
// ---------------------------------------------------------------------
/// The mathematical form of a function fragment.
pub ghost struct ToolFnSpec {
    /// Name fragment.
    pub name: Option<Seq<char>>,
    /// Arguments fragment.
    pub arguments: Option<Seq<char>>,
}

/// The mathematical form of a tool-call fragment.
pub ghost struct ToolDeltaSpec {
    /// Fragment correlation index.
    pub index: u32,
    /// ID fragment.
    pub id: Option<Seq<char>>,
    /// Function fragment.
    pub function: Option<ToolFnSpec>,
}

/// The mathematical form of one choice of an event.
pub ghost struct ChoiceSpec {
    /// Index of the choice.
    pub index: u32,
    /// Role marker.
    pub role: Option<Role>,
    /// Content fragment.
    pub content: Option<Seq<char>>,
    /// Tool-call fragments.
    pub tool_calls: Option<Seq<ToolDeltaSpec>>,
    /// Finish reason.
    pub finish_reason: Option<Seq<char>>,
}

/// The mathematical form of one decoded event record.
pub ghost struct ChunkSpec {
    /// Completion ID.
    pub id: Seq<char>,
    /// Object type.
    pub object: Seq<char>,
    /// Creation timestamp.
    pub created: u64,
    /// Model identifier.
    pub model: Seq<char>,
    /// The choices.
    pub choices: Seq<ChoiceSpec>,
}

/// The view of an optional string.
pub open spec fn view_opt_str(o: Option<String>) -> Option<Seq<char>> {
    match o {
        Some(s) => Some(s@),
        None => None,
    }
}

/// The mathematical form of a function fragment value.
pub open spec fn view_tool_fn(d: ToolFunctionDelta) -> ToolFnSpec {
    ToolFnSpec { name: view_opt_str(d.name), arguments: view_opt_str(d.arguments) }
}

/// The mathematical form of a tool-call fragment value.
pub open spec fn view_tool_delta(d: ToolCallDelta) -> ToolDeltaSpec {
    ToolDeltaSpec {
        index: d.index,
        id: view_opt_str(d.id),
        function: match d.function {
            Some(f) => Some(view_tool_fn(f)),
            None => None,
        },
    }
}

/// The mathematical form of a choice value.
pub open spec fn view_choice(c: ChunkChoice) -> ChoiceSpec {
    ChoiceSpec {
        index: c.index,
        role: c.delta.role,
        content: view_opt_str(c.delta.content),
        tool_calls: match c.delta.tool_calls {
            Some(v) => Some(v@.map(|i: int, x: ToolCallDelta| view_tool_delta(x))),
            None => None,
        },
        finish_reason: view_opt_str(c.finish_reason),
    }
}

/// The mathematical form of an event value.
pub open spec fn view_chunk(c: ChatChunk) -> ChunkSpec {
    ChunkSpec {
        id: c.id@,
        object: c.object@,
        created: c.created,
        model: c.model@,
        choices: c.choices@.map(|i: int, x: ChunkChoice| view_choice(x)),
    }
}

/// The role a wire name denotes.
pub open spec fn spec_role_name(s: Seq<char>) -> Option<Role> {
    if s == "system"@ {
        Some(Role::System)
    } else if s == "user"@ {
        Some(Role::User)
    } else if s == "assistant"@ {
        Some(Role::Assistant)
    } else if s == "tool"@ {
        Some(Role::Tool)
    } else {
        None
    }
}

/// What a tool-call fragment text decodes to: the raw fields, with the
/// index required to fit its width and the function fragment decoded
/// from its own text.
pub open spec fn tool_delta_of(tj: Seq<u8>) -> Option<ToolDeltaSpec> {
    match raw_tool_delta_of(tj) {
        None => None,
        Some(r) => {
            if r.index <= u32::MAX {
                match r.function_json {
                    None => Some(
                        ToolDeltaSpec {
                            index: r.index as u32,
                            id: view_opt_str(r.id),
                            function: None,
                        },
                    ),
                    Some(fj) => match raw_tool_fn_of(fj@) {
                        None => None,
                        Some(f) => Some(
                            ToolDeltaSpec {
                                index: r.index as u32,
                                id: view_opt_str(r.id),
                                function: Some(
                                    ToolFnSpec {
                                        name: view_opt_str(f.name),
                                        arguments: view_opt_str(f.arguments),
                                    },
                                ),
                            },
                        ),
                    },
                }
            } else {
                None
            }
        },
    }
}

/// The role field of a choice: absent stays absent, a known name maps to
/// its role, and an unknown name rejects the choice.
pub open spec fn role_field(o: Option<String>) -> Option<Option<Role>> {
    match o {
        None => Some(None),
        Some(s) => match spec_role_name(s@) {
            Some(r) => Some(Some(r)),
            None => None,
        },
    }
}

/// The tool-call fragments of a choice: every fragment must decode.
pub open spec fn tools_field(tj: Option<Vec<Vec<u8>>>) -> Option<Option<Seq<ToolDeltaSpec>>> {
    match tj {
        None => Some(None),
        Some(v) => {
            if forall|i: int| 0 <= i < v@.len() ==> tool_delta_of(#[trigger] v@[i]@) is Some {
                Some(Some(Seq::new(v@.len(), |i: int| tool_delta_of(v@[i]@).unwrap())))
            } else {
                None
            }
        },
    }
}

/// What one choice text decodes to.
pub open spec fn choice_of(cj: Seq<u8>) -> Option<ChoiceSpec> {
    if raw_choice_of(cj) is Some && raw_choice_tools_of(cj) is Some {
        let r = raw_choice_of(cj).unwrap();
        let tj = raw_choice_tools_of(cj).unwrap();
        if r.index <= u32::MAX && role_field(r.role) is Some && tools_field(tj) is Some {
            Some(
                ChoiceSpec {
                    index: r.index as u32,
                    role: role_field(r.role).unwrap(),
                    content: view_opt_str(r.content),
                    tool_calls: tools_field(tj).unwrap(),
                    finish_reason: view_opt_str(r.finish_reason),
                },
            )
        } else {
            None
        }
    } else {
        None
    }
}

/// What one event payload decodes to, if it decodes at all.
pub open spec fn chunk_of(payload: Seq<u8>) -> Option<ChunkSpec> {
    match raw_chunk_of(payload) {
        None => None,
        Some(rc) => {
            if forall|i: int|
                0 <= i < rc.choice_jsons@.len() ==> choice_of(
                    #[trigger] rc.choice_jsons@[i]@,
                ) is Some {
                Some(
                    ChunkSpec {
                        id: rc.id@,
                        object: rc.object@,
                        created: rc.created,
                        model: rc.model@,
                        choices: Seq::new(
                            rc.choice_jsons@.len(),
                            |i: int| choice_of(rc.choice_jsons@[i]@).unwrap(),
                        ),
                    },
                )
            } else {
                None
            }
        },
    }
}

// ---------------------------------------------------------------------
// Verified decoding of one payload into an event value.
// ---------------------------------------------------------------------
/// Map a wire role name to the role it denotes.
fn role_of_wire(s: &String) -> (r: Option<Role>)
    ensures
        r == spec_role_name(s@),
{
    if str_eq(s.as_str(), "system") {
        Some(Role::System)
    } else if str_eq(s.as_str(), "user") {
        Some(Role::User)
    } else if str_eq(s.as_str(), "assistant") {
        Some(Role::Assistant)
    } else if str_eq(s.as_str(), "tool") {
        Some(Role::Tool)
    } else {
        None
    }
}

/// Decode one tool-call fragment text.
fn parse_tool_delta(tj: &[u8]) -> (r: Option<ToolCallDelta>)
    ensures
        (r is Some) == (tool_delta_of(tj@) is Some),
        r matches Some(d) ==> view_tool_delta(d) == tool_delta_of(tj@).unwrap(),
{
    let raw = match parse_tool_delta_raw(tj) {
        Some(raw) => raw,
        None => {
            return None;
        },
    };
    if raw.index > 0xffff_ffffu64 {
        return None;
    }
    let function = match raw.function_json {
        None => None,
        Some(fj) => match parse_tool_fn_raw(fj.as_slice()) {
            Some(f) => Some(ToolFunctionDelta { name: f.name, arguments: f.arguments }),
            None => {
                return None;
            },
        },
    };
    Some(ToolCallDelta { index: raw.index as u32, id: raw.id, function })
}

/// Decode one choice text.
fn parse_choice(cj: &[u8]) -> (r: Option<ChunkChoice>)
    ensures
        (r is Some) == (choice_of(cj@) is Some),
        r matches Some(c) ==> view_choice(c) == choice_of(cj@).unwrap(),
{
    let raw = match parse_choice_raw(cj) {
        Some(raw) => raw,
        None => {
            return None;
        },
    };
    let raw_tools = match parse_choice_tools_raw(cj) {
        Some(t) => t,
        None => {
            return None;
        },
    };
    if raw.index > 0xffff_ffffu64 {
        return None;
    }
    let role = match raw.role {
        None => None,
        Some(s) => match role_of_wire(&s) {
            Some(r) => Some(r),
            None => {
                return None;
            },
        },
    };
    let tool_calls = match raw_tools {
        None => None,
        Some(tjs) => {
            let mut out: Vec<ToolCallDelta> = Vec::new();
            let mut i: usize = 0;
            loop
                invariant
                    raw_choice_of(cj@) is Some,
                    raw_choice_tools_of(cj@) == Some(Some(tjs)),
                    0 <= i <= tjs@.len(),
                    out@.len() == i,
                    forall|j: int|
                        0 <= j < i ==> tool_delta_of(#[trigger] tjs@[j]@) is Some
                            && view_tool_delta(out@[j]) == tool_delta_of(tjs@[j]@).unwrap(),
                ensures
                    i == tjs@.len(),
                    forall|j: int|
                        0 <= j < i ==> tool_delta_of(#[trigger] tjs@[j]@) is Some
                            && view_tool_delta(out@[j]) == tool_delta_of(tjs@[j]@).unwrap(),
                decreases tjs@.len() - i,
            {
                if i == tjs.len() {
                    break ;
                }
                match parse_tool_delta(tjs[i].as_slice()) {
                    Some(d) => {
                        out.push(d);
                    },
                    None => {
                        proof {
                            assert(tool_delta_of(tjs@[i as int]@) is None);
                            assert(tools_field(Some(tjs)) is None);
                            assert(choice_of(cj@) is None);
                        }
                        return None;
                    },
                }
                i = i + 1;
            }
            proof {
                assert(tools_field(Some(tjs)) matches Some(t) && t matches Some(s) && s
                    =~= out@.map(|k: int, x: ToolCallDelta| view_tool_delta(x)));
            }
            Some(out)
        },
    };
    let c = ChunkChoice {
        index: raw.index as u32,
        delta: MessageDelta { role, content: raw.content, tool_calls },
        finish_reason: raw.finish_reason,
    };
    Some(c)
}

/// Decode one event payload.
pub fn parse_chunk(payload: &[u8]) -> (r: Option<ChatChunk>)
    ensures
        (r is Some) == (chunk_of(payload@) is Some),
        r matches Some(c) ==> view_chunk(c) == chunk_of(payload@).unwrap(),
{
    let raw = match parse_chunk_raw(payload) {
        Some(raw) => raw,
        None => {
            return None;
        },
    };
    let cjs = raw.choice_jsons;
    let mut choices: Vec<ChunkChoice> = Vec::new();
    let mut i: usize = 0;
    loop
        invariant
            raw_chunk_of(payload@) matches Some(rc) && rc.choice_jsons == cjs,
            0 <= i <= cjs@.len(),
            choices@.len() == i,
            forall|j: int|
                0 <= j < i ==> choice_of(#[trigger] cjs@[j]@) is Some && view_choice(
                    choices@[j],
                ) == choice_of(cjs@[j]@).unwrap(),
        ensures
            i == cjs@.len(),
            forall|j: int|
                0 <= j < i ==> choice_of(#[trigger] cjs@[j]@) is Some && view_choice(
                    choices@[j],
                ) == choice_of(cjs@[j]@).unwrap(),
        decreases cjs@.len() - i,
    {
        if i == cjs.len() {
            break ;
        }
        match parse_choice(cjs[i].as_slice()) {
            Some(c) => {
                choices.push(c);
            },
            None => {
                proof {
                    assert(choice_of(cjs@[i as int]@) is None);
                    let rc = raw_chunk_of(payload@).unwrap();
                    assert(choice_of(rc.choice_jsons@[i as int]@) is None);
                    assert(chunk_of(payload@) is None);
                }
                return None;
            },
        }
        i = i + 1;
    }
    let c = ChatChunk {
        id: raw.id,
        object: raw.object,
        created: raw.created,
        model: raw.model,
        choices,
    };
    proof {
        assert(chunk_of(payload@) matches Some(s) && s.choices =~= c.choices@.map(
            |k: int, x: ChunkChoice| view_choice(x),
        ));
    }
    Some(c)
}

// ---------------------------------------------------------------------
// The frame discipline, specified over the raw bytes.
// ---------------------------------------------------------------------
/// The line starts with the meaningful-frame prefix, the bytes of
/// `data: `.
pub open spec fn is_data_line(l: Seq<u8>) -> bool {
    l.len() >= 6 && l[0] == 100 && l[1] == 97 && l[2] == 116 && l[3] == 97 && l[4] == 58 && l[5]
        == 32
}

/// The payload of a meaningful frame: what follows the prefix.
pub open spec fn payload_of(l: Seq<u8>) -> Seq<u8> {
    l.skip(6)
}

/// The payload is the terminal sentinel, the bytes of `[DONE]`.
pub open spec fn is_done_payload(p: Seq<u8>) -> bool {
    p.len() == 6 && p[0] == 91 && p[1] == 68 && p[2] == 79 && p[3] == 78 && p[4] == 69 && p[5]
        == 93
}

/// The line is a meaningful frame carrying the terminal sentinel.
pub open spec fn is_done_line(l: Seq<u8>) -> bool {
    is_data_line(l) && is_done_payload(payload_of(l))
}

/// The outcome of decoding a stretch of input: the events produced, the
/// trailing incomplete frame kept for the next chunk, and whether the
/// terminal sentinel was seen.
pub ghost struct DecodeOut {
    /// The decoded events, in order.
    pub events: Seq<ChunkSpec>,
    /// The trailing bytes after the last newline, still buffered.
    pub rest: Seq<u8>,
    /// Whether the sentinel ended the sequence.
    pub done: bool,
}

/// Decode the input `t` byte by byte, with `line` the frame text read so
/// far: a newline completes a frame, the sentinel frame ends everything,
/// a meaningful frame whose payload decodes yields its event, and every
/// other frame is ignored.
pub open spec fn decode_from(t: Seq<u8>, line: Seq<u8>) -> DecodeOut
    decreases t.len(),
{
    if t.len() == 0 {
        DecodeOut { events: Seq::empty(), rest: line, done: false }
    } else if t[0] == 10 {
        if is_done_line(line) {
            DecodeOut { events: Seq::empty(), rest: Seq::empty(), done: true }
        } else if is_data_line(line) && chunk_of(payload_of(line)) is Some {
            let d = decode_from(t.drop_first(), Seq::empty());
            DecodeOut {
                events: seq![chunk_of(payload_of(line)).unwrap()] + d.events,
                rest: d.rest,
                done: d.done,
            }
        } else {
            decode_from(t.drop_first(), Seq::empty())
        }
    } else {
        decode_from(t.drop_first(), line.push(t[0]))
    }
}

/// The mathematical form of a sequence of event values.
pub open spec fn events_view(s: Seq<ChatChunk>) -> Seq<ChunkSpec> {
    s.map(|i: int, c: ChatChunk| view_chunk(c))
}

// ---------------------------------------------------------------------
// The executable decoder.
// ---------------------------------------------------------------------
/// The line matches the meaningful-frame prefix.
fn line_is_data(line: &Vec<u8>) -> (r: bool)
    ensures
        r == is_data_line(line@),
{
    line.len() >= 6 && line[0] == 100 && line[1] == 97 && line[2] == 116 && line[3] == 97
        && line[4] == 58 && line[5] == 32
}

/// The line is a meaningful frame whose payload is the sentinel.
fn line_is_done(line: &Vec<u8>) -> (r: bool)
    ensures
        r == is_done_line(line@),
{
    let r = line_is_data(line) && line.len() == 12 && line[6] == 91 && line[7] == 68 && line[8]
        == 79 && line[9] == 78 && line[10] == 69 && line[11] == 93;
    proof {
        if is_data_line(line@) {
            assert(payload_of(line@).len() == line@.len() - 6);
            assert(forall|k: int|
                0 <= k < payload_of(line@).len() ==> payload_of(line@)[k] == line@[k + 6]);
        }
    }
    r
}

/// Copy the bytes of `v` from position `k` on.
fn tail_from(v: &Vec<u8>, k: usize) -> (r: Vec<u8>)
    requires
        k <= v@.len(),
    ensures
        r@ == v@.skip(k as int),
{
    let mut r: Vec<u8> = Vec::new();
    let n = v.len();
    let mut j = k;
    while j < n
        invariant
            k <= j <= n,
            n == v@.len(),
            r@ == v@.subrange(k as int, j as int),
        decreases n - j,
    {
        r.push(v[j]);
        j = j + 1;
        proof {
            assert(r@ =~= v@.subrange(k as int, j as int));
        }
    }
    proof {
        assert(v@.subrange(k as int, n as int) =~= v@.skip(k as int));
    }
    r
}

/// Reassembles a byte stream, delivered in arbitrarily sized chunks, into
/// decoded event records. One instance serves one stream: once the
/// sentinel has been seen the decoder stays finished.
#[derive(Debug)]
pub struct StreamDecoder {
    /// The trailing incomplete frame, kept for the next chunk.
    pub buffer: Vec<u8>,
    /// Whether the terminal sentinel has been seen.
    pub done: bool,
}

impl StreamDecoder {
    /// A decoder for a fresh stream.
    pub fn new() -> (d: StreamDecoder)
        ensures
            d.buffer@ == Seq::<u8>::empty(),
            !d.done,
    {
        StreamDecoder { buffer: Vec::new(), done: false }
    }

    /// Feed one chunk of bytes and collect every event it completes.
    ///
    /// The events are exactly those that decoding the buffered bytes
    /// followed by this chunk yields, and the new buffer holds the
    /// trailing incomplete frame; after the sentinel nothing further is
    /// processed or buffered.
    pub fn push_chunk(&mut self, chunk: &[u8]) -> (events: Vec<ChatChunk>)
        ensures
            old(self).done ==> *final(self) == *old(self) && events@ == Seq::<
                ChatChunk,
            >::empty(),
            !old(self).done ==> ({
                let d = decode_from(chunk@, old(self).buffer@);
                &&& events_view(events@) == d.events
                &&& final(self).done == d.done
                &&& final(self).buffer@ == d.rest
            }),
    {
        if self.done {
            proof {
                assert(events_view(Seq::<ChatChunk>::empty()) =~= Seq::<ChunkSpec>::empty());
            }
            return Vec::new();
        }
        let ghost buf0 = self.buffer@;
        let mut events: Vec<ChatChunk> = Vec::new();
        let n = chunk.len();
        let mut i: usize = 0;
        proof {
            assert(chunk@.skip(0) =~= chunk@);
            assert(events_view(Seq::<ChatChunk>::empty()) =~= Seq::<ChunkSpec>::empty());
            assert(Seq::<ChunkSpec>::empty() + decode_from(chunk@, buf0).events =~= decode_from(
                chunk@,
                buf0,
            ).events);
        }
        while i < n
            invariant
                n == chunk@.len(),
                0 <= i <= n,
                !self.done,
                !old(self).done,
                buf0 == old(self).buffer@,
                ({
                    let d = decode_from(chunk@, buf0);
                    let dc = decode_from(chunk@.skip(i as int), self.buffer@);
                    &&& d.events == events_view(events@) + dc.events
                    &&& d.rest == dc.rest
                    &&& d.done == dc.done
                }),
            decreases n - i,
        {
            let ghost pre_i = i as int;
            let ghost pre_buf = self.buffer@;
            proof {
                assert(chunk@.skip(pre_i)[0] == chunk@[pre_i]);
                assert(chunk@.skip(pre_i).drop_first() =~= chunk@.skip(pre_i + 1));
            }
            let b = chunk[i];
            i = i + 1;
            if b == 10 {
                if line_is_done(&self.buffer) {
                    self.done = true;
                    self.buffer.clear();
                    proof {
                        let d = decode_from(chunk@, buf0);
                        assert(decode_from(chunk@.skip(pre_i), pre_buf).events
                            =~= Seq::<ChunkSpec>::empty());
                        assert(d.events =~= events_view(events@));
                    }
                    return events;
                }
                if line_is_data(&self.buffer) {
                    let payload = tail_from(&self.buffer, 6);
                    match parse_chunk(payload.as_slice()) {
                        Some(c) => {
                            proof {
                                let ev = chunk_of(payload_of(pre_buf)).unwrap();
                                assert(view_chunk(c) == ev);
                                assert(events_view(events@.push(c)) =~= events_view(
                                    events@,
                                ).push(ev));
                                assert(events_view(events@) + seq![ev] =~= events_view(
                                    events@.push(c),
                                ));
                                assert(decode_from(chunk@.skip(pre_i), pre_buf).events
                                    =~= seq![ev] + decode_from(
                                    chunk@.skip(pre_i + 1),
                                    Seq::empty(),
                                ).events);
                                assert((events_view(events@) + (seq![ev] + decode_from(
                                    chunk@.skip(pre_i + 1),
                                    Seq::empty(),
                                ).events)) =~= (events_view(events@.push(c)) + decode_from(
                                    chunk@.skip(pre_i + 1),
                                    Seq::empty(),
                                ).events));
                            }
                            events.push(c);
                        },
                        None => {
                        },
                    }
                }
                self.buffer.clear();
            } else {
                self.buffer.push(b);
                proof {
                    assert(self.buffer@ =~= pre_buf.push(b));
                }
            }
        }
        proof {
            let d = decode_from(chunk@, buf0);
            assert(chunk@.skip(i as int) =~= Seq::<u8>::empty());
            assert(decode_from(chunk@.skip(i as int), self.buffer@).events == Seq::<
                ChunkSpec,
            >::empty());
            assert(events_view(events@) + Seq::<ChunkSpec>::empty() =~= events_view(events@));
            assert(d.events =~= events_view(events@));
        }
        events
    }
}

// ---------------------------------------------------------------------
// Laws of the decode model.
// ---------------------------------------------------------------------
/// Splitting the input in two changes nothing: decoding the whole equals
/// decoding the first part and then the second, resumed from the first
/// part's trailing frame; and once the first part saw the sentinel, the
/// second contributes nothing.
pub proof fn lemma_decode_split(t1: Seq<u8>, t2: Seq<u8>, line: Seq<u8>)
    ensures
        ({
            let whole = decode_from(t1 + t2, line);
            let d1 = decode_from(t1, line);
            if d1.done {
                whole.events == d1.events && whole.done && whole.rest == Seq::<u8>::empty()
            } else {
                let d2 = decode_from(t2, d1.rest);
                whole.events == d1.events + d2.events && whole.done == d2.done && whole.rest
                    == d2.rest
            }
        }),
    decreases t1.len(),
{
    if t1.len() == 0 {
        assert(t1 + t2 =~= t2);
        assert(Seq::<ChunkSpec>::empty() + decode_from(t2, line).events =~= decode_from(
            t2,
            line,
        ).events);
    } else {
        assert((t1 + t2)[0] == t1[0]);
        assert((t1 + t2).drop_first() =~= t1.drop_first() + t2);
        if t1[0] == 10 {
            if is_done_line(line) {
            } else if is_data_line(line) && chunk_of(payload_of(line)) is Some {
                lemma_decode_split(t1.drop_first(), t2, Seq::empty());
                let ev = seq![chunk_of(payload_of(line)).unwrap()];
                let d1p = decode_from(t1.drop_first(), Seq::empty());
                if !d1p.done {
                    let d2 = decode_from(t2, d1p.rest);
                    assert((ev + d1p.events) + d2.events =~= ev + (d1p.events + d2.events));
                }
            } else {
                lemma_decode_split(t1.drop_first(), t2, Seq::empty());
            }
        } else {
            lemma_decode_split(t1.drop_first(), t2, line.push(t1[0]));
        }
    }
}

/// Chunking invariance: however a stream's bytes are cut in two, the
/// decoder produces the same ordered event sequence as for the uncut
/// input — the events of the first piece followed by the events the
/// second piece completes.
pub proof fn lemma_chunking_invariance(text: Seq<u8>, i: int, line: Seq<u8>)
    requires
        0 <= i <= text.len(),
    ensures
        ({
            let whole = decode_from(text, line);
            let d1 = decode_from(text.take(i), line);
            if d1.done {
                whole.events == d1.events && whole.done
            } else {
                let d2 = decode_from(text.skip(i), d1.rest);
                whole.events == d1.events + d2.events && whole.done == d2.done && whole.rest
                    == d2.rest
            }
        }),
{
    assert(text.take(i) + text.skip(i) =~= text);
    lemma_decode_split(text.take(i), text.skip(i), line);
}

/// The terminal sentinel always ends the sequence: whatever follows it,
/// even well-formed frames in the same chunk, adds no event.
pub proof fn lemma_sentinel_ends_stream(t: Seq<u8>, extra: Seq<u8>, line: Seq<u8>)
    requires
        decode_from(t, line).done,
    ensures
        decode_from(t + extra, line).events == decode_from(t, line).events,
        decode_from(t + extra, line).done,
{
    lemma_decode_split(t, extra, line);
}

/// Consuming a newline-free stretch of bytes only grows the pending frame.
proof fn lemma_consume_line(line: Seq<u8>, rest: Seq<u8>, acc: Seq<u8>)
    requires
        forall|j: int| 0 <= j < line.len() ==> line[j] != 10,
    ensures
        decode_from(line + seq![10u8] + rest, acc) == decode_from(seq![10u8] + rest, acc + line),
    decreases line.len(),
{
    if line.len() == 0 {
        assert(line + seq![10u8] + rest =~= seq![10u8] + rest);
        assert(acc + line =~= acc);
    } else {
        let t = line + seq![10u8] + rest;
        assert(t[0] == line[0]);
        assert(t.drop_first() =~= line.drop_first() + seq![10u8] + rest);
        lemma_consume_line(line.drop_first(), rest, acc.push(line[0]));
        assert(acc.push(line[0]) + line.drop_first() =~= acc + line);
    }
}

/// A complete frame that decodes to nothing — it lacks the meaningful
/// prefix, or its payload fails structural decoding — is skipped silently:
/// decoding continues with what follows exactly as if the frame were
/// absent, so one bad frame never prevents later frames from decoding.
pub proof fn lemma_bad_frame_skipped(line: Seq<u8>, rest: Seq<u8>)
    requires
        forall|j: int| 0 <= j < line.len() ==> line[j] != 10,
        !is_done_line(line),
        !(is_data_line(line) && chunk_of(payload_of(line)) is Some),
    ensures
        decode_from(line + seq![10u8] + rest, Seq::<u8>::empty()) == decode_from(
            rest,
            Seq::<u8>::empty(),
        ),
{
    lemma_consume_line(line, rest, Seq::<u8>::empty());
    assert(Seq::<u8>::empty() + line =~= line);
    let t = seq![10u8] + rest;
    assert(t[0] == 10);
    assert(t.drop_first() =~= rest);
}

} // verus!
