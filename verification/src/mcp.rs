//! The decisions of the MCP (JSON-RPC over HTTP) client: which address to
//! use, how a reply body is framed, which frame is the answer, and how
//! replies and failures become results.
//!
//! The transport and the JSON decoding are the caller's; this module takes
//! what they produced as plain values.

use vstd::prelude::*;
use crate::decimal::{dec, u64_text};
use crate::error::TuhucarError;
use crate::json::{has_member, json_member, json_str, member, str_of};
use crate::text::{
    cat, cat3, chars_of, chars_start_with, chars_trim, chars_trim_start, has_prefix, owned,
    same_chars, slice_chars, string_of, texts, trim, trim_start, views,
};

verus! {

// ---------------------------------------------------------------------------
// Endpoint
// ---------------------------------------------------------------------------

/// The address to talk to: a non-empty override from the environment
/// (`TUHUCAR_ENDPOINT`), else the configured one.
pub open spec fn endpoint_of(env: Option<String>, configured: Seq<char>) -> Seq<char> {
    match env {
        Some(e) => if e@.len() > 0 {
            e@
        } else {
            configured
        },
        None => configured,
    }
}

/// Picks the server address.
pub fn choose_endpoint(env: Option<String>, configured: &str) -> (r: String)
    ensures
        r@ == endpoint_of(env, configured@),
{
    match env {
        Some(e) => {
            let v = chars_of(e.as_str());
            if v.len() > 0 {
                e
            } else {
                owned(configured)
            }
        },
        None => owned(configured),
    }
}

// ---------------------------------------------------------------------------
// Lines and event-stream framing
// ---------------------------------------------------------------------------

/// `l` without one trailing carriage return.
pub open spec fn strip_cr(l: Seq<char>) -> Seq<char> {
    if l.len() > 0 && l.last() == '\r' {
        l.drop_last()
    } else {
        l
    }
}

/// The lines of `s` after the partial line `cur`, as `str::lines` splits
/// them: each `\n` ends a line and is dropped with a `\r` just before it;
/// a last piece with no `\n` after it is a line when it is not empty.
pub open spec fn lines_from(s: Seq<char>, cur: Seq<char>) -> Seq<Seq<char>>
    decreases s.len(),
{
    if s.len() == 0 {
        if cur.len() == 0 {
            Seq::empty()
        } else {
            seq![cur]
        }
    } else if s[0] == '\n' {
        seq![strip_cr(cur)] + lines_from(s.drop_first(), Seq::empty())
    } else {
        lines_from(s.drop_first(), cur.push(s[0]))
    }
}

/// The lines of `s`.
pub open spec fn lines(s: Seq<char>) -> Seq<Seq<char>> {
    lines_from(s, Seq::empty())
}

fn strip_cr_chars(l: Vec<char>) -> (r: Vec<char>)
    ensures
        r@ == strip_cr(l@),
{
    if l.len() > 0 && l[l.len() - 1] == '\r' {
        slice_chars(&l, 0, l.len() - 1)
    } else {
        l
    }
}

/// Splits `v` into lines.
pub fn split_lines(v: &Vec<char>) -> (out: Vec<Vec<char>>)
    ensures
        views(out@) == lines(v@),
{
    let mut out: Vec<Vec<char>> = Vec::new();
    let mut cur: Vec<char> = Vec::new();
    let mut i: usize = 0;
    assert(v@.skip(0) =~= v@);
    assert(views(out@) =~= Seq::<Seq<char>>::empty());
    while i < v.len()
        invariant
            i <= v.len(),
            lines(v@) == views(out@) + lines_from(v@.skip(i as int), cur@),
        decreases v.len() - i,
    {
        let c = v[i];
        let ghost rest = v@.skip(i as int);
        assert(rest[0] == c);
        assert(rest.drop_first() =~= v@.skip(i as int + 1));
        if c == '\n' {
            let line = strip_cr_chars(cur);
            let ghost before = out@;
            out.push(line);
            assert(views(out@) =~= views(before).push(line@));
            assert(views(before) + lines_from(rest, cur@) =~= views(out@) + lines_from(
                v@.skip(i as int + 1),
                Seq::empty(),
            ));
            cur = Vec::new();
            assert(cur@ =~= Seq::<char>::empty());
        } else {
            let ghost old_cur = cur@;
            cur.push(c);
            assert(cur@ == old_cur.push(c));
        }
        i = i + 1;
    }
    assert(v@.skip(v.len() as int) =~= Seq::<char>::empty());
    if cur.len() > 0 {
        let ghost before = out@;
        let ghost last = cur@;
        out.push(cur);
        assert(views(out@) =~= views(before) + seq![last]);
    } else {
        assert(views(out@) + lines_from(Seq::<char>::empty(), cur@) =~= views(out@));
    }
    out
}

/// The payload of an event-stream line: what follows `data:`, trimmed,
/// unless it is empty or the end marker `[DONE]`.
pub open spec fn payload_of(line: Seq<char>) -> Option<Seq<char>> {
    if has_prefix(line, "data:"@) {
        let p = trim(line.subrange("data:"@.len() as int, line.len() as int));
        if p.len() == 0 || p == "[DONE]"@ {
            None
        } else {
            Some(p)
        }
    } else {
        None
    }
}

/// The payloads of the lines `ls`, in order.
pub open spec fn payloads_of(ls: Seq<Seq<char>>) -> Seq<Seq<char>>
    decreases ls.len(),
{
    if ls.len() == 0 {
        Seq::empty()
    } else {
        payloads_of(ls.drop_last()) + match payload_of(ls.last()) {
            Some(p) => seq![p],
            None => Seq::empty(),
        }
    }
}

/// How a reply body is laid out.
#[derive(Debug)]
pub enum BodyShape {
    /// A single JSON document (the body, leading white space removed).
    Plain(String),
    /// An event stream; the candidate JSON payloads of its `data:` lines.
    Stream(Vec<String>),
}

/// `b` is how `body` is laid out: a body that starts (after white space)
/// with `{` is one JSON document; any other is read as an event stream.
pub open spec fn shape_of(body: Seq<char>, b: BodyShape) -> bool {
    let t = trim_start(body);
    if t.len() > 0 && t[0] == '{' {
        b matches BodyShape::Plain(p) && p@ == t
    } else {
        b matches BodyShape::Stream(ps) && texts(ps@) == payloads_of(lines(body))
    }
}

/// Frames a JSON-RPC reply body: one JSON document, or the candidate
/// payloads of an event stream.
pub fn frame_body(body: &str) -> (b: BodyShape)
    ensures
        shape_of(body@, b),
{
    let v = chars_of(body);
    let t = chars_trim_start(&v);
    if t.len() > 0 && t[0] == '{' {
        return BodyShape::Plain(string_of(&t));
    }
    let ls = split_lines(&v);
    let prefix = chars_of("data:");
    let done = chars_of("[DONE]");
    let mut ps: Vec<String> = Vec::new();
    let mut i: usize = 0;
    assert(ls@.take(0) =~= Seq::<Vec<char>>::empty());
    assert(texts(ps@) =~= Seq::<Seq<char>>::empty());
    while i < ls.len()
        invariant
            i <= ls.len(),
            views(ls@) == lines(body@),
            prefix@ == "data:"@,
            done@ == "[DONE]"@,
            texts(ps@) == payloads_of(views(ls@.take(i as int))),
        decreases ls.len() - i,
    {
        let line = &ls[i];
        let ghost before = ps@;
        assert(views(ls@.take(i as int + 1)).drop_last() =~= views(ls@.take(i as int)));
        assert(views(ls@.take(i as int + 1)).last() == line@);
        if chars_start_with(line, &prefix) {
            let rest = slice_chars(line, prefix.len(), line.len());
            let p = chars_trim(&rest);
            if p.len() > 0 && !same_chars(&p, &done) {
                ps.push(string_of(&p));
                assert(texts(ps@) =~= texts(before).push(p@));
            }
        }
        i = i + 1;
    }
    assert(ls@.take(ls.len() as int) =~= ls@);
    BodyShape::Stream(ps)
}

/// What one event-stream payload turned out to be once decoded.
#[derive(Clone, Copy, Debug, PartialEq, Eq, Structural)]
pub enum FrameKind {
    /// Not a JSON-RPC message.
    Unreadable,
    /// A message with neither a result nor an error (a notification).
    Notification,
    /// A progress notification: a result with `progress` and no `content`.
    Progress,
    /// An answer (a result or an error).
    Reply,
}

/// The kind of a payload from what decoding it showed: whether it decoded
/// as a JSON-RPC message, whether that message has a result or an error
/// member, and whether its result has a `progress` and a `content` member.
pub open spec fn kind_of(
    decoded: bool,
    answers: bool,
    has_progress: bool,
    has_content: bool,
) -> FrameKind {
    if !decoded {
        FrameKind::Unreadable
    } else if !answers {
        FrameKind::Notification
    } else if has_progress && !has_content {
        FrameKind::Progress
    } else {
        FrameKind::Reply
    }
}

/// Classifies a payload of an event stream: only a message with a result
/// or an error, and not a progress report, is an answer.
pub fn frame_kind(decoded: bool, answers: bool, has_progress: bool, has_content: bool) -> (k:
    FrameKind)
    ensures
        k == kind_of(decoded, answers, has_progress, has_content),
{
    if !decoded {
        FrameKind::Unreadable
    } else if !answers {
        FrameKind::Notification
    } else if has_progress && !has_content {
        FrameKind::Progress
    } else {
        FrameKind::Reply
    }
}

/// The kind of a message of an event stream that decoded, from its
/// result member and whether it has an error member.
pub fn reply_kind(result: &Option<serde_json::Value>, has_error: bool) -> (k: FrameKind)
    ensures
        k == kind_of(
            true,
            result is Some || has_error,
            has_member(*result, "progress"@),
            has_member(*result, "content"@),
        ),
{
    let (has_progress, has_content) = match result {
        Some(r) => (member(r, "progress").is_some(), member(r, "content").is_some()),
        None => (false, false),
    };
    frame_kind(true, result.is_some() || has_error, has_progress, has_content)
}

/// The answer of an event stream is its last reply frame; progress
/// frames, notifications and unreadable payloads are passed over.
pub fn last_reply(kinds: &Vec<FrameKind>) -> (r: Option<usize>)
    ensures
        match r {
            Some(i) => i < kinds.len() && kinds@[i as int] == FrameKind::Reply && forall|j: int|
                i < j < kinds.len() ==> kinds@[j] != FrameKind::Reply,
            None => forall|j: int| 0 <= j < kinds.len() ==> kinds@[j] != FrameKind::Reply,
        },
{
    let mut found: Option<usize> = None;
    let mut i: usize = 0;
    while i < kinds.len()
        invariant
            i <= kinds.len(),
            match found {
                Some(k) => k < i && kinds@[k as int] == FrameKind::Reply && forall|j: int|
                    k < j < i ==> kinds@[j] != FrameKind::Reply,
                None => forall|j: int| 0 <= j < i ==> kinds@[j] != FrameKind::Reply,
            },
        decreases kinds.len() - i,
    {
        if kinds[i] == FrameKind::Reply {
            found = Some(i);
        }
        i = i + 1;
    }
    found
}

/// The failure for a JSON body that did not decode, `detail` saying why.
pub fn undecodable_body(detail: &str, body: &str) -> (e: TuhucarError)
    ensures
        e matches TuhucarError::McpError { code, message } && code == -1 && message@
            == "Failed to parse JSON-RPC response: "@ + detail@ + ": "@ + body@,
{
    let head = cat3("Failed to parse JSON-RPC response: ", detail, ": ");
    TuhucarError::McpError { code: -1, message: cat(head.as_str(), body) }
}

/// The failure for an event stream without a reply in it.
pub fn no_reply_in_stream(body: &str) -> (e: TuhucarError)
    ensures
        e matches TuhucarError::McpError { code, message } && code == -1 && message@
            == "No JSON-RPC payload found in SSE stream: "@ + body@,
{
    TuhucarError::McpError {
        code: -1,
        message: cat("No JSON-RPC payload found in SSE stream: ", body),
    }
}

// ---------------------------------------------------------------------------
// Replies
// ---------------------------------------------------------------------------

/// The HTTP status is a success (2xx).
pub open spec fn status_ok(status: u16) -> bool {
    200 <= status <= 299
}

/// Accepts a 2xx HTTP answer; any other status is a failure that carries
/// the status as its code and the body in its message.
pub fn check_http_status(status: u16, body: &str) -> (r: Result<(), TuhucarError>)
    ensures
        status_ok(status) ==> r is Ok,
        !status_ok(status) ==> (r matches Err(TuhucarError::McpError { code, message })
            && code == status as i64 && message@ == "MCP server returned HTTP "@ + dec(
            status as nat,
        ) + ": "@ + body@),
{
    if 200 <= status && status <= 299 {
        Ok(())
    } else {
        let s = u64_text(status as u64);
        let head = cat3("MCP server returned HTTP ", s.as_str(), ": ");
        Err(TuhucarError::McpError { code: status as i64, message: cat(head.as_str(), body) })
    }
}

/// The error member of a JSON-RPC reply.
#[derive(Debug)]
pub struct RpcError {
    pub code: i64,
    pub message: String,
}

/// A reply that carries an error member is a failure with that code and
/// message.
pub fn check_rpc_error(error: Option<RpcError>) -> (r: Result<(), TuhucarError>)
    ensures
        match error {
            None => r is Ok,
            Some(e) => r matches Err(TuhucarError::McpError { code, message }) && code == e.code
                && message@ == e.message@,
        },
{
    match error {
        None => Ok(()),
        Some(e) => Err(TuhucarError::McpError { code: e.code, message: e.message }),
    }
}

/// What the result of an `initialize` reply says.
#[derive(Debug)]
pub struct InitResult {
    /// Its `sessionId`, when that is a string.
    pub session_id: Option<String>,
    /// Whether it advertises `capabilities.tools`.
    pub has_tools: bool,
}

/// The string member `sessionId` of an `initialize` result.
pub open spec fn session_member(r: serde_json::Value) -> Option<Seq<char>> {
    match json_member(r, "sessionId"@) {
        Some(s) => json_str(s),
        None => None,
    }
}

/// The `initialize` result advertises `capabilities.tools`.
pub open spec fn advertises_tools(r: serde_json::Value) -> bool {
    has_member(json_member(r, "capabilities"@), "tools"@)
}

/// Reads what the session set-up needs from an `initialize` result.
pub fn init_result_of(r: &serde_json::Value) -> (i: InitResult)
    ensures
        match i.session_id {
            Some(s) => session_member(*r) == Some(s@),
            None => session_member(*r) is None,
        },
        i.has_tools == advertises_tools(*r),
{
    let session_id = match member(r, "sessionId") {
        Some(s) => str_of(&s),
        None => None,
    };
    let has_tools = match member(r, "capabilities") {
        Some(c) => member(&c, "tools").is_some(),
        None => false,
    };
    InitResult { session_id, has_tools }
}

/// The session that `initialize` establishes: a session id from the reply
/// headers replaces `previous`, one in the result replaces that; a result
/// that does not advertise tools is refused, and so is ending up with no
/// session id.
pub open spec fn session_of(
    previous: Option<String>,
    header: Option<String>,
    result: Option<InitResult>,
) -> Result<Seq<char>, Seq<char>> {
    let after_header = match header {
        Some(h) => Some(h),
        None => previous,
    };
    let after_result = match result {
        Some(r) => match r.session_id {
            Some(s) => Some(s),
            None => after_header,
        },
        None => after_header,
    };
    if result matches Some(r) && !r.has_tools {
        Err("MCP server does not advertise tools capability"@)
    } else {
        match after_result {
            Some(s) => Ok(s@),
            None => Err("MCP server did not return a sessionId"@),
        }
    }
}

/// Settles the session after an `initialize` exchange.
pub fn initialize_session(
    previous: Option<String>,
    header: Option<String>,
    result: Option<InitResult>,
) -> (r: Result<String, TuhucarError>)
    ensures
        match session_of(previous, header, result) {
            Ok(s) => r matches Ok(t) && t@ == s,
            Err(m) => r matches Err(TuhucarError::McpError { code, message }) && code == -1
                && message@ == m,
        },
{
    let mut session = previous;
    if let Some(h) = header {
        session = Some(h);
    }
    if let Some(res) = result {
        if let Some(s) = res.session_id {
            session = Some(s);
        }
        if !res.has_tools {
            return Err(
                TuhucarError::McpError {
                    code: -1,
                    message: owned("MCP server does not advertise tools capability"),
                },
            );
        }
    }
    match session {
        Some(s) => Ok(s),
        None => Err(
            TuhucarError::McpError {
                code: -1,
                message: owned("MCP server did not return a sessionId"),
            },
        ),
    }
}

/// One content item of a tool result.
#[derive(Debug)]
pub struct ToolContent {
    /// Its `type`.
    pub content_type: String,
    pub text: String,
}

/// The result member of a `tools/call` reply, as far as it decoded.
#[derive(Debug)]
pub enum ToolOutcome {
    /// The reply had no result.
    Missing,
    /// The result was not a tool result; the text says why.
    Malformed(String),
    /// A tool result.
    Decoded { is_error: bool, content: Vec<ToolContent> },
}

/// The index of the first item of type `text`, if any.
pub open spec fn first_text(cs: Seq<ToolContent>) -> Option<int> {
    if exists|i: int| 0 <= i < cs.len() && cs[i].content_type@ == "text"@ {
        Some(
            choose|i: int|
                0 <= i < cs.len() && cs[i].content_type@ == "text"@ && forall|j: int|
                    0 <= j < i ==> cs[j].content_type@ != "text"@,
        )
    } else {
        None
    }
}

/// The text that a `tools/call` exchange yields, or the failure it is.
pub open spec fn tool_text(error: Option<RpcError>, outcome: ToolOutcome) -> Result<
    Seq<char>,
    (int, Seq<char>),
> {
    match error {
        Some(e) => Err((e.code as int, e.message@)),
        None => match outcome {
            ToolOutcome::Missing => Err((-1, "Empty result from tools/call"@)),
            ToolOutcome::Malformed(d) => Err((-1, "Failed to parse tool result: "@ + d@)),
            ToolOutcome::Decoded { is_error, content } => if is_error {
                if content@.len() > 0 {
                    Err((-1, content@[0].text@))
                } else {
                    Err((-1, "Tool returned an error"@))
                }
            } else {
                match first_text(content@) {
                    Some(i) => Ok(content@[i].text@),
                    None => Err((-1, "No text content in tool result"@)),
                }
            },
        },
    }
}

/// Turns a `tools/call` reply into the tool's text: an error member or an
/// error result is a failure; otherwise the first `text` item is the
/// answer.
pub fn tool_call_text(error: Option<RpcError>, outcome: ToolOutcome) -> (r: Result<
    String,
    TuhucarError,
>)
    ensures
        match tool_text(error, outcome) {
            Ok(t) => r matches Ok(s) && s@ == t,
            Err((c, m)) => r matches Err(TuhucarError::McpError { code, message }) && code == c
                && message@ == m,
        },
{
    if let Some(e) = error {
        return Err(TuhucarError::McpError { code: e.code, message: e.message });
    }
    match outcome {
        ToolOutcome::Missing => Err(
            TuhucarError::McpError { code: -1, message: owned("Empty result from tools/call") },
        ),
        ToolOutcome::Malformed(d) => Err(
            TuhucarError::McpError {
                code: -1,
                message: cat("Failed to parse tool result: ", d.as_str()),
            },
        ),
        ToolOutcome::Decoded { is_error, content } => {
            if is_error {
                if content.len() > 0 {
                    let t = content[0].text.clone();
                    Err(TuhucarError::McpError { code: -1, message: t })
                } else {
                    Err(
                        TuhucarError::McpError {
                            code: -1,
                            message: owned("Tool returned an error"),
                        },
                    )
                }
            } else {
                let want = chars_of("text");
                let mut i: usize = 0;
                while i < content.len()
                    invariant
                        i <= content.len(),
                        want@ == "text"@,
                        error is None,
                        outcome == (ToolOutcome::Decoded { is_error, content }),
                        !is_error,
                        forall|j: int| 0 <= j < i ==> content@[j].content_type@ != "text"@,
                    decreases content.len() - i,
                {
                    let k = chars_of(content[i].content_type.as_str());
                    if same_chars(&k, &want) {
                        proof {
                            let cs = content@;
                            let ii = i as int;
                            assert(cs[ii].content_type@ == "text"@);
                            assert(exists|x: int|
                                0 <= x < cs.len() && cs[x].content_type@ == "text"@);
                            assert(exists|x: int|
                                0 <= x < cs.len() && cs[x].content_type@ == "text"@ && forall|
                                    j: int,
                                | 0 <= j < x ==> cs[j].content_type@ != "text"@) by {
                                assert(forall|j: int|
                                    0 <= j < ii ==> cs[j].content_type@ != "text"@);
                            }
                            let w = choose|w: int|
                                0 <= w < cs.len() && cs[w].content_type@ == "text"@ && forall|
                                    j: int,
                                | 0 <= j < w ==> cs[j].content_type@ != "text"@;
                            if w < ii {
                                assert(cs[w].content_type@ != "text"@);
                            } else if w > ii {
                                assert(cs[ii].content_type@ != "text"@);
                            }
                            assert(first_text(cs) == Some(ii));
                        }
                        return Ok(content[i].text.clone());
                    }
                    i = i + 1;
                }
                Err(
                    TuhucarError::McpError {
                        code: -1,
                        message: owned("No text content in tool result"),
                    },
                )
            }
        },
    }
}

/// An error member of the reply wins: its code and message are the
/// failure, whatever the result says.
pub proof fn rpc_error_is_the_failure(e: RpcError, outcome: ToolOutcome)
    ensures
        tool_text(Some(e), outcome) == Err::<Seq<char>, (int, Seq<char>)>(
            (e.code as int, e.message@),
        ),
{
}

/// A reply without a result, or with a result that is not a tool result,
/// fails with code -1 and a message that says so.
pub proof fn missing_or_malformed_result_fails(why: String)
    ensures
        tool_text(None, ToolOutcome::Missing) == Err::<Seq<char>, (int, Seq<char>)>(
            (-1, "Empty result from tools/call"@),
        ),
        tool_text(None, ToolOutcome::Malformed(why)) == Err::<Seq<char>, (int, Seq<char>)>(
            (-1, "Failed to parse tool result: "@ + why@),
        ),
{
}

/// A tool result that reports an error fails with code -1 and the text of
/// its first content item, whatever items follow; with no content item
/// the message is "Tool returned an error".
pub proof fn error_result_reports_first_item(content: Vec<ToolContent>)
    ensures
        content@.len() > 0 ==> tool_text(None, ToolOutcome::Decoded { is_error: true, content })
            == Err::<Seq<char>, (int, Seq<char>)>((-1, content@[0].text@)),
        content@.len() == 0 ==> tool_text(None, ToolOutcome::Decoded { is_error: true, content })
            == Err::<Seq<char>, (int, Seq<char>)>((-1, "Tool returned an error"@)),
{
}

/// A tool result without error is answered by its first item of type
/// `text`: the answer is that item's text, and every item before it has
/// another type; with no `text` item the call fails.
pub proof fn answer_is_first_text_item(content: Vec<ToolContent>)
    ensures
        tool_text(None, ToolOutcome::Decoded { is_error: false, content }) matches Ok(t) ==> exists|
            i: int,
        |
            0 <= i < content@.len() && content@[i].content_type@ == "text"@ && content@[i].text@
                == t && forall|j: int| 0 <= j < i ==> content@[j].content_type@ != "text"@,
        (forall|i: int| 0 <= i < content@.len() ==> content@[i].content_type@ != "text"@)
            ==> tool_text(None, ToolOutcome::Decoded { is_error: false, content })
            == Err::<Seq<char>, (int, Seq<char>)>((-1, "No text content in tool result"@)),
        (exists|i: int| 0 <= i < content@.len() && content@[i].content_type@ == "text"@)
            ==> tool_text(None, ToolOutcome::Decoded { is_error: false, content }) is Ok,
{
    let cs = content@;
    if exists|i: int| 0 <= i < cs.len() && cs[i].content_type@ == "text"@ {
        let k = choose|i: int| 0 <= i < cs.len() && cs[i].content_type@ == "text"@;
        assert(exists|x: int|
            0 <= x < cs.len() && cs[x].content_type@ == "text"@ && forall|j: int|
                0 <= j < x ==> cs[j].content_type@ != "text"@) by {
            lemma_first_text_exists(cs, k);
        }
    }
}

proof fn lemma_first_text_exists(cs: Seq<ToolContent>, k: int)
    requires
        0 <= k < cs.len(),
        cs[k].content_type@ == "text"@,
    ensures
        exists|x: int|
            0 <= x < cs.len() && cs[x].content_type@ == "text"@ && forall|j: int|
                0 <= j < x ==> cs[j].content_type@ != "text"@,
    decreases k,
{
    if forall|j: int| 0 <= j < k ==> cs[j].content_type@ != "text"@ {
    } else {
        let j = choose|j: int| 0 <= j < k && cs[j].content_type@ == "text"@;
        lemma_first_text_exists(cs, j);
    }
}

/// No payload picked from a stream is empty or the end marker.
pub proof fn payloads_are_messages(ls: Seq<Seq<char>>)
    ensures
        forall|i: int|
            0 <= i < payloads_of(ls).len() ==> #[trigger] payloads_of(ls)[i].len() > 0
                && payloads_of(ls)[i] != "[DONE]"@,
    decreases ls.len(),
{
    if ls.len() > 0 {
        payloads_are_messages(ls.drop_last());
        let front = payloads_of(ls.drop_last());
        assert forall|i: int| 0 <= i < payloads_of(ls).len() implies #[trigger] payloads_of(
            ls,
        )[i].len() > 0 && payloads_of(ls)[i] != "[DONE]"@ by {
            if i < front.len() {
                assert(payloads_of(ls)[i] == front[i]);
            }
        }
    }
}

} // verus!
