//! Knowledge queries: asking the car-care dialogue tool a question and
//! reading its answer.

use vstd::prelude::*;
use crate::decimal::{
    all_digits, dec, dec3, dec3_chars, dec_chars, digits_value, lemma_dec, lemma_dec3,
};
use crate::error::TuhucarError;
use crate::text::{cat, cat3, extend_chars, owned, string_of};
use crate::output::is_response_markdown;
use crate::types::{renders_as, schema_view, CommandSchema, ErrorSchemaEntry, Render, Response};

verus! {

/// The MCP tool that answers knowledge questions.
pub const TOOL_NAME: &'static str = "mkt-intelligent-skill-dialogue";

/// What the user asks.
#[derive(Debug)]
pub struct KnowledgeQueryInput {
    /// The question.
    pub question: String,
    /// The session to continue, for a multi-turn dialogue; a new one is
    /// started when there is none.
    pub session_id: Option<String>,
}

/// The answer.
#[derive(Debug)]
pub struct KnowledgeQueryOutput {
    /// The answer text.
    pub reply: String,
    /// The session the answer belongs to.
    pub session_id: String,
    /// The message id of the answer.
    pub msg_id: String,
}

impl Render for KnowledgeQueryOutput {
    /// The answer shown to a person is the reply text itself.
    fn to_markdown(&self) -> (s: String)
        ensures
            s@ == self.reply@,
    {
        self.reply.clone()
    }
}

/// The markdown form of a successful answer is the reply text, untouched.
pub proof fn answer_markdown_is_reply(r: Response<KnowledgeQueryOutput>, s: Seq<char>)
    requires
        is_response_markdown(r, s),
        r.error is None,
        r.meta is None,
        r.data is Some,
    ensures
        s == r.data.unwrap().reply@,
{
    let d = r.data.unwrap();
    assert(renders_as(&d, s.subrange(0, s.len() as int)));
    assert(s.subrange(0, s.len() as int) =~= s);
}

/// The identifiers sent with a question.
#[derive(Debug)]
pub struct DialogueIds {
    pub session_id: String,
    pub msg_id: String,
}

/// The message id for a question asked at `now` milliseconds with the
/// per-process counter at `counter`: the time followed by the counter
/// modulo 1000 in three digits, so that it is all digits.
pub open spec fn msg_id_of(now: nat, counter: nat) -> Seq<char> {
    dec(now) + dec3(counter % 1000)
}

/// The session for a question: the given one, else a new one named by
/// the time in milliseconds.
pub open spec fn session_for(given: Option<Seq<char>>, now: nat) -> Seq<char> {
    match given {
        Some(s) => s,
        None => dec(now),
    }
}

/// Chooses the session and message ids for a question, from the time in
/// milliseconds and a per-process counter.
pub fn dialogue_ids(session_id: Option<&str>, now_ms: u64, counter: u64) -> (ids: DialogueIds)
    ensures
        ids.session_id@ == session_for(
            match session_id {
                Some(s) => Some(s@),
                None => None,
            },
            now_ms as nat,
        ),
        ids.msg_id@ == msg_id_of(now_ms as nat, counter as nat),
{
    let now_digits = dec_chars(now_ms);
    let session = match session_id {
        Some(s) => owned(s),
        None => string_of(&now_digits),
    };
    let mut m = now_digits;
    let tail = dec3_chars(counter % 1000);
    extend_chars(&mut m, &tail);
    DialogueIds { session_id: session, msg_id: string_of(&m) }
}

/// A message id is all digits, as the gateway requires.
pub proof fn msg_id_is_digits(now: nat, counter: nat)
    ensures
        all_digits(msg_id_of(now, counter)),
{
    lemma_dec(now);
    lemma_dec3(counter % 1000);
    let a = dec(now);
    let b = dec3(counter % 1000);
    let m = msg_id_of(now, counter);
    assert forall|i: int| 0 <= i < m.len() implies #[trigger] crate::decimal::is_digit(m[i]) by {
        if i < a.len() {
            assert(m[i] == a[i]);
        } else {
            assert(m[i] == b[i - a.len()]);
        }
    }
}

/// Two questions asked in the same millisecond get different message ids
/// unless their counters agree modulo 1000.
pub proof fn msg_ids_differ(now: nat, c1: nat, c2: nat)
    requires
        c1 % 1000 != c2 % 1000,
    ensures
        msg_id_of(now, c1) != msg_id_of(now, c2),
{
    lemma_dec3(c1 % 1000);
    lemma_dec3(c2 % 1000);
    let p = dec(now);
    if msg_id_of(now, c1) == msg_id_of(now, c2) {
        let m = msg_id_of(now, c1);
        assert(m.subrange(p.len() as int, m.len() as int) =~= dec3(c1 % 1000));
        assert(msg_id_of(now, c2).subrange(p.len() as int, m.len() as int) =~= dec3(c2 % 1000));
    }
}

/// A new session id is all digits.
pub proof fn new_session_is_digits(now: nat)
    ensures
        all_digits(session_for(None, now)),
        digits_value(session_for(None, now)) == now,
{
    lemma_dec(now);
}

/// The payload of the gateway's answer.
#[derive(Debug)]
pub struct GatewayData {
    pub reply: String,
    pub session_id: String,
    pub msg_id: String,
}

/// The gateway's answer: a status code (10000 is success), a message, and
/// the payload.
#[derive(Debug)]
pub struct GatewayEnvelope {
    pub code: i64,
    pub message: Option<String>,
    pub data: Option<GatewayData>,
}

/// The gateway's code for success.
pub const GATEWAY_OK: i64 = 10000;

/// Reads the gateway's answer that the dialogue tool returned: `decoded`
/// is the answer `body` decoded, or why it could not be.
pub fn gateway_reply(decoded: Result<GatewayEnvelope, String>, body: &str) -> (r: Result<
    KnowledgeQueryOutput,
    TuhucarError,
>)
    ensures
        match decoded {
            Err(why) => r matches Err(TuhucarError::McpError { code, message }) && code == -1
                && message@ == "Failed to parse knowledge response: "@ + why@ + ": "@ + body@,
            Ok(env) => if env.code != GATEWAY_OK {
                r matches Err(TuhucarError::McpError { code, message }) && code == env.code
                    && message@ == match env.message {
                    Some(m) => m@,
                    None => "Knowledge gateway returned non-success code"@,
                }
            } else {
                match env.data {
                    None => r matches Err(TuhucarError::McpError { code, message }) && code == -1
                        && message@ == "Knowledge gateway returned no data"@,
                    Some(d) => r matches Ok(out) && out.reply == d.reply && out.session_id
                        == d.session_id && out.msg_id == d.msg_id,
                }
            },
        },
{
    let env = match decoded {
        Err(why) => {
            let head = cat3("Failed to parse knowledge response: ", why.as_str(), ": ");
            return Err(TuhucarError::McpError { code: -1, message: cat(head.as_str(), body) });
        },
        Ok(env) => env,
    };
    if env.code != GATEWAY_OK {
        let message = match env.message {
            Some(m) => m,
            None => owned("Knowledge gateway returned non-success code"),
        };
        return Err(TuhucarError::McpError { code: env.code, message });
    }
    match env.data {
        None => Err(
            TuhucarError::McpError { code: -1, message: owned("Knowledge gateway returned no data") },
        ),
        Some(d) => Ok(
            KnowledgeQueryOutput { reply: d.reply, session_id: d.session_id, msg_id: d.msg_id },
        ),
    }
}

/// How `{:?}` writes an optional session id (`Option<String>`'s `Debug`).
pub uninterp spec fn session_debug(s: Option<Seq<char>>) -> Seq<char>;

/// Writes an optional session id with `format!("{:?}", ..)`.  Trusted: the
/// result is the named text; `None` is written `None`.
#[verifier::external_body]
fn debug_session(s: &Option<String>) -> (r: String)
    ensures
        r@ == session_debug(
            match *s {
                Some(t) => Some(t@),
                None => None,
            },
        ),
        s is None ==> r@ == "None"@,
{
    format!("{:?}", s)
}

/// The line that `--dry-run` prints instead of asking the question.
pub fn dry_run_line(question: &str, session_id: &Option<String>) -> (s: String)
    ensures
        s@ == "MCP tools/call mkt-intelligent-skill-dialogue {\"question\":\""@ + question@
            + "\",\"session_id\":"@ + session_debug(
            match *session_id {
                Some(t) => Some(t@),
                None => None,
            },
        ) + "}"@,
{
    let d = debug_session(session_id);
    let head = cat3("MCP tools/call mkt-intelligent-skill-dialogue {\"question\":\"", question, "\",\"session_id\":");
    cat3(head.as_str(), d.as_str(), "}")
}

/// The knowledge command, bound to a client of type `C`.
#[derive(Debug)]
pub struct KnowledgeCommand<C> {
    client: C,
}

/// The error codes that the knowledge command reports.
pub open spec fn knowledge_errors_ok(es: Seq<ErrorSchemaEntry>) -> bool {
    &&& es.len() == 1
    &&& es[0].code@ == "MCP_ERROR"@
    &&& es[0].description@ == "MCP 服务调用失败"@
    &&& es[0].retryable
}

/// `s` is the schema of the knowledge command, with the input and wire-output
/// schemas `input` and `wire_output`.
pub open spec fn knowledge_schema_ok(s: CommandSchema, input: Seq<char>, wire_output: Seq<char>) -> bool {
    &&& s.name@ == "knowledge.query"@
    &&& s.description@ == "查询养车知识"@
    &&& s.input@ == input
    &&& s.wire_output@ == wire_output
    &&& knowledge_errors_ok(s.errors@)
}

/// The schema a knowledge command gives of itself, whatever client it is bound
/// to, is the one given without a connection: the same name, description,
/// input, wire output and errors.
pub proof fn live_knowledge_schema_is_static(
    live: CommandSchema,
    fixed: CommandSchema,
    input: Seq<char>,
    wire_output: Seq<char>,
)
    requires
        knowledge_schema_ok(live, input, wire_output),
        knowledge_schema_ok(fixed, input, wire_output),
    ensures
        schema_view(live) == schema_view(fixed),
{
    let f = |e: ErrorSchemaEntry| (e.code@, e.description@, e.retryable);
    assert(live.errors@.map_values(f) =~= fixed.errors@.map_values(f));
}

impl<C> KnowledgeCommand<C> {
    /// A command that uses `client`.
    pub fn new(client: C) -> (c: Self)
        ensures
            c.client() == client,
    {
        KnowledgeCommand { client }
    }

    /// The client the command uses.
    pub closed spec fn client(&self) -> C {
        self.client
    }

    /// The client the command uses.
    pub fn client_ref(&self) -> (c: &C)
        ensures
            *c == self.client(),
    {
        &self.client
    }

    /// The command's name.
    pub fn name(&self) -> (n: &str)
        ensures
            n@ == "knowledge.query"@,
    {
        "knowledge.query"
    }

    /// What the command does.
    pub fn description(&self) -> (d: &str)
        ensures
            d@ == "查询养车知识"@,
    {
        "查询养车知识"
    }

    /// The errors the command can report.
    pub fn error_schemas(&self) -> (es: Vec<ErrorSchemaEntry>)
        ensures
            knowledge_errors_ok(es@),
    {
        knowledge_error_schemas()
    }

    /// The command's schema, as the command bound to its client gives it:
    /// its own name, description and errors, with the input and
    /// wire-output schemas `input` and `wire_output`.
    pub fn schema(&self, input: String, wire_output: String) -> (s: CommandSchema)
        ensures
            knowledge_schema_ok(s, input@, wire_output@),
    {
        CommandSchema {
            name: owned(self.name()),
            description: owned(self.description()),
            input,
            wire_output,
            errors: self.error_schemas(),
        }
    }

    /// The command's schema, without a live connection; `input` and
    /// `wire_output` are the JSON Schemas of its input and of its response
    /// envelope.
    pub fn schema_static(input: String, wire_output: String) -> (s: CommandSchema)
        ensures
            s.name@ == "knowledge.query"@,
            s.description@ == "查询养车知识"@,
            s.input == input,
            s.wire_output == wire_output,
            knowledge_errors_ok(s.errors@),
            knowledge_schema_ok(s, input@, wire_output@),
    {
        CommandSchema {
            name: owned("knowledge.query"),
            description: owned("查询养车知识"),
            input,
            wire_output,
            errors: knowledge_error_schemas(),
        }
    }
}

fn knowledge_error_schemas() -> (es: Vec<ErrorSchemaEntry>)
    ensures
        knowledge_errors_ok(es@),
{
    let mut es: Vec<ErrorSchemaEntry> = Vec::new();
    es.push(
        ErrorSchemaEntry {
            code: owned("MCP_ERROR"),
            description: owned("MCP 服务调用失败"),
            retryable: true,
        },
    );
    es
}

} // verus!
