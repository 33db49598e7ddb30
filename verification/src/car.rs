//! Car model matching: turning a free-text description into candidate
//! car models.

use vstd::prelude::*;
use crate::error::TuhucarError;
use crate::text::{cat, cat3, owned};
use crate::types::{schema_view, CommandSchema, ErrorSchemaEntry};

verus! {

/// The MCP tool that matches car models.
pub const TOOL_NAME: &'static str = "car_match";

/// What the user describes.
#[derive(Debug)]
pub struct CarMatchInput {
    pub query: String,
}

/// The candidates found for a description, and how many there are.
#[derive(Debug)]
pub struct CarMatchResult<C> {
    pub candidates: Vec<C>,
    pub total_count: usize,
}

/// What no match is reported as.
pub open spec fn no_match(e: TuhucarError) -> bool {
    e matches TuhucarError::CarNotFound { suggestion } && suggestion@
        == "请提供更精确的车型描述，如品牌+车系+年款"@
}

/// Turns the decoded candidates into a result: none at all means no car
/// was found.
pub fn car_match_result<C>(candidates: Vec<C>) -> (r: Result<CarMatchResult<C>, TuhucarError>)
    ensures
        candidates@.len() == 0 ==> (r matches Err(e) && no_match(e)),
        candidates@.len() > 0 ==> (r matches Ok(res) && res.candidates@ == candidates@
            && res.total_count == candidates@.len()),
{
    if candidates.len() == 0 {
        return Err(
            TuhucarError::CarNotFound { suggestion: owned("请提供更精确的车型描述，如品牌+车系+年款") },
        );
    }
    let total_count = candidates.len();
    Ok(CarMatchResult { candidates, total_count })
}

/// The failure for a tool answer that is not a list of candidates,
/// `detail` saying why.
pub fn undecodable_candidates(detail: &str) -> (e: TuhucarError)
    ensures
        e matches TuhucarError::McpError { code, message } && code == -1 && message@
            == "Failed to parse car match response: "@ + detail@,
{
    TuhucarError::McpError { code: -1, message: cat("Failed to parse car match response: ", detail) }
}

/// The line that `--dry-run` prints instead of calling the tool.
pub fn dry_run_line(query: &str) -> (s: String)
    ensures
        s@ == "MCP tools/call car_match {\"query\":\""@ + query@ + "\"}"@,
{
    cat3("MCP tools/call car_match {\"query\":\"", query, "\"}")
}

/// The car match command, bound to a client of type `C`.
#[derive(Debug)]
pub struct CarCommand<C> {
    client: C,
}

/// The error codes that the car match command reports.
pub open spec fn car_errors_ok(es: Seq<ErrorSchemaEntry>) -> bool {
    &&& es.len() == 2
    &&& es[0].code@ == "CAR_NOT_FOUND"@
    &&& es[0].description@ == "未找到匹配的车型"@
    &&& !es[0].retryable
    &&& es[1].code@ == "MCP_ERROR"@
    &&& es[1].description@ == "MCP 服务调用失败"@
    &&& es[1].retryable
}

fn car_error_schemas() -> (es: Vec<ErrorSchemaEntry>)
    ensures
        car_errors_ok(es@),
{
    let mut es: Vec<ErrorSchemaEntry> = Vec::new();
    es.push(
        ErrorSchemaEntry {
            code: owned("CAR_NOT_FOUND"),
            description: owned("未找到匹配的车型"),
            retryable: false,
        },
    );
    es.push(
        ErrorSchemaEntry {
            code: owned("MCP_ERROR"),
            description: owned("MCP 服务调用失败"),
            retryable: true,
        },
    );
    es
}

/// `s` is the schema of the car command, with the input and wire-output
/// schemas `input` and `wire_output`.
pub open spec fn car_schema_ok(s: CommandSchema, input: Seq<char>, wire_output: Seq<char>) -> bool {
    &&& s.name@ == "car.match"@
    &&& s.description@ == "模糊匹配五级车型"@
    &&& s.input@ == input
    &&& s.wire_output@ == wire_output
    &&& car_errors_ok(s.errors@)
}

/// The schema a car command gives of itself, whatever client it is bound
/// to, is the one given without a connection: the same name, description,
/// input, wire output and errors.
pub proof fn live_car_schema_is_static(
    live: CommandSchema,
    fixed: CommandSchema,
    input: Seq<char>,
    wire_output: Seq<char>,
)
    requires
        car_schema_ok(live, input, wire_output),
        car_schema_ok(fixed, input, wire_output),
    ensures
        schema_view(live) == schema_view(fixed),
{
    let f = |e: ErrorSchemaEntry| (e.code@, e.description@, e.retryable);
    assert(live.errors@.map_values(f) =~= fixed.errors@.map_values(f));
}

impl<C> CarCommand<C> {
    /// A command that uses `client`.
    pub fn new(client: C) -> (c: Self)
        ensures
            c.client() == client,
    {
        CarCommand { client }
    }

    /// The client the command uses.
    pub closed spec fn client(&self) -> C {
        self.client
    }

    /// The client the command uses.
    pub fn client_ref(&self) -> (c: &C)
        ensures
            *c == self.client(),
    {
        &self.client
    }

    /// The command's name.
    pub fn name(&self) -> (n: &str)
        ensures
            n@ == "car.match"@,
    {
        "car.match"
    }

    /// What the command does.
    pub fn description(&self) -> (d: &str)
        ensures
            d@ == "模糊匹配五级车型"@,
    {
        "模糊匹配五级车型"
    }

    /// The errors the command can report.
    pub fn error_schemas(&self) -> (es: Vec<ErrorSchemaEntry>)
        ensures
            car_errors_ok(es@),
    {
        car_error_schemas()
    }

    /// The command's schema, as the command bound to its client gives it:
    /// its own name, description and errors, with the input and
    /// wire-output schemas `input` and `wire_output`.
    pub fn schema(&self, input: String, wire_output: String) -> (s: CommandSchema)
        ensures
            car_schema_ok(s, input@, wire_output@),
    {
        CommandSchema {
            name: owned(self.name()),
            description: owned(self.description()),
            input,
            wire_output,
            errors: self.error_schemas(),
        }
    }

    /// The command's schema, without a live connection; `input` and
    /// `wire_output` are the JSON Schemas of its input and of its response
    /// envelope.
    pub fn schema_static(input: String, wire_output: String) -> (s: CommandSchema)
        ensures
            s.name@ == "car.match"@,
            s.description@ == "模糊匹配五级车型"@,
            s.input == input,
            s.wire_output == wire_output,
            car_errors_ok(s.errors@),
            car_schema_ok(s, input@, wire_output@),
    {
        CommandSchema {
            name: owned("car.match"),
            description: owned("模糊匹配五级车型"),
            input,
            wire_output,
            errors: car_error_schemas(),
        }
    }
}

} // verus!
