//! Decisions of the command-line front end: reading the format flag before
//! full argument parsing, the response metadata, and the error and notice
//! reports written to the terminal.

use vstd::prelude::*;
use crate::error::{ApiError, TuhucarError};
use crate::text::{cat, cat3, chars_of, owned, same_chars, texts};
use crate::types::{Notice, ResponseMeta};

verus! {

/// The subcommands of the client.
#[derive(Debug)]
pub enum Commands {
    /// Car model matching.
    Car { action: CarAction },
    /// Knowledge queries.
    Knowledge { action: KnowledgeAction },
    /// Configuration management.
    Config { action: ConfigAction },
    /// Skill installation management.
    Skill { action: SkillAction },
}

/// What `car` does.
#[derive(Debug)]
pub enum CarAction {
    /// Match a car model by description.
    Match { query: String },
    /// Show the command's schema.
    Schema,
}

/// What `knowledge` does.
#[derive(Debug)]
pub enum KnowledgeAction {
    /// Ask a question, optionally in an existing session.
    Query { question: String, session_id: Option<String> },
    /// Show the command's schema.
    Schema,
}

/// What `config` does.
#[derive(Debug)]
pub enum ConfigAction {
    /// Write the default configuration.
    Init,
    /// Show the configuration.
    Show,
}

/// What `skill` does.
#[derive(Debug)]
pub enum SkillAction {
    /// Install the skills on the platforms found.
    Install,
    /// Remove the skills.
    Uninstall,
}

/// Argument `i` asks for JSON output: it is `--format=json`, or it is
/// `--format` and the next one is `json`.
pub open spec fn json_flag_at(args: Seq<Seq<char>>, i: int) -> bool {
    ||| args[i] == "--format=json"@
    ||| (i + 1 < args.len() && args[i] == "--format"@ && args[i + 1] == "json"@)
}

/// Some argument asks for JSON output.
pub open spec fn asks_for_json(args: Seq<Seq<char>>) -> bool {
    exists|i: int| 0 <= i < args.len() && #[trigger] json_flag_at(args, i)
}

/// Whether the raw arguments ask for JSON output, so that even a command
/// line that cannot be parsed is answered with a JSON envelope.
pub fn wants_json(args: &Vec<String>) -> (r: bool)
    ensures
        r == asks_for_json(texts(args@)),
{
    let eq_form = chars_of("--format=json");
    let flag = chars_of("--format");
    let json = chars_of("json");
    let ghost a = texts(args@);
    let mut i: usize = 0;
    while i < args.len()
        invariant
            i <= args.len(),
            a == texts(args@),
            eq_form@ == "--format=json"@,
            flag@ == "--format"@,
            json@ == "json"@,
            forall|j: int| 0 <= j < i ==> !json_flag_at(a, j),
        decreases args.len() - i,
    {
        let cur = chars_of(args[i].as_str());
        assert(a[i as int] == cur@);
        if same_chars(&cur, &eq_form) {
            assert(json_flag_at(a, i as int));
            return true;
        }
        if i + 1 < args.len() && same_chars(&cur, &flag) {
            let next = chars_of(args[i + 1].as_str());
            assert(a[i + 1] == next@);
            if same_chars(&next, &json) {
                assert(json_flag_at(a, i as int));
                return true;
            }
        }
        i = i + 1;
    }
    false
}

/// The arguments ask for JSON output exactly when one of them is
/// `--format=json`, or one is `--format` and the next is `json`, wherever
/// the pair stands, the last two arguments included.
pub proof fn json_requested_by_flag(args: Seq<Seq<char>>)
    ensures
        asks_for_json(args) <==> (exists|i: int|
            #![trigger args[i]]
            0 <= i < args.len() && (args[i] == "--format=json"@ || (i + 1 < args.len() && args[i]
                == "--format"@ && args[i + 1] == "json"@))),
{
    if asks_for_json(args) {
        let i = choose|i: int| 0 <= i < args.len() && #[trigger] json_flag_at(args, i);
        assert(0 <= i < args.len() && (args[i] == "--format=json"@ || (i + 1 < args.len()
            && args[i] == "--format"@ && args[i + 1] == "json"@)));
    }
    if exists|i: int|
        #![trigger args[i]]
        0 <= i < args.len() && (args[i] == "--format=json"@ || (i + 1 < args.len() && args[i]
            == "--format"@ && args[i + 1] == "json"@)) {
        let i = choose|i: int|
            #![trigger args[i]]
            0 <= i < args.len() && (args[i] == "--format=json"@ || (i + 1 < args.len() && args[i]
                == "--format"@ && args[i + 1] == "json"@));
        assert(json_flag_at(args, i));
    }
}

/// The metadata of a response: the version, and the pending update notice
/// if there is one.
pub fn build_meta(version: &str, notice: Option<Notice>) -> (m: ResponseMeta)
    ensures
        m.version@ == version@,
        m.notices@ == match notice {
            Some(n) => seq![n],
            None => Seq::<Notice>::empty(),
        },
{
    let mut notices: Vec<Notice> = Vec::new();
    if let Some(n) = notice {
        notices.push(n);
    }
    ResponseMeta { version: owned(version), notices }
}

/// The release a notice is about.
pub open spec fn notice_latest(n: Notice) -> Seq<char> {
    match n {
        Notice::Update { latest, .. } => latest@,
    }
}

/// The releases that the notices of `meta` announce, in order: the user
/// has now been told about these, once the output is written.
pub fn notified_versions(meta: &ResponseMeta) -> (r: Vec<String>)
    ensures
        texts(r@) == meta.notices@.map_values(|n: Notice| notice_latest(n)),
{
    let mut r: Vec<String> = Vec::new();
    let mut i: usize = 0;
    while i < meta.notices.len()
        invariant
            i <= meta.notices.len(),
            texts(r@) == meta.notices@.take(i as int).map_values(|n: Notice| notice_latest(n)),
        decreases meta.notices.len() - i,
    {
        let ghost before = r@;
        let l = match &meta.notices[i] {
            Notice::Update { latest, .. } => latest.clone(),
        };
        assert(l@ == notice_latest(meta.notices@[i as int]));
        r.push(l);
        assert(texts(r@) =~= texts(before).push(l@));
        assert(texts(r@) =~= meta.notices@.take(i as int + 1).map_values(
            |n: Notice| notice_latest(n),
        ));
        i = i + 1;
    }
    assert(meta.notices@.take(meta.notices.len() as int) =~= meta.notices@);
    r
}

/// The error for a command line that could not be parsed; `message` is
/// the parser's explanation.
pub fn usage_error(message: &str) -> (e: TuhucarError)
    ensures
        e matches TuhucarError::InvalidArgs { message: m, suggestion } && m@ == message@
            && suggestion@ == "Run: tuhucar --help"@,
{
    TuhucarError::InvalidArgs { message: owned(message), suggestion: owned("Run: tuhucar --help") }
}

/// The message for an output format other than `json` and `markdown`.
pub open spec fn invalid_format_text(format: Seq<char>) -> Seq<char> {
    "Invalid format '"@ + format + "'. Must be 'json' or 'markdown'."@
}

/// The error for an unknown output format.
pub fn invalid_format_error(format: &str) -> (e: TuhucarError)
    ensures
        e matches TuhucarError::InvalidArgs { message, suggestion } && message@
            == invalid_format_text(format@) && suggestion@
            == "Use --format json or --format markdown"@,
{
    TuhucarError::InvalidArgs {
        message: cat3("Invalid format '", format, "'. Must be 'json' or 'markdown'."),
        suggestion: owned("Use --format json or --format markdown"),
    }
}

/// The text written to the error stream for an unknown output format.
pub fn invalid_format_report(format: &str) -> (s: String)
    ensures
        s@ == "Error: "@ + invalid_format_text(format@) + "\n"@,
{
    let m = cat3("Invalid format '", format, "'. Must be 'json' or 'markdown'.");
    cat3("Error: ", m.as_str(), "\n")
}

/// The text written to the error stream for a failed command in markdown
/// mode: code and message, then the suggestion indented.
pub open spec fn error_report_text(e: ApiError) -> Seq<char> {
    "Error ["@ + e.code@ + "]: "@ + e.message@ + "\n"@ + match e.suggestion {
        Some(s) => "\n  "@ + s@ + "\n"@,
        None => Seq::<char>::empty(),
    }
}

/// Renders a failure for the error stream.
pub fn error_report(e: &ApiError) -> (s: String)
    ensures
        s@ == error_report_text(*e),
{
    let head = cat3("Error [", e.code.as_str(), "]: ");
    let line = cat3(head.as_str(), e.message.as_str(), "\n");
    match &e.suggestion {
        Some(sug) => {
            let tail = cat3("\n  ", sug.as_str(), "\n");
            cat(line.as_str(), tail.as_str())
        },
        None => line,
    }
}

/// The text written to the error stream after a markdown result: each
/// notice's message on a line of its own, after an empty line.
pub open spec fn notice_report_text(ns: Seq<Notice>) -> Seq<char>
    decreases ns.len(),
{
    if ns.len() == 0 {
        Seq::<char>::empty()
    } else {
        notice_report_text(ns.drop_last()) + match ns.last() {
            Notice::Update { message, .. } => "\n"@ + message@ + "\n"@,
        }
    }
}

/// Renders the notices of `meta` for the error stream.
pub fn notice_report(meta: &ResponseMeta) -> (s: String)
    ensures
        s@ == notice_report_text(meta.notices@),
{
    let mut out = String::new();
    let mut i: usize = 0;
    while i < meta.notices.len()
        invariant
            i <= meta.notices.len(),
            out@ == notice_report_text(meta.notices@.take(i as int)),
        decreases meta.notices.len() - i,
    {
        let ghost before = meta.notices@.take(i as int);
        match &meta.notices[i] {
            Notice::Update { message, .. } => {
                let line = cat3("\n", message.as_str(), "\n");
                out = cat(out.as_str(), line.as_str());
            },
        }
        assert(meta.notices@.take(i as int + 1).drop_last() =~= before);
        i = i + 1;
    }
    assert(meta.notices@.take(meta.notices.len() as int) =~= meta.notices@);
    out
}

} // verus!
