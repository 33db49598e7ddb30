//! Decisions of assistant-skill installation: which directory a platform
//! uses, which legacy plugin entries to remove from an OpenCode
//! configuration, and the summary printed at the end.

use vstd::prelude::*;
use crate::error::holds_text;
use crate::text::{cat, cat3, join, join_path, owned, pad_right, padded, same_text, texts};

verus! {

/// How installing on (or removing from) one platform went.
#[derive(Debug)]
pub enum PlatformStatus {
    Installed,
    Skipped(String),
    Failed(String),
}

/// One platform's outcome.
#[derive(Debug)]
pub struct PlatformResult {
    pub name: String,
    pub status: PlatformStatus,
}

/// The width of the platform-name column of the summary.
pub const NAME_WIDTH: usize = 14;

/// The mark before a platform's line.
pub open spec fn status_icon(s: PlatformStatus) -> Seq<char> {
    match s {
        PlatformStatus::Installed => "\u{2713}"@,
        PlatformStatus::Skipped(_) => "-"@,
        PlatformStatus::Failed(_) => "\u{2717}"@,
    }
}

/// The word for a platform's outcome.
pub open spec fn status_detail(action: Seq<char>, s: PlatformStatus) -> Seq<char> {
    match s {
        PlatformStatus::Installed => if action == "uninstallation"@ {
            "removed"@
        } else {
            "installed"@
        },
        PlatformStatus::Skipped(reason) => "skipped ("@ + reason@ + ")"@,
        PlatformStatus::Failed(err) => "failed ("@ + err@ + ")"@,
    }
}

/// A platform's line of the summary.
pub open spec fn result_line(action: Seq<char>, r: PlatformResult) -> Seq<char> {
    "  "@ + status_icon(r.status) + " "@ + pad_right(r.name@, NAME_WIDTH as nat) + " \u{2014} "@
        + status_detail(action, r.status) + "\n"@
}

/// The lines for `rs`, in order.
pub open spec fn result_lines(action: Seq<char>, rs: Seq<PlatformResult>) -> Seq<char>
    decreases rs.len(),
{
    if rs.len() == 0 {
        Seq::<char>::empty()
    } else {
        result_lines(action, rs.drop_last()) + result_line(action, rs.last())
    }
}

/// Some platform was installed (or cleaned).
pub open spec fn any_installed(rs: Seq<PlatformResult>) -> bool {
    exists|i: int| 0 <= i < rs.len() && rs[i].status is Installed
}

/// Some platform failed.
pub open spec fn any_failed(rs: Seq<PlatformResult>) -> bool {
    exists|i: int| 0 <= i < rs.len() && rs[i].status is Failed
}

/// The summary printed after installing or removing skills.
pub open spec fn summary_of(action: Seq<char>, rs: Seq<PlatformResult>) -> Seq<char> {
    "\nSkill "@ + action + " summary:\n"@ + result_lines(action, rs) + "\n"@ + (if any_installed(
        rs,
    ) {
        "CLI is ready.\n"@
    } else {
        Seq::<char>::empty()
    }) + (if any_failed(rs) {
        "Run `tuhucar skill install` to retry failed platforms.\n"@
    } else {
        Seq::<char>::empty()
    })
}

/// The summary is its heading, one line per platform and an empty line;
/// then "CLI is ready." exactly when some platform was installed (or
/// cleaned); then the hint to retry exactly when some platform failed.
pub proof fn ready_line_iff_installed(action: Seq<char>, rs: Seq<PlatformResult>)
    ensures
        ({
            let body = "\nSkill "@ + action + " summary:\n"@ + result_lines(action, rs) + "\n"@;
            let retry = if exists|i: int| 0 <= i < rs.len() && rs[i].status is Failed {
                "Run `tuhucar skill install` to retry failed platforms.\n"@
            } else {
                Seq::<char>::empty()
            };
            &&& (exists|i: int| 0 <= i < rs.len() && rs[i].status is Installed) ==> summary_of(
                action,
                rs,
            ) == body + "CLI is ready.\n"@ + retry
            &&& !(exists|i: int| 0 <= i < rs.len() && rs[i].status is Installed) ==> summary_of(
                action,
                rs,
            ) == body + retry
        }),
{
    let body = "\nSkill "@ + action + " summary:\n"@ + result_lines(action, rs) + "\n"@;
    assert(body + Seq::<char>::empty() =~= body);
    let r = if any_failed(rs) {
        "Run `tuhucar skill install` to retry failed platforms.\n"@
    } else {
        Seq::<char>::empty()
    };
    assert(Seq::<char>::empty() + r =~= r);
    assert(body + Seq::<char>::empty() + r =~= body + r);
}

/// Each platform's line: two spaces, a check mark, a dash or a cross, the
/// name padded to 14 characters, an em dash, and what happened; the lines
/// come in the order of the results.
pub proof fn summary_lines_by_status(action: Seq<char>, rs: Seq<PlatformResult>, r: PlatformResult)
    ensures
        r.status is Installed ==> result_line(action, r) == "  \u{2713} "@ + pad_right(
            r.name@,
            14,
        ) + " \u{2014} "@ + (if action == "uninstallation"@ {
            "removed"@
        } else {
            "installed"@
        }) + "\n"@,
        r.status matches PlatformStatus::Skipped(why) ==> result_line(action, r) == "  - "@
            + pad_right(r.name@, 14) + " \u{2014} skipped ("@ + why@ + ")\n"@,
        r.status matches PlatformStatus::Failed(err) ==> result_line(action, r) == "  \u{2717} "@
            + pad_right(r.name@, 14) + " \u{2014} failed ("@ + err@ + ")\n"@,
        result_lines(action, Seq::<PlatformResult>::empty()) == Seq::<char>::empty(),
        result_lines(action, rs.push(r)) == result_lines(action, rs) + result_line(action, r),
{
    assert(rs.push(r).drop_last() =~= rs);
    match r.status {
        PlatformStatus::Installed => {
            assert(status_icon(r.status) == "\u{2713}"@);
            assert(status_detail(action, r.status) == (if action == "uninstallation"@ {
                "removed"@
            } else {
                "installed"@
            }));
            if action == "uninstallation"@ {
                assert(result_line(action, r) =~= "  \u{2713} "@ + pad_right(r.name@, 14)
                    + " \u{2014} "@ + "removed"@ + "\n"@) by {
                    reveal_strlit("  ");
                    reveal_strlit("\u{2713}");
                    reveal_strlit(" ");
                    reveal_strlit("  \u{2713} ");
                }
            } else {
                assert(result_line(action, r) =~= "  \u{2713} "@ + pad_right(r.name@, 14)
                    + " \u{2014} "@ + "installed"@ + "\n"@) by {
                    reveal_strlit("  ");
                    reveal_strlit("\u{2713}");
                    reveal_strlit(" ");
                    reveal_strlit("  \u{2713} ");
                }
            }
        },
        PlatformStatus::Skipped(why) => {
            assert(result_line(action, r) =~= "  - "@ + pad_right(r.name@, 14)
                + " \u{2014} skipped ("@ + why@ + ")\n"@) by {
                reveal_strlit("  ");
                reveal_strlit("-");
                reveal_strlit(" ");
                reveal_strlit("  - ");
                reveal_strlit(" \u{2014} ");
                reveal_strlit(" \u{2014} skipped (");
                reveal_strlit("skipped (");
                reveal_strlit(")");
                reveal_strlit("\n");
                reveal_strlit(")\n");
            }
        },
        PlatformStatus::Failed(err) => {
            assert(result_line(action, r) =~= "  \u{2717} "@ + pad_right(r.name@, 14)
                + " \u{2014} failed ("@ + err@ + ")\n"@) by {
                reveal_strlit("  ");
                reveal_strlit("\u{2717}");
                reveal_strlit(" ");
                reveal_strlit("  \u{2717} ");
                reveal_strlit(" \u{2014} ");
                reveal_strlit(" \u{2014} failed (");
                reveal_strlit("failed (");
                reveal_strlit(")");
                reveal_strlit("\n");
                reveal_strlit(")\n");
            }
        },
    }
}

fn render_line(action: &str, r: &PlatformResult) -> (s: String)
    ensures
        s@ == result_line(action@, *r),
{
    let icon = match &r.status {
        PlatformStatus::Installed => "\u{2713}",
        PlatformStatus::Skipped(_) => "-",
        PlatformStatus::Failed(_) => "\u{2717}",
    };
    let detail = match &r.status {
        PlatformStatus::Installed => if same_text(action, "uninstallation") {
            owned("removed")
        } else {
            owned("installed")
        },
        PlatformStatus::Skipped(reason) => cat3("skipped (", reason.as_str(), ")"),
        PlatformStatus::Failed(err) => cat3("failed (", err.as_str(), ")"),
    };
    let name = padded(r.name.as_str(), NAME_WIDTH);
    let a = cat3("  ", icon, " ");
    let b = cat3(a.as_str(), name.as_str(), " \u{2014} ");
    cat3(b.as_str(), detail.as_str(), "\n")
}

/// Renders the summary printed after installing or removing skills:
/// `results` for `action` (`installation` or `uninstallation`).
pub fn summary_text(action: &str, results: &Vec<PlatformResult>) -> (s: String)
    ensures
        s@ == summary_of(action@, results@),
{
    let mut out = cat3("\nSkill ", action, " summary:\n");
    let ghost head = out@;
    let mut installed = false;
    let mut failed = false;
    let mut i: usize = 0;
    while i < results.len()
        invariant
            i <= results.len(),
            head == "\nSkill "@ + action@ + " summary:\n"@,
            out@ == head + result_lines(action@, results@.take(i as int)),
            installed == any_installed(results@.take(i as int)),
            failed == any_failed(results@.take(i as int)),
        decreases results.len() - i,
    {
        let ghost before = results@.take(i as int);
        let ghost after = results@.take(i as int + 1);
        assert(after.drop_last() =~= before);
        assert(after.last() == results@[i as int]);
        let line = render_line(action, &results[i]);
        out = cat(out.as_str(), line.as_str());
        match &results[i].status {
            PlatformStatus::Installed => {
                installed = true;
            },
            PlatformStatus::Failed(_) => {
                failed = true;
            },
            PlatformStatus::Skipped(_) => {},
        }
        assert(installed == any_installed(after)) by {
            if installed && !any_installed(before) {
                assert(after[i as int].status is Installed);
            }
            if any_installed(after) {
                let k = choose|k: int| 0 <= k < after.len() && after[k].status is Installed;
                if k < i {
                    assert(before[k] == after[k]);
                }
            }
            if any_installed(before) {
                let k = choose|k: int| 0 <= k < before.len() && before[k].status is Installed;
                assert(after[k] == before[k]);
            }
        }
        assert(failed == any_failed(after)) by {
            if failed && !any_failed(before) {
                assert(after[i as int].status is Failed);
            }
            if any_failed(after) {
                let k = choose|k: int| 0 <= k < after.len() && after[k].status is Failed;
                if k < i {
                    assert(before[k] == after[k]);
                }
            }
            if any_failed(before) {
                let k = choose|k: int| 0 <= k < before.len() && before[k].status is Failed;
                assert(after[k] == before[k]);
            }
        }
        i = i + 1;
    }
    assert(results@.take(results.len() as int) =~= results@);
    out = cat(out.as_str(), "\n");
    if installed {
        out = cat(out.as_str(), "CLI is ready.\n");
    }
    if failed {
        out = cat(out.as_str(), "Run `tuhucar skill install` to retry failed platforms.\n");
    }
    out
}

/// The outcome of work on the platform `name`: done when nothing went
/// wrong, failed with the error's text otherwise.
pub fn platform_outcome(name: &str, failure: Option<String>) -> (r: PlatformResult)
    ensures
        r.name@ == name@,
        match failure {
            None => r.status is Installed,
            Some(e) => r.status matches PlatformStatus::Failed(m) && m@ == e@,
        },
{
    let status = match failure {
        None => PlatformStatus::Installed,
        Some(e) => PlatformStatus::Failed(e),
    };
    PlatformResult { name: owned(name), status }
}

/// The platform `name` is not on this machine.
pub fn not_detected(name: &str) -> (r: PlatformResult)
    ensures
        r.name@ == name@,
        r.status matches PlatformStatus::Skipped(m) && m@ == "not detected"@,
{
    PlatformResult { name: owned(name), status: PlatformStatus::Skipped(owned("not detected")) }
}

/// Removal from the platform `name` is skipped, as not installed, exactly
/// when none of the files it would remove is present.
pub fn removal_skipped(name: &str, present: &Vec<bool>) -> (r: Option<PlatformResult>)
    ensures
        (r is Some) <==> (forall|i: int| 0 <= i < present@.len() ==> !present@[i]),
        r matches Some(p) ==> (p.name@ == name@ && (p.status matches PlatformStatus::Skipped(m)
            && m@ == "not installed"@)),
{
    let mut i: usize = 0;
    while i < present.len()
        invariant
            i <= present.len(),
            forall|k: int| 0 <= k < i ==> !present@[k],
        decreases present.len() - i,
    {
        if present[i] {
            return None;
        }
        i = i + 1;
    }
    Some(
        PlatformResult { name: owned(name), status: PlatformStatus::Skipped(owned("not installed")) },
    )
}

/// One entry of the `plugins` list of an OpenCode configuration, by its
/// `name` and `type` members (each when it is a string).
#[derive(Debug)]
pub struct PluginEntry {
    pub name: Option<String>,
    pub kind: Option<String>,
}

/// The entry is one that older releases of this client registered.
pub open spec fn is_legacy(e: PluginEntry) -> bool {
    holds_text(e.name, "tuhucar"@) && holds_text(e.kind, "skill"@)
}

/// What to do with a `plugins` list.
#[derive(Debug)]
pub struct PrunePlan {
    /// For each entry, whether it stays.
    pub keep: Vec<bool>,
    /// Whether any entry goes.
    pub changed: bool,
    /// Whether the list ends up empty, so that the key itself goes.
    pub drop_key: bool,
}

fn option_is(o: &Option<String>, t: &str) -> (r: bool)
    ensures
        r == holds_text(*o, t@),
{
    match o {
        Some(s) => same_text(s.as_str(), t),
        None => false,
    }
}

/// Plans the removal of legacy entries from a `plugins` list: exactly the
/// legacy entries go, the others stay in their order.
pub fn prune_plan(entries: &Vec<PluginEntry>) -> (p: PrunePlan)
    ensures
        p.keep@.len() == entries@.len(),
        forall|i: int| 0 <= i < entries@.len() ==> p.keep@[i] == !is_legacy(entries@[i]),
        p.changed == exists|i: int| 0 <= i < entries@.len() && is_legacy(entries@[i]),
        p.drop_key == forall|i: int| 0 <= i < entries@.len() ==> is_legacy(entries@[i]),
{
    let mut keep: Vec<bool> = Vec::new();
    let mut changed = false;
    let mut all_gone = true;
    let mut i: usize = 0;
    while i < entries.len()
        invariant
            i <= entries.len(),
            keep@.len() == i,
            forall|k: int| 0 <= k < i ==> keep@[k] == !is_legacy(entries@[k]),
            changed == exists|k: int| 0 <= k < i && is_legacy(entries@[k]),
            all_gone == forall|k: int| 0 <= k < i ==> is_legacy(entries@[k]),
        decreases entries.len() - i,
    {
        let e = &entries[i];
        let legacy = option_is(&e.name, "tuhucar") && option_is(&e.kind, "skill");
        assert(legacy == is_legacy(entries@[i as int]));
        keep.push(!legacy);
        if legacy {
            changed = true;
        } else {
            all_gone = false;
        }
        i = i + 1;
    }
    PrunePlan { keep, changed, drop_key: all_gone }
}

// ---------------------------------------------------------------------------
// OpenCode configuration files
// ---------------------------------------------------------------------------

/// The characters of an optional string.
pub open spec fn opt_text(o: Option<String>) -> Option<Seq<char>> {
    match o {
        Some(s) => Some(s@),
        None => None,
    }
}

/// A plugin entry as plain values: its `name` and its `type`.
pub open spec fn entry_view(e: PluginEntry) -> (Option<Seq<char>>, Option<Seq<char>>) {
    (opt_text(e.name), opt_text(e.kind))
}

/// The entry (by its `name` and `type`) is one that older releases
/// registered.
pub open spec fn legacy_pair(p: (Option<Seq<char>>, Option<Seq<char>>)) -> bool {
    p.0 == Some("tuhucar"@) && p.1 == Some("skill"@)
}

/// The document that the text `t` spells (`serde_json::from_str`), if it
/// is JSON.
pub uninterp spec fn json_parse(t: Seq<char>) -> Option<serde_json::Value>;

/// The document has an array under the key `plugins`.
pub uninterp spec fn has_plugin_list(v: serde_json::Value) -> bool;

/// The entries of the array under `plugins`, each by its `name` and
/// `type` members when those are strings.
pub uninterp spec fn plugin_list(v: serde_json::Value) -> Seq<(Option<Seq<char>>, Option<Seq<char>>)>;

/// The document with entry `i` of its `plugins` array removed
/// (`Vec::remove` on that array).
pub uninterp spec fn json_remove_entry(v: serde_json::Value, i: int) -> serde_json::Value;

/// The document without its `plugins` key (`Map::remove`).
pub uninterp spec fn json_remove_key(v: serde_json::Value) -> serde_json::Value;

/// The document written out (`serde_json::to_string_pretty`).
pub uninterp spec fn json_text(v: serde_json::Value) -> Seq<char>;

/// Parses `t` with `serde_json::from_str::<Value>`; `None` when it is not
/// JSON.  Trusted: the result is the named document of `t`.
#[verifier::external_body]
fn parse_json(t: &str) -> (r: Option<serde_json::Value>)
    ensures
        r == json_parse(t@),
{
    serde_json::from_str::<serde_json::Value>(t).ok()
}

/// The length of the array under `plugins` (`Value::get`, `as_array`),
/// if there is one.  Trusted: `Some` exactly when the document has such
/// an array, holding its number of entries.
#[verifier::external_body]
fn plugin_count(v: &serde_json::Value) -> (r: Option<usize>)
    ensures
        (r is Some) == has_plugin_list(*v),
        r matches Some(n) ==> n == plugin_list(*v).len(),
{
    v.get("plugins").and_then(|p| p.as_array()).map(|a| a.len())
}

/// Entry `i` of the `plugins` array (`Value` indexing, `get`, `as_str`),
/// by its `name` and `type` strings.  Trusted: it is the named entry.
#[verifier::external_body]
fn plugin_at(v: &serde_json::Value, i: usize) -> (e: PluginEntry)
    requires
        has_plugin_list(*v),
        i < plugin_list(*v).len(),
    ensures
        entry_view(e) == plugin_list(*v)[i as int],
{
    let e = &v["plugins"][i];
    PluginEntry {
        name: e.get("name").and_then(|x| x.as_str()).map(|s| s.to_string()),
        kind: e.get("type").and_then(|x| x.as_str()).map(|s| s.to_string()),
    }
}

/// Removes entry `i` of the `plugins` array (`Vec::remove`).  Trusted: the
/// array keeps its other entries in order, and nothing else changes.
#[verifier::external_body]
fn remove_plugin(v: &mut serde_json::Value, i: usize)
    requires
        has_plugin_list(*old(v)),
        i < plugin_list(*old(v)).len(),
    ensures
        *final(v) == json_remove_entry(*old(v), i as int),
        has_plugin_list(*final(v)),
        plugin_list(*final(v)) == plugin_list(*old(v)).remove(i as int),
{
    if let Some(a) = v.get_mut("plugins").and_then(|p| p.as_array_mut()) {
        a.remove(i);
    }
}

/// Removes the `plugins` key (`Map::remove`).  Trusted: afterwards there
/// is no `plugins` array.
#[verifier::external_body]
fn remove_plugins_key(v: &mut serde_json::Value)
    ensures
        *final(v) == json_remove_key(*old(v)),
        !has_plugin_list(*final(v)),
{
    if let Some(o) = v.as_object_mut() {
        o.remove("plugins");
    }
}

/// Writes the document out with `serde_json::to_string_pretty`, which
/// cannot fail on a `Value` (its keys are strings).  Trusted: the result
/// is the named text of the document.
#[verifier::external_body]
fn json_pretty(v: &serde_json::Value) -> (s: String)
    ensures
        s@ == json_text(*v),
{
    serde_json::to_string_pretty(v).unwrap()
}

/// For each entry, whether it stays.
pub open spec fn keep_flags(es: Seq<(Option<Seq<char>>, Option<Seq<char>>)>) -> Seq<bool> {
    es.map_values(|p: (Option<Seq<char>>, Option<Seq<char>>)| !legacy_pair(p))
}

/// Some entry is a legacy one.
pub open spec fn any_legacy(es: Seq<(Option<Seq<char>>, Option<Seq<char>>)>) -> bool {
    exists|i: int| 0 <= i < es.len() && legacy_pair(es[i])
}

/// Every entry is a legacy one (so none is left).
pub open spec fn all_legacy(es: Seq<(Option<Seq<char>>, Option<Seq<char>>)>) -> bool {
    forall|i: int| 0 <= i < es.len() ==> legacy_pair(es[i])
}

/// The test that an entry stays.
pub open spec fn stays() -> spec_fn((Option<Seq<char>>, Option<Seq<char>>)) -> bool {
    |p: (Option<Seq<char>>, Option<Seq<char>>)| !legacy_pair(p)
}

/// The entries of `es` that stay, in their order.
pub open spec fn kept_pairs(es: Seq<(Option<Seq<char>>, Option<Seq<char>>)>) -> Seq<
    (Option<Seq<char>>, Option<Seq<char>>),
> {
    es.filter(stays())
}

proof fn lemma_kept_step(es: Seq<(Option<Seq<char>>, Option<Seq<char>>)>, j: int)
    requires
        0 < j <= es.len(),
    ensures
        es.skip(j - 1).filter(stays()) == if legacy_pair(es[j - 1]) {
            es.skip(j).filter(stays())
        } else {
            seq![es[j - 1]] + es.skip(j).filter(stays())
        },
{
    let x = es[j - 1];
    assert(es.skip(j - 1) =~= seq![x] + es.skip(j));
    Seq::filter_distributes_over_add(seq![x], es.skip(j), stays());
    assert(seq![x].drop_last() =~= Seq::<(Option<Seq<char>>, Option<Seq<char>>)>::empty());
    reveal_with_fuel(Seq::filter, 2);
    if legacy_pair(x) {
        assert(seq![x].filter(stays()) =~= Seq::<(Option<Seq<char>>, Option<Seq<char>>)>::empty());
    } else {
        assert(seq![x].filter(stays()) =~= seq![x]);
    }
}

proof fn lemma_filter_all(s: Seq<(Option<Seq<char>>, Option<Seq<char>>)>)
    requires
        forall|i: int| 0 <= i < s.len() ==> #[trigger] stays()(s[i]),
    ensures
        s.filter(stays()) == s,
    decreases s.len(),
{
    if s.len() == 0 {
        reveal(Seq::filter);
        assert(s.filter(stays()) =~= s);
    } else {
        let t = s.drop_last();
        assert forall|i: int| 0 <= i < t.len() implies #[trigger] stays()(t[i]) by {
            assert(t[i] == s[i]);
            assert(stays()(s[i]));
        }
        lemma_filter_all(t);
        assert(stays()(s[s.len() - 1]));
        reveal(Seq::filter);
        assert(s.filter(stays()) == t.filter(stays()).push(s.last()));
        assert(t.push(s.last()) =~= s);
    }
}

/// Pruning leaves no legacy entry behind, so pruning the result again
/// changes nothing.
pub proof fn pruning_is_idempotent(es: Seq<(Option<Seq<char>>, Option<Seq<char>>)>)
    ensures
        !any_legacy(kept_pairs(es)),
        kept_pairs(kept_pairs(es)) == kept_pairs(es),
{
    if any_legacy(kept_pairs(es)) {
        let i = choose|i: int| 0 <= i < kept_pairs(es).len() && legacy_pair(kept_pairs(es)[i]);
        es.lemma_filter_pred(stays(), i);
    }
    let k = kept_pairs(es);
    assert forall|i: int| 0 <= i < k.len() implies #[trigger] stays()(k[i]) by {
        es.lemma_filter_pred(stays(), i);
    }
    lemma_filter_all(k);
}

/// `v` with the entries whose flag in `keep` is false removed, the last
/// first, so that the earlier positions stay valid.
pub open spec fn remove_unkept(v: serde_json::Value, keep: Seq<bool>) -> serde_json::Value
    decreases keep.len(),
{
    if keep.len() == 0 {
        v
    } else {
        let i = keep.len() - 1;
        let w = if keep[i] {
            v
        } else {
            json_remove_entry(v, i)
        };
        remove_unkept(w, keep.drop_last())
    }
}

/// The document `v`, whose `plugins` array holds `es`, once the legacy
/// entries are removed, and the key too when no entry is left.
pub open spec fn pruned_value(
    v: serde_json::Value,
    es: Seq<(Option<Seq<char>>, Option<Seq<char>>)>,
) -> serde_json::Value {
    let w = remove_unkept(v, keep_flags(es));
    if all_legacy(es) {
        json_remove_key(w)
    } else {
        w
    }
}

proof fn lemma_legacy_view(e: PluginEntry)
    ensures
        is_legacy(e) == legacy_pair(entry_view(e)),
{
}

/// Removes the entries that older releases registered from the `plugins`
/// array of an OpenCode configuration, and the key when nothing is left;
/// whether any entry was removed.  A document without a `plugins` array
/// is left alone.  The entries that stay keep their order.
pub fn prune_opencode_legacy_plugin_entries(config: &mut serde_json::Value) -> (changed: bool)
    ensures
        !has_plugin_list(*old(config)) ==> !changed && *final(config) == *old(config),
        has_plugin_list(*old(config)) ==> changed == any_legacy(plugin_list(*old(config)))
            && *final(config) == pruned_value(*old(config), plugin_list(*old(config))),
        has_plugin_list(*old(config)) ==> (has_plugin_list(*final(config)) <==> !all_legacy(
            plugin_list(*old(config)),
        )),
        has_plugin_list(*final(config)) ==> plugin_list(*final(config)) == kept_pairs(
            plugin_list(*old(config)),
        ),
{
    let n = match plugin_count(config) {
        None => return false,
        Some(n) => n,
    };
    let ghost v0 = *config;
    let ghost es = plugin_list(v0);
    let mut entries: Vec<PluginEntry> = Vec::new();
    let mut i: usize = 0;
    while i < n
        invariant
            i <= n,
            n == es.len(),
            has_plugin_list(v0),
            es == plugin_list(v0),
            *config == v0,
            entries@.len() == i,
            forall|k: int| 0 <= k < i ==> entry_view(#[trigger] entries@[k]) == es[k],
        decreases n - i,
    {
        let e = plugin_at(config, i);
        entries.push(e);
        i = i + 1;
    }
    let plan = prune_plan(&entries);
    proof {
        assert forall|k: int| 0 <= k < n implies is_legacy(entries@[k]) == legacy_pair(
            #[trigger] es[k],
        ) by {
            lemma_legacy_view(entries@[k]);
        }
        assert(plan.keep@ =~= keep_flags(es));
        if plan.changed {
            let k = choose|k: int| 0 <= k < entries@.len() && is_legacy(entries@[k]);
            assert(legacy_pair(es[k]));
        }
        if any_legacy(es) {
            let k = choose|k: int| 0 <= k < es.len() && legacy_pair(es[k]);
            assert(is_legacy(entries@[k]));
        }
        if plan.drop_key {
            assert forall|k: int| 0 <= k < es.len() implies legacy_pair(es[k]) by {
                assert(is_legacy(entries@[k]));
            }
        }
        if all_legacy(es) {
            assert forall|k: int| 0 <= k < entries@.len() implies is_legacy(entries@[k]) by {
                assert(legacy_pair(es[k]));
            }
        }
    }
    let ghost keep = plan.keep@;
    let mut j: usize = n;
    assert(keep.take(n as int) =~= keep);
    assert(es.take(n as int) =~= es);
    assert(es.skip(n as int) =~= Seq::<(Option<Seq<char>>, Option<Seq<char>>)>::empty());
    assert(es.skip(n as int).filter(stays()) =~= Seq::<
        (Option<Seq<char>>, Option<Seq<char>>),
    >::empty());
    assert(es.take(n as int) + es.skip(n as int).filter(stays()) =~= es);
    while j > 0
        invariant
            j <= n,
            keep.len() == n,
            keep == plan.keep@,
            has_plugin_list(*config),
            plugin_list(*config).len() >= j,
            remove_unkept(v0, keep) == remove_unkept(*config, keep.take(j as int)),
            es.len() == n,
            forall|k: int| 0 <= k < n ==> keep[k] == !legacy_pair(#[trigger] es[k]),
            plugin_list(*config) == es.take(j as int) + es.skip(j as int).filter(stays()),
        decreases j,
    {
        assert(keep.take(j as int).drop_last() =~= keep.take(j - 1));
        assert(keep.take(j as int)[j - 1] == keep[j - 1]);
        proof {
            lemma_kept_step(es, j as int);
        }
        assert(es.take(j as int) =~= es.take(j - 1).push(es[j - 1]));
        if !plan.keep[j - 1] {
            remove_plugin(config, j - 1);
            assert(plugin_list(*config) =~= es.take(j - 1) + es.skip(j - 1).filter(stays()));
        } else {
            assert(plugin_list(*config) =~= es.take(j - 1) + es.skip(j - 1).filter(stays()));
        }
        j = j - 1;
    }
    assert(es.skip(0) =~= es);
    assert(es.take(0) + es.skip(0).filter(stays()) =~= kept_pairs(es));
    if plan.drop_key {
        remove_plugins_key(config);
    }
    plan.changed
}

/// The `plugins` entries of the configuration text `t`: `None` when it is
/// not JSON or has no `plugins` array.
pub open spec fn json_plugins(t: Seq<char>) -> Option<Seq<(Option<Seq<char>>, Option<Seq<char>>)>> {
    match json_parse(t) {
        Some(v) => if has_plugin_list(v) {
            Some(plugin_list(v))
        } else {
            None
        },
        None => None,
    }
}

/// The configuration text `t` once pruned, written out again.
pub open spec fn pruned_text(t: Seq<char>) -> Seq<char> {
    json_text(pruned_value(json_parse(t).unwrap(), json_plugins(t).unwrap()))
}

/// Prunes the legacy plugin entries from the text of an OpenCode
/// configuration file: the new text when something was removed, `None`
/// when the file is not JSON, has no `plugins` array, or needs no change.
pub fn prune_opencode_config(t: &str) -> (r: Option<String>)
    ensures
        json_plugins(t@) is None ==> r is None,
        json_plugins(t@) matches Some(es) ==> ((r is Some) <==> any_legacy(es)),
        r matches Some(s) ==> s@ == pruned_text(t@),
{
    let mut v = match parse_json(t) {
        None => return None,
        Some(v) => v,
    };
    if prune_opencode_legacy_plugin_entries(&mut v) {
        Some(json_pretty(&v))
    } else {
        None
    }
}

/// Where Codex keeps its home, in order of preference: the directory that
/// `CODEX_HOME` names (`env`), then `.codex` under the home directory.
pub open spec fn codex_candidates(env: Option<String>, home: Seq<char>) -> Seq<Seq<char>> {
    let default = join_path(home, ".codex"@);
    match env {
        Some(e) => seq![e@, default],
        None => seq![default],
    }
}

/// Where OpenCode keeps its configuration, in order of preference: the
/// directory that `OPENCODE_CONFIG_DIR` names (`env`), then
/// `.config/opencode` under the home directory, then `.opencode` there.
pub open spec fn opencode_candidates(env: Option<String>, home: Seq<char>) -> Seq<Seq<char>> {
    let xdg = join_path(join_path(home, ".config"@), "opencode"@);
    let legacy = join_path(home, ".opencode"@);
    match env {
        Some(e) => seq![e@, xdg, legacy],
        None => seq![xdg, legacy],
    }
}

/// The candidate homes of Codex, for the home directory `home`.
pub fn codex_home_candidates(env: Option<String>, home: &str) -> (v: Vec<String>)
    ensures
        texts(v@) == codex_candidates(env, home@),
{
    let mut v: Vec<String> = Vec::new();
    let ghost e = env;
    if let Some(p) = env {
        v.push(p);
    }
    v.push(join(home, ".codex"));
    assert(texts(v@) =~= codex_candidates(e, home@));
    v
}

/// The candidate configuration directories of OpenCode, for the home
/// directory `home`.
pub fn opencode_dir_candidates(env: Option<String>, home: &str) -> (v: Vec<String>)
    ensures
        texts(v@) == opencode_candidates(env, home@),
{
    let mut v: Vec<String> = Vec::new();
    let ghost e = env;
    if let Some(p) = env {
        v.push(p);
    }
    let config = join(home, ".config");
    v.push(join(config.as_str(), "opencode"));
    v.push(join(home, ".opencode"));
    assert(texts(v@) =~= opencode_candidates(e, home@));
    v
}

/// The first candidate that exists.
pub open spec fn first_present(cs: Seq<(String, bool)>) -> Option<Seq<char>>
    decreases cs.len(),
{
    if cs.len() == 0 {
        None
    } else if cs[0].1 {
        Some(cs[0].0@)
    } else {
        first_present(cs.drop_first())
    }
}

/// Picks a platform's directory: the first candidate path, in order of
/// preference, that exists.
pub fn first_existing(cands: &Vec<(String, bool)>) -> (r: Option<String>)
    ensures
        match first_present(cands@) {
            Some(p) => r matches Some(s) && s@ == p,
            None => r is None,
        },
{
    let mut i: usize = 0;
    assert(cands@.skip(0) =~= cands@);
    while i < cands.len()
        invariant
            i <= cands.len(),
            first_present(cands@) == first_present(cands@.skip(i as int)),
        decreases cands.len() - i,
    {
        assert(cands@.skip(i as int).drop_first() =~= cands@.skip(i as int + 1));
        if cands[i].1 {
            return Some(cands[i].0.clone());
        }
        i = i + 1;
    }
    None
}

} // verus!
