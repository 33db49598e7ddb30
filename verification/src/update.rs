//! Update notices: when to look for a newer release, and what to tell the
//! user about one that was found.
//!
//! The records read here are written by the client itself
//! (`.update_check`, `.update_notified` under the configuration directory);
//! reading and writing them, and the clock, stay with the caller.

use vstd::prelude::*;
use crate::config::config_dir_of;
use crate::decimal::{dec, lemma_parse_dec, parse_u64, parse_u64_spec, u64_text};
use crate::text::{cat3, join, join_path, owned, same_text, text_contains, has_infix};
use crate::types::Notice;

verus! {

/// How long a successful check is trusted, in seconds (24 hours).
pub const CHECK_INTERVAL_SECS: u64 = 86400;

/// How long to wait after a failed check, in seconds (1 hour).
pub const FAILED_RETRY_SECS: u64 = 3600;

/// The outcome of the last update check.
#[derive(Debug)]
pub struct UpdateCheck {
    pub checked_at: String,
    pub current: String,
    pub latest: String,
    pub status: UpdateStatus,
    pub install_source: InstallSource,
    pub staging_path: Option<String>,
}

/// What the last update check found.
#[derive(Clone, Copy, Debug, PartialEq, Eq, Structural)]
pub enum UpdateStatus {
    UpToDate,
    UpdateAvailable,
    Downloaded,
    CheckFailed,
}

/// How the running binary was installed.
#[derive(Clone, Copy, Debug, PartialEq, Eq, Structural)]
pub enum InstallSource {
    InstallSh,
    Npm,
    Homebrew,
    Unknown,
}

/// The release the user was last told about, and when.
#[derive(Debug)]
pub struct UpdateNotified {
    pub latest: String,
    pub notified_at: String,
}

/// `<home>/.tuhucar/.update_check`.
pub fn check_file_path(home: &str) -> (p: String)
    ensures
        p@ == join_path(config_dir_of(home@), ".update_check"@),
{
    let dir = crate::config::Config::config_dir(home);
    join(dir.as_str(), ".update_check")
}

/// `<home>/.tuhucar/.update_notified`.
pub fn notified_file_path(home: &str) -> (p: String)
    ensures
        p@ == join_path(config_dir_of(home@), ".update_notified"@),
{
    let dir = crate::config::Config::config_dir(home);
    join(dir.as_str(), ".update_notified")
}

/// The install source that an executable's path reveals.
pub open spec fn source_of_path(p: Seq<char>) -> InstallSource {
    if has_infix(p, "/.tuhucar/bin/"@) {
        InstallSource::InstallSh
    } else if has_infix(p, "node_modules/"@) {
        InstallSource::Npm
    } else if has_infix(p, "/Cellar/"@) || has_infix(p, "/homebrew/"@) {
        InstallSource::Homebrew
    } else {
        InstallSource::Unknown
    }
}

/// Tells from the path of the running executable how it was installed.
pub fn classify_path(path: &str) -> (s: InstallSource)
    ensures
        s == source_of_path(path@),
{
    if text_contains(path, "/.tuhucar/bin/") {
        InstallSource::InstallSh
    } else if text_contains(path, "node_modules/") {
        InstallSource::Npm
    } else if text_contains(path, "/Cellar/") || text_contains(path, "/homebrew/") {
        InstallSource::Homebrew
    } else {
        InstallSource::Unknown
    }
}

/// The seconds after the epoch that a recorded timestamp denotes: the
/// number it spells, or 0 when it spells none.
pub open spec fn epoch_of(s: Seq<char>) -> nat {
    match parse_u64_spec(s) {
        Some(n) => n as nat,
        None => 0,
    }
}

/// A timestamp can be placed on the system clock: a spelled-out number of
/// seconds beyond `i64::MAX` overflows it.
pub open spec fn epoch_fits(s: Seq<char>) -> bool {
    epoch_of(s) <= i64::MAX
}

/// Reads a recorded timestamp: seconds after the epoch, or 0 (the epoch
/// itself) when the text is not a number.
pub fn parse_epoch_or_zero(s: &str) -> (t: u64)
    requires
        epoch_fits(s@),
    ensures
        t == epoch_of(s@),
{
    match parse_u64(s) {
        Some(n) => n,
        None => 0,
    }
}

/// The text in which a time (seconds after the epoch) is recorded.
pub fn epoch_text(secs: u64) -> (s: String)
    ensures
        s@ == dec(secs as nat),
{
    u64_text(secs)
}

/// How long a check with status `st` stays fresh.
pub open spec fn interval_for(st: UpdateStatus) -> u64 {
    match st {
        UpdateStatus::CheckFailed => FAILED_RETRY_SECS,
        _ => CHECK_INTERVAL_SECS,
    }
}

/// What to do about the update check at start-up.
#[derive(Clone, Copy, Debug, PartialEq, Eq, Structural)]
pub enum CheckPlan {
    /// Nothing is recorded: check now.
    Check,
    /// The record belongs to another version: delete both records, then check.
    ResetAndCheck,
    /// The record is stale: check now.
    Recheck,
    /// The record is fresh: do not check.
    Wait,
}

/// Seconds elapsed from `from` to `now`, as `SystemTime::duration_since`
/// counts them; a clock that went backwards counts as more than `interval`.
pub open spec fn elapsed(now: nat, from: nat, interval: nat) -> nat {
    if now >= from {
        (now - from) as nat
    } else {
        interval + 1
    }
}

/// The plan for the record `rec`, the running version `version` and the
/// time `now` (whole seconds after the epoch).
pub open spec fn check_plan(rec: Option<UpdateCheck>, version: Seq<char>, now: nat) -> CheckPlan {
    match rec {
        None => CheckPlan::Check,
        Some(c) => if c.current@ != version {
            CheckPlan::ResetAndCheck
        } else if elapsed(now, epoch_of(c.checked_at@), interval_for(c.status) as nat)
            > interval_for(c.status) {
            CheckPlan::Recheck
        } else {
            CheckPlan::Wait
        },
    }
}

/// The record's timestamp is read only when the record belongs to the
/// running version, and must then fit on the system clock.
pub open spec fn record_time_fits(rec: Option<UpdateCheck>, version: Seq<char>) -> bool {
    match rec {
        Some(c) => c.current@ == version ==> epoch_fits(c.checked_at@),
        None => true,
    }
}

/// Decides whether to look for a newer release; a plan other than `Wait`
/// means yes.
pub fn plan_update_check(rec: &Option<UpdateCheck>, version: &str, now: u64) -> (p: CheckPlan)
    requires
        record_time_fits(*rec, version@),
    ensures
        p == check_plan(*rec, version@, now as nat),
{
    match rec {
        None => CheckPlan::Check,
        Some(c) => {
            if !same_text(c.current.as_str(), version) {
                return CheckPlan::ResetAndCheck;
            }
            let interval: u64 = match c.status {
                UpdateStatus::CheckFailed => FAILED_RETRY_SECS,
                _ => CHECK_INTERVAL_SECS,
            };
            let checked_at = parse_epoch_or_zero(c.checked_at.as_str());
            let gone: u64 = if now >= checked_at {
                now - checked_at
            } else {
                interval + 1
            };
            if gone > interval {
                CheckPlan::Recheck
            } else {
                CheckPlan::Wait
            }
        },
    }
}

/// A record that is due for a check stays due as time goes on (from a
/// moment at or after the recorded check; before it, a clock that runs
/// behind the record also counts as due).
pub proof fn due_stays_due(c: UpdateCheck, version: Seq<char>, t1: nat, t2: nat)
    requires
        epoch_of(c.checked_at@) <= t1 <= t2,
        check_plan(Some(c), version, t1) != CheckPlan::Wait,
    ensures
        check_plan(Some(c), version, t2) != CheckPlan::Wait,
{
}

/// A check of the running version that did not fail is trusted for a
/// whole day (86400 seconds) from the moment it was recorded, and is
/// repeated once more than a day has passed, or when the clock shows a
/// time before the record.
pub proof fn successful_check_lasts_a_day(c: UpdateCheck, version: Seq<char>, now: nat)
    requires
        c.current@ == version,
        c.status != UpdateStatus::CheckFailed,
    ensures
        epoch_of(c.checked_at@) <= now <= epoch_of(c.checked_at@) + 86400 ==> check_plan(
            Some(c),
            version,
            now,
        ) == CheckPlan::Wait,
        now > epoch_of(c.checked_at@) + 86400 ==> check_plan(Some(c), version, now)
            == CheckPlan::Recheck,
        now < epoch_of(c.checked_at@) ==> check_plan(Some(c), version, now) == CheckPlan::Recheck,
{
}

/// A failed check is retried after an hour (3600 seconds): before that
/// the plan is to wait, after it to check again.
pub proof fn failed_check_retries_after_an_hour(c: UpdateCheck, version: Seq<char>, now: nat)
    requires
        c.current@ == version,
        c.status == UpdateStatus::CheckFailed,
    ensures
        epoch_of(c.checked_at@) <= now <= epoch_of(c.checked_at@) + 3600 ==> check_plan(
            Some(c),
            version,
            now,
        ) == CheckPlan::Wait,
        now > epoch_of(c.checked_at@) + 3600 ==> check_plan(Some(c), version, now)
            == CheckPlan::Recheck,
        now < epoch_of(c.checked_at@) ==> check_plan(Some(c), version, now) == CheckPlan::Recheck,
{
}

/// With no record at all, a check is always made.
pub proof fn no_record_always_checks(version: Seq<char>, now: nat)
    ensures
        check_plan(None, version, now) == CheckPlan::Check,
{
}

/// How the binary was installed, by what its path contains: a path under
/// `/.tuhucar/bin/` was installed by the install script; otherwise one
/// under `node_modules/` by npm; otherwise one under `/Cellar/` or
/// `/homebrew/` by Homebrew; anything else is unknown.
pub proof fn install_source_by_path(p: Seq<char>)
    ensures
        has_infix(p, "/.tuhucar/bin/"@) ==> source_of_path(p) == InstallSource::InstallSh,
        !has_infix(p, "/.tuhucar/bin/"@) && has_infix(p, "node_modules/"@) ==> source_of_path(p)
            == InstallSource::Npm,
        !has_infix(p, "/.tuhucar/bin/"@) && !has_infix(p, "node_modules/"@) && has_infix(
            p,
            "/Cellar/"@,
        ) ==> source_of_path(p) == InstallSource::Homebrew,
        !has_infix(p, "/.tuhucar/bin/"@) && !has_infix(p, "node_modules/"@) && has_infix(
            p,
            "/homebrew/"@,
        ) ==> source_of_path(p) == InstallSource::Homebrew,
        !has_infix(p, "/.tuhucar/bin/"@) && !has_infix(p, "node_modules/"@) && !has_infix(
            p,
            "/Cellar/"@,
        ) && !has_infix(p, "/homebrew/"@) ==> source_of_path(p) == InstallSource::Unknown,
{
}

/// A record of another version always leads to a fresh check, whatever
/// the time.
pub proof fn new_version_always_checks(c: UpdateCheck, version: Seq<char>, now: nat)
    requires
        c.current@ != version,
    ensures
        check_plan(Some(c), version, now) == CheckPlan::ResetAndCheck,
{
}

/// The notice text for a release `latest` installed through `src`.
pub open spec fn notice_message(src: InstallSource, latest: Seq<char>) -> Seq<char> {
    match src {
        InstallSource::Npm => "新版本 "@ + latest + " 可用，请运行: npm update -g @tuhucar/cli"@,
        InstallSource::Homebrew => "新版本 "@ + latest + " 可用，请运行: brew upgrade tuhucar"@,
        InstallSource::InstallSh => "新版本 "@ + latest + " 可用，将在下次启动时自动更新"@,
        InstallSource::Unknown => "新版本 "@ + latest + " 可用，请手动更新"@,
    }
}

/// The user is to be told about the release in `c`: one was found, and it
/// is not the one they were last told about.
pub open spec fn notice_due(c: UpdateCheck, told: Option<UpdateNotified>) -> bool {
    &&& (c.status == UpdateStatus::UpdateAvailable || c.status == UpdateStatus::Downloaded)
    &&& !(told matches Some(n) && n.latest@ == c.latest@)
}

/// The notice for the records `check` and `told`, if one is due.
pub fn pending_notice(check: Option<UpdateCheck>, told: &Option<UpdateNotified>) -> (r: Option<
    Notice,
>)
    ensures
        r is Some <==> (check matches Some(c) && notice_due(c, *told)),
        r matches Some(Notice::Update { current, latest, message }) ==> check matches Some(c)
            && current@ == c.current@ && latest@ == c.latest@ && message@ == notice_message(
            c.install_source,
            c.latest@,
        ),
{
    let c = match check {
        Some(c) => c,
        None => return None,
    };
    match c.status {
        UpdateStatus::UpdateAvailable | UpdateStatus::Downloaded => {},
        _ => return None,
    }
    if let Some(n) = told {
        if same_text(n.latest.as_str(), c.latest.as_str()) {
            return None;
        }
    }
    let message = match c.install_source {
        InstallSource::Npm => cat3(
            "新版本 ",
            c.latest.as_str(),
            " 可用，请运行: npm update -g @tuhucar/cli",
        ),
        InstallSource::Homebrew => cat3(
            "新版本 ",
            c.latest.as_str(),
            " 可用，请运行: brew upgrade tuhucar",
        ),
        InstallSource::InstallSh => cat3("新版本 ", c.latest.as_str(), " 可用，将在下次启动时自动更新"),
        InstallSource::Unknown => cat3("新版本 ", c.latest.as_str(), " 可用，请手动更新"),
    };
    Some(Notice::Update { current: c.current, latest: c.latest, message })
}

/// The record that says the user was told about `latest` at `now`.
pub fn notified_record(latest: &str, now: u64) -> (n: UpdateNotified)
    ensures
        n.latest@ == latest@,
        n.notified_at@ == dec(now as nat),
{
    UpdateNotified { latest: owned(latest), notified_at: epoch_text(now) }
}

/// Once the user has been told about a release, that release is not
/// announced again.
pub proof fn told_release_is_not_repeated(c: UpdateCheck, told: UpdateNotified)
    requires
        told.latest@ == c.latest@,
    ensures
        !notice_due(c, Some(told)),
{
}

/// A time written down as a record's timestamp reads back as the same time.
pub proof fn recorded_time_reads_back(now: u64)
    ensures
        epoch_of(dec(now as nat)) == now,
{
    lemma_parse_dec(now);
}

} // verus!
