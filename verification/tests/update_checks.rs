use std::time::{Duration, SystemTime};
use tuhucar::types::Notice;
use tuhucar::update::{
    check_file_path, classify_path, epoch_text, notified_file_path, notified_record,
    parse_epoch_or_zero, pending_notice, plan_update_check, CheckPlan, InstallSource,
    UpdateCheck, UpdateNotified, UpdateStatus,
};

fn now_secs() -> u64 {
    SystemTime::now()
        .duration_since(SystemTime::UNIX_EPOCH)
        .unwrap()
        .as_secs()
}

fn check(
    checked_at: &str,
    current: &str,
    latest: &str,
    status: UpdateStatus,
    src: InstallSource,
) -> UpdateCheck {
    UpdateCheck {
        checked_at: checked_at.into(),
        current: current.into(),
        latest: latest.into(),
        status,
        install_source: src,
        staging_path: None,
    }
}

fn should_check(rec: Option<UpdateCheck>, version: &str, now: u64) -> bool {
    plan_update_check(&rec, version, now) != CheckPlan::Wait
}

#[test]
fn classify_path_identifies_sources() {
    assert_eq!(
        classify_path("/home/user/.tuhucar/bin/tuhucar"),
        InstallSource::InstallSh
    );
    assert_eq!(
        classify_path("/usr/lib/node_modules/@tuhucar/cli/bin/tuhucar"),
        InstallSource::Npm
    );
    assert_eq!(
        classify_path("/opt/homebrew/Cellar/tuhucar/0.1.0/bin/tuhucar"),
        InstallSource::Homebrew
    );
    assert_eq!(
        classify_path("/home/linuxbrew/.linuxbrew/homebrew/bin/tuhucar"),
        InstallSource::Homebrew
    );
    assert_eq!(classify_path("/usr/local/bin/tuhucar"), InstallSource::Unknown);
}

#[test]
fn classify_path_prefers_install_script_location() {
    assert_eq!(
        classify_path("/x/.tuhucar/bin/node_modules/tuhucar"),
        InstallSource::InstallSh
    );
    assert_eq!(
        classify_path("/opt/homebrew/lib/node_modules/tuhucar"),
        InstallSource::Npm
    );
    assert_eq!(classify_path(""), InstallSource::Unknown);
}

#[test]
fn parse_epoch_or_zero_valid() {
    let t = SystemTime::UNIX_EPOCH + Duration::from_secs(parse_epoch_or_zero("1700000000"));
    let expected = SystemTime::UNIX_EPOCH + Duration::from_secs(1700000000);
    assert_eq!(t, expected);
}

#[test]
fn parse_epoch_or_zero_invalid_returns_epoch() {
    let t = SystemTime::UNIX_EPOCH + Duration::from_secs(parse_epoch_or_zero("not-a-number"));
    assert_eq!(t, SystemTime::UNIX_EPOCH);
}

#[test]
fn parse_epoch_or_zero_empty_returns_epoch() {
    let t = SystemTime::UNIX_EPOCH + Duration::from_secs(parse_epoch_or_zero(""));
    assert_eq!(t, SystemTime::UNIX_EPOCH);
}

#[test]
fn parse_epoch_or_zero_follows_integer_parsing() {
    assert_eq!(parse_epoch_or_zero("+42"), 42);
    assert_eq!(parse_epoch_or_zero("+"), 0);
    assert_eq!(parse_epoch_or_zero("-42"), 0);
    assert_eq!(parse_epoch_or_zero(" 42"), 0);
    assert_eq!(parse_epoch_or_zero("0042"), 42);
    assert_eq!(parse_epoch_or_zero("99999999999999999999"), 0);
    assert_eq!(parse_epoch_or_zero("9223372036854775807"), 9223372036854775807);
}

#[test]
fn recorded_time_reads_back() {
    for t in [0u64, 7, 1700000000, 9223372036854775807] {
        assert_eq!(parse_epoch_or_zero(&epoch_text(t)), t);
    }
    assert_eq!(epoch_text(1234567890), "1234567890");
}

#[test]
fn should_check_returns_true_when_no_file() {
    assert_eq!(plan_update_check(&None, "0.1.0", now_secs()), CheckPlan::Check);
}

#[test]
fn should_check_returns_true_when_version_changed() {
    let now = now_secs();
    let rec = check(
        &format!("{}", now),
        "0.1.0",
        "0.1.0",
        UpdateStatus::UpToDate,
        InstallSource::Unknown,
    );
    // Version changed from 0.1.0 to 0.2.0: check, after deleting both records.
    assert_eq!(
        plan_update_check(&Some(rec), "0.2.0", now),
        CheckPlan::ResetAndCheck
    );
}

#[test]
fn should_check_returns_false_when_recently_checked() {
    let now = now_secs();
    let rec = check(
        &format!("{}", now),
        "0.1.0",
        "0.1.0",
        UpdateStatus::UpToDate,
        InstallSource::Unknown,
    );
    assert!(!should_check(Some(rec), "0.1.0", now));
}

#[test]
fn should_check_uses_short_interval_for_failed() {
    let now = now_secs();
    let rec = check(
        &format!("{}", now - 7200),
        "0.1.0",
        "0.1.0",
        UpdateStatus::CheckFailed,
        InstallSource::Unknown,
    );
    assert!(should_check(Some(rec), "0.1.0", now));
}

#[test]
fn should_check_uses_long_interval_for_up_to_date() {
    let now = now_secs();
    let rec = check(
        &format!("{}", now - 7200),
        "0.1.0",
        "0.1.0",
        UpdateStatus::UpToDate,
        InstallSource::Unknown,
    );
    assert!(!should_check(Some(rec), "0.1.0", now));
}

#[test]
fn check_interval_boundaries() {
    let rec = |at: &str, st| check(at, "1", "1", st, InstallSource::Npm);
    assert_eq!(
        plan_update_check(&Some(rec("1000", UpdateStatus::UpToDate)), "1", 1000 + 86400),
        CheckPlan::Wait
    );
    assert_eq!(
        plan_update_check(&Some(rec("1000", UpdateStatus::UpToDate)), "1", 1000 + 86401),
        CheckPlan::Recheck
    );
    assert_eq!(
        plan_update_check(&Some(rec("1000", UpdateStatus::CheckFailed)), "1", 1000 + 3600),
        CheckPlan::Wait
    );
    assert_eq!(
        plan_update_check(&Some(rec("1000", UpdateStatus::CheckFailed)), "1", 1000 + 3601),
        CheckPlan::Recheck
    );
    // A clock behind the record counts as due.
    assert_eq!(
        plan_update_check(&Some(rec("5000", UpdateStatus::UpToDate)), "1", 10),
        CheckPlan::Recheck
    );
    // An unreadable timestamp is the epoch.
    assert_eq!(
        plan_update_check(&Some(rec("soon", UpdateStatus::Downloaded)), "1", 86401),
        CheckPlan::Recheck
    );
}

#[test]
fn pending_notice_returns_none_when_no_file() {
    assert!(pending_notice(None, &None).is_none());
}

#[test]
fn pending_notice_returns_none_for_up_to_date() {
    let rec = check("123", "0.1.0", "0.1.0", UpdateStatus::UpToDate, InstallSource::Npm);
    assert!(pending_notice(Some(rec), &None).is_none());
}

#[test]
fn pending_notice_returns_none_for_failed_check() {
    let rec = check("123", "0.1.0", "0.2.0", UpdateStatus::CheckFailed, InstallSource::Npm);
    assert!(pending_notice(Some(rec), &None).is_none());
}

#[test]
fn pending_notice_returns_notice_for_update_available() {
    let rec = check(
        "123",
        "0.1.0",
        "0.2.0",
        UpdateStatus::UpdateAvailable,
        InstallSource::Npm,
    );
    let notice = pending_notice(Some(rec), &None).unwrap();
    match notice {
        Notice::Update {
            current,
            latest,
            message,
        } => {
            assert_eq!(current, "0.1.0");
            assert_eq!(latest, "0.2.0");
            assert!(message.contains("npm update"));
            assert_eq!(message, "新版本 0.2.0 可用，请运行: npm update -g @tuhucar/cli");
        }
    }
}

#[test]
fn pending_notice_returns_homebrew_message() {
    let rec = check(
        "123",
        "0.1.0",
        "0.2.0",
        UpdateStatus::UpdateAvailable,
        InstallSource::Homebrew,
    );
    let Notice::Update { message, .. } = pending_notice(Some(rec), &None).unwrap();
    assert!(message.contains("brew upgrade"));
}

#[test]
fn pending_notice_returns_install_sh_message() {
    let rec = check(
        "123",
        "0.1.0",
        "0.2.0",
        UpdateStatus::UpdateAvailable,
        InstallSource::InstallSh,
    );
    let Notice::Update { message, .. } = pending_notice(Some(rec), &None).unwrap();
    assert!(message.contains("自动更新"));
}

#[test]
fn pending_notice_skips_already_notified_version() {
    let rec = check(
        "123",
        "0.1.0",
        "0.2.0",
        UpdateStatus::UpdateAvailable,
        InstallSource::Npm,
    );
    let told = UpdateNotified {
        latest: "0.2.0".into(),
        notified_at: "456".into(),
    };
    assert!(pending_notice(Some(rec), &Some(told)).is_none());
}

#[test]
fn pending_notice_shows_for_newer_version() {
    let rec = check(
        "123",
        "0.1.0",
        "0.3.0",
        UpdateStatus::Downloaded,
        InstallSource::Unknown,
    );
    let told = UpdateNotified {
        latest: "0.2.0".into(),
        notified_at: "456".into(),
    };
    let Notice::Update {
        latest, message, ..
    } = pending_notice(Some(rec), &Some(told)).unwrap();
    assert_eq!(latest, "0.3.0");
    assert!(message.contains("手动更新"));
}

#[test]
fn marking_notified_silences_the_notice() {
    let rec = || {
        check(
            "123",
            "0.1.0",
            "0.2.0",
            UpdateStatus::UpdateAvailable,
            InstallSource::Npm,
        )
    };
    assert!(pending_notice(Some(rec()), &None).is_some());
    let told = notified_record("0.2.0", 1700000000);
    assert_eq!(told.latest, "0.2.0");
    assert_eq!(told.notified_at, "1700000000");
    assert!(pending_notice(Some(rec()), &Some(told)).is_none());
}

#[test]
fn update_record_paths() {
    assert_eq!(check_file_path("/home/u"), "/home/u/.tuhucar/.update_check");
    assert_eq!(notified_file_path("/home/u"), "/home/u/.tuhucar/.update_notified");
}
