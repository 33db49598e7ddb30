use tuhucar::cli::{
    build_meta, error_report, invalid_format_error, invalid_format_report, notice_report,
    notified_versions, usage_error, wants_json,
};
use tuhucar::error::{ApiError, TuhucarError};
use tuhucar::skill::{
    codex_home_candidates, first_existing, not_detected, opencode_dir_candidates, platform_outcome, prune_opencode_config,
    prune_opencode_legacy_plugin_entries, prune_plan, removal_skipped, summary_text,
    PlatformResult, PlatformStatus, PluginEntry,
};
use tuhucar::types::Notice;

fn args(a: &[&str]) -> Vec<String> {
    a.iter().map(|s| s.to_string()).collect()
}

#[test]
fn prescan_finds_json_format() {
    assert!(wants_json(&args(&["tuhucar", "--format=json"])));
    assert!(wants_json(&args(&["tuhucar", "--format", "json", "car"])));
    assert!(!wants_json(&args(&["tuhucar", "--format", "markdown"])));
    assert!(!wants_json(&args(&["tuhucar", "json", "--format"])));
    assert!(!wants_json(&args(&[])));
}

#[test]
fn meta_and_notified_versions() {
    let n = Notice::Update {
        current: "0.1.0".into(),
        latest: "9.9.9".into(),
        message: "new".into(),
    };
    let meta = build_meta("0.1.0", Some(n));
    assert_eq!(meta.version, "0.1.0");
    assert_eq!(notified_versions(&meta), vec!["9.9.9".to_string()]);
    assert_eq!(notice_report(&meta), "\nnew\n");
    let meta = build_meta("0.1.0", None);
    assert!(meta.notices.is_empty());
    assert!(notified_versions(&meta).is_empty());
}

#[test]
fn argument_errors() {
    match invalid_format_error("xml") {
        TuhucarError::InvalidArgs {
            message,
            suggestion,
        } => {
            assert_eq!(message, "Invalid format 'xml'. Must be 'json' or 'markdown'.");
            assert_eq!(suggestion, "Use --format json or --format markdown");
        }
        _ => panic!("expected InvalidArgs"),
    }
    assert!(invalid_format_report("xml").contains("Invalid format"));
    let api: ApiError = usage_error("missing subcommand").into();
    assert_eq!(api.code, "INVALID_ARGS");
    assert_eq!(api.suggestion.unwrap(), "Run: tuhucar --help");
}

#[test]
fn error_reports() {
    let e = ApiError {
        code: "CONFIG_MISSING".into(),
        message: "Configuration not found".into(),
        retryable: false,
        suggestion: Some("Run: tuhucar config init".into()),
        upstream: None,
    };
    assert_eq!(
        error_report(&e),
        "Error [CONFIG_MISSING]: Configuration not found\n\n  Run: tuhucar config init\n"
    );
}

fn entry(name: Option<&str>, kind: Option<&str>) -> PluginEntry {
    PluginEntry {
        name: name.map(|s| s.to_string()),
        kind: kind.map(|s| s.to_string()),
    }
}

#[test]
fn prune_opencode_legacy_plugin_entries_removes_only_legacy_tuhucar_entries() {
    let mut config: serde_json::Value = serde_json::from_str(
        r#"{
            "theme": "opencode",
            "plugins": [
                {
                    "name": "tuhucar",
                    "type": "skill",
                    "path": "/tmp/custom-opencode/skills/tuhucar"
                },
                {
                    "name": "keep-me",
                    "type": "plugin",
                    "path": "/tmp/custom-opencode/plugins/keep-me"
                }
            ]
        }"#,
    )
    .unwrap();

    let changed = prune_opencode_legacy_plugin_entries(&mut config);

    assert!(changed);
    assert_eq!(config["plugins"][0]["name"], "keep-me");
}

#[test]
fn prune_opencode_legacy_plugin_entries_drops_empty_plugins_key() {
    let mut config: serde_json::Value = serde_json::from_str(
        r#"{
            "plugins": [
                {
                    "name": "tuhucar",
                    "type": "skill",
                    "path": "/tmp/custom-opencode/skills/tuhucar"
                }
            ]
        }"#,
    )
    .unwrap();

    let changed = prune_opencode_legacy_plugin_entries(&mut config);

    assert!(changed);
    assert!(config.get("plugins").is_none());
}

#[test]
fn prune_plan_marks_only_legacy_entries() {
    let entries = vec![
        entry(Some("tuhucar"), Some("skill")),
        entry(Some("keep-me"), Some("plugin")),
    ];
    let plan = prune_plan(&entries);
    assert!(plan.changed);
    assert_eq!(plan.keep, vec![false, true]);
    assert!(!plan.drop_key);
}

#[test]
fn prune_leaves_documents_without_plugins_alone() {
    let mut config: serde_json::Value =
        serde_json::from_str(r#"{"theme":"opencode","plugins":"none"}"#).unwrap();
    let before = config.clone();
    assert!(!prune_opencode_legacy_plugin_entries(&mut config));
    assert_eq!(config, before);
    let mut list: serde_json::Value = serde_json::from_str(r#"[1,2]"#).unwrap();
    assert!(!prune_opencode_legacy_plugin_entries(&mut list));
}

#[test]
fn prune_keeps_order_of_remaining_entries() {
    let mut config: serde_json::Value = serde_json::from_str(
        r#"{"plugins":[{"name":"a"},{"name":"tuhucar","type":"skill"},{"name":"b"},{"name":"tuhucar","type":"skill"},{"name":"c"}]}"#,
    )
    .unwrap();
    assert!(prune_opencode_legacy_plugin_entries(&mut config));
    let names: Vec<&str> = config["plugins"]
        .as_array()
        .unwrap()
        .iter()
        .map(|e| e["name"].as_str().unwrap())
        .collect();
    assert_eq!(names, vec!["a", "b", "c"]);
    let once = config.clone();
    assert!(!prune_opencode_legacy_plugin_entries(&mut config));
    assert_eq!(config, once);
}

#[test]
fn prune_opencode_config_rewrites_only_when_needed() {
    let text = r#"{"theme":"opencode","plugins":[{"name":"tuhucar","type":"skill"}]}"#;
    let out = prune_opencode_config(text).unwrap();
    let v: serde_json::Value = serde_json::from_str(&out).unwrap();
    assert_eq!(v, serde_json::from_str::<serde_json::Value>(r#"{"theme":"opencode"}"#).unwrap());
    assert!(out.contains('\n'));
    assert_eq!(prune_opencode_config(r#"{"plugins":[{"name":"other"}]}"#), None);
    assert_eq!(prune_opencode_config(r#"{"plugins":[]}"#), None);
    assert_eq!(prune_opencode_config("not json"), None);
    assert_eq!(prune_opencode_config(r#"{"theme":"x"}"#), None);
}

#[test]
fn prune_keeps_near_misses() {
    let entries = vec![
        entry(Some("tuhucar"), Some("plugin")),
        entry(None, Some("skill")),
        entry(Some("tuhucar"), None),
    ];
    let plan = prune_plan(&entries);
    assert!(!plan.changed);
    assert!(!plan.drop_key);
    assert_eq!(plan.keep, vec![true, true, true]);
}

fn with_existing(cands: Vec<String>, existing: &[&str]) -> Vec<(String, bool)> {
    cands
        .into_iter()
        .map(|p| {
            let e = existing.contains(&p.as_str());
            (p, e)
        })
        .collect()
}

#[test]
fn resolve_codex_home_falls_back_to_default_directory() {
    let cands = codex_home_candidates(None, "/tmp/home");
    assert_eq!(cands, vec!["/tmp/home/.codex"]);
    let found = first_existing(&with_existing(cands, &["/tmp/home/.codex"]));
    assert_eq!(found.unwrap(), "/tmp/home/.codex");
    let cands = codex_home_candidates(Some("/custom/codex".to_string()), "/tmp/home/");
    assert_eq!(cands, vec!["/custom/codex", "/tmp/home/.codex"]);
    let found = first_existing(&with_existing(cands, &["/tmp/home/.codex"]));
    assert_eq!(found.unwrap(), "/tmp/home/.codex");
}

#[test]
fn resolve_opencode_dir_prefers_xdg_directory() {
    let cands = opencode_dir_candidates(None, "/tmp/home");
    assert_eq!(cands, vec!["/tmp/home/.config/opencode", "/tmp/home/.opencode"]);
    let found = first_existing(&with_existing(
        cands,
        &["/tmp/home/.config/opencode", "/tmp/home/.opencode"],
    ));
    assert_eq!(found.unwrap(), "/tmp/home/.config/opencode");
    let cands = opencode_dir_candidates(Some("/etc/oc".to_string()), "/tmp/home");
    assert_eq!(cands.len(), 3);
    assert_eq!(cands[0], "/etc/oc");
    let found = first_existing(&with_existing(cands, &["/tmp/home/.opencode"]));
    assert_eq!(found.unwrap(), "/tmp/home/.opencode");
    assert!(first_existing(&vec![("/x".to_string(), false)]).is_none());
}

#[test]
fn summary_lists_each_platform() {
    let results = vec![
        PlatformResult {
            name: "OpenCode".into(),
            status: PlatformStatus::Installed,
        },
        PlatformResult {
            name: "Cursor".into(),
            status: PlatformStatus::Skipped("not detected".into()),
        },
        PlatformResult {
            name: "Gemini CLI".into(),
            status: PlatformStatus::Failed("denied".into()),
        },
    ];
    let s = summary_text("installation", &results);
    assert_eq!(
        s,
        "\nSkill installation summary:\n  \u{2713} OpenCode       \u{2014} installed\n  - Cursor         \u{2014} skipped (not detected)\n  \u{2717} Gemini CLI     \u{2014} failed (denied)\n\nCLI is ready.\nRun `tuhucar skill install` to retry failed platforms.\n"
    );
    let s = summary_text("uninstallation", &results[..1].iter().map(|r| PlatformResult {
        name: r.name.clone(),
        status: PlatformStatus::Installed,
    }).collect());
    assert!(s.contains("removed"));
    let s = summary_text("installation", &vec![]);
    assert_eq!(s, "\nSkill installation summary:\n\n");
}

#[test]
fn platform_outcomes_and_skips() {
    let ok = platform_outcome("Cursor", None);
    assert_eq!(ok.name, "Cursor");
    assert!(matches!(ok.status, PlatformStatus::Installed));
    let failed = platform_outcome("Codex", Some("permission denied".to_string()));
    assert!(matches!(failed.status, PlatformStatus::Failed(ref m) if m == "permission denied"));
    let nd = not_detected("OpenCode");
    assert!(matches!(nd.status, PlatformStatus::Skipped(ref m) if m == "not detected"));
    let skipped = removal_skipped("Gemini CLI", &vec![false, false]).unwrap();
    assert_eq!(skipped.name, "Gemini CLI");
    assert!(matches!(skipped.status, PlatformStatus::Skipped(ref m) if m == "not installed"));
    assert!(removal_skipped("Cursor", &vec![false, true]).is_none());
    assert!(removal_skipped("Codex", &vec![]).is_some());
}
