use sleepy_cat::platform::macos::composer_resolver::{
    resolve_composer_scores, select_editable_candidate, ComposerResolutionError,
};
use sleepy_cat::platform::macos::delivery::{
    frontmost_app_with_pid, paste_prompt_and_submit_to_app_with_copier,
    repair_focus_to_editable_element, ScriptRun,
};
use sleepy_cat::platform::macos::scripts::{
    cmd_tab_refocus_previous_app_script, direct_type_and_submit_to_app_script,
    escape_applescript_string, foreground_paste_and_submit_script,
    foreground_type_and_submit_script, format_autosend_error, paste_and_submit_to_app_script,
    repair_focus_to_editable_element_script, should_direct_type,
};
use sleepy_cat::platform::macos::{
    app_info_from_lsappinfo_output, frontmost_app, parse_app_name, parse_bundle_id,
    parse_front_asn, parse_pid, parse_visible_process_asns,
};
use std::cell::RefCell;

#[test]
fn ax_repair_script_uses_generic_editable_roles_without_app_recipes() {
    let script = repair_focus_to_editable_element_script(123);

    assert!(script.contains("AXTextArea"));
    assert!(script.contains("AXTextField"));
    assert!(script.contains("AXSearchField"));
    assert!(script.contains("AXComboBox"));
    assert!(script.contains("AXWebArea"));
    assert!(script.contains("entire contents of frontWin"));
    assert!(script.contains("focusedRole"));
    assert!(script.contains("bestScore"));
    assert!(script.contains("bestElem"));
    assert!(script.contains("set elemScore to elemScore - 35"));
    assert!(script.contains("item 2 of elemPos >"));
    assert!(script.contains("item 1 of elemSize > 80"));
    assert!(!script.contains("WeChat"));
    assert!(!script.contains("Codex"));
}

#[test]
fn ax_repair_script_names_the_target_process() {
    let script = repair_focus_to_editable_element_script(123);

    assert!(script.contains("first process whose unix id is 123)"));
}

#[test]
fn parses_lsappinfo_front_asn_output() {
    assert_eq!(
        parse_front_asn("ASN:0x0-0x46046:\n").as_deref(),
        Some("ASN:0x0-0x46046")
    );
    assert_eq!(
        parse_front_asn("ASN:0x0-0x46046:").as_deref(),
        Some("ASN:0x0-0x46046")
    );
}

#[test]
fn parses_no_front_asn_from_empty_output() {
    assert_eq!(parse_front_asn("  \n"), None);
}

#[test]
fn parses_visible_process_list_asns_in_order() {
    let raw =
        r#"ASN:0x0-0x3b03b-"Codex": ASN:0x0-0x10010-"Finder": ASN:0x0-0x1398397-"WeChat":"#;

    assert_eq!(
        parse_visible_process_asns(raw),
        vec![
            "ASN:0x0-0x3b03b".to_string(),
            "ASN:0x0-0x10010".to_string(),
            "ASN:0x0-0x1398397".to_string(),
        ]
    );
}

#[test]
fn parses_bundle_id_various_formats() {
    assert_eq!(
        parse_bundle_id("bundleID=\"com.openai.codex\"\nfoo"),
        Some("com.openai.codex".to_string())
    );
    assert_eq!(
        parse_bundle_id("bundleID = \"com.apple.Safari\"\n"),
        Some("com.apple.Safari".to_string())
    );
    assert_eq!(
        parse_bundle_id("CFBundleIdentifier = \"com.github.GitHubDesktop\"\n"),
        Some("com.github.GitHubDesktop".to_string())
    );
}

#[test]
fn parses_bundle_id_rejects_lsappinfo_null_placeholder() {
    assert_eq!(parse_bundle_id("bundleID=[ NULL ]\n"), None);
    assert_eq!(parse_bundle_id("    bundleID=[ NULL ]\n"), None);
    assert_eq!(parse_bundle_id("bundleID=[NULL]\n"), None);
    assert_eq!(parse_bundle_id("bundleID=\n"), None);
    assert_eq!(parse_bundle_id("bundleID=\"\"\n"), None);
}

#[test]
fn parses_app_name() {
    assert_eq!(
        parse_app_name("\"Finder\" ASN:0x0-0xe00e: (in front)\n    bundleID=\"com.apple.finder\""),
        Some("Finder".to_string())
    );
    assert_eq!(
        parse_app_name("bundleID=\"com.apple.finder\"\nLSApplicationName=\"Finder\""),
        Some("Finder".to_string())
    );
    assert_eq!(
        parse_app_name("CFBundleName=\"Safari\"\nbundleID=\"com.apple.Safari\""),
        Some("Safari".to_string())
    );
}

#[test]
fn parses_pid_and_rejects_invalid_pid() {
    assert_eq!(
        parse_pid("\"Finder\" ASN:0x0-0xe00e:\n    pid = 650 type=\"Foreground\""),
        Some(650)
    );
    assert_eq!(parse_pid("pid: 12345 type=\"Foreground\""), Some(12345));
    assert!(parse_pid("pid = not-a-number type=\"Foreground\"").is_none());
    assert!(parse_pid("bundleID=\"com.apple.finder\"").is_none());
}

#[test]
fn parses_app_info_from_lsappinfo_pid_output() {
    let info = r#""Assistant" ASN:0x0-0xadbbdb1:
    bundleID="com.anthropic.claudefordesktop"
    pid = 67565 type="Foreground""#;

    let parsed = app_info_from_lsappinfo_output(info).unwrap();
    assert_eq!(parsed.pid, 67565);
    assert_eq!(parsed.app.name, "Assistant");
    assert_eq!(parsed.app.bundle_id, "com.anthropic.claudefordesktop");
}

#[test]
fn app_info_falls_back_to_unknown_name_and_pid_bundle() {
    let parsed = app_info_from_lsappinfo_output("pid = 77 type=\"Foreground\"").unwrap();

    assert_eq!(parsed.pid, 77);
    assert_eq!(parsed.app.name, "Unknown");
    assert_eq!(parsed.app.bundle_id, "unknown.pid.77");
    assert!(app_info_from_lsappinfo_output("bundleID=\"com.apple.finder\"").is_none());
}

#[test]
fn frontmost_app_reads_the_front_asn_then_its_info() {
    let asked = RefCell::new(Vec::new());
    let app = frontmost_app_with_pid(
        || Some("ASN:0x0-0x46046:\n".to_string()),
        |asn: String| {
            asked.borrow_mut().push(asn);
            Some("\"Finder\" ASN:0x0-0x46046:\n    bundleID=\"com.apple.finder\"\n    pid = 650 type=\"Foreground\"".to_string())
        },
    )
    .unwrap();

    assert_eq!(asked.into_inner(), vec!["ASN:0x0-0x46046".to_string()]);
    assert_eq!(app.app.name, "Finder");
    assert_eq!(app.app.bundle_id, "com.apple.finder");
    assert_eq!(app.pid, Some(650));
}

#[test]
fn frontmost_app_is_unknown_without_a_front_asn() {
    let app = frontmost_app(
        || None,
        |_: String| -> Option<String> { panic!("no info is asked without an ASN") },
    );

    assert!(app.is_none());
}

#[test]
fn paste_and_submit_to_app_script_activates_target_pastes_and_presses_return() {
    let script = paste_and_submit_to_app_script("com.openai.codex");

    assert!(script.contains("tell application id \"com.openai.codex\" to activate"));
    assert!(script.contains("keystroke \"v\" using command down"));
    assert!(script.contains("key code 36"));
}

#[test]
fn paste_and_submit_to_app_script_uses_clipboard_not_literal_prompt_text() {
    let script = paste_and_submit_to_app_script("com.openai.codex");

    assert!(!script.contains("keystroke \"{body}\""));
    assert!(!script.contains("Test body"));
}

#[test]
fn direct_type_and_submit_script_activates_target_before_typing() {
    let script = direct_type_and_submit_to_app_script("com.openai.codex", "讨论方案");

    assert!(script.contains("tell application id \"com.openai.codex\" to activate"));
    assert!(script.contains("tell application \"System Events\""));
    assert!(script.contains("keystroke \"讨论方案\""));
    assert!(script.contains("key code 36"));
}

#[test]
fn direct_type_and_submit_script_escapes_quotes_and_backslashes() {
    let script = direct_type_and_submit_to_app_script("com.test.App", "say \"hi\" \\ ok");

    assert!(script.contains("keystroke \"say \\\"hi\\\" \\\\ ok\""));
}

#[test]
fn escape_applescript_string_escapes_backslash_before_quote() {
    assert_eq!(escape_applescript_string("a\\\"b"), "a\\\\\\\"b");
    assert_eq!(escape_applescript_string("plain"), "plain");
}

#[test]
fn direct_type_strategy_prefers_paste_for_multiline_text() {
    assert!(!should_direct_type("line 1\nline 2"));
}

#[test]
fn direct_type_strategy_prefers_paste_for_long_text() {
    let long = "x".repeat(700);

    assert!(!should_direct_type(&long));
}

#[test]
fn direct_type_strategy_rejects_non_ascii_text() {
    assert!(!should_direct_type("使用 brainstorming skill，先和我讨论方案。"));
}

#[test]
fn direct_type_strategy_allows_short_ascii_single_line_text() {
    assert!(should_direct_type("Use brainstorming skill first."));
}

#[test]
fn direct_type_strategy_limit_is_five_hundred_characters() {
    assert!(should_direct_type(&"x".repeat(500)));
    assert!(!should_direct_type(&"x".repeat(501)));
    assert!(should_direct_type(""));
}

#[test]
fn autosend_direct_script_does_not_click_coordinates() {
    let script = direct_type_and_submit_to_app_script("com.tencent.xinWeChat", "讨论方案");

    assert!(!script.contains("click at"));
    assert!(script.contains("keystroke \"讨论方案\""));
    assert!(script.contains("key code 36"));
}

#[test]
fn paste_and_submit_script_remains_available_as_fallback() {
    let script = paste_and_submit_to_app_script("com.tencent.xinWeChat");

    assert!(script.contains("keystroke \"v\" using command down"));
    assert!(script.contains("key code 36"));
}

#[test]
fn foreground_paste_and_submit_script_matches_openwhip_focus_model() {
    let script = foreground_paste_and_submit_script();

    assert!(script.contains("tell application \"System Events\""));
    assert!(script.contains("keystroke \"v\" using command down"));
    assert!(script.contains("key code 36"));
    assert!(!script.contains("tell application id"));
    assert!(!script.contains("click at"));
}

#[test]
fn foreground_type_and_submit_script_matches_openwhip_focus_model() {
    let script = foreground_type_and_submit_script("讨论方案");

    assert!(script.contains("tell application \"System Events\""));
    assert!(script.contains("keystroke \"讨论方案\""));
    assert!(script.contains("key code 36"));
    assert!(!script.contains("tell application id"));
    assert!(!script.contains("click at"));
}

#[test]
fn autosend_error_includes_stderr_when_osascript_fails() {
    let err = format_autosend_error("direct-type", "System Events got an error");

    assert!(err.contains("direct-type"));
    assert!(err.contains("System Events got an error"));
}

#[test]
fn autosend_error_handles_empty_stderr() {
    let err = format_autosend_error("direct-type", "");

    assert_eq!(err, "Autosend failed while using direct-type.");
}

#[test]
fn autosend_error_trims_whitespace_only_stderr() {
    let err = format_autosend_error("direct-type", "  \n");

    assert_eq!(err, "Autosend failed while using direct-type.");
}

#[test]
fn cmd_tab_refocus_script_matches_openwhip_pattern() {
    let script = cmd_tab_refocus_previous_app_script();

    assert!(script.contains("tell application \"System Events\""));
    assert!(script.contains("key down command"));
    assert!(script.contains("key code 48"));
    assert!(script.contains("key up command"));
}

#[test]
fn app_script_sender_reports_failed_script_with_its_error_output() {
    let ran = RefCell::new(Vec::new());
    let result = paste_prompt_and_submit_to_app_with_copier(
        "hello",
        "com.openai.codex",
        |_: &str| Ok(()),
        &|| true,
        &|script: &str| {
            ran.borrow_mut().push(script.to_string());
            Ok(ScriptRun {
                success: false,
                stderr: "not allowed".to_string(),
            })
        },
    );

    let ran = ran.into_inner();
    assert_eq!(ran.len(), 1);
    assert!(ran[0].contains("tell application id \"com.openai.codex\" to activate"));
    let err = result.unwrap_err();
    assert!(err.contains("paste-and-submit"));
    assert!(err.contains("not allowed"));
}

#[test]
fn focus_repair_runs_the_repair_script_for_the_pid() {
    let ran = RefCell::new(Vec::new());
    let result = repair_focus_to_editable_element(
        4242,
        || true,
        |script: &str| {
            ran.borrow_mut().push(script.to_string());
            Ok(ScriptRun {
                success: true,
                stderr: String::new(),
            })
        },
    );

    assert!(result.is_ok());
    assert_eq!(
        ran.into_inner(),
        vec![repair_focus_to_editable_element_script(4242)]
    );
}

#[test]
fn composer_scores_choose_only_a_clear_winner() {
    assert_eq!(resolve_composer_scores(&vec![Some(40), Some(120)]), Ok(1));
    assert_eq!(
        resolve_composer_scores(&vec![Some(100), Some(110)]),
        Err(ComposerResolutionError::Ambiguous)
    );
    assert_eq!(
        resolve_composer_scores(&vec![None, Some(74)]),
        Err(ComposerResolutionError::NotFound)
    );
    assert_eq!(resolve_composer_scores(&vec![]), Err(ComposerResolutionError::NotFound));
}

#[test]
fn editable_candidate_selection_needs_score_and_margin() {
    assert_eq!(select_editable_candidate(&vec![Some(100), Some(80)]), Some(0));
    assert_eq!(select_editable_candidate(&vec![Some(100), Some(90)]), None);
    assert_eq!(select_editable_candidate(&vec![Some(79)]), None);
}
