use sleepy_cat::platform::macos::{FrontmostApp, FrontmostAppWithPid, ProcessLaunchIdentity};
use sleepy_cat::targets::{
    autosend_diagnostic_line, bundle_requires_exact_window, captured_target_identity_is_current,
    captured_target_matches_frontmost, choose_recovery_click_point, classify_target_frontmost,
    is_recent_prompt_target, is_usable_autosend_app,
    last_target_bundle_id, prompt_pick_session_target, prompt_pick_target_or_recent,
    record_last_app_if_valid, record_last_input_target_if_valid,
    record_prompt_pick_session_target_if_valid, target_application_identity_matches,
    window_identity_matches, CapturedTargetIdentity, InputTargetSnapshot, LastInputTarget,
    LastInputTargetState, PromptPickSessionState, PromptPickSessionTarget,
    TargetApplicationIdentity, TargetFrontmostStatus, TargetWindowIdentity,
};

const NOW_MS: u128 = 1_700_000_000_000;
const OWN_PID: u32 = 4242;

#[derive(Clone, Copy, Debug, PartialEq)]
struct ClickPoint {
    x: f64,
    y: f64,
}

#[derive(Clone, Copy, Debug, PartialEq)]
struct Frame {
    x: f64,
    y: f64,
    width: f64,
    height: f64,
}

fn launch() -> ProcessLaunchIdentity {
    ProcessLaunchIdentity {
        seconds: 1_700_000_000,
        microseconds: 5,
    }
}

fn frontmost_target(name: &str, bundle_id: &str, pid: Option<u32>) -> FrontmostAppWithPid {
    FrontmostAppWithPid {
        app: FrontmostApp {
            name: name.to_string(),
            bundle_id: bundle_id.to_string(),
        },
        pid,
    }
}

fn app(name: &str, bundle_id: &str) -> FrontmostApp {
    FrontmostApp {
        name: name.to_string(),
        bundle_id: bundle_id.to_string(),
    }
}

fn captured_identity(bundle_id: &str, pid: u32) -> CapturedTargetIdentity<Frame> {
    CapturedTargetIdentity {
        application: TargetApplicationIdentity {
            bundle_id: bundle_id.to_string(),
            main_pid: pid,
            launch_identity: launch(),
        },
        window: None,
    }
}

fn frames_close(a: &Frame, b: &Frame) -> bool {
    (a.x - b.x).abs() <= 2.0
        && (a.y - b.y).abs() <= 2.0
        && (a.width - b.width).abs() <= 2.0
        && (a.height - b.height).abs() <= 2.0
}

fn snapshot(
    name: &str,
    bundle_id: &str,
    input_frame: Frame,
    window_frame: Frame,
    click_point: ClickPoint,
) -> InputTargetSnapshot<ClickPoint, Frame> {
    InputTargetSnapshot {
        app: Some(app(name, bundle_id)),
        pid: OWN_PID + 1,
        has_focused_input_frame: input_frame.width > 0.0 && input_frame.height > 0.0,
        click_point,
        window_frame,
    }
}

#[test]
fn target_application_identity_rejects_restarted_process() {
    let identity = TargetApplicationIdentity {
        bundle_id: "com.anthropic.claudefordesktop".to_string(),
        main_pid: 42,
        launch_identity: ProcessLaunchIdentity {
            seconds: 100,
            microseconds: 200,
        },
    };

    assert!(target_application_identity_matches(
        &identity,
        Some(ProcessLaunchIdentity {
            seconds: 100,
            microseconds: 200,
        }),
        true,
    ));
    assert!(!target_application_identity_matches(
        &identity,
        Some(ProcessLaunchIdentity {
            seconds: 101,
            microseconds: 0,
        }),
        true,
    ));
}

#[test]
fn unreadable_launch_time_matches_only_where_it_is_not_required() {
    let identity = captured_identity("com.openai.codex", 42).application;

    assert!(!target_application_identity_matches(&identity, None, true));
    assert!(target_application_identity_matches(&identity, None, false));
}

#[test]
fn target_window_identity_uses_owner_and_tolerant_fingerprint() {
    let captured = TargetWindowIdentity {
        owner_pid: 42,
        frame: Frame {
            x: 10.0,
            y: 20.0,
            width: 800.0,
            height: 600.0,
        },
        role: Some("AXWindow".to_string()),
        title_hash: Some("abc".to_string()),
        cg_window_id: None,
    };
    let mut current = captured.duplicate();
    current.frame.x += 1.5;
    assert!(window_identity_matches(&captured, &current, frames_close));

    current.frame.x += 1.0;
    assert!(!window_identity_matches(&captured, &current, frames_close));
    current = captured.duplicate();
    current.owner_pid = 43;
    assert!(!window_identity_matches(&captured, &current, frames_close));
    current = captured.duplicate();
    current.title_hash = Some("other".to_string());
    assert!(!window_identity_matches(&captured, &current, frames_close));
}

#[test]
fn claude_and_wechat_require_window_identity_but_codex_does_not() {
    assert!(bundle_requires_exact_window("com.anthropic.claudefordesktop"));
    assert!(bundle_requires_exact_window("com.tencent.xinWeChat"));
    assert!(!bundle_requires_exact_window("com.openai.codex"));
}

#[test]
fn captured_identity_without_required_window_is_not_current() {
    let without_window = captured_identity("com.tencent.xinWeChat", 42);
    assert!(!captured_target_identity_is_current(
        &without_window,
        Some(launch()),
        true
    ));
    let codex = captured_identity("com.openai.codex", 42);
    assert!(captured_target_identity_is_current(&codex, Some(launch()), true));
}

#[test]
fn stores_and_reads_last_input_target() {
    let mut state = LastInputTargetState::<ClickPoint, Frame>::new();
    let target = LastInputTarget {
        app: app("Notes", "com.apple.Notes"),
        pid: None,
        observed_at_ms: 123,
        click_point: None,
    };

    state.set(target);

    assert_eq!(state.get().unwrap().app.bundle_id, "com.apple.Notes");
    assert_eq!(state.get().unwrap().pid, None);
}

#[test]
fn begin_if_new_preserves_target_for_current_session() {
    let mut state = PromptPickSessionState::<ClickPoint, Frame>::new();
    state.begin(7);
    state.set(PromptPickSessionTarget {
        app: app("Codex", "com.openai.codex"),
        pid: None,
        observed_at_ms: NOW_MS,
        click_point: Some(ClickPoint { x: 640.0, y: 720.0 }),
    });

    state.begin_if_new(7);
    assert_eq!(state.get().unwrap().app.bundle_id, "com.openai.codex");

    state.begin_if_new(8);
    assert!(state.get().is_none());
}

#[test]
fn session_capture_for_an_old_session_is_refused() {
    let mut state = PromptPickSessionState::<ClickPoint, Frame>::new();
    state.begin(3);
    let target = PromptPickSessionTarget {
        app: app("Codex", "com.openai.codex"),
        pid: None,
        observed_at_ms: NOW_MS,
        click_point: None,
    };

    assert!(!state.set_if_current(2, target.duplicate()));
    assert!(state.get().is_none());
    assert!(state.set_if_current(3, target));
    assert_eq!(state.take().unwrap().app.bundle_id, "com.openai.codex");
    assert!(state.get().is_none());
}

#[test]
fn records_non_prompt_picker_input_target() {
    let mut state = LastInputTargetState::<ClickPoint, Frame>::new();
    let target = snapshot(
        "Notes",
        "com.apple.Notes",
        Frame {
            x: 0.0,
            y: 0.0,
            width: 10.0,
            height: 10.0,
        },
        Frame {
            x: 0.0,
            y: 0.0,
            width: 100.0,
            height: 100.0,
        },
        ClickPoint { x: 6.0, y: 5.0 },
    );

    record_last_input_target_if_valid(&mut state, target, |_: u32| Some(launch()), NOW_MS);

    assert_eq!(state.get().unwrap().app.bundle_id, "com.apple.Notes");
    assert_eq!(state.get().unwrap().pid, Some(OWN_PID + 1));
    assert_eq!(state.get().unwrap().click_point.unwrap().x, 6.0);
    let identity = state.captured_identity().unwrap();
    assert_eq!(identity.application.launch_identity, launch());
    assert_eq!(identity.window.unwrap().role.as_deref(), Some("AXWindow"));
}

#[test]
fn records_input_click_point_separately_from_button_position() {
    let mut state = LastInputTargetState::<ClickPoint, Frame>::new();
    let button_position = (1200.0, 776.0);
    let target = snapshot(
        "Codex",
        "com.openai.codex",
        Frame {
            x: 700.0,
            y: 680.0,
            width: 500.0,
            height: 96.0,
        },
        Frame {
            x: 10.0,
            y: 20.0,
            width: 1200.0,
            height: 800.0,
        },
        ClickPoint { x: 760.0, y: 728.0 },
    );

    record_last_input_target_if_valid(&mut state, target, |_: u32| Some(launch()), NOW_MS);

    let stored = state.get().unwrap();
    let click_point = stored.click_point.unwrap();
    assert_eq!(click_point.x, 760.0);
    assert_eq!(click_point.y, 728.0);
    assert_ne!(click_point.x, button_position.0);
}

#[test]
fn records_app_only_target_without_focused_input_frame() {
    let mut state = LastInputTargetState::<ClickPoint, Frame>::new();
    let target = snapshot(
        "WeChat",
        "com.tencent.xinWeChat",
        Frame {
            x: 0.0,
            y: 0.0,
            width: 0.0,
            height: 0.0,
        },
        Frame {
            x: 0.0,
            y: 0.0,
            width: 100.0,
            height: 100.0,
        },
        ClickPoint { x: 50.0, y: 50.0 },
    );

    record_last_input_target_if_valid(&mut state, target, |_: u32| Some(launch()), NOW_MS);

    let stored = state.get().unwrap();
    assert_eq!(stored.app.bundle_id, "com.tencent.xinWeChat");
    assert!(stored.click_point.is_none());
}

#[test]
fn clears_unsafe_finder_target_without_focused_input_frame() {
    let mut state = LastInputTargetState::<ClickPoint, Frame>::new();
    state.set(LastInputTarget {
        app: app("Codex", "com.openai.codex"),
        pid: None,
        observed_at_ms: 123,
        click_point: Some(ClickPoint { x: 640.0, y: 720.0 }),
    });
    let target = snapshot(
        "Finder",
        "com.apple.finder",
        Frame {
            x: 0.0,
            y: 0.0,
            width: 0.0,
            height: 0.0,
        },
        Frame {
            x: 0.0,
            y: 0.0,
            width: 100.0,
            height: 100.0,
        },
        ClickPoint { x: 50.0, y: 50.0 },
    );

    record_last_input_target_if_valid(&mut state, target, |_: u32| Some(launch()), NOW_MS);

    assert!(state.get().is_none());
}

#[test]
fn records_recovery_fallback_target_without_focused_input_frame() {
    let mut state = LastInputTargetState::<ClickPoint, Frame>::new();
    let target = snapshot(
        "Assistant",
        "com.anthropic.claudefordesktop",
        Frame {
            x: 0.0,
            y: 0.0,
            width: 0.0,
            height: 0.0,
        },
        Frame {
            x: 100.0,
            y: 200.0,
            width: 800.0,
            height: 600.0,
        },
        ClickPoint { x: 500.0, y: 735.0 },
    );

    record_last_input_target_if_valid(&mut state, target, |_: u32| Some(launch()), NOW_MS);

    assert_eq!(
        state.get().unwrap().app.bundle_id,
        "com.anthropic.claudefordesktop"
    );
    assert!(state.get().unwrap().click_point.is_none());
}

#[test]
fn unreadable_launch_time_clears_the_recorded_target() {
    let mut state = LastInputTargetState::<ClickPoint, Frame>::new();
    state.set(LastInputTarget {
        app: app("Codex", "com.openai.codex"),
        pid: None,
        observed_at_ms: 123,
        click_point: None,
    });
    let target = snapshot(
        "Notes",
        "com.apple.Notes",
        Frame {
            x: 0.0,
            y: 0.0,
            width: 10.0,
            height: 10.0,
        },
        Frame {
            x: 0.0,
            y: 0.0,
            width: 100.0,
            height: 100.0,
        },
        ClickPoint { x: 6.0, y: 5.0 },
    );

    record_last_input_target_if_valid(&mut state, target, |_: u32| None, NOW_MS);

    assert!(state.get().is_none());
    assert!(state.captured_identity().is_none());
}

#[test]
fn skips_prompt_picker_as_last_input_target() {
    let mut state = LastInputTargetState::<ClickPoint, Frame>::new();
    let target = snapshot(
        "Prompt Drawer",
        "local.promptpicker.dev",
        Frame {
            x: 0.0,
            y: 0.0,
            width: 10.0,
            height: 10.0,
        },
        Frame {
            x: 0.0,
            y: 0.0,
            width: 100.0,
            height: 100.0,
        },
        ClickPoint { x: 6.0, y: 5.0 },
    );

    record_last_input_target_if_valid(&mut state, target, |_: u32| Some(launch()), NOW_MS);

    assert!(state.get().is_none());
}

#[test]
fn prompt_pick_session_uses_frontmost_business_app() {
    let target = prompt_pick_session_target::<ClickPoint>(
        Some(frontmost_target("WeChat", "com.tencent.xinWeChat", Some(123))),
        None,
        OWN_PID,
        NOW_MS,
    )
    .unwrap();

    assert_eq!(target.app.bundle_id, "com.tencent.xinWeChat");
    assert_eq!(target.pid, Some(123));
}

#[test]
fn captured_target_matches_only_same_bundle_and_pid() {
    let target = PromptPickSessionTarget::<ClickPoint> {
        app: app("WeChat", "com.tencent.xinWeChat"),
        pid: Some(123),
        observed_at_ms: NOW_MS,
        click_point: None,
    };
    let same = frontmost_target("WeChat", "com.tencent.xinWeChat", Some(123));
    let different_pid = frontmost_target("WeChat", "com.tencent.xinWeChat", Some(456));
    let different_bundle = frontmost_target("Notes", "com.apple.Notes", Some(123));

    assert!(captured_target_matches_frontmost(&target, Some(&same)));
    assert!(!captured_target_matches_frontmost(&target, Some(&different_pid)));
    assert!(!captured_target_matches_frontmost(&target, Some(&different_bundle)));
    assert!(!captured_target_matches_frontmost(&target, None));
}

#[test]
fn captured_target_falls_back_to_bundle_when_pid_is_unavailable() {
    let target = PromptPickSessionTarget::<ClickPoint> {
        app: app("Notes", "com.apple.Notes"),
        pid: None,
        observed_at_ms: NOW_MS,
        click_point: None,
    };
    let frontmost = frontmost_target("Notes", "com.apple.Notes", Some(123));

    assert!(captured_target_matches_frontmost(&target, Some(&frontmost)));
}

#[test]
fn classifies_frontmost_target_status() {
    let target = PromptPickSessionTarget::<ClickPoint> {
        app: app("Codex", "com.openai.codex"),
        pid: Some(123),
        observed_at_ms: NOW_MS,
        click_point: None,
    };

    assert_eq!(
        classify_target_frontmost(
            &target,
            Some(&frontmost_target("Codex", "com.openai.codex", Some(123)))
        ),
        TargetFrontmostStatus::Target
    );
    assert_eq!(
        classify_target_frontmost(
            &target,
            Some(&frontmost_target("Prompt Drawer", "local.promptpicker.dev", Some(1)))
        ),
        TargetFrontmostStatus::PromptPicker
    );
    assert_eq!(
        classify_target_frontmost(
            &target,
            Some(&frontmost_target("Notes", "com.apple.Notes", Some(456)))
        ),
        TargetFrontmostStatus::OtherOrUnknown
    );
    assert_eq!(
        classify_target_frontmost(&target, None),
        TargetFrontmostStatus::OtherOrUnknown
    );
}

#[test]
fn autosend_diagnostic_line_includes_classification_and_click_point_state() {
    let line = autosend_diagnostic_line(
        "before-paste",
        Some("com.openai.codex"),
        true,
        Some("local.promptpicker.dev"),
        Some(TargetFrontmostStatus::PromptPicker),
    );

    assert!(line.contains("before-paste"));
    assert!(line.contains("target=com.openai.codex"));
    assert!(line.contains("has_click_point=true"));
    assert!(line.contains("frontmost=local.promptpicker.dev"));
    assert!(line.contains("classification=PromptPicker"));
    assert!(!line.contains("prompt body"));
}

#[test]
fn autosend_diagnostic_line_marks_unknown_parts() {
    assert_eq!(
        autosend_diagnostic_line("after-paste", None, false, None, None),
        "prompt-picker-autosend stage=after-paste target=unknown has_click_point=false frontmost=unknown classification=unknown"
    );
}

#[test]
fn prompt_pick_session_rejects_visible_app_without_recent_exact_target() {
    let target = prompt_pick_session_target::<ClickPoint>(
        Some(frontmost_target("Prompt Drawer", "local.promptpicker.dev", Some(1))),
        None,
        OWN_PID,
        NOW_MS,
    );

    assert!(target.is_none());
}

#[test]
fn prompt_pick_session_uses_recent_target_without_considering_visible_apps() {
    let target = prompt_pick_session_target(
        Some(frontmost_target("Prompt Drawer", "local.promptpicker.dev", Some(1))),
        Some(LastInputTarget::<ClickPoint> {
            app: app("Codex", "com.openai.codex"),
            pid: None,
            observed_at_ms: NOW_MS,
            click_point: None,
        }),
        OWN_PID,
        NOW_MS,
    )
    .unwrap();

    assert_eq!(target.app.bundle_id, "com.openai.codex");
    assert!(target.click_point.is_none());
}

#[test]
fn prompt_pick_session_uses_recent_target_when_prompt_picker_has_no_visible_app() {
    let target = prompt_pick_session_target(
        Some(frontmost_target("Prompt Drawer", "local.promptpicker.dev", Some(1))),
        Some(LastInputTarget::<ClickPoint> {
            app: app("WeChat", "com.tencent.xinWeChat"),
            pid: Some(456),
            observed_at_ms: NOW_MS,
            click_point: None,
        }),
        OWN_PID,
        NOW_MS,
    )
    .unwrap();

    assert_eq!(target.app.bundle_id, "com.tencent.xinWeChat");
    assert_eq!(target.pid, Some(456));
}

#[test]
fn prompt_pick_session_uses_recent_target_when_picker_is_frontmost() {
    let target = prompt_pick_session_target(
        Some(frontmost_target("Prompt Drawer", "local.promptpicker.dev", Some(1))),
        Some(LastInputTarget {
            app: app("WeChat", "com.tencent.xinWeChat"),
            pid: None,
            observed_at_ms: NOW_MS,
            click_point: Some(ClickPoint { x: 400.0, y: 700.0 }),
        }),
        OWN_PID,
        NOW_MS,
    )
    .unwrap();

    assert_eq!(target.app.bundle_id, "com.tencent.xinWeChat");
    assert_eq!(target.click_point.unwrap().x, 400.0);
}

#[test]
fn prompt_pick_session_uses_recent_target_when_frontmost_pid_is_picker_process() {
    let target = prompt_pick_session_target(
        Some(frontmost_target("UnknownApp", "unknown.bundle.id", Some(OWN_PID))),
        Some(LastInputTarget::<ClickPoint> {
            app: app("Codex", "com.openai.codex"),
            pid: Some(456),
            observed_at_ms: NOW_MS,
            click_point: None,
        }),
        OWN_PID,
        NOW_MS,
    )
    .unwrap();

    assert_eq!(target.app.bundle_id, "com.openai.codex");
    assert_eq!(target.pid, Some(456));
}

#[test]
fn prompt_pick_session_rejects_visible_app_when_picker_pid_is_frontmost() {
    let target = prompt_pick_session_target::<ClickPoint>(
        Some(frontmost_target("UnknownApp", "unknown.bundle.id", Some(OWN_PID))),
        None,
        OWN_PID,
        NOW_MS,
    );

    assert!(target.is_none());
}

#[test]
fn prompt_pick_session_ignores_a_stale_recent_target() {
    let target = prompt_pick_session_target(
        Some(frontmost_target("Prompt Drawer", "local.promptpicker.dev", Some(1))),
        Some(LastInputTarget::<ClickPoint> {
            app: app("Codex", "com.openai.codex"),
            pid: None,
            observed_at_ms: NOW_MS - 5001,
            click_point: None,
        }),
        OWN_PID,
        NOW_MS,
    );

    assert!(target.is_none());
}

#[test]
fn recent_targets_are_at_most_five_seconds_old() {
    let target = LastInputTarget::<ClickPoint> {
        app: app("Codex", "com.openai.codex"),
        pid: None,
        observed_at_ms: NOW_MS - 5000,
        click_point: None,
    };
    assert!(is_recent_prompt_target(&target, NOW_MS));
    assert!(!is_recent_prompt_target(&target, NOW_MS + 1));
}

#[test]
fn stale_prompt_pick_session_capture_is_ignored_after_new_session_begins() {
    let mut session_state = PromptPickSessionState::<ClickPoint, Frame>::new();
    session_state.begin(1);
    assert!(record_prompt_pick_session_target_if_valid(
        &mut session_state,
        PromptPickSessionTarget {
            app: app("WeChat", "com.tencent.xinWeChat"),
            pid: Some(OWN_PID + 1),
            observed_at_ms: NOW_MS,
            click_point: None,
        },
        captured_identity("com.tencent.xinWeChat", OWN_PID + 1),
        1,
    )
    .is_some());
    assert_eq!(
        session_state.get().unwrap().app.bundle_id,
        "com.tencent.xinWeChat"
    );

    session_state.begin(2);
    assert!(record_prompt_pick_session_target_if_valid(
        &mut session_state,
        PromptPickSessionTarget {
            app: app("WeChat", "com.tencent.xinWeChat"),
            pid: Some(OWN_PID + 1),
            observed_at_ms: NOW_MS,
            click_point: None,
        },
        captured_identity("com.tencent.xinWeChat", OWN_PID + 1),
        1,
    )
    .is_none());
    assert!(session_state.get().is_none());

    let mut recent_state = LastInputTargetState::<ClickPoint, Frame>::new();
    recent_state.set(LastInputTarget {
        app: app("Codex", "com.openai.codex"),
        pid: None,
        observed_at_ms: NOW_MS,
        click_point: None,
    });

    let chosen = prompt_pick_target_or_recent(&mut session_state, Some(&recent_state), NOW_MS).unwrap();
    assert_eq!(chosen.target.app.bundle_id, "com.openai.codex");
}

#[test]
fn accepts_non_codex_target_for_autosend() {
    let mut state = LastInputTargetState::<ClickPoint, Frame>::new();
    state.set(LastInputTarget {
        app: app("WeChat", "com.tencent.xinWeChat"),
        pid: None,
        observed_at_ms: 123,
        click_point: None,
    });

    assert_eq!(last_target_bundle_id(&state).unwrap(), "com.tencent.xinWeChat");
}

#[test]
fn last_target_for_wechat_does_not_need_click_point() {
    let mut state = LastInputTargetState::<ClickPoint, Frame>::new();
    state.set(LastInputTarget {
        app: app("WeChat", "com.tencent.xinWeChat"),
        pid: None,
        observed_at_ms: 123,
        click_point: None,
    });

    assert_eq!(last_target_bundle_id(&state).unwrap(), "com.tencent.xinWeChat");
}

#[test]
fn accepts_codex_target_for_autosend() {
    let mut state = LastInputTargetState::<ClickPoint, Frame>::new();
    state.set(LastInputTarget {
        app: app("Codex", "com.openai.codex"),
        pid: None,
        observed_at_ms: 123,
        click_point: None,
    });

    assert_eq!(last_target_bundle_id(&state).unwrap(), "com.openai.codex");
}

#[test]
fn autosend_does_not_require_click_point_for_codex() {
    let mut state = LastInputTargetState::<ClickPoint, Frame>::new();
    state.set(LastInputTarget {
        app: app("Codex", "com.openai.codex"),
        pid: None,
        observed_at_ms: 123,
        click_point: None,
    });

    assert_eq!(last_target_bundle_id(&state).unwrap(), "com.openai.codex");
}

#[test]
fn last_target_bundle_id_asks_for_a_click_without_a_target() {
    let state = LastInputTargetState::<ClickPoint, Frame>::new();

    assert_eq!(
        last_target_bundle_id(&state).unwrap_err(),
        "Click into a text field first, then choose a prompt."
    );
}

#[test]
fn records_frontmost_app_as_last_target_fallback() {
    let mut state = LastInputTargetState::<ClickPoint, Frame>::new();
    let pid = OWN_PID + 7;
    record_last_app_if_valid(
        &mut state,
        frontmost_target("WeChat", "com.tencent.xinWeChat", Some(pid)),
        OWN_PID,
        |_: u32| Some(launch()),
        NOW_MS,
    );

    assert_eq!(state.get().unwrap().app.bundle_id, "com.tencent.xinWeChat");
    assert_eq!(state.get().unwrap().pid, Some(pid));
    assert!(state.captured_identity().unwrap().window.is_none());
}

#[test]
fn skips_prompt_picker_as_frontmost_app_fallback() {
    let mut state = LastInputTargetState::<ClickPoint, Frame>::new();
    record_last_app_if_valid(
        &mut state,
        frontmost_target("Prompt Drawer", "local.promptpicker.dev", Some(1)),
        OWN_PID,
        |_: u32| Some(launch()),
        NOW_MS,
    );

    assert!(state.get().is_none());
}

fn point_inside_frame(point: ClickPoint, frame: &Frame) -> bool {
    point.x >= frame.x
        && point.x <= frame.x + frame.width
        && point.y >= frame.y
        && point.y <= frame.y + frame.height
}

#[test]
fn recovery_click_point_prefers_recorded_input_point_over_pointer_fallback() {
    let recorded = Some(ClickPoint { x: 400.0, y: 700.0 });
    let pointer = Some(ClickPoint { x: 100.0, y: 100.0 });
    let window = Frame { x: 0.0, y: 0.0, width: 1000.0, height: 1000.0 };

    assert_eq!(
        choose_recovery_click_point(recorded, pointer, Some(&window), None, point_inside_frame),
        recorded
    );
}

#[test]
fn recovery_click_point_uses_pointer_only_inside_target_window() {
    let pointer = Some(ClickPoint { x: 100.0, y: 100.0 });
    let fallback = Some(ClickPoint { x: 500.0, y: 735.0 });
    let window = Frame { x: 0.0, y: 0.0, width: 200.0, height: 200.0 };

    assert_eq!(
        choose_recovery_click_point(None, pointer, Some(&window), fallback, point_inside_frame),
        pointer
    );
}

#[test]
fn recovery_click_point_uses_pointer_before_generic_fallback() {
    let pointer = Some(ClickPoint { x: 120.0, y: 140.0 });
    let fallback = Some(ClickPoint { x: 500.0, y: 735.0 });
    let window = Frame { x: 100.0, y: 100.0, width: 600.0, height: 500.0 };

    assert_eq!(
        choose_recovery_click_point(None, pointer, Some(&window), fallback, point_inside_frame),
        pointer
    );
}

#[test]
fn recovery_click_point_rejects_pointer_outside_target_window() {
    let pointer = Some(ClickPoint { x: 300.0, y: 300.0 });
    let fallback = Some(ClickPoint { x: 500.0, y: 735.0 });
    let window = Frame { x: 0.0, y: 0.0, width: 200.0, height: 200.0 };

    assert_eq!(
        choose_recovery_click_point(None, pointer, Some(&window), fallback, point_inside_frame),
        fallback
    );
}

#[test]
fn recovery_click_point_without_window_uses_fallback() {
    let pointer = Some(ClickPoint { x: 10.0, y: 10.0 });
    let fallback = Some(ClickPoint { x: 500.0, y: 735.0 });

    assert_eq!(
        choose_recovery_click_point::<ClickPoint, Frame, _>(None, pointer, None, fallback, point_inside_frame),
        fallback
    );
}

#[test]
fn an_app_whose_bundle_id_is_unknown_is_no_autosend_target() {
    let unknown = FrontmostApp { name: "Unknown".to_string(), bundle_id: "unknown.pid.77".to_string() };
    let codex = FrontmostApp { name: "Codex".to_string(), bundle_id: "com.openai.codex".to_string() };

    assert!(!is_usable_autosend_app(&unknown));
    assert!(is_usable_autosend_app(&codex));
}
