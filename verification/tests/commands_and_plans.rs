use sleepy_cat::autosend::{
    captured_window_for_delivery, paste_prompt_and_submit_to_last_target,
    paste_prompt_sequence_and_submit_to_last_target,
};
use sleepy_cat::platform::macos::{
    AutosendCompletion, AutosendFailureReason, AutosendOutcome, FrontmostApp, FrontmostAppWithPid,
    NativeSubmitKey, ProcessLaunchIdentity,
};
use sleepy_cat::prompt_button::{
    apply_prompt_button_visibility, recover_prompt_button_webview_once,
    set_prompt_button_renderer_ready, should_retry_prompt_button_recovery,
    PromptButtonRendererState, PromptButtonVisibilityState,
};
use sleepy_cat::targets::{
    capture_prompt_pick_session_target, record_current_input_target, CapturedTargetIdentity,
    InputTargetSnapshot, LastInputTarget, LastInputTargetState, PromptPickSessionState,
    PromptPickSessionTarget, TargetApplicationIdentity, TargetWindowIdentity,
};
use sleepy_cat::windows::{
    outside_click_action, popover_show_plan, OutsideClickAction, PopoverShowAction,
};
use std::cell::{Cell, RefCell};

const NOW_MS: u128 = 1_700_000_000_000;

#[derive(Clone, Copy, Debug, PartialEq)]
struct ClickPoint {
    x: f64,
    y: f64,
}

#[derive(Clone, Copy, Debug, PartialEq)]
struct Frame {
    width: f64,
    height: f64,
}

fn app(name: &str, bundle_id: &str) -> FrontmostApp {
    FrontmostApp {
        name: name.to_string(),
        bundle_id: bundle_id.to_string(),
    }
}

fn launch() -> ProcessLaunchIdentity {
    ProcessLaunchIdentity {
        seconds: 12,
        microseconds: 34,
    }
}

fn settings(mode: &str) -> Result<Option<String>, String> {
    Ok(Some(format!(r#"{{"promptInsertion":{{"mode":"{mode}"}}}}"#)))
}

fn codex_session() -> PromptPickSessionState<ClickPoint, Frame> {
    let mut state = PromptPickSessionState::new();
    state.set(PromptPickSessionTarget {
        app: app("Codex", "com.openai.codex"),
        pid: None,
        observed_at_ms: NOW_MS,
        click_point: None,
    });
    state
}

#[test]
fn autosend_command_refuses_an_unknown_submit_key_argument() {
    let mut state = codex_session();
    let result = paste_prompt_and_submit_to_last_target(
        "hello",
        Some("space".to_string()),
        settings("paste_enter"),
        &mut state,
        None,
        |_: &str, _: &str, _: Option<ClickPoint>, _: NativeSubmitKey| -> AutosendOutcome {
            panic!("nothing is delivered for a refused argument")
        },
        |_: &str| panic!("nothing is copied for a refused argument"),
        |_: u32| None,
        true,
        NOW_MS,
    );

    assert_eq!(result.map(|o| o.sent), Err("Invalid submit key: space".to_string()));
    assert!(state.get().is_some());
}

#[test]
fn autosend_command_takes_the_submit_key_from_settings() {
    let mut state = codex_session();
    let used_key = Cell::new(None);
    let outcome = paste_prompt_and_submit_to_last_target(
        "hello",
        Some("enter".to_string()),
        settings("paste_only"),
        &mut state,
        None,
        |_: &str, _: &str, _: Option<ClickPoint>, key: NativeSubmitKey| {
            used_key.set(Some(key));
            AutosendOutcome::pasted_only()
        },
        |_: &str| Ok(()),
        |_: u32| None,
        true,
        NOW_MS,
    )
    .unwrap();

    assert_eq!(used_key.get(), Some(NativeSubmitKey::NoKey));
    assert_eq!(outcome.completion, Some(AutosendCompletion::PastedOnly));
}

#[test]
fn group_command_without_submit_key_joins_raw_bodies() {
    let mut state = codex_session();
    let pasted = RefCell::new(Vec::new());
    let outcome = paste_prompt_sequence_and_submit_to_last_target(
        &vec!["first".to_string(), "second".to_string()],
        700,
        None,
        settings("paste_only"),
        &mut state,
        None,
        |body: &str, _: &str, _: Option<ClickPoint>, _: NativeSubmitKey| {
            pasted.borrow_mut().push(body.to_string());
            AutosendOutcome::pasted_only()
        },
        |_: &str| Ok(()),
        &mut |_: u64| panic!("a joined group does not pause"),
        |_: u32| None,
        true,
        NOW_MS,
    )
    .unwrap();

    assert_eq!(pasted.into_inner(), vec!["first\n\nsecond".to_string()]);
    assert!(!outcome.sent);
    assert_eq!(outcome.failed_index, Some(0));
    assert_eq!(outcome.completion, Some(AutosendCompletion::PastedOnly));
}

#[test]
fn group_command_with_submit_key_sends_each_body() {
    let mut state = codex_session();
    let sent = RefCell::new(Vec::new());
    let mut pauses = Vec::new();
    let outcome = paste_prompt_sequence_and_submit_to_last_target(
        &vec!["one".to_string(), " two ".to_string()],
        50,
        Some("command_enter".to_string()),
        settings("paste_command_enter"),
        &mut state,
        None,
        |body: &str, _: &str, _: Option<ClickPoint>, key: NativeSubmitKey| {
            assert_eq!(key, NativeSubmitKey::CommandEnter);
            sent.borrow_mut().push(body.to_string());
            AutosendOutcome::sent()
        },
        |_: &str| Ok(()),
        &mut |ms: u64| pauses.push(ms),
        |_: u32| None,
        true,
        NOW_MS,
    )
    .unwrap();

    assert!(outcome.sent);
    assert_eq!(outcome.sent_count, 2);
    assert_eq!(sent.into_inner(), vec!["one".to_string(), "two".to_string()]);
    assert_eq!(pauses, vec![200]);
}

#[test]
fn delivery_checks_the_session_window_before_the_recorded_one() {
    let window = |width: f64| CapturedTargetIdentity {
        application: TargetApplicationIdentity {
            bundle_id: "com.tencent.xinWeChat".to_string(),
            main_pid: 5,
            launch_identity: launch(),
        },
        window: Some(TargetWindowIdentity {
            owner_pid: 5,
            frame: Frame { width, height: 10.0 },
            role: None,
            title_hash: None,
            cg_window_id: None,
        }),
    };
    let mut session = PromptPickSessionState::<ClickPoint, Frame>::new();
    let mut recent = LastInputTargetState::<ClickPoint, Frame>::new();
    assert_eq!(captured_window_for_delivery(&session, &recent), None);

    recent.set_captured(
        LastInputTarget {
            app: app("WeChat", "com.tencent.xinWeChat"),
            pid: Some(5),
            observed_at_ms: NOW_MS,
            click_point: None,
        },
        window(300.0),
    );
    assert_eq!(
        captured_window_for_delivery(&session, &recent),
        Some(Frame { width: 300.0, height: 10.0 })
    );

    session.begin(1);
    assert!(session.set_captured_if_current(
        1,
        PromptPickSessionTarget {
            app: app("WeChat", "com.tencent.xinWeChat"),
            pid: Some(5),
            observed_at_ms: NOW_MS,
            click_point: None,
        },
        window(500.0),
    ));
    assert_eq!(
        captured_window_for_delivery(&session, &recent),
        Some(Frame { width: 500.0, height: 10.0 })
    );
}

#[test]
fn session_capture_records_the_focused_input_and_its_app() {
    let mut session = PromptPickSessionState::<ClickPoint, Frame>::new();
    let mut recent = LastInputTargetState::<ClickPoint, Frame>::new();
    session.begin(9);
    let captured = capture_prompt_pick_session_target(
        9,
        &mut session,
        &mut recent,
        Some(InputTargetSnapshot {
            app: Some(app("Notes", "com.apple.Notes")),
            pid: 300,
            has_focused_input_frame: true,
            click_point: ClickPoint { x: 1.0, y: 2.0 },
            window_frame: Frame { width: 50.0, height: 60.0 },
        }),
        Some(FrontmostAppWithPid {
            app: app("Notes", "com.apple.Notes"),
            pid: Some(300),
        }),
        |_: u32| Some(launch()),
        &mut |_: u32| Some(launch()),
        4242,
        true,
        NOW_MS,
    );

    assert_eq!(captured.map(|a| a.bundle_id), Some("com.apple.Notes".to_string()));
    let target = session.get().unwrap();
    assert_eq!(target.pid, Some(300));
    assert_eq!(target.click_point, Some(ClickPoint { x: 1.0, y: 2.0 }));
    assert_eq!(recent.get().unwrap().app.bundle_id, "com.apple.Notes");
}

#[test]
fn session_capture_for_a_superseded_session_keeps_nothing() {
    let mut session = PromptPickSessionState::<ClickPoint, Frame>::new();
    let mut recent = LastInputTargetState::<ClickPoint, Frame>::new();
    session.begin(10);
    let captured = capture_prompt_pick_session_target(
        9,
        &mut session,
        &mut recent,
        None,
        Some(FrontmostAppWithPid {
            app: app("Notes", "com.apple.Notes"),
            pid: Some(300),
        }),
        |_: u32| Some(launch()),
        &mut |_: u32| Some(launch()),
        4242,
        true,
        NOW_MS,
    );

    assert!(captured.is_none());
    assert!(session.get().is_none());
}

#[test]
fn current_input_target_falls_back_to_the_frontmost_app() {
    let mut recent = LastInputTargetState::<ClickPoint, Frame>::new();
    let found = record_current_input_target(
        &mut recent,
        None,
        || {
            Some(FrontmostAppWithPid {
                app: app("WeChat", "com.tencent.xinWeChat"),
                pid: Some(77),
            })
        },
        4242,
        |_: u32| -> Option<ProcessLaunchIdentity> { panic!("no input was read") },
        |_: u32| Some(launch()),
        NOW_MS,
    );

    assert!(!found);
    assert_eq!(recent.get().unwrap().pid, Some(77));
    assert!(recent.get().unwrap().click_point.is_none());
}

#[test]
fn renderer_report_shows_a_ready_wanted_button() {
    let mut renderer = PromptButtonRendererState::new();
    let visibility = PromptButtonVisibilityState::new(true);
    let instance = renderer.allocate_instance();
    let shown = Cell::new(false);
    let outcome = set_prompt_button_renderer_ready(
        &mut renderer,
        &visibility,
        instance,
        1,
        true,
        || panic!("a ready button is not hidden"),
        || {
            shown.set(true);
            Ok(())
        },
    );

    assert!(outcome.accepted);
    assert!(outcome.applied);
    assert_eq!(outcome.action, "showCurrent");
    assert!(shown.get());

    let stale = set_prompt_button_renderer_ready(
        &mut renderer,
        &visibility,
        instance,
        1,
        false,
        || panic!("a refused report changes nothing"),
        || panic!("a refused report changes nothing"),
    );
    assert!(!stale.accepted);
    assert_eq!((stale.current_instance_id, stale.transition_id, stale.ready), (instance, 1, true));
    assert_eq!(stale.action, "ignore");
}

#[test]
fn renderer_report_hides_a_button_that_is_not_ready() {
    let mut renderer = PromptButtonRendererState::new();
    let visibility = PromptButtonVisibilityState::new(true);
    let instance = renderer.allocate_instance();
    let outcome = set_prompt_button_renderer_ready(
        &mut renderer,
        &visibility,
        instance,
        3,
        false,
        || Err("hide failed".to_string()),
        || panic!("a button that is not ready is not shown"),
    );

    assert!(outcome.accepted);
    assert_eq!(outcome.action, "hideCurrent");
    assert!(!outcome.applied);
}

#[test]
fn webview_recovery_needs_a_current_unready_instance_and_a_window() {
    let mut renderer = PromptButtonRendererState::new();
    let instance = renderer.allocate_instance();
    let retarget = |url: String, id: u64| format!("{url}#{id}");

    let stale = recover_prompt_button_webview_once(
        &renderer,
        instance + 1,
        true,
        None::<String>,
        || Ok(()),
        || Ok("overlay.html".to_string()),
        |_: &String| Ok(()),
        retarget,
    );
    assert_eq!(
        stale,
        Err(format!("Prompt button renderer instance {} is no longer current.", instance + 1))
    );

    let missing = recover_prompt_button_webview_once(
        &renderer,
        instance,
        false,
        None::<String>,
        || Ok(()),
        || Ok("overlay.html".to_string()),
        |_: &String| Ok(()),
        retarget,
    );
    assert_eq!(missing, Err("Prompt button window is missing during WebContent recovery.".to_string()));

    let recovered = recover_prompt_button_webview_once(
        &renderer,
        instance,
        true,
        None::<String>,
        || Ok(()),
        || Ok("overlay.html".to_string()),
        |_: &String| Ok(()),
        retarget,
    );
    assert_eq!(recovered, Ok(format!("overlay.html#{instance}")));
    assert!(should_retry_prompt_button_recovery(&renderer, instance, 1));
    assert!(!should_retry_prompt_button_recovery(&renderer, instance, 2));
}

#[test]
fn visibility_change_reports_both_failures() {
    let mut visibility = PromptButtonVisibilityState::new(true);
    let outcome = apply_prompt_button_visibility(
        false,
        &mut visibility,
        |_: bool| Err("hide failed".to_string()),
        |_: bool| Err("disk full".to_string()),
    );

    assert!(!visibility.desired_visible());
    assert_eq!(visibility.generation(), 1);
    assert!(!outcome.applied);
    assert!(!outcome.persisted);
    assert_eq!(outcome.error.as_deref(), Some("hide failed; disk full"));

    let fine = apply_prompt_button_visibility(true, &mut visibility, |_: bool| Ok(()), |_: bool| Ok(()));
    assert!(fine.applied && fine.persisted && fine.error.is_none());
}

#[test]
fn popover_show_plans_reuse_switch_or_build_the_window() {
    assert_eq!(
        popover_show_plan(true, Some("popover"), "popover"),
        vec![
            PopoverShowAction::SetPosition,
            PopoverShowAction::SetSize,
            PopoverShowAction::ConfigureTransparent,
            PopoverShowAction::EnableOutsideClickMonitor,
            PopoverShowAction::ShowWindow,
            PopoverShowAction::EmitOpened,
        ]
    );
    assert_eq!(
        popover_show_plan(true, Some("popover"), "button-controls"),
        vec![
            PopoverShowAction::HideWindow,
            PopoverShowAction::DisableOutsideClickMonitor,
            PopoverShowAction::RecordMode,
            PopoverShowAction::SetPosition,
            PopoverShowAction::SetSize,
            PopoverShowAction::RequestModeAcknowledgement,
            PopoverShowAction::ConfigureTransparent,
            PopoverShowAction::EnableOutsideClickMonitor,
            PopoverShowAction::ShowWindow,
            PopoverShowAction::EmitOpened,
        ]
    );
    assert_eq!(
        popover_show_plan(false, None, "settings"),
        vec![
            PopoverShowAction::BuildWindow,
            PopoverShowAction::DisableOutsideClickMonitor,
            PopoverShowAction::ShowWindow,
            PopoverShowAction::RecordMode,
            PopoverShowAction::EmitOpened,
        ]
    );
}

#[test]
fn outside_clicks_dismiss_only_a_visible_transparent_popover() {
    assert_eq!(
        outside_click_action(false, Some("popover"), Some(true), || -> Option<bool> { panic!("not read") }),
        OutsideClickAction::Nothing
    );
    assert_eq!(
        outside_click_action(true, Some("settings"), Some(true), || -> Option<bool> { panic!("not read") }),
        OutsideClickAction::DisableMonitor
    );
    assert_eq!(
        outside_click_action(true, Some("popover"), Some(false), || -> Option<bool> { panic!("not read") }),
        OutsideClickAction::DisableMonitor
    );
    assert_eq!(
        outside_click_action(true, Some("popover"), Some(true), || Some(true)),
        OutsideClickAction::Dismiss
    );
    assert_eq!(
        outside_click_action(true, Some("button-controls"), Some(true), || None),
        OutsideClickAction::Nothing
    );
}

#[test]
fn copy_fallback_reports_no_target_for_an_empty_session() {
    let mut state = PromptPickSessionState::<ClickPoint, Frame>::new();
    let outcome = paste_prompt_and_submit_to_last_target(
        "hello",
        None,
        settings("paste_enter"),
        &mut state,
        None,
        |_: &str, _: &str, _: Option<ClickPoint>, _: NativeSubmitKey| -> AutosendOutcome {
            panic!("no target")
        },
        |_: &str| Ok(()),
        |_: u32| None,
        true,
        NOW_MS,
    )
    .unwrap();

    assert!(outcome.copied);
    assert_eq!(outcome.reason, Some(AutosendFailureReason::NoSafeTarget));
}
