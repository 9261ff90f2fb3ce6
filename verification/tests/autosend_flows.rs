use sleepy_cat::autosend::{
    clamp_sequence_interval_ms, clean_bodies, copy_without_sending,
    focus_preserving_prompt_sequence_for_target_with_senders,
    focus_preserving_prompt_to_last_target_impl,
    guarded_focus_preserving_autosend_with_senders, join_with, native_submit_key_from_arg,
    paste_prompt_and_submit_to_session_target_with_senders,
    paste_prompt_sequence_and_submit_to_session_target_with_senders, MIN_SEQUENCE_INTERVAL_MS,
};
use sleepy_cat::platform::macos::{
    AutosendCompletion, AutosendFailureReason, AutosendOutcome, FrontmostApp,
    FrontmostAppWithPid, NativeSubmitKey, ProcessLaunchIdentity,
};
use sleepy_cat::targets::{
    CapturedTargetIdentity, LastInputTarget, LastInputTargetState, PromptPickSessionState,
    PromptPickSessionTarget, TargetApplicationIdentity,
};
use std::cell::RefCell;
use std::collections::VecDeque;

const NOW_MS: u128 = 1_700_000_000_000;

#[derive(Clone, Copy, Debug, PartialEq)]
struct ClickPoint {
    x: f64,
    y: f64,
}

#[derive(Clone, Copy, Debug, PartialEq)]
struct Frame {
    width: f64,
    height: f64,
}

type Session = PromptPickSessionState<ClickPoint, Frame>;
type Recent = LastInputTargetState<ClickPoint, Frame>;

fn frontmost_target(name: &str, bundle_id: &str, pid: Option<u32>) -> FrontmostAppWithPid {
    FrontmostAppWithPid {
        app: FrontmostApp {
            name: name.to_string(),
            bundle_id: bundle_id.to_string(),
        },
        pid,
    }
}

fn prompt_target(name: &str, bundle_id: &str, pid: Option<u32>) -> PromptPickSessionTarget<ClickPoint> {
    PromptPickSessionTarget {
        app: FrontmostApp {
            name: name.to_string(),
            bundle_id: bundle_id.to_string(),
        },
        pid,
        observed_at_ms: NOW_MS,
        click_point: None,
    }
}

fn no_launch(_: u32) -> Option<ProcessLaunchIdentity> {
    None
}

#[test]
fn focus_preserving_autosend_stops_before_paste_when_frontmost_changed() {
    let target = prompt_target("WeChat", "com.tencent.xinWeChat", Some(123));
    let events = RefCell::new(Vec::new());
    let mut frontmost = VecDeque::from([frontmost_target("Notes", "com.apple.Notes", Some(9))]);

    let outcome = guarded_focus_preserving_autosend_with_senders(
        "hello",
        &target,
        NativeSubmitKey::Enter,
        &mut |body: &str| {
            assert_eq!(body, "hello");
            events.borrow_mut().push("copy");
            Ok(())
        },
        &mut || frontmost.pop_front(),
        &mut |_: &PromptPickSessionTarget<ClickPoint>| Err("repair unavailable".to_string()),
        &mut || {
            events.borrow_mut().push("paste");
            Ok(())
        },
        &mut |_: NativeSubmitKey| {
            events.borrow_mut().push("submit");
            Ok(())
        },
        &mut |_: u64| events.borrow_mut().push("sleep"),
        &mut Vec::new(),
    );

    assert!(outcome.copied);
    assert!(!outcome.sent);
    assert_eq!(outcome.reason, Some(AutosendFailureReason::NoSafeTarget));
    assert_eq!(&*events.borrow(), &["copy"]);
}

#[test]
fn target_recovery_can_recover_before_paste_if_picker_is_frontmost() {
    let target = prompt_target("WeChat", "com.tencent.xinWeChat", Some(123));
    let events = RefCell::new(Vec::new());
    let mut frontmost = VecDeque::from([
        frontmost_target("Prompt Drawer", "local.promptpicker.dev", Some(1)),
        frontmost_target("WeChat", "com.tencent.xinWeChat", Some(123)),
        frontmost_target("WeChat", "com.tencent.xinWeChat", Some(123)),
    ]);

    let outcome = guarded_focus_preserving_autosend_with_senders(
        "hello",
        &target,
        NativeSubmitKey::Enter,
        &mut |_: &str| {
            events.borrow_mut().push("copy");
            Ok(())
        },
        &mut || frontmost.pop_front(),
        &mut |_: &PromptPickSessionTarget<ClickPoint>| {
            events.borrow_mut().push("recover");
            Ok(())
        },
        &mut || {
            events.borrow_mut().push("paste");
            Ok(())
        },
        &mut |_: NativeSubmitKey| {
            events.borrow_mut().push("submit");
            Ok(())
        },
        &mut |_: u64| events.borrow_mut().push("sleep"),
        &mut Vec::new(),
    );

    assert!(outcome.sent);
    assert_eq!(
        &*events.borrow(),
        &["copy", "recover", "paste", "sleep", "submit"]
    );
}

#[test]
fn autosend_recovers_app_only_target_with_recorded_click_point_when_picker_is_frontmost() {
    let target = PromptPickSessionTarget {
        app: FrontmostApp {
            name: "Codex".to_string(),
            bundle_id: "com.openai.codex".to_string(),
        },
        pid: None,
        observed_at_ms: NOW_MS,
        click_point: Some(ClickPoint { x: 640.0, y: 720.0 }),
    };
    let mut frontmost = vec![
        Some(frontmost_target("Prompt Drawer", "local.promptpicker.dev", Some(1))),
        Some(frontmost_target("Codex", "com.openai.codex", Some(42))),
        Some(frontmost_target("Codex", "com.openai.codex", Some(42))),
    ]
    .into_iter();
    let recovered = RefCell::new(false);
    let pasted = RefCell::new(false);
    let submitted = RefCell::new(false);

    let outcome = guarded_focus_preserving_autosend_with_senders(
        "hello",
        &target,
        NativeSubmitKey::Enter,
        &mut |_: &str| Ok(()),
        &mut || frontmost.next().flatten(),
        &mut |recover_target: &PromptPickSessionTarget<ClickPoint>| {
            recovered.replace(true);
            assert_eq!(recover_target.app.bundle_id, "com.openai.codex");
            assert_eq!(recover_target.click_point.unwrap().x, 640.0);
            Ok(())
        },
        &mut || {
            pasted.replace(true);
            Ok(())
        },
        &mut |_: NativeSubmitKey| {
            submitted.replace(true);
            Ok(())
        },
        &mut |_: u64| {},
        &mut Vec::new(),
    );

    assert!(outcome.sent);
    assert!(*recovered.borrow());
    assert!(*pasted.borrow());
    assert!(*submitted.borrow());
}

#[test]
fn autosend_refuses_when_another_app_is_frontmost_before_paste() {
    let target = prompt_target("Codex", "com.openai.codex", Some(42));
    let outcome = guarded_focus_preserving_autosend_with_senders(
        "hello",
        &target,
        NativeSubmitKey::Enter,
        &mut |_: &str| Ok(()),
        &mut || Some(frontmost_target("Notes", "com.apple.Notes", Some(9))),
        &mut |_: &PromptPickSessionTarget<ClickPoint>| {
            panic!("must not recover when a third-party app is frontmost")
        },
        &mut || panic!("must not paste into the wrong app"),
        &mut |_: NativeSubmitKey| panic!("must not submit into the wrong app"),
        &mut |_: u64| {},
        &mut Vec::new(),
    );

    assert_eq!(outcome.reason, Some(AutosendFailureReason::NoSafeTarget));
    assert!(outcome.copied);
    assert!(!outcome.sent);
}

#[test]
fn autosend_refuses_when_prompt_picker_recovery_does_not_restore_target() {
    let target = prompt_target("Codex", "com.openai.codex", Some(42));
    let mut frontmost = vec![
        Some(frontmost_target("Prompt Drawer", "local.promptpicker.dev", Some(1))),
        Some(frontmost_target("Prompt Drawer", "local.promptpicker.dev", Some(1))),
    ]
    .into_iter();
    let outcome = guarded_focus_preserving_autosend_with_senders(
        "hello",
        &target,
        NativeSubmitKey::Enter,
        &mut |_: &str| Ok(()),
        &mut || frontmost.next().flatten(),
        &mut |_: &PromptPickSessionTarget<ClickPoint>| Ok(()),
        &mut || panic!("must not paste before target is restored"),
        &mut |_: NativeSubmitKey| panic!("must not submit before target is restored"),
        &mut |_: u64| {},
        &mut Vec::new(),
    );

    assert_eq!(outcome.reason, Some(AutosendFailureReason::NoSafeTarget));
    assert!(outcome.copied);
    assert!(!outcome.sent);
}

#[test]
fn focus_preserving_autosend_skips_submit_when_frontmost_changes_after_paste() {
    let target = prompt_target("WeChat", "com.tencent.xinWeChat", Some(123));
    let events = RefCell::new(Vec::new());
    let mut frontmost = VecDeque::from([
        frontmost_target("WeChat", "com.tencent.xinWeChat", Some(123)),
        frontmost_target("Notes", "com.apple.Notes", Some(9)),
    ]);

    let outcome = guarded_focus_preserving_autosend_with_senders(
        "hello",
        &target,
        NativeSubmitKey::Enter,
        &mut |_: &str| {
            events.borrow_mut().push("copy");
            Ok(())
        },
        &mut || frontmost.pop_front(),
        &mut |_: &PromptPickSessionTarget<ClickPoint>| Err("repair unavailable".to_string()),
        &mut || {
            events.borrow_mut().push("paste");
            Ok(())
        },
        &mut |_: NativeSubmitKey| {
            events.borrow_mut().push("submit");
            Ok(())
        },
        &mut |_: u64| events.borrow_mut().push("sleep"),
        &mut Vec::new(),
    );

    assert!(outcome.copied);
    assert!(!outcome.sent);
    assert_eq!(outcome.reason, Some(AutosendFailureReason::ReturnEventFailed));
    assert_eq!(&*events.borrow(), &["copy", "paste", "sleep"]);
}

#[test]
fn focus_preserving_autosend_pastes_and_submits_when_target_stays_frontmost() {
    let target = prompt_target("WeChat", "com.tencent.xinWeChat", Some(123));
    let events = RefCell::new(Vec::new());
    let submitted = RefCell::new(None);
    let mut frontmost = VecDeque::from([
        frontmost_target("WeChat", "com.tencent.xinWeChat", Some(123)),
        frontmost_target("WeChat", "com.tencent.xinWeChat", Some(123)),
    ]);

    let outcome = guarded_focus_preserving_autosend_with_senders(
        "hello",
        &target,
        NativeSubmitKey::Enter,
        &mut |_: &str| {
            events.borrow_mut().push("copy");
            Ok(())
        },
        &mut || frontmost.pop_front(),
        &mut |_: &PromptPickSessionTarget<ClickPoint>| {
            events.borrow_mut().push("repair");
            Err("repair must not run".to_string())
        },
        &mut || {
            events.borrow_mut().push("paste");
            Ok(())
        },
        &mut |key: NativeSubmitKey| {
            events.borrow_mut().push("submit");
            submitted.replace(Some(key));
            Ok(())
        },
        &mut |_: u64| events.borrow_mut().push("sleep"),
        &mut Vec::new(),
    );

    assert!(outcome.sent);
    assert_eq!(*submitted.borrow(), Some(NativeSubmitKey::Enter));
    assert_eq!(&*events.borrow(), &["copy", "paste", "sleep", "submit"]);
}

#[test]
fn guarded_autosend_without_submit_key_pastes_and_settles() {
    let target = prompt_target("WeChat", "com.tencent.xinWeChat", Some(123));
    let events = RefCell::new(Vec::new());
    let mut frontmost = VecDeque::from([frontmost_target("WeChat", "com.tencent.xinWeChat", Some(123))]);

    let outcome = guarded_focus_preserving_autosend_with_senders(
        "hello",
        &target,
        NativeSubmitKey::NoKey,
        &mut |_: &str| {
            events.borrow_mut().push("copy");
            Ok(())
        },
        &mut || frontmost.pop_front(),
        &mut |_: &PromptPickSessionTarget<ClickPoint>| Ok(()),
        &mut || {
            events.borrow_mut().push("paste");
            Ok(())
        },
        &mut |_: NativeSubmitKey| panic!("no submit key was asked for"),
        &mut |_: u64| events.borrow_mut().push("sleep"),
        &mut Vec::new(),
    );

    assert!(!outcome.sent);
    assert_eq!(outcome.completion, Some(AutosendCompletion::PastedOnly));
    assert_eq!(&*events.borrow(), &["copy", "paste", "sleep"]);
}

#[test]
fn sequence_autosend_recovers_target_when_prompt_picker_is_frontmost() {
    let target = PromptPickSessionTarget {
        app: FrontmostApp {
            name: "Codex".to_string(),
            bundle_id: "com.openai.codex".to_string(),
        },
        pid: Some(42),
        observed_at_ms: NOW_MS,
        click_point: Some(ClickPoint { x: 640.0, y: 720.0 }),
    };
    let bodies = vec!["one".to_string(), "two".to_string()];
    let mut frontmost = vec![
        Some(frontmost_target("Prompt Drawer", "local.promptpicker.dev", Some(1))),
        Some(frontmost_target("Codex", "com.openai.codex", Some(42))),
        Some(frontmost_target("Codex", "com.openai.codex", Some(42))),
        Some(frontmost_target("Codex", "com.openai.codex", Some(42))),
        Some(frontmost_target("Codex", "com.openai.codex", Some(42))),
    ]
    .into_iter();
    let recovered_count = RefCell::new(0);
    let pasted_count = RefCell::new(0);
    let submitted_count = RefCell::new(0);

    let outcome = focus_preserving_prompt_sequence_for_target_with_senders(
        &bodies,
        700,
        &target,
        NativeSubmitKey::Enter,
        &mut |_: &str| Ok(()),
        &mut || frontmost.next().flatten(),
        &mut |_: &PromptPickSessionTarget<ClickPoint>| {
            *recovered_count.borrow_mut() += 1;
            Ok(())
        },
        &mut || {
            *pasted_count.borrow_mut() += 1;
            Ok(())
        },
        &mut |_: NativeSubmitKey| {
            *submitted_count.borrow_mut() += 1;
            Ok(())
        },
        &mut |_: u64| {},
        &mut Vec::new(),
    );

    assert!(outcome.sent);
    assert_eq!(outcome.sent_count, 2);
    assert_eq!(*recovered_count.borrow(), 1);
    assert_eq!(*pasted_count.borrow(), 2);
    assert_eq!(*submitted_count.borrow(), 2);
}

#[test]
fn focus_preserving_sequence_stops_before_first_paste_when_frontmost_changed() {
    let target = prompt_target("WeChat", "com.tencent.xinWeChat", Some(123));
    let events = RefCell::new(Vec::new());
    let bodies = vec!["one".to_string(), "two".to_string()];
    let mut frontmost = VecDeque::from([frontmost_target("Notes", "com.apple.Notes", Some(9))]);

    let outcome = focus_preserving_prompt_sequence_for_target_with_senders(
        &bodies,
        700,
        &target,
        NativeSubmitKey::Enter,
        &mut |_: &str| {
            events.borrow_mut().push("copy");
            Ok(())
        },
        &mut || frontmost.pop_front(),
        &mut |_: &PromptPickSessionTarget<ClickPoint>| Err("repair unavailable".to_string()),
        &mut || {
            events.borrow_mut().push("paste");
            Ok(())
        },
        &mut |_: NativeSubmitKey| {
            events.borrow_mut().push("submit");
            Ok(())
        },
        &mut |_: u64| events.borrow_mut().push("sleep"),
        &mut Vec::new(),
    );

    assert!(!outcome.sent);
    assert_eq!(outcome.sent_count, 0);
    assert_eq!(outcome.failed_index, Some(1));
    assert_eq!(outcome.reason, Some(AutosendFailureReason::NoSafeTarget));
    assert_eq!(&*events.borrow(), &["copy"]);
}

#[test]
fn focus_preserving_sequence_stops_before_second_paste_when_frontmost_changed() {
    let target = prompt_target("WeChat", "com.tencent.xinWeChat", Some(123));
    let events = RefCell::new(Vec::new());
    let bodies = vec!["one".to_string(), "two".to_string()];
    let mut frontmost = VecDeque::from([
        frontmost_target("WeChat", "com.tencent.xinWeChat", Some(123)),
        frontmost_target("WeChat", "com.tencent.xinWeChat", Some(123)),
        frontmost_target("Notes", "com.apple.Notes", Some(9)),
    ]);

    let outcome = focus_preserving_prompt_sequence_for_target_with_senders(
        &bodies,
        700,
        &target,
        NativeSubmitKey::Enter,
        &mut |_: &str| {
            events.borrow_mut().push("copy");
            Ok(())
        },
        &mut || frontmost.pop_front(),
        &mut |_: &PromptPickSessionTarget<ClickPoint>| Err("repair unavailable".to_string()),
        &mut || {
            events.borrow_mut().push("paste");
            Ok(())
        },
        &mut |_: NativeSubmitKey| {
            events.borrow_mut().push("submit");
            Ok(())
        },
        &mut |_: u64| events.borrow_mut().push("sleep"),
        &mut Vec::new(),
    );

    assert!(!outcome.sent);
    assert_eq!(outcome.sent_count, 1);
    assert_eq!(outcome.failed_index, Some(2));
    assert_eq!(outcome.reason, Some(AutosendFailureReason::NoSafeTarget));
    assert_eq!(
        &*events.borrow(),
        &["copy", "paste", "sleep", "submit", "sleep", "copy"]
    );
}

#[test]
fn focus_preserving_sequence_skips_submit_when_frontmost_changes_after_paste() {
    let target = prompt_target("WeChat", "com.tencent.xinWeChat", Some(123));
    let events = RefCell::new(Vec::new());
    let bodies = vec!["one".to_string()];
    let mut frontmost = VecDeque::from([
        frontmost_target("WeChat", "com.tencent.xinWeChat", Some(123)),
        frontmost_target("Notes", "com.apple.Notes", Some(9)),
    ]);

    let outcome = focus_preserving_prompt_sequence_for_target_with_senders(
        &bodies,
        700,
        &target,
        NativeSubmitKey::Enter,
        &mut |_: &str| {
            events.borrow_mut().push("copy");
            Ok(())
        },
        &mut || frontmost.pop_front(),
        &mut |_: &PromptPickSessionTarget<ClickPoint>| Err("repair unavailable".to_string()),
        &mut || {
            events.borrow_mut().push("paste");
            Ok(())
        },
        &mut |_: NativeSubmitKey| {
            events.borrow_mut().push("submit");
            Ok(())
        },
        &mut |_: u64| events.borrow_mut().push("sleep"),
        &mut Vec::new(),
    );

    assert!(!outcome.sent);
    assert_eq!(outcome.sent_count, 0);
    assert_eq!(outcome.failed_index, Some(1));
    assert_eq!(outcome.reason, Some(AutosendFailureReason::ReturnEventFailed));
    assert_eq!(&*events.borrow(), &["copy", "paste", "sleep"]);
}

#[test]
fn autosend_without_last_target_copies_without_sending() {
    let mut state = Session::new();
    let result = paste_prompt_and_submit_to_session_target_with_senders(
        "hello",
        &mut state,
        None,
        NativeSubmitKey::Enter,
        |_: &str, _: &str, _: Option<ClickPoint>, _: NativeSubmitKey| -> AutosendOutcome {
            panic!("app sender must not run without a target")
        },
        |body: &str| {
            assert_eq!(body, "hello");
            Ok(())
        },
        no_launch,
        true,
        NOW_MS,
    );

    let outcome = result.unwrap();
    assert!(outcome.copied);
    assert!(!outcome.sent);
    assert_eq!(outcome.reason, Some(AutosendFailureReason::NoSafeTarget));
}

#[test]
fn autosend_falls_back_to_recent_target_when_prompt_session_is_not_ready() {
    let mut session_state = Session::new();
    let mut recent_state = Recent::new();
    recent_state.set(LastInputTarget {
        app: FrontmostApp {
            name: "Codex".to_string(),
            bundle_id: "com.openai.codex".to_string(),
        },
        pid: None,
        observed_at_ms: NOW_MS,
        click_point: Some(ClickPoint { x: 640.0, y: 720.0 }),
    });

    let result = paste_prompt_and_submit_to_session_target_with_senders(
        "hello",
        &mut session_state,
        Some(&recent_state),
        NativeSubmitKey::Enter,
        |body: &str, bundle_id: &str, click_point: Option<ClickPoint>, submit_key: NativeSubmitKey| {
            assert_eq!(body, "hello");
            assert_eq!(bundle_id, "com.openai.codex");
            assert_eq!(click_point.unwrap().x, 640.0);
            assert_eq!(submit_key, NativeSubmitKey::Enter);
            AutosendOutcome::sent()
        },
        |_: &str| panic!("copy sender must not run when recent target is usable"),
        no_launch,
        true,
        NOW_MS,
    );

    let outcome = result.unwrap();
    assert!(outcome.sent);
    assert!(session_state.get().is_none());
}

#[test]
fn autosend_refuses_a_captured_target_whose_process_restarted() {
    let mut session_state = Session::new();
    session_state.begin(1);
    let identity = CapturedTargetIdentity::<Frame> {
        application: TargetApplicationIdentity {
            bundle_id: "com.openai.codex".to_string(),
            main_pid: 42,
            launch_identity: ProcessLaunchIdentity {
                seconds: 100,
                microseconds: 1,
            },
        },
        window: None,
    };
    assert!(session_state.set_captured_if_current(1, prompt_target("Codex", "com.openai.codex", Some(42)), identity));

    let result = paste_prompt_and_submit_to_session_target_with_senders(
        "hello",
        &mut session_state,
        None,
        NativeSubmitKey::Enter,
        |_: &str, _: &str, _: Option<ClickPoint>, _: NativeSubmitKey| -> AutosendOutcome {
            panic!("a restarted process must not receive the prompt")
        },
        |_: &str| Ok(()),
        |pid: u32| {
            assert_eq!(pid, 42);
            Some(ProcessLaunchIdentity {
                seconds: 200,
                microseconds: 1,
            })
        },
        true,
        NOW_MS,
    );

    let outcome = result.unwrap();
    assert!(!outcome.copied);
    assert!(!outcome.sent);
    assert_eq!(outcome.reason, Some(AutosendFailureReason::NoSafeTarget));
    assert_eq!(
        outcome.error.as_deref(),
        Some("The captured target app or window is no longer available.")
    );
}

#[test]
fn autosend_session_target_uses_app_sender_with_click_point() {
    let mut state = Session::new();
    state.set(PromptPickSessionTarget {
        app: FrontmostApp {
            name: "WeChat".to_string(),
            bundle_id: "com.tencent.xinWeChat".to_string(),
        },
        pid: None,
        observed_at_ms: 123,
        click_point: Some(ClickPoint { x: 420.0, y: 720.0 }),
    });

    let result = paste_prompt_and_submit_to_session_target_with_senders(
        "hello",
        &mut state,
        None,
        NativeSubmitKey::Enter,
        |body: &str, bundle_id: &str, click_point: Option<ClickPoint>, submit_key: NativeSubmitKey| {
            assert_eq!(body, "hello");
            assert_eq!(bundle_id, "com.tencent.xinWeChat");
            assert_eq!(click_point.unwrap().y, 720.0);
            assert_eq!(submit_key, NativeSubmitKey::Enter);
            AutosendOutcome::sent()
        },
        |_: &str| panic!("copy sender must not run for a safe app-only target"),
        no_launch,
        true,
        NOW_MS,
    );

    let outcome = result.unwrap();
    assert!(outcome.copied);
    assert!(outcome.sent);
    assert!(state.get().is_none());
}

#[test]
fn autosend_session_target_does_not_use_click_point() {
    let mut state = Session::new();
    state.set(prompt_target("Codex", "com.openai.codex", None));

    let result = paste_prompt_and_submit_to_session_target_with_senders(
        "hello",
        &mut state,
        None,
        NativeSubmitKey::Enter,
        |body: &str, bundle_id: &str, click_point: Option<ClickPoint>, submit_key: NativeSubmitKey| {
            assert_eq!(body, "hello");
            assert_eq!(bundle_id, "com.openai.codex");
            assert!(click_point.is_none());
            assert_eq!(submit_key, NativeSubmitKey::Enter);
            AutosendOutcome::sent()
        },
        |_: &str| panic!("copy sender must not run when a click point exists"),
        no_launch,
        true,
        NOW_MS,
    );

    let outcome = result.unwrap();
    assert!(outcome.copied);
    assert!(outcome.sent);
}

#[test]
fn autosend_reports_app_sender_failure_without_returning_err() {
    let mut state = Session::new();
    state.set(prompt_target("Codex", "com.openai.codex", None));

    let result = paste_prompt_and_submit_to_session_target_with_senders(
        "hello",
        &mut state,
        None,
        NativeSubmitKey::Enter,
        |_: &str, _: &str, _: Option<ClickPoint>, _: NativeSubmitKey| {
            AutosendOutcome::paste_event_failed("app paste failed".to_string())
        },
        |_: &str| panic!("copy sender must not run when a click point exists"),
        no_launch,
        true,
        NOW_MS,
    );

    let outcome = result.unwrap();
    assert!(outcome.copied);
    assert!(!outcome.sent);
    assert_eq!(outcome.error.as_deref(), Some("app paste failed"));
    assert_eq!(outcome.reason, Some(AutosendFailureReason::PasteEventFailed));
}

#[test]
fn unsafe_session_target_is_refused_and_prompt_copied() {
    let mut state = Session::new();
    state.set(prompt_target("Finder", "com.apple.finder", None));

    let outcome = paste_prompt_and_submit_to_session_target_with_senders(
        "hello",
        &mut state,
        None,
        NativeSubmitKey::Enter,
        |_: &str, _: &str, _: Option<ClickPoint>, _: NativeSubmitKey| -> AutosendOutcome {
            panic!("an unsafe target must not receive the prompt")
        },
        |_: &str| Ok(()),
        no_launch,
        true,
        NOW_MS,
    )
    .unwrap();

    assert!(outcome.copied);
    assert!(!outcome.sent);
    assert_eq!(outcome.reason, Some(AutosendFailureReason::NoSafeTarget));
    assert_eq!(outcome.error.as_deref(), Some("Target app is not safe for autosend."));
}

#[test]
fn autosend_sequence_uses_one_session_target_for_all_bodies() {
    let mut state = Session::new();
    state.set(prompt_target("WeChat", "com.tencent.xinWeChat", None));
    let bodies = vec!["one".to_string(), "two".to_string(), "three".to_string()];
    let mut sent: Vec<(String, String)> = Vec::new();
    let mut sleeps = Vec::new();

    let result = paste_prompt_sequence_and_submit_to_session_target_with_senders(
        &bodies,
        700,
        &mut state,
        None,
        NativeSubmitKey::Enter,
        &mut |body: &str, bundle_id: &str, _: Option<ClickPoint>, submit_key: NativeSubmitKey| {
            assert_eq!(submit_key, NativeSubmitKey::Enter);
            sent.push((body.to_string(), bundle_id.to_string()));
            AutosendOutcome::sent()
        },
        |_: &str| panic!("copy sender must not run when target exists"),
        &mut |delay_ms: u64| sleeps.push(delay_ms),
        no_launch,
        true,
        NOW_MS,
    )
    .unwrap();

    assert!(result.sent);
    assert_eq!(result.sent_count, 3);
    assert!(state.get().is_none());
    assert_eq!(
        sent,
        vec![
            ("one".to_string(), "com.tencent.xinWeChat".to_string()),
            ("two".to_string(), "com.tencent.xinWeChat".to_string()),
            ("three".to_string(), "com.tencent.xinWeChat".to_string()),
        ]
    );
    assert_eq!(sleeps, vec![700, 700]);
}

#[test]
fn paste_only_sequence_joins_bodies_and_reports_processed_without_submit() {
    let mut state = Session::new();
    state.set(prompt_target("Codex", "com.openai.codex", Some(77)));
    let bodies = vec!["first".to_string(), "second".to_string()];
    let outcome = paste_prompt_sequence_and_submit_to_session_target_with_senders(
        &bodies,
        700,
        &mut state,
        None,
        NativeSubmitKey::NoKey,
        &mut |body: &str, bundle_id: &str, _: Option<ClickPoint>, submit_key: NativeSubmitKey| {
            assert_eq!(body, "first\n\nsecond");
            assert_eq!(bundle_id, "com.openai.codex");
            assert_eq!(submit_key, NativeSubmitKey::NoKey);
            AutosendOutcome::pasted_only()
        },
        |_: &str| panic!("copy fallback must not run"),
        &mut |_: u64| panic!("joined paste-only group must not sleep between bodies"),
        no_launch,
        true,
        NOW_MS,
    )
    .unwrap();

    assert!(!outcome.sent);
    assert_eq!(outcome.sent_count, 0);
    assert_eq!(outcome.processed_count, 2);
    assert_eq!(outcome.completion, Some(AutosendCompletion::PastedOnly));
    assert_eq!(outcome.failed_index, None);
}

#[test]
fn autosend_sequence_clamps_interval_to_milliseconds_range() {
    let mut state = Session::new();
    state.set(prompt_target("Codex", "com.openai.codex", None));
    let bodies = vec!["one".to_string(), "two".to_string()];
    let mut sleeps = Vec::new();

    paste_prompt_sequence_and_submit_to_session_target_with_senders(
        &bodies,
        10,
        &mut state,
        None,
        NativeSubmitKey::Enter,
        &mut |_: &str, _: &str, _: Option<ClickPoint>, _: NativeSubmitKey| AutosendOutcome::sent(),
        |_: &str| panic!("copy sender must not run when target exists"),
        &mut |delay_ms: u64| sleeps.push(delay_ms),
        no_launch,
        true,
        NOW_MS,
    )
    .unwrap();

    assert_eq!(sleeps, vec![MIN_SEQUENCE_INTERVAL_MS]);
}

#[test]
fn autosend_sequence_stops_at_first_failed_body() {
    let mut state = Session::new();
    state.set(prompt_target("Codex", "com.openai.codex", None));
    let bodies = vec!["one".to_string(), "two".to_string(), "three".to_string()];
    let mut sent = Vec::new();
    let mut sleeps = Vec::new();

    let result = paste_prompt_sequence_and_submit_to_session_target_with_senders(
        &bodies,
        700,
        &mut state,
        None,
        NativeSubmitKey::Enter,
        &mut |body: &str, _: &str, _: Option<ClickPoint>, _: NativeSubmitKey| {
            sent.push(body.to_string());
            if body == "two" {
                return AutosendOutcome::paste_event_failed("paste failed".to_string());
            }
            AutosendOutcome::sent()
        },
        |_: &str| panic!("copy sender must not run when target exists"),
        &mut |delay_ms: u64| sleeps.push(delay_ms),
        no_launch,
        true,
        NOW_MS,
    )
    .unwrap();

    assert!(!result.sent);
    assert_eq!(result.sent_count, 1);
    assert_eq!(result.failed_index, Some(2));
    assert_eq!(sent, vec!["one".to_string(), "two".to_string()]);
    assert_eq!(sleeps, vec![700]);
}

#[test]
fn autosend_sequence_without_target_copies_first_body_without_sending() {
    let mut state = Session::new();
    let bodies = vec!["one".to_string(), "two".to_string()];
    let mut copied = String::new();

    let result = paste_prompt_sequence_and_submit_to_session_target_with_senders(
        &bodies,
        700,
        &mut state,
        None,
        NativeSubmitKey::Enter,
        &mut |_: &str, _: &str, _: Option<ClickPoint>, _: NativeSubmitKey| -> AutosendOutcome {
            panic!("app sender must not run without target")
        },
        |body: &str| {
            copied = body.to_string();
            Ok(())
        },
        &mut |_: u64| panic!("sleeper must not run without target"),
        no_launch,
        true,
        NOW_MS,
    )
    .unwrap();

    assert_eq!(copied, "one");
    assert!(!result.sent);
    assert_eq!(result.sent_count, 0);
    assert_eq!(result.failed_index, Some(1));
    assert_eq!(result.reason, Some(AutosendFailureReason::NoSafeTarget));
}

#[test]
fn autosend_sequence_falls_back_to_recent_target_when_prompt_session_is_not_ready() {
    let mut session_state = Session::new();
    let mut recent_state = Recent::new();
    recent_state.set(LastInputTarget {
        app: FrontmostApp {
            name: "WeChat".to_string(),
            bundle_id: "com.tencent.xinWeChat".to_string(),
        },
        pid: None,
        observed_at_ms: NOW_MS,
        click_point: None,
    });
    let bodies = vec!["one".to_string(), "two".to_string()];
    let mut sent = Vec::new();

    let result = paste_prompt_sequence_and_submit_to_session_target_with_senders(
        &bodies,
        700,
        &mut session_state,
        Some(&recent_state),
        NativeSubmitKey::Enter,
        &mut |body: &str, bundle_id: &str, click_point: Option<ClickPoint>, submit_key: NativeSubmitKey| {
            assert_eq!(submit_key, NativeSubmitKey::Enter);
            sent.push((body.to_string(), bundle_id.to_string(), click_point));
            AutosendOutcome::sent()
        },
        |_: &str| panic!("copy sender must not run when recent target is usable"),
        &mut |_: u64| {},
        no_launch,
        true,
        NOW_MS,
    )
    .unwrap();

    assert!(result.sent);
    assert_eq!(result.sent_count, 2);
    assert_eq!(sent.len(), 2);
    assert_eq!(sent[0].1, "com.tencent.xinWeChat");
    assert!(sent[0].2.is_none());
}

#[test]
fn guarded_delivery_to_last_target_checks_permission_first() {
    let mut state = Session::new();
    state.set(prompt_target("WeChat", "com.tencent.xinWeChat", Some(123)));

    let outcome = focus_preserving_prompt_to_last_target_impl(
        "hello",
        &mut state,
        None,
        NativeSubmitKey::Enter,
        &mut |_: &str| panic!("nothing is copied without permission"),
        &mut || panic!("nothing is read without permission"),
        &mut |_: &PromptPickSessionTarget<ClickPoint>| panic!("nothing is recovered without permission"),
        &mut || panic!("nothing is pasted without permission"),
        &mut |_: NativeSubmitKey| panic!("nothing is submitted without permission"),
        &mut |_: u64| {},
        &mut Vec::new(),
        || false,
        no_launch,
        true,
        NOW_MS,
    )
    .unwrap();

    assert!(!outcome.copied);
    assert_eq!(
        outcome.reason,
        Some(AutosendFailureReason::MissingAccessibilityPermission)
    );
}

#[test]
fn submit_key_parser_accepts_known_values() {
    assert_eq!(native_submit_key_from_arg(None).unwrap(), NativeSubmitKey::Enter);
    assert_eq!(
        native_submit_key_from_arg(Some("none".to_string())).unwrap(),
        NativeSubmitKey::NoKey
    );
    assert_eq!(
        native_submit_key_from_arg(Some("command_enter".to_string())).unwrap(),
        NativeSubmitKey::CommandEnter
    );
}

#[test]
fn submit_key_parser_rejects_unknown_values() {
    assert_eq!(
        native_submit_key_from_arg(Some("space".to_string())).unwrap_err(),
        "Invalid submit key: space"
    );
}

#[test]
fn sequence_interval_is_clamped_between_bounds() {
    assert_eq!(clamp_sequence_interval_ms(0), 200);
    assert_eq!(clamp_sequence_interval_ms(700), 700);
    assert_eq!(clamp_sequence_interval_ms(10_000), 3000);
}

#[test]
fn bodies_are_trimmed_and_empty_ones_dropped_before_joining() {
    let bodies = vec![" one ".to_string(), "   ".to_string(), "two\n".to_string()];
    let cleaned = clean_bodies(&bodies);

    assert_eq!(cleaned, vec!["one".to_string(), "two".to_string()]);
    assert_eq!(join_with(&cleaned, "\n\n"), "one\n\ntwo");
    assert_eq!(join_with(&Vec::new(), "\n\n"), "");
}

#[test]
fn copy_without_sending_reports_copy_failure() {
    let outcome = copy_without_sending("hello", |_: &str| Err("no clipboard".to_string()), "unused");

    assert!(!outcome.copied);
    assert_eq!(outcome.reason, Some(AutosendFailureReason::CopyFailed));
    assert_eq!(outcome.error.as_deref(), Some("no clipboard"));
}

#[test]
fn guarded_delivery_records_one_diagnostic_line_per_stage() {
    let target = prompt_target("WeChat", "com.tencent.xinWeChat", Some(123));
    let mut frontmost = VecDeque::from([
        frontmost_target("Prompt Drawer", "local.promptpicker.dev", Some(1)),
        frontmost_target("WeChat", "com.tencent.xinWeChat", Some(123)),
        frontmost_target("WeChat", "com.tencent.xinWeChat", Some(123)),
    ]);
    let mut diagnostics: Vec<String> = vec!["earlier".to_string()];

    let outcome = guarded_focus_preserving_autosend_with_senders(
        "secret prompt text",
        &target,
        NativeSubmitKey::Enter,
        &mut |_: &str| Ok(()),
        &mut || frontmost.pop_front(),
        &mut |_: &PromptPickSessionTarget<ClickPoint>| Ok(()),
        &mut || Ok(()),
        &mut |_: NativeSubmitKey| Ok(()),
        &mut |_: u64| {},
        &mut diagnostics,
    );

    assert!(outcome.sent);
    assert_eq!(
        diagnostics,
        vec![
            "earlier".to_string(),
            "prompt-picker-autosend stage=before-paste target=com.tencent.xinWeChat has_click_point=false frontmost=local.promptpicker.dev classification=PromptPicker".to_string(),
            "prompt-picker-autosend stage=post-recovery-target target=com.tencent.xinWeChat has_click_point=false frontmost=com.tencent.xinWeChat classification=Target".to_string(),
            "prompt-picker-autosend stage=sent target=com.tencent.xinWeChat has_click_point=false frontmost=com.tencent.xinWeChat classification=unknown".to_string(),
        ]
    );
    assert!(diagnostics.iter().all(|line| !line.contains("secret prompt text")));
}

#[test]
fn guarded_delivery_diagnoses_a_refused_other_application() {
    let target = prompt_target("Codex", "com.openai.codex", Some(42));
    let mut diagnostics: Vec<String> = Vec::new();

    let outcome = guarded_focus_preserving_autosend_with_senders(
        "hello",
        &target,
        NativeSubmitKey::Enter,
        &mut |_: &str| Ok(()),
        &mut || Some(frontmost_target("Notes", "com.apple.Notes", Some(9))),
        &mut |_: &PromptPickSessionTarget<ClickPoint>| panic!("no recovery from another app"),
        &mut || panic!("no paste into another app"),
        &mut |_: NativeSubmitKey| panic!("no submit into another app"),
        &mut |_: u64| {},
        &mut diagnostics,
    );

    assert!(!outcome.sent);
    assert_eq!(outcome.reason, Some(AutosendFailureReason::NoSafeTarget));
    assert_eq!(diagnostics.len(), 2);
    assert!(diagnostics[1].contains("stage=other-or-unknown"));
    assert!(diagnostics[1].contains("frontmost=com.apple.Notes"));
}
