use sleepy_cat::platform::macos::autosend_transaction::{
    run_transaction, AutosendPhase, TransactionFailure, TransactionMachine, TransactionOp,
};
use sleepy_cat::platform::macos::ax_client::AxQueryError;
use sleepy_cat::platform::macos::ax_diagnostics::{
    diagnostics_enabled, manual_accessibility_comparison_enabled, stable_hash,
    DiagnosticTargetSelector,
};
use sleepy_cat::platform::macos::focus_controller::{
    focus_and_verify, FocusError, FocusFrontmost, FocusOptions,
};
use sleepy_cat::platform::macos::input_profiles::{
    input_capability_profile, InputCapabilityProfile, ManualAccessibilityPolicy,
    WindowIdentityRequirement,
};
use sleepy_cat::platform::macos::process_group::{process_is_descendant, ProcessScope};
use sleepy_cat::platform::macos::NativeSubmitKey;
use std::cell::{Cell, RefCell};
use std::collections::VecDeque;

fn options() -> FocusOptions {
    FocusOptions {
        max_polls: 6,
        stable_reads: 2,
        click_fallback_permitted: false,
        candidate_contains_text: false,
        caret_policy_proven: false,
    }
}

#[test]
fn focus_controller_preserves_already_focused_composer() {
    let set_calls = Cell::new(0);
    let result = focus_and_verify(
        options(),
        || FocusFrontmost::Target,
        || true,
        || true,
        || {
            set_calls.set(set_calls.get() + 1);
            true
        },
        || true,
        || false,
        || false,
        || {},
    );

    assert_eq!(result, Ok(()));
    assert_eq!(set_calls.get(), 0);
}

#[test]
fn focus_controller_requires_exact_stable_readback() {
    let mut reads = VecDeque::from([false, false, true, true]);
    let result = focus_and_verify(
        options(),
        || FocusFrontmost::Target,
        || true,
        || true,
        || true,
        || reads.pop_front().unwrap_or(false),
        || false,
        || false,
        || {},
    );
    assert_eq!(result, Ok(()));
}

#[test]
fn focus_controller_rejects_focus_that_moves_to_another_field() {
    let result = focus_and_verify(
        options(),
        || FocusFrontmost::Target,
        || true,
        || true,
        || true,
        || false,
        || false,
        || false,
        || {},
    );
    assert_eq!(result, Err(FocusError::FocusRejected));
}

#[test]
fn focus_controller_aborts_when_user_switches_to_third_app() {
    let result = focus_and_verify(
        options(),
        || FocusFrontmost::Other,
        || panic!("must not activate"),
        || panic!("must not raise"),
        || panic!("must not focus"),
        || false,
        || false,
        || false,
        || {},
    );
    assert_eq!(result, Err(FocusError::UserSwitchedApplication));
}

#[test]
fn click_fallback_requires_hit_test_and_known_caret_policy() {
    let mut click_options = options();
    click_options.click_fallback_permitted = true;
    click_options.candidate_contains_text = true;
    assert_eq!(
        focus_and_verify(
            click_options,
            || FocusFrontmost::Target,
            || true,
            || true,
            || false,
            || false,
            || true,
            || true,
            || {},
        ),
        Err(FocusError::ExistingTextCaretUnknown)
    );

    let mut click_options = options();
    click_options.click_fallback_permitted = true;
    assert_eq!(
        focus_and_verify(
            click_options,
            || FocusFrontmost::Target,
            || true,
            || true,
            || false,
            || false,
            || false,
            || true,
            || {},
        ),
        Err(FocusError::ClickNotVerified)
    );
}

#[test]
fn prompt_drawer_frontmost_activates_and_raises_exact_window() {
    let activated = Cell::new(false);
    let raised = Cell::new(false);
    let result = focus_and_verify(
        options(),
        || FocusFrontmost::PromptDrawer,
        || {
            activated.set(true);
            true
        },
        || {
            raised.set(true);
            true
        },
        || true,
        || true,
        || false,
        || false,
        || {},
    );
    assert_eq!(result, Ok(()));
    assert!(activated.get());
    assert!(raised.get());
}

#[test]
fn failed_activation_of_the_target_stops_focusing() {
    let result = focus_and_verify(
        options(),
        || FocusFrontmost::PromptDrawer,
        || false,
        || panic!("must not raise after a failed activation"),
        || panic!("must not focus after a failed activation"),
        || true,
        || false,
        || false,
        || {},
    );
    assert_eq!(result, Err(FocusError::ActivationFailed));
}

#[test]
fn verified_click_with_stable_readback_acquires_focus() {
    let mut reads = VecDeque::from([false, false, true, true]);
    let mut click_options = options();
    click_options.click_fallback_permitted = true;
    let result = focus_and_verify(
        click_options,
        || FocusFrontmost::Target,
        || true,
        || true,
        || false,
        || reads.pop_front().unwrap_or(false),
        || true,
        || true,
        || {},
    );
    assert_eq!(result, Ok(()));
}

#[test]
fn input_profiles_keep_codex_and_unknown_apps_on_compatibility_routes() {
    assert_eq!(
        input_capability_profile("com.openai.codex", None),
        InputCapabilityProfile::CodexFirstResponder
    );
    assert_eq!(
        input_capability_profile("com.apple.Notes", None),
        InputCapabilityProfile::LegacyCapturedTarget
    );
}

#[test]
fn claude_and_wechat_require_exact_windows_with_proven_process_scopes() {
    let InputCapabilityProfile::Accessibility(claude) =
        input_capability_profile("com.anthropic.claudefordesktop", Some("1.18286.0"))
    else {
        panic!("the desktop assistant should use accessibility");
    };
    assert_eq!(claude.process_scope, ProcessScope::MainOnly);
    assert_eq!(claude.window_identity, WindowIdentityRequirement::Required);
    assert_eq!(
        claude.manual_accessibility,
        ManualAccessibilityPolicy::OnlyWhenTreeSparse
    );

    let InputCapabilityProfile::Accessibility(wechat) =
        input_capability_profile("com.tencent.xinWeChat", Some("4.1.2"))
    else {
        panic!("WeChat should use accessibility");
    };
    assert_eq!(
        wechat.process_scope,
        ProcessScope::MainAndValidatedBrowserApplications
    );
    assert_eq!(wechat.window_identity, WindowIdentityRequirement::Required);
}

#[test]
fn accessibility_profiles_never_guess_or_select_web_areas_and_forbid_search() {
    for (bundle_id, version) in [
        ("com.anthropic.claudefordesktop", "1.18286.0"),
        ("com.tencent.xinWeChat", "4.1.2"),
    ] {
        let InputCapabilityProfile::Accessibility(profile) =
            input_capability_profile(bundle_id, Some(version))
        else {
            panic!("expected accessibility profile");
        };
        assert!(profile.forbidden_subroles.contains(&"AXSearchField"));
        assert!(!profile.allowed_roles.contains(&"AXWebArea"));
        assert!(!profile.permits_coordinate_guess);
        assert!(!profile.permits_web_area_composer);
        assert!(profile.permits_submit());
    }
}

#[test]
fn unknown_target_versions_cannot_enter_submit_phase() {
    for bundle_id in ["com.anthropic.claudefordesktop", "com.tencent.xinWeChat"] {
        let InputCapabilityProfile::Accessibility(profile) =
            input_capability_profile(bundle_id, Some("99.0"))
        else {
            panic!("expected accessibility profile");
        };
        assert!(!profile.permits_submit());
    }
}

#[test]
fn uncalibrated_patch_versions_cannot_inherit_submit_evidence() {
    for (bundle_id, version) in [
        ("com.anthropic.claudefordesktop", "1.18286.1"),
        ("com.tencent.xinWeChat", "4.1.3"),
    ] {
        let InputCapabilityProfile::Accessibility(profile) =
            input_capability_profile(bundle_id, Some(version))
        else {
            panic!("expected accessibility profile");
        };
        assert!(!profile.permits_submit());
    }
}

#[test]
fn maps_accessibility_errors_without_panicking() {
    assert_eq!(AxQueryError::from_code(-25202), AxQueryError::InvalidElement);
    assert_eq!(AxQueryError::from_code(-25204), AxQueryError::CannotComplete);
    assert_eq!(AxQueryError::from_code(-25205), AxQueryError::Unsupported);
    assert_eq!(AxQueryError::from_code(17), AxQueryError::Other(17));
    assert_eq!(AxQueryError::TimedOut, AxQueryError::TimedOut);
}

#[test]
fn diagnostics_are_disabled_unless_explicitly_enabled() {
    assert!(!diagnostics_enabled(None));
    assert!(!diagnostics_enabled(Some("0")));
    assert!(diagnostics_enabled(Some("1")));
}

#[test]
fn manual_accessibility_comparison_requires_separate_opt_in() {
    assert!(!manual_accessibility_comparison_enabled(Some("1"), None));
    assert!(!manual_accessibility_comparison_enabled(None, Some("1")));
    assert!(manual_accessibility_comparison_enabled(Some("1"), Some("1")));
}

#[test]
fn diagnostic_target_requires_bundle_id_and_valid_numbers() {
    assert!(DiagnosticTargetSelector::from_values(None, None, None).is_err());
    assert!(DiagnosticTargetSelector::from_values(Some("com.test"), Some("no"), None).is_err());
    assert!(DiagnosticTargetSelector::from_values(Some("com.test"), None, Some("no")).is_err());

    assert_eq!(
        DiagnosticTargetSelector::from_values(Some("com.test"), Some("42"), Some("1500")).unwrap(),
        DiagnosticTargetSelector {
            bundle_id: "com.test".to_string(),
            pid: Some(42),
            wait_ms: 1500,
        }
    );
}

#[test]
fn stable_hash_is_sixteen_hex_digits_of_fnv1a() {
    assert_eq!(stable_hash(""), "cbf29ce484222325");
    assert_eq!(stable_hash("a"), "af63dc4c8601ec8c");
    assert_eq!(stable_hash("a"), stable_hash("a"));
    assert_ne!(stable_hash("a"), stable_hash("b"));
}

#[test]
fn process_group_follows_parents_to_the_ancestor() {
    let processes = vec![(10, 1), (20, 10), (30, 20), (40, 1)];

    assert!(process_is_descendant(30, 10, &processes));
    assert!(!process_is_descendant(40, 10, &processes));
    assert!(!process_is_descendant(99, 10, &processes));
}

#[test]
fn autosend_transaction_orders_focus_before_clipboard_and_paste() {
    let events = RefCell::new(Vec::new());
    let result = run_transaction(
        NativeSubmitKey::Enter,
        || {
            events.borrow_mut().push("validate");
            true
        },
        || {
            events.borrow_mut().push("resolve");
            true
        },
        || {
            events.borrow_mut().push("focus");
            true
        },
        || {
            events.borrow_mut().push("copy");
            true
        },
        || {
            events.borrow_mut().push("verify-focus");
            true
        },
        || {
            events.borrow_mut().push("paste");
            true
        },
        || {
            events.borrow_mut().push("verify-paste");
            true
        },
        |_: NativeSubmitKey| {
            events.borrow_mut().push("submit");
            true
        },
    );
    assert_eq!(result.failure, None);
    let events = events.borrow();
    assert!(
        events.iter().position(|event| *event == "focus").unwrap()
            < events.iter().position(|event| *event == "copy").unwrap()
    );
    assert!(
        events.iter().position(|event| *event == "copy").unwrap()
            < events.iter().position(|event| *event == "paste").unwrap()
    );
}

#[test]
fn pre_paste_failure_changes_neither_clipboard_nor_keyboard() {
    let copy = Cell::new(0);
    let paste = Cell::new(0);
    let submit = Cell::new(0);
    let result = run_transaction(
        NativeSubmitKey::Enter,
        || false,
        || true,
        || true,
        || {
            copy.set(copy.get() + 1);
            true
        },
        || true,
        || {
            paste.set(paste.get() + 1);
            true
        },
        || true,
        |_: NativeSubmitKey| {
            submit.set(submit.get() + 1);
            true
        },
    );
    assert_eq!(result.failure, Some(TransactionFailure::TargetChanged));
    assert_eq!((copy.get(), paste.get(), submit.get()), (0, 0, 0));
}

#[test]
fn paste_unknown_is_not_retried_and_never_submits() {
    let paste = Cell::new(0);
    let submit = Cell::new(0);
    let result = run_transaction(
        NativeSubmitKey::Enter,
        || true,
        || true,
        || true,
        || true,
        || true,
        || {
            paste.set(paste.get() + 1);
            true
        },
        || false,
        |_: NativeSubmitKey| {
            submit.set(submit.get() + 1);
            true
        },
    );
    assert_eq!(result.failure, Some(TransactionFailure::PasteNotConfirmed));
    assert_eq!(paste.get(), 1);
    assert_eq!(submit.get(), 0);
}

#[test]
fn paste_only_structurally_skips_verification_and_submit() {
    let verify_paste = Cell::new(0);
    let submit = Cell::new(0);
    let result = run_transaction(
        NativeSubmitKey::NoKey,
        || true,
        || true,
        || true,
        || true,
        || true,
        || true,
        || {
            verify_paste.set(verify_paste.get() + 1);
            false
        },
        |_: NativeSubmitKey| {
            submit.set(submit.get() + 1);
            true
        },
    );
    assert_eq!(result.failure, None);
    assert!(result.paste_posted);
    assert!(!result.submit_posted);
    assert_eq!((verify_paste.get(), submit.get()), (0, 0));
    assert!(!result.phases.contains(&AutosendPhase::Submit));
}

#[test]
fn frontmost_or_session_change_cancels_before_submit() {
    let validation_count = Cell::new(0);
    let submit = Cell::new(0);
    let result = run_transaction(
        NativeSubmitKey::Enter,
        || {
            validation_count.set(validation_count.get() + 1);
            validation_count.get() < 3
        },
        || true,
        || true,
        || true,
        || true,
        || true,
        || true,
        |_: NativeSubmitKey| {
            submit.set(submit.get() + 1);
            true
        },
    );

    assert_eq!(result.failure, Some(TransactionFailure::TargetChanged));
    assert_eq!(submit.get(), 0);
    assert!(result.paste_posted);
}

#[test]
fn repeated_fixture_transactions_never_duplicate_paste_or_submit() {
    for submit_key in [NativeSubmitKey::NoKey, NativeSubmitKey::Enter] {
        for _ in 0..100 {
            let paste = Cell::new(0);
            let submit = Cell::new(0);
            let result = run_transaction(
                submit_key,
                || true,
                || true,
                || true,
                || true,
                || true,
                || {
                    paste.set(paste.get() + 1);
                    true
                },
                || true,
                |_: NativeSubmitKey| {
                    submit.set(submit.get() + 1);
                    true
                },
            );
            assert_eq!(result.failure, None);
            assert_eq!(paste.get(), 1);
            assert_eq!(
                submit.get(),
                if submit_key == NativeSubmitKey::NoKey {
                    0
                } else {
                    1
                }
            );
        }
    }
}

#[test]
fn transaction_machine_names_the_next_operation_in_order() {
    let mut machine = TransactionMachine::new(NativeSubmitKey::NoKey);
    let mut ops = Vec::new();
    while let Some(op) = machine.next_op() {
        ops.push(op);
        machine.advance(true);
    }
    assert_eq!(
        ops,
        vec![
            TransactionOp::ValidateTarget,
            TransactionOp::ResolveComposer,
            TransactionOp::FocusComposer,
            TransactionOp::RevalidateFocus,
            TransactionOp::WriteClipboard,
            TransactionOp::ValidateTarget,
            TransactionOp::RevalidateFocus,
            TransactionOp::PostPaste,
        ]
    );
    let result = machine.into_result();
    assert_eq!(result.failure, None);
    assert!(result.clipboard_written);
    assert_eq!(result.phases.last(), Some(&AutosendPhase::Complete));
}
