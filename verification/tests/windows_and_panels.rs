use sleepy_cat::macos_panels::{
    format_panel_key_behavior_report, option_bool_label, panel_class_action_for_name,
    PanelClassAction, PanelKeyBehaviorReport,
};
use sleepy_cat::windows::{
    finish_popover_mode_request, popover_toggle_action, popover_window_action,
    should_close_prompt_popover_on_toggle, should_reuse_popover,
    should_use_transparent_popover_window, PopoverModeRequestState, PopoverModeWait,
    PopoverToggleAction, PopoverWindowAction, BUTTON_INPUT_WINDOW_LABEL,
    BUTTON_WINDOW_TRANSPARENT,
};

#[test]
fn panel_class_action_keeps_existing_native_panel() {
    assert_eq!(
        panel_class_action_for_name("PromptDrawerOverlayPanel"),
        PanelClassAction::AlreadyNativePanel
    );
}

#[test]
fn panel_class_action_converts_tao_wry_to_native_panel() {
    assert_eq!(
        panel_class_action_for_name("TaoWindow"),
        PanelClassAction::ConvertToNativePanel
    );
    assert_eq!(
        panel_class_action_for_name("WryWindow"),
        PanelClassAction::ConvertToNativePanel
    );
}

#[test]
fn panel_diagnostic_format_includes_key_behavior() {
    let report = PanelKeyBehaviorReport {
        label: "prompt-popover".to_string(),
        class_name: "TaoWindow".to_string(),
        action: PanelClassAction::ConvertToNativePanel,
        can_become_key: Some(true),
        can_become_main: Some(true),
    };

    let formatted = format_panel_key_behavior_report(&report);

    assert!(formatted.contains("prompt-popover"));
    assert!(formatted.contains("TaoWindow"));
    assert!(formatted.contains("can_become_key=true"));
    assert!(formatted.contains("can_become_main=true"));
}

#[test]
fn panel_diagnostic_format_is_one_exact_line() {
    let report = PanelKeyBehaviorReport {
        label: "prompt-button".to_string(),
        class_name: "PromptDrawerOverlayPanel".to_string(),
        action: PanelClassAction::AlreadyNativePanel,
        can_become_key: Some(false),
        can_become_main: None,
    };

    assert_eq!(
        format_panel_key_behavior_report(&report),
        "prompt-picker-panel label=prompt-button class=PromptDrawerOverlayPanel action=AlreadyNativePanel can_become_key=false can_become_main=unknown"
    );
    assert_eq!(option_bool_label(None), "unknown");
}

#[test]
fn calico_button_window_uses_native_transparency() {
    assert!(BUTTON_WINDOW_TRANSPARENT);
}

#[test]
fn button_input_window_has_its_own_label() {
    assert_eq!(BUTTON_INPUT_WINDOW_LABEL, "prompt-button-input");
}

#[test]
fn transparent_popover_modes_enable_outside_click_monitor() {
    assert!(should_use_transparent_popover_window(Some("popover")));
    assert!(should_use_transparent_popover_window(Some("button-controls")));
    assert!(!should_use_transparent_popover_window(Some("settings")));
    assert!(!should_use_transparent_popover_window(None));
}

#[test]
fn reuses_popover_only_for_the_same_mode() {
    assert!(should_reuse_popover(Some("popover"), "popover"));
    assert!(should_reuse_popover(Some("button-controls"), "button-controls"));
    assert!(!should_reuse_popover(Some("button-controls"), "popover"));
    assert!(!should_reuse_popover(None, "popover"));
}

#[test]
fn prompt_popover_toggle_closes_only_visible_prompt_lists() {
    assert!(should_close_prompt_popover_on_toggle(Some("popover"), true));
    assert!(!should_close_prompt_popover_on_toggle(Some("popover"), false));
    assert!(!should_close_prompt_popover_on_toggle(Some("button-controls"), true));
    assert!(!should_close_prompt_popover_on_toggle(None, true));
}

#[test]
fn popover_toggle_cancels_pending_then_closes_visible_list_then_opens() {
    assert_eq!(
        popover_toggle_action(true, Some("popover"), Some(true)),
        PopoverToggleAction::CancelPending
    );
    assert_eq!(
        popover_toggle_action(false, Some("popover"), Some(true)),
        PopoverToggleAction::CloseVisible
    );
    assert_eq!(
        popover_toggle_action(false, Some("button-controls"), Some(true)),
        PopoverToggleAction::Open
    );
    assert_eq!(
        popover_toggle_action(false, None, None),
        PopoverToggleAction::Open
    );
}

#[test]
fn popover_mode_switch_reuses_the_existing_window() {
    assert_eq!(
        popover_window_action(Some("popover"), "button-controls"),
        PopoverWindowAction::ReuseExisting
    );
    assert_eq!(
        popover_window_action(None, "popover"),
        PopoverWindowAction::BuildMissing
    );
}

#[test]
fn newer_popover_request_supersedes_the_previous_waiter() {
    let mut state = PopoverModeRequestState::new();
    let (_, mut first_receiver) = state.begin("popover");
    let (second_id, _second_receiver) = state.begin("button-controls");

    assert_eq!(
        first_receiver.try_recv(),
        Err(tokio::sync::oneshot::error::TryRecvError::Closed)
    );
    assert!(!state.acknowledge(second_id - 1, "popover"));
    assert!(state.acknowledge(second_id, "button-controls"));
}

#[test]
fn hiding_popover_cancels_pending_mode_acknowledgement() {
    let mut state = PopoverModeRequestState::new();
    let (request_id, mut receiver) = state.begin("popover");

    assert!(state.cancel());
    assert_eq!(
        receiver.try_recv(),
        Err(tokio::sync::oneshot::error::TryRecvError::Closed)
    );
    assert!(!state.acknowledge(request_id, "popover"));
}

#[test]
fn acknowledged_request_wakes_its_waiter_once() {
    let mut state = PopoverModeRequestState::new();
    let (request_id, mut receiver) = state.begin("popover");

    assert!(state.is_pending_mode("popover"));
    assert!(!state.acknowledge(request_id, "button-controls"));
    assert!(state.acknowledge(request_id, "popover"));
    assert_eq!(receiver.try_recv(), Ok(()));
    assert!(!state.acknowledge(request_id, "popover"));
}

#[test]
fn finishing_a_mode_request_reports_each_way_the_wait_ended() {
    let mut state = PopoverModeRequestState::new();
    let (id, _receiver) = state.begin("popover");
    assert_eq!(
        finish_popover_mode_request(&mut state, id, "popover", PopoverModeWait::Acknowledged),
        (Ok(()), false)
    );
    assert!(!state.is_pending_mode("popover"));

    let (stale, _receiver) = state.begin("popover");
    let (_current, _receiver2) = state.begin("button-controls");
    assert_eq!(
        finish_popover_mode_request(&mut state, stale, "popover", PopoverModeWait::Acknowledged),
        (
            Err("Prompt popover mode request was superseded.".to_string()),
            false
        )
    );
    assert!(state.is_pending_mode("button-controls"));

    let (timed_out, _receiver) = state.begin("popover");
    assert_eq!(
        finish_popover_mode_request(&mut state, timed_out, "popover", PopoverModeWait::TimedOut),
        (Err("Prompt popover mode request timed out.".to_string()), true)
    );
    assert!(!state.is_pending_mode("popover"));
    assert_eq!(
        finish_popover_mode_request(&mut state, timed_out, "popover", PopoverModeWait::Dropped),
        (
            Err("Prompt popover mode request was superseded.".to_string()),
            false
        )
    );
}
