use sleepy_cat::prompt_button::{
    is_prompt_button_webview, perform_prompt_button_webview_recovery,
    prompt_button_ensure_action, prompt_button_recovery_url,
    prompt_button_reveal_action, prompt_button_termination_retry_delay, PromptButtonEnsureAction,
    PromptButtonRendererAction, PromptButtonRendererState, PromptButtonRevealAction,
    PromptButtonVisibilityState,
};
use sleepy_cat::settings::{
    accessibility_prompt_requested, authoritative_submit_key, floating_button_visible,
    frontend_settings_text, patched_settings_text, DEFAULT_SETTINGS_JSON,
    menu_labels_for_language, prompt_interaction_permission_status_from_parts,
    settings_language, submit_key_for_mode, tray_menu_action, TrayMenuAction,
    TRAY_HIDE_BUTTON_ID, TRAY_OPEN_ACCESSIBILITY_ID, TRAY_OPEN_MAIN_ID, TRAY_OPEN_SETTINGS_ID,
    TRAY_QUIT_ID, TRAY_SHOW_BUTTON_ID,
};
use sleepy_cat::platform::macos::NativeSubmitKey;
use sleepy_cat::windows::{BUTTON_WINDOW_LABEL, POPOVER_WINDOW_LABEL};
use std::cell::{Cell, RefCell};

/// Points a recovery address at the overlay page for the given instance.
fn retarget(url: String, instance_id: u64) -> String {
    let base = match url.find('?') {
        Some(at) => url[..at].to_string(),
        None => url,
    };
    format!("{base}?rendererInstanceId={instance_id}")
}

#[test]
fn allocates_nonzero_instances_and_resets_readiness() {
    let mut state = PromptButtonRendererState::new();
    let first = state.allocate_instance();
    let visibility = PromptButtonVisibilityState::new(true);
    assert!(state.accept(first, 1, true, &visibility).is_some());

    let second = state.allocate_instance();

    assert_ne!(first, second);
    assert_ne!(second, 0);
    assert!(!state.is_ready());
    assert_eq!(state.current(), (second, 0, false));
}

#[test]
fn rejects_stale_instances_and_out_of_order_transitions() {
    let mut state = PromptButtonRendererState::new();
    let visibility = PromptButtonVisibilityState::new(true);
    let old = state.allocate_instance();
    let current = state.allocate_instance();

    assert!(state.accept(old, 1, true, &visibility).is_none());
    assert!(state.accept(current, 2, true, &visibility).is_some());
    assert!(state.accept(current, 1, false, &visibility).is_none());
    assert_eq!(state.current(), (current, 2, true));
}

#[test]
fn newer_transition_invalidates_an_older_lock_free_action() {
    let mut state = PromptButtonRendererState::new();
    let visibility = PromptButtonVisibilityState::new(true);
    let instance = state.allocate_instance();
    let old_hide = state.accept(instance, 1, false, &visibility).unwrap();
    let new_show = state.accept(instance, 2, true, &visibility).unwrap();

    assert!(!state.action_is_current(old_hide, &visibility));
    assert!(state.action_is_current(new_show, &visibility));
}

#[test]
fn close_racing_with_ready_true_prevents_show() {
    let mut state = PromptButtonRendererState::new();
    let mut visibility = PromptButtonVisibilityState::new(true);
    let instance = state.allocate_instance();
    let show = state.accept(instance, 1, true, &visibility).unwrap();

    visibility.set(false);

    assert!(!state.action_is_current(show, &visibility));
}

#[test]
fn accepted_transitions_ask_for_hide_show_or_nothing() {
    let mut state = PromptButtonRendererState::new();
    let hidden = PromptButtonVisibilityState::new(false);
    let instance = state.allocate_instance();

    let hide = state.accept(instance, 1, false, &hidden).unwrap();
    assert_eq!(hide.action, PromptButtonRendererAction::HideCurrent);
    assert_eq!(hide.action.as_str(), "hideCurrent");
    let ignore = state.accept(instance, 2, true, &hidden).unwrap();
    assert_eq!(ignore.action, PromptButtonRendererAction::Ignore);
    assert!(!state.action_is_current(ignore, &hidden));
}

#[test]
fn resume_is_requested_once_per_unready_instance() {
    let mut state = PromptButtonRendererState::new();
    assert!(!state.request_resume_once());
    let instance = state.allocate_instance();
    assert!(state.instance_is_current_unready(instance));
    assert!(state.request_resume_once());
    assert!(!state.request_resume_once());
}

#[test]
fn only_prompt_button_termination_is_owned_by_this_recovery() {
    assert!(is_prompt_button_webview(BUTTON_WINDOW_LABEL));
    assert!(!is_prompt_button_webview(POPOVER_WINDOW_LABEL));
    assert!(!is_prompt_button_webview("main"));
}

#[test]
fn termination_recovery_hides_and_navigates_the_existing_window() {
    let navigated = RefCell::new(None);
    let recovered = perform_prompt_button_webview_recovery(
        Some("tauri://localhost/overlay.html?rendererInstanceId=1".to_string()),
        9,
        || Ok(()),
        || Ok("tauri://localhost/overlay.html?rendererInstanceId=1".to_string()),
        |url: &String| {
            *navigated.borrow_mut() = Some(url.clone());
            Ok(())
        },
        retarget,
    )
    .unwrap();

    assert_eq!(recovered, "tauri://localhost/overlay.html?rendererInstanceId=9");
    assert_eq!(navigated.into_inner(), Some(recovered));
}

#[test]
fn termination_recovery_url_falls_back_to_the_stored_creation_url() {
    let hidden = Cell::new(false);
    let navigated = RefCell::new(None);
    let stored = "tauri://localhost/overlay.html?rendererInstanceId=1&source=stored".to_string();

    let recovered = perform_prompt_button_webview_recovery(
        Some(stored),
        7,
        || {
            hidden.set(true);
            Ok(())
        },
        || Err("terminated webview URL unavailable".to_string()),
        |url: &String| {
            *navigated.borrow_mut() = Some(url.clone());
            Ok(())
        },
        retarget,
    )
    .unwrap();

    assert!(hidden.get());
    assert_eq!(navigated.borrow().as_ref(), Some(&recovered));
    assert_eq!(recovered, "tauri://localhost/overlay.html?rendererInstanceId=7");
    assert!(prompt_button_recovery_url(Err("unavailable".to_string()), None, 7, retarget).is_err());
}

#[test]
fn termination_recovery_has_three_bounded_attempts() {
    assert_eq!(prompt_button_termination_retry_delay(0), Some(0));
    assert_eq!(prompt_button_termination_retry_delay(1), Some(100));
    assert_eq!(prompt_button_termination_retry_delay(2), Some(400));
    assert_eq!(prompt_button_termination_retry_delay(3), None);
}

#[test]
fn termination_recovery_propagates_hide_and_navigation_failures() {
    let stored = "tauri://localhost/overlay.html".to_string();
    let hide_error = perform_prompt_button_webview_recovery(
        Some(stored.clone()),
        2,
        || Err("hide failed".to_string()),
        || Ok(stored.clone()),
        |_: &String| Ok(()),
        retarget,
    )
    .unwrap_err();
    assert!(hide_error.contains("hide failed"));

    let navigate_error = perform_prompt_button_webview_recovery(
        Some(stored.clone()),
        2,
        || Ok(()),
        || Ok(stored),
        |_: &String| Err("navigate failed".to_string()),
        retarget,
    )
    .unwrap_err();
    assert!(navigate_error.contains("navigate failed"));
}

#[test]
fn prompt_button_monitor_builds_when_enabled_button_is_missing() {
    assert_eq!(
        prompt_button_ensure_action(true, false, false, false),
        PromptButtonEnsureAction::BuildMissing
    );
}

#[test]
fn prompt_button_monitor_shows_enabled_hidden_button() {
    assert_eq!(
        prompt_button_ensure_action(true, true, false, true),
        PromptButtonEnsureAction::ShowExisting
    );
}

#[test]
fn prompt_button_monitor_leaves_enabled_visible_button_alone() {
    assert_eq!(
        prompt_button_ensure_action(true, true, true, true),
        PromptButtonEnsureAction::NoAction
    );
}

#[test]
fn prompt_button_monitor_keeps_unready_window_hidden() {
    assert_eq!(
        prompt_button_ensure_action(true, true, false, false),
        PromptButtonEnsureAction::NoAction
    );
}

#[test]
fn prompt_button_monitor_never_revives_user_disabled_button() {
    assert_eq!(
        prompt_button_ensure_action(false, false, false, false),
        PromptButtonEnsureAction::NoAction
    );
    assert_eq!(
        prompt_button_ensure_action(false, true, false, true),
        PromptButtonEnsureAction::NoAction
    );
}

#[test]
fn disabled_visibility_wins_over_an_in_flight_show() {
    let mut state = PromptButtonVisibilityState::new(true);
    let show_generation = state.generation();
    state.set(false);

    assert!(!state.may_show(show_generation));
}

#[test]
fn saved_visibility_initializes_state_once() {
    let settings = r#"{ "floatingButton": { "visible": false } }"#;
    let state = PromptButtonVisibilityState::from_settings(Some(settings));

    assert!(!state.desired_visible());
    assert_eq!(state.generation(), 0);
}

#[test]
fn visibility_defaults_to_shown_without_a_saved_choice() {
    assert!(PromptButtonVisibilityState::from_settings(None).desired_visible());
    assert!(PromptButtonVisibilityState::from_settings(Some("not json")).desired_visible());
    assert!(floating_button_visible(Some(r#"{ "floatingButton": { "visible": true } }"#)));
}

#[test]
fn global_submit_behavior_fails_closed_when_settings_cannot_be_read() {
    assert_eq!(
        authoritative_submit_key(Err("settings unavailable".to_string())),
        NativeSubmitKey::NoKey
    );
    assert_eq!(
        authoritative_submit_key(Ok(Some("not json".to_string()))),
        NativeSubmitKey::NoKey
    );
    assert_eq!(authoritative_submit_key(Ok(None)), NativeSubmitKey::NoKey);
}

#[test]
fn global_submit_behavior_reads_all_supported_settings() {
    let settings_for = |mode: &str| -> Result<Option<String>, String> {
        Ok(Some(format!(r#"{{"promptInsertion":{{"mode":"{mode}"}}}}"#)))
    };

    assert_eq!(
        authoritative_submit_key(settings_for("paste_only")),
        NativeSubmitKey::NoKey
    );
    assert_eq!(
        authoritative_submit_key(settings_for("paste_enter")),
        NativeSubmitKey::Enter
    );
    assert_eq!(
        authoritative_submit_key(settings_for("paste_command_enter")),
        NativeSubmitKey::CommandEnter
    );
    assert_eq!(
        authoritative_submit_key(settings_for("paste_and_submit")),
        NativeSubmitKey::Enter
    );
}

#[test]
fn unknown_insertion_mode_gives_no_submit_key() {
    assert_eq!(submit_key_for_mode(Some("type_fast")), NativeSubmitKey::NoKey);
    assert_eq!(submit_key_for_mode(None), NativeSubmitKey::NoKey);
}

#[test]
fn settings_language_is_english_only_when_named() {
    assert_eq!(settings_language(Some(r#"{"language":"en-US"}"#)), "en-US");
    assert_eq!(settings_language(Some(r#"{"language":"fr"}"#)), "zh-CN");
    assert_eq!(settings_language(None), "zh-CN");
}

#[test]
fn accessibility_prompt_history_is_read_from_permissions() {
    assert!(accessibility_prompt_requested(Some(
        r#"{"permissions":{"accessibilityPromptRequested":true}}"#
    )));
    assert!(!accessibility_prompt_requested(Some(
        r#"{"permissions":{"accessibilityPromptRequested":false}}"#
    )));
    assert!(!accessibility_prompt_requested(None));
}

#[test]
fn permission_status_does_not_require_accessibility_on_non_macos() {
    let status = prompt_interaction_permission_status_from_parts(false, false, false, "zh-CN".to_string());

    assert!(!status.required);
    assert!(status.trusted);
    assert!(!status.native_prompt_requested);
    assert_eq!(status.language, "zh-CN");
}

#[test]
fn permission_status_reports_untrusted_macos_prompt_state() {
    let status = prompt_interaction_permission_status_from_parts(true, false, true, "en-US".to_string());

    assert!(status.required);
    assert!(!status.trusted);
    assert!(status.native_prompt_requested);
    assert_eq!(status.language, "en-US");
}

#[test]
fn resolves_menu_labels_by_language() {
    assert_eq!(menu_labels_for_language("zh-CN").open_main, "管理提示词...");
    assert_eq!(menu_labels_for_language("zh-CN").open_settings, "设置...");
    assert_eq!(menu_labels_for_language("zh-CN").show_button, "显示 Prompt Drawer");
    assert_eq!(menu_labels_for_language("zh-CN").hide_button, "隐藏 Prompt Drawer");
    assert_eq!(menu_labels_for_language("en-US").open_main, "Manage Prompts...");
    assert_eq!(menu_labels_for_language("en-US").show_button, "Show Prompt Drawer");
    assert_eq!(menu_labels_for_language("en-US").hide_button, "Hide Prompt Drawer");
    assert_eq!(menu_labels_for_language("bad").quit, "Quit Prompt Drawer");
}

#[test]
fn maps_tray_menu_item_ids_to_actions() {
    assert_eq!(tray_menu_action(TRAY_OPEN_MAIN_ID), TrayMenuAction::OpenMainWindow);
    assert_eq!(tray_menu_action(TRAY_SHOW_BUTTON_ID), TrayMenuAction::ShowFloatingButton);
    assert_eq!(tray_menu_action(TRAY_HIDE_BUTTON_ID), TrayMenuAction::HideFloatingButton);
    assert_eq!(
        tray_menu_action(TRAY_OPEN_ACCESSIBILITY_ID),
        TrayMenuAction::OpenAccessibilitySettings
    );
    assert_eq!(tray_menu_action(TRAY_OPEN_SETTINGS_ID), TrayMenuAction::OpenSettingsWindow);
    assert_eq!(tray_menu_action(TRAY_QUIT_ID), TrayMenuAction::Quit);
}

#[test]
fn ignores_unknown_tray_menu_item_ids() {
    assert_eq!(tray_menu_action("unknown"), TrayMenuAction::Unknown);
}

#[test]
fn reveal_shows_ready_buttons_and_asks_unready_renderers_to_resume_once() {
    let mut renderer = PromptButtonRendererState::new();
    renderer.allocate_instance();

    assert_eq!(
        prompt_button_reveal_action(true, true, true, &mut renderer),
        PromptButtonRevealAction::NoAction
    );
    assert_eq!(
        prompt_button_reveal_action(true, false, true, &mut renderer),
        PromptButtonRevealAction::ShowReady
    );
    assert_eq!(
        prompt_button_reveal_action(false, false, false, &mut renderer),
        PromptButtonRevealAction::NoAction
    );
    assert_eq!(
        prompt_button_reveal_action(false, false, true, &mut renderer),
        PromptButtonRevealAction::RequestResume
    );
    assert_eq!(
        prompt_button_reveal_action(false, false, true, &mut renderer),
        PromptButtonRevealAction::NoAction
    );

    let visibility = PromptButtonVisibilityState::new(true);
    let (instance, _, _) = renderer.current();
    assert!(renderer.accept(instance, 1, true, &visibility).is_some());
    assert_eq!(
        prompt_button_reveal_action(false, false, true, &mut renderer),
        PromptButtonRevealAction::ShowReady
    );
}

fn parsed(text: &str) -> serde_json::Value {
    serde_json::from_str(text).unwrap()
}

#[test]
fn frontend_settings_write_preserves_unknown_fields_and_native_visibility() {
    let written = frontend_settings_text(
        r#"{"version":1,"future":{"enabled":true},"floatingButton":{"visible":true}}"#,
        false,
    )
    .unwrap();

    let saved = parsed(&written);
    assert_eq!(saved.pointer("/future/enabled"), Some(&serde_json::Value::Bool(true)));
    assert_eq!(saved.pointer("/floatingButton/visible"), Some(&serde_json::Value::Bool(false)));
}

#[test]
fn malformed_frontend_settings_leave_existing_file_intact() {
    let refused = frontend_settings_text("{", true).unwrap_err();
    assert!(refused.starts_with("Invalid settings JSON: "));
}

#[test]
fn frontend_settings_that_are_not_an_object_are_refused() {
    assert_eq!(
        frontend_settings_text("[1, 2]", true),
        Err("Settings JSON must be an object.".to_string())
    );
}

#[test]
fn frontend_settings_replace_a_floating_button_that_is_not_an_object() {
    let written = frontend_settings_text(r#"{"floatingButton":3,"language":"en"}"#, true).unwrap();

    let saved = parsed(&written);
    assert_eq!(saved.pointer("/floatingButton/visible"), Some(&serde_json::Value::Bool(true)));
    assert_eq!(saved.pointer("/language"), Some(&serde_json::Value::String("en".to_string())));
}

#[test]
fn accessibility_patch_does_not_overwrite_visibility() {
    let first = patched_settings_text(None, "floatingButton", "visible", false).unwrap();
    let second =
        patched_settings_text(Some(&first), "permissions", "accessibilityPromptRequested", true).unwrap();

    let saved = parsed(&second);
    assert_eq!(saved.pointer("/floatingButton/visible"), Some(&serde_json::Value::Bool(false)));
    assert_eq!(
        saved.pointer("/permissions/accessibilityPromptRequested"),
        Some(&serde_json::Value::Bool(true))
    );
}

#[test]
fn patching_unreadable_settings_starts_from_the_defaults() {
    let written = patched_settings_text(Some("not json"), "floatingButton", "visible", false).unwrap();

    let saved = parsed(&written);
    assert_eq!(saved.pointer("/floatingButton/visible"), Some(&serde_json::Value::Bool(false)));
    assert_eq!(saved.pointer("/language"), Some(&serde_json::Value::String("zh-CN".to_string())));
    assert_eq!(saved.pointer("/version"), Some(&serde_json::Value::from(1)));
}

#[test]
fn patching_resets_a_section_that_is_not_an_object() {
    let written = patched_settings_text(
        Some(r#"{"permissions":"none","language":"en"}"#),
        "permissions",
        "accessibilityPromptRequested",
        true,
    )
    .unwrap();

    let saved = parsed(&written);
    assert_eq!(
        saved.pointer("/permissions"),
        Some(&parsed(r#"{"accessibilityPromptRequested":true}"#))
    );
    assert_eq!(saved.pointer("/language"), Some(&serde_json::Value::String("en".to_string())));
}

#[test]
fn default_settings_tracks_accessibility_prompt_history() {
    let settings = parsed(DEFAULT_SETTINGS_JSON);

    assert_eq!(
        settings.pointer("/permissions/accessibilityPromptRequested"),
        Some(&serde_json::Value::Bool(false))
    );
}
