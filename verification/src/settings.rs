//! What the app reads from its settings document (language, prompt
//! insertion mode, permission history, button visibility), the status of the
//! prompt-interaction permission, and the labels and actions of the menu bar.
use crate::platform::macos::NativeSubmitKey;
use crate::text::{push_str, str_eq};
use vstd::prelude::*;
use vstd::string::StringExecFns;

verus! {

/// The string found at a JSON pointer in a JSON text: none when the text is
/// not JSON, nothing is at the pointer, or what is there is not a string.
pub uninterp spec fn json_string_at(text: Seq<char>, pointer: Seq<char>) -> Option<Seq<char>>;

/// The boolean found at a JSON pointer in a JSON text: none when the text is
/// not JSON, nothing is at the pointer, or what is there is not a boolean.
pub uninterp spec fn json_bool_at(text: Seq<char>, pointer: Seq<char>) -> Option<bool>;

/// Reads the string at a JSON pointer with `serde_json::from_str` into a
/// `serde_json::Value`, then `Value::pointer` and `Value::as_str`. The contract
/// names the result; what `serde_json` accepts as JSON is not restated.
#[verifier::external_body]
fn json_string_at_pointer(text: &str, pointer: &str) -> (r: Option<String>)
    ensures
        r.deep_view() == json_string_at(text@, pointer@),
{
    serde_json::from_str::<serde_json::Value>(text).ok().and_then(
        |value| value.pointer(pointer).and_then(|found| found.as_str()).map(|s| s.to_string()),
    )
}

/// Reads the boolean at a JSON pointer with `serde_json::from_str` into a
/// `serde_json::Value`, then `Value::pointer` and `Value::as_bool`. The
/// contract names the result.
#[verifier::external_body]
fn json_bool_at_pointer(text: &str, pointer: &str) -> (r: Option<bool>)
    ensures
        r == json_bool_at(text@, pointer@),
{
    serde_json::from_str::<serde_json::Value>(text).ok().and_then(
        |value| value.pointer(pointer).and_then(|found| found.as_bool()),
    )
}

/// The submit key a prompt-insertion mode asks for: none for `paste_only`,
/// Command-Return for `paste_command_enter`, Return for `paste_enter` and
/// `paste_and_submit`, and none for a missing or unknown mode.
pub open spec fn submit_key_for_mode_spec(mode: Option<Seq<char>>) -> NativeSubmitKey {
    match mode {
        Some(m) => if m == "paste_only"@ {
            NativeSubmitKey::NoKey
        } else if m == "paste_command_enter"@ {
            NativeSubmitKey::CommandEnter
        } else if m == "paste_enter"@ || m == "paste_and_submit"@ {
            NativeSubmitKey::Enter
        } else {
            NativeSubmitKey::NoKey
        },
        None => NativeSubmitKey::NoKey,
    }
}

/// The submit key a prompt-insertion mode asks for.
pub fn submit_key_for_mode(mode: Option<&str>) -> (r: NativeSubmitKey)
    ensures
        r == submit_key_for_mode_spec(
            match mode {
                Some(m) => Some(m@),
                None => None,
            },
        ),
{
    match mode {
        Some(m) => if str_eq(m, "paste_only") {
            NativeSubmitKey::NoKey
        } else if str_eq(m, "paste_command_enter") {
            NativeSubmitKey::CommandEnter
        } else if str_eq(m, "paste_enter") || str_eq(m, "paste_and_submit") {
            NativeSubmitKey::Enter
        } else {
            NativeSubmitKey::NoKey
        },
        None => NativeSubmitKey::NoKey,
    }
}

/// The submit key the settings ask for: the mode at
/// `/promptInsertion/mode`; settings that cannot be read, are missing or name
/// no known mode give no submit key.
pub open spec fn authoritative_submit_key_spec(settings_text: Result<Option<String>, String>) -> NativeSubmitKey {
    match settings_text {
        Ok(Some(text)) => submit_key_for_mode_spec(json_string_at(text@, "/promptInsertion/mode"@)),
        _ => NativeSubmitKey::NoKey,
    }
}

/// The submit key the settings ask for.
pub fn authoritative_submit_key(settings_text: Result<Option<String>, String>) -> (r: NativeSubmitKey)
    ensures
        r == authoritative_submit_key_spec(settings_text),
{
    match settings_text {
        Ok(Some(text)) => {
            let mode = json_string_at_pointer(text.as_str(), "/promptInsertion/mode");
            match mode {
                Some(m) => submit_key_for_mode(Some(m.as_str())),
                None => submit_key_for_mode(None),
            }
        },
        _ => NativeSubmitKey::NoKey,
    }
}

/// The menu language of the settings: `en-US` when they name it, else
/// `zh-CN`, also when they cannot be read.
pub open spec fn settings_language_spec(settings_text: Option<&str>) -> Seq<char> {
    match settings_text {
        Some(text) => if json_string_at(text@, "/language"@) == Some("en-US"@) {
            "en-US"@
        } else {
            "zh-CN"@
        },
        None => "zh-CN"@,
    }
}

/// The menu language of the settings.
pub fn settings_language(settings_text: Option<&str>) -> (r: &'static str)
    ensures
        r@ == settings_language_spec(settings_text),
{
    match settings_text {
        Some(text) => match json_string_at_pointer(text, "/language") {
            Some(language) => if str_eq(language.as_str(), "en-US") {
                "en-US"
            } else {
                "zh-CN"
            },
            None => "zh-CN",
        },
        None => "zh-CN",
    }
}

/// Whether the settings record that the system permission prompt was shown;
/// `false` when they cannot be read or do not say.
pub fn accessibility_prompt_requested(settings_text: Option<&str>) -> (r: bool)
    ensures
        r == match settings_text {
            Some(text) => json_bool_at(text@, "/permissions/accessibilityPromptRequested"@)
                == Some(true),
            None => false,
        },
{
    match settings_text {
        Some(text) => match json_bool_at_pointer(text, "/permissions/accessibilityPromptRequested") {
            Some(b) => b,
            None => false,
        },
        None => false,
    }
}

/// Whether the settings ask for the floating button; `true` when they cannot
/// be read or do not say.
pub fn floating_button_visible(settings_text: Option<&str>) -> (r: bool)
    ensures
        r == match settings_text {
            Some(text) => json_bool_at(text@, "/floatingButton/visible"@) != Some(false),
            None => true,
        },
{
    match settings_text {
        Some(text) => match json_bool_at_pointer(text, "/floatingButton/visible") {
            Some(b) => b,
            None => true,
        },
        None => true,
    }
}

/// Whether prompt interaction needs the Accessibility permission and whether
/// it is granted, with the permission-prompt history and the UI language.
pub struct PromptInteractionPermissionStatus {
    pub required: bool,
    pub trusted: bool,
    pub native_prompt_requested: bool,
    pub language: String,
}

/// The permission status: where the permission is not required it counts as
/// granted.
pub fn prompt_interaction_permission_status_from_parts(
    required: bool,
    trusted: bool,
    native_prompt_requested: bool,
    language: String,
) -> (r: PromptInteractionPermissionStatus)
    ensures
        r.required == required,
        r.trusted == (if required {
            trusted
        } else {
            true
        }),
        r.native_prompt_requested == native_prompt_requested,
        r.language == language,
{
    PromptInteractionPermissionStatus {
        required,
        trusted: if required {
            trusted
        } else {
            true
        },
        native_prompt_requested,
        language,
    }
}

/// The labels of the menu bar menu in one language.
#[derive(Debug, PartialEq, Eq)]
pub struct MenuLabels {
    pub open_main: &'static str,
    pub open_settings: &'static str,
    pub show_button: &'static str,
    pub hide_button: &'static str,
    pub open_accessibility: &'static str,
    pub quit: &'static str,
}

/// The Chinese labels.
pub open spec fn chinese_labels(l: MenuLabels) -> bool {
    &&& l.open_main@ == "管理提示词..."@
    &&& l.open_settings@ == "设置..."@
    &&& l.show_button@ == "显示 Prompt Drawer"@
    &&& l.hide_button@ == "隐藏 Prompt Drawer"@
    &&& l.open_accessibility@ == "打开辅助功能设置"@
    &&& l.quit@ == "退出 Prompt Drawer"@
}

/// The English labels.
pub open spec fn english_labels(l: MenuLabels) -> bool {
    &&& l.open_main@ == "Manage Prompts..."@
    &&& l.open_settings@ == "Settings..."@
    &&& l.show_button@ == "Show Prompt Drawer"@
    &&& l.hide_button@ == "Hide Prompt Drawer"@
    &&& l.open_accessibility@ == "Open Accessibility Settings"@
    &&& l.quit@ == "Quit Prompt Drawer"@
}

/// The menu labels for a language: Chinese for `zh-CN`, English for any
/// other.
pub fn menu_labels_for_language(language: &str) -> (r: MenuLabels)
    ensures
        language@ == "zh-CN"@ ==> chinese_labels(r),
        language@ != "zh-CN"@ ==> english_labels(r),
{
    if str_eq(language, "zh-CN") {
        MenuLabels {
            open_main: "管理提示词...",
            open_settings: "设置...",
            show_button: "显示 Prompt Drawer",
            hide_button: "隐藏 Prompt Drawer",
            open_accessibility: "打开辅助功能设置",
            quit: "退出 Prompt Drawer",
        }
    } else {
        MenuLabels {
            open_main: "Manage Prompts...",
            open_settings: "Settings...",
            show_button: "Show Prompt Drawer",
            hide_button: "Hide Prompt Drawer",
            open_accessibility: "Open Accessibility Settings",
            quit: "Quit Prompt Drawer",
        }
    }
}

/// The id of the menu bar icon.
pub const TRAY_ID: &'static str = "prompt-picker-tray";

/// The menu item that opens the prompt manager.
pub const TRAY_OPEN_MAIN_ID: &'static str = "open-main-window";

/// The menu item that shows the floating button.
pub const TRAY_SHOW_BUTTON_ID: &'static str = "show-floating-button";

/// The menu item that hides the floating button.
pub const TRAY_HIDE_BUTTON_ID: &'static str = "hide-floating-button";

/// The menu item that opens the Accessibility settings.
pub const TRAY_OPEN_ACCESSIBILITY_ID: &'static str = "open-accessibility-settings";

/// The menu item that opens the settings window.
pub const TRAY_OPEN_SETTINGS_ID: &'static str = "open-settings-window";

/// The menu item that quits the app.
pub const TRAY_QUIT_ID: &'static str = "quit";

/// What a menu bar item does.
#[derive(Clone, Copy, Debug, PartialEq, Eq, Structural)]
pub enum TrayMenuAction {
    OpenMainWindow,
    ShowFloatingButton,
    HideFloatingButton,
    OpenAccessibilitySettings,
    OpenSettingsWindow,
    Quit,
    Unknown,
}

/// The action of a menu item id; unknown ids do nothing.
pub open spec fn tray_action_spec(id: Seq<char>) -> TrayMenuAction {
    if id == TRAY_OPEN_MAIN_ID@ {
        TrayMenuAction::OpenMainWindow
    } else if id == TRAY_SHOW_BUTTON_ID@ {
        TrayMenuAction::ShowFloatingButton
    } else if id == TRAY_HIDE_BUTTON_ID@ {
        TrayMenuAction::HideFloatingButton
    } else if id == TRAY_OPEN_ACCESSIBILITY_ID@ {
        TrayMenuAction::OpenAccessibilitySettings
    } else if id == TRAY_OPEN_SETTINGS_ID@ {
        TrayMenuAction::OpenSettingsWindow
    } else if id == TRAY_QUIT_ID@ {
        TrayMenuAction::Quit
    } else {
        TrayMenuAction::Unknown
    }
}

/// The action of a menu item id.
pub fn tray_menu_action(id: &str) -> (r: TrayMenuAction)
    ensures
        r == tray_action_spec(id@),
{
    if str_eq(id, TRAY_OPEN_MAIN_ID) {
        TrayMenuAction::OpenMainWindow
    } else if str_eq(id, TRAY_SHOW_BUTTON_ID) {
        TrayMenuAction::ShowFloatingButton
    } else if str_eq(id, TRAY_HIDE_BUTTON_ID) {
        TrayMenuAction::HideFloatingButton
    } else if str_eq(id, TRAY_OPEN_ACCESSIBILITY_ID) {
        TrayMenuAction::OpenAccessibilitySettings
    } else if str_eq(id, TRAY_OPEN_SETTINGS_ID) {
        TrayMenuAction::OpenSettingsWindow
    } else if str_eq(id, TRAY_QUIT_ID) {
        TrayMenuAction::Quit
    } else {
        TrayMenuAction::Unknown
    }
}

/// The settings document written when none can be read: every section the
/// app uses, with the button shown, prompts pasted and submitted, the
/// accessibility prompt not yet shown, and Chinese labels.
pub const DEFAULT_SETTINGS_JSON: &'static str = "{\"version\":1,\"blacklistedApps\":[],\"overlayPlacement\":{\"buttonOffset\":null,\"buttonPosition\":null},\"floatingButton\":{\"visible\":true},\"promptInsertion\":{\"mode\":\"paste_and_submit\"},\"permissions\":{\"accessibilityPromptRequested\":false},\"language\":\"zh-CN\"}";

/// The section of the settings document that holds the button's state.
pub const FLOATING_BUTTON_SECTION: &'static str = "floatingButton";

/// The key of the button's visibility in its section.
pub const VISIBLE_KEY: &'static str = "visible";

/// How a JSON text parses, as seen by a patch of one of its sections: the
/// parser's message when it is not JSON; otherwise `None` when its top level
/// is not an object, or whether the section is an object.
pub uninterp spec fn json_section_shape(text: Seq<char>, section: Seq<char>) -> Result<Option<bool>, Seq<char>>;

/// The pretty-printed JSON text of `text` with `section.key` set to `value`,
/// where `section` already is an object; or the printer's message.
pub uninterp spec fn json_bool_set_in_section(
    text: Seq<char>,
    section: Seq<char>,
    key: Seq<char>,
    value: bool,
) -> Result<Seq<char>, Seq<char>>;

/// The pretty-printed JSON text of `text` with `section` replaced by an
/// object that holds only `key` set to `value`; or the printer's message.
pub uninterp spec fn json_bool_set_in_new_section(
    text: Seq<char>,
    section: Seq<char>,
    key: Seq<char>,
    value: bool,
) -> Result<Seq<char>, Seq<char>>;

/// The characters of a result that carries strings.
pub open spec fn text_result<T>(r: Result<T, String>) -> Result<T, Seq<char>> {
    match r {
        Ok(v) => Ok(v),
        Err(e) => Err(e@),
    }
}

/// The characters of a result that carries texts on both sides.
pub open spec fn texts_result(r: Result<String, String>) -> Result<Seq<char>, Seq<char>> {
    match r {
        Ok(v) => Ok(v@),
        Err(e) => Err(e@),
    }
}

/// Parses a JSON text with `serde_json::from_str` into a `serde_json::Value`
/// and tells its variant apart: an object, with whether `section` in it is an
/// object too, or anything else; a parse error gives the error's text. The
/// contract names the result.
#[verifier::external_body]
fn section_shape(text: &str, section: &str) -> (r: Result<Option<bool>, String>)
    ensures
        text_result(r) == json_section_shape(text@, section@),
{
    match serde_json::from_str::<serde_json::Value>(text) {
        Err(e) => Err(e.to_string()),
        Ok(serde_json::Value::Object(map)) => match map.get(section) {
            Some(serde_json::Value::Object(_)) => Ok(Some(true)),
            _ => Ok(Some(false)),
        },
        Ok(_) => Ok(None),
    }
}

/// Parses a JSON text with `serde_json::from_str`, sets `section.key` to the
/// boolean through `Value`'s `IndexMut`, and prints the document with
/// `serde_json::to_string_pretty`. Indexing panics unless the document and
/// the section are objects, which `requires` asks for. The contract names
/// the result.
#[verifier::external_body]
fn set_bool_in_section(text: &str, section: &str, key: &str, value: bool) -> (r: Result<String, String>)
    requires
        json_section_shape(text@, section@) == Ok::<Option<bool>, Seq<char>>(Some(true)),
    ensures
        texts_result(r) == json_bool_set_in_section(text@, section@, key@, value),
{
    let mut settings: serde_json::Value = serde_json::from_str(text).map_err(|e| e.to_string())?;
    settings[section][key] = serde_json::Value::Bool(value);
    serde_json::to_string_pretty(&settings).map_err(|e| e.to_string())
}

/// Parses a JSON text with `serde_json::from_str`, replaces `section` with an
/// empty `serde_json::Map` and sets `key` in it to the boolean through
/// `Value`'s `IndexMut`, and prints the document with
/// `serde_json::to_string_pretty`. Indexing panics unless the document is an
/// object, which `requires` asks for. The contract names the result.
#[verifier::external_body]
fn set_bool_in_new_section(text: &str, section: &str, key: &str, value: bool) -> (r: Result<String, String>)
    requires
        json_section_shape(text@, section@) is Ok,
        json_section_shape(text@, section@)->Ok_0 is Some,
    ensures
        texts_result(r) == json_bool_set_in_new_section(text@, section@, key@, value),
{
    let mut settings: serde_json::Value = serde_json::from_str(text).map_err(|e| e.to_string())?;
    settings[section] = serde_json::Value::Object(serde_json::Map::new());
    settings[section][key] = serde_json::Value::Bool(value);
    serde_json::to_string_pretty(&settings).map_err(|e| e.to_string())
}

/// The text of a settings document with `section.key` set to `value`, given
/// that the document is an object: the section is replaced by a new object
/// first when it is not one.
pub open spec fn patched_object_spec(text: Seq<char>, section: Seq<char>, key: Seq<char>, value: bool) -> Result<
    Seq<char>,
    Seq<char>,
> {
    if json_section_shape(text, section) == Ok::<Option<bool>, Seq<char>>(Some(true)) {
        json_bool_set_in_section(text, section, key, value)
    } else {
        json_bool_set_in_new_section(text, section, key, value)
    }
}

fn patch_object(text: &str, section: &str, key: &str, value: bool, is_section_object: bool) -> (r: Result<String, String>)
    requires
        json_section_shape(text@, section@) == Ok::<Option<bool>, Seq<char>>(Some(is_section_object)),
    ensures
        texts_result(r) == patched_object_spec(text@, section@, key@, value),
{
    if is_section_object {
        set_bool_in_section(text, section, key, value)
    } else {
        set_bool_in_new_section(text, section, key, value)
    }
}

/// The text written for a settings document handed in by the frontend:
/// text that is not JSON is refused with the parser's message, a document
/// that is not an object is refused, and any other is written with its other
/// fields kept and `floatingButton.visible` forced to `desired_visible`
/// (`floatingButton` is made an object first when it is not one), so that
/// the frontend cannot change the button's visibility through the settings.
pub fn frontend_settings_text(value: &str, desired_visible: bool) -> (r: Result<String, String>)
    ensures
        json_section_shape(value@, FLOATING_BUTTON_SECTION@) matches Err(m) ==> (r matches Err(e) && e@
            == "Invalid settings JSON: "@ + m),
        json_section_shape(value@, FLOATING_BUTTON_SECTION@) == Ok::<Option<bool>, Seq<char>>(None) ==> (
        r matches Err(e) && e@ == "Settings JSON must be an object."@),
        json_section_shape(value@, FLOATING_BUTTON_SECTION@) matches Ok(Some(_)) ==> texts_result(r)
            == patched_object_spec(value@, FLOATING_BUTTON_SECTION@, VISIBLE_KEY@, desired_visible),
{
    match section_shape(value, FLOATING_BUTTON_SECTION) {
        Err(m) => {
            let mut e = String::from_str("Invalid settings JSON: ");
            push_str(&mut e, m.as_str());
            Err(e)
        },
        Ok(None) => Err(String::from_str("Settings JSON must be an object.")),
        Ok(Some(is_object)) => patch_object(value, FLOATING_BUTTON_SECTION, VISIBLE_KEY, desired_visible, is_object),
    }
}

/// The document a boolean setting is patched into: the stored text when it
/// is a JSON object, else the default settings.
pub open spec fn patch_base(contents: Option<Seq<char>>, section: Seq<char>) -> Seq<char> {
    match contents {
        Some(c) => if json_section_shape(c, section) matches Ok(Some(_)) {
            c
        } else {
            DEFAULT_SETTINGS_JSON@
        },
        None => DEFAULT_SETTINGS_JSON@,
    }
}

/// The text written when one boolean setting `section.key` is set to
/// `value`: the stored document when it is a JSON object, else the default
/// settings, with the section made an object when it is not one and every
/// other field kept. Were the default settings themselves no object, the
/// patch would be refused.
pub fn patched_settings_text(contents: Option<&str>, section: &str, key: &str, value: bool) -> (r: Result<
    String,
    String,
>)
    ensures
        json_section_shape(
            patch_base(
                match contents {
                    Some(c) => Some(c@),
                    None => None,
                },
                section@,
            ),
            section@,
        ) matches Ok(Some(_)) ==> texts_result(r) == patched_object_spec(
            patch_base(
                match contents {
                    Some(c) => Some(c@),
                    None => None,
                },
                section@,
            ),
            section@,
            key@,
            value,
        ),
        !(json_section_shape(
            patch_base(
                match contents {
                    Some(c) => Some(c@),
                    None => None,
                },
                section@,
            ),
            section@,
        ) matches Ok(Some(_))) ==> (r matches Err(e) && e@ == "Default settings are not a JSON object."@),
{
    if let Some(c) = contents {
        if let Ok(Some(is_object)) = section_shape(c, section) {
            return patch_object(c, section, key, value, is_object);
        }
    }
    match section_shape(DEFAULT_SETTINGS_JSON, section) {
        Ok(Some(is_object)) => patch_object(DEFAULT_SETTINGS_JSON, section, key, value, is_object),
        _ => Err(String::from_str("Default settings are not a JSON object.")),
    }
}

} // verus!
