//! Decisions about the native panels that host the overlay windows, and the
//! diagnostic line that reports a panel's key behaviour.
use crate::text::{chars_of, push_str};
use crate::platform::macos::lsappinfo::{find_from, find_str_from};
use vstd::prelude::*;
use vstd::string::StringExecFns;

verus! {

/// The class of the app's own non-activating panel.
pub const OVERLAY_PANEL_CLASS: &'static str = "PromptDrawerOverlayPanel";

/// What to do with a window's native class.
#[derive(Clone, Copy, Debug, PartialEq, Eq, Structural)]
pub enum PanelClassAction {
    AlreadyNativePanel,
    ConvertToNativePanel,
}

/// A window whose class name contains the overlay panel's name is already
/// that panel; any other is converted.
pub fn panel_class_action_for_name(class_name: &str) -> (r: PanelClassAction)
    ensures
        r == (if find_from(class_name@, OVERLAY_PANEL_CLASS@, 0) is Some {
            PanelClassAction::AlreadyNativePanel
        } else {
            PanelClassAction::ConvertToNativePanel
        }),
{
    let v = chars_of(class_name);
    let p = chars_of(OVERLAY_PANEL_CLASS);
    if find_str_from(&v, &p, 0).is_some() {
        PanelClassAction::AlreadyNativePanel
    } else {
        PanelClassAction::ConvertToNativePanel
    }
}

/// What was observed of a panel's key behaviour.
pub struct PanelKeyBehaviorReport {
    pub label: String,
    pub class_name: String,
    pub action: PanelClassAction,
    pub can_become_key: Option<bool>,
    pub can_become_main: Option<bool>,
}

/// `true`, `false`, or `unknown` for a value that was not read.
pub open spec fn option_bool_spec(value: Option<bool>) -> Seq<char> {
    match value {
        Some(true) => "true"@,
        Some(false) => "false"@,
        None => "unknown"@,
    }
}

/// `true`, `false`, or `unknown` for a value that was not read.
pub fn option_bool_label(value: Option<bool>) -> (r: &'static str)
    ensures
        r@ == option_bool_spec(value),
{
    match value {
        Some(true) => "true",
        Some(false) => "false",
        None => "unknown",
    }
}

/// The name of a panel class action, as the report prints it.
pub open spec fn action_name(a: PanelClassAction) -> Seq<char> {
    match a {
        PanelClassAction::AlreadyNativePanel => "AlreadyNativePanel"@,
        PanelClassAction::ConvertToNativePanel => "ConvertToNativePanel"@,
    }
}

/// The report line of a panel's key behaviour.
pub open spec fn panel_report_spec(r: PanelKeyBehaviorReport) -> Seq<char> {
    "prompt-picker-panel label="@ + r.label@ + " class="@ + r.class_name@ + " action="@ + action_name(
        r.action,
    ) + " can_become_key="@ + option_bool_spec(r.can_become_key) + " can_become_main="@
        + option_bool_spec(r.can_become_main)
}

/// The report line of a panel's key behaviour.
pub fn format_panel_key_behavior_report(report: &PanelKeyBehaviorReport) -> (r: String)
    ensures
        r@ == panel_report_spec(*report),
{
    let mut s = String::from_str("prompt-picker-panel label=");
    push_str(&mut s, report.label.as_str());
    push_str(&mut s, " class=");
    push_str(&mut s, report.class_name.as_str());
    push_str(&mut s, " action=");
    match report.action {
        PanelClassAction::AlreadyNativePanel => push_str(&mut s, "AlreadyNativePanel"),
        PanelClassAction::ConvertToNativePanel => push_str(&mut s, "ConvertToNativePanel"),
    }
    push_str(&mut s, " can_become_key=");
    push_str(&mut s, option_bool_label(report.can_become_key));
    push_str(&mut s, " can_become_main=");
    push_str(&mut s, option_bool_label(report.can_become_main));
    s
}

} // verus!
