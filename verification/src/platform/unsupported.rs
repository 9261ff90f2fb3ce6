//! The platform layer where prompt insertion is not available: nothing is
//! reported as trusted or frontmost, and every delivery falls back to
//! copying the prompt.
pub use super::macos::{
    AccessibilityStatus, AutosendCompletion, AutosendFailureReason, AutosendOutcome, FrontmostApp,
    FrontmostAppWithPid, NativeSubmitKey, ProcessLaunchIdentity,
};
use super::macos::failed_outcome;
use vstd::prelude::*;
use vstd::string::StringExecFns;

verus! {

/// No launch time can be read here.
pub fn process_launch_identity(pid: u32) -> (r: Option<ProcessLaunchIdentity>)
    ensures
        r is None,
{
    None
}

/// Never trusted here.
pub fn accessibility_status() -> (r: AccessibilityStatus)
    ensures
        !r.trusted,
{
    AccessibilityStatus { trusted: false }
}

/// Never trusted here.
pub fn request_accessibility_permission() -> (r: AccessibilityStatus)
    ensures
        !r.trusted,
{
    AccessibilityStatus { trusted: false }
}

/// There are no Accessibility settings to open here.
pub fn open_accessibility_settings() -> (r: Result<(), String>)
    ensures
        r matches Err(e) && e@ == "Accessibility settings are only available on macOS."@,
{
    Err(String::from_str("Accessibility settings are only available on macOS."))
}

/// No frontmost application is known here.
pub fn frontmost_app() -> (r: Option<FrontmostApp>)
    ensures
        r is None,
{
    None
}

/// No frontmost application is known here.
pub fn frontmost_app_with_pid() -> (r: Option<FrontmostAppWithPid>)
    ensures
        r is None,
{
    None
}

/// Only copies the prompt.
pub fn paste_prompt_with_copier<C>(body: &str, copy_sender: C) -> (r: Result<(), String>) where
    C: FnOnce(&str) -> Result<(), String>,

    requires
        call_requires(copy_sender, (body,)),
    ensures
        call_ensures(copy_sender, (body,), r),
{
    copy_sender(body)
}

/// Focus-preserving paste is not available here.
pub fn post_focus_preserving_paste() -> (r: Result<(), String>)
    ensures
        r matches Err(e) && e@ == "Focus-preserving paste is only implemented for macOS targets."@,
{
    Err(String::from_str("Focus-preserving paste is only implemented for macOS targets."))
}

/// Focus-preserving submit is not available here.
pub fn post_focus_preserving_submit_key(submit_key: NativeSubmitKey) -> (r: Result<(), String>)
    ensures
        r matches Err(e) && e@ == "Focus-preserving submit is only implemented for macOS targets."@,
{
    Err(String::from_str("Focus-preserving submit is only implemented for macOS targets."))
}

/// Focus repair is not available here.
pub fn repair_focus_to_editable_element(pid: u32) -> (r: Result<(), String>)
    ensures
        r matches Err(e) && e@ == "AX focus repair is only implemented for macOS targets."@,
{
    Err(String::from_str("AX focus repair is only implemented for macOS targets."))
}

/// Target recovery is not available here.
pub fn recover_target_app_for_autosend<P>(bundle_id: &str, click_point: Option<P>) -> (r: Result<(), String>)
    ensures
        r matches Err(e) && e@ == "Target recovery is only implemented for macOS targets."@,
{
    Err(String::from_str("Target recovery is only implemented for macOS targets."))
}

/// Autosend is not available here: the prompt is only copied.
pub fn paste_prompt_and_submit_to_app_clipboard_with_copier<P, W, C, A>(
    body: &str,
    bundle_id: &str,
    target_pid: u32,
    target_launch_identity: ProcessLaunchIdentity,
    click_point: Option<P>,
    captured_window: Option<&W>,
    submit_key: NativeSubmitKey,
    activate_target: A,
    copy_sender: C,
) -> (r: AutosendOutcome) where
    C: FnOnce(&str) -> Result<(), String>,
    A: FnMut(u32) -> Result<(), String>,

    requires
        call_requires(copy_sender, (body,)),
    ensures
        exists|c: Result<(), String>|
            #[trigger] call_ensures(copy_sender, (body,), c) && match c {
                Ok(()) => failed_outcome(
                    r,
                    true,
                    AutosendFailureReason::NoSafeTarget,
                    "Autosend is only implemented for macOS targets."@,
                ),
                Err(e) => failed_outcome(r, false, AutosendFailureReason::CopyFailed, e@),
            },
{
    let c = copy_sender(body);
    let ghost cg = c;
    let r = match c {
        Ok(()) => AutosendOutcome::copied_without_send(
            String::from_str("Autosend is only implemented for macOS targets."),
        ),
        Err(error) => AutosendOutcome::copy_failed(error),
    };
    assert(call_ensures(copy_sender, (body,), cg));
    r
}

} // verus!
