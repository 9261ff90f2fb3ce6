//! The macOS platform layer: application records, delivery outcomes, and the
//! logic that inserts a prompt into another application's composer.
pub mod autosend_transaction;
pub mod ax_client;
pub mod ax_diagnostics;
pub mod composer_resolver;
pub mod delivery;
pub mod focus_controller;
pub mod input_profiles;
pub mod keys;
pub mod lsappinfo;
pub mod process_group;
pub mod script_delivery;
pub mod scripts;
pub mod target_recovery;

pub use delivery::{
    accessibility_settings_url, accessibility_status, frontmost_app, frontmost_app_with_pid,
    paste_prompt_and_submit_to_app_clipboard_with_ops, paste_prompt_and_submit_to_app_with_copier,
    paste_prompt_with_copier, repair_focus_to_editable_element, request_accessibility_permission,
};
pub use keys::{
    focus_preserving_paste_and_submit, post_focus_preserving_paste, post_focus_preserving_submit_key,
};
pub use lsappinfo::{
    app_info_from_lsappinfo_output, parse_app_name, parse_bundle_id, parse_front_asn, parse_pid,
    parse_visible_process_asns,
};

use vstd::prelude::*;
use vstd::string::StringExecFns;

verus! {

/// Error text reported whenever prompt insertion needs the Accessibility permission.
pub const ACCESSIBILITY_PERMISSION_REQUIRED_ERROR: &'static str =
    "Accessibility permission required for prompt insertion.";

/// An application as reported by the system: display name and bundle identifier.
#[derive(Clone, Debug)]
pub struct FrontmostApp {
    pub name: String,
    pub bundle_id: String,
}

impl FrontmostApp {
    /// A copy of this application record.
    pub fn duplicate(&self) -> (r: FrontmostApp)
        ensures
            r == *self,
    {
        FrontmostApp { name: self.name.clone(), bundle_id: self.bundle_id.clone() }
    }
}

/// An application together with its process id, when one is known.
#[derive(Clone, Debug)]
pub struct FrontmostAppWithPid {
    pub app: FrontmostApp,
    pub pid: Option<u32>,
}

/// The start time of a process; together with a pid it tells a restarted
/// process apart from the one that was observed earlier.
#[derive(Clone, Copy, Debug, PartialEq, Eq, Structural)]
pub struct ProcessLaunchIdentity {
    pub seconds: u64,
    pub microseconds: u64,
}

/// Whether this process may post input events to other applications.
#[derive(Debug)]
pub struct AccessibilityStatus {
    pub trusted: bool,
}

#[derive(Clone, Copy, Debug, PartialEq, Eq, Structural)]
pub enum AutosendFailureReason {
    CopyFailed,
    MissingAccessibilityPermission,
    NoSafeTarget,
    PasteEventFailed,
    ReturnEventFailed,
    TargetFocusFailed,
    TargetChanged,
    ComposerNotFound,
    ComposerAmbiguous,
    FocusNotAcquired,
    PasteNotConfirmed,
}

#[derive(Clone, Copy, Debug, PartialEq, Eq, Structural)]
pub enum AutosendCompletion {
    PastedOnly,
    Submitted,
}

/// What happened to one prompt delivery.
#[derive(Clone, Debug)]
pub struct AutosendOutcome {
    pub copied: bool,
    pub sent: bool,
    pub completion: Option<AutosendCompletion>,
    pub error: Option<String>,
    pub reason: Option<AutosendFailureReason>,
}

/// The key pressed after pasting, if any.
#[derive(Clone, Copy, Debug, PartialEq, Eq, Structural)]
pub enum NativeSubmitKey {
    NoKey,
    Enter,
    CommandEnter,
}

/// A delivery that pasted and submitted the prompt.
pub open spec fn sent_outcome(o: AutosendOutcome) -> bool {
    &&& o.copied
    &&& o.sent
    &&& o.completion == Some(AutosendCompletion::Submitted)
    &&& o.error is None
    &&& o.reason is None
}

/// A delivery that pasted the prompt and, as asked, did not submit it.
pub open spec fn pasted_only_outcome(o: AutosendOutcome) -> bool {
    &&& o.copied
    &&& !o.sent
    &&& o.completion == Some(AutosendCompletion::PastedOnly)
    &&& o.error is None
    &&& o.reason is None
}

/// A failed delivery with the given copy state, reason and message.
pub open spec fn failed_outcome(
    o: AutosendOutcome,
    copied: bool,
    reason: AutosendFailureReason,
    error: Seq<char>,
) -> bool {
    &&& o.copied == copied
    &&& !o.sent
    &&& o.completion is None
    &&& o.error matches Some(e) && e@ == error
    &&& o.reason == Some(reason)
}

impl AutosendOutcome {
    pub fn failed(copied: bool, reason: AutosendFailureReason, error: String) -> (r: Self)
        ensures
            failed_outcome(r, copied, reason, error@),
    {
        AutosendOutcome {
            copied,
            sent: false,
            completion: None,
            error: Some(error),
            reason: Some(reason),
        }
    }

    pub fn sent() -> (r: Self)
        ensures
            sent_outcome(r),
    {
        AutosendOutcome {
            copied: true,
            sent: true,
            completion: Some(AutosendCompletion::Submitted),
            error: None,
            reason: None,
        }
    }

    pub fn pasted_only() -> (r: Self)
        ensures
            pasted_only_outcome(r),
    {
        AutosendOutcome {
            copied: true,
            sent: false,
            completion: Some(AutosendCompletion::PastedOnly),
            error: None,
            reason: None,
        }
    }

    pub fn copy_failed(error: String) -> (r: Self)
        ensures
            failed_outcome(r, false, AutosendFailureReason::CopyFailed, error@),
    {
        Self::failed(false, AutosendFailureReason::CopyFailed, error)
    }

    pub fn keyboard_failed(error: String) -> (r: Self)
        ensures
            failed_outcome(r, true, AutosendFailureReason::PasteEventFailed, error@),
    {
        Self::paste_event_failed(error)
    }

    pub fn missing_accessibility_permission() -> (r: Self)
        ensures
            failed_outcome(
                r,
                false,
                AutosendFailureReason::MissingAccessibilityPermission,
                ACCESSIBILITY_PERMISSION_REQUIRED_ERROR@,
            ),
    {
        Self::failed(
            false,
            AutosendFailureReason::MissingAccessibilityPermission,
            String::from_str(ACCESSIBILITY_PERMISSION_REQUIRED_ERROR),
        )
    }

    pub fn copied_without_send(error: String) -> (r: Self)
        ensures
            failed_outcome(r, true, AutosendFailureReason::NoSafeTarget, error@),
    {
        Self::failed(true, AutosendFailureReason::NoSafeTarget, error)
    }

    pub fn paste_event_failed(error: String) -> (r: Self)
        ensures
            failed_outcome(r, true, AutosendFailureReason::PasteEventFailed, error@),
    {
        Self::failed(true, AutosendFailureReason::PasteEventFailed, error)
    }

    pub fn return_event_failed(error: String) -> (r: Self)
        ensures
            failed_outcome(r, true, AutosendFailureReason::ReturnEventFailed, error@),
    {
        Self::failed(true, AutosendFailureReason::ReturnEventFailed, error)
    }

    pub fn target_focus_failed(error: String) -> (r: Self)
        ensures
            failed_outcome(r, false, AutosendFailureReason::TargetFocusFailed, error@),
    {
        Self::failed(false, AutosendFailureReason::TargetFocusFailed, error)
    }
}

} // verus!
