//! Delivering a prompt into a target application: the permission gate, the
//! focus policy of each target, the ordered transaction that focuses, copies,
//! pastes and submits, and the outcome it reports.
use super::autosend_transaction::{
    lemma_transaction_success, answers_complete, scheduled_op, transaction_len, transaction_model, TransactionFailure,
    TransactionMachine, TransactionOp,
};
use super::input_profiles::{input_capability_profile, profile_for, InputCapabilityProfile, PasteVerificationPolicy};
use super::lsappinfo::{app_info_from_lsappinfo_output, app_info_of, front_asn_of, parse_front_asn, FrontmostAppInfo};
use super::{
    failed_outcome, pasted_only_outcome, sent_outcome, AccessibilityStatus, AutosendFailureReason,
    AutosendOutcome, FrontmostApp, FrontmostAppWithPid, NativeSubmitKey,
    ACCESSIBILITY_PERMISSION_REQUIRED_ERROR,
};
use super::scripts::{
    activate_script_spec, autosend_error_spec, format_autosend_error, paste_and_submit_to_app_script,
    repair_focus_to_editable_element_script, ACTIVATE_DELAY, PASTE_AND_RETURN, REPAIR_PREFIX,
    REPAIR_SUFFIX,
};
use crate::text::{decimal, str_eq};
use vstd::prelude::*;
use vstd::string::StringExecFns;

verus! {

/// The System Settings page that grants the Accessibility permission.
pub const ACCESSIBILITY_SETTINGS_URL: &'static str =
    "x-apple.systempreferences:com.apple.preference.security?Privacy_Accessibility";

/// The System Settings page that grants the Accessibility permission.
pub fn accessibility_settings_url() -> (r: &'static str)
    ensures
        r@ == ACCESSIBILITY_SETTINGS_URL@,
{
    ACCESSIBILITY_SETTINGS_URL
}

/// Whether this process may post input events, as `is_trusted` reports it.
pub fn accessibility_status<T>(is_trusted: T) -> (r: AccessibilityStatus) where T: FnOnce() -> bool
    requires
        call_requires(is_trusted, ()),
    ensures
        call_ensures(is_trusted, (), r.trusted),
{
    AccessibilityStatus { trusted: is_trusted() }
}

/// Asks for the Accessibility permission through `prompt_and_check`, which
/// shows the system prompt and reports whether the process is trusted.
pub fn request_accessibility_permission<T>(prompt_and_check: T) -> (r: AccessibilityStatus) where
    T: FnOnce() -> bool,

    requires
        call_requires(prompt_and_check, ()),
    ensures
        call_ensures(prompt_and_check, (), r.trusted),
{
    AccessibilityStatus { trusted: prompt_and_check() }
}

/// Fails with the permission error unless `is_trusted` says the process is
/// trusted.
pub fn ensure_accessibility_trusted_with<T>(is_trusted: T) -> (r: Result<(), String>) where
    T: FnOnce() -> bool,

    requires
        call_requires(is_trusted, ()),
    ensures
        (r is Ok && call_ensures(is_trusted, (), true)) || (r matches Err(e) && e@
            == ACCESSIBILITY_PERMISSION_REQUIRED_ERROR@ && call_ensures(is_trusted, (), false)),
{
    if is_trusted() {
        Ok(())
    } else {
        Err(String::from_str(ACCESSIBILITY_PERMISSION_REQUIRED_ERROR))
    }
}

/// The permission outcome when `is_trusted` says the process is not trusted,
/// and nothing when it is.
pub fn missing_accessibility_outcome_if_untrusted_with<T>(is_trusted: T) -> (r: Option<AutosendOutcome>) where
    T: FnOnce() -> bool,

    requires
        call_requires(is_trusted, ()),
    ensures
        (r is None && call_ensures(is_trusted, (), true)) || (r matches Some(o) && failed_outcome(
            o,
            false,
            AutosendFailureReason::MissingAccessibilityPermission,
            ACCESSIBILITY_PERMISSION_REQUIRED_ERROR@,
        ) && call_ensures(is_trusted, (), false)),
{
    if is_trusted() {
        None
    } else {
        Some(AutosendOutcome::missing_accessibility_permission())
    }
}

/// The front application's record, read from the output of `lsappinfo front`
/// (`front`) and of `lsappinfo info` for the ASN it names (`info`).
pub open spec fn frontmost_info_spec<G>(
    front: Option<String>,
    run_info: G,
    r: Option<FrontmostAppInfo>,
) -> bool where G: FnOnce(String) -> Option<String> {
    match front {
        None => r is None,
        Some(f) => match front_asn_of(f@) {
            None => r is None,
            Some(asn) => exists|a: String, info: Option<String>|
                a@ == asn && call_ensures(run_info, (a,), info) && match info {
                    None => r is None,
                    Some(i) => app_info_of(i@, r),
                },
        },
    }
}

/// Reads the front application: runs `lsappinfo front` through `run_front`,
/// then `lsappinfo info` for the ASN it names through `run_info`.
pub fn frontmost_app_info<F, G>(run_front: F, run_info: G) -> (r: Option<FrontmostAppInfo>) where
    F: FnOnce() -> Option<String>,
    G: FnOnce(String) -> Option<String>,

    requires
        call_requires(run_front, ()),
        forall|a: String| call_requires(run_info, (a,)),
    ensures
        exists|front: Option<String>| call_ensures(run_front, (), front) && frontmost_info_spec(front, run_info, r),
{
    let ghost g = run_info;
    let front = run_front();
    let ghost fr = front;
    match front {
        None => {
            assert(frontmost_info_spec(fr, g, None));
            None
        },
        Some(f) => match parse_front_asn(f.as_str()) {
            None => {
                assert(frontmost_info_spec(fr, g, None));
                None
            },
            Some(asn) => {
                let ghost a = asn;
                let info = run_info(asn);
                let ghost inf = info;
                let r = match info {
                    None => None,
                    Some(i) => app_info_from_lsappinfo_output(i.as_str()),
                };
                assert(a@ == front_asn_of(f@).unwrap() && call_ensures(g, (a,), inf) && match inf {
                    None => r is None,
                    Some(i) => app_info_of(i@, r),
                });
                assert(frontmost_info_spec(fr, g, r));
                r
            },
        },
    }
}

/// The front application's name and bundle identifier.
pub fn frontmost_app<F, G>(run_front: F, run_info: G) -> (r: Option<FrontmostApp>) where
    F: FnOnce() -> Option<String>,
    G: FnOnce(String) -> Option<String>,

    requires
        call_requires(run_front, ()),
        forall|a: String| call_requires(run_info, (a,)),
    ensures
        exists|front: Option<String>, info: Option<FrontmostAppInfo>|
            call_ensures(run_front, (), front) && frontmost_info_spec(front, run_info, info) && r
                == match info {
                Some(i) => Some(i.app),
                None => None,
            },
{
    match frontmost_app_info(run_front, run_info) {
        Some(info) => Some(info.app),
        None => None,
    }
}

/// The front application with its pid.
pub fn frontmost_app_with_pid<F, G>(run_front: F, run_info: G) -> (r: Option<FrontmostAppWithPid>) where
    F: FnOnce() -> Option<String>,
    G: FnOnce(String) -> Option<String>,

    requires
        call_requires(run_front, ()),
        forall|a: String| call_requires(run_info, (a,)),
    ensures
        exists|front: Option<String>, info: Option<FrontmostAppInfo>|
            call_ensures(run_front, (), front) && frontmost_info_spec(front, run_info, info) && r
                == match info {
                Some(i) => Some(FrontmostAppWithPid { app: i.app, pid: Some(i.pid) }),
                None => None,
            },
{
    match frontmost_app_info(run_front, run_info) {
        Some(info) => Some(FrontmostAppWithPid { app: info.app, pid: Some(info.pid) }),
        None => None,
    }
}

/// How a target's composer gets focus before a prompt is pasted.
#[derive(Clone, Copy, Debug, PartialEq, Eq, Structural)]
pub enum InputFocusPolicy {
    PreserveApplicationFirstResponder,
    ResolveEditableElement,
}

/// Accessibility targets have their editable element resolved and focused;
/// Codex and unprofiled applications keep their own first responder.
pub open spec fn focus_policy_for(bundle_id: Seq<char>) -> InputFocusPolicy {
    if bundle_id == "com.openai.codex"@ || (bundle_id != "com.anthropic.claudefordesktop"@
        && bundle_id != "com.tencent.xinWeChat"@) {
        InputFocusPolicy::PreserveApplicationFirstResponder
    } else {
        InputFocusPolicy::ResolveEditableElement
    }
}

/// How a target's composer gets focus.
pub fn input_focus_policy(bundle_id: &str) -> (r: InputFocusPolicy)
    ensures
        r == focus_policy_for(bundle_id@),
{
    match input_capability_profile(bundle_id, None) {
        InputCapabilityProfile::CodexFirstResponder => InputFocusPolicy::PreserveApplicationFirstResponder,
        InputCapabilityProfile::LegacyCapturedTarget => InputFocusPolicy::PreserveApplicationFirstResponder,
        InputCapabilityProfile::Accessibility(_) => InputFocusPolicy::ResolveEditableElement,
    }
}

/// The accessibility roles an editable element may have.
#[derive(Clone, Copy, Debug, PartialEq, Eq, Structural)]
pub enum EditableRole {
    TextArea,
    TextField,
    SearchField,
    ComboBox,
    WebArea,
}

/// The editable role named by an accessibility role string.
pub open spec fn editable_role_spec(role: Seq<char>) -> Option<EditableRole> {
    if role == "AXTextArea"@ {
        Some(EditableRole::TextArea)
    } else if role == "AXTextField"@ {
        Some(EditableRole::TextField)
    } else if role == "AXSearchField"@ {
        Some(EditableRole::SearchField)
    } else if role == "AXComboBox"@ {
        Some(EditableRole::ComboBox)
    } else if role == "AXWebArea"@ {
        Some(EditableRole::WebArea)
    } else {
        None
    }
}

/// The editable role named by an accessibility role string.
pub fn editable_role(role: &str) -> (r: Option<EditableRole>)
    ensures
        r == editable_role_spec(role@),
{
    if str_eq(role, "AXTextArea") {
        Some(EditableRole::TextArea)
    } else if str_eq(role, "AXTextField") {
        Some(EditableRole::TextField)
    } else if str_eq(role, "AXSearchField") {
        Some(EditableRole::SearchField)
    } else if str_eq(role, "AXComboBox") {
        Some(EditableRole::ComboBox)
    } else if str_eq(role, "AXWebArea") {
        Some(EditableRole::WebArea)
    } else {
        None
    }
}

/// Whether an element with this role may receive a prompt: text areas, text
/// fields and combo boxes may; search fields and web areas never do, whatever
/// their editable flags say.
pub fn role_can_receive_prompt(role: EditableRole, ax_editable: bool, value_settable: bool) -> (r: bool)
    ensures
        r == (role == EditableRole::TextArea || role == EditableRole::TextField || role
            == EditableRole::ComboBox),
{
    match role {
        EditableRole::SearchField => false,
        EditableRole::WebArea => false,
        EditableRole::TextArea => true,
        EditableRole::TextField => true,
        EditableRole::ComboBox => true,
    }
}

/// What is observed of a composer before and after a paste: a hash of its
/// value and its selected range, where it exposes them.
#[derive(Clone, Copy, Debug, PartialEq, Eq)]
pub struct PasteEvidenceSnapshot {
    pub value_hash: Option<u64>,
    pub selected_range: Option<(isize, isize)>,
}

/// Whether the observation the profile relies on was made both times and
/// changed; the profiles without such evidence never confirm a paste.
pub open spec fn evidence_changed_spec(
    policy: PasteVerificationPolicy,
    before: PasteEvidenceSnapshot,
    after: PasteEvidenceSnapshot,
) -> bool {
    match policy {
        PasteVerificationPolicy::ValueLengthOrHashChange => before.value_hash is Some
            && after.value_hash is Some && before.value_hash != after.value_hash,
        PasteVerificationPolicy::SelectionRangeChange => before.selected_range is Some
            && after.selected_range is Some && before.selected_range != after.selected_range,
        _ => false,
    }
}

/// Whether the paste left the evidence the profile asks for.
pub fn paste_evidence_changed(
    policy: PasteVerificationPolicy,
    before: &PasteEvidenceSnapshot,
    after: &PasteEvidenceSnapshot,
) -> (r: bool)
    ensures
        r == evidence_changed_spec(policy, *before, *after),
{
    match policy {
        PasteVerificationPolicy::ValueLengthOrHashChange => match (before.value_hash, after.value_hash) {
            (Some(b), Some(a)) => b != a,
            _ => false,
        },
        PasteVerificationPolicy::SelectionRangeChange => match (before.selected_range, after.selected_range) {
            (Some(b), Some(a)) => b.0 != a.0 || b.1 != a.1,
            _ => false,
        },
        PasteVerificationPolicy::FocusStableAfterProfiledDelay { .. } => false,
        PasteVerificationPolicy::PasteOnlyWithoutSubmitEvidence => false,
    }
}

/// Whether a paste into a target with `profile` counts as confirmed: for the
/// profiles that rely on the target's first responder or on the captured
/// target, always; for an accessibility profile, only when the evidence read
/// of the composer before and after the paste shows the change the profile
/// asks for.
pub open spec fn paste_confirmed_spec(
    profile: InputCapabilityProfile,
    before: Option<&PasteEvidenceSnapshot>,
    after: Option<&PasteEvidenceSnapshot>,
) -> bool {
    match profile {
        InputCapabilityProfile::Accessibility(a) => match (before, after) {
            (Some(b), Some(x)) => evidence_changed_spec(a.paste_verification, *b, *x),
            _ => false,
        },
        _ => true,
    }
}

/// Whether a paste into a target with `profile` counts as confirmed, given
/// the evidence read of its composer before and after the paste, where it
/// could be read.
pub fn paste_confirmed(
    profile: &InputCapabilityProfile,
    before: Option<&PasteEvidenceSnapshot>,
    after: Option<&PasteEvidenceSnapshot>,
) -> (r: bool)
    ensures
        r == paste_confirmed_spec(*profile, before, after),
{
    match profile {
        InputCapabilityProfile::Accessibility(a) => match (before, after) {
            (Some(b), Some(x)) => paste_evidence_changed(a.paste_verification, b, x),
            _ => false,
        },
        _ => true,
    }
}

/// Whether this app's own window is in front, so that focus must first go
/// back to the application used before.
pub open spec fn is_prompt_picker_spec(app: FrontmostApp) -> bool {
    app.bundle_id@ == "local.promptpicker.dev"@ || app.name@ == "Prompt Drawer"@
}

/// Whether to Command-Tab back before an autosend: only when this app is in
/// front.
pub fn should_cmd_tab_refocus_before_autosend(frontmost: Option<&FrontmostApp>) -> (r: bool)
    ensures
        r == (frontmost matches Some(a) && is_prompt_picker_spec(*a)),
{
    match frontmost {
        Some(app) => str_eq(app.bundle_id.as_str(), "local.promptpicker.dev") || str_eq(
            app.name.as_str(),
            "Prompt Drawer",
        ),
        None => false,
    }
}

/// The report of a finished delivery transaction.
pub open spec fn transaction_outcome(
    o: AutosendOutcome,
    key: NativeSubmitKey,
    failure: Option<TransactionFailure>,
) -> bool {
    match failure {
        None => if key == NativeSubmitKey::NoKey {
            pasted_only_outcome(o)
        } else {
            sent_outcome(o)
        },
        Some(TransactionFailure::TargetChanged) => failed_outcome(
            o,
            false,
            AutosendFailureReason::TargetChanged,
            "The target app or composer changed during prompt delivery."@,
        ),
        Some(TransactionFailure::ComposerUnavailable) => failed_outcome(
            o,
            false,
            AutosendFailureReason::ComposerNotFound,
            "No unambiguous composer was found in the captured window."@,
        ),
        Some(TransactionFailure::FocusNotAcquired) => failed_outcome(
            o,
            false,
            AutosendFailureReason::FocusNotAcquired,
            "The target composer could not be focused and verified."@,
        ),
        Some(TransactionFailure::ClipboardWriteFailed) => failed_outcome(
            o,
            false,
            AutosendFailureReason::CopyFailed,
            "Clipboard write failed."@,
        ),
        Some(TransactionFailure::PasteEventFailed) => failed_outcome(
            o,
            true,
            AutosendFailureReason::PasteEventFailed,
            "The prompt paste event failed; it was not retried."@,
        ),
        Some(TransactionFailure::PasteNotConfirmed) => failed_outcome(
            o,
            true,
            AutosendFailureReason::PasteNotConfirmed,
            "The prompt paste could not be confirmed; it was not retried."@,
        ),
        Some(TransactionFailure::SubmitEventFailed) => failed_outcome(
            o,
            true,
            AutosendFailureReason::ReturnEventFailed,
            "The prompt was pasted, but the submit key failed."@,
        ),
    }
}

/// Reports a finished delivery transaction.
pub fn outcome_for_transaction(submit_key: NativeSubmitKey, failure: Option<TransactionFailure>) -> (r: AutosendOutcome)
    ensures
        transaction_outcome(r, submit_key, failure),
{
    match failure {
        None => if submit_key == NativeSubmitKey::NoKey {
            AutosendOutcome::pasted_only()
        } else {
            AutosendOutcome::sent()
        },
        Some(TransactionFailure::TargetChanged) => AutosendOutcome::failed(
            false,
            AutosendFailureReason::TargetChanged,
            String::from_str("The target app or composer changed during prompt delivery."),
        ),
        Some(TransactionFailure::ComposerUnavailable) => AutosendOutcome::failed(
            false,
            AutosendFailureReason::ComposerNotFound,
            String::from_str("No unambiguous composer was found in the captured window."),
        ),
        Some(TransactionFailure::FocusNotAcquired) => AutosendOutcome::failed(
            false,
            AutosendFailureReason::FocusNotAcquired,
            String::from_str("The target composer could not be focused and verified."),
        ),
        Some(TransactionFailure::ClipboardWriteFailed) => AutosendOutcome::copy_failed(
            String::from_str("Clipboard write failed."),
        ),
        Some(TransactionFailure::PasteEventFailed) => AutosendOutcome::paste_event_failed(
            String::from_str("The prompt paste event failed; it was not retried."),
        ),
        Some(TransactionFailure::PasteNotConfirmed) => AutosendOutcome::failed(
            true,
            AutosendFailureReason::PasteNotConfirmed,
            String::from_str("The prompt paste could not be confirmed; it was not retried."),
        ),
        Some(TransactionFailure::SubmitEventFailed) => AutosendOutcome::return_event_failed(
            String::from_str("The prompt was pasted, but the submit key failed."),
        ),
    }
}

/// In a delivery transaction the target and composer checks that this
/// delivery makes of its own accord always pass: only focusing, re-checking
/// focus, copying, pasting, confirming and submitting can fail.
pub open spec fn fixed_checks_pass(answers: Seq<bool>) -> bool {
    forall|i: int|
        0 <= i < answers.len() && (scheduled_op(i) == TransactionOp::ValidateTarget || scheduled_op(i)
            == TransactionOp::ResolveComposer) ==> #[trigger] answers[i]
}

/// Whether `a` is what the step at position `i` of a clipboard delivery may
/// answer, given the operations it calls and the arguments it hands them:
/// the target and composer checks pass of themselves; focusing is recovering
/// the target (`bundle_id`, `click_point`, `captured_window`) without error;
/// re-checking focus is an answer of `V` for `bundle_id` and the window;
/// writing the clipboard is `copy_sender` taking `body` without error; the
/// paste, its confirmation and the submit (with `key`) are answers of their
/// operations.
pub open spec fn delivery_op_answer<P, W, C, R, V, S1, E, S2>(
    i: int,
    a: bool,
    body: &str,
    bundle_id: &str,
    click_point: Option<P>,
    captured_window: Option<&W>,
    key: NativeSubmitKey,
    copy_sender: C,
) -> bool where
    C: FnOnce(&str) -> Result<(), String>,
    R: FnMut(&str, Option<P>, Option<&W>) -> Result<(), String>,
    V: FnMut(&str, Option<&W>) -> bool,
    S1: FnMut() -> Result<(), String>,
    E: FnMut() -> bool,
    S2: FnMut(NativeSubmitKey) -> Result<(), String>,
 {
    match scheduled_op(i) {
        TransactionOp::ValidateTarget => a,
        TransactionOp::ResolveComposer => a,
        TransactionOp::FocusComposer => exists|f: R, res: Result<(), String>|
            #[trigger] call_ensures(f, (bundle_id, click_point, captured_window), res) && a == res is Ok,
        TransactionOp::RevalidateFocus => exists|f: V| #[trigger] call_ensures(f, (bundle_id, captured_window), a),
        TransactionOp::WriteClipboard => exists|res: Result<(), String>|
            #[trigger] call_ensures(copy_sender, (body,), res) && a == res is Ok,
        TransactionOp::PostPaste => exists|f: S1, res: Result<(), String>|
            #[trigger] call_ensures(f, (), res) && a == res is Ok,
        TransactionOp::VerifyPaste => exists|f: E| #[trigger] call_ensures(f, (), a),
        TransactionOp::PostSubmit => exists|f: S2, res: Result<(), String>|
            #[trigger] call_ensures(f, (key,), res) && a == res is Ok,
    }
}

/// Delivers a prompt by clipboard into a target whose focus the given
/// operations recover and verify: after the permission check, one
/// transaction focuses the target, copies the prompt, re-checks focus,
/// pastes, confirms the paste after a pause of 220 ms, re-checks focus and
/// submits, stopping at the first step that fails.
pub fn paste_prompt_and_submit_to_app_clipboard_with_ops<P, W, C, T, R, V, S1, E, S2, Z>(
    body: &str,
    bundle_id: &str,
    click_point: Option<P>,
    captured_window: Option<&W>,
    submit_key: NativeSubmitKey,
    copy_sender: C,
    is_trusted: T,
    mut recover_target: R,
    mut verify_target: V,
    mut paste_sender: S1,
    mut verify_paste: E,
    mut submit_sender: S2,
    mut sleeper: Z,
) -> (r: AutosendOutcome) where
    P: Copy,
    C: FnOnce(&str) -> Result<(), String>,
    T: FnOnce() -> bool,
    R: FnMut(&str, Option<P>, Option<&W>) -> Result<(), String>,
    V: FnMut(&str, Option<&W>) -> bool,
    S1: FnMut() -> Result<(), String>,
    E: FnMut() -> bool,
    S2: FnMut(NativeSubmitKey) -> Result<(), String>,
    Z: FnMut(u64),

    requires
        call_requires(is_trusted, ()),
        forall|f: C, b: &str| call_requires(f, (b,)),
        forall|f: R, b: &str, p: Option<P>, w: Option<&W>| call_requires(f, (b, p, w)),
        forall|f: V, b: &str, w: Option<&W>| call_requires(f, (b, w)),
        forall|f: S1| call_requires(f, ()),
        forall|f: E| call_requires(f, ()),
        forall|f: S2, k: NativeSubmitKey| call_requires(f, (k,)),
        forall|f: Z, ms: u64| call_requires(f, (ms,)),
    ensures
        (call_ensures(is_trusted, (), false) && failed_outcome(
            r,
            false,
            AutosendFailureReason::MissingAccessibilityPermission,
            ACCESSIBILITY_PERMISSION_REQUIRED_ERROR@,
        )) || (call_ensures(is_trusted, (), true) && exists|answers: Seq<bool>|
            answers_complete(submit_key, answers) && fixed_checks_pass(answers)
                && #[trigger] transaction_outcome(
                r,
                submit_key,
                transaction_model(submit_key, answers).failure,
            ) && forall|i: int|
                0 <= i < answers.len() ==> delivery_op_answer::<P, W, C, R, V, S1, E, S2>(
                    i,
                    #[trigger] answers[i],
                    body,
                    bundle_id,
                    click_point,
                    captured_window,
                    submit_key,
                    copy_sender,
                )),
{
    let ghost copy_fn = copy_sender;
    let trusted = is_trusted();
    if !trusted {
        return AutosendOutcome::missing_accessibility_permission();
    }
    let mut copy = Some(copy_sender);
    let mut machine = TransactionMachine::new(submit_key);
    loop
        invariant
            machine.wf(),
            machine.key() == submit_key,
            fixed_checks_pass(machine.answers()),
            copy is Some <==> machine.answers().len() <= 4,
            copy matches Some(c) ==> c == copy_fn,
            forall|f: C, b: &str| call_requires(f, (b,)),
            forall|f: R, b: &str, p: Option<P>, w: Option<&W>| call_requires(f, (b, p, w)),
            forall|f: V, b: &str, w: Option<&W>| call_requires(f, (b, w)),
            forall|f: S1| call_requires(f, ()),
            forall|f: E| call_requires(f, ()),
            forall|f: S2, k: NativeSubmitKey| call_requires(f, (k,)),
            forall|f: Z, ms: u64| call_requires(f, (ms,)),
            forall|i: int|
                0 <= i < machine.answers().len() ==> delivery_op_answer::<P, W, C, R, V, S1, E, S2>(
                    i,
                    #[trigger] machine.answers()[i],
                    body,
                    bundle_id,
                    click_point,
                    captured_window,
                    submit_key,
                    copy_fn,
                ),
        ensures
            machine.wf(),
            machine.key() == submit_key,
            machine.is_finished(),
            fixed_checks_pass(machine.answers()),
            forall|i: int|
                0 <= i < machine.answers().len() ==> delivery_op_answer::<P, W, C, R, V, S1, E, S2>(
                    i,
                    #[trigger] machine.answers()[i],
                    body,
                    bundle_id,
                    click_point,
                    captured_window,
                    submit_key,
                    copy_fn,
                ),
        decreases transaction_len(submit_key) - machine.answers().len(),
    {
        let ghost n = machine.answers().len();
        let ghost prev = machine.answers();
        let ok = match machine.next_op() {
            None => break,
            Some(TransactionOp::ValidateTarget) => true,
            Some(TransactionOp::ResolveComposer) => true,
            Some(TransactionOp::FocusComposer) => {
                let ghost g = recover_target;
                let res = recover_target(bundle_id, click_point, captured_window);
                assert(call_ensures(g, (bundle_id, click_point, captured_window), res));
                res.is_ok()
            },
            Some(TransactionOp::RevalidateFocus) => {
                let ghost g = verify_target;
                let a = verify_target(bundle_id, captured_window);
                assert(call_ensures(g, (bundle_id, captured_window), a));
                a
            },
            Some(TransactionOp::WriteClipboard) => match copy.take() {
                Some(send) => {
                    let res = send(body);
                    assert(call_ensures(copy_fn, (body,), res));
                    res.is_ok()
                },
                None => false,
            },
            Some(TransactionOp::PostPaste) => {
                let ghost g = paste_sender;
                let res = paste_sender();
                assert(call_ensures(g, (), res));
                res.is_ok()
            },
            Some(TransactionOp::VerifyPaste) => {
                sleeper(220);
                let ghost g = verify_paste;
                let a = verify_paste();
                assert(call_ensures(g, (), a));
                a
            },
            Some(TransactionOp::PostSubmit) => {
                let ghost g = submit_sender;
                let res = submit_sender(submit_key);
                assert(call_ensures(g, (submit_key,), res));
                res.is_ok()
            },
        };
        assert(delivery_op_answer::<P, W, C, R, V, S1, E, S2>(
            n as int,
            ok,
            body,
            bundle_id,
            click_point,
            captured_window,
            submit_key,
            copy_fn,
        ));
        machine.advance(ok);
        proof {
            assert(machine.answers()[n as int] == ok);
            assert forall|i: int| 0 <= i < machine.answers().len() implies delivery_op_answer::<P, W, C, R, V, S1, E, S2>(
                i,
                #[trigger] machine.answers()[i],
                body,
                bundle_id,
                click_point,
                captured_window,
                submit_key,
                copy_fn,
            ) by {
                if i < n {
                    assert(machine.answers()[i] == prev[i]);
                }
            }
        }
    }
    let ghost answers = machine.answers();
    let result = machine.into_result();
    let r = outcome_for_transaction(submit_key, result.failure);
    assert(answers_complete(submit_key, answers) && fixed_checks_pass(answers) && transaction_outcome(
        r,
        submit_key,
        transaction_model(submit_key, answers).failure,
    ));
    r
}

/// A delivery reports the prompt as sent only when its transaction wrote the
/// clipboard, posted the paste and posted the submit key; one without a
/// submit key never reports it as sent, and every failure leaves it unsent.
pub proof fn lemma_sent_only_after_submit(
    o: AutosendOutcome,
    key: NativeSubmitKey,
    answers: Seq<bool>,
)
    requires
        answers_complete(key, answers),
        transaction_outcome(o, key, transaction_model(key, answers).failure),
    ensures
        o.sent ==> key != NativeSubmitKey::NoKey && transaction_model(key, answers).clipboard_written
            && transaction_model(key, answers).paste_posted && transaction_model(
            key,
            answers,
        ).submit_posted,
        key == NativeSubmitKey::NoKey ==> !o.sent,
        transaction_model(key, answers).failure is Some ==> !o.sent && o.reason is Some,
        o.completion is Some <==> transaction_model(key, answers).failure is None,
{
    lemma_transaction_success(key, answers);
}

/// `r` is the error that asks for the Accessibility permission.
pub open spec fn permission_error<T>(r: Result<T, String>) -> bool {
    r matches Err(e) && e@ == ACCESSIBILITY_PERMISSION_REQUIRED_ERROR@
}

/// What running a script reported: whether it exited successfully, and what
/// it wrote to its error output.
pub struct ScriptRun {
    pub success: bool,
    pub stderr: String,
}

/// The result of running a script: an error when it could not be started,
/// its error output when it failed.
pub open spec fn script_result(k: Result<ScriptRun, String>) -> Result<(), String> {
    match k {
        Err(e) => Err(e),
        Ok(run) => if run.success {
            Ok(())
        } else {
            Err(run.stderr)
        },
    }
}

/// The result of a script run, as `script_result` states it.
pub fn script_outcome(k: Result<ScriptRun, String>) -> (r: Result<(), String>)
    ensures
        r == script_result(k),
{
    match k {
        Err(e) => Err(e),
        Ok(run) => if run.success {
            Ok(())
        } else {
            Err(run.stderr)
        },
    }
}

/// The keystroke script that pastes into the frontmost application.
pub const PASTE_KEYSTROKE_SCRIPT: &'static str =
    "tell application \"System Events\" to keystroke \"v\" using command down";

/// Copies `body` and pastes it into the frontmost application, once the
/// permission check passes. The paste script's exit status is not consulted.
pub fn paste_prompt_with_copier<C, T, K>(body: &str, copy_sender: C, is_trusted: T, run_script: K) -> (r: Result<(), String>) where
    C: FnOnce(&str) -> Result<(), String>,
    T: FnOnce() -> bool,
    K: FnOnce(&str) -> Result<ScriptRun, String>,

    requires
        call_requires(is_trusted, ()),
        call_requires(copy_sender, (body,)),
        forall|s: &str| call_requires(run_script, (s,)),
    ensures
        (call_ensures(is_trusted, (), false) && permission_error(r)) || (call_ensures(is_trusted, (), true)
            && exists|c: Result<(), String>|
            call_ensures(copy_sender, (body,), c) && match c {
                Err(e) => r == Err::<(), String>(e),
                Ok(()) => exists|k: Result<ScriptRun, String>|
                    call_ensures(run_script, (PASTE_KEYSTROKE_SCRIPT,), k) && match k {
                        Err(e) => r == Err::<(), String>(e),
                        Ok(_) => r is Ok,
                    },
            }),
{
    if !is_trusted() {
        return Err(String::from_str(ACCESSIBILITY_PERMISSION_REQUIRED_ERROR));
    }
    let c = copy_sender(body);
    let ghost cg = c;
    match c {
        Err(e) => Err(e),
        Ok(()) => {
            let k = run_script(PASTE_KEYSTROKE_SCRIPT);
            let ghost kg = k;
            let r = match k {
                Err(e) => Err(e),
                Ok(_) => Ok(()),
            };
            assert(call_ensures(run_script, (PASTE_KEYSTROKE_SCRIPT,), kg));
            r
        },
    }
}

/// The result of pasting into an application by script: refused without the
/// permission; otherwise the copy's error, or the script's start error, or its
/// error output for `paste-and-submit`, or success.
pub open spec fn app_paste_result<C, T, K>(
    body: &str,
    bundle_id: &str,
    copy_sender: C,
    is_trusted: T,
    run_script: K,
    r: Result<(), String>,
) -> bool where
    C: FnOnce(&str) -> Result<(), String>,
    T: Fn() -> bool,
    K: Fn(&str) -> Result<ScriptRun, String>,
 {
    (call_ensures(is_trusted, (), false) && permission_error(r)) || (call_ensures(is_trusted, (), true)
        && exists|c: Result<(), String>|
        #[trigger] call_ensures(copy_sender, (body,), c) && match c {
            Err(e) => r == Err::<(), String>(e),
            Ok(()) => exists|s: &str, k: Result<ScriptRun, String>|
                s@ == activate_script_spec(bundle_id@) + ACTIVATE_DELAY@ + PASTE_AND_RETURN@
                    && #[trigger] call_ensures(run_script, (s,), k) && match k {
                    Err(e) => r == Err::<(), String>(e),
                    Ok(run) => if run.success {
                        r is Ok
                    } else {
                        r matches Err(e) && e@ == autosend_error_spec("paste-and-submit"@, run.stderr@)
                    },
                },
        })
}

/// Copies `body`, then runs the script that activates the target, pastes and
/// presses Return; a failing script is reported with its error output.
pub fn paste_prompt_and_submit_to_app_with_copier<C, T, K>(
    body: &str,
    bundle_id: &str,
    copy_sender: C,
    is_trusted: &T,
    run_script: &K,
) -> (r: Result<(), String>) where
    C: FnOnce(&str) -> Result<(), String>,
    T: Fn() -> bool,
    K: Fn(&str) -> Result<ScriptRun, String>,

    requires
        call_requires(*is_trusted, ()),
        call_requires(copy_sender, (body,)),
        forall|s: &str| call_requires(*run_script, (s,)),
    ensures
        app_paste_result(body, bundle_id, copy_sender, *is_trusted, *run_script, r),
{
    if !is_trusted() {
        return Err(String::from_str(ACCESSIBILITY_PERMISSION_REQUIRED_ERROR));
    }
    match copy_sender(body) {
        Err(e) => Err(e),
        Ok(()) => {
            let script = paste_and_submit_to_app_script(bundle_id);
            let arg = script.as_str();
            let k = run_script(arg);
            let ghost kg = k;
            let r = match k {
                Err(e) => Err(e),
                Ok(run) => if run.success {
                    Ok(())
                } else {
                    Err(format_autosend_error("paste-and-submit", run.stderr.as_str()))
                },
            };
            assert(call_ensures(*run_script, (arg,), kg));
            r
        },
    }
}

/// The result of pasting by a given script: refused without the
/// permission; otherwise the copy's error, or the script's start error, or
/// its error output for `method`, or success.
pub open spec fn scripted_paste_result<C, T, K>(
    body: &str,
    script: &str,
    method: &str,
    copy_sender: C,
    is_trusted: T,
    run_script: K,
    r: Result<(), String>,
) -> bool where
    C: FnOnce(&str) -> Result<(), String>,
    T: FnOnce() -> bool,
    K: FnOnce(&str) -> Result<ScriptRun, String>,
 {
    (call_ensures(is_trusted, (), false) && permission_error(r)) || (call_ensures(is_trusted, (), true)
        && exists|c: Result<(), String>|
        #[trigger] call_ensures(copy_sender, (body,), c) && match c {
            Err(e) => r == Err::<(), String>(e),
            Ok(()) => exists|k: Result<ScriptRun, String>|
                #[trigger] call_ensures(run_script, (script,), k) && match k {
                    Err(e) => r == Err::<(), String>(e),
                    Ok(run) => if run.success {
                        r is Ok
                    } else {
                        r matches Err(e) && e@ == autosend_error_spec(method@, run.stderr@)
                    },
                },
        })
}

/// Copies `body` once the permission check passes, then runs `script`, which
/// pastes it; a failing script is reported with its error output as a
/// failure of `method`.
pub fn paste_prompt_with_script<C, T, K>(
    body: &str,
    script: &str,
    method: &str,
    copy_sender: C,
    is_trusted: T,
    run_script: K,
) -> (r: Result<(), String>) where
    C: FnOnce(&str) -> Result<(), String>,
    T: FnOnce() -> bool,
    K: FnOnce(&str) -> Result<ScriptRun, String>,

    requires
        call_requires(is_trusted, ()),
        call_requires(copy_sender, (body,)),
        call_requires(run_script, (script,)),
    ensures
        scripted_paste_result(body, script, method, copy_sender, is_trusted, run_script, r),
{
    if !is_trusted() {
        return Err(String::from_str(ACCESSIBILITY_PERMISSION_REQUIRED_ERROR));
    }
    let c = copy_sender(body);
    let ghost cg = c;
    match c {
        Err(e) => Err(e),
        Ok(()) => {
            let k = run_script(script);
            let ghost kg = k;
            let r = match k {
                Err(e) => Err(e),
                Ok(run) => if run.success {
                    Ok(())
                } else {
                    Err(format_autosend_error(method, run.stderr.as_str()))
                },
            };
            assert(call_ensures(run_script, (script,), kg));
            r
        },
    }
}

/// Focuses an editable element of the target's front window through a
/// System Events script, once the permission check passes; any failure is
/// reported as one of the `ax-focus-repair` step.
pub fn repair_focus_to_editable_element<T, K>(pid: u32, is_trusted: T, run_script: K) -> (r: Result<(), String>) where
    T: FnOnce() -> bool,
    K: FnOnce(&str) -> Result<ScriptRun, String>,

    requires
        call_requires(is_trusted, ()),
        forall|s: &str| call_requires(run_script, (s,)),
    ensures
        (call_ensures(is_trusted, (), false) && permission_error(r)) || (call_ensures(is_trusted, (), true)
            && exists|s: &str, k: Result<ScriptRun, String>|
            s@ == REPAIR_PREFIX@ + decimal(pid as nat) + REPAIR_SUFFIX@ && call_ensures(
                run_script,
                (s,),
                k,
            ) && match script_result(k) {
                Ok(()) => r is Ok,
                Err(e) => r matches Err(m) && m@ == autosend_error_spec("ax-focus-repair"@, e@),
            }),
{
    if !is_trusted() {
        return Err(String::from_str(ACCESSIBILITY_PERMISSION_REQUIRED_ERROR));
    }
    let script = repair_focus_to_editable_element_script(pid);
    let arg = script.as_str();
    let k = run_script(arg);
    let ghost kg = k;
    let r = match script_outcome(k) {
        Ok(()) => Ok(()),
        Err(e) => Err(format_autosend_error("ax-focus-repair", e.as_str())),
    };
    assert(call_ensures(run_script, (arg,), kg));
    r
}

/// The result of preparing a target that keeps its first responder: clicking
/// the recorded point, where there is one, decides it.
pub open spec fn click_focus_result<P, C>(
    click_point: Option<P>,
    click_target: C,
    r: Result<Option<u32>, String>,
) -> bool where C: FnOnce(P) -> Result<(), String> {
    match click_point {
        None => r == Ok::<Option<u32>, String>(None),
        Some(p) => exists|c: Result<(), String>|
            #[trigger] call_ensures(click_target, (p,), c) && match c {
                Ok(()) => r == Ok::<Option<u32>, String>(None),
                Err(e) => r == Err::<Option<u32>, String>(e),
            },
    }
}

/// Prepares the target's composer for a paste. A target that keeps its own
/// first responder is only clicked at the recorded point, if there is one;
/// any other has its editable element focused natively, which must name the
/// element's process.
pub fn prepare_focus_for_policy_with_ops<P, N, C, V>(
    policy: InputFocusPolicy,
    app_pid: u32,
    click_point: Option<P>,
    native_focus: N,
    click_target: C,
    verify_focus: V,
) -> (r: Result<Option<u32>, String>) where
    N: FnOnce(u32) -> Result<Option<u32>, String>,
    C: FnOnce(P) -> Result<(), String>,
    V: FnOnce(u32) -> Result<Option<u32>, String>,

    requires
        call_requires(native_focus, (app_pid,)),
        forall|p: P| call_requires(click_target, (p,)),
    ensures
        policy == InputFocusPolicy::PreserveApplicationFirstResponder ==> click_focus_result(
            click_point,
            click_target,
            r,
        ),
        policy == InputFocusPolicy::ResolveEditableElement ==> exists|n: Result<Option<u32>, String>|
            call_ensures(native_focus, (app_pid,), n) && match n {
                Ok(Some(pid)) => r == Ok::<Option<u32>, String>(Some(pid)),
                Ok(None) => r matches Err(e) && e@
                    == "No editable input element was found in the target window."@,
                Err(e) => r == Err::<Option<u32>, String>(e),
            },
{
    if policy == InputFocusPolicy::PreserveApplicationFirstResponder {
        if let Some(p) = click_point {
            let c = click_target(p);
            let ghost cg = c;
            let r = match c {
                Ok(()) => Ok(None),
                Err(e) => Err(e),
            };
            assert(call_ensures(click_target, (p,), cg) && match cg {
                Ok(()) => r == Ok::<Option<u32>, String>(None),
                Err(e) => r == Err::<Option<u32>, String>(e),
            });
            assert(click_point == Some(p));
            assert(click_focus_result(click_point, click_target, r));
            return r;
        }
        return Ok(None);
    }
    match native_focus(app_pid) {
        Ok(Some(element_pid)) => Ok(Some(element_pid)),
        Ok(None) => Err(String::from_str("No editable input element was found in the target window.")),
        Err(error) => Err(error),
    }
}

} // verus!
