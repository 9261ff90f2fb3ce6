//! Deliveries driven by System Events scripts: bringing the previous
//! application back when this app is in front, activating the target, and
//! typing or pasting a prompt into the target or the frontmost application.
use super::delivery::{
    app_paste_result, is_prompt_picker_spec, missing_accessibility_outcome_if_untrusted_with,
    paste_prompt_and_submit_to_app_with_copier, permission_error, script_outcome, script_result,
    should_cmd_tab_refocus_before_autosend, ScriptRun,
};
use super::keys::{post_focus_preserving_paste, post_focus_preserving_submit_key, KeyEvent};
use super::scripts::{
    activate_script_spec, activate_target_script, autosend_error_spec, cmd_tab_refocus_previous_app_script,
    direct_type_allowed, direct_type_and_submit_to_app_script, escaped, foreground_paste_and_submit_script,
    foreground_type_and_submit_script, format_autosend_error, should_direct_type, ACTIVATE_DELAY,
    CMD_TAB_REFOCUS, PASTE_AND_RETURN, TYPE_PREFIX, TYPE_SUFFIX,
};
use super::{
    failed_outcome, sent_outcome, AutosendFailureReason, AutosendOutcome, FrontmostApp, NativeSubmitKey,
    ACCESSIBILITY_PERMISSION_REQUIRED_ERROR,
};
use crate::text::push_str;
use vstd::prelude::*;
use vstd::string::StringExecFns;

verus! {

/// What a failed focus script is reported as: its error output formatted for
/// `method`, or, when it could not be started, the start error after
/// `Autosend failed while using <method>: `.
pub open spec fn script_report(method: Seq<char>, k: Result<ScriptRun, String>, r: Option<String>) -> bool {
    match k {
        Err(e) => r matches Some(m) && m@ == "Autosend failed while using "@ + method + ": "@ + e@,
        Ok(run) => if run.success {
            r is None
        } else {
            r matches Some(m) && m@ == autosend_error_spec(method, run.stderr@)
        },
    }
}

/// The report of a focus script run for `method`.
fn report_script_run(method: &str, k: Result<ScriptRun, String>) -> (r: Option<String>)
    ensures
        script_report(method@, k, r),
{
    match k {
        Err(e) => {
            let mut m = String::from_str("Autosend failed while using ");
            push_str(&mut m, method);
            push_str(&mut m, ": ");
            push_str(&mut m, e.as_str());
            Some(m)
        },
        Ok(run) => if run.success {
            None
        } else {
            Some(format_autosend_error(method, run.stderr.as_str()))
        },
    }
}

/// What happens to a Command-Tab refocus given the frontmost application
/// read: with this app in front the refocus script runs (`k` is its run) and
/// a failure is reported; otherwise nothing runs and nothing is reported.
pub open spec fn refocus_spec<K>(front: Option<FrontmostApp>, run_script: K, r: Option<String>) -> bool where
    K: Fn(&str) -> Result<ScriptRun, String>,
 {
    if front matches Some(a) && is_prompt_picker_spec(a) {
        exists|s: &str, k: Result<ScriptRun, String>|
            s@ == CMD_TAB_REFOCUS@ && #[trigger] call_ensures(run_script, (s,), k) && script_report(
                "cmd-tab-refocus"@,
                k,
                r,
            )
    } else {
        r is None
    }
}

/// Command-Tabs back to the application used before when this app is in
/// front; tells what to report when the script failed.
pub fn refocus_previous_app_if_prompt_picker_frontmost<F, K>(frontmost: F, run_script: &K) -> (r: Option<String>) where
    F: FnOnce() -> Option<FrontmostApp>,
    K: Fn(&str) -> Result<ScriptRun, String>,

    requires
        call_requires(frontmost, ()),
        forall|s: &str| call_requires(*run_script, (s,)),
    ensures
        exists|front: Option<FrontmostApp>|
            #[trigger] call_ensures(frontmost, (), front) && refocus_spec(front, *run_script, r),
{
    let front = frontmost();
    let ghost fr = front;
    let refocus = match &front {
        Some(a) => should_cmd_tab_refocus_before_autosend(Some(a)),
        None => false,
    };
    if !refocus {
        return None;
    }
    let script = cmd_tab_refocus_previous_app_script();
    let k = run_script(script);
    let ghost kg = k;
    let r = report_script_run("cmd-tab-refocus", k);
    assert(call_ensures(*run_script, (script,), kg));
    assert(refocus_spec(fr, *run_script, r));
    r
}

/// The pause after activating the target before anything is sent to it.
pub const ACTIVATE_SETTLE_MS: u64 = 120;

/// The reports of restoring focus: that of the refocus, then that of the
/// activation script (`k`), each only where it failed.
pub open spec fn restore_reports(refocus: Option<String>, activate: Option<String>, r: Seq<String>) -> bool {
    r == match (refocus, activate) {
        (Some(a), Some(b)) => seq![a, b],
        (Some(a), None) => seq![a],
        (None, Some(b)) => seq![b],
        (None, None) => Seq::<String>::empty(),
    }
}

/// Brings the target to the front before an autosend: Command-Tabs back when
/// this app is in front, activates the target, and pauses 120 ms. Gives the
/// failures to report, in order.
pub fn restore_focus_before_autosend<F, K, Z>(
    bundle_id: &str,
    frontmost: F,
    run_script: &K,
    sleeper: &Z,
) -> (r: Vec<String>) where
    F: FnOnce() -> Option<FrontmostApp>,
    K: Fn(&str) -> Result<ScriptRun, String>,
    Z: Fn(u64),

    requires
        call_requires(frontmost, ()),
        forall|s: &str| call_requires(*run_script, (s,)),
        call_requires(*sleeper, (ACTIVATE_SETTLE_MS,)),
    ensures
        exists|front: Option<FrontmostApp>, refocus: Option<String>, s: &str, k: Result<ScriptRun, String>, activate: Option<String>|
            #[trigger] call_ensures(frontmost, (), front) && refocus_spec(front, *run_script, refocus)
                && s@ == activate_script_spec(bundle_id@) && #[trigger] call_ensures(*run_script, (s,), k)
                && script_report("activate-target"@, k, activate) && #[trigger] restore_reports(
                    refocus,
                    activate,
                    r@,
                ),
{
    let refocus = refocus_previous_app_if_prompt_picker_frontmost(frontmost, run_script);
    let script = activate_target_script(bundle_id);
    let arg = script.as_str();
    let k = run_script(arg);
    let ghost kg = k;
    let activate = report_script_run("activate-target", k);
    let ghost rf = refocus;
    let ghost ac = activate;
    let mut reports: Vec<String> = Vec::new();
    match refocus {
        Some(m) => reports.push(m),
        None => {},
    }
    match activate {
        Some(m) => reports.push(m),
        None => {},
    }
    sleeper(ACTIVATE_SETTLE_MS);
    assert(call_ensures(*run_script, (arg,), kg));
    assert(reports@ =~= match (rf, ac) {
        (Some(a), Some(b)) => seq![a, b],
        (Some(a), None) => seq![a],
        (None, Some(b)) => seq![b],
        (None, None) => Seq::<String>::empty(),
    });
    assert(restore_reports(rf, ac, reports@));
    reports
}

/// The message of a failed direct typing followed by a failed paste.
pub open spec fn fallback_error_spec(direct_error: Seq<char>, paste_error: Seq<char>) -> Seq<char> {
    direct_error + " Fallback also failed: "@ + paste_error
}

fn fallback_error(direct_error: &str, paste_error: &str) -> (r: String)
    ensures
        r@ == fallback_error_spec(direct_error@, paste_error@),
{
    let mut s = String::from_str(direct_error);
    push_str(&mut s, " Fallback also failed: ");
    push_str(&mut s, paste_error);
    s
}

/// Types a prompt into the target application, or pastes it there: after
/// the permission check and restoring focus to the target, a short
/// single-line ASCII prompt is typed by script; when that script fails, and
/// for any other prompt, the prompt is pasted by script, a failure then
/// naming both attempts.
pub fn type_or_paste_prompt_and_submit_to_app_with_copier<C, T, F, K, Z>(
    body: &str,
    bundle_id: &str,
    copy_sender: C,
    is_trusted: &T,
    frontmost: F,
    run_script: &K,
    sleeper: &Z,
) -> (r: Result<(), String>) where
    C: FnOnce(&str) -> Result<(), String>,
    T: Fn() -> bool,
    F: FnOnce() -> Option<FrontmostApp>,
    K: Fn(&str) -> Result<ScriptRun, String>,
    Z: Fn(u64),

    requires
        call_requires(*is_trusted, ()),
        call_requires(copy_sender, (body,)),
        call_requires(frontmost, ()),
        forall|s: &str| call_requires(*run_script, (s,)),
        call_requires(*sleeper, (ACTIVATE_SETTLE_MS,)),
    ensures
        (call_ensures(*is_trusted, (), false) && permission_error(r)) || (call_ensures(*is_trusted, (), true) && (
        !direct_type_allowed(body@) ==> app_paste_result(body, bundle_id, copy_sender, *is_trusted, *run_script, r))
            && (direct_type_allowed(body@) ==> exists|s: &str, k: Result<ScriptRun, String>|
            s@ == activate_script_spec(bundle_id@) + ACTIVATE_DELAY@ + TYPE_PREFIX@ + escaped(body@)
                + TYPE_SUFFIX@ && #[trigger] call_ensures(*run_script, (s,), k) && match k {
                Err(e) => r == Err::<(), String>(e),
                Ok(run) => run.success && r is Ok || !run.success && exists|p: Result<(), String>|
                    #[trigger] app_paste_result(body, bundle_id, copy_sender, *is_trusted, *run_script, p)
                        && match p {
                        Ok(()) => r is Ok,
                        Err(pe) => r matches Err(m) && m@ == fallback_error_spec(
                            autosend_error_spec("direct-type"@, run.stderr@),
                            pe@,
                        ),
                    },
            })),
{
    if !is_trusted() {
        return Err(String::from_str(ACCESSIBILITY_PERMISSION_REQUIRED_ERROR));
    }
    let _reports = restore_focus_before_autosend(bundle_id, frontmost, run_script, sleeper);
    if should_direct_type(body) {
        let script = direct_type_and_submit_to_app_script(bundle_id, body);
        let arg = script.as_str();
        let k = run_script(arg);
        let ghost kg = k;
        match k {
            Err(e) => {
                assert(call_ensures(*run_script, (arg,), kg));
                return Err(e);
            },
            Ok(run) => {
                if run.success {
                    assert(call_ensures(*run_script, (arg,), kg));
                    return Ok(());
                }
                let direct_error = format_autosend_error("direct-type", run.stderr.as_str());
                let p = paste_prompt_and_submit_to_app_with_copier(body, bundle_id, copy_sender, is_trusted, run_script);
                let ghost pg = p;
                let r = match p {
                    Ok(()) => Ok(()),
                    Err(paste_error) => Err(fallback_error(direct_error.as_str(), paste_error.as_str())),
                };
                assert(call_ensures(*run_script, (arg,), kg));
                assert(app_paste_result(body, bundle_id, copy_sender, *is_trusted, *run_script, pg));
                return r;
            },
        }
    }
    paste_prompt_and_submit_to_app_with_copier(body, bundle_id, copy_sender, is_trusted, run_script)
}

/// The report of a foreground delivery once the prompt was copied: the
/// paste event's failure, else the Return event's failure, else sent.
pub open spec fn foreground_key_outcome(o: AutosendOutcome, paste: Result<(), String>, ret: Result<(), String>) -> bool {
    match paste {
        Err(e) => failed_outcome(
            o,
            true,
            AutosendFailureReason::PasteEventFailed,
            autosend_error_spec("Native paste event failed"@, e@),
        ),
        Ok(()) => match ret {
            Err(e) => failed_outcome(
                o,
                true,
                AutosendFailureReason::ReturnEventFailed,
                autosend_error_spec("Native return event failed"@, e@),
            ),
            Ok(()) => sent_outcome(o),
        },
    }
}

/// The pause after refocusing before the paste event.
pub const FOREGROUND_REFOCUS_SETTLE_MS: u64 = 280;

/// The pause between the paste event and the Return event.
pub const FOREGROUND_PASTE_SETTLE_MS: u64 = 320;

/// Pastes a prompt into the frontmost application with native key events and
/// presses Return: after the permission check and the copy, it Command-Tabs
/// back when this app is in front, pauses 280 ms, posts the paste shortcut,
/// pauses 320 ms and posts Return; the first failure is reported.
pub fn paste_prompt_and_submit_to_foreground_with_copier<C, T, F, K, Z, P>(
    body: &str,
    copy_sender: C,
    is_trusted: T,
    frontmost: F,
    run_script: &K,
    sleeper: &Z,
    post: &mut P,
) -> (r: Result<AutosendOutcome, String>) where
    C: FnOnce(&str) -> Result<(), String>,
    T: FnOnce() -> bool,
    F: FnOnce() -> Option<FrontmostApp>,
    K: Fn(&str) -> Result<ScriptRun, String>,
    Z: Fn(u64),
    P: FnMut(KeyEvent) -> Result<(), String>,

    requires
        call_requires(is_trusted, ()),
        call_requires(copy_sender, (body,)),
        call_requires(frontmost, ()),
        forall|s: &str| call_requires(*run_script, (s,)),
        forall|ms: u64| call_requires(*sleeper, (ms,)),
        forall|f: P, e: KeyEvent| call_requires(f, (e,)),
    ensures
        r matches Ok(o) && ((call_ensures(is_trusted, (), false) && failed_outcome(
            o,
            false,
            AutosendFailureReason::MissingAccessibilityPermission,
            ACCESSIBILITY_PERMISSION_REQUIRED_ERROR@,
        )) || (call_ensures(is_trusted, (), true) && exists|c: Result<(), String>|
            #[trigger] call_ensures(copy_sender, (body,), c) && match c {
                Err(e) => failed_outcome(o, false, AutosendFailureReason::CopyFailed, e@),
                Ok(()) => exists|paste: Result<(), String>, ret: Result<(), String>|
                    #[trigger] foreground_key_outcome(o, paste, ret),
            })),
{
    if let Some(outcome) = missing_accessibility_outcome_if_untrusted_with(is_trusted) {
        return Ok(outcome);
    }
    let c = copy_sender(body);
    let ghost cg = c;
    if let Err(error) = c {
        return Ok(AutosendOutcome::copy_failed(error));
    }
    let _report = refocus_previous_app_if_prompt_picker_frontmost(frontmost, run_script);
    sleeper(FOREGROUND_REFOCUS_SETTLE_MS);
    if let Err(error) = post_focus_preserving_paste(post) {
        let o = AutosendOutcome::paste_event_failed(format_autosend_error("Native paste event failed", error.as_str()));
        assert(foreground_key_outcome(o, Err::<(), String>(error), Ok::<(), String>(())));
        return Ok(o);
    }
    sleeper(FOREGROUND_PASTE_SETTLE_MS);
    if let Err(error) = post_focus_preserving_submit_key(NativeSubmitKey::Enter, post) {
        let o = AutosendOutcome::return_event_failed(format_autosend_error("Native return event failed", error.as_str()));
        assert(foreground_key_outcome(o, Ok::<(), String>(()), Err::<(), String>(error)));
        return Ok(o);
    }
    let o = AutosendOutcome::sent();
    assert(foreground_key_outcome(o, Ok::<(), String>(()), Ok::<(), String>(())));
    Ok(o)
}

/// The report of typing or pasting into the frontmost application once the
/// prompt copy returned `copy`: a typing script that succeeded (`direct`) is
/// sent; else a failed copy is reported; else the paste script's result
/// (`paste`) decides, its failure naming the failed typing too.
pub open spec fn foreground_type_or_paste_outcome(
    o: AutosendOutcome,
    copy: Result<(), String>,
    direct: Option<Result<(), String>>,
    paste: Result<(), String>,
) -> bool {
    if direct == Some(Ok::<(), String>(())) {
        sent_outcome(o)
    } else if let Err(e) = copy {
        failed_outcome(o, false, AutosendFailureReason::CopyFailed, e@)
    } else {
        match paste {
            Ok(()) => sent_outcome(o),
            Err(pe) => {
                let paste_error = autosend_error_spec("foreground-paste-and-submit"@, pe@);
                failed_outcome(
                    o,
                    true,
                    AutosendFailureReason::PasteEventFailed,
                    match direct {
                        Some(Err(de)) => fallback_error_spec(
                            autosend_error_spec("foreground-direct-type"@, de@),
                            paste_error,
                        ),
                        _ => paste_error,
                    },
                )
            },
        }
    }
}

/// Types a prompt into the frontmost application, or pastes it there: after
/// the permission check it copies the prompt, Command-Tabs back when this app
/// is in front and pauses 320 ms; a short single-line ASCII prompt is typed by
/// script, and otherwise, or when typing failed, the copied prompt is pasted
/// by script.
pub fn type_or_paste_prompt_and_submit_to_foreground_with_copier<C, T, F, K, Z>(
    body: &str,
    copy_sender: C,
    is_trusted: T,
    frontmost: F,
    run_script: &K,
    sleeper: &Z,
) -> (r: AutosendOutcome) where
    C: FnOnce(&str) -> Result<(), String>,
    T: FnOnce() -> bool,
    F: FnOnce() -> Option<FrontmostApp>,
    K: Fn(&str) -> Result<ScriptRun, String>,
    Z: Fn(u64),

    requires
        call_requires(is_trusted, ()),
        call_requires(copy_sender, (body,)),
        call_requires(frontmost, ()),
        forall|s: &str| call_requires(*run_script, (s,)),
        forall|ms: u64| call_requires(*sleeper, (ms,)),
    ensures
        (call_ensures(is_trusted, (), false) && failed_outcome(
            r,
            false,
            AutosendFailureReason::MissingAccessibilityPermission,
            ACCESSIBILITY_PERMISSION_REQUIRED_ERROR@,
        )) || (call_ensures(is_trusted, (), true) && exists|
            c: Result<(), String>,
            direct: Option<Result<(), String>>,
            paste: Result<(), String>,
        |
            #[trigger] call_ensures(copy_sender, (body,), c) && (direct is Some <==> direct_type_allowed(body@))
                && (direct matches Some(d) ==> exists|s: &str, k: Result<ScriptRun, String>|
                s@ == TYPE_PREFIX@ + escaped(body@) + TYPE_SUFFIX@ && #[trigger] call_ensures(
                    *run_script,
                    (s,),
                    k,
                ) && d == script_result(k)) && (!(direct == Some(Ok::<(), String>(()))) && c is Ok
                ==> exists|s: &str, k: Result<ScriptRun, String>|
                s@ == PASTE_AND_RETURN@ && #[trigger] call_ensures(*run_script, (s,), k) && paste == script_result(k))
                && #[trigger] foreground_type_or_paste_outcome(r, c, direct, paste)),
{
    if let Some(outcome) = missing_accessibility_outcome_if_untrusted_with(is_trusted) {
        return outcome;
    }
    let copy_result = copy_sender(body);
    let ghost cg = copy_result;
    let _report = refocus_previous_app_if_prompt_picker_frontmost(frontmost, run_script);
    sleeper(FOREGROUND_PASTE_SETTLE_MS);
    let mut direct: Option<Result<(), String>> = None;
    if should_direct_type(body) {
        let script = foreground_type_and_submit_script(body);
        let arg = script.as_str();
        let k = run_script(arg);
        let ghost kg = k;
        let d = script_outcome(k);
        assert(call_ensures(*run_script, (arg,), kg) && d == script_result(kg));
        if d.is_ok() {
            let r = AutosendOutcome::sent();
            assert(foreground_type_or_paste_outcome(r, cg, Some(d), Ok::<(), String>(())));
            return r;
        }
        direct = Some(d);
    }
    let ghost dg = direct;
    if let Err(error) = copy_result {
        let r = AutosendOutcome::copy_failed(error);
        assert(foreground_type_or_paste_outcome(r, cg, dg, Ok::<(), String>(())));
        return r;
    }
    let script = foreground_paste_and_submit_script();
    let k = run_script(script);
    let ghost kg = k;
    let paste = script_outcome(k);
    let ghost pg = paste;
    assert(call_ensures(*run_script, (script,), kg) && pg == script_result(kg));
    let r = match paste {
        Ok(()) => AutosendOutcome::sent(),
        Err(error) => {
            let paste_error = format_autosend_error("foreground-paste-and-submit", error.as_str());
            let message = match direct {
                Some(Err(direct_error)) => fallback_error(
                    format_autosend_error("foreground-direct-type", direct_error.as_str()).as_str(),
                    paste_error.as_str(),
                ),
                _ => paste_error,
            };
            AutosendOutcome::paste_event_failed(message)
        },
    };
    assert(foreground_type_or_paste_outcome(r, cg, dg, pg));
    r
}

} // verus!
