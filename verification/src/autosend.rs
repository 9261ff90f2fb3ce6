//! Delivering prompts to the captured target: the checks made before any
//! delivery, the guarded single delivery that re-checks the frontmost
//! application before pasting and before submitting, and the delivery of a
//! prompt group one prompt after another.
use crate::platform::macos::{
    failed_outcome, pasted_only_outcome, sent_outcome, AutosendCompletion, AutosendFailureReason,
    AutosendOutcome, FrontmostAppWithPid, NativeSubmitKey, ProcessLaunchIdentity,
};
use crate::targets::{
    identity_current_spec, is_unsafe_spec, prompt_pick_target_or_recent, recent_view,
    target_or_recent_spec, CapturedPromptTarget, LastInputTargetState, PromptPickSessionState,
    stale_target_outcome, captured_target_identity_is_current, captured_target_matches_frontmost, classify_spec,
    classify_target_frontmost, is_unsafe_autosend_target, allows_app_only_autosend,
    matches_frontmost_spec, PromptPickSessionTarget, TargetFrontmostStatus, autosend_diagnostic_line,
    diagnostic_line_spec,
};
use crate::settings::{authoritative_submit_key, authoritative_submit_key_spec};
use crate::text::{chars_of, push_chars, push_str, str_eq, string_of, trim, trim_chars};
use vstd::prelude::*;
use vstd::string::StringExecFns;

verus! {

/// The shortest pause between the prompts of a group, in milliseconds.
pub const MIN_SEQUENCE_INTERVAL_MS: u64 = 200;

/// The longest pause between the prompts of a group, in milliseconds.
pub const MAX_SEQUENCE_INTERVAL_MS: u64 = 3000;

/// The pause after a focus-preserving paste, in milliseconds.
pub const FOCUS_PRESERVING_PASTE_SETTLE_MS: u64 = 180;

/// What happened to a prompt group: how many prompts were sent and
/// processed, and, at the first failure, which prompt failed and why.
pub struct AutosendSequenceOutcome {
    pub copied: bool,
    pub sent: bool,
    pub sent_count: usize,
    pub processed_count: usize,
    pub completion: Option<AutosendCompletion>,
    pub failed_index: Option<usize>,
    pub error: Option<String>,
    pub reason: Option<AutosendFailureReason>,
}

/// Every one of `count` prompts was sent.
pub open spec fn sent_all_spec(r: AutosendSequenceOutcome, count: nat) -> bool {
    &&& r.copied
    &&& r.sent
    &&& r.sent_count == count
    &&& r.processed_count == count
    &&& r.completion == Some(AutosendCompletion::Submitted)
    &&& r.failed_index is None
    &&& r.error is None
    &&& r.reason is None
}

/// The group stopped with `outcome` after `sent_count` prompts were sent, at
/// the prompt numbered `failed_index`.
pub open spec fn from_failure_spec(
    r: AutosendSequenceOutcome,
    outcome: AutosendOutcome,
    sent_count: nat,
    failed_index: nat,
) -> bool {
    &&& r.copied == outcome.copied
    &&& !r.sent
    &&& r.sent_count == sent_count
    &&& r.processed_count == sent_count
    &&& r.completion == outcome.completion
    &&& r.failed_index == Some(failed_index as usize)
    &&& r.error == outcome.error
    &&& r.reason == outcome.reason
}

impl AutosendSequenceOutcome {
    /// Every one of `count` prompts was sent.
    pub fn sent_all(count: usize) -> (r: Self)
        ensures
            sent_all_spec(r, count as nat),
    {
        AutosendSequenceOutcome {
            copied: true,
            sent: true,
            sent_count: count,
            processed_count: count,
            completion: Some(AutosendCompletion::Submitted),
            failed_index: None,
            error: None,
            reason: None,
        }
    }

    /// The group stopped with `outcome`.
    pub fn from_failure(outcome: AutosendOutcome, sent_count: usize, failed_index: usize) -> (r: Self)
        ensures
            from_failure_spec(r, outcome, sent_count as nat, failed_index as nat),
    {
        AutosendSequenceOutcome {
            copied: outcome.copied,
            sent: false,
            sent_count,
            processed_count: sent_count,
            completion: outcome.completion,
            failed_index: Some(failed_index),
            error: outcome.error,
            reason: outcome.reason,
        }
    }
}

/// The pause between the prompts of a group, held between 200 ms and 3 s.
pub fn clamp_sequence_interval_ms(interval_ms: u64) -> (r: u64)
    ensures
        r == (if interval_ms < MIN_SEQUENCE_INTERVAL_MS {
            MIN_SEQUENCE_INTERVAL_MS
        } else if interval_ms > MAX_SEQUENCE_INTERVAL_MS {
            MAX_SEQUENCE_INTERVAL_MS
        } else {
            interval_ms
        }),
{
    if interval_ms < MIN_SEQUENCE_INTERVAL_MS {
        MIN_SEQUENCE_INTERVAL_MS
    } else if interval_ms > MAX_SEQUENCE_INTERVAL_MS {
        MAX_SEQUENCE_INTERVAL_MS
    } else {
        interval_ms
    }
}

/// The submit key a command asks for: `none`, `enter` (also when it names
/// none) or `command_enter`; any other value is refused.
pub open spec fn submit_key_arg_spec(value: Seq<char>) -> Result<NativeSubmitKey, Seq<char>> {
    if value == "none"@ {
        Ok(NativeSubmitKey::NoKey)
    } else if value == "enter"@ {
        Ok(NativeSubmitKey::Enter)
    } else if value == "command_enter"@ {
        Ok(NativeSubmitKey::CommandEnter)
    } else {
        Err("Invalid submit key: "@ + value)
    }
}

/// The submit key a command asks for.
pub fn native_submit_key_from_arg(submit_key: Option<String>) -> (r: Result<NativeSubmitKey, String>)
    ensures
        ({
            let value = match submit_key {
                Some(s) => s@,
                None => "enter"@,
            };
            match submit_key_arg_spec(value) {
                Ok(k) => r == Ok::<NativeSubmitKey, String>(k),
                Err(m) => r matches Err(e) && e@ == m,
            }
        }),
{
    let value = match &submit_key {
        Some(s) => s.clone(),
        None => String::from_str("enter"),
    };
    if str_eq(value.as_str(), "none") {
        Ok(NativeSubmitKey::NoKey)
    } else if str_eq(value.as_str(), "enter") {
        Ok(NativeSubmitKey::Enter)
    } else if str_eq(value.as_str(), "command_enter") {
        Ok(NativeSubmitKey::CommandEnter)
    } else {
        let mut e = String::from_str("Invalid submit key: ");
        push_str(&mut e, value.as_str());
        Err(e)
    }
}

/// Copies the prompt without sending it: the outcome says why no target was
/// used, or that the copy failed.
pub fn copy_without_sending<C>(body: &str, copy_sender: C, message: &str) -> (r: AutosendOutcome) where
    C: FnOnce(&str) -> Result<(), String>,

    requires
        call_requires(copy_sender, (body,)),
    ensures
        exists|c: Result<(), String>|
            #[trigger] call_ensures(copy_sender, (body,), c) && match c {
                Ok(()) => failed_outcome(r, true, AutosendFailureReason::NoSafeTarget, message@),
                Err(e) => failed_outcome(r, false, AutosendFailureReason::CopyFailed, e@),
            },
{
    let c = copy_sender(body);
    let ghost cg = c;
    let r = match c {
        Ok(()) => AutosendOutcome::copied_without_send(String::from_str(message)),
        Err(error) => AutosendOutcome::copy_failed(error),
    };
    assert(call_ensures(copy_sender, (body,), cg));
    r
}

/// The message when the frontmost application changed before the paste.
pub const CHANGED_BEFORE_PASTE: &'static str =
    "Target app changed before paste; prompt was copied instead.";

/// The message when the frontmost application changed before the submit.
pub const CHANGED_BEFORE_SUBMIT: &'static str = "Target app changed after paste; submit was skipped.";

/// The report of a guarded delivery, given what the environment answered:
/// the copy, the frontmost application before the paste, the recovery of the
/// target and the frontmost application after it, the paste, the frontmost
/// application before the submit, and the submit. The prompt is pasted only
/// while the target is in front (possibly after recovering it from behind
/// this app's own window), and submitted only while it is still in front.
pub open spec fn guarded_spec<P>(
    o: AutosendOutcome,
    target: PromptPickSessionTarget<P>,
    key: NativeSubmitKey,
    copy: Result<(), String>,
    before_paste: Option<FrontmostAppWithPid>,
    recover: Result<(), String>,
    after_recovery: Option<FrontmostAppWithPid>,
    paste: Result<(), String>,
    before_submit: Option<FrontmostAppWithPid>,
    submit: Result<(), String>,
) -> bool {
    match copy {
        Err(e) => failed_outcome(o, false, AutosendFailureReason::CopyFailed, e@),
        Ok(()) => {
            let cls = classify_spec(target.app, target.pid, before_paste);
            if cls == TargetFrontmostStatus::OtherOrUnknown || (cls == TargetFrontmostStatus::PromptPicker
                && (recover is Err || !matches_frontmost_spec(target.app, target.pid, after_recovery))) {
                failed_outcome(o, true, AutosendFailureReason::NoSafeTarget, CHANGED_BEFORE_PASTE@)
            } else {
                match paste {
                    Err(e) => failed_outcome(
                        o,
                        true,
                        AutosendFailureReason::PasteEventFailed,
                        "Focus-preserving paste failed: "@ + e@,
                    ),
                    Ok(()) => if key == NativeSubmitKey::NoKey {
                        pasted_only_outcome(o)
                    } else if !matches_frontmost_spec(target.app, target.pid, before_submit) {
                        failed_outcome(
                            o,
                            true,
                            AutosendFailureReason::ReturnEventFailed,
                            CHANGED_BEFORE_SUBMIT@,
                        )
                    } else {
                        match submit {
                            Err(e) => failed_outcome(
                                o,
                                true,
                                AutosendFailureReason::ReturnEventFailed,
                                "Focus-preserving submit failed: "@ + e@,
                            ),
                            Ok(()) => sent_outcome(o),
                        }
                    },
                }
            }
        },
    }
}

/// Each answer of a guarded delivery is one its operation may give, called as
/// the delivery calls it: the copy of `body` always; after a copy, the read
/// of the frontmost application before the paste; the recovery of `target`
/// when this app was in front, and the read after it when it went through;
/// the paste once the target is known to be in front; after a paste, and
/// with a submit key, the read before the submit; the submit key when the
/// target was still in front.
pub open spec fn guarded_calls<P, C, F, R, S1, S2>(
    body: &str,
    target: PromptPickSessionTarget<P>,
    key: NativeSubmitKey,
    copy: Result<(), String>,
    before_paste: Option<FrontmostAppWithPid>,
    recover: Result<(), String>,
    after_recovery: Option<FrontmostAppWithPid>,
    paste: Result<(), String>,
    before_submit: Option<FrontmostAppWithPid>,
    submit: Result<(), String>,
) -> bool where
    C: FnMut(&str) -> Result<(), String>,
    F: FnMut() -> Option<FrontmostAppWithPid>,
    R: FnMut(&PromptPickSessionTarget<P>) -> Result<(), String>,
    S1: FnMut() -> Result<(), String>,
    S2: FnMut(NativeSubmitKey) -> Result<(), String>,
 {
    let cls = classify_spec(target.app, target.pid, before_paste);
    let reaches_paste = copy is Ok && cls != TargetFrontmostStatus::OtherOrUnknown && (cls
        == TargetFrontmostStatus::PromptPicker ==> recover is Ok && matches_frontmost_spec(
        target.app,
        target.pid,
        after_recovery,
    ));
    &&& exists|f: C| #[trigger] call_ensures(f, (body,), copy)
    &&& (copy is Ok ==> exists|f: F| #[trigger] call_ensures(f, (), before_paste))
    &&& (copy is Ok && cls == TargetFrontmostStatus::PromptPicker ==> exists|f: R|
        #[trigger] call_ensures(f, (&target,), recover))
    &&& (copy is Ok && cls == TargetFrontmostStatus::PromptPicker && recover is Ok ==> exists|f: F|
        #[trigger] call_ensures(f, (), after_recovery))
    &&& (reaches_paste ==> exists|f: S1| #[trigger] call_ensures(f, (), paste))
    &&& (reaches_paste && paste is Ok && key != NativeSubmitKey::NoKey ==> exists|f: F|
        #[trigger] call_ensures(f, (), before_submit))
    &&& (reaches_paste && paste is Ok && key != NativeSubmitKey::NoKey && matches_frontmost_spec(
        target.app,
        target.pid,
        before_submit,
    ) ==> exists|f: S2| #[trigger] call_ensures(f, (key,), submit))
}

/// Some answers of the environment explain the report `o` of a guarded
/// delivery of `body`, with the calls it made.
pub open spec fn guarded_delivery_possible<P, C, F, R, S1, S2>(
    body: &str,
    target: PromptPickSessionTarget<P>,
    key: NativeSubmitKey,
    o: AutosendOutcome,
) -> bool where
    C: FnMut(&str) -> Result<(), String>,
    F: FnMut() -> Option<FrontmostAppWithPid>,
    R: FnMut(&PromptPickSessionTarget<P>) -> Result<(), String>,
    S1: FnMut() -> Result<(), String>,
    S2: FnMut(NativeSubmitKey) -> Result<(), String>,
 {
    exists|
        copy: Result<(), String>,
        before_paste: Option<FrontmostAppWithPid>,
        recover: Result<(), String>,
        after_recovery: Option<FrontmostAppWithPid>,
        paste: Result<(), String>,
        before_submit: Option<FrontmostAppWithPid>,
        submit: Result<(), String>,
    |
        guarded_calls::<P, C, F, R, S1, S2>(
            body,
            target,
            key,
            copy,
            before_paste,
            recover,
            after_recovery,
            paste,
            before_submit,
            submit,
        ) && #[trigger] guarded_spec(
            o,
            target,
            key,
            copy,
            before_paste,
            recover,
            after_recovery,
            paste,
            before_submit,
            submit,
        )
}

/// One way a guarded delivery of `body` may end: these answers explain its
/// report `o`, each was given by its operation, and the delivery added the
/// stage lines of these answers to `before`, giving `after`.
pub open spec fn guarded_exit<P, C, F, R, S1, S2>(
    body: &str,
    target: PromptPickSessionTarget<P>,
    key: NativeSubmitKey,
    o: AutosendOutcome,
    before: Seq<Seq<char>>,
    after: Seq<Seq<char>>,
    copy: Result<(), String>,
    before_paste: Option<FrontmostAppWithPid>,
    recover: Result<(), String>,
    after_recovery: Option<FrontmostAppWithPid>,
    paste: Result<(), String>,
    before_submit: Option<FrontmostAppWithPid>,
    submit: Result<(), String>,
) -> bool where
    C: FnMut(&str) -> Result<(), String>,
    F: FnMut() -> Option<FrontmostAppWithPid>,
    R: FnMut(&PromptPickSessionTarget<P>) -> Result<(), String>,
    S1: FnMut() -> Result<(), String>,
    S2: FnMut(NativeSubmitKey) -> Result<(), String>,
 {
    &&& guarded_calls::<P, C, F, R, S1, S2>(
        body,
        target,
        key,
        copy,
        before_paste,
        recover,
        after_recovery,
        paste,
        before_submit,
        submit,
    )
    &&& guarded_spec(o, target, key, copy, before_paste, recover, after_recovery, paste, before_submit, submit)
    &&& after =~= before + guarded_diagnostics(
        target,
        key,
        copy,
        before_paste,
        recover,
        after_recovery,
        paste,
        before_submit,
        submit,
    )
}

/// Some answers of the environment explain the report `o` of a guarded
/// delivery of `body`, the calls it made, and the diagnostic lines it added
/// to `before`, giving `after`.
pub open spec fn guarded_run<P, C, F, R, S1, S2>(
    body: &str,
    target: PromptPickSessionTarget<P>,
    key: NativeSubmitKey,
    o: AutosendOutcome,
    before: Seq<Seq<char>>,
    after: Seq<Seq<char>>,
) -> bool where
    C: FnMut(&str) -> Result<(), String>,
    F: FnMut() -> Option<FrontmostAppWithPid>,
    R: FnMut(&PromptPickSessionTarget<P>) -> Result<(), String>,
    S1: FnMut() -> Result<(), String>,
    S2: FnMut(NativeSubmitKey) -> Result<(), String>,
 {
    exists|
        copy: Result<(), String>,
        before_paste: Option<FrontmostAppWithPid>,
        recover: Result<(), String>,
        after_recovery: Option<FrontmostAppWithPid>,
        paste: Result<(), String>,
        before_submit: Option<FrontmostAppWithPid>,
        submit: Result<(), String>,
    |
        guarded_calls::<P, C, F, R, S1, S2>(
            body,
            target,
            key,
            copy,
            before_paste,
            recover,
            after_recovery,
            paste,
            before_submit,
            submit,
        ) && #[trigger] guarded_spec(
            o,
            target,
            key,
            copy,
            before_paste,
            recover,
            after_recovery,
            paste,
            before_submit,
            submit,
        ) && after == before + guarded_diagnostics(
            target,
            key,
            copy,
            before_paste,
            recover,
            after_recovery,
            paste,
            before_submit,
            submit,
        )
}

/// Some answers of the environment explain the report `o`.
pub open spec fn guarded_possible<P>(o: AutosendOutcome, target: PromptPickSessionTarget<P>, key: NativeSubmitKey) -> bool {
    exists|
        copy: Result<(), String>,
        before_paste: Option<FrontmostAppWithPid>,
        recover: Result<(), String>,
        after_recovery: Option<FrontmostAppWithPid>,
        paste: Result<(), String>,
        before_submit: Option<FrontmostAppWithPid>,
        submit: Result<(), String>,
    |
        #[trigger] guarded_spec(
            o,
            target,
            key,
            copy,
            before_paste,
            recover,
            after_recovery,
            paste,
            before_submit,
            submit,
        )
}

/// The bundle id of the frontmost application, if one was read.
pub open spec fn front_bundle(front: Option<FrontmostAppWithPid>) -> Option<Seq<char>> {
    match front {
        Some(f) => Some(f.app.bundle_id@),
        None => None,
    }
}

/// The diagnostic line of a stage of a guarded delivery to `target`.
pub open spec fn stage_line<P>(
    stage: Seq<char>,
    target: PromptPickSessionTarget<P>,
    front: Option<FrontmostAppWithPid>,
    classification: Option<TargetFrontmostStatus>,
) -> Seq<char> {
    diagnostic_line_spec(
        stage,
        Some(target.app.bundle_id@),
        target.click_point is Some,
        front_bundle(front),
        classification,
    )
}

/// The diagnostic lines of a guarded delivery with these answers, one per
/// stage it reached: the classification before the paste; the recovery's
/// failure, or what was in front after it; a refusal of another application;
/// and, after a paste, its end without a submit, the change of the frontmost
/// application before the submit, or the submit.
pub open spec fn guarded_diagnostics<P>(
    target: PromptPickSessionTarget<P>,
    key: NativeSubmitKey,
    copy: Result<(), String>,
    before_paste: Option<FrontmostAppWithPid>,
    recover: Result<(), String>,
    after_recovery: Option<FrontmostAppWithPid>,
    paste: Result<(), String>,
    before_submit: Option<FrontmostAppWithPid>,
    submit: Result<(), String>,
) -> Seq<Seq<char>> {
    if copy is Err {
        seq![]
    } else {
        let cls = classify_spec(target.app, target.pid, before_paste);
        let first = seq![stage_line("before-paste"@, target, before_paste, Some(cls))];
        if cls == TargetFrontmostStatus::OtherOrUnknown {
            first.push(stage_line("other-or-unknown"@, target, before_paste, Some(cls)))
        } else if cls == TargetFrontmostStatus::PromptPicker && recover is Err {
            first.push(stage_line("recovery-failed"@, target, before_paste, Some(cls)))
        } else if cls == TargetFrontmostStatus::PromptPicker && !matches_frontmost_spec(
            target.app,
            target.pid,
            after_recovery,
        ) {
            first.push(stage_line("post-recovery-mismatch"@, target, after_recovery, Some(cls)))
        } else {
            let reached = if cls == TargetFrontmostStatus::PromptPicker {
                first.push(
                    stage_line(
                        "post-recovery-target"@,
                        target,
                        after_recovery,
                        Some(TargetFrontmostStatus::Target),
                    ),
                )
            } else {
                first
            };
            if paste is Err {
                reached
            } else if key == NativeSubmitKey::NoKey {
                reached.push(stage_line("sent-without-submit"@, target, None, None))
            } else if !matches_frontmost_spec(target.app, target.pid, before_submit) {
                reached.push(stage_line("before-submit-mismatch"@, target, before_submit, None))
            } else if submit is Err {
                reached
            } else {
                reached.push(stage_line("sent"@, target, before_submit, None))
            }
        }
    }
}

/// Appends the diagnostic line of a stage of a guarded delivery.
fn emit_stage<P>(
    diagnostics: &mut Vec<String>,
    stage: &str,
    target: &PromptPickSessionTarget<P>,
    front: &Option<FrontmostAppWithPid>,
    classification: Option<TargetFrontmostStatus>,
)
    ensures
        texts(final(diagnostics)@) == texts(old(diagnostics)@).push(
            stage_line(stage@, *target, *front, classification),
        ),
{
    let front_id: Option<&str> = match front {
        Some(f) => Some(f.app.bundle_id.as_str()),
        None => None,
    };
    let line = autosend_diagnostic_line(
        stage,
        Some(target.app.bundle_id.as_str()),
        target.click_point.is_some(),
        front_id,
        classification,
    );
    let ghost before = diagnostics@;
    diagnostics.push(line);
    assert(texts(diagnostics@) =~= texts(before).push(stage_line(stage@, *target, *front, classification)));
}

fn prefixed(prefix: &str, error: &str) -> (r: String)
    ensures
        r@ == prefix@ + error@,
{
    let mut s = String::from_str(prefix);
    push_str(&mut s, error);
    s
}

/// Copies the prompt, makes sure the target is in front (recovering it when
/// this app's own window is in front), pastes, waits, and, when a submit key
/// is asked for and the target is still in front, submits.
pub fn guarded_focus_preserving_autosend_with_senders<P, C, F, R, S1, S2, Z>(
    body: &str,
    target: &PromptPickSessionTarget<P>,
    submit_key: NativeSubmitKey,
    copy_sender: &mut C,
    frontmost_reader: &mut F,
    recover_target: &mut R,
    paste_sender: &mut S1,
    submit_sender: &mut S2,
    sleeper: &mut Z,
    diagnostics: &mut Vec<String>,
) -> (r: AutosendOutcome) where
    C: FnMut(&str) -> Result<(), String>,
    F: FnMut() -> Option<FrontmostAppWithPid>,
    R: FnMut(&PromptPickSessionTarget<P>) -> Result<(), String>,
    S1: FnMut() -> Result<(), String>,
    S2: FnMut(NativeSubmitKey) -> Result<(), String>,
    Z: FnMut(u64),

    requires
        forall|f: C, b: &str| call_requires(f, (b,)),
        forall|f: F| call_requires(f, ()),
        forall|f: R, t: &PromptPickSessionTarget<P>| call_requires(f, (t,)),
        forall|f: S1| call_requires(f, ()),
        forall|f: S2, k: NativeSubmitKey| call_requires(f, (k,)),
        forall|f: Z, ms: u64| call_requires(f, (ms,)),
    ensures
        guarded_possible(r, *target, submit_key),
        guarded_delivery_possible::<P, C, F, R, S1, S2>(body, *target, submit_key, r),
        guarded_run::<P, C, F, R, S1, S2>(
            body,
            *target,
            submit_key,
            r,
            texts(old(diagnostics)@),
            texts(final(diagnostics)@),
        ),
{
    let ghost d0 = texts(diagnostics@);
    let ghost t = *target;
    let ghost none_front: Option<FrontmostAppWithPid> = None;
    let ghost ok: Result<(), String> = Ok(());
    let ghost c0 = *copy_sender;
    let copy = copy_sender(body);
    let ghost cg = copy;
    assert(call_ensures(c0, (body,), cg));
    if let Err(error) = copy {
        let ghost e = error;
        let r = AutosendOutcome::copy_failed(error);
        assert(guarded_exit::<P, C, F, R, S1, S2>(body, t, submit_key, r, d0, texts(diagnostics@), Err(e), none_front, ok, none_front, ok, none_front, ok));
        return r;
    }
    let ghost f0 = *frontmost_reader;
    let before_paste = frontmost_reader();
    let ghost bp = before_paste;
    assert(call_ensures(f0, (), bp));
    let classification = classify_target_frontmost(target, before_paste.as_ref());
    emit_stage(diagnostics, "before-paste", target, &before_paste, Some(classification));
    let mut recover: Result<(), String> = Ok(());
    let mut after_recovery: Option<FrontmostAppWithPid> = None;
    match classification {
        TargetFrontmostStatus::Target => {},
        TargetFrontmostStatus::PromptPicker => {
            let ghost r0 = *recover_target;
            recover = recover_target(target);
            assert(call_ensures(r0, (target,), recover));
            let failed = recover.is_err();
            if failed {
                emit_stage(diagnostics, "recovery-failed", target, &before_paste, Some(classification));
                let r = AutosendOutcome::copied_without_send(String::from_str(CHANGED_BEFORE_PASTE));
                assert(guarded_exit::<P, C, F, R, S1, S2>(body, t, submit_key, r, d0, texts(diagnostics@), cg, bp, recover, none_front, ok, none_front, ok));
                return r;
            }
            let ghost f1 = *frontmost_reader;
            after_recovery = frontmost_reader();
            assert(call_ensures(f1, (), after_recovery));
            if !captured_target_matches_frontmost(target, after_recovery.as_ref()) {
                emit_stage(diagnostics, "post-recovery-mismatch", target, &after_recovery, Some(classification));
                let r = AutosendOutcome::copied_without_send(String::from_str(CHANGED_BEFORE_PASTE));
                assert(guarded_exit::<P, C, F, R, S1, S2>(body, t, submit_key, r, d0, texts(diagnostics@), cg, bp, recover, after_recovery, ok, none_front, ok));
                return r;
            }
            emit_stage(
                diagnostics,
                "post-recovery-target",
                target,
                &after_recovery,
                Some(TargetFrontmostStatus::Target),
            );
        },
        TargetFrontmostStatus::OtherOrUnknown => {
            emit_stage(diagnostics, "other-or-unknown", target, &before_paste, Some(classification));
            let r = AutosendOutcome::copied_without_send(String::from_str(CHANGED_BEFORE_PASTE));
            assert(guarded_exit::<P, C, F, R, S1, S2>(body, t, submit_key, r, d0, texts(diagnostics@), cg, bp, ok, none_front, ok, none_front, ok));
            return r;
        },
    }
    let ghost rec = recover;
    let ghost ar = after_recovery;
    let ghost p0 = *paste_sender;
    let paste = paste_sender();
    let ghost pg = paste;
    assert(call_ensures(p0, (), pg));
    if let Err(error) = paste {
        let ghost e = error;
        let r = AutosendOutcome::paste_event_failed(prefixed("Focus-preserving paste failed: ", error.as_str()));
        assert(guarded_exit::<P, C, F, R, S1, S2>(body, t, submit_key, r, d0, texts(diagnostics@), cg, bp, rec, ar, Err(e), none_front, ok));
        return r;
    }
    sleeper(FOCUS_PRESERVING_PASTE_SETTLE_MS);
    if submit_key == NativeSubmitKey::NoKey {
        emit_stage(diagnostics, "sent-without-submit", target, &None, None);
        let r = AutosendOutcome::pasted_only();
        assert(guarded_exit::<P, C, F, R, S1, S2>(body, t, submit_key, r, d0, texts(diagnostics@), cg, bp, rec, ar, pg, none_front, ok));
        return r;
    }
    let ghost f2 = *frontmost_reader;
    let before_submit = frontmost_reader();
    let ghost bs = before_submit;
    assert(call_ensures(f2, (), bs));
    if !captured_target_matches_frontmost(target, before_submit.as_ref()) {
        emit_stage(diagnostics, "before-submit-mismatch", target, &before_submit, None);
        let r = AutosendOutcome::return_event_failed(String::from_str(CHANGED_BEFORE_SUBMIT));
        assert(guarded_exit::<P, C, F, R, S1, S2>(body, t, submit_key, r, d0, texts(diagnostics@), cg, bp, rec, ar, pg, bs, ok));
        return r;
    }
    let ghost s0 = *submit_sender;
    let submit = submit_sender(submit_key);
    let ghost sg = submit;
    assert(call_ensures(s0, (submit_key,), sg));
    if let Err(error) = submit {
        let ghost e = error;
        let r = AutosendOutcome::return_event_failed(prefixed("Focus-preserving submit failed: ", error.as_str()));
        assert(guarded_exit::<P, C, F, R, S1, S2>(body, t, submit_key, r, d0, texts(diagnostics@), cg, bp, rec, ar, pg, bs, Err(e)));
        return r;
    }
    emit_stage(diagnostics, "sent", target, &before_submit, None);
    let r = AutosendOutcome::sent();
    assert(guarded_exit::<P, C, F, R, S1, S2>(body, t, submit_key, r, d0, texts(diagnostics@), cg, bp, rec, ar, pg, bs, sg));
    r
}

/// A guarded delivery reports the prompt as sent only when a submit key was
/// asked for, the target was in front before the paste (directly, or after
/// recovering it from behind this app's window) and still in front before the
/// submit; when another application was in front before the paste, nothing
/// was pasted and the prompt is reported as copied only.
pub proof fn lemma_guarded_sends_only_to_target<P>(
    o: AutosendOutcome,
    target: PromptPickSessionTarget<P>,
    key: NativeSubmitKey,
    copy: Result<(), String>,
    before_paste: Option<FrontmostAppWithPid>,
    recover: Result<(), String>,
    after_recovery: Option<FrontmostAppWithPid>,
    paste: Result<(), String>,
    before_submit: Option<FrontmostAppWithPid>,
    submit: Result<(), String>,
)
    requires
        guarded_spec(o, target, key, copy, before_paste, recover, after_recovery, paste, before_submit, submit),
    ensures
        o.sent ==> key != NativeSubmitKey::NoKey && copy is Ok && paste is Ok && submit is Ok
            && matches_frontmost_spec(target.app, target.pid, before_submit) && (matches_frontmost_spec(
            target.app,
            target.pid,
            before_paste,
        ) || (recover is Ok && matches_frontmost_spec(target.app, target.pid, after_recovery))),
        copy is Ok && classify_spec(target.app, target.pid, before_paste)
            == TargetFrontmostStatus::OtherOrUnknown ==> !o.sent && o.copied && o.completion is None
            && o.reason == Some(AutosendFailureReason::NoSafeTarget),
        key == NativeSubmitKey::NoKey ==> !o.sent,
{
}

/// The prompts of a group as delivered: each trimmed, the empty ones left out.
pub open spec fn clean_bodies_spec(bodies: Seq<String>) -> Seq<Seq<char>>
    decreases bodies.len(),
{
    if bodies.len() == 0 {
        Seq::empty()
    } else {
        clean_bodies_spec(bodies.drop_last()) + if trim(bodies.last()@).len() > 0 {
            seq![trim(bodies.last()@)]
        } else {
            Seq::<Seq<char>>::empty()
        }
    }
}

/// The texts of a vector of strings.
pub open spec fn texts(v: Seq<String>) -> Seq<Seq<char>> {
    v.map_values(|s: String| s@)
}

/// The prompts of a group, each trimmed, the empty ones left out.
pub fn clean_bodies(bodies: &Vec<String>) -> (r: Vec<String>)
    ensures
        texts(r@) == clean_bodies_spec(bodies@),
{
    let mut out: Vec<String> = Vec::new();
    let mut i: usize = 0;
    while i < bodies.len()
        invariant
            i <= bodies.len(),
            texts(out@) == clean_bodies_spec(bodies@.take(i as int)),
        decreases bodies.len() - i,
    {
        let v = chars_of(bodies[i].as_str());
        let t = trim_chars(&v);
        proof {
            assert(bodies@.take(i + 1).drop_last() =~= bodies@.take(i as int));
            assert(bodies@.take(i + 1).last() == bodies@[i as int]);
        }
        if t.len() > 0 {
            let ghost before = out@;
            out.push(string_of(&t));
            assert(texts(out@) =~= texts(before) + seq![t@]);
        }
        i = i + 1;
    }
    assert(bodies@.take(bodies@.len() as int) =~= bodies@);
    out
}

/// The parts joined with `sep` between them.
pub open spec fn join_spec(parts: Seq<Seq<char>>, sep: Seq<char>) -> Seq<char>
    decreases parts.len(),
{
    if parts.len() == 0 {
        Seq::empty()
    } else if parts.len() == 1 {
        parts[0]
    } else {
        join_spec(parts.drop_last(), sep) + sep + parts.last()
    }
}

/// The parts joined with `sep` between them.
pub fn join_with(parts: &Vec<String>, sep: &str) -> (r: String)
    ensures
        r@ == join_spec(texts(parts@), sep@),
{
    let mut s = String::new();
    let mut i: usize = 0;
    while i < parts.len()
        invariant
            i <= parts.len(),
            s@ == join_spec(texts(parts@.take(i as int)), sep@),
        decreases parts.len() - i,
    {
        proof {
            assert(texts(parts@.take(i + 1)).drop_last() =~= texts(parts@.take(i as int)));
            assert(texts(parts@.take(i + 1)).last() == parts@[i as int]@);
        }
        if i > 0 {
            push_str(&mut s, sep);
        } else {
            assert(texts(parts@.take(1)) =~= seq![parts@[0]@]);
            assert(s@ =~= Seq::<char>::empty());
        }
        let ghost before = s@;
        push_str(&mut s, parts[i].as_str());
        i = i + 1;
        assert(s@ =~= join_spec(texts(parts@.take(i as int)), sep@));
    }
    assert(parts@.take(parts@.len() as int) =~= parts@);
    s
}

/// What the checks before a delivery decide.
pub enum SessionDecision<P, W> {
    /// Deliver to this target.
    Deliver(CapturedPromptTarget<P, W>),
    /// No target was captured or recorded.
    NoTarget,
    /// The captured target's process or window is gone.
    Stale,
    /// The target must never receive an autosend.
    Unsafe,
}

/// The decision for the target chosen for a delivery, given the launch time
/// now read for its captured process.
pub open spec fn decision_spec<P, W>(
    choice: Option<CapturedPromptTarget<P, W>>,
    current: Option<ProcessLaunchIdentity>,
    launch_identity_required: bool,
) -> SessionDecision<P, W> {
    match choice {
        None => SessionDecision::NoTarget,
        Some(t) => match t.identity {
            Some(id) => if !identity_current_spec(id, current, launch_identity_required) {
                SessionDecision::Stale
            } else if is_unsafe_spec(t.target.app) {
                SessionDecision::Unsafe
            } else {
                SessionDecision::Deliver(t)
            },
            None => if is_unsafe_spec(t.target.app) {
                SessionDecision::Unsafe
            } else {
                SessionDecision::Deliver(t)
            },
        },
    }
}

/// `current` is what `launch_identity_of` answered for the chosen target's
/// captured process; nothing is read without a captured identity.
pub open spec fn launch_read<P, W, L>(
    choice: Option<CapturedPromptTarget<P, W>>,
    launch_identity_of: L,
    current: Option<ProcessLaunchIdentity>,
) -> bool where L: FnOnce(u32) -> Option<ProcessLaunchIdentity> {
    match choice {
        Some(t) => match t.identity {
            Some(id) => call_ensures(launch_identity_of, (id.application.main_pid,), current),
            None => current is None,
        },
        None => current is None,
    }
}

/// Takes the target for a delivery and checks it: the session's capture or a
/// recent recorded target, still the captured process and window, and not an
/// application that must never receive an autosend.
pub fn decide_session_target<P: Copy, W: Copy, L>(
    state: &mut PromptPickSessionState<P, W>,
    recent_state: Option<&LastInputTargetState<P, W>>,
    launch_identity_of: L,
    launch_identity_required: bool,
    now_ms: u128,
) -> (r: SessionDecision<P, W>) where L: FnOnce(u32) -> Option<ProcessLaunchIdentity>
    requires
        forall|pid: u32| call_requires(launch_identity_of, (pid,)),
    ensures
        exists|choice: Option<CapturedPromptTarget<P, W>>, current: Option<ProcessLaunchIdentity>|
            #[trigger] target_or_recent_spec(
                old(state).target_spec(),
                old(state).identity_spec(),
                recent_view(recent_state),
                now_ms,
                choice,
            ) && #[trigger] launch_read(choice, launch_identity_of, current) && r == decision_spec(
                choice,
                current,
                launch_identity_required,
            ),
        old(state).target_spec() is Some ==> final(state).target_spec() is None
            && final(state).identity_spec() is None && final(state).session_spec() == old(
            state,
        ).session_spec(),
        old(state).target_spec() is None ==> *final(state) == *old(state),
{
    let ghost ot = state.target_spec();
    let ghost oi = state.identity_spec();
    let choice = prompt_pick_target_or_recent(state, recent_state, now_ms);
    let ghost ch = choice;
    let target = match choice {
        Some(t) => t,
        None => {
            let ghost none: Option<ProcessLaunchIdentity> = None;
            assert(launch_read(ch, launch_identity_of, none));
            return SessionDecision::NoTarget;
        },
    };
    let mut current: Option<ProcessLaunchIdentity> = None;
    let stale = match &target.identity {
        Some(identity) => {
            current = launch_identity_of(identity.application.main_pid);
            !captured_target_identity_is_current(identity, current, launch_identity_required)
        },
        None => false,
    };
    assert(launch_read(ch, launch_identity_of, current));
    if stale {
        return SessionDecision::Stale;
    }
    if is_unsafe_autosend_target(&target.target.app) || !allows_app_only_autosend(&target.target.app) {
        return SessionDecision::Unsafe;
    }
    SessionDecision::Deliver(target)
}

/// The message when there is no target.
pub const NO_TARGET_MESSAGE: &'static str = "No prompt pick target app was recorded for autosend.";

/// The message when the target must never receive an autosend.
pub const UNSAFE_TARGET_MESSAGE: &'static str = "Target app is not safe for autosend.";

/// The message when the target of a group must never receive an autosend.
pub const UNSAFE_APP_ONLY_MESSAGE: &'static str = "Target app is not safe for app-only autosend.";

/// The report when the prompt was only copied: why no target was used, or
/// that the copy failed.
pub open spec fn copy_outcome_spec(o: AutosendOutcome, copy: Result<(), String>, message: Seq<char>) -> bool {
    match copy {
        Ok(()) => failed_outcome(o, true, AutosendFailureReason::NoSafeTarget, message),
        Err(e) => failed_outcome(o, false, AutosendFailureReason::CopyFailed, e@),
    }
}

/// The report of a single delivery to the session target, by decision.
pub open spec fn session_outcome_spec<P, W, A, C>(
    o: AutosendOutcome,
    body: &str,
    decision: SessionDecision<P, W>,
    key: NativeSubmitKey,
    app_sender: A,
    copy_sender: C,
) -> bool where
    A: FnOnce(&str, &str, Option<P>, NativeSubmitKey) -> AutosendOutcome,
    C: FnOnce(&str) -> Result<(), String>,
 {
    match decision {
        SessionDecision::NoTarget => exists|c: Result<(), String>|
            #[trigger] call_ensures(copy_sender, (body,), c) && copy_outcome_spec(o, c, NO_TARGET_MESSAGE@),
        SessionDecision::Stale => failed_outcome(
            o,
            false,
            AutosendFailureReason::NoSafeTarget,
            "The captured target app or window is no longer available."@,
        ),
        SessionDecision::Unsafe => exists|c: Result<(), String>|
            #[trigger] call_ensures(copy_sender, (body,), c) && copy_outcome_spec(o, c, UNSAFE_TARGET_MESSAGE@),
        SessionDecision::Deliver(t) => exists|bundle: &str|
            bundle@ == t.target.app.bundle_id@ && #[trigger] call_ensures(
                app_sender,
                (body, bundle, t.target.click_point, key),
                o,
            ),
    }
}

/// `r` is a report of a single delivery to the session target.
pub open spec fn ok_session_outcome<P, W, A, C>(
    r: Result<AutosendOutcome, String>,
    body: &str,
    decision: SessionDecision<P, W>,
    key: NativeSubmitKey,
    app_sender: A,
    copy_sender: C,
) -> bool where
    A: FnOnce(&str, &str, Option<P>, NativeSubmitKey) -> AutosendOutcome,
    C: FnOnce(&str) -> Result<(), String>,
 {
    match r {
        Ok(o) => session_outcome_spec(o, body, decision, key, app_sender, copy_sender),
        Err(_) => false,
    }
}

/// Delivers one prompt to the session target through `app_sender`; without
/// a usable target the prompt is only copied.
pub fn paste_prompt_and_submit_to_session_target_with_senders<P: Copy, W: Copy, A, C, L>(
    body: &str,
    state: &mut PromptPickSessionState<P, W>,
    recent_state: Option<&LastInputTargetState<P, W>>,
    submit_key: NativeSubmitKey,
    app_sender: A,
    copy_sender: C,
    launch_identity_of: L,
    launch_identity_required: bool,
    now_ms: u128,
) -> (r: Result<AutosendOutcome, String>) where
    A: FnOnce(&str, &str, Option<P>, NativeSubmitKey) -> AutosendOutcome,
    C: FnOnce(&str) -> Result<(), String>,
    L: FnOnce(u32) -> Option<ProcessLaunchIdentity>,

    requires
        forall|b: &str, id: &str, p: Option<P>, k: NativeSubmitKey| call_requires(app_sender, (b, id, p, k)),
        forall|b: &str| call_requires(copy_sender, (b,)),
        forall|pid: u32| call_requires(launch_identity_of, (pid,)),
    ensures
        exists|choice: Option<CapturedPromptTarget<P, W>>, current: Option<ProcessLaunchIdentity>|
            #[trigger] target_or_recent_spec(
                old(state).target_spec(),
                old(state).identity_spec(),
                recent_view(recent_state),
                now_ms,
                choice,
            ) && #[trigger] launch_read(choice, launch_identity_of, current) && ok_session_outcome(
                r,
                body,
                decision_spec(choice, current, launch_identity_required),
                submit_key,
                app_sender,
                copy_sender,
            ),
        old(state).target_spec() is Some ==> final(state).target_spec() is None
            && final(state).identity_spec() is None && final(state).session_spec() == old(
            state,
        ).session_spec(),
        old(state).target_spec() is None ==> *final(state) == *old(state),
{
    let decision = decide_session_target(
        state,
        recent_state,
        launch_identity_of,
        launch_identity_required,
        now_ms,
    );
    let ghost d = decision;
    let o = match decision {
        SessionDecision::NoTarget => copy_without_sending(body, copy_sender, NO_TARGET_MESSAGE),
        SessionDecision::Stale => stale_target_outcome(),
        SessionDecision::Unsafe => copy_without_sending(body, copy_sender, UNSAFE_TARGET_MESSAGE),
        SessionDecision::Deliver(t) => {
            let bundle = t.target.app.bundle_id.as_str();
            let o = app_sender(body, bundle, t.target.click_point, submit_key);
            assert(call_ensures(app_sender, (body, bundle, t.target.click_point, submit_key), o));
            o
        },
    };
    assert(session_outcome_spec(o, body, d, submit_key, app_sender, copy_sender));
    Ok(o)
}

/// A group ends either with every prompt sent, or at the first prompt whose
/// delivery reported it unsent, after the prompts before it were sent.
pub open spec fn group_delivery_spec(r: AutosendSequenceOutcome, n: nat) -> bool {
    sent_all_spec(r, n) || exists|k: nat, o: AutosendOutcome|
        k < n && !o.sent && #[trigger] from_failure_spec(r, o, k, k + 1)
}

/// Whether `o` is what some sender of type `A` answers when handed `body` for
/// the application `bundle` at `click_point` with `key`.
pub open spec fn app_answer<P, A>(
    body: Seq<char>,
    bundle: Seq<char>,
    click_point: Option<P>,
    key: NativeSubmitKey,
    o: AutosendOutcome,
) -> bool where A: FnMut(&str, &str, Option<P>, NativeSubmitKey) -> AutosendOutcome {
    exists|f: A, b: &str, id: &str|
        b@ == body && id@ == bundle && #[trigger] call_ensures(f, (b, id, click_point, key), o)
}

/// Whether some sender of type `A` reports `body` sent.
pub open spec fn app_sent<P, A>(
    body: Seq<char>,
    bundle: Seq<char>,
    click_point: Option<P>,
    key: NativeSubmitKey,
) -> bool where A: FnMut(&str, &str, Option<P>, NativeSubmitKey) -> AutosendOutcome {
    exists|o: AutosendOutcome| o.sent && #[trigger] app_answer::<P, A>(body, bundle, click_point, key, o)
}

/// A group delivered prompt by prompt through senders of type `A`: every
/// prompt before the stop was reported sent by the sender, and the group
/// ends with all of them sent or at the first whose report, the sender's
/// answer for it, left it unsent.
pub open spec fn tied_group_delivery<P, A>(
    r: AutosendSequenceOutcome,
    bodies: Seq<Seq<char>>,
    bundle: Seq<char>,
    click_point: Option<P>,
    key: NativeSubmitKey,
) -> bool where A: FnMut(&str, &str, Option<P>, NativeSubmitKey) -> AutosendOutcome {
    ||| sent_all_spec(r, bodies.len()) && forall|j: int|
        0 <= j < bodies.len() ==> #[trigger] app_sent::<P, A>(bodies[j], bundle, click_point, key)
    ||| exists|k: nat, o: AutosendOutcome|
        k < bodies.len() && !o.sent && #[trigger] from_failure_spec(r, o, k, k + 1) && app_answer::<
            P,
            A,
        >(bodies[k as int], bundle, click_point, key, o) && forall|j: int|
            0 <= j < k ==> #[trigger] app_sent::<P, A>(bodies[j], bundle, click_point, key)
}

/// The report for a group with no prompt left after trimming.
pub open spec fn empty_group_spec(r: AutosendSequenceOutcome) -> bool {
    &&& !r.copied
    &&& !r.sent
    &&& r.sent_count == 0
    &&& r.processed_count == 0
    &&& r.completion is None
    &&& r.failed_index == Some(1usize)
    &&& r.reason == Some(AutosendFailureReason::CopyFailed)
    &&& match r.error {
        Some(e) => e@ == "Prompt group is empty."@,
        None => false,
    }
}

/// Delivers the prompts of a group to one target through `app_sender`,
/// pausing between them; without a submit key the prompts are joined by a
/// blank line and pasted at once.
pub open spec fn session_group_spec<P, W, A, C>(
    r: AutosendSequenceOutcome,
    bodies: Seq<Seq<char>>,
    decision: SessionDecision<P, W>,
    key: NativeSubmitKey,
    copy_sender: C,
) -> bool where
    A: FnMut(&str, &str, Option<P>, NativeSubmitKey) -> AutosendOutcome,
    C: FnOnce(&str) -> Result<(), String>,
 {
    if bodies.len() == 0 {
        empty_group_spec(r)
    } else {
        match decision {
            SessionDecision::NoTarget => exists|first: &str, c: Result<(), String>, o: AutosendOutcome|
                first@ == bodies[0] && #[trigger] call_ensures(copy_sender, (first,), c)
                    && copy_outcome_spec(o, c, NO_TARGET_MESSAGE@) && #[trigger] from_failure_spec(r, o, 0, 1),
            SessionDecision::Stale => exists|o: AutosendOutcome|
                failed_outcome(
                    o,
                    false,
                    AutosendFailureReason::NoSafeTarget,
                    "The captured target app or window is no longer available."@,
                ) && #[trigger] from_failure_spec(r, o, 0, 0),
            SessionDecision::Unsafe => exists|first: &str, c: Result<(), String>, o: AutosendOutcome|
                first@ == bodies[0] && #[trigger] call_ensures(copy_sender, (first,), c)
                    && copy_outcome_spec(o, c, UNSAFE_APP_ONLY_MESSAGE@) && #[trigger] from_failure_spec(r, o, 0, 1),
            SessionDecision::Deliver(t) => if key == NativeSubmitKey::NoKey {
                exists|o: AutosendOutcome|
                    #[trigger] app_answer::<P, A>(
                        join_spec(bodies, "\n\n"@),
                        t.target.app.bundle_id@,
                        t.target.click_point,
                        key,
                        o,
                    ) && if o.completion == Some(AutosendCompletion::PastedOnly) {
                        r.completion == Some(AutosendCompletion::PastedOnly) && r.copied && !r.sent
                            && r.sent_count == 0 && r.processed_count == bodies.len()
                            && r.failed_index is None && r.error is None && r.reason is None
                    } else {
                        from_failure_spec(r, o, 0, 1)
                    }
            } else {
                tied_group_delivery::<P, A>(
                    r,
                    bodies,
                    t.target.app.bundle_id@,
                    t.target.click_point,
                    key,
                )
            },
        }
    }
}

/// Delivers the prompts of a group to the session target; `sleeper` pauses
/// between prompts for the clamped interval.
#[verifier::loop_isolation(false)]
pub fn paste_prompt_sequence_and_submit_to_session_target_with_senders<P: Copy, W: Copy, A, C, S, L>(
    bodies: &Vec<String>,
    interval_ms: u64,
    state: &mut PromptPickSessionState<P, W>,
    recent_state: Option<&LastInputTargetState<P, W>>,
    submit_key: NativeSubmitKey,
    app_sender: &mut A,
    copy_sender: C,
    sleeper: &mut S,
    launch_identity_of: L,
    launch_identity_required: bool,
    now_ms: u128,
) -> (r: Result<AutosendSequenceOutcome, String>) where
    A: FnMut(&str, &str, Option<P>, NativeSubmitKey) -> AutosendOutcome,
    C: FnOnce(&str) -> Result<(), String>,
    S: FnMut(u64),
    L: FnOnce(u32) -> Option<ProcessLaunchIdentity>,

    requires
        forall|f: A, b: &str, id: &str, p: Option<P>, k: NativeSubmitKey| call_requires(f, (b, id, p, k)),
        forall|b: &str| call_requires(copy_sender, (b,)),
        forall|f: S, ms: u64| call_requires(f, (ms,)),
        forall|pid: u32| call_requires(launch_identity_of, (pid,)),
    ensures
        r is Ok,
        clean_bodies_spec(bodies@).len() > 0 ==> exists|
            choice: Option<CapturedPromptTarget<P, W>>,
            current: Option<ProcessLaunchIdentity>,
        |
            #[trigger] target_or_recent_spec(
                old(state).target_spec(),
                old(state).identity_spec(),
                recent_view(recent_state),
                now_ms,
                choice,
            ) && #[trigger] launch_read(choice, launch_identity_of, current) && match r {
                Ok(o) => session_group_spec::<P, W, A, C>(
                    o,
                    clean_bodies_spec(bodies@),
                    decision_spec(choice, current, launch_identity_required),
                    submit_key,
                    copy_sender,
                ),
                Err(_) => false,
            },
        clean_bodies_spec(bodies@).len() == 0 ==> match r {
            Ok(o) => session_group_spec::<P, W, A, C>(
                o,
                clean_bodies_spec(bodies@),
                SessionDecision::<P, W>::NoTarget,
                submit_key,
                copy_sender,
            ),
            Err(_) => false,
        },
        (clean_bodies_spec(bodies@).len() > 0 && old(state).target_spec() is Some) ==> (final(state).target_spec() is None
            && final(state).identity_spec() is None && final(state).session_spec() == old(state).session_spec()),
        (clean_bodies_spec(bodies@).len() == 0 || old(state).target_spec() is None) ==> *final(state) == *old(state),
{
    let clean = clean_bodies(bodies);
    let ghost cb = clean_bodies_spec(bodies@);
    proof {
        assert(texts(clean@).len() == clean@.len());
    }
    if clean.len() == 0 {
        let o = AutosendOutcome::copy_failed(String::from_str("Prompt group is empty."));
        let r = AutosendSequenceOutcome::from_failure(o, 0, 1);
        assert(session_group_spec::<P, W, A, C>(r, cb, SessionDecision::<P, W>::NoTarget, submit_key, copy_sender));
        return Ok(r);
    }
    let decision = decide_session_target(
        state,
        recent_state,
        launch_identity_of,
        launch_identity_required,
        now_ms,
    );
    let ghost d = decision;
    let first = clean[0].as_str();
    assert(first@ == cb[0]);
    let target = match decision {
        SessionDecision::NoTarget => {
            let o = copy_without_sending(first, copy_sender, NO_TARGET_MESSAGE);
            let r = AutosendSequenceOutcome::from_failure(o, 0, 1);
            assert(session_group_spec::<P, W, A, C>(r, cb, d, submit_key, copy_sender));
            return Ok(r);
        },
        SessionDecision::Stale => {
            let o = stale_target_outcome();
            let r = AutosendSequenceOutcome::from_failure(o, 0, 0);
            assert(session_group_spec::<P, W, A, C>(r, cb, d, submit_key, copy_sender));
            return Ok(r);
        },
        SessionDecision::Unsafe => {
            let o = copy_without_sending(first, copy_sender, UNSAFE_APP_ONLY_MESSAGE);
            let r = AutosendSequenceOutcome::from_failure(o, 0, 1);
            assert(session_group_spec::<P, W, A, C>(r, cb, d, submit_key, copy_sender));
            return Ok(r);
        },
        SessionDecision::Deliver(t) => t,
    };
    let bundle = target.target.app.bundle_id.as_str();
    let click_point = target.target.click_point;
    if submit_key == NativeSubmitKey::NoKey {
        let joined = join_with(&clean, "\n\n");
        let ghost g = *app_sender;
        let js = joined.as_str();
        let outcome = app_sender(js, bundle, click_point, submit_key);
        proof {
            assert(call_ensures(g, (js, bundle, click_point, submit_key), outcome));
            assert(app_answer::<P, A>(join_spec(cb, "\n\n"@), bundle@, click_point, submit_key, outcome));
        }
        let pasted = match outcome.completion {
            Some(AutosendCompletion::PastedOnly) => true,
            _ => false,
        };
        if pasted {
            let r = AutosendSequenceOutcome {
                copied: true,
                sent: false,
                sent_count: 0,
                processed_count: clean.len(),
                completion: outcome.completion,
                failed_index: None,
                error: None,
                reason: None,
            };
            assert(session_group_spec::<P, W, A, C>(r, cb, d, submit_key, copy_sender));
            return Ok(r);
        }
        let r = AutosendSequenceOutcome::from_failure(outcome, 0, 1);
        assert(session_group_spec::<P, W, A, C>(r, cb, d, submit_key, copy_sender));
        return Ok(r);
    }
    let delay_ms = clamp_sequence_interval_ms(interval_ms);
    let mut index: usize = 0;
    while index < clean.len()
        invariant
            index <= clean.len(),
            texts(clean@) == cb,
            cb.len() == clean@.len(),
            d is Deliver,
            submit_key != NativeSubmitKey::NoKey,
            forall|f: A, b: &str, id: &str, p: Option<P>, k: NativeSubmitKey| call_requires(f, (b, id, p, k)),
            forall|f: S, ms: u64| call_requires(f, (ms,)),
            d == SessionDecision::Deliver(target),
            bundle@ == target.target.app.bundle_id@,
            click_point == target.target.click_point,
            forall|j: int| 0 <= j < index ==> #[trigger] app_sent::<P, A>(cb[j], bundle@, click_point, submit_key),
        decreases clean.len() - index,
    {
        let ghost g = *app_sender;
        let item = clean[index].as_str();
        let outcome = app_sender(item, bundle, click_point, submit_key);
        proof {
            assert(call_ensures(g, (item, bundle, click_point, submit_key), outcome));
            assert(item@ == cb[index as int]);
            assert(app_answer::<P, A>(cb[index as int], bundle@, click_point, submit_key, outcome));
        }
        if !outcome.sent {
            let ghost o = outcome;
            let r = AutosendSequenceOutcome::from_failure(outcome, index, index + 1);
            assert(from_failure_spec(r, o, index as nat, (index + 1) as nat));
            assert(tied_group_delivery::<P, A>(r, cb, bundle@, click_point, submit_key));
            assert(session_group_spec::<P, W, A, C>(r, cb, d, submit_key, copy_sender));
            return Ok(r);
        }
        assert(app_sent::<P, A>(cb[index as int], bundle@, click_point, submit_key));
        if index + 1 < clean.len() {
            sleeper(delay_ms);
        }
        index = index + 1;
    }
    let r = AutosendSequenceOutcome::sent_all(clean.len());
    assert(tied_group_delivery::<P, A>(r, cb, bundle@, click_point, submit_key));
    assert(session_group_spec::<P, W, A, C>(r, cb, d, submit_key, copy_sender));
    Ok(r)
}

/// A group delivered with guarded deliveries ends either with every prompt
/// sent, or at the first prompt whose guarded delivery reported it unsent.
pub open spec fn guarded_group_spec<P>(
    r: AutosendSequenceOutcome,
    n: nat,
    target: PromptPickSessionTarget<P>,
    key: NativeSubmitKey,
) -> bool {
    sent_all_spec(r, n) || exists|k: nat, o: AutosendOutcome|
        k < n && !o.sent && guarded_possible(o, target, key) && #[trigger] from_failure_spec(
            r,
            o,
            k,
            k + 1,
        )
}

/// A guarded delivery of a text equal to `body` that some answers explain
/// ends with the report `o`.
pub open spec fn body_delivery_possible<P, C, F, R, S1, S2>(
    body: Seq<char>,
    target: PromptPickSessionTarget<P>,
    key: NativeSubmitKey,
    o: AutosendOutcome,
) -> bool where
    C: FnMut(&str) -> Result<(), String>,
    F: FnMut() -> Option<FrontmostAppWithPid>,
    R: FnMut(&PromptPickSessionTarget<P>) -> Result<(), String>,
    S1: FnMut() -> Result<(), String>,
    S2: FnMut(NativeSubmitKey) -> Result<(), String>,
 {
    exists|b: &str| b@ == body && #[trigger] guarded_delivery_possible::<P, C, F, R, S1, S2>(b, target, key, o)
}

/// A guarded delivery of a text equal to `body` may have sent it.
pub open spec fn body_sent_possible<P, C, F, R, S1, S2>(
    body: Seq<char>,
    target: PromptPickSessionTarget<P>,
    key: NativeSubmitKey,
) -> bool where
    C: FnMut(&str) -> Result<(), String>,
    F: FnMut() -> Option<FrontmostAppWithPid>,
    R: FnMut(&PromptPickSessionTarget<P>) -> Result<(), String>,
    S1: FnMut() -> Result<(), String>,
    S2: FnMut(NativeSubmitKey) -> Result<(), String>,
 {
    exists|o: AutosendOutcome| o.sent && #[trigger] body_delivery_possible::<P, C, F, R, S1, S2>(body, target, key, o)
}

/// The deliveries of a group went through the bodies in order: each of the
/// `r.sent_count` first bodies was delivered and sent, and a group that
/// stopped early stopped on the delivery of the next body, which reported
/// the failure.
pub open spec fn guarded_group_calls<P, C, F, R, S1, S2>(
    r: AutosendSequenceOutcome,
    bodies: Seq<Seq<char>>,
    target: PromptPickSessionTarget<P>,
    key: NativeSubmitKey,
) -> bool where
    C: FnMut(&str) -> Result<(), String>,
    F: FnMut() -> Option<FrontmostAppWithPid>,
    R: FnMut(&PromptPickSessionTarget<P>) -> Result<(), String>,
    S1: FnMut() -> Result<(), String>,
    S2: FnMut(NativeSubmitKey) -> Result<(), String>,
 {
    &&& r.sent_count <= bodies.len()
    &&& forall|j: int| 0 <= j < r.sent_count ==> #[trigger] body_sent_possible::<P, C, F, R, S1, S2>(bodies[j], target, key)
    &&& r.sent_count < bodies.len() ==> exists|o: AutosendOutcome|
        !o.sent && #[trigger] body_delivery_possible::<P, C, F, R, S1, S2>(bodies[r.sent_count as int], target, key, o)
            && from_failure_spec(r, o, r.sent_count as nat, (r.sent_count + 1) as nat)
}

/// The diagnostic lines `before` are kept, in order, at the start of `after`.
pub open spec fn diagnostics_kept(before: Seq<Seq<char>>, after: Seq<Seq<char>>) -> bool {
    before.len() <= after.len() && forall|i: int| 0 <= i < before.len() ==> #[trigger] after[i] == before[i]
}

proof fn lemma_run_keeps<P, C, F, R, S1, S2>(
    body: &str,
    target: PromptPickSessionTarget<P>,
    key: NativeSubmitKey,
    o: AutosendOutcome,
    first: Seq<Seq<char>>,
    before: Seq<Seq<char>>,
    after: Seq<Seq<char>>,
) where
    C: FnMut(&str) -> Result<(), String>,
    F: FnMut() -> Option<FrontmostAppWithPid>,
    R: FnMut(&PromptPickSessionTarget<P>) -> Result<(), String>,
    S1: FnMut() -> Result<(), String>,
    S2: FnMut(NativeSubmitKey) -> Result<(), String>,

    requires
        diagnostics_kept(first, before),
        guarded_run::<P, C, F, R, S1, S2>(body, target, key, o, before, after),
    ensures
        diagnostics_kept(first, after),
{
    let (copy, before_paste, recover, after_recovery, paste, before_submit, submit) = choose|
        copy: Result<(), String>,
        before_paste: Option<FrontmostAppWithPid>,
        recover: Result<(), String>,
        after_recovery: Option<FrontmostAppWithPid>,
        paste: Result<(), String>,
        before_submit: Option<FrontmostAppWithPid>,
        submit: Result<(), String>,
    |
        guarded_calls::<P, C, F, R, S1, S2>(
            body,
            target,
            key,
            copy,
            before_paste,
            recover,
            after_recovery,
            paste,
            before_submit,
            submit,
        ) && #[trigger] guarded_spec(
            o,
            target,
            key,
            copy,
            before_paste,
            recover,
            after_recovery,
            paste,
            before_submit,
            submit,
        ) && after == before + guarded_diagnostics(
            target,
            key,
            copy,
            before_paste,
            recover,
            after_recovery,
            paste,
            before_submit,
            submit,
        );
    assert forall|i: int| 0 <= i < first.len() implies #[trigger] after[i] == first[i] by {
        assert(after[i] == before[i]);
    }
}

/// The diagnostic lines of several deliveries, one after another.
pub open spec fn concat_lines(chunks: Seq<Seq<Seq<char>>>) -> Seq<Seq<char>>
    decreases chunks.len(),
{
    if chunks.len() == 0 {
        seq![]
    } else {
        concat_lines(chunks.drop_last()) + chunks.last()
    }
}

/// `lines` are the diagnostic lines of a guarded delivery of `body`, given
/// some answers of the environment.
pub open spec fn delivery_lines<P, C, F, R, S1, S2>(
    body: Seq<char>,
    target: PromptPickSessionTarget<P>,
    key: NativeSubmitKey,
    lines: Seq<Seq<char>>,
) -> bool where
    C: FnMut(&str) -> Result<(), String>,
    F: FnMut() -> Option<FrontmostAppWithPid>,
    R: FnMut(&PromptPickSessionTarget<P>) -> Result<(), String>,
    S1: FnMut() -> Result<(), String>,
    S2: FnMut(NativeSubmitKey) -> Result<(), String>,
 {
    exists|b: &str, o: AutosendOutcome|
        b@ == body && #[trigger] guarded_run::<P, C, F, R, S1, S2>(b, target, key, o, seq![], lines)
}

/// The diagnostic lines that the guarded deliveries of the first prompts of
/// a group added to `before`, giving `after`: the lines of each delivery in
/// turn.
pub open spec fn group_lines<P, C, F, R, S1, S2>(
    bodies: Seq<Seq<char>>,
    target: PromptPickSessionTarget<P>,
    key: NativeSubmitKey,
    before: Seq<Seq<char>>,
    after: Seq<Seq<char>>,
) -> bool where
    C: FnMut(&str) -> Result<(), String>,
    F: FnMut() -> Option<FrontmostAppWithPid>,
    R: FnMut(&PromptPickSessionTarget<P>) -> Result<(), String>,
    S1: FnMut() -> Result<(), String>,
    S2: FnMut(NativeSubmitKey) -> Result<(), String>,
 {
    exists|chunks: Seq<Seq<Seq<char>>>|
        chunks.len() <= bodies.len() && after == before + #[trigger] concat_lines(chunks) && forall|j: int|
            0 <= j < chunks.len() ==> #[trigger] delivery_lines::<P, C, F, R, S1, S2>(
                bodies[j],
                target,
                key,
                chunks[j],
            )
}

proof fn lemma_run_lines<P, C, F, R, S1, S2>(
    body: &str,
    target: PromptPickSessionTarget<P>,
    key: NativeSubmitKey,
    o: AutosendOutcome,
    before: Seq<Seq<char>>,
    after: Seq<Seq<char>>,
) where
    C: FnMut(&str) -> Result<(), String>,
    F: FnMut() -> Option<FrontmostAppWithPid>,
    R: FnMut(&PromptPickSessionTarget<P>) -> Result<(), String>,
    S1: FnMut() -> Result<(), String>,
    S2: FnMut(NativeSubmitKey) -> Result<(), String>,

    requires
        guarded_run::<P, C, F, R, S1, S2>(body, target, key, o, before, after),
    ensures
        before.len() <= after.len(),
        after == before + after.subrange(before.len() as int, after.len() as int),
        guarded_run::<P, C, F, R, S1, S2>(
            body,
            target,
            key,
            o,
            seq![],
            after.subrange(before.len() as int, after.len() as int),
        ),
{
    let (copy, before_paste, recover, after_recovery, paste, before_submit, submit) = choose|
        copy: Result<(), String>,
        before_paste: Option<FrontmostAppWithPid>,
        recover: Result<(), String>,
        after_recovery: Option<FrontmostAppWithPid>,
        paste: Result<(), String>,
        before_submit: Option<FrontmostAppWithPid>,
        submit: Result<(), String>,
    |
        guarded_calls::<P, C, F, R, S1, S2>(
            body,
            target,
            key,
            copy,
            before_paste,
            recover,
            after_recovery,
            paste,
            before_submit,
            submit,
        ) && #[trigger] guarded_spec(
            o,
            target,
            key,
            copy,
            before_paste,
            recover,
            after_recovery,
            paste,
            before_submit,
            submit,
        ) && after == before + guarded_diagnostics(
            target,
            key,
            copy,
            before_paste,
            recover,
            after_recovery,
            paste,
            before_submit,
            submit,
        );
    let lines = guarded_diagnostics(
        target,
        key,
        copy,
        before_paste,
        recover,
        after_recovery,
        paste,
        before_submit,
        submit,
    );
    assert(after.subrange(before.len() as int, after.len() as int) =~= lines);
    assert(seq![] + lines =~= lines);
}

/// Delivers the prompts of a group one after another with guarded
/// deliveries, pausing for the clamped interval between them and stopping at
/// the first prompt that was not sent.
pub fn focus_preserving_prompt_sequence_for_target_with_senders<P, C, F, R, S1, S2, Z>(
    clean_bodies: &Vec<String>,
    interval_ms: u64,
    target: &PromptPickSessionTarget<P>,
    submit_key: NativeSubmitKey,
    copy_sender: &mut C,
    frontmost_reader: &mut F,
    recover_target: &mut R,
    paste_sender: &mut S1,
    submit_sender: &mut S2,
    sleeper: &mut Z,
    diagnostics: &mut Vec<String>,
) -> (r: AutosendSequenceOutcome) where
    C: FnMut(&str) -> Result<(), String>,
    F: FnMut() -> Option<FrontmostAppWithPid>,
    R: FnMut(&PromptPickSessionTarget<P>) -> Result<(), String>,
    S1: FnMut() -> Result<(), String>,
    S2: FnMut(NativeSubmitKey) -> Result<(), String>,
    Z: FnMut(u64),

    requires
        forall|f: C, b: &str| call_requires(f, (b,)),
        forall|f: F| call_requires(f, ()),
        forall|f: R, t: &PromptPickSessionTarget<P>| call_requires(f, (t,)),
        forall|f: S1| call_requires(f, ()),
        forall|f: S2, k: NativeSubmitKey| call_requires(f, (k,)),
        forall|f: Z, ms: u64| call_requires(f, (ms,)),
    ensures
        diagnostics_kept(texts(old(diagnostics)@), texts(final(diagnostics)@)),
        guarded_group_spec(r, clean_bodies@.len(), *target, submit_key),
        guarded_group_calls::<P, C, F, R, S1, S2>(r, texts(clean_bodies@), *target, submit_key),
        group_lines::<P, C, F, R, S1, S2>(
            texts(clean_bodies@),
            *target,
            submit_key,
            texts(old(diagnostics)@),
            texts(final(diagnostics)@),
        ),
{
    let ghost d0 = texts(diagnostics@);
    let ghost mut chunks: Seq<Seq<Seq<char>>> = seq![];
    let delay_ms = clamp_sequence_interval_ms(interval_ms);
    let mut index: usize = 0;
    let mut stopped: Option<AutosendSequenceOutcome> = None;
    while index < clean_bodies.len()
        invariant_except_break
            stopped is None,
            chunks.len() == index,
        invariant
            index <= clean_bodies.len(),
            forall|f: C, b: &str| call_requires(f, (b,)),
            forall|f: F| call_requires(f, ()),
            forall|f: R, t: &PromptPickSessionTarget<P>| call_requires(f, (t,)),
            forall|f: S1| call_requires(f, ()),
            forall|f: S2, k: NativeSubmitKey| call_requires(f, (k,)),
            forall|f: Z, ms: u64| call_requires(f, (ms,)),
            forall|j: int| 0 <= j < index ==> #[trigger] body_sent_possible::<P, C, F, R, S1, S2>(
                texts(clean_bodies@)[j],
                *target,
                submit_key,
            ),
            diagnostics_kept(d0, texts(diagnostics@)),
            chunks.len() <= clean_bodies.len(),
            texts(diagnostics@) == d0 + concat_lines(chunks),
            forall|j: int| 0 <= j < chunks.len() ==> #[trigger] delivery_lines::<P, C, F, R, S1, S2>(
                texts(clean_bodies@)[j],
                *target,
                submit_key,
                chunks[j],
            ),
        ensures
            diagnostics_kept(d0, texts(diagnostics@)),
            group_lines::<P, C, F, R, S1, S2>(texts(clean_bodies@), *target, submit_key, d0, texts(diagnostics@)),
            match stopped {
                Some(r) => guarded_group_spec(r, clean_bodies@.len(), *target, submit_key)
                    && guarded_group_calls::<P, C, F, R, S1, S2>(r, texts(clean_bodies@), *target, submit_key),
                None => index == clean_bodies.len() && forall|j: int|
                    0 <= j < index ==> #[trigger] body_sent_possible::<P, C, F, R, S1, S2>(
                    texts(clean_bodies@)[j],
                    *target,
                    submit_key,
                ),
            },
        decreases clean_bodies.len() - index,
    {
        let body = clean_bodies[index].as_str();
        let ghost dbefore = texts(diagnostics@);
        let outcome = guarded_focus_preserving_autosend_with_senders(
            body,
            target,
            submit_key,
            copy_sender,
            frontmost_reader,
            recover_target,
            paste_sender,
            submit_sender,
            sleeper,
            diagnostics,
        );
        proof {
            lemma_run_keeps::<P, C, F, R, S1, S2>(
                body,
                *target,
                submit_key,
                outcome,
                d0,
                dbefore,
                texts(diagnostics@),
            );
            lemma_run_lines::<P, C, F, R, S1, S2>(
                body,
                *target,
                submit_key,
                outcome,
                dbefore,
                texts(diagnostics@),
            );
            let lines = texts(diagnostics@).subrange(dbefore.len() as int, texts(diagnostics@).len() as int);
            let old_chunks = chunks;
            chunks = chunks.push(lines);
            assert(chunks.drop_last() =~= old_chunks);
            assert(texts(diagnostics@) =~= d0 + concat_lines(chunks));
            assert(delivery_lines::<P, C, F, R, S1, S2>(texts(clean_bodies@)[index as int], *target, submit_key, lines));
            assert forall|j: int| 0 <= j < chunks.len() implies #[trigger] delivery_lines::<P, C, F, R, S1, S2>(
                texts(clean_bodies@)[j],
                *target,
                submit_key,
                chunks[j],
            ) by {
                if j < old_chunks.len() {
                    assert(chunks[j] == old_chunks[j]);
                }
            }
        }
        assert(body_delivery_possible::<P, C, F, R, S1, S2>(texts(clean_bodies@)[index as int], *target, submit_key, outcome));
        if !outcome.sent {
            let ghost o = outcome;
            let r = AutosendSequenceOutcome::from_failure(outcome, index, index + 1);
            assert(from_failure_spec(r, o, index as nat, (index + 1) as nat));
            assert(guarded_group_calls::<P, C, F, R, S1, S2>(r, texts(clean_bodies@), *target, submit_key));
            stopped = Some(r);
            break;
        }
        assert(body_sent_possible::<P, C, F, R, S1, S2>(texts(clean_bodies@)[index as int], *target, submit_key));
        if index + 1 < clean_bodies.len() {
            sleeper(delay_ms);
        }
        index = index + 1;
    }
    match stopped {
        Some(r) => r,
        None => {
            let r = AutosendSequenceOutcome::sent_all(clean_bodies.len());
            assert(guarded_group_calls::<P, C, F, R, S1, S2>(r, texts(clean_bodies@), *target, submit_key));
            r
        },
    }
}

/// Whether a copier of type `C` may answer `copy` when asked to copy `body`.
pub open spec fn possible_copy<C>(body: &str, copy: Result<(), String>) -> bool where
    C: FnMut(&str) -> Result<(), String>,
 {
    exists|f: C| #[trigger] call_ensures(f, (body,), copy)
}

/// The report `o` of a prompt only copied, with the message, whose copy of
/// a text equal to `body` the copier may have answered so.
pub open spec fn copied_body_possible<C>(o: AutosendOutcome, body: Seq<char>, message: Seq<char>) -> bool where
    C: FnMut(&str) -> Result<(), String>,
 {
    exists|b: &str, c: Result<(), String>| #![trigger possible_copy::<C>(b, c), copy_outcome_spec(o, c, message)] b@ == body && possible_copy::<C>(b, c) && copy_outcome_spec(o, c, message)
}

/// The report when the prompt is only copied with `copy_sender`.
fn copy_without_sending_with<C>(body: &str, copy_sender: &mut C, message: &str) -> (r: AutosendOutcome) where
    C: FnMut(&str) -> Result<(), String>,

    requires
        forall|f: C, b: &str| call_requires(f, (b,)),
    ensures
        exists|c: Result<(), String>| #[trigger] copy_outcome_spec(r, c, message@),
        copied_body_possible::<C>(r, body@, message@),
{
    let ghost c0 = *copy_sender;
    let c = copy_sender(body);
    let ghost cg = c;
    assert(call_ensures(c0, (body,), cg));
    let r = match c {
        Ok(()) => AutosendOutcome::copied_without_send(String::from_str(message)),
        Err(error) => AutosendOutcome::copy_failed(error),
    };
    assert(copy_outcome_spec(r, cg, message@));
    assert(possible_copy::<C>(body, cg));
    assert(copied_body_possible::<C>(r, body@, message@));
    r
}

/// What a single delivery to the session target did with the prompt `body`:
/// without a usable target it copied `body`; to a decided and trusted target
/// it made a guarded delivery of `body`.
pub open spec fn session_calls_spec<P, W, C, F, R, S1, S2>(
    r: Result<AutosendOutcome, String>,
    body: &str,
    decision: SessionDecision<P, W>,
    trusted: bool,
    key: NativeSubmitKey,
) -> bool where
    C: FnMut(&str) -> Result<(), String>,
    F: FnMut() -> Option<FrontmostAppWithPid>,
    R: FnMut(&PromptPickSessionTarget<P>) -> Result<(), String>,
    S1: FnMut() -> Result<(), String>,
    S2: FnMut(NativeSubmitKey) -> Result<(), String>,
 {
    match decision {
        SessionDecision::NoTarget => r matches Ok(o) && copied_body_possible::<C>(o, body@, NO_TARGET_MESSAGE@),
        SessionDecision::Unsafe => r matches Ok(o) && copied_body_possible::<C>(o, body@, UNSAFE_TARGET_MESSAGE@),
        SessionDecision::Stale => true,
        SessionDecision::Deliver(t) => trusted ==> (r matches Ok(o) && guarded_delivery_possible::<P, C, F, R, S1, S2>(
            body,
            t.target,
            key,
            o,
        )),
    }
}

/// The report of a guarded delivery to the session target, by decision:
/// only copied without a usable target, stale for a gone target, the
/// permission error when the process is not trusted, else a guarded
/// delivery.
pub open spec fn guarded_session_spec<P, W>(
    o: AutosendOutcome,
    decision: SessionDecision<P, W>,
    trusted: bool,
    key: NativeSubmitKey,
) -> bool {
    match decision {
        SessionDecision::NoTarget => exists|c: Result<(), String>| #[trigger] copy_outcome_spec(o, c, NO_TARGET_MESSAGE@),
        SessionDecision::Stale => failed_outcome(
            o,
            false,
            AutosendFailureReason::NoSafeTarget,
            "The captured target app or window is no longer available."@,
        ),
        SessionDecision::Unsafe => exists|c: Result<(), String>| #[trigger] copy_outcome_spec(o, c, UNSAFE_TARGET_MESSAGE@),
        SessionDecision::Deliver(t) => if !trusted {
            failed_outcome(
                o,
                false,
                AutosendFailureReason::MissingAccessibilityPermission,
                crate::platform::macos::ACCESSIBILITY_PERMISSION_REQUIRED_ERROR@,
            )
        } else {
            guarded_possible(o, t.target, key)
        },
    }
}

/// `r` is a report of a guarded delivery to the session target.
pub open spec fn guarded_session_result<P, W>(
    r: Result<AutosendOutcome, String>,
    decision: SessionDecision<P, W>,
    trusted: bool,
    key: NativeSubmitKey,
) -> bool {
    match r {
        Ok(o) => guarded_session_spec(o, decision, trusted, key),
        Err(_) => false,
    }
}

/// Delivers one prompt to the session target with a guarded delivery, after
/// the checks and the permission check `is_trusted`.
pub fn focus_preserving_prompt_to_last_target_impl<P: Copy, W: Copy, C, F, R, S1, S2, Z, T, L>(
    body: &str,
    state: &mut PromptPickSessionState<P, W>,
    recent_state: Option<&LastInputTargetState<P, W>>,
    submit_key: NativeSubmitKey,
    copy_sender: &mut C,
    frontmost_reader: &mut F,
    recover_target: &mut R,
    paste_sender: &mut S1,
    submit_sender: &mut S2,
    sleeper: &mut Z,
    diagnostics: &mut Vec<String>,
    is_trusted: T,
    launch_identity_of: L,
    launch_identity_required: bool,
    now_ms: u128,
) -> (r: Result<AutosendOutcome, String>) where
    C: FnMut(&str) -> Result<(), String>,
    F: FnMut() -> Option<FrontmostAppWithPid>,
    R: FnMut(&PromptPickSessionTarget<P>) -> Result<(), String>,
    S1: FnMut() -> Result<(), String>,
    S2: FnMut(NativeSubmitKey) -> Result<(), String>,
    Z: FnMut(u64),
    T: FnOnce() -> bool,
    L: FnOnce(u32) -> Option<ProcessLaunchIdentity>,

    requires
        forall|f: C, b: &str| call_requires(f, (b,)),
        forall|f: F| call_requires(f, ()),
        forall|f: R, t: &PromptPickSessionTarget<P>| call_requires(f, (t,)),
        forall|f: S1| call_requires(f, ()),
        forall|f: S2, k: NativeSubmitKey| call_requires(f, (k,)),
        forall|f: Z, ms: u64| call_requires(f, (ms,)),
        call_requires(is_trusted, ()),
        forall|pid: u32| call_requires(launch_identity_of, (pid,)),
    ensures
        diagnostics_kept(texts(old(diagnostics)@), texts(final(diagnostics)@)),
        exists|
            choice: Option<CapturedPromptTarget<P, W>>,
            current: Option<ProcessLaunchIdentity>,
            trusted: bool,
        |
            #[trigger] target_or_recent_spec(
                old(state).target_spec(),
                old(state).identity_spec(),
                recent_view(recent_state),
                now_ms,
                choice,
            ) && #[trigger] launch_read(choice, launch_identity_of, current) && (decision_spec(
                choice,
                current,
                launch_identity_required,
            ) is Deliver ==> call_ensures(is_trusted, (), trusted)) && #[trigger] guarded_session_result(
                r,
                decision_spec(choice, current, launch_identity_required),
                trusted,
                submit_key,
            ) && session_calls_spec::<P, W, C, F, R, S1, S2>(
                r,
                body,
                decision_spec(choice, current, launch_identity_required),
                trusted,
                submit_key,
            ),
        old(state).target_spec() is Some ==> final(state).target_spec() is None
            && final(state).identity_spec() is None && final(state).session_spec() == old(
            state,
        ).session_spec(),
        old(state).target_spec() is None ==> *final(state) == *old(state),
{
    let decision = decide_session_target(
        state,
        recent_state,
        launch_identity_of,
        launch_identity_required,
        now_ms,
    );
    let ghost d = decision;
    let target = match decision {
        SessionDecision::NoTarget => {
            let o = copy_without_sending_with(body, copy_sender, NO_TARGET_MESSAGE);
            assert(guarded_session_spec(o, d, true, submit_key));
            assert(guarded_session_result(Ok(o), d, true, submit_key));
            return Ok(o);
        },
        SessionDecision::Stale => {
            let o = stale_target_outcome();
            assert(guarded_session_spec(o, d, true, submit_key));
            assert(guarded_session_result(Ok(o), d, true, submit_key));
            return Ok(o);
        },
        SessionDecision::Unsafe => {
            let o = copy_without_sending_with(body, copy_sender, UNSAFE_TARGET_MESSAGE);
            assert(guarded_session_spec(o, d, true, submit_key));
            assert(guarded_session_result(Ok(o), d, true, submit_key));
            return Ok(o);
        },
        SessionDecision::Deliver(t) => t,
    };
    let trusted = is_trusted();
    if !trusted {
        let o = AutosendOutcome::missing_accessibility_permission();
        assert(guarded_session_result(Ok(o), d, trusted, submit_key));
        return Ok(o);
    }
    let o = guarded_focus_preserving_autosend_with_senders(
        body,
        &target.target,
        submit_key,
        copy_sender,
        frontmost_reader,
        recover_target,
        paste_sender,
        submit_sender,
        sleeper,
        diagnostics,
    );
    assert(guarded_session_result(Ok(o), d, trusted, submit_key));
    Ok(o)
}

/// The report of a group delivered with guarded deliveries to the session
/// target, by decision.
pub open spec fn guarded_session_group_spec<P, W>(
    r: AutosendSequenceOutcome,
    n: nat,
    decision: SessionDecision<P, W>,
    trusted: bool,
    key: NativeSubmitKey,
) -> bool {
    if n == 0 {
        empty_group_spec(r)
    } else {
        match decision {
            SessionDecision::NoTarget => exists|o: AutosendOutcome|
                (exists|c: Result<(), String>| #[trigger] copy_outcome_spec(o, c, NO_TARGET_MESSAGE@))
                    && #[trigger] from_failure_spec(r, o, 0, 1),
            SessionDecision::Stale => exists|o: AutosendOutcome|
                failed_outcome(
                    o,
                    false,
                    AutosendFailureReason::NoSafeTarget,
                    "The captured target app or window is no longer available."@,
                ) && #[trigger] from_failure_spec(r, o, 0, 0),
            SessionDecision::Unsafe => exists|o: AutosendOutcome|
                (exists|c: Result<(), String>| #[trigger] copy_outcome_spec(o, c, UNSAFE_APP_ONLY_MESSAGE@))
                    && #[trigger] from_failure_spec(r, o, 0, 1),
            SessionDecision::Deliver(t) => if !trusted {
                exists|o: AutosendOutcome|
                    failed_outcome(
                        o,
                        false,
                        AutosendFailureReason::MissingAccessibilityPermission,
                        crate::platform::macos::ACCESSIBILITY_PERMISSION_REQUIRED_ERROR@,
                    ) && #[trigger] from_failure_spec(r, o, 0, 1)
            } else {
                guarded_group_spec(r, n, t.target, key)
            },
        }
    }
}

/// Delivers the prompts of a group to the session target with guarded
/// deliveries, after the checks and the permission check `is_trusted`.
#[verifier::loop_isolation(false)]
pub fn focus_preserving_prompt_sequence_to_last_target_impl<P: Copy, W: Copy, C, F, R, S1, S2, Z, T, L>(
    bodies: &Vec<String>,
    interval_ms: u64,
    state: &mut PromptPickSessionState<P, W>,
    recent_state: Option<&LastInputTargetState<P, W>>,
    submit_key: NativeSubmitKey,
    copy_sender: &mut C,
    frontmost_reader: &mut F,
    recover_target: &mut R,
    paste_sender: &mut S1,
    submit_sender: &mut S2,
    sleeper: &mut Z,
    diagnostics: &mut Vec<String>,
    is_trusted: T,
    launch_identity_of: L,
    launch_identity_required: bool,
    now_ms: u128,
) -> (r: Result<AutosendSequenceOutcome, String>) where
    C: FnMut(&str) -> Result<(), String>,
    F: FnMut() -> Option<FrontmostAppWithPid>,
    R: FnMut(&PromptPickSessionTarget<P>) -> Result<(), String>,
    S1: FnMut() -> Result<(), String>,
    S2: FnMut(NativeSubmitKey) -> Result<(), String>,
    Z: FnMut(u64),
    T: FnOnce() -> bool,
    L: FnOnce(u32) -> Option<ProcessLaunchIdentity>,

    requires
        forall|f: C, b: &str| call_requires(f, (b,)),
        forall|f: F| call_requires(f, ()),
        forall|f: R, t: &PromptPickSessionTarget<P>| call_requires(f, (t,)),
        forall|f: S1| call_requires(f, ()),
        forall|f: S2, k: NativeSubmitKey| call_requires(f, (k,)),
        forall|f: Z, ms: u64| call_requires(f, (ms,)),
        call_requires(is_trusted, ()),
        forall|pid: u32| call_requires(launch_identity_of, (pid,)),
    ensures
        diagnostics_kept(texts(old(diagnostics)@), texts(final(diagnostics)@)),
        clean_bodies_spec(bodies@).len() == 0 ==> (r matches Ok(o) && empty_group_spec(o)),
        clean_bodies_spec(bodies@).len() > 0 ==> exists|
            choice: Option<CapturedPromptTarget<P, W>>,
            current: Option<ProcessLaunchIdentity>,
            trusted: bool,
        |
            #[trigger] target_or_recent_spec(
                old(state).target_spec(),
                old(state).identity_spec(),
                recent_view(recent_state),
                now_ms,
                choice,
            ) && #[trigger] launch_read(choice, launch_identity_of, current) && (decision_spec(
                choice,
                current,
                launch_identity_required,
            ) is Deliver ==> call_ensures(is_trusted, (), trusted)) && #[trigger] guarded_group_result(
                r,
                clean_bodies_spec(bodies@).len(),
                decision_spec(choice, current, launch_identity_required),
                trusted,
                submit_key,
            ) && group_calls_if_delivered::<P, W, C, F, R, S1, S2>(
                r,
                clean_bodies_spec(bodies@),
                decision_spec(choice, current, launch_identity_required),
                trusted,
                submit_key,
            ) && group_lines_if_delivered::<P, W, C, F, R, S1, S2>(
                clean_bodies_spec(bodies@),
                decision_spec(choice, current, launch_identity_required),
                trusted,
                submit_key,
                texts(old(diagnostics)@),
                texts(final(diagnostics)@),
            ),
        clean_bodies_spec(bodies@).len() == 0 ==> texts(final(diagnostics)@) == texts(old(diagnostics)@),
        (clean_bodies_spec(bodies@).len() > 0 && old(state).target_spec() is Some) ==> (final(state).target_spec() is None
            && final(state).identity_spec() is None && final(state).session_spec() == old(state).session_spec()),
        (clean_bodies_spec(bodies@).len() == 0 || old(state).target_spec() is None) ==> *final(state) == *old(state),
{
    let ghost d0 = texts(diagnostics@);
    let clean = clean_bodies(bodies);
    let ghost n = clean_bodies_spec(bodies@).len();
    assert(texts(clean@).len() == clean@.len());
    if clean.len() == 0 {
        let o = AutosendOutcome::copy_failed(String::from_str("Prompt group is empty."));
        return Ok(AutosendSequenceOutcome::from_failure(o, 0, 1));
    }
    let decision = decide_session_target(
        state,
        recent_state,
        launch_identity_of,
        launch_identity_required,
        now_ms,
    );
    let ghost d = decision;
    let first = clean[0].as_str();
    let target = match decision {
        SessionDecision::NoTarget => {
            let o = copy_without_sending_with(first, copy_sender, NO_TARGET_MESSAGE);
            let r = AutosendSequenceOutcome::from_failure(o, 0, 1);
            assert(guarded_group_result(Ok(r), n, d, true, submit_key));
            assert(group_lines_if_delivered::<P, W, C, F, R, S1, S2>(texts(clean@), d, true, submit_key, d0, texts(diagnostics@)));
            return Ok(r);
        },
        SessionDecision::Stale => {
            let o = stale_target_outcome();
            let r = AutosendSequenceOutcome::from_failure(o, 0, 0);
            assert(guarded_group_result(Ok(r), n, d, true, submit_key));
            assert(group_lines_if_delivered::<P, W, C, F, R, S1, S2>(texts(clean@), d, true, submit_key, d0, texts(diagnostics@)));
            return Ok(r);
        },
        SessionDecision::Unsafe => {
            let o = copy_without_sending_with(first, copy_sender, UNSAFE_APP_ONLY_MESSAGE);
            let r = AutosendSequenceOutcome::from_failure(o, 0, 1);
            assert(guarded_group_result(Ok(r), n, d, true, submit_key));
            assert(group_lines_if_delivered::<P, W, C, F, R, S1, S2>(texts(clean@), d, true, submit_key, d0, texts(diagnostics@)));
            return Ok(r);
        },
        SessionDecision::Deliver(t) => t,
    };
    let trusted = is_trusted();
    if !trusted {
        let o = AutosendOutcome::missing_accessibility_permission();
        let r = AutosendSequenceOutcome::from_failure(o, 0, 1);
        assert(guarded_group_result(Ok(r), n, d, trusted, submit_key));
        assert(group_lines_if_delivered::<P, W, C, F, R, S1, S2>(texts(clean@), d, trusted, submit_key, d0, texts(diagnostics@)));
        return Ok(r);
    }
    let r = focus_preserving_prompt_sequence_for_target_with_senders(
        &clean,
        interval_ms,
        &target.target,
        submit_key,
        copy_sender,
        frontmost_reader,
        recover_target,
        paste_sender,
        submit_sender,
        sleeper,
        diagnostics,
    );
    assert(guarded_group_result(Ok(r), n, d, trusted, submit_key));
    assert(group_lines_if_delivered::<P, W, C, F, R, S1, S2>(texts(clean@), d, trusted, submit_key, d0, texts(diagnostics@)));
    Ok(r)
}

/// What a group delivery did with the prompts `bodies`: without a usable
/// target it copied the first; to a decided and trusted target it went
/// through them in order, as `guarded_group_calls` says.
pub open spec fn group_calls_if_delivered<P, W, C, F, R, S1, S2>(
    r: Result<AutosendSequenceOutcome, String>,
    bodies: Seq<Seq<char>>,
    decision: SessionDecision<P, W>,
    trusted: bool,
    key: NativeSubmitKey,
) -> bool where
    C: FnMut(&str) -> Result<(), String>,
    F: FnMut() -> Option<FrontmostAppWithPid>,
    R: FnMut(&PromptPickSessionTarget<P>) -> Result<(), String>,
    S1: FnMut() -> Result<(), String>,
    S2: FnMut(NativeSubmitKey) -> Result<(), String>,
 {
    match decision {
        SessionDecision::NoTarget => r matches Ok(o) && exists|first: AutosendOutcome|
            copied_body_possible::<C>(first, bodies[0], NO_TARGET_MESSAGE@) && #[trigger] from_failure_spec(
                o,
                first,
                0,
                1,
            ),
        SessionDecision::Unsafe => r matches Ok(o) && exists|first: AutosendOutcome|
            copied_body_possible::<C>(first, bodies[0], UNSAFE_APP_ONLY_MESSAGE@) && #[trigger] from_failure_spec(
                o,
                first,
                0,
                1,
            ),
        SessionDecision::Stale => true,
        SessionDecision::Deliver(t) => trusted ==> (r matches Ok(o) && guarded_group_calls::<P, C, F, R, S1, S2>(
            o,
            bodies,
            t.target,
            key,
        )),
    }
}

/// The diagnostic lines a group delivery added to `before`, giving `after`:
/// those of its guarded deliveries to a decided and trusted target, and none
/// otherwise.
pub open spec fn group_lines_if_delivered<P, W, C, F, R, S1, S2>(
    bodies: Seq<Seq<char>>,
    decision: SessionDecision<P, W>,
    trusted: bool,
    key: NativeSubmitKey,
    before: Seq<Seq<char>>,
    after: Seq<Seq<char>>,
) -> bool where
    C: FnMut(&str) -> Result<(), String>,
    F: FnMut() -> Option<FrontmostAppWithPid>,
    R: FnMut(&PromptPickSessionTarget<P>) -> Result<(), String>,
    S1: FnMut() -> Result<(), String>,
    S2: FnMut(NativeSubmitKey) -> Result<(), String>,
 {
    match decision {
        SessionDecision::Deliver(t) => if trusted {
            group_lines::<P, C, F, R, S1, S2>(bodies, t.target, key, before, after)
        } else {
            after == before
        },
        _ => after == before,
    }
}

/// `r` is a report of a group delivered with guarded deliveries.
pub open spec fn guarded_group_result<P, W>(
    r: Result<AutosendSequenceOutcome, String>,
    n: nat,
    decision: SessionDecision<P, W>,
    trusted: bool,
    key: NativeSubmitKey,
) -> bool {
    match r {
        Ok(o) => guarded_session_group_spec(o, n, decision, trusted, key),
        Err(_) => false,
    }
}

/// The submit key a command's argument names, or the error it is refused
/// with; an argument that names none asks for Return.
pub open spec fn submit_arg_spec(submit_key: Option<String>) -> Result<NativeSubmitKey, Seq<char>> {
    submit_key_arg_spec(
        match submit_key {
            Some(s) => s@,
            None => "enter"@,
        },
    )
}

/// The window captured with the session's target, else with the recorded
/// target, that a delivery checks before pasting.
pub open spec fn captured_window_spec<P, W>(
    session_identity: Option<crate::targets::CapturedTargetIdentity<W>>,
    recent_identity: Option<crate::targets::CapturedTargetIdentity<W>>,
) -> Option<W> {
    let identity = match session_identity {
        Some(i) => Some(i),
        None => recent_identity,
    };
    match identity {
        Some(i) => match i.window {
            Some(w) => Some(w.frame),
            None => None,
        },
        None => None,
    }
}

/// The window a delivery checks: that captured with the session's target,
/// else with the recorded target.
pub fn captured_window_for_delivery<P: Copy, W: Copy>(
    state: &PromptPickSessionState<P, W>,
    recent_state: &LastInputTargetState<P, W>,
) -> (r: Option<W>)
    ensures
        r == captured_window_spec::<P, W>(state.identity_spec(), recent_state.identity_spec()),
{
    let identity = match state.captured_identity() {
        Some(i) => Some(i),
        None => recent_state.captured_identity(),
    };
    match identity {
        Some(i) => match i.window {
            Some(w) => Some(w.frame),
            None => None,
        },
        None => None,
    }
}

/// The autosend command for one prompt: the submit-key argument is checked,
/// but the submit behavior comes from the settings (`settings_text`); the
/// prompt then goes to the session target through `app_sender`.
pub fn paste_prompt_and_submit_to_last_target<P: Copy, W: Copy, A, C, L>(
    body: &str,
    submit_key: Option<String>,
    settings_text: Result<Option<String>, String>,
    state: &mut PromptPickSessionState<P, W>,
    recent_state: Option<&LastInputTargetState<P, W>>,
    app_sender: A,
    copy_sender: C,
    launch_identity_of: L,
    launch_identity_required: bool,
    now_ms: u128,
) -> (r: Result<AutosendOutcome, String>) where
    A: FnOnce(&str, &str, Option<P>, NativeSubmitKey) -> AutosendOutcome,
    C: FnOnce(&str) -> Result<(), String>,
    L: FnOnce(u32) -> Option<ProcessLaunchIdentity>,

    requires
        forall|b: &str, id: &str, p: Option<P>, k: NativeSubmitKey| call_requires(app_sender, (b, id, p, k)),
        forall|b: &str| call_requires(copy_sender, (b,)),
        forall|pid: u32| call_requires(launch_identity_of, (pid,)),
    ensures
        submit_arg_spec(submit_key) matches Err(m) ==> (r matches Err(e) && e@ == m) && *final(state)
            == *old(state),
        submit_arg_spec(submit_key) is Ok ==> exists|
            choice: Option<CapturedPromptTarget<P, W>>,
            current: Option<ProcessLaunchIdentity>,
        |
            #[trigger] target_or_recent_spec(
                old(state).target_spec(),
                old(state).identity_spec(),
                recent_view(recent_state),
                now_ms,
                choice,
            ) && #[trigger] launch_read(choice, launch_identity_of, current) && ok_session_outcome(
                r,
                body,
                decision_spec(choice, current, launch_identity_required),
                authoritative_submit_key_spec(settings_text),
                app_sender,
                copy_sender,
            ),
        (submit_arg_spec(submit_key) is Ok && old(state).target_spec() is Some) ==> (final(state).target_spec() is None
            && final(state).identity_spec() is None && final(state).session_spec() == old(state).session_spec()),
        (submit_arg_spec(submit_key) is Ok && old(state).target_spec() is None) ==> *final(state) == *old(state),
{
    if let Err(e) = native_submit_key_from_arg(submit_key) {
        return Err(e);
    }
    let key = authoritative_submit_key(settings_text);
    paste_prompt_and_submit_to_session_target_with_senders(
        body,
        state,
        recent_state,
        key,
        app_sender,
        copy_sender,
        launch_identity_of,
        launch_identity_required,
        now_ms,
    )
}

/// The report of a prompt group pasted at once without a submit key: all
/// sent when the delivery says so, else its failure at the first prompt.
pub open spec fn joined_group_spec(r: AutosendSequenceOutcome, o: AutosendOutcome, n: nat) -> bool {
    if o.sent {
        sent_all_spec(r, n)
    } else {
        from_failure_spec(r, o, 0, 0)
    }
}

/// The autosend command for a prompt group: the submit-key argument is
/// checked and the submit behavior read from the settings; without a submit
/// key the prompts are joined by a blank line and delivered as one prompt,
/// otherwise they are delivered one after another.
pub fn paste_prompt_sequence_and_submit_to_last_target<P: Copy, W: Copy, A, C, S, L>(
    bodies: &Vec<String>,
    interval_ms: u64,
    submit_key: Option<String>,
    settings_text: Result<Option<String>, String>,
    state: &mut PromptPickSessionState<P, W>,
    recent_state: Option<&LastInputTargetState<P, W>>,
    app_sender: A,
    copy_sender: C,
    sleeper: &mut S,
    launch_identity_of: L,
    launch_identity_required: bool,
    now_ms: u128,
) -> (r: Result<AutosendSequenceOutcome, String>) where
    A: Fn(&str, &str, Option<P>, NativeSubmitKey) -> AutosendOutcome,
    C: FnOnce(&str) -> Result<(), String>,
    S: FnMut(u64),
    L: FnOnce(u32) -> Option<ProcessLaunchIdentity>,

    requires
        forall|f: A, b: &str, id: &str, p: Option<P>, k: NativeSubmitKey| call_requires(f, (b, id, p, k)),
        forall|b: &str| call_requires(copy_sender, (b,)),
        forall|f: S, ms: u64| call_requires(f, (ms,)),
        forall|pid: u32| call_requires(launch_identity_of, (pid,)),
    ensures
        submit_arg_spec(submit_key) matches Err(m) ==> (r matches Err(e) && e@ == m) && *final(state)
            == *old(state),
        submit_arg_spec(submit_key) is Ok && authoritative_submit_key_spec(settings_text)
            == NativeSubmitKey::NoKey ==> exists|
            joined: &str,
            choice: Option<CapturedPromptTarget<P, W>>,
            current: Option<ProcessLaunchIdentity>,
            o: AutosendOutcome,
        |
            joined@ == join_spec(texts(bodies@), "\n\n"@) && #[trigger] target_or_recent_spec(
                old(state).target_spec(),
                old(state).identity_spec(),
                recent_view(recent_state),
                now_ms,
                choice,
            ) && #[trigger] launch_read(choice, launch_identity_of, current) && #[trigger] session_outcome_spec(
                o,
                joined,
                decision_spec(choice, current, launch_identity_required),
                NativeSubmitKey::NoKey,
                app_sender,
                copy_sender,
            ) && (r matches Ok(g) && joined_group_spec(g, o, bodies@.len())),
        submit_arg_spec(submit_key) is Ok && authoritative_submit_key_spec(settings_text)
            != NativeSubmitKey::NoKey ==> r is Ok && (clean_bodies_spec(bodies@).len() > 0 ==> exists|
            choice: Option<CapturedPromptTarget<P, W>>,
            current: Option<ProcessLaunchIdentity>,
        |
            #[trigger] target_or_recent_spec(
                old(state).target_spec(),
                old(state).identity_spec(),
                recent_view(recent_state),
                now_ms,
                choice,
            ) && #[trigger] launch_read(choice, launch_identity_of, current) && match r {
                Ok(g) => session_group_spec::<P, W, A, C>(
                    g,
                    clean_bodies_spec(bodies@),
                    decision_spec(choice, current, launch_identity_required),
                    authoritative_submit_key_spec(settings_text),
                    copy_sender,
                ),
                Err(_) => false,
            }) && (clean_bodies_spec(bodies@).len() == 0 ==> match r {
            Ok(g) => session_group_spec::<P, W, A, C>(
                g,
                clean_bodies_spec(bodies@),
                SessionDecision::<P, W>::NoTarget,
                authoritative_submit_key_spec(settings_text),
                copy_sender,
            ),
            Err(_) => false,
        }),
        (submit_arg_spec(submit_key) is Ok && old(state).target_spec() is Some && (authoritative_submit_key_spec(settings_text)
            == NativeSubmitKey::NoKey || clean_bodies_spec(bodies@).len() > 0)) ==> (final(state).target_spec() is None
            && final(state).identity_spec() is None && final(state).session_spec() == old(state).session_spec()),
        (submit_arg_spec(submit_key) is Ok && old(state).target_spec() is None) ==> *final(state) == *old(state),
{
    if let Err(e) = native_submit_key_from_arg(submit_key) {
        return Err(e);
    }
    let key = authoritative_submit_key(settings_text);
    if key == NativeSubmitKey::NoKey {
        let joined = join_with(bodies, "\n\n");
        let arg = joined.as_str();
        let single = paste_prompt_and_submit_to_session_target_with_senders(
            arg,
            state,
            recent_state,
            key,
            app_sender,
            copy_sender,
            launch_identity_of,
            launch_identity_required,
            now_ms,
        );
        let outcome = match single {
            Ok(o) => o,
            Err(e) => {
                return Err(e);
            },
        };
        let ghost og = outcome;
        let r = if outcome.sent {
            AutosendSequenceOutcome::sent_all(bodies.len())
        } else {
            AutosendSequenceOutcome::from_failure(outcome, 0, 0)
        };
        assert(joined_group_spec(r, og, bodies@.len()));
        return Ok(r);
    }
    let mut sender = app_sender;
    paste_prompt_sequence_and_submit_to_session_target_with_senders(
        bodies,
        interval_ms,
        state,
        recent_state,
        key,
        &mut sender,
        copy_sender,
        sleeper,
        launch_identity_of,
        launch_identity_required,
        now_ms,
    )
}

} // verus!
