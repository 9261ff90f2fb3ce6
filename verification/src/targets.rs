//! The application a prompt is delivered to: which applications may be
//! targets, the target recorded from the last focused input, the target
//! captured for one prompt-pick session, and how a captured target is
//! recognised again as the frontmost application.
use crate::platform::macos::delivery::is_prompt_picker_spec;
use crate::platform::macos::{
    failed_outcome, AutosendFailureReason, AutosendOutcome, FrontmostApp, FrontmostAppWithPid,
    ProcessLaunchIdentity,
};
use crate::text::{chars_of, has_prefix, push_str, starts_with_str, str_eq};
use vstd::prelude::*;
use vstd::string::StringExecFns;

verus! {

/// How long, in milliseconds, a recorded target stays usable.
pub const PROMPT_PICK_RECENT_TARGET_MAX_AGE_MS: u128 = 5000;

/// A copy of an optional string.
pub fn duplicate_opt_string(s: &Option<String>) -> (r: Option<String>)
    ensures
        r == *s,
{
    match s {
        Some(v) => Some(v.clone()),
        None => None,
    }
}

/// The target recorded from the input that last had focus outside this app.
pub struct LastInputTarget<P> {
    pub app: FrontmostApp,
    pub pid: Option<u32>,
    pub observed_at_ms: u128,
    pub click_point: Option<P>,
}

impl<P: Copy> LastInputTarget<P> {
    /// A copy of this target.
    pub fn duplicate(&self) -> (r: Self)
        ensures
            r == *self,
    {
        LastInputTarget {
            app: self.app.duplicate(),
            pid: self.pid,
            observed_at_ms: self.observed_at_ms,
            click_point: self.click_point,
        }
    }
}

/// The target captured for one prompt-pick session.
pub struct PromptPickSessionTarget<P> {
    pub app: FrontmostApp,
    pub pid: Option<u32>,
    pub observed_at_ms: u128,
    pub click_point: Option<P>,
}

impl<P: Copy> PromptPickSessionTarget<P> {
    /// A copy of this target.
    pub fn duplicate(&self) -> (r: Self)
        ensures
            r == *self,
    {
        PromptPickSessionTarget {
            app: self.app.duplicate(),
            pid: self.pid,
            observed_at_ms: self.observed_at_ms,
            click_point: self.click_point,
        }
    }
}

/// The target application as a process: its bundle, pid and launch time.
pub struct TargetApplicationIdentity {
    pub bundle_id: String,
    pub main_pid: u32,
    pub launch_identity: ProcessLaunchIdentity,
}

impl TargetApplicationIdentity {
    /// A copy of this identity.
    pub fn duplicate(&self) -> (r: Self)
        ensures
            r == *self,
    {
        TargetApplicationIdentity {
            bundle_id: self.bundle_id.clone(),
            main_pid: self.main_pid,
            launch_identity: self.launch_identity,
        }
    }
}

/// The target window: its owner, frame, role and title fingerprint.
pub struct TargetWindowIdentity<W> {
    pub owner_pid: u32,
    pub frame: W,
    pub role: Option<String>,
    pub title_hash: Option<String>,
    pub cg_window_id: Option<u32>,
}

impl<W: Copy> TargetWindowIdentity<W> {
    /// A copy of this identity.
    pub fn duplicate(&self) -> (r: Self)
        ensures
            r == *self,
    {
        TargetWindowIdentity {
            owner_pid: self.owner_pid,
            frame: self.frame,
            role: duplicate_opt_string(&self.role),
            title_hash: duplicate_opt_string(&self.title_hash),
            cg_window_id: self.cg_window_id,
        }
    }
}

/// Everything captured of a target: the application and, where known, the
/// window.
pub struct CapturedTargetIdentity<W> {
    pub application: TargetApplicationIdentity,
    pub window: Option<TargetWindowIdentity<W>>,
}

impl<W: Copy> CapturedTargetIdentity<W> {
    /// A copy of this identity.
    pub fn duplicate(&self) -> (r: Self)
        ensures
            r == *self,
    {
        CapturedTargetIdentity {
            application: self.application.duplicate(),
            window: match &self.window {
                Some(w) => Some(w.duplicate()),
                None => None,
            },
        }
    }
}

/// Applications that never receive an autosend: Finder, the Dock, Control
/// Center, notification center and the system settings, by bundle or name.
pub open spec fn is_unsafe_spec(app: FrontmostApp) -> bool {
    let b = app.bundle_id@;
    let n = app.name@;
    ||| b == "com.apple.finder"@
    ||| b == "com.apple.systempreferences"@
    ||| b == "com.apple.SystemSettings"@
    ||| b == "com.apple.dock"@
    ||| b == "com.apple.controlcenter"@
    ||| b == "com.apple.notificationcenterui"@
    ||| n == "Finder"@
    ||| n == "Desktop"@
    ||| n == "System Settings"@
    ||| n == "System Preferences"@
    ||| n == "Dock"@
    ||| n == "Control Center"@
}

/// Whether an application has only the stand-in bundle id `unknown.pid.N`,
/// given when its real bundle id could not be read: it is no real target.
pub open spec fn is_unknown_bundle_spec(app: FrontmostApp) -> bool {
    has_prefix(app.bundle_id@, "unknown."@)
}

/// An application that may receive a prompt: neither this app, nor an unsafe
/// one, nor one whose bundle id is unknown.
pub open spec fn is_usable_spec(app: FrontmostApp) -> bool {
    !is_prompt_picker_spec(app) && !is_unsafe_spec(app) && !is_unknown_bundle_spec(app)
}

/// Whether a target observed at `observed_at_ms` is still recent at `now_ms`.
pub open spec fn is_recent_spec(observed_at_ms: u128, now_ms: u128) -> bool {
    (if now_ms >= observed_at_ms {
        now_ms - observed_at_ms
    } else {
        0
    }) <= PROMPT_PICK_RECENT_TARGET_MAX_AGE_MS
}

/// Whether this app's own window is in front.
pub fn is_prompt_picker_app(app: &FrontmostApp) -> (r: bool)
    ensures
        r == is_prompt_picker_spec(*app),
{
    str_eq(app.bundle_id.as_str(), "local.promptpicker.dev") || str_eq(
        app.name.as_str(),
        "Prompt Drawer",
    )
}

/// Whether an application must never receive an autosend.
pub fn is_unsafe_autosend_target(app: &FrontmostApp) -> (r: bool)
    ensures
        r == is_unsafe_spec(*app),
{
    let b = app.bundle_id.as_str();
    let n = app.name.as_str();
    str_eq(b, "com.apple.finder") || str_eq(b, "com.apple.systempreferences") || str_eq(
        b,
        "com.apple.SystemSettings",
    ) || str_eq(b, "com.apple.dock") || str_eq(b, "com.apple.controlcenter") || str_eq(
        b,
        "com.apple.notificationcenterui",
    ) || str_eq(n, "Finder") || str_eq(n, "Desktop") || str_eq(n, "System Settings") || str_eq(
        n,
        "System Preferences",
    ) || str_eq(n, "Dock") || str_eq(n, "Control Center")
}

/// Whether an application may receive a prompt without a verified input.
pub fn allows_app_only_autosend(app: &FrontmostApp) -> (r: bool)
    ensures
        r == !is_unsafe_spec(*app),
{
    !is_unsafe_autosend_target(app)
}

/// Whether an application may receive a prompt.
pub fn is_usable_autosend_app(app: &FrontmostApp) -> (r: bool)
    ensures
        r == is_usable_spec(*app),
{
    !is_prompt_picker_app(app) && allows_app_only_autosend(app) && !starts_with_str(
        &chars_of(app.bundle_id.as_str()),
        "unknown.",
    )
}

/// Whether a recorded target is still recent at `now_ms`.
pub fn is_recent_prompt_target<P>(target: &LastInputTarget<P>, now_ms: u128) -> (r: bool)
    ensures
        r == is_recent_spec(target.observed_at_ms, now_ms),
{
    let age: u128 = if now_ms >= target.observed_at_ms {
        now_ms - target.observed_at_ms
    } else {
        0
    };
    age <= PROMPT_PICK_RECENT_TARGET_MAX_AGE_MS
}

/// Whether the frontmost application is the captured target: the same
/// bundle, and the same pid where both pids are known.
pub open spec fn matches_frontmost_spec(
    target_app: FrontmostApp,
    target_pid: Option<u32>,
    frontmost: Option<FrontmostAppWithPid>,
) -> bool {
    match frontmost {
        None => false,
        Some(f) => f.app.bundle_id@ == target_app.bundle_id@ && match (target_pid, f.pid) {
            (Some(t), Some(p)) => t == p,
            _ => true,
        },
    }
}

/// Whether the frontmost application is the captured target.
pub fn captured_target_matches_frontmost<P>(
    target: &PromptPickSessionTarget<P>,
    frontmost: Option<&FrontmostAppWithPid>,
) -> (r: bool)
    ensures
        r == matches_frontmost_spec(
            target.app,
            target.pid,
            match frontmost {
                Some(f) => Some(*f),
                None => None,
            },
        ),
{
    let frontmost = match frontmost {
        Some(f) => f,
        None => {
            return false;
        },
    };
    if !str_eq(frontmost.app.bundle_id.as_str(), target.app.bundle_id.as_str()) {
        return false;
    }
    match (target.pid, frontmost.pid) {
        (Some(target_pid), Some(frontmost_pid)) => target_pid == frontmost_pid,
        _ => true,
    }
}

/// What is in front, seen from a captured target.
#[derive(Clone, Copy, Debug, PartialEq, Eq, Structural)]
pub enum TargetFrontmostStatus {
    Target,
    PromptPicker,
    OtherOrUnknown,
}

/// What is in front: the target, this app, or something else or unknown.
pub open spec fn classify_spec(
    target_app: FrontmostApp,
    target_pid: Option<u32>,
    frontmost: Option<FrontmostAppWithPid>,
) -> TargetFrontmostStatus {
    match frontmost {
        None => TargetFrontmostStatus::OtherOrUnknown,
        Some(f) => if matches_frontmost_spec(target_app, target_pid, frontmost) {
            TargetFrontmostStatus::Target
        } else if is_prompt_picker_spec(f.app) {
            TargetFrontmostStatus::PromptPicker
        } else {
            TargetFrontmostStatus::OtherOrUnknown
        },
    }
}

/// What is in front, seen from a captured target.
pub fn classify_target_frontmost<P>(
    target: &PromptPickSessionTarget<P>,
    frontmost: Option<&FrontmostAppWithPid>,
) -> (r: TargetFrontmostStatus)
    ensures
        r == classify_spec(
            target.app,
            target.pid,
            match frontmost {
                Some(f) => Some(*f),
                None => None,
            },
        ),
{
    match frontmost {
        None => TargetFrontmostStatus::OtherOrUnknown,
        Some(f) => if captured_target_matches_frontmost(target, Some(f)) {
            TargetFrontmostStatus::Target
        } else if is_prompt_picker_app(&f.app) {
            TargetFrontmostStatus::PromptPicker
        } else {
            TargetFrontmostStatus::OtherOrUnknown
        },
    }
}

/// The name of a frontmost status, as diagnostics print it.
pub open spec fn status_name(s: TargetFrontmostStatus) -> Seq<char> {
    match s {
        TargetFrontmostStatus::Target => "Target"@,
        TargetFrontmostStatus::PromptPicker => "PromptPicker"@,
        TargetFrontmostStatus::OtherOrUnknown => "OtherOrUnknown"@,
    }
}

/// The characters of an optional string slice.
pub open spec fn str_opt_view(s: Option<&str>) -> Option<Seq<char>> {
    match s {
        Some(v) => Some(v@),
        None => None,
    }
}

/// `s`, or `unknown` where there is none.
pub open spec fn or_unknown(s: Option<Seq<char>>) -> Seq<char> {
    match s {
        Some(v) => v,
        None => "unknown"@,
    }
}

/// One diagnostic line of an autosend: the stage, the target, whether a click
/// point was recorded, what is in front and how it was classified; never the
/// prompt's text.
pub open spec fn diagnostic_line_spec(
    stage: Seq<char>,
    target: Option<Seq<char>>,
    has_click_point: bool,
    frontmost: Option<Seq<char>>,
    classification: Option<TargetFrontmostStatus>,
) -> Seq<char> {
    "prompt-picker-autosend stage="@ + stage + " target="@ + or_unknown(target)
        + " has_click_point="@ + (if has_click_point {
        "true"@
    } else {
        "false"@
    }) + " frontmost="@ + or_unknown(frontmost) + " classification="@ + match classification {
        Some(s) => status_name(s),
        None => "unknown"@,
    }
}

fn push_opt(s: &mut String, v: Option<&str>)
    ensures
        final(s)@ == old(s)@ + or_unknown(str_opt_view(v)),
{
    match v {
        Some(t) => push_str(s, t),
        None => push_str(s, "unknown"),
    }
}

/// One diagnostic line of an autosend.
pub fn autosend_diagnostic_line(
    stage: &str,
    target_bundle_id: Option<&str>,
    has_click_point: bool,
    frontmost_bundle_id: Option<&str>,
    classification: Option<TargetFrontmostStatus>,
) -> (r: String)
    ensures
        r@ == diagnostic_line_spec(
            stage@,
            str_opt_view(target_bundle_id),
            has_click_point,
            str_opt_view(frontmost_bundle_id),
            classification,
        ),
{
    let mut s = String::from_str("prompt-picker-autosend stage=");
    push_str(&mut s, stage);
    push_str(&mut s, " target=");
    push_opt(&mut s, target_bundle_id);
    push_str(&mut s, " has_click_point=");
    if has_click_point {
        push_str(&mut s, "true");
    } else {
        push_str(&mut s, "false");
    }
    push_str(&mut s, " frontmost=");
    push_opt(&mut s, frontmost_bundle_id);
    push_str(&mut s, " classification=");
    match classification {
        Some(TargetFrontmostStatus::Target) => push_str(&mut s, "Target"),
        Some(TargetFrontmostStatus::PromptPicker) => push_str(&mut s, "PromptPicker"),
        Some(TargetFrontmostStatus::OtherOrUnknown) => push_str(&mut s, "OtherOrUnknown"),
        None => push_str(&mut s, "unknown"),
    }
    s
}

/// The session target for a prompt pick, from the frontmost application and
/// the recorded target: a usable frontmost application other than this one
/// is the target, keeping the recorded click point when the recorded target
/// is the same bundle; when this app is in front, a recent and usable
/// recorded target is used instead; anything else gives no target.
pub open spec fn session_target_spec<P>(
    frontmost: Option<FrontmostAppWithPid>,
    recent: Option<LastInputTarget<P>>,
    own_pid: u32,
    now_ms: u128,
) -> Option<PromptPickSessionTarget<P>> {
    match frontmost {
        None => None,
        Some(f) => {
            let picker = f.pid == Some(own_pid) || is_prompt_picker_spec(f.app);
            if !picker && is_usable_spec(f.app) {
                Some(
                    PromptPickSessionTarget {
                        app: f.app,
                        pid: f.pid,
                        observed_at_ms: now_ms,
                        click_point: match recent {
                            Some(t) => if t.app.bundle_id@ == f.app.bundle_id@ {
                                t.click_point
                            } else {
                                None
                            },
                            None => None,
                        },
                    },
                )
            } else if !picker {
                None
            } else {
                match recent {
                    Some(t) => if is_recent_spec(t.observed_at_ms, now_ms) && is_usable_spec(t.app) {
                        Some(
                            PromptPickSessionTarget {
                                app: t.app,
                                pid: t.pid,
                                observed_at_ms: now_ms,
                                click_point: t.click_point,
                            },
                        )
                    } else {
                        None
                    },
                    None => None,
                }
            }
        },
    }
}

/// A session target carries a click point only when it is the recorded
/// target's point and the recorded target is the same application (same
/// bundle id) as the session target; when a usable application other than
/// this one is in front, the session target is that application, and a
/// point recorded in another application is never carried over to it.
pub proof fn lemma_session_click_point_belongs_to_target<P>(
    frontmost: Option<FrontmostAppWithPid>,
    recent: Option<LastInputTarget<P>>,
    own_pid: u32,
    now_ms: u128,
)
    ensures
        match session_target_spec(frontmost, recent, own_pid, now_ms) {
            Some(t) => t.click_point is Some ==> match recent {
                Some(rt) => rt.click_point == t.click_point && rt.app.bundle_id@ == t.app.bundle_id@,
                None => false,
            },
            None => true,
        },
        match frontmost {
            Some(f) => (f.pid != Some(own_pid) && !is_prompt_picker_spec(f.app) && is_usable_spec(f.app))
                ==> match session_target_spec(frontmost, recent, own_pid, now_ms) {
                Some(t) => t.app == f.app && t.pid == f.pid && (t.click_point is Some ==> match recent {
                    Some(rt) => rt.app.bundle_id@ == f.app.bundle_id@,
                    None => false,
                }),
                None => false,
            },
            None => true,
        },
{
}

/// The session target for a prompt pick; `own_pid` is this process and
/// `now_ms` the current time.
pub fn prompt_pick_session_target<P: Copy>(
    frontmost: Option<FrontmostAppWithPid>,
    recent_target: Option<LastInputTarget<P>>,
    own_pid: u32,
    now_ms: u128,
) -> (r: Option<PromptPickSessionTarget<P>>)
    ensures
        r == session_target_spec(frontmost, recent_target, own_pid, now_ms),
        match r {
            Some(t) => t.click_point is Some ==> match recent_target {
                Some(rt) => rt.click_point == t.click_point && rt.app.bundle_id@ == t.app.bundle_id@,
                None => false,
            },
            None => true,
        },
{
    proof {
        lemma_session_click_point_belongs_to_target(frontmost, recent_target, own_pid, now_ms);
    }
    let frontmost = match frontmost {
        Some(f) => f,
        None => {
            return None;
        },
    };
    let is_prompt_picker = frontmost.pid == Some(own_pid) || is_prompt_picker_app(&frontmost.app);
    if !is_prompt_picker && is_usable_autosend_app(&frontmost.app) {
        let click_point = match &recent_target {
            Some(t) => if str_eq(t.app.bundle_id.as_str(), frontmost.app.bundle_id.as_str()) {
                t.click_point
            } else {
                None
            },
            None => None,
        };
        return Some(
            PromptPickSessionTarget {
                app: frontmost.app,
                pid: frontmost.pid,
                observed_at_ms: now_ms,
                click_point,
            },
        );
    }
    if !is_prompt_picker {
        return None;
    }
    match recent_target {
        Some(t) => if is_recent_prompt_target(&t, now_ms) && is_usable_autosend_app(&t.app) {
            Some(
                PromptPickSessionTarget {
                    app: t.app,
                    pid: t.pid,
                    observed_at_ms: now_ms,
                    click_point: t.click_point,
                },
            )
        } else {
            None
        },
        None => None,
    }
}

/// Whether the application is still the process that was captured: the same
/// launch time, or, where no launch time can be read, only on a platform that
/// does not require one.
pub open spec fn identity_matches_spec(
    identity: TargetApplicationIdentity,
    current: Option<ProcessLaunchIdentity>,
    launch_identity_required: bool,
) -> bool {
    match current {
        Some(c) => c == identity.launch_identity,
        None => !launch_identity_required,
    }
}

/// Whether the application is still the process that was captured.
pub fn target_application_identity_matches(
    identity: &TargetApplicationIdentity,
    current: Option<ProcessLaunchIdentity>,
    launch_identity_required: bool,
) -> (r: bool)
    ensures
        r == identity_matches_spec(*identity, current, launch_identity_required),
{
    match current {
        Some(c) => c == identity.launch_identity,
        None => !launch_identity_required,
    }
}

/// Targets whose window must be identified exactly: the two accessibility-profiled
/// desktop chat applications.
pub open spec fn requires_exact_window_spec(bundle_id: Seq<char>) -> bool {
    bundle_id == "com.anthropic.claudefordesktop"@ || bundle_id == "com.tencent.xinWeChat"@
}

/// Whether a target's window must be identified exactly.
pub fn bundle_requires_exact_window(bundle_id: &str) -> (r: bool)
    ensures
        r == requires_exact_window_spec(bundle_id@),
{
    str_eq(bundle_id, "com.anthropic.claudefordesktop") || str_eq(bundle_id, "com.tencent.xinWeChat")
}

/// Whether a captured identity is still current: the same process, and a
/// window where the target requires one.
pub open spec fn identity_current_spec<W>(
    identity: CapturedTargetIdentity<W>,
    current: Option<ProcessLaunchIdentity>,
    launch_identity_required: bool,
) -> bool {
    identity_matches_spec(identity.application, current, launch_identity_required) && (
    !requires_exact_window_spec(identity.application.bundle_id@) || identity.window is Some)
}

/// Whether a captured identity is still current, given the launch time now
/// read for its process.
pub fn captured_target_identity_is_current<W>(
    identity: &CapturedTargetIdentity<W>,
    current: Option<ProcessLaunchIdentity>,
    launch_identity_required: bool,
) -> (r: bool)
    ensures
        r == identity_current_spec(*identity, current, launch_identity_required),
{
    target_application_identity_matches(&identity.application, current, launch_identity_required)
        && (!bundle_requires_exact_window(identity.application.bundle_id.as_str())
        || identity.window.is_some())
}

/// Whether two window identities are the same window: the same owner, role
/// and title fingerprint, and frames that `frames_close` accepts.
pub fn window_identity_matches<W, F>(
    captured: &TargetWindowIdentity<W>,
    current: &TargetWindowIdentity<W>,
    frames_close: F,
) -> (r: bool) where F: FnOnce(&W, &W) -> bool
    requires
        call_requires(frames_close, (&captured.frame, &current.frame)),
    ensures
        r ==> captured.owner_pid == current.owner_pid && opt_text(captured.role) == opt_text(
            current.role,
        ) && opt_text(captured.title_hash) == opt_text(current.title_hash),
        r ==> call_ensures(frames_close, (&captured.frame, &current.frame), true),
        (captured.owner_pid == current.owner_pid && opt_text(captured.role) == opt_text(current.role)
            && opt_text(captured.title_hash) == opt_text(current.title_hash)) ==> call_ensures(
            frames_close,
            (&captured.frame, &current.frame),
            r,
        ),
{
    if captured.owner_pid != current.owner_pid {
        return false;
    }
    if !opt_str_eq(&captured.role, &current.role) || !opt_str_eq(
        &captured.title_hash,
        &current.title_hash,
    ) {
        return false;
    }
    frames_close(&captured.frame, &current.frame)
}

/// The point to click when a target is recovered: the point recorded from its
/// input; else the pointer, when there is a target window and `inside` finds
/// the pointer within it; else the generic fallback.
pub fn choose_recovery_click_point<P: Copy, W, F>(
    recorded: Option<P>,
    pointer: Option<P>,
    window: Option<&W>,
    fallback: Option<P>,
    inside: F,
) -> (r: Option<P>) where F: FnOnce(P, &W) -> bool
    requires
        recorded is None && pointer is Some && window is Some ==> call_requires(
            inside,
            (pointer.unwrap(), window.unwrap()),
        ),
    ensures
        recorded is Some ==> r == recorded,
        recorded is None && (pointer is None || window is None) ==> r == fallback,
        recorded is None && pointer is Some && window is Some ==> exists|b: bool|
            #[trigger] call_ensures(inside, (pointer.unwrap(), window.unwrap()), b) && r == (if b {
                pointer
            } else {
                fallback
            }),
{
    if recorded.is_some() {
        return recorded;
    }
    match (pointer, window) {
        (Some(p), Some(w)) => {
            let b = inside(p, w);
            assert(call_ensures(inside, (pointer.unwrap(), window.unwrap()), b));
            if b {
                pointer
            } else {
                fallback
            }
        },
        _ => fallback,
    }
}

/// The characters of an optional string.
pub open spec fn opt_text(o: Option<String>) -> Option<Seq<char>> {
    match o {
        Some(s) => Some(s@),
        None => None,
    }
}

/// Whether two optional strings hold the same text.
pub fn opt_str_eq(a: &Option<String>, b: &Option<String>) -> (r: bool)
    ensures
        r == (opt_text(*a) == opt_text(*b)),
{
    match (a, b) {
        (Some(x), Some(y)) => str_eq(x.as_str(), y.as_str()),
        (None, None) => true,
        _ => false,
    }
}

/// The outcome when the captured target or its window is gone.
pub fn stale_target_outcome() -> (r: AutosendOutcome)
    ensures
        failed_outcome(
            r,
            false,
            AutosendFailureReason::NoSafeTarget,
            "The captured target app or window is no longer available."@,
        ),
{
    AutosendOutcome::failed(
        false,
        AutosendFailureReason::NoSafeTarget,
        String::from_str("The captured target app or window is no longer available."),
    )
}

/// The target recorded from the last focused input, with its captured
/// identity.
pub struct LastInputTargetState<P, W> {
    target: Option<LastInputTarget<P>>,
    identity: Option<CapturedTargetIdentity<W>>,
}

impl<P: Copy, W: Copy> LastInputTargetState<P, W> {
    /// The recorded target.
    pub closed spec fn target_spec(&self) -> Option<LastInputTarget<P>> {
        self.target
    }

    /// The recorded target's captured identity.
    pub closed spec fn identity_spec(&self) -> Option<CapturedTargetIdentity<W>> {
        self.identity
    }

    /// No target recorded.
    pub fn new() -> (r: Self)
        ensures
            r.target_spec() is None,
            r.identity_spec() is None,
    {
        LastInputTargetState { target: None, identity: None }
    }

    /// Records a target whose identity is not known.
    pub fn set(&mut self, target: LastInputTarget<P>)
        ensures
            final(self).target_spec() == Some(target),
            final(self).identity_spec() is None,
    {
        self.target = Some(target);
        self.identity = None;
    }

    /// Records a target with its captured identity.
    pub fn set_captured(&mut self, target: LastInputTarget<P>, identity: CapturedTargetIdentity<W>)
        ensures
            final(self).target_spec() == Some(target),
            final(self).identity_spec() == Some(identity),
    {
        self.target = Some(target);
        self.identity = Some(identity);
    }

    /// Forgets the recorded target.
    pub fn clear(&mut self)
        ensures
            final(self).target_spec() is None,
            final(self).identity_spec() is None,
    {
        self.target = None;
        self.identity = None;
    }

    /// The recorded target.
    pub fn get(&self) -> (r: Option<LastInputTarget<P>>)
        ensures
            r == self.target_spec(),
    {
        match &self.target {
            Some(t) => Some(t.duplicate()),
            None => None,
        }
    }

    /// The recorded target's captured identity.
    pub fn captured_identity(&self) -> (r: Option<CapturedTargetIdentity<W>>)
        ensures
            r == self.identity_spec(),
    {
        match &self.identity {
            Some(i) => Some(i.duplicate()),
            None => None,
        }
    }
}

/// The bundle of the recorded target, or the error that asks the user to
/// click into a text field first.
pub fn last_target_bundle_id<P: Copy, W: Copy>(state: &LastInputTargetState<P, W>) -> (r: Result<String, String>)
    ensures
        match state.target_spec() {
            Some(t) => r == Ok::<String, String>(t.app.bundle_id),
            None => r matches Err(e) && e@ == "Click into a text field first, then choose a prompt."@,
        },
{
    match state.get() {
        Some(target) => Ok(target.app.bundle_id),
        None => Err(String::from_str("Click into a text field first, then choose a prompt.")),
    }
}

/// The target captured for the current prompt-pick session.
pub struct PromptPickSessionState<P, W> {
    active_session_id: u64,
    target: Option<PromptPickSessionTarget<P>>,
    identity: Option<CapturedTargetIdentity<W>>,
}

impl<P: Copy, W: Copy> PromptPickSessionState<P, W> {
    /// The session now current.
    pub closed spec fn session_spec(&self) -> u64 {
        self.active_session_id
    }

    /// The captured target.
    pub closed spec fn target_spec(&self) -> Option<PromptPickSessionTarget<P>> {
        self.target
    }

    /// The captured target's identity.
    pub closed spec fn identity_spec(&self) -> Option<CapturedTargetIdentity<W>> {
        self.identity
    }

    /// Session 0, nothing captured.
    pub fn new() -> (r: Self)
        ensures
            r.session_spec() == 0,
            r.target_spec() is None,
            r.identity_spec() is None,
    {
        PromptPickSessionState { active_session_id: 0, target: None, identity: None }
    }

    /// Starts a session, dropping whatever was captured.
    pub fn begin(&mut self, session_id: u64)
        ensures
            final(self).session_spec() == session_id,
            final(self).target_spec() is None,
            final(self).identity_spec() is None,
    {
        self.active_session_id = session_id;
        self.target = None;
        self.identity = None;
    }

    /// Starts a session unless it is already the current one, whose capture
    /// is then kept.
    pub fn begin_if_new(&mut self, session_id: u64)
        ensures
            old(self).session_spec() == session_id ==> *final(self) == *old(self),
            old(self).session_spec() != session_id ==> final(self).session_spec() == session_id
                && final(self).target_spec() is None && final(self).identity_spec() is None,
    {
        if self.active_session_id == session_id {
            return;
        }
        self.active_session_id = session_id;
        self.target = None;
        self.identity = None;
    }

    /// Captures a target whose identity is not known.
    pub fn set(&mut self, target: PromptPickSessionTarget<P>)
        ensures
            final(self).session_spec() == old(self).session_spec(),
            final(self).target_spec() == Some(target),
            final(self).identity_spec() is None,
    {
        self.target = Some(target);
        self.identity = None;
    }

    /// Captures a target for `session_id` if that session is still current;
    /// a capture for an older session changes nothing.
    pub fn set_if_current(&mut self, session_id: u64, target: PromptPickSessionTarget<P>) -> (r: bool)
        ensures
            r == (old(self).session_spec() == session_id),
            r ==> final(self).session_spec() == session_id && final(self).target_spec() == Some(target)
                && final(self).identity_spec() is None,
            !r ==> *final(self) == *old(self),
    {
        if self.active_session_id != session_id {
            return false;
        }
        self.target = Some(target);
        self.identity = None;
        true
    }

    /// Captures a target with its identity for `session_id` if that session
    /// is still current.
    pub fn set_captured_if_current(
        &mut self,
        session_id: u64,
        target: PromptPickSessionTarget<P>,
        identity: CapturedTargetIdentity<W>,
    ) -> (r: bool)
        ensures
            r == (old(self).session_spec() == session_id),
            r ==> final(self).session_spec() == session_id && final(self).target_spec() == Some(target)
                && final(self).identity_spec() == Some(identity),
            !r ==> *final(self) == *old(self),
    {
        if self.active_session_id != session_id {
            return false;
        }
        self.target = Some(target);
        self.identity = Some(identity);
        true
    }

    /// Drops what was captured.
    pub fn clear(&mut self)
        ensures
            final(self).session_spec() == old(self).session_spec(),
            final(self).target_spec() is None,
            final(self).identity_spec() is None,
    {
        self.target = None;
        self.identity = None;
    }

    /// Drops what was captured if `session_id` is still current.
    pub fn clear_if_current(&mut self, session_id: u64) -> (r: bool)
        ensures
            r == (old(self).session_spec() == session_id),
            r ==> final(self).session_spec() == session_id && final(self).target_spec() is None
                && final(self).identity_spec() is None,
            !r ==> *final(self) == *old(self),
    {
        if self.active_session_id != session_id {
            return false;
        }
        self.target = None;
        self.identity = None;
        true
    }

    /// The captured target.
    pub fn get(&self) -> (r: Option<PromptPickSessionTarget<P>>)
        ensures
            r == self.target_spec(),
    {
        match &self.target {
            Some(t) => Some(t.duplicate()),
            None => None,
        }
    }

    /// Hands out the captured target, leaving nothing captured.
    pub fn take(&mut self) -> (r: Option<PromptPickSessionTarget<P>>)
        ensures
            r == old(self).target_spec(),
            final(self).session_spec() == old(self).session_spec(),
            final(self).target_spec() is None,
            final(self).identity_spec() is None,
    {
        self.identity = None;
        self.target.take()
    }

    /// Hands out the captured target with its identity, leaving nothing
    /// captured; without a target nothing changes.
    pub fn take_captured(&mut self) -> (r: Option<(PromptPickSessionTarget<P>, Option<CapturedTargetIdentity<W>>)>)
        ensures
            old(self).target_spec() is None ==> r is None && *final(self) == *old(self),
            old(self).target_spec() matches Some(t) ==> r == Some((t, old(self).identity_spec()))
                && final(self).session_spec() == old(self).session_spec()
                && final(self).target_spec() is None && final(self).identity_spec() is None,
    {
        let target = match self.target.take() {
            Some(t) => t,
            None => {
                return None;
            },
        };
        Some((target, self.identity.take()))
    }

    /// The captured target's identity.
    pub fn captured_identity(&self) -> (r: Option<CapturedTargetIdentity<W>>)
        ensures
            r == self.identity_spec(),
    {
        match &self.identity {
            Some(i) => Some(i.duplicate()),
            None => None,
        }
    }
}

/// Records the session target for `session_id` when it is usable; an
/// unusable target clears the session's capture instead. Gives the target's
/// application when the capture was recorded.
pub fn record_prompt_pick_session_target_if_valid<P: Copy, W: Copy>(
    state: &mut PromptPickSessionState<P, W>,
    target: PromptPickSessionTarget<P>,
    identity: CapturedTargetIdentity<W>,
    session_id: u64,
) -> (r: Option<FrontmostApp>)
    ensures
        !is_usable_spec(target.app) ==> r is None,
        !is_usable_spec(target.app) && old(state).session_spec() == session_id ==> final(state).target_spec() is None
            && final(state).identity_spec() is None && final(state).session_spec() == session_id,
        old(state).session_spec() != session_id ==> r is None && *final(state) == *old(state),
        is_usable_spec(target.app) && old(state).session_spec() == session_id ==> r == Some(target.app)
            && final(state).session_spec() == session_id && final(state).target_spec() == Some(target)
            && final(state).identity_spec() == Some(identity),
{
    if !is_usable_autosend_app(&target.app) {
        state.clear_if_current(session_id);
        return None;
    }
    let app = target.app.duplicate();
    if state.set_captured_if_current(session_id, target, identity) {
        Some(app)
    } else {
        None
    }
}

/// The identity to capture for a session target: the recorded identity when
/// it is for the same bundle and pid and its process is unchanged (judged by
/// the launch time `current_of_recent` read for it), else a fresh
/// application identity from the launch time `fresh` read for the target's
/// pid; none without a pid or without a launch time.
pub open spec fn captured_identity_spec<P, W>(
    target: PromptPickSessionTarget<P>,
    recent: Option<CapturedTargetIdentity<W>>,
    current_of_recent: Option<ProcessLaunchIdentity>,
    fresh: Option<ProcessLaunchIdentity>,
    launch_identity_required: bool,
    r: Option<CapturedTargetIdentity<W>>,
) -> bool {
    match target.pid {
        None => r is None,
        Some(pid) => {
            let reuse = recent matches Some(id) && id.application.bundle_id@
                == target.app.bundle_id@ && id.application.main_pid == pid && identity_matches_spec(
                id.application,
                current_of_recent,
                launch_identity_required,
            );
            if reuse {
                r == recent
            } else {
                match fresh {
                    None => r is None,
                    Some(l) => r matches Some(c) && c.application.bundle_id@ == target.app.bundle_id@
                        && c.application.main_pid == pid && c.application.launch_identity == l
                        && c.window is None,
                }
            }
        },
    }
}

/// The identity behind an optional reference.
pub open spec fn deref_identity<W>(o: Option<&CapturedTargetIdentity<W>>) -> Option<CapturedTargetIdentity<W>> {
    match o {
        Some(i) => Some(*i),
        None => None,
    }
}

/// The identity to capture for a session target; `launch_identity_of` reads a
/// process's launch time.
pub fn captured_identity_for_target<P, W: Copy, F>(
    target: &PromptPickSessionTarget<P>,
    recent_identity: Option<&CapturedTargetIdentity<W>>,
    launch_identity_of: &mut F,
    launch_identity_required: bool,
) -> (r: Option<CapturedTargetIdentity<W>>) where F: FnMut(u32) -> Option<ProcessLaunchIdentity>
    requires
        forall|f: F, pid: u32| call_requires(f, (pid,)),
    ensures
        exists|current_of_recent: Option<ProcessLaunchIdentity>, fresh: Option<ProcessLaunchIdentity>|
            #[trigger] captured_identity_spec(
                *target,
                deref_identity(recent_identity),
                current_of_recent,
                fresh,
                launch_identity_required,
                r,
            ),
{
    let ghost recent = deref_identity(recent_identity);
    let pid = match target.pid {
        Some(p) => p,
        None => {
            assert(captured_identity_spec(*target, recent, None, None, launch_identity_required, None));
            return None;
        },
    };
    let mut current_of_recent: Option<ProcessLaunchIdentity> = None;
    if let Some(identity) = recent_identity {
        if str_eq(identity.application.bundle_id.as_str(), target.app.bundle_id.as_str())
            && identity.application.main_pid == pid {
            current_of_recent = launch_identity_of(identity.application.main_pid);
            if target_application_identity_matches(
                &identity.application,
                current_of_recent,
                launch_identity_required,
            ) {
                let r = Some(identity.duplicate());
                assert(captured_identity_spec(
                    *target,
                    recent,
                    current_of_recent,
                    None,
                    launch_identity_required,
                    r,
                ));
                return r;
            }
        }
    }
    let fresh = launch_identity_of(pid);
    let r = match fresh {
        Some(launch_identity) => Some(
            CapturedTargetIdentity {
                application: TargetApplicationIdentity {
                    bundle_id: target.app.bundle_id.clone(),
                    main_pid: pid,
                    launch_identity,
                },
                window: None,
            },
        ),
        None => None,
    };
    assert(captured_identity_spec(
        *target,
        recent,
        current_of_recent,
        fresh,
        launch_identity_required,
        r,
    ));
    r
}

/// What is read of the focused input of the frontmost application: its
/// application, pid, whether the focused element has a usable frame, the
/// point to click in it, and the window frame.
pub struct InputTargetSnapshot<P, W> {
    pub app: Option<FrontmostApp>,
    pub pid: u32,
    pub has_focused_input_frame: bool,
    pub click_point: P,
    pub window_frame: W,
}

/// `launch` is what `launch_identity_of` answered for the input's process,
/// which is asked only for an application that may be recorded; otherwise
/// nothing is read.
pub open spec fn input_launch_read<P, W, F>(
    target: InputTargetSnapshot<P, W>,
    launch_identity_of: F,
    launch: Option<ProcessLaunchIdentity>,
) -> bool where F: FnOnce(u32) -> Option<ProcessLaunchIdentity> {
    match target.app {
        Some(a) => if !is_prompt_picker_spec(a) && !is_unsafe_spec(a) {
            call_ensures(launch_identity_of, (target.pid,), launch)
        } else {
            launch is None
        },
        None => launch is None,
    }
}

/// `launch` is what `launch_identity_of` answered for the frontmost
/// application's process, which is asked only for an application with a pid
/// that may be recorded; otherwise nothing is read.
pub open spec fn app_launch_read<F>(
    frontmost: FrontmostAppWithPid,
    own_pid: u32,
    launch_identity_of: F,
    launch: Option<ProcessLaunchIdentity>,
) -> bool where F: FnOnce(u32) -> Option<ProcessLaunchIdentity> {
    if frontmost.pid == Some(own_pid) || is_prompt_picker_spec(frontmost.app) || is_unsafe_spec(
        frontmost.app,
    ) {
        launch is None
    } else {
        match frontmost.pid {
            Some(pid) => call_ensures(launch_identity_of, (pid,), launch),
            None => launch is None,
        }
    }
}

/// The identity recorded with a focused input: the application's bundle,
/// pid and launch time, and its window with the given frame and the
/// `AXWindow` role.
pub open spec fn input_identity_spec<W>(
    identity: Option<CapturedTargetIdentity<W>>,
    bundle_id: Seq<char>,
    pid: u32,
    launch: Option<ProcessLaunchIdentity>,
    frame: W,
) -> bool {
    match identity {
        None => false,
        Some(id) => id.application.bundle_id@ == bundle_id && id.application.main_pid == pid && Some(
            id.application.launch_identity,
        ) == launch && match id.window {
            None => false,
            Some(w) => w.owner_pid == pid && w.frame == frame && opt_text(w.role) == Some(
                "AXWindow"@,
            ) && w.title_hash is None && w.cg_window_id is None,
        },
    }
}

/// The recorded target after recording a focused input: nothing changes for
/// a missing app or this app; an unsafe app, or one whose launch time cannot
/// be read, clears the record; any other is recorded with its window, and
/// with the input's click point, or, without a usable input frame, the click
/// point of a recent record of the same bundle and pid.
pub open spec fn record_input_spec<P, W>(
    old_target: Option<LastInputTarget<P>>,
    old_identity: Option<CapturedTargetIdentity<W>>,
    snapshot: InputTargetSnapshot<P, W>,
    launch: Option<ProcessLaunchIdentity>,
    now_ms: u128,
    new_target: Option<LastInputTarget<P>>,
    new_identity: Option<CapturedTargetIdentity<W>>,
) -> bool {
    match snapshot.app {
        None => new_target == old_target && new_identity == old_identity,
        Some(app) => if is_prompt_picker_spec(app) {
            new_target == old_target && new_identity == old_identity
        } else if is_unsafe_spec(app) || launch is None {
            new_target is None && new_identity is None
        } else {
            let click_point = if snapshot.has_focused_input_frame {
                Some(snapshot.click_point)
            } else {
                match old_target {
                    Some(t) => if t.app.bundle_id@ == app.bundle_id@ && t.pid == Some(snapshot.pid)
                        && is_recent_spec(t.observed_at_ms, now_ms) {
                        t.click_point
                    } else {
                        None
                    },
                    None => None,
                }
            };
            &&& new_target == Some(
                LastInputTarget {
                    app,
                    pid: Some(snapshot.pid),
                    observed_at_ms: now_ms,
                    click_point,
                },
            )
            &&& input_identity_spec(
                new_identity,
                app.bundle_id@,
                snapshot.pid,
                launch,
                snapshot.window_frame,
            )
        },
    }
}

/// Records the focused input of the frontmost application as the last
/// target; `launch_identity_of` reads a process's launch time.
pub fn record_last_input_target_if_valid<P: Copy, W: Copy, F>(
    state: &mut LastInputTargetState<P, W>,
    target: InputTargetSnapshot<P, W>,
    launch_identity_of: F,
    now_ms: u128,
) where F: FnOnce(u32) -> Option<ProcessLaunchIdentity>
    requires
        call_requires(launch_identity_of, (target.pid,)),
    ensures
        exists|launch: Option<ProcessLaunchIdentity>|
            #[trigger] record_input_spec(
                old(state).target_spec(),
                old(state).identity_spec(),
                target,
                launch,
                now_ms,
                final(state).target_spec(),
                final(state).identity_spec(),
            ) && input_launch_read(target, launch_identity_of, launch),
{
    let ghost snap = target;
    let ghost ot = state.target_spec();
    let ghost oi = state.identity_spec();
    let app = match target.app {
        Some(a) => a,
        None => {
            assert(record_input_spec(ot, oi, snap, None, now_ms, ot, oi));
            return;
        },
    };
    if is_prompt_picker_app(&app) {
        assert(record_input_spec(ot, oi, snap, None, now_ms, ot, oi));
        return;
    }
    if is_unsafe_autosend_target(&app) || !allows_app_only_autosend(&app) {
        state.clear();
        assert(record_input_spec(ot, oi, snap, None, now_ms, None, None));
        return;
    }
    let click_point = if target.has_focused_input_frame {
        Some(target.click_point)
    } else {
        match state.get() {
            Some(recent) => if str_eq(recent.app.bundle_id.as_str(), app.bundle_id.as_str())
                && recent.pid == Some(target.pid) && is_recent_prompt_target(&recent, now_ms) {
                recent.click_point
            } else {
                None
            },
            None => None,
        }
    };
    let launch = launch_identity_of(target.pid);
    assert(input_launch_read(snap, launch_identity_of, launch));
    let launch_identity = match launch {
        Some(l) => l,
        None => {
            state.clear();
            assert(record_input_spec(ot, oi, snap, None, now_ms, None, None));
            return;
        },
    };
    let identity = CapturedTargetIdentity {
        application: TargetApplicationIdentity {
            bundle_id: app.bundle_id.clone(),
            main_pid: target.pid,
            launch_identity,
        },
        window: Some(
            TargetWindowIdentity {
                owner_pid: target.pid,
                frame: target.window_frame,
                role: Some(String::from_str("AXWindow")),
                title_hash: None,
                cg_window_id: None,
            },
        ),
    };
    state.set_captured(
        LastInputTarget { app, pid: Some(target.pid), observed_at_ms: now_ms, click_point },
        identity,
    );
    assert(record_input_spec(
        ot,
        oi,
        snap,
        launch,
        now_ms,
        state.target_spec(),
        state.identity_spec(),
    ));
}

/// The recorded target after recording the frontmost application without a
/// focused input: nothing changes for this app (by pid or by bundle and
/// name); an unsafe app, one without a pid, or one whose launch time cannot
/// be read clears the record; any other is recorded without a click point
/// or window.
pub open spec fn record_app_spec<P, W>(
    old_target: Option<LastInputTarget<P>>,
    old_identity: Option<CapturedTargetIdentity<W>>,
    frontmost: FrontmostAppWithPid,
    own_pid: u32,
    launch: Option<ProcessLaunchIdentity>,
    now_ms: u128,
    new_target: Option<LastInputTarget<P>>,
    new_identity: Option<CapturedTargetIdentity<W>>,
) -> bool {
    if frontmost.pid == Some(own_pid) || is_prompt_picker_spec(frontmost.app) {
        new_target == old_target && new_identity == old_identity
    } else if is_unsafe_spec(frontmost.app) || frontmost.pid is None || launch is None {
        new_target is None && new_identity is None
    } else {
        &&& new_target == Some(
            LastInputTarget::<P> {
                app: frontmost.app,
                pid: frontmost.pid,
                observed_at_ms: now_ms,
                click_point: None,
            },
        )
        &&& new_identity matches Some(id) && id.application.bundle_id@ == frontmost.app.bundle_id@
            && Some(id.application.main_pid) == frontmost.pid && Some(id.application.launch_identity)
            == launch && id.window is None
    }
}

/// Records the frontmost application as the last target when no focused
/// input could be read.
pub fn record_last_app_if_valid<P: Copy, W: Copy, F>(
    state: &mut LastInputTargetState<P, W>,
    target: FrontmostAppWithPid,
    own_pid: u32,
    launch_identity_of: F,
    now_ms: u128,
) where F: FnOnce(u32) -> Option<ProcessLaunchIdentity>
    requires
        forall|pid: u32| call_requires(launch_identity_of, (pid,)),
    ensures
        exists|launch: Option<ProcessLaunchIdentity>|
            #[trigger] record_app_spec(
                old(state).target_spec(),
                old(state).identity_spec(),
                target,
                own_pid,
                launch,
                now_ms,
                final(state).target_spec(),
                final(state).identity_spec(),
            ) && app_launch_read(target, own_pid, launch_identity_of, launch),
{
    let ghost front = target;
    let ghost ot = state.target_spec();
    let ghost oi = state.identity_spec();
    if target.pid == Some(own_pid) || is_prompt_picker_app(&target.app) {
        assert(record_app_spec(ot, oi, front, own_pid, None, now_ms, ot, oi));
        return;
    }
    if is_unsafe_autosend_target(&target.app) || !allows_app_only_autosend(&target.app) {
        state.clear();
        assert(record_app_spec(ot, oi, front, own_pid, None, now_ms, None, None));
        return;
    }
    let pid = match target.pid {
        Some(p) => p,
        None => {
            state.clear();
            assert(record_app_spec(ot, oi, front, own_pid, None, now_ms, None, None));
            return;
        },
    };
    let launch = launch_identity_of(pid);
    assert(app_launch_read(front, own_pid, launch_identity_of, launch));
    let launch_identity = match launch {
        Some(l) => l,
        None => {
            state.clear();
            assert(record_app_spec(ot, oi, front, own_pid, None, now_ms, None, None));
            return;
        },
    };
    let identity = CapturedTargetIdentity {
        application: TargetApplicationIdentity {
            bundle_id: target.app.bundle_id.clone(),
            main_pid: pid,
            launch_identity,
        },
        window: None,
    };
    state.set_captured(
        LastInputTarget { app: target.app, pid: Some(pid), observed_at_ms: now_ms, click_point: None },
        identity,
    );
    assert(record_app_spec(
        ot,
        oi,
        front,
        own_pid,
        launch,
        now_ms,
        state.target_spec(),
        state.identity_spec(),
    ));
}

/// A target to deliver to, with what was captured of its identity.
pub struct CapturedPromptTarget<P, W> {
    pub target: PromptPickSessionTarget<P>,
    pub identity: Option<CapturedTargetIdentity<W>>,
}

/// The target for a delivery: the session's capture, which is taken; else a
/// recent and usable recorded target, observed anew at `now_ms`.
pub open spec fn target_or_recent_spec<P, W>(
    session_target: Option<PromptPickSessionTarget<P>>,
    session_identity: Option<CapturedTargetIdentity<W>>,
    recent: Option<(Option<LastInputTarget<P>>, Option<CapturedTargetIdentity<W>>)>,
    now_ms: u128,
    r: Option<CapturedPromptTarget<P, W>>,
) -> bool {
    match session_target {
        Some(t) => r == Some(CapturedPromptTarget { target: t, identity: session_identity }),
        None => match recent {
            None => r is None,
            Some((None, _)) => r is None,
            Some((Some(t), identity)) => if is_recent_spec(t.observed_at_ms, now_ms) && is_usable_spec(
                t.app,
            ) {
                r == Some(
                    CapturedPromptTarget {
                        target: PromptPickSessionTarget {
                            app: t.app,
                            pid: t.pid,
                            observed_at_ms: now_ms,
                            click_point: t.click_point,
                        },
                        identity,
                    },
                )
            } else {
                r is None
            },
        },
    }
}

/// The recorded target and identity of an optional recorded state.
pub open spec fn recent_view<P: Copy, W: Copy>(
    recent_state: Option<&LastInputTargetState<P, W>>,
) -> Option<(Option<LastInputTarget<P>>, Option<CapturedTargetIdentity<W>>)> {
    match recent_state {
        Some(s) => Some((s.target_spec(), s.identity_spec())),
        None => None,
    }
}

/// Takes the target for a delivery: the session's capture, else a recent
/// recorded target.
pub fn prompt_pick_target_or_recent<P: Copy, W: Copy>(
    session_state: &mut PromptPickSessionState<P, W>,
    recent_state: Option<&LastInputTargetState<P, W>>,
    now_ms: u128,
) -> (r: Option<CapturedPromptTarget<P, W>>)
    ensures
        target_or_recent_spec(
            old(session_state).target_spec(),
            old(session_state).identity_spec(),
            recent_view(recent_state),
            now_ms,
            r,
        ),
        old(session_state).target_spec() is Some ==> final(session_state).target_spec() is None
            && final(session_state).identity_spec() is None && final(session_state).session_spec()
            == old(session_state).session_spec(),
        old(session_state).target_spec() is None ==> *final(session_state) == *old(session_state),
{
    if let Some((target, identity)) = session_state.take_captured() {
        return Some(CapturedPromptTarget { target, identity });
    }
    let recent_state = match recent_state {
        Some(s) => s,
        None => {
            return None;
        },
    };
    let target = match recent_state.get() {
        Some(t) => t,
        None => {
            return None;
        },
    };
    if !is_recent_prompt_target(&target, now_ms) || !is_usable_autosend_app(&target.app) {
        return None;
    }
    Some(
        CapturedPromptTarget {
            target: PromptPickSessionTarget {
                app: target.app,
                pid: target.pid,
                observed_at_ms: now_ms,
                click_point: target.click_point,
            },
            identity: recent_state.captured_identity(),
        },
    )
}

/// The capture of a prompt-pick session's target once the session began:
/// the focused input read at the start (`input_target`) is recorded; the
/// session target comes from the frontmost application read (`frontmost`)
/// and the recorded target; its identity is captured; and the capture is
/// kept only while `session_id` is still the current session. Gives the
/// captured application.
pub fn capture_prompt_pick_session_target<P: Copy, W: Copy, F, G>(
    session_id: u64,
    session_state: &mut PromptPickSessionState<P, W>,
    recent_state: &mut LastInputTargetState<P, W>,
    input_target: Option<InputTargetSnapshot<P, W>>,
    frontmost: Option<FrontmostAppWithPid>,
    launch_identity_of_input: F,
    launch_identity_of: &mut G,
    own_pid: u32,
    launch_identity_required: bool,
    now_ms: u128,
) -> (r: Option<FrontmostApp>) where
    F: FnOnce(u32) -> Option<ProcessLaunchIdentity>,
    G: FnMut(u32) -> Option<ProcessLaunchIdentity>,

    requires
        forall|pid: u32| call_requires(launch_identity_of_input, (pid,)),
        forall|f: G, pid: u32| call_requires(f, (pid,)),
    ensures
        match input_target {
            None => final(recent_state).target_spec() == old(recent_state).target_spec()
                && final(recent_state).identity_spec() == old(recent_state).identity_spec(),
            Some(snapshot) => exists|launch: Option<ProcessLaunchIdentity>|
                #[trigger] record_input_spec(
                    old(recent_state).target_spec(),
                    old(recent_state).identity_spec(),
                    snapshot,
                    launch,
                    now_ms,
                    final(recent_state).target_spec(),
                    final(recent_state).identity_spec(),
                ),
        },
        old(session_state).session_spec() != session_id ==> r is None && *final(session_state) == *old(
            session_state,
        ),
        old(session_state).session_spec() == session_id ==> final(session_state).session_spec() == session_id
            && match session_target_spec(frontmost, final(recent_state).target_spec(), own_pid, now_ms) {
            None => r is None && final(session_state).target_spec() is None
                && final(session_state).identity_spec() is None,
            Some(t) => exists|
                identity: Option<CapturedTargetIdentity<W>>,
                current_of_recent: Option<ProcessLaunchIdentity>,
                fresh: Option<ProcessLaunchIdentity>,
            |
                #[trigger] captured_identity_spec(
                    t,
                    final(recent_state).identity_spec(),
                    current_of_recent,
                    fresh,
                    launch_identity_required,
                    identity,
                ) && match identity {
                    Some(id) => if is_usable_spec(t.app) {
                        r == Some(t.app) && final(session_state).target_spec() == Some(t)
                            && final(session_state).identity_spec() == Some(id)
                    } else {
                        r is None && final(session_state).target_spec() is None
                            && final(session_state).identity_spec() is None
                    },
                    None => r is None && final(session_state).target_spec() is None
                        && final(session_state).identity_spec() is None,
                },
        },
{
    match input_target {
        Some(snapshot) => record_last_input_target_if_valid(recent_state, snapshot, launch_identity_of_input, now_ms),
        None => {},
    }
    let recent_identity = recent_state.captured_identity();
    let target = match prompt_pick_session_target(frontmost, recent_state.get(), own_pid, now_ms) {
        Some(t) => t,
        None => {
            session_state.clear_if_current(session_id);
            return None;
        },
    };
    let identity = match captured_identity_for_target(
        &target,
        recent_identity.as_ref(),
        launch_identity_of,
        launch_identity_required,
    ) {
        Some(i) => i,
        None => {
            session_state.clear_if_current(session_id);
            return None;
        },
    };
    record_prompt_pick_session_target_if_valid(session_state, target, identity, session_id)
}

/// Records the target of the current input: the focused input when one was
/// read (`input_target`), else the frontmost application, read only then
/// (`frontmost`). Tells whether a focused input was read.
pub fn record_current_input_target<P: Copy, W: Copy, R, F, G>(
    state: &mut LastInputTargetState<P, W>,
    input_target: Option<InputTargetSnapshot<P, W>>,
    frontmost: R,
    own_pid: u32,
    launch_identity_of_input: F,
    launch_identity_of_app: G,
    now_ms: u128,
) -> (r: bool) where
    R: FnOnce() -> Option<FrontmostAppWithPid>,
    F: FnOnce(u32) -> Option<ProcessLaunchIdentity>,
    G: FnOnce(u32) -> Option<ProcessLaunchIdentity>,

    requires
        call_requires(frontmost, ()),
        forall|pid: u32| call_requires(launch_identity_of_input, (pid,)),
        forall|pid: u32| call_requires(launch_identity_of_app, (pid,)),
    ensures
        r == input_target is Some,
        match input_target {
            Some(snapshot) => exists|launch: Option<ProcessLaunchIdentity>|
                #[trigger] record_input_spec(
                    old(state).target_spec(),
                    old(state).identity_spec(),
                    snapshot,
                    launch,
                    now_ms,
                    final(state).target_spec(),
                    final(state).identity_spec(),
                ),
            None => exists|front: Option<FrontmostAppWithPid>|
                #[trigger] call_ensures(frontmost, (), front) && match front {
                    Some(app) => exists|launch: Option<ProcessLaunchIdentity>|
                        #[trigger] record_app_spec(
                            old(state).target_spec(),
                            old(state).identity_spec(),
                            app,
                            own_pid,
                            launch,
                            now_ms,
                            final(state).target_spec(),
                            final(state).identity_spec(),
                        ),
                    None => final(state).target_spec() == old(state).target_spec()
                        && final(state).identity_spec() == old(state).identity_spec(),
                },
        },
{
    match input_target {
        Some(snapshot) => {
            record_last_input_target_if_valid(state, snapshot, launch_identity_of_input, now_ms);
            true
        },
        None => {
            let front = frontmost();
            let ghost fg = front;
            match front {
                Some(app) => record_last_app_if_valid(state, app, own_pid, launch_identity_of_app, now_ms),
                None => {},
            }
            assert(call_ensures(frontmost, (), fg));
            false
        },
    }
}

} // verus!
