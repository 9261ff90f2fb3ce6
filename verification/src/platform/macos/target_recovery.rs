//! Bringing a captured target back before a delivery: waiting until the very
//! process that was captured is in front, checking that its window is the
//! captured one, and focusing its composer as its focus policy asks.
use super::delivery::{focus_policy_for, input_focus_policy, InputFocusPolicy};
use super::lsappinfo::FrontmostAppInfo;
use super::scripts::{autosend_error_spec, format_autosend_error};
use super::ProcessLaunchIdentity;
use crate::text::{push_str, str_eq};
use vstd::prelude::*;
use vstd::string::StringExecFns;

verus! {

/// Whether the front application is of the captured bundle and pid.
pub open spec fn same_process_spec(info: Option<FrontmostAppInfo>, bundle_id: Seq<char>, target_pid: u32) -> bool {
    info matches Some(i) && i.app.bundle_id@ == bundle_id && i.pid == target_pid
}

/// The application record behind an optional reference.
pub open spec fn deref_info(info: Option<&FrontmostAppInfo>) -> Option<FrontmostAppInfo> {
    match info {
        Some(i) => Some(*i),
        None => None,
    }
}

/// Whether the front application is the captured process: the same bundle
/// and pid, and a launch time equal to the captured one; `launch_of` reads a
/// process's launch time and is asked only for a front application of the
/// right bundle and pid.
pub fn frontmost_target_matches<L>(
    info: Option<&FrontmostAppInfo>,
    bundle_id: &str,
    target_pid: u32,
    launch_of: L,
    launch_identity: ProcessLaunchIdentity,
) -> (r: bool) where L: FnOnce(u32) -> Option<ProcessLaunchIdentity>
    requires
        call_requires(launch_of, (target_pid,)),
    ensures
        !same_process_spec(deref_info(info), bundle_id@, target_pid) ==> !r,
        same_process_spec(deref_info(info), bundle_id@, target_pid) ==> exists|
            launch: Option<ProcessLaunchIdentity>,
        | #[trigger] call_ensures(launch_of, (target_pid,), launch) && r == (launch == Some(launch_identity)),
{
    match info {
        Some(i) => {
            if !str_eq(i.app.bundle_id.as_str(), bundle_id) || i.pid != target_pid {
                return false;
            }
            let launch = launch_of(target_pid);
            let ghost lg = launch;
            let r = match launch {
                Some(l) => l == launch_identity,
                None => false,
            };
            assert(call_ensures(launch_of, (target_pid,), lg));
            r
        },
        None => false,
    }
}

/// The pause between two looks at the front application while waiting.
pub const FRONTMOST_POLL_MS: u64 = 50;

/// Waits until `matches` sees the target in front, looking every 50 ms until
/// `timeout_ms` have passed on the clock `now_ms`, and once more at the end.
/// Since every pause lasts at least 50 ms, no more than `timeout_ms / 50 + 1`
/// pauses fit in the wait; the loop stops there at the latest.
pub fn wait_for_frontmost_target<M, N, Z>(matches: &M, now_ms: &N, sleeper: &Z, timeout_ms: u64) -> (r: bool) where
    M: Fn() -> bool,
    N: Fn() -> u64,
    Z: Fn(u64),

    requires
        call_requires(*matches, ()),
        call_requires(*now_ms, ()),
        call_requires(*sleeper, (FRONTMOST_POLL_MS,)),
    ensures
        r ==> call_ensures(*matches, (), true),
        !r ==> call_ensures(*matches, (), false),
{
    let start = now_ms();
    let deadline = start.saturating_add(timeout_ms);
    let mut pauses_left: u64 = timeout_ms / FRONTMOST_POLL_MS + 1;
    while pauses_left > 0
        invariant
            call_requires(*matches, ()),
            call_requires(*now_ms, ()),
            call_requires(*sleeper, (FRONTMOST_POLL_MS,)),
        decreases pauses_left,
    {
        if now_ms() >= deadline {
            break;
        }
        if matches() {
            return true;
        }
        sleeper(FRONTMOST_POLL_MS);
        pauses_left = pauses_left - 1;
    }
    matches()
}

/// What was read of the target's focused window.
pub enum WindowRead<W> {
    /// The accessibility element of the application could not be made.
    NoElement,
    /// The application exposes no focused window with a frame.
    NoWindow,
    /// The focused window's frame.
    Frame(W),
}

/// The check of the captured window: none for a target that keeps its own
/// first responder; for any other the captured window must exist and the
/// focused window's frame (`read`) must match it (`same`).
pub open spec fn window_check_spec<W>(
    policy: InputFocusPolicy,
    captured_window: Option<W>,
    read: Option<WindowRead<W>>,
    same: bool,
    r: Result<(), String>,
) -> bool {
    if policy == InputFocusPolicy::PreserveApplicationFirstResponder {
        r is Ok
    } else {
        match captured_window {
            None => r matches Err(e) && e@ == "The captured target window is no longer available."@,
            Some(_) => match read {
                Some(WindowRead::NoElement) => r matches Err(e) && e@
                    == "Could not create the target accessibility element."@,
                Some(WindowRead::NoWindow) => r matches Err(e) && e@
                    == "The target app does not expose its focused window."@,
                Some(WindowRead::Frame(_)) => if same {
                    r is Ok
                } else {
                    r matches Err(e) && e@ == "The target window changed before prompt delivery."@
                },
                None => false,
            },
        }
    }
}

/// The captured window behind an optional reference.
pub open spec fn deref_window<W>(w: Option<&W>) -> Option<W> {
    match w {
        Some(x) => Some(*x),
        None => None,
    }
}

/// Whether `r` is an outcome of the window check for some read of the
/// focused window that `read_window` may give and some answer of
/// `frames_match` on the captured frame and the frame read.
pub open spec fn window_check_possible<W, R, M>(
    policy: InputFocusPolicy,
    pid: u32,
    captured_window: Option<&W>,
    read_window: R,
    frames_match: M,
    r: Result<(), String>,
) -> bool where R: FnOnce(u32) -> WindowRead<W>, M: FnOnce(&W, &W) -> bool {
    exists|read: Option<WindowRead<W>>, same: bool|
        (read matches Some(w) ==> call_ensures(read_window, (pid,), w)) && (read matches Some(
            WindowRead::Frame(f),
        ) ==> exists|c: &W, g: &W|
            *c == deref_window(captured_window).unwrap() && *g == f && #[trigger] call_ensures(
                frames_match,
                (c, g),
                same,
            )) && #[trigger] window_check_spec(policy, deref_window(captured_window), read, same, r)
}

/// Checks that the target's focused window is still the captured one, where
/// the target's focus policy needs it; `read_window` reads the focused
/// window of the process and `frames_match` compares two frames.
pub fn verify_captured_window_for_policy<W, R, M>(
    policy: InputFocusPolicy,
    pid: u32,
    captured_window: Option<&W>,
    read_window: R,
    frames_match: M,
) -> (r: Result<(), String>) where
    R: FnOnce(u32) -> WindowRead<W>,
    M: FnOnce(&W, &W) -> bool,

    requires
        call_requires(read_window, (pid,)),
        forall|a: &W, b: &W| call_requires(frames_match, (a, b)),
    ensures
        window_check_possible(policy, pid, captured_window, read_window, frames_match, r),
{
    if policy == InputFocusPolicy::PreserveApplicationFirstResponder {
        let r = Ok(());
        assert(window_check_spec(policy, deref_window(captured_window), None::<WindowRead<W>>, true, r));
        return r;
    }
    let captured = match captured_window {
        Some(w) => w,
        None => {
            let r = Err(String::from_str("The captured target window is no longer available."));
            assert(window_check_spec(policy, deref_window(captured_window), None::<WindowRead<W>>, true, r));
            return r;
        },
    };
    let read = read_window(pid);
    let ghost rg = read;
    let r = match read {
        WindowRead::NoElement => Err(String::from_str("Could not create the target accessibility element.")),
        WindowRead::NoWindow => Err(String::from_str("The target app does not expose its focused window.")),
        WindowRead::Frame(current) => {
            let same = frames_match(captured, &current);
            let r = if same {
                Ok(())
            } else {
                Err(String::from_str("The target window changed before prompt delivery."))
            };
            assert(call_ensures(frames_match, (captured, &current), same));
            assert(window_check_spec(policy, deref_window(captured_window), Some(rg), same, r));
            return r;
        },
    };
    assert(window_check_spec(policy, deref_window(captured_window), Some(rg), true, r));
    r
}

/// The verdict on a target before the keystrokes of a delivery: it is the
/// captured process (`same`, with the launch time read `launch`), its window
/// check passed (`window`), and, unless it keeps its own first responder,
/// the composer focused at recovery (`expected`) is still the focused one
/// (`found`).
pub open spec fn target_focus_verdict<Fp>(
    same: bool,
    launch: Option<ProcessLaunchIdentity>,
    launch_identity: ProcessLaunchIdentity,
    window: Result<(), String>,
    policy: InputFocusPolicy,
    expected: Option<Fp>,
    found: bool,
) -> bool {
    &&& same
    &&& launch == Some(launch_identity)
    &&& window is Ok
    &&& (policy == InputFocusPolicy::PreserveApplicationFirstResponder || (expected is Some && found))
}

/// The composer behind an optional reference.
pub open spec fn deref_composer<Fp>(c: Option<&Fp>) -> Option<Fp> {
    match c {
        Some(x) => Some(*x),
        None => None,
    }
}

/// Whether `r` is the verdict on the target for reads that the
/// closures may give: the launch time `launch` read for the front process
/// when it is of the captured bundle and pid, the window check outcome
/// `window` when the launch time matched, and the composer answer `found`
/// when the check passed for a target with a resolved composer.
pub open spec fn target_focus_possible<W, Fp, L, R, M, G>(
    info: Option<&FrontmostAppInfo>,
    bundle_id: Seq<char>,
    target_pid: u32,
    launch_identity: ProcessLaunchIdentity,
    launch_of: L,
    captured_window: Option<&W>,
    read_window: R,
    frames_match: M,
    expected_composer: Option<&Fp>,
    composer_still_focused: G,
    launch: Option<ProcessLaunchIdentity>,
    window: Result<(), String>,
    found: bool,
    r: bool,
) -> bool where
    L: FnOnce(u32) -> Option<ProcessLaunchIdentity>,
    R: FnOnce(u32) -> WindowRead<W>,
    M: FnOnce(&W, &W) -> bool,
    G: FnOnce(&Fp) -> bool,
 {
    let same = same_process_spec(deref_info(info), bundle_id, target_pid);
    let policy = focus_policy_for(bundle_id);
    &&& (same ==> call_ensures(launch_of, (target_pid,), launch))
    &&& (same && launch == Some(launch_identity) ==> window_check_possible(
        policy,
        target_pid,
        captured_window,
        read_window,
        frames_match,
        window,
    ))
    &&& (same && launch == Some(launch_identity) && window is Ok && policy
        != InputFocusPolicy::PreserveApplicationFirstResponder && expected_composer is Some
        ==> call_ensures(composer_still_focused, (expected_composer.unwrap(),), found))
    &&& r == target_focus_verdict(
        same,
        launch,
        launch_identity,
        window,
        policy,
        deref_composer(expected_composer),
        found,
    )
}

/// Whether the target is still ready for the keystrokes of a delivery: the
/// front application (`info`) is the captured process, checked by pid,
/// bundle and launch time (`launch_of`); its window is still the captured
/// one where its focus policy needs that (`read_window`, `frames_match`);
/// and, for a target whose composer was resolved, that composer is still
/// focused (`composer_still_focused`). Each read is made only when the
/// checks before it passed.
pub fn verify_target_focus_for_autosend<W, Fp, L, R, M, G>(
    info: Option<&FrontmostAppInfo>,
    bundle_id: &str,
    target_pid: u32,
    launch_identity: ProcessLaunchIdentity,
    launch_of: L,
    captured_window: Option<&W>,
    read_window: R,
    frames_match: M,
    expected_composer: Option<&Fp>,
    composer_still_focused: G,
) -> (r: bool) where
    L: FnOnce(u32) -> Option<ProcessLaunchIdentity>,
    R: FnOnce(u32) -> WindowRead<W>,
    M: FnOnce(&W, &W) -> bool,
    G: FnOnce(&Fp) -> bool,

    requires
        call_requires(launch_of, (target_pid,)),
        call_requires(read_window, (target_pid,)),
        forall|a: &W, b: &W| call_requires(frames_match, (a, b)),
        forall|c: &Fp| call_requires(composer_still_focused, (c,)),
    ensures
        exists|launch: Option<ProcessLaunchIdentity>, window: Result<(), String>, found: bool|
            #[trigger] target_focus_possible(
                info,
                bundle_id@,
                target_pid,
                launch_identity,
                launch_of,
                captured_window,
                read_window,
                frames_match,
                expected_composer,
                composer_still_focused,
                launch,
                window,
                found,
                r,
            ),
{
    let ghost ok_window: Result<(), String> = Ok(());
    let i = match info {
        Some(i) => i,
        None => {
            assert(target_focus_possible(info, bundle_id@, target_pid, launch_identity, launch_of, captured_window, read_window, frames_match, expected_composer, composer_still_focused, None, ok_window, false, false));
            return false;
        },
    };
    if !str_eq(i.app.bundle_id.as_str(), bundle_id) || i.pid != target_pid {
        assert(target_focus_possible(info, bundle_id@, target_pid, launch_identity, launch_of, captured_window, read_window, frames_match, expected_composer, composer_still_focused, None, ok_window, false, false));
        return false;
    }
    let launch = launch_of(target_pid);
    let matched = match launch {
        Some(l) => l == launch_identity,
        None => false,
    };
    if !matched {
        assert(target_focus_possible(info, bundle_id@, target_pid, launch_identity, launch_of, captured_window, read_window, frames_match, expected_composer, composer_still_focused, launch, ok_window, false, false));
        return false;
    }
    let policy = input_focus_policy(bundle_id);
    let window = verify_captured_window_for_policy(policy, target_pid, captured_window, read_window, frames_match);
    if window.is_err() {
        assert(target_focus_possible(info, bundle_id@, target_pid, launch_identity, launch_of, captured_window, read_window, frames_match, expected_composer, composer_still_focused, launch, window, false, false));
        return false;
    }
    match policy {
        InputFocusPolicy::PreserveApplicationFirstResponder => {
            assert(target_focus_possible(info, bundle_id@, target_pid, launch_identity, launch_of, captured_window, read_window, frames_match, expected_composer, composer_still_focused, launch, window, false, true));
            true
        },
        InputFocusPolicy::ResolveEditableElement => {
            let expected = match expected_composer {
                Some(c) => c,
                None => {
                    assert(target_focus_possible(info, bundle_id@, target_pid, launch_identity, launch_of, captured_window, read_window, frames_match, expected_composer, composer_still_focused, launch, window, false, false));
                    return false;
                },
            };
            let found = composer_still_focused(expected);
            assert(target_focus_possible(info, bundle_id@, target_pid, launch_identity, launch_of, captured_window, read_window, frames_match, expected_composer, composer_still_focused, launch, window, found, found));
            found
        },
    }
}

/// The pause after the target came to the front before it is checked again.
pub const ACTIVATION_SETTLE_MS: u64 = 160;

/// The text `prefix` followed by `bundle_id`.
fn message_with(prefix: &str, bundle_id: &str) -> (r: String)
    ensures
        r@ == prefix@ + bundle_id@,
{
    let mut s = String::from_str(prefix);
    push_str(&mut s, bundle_id);
    s
}

/// How focusing the composer ends, once the target is in front with its
/// captured window: a target that keeps its first responder is clicked at
/// the recorded point, if any (`click`); any other has its editable composer
/// in the captured window focused (`focus`), which must find one.
pub open spec fn composer_focus_spec<Fp>(
    policy: InputFocusPolicy,
    has_click_point: bool,
    click: Result<(), String>,
    focus: Result<Option<Fp>, String>,
    r: Result<Option<Fp>, String>,
) -> bool {
    if policy == InputFocusPolicy::PreserveApplicationFirstResponder {
        if has_click_point {
            match click {
                Ok(()) => r == Ok::<Option<Fp>, String>(None),
                Err(e) => r matches Err(m) && m@ == autosend_error_spec("click-input-target"@, e@),
            }
        } else {
            r == Ok::<Option<Fp>, String>(None)
        }
    } else {
        match focus {
            Err(e) => r == Err::<Option<Fp>, String>(e),
            Ok(None) => r matches Err(m) && m@
                == "No unambiguous editable composer was found in the captured window."@,
            Ok(Some(fp)) => r == Ok::<Option<Fp>, String>(Some(fp)),
        }
    }
}

/// The steps after the target is back in front: the window check
/// (`window`, from the read `read` and comparison `same`), then, when it
/// passed, the click (`click`) or composer focus (`focus`) of the target's
/// policy.
pub open spec fn recovery_step_spec<P, W, Fp, R, C, E>(
    bundle_id: &str,
    target_pid: u32,
    click_point: Option<P>,
    captured_window: Option<&W>,
    read_window: R,
    click_target: C,
    focus_editable: E,
    read: Option<WindowRead<W>>,
    same: bool,
    window: Result<(), String>,
    click: Result<(), String>,
    focus: Result<Option<Fp>, String>,
    r: Result<Option<Fp>, String>,
) -> bool where
    R: FnOnce(u32) -> WindowRead<W>,
    C: FnOnce(P) -> Result<(), String>,
    E: FnOnce(u32, &str, &W) -> Result<Option<Fp>, String>,
 {
    &&& (read matches Some(w) ==> call_ensures(read_window, (target_pid,), w))
    &&& window_check_spec(focus_policy_for(bundle_id@), deref_window(captured_window), read, same, window)
    &&& match window {
        Err(e) => r == Err::<Option<Fp>, String>(e),
        Ok(()) => (focus_policy_for(bundle_id@) == InputFocusPolicy::PreserveApplicationFirstResponder
            ==> (click_point matches Some(p) ==> call_ensures(click_target, (p,), click))) && (
        focus_policy_for(bundle_id@) == InputFocusPolicy::ResolveEditableElement ==> exists|w: &W|
            Some(*w) == deref_window(captured_window) && #[trigger] call_ensures(
                focus_editable,
                (target_pid, bundle_id, w),
                focus,
            )) && composer_focus_spec(focus_policy_for(bundle_id@), click_point is Some, click, focus, r),
    }
}

/// The existence of the steps after the target is back in front, from one
/// choice of them.
proof fn lemma_recovery_step<P, W, Fp, R, C, E>(
    bundle_id: &str,
    target_pid: u32,
    click_point: Option<P>,
    captured_window: Option<&W>,
    read_window: R,
    click_target: C,
    focus_editable: E,
    read: Option<WindowRead<W>>,
    same: bool,
    window: Result<(), String>,
    click: Result<(), String>,
    focus: Result<Option<Fp>, String>,
    r: Result<Option<Fp>, String>,
) where
    R: FnOnce(u32) -> WindowRead<W>,
    C: FnOnce(P) -> Result<(), String>,
    E: FnOnce(u32, &str, &W) -> Result<Option<Fp>, String>,

    requires
        recovery_step_spec(bundle_id, target_pid, click_point, captured_window, read_window, click_target,
            focus_editable, read, same, window, click, focus, r),
    ensures
        exists|read: Option<WindowRead<W>>, same: bool, window: Result<(), String>, click: Result<(), String>, focus: Result<Option<Fp>, String>|
            #[trigger] recovery_step_spec(bundle_id, target_pid, click_point, captured_window, read_window,
                click_target, focus_editable, read, same, window, click, focus, r),
{
}

/// Recovers the target after it was activated: waits for it to be in front
/// (`wait_frontmost`), pauses 160 ms, checks that the front application is
/// still the target's process, checks its window where its policy needs it,
/// and focuses its composer as its policy asks; the first step that fails
/// gives the error.
pub fn recover_target_after_activation<P, W, Fp, A, Z, I, R, M, C, E>(
    bundle_id: &str,
    target_pid: u32,
    click_point: Option<P>,
    captured_window: Option<&W>,
    wait_frontmost: A,
    sleeper: Z,
    frontmost_info: I,
    read_window: R,
    frames_match: M,
    click_target: C,
    focus_editable: E,
) -> (r: Result<Option<Fp>, String>) where
    A: FnOnce() -> bool,
    Z: FnOnce(u64),
    I: FnOnce() -> Option<FrontmostAppInfo>,
    R: FnOnce(u32) -> WindowRead<W>,
    M: FnOnce(&W, &W) -> bool,
    C: FnOnce(P) -> Result<(), String>,
    E: FnOnce(u32, &str, &W) -> Result<Option<Fp>, String>,

    requires
        call_requires(wait_frontmost, ()),
        call_requires(sleeper, (ACTIVATION_SETTLE_MS,)),
        call_requires(frontmost_info, ()),
        call_requires(read_window, (target_pid,)),
        forall|a: &W, b: &W| call_requires(frames_match, (a, b)),
        forall|p: P| call_requires(click_target, (p,)),
        forall|w: &W| call_requires(focus_editable, (target_pid, bundle_id, w)),
    ensures
        exists|waited: bool|
            #[trigger] call_ensures(wait_frontmost, (), waited) && if !waited {
                r matches Err(m) && m@ == "Target app did not become frontmost: "@ + bundle_id@
            } else {
                exists|info: Option<FrontmostAppInfo>|
                    #[trigger] call_ensures(frontmost_info, (), info) && if !same_process_spec(
                        info,
                        bundle_id@,
                        target_pid,
                    ) {
                        r matches Err(m) && m@ == "Target app is not frontmost after activation: "@
                            + bundle_id@
                    } else {
                        exists|
                            read: Option<WindowRead<W>>,
                            same: bool,
                            window: Result<(), String>,
                            click: Result<(), String>,
                            focus: Result<Option<Fp>, String>,
                        |
                            #[trigger] recovery_step_spec(
                                bundle_id,
                                target_pid,
                                click_point,
                                captured_window,
                                read_window,
                                click_target,
                                focus_editable,
                                read,
                                same,
                                window,
                                click,
                                focus,
                                r,
                            )
                    }
            },
{
    let waited = wait_frontmost();
    if !waited {
        return Err(message_with("Target app did not become frontmost: ", bundle_id));
    }
    sleeper(ACTIVATION_SETTLE_MS);
    let info = frontmost_info();
    let same_process = match &info {
        Some(i) => str_eq(i.app.bundle_id.as_str(), bundle_id) && i.pid == target_pid,
        None => false,
    };
    if !same_process {
        return Err(message_with("Target app is not frontmost after activation: ", bundle_id));
    }
    let policy = input_focus_policy(bundle_id);
    let window = verify_captured_window_for_policy(policy, target_pid, captured_window, read_window, frames_match);
    let ghost wg = window;
    let ghost (rd, sm) = choose|read: Option<WindowRead<W>>, same: bool|
        (read matches Some(w) ==> call_ensures(read_window, (target_pid,), w)) && #[trigger] window_check_spec(
            policy,
            deref_window(captured_window),
            read,
            same,
            wg,
        );
    if let Err(e) = window {
        let r = Err(e);
        proof {
            lemma_recovery_step(bundle_id, target_pid, click_point, captured_window, read_window, click_target,
                focus_editable, rd, sm, wg, Ok::<(), String>(()), Ok::<Option<Fp>, String>(None), r);
        }
        return r;
    }
    match policy {
        InputFocusPolicy::PreserveApplicationFirstResponder => {
            match click_point {
                Some(p) => {
                    let c = click_target(p);
                    let ghost cg = c;
                    let r = match c {
                        Ok(()) => Ok(None),
                        Err(e) => Err(format_autosend_error("click-input-target", e.as_str())),
                    };
                    assert(call_ensures(click_target, (p,), cg));
                    proof {
                        lemma_recovery_step(bundle_id, target_pid, click_point, captured_window, read_window,
                            click_target, focus_editable, rd, sm, wg, cg, Ok::<Option<Fp>, String>(None), r);
                    }
                    r
                },
                None => {
                    let r = Ok(None);
                    proof {
                        lemma_recovery_step(bundle_id, target_pid, click_point, captured_window, read_window,
                            click_target, focus_editable, rd, sm, wg, Ok::<(), String>(()),
                            Ok::<Option<Fp>, String>(None), r);
                    }
                    r
                },
            }
        },
        InputFocusPolicy::ResolveEditableElement => {
            let w = match captured_window {
                Some(w) => w,
                None => {
                    return Err(String::from_str("The captured target window is no longer available."));
                },
            };
            let f = focus_editable(target_pid, bundle_id, w);
            let ghost fg = f;
            let r = match f {
                Err(e) => Err(e),
                Ok(None) => Err(String::from_str("No unambiguous editable composer was found in the captured window.")),
                Ok(Some(fp)) => Ok(Some(fp)),
            };
            assert(call_ensures(focus_editable, (target_pid, bundle_id, w), fg));
            proof {
                lemma_recovery_step(bundle_id, target_pid, click_point, captured_window, read_window,
                    click_target, focus_editable, rd, sm, wg, Ok::<(), String>(()), fg, r);
            }
            r
        },
    }
}

} // verus!
