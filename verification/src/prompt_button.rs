//! The floating prompt button's state: which renderer instance is current
//! and ready, whether the user wants the button visible, what a periodic
//! check does to a missing or hidden button, and how a terminated renderer
//! is recovered.
use crate::settings::{floating_button_visible, json_bool_at};
use crate::text::{decimal, push_decimal, push_str, str_eq};
use crate::windows::BUTTON_WINDOW_LABEL;
use vstd::prelude::*;
use vstd::string::StringExecFns;

verus! {

/// What a renderer's readiness change asks for.
#[derive(Clone, Copy, Debug, PartialEq, Eq, Structural)]
pub enum PromptButtonRendererAction {
    Ignore,
    HideCurrent,
    ShowCurrent,
}

impl PromptButtonRendererAction {
    /// The action's name, as the renderer receives it.
    pub fn as_str(self) -> (r: &'static str)
        ensures
            r@ == match self {
                PromptButtonRendererAction::Ignore => "ignore"@,
                PromptButtonRendererAction::HideCurrent => "hideCurrent"@,
                PromptButtonRendererAction::ShowCurrent => "showCurrent"@,
            },
    {
        match self {
            PromptButtonRendererAction::Ignore => "ignore",
            PromptButtonRendererAction::HideCurrent => "hideCurrent",
            PromptButtonRendererAction::ShowCurrent => "showCurrent",
        }
    }
}

/// An accepted readiness change and the action it asks for, taken when the
/// visibility had `visibility_generation`.
#[derive(Clone, Copy, Debug, PartialEq, Eq, Structural)]
pub struct PromptButtonRendererSnapshot {
    pub instance_id: u64,
    pub transition_id: u64,
    pub ready: bool,
    pub visibility_generation: u64,
    pub action: PromptButtonRendererAction,
}

/// Whether the user wants the button visible, with a generation counter that
/// every change advances.
pub struct PromptButtonVisibilityState {
    pub desired_visible: bool,
    pub generation: u64,
}

/// `g` advanced by one, wrapping.
pub open spec fn next_generation(g: u64) -> u64 {
    if g == u64::MAX {
        0
    } else {
        (g + 1) as u64
    }
}

impl PromptButtonVisibilityState {
    /// The given visibility at generation 0.
    pub fn new(visible: bool) -> (r: Self)
        ensures
            r.desired_visible == visible,
            r.generation == 0,
    {
        PromptButtonVisibilityState { desired_visible: visible, generation: 0 }
    }

    /// The visibility the settings ask for, visible when they do not say.
    pub fn from_settings(settings_text: Option<&str>) -> (r: Self)
        ensures
            r.desired_visible == match settings_text {
                Some(text) => json_bool_at(text@, "/floatingButton/visible"@) != Some(false),
                None => true,
            },
            r.generation == 0,
    {
        Self::new(floating_button_visible(settings_text))
    }

    /// Whether the user wants the button visible.
    pub fn desired_visible(&self) -> (r: bool)
        ensures
            r == self.desired_visible,
    {
        self.desired_visible
    }

    /// The current generation.
    pub fn generation(&self) -> (r: u64)
        ensures
            r == self.generation,
    {
        self.generation
    }

    /// Records the user's choice and advances the generation, which it
    /// returns.
    pub fn set(&mut self, visible: bool) -> (r: u64)
        ensures
            final(self).desired_visible == visible,
            final(self).generation == next_generation(old(self).generation),
            r == final(self).generation,
    {
        self.desired_visible = visible;
        self.generation = self.generation.wrapping_add(1);
        self.generation
    }

    /// A show requested at `requested_generation` may happen only while the
    /// button is wanted and nothing has changed since.
    pub fn may_show(&self, requested_generation: u64) -> (r: bool)
        ensures
            r == (self.desired_visible && self.generation == requested_generation),
    {
        self.desired_visible && self.generation == requested_generation
    }
}

/// Which renderer instance of the button is current, its last accepted
/// transition, and whether it is ready.
pub struct PromptButtonRendererState {
    next_instance_id: u64,
    current_instance_id: u64,
    last_transition_id: u64,
    ready: bool,
    resume_requested: bool,
}

impl PromptButtonRendererState {
    /// The current instance, its last transition and readiness.
    pub closed spec fn current_spec(&self) -> (u64, u64, bool) {
        (self.current_instance_id, self.last_transition_id, self.ready)
    }

    /// The id the next allocation starts from.
    pub closed spec fn next_spec(&self) -> u64 {
        self.next_instance_id
    }

    /// Whether a resume was requested for the current instance.
    pub closed spec fn resume_requested_spec(&self) -> bool {
        self.resume_requested
    }

    /// No instance yet.
    pub fn new() -> (r: Self)
        ensures
            r.current_spec() == (0u64, 0u64, false),
            r.next_spec() == 0,
            !r.resume_requested_spec(),
    {
        PromptButtonRendererState {
            next_instance_id: 0,
            current_instance_id: 0,
            last_transition_id: 0,
            ready: false,
            resume_requested: false,
        }
    }

    /// Makes a new, non-zero instance current and not ready, with no
    /// transition yet.
    pub fn allocate_instance(&mut self) -> (r: u64)
        ensures
            r != 0,
            r == (if old(self).next_spec() == u64::MAX {
                1u64
            } else {
                (old(self).next_spec() + 1) as u64
            }),
            r == final(self).next_spec(),
            final(self).current_spec() == (r, 0u64, false),
            !final(self).resume_requested_spec(),
    {
        let next = self.next_instance_id.wrapping_add(1);
        self.next_instance_id = if next < 1 {
            1
        } else {
            next
        };
        self.current_instance_id = self.next_instance_id;
        self.last_transition_id = 0;
        self.ready = false;
        self.resume_requested = false;
        self.current_instance_id
    }

    /// Whether the current instance is ready.
    pub fn is_ready(&self) -> (r: bool)
        ensures
            r == self.current_spec().2,
    {
        self.ready
    }

    /// Asks once for the current, not yet ready instance to resume.
    pub fn request_resume_once(&mut self) -> (r: bool)
        ensures
            r == (!old(self).current_spec().2 && !old(self).resume_requested_spec() && old(
                self,
            ).current_spec().0 != 0),
            final(self).current_spec() == old(self).current_spec(),
            final(self).next_spec() == old(self).next_spec(),
            final(self).resume_requested_spec() == (old(self).resume_requested_spec() || r),
    {
        if self.ready || self.resume_requested || self.current_instance_id == 0 {
            return false;
        }
        self.resume_requested = true;
        true
    }

    /// The current instance, its last transition and readiness.
    pub fn current(&self) -> (r: (u64, u64, bool))
        ensures
            r == self.current_spec(),
    {
        (self.current_instance_id, self.last_transition_id, self.ready)
    }

    /// Whether `instance_id` is current and not ready.
    pub fn instance_is_current_unready(&self, instance_id: u64) -> (r: bool)
        ensures
            r == (self.current_spec().0 == instance_id && !self.current_spec().2),
    {
        self.current_instance_id == instance_id && !self.ready
    }

    /// Accepts a readiness change of the current instance with a transition
    /// newer than the last; a change from another instance, or an older or
    /// repeated transition, is refused and changes nothing. An accepted
    /// change hides the button when not ready, shows it when ready and
    /// wanted, and otherwise asks for nothing.
    pub fn accept(
        &mut self,
        instance_id: u64,
        transition_id: u64,
        ready: bool,
        visibility: &PromptButtonVisibilityState,
    ) -> (r: Option<PromptButtonRendererSnapshot>)
        ensures
            (instance_id == 0 || instance_id != old(self).current_spec().0 || transition_id <= old(
                self,
            ).current_spec().1) ==> r is None && *final(self) == *old(self),
            !(instance_id == 0 || instance_id != old(self).current_spec().0 || transition_id <= old(
                self,
            ).current_spec().1) ==> r == Some(
                PromptButtonRendererSnapshot {
                    instance_id,
                    transition_id,
                    ready,
                    visibility_generation: visibility.generation,
                    action: if !ready {
                        PromptButtonRendererAction::HideCurrent
                    } else if visibility.desired_visible {
                        PromptButtonRendererAction::ShowCurrent
                    } else {
                        PromptButtonRendererAction::Ignore
                    },
                },
            ) && final(self).current_spec() == (instance_id, transition_id, ready)
                && final(self).next_spec() == old(self).next_spec()
                && !final(self).resume_requested_spec(),
    {
        if instance_id == 0 || instance_id != self.current_instance_id || transition_id
            <= self.last_transition_id {
            return None;
        }
        self.last_transition_id = transition_id;
        self.ready = ready;
        self.resume_requested = false;
        let visibility_generation = visibility.generation();
        let action = if !ready {
            PromptButtonRendererAction::HideCurrent
        } else if visibility.desired_visible() {
            PromptButtonRendererAction::ShowCurrent
        } else {
            PromptButtonRendererAction::Ignore
        };
        Some(
            PromptButtonRendererSnapshot {
                instance_id,
                transition_id,
                ready,
                visibility_generation,
                action,
            },
        )
    }

    /// Whether an accepted action still applies: its transition is still the
    /// current one, and it hides a not-ready button or shows a ready one that
    /// is wanted and unchanged since.
    pub fn action_is_current(
        &self,
        snapshot: PromptButtonRendererSnapshot,
        visibility: &PromptButtonVisibilityState,
    ) -> (r: bool)
        ensures
            r == (self.current_spec() == (snapshot.instance_id, snapshot.transition_id, snapshot.ready)
                && match snapshot.action {
                PromptButtonRendererAction::Ignore => false,
                PromptButtonRendererAction::HideCurrent => !self.current_spec().2,
                PromptButtonRendererAction::ShowCurrent => self.current_spec().2
                    && visibility.desired_visible && visibility.generation
                    == snapshot.visibility_generation,
            }),
    {
        let transition_is_current = self.current_instance_id == snapshot.instance_id
            && self.last_transition_id == snapshot.transition_id && self.ready == snapshot.ready;
        if !transition_is_current {
            return false;
        }
        match snapshot.action {
            PromptButtonRendererAction::Ignore => false,
            PromptButtonRendererAction::HideCurrent => !self.ready,
            PromptButtonRendererAction::ShowCurrent => self.ready && visibility.may_show(
                snapshot.visibility_generation,
            ),
        }
    }
}

/// Once the user hides the button, no show requested before that happens.
pub proof fn lemma_disabled_visibility_wins(
    before: PromptButtonVisibilityState,
    after: PromptButtonVisibilityState,
    requested_generation: u64,
)
    requires
        requested_generation == before.generation,
        !after.desired_visible,
        after.generation == next_generation(before.generation),
    ensures
        !(after.desired_visible && after.generation == requested_generation),
{
}

/// Any change of the visibility invalidates every show requested before it.
pub proof fn lemma_visibility_change_invalidates_pending_shows(
    before: PromptButtonVisibilityState,
    after: PromptButtonVisibilityState,
)
    requires
        after.generation == next_generation(before.generation),
    ensures
        after.generation != before.generation,
{
}

/// What a periodic check does to the button.
#[derive(Clone, Copy, Debug, PartialEq, Eq, Structural)]
pub enum PromptButtonEnsureAction {
    NoAction,
    ShowExisting,
    BuildMissing,
}

/// The periodic check never touches a button the user disabled, leaves a
/// visible one and keeps a not-ready one hidden; it shows a hidden, ready one
/// and builds a missing one.
pub fn prompt_button_ensure_action(
    expected_visible: bool,
    window_present: bool,
    window_visible: bool,
    renderer_ready: bool,
) -> (r: PromptButtonEnsureAction)
    ensures
        r == (if !expected_visible || (window_present && (!renderer_ready || window_visible)) {
            PromptButtonEnsureAction::NoAction
        } else if window_present {
            PromptButtonEnsureAction::ShowExisting
        } else {
            PromptButtonEnsureAction::BuildMissing
        }),
        !expected_visible ==> r == PromptButtonEnsureAction::NoAction,
{
    if !expected_visible || (window_present && (!renderer_ready || window_visible)) {
        PromptButtonEnsureAction::NoAction
    } else if window_present {
        PromptButtonEnsureAction::ShowExisting
    } else {
        PromptButtonEnsureAction::BuildMissing
    }
}

/// What showing an existing button does once its windows are placed.
#[derive(Clone, Copy, Debug, PartialEq, Eq, Structural)]
pub enum PromptButtonRevealAction {
    NoAction,
    /// Show the button and its input window as ready.
    ShowReady,
    /// Ask the renderer to resume; it shows the button when it is ready.
    RequestResume,
}

/// What showing an existing button does once its windows are placed: a
/// visible button whose input window is hidden is shown again; a hidden one
/// that is still wanted is shown when its renderer is ready, else its
/// renderer is asked to resume, once per instance.
pub fn prompt_button_reveal_action(
    was_visible: bool,
    input_visible: bool,
    desired_visible: bool,
    renderer: &mut PromptButtonRendererState,
) -> (r: PromptButtonRevealAction)
    ensures
        final(renderer).current_spec() == old(renderer).current_spec(),
        final(renderer).next_spec() == old(renderer).next_spec(),
        was_visible ==> *final(renderer) == *old(renderer) && r == (if input_visible {
            PromptButtonRevealAction::NoAction
        } else {
            PromptButtonRevealAction::ShowReady
        }),
        !was_visible && !desired_visible ==> *final(renderer) == *old(renderer) && r
            == PromptButtonRevealAction::NoAction,
        !was_visible && desired_visible && old(renderer).current_spec().2 ==> *final(renderer) == *old(
            renderer,
        ) && r == PromptButtonRevealAction::ShowReady,
        !was_visible && desired_visible && !old(renderer).current_spec().2 ==> {
            let asks = !old(renderer).resume_requested_spec() && old(renderer).current_spec().0 != 0;
            &&& r == (if asks {
                PromptButtonRevealAction::RequestResume
            } else {
                PromptButtonRevealAction::NoAction
            })
            &&& final(renderer).resume_requested_spec() == (old(renderer).resume_requested_spec() || asks)
        },
{
    if was_visible {
        return if input_visible {
            PromptButtonRevealAction::NoAction
        } else {
            PromptButtonRevealAction::ShowReady
        };
    }
    if !desired_visible {
        return PromptButtonRevealAction::NoAction;
    }
    if renderer.is_ready() {
        PromptButtonRevealAction::ShowReady
    } else if renderer.request_resume_once() {
        PromptButtonRevealAction::RequestResume
    } else {
        PromptButtonRevealAction::NoAction
    }
}

/// Whether a web view is the floating button's, whose termination this
/// recovery owns.
pub fn is_prompt_button_webview(label: &str) -> (r: bool)
    ensures
        r == (label@ == BUTTON_WINDOW_LABEL@),
{
    str_eq(label, BUTTON_WINDOW_LABEL)
}

/// The pause before each recovery attempt, in milliseconds: at once, then
/// after 100 ms, then after 400 ms; there is no fourth attempt.
pub fn prompt_button_termination_retry_delay(attempt: usize) -> (r: Option<u64>)
    ensures
        r == (if attempt == 0 {
            Some(0u64)
        } else if attempt == 1 {
            Some(100u64)
        } else if attempt == 2 {
            Some(400u64)
        } else {
            None
        }),
{
    if attempt == 0 {
        Some(0)
    } else if attempt == 1 {
        Some(100)
    } else if attempt == 2 {
        Some(400)
    } else {
        None
    }
}

/// The address that reloads the button's renderer as `instance_id`: the web
/// view's current address, else the one stored at creation, retargeted by
/// `retarget` to the overlay page for this instance.
pub fn prompt_button_recovery_url<U, F>(
    current_url: Result<U, String>,
    stored_url: Option<U>,
    instance_id: u64,
    retarget: F,
) -> (r: Result<U, String>) where F: FnOnce(U, u64) -> U
    requires
        forall|u: U| call_requires(retarget, (u, instance_id)),
    ensures
        match current_url {
            Ok(u) => exists|v: U| #[trigger] call_ensures(retarget, (u, instance_id), v) && r == Ok::<U, String>(v),
            Err(_) => match stored_url {
                Some(u) => exists|v: U|
                    #[trigger] call_ensures(retarget, (u, instance_id), v) && r == Ok::<U, String>(v),
                None => r matches Err(e) && e@ == "Prompt button recovery URL is missing."@,
            },
        },
{
    let url = match current_url {
        Ok(u) => u,
        Err(_) => match stored_url {
            Some(u) => u,
            None => {
                return Err(String::from_str("Prompt button recovery URL is missing."));
            },
        },
    };
    let ghost g = url;
    let v = retarget(url, instance_id);
    assert(call_ensures(retarget, (g, instance_id), v));
    Ok(v)
}

fn prefixed_error(prefix: &str, error: &str) -> (r: String)
    ensures
        r@ == prefix@ + error@,
{
    let mut s = String::from_str(prefix);
    push_str(&mut s, error);
    s
}

/// Recovers a terminated button renderer in its existing window: hides it,
/// works out the recovery address and navigates there; the first step that
/// fails gives the error, naming the step.
pub fn perform_prompt_button_webview_recovery<U, H, C, N, F>(
    stored_url: Option<U>,
    instance_id: u64,
    hide_window: H,
    current_url: C,
    navigate: N,
    retarget: F,
) -> (r: Result<U, String>) where
    H: FnOnce() -> Result<(), String>,
    C: FnOnce() -> Result<U, String>,
    N: FnOnce(&U) -> Result<(), String>,
    F: FnOnce(U, u64) -> U,

    requires
        call_requires(hide_window, ()),
        call_requires(current_url, ()),
        forall|u: &U| call_requires(navigate, (u,)),
        forall|u: U| call_requires(retarget, (u, instance_id)),
    ensures
        exists|h: Result<(), String>|
            #[trigger] call_ensures(hide_window, (), h) && match h {
                Err(e) => r matches Err(m) && m@ == "Failed to hide terminated prompt button WebView: "@
                    + e@,
                Ok(()) => r is Ok ==> exists|u: U, n: Result<(), String>|
                    r == Ok::<U, String>(u) && #[trigger] call_ensures(navigate, (&u,), n) && n is Ok,
            },
{
    let h = hide_window();
    let ghost hg = h;
    if let Err(error) = h {
        return Err(prefixed_error("Failed to hide terminated prompt button WebView: ", error.as_str()));
    }
    let recovery_url = match prompt_button_recovery_url(current_url(), stored_url, instance_id, retarget) {
        Ok(u) => u,
        Err(e) => {
            assert(call_ensures(hide_window, (), hg));
            return Err(e);
        },
    };
    let n = navigate(&recovery_url);
    let ghost ng = n;
    if let Err(error) = n {
        assert(call_ensures(hide_window, (), hg));
        return Err(prefixed_error("Failed to navigate terminated prompt button WebView: ", error.as_str()));
    }
    assert(call_ensures(navigate, (&recovery_url,), ng));
    Ok(recovery_url)
}

/// What a readiness report of the button's renderer came to: whether it was
/// accepted, the transition now current, the action asked for, and whether
/// that action was carried out.
pub struct PromptButtonRendererReadyOutcome {
    pub accepted: bool,
    pub current_instance_id: u64,
    pub transition_id: u64,
    pub ready: bool,
    pub action: String,
    pub applied: bool,
}

/// The name of a renderer action.
pub open spec fn action_name_spec(a: PromptButtonRendererAction) -> Seq<char> {
    match a {
        PromptButtonRendererAction::Ignore => "ignore"@,
        PromptButtonRendererAction::HideCurrent => "hideCurrent"@,
        PromptButtonRendererAction::ShowCurrent => "showCurrent"@,
    }
}

/// Handles a readiness report of the button's renderer: a refused report
/// leaves everything as it was and reports the transition still current; an
/// accepted one hides (`hide_button`) or shows (`show_button`) the button as its action
/// asks, while that action is still current.
pub fn set_prompt_button_renderer_ready<H, S>(
    renderer_state: &mut PromptButtonRendererState,
    visibility: &PromptButtonVisibilityState,
    renderer_instance_id: u64,
    transition_id: u64,
    ready: bool,
    hide_button: H,
    show_button: S,
) -> (r: PromptButtonRendererReadyOutcome) where
    H: FnOnce() -> Result<(), String>,
    S: FnOnce() -> Result<(), String>,

    requires
        call_requires(hide_button, ()),
        call_requires(show_button, ()),
    ensures
        (renderer_instance_id == 0 || renderer_instance_id != old(renderer_state).current_spec().0
            || transition_id <= old(renderer_state).current_spec().1) ==> !r.accepted
            && *final(renderer_state) == *old(renderer_state)
            && (r.current_instance_id, r.transition_id, r.ready) == old(renderer_state).current_spec()
            && r.action@ == "ignore"@ && !r.applied,
        !(renderer_instance_id == 0 || renderer_instance_id != old(renderer_state).current_spec().0
            || transition_id <= old(renderer_state).current_spec().1) ==> {
            let action = if !ready {
                PromptButtonRendererAction::HideCurrent
            } else if visibility.desired_visible {
                PromptButtonRendererAction::ShowCurrent
            } else {
                PromptButtonRendererAction::Ignore
            };
            &&& r.accepted
            &&& final(renderer_state).current_spec() == (renderer_instance_id, transition_id, ready)
            &&& (r.current_instance_id, r.transition_id, r.ready) == (renderer_instance_id, transition_id, ready)
            &&& r.action@ == action_name_spec(action)
            &&& match action {
                PromptButtonRendererAction::Ignore => !r.applied,
                PromptButtonRendererAction::HideCurrent => exists|h: Result<(), String>|
                    #[trigger] call_ensures(hide_button, (), h) && r.applied == h is Ok,
                PromptButtonRendererAction::ShowCurrent => exists|v: Result<(), String>|
                    #[trigger] call_ensures(show_button, (), v) && r.applied == v is Ok,
            }
        },
{
    let snapshot = match renderer_state.accept(renderer_instance_id, transition_id, ready, visibility) {
        Some(s) => s,
        None => {
            let (current_instance_id, current_transition_id, current_ready) = renderer_state.current();
            return PromptButtonRendererReadyOutcome {
                accepted: false,
                current_instance_id,
                transition_id: current_transition_id,
                ready: current_ready,
                action: String::from_str("ignore"),
                applied: false,
            };
        },
    };
    let applied = if renderer_state.action_is_current(snapshot, visibility) {
        match snapshot.action {
            PromptButtonRendererAction::Ignore => false,
            PromptButtonRendererAction::HideCurrent => {
                let h = hide_button();
                let ghost hg = h;
                let ok = h.is_ok();
                assert(call_ensures(hide_button, (), hg));
                ok
            },
            PromptButtonRendererAction::ShowCurrent => {
                let v = show_button();
                let ghost vg = v;
                let ok = v.is_ok();
                assert(call_ensures(show_button, (), vg));
                ok
            },
        }
    } else {
        false
    };
    PromptButtonRendererReadyOutcome {
        accepted: true,
        current_instance_id: snapshot.instance_id,
        transition_id: snapshot.transition_id,
        ready: snapshot.ready,
        action: String::from_str(snapshot.action.as_str()),
        applied,
    }
}

/// Recovers a terminated button renderer once, in its existing window: the
/// instance must still be current and not ready, and the window must exist
/// (`window_present`); then the window is hidden, its address worked out
/// from the current one or the stored one (`stored_url`), and navigated
/// there. Gives the address to store for the next recovery.
pub fn recover_prompt_button_webview_once<U, H, C, N, F>(
    renderer_state: &PromptButtonRendererState,
    instance_id: u64,
    window_present: bool,
    stored_url: Option<U>,
    hide_window: H,
    current_url: C,
    navigate: N,
    retarget: F,
) -> (r: Result<U, String>) where
    H: FnOnce() -> Result<(), String>,
    C: FnOnce() -> Result<U, String>,
    N: FnOnce(&U) -> Result<(), String>,
    F: FnOnce(U, u64) -> U,

    requires
        call_requires(hide_window, ()),
        call_requires(current_url, ()),
        forall|u: &U| call_requires(navigate, (u,)),
        forall|u: U| call_requires(retarget, (u, instance_id)),
    ensures
        !(renderer_state.current_spec().0 == instance_id && !renderer_state.current_spec().2) ==> (r matches Err(
            e,
        ) && e@ == "Prompt button renderer instance "@ + decimal(instance_id as nat) + " is no longer current."@),
        renderer_state.current_spec().0 == instance_id && !renderer_state.current_spec().2 && !window_present ==> (
        r matches Err(e) && e@ == "Prompt button window is missing during WebContent recovery."@),
        renderer_state.current_spec().0 == instance_id && !renderer_state.current_spec().2 && window_present
            ==> exists|h: Result<(), String>|
            #[trigger] call_ensures(hide_window, (), h) && match h {
                Err(e) => r matches Err(m) && m@ == "Failed to hide terminated prompt button WebView: "@ + e@,
                Ok(()) => r is Ok ==> exists|u: U, n: Result<(), String>|
                    r == Ok::<U, String>(u) && #[trigger] call_ensures(navigate, (&u,), n) && n is Ok,
            },
{
    if !renderer_state.instance_is_current_unready(instance_id) {
        let mut e = String::from_str("Prompt button renderer instance ");
        push_decimal(&mut e, instance_id);
        push_str(&mut e, " is no longer current.");
        return Err(e);
    }
    if !window_present {
        return Err(String::from_str("Prompt button window is missing during WebContent recovery."));
    }
    perform_prompt_button_webview_recovery(stored_url, instance_id, hide_window, current_url, navigate, retarget)
}

/// Whether a failed recovery is tried again: only while the instance is
/// still current and not ready, and an attempt is left.
pub fn should_retry_prompt_button_recovery(
    renderer_state: &PromptButtonRendererState,
    instance_id: u64,
    attempt: usize,
) -> (r: bool)
    ensures
        r == (renderer_state.current_spec().0 == instance_id && !renderer_state.current_spec().2 && attempt
            < 2),
{
    renderer_state.instance_is_current_unready(instance_id) && attempt < usize::MAX
        && prompt_button_termination_retry_delay(attempt + 1).is_some()
}

/// What setting the button's visibility came to: the visibility asked for,
/// whether the window change and the saved setting succeeded, and the
/// errors of those that failed.
pub struct PromptButtonVisibilityOutcome {
    pub visible: bool,
    pub applied: bool,
    pub persisted: bool,
    pub error: Option<String>,
}

/// The error of a visibility change: both failures joined by `; `, or the
/// one that failed.
pub open spec fn visibility_error_spec(runtime: Result<(), String>, persist: Result<(), String>) -> Option<Seq<char>> {
    match (runtime, persist) {
        (Err(a), Err(b)) => Some(a@ + "; "@ + b@),
        (Err(a), Ok(())) => Some(a@),
        (Ok(()), Err(b)) => Some(b@),
        (Ok(()), Ok(())) => None,
    }
}

/// Sets the button's visibility: records the choice (a new generation),
/// shows or hides the windows (`apply_windows`), then saves the choice
/// (`persist`), reporting both results.
pub fn apply_prompt_button_visibility<A, P>(
    visible: bool,
    visibility_state: &mut PromptButtonVisibilityState,
    apply_windows: A,
    persist: P,
) -> (r: PromptButtonVisibilityOutcome) where
    A: FnOnce(bool) -> Result<(), String>,
    P: FnOnce(bool) -> Result<(), String>,

    requires
        call_requires(apply_windows, (visible,)),
        call_requires(persist, (visible,)),
    ensures
        final(visibility_state).desired_visible == visible,
        final(visibility_state).generation == next_generation(old(visibility_state).generation),
        exists|a: Result<(), String>, p: Result<(), String>|
            #[trigger] call_ensures(apply_windows, (visible,), a) && #[trigger] call_ensures(persist, (visible,), p)
                && r.visible == visible && r.applied == a is Ok && r.persisted == p is Ok && match r.error {
                Some(e) => visibility_error_spec(a, p) == Some(e@),
                None => visibility_error_spec(a, p) is None,
            },
{
    visibility_state.set(visible);
    let a = apply_windows(visible);
    let ghost ag = a;
    let p = persist(visible);
    let ghost pg = p;
    let error = match (&a, &p) {
        (Err(runtime), Err(persisted)) => {
            let mut e = runtime.clone();
            push_str(&mut e, "; ");
            push_str(&mut e, persisted.as_str());
            Some(e)
        },
        (Err(runtime), Ok(())) => Some(runtime.clone()),
        (Ok(()), Err(persisted)) => Some(persisted.clone()),
        (Ok(()), Ok(())) => None,
    };
    assert(call_ensures(apply_windows, (visible,), ag));
    assert(call_ensures(persist, (visible,), pg));
    PromptButtonVisibilityOutcome { visible, applied: a.is_ok(), persisted: p.is_ok(), error }
}

} // verus!
