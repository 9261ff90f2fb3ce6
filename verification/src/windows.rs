//! The decisions behind the floating button and the prompt popover: which
//! window to reuse, when a toggle closes the list, which modes are
//! transparent, and the handshake that switches the popover's mode.
use crate::text::str_eq;
use vstd::prelude::*;
use vstd::string::StringExecFns;

verus! {

/// The window of the floating button's picture.
pub const BUTTON_WINDOW_LABEL: &'static str = "prompt-button";

/// The window that takes the floating button's clicks.
pub const BUTTON_INPUT_WINDOW_LABEL: &'static str = "prompt-button-input";

/// The popover window.
pub const POPOVER_WINDOW_LABEL: &'static str = "prompt-popover";

/// The floating button's window is transparent.
pub const BUTTON_WINDOW_TRANSPARENT: bool = true;

/// The popover mode that shows the prompt list.
pub const POPOVER_MODE: &'static str = "popover";

/// The popover mode that shows the button's controls.
pub const BUTTON_CONTROLS_MODE: &'static str = "button-controls";

/// Whether `m` names `mode`.
pub open spec fn mode_is(m: Option<&str>, mode: Seq<char>) -> bool {
    match m {
        Some(x) => x@ == mode,
        None => false,
    }
}

/// What to do with the popover window when a mode is requested.
#[derive(Clone, Copy, Debug, PartialEq, Eq, Structural)]
pub enum PopoverWindowAction {
    ReuseExisting,
    BuildMissing,
}

/// Reuse the popover window whenever one exists, whatever its mode; build it
/// otherwise.
pub fn popover_window_action(existing_mode: Option<&str>, requested_mode: &str) -> (r: PopoverWindowAction)
    ensures
        r == (if existing_mode is Some {
            PopoverWindowAction::ReuseExisting
        } else {
            PopoverWindowAction::BuildMissing
        }),
{
    if existing_mode.is_some() {
        PopoverWindowAction::ReuseExisting
    } else {
        PopoverWindowAction::BuildMissing
    }
}

/// The popover is shown as it is only when it already has the requested mode.
pub fn should_reuse_popover(existing_mode: Option<&str>, requested_mode: &str) -> (r: bool)
    ensures
        r == mode_is(existing_mode, requested_mode@),
{
    match existing_mode {
        Some(m) => str_eq(m, requested_mode),
        None => false,
    }
}

/// A toggle closes the popover only when it is visible and shows the prompt
/// list.
pub fn should_close_prompt_popover_on_toggle(existing_mode: Option<&str>, is_visible: bool) -> (r: bool)
    ensures
        r == (mode_is(existing_mode, POPOVER_MODE@) && is_visible),
{
    match existing_mode {
        Some(m) => str_eq(m, POPOVER_MODE) && is_visible,
        None => false,
    }
}

/// The prompt list and the button controls use a transparent window, which
/// an outside click dismisses.
pub fn should_use_transparent_popover_window(mode: Option<&str>) -> (r: bool)
    ensures
        r == (mode_is(mode, POPOVER_MODE@) || mode_is(mode, BUTTON_CONTROLS_MODE@)),
{
    match mode {
        Some(m) => str_eq(m, POPOVER_MODE) || str_eq(m, BUTTON_CONTROLS_MODE),
        None => false,
    }
}

/// Whether a toggle of the prompt list opened it.
pub struct PromptPopoverToggleOutcome {
    pub opened: bool,
}

/// What a toggle of the prompt list does.
#[derive(Clone, Copy, Debug, PartialEq, Eq, Structural)]
pub enum PopoverToggleAction {
    /// Cancel the pending switch to the prompt list and hide the window.
    CancelPending,
    /// Start a new session and hide the visible prompt list.
    CloseVisible,
    /// Capture the target and open the prompt list.
    Open,
}

/// What a toggle of the prompt list does: a pending switch to the list is
/// cancelled; a visible list is closed; anything else opens it.
pub fn popover_toggle_action(
    pending_prompt_list: bool,
    existing_mode: Option<&str>,
    window_visible: Option<bool>,
) -> (r: PopoverToggleAction)
    ensures
        pending_prompt_list ==> r == PopoverToggleAction::CancelPending,
        !pending_prompt_list ==> (r == PopoverToggleAction::CloseVisible <==> (window_visible
            == Some(true) && mode_is(existing_mode, POPOVER_MODE@))),
        !pending_prompt_list ==> r != PopoverToggleAction::CancelPending,
{
    if pending_prompt_list {
        return PopoverToggleAction::CancelPending;
    }
    match window_visible {
        Some(visible) => if should_close_prompt_popover_on_toggle(existing_mode, visible) {
            PopoverToggleAction::CloseVisible
        } else {
            PopoverToggleAction::Open
        },
        None => PopoverToggleAction::Open,
    }
}

/// A `tokio` one-shot sender.
#[verifier::external_type_specification]
#[verifier::external_body]
#[verifier::reject_recursive_types(T)]
pub struct ExOneshotSender<T>(tokio::sync::oneshot::Sender<T>);

/// A `tokio` one-shot receiver.
#[verifier::external_type_specification]
#[verifier::external_body]
#[verifier::reject_recursive_types(T)]
pub struct ExOneshotReceiver<T>(tokio::sync::oneshot::Receiver<T>);

/// The error a `tokio` one-shot receiver gives when its sender is dropped.
#[verifier::external_type_specification]
#[verifier::external_body]
pub struct ExOneshotRecvError(tokio::sync::oneshot::error::RecvError);

/// Makes a one-shot channel with `tokio::sync::oneshot::channel`; nothing is
/// stated of the pair.
#[verifier::external_body]
fn acknowledgement_channel() -> (
    tokio::sync::oneshot::Sender<()>,
    tokio::sync::oneshot::Receiver<()>,
) {
    tokio::sync::oneshot::channel()
}

/// Sends the acknowledgement with `tokio::sync::oneshot::Sender::send`; it
/// fails when the receiver was dropped, which depends on the waiting task, so
/// nothing is stated of the result.
#[verifier::external_body]
fn send_acknowledgement(sender: tokio::sync::oneshot::Sender<()>) -> bool {
    sender.send(()).is_ok()
}

/// A pending switch of the popover's mode: its id, the requested mode, and
/// the sender that acknowledges it once.
pub struct PendingPopoverModeRequest {
    pub id: u64,
    pub mode: String,
    pub sender: Option<tokio::sync::oneshot::Sender<()>>,
}

/// The popover's pending mode switch, if any, and the id counter.
pub struct PopoverModeRequestState {
    next_id: u64,
    pending: Option<PendingPopoverModeRequest>,
}

impl PopoverModeRequestState {
    /// The id counter.
    pub closed spec fn next_id_spec(&self) -> u64 {
        self.next_id
    }

    /// The pending switch's id and mode.
    pub closed spec fn pending_spec(&self) -> Option<(u64, Seq<char>)> {
        match self.pending {
            Some(p) => Some((p.id, p.mode@)),
            None => None,
        }
    }

    /// Whether the pending switch can still be acknowledged.
    pub closed spec fn can_acknowledge(&self) -> bool {
        self.pending matches Some(p) && p.sender is Some
    }

    /// Nothing pending.
    pub fn new() -> (r: Self)
        ensures
            r.next_id_spec() == 0,
            r.pending_spec() is None,
    {
        PopoverModeRequestState { next_id: 0, pending: None }
    }

    /// Starts a switch to `mode` under a fresh id, replacing any pending one;
    /// the receiver is told when the popover acknowledges it.
    pub fn begin(&mut self, mode: &str) -> (r: (u64, tokio::sync::oneshot::Receiver<()>))
        ensures
            final(self).next_id_spec() == (if old(self).next_id_spec() == u64::MAX {
                0
            } else {
                (old(self).next_id_spec() + 1) as u64
            }),
            r.0 == final(self).next_id_spec(),
            final(self).pending_spec() == Some((r.0, mode@)),
            final(self).can_acknowledge(),
    {
        let (sender, receiver) = acknowledgement_channel();
        self.next_id = self.next_id.wrapping_add(1);
        let id = self.next_id;
        self.pending = Some(
            PendingPopoverModeRequest { id, mode: String::from_str(mode), sender: Some(sender) },
        );
        (id, receiver)
    }

    /// Acknowledges the pending switch when it has this id and mode, once;
    /// any other acknowledgement changes nothing and is refused.
    pub fn acknowledge(&mut self, id: u64, mode: &str) -> (r: bool)
        ensures
            r ==> old(self).pending_spec() == Some((id, mode@)) && old(self).can_acknowledge(),
            old(self).pending_spec() != Some((id, mode@)) ==> *final(self) == *old(self),
            final(self).pending_spec() == old(self).pending_spec(),
            final(self).next_id_spec() == old(self).next_id_spec(),
            old(self).pending_spec() == Some((id, mode@)) ==> !final(self).can_acknowledge(),
    {
        let matches = match &self.pending {
            Some(p) => p.id == id && str_eq(p.mode.as_str(), mode),
            None => false,
        };
        if !matches {
            return false;
        }
        let sender = match &mut self.pending {
            Some(p) => p.sender.take(),
            None => None,
        };
        match sender {
            Some(s) => send_acknowledgement(s),
            None => false,
        }
    }

    /// Ends the pending switch when it has this id and mode.
    pub fn complete_if_current(&mut self, id: u64, mode: &str) -> (r: bool)
        ensures
            r == (old(self).pending_spec() == Some((id, mode@))),
            r ==> final(self).pending_spec() is None && final(self).next_id_spec() == old(
                self,
            ).next_id_spec(),
            !r ==> *final(self) == *old(self),
    {
        let is_current = match &self.pending {
            Some(p) => p.id == id && str_eq(p.mode.as_str(), mode),
            None => false,
        };
        if is_current {
            self.pending = None;
        }
        is_current
    }

    /// Cancels the pending switch when it has this id, so that no later
    /// acknowledgement of it counts.
    pub fn cancel_if_current(&mut self, id: u64) -> (r: bool)
        ensures
            r == (old(self).pending_spec() matches Some(p) && p.0 == id),
            r ==> final(self).pending_spec() is None && final(self).next_id_spec() == (if old(
                self,
            ).next_id_spec() == u64::MAX {
                0
            } else {
                (old(self).next_id_spec() + 1) as u64
            }),
            !r ==> *final(self) == *old(self),
    {
        let is_current = match &self.pending {
            Some(p) => p.id == id,
            None => false,
        };
        if is_current {
            self.next_id = self.next_id.wrapping_add(1);
            self.pending = None;
            return true;
        }
        false
    }

    /// Cancels whatever switch is pending; tells whether one was.
    pub fn cancel(&mut self) -> (r: bool)
        ensures
            r == old(self).pending_spec() is Some,
            final(self).pending_spec() is None,
            final(self).next_id_spec() == (if old(self).next_id_spec() == u64::MAX {
                0
            } else {
                (old(self).next_id_spec() + 1) as u64
            }),
    {
        self.next_id = self.next_id.wrapping_add(1);
        let was = self.pending.is_some();
        self.pending = None;
        was
    }

    /// Whether a switch to `mode` is pending.
    pub fn is_pending_mode(&self, mode: &str) -> (r: bool)
        ensures
            r == (self.pending_spec() matches Some(p) && p.1 == mode@),
    {
        match &self.pending {
            Some(p) => str_eq(p.mode.as_str(), mode),
            None => false,
        }
    }
}

/// How waiting for the popover's acknowledgement ended.
#[derive(Clone, Copy, Debug, PartialEq, Eq, Structural)]
pub enum PopoverModeWait {
    /// The acknowledgement arrived.
    Acknowledged,
    /// The sender went away without acknowledging.
    Dropped,
    /// No acknowledgement came in time.
    TimedOut,
}

/// The end of a mode switch: acknowledged and still current it succeeds and
/// is completed; acknowledged late or dropped it was superseded; timed out it
/// is cancelled if still current, in which case the outside-click monitor is
/// turned off (`r.1`).
pub fn finish_popover_mode_request(
    state: &mut PopoverModeRequestState,
    request_id: u64,
    mode: &str,
    wait: PopoverModeWait,
) -> (r: (Result<(), String>, bool))
    ensures
        wait == PopoverModeWait::Acknowledged && old(state).pending_spec() == Some((request_id, mode@))
            ==> r.0 is Ok && final(state).pending_spec() is None && !r.1,
        wait == PopoverModeWait::Acknowledged && old(state).pending_spec() != Some((request_id, mode@))
            ==> (r.0 matches Err(e) && e@ == "Prompt popover mode request was superseded."@) && !r.1
            && *final(state) == *old(state),
        wait == PopoverModeWait::Dropped ==> (r.0 matches Err(e) && e@
            == "Prompt popover mode request was superseded."@) && !r.1 && *final(state) == *old(state),
        wait == PopoverModeWait::TimedOut ==> (r.0 matches Err(e) && e@
            == "Prompt popover mode request timed out."@) && r.1 == (old(state).pending_spec() matches Some(
            p,
        ) && p.0 == request_id),
        wait == PopoverModeWait::TimedOut && r.1 ==> final(state).pending_spec() is None,
{
    match wait {
        PopoverModeWait::Acknowledged => if state.complete_if_current(request_id, mode) {
            (Ok(()), false)
        } else {
            (Err(String::from_str("Prompt popover mode request was superseded.")), false)
        },
        PopoverModeWait::Dropped => (
            Err(String::from_str("Prompt popover mode request was superseded.")),
            false,
        ),
        PopoverModeWait::TimedOut => {
            let cancelled = state.cancel_if_current(request_id);
            (Err(String::from_str("Prompt popover mode request timed out.")), cancelled)
        },
    }
}

/// Once a switch is cancelled or replaced, its acknowledgement is refused.
pub proof fn lemma_stale_acknowledgement_refused(
    before: PopoverModeRequestState,
    after: PopoverModeRequestState,
    id: u64,
    mode: Seq<char>,
)
    requires
        after.pending_spec() is None || (after.pending_spec() matches Some(p) && p.0 != id),
    ensures
        after.pending_spec() != Some((id, mode)),
{
}

/// One step of showing the popover in a mode.
#[derive(Clone, Copy, Debug, PartialEq, Eq, Structural)]
pub enum PopoverShowAction {
    /// Build the popover window at the position, for the mode.
    BuildWindow,
    /// Hide the existing window.
    HideWindow,
    /// Turn the outside-click monitor off.
    DisableOutsideClickMonitor,
    /// Record the mode as the popover's mode.
    RecordMode,
    /// Move the window to the position.
    SetPosition,
    /// Size the window for the mode.
    SetSize,
    /// Ask the popover to switch to the mode and wait for its
    /// acknowledgement.
    RequestModeAcknowledgement,
    /// Make the window's web view transparent.
    ConfigureTransparent,
    /// Turn the outside-click monitor on.
    EnableOutsideClickMonitor,
    /// Show the window without activating the app.
    ShowWindow,
    /// Tell the app the popover opened in the mode.
    EmitOpened,
}

/// The steps that end showing the popover: a transparent mode has its web
/// view made transparent and the outside-click monitor on, any other has the
/// monitor off.
pub open spec fn transparency_steps(transparent: bool, when_opaque: Seq<PopoverShowAction>) -> Seq<PopoverShowAction> {
    if transparent {
        seq![PopoverShowAction::ConfigureTransparent, PopoverShowAction::EnableOutsideClickMonitor]
    } else {
        when_opaque
    }
}

/// The steps of showing the popover in `mode`: an existing window already in
/// that mode is moved, sized and shown; an existing window in another mode is
/// hidden, switched (waiting for the popover's acknowledgement), then shown;
/// without a window one is built and shown. Every path ends by announcing
/// the opened mode, and each step runs only if the ones before succeeded.
pub open spec fn popover_show_plan_spec(
    window_exists: bool,
    existing_mode: Option<Seq<char>>,
    mode: Seq<char>,
) -> Seq<PopoverShowAction> {
    let transparent = mode == POPOVER_MODE@ || mode == BUTTON_CONTROLS_MODE@;
    if window_exists {
        if existing_mode == Some(mode) {
            seq![PopoverShowAction::SetPosition, PopoverShowAction::SetSize] + transparency_steps(
                transparent,
                seq![PopoverShowAction::DisableOutsideClickMonitor],
            ) + seq![PopoverShowAction::ShowWindow, PopoverShowAction::EmitOpened]
        } else {
            seq![
                PopoverShowAction::HideWindow,
                PopoverShowAction::DisableOutsideClickMonitor,
                PopoverShowAction::RecordMode,
                PopoverShowAction::SetPosition,
                PopoverShowAction::SetSize,
                PopoverShowAction::RequestModeAcknowledgement,
            ] + transparency_steps(transparent, Seq::empty()) + seq![
                PopoverShowAction::ShowWindow,
                PopoverShowAction::EmitOpened,
            ]
        }
    } else {
        seq![PopoverShowAction::BuildWindow] + transparency_steps(
            transparent,
            seq![PopoverShowAction::DisableOutsideClickMonitor],
        ) + seq![PopoverShowAction::ShowWindow, PopoverShowAction::RecordMode, PopoverShowAction::EmitOpened]
    }
}

fn push_transparency_steps(plan: &mut Vec<PopoverShowAction>, transparent: bool, disable_when_opaque: bool)
    ensures
        final(plan)@ == old(plan)@ + transparency_steps(
            transparent,
            if disable_when_opaque {
                seq![PopoverShowAction::DisableOutsideClickMonitor]
            } else {
                Seq::empty()
            },
        ),
{
    if transparent {
        plan.push(PopoverShowAction::ConfigureTransparent);
        plan.push(PopoverShowAction::EnableOutsideClickMonitor);
    } else if disable_when_opaque {
        plan.push(PopoverShowAction::DisableOutsideClickMonitor);
    }
    proof {
        assert(final(plan)@ =~= old(plan)@ + transparency_steps(
            transparent,
            if disable_when_opaque {
                seq![PopoverShowAction::DisableOutsideClickMonitor]
            } else {
                Seq::empty()
            },
        ));
    }
}

/// Whether the step at position `i` of `plan` is `a`.
pub open spec fn step_at(plan: Seq<PopoverShowAction>, i: int, a: PopoverShowAction) -> bool {
    0 <= i < plan.len() && plan[i] == a
}

/// Whether `plan` never turns the outside-click monitor off after position `e`.
pub open spec fn monitor_stays_on_after(plan: Seq<PopoverShowAction>, e: int) -> bool {
    forall|d: int| e < d < plan.len() ==> !(#[trigger] step_at(plan, d, PopoverShowAction::DisableOutsideClickMonitor))
}

/// Whether `plan` makes the popover's web view transparent and turns the
/// outside-click monitor on before it shows the window, and never turns the
/// monitor off again after that.
pub open spec fn shows_transparent_with_monitor(plan: Seq<PopoverShowAction>) -> bool {
    exists|c: int, e: int, w: int|
        #![trigger step_at(plan, c, PopoverShowAction::ConfigureTransparent), step_at(plan, e, PopoverShowAction::EnableOutsideClickMonitor), step_at(plan, w, PopoverShowAction::ShowWindow)]
        c < w && e < w && step_at(plan, c, PopoverShowAction::ConfigureTransparent) && step_at(
            plan,
            e,
            PopoverShowAction::EnableOutsideClickMonitor,
        ) && step_at(plan, w, PopoverShowAction::ShowWindow) && monitor_stays_on_after(plan, e)
}

proof fn lemma_transparent_plan(plan: Seq<PopoverShowAction>, c: int, e: int, w: int)
    requires
        0 <= c < w,
        0 <= e < w,
        w < plan.len(),
        plan[c] == PopoverShowAction::ConfigureTransparent,
        plan[e] == PopoverShowAction::EnableOutsideClickMonitor,
        plan[w] == PopoverShowAction::ShowWindow,
        forall|d: int| e < d < plan.len() ==> plan[d] != PopoverShowAction::DisableOutsideClickMonitor,
    ensures
        shows_transparent_with_monitor(plan),
{
    assert(step_at(plan, c, PopoverShowAction::ConfigureTransparent));
    assert(step_at(plan, e, PopoverShowAction::EnableOutsideClickMonitor));
    assert(step_at(plan, w, PopoverShowAction::ShowWindow));
    assert(monitor_stays_on_after(plan, e));
}

proof fn lemma_opaque_plan(plan: Seq<PopoverShowAction>, d: int, w: int)
    requires
        0 <= d < plan.len(),
        0 <= w < plan.len(),
        plan[d] == PopoverShowAction::DisableOutsideClickMonitor,
        plan[w] == PopoverShowAction::ShowWindow,
        forall|i: int| 0 <= i < plan.len() ==> plan[i] != PopoverShowAction::EnableOutsideClickMonitor
            && plan[i] != PopoverShowAction::ConfigureTransparent,
    ensures
        plan.contains(PopoverShowAction::DisableOutsideClickMonitor),
        plan.contains(PopoverShowAction::ShowWindow),
        !plan.contains(PopoverShowAction::EnableOutsideClickMonitor),
        !plan.contains(PopoverShowAction::ConfigureTransparent),
{
}

/// Every plan for the prompt list ("popover") or the button controls
/// ("button-controls"), whether the window is reused, switched to the mode
/// or built, makes the web view transparent and turns the outside-click
/// monitor on before showing the window, and leaves the monitor on. Every
/// plan for another mode turns the monitor off and neither makes the window
/// transparent nor turns the monitor on. Every plan shows the window.
#[verifier::spinoff_prover]
pub proof fn lemma_transparent_modes_dismiss_on_outside_click(
    window_exists: bool,
    existing_mode: Option<Seq<char>>,
    mode: Seq<char>,
)
    ensures
        (mode == "popover"@ || mode == "button-controls"@) ==> shows_transparent_with_monitor(
            popover_show_plan_spec(window_exists, existing_mode, mode),
        ),
        !(mode == "popover"@ || mode == "button-controls"@) ==> (popover_show_plan_spec(
            window_exists,
            existing_mode,
            mode,
        ).contains(PopoverShowAction::DisableOutsideClickMonitor) && !popover_show_plan_spec(
            window_exists,
            existing_mode,
            mode,
        ).contains(PopoverShowAction::EnableOutsideClickMonitor) && !popover_show_plan_spec(
            window_exists,
            existing_mode,
            mode,
        ).contains(PopoverShowAction::ConfigureTransparent)),
        popover_show_plan_spec(window_exists, existing_mode, mode).contains(PopoverShowAction::ShowWindow),
{
    let plan = popover_show_plan_spec(window_exists, existing_mode, mode);
    let transparent = mode == POPOVER_MODE@ || mode == BUTTON_CONTROLS_MODE@;
    assert(transparent == (mode == "popover"@ || mode == "button-controls"@));
    if window_exists && existing_mode == Some(mode) {
        if transparent {
            assert(plan =~= seq![
                PopoverShowAction::SetPosition,
                PopoverShowAction::SetSize,
                PopoverShowAction::ConfigureTransparent,
                PopoverShowAction::EnableOutsideClickMonitor,
                PopoverShowAction::ShowWindow,
                PopoverShowAction::EmitOpened,
            ]);
            lemma_transparent_plan(plan, 2, 3, 4);
            assert(plan[4] == PopoverShowAction::ShowWindow);
        } else {
            assert(plan =~= seq![
                PopoverShowAction::SetPosition,
                PopoverShowAction::SetSize,
                PopoverShowAction::DisableOutsideClickMonitor,
                PopoverShowAction::ShowWindow,
                PopoverShowAction::EmitOpened,
            ]);
            lemma_opaque_plan(plan, 2, 3);
        }
    } else if window_exists {
        if transparent {
            assert(plan =~= seq![
                PopoverShowAction::HideWindow,
                PopoverShowAction::DisableOutsideClickMonitor,
                PopoverShowAction::RecordMode,
                PopoverShowAction::SetPosition,
                PopoverShowAction::SetSize,
                PopoverShowAction::RequestModeAcknowledgement,
                PopoverShowAction::ConfigureTransparent,
                PopoverShowAction::EnableOutsideClickMonitor,
                PopoverShowAction::ShowWindow,
                PopoverShowAction::EmitOpened,
            ]);
            lemma_transparent_plan(plan, 6, 7, 8);
            assert(plan[8] == PopoverShowAction::ShowWindow);
        } else {
            assert(plan =~= seq![
                PopoverShowAction::HideWindow,
                PopoverShowAction::DisableOutsideClickMonitor,
                PopoverShowAction::RecordMode,
                PopoverShowAction::SetPosition,
                PopoverShowAction::SetSize,
                PopoverShowAction::RequestModeAcknowledgement,
                PopoverShowAction::ShowWindow,
                PopoverShowAction::EmitOpened,
            ]);
            lemma_opaque_plan(plan, 1, 6);
        }
    } else {
        if transparent {
            assert(plan =~= seq![
                PopoverShowAction::BuildWindow,
                PopoverShowAction::ConfigureTransparent,
                PopoverShowAction::EnableOutsideClickMonitor,
                PopoverShowAction::ShowWindow,
                PopoverShowAction::RecordMode,
                PopoverShowAction::EmitOpened,
            ]);
            lemma_transparent_plan(plan, 1, 2, 3);
            assert(plan[3] == PopoverShowAction::ShowWindow);
        } else {
            assert(plan =~= seq![
                PopoverShowAction::BuildWindow,
                PopoverShowAction::DisableOutsideClickMonitor,
                PopoverShowAction::ShowWindow,
                PopoverShowAction::RecordMode,
                PopoverShowAction::EmitOpened,
            ]);
            lemma_opaque_plan(plan, 1, 2);
        }
    }
}

/// The steps of showing the popover in `mode`, given whether its window
/// exists and the mode it has.
pub fn popover_show_plan(window_exists: bool, existing_mode: Option<&str>, mode: &str) -> (r: Vec<PopoverShowAction>)
    ensures
        r@ == popover_show_plan_spec(
            window_exists,
            match existing_mode {
                Some(m) => Some(m@),
                None => None,
            },
            mode@,
        ),
{
    let transparent = should_use_transparent_popover_window(Some(mode));
    let mut plan: Vec<PopoverShowAction> = Vec::new();
    if window_exists {
        if should_reuse_popover(existing_mode, mode) {
            plan.push(PopoverShowAction::SetPosition);
            plan.push(PopoverShowAction::SetSize);
            push_transparency_steps(&mut plan, transparent, true);
        } else {
            plan.push(PopoverShowAction::HideWindow);
            plan.push(PopoverShowAction::DisableOutsideClickMonitor);
            plan.push(PopoverShowAction::RecordMode);
            plan.push(PopoverShowAction::SetPosition);
            plan.push(PopoverShowAction::SetSize);
            plan.push(PopoverShowAction::RequestModeAcknowledgement);
            push_transparency_steps(&mut plan, transparent, false);
        }
        plan.push(PopoverShowAction::ShowWindow);
        plan.push(PopoverShowAction::EmitOpened);
    } else {
        plan.push(PopoverShowAction::BuildWindow);
        push_transparency_steps(&mut plan, transparent, true);
        plan.push(PopoverShowAction::ShowWindow);
        plan.push(PopoverShowAction::RecordMode);
        plan.push(PopoverShowAction::EmitOpened);
    }
    proof {
        let em = match existing_mode {
            Some(m) => Some(m@),
            None => None::<Seq<char>>,
        };
        assert(plan@ =~= popover_show_plan_spec(window_exists, em, mode@));
    }
    plan
}

/// What an outside click does to the popover.
#[derive(Clone, Copy, Debug, PartialEq, Eq, Structural)]
pub enum OutsideClickAction {
    /// Nothing.
    Nothing,
    /// Turn the outside-click monitor off.
    DisableMonitor,
    /// Hide the popover, turn the monitor off and announce the dismissal.
    Dismiss,
}

/// What a mouse-down does to the popover: nothing while the monitor is off;
/// the monitor is turned off when the popover's mode is not a transparent one
/// or its window is missing or hidden; otherwise a click outside the button
/// and the popover (`click_outside`, read only then; none when the pointer
/// could not be read) dismisses it.
pub fn outside_click_action<F>(
    monitor_active: bool,
    mode: Option<&str>,
    window_visible: Option<bool>,
    click_outside: F,
) -> (r: OutsideClickAction) where F: FnOnce() -> Option<bool>
    requires
        call_requires(click_outside, ()),
    ensures
        !monitor_active ==> r == OutsideClickAction::Nothing,
        monitor_active && !(mode_is(mode, POPOVER_MODE@) || mode_is(mode, BUTTON_CONTROLS_MODE@)) ==> r
            == OutsideClickAction::DisableMonitor,
        monitor_active && (mode_is(mode, POPOVER_MODE@) || mode_is(mode, BUTTON_CONTROLS_MODE@))
            && window_visible != Some(true) ==> r == OutsideClickAction::DisableMonitor,
        monitor_active && (mode_is(mode, POPOVER_MODE@) || mode_is(mode, BUTTON_CONTROLS_MODE@))
            && window_visible == Some(true) ==> exists|c: Option<bool>|
            #[trigger] call_ensures(click_outside, (), c) && r == if c == Some(true) {
                OutsideClickAction::Dismiss
            } else {
                OutsideClickAction::Nothing
            },
{
    if !monitor_active {
        return OutsideClickAction::Nothing;
    }
    if !should_use_transparent_popover_window(mode) {
        return OutsideClickAction::DisableMonitor;
    }
    match window_visible {
        Some(true) => {},
        _ => {
            return OutsideClickAction::DisableMonitor;
        },
    }
    let c = click_outside();
    let ghost cg = c;
    let r = match c {
        Some(true) => OutsideClickAction::Dismiss,
        _ => OutsideClickAction::Nothing,
    };
    assert(call_ensures(click_outside, (), cg));
    r
}

} // verus!
