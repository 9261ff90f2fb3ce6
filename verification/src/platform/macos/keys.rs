//! The keyboard events that paste a prompt and submit it, and how a delivery
//! that only posts key events to the focused application is reported.
use super::scripts::{autosend_error_spec, format_autosend_error};
use super::{
    failed_outcome, pasted_only_outcome, sent_outcome, AutosendFailureReason, AutosendOutcome,
    NativeSubmitKey,
};
use vstd::prelude::*;

verus! {

/// The virtual key code of `V`.
pub const KEY_CODE_V: u16 = 9;

/// The virtual key code of Return.
pub const KEY_CODE_RETURN: u16 = 36;

/// The virtual key code of Command.
pub const KEY_CODE_COMMAND: u16 = 55;

/// The event flag that marks Command as held.
pub const COMMAND_FLAG: u64 = 0x0010_0000;

/// One keyboard event: a key going down or up, with the modifier flags set.
#[derive(Clone, Copy, Debug, PartialEq, Eq, Structural)]
pub struct KeyEvent {
    pub key_code: u16,
    pub key_down: bool,
    pub flags: u64,
}

pub open spec fn key_event(key_code: u16, key_down: bool, flags: u64) -> KeyEvent {
    KeyEvent { key_code, key_down, flags }
}

/// Command down, `V` down and up with Command held, Command up.
pub open spec fn paste_shortcut_plan() -> Seq<KeyEvent> {
    seq![
        key_event(KEY_CODE_COMMAND, true, COMMAND_FLAG),
        key_event(KEY_CODE_V, true, COMMAND_FLAG),
        key_event(KEY_CODE_V, false, COMMAND_FLAG),
        key_event(KEY_CODE_COMMAND, false, 0),
    ]
}

/// Return down and up.
pub open spec fn return_key_plan() -> Seq<KeyEvent> {
    seq![key_event(KEY_CODE_RETURN, true, 0), key_event(KEY_CODE_RETURN, false, 0)]
}

/// Command down, Return down and up with Command held, Command up.
pub open spec fn command_return_plan() -> Seq<KeyEvent> {
    seq![
        key_event(KEY_CODE_COMMAND, true, COMMAND_FLAG),
        key_event(KEY_CODE_RETURN, true, COMMAND_FLAG),
        key_event(KEY_CODE_RETURN, false, COMMAND_FLAG),
        key_event(KEY_CODE_COMMAND, false, 0),
    ]
}

/// The events that submit a pasted prompt: none, Return, or Command-Return.
pub open spec fn submit_key_plan(key: NativeSubmitKey) -> Seq<KeyEvent> {
    match key {
        NativeSubmitKey::NoKey => Seq::empty(),
        NativeSubmitKey::Enter => return_key_plan(),
        NativeSubmitKey::CommandEnter => command_return_plan(),
    }
}

/// Whether the event at position `i` of `plan` is key `code` going down (or
/// up) with the Command flag (`0x100000`) set (or clear).
pub open spec fn key_at(plan: Seq<KeyEvent>, i: int, code: u16, down: bool, command_held: bool) -> bool {
    0 <= i < plan.len() && plan[i].key_code == code && plan[i].key_down == down && ((plan[i].flags
        & 0x0010_0000u64) == 0x0010_0000u64) == command_held
}

/// The submit key events do what their key says. Command-Return presses
/// Command (55), then Return (36) with the Command flag set while Command is
/// held, releases Return, and then releases Command; it is not the plain
/// Return of `Enter`. `Enter` presses and releases Return with no Command
/// flag and never touches Command. No submit key posts nothing.
pub proof fn lemma_submit_keys_hold_command_only_for_command_return()
    ensures
        exists|c: int, d: int, u: int, x: int|
            #![trigger key_at(submit_key_plan(NativeSubmitKey::CommandEnter), c, 55, true, true), key_at(submit_key_plan(NativeSubmitKey::CommandEnter), d, 36, true, true), key_at(submit_key_plan(NativeSubmitKey::CommandEnter), u, 36, false, true), key_at(submit_key_plan(NativeSubmitKey::CommandEnter), x, 55, false, false)]
            c < d < u < x && key_at(submit_key_plan(NativeSubmitKey::CommandEnter), c, 55, true, true)
                && key_at(submit_key_plan(NativeSubmitKey::CommandEnter), d, 36, true, true) && key_at(
                submit_key_plan(NativeSubmitKey::CommandEnter),
                u,
                36,
                false,
                true,
            ) && key_at(submit_key_plan(NativeSubmitKey::CommandEnter), x, 55, false, false),
        submit_key_plan(NativeSubmitKey::CommandEnter) != submit_key_plan(NativeSubmitKey::Enter),
        key_at(submit_key_plan(NativeSubmitKey::Enter), 0, 36, true, false),
        key_at(submit_key_plan(NativeSubmitKey::Enter), 1, 36, false, false),
        submit_key_plan(NativeSubmitKey::Enter).len() == 2,
        submit_key_plan(NativeSubmitKey::NoKey).len() == 0,
{
    let cr = submit_key_plan(NativeSubmitKey::CommandEnter);
    let en = submit_key_plan(NativeSubmitKey::Enter);
    assert((0x0010_0000u64 & 0x0010_0000u64) == 0x0010_0000u64) by (bit_vector);
    assert((0u64 & 0x0010_0000u64) == 0u64) by (bit_vector);
    assert(key_at(cr, 0, 55, true, true));
    assert(key_at(cr, 1, 36, true, true));
    assert(key_at(cr, 2, 36, false, true));
    assert(key_at(cr, 3, 55, false, false));
    assert(cr.len() != en.len());
}

/// The events of the paste shortcut.
pub fn paste_shortcut_events() -> (r: Vec<KeyEvent>)
    ensures
        r@ == paste_shortcut_plan(),
{
    let mut r: Vec<KeyEvent> = Vec::new();
    r.push(KeyEvent { key_code: KEY_CODE_COMMAND, key_down: true, flags: COMMAND_FLAG });
    r.push(KeyEvent { key_code: KEY_CODE_V, key_down: true, flags: COMMAND_FLAG });
    r.push(KeyEvent { key_code: KEY_CODE_V, key_down: false, flags: COMMAND_FLAG });
    r.push(KeyEvent { key_code: KEY_CODE_COMMAND, key_down: false, flags: 0 });
    assert(r@ =~= paste_shortcut_plan());
    r
}

/// The events that submit a pasted prompt with `key`.
pub fn submit_key_events(key: NativeSubmitKey) -> (r: Vec<KeyEvent>)
    ensures
        r@ == submit_key_plan(key),
{
    let mut r: Vec<KeyEvent> = Vec::new();
    match key {
        NativeSubmitKey::NoKey => {},
        NativeSubmitKey::Enter => {
            r.push(KeyEvent { key_code: KEY_CODE_RETURN, key_down: true, flags: 0 });
            r.push(KeyEvent { key_code: KEY_CODE_RETURN, key_down: false, flags: 0 });
        },
        NativeSubmitKey::CommandEnter => {
            r.push(KeyEvent { key_code: KEY_CODE_COMMAND, key_down: true, flags: COMMAND_FLAG });
            r.push(KeyEvent { key_code: KEY_CODE_RETURN, key_down: true, flags: COMMAND_FLAG });
            r.push(KeyEvent { key_code: KEY_CODE_RETURN, key_down: false, flags: COMMAND_FLAG });
            r.push(KeyEvent { key_code: KEY_CODE_COMMAND, key_down: false, flags: 0 });
        },
    }
    assert(r@ =~= submit_key_plan(key));
    r
}

/// The short name of a paste or submit event, as diagnostics print it.
pub open spec fn event_name_spec(e: KeyEvent) -> Seq<char> {
    if e.key_code == KEY_CODE_COMMAND {
        if e.key_down {
            "cmd-down"@
        } else {
            "cmd-up"@
        }
    } else if e.key_code == KEY_CODE_V {
        if e.key_down {
            "v-down"@
        } else {
            "v-up"@
        }
    } else if e.key_down {
        "return-down"@
    } else {
        "return-up"@
    }
}

/// The short name of a paste or submit event.
pub fn key_event_name(e: KeyEvent) -> (r: &'static str)
    ensures
        r@ == event_name_spec(e),
{
    if e.key_code == KEY_CODE_COMMAND {
        if e.key_down {
            "cmd-down"
        } else {
            "cmd-up"
        }
    } else if e.key_code == KEY_CODE_V {
        if e.key_down {
            "v-down"
        } else {
            "v-up"
        }
    } else if e.key_down {
        "return-down"
    } else {
        "return-up"
    }
}

/// The names of the events a native autosend posts with Return as the
/// submit key: the paste shortcut, then Return.
pub fn native_autosend_event_sequence() -> (r: Vec<&'static str>)
    ensures
        r@.len() == paste_shortcut_plan().len() + return_key_plan().len(),
        forall|i: int|
            0 <= i < r@.len() ==> (#[trigger] r@[i])@ == event_name_spec(
                (paste_shortcut_plan() + return_key_plan())[i],
            ),
{
    let mut events = paste_shortcut_events();
    let mut submit = submit_key_events(NativeSubmitKey::Enter);
    let ghost all = paste_shortcut_plan() + return_key_plan();
    events.append(&mut submit);
    assert(events@ =~= all);
    let mut names: Vec<&'static str> = Vec::new();
    let mut i: usize = 0;
    while i < events.len()
        invariant
            i <= events.len(),
            events@ == all,
            names@.len() == i,
            forall|j: int| 0 <= j < i ==> (#[trigger] names@[j])@ == event_name_spec(all[j]),
        decreases events.len() - i,
    {
        names.push(key_event_name(events[i]));
        i = i + 1;
    }
    names
}

/// Native autosend posts keyboard events itself and runs no script.
pub fn native_autosend_uses_osascript() -> (r: bool)
    ensures
        !r,
{
    false
}

/// Whether some poster of type `P` may answer `answer` to `event`.
pub open spec fn possible_answer<P>(event: KeyEvent, answer: Result<(), String>) -> bool where
    P: FnMut(KeyEvent) -> Result<(), String>,
 {
    exists|f: P| #[trigger] call_ensures(f, (event,), answer)
}

/// Whether `results` are the answers of the poster to the first events of
/// `events`, each a possible answer for its event: every answer but the last
/// is a success, and the outcome `r` is success exactly when every event was
/// posted and answered so, else the last answer's error.
pub open spec fn posting_spec<P>(events: Seq<KeyEvent>, results: Seq<Result<(), String>>, r: Result<(), String>) -> bool where
    P: FnMut(KeyEvent) -> Result<(), String>,
 {
    &&& results.len() <= events.len()
    &&& forall|j: int| 0 <= j < results.len() ==> possible_answer::<P>(events[j], #[trigger] results[j])
    &&& forall|j: int| 0 <= j < results.len() - 1 ==> (#[trigger] results[j]) is Ok
    &&& match r {
        Ok(()) => results.len() == events.len() && forall|j: int| 0 <= j < results.len() ==> (#[trigger] results[j]) is Ok,
        Err(e) => results.len() > 0 && results.last() == Err::<(), String>(e),
    }
}

/// Hands the events to `post` in order, stopping at the first that fails.
pub fn post_key_events<P>(events: &Vec<KeyEvent>, post: &mut P) -> (r: Result<(), String>) where
    P: FnMut(KeyEvent) -> Result<(), String>,

    requires
        forall|f: P, e: KeyEvent| call_requires(f, (e,)),
    ensures
        exists|results: Seq<Result<(), String>>| #[trigger] posting_spec::<P>(events@, results, r),
{
    let ghost mut results: Seq<Result<(), String>> = Seq::empty();
    let mut i: usize = 0;
    while i < events.len()
        invariant
            i <= events.len(),
            forall|f: P, e: KeyEvent| call_requires(f, (e,)),
            results.len() == i,
            forall|j: int| 0 <= j < i ==> possible_answer::<P>(events@[j], #[trigger] results[j]),
            forall|j: int| 0 <= j < i ==> (#[trigger] results[j]) is Ok,
        decreases events.len() - i,
    {
        let ghost before = *post;
        let answer = post(events[i]);
        proof {
            let prev = results;
            assert(call_ensures(before, (events@[i as int],), answer));
            results = results.push(answer);
            assert forall|j: int| 0 <= j < i + 1 implies possible_answer::<P>(events@[j], #[trigger] results[j]) by {
                if j == i {
                    assert(call_ensures(before, (events@[j],), results[j]));
                } else {
                    assert(results[j] == prev[j]);
                }
            }
        }
        match answer {
            Ok(()) => {},
            Err(e) => {
                assert(posting_spec::<P>(events@, results, Err(e)));
                return Err(e);
            },
        }
        i = i + 1;
    }
    assert(posting_spec::<P>(events@, results, Ok(())));
    Ok(())
}

/// Posts the paste shortcut (Command down, V down, V up, Command up) to the
/// focused application.
pub fn post_focus_preserving_paste<P>(post: &mut P) -> (r: Result<(), String>) where
    P: FnMut(KeyEvent) -> Result<(), String>,

    requires
        forall|f: P, e: KeyEvent| call_requires(f, (e,)),
    ensures
        exists|results: Seq<Result<(), String>>| #[trigger] posting_spec::<P>(paste_shortcut_plan(), results, r),
{
    let events = paste_shortcut_events();
    post_key_events(&events, post)
}

/// Posts the submit key, if any, to the focused application.
pub fn post_focus_preserving_submit_key<P>(submit_key: NativeSubmitKey, post: &mut P) -> (r: Result<(), String>) where
    P: FnMut(KeyEvent) -> Result<(), String>,

    requires
        forall|f: P, e: KeyEvent| call_requires(f, (e,)),
    ensures
        submit_key == NativeSubmitKey::NoKey ==> r is Ok,
        exists|results: Seq<Result<(), String>>| #[trigger] posting_spec::<P>(submit_key_plan(submit_key), results, r),
{
    let events = submit_key_events(submit_key);
    post_key_events(&events, post)
}

/// The report of a delivery that posted a paste with result `paste` and then
/// a submit with result `submit`: the first failure wins and names its step.
pub open spec fn key_delivery_outcome(
    o: AutosendOutcome,
    key: NativeSubmitKey,
    paste: Result<(), String>,
    submit: Result<(), String>,
) -> bool {
    match paste {
        Err(e) => failed_outcome(
            o,
            true,
            AutosendFailureReason::PasteEventFailed,
            autosend_error_spec("focus-preserving-paste"@, e@),
        ),
        Ok(()) => match submit {
            Err(e) => failed_outcome(
                o,
                true,
                AutosendFailureReason::ReturnEventFailed,
                autosend_error_spec("focus-preserving-submit"@, e@),
            ),
            Ok(()) => if key == NativeSubmitKey::NoKey {
                pasted_only_outcome(o)
            } else {
                sent_outcome(o)
            },
        },
    }
}

/// Whether `paste` is an outcome of posting the paste shortcut and, when it
/// succeeded, `submit` one of posting the submit key's events.
pub open spec fn key_posting_possible<P>(key: NativeSubmitKey, paste: Result<(), String>, submit: Result<(), String>) -> bool where
    P: FnMut(KeyEvent) -> Result<(), String>,
 {
    &&& exists|results: Seq<Result<(), String>>| #[trigger] posting_spec::<P>(paste_shortcut_plan(), results, paste)
    &&& paste is Ok ==> exists|results: Seq<Result<(), String>>| #[trigger] posting_spec::<P>(submit_key_plan(key), results, submit)
}

/// Pastes into and submits to the focused application without activating or
/// clicking anything.
pub fn focus_preserving_paste_and_submit<P>(submit_key: NativeSubmitKey, post: &mut P) -> (r: AutosendOutcome) where
    P: FnMut(KeyEvent) -> Result<(), String>,

    requires
        forall|f: P, e: KeyEvent| call_requires(f, (e,)),
    ensures
        exists|paste: Result<(), String>, submit: Result<(), String>|
            (submit_key == NativeSubmitKey::NoKey ==> submit is Ok) && key_posting_possible::<P>(
                submit_key,
                paste,
                submit,
            ) && #[trigger] key_delivery_outcome(r, submit_key, paste, submit),
{
    let paste = post_focus_preserving_paste(post);
    let ghost pg = paste;
    if let Err(error) = paste {
        let r = AutosendOutcome::paste_event_failed(
            format_autosend_error("focus-preserving-paste", error.as_str()),
        );
        assert(key_posting_possible::<P>(submit_key, pg, Ok::<(), String>(())));
        assert(key_delivery_outcome(r, submit_key, pg, Ok::<(), String>(())));
        return r;
    }
    let submit = post_focus_preserving_submit_key(submit_key, post);
    let ghost sg = submit;
    assert(key_posting_possible::<P>(submit_key, pg, sg));
    if let Err(error) = submit {
        let r = AutosendOutcome::return_event_failed(
            format_autosend_error("focus-preserving-submit", error.as_str()),
        );
        assert(key_delivery_outcome(r, submit_key, pg, sg));
        return r;
    }
    let r = if submit_key == NativeSubmitKey::NoKey {
        AutosendOutcome::pasted_only()
    } else {
        AutosendOutcome::sent()
    };
    assert(key_delivery_outcome(r, submit_key, pg, sg));
    r
}

} // verus!
