//! Focusing a target composer and verifying, by repeated read-back, that the
//! focus actually landed and stayed on it.
use vstd::prelude::*;

verus! {

#[derive(Clone, Copy, Debug, PartialEq, Eq, Structural)]
pub enum FocusFrontmost {
    Target,
    PromptDrawer,
    Other,
}

#[derive(Clone, Copy, Debug, PartialEq, Eq, Structural)]
pub enum FocusError {
    UserSwitchedApplication,
    ActivationFailed,
    RaiseFailed,
    FocusRejected,
    CandidateChanged,
    FocusUnstable,
    ClickNotVerified,
    ExistingTextCaretUnknown,
}

pub struct FocusOptions {
    pub max_polls: usize,
    pub stable_reads: usize,
    pub click_fallback_permitted: bool,
    pub candidate_contains_text: bool,
    pub caret_policy_proven: bool,
}

/// Number of consecutive exact reads that count as stable focus.
pub open spec fn reads_needed(stable_reads: nat) -> nat {
    if stable_reads == 0 {
        1
    } else {
        stable_reads
    }
}

/// How many exact reads end the sequence in a row.
pub open spec fn trailing_run(reads: Seq<bool>) -> nat
    decreases reads.len(),
{
    if reads.len() == 0 {
        0
    } else if reads.last() {
        trailing_run(reads.drop_last()) + 1
    } else {
        0
    }
}

/// `reads` are the read-backs of one poll and `stable` its answer: polling
/// stops at the first read that completes a run of `needed` exact reads
/// (answer `true`), or after `max_polls` reads without one (answer `false`).
pub open spec fn poll_outcome(reads: Seq<bool>, max_polls: nat, needed: nat, stable: bool) -> bool {
    &&& reads.len() <= max_polls
    &&& forall|i: int| 0 < i < reads.len() ==> trailing_run(#[trigger] reads.take(i)) < needed
    &&& stable ==> reads.len() > 0 && trailing_run(reads) >= needed
    &&& !stable ==> reads.len() == max_polls && trailing_run(reads) < needed
}

/// `reads` are the read-backs of the check whether focus already sits on the
/// composer, and `stable` its answer.
pub open spec fn stable_check_outcome(reads: Seq<bool>, stable_reads: nat, stable: bool) -> bool {
    &&& reads.len() == (if reads[0] && stable_reads > 1 {
        2int
    } else {
        1int
    })
    &&& stable == (reads[0] && (stable_reads <= 1 || reads[1]))
}

/// The result of focusing, given the answers of the environment: the frontmost
/// state, whether activating, raising, setting focus, hit-testing and clicking
/// succeeded, and the answers of the initial check and of the two polls.
pub open spec fn focus_result(
    o: FocusOptions,
    front: FocusFrontmost,
    activate_ok: bool,
    raise_ok: bool,
    set_ok: bool,
    hit_ok: bool,
    click_ok: bool,
    already_stable: bool,
    stable_after_set: bool,
    stable_after_click: bool,
) -> Result<(), FocusError> {
    if front == FocusFrontmost::Other {
        Err(FocusError::UserSwitchedApplication)
    } else if front == FocusFrontmost::PromptDrawer && !activate_ok {
        Err(FocusError::ActivationFailed)
    } else if front == FocusFrontmost::PromptDrawer && !raise_ok {
        Err(FocusError::RaiseFailed)
    } else if already_stable {
        Ok(())
    } else if set_ok && stable_after_set {
        Ok(())
    } else if !o.click_fallback_permitted {
        Err(FocusError::FocusRejected)
    } else if o.candidate_contains_text && !o.caret_policy_proven {
        Err(FocusError::ExistingTextCaretUnknown)
    } else if !hit_ok || !click_ok {
        Err(FocusError::ClickNotVerified)
    } else if stable_after_click {
        Ok(())
    } else {
        Err(FocusError::FocusUnstable)
    }
}

proof fn lemma_trailing_run_push(reads: Seq<bool>, b: bool)
    ensures
        trailing_run(reads.push(b)) == (if b {
            trailing_run(reads) + 1
        } else {
            0
        }),
{
    assert(reads.push(b).drop_last() =~= reads);
}

/// Whether some read-back of type `V` answers `a`.
pub open spec fn read_possible<V>(a: bool) -> bool where V: FnMut() -> bool {
    exists|f: V| #[trigger] call_ensures(f, (), a)
}

/// Whether each of `reads` is an answer of a read-back of type `V`.
pub open spec fn reads_possible<V>(reads: Seq<bool>) -> bool where V: FnMut() -> bool {
    forall|i: int| 0 <= i < reads.len() ==> #[trigger] read_possible::<V>(reads[i])
}

/// Polls the focus read-back up to `max_polls` times and reports whether
/// `max(stable_reads, 1)` exact reads came in a row; it waits after every read
/// that does not complete the run. The reads taken are returned alongside.
pub fn poll_for_stable_focus<V, W>(
    max_polls: usize,
    stable_reads: usize,
    exact_focus: &mut V,
    wait: &mut W,
) -> (r: (bool, Ghost<Seq<bool>>)) where V: FnMut() -> bool, W: FnMut()
    requires
        forall|f: V| call_requires(f, ()),
        forall|f: W| call_requires(f, ()),
    ensures
        poll_outcome(r.1@, max_polls as nat, reads_needed(stable_reads as nat), r.0),
        reads_possible::<V>(r.1@),
        r.0 ==> trailing_run(r.1@) >= stable_reads && trailing_run(r.1@) >= 1,
        !r.0 ==> r.1@.len() == max_polls && forall|i: int|
            0 < i <= r.1@.len() ==> trailing_run(#[trigger] r.1@.take(i)) < stable_reads || trailing_run(
                r.1@.take(i),
            ) == 0,
{
    let needed: usize = if stable_reads == 0 {
        1
    } else {
        stable_reads
    };
    let mut consecutive: usize = 0;
    let mut polls: usize = 0;
    let ghost mut reads: Seq<bool> = Seq::empty();
    while polls < max_polls
        invariant
            polls <= max_polls,
            reads.len() == polls,
            consecutive < needed,
            needed == reads_needed(stable_reads as nat),
            consecutive == trailing_run(reads),
            forall|i: int| 0 < i <= reads.len() ==> trailing_run(#[trigger] reads.take(i)) < needed,
            forall|f: V| call_requires(f, ()),
            forall|f: W| call_requires(f, ()),
            reads_possible::<V>(reads),
        decreases max_polls - polls,
    {
        let ghost g = *exact_focus;
        let read = exact_focus();
        proof {
            assert(call_ensures(g, (), read));
            assert(read_possible::<V>(read));
            lemma_trailing_run_push(reads, read);
            let old_reads = reads;
            reads = reads.push(read);
            assert forall|i: int| 0 <= i < reads.len() implies #[trigger] read_possible::<V>(reads[i]) by {
                if i < old_reads.len() {
                    assert(reads[i] == old_reads[i]);
                }
            }
            assert forall|i: int| 0 < i < reads.len() implies trailing_run(
                #[trigger] reads.take(i),
            ) < needed by {
                assert(reads.take(i) =~= old_reads.take(i));
            }
            assert(reads.take(reads.len() as int) =~= reads);
        }
        if read {
            consecutive = consecutive + 1;
            if consecutive >= needed {
                return (true, Ghost(reads));
            }
        } else {
            consecutive = 0;
        }
        wait();
        polls = polls + 1;
    }
    proof {
        if reads.len() > 0 {
            assert(reads.take(reads.len() as int) =~= reads);
        }
    }
    (false, Ghost(reads))
}

/// A poll answers that focus is stable only when it ends on at least
/// `stable_reads` exact reads in a row, and at least one; it answers that
/// focus is not stable only after `max_polls` reads none of which completed
/// such a run.
pub proof fn lemma_stable_poll_needs_run(reads: Seq<bool>, max_polls: nat, stable_reads: nat, stable: bool)
    requires
        poll_outcome(reads, max_polls, reads_needed(stable_reads), stable),
    ensures
        stable ==> trailing_run(reads) >= stable_reads && trailing_run(reads) >= 1,
        !stable ==> reads.len() == max_polls && forall|i: int|
            0 < i <= reads.len() ==> trailing_run(#[trigger] reads.take(i)) < stable_reads || trailing_run(
                reads.take(i),
            ) == 0,
{
    if !stable {
        assert forall|i: int| 0 < i <= reads.len() implies trailing_run(#[trigger] reads.take(i)) < stable_reads
            || trailing_run(reads.take(i)) == 0 by {
            if i == reads.len() {
                assert(reads.take(i) =~= reads);
            }
        }
    }
}

/// Whether focus already sits on the composer: the read-back must be exact,
/// and, when more than one read is required, exact again after a wait.
pub fn stable_exact_focus<V, W>(stable_reads: usize, exact_focus: &mut V, wait: &mut W) -> (r: (
    bool,
    Ghost<Seq<bool>>,
)) where V: FnMut() -> bool, W: FnMut()
    requires
        forall|f: V| call_requires(f, ()),
        forall|f: W| call_requires(f, ()),
    ensures
        stable_check_outcome(r.1@, stable_reads as nat, r.0),
        reads_possible::<V>(r.1@),
{
    let ghost g1 = *exact_focus;
    let first = exact_focus();
    let ghost one = seq![first];
    assert(call_ensures(g1, (), first));
    assert(read_possible::<V>(one[0]));
    if !first {
        return (false, Ghost(one));
    }
    wait();
    if stable_reads <= 1 {
        return (true, Ghost(one));
    }
    let ghost g2 = *exact_focus;
    let second = exact_focus();
    let ghost two = seq![first, second];
    assert(call_ensures(g2, (), second));
    assert(read_possible::<V>(two[0]) && read_possible::<V>(two[1]));
    (second, Ghost(two))
}

/// How one run of [`focus_and_verify`] went: the environment's answers (the
/// frontmost state, whether activating, raising, setting focus, hit-testing and
/// clicking succeeded, and the read-backs of the initial check and of the two
/// polls) are each consistent with their step, and `r` is what they decide.
pub open spec fn focus_explained(
    o: FocusOptions,
    r: Result<(), FocusError>,
    front: FocusFrontmost,
    activate_ok: bool,
    raise_ok: bool,
    set_ok: bool,
    hit_ok: bool,
    click_ok: bool,
    already: bool,
    after_set: bool,
    after_click: bool,
    check_reads: Seq<bool>,
    set_reads: Seq<bool>,
    click_reads: Seq<bool>,
) -> bool {
    &&& stable_check_outcome(check_reads, o.stable_reads as nat, already)
    &&& poll_outcome(set_reads, o.max_polls as nat, reads_needed(o.stable_reads as nat), after_set)
    &&& poll_outcome(
        click_reads,
        o.max_polls as nat,
        reads_needed(o.stable_reads as nat),
        after_click,
    )
    &&& r == focus_result(
        o,
        front,
        activate_ok,
        raise_ok,
        set_ok,
        hit_ok,
        click_ok,
        already,
        after_set,
        after_click,
    )
}

/// Each answer that decided a run of [`focus_and_verify`] is one its step's
/// operation may give: the frontmost state always; activating and raising
/// when the prompt drawer was in front; the read-backs of the initial check
/// once the target is in front; setting focus when focus was not already
/// stable, and the read-backs after it when it succeeded; hit-testing,
/// clicking and the read-backs after the click as far as the click path went.
pub open spec fn focus_calls<F, A, R, S, V, H, C>(
    o: FocusOptions,
    front: FocusFrontmost,
    activate_ok: bool,
    raise_ok: bool,
    set_ok: bool,
    hit_ok: bool,
    click_ok: bool,
    already: bool,
    after_set: bool,
    check_reads: Seq<bool>,
    set_reads: Seq<bool>,
    click_reads: Seq<bool>,
) -> bool where
    F: FnMut() -> FocusFrontmost,
    A: FnMut() -> bool,
    R: FnMut() -> bool,
    S: FnMut() -> bool,
    V: FnMut() -> bool,
    H: FnMut() -> bool,
    C: FnMut() -> bool,
 {
    let in_front = front == FocusFrontmost::Target || (front == FocusFrontmost::PromptDrawer
        && activate_ok && raise_ok);
    let clicks = in_front && !already && !(set_ok && after_set) && o.click_fallback_permitted && !(
    o.candidate_contains_text && !o.caret_policy_proven);
    &&& exists|f: F| #[trigger] call_ensures(f, (), front)
    &&& (front == FocusFrontmost::PromptDrawer ==> exists|f: A| #[trigger] call_ensures(f, (), activate_ok))
    &&& (front == FocusFrontmost::PromptDrawer && activate_ok ==> exists|f: R| #[trigger] call_ensures(f, (), raise_ok))
    &&& (in_front ==> reads_possible::<V>(check_reads))
    &&& (in_front && !already ==> exists|f: S| #[trigger] call_ensures(f, (), set_ok))
    &&& (in_front && !already && set_ok ==> reads_possible::<V>(set_reads))
    &&& (clicks ==> exists|f: H| #[trigger] call_ensures(f, (), hit_ok))
    &&& (clicks && hit_ok ==> exists|f: C| #[trigger] call_ensures(f, (), click_ok))
    &&& (clicks && hit_ok && click_ok ==> reads_possible::<V>(click_reads))
}

/// Brings the target forward if the prompt drawer is in front, then makes sure
/// the composer holds a stable, verified focus: first as it is, then after
/// setting focus through accessibility, and last, where the options permit it,
/// after a hit-tested click.
pub fn focus_and_verify<F, A, R, S, V, H, C, W>(
    options: FocusOptions,
    mut frontmost: F,
    mut activate: A,
    mut raise_window: R,
    mut set_focused: S,
    mut exact_focus: V,
    mut hit_test_matches: H,
    mut click_candidate: C,
    mut wait: W,
) -> (r: Result<(), FocusError>) where
    F: FnMut() -> FocusFrontmost,
    A: FnMut() -> bool,
    R: FnMut() -> bool,
    S: FnMut() -> bool,
    V: FnMut() -> bool,
    H: FnMut() -> bool,
    C: FnMut() -> bool,
    W: FnMut(),

    requires
        forall|f: F| call_requires(f, ()),
        forall|f: A| call_requires(f, ()),
        forall|f: R| call_requires(f, ()),
        forall|f: S| call_requires(f, ()),
        forall|f: V| call_requires(f, ()),
        forall|f: H| call_requires(f, ()),
        forall|f: C| call_requires(f, ()),
        forall|f: W| call_requires(f, ()),
    ensures
        exists|
            front: FocusFrontmost,
            activate_ok: bool,
            raise_ok: bool,
            set_ok: bool,
            hit_ok: bool,
            click_ok: bool,
            already: bool,
            after_set: bool,
            after_click: bool,
            check_reads: Seq<bool>,
            set_reads: Seq<bool>,
            click_reads: Seq<bool>,
        |
            #[trigger] focus_explained(
                options,
                r,
                front,
                activate_ok,
                raise_ok,
                set_ok,
                hit_ok,
                click_ok,
                already,
                after_set,
                after_click,
                check_reads,
                set_reads,
                click_reads,
            ) && focus_calls::<F, A, R, S, V, H, C>(
                options,
                front,
                activate_ok,
                raise_ok,
                set_ok,
                hit_ok,
                click_ok,
                already,
                after_set,
                check_reads,
                set_reads,
                click_reads,
            ),
{
    let ghost o = options;
    let ghost needed = reads_needed(options.stable_reads as nat);
    proof {
        lemma_poll_outcome_exists(o.max_polls as nat, needed);
    }
    let ghost never: Seq<bool> = choose|s: Seq<bool>| poll_outcome(s, o.max_polls as nat, needed, false);
    let ghost no_check: Seq<bool> = seq![false];
    let ghost gf = frontmost;
    let front = frontmost();
    assert(call_ensures(gf, (), front));
    match front {
        FocusFrontmost::Target => {},
        FocusFrontmost::PromptDrawer => {
            let ghost ga = activate;
            let act = activate();
            assert(call_ensures(ga, (), act));
            if !act {
                let r = Err(FocusError::ActivationFailed);
                assert(focus_explained(o, r, front, false, true, false, false, false, false, false, false, no_check, never, never));
                assert(focus_calls::<F, A, R, S, V, H, C>(o, front, false, true, false, false, false, false, false, no_check, never, never));
                return r;
            }
            let ghost gr = raise_window;
            let raised = raise_window();
            assert(call_ensures(gr, (), raised));
            if !raised {
                let r = Err(FocusError::RaiseFailed);
                assert(focus_explained(o, r, front, true, false, false, false, false, false, false, false, no_check, never, never));
                assert(focus_calls::<F, A, R, S, V, H, C>(o, front, true, false, false, false, false, false, false, no_check, never, never));
                return r;
            }
        },
        FocusFrontmost::Other => {
            let r = Err(FocusError::UserSwitchedApplication);
            assert(focus_explained(o, r, front, true, true, false, false, false, false, false, false, no_check, never, never));
            assert(focus_calls::<F, A, R, S, V, H, C>(o, front, true, true, false, false, false, false, false, no_check, never, never));
            return r;
        },
    }
    let (already, check_reads) = stable_exact_focus(options.stable_reads, &mut exact_focus, &mut wait);
    let ghost cr = check_reads@;
    if already {
        let r = Ok(());
        assert(focus_explained(o, r, front, true, true, false, false, false, true, false, false, cr, never, never));
        assert(focus_calls::<F, A, R, S, V, H, C>(o, front, true, true, false, false, false, true, false, cr, never, never));
        return r;
    }
    let ghost gs = set_focused;
    let set_ok = set_focused();
    assert(call_ensures(gs, (), set_ok));
    let mut after_set = false;
    let ghost mut sr: Seq<bool> = never;
    if set_ok {
        let (stable, reads) = poll_for_stable_focus(
            options.max_polls,
            options.stable_reads,
            &mut exact_focus,
            &mut wait,
        );
        after_set = stable;
        proof {
            sr = reads@;
        }
        if stable {
            let r = Ok(());
            assert(focus_explained(o, r, front, true, true, true, false, false, false, true, false, cr, sr, never));
            assert(focus_calls::<F, A, R, S, V, H, C>(o, front, true, true, true, false, false, false, true, cr, sr, never));
            return r;
        }
    }
    if !options.click_fallback_permitted {
        let r = Err(FocusError::FocusRejected);
        assert(focus_explained(o, r, front, true, true, set_ok, false, false, false, after_set, false, cr, sr, never));
        assert(focus_calls::<F, A, R, S, V, H, C>(o, front, true, true, set_ok, false, false, false, after_set, cr, sr, never));
        return r;
    }
    if options.candidate_contains_text && !options.caret_policy_proven {
        let r = Err(FocusError::ExistingTextCaretUnknown);
        assert(focus_explained(o, r, front, true, true, set_ok, false, false, false, after_set, false, cr, sr, never));
        assert(focus_calls::<F, A, R, S, V, H, C>(o, front, true, true, set_ok, false, false, false, after_set, cr, sr, never));
        return r;
    }
    let ghost gh = hit_test_matches;
    let hit = hit_test_matches();
    assert(call_ensures(gh, (), hit));
    if !hit {
        let r = Err(FocusError::ClickNotVerified);
        assert(focus_explained(o, r, front, true, true, set_ok, false, false, false, after_set, false, cr, sr, never));
        assert(focus_calls::<F, A, R, S, V, H, C>(o, front, true, true, set_ok, false, false, false, after_set, cr, sr, never));
        return r;
    }
    let ghost gc = click_candidate;
    let clicked = click_candidate();
    assert(call_ensures(gc, (), clicked));
    if !clicked {
        let r = Err(FocusError::ClickNotVerified);
        assert(focus_explained(o, r, front, true, true, set_ok, true, false, false, after_set, false, cr, sr, never));
        assert(focus_calls::<F, A, R, S, V, H, C>(o, front, true, true, set_ok, true, false, false, after_set, cr, sr, never));
        return r;
    }
    let (after_click, click_reads) = poll_for_stable_focus(
        options.max_polls,
        options.stable_reads,
        &mut exact_focus,
        &mut wait,
    );
    let ghost kr = click_reads@;
    let r = if after_click {
        Ok(())
    } else {
        Err(FocusError::FocusUnstable)
    };
    assert(focus_explained(o, r, front, true, true, set_ok, true, true, false, after_set, after_click, cr, sr, kr));
    assert(focus_calls::<F, A, R, S, V, H, C>(o, front, true, true, set_ok, true, true, false, after_set, cr, sr, kr));
    r
}

/// Every poll limit admits a sequence of read-backs that never stabilises.
proof fn lemma_poll_outcome_exists(max_polls: nat, needed: nat)
    requires
        needed >= 1,
    ensures
        exists|s: Seq<bool>| poll_outcome(s, max_polls, needed, false),
{
    let s = Seq::new(max_polls, |i: int| false);
    assert forall|i: int| 0 < i <= s.len() implies trailing_run(#[trigger] s.take(i)) < needed by {
        assert(s.take(i).last() == false);
    }
    if s.len() > 0 {
        assert(s.take(s.len() as int) =~= s);
    }
    assert(poll_outcome(s, max_polls, needed, false));
}


/// A third application in front aborts focusing, whatever else the
/// environment would have answered.
pub proof fn lemma_third_app_aborts(
    o: FocusOptions,
    r: Result<(), FocusError>,
    activate_ok: bool,
    raise_ok: bool,
    set_ok: bool,
    hit_ok: bool,
    click_ok: bool,
    already: bool,
    after_set: bool,
    after_click: bool,
    check_reads: Seq<bool>,
    set_reads: Seq<bool>,
    click_reads: Seq<bool>,
)
    requires
        focus_explained(o, r, FocusFrontmost::Other, activate_ok, raise_ok, set_ok, hit_ok, click_ok, already, after_set, after_click, check_reads, set_reads, click_reads),
    ensures
        r == Err::<(), FocusError>(FocusError::UserSwitchedApplication),
{
}

/// Focusing succeeds only on a verified read-back: either the initial check
/// saw exact focus (twice where more than one read is asked for), or one of the
/// polls ended on a run of the required number of exact reads.
pub proof fn lemma_success_is_verified(
    o: FocusOptions,
    r: Result<(), FocusError>,
    front: FocusFrontmost,
    activate_ok: bool,
    raise_ok: bool,
    set_ok: bool,
    hit_ok: bool,
    click_ok: bool,
    already: bool,
    after_set: bool,
    after_click: bool,
    check_reads: Seq<bool>,
    set_reads: Seq<bool>,
    click_reads: Seq<bool>,
)
    requires
        focus_explained(o, r, front, activate_ok, raise_ok, set_ok, hit_ok, click_ok, already, after_set, after_click, check_reads, set_reads, click_reads),
        r is Ok,
    ensures
        front != FocusFrontmost::Other,
        (already && check_reads[0] && (o.stable_reads <= 1 || check_reads[1]))
            || (set_ok && trailing_run(set_reads) >= reads_needed(o.stable_reads as nat))
            || (o.click_fallback_permitted && hit_ok && click_ok && trailing_run(click_reads)
                >= reads_needed(o.stable_reads as nat)),
{
}

/// Without permission for the click fallback nothing is clicked: the result is
/// never one that only the click path gives.
pub proof fn lemma_no_click_without_permission(
    o: FocusOptions,
    r: Result<(), FocusError>,
    front: FocusFrontmost,
    activate_ok: bool,
    raise_ok: bool,
    set_ok: bool,
    hit_ok: bool,
    click_ok: bool,
    already: bool,
    after_set: bool,
    after_click: bool,
)
    requires
        !o.click_fallback_permitted,
        r == focus_result(o, front, activate_ok, raise_ok, set_ok, hit_ok, click_ok, already, after_set, after_click),
    ensures
        r != Err::<(), FocusError>(FocusError::ClickNotVerified),
        r != Err::<(), FocusError>(FocusError::ExistingTextCaretUnknown),
        r != Err::<(), FocusError>(FocusError::FocusUnstable),
        r == focus_result(o, front, activate_ok, raise_ok, set_ok, !hit_ok, !click_ok, already, after_set, !after_click),
{
}

/// A composer that already holds text is never clicked unless the caret policy
/// is known: the hit test, the click and the poll after it decide nothing.
pub proof fn lemma_text_needs_caret_policy(
    o: FocusOptions,
    front: FocusFrontmost,
    activate_ok: bool,
    raise_ok: bool,
    set_ok: bool,
    hit_ok: bool,
    click_ok: bool,
    already: bool,
    after_set: bool,
    after_click: bool,
)
    requires
        o.candidate_contains_text,
        !o.caret_policy_proven,
    ensures
        focus_result(o, front, activate_ok, raise_ok, set_ok, hit_ok, click_ok, already, after_set, after_click)
            == focus_result(o, front, activate_ok, raise_ok, set_ok, !hit_ok, !click_ok, already, after_set, !after_click),
        focus_result(o, front, activate_ok, raise_ok, set_ok, hit_ok, click_ok, already, after_set, after_click)
            != Err::<(), FocusError>(FocusError::ClickNotVerified),
{
}

/// A composer that already holds stable focus is kept as it is: setting
/// focus, hit-testing and clicking decide nothing.
pub proof fn lemma_already_focused_kept(
    o: FocusOptions,
    front: FocusFrontmost,
    set_ok: bool,
    hit_ok: bool,
    click_ok: bool,
    after_set: bool,
    after_click: bool,
)
    requires
        front != FocusFrontmost::Other,
    ensures
        focus_result(o, front, true, true, set_ok, hit_ok, click_ok, true, after_set, after_click) == Ok::<(), FocusError>(()),
{
}

} // verus!
