//! The ordered steps of delivering one prompt to a target composer.
//!
//! A delivery validates the target, resolves and focuses the composer, writes
//! the clipboard, re-validates, posts the paste shortcut and, unless the prompt
//! is only inserted, verifies the paste and posts the submit key. The first step
//! that fails ends the transaction; nothing is retried.
use super::NativeSubmitKey;
use vstd::prelude::*;

verus! {

#[derive(Clone, Copy, Debug, PartialEq, Eq, Structural)]
pub enum AutosendPhase {
    ValidateTarget,
    ResolveComposer,
    FocusComposer,
    VerifyFocus,
    Paste,
    VerifyAfterPaste,
    Submit,
    Complete,
    Aborted,
}

#[derive(Clone, Copy, Debug, PartialEq, Eq, Structural)]
pub enum TransactionFailure {
    TargetChanged,
    ComposerUnavailable,
    FocusNotAcquired,
    ClipboardWriteFailed,
    PasteEventFailed,
    PasteNotConfirmed,
    SubmitEventFailed,
}

/// The operation a transaction asks its caller to perform next.
#[derive(Clone, Copy, Debug, PartialEq, Eq, Structural)]
pub enum TransactionOp {
    ValidateTarget,
    ResolveComposer,
    FocusComposer,
    RevalidateFocus,
    WriteClipboard,
    PostPaste,
    VerifyPaste,
    PostSubmit,
}

#[derive(Clone, Debug, PartialEq, Eq)]
pub struct TransactionResult {
    pub phases: Vec<AutosendPhase>,
    pub clipboard_written: bool,
    pub paste_posted: bool,
    pub submit_posted: bool,
    pub failure: Option<TransactionFailure>,
}

/// The mathematical content of a transaction result.
pub ghost struct TransactionModel {
    pub phases: Seq<AutosendPhase>,
    pub clipboard_written: bool,
    pub paste_posted: bool,
    pub submit_posted: bool,
    pub failure: Option<TransactionFailure>,
}

impl View for TransactionResult {
    type V = TransactionModel;

    open spec fn view(&self) -> TransactionModel {
        TransactionModel {
            phases: self.phases@,
            clipboard_written: self.clipboard_written,
            paste_posted: self.paste_posted,
            submit_posted: self.submit_posted,
            failure: self.failure,
        }
    }
}

/// Number of operations of a transaction that runs to its end.
pub open spec fn transaction_len(key: NativeSubmitKey) -> nat {
    if key == NativeSubmitKey::NoKey {
        8
    } else {
        12
    }
}

/// The operation performed at position `i` of a transaction.
pub open spec fn scheduled_op(i: int) -> TransactionOp {
    if i == 0 || i == 5 || i == 9 {
        TransactionOp::ValidateTarget
    } else if i == 1 {
        TransactionOp::ResolveComposer
    } else if i == 2 {
        TransactionOp::FocusComposer
    } else if i == 3 || i == 6 || i == 10 {
        TransactionOp::RevalidateFocus
    } else if i == 4 {
        TransactionOp::WriteClipboard
    } else if i == 7 {
        TransactionOp::PostPaste
    } else if i == 8 {
        TransactionOp::VerifyPaste
    } else {
        TransactionOp::PostSubmit
    }
}

/// The failure reported when the operation at position `i` answers `false`.
pub open spec fn op_failure(i: int) -> TransactionFailure {
    if i == 0 || i == 5 || i == 6 || i == 9 || i == 10 {
        TransactionFailure::TargetChanged
    } else if i == 1 {
        TransactionFailure::ComposerUnavailable
    } else if i == 2 || i == 3 {
        TransactionFailure::FocusNotAcquired
    } else if i == 4 {
        TransactionFailure::ClipboardWriteFailed
    } else if i == 7 {
        TransactionFailure::PasteEventFailed
    } else if i == 8 {
        TransactionFailure::PasteNotConfirmed
    } else {
        TransactionFailure::SubmitEventFailed
    }
}

/// The phases recorded when the operation at position `i` starts.
pub open spec fn phase_entered(i: int) -> Seq<AutosendPhase> {
    if i == 0 {
        seq![AutosendPhase::ValidateTarget]
    } else if i == 1 {
        seq![AutosendPhase::ResolveComposer]
    } else if i == 2 {
        seq![AutosendPhase::FocusComposer]
    } else if i == 3 || i == 5 || i == 9 {
        seq![AutosendPhase::VerifyFocus]
    } else if i == 7 {
        seq![AutosendPhase::Paste]
    } else if i == 8 {
        seq![AutosendPhase::VerifyAfterPaste]
    } else if i == 11 {
        seq![AutosendPhase::Submit]
    } else {
        seq![]
    }
}

/// The phases recorded by the first `n` operations.
pub open spec fn phases_entered(n: nat) -> Seq<AutosendPhase>
    decreases n,
{
    if n == 0 {
        seq![]
    } else {
        phases_entered((n - 1) as nat) + phase_entered(n - 1)
    }
}

/// `answers` are the answers of the operations of one transaction that ran to
/// its end: every answer but the last is `true`, and the transaction stopped
/// either at its first `false` or after its last operation.
pub open spec fn answers_complete(key: NativeSubmitKey, answers: Seq<bool>) -> bool {
    &&& answers.len() <= transaction_len(key)
    &&& forall|i: int| 0 <= i && i + 1 < answers.len() ==> #[trigger] answers[i]
    &&& answers.len() == transaction_len(key) || (answers.len() > 0 && !answers.last())
}

/// The result of a transaction whose operations answered `answers`.
pub open spec fn transaction_model(key: NativeSubmitKey, answers: Seq<bool>) -> TransactionModel {
    let n = answers.len();
    let failed = n > 0 && !answers[n - 1];
    TransactionModel {
        phases: phases_entered(n) + seq![
            if failed {
                AutosendPhase::Aborted
            } else {
                AutosendPhase::Complete
            },
        ],
        clipboard_written: n > 4 && answers[4],
        paste_posted: n > 7 && answers[7],
        submit_posted: n > 11 && answers[11],
        failure: if failed {
            Some(op_failure(n - 1))
        } else {
            None
        },
    }
}

/// A transaction in progress: it names the next operation to perform and takes
/// the answer of each operation in turn.
pub struct TransactionMachine {
    submit_key: NativeSubmitKey,
    step: usize,
    stopped: bool,
    result: TransactionResult,
    answers: Ghost<Seq<bool>>,
}

impl TransactionMachine {
    pub closed spec fn key(&self) -> NativeSubmitKey {
        self.submit_key
    }

    /// The answers taken so far.
    pub closed spec fn answers(&self) -> Seq<bool> {
        self.answers@
    }

    /// No operation remains: the last answer was `false` or every operation ran.
    pub open spec fn is_finished(&self) -> bool {
        self.answers().len() == transaction_len(self.key()) || (self.answers().len() > 0
            && !self.answers().last())
    }

    pub closed spec fn wf(&self) -> bool {
        let n = self.answers@.len();
        &&& self.step == n
        &&& n <= transaction_len(self.submit_key)
        &&& forall|i: int| 0 <= i && i + 1 < n ==> #[trigger] self.answers@[i]
        &&& self.stopped == (n > 0 && !self.answers@[n - 1])
        &&& self.result.phases@ == phases_entered(n)
        &&& self.result.clipboard_written == (n > 4 && self.answers@[4])
        &&& self.result.paste_posted == (n > 7 && self.answers@[7])
        &&& self.result.submit_posted == (n > 11 && self.answers@[11])
        &&& self.result.failure == (if self.stopped {
            Some(op_failure(n - 1))
        } else {
            None::<TransactionFailure>
        })
    }

    pub fn new(submit_key: NativeSubmitKey) -> (m: Self)
        ensures
            m.wf(),
            m.key() == submit_key,
            m.answers() == Seq::<bool>::empty(),
    {
        TransactionMachine {
            submit_key,
            step: 0,
            stopped: false,
            result: TransactionResult {
                phases: Vec::new(),
                clipboard_written: false,
                paste_posted: false,
                submit_posted: false,
                failure: None,
            },
            answers: Ghost(Seq::empty()),
        }
    }

    /// The operation to perform next, or `None` once the transaction is over.
    pub fn next_op(&self) -> (op: Option<TransactionOp>)
        requires
            self.wf(),
        ensures
            op is None <==> self.is_finished(),
            op matches Some(o) ==> o == scheduled_op(self.answers().len() as int),
            op is Some ==> self.answers().len() < transaction_len(self.key()),
    {
        let len: usize = if self.submit_key == NativeSubmitKey::NoKey {
            8
        } else {
            12
        };
        if self.stopped || self.step == len {
            return None;
        }
        let i = self.step;
        Some(
            if i == 0 || i == 5 || i == 9 {
                TransactionOp::ValidateTarget
            } else if i == 1 {
                TransactionOp::ResolveComposer
            } else if i == 2 {
                TransactionOp::FocusComposer
            } else if i == 3 || i == 6 || i == 10 {
                TransactionOp::RevalidateFocus
            } else if i == 4 {
                TransactionOp::WriteClipboard
            } else if i == 7 {
                TransactionOp::PostPaste
            } else if i == 8 {
                TransactionOp::VerifyPaste
            } else {
                TransactionOp::PostSubmit
            },
        )
    }

    /// Takes the answer of the operation that `next_op` named.
    pub fn advance(&mut self, ok: bool)
        requires
            old(self).wf(),
            !old(self).is_finished(),
        ensures
            final(self).wf(),
            final(self).key() == old(self).key(),
            final(self).answers() == old(self).answers().push(ok),
    {
        let i = self.step;
        let ghost n = self.answers@.len();
        if i == 0 {
            self.result.phases.push(AutosendPhase::ValidateTarget);
        } else if i == 1 {
            self.result.phases.push(AutosendPhase::ResolveComposer);
        } else if i == 2 {
            self.result.phases.push(AutosendPhase::FocusComposer);
        } else if i == 3 || i == 5 || i == 9 {
            self.result.phases.push(AutosendPhase::VerifyFocus);
        } else if i == 7 {
            self.result.phases.push(AutosendPhase::Paste);
        } else if i == 8 {
            self.result.phases.push(AutosendPhase::VerifyAfterPaste);
        } else if i == 11 {
            self.result.phases.push(AutosendPhase::Submit);
        }
        assert(self.result.phases@ == phases_entered((n + 1) as nat));
        if ok {
            if i == 4 {
                self.result.clipboard_written = true;
            } else if i == 7 {
                self.result.paste_posted = true;
            } else if i == 11 {
                self.result.submit_posted = true;
            }
        } else {
            self.stopped = true;
            self.result.failure = Some(
                if i == 0 || i == 5 || i == 6 || i == 9 || i == 10 {
                    TransactionFailure::TargetChanged
                } else if i == 1 {
                    TransactionFailure::ComposerUnavailable
                } else if i == 2 || i == 3 {
                    TransactionFailure::FocusNotAcquired
                } else if i == 4 {
                    TransactionFailure::ClipboardWriteFailed
                } else if i == 7 {
                    TransactionFailure::PasteEventFailed
                } else if i == 8 {
                    TransactionFailure::PasteNotConfirmed
                } else {
                    TransactionFailure::SubmitEventFailed
                },
            );
        }
        self.step = i + 1;
        self.answers = Ghost(self.answers@.push(ok));
    }

    /// The result of a finished transaction.
    pub fn into_result(self) -> (r: TransactionResult)
        requires
            self.wf(),
            self.is_finished(),
        ensures
            answers_complete(self.key(), self.answers()),
            r@ == transaction_model(self.key(), self.answers()),
    {
        let mut result = self.result;
        let ghost n = self.answers@.len();
        if self.stopped {
            result.phases.push(AutosendPhase::Aborted);
            assert(result.phases@ =~= phases_entered(n) + seq![AutosendPhase::Aborted]);
        } else {
            result.phases.push(AutosendPhase::Complete);
            assert(result.phases@ =~= phases_entered(n) + seq![AutosendPhase::Complete]);
        }
        result
    }
}

/// Whether `a` is an answer that the operation scheduled at position `i` may
/// give: some operation of its caller's type, called as the transaction calls
/// it (the submit with the transaction's submit key), answers `a`.
pub open spec fn op_answer_possible<V, R, F, C, K, P, E, S>(key: NativeSubmitKey, i: int, a: bool) -> bool where
    V: FnMut() -> bool,
    R: FnMut() -> bool,
    F: FnMut() -> bool,
    C: FnMut() -> bool,
    K: FnMut() -> bool,
    P: FnMut() -> bool,
    E: FnMut() -> bool,
    S: FnMut(NativeSubmitKey) -> bool,
 {
    match scheduled_op(i) {
        TransactionOp::ValidateTarget => exists|f: V| #[trigger] call_ensures(f, (), a),
        TransactionOp::ResolveComposer => exists|f: R| #[trigger] call_ensures(f, (), a),
        TransactionOp::FocusComposer => exists|f: F| #[trigger] call_ensures(f, (), a),
        TransactionOp::RevalidateFocus => exists|f: K| #[trigger] call_ensures(f, (), a),
        TransactionOp::WriteClipboard => exists|f: C| #[trigger] call_ensures(f, (), a),
        TransactionOp::PostPaste => exists|f: P| #[trigger] call_ensures(f, (), a),
        TransactionOp::VerifyPaste => exists|f: E| #[trigger] call_ensures(f, (), a),
        TransactionOp::PostSubmit => exists|f: S| #[trigger] call_ensures(f, (key,), a),
    }
}

/// Runs one transaction, calling each operation in the order the transaction
/// names it, and reports where it stopped: the report is that of the answers
/// the operations gave, each the answer of the operation scheduled there.
pub fn run_transaction<V, R, F, C, K, P, E, S>(
    submit_key: NativeSubmitKey,
    mut validate_target: V,
    mut resolve_composer: R,
    mut focus_composer: F,
    mut write_clipboard: C,
    mut revalidate_focus: K,
    mut post_paste: P,
    mut verify_paste: E,
    mut post_submit: S,
) -> (r: TransactionResult) where
    V: FnMut() -> bool,
    R: FnMut() -> bool,
    F: FnMut() -> bool,
    C: FnMut() -> bool,
    K: FnMut() -> bool,
    P: FnMut() -> bool,
    E: FnMut() -> bool,
    S: FnMut(NativeSubmitKey) -> bool,

    requires
        forall|f: V| call_requires(f, ()),
        forall|f: R| call_requires(f, ()),
        forall|f: F| call_requires(f, ()),
        forall|f: C| call_requires(f, ()),
        forall|f: K| call_requires(f, ()),
        forall|f: P| call_requires(f, ()),
        forall|f: E| call_requires(f, ()),
        forall|f: S, k: NativeSubmitKey| call_requires(f, (k,)),
    ensures
        exists|answers: Seq<bool>|
            answers_complete(submit_key, answers) && r@ == transaction_model(submit_key, answers)
                && forall|i: int|
                0 <= i < answers.len() ==> op_answer_possible::<V, R, F, C, K, P, E, S>(
                    submit_key,
                    i,
                    #[trigger] answers[i],
                ),
{
    let mut machine = TransactionMachine::new(submit_key);
    loop
        invariant
            machine.wf(),
            machine.key() == submit_key,
            forall|f: V| call_requires(f, ()),
            forall|f: R| call_requires(f, ()),
            forall|f: F| call_requires(f, ()),
            forall|f: C| call_requires(f, ()),
            forall|f: K| call_requires(f, ()),
            forall|f: P| call_requires(f, ()),
            forall|f: E| call_requires(f, ()),
            forall|f: S, k: NativeSubmitKey| call_requires(f, (k,)),
            forall|i: int|
                0 <= i < machine.answers().len() ==> op_answer_possible::<V, R, F, C, K, P, E, S>(
                    submit_key,
                    i,
                    #[trigger] machine.answers()[i],
                ),
        ensures
            machine.wf(),
            machine.key() == submit_key,
            machine.is_finished(),
            forall|i: int|
                0 <= i < machine.answers().len() ==> op_answer_possible::<V, R, F, C, K, P, E, S>(
                    submit_key,
                    i,
                    #[trigger] machine.answers()[i],
                ),
        decreases transaction_len(submit_key) - machine.answers().len(),
    {
        let ghost n = machine.answers().len() as int;
        let ok = match machine.next_op() {
            None => break,
            Some(TransactionOp::ValidateTarget) => {
                let ghost g = validate_target;
                let a = validate_target();
                assert(call_ensures(g, (), a));
                a
            },
            Some(TransactionOp::ResolveComposer) => {
                let ghost g = resolve_composer;
                let a = resolve_composer();
                assert(call_ensures(g, (), a));
                a
            },
            Some(TransactionOp::FocusComposer) => {
                let ghost g = focus_composer;
                let a = focus_composer();
                assert(call_ensures(g, (), a));
                a
            },
            Some(TransactionOp::RevalidateFocus) => {
                let ghost g = revalidate_focus;
                let a = revalidate_focus();
                assert(call_ensures(g, (), a));
                a
            },
            Some(TransactionOp::WriteClipboard) => {
                let ghost g = write_clipboard;
                let a = write_clipboard();
                assert(call_ensures(g, (), a));
                a
            },
            Some(TransactionOp::PostPaste) => {
                let ghost g = post_paste;
                let a = post_paste();
                assert(call_ensures(g, (), a));
                a
            },
            Some(TransactionOp::VerifyPaste) => {
                let ghost g = verify_paste;
                let a = verify_paste();
                assert(call_ensures(g, (), a));
                a
            },
            Some(TransactionOp::PostSubmit) => {
                let ghost g = post_submit;
                let a = post_submit(submit_key);
                assert(call_ensures(g, (submit_key,), a));
                a
            },
        };
        assert(op_answer_possible::<V, R, F, C, K, P, E, S>(submit_key, n, ok));
        let ghost prev = machine.answers();
        machine.advance(ok);
        assert forall|i: int| 0 <= i < machine.answers().len() implies op_answer_possible::<V, R, F, C, K, P, E, S>(
            submit_key,
            i,
            #[trigger] machine.answers()[i],
        ) by {
            if i < n {
                assert(machine.answers()[i] == prev[i]);
            }
        }
    }
    let ghost answers = machine.answers();
    let r = machine.into_result();
    assert(answers_complete(submit_key, answers) && r@ == transaction_model(submit_key, answers));
    r
}


/// In every transaction that ran to its end, a submit was posted only after a
/// paste and then nothing failed, and a paste was posted only after the
/// clipboard was written.
pub proof fn lemma_transaction_effects_in_order(key: NativeSubmitKey, answers: Seq<bool>)
    requires
        answers_complete(key, answers),
    ensures
        transaction_model(key, answers).submit_posted ==> transaction_model(key, answers).paste_posted
            && transaction_model(key, answers).failure is None,
        transaction_model(key, answers).paste_posted ==> transaction_model(
            key,
            answers,
        ).clipboard_written,
{
    let n = answers.len();
    if n > 7 {
        assert(answers[4]);
    }
    if n > 11 {
        assert(answers[7]);
    }
}

/// The phases that the first `n` operations of an insert-only transaction record.
proof fn lemma_insert_only_phases(n: nat)
    requires
        n <= 8,
    ensures
        !phases_entered(n).contains(AutosendPhase::Submit),
        !phases_entered(n).contains(AutosendPhase::VerifyAfterPaste),
    decreases n,
{
    if n > 0 {
        lemma_insert_only_phases((n - 1) as nat);
        let prev = phases_entered((n - 1) as nat);
        let step = phase_entered(n - 1);
        assert(phases_entered(n) == prev + step);
        assert forall|i: int| 0 <= i < phases_entered(n).len() implies phases_entered(n)[i]
            != AutosendPhase::Submit && phases_entered(n)[i] != AutosendPhase::VerifyAfterPaste by {
            if i >= prev.len() {
                assert(phases_entered(n)[i] == step[i - prev.len()]);
            } else {
                assert(phases_entered(n)[i] == prev[i]);
            }
        }
    }
}

/// A transaction without a submit key never verifies the paste and never
/// posts a submit.
pub proof fn lemma_insert_only_never_submits(answers: Seq<bool>)
    requires
        answers_complete(NativeSubmitKey::NoKey, answers),
    ensures
        !transaction_model(NativeSubmitKey::NoKey, answers).submit_posted,
        !transaction_model(NativeSubmitKey::NoKey, answers).phases.contains(AutosendPhase::Submit),
        !transaction_model(NativeSubmitKey::NoKey, answers).phases.contains(
            AutosendPhase::VerifyAfterPaste,
        ),
{
    let m = transaction_model(NativeSubmitKey::NoKey, answers);
    let n = answers.len();
    lemma_insert_only_phases(n);
    let last = m.phases.last();
    assert(m.phases == phases_entered(n).push(last));
    assert forall|i: int| 0 <= i < m.phases.len() implies m.phases[i] != AutosendPhase::Submit
        && m.phases[i] != AutosendPhase::VerifyAfterPaste by {
        if i < phases_entered(n).len() {
            assert(m.phases[i] == phases_entered(n)[i]);
        }
    }
}

/// A transaction reports no failure exactly when every operation answered
/// `true`; it then wrote the clipboard, pasted, submitted exactly when a
/// submit key was requested, and ends with the `Complete` phase.
pub proof fn lemma_transaction_success(key: NativeSubmitKey, answers: Seq<bool>)
    requires
        answers_complete(key, answers),
    ensures
        transaction_model(key, answers).failure is None <==> (answers.len() == transaction_len(key)
            && forall|i: int| 0 <= i < answers.len() ==> #[trigger] answers[i]),
        transaction_model(key, answers).failure is None ==> {
            &&& transaction_model(key, answers).clipboard_written
            &&& transaction_model(key, answers).paste_posted
            &&& transaction_model(key, answers).submit_posted == (key != NativeSubmitKey::NoKey)
            &&& transaction_model(key, answers).phases.last() == AutosendPhase::Complete
        },
        transaction_model(key, answers).failure is Some ==> transaction_model(
            key,
            answers,
        ).phases.last() == AutosendPhase::Aborted,
{
    let n = answers.len();
    if transaction_model(key, answers).failure is None {
        assert forall|i: int| 0 <= i < answers.len() implies #[trigger] answers[i] by {
            if i + 1 < n {
            } else {
                assert(i == n - 1);
            }
        }
    }
}

/// A paste that could not be confirmed was posted once and is never followed
/// by a submit.
pub proof fn lemma_unconfirmed_paste_stops(key: NativeSubmitKey, answers: Seq<bool>)
    requires
        answers_complete(key, answers),
        transaction_model(key, answers).failure == Some(TransactionFailure::PasteNotConfirmed),
    ensures
        transaction_model(key, answers).paste_posted,
        !transaction_model(key, answers).submit_posted,
        answers.len() == 9,
{
    let n = answers.len();
    assert(n - 1 == 8);
    assert(answers[7]);
}

/// Within one transaction the paste and the submit are each scheduled once,
/// and the clipboard is written only after the composer was focused and that
/// focus verified.
pub proof fn lemma_schedule_posts_once(key: NativeSubmitKey)
    ensures
        forall|i: int, j: int|
            0 <= i < transaction_len(key) && 0 <= j < transaction_len(key) && scheduled_op(i)
                == TransactionOp::PostPaste && scheduled_op(j) == TransactionOp::PostPaste ==> i
                == j,
        forall|i: int, j: int|
            0 <= i < transaction_len(key) && 0 <= j < transaction_len(key) && scheduled_op(i)
                == TransactionOp::PostSubmit && scheduled_op(j) == TransactionOp::PostSubmit ==> i
                == j,
        forall|i: int|
            0 <= i < transaction_len(key) && scheduled_op(i) == TransactionOp::WriteClipboard
                ==> i == 4,
        scheduled_op(2) == TransactionOp::FocusComposer,
        scheduled_op(3) == TransactionOp::RevalidateFocus,
        scheduled_op(7) == TransactionOp::PostPaste,
        key == NativeSubmitKey::NoKey ==> forall|i: int|
            0 <= i < transaction_len(key) ==> scheduled_op(i) != TransactionOp::PostSubmit
                && scheduled_op(i) != TransactionOp::VerifyPaste,
{
}

} // verus!
