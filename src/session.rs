//! Whole runs of the lock sequence: the stages that a stream of events leads
//! through, and what holds along every such run.

use vstd::prelude::*;
use crate::input::Input;
use crate::screens::{lock_of, question_views, screen_spec};
use crate::sequencer::{answers_of, next_stage, Answer, AskPhase, McQuestion, Stage};

verus! {

/// How far the sequence has come at stage `s`, for `n` questions: each
/// question counts twice, once while it is asked (or after a wrong answer) and
/// once more when it is passed.
pub open spec fn progress(n: nat, s: Stage) -> int {
    match s {
        Stage::Welcome => 0,
        Stage::Cutscene => 1,
        Stage::Question { index, phase } => if phase == AskPhase::Passed {
            3 + 2 * index
        } else {
            2 + 2 * index
        },
        Stage::FinalLock { .. } => 2 * n as int + 2,
        Stage::Exit => 2 * n as int + 3,
    }
}

/// A question stage names one of the `n` questions.
pub open spec fn in_range(n: nat, s: Stage) -> bool {
    s is Question ==> s->Question_index < n
}

/// The stage after event `ev`: the next one, or `s` itself when `ev` is discarded.
pub open spec fn after(answers: Seq<Answer>, s: Stage, ev: Input) -> Stage {
    match next_stage(answers, s, ev) {
        Some(t) => t,
        None => s,
    }
}

/// The stages that the events `evs` lead through from `s`, `s` first.
pub open spec fn trace(answers: Seq<Answer>, s: Stage, evs: Seq<Input>) -> Seq<Stage>
    decreases evs.len(),
{
    if evs.len() == 0 {
        seq![s]
    } else {
        seq![s] + trace(answers, after(answers, s, evs[0]), evs.drop_first())
    }
}

proof fn lemma_step(answers: Seq<Answer>, s: Stage, ev: Input)
    requires
        answers.len() <= usize::MAX,
        in_range(answers.len(), s),
    ensures
        in_range(answers.len(), after(answers, s, ev)),
        progress(answers.len(), s) <= progress(answers.len(), after(answers, s, ev)) <= progress(
            answers.len(),
            s,
        ) + 1,
{
}

proof fn lemma_lock_follows_progress(n: nat, a: Stage, b: Stage)
    requires
        in_range(n, a),
        in_range(n, b),
        progress(n, a) <= progress(n, b),
    ensures
        lock_of(n, a) <= lock_of(n, b),
{
}

proof fn lemma_trace(answers: Seq<Answer>, s: Stage, evs: Seq<Input>)
    requires
        answers.len() <= usize::MAX,
        in_range(answers.len(), s),
    ensures
        trace(answers, s, evs).len() == evs.len() + 1,
        trace(answers, s, evs)[0] == s,
        forall|i: int|
            0 <= i < trace(answers, s, evs).len() ==> in_range(
                answers.len(),
                #[trigger] trace(answers, s, evs)[i],
            ),
        forall|i: int, j: int|
            0 <= i <= j < trace(answers, s, evs).len() ==> progress(
                answers.len(),
                #[trigger] trace(answers, s, evs)[i],
            ) <= progress(answers.len(), #[trigger] trace(answers, s, evs)[j]),
        forall|i: int|
            0 <= i < trace(answers, s, evs).len() - 1 ==> progress(
                answers.len(),
                #[trigger] trace(answers, s, evs)[i + 1],
            ) <= progress(answers.len(), trace(answers, s, evs)[i]) + 1,
    decreases evs.len(),
{
    let n = answers.len();
    if evs.len() > 0 {
        let t = after(answers, s, evs[0]);
        lemma_step(answers, s, evs[0]);
        lemma_trace(answers, t, evs.drop_first());
        let tr = trace(answers, s, evs);
        let rest = trace(answers, t, evs.drop_first());
        assert(tr =~= seq![s] + rest);
        assert forall|i: int| 0 <= i < tr.len() implies in_range(n, #[trigger] tr[i]) by {
            if i > 0 {
                assert(tr[i] == rest[i - 1]);
            }
        }
        assert forall|i: int, j: int| 0 <= i <= j < tr.len() implies progress(
            n,
            #[trigger] tr[i],
        ) <= progress(n, #[trigger] tr[j]) by {
            if i == 0 && j > 0 {
                assert(tr[j] == rest[j - 1]);
                assert(progress(n, rest[0]) <= progress(n, rest[j - 1]));
            } else if i > 0 {
                assert(tr[i] == rest[i - 1]);
                assert(tr[j] == rest[j - 1]);
            }
        }
        assert forall|i: int| 0 <= i < tr.len() - 1 implies progress(n, #[trigger] tr[i + 1])
            <= progress(n, tr[i]) + 1 by {
            assert(tr[i + 1] == rest[i]);
            if i > 0 {
                assert(tr[i] == rest[i - 1]);
                let m = i - 1;
                assert(progress(n, rest[m + 1]) <= progress(n, rest[m]) + 1);
                assert(m + 1 == i);
            }
        }
    }
}

proof fn lemma_reaches(answers: Seq<Answer>, s: Stage, evs: Seq<Input>, v: int) -> (i: int)
    requires
        answers.len() <= usize::MAX,
        in_range(answers.len(), s),
        progress(answers.len(), s) <= v <= progress(answers.len(), trace(answers, s, evs).last()),
    ensures
        0 <= i < trace(answers, s, evs).len(),
        progress(answers.len(), trace(answers, s, evs)[i]) == v,
    decreases evs.len(),
{
    lemma_trace(answers, s, evs);
    let n = answers.len();
    if progress(n, s) == v {
        0
    } else {
        let t = after(answers, s, evs[0]);
        lemma_step(answers, s, evs[0]);
        let tr = trace(answers, s, evs);
        let rest = trace(answers, t, evs.drop_first());
        assert(tr =~= seq![s] + rest);
        assert(tr.last() == rest.last());
        let k = lemma_reaches(answers, t, evs.drop_first(), v);
        assert(tr[k + 1] == rest[k]);
        k + 1
    }
}

/// Question `q` is passed somewhere among the first `i` stages of `tr`.
pub open spec fn passed_before(tr: Seq<Stage>, i: int, q: int) -> bool {
    exists|k: int|
        0 <= k < i && tr[k] == (Stage::Question { index: q as usize, phase: AskPhase::Passed })
}

/// Along every run of the sequence from the welcome screen, whatever the
/// events: the lock number shown never goes down and never exceeds the total,
/// and stays within the number of questions while a question is shown; each
/// screen shows that number and the total. Questions are passed in order: a
/// question passed earlier in the run is never one after a question passed
/// later. The final lock, once reached, is never left but for the end; no
/// question comes after it; it is reached only after every question has been
/// passed; and a run that ends at it has passed every question.
pub proof fn lemma_session(qs: Seq<McQuestion>, evs: Seq<Input>)
    requires
        qs.len() <= usize::MAX,
    ensures
        ({
            let n = qs.len();
            let tr = trace(answers_of(qs), Stage::Welcome, evs);
            &&& forall|i: int, j: int|
                0 <= i <= j < tr.len() ==> lock_of(n, #[trigger] tr[i]) <= lock_of(
                    n,
                    #[trigger] tr[j],
                )
            &&& forall|i: int|
                0 <= i < tr.len() ==> lock_of(n, #[trigger] tr[i]) <= n + 1 && (tr[i] is Question
                    ==> lock_of(n, tr[i]) <= n) && (screen_spec(question_views(qs), tr[i]) is Some
                    ==> screen_spec(question_views(qs), tr[i])->0.lock_idx == lock_of(n, tr[i])
                    && screen_spec(question_views(qs), tr[i])->0.lock_total == n + 1)
            &&& forall|i: int, j: int|
                0 <= i < tr.len() && 0 <= j < tr.len() && (#[trigger] tr[i]) is Question && (
                #[trigger] tr[j]) is Question && tr[i]->Question_phase == AskPhase::Passed
                    && tr[j]->Question_phase == AskPhase::Passed && tr[i]->Question_index
                    < tr[j]->Question_index ==> i < j
            &&& forall|i: int, j: int|
                0 <= i <= j < tr.len() && (#[trigger] tr[i]) is FinalLock ==> ((#[trigger] tr[
                    j]) is FinalLock || tr[j] is Exit)
            &&& forall|i: int, j: int|
                0 <= i < tr.len() && 0 <= j < tr.len() && (#[trigger] tr[i]) is FinalLock && (
                #[trigger] tr[j]) is Question ==> j < i
            &&& forall|i: int, q: int|
                0 <= i < tr.len() && tr[i] is FinalLock && 0 <= q < n ==> #[trigger] passed_before(
                    tr,
                    i,
                    q,
                )
            &&& forall|q: int|
                tr.last() is FinalLock && 0 <= q < n ==> #[trigger] passed_before(tr, tr.len() as int, q)
        }),
{
    let n = qs.len();
    let answers = answers_of(qs);
    let tr = trace(answers, Stage::Welcome, evs);
    lemma_trace(answers, Stage::Welcome, evs);
    assert forall|i: int, j: int| 0 <= i <= j < tr.len() implies lock_of(n, #[trigger] tr[i])
        <= lock_of(n, #[trigger] tr[j]) by {
        lemma_lock_follows_progress(n, tr[i], tr[j]);
    }
    assert forall|i: int, q: int|
        0 <= i < tr.len() && tr[i] is FinalLock && 0 <= q < n implies #[trigger] passed_before(
        tr,
        i,
        q,
    ) by {
        let pre = evs.take(i);
        lemma_trace_prefix(answers, Stage::Welcome, evs, i);
        let k = lemma_reaches(answers, Stage::Welcome, pre, 3 + 2 * q);
        assert(tr[k] == tr.take(i + 1)[k]);
        assert(k != i);
        assert(tr[k] == (Stage::Question { index: q as usize, phase: AskPhase::Passed }));
    }
    assert forall|q: int| tr.last() is FinalLock && 0 <= q < n implies #[trigger] passed_before(
        tr,
        tr.len() as int,
        q,
    ) by {
        let k = lemma_reaches(answers, Stage::Welcome, evs, 3 + 2 * q);
        assert(tr[k] == (Stage::Question { index: q as usize, phase: AskPhase::Passed }));
    }
}

proof fn lemma_trace_len(answers: Seq<Answer>, s: Stage, evs: Seq<Input>)
    ensures
        trace(answers, s, evs).len() == evs.len() + 1,
    decreases evs.len(),
{
    if evs.len() > 0 {
        lemma_trace_len(answers, after(answers, s, evs[0]), evs.drop_first());
    }
}

proof fn lemma_trace_prefix(answers: Seq<Answer>, s: Stage, evs: Seq<Input>, i: int)
    requires
        0 <= i <= evs.len(),
    ensures
        trace(answers, s, evs.take(i)) =~= trace(answers, s, evs).take(i + 1),
    decreases evs.len(),
{
    if i > 0 {
        let t = after(answers, s, evs[0]);
        assert(evs.take(i).drop_first() =~= evs.drop_first().take(i - 1));
        lemma_trace_prefix(answers, t, evs.drop_first(), i - 1);
        assert(evs.take(i)[0] == evs[0]);
        let rest = trace(answers, t, evs.drop_first());
        lemma_trace_len(answers, t, evs.drop_first());
        assert(trace(answers, s, evs.take(i)) == seq![s] + trace(
            answers,
            t,
            evs.take(i).drop_first(),
        ));
        assert(trace(answers, s, evs) == seq![s] + rest);
        assert((seq![s] + rest).take(i + 1) =~= seq![s] + rest.take(i));
    } else {
        assert(evs.take(0).len() == 0);
        assert(trace(answers, s, evs.take(0)) == seq![s]);
        if evs.len() > 0 {
            let t = after(answers, s, evs[0]);
            assert(trace(answers, s, evs) == seq![s] + trace(answers, t, evs.drop_first()));
        }
    }
}

} // verus!
