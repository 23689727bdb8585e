//! The lock sequence: welcome, animation, each question until it is answered
//! correctly, then the final yes/no lock.
//!
//! The sequence is a state machine. For the current stage, `screen_of` gives
//! what to show; `advance` takes the next event and gives the next stage, or
//! `None` when the event is discarded and the stage waits on.

use vstd::prelude::*;
use crate::frame::{Line, Screen, ScreenView, Tone};
use crate::input::{abcd_choice, is_key, read_abcd, read_yn, wait_any_key, yn_choice, Input};

verus! {

/// The four options of a question.
#[derive(Clone, Copy, Debug, PartialEq, Eq, Structural)]
pub enum Answer {
    A,
    B,
    C,
    D,
}

/// The upper-case letter that picks an option.
pub open spec fn answer_letter(a: Answer) -> char {
    match a {
        Answer::A => 'A',
        Answer::B => 'B',
        Answer::C => 'C',
        Answer::D => 'D',
    }
}

/// A multiple-choice lock: its texts, the correct option, and the hint shown
/// after a wrong answer.
pub struct McQuestion {
    pub title: String,
    pub prompt: String,
    pub a: String,
    pub b: String,
    pub c: String,
    pub d: String,
    pub correct: Answer,
    pub wrong_msg: String,
}

/// A question as plain values.
pub struct QuestionView {
    pub title: Seq<char>,
    pub prompt: Seq<char>,
    pub a: Seq<char>,
    pub b: Seq<char>,
    pub c: Seq<char>,
    pub d: Seq<char>,
    pub correct: Answer,
    pub wrong_msg: Seq<char>,
}

impl View for McQuestion {
    type V = QuestionView;

    open spec fn view(&self) -> QuestionView {
        QuestionView {
            title: self.title@,
            prompt: self.prompt@,
            a: self.a@,
            b: self.b@,
            c: self.c@,
            d: self.d@,
            correct: self.correct,
            wrong_msg: self.wrong_msg@,
        }
    }
}

/// Where a question stands: asked, answered correctly, or answered wrongly.
#[derive(Clone, Copy, Debug, PartialEq, Eq, Structural)]
pub enum AskPhase {
    Asking,
    Passed,
    Failed,
}

/// Where the final lock stands: asked, declined, or accepted.
#[derive(Clone, Copy, Debug, PartialEq, Eq, Structural)]
pub enum FinalPhase {
    Asking,
    Declined,
    Accepted,
}

/// A stage of the sequence. `index` counts questions from 0; `no_count` is the
/// number of times the final lock has been declined.
#[derive(Clone, Copy, Debug, PartialEq, Eq, Structural)]
#[allow(inconsistent_fields)]
pub enum Stage {
    Welcome,
    Cutscene,
    Question { index: usize, phase: AskPhase },
    FinalLock { no_count: u64, phase: FinalPhase },
    Exit,
}

/// What an event does within a stage: nothing, a move to another phase, or the
/// end of the stage.
pub enum Outcome<P> {
    Ignored,
    Moved(P),
    Finished,
}

/// One question's reaction to an event.
pub open spec fn ask_step(correct: Answer, phase: AskPhase, ev: Input) -> Outcome<AskPhase> {
    match phase {
        AskPhase::Asking => match abcd_choice(ev) {
            None => Outcome::Ignored,
            Some(c) => Outcome::Moved(
                if c == answer_letter(correct) {
                    AskPhase::Passed
                } else {
                    AskPhase::Failed
                },
            ),
        },
        AskPhase::Passed => if is_key(ev) {
            Outcome::Finished
        } else {
            Outcome::Ignored
        },
        AskPhase::Failed => if is_key(ev) {
            Outcome::Moved(AskPhase::Asking)
        } else {
            Outcome::Ignored
        },
    }
}

/// One more than `k`, held at `u64::MAX`.
pub open spec fn bump(k: u64) -> u64 {
    if k == u64::MAX {
        k
    } else {
        (k + 1) as u64
    }
}

/// The final lock's reaction to an event.
pub open spec fn final_step(no_count: u64, phase: FinalPhase, ev: Input) -> Outcome<(u64, FinalPhase)> {
    match phase {
        FinalPhase::Asking => match yn_choice(ev) {
            Some(c) => if c == 'Y' {
                Outcome::Moved((no_count, FinalPhase::Accepted))
            } else {
                Outcome::Moved((bump(no_count), FinalPhase::Declined))
            },
            None => Outcome::Ignored,
        },
        FinalPhase::Declined => if is_key(ev) {
            Outcome::Moved((no_count, FinalPhase::Asking))
        } else {
            Outcome::Ignored
        },
        FinalPhase::Accepted => if is_key(ev) {
            Outcome::Finished
        } else {
            Outcome::Ignored
        },
    }
}

/// The correct options of a question list, in order.
pub open spec fn answers_of(qs: Seq<McQuestion>) -> Seq<Answer> {
    qs.map_values(|q: McQuestion| q.correct)
}

/// The stage after the animation: the first question, or the final lock when
/// there is none.
pub open spec fn first_stage(n: nat) -> Stage {
    if n > 0 {
        Stage::Question { index: 0, phase: AskPhase::Asking }
    } else {
        Stage::FinalLock { no_count: 0, phase: FinalPhase::Asking }
    }
}

/// The stage that follows `s` on event `ev`, for questions whose correct options
/// are `answers`; `None` where the event is discarded.
pub open spec fn next_stage(answers: Seq<Answer>, s: Stage, ev: Input) -> Option<Stage> {
    match s {
        Stage::Welcome => if is_key(ev) {
            Some(Stage::Cutscene)
        } else {
            None
        },
        Stage::Cutscene => if ev is Finished {
            Some(first_stage(answers.len()))
        } else {
            None
        },
        Stage::Question { index, phase } => if index < answers.len() {
            match ask_step(answers[index as int], phase, ev) {
                Outcome::Ignored => None,
                Outcome::Moved(p) => Some(Stage::Question { index, phase: p }),
                Outcome::Finished => Some(
                    if index + 1 < answers.len() {
                        Stage::Question { index: (index + 1) as usize, phase: AskPhase::Asking }
                    } else {
                        Stage::FinalLock { no_count: 0, phase: FinalPhase::Asking }
                    },
                ),
            }
        } else {
            None
        },
        Stage::FinalLock { no_count, phase } => match final_step(no_count, phase, ev) {
            Outcome::Ignored => None,
            Outcome::Moved(m) => Some(Stage::FinalLock { no_count: m.0, phase: m.1 }),
            Outcome::Finished => Some(Stage::Exit),
        },
        Stage::Exit => None,
    }
}

/// Decides an event for question `q` in `phase`: a letter answers it, and after
/// the verdict any key either ends the question (when it was passed) or asks it
/// again.
pub fn ask_mc(q: &McQuestion, phase: AskPhase, ev: &Input) -> (r: Outcome<AskPhase>)
    ensures
        r == ask_step(q.correct, phase, *ev),
{
    match phase {
        AskPhase::Asking => match read_abcd(ev) {
            None => Outcome::Ignored,
            Some(c) => {
                let want = match q.correct {
                    Answer::A => 'A',
                    Answer::B => 'B',
                    Answer::C => 'C',
                    Answer::D => 'D',
                };
                if c == want {
                    Outcome::Moved(AskPhase::Passed)
                } else {
                    Outcome::Moved(AskPhase::Failed)
                }
            },
        },
        AskPhase::Passed => if wait_any_key(ev) {
            Outcome::Finished
        } else {
            Outcome::Ignored
        },
        AskPhase::Failed => if wait_any_key(ev) {
            Outcome::Moved(AskPhase::Asking)
        } else {
            Outcome::Ignored
        },
    }
}

/// Decides an event at the final lock, declined `no_count` times so far: `Y`
/// accepts, `N` declines once more, and after either verdict any key moves on.
pub fn final_lock(no_count: u64, phase: FinalPhase, ev: &Input) -> (r: Outcome<(u64, FinalPhase)>)
    ensures
        r == final_step(no_count, phase, *ev),
{
    match phase {
        FinalPhase::Asking => match read_yn(ev) {
            Some(c) => if c == 'Y' {
                Outcome::Moved((no_count, FinalPhase::Accepted))
            } else {
                let k = if no_count == u64::MAX {
                    no_count
                } else {
                    no_count + 1
                };
                Outcome::Moved((k, FinalPhase::Declined))
            },
            None => Outcome::Ignored,
        },
        FinalPhase::Declined => if wait_any_key(ev) {
            Outcome::Moved((no_count, FinalPhase::Asking))
        } else {
            Outcome::Ignored
        },
        FinalPhase::Accepted => if wait_any_key(ev) {
            Outcome::Finished
        } else {
            Outcome::Ignored
        },
    }
}

/// The stage that follows `stage` on event `ev`; `None` where the event is
/// discarded and the stage waits on.
pub fn advance(questions: &Vec<McQuestion>, stage: Stage, ev: &Input) -> (r: Option<Stage>)
    ensures
        r == next_stage(answers_of(questions@), stage, *ev),
{
    let ghost answers = answers_of(questions@);
    let n = questions.len();
    match stage {
        Stage::Welcome => if wait_any_key(ev) {
            Some(Stage::Cutscene)
        } else {
            None
        },
        Stage::Cutscene => match ev {
            Input::Finished => if n > 0 {
                Some(Stage::Question { index: 0, phase: AskPhase::Asking })
            } else {
                Some(Stage::FinalLock { no_count: 0, phase: FinalPhase::Asking })
            },
            _ => None,
        },
        Stage::Question { index, phase } => if index < n {
            assert(answers[index as int] == questions@[index as int].correct);
            match ask_mc(&questions[index], phase, ev) {
                Outcome::Ignored => None,
                Outcome::Moved(p) => Some(Stage::Question { index, phase: p }),
                Outcome::Finished => if index + 1 < n {
                    Some(Stage::Question { index: index + 1, phase: AskPhase::Asking })
                } else {
                    Some(Stage::FinalLock { no_count: 0, phase: FinalPhase::Asking })
                },
            }
        } else {
            None
        },
        Stage::FinalLock { no_count, phase } => match final_lock(no_count, phase, ev) {
            Outcome::Ignored => None,
            Outcome::Moved(m) => Some(Stage::FinalLock { no_count: m.0, phase: m.1 }),
            Outcome::Finished => Some(Stage::Exit),
        },
        Stage::Exit => None,
    }
}

/// Questions are passed one after another, in order. A question is passed only
/// from its prompt, with the letter of its correct option; a question is entered
/// only as the first one after the animation, or from the passed question just
/// before it; the final lock is entered only from the last question once it is
/// passed (or straight after the animation when there are no questions); and
/// once at the final lock, the sequence never goes back.
pub proof fn lemma_locks_in_order(answers: Seq<Answer>, s: Stage, ev: Input, t: Stage)
    requires
        answers.len() <= usize::MAX,
        next_stage(answers, s, ev) == Some(t),
    ensures
        (t is Question && t->Question_phase == AskPhase::Passed) ==> (s == (Stage::Question {
            index: t->Question_index,
            phase: AskPhase::Asking,
        }) && abcd_choice(ev) == Some(answer_letter(answers[t->Question_index as int]))),
        t is Question ==> ((s is Question && s->Question_index == t->Question_index) || (
        t->Question_index == 0 && s is Cutscene) || (t->Question_index > 0 && s == (
        Stage::Question { index: (t->Question_index - 1) as usize, phase: AskPhase::Passed }))),
        (t is FinalLock && !(s is FinalLock)) ==> ((answers.len() == 0 && s is Cutscene) || (
        answers.len() > 0 && s == (Stage::Question {
            index: (answers.len() - 1) as usize,
            phase: AskPhase::Passed,
        }))),
        (s is FinalLock || s is Exit) ==> (t is FinalLock || t is Exit),
{
}

/// Each question is left by answering it: a wrong letter shows the verdict and
/// any key asks the same question again, while the correct letter followed by
/// any key moves on to the next question, or to the final lock after the last.
pub proof fn lemma_answer_moves_on(answers: Seq<Answer>, i: usize, ev: Input, key: Input)
    requires
        i < answers.len() <= usize::MAX,
        abcd_choice(ev) is Some,
        is_key(key),
    ensures
        abcd_choice(ev) == Some(answer_letter(answers[i as int])) ==> next_stage(
            answers,
            Stage::Question { index: i, phase: AskPhase::Asking },
            ev,
        ) == Some(Stage::Question { index: i, phase: AskPhase::Passed }),
        abcd_choice(ev) != Some(answer_letter(answers[i as int])) ==> next_stage(
            answers,
            Stage::Question { index: i, phase: AskPhase::Asking },
            ev,
        ) == Some(Stage::Question { index: i, phase: AskPhase::Failed }),
        next_stage(answers, Stage::Question { index: i, phase: AskPhase::Failed }, key) == Some(
            Stage::Question { index: i, phase: AskPhase::Asking },
        ),
        i + 1 < answers.len() ==> next_stage(
            answers,
            Stage::Question { index: i, phase: AskPhase::Passed },
            key,
        ) == Some(Stage::Question { index: (i + 1) as usize, phase: AskPhase::Asking }),
        i + 1 == answers.len() ==> next_stage(
            answers,
            Stage::Question { index: i, phase: AskPhase::Passed },
            key,
        ) == Some(Stage::FinalLock { no_count: 0, phase: FinalPhase::Asking }),
{
}

} // verus!
