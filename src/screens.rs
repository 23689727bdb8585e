//! What each stage of the lock sequence shows.

use vstd::prelude::*;
use crate::frame::{Line, Screen, ScreenView, Tone};
use crate::input::{is_key, yn_choice, Input};
use crate::sequencer::{
    answers_of, bump, next_stage, AskPhase, FinalPhase, McQuestion, QuestionView, Stage,
};

verus! {

/// A screen's view from its parts.
pub open spec fn screen_view(
    title: Seq<char>,
    lines: Seq<(Seq<char>, Tone)>,
    footer: Seq<char>,
    lock_idx: nat,
    lock_total: nat,
    status: Seq<char>,
) -> ScreenView {
    ScreenView { title, lines, footer, lock_idx, lock_total, status }
}

/// A body line without emphasis.
pub open spec fn plain(t: Seq<char>) -> (Seq<char>, Tone) {
    (t, Tone::Plain)
}

/// The views of a question list.
pub open spec fn question_views(qs: Seq<McQuestion>) -> Seq<QuestionView> {
    qs.map_values(|q: McQuestion| q@)
}

/// The body of a question while it is asked: the prompt, the four labelled
/// options and the keys to press.
pub open spec fn question_lines(q: QuestionView) -> Seq<(Seq<char>, Tone)> {
    seq![
        plain(q.prompt),
        plain(""@),
        plain("A) "@ + q.a),
        plain("B) "@ + q.b),
        plain("C) "@ + q.c),
        plain("D) "@ + q.d),
        plain(""@),
        plain("Press A / B / C / D"@),
    ]
}

/// The hint shown when the final lock has been declined `k` times: one for the
/// first time, another for the second, and a third from then on.
pub open spec fn hint_text(k: u64) -> Seq<char> {
    if k == 1 {
        "❌ I think you pressed the wrong key..."@
    } else if k == 2 {
        "❌ Hint: 3 letters."@
    } else {
        "❌ Just kidding, I know you love me 😄"@
    }
}

/// The lock number a stage shows, for `n` questions: 0 before the questions,
/// `i + 1` at question `i`, and `n + 1`, the total, at the final lock and after.
pub open spec fn lock_of(n: nat, s: Stage) -> nat {
    match s {
        Stage::Welcome => 0,
        Stage::Cutscene => 0,
        Stage::Question { index, .. } => index as nat + 1,
        Stage::FinalLock { .. } => n + 1,
        Stage::Exit => n + 1,
    }
}

/// A question's screen in each phase.
pub open spec fn question_view(q: QuestionView, at: nat, total: nat, phase: AskPhase) -> ScreenView {
    match phase {
        AskPhase::Asking => screen_view(
            q.title,
            question_lines(q),
            "Choose wisely 🙂"@,
            at,
            total,
            "AWAITING INPUT"@,
        ),
        AskPhase::Passed => screen_view(
            q.title,
            seq![("✅ Correct!"@, Tone::Green)],
            "Press any key to continue"@,
            at,
            total,
            "PASS"@,
        ),
        AskPhase::Failed => screen_view(
            q.title,
            seq![("❌ Incorrect."@, Tone::Red), plain(q.wrong_msg)],
            "Press any key to retry"@,
            at,
            total,
            "RETRY"@,
        ),
    }
}

/// The final lock's screen in each phase, declined `no_count` times so far.
pub open spec fn final_view(total: nat, no_count: u64, phase: FinalPhase) -> ScreenView {
    match phase {
        FinalPhase::Asking => screen_view(
            "FINAL LOCK"@,
            seq![
                plain("Will you be my Valentine? (Y / N)"@),
                ("(This is easy right? right? 😅)"@, Tone::Dim),
            ],
            "Press Y or N"@,
            total,
            total,
            "AWAITING INPUT"@,
        ),
        FinalPhase::Declined => screen_view(
            "FINAL LOCK"@,
            seq![plain(hint_text(no_count))],
            "Press any key to retry"@,
            total,
            total,
            "RETRY"@,
        ),
        FinalPhase::Accepted => screen_view(
            "MISSION SUCCESS"@,
            seq![("✈ TAKEOFF CLEARED ✈"@, Tone::Green), plain("VALENTINE AUTHORIZED ❤️"@)],
            "Press any key to exit"@,
            total,
            total,
            "SUCCESS"@,
        ),
    }
}

/// The screen of stage `s` for the questions `qs`; none after the sequence or
/// for a question that does not exist.
pub open spec fn screen_spec(qs: Seq<QuestionView>, s: Stage) -> Option<ScreenView> {
    let n = qs.len();
    let total = n + 1;
    let at = lock_of(n, s);
    match s {
        Stage::Welcome => Some(
            screen_view(
                "OPERATION: VALENTINE"@,
                seq![plain("Press any key to begin"@)],
                "Controls: A/B/C/D, Y/N"@,
                at,
                total,
                "STANDBY"@,
            ),
        ),
        Stage::Cutscene => Some(cutscene_view(total)),
        Stage::Question { index, phase } => if index < n {
            let q = qs[index as int];
            Some(question_view(q, at, total, phase))
        } else {
            None
        },
        Stage::FinalLock { no_count, phase } => Some(final_view(total, no_count, phase)),
        Stage::Exit => None,
    }
}

/// The chrome drawn around the animation.
pub open spec fn cutscene_view(total: nat) -> ScreenView {
    screen_view(
        "✈ OPERATION: VALENTINE SORTIE ✈"@,
        seq![("Cleared for takeoff…"@, Tone::Green)],
        "Enjoy the flyby 😄"@,
        0,
        total,
        "RUNNING"@,
    )
}

fn line(text: &str, tone: Tone) -> (r: Line)
    ensures
        r@ == (text@, tone),
{
    Line { text: String::from_str(text), tone }
}

fn prefixed(prefix: &str, text: &String) -> (r: Line)
    ensures
        r@ == plain(prefix@ + text@),
{
    let s = String::from_str(prefix).concat(text.as_str());
    Line { text: s, tone: Tone::Plain }
}

fn make_screen(
    title: String,
    lines: Vec<Line>,
    footer: &str,
    lock_idx: usize,
    lock_total: usize,
    status: &str,
) -> (r: Screen)
    ensures
        r@ == screen_view(
            title@,
            lines@.map_values(|l: Line| l@),
            footer@,
            lock_idx as nat,
            lock_total as nat,
            status@,
        ),
{
    Screen {
        title,
        lines,
        footer: String::from_str(footer),
        lock_idx,
        lock_total,
        status: String::from_str(status),
    }
}

/// The screen shown around the animation, with `lock_total` locks in all.
pub fn cutscene_screen(lock_total: usize) -> (r: Screen)
    ensures
        r@ == cutscene_view(lock_total as nat),
{
    let mut lines: Vec<Line> = Vec::new();
    lines.push(line("Cleared for takeoff…", Tone::Green));
    let ghost lv = lines@.map_values(|l: Line| l@);
    assert(lv =~= seq![("Cleared for takeoff…"@, Tone::Green)]);
    make_screen(
        String::from_str("✈ OPERATION: VALENTINE SORTIE ✈"),
        lines,
        "Enjoy the flyby 😄",
        0,
        lock_total,
        "RUNNING",
    )
}

fn question_screen(q: &McQuestion, lock_idx: usize, lock_total: usize, phase: AskPhase) -> (r: Screen)
    ensures
        r@ == question_view(q@, lock_idx as nat, lock_total as nat, phase),
{
    let mut lines: Vec<Line> = Vec::new();
    match phase {
        AskPhase::Asking => {
            lines.push(Line { text: q.prompt.clone(), tone: Tone::Plain });
            lines.push(line("", Tone::Plain));
            lines.push(prefixed("A) ", &q.a));
            lines.push(prefixed("B) ", &q.b));
            lines.push(prefixed("C) ", &q.c));
            lines.push(prefixed("D) ", &q.d));
            lines.push(line("", Tone::Plain));
            lines.push(line("Press A / B / C / D", Tone::Plain));
            let ghost lv = lines@.map_values(|l: Line| l@);
            assert(lv =~= question_lines(q@));
            make_screen(
                q.title.clone(),
                lines,
                "Choose wisely 🙂",
                lock_idx,
                lock_total,
                "AWAITING INPUT",
            )
        },
        AskPhase::Passed => {
            lines.push(line("✅ Correct!", Tone::Green));
            let ghost lv = lines@.map_values(|l: Line| l@);
            assert(lv =~= seq![("✅ Correct!"@, Tone::Green)]);
            make_screen(
                q.title.clone(),
                lines,
                "Press any key to continue",
                lock_idx,
                lock_total,
                "PASS",
            )
        },
        AskPhase::Failed => {
            lines.push(line("❌ Incorrect.", Tone::Red));
            lines.push(Line { text: q.wrong_msg.clone(), tone: Tone::Plain });
            let ghost lv = lines@.map_values(|l: Line| l@);
            assert(lv =~= seq![("❌ Incorrect."@, Tone::Red), plain(q@.wrong_msg)]);
            make_screen(
                q.title.clone(),
                lines,
                "Press any key to retry",
                lock_idx,
                lock_total,
                "RETRY",
            )
        },
    }
}

fn hint(k: u64) -> (r: &'static str)
    ensures
        r@ == hint_text(k),
{
    if k == 1 {
        "❌ I think you pressed the wrong key..."
    } else if k == 2 {
        "❌ Hint: 3 letters."
    } else {
        "❌ Just kidding, I know you love me 😄"
    }
}

fn final_screen(total: usize, no_count: u64, phase: FinalPhase) -> (r: Screen)
    ensures
        r@ == final_view(total as nat, no_count, phase),
{
    let mut lines: Vec<Line> = Vec::new();
    match phase {
        FinalPhase::Asking => {
            lines.push(line("Will you be my Valentine? (Y / N)", Tone::Plain));
            lines.push(line("(This is easy right? right? 😅)", Tone::Dim));
            let ghost lv = lines@.map_values(|l: Line| l@);
            assert(lv =~= seq![
                plain("Will you be my Valentine? (Y / N)"@),
                ("(This is easy right? right? 😅)"@, Tone::Dim),
            ]);
            make_screen(
                String::from_str("FINAL LOCK"),
                lines,
                "Press Y or N",
                total,
                total,
                "AWAITING INPUT",
            )
        },
        FinalPhase::Declined => {
            lines.push(line(hint(no_count), Tone::Plain));
            let ghost lv = lines@.map_values(|l: Line| l@);
            assert(lv =~= seq![plain(hint_text(no_count))]);
            make_screen(
                String::from_str("FINAL LOCK"),
                lines,
                "Press any key to retry",
                total,
                total,
                "RETRY",
            )
        },
        FinalPhase::Accepted => {
            lines.push(line("✈ TAKEOFF CLEARED ✈", Tone::Green));
            lines.push(line("VALENTINE AUTHORIZED ❤️", Tone::Plain));
            let ghost lv = lines@.map_values(|l: Line| l@);
            assert(lv =~= seq![("✈ TAKEOFF CLEARED ✈"@, Tone::Green), plain("VALENTINE AUTHORIZED ❤️"@)]);
            make_screen(
                String::from_str("MISSION SUCCESS"),
                lines,
                "Press any key to exit",
                total,
                total,
                "SUCCESS",
            )
        },
    }
}

/// The lock number shown never goes down from one stage to the next and never
/// exceeds the total, which is one more than the number of questions; while a
/// question is on screen its number stays within the number of questions.
pub proof fn lemma_lock_progress(qs: Seq<McQuestion>, s: Stage, ev: Input, t: Stage)
    requires
        qs.len() <= usize::MAX,
        s is Question ==> s->Question_index < qs.len(),
        next_stage(answers_of(qs), s, ev) == Some(t),
    ensures
        lock_of(qs.len(), s) <= lock_of(qs.len(), t),
        lock_of(qs.len(), t) <= qs.len() + 1,
        t is Question ==> (t->Question_index < qs.len() && lock_of(qs.len(), t) <= qs.len()),
        screen_spec(question_views(qs), t) is Some ==> (screen_spec(
            question_views(qs),
            t,
        )->0.lock_idx == lock_of(qs.len(), t) && screen_spec(question_views(qs), t)->0.lock_total
            == qs.len() + 1),
{
}

/// At the final lock, a first decline shows the first hint, a second the second
/// hint, and every later one the third; after a hint any key asks again, with
/// the count kept; and accepting succeeds whatever number of declines came
/// before.
pub proof fn lemma_final_hints(qs: Seq<McQuestion>, k: u64, ev: Input, key: Input)
    requires
        yn_choice(ev) is Some,
        is_key(key),
    ensures
        yn_choice(ev) == Some('Y') ==> next_stage(
            answers_of(qs),
            Stage::FinalLock { no_count: k, phase: FinalPhase::Asking },
            ev,
        ) == Some(Stage::FinalLock { no_count: k, phase: FinalPhase::Accepted }),
        yn_choice(ev) == Some('N') ==> next_stage(
            answers_of(qs),
            Stage::FinalLock { no_count: k, phase: FinalPhase::Asking },
            ev,
        ) == Some(Stage::FinalLock { no_count: bump(k), phase: FinalPhase::Declined }),
        next_stage(
            answers_of(qs),
            Stage::FinalLock { no_count: k, phase: FinalPhase::Declined },
            key,
        ) == Some(Stage::FinalLock { no_count: k, phase: FinalPhase::Asking }),
        screen_spec(
            question_views(qs),
            Stage::FinalLock { no_count: k, phase: FinalPhase::Declined },
        )->0.lines == seq![plain(hint_text(k))],
        k == 0 ==> hint_text(bump(k)) == "❌ I think you pressed the wrong key..."@,
        k == 1 ==> hint_text(bump(k)) == "❌ Hint: 3 letters."@,
        k >= 2 ==> hint_text(bump(k)) == "❌ Just kidding, I know you love me 😄"@,
{
}

/// The screen to show at `stage`, for the lock sequence over `questions`;
/// `None` once the sequence is over.
pub fn screen_of(questions: &Vec<McQuestion>, stage: Stage) -> (r: Option<Screen>)
    requires
        questions@.len() < usize::MAX,
    ensures
        match r {
            Some(sc) => screen_spec(question_views(questions@), stage) == Some(sc@),
            None => screen_spec(question_views(questions@), stage) is None,
        },
{
    let ghost qs = question_views(questions@);
    let n = questions.len();
    let total = n + 1;
    match stage {
        Stage::Welcome => {
            let mut lines: Vec<Line> = Vec::new();
            lines.push(line("Press any key to begin", Tone::Plain));
            let ghost lv = lines@.map_values(|l: Line| l@);
            assert(lv =~= seq![plain("Press any key to begin"@)]);
            Some(
                make_screen(
                    String::from_str("OPERATION: VALENTINE"),
                    lines,
                    "Controls: A/B/C/D, Y/N",
                    0,
                    total,
                    "STANDBY",
                ),
            )
        },
        Stage::Cutscene => Some(cutscene_screen(total)),
        Stage::Question { index, phase } => if index < n {
            assert(qs[index as int] == questions@[index as int]@);
            Some(question_screen(&questions[index], index + 1, total, phase))
        } else {
            None
        },
        Stage::FinalLock { no_count, phase } => Some(final_screen(total, no_count, phase)),
        Stage::Exit => None,
    }
}

} // verus!
