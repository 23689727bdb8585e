use valentine::clock::{decimal_string, format_elapsed, two_digit_string};
use valentine::cutscene::{cutscene_first, cutscene_next, jet_cutscene, JET_WIDTH};
use valentine::frame::{draw_frame, draw_status_bar, Line, Placed, Screen, Tone};
use valentine::input::{read_abcd, read_yn, wait_any_key, Input};
use valentine::layout::center_x;
use valentine::screens::{cutscene_screen, screen_of};
use valentine::sequencer::{
    advance, ask_mc, final_lock, AskPhase, Answer, FinalPhase, McQuestion, Outcome, Stage,
};

fn question(title: &str, correct: Answer, wrong: &str) -> McQuestion {
    McQuestion {
        title: title.to_string(),
        prompt: format!("{} prompt", title),
        a: "alpha".to_string(),
        b: "beta".to_string(),
        c: "gamma".to_string(),
        d: "delta".to_string(),
        correct,
        wrong_msg: wrong.to_string(),
    }
}

fn three_locks() -> Vec<McQuestion> {
    vec![
        question("LOCK 1", Answer::A, "hint one"),
        question("LOCK 2", Answer::A, "hint two"),
        question("LOCK 3", Answer::C, "hint three"),
    ]
}

fn key(c: char) -> Input {
    Input::Key { ch: Some(c), press: true }
}

fn release(c: char) -> Input {
    Input::Key { ch: Some(c), press: false }
}

fn check(p: &Placed, x: u16, y: u16, text: &str, tone: Tone) {
    assert_eq!((p.x, p.y, p.text.as_str(), p.tone), (x, y, text, tone));
}

#[test]
fn center_x_centres_text_that_fits() {
    assert_eq!(center_x(80, "abcd"), 38);
    assert_eq!(center_x(81, "abcd"), 38);
    assert_eq!(center_x(10, "abcdefghij"), 0);
    assert_eq!(center_x(10, ""), 5);
}

#[test]
fn center_x_counts_characters_not_bytes() {
    assert_eq!(center_x(10, "✈ab"), 3);
}

#[test]
fn center_x_clamps_wide_text_to_zero() {
    assert_eq!(center_x(3, "abcdef"), 0);
    assert_eq!(center_x(0, "a"), 0);
}

#[test]
fn elapsed_time_is_minutes_and_seconds() {
    assert_eq!(format_elapsed(61), "01:01");
    assert_eq!(format_elapsed(3661), "61:01");
    assert_eq!(format_elapsed(0), "00:00");
    assert_eq!(format_elapsed(59), "00:59");
    assert_eq!(format_elapsed(600), "10:00");
    assert_eq!(format_elapsed(6000), "100:00");
}

#[test]
fn decimal_strings() {
    assert_eq!(decimal_string(0), "0");
    assert_eq!(decimal_string(7), "7");
    assert_eq!(decimal_string(12345), "12345");
    assert_eq!(decimal_string(u64::MAX), u64::MAX.to_string());
    assert_eq!(two_digit_string(4), "04");
    assert_eq!(two_digit_string(42), "42");
}

#[test]
fn abcd_reader_accepts_either_case() {
    assert_eq!(read_abcd(&key('b')), Some('B'));
    assert_eq!(read_abcd(&key('D')), Some('D'));
    assert_eq!(read_abcd(&key('e')), None);
    assert_eq!(read_abcd(&key('y')), None);
    assert_eq!(read_abcd(&Input::Key { ch: None, press: true }), None);
    assert_eq!(read_abcd(&Input::Other), None);
    assert_eq!(read_abcd(&Input::Finished), None);
}

#[test]
fn yn_reader_accepts_either_case() {
    assert_eq!(read_yn(&key('y')), Some('Y'));
    assert_eq!(read_yn(&key('N')), Some('N'));
    assert_eq!(read_yn(&key('a')), None);
    assert_eq!(read_yn(&Input::Other), None);
}

#[test]
fn any_key_wait_ignores_non_key_events() {
    assert!(wait_any_key(&key('x')));
    assert!(wait_any_key(&Input::Key { ch: None, press: true }));
    assert!(!wait_any_key(&Input::Other));
    assert!(!wait_any_key(&Input::Finished));
}

#[test]
fn key_releases_are_discarded() {
    assert_eq!(read_abcd(&release('a')), None);
    assert_eq!(read_yn(&release('y')), None);
    assert!(!wait_any_key(&release('x')));
    assert!(!wait_any_key(&Input::Key { ch: None, press: false }));
    let events = vec![release('a'), Input::Other, release('b'), key('d')];
    assert_eq!(events.iter().find_map(|e| read_abcd(e)), Some('D'));
    let locks = three_locks();
    let failed = Stage::Question { index: 0, phase: AskPhase::Failed };
    assert_eq!(advance(&locks, failed, &release('b')), None);
    let asking = Stage::Question { index: 0, phase: AskPhase::Asking };
    assert_eq!(advance(&locks, asking, &release('a')), None);
    assert_eq!(advance(&locks, Stage::Welcome, &release('x')), None);
}

#[test]
fn reader_returns_first_matching_event() {
    let events = vec![Input::Other, Input::Key { ch: None, press: true }, key('x'), key('y'), key('c'), key('a')];
    let first = events.iter().find_map(|e| read_abcd(e));
    assert_eq!(first, Some('C'));
    let events = vec![key('a'), Input::Other, key('q'), key('n'), key('y')];
    let first = events.iter().find_map(|e| read_yn(e));
    assert_eq!(first, Some('N'));
}

#[test]
fn status_bar_segments() {
    let bar = draw_status_bar(40, 10, 2, 4, "PASS", 61);
    assert_eq!(bar.len(), 4);
    check(&bar[0], 0, 9, &" ".repeat(40), Tone::Bar);
    check(&bar[1], 1, 9, "LOCK 2/4", Tone::BarBold);
    check(&bar[2], 17, 9, "01:01", Tone::BarBold);
    check(&bar[3], 27, 9, "STATUS: PASS", Tone::BarBold);
}

#[test]
fn status_bar_on_narrow_terminal() {
    let bar = draw_status_bar(5, 0, 0, 4, "AWAITING INPUT", 3661);
    check(&bar[0], 0, 0, "     ", Tone::Bar);
    check(&bar[2], 0, 0, "61:01", Tone::BarBold);
    check(&bar[3], 0, 0, "STATUS: AWAITING INPUT", Tone::BarBold);
}

#[test]
fn frame_layout() {
    let screen = Screen {
        title: "TITLE".to_string(),
        lines: vec![
            Line { text: "one".to_string(), tone: Tone::Plain },
            Line { text: "three".to_string(), tone: Tone::Green },
        ],
        footer: "foot".to_string(),
        lock_idx: 1,
        lock_total: 4,
        status: "RETRY".to_string(),
    };
    let w = draw_frame(21, 12, &screen, 5);
    assert_eq!(w.len(), 8);
    check(&w[0], 8, 1, "TITLE", Tone::Bold);
    check(&w[1], 9, 4, "one", Tone::Plain);
    check(&w[2], 8, 5, "three", Tone::Green);
    check(&w[3], 1, 9, "foot", Tone::Dim);
    check(&w[4], 0, 11, &" ".repeat(21), Tone::Bar);
    check(&w[5], 1, 11, "LOCK 1/4", Tone::BarBold);
    check(&w[6], 8, 11, "00:05", Tone::BarBold);
    check(&w[7], 7, 11, "STATUS: RETRY", Tone::BarBold);
}

#[test]
fn question_decisions() {
    let q = question("Q", Answer::C, "nope");
    assert!(matches!(ask_mc(&q, AskPhase::Asking, &key('c')), Outcome::Moved(AskPhase::Passed)));
    assert!(matches!(ask_mc(&q, AskPhase::Asking, &key('a')), Outcome::Moved(AskPhase::Failed)));
    assert!(matches!(ask_mc(&q, AskPhase::Asking, &key('z')), Outcome::Ignored));
    assert!(matches!(ask_mc(&q, AskPhase::Passed, &key('z')), Outcome::Finished));
    assert!(matches!(ask_mc(&q, AskPhase::Passed, &Input::Other), Outcome::Ignored));
    assert!(matches!(ask_mc(&q, AskPhase::Failed, &key('z')), Outcome::Moved(AskPhase::Asking)));
}

#[test]
fn final_lock_decisions() {
    assert!(matches!(
        final_lock(0, FinalPhase::Asking, &key('y')),
        Outcome::Moved((0, FinalPhase::Accepted))
    ));
    assert!(matches!(
        final_lock(2, FinalPhase::Asking, &key('n')),
        Outcome::Moved((3, FinalPhase::Declined))
    ));
    assert!(matches!(
        final_lock(u64::MAX, FinalPhase::Asking, &key('N')),
        Outcome::Moved((u64::MAX, FinalPhase::Declined))
    ));
    assert!(matches!(final_lock(1, FinalPhase::Asking, &key('a')), Outcome::Ignored));
    assert!(matches!(
        final_lock(1, FinalPhase::Declined, &key('a')),
        Outcome::Moved((1, FinalPhase::Asking))
    ));
    assert!(matches!(final_lock(1, FinalPhase::Accepted, &key('a')), Outcome::Finished));
}

fn feed(locks: &Vec<McQuestion>, mut stage: Stage, events: &[Input], seen: &mut Vec<Stage>) -> Stage {
    for ev in events {
        if let Some(next) = advance(locks, stage, ev) {
            stage = next;
            seen.push(stage);
        }
    }
    stage
}

fn lock_number(stage: Stage) -> usize {
    match stage {
        Stage::Welcome | Stage::Cutscene => 0,
        Stage::Question { index, .. } => index + 1,
        Stage::FinalLock { .. } | Stage::Exit => 4,
    }
}

#[test]
fn three_questions_reach_final_lock_once() {
    let locks = three_locks();
    let mut seen = vec![Stage::Welcome];
    let events = [
        Input::Other,
        key('x'),
        Input::Finished,
        key('b'),
        key('z'),
        key('d'),
        key('z'),
        key('a'),
        key('z'),
        key('c'),
        key('z'),
        key('a'),
        key('z'),
        Input::Other,
        key('c'),
        key('z'),
    ];
    let end = feed(&locks, Stage::Welcome, &events, &mut seen);
    assert_eq!(end, Stage::FinalLock { no_count: 0, phase: FinalPhase::Asking });
    let finals = seen.iter().filter(|s| matches!(s, Stage::FinalLock { .. })).count();
    assert_eq!(finals, 1);
    assert_eq!(seen[1], Stage::Cutscene);
    assert_eq!(seen[2], Stage::Question { index: 0, phase: AskPhase::Asking });
    assert_eq!(seen[3], Stage::Question { index: 0, phase: AskPhase::Failed });
    let passed: Vec<usize> = seen
        .iter()
        .filter_map(|s| match s {
            Stage::Question { index, phase: AskPhase::Passed } => Some(*index),
            _ => None,
        })
        .collect();
    assert_eq!(passed, vec![0, 1, 2]);
}

#[test]
fn lock_number_never_decreases() {
    let locks = three_locks();
    let mut seen = vec![Stage::Welcome];
    let events = [
        key('q'),
        Input::Finished,
        key('b'),
        key('z'),
        key('a'),
        key('z'),
        key('a'),
        key('z'),
        key('c'),
        key('z'),
        key('n'),
        key('z'),
        key('y'),
        key('z'),
    ];
    let end = feed(&locks, Stage::Welcome, &events, &mut seen);
    assert_eq!(end, Stage::Exit);
    for pair in seen.windows(2) {
        assert!(lock_number(pair[0]) <= lock_number(pair[1]));
    }
    for s in &seen {
        let screen = screen_of(&locks, *s);
        match s {
            Stage::Exit => assert!(screen.is_none()),
            _ => {
                let screen = screen.unwrap();
                assert_eq!(screen.lock_idx, lock_number(*s));
                assert_eq!(screen.lock_total, 4);
                if let Stage::Question { .. } = s {
                    assert!(screen.lock_idx <= 3);
                }
            }
        }
    }
}

fn hint_after(locks: &Vec<McQuestion>, stage: Stage) -> String {
    let screen = screen_of(locks, stage).unwrap();
    assert_eq!(screen.lines.len(), 1);
    screen.lines[0].text.clone()
}

#[test]
fn final_lock_hints_escalate() {
    let locks = three_locks();
    let mut stage = Stage::FinalLock { no_count: 0, phase: FinalPhase::Asking };
    let mut hints = Vec::new();
    for _ in 0..5 {
        stage = advance(&locks, stage, &key('N')).unwrap();
        hints.push(hint_after(&locks, stage));
        stage = advance(&locks, stage, &key('x')).unwrap();
    }
    assert_eq!(hints[0], "❌ I think you pressed the wrong key...");
    assert_eq!(hints[1], "❌ Hint: 3 letters.");
    assert_eq!(hints[2], "❌ Just kidding, I know you love me 😄");
    assert_eq!(hints[3], hints[2]);
    assert_eq!(hints[4], hints[2]);
    stage = advance(&locks, stage, &key('Y')).unwrap();
    assert_eq!(stage, Stage::FinalLock { no_count: 5, phase: FinalPhase::Accepted });
    let screen = screen_of(&locks, stage).unwrap();
    assert_eq!(screen.title, "MISSION SUCCESS");
    assert_eq!(screen.status, "SUCCESS");
    assert_eq!(advance(&locks, stage, &key('x')), Some(Stage::Exit));
    assert_eq!(advance(&locks, Stage::Exit, &key('x')), None);
}

#[test]
fn yes_at_once_succeeds() {
    let locks = three_locks();
    let stage = Stage::FinalLock { no_count: 0, phase: FinalPhase::Asking };
    assert_eq!(
        advance(&locks, stage, &key('y')),
        Some(Stage::FinalLock { no_count: 0, phase: FinalPhase::Accepted })
    );
    assert_eq!(advance(&locks, stage, &Input::Other), None);
}

#[test]
fn question_screens() {
    let locks = three_locks();
    let s = screen_of(&locks, Stage::Question { index: 2, phase: AskPhase::Asking }).unwrap();
    assert_eq!(s.title, "LOCK 3");
    let texts: Vec<&str> = s.lines.iter().map(|l| l.text.as_str()).collect();
    assert_eq!(
        texts,
        vec![
            "LOCK 3 prompt",
            "",
            "A) alpha",
            "B) beta",
            "C) gamma",
            "D) delta",
            "",
            "Press A / B / C / D"
        ]
    );
    assert_eq!(s.footer, "Choose wisely 🙂");
    assert_eq!((s.lock_idx, s.lock_total), (3, 4));
    assert_eq!(s.status, "AWAITING INPUT");
    let f = screen_of(&locks, Stage::Question { index: 1, phase: AskPhase::Failed }).unwrap();
    assert_eq!(f.lines[0].text, "❌ Incorrect.");
    assert_eq!(f.lines[0].tone, Tone::Red);
    assert_eq!(f.lines[1].text, "hint two");
    assert_eq!(f.status, "RETRY");
    let p = screen_of(&locks, Stage::Question { index: 0, phase: AskPhase::Passed }).unwrap();
    assert_eq!(p.lines[0].text, "✅ Correct!");
    assert_eq!(p.footer, "Press any key to continue");
    assert!(screen_of(&locks, Stage::Question { index: 3, phase: AskPhase::Asking }).is_none());
    let w = screen_of(&locks, Stage::Welcome).unwrap();
    assert_eq!(w.title, "OPERATION: VALENTINE");
    assert_eq!((w.lock_idx, w.lock_total), (0, 4));
    assert_eq!(w.status, "STANDBY");
}

#[test]
fn no_questions_go_straight_to_final_lock() {
    let locks: Vec<McQuestion> = Vec::new();
    assert_eq!(
        advance(&locks, Stage::Cutscene, &Input::Finished),
        Some(Stage::FinalLock { no_count: 0, phase: FinalPhase::Asking })
    );
    assert_eq!(advance(&locks, Stage::Cutscene, &key('a')), None);
}

#[test]
fn sweep_covers_each_column_once() {
    let width: u16 = 20;
    let mut cols = Vec::new();
    let mut x = cutscene_first(width);
    while let Some(c) = x {
        cols.push(c);
        x = cutscene_next(width, c);
    }
    assert_eq!(cols, (0..=(width - JET_WIDTH)).collect::<Vec<u16>>());
    assert_eq!(cutscene_first(13), Some(0));
    assert_eq!(cutscene_next(13, 0), None);
    assert_eq!(cutscene_first(12), None);
    assert_eq!(cutscene_next(u16::MAX, u16::MAX - 13), None);
}

#[test]
fn cutscene_tick_writes() {
    let w = jet_cutscene(40, 20, 4, 5, 0);
    let n = w.len();
    assert_eq!(n, 9);
    check(&w[0], 4, 1, "✈ OPERATION: VALENTINE SORTIE ✈", Tone::Bold);
    check(&w[1], 10, 4, "Cleared for takeoff…", Tone::Green);
    check(&w[5], 17, 19, "00:00", Tone::BarBold);
    check(&w[6], 40 - 16, 19, "STATUS: RUNNING", Tone::BarBold);
    check(&w[n - 2], 5, 10, "    __|__", Tone::Plain);
    check(&w[n - 1], 5, 11, "--o--(_)--o--", Tone::Plain);
    let s = cutscene_screen(4);
    assert_eq!(s.status, "RUNNING");
    assert_eq!((s.lock_idx, s.lock_total), (0, 4));
}
