//! Which terminal events count at a prompt.
//!
//! A reader blocks on the event stream and hands each event to one of the
//! filters below; an event that the filter passes over is discarded and the
//! reader waits for the next.

use vstd::prelude::*;

verus! {

/// A terminal event, reduced to what the prompts look at.
#[derive(Clone, Copy, Debug, PartialEq, Eq, Structural)]
pub enum Input {
    /// A key event: `ch` is `Some(c)` for a character key and `None` for any
    /// other key; `press` tells a press from a release or an auto-repeat.
    Key { ch: Option<char>, press: bool },
    /// Anything but a key event (mouse, resize, focus, paste).
    Other,
    /// The animation that was playing has run to its end.
    Finished,
}

/// The character of a key press, if the event is a press of a character key.
pub open spec fn pressed_char(ev: Input) -> Option<char> {
    match ev {
        Input::Key { ch, press } => if press {
            ch
        } else {
            None
        },
        _ => None,
    }
}

/// The choice letter an event gives at an `A / B / C / D` prompt, if any: only
/// a key press counts, never a release.
pub open spec fn abcd_choice(ev: Input) -> Option<char> {
    match pressed_char(ev) {
        Some(c) => if c == 'a' || c == 'A' {
            Some('A')
        } else if c == 'b' || c == 'B' {
            Some('B')
        } else if c == 'c' || c == 'C' {
            Some('C')
        } else if c == 'd' || c == 'D' {
            Some('D')
        } else {
            None
        },
        _ => None,
    }
}

/// The choice letter an event gives at a `Y / N` prompt, if any: only a key
/// press counts, never a release.
pub open spec fn yn_choice(ev: Input) -> Option<char> {
    match pressed_char(ev) {
        Some(c) => if c == 'y' || c == 'Y' {
            Some('Y')
        } else if c == 'n' || c == 'N' {
            Some('N')
        } else {
            None
        },
        _ => None,
    }
}

/// Whether an event is a press of any key; a release is not.
pub open spec fn is_key(ev: Input) -> bool {
    match ev {
        Input::Key { press, .. } => press,
        _ => false,
    }
}

/// The two kinds of letter prompt.
#[derive(Clone, Copy, Debug, PartialEq, Eq, Structural)]
pub enum Prompt {
    Abcd,
    YesNo,
}

pub open spec fn prompt_choice(p: Prompt, ev: Input) -> Option<char> {
    match p {
        Prompt::Abcd => abcd_choice(ev),
        Prompt::YesNo => yn_choice(ev),
    }
}

/// What a blocking read at prompt `p` returns on the event stream `evs`: the
/// letter of the first event that gives one, `None` while none has come.
pub open spec fn read_letter(p: Prompt, evs: Seq<Input>) -> Option<char>
    decreases evs.len(),
{
    if evs.len() == 0 {
        None
    } else {
        match prompt_choice(p, evs[0]) {
            Some(c) => Some(c),
            None => read_letter(p, evs.drop_first()),
        }
    }
}

/// Decides an event at an `A / B / C / D` prompt: the upper-case letter of a
/// matching key in either case, `None` for an event to discard.
pub fn read_abcd(ev: &Input) -> (r: Option<char>)
    ensures
        r == abcd_choice(*ev),
{
    match ev {
        Input::Key { ch: Some(c), press: true } => {
            let c = *c;
            if c == 'a' || c == 'A' {
                Some('A')
            } else if c == 'b' || c == 'B' {
                Some('B')
            } else if c == 'c' || c == 'C' {
                Some('C')
            } else if c == 'd' || c == 'D' {
                Some('D')
            } else {
                None
            }
        },
        _ => None,
    }
}

/// Decides an event at a `Y / N` prompt: the upper-case letter of a matching
/// key in either case, `None` for an event to discard.
pub fn read_yn(ev: &Input) -> (r: Option<char>)
    ensures
        r == yn_choice(*ev),
{
    match ev {
        Input::Key { ch: Some(c), press: true } => {
            let c = *c;
            if c == 'y' || c == 'Y' {
                Some('Y')
            } else if c == 'n' || c == 'N' {
                Some('N')
            } else {
                None
            }
        },
        _ => None,
    }
}

/// Decides an event while waiting for any key: true for a key press.
pub fn wait_any_key(ev: &Input) -> (r: bool)
    ensures
        r == is_key(*ev),
{
    match ev {
        Input::Key { press, .. } => *press,
        _ => false,
    }
}

/// A key release or auto-repeat is discarded by every prompt and does not end
/// a wait for any key.
pub proof fn lemma_release_discarded(p: Prompt, ch: Option<char>)
    ensures
        prompt_choice(p, (Input::Key { ch, press: false })) is None,
        !is_key((Input::Key { ch, press: false })),
{
}

/// A letter prompt returns the letter of the first matching key press, upper-cased,
/// and never that of an event it discarded before: after any run of events
/// that give no letter, one that gives `c` makes the read return `c`.
pub proof fn lemma_read_first_match(p: Prompt, skipped: Seq<Input>, ev: Input, c: char)
    requires
        forall|i: int| 0 <= i < skipped.len() ==> prompt_choice(p, #[trigger] skipped[i]) is None,
        prompt_choice(p, ev) == Some(c),
    ensures
        read_letter(p, skipped.push(ev)) == Some(c),
        p is Abcd ==> (c == 'A' || c == 'B' || c == 'C' || c == 'D'),
        p is YesNo ==> (c == 'Y' || c == 'N'),
        pressed_char(ev) is Some && (pressed_char(ev)->0 == c || pressed_char(ev)->0 as u32 == c as u32
            + 32),
    decreases skipped.len(),
{
    if skipped.len() > 0 {
        assert(prompt_choice(p, skipped[0]) is None);
        assert(skipped.push(ev).drop_first() =~= skipped.drop_first().push(ev));
        lemma_read_first_match(p, skipped.drop_first(), ev, c);
    } else {
        assert(skipped.push(ev)[0] == ev);
    }
}

} // verus!
