//! Frames: what is written where when a screen is drawn, status bar included.
//!
//! A frame is planned as a list of writes, each a piece of text with a tone at
//! an absolute position. The caller clears the terminal, performs the writes in
//! order and flushes them together.

use vstd::prelude::*;
use crate::clock::{decimal, decimal_string, elapsed_text, format_elapsed};
use crate::layout::{center_offset, center_x, sat_sub};

verus! {

/// How a piece of text is painted.
#[derive(Clone, Copy, Debug, PartialEq, Eq, Structural)]
pub enum Tone {
    Plain,
    Bold,
    Dim,
    Green,
    Red,
    /// Dark text on the status bar's filled background.
    Bar,
    /// As `Bar`, in bold.
    BarBold,
}

/// One write: `text` painted with `tone` from column `x` of row `y`.
pub struct Placed {
    pub x: u16,
    pub y: u16,
    pub text: String,
    pub tone: Tone,
}

impl View for Placed {
    type V = (int, int, Seq<char>, Tone);

    open spec fn view(&self) -> (int, int, Seq<char>, Tone) {
        (self.x as int, self.y as int, self.text@, self.tone)
    }
}

/// A body line of a screen.
pub struct Line {
    pub text: String,
    pub tone: Tone,
}

impl View for Line {
    type V = (Seq<char>, Tone);

    open spec fn view(&self) -> (Seq<char>, Tone) {
        (self.text@, self.tone)
    }
}

/// What a screen shows: a title, centred body lines, a footer, and the lock
/// progress and status label of the status bar.
pub struct Screen {
    pub title: String,
    pub lines: Vec<Line>,
    pub footer: String,
    pub lock_idx: usize,
    pub lock_total: usize,
    pub status: String,
}

/// A screen as plain values.
pub struct ScreenView {
    pub title: Seq<char>,
    pub lines: Seq<(Seq<char>, Tone)>,
    pub footer: Seq<char>,
    pub lock_idx: nat,
    pub lock_total: nat,
    pub status: Seq<char>,
}

impl View for Screen {
    type V = ScreenView;

    open spec fn view(&self) -> ScreenView {
        ScreenView {
            title: self.title@,
            lines: self.lines@.map_values(|l: Line| l@),
            footer: self.footer@,
            lock_idx: self.lock_idx as nat,
            lock_total: self.lock_total as nat,
            status: self.status@,
        }
    }
}

/// The writes of a plan, as plain values.
pub open spec fn plan_of(ps: Seq<Placed>) -> Seq<(int, int, Seq<char>, Tone)> {
    ps.map_values(|p: Placed| p@)
}

/// `n` spaces.
pub open spec fn blank(n: nat) -> Seq<char> {
    Seq::new(n, |i: int| ' ')
}

/// The status bar's left segment, `LOCK i/n`.
pub open spec fn lock_label(idx: nat, total: nat) -> Seq<char> {
    "LOCK "@ + decimal(idx) + "/"@ + decimal(total)
}

/// The status bar on the last row: a filled bar the width of the terminal, the
/// lock progress at column 1, the elapsed time centred, and the status label
/// right-aligned with a margin of 9 columns besides its own length.
pub open spec fn status_bar_plan(
    width: int,
    height: int,
    lock_idx: nat,
    lock_total: nat,
    status: Seq<char>,
    secs: nat,
) -> Seq<(int, int, Seq<char>, Tone)> {
    let y = sat_sub(height, 1);
    let time = elapsed_text(secs);
    seq![
        (0, y, blank(width as nat), Tone::Bar),
        (1, y, lock_label(lock_idx, lock_total), Tone::BarBold),
        (center_offset(width, time.len() as int), y, time, Tone::BarBold),
        (sat_sub(width, status.len() + 9int), y, "STATUS: "@ + status, Tone::BarBold),
    ]
}

/// Body line `i` centred on row `4 + i`.
pub open spec fn body_plan(width: int, lines: Seq<(Seq<char>, Tone)>) -> Seq<(int, int, Seq<char>, Tone)> {
    Seq::new(
        lines.len(),
        |i: int| (center_offset(width, lines[i].0.len() as int), 4 + i, lines[i].0, lines[i].1),
    )
}

/// A whole frame: the bold title centred on row 1, the body lines, the dim
/// footer at column 1 three rows above the bottom, then the status bar.
pub open spec fn frame_plan(width: int, height: int, s: ScreenView, secs: nat) -> Seq<
    (int, int, Seq<char>, Tone),
> {
    seq![(center_offset(width, s.title.len() as int), 1int, s.title, Tone::Bold)] + body_plan(
        width,
        s.lines,
    ) + seq![(1int, sat_sub(height, 3), s.footer, Tone::Dim)] + status_bar_plan(
        width,
        height,
        s.lock_idx,
        s.lock_total,
        s.status,
        secs,
    )
}

/// The writes of the status bar of a `width` by `height` terminal.
pub fn draw_status_bar(
    width: u16,
    height: u16,
    lock_idx: usize,
    lock_total: usize,
    status: &str,
    elapsed_secs: u64,
) -> (r: Vec<Placed>)
    ensures
        plan_of(r@) == status_bar_plan(
            width as int,
            height as int,
            lock_idx as nat,
            lock_total as nat,
            status@,
            elapsed_secs as nat,
        ),
{
    let time = format_elapsed(elapsed_secs);
    let bar_y: u16 = if height > 1 {
        height - 1
    } else {
        0
    };
    let mut fill = String::new();
    let mut i: u16 = 0;
    while i < width
        invariant
            i <= width,
            fill@ == blank(i as nat),
        decreases width - i,
    {
        fill.append(" ");
        proof {
            reveal_strlit(" ");
        }
        i = i + 1;
        assert(fill@ =~= blank(i as nat));
    }
    let mut label = String::from_str("LOCK ");
    let idx_text = decimal_string(lock_idx as u64);
    let total_text = decimal_string(lock_total as u64);
    label.append(idx_text.as_str());
    label.append("/");
    label.append(total_text.as_str());
    let time_x = center_x(width, time.as_str());
    let slen = status.unicode_len();
    let status_x: u16 = if slen >= width as usize {
        0
    } else if slen + 9 >= width as usize {
        0
    } else {
        (width as usize - (slen + 9)) as u16
    };
    let mut status_text = String::from_str("STATUS: ");
    status_text.append(status);
    let mut r: Vec<Placed> = Vec::new();
    r.push(Placed { x: 0, y: bar_y, text: fill, tone: Tone::Bar });
    r.push(Placed { x: 1, y: bar_y, text: label, tone: Tone::BarBold });
    r.push(Placed { x: time_x, y: bar_y, text: time, tone: Tone::BarBold });
    r.push(Placed { x: status_x, y: bar_y, text: status_text, tone: Tone::BarBold });
    assert(plan_of(r@) =~= status_bar_plan(
        width as int,
        height as int,
        lock_idx as nat,
        lock_total as nat,
        status@,
        elapsed_secs as nat,
    ));
    r
}

/// The writes that draw `screen` on a `width` by `height` terminal after it has
/// been cleared, `elapsed_secs` seconds into the session.
pub fn draw_frame(width: u16, height: u16, screen: &Screen, elapsed_secs: u64) -> (r: Vec<Placed>)
    requires
        screen.lines@.len() + 4 <= u16::MAX,
    ensures
        plan_of(r@) == frame_plan(width as int, height as int, screen@, elapsed_secs as nat),
{
    let ghost lines = screen@.lines;
    let ghost body = body_plan(width as int, lines);
    let mut r: Vec<Placed> = Vec::new();
    let title_x = center_x(width, screen.title.as_str());
    r.push(Placed { x: title_x, y: 1, text: screen.title.clone(), tone: Tone::Bold });
    let n = screen.lines.len();
    let mut i: usize = 0;
    while i < n
        invariant
            n == screen.lines@.len(),
            n + 4 <= u16::MAX,
            i <= n,
            lines == screen@.lines,
            body == body_plan(width as int, lines),
            r@.len() == 1 + i,
            r@[0]@ == (center_offset(width as int, screen.title@.len() as int), 1int, screen.title@, Tone::Bold),
            forall|j: int| 0 <= j < i ==> #[trigger] r@[1 + j]@ == body[j],
        decreases n - i,
    {
        let line = &screen.lines[i];
        let x = center_x(width, line.text.as_str());
        let y: u16 = 4 + i as u16;
        r.push(Placed { x: x, y: y, text: line.text.clone(), tone: line.tone });
        assert(r@[1 + i as int]@ == body[i as int]);
        i = i + 1;
    }
    let footer_y: u16 = if height > 3 {
        height - 3
    } else {
        0
    };
    r.push(Placed { x: 1, y: footer_y, text: screen.footer.clone(), tone: Tone::Dim });
    let mut bar = draw_status_bar(
        width,
        height,
        screen.lock_idx,
        screen.lock_total,
        screen.status.as_str(),
        elapsed_secs,
    );
    let ghost head = r@;
    let ghost tail = bar@;
    r.append(&mut bar);
    assert(plan_of(r@) =~= frame_plan(width as int, height as int, screen@, elapsed_secs as nat)) by {
        assert(plan_of(r@) =~= plan_of(head) + plan_of(tail));
        assert forall|j: int| 0 <= j < n implies plan_of(r@)[1 + j] == body[j] by {
            assert(r@[1 + j]@ == body[j]);
        }
    }
    r
}

} // verus!
