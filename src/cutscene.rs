//! The animation between the welcome screen and the first question: a small
//! jet sweeps across the middle of the screen, one column per tick.

use vstd::prelude::*;
use crate::frame::{draw_frame, frame_plan, plan_of, Placed, Tone};
use crate::screens::{cutscene_screen, cutscene_view};

verus! {

/// Width in columns of the jet glyph (its wider, lower row).
pub const JET_WIDTH: u16 = 13;

/// Column of the first tick: 0, when the row has room for the glyph.
pub open spec fn first_column(width: u16) -> Option<u16> {
    if JET_WIDTH <= width {
        Some(0)
    } else {
        None
    }
}

/// Column of the tick after the one at `x`: one further right, while the glyph
/// still fits on the row; none once it has reached the right edge.
pub open spec fn next_column(width: u16, x: u16) -> Option<u16> {
    if x + JET_WIDTH < width {
        Some((x + 1) as u16)
    } else {
        None
    }
}

/// Column of tick `k`, following the sweep from its start; `None` once it is over.
pub open spec fn sweep_column(width: u16, k: nat) -> Option<u16>
    decreases k,
{
    if k == 0 {
        first_column(width)
    } else {
        match sweep_column(width, (k - 1) as nat) {
            Some(x) => next_column(width, x),
            None => None,
        }
    }
}

/// Column of the animation's first tick on a row of `width` columns.
pub fn cutscene_first(width: u16) -> (r: Option<u16>)
    ensures
        r == first_column(width),
{
    if JET_WIDTH <= width {
        Some(0)
    } else {
        None
    }
}

/// Column of the tick after the one at `x`, or `None` when the animation ends.
pub fn cutscene_next(width: u16, x: u16) -> (r: Option<u16>)
    ensures
        r == next_column(width, x),
{
    if x < width && width - x > JET_WIDTH {
        Some(x + 1)
    } else {
        None
    }
}

/// The sweep visits every column from 0 to `width - JET_WIDTH`, one per tick
/// and in increasing order, then ends without wrapping round; on a row too
/// narrow for the glyph it has no tick at all.
pub proof fn lemma_sweep(width: u16, k: nat)
    ensures
        sweep_column(width, k) == if k + JET_WIDTH <= width {
            Some(k as u16)
        } else {
            None::<u16>
        },
    decreases k,
{
    if k > 0 {
        lemma_sweep(width, (k - 1) as nat);
    }
}

/// The writes of the animation's tick at column `x`: the surrounding screen,
/// then the two rows of the jet at half the terminal's height.
pub fn jet_cutscene(width: u16, height: u16, lock_total: usize, x: u16, elapsed_secs: u64) -> (r:
    Vec<Placed>)
    ensures
        plan_of(r@) == frame_plan(
            width as int,
            height as int,
            cutscene_view(lock_total as nat),
            elapsed_secs as nat,
        ) + seq![
            (x as int, height as int / 2, "    __|__"@, Tone::Plain),
            (x as int, height as int / 2 + 1, "--o--(_)--o--"@, Tone::Plain),
        ],
{
    let screen = cutscene_screen(lock_total);
    proof {
        assert(screen@.lines.len() == 1);
    }
    let mut r = draw_frame(width, height, &screen, elapsed_secs);
    let y = height / 2;
    let ghost head = r@;
    r.push(Placed { x, y, text: String::from_str("    __|__"), tone: Tone::Plain });
    r.push(Placed { x, y: y + 1, text: String::from_str("--o--(_)--o--"), tone: Tone::Plain });
    assert(plan_of(r@) =~= plan_of(head) + seq![
        (x as int, height as int / 2, "    __|__"@, Tone::Plain),
        (x as int, height as int / 2 + 1, "--o--(_)--o--"@, Tone::Plain),
    ]);
    r
}

} // verus!
