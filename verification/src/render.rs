//! The sized-mode presentation: a bar filled in proportion to the progress,
//! its colour tier and the percentage beside it.

use vstd::prelude::*;
use crate::transfer::FULL;

verus! {

/// The number of cells between the brackets of the bar.
pub const BAR_WIDTH: u32 = 29;

/// The number of frames of the countdown between two sized-mode attempts.
pub const COUNTDOWN_FRAMES: u32 = 100;

/// The colour tier of a progress value.
#[derive(Clone, Copy, Debug, PartialEq, Eq, Structural)]
pub enum Tier {
    /// Up to 30 percent.
    Low,
    /// Above 30 and up to 70 percent.
    Mid,
    /// Above 70 percent.
    High,
}

/// One frame of the sized-mode bar.
#[derive(Debug)]
pub struct SizedFrame {
    pub tier: Tier,
    /// The bar with its brackets, `BAR_WIDTH + 2` characters.
    pub bar: String,
    /// The percentage with two decimals, right-aligned in six characters.
    pub percent: String,
}

/// One frame of the countdown that is shown before a sized-mode retry.
#[derive(Clone, Copy, Debug, PartialEq, Eq, Structural)]
pub struct CountdownFrame {
    /// The seconds left, counting down from five.
    pub remaining_secs: u32,
    /// The number of dots after the message, from none to three.
    pub dots: u32,
}

/// A progress value cut off at a full bar.
pub open spec fn clamped(bp: nat) -> nat {
    if bp > 10000 {
        10000
    } else {
        bp
    }
}

/// The tier of a progress value in basis points.
pub open spec fn tier_for(bp: nat) -> Tier {
    if bp <= 3000 {
        Tier::Low
    } else if bp <= 7000 {
        Tier::Mid
    } else {
        Tier::High
    }
}

/// The number of filled cells: the clamped fraction of the bar's width,
/// rounded to the nearest cell.
pub open spec fn filled(bp: nat) -> nat {
    (clamped(bp) * 29 + 5000) / 10000
}

/// The bar: the filled cells first, blanks after them, in brackets.
pub open spec fn bar_chars(bp: nat) -> Seq<char> {
    seq!['['] + Seq::new(
        29,
        |i: int|
            if i < filled(bp) {
                '#'
            } else {
                ' '
            },
    ) + seq![']']
}

/// The character of a decimal digit.
pub open spec fn digit_char(d: nat) -> char {
    if d == 0 {
        '0'
    } else if d == 1 {
        '1'
    } else if d == 2 {
        '2'
    } else if d == 3 {
        '3'
    } else if d == 4 {
        '4'
    } else if d == 5 {
        '5'
    } else if d == 6 {
        '6'
    } else if d == 7 {
        '7'
    } else if d == 8 {
        '8'
    } else {
        '9'
    }
}

/// The percentage of a clamped progress value: up to three digits padded
/// with blanks on the left, a point, and two decimals.
pub open spec fn percent_chars(bp: nat) -> Seq<char> {
    let whole = clamped(bp) / 100;
    let cents = clamped(bp) % 100;
    seq![
        if whole >= 100 {
            digit_char(whole / 100)
        } else {
            ' '
        },
        if whole >= 10 {
            digit_char(whole / 10 % 10)
        } else {
            ' '
        },
        digit_char(whole % 10),
        '.',
        digit_char(cents / 10),
        digit_char(cents % 10),
    ]
}

/// The countdown frame number `counter`: five seconds at twenty frames a
/// second, with the dots advancing every eighth frame.
pub open spec fn countdown_at(counter: nat) -> Option<CountdownFrame> {
    if counter < 100 {
        Some(
            CountdownFrame {
                remaining_secs: (5 - counter / 20) as u32,
                dots: (counter / 8 % 4) as u32,
            },
        )
    } else {
        None
    }
}

/// The colour tier of a progress value.
pub fn tier_of(bp: u32) -> (tier: Tier)
    ensures
        tier == tier_for(bp as nat),
{
    if bp <= 3000 {
        Tier::Low
    } else if bp <= 7000 {
        Tier::Mid
    } else {
        Tier::High
    }
}

/// The number of filled cells of the bar.
pub fn filled_cells(bp: u32) -> (cells: u32)
    ensures
        cells == filled(bp as nat),
        cells <= BAR_WIDTH,
{
    let capped: u32 = if bp > FULL {
        FULL
    } else {
        bp
    };
    (capped * 29 + 5000) / 10000
}

fn digit_text(d: u32) -> (text: &'static str)
    requires
        d < 10,
    ensures
        text@ == seq![digit_char(d as nat)],
{
    proof {
        reveal_strlit("0");
        reveal_strlit("1");
        reveal_strlit("2");
        reveal_strlit("3");
        reveal_strlit("4");
        reveal_strlit("5");
        reveal_strlit("6");
        reveal_strlit("7");
        reveal_strlit("8");
        reveal_strlit("9");
    }
    let text = if d == 0 {
        "0"
    } else if d == 1 {
        "1"
    } else if d == 2 {
        "2"
    } else if d == 3 {
        "3"
    } else if d == 4 {
        "4"
    } else if d == 5 {
        "5"
    } else if d == 6 {
        "6"
    } else if d == 7 {
        "7"
    } else if d == 8 {
        "8"
    } else {
        "9"
    };
    assert(text@ =~= seq![digit_char(d as nat)]);
    text
}

/// Draws the bar for a progress value in basis points.
pub fn bar_text(bp: u32) -> (bar: String)
    ensures
        bar@ == bar_chars(bp as nat),
{
    let cells = filled_cells(bp);
    proof {
        reveal_strlit("[");
        reveal_strlit("]");
        reveal_strlit("#");
        reveal_strlit(" ");
    }
    let mut bar = String::from_str("[");
    let mut i: u32 = 0;
    while i < BAR_WIDTH
        invariant
            i <= BAR_WIDTH,
            cells == filled(bp as nat),
            "#"@ == seq!['#'],
            " "@ == seq![' '],
            bar@ == seq!['['] + Seq::new(
                i as nat,
                |k: int|
                    if k < filled(bp as nat) {
                        '#'
                    } else {
                        ' '
                    },
            ),
        decreases BAR_WIDTH - i,
    {
        if i < cells {
            bar.append("#");
        } else {
            bar.append(" ");
        }
        i = i + 1;
        assert(bar@ =~= seq!['['] + Seq::new(
            i as nat,
            |k: int|
                if k < filled(bp as nat) {
                    '#'
                } else {
                    ' '
                },
        ));
    }
    bar.append("]");
    assert(bar@ =~= bar_chars(bp as nat));
    bar
}

/// Writes the percentage of a progress value in basis points.
pub fn percent_text(bp: u32) -> (text: String)
    ensures
        text@ == percent_chars(bp as nat),
{
    let capped: u32 = if bp > FULL {
        FULL
    } else {
        bp
    };
    let whole: u32 = capped / 100;
    let cents: u32 = capped % 100;
    proof {
        reveal_strlit(" ");
        reveal_strlit(".");
    }
    let mut text = String::from_str(
        if whole >= 100 {
            digit_text(whole / 100)
        } else {
            " "
        },
    );
    text.append(
        if whole >= 10 {
            digit_text(whole / 10 % 10)
        } else {
            " "
        },
    );
    text.append(digit_text(whole % 10));
    text.append(".");
    text.append(digit_text(cents / 10));
    text.append(digit_text(cents % 10));
    assert(text@ =~= percent_chars(bp as nat));
    text
}

/// The frame that shows `current_progress`, a value in basis points; one
/// above a full bar is drawn as a full bar.
pub fn update_progress(current_progress: u32) -> (frame: SizedFrame)
    ensures
        frame.tier == tier_for(clamped(current_progress as nat)),
        frame.bar@ == bar_chars(current_progress as nat),
        frame.percent@ == percent_chars(current_progress as nat),
{
    SizedFrame {
        tier: tier_of(current_progress),
        bar: bar_text(current_progress),
        percent: percent_text(current_progress),
    }
}

/// The frame number `counter` of the countdown before a sized-mode retry,
/// or `None` once the countdown is over.
pub fn countdown_frame(counter: u32) -> (frame: Option<CountdownFrame>)
    ensures
        frame == countdown_at(counter as nat),
{
    if counter < COUNTDOWN_FRAMES {
        Some(CountdownFrame { remaining_secs: 5 - counter / 20, dots: counter / 8 % 4 })
    } else {
        None
    }
}

} // verus!
