//! Rendering of frames-per-second readings as display text.
//!
//! A reading is carried in tenths of a frame per second, so the whole
//! pipeline works in integers. The displayed form is `FPS: ` followed by the
//! reading rounded to a whole number (halves round up); before any reading
//! exists the display shows the placeholder `FPS: ...`.

use vstd::prelude::*;
use vstd::string::StringExecFns;

verus! {

/// The decimal digit character for `d`, which must be below ten.
pub open spec fn digit_char(d: nat) -> char {
    if d == 0 {
        '0'
    } else if d == 1 {
        '1'
    } else if d == 2 {
        '2'
    } else if d == 3 {
        '3'
    } else if d == 4 {
        '4'
    } else if d == 5 {
        '5'
    } else if d == 6 {
        '6'
    } else if d == 7 {
        '7'
    } else if d == 8 {
        '8'
    } else {
        '9'
    }
}

/// The decimal rendering of `n`, most significant digit first, with no
/// leading zeros (zero itself renders as the single digit `0`).
pub open spec fn dec_digits(n: nat) -> Seq<char>
    decreases n,
{
    if n < 10 {
        seq![digit_char(n)]
    } else {
        dec_digits(n / 10).push(digit_char(n % 10))
    }
}

/// A reading of `tenths` tenths of a frame per second rounded to the nearest
/// whole number, with halves rounding up.
pub open spec fn rounded_of(tenths: nat) -> nat {
    tenths / 10 + if tenths % 10 >= 5 {
        1nat
    } else {
        0nat
    }
}

/// The display text for a known whole-number reading `v`.
pub open spec fn formatted_text(v: nat) -> Seq<char> {
    "FPS: "@ + dec_digits(v)
}

/// The display text shown before the diagnostic source has produced a reading.
pub open spec fn placeholder_text() -> Seq<char> {
    "FPS: ..."@
}

/// The display text for the controller's cached reading: a formatted number
/// once a reading exists, the placeholder before that.
pub open spec fn display_text(last: Option<nat>) -> Seq<char> {
    match last {
        Some(tenths) => formatted_text(rounded_of(tenths)),
        None => placeholder_text(),
    }
}

/// One smoothed frames-per-second reading, held in tenths of a frame per
/// second so that the controller and its contracts work in whole numbers.
/// Its view is the reading in tenths.
#[derive(Clone, Copy, PartialEq, Eq, Structural, Debug)]
pub struct FpsSample {
    tenths: u64,
}

impl View for FpsSample {
    type V = nat;

    closed spec fn view(&self) -> nat {
        self.tenths as nat
    }
}

impl FpsSample {
    /// A reading of `tenths` tenths of a frame per second.
    pub fn from_tenths(tenths: u64) -> (s: FpsSample)
        ensures
            s@ == tenths as nat,
    {
        FpsSample { tenths }
    }

    /// The reading in tenths of a frame per second.
    pub fn tenths(&self) -> (r: u64)
        ensures
            r as nat == self@,
    {
        self.tenths
    }

    /// The reading rounded to the nearest whole number, halves up.
    pub fn rounded(&self) -> (r: u64)
        ensures
            r as nat == rounded_of(self@),
    {
        let whole = self.tenths / 10;
        if self.tenths % 10 >= 5 {
            whole + 1
        } else {
            whole
        }
    }
}

/// Append the single decimal digit `d` to `out`.
fn push_digit(out: &mut String, d: u64)
    requires
        d < 10,
    ensures
        final(out)@ == old(out)@ + seq![digit_char(d as nat)],
{
    let digit: &str = match d {
        0 => "0",
        1 => "1",
        2 => "2",
        3 => "3",
        4 => "4",
        5 => "5",
        6 => "6",
        7 => "7",
        8 => "8",
        _ => "9",
    };
    proof {
        reveal_strlit("0");
        reveal_strlit("1");
        reveal_strlit("2");
        reveal_strlit("3");
        reveal_strlit("4");
        reveal_strlit("5");
        reveal_strlit("6");
        reveal_strlit("7");
        reveal_strlit("8");
        reveal_strlit("9");
        assert(digit@ =~= seq![digit_char(d as nat)]);
    }
    out.append(digit);
}

/// Append the decimal rendering of `n` to `out`.
fn push_decimal(out: &mut String, n: u64)
    ensures
        final(out)@ == old(out)@ + dec_digits(n as nat),
    decreases n,
{
    if n >= 10 {
        push_decimal(out, n / 10);
        push_digit(out, n % 10);
        proof {
            assert(old(out)@ + dec_digits((n / 10) as nat) + seq![digit_char((n % 10) as nat)]
                =~= old(out)@ + dec_digits(n as nat));
        }
    } else {
        push_digit(out, n);
    }
}

/// The display text for the reading `sample`.
pub fn render_value(sample: FpsSample) -> (display: String)
    ensures
        display@ == formatted_text(rounded_of(sample@)),
{
    let mut display = String::from_str("FPS: ");
    let whole = sample.rounded();
    push_decimal(&mut display, whole);
    display
}

/// The display text shown before any reading exists.
pub fn render_placeholder() -> (display: String)
    ensures
        display@ == placeholder_text(),
{
    String::from_str("FPS: ...")
}

/// The empty text written to clear the display.
pub fn cleared_text() -> (display: String)
    ensures
        display@ == Seq::<char>::empty(),
{
    let display = String::from_str("");
    proof {
        reveal_strlit("");
        assert(display@ =~= Seq::<char>::empty());
    }
    display
}

} // verus!
