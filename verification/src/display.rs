//! Rendering one line of the status-bar display.
//!
//! The line is an icon, a space, and the remaining time as `MM:SS`: minutes
//! and seconds each zero-padded to two digits, the minutes unbounded rather
//! than wrapped at sixty.

use vstd::prelude::*;

verus! {

/// The character for one decimal digit.
pub open spec fn digit_char(d: nat) -> char {
    if d == 0 {
        '0'
    } else if d == 1 {
        '1'
    } else if d == 2 {
        '2'
    } else if d == 3 {
        '3'
    } else if d == 4 {
        '4'
    } else if d == 5 {
        '5'
    } else if d == 6 {
        '6'
    } else if d == 7 {
        '7'
    } else if d == 8 {
        '8'
    } else {
        '9'
    }
}

/// The shortest decimal digit string for `n`, as characters.
pub open spec fn dec_chars(n: nat) -> Seq<char>
    decreases n,
{
    if n < 10 {
        seq![digit_char(n)]
    } else {
        dec_chars(n / 10).push(digit_char(n % 10))
    }
}

/// `n` in decimal, zero-padded on the left to at least two digits.
pub open spec fn pad2(n: nat) -> Seq<char> {
    if n < 10 {
        seq!['0'] + dec_chars(n)
    } else {
        dec_chars(n)
    }
}

/// The whole display line: `icon MM:SS` for `remaining` seconds left.
pub open spec fn render_spec(icon: Seq<char>, remaining: u64) -> Seq<char> {
    icon + seq![' '] + pad2((remaining as nat) / 60) + seq![':'] + pad2((remaining as nat) % 60)
}

/// The one-character string for a decimal digit.
fn digit_str(d: u64) -> (r: &'static str)
    requires
        d < 10,
    ensures
        r@ == seq![digit_char(d as nat)],
{
    proof {
        reveal_strlit("0");
        reveal_strlit("1");
        reveal_strlit("2");
        reveal_strlit("3");
        reveal_strlit("4");
        reveal_strlit("5");
        reveal_strlit("6");
        reveal_strlit("7");
        reveal_strlit("8");
        reveal_strlit("9");
    }
    match d {
        0 => "0",
        1 => "1",
        2 => "2",
        3 => "3",
        4 => "4",
        5 => "5",
        6 => "6",
        7 => "7",
        8 => "8",
        _ => "9",
    }
}

/// Writing the decimal digits of `n` after whatever `out` already holds.
fn push_decimal_chars(out: &mut String, n: u64)
    ensures
        final(out)@ == old(out)@ + dec_chars(n as nat),
    decreases n,
{
    if n >= 10 {
        push_decimal_chars(out, n / 10);
    }
    out.append(digit_str(n % 10));
    proof {
        assert(out@ =~= old(out)@ + dec_chars(n as nat));
    }
}

/// Build the display line for one round of the polling loop: the pause icon
/// while paused, the play icon otherwise, then the remaining time as `MM:SS`.
pub fn render_line(play_icon: &str, pause_icon: &str, paused: bool, remaining: u64) -> (r: String)
    ensures
        r@ == render_spec(if paused { pause_icon@ } else { play_icon@ }, remaining),
{
    proof {
        reveal_strlit(" ");
        reveal_strlit(":");
        reveal_strlit("0");
    }
    let mut out = String::new();
    if paused {
        out.append(pause_icon);
    } else {
        out.append(play_icon);
    }
    out.append(" ");
    let minutes = remaining / 60;
    let seconds = remaining % 60;
    if minutes < 10 {
        out.append("0");
    }
    push_decimal_chars(&mut out, minutes);
    out.append(":");
    if seconds < 10 {
        out.append("0");
    }
    push_decimal_chars(&mut out, seconds);
    proof {
        let icon = if paused {
            pause_icon@
        } else {
            play_icon@
        };
        assert(out@ =~= render_spec(icon, remaining));
    }
    out
}

} // verus!
