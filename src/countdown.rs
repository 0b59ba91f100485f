//! The text of a countdown: `minutes:seconds`, right-aligned.
use vstd::prelude::*;

verus! {

/// Width of the field that a countdown is right-aligned in.
pub const COUNTDOWN_WIDTH: usize = 5;

/// The decimal digit for `d`, below ten.
pub open spec fn digit_char(d: int) -> char {
    if d == 0 {
        '0'
    } else if d == 1 {
        '1'
    } else if d == 2 {
        '2'
    } else if d == 3 {
        '3'
    } else if d == 4 {
        '4'
    } else if d == 5 {
        '5'
    } else if d == 6 {
        '6'
    } else if d == 7 {
        '7'
    } else if d == 8 {
        '8'
    } else {
        '9'
    }
}

/// The decimal digits of `n`, without leading zeros.
pub open spec fn nat_text(n: nat) -> Seq<char>
    decreases n,
{
    if n < 10 {
        seq![digit_char(n as int)]
    } else {
        nat_text(n / 10) + seq![digit_char((n % 10) as int)]
    }
}

/// The decimal text of `i`, with a minus sign where it is negative.
pub open spec fn int_text(i: int) -> Seq<char> {
    if i < 0 {
        seq!['-'] + nat_text((-i) as nat)
    } else {
        nat_text(i as nat)
    }
}

/// `n`, below one hundred, as two digits.
pub open spec fn two_digits(n: int) -> Seq<char> {
    seq![digit_char(n / 10), digit_char(n % 10)]
}

/// `text` with spaces before it up to `width` characters.
pub open spec fn right_aligned(text: Seq<char>, width: int) -> Seq<char> {
    if text.len() >= width {
        text
    } else {
        Seq::new((width - text.len()) as nat, |i: int| ' ') + text
    }
}

/// The countdown `minutes:seconds`, seconds as two digits, right-aligned in
/// five characters.
pub open spec fn countdown_chars(minutes: int, seconds: int) -> Seq<char> {
    right_aligned(int_text(minutes) + seq![':'] + two_digits(seconds), COUNTDOWN_WIDTH as int)
}

/// The text of one decimal digit.
fn digit_str(d: u128) -> (r: &'static str)
    requires
        d < 10,
    ensures
        r@ == seq![digit_char(d as int)],
{
    proof {
        reveal_strlit("0");
        reveal_strlit("1");
        reveal_strlit("2");
        reveal_strlit("3");
        reveal_strlit("4");
        reveal_strlit("5");
        reveal_strlit("6");
        reveal_strlit("7");
        reveal_strlit("8");
        reveal_strlit("9");
    }
    if d == 0 {
        "0"
    } else if d == 1 {
        "1"
    } else if d == 2 {
        "2"
    } else if d == 3 {
        "3"
    } else if d == 4 {
        "4"
    } else if d == 5 {
        "5"
    } else if d == 6 {
        "6"
    } else if d == 7 {
        "7"
    } else if d == 8 {
        "8"
    } else {
        "9"
    }
}

/// Appends the decimal digits of `n` to `out`.
fn push_decimal(out: &mut String, n: u128)
    ensures
        final(out)@ == old(out)@ + nat_text(n as nat),
    decreases n,
{
    if n >= 10 {
        push_decimal(out, n / 10);
        out.append(digit_str(n % 10));
        assert(final(out)@ =~= old(out)@ + nat_text(n as nat));
    } else {
        out.append(digit_str(n));
    }
}

/// The countdown text for `minutes` and `seconds`: `2:05`, `-1:00`, right-
/// aligned in five characters.
pub fn countdown_text(minutes: i128, seconds: i128) -> (r: String)
    requires
        0 <= seconds < 100,
    ensures
        r@ == countdown_chars(minutes as int, seconds as int),
{
    let mut text = String::new();
    if minutes < 0 {
        proof {
            reveal_strlit("-");
        }
        text.append("-");
        let magnitude: u128 = (-(minutes + 1)) as u128 + 1;
        push_decimal(&mut text, magnitude);
    } else {
        push_decimal(&mut text, minutes as u128);
    }
    proof {
        reveal_strlit(":");
    }
    text.append(":");
    text.append(digit_str((seconds / 10) as u128));
    text.append(digit_str((seconds % 10) as u128));
    assert(text@ =~= int_text(minutes as int) + seq![':'] + two_digits(seconds as int));
    let len = text.as_str().unicode_len();
    if len >= COUNTDOWN_WIDTH {
        return text;
    }
    let mut padded = String::new();
    let mut k: usize = 0;
    while k < COUNTDOWN_WIDTH - len
        invariant
            len == text@.len(),
            len < COUNTDOWN_WIDTH,
            k <= COUNTDOWN_WIDTH - len,
            padded@ == Seq::new(k as nat, |i: int| ' '),
        decreases COUNTDOWN_WIDTH - len - k,
    {
        proof {
            reveal_strlit(" ");
        }
        padded.append(" ");
        k += 1;
        assert(padded@ =~= Seq::new(k as nat, |i: int| ' '));
    }
    padded.append(text.as_str());
    padded
}

} // verus!
