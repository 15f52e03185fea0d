//! The text of a caption: a label, the utilisation rounded to a whole
//! percent, and the bytes in use over the capacity.

use vstd::prelude::*;
use vstd::string::StringExecFns;

verus! {

/// The character of one decimal digit.
pub open spec fn digit(d: nat) -> char
    recommends
        d < 10,
{
    seq!['0', '1', '2', '3', '4', '5', '6', '7', '8', '9'][d as int]
}

/// `n` in decimal, without leading zeros.
pub open spec fn decimal(n: nat) -> Seq<char>
    decreases n,
{
    if n < 10 {
        seq![digit(n)]
    } else {
        decimal(n / 10).push(digit(n % 10))
    }
}

/// `s` behind as many blanks as it takes to fill `width` characters.
pub open spec fn pad_left(s: Seq<char>, width: nat) -> Seq<char> {
    if s.len() >= width {
        s
    } else {
        Seq::new((width - s.len()) as nat, |i: int| ' ') + s
    }
}

/// The whole percent nearest to `hundredths` hundredths of a percent; of two
/// equally near, the even one.
pub open spec fn whole_percent(hundredths: nat) -> nat {
    let below = hundredths / 100;
    let rest = hundredths % 100;
    if rest > 50 || (rest == 50 && below % 2 == 1) {
        below + 1
    } else {
        below
    }
}

/// The percentage as a caption shows it: rounded to a whole percent, right
/// aligned in three characters.
pub open spec fn percent_field(hundredths: nat) -> Seq<char> {
    pad_left(decimal(whole_percent(hundredths)), 3)
}

/// The text of a caption: label, percentage, and used over total.
pub open spec fn caption_text(
    label: Seq<char>,
    hundredths: nat,
    used: Seq<char>,
    total: Seq<char>,
) -> Seq<char> {
    label + " "@ + percent_field(hundredths) + "% "@ + used + "/"@ + total
}

/// `whole_percent` rounds to the nearest: the result is at most half a
/// percent away, exactly half only where it is even, and no other whole
/// percent is that near.
pub proof fn whole_percent_is_nearest(hundredths: nat, other: nat)
    ensures
        -50 <= 100 * whole_percent(hundredths) - hundredths <= 50,
        100 * whole_percent(hundredths) - hundredths == 50 || 100 * whole_percent(hundredths)
            - hundredths == -50 ==> whole_percent(hundredths) % 2 == 0,
        -50 < 100 * other - hundredths < 50 ==> other == whole_percent(hundredths),
        (100 * other - hundredths == 50 || 100 * other - hundredths == -50) && other % 2 == 0
            ==> other == whole_percent(hundredths),
{
}

/// The whole percent nearest to `hundredths`, ties to even.
pub fn round_percent(hundredths: u16) -> (whole: u16)
    ensures
        whole == whole_percent(hundredths as nat),
        whole <= 656,
{
    let below: u16 = hundredths / 100;
    let rest: u16 = hundredths % 100;
    if rest > 50 || (rest == 50 && below % 2 == 1) {
        below + 1
    } else {
        below
    }
}

/// One decimal digit as text.
pub fn digit_str(d: u16) -> (s: &'static str)
    requires
        d < 10,
    ensures
        s@ == seq![digit(d as nat)],
{
    proof {
        reveal_strlit("0");
        reveal_strlit("1");
        reveal_strlit("2");
        reveal_strlit("3");
        reveal_strlit("4");
        reveal_strlit("5");
        reveal_strlit("6");
        reveal_strlit("7");
        reveal_strlit("8");
        reveal_strlit("9");
    }
    let s = match d {
        0 => "0",
        1 => "1",
        2 => "2",
        3 => "3",
        4 => "4",
        5 => "5",
        6 => "6",
        7 => "7",
        8 => "8",
        _ => "9",
    };
    s
}

/// The percentage field of a caption for `hundredths` hundredths of a
/// percent.
pub fn percent_text(hundredths: u16) -> (text: String)
    ensures
        text@ == percent_field(hundredths as nat),
{
    let whole: u16 = round_percent(hundredths);
    let mut text = String::new();
    proof {
        reveal_strlit(" ");
        reveal_strlit("  ");
        reveal_with_fuel(decimal, 3);
    }
    if whole < 10 {
        text.append("  ");
        text.append(digit_str(whole));
    } else if whole < 100 {
        text.append(" ");
        text.append(digit_str(whole / 10));
        text.append(digit_str(whole % 10));
    } else {
        text.append(digit_str(whole / 100));
        text.append(digit_str(whole / 10 % 10));
        text.append(digit_str(whole % 10));
    }
    text
}

/// The text of a caption, from its label, the percentage in hundredths and
/// the two byte counts as already rendered.
pub fn caption(label: &str, hundredths: u16, used: &str, total: &str) -> (text: String)
    ensures
        text@ == caption_text(label@, hundredths as nat, used@, total@),
{
    let field = percent_text(hundredths);
    let mut text = String::from_str(label);
    text.append(" ");
    text.append(field.as_str());
    text.append("% ");
    text.append(used);
    text.append("/");
    text.append(total);
    text
}

} // verus!
