use vstd::prelude::*;
use vstd::string::*;

verus! {

/// The character of the decimal digit `d`.
pub open spec fn digit_of(d: nat) -> char {
    seq!['0', '1', '2', '3', '4', '5', '6', '7', '8', '9'][d as int]
}

/// The decimal digits of `n`, most significant first, with no leading zero.
pub open spec fn decimal_of(n: nat) -> Seq<char>
    decreases n,
{
    if n < 10 {
        seq![digit_of(n)]
    } else {
        decimal_of(n / 10).push(digit_of(n % 10))
    }
}

/// The line that heads the overlay: `= Debug (frame F) =`.
pub open spec fn header_of(frame: u64) -> Seq<char> {
    "= Debug (frame "@ + decimal_of(frame as nat) + ") ="@
}

/// A line of the history: the frame number, a colon and a space, then the text.
pub open spec fn log_line_of(frame: u64, text: Seq<char>) -> Seq<char> {
    decimal_of(frame as nat) + ": "@ + text
}

fn digit_str(d: u64) -> (r: &'static str)
    requires
        d < 10,
    ensures
        r@ =~= seq![digit_of(d as nat)],
{
    if d == 0 {
        proof { reveal_strlit("0"); }
        "0"
    } else if d == 1 {
        proof { reveal_strlit("1"); }
        "1"
    } else if d == 2 {
        proof { reveal_strlit("2"); }
        "2"
    } else if d == 3 {
        proof { reveal_strlit("3"); }
        "3"
    } else if d == 4 {
        proof { reveal_strlit("4"); }
        "4"
    } else if d == 5 {
        proof { reveal_strlit("5"); }
        "5"
    } else if d == 6 {
        proof { reveal_strlit("6"); }
        "6"
    } else if d == 7 {
        proof { reveal_strlit("7"); }
        "7"
    } else if d == 8 {
        proof { reveal_strlit("8"); }
        "8"
    } else {
        proof { reveal_strlit("9"); }
        "9"
    }
}

/// `n` written in decimal.
pub fn decimal(n: u64) -> (r: String)
    ensures
        r@ == decimal_of(n as nat),
    decreases n,
{
    if n < 10 {
        String::from_str(digit_str(n))
    } else {
        let mut s = decimal(n / 10);
        s.append(digit_str(n % 10));
        s
    }
}

/// The line that heads the overlay for frame `frame`.
pub fn header(frame: u64) -> (r: String)
    ensures
        r@ == header_of(frame),
{
    let mut s = String::from_str("= Debug (frame ");
    let digits = decimal(frame);
    s.append(digits.as_str());
    s.append(") =");
    s
}

/// The line of the history that shows `text`, recorded in frame `frame`.
pub fn log_line(frame: u64, text: &str) -> (r: String)
    ensures
        r@ == log_line_of(frame, text@),
{
    let mut s = decimal(frame);
    s.append(": ");
    s.append(text);
    s
}

} // verus!
