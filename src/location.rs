//! Annotating messages with the source location they come from.
use vstd::prelude::*;
use vstd::string::*;

verus! {

/// The decimal digit for `d`, which is below ten.
pub open spec fn digit_char(d: nat) -> char {
    if d == 0 {
        '0'
    } else if d == 1 {
        '1'
    } else if d == 2 {
        '2'
    } else if d == 3 {
        '3'
    } else if d == 4 {
        '4'
    } else if d == 5 {
        '5'
    } else if d == 6 {
        '6'
    } else if d == 7 {
        '7'
    } else if d == 8 {
        '8'
    } else {
        '9'
    }
}

/// `n` written in decimal, with no leading zeros.
pub open spec fn decimal(n: nat) -> Seq<char>
    decreases n,
{
    if n < 10 {
        seq![digit_char(n)]
    } else {
        decimal(n / 10) + seq![digit_char(n % 10)]
    }
}

/// The location tag `file:line`.
pub open spec fn location_text(file: Seq<char>, line: nat) -> Seq<char> {
    file + seq![':'] + decimal(line)
}

/// `message` behind the location tag: `file:line: message`.
pub open spec fn annotated_text(file: Seq<char>, line: nat, message: Seq<char>) -> Seq<char> {
    location_text(file, line) + seq![':', ' '] + message
}

fn digit_str(d: u32) -> (r: &'static str)
    requires
        d < 10,
    ensures
        r@ == seq![digit_char(d as nat)],
{
    proof {
        reveal_strlit("0");
        reveal_strlit("1");
        reveal_strlit("2");
        reveal_strlit("3");
        reveal_strlit("4");
        reveal_strlit("5");
        reveal_strlit("6");
        reveal_strlit("7");
        reveal_strlit("8");
        reveal_strlit("9");
    }
    if d == 0 {
        "0"
    } else if d == 1 {
        "1"
    } else if d == 2 {
        "2"
    } else if d == 3 {
        "3"
    } else if d == 4 {
        "4"
    } else if d == 5 {
        "5"
    } else if d == 6 {
        "6"
    } else if d == 7 {
        "7"
    } else if d == 8 {
        "8"
    } else {
        "9"
    }
}

/// `n` written in decimal.
pub fn decimal_string(n: u32) -> (r: String)
    ensures
        r@ == decimal(n as nat),
    decreases n,
{
    if n < 10 {
        digit_str(n).to_owned()
    } else {
        let mut r = decimal_string(n / 10);
        r.append(digit_str(n % 10));
        r
    }
}

/// The location tag `file:line`, as used to mark where a message comes from.
pub fn location(file: &str, line: u32) -> (r: String)
    ensures
        r@ == location_text(file@, line as nat),
{
    let mut r = file.to_owned();
    r.append(":");
    r.append(decimal_string(line).as_str());
    proof {
        reveal_strlit(":");
    }
    r
}

/// `message` prefixed with its location: `file:line: message`.
pub fn annotate(file: &str, line: u32, message: &str) -> (r: String)
    ensures
        r@ == annotated_text(file@, line as nat, message@),
{
    let mut r = location(file, line);
    r.append(": ");
    r.append(message);
    proof {
        reveal_strlit(": ");
    }
    r
}

} // verus!
