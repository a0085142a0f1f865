//! The two textual forms: a vector as `(x, y, z)`, and three colour levels as one
//! line `R G B` of decimal numbers.

use crate::vector::Vec3;
use std::fmt::Display;
use vstd::prelude::*;
use vstd::string::to_string_from_display_ensures;

verus! {

/// The character of the decimal digit `d`.
pub open spec fn digit_char(d: nat) -> char
    recommends
        d < 10,
{
    if d == 0 {
        '0'
    } else if d == 1 {
        '1'
    } else if d == 2 {
        '2'
    } else if d == 3 {
        '3'
    } else if d == 4 {
        '4'
    } else if d == 5 {
        '5'
    } else if d == 6 {
        '6'
    } else if d == 7 {
        '7'
    } else if d == 8 {
        '8'
    } else {
        '9'
    }
}

/// The decimal numeral of `n`: its digits from the most significant to the least,
/// without leading zeros; the numeral of zero is `0`.
pub open spec fn decimal(n: nat) -> Seq<char>
    decreases n,
{
    if n < 10 {
        seq![digit_char(n)]
    } else {
        decimal(n / 10).push(digit_char(n % 10))
    }
}

/// The form `(x, y, z)` made of the three texts `x`, `y` and `z`.
pub open spec fn tuple_form(x: Seq<char>, y: Seq<char>, z: Seq<char>) -> Seq<char> {
    seq!['('] + x + seq![',', ' '] + y + seq![',', ' '] + z + seq![')']
}

/// The form `R G B`: the decimal numerals of the three levels, one space between them.
pub open spec fn color_line(r: nat, g: nat, b: nat) -> Seq<char> {
    decimal(r) + seq![' '] + decimal(g) + seq![' '] + decimal(b)
}

/// The one-character text of the decimal digit `d`.
fn digit_text(d: u64) -> (s: &'static str)
    requires
        d < 10,
    ensures
        s@ == seq![digit_char(d as nat)],
{
    proof {
        reveal_strlit("0");
        reveal_strlit("1");
        reveal_strlit("2");
        reveal_strlit("3");
        reveal_strlit("4");
        reveal_strlit("5");
        reveal_strlit("6");
        reveal_strlit("7");
        reveal_strlit("8");
        reveal_strlit("9");
    }
    if d == 0 {
        "0"
    } else if d == 1 {
        "1"
    } else if d == 2 {
        "2"
    } else if d == 3 {
        "3"
    } else if d == 4 {
        "4"
    } else if d == 5 {
        "5"
    } else if d == 6 {
        "6"
    } else if d == 7 {
        "7"
    } else if d == 8 {
        "8"
    } else {
        "9"
    }
}

/// Writes `n` as a decimal numeral.
pub fn decimal_text(n: u64) -> (s: String)
    ensures
        s@ == decimal(n as nat),
    decreases n,
{
    if n < 10 {
        String::from_str(digit_text(n))
    } else {
        let mut s = decimal_text(n / 10);
        s.append(digit_text(n % 10));
        s
    }
}

/// Writes three colour levels as the line `R G B`.
pub fn color_text(r: u64, g: u64, b: u64) -> (s: String)
    ensures
        s@ == color_line(r as nat, g as nat, b as nat),
{
    proof {
        reveal_strlit(" ");
    }
    let mut s = decimal_text(r);
    s.append(" ");
    s.append(decimal_text(g).as_str());
    s.append(" ");
    s.append(decimal_text(b).as_str());
    s
}

/// Writes the form `(x, y, z)` around three texts.
pub fn tuple_text(x: &str, y: &str, z: &str) -> (s: String)
    ensures
        s@ == tuple_form(x@, y@, z@),
{
    proof {
        reveal_strlit("(");
        reveal_strlit(", ");
        reveal_strlit(")");
    }
    let mut s = String::from_str("(");
    s.append(x);
    s.append(", ");
    s.append(y);
    s.append(", ");
    s.append(z);
    s.append(")");
    s
}

impl<T: Display> Vec3<T> {
    /// The human-readable form `(x, y, z)`, each component written as the scalar
    /// type displays it.
    pub fn to_string(&self) -> (s: String)
        ensures
            (exists|x: String, y: String, z: String|
                {
                    &&& #[trigger] to_string_from_display_ensures::<T>(&self@[0], x)
                    &&& #[trigger] to_string_from_display_ensures::<T>(&self@[1], y)
                    &&& #[trigger] to_string_from_display_ensures::<T>(&self@[2], z)
                    &&& s@ == tuple_form(x@, y@, z@)
                }),
    {
        let x = self[0].to_string();
        let y = self[1].to_string();
        let z = self[2].to_string();
        tuple_text(x.as_str(), y.as_str(), z.as_str())
    }
}

} // verus!
