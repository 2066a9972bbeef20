//! Small pieces of text handling: decimal numerals and ASCII case folding.

use vstd::prelude::*;
use vstd::std_specs::iter::IteratorSpec;

verus! {

/// The decimal digit for a value below ten.
pub open spec fn digit(d: nat) -> char
    recommends
        d < 10,
{
    ('0' as u8 + d) as char
}

/// The decimal numeral of `n`, without sign or leading zeros.
pub open spec fn decimal(n: nat) -> Seq<char>
    decreases n,
{
    if n < 10 {
        seq![digit(n)]
    } else {
        decimal(n / 10).push(digit(n % 10))
    }
}

/// The numeral of one digit.
fn digit_text(d: u64) -> (r: &'static str)
    requires
        d < 10,
    ensures
        r@ == seq![digit(d as nat)],
{
    let digits: &'static str = "0123456789";
    proof {
        reveal_strlit("0123456789");
    }
    let r = digits.substring_char(d as usize, d as usize + 1);
    assert(r@ =~= seq![digits@[d as int]]);
    r
}

/// Writes `n` as a decimal numeral.
pub fn decimal_string(n: u64) -> (r: String)
    ensures
        r@ == decimal(n as nat),
    decreases n,
{
    if n < 10 {
        String::from_str(digit_text(n))
    } else {
        let mut text = decimal_string(n / 10);
        text.append(digit_text(n % 10));
        assert(text@ =~= decimal(n as nat));
        text
    }
}

/// The lower-case form of an ASCII capital; any other character unchanged.
pub open spec fn lower(c: char) -> char {
    if 'A' <= c && c <= 'Z' {
        ((c as u8) + 32) as char
    } else {
        c
    }
}

/// `s` with its ASCII capitals in lower case.
pub open spec fn folded(s: Seq<char>) -> Seq<char> {
    s.map_values(|c: char| lower(c))
}

/// Lowers one character.
fn lower_char(c: char) -> (r: char)
    ensures
        r == lower(c),
{
    if 'A' <= c && c <= 'Z' {
        ((c as u8) + 32) as char
    } else {
        c
    }
}

/// Compares two texts without regard to the case of ASCII letters.
pub fn same_ignoring_case(a: &str, b: &str) -> (r: bool)
    ensures
        r == (folded(a@) == folded(b@)),
{
    let length: usize = a.unicode_len();
    if b.unicode_len() != length {
        assert(folded(a@).len() != folded(b@).len());
        return false;
    }
    let mut others = b.chars();
    let mut at: usize = 0;
    for c in it: a.chars()
        invariant
            it.seq() == a@,
            at == it.index(),
            length == a@.len(),
            length == b@.len(),
            others.remaining() == b@.skip(at as int),
            folded(a@).take(at as int) == folded(b@).take(at as int),
    {
        let d = others.next();
        assert(d == Some(b@[at as int]));
        if lower_char(c) != lower_char(d.unwrap()) {
            assert(folded(a@)[at as int] != folded(b@)[at as int]);
            return false;
        }
        assert(folded(a@).take(at + 1) =~= folded(a@).take(at as int).push(folded(a@)[at as int]));
        assert(folded(b@).take(at + 1) =~= folded(b@).take(at as int).push(folded(b@)[at as int]));
        at = at + 1;
    }
    assert(folded(a@).take(at as int) =~= folded(a@));
    assert(folded(b@).take(at as int) =~= folded(b@));
    true
}

} // verus!
