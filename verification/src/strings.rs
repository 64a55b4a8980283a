//! Text helpers over the UTF-8 encoding of strings.

use vstd::prelude::*;
use vstd::string::StringSliceAdditionalSpecFns;

verus! {

/// Whether two strings are equal, byte for byte.
pub fn str_equal(a: &str, b: &str) -> (eq: bool)
    ensures
        eq == (a.spec_bytes() == b.spec_bytes()),
{
    let x = a.as_bytes();
    let y = b.as_bytes();
    if x.len() != y.len() {
        return false;
    }
    let mut i: usize = 0;
    while i < x.len()
        invariant
            x@ == a.spec_bytes(),
            y@ == b.spec_bytes(),
            x@.len() == y@.len(),
            0 <= i <= x@.len(),
            forall|j: int| 0 <= j < i ==> x@[j] == y@[j],
        decreases x@.len() - i,
    {
        if x[i] != y[i] {
            return false;
        }
        i = i + 1;
    }
    assert(x@ =~= y@);
    true
}

/// Calls `String::push`: `c` appended to `s`, as its documentation states.
#[verifier::external_body]
pub(crate) fn string_push(s: &mut String, c: char)
    ensures
        final(s)@ == old(s)@.push(c),
{
    s.push(c);
}

/// The decimal digit character of `d` (0 to 9).
pub open spec fn digit_char(d: int) -> char {
    if d == 0 {
        '0'
    } else if d == 1 {
        '1'
    } else if d == 2 {
        '2'
    } else if d == 3 {
        '3'
    } else if d == 4 {
        '4'
    } else if d == 5 {
        '5'
    } else if d == 6 {
        '6'
    } else if d == 7 {
        '7'
    } else if d == 8 {
        '8'
    } else {
        '9'
    }
}

/// The decimal digits of `n`, most significant first, without leading zeros.
pub open spec fn nat_digits(n: nat) -> Seq<char>
    decreases n,
{
    if n < 10 {
        seq![digit_char(n as int)]
    } else {
        nat_digits(n / 10).push(digit_char((n % 10) as int))
    }
}

/// The decimal text of `n`, with a leading minus sign when negative.
pub open spec fn int_decimal(n: int) -> Seq<char> {
    if n < 0 {
        seq!['-'] + nat_digits((-n) as nat)
    } else {
        nat_digits(n as nat)
    }
}

/// The digit character of `d`.
pub fn digit_to_char(d: u32) -> (c: char)
    requires
        d < 10,
    ensures
        c == digit_char(d as int),
{
    if d == 0 {
        '0'
    } else if d == 1 {
        '1'
    } else if d == 2 {
        '2'
    } else if d == 3 {
        '3'
    } else if d == 4 {
        '4'
    } else if d == 5 {
        '5'
    } else if d == 6 {
        '6'
    } else if d == 7 {
        '7'
    } else if d == 8 {
        '8'
    } else {
        '9'
    }
}

/// The decimal text of `n`.
pub fn decimal_string(n: i32) -> (s: String)
    requires
        n > i32::MIN,
    ensures
        s@ == int_decimal(n as int),
{
    let neg = n < 0;
    let orig: u32 = if neg { (-n) as u32 } else { n as u32 };
    let mut m: u32 = orig;
    let mut digits: Vec<char> = Vec::new();
    loop
        invariant_except_break
            nat_digits(orig as nat) == nat_digits(m as nat) + digits@,
        ensures
            nat_digits(orig as nat) == digits@,
        decreases m,
    {
        let d = m % 10;
        let c = digit_to_char(d);
        let ghost before = digits@;
        digits.insert(0, c);
        assert(digits@ =~= seq![c] + before);
        if m < 10 {
            assert(nat_digits(m as nat) =~= seq![c]);
            assert(nat_digits(orig as nat) =~= digits@);
            break;
        }
        let ghost old_m = m;
        m = m / 10;
        assert(nat_digits(old_m as nat) == nat_digits(m as nat).push(c));
        assert(nat_digits(m as nat).push(c) + before =~= nat_digits(m as nat) + (seq![c]
            + before));
    }
    let mut s = String::new();
    if neg {
        string_push(&mut s, '-');
    }
    let ghost prefix = s@;
    let mut i: usize = 0;
    while i < digits.len()
        invariant
            0 <= i <= digits@.len(),
            s@ == prefix + digits@.subrange(0, i as int),
        decreases digits@.len() - i,
    {
        string_push(&mut s, digits[i]);
        i = i + 1;
        assert(digits@.subrange(0, i as int) =~= digits@.subrange(0, i - 1).push(digits@[i - 1]));
    }
    assert(digits@.subrange(0, i as int) =~= digits@);
    assert(prefix =~= (if neg { seq!['-'] } else { Seq::<char>::empty() }));
    assert(s@ =~= int_decimal(n as int));
    s
}

} // verus!
