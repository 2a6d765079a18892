//! String helpers shared by the resolver and the code generator: content
//! equality of string slices, character-wise name mangling, splitting an
//! opcode at its first separator, and decimal rendering of integers.

use vstd::prelude::*;

verus! {

/// Relies on `str`'s `PartialEq`: two string slices are equal exactly when
/// their character sequences are equal.
#[verifier::external_body]
pub(crate) fn str_eq(a: &str, b: &str) -> (r: bool)
    ensures
        r == (a@ == b@),
{
    a == b
}

/// Relies on `String::push`: appends one character at the end.
#[verifier::external_body]
pub(crate) fn push_char(s: &mut String, c: char)
    ensures
        final(s)@ == old(s)@.push(c),
{
    s.push(c);
}

/// Replaces every space with an underscore: display names may contain spaces,
/// which are not valid in target-language identifiers.
pub open spec fn spec_mangle(s: Seq<char>) -> Seq<char> {
    s.map_values(|c: char| if c == ' ' { '_' } else { c })
}

/// Rewrites every space in `s` to an underscore.
pub fn mangle(s: &str) -> (r: String)
    ensures
        r@ == spec_mangle(s@),
{
    let n = s.unicode_len();
    let mut out = String::new();
    let mut i: usize = 0;
    while i < n
        invariant
            n == s@.len(),
            i <= n,
            out@ == spec_mangle(s@.take(i as int)),
        decreases n - i,
    {
        let c = s.get_char(i);
        let m = if c == ' ' { '_' } else { c };
        push_char(&mut out, m);
        proof {
            assert(spec_mangle(s@.take((i + 1) as int)) =~= spec_mangle(
                s@.take(i as int),
            ).push(m));
        }
        i += 1;
    }
    proof {
        assert(s@.take(n as int) =~= s@);
    }
    out
}

/// The character for one decimal digit.
pub open spec fn spec_digit(d: nat) -> char {
    if d == 0 {
        '0'
    } else if d == 1 {
        '1'
    } else if d == 2 {
        '2'
    } else if d == 3 {
        '3'
    } else if d == 4 {
        '4'
    } else if d == 5 {
        '5'
    } else if d == 6 {
        '6'
    } else if d == 7 {
        '7'
    } else if d == 8 {
        '8'
    } else {
        '9'
    }
}

/// The decimal representation of a non-negative integer, most significant
/// digit first, without leading zeros (a single zero for 0).
pub open spec fn spec_u64_dec(n: nat) -> Seq<char>
    decreases n,
{
    if n < 10 {
        seq![spec_digit(n)]
    } else {
        spec_u64_dec(n / 10).push(spec_digit(n % 10))
    }
}

/// The decimal representation of a signed integer: a leading minus sign for
/// negative values, then the digits of the magnitude.
pub open spec fn spec_i64_dec(n: int) -> Seq<char> {
    if n < 0 {
        seq!['-'] + spec_u64_dec((-n) as nat)
    } else {
        spec_u64_dec(n as nat)
    }
}

fn digit_char(d: u64) -> (c: char)
    requires
        d < 10,
    ensures
        c == spec_digit(d as nat),
{
    if d == 0 {
        '0'
    } else if d == 1 {
        '1'
    } else if d == 2 {
        '2'
    } else if d == 3 {
        '3'
    } else if d == 4 {
        '4'
    } else if d == 5 {
        '5'
    } else if d == 6 {
        '6'
    } else if d == 7 {
        '7'
    } else if d == 8 {
        '8'
    } else {
        '9'
    }
}

/// Renders an unsigned integer in decimal.
pub fn u64_dec(n: u64) -> (s: String)
    ensures
        s@ == spec_u64_dec(n as nat),
    decreases n,
{
    if n < 10 {
        let mut s = String::new();
        push_char(&mut s, digit_char(n));
        proof {
            assert(s@ =~= seq![spec_digit(n as nat)]);
        }
        s
    } else {
        let mut s = u64_dec(n / 10);
        push_char(&mut s, digit_char(n % 10));
        s
    }
}

/// Renders a signed integer in decimal.
pub fn i64_dec(n: i64) -> (s: String)
    ensures
        s@ == spec_i64_dec(n as int),
{
    if n >= 0 {
        u64_dec(n as u64)
    } else {
        let mag: u64 = (-(n as i128)) as u64;
        let mut s = String::new();
        push_char(&mut s, '-');
        let digits = u64_dec(mag);
        s.append(digits.as_str());
        proof {
            assert(s@ =~= seq!['-'] + spec_u64_dec(mag as nat));
        }
        s
    }
}

/// The index of the first underscore in `s`, if any.
pub open spec fn first_underscore(s: Seq<char>) -> Option<int>
    decreases s.len(),
{
    if s.len() == 0 {
        None
    } else if s[0] == '_' {
        Some(0)
    } else {
        match first_underscore(s.drop_first()) {
            Some(i) => Some(i + 1),
            None => None,
        }
    }
}

proof fn lemma_first_underscore_at(s: Seq<char>, i: int)
    requires
        0 <= i <= s.len(),
        forall|j: int| 0 <= j < i ==> s[j] != '_',
        i < s.len() ==> s[i] == '_',
    ensures
        i < s.len() ==> first_underscore(s) == Some(i),
        i == s.len() ==> first_underscore(s) is None,
    decreases i, s.len(),
{
    if s.len() == 0 {
    } else if i == 0 {
    } else {
        assert forall|j: int| 0 <= j < i - 1 implies s.drop_first()[j] != '_' by {
            assert(s.drop_first()[j] == s[j + 1]);
        }
        lemma_first_underscore_at(s.drop_first(), i - 1);
    }
}

/// An opcode split at its first underscore into the namespace (the opcode
/// family) and the remainder; `None` when the opcode has no underscore.
pub open spec fn opcode_split(op: Seq<char>) -> Option<(Seq<char>, Seq<char>)> {
    match first_underscore(op) {
        Some(i) => Some((op.take(i), op.skip(i + 1))),
        None => None,
    }
}

/// Splits an opcode at its first underscore.
pub fn split_opcode<'a>(op: &'a str) -> (r: Option<(&'a str, &'a str)>)
    ensures
        match r {
            Some(p) => opcode_split(op@) == Some((p.0@, p.1@)),
            None => opcode_split(op@) is None,
        },
{
    let n = op.unicode_len();
    let mut i: usize = 0;
    while i < n
        invariant
            n == op@.len(),
            i <= n,
            forall|j: int| 0 <= j < i ==> op@[j] != '_',
        decreases n - i,
    {
        let c = op.get_char(i);
        if c == '_' {
            proof {
                lemma_first_underscore_at(op@, i as int);
            }
            let ns = op.substring_char(0, i);
            let rest = op.substring_char(i + 1, n);
            proof {
                assert(ns@ =~= op@.take(i as int));
                assert(rest@ =~= op@.skip(i + 1));
            }
            return Some((ns, rest));
        }
        i += 1;
    }
    proof {
        lemma_first_underscore_at(op@, n as int);
    }
    None
}

} // verus!
