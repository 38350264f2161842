//! Small building blocks for the query texts: appending to a `String` and
//! writing numbers in decimal.

use vstd::prelude::*;
use vstd::string::StringExecFns;
use vstd::string::StringSliceAdditionalSpecFns;
use vstd::utf8::encode_utf8_decode_utf8;

verus! {

/// `String::push` of the standard library: the character is appended at the
/// end and nothing else changes.
pub assume_specification[ String::push ](s: &mut String, c: char)
    ensures
        final(s)@ == old(s)@.push(c),
;

/// The character that stands for a digit below ten.
pub open spec fn digit_char(d: nat) -> char
    recommends
        d < 10,
{
    if d == 0 {
        '0'
    } else if d == 1 {
        '1'
    } else if d == 2 {
        '2'
    } else if d == 3 {
        '3'
    } else if d == 4 {
        '4'
    } else if d == 5 {
        '5'
    } else if d == 6 {
        '6'
    } else if d == 7 {
        '7'
    } else if d == 8 {
        '8'
    } else {
        '9'
    }
}

/// The decimal notation of a natural number, without leading zeros.
pub open spec fn decimal(n: nat) -> Seq<char>
    decreases n,
{
    if n < 10 {
        seq![digit_char(n)]
    } else {
        decimal(n / 10).push(digit_char(n % 10))
    }
}

/// The character that stands for a digit below sixteen, in lower case.
pub open spec fn hex_char(d: nat) -> char
    recommends
        d < 16,
{
    if d < 10 {
        digit_char(d)
    } else if d == 10 {
        'a'
    } else if d == 11 {
        'b'
    } else if d == 12 {
        'c'
    } else if d == 13 {
        'd'
    } else if d == 14 {
        'e'
    } else {
        'f'
    }
}

/// The hexadecimal notation of a natural number, in lower case and without
/// leading zeros.
pub open spec fn lower_hex(n: nat) -> Seq<char>
    decreases n,
{
    if n < 16 {
        seq![hex_char(n)]
    } else {
        lower_hex(n / 16).push(hex_char(n % 16))
    }
}

fn digit_of(d: u8) -> (c: char)
    requires
        d < 10,
    ensures
        c == digit_char(d as nat),
{
    if d == 0 {
        '0'
    } else if d == 1 {
        '1'
    } else if d == 2 {
        '2'
    } else if d == 3 {
        '3'
    } else if d == 4 {
        '4'
    } else if d == 5 {
        '5'
    } else if d == 6 {
        '6'
    } else if d == 7 {
        '7'
    } else if d == 8 {
        '8'
    } else {
        '9'
    }
}

/// Appends the decimal notation of `n` to `out`.
pub fn push_decimal(out: &mut String, n: u64)
    ensures
        final(out)@ == old(out)@ + decimal(n as nat),
    decreases n,
{
    if n >= 10 {
        push_decimal(out, n / 10);
    }
    let d: u8 = (n % 10) as u8;
    out.push(digit_of(d));
    proof {
        if n >= 10 {
            assert(old(out)@ + decimal(n as nat) =~= (old(out)@ + decimal((n / 10) as nat)).push(
                digit_char((n % 10) as nat),
            ));
        } else {
            assert(old(out)@ + decimal(n as nat) =~= old(out)@.push(digit_char(n as nat)));
        }
    }
}

/// Appends `part` to `out`.
pub fn push_text(out: &mut String, part: &str)
    ensures
        final(out)@ == old(out)@ + part@,
{
    out.append(part);
}

/// The characters of `s`, in order.
pub fn chars_of(s: &str) -> (v: Vec<char>)
    ensures
        v@ == s@,
{
    let mut v: Vec<char> = Vec::new();
    for c in it: s.chars()
        invariant
            it.seq() == s@,
            v@ == it.seq().take(it.index() as int),
    {
        v.push(c);
    }
    v
}

/// Whether two texts hold the same characters.
#[verifier::loop_isolation(false)]
pub fn same_text(a: &str, b: &str) -> (same: bool)
    ensures
        same == (a@ == b@),
{
    let x = a.as_bytes();
    let y = b.as_bytes();
    proof {
        encode_utf8_decode_utf8(a@);
        encode_utf8_decode_utf8(b@);
    }
    if x.len() != y.len() {
        return false;
    }
    let mut i: usize = 0;
    while i < x.len()
        invariant
            i <= x.len(),
            x.len() == y.len(),
            forall|j: int| 0 <= j < i ==> x@[j] == y@[j],
        decreases x.len() - i,
    {
        if x[i] != y[i] {
            return false;
        }
        i += 1;
    }
    assert(x@ =~= y@);
    true
}

/// Whether `part` stands in `text` at position `i`.
pub open spec fn occurs_at(text: Seq<char>, part: Seq<char>, i: int) -> bool {
    0 <= i && i + part.len() <= text.len() && text.subrange(i, i + part.len()) == part
}

/// Whether `part` stands somewhere in `text`.
pub open spec fn has_part(text: Seq<char>, part: Seq<char>) -> bool {
    exists|i: int| occurs_at(text, part, i)
}

fn matches_at(text: &Vec<char>, part: &Vec<char>, i: usize) -> (r: bool)
    requires
        i + part.len() <= text.len(),
    ensures
        r == occurs_at(text@, part@, i as int),
{
    let mut j: usize = 0;
    while j < part.len()
        invariant
            j <= part.len(),
            i + part.len() <= text.len(),
            forall|k: int| 0 <= k < j ==> text@[i + k] == part@[k],
        decreases part.len() - j,
    {
        if text[i + j] != part[j] {
            assert(text@.subrange(i as int, i + part.len())[j as int] != part@[j as int]);
            return false;
        }
        j += 1;
    }
    assert(text@.subrange(i as int, i + part.len()) =~= part@);
    true
}

/// Whether `part` stands somewhere in `text`.
pub fn contains_part(text: &Vec<char>, part: &str) -> (r: bool)
    ensures
        r == has_part(text@, part@),
{
    let pat = chars_of(part);
    if pat.len() > text.len() {
        return false;
    }
    let last = text.len() - pat.len();
    let mut i: usize = 0;
    while i < last
        invariant
            i <= last,
            last == text.len() - pat.len(),
            pat@ == part@,
            forall|k: int| 0 <= k < i ==> !occurs_at(text@, pat@, k),
        decreases last - i,
    {
        if matches_at(text, &pat, i) {
            return true;
        }
        i += 1;
    }
    matches_at(text, &pat, last)
}

} // verus!
