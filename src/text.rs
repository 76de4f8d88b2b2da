//! Text helpers: whitespace trimming and lowercase hexadecimal rendering.
use vstd::prelude::*;

verus! {

/// The characters with the Unicode `White_Space` property, which is what
/// `char::is_whitespace` tests.
pub open spec fn is_whitespace(c: char) -> bool {
    let u = c as u32;
    (0x9 <= u <= 0xd) || u == 0x20 || u == 0x85 || u == 0xa0 || u == 0x1680 || (0x2000 <= u
        <= 0x200a) || u == 0x2028 || u == 0x2029 || u == 0x202f || u == 0x205f || u == 0x3000
}

pub open spec fn all_whitespace(s: Seq<char>) -> bool {
    forall|i: int| 0 <= i < s.len() ==> is_whitespace(#[trigger] s[i])
}

/// `s` without its leading whitespace.
pub open spec fn trim_start(s: Seq<char>) -> Seq<char>
    decreases s.len(),
{
    if s.len() > 0 && is_whitespace(s[0]) {
        trim_start(s.drop_first())
    } else {
        s
    }
}

/// `s` without its trailing whitespace.
pub open spec fn trim_end(s: Seq<char>) -> Seq<char>
    decreases s.len(),
{
    if s.len() > 0 && is_whitespace(s.last()) {
        trim_end(s.drop_last())
    } else {
        s
    }
}

/// `s` without its leading and trailing whitespace.
pub open spec fn trim(s: Seq<char>) -> Seq<char> {
    trim_end(trim_start(s))
}

/// Relies on `str::trim`: it returns the string slice with leading and
/// trailing whitespace (as `char::is_whitespace` defines it) removed.
#[verifier::external_body]
pub(crate) fn trim_str(s: &str) -> (r: &str)
    ensures
        r@ == trim(s@),
{
    s.trim()
}

/// Surrounding whitespace is exactly what trimming removes.
pub proof fn lemma_trim_surrounded(lead: Seq<char>, t: Seq<char>, trail: Seq<char>)
    requires
        all_whitespace(lead),
        all_whitespace(trail),
        t.len() > 0,
        !is_whitespace(t[0]),
        !is_whitespace(t.last()),
    ensures
        trim(lead + t + trail) == t,
{
    lemma_trim_start_drops(lead, t + trail);
    assert(lead + t + trail == lead + (t + trail));
    lemma_trim_end_drops(t, trail);
}

proof fn lemma_trim_start_drops(lead: Seq<char>, rest: Seq<char>)
    requires
        all_whitespace(lead),
        rest.len() > 0,
        !is_whitespace(rest[0]),
    ensures
        trim_start(lead + rest) == rest,
    decreases lead.len(),
{
    if lead.len() == 0 {
        assert(lead + rest == rest);
    } else {
        assert((lead + rest)[0] == lead[0]);
        assert((lead + rest).drop_first() == lead.drop_first() + rest);
        lemma_trim_start_drops(lead.drop_first(), rest);
    }
}

proof fn lemma_trim_end_drops(front: Seq<char>, trail: Seq<char>)
    requires
        all_whitespace(trail),
        front.len() > 0,
        !is_whitespace(front.last()),
    ensures
        trim_end(front + trail) == front,
    decreases trail.len(),
{
    if trail.len() == 0 {
        assert(front + trail == front);
    } else {
        assert((front + trail).last() == trail.last());
        assert((front + trail).drop_last() == front + trail.drop_last());
        lemma_trim_end_drops(front, trail.drop_last());
    }
}

/// ASCII code of the lowercase hexadecimal digit `d`.
pub open spec fn hex_digit(d: nat) -> u8
    recommends
        d < 16,
{
    if d < 10 {
        (48 + d) as u8
    } else {
        (87 + d) as u8
    }
}

/// `n` in lowercase hexadecimal, without prefix or leading zeros.
pub open spec fn hex_digits(n: nat) -> Seq<u8>
    decreases n,
{
    if n < 16 {
        seq![hex_digit(n)]
    } else {
        hex_digits(n / 16).push(hex_digit(n % 16))
    }
}

fn hex_digit_byte(d: u32) -> (r: u8)
    requires
        d < 16,
    ensures
        r == hex_digit(d as nat),
{
    if d < 10 {
        48 + d as u8
    } else {
        87 + d as u8
    }
}

/// Appends `n` in lowercase hexadecimal to `out`.
pub fn push_hex(out: &mut Vec<u8>, n: u32)
    ensures
        final(out)@ == old(out)@ + hex_digits(n as nat),
    decreases n,
{
    if n >= 16 {
        push_hex(out, n / 16);
    }
    out.push(hex_digit_byte(n % 16));
}

} // verus!
