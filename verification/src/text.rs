//! Predicates on text that the validation rules are stated with.

use vstd::prelude::*;
use vstd::string::StringSliceAdditionalSpecFns;
use vstd::utf8::encode_utf8_decode_utf8;

verus! {

/// Whether `c` has the Unicode property `White_Space`: the controls from tab
/// to carriage return, the space, the next-line control, the no-break space,
/// the Ogham space mark, the spaces from en quad to hair space, the line and
/// paragraph separators, the narrow no-break space, the medium mathematical
/// space and the ideographic space.
pub open spec fn is_white_space(c: char) -> bool {
    let n = c as u32;
    ||| 0x0009 <= n <= 0x000d
    ||| n == 0x0020
    ||| n == 0x0085
    ||| n == 0x00a0
    ||| n == 0x1680
    ||| 0x2000 <= n <= 0x200a
    ||| n == 0x2028
    ||| n == 0x2029
    ||| n == 0x202f
    ||| n == 0x205f
    ||| n == 0x3000
}

/// Whether `c` is white space.
pub fn is_whitespace(c: char) -> (b: bool)
    ensures
        b == is_white_space(c),
{
    let n: u32 = c as u32;
    if n <= 0x000d {
        0x0009 <= n
    } else if n < 0x2000 {
        n == 0x0020 || n == 0x0085 || n == 0x00a0 || n == 0x1680
    } else if n <= 0x200a {
        true
    } else {
        n == 0x2028 || n == 0x2029 || n == 0x202f || n == 0x205f || n == 0x3000
    }
}

/// A text is blank when nothing is left of it once the white space at its two
/// ends is taken away: every one of its characters is white space.
pub open spec fn blank(s: Seq<char>) -> bool {
    forall|i: int| 0 <= i < s.len() ==> is_white_space(#[trigger] s[i])
}

/// Whether `s` is empty or made of white space only.
pub fn is_blank(s: &str) -> (b: bool)
    ensures
        b == blank(s@),
{
    let mut chars = s.chars();
    for c in it: chars
        invariant
            it.seq() == s@,
            forall|i: int| 0 <= i < it.index() ==> is_white_space(#[trigger] s@[i]),
    {
        if !is_whitespace(c) {
            return false;
        }
    }
    true
}

/// Whether the character `c` occurs in `s`.
pub fn contains_char(s: &str, c: char) -> (b: bool)
    ensures
        b == s@.contains(c),
{
    let mut chars = s.chars();
    for d in it: chars
        invariant
            it.seq() == s@,
            forall|i: int| 0 <= i < it.index() ==> s@[i] != c,
    {
        if d == c {
            return true;
        }
    }
    false
}

/// Whether two texts are the same, character by character.
pub fn same_text(a: &str, b: &str) -> (same: bool)
    ensures
        same == (a@ == b@),
{
    let x = a.as_bytes();
    let y = b.as_bytes();
    proof {
        encode_utf8_decode_utf8(a@);
        encode_utf8_decode_utf8(b@);
    }
    if x.len() != y.len() {
        return false;
    }
    let mut i: usize = 0;
    while i < x.len()
        invariant
            i <= x.len(),
            x.len() == y.len(),
            a@ == b@ ==> x@ == y@,
            forall|j: int| 0 <= j < i ==> x@[j] == y@[j],
        decreases x.len() - i,
    {
        if x[i] != y[i] {
            return false;
        }
        i = i + 1;
    }
    assert(x@ =~= y@);
    true
}

/// `str::strip_prefix` with a text as the prefix: what follows the prefix,
/// where the text starts with it.
#[verifier::external_body]
fn std_strip_prefix<'a>(text: &'a str, prefix: &str) -> (rest: Option<&'a str>)
    ensures
        rest matches Some(tail) ==> text@ == prefix@ + tail@,
        rest is None ==> !prefix@.is_prefix_of(text@),
{
    text.strip_prefix(prefix)
}

/// What follows `prefix` in `text`, or `None` where `text` does not start
/// with `prefix`.
pub fn after_prefix<'a>(text: &'a str, prefix: &str) -> (rest: Option<&'a str>)
    ensures
        rest is Some <==> prefix@.is_prefix_of(text@),
        rest matches Some(tail) ==> tail@ == text@.skip(prefix@.len() as int),
{
    let rest = std_strip_prefix(text, prefix);
    proof {
        if let Some(tail) = rest {
            assert(text@.skip(prefix@.len() as int) =~= tail@);
            assert(text@.subrange(0, prefix@.len() as int) =~= prefix@);
        }
    }
    rest
}

} // verus!
