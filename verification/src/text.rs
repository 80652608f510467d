//! Slicing and comparing string slices by characters.
//!
//! A `&str` is viewed as its sequence of characters, while slicing works on
//! byte offsets. The lemmas here connect the two through the UTF-8 encoding,
//! so that the scanner can cut a slice after a known number of characters
//! without walking the text again.

use vstd::prelude::*;
use vstd::std_specs::iter::IteratorSpec;
use vstd::string::StringSliceAdditionalSpecFns;
use vstd::utf8::*;

verus! {

/// The character at index `i` of `s`, if there is one.
pub open spec fn char_at(s: Seq<char>, i: int) -> Option<char> {
    if 0 <= i < s.len() {
        Some(s[i])
    } else {
        None
    }
}

/// Encoding distributes over concatenation.
pub proof fn lemma_encode_concat(a: Seq<char>, b: Seq<char>)
    ensures
        encode_utf8(a + b) == encode_utf8(a) + encode_utf8(b),
    decreases a.len(),
{
    if a.len() > 0 {
        lemma_encode_concat(a.drop_first(), b);
        assert((a + b).drop_first() =~= a.drop_first() + b);
    }
}

/// A text has at most as many characters as its encoding has bytes.
pub proof fn lemma_encode_len(a: Seq<char>)
    ensures
        a.len() <= encode_utf8(a).len(),
    decreases a.len(),
{
    if a.len() > 0 {
        lemma_encode_len(a.drop_first());
    }
}

/// Two texts with the same encoding are the same text.
pub proof fn lemma_encode_injective(a: Seq<char>, b: Seq<char>)
    requires
        encode_utf8(a) == encode_utf8(b),
    ensures
        a == b,
{
    encode_utf8_decode_utf8(a);
    encode_utf8_decode_utf8(b);
}

/// The encoding of a prefix ends on a character boundary of the whole.
pub proof fn lemma_prefix_boundary(a: Seq<char>, b: Seq<char>)
    ensures
        is_char_boundary(encode_utf8(a + b), encode_utf8(a).len() as int),
    decreases a.len(),
{
    let whole = a + b;
    let bytes = encode_utf8(whole);
    encode_utf8_valid_utf8(whole);
    if a.len() > 0 {
        let tail = a.drop_first();
        assert(whole.drop_first() =~= tail + b);
        encode_utf8_first_scalar(whole);
        assert(pop_first_scalar(bytes) =~= encode_utf8(tail + b));
        lemma_prefix_boundary(tail, b);
        lemma_encode_concat(a, b);
    }
}

/// A string slice has no more characters than a `usize` can count: it has
/// no more bytes than that, and every character takes at least one.
pub(crate) fn char_count_fits(s: &str)
    ensures
        s@.len() <= usize::MAX,
{
    let bytes = s.as_bytes();
    proof {
        lemma_encode_len(s@);
        assert(bytes@.len() == vstd::slice::spec_slice_len(bytes));
    }
}

/// The number of bytes that encode `c`.
pub fn utf8_width(c: char) -> (w: usize)
    ensures
        w == encode_scalar(c as u32).len(),
        1 <= w <= 4,
{
    let code: u32 = c as u32;
    if code <= 0x7f {
        1
    } else if code <= 0x7ff {
        2
    } else if code <= 0xffff {
        3
    } else {
        4
    }
}

/// The first two characters of `s`, as far as it has them.
pub fn first_two(s: &str) -> (r: (Option<char>, Option<char>))
    ensures
        r.0 == char_at(s@, 0),
        r.1 == char_at(s@, 1),
{
    let mut rest = s.chars();
    let first = rest.next();
    let second = rest.next();
    (first, second)
}

/// `s` without its first character, which the caller has already decoded
/// as `c`.
pub fn drop_first_char<'a>(s: &'a str, c: char) -> (rest: &'a str)
    requires
        char_at(s@, 0) == Some(c),
    ensures
        rest@ == s@.drop_first(),
{
    let width = utf8_width(c);
    proof {
        let head = s@.take(1);
        let tail = s@.drop_first();
        lemma_prefix_boundary(head, tail);
        lemma_encode_concat(head, tail);
        assert(encode_utf8(head) =~= encode_scalar(c as u32)) by {
            reveal_with_fuel(encode_utf8, 2);
        }
    }
    let (_, rest) = s.split_at(width);
    proof {
        assert(rest.spec_bytes() =~= encode_utf8(s@.drop_first()));
        lemma_encode_injective(rest@, s@.drop_first());
    }
    rest
}

/// The part of `whole` in front of `rest`, where `rest` is what remains of
/// `whole` after some of its characters were consumed.
pub fn prefix_before<'a>(whole: &'a str, rest: &str) -> (head: &'a str)
    requires
        rest@.len() <= whole@.len(),
        rest@ == whole@.skip(whole@.len() - rest@.len()),
    ensures
        head@ == whole@.take(whole@.len() - rest@.len()),
{
    let whole_bytes = whole.as_bytes().len();
    let rest_bytes = rest.as_bytes().len();
    proof {
        let front = whole@.take(whole@.len() - rest@.len());
        assert(whole@ =~= front + rest@);
        lemma_encode_concat(front, rest@);
        lemma_prefix_boundary(front, rest@);
    }
    let (head, _) = whole.split_at(whole_bytes - rest_bytes);
    proof {
        let front = whole@.take(whole@.len() - rest@.len());
        assert(head.spec_bytes() =~= encode_utf8(front));
        lemma_encode_injective(head@, front);
    }
    head
}

/// Whether two string slices hold the same text.
pub fn str_eq(a: &str, b: &str) -> (same: bool)
    ensures
        same == (a@ == b@),
{
    let mut xs = a.chars();
    let mut ys = b.chars();
    let ghost mut seen: int = 0;
    loop
        invariant
            0 <= seen <= a@.len(),
            seen <= b@.len(),
            xs.remaining() == a@.skip(seen),
            ys.remaining() == b@.skip(seen),
            a@.take(seen) == b@.take(seen),
        decreases a@.len() - seen,
    {
        let x = xs.next();
        let y = ys.next();
        match (x, y) {
            (None, None) => {
                proof {
                    assert(a@ =~= a@.take(seen));
                    assert(b@ =~= b@.take(seen));
                }
                return true;
            },
            (Some(p), Some(q)) => {
                if p != q {
                    return false;
                }
                proof {
                    seen = seen + 1;
                }
            },
            _ => {
                return false;
            },
        }
    }
}

} // verus!
