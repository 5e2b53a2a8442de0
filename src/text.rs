//! Fixed-capacity text for frame names and file names.
//!
//! Text captured on the allocation path lives in a `heapless::String`, whose
//! storage is inline: filling it never asks the heap for memory. Text longer
//! than the capacity is cut short, never grown.
use vstd::prelude::*;

verus! {

/// Capacity in bytes of a frame name or a file name.
pub const TEXT_CAPACITY: usize = 500;

/// Fixed-capacity text as stored in a frame.
pub type BoundedText = heapless::String<TEXT_CAPACITY>;

#[verifier::external_type_specification]
#[verifier::external_body]
pub struct ExHeaplessString<const N: usize>(heapless::String<N>);

/// The characters held by a bounded text.
pub uninterp spec fn text_of(s: BoundedText) -> Seq<char>;

/// Number of bytes `c` takes in UTF-8.
pub open spec fn char_utf8_len(c: char) -> nat {
    if (c as u32) < 0x80 {
        1
    } else if (c as u32) < 0x800 {
        2
    } else if (c as u32) < 0x10000 {
        3
    } else {
        4
    }
}

/// Number of bytes `s` takes in UTF-8.
pub open spec fn utf8_len(s: Seq<char>) -> nat
    decreases s.len(),
{
    if s.len() == 0 {
        0
    } else {
        utf8_len(s.drop_last()) + char_utf8_len(s.last())
    }
}

/// `t` is the longest prefix of `src` whose UTF-8 form fits in
/// `TEXT_CAPACITY` bytes.
pub open spec fn longest_fitting_prefix(t: Seq<char>, src: Seq<char>) -> bool {
    &&& t.len() <= src.len()
    &&& t == src.take(t.len() as int)
    &&& utf8_len(t) <= TEXT_CAPACITY
    &&& t.len() < src.len() ==> utf8_len(t) + char_utf8_len(src[t.len() as int]) > TEXT_CAPACITY
}

/// Relies on heapless::String::new: a new string is empty.
#[verifier::external_body]
fn empty_text() -> (r: BoundedText)
    ensures
        text_of(r) == Seq::<char>::empty(),
{
    heapless::String::new()
}

/// Relies on heapless::String::push: the character is appended exactly when
/// its UTF-8 bytes fit beside those already held; otherwise the string is
/// left as it was.
#[verifier::external_body]
fn push_char(s: &mut BoundedText, c: char) -> (r: bool)
    ensures
        r == (utf8_len(text_of(*old(s))) + char_utf8_len(c) <= TEXT_CAPACITY),
        r ==> text_of(*final(s)) == text_of(*old(s)).push(c),
        !r ==> *final(s) == *old(s),
{
    s.push(c).is_ok()
}

/// Copies `chars` into a bounded text, stopping at the first character that
/// no longer fits: the result is the longest prefix of `chars` that fits.
pub fn bounded_text(chars: &Vec<char>) -> (r: BoundedText)
    ensures
        longest_fitting_prefix(text_of(r), chars@),
{
    let mut out = empty_text();
    let mut i: usize = 0;
    while i < chars.len()
        invariant
            i <= chars@.len(),
            text_of(out) == chars@.take(i as int),
            utf8_len(text_of(out)) <= TEXT_CAPACITY,
        ensures
            i <= chars@.len(),
            text_of(out) == chars@.take(i as int),
            utf8_len(text_of(out)) <= TEXT_CAPACITY,
            i < chars@.len() ==> utf8_len(text_of(out)) + char_utf8_len(chars@[i as int]) > TEXT_CAPACITY,
        decreases chars@.len() - i,
    {
        let ok = push_char(&mut out, chars[i]);
        if !ok {
            break;
        }
        proof {
            assert(chars@.take(i + 1).drop_last() =~= chars@.take(i as int));
            assert(text_of(out) =~= chars@.take(i + 1));
        }
        i = i + 1;
    }
    out
}

} // verus!
