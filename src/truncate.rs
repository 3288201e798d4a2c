//! Bounding the amount of content that the expensive stages inspect.
use vstd::prelude::*;
use vstd::utf8::{is_char_boundary, valid_utf8};
use vstd::string::StringSliceAdditionalSpecFns;

verus! {

broadcast use vstd::utf8::group_utf8_lib;

/// The number of content bytes that heuristics and the classifier look at.
pub const MAX_CONTENT_SIZE_BYTES: usize = 51200;

/// The byte length of the longest prefix of `bytes` that is at most `max` bytes
/// long and ends on a character boundary.
pub open spec fn truncated_len(bytes: Seq<u8>, max: int) -> int
    decreases max,
{
    if max >= bytes.len() {
        bytes.len() as int
    } else if max <= 0 || is_char_boundary(bytes, max) {
        if max < 0 { 0 } else { max }
    } else {
        truncated_len(bytes, max - 1)
    }
}

/// A truncated length never exceeds the buffer nor the budget.
pub proof fn lemma_truncated_len_bounds(bytes: Seq<u8>, max: int)
    requires
        0 <= max,
        valid_utf8(bytes),
    ensures
        0 <= truncated_len(bytes, max) <= bytes.len(),
        truncated_len(bytes, max) <= max,
        is_char_boundary(bytes, truncated_len(bytes, max)) || truncated_len(bytes, max) == bytes.len(),
    decreases max,
{
    if max < bytes.len() && max > 0 && !is_char_boundary(bytes, max) {
        lemma_truncated_len_bounds(bytes, max - 1);
    }
}

/// At the byte budget: a buffer of exactly the budget is kept whole; a buffer
/// one byte longer whose last character straddles the budget is cut shorter than
/// the budget, on a character boundary.
pub proof fn lemma_truncation_at_budget(bytes: Seq<u8>)
    requires
        valid_utf8(bytes),
    ensures
        bytes.len() == MAX_CONTENT_SIZE_BYTES ==> truncated_len(
            bytes,
            MAX_CONTENT_SIZE_BYTES as int,
        ) == bytes.len(),
        bytes.len() == MAX_CONTENT_SIZE_BYTES + 1 && !is_char_boundary(
            bytes,
            MAX_CONTENT_SIZE_BYTES as int,
        ) ==> {
            let k = truncated_len(bytes, MAX_CONTENT_SIZE_BYTES as int);
            k < MAX_CONTENT_SIZE_BYTES && is_char_boundary(bytes, k)
        },
{
    lemma_truncated_len_bounds(bytes, MAX_CONTENT_SIZE_BYTES as int);
    if bytes.len() == MAX_CONTENT_SIZE_BYTES + 1 && !is_char_boundary(bytes, MAX_CONTENT_SIZE_BYTES as int) {
        lemma_truncated_len_bounds(bytes, MAX_CONTENT_SIZE_BYTES - 1);
    }
}

/// The longest prefix of `s` of at most `max` bytes that ends on a character
/// boundary; `s` itself when it is already short enough.
pub fn truncate_to_char_boundary(s: &str, max: usize) -> (r: &str)
    ensures
        r.spec_bytes() == s.spec_bytes().subrange(0, truncated_len(s.spec_bytes(), max as int)),
        max >= s.spec_bytes().len() ==> r@ == s@,
        r.spec_bytes().len() <= max || max >= s.spec_bytes().len(),
        is_char_boundary(s.spec_bytes(), r.spec_bytes().len() as int),
{
    let len = s.as_bytes().len();
    if max >= len {
        assert(s.spec_bytes() =~= s.spec_bytes().subrange(0, len as int));
        assert(is_char_boundary(s.spec_bytes(), len as int));
        s
    } else {
        let mut cut: usize = max;
        while !s.is_char_boundary(cut)
            invariant
                cut <= max < len,
                len == s.spec_bytes().len(),
                truncated_len(s.spec_bytes(), cut as int) == truncated_len(s.spec_bytes(), max as int),
            decreases cut,
        {
            proof {
                if cut == 0 {
                    assert(is_char_boundary(s.spec_bytes(), 0));
                }
            }
            cut = cut - 1;
        }
        let (head, _tail) = s.split_at(cut);
        proof {
            lemma_truncated_len_bounds(s.spec_bytes(), max as int);
        }
        head
    }
}

/// `s` cut down to at most `MAX_CONTENT_SIZE_BYTES` bytes on a character boundary.
pub fn truncate(s: &str) -> (r: &str)
    ensures
        r.spec_bytes() == s.spec_bytes().subrange(
            0,
            truncated_len(s.spec_bytes(), MAX_CONTENT_SIZE_BYTES as int),
        ),
        s.spec_bytes().len() <= MAX_CONTENT_SIZE_BYTES ==> r@ == s@,
        r.spec_bytes().len() <= MAX_CONTENT_SIZE_BYTES,
{
    proof {
        lemma_truncated_len_bounds(s.spec_bytes(), MAX_CONTENT_SIZE_BYTES as int);
    }
    truncate_to_char_boundary(s, MAX_CONTENT_SIZE_BYTES)
}

} // verus!
