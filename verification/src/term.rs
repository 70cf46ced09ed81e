//! Terminal-facing decisions: whether a `COLORTERM`-style value signals
//! truecolor support, and the exit status a fatal error carries. Reading the
//! environment and exiting the process stay with the caller; the decisions
//! on the plain values live here.

use vstd::prelude::*;

verus! {

/// `needle` occurs contiguously somewhere in `haystack`.
pub open spec fn contains_seq(haystack: Seq<u8>, needle: Seq<u8>) -> bool {
    exists|i: int|
        0 <= i && i + needle.len() <= haystack.len() && #[trigger] haystack.subrange(
            i,
            i + needle.len(),
        ) == needle
}

/// The bytes of `truecolor`, one signal a terminal gives for 24-bit color.
pub open spec fn truecolor_label() -> Seq<u8> {
    seq![116u8, 114u8, 117u8, 101u8, 99u8, 111u8, 108u8, 111u8, 114u8]
}

/// The bytes of `24bit`, the other signal for 24-bit color.
pub open spec fn deep_color_label() -> Seq<u8> {
    seq![50u8, 52u8, 98u8, 105u8, 116u8]
}

/// Whether `needle` starts at byte `i` of `haystack`.
fn matches_at_index(haystack: &[u8], needle: &[u8], i: usize) -> (r: bool)
    requires
        i + needle@.len() <= haystack@.len(),
    ensures
        r == (haystack@.subrange(i as int, i as int + needle@.len()) == needle@),
{
    let hlen = haystack.len();
    let mut j: usize = 0;
    while j < needle.len()
        invariant
            hlen == haystack@.len(),
            j <= needle@.len(),
            i + needle@.len() <= haystack@.len(),
            forall|t: int| 0 <= t < j ==> haystack@[i + t] == needle@[t],
        decreases needle@.len() - j,
    {
        proof {
            assert(i + j < haystack@.len());
        }
        if haystack[i + j] != needle[j] {
            proof {
                assert(haystack@.subrange(i as int, i as int + needle@.len())[j as int]
                    != needle@[j as int]);
            }
            return false;
        }
        j = j + 1;
    }
    proof {
        assert(haystack@.subrange(i as int, i as int + needle@.len()) =~= needle@);
    }
    true
}

/// Whether `needle` occurs anywhere in `haystack`: a linear scan over every
/// start position.
pub fn contains_subslice(haystack: &[u8], needle: &[u8]) -> (r: bool)
    ensures
        r == contains_seq(haystack@, needle@),
{
    if needle.len() == 0 {
        proof {
            assert(haystack@.subrange(0, 0 + needle@.len() as int) == needle@);
        }
        return true;
    }
    let hlen = haystack.len();
    let nlen = needle.len();
    if nlen > hlen {
        return false;
    }
    let bound = hlen - nlen;
    let mut i: usize = 0;
    while i <= bound
        invariant
            hlen == haystack@.len(),
            nlen == needle@.len(),
            1 <= nlen <= hlen,
            bound == hlen - nlen,
            i <= bound + 1,
            forall|k: int|
                0 <= k < i ==> #[trigger] haystack@.subrange(k, k + needle@.len()) != needle@,
        decreases bound + 1 - i,
    {
        if matches_at_index(haystack, needle, i) {
            return true;
        }
        i = i + 1;
    }
    false
}

/// Whether a `COLORTERM`-style value signals truecolor support: true exactly
/// when the value contains `truecolor` or `24bit`.
pub fn colorterm_signals_truecolor(value: &[u8]) -> (r: bool)
    ensures
        r == (contains_seq(value@, truecolor_label()) || contains_seq(value@, deep_color_label())),
{
    let mut truecolor: Vec<u8> = Vec::new();
    truecolor.push(116);
    truecolor.push(114);
    truecolor.push(117);
    truecolor.push(101);
    truecolor.push(99);
    truecolor.push(111);
    truecolor.push(108);
    truecolor.push(111);
    truecolor.push(114);
    let mut deep: Vec<u8> = Vec::new();
    deep.push(50);
    deep.push(52);
    deep.push(98);
    deep.push(105);
    deep.push(116);
    proof {
        assert(truecolor@ =~= truecolor_label());
        assert(deep@ =~= deep_color_label());
    }
    contains_subslice(value, truecolor.as_slice()) || contains_subslice(value, deep.as_slice())
}

/// The exit status a fatal error reports: the caller's chosen code, or 1
/// when none was given.
pub fn exit_code(code: Option<i32>) -> (r: i32)
    ensures
        code matches Some(c) ==> r == c,
        code is None ==> r == 1,
{
    match code {
        Some(c) => c,
        None => 1,
    }
}

} // verus!
