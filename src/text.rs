//! Reading the NUL-terminated byte strings that the native library hands out.
use vstd::prelude::*;
use vstd::slice::slice_subrange;

verus! {

/// Number of bytes before the first NUL byte (the whole length when there is none).
pub open spec fn c_len(b: Seq<u8>) -> nat
    decreases b.len(),
{
    if b.len() == 0 || b[0] == 0 {
        0
    } else {
        1 + c_len(b.drop_first())
    }
}

/// The bytes of a C string: everything before the first NUL byte.
pub open spec fn c_text(b: Seq<u8>) -> Seq<u8> {
    b.take(c_len(b) as int)
}

/// The text that a byte sequence decodes to as UTF-8, or `None` when it is not valid UTF-8.
pub uninterp spec fn utf8_text(b: Seq<u8>) -> Option<Seq<char>>;

/// What a C string reads as: its bytes before the terminator, decoded as UTF-8.
pub open spec fn c_str_text(b: Seq<u8>) -> Option<Seq<char>> {
    utf8_text(c_text(b))
}

/// The character sequence of an optional borrowed string.
pub open spec fn opt_str_view(r: Option<&str>) -> Option<Seq<char>> {
    match r {
        Some(s) => Some(s@),
        None => None,
    }
}

proof fn lemma_c_len(b: Seq<u8>, n: int)
    requires
        0 <= n <= b.len(),
        n == b.len() || b[n] == 0,
        forall|j: int| 0 <= j < n ==> b[j] != 0,
    ensures
        c_len(b) == n,
    decreases n,
{
    if n > 0 {
        let t = b.drop_first();
        assert forall|j: int| 0 <= j < n - 1 implies t[j] != 0 by {
            assert(t[j] == b[j + 1]);
        }
        lemma_c_len(t, n - 1);
    }
}

/// Relies on std::str::from_utf8: `Ok` with the decoded text exactly when the bytes are valid UTF-8.
#[verifier::external_body]
fn decode_utf8(b: &[u8]) -> (r: Option<&str>)
    ensures
        opt_str_view(r) == utf8_text(b@),
{
    std::str::from_utf8(b).ok()
}

/// Position of the first NUL byte, or the length when there is none.
pub fn c_str_len(b: &[u8]) -> (n: usize)
    ensures
        n == c_len(b@),
        n <= b@.len(),
{
    let mut i: usize = 0;
    while i < b.len() && b[i] != 0
        invariant
            0 <= i <= b@.len(),
            forall|j: int| 0 <= j < i ==> b@[j] != 0,
        decreases b@.len() - i,
    {
        i = i + 1;
    }
    proof {
        lemma_c_len(b@, i as int);
    }
    i
}

/// Reads a NUL-terminated byte string as text; `None` when its bytes are not valid UTF-8.
pub fn c_str_to_str(b: &[u8]) -> (r: Option<&str>)
    ensures
        opt_str_view(r) == c_str_text(b@),
{
    let n = c_str_len(b);
    let text = slice_subrange(b, 0, n);
    assert(text@ =~= c_text(b@));
    decode_utf8(text)
}

} // verus!
