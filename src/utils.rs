//! Strings and arrays read out of the image.
use crate::bytes::{fits, has_room, le_u32, read_u32};
use vstd::prelude::*;

verus! {

/// What `String::from_utf8_lossy` makes of the bytes `b`: their UTF-8
/// decoding, with each invalid sequence replaced by U+FFFD.
pub uninterp spec fn utf8_lossy(b: Seq<u8>) -> Seq<char>;

/// Relies on std's `String::from_utf8_lossy`: the result depends on the bytes alone.
#[verifier::external_body]
fn decode_lossy(b: &[u8]) -> (r: String)
    ensures
        r@ == utf8_lossy(b@),
{
    String::from_utf8_lossy(b).into_owned()
}

/// The number of bytes before the first NUL of `s`, or its length if it has none.
pub open spec fn c_str_len(s: Seq<u8>) -> nat
    decreases s.len(),
{
    if s.len() == 0 || s[0] == 0 {
        0
    } else {
        1 + c_str_len(s.subrange(1, s.len() as int))
    }
}

/// The bytes of `s` before its first NUL.
pub open spec fn c_str(s: Seq<u8>) -> Seq<u8> {
    s.subrange(0, c_str_len(s) as int)
}

/// The string that a NUL-terminated field decodes to.
pub open spec fn c_string(s: Seq<u8>) -> Seq<char> {
    utf8_lossy(c_str(s))
}

/// `n` is where the first NUL of `s` stands, or its length.
pub proof fn lemma_c_str_len(s: Seq<u8>, n: int)
    requires
        0 <= n <= s.len(),
        n == s.len() || s[n] == 0,
        forall|i: int| 0 <= i < n ==> s[i] != 0,
    ensures
        c_str_len(s) == n,
    decreases n,
{
    if n > 0 {
        let t = s.subrange(1, s.len() as int);
        assert forall|i: int| 0 <= i < n - 1 implies t[i] != 0 by {
            assert(t[i] == s[i + 1]);
        }
        lemma_c_str_len(t, n - 1);
    }
}

/// Reads the string before the first NUL of `slice` (all of it if there is
/// none); invalid UTF-8 is replaced, never rejected.
pub fn read_null_terminated_string(slice: &[u8]) -> (r: String)
    ensures
        r@ == c_string(slice@),
{
    let mut len: usize = 0;
    while len < slice.len() && slice[len] != 0
        invariant
            len <= slice@.len(),
            forall|i: int| 0 <= i < len ==> slice@[i] != 0,
        decreases slice@.len() - len,
    {
        len = len + 1;
    }
    proof {
        lemma_c_str_len(slice@, len as int);
    }
    decode_lossy(&slice[0..len])
}

/// Reads up to `count` little-endian `u32` values from `start` on, stopping
/// early at the first one that does not fit in `buffer`.
pub fn read_array(buffer: &[u8], start: usize, count: usize) -> (r: Vec<u32>)
    ensures
        r@.len() <= count,
        r@.len() == 0 || fits(buffer@, start as int, 4 * r@.len() as int),
        forall|i: int| 0 <= i < r@.len() ==> #[trigger] r@[i] == le_u32(buffer@, start + 4 * i),
        r@.len() < count ==> !fits(buffer@, start + 4 * r@.len(), 4),
{
    let mut result: Vec<u32> = Vec::new();
    let mut offset: usize = start;
    let mut i: usize = 0;
    while i < count
        invariant
            i <= count,
            result@.len() == i,
            offset == start + 4 * i,
            i == 0 || fits(buffer@, start as int, 4 * i),
            forall|j: int| 0 <= j < i ==> #[trigger] result@[j] == le_u32(buffer@, start + 4 * j),
        decreases count - i,
    {
        match read_u32(buffer, offset, "array element") {
            Ok((next, value)) => {
                result.push(value);
                offset = next;
                i = i + 1;
            },
            Err(_) => {
                return result;
            },
        }
    }
    result
}

} // verus!
