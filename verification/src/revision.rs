//! The source-control revision of the native library.
//!
//! The native library reports its revision as a NUL-terminated byte
//! sequence of no guaranteed encoding, and its revision counter as a
//! signed 32-bit integer. `decode_revision` scans the bytes to the first
//! NUL and decodes that prefix under a lossy UTF-8 policy: valid UTF-8 is
//! preserved, anything else becomes U+FFFD. `revision_number_from_ll`
//! passes the counter through verbatim.

use vstd::prelude::*;
use vstd::slice::slice_subrange;
use vstd::utf8::{decode_utf8, valid_utf8};

verus! {

/// Whether a byte sequence holds a NUL terminator.
pub open spec fn has_nul(s: Seq<u8>) -> bool {
    exists|i: int| 0 <= i < s.len() && s[i] == 0
}

/// Index of the first NUL byte of a sequence (its length when it has none).
pub open spec fn nul_index(s: Seq<u8>) -> int
    decreases s.len(),
{
    if s.len() == 0 {
        0
    } else if s[0] == 0 {
        0
    } else {
        1 + nul_index(s.subrange(1, s.len() as int))
    }
}

/// `nul_index` is the position of the first NUL: at an index that holds a
/// NUL and is preceded by none, `nul_index` is that index.
pub proof fn lemma_nul_index_first(s: Seq<u8>, i: int)
    requires
        0 <= i < s.len(),
        s[i] == 0,
        forall|j: int| 0 <= j < i ==> s[j] != 0,
    ensures
        nul_index(s) == i,
    decreases i,
{
    if i > 0 {
        let t = s.subrange(1, s.len() as int);
        assert(t[i - 1] == s[i]);
        assert(forall|j: int| 0 <= j < i - 1 ==> #[trigger] t[j] == s[j + 1]);
        lemma_nul_index_first(t, i - 1);
    }
}

/// What `String::from_utf8_lossy` returns for a given byte sequence.
pub uninterp spec fn utf8_lossy(bytes: Seq<u8>) -> Seq<char>;

/// Relies on `String::from_utf8_lossy` (std): the result depends on the
/// bytes alone, and bytes that are valid UTF-8 come back as exactly the
/// characters they encode.
#[verifier::external_body]
fn from_utf8_lossy_owned(bytes: &[u8]) -> (r: String)
    ensures
        r@ == utf8_lossy(bytes@),
        valid_utf8(bytes@) ==> r@ == decode_utf8(bytes@),
{
    String::from_utf8_lossy(bytes).into_owned()
}

/// Decode the revision bytes the native library handed out: scan to the
/// first NUL, then decode the prefix before it under the lossy UTF-8
/// policy, into an owned text value independent of the input. Decoding is
/// total: every NUL-terminated byte sequence yields a well-formed string,
/// with each invalid byte sequence replaced by U+FFFD.
pub fn decode_revision(bytes: &[u8]) -> (r: String)
    requires
        has_nul(bytes@),
    ensures
        r@ == utf8_lossy(bytes@.take(nul_index(bytes@))),
        valid_utf8(bytes@.take(nul_index(bytes@))) ==> r@ == decode_utf8(
            bytes@.take(nul_index(bytes@)),
        ),
{
    let ghost k: int = choose|k: int| 0 <= k < bytes@.len() && bytes@[k] == 0;
    let mut i: usize = 0;
    while bytes[i] != 0
        invariant
            0 <= i <= k < bytes@.len(),
            bytes@[k] == 0,
            forall|j: int| 0 <= j < i ==> bytes@[j] != 0,
        decreases bytes@.len() - i,
    {
        i = i + 1;
    }
    proof {
        lemma_nul_index_first(bytes@, i as int);
    }
    let prefix: &[u8] = slice_subrange(bytes, 0, i);
    proof {
        assert(prefix@ =~= bytes@.take(nul_index(bytes@)));
    }
    from_utf8_lossy_owned(prefix)
}

/// The revision counter as the native library reports it, verbatim: no
/// transformation, no range check, no zero substitution.
pub fn revision_number_from_ll(raw: i32) -> (r: i32)
    ensures
        r == raw,
{
    raw
}

} // verus!
