//! Validation at the string boundary: text crosses into the engine only as
//! a nul-terminated byte string, so text holding an interior nul byte is
//! rejected before any engine call.

use vstd::prelude::*;

use crate::error::FliteError;
use crate::error::FliteResult;

verus! {

/// Whether the byte sequence holds a nul byte anywhere.
pub open spec fn contains_nul(s: Seq<u8>) -> bool {
    exists|i: int| 0 <= i < s.len() && s[i] == 0u8
}

/// Whether `p` is the index of the first nul byte of `s`.
pub open spec fn is_first_nul(s: Seq<u8>, p: int) -> bool {
    &&& 0 <= p < s.len()
    &&& s[p] == 0u8
    &&& forall|j: int| 0 <= j < p ==> s[j] != 0u8
}

/// Frames `text` for the engine: succeeds with `text` followed by one
/// terminating nul byte exactly when `text` itself is free of nul bytes,
/// and otherwise reports the position of the first interior nul byte.
pub fn to_c_bytes(text: &[u8]) -> (r: FliteResult<Vec<u8>>)
    ensures
        (r is Ok) <==> !contains_nul(text@),
        r matches Ok(v) ==> v@ == text@.push(0u8),
        r matches Err(e) ==> (e matches FliteError::InvalidString { nul_position }
            && is_first_nul(text@, nul_position as int)),
{
    let mut out: Vec<u8> = Vec::new();
    let mut i: usize = 0;
    while i < text.len()
        invariant
            i <= text@.len(),
            out@ == text@.take(i as int),
            forall|j: int| 0 <= j < i ==> text@[j] != 0u8,
        decreases text@.len() - i,
    {
        let b = text[i];
        if b == 0 {
            assert(text@[i as int] == 0u8);
            return Err(FliteError::InvalidString { nul_position: i });
        }
        out.push(b);
        i = i + 1;
    }
    assert(text@.take(text@.len() as int) =~= text@);
    out.push(0);
    Ok(out)
}

} // verus!
