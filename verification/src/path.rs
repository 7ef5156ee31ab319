use vstd::prelude::*;

use crate::error::Error;

verus! {

/// Whether the byte sequence holds a NUL byte anywhere.
pub open spec fn has_nul(s: Seq<u8>) -> bool {
    exists|i: int| 0 <= i < s.len() && s[i] == 0
}

/// The boundary's string form of a path: the bytes themselves followed by
/// one terminating NUL.
pub open spec fn native_path_of(s: Seq<u8>) -> Seq<u8> {
    s.push(0)
}

/// Path codec: turns caller text, given as its bytes, into the
/// NUL-terminated form the boundary's calls take. The text may name a file
/// or be an engine-specific description; either is opaque here. Fails,
/// touching nothing, exactly when the text holds a NUL byte — no other
/// validation (existence, permissions) happens at this layer.
pub fn to_native_path(path: &[u8]) -> (r: Result<Vec<u8>, Error>)
    ensures
        r is Ok <==> !has_nul(path@),
        r matches Ok(p) ==> p@ == native_path_of(path@),
        r matches Err(e) ==> e is BadFilePath,
{
    let n = path.len();
    let mut out: Vec<u8> = Vec::new();
    let mut i: usize = 0;
    while i < n
        invariant
            i <= n,
            n == path@.len(),
            out@ == path@.subrange(0, i as int),
            forall|j: int| 0 <= j < i ==> path@[j] != 0,
        decreases n - i,
    {
        let b = path[i];
        if b == 0 {
            assert(has_nul(path@));
            return Err(Error::BadFilePath);
        }
        out.push(b);
        i = i + 1;
    }
    assert(out@ =~= path@);
    out.push(0u8);
    Ok(out)
}

} // verus!
