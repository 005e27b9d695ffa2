use vstd::prelude::*;

verus! {

/// A 32-byte identifier: the unit of identity for the list authority,
/// transfer destinations and record owners.
#[derive(Clone, Copy, Debug)]
pub struct AccountId {
    pub bytes: [u8; 32],
}

/// Byte-for-byte equality of two identifiers; membership and authority
/// checks are exact identity matches, with no prefix or pattern matching.
pub fn id_eq(a: &AccountId, b: &AccountId) -> (r: bool)
    ensures
        r <==> *a == *b,
{
    let mut i: usize = 0;
    while i < 32
        invariant
            i <= 32,
            forall|j: int| 0 <= j < i ==> a.bytes@[j] == b.bytes@[j],
        decreases 32 - i,
    {
        if a.bytes[i] != b.bytes[i] {
            return false;
        }
        i += 1;
    }
    proof {
        assert(a.bytes =~= b.bytes);
    }
    true
}

} // verus!
