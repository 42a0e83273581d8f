//! Public keys and the identifier of this program.

use vstd::prelude::*;

verus! {

/// A 32-byte public key: the address of an account.
pub type Key = [u8; 32];

/// The identifier under which this program is deployed
/// (`Fg6PaFpoGXkYsidMpWTK6W2BeZ7FEfcYkg476zPFsLnS` in base 58).
pub const PROGRAM_ID: Key = [
    218, 7, 92, 178, 255, 94, 198, 129, 118, 19, 222, 83, 11, 105, 42, 135,
    53, 71, 119, 105, 218, 71, 67, 12, 189, 129, 84, 51, 92, 74, 131, 39,
];

/// Whether two keys hold the same bytes.
pub fn keys_equal(a: &Key, b: &Key) -> (same: bool)
    ensures
        same == (a@ == b@),
{
    let mut i: usize = 0;
    while i < 32
        invariant
            i <= 32,
            forall|j: int| 0 <= j < i ==> a@[j] == b@[j],
        decreases 32 - i,
    {
        if a[i] != b[i] {
            return false;
        }
        i += 1;
    }
    assert(a@ =~= b@);
    true
}

} // verus!
