use vstd::prelude::*;

verus! {

/// Compares two device addresses byte by byte.
pub fn same_address(a: &[u8; 6], b: &[u8; 6]) -> (r: bool)
    ensures
        r == (a@ == b@),
{
    let mut i: usize = 0;
    while i < 6
        invariant
            0 <= i <= 6,
            a@.len() == 6,
            b@.len() == 6,
            forall|j: int| 0 <= j < i ==> a@[j] == b@[j],
        decreases 6 - i,
    {
        if a[i] != b[i] {
            return false;
        }
        i = i + 1;
    }
    assert(a@ =~= b@);
    true
}

/// `target` is among the addresses that the stack knows.
pub open spec fn knows(known: Seq<[u8; 6]>, target: Seq<u8>) -> bool {
    exists|i: int| 0 <= i < known.len() && known[i]@ == target
}

/// Whether the target is among the devices that the stack knows as paired.
pub fn is_paired(known: &Vec<[u8; 6]>, target: &[u8; 6]) -> (r: bool)
    ensures
        r == knows(known@, target@),
{
    let mut i: usize = 0;
    while i < known.len()
        invariant
            0 <= i <= known@.len(),
            forall|j: int| 0 <= j < i ==> known@[j]@ != target@,
        decreases known@.len() - i,
    {
        if same_address(&known[i], target) {
            return true;
        }
        i = i + 1;
    }
    false
}

} // verus!
