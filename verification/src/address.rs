use vstd::prelude::*;
use vstd::slice::slice_to_vec;

verus! {

/// A 32-byte account address, as the runtime hands it to a program.
pub type Address = [u8; 32];

/// Tells whether two addresses hold the same bytes.
pub fn same_address(a: &Address, b: &Address) -> (r: bool)
    ensures
        r == (a@ == b@),
{
    let mut i: usize = 0;
    while i < 32
        invariant
            0 <= i <= 32,
            a@.len() == 32,
            b@.len() == 32,
            forall|j: int| 0 <= j < i ==> a@[j] == b@[j],
        decreases 32 - i,
    {
        if a[i] != b[i] {
            return false;
        }
        i = i + 1;
    }
    assert(a@ =~= b@);
    true
}

/// The bytes of an address, as one seed of a derived address.
pub fn address_seed(a: &Address) -> (v: Vec<u8>)
    ensures
        v@ == a@,
{
    slice_to_vec(a.as_slice())
}

/// The one-byte seed that carries a bump.
pub fn bump_seed(bump: u8) -> (v: Vec<u8>)
    ensures
        v@ == seq![bump],
{
    let mut v: Vec<u8> = Vec::new();
    v.push(bump);
    v
}

/// Appends one seed to a list of seeds.
pub fn push_seed(seeds: &mut Vec<Vec<u8>>, seed: Vec<u8>)
    ensures
        final(seeds).deep_view() == old(seeds).deep_view().push(seed@),
{
    let ghost before = seeds.deep_view();
    assert(seed.deep_view() =~= seed@);
    seeds.push(seed);
    assert(seeds.deep_view() =~= before.push(seed@));
}

} // verus!
