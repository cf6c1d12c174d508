use vstd::prelude::*;

verus! {

/// Number of bytes in a kitty's genetic payload.
pub const DNA_LEN: usize = 16;

/// One byte of a child's payload: bits set in `selector` come from `dna1`,
/// the others from `dna2`.
pub open spec fn combine_byte(dna1: u8, dna2: u8, selector: u8) -> u8 {
    (selector & dna1) | (!selector & dna2)
}

/// The child's payload: `combine_byte` applied at every position.
pub open spec fn combine_genes(dna1: Seq<u8>, dna2: Seq<u8>, selector: Seq<u8>) -> Seq<u8> {
    Seq::new(DNA_LEN as nat, |i: int| combine_byte(dna1[i], dna2[i], selector[i]))
}

/// Picks each bit from `dna1` where `selector` has it set, else from `dna2`.
pub fn combine_dna(dna1: u8, dna2: u8, selector: u8) -> (r: u8)
    ensures
        r == combine_byte(dna1, dna2, selector),
{
    (selector & dna1) | (!selector & dna2)
}

/// Combines two payloads position by position under `selector`.
pub fn combine_payloads(dna1: &[u8; 16], dna2: &[u8; 16], selector: &[u8; 16]) -> (r: [u8; 16])
    ensures
        r@ == combine_genes(dna1@, dna2@, selector@),
{
    let mut new_dna: [u8; 16] = [0u8; 16];
    let mut i: usize = 0;
    while i < DNA_LEN
        invariant
            i <= DNA_LEN,
            new_dna@.len() == DNA_LEN,
            forall|j: int| 0 <= j < i ==> new_dna@[j] == combine_byte(dna1@[j], dna2@[j], selector@[j]),
        decreases DNA_LEN - i,
    {
        new_dna[i] = combine_dna(dna1[i], dna2[i], selector[i]);
        i = i + 1;
    }
    assert(new_dna@ =~= combine_genes(dna1@, dna2@, selector@));
    new_dna
}

} // verus!
