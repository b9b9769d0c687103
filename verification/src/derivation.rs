use crate::codec::{same_address, Address};
use vstd::prelude::*;

verus! {

/// What the derivation gives for three seeds under `program`: the address
/// and its bump, or nothing. In a program built for the chain this is the
/// runtime's search, which finds the same address for the same seeds and
/// program; in any other build it is nothing, whatever the seeds.
pub uninterp spec fn derived_address(
    first: Seq<u8>,
    second: Seq<u8>,
    third: Seq<u8>,
    program: Seq<u8>,
) -> Option<(Seq<u8>, u8)>;

/// Whether `address` is the one at which the pool keeps its reserve of
/// `mint`: what the derivation gives under `reserve_program` for the seeds
/// configuration address, balance service, mint, in this order, without the
/// bump.
pub open spec fn is_reserve_address(
    address: Option<Address>,
    config: Address,
    token_program: Address,
    mint: Address,
    reserve_program: Address,
) -> bool {
    match derived_address(config@, token_program@, mint@, reserve_program@) {
        Some(found) => address is Some && address->0@ == found.0,
        None => address is None,
    }
}

/// Derives the address that `program` owns under three seeds, each an
/// address, together with its bump.
///
/// This calls `pinocchio::pubkey::try_find_program_address`, which hands the
/// question to the runtime and returns `None` where no address is found or no
/// runtime answers. All that is claimed is that the answer is the
/// derivation's for these seeds and this program: which address that is, is
/// not said.
#[verifier::external_body]
pub(crate) fn find_address(
    first: &Address,
    second: &Address,
    third: &Address,
    program: &Address,
) -> (r: Option<(Address, u8)>)
    ensures
        match r {
            Some(found) => derived_address(first@, second@, third@, program@) == Some(
                (found.0@, found.1),
            ),
            None => derived_address(first@, second@, third@, program@) is None,
        },
{
    pinocchio::pubkey::try_find_program_address(&[&first[..], &second[..], &third[..]], program)
}

/// The address at which the pool keeps its reserve of `mint`: the one that
/// `reserve_program` owns under the seeds configuration address, balance
/// service, mint, in this order. `None` where the derivation gave no
/// address.
pub(crate) fn reserve_address(
    config: &Address,
    token_program: &Address,
    mint: &Address,
    reserve_program: &Address,
) -> (r: Option<Address>)
    ensures
        is_reserve_address(r, *config, *token_program, *mint, *reserve_program),
{
    match find_address(config, token_program, mint, reserve_program) {
        Some((address, _)) => Some(address),
        None => None,
    }
}

/// Whether a derivation gave exactly the supplied address.
pub fn matches_derived(supplied: &Address, derived: &Option<Address>) -> (r: bool)
    ensures
        r == (*derived == Some(*supplied)),
{
    match derived {
        Some(address) => same_address(address, supplied),
        None => false,
    }
}

} // verus!
