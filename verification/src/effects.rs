use crate::capability::Capability;
use crate::codec::Address;
use vstd::prelude::*;

verus! {

/// A movement of `amount` tokens between two balance accounts. Where
/// `capability` is `None`, the authority authorizes the movement itself;
/// otherwise the movement is made under the capability.
#[derive(Clone, Copy, PartialEq, Eq, Debug)]
pub struct Transfer {
    pub from: Address,
    pub to: Address,
    pub authority: Address,
    pub amount: u64,
    pub capability: Option<Capability>,
}

/// The issuance of `amount` new tokens of `mint` to `account`, made under
/// the capability to act as the mint's authority.
#[derive(Clone, Copy, PartialEq, Eq, Debug)]
pub struct MintTo {
    pub mint: Address,
    pub account: Address,
    pub mint_authority: Address,
    pub amount: u64,
    pub capability: Capability,
}

/// The burning of `amount` tokens of `mint` held in `account`, authorized by
/// the holder.
#[derive(Clone, Copy, PartialEq, Eq, Debug)]
pub struct Burn {
    pub account: Address,
    pub mint: Address,
    pub authority: Address,
    pub amount: u64,
}

/// The allocation of a record of `space` bytes at `to`, owned by `owner` and
/// funded by `from`, made under the capability to act as `to`.
#[derive(Clone, Copy, PartialEq, Eq, Debug)]
pub struct CreateAccount {
    pub from: Address,
    pub to: Address,
    pub space: u64,
    pub owner: Address,
    pub capability: Capability,
}

/// The initialization of an issuance record.
#[derive(Clone, Copy, PartialEq, Eq, Debug)]
pub struct InitializeMint {
    pub mint: Address,
    pub decimals: u8,
    pub mint_authority: Address,
    pub freeze_authority: Option<Address>,
    pub capability: Capability,
}

} // verus!
