use vstd::prelude::*;
use crate::error::SwapError;

verus! {

/// Number of accounts a swap reads, in this order: source and destination
/// token accounts, source and destination unit accounts, fee sink.
pub const SWAP_ACCOUNT_COUNT: usize = 5;

/// The account each leg of a swap reads or writes.
#[derive(Clone, Copy, Debug, PartialEq, Eq)]
pub enum Role {
    SourceFungible,
    DestFungible,
    SourceUnit,
    DestUnit,
    FeeSink,
}

/// The five accounts of a swap, by role.
#[derive(Clone, Copy, Debug, PartialEq, Eq)]
pub struct SwapAccounts<A> {
    pub source_fungible: A,
    pub dest_fungible: A,
    pub source_unit: A,
    pub dest_unit: A,
    pub fee_sink: A,
}

impl<A> SwapAccounts<A> {
    /// The account that plays `role`.
    pub open spec fn spec_account(&self, role: Role) -> A {
        match role {
            Role::SourceFungible => self.source_fungible,
            Role::DestFungible => self.dest_fungible,
            Role::SourceUnit => self.source_unit,
            Role::DestUnit => self.dest_unit,
            Role::FeeSink => self.fee_sink,
        }
    }

    /// The account that plays `role`.
    pub fn account(&self, role: Role) -> (r: &A)
        ensures
            *r == self.spec_account(role),
    {
        match role {
            Role::SourceFungible => &self.source_fungible,
            Role::DestFungible => &self.dest_fungible,
            Role::SourceUnit => &self.source_unit,
            Role::DestUnit => &self.dest_unit,
            Role::FeeSink => &self.fee_sink,
        }
    }
}

/// Takes the swap's accounts from the front of `accounts`, in role order.
/// Fails with `AccountMissing` when fewer than five are given; accounts past
/// the fifth are ignored.
pub fn resolve_accounts<A: Copy>(accounts: &[A]) -> (r: Result<SwapAccounts<A>, SwapError>)
    ensures
        r is Ok <==> accounts@.len() >= SWAP_ACCOUNT_COUNT,
        r is Err ==> r->Err_0 == SwapError::AccountMissing,
        r is Ok ==> (r->Ok_0 == SwapAccounts {
            source_fungible: accounts@[0],
            dest_fungible: accounts@[1],
            source_unit: accounts@[2],
            dest_unit: accounts@[3],
            fee_sink: accounts@[4],
        }),
{
    if accounts.len() < SWAP_ACCOUNT_COUNT {
        return Err(SwapError::AccountMissing);
    }
    Ok(SwapAccounts {
        source_fungible: accounts[0],
        dest_fungible: accounts[1],
        source_unit: accounts[2],
        dest_unit: accounts[3],
        fee_sink: accounts[4],
    })
}

} // verus!
