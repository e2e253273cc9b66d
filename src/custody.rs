//! The choice between the two ways of placing the asset under the program
//! signer's control, and the trade-state record.
use vstd::prelude::*;
use crate::accounts::SellRemainingAccounts;
use crate::address::Address;
use crate::error::SellError;

verus! {

/// Whether an address is the token metadata program's.
pub uninterp spec fn is_token_metadata_program(key: Seq<u8>) -> bool;

/// Relies on mpl_token_metadata's program id `ID`: the result says whether the
/// address equals it.
#[verifier::external_body]
fn token_metadata_program_matches(key: &Address) -> (r: bool)
    ensures
        r == is_token_metadata_program(key@),
{
    anchor_lang::prelude::Pubkey::new_from_array(key.bytes) == mpl_token_metadata::ID
}

/// How the asset comes under the program signer's control.
#[derive(Clone, Copy, Debug)]
pub enum CustodyDelegation {
    /// Nothing is delegated: the authority lists on the holder's behalf.
    Unchanged,
    /// A sale delegation through the token metadata program, for assets whose
    /// transfers are restricted by rules. Its authorization payload carries the
    /// amount, the delegate and the delegate's seeds.
    MetadataDelegate { accounts: SellRemainingAccounts, delegate: Address, amount: u64 },
    /// An approval through the token program.
    TokenApprove { delegate: Address, amount: u64 },
}

/// The extra accounts, read from the first eight addresses that follow the
/// listing's accounts.
pub open spec fn remaining_of(r: Seq<Address>) -> SellRemainingAccounts {
    SellRemainingAccounts {
        metadata_program: r[0],
        delegate_record: r[1],
        token_record: r[2],
        token_mint: r[3],
        edition: r[4],
        auth_rules_program: r[5],
        auth_rules: r[6],
        sysvar_instructions: r[7],
    }
}

/// The delegation that a listing asks for. Only a holder who signs delegates;
/// extra accounts select the metadata program's delegation, their absence the
/// token program's approval.
pub open spec fn custody_delegation(
    wallet_is_signer: bool,
    remaining: Seq<Address>,
    delegate: Address,
    amount: u64,
) -> Result<CustodyDelegation, SellError> {
    if !wallet_is_signer {
        Ok(CustodyDelegation::Unchanged)
    } else if remaining.len() == 0 {
        Ok(CustodyDelegation::TokenApprove { delegate, amount })
    } else if !is_token_metadata_program(remaining[0]@) {
        Err(SellError::PublicKeyMismatch)
    } else if remaining.len() < 8 {
        Err(SellError::NotEnoughAccountKeys)
    } else {
        Ok(CustodyDelegation::MetadataDelegate { accounts: remaining_of(remaining), delegate, amount })
    }
}

/// Selects the delegation for a listing of `amount` tokens to `delegate`.
pub fn select_custody_delegation(
    wallet_is_signer: bool,
    remaining: &Vec<Address>,
    delegate: &Address,
    amount: u64,
) -> (r: Result<CustodyDelegation, SellError>)
    ensures
        r == custody_delegation(wallet_is_signer, remaining@, *delegate, amount),
{
    if !wallet_is_signer {
        return Ok(CustodyDelegation::Unchanged);
    }
    if remaining.len() == 0 {
        return Ok(CustodyDelegation::TokenApprove { delegate: *delegate, amount });
    }
    if !token_metadata_program_matches(&remaining[0]) {
        return Err(SellError::PublicKeyMismatch);
    }
    if remaining.len() < 8 {
        return Err(SellError::NotEnoughAccountKeys);
    }
    let accounts = SellRemainingAccounts {
        metadata_program: remaining[0],
        delegate_record: remaining[1],
        token_record: remaining[2],
        token_mint: remaining[3],
        edition: remaining[4],
        auth_rules_program: remaining[5],
        auth_rules: remaining[6],
        sysvar_instructions: remaining[7],
    };
    Ok(CustodyDelegation::MetadataDelegate { accounts, delegate: *delegate, amount })
}

/// Size in bytes of a trade state account.
pub const TRADE_STATE_SIZE: usize = 1;

/// The data of a trade state after a listing with the given bump: a new record
/// of one byte where it was empty, else the same record with its first byte
/// rewritten.
pub open spec fn materialized(data: Seq<u8>, bump: u8) -> Seq<u8> {
    if data.len() == 0 {
        seq![bump]
    } else {
        data.update(0, bump)
    }
}

/// Writes the bump into a trade state, allocating the record where it is empty.
/// Returns whether it was allocated.
pub fn materialize_trade_state(data: &mut Vec<u8>, bump: u8) -> (allocated: bool)
    ensures
        allocated == (old(data)@.len() == 0),
        final(data)@ == materialized(old(data)@, bump),
{
    let allocated = data.len() == 0;
    if allocated {
        let mut i: usize = 0;
        while i < TRADE_STATE_SIZE
            invariant
                0 <= i <= TRADE_STATE_SIZE,
                data@ == Seq::new(i as nat, |k: int| 0u8),
            decreases TRADE_STATE_SIZE - i,
        {
            data.push(0u8);
            i = i + 1;
            assert(data@ =~= Seq::new(i as nat, |k: int| 0u8));
        }
    }
    data.set(0, bump);
    assert(data@ =~= materialized(old(data)@, bump));
    allocated
}

/// Listing the same terms again rewrites the record without allocating it:
/// the record is no longer empty after a listing, and a second write of the
/// same bump leaves it as the first left it.
pub proof fn lemma_relisting_is_idempotent(data: Seq<u8>, bump: u8)
    ensures
        materialized(data, bump).len() > 0,
        materialized(data, bump)[0] == bump,
        materialized(materialized(data, bump), bump) == materialized(data, bump),
{
    assert(materialized(materialized(data, bump), bump) =~= materialized(data, bump));
}

} // verus!
