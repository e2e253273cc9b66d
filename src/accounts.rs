//! The accounts that a listing reads, as plain values.
use vstd::prelude::*;
use crate::address::Address;

verus! {

/// Number of authority scopes that an auction house can delegate.
pub const SCOPE_COUNT: usize = 7;

/// Index of the scope that allows listing for sale.
pub const SELL_SCOPE: usize = 4;

/// An auction house instance: its identities and its configuration flags.
#[derive(Clone, Copy, Debug)]
pub struct AuctionHouse {
    pub key: Address,
    pub creator: Address,
    pub treasury_mint: Address,
    pub authority: Address,
    pub auction_house_fee_account: Address,
    pub fee_payer_bump: u8,
    pub requires_sign_off: bool,
    pub can_change_sale_price: bool,
    pub has_auctioneer: bool,
    pub scopes: [bool; 7],
}

/// A scoped delegation record: the scopes granted to one delegated authority
/// of one auction house.
#[derive(Clone, Copy, Debug)]
pub struct Auctioneer {
    pub auctioneer_authority: Address,
    pub auction_house: Address,
    pub scopes: [bool; 7],
}

/// The token account that holds the asset for sale.
#[derive(Clone, Copy, Debug)]
pub struct TokenAccount {
    pub key: Address,
    pub mint: Address,
    pub owner: Address,
    pub amount: u64,
}

/// A trade state account: its address and its data, empty until created.
#[derive(Clone, Debug)]
pub struct TradeState {
    pub key: Address,
    pub data: Vec<u8>,
}

/// Accounts of a direct listing.
#[derive(Clone, Debug)]
pub struct Sell {
    pub wallet: Address,
    pub wallet_is_signer: bool,
    pub token_account: TokenAccount,
    pub metadata: Address,
    pub authority: Address,
    pub authority_is_signer: bool,
    pub auction_house: AuctionHouse,
    pub auction_house_fee_account: Address,
    pub seller_trade_state: TradeState,
    pub free_seller_trade_state: TradeState,
    pub token_program: Address,
    pub system_program: Address,
    pub program_as_signer: Address,
}

/// The extra accounts that the metadata program's delegation needs, in the
/// order in which they follow the listing's accounts.
#[derive(Clone, Copy, Debug)]
pub struct SellRemainingAccounts {
    pub metadata_program: Address,
    pub delegate_record: Address,
    pub token_record: Address,
    pub token_mint: Address,
    pub edition: Address,
    pub auth_rules_program: Address,
    pub auth_rules: Address,
    pub sysvar_instructions: Address,
}

/// Accounts of a listing made by a delegated authority.
#[derive(Clone, Debug)]
pub struct AuctioneerSell {
    pub wallet: Address,
    pub wallet_is_signer: bool,
    pub token_account: TokenAccount,
    pub metadata: Address,
    pub authority: Address,
    pub authority_is_signer: bool,
    pub auctioneer_authority: Address,
    pub auctioneer_authority_is_signer: bool,
    pub auction_house: AuctionHouse,
    pub auction_house_fee_account: Address,
    pub seller_trade_state: TradeState,
    pub free_seller_trade_state: TradeState,
    pub ah_auctioneer_pda: Auctioneer,
    pub program_as_signer: Address,
    pub token_program: Address,
    pub system_program: Address,
}

/// What the account validators outside this library found: whether the token
/// account is the holder's associated account for its mint, and whether the
/// metadata account belongs to that mint.
#[derive(Clone, Copy, Debug)]
pub struct AccountChecks {
    pub holding_account_valid: bool,
    pub metadata_valid: bool,
}

/// The accounts of a delegated listing, seen as those of a direct one.
pub open spec fn sell_of(a: AuctioneerSell) -> Sell {
    Sell {
        wallet: a.wallet,
        wallet_is_signer: a.wallet_is_signer,
        token_account: a.token_account,
        metadata: a.metadata,
        authority: a.authority,
        authority_is_signer: a.authority_is_signer,
        auction_house: a.auction_house,
        auction_house_fee_account: a.auction_house_fee_account,
        seller_trade_state: a.seller_trade_state,
        free_seller_trade_state: a.free_seller_trade_state,
        token_program: a.token_program,
        system_program: a.system_program,
        program_as_signer: a.program_as_signer,
    }
}

impl From<AuctioneerSell> for Sell {
    fn from(a: AuctioneerSell) -> (r: Sell)
        ensures
            r == sell_of(a),
    {
        Sell {
            wallet: a.wallet,
            wallet_is_signer: a.wallet_is_signer,
            token_account: a.token_account,
            metadata: a.metadata,
            authority: a.authority,
            authority_is_signer: a.authority_is_signer,
            auction_house: a.auction_house,
            auction_house_fee_account: a.auction_house_fee_account,
            seller_trade_state: a.seller_trade_state,
            free_seller_trade_state: a.free_seller_trade_state,
            token_program: a.token_program,
            system_program: a.system_program,
            program_as_signer: a.program_as_signer,
        }
    }
}

impl vstd::std_specs::convert::FromSpecImpl<AuctioneerSell> for Sell {
    open spec fn obeys_from_spec() -> bool {
        true
    }

    open spec fn from_spec(a: AuctioneerSell) -> Sell {
        sell_of(a)
    }
}

} // verus!
