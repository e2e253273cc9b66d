//! Properties of listing that relate its inputs, or several listings.
use vstd::prelude::*;
use crate::accounts::{AccountChecks, AuctioneerSell, Sell, SELL_SCOPE};
use crate::address::Address;
use crate::custody::CustodyDelegation;
use crate::error::SellError;
use crate::sell::{
    auctioneer_precheck, fee_payer_of, sale_authorized, sell_decision, sell_logic_effect,
    sell_precheck, FeePayer,
};

verus! {

/// A free listing that the holder does not sign fails for want of a signer
/// exactly when the free trade state already exists, the authority does not
/// sign, or the auction house does not let its authority set the price; when
/// all three hold and the accounts and amount are in order, it goes through.
pub proof fn lemma_free_listing_without_holder(
    a: Sell,
    remaining: Seq<Address>,
    checks: AccountChecks,
    token_size: u64,
)
    requires
        !a.wallet_is_signer,
    ensures
        (sell_decision(a, remaining, checks, 0, token_size) == Err::<
            (FeePayer, CustodyDelegation),
            SellError,
        >(SellError::SaleRequiresSigner)) <==> !(a.free_seller_trade_state.data@.len() == 0
            && a.authority_is_signer && a.auction_house.can_change_sale_price),
        (a.free_seller_trade_state.data@.len() == 0 && a.authority_is_signer
            && a.auction_house.can_change_sale_price && checks.holding_account_valid
            && a.token_account.owner@ == a.wallet@ && checks.metadata_valid && token_size
            <= a.token_account.amount) ==> sell_decision(
            a,
            remaining,
            checks,
            0,
            token_size,
        ) is Ok,
{
}

/// Listing more tokens than the holding account holds always fails, at any
/// price; once the signer policy, the fee payer and the account checks pass, it
/// fails for the amount.
pub proof fn lemma_oversized_listing_fails(
    a: Sell,
    remaining: Seq<Address>,
    checks: AccountChecks,
    price: u64,
    token_size: u64,
)
    requires
        token_size > a.token_account.amount,
    ensures
        sell_decision(a, remaining, checks, price, token_size) is Err,
        (sale_authorized(
            a.wallet_is_signer,
            price,
            a.free_seller_trade_state.data@.len() == 0,
            a.authority_is_signer,
            a.auction_house.can_change_sale_price,
        ) && fee_payer_of(
            a.authority_is_signer,
            a.wallet_is_signer,
            a.auction_house.requires_sign_off,
        ) is Ok && checks.holding_account_valid && a.token_account.owner@ == a.wallet@
            && checks.metadata_valid) ==> sell_decision(
            a,
            remaining,
            checks,
            price,
            token_size,
        ) == Err::<(FeePayer, CustodyDelegation), SellError>(SellError::InvalidTokenAmount),
{
}

/// Listing the same terms twice: the second listing passes the same checks and
/// takes the same decisions, finds the trade state allocated and does not
/// allocate it again, and leaves its data, the rewritten bump, as the first left
/// it; neither listing changes the holding account.
pub proof fn lemma_relisting_same_terms(
    first: Sell,
    between: Sell,
    after: Sell,
    remaining: Seq<Address>,
    checks: AccountChecks,
    program_id: Seq<u8>,
    trade_state_bump: u8,
    free_trade_state_bump: u8,
    program_as_signer_bump: u8,
    price: u64,
    token_size: u64,
    r1: Result<crate::sell::SellOutcome, SellError>,
    r2: Result<crate::sell::SellOutcome, SellError>,
)
    requires
        r1 is Ok,
        sell_logic_effect(first, between, remaining, checks, trade_state_bump, price, token_size, r1),
        sell_logic_effect(between, after, remaining, checks, trade_state_bump, price, token_size, r2),
    ensures
        sell_precheck(
            between,
            program_id,
            trade_state_bump,
            free_trade_state_bump,
            program_as_signer_bump,
            price,
            token_size,
        ) == sell_precheck(
            first,
            program_id,
            trade_state_bump,
            free_trade_state_bump,
            program_as_signer_bump,
            price,
            token_size,
        ),
        r2 is Ok,
        !r2->Ok_0.allocate_trade_state,
        after.seller_trade_state.data@ == between.seller_trade_state.data@,
        after.seller_trade_state.data@[0] == trade_state_bump,
        after.token_account == first.token_account,
{
    assert(sell_decision(between, remaining, checks, price, token_size) == sell_decision(
        first,
        remaining,
        checks,
        price,
        token_size,
    ));
    crate::custody::lemma_relisting_is_idempotent(
        first.seller_trade_state.data@,
        trade_state_bump,
    );
}

/// A delegated listing fails for want of an auctioneer whenever the auction
/// house has none, whatever scoped delegation record is given.
pub proof fn lemma_delegated_listing_needs_auctioneer(
    a: AuctioneerSell,
    program_id: Seq<u8>,
    trade_state_bump: u8,
    free_trade_state_bump: u8,
    program_as_signer_bump: u8,
    token_size: u64,
)
    requires
        !a.auction_house.has_auctioneer,
    ensures
        auctioneer_precheck(
            a,
            program_id,
            trade_state_bump,
            free_trade_state_bump,
            program_as_signer_bump,
            token_size,
        ) == Some(SellError::NoAuctioneerProgramSet),
{
}

/// A delegated listing fails whenever the scoped delegation record does not
/// grant listing for sale, whatever the auction house's flags.
pub proof fn lemma_delegated_listing_needs_scope(
    a: AuctioneerSell,
    program_id: Seq<u8>,
    trade_state_bump: u8,
    free_trade_state_bump: u8,
    program_as_signer_bump: u8,
    token_size: u64,
)
    requires
        !a.ah_auctioneer_pda.scopes@[SELL_SCOPE as int],
    ensures
        auctioneer_precheck(
            a,
            program_id,
            trade_state_bump,
            free_trade_state_bump,
            program_as_signer_bump,
            token_size,
        ) is Some,
{
}

} // verus!
