//! The two listing paths and the logic that they share.
use vstd::prelude::*;
use crate::accounts::{
    sell_of, AccountChecks, AuctionHouse, Auctioneer, AuctioneerSell, Sell, TradeState, SELL_SCOPE,
};
use crate::address::{
    derived_view, fee_payer_bytes, fee_payer_seed, find_program_as_signer_address,
    find_trade_state_address, prefix_bytes, prefix_seed, program_address, program_as_signer_seeds,
    lemma_seed_vec_view, trade_state_seed_vec, trade_state_seeds, Address,
};
use crate::custody::{
    custody_delegation, materialize_trade_state, materialized, select_custody_delegation,
    CustodyDelegation,
};
use crate::error::SellError;

verus! {

/// The signer policy: the holder signs, or the listing is free, no free trade
/// state exists yet, the authority signs and the auction house lets its
/// authority set the price later.
pub open spec fn sale_authorized(
    wallet_is_signer: bool,
    price: u64,
    free_trade_state_empty: bool,
    authority_is_signer: bool,
    can_change_sale_price: bool,
) -> bool {
    wallet_is_signer || (price == 0 && free_trade_state_empty && authority_is_signer
        && can_change_sale_price)
}

/// Decides the signer policy.
pub fn check_sale_authorized(
    wallet_is_signer: bool,
    price: u64,
    free_trade_state_empty: bool,
    authority_is_signer: bool,
    can_change_sale_price: bool,
) -> (r: bool)
    ensures
        r == sale_authorized(
            wallet_is_signer,
            price,
            free_trade_state_empty,
            authority_is_signer,
            can_change_sale_price,
        ),
{
    wallet_is_signer || (price == 0 && free_trade_state_empty && authority_is_signer
        && can_change_sale_price)
}

/// Who funds the creation of a trade state.
#[derive(Clone, Copy, Debug, PartialEq, Eq, Structural)]
pub enum FeePayer {
    /// The auction house's fee account, which the program signs for.
    AuctionHouseFeeAccount,
    /// The holder's wallet.
    Wallet,
}

/// The fee payer: the fee account where the authority signs, else the holder
/// where they sign and the auction house does not require its sign-off.
pub open spec fn fee_payer_of(
    authority_is_signer: bool,
    wallet_is_signer: bool,
    requires_sign_off: bool,
) -> Result<FeePayer, SellError> {
    if authority_is_signer {
        Ok(FeePayer::AuctionHouseFeeAccount)
    } else if wallet_is_signer {
        if requires_sign_off {
            Err(SellError::CannotTakeThisActionWithoutAuctionHouseSignOff)
        } else {
            Ok(FeePayer::Wallet)
        }
    } else {
        Err(SellError::NoPayerPresent)
    }
}

/// Resolves the fee payer.
pub fn get_fee_payer(
    authority_is_signer: bool,
    wallet_is_signer: bool,
    requires_sign_off: bool,
) -> (r: Result<FeePayer, SellError>)
    ensures
        r == fee_payer_of(authority_is_signer, wallet_is_signer, requires_sign_off),
{
    if authority_is_signer {
        Ok(FeePayer::AuctionHouseFeeAccount)
    } else if wallet_is_signer {
        if requires_sign_off {
            Err(SellError::CannotTakeThisActionWithoutAuctionHouseSignOff)
        } else {
            Ok(FeePayer::Wallet)
        }
    } else {
        Err(SellError::NoPayerPresent)
    }
}

/// The seeds with which the program signs for the fee account where it pays;
/// none where the holder pays.
pub open spec fn fee_payer_signer_seeds(payer: FeePayer, house: AuctionHouse) -> Seq<Seq<u8>> {
    match payer {
        FeePayer::AuctionHouseFeeAccount => seq![
            prefix_seed(),
            house.key@,
            fee_payer_seed(),
            seq![house.fee_payer_bump],
        ],
        FeePayer::Wallet => seq![],
    }
}

/// Builds the signer seeds of the fee payer.
pub fn fee_payer_seed_vec(payer: FeePayer, house: &AuctionHouse) -> (r: Vec<Vec<u8>>)
    ensures
        r.deep_view() == fee_payer_signer_seeds(payer, *house),
{
    let mut r: Vec<Vec<u8>> = Vec::new();
    match payer {
        FeePayer::AuctionHouseFeeAccount => {
            r.push(prefix_bytes());
            r.push(house.key.to_vec());
            r.push(fee_payer_bytes());
            let mut bump: Vec<u8> = Vec::new();
            bump.push(house.fee_payer_bump);
            r.push(bump);
            proof {
                lemma_seed_vec_view(&r);
                assert(r@[3]@ =~= seq![house.fee_payer_bump]);
            }
        },
        FeePayer::Wallet => {},
    }
    proof {
        lemma_seed_vec_view(&r);
    }
    assert(r.deep_view() =~= fee_payer_signer_seeds(payer, *house));
    r
}

/// What a listing leaves for the runtime to do: the delegation to invoke, who
/// pays for the trade state, and whether to create it with the given seeds.
#[derive(Clone, Debug)]
pub struct SellOutcome {
    pub fee_payer: FeePayer,
    pub fee_payer_seeds: Vec<Vec<u8>>,
    pub delegation: CustodyDelegation,
    pub allocate_trade_state: bool,
    pub trade_state_seeds: Vec<Vec<u8>>,
}

/// The decisions of the shared listing logic: the first check that fails, or
/// the fee payer and the delegation. The holding account must be owned by the
/// holder, besides what the outside validators found.
pub open spec fn sell_decision(
    a: Sell,
    remaining: Seq<Address>,
    checks: AccountChecks,
    price: u64,
    token_size: u64,
) -> Result<(FeePayer, CustodyDelegation), SellError> {
    if !sale_authorized(
        a.wallet_is_signer,
        price,
        a.free_seller_trade_state.data@.len() == 0,
        a.authority_is_signer,
        a.auction_house.can_change_sale_price,
    ) {
        Err(SellError::SaleRequiresSigner)
    } else {
        match fee_payer_of(
            a.authority_is_signer,
            a.wallet_is_signer,
            a.auction_house.requires_sign_off,
        ) {
            Err(e) => Err(e),
            Ok(payer) => {
                if !checks.holding_account_valid || a.token_account.owner@ != a.wallet@ {
                    Err(SellError::InvalidHoldingAccount)
                } else if !checks.metadata_valid {
                    Err(SellError::InvalidMetadata)
                } else if token_size > a.token_account.amount {
                    Err(SellError::InvalidTokenAmount)
                } else {
                    match custody_delegation(
                        a.wallet_is_signer,
                        remaining,
                        a.program_as_signer,
                        token_size,
                    ) {
                        Err(e) => Err(e),
                        Ok(d) => Ok((payer, d)),
                    }
                }
            },
        }
    }
}

/// The seeds of the trade state that a listing creates, the bump last.
pub open spec fn creation_seeds(a: Sell, price: u64, token_size: u64, bump: u8) -> Seq<Seq<u8>> {
    trade_state_seeds(
        a.wallet@,
        a.auction_house.key@,
        a.token_account.key@,
        a.auction_house.treasury_mint@,
        a.token_account.mint@,
        price,
        token_size,
    ).push(seq![bump])
}

/// The accounts after a listing: the trade state's data replaced, all else kept.
pub open spec fn with_trade_state_data(a: Sell, data: Vec<u8>) -> Sell {
    Sell { seller_trade_state: TradeState { key: a.seller_trade_state.key, data }, ..a }
}

/// What the shared listing logic does to the accounts and returns.
pub open spec fn sell_logic_effect(
    pre: Sell,
    post: Sell,
    remaining: Seq<Address>,
    checks: AccountChecks,
    trade_state_bump: u8,
    price: u64,
    token_size: u64,
    r: Result<SellOutcome, SellError>,
) -> bool {
    match r {
        Ok(out) => {
            &&& sell_decision(pre, remaining, checks, price, token_size) == Ok::<
                (FeePayer, CustodyDelegation),
                SellError,
            >((out.fee_payer, out.delegation))
            &&& out.fee_payer_seeds.deep_view() == fee_payer_signer_seeds(
                out.fee_payer,
                pre.auction_house,
            )
            &&& out.allocate_trade_state == (pre.seller_trade_state.data@.len() == 0)
            &&& out.trade_state_seeds.deep_view() == creation_seeds(
                pre,
                price,
                token_size,
                trade_state_bump,
            )
            &&& post == with_trade_state_data(pre, post.seller_trade_state.data)
            &&& post.seller_trade_state.data@ == materialized(
                pre.seller_trade_state.data@,
                trade_state_bump,
            )
        },
        Err(e) => {
            &&& sell_decision(pre, remaining, checks, price, token_size) == Err::<
                (FeePayer, CustodyDelegation),
                SellError,
            >(e)
            &&& post == pre
        },
    }
}

/// The logic shared by both listing paths: the signer policy, the fee payer,
/// the account checks, the amount, the custody delegation, and last the trade
/// state, which is written only when every check has passed.
pub fn sell_logic(
    accounts: &mut Sell,
    remaining_accounts: &Vec<Address>,
    checks: &AccountChecks,
    trade_state_bump: u8,
    buyer_price: u64,
    token_size: u64,
) -> (r: Result<SellOutcome, SellError>)
    ensures
        sell_logic_effect(
            *old(accounts),
            *final(accounts),
            remaining_accounts@,
            *checks,
            trade_state_bump,
            buyer_price,
            token_size,
            r,
        ),
{
    if !check_sale_authorized(
        accounts.wallet_is_signer,
        buyer_price,
        accounts.free_seller_trade_state.data.len() == 0,
        accounts.authority_is_signer,
        accounts.auction_house.can_change_sale_price,
    ) {
        return Err(SellError::SaleRequiresSigner);
    }
    let fee_payer = match get_fee_payer(
        accounts.authority_is_signer,
        accounts.wallet_is_signer,
        accounts.auction_house.requires_sign_off,
    ) {
        Ok(p) => p,
        Err(e) => {
            return Err(e);
        },
    };
    if !checks.holding_account_valid || !accounts.token_account.owner.equals(&accounts.wallet) {
        return Err(SellError::InvalidHoldingAccount);
    }
    if !checks.metadata_valid {
        return Err(SellError::InvalidMetadata);
    }
    if token_size > accounts.token_account.amount {
        return Err(SellError::InvalidTokenAmount);
    }
    let delegation = match select_custody_delegation(
        accounts.wallet_is_signer,
        remaining_accounts,
        &accounts.program_as_signer,
        token_size,
    ) {
        Ok(d) => d,
        Err(e) => {
            return Err(e);
        },
    };
    let fee_payer_seeds = fee_payer_seed_vec(fee_payer, &accounts.auction_house);
    let mut trade_state_seeds = trade_state_seed_vec(
        &accounts.wallet,
        &accounts.auction_house.key,
        &accounts.token_account.key,
        &accounts.auction_house.treasury_mint,
        &accounts.token_account.mint,
        buyer_price,
        token_size,
    );
    proof {
        lemma_seed_vec_view(&trade_state_seeds);
        assert(trade_state_seeds@.len() == 8);
    }
    let mut bump: Vec<u8> = Vec::new();
    bump.push(trade_state_bump);
    assert(bump@ =~= seq![trade_state_bump]);
    trade_state_seeds.push(bump);
    proof {
        lemma_seed_vec_view(&trade_state_seeds);
        assert(trade_state_seeds.deep_view() =~= creation_seeds(
            *old(accounts),
            buyer_price,
            token_size,
            trade_state_bump,
        ));
    }
    let allocate_trade_state = materialize_trade_state(
        &mut accounts.seller_trade_state.data,
        trade_state_bump,
    );
    Ok(SellOutcome {
        fee_payer,
        fee_payer_seeds,
        delegation,
        allocate_trade_state,
        trade_state_seeds,
    })
}

/// The check of one derived account: no canonical bump, an address other than
/// the derived one, or a bump other than the canonical one each fail.
pub open spec fn derivation_error(
    derived: Option<(Seq<u8>, u8)>,
    key: Seq<u8>,
    bump: u8,
) -> Option<SellError> {
    match derived {
        None => Some(SellError::BumpSeedNotInHashMap),
        Some((address, canonical)) => {
            if address != key {
                Some(SellError::ConstraintSeeds)
            } else if canonical != bump {
                Some(SellError::BumpSeedNotInHashMap)
            } else {
                None
            }
        },
    }
}

/// Checks an account and the caller's bump against a derivation.
pub fn check_derived_account(derived: Option<(Address, u8)>, key: &Address, bump: u8) -> (r:
    Option<SellError>)
    ensures
        r == derivation_error(derived_view(derived), key@, bump),
{
    match derived {
        None => Some(SellError::BumpSeedNotInHashMap),
        Some((address, canonical)) => {
            if !address.equals(key) {
                Some(SellError::ConstraintSeeds)
            } else if canonical != bump {
                Some(SellError::BumpSeedNotInHashMap)
            } else {
                None
            }
        },
    }
}

/// The derivation of a listing's trade state at the given price.
pub open spec fn trade_state_derivation(
    a: Sell,
    price: u64,
    token_size: u64,
    program_id: Seq<u8>,
) -> Option<(Seq<u8>, u8)> {
    program_address(
        trade_state_seeds(
            a.wallet@,
            a.auction_house.key@,
            a.token_account.key@,
            a.auction_house.treasury_mint@,
            a.token_account.mint@,
            price,
            token_size,
        ),
        program_id,
    )
}

/// The first failing check of the three derived accounts: the trade state, the
/// free trade state and the program signer. A wrong bump gives the same error
/// for all three.
pub open spec fn bumps_error(
    a: Sell,
    program_id: Seq<u8>,
    trade_state_bump: u8,
    free_trade_state_bump: u8,
    program_as_signer_bump: u8,
    price: u64,
    token_size: u64,
) -> Option<SellError> {
    let ts = derivation_error(
        trade_state_derivation(a, price, token_size, program_id),
        a.seller_trade_state.key@,
        trade_state_bump,
    );
    let free = derivation_error(
        trade_state_derivation(a, 0, token_size, program_id),
        a.free_seller_trade_state.key@,
        free_trade_state_bump,
    );
    let signer = derivation_error(
        program_address(program_as_signer_seeds(), program_id),
        a.program_as_signer@,
        program_as_signer_bump,
    );
    if ts is Some {
        ts
    } else if free is Some {
        free
    } else {
        signer
    }
}

/// Checks the three derived accounts and the bumps that the caller gave.
pub fn check_bumps(
    a: &Sell,
    program_id: &Address,
    trade_state_bump: u8,
    free_trade_state_bump: u8,
    program_as_signer_bump: u8,
    price: u64,
    token_size: u64,
) -> (r: Option<SellError>)
    ensures
        r == bumps_error(
            *a,
            program_id@,
            trade_state_bump,
            free_trade_state_bump,
            program_as_signer_bump,
            price,
            token_size,
        ),
{
    let ts = find_trade_state_address(
        &a.wallet,
        &a.auction_house.key,
        &a.token_account.key,
        &a.auction_house.treasury_mint,
        &a.token_account.mint,
        price,
        token_size,
        program_id,
    );
    let e = check_derived_account(ts, &a.seller_trade_state.key, trade_state_bump);
    if e.is_some() {
        return e;
    }
    let free = find_trade_state_address(
        &a.wallet,
        &a.auction_house.key,
        &a.token_account.key,
        &a.auction_house.treasury_mint,
        &a.token_account.mint,
        0,
        token_size,
        program_id,
    );
    let e = check_derived_account(free, &a.free_seller_trade_state.key, free_trade_state_bump);
    if e.is_some() {
        return e;
    }
    let signer = find_program_as_signer_address(program_id);
    check_derived_account(signer, &a.program_as_signer, program_as_signer_bump)
}

/// Whether the authority or the fee account differs from the auction house's.
pub open spec fn has_one_violated(a: Sell) -> bool {
    a.auction_house.authority@ != a.authority@ || a.auction_house.auction_house_fee_account@
        != a.auction_house_fee_account@
}

/// The checks of a direct listing before the shared logic: selling must not be
/// delegated, the authority and fee account must be the auction house's, and
/// the derived accounts and bumps must be canonical.
pub open spec fn sell_precheck(
    a: Sell,
    program_id: Seq<u8>,
    trade_state_bump: u8,
    free_trade_state_bump: u8,
    program_as_signer_bump: u8,
    price: u64,
    token_size: u64,
) -> Option<SellError> {
    if a.auction_house.has_auctioneer && a.auction_house.scopes@[SELL_SCOPE as int] {
        Some(SellError::MustUseAuctioneerHandler)
    } else if has_one_violated(a) {
        Some(SellError::ConstraintHasOne)
    } else {
        bumps_error(
            a,
            program_id,
            trade_state_bump,
            free_trade_state_bump,
            program_as_signer_bump,
            price,
            token_size,
        )
    }
}

/// Lists `token_size` tokens for sale at `buyer_price`, signed by the holder or,
/// for a free listing, by the auction house's authority.
pub fn sell(
    accounts: &mut Sell,
    remaining_accounts: &Vec<Address>,
    checks: &AccountChecks,
    program_id: &Address,
    trade_state_bump: u8,
    free_trade_state_bump: u8,
    program_as_signer_bump: u8,
    buyer_price: u64,
    token_size: u64,
) -> (r: Result<SellOutcome, SellError>)
    ensures
        match sell_precheck(
            *old(accounts),
            program_id@,
            trade_state_bump,
            free_trade_state_bump,
            program_as_signer_bump,
            buyer_price,
            token_size,
        ) {
            Some(e) => r == Err::<SellOutcome, SellError>(e) && *final(accounts) == *old(accounts),
            None => sell_logic_effect(
                *old(accounts),
                *final(accounts),
                remaining_accounts@,
                *checks,
                trade_state_bump,
                buyer_price,
                token_size,
                r,
            ),
        },
{
    if accounts.auction_house.has_auctioneer && accounts.auction_house.scopes[SELL_SCOPE] {
        return Err(SellError::MustUseAuctioneerHandler);
    }
    if !accounts.auction_house.authority.equals(&accounts.authority)
        || !accounts.auction_house.auction_house_fee_account.equals(
        &accounts.auction_house_fee_account,
    ) {
        return Err(SellError::ConstraintHasOne);
    }
    match check_bumps(
        accounts,
        program_id,
        trade_state_bump,
        free_trade_state_bump,
        program_as_signer_bump,
        buyer_price,
        token_size,
    ) {
        Some(e) => Err(e),
        None => sell_logic(
            accounts,
            remaining_accounts,
            checks,
            trade_state_bump,
            buyer_price,
            token_size,
        ),
    }
}

/// The scope check of a delegated listing: the record must belong to this
/// authority and this auction house, and must grant listing for sale.
pub open spec fn scope_result(house: AuctionHouse, authority: Address, record: Auctioneer) -> Result<
    (),
    SellError,
> {
    if record.auctioneer_authority@ != authority@ || record.auction_house@ != house.key@ {
        Err(SellError::InvalidAuctioneer)
    } else if !record.scopes@[SELL_SCOPE as int] {
        Err(SellError::MissingAuctioneerScope)
    } else {
        Ok(())
    }
}

/// Checks that a scoped delegation record lets `authority` list for sale on
/// this auction house.
pub fn assert_valid_auctioneer_and_scope(
    house: &AuctionHouse,
    authority: &Address,
    record: &Auctioneer,
) -> (r: Result<(), SellError>)
    ensures
        r == scope_result(*house, *authority, *record),
{
    if !record.auctioneer_authority.equals(authority) || !record.auction_house.equals(&house.key) {
        return Err(SellError::InvalidAuctioneer);
    }
    if !record.scopes[SELL_SCOPE] {
        return Err(SellError::MissingAuctioneerScope);
    }
    Ok(())
}

/// The price that stands in the trade state of a delegated listing: the
/// largest price, meaning that the auctioneer sets the price.
pub const AUCTIONEER_PRICE: u64 = 0xffff_ffff_ffff_ffff;

/// The checks of a delegated listing before the shared logic: the auction house
/// has an auctioneer, the delegated authority signed and holds the scope, and
/// the accounts and bumps are checked as for a direct listing at the pinned
/// price.
pub open spec fn auctioneer_precheck(
    a: AuctioneerSell,
    program_id: Seq<u8>,
    trade_state_bump: u8,
    free_trade_state_bump: u8,
    program_as_signer_bump: u8,
    token_size: u64,
) -> Option<SellError> {
    if !a.auction_house.has_auctioneer {
        Some(SellError::NoAuctioneerProgramSet)
    } else if !a.auctioneer_authority_is_signer {
        Some(SellError::AccountNotSigner)
    } else if let Err(e) = scope_result(a.auction_house, a.auctioneer_authority, a.ah_auctioneer_pda) {
        Some(e)
    } else if has_one_violated(sell_of(a)) {
        Some(SellError::ConstraintHasOne)
    } else {
        bumps_error(
            sell_of(a),
            program_id,
            trade_state_bump,
            free_trade_state_bump,
            program_as_signer_bump,
            AUCTIONEER_PRICE,
            token_size,
        )
    }
}

/// Lists `token_size` tokens for sale on behalf of a delegated authority, at the
/// pinned price that leaves the price to the auctioneer.
pub fn auctioneer_sell(
    accounts: &mut AuctioneerSell,
    remaining_accounts: &Vec<Address>,
    checks: &AccountChecks,
    program_id: &Address,
    trade_state_bump: u8,
    free_trade_state_bump: u8,
    program_as_signer_bump: u8,
    token_size: u64,
) -> (r: Result<SellOutcome, SellError>)
    ensures
        match auctioneer_precheck(
            *old(accounts),
            program_id@,
            trade_state_bump,
            free_trade_state_bump,
            program_as_signer_bump,
            token_size,
        ) {
            Some(e) => r == Err::<SellOutcome, SellError>(e) && *final(accounts) == *old(accounts),
            None => {
                &&& sell_logic_effect(
                    sell_of(*old(accounts)),
                    sell_of(*final(accounts)),
                    remaining_accounts@,
                    *checks,
                    trade_state_bump,
                    AUCTIONEER_PRICE,
                    token_size,
                    r,
                )
                &&& final(accounts).auctioneer_authority == old(accounts).auctioneer_authority
                &&& final(accounts).auctioneer_authority_is_signer == old(
                    accounts,
                ).auctioneer_authority_is_signer
                &&& final(accounts).ah_auctioneer_pda == old(accounts).ah_auctioneer_pda
            },
        },
{
    if !accounts.auction_house.has_auctioneer {
        return Err(SellError::NoAuctioneerProgramSet);
    }
    if !accounts.auctioneer_authority_is_signer {
        return Err(SellError::AccountNotSigner);
    }
    if let Err(e) = assert_valid_auctioneer_and_scope(
        &accounts.auction_house,
        &accounts.auctioneer_authority,
        &accounts.ah_auctioneer_pda,
    ) {
        return Err(e);
    }
    let mut seller_data: Vec<u8> = Vec::new();
    core::mem::swap(&mut seller_data, &mut accounts.seller_trade_state.data);
    let mut free_data: Vec<u8> = Vec::new();
    core::mem::swap(&mut free_data, &mut accounts.free_seller_trade_state.data);
    let mut sell_accounts = Sell {
        wallet: accounts.wallet,
        wallet_is_signer: accounts.wallet_is_signer,
        token_account: accounts.token_account,
        metadata: accounts.metadata,
        authority: accounts.authority,
        authority_is_signer: accounts.authority_is_signer,
        auction_house: accounts.auction_house,
        auction_house_fee_account: accounts.auction_house_fee_account,
        seller_trade_state: TradeState { key: accounts.seller_trade_state.key, data: seller_data },
        free_seller_trade_state: TradeState {
            key: accounts.free_seller_trade_state.key,
            data: free_data,
        },
        token_program: accounts.token_program,
        system_program: accounts.system_program,
        program_as_signer: accounts.program_as_signer,
    };
    assert(sell_accounts == sell_of(*old(accounts)));
    let r: Result<SellOutcome, SellError>;
    if !sell_accounts.auction_house.authority.equals(&sell_accounts.authority)
        || !sell_accounts.auction_house.auction_house_fee_account.equals(
        &sell_accounts.auction_house_fee_account,
    ) {
        r = Err(SellError::ConstraintHasOne);
    } else {
        match check_bumps(
            &sell_accounts,
            program_id,
            trade_state_bump,
            free_trade_state_bump,
            program_as_signer_bump,
            AUCTIONEER_PRICE,
            token_size,
        ) {
            Some(e) => {
                r = Err(e);
            },
            None => {
                r = sell_logic(
                    &mut sell_accounts,
                    remaining_accounts,
                    checks,
                    trade_state_bump,
                    AUCTIONEER_PRICE,
                    token_size,
                );
            },
        }
    }
    core::mem::swap(&mut sell_accounts.seller_trade_state.data, &mut accounts.seller_trade_state.data);
    core::mem::swap(
        &mut sell_accounts.free_seller_trade_state.data,
        &mut accounts.free_seller_trade_state.data,
    );
    r
}

} // verus!
