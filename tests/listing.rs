use auction_house_sell::accounts::{
    AccountChecks, AuctionHouse, Auctioneer, AuctioneerSell, Sell, TokenAccount, TradeState,
    SELL_SCOPE,
};
use auction_house_sell::address::{
    find_program_as_signer_address, find_trade_state_address, program_as_signer_seed_vec,
    trade_state_seed_vec, u64_le_bytes, Address,
};
use auction_house_sell::custody::{materialize_trade_state, select_custody_delegation, CustodyDelegation};
use auction_house_sell::error::SellError;
use auction_house_sell::sell::{
    assert_valid_auctioneer_and_scope, auctioneer_sell, check_sale_authorized, fee_payer_seed_vec,
    get_fee_payer, sell, sell_logic, FeePayer, AUCTIONEER_PRICE,
};

fn key(n: u8) -> Address {
    Address { bytes: [n; 32] }
}

fn program_id() -> Address {
    key(200)
}

fn metadata_program() -> Address {
    Address { bytes: mpl_token_metadata::ID.to_bytes() }
}

fn house() -> AuctionHouse {
    AuctionHouse {
        key: key(1),
        creator: key(2),
        treasury_mint: key(3),
        authority: key(4),
        auction_house_fee_account: key(5),
        fee_payer_bump: 254,
        requires_sign_off: false,
        can_change_sale_price: false,
        has_auctioneer: false,
        scopes: [false; 7],
    }
}

fn token(amount: u64) -> TokenAccount {
    TokenAccount { key: key(10), mint: key(11), owner: key(12), amount }
}

fn ok_checks() -> AccountChecks {
    AccountChecks { holding_account_valid: true, metadata_valid: true }
}

struct Bumps {
    trade_state: u8,
    free_trade_state: u8,
    program_as_signer: u8,
}

/// A direct listing whose derived accounts are the canonical ones.
fn listing(price: u64, size: u64, amount: u64) -> (Sell, Bumps) {
    let h = house();
    let t = token(amount);
    let wallet = key(12);
    let (ts, ts_bump) = find_trade_state_address(
        &wallet, &h.key, &t.key, &h.treasury_mint, &t.mint, price, size, &program_id(),
    )
    .unwrap();
    let (free, free_bump) = find_trade_state_address(
        &wallet, &h.key, &t.key, &h.treasury_mint, &t.mint, 0, size, &program_id(),
    )
    .unwrap();
    let (signer, signer_bump) = find_program_as_signer_address(&program_id()).unwrap();
    let s = Sell {
        wallet,
        wallet_is_signer: true,
        token_account: t,
        metadata: key(13),
        authority: h.authority,
        authority_is_signer: false,
        auction_house: h,
        auction_house_fee_account: h.auction_house_fee_account,
        seller_trade_state: TradeState { key: ts, data: Vec::new() },
        free_seller_trade_state: TradeState { key: free, data: Vec::new() },
        token_program: key(20),
        system_program: key(21),
        program_as_signer: signer,
    };
    (s, Bumps { trade_state: ts_bump, free_trade_state: free_bump, program_as_signer: signer_bump })
}

fn run_sell(s: &mut Sell, b: &Bumps, remaining: &Vec<Address>, price: u64, size: u64)
    -> Result<auction_house_sell::sell::SellOutcome, SellError> {
    sell(
        s,
        remaining,
        &ok_checks(),
        &program_id(),
        b.trade_state,
        b.free_trade_state,
        b.program_as_signer,
        price,
        size,
    )
}

fn auctioneer_listing(size: u64) -> (AuctioneerSell, Bumps) {
    let mut h = house();
    h.has_auctioneer = true;
    h.scopes[SELL_SCOPE] = true;
    let t = token(1);
    let wallet = key(12);
    let (ts, ts_bump) = find_trade_state_address(
        &wallet, &h.key, &t.key, &h.treasury_mint, &t.mint, u64::MAX, size, &program_id(),
    )
    .unwrap();
    let (free, free_bump) = find_trade_state_address(
        &wallet, &h.key, &t.key, &h.treasury_mint, &t.mint, 0, size, &program_id(),
    )
    .unwrap();
    let (signer, signer_bump) = find_program_as_signer_address(&program_id()).unwrap();
    let mut scopes = [false; 7];
    scopes[SELL_SCOPE] = true;
    let a = AuctioneerSell {
        wallet,
        wallet_is_signer: true,
        token_account: t,
        metadata: key(13),
        authority: h.authority,
        authority_is_signer: false,
        auctioneer_authority: key(30),
        auctioneer_authority_is_signer: true,
        auction_house: h,
        auction_house_fee_account: h.auction_house_fee_account,
        seller_trade_state: TradeState { key: ts, data: Vec::new() },
        free_seller_trade_state: TradeState { key: free, data: Vec::new() },
        ah_auctioneer_pda: Auctioneer { auctioneer_authority: key(30), auction_house: h.key, scopes },
        program_as_signer: signer,
        token_program: key(20),
        system_program: key(21),
    };
    (a, Bumps { trade_state: ts_bump, free_trade_state: free_bump, program_as_signer: signer_bump })
}

fn run_auctioneer(a: &mut AuctioneerSell, b: &Bumps, size: u64) -> Result<auction_house_sell::sell::SellOutcome, SellError> {
    auctioneer_sell(
        a,
        &Vec::new(),
        &ok_checks(),
        &program_id(),
        b.trade_state,
        b.free_trade_state,
        b.program_as_signer,
        size,
    )
}

fn solana_derivation(seeds: &Vec<Vec<u8>>) -> (Address, u8) {
    let slices: Vec<&[u8]> = seeds.iter().map(|s| s.as_slice()).collect();
    let program = anchor_lang::prelude::Pubkey::new_from_array(program_id().bytes);
    let (k, b) = anchor_lang::prelude::Pubkey::find_program_address(&slices, &program);
    (Address { bytes: k.to_bytes() }, b)
}

#[test]
fn holder_listing_approves_through_token_program() {
    let (mut s, b) = listing(100, 1, 1);
    let r = run_sell(&mut s, &b, &Vec::new(), 100, 1).unwrap();
    match r.delegation {
        CustodyDelegation::TokenApprove { delegate, amount } => {
            assert!(delegate.equals(&s.program_as_signer));
            assert_eq!(amount, 1);
        }
        _ => panic!("expected a token approval"),
    }
    assert!(r.allocate_trade_state);
    assert_eq!(s.seller_trade_state.data, vec![b.trade_state]);
    assert_eq!(r.fee_payer, FeePayer::Wallet);
    assert!(r.fee_payer_seeds.is_empty());
    assert_eq!(r.trade_state_seeds.len(), 9);
    assert_eq!(r.trade_state_seeds[8], vec![b.trade_state]);
    assert_eq!(r.trade_state_seeds[6], 100u64.to_le_bytes().to_vec());
}

#[test]
fn restricted_asset_delegates_through_metadata_program() {
    let (mut s, b) = listing(100, 1, 1);
    let mut remaining = vec![metadata_program()];
    for n in 40..47u8 {
        remaining.push(key(n));
    }
    let r = run_sell(&mut s, &b, &remaining, 100, 1).unwrap();
    match r.delegation {
        CustodyDelegation::MetadataDelegate { accounts, delegate, amount } => {
            assert!(accounts.metadata_program.equals(&metadata_program()));
            assert!(accounts.delegate_record.equals(&key(40)));
            assert!(accounts.sysvar_instructions.equals(&key(46)));
            assert!(delegate.equals(&s.program_as_signer));
            assert_eq!(amount, 1);
        }
        _ => panic!("expected a metadata delegation"),
    }
    assert!(r.allocate_trade_state);
    assert_eq!(s.seller_trade_state.data, vec![b.trade_state]);
}

#[test]
fn relisting_same_terms_rewrites_without_allocating() {
    let (mut s, b) = listing(100, 1, 1);
    let first = run_sell(&mut s, &b, &Vec::new(), 100, 1).unwrap();
    assert!(first.allocate_trade_state);
    s.seller_trade_state.data[0] = 0;
    let second = run_sell(&mut s, &b, &Vec::new(), 100, 1).unwrap();
    assert!(!second.allocate_trade_state);
    assert_eq!(s.seller_trade_state.data, vec![b.trade_state]);
    assert_eq!(s.token_account.amount, 1);
}

#[test]
fn oversized_listing_fails() {
    for price in [0u64, 5, u64::MAX] {
        let (mut s, b) = listing(price, 2, 1);
        assert_eq!(run_sell(&mut s, &b, &Vec::new(), price, 2).unwrap_err(), SellError::InvalidTokenAmount);
        assert!(s.seller_trade_state.data.is_empty());
    }
}

#[test]
fn free_listing_by_authority() {
    let (mut s, b) = listing(0, 1, 1);
    s.wallet_is_signer = false;
    s.authority_is_signer = true;
    s.auction_house.can_change_sale_price = true;
    let r = run_sell(&mut s, &b, &Vec::new(), 0, 1).unwrap();
    assert!(matches!(r.delegation, CustodyDelegation::Unchanged));
    assert_eq!(r.fee_payer, FeePayer::AuctionHouseFeeAccount);
    assert_eq!(r.fee_payer_seeds.len(), 4);
    assert_eq!(r.fee_payer_seeds[3], vec![254u8]);
    assert_eq!(s.seller_trade_state.data, vec![b.trade_state]);
}

#[test]
fn listing_without_holder_requires_signer() {
    let cases = [
        (false, true, true),
        (true, false, true),
        (true, true, false),
    ];
    for (free_empty, authority_signs, can_change) in cases {
        let (mut s, b) = listing(0, 1, 1);
        s.wallet_is_signer = false;
        s.authority_is_signer = authority_signs;
        s.auction_house.can_change_sale_price = can_change;
        if !free_empty {
            s.free_seller_trade_state.data = vec![b.free_trade_state];
        }
        assert_eq!(run_sell(&mut s, &b, &Vec::new(), 0, 1).unwrap_err(), SellError::SaleRequiresSigner);
    }
    let (mut s, b) = listing(5, 1, 1);
    s.wallet_is_signer = false;
    s.authority_is_signer = true;
    s.auction_house.can_change_sale_price = true;
    assert_eq!(run_sell(&mut s, &b, &Vec::new(), 5, 1).unwrap_err(), SellError::SaleRequiresSigner);
}

#[test]
fn signer_policy_table() {
    assert!(check_sale_authorized(true, 7, false, false, false));
    assert!(check_sale_authorized(false, 0, true, true, true));
    assert!(!check_sale_authorized(false, 1, true, true, true));
    assert!(!check_sale_authorized(false, 0, false, true, true));
}

#[test]
fn direct_path_refused_when_selling_is_delegated() {
    let (mut s, b) = listing(100, 1, 1);
    s.auction_house.has_auctioneer = true;
    s.auction_house.scopes[SELL_SCOPE] = true;
    assert_eq!(run_sell(&mut s, &b, &Vec::new(), 100, 1).unwrap_err(), SellError::MustUseAuctioneerHandler);
    s.auction_house.scopes[SELL_SCOPE] = false;
    assert!(run_sell(&mut s, &b, &Vec::new(), 100, 1).is_ok());
}

#[test]
fn wrong_bumps_are_refused() {
    let (mut s, b) = listing(100, 1, 1);
    let wrong = Bumps { trade_state: b.trade_state.wrapping_sub(1), ..b };
    assert_eq!(run_sell(&mut s, &wrong, &Vec::new(), 100, 1).unwrap_err(), SellError::BumpSeedNotInHashMap);
    let (mut s, b) = listing(100, 1, 1);
    let wrong = Bumps { free_trade_state: b.free_trade_state.wrapping_sub(1), ..b };
    assert_eq!(run_sell(&mut s, &wrong, &Vec::new(), 100, 1).unwrap_err(), SellError::BumpSeedNotInHashMap);
    let (mut s, b) = listing(100, 1, 1);
    let wrong = Bumps { program_as_signer: b.program_as_signer.wrapping_sub(1), ..b };
    assert_eq!(run_sell(&mut s, &wrong, &Vec::new(), 100, 1).unwrap_err(), SellError::BumpSeedNotInHashMap);
    assert!(s.seller_trade_state.data.is_empty());
}

#[test]
fn trade_state_of_other_terms_is_refused() {
    let (mut s, b) = listing(100, 1, 1);
    assert_eq!(run_sell(&mut s, &b, &Vec::new(), 101, 1).unwrap_err(), SellError::ConstraintSeeds);
}

#[test]
fn foreign_authority_is_refused() {
    let (mut s, b) = listing(100, 1, 1);
    s.authority = key(99);
    assert_eq!(run_sell(&mut s, &b, &Vec::new(), 100, 1).unwrap_err(), SellError::ConstraintHasOne);
}

#[test]
fn extra_accounts_must_start_with_metadata_program() {
    let (mut s, b) = listing(100, 1, 1);
    let remaining = vec![key(40); 8];
    assert_eq!(run_sell(&mut s, &b, &remaining, 100, 1).unwrap_err(), SellError::PublicKeyMismatch);
    let remaining = vec![metadata_program(), key(40)];
    assert_eq!(run_sell(&mut s, &b, &remaining, 100, 1).unwrap_err(), SellError::NotEnoughAccountKeys);
    assert!(s.seller_trade_state.data.is_empty());
}

#[test]
fn collaborator_checks_are_enforced() {
    let (mut s, b) = listing(100, 1, 1);
    let bad = AccountChecks { holding_account_valid: false, metadata_valid: true };
    let r = sell(&mut s, &Vec::new(), &bad, &program_id(), b.trade_state, b.free_trade_state, b.program_as_signer, 100, 1);
    assert_eq!(r.unwrap_err(), SellError::InvalidHoldingAccount);
    let bad = AccountChecks { holding_account_valid: true, metadata_valid: false };
    let r = sell(&mut s, &Vec::new(), &bad, &program_id(), b.trade_state, b.free_trade_state, b.program_as_signer, 100, 1);
    assert_eq!(r.unwrap_err(), SellError::InvalidMetadata);
}

#[test]
fn sign_off_required_when_only_holder_signs() {
    let (mut s, b) = listing(100, 1, 1);
    s.auction_house.requires_sign_off = true;
    assert_eq!(
        run_sell(&mut s, &b, &Vec::new(), 100, 1).unwrap_err(),
        SellError::CannotTakeThisActionWithoutAuctionHouseSignOff
    );
}

#[test]
fn fee_payer_resolution() {
    assert_eq!(get_fee_payer(true, false, true), Ok(FeePayer::AuctionHouseFeeAccount));
    assert_eq!(get_fee_payer(false, true, false), Ok(FeePayer::Wallet));
    assert_eq!(get_fee_payer(false, false, false), Err(SellError::NoPayerPresent));
    let seeds = fee_payer_seed_vec(FeePayer::AuctionHouseFeeAccount, &house());
    assert_eq!(seeds[0], b"auction_house".to_vec());
    assert_eq!(seeds[1], vec![1u8; 32]);
    assert_eq!(seeds[2], b"fee_payer".to_vec());
    assert_eq!(seeds[3], vec![254u8]);
}

#[test]
fn delegated_listing_pins_price() {
    let (mut a, b) = auctioneer_listing(1);
    let r = run_auctioneer(&mut a, &b, 1).unwrap();
    assert!(r.allocate_trade_state);
    assert_eq!(a.seller_trade_state.data, vec![b.trade_state]);
    assert_eq!(r.trade_state_seeds[6], AUCTIONEER_PRICE.to_le_bytes().to_vec());
    assert!(matches!(r.delegation, CustodyDelegation::TokenApprove { amount: 1, .. }));
}

#[test]
fn delegated_listing_needs_auctioneer() {
    let (mut a, b) = auctioneer_listing(1);
    a.auction_house.has_auctioneer = false;
    assert_eq!(run_auctioneer(&mut a, &b, 1).unwrap_err(), SellError::NoAuctioneerProgramSet);
    assert!(a.seller_trade_state.data.is_empty());
}

#[test]
fn delegated_listing_needs_scope() {
    let (mut a, b) = auctioneer_listing(1);
    a.ah_auctioneer_pda.scopes[SELL_SCOPE] = false;
    assert_eq!(run_auctioneer(&mut a, &b, 1).unwrap_err(), SellError::MissingAuctioneerScope);
}

#[test]
fn delegated_listing_needs_matching_record_and_signer() {
    let (mut a, b) = auctioneer_listing(1);
    a.ah_auctioneer_pda.auctioneer_authority = key(31);
    assert_eq!(run_auctioneer(&mut a, &b, 1).unwrap_err(), SellError::InvalidAuctioneer);
    let (mut a, b) = auctioneer_listing(1);
    a.auctioneer_authority_is_signer = false;
    assert_eq!(run_auctioneer(&mut a, &b, 1).unwrap_err(), SellError::AccountNotSigner);
    let (a, _) = auctioneer_listing(1);
    let mut record = a.ah_auctioneer_pda;
    record.auction_house = key(77);
    assert_eq!(
        assert_valid_auctioneer_and_scope(&a.auction_house, &a.auctioneer_authority, &record),
        Err(SellError::InvalidAuctioneer)
    );
}

#[test]
fn delegated_accounts_convert_to_direct_ones() {
    let (a, _) = auctioneer_listing(1);
    let s: Sell = a.clone().into();
    assert!(s.wallet.equals(&a.wallet));
    assert!(s.seller_trade_state.key.equals(&a.seller_trade_state.key));
    assert!(s.program_as_signer.equals(&a.program_as_signer));
}

#[test]
fn derivation_matches_runtime_and_is_deterministic() {
    let w = key(12);
    let h = house();
    let t = token(1);
    let seeds = trade_state_seed_vec(&w, &h.key, &t.key, &h.treasury_mint, &t.mint, 100, 1);
    let (addr, bump) = solana_derivation(&seeds);
    let first = find_trade_state_address(&w, &h.key, &t.key, &h.treasury_mint, &t.mint, 100, 1, &program_id()).unwrap();
    let second = find_trade_state_address(&w, &h.key, &t.key, &h.treasury_mint, &t.mint, 100, 1, &program_id()).unwrap();
    assert_eq!(first.0.bytes, addr.bytes);
    assert_eq!(first.1, bump);
    assert_eq!(second.0.bytes, first.0.bytes);
    assert_eq!(second.1, first.1);
    let other = find_trade_state_address(&w, &h.key, &t.key, &h.treasury_mint, &t.mint, 101, 1, &program_id()).unwrap();
    assert_ne!(other.0.bytes, first.0.bytes);
    let (signer, signer_bump) = find_program_as_signer_address(&program_id()).unwrap();
    let (expected, expected_bump) = solana_derivation(&program_as_signer_seed_vec());
    assert_eq!(signer.bytes, expected.bytes);
    assert_eq!(signer_bump, expected_bump);
}

#[test]
fn seeds_and_encodings() {
    assert_eq!(u64_le_bytes(0x0102030405060708), vec![8, 7, 6, 5, 4, 3, 2, 1]);
    assert_eq!(u64_le_bytes(u64::MAX), vec![255u8; 8]);
    assert_eq!(program_as_signer_seed_vec(), vec![b"auction_house".to_vec(), b"signer".to_vec()]);
    let seeds = trade_state_seed_vec(&key(1), &key(2), &key(3), &key(4), &key(5), 0, 3);
    assert_eq!(seeds.len(), 8);
    assert_eq!(seeds[1], vec![1u8; 32]);
    assert_eq!(seeds[6], vec![0u8; 8]);
    assert_eq!(seeds[7], vec![3, 0, 0, 0, 0, 0, 0, 0]);
    assert!(key(1).equals(&key(1)));
    assert!(!key(1).equals(&key(2)));
    assert_eq!(key(9).to_vec(), vec![9u8; 32]);
}

#[test]
fn trade_state_materialization() {
    let mut data: Vec<u8> = Vec::new();
    assert!(materialize_trade_state(&mut data, 251));
    assert_eq!(data, vec![251]);
    assert!(!materialize_trade_state(&mut data, 250));
    assert_eq!(data, vec![250]);
}

#[test]
fn custody_selection_without_holder_signature() {
    let r = select_custody_delegation(false, &vec![key(40)], &key(41), 3).unwrap();
    assert!(matches!(r, CustodyDelegation::Unchanged));
    let (mut s, _) = listing(0, 1, 1);
    s.wallet_is_signer = false;
    s.authority_is_signer = true;
    s.auction_house.can_change_sale_price = true;
    let r = sell_logic(&mut s, &Vec::new(), &ok_checks(), 9, 0, 1).unwrap();
    assert!(matches!(r.delegation, CustodyDelegation::Unchanged));
    assert_eq!(s.seller_trade_state.data, vec![9]);
}

#[test]
fn holding_account_of_another_owner_is_refused() {
    let (mut s, b) = listing(100, 1, 1);
    s.token_account.owner = key(50);
    assert_eq!(run_sell(&mut s, &b, &Vec::new(), 100, 1).unwrap_err(), SellError::InvalidHoldingAccount);
}
