//! Account addresses and the seed tuples from which program addresses derive.
use vstd::prelude::*;

verus! {

/// A 32-byte account address.
#[derive(Clone, Copy, Debug)]
pub struct Address {
    pub bytes: [u8; 32],
}

impl View for Address {
    type V = Seq<u8>;

    open spec fn view(&self) -> Seq<u8> {
        self.bytes@
    }
}

impl Address {
    /// Byte-wise equality of two addresses.
    pub fn equals(&self, other: &Address) -> (r: bool)
        ensures
            r == (self@ == other@),
    {
        let mut i: usize = 0;
        while i < 32
            invariant
                0 <= i <= 32,
                self@.len() == 32,
                other@.len() == 32,
                forall|j: int| 0 <= j < i ==> self@[j] == other@[j],
            decreases 32 - i,
        {
            if self.bytes[i] != other.bytes[i] {
                return false;
            }
            i = i + 1;
        }
        assert(self@ =~= other@);
        true
    }

    /// The address as a byte vector, as a seed is given.
    pub fn to_vec(&self) -> (r: Vec<u8>)
        ensures
            r@ == self@,
    {
        let mut r: Vec<u8> = Vec::new();
        let mut i: usize = 0;
        while i < 32
            invariant
                0 <= i <= 32,
                self@.len() == 32,
                r@ == self@.subrange(0, i as int),
            decreases 32 - i,
        {
            r.push(self.bytes[i]);
            i = i + 1;
            assert(r@ =~= self@.subrange(0, i as int));
        }
        assert(r@ =~= self@);
        r
    }
}

/// The eight little-endian bytes of `x`.
pub open spec fn le_bytes(x: u64) -> Seq<u8> {
    Seq::new(8, |i: int| (x >> ((8 * i) as u64)) as u8)
}

/// Encodes `x` as eight little-endian bytes.
pub fn u64_le_bytes(x: u64) -> (r: Vec<u8>)
    ensures
        r@ == le_bytes(x),
{
    let mut r: Vec<u8> = Vec::new();
    let mut i: u64 = 0;
    while i < 8
        invariant
            0 <= i <= 8,
            r@ == Seq::new(i as nat, |k: int| (x >> ((8 * k) as u64)) as u8),
        decreases 8 - i,
    {
        r.push((x >> (8 * i)) as u8);
        i = i + 1;
        assert(r@ =~= Seq::new(i as nat, |k: int| (x >> ((8 * k) as u64)) as u8));
    }
    assert(r@ =~= le_bytes(x));
    r
}

/// The domain prefix that opens every seed tuple: the bytes of `auction_house`.
pub open spec fn prefix_seed() -> Seq<u8> {
    seq![97u8, 117u8, 99u8, 116u8, 105u8, 111u8, 110u8, 95u8, 104u8, 111u8, 117u8, 115u8, 101u8]
}

/// The tag of the program-signer account: the bytes of `signer`.
pub open spec fn signer_seed() -> Seq<u8> {
    seq![115u8, 105u8, 103u8, 110u8, 101u8, 114u8]
}

/// The tag of the fee account: the bytes of `fee_payer`.
pub open spec fn fee_payer_seed() -> Seq<u8> {
    seq![102u8, 101u8, 101u8, 95u8, 112u8, 97u8, 121u8, 101u8, 114u8]
}

/// The bytes of the domain prefix.
pub fn prefix_bytes() -> (r: Vec<u8>)
    ensures
        r@ == prefix_seed(),
{
    let r: Vec<u8> = vec![97u8, 117u8, 99u8, 116u8, 105u8, 111u8, 110u8, 95u8, 104u8, 111u8, 117u8, 115u8, 101u8];
    assert(r@ =~= prefix_seed());
    r
}

/// The bytes of the program-signer tag.
pub fn signer_bytes() -> (r: Vec<u8>)
    ensures
        r@ == signer_seed(),
{
    let r: Vec<u8> = vec![115u8, 105u8, 103u8, 110u8, 101u8, 114u8];
    assert(r@ =~= signer_seed());
    r
}

/// The bytes of the fee account tag.
pub fn fee_payer_bytes() -> (r: Vec<u8>)
    ensures
        r@ == fee_payer_seed(),
{
    let r: Vec<u8> = vec![102u8, 101u8, 101u8, 95u8, 112u8, 97u8, 121u8, 101u8, 114u8];
    assert(r@ =~= fee_payer_seed());
    r
}

/// The deep view of a list of byte seeds is the list of their views.
pub(crate) proof fn lemma_seed_vec_view(r: &Vec<Vec<u8>>)
    ensures
        r.deep_view() =~= r@.map_values(|v: Vec<u8>| v@),
{
    assert forall|k: int| 0 <= k < r@.len() implies #[trigger] r.deep_view()[k] == r@[k]@ by {
        assert(r@[k].deep_view() =~= r@[k]@);
    }
}

/// Seed tuple of a trade state: the order's terms, with price and size as
/// little-endian bytes.
pub open spec fn trade_state_seeds(
    wallet: Seq<u8>,
    auction_house: Seq<u8>,
    token_account: Seq<u8>,
    treasury_mint: Seq<u8>,
    token_mint: Seq<u8>,
    price: u64,
    token_size: u64,
) -> Seq<Seq<u8>> {
    seq![
        prefix_seed(),
        wallet,
        auction_house,
        token_account,
        treasury_mint,
        token_mint,
        le_bytes(price),
        le_bytes(token_size),
    ]
}

/// Seed tuple of the program-signer account.
pub open spec fn program_as_signer_seeds() -> Seq<Seq<u8>> {
    seq![prefix_seed(), signer_seed()]
}

/// Builds the seed tuple of a trade state.
pub fn trade_state_seed_vec(
    wallet: &Address,
    auction_house: &Address,
    token_account: &Address,
    treasury_mint: &Address,
    token_mint: &Address,
    price: u64,
    token_size: u64,
) -> (r: Vec<Vec<u8>>)
    ensures
        r.deep_view() == trade_state_seeds(
            wallet@,
            auction_house@,
            token_account@,
            treasury_mint@,
            token_mint@,
            price,
            token_size,
        ),
{
    let mut r: Vec<Vec<u8>> = Vec::new();
    r.push(prefix_bytes());
    r.push(wallet.to_vec());
    r.push(auction_house.to_vec());
    r.push(token_account.to_vec());
    r.push(treasury_mint.to_vec());
    r.push(token_mint.to_vec());
    r.push(u64_le_bytes(price));
    r.push(u64_le_bytes(token_size));
    proof {
        lemma_seed_vec_view(&r);
    }
    assert(r.deep_view() =~= trade_state_seeds(
        wallet@,
        auction_house@,
        token_account@,
        treasury_mint@,
        token_mint@,
        price,
        token_size,
    ));
    r
}

/// Builds the seed tuple of the program-signer account.
pub fn program_as_signer_seed_vec() -> (r: Vec<Vec<u8>>)
    ensures
        r.deep_view() == program_as_signer_seeds(),
{
    let mut r: Vec<Vec<u8>> = Vec::new();
    r.push(prefix_bytes());
    r.push(signer_bytes());
    proof {
        lemma_seed_vec_view(&r);
    }
    assert(r.deep_view() =~= program_as_signer_seeds());
    r
}

/// The address and bump that the derivation finds for a seed tuple under a
/// program, or `None` where no bump gives an address off the curve.
pub uninterp spec fn program_address(seeds: Seq<Seq<u8>>, program_id: Seq<u8>) -> Option<(Seq<u8>, u8)>;

/// The view of a derivation result.
pub open spec fn derived_view(r: Option<(Address, u8)>) -> Option<(Seq<u8>, u8)> {
    match r {
        Some((a, bump)) => Some((a@, bump)),
        None => None,
    }
}

/// Relies on solana_program's `Pubkey::try_find_program_address`, reached through
/// anchor_lang: the first address off the curve found for the seeds with a bump
/// appended, from bump 255 downwards, and that bump. It depends on the seeds and
/// the program id alone.
#[verifier::external_body]
fn try_find_program_address(seeds: &Vec<Vec<u8>>, program_id: &Address) -> (r: Option<(Address, u8)>)
    ensures
        derived_view(r) == program_address(seeds.deep_view(), program_id@),
{
    let slices: Vec<&[u8]> = seeds.iter().map(|s| s.as_slice()).collect();
    let program = anchor_lang::prelude::Pubkey::new_from_array(program_id.bytes);
    anchor_lang::prelude::Pubkey::try_find_program_address(&slices, &program).map(
        |(key, bump)| (Address { bytes: key.to_bytes() }, bump),
    )
}

/// Derives the canonical address and bump of the trade state for the given
/// terms.
pub fn find_trade_state_address(
    wallet: &Address,
    auction_house: &Address,
    token_account: &Address,
    treasury_mint: &Address,
    token_mint: &Address,
    price: u64,
    token_size: u64,
    program_id: &Address,
) -> (r: Option<(Address, u8)>)
    ensures
        derived_view(r) == program_address(
            trade_state_seeds(
                wallet@,
                auction_house@,
                token_account@,
                treasury_mint@,
                token_mint@,
                price,
                token_size,
            ),
            program_id@,
        ),
{
    let seeds = trade_state_seed_vec(
        wallet,
        auction_house,
        token_account,
        treasury_mint,
        token_mint,
        price,
        token_size,
    );
    try_find_program_address(&seeds, program_id)
}

/// Derives the canonical address and bump of the program-signer account.
pub fn find_program_as_signer_address(program_id: &Address) -> (r: Option<(Address, u8)>)
    ensures
        derived_view(r) == program_address(program_as_signer_seeds(), program_id@),
{
    let seeds = program_as_signer_seed_vec();
    try_find_program_address(&seeds, program_id)
}

/// Derivation is deterministic: equal seed tuples under equal programs give the
/// same address and the same bump.
pub proof fn lemma_derivation_deterministic(
    seeds1: Seq<Seq<u8>>,
    seeds2: Seq<Seq<u8>>,
    program1: Seq<u8>,
    program2: Seq<u8>,
)
    requires
        seeds1 == seeds2,
        program1 == program2,
    ensures
        program_address(seeds1, program1) == program_address(seeds2, program2),
{
}

} // verus!
