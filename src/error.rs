//! The errors with which a listing is refused.
use vstd::prelude::*;

verus! {

/// Why a sell order was not created. Every error aborts the whole listing.
#[derive(Clone, Copy, Debug, PartialEq, Eq, Structural)]
pub enum SellError {
    /// The direct path was used where the auction house delegates selling.
    MustUseAuctioneerHandler,
    /// The delegated path was used where the auction house has no auctioneer.
    NoAuctioneerProgramSet,
    /// A bump given by the caller differs from the canonical one, or none exists.
    BumpSeedNotInHashMap,
    /// The holder did not sign and the authority may not list on their behalf.
    SaleRequiresSigner,
    /// More tokens are listed than the holding account holds.
    InvalidTokenAmount,
    /// The first extra account is not the token metadata program.
    PublicKeyMismatch,
    /// An account's address is not the one derived from its seeds.
    ConstraintSeeds,
    /// The authority or the fee account is not the auction house's own.
    ConstraintHasOne,
    /// The delegated authority did not sign.
    AccountNotSigner,
    /// The scoped delegation record belongs to another authority or auction house.
    InvalidAuctioneer,
    /// The scoped delegation record does not grant listing for sale.
    MissingAuctioneerScope,
    /// Neither the authority nor the holder signed, so nobody pays for the record.
    NoPayerPresent,
    /// The auction house requires its authority to sign every listing.
    CannotTakeThisActionWithoutAuctionHouseSignOff,
    /// The extra accounts of the metadata delegation are incomplete.
    NotEnoughAccountKeys,
    /// The token account is not the holder's associated account for the mint.
    InvalidHoldingAccount,
    /// The metadata account does not describe the token's mint.
    InvalidMetadata,
}

} // verus!
