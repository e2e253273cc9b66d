//! Creation of sell orders for an auction house: address derivation, the
//! signer policy, scoped delegation, the choice of custody delegation and the
//! trade-state record.
pub mod address;
pub mod accounts;
pub mod error;
pub mod custody;
pub mod sell;
pub mod lemmas;
