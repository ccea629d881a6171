//! A registry of unique assets ("kitties") with genetic breeding and a
//! fixed-price marketplace, written as a state machine whose transitions are
//! specified over a mathematical view of the ledger.
pub mod currency;
pub mod error;
pub mod genome;
pub mod laws;
pub mod pallet;

pub use currency::Balances;
pub use error::Error;
pub use genome::{crossover, random_value, seed_payload, Entropy, Kitty};
pub use pallet::{AccountId, Balance, Event, KittyId, Pallet, PalletView};
pub use laws::{
    law_breed_missing_parent_rejected, law_breed_records_lineage, law_breed_same_parent_rejected,
    law_buy_rejections, law_create_ids_sequential, law_sale_twice_rejected, law_transfer_ownership,
};
