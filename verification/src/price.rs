//! The payment hook: a transfer is allowed when its amount lies inside a
//! tolerance band around the amount that the product price and the price of
//! the token imply. While validation is switched off, every transfer is
//! allowed.

pub mod config;
pub mod context;
pub mod error;
pub mod instruction;
pub mod laws;
pub mod state;
pub mod validation;

pub use config::{initialize_extra_account_meta_list, initialize_state, update_price_validation_config};
pub use context::{InitializeExtraAccountMetaList, InitializeState, TransferHook, UpdateConfig};
pub use error::PriceValidationError;
pub use instruction::PriceValidationInstruction;
pub use state::PriceValidationState;
pub use validation::{checked_fallback, checked_transfer_hook, fallback, transfer_hook};
