//! Transaction fee descriptors and their wire-message encoding.

pub mod account_id;
pub mod coin;
pub mod decimal;
pub mod error;
pub mod fee;
pub mod gas;
pub mod proto;

pub use account_id::AccountId;
pub use coin::{Coin, Denom};
pub use error::Error;
pub use fee::Fee;
pub use gas::Gas;
