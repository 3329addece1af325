//! A permissioned-stake registry: external participants register a named
//! network node by locking a refundable deposit, and a privileged
//! administrator tunes the economic parameters and applies rewards or
//! slashes against registered participants' locked balances.
//!
//! The registry itself lives in [`pallet`]; the balance-transfer
//! collaborator it moves deposits through is modelled in [`balances`];
//! [`laws`] states and proves the properties that relate several
//! operations to one another.

pub mod balances;
pub mod laws;
pub mod pallet;
pub mod types;

pub use crate::balances::Balances;
pub use crate::pallet::Pallet;
pub use crate::pallet::PALLET_ACCOUNT;
pub use crate::types::Error;
pub use crate::types::Event;
pub use crate::types::Node;
pub use crate::types::Origin;
pub use crate::types::TransferError;
