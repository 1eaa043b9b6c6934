pub mod allocate;
pub mod deposit;
pub mod initialize;

pub use allocate::{Allocate, AllocateEffects, AllocateEvent};
pub use deposit::{Deposit, DepositEffects, DepositEvent};
pub use initialize::{Initialize, InitializeEffects, InitializeEvent};
