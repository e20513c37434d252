//! A verified model of the Move VM pallet: who may call it, what it hands to
//! the virtual machine, and which events it records.

pub mod dispatch;
pub mod error;
pub mod event;
pub mod gas;
pub mod origin;
pub mod tx;
pub mod pallet;
pub mod laws;
