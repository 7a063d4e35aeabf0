use vstd::prelude::*;

pub mod pubkey;
pub mod instruction;
pub mod token;
pub mod sysvar;
pub mod breeding_machine;
pub mod transfer;
pub mod text;
pub mod config;
pub mod metadata;
pub mod rolls;
pub mod traits;
pub mod cli;
pub mod order;
pub mod assets;
pub mod mint;
pub mod invocations;

verus! {

} // verus!
