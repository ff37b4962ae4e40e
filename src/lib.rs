//! Verified core of an NFT limit-order marketplace program: command decoding,
//! derived-address checks, the persisted record layouts, and the state
//! transitions of collection creation and order placement.
use vstd::prelude::*;

pub mod address;
pub mod instruction;
pub mod market;
pub mod records;
pub mod theorems;

verus! {

/// Why a command is refused. Every refusal aborts the whole command.
#[derive(Clone, Copy, Debug, PartialEq, Eq, Structural)]
pub enum MarketError {
    /// Unknown command tag, or a payload too short for its command.
    InvalidInstructionData,
    /// A supplied address is not the one derived for it, a record does not
    /// decode, or the NFT cannot be authenticated.
    InvalidAccountData,
    /// The slot to be reused still holds a live order.
    InvalidSeeds,
    /// The collection's slot counter is exhausted.
    ArithmeticOverflow,
}

} // verus!
