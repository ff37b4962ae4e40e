//! The command wire format: a tag byte, then the command's payload.
use crate::MarketError;
use vstd::prelude::*;

verus! {

/// A decoded command.
#[derive(Clone, Copy, Debug, PartialEq, Eq, Structural)]
pub enum Instruction {
    CreateCollection,
    CreateLimitOrder { price: u32 },
    CloseLimitOrder,
    FillLimitOrder,
}

/// The exact value of `(b1*b2 + b3 + (b4*b5 + b6)/10000) * 10^9`.
pub open spec fn price_formula(b1: u8, b2: u8, b3: u8, b4: u8, b5: u8, b6: u8) -> int {
    (b1 * b2 + b3) * 1_000_000_000 + (b4 * b5 + b6) * 100_000
}

/// The price that six payload bytes encode: the formula's value, held to
/// `u32::MAX` where it is larger.
pub open spec fn price_of(b1: u8, b2: u8, b3: u8, b4: u8, b5: u8, b6: u8) -> u32 {
    let v = price_formula(b1, b2, b3, b4, b5, b6);
    if v > u32::MAX {
        u32::MAX
    } else {
        v as u32
    }
}

/// Decodes a price from the six bytes that follow the tag of an order
/// placement.
pub fn decode_price(b1: u8, b2: u8, b3: u8, b4: u8, b5: u8, b6: u8) -> (r: u32)
    ensures
        r == price_of(b1, b2, b3, b4, b5, b6),
{
    let (x1, x2, x3, x4, x5, x6) = (b1 as u64, b2 as u64, b3 as u64, b4 as u64, b5 as u64, b6 as u64);
    assert(x1 * x2 <= 65025 && x4 * x5 <= 65025) by (nonlinear_arith)
        requires
            x1 <= 255,
            x2 <= 255,
            x4 <= 255,
            x5 <= 255,
    ;
    let whole = x1 * x2 + x3;
    let frac = x4 * x5 + x6;
    let v: u64 = whole * 1_000_000_000 + frac * 100_000;
    if v > u32::MAX as u64 {
        u32::MAX
    } else {
        v as u32
    }
}

/// The command that `data` encodes, or the error it gives.
pub open spec fn instruction_of(data: Seq<u8>) -> Result<Instruction, MarketError> {
    if data.len() == 0 {
        Err(MarketError::InvalidInstructionData)
    } else if data[0] == 0 {
        Ok(Instruction::CreateCollection)
    } else if data[0] == 1 {
        if data.len() < 7 {
            Err(MarketError::InvalidInstructionData)
        } else {
            Ok(
                Instruction::CreateLimitOrder {
                    price: price_of(data[1], data[2], data[3], data[4], data[5], data[6]),
                },
            )
        }
    } else if data[0] == 2 {
        Ok(Instruction::CloseLimitOrder)
    } else if data[0] == 3 {
        Ok(Instruction::FillLimitOrder)
    } else {
        Err(MarketError::InvalidInstructionData)
    }
}

impl Instruction {
    /// Decodes a command: tag 0 to 3, where tag 1 carries six price bytes.
    /// An empty buffer, an unknown tag or a short price payload is invalid
    /// instruction data; bytes past the payload are ignored.
    pub fn decode(data: &[u8]) -> (r: Result<Instruction, MarketError>)
        ensures
            r == instruction_of(data@),
    {
        if data.len() == 0 {
            return Err(MarketError::InvalidInstructionData);
        }
        match data[0] {
            0 => Ok(Instruction::CreateCollection),
            1 => {
                if data.len() < 7 {
                    Err(MarketError::InvalidInstructionData)
                } else {
                    let price = decode_price(data[1], data[2], data[3], data[4], data[5], data[6]);
                    Ok(Instruction::CreateLimitOrder { price })
                }
            },
            2 => Ok(Instruction::CloseLimitOrder),
            3 => Ok(Instruction::FillLimitOrder),
            _ => Err(MarketError::InvalidInstructionData),
        }
    }
}

} // verus!
