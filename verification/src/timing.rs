//! The fixed per-opcode cycle costs of the two opcode tables, in clock
//! cycles (four per machine cycle). An external driver advances the other
//! subsystems by the cost of each executed instruction to keep them in
//! lockstep with the core; this table is that contract. The conditional
//! branches are the only entries with two costs, told apart by whether
//! the branch was taken.

use vstd::prelude::*;

verus! {

/// The clock cycles a primary-table opcode consumes. `taken` matters only
/// for the conditional JR/JP/CALL/RET entries and is ignored everywhere
/// else. The 0xCB entry covers the prefix byte alone; `cb_cycles` of the
/// following byte gives the rest of such an instruction.
pub open spec fn op_cycles(op: u8, taken: bool) -> u8 {
    if 0x40 <= op && op < 0xC0 {
        // the move and ALU blocks: one machine cycle, two with an
        // HL-indirect operand; HALT itself takes one
        if op == 0x76 {
            4
        } else if op & 7 == 6 || (0x70 <= op && op < 0x78) {
            8
        } else {
            4
        }
    } else if op < 0x40 {
        lo_cycles(op, taken)
    } else {
        hi_cycles(op, taken)
    }
}

/// The clock cycles of a primary opcode below 0x40.
pub open spec fn lo_cycles(op: u8, taken: bool) -> u8 {
    match op {
        0x01u8 => 12,
        0x02u8 => 8,
        0x03u8 => 8,
        0x06u8 => 8,
        0x08u8 => 20,
        0x09u8 => 8,
        0x0Au8 => 8,
        0x0Bu8 => 8,
        0x0Eu8 => 8,
        0x11u8 => 12,
        0x12u8 => 8,
        0x13u8 => 8,
        0x16u8 => 8,
        0x18u8 => 12,
        0x19u8 => 8,
        0x1Au8 => 8,
        0x1Bu8 => 8,
        0x1Eu8 => 8,
        0x20u8 => if taken { 12 } else { 8 },
        0x21u8 => 12,
        0x22u8 => 8,
        0x23u8 => 8,
        0x26u8 => 8,
        0x28u8 => if taken { 12 } else { 8 },
        0x29u8 => 8,
        0x2Au8 => 8,
        0x2Bu8 => 8,
        0x2Eu8 => 8,
        0x30u8 => if taken { 12 } else { 8 },
        0x31u8 => 12,
        0x32u8 => 8,
        0x33u8 => 8,
        0x34u8 => 12,
        0x35u8 => 12,
        0x36u8 => 12,
        0x38u8 => if taken { 12 } else { 8 },
        0x39u8 => 8,
        0x3Au8 => 8,
        0x3Bu8 => 8,
        0x3Eu8 => 8,
        _ => 4,
    }
}

/// The clock cycles of a primary opcode at or above 0xC0; the reserved
/// byte values cost one machine cycle, like a no-op.
pub open spec fn hi_cycles(op: u8, taken: bool) -> u8 {
    match op {
        0xC0u8 => if taken { 20 } else { 8 },
        0xC1u8 => 12,
        0xC2u8 => if taken { 16 } else { 12 },
        0xC3u8 => 16,
        0xC4u8 => if taken { 24 } else { 12 },
        0xC5u8 => 16,
        0xC6u8 => 8,
        0xC7u8 => 16,
        0xC8u8 => if taken { 20 } else { 8 },
        0xC9u8 => 16,
        0xCAu8 => if taken { 16 } else { 12 },
        0xCCu8 => if taken { 24 } else { 12 },
        0xCDu8 => 24,
        0xCEu8 => 8,
        0xCFu8 => 16,
        0xD0u8 => if taken { 20 } else { 8 },
        0xD1u8 => 12,
        0xD2u8 => if taken { 16 } else { 12 },
        0xD4u8 => if taken { 24 } else { 12 },
        0xD5u8 => 16,
        0xD6u8 => 8,
        0xD7u8 => 16,
        0xD8u8 => if taken { 20 } else { 8 },
        0xD9u8 => 16,
        0xDAu8 => if taken { 16 } else { 12 },
        0xDCu8 => if taken { 24 } else { 12 },
        0xDEu8 => 8,
        0xDFu8 => 16,
        0xE0u8 => 12,
        0xE1u8 => 12,
        0xE2u8 => 8,
        0xE5u8 => 16,
        0xE6u8 => 8,
        0xE7u8 => 16,
        0xE8u8 => 16,
        0xEAu8 => 16,
        0xEEu8 => 8,
        0xEFu8 => 16,
        0xF0u8 => 12,
        0xF1u8 => 12,
        0xF2u8 => 8,
        0xF5u8 => 16,
        0xF6u8 => 8,
        0xF7u8 => 16,
        0xF8u8 => 12,
        0xF9u8 => 8,
        0xFAu8 => 16,
        0xFEu8 => 8,
        0xFFu8 => 16,
        _ => 4,
    }
}

/// The clock cycles a CB-table opcode consumes beyond the 0xCB prefix:
/// one machine cycle on a register operand; on the HL-indirect slot, two
/// more for the read (BIT) and three more for the read and write-back.
pub open spec fn cb_op_cycles(op: u8) -> u8 {
    if op & 7 == 6 {
        if 0x40 <= op && op < 0x80 {
            8
        } else {
            12
        }
    } else {
        4
    }
}

/// The fixed cost of one primary-table opcode, in clock cycles.
pub fn cycle_cost(op: u8, taken: bool) -> (r: u8)
    ensures
        r == op_cycles(op, taken),
{
    if 0x40 <= op && op < 0xC0 {
        if op == 0x76 {
            4
        } else if op & 7 == 6 || (0x70 <= op && op < 0x78) {
            8
        } else {
            4
        }
    } else if op < 0x40 {
        match op {
            0x01u8 => 12,
            0x02u8 => 8,
            0x03u8 => 8,
            0x06u8 => 8,
            0x08u8 => 20,
            0x09u8 => 8,
            0x0Au8 => 8,
            0x0Bu8 => 8,
            0x0Eu8 => 8,
            0x11u8 => 12,
            0x12u8 => 8,
            0x13u8 => 8,
            0x16u8 => 8,
            0x18u8 => 12,
            0x19u8 => 8,
            0x1Au8 => 8,
            0x1Bu8 => 8,
            0x1Eu8 => 8,
            0x20u8 => if taken { 12 } else { 8 },
            0x21u8 => 12,
            0x22u8 => 8,
            0x23u8 => 8,
            0x26u8 => 8,
            0x28u8 => if taken { 12 } else { 8 },
            0x29u8 => 8,
            0x2Au8 => 8,
            0x2Bu8 => 8,
            0x2Eu8 => 8,
            0x30u8 => if taken { 12 } else { 8 },
            0x31u8 => 12,
            0x32u8 => 8,
            0x33u8 => 8,
            0x34u8 => 12,
            0x35u8 => 12,
            0x36u8 => 12,
            0x38u8 => if taken { 12 } else { 8 },
            0x39u8 => 8,
            0x3Au8 => 8,
            0x3Bu8 => 8,
            0x3Eu8 => 8,
            _ => 4,
        }
    } else {
        match op {
            0xC0u8 => if taken { 20 } else { 8 },
            0xC1u8 => 12,
            0xC2u8 => if taken { 16 } else { 12 },
            0xC3u8 => 16,
            0xC4u8 => if taken { 24 } else { 12 },
            0xC5u8 => 16,
            0xC6u8 => 8,
            0xC7u8 => 16,
            0xC8u8 => if taken { 20 } else { 8 },
            0xC9u8 => 16,
            0xCAu8 => if taken { 16 } else { 12 },
            0xCCu8 => if taken { 24 } else { 12 },
            0xCDu8 => 24,
            0xCEu8 => 8,
            0xCFu8 => 16,
            0xD0u8 => if taken { 20 } else { 8 },
            0xD1u8 => 12,
            0xD2u8 => if taken { 16 } else { 12 },
            0xD4u8 => if taken { 24 } else { 12 },
            0xD5u8 => 16,
            0xD6u8 => 8,
            0xD7u8 => 16,
            0xD8u8 => if taken { 20 } else { 8 },
            0xD9u8 => 16,
            0xDAu8 => if taken { 16 } else { 12 },
            0xDCu8 => if taken { 24 } else { 12 },
            0xDEu8 => 8,
            0xDFu8 => 16,
            0xE0u8 => 12,
            0xE1u8 => 12,
            0xE2u8 => 8,
            0xE5u8 => 16,
            0xE6u8 => 8,
            0xE7u8 => 16,
            0xE8u8 => 16,
            0xEAu8 => 16,
            0xEEu8 => 8,
            0xEFu8 => 16,
            0xF0u8 => 12,
            0xF1u8 => 12,
            0xF2u8 => 8,
            0xF5u8 => 16,
            0xF6u8 => 8,
            0xF7u8 => 16,
            0xF8u8 => 12,
            0xF9u8 => 8,
            0xFAu8 => 16,
            0xFEu8 => 8,
            0xFFu8 => 16,
            _ => 4,
        }
    }
}

/// The fixed cost of one CB-table opcode beyond its prefix byte, in clock
/// cycles: a whole CB-prefixed instruction costs
/// `cycle_cost(0xCB, _) + cycle_cost_cb(sub)`.
pub fn cycle_cost_cb(op: u8) -> (r: u8)
    ensures
        r == cb_op_cycles(op),
{
    if op & 7 == 6 {
        if 0x40 <= op && op < 0x80 {
            8
        } else {
            12
        }
    } else {
        4
    }
}

} // verus!
