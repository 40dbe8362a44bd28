//! Decoding: from the bytes of one operation to its mnemonic and operands.
use vstd::prelude::*;

use crate::bus::MemoryBus;
use crate::text::{hex2, hex4, push_hex2, push_hex4};
use crate::types::{Mnemonic, Operand, Operation};
use crate::types::Mnemonic::{
    ADC, ADD, AND, BIT, CALL, CCF, CP, CPL, DAA, DEC, DI, EI, HALT, INC, JP, JR, LD, LDH, NOP, OR,
    POP, PUSH, RES, RET, RETI, RL, RLA, RLC, RLCA, RR, RRA, RRC, RRCA, RST, SBC, SCF, SET, SLA,
    SRA, SRL, STOP, SUB, SWAP, XOR,
};
use crate::types::Operand::{
    cC, cNC, cNZ, cZ, Index, A, AF, B, BC, BCR, C, CR, D, DE, DER, E, FF, H, HL, HLD, HLI, HLR,
    I8, L, N16, N16R, N8, SP,
};

verus! {

/// What an opcode needs to be read after it.
#[derive(Debug, Clone, Copy, PartialEq, Eq, Structural)]
pub enum Fetch {
    /// The opcode is not a Game Boy operation.
    Unsupported,
    /// The opcode stands alone.
    Nothing,
    /// One byte follows the opcode: an 8-bit immediate, or the second byte of a `$CB` opcode.
    Byte,
    /// A 16-bit little-endian immediate follows the opcode.
    Word,
}

/// The opcodes that are no Game Boy operation.
pub open spec fn is_unsupported(op: u8) -> bool {
    op == 0xD3 || op == 0xDB || op == 0xDD || op == 0xE3 || op == 0xE4 || op == 0xEB
        || op == 0xEC || op == 0xED || op == 0xF4 || op == 0xFC || op == 0xFD
}

/// The opcodes followed by a 16-bit immediate.
pub open spec fn takes_word(op: u8) -> bool {
    op == 0x01 || op == 0x08 || op == 0x11 || op == 0x21 || op == 0x31 || op == 0xC2
        || op == 0xC3 || op == 0xC4 || op == 0xCA || op == 0xCC || op == 0xCD || op == 0xD2
        || op == 0xD4 || op == 0xDA || op == 0xDC || op == 0xEA || op == 0xFA
}

/// The opcodes followed by one byte.
pub open spec fn takes_byte(op: u8) -> bool {
    // LD r, n8
    op == 0x06 || op == 0x0E || op == 0x16 || op == 0x1E || op == 0x26 || op == 0x2E
        || op == 0x36 || op == 0x3E
    // JR e8 and JR cc, e8
        || op == 0x18 || op == 0x20 || op == 0x28 || op == 0x30 || op == 0x38
    // ALU A, n8
        || op == 0xC6 || op == 0xCE || op == 0xD6 || op == 0xDE || op == 0xE6 || op == 0xEE
        || op == 0xF6 || op == 0xFE
    // LDH with $FF00+n8, ADD SP, e8, LD HL, SP+e8, and the $CB prefix
        || op == 0xE0 || op == 0xF0 || op == 0xE8 || op == 0xF8 || op == 0xCB
}

/// What must be read after the opcode `op`.
pub open spec fn spec_fetch(op: u8) -> Fetch {
    if is_unsupported(op) {
        Fetch::Unsupported
    } else if takes_word(op) {
        Fetch::Word
    } else if takes_byte(op) {
        Fetch::Byte
    } else {
        Fetch::Nothing
    }
}

/// The 8-bit register operands in encoding order (`r[z]`).
pub open spec fn register(i: int) -> Operand {
    if i == 0 { B }
    else if i == 1 { C }
    else if i == 2 { D }
    else if i == 3 { E }
    else if i == 4 { H }
    else if i == 5 { L }
    else if i == 6 { HLR }
    else { A }
}

/// The 16-bit register pairs of loads and arithmetic (`rp[p]`).
pub open spec fn register_pair(p: int) -> Operand {
    if p == 0 { BC } else if p == 1 { DE } else if p == 2 { HL } else { SP }
}

/// The 16-bit register pairs of the stack operations (`rp2[p]`).
pub open spec fn stack_pair(p: int) -> Operand {
    if p == 0 { BC } else if p == 1 { DE } else if p == 2 { HL } else { AF }
}

/// The indirect operands of the accumulator loads `$02`..`$3A`.
pub open spec fn indirect(p: int) -> Operand {
    if p == 0 { BCR } else if p == 1 { DER } else if p == 2 { HLI } else { HLD }
}

/// The branch conditions (`cc[y]`).
pub open spec fn condition(y: int) -> Operand {
    if y == 0 { cNZ } else if y == 1 { cZ } else if y == 2 { cNC } else { cC }
}

/// The accumulator operations (`alu[y]`).
pub open spec fn arithmetic(y: int) -> Mnemonic {
    if y == 0 { ADD }
    else if y == 1 { ADC }
    else if y == 2 { SUB }
    else if y == 3 { SBC }
    else if y == 4 { AND }
    else if y == 5 { XOR }
    else if y == 6 { OR }
    else { CP }
}

/// The operand-less operations `$07`..`$3F`.
pub open spec fn accumulator_operation(y: int) -> Mnemonic {
    if y == 0 { RLCA }
    else if y == 1 { RRCA }
    else if y == 2 { RLA }
    else if y == 3 { RRA }
    else if y == 4 { DAA }
    else if y == 5 { CPL }
    else if y == 6 { SCF }
    else { CCF }
}

/// The rotations and shifts of the `$CB` table (`rot[y]`).
pub open spec fn rotation(y: int) -> Mnemonic {
    if y == 0 { RLC }
    else if y == 1 { RRC }
    else if y == 2 { RL }
    else if y == 3 { RR }
    else if y == 4 { SLA }
    else if y == 5 { SRA }
    else if y == 6 { SWAP }
    else { SRL }
}

/// The bit operations of the `$CB` table, by the opcode's two high bits.
pub open spec fn bit_operation(x: int) -> Mnemonic {
    if x == 1 { BIT } else if x == 2 { RES } else { SET }
}

/// The operation that the byte `op` selects in the `$CB`-prefixed table.
///
/// The opcode reads as `xx yyy zzz`: `zzz` picks the register, `yyy` the
/// rotation or the bit index, `xx` the kind of operation.
pub open spec fn spec_cb(op: u8) -> (Mnemonic, Seq<Operand>) {
    let x: int = op as int / 64;
    let y: int = (op as int / 8) % 8;
    let z: int = op as int % 8;
    if x == 0 {
        (rotation(y), seq![register(z)])
    } else {
        (bit_operation(x), seq![Index(y as u8), register(z)])
    }
}

/// The operation that the opcode `op` selects in the main table, given the
/// immediates `n8` and `n16` that follow it (where it takes one).
///
/// The opcode reads as `xx yyy zzz`, with `yyy` read as `pp q` where register
/// pairs are concerned.
pub open spec fn spec_unprefixed(op: u8, n8: u8, n16: u16) -> (Mnemonic, Seq<Operand>) {
    let x: int = op as int / 64;
    let y: int = (op as int / 8) % 8;
    let z: int = op as int % 8;
    let p: int = y / 2;
    let q: int = y % 2;
    if x == 1 {
        if op == 0x76 {
            (HALT, seq![])
        } else {
            (LD, seq![register(y), register(z)])
        }
    } else if x == 2 {
        (arithmetic(y), seq![A, register(z)])
    } else if x == 0 {
        if z == 0 {
            if y == 0 {
                (NOP, seq![])
            } else if y == 1 {
                (LD, seq![N16R(n16), SP])
            } else if y == 2 {
                (STOP, seq![])
            } else if y == 3 {
                (JR, seq![I8(n8 as i8)])
            } else {
                (JR, seq![condition(y - 4), I8(n8 as i8)])
            }
        } else if z == 1 {
            if q == 0 {
                (LD, seq![register_pair(p), N16(n16)])
            } else {
                (ADD, seq![HL, register_pair(p)])
            }
        } else if z == 2 {
            if q == 0 {
                (LD, seq![indirect(p), A])
            } else {
                (LD, seq![A, indirect(p)])
            }
        } else if z == 3 {
            (if q == 0 { INC } else { DEC }, seq![register_pair(p)])
        } else if z == 4 {
            (INC, seq![register(y)])
        } else if z == 5 {
            (DEC, seq![register(y)])
        } else if z == 6 {
            (LD, seq![register(y), N8(n8)])
        } else {
            (accumulator_operation(y), seq![])
        }
    } else {
        if z == 0 {
            if y < 4 {
                (RET, seq![condition(y)])
            } else if y == 4 {
                (LDH, seq![FF(n8), A])
            } else if y == 5 {
                (ADD, seq![SP, I8(n8 as i8)])
            } else if y == 6 {
                (LDH, seq![A, FF(n8)])
            } else {
                (LD, seq![HL, I8(n8 as i8)])
            }
        } else if z == 1 {
            if q == 0 {
                (POP, seq![stack_pair(p)])
            } else if p == 0 {
                (RET, seq![])
            } else if p == 1 {
                (RETI, seq![])
            } else if p == 2 {
                (JP, seq![HL])
            } else {
                (LD, seq![SP, HL])
            }
        } else if z == 2 {
            if y < 4 {
                (JP, seq![condition(y), N16(n16)])
            } else if y == 4 {
                (LDH, seq![CR, A])
            } else if y == 5 {
                (LD, seq![N16R(n16), A])
            } else if y == 6 {
                (LDH, seq![A, CR])
            } else {
                (LD, seq![A, N16R(n16)])
            }
        } else if z == 3 {
            if y == 0 {
                (JP, seq![N16(n16)])
            } else if y == 6 {
                (DI, seq![])
            } else {
                (EI, seq![])
            }
        } else if z == 4 {
            (CALL, seq![condition(y), N16(n16)])
        } else if z == 5 {
            if q == 0 {
                (PUSH, seq![stack_pair(p)])
            } else {
                (CALL, seq![N16(n16)])
            }
        } else if z == 6 {
            (arithmetic(y), seq![A, N8(n8)])
        } else {
            (RST, seq![N8((y * 8) as u8)])
        }
    }
}

/// The operation that `op` selects, given the byte or word that follows it:
/// the `$CB` table for the `$CB` prefix, the main table otherwise.
pub open spec fn spec_instruction(op: u8, n8: u8, n16: u16) -> (Mnemonic, Seq<Operand>) {
    if op == 0xCB {
        spec_cb(n8)
    } else {
        spec_unprefixed(op, n8, n16)
    }
}

/// The error for an opcode that is no Game Boy operation.
pub open spec fn unsupported_message(op: u8) -> Seq<char> {
    "Unsupported opcode "@ + hex2(op)
}

/// The error for a missing byte operand.
pub open spec fn byte_missing_message() -> Seq<char> {
    "Byte operand not available"@
}

/// The error for a missing word operand.
pub open spec fn word_missing_message() -> Seq<char> {
    "Word operand not available"@
}

/// The error for a missing opcode.
pub open spec fn opcode_missing_message(addr: u16) -> Seq<char> {
    "Opcode not found at address "@ + hex4(addr)
}

/// Decoding the opcode `op`, given what was read after it (`byte`, where one
/// byte was read; `word`, where a word was): the operation, or the error.
pub open spec fn spec_decode(op: u8, byte: Option<u8>, word: Option<u16>) -> Result<
    (Mnemonic, Seq<Operand>),
    Seq<char>,
> {
    match spec_fetch(op) {
        Fetch::Unsupported => Err(unsupported_message(op)),
        Fetch::Nothing => Ok(spec_instruction(op, 0, 0)),
        Fetch::Byte => match byte {
            Some(n8) => Ok(spec_instruction(op, n8, 0)),
            None => Err(byte_missing_message()),
        },
        Fetch::Word => match word {
            Some(n16) => Ok(spec_instruction(op, 0, n16)),
            None => Err(word_missing_message()),
        },
    }
}

/// Decoding at `addr`, given what a bus gave back: the opcode read at `addr`,
/// and the byte or word read after it.
pub open spec fn spec_decode_at(addr: u16, opcode: Option<u8>, byte: Option<u8>, word: Option<u16>) -> Result<
    (Mnemonic, Seq<Operand>),
    Seq<char>,
> {
    match opcode {
        None => Err(opcode_missing_message(addr)),
        Some(op) => spec_decode(op, byte, word),
    }
}

/// A decoding result, by the views of the operation and of the error.
pub open spec fn decoded(r: Result<Operation, String>) -> Result<(Mnemonic, Seq<Operand>), Seq<char>> {
    match r {
        Ok(o) => Ok(o@),
        Err(e) => Err(e@),
    }
}

/// What must be read after the opcode.
pub fn fetch_of(opcode: u8) -> (f: Fetch)
    ensures
        f == spec_fetch(opcode),
{
    match opcode {
        0xD3 | 0xDB | 0xDD | 0xE3 | 0xE4 | 0xEB | 0xEC | 0xED | 0xF4 | 0xFC | 0xFD => {
            Fetch::Unsupported
        },
        0x01 | 0x08 | 0x11 | 0x21 | 0x31 | 0xC2 | 0xC3 | 0xC4 | 0xCA | 0xCC | 0xCD | 0xD2 | 0xD4
        | 0xDA | 0xDC | 0xEA | 0xFA => Fetch::Word,
        0x06 | 0x0E | 0x16 | 0x1E | 0x26 | 0x2E | 0x36 | 0x3E | 0x18 | 0x20 | 0x28 | 0x30 | 0x38
        | 0xC6 | 0xCE | 0xD6 | 0xDE | 0xE6 | 0xEE | 0xF6 | 0xFE | 0xE0 | 0xF0 | 0xE8 | 0xF8
        | 0xCB => Fetch::Byte,
        _ => Fetch::Nothing,
    }
}

fn unsupported_error(opcode: u8) -> (e: String)
    ensures
        e@ == unsupported_message(opcode),
{
    let mut e = String::from_str("Unsupported opcode ");
    push_hex2(&mut e, opcode);
    e
}

fn opcode_missing_error(addr: u16) -> (e: String)
    ensures
        e@ == opcode_missing_message(addr),
{
    let mut e = String::from_str("Opcode not found at address ");
    push_hex4(&mut e, addr);
    e
}

/// The byte operand, or the error for its absence.
fn next_byte(byte: Option<u8>) -> (r: Result<u8, String>)
    ensures
        match byte {
            Some(b) => r == Ok::<u8, String>(b),
            None => r matches Err(e) && e@ == byte_missing_message(),
        },
{
    match byte {
        Some(b) => Ok(b),
        None => Err(String::from_str("Byte operand not available")),
    }
}

/// The word operand, or the error for its absence.
fn next_word(word: Option<u16>) -> (r: Result<u16, String>)
    ensures
        match word {
            Some(w) => r == Ok::<u16, String>(w),
            None => r matches Err(e) && e@ == word_missing_message(),
        },
{
    match word {
        Some(w) => Ok(w),
        None => Err(String::from_str("Word operand not available")),
    }
}

/// Decodes the opcode `opcode`, given what was read after it: `byte` where
/// the opcode takes one byte, `word` where it takes a word (the other is not
/// looked at).
///
/// # Errors
///
/// * The opcode isn't a valid Game Boy operation (unsupported)
/// * The operand that the opcode needs is `None`
pub fn decode_fetched(opcode: u8, byte: Option<u8>, word: Option<u16>) -> (r: Result<Operation, String>)
    ensures
        decoded(r) == spec_decode(opcode, byte, word),
{
    let (n8, n16) = match fetch_of(opcode) {
        Fetch::Unsupported => return Err(unsupported_error(opcode)),
        Fetch::Nothing => (0u8, 0u16),
        Fetch::Byte => match next_byte(byte) {
            Ok(b) => (b, 0u16),
            Err(e) => return Err(e),
        },
        Fetch::Word => match next_word(word) {
            Ok(w) => (0u8, w),
            Err(e) => return Err(e),
        },
    };
    let (mnemonic, operands) = instruction(opcode, n8, n16);
    Ok(Operation::new(mnemonic, operands))
}

/// The address after `addr`, wrapping from `$FFFF` to `$0000`.
pub open spec fn next_address(addr: u16) -> u16 {
    if addr == 0xFFFF {
        0
    } else {
        (addr + 1) as u16
    }
}

/// Decoding at `addr` on the bus `bus`: the opcode is the byte at `addr`; the
/// byte or word that it takes, if any, is the one at the next address.
pub open spec fn spec_decode_on<Bus: MemoryBus>(bus: &Bus, addr: u16) -> Result<
    (Mnemonic, Seq<Operand>),
    Seq<char>,
> {
    spec_decode_at(
        addr,
        bus.spec_byte(addr),
        bus.spec_byte(next_address(addr)),
        bus.spec_word(next_address(addr)),
    )
}

/// Decode 1-3 bytes at `addr` and return a symbolic representation using the
/// Mnemonic and Operand types.
///
/// The opcode is read at `addr`; the byte or word that it takes, if any, at
/// the next address (`$FFFF` is followed by `$0000`). Nothing else is read.
///
/// # Errors
///
/// * No opcode is found at `addr`
/// * The operation needs one or two operands but an insufficient number is found
/// * The opcode isn't a valid Game Boy operation (unsupported)
pub fn decode<Bus: MemoryBus>(bus: &Bus, addr: u16) -> (r: Result<Operation, String>)
    ensures
        decoded(r) == spec_decode_on(bus, addr),
{
    let opcode: u8 = match bus.read_byte(addr) {
        Some(op) => op,
        None => return Err(opcode_missing_error(addr)),
    };
    let next: u16 = addr.wrapping_add(1);
    assert(next == next_address(addr));
    let (byte, word) = match fetch_of(opcode) {
        Fetch::Byte => (bus.read_byte(next), None),
        Fetch::Word => (None, bus.read_word(next)),
        _ => (None, None),
    };
    decode_fetched(opcode, byte, word)
}

/// The main opcode table: the operation that `opcode` selects, given the
/// byte `n8` or the word `n16` that follows it where it takes one.
#[verifier::rlimit(100)]
#[verifier::spinoff_prover]
fn instruction(opcode: u8, n8: u8, n16: u16) -> (r: (Mnemonic, Vec<Operand>))
    requires
        !is_unsupported(opcode),
    ensures
        (r.0, r.1@) == spec_instruction(opcode, n8, n16),
{
    match opcode {
        0x00 => (NOP, Vec::new()),
        0x01 => (LD, vec![BC, N16(n16)]),
        0x02 => (LD, vec![BCR, A]),
        0x03 => (INC, vec![BC]),
        0x04 => (INC, vec![B]),
        0x05 => (DEC, vec![B]),
        0x06 => (LD, vec![B, N8(n8)]),
        0x07 => (RLCA, Vec::new()),
        0x08 => (LD, vec![N16R(n16), SP]),
        0x09 => (ADD, vec![HL, BC]),
        0x0A => (LD, vec![A, BCR]),
        0x0B => (DEC, vec![BC]),
        0x0C => (INC, vec![C]),
        0x0D => (DEC, vec![C]),
        0x0E => (LD, vec![C, N8(n8)]),
        0x0F => (RRCA, Vec::new()),
        0x10 => (STOP, Vec::new()),
        0x11 => (LD, vec![DE, N16(n16)]),
        0x12 => (LD, vec![DER, A]),
        0x13 => (INC, vec![DE]),
        0x14 => (INC, vec![D]),
        0x15 => (DEC, vec![D]),
        0x16 => (LD, vec![D, N8(n8)]),
        0x17 => (RLA, Vec::new()),
        0x18 => (JR, vec![I8(n8 as i8)]),
        0x19 => (ADD, vec![HL, DE]),
        0x1A => (LD, vec![A, DER]),
        0x1B => (DEC, vec![DE]),
        0x1C => (INC, vec![E]),
        0x1D => (DEC, vec![E]),
        0x1E => (LD, vec![E, N8(n8)]),
        0x1F => (RRA, Vec::new()),
        0x20 => (JR, vec![cNZ, I8(n8 as i8)]),
        0x21 => (LD, vec![HL, N16(n16)]),
        0x22 => (LD, vec![HLI, A]),
        0x23 => (INC, vec![HL]),
        0x24 => (INC, vec![H]),
        0x25 => (DEC, vec![H]),
        0x26 => (LD, vec![H, N8(n8)]),
        0x27 => (DAA, Vec::new()),
        0x28 => (JR, vec![cZ, I8(n8 as i8)]),
        0x29 => (ADD, vec![HL, HL]),
        0x2A => (LD, vec![A, HLI]),
        0x2B => (DEC, vec![HL]),
        0x2C => (INC, vec![L]),
        0x2D => (DEC, vec![L]),
        0x2E => (LD, vec![L, N8(n8)]),
        0x2F => (CPL, Vec::new()),
        0x30 => (JR, vec![cNC, I8(n8 as i8)]),
        0x31 => (LD, vec![SP, N16(n16)]),
        0x32 => (LD, vec![HLD, A]),
        0x33 => (INC, vec![SP]),
        0x34 => (INC, vec![HLR]),
        0x35 => (DEC, vec![HLR]),
        0x36 => (LD, vec![HLR, N8(n8)]),
        0x37 => (SCF, Vec::new()),
        0x38 => (JR, vec![cC, I8(n8 as i8)]),
        0x39 => (ADD, vec![HL, SP]),
        0x3A => (LD, vec![A, HLD]),
        0x3B => (DEC, vec![SP]),
        0x3C => (INC, vec![A]),
        0x3D => (DEC, vec![A]),
        0x3E => (LD, vec![A, N8(n8)]),
        0x3F => (CCF, Vec::new()),
        0x40 => (LD, vec![B, B]),
        0x41 => (LD, vec![B, C]),
        0x42 => (LD, vec![B, D]),
        0x43 => (LD, vec![B, E]),
        0x44 => (LD, vec![B, H]),
        0x45 => (LD, vec![B, L]),
        0x46 => (LD, vec![B, HLR]),
        0x47 => (LD, vec![B, A]),
        0x48 => (LD, vec![C, B]),
        0x49 => (LD, vec![C, C]),
        0x4A => (LD, vec![C, D]),
        0x4B => (LD, vec![C, E]),
        0x4C => (LD, vec![C, H]),
        0x4D => (LD, vec![C, L]),
        0x4E => (LD, vec![C, HLR]),
        0x4F => (LD, vec![C, A]),
        0x50 => (LD, vec![D, B]),
        0x51 => (LD, vec![D, C]),
        0x52 => (LD, vec![D, D]),
        0x53 => (LD, vec![D, E]),
        0x54 => (LD, vec![D, H]),
        0x55 => (LD, vec![D, L]),
        0x56 => (LD, vec![D, HLR]),
        0x57 => (LD, vec![D, A]),
        0x58 => (LD, vec![E, B]),
        0x59 => (LD, vec![E, C]),
        0x5A => (LD, vec![E, D]),
        0x5B => (LD, vec![E, E]),
        0x5C => (LD, vec![E, H]),
        0x5D => (LD, vec![E, L]),
        0x5E => (LD, vec![E, HLR]),
        0x5F => (LD, vec![E, A]),
        0x60 => (LD, vec![H, B]),
        0x61 => (LD, vec![H, C]),
        0x62 => (LD, vec![H, D]),
        0x63 => (LD, vec![H, E]),
        0x64 => (LD, vec![H, H]),
        0x65 => (LD, vec![H, L]),
        0x66 => (LD, vec![H, HLR]),
        0x67 => (LD, vec![H, A]),
        0x68 => (LD, vec![L, B]),
        0x69 => (LD, vec![L, C]),
        0x6A => (LD, vec![L, D]),
        0x6B => (LD, vec![L, E]),
        0x6C => (LD, vec![L, H]),
        0x6D => (LD, vec![L, L]),
        0x6E => (LD, vec![L, HLR]),
        0x6F => (LD, vec![L, A]),
        0x70 => (LD, vec![HLR, B]),
        0x71 => (LD, vec![HLR, C]),
        0x72 => (LD, vec![HLR, D]),
        0x73 => (LD, vec![HLR, E]),
        0x74 => (LD, vec![HLR, H]),
        0x75 => (LD, vec![HLR, L]),
        0x76 => (HALT, Vec::new()),
        0x77 => (LD, vec![HLR, A]),
        0x78 => (LD, vec![A, B]),
        0x79 => (LD, vec![A, C]),
        0x7A => (LD, vec![A, D]),
        0x7B => (LD, vec![A, E]),
        0x7C => (LD, vec![A, H]),
        0x7D => (LD, vec![A, L]),
        0x7E => (LD, vec![A, HLR]),
        0x7F => (LD, vec![A, A]),
        0x80 => (ADD, vec![A, B]),
        0x81 => (ADD, vec![A, C]),
        0x82 => (ADD, vec![A, D]),
        0x83 => (ADD, vec![A, E]),
        0x84 => (ADD, vec![A, H]),
        0x85 => (ADD, vec![A, L]),
        0x86 => (ADD, vec![A, HLR]),
        0x87 => (ADD, vec![A, A]),
        0x88 => (ADC, vec![A, B]),
        0x89 => (ADC, vec![A, C]),
        0x8A => (ADC, vec![A, D]),
        0x8B => (ADC, vec![A, E]),
        0x8C => (ADC, vec![A, H]),
        0x8D => (ADC, vec![A, L]),
        0x8E => (ADC, vec![A, HLR]),
        0x8F => (ADC, vec![A, A]),
        0x90 => (SUB, vec![A, B]),
        0x91 => (SUB, vec![A, C]),
        0x92 => (SUB, vec![A, D]),
        0x93 => (SUB, vec![A, E]),
        0x94 => (SUB, vec![A, H]),
        0x95 => (SUB, vec![A, L]),
        0x96 => (SUB, vec![A, HLR]),
        0x97 => (SUB, vec![A, A]),
        0x98 => (SBC, vec![A, B]),
        0x99 => (SBC, vec![A, C]),
        0x9A => (SBC, vec![A, D]),
        0x9B => (SBC, vec![A, E]),
        0x9C => (SBC, vec![A, H]),
        0x9D => (SBC, vec![A, L]),
        0x9E => (SBC, vec![A, HLR]),
        0x9F => (SBC, vec![A, A]),
        0xA0 => (AND, vec![A, B]),
        0xA1 => (AND, vec![A, C]),
        0xA2 => (AND, vec![A, D]),
        0xA3 => (AND, vec![A, E]),
        0xA4 => (AND, vec![A, H]),
        0xA5 => (AND, vec![A, L]),
        0xA6 => (AND, vec![A, HLR]),
        0xA7 => (AND, vec![A, A]),
        0xA8 => (XOR, vec![A, B]),
        0xA9 => (XOR, vec![A, C]),
        0xAA => (XOR, vec![A, D]),
        0xAB => (XOR, vec![A, E]),
        0xAC => (XOR, vec![A, H]),
        0xAD => (XOR, vec![A, L]),
        0xAE => (XOR, vec![A, HLR]),
        0xAF => (XOR, vec![A, A]),
        0xB0 => (OR, vec![A, B]),
        0xB1 => (OR, vec![A, C]),
        0xB2 => (OR, vec![A, D]),
        0xB3 => (OR, vec![A, E]),
        0xB4 => (OR, vec![A, H]),
        0xB5 => (OR, vec![A, L]),
        0xB6 => (OR, vec![A, HLR]),
        0xB7 => (OR, vec![A, A]),
        0xB8 => (CP, vec![A, B]),
        0xB9 => (CP, vec![A, C]),
        0xBA => (CP, vec![A, D]),
        0xBB => (CP, vec![A, E]),
        0xBC => (CP, vec![A, H]),
        0xBD => (CP, vec![A, L]),
        0xBE => (CP, vec![A, HLR]),
        0xBF => (CP, vec![A, A]),
        0xC0 => (RET, vec![cNZ]),
        0xC1 => (POP, vec![BC]),
        0xC2 => (JP, vec![cNZ, N16(n16)]),
        0xC3 => (JP, vec![N16(n16)]),
        0xC4 => (CALL, vec![cNZ, N16(n16)]),
        0xC5 => (PUSH, vec![BC]),
        0xC6 => (ADD, vec![A, N8(n8)]),
        0xC7 => (RST, vec![N8(0x00)]),
        0xC8 => (RET, vec![cZ]),
        0xC9 => (RET, Vec::new()),
        0xCA => (JP, vec![cZ, N16(n16)]),
        0xCB => cb_prefix(n8),
        0xCC => (CALL, vec![cZ, N16(n16)]),
        0xCD => (CALL, vec![N16(n16)]),
        0xCE => (ADC, vec![A, N8(n8)]),
        0xCF => (RST, vec![N8(0x08)]),
        0xD0 => (RET, vec![cNC]),
        0xD1 => (POP, vec![DE]),
        0xD2 => (JP, vec![cNC, N16(n16)]),
        0xD4 => (CALL, vec![cNC, N16(n16)]),
        0xD5 => (PUSH, vec![DE]),
        0xD6 => (SUB, vec![A, N8(n8)]),
        0xD7 => (RST, vec![N8(0x10)]),
        0xD8 => (RET, vec![cC]),
        0xD9 => (RETI, Vec::new()),
        0xDA => (JP, vec![cC, N16(n16)]),
        0xDC => (CALL, vec![cC, N16(n16)]),
        0xDE => (SBC, vec![A, N8(n8)]),
        0xDF => (RST, vec![N8(0x18)]),
        0xE0 => (LDH, vec![FF(n8), A]),
        0xE1 => (POP, vec![HL]),
        0xE2 => (LDH, vec![CR, A]),
        0xE5 => (PUSH, vec![HL]),
        0xE6 => (AND, vec![A, N8(n8)]),
        0xE7 => (RST, vec![N8(0x20)]),
        0xE8 => (ADD, vec![SP, I8(n8 as i8)]),
        0xE9 => (JP, vec![HL]),
        0xEA => (LD, vec![N16R(n16), A]),
        0xEE => (XOR, vec![A, N8(n8)]),
        0xEF => (RST, vec![N8(0x28)]),
        0xF0 => (LDH, vec![A, FF(n8)]),
        0xF1 => (POP, vec![AF]),
        0xF2 => (LDH, vec![A, CR]),
        0xF3 => (DI, Vec::new()),
        0xF5 => (PUSH, vec![AF]),
        0xF6 => (OR, vec![A, N8(n8)]),
        0xF7 => (RST, vec![N8(0x30)]),
        0xF8 => (LD, vec![HL, I8(n8 as i8)]),
        0xF9 => (LD, vec![SP, HL]),
        0xFA => (LD, vec![A, N16R(n16)]),
        0xFB => (EI, Vec::new()),
        0xFE => (CP, vec![A, N8(n8)]),
        0xFF => (RST, vec![N8(0x38)]),
        0xD3 | 0xDB | 0xDD | 0xE3 | 0xE4 | 0xEB | 0xEC | 0xED | 0xF4 | 0xFC | 0xFD => (NOP, Vec::new()),
    }
}

/// The `$CB`-prefixed table: the operation that the byte after the prefix selects.
#[verifier::rlimit(100)]
#[verifier::spinoff_prover]
fn cb_prefix(opcode: u8) -> (r: (Mnemonic, Vec<Operand>))
    ensures
        (r.0, r.1@) == spec_cb(opcode),
{
    match opcode {
        0x00 => (RLC, vec![B]),
        0x01 => (RLC, vec![C]),
        0x02 => (RLC, vec![D]),
        0x03 => (RLC, vec![E]),
        0x04 => (RLC, vec![H]),
        0x05 => (RLC, vec![L]),
        0x06 => (RLC, vec![HLR]),
        0x07 => (RLC, vec![A]),
        0x08 => (RRC, vec![B]),
        0x09 => (RRC, vec![C]),
        0x0A => (RRC, vec![D]),
        0x0B => (RRC, vec![E]),
        0x0C => (RRC, vec![H]),
        0x0D => (RRC, vec![L]),
        0x0E => (RRC, vec![HLR]),
        0x0F => (RRC, vec![A]),
        0x10 => (RL, vec![B]),
        0x11 => (RL, vec![C]),
        0x12 => (RL, vec![D]),
        0x13 => (RL, vec![E]),
        0x14 => (RL, vec![H]),
        0x15 => (RL, vec![L]),
        0x16 => (RL, vec![HLR]),
        0x17 => (RL, vec![A]),
        0x18 => (RR, vec![B]),
        0x19 => (RR, vec![C]),
        0x1A => (RR, vec![D]),
        0x1B => (RR, vec![E]),
        0x1C => (RR, vec![H]),
        0x1D => (RR, vec![L]),
        0x1E => (RR, vec![HLR]),
        0x1F => (RR, vec![A]),
        0x20 => (SLA, vec![B]),
        0x21 => (SLA, vec![C]),
        0x22 => (SLA, vec![D]),
        0x23 => (SLA, vec![E]),
        0x24 => (SLA, vec![H]),
        0x25 => (SLA, vec![L]),
        0x26 => (SLA, vec![HLR]),
        0x27 => (SLA, vec![A]),
        0x28 => (SRA, vec![B]),
        0x29 => (SRA, vec![C]),
        0x2A => (SRA, vec![D]),
        0x2B => (SRA, vec![E]),
        0x2C => (SRA, vec![H]),
        0x2D => (SRA, vec![L]),
        0x2E => (SRA, vec![HLR]),
        0x2F => (SRA, vec![A]),
        0x30 => (SWAP, vec![B]),
        0x31 => (SWAP, vec![C]),
        0x32 => (SWAP, vec![D]),
        0x33 => (SWAP, vec![E]),
        0x34 => (SWAP, vec![H]),
        0x35 => (SWAP, vec![L]),
        0x36 => (SWAP, vec![HLR]),
        0x37 => (SWAP, vec![A]),
        0x38 => (SRL, vec![B]),
        0x39 => (SRL, vec![C]),
        0x3A => (SRL, vec![D]),
        0x3B => (SRL, vec![E]),
        0x3C => (SRL, vec![H]),
        0x3D => (SRL, vec![L]),
        0x3E => (SRL, vec![HLR]),
        0x3F => (SRL, vec![A]),
        0x40 => (BIT, vec![Index(0), B]),
        0x41 => (BIT, vec![Index(0), C]),
        0x42 => (BIT, vec![Index(0), D]),
        0x43 => (BIT, vec![Index(0), E]),
        0x44 => (BIT, vec![Index(0), H]),
        0x45 => (BIT, vec![Index(0), L]),
        0x46 => (BIT, vec![Index(0), HLR]),
        0x47 => (BIT, vec![Index(0), A]),
        0x48 => (BIT, vec![Index(1), B]),
        0x49 => (BIT, vec![Index(1), C]),
        0x4A => (BIT, vec![Index(1), D]),
        0x4B => (BIT, vec![Index(1), E]),
        0x4C => (BIT, vec![Index(1), H]),
        0x4D => (BIT, vec![Index(1), L]),
        0x4E => (BIT, vec![Index(1), HLR]),
        0x4F => (BIT, vec![Index(1), A]),
        0x50 => (BIT, vec![Index(2), B]),
        0x51 => (BIT, vec![Index(2), C]),
        0x52 => (BIT, vec![Index(2), D]),
        0x53 => (BIT, vec![Index(2), E]),
        0x54 => (BIT, vec![Index(2), H]),
        0x55 => (BIT, vec![Index(2), L]),
        0x56 => (BIT, vec![Index(2), HLR]),
        0x57 => (BIT, vec![Index(2), A]),
        0x58 => (BIT, vec![Index(3), B]),
        0x59 => (BIT, vec![Index(3), C]),
        0x5A => (BIT, vec![Index(3), D]),
        0x5B => (BIT, vec![Index(3), E]),
        0x5C => (BIT, vec![Index(3), H]),
        0x5D => (BIT, vec![Index(3), L]),
        0x5E => (BIT, vec![Index(3), HLR]),
        0x5F => (BIT, vec![Index(3), A]),
        0x60 => (BIT, vec![Index(4), B]),
        0x61 => (BIT, vec![Index(4), C]),
        0x62 => (BIT, vec![Index(4), D]),
        0x63 => (BIT, vec![Index(4), E]),
        0x64 => (BIT, vec![Index(4), H]),
        0x65 => (BIT, vec![Index(4), L]),
        0x66 => (BIT, vec![Index(4), HLR]),
        0x67 => (BIT, vec![Index(4), A]),
        0x68 => (BIT, vec![Index(5), B]),
        0x69 => (BIT, vec![Index(5), C]),
        0x6A => (BIT, vec![Index(5), D]),
        0x6B => (BIT, vec![Index(5), E]),
        0x6C => (BIT, vec![Index(5), H]),
        0x6D => (BIT, vec![Index(5), L]),
        0x6E => (BIT, vec![Index(5), HLR]),
        0x6F => (BIT, vec![Index(5), A]),
        0x70 => (BIT, vec![Index(6), B]),
        0x71 => (BIT, vec![Index(6), C]),
        0x72 => (BIT, vec![Index(6), D]),
        0x73 => (BIT, vec![Index(6), E]),
        0x74 => (BIT, vec![Index(6), H]),
        0x75 => (BIT, vec![Index(6), L]),
        0x76 => (BIT, vec![Index(6), HLR]),
        0x77 => (BIT, vec![Index(6), A]),
        0x78 => (BIT, vec![Index(7), B]),
        0x79 => (BIT, vec![Index(7), C]),
        0x7A => (BIT, vec![Index(7), D]),
        0x7B => (BIT, vec![Index(7), E]),
        0x7C => (BIT, vec![Index(7), H]),
        0x7D => (BIT, vec![Index(7), L]),
        0x7E => (BIT, vec![Index(7), HLR]),
        0x7F => (BIT, vec![Index(7), A]),
        0x80 => (RES, vec![Index(0), B]),
        0x81 => (RES, vec![Index(0), C]),
        0x82 => (RES, vec![Index(0), D]),
        0x83 => (RES, vec![Index(0), E]),
        0x84 => (RES, vec![Index(0), H]),
        0x85 => (RES, vec![Index(0), L]),
        0x86 => (RES, vec![Index(0), HLR]),
        0x87 => (RES, vec![Index(0), A]),
        0x88 => (RES, vec![Index(1), B]),
        0x89 => (RES, vec![Index(1), C]),
        0x8A => (RES, vec![Index(1), D]),
        0x8B => (RES, vec![Index(1), E]),
        0x8C => (RES, vec![Index(1), H]),
        0x8D => (RES, vec![Index(1), L]),
        0x8E => (RES, vec![Index(1), HLR]),
        0x8F => (RES, vec![Index(1), A]),
        0x90 => (RES, vec![Index(2), B]),
        0x91 => (RES, vec![Index(2), C]),
        0x92 => (RES, vec![Index(2), D]),
        0x93 => (RES, vec![Index(2), E]),
        0x94 => (RES, vec![Index(2), H]),
        0x95 => (RES, vec![Index(2), L]),
        0x96 => (RES, vec![Index(2), HLR]),
        0x97 => (RES, vec![Index(2), A]),
        0x98 => (RES, vec![Index(3), B]),
        0x99 => (RES, vec![Index(3), C]),
        0x9A => (RES, vec![Index(3), D]),
        0x9B => (RES, vec![Index(3), E]),
        0x9C => (RES, vec![Index(3), H]),
        0x9D => (RES, vec![Index(3), L]),
        0x9E => (RES, vec![Index(3), HLR]),
        0x9F => (RES, vec![Index(3), A]),
        0xA0 => (RES, vec![Index(4), B]),
        0xA1 => (RES, vec![Index(4), C]),
        0xA2 => (RES, vec![Index(4), D]),
        0xA3 => (RES, vec![Index(4), E]),
        0xA4 => (RES, vec![Index(4), H]),
        0xA5 => (RES, vec![Index(4), L]),
        0xA6 => (RES, vec![Index(4), HLR]),
        0xA7 => (RES, vec![Index(4), A]),
        0xA8 => (RES, vec![Index(5), B]),
        0xA9 => (RES, vec![Index(5), C]),
        0xAA => (RES, vec![Index(5), D]),
        0xAB => (RES, vec![Index(5), E]),
        0xAC => (RES, vec![Index(5), H]),
        0xAD => (RES, vec![Index(5), L]),
        0xAE => (RES, vec![Index(5), HLR]),
        0xAF => (RES, vec![Index(5), A]),
        0xB0 => (RES, vec![Index(6), B]),
        0xB1 => (RES, vec![Index(6), C]),
        0xB2 => (RES, vec![Index(6), D]),
        0xB3 => (RES, vec![Index(6), E]),
        0xB4 => (RES, vec![Index(6), H]),
        0xB5 => (RES, vec![Index(6), L]),
        0xB6 => (RES, vec![Index(6), HLR]),
        0xB7 => (RES, vec![Index(6), A]),
        0xB8 => (RES, vec![Index(7), B]),
        0xB9 => (RES, vec![Index(7), C]),
        0xBA => (RES, vec![Index(7), D]),
        0xBB => (RES, vec![Index(7), E]),
        0xBC => (RES, vec![Index(7), H]),
        0xBD => (RES, vec![Index(7), L]),
        0xBE => (RES, vec![Index(7), HLR]),
        0xBF => (RES, vec![Index(7), A]),
        0xC0 => (SET, vec![Index(0), B]),
        0xC1 => (SET, vec![Index(0), C]),
        0xC2 => (SET, vec![Index(0), D]),
        0xC3 => (SET, vec![Index(0), E]),
        0xC4 => (SET, vec![Index(0), H]),
        0xC5 => (SET, vec![Index(0), L]),
        0xC6 => (SET, vec![Index(0), HLR]),
        0xC7 => (SET, vec![Index(0), A]),
        0xC8 => (SET, vec![Index(1), B]),
        0xC9 => (SET, vec![Index(1), C]),
        0xCA => (SET, vec![Index(1), D]),
        0xCB => (SET, vec![Index(1), E]),
        0xCC => (SET, vec![Index(1), H]),
        0xCD => (SET, vec![Index(1), L]),
        0xCE => (SET, vec![Index(1), HLR]),
        0xCF => (SET, vec![Index(1), A]),
        0xD0 => (SET, vec![Index(2), B]),
        0xD1 => (SET, vec![Index(2), C]),
        0xD2 => (SET, vec![Index(2), D]),
        0xD3 => (SET, vec![Index(2), E]),
        0xD4 => (SET, vec![Index(2), H]),
        0xD5 => (SET, vec![Index(2), L]),
        0xD6 => (SET, vec![Index(2), HLR]),
        0xD7 => (SET, vec![Index(2), A]),
        0xD8 => (SET, vec![Index(3), B]),
        0xD9 => (SET, vec![Index(3), C]),
        0xDA => (SET, vec![Index(3), D]),
        0xDB => (SET, vec![Index(3), E]),
        0xDC => (SET, vec![Index(3), H]),
        0xDD => (SET, vec![Index(3), L]),
        0xDE => (SET, vec![Index(3), HLR]),
        0xDF => (SET, vec![Index(3), A]),
        0xE0 => (SET, vec![Index(4), B]),
        0xE1 => (SET, vec![Index(4), C]),
        0xE2 => (SET, vec![Index(4), D]),
        0xE3 => (SET, vec![Index(4), E]),
        0xE4 => (SET, vec![Index(4), H]),
        0xE5 => (SET, vec![Index(4), L]),
        0xE6 => (SET, vec![Index(4), HLR]),
        0xE7 => (SET, vec![Index(4), A]),
        0xE8 => (SET, vec![Index(5), B]),
        0xE9 => (SET, vec![Index(5), C]),
        0xEA => (SET, vec![Index(5), D]),
        0xEB => (SET, vec![Index(5), E]),
        0xEC => (SET, vec![Index(5), H]),
        0xED => (SET, vec![Index(5), L]),
        0xEE => (SET, vec![Index(5), HLR]),
        0xEF => (SET, vec![Index(5), A]),
        0xF0 => (SET, vec![Index(6), B]),
        0xF1 => (SET, vec![Index(6), C]),
        0xF2 => (SET, vec![Index(6), D]),
        0xF3 => (SET, vec![Index(6), E]),
        0xF4 => (SET, vec![Index(6), H]),
        0xF5 => (SET, vec![Index(6), L]),
        0xF6 => (SET, vec![Index(6), HLR]),
        0xF7 => (SET, vec![Index(6), A]),
        0xF8 => (SET, vec![Index(7), B]),
        0xF9 => (SET, vec![Index(7), C]),
        0xFA => (SET, vec![Index(7), D]),
        0xFB => (SET, vec![Index(7), E]),
        0xFC => (SET, vec![Index(7), H]),
        0xFD => (SET, vec![Index(7), L]),
        0xFE => (SET, vec![Index(7), HLR]),
        0xFF => (SET, vec![Index(7), A]),
    }
}

} // verus!
