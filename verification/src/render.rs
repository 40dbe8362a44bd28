//! From the symbolic form of an operation to its length in bytes and to its
//! RGBDS text, and the whole disassembly of one operation.
use vstd::prelude::*;

use crate::bus::MemoryBus;
use crate::decode::{decode, decoded, next_address, spec_decode_on};
use crate::text::{
    decimal, hex2, hex4, push_decimal, push_hex2, push_hex4, push_signed_decimal,
    signed_decimal, to_lower, to_lowercase,
};
use crate::laws::lemma_decoded_length;
use crate::types::{mnemonic_name, operand_label, Mnemonic, Operand, Operation, Preferences};

verus! {

/// `std::fmt::Error`, the error type of `render`'s result, declared opaque:
/// nothing is claimed of its values, and `render` never gives one back.
#[verifier::external_type_specification]
#[verifier::external_body]
pub struct ExFmtError(std::fmt::Error);

/// Whether the mnemonic belongs to the `$CB`-prefixed table, whose opcodes
/// take two bytes.
pub open spec fn is_prefixed(m: Mnemonic) -> bool {
    m is RLC || m is RRC || m is RL || m is RR || m is SLA || m is SRA || m is SRL || m is SWAP
        || m is BIT || m is RES || m is SET
}

/// The bytes that an operand occupies after the opcode: one for an 8-bit
/// immediate (except the restart vector of `RST`, which the opcode holds),
/// two for a 16-bit one, none for the others.
pub open spec fn operand_size(m: Mnemonic, o: Operand) -> nat {
    match o {
        Operand::N8(_) => if m is RST { 0 } else { 1 },
        Operand::FF(_) => 1,
        Operand::I8(_) => 1,
        Operand::N16(_) => 2,
        Operand::N16R(_) => 2,
        _ => 0,
    }
}

/// The bytes that the operands occupy after the opcode.
pub open spec fn operands_size(m: Mnemonic, ops: Seq<Operand>) -> nat
    decreases ops.len(),
{
    if ops.len() == 0 {
        0
    } else {
        operands_size(m, ops.drop_last()) + operand_size(m, ops.last())
    }
}

/// The length in bytes of an operation: its opcode, the `$CB` prefix where it
/// has one, and its immediates.
pub open spec fn spec_next_offset(m: Mnemonic, ops: Seq<Operand>) -> nat {
    1 + (if is_prefixed(m) { 1nat } else { 0nat }) + operands_size(m, ops)
}

/// The RGBDS text of one operand of an operation with mnemonic `m`.
pub open spec fn operand_text(m: Mnemonic, o: Operand) -> Seq<char> {
    match o {
        Operand::cZ => "Z"@,
        Operand::cNZ => "NZ"@,
        Operand::cC => "C"@,
        Operand::cNC => "NC"@,
        Operand::BCR => "[BC]"@,
        Operand::DER => "[DE]"@,
        Operand::HLR => "[HL]"@,
        Operand::CR => "[C]"@,
        Operand::HLI => "[HLI]"@,
        Operand::HLD => "[HLD]"@,
        Operand::N8(b) => "$"@ + hex2(b),
        Operand::FF(b) => "[$FF"@ + hex2(b) + "]"@,
        Operand::I8(v) => if m is LD {
            "SP"@ + (if v < 0 { Seq::<char>::empty() } else { "+"@ }) + signed_decimal(v as int)
        } else {
            signed_decimal(v as int)
        },
        Operand::N16(w) => "$"@ + hex4(w),
        Operand::N16R(w) => "[$"@ + hex4(w) + "]"@,
        Operand::Index(i) => decimal(i as nat),
        _ => operand_label(o),
    }
}

/// What stands before the operand at position `i`: a space before the
/// first, a comma (and a space, with `comma_space`) before the others.
pub open spec fn separator(i: int, comma_space: bool) -> Seq<char> {
    if i == 0 {
        " "@
    } else if comma_space {
        ","@ + " "@
    } else {
        ","@
    }
}

/// The text of the operands, each after its separator.
pub open spec fn operands_text(m: Mnemonic, ops: Seq<Operand>, comma_space: bool) -> Seq<char>
    decreases ops.len(),
{
    if ops.len() == 0 {
        Seq::empty()
    } else {
        operands_text(m, ops.drop_last(), comma_space) + separator(ops.len() - 1, comma_space)
            + operand_text(m, ops.last())
    }
}

/// The RGBDS text of an operation: the mnemonic, then the operands; all in
/// lower case unless `upcase`.
pub open spec fn spec_render(m: Mnemonic, ops: Seq<Operand>, upcase: bool, comma_space: bool) -> Seq<char> {
    let text = mnemonic_name(m) + operands_text(m, ops, comma_space);
    if upcase {
        text
    } else {
        to_lower(text)
    }
}

/// The length and text of a decoded operation, or the decoding error.
pub open spec fn spec_disassembly(
    decoding: Result<(Mnemonic, Seq<Operand>), Seq<char>>,
    upcase: bool,
    comma_space: bool,
) -> Result<(u16, Seq<char>), Seq<char>> {
    match decoding {
        Ok((m, ops)) => Ok(
            (spec_next_offset(m, ops) as u16, spec_render(m, ops, upcase, comma_space)),
        ),
        Err(e) => Err(e),
    }
}

/// Disassembling at `addr` on the bus `bus`: the length and text of the
/// operation decoded there, or the decoding error.
pub open spec fn spec_disassemble_on<Bus: MemoryBus>(
    bus: &Bus,
    addr: u16,
    upcase: bool,
    comma_space: bool,
) -> Result<(u16, Seq<char>), Seq<char>> {
    spec_disassembly(spec_decode_on(bus, addr), upcase, comma_space)
}

/// A disassembly result, by the views of the text and of the error.
pub open spec fn disassembled(r: Result<(u16, String), String>) -> Result<(u16, Seq<char>), Seq<char>> {
    match r {
        Ok((n, s)) => Ok((n, s@)),
        Err(e) => Err(e@),
    }
}

proof fn lemma_operands_size_prefix(m: Mnemonic, ops: Seq<Operand>, i: int)
    requires
        0 <= i <= ops.len(),
    ensures
        operands_size(m, ops.take(i)) <= operands_size(m, ops),
    decreases ops.len(),
{
    if i < ops.len() {
        assert(ops.drop_last().take(i) =~= ops.take(i));
        lemma_operands_size_prefix(m, ops.drop_last(), i);
    } else {
        assert(ops.take(i) =~= ops);
    }
}

/// Compute the next offset relative to the current PC address's operation:
/// the length of the operation in bytes.
pub fn next_offset(operation: &Operation) -> (r: u16)
    requires
        spec_next_offset(operation.mnemonic, operation.operands@) <= u16::MAX,
    ensures
        r == spec_next_offset(operation.mnemonic, operation.operands@),
{
    let m = operation.mnemonic;
    let ops = &operation.operands;
    // There's at least one byte read
    let mut count: u16 = 1;

    // CB Prefix
    if let Mnemonic::RLC | Mnemonic::RRC | Mnemonic::RL | Mnemonic::RR | Mnemonic::SLA
    | Mnemonic::SRA | Mnemonic::SRL | Mnemonic::SWAP | Mnemonic::BIT | Mnemonic::RES
    | Mnemonic::SET = m {
        count += 1;
    }
    let mut i: usize = 0;
    while i < ops.len()
        invariant
            i <= ops@.len(),
            m == operation.mnemonic,
            spec_next_offset(m, ops@) <= u16::MAX,
            count == 1 + (if is_prefixed(m) { 1nat } else { 0nat }) + operands_size(m, ops@.take(i as int)),
        decreases ops.len() - i,
    {
        proof {
            lemma_operands_size_prefix(m, ops@, i + 1);
            assert(ops@.take(i + 1).drop_last() =~= ops@.take(i as int));
        }
        match ops[i] {
            Operand::N8(_) => {
                if !matches!(m, Mnemonic::RST) {
                    count += 1;
                }
            },
            Operand::FF(_) => {
                count += 1;
            },
            Operand::I8(_) => {
                count += 1;
            },
            Operand::N16(_) => {
                count += 2;
            },
            Operand::N16R(_) => {
                count += 2;
            },
            _ => {},
        }
        i = i + 1;
    }
    assert(ops@.take(ops@.len() as int) =~= ops@);
    count
}

/// Appends the RGBDS text of one operand.
fn push_operand(buffer: &mut String, m: Mnemonic, op: Operand)
    ensures
        final(buffer)@ == old(buffer)@ + operand_text(m, op),
{
    match op {
        Operand::cZ => buffer.append("Z"),
        Operand::cNZ => buffer.append("NZ"),
        Operand::cC => buffer.append("C"),
        Operand::cNC => buffer.append("NC"),
        Operand::BCR => buffer.append("[BC]"),
        Operand::DER => buffer.append("[DE]"),
        Operand::HLR => buffer.append("[HL]"),
        Operand::CR => buffer.append("[C]"),
        Operand::HLI => buffer.append("[HLI]"),
        Operand::HLD => buffer.append("[HLD]"),
        Operand::N8(byte) => {
            buffer.append("$");
            push_hex2(buffer, byte);
        },
        Operand::FF(byte) => {
            buffer.append("[$FF");
            push_hex2(buffer, byte);
            buffer.append("]");
        },
        Operand::I8(val) => {
            if let Mnemonic::LD = m {
                buffer.append("SP");
                if val >= 0 {
                    buffer.append("+");
                }
                push_signed_decimal(buffer, val);
            } else {
                push_signed_decimal(buffer, val);
            }
        },
        Operand::N16(word) => {
            buffer.append("$");
            push_hex4(buffer, word);
        },
        Operand::N16R(word) => {
            buffer.append("[$");
            push_hex4(buffer, word);
            buffer.append("]");
        },
        Operand::Index(idx) => push_decimal(buffer, idx as u32),
        val => buffer.append(val.label()),
    }
    assert(buffer@ =~= old(buffer)@ + operand_text(m, op));
}

proof fn lemma_operands_text_step(m: Mnemonic, ops: Seq<Operand>, i: int, comma_space: bool)
    requires
        0 <= i < ops.len(),
    ensures
        operands_text(m, ops.take(i + 1), comma_space) == operands_text(m, ops.take(i), comma_space)
            + separator(i, comma_space) + operand_text(m, ops[i]),
{
    assert(ops.take(i + 1).drop_last() =~= ops.take(i));
}

/// Translate a symbolic representation into a textual one, compatible with RGBDS syntax and
/// following preferences.
///
/// # Errors
///
/// None: the text is built in memory, and `Err` never comes.
#[verifier::spinoff_prover]
pub fn render(operation: &Operation, prefs: &Preferences) -> (r: Result<String, std::fmt::Error>)
    ensures
        r matches Ok(s) && s@ == spec_render(
            operation.mnemonic,
            operation.operands@,
            prefs.upcase,
            prefs.comma_space,
        ),
{
    let m = operation.mnemonic;
    let ops = &operation.operands;
    let mut buffer = m.to_string();

    let mut idx: usize = 0;
    while idx < ops.len()
        invariant
            idx <= ops@.len(),
            m == operation.mnemonic,
            buffer@ == mnemonic_name(m) + operands_text(m, ops@.take(idx as int), prefs.comma_space),
        decreases ops.len() - idx,
    {
        let ghost before = buffer@;
        if idx == 0 {
            buffer.append(" ");
        } else {
            buffer.append(",");
            if prefs.comma_space {
                buffer.append(" ");
            }
        }
        push_operand(&mut buffer, m, ops[idx]);
        proof {
            lemma_operands_text_step(m, ops@, idx as int, prefs.comma_space);
        }
        assert(buffer@ =~= before + separator(idx as int, prefs.comma_space) + operand_text(m, ops@[idx as int]));
        idx = idx + 1;
    }
    assert(ops@.take(ops@.len() as int) =~= ops@);

    if !prefs.upcase {
        buffer = to_lowercase(&buffer);
    }

    Ok(buffer)
}

/// Return a PC offset and a textual representation as a String of a Game Boy binary operation following the
/// RGBDS syntax.
///
/// # Errors
///
/// * No opcode is found at `addr`
/// * The operation needs one or two operands but an insufficient number is found
/// * The opcode isn't a valid Game Boy operation (unsupported)
///
/// # Result
///
/// Returns a tuple containing the number of bytes (as a u16) consumed and the textual representation in a
/// String.
///
/// The byte count number can be used to increment a PC register in an emulator.
pub fn disassemble<Bus: MemoryBus>(bus: &Bus, addr: u16, prefs: &Preferences) -> (r: Result<(u16, String), String>)
    ensures
        disassembled(r) == spec_disassemble_on(bus, addr, prefs.upcase, prefs.comma_space),
{
    let operation = match decode(bus, addr) {
        Ok(operation) => operation,
        Err(e) => return Err(e),
    };
    proof {
        lemma_decoded_length(
            bus.spec_byte(addr)->Some_0,
            bus.spec_byte(next_address(addr)),
            bus.spec_word(next_address(addr)),
        );
    }
    let offset: u16 = next_offset(&operation);
    let repr = match render(&operation, prefs) {
        Ok(repr) => repr,
        Err(_) => {
            return Err(
                String::from_str(
                    "A formatting error occured: an error occurred when formatting an argument",
                ),
            )
        },
    };
    Ok((offset, repr))
}

/// Former name of `disassemble`, which it calls: it gives back what
/// `disassemble` gives back.
///
/// Deprecated since 1.1.0: please use `disassemble` instead.
pub fn disass<Bus: MemoryBus>(bus: &Bus, addr: u16, prefs: &Preferences) -> (r: Result<(u16, String), String>)
    ensures
        disassembled(r) == spec_disassemble_on(bus, addr, prefs.upcase, prefs.comma_space),
{
    disassemble(bus, addr, prefs)
}

} // verus!
