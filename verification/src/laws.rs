//! Properties of the library as a whole, proved over the specifications of
//! its functions.
use vstd::prelude::*;

use crate::decode::{spec_decode, spec_fetch, Fetch};
use crate::decode::{next_address, register, spec_cb, spec_decode_at, spec_decode_on};
use crate::render::{
    operand_text, operands_size, operands_text, separator, spec_disassemble_on, spec_disassembly,
    spec_next_offset,
    spec_render,
};
use crate::text::{decimal, digit_char, hex2, hex4, lower_char, signed_decimal, to_lower};
use crate::bus::{byte_at, word_at, MemoryBus, SimpleBus};
use crate::types::{
    is_16bit_operand, is_8bit_operand, is_condition_operand, is_immediate_operand, is_reference,
    is_register_operand, mnemonic_name, operand_label, operand_name, Mnemonic, Operand,
};

verus! {

/// The bytes read after an opcode.
pub open spec fn fetch_size(f: Fetch) -> nat {
    match f {
        Fetch::Byte => 1,
        Fetch::Word => 2,
        _ => 0,
    }
}

/// The length of a decoded operation is the number of bytes that decoding
/// consumed: the opcode and what was read after it. So the byte count can
/// advance a program counter to the next operation. A decoded operation has at
/// most two operands.
#[verifier::spinoff_prover]
pub proof fn lemma_decoded_length(op: u8, byte: Option<u8>, word: Option<u16>)
    requires
        spec_decode(op, byte, word) is Ok,
    ensures
        ({
            let (m, ops) = spec_decode(op, byte, word)->Ok_0;
            &&& spec_next_offset(m, ops) == 1 + fetch_size(spec_fetch(op))
            &&& ops.len() <= 2
        }),
{
    reveal_with_fuel(operands_size, 3);
}

/// A text without lower-case ASCII letters.
pub open spec fn no_lower_case(s: Seq<char>) -> bool {
    forall|i: int| 0 <= i < s.len() ==> !('a' <= #[trigger] s[i] && s[i] <= 'z')
}

/// A text without upper-case ASCII letters.
pub open spec fn no_upper_case(s: Seq<char>) -> bool {
    forall|i: int| 0 <= i < s.len() ==> !('A' <= #[trigger] s[i] && s[i] <= 'Z')
}

/// A text without spaces and commas.
pub open spec fn plain(s: Seq<char>) -> bool {
    forall|i: int| 0 <= i < s.len() ==> #[trigger] s[i] != ' ' && s[i] != ','
}

proof fn lemma_concat(a: Seq<char>, b: Seq<char>)
    ensures
        no_lower_case(a) && no_lower_case(b) ==> no_lower_case(a + b),
        plain(a) && plain(b) ==> plain(a + b),
{
    assert forall|i: int| 0 <= i < (a + b).len() implies (#[trigger] (a + b)[i] == a[i] || (a
        + b)[i] == b[i - a.len()]) && (i < a.len() ==> (a + b)[i] == a[i]) && (i >= a.len() ==> (a
        + b)[i] == b[i - a.len()]) by {
        if i < a.len() {
            assert((a + b)[i] == a[i]);
        } else {
            assert((a + b)[i] == b[i - a.len()]);
        }
    }
}

proof fn lemma_decimal_digits(n: nat)
    ensures
        no_lower_case(decimal(n)),
        plain(decimal(n)),
        decimal(n).len() > 0,
        '0' <= decimal(n)[0] && decimal(n)[0] <= '9',
    decreases n,
{
    if n >= 10 {
        lemma_decimal_digits(n / 10);
        let d = digit_char((n % 10) as int);
        assert(no_lower_case(seq![d]));
        assert(plain(seq![d]));
        assert((decimal(n / 10) + seq![d])[0] == decimal(n / 10)[0]);
        lemma_concat(decimal(n / 10), seq![d]);
        assert(decimal(n / 10).push(d) =~= decimal(n / 10) + seq![d]);
    }
}

proof fn lemma_signed_decimal_digits(v: int)
    ensures
        no_lower_case(signed_decimal(v)),
        plain(signed_decimal(v)),
        signed_decimal(v).len() > 0,
        signed_decimal(v)[0] != '[',
{
    if v < 0 {
        lemma_decimal_digits((-v) as nat);
        assert(no_lower_case(seq!['-']));
        assert(plain(seq!['-']));
        lemma_concat(seq!['-'], decimal((-v) as nat));
    } else {
        lemma_decimal_digits(v as nat);
    }
}

proof fn lemma_hex_upper(b: u8, w: u16)
    ensures
        no_lower_case(hex2(b)),
        no_lower_case(hex4(w)),
        plain(hex2(b)),
        plain(hex4(w)),
{
}

proof fn lemma_mnemonic_upper(m: Mnemonic)
    ensures
        no_lower_case(mnemonic_name(m)),
        plain(mnemonic_name(m)),
{
    match m {
        Mnemonic::NOP => reveal_strlit("NOP"),
        Mnemonic::STOP => reveal_strlit("STOP"),
        Mnemonic::HALT => reveal_strlit("HALT"),
        Mnemonic::DI => reveal_strlit("DI"),
        Mnemonic::EI => reveal_strlit("EI"),
        Mnemonic::LD => reveal_strlit("LD"),
        Mnemonic::LDH => reveal_strlit("LDH"),
        Mnemonic::PUSH => reveal_strlit("PUSH"),
        Mnemonic::POP => reveal_strlit("POP"),
        Mnemonic::INC => reveal_strlit("INC"),
        Mnemonic::DEC => reveal_strlit("DEC"),
        Mnemonic::ADD => reveal_strlit("ADD"),
        Mnemonic::ADC => reveal_strlit("ADC"),
        Mnemonic::SUB => reveal_strlit("SUB"),
        Mnemonic::SBC => reveal_strlit("SBC"),
        Mnemonic::CP => reveal_strlit("CP"),
        Mnemonic::RL => reveal_strlit("RL"),
        Mnemonic::RLA => reveal_strlit("RLA"),
        Mnemonic::RLC => reveal_strlit("RLC"),
        Mnemonic::RLCA => reveal_strlit("RLCA"),
        Mnemonic::RR => reveal_strlit("RR"),
        Mnemonic::RRA => reveal_strlit("RRA"),
        Mnemonic::RRC => reveal_strlit("RRC"),
        Mnemonic::RRCA => reveal_strlit("RRCA"),
        Mnemonic::SLA => reveal_strlit("SLA"),
        Mnemonic::SRA => reveal_strlit("SRA"),
        Mnemonic::SRL => reveal_strlit("SRL"),
        Mnemonic::SWAP => reveal_strlit("SWAP"),
        Mnemonic::AND => reveal_strlit("AND"),
        Mnemonic::OR => reveal_strlit("OR"),
        Mnemonic::XOR => reveal_strlit("XOR"),
        Mnemonic::CPL => reveal_strlit("CPL"),
        Mnemonic::BIT => reveal_strlit("BIT"),
        Mnemonic::RES => reveal_strlit("RES"),
        Mnemonic::SET => reveal_strlit("SET"),
        Mnemonic::CALL => reveal_strlit("CALL"),
        Mnemonic::JP => reveal_strlit("JP"),
        Mnemonic::JR => reveal_strlit("JR"),
        Mnemonic::RET => reveal_strlit("RET"),
        Mnemonic::RETI => reveal_strlit("RETI"),
        Mnemonic::RST => reveal_strlit("RST"),
        Mnemonic::DAA => reveal_strlit("DAA"),
        Mnemonic::SCF => reveal_strlit("SCF"),
        Mnemonic::CCF => reveal_strlit("CCF"),
    }
}

proof fn lemma_operand_upper(m: Mnemonic, o: Operand)
    ensures
        no_lower_case(operand_text(m, o)),
        plain(operand_text(m, o)),
        operand_text(m, o).len() > 0,
        operand_text(m, o)[0] == '[' <==> is_reference(o),
{
    match o {
        Operand::A => reveal_strlit("A"),
        Operand::B => reveal_strlit("B"),
        Operand::C => reveal_strlit("C"),
        Operand::D => reveal_strlit("D"),
        Operand::E => reveal_strlit("E"),
        Operand::H => reveal_strlit("H"),
        Operand::L => reveal_strlit("L"),
        Operand::SP => reveal_strlit("SP"),
        Operand::AF => reveal_strlit("AF"),
        Operand::BC => reveal_strlit("BC"),
        Operand::DE => reveal_strlit("DE"),
        Operand::HL => reveal_strlit("HL"),
        Operand::cZ => reveal_strlit("Z"),
        Operand::cNZ => reveal_strlit("NZ"),
        Operand::cC => reveal_strlit("C"),
        Operand::cNC => reveal_strlit("NC"),
        Operand::BCR => reveal_strlit("[BC]"),
        Operand::DER => reveal_strlit("[DE]"),
        Operand::HLR => reveal_strlit("[HL]"),
        Operand::CR => reveal_strlit("[C]"),
        Operand::HLI => reveal_strlit("[HLI]"),
        Operand::HLD => reveal_strlit("[HLD]"),
        Operand::N8(b) => {
            reveal_strlit("$");
            lemma_hex_upper(b, 0);
            lemma_concat("$"@, hex2(b));
        },
        Operand::FF(b) => {
            reveal_strlit("[$FF");
            reveal_strlit("]");
            lemma_hex_upper(b, 0);
            lemma_concat("[$FF"@, hex2(b));
            lemma_concat("[$FF"@ + hex2(b), "]"@);
        },
        Operand::I8(v) => {
            lemma_signed_decimal_digits(v as int);
            if m is LD {
                reveal_strlit("SP");
                reveal_strlit("+");
                let sign = if v < 0 { Seq::<char>::empty() } else { "+"@ };
                assert(no_lower_case(sign));
                assert(plain(sign));
                lemma_concat("SP"@, sign);
                lemma_concat("SP"@ + sign, signed_decimal(v as int));
            }
        },
        Operand::N16(w) => {
            reveal_strlit("$");
            lemma_hex_upper(0, w);
            lemma_concat("$"@, hex4(w));
        },
        Operand::N16R(w) => {
            reveal_strlit("[$");
            reveal_strlit("]");
            lemma_hex_upper(0, w);
            lemma_concat("[$"@, hex4(w));
            lemma_concat("[$"@ + hex4(w), "]"@);
        },
        Operand::Index(i) => lemma_decimal_digits(i as nat),
    }
}

proof fn lemma_operands_upper(m: Mnemonic, ops: Seq<Operand>, comma_space: bool)
    ensures
        no_lower_case(operands_text(m, ops, comma_space)),
    decreases ops.len(),
{
    if ops.len() > 0 {
        lemma_operands_upper(m, ops.drop_last(), comma_space);
        reveal_strlit(" ");
        reveal_strlit(",");
        let sep = separator(ops.len() - 1, comma_space);
        if ops.len() - 1 != 0 && comma_space {
            lemma_concat(","@, " "@);
        }
        assert(no_lower_case(sep));
        lemma_operand_upper(m, ops.last());
        lemma_concat(operands_text(m, ops.drop_last(), comma_space), sep);
        lemma_concat(
            operands_text(m, ops.drop_last(), comma_space) + sep,
            operand_text(m, ops.last()),
        );
    }
}

/// Rendering with `upcase` gives text without lower-case letters (the
/// hexadecimal digits included); rendering without it gives the ASCII
/// lower-case form of that text, which has no upper-case letters.
pub proof fn lemma_render_case(m: Mnemonic, ops: Seq<Operand>, comma_space: bool)
    ensures
        no_lower_case(spec_render(m, ops, true, comma_space)),
        spec_render(m, ops, false, comma_space) == to_lower(spec_render(m, ops, true, comma_space)),
        no_upper_case(spec_render(m, ops, false, comma_space)),
        spec_render(m, ops, false, comma_space).len() == spec_render(m, ops, true, comma_space).len(),
        forall|i: int|
            0 <= i < spec_render(m, ops, true, comma_space).len() ==> {
                let u = #[trigger] spec_render(m, ops, true, comma_space)[i];
                let l = spec_render(m, ops, false, comma_space)[i];
                if 'A' <= u && u <= 'Z' {
                    l as int == u as int + 32
                } else {
                    l == u
                }
            },
{
    lemma_mnemonic_upper(m);
    lemma_operands_upper(m, ops, comma_space);
    lemma_concat(mnemonic_name(m), operands_text(m, ops, comma_space));
    let up = spec_render(m, ops, true, comma_space);
    assert forall|i: int| 0 <= i < to_lower(up).len() implies !('A' <= #[trigger] to_lower(up)[i]
        && to_lower(up)[i] <= 'Z') by {
        assert(to_lower(up)[i] == lower_char(up[i]));
    }
}

/// A text with each comma followed by a space collapsed to the comma alone.
pub open spec fn collapse_comma_spaces(s: Seq<char>) -> Seq<char>
    decreases s.len(),
{
    if s.len() < 2 {
        s
    } else if s[s.len() - 2] == ',' && s.last() == ' ' {
        collapse_comma_spaces(s.take(s.len() - 2)).push(',')
    } else {
        collapse_comma_spaces(s.drop_last()).push(s.last())
    }
}

proof fn lemma_collapse_concat(a: Seq<char>, b: Seq<char>)
    requires
        b.len() == 0 || a.len() == 0 || !(a.last() == ',' && b[0] == ' '),
    ensures
        collapse_comma_spaces(a + b) == collapse_comma_spaces(a) + collapse_comma_spaces(b),
    decreases b.len(),
{
    let s = a + b;
    if b.len() == 0 {
        assert(s =~= a);
    } else if s.len() < 2 {
        assert(a.len() == 0);
        assert(s =~= b);
    } else if b.len() == 1 {
        assert(s.drop_last() =~= a);
        assert(s[s.len() - 2] == a.last());
    } else if s[s.len() - 2] == ',' && s.last() == ' ' {
        let b2 = b.take(b.len() - 2);
        assert(s.take(s.len() - 2) =~= a + b2);
        assert(b2.len() > 0 ==> b2[0] == b[0]);
        lemma_collapse_concat(a, b2);
    } else {
        let b1 = b.drop_last();
        assert(s.drop_last() =~= a + b1);
        assert(b1[0] == b[0]);
        lemma_collapse_concat(a, b1);
    }
}

proof fn lemma_collapse_plain(s: Seq<char>)
    requires
        plain(s),
    ensures
        collapse_comma_spaces(s) == s,
    decreases s.len(),
{
    if s.len() >= 2 {
        assert(s.last() != ' ');
        lemma_collapse_plain(s.drop_last());
        assert(s.drop_last().push(s.last()) =~= s);
    }
}

proof fn lemma_collapse_lower(s: Seq<char>)
    ensures
        collapse_comma_spaces(to_lower(s)) == to_lower(collapse_comma_spaces(s)),
    decreases s.len(),
{
    let t = to_lower(s);
    if s.len() >= 2 {
        assert(t[t.len() - 2] == lower_char(s[s.len() - 2]));
        assert(t.last() == lower_char(s.last()));
        if s[s.len() - 2] == ',' && s.last() == ' ' {
            assert(t.take(t.len() - 2) =~= to_lower(s.take(s.len() - 2)));
            lemma_collapse_lower(s.take(s.len() - 2));
            assert(to_lower(collapse_comma_spaces(s.take(s.len() - 2)).push(','))
                =~= to_lower(collapse_comma_spaces(s.take(s.len() - 2))).push(','));
        } else {
            assert(t.drop_last() =~= to_lower(s.drop_last()));
            lemma_collapse_lower(s.drop_last());
            assert(to_lower(collapse_comma_spaces(s.drop_last()).push(s.last()))
                =~= to_lower(collapse_comma_spaces(s.drop_last())).push(lower_char(s.last())));
        }
    }
}

proof fn lemma_collapse_operands(m: Mnemonic, ops: Seq<Operand>)
    ensures
        collapse_comma_spaces(operands_text(m, ops, true)) == operands_text(m, ops, false),
    decreases ops.len(),
{
    if ops.len() > 0 {
        reveal_strlit(",");
        reveal_strlit(" ");
        let text = operand_text(m, ops.last());
        lemma_operand_upper(m, ops.last());
        lemma_collapse_plain(text);
        let p_true = operands_text(m, ops.drop_last(), true);
        let p_false = operands_text(m, ops.drop_last(), false);
        lemma_collapse_operands(m, ops.drop_last());
        if ops.len() == 1 {
            assert(p_true.len() == 0);
            assert(p_true + separator(0, true) =~= " "@);
            lemma_collapse_concat(" "@, text);
            assert(p_false + separator(0, false) =~= " "@);
        } else {
            let head = p_true + (","@ + " "@);
            assert(head.take(head.len() - 2) =~= p_true);
            assert(collapse_comma_spaces(head) == collapse_comma_spaces(p_true).push(','));
            lemma_collapse_concat(head, text);
            assert(p_false + ","@ =~= p_false.push(','));
        }
    }
}

/// The space after each comma is the only thing `comma_space` changes:
/// rendering without it gives the text rendered with it, with each comma
/// followed by a space collapsed to the comma alone.
pub proof fn lemma_comma_space(m: Mnemonic, ops: Seq<Operand>, upcase: bool)
    ensures
        spec_render(m, ops, upcase, false) == collapse_comma_spaces(
            spec_render(m, ops, upcase, true),
        ),
{
    let name = mnemonic_name(m);
    lemma_mnemonic_upper(m);
    lemma_collapse_plain(name);
    lemma_collapse_operands(m, ops);
    let t = operands_text(m, ops, true);
    if name.len() > 0 {
        assert(name.last() != ',');
    }
    lemma_collapse_concat(name, t);
    if !upcase {
        lemma_collapse_lower(name + t);
    }
}

/// An operand is a memory reference exactly when its text is in brackets,
/// that is, starts with `[`.
pub proof fn lemma_reference_in_brackets(m: Mnemonic, o: Operand)
    ensures
        operand_text(m, o).len() > 0,
        operand_text(m, o)[0] == '[' <==> is_reference(o),
{
    lemma_operand_upper(m, o);
}

/// Distinct bytes after the `$CB` prefix select distinct operations.
pub proof fn lemma_cb_one_to_one(a: u8, b: u8)
    requires
        spec_cb(a) == spec_cb(b),
    ensures
        a == b,
{
    let (xa, ya, za) = (a as int / 64, (a as int / 8) % 8, a as int % 8);
    let (xb, yb, zb) = (b as int / 64, (b as int / 8) % 8, b as int % 8);
    // The register is the last operand, so the low three bits agree.
    assert(spec_cb(a).1.last() == register(za));
    assert(spec_cb(b).1.last() == register(zb));
    assert(0 <= za < 8 && 0 <= zb < 8);
    assert(za == zb);
    // Rotations hold one operand, bit operations two; each mnemonic belongs to one kind.
    assert(spec_cb(a).1.len() == spec_cb(b).1.len());
    assert(xa == xb);
    if xa == 0 {
        assert(ya == yb);
    } else {
        assert(spec_cb(a).1[0] == spec_cb(b).1[0]);
        assert(ya == yb);
    }
    assert(a == 64 * xa + 8 * ya + za) by (nonlinear_arith)
        requires
            xa == a as int / 64,
            ya == (a as int / 8) % 8,
            za == a as int % 8,
            0 <= a < 256,
    ;
    assert(b == 64 * xb + 8 * yb + zb) by (nonlinear_arith)
        requires
            xb == b as int / 64,
            yb == (b as int / 8) % 8,
            zb == b as int % 8,
            0 <= b < 256,
    ;
}

/// Every operation of the `$CB` table is two bytes long: the prefix and the
/// byte that selects it.
pub proof fn lemma_cb_length(b: u8)
    ensures
        spec_next_offset(spec_cb(b).0, spec_cb(b).1) == 2,
{
    reveal_with_fuel(operands_size, 3);
}

/// The preferences change only the text: the length of a disassembled
/// operation, and the error where there is one, are the same for all of them.
pub proof fn lemma_preferences_change_only_text(
    decoding: Result<(Mnemonic, Seq<Operand>), Seq<char>>,
    upcase1: bool,
    comma_space1: bool,
    upcase2: bool,
    comma_space2: bool,
)
    ensures
        spec_disassembly(decoding, upcase1, comma_space1) is Ok <==> spec_disassembly(
            decoding,
            upcase2,
            comma_space2,
        ) is Ok,
        spec_disassembly(decoding, upcase1, comma_space1) is Ok ==> spec_disassembly(
            decoding,
            upcase1,
            comma_space1,
        )->Ok_0.0 == spec_disassembly(decoding, upcase2, comma_space2)->Ok_0.0,
        spec_disassembly(decoding, upcase1, comma_space1) is Err ==> spec_disassembly(
            decoding,
            upcase1,
            comma_space1,
        ) == spec_disassembly(decoding, upcase2, comma_space2),
{
}

/// A word of a `SimpleBus` is there exactly where both of its bytes are, and
/// it is read little-endian: the byte at `addr` is its low byte, the next one
/// its high byte.
pub proof fn lemma_word_is_two_bytes(data: Seq<u8>, addr: u16)
    ensures
        word_at(data, addr as int) is Some <==> (byte_at(data, addr as int) is Some && byte_at(
            data,
            addr + 1,
        ) is Some),
        word_at(data, addr as int) is Some ==> word_at(data, addr as int)->Some_0 == byte_at(
            data,
            addr + 1,
        )->Some_0 as int * 256 + byte_at(data, addr as int)->Some_0 as int,
{
}

/// Decoding at `addr` over the bytes `data`, as a `SimpleBus` over them
/// decodes.
pub open spec fn decode_in(data: Seq<u8>, addr: u16) -> Result<(Mnemonic, Seq<Operand>), Seq<char>> {
    spec_decode_at(
        addr,
        byte_at(data, addr as int),
        byte_at(data, address_after(addr) as int),
        word_at(data, address_after(addr) as int),
    )
}

/// The length of a decoded operation is the number of bytes it takes from the
/// data: the operation lies inside the data, decoding the data cut just after
/// it gives the same operation, and decoding the data cut one byte earlier
/// fails. (At `$FFFF` the operand would be read at `$0000`, so that address is
/// left out.)
pub proof fn lemma_length_is_bytes_consumed(data: Seq<u8>, addr: u16)
    requires
        addr < 0xFFFF,
        decode_in(data, addr) is Ok,
    ensures
        ({
            let (m, ops) = decode_in(data, addr)->Ok_0;
            let end = addr + spec_next_offset(m, ops);
            &&& end <= data.len()
            &&& decode_in(data.take(end), addr) == decode_in(data, addr)
            &&& decode_in(data.take(end - 1), addr) is Err
        }),
{
    let op = byte_at(data, addr as int)->Some_0;
    let a = addr as int;
    lemma_decoded_length(op, byte_at(data, a + 1), word_at(data, a + 1));
    let (m, ops) = decode_in(data, addr)->Ok_0;
    let end = a + spec_next_offset(m, ops);
    let cut = data.take(end);
    let short = data.take(end - 1);
    assert(a < data.len());
    if end >= a + 2 {
        assert(a + 1 < data.len());
    }
    if end == a + 3 {
        assert(a + 2 < data.len());
    }
    assert(end <= data.len());
    assert(cut[a] == data[a]);
    if end >= a + 2 {
        assert(cut[a + 1] == data[a + 1]);
    }
    if end == a + 3 {
        assert(cut[a + 2] == data[a + 2]);
    }
    if end >= a + 2 {
        assert(short[a] == data[a]);
    }
}

/// The value of a decimal digit (`0`..`9`); -1 for any other character.
pub open spec fn digit_value(c: char) -> int {
    if '0' <= c && c <= '9' {
        c as int - 48
    } else {
        -1
    }
}

/// The value of a hexadecimal digit (`0`..`9`, `A`..`F`); -1 for any other
/// character.
pub open spec fn hex_digit_value(c: char) -> int {
    if '0' <= c && c <= '9' {
        c as int - 48
    } else if 'A' <= c && c <= 'F' {
        c as int - 55
    } else {
        -1
    }
}

/// A text made of decimal digits only.
pub open spec fn all_digits(s: Seq<char>) -> bool {
    forall|i: int| 0 <= i < s.len() ==> digit_value(#[trigger] s[i]) >= 0
}

/// A text made of hexadecimal digits only.
pub open spec fn all_hex_digits(s: Seq<char>) -> bool {
    forall|i: int| 0 <= i < s.len() ==> hex_digit_value(#[trigger] s[i]) >= 0
}

/// The number that a text of decimal digits denotes, most significant first.
pub open spec fn decimal_value(s: Seq<char>) -> int
    decreases s.len(),
{
    if s.len() == 0 {
        0
    } else {
        decimal_value(s.drop_last()) * 10 + digit_value(s.last())
    }
}

/// The number that a decimal text with an optional leading `-` denotes.
pub open spec fn signed_value(s: Seq<char>) -> int {
    if s.len() > 0 && s[0] == '-' {
        -decimal_value(s.drop_first())
    } else {
        decimal_value(s)
    }
}

/// The number that a text of hexadecimal digits denotes, most significant first.
pub open spec fn hex_value(s: Seq<char>) -> int
    decreases s.len(),
{
    if s.len() == 0 {
        0
    } else {
        hex_value(s.drop_last()) * 16 + hex_digit_value(s.last())
    }
}

/// The decimal numeral of `n` is made of digits, has no leading zero (but for
/// `0` itself), and reads back as `n`.
pub proof fn lemma_decimal_denotes(n: nat)
    ensures
        decimal(n).len() > 0,
        all_digits(decimal(n)),
        decimal_value(decimal(n)) == n,
        decimal(n)[0] == '0' ==> n == 0,
    decreases n,
{
    if n >= 10 {
        lemma_decimal_denotes(n / 10);
        let d = decimal(n);
        assert(d.drop_last() =~= decimal(n / 10));
        assert(d[0] == decimal(n / 10)[0]);
        assert(digit_value(d.last()) == n % 10);
        assert(decimal_value(d) == decimal_value(d.drop_last()) * 10 + digit_value(d.last()));
        assert(decimal_value(d.drop_last()) == n / 10);
        assert((n / 10) * 10 + n % 10 == n);
        assert forall|i: int| 0 <= i < d.len() implies digit_value(#[trigger] d[i]) >= 0 by {
            if i < d.len() - 1 {
                assert(d[i] == decimal(n / 10)[i]);
            }
        }
    } else {
        let d = decimal(n);
        assert(d.drop_last().len() == 0);
        assert(decimal_value(d.drop_last()) == 0);
        assert(digit_value(d.last()) == n);
        assert(decimal_value(d) == decimal_value(d.drop_last()) * 10 + digit_value(d.last()));
    }
}

/// The signed decimal numeral of `v` reads back as `v`, and starts with `-`
/// exactly when `v` is negative.
pub proof fn lemma_signed_decimal_denotes(v: int)
    ensures
        signed_decimal(v).len() > 0,
        signed_value(signed_decimal(v)) == v,
        signed_decimal(v)[0] == '-' <==> v < 0,
{
    if v < 0 {
        lemma_decimal_denotes((-v) as nat);
        assert((seq!['-'] + decimal((-v) as nat)).drop_first() =~= decimal((-v) as nat));
    } else {
        lemma_decimal_denotes(v as nat);
    }
}

/// The hexadecimal numerals of a byte and of a word are made of the digits
/// `0`..`9`, `A`..`F`, and read back as the byte and the word.
pub proof fn lemma_hex_denotes(b: u8, w: u16)
    ensures
        hex2(b).len() == 2,
        hex4(w).len() == 4,
        all_hex_digits(hex2(b)),
        all_hex_digits(hex4(w)),
        hex_value(hex2(b)) == b,
        hex_value(hex4(w)) == w,
{
    let h = hex2(b);
    assert(h.drop_last().drop_last().len() == 0);
    assert(h.drop_last() =~= seq![h[0]]);
    assert(hex_digit_value(h[0]) == b / 16);
    assert(hex_digit_value(h[1]) == b % 16);
    assert(hex_value(h.drop_last().drop_last()) == 0);
    assert(hex_value(h.drop_last()) == b / 16);
    assert(hex_value(h) == (b / 16) * 16 + b % 16);
    assert(forall|i: int| 0 <= i < 2 ==> hex_digit_value(#[trigger] h[i]) >= 0);
    let k = hex4(w);
    let k3 = k.drop_last();
    let k2 = k3.drop_last();
    let k1 = k2.drop_last();
    assert(k1 =~= seq![k[0]]);
    assert(k1.drop_last().len() == 0);
    assert(k2 =~= seq![k[0], k[1]]);
    assert(k3 =~= seq![k[0], k[1], k[2]]);
    assert(hex_digit_value(k[0]) == w / 4096);
    assert(hex_digit_value(k[1]) == (w / 256) % 16);
    assert(hex_digit_value(k[2]) == (w / 16) % 16);
    assert(hex_digit_value(k[3]) == w % 16);
    assert(hex_value(k1.drop_last()) == 0);
    assert(hex_value(k1) == w / 4096);
    assert(hex_value(k2) == (w / 4096) * 16 + (w / 256) % 16);
    assert(hex_value(k3) == ((w / 4096) * 16 + (w / 256) % 16) * 16 + (w / 16) % 16);
    assert(hex_value(k) == (((w / 4096) * 16 + (w / 256) % 16) * 16 + (w / 16) % 16) * 16 + w % 16);
    assert(forall|i: int| 0 <= i < 4 ==> hex_digit_value(#[trigger] k[i]) >= 0);
    assert((((w / 4096) * 16 + (w / 256) % 16) * 16 + (w / 16) % 16) * 16 + w % 16 == w)
        by (bit_vector);
}

/// Whether the operand carries a value.
pub open spec fn has_payload(o: Operand) -> bool {
    o is N8 || o is I8 || o is N16 || o is N16R || o is FF || o is Index
}

/// Whether two operands are the same variant (with any values).
pub open spec fn same_variant(a: Operand, b: Operand) -> bool {
    match a {
        Operand::N8(_) => b is N8,
        Operand::I8(_) => b is I8,
        Operand::N16(_) => b is N16,
        Operand::N16R(_) => b is N16R,
        Operand::FF(_) => b is FF,
        Operand::Index(_) => b is Index,
        _ => a == b,
    }
}

/// The text of an operand's value.
pub open spec fn payload_text(o: Operand) -> Seq<char> {
    match o {
        Operand::N8(v) => decimal(v as nat),
        Operand::I8(v) => signed_decimal(v as int),
        Operand::N16(v) => decimal(v as nat),
        Operand::N16R(v) => decimal(v as nat),
        Operand::FF(v) => decimal(v as nat),
        Operand::Index(v) => decimal(v as nat),
        _ => Seq::empty(),
    }
}

/// A text without an opening parenthesis.
pub open spec fn no_paren(s: Seq<char>) -> bool {
    forall|i: int| 0 <= i < s.len() ==> #[trigger] s[i] != '('
}

proof fn lemma_label_has_no_paren(o: Operand)
    ensures
        no_paren(operand_label(o)),
        operand_label(o).len() > 0,
{
    match o {
        Operand::A => reveal_strlit("A"),
        Operand::B => reveal_strlit("B"),
        Operand::C => reveal_strlit("C"),
        Operand::CR => reveal_strlit("CR"),
        Operand::D => reveal_strlit("D"),
        Operand::E => reveal_strlit("E"),
        Operand::H => reveal_strlit("H"),
        Operand::L => reveal_strlit("L"),
        Operand::SP => reveal_strlit("SP"),
        Operand::AF => reveal_strlit("AF"),
        Operand::BC => reveal_strlit("BC"),
        Operand::BCR => reveal_strlit("BCR"),
        Operand::DE => reveal_strlit("DE"),
        Operand::DER => reveal_strlit("DER"),
        Operand::HL => reveal_strlit("HL"),
        Operand::HLR => reveal_strlit("HLR"),
        Operand::HLI => reveal_strlit("HLI"),
        Operand::HLD => reveal_strlit("HLD"),
        Operand::cZ => reveal_strlit("cZ"),
        Operand::cNZ => reveal_strlit("cNZ"),
        Operand::cC => reveal_strlit("cC"),
        Operand::cNC => reveal_strlit("cNC"),
        Operand::N8(_) => reveal_strlit("N8"),
        Operand::I8(_) => reveal_strlit("I8"),
        Operand::N16(_) => reveal_strlit("N16"),
        Operand::N16R(_) => reveal_strlit("N16R"),
        Operand::FF(_) => reveal_strlit("FF"),
        Operand::Index(_) => reveal_strlit("Index"),
    }
}

/// The letters of an operand's name.
pub open spec fn spelling(o: Operand) -> Seq<char> {
    match o {
        Operand::A => seq!['A'],
        Operand::B => seq!['B'],
        Operand::C => seq!['C'],
        Operand::CR => seq!['C', 'R'],
        Operand::D => seq!['D'],
        Operand::E => seq!['E'],
        Operand::H => seq!['H'],
        Operand::L => seq!['L'],
        Operand::SP => seq!['S', 'P'],
        Operand::AF => seq!['A', 'F'],
        Operand::BC => seq!['B', 'C'],
        Operand::BCR => seq!['B', 'C', 'R'],
        Operand::DE => seq!['D', 'E'],
        Operand::DER => seq!['D', 'E', 'R'],
        Operand::HL => seq!['H', 'L'],
        Operand::HLR => seq!['H', 'L', 'R'],
        Operand::HLI => seq!['H', 'L', 'I'],
        Operand::HLD => seq!['H', 'L', 'D'],
        Operand::cZ => seq!['c', 'Z'],
        Operand::cNZ => seq!['c', 'N', 'Z'],
        Operand::cC => seq!['c', 'C'],
        Operand::cNC => seq!['c', 'N', 'C'],
        Operand::N8(_) => seq!['N', '8'],
        Operand::I8(_) => seq!['I', '8'],
        Operand::N16(_) => seq!['N', '1', '6'],
        Operand::N16R(_) => seq!['N', '1', '6', 'R'],
        Operand::FF(_) => seq!['F', 'F'],
        Operand::Index(_) => seq!['I', 'n', 'd', 'e', 'x'],
    }
}

/// The name of each operand is the name of its variant, letter for letter.
pub proof fn lemma_label_spelling(o: Operand)
    ensures
        operand_label(o) == spelling(o),
{
    match o {
        Operand::A => {
            reveal_strlit("A");
            assert(operand_label(o) =~= seq!['A']);
        },
        Operand::B => {
            reveal_strlit("B");
            assert(operand_label(o) =~= seq!['B']);
        },
        Operand::C => {
            reveal_strlit("C");
            assert(operand_label(o) =~= seq!['C']);
        },
        Operand::CR => {
            reveal_strlit("CR");
            assert(operand_label(o) =~= seq!['C', 'R']);
        },
        Operand::D => {
            reveal_strlit("D");
            assert(operand_label(o) =~= seq!['D']);
        },
        Operand::E => {
            reveal_strlit("E");
            assert(operand_label(o) =~= seq!['E']);
        },
        Operand::H => {
            reveal_strlit("H");
            assert(operand_label(o) =~= seq!['H']);
        },
        Operand::L => {
            reveal_strlit("L");
            assert(operand_label(o) =~= seq!['L']);
        },
        Operand::SP => {
            reveal_strlit("SP");
            assert(operand_label(o) =~= seq!['S', 'P']);
        },
        Operand::AF => {
            reveal_strlit("AF");
            assert(operand_label(o) =~= seq!['A', 'F']);
        },
        Operand::BC => {
            reveal_strlit("BC");
            assert(operand_label(o) =~= seq!['B', 'C']);
        },
        Operand::BCR => {
            reveal_strlit("BCR");
            assert(operand_label(o) =~= seq!['B', 'C', 'R']);
        },
        Operand::DE => {
            reveal_strlit("DE");
            assert(operand_label(o) =~= seq!['D', 'E']);
        },
        Operand::DER => {
            reveal_strlit("DER");
            assert(operand_label(o) =~= seq!['D', 'E', 'R']);
        },
        Operand::HL => {
            reveal_strlit("HL");
            assert(operand_label(o) =~= seq!['H', 'L']);
        },
        Operand::HLR => {
            reveal_strlit("HLR");
            assert(operand_label(o) =~= seq!['H', 'L', 'R']);
        },
        Operand::HLI => {
            reveal_strlit("HLI");
            assert(operand_label(o) =~= seq!['H', 'L', 'I']);
        },
        Operand::HLD => {
            reveal_strlit("HLD");
            assert(operand_label(o) =~= seq!['H', 'L', 'D']);
        },
        Operand::cZ => {
            reveal_strlit("cZ");
            assert(operand_label(o) =~= seq!['c', 'Z']);
        },
        Operand::cNZ => {
            reveal_strlit("cNZ");
            assert(operand_label(o) =~= seq!['c', 'N', 'Z']);
        },
        Operand::cC => {
            reveal_strlit("cC");
            assert(operand_label(o) =~= seq!['c', 'C']);
        },
        Operand::cNC => {
            reveal_strlit("cNC");
            assert(operand_label(o) =~= seq!['c', 'N', 'C']);
        },
        Operand::N8(_) => {
            reveal_strlit("N8");
            assert(operand_label(o) =~= seq!['N', '8']);
        },
        Operand::I8(_) => {
            reveal_strlit("I8");
            assert(operand_label(o) =~= seq!['I', '8']);
        },
        Operand::N16(_) => {
            reveal_strlit("N16");
            assert(operand_label(o) =~= seq!['N', '1', '6']);
        },
        Operand::N16R(_) => {
            reveal_strlit("N16R");
            assert(operand_label(o) =~= seq!['N', '1', '6', 'R']);
        },
        Operand::FF(_) => {
            reveal_strlit("FF");
            assert(operand_label(o) =~= seq!['F', 'F']);
        },
        Operand::Index(_) => {
            reveal_strlit("Index");
            assert(operand_label(o) =~= seq!['I', 'n', 'd', 'e', 'x']);
        },
    }
}

proof fn lemma_label_injective(a: Operand, b: Operand)
    requires
        operand_label(a) == operand_label(b),
    ensures
        same_variant(a, b),
{
    lemma_label_spelling(a);
    lemma_label_spelling(b);
    let sa = spelling(a);
    let sb = spelling(b);
    assert(sa.len() == sb.len());
    assert(sa[0] == sb[0]);
    assert(sa.len() > 1 ==> sa[1] == sb[1]);
    assert(sa.len() > 2 ==> sa[2] == sb[2]);
    assert(sa.len() > 3 ==> sa[3] == sb[3]);
    assert(sa.len() > 4 ==> sa[4] == sb[4]);
}

/// Distinct operands have distinct textual forms: the name of an operand,
/// with its value in decimal where it has one, tells the operand.
pub proof fn lemma_operand_names_distinct(a: Operand, b: Operand)
    requires
        operand_name(a) == operand_name(b),
    ensures
        a == b,
{
    reveal_strlit("(");
    reveal_strlit(")");
    let n = operand_name(a);
    let la = operand_label(a);
    let lb = operand_label(b);
    lemma_label_has_no_paren(a);
    lemma_label_has_no_paren(b);
    if has_payload(a) {
        assert(n =~= la + ("("@ + payload_text(a) + ")"@));
        assert(n[la.len() as int] == '(');
        assert(n.take(la.len() as int) =~= la);
    } else {
        assert(n == la);
    }
    if has_payload(b) {
        assert(n =~= lb + ("("@ + payload_text(b) + ")"@));
        assert(n[lb.len() as int] == '(');
        assert(n.take(lb.len() as int) =~= lb);
    } else {
        assert(n == lb);
    }
    if has_payload(a) && has_payload(b) {
        if la.len() < lb.len() {
            assert(lb[la.len() as int] == n[la.len() as int]);
        } else if lb.len() < la.len() {
            assert(la[lb.len() as int] == n[lb.len() as int]);
        }
        assert(la == lb);
        lemma_label_injective(a, b);
        let k = la.len() as int;
        assert(n.subrange(k + 1, n.len() - 1) =~= payload_text(a));
        assert(n.subrange(k + 1, n.len() - 1) =~= payload_text(b));
        match a {
            Operand::I8(v) => {
                lemma_signed_decimal_denotes(v as int);
                lemma_signed_decimal_denotes(b->I8_0 as int);
            },
            Operand::N8(v) => {
                lemma_decimal_denotes(v as nat);
                lemma_decimal_denotes(b->N8_0 as nat);
            },
            Operand::N16(v) => {
                lemma_decimal_denotes(v as nat);
                lemma_decimal_denotes(b->N16_0 as nat);
            },
            Operand::N16R(v) => {
                lemma_decimal_denotes(v as nat);
                lemma_decimal_denotes(b->N16R_0 as nat);
            },
            Operand::FF(v) => {
                lemma_decimal_denotes(v as nat);
                lemma_decimal_denotes(b->FF_0 as nat);
            },
            Operand::Index(v) => {
                lemma_decimal_denotes(v as nat);
                lemma_decimal_denotes(b->Index_0 as nat);
            },
            _ => {},
        }
    } else if has_payload(a) {
        assert(lb[la.len() as int] == '(');
    } else if has_payload(b) {
        assert(la[lb.len() as int] == '(');
    } else {
        lemma_label_injective(a, b);
    }
}

/// The address that follows `addr` in the 16-bit address space.
pub open spec fn address_after(addr: u16) -> u16 {
    ((addr as int + 1) % 0x10000) as u16
}

/// The number that disassembly gives back is the length of the operation at
/// `addr`, whatever `addr` is: one byte for the opcode, and the byte or word
/// read after it (one more byte for `$CB` and 8-bit immediates, two for 16-bit
/// ones). It is the length of the decoded operation, between 1 and 3.
pub proof fn lemma_disassembly_length<Bus: MemoryBus>(
    bus: &Bus,
    addr: u16,
    upcase: bool,
    comma_space: bool,
)
    requires
        spec_disassemble_on(bus, addr, upcase, comma_space) is Ok,
    ensures
        bus.spec_byte(addr) is Some,
        spec_decode_on(bus, addr) is Ok,
        ({
            let n = spec_disassemble_on(bus, addr, upcase, comma_space)->Ok_0.0;
            let (m, ops) = spec_decode_on(bus, addr)->Ok_0;
            &&& n == 1 + fetch_size(spec_fetch(bus.spec_byte(addr)->Some_0))
            &&& n == spec_next_offset(m, ops)
            &&& 1 <= n <= 3
        }),
{
    let op = bus.spec_byte(addr)->Some_0;
    lemma_decoded_length(
        op,
        bus.spec_byte(next_address(addr)),
        bus.spec_word(next_address(addr)),
    );
}

/// Decoding reads the opcode at `addr` and its operand right after it: each
/// immediate of the decoded operation is the byte (or the word) that the bus
/// holds at the address after `addr`, and after the `$CB` prefix the
/// operation is the one that the byte there selects.
pub proof fn lemma_immediates_read_after_opcode<Bus: MemoryBus>(bus: &Bus, addr: u16, i: int)
    requires
        spec_decode_on(bus, addr) is Ok,
        0 <= i < spec_decode_on(bus, addr)->Ok_0.1.len(),
    ensures
        ({
            let (m, ops) = spec_decode_on(bus, addr)->Ok_0;
            let next = address_after(addr);
            &&& bus.spec_byte(addr) == Some(0xCBu8) ==> bus.spec_byte(next) is Some && (m, ops)
                == spec_cb(bus.spec_byte(next)->Some_0)
            &&& match ops[i] {
                Operand::N8(v) => m is RST || bus.spec_byte(next) == Some(v),
                Operand::FF(v) => bus.spec_byte(next) == Some(v),
                Operand::I8(v) => bus.spec_byte(next) is Some && bus.spec_byte(next)->Some_0 as i8
                    == v,
                Operand::N16(w) => bus.spec_word(next) == Some(w),
                Operand::N16R(w) => bus.spec_word(next) == Some(w),
                _ => true,
            }
        }),
{
    assert(address_after(addr) == next_address(addr));
}

/// A `SimpleBus` decodes the operation that its bytes hold: the opcode is the
/// byte at `addr`, and its operand starts at the address after it.
pub proof fn lemma_simple_bus_decodes_its_data(bus: &SimpleBus, addr: u16)
    ensures
        spec_decode_on(bus, addr) == decode_in(bus@, addr),
{
    assert(address_after(addr) == next_address(addr));
}

/// Branch conditions are exactly the operands whose names start with `c`.
pub proof fn lemma_condition_names(o: Operand)
    ensures
        operand_label(o)[0] == 'c' <==> is_condition_operand(o),
{
    lemma_label_spelling(o);
}

proof fn lemma_hex_value_four(s: Seq<char>)
    requires
        s.len() == 4,
    ensures
        hex_value(s) == ((hex_digit_value(s[0]) * 16 + hex_digit_value(s[1])) * 16 + hex_digit_value(
            s[2],
        )) * 16 + hex_digit_value(s[3]),
{
    let s3 = s.drop_last();
    let s2 = s3.drop_last();
    let s1 = s2.drop_last();
    assert(s1.drop_last().len() == 0);
    assert(hex_value(s1.drop_last()) == 0);
    assert(s1.last() == s[0] && s2.last() == s[1] && s3.last() == s[2] && s.last() == s[3]);
    assert(hex_value(s1) == hex_digit_value(s[0]));
    assert(hex_value(s2) == hex_digit_value(s[0]) * 16 + hex_digit_value(s[1]));
    assert(hex_value(s3) == (hex_digit_value(s[0]) * 16 + hex_digit_value(s[1])) * 16
        + hex_digit_value(s[2]));
}

/// The text of an immediate denotes its value: `$` and the hexadecimal
/// digits of an 8- or 16-bit immediate; `[$` and the hexadecimal address in
/// brackets for a reference through an address, `$FF00` plus the byte for the
/// `$FF` page; the decimal of a bit index; the signed decimal of an offset,
/// after `SP` and a `+` for non-negative offsets where the mnemonic is `LD`.
pub proof fn lemma_immediate_text_denotes(m: Mnemonic, o: Operand)
    ensures
        ({
            let t = operand_text(m, o);
            match o {
                Operand::N8(b) => t[0] == '$' && all_hex_digits(t.drop_first()) && hex_value(
                    t.drop_first(),
                ) == b,
                Operand::N16(w) => t[0] == '$' && all_hex_digits(t.drop_first()) && hex_value(
                    t.drop_first(),
                ) == w,
                Operand::N16R(w) => t.len() == 7 && t[0] == '[' && t[1] == '$' && t[6] == ']'
                    && all_hex_digits(t.subrange(2, 6)) && hex_value(t.subrange(2, 6)) == w,
                Operand::FF(b) => t.len() == 7 && t[0] == '[' && t[1] == '$' && t[6] == ']'
                    && all_hex_digits(t.subrange(2, 6)) && hex_value(t.subrange(2, 6)) == 0xFF00
                    + b,
                Operand::I8(v) => if m is LD {
                    &&& t.len() > 2 && t[0] == 'S' && t[1] == 'P'
                    &&& v >= 0 ==> t[2] == '+' && decimal_value(t.skip(3)) == v
                    &&& v < 0 ==> signed_value(t.skip(2)) == v
                } else {
                    signed_value(t) == v
                },
                Operand::Index(i) => all_digits(t) && decimal_value(t) == i,
                _ => true,
            }
        }),
{
    let t = operand_text(m, o);
    match o {
        Operand::N8(b) => {
            reveal_strlit("$");
            lemma_hex_denotes(b, 0);
            assert(t.drop_first() =~= hex2(b));
        },
        Operand::N16(w) => {
            reveal_strlit("$");
            lemma_hex_denotes(0, w);
            assert(t.drop_first() =~= hex4(w));
        },
        Operand::N16R(w) => {
            reveal_strlit("[$");
            reveal_strlit("]");
            lemma_hex_denotes(0, w);
            assert(t.subrange(2, 6) =~= hex4(w));
        },
        Operand::FF(b) => {
            reveal_strlit("[$FF");
            reveal_strlit("]");
            lemma_hex_denotes(b, 0);
            let h = t.subrange(2, 6);
            assert(h =~= seq!['F', 'F'] + hex2(b));
            lemma_hex_value_four(h);
            assert(hex_digit_value(h[0]) == 15);
            assert(hex_digit_value(h[1]) == 15);
            let g = hex2(b);
            assert(g.drop_last().drop_last().len() == 0);
            assert(hex_value(g.drop_last().drop_last()) == 0);
            assert(hex_value(g.drop_last()) == hex_digit_value(g[0]));
            assert(h[2] == g[0] && h[3] == g[1]);
            assert(forall|i: int| 0 <= i < 4 ==> hex_digit_value(#[trigger] h[i]) >= 0) by {
                assert(forall|i: int| 0 <= i < 2 ==> hex_digit_value(#[trigger] g[i]) >= 0);
            }
        },
        Operand::I8(v) => {
            lemma_signed_decimal_denotes(v as int);
            if m is LD {
                reveal_strlit("SP");
                reveal_strlit("+");
                if v >= 0 {
                    lemma_decimal_denotes(v as nat);
                    assert(t.skip(3) =~= decimal(v as nat));
                } else {
                    assert(t.skip(2) =~= signed_decimal(v as int));
                }
            }
        },
        Operand::Index(i) => {
            lemma_decimal_denotes(i as nat);
        },
        _ => {},
    }
}

/// How the operand classes relate: no operand is both an 8-bit and a 16-bit
/// quantity; every memory reference designates a byte; an immediate carries a
/// value and is no reference; a branch condition is neither a quantity, a
/// register, a reference nor an immediate; the 8-bit registers are exactly the
/// 8-bit quantities named by one letter.
pub proof fn lemma_operand_classes(o: Operand)
    ensures
        !(is_8bit_operand(o) && is_16bit_operand(o)),
        is_reference(o) ==> is_8bit_operand(o),
        is_immediate_operand(o) ==> has_payload(o) && !is_reference(o),
        is_condition_operand(o) ==> !is_8bit_operand(o) && !is_16bit_operand(o)
            && !is_register_operand(o) && !is_reference(o) && !is_immediate_operand(o),
        (is_8bit_operand(o) && is_register_operand(o)) <==> (is_8bit_operand(o) && !has_payload(o)
            && operand_label(o).len() == 1),
{
    lemma_label_spelling(o);
}

} // verus!
