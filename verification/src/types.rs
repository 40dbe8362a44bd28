//! The symbolic form of a Game Boy operation: mnemonics, operands and the
//! preferences that steer their textual form.
use vstd::prelude::*;

use crate::text::{decimal, signed_decimal};

verus! {

/// Symbolic representation of all Game Boy operation mnemonics
#[derive(Debug, Clone, Copy, PartialEq, Eq, Structural)]
pub enum Mnemonic {
    NOP,
    STOP,
    HALT,
    DI,
    EI,

    LD,
    LDH,
    PUSH,
    POP,

    INC,
    DEC,
    ADD,
    ADC,
    SUB,
    SBC,
    CP,

    RL,
    RLA,
    RLC,
    RLCA,
    RR,
    RRA,
    RRC,
    RRCA,
    SLA,
    SRA,
    SRL,
    SWAP,

    AND,
    OR,
    XOR,
    CPL,

    BIT,
    RES,
    SET,

    CALL,
    JP,
    JR,
    RET,
    RETI,
    RST,

    DAA,
    SCF,
    CCF,
}

/// The name of a mnemonic, as its textual form prints it.
pub open spec fn mnemonic_name(m: Mnemonic) -> Seq<char> {
    match m {
        Mnemonic::NOP => "NOP"@,
        Mnemonic::STOP => "STOP"@,
        Mnemonic::HALT => "HALT"@,
        Mnemonic::DI => "DI"@,
        Mnemonic::EI => "EI"@,
        Mnemonic::LD => "LD"@,
        Mnemonic::LDH => "LDH"@,
        Mnemonic::PUSH => "PUSH"@,
        Mnemonic::POP => "POP"@,
        Mnemonic::INC => "INC"@,
        Mnemonic::DEC => "DEC"@,
        Mnemonic::ADD => "ADD"@,
        Mnemonic::ADC => "ADC"@,
        Mnemonic::SUB => "SUB"@,
        Mnemonic::SBC => "SBC"@,
        Mnemonic::CP => "CP"@,
        Mnemonic::RL => "RL"@,
        Mnemonic::RLA => "RLA"@,
        Mnemonic::RLC => "RLC"@,
        Mnemonic::RLCA => "RLCA"@,
        Mnemonic::RR => "RR"@,
        Mnemonic::RRA => "RRA"@,
        Mnemonic::RRC => "RRC"@,
        Mnemonic::RRCA => "RRCA"@,
        Mnemonic::SLA => "SLA"@,
        Mnemonic::SRA => "SRA"@,
        Mnemonic::SRL => "SRL"@,
        Mnemonic::SWAP => "SWAP"@,
        Mnemonic::AND => "AND"@,
        Mnemonic::OR => "OR"@,
        Mnemonic::XOR => "XOR"@,
        Mnemonic::CPL => "CPL"@,
        Mnemonic::BIT => "BIT"@,
        Mnemonic::RES => "RES"@,
        Mnemonic::SET => "SET"@,
        Mnemonic::CALL => "CALL"@,
        Mnemonic::JP => "JP"@,
        Mnemonic::JR => "JR"@,
        Mnemonic::RET => "RET"@,
        Mnemonic::RETI => "RETI"@,
        Mnemonic::RST => "RST"@,
        Mnemonic::DAA => "DAA"@,
        Mnemonic::SCF => "SCF"@,
        Mnemonic::CCF => "CCF"@,
    }
}

impl Mnemonic {
    /// Whether the mnemonic transfers control (calls, returns, jumps, restarts).
    pub fn is_jump(&self) -> (r: bool)
        ensures
            r == (*self is CALL || *self is RET || *self is RETI || *self is JP || *self is JR
                || *self is RST),
    {
        match self {
            Mnemonic::CALL | Mnemonic::RET | Mnemonic::RETI | Mnemonic::JP | Mnemonic::JR
            | Mnemonic::RST => true,
            _ => false,
        }
    }

    /// The mnemonic's name as a static string.
    pub fn name(&self) -> (s: &'static str)
        ensures
            s@ == mnemonic_name(*self),
    {
        match self {
            Mnemonic::NOP => "NOP",
            Mnemonic::STOP => "STOP",
            Mnemonic::HALT => "HALT",
            Mnemonic::DI => "DI",
            Mnemonic::EI => "EI",
            Mnemonic::LD => "LD",
            Mnemonic::LDH => "LDH",
            Mnemonic::PUSH => "PUSH",
            Mnemonic::POP => "POP",
            Mnemonic::INC => "INC",
            Mnemonic::DEC => "DEC",
            Mnemonic::ADD => "ADD",
            Mnemonic::ADC => "ADC",
            Mnemonic::SUB => "SUB",
            Mnemonic::SBC => "SBC",
            Mnemonic::CP => "CP",
            Mnemonic::RL => "RL",
            Mnemonic::RLA => "RLA",
            Mnemonic::RLC => "RLC",
            Mnemonic::RLCA => "RLCA",
            Mnemonic::RR => "RR",
            Mnemonic::RRA => "RRA",
            Mnemonic::RRC => "RRC",
            Mnemonic::RRCA => "RRCA",
            Mnemonic::SLA => "SLA",
            Mnemonic::SRA => "SRA",
            Mnemonic::SRL => "SRL",
            Mnemonic::SWAP => "SWAP",
            Mnemonic::AND => "AND",
            Mnemonic::OR => "OR",
            Mnemonic::XOR => "XOR",
            Mnemonic::CPL => "CPL",
            Mnemonic::BIT => "BIT",
            Mnemonic::RES => "RES",
            Mnemonic::SET => "SET",
            Mnemonic::CALL => "CALL",
            Mnemonic::JP => "JP",
            Mnemonic::JR => "JR",
            Mnemonic::RET => "RET",
            Mnemonic::RETI => "RETI",
            Mnemonic::RST => "RST",
            Mnemonic::DAA => "DAA",
            Mnemonic::SCF => "SCF",
            Mnemonic::CCF => "CCF",
        }
    }

    /// The textual form of the mnemonic: its name.
    pub fn to_string(&self) -> (s: String)
        ensures
            s@ == mnemonic_name(*self),
    {
        String::from_str(self.name())
    }
}

/// Symbolic representation of all Game Boy operation operands
///
/// * `-R` -> Reference. e.g. `HLR -> [HL]`
/// * `-I` -> Increment
/// * `-D` -> Decrement
/// * `c-` -> condition. e.g. `cNC -> NC`
#[derive(Debug, Clone, Copy, PartialEq, Eq, Structural)]
#[allow(non_camel_case_types)]
pub enum Operand {
    A,
    B,
    C,
    CR,  // [C] -> $FF00+C
    D,
    E,
    H,
    L,
    SP,

    AF,
    BC,
    BCR,  // [BC]
    DE,
    DER,  // [DE]
    HL,
    HLR,  // [HL]
    HLI,  // [HLI]
    HLD,  // [HLD]

    cZ,
    cNZ,
    cC,
    cNC,

    N8(u8),
    I8(i8),
    N16(u16),
    N16R(u16),  // [n16],
    FF(u8),  // [$FF+u8]

    Index(u8),
}

/// The name of an operand without payload.
pub open spec fn operand_label(o: Operand) -> Seq<char> {
    match o {
        Operand::A => "A"@,
        Operand::B => "B"@,
        Operand::C => "C"@,
        Operand::CR => "CR"@,
        Operand::D => "D"@,
        Operand::E => "E"@,
        Operand::H => "H"@,
        Operand::L => "L"@,
        Operand::SP => "SP"@,
        Operand::AF => "AF"@,
        Operand::BC => "BC"@,
        Operand::BCR => "BCR"@,
        Operand::DE => "DE"@,
        Operand::DER => "DER"@,
        Operand::HL => "HL"@,
        Operand::HLR => "HLR"@,
        Operand::HLI => "HLI"@,
        Operand::HLD => "HLD"@,
        Operand::cZ => "cZ"@,
        Operand::cNZ => "cNZ"@,
        Operand::cC => "cC"@,
        Operand::cNC => "cNC"@,
        Operand::N8(_) => "N8"@,
        Operand::I8(_) => "I8"@,
        Operand::N16(_) => "N16"@,
        Operand::N16R(_) => "N16R"@,
        Operand::FF(_) => "FF"@,
        Operand::Index(_) => "Index"@,
    }
}

/// The textual form of an operand: its name, followed by its payload in
/// decimal between parentheses where it has one (e.g. `N8(42)`).
pub open spec fn operand_name(o: Operand) -> Seq<char> {
    match o {
        Operand::N8(v) => operand_label(o) + "("@ + decimal(v as nat) + ")"@,
        Operand::I8(v) => operand_label(o) + "("@ + signed_decimal(v as int) + ")"@,
        Operand::N16(v) => operand_label(o) + "("@ + decimal(v as nat) + ")"@,
        Operand::N16R(v) => operand_label(o) + "("@ + decimal(v as nat) + ")"@,
        Operand::FF(v) => operand_label(o) + "("@ + decimal(v as nat) + ")"@,
        Operand::Index(v) => operand_label(o) + "("@ + decimal(v as nat) + ")"@,
        _ => operand_label(o),
    }
}

/// The operands that are 8-bit quantities.
pub open spec fn is_8bit_operand(o: Operand) -> bool {
    o is A || o is B || o is C || o is D || o is E || o is H || o is L || o is CR
        || o is BCR || o is DER || o is HLR || o is HLI || o is HLD || o is N8 || o is I8
        || o is N16R || o is FF
}

/// The operands that are 16-bit quantities.
pub open spec fn is_16bit_operand(o: Operand) -> bool {
    o is AF || o is BC || o is DE || o is HL || o is N16
}

/// The operands that are registers (a 16-bit immediate counts too).
pub open spec fn is_register_operand(o: Operand) -> bool {
    o is A || o is B || o is C || o is D || o is E || o is H || o is L || o is AF || o is BC
        || o is DE || o is HL || o is N16
}

/// The operands that are immediate values.
pub open spec fn is_immediate_operand(o: Operand) -> bool {
    o is N8 || o is I8 || o is N16
}

/// The branch conditions (the `c-` operands).
pub open spec fn is_condition_operand(o: Operand) -> bool {
    o is cZ || o is cNZ || o is cC || o is cNC
}

/// The operands that designate memory by an address.
pub open spec fn is_reference(o: Operand) -> bool {
    o is CR || o is BCR || o is DER || o is HLR || o is HLI || o is HLD || o is N16R || o is FF
}

impl Operand {
    /// Whether the operand designates an 8-bit quantity.
    pub fn is_8bit(&self) -> (r: bool)
        ensures
            r == is_8bit_operand(*self),
    {
        match self {
            Operand::A | Operand::B | Operand::C | Operand::D | Operand::E | Operand::H
            | Operand::L | Operand::CR | Operand::BCR | Operand::DER | Operand::HLR
            | Operand::HLI | Operand::HLD | Operand::N8(_) | Operand::I8(_) | Operand::N16R(_)
            | Operand::FF(_) => true,
            _ => false,
        }
    }

    /// Whether the operand designates a 16-bit quantity.
    pub fn is_16bit(&self) -> (r: bool)
        ensures
            r == is_16bit_operand(*self),
    {
        match self {
            Operand::AF | Operand::BC | Operand::DE | Operand::HL | Operand::N16(_) => true,
            _ => false,
        }
    }

    /// Whether the operand counts as a register (a 16-bit immediate counts too).
    pub fn is_register(&self) -> (r: bool)
        ensures
            r == is_register_operand(*self),
    {
        match self {
            Operand::A | Operand::B | Operand::C | Operand::D | Operand::E | Operand::H
            | Operand::L | Operand::AF | Operand::BC | Operand::DE | Operand::HL
            | Operand::N16(_) => true,
            _ => false,
        }
    }

    /// Whether the operand is a branch condition.
    pub fn is_condition(&self) -> (r: bool)
        ensures
            r == is_condition_operand(*self),
    {
        match self {
            Operand::cZ | Operand::cNZ | Operand::cC | Operand::cNC => true,
            _ => false,
        }
    }

    /// Whether the operand is a memory reference.
    pub fn is_ref(&self) -> (r: bool)
        ensures
            r == is_reference(*self),
    {
        match self {
            Operand::CR | Operand::BCR | Operand::DER | Operand::HLR | Operand::HLI
            | Operand::HLD | Operand::N16R(_) | Operand::FF(_) => true,
            _ => false,
        }
    }

    /// Whether the operand is an immediate value.
    pub fn is_immediate(&self) -> (r: bool)
        ensures
            r == is_immediate_operand(*self),
    {
        match self {
            Operand::N8(_) | Operand::I8(_) | Operand::N16(_) => true,
            _ => false,
        }
    }

    /// Whether the operand is a reference through an immediate 16-bit address.
    pub fn is_immediate_ref(&self) -> (r: bool)
        ensures
            r == *self is N16R,
    {
        if let Operand::N16R(_) = self {
            true
        } else {
            false
        }
    }

    /// Whether the operand is a reference into the `$FF00` page.
    pub fn is_ff(&self) -> (r: bool)
        ensures
            r == *self is FF,
    {
        if let Operand::FF(_) = self {
            true
        } else {
            false
        }
    }

    /// The operand's name without its payload, as a static string.
    pub fn label(&self) -> (s: &'static str)
        ensures
            s@ == operand_label(*self),
    {
        match self {
            Operand::A => "A",
            Operand::B => "B",
            Operand::C => "C",
            Operand::CR => "CR",
            Operand::D => "D",
            Operand::E => "E",
            Operand::H => "H",
            Operand::L => "L",
            Operand::SP => "SP",
            Operand::AF => "AF",
            Operand::BC => "BC",
            Operand::BCR => "BCR",
            Operand::DE => "DE",
            Operand::DER => "DER",
            Operand::HL => "HL",
            Operand::HLR => "HLR",
            Operand::HLI => "HLI",
            Operand::HLD => "HLD",
            Operand::cZ => "cZ",
            Operand::cNZ => "cNZ",
            Operand::cC => "cC",
            Operand::cNC => "cNC",
            Operand::N8(_) => "N8",
            Operand::I8(_) => "I8",
            Operand::N16(_) => "N16",
            Operand::N16R(_) => "N16R",
            Operand::FF(_) => "FF",
            Operand::Index(_) => "Index",
        }
    }

    /// The textual form of the operand: its name, with its payload in decimal
    /// between parentheses where it has one.
    pub fn to_string(&self) -> (s: String)
        ensures
            s@ == operand_name(*self),
    {
        let mut s = String::from_str(self.label());
        match self {
            Operand::N8(v) | Operand::FF(v) | Operand::Index(v) => {
                s.append("(");
                crate::text::push_decimal(&mut s, *v as u32);
                s.append(")");
            },
            Operand::N16(v) | Operand::N16R(v) => {
                s.append("(");
                crate::text::push_decimal(&mut s, *v as u32);
                s.append(")");
            },
            Operand::I8(v) => {
                s.append("(");
                crate::text::push_signed_decimal(&mut s, *v);
                s.append(")");
            },
            _ => {},
        }
        s
    }
}

/// Symbolic representation of a Game Boy binary operation: one Mnemonic and
/// its operands.
pub struct Operation {
    pub mnemonic: Mnemonic,
    pub operands: Vec<Operand>,
}

impl View for Operation {
    type V = (Mnemonic, Seq<Operand>);

    open spec fn view(&self) -> (Mnemonic, Seq<Operand>) {
        (self.mnemonic, self.operands@)
    }
}

impl Operation {
    /// Builds an operation from its mnemonic and operands.
    pub fn new(mnemonic: Mnemonic, operands: Vec<Operand>) -> (r: Self)
        ensures
            r.mnemonic == mnemonic,
            r.operands@ == operands@,
    {
        Operation { mnemonic, operands }
    }

    /// Borrows the mnemonic and the operands.
    pub fn into_tuple(&self) -> (r: (&Mnemonic, &Vec<Operand>))
        ensures
            *r.0 == self.mnemonic,
            r.1@ == self.operands@,
    {
        (&self.mnemonic, &self.operands)
    }
}

/// Display preferences for the `disassemble` function.
///
/// * `upcase`: return the textual representation as UPCASE letters (including hexadecimal
/// representation)
/// * `comma_space`: add or a not a space after a comma with 2 operands (e.g. `ld a, b`)
pub struct Preferences {
    pub upcase: bool,
    pub comma_space: bool,
}

impl Preferences {
    /// The default preferences: lower case, a space after each comma.
    pub fn new() -> (r: Preferences)
        ensures
            !r.upcase,
            r.comma_space,
    {
        Preferences { upcase: false, comma_space: true }
    }
}

} // verus!
