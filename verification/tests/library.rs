use gb_disass_rs::{
    decode, decode_fetched, disass, disassemble, next_offset, render, MemoryBus, Mnemonic, Operand,
    Operation, Preferences, SimpleBus,
};

fn upper() -> Preferences {
    Preferences { upcase: true, comma_space: true }
}

#[test]
fn decode_word_operand() {
    let bus = SimpleBus::new(vec![0x01, 0x34, 0x12]);
    let op = decode(&bus, 0).unwrap();
    assert_eq!(op.mnemonic, Mnemonic::LD);
    assert_eq!(op.operands, vec![Operand::BC, Operand::N16(0x1234)]);
}

#[test]
fn decode_at_nonzero_address() {
    let bus = SimpleBus::new(vec![0x00, 0x3E, 0x10]);
    let op = decode(&bus, 1).unwrap();
    assert_eq!(op.mnemonic, Mnemonic::LD);
    assert_eq!(op.operands, vec![Operand::A, Operand::N8(0x10)]);
}

#[test]
fn decode_ret_c_holds_condition() {
    let bus = SimpleBus::new(vec![0xD8]);
    let op = decode(&bus, 0).unwrap();
    assert_eq!(op.mnemonic, Mnemonic::RET);
    assert_eq!(op.operands, vec![Operand::cC]);
    assert!(op.operands[0].is_condition());
}

#[test]
fn decode_ret_nz_holds_condition() {
    let bus = SimpleBus::new(vec![0xC0]);
    let op = decode(&bus, 0).unwrap();
    assert_eq!(op.operands, vec![Operand::cNZ]);
}

#[test]
fn decode_cb_bit() {
    let bus = SimpleBus::new(vec![0xCB, 0x7C]);
    let op = decode(&bus, 0).unwrap();
    assert_eq!(op.mnemonic, Mnemonic::BIT);
    assert_eq!(op.operands, vec![Operand::Index(7), Operand::H]);
}

#[test]
fn decode_jr_signed() {
    let bus = SimpleBus::new(vec![0x20, 0xFB]);
    let op = decode(&bus, 0).unwrap();
    assert_eq!(op.mnemonic, Mnemonic::JR);
    assert_eq!(op.operands, vec![Operand::cNZ, Operand::I8(-5)]);
}

#[test]
fn decode_unsupported_message() {
    let bus = SimpleBus::new(vec![0xD3]);
    assert_eq!(decode(&bus, 0).err(), Some("Unsupported opcode D3".to_string()));
}

#[test]
fn decode_opcode_missing_message() {
    let bus = SimpleBus::new(vec![0x00]);
    assert_eq!(decode(&bus, 0x1A2B).err(), Some("Opcode not found at address 1A2B".to_string()));
}

#[test]
fn decode_byte_missing_message() {
    let bus = SimpleBus::new(vec![0x06]);
    assert_eq!(decode(&bus, 0).err(), Some("Byte operand not available".to_string()));
}

#[test]
fn decode_word_missing_message() {
    let bus = SimpleBus::new(vec![0xC3, 0x00]);
    assert_eq!(decode(&bus, 0).err(), Some("Word operand not available".to_string()));
}

#[test]
fn decode_cb_missing_second_byte() {
    let bus = SimpleBus::new(vec![0xCB]);
    assert_eq!(decode(&bus, 0).err(), Some("Byte operand not available".to_string()));
}

#[test]
fn decode_fetched_ignores_unused_operand() {
    let op = decode_fetched(0x3C, Some(0x12), Some(0x3456)).unwrap();
    assert_eq!(op.mnemonic, Mnemonic::INC);
    assert_eq!(op.operands, vec![Operand::A]);
}

#[test]
fn decode_fetched_word() {
    let op = decode_fetched(0xEA, None, Some(0xFF80)).unwrap();
    assert_eq!(op.mnemonic, Mnemonic::LD);
    assert_eq!(op.operands, vec![Operand::N16R(0xFF80), Operand::A]);
}

#[test]
fn decode_fetched_all_unsupported() {
    for opcode in [0xD3u8, 0xDB, 0xDD, 0xE3, 0xE4, 0xEB, 0xEC, 0xED, 0xF4, 0xFC, 0xFD] {
        assert_eq!(
            decode_fetched(opcode, Some(0), Some(0)).err(),
            Some(format!("Unsupported opcode {:02X}", opcode))
        );
    }
}

#[test]
fn decode_every_supported_opcode_length() {
    // The length of each decoded operation is the number of bytes decoding consumed.
    for opcode in 0u16..=255 {
        let opcode = opcode as u8;
        let bus = SimpleBus::new(vec![opcode, 0x11, 0x22]);
        if let Ok(op) = decode(&bus, 0) {
            let len = next_offset(&op);
            assert!(len >= 1 && len <= 3);
            assert!(op.operands.len() <= 2);
            let short = SimpleBus::new(vec![opcode, 0x11, 0x22][..len as usize].to_vec());
            assert!(decode(&short, 0).is_ok());
            if len > 1 {
                let shorter = SimpleBus::new(vec![opcode, 0x11, 0x22][..len as usize - 1].to_vec());
                assert!(decode(&shorter, 0).is_err());
            }
        }
    }
}

#[test]
fn next_offset_counts() {
    assert_eq!(next_offset(&Operation::new(Mnemonic::RST, vec![Operand::N8(0x38)])), 1);
    assert_eq!(next_offset(&Operation::new(Mnemonic::JP, vec![Operand::N16(0x150)])), 3);
    assert_eq!(next_offset(&Operation::new(Mnemonic::RLC, vec![Operand::B])), 2);
    assert_eq!(next_offset(&Operation::new(Mnemonic::LDH, vec![Operand::FF(0x44), Operand::A])), 2);
    assert_eq!(next_offset(&Operation::new(Mnemonic::NOP, vec![])), 1);
    assert_eq!(
        next_offset(&Operation::new(Mnemonic::LD, vec![Operand::N16R(1), Operand::N16(2)])),
        5
    );
}

#[test]
fn render_sp_offsets() {
    let op = Operation::new(Mnemonic::LD, vec![Operand::HL, Operand::I8(-3)]);
    assert_eq!(render(&op, &upper()), Ok("LD HL, SP-3".to_string()));
    let op = Operation::new(Mnemonic::LD, vec![Operand::HL, Operand::I8(0)]);
    assert_eq!(render(&op, &upper()), Ok("LD HL, SP+0".to_string()));
    let op = Operation::new(Mnemonic::ADD, vec![Operand::SP, Operand::I8(-128)]);
    assert_eq!(render(&op, &upper()), Ok("ADD SP, -128".to_string()));
}

#[test]
fn render_lower_no_space() {
    let prefs = Preferences { upcase: false, comma_space: false };
    let op = Operation::new(Mnemonic::BIT, vec![Operand::Index(3), Operand::HLR]);
    assert_eq!(render(&op, &prefs), Ok("bit 3,[hl]".to_string()));
    let op = Operation::new(Mnemonic::LDH, vec![Operand::FF(0xAB), Operand::A]);
    assert_eq!(render(&op, &prefs), Ok("ldh [$ffab],a".to_string()));
}

#[test]
fn render_conditions_and_references() {
    let op = Operation::new(Mnemonic::JP, vec![Operand::cNC, Operand::N16(0xBEEF)]);
    assert_eq!(render(&op, &upper()), Ok("JP NC, $BEEF".to_string()));
    let op = Operation::new(Mnemonic::LD, vec![Operand::HLI, Operand::A]);
    assert_eq!(render(&op, &upper()), Ok("LD [HLI], A".to_string()));
    let op = Operation::new(Mnemonic::LDH, vec![Operand::A, Operand::CR]);
    assert_eq!(render(&op, &upper()), Ok("LDH A, [C]".to_string()));
    let op = Operation::new(Mnemonic::LD, vec![Operand::N16R(0x0A), Operand::SP]);
    assert_eq!(render(&op, &upper()), Ok("LD [$000A], SP".to_string()));
}

#[test]
fn render_three_operands() {
    let prefs = Preferences { upcase: true, comma_space: false };
    let op = Operation::new(Mnemonic::LD, vec![Operand::A, Operand::B, Operand::N8(1)]);
    assert_eq!(render(&op, &prefs), Ok("LD A,B,$01".to_string()));
}

#[test]
fn lowercase_is_lowercase_of_upcase() {
    let op = Operation::new(Mnemonic::CALL, vec![Operand::cZ, Operand::N16(0xCAFE)]);
    let up = render(&op, &upper()).unwrap();
    let low = render(&op, &Preferences { upcase: false, comma_space: true }).unwrap();
    assert_eq!(up.to_lowercase(), low);
    assert_eq!(low, "call z, $cafe");
}

#[test]
fn disassemble_examples() {
    let prefs = upper();
    assert_eq!(disassemble(&SimpleBus::new(vec![0xCB, 0x37]), 0, &prefs), Ok((2, "SWAP A".to_string())));
    assert_eq!(
        disassemble(&SimpleBus::new(vec![0xFA, 0x00, 0xC0]), 0, &prefs),
        Ok((3, "LD A, [$C000]".to_string()))
    );
    assert_eq!(disassemble(&SimpleBus::new(vec![0xFF]), 0, &prefs), Ok((1, "RST $38".to_string())));
    assert_eq!(
        disassemble(&SimpleBus::new(vec![0xF8, 0x7F]), 0, &prefs),
        Ok((2, "LD HL, SP+127".to_string()))
    );
    assert_eq!(
        disassemble(&SimpleBus::new(vec![0xE0, 0x44]), 0, &prefs),
        Ok((2, "LDH [$FF44], A".to_string()))
    );
}

#[test]
fn disassemble_error_passes_decode_error() {
    let prefs = upper();
    assert_eq!(
        disassemble(&SimpleBus::new(vec![0xFD]), 0, &prefs),
        Err("Unsupported opcode FD".to_string())
    );
}

#[test]
fn disass_matches_disassemble() {
    let bus = SimpleBus::new(vec![0x31, 0xFE, 0xFF]);
    let prefs = Preferences::new();
    assert_eq!(disass(&bus, 0, &prefs), disassemble(&bus, 0, &prefs));
    assert_eq!(disass(&bus, 0, &prefs), Ok((3, "ld sp, $fffe".to_string())));
}

#[test]
fn preferences_default() {
    let prefs = Preferences::new();
    assert!(!prefs.upcase);
    assert!(prefs.comma_space);
}

#[test]
fn simple_bus_reads() {
    let bus = SimpleBus::new(vec![0x34, 0x12, 0x56]);
    assert_eq!(bus.read_byte(0), Some(0x34));
    assert_eq!(bus.read_byte(3), None);
    assert_eq!(bus.read_word(0), Some(0x1234));
    assert_eq!(bus.read_word(1), Some(0x5612));
    assert_eq!(bus.read_word(2), None);
}

#[test]
fn operation_into_tuple() {
    let op = Operation::new(Mnemonic::PUSH, vec![Operand::AF]);
    let (m, ops) = op.into_tuple();
    assert_eq!(*m, Mnemonic::PUSH);
    assert_eq!(*ops, vec![Operand::AF]);
}

#[test]
fn operand_classification() {
    assert!(Operand::N16(0).is_register());
    assert!(Operand::N16(0).is_16bit());
    assert!(!Operand::N16(0).is_8bit());
    assert!(Operand::HLI.is_8bit());
    assert!(Operand::HLI.is_ref());
    assert!(Operand::cZ.is_condition());
    assert!(!Operand::C.is_condition());
    assert!(Operand::FF(1).is_ff());
    assert!(Operand::FF(1).is_ref());
    assert!(Operand::N16R(1).is_immediate_ref());
    assert!(!Operand::N16(1).is_immediate_ref());
    assert!(Operand::I8(1).is_immediate());
    assert!(!Operand::Index(1).is_immediate());
    assert!(!Operand::SP.is_register());
}

#[test]
fn mnemonic_jumps() {
    for m in [Mnemonic::CALL, Mnemonic::RET, Mnemonic::RETI, Mnemonic::JP, Mnemonic::JR, Mnemonic::RST] {
        assert!(m.is_jump());
    }
    assert!(!Mnemonic::LD.is_jump());
    assert!(!Mnemonic::HALT.is_jump());
}

#[test]
fn textual_forms() {
    assert_eq!(Mnemonic::LDH.to_string(), "LDH");
    assert_eq!(Operand::cNZ.to_string(), "cNZ");
    assert_eq!(Operand::N8(42).to_string(), "N8(42)");
    assert_eq!(Operand::I8(-5).to_string(), "I8(-5)");
    assert_eq!(Operand::N16(4660).to_string(), "N16(4660)");
    assert_eq!(Operand::Index(0).to_string(), "Index(0)");
}

#[test]
fn comma_space_only_adds_spaces() {
    let spaced = Preferences { upcase: true, comma_space: true };
    let tight = Preferences { upcase: true, comma_space: false };
    let one = Operation::new(Mnemonic::PUSH, vec![Operand::BC]);
    assert_eq!(render(&one, &spaced), render(&one, &tight));
    let two = Operation::new(Mnemonic::LD, vec![Operand::A, Operand::HLD]);
    assert_eq!(render(&two, &spaced), Ok("LD A, [HLD]".to_string()));
    assert_eq!(render(&two, &tight), Ok("LD A,[HLD]".to_string()));
}

struct GameboyBus {
    data: Vec<u8>,
}

impl MemoryBus for GameboyBus {
    fn read_byte(&self, addr: u16) -> Option<u8> {
        self.data.get(addr as usize).copied()
    }

    fn read_word(&self, addr: u16) -> Option<u16> {
        let idx = addr as usize;
        if idx + 1 >= self.data.len() {
            None
        } else {
            Some((self.data[idx] as u16) << 8 | self.data[idx + 1] as u16)
        }
    }
}

#[test]
fn caller_provided_bus() {
    let bus = GameboyBus { data: vec![0x01, 0x12, 0x34] };
    let prefs = Preferences { upcase: true, comma_space: true };
    assert_eq!(disassemble(&bus, 0x0, &prefs), Ok((3, "LD BC, $1234".to_string())));
}

#[test]
fn decode_at_last_address() {
    let mut data = vec![0u8; 0x10000];
    data[0xFFFF] = 0x3E;
    data[0] = 0x42;
    let bus = SimpleBus::new(data);
    let op = decode(&bus, 0xFFFF).unwrap();
    assert_eq!(op.mnemonic, Mnemonic::LD);
    assert_eq!(op.operands, vec![Operand::A, Operand::N8(0x42)]);
    let empty = SimpleBus::new(vec![]);
    assert_eq!(decode(&empty, 0xFFFF).err(), Some("Opcode not found at address FFFF".to_string()));
}

#[test]
fn preferences_leave_length_alone() {
    let bus = SimpleBus::new(vec![0xCB, 0x11]);
    let a = disassemble(&bus, 0, &Preferences { upcase: true, comma_space: false }).unwrap();
    let b = disassemble(&bus, 0, &Preferences { upcase: false, comma_space: true }).unwrap();
    assert_eq!(a.0, b.0);
    assert_eq!(a.1, "RL C");
    assert_eq!(b.1, "rl c");
}

#[test]
fn references_render_in_brackets() {
    let ops = [
        Operand::A, Operand::CR, Operand::BCR, Operand::DER, Operand::HLR, Operand::HLI,
        Operand::HLD, Operand::N16R(5), Operand::FF(7), Operand::N8(1), Operand::I8(-1),
        Operand::N16(3), Operand::Index(2), Operand::cC, Operand::SP,
    ];
    for o in ops {
        let text = render(&Operation::new(Mnemonic::LD, vec![o]), &upper()).unwrap();
        assert_eq!(text.starts_with("LD ["), o.is_ref());
    }
}
