use chip8_decode::instruction::{ByteInst, DecodeError, OpcodeFormat};
use chip8_decode::{Addr, RegisterIndex};

#[test]
fn clear_screen_scenario() {
    assert_eq!(OpcodeFormat::from((0x00, 0xE0)), Ok(OpcodeFormat::I00e0));
}

#[test]
fn return_scenario() {
    assert_eq!(OpcodeFormat::from((0x00, 0xEE)), Ok(OpcodeFormat::I00ee));
}

#[test]
fn jump_scenario() {
    assert_eq!(
        OpcodeFormat::from((0x12, 0x34)),
        Ok(OpcodeFormat::I1nnn(Addr::new(0x234)))
    );
}

#[test]
fn load_immediate_scenario() {
    assert_eq!(
        OpcodeFormat::from((0x6A, 0x05)),
        Ok(OpcodeFormat::I6xkk(RegisterIndex::new(0xA), 0x05))
    );
}

#[test]
fn arithmetic_family_scenario() {
    assert_eq!(
        OpcodeFormat::from((0x8B, 0x34)),
        Ok(OpcodeFormat::I8xy4(
            RegisterIndex::new(0xB),
            RegisterIndex::new(0x3)
        ))
    );
}

#[test]
fn undefined_fx_scenario() {
    assert_eq!(
        OpcodeFormat::from((0xF0, 0x99)),
        Err(DecodeError::UnrecognizedEncoding)
    );
}

#[test]
fn decodes_zero_nibble_variants() {
    // N == 0x0 selects the clear-screen instruction whatever the other bits.
    assert_eq!(OpcodeFormat::from((0x0A, 0xB0)), Ok(OpcodeFormat::I00e0));
    // N == 0xE selects the return instruction whatever the other bits.
    assert_eq!(OpcodeFormat::from((0x01, 0x2E)), Ok(OpcodeFormat::I00ee));
    // Any other trailing nibble falls back to the machine-routine jump.
    assert_eq!(
        OpcodeFormat::from((0x03, 0x45)),
        Ok(OpcodeFormat::I0nnn(Addr::new(0x345)))
    );
}

#[test]
fn decodes_address_variants() {
    assert_eq!(
        OpcodeFormat::from((0x1F, 0xFF)),
        Ok(OpcodeFormat::I1nnn(Addr::new(0xFFF)))
    );
    assert_eq!(
        OpcodeFormat::from((0x2A, 0xBC)),
        Ok(OpcodeFormat::I2nnn(Addr::new(0xABC)))
    );
    assert_eq!(
        OpcodeFormat::from((0xA1, 0x23)),
        Ok(OpcodeFormat::Iannn(Addr::new(0x123)))
    );
    assert_eq!(
        OpcodeFormat::from((0xB0, 0x01)),
        Ok(OpcodeFormat::Ibnnn(Addr::new(0x001)))
    );
}

#[test]
fn decodes_xkk_variants() {
    let x = RegisterIndex::new(0x7);
    assert_eq!(
        OpcodeFormat::from((0x37, 0x42)),
        Ok(OpcodeFormat::I3xkk(x, 0x42))
    );
    assert_eq!(
        OpcodeFormat::from((0x47, 0x00)),
        Ok(OpcodeFormat::I4xkk(x, 0x00))
    );
    assert_eq!(
        OpcodeFormat::from((0x67, 0xFF)),
        Ok(OpcodeFormat::I6xkk(x, 0xFF))
    );
    assert_eq!(
        OpcodeFormat::from((0x77, 0x80)),
        Ok(OpcodeFormat::I7xkk(x, 0x80))
    );
    assert_eq!(
        OpcodeFormat::from((0xC7, 0x1E)),
        Ok(OpcodeFormat::Icxkk(x, 0x1E))
    );
}

#[test]
fn decodes_xy_variants() {
    let x = RegisterIndex::new(0x1);
    let y = RegisterIndex::new(0x2);
    assert_eq!(
        OpcodeFormat::from((0x51, 0x20)),
        Ok(OpcodeFormat::I5xy0(x, y))
    );
    // The trailing nibble is not inspected under leading nibble 0x5.
    assert_eq!(
        OpcodeFormat::from((0x51, 0x27)),
        Ok(OpcodeFormat::I5xy0(x, y))
    );
    assert_eq!(
        OpcodeFormat::from((0x91, 0x20)),
        Ok(OpcodeFormat::I9xy0(x, y))
    );
    assert_eq!(
        OpcodeFormat::from((0xD1, 0x2F)),
        Ok(OpcodeFormat::Idxyn(x, y, 0xF))
    );
}

#[test]
fn decodes_alu_variants() {
    let x = RegisterIndex::new(0xA);
    let y = RegisterIndex::new(0xB);
    assert_eq!(
        OpcodeFormat::from((0x8A, 0xB0)),
        Ok(OpcodeFormat::I8xy0(x, y))
    );
    assert_eq!(
        OpcodeFormat::from((0x8A, 0xB1)),
        Ok(OpcodeFormat::I8xy1(x, y))
    );
    assert_eq!(
        OpcodeFormat::from((0x8A, 0xB2)),
        Ok(OpcodeFormat::I8xy2(x, y))
    );
    assert_eq!(
        OpcodeFormat::from((0x8A, 0xB3)),
        Ok(OpcodeFormat::I8xy3(x, y))
    );
    assert_eq!(
        OpcodeFormat::from((0x8A, 0xB4)),
        Ok(OpcodeFormat::I8xy4(x, y))
    );
    assert_eq!(
        OpcodeFormat::from((0x8A, 0xB5)),
        Ok(OpcodeFormat::I8xy5(x, y))
    );
    assert_eq!(OpcodeFormat::from((0x8A, 0xB6)), Ok(OpcodeFormat::I8xy6(x)));
    assert_eq!(
        OpcodeFormat::from((0x8A, 0xB7)),
        Ok(OpcodeFormat::I8xy7(x, y))
    );
    assert_eq!(OpcodeFormat::from((0x8A, 0xBE)), Ok(OpcodeFormat::I8xye(x)));
}

#[test]
fn decodes_key_variants() {
    let x = RegisterIndex::new(0x4);
    assert_eq!(OpcodeFormat::from((0xE4, 0x9E)), Ok(OpcodeFormat::Iex9e(x)));
    assert_eq!(OpcodeFormat::from((0xE4, 0xA1)), Ok(OpcodeFormat::Iexa1(x)));
}

#[test]
fn decodes_fx_variants() {
    let x = RegisterIndex::new(0xC);
    assert_eq!(OpcodeFormat::from((0xFC, 0x07)), Ok(OpcodeFormat::Ifx07(x)));
    assert_eq!(OpcodeFormat::from((0xFC, 0x0A)), Ok(OpcodeFormat::Ifx0a(x)));
    assert_eq!(OpcodeFormat::from((0xFC, 0x15)), Ok(OpcodeFormat::Ifx15(x)));
    assert_eq!(OpcodeFormat::from((0xFC, 0x18)), Ok(OpcodeFormat::Ifx18(x)));
    assert_eq!(OpcodeFormat::from((0xFC, 0x1E)), Ok(OpcodeFormat::Ifx1e(x)));
    assert_eq!(OpcodeFormat::from((0xFC, 0x29)), Ok(OpcodeFormat::Ifx29(x)));
    assert_eq!(OpcodeFormat::from((0xFC, 0x33)), Ok(OpcodeFormat::Ifx33(x)));
    assert_eq!(OpcodeFormat::from((0xFC, 0x55)), Ok(OpcodeFormat::Ifx55(x)));
    assert_eq!(OpcodeFormat::from((0xFC, 0x65)), Ok(OpcodeFormat::Ifx65(x)));
}

#[test]
fn undefined_alu_values() {
    for n in [0x8u8, 0x9, 0xA, 0xB, 0xC, 0xD, 0xF] {
        assert_eq!(
            OpcodeFormat::from((0x81, 0x20 | n)),
            Err(DecodeError::UnrecognizedEncoding)
        );
    }
}

#[test]
fn undefined_key_values() {
    assert_eq!(
        OpcodeFormat::from((0xE0, 0x00)),
        Err(DecodeError::UnrecognizedEncoding)
    );
    assert_eq!(
        OpcodeFormat::from((0xE5, 0x9F)),
        Err(DecodeError::UnrecognizedEncoding)
    );
    assert_eq!(
        OpcodeFormat::from((0xEF, 0xA0)),
        Err(DecodeError::UnrecognizedEncoding)
    );
}

#[test]
fn undefined_fx_values() {
    for nn in [0x00u8, 0x08, 0x0B, 0x16, 0x30, 0x56, 0x66, 0xFF] {
        assert_eq!(
            OpcodeFormat::from((0xF2, nn)),
            Err(DecodeError::UnrecognizedEncoding)
        );
    }
}

/// Sweeps every 2-byte word: decoding fails exactly on the undefined
/// secondary values under the overloaded leading nibbles 0x8, 0xE and 0xF,
/// and succeeds everywhere else.
#[test]
fn completeness_sweep() {
    for word in 0u32..=0xFFFF {
        let b0 = (word >> 8) as u8;
        let b1 = (word & 0xFF) as u8;
        let defined = match b0 >> 4 {
            0x8 => matches!(b1 & 0xF, 0x0..=0x7 | 0xE),
            0xE => b1 == 0x9E || b1 == 0xA1,
            0xF => matches!(b1, 0x07 | 0x0A | 0x15 | 0x18 | 0x1E | 0x29 | 0x33 | 0x55 | 0x65),
            _ => true,
        };
        assert_eq!(OpcodeFormat::from((b0, b1)).is_ok(), defined);
    }
}

/// For every word under a non-overloaded leading nibble, the operands in the
/// decoded instruction are exactly the field bits of the word.
#[test]
fn operands_recovered_exactly() {
    for b0 in [0x30u8, 0x3F, 0x35] {
        for b1 in [0x00u8, 0x7E, 0xFF] {
            assert_eq!(
                OpcodeFormat::from((b0, b1)),
                Ok(OpcodeFormat::I3xkk(RegisterIndex::new(b0 & 0xF), b1))
            );
        }
    }
    for b0 in [0x90u8, 0x9C] {
        for b1 in [0x10u8, 0xF0] {
            assert_eq!(
                OpcodeFormat::from((b0, b1 & 0xF0)),
                Ok(OpcodeFormat::I9xy0(
                    RegisterIndex::new(b0 & 0xF),
                    RegisterIndex::new(b1 >> 4)
                ))
            );
        }
    }
    for b0 in [0xA0u8, 0xAF] {
        for b1 in [0x00u8, 0x5A, 0xFF] {
            let nnn = (((b0 as u16) & 0xF) << 8) | b1 as u16;
            assert_eq!(
                OpcodeFormat::from((b0, b1)),
                Ok(OpcodeFormat::Iannn(Addr::new(nnn)))
            );
        }
    }
}

#[test]
fn field_extraction() {
    let inst = ByteInst(0xAB, 0xCD);
    assert_eq!(inst.first_nibble(), 0xA);
    assert_eq!(inst.x(), RegisterIndex::new(0xB));
    assert_eq!(inst.y(), RegisterIndex::new(0xC));
    assert_eq!(inst.n(), 0xD);
    assert_eq!(inst.nn(), 0xCD);
    assert_eq!(inst.nnn(), Addr::new(0xBCD));
}

#[test]
fn addr_masking() {
    assert_eq!(Addr::new(0xFFFF), Addr::new(0xFFF));
    assert_eq!(Addr::new(0xABCD), Addr::new(0xABCD % 4096));
    assert_eq!(Addr::new(0x1234), Addr::new(0x234));
    assert_eq!(Addr::new(0x0123), Addr::new(0x123));
    assert_ne!(Addr::new(0x123), Addr::new(0x124));
}

#[test]
fn register_index_masking() {
    assert_eq!(RegisterIndex::new(0xAB), RegisterIndex::new(0xB));
    assert_eq!(RegisterIndex::new(0xFF), RegisterIndex::new(0xFF % 16));
    assert_eq!(RegisterIndex::new(0x07), RegisterIndex::new(0x7));
    assert_ne!(RegisterIndex::new(0x7), RegisterIndex::new(0x8));
}
