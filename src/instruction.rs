use vstd::prelude::*;

verus! {

/// One decoded instruction word. Register operands are indices 0..=15 of
/// the general registers V0..VF; addresses are 12-bit.
#[derive(Clone, Copy, Debug, PartialEq, Eq, Structural)]
pub enum Instruction {
    /// 0NNN: call a native routine of the host processor (ignored).
    CallNative { address: u16 },
    /// 00E0: clear the screen.
    ClearScreen,
    /// 00EE: return from a subroutine.
    Return,
    /// 1NNN: jump to NNN.
    Jump { address: u16 },
    /// 2NNN: call the subroutine at NNN.
    Call { address: u16 },
    /// 3XKK: skip the next instruction if VX == KK.
    SkipIfEqual { x: u8, value: u8 },
    /// 4XKK: skip the next instruction if VX != KK.
    SkipIfNotEqual { x: u8, value: u8 },
    /// 5XY_: skip the next instruction if VX == VY.
    SkipIfRegistersEqual { x: u8, y: u8 },
    /// 6XKK: VX := KK.
    SetImmediate { x: u8, value: u8 },
    /// 7XKK: VX := VX + KK, wrapping, flag untouched.
    AddImmediate { x: u8, value: u8 },
    /// 8XY0: VX := VY.
    CopyRegister { x: u8, y: u8 },
    /// 8XY1: VX := VX | VY.
    BitwiseOr { x: u8, y: u8 },
    /// 8XY2: VX := VX & VY.
    BitwiseAnd { x: u8, y: u8 },
    /// 8XY3: VX := VX ^ VY.
    BitwiseXor { x: u8, y: u8 },
    /// 8XY4: VX := VX + VY, VF := 1 on carry.
    AddWithCarry { x: u8, y: u8 },
    /// 8XY5: VX := VX - VY, VF := 1 on borrow.
    SubWithBorrow { x: u8, y: u8 },
    /// 8XY6: VX := VY >> 1, VF := the bit shifted out.
    ShiftRight { x: u8, y: u8 },
    /// 8XY7: VX := VY - VX, VF := 1 on borrow.
    ReverseSubtract { x: u8, y: u8 },
    /// 8XYE: VX := VY << 1, VF := the bit shifted out.
    ShiftLeft { x: u8, y: u8 },
    /// 9XY_: skip the next instruction if VX != VY.
    SkipIfRegistersNotEqual { x: u8, y: u8 },
    /// ANNN: I := NNN.
    SetIndexImmediate { address: u16 },
    /// BNNN: jump to NNN + V0.
    JumpPlusV0 { address: u16 },
    /// CXKK: VX := random byte & KK.
    RandomMasked { x: u8, mask: u8 },
    /// DXYN: draw N bytes of sprite at I on (VX, VY); VF := collision.
    DrawSprite { x: u8, y: u8, height: u8 },
    /// EX9E: skip the next instruction if key VX is down.
    SkipIfKeyDown { x: u8 },
    /// EXA1: skip the next instruction if key VX is up.
    SkipIfKeyUp { x: u8 },
    /// FX07: VX := delay timer.
    SetRegisterFromDelay { x: u8 },
    /// FX0A: wait for a key press and store it in VX.
    WaitForKeyInto { x: u8 },
    /// FX15: delay timer := VX.
    SetDelayFromRegister { x: u8 },
    /// FX18: sound timer := VX.
    SetSoundFromRegister { x: u8 },
    /// FX1E: I := I + VX.
    AddToIndex { x: u8 },
    /// FX29: I := address of the font glyph for digit VX.
    LoadSpriteAddress { x: u8 },
    /// FX33: store the decimal digits of VX at I, I+1, I+2.
    StoreBcd { x: u8 },
    /// FX55: store V0..=VX in memory from I on.
    DumpRegisters { x: u8 },
    /// FX65: fill V0..=VX from memory from I on.
    LoadRegisters { x: u8 },
}

/// Bits 15..12: the instruction family.
pub open spec fn family_of(w: u16) -> u16 {
    w >> 12u16
}

/// Bits 11..8: the first register operand.
pub open spec fn x_of(w: u16) -> u8 {
    ((w >> 8u16) & 0xFu16) as u8
}

/// Bits 7..4: the second register operand.
pub open spec fn y_of(w: u16) -> u8 {
    ((w >> 4u16) & 0xFu16) as u8
}

/// Bits 3..0: the low nibble.
pub open spec fn n_of(w: u16) -> u8 {
    (w & 0xFu16) as u8
}

/// Bits 7..0: the immediate byte.
pub open spec fn kk_of(w: u16) -> u8 {
    (w & 0xFFu16) as u8
}

/// Bits 11..0: the address operand.
pub open spec fn nnn_of(w: u16) -> u16 {
    w & 0xFFFu16
}

/// The instruction that word `w` encodes, or `None` where no pattern matches.
pub open spec fn decoded(w: u16) -> Option<Instruction> {
    let x = x_of(w);
    let y = y_of(w);
    let kk = kk_of(w);
    let nnn = nnn_of(w);
    let f = family_of(w);
    if f == 0 {
        if w == 0x00E0 {
            Some(Instruction::ClearScreen)
        } else if w == 0x00EE {
            Some(Instruction::Return)
        } else {
            Some(Instruction::CallNative { address: nnn })
        }
    } else if f == 1 {
        Some(Instruction::Jump { address: nnn })
    } else if f == 2 {
        Some(Instruction::Call { address: nnn })
    } else if f == 3 {
        Some(Instruction::SkipIfEqual { x, value: kk })
    } else if f == 4 {
        Some(Instruction::SkipIfNotEqual { x, value: kk })
    } else if f == 5 {
        Some(Instruction::SkipIfRegistersEqual { x, y })
    } else if f == 6 {
        Some(Instruction::SetImmediate { x, value: kk })
    } else if f == 7 {
        Some(Instruction::AddImmediate { x, value: kk })
    } else if f == 8 {
        let n = n_of(w);
        if n == 0x0 {
            Some(Instruction::CopyRegister { x, y })
        } else if n == 0x1 {
            Some(Instruction::BitwiseOr { x, y })
        } else if n == 0x2 {
            Some(Instruction::BitwiseAnd { x, y })
        } else if n == 0x3 {
            Some(Instruction::BitwiseXor { x, y })
        } else if n == 0x4 {
            Some(Instruction::AddWithCarry { x, y })
        } else if n == 0x5 {
            Some(Instruction::SubWithBorrow { x, y })
        } else if n == 0x6 {
            Some(Instruction::ShiftRight { x, y })
        } else if n == 0x7 {
            Some(Instruction::ReverseSubtract { x, y })
        } else if n == 0xE {
            Some(Instruction::ShiftLeft { x, y })
        } else {
            None
        }
    } else if f == 9 {
        Some(Instruction::SkipIfRegistersNotEqual { x, y })
    } else if f == 0xA {
        Some(Instruction::SetIndexImmediate { address: nnn })
    } else if f == 0xB {
        Some(Instruction::JumpPlusV0 { address: nnn })
    } else if f == 0xC {
        Some(Instruction::RandomMasked { x, mask: kk })
    } else if f == 0xD {
        Some(Instruction::DrawSprite { x, y, height: n_of(w) })
    } else if f == 0xE {
        if kk == 0x9E {
            Some(Instruction::SkipIfKeyDown { x })
        } else if kk == 0xA1 {
            Some(Instruction::SkipIfKeyUp { x })
        } else {
            None
        }
    } else {
        if kk == 0x07 {
            Some(Instruction::SetRegisterFromDelay { x })
        } else if kk == 0x0A {
            Some(Instruction::WaitForKeyInto { x })
        } else if kk == 0x15 {
            Some(Instruction::SetDelayFromRegister { x })
        } else if kk == 0x18 {
            Some(Instruction::SetSoundFromRegister { x })
        } else if kk == 0x1E {
            Some(Instruction::AddToIndex { x })
        } else if kk == 0x29 {
            Some(Instruction::LoadSpriteAddress { x })
        } else if kk == 0x33 {
            Some(Instruction::StoreBcd { x })
        } else if kk == 0x55 {
            Some(Instruction::DumpRegisters { x })
        } else if kk == 0x65 {
            Some(Instruction::LoadRegisters { x })
        } else {
            None
        }
    }
}

impl Instruction {
    /// The six conditional skips.
    pub open spec fn is_skip(self) -> bool {
        ||| self is SkipIfEqual
        ||| self is SkipIfNotEqual
        ||| self is SkipIfRegistersEqual
        ||| self is SkipIfRegistersNotEqual
        ||| self is SkipIfKeyDown
        ||| self is SkipIfKeyUp
    }

    /// Every register operand names one of V0..VF, every address fits in 12
    /// bits and a sprite height in 4: what a decoded word always satisfies.
    pub open spec fn wf(self) -> bool {
        match self {
            Instruction::CallNative { address } => address < 0x1000,
            Instruction::ClearScreen => true,
            Instruction::Return => true,
            Instruction::Jump { address } => address < 0x1000,
            Instruction::Call { address } => address < 0x1000,
            Instruction::SkipIfEqual { x, .. } => x < 16,
            Instruction::SkipIfNotEqual { x, .. } => x < 16,
            Instruction::SkipIfRegistersEqual { x, y } => x < 16 && y < 16,
            Instruction::SetImmediate { x, .. } => x < 16,
            Instruction::AddImmediate { x, .. } => x < 16,
            Instruction::CopyRegister { x, y } => x < 16 && y < 16,
            Instruction::BitwiseOr { x, y } => x < 16 && y < 16,
            Instruction::BitwiseAnd { x, y } => x < 16 && y < 16,
            Instruction::BitwiseXor { x, y } => x < 16 && y < 16,
            Instruction::AddWithCarry { x, y } => x < 16 && y < 16,
            Instruction::SubWithBorrow { x, y } => x < 16 && y < 16,
            Instruction::ShiftRight { x, y } => x < 16 && y < 16,
            Instruction::ReverseSubtract { x, y } => x < 16 && y < 16,
            Instruction::ShiftLeft { x, y } => x < 16 && y < 16,
            Instruction::SkipIfRegistersNotEqual { x, y } => x < 16 && y < 16,
            Instruction::SetIndexImmediate { address } => address < 0x1000,
            Instruction::JumpPlusV0 { address } => address < 0x1000,
            Instruction::RandomMasked { x, .. } => x < 16,
            Instruction::DrawSprite { x, y, height } => x < 16 && y < 16 && height < 16,
            Instruction::SkipIfKeyDown { x } => x < 16,
            Instruction::SkipIfKeyUp { x } => x < 16,
            Instruction::SetRegisterFromDelay { x } => x < 16,
            Instruction::WaitForKeyInto { x } => x < 16,
            Instruction::SetDelayFromRegister { x } => x < 16,
            Instruction::SetSoundFromRegister { x } => x < 16,
            Instruction::AddToIndex { x } => x < 16,
            Instruction::LoadSpriteAddress { x } => x < 16,
            Instruction::StoreBcd { x } => x < 16,
            Instruction::DumpRegisters { x } => x < 16,
            Instruction::LoadRegisters { x } => x < 16,
        }
    }
}

/// The operand fields of a word are within their widths.
pub proof fn lemma_fields_bounded(w: u16)
    ensures
        x_of(w) < 16,
        y_of(w) < 16,
        n_of(w) < 16,
        nnn_of(w) < 0x1000,
        family_of(w) < 16,
{
    assert((w >> 8u16) & 0xFu16 < 16) by (bit_vector);
    assert((w >> 4u16) & 0xFu16 < 16) by (bit_vector);
    assert(w & 0xFu16 < 16) by (bit_vector);
    assert(w & 0xFFFu16 < 0x1000) by (bit_vector);
    assert(w >> 12u16 < 16) by (bit_vector);
}

/// Decodes one instruction word. Words of family 0 other than 00E0 and 00EE
/// are the legacy native call; a word that matches no pattern gives `None`.
pub fn decode(word: u16) -> (r: Option<Instruction>)
    ensures
        r == decoded(word),
        r matches Some(ins) ==> ins.wf(),
{
    proof {
        lemma_fields_bounded(word);
    }
    let x = ((word >> 8) & 0xF) as u8;
    let y = ((word >> 4) & 0xF) as u8;
    let n = (word & 0xF) as u8;
    let kk = (word & 0xFF) as u8;
    let nnn = word & 0xFFF;
    match word >> 12 {
        0x0 => {
            if word == 0x00E0 {
                Some(Instruction::ClearScreen)
            } else if word == 0x00EE {
                Some(Instruction::Return)
            } else {
                Some(Instruction::CallNative { address: nnn })
            }
        },
        0x1 => Some(Instruction::Jump { address: nnn }),
        0x2 => Some(Instruction::Call { address: nnn }),
        0x3 => Some(Instruction::SkipIfEqual { x, value: kk }),
        0x4 => Some(Instruction::SkipIfNotEqual { x, value: kk }),
        0x5 => Some(Instruction::SkipIfRegistersEqual { x, y }),
        0x6 => Some(Instruction::SetImmediate { x, value: kk }),
        0x7 => Some(Instruction::AddImmediate { x, value: kk }),
        0x8 => match n {
            0x0 => Some(Instruction::CopyRegister { x, y }),
            0x1 => Some(Instruction::BitwiseOr { x, y }),
            0x2 => Some(Instruction::BitwiseAnd { x, y }),
            0x3 => Some(Instruction::BitwiseXor { x, y }),
            0x4 => Some(Instruction::AddWithCarry { x, y }),
            0x5 => Some(Instruction::SubWithBorrow { x, y }),
            0x6 => Some(Instruction::ShiftRight { x, y }),
            0x7 => Some(Instruction::ReverseSubtract { x, y }),
            0xE => Some(Instruction::ShiftLeft { x, y }),
            _ => None,
        },
        0x9 => Some(Instruction::SkipIfRegistersNotEqual { x, y }),
        0xA => Some(Instruction::SetIndexImmediate { address: nnn }),
        0xB => Some(Instruction::JumpPlusV0 { address: nnn }),
        0xC => Some(Instruction::RandomMasked { x, mask: kk }),
        0xD => Some(Instruction::DrawSprite { x, y, height: n }),
        0xE => match kk {
            0x9E => Some(Instruction::SkipIfKeyDown { x }),
            0xA1 => Some(Instruction::SkipIfKeyUp { x }),
            _ => None,
        },
        _ => match kk {
            0x07 => Some(Instruction::SetRegisterFromDelay { x }),
            0x0A => Some(Instruction::WaitForKeyInto { x }),
            0x15 => Some(Instruction::SetDelayFromRegister { x }),
            0x18 => Some(Instruction::SetSoundFromRegister { x }),
            0x1E => Some(Instruction::AddToIndex { x }),
            0x29 => Some(Instruction::LoadSpriteAddress { x }),
            0x33 => Some(Instruction::StoreBcd { x }),
            0x55 => Some(Instruction::DumpRegisters { x }),
            0x65 => Some(Instruction::LoadRegisters { x }),
            _ => None,
        },
    }
}

} // verus!
