use vstd::prelude::*;

verus! {

/// One decoded instruction. `x` and `y` name registers, `kk` is an immediate
/// byte, `addr` a twelve-bit address and `n` a sprite height.
#[derive(Clone, Copy, Debug, PartialEq, Eq, Structural)]
pub enum Instruction {
    /// `00E0`: switch every pixel off.
    ClearScreen,
    /// `00EE`: return from a subroutine.
    Return,
    /// `1nnn`: jump to `addr`.
    Jump { addr: u16 },
    /// `2nnn`: call the subroutine at `addr`.
    Call { addr: u16 },
    /// `3Xkk`: skip the next instruction if `VX == kk`.
    SkipIfEqual { x: u8, kk: u8 },
    /// `4Xkk`: skip the next instruction if `VX != kk`.
    SkipIfNotEqual { x: u8, kk: u8 },
    /// `5XY0`: skip the next instruction if `VX == VY`.
    SkipIfSame { x: u8, y: u8 },
    /// `6Xkk`: `VX = kk`.
    LoadByte { x: u8, kk: u8 },
    /// `7Xkk`: `VX = VX + kk`, wrapping, flag untouched.
    AddByte { x: u8, kk: u8 },
    /// `8XY0`: `VX = VY`.
    Copy { x: u8, y: u8 },
    /// `8XY1`: `VX = VX | VY`.
    Or { x: u8, y: u8 },
    /// `8XY2`: `VX = VX & VY`.
    And { x: u8, y: u8 },
    /// `8XY3`: `VX = VX ^ VY`.
    Xor { x: u8, y: u8 },
    /// `8XY4`: `VX = VX + VY`, wrapping; `VF` is the carry.
    Add { x: u8, y: u8 },
    /// `8XY5`: `VX = VX - VY`, wrapping; `VF` is 1 when nothing was borrowed.
    Subtract { x: u8, y: u8 },
    /// `8XY6`: `VX` shifted right by one; `VF` is the bit shifted out.
    ShiftRight { x: u8 },
    /// `8XY7`: `VX = VY - VX`, wrapping; `VF` is 1 when nothing was borrowed.
    SubtractFrom { x: u8, y: u8 },
    /// `8XYE`: `VX` shifted left by one; `VF` is the bit shifted out.
    ShiftLeft { x: u8 },
    /// `9XY0`: skip the next instruction if `VX != VY`.
    SkipIfDifferent { x: u8, y: u8 },
    /// `Annn`: `I = addr`.
    LoadIndex { addr: u16 },
    /// `Bnnn`: jump to `addr + V0`.
    JumpOffset { addr: u16 },
    /// `CXkk`: `VX` = a random byte masked with `kk`.
    Random { x: u8, kk: u8 },
    /// `DXYN`: draw the `n`-row sprite at `I` at position `(VX, VY)`.
    Draw { x: u8, y: u8, n: u8 },
    /// `EX9E`: skip the next instruction if key `VX` is held down.
    SkipIfKey { x: u8 },
    /// `EXA1`: skip the next instruction if key `VX` is not held down.
    SkipIfNotKey { x: u8 },
    /// `FX07`: `VX` = delay timer.
    ReadDelay { x: u8 },
    /// `FX0A`: wait until a key is held down, then put its number in `VX`.
    WaitKey { x: u8 },
    /// `FX15`: delay timer = `VX`.
    SetDelay { x: u8 },
    /// `FX18`: sound timer = `VX`.
    SetSound { x: u8 },
    /// `FX1E`: `I = I + VX`, wrapping at sixteen bits.
    AddIndex { x: u8 },
    /// `FX29`: `I` = address of the glyph for `VX`.
    Glyph { x: u8 },
    /// `FX33`: store the three decimal digits of `VX` at `I`, `I+1`, `I+2`.
    Decimal { x: u8 },
    /// `FX55`: store `V0..=VX` at `I` onwards.
    Store { x: u8 },
    /// `FX65`: load `V0..=VX` from `I` onwards.
    Load { x: u8 },
    /// Any other word.
    Unknown { opcode: u16 },
}

impl Instruction {
    /// Whether the register numbers, the address and the sprite height are in
    /// range, as they are in every decoded instruction.
    pub open spec fn wf(self) -> bool {
        match self {
            Instruction::ClearScreen | Instruction::Return => true,
            Instruction::Jump { addr } | Instruction::Call { addr } | Instruction::LoadIndex {
                addr,
            } | Instruction::JumpOffset { addr } => addr < 0x1000,
            Instruction::SkipIfEqual { x, kk } | Instruction::SkipIfNotEqual { x, kk }
            | Instruction::LoadByte { x, kk } | Instruction::AddByte { x, kk }
            | Instruction::Random { x, kk } => x < 16,
            Instruction::SkipIfSame { x, y } | Instruction::Copy { x, y } | Instruction::Or {
                x,
                y,
            } | Instruction::And { x, y } | Instruction::Xor { x, y } | Instruction::Add { x, y }
            | Instruction::Subtract { x, y } | Instruction::SubtractFrom { x, y }
            | Instruction::SkipIfDifferent { x, y } => x < 16 && y < 16,
            Instruction::Draw { x, y, n } => x < 16 && y < 16 && n < 16,
            Instruction::ShiftRight { x } | Instruction::ShiftLeft { x } | Instruction::SkipIfKey {
                x,
            } | Instruction::SkipIfNotKey { x } | Instruction::ReadDelay { x }
            | Instruction::WaitKey { x } | Instruction::SetDelay { x } | Instruction::SetSound {
                x,
            } | Instruction::AddIndex { x } | Instruction::Glyph { x } | Instruction::Decimal { x }
            | Instruction::Store { x } | Instruction::Load { x } => x < 16,
            Instruction::Unknown { opcode } => true,
        }
    }
}

/// The word made of two bytes, the first one being the high half.
pub open spec fn spec_opcode(hi: u8, lo: u8) -> u16 {
    (hi * 256 + lo) as u16
}

/// The four nibbles of a word, highest first.
pub open spec fn spec_nibbles(opcode: u16) -> Seq<u8> {
    seq![
        (opcode / 4096) as u8,
        (opcode / 256 % 16) as u8,
        (opcode / 16 % 16) as u8,
        (opcode % 16) as u8,
    ]
}

/// The low twelve bits of a word.
pub open spec fn spec_address(opcode: u16) -> u16 {
    opcode % 4096
}

/// The low eight bits of a word.
pub open spec fn spec_immediate(opcode: u16) -> u8 {
    (opcode % 256) as u8
}

/// The instruction that a word stands for.
pub open spec fn spec_decode(opcode: u16) -> Instruction {
    let n = spec_nibbles(opcode);
    let (x, y, n3) = (n[1], n[2], n[3]);
    let addr = spec_address(opcode);
    let kk = spec_immediate(opcode);
    if n[0] == 0x0 {
        if opcode == 0x00E0 {
            Instruction::ClearScreen
        } else if opcode == 0x00EE {
            Instruction::Return
        } else {
            Instruction::Unknown { opcode }
        }
    } else if n[0] == 0x1 {
        Instruction::Jump { addr }
    } else if n[0] == 0x2 {
        Instruction::Call { addr }
    } else if n[0] == 0x3 {
        Instruction::SkipIfEqual { x, kk }
    } else if n[0] == 0x4 {
        Instruction::SkipIfNotEqual { x, kk }
    } else if n[0] == 0x5 {
        if n3 == 0x0 {
            Instruction::SkipIfSame { x, y }
        } else {
            Instruction::Unknown { opcode }
        }
    } else if n[0] == 0x6 {
        Instruction::LoadByte { x, kk }
    } else if n[0] == 0x7 {
        Instruction::AddByte { x, kk }
    } else if n[0] == 0x8 {
        if n3 == 0x0 {
            Instruction::Copy { x, y }
        } else if n3 == 0x1 {
            Instruction::Or { x, y }
        } else if n3 == 0x2 {
            Instruction::And { x, y }
        } else if n3 == 0x3 {
            Instruction::Xor { x, y }
        } else if n3 == 0x4 {
            Instruction::Add { x, y }
        } else if n3 == 0x5 {
            Instruction::Subtract { x, y }
        } else if n3 == 0x6 {
            Instruction::ShiftRight { x }
        } else if n3 == 0x7 {
            Instruction::SubtractFrom { x, y }
        } else if n3 == 0xE {
            Instruction::ShiftLeft { x }
        } else {
            Instruction::Unknown { opcode }
        }
    } else if n[0] == 0x9 {
        if n3 == 0x0 {
            Instruction::SkipIfDifferent { x, y }
        } else {
            Instruction::Unknown { opcode }
        }
    } else if n[0] == 0xA {
        Instruction::LoadIndex { addr }
    } else if n[0] == 0xB {
        Instruction::JumpOffset { addr }
    } else if n[0] == 0xC {
        Instruction::Random { x, kk }
    } else if n[0] == 0xD {
        Instruction::Draw { x, y, n: n3 }
    } else if n[0] == 0xE {
        if kk == 0x9E {
            Instruction::SkipIfKey { x }
        } else if kk == 0xA1 {
            Instruction::SkipIfNotKey { x }
        } else {
            Instruction::Unknown { opcode }
        }
    } else {
        if kk == 0x07 {
            Instruction::ReadDelay { x }
        } else if kk == 0x0A {
            Instruction::WaitKey { x }
        } else if kk == 0x15 {
            Instruction::SetDelay { x }
        } else if kk == 0x18 {
            Instruction::SetSound { x }
        } else if kk == 0x1E {
            Instruction::AddIndex { x }
        } else if kk == 0x29 {
            Instruction::Glyph { x }
        } else if kk == 0x33 {
            Instruction::Decimal { x }
        } else if kk == 0x55 {
            Instruction::Store { x }
        } else if kk == 0x65 {
            Instruction::Load { x }
        } else {
            Instruction::Unknown { opcode }
        }
    }
}

/// Joins two bytes into a word, the first one being the high half.
pub fn opcode_from_bytes(hi: u8, lo: u8) -> (opcode: u16)
    ensures
        opcode == spec_opcode(hi, lo),
{
    let opcode: u16 = ((hi as u16) << 8) | (lo as u16);
    assert(((hi as u16) << 8) | (lo as u16) == (hi as u16) * 256 + (lo as u16)) by (bit_vector);
    opcode
}

/// Splits a word into its four nibbles, highest first.
pub fn nibbles_from_u16(var: u16) -> (nibbles: [u8; 4])
    ensures
        nibbles@ == spec_nibbles(var),
{
    assert((var >> 12) == var / 4096 && (var >> 8 & 0xF) == var / 256 % 16 && (var >> 4 & 0xF)
        == var / 16 % 16 && (var & 0xF) == var % 16) by (bit_vector);
    let nibbles: [u8; 4] = [
        (var >> 12) as u8,
        (var >> 8 & 0xF) as u8,
        (var >> 4 & 0xF) as u8,
        (var & 0xF) as u8,
    ];
    assert(nibbles@ =~= spec_nibbles(var));
    nibbles
}

/// Tells which instruction a word stands for.
pub fn decode(opcode: u16) -> (instruction: Instruction)
    ensures
        instruction == spec_decode(opcode),
        instruction.wf(),
{
    let nibbles: [u8; 4] = nibbles_from_u16(opcode);
    assert((opcode & 0xFFF) == opcode % 4096 && (opcode & 0xFF) == opcode % 256) by (bit_vector);
    let addr: u16 = opcode & 0xFFF;
    let kk: u8 = (opcode & 0xFF) as u8;
    let x: u8 = nibbles[1];
    let y: u8 = nibbles[2];
    let n: u8 = nibbles[3];
    assert(kk as int == 16 * y + n);
    assert(opcode as int == 4096 * nibbles[0] + 256 * x + kk);
    match (nibbles[0], x, y, n) {
        (0x0, 0x0, 0xE, 0x0) => Instruction::ClearScreen,
        (0x0, 0x0, 0xE, 0xE) => Instruction::Return,
        (0x1, _, _, _) => Instruction::Jump { addr },
        (0x2, _, _, _) => Instruction::Call { addr },
        (0x3, _, _, _) => Instruction::SkipIfEqual { x, kk },
        (0x4, _, _, _) => Instruction::SkipIfNotEqual { x, kk },
        (0x5, _, _, 0x0) => Instruction::SkipIfSame { x, y },
        (0x6, _, _, _) => Instruction::LoadByte { x, kk },
        (0x7, _, _, _) => Instruction::AddByte { x, kk },
        (0x8, _, _, 0x0) => Instruction::Copy { x, y },
        (0x8, _, _, 0x1) => Instruction::Or { x, y },
        (0x8, _, _, 0x2) => Instruction::And { x, y },
        (0x8, _, _, 0x3) => Instruction::Xor { x, y },
        (0x8, _, _, 0x4) => Instruction::Add { x, y },
        (0x8, _, _, 0x5) => Instruction::Subtract { x, y },
        (0x8, _, _, 0x6) => Instruction::ShiftRight { x },
        (0x8, _, _, 0x7) => Instruction::SubtractFrom { x, y },
        (0x8, _, _, 0xE) => Instruction::ShiftLeft { x },
        (0x9, _, _, 0x0) => Instruction::SkipIfDifferent { x, y },
        (0xA, _, _, _) => Instruction::LoadIndex { addr },
        (0xB, _, _, _) => Instruction::JumpOffset { addr },
        (0xC, _, _, _) => Instruction::Random { x, kk },
        (0xD, _, _, _) => Instruction::Draw { x, y, n },
        (0xE, _, 0x9, 0xE) => Instruction::SkipIfKey { x },
        (0xE, _, 0xA, 0x1) => Instruction::SkipIfNotKey { x },
        (0xF, _, 0x0, 0x7) => Instruction::ReadDelay { x },
        (0xF, _, 0x0, 0xA) => Instruction::WaitKey { x },
        (0xF, _, 0x1, 0x5) => Instruction::SetDelay { x },
        (0xF, _, 0x1, 0x8) => Instruction::SetSound { x },
        (0xF, _, 0x1, 0xE) => Instruction::AddIndex { x },
        (0xF, _, 0x2, 0x9) => Instruction::Glyph { x },
        (0xF, _, 0x3, 0x3) => Instruction::Decimal { x },
        (0xF, _, 0x5, 0x5) => Instruction::Store { x },
        (0xF, _, 0x6, 0x5) => Instruction::Load { x },
        _ => Instruction::Unknown { opcode },
    }
}

} // verus!
