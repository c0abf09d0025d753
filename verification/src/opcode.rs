//! Instruction words and their decoding.
//!
//! A CHIP-8 instruction is one 16-bit word. Its top nibble selects a group;
//! the remaining twelve bits hold, depending on the group, two register
//! numbers `x` and `y`, a nibble `n`, a byte `nn` or an address `nnn`.
//! The fields are specified arithmetically and computed with masks and
//! shifts; the two are proved to agree.

use vstd::prelude::*;

verus! {

/// One decoded instruction. Register numbers are below 16, `n` is below 16
/// and addresses are below 4096 in every value that `decode` produces.
#[derive(Clone, Copy, Debug, PartialEq, Eq, Structural)]
pub enum Instruction {
    /// `00E0`: clear the framebuffer.
    ClearScreen,
    /// `00EE`: return from a subroutine.
    Return,
    /// `1nnn`: jump to `nnn`.
    Jump { addr: u16 },
    /// `2nnn`: call the subroutine at `nnn`.
    Call { addr: u16 },
    /// `3xnn`: skip the next instruction if `Vx == nn`.
    SkipEqByte { x: usize, nn: u8 },
    /// `4xnn`: skip the next instruction if `Vx != nn`.
    SkipNeByte { x: usize, nn: u8 },
    /// `5xy0`: skip the next instruction if `Vx == Vy`.
    SkipEqReg { x: usize, y: usize },
    /// `6xnn`: `Vx = nn`.
    LoadByte { x: usize, nn: u8 },
    /// `7xnn`: `Vx = Vx + nn`, wrapping, flag untouched.
    AddByte { x: usize, nn: u8 },
    /// `8xy0`: `Vx = Vy`.
    Move { x: usize, y: usize },
    /// `8xy1`: `Vx = Vx | Vy`.
    Or { x: usize, y: usize },
    /// `8xy2`: `Vx = Vx & Vy`.
    And { x: usize, y: usize },
    /// `8xy3`: `Vx = Vx ^ Vy`.
    Xor { x: usize, y: usize },
    /// `8xy4`: `Vx = Vx + Vy`, wrapping, with the carry in `VF`.
    AddReg { x: usize, y: usize },
    /// `8xy5`: `Vx = Vx - Vy`, wrapping, with the borrow in `VF`.
    SubReg { x: usize, y: usize },
    /// `8xy6`: `VF` takes the lowest bit of `Vx`, then `Vx` is shifted right.
    ShiftRight { x: usize },
    /// `8xy7`: `Vx = Vy - Vx`, wrapping, with the borrow in `VF`.
    SubFrom { x: usize, y: usize },
    /// `8xyE`: `VF` takes the highest bit of `Vx`, then `Vx` is shifted left.
    ShiftLeft { x: usize },
    /// `9xy0`: skip the next instruction if `Vx != Vy`.
    SkipNeReg { x: usize, y: usize },
    /// `Annn`: `I = nnn`.
    LoadIndex { addr: u16 },
    /// `Bnnn`: jump to `V0 + nnn`.
    JumpOffset { addr: u16 },
    /// `Cxnn`: `Vx = random & nn`.
    Random { x: usize, nn: u8 },
    /// `Dxyn`: draw the `n`-row sprite at `I` to `(Vx, Vy)`.
    Draw { x: usize, y: usize, n: usize },
    /// `Ex9E`: skip the next instruction if key `Vx` is pressed.
    SkipKeyDown { x: usize },
    /// `ExA1`: skip the next instruction if key `Vx` is not pressed.
    SkipKeyUp { x: usize },
    /// `Fx07`: `Vx = delay timer`.
    ReadDelay { x: usize },
    /// `Fx0A`: wait for a key and store its number in `Vx`.
    WaitKey { x: usize },
    /// `Fx15`: `delay timer = Vx`.
    SetDelay { x: usize },
    /// `Fx18`: `sound timer = Vx`.
    SetSound { x: usize },
    /// `Fx1E`: `I = I + Vx`.
    AddIndex { x: usize },
    /// `Fx29`: `I =` address of the glyph for the hex digit in `Vx`.
    Glyph { x: usize },
    /// `Fx33`: store the three decimal digits of `Vx` at `I`, `I+1`, `I+2`.
    StoreDecimal { x: usize },
    /// `Fx55`: store `V0..=Vx` to memory at `I`.
    StoreRegs { x: usize },
    /// `Fx65`: load `V0..=Vx` from memory at `I`.
    LoadRegs { x: usize },
}

/// Bits 12 to 15 of the word: the instruction group.
pub open spec fn group(op: u16) -> int {
    op as int / 0x1000
}

/// Bits 8 to 11 of the word: the register number `x`.
pub open spec fn reg_x(op: u16) -> usize {
    ((op as int / 0x100) % 0x10) as usize
}

/// Bits 4 to 7 of the word: the register number `y`.
pub open spec fn reg_y(op: u16) -> usize {
    ((op as int / 0x10) % 0x10) as usize
}

/// Bits 0 to 3 of the word: the nibble `n`.
pub open spec fn nibble(op: u16) -> usize {
    (op as int % 0x10) as usize
}

/// Bits 0 to 7 of the word: the byte `nn`.
pub open spec fn byte(op: u16) -> u8 {
    (op as int % 0x100) as u8
}

/// Bits 0 to 11 of the word: the address `nnn`.
pub open spec fn address(op: u16) -> u16 {
    (op as int % 0x1000) as u16
}

/// The instruction that a word encodes, or `None` where it encodes none.
pub open spec fn decode_spec(op: u16) -> Option<Instruction> {
    let x = reg_x(op);
    let y = reg_y(op);
    let n = nibble(op);
    let nn = byte(op);
    let addr = address(op);
    let g = group(op);
    if g == 0x0 {
        if op == 0x00E0 {
            Some(Instruction::ClearScreen)
        } else if op == 0x00EE {
            Some(Instruction::Return)
        } else {
            None
        }
    } else if g == 0x1 {
        Some(Instruction::Jump { addr })
    } else if g == 0x2 {
        Some(Instruction::Call { addr })
    } else if g == 0x3 {
        Some(Instruction::SkipEqByte { x, nn })
    } else if g == 0x4 {
        Some(Instruction::SkipNeByte { x, nn })
    } else if g == 0x5 {
        if n == 0 {
            Some(Instruction::SkipEqReg { x, y })
        } else {
            None
        }
    } else if g == 0x6 {
        Some(Instruction::LoadByte { x, nn })
    } else if g == 0x7 {
        Some(Instruction::AddByte { x, nn })
    } else if g == 0x8 {
        if n == 0x0 {
            Some(Instruction::Move { x, y })
        } else if n == 0x1 {
            Some(Instruction::Or { x, y })
        } else if n == 0x2 {
            Some(Instruction::And { x, y })
        } else if n == 0x3 {
            Some(Instruction::Xor { x, y })
        } else if n == 0x4 {
            Some(Instruction::AddReg { x, y })
        } else if n == 0x5 {
            Some(Instruction::SubReg { x, y })
        } else if n == 0x6 {
            Some(Instruction::ShiftRight { x })
        } else if n == 0x7 {
            Some(Instruction::SubFrom { x, y })
        } else if n == 0xE {
            Some(Instruction::ShiftLeft { x })
        } else {
            None
        }
    } else if g == 0x9 {
        if n == 0 {
            Some(Instruction::SkipNeReg { x, y })
        } else {
            None
        }
    } else if g == 0xA {
        Some(Instruction::LoadIndex { addr })
    } else if g == 0xB {
        Some(Instruction::JumpOffset { addr })
    } else if g == 0xC {
        Some(Instruction::Random { x, nn })
    } else if g == 0xD {
        Some(Instruction::Draw { x, y, n })
    } else if g == 0xE {
        if nn == 0x9E {
            Some(Instruction::SkipKeyDown { x })
        } else if nn == 0xA1 {
            Some(Instruction::SkipKeyUp { x })
        } else {
            None
        }
    } else {
        if nn == 0x07 {
            Some(Instruction::ReadDelay { x })
        } else if nn == 0x0A {
            Some(Instruction::WaitKey { x })
        } else if nn == 0x15 {
            Some(Instruction::SetDelay { x })
        } else if nn == 0x18 {
            Some(Instruction::SetSound { x })
        } else if nn == 0x1E {
            Some(Instruction::AddIndex { x })
        } else if nn == 0x29 {
            Some(Instruction::Glyph { x })
        } else if nn == 0x33 {
            Some(Instruction::StoreDecimal { x })
        } else if nn == 0x55 {
            Some(Instruction::StoreRegs { x })
        } else if nn == 0x65 {
            Some(Instruction::LoadRegs { x })
        } else {
            None
        }
    }
}

impl Instruction {
    /// Register numbers are below 16, the row count is below 16 and
    /// addresses are below 4096.
    pub open spec fn wf(self) -> bool {
        match self {
            Instruction::ClearScreen | Instruction::Return => true,
            Instruction::Jump { addr }
            | Instruction::Call { addr }
            | Instruction::LoadIndex { addr }
            | Instruction::JumpOffset { addr } => addr < 0x1000,
            Instruction::SkipEqByte { x, .. }
            | Instruction::SkipNeByte { x, .. }
            | Instruction::LoadByte { x, .. }
            | Instruction::AddByte { x, .. }
            | Instruction::Random { x, .. }
            | Instruction::ShiftRight { x }
            | Instruction::ShiftLeft { x }
            | Instruction::SkipKeyDown { x }
            | Instruction::SkipKeyUp { x }
            | Instruction::ReadDelay { x }
            | Instruction::WaitKey { x }
            | Instruction::SetDelay { x }
            | Instruction::SetSound { x }
            | Instruction::AddIndex { x }
            | Instruction::Glyph { x }
            | Instruction::StoreDecimal { x }
            | Instruction::StoreRegs { x }
            | Instruction::LoadRegs { x } => x < 16,
            Instruction::SkipEqReg { x, y }
            | Instruction::Move { x, y }
            | Instruction::Or { x, y }
            | Instruction::And { x, y }
            | Instruction::Xor { x, y }
            | Instruction::AddReg { x, y }
            | Instruction::SubReg { x, y }
            | Instruction::SubFrom { x, y }
            | Instruction::SkipNeReg { x, y } => x < 16 && y < 16,
            Instruction::Draw { x, y, n } => x < 16 && y < 16 && n < 16,
        }
    }

    /// Whether the instruction marks the framebuffer as changed.
    pub open spec fn draws(self) -> bool {
        self is ClearScreen || self is Draw
    }

    /// Whether the instruction consumes a random byte.
    pub open spec fn is_random(self) -> bool {
        self is Random
    }

    /// Whether the instruction computes a new value for `Vx` from registers
    /// and the instruction word alone.
    pub open spec fn is_alu(self) -> bool {
        self is LoadByte || self is AddByte || self is Move || self is Or || self is And
            || self is Xor || self is AddReg || self is SubReg || self is ShiftRight
            || self is SubFrom || self is ShiftLeft || self is Random
    }

    /// Whether the instruction is a jump, a call or a return.
    pub open spec fn is_flow(self) -> bool {
        self is Return || self is Jump || self is Call || self is JumpOffset
    }

    /// Whether the instruction works on the index register, the timers or
    /// the keypad.
    pub open spec fn is_system(self) -> bool {
        self is LoadIndex || self is ReadDelay || self is WaitKey || self is SetDelay
            || self is SetSound || self is AddIndex || self is Glyph
    }

    /// Whether the instruction works on the framebuffer or on the memory
    /// at `I`.
    pub open spec fn is_memory(self) -> bool {
        self is ClearScreen || self is Draw || self is StoreDecimal || self is StoreRegs
            || self is LoadRegs
    }

    /// Whether the instruction is a conditional skip.
    pub open spec fn is_skip(self) -> bool {
        self is SkipEqByte || self is SkipNeByte || self is SkipEqReg || self is SkipNeReg
            || self is SkipKeyDown || self is SkipKeyUp
    }
}

/// Every instruction that a word decodes to is well formed.
pub proof fn lemma_decode_wf(op: u16)
    ensures
        decode_spec(op) matches Some(instr) ==> instr.wf(),
{
}

/// The fields of the word that the bytes `high` and `low` form, read off
/// the two bytes: the group and `x` are the nibbles of `high`, `y` and `n`
/// those of `low`, and `nn` is `low`.
pub proof fn lemma_fields_of_bytes(high: u8, low: u8)
    ensures
        group((high * 0x100 + low) as u16) == high / 0x10,
        reg_x((high * 0x100 + low) as u16) == high % 0x10,
        reg_y((high * 0x100 + low) as u16) == low / 0x10,
        nibble((high * 0x100 + low) as u16) == low % 0x10,
        byte((high * 0x100 + low) as u16) == low,
        address((high * 0x100 + low) as u16) == (high % 0x10) * 0x100 + low,
{
}

fn field_x(op: u16) -> (x: usize)
    ensures
        x == reg_x(op),
        x < 16,
{
    let x: u16 = (op & 0x0F00) >> 8;
    assert(((op & 0x0F00) >> 8) == (op / 0x100) % 0x10) by (bit_vector);
    x as usize
}

fn field_y(op: u16) -> (y: usize)
    ensures
        y == reg_y(op),
        y < 16,
{
    let y: u16 = (op & 0x00F0) >> 4;
    assert(((op & 0x00F0) >> 4) == (op / 0x10) % 0x10) by (bit_vector);
    y as usize
}

fn field_n(op: u16) -> (n: usize)
    ensures
        n == nibble(op),
        n < 16,
{
    let n: u16 = op & 0x000F;
    assert((op & 0x000F) == op % 0x10) by (bit_vector);
    n as usize
}

fn field_nn(op: u16) -> (nn: u8)
    ensures
        nn == byte(op),
{
    let nn: u16 = op & 0x00FF;
    assert((op & 0x00FF) == op % 0x100) by (bit_vector);
    nn as u8
}

fn field_nnn(op: u16) -> (addr: u16)
    ensures
        addr == address(op),
        addr < 0x1000,
{
    let addr: u16 = op & 0x0FFF;
    assert((op & 0x0FFF) == op % 0x1000) by (bit_vector);
    addr
}

fn field_group(op: u16) -> (g: u16)
    ensures
        g == group(op),
        g < 16,
{
    let g: u16 = (op & 0xF000) >> 12;
    assert(((op & 0xF000) >> 12) == op / 0x1000) by (bit_vector);
    g
}

/// Decodes one instruction word.
///
/// Dispatch is on the group nibble first and then, in the groups that hold
/// several instructions, on the low nibble or the low byte.
pub fn decode(op: u16) -> (r: Option<Instruction>)
    ensures
        r == decode_spec(op),
        r matches Some(instr) ==> instr.wf(),
{
    let x: usize = field_x(op);
    let y: usize = field_y(op);
    let n: usize = field_n(op);
    let nn: u8 = field_nn(op);
    let addr: u16 = field_nnn(op);
    match field_group(op) {
        0x0 => match op {
            0x00E0 => Some(Instruction::ClearScreen),
            0x00EE => Some(Instruction::Return),
            _ => None,
        },
        0x1 => Some(Instruction::Jump { addr }),
        0x2 => Some(Instruction::Call { addr }),
        0x3 => Some(Instruction::SkipEqByte { x, nn }),
        0x4 => Some(Instruction::SkipNeByte { x, nn }),
        0x5 => if n == 0 {
            Some(Instruction::SkipEqReg { x, y })
        } else {
            None
        },
        0x6 => Some(Instruction::LoadByte { x, nn }),
        0x7 => Some(Instruction::AddByte { x, nn }),
        0x8 => match n {
            0x0 => Some(Instruction::Move { x, y }),
            0x1 => Some(Instruction::Or { x, y }),
            0x2 => Some(Instruction::And { x, y }),
            0x3 => Some(Instruction::Xor { x, y }),
            0x4 => Some(Instruction::AddReg { x, y }),
            0x5 => Some(Instruction::SubReg { x, y }),
            0x6 => Some(Instruction::ShiftRight { x }),
            0x7 => Some(Instruction::SubFrom { x, y }),
            0xE => Some(Instruction::ShiftLeft { x }),
            _ => None,
        },
        0x9 => if n == 0 {
            Some(Instruction::SkipNeReg { x, y })
        } else {
            None
        },
        0xA => Some(Instruction::LoadIndex { addr }),
        0xB => Some(Instruction::JumpOffset { addr }),
        0xC => Some(Instruction::Random { x, nn }),
        0xD => Some(Instruction::Draw { x, y, n }),
        0xE => match nn {
            0x9E => Some(Instruction::SkipKeyDown { x }),
            0xA1 => Some(Instruction::SkipKeyUp { x }),
            _ => None,
        },
        _ => match nn {
            0x07 => Some(Instruction::ReadDelay { x }),
            0x0A => Some(Instruction::WaitKey { x }),
            0x15 => Some(Instruction::SetDelay { x }),
            0x18 => Some(Instruction::SetSound { x }),
            0x1E => Some(Instruction::AddIndex { x }),
            0x29 => Some(Instruction::Glyph { x }),
            0x33 => Some(Instruction::StoreDecimal { x }),
            0x55 => Some(Instruction::StoreRegs { x }),
            0x65 => Some(Instruction::LoadRegs { x }),
            _ => None,
        },
    }
}

} // verus!
