//! The interpreter: the machine state and the cycle that drives it.

use rand::Rng;
use vstd::prelude::*;
use crate::display::{clear, draw_sprite, GFX_SIZE, GFX_SIZE_COL};
use crate::error::{ExecError, LoadError};
use crate::font::{CHIP8_FONTSET, FONT_SIZE};
use crate::keyboard::{lowest_pressed, lowest_pressed_from, KeyBoard};
use crate::machine::{
    agrees, cycle_agrees, lemma_run_wf, wrap8, Machine, StepReport, FLAG, MAX_PROGRAM_SIZE,
    MEMORY_SIZE, PROGRAM_START, STACK_SIZE, V_SIZE,
};
use crate::opcode::{decode, Instruction};

verus! {

/// The virtual machine. Its view is the `Machine` that the fields spell out.
pub struct Chip8 {
    /// Memory: the font from address 0, the program from 0x200.
    pub memory: [u8; MEMORY_SIZE],
    /// The registers `V0` to `VF`.
    pub v: [u8; V_SIZE],
    /// The index register `I`.
    pub i: u16,
    /// The program counter.
    pub pc: u16,
    /// The framebuffer, row by row, one byte per pixel.
    pub gfx: [u8; GFX_SIZE],
    /// The delay timer.
    pub delay_timer: u8,
    /// The sound timer.
    pub sound_timer: u8,
    /// The return addresses of the calls in progress.
    pub stack: [u16; STACK_SIZE],
    /// The number of stack slots in use.
    pub sp: u16,
    /// Raised when the framebuffer changes; `draw_flag()` reads and lowers it.
    pub draw_flag: bool,
}

impl View for Chip8 {
    type V = Machine;

    open spec fn view(&self) -> Machine {
        Machine {
            memory: self.memory@,
            v: self.v@,
            i: self.i,
            pc: self.pc,
            gfx: self.gfx@,
            delay_timer: self.delay_timer,
            sound_timer: self.sound_timer,
            stack: self.stack@,
            sp: self.sp,
            draw_flag: self.draw_flag,
        }
    }
}

/// The first address of the window that a diagnostic snapshot shows.
pub const DUMP_START: usize = 0x200;

/// The number of bytes in that window: seven rows of sixteen.
pub const DUMP_SIZE: usize = 0x70;

/// A copy of the state for diagnostics: the start of program memory and
/// every register, taken without changing the machine.
#[derive(Clone, Debug, PartialEq, Eq)]
pub struct Snapshot {
    /// The `DUMP_SIZE` bytes of memory from `DUMP_START` on.
    pub memory: Vec<u8>,
    /// The registers `V0` to `VF`.
    pub v: [u8; V_SIZE],
    /// The call stack.
    pub stack: [u16; STACK_SIZE],
    /// The number of stack slots in use.
    pub sp: u16,
    /// The index register.
    pub i: u16,
    /// The program counter.
    pub pc: u16,
    /// The delay timer.
    pub delay_timer: u8,
    /// The sound timer.
    pub sound_timer: u8,
}

/// Draws one byte from the thread-local generator of the `rand` crate,
/// `thread_rng().gen_range(0..=255)`, which samples the whole range of a
/// byte. `gen_range` fails only on an empty range, which this one is not;
/// the generator itself gives up where the operating system hands it no
/// seed. Nothing is claimed of the byte: callers are verified for every
/// value of it.
#[verifier::external_body]
fn random_byte() -> (r: u8) {
    rand::thread_rng().gen_range(0..=255u8)
}

impl Chip8 {
    /// A machine in its power-on state.
    pub fn new() -> (chip8: Chip8)
        ensures
            chip8@ == Machine::initial(),
            chip8@.wf(),
    {
        let mut initial_memory = [0u8;MEMORY_SIZE];
        let mut a: usize = 0;
        while a < FONT_SIZE
            invariant
                a <= 80,
                forall|b: int| 0 <= b < a ==> initial_memory@[b] == CHIP8_FONTSET@[b],
                forall|b: int| a <= b < 4096 ==> initial_memory@[b] == 0,
            decreases 80 - a,
        {
            initial_memory[a] = CHIP8_FONTSET[a];
            a += 1;
        }
        Chip8 {
            memory: initial_memory,
            v: [0;V_SIZE],
            i: 0,
            pc: PROGRAM_START,
            gfx: [0;GFX_SIZE],
            delay_timer: 0,
            sound_timer: 0,
            stack: [0;STACK_SIZE],
            sp: 0,
            draw_flag: false,
        }
    }

    /// Copies a program image into memory from address 0x200 on.
    ///
    /// An image of more than 3584 bytes does not fit: it is refused with
    /// `ImageTooLarge` and the machine is left as it was.
    pub fn load_game(&mut self, image: &[u8]) -> (r: Result<(), LoadError>)
        ensures
            image@.len() <= 3584 ==> r is Ok,
            image@.len() <= 3584 ==> final(self)@ == old(self)@.loaded(image@),
            image@.len() > 3584 ==> r == Err::<(), LoadError>(LoadError::ImageTooLarge),
            image@.len() > 3584 ==> final(self)@ == old(self)@,
            old(self)@.wf() ==> final(self)@.wf(),
    {
        let len: usize = image.len();
        if len > MAX_PROGRAM_SIZE {
            return Err(LoadError::ImageTooLarge);
        }
        let ghost start = self@;
        let mut k: usize = 0;
        while k < len
            invariant
                len == image@.len(),
                len <= 3584,
                k <= len,
                self@ == (Machine { memory: self.memory@, ..start }),
                forall|a: int|
                    0 <= a < 4096 ==> self.memory@[a] == if 0x200 <= a < 0x200 + k {
                        image@[a - 0x200]
                    } else {
                        start.memory[a]
                    },
            decreases len - k,
        {
            self.memory[0x200 + k] = image[k];
            k += 1;
        }
        Ok(())
    }

    /// Moves the program counter on by `by` bytes.
    fn advance(&mut self, by: u16)
        ensures
            final(self)@ == old(self)@.advance(by as int),
    {
        self.pc = self.pc.wrapping_add(by);
    }

    /// Moves the program counter past this instruction and, where `cond`
    /// holds, past the next one too.
    fn skip_if(&mut self, cond: bool)
        ensures
            final(self)@ == old(self)@.skip_if(cond),
    {
        if cond {
            self.advance(4);
        } else {
            self.advance(2);
        }
    }

    /// Sets the flag register to `flag` and then register `x` to `value`.
    fn set_flag_then_v(&mut self, flag: bool, x: usize, value: u8)
        requires
            x < 16,
        ensures
            final(self)@ == old(self)@.with_flag_then_v(flag, x as int, value),
    {
        self.v[FLAG] = if flag {
            1
        } else {
            0
        };
        self.v[x] = value;
    }

    /// The lowest key number that is held, if any key is.
    fn first_pressed(kb: &KeyBoard) -> (r: Option<u8>)
        ensures
            match r {
                Some(k) => lowest_pressed(kb.key@) == Some(k as int),
                None => lowest_pressed(kb.key@) is None,
            },
    {
        let mut k: usize = 0;
        while k < 16
            invariant
                k <= 16,
                lowest_pressed_from(kb.key@, 0) == lowest_pressed_from(kb.key@, k as int),
            decreases 16 - k,
        {
            if kb.key[k] != 0 {
                return Some(k as u8);
            }
            k += 1;
        }
        None
    }

    /// Stores the three decimal digits of `value` at `I`, `I+1` and `I+2`.
    fn store_decimal(&mut self, value: u8)
        requires
            old(self).i + 2 < 4096,
        ensures
            final(self)@ == (Machine {
                memory: old(self)@.decimal_stored(value),
                ..old(self)@
            }),
    {
        let base: usize = self.i as usize;
        self.memory[base] = value / 100;
        self.memory[base + 1] = (value / 10) % 10;
        self.memory[base + 2] = value % 10;
    }

    /// Stores `V0..=Vx` to memory at `I..=I+x`.
    fn store_regs(&mut self, x: usize)
        requires
            x < 16,
            old(self).i + x < 4096,
        ensures
            final(self)@ == (Machine { memory: old(self)@.regs_stored(x as int), ..old(self)@ }),
    {
        let ghost start = self@;
        let base: usize = self.i as usize;
        let mut j: usize = 0;
        while j <= x
            invariant
                x < 16,
                base == start.i,
                base + x < 4096,
                j <= x + 1,
                self@ == (Machine { memory: self.memory@, ..start }),
                forall|a: int|
                    0 <= a < 4096 ==> self.memory@[a] == if base <= a < base + j {
                        start.v[a - base]
                    } else {
                        start.memory[a]
                    },
            decreases x + 1 - j,
        {
            self.memory[base + j] = self.v[j];
            j += 1;
        }
    }

    /// Loads `V0..=Vx` from memory at `I..=I+x`.
    fn load_regs(&mut self, x: usize)
        requires
            x < 16,
            old(self).i + x < 4096,
        ensures
            final(self)@ == (Machine { v: old(self)@.regs_loaded(x as int), ..old(self)@ }),
    {
        let ghost start = self@;
        let base: usize = self.i as usize;
        let mut j: usize = 0;
        while j <= x
            invariant
                x < 16,
                base == start.i,
                base + x < 4096,
                j <= x + 1,
                self@ == (Machine { v: self.v@, ..start }),
                forall|k: int|
                    0 <= k < 16 ==> self.v@[k] == if k < j {
                        start.memory[base + k]
                    } else {
                        start.v[k]
                    },
            decreases x + 1 - j,
        {
            self.v[j] = self.memory[base + j];
            j += 1;
        }
    }

    /// Sets register `x` to `value` and moves on to the next instruction.
    fn set_v(&mut self, x: usize, value: u8)
        requires
            x < 16,
        ensures
            final(self)@ == old(self)@.with_v(x as int, value).advance(2),
    {
        self.v[x] = value;
        self.advance(2);
    }

    /// Sets the flag register and then register `x`, and moves on to the
    /// next instruction.
    fn set_flagged(&mut self, flag: bool, x: usize, value: u8)
        requires
            x < 16,
        ensures
            final(self)@ == old(self)@.with_flag_then_v(flag, x as int, value).advance(2),
    {
        self.set_flag_then_v(flag, x, value);
        self.advance(2);
    }

    /// `00E0`.
    fn op_clear(&mut self)
        ensures
            Ok::<Machine, ExecError>(final(self)@) == old(self)@.run(
                Instruction::ClearScreen,
                Seq::empty(),
                0,
            ),
    {
        clear(&mut self.gfx);
        self.draw_flag = true;
        self.advance(2);
    }

    /// `00EE`.
    fn op_return(&mut self) -> (r: Result<(), ExecError>)
        ensures
            match old(self)@.run(Instruction::Return, Seq::empty(), 0) {
                Ok(after) => r is Ok && final(self)@ == after,
                Err(e) => r == Err::<(), ExecError>(e) && final(self)@ == old(self)@,
            },
    {
        if self.sp == 0 {
            return Err(ExecError::StackUnderflow);
        }
        if self.sp > 16 {
            return Err(ExecError::StackOverflow);
        }
        self.sp = self.sp - 1;
        self.pc = self.stack[self.sp as usize].wrapping_add(2);
        Ok(())
    }

    /// `2nnn`.
    fn op_call(&mut self, addr: u16) -> (r: Result<(), ExecError>)
        ensures
            match old(self)@.run(Instruction::Call { addr }, Seq::empty(), 0) {
                Ok(after) => r is Ok && final(self)@ == after,
                Err(e) => r == Err::<(), ExecError>(e) && final(self)@ == old(self)@,
            },
    {
        if self.sp >= 16 {
            return Err(ExecError::StackOverflow);
        }
        self.stack[self.sp as usize] = self.pc;
        self.sp = self.sp + 1;
        self.pc = addr;
        Ok(())
    }

    /// `8xy6`.
    fn op_shift_right(&mut self, x: usize)
        requires
            x < 16,
        ensures
            Ok::<Machine, ExecError>(final(self)@) == old(self)@.run(
                Instruction::ShiftRight { x },
                Seq::empty(),
                0,
            ),
    {
        let vx: u8 = self.v[x];
        assert(vx & 0x01 == vx % 2) by (bit_vector);
        self.v[FLAG] = vx & 0x01;
        let flagged: u8 = self.v[x];
        assert(flagged >> 1 == flagged / 2) by (bit_vector);
        self.v[x] = flagged >> 1;
        self.advance(2);
    }

    /// `8xyE`.
    fn op_shift_left(&mut self, x: usize)
        requires
            x < 16,
        ensures
            Ok::<Machine, ExecError>(final(self)@) == old(self)@.run(
                Instruction::ShiftLeft { x },
                Seq::empty(),
                0,
            ),
    {
        let vx: u8 = self.v[x];
        assert((vx & 0x80) >> 7 == vx / 0x80) by (bit_vector);
        self.v[FLAG] = (vx & 0x80) >> 7;
        let flagged: u8 = self.v[x];
        assert(flagged << 1 == (flagged * 2) % 0x100) by (bit_vector);
        self.v[x] = flagged << 1;
        self.advance(2);
    }

    /// `Dxyn`.
    fn op_draw(&mut self, x: usize, y: usize, n: usize) -> (r: Result<(), ExecError>)
        requires
            x < 16,
            y < 16,
            n < 16,
        ensures
            match old(self)@.run(Instruction::Draw { x, y, n }, Seq::empty(), 0) {
                Ok(after) => r is Ok && final(self)@ == after,
                Err(e) => r == Err::<(), ExecError>(e) && final(self)@ == old(self)@,
            },
    {
        let base: usize = self.i as usize;
        if base + n > MEMORY_SIZE {
            return Err(ExecError::MemoryOutOfBounds);
        }
        let vx: u8 = self.v[x];
        let vy: u8 = self.v[y];
        let collision = draw_sprite(&mut self.gfx, &self.memory, base, vx, vy, n);
        self.v[FLAG] = if collision {
            1
        } else {
            0
        };
        self.draw_flag = true;
        self.advance(2);
        Ok(())
    }

    /// `Fx0A`.
    fn op_wait_key(&mut self, x: usize, kb: &KeyBoard)
        requires
            x < 16,
        ensures
            Ok::<Machine, ExecError>(final(self)@) == old(self)@.run(
                Instruction::WaitKey { x },
                kb.key@,
                0,
            ),
    {
        match Self::first_pressed(kb) {
            Some(k) => {
                self.set_v(x, k);
            },
            None => {},
        }
    }

    /// `Fx29`.
    fn op_glyph(&mut self, x: usize) -> (r: Result<(), ExecError>)
        requires
            x < 16,
        ensures
            match old(self)@.run(Instruction::Glyph { x }, Seq::empty(), 0) {
                Ok(after) => r is Ok && final(self)@ == after,
                Err(e) => r == Err::<(), ExecError>(e) && final(self)@ == old(self)@,
            },
    {
        let c: u8 = self.v[x];
        if c > 0xF {
            return Err(ExecError::InvalidSpriteIndex);
        }
        self.i = (c as u16) * 5;
        self.advance(2);
        Ok(())
    }

    /// `7xnn` and `8xy4`: sets `Vx` to `a + b` reduced to eight bits and,
    /// where `flagged`, the flag register to the carry before that.
    fn op_add(&mut self, x: usize, a: u8, b: u8, flagged: bool)
        requires
            x < 16,
        ensures
            flagged ==> final(self)@ == old(self)@.with_flag_then_v(
                a + b >= 0x100,
                x as int,
                wrap8(a + b),
            ).advance(2),
            !flagged ==> final(self)@ == old(self)@.with_v(x as int, wrap8(a + b)).advance(2),
    {
        let sum: u8 = a.wrapping_add(b);
        if flagged {
            let carry = a as u16 + b as u16 > 0xFF;
            self.set_flagged(carry, x, sum);
        } else {
            self.set_v(x, sum);
        }
    }

    /// `8xy5` and `8xy7`: sets the flag register to the borrow of `a - b`
    /// and then `Vx` to the difference reduced to eight bits.
    fn op_sub(&mut self, x: usize, a: u8, b: u8)
        requires
            x < 16,
        ensures
            final(self)@ == old(self)@.with_flag_then_v(a - b < 0, x as int, wrap8(a - b)).advance(
                2,
            ),
    {
        self.set_flagged(a < b, x, a.wrapping_sub(b));
    }

    /// The instructions that compute a new value for `Vx` from registers
    /// and the instruction word alone.
    fn run_alu(&mut self, instr: Instruction, kb: &KeyBoard, random: u8) -> (r: Result<
        (),
        ExecError,
    >)
        requires
            instr.wf(),
            instr.is_alu(),
        ensures
            agrees(old(self)@.run(instr, kb.key@, random), old(self)@, r, final(self)@),
    {
        match instr {
            Instruction::LoadByte { x, nn } => {
                self.set_v(x, nn);
            },
            Instruction::AddByte { x, nn } => {
                let vx: u8 = self.v[x];
                self.op_add(x, vx, nn, false);
            },
            Instruction::Move { x, y } => {
                let vy: u8 = self.v[y];
                self.set_v(x, vy);
            },
            Instruction::Or { x, y } => {
                let value: u8 = self.v[x] | self.v[y];
                self.set_v(x, value);
            },
            Instruction::And { x, y } => {
                let value: u8 = self.v[x] & self.v[y];
                self.set_v(x, value);
            },
            Instruction::Xor { x, y } => {
                let value: u8 = self.v[x] ^ self.v[y];
                self.set_v(x, value);
            },
            Instruction::AddReg { x, y } => {
                let vx: u8 = self.v[x];
                let vy: u8 = self.v[y];
                self.op_add(x, vx, vy, true);
            },
            Instruction::SubReg { x, y } => {
                let vx: u8 = self.v[x];
                let vy: u8 = self.v[y];
                self.op_sub(x, vx, vy);
            },
            Instruction::ShiftRight { x } => {
                self.op_shift_right(x);
            },
            Instruction::SubFrom { x, y } => {
                let vx: u8 = self.v[x];
                let vy: u8 = self.v[y];
                self.op_sub(x, vy, vx);
            },
            Instruction::ShiftLeft { x } => {
                self.op_shift_left(x);
            },
            Instruction::Random { x, nn } => {
                self.set_v(x, random & nn);
            },
            _ => {},
        }
        Ok(())
    }

    /// The conditional skips.
    fn run_skip(&mut self, instr: Instruction, kb: &KeyBoard, random: u8) -> (r: Result<
        (),
        ExecError,
    >)
        requires
            instr.wf(),
            instr.is_skip(),
        ensures
            agrees(old(self)@.run(instr, kb.key@, random), old(self)@, r, final(self)@),
    {
        let cond = match instr {
            Instruction::SkipEqByte { x, nn } => self.v[x] == nn,
            Instruction::SkipNeByte { x, nn } => self.v[x] != nn,
            Instruction::SkipEqReg { x, y } => self.v[x] == self.v[y],
            Instruction::SkipNeReg { x, y } => self.v[x] != self.v[y],
            Instruction::SkipKeyDown { x } => {
                let k: usize = self.v[x] as usize;
                k < 16 && kb.key[k] != 0
            },
            Instruction::SkipKeyUp { x } => {
                let k: usize = self.v[x] as usize;
                !(k < 16 && kb.key[k] != 0)
            },
            _ => false,
        };
        self.skip_if(cond);
        Ok(())
    }

    /// The jumps, the call and the return.
    fn run_flow(&mut self, instr: Instruction, kb: &KeyBoard, random: u8) -> (r: Result<
        (),
        ExecError,
    >)
        requires
            instr.wf(),
            instr.is_flow(),
        ensures
            agrees(old(self)@.run(instr, kb.key@, random), old(self)@, r, final(self)@),
    {
        match instr {
            Instruction::Return => self.op_return(),
            Instruction::Jump { addr } => {
                self.pc = addr;
                Ok(())
            },
            Instruction::Call { addr } => self.op_call(addr),
            Instruction::JumpOffset { addr } => {
                self.pc = (self.v[0] as u16).wrapping_add(addr);
                Ok(())
            },
            _ => Ok(()),
        }
    }

    /// The instructions on the index register, the timers and the keypad.
    fn run_system(&mut self, instr: Instruction, kb: &KeyBoard, random: u8) -> (r: Result<
        (),
        ExecError,
    >)
        requires
            instr.wf(),
            instr.is_system(),
        ensures
            agrees(old(self)@.run(instr, kb.key@, random), old(self)@, r, final(self)@),
    {
        match instr {
            Instruction::LoadIndex { addr } => {
                self.i = addr;
                self.advance(2);
                Ok(())
            },
            Instruction::ReadDelay { x } => {
                let value: u8 = self.delay_timer;
                self.set_v(x, value);
                Ok(())
            },
            Instruction::WaitKey { x } => {
                self.op_wait_key(x, kb);
                Ok(())
            },
            Instruction::SetDelay { x } => {
                self.delay_timer = self.v[x];
                self.advance(2);
                Ok(())
            },
            Instruction::SetSound { x } => {
                self.sound_timer = self.v[x];
                self.advance(2);
                Ok(())
            },
            Instruction::AddIndex { x } => {
                self.i = self.i.wrapping_add(self.v[x] as u16);
                self.advance(2);
                Ok(())
            },
            Instruction::Glyph { x } => self.op_glyph(x),
            _ => Ok(()),
        }
    }

    /// The instructions on the framebuffer and on the memory at `I`.
    fn run_memory(&mut self, instr: Instruction, kb: &KeyBoard, random: u8) -> (r: Result<
        (),
        ExecError,
    >)
        requires
            instr.wf(),
            instr.is_memory(),
        ensures
            agrees(old(self)@.run(instr, kb.key@, random), old(self)@, r, final(self)@),
    {
        match instr {
            Instruction::ClearScreen => {
                self.op_clear();
            },
            Instruction::Draw { x, y, n } => {
                return self.op_draw(x, y, n);
            },
            Instruction::StoreDecimal { x } => {
                if self.i as usize + 2 >= MEMORY_SIZE {
                    return Err(ExecError::MemoryOutOfBounds);
                }
                let vx: u8 = self.v[x];
                self.store_decimal(vx);
                self.advance(2);
            },
            Instruction::StoreRegs { x } => {
                if self.i as usize + x >= MEMORY_SIZE {
                    return Err(ExecError::MemoryOutOfBounds);
                }
                self.store_regs(x);
                self.advance(2);
            },
            Instruction::LoadRegs { x } => {
                if self.i as usize + x >= MEMORY_SIZE {
                    return Err(ExecError::MemoryOutOfBounds);
                }
                self.load_regs(x);
                self.advance(2);
            },
            _ => {},
        }
        Ok(())
    }

    /// Executes one decoded instruction.
    fn run(&mut self, instr: Instruction, kb: &KeyBoard, random: u8) -> (r: Result<(), ExecError>)
        requires
            instr.wf(),
        ensures
            agrees(old(self)@.run(instr, kb.key@, random), old(self)@, r, final(self)@),
    {
        match instr {
            Instruction::Return
            | Instruction::Jump { .. }
            | Instruction::Call { .. }
            | Instruction::JumpOffset { .. } => self.run_flow(instr, kb, random),
            Instruction::SkipEqByte { .. }
            | Instruction::SkipNeByte { .. }
            | Instruction::SkipEqReg { .. }
            | Instruction::SkipNeReg { .. }
            | Instruction::SkipKeyDown { .. }
            | Instruction::SkipKeyUp { .. } => self.run_skip(instr, kb, random),
            Instruction::LoadByte { .. }
            | Instruction::AddByte { .. }
            | Instruction::Move { .. }
            | Instruction::Or { .. }
            | Instruction::And { .. }
            | Instruction::Xor { .. }
            | Instruction::AddReg { .. }
            | Instruction::SubReg { .. }
            | Instruction::ShiftRight { .. }
            | Instruction::SubFrom { .. }
            | Instruction::ShiftLeft { .. }
            | Instruction::Random { .. } => self.run_alu(instr, kb, random),
            Instruction::LoadIndex { .. }
            | Instruction::ReadDelay { .. }
            | Instruction::WaitKey { .. }
            | Instruction::SetDelay { .. }
            | Instruction::SetSound { .. }
            | Instruction::AddIndex { .. }
            | Instruction::Glyph { .. } => self.run_system(instr, kb, random),
            Instruction::ClearScreen
            | Instruction::Draw { .. }
            | Instruction::StoreDecimal { .. }
            | Instruction::StoreRegs { .. }
            | Instruction::LoadRegs { .. } => self.run_memory(instr, kb, random),
        }
    }

    /// Decodes and executes the instruction word `opcode`, with `random`
    /// as the byte that a random draw yields.
    ///
    /// The instruction sets the next program counter itself. A word that
    /// encodes no instruction is refused with `UnknownOpcode`, a call with a
    /// full stack with `StackOverflow`, a return with an empty stack with
    /// `StackUnderflow`, a glyph request for a value above 0xF with
    /// `InvalidSpriteIndex`, and an access through `I` that would leave
    /// memory with `MemoryOutOfBounds`. A refused instruction leaves the
    /// machine as it was.
    pub fn execute(&mut self, opcode: u16, kb: &KeyBoard, random: u8) -> (r: Result<(), ExecError>)
        ensures
            agrees(old(self)@.execute(opcode, kb.key@, random), old(self)@, r, final(self)@),
            old(self)@.wf() ==> final(self)@.wf(),
    {
        match decode(opcode) {
            Some(instr) => {
                proof {
                    if self@.wf() {
                        lemma_run_wf(self@, instr, kb.key@, random);
                    }
                }
                self.run(instr, kb, random)
            },
            None => Err(ExecError::UnknownOpcode(opcode)),
        }
    }

    /// Decodes and executes the instruction word `opcode`, drawing a random
    /// byte where the instruction asks for one.
    ///
    /// What it does is what `execute` does with the byte that was drawn.
    /// Only `Cxnn` reads that byte, so for every other word the outcome is
    /// fixed.
    pub fn decode_execute(&mut self, opcode: u16, kb: &KeyBoard) -> (r: Result<(), ExecError>)
        ensures
            exists|random: u8| #[trigger]
                agrees(old(self)@.execute(opcode, kb.key@, random), old(self)@, r, final(self)@),
            !Machine::draws_random(opcode) ==> agrees(
                old(self)@.execute(opcode, kb.key@, 0),
                old(self)@,
                r,
                final(self)@,
            ),
            old(self)@.wf() ==> final(self)@.wf(),
    {
        let random: u8 = match decode(opcode) {
            Some(Instruction::Random { .. }) => random_byte(),
            _ => 0,
        };
        let ghost before = self@;
        let r = self.execute(opcode, kb, random);
        assert(agrees(before.execute(opcode, kb.key@, random), before, r, self@));
        r
    }

    /// The instruction word at the program counter, high byte first, or
    /// `None` where its two bytes do not both lie in memory.
    pub fn fetch(&self) -> (r: Option<u16>)
        ensures
            r == if self@.can_fetch() {
                Some(self@.fetched())
            } else {
                None
            },
    {
        let pc: usize = self.pc as usize;
        if pc + 1 >= MEMORY_SIZE {
            return None;
        }
        let m0: u16 = self.memory[pc] as u16;
        let m1: u16 = self.memory[pc + 1] as u16;
        assert(m0 < 0x100 && m1 < 0x100 ==> (m0 << 8 | m1) == m0 * 0x100 + m1) by (bit_vector);
        Some(m0 << 8 | m1)
    }

    /// Counts both timers down by one, each stopping at 0, and tells
    /// whether the sound timer went from 1 to 0.
    fn tick(&mut self) -> (beep: bool)
        ensures
            final(self)@ == old(self)@.ticked(),
            beep == (old(self)@.sound_timer == 1),
    {
        if self.delay_timer > 0 {
            self.delay_timer = self.delay_timer - 1;
        }
        let beep = self.sound_timer == 1;
        if self.sound_timer > 0 {
            self.sound_timer = self.sound_timer - 1;
        }
        beep
    }

    /// Runs one cycle with `random` as the byte that a random draw yields:
    /// fetches the word at the program counter, decodes and executes it,
    /// then counts the timers down.
    ///
    /// The report tells whether the instruction marked the framebuffer as
    /// changed and whether the sound timer went from 1 to 0. A fetch from
    /// outside memory is refused with `MemoryOutOfBounds`; the other faults
    /// are those of `execute`. A refused cycle leaves the machine as it
    /// was, timers included.
    pub fn step(&mut self, kb: &KeyBoard, random: u8) -> (r: Result<StepReport, ExecError>)
        ensures
            cycle_agrees(old(self)@.step(kb.key@, random), old(self)@, r, final(self)@),
            old(self)@.wf() ==> final(self)@.wf(),
    {
        let opcode: u16 = match self.fetch() {
            Some(opcode) => opcode,
            None => {
                return Err(ExecError::MemoryOutOfBounds);
            },
        };
        let framebuffer_changed = match decode(opcode) {
            Some(Instruction::ClearScreen) => true,
            Some(Instruction::Draw { .. }) => true,
            _ => false,
        };
        match self.execute(opcode, kb, random) {
            Ok(()) => {
                let beep_edge = self.tick();
                Ok(StepReport { framebuffer_changed, beep_edge })
            },
            Err(e) => Err(e),
        }
    }

    /// Runs one cycle, drawing a random byte where the instruction at the
    /// program counter asks for one.
    ///
    /// What it does is what `step` does with the byte that was drawn. Only
    /// `Cxnn` reads that byte, so for every other instruction the outcome
    /// is fixed.
    pub fn emulate_cycle(&mut self, kb: &KeyBoard) -> (r: Result<StepReport, ExecError>)
        ensures
            exists|random: u8| #[trigger]
                cycle_agrees(old(self)@.step(kb.key@, random), old(self)@, r, final(self)@),
            !(old(self)@.can_fetch() && Machine::draws_random(old(self)@.fetched()))
                ==> cycle_agrees(old(self)@.step(kb.key@, 0), old(self)@, r, final(self)@),
            old(self)@.wf() ==> final(self)@.wf(),
    {
        let random: u8 = match self.fetch() {
            Some(opcode) => match decode(opcode) {
                Some(Instruction::Random { .. }) => random_byte(),
                _ => 0,
            },
            None => 0,
        };
        let ghost before = self@;
        let r = self.step(kb, random);
        assert(cycle_agrees(before.step(kb.key@, random), before, r, self@));
        r
    }

    /// Reads the draw flag and lowers it.
    pub fn draw_flag(&mut self) -> (f: bool)
        ensures
            f == old(self)@.draw_flag,
            final(self)@ == (Machine { draw_flag: false, ..old(self)@ }),
    {
        let f = self.draw_flag;
        self.draw_flag = false;
        f
    }

    /// Whether the pixel in column `x` of row `y` is lit.
    pub fn pixel(&self, x: usize, y: usize) -> (lit: bool)
        requires
            x < 64,
            y < 32,
        ensures
            lit == (self@.gfx[y * 64 + x] == 1),
    {
        self.gfx[y * GFX_SIZE_COL + x] == 1
    }

    /// Takes a snapshot of the state for diagnostics.
    pub fn dump(&self) -> (s: Snapshot)
        ensures
            s.memory@ == self@.memory.subrange(0x200, 0x270),
            s.v@ == self@.v,
            s.stack@ == self@.stack,
            s.sp == self@.sp,
            s.i == self@.i,
            s.pc == self@.pc,
            s.delay_timer == self@.delay_timer,
            s.sound_timer == self@.sound_timer,
    {
        let mut window: Vec<u8> = Vec::new();
        let mut k: usize = 0;
        while k < DUMP_SIZE
            invariant
                k <= 0x70,
                window@ == self.memory@.subrange(0x200, 0x200 + k),
            decreases 0x70 - k,
        {
            window.push(self.memory[DUMP_START + k]);
            k += 1;
        }
        Snapshot {
            memory: window,
            v: self.v,
            stack: self.stack,
            sp: self.sp,
            i: self.i,
            pc: self.pc,
            delay_timer: self.delay_timer,
            sound_timer: self.sound_timer,
        }
    }
}

} // verus!
