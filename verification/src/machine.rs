//! The mathematical model of the virtual machine.
//!
//! `Machine` is the state of the interpreter as sequences and numbers, and
//! the functions on it say what every instruction and every cycle does.
//! The executable interpreter is specified against this model.

use vstd::prelude::*;
use crate::display::{blank, collides, drawn, one_bit};
use crate::error::ExecError;
use crate::font::CHIP8_FONTSET;
use crate::keyboard::{lowest_pressed, pressed};
use crate::opcode::{decode_spec, Instruction};

verus! {

/// Bytes of memory.
pub const MEMORY_SIZE: usize = 4096;

/// General-purpose registers.
pub const V_SIZE: usize = 16;

/// Slots of the call stack.
pub const STACK_SIZE: usize = 16;

/// The address at which programs are loaded and at which execution starts.
pub const PROGRAM_START: u16 = 0x200;

/// The largest program image that fits between the load address and the
/// end of memory.
pub const MAX_PROGRAM_SIZE: usize = 3584;

/// The number of the flag register `VF`.
pub const FLAG: usize = 0xF;

/// What one cycle reports to the host.
#[derive(Clone, Copy, Debug, PartialEq, Eq, Structural)]
pub struct StepReport {
    /// The executed instruction cleared the screen or drew a sprite.
    pub framebuffer_changed: bool,
    /// The sound timer went from 1 to 0 in this cycle.
    pub beep_edge: bool,
}

/// The state of the virtual machine.
#[verifier::ext_equal]
pub struct Machine {
    /// 4096 bytes: the font from address 0, the program from 0x200.
    pub memory: Seq<u8>,
    /// The registers `V0` to `VF`.
    pub v: Seq<u8>,
    /// The index register `I`.
    pub i: u16,
    /// The program counter.
    pub pc: u16,
    /// 2048 pixels, row by row.
    pub gfx: Seq<u8>,
    /// The delay timer.
    pub delay_timer: u8,
    /// The sound timer.
    pub sound_timer: u8,
    /// The sixteen return-address slots.
    pub stack: Seq<u16>,
    /// The number of slots in use, which is the index of the next free slot.
    pub sp: u16,
    /// Raised by the instructions that change the framebuffer, lowered by
    /// the host when it has redrawn the screen.
    pub draw_flag: bool,
}

/// `value` reduced to sixteen bits.
pub open spec fn wrap16(value: int) -> u16 {
    (value % 0x10000) as u16
}

/// `value` reduced to eight bits.
pub open spec fn wrap8(value: int) -> u8 {
    (value % 0x100) as u8
}

/// Whether a call that returned `r` and left the machine as `after` did
/// what `expected` asks of a machine that was `before`: on success the new
/// state, on a fault that fault with the machine unchanged.
pub open spec fn agrees(
    expected: Result<Machine, ExecError>,
    before: Machine,
    r: Result<(), ExecError>,
    after: Machine,
) -> bool {
    match expected {
        Ok(m) => r is Ok && after == m,
        Err(e) => r == Err::<(), ExecError>(e) && after == before,
    }
}

/// The same for a whole cycle, which also hands back a report.
pub open spec fn cycle_agrees(
    expected: Result<(Machine, StepReport), ExecError>,
    before: Machine,
    r: Result<StepReport, ExecError>,
    after: Machine,
) -> bool {
    match expected {
        Ok((m, report)) => r == Ok::<StepReport, ExecError>(report) && after == m,
        Err(e) => r == Err::<StepReport, ExecError>(e) && after == before,
    }
}

/// 1 for `true`, 0 for `false`.
pub open spec fn bit(b: bool) -> u8 {
    if b {
        1
    } else {
        0
    }
}

impl Machine {
    /// The state invariant: the parts have their sizes, the stack pointer
    /// is at most 16, and every pixel is 0 or 1.
    pub open spec fn wf(self) -> bool {
        &&& self.memory.len() == 4096
        &&& self.v.len() == 16
        &&& self.gfx.len() == 2048
        &&& self.stack.len() == 16
        &&& self.sp <= 16
        &&& one_bit(self.gfx)
    }

    /// The power-on state: the font at the bottom of memory, everything
    /// else zero, and the program counter at the load address.
    pub open spec fn initial() -> Machine {
        Machine {
            memory: Seq::new(
                4096,
                |a: int|
                    if a < 80 {
                        CHIP8_FONTSET@[a]
                    } else {
                        0u8
                    },
            ),
            v: Seq::new(16, |j: int| 0u8),
            i: 0,
            pc: 0x200,
            gfx: blank(),
            delay_timer: 0,
            sound_timer: 0,
            stack: Seq::new(16, |j: int| 0u16),
            sp: 0,
            draw_flag: false,
        }
    }

    /// The state with `image` copied to memory from the load address on.
    pub open spec fn loaded(self, image: Seq<u8>) -> Machine {
        Machine {
            memory: Seq::new(
                4096,
                |a: int|
                    if 0x200 <= a < 0x200 + image.len() {
                        image[a - 0x200]
                    } else {
                        self.memory[a]
                    },
            ),
            ..self
        }
    }

    /// The state with the program counter moved on by `by` bytes.
    pub open spec fn advance(self, by: int) -> Machine {
        Machine { pc: wrap16(self.pc + by), ..self }
    }

    /// The state after a conditional skip: the program counter moves past
    /// this instruction and, where `cond` holds, past the next one too.
    pub open spec fn skip_if(self, cond: bool) -> Machine {
        self.advance(
            if cond {
                4
            } else {
                2
            },
        )
    }

    /// The state with register `x` set to `value`.
    pub open spec fn with_v(self, x: int, value: u8) -> Machine {
        Machine { v: self.v.update(x, value), ..self }
    }

    /// The state with the flag register set to `flag` and then, in this
    /// order, register `x` set to `value`. With `x == 0xF` the value wins.
    pub open spec fn with_flag_then_v(self, flag: bool, x: int, value: u8) -> Machine {
        self.with_v(0xF, bit(flag)).with_v(x, value)
    }

    /// The fetched word: the bytes at `pc` and `pc + 1`, the first one high.
    pub open spec fn fetched(self) -> u16 {
        (self.memory[self.pc as int] * 0x100 + self.memory[self.pc + 1]) as u16
    }

    /// Memory after storing the three decimal digits of `value` at `I`.
    pub open spec fn decimal_stored(self, value: u8) -> Seq<u8> {
        self.memory.update(self.i as int, value / 100).update(
            self.i + 1,
            (value / 10) % 10,
        ).update(self.i + 2, value % 10)
    }

    /// Memory after storing `V0..=Vx` at `I..=I+x`.
    pub open spec fn regs_stored(self, x: int) -> Seq<u8> {
        Seq::new(
            4096,
            |a: int|
                if self.i <= a <= self.i + x {
                    self.v[a - self.i]
                } else {
                    self.memory[a]
                },
        )
    }

    /// The registers after loading `V0..=Vx` from `I..=I+x`.
    pub open spec fn regs_loaded(self, x: int) -> Seq<u8> {
        Seq::new(
            16,
            |j: int|
                if j <= x {
                    self.memory[self.i + j]
                } else {
                    self.v[j]
                },
        )
    }

    /// The state after executing `instr` with the keys `keys` held and
    /// `random` as the byte that a random draw yields, or the fault that
    /// the instruction raises.
    ///
    /// Every instruction sets the next program counter itself: a jump, call
    /// or return to its target, a skip by 2 or 4, a wait for a key by 0 or
    /// 2, and all others by 2.
    pub open spec fn run(self, instr: Instruction, keys: Seq<u8>, random: u8) -> Result<
        Machine,
        ExecError,
    > {
        match instr {
            Instruction::ClearScreen => Ok(
                Machine { gfx: blank(), draw_flag: true, ..self }.advance(2),
            ),
            Instruction::Return => if self.sp == 0 {
                Err(ExecError::StackUnderflow)
            } else if self.sp > 16 {
                Err(ExecError::StackOverflow)
            } else {
                Ok(
                    Machine {
                        sp: (self.sp - 1) as u16,
                        pc: wrap16(self.stack[self.sp - 1] + 2),
                        ..self
                    },
                )
            },
            Instruction::Jump { addr } => Ok(Machine { pc: addr, ..self }),
            Instruction::Call { addr } => if self.sp >= 16 {
                Err(ExecError::StackOverflow)
            } else {
                Ok(
                    Machine {
                        stack: self.stack.update(self.sp as int, self.pc),
                        sp: (self.sp + 1) as u16,
                        pc: addr,
                        ..self
                    },
                )
            },
            Instruction::SkipEqByte { x, nn } => Ok(self.skip_if(self.v[x as int] == nn)),
            Instruction::SkipNeByte { x, nn } => Ok(self.skip_if(self.v[x as int] != nn)),
            Instruction::SkipEqReg { x, y } => Ok(
                self.skip_if(self.v[x as int] == self.v[y as int]),
            ),
            Instruction::LoadByte { x, nn } => Ok(self.with_v(x as int, nn).advance(2)),
            Instruction::AddByte { x, nn } => Ok(
                self.with_v(x as int, wrap8(self.v[x as int] + nn)).advance(2),
            ),
            Instruction::Move { x, y } => Ok(self.with_v(x as int, self.v[y as int]).advance(2)),
            Instruction::Or { x, y } => Ok(
                self.with_v(x as int, self.v[x as int] | self.v[y as int]).advance(2),
            ),
            Instruction::And { x, y } => Ok(
                self.with_v(x as int, self.v[x as int] & self.v[y as int]).advance(2),
            ),
            Instruction::Xor { x, y } => Ok(
                self.with_v(x as int, self.v[x as int] ^ self.v[y as int]).advance(2),
            ),
            Instruction::AddReg { x, y } => {
                let sum = self.v[x as int] + self.v[y as int];
                Ok(self.with_flag_then_v(sum >= 0x100, x as int, wrap8(sum)).advance(2))
            },
            Instruction::SubReg { x, y } => {
                let diff = self.v[x as int] - self.v[y as int];
                Ok(self.with_flag_then_v(diff < 0, x as int, wrap8(diff)).advance(2))
            },
            Instruction::ShiftRight { x } => {
                let flagged = self.with_v(0xF, self.v[x as int] % 2);
                Ok(flagged.with_v(x as int, flagged.v[x as int] / 2).advance(2))
            },
            Instruction::SubFrom { x, y } => {
                let diff = self.v[y as int] - self.v[x as int];
                Ok(self.with_flag_then_v(diff < 0, x as int, wrap8(diff)).advance(2))
            },
            Instruction::ShiftLeft { x } => {
                let flagged = self.with_v(0xF, self.v[x as int] / 0x80);
                Ok(flagged.with_v(x as int, wrap8(flagged.v[x as int] * 2)).advance(2))
            },
            Instruction::SkipNeReg { x, y } => Ok(
                self.skip_if(self.v[x as int] != self.v[y as int]),
            ),
            Instruction::LoadIndex { addr } => Ok(Machine { i: addr, ..self }.advance(2)),
            Instruction::JumpOffset { addr } => Ok(
                Machine { pc: wrap16(self.v[0] + addr), ..self },
            ),
            Instruction::Random { x, nn } => Ok(self.with_v(x as int, random & nn).advance(2)),
            Instruction::Draw { x, y, n } => if self.i + n > 4096 {
                Err(ExecError::MemoryOutOfBounds)
            } else {
                let vx = self.v[x as int];
                let vy = self.v[y as int];
                Ok(
                    Machine {
                        gfx: drawn(self.gfx, self.memory, self.i as int, vx, vy, n as int),
                        v: self.v.update(
                            0xF,
                            bit(collides(self.gfx, self.memory, self.i as int, vx, vy, n as int)),
                        ),
                        draw_flag: true,
                        ..self
                    }.advance(2),
                )
            },
            Instruction::SkipKeyDown { x } => Ok(self.skip_if(pressed(keys, self.v[x as int] as int))),
            Instruction::SkipKeyUp { x } => Ok(self.skip_if(!pressed(keys, self.v[x as int] as int))),
            Instruction::ReadDelay { x } => Ok(self.with_v(x as int, self.delay_timer).advance(2)),
            Instruction::WaitKey { x } => match lowest_pressed(keys) {
                Some(k) => Ok(self.with_v(x as int, k as u8).advance(2)),
                None => Ok(self),
            },
            Instruction::SetDelay { x } => Ok(
                Machine { delay_timer: self.v[x as int], ..self }.advance(2),
            ),
            Instruction::SetSound { x } => Ok(
                Machine { sound_timer: self.v[x as int], ..self }.advance(2),
            ),
            Instruction::AddIndex { x } => Ok(
                Machine { i: wrap16(self.i + self.v[x as int]), ..self }.advance(2),
            ),
            Instruction::Glyph { x } => if self.v[x as int] > 0xF {
                Err(ExecError::InvalidSpriteIndex)
            } else {
                Ok(Machine { i: (self.v[x as int] * 5) as u16, ..self }.advance(2))
            },
            Instruction::StoreDecimal { x } => if self.i + 2 >= 4096 {
                Err(ExecError::MemoryOutOfBounds)
            } else {
                Ok(Machine { memory: self.decimal_stored(self.v[x as int]), ..self }.advance(2))
            },
            Instruction::StoreRegs { x } => if self.i + x >= 4096 {
                Err(ExecError::MemoryOutOfBounds)
            } else {
                Ok(Machine { memory: self.regs_stored(x as int), ..self }.advance(2))
            },
            Instruction::LoadRegs { x } => if self.i + x >= 4096 {
                Err(ExecError::MemoryOutOfBounds)
            } else {
                Ok(Machine { v: self.regs_loaded(x as int), ..self }.advance(2))
            },
        }
    }

    /// The state after decoding and executing the word `opcode`, or the
    /// fault: `UnknownOpcode` with the word where it encodes no instruction,
    /// else what the instruction raises.
    pub open spec fn execute(self, opcode: u16, keys: Seq<u8>, random: u8) -> Result<
        Machine,
        ExecError,
    > {
        match decode_spec(opcode) {
            Some(instr) => self.run(instr, keys, random),
            None => Err(ExecError::UnknownOpcode(opcode)),
        }
    }

    /// Whether the word `opcode` encodes the instruction that draws a
    /// random byte.
    pub open spec fn draws_random(opcode: u16) -> bool {
        decode_spec(opcode) matches Some(instr) && instr.is_random()
    }

    /// The state after the timers have counted down by one, each stopping at 0.
    pub open spec fn ticked(self) -> Machine {
        Machine {
            delay_timer: if self.delay_timer > 0 {
                (self.delay_timer - 1) as u8
            } else {
                0
            },
            sound_timer: if self.sound_timer > 0 {
                (self.sound_timer - 1) as u8
            } else {
                0
            },
            ..self
        }
    }

    /// Whether an instruction can be fetched: both of its bytes lie in memory.
    pub open spec fn can_fetch(self) -> bool {
        self.pc + 1 < 4096
    }

    /// One whole cycle: fetch the word at the program counter, decode and
    /// execute it, then count the timers down. Gives the new state and the
    /// report, or the fault. The beep edge is reported where the sound timer
    /// stands at 1 after the instruction and so reaches 0 in this cycle.
    pub open spec fn step(self, keys: Seq<u8>, random: u8) -> Result<
        (Machine, StepReport),
        ExecError,
    > {
        if !self.can_fetch() {
            Err(ExecError::MemoryOutOfBounds)
        } else {
            match self.execute(self.fetched(), keys, random) {
                Ok(after) => Ok(
                    (
                        after.ticked(),
                        StepReport {
                            framebuffer_changed: decode_spec(self.fetched())->Some_0.draws(),
                            beep_edge: after.sound_timer == 1,
                        },
                    ),
                ),
                Err(e) => Err(e),
            }
        }
    }
}

/// Flipping a one-bit pixel gives a one-bit pixel.
pub proof fn lemma_flip_one_bit(p: u8)
    requires
        p <= 1,
    ensures
        p ^ 1u8 <= 1,
{
    assert(p <= 1 ==> p ^ 1u8 <= 1) by (bit_vector);
}

/// The state invariant holds of the power-on state.
pub proof fn lemma_initial_wf()
    ensures
        Machine::initial().wf(),
{
}

/// Loading a program keeps the state invariant.
pub proof fn lemma_loaded_wf(m: Machine, image: Seq<u8>)
    requires
        m.wf(),
    ensures
        m.loaded(image).wf(),
{
}

/// Every instruction keeps the state invariant: the stack pointer stays
/// within 0 to 16 and the framebuffer stays one bit deep.
pub proof fn lemma_run_wf(m: Machine, instr: Instruction, keys: Seq<u8>, random: u8)
    requires
        m.wf(),
        instr.wf(),
    ensures
        m.run(instr, keys, random) matches Ok(after) ==> after.wf(),
{
    match instr {
        Instruction::Draw { x, y, n } => {
            if m.i + n <= 4096 {
                let after = m.run(instr, keys, random)->Ok_0;
                assert forall|idx: int| 0 <= idx < after.gfx.len() implies after.gfx[idx] <= 1 by {
                    lemma_flip_one_bit(m.gfx[idx]);
                }
            }
        },
        _ => {},
    }
}

/// Every cycle keeps the state invariant.
pub proof fn lemma_step_wf(m: Machine, keys: Seq<u8>, random: u8)
    requires
        m.wf(),
    ensures
        m.step(keys, random) matches Ok((after, _)) ==> after.wf(),
{
    if m.can_fetch() {
        match decode_spec(m.fetched()) {
            Some(instr) => {
                crate::opcode::lemma_decode_wf(m.fetched());
                lemma_run_wf(m, instr, keys, random);
            },
            None => {},
        }
    }
}

} // verus!
