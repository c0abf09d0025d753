//! Laws of the instruction set, proved of the model that the interpreter
//! is verified against.

use vstd::prelude::*;
use crate::display::blank;
use crate::error::ExecError;
use crate::machine::Machine;
use crate::opcode::{decode_spec, lemma_fields_of_bytes, Instruction};

verus! {

/// Whether the instruction at the program counter of `m` is the word that
/// `high` and `low` form.
pub open spec fn next_is(m: Machine, high: u8, low: u8) -> bool {
    m.can_fetch() && m.memory[m.pc as int] == high && m.memory[m.pc + 1] == low
}

/// Loading a byte: for every byte pair `6x nn`, a cycle succeeds, leaves
/// `nn` in `Vx` and moves the program counter on by exactly 2.
pub proof fn law_load_byte(m: Machine, x: u8, nn: u8, keys: Seq<u8>, random: u8)
    requires
        m.wf(),
        x < 16,
        next_is(m, (0x60 + x) as u8, nn),
    ensures
        ({
            &&& m.step(keys, random) matches Ok((after, _))
            &&& after.v[x as int] == nn
            &&& after.pc == m.pc + 2
        }),
{
    lemma_fields_of_bytes((0x60 + x) as u8, nn);
    assert(decode_spec(m.fetched()) == Some(Instruction::LoadByte { x: x as usize, nn }));
}

/// Adding registers: for every byte pair `8x y4`, a cycle succeeds and
/// leaves `(Vx + Vy) mod 256` in `Vx`. Where `x` is not the flag register,
/// `VF` is 1 if and only if `Vx + Vy` is 256 or more.
pub proof fn law_add_carry(m: Machine, x: u8, y: u8, keys: Seq<u8>, random: u8)
    requires
        m.wf(),
        x < 16,
        y < 16,
        next_is(m, (0x80 + x) as u8, (y * 0x10 + 4) as u8),
    ensures
        ({
            &&& m.step(keys, random) matches Ok((after, _))
            &&& after.v[x as int] == (m.v[x as int] + m.v[y as int]) % 256
            &&& x != 0xF ==> (after.v[0xF] == 1 <==> m.v[x as int] + m.v[y as int] >= 256)
        }),
{
    lemma_fields_of_bytes((0x80 + x) as u8, (y * 0x10 + 4) as u8);
    let instr = Instruction::AddReg { x: x as usize, y: y as usize };
    assert(decode_spec(m.fetched()) == Some(instr));
    let after = m.run(instr, keys, random)->Ok_0;
    assert(after.v[x as int] == (m.v[x as int] + m.v[y as int]) % 256);
}

/// Subtracting registers: for every byte pair `8x y5`, a cycle succeeds
/// and leaves `(Vx - Vy) mod 256` in `Vx`. Where `x` is not the flag
/// register, `VF` is 1 if and only if `Vx < Vy`, that is, on a borrow.
pub proof fn law_sub_borrow(m: Machine, x: u8, y: u8, keys: Seq<u8>, random: u8)
    requires
        m.wf(),
        x < 16,
        y < 16,
        next_is(m, (0x80 + x) as u8, (y * 0x10 + 5) as u8),
    ensures
        ({
            &&& m.step(keys, random) matches Ok((after, _))
            &&& after.v[x as int] == (m.v[x as int] - m.v[y as int]) % 256
            &&& x != 0xF ==> (after.v[0xF] == 1 <==> m.v[x as int] < m.v[y as int])
        }),
{
    lemma_fields_of_bytes((0x80 + x) as u8, (y * 0x10 + 5) as u8);
    let instr = Instruction::SubReg { x: x as usize, y: y as usize };
    assert(decode_spec(m.fetched()) == Some(instr));
    let after = m.run(instr, keys, random)->Ok_0;
    assert(after.v[x as int] == (m.v[x as int] - m.v[y as int]) % 256);
}

/// The word `Fx55`, which stores `V0..=Vx` at `I`.
pub open spec fn store_word(x: int) -> u16 {
    (0xF055 + 0x100 * x) as u16
}

/// The word `Fx65`, which loads `V0..=Vx` from `I`.
pub open spec fn load_word(x: int) -> u16 {
    (0xF065 + 0x100 * x) as u16
}

/// Round trip: after `Fx55`, an `Fx65` with the same `I` and `x` brings
/// back the values that `V0..=Vx` had, whatever happened to the registers
/// in between, as long as the stored bytes and `I` were left alone. Both
/// instructions succeed where `I + x` lies in memory.
pub proof fn law_store_load_round_trip(
    m: Machine,
    later: Machine,
    x: int,
    keys: Seq<u8>,
    random: u8,
)
    requires
        m.wf(),
        later.wf(),
        0 <= x < 16,
        m.i + x < 4096,
        later.i == m.i,
        ({
            &&& m.execute(store_word(x), keys, random) matches Ok(stored)
            &&& forall|a: int| m.i <= a <= m.i + x ==> later.memory[a] == stored.memory[a]
        }),
    ensures
        ({
            &&& later.execute(load_word(x), keys, random) matches Ok(loaded)
            &&& forall|j: int| 0 <= j <= x ==> loaded.v[j] == m.v[j]
        }),
{
    let stored = m.execute(store_word(x), keys, random)->Ok_0;
    let loaded = later.execute(load_word(x), keys, random)->Ok_0;
    assert forall|j: int| 0 <= j <= x implies loaded.v[j] == m.v[j] by {
        assert(later.memory[m.i + j] == stored.memory[m.i + j]);
    }
}

/// The same round trip with nothing in between: `Fx55` and then `Fx65`
/// leave every register as it was.
pub proof fn law_store_then_load(m: Machine, x: int, keys: Seq<u8>, random: u8)
    requires
        m.wf(),
        0 <= x < 16,
        m.i + x < 4096,
    ensures
        ({
            &&& m.execute(store_word(x), keys, random) matches Ok(stored)
            &&& stored.execute(load_word(x), keys, random) matches Ok(loaded)
            &&& loaded.v == m.v
        }),
{
    let stored = m.execute(store_word(x), keys, random)->Ok_0;
    crate::machine::lemma_run_wf(
        m,
        crate::opcode::decode_spec(store_word(x))->Some_0,
        keys,
        random,
    );
    law_store_load_round_trip(m, stored, x, keys, random);
    let loaded = stored.execute(load_word(x), keys, random)->Ok_0;
    assert(loaded.v =~= m.v);
}

/// Clearing is idempotent: `00E0` always succeeds and leaves every pixel
/// dark, so a second clear leaves the framebuffer that the first one left.
pub proof fn law_clear_idempotent(m: Machine, keys: Seq<u8>, random: u8)
    ensures
        ({
            &&& m.execute(0x00E0, keys, random) matches Ok(once)
            &&& once.gfx == blank()
            &&& once.execute(0x00E0, keys, random) matches Ok(twice)
            &&& twice.gfx == once.gfx
        }),
{
}

/// The state after calling the subroutines at `targets` one after the
/// other with `2nnn`, or the first fault.
pub open spec fn call_all(m: Machine, targets: Seq<u16>) -> Result<Machine, ExecError>
    decreases targets.len(),
{
    if targets.len() == 0 {
        Ok(m)
    } else {
        match call_all(m, targets.drop_last()) {
            Ok(before) => before.execute((0x2000 + targets.last()) as u16, Seq::empty(), 0),
            Err(e) => Err(e),
        }
    }
}

/// Whether every element of `targets` is an address of twelve bits.
pub open spec fn addresses(targets: Seq<u16>) -> bool {
    forall|k: int| 0 <= k < targets.len() ==> targets[k] < 0x1000
}

/// Calls fill the stack one slot at a time: as many calls as there are
/// free slots all succeed, and each takes one slot.
pub proof fn law_calls_fit(m: Machine, targets: Seq<u16>)
    requires
        m.wf(),
        addresses(targets),
        m.sp + targets.len() <= 16,
    ensures
        ({
            &&& call_all(m, targets) matches Ok(after)
            &&& after.wf()
            &&& after.sp == m.sp + targets.len()
        }),
    decreases targets.len(),
{
    if targets.len() > 0 {
        law_calls_fit(m, targets.drop_last());
    }
}

/// Stack discipline: on an empty stack sixteen calls in a row succeed and
/// the seventeenth fails with `StackOverflow`.
pub proof fn law_seventeenth_call_overflows(m: Machine, targets: Seq<u16>)
    requires
        m.wf(),
        m.sp == 0,
        addresses(targets),
        targets.len() == 17,
    ensures
        call_all(m, targets.take(16)) is Ok,
        call_all(m, targets) == Err::<Machine, ExecError>(ExecError::StackOverflow),
{
    law_calls_fit(m, targets.take(16));
    assert(targets.drop_last() =~= targets.take(16));
}

/// Stack discipline: a return on an empty stack fails with
/// `StackUnderflow`.
pub proof fn law_return_underflows(m: Machine, keys: Seq<u8>, random: u8)
    requires
        m.sp == 0,
    ensures
        m.execute(0x00EE, keys, random) == Err::<Machine, ExecError>(ExecError::StackUnderflow),
{
}

/// A call and the return that answers it: the return lands on the
/// instruction after the call and frees the slot that the call took.
pub proof fn law_call_then_return(m: Machine, addr: u16, keys: Seq<u8>, random: u8)
    requires
        m.wf(),
        m.sp < 16,
        addr < 0x1000,
        m.pc + 2 < 0x10000,
    ensures
        ({
            &&& m.execute((0x2000 + addr) as u16, keys, random) matches Ok(called)
            &&& called.pc == addr
            &&& called.sp == m.sp + 1
            &&& called.execute(0x00EE, keys, random) matches Ok(back)
            &&& back.pc == m.pc + 2
            &&& back.sp == m.sp
        }),
{
}

} // verus!
