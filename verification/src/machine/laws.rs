use vstd::prelude::*;
use crate::keys::is_lowest_pressed;
use crate::keys::lemma_lowest_pressed_is;
use crate::keys::lemma_lowest_pressed_none;
use crate::keys::lowest_pressed;
use crate::machine::instruction::decode;
use crate::machine::instruction::Instruction;
use crate::machine::model::can_execute;
use crate::machine::model::can_tick;
use crate::machine::model::executed;
use crate::machine::model::fetched;
use crate::machine::model::is_skip;
use crate::machine::model::next_opcode;
use crate::machine::model::ticked;
use crate::machine::model::CpuState;
use crate::machine::model::Machine;

verus! {

/// Executing an instruction keeps a machine well-formed: sixteen registers,
/// 4096 bytes, 2048 pixels, and a history that never outgrows its capacity.
/// The mode stays what it was.
pub proof fn lemma_executed_well_formed(
    m: Machine,
    instruction: Instruction,
    keys: Seq<bool>,
    draw: u8,
)
    requires
        m.well_formed(),
        can_execute(m.cpu, instruction),
    ensures
        executed(m, instruction, keys, draw).well_formed(),
        executed(m, instruction, keys, draw).cpu.mode == m.cpu.mode,
{
}

/// A tick keeps a machine well-formed, and it never changes the mode.
pub proof fn lemma_ticked_well_formed(m: Machine, keys: Seq<bool>, draw: u8)
    requires
        m.well_formed(),
        can_tick(m.cpu, m.memory),
    ensures
        ticked(m, keys, draw).well_formed(),
        ticked(m, keys, draw).cpu.mode == m.cpu.mode,
{
    match decode(next_opcode(m)) {
        Some(instruction) => {
            lemma_executed_well_formed(fetched(m), instruction, keys, draw);
        },
        None => {},
    }
}

/// Every tick first moves the program counter on by two, and only then does the
/// instruction act, on the counter that has moved: an opcode without an
/// instruction and every instruction that leaves the counter alone end two
/// further; a skip ends two or four further; a call remembers the moved counter
/// as its return address; a return with nothing to return to and the wait for a
/// key are measured from the moved counter as well.
pub proof fn lemma_tick_fetches_first(m: Machine, keys: Seq<bool>, draw: u8)
    requires
        m.well_formed(),
        can_tick(m.cpu, m.memory),
    ensures
        fetched(m).cpu == m.cpu.set_pc((m.cpu.pc + 2) as u16),
        fetched(m).cpu.pc == m.cpu.pc + 2,
        fetched(m).memory == m.memory,
        fetched(m).display == m.display,
        ticked(m, keys, draw) == (match decode(next_opcode(m)) {
            Some(instruction) => executed(fetched(m), instruction, keys, draw),
            None => fetched(m),
        }),
        ({
            let after = ticked(m, keys, draw).cpu;
            let pc = m.cpu.pc;
            match decode(next_opcode(m)) {
                None => after.pc == pc + 2,
                Some(Instruction::Jump { address }) => after.pc == address,
                Some(Instruction::SubroutineCall { address }) => {
                    &&& after.pc == address
                    &&& after.stack == m.cpu.stack.push((pc + 2) as u16)
                },
                Some(Instruction::SubroutineReturn) => if m.cpu.stack.len() > 0 {
                    after.pc == m.cpu.stack.last()
                } else {
                    after.pc == pc + 2
                },
                Some(Instruction::GetKey { v }) => if lowest_pressed(keys) is Some {
                    after.pc == pc + 2
                } else {
                    after.pc == pc
                },
                Some(instruction) => if is_skip(instruction) {
                    after.pc == pc + 2 || after.pc == pc + 4
                } else {
                    after.pc == pc + 2
                },
            }
        }),
{
}

/// A call that is followed at once by a return leads back behind the call: the
/// program counter is the one that the call's own fetch left, and the stack is
/// as it was before the call.
pub proof fn lemma_call_then_return(
    m: Machine,
    keys: Seq<bool>,
    draw: u8,
    later_keys: Seq<bool>,
    later_draw: u8,
)
    requires
        m.well_formed(),
        can_tick(m.cpu, m.memory),
        decode(next_opcode(m)) matches Some(instruction) && instruction is SubroutineCall,
        can_tick(ticked(m, keys, draw).cpu, ticked(m, keys, draw).memory),
        decode(next_opcode(ticked(m, keys, draw))) == Some(Instruction::SubroutineReturn),
    ensures
        ticked(ticked(m, keys, draw), later_keys, later_draw).cpu.pc == m.cpu.pc + 2,
        ticked(ticked(m, keys, draw), later_keys, later_draw).cpu.stack == m.cpu.stack,
{
}

/// The processor after `n` steps of the timers.
pub open spec fn timers_decremented_times(cpu: CpuState, n: nat) -> CpuState
    decreases n,
{
    if n == 0 {
        cpu
    } else {
        timers_decremented_times(cpu, (n - 1) as nat).timers_decremented()
    }
}

/// After `n` steps each timer has lost `n`, or stands at zero where it held
/// less: a timer at zero is never decremented. Nothing else changes.
pub proof fn lemma_timers_after(cpu: CpuState, n: nat)
    ensures
        timers_decremented_times(cpu, n) == (CpuState {
            delay_timer: if cpu.delay_timer >= n {
                (cpu.delay_timer - n) as u8
            } else {
                0
            },
            sound_timer: if cpu.sound_timer >= n {
                (cpu.sound_timer - n) as u8
            } else {
                0
            },
            ..cpu
        }),
    decreases n,
{
    if n > 0 {
        lemma_timers_after(cpu, (n - 1) as nat);
    }
}

/// The machine after `n` ticks that all see the keypad `keys` and draw `draw`.
pub open spec fn ticked_times(m: Machine, keys: Seq<bool>, draw: u8, n: nat) -> Machine
    decreases n,
{
    if n == 0 {
        m
    } else {
        ticked(ticked_times(m, keys, draw, (n - 1) as nat), keys, draw)
    }
}

/// While no key is pressed, a processor that waits for a key stays where it
/// is, however many ticks run: the program counter, the registers, the stack,
/// the memory and the display are as before, and the next tick can run.
pub proof fn lemma_get_key_waits(m: Machine, keys: Seq<bool>, draw: u8, n: nat)
    requires
        m.well_formed(),
        can_tick(m.cpu, m.memory),
        decode(next_opcode(m)) matches Some(instruction) && instruction is GetKey,
        forall|j: int| 0 <= j < keys.len() ==> !keys[j],
    ensures
        ticked_times(m, keys, draw, n).well_formed(),
        ticked_times(m, keys, draw, n).cpu.pc == m.cpu.pc,
        ticked_times(m, keys, draw, n).cpu.vs == m.cpu.vs,
        ticked_times(m, keys, draw, n).cpu.index == m.cpu.index,
        ticked_times(m, keys, draw, n).cpu.stack == m.cpu.stack,
        ticked_times(m, keys, draw, n).memory == m.memory,
        ticked_times(m, keys, draw, n).display == m.display,
        can_tick(ticked_times(m, keys, draw, n).cpu, ticked_times(m, keys, draw, n).memory),
    decreases n,
{
    if n > 0 {
        let before = ticked_times(m, keys, draw, (n - 1) as nat);
        lemma_get_key_waits(m, keys, draw, (n - 1) as nat);
        lemma_lowest_pressed_none(keys);
        lemma_ticked_well_formed(before, keys, draw);
    }
}

/// Once a key is pressed, the one tick that follows ends the wait: the program
/// counter moves on by two and the target register holds the lowest pressed
/// key's digit. The other registers are as before.
pub proof fn lemma_get_key_resumes(m: Machine, keys: Seq<bool>, draw: u8, v: usize, key: int)
    requires
        m.well_formed(),
        can_tick(m.cpu, m.memory),
        decode(next_opcode(m)) == Some(Instruction::GetKey { v }),
        is_lowest_pressed(keys, key),
        keys.len() == 16,
    ensures
        ticked(m, keys, draw).cpu.pc == m.cpu.pc + 2,
        ticked(m, keys, draw).cpu.vs == m.cpu.vs.update(v as int, key as u8),
{
    lemma_lowest_pressed_is(keys, key);
}

/// Whether the program counter and every return address on the stack are even.
pub open spec fn aligned(cpu: CpuState) -> bool {
    &&& cpu.pc % 2 == 0
    &&& forall|i: int| 0 <= i < cpu.stack.len() ==> cpu.stack[i] % 2 == 0
}

/// Whether `instruction` names an odd address as its target.
pub open spec fn targets_odd_address(instruction: Instruction) -> bool {
    match instruction {
        Instruction::Jump { address } => address % 2 == 1,
        Instruction::SubroutineCall { address } => address % 2 == 1,
        _ => false,
    }
}

/// The program counter stays even: a tick that starts from an even counter and
/// even return addresses ends with them, unless it jumps to or calls an odd
/// address.
pub proof fn lemma_alignment_kept(m: Machine, keys: Seq<bool>, draw: u8)
    requires
        m.well_formed(),
        can_tick(m.cpu, m.memory),
        aligned(m.cpu),
        decode(next_opcode(m)) matches Some(instruction) ==> !targets_odd_address(instruction),
    ensures
        aligned(ticked(m, keys, draw).cpu),
{
    lemma_tick_fetches_first(m, keys, draw);
}

} // verus!
