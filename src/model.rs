use vstd::prelude::*;

use crate::instruction::Instruction;
use crate::sprite::{collides, drawn};

verus! {

/// Size of the address space in bytes.
pub const MEMORY_SIZE: usize = 4096;

/// Address at which programs are loaded and execution starts.
pub const PROGRAM_START: u16 = 0x200;

/// Depth of the call stack.
pub const STACK_DEPTH: u16 = 16;

/// Key latch value meaning that no key is pressed; any value above 15 reads
/// the same way.
pub const NO_KEY: u8 = 0x10;

/// A condition that stops an instruction from executing. The machine is left
/// exactly as it was.
#[derive(Clone, Copy, Debug, PartialEq, Eq, Structural)]
pub enum Fault {
    /// The instruction word at the program counter does not lie in memory.
    ProgramCounterOutOfRange,
    /// A call with all sixteen stack slots in use.
    StackOverflow,
    /// A return with no call to return from.
    StackUnderflow,
    /// An instruction would read or write past the end of memory.
    MemoryOutOfRange,
}

/// What one executed cycle did.
#[derive(Clone, Copy, Debug, PartialEq, Eq, Structural)]
pub enum Outcome {
    /// The instruction ran.
    Executed,
    /// The word named no instruction; it was skipped.
    UnknownOpcode { word: u16 },
    /// `Fx0A` found no key pressed; the machine waits on the same instruction.
    AwaitingKey,
}

/// The abstract state of the machine.
pub struct Machine {
    /// The 4096-byte address space.
    pub memory: Seq<u8>,
    /// Registers `V0` to `VF`.
    pub v: Seq<u8>,
    /// The index register `I`.
    pub index: u16,
    /// The program counter.
    pub pc: u16,
    /// The 64 x 32 framebuffer, row after row; `true` is a lit pixel.
    pub display: Seq<bool>,
    /// Return addresses of the active calls, innermost last.
    pub stack: Seq<u16>,
    /// The delay timer.
    pub delay: u8,
    /// The sound timer.
    pub sound: u8,
    /// Whether the last cycle changed the framebuffer.
    pub draw_flag: bool,
    /// Whether the machine is suspended on `Fx0A`.
    pub awaiting_key: bool,
}

/// The shape every reachable machine state has.
pub open spec fn machine_wf(m: Machine) -> bool {
    &&& m.memory.len() == 4096
    &&& m.v.len() == 16
    &&& m.display.len() == 2048
    &&& m.stack.len() <= 16
    &&& forall|i: int| 0 <= i < m.stack.len() ==> #[trigger] m.stack[i] < 4095
}

/// A key latch value that names a key.
pub open spec fn key_pressed(key: u8) -> bool {
    key < 16
}

/// The program counter moved on by `step` bytes.
pub open spec fn advanced(m: Machine, step: int) -> Machine {
    Machine { pc: (m.pc + step) as u16, ..m }
}

/// The next instruction is skipped when `cond` holds.
pub open spec fn skip_if(m: Machine, cond: bool) -> Machine {
    advanced(m, if cond { 4 } else { 2 })
}

/// Register `x` set to `val`.
pub open spec fn with_reg(m: Machine, x: int, val: u8) -> Machine {
    Machine { v: m.v.update(x, val), ..m }
}

/// `VF` set to `flag`, then register `x` set to `val`, then the next
/// instruction. Both operands are read before either write, and when `x` is
/// `F` the result overwrites the flag.
pub open spec fn flag_then_reg(m: Machine, flag: bool, x: int, val: u8) -> Machine {
    advanced(with_reg(with_reg(m, 15, if flag { 1 } else { 0 }), x, val), 2)
}

/// The framebuffer with every cell clear.
pub open spec fn blank_display() -> Seq<bool> {
    Seq::new(2048, |p: int| false)
}

/// The three decimal digits of `val` stored at `index`.
pub open spec fn with_bcd(memory: Seq<u8>, index: int, val: u8) -> Seq<u8> {
    memory.update(index, (val / 100) as u8).update(index + 1, ((val / 10) % 10) as u8).update(
        index + 2,
        (val % 10) as u8,
    )
}

/// Registers `V0..=Vx` written to memory from `index` on.
pub open spec fn stored(memory: Seq<u8>, v: Seq<u8>, index: int, x: int) -> Seq<u8> {
    Seq::new(
        memory.len(),
        |a: int|
            if index <= a <= index + x {
                v[a - index]
            } else {
                memory[a]
            },
    )
}

/// Registers `V0..=Vx` read from memory from `index` on.
pub open spec fn loaded(v: Seq<u8>, memory: Seq<u8>, index: int, x: int) -> Seq<u8> {
    Seq::new(
        v.len(),
        |j: int|
            if j <= x {
                memory[index + j]
            } else {
                v[j]
            },
    )
}

/// What an instruction does, before the per-cycle flags are set. `key` is
/// the key latch and `rnd` the random byte that `Cxnn` draws.
pub open spec fn effect(m: Machine, ins: Instruction, key: u8, rnd: u8) -> Result<(Machine, Outcome), Fault> {
    match ins {
        Instruction::Clear => Ok((advanced(Machine { display: blank_display(), ..m }, 2), Outcome::Executed)),
        Instruction::Return => if m.stack.len() == 0 {
            Err(Fault::StackUnderflow)
        } else {
            Ok((Machine { pc: (m.stack.last() + 2) as u16, stack: m.stack.drop_last(), ..m }, Outcome::Executed))
        },
        Instruction::Jump { nnn } => Ok((Machine { pc: nnn, ..m }, Outcome::Executed)),
        Instruction::Call { nnn } => if m.stack.len() >= 16 {
            Err(Fault::StackOverflow)
        } else {
            Ok((Machine { pc: nnn, stack: m.stack.push(m.pc), ..m }, Outcome::Executed))
        },
        Instruction::SkipEqImm { x, nn } => Ok((skip_if(m, m.v[x as int] == nn), Outcome::Executed)),
        Instruction::SkipNeImm { x, nn } => Ok((skip_if(m, m.v[x as int] != nn), Outcome::Executed)),
        Instruction::SkipEqReg { x, y } => Ok((skip_if(m, m.v[x as int] == m.v[y as int]), Outcome::Executed)),
        Instruction::SkipNeReg { x, y } => Ok((skip_if(m, m.v[x as int] != m.v[y as int]), Outcome::Executed)),
        Instruction::LoadImm { x, nn } => Ok((advanced(with_reg(m, x as int, nn), 2), Outcome::Executed)),
        Instruction::AddImm { x, nn } => Ok((
            advanced(with_reg(m, x as int, ((m.v[x as int] + nn) % 256) as u8), 2),
            Outcome::Executed,
        )),
        Instruction::Move { x, y } => Ok((advanced(with_reg(m, x as int, m.v[y as int]), 2), Outcome::Executed)),
        Instruction::Or { x, y } => Ok((
            advanced(with_reg(m, x as int, m.v[x as int] | m.v[y as int]), 2),
            Outcome::Executed,
        )),
        Instruction::And { x, y } => Ok((
            advanced(with_reg(m, x as int, m.v[x as int] & m.v[y as int]), 2),
            Outcome::Executed,
        )),
        Instruction::Xor { x, y } => Ok((
            advanced(with_reg(m, x as int, m.v[x as int] ^ m.v[y as int]), 2),
            Outcome::Executed,
        )),
        Instruction::AddReg { x, y } => {
            let sum = m.v[x as int] + m.v[y as int];
            Ok((flag_then_reg(m, sum > 255, x as int, (sum % 256) as u8), Outcome::Executed))
        },
        Instruction::SubReg { x, y } => {
            let (vx, vy) = (m.v[x as int], m.v[y as int]);
            Ok((flag_then_reg(m, vx >= vy, x as int, ((vx - vy) % 256) as u8), Outcome::Executed))
        },
        Instruction::ShiftRight { x, y } => {
            let vy = m.v[y as int];
            Ok((flag_then_reg(m, vy % 2 == 1, x as int, (vy / 2) as u8), Outcome::Executed))
        },
        Instruction::SubRev { x, y } => {
            let (vx, vy) = (m.v[x as int], m.v[y as int]);
            Ok((flag_then_reg(m, vy >= vx, x as int, ((vy - vx) % 256) as u8), Outcome::Executed))
        },
        Instruction::ShiftLeft { x, y } => {
            let vy = m.v[y as int];
            Ok((flag_then_reg(m, vy >= 128, x as int, ((vy * 2) % 256) as u8), Outcome::Executed))
        },
        Instruction::LoadIndex { nnn } => Ok((advanced(Machine { index: nnn, ..m }, 2), Outcome::Executed)),
        Instruction::JumpOffset { nnn } => Ok((Machine { pc: (m.v[0] + nnn) as u16, ..m }, Outcome::Executed)),
        Instruction::Random { x, nn } => Ok((advanced(with_reg(m, x as int, rnd & nn), 2), Outcome::Executed)),
        Instruction::Draw { x, y, n } => if m.index + n > 4096 {
            Err(Fault::MemoryOutOfRange)
        } else {
            let (vx, vy) = (m.v[x as int], m.v[y as int]);
            let hit = collides(m.display, m.memory, m.index as int, vx, vy, n);
            Ok((
                advanced(
                    Machine {
                        display: drawn(m.display, m.memory, m.index as int, vx, vy, n),
                        v: m.v.update(15, if hit { 1 } else { 0 }),
                        ..m
                    },
                    2,
                ),
                Outcome::Executed,
            ))
        },
        Instruction::SkipKeyEq { x } => Ok((
            skip_if(m, key_pressed(key) && m.v[x as int] == key),
            Outcome::Executed,
        )),
        Instruction::SkipKeyNe { x } => Ok((
            skip_if(m, !(key_pressed(key) && m.v[x as int] == key)),
            Outcome::Executed,
        )),
        Instruction::GetDelay { x } => Ok((advanced(with_reg(m, x as int, m.delay), 2), Outcome::Executed)),
        Instruction::WaitKey { x } => if key_pressed(key) {
            Ok((advanced(with_reg(m, x as int, key), 2), Outcome::Executed))
        } else {
            Ok((m, Outcome::AwaitingKey))
        },
        Instruction::SetDelay { x } => Ok((advanced(Machine { delay: m.v[x as int], ..m }, 2), Outcome::Executed)),
        Instruction::SetSound { x } => Ok((advanced(Machine { sound: m.v[x as int], ..m }, 2), Outcome::Executed)),
        Instruction::AddIndex { x } => Ok((
            advanced(Machine { index: ((m.index + m.v[x as int]) % 65536) as u16, ..m }, 2),
            Outcome::Executed,
        )),
        Instruction::Glyph { x } => Ok((
            advanced(Machine { index: (m.v[x as int] * 5) as u16, ..m }, 2),
            Outcome::Executed,
        )),
        Instruction::Bcd { x } => if m.index + 2 >= 4096 {
            Err(Fault::MemoryOutOfRange)
        } else {
            Ok((
                advanced(Machine { memory: with_bcd(m.memory, m.index as int, m.v[x as int]), ..m }, 2),
                Outcome::Executed,
            ))
        },
        Instruction::Store { x } => if m.index + x >= 4096 {
            Err(Fault::MemoryOutOfRange)
        } else {
            Ok((
                advanced(
                    Machine {
                        memory: stored(m.memory, m.v, m.index as int, x as int),
                        index: (m.index + x + 1) as u16,
                        ..m
                    },
                    2,
                ),
                Outcome::Executed,
            ))
        },
        Instruction::Load { x } => if m.index + x >= 4096 {
            Err(Fault::MemoryOutOfRange)
        } else {
            Ok((
                advanced(
                    Machine {
                        v: loaded(m.v, m.memory, m.index as int, x as int),
                        index: (m.index + x + 1) as u16,
                        ..m
                    },
                    2,
                ),
                Outcome::Executed,
            ))
        },
        Instruction::Unknown { word } => Ok((advanced(m, 2), Outcome::UnknownOpcode { word })),
    }
}

/// Whether an instruction writes the framebuffer.
pub open spec fn touches_display(ins: Instruction) -> bool {
    ins is Clear || ins is Draw
}

/// One cycle: the instruction `ins`, standing at the program counter, is
/// executed. A fault leaves the machine as it was; otherwise the draw flag
/// tells whether the framebuffer was written and the waiting flag whether
/// the machine waits for a key.
pub open spec fn step(m: Machine, ins: Instruction, key: u8, rnd: u8) -> Result<(Machine, Outcome), Fault> {
    if m.pc + 1 >= 4096 {
        Err(Fault::ProgramCounterOutOfRange)
    } else {
        match effect(m, ins, key, rnd) {
            Ok((next, outcome)) => Ok((
                Machine {
                    draw_flag: touches_display(ins),
                    awaiting_key: outcome == Outcome::AwaitingKey,
                    ..next
                },
                outcome,
            )),
            Err(fault) => Err(fault),
        }
    }
}

/// The machine after a cycle that did not fault.
pub open spec fn after(m: Machine, ins: Instruction, key: u8, rnd: u8) -> Machine {
    step(m, ins, key, rnd)->Ok_0.0
}

/// One timer tick: each timer above zero counts down by one.
pub open spec fn ticked(m: Machine) -> Machine {
    Machine {
        delay: if m.delay > 0 { (m.delay - 1) as u8 } else { 0 },
        sound: if m.sound > 0 { (m.sound - 1) as u8 } else { 0 },
        ..m
    }
}

} // verus!
