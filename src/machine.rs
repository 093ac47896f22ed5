use vstd::prelude::*;

use crate::font::{font, font_bytes, FONT_SIZE};
use crate::instruction::{decode, decode_spec, fields_in_range, Instruction};
use crate::model::{
    advanced, blank_display, effect, flag_then_reg, key_pressed, loaded, machine_wf, skip_if, step,
    stored, ticked, with_bcd, with_reg, Fault, Machine, Outcome, MEMORY_SIZE, PROGRAM_START,
    STACK_DEPTH,
};
use crate::sprite::{collides, draw_sprite, drawn, SCREEN_SIZE};

verus! {

/// Why a program could not be loaded.
#[derive(Clone, Copy, Debug, PartialEq, Eq, Structural)]
pub enum LoadError {
    /// The program does not fit between the load address and the end of memory.
    ProgramTooLarge,
}

/// The program that `Chip8::new` loads in place of the given one when asked
/// for its built-in demonstration: it draws glyph `0`, then glyph `1` beside it.
pub open spec fn demo_program() -> Seq<u8> {
    seq![0xD1u8, 0x25, 0xA0, 0x05, 0x61, 0x05, 0xD1, 0x25]
}

/// The address space right after loading `program`: the glyph table at the
/// bottom, the program at the load address, zero elsewhere.
pub open spec fn initial_memory(program: Seq<u8>) -> Seq<u8> {
    Seq::new(
        4096,
        |a: int|
            if a < 80 {
                font()[a]
            } else if 0x200 <= a < 0x200 + program.len() {
                program[a - 0x200]
            } else {
                0u8
            },
    )
}

/// The machine right after loading `program`.
pub open spec fn initial(program: Seq<u8>) -> Machine {
    Machine {
        memory: initial_memory(program),
        v: Seq::new(16, |i: int| 0u8),
        index: 0,
        pc: 0x200,
        display: blank_display(),
        stack: Seq::empty(),
        delay: 0,
        sound: 0,
        draw_flag: false,
        awaiting_key: false,
    }
}

/// The instruction word at the program counter, big-endian.
pub open spec fn fetched(m: Machine) -> u16 {
    (m.memory[m.pc as int] * 256 + m.memory[m.pc + 1]) as u16
}

/// A CHIP-8 machine: address space, registers, call stack, timers and
/// framebuffer.
pub struct Chip8 {
    memory: [u8; MEMORY_SIZE],
    register: [u8; 16],
    index: u16,
    pc: u16,
    /// The 64 x 32 framebuffer, row after row; `true` is a lit pixel.
    pub display: [bool; SCREEN_SIZE],
    stack: [u16; 16],
    sp: u16,
    delay_timer: u8,
    sound_timer: u8,
    /// Set by a cycle that wrote the framebuffer, cleared by any other.
    pub draw_flag: bool,
    awaiting_key: bool,
}

/// A byte from the thread-local generator of `rand::random::<u8>`; any value
/// may come back.
#[verifier::external_body]
fn random_byte() -> u8 {
    rand::random::<u8>()
}

impl View for Chip8 {
    type V = Machine;

    closed spec fn view(&self) -> Machine {
        Machine {
            memory: self.memory@,
            v: self.register@,
            index: self.index,
            pc: self.pc,
            display: self.display@,
            stack: self.stack@.subrange(0, self.sp as int),
            delay: self.delay_timer,
            sound: self.sound_timer,
            draw_flag: self.draw_flag,
            awaiting_key: self.awaiting_key,
        }
    }
}

impl Chip8 {
    /// The stack pointer stays within the stack, and the machine's state is
    /// well formed.
    pub closed spec fn wf(&self) -> bool {
        self.sp <= 16 && machine_wf(self@)
    }

    /// Resets a machine and loads `op_code` at the load address, or, when
    /// `is_test` holds, the built-in demonstration program instead.
    pub fn new(op_code: Vec<u8>, is_test: bool) -> (r: Result<Chip8, LoadError>)
        ensures
            r is Err <==> !is_test && op_code.len() > MEMORY_SIZE - PROGRAM_START,
            r is Err ==> r == Err::<Chip8, LoadError>(LoadError::ProgramTooLarge),
            r matches Ok(c) ==> c.wf() && c@ == initial(
                if is_test { demo_program() } else { op_code@ },
            ),
    {
        let demo: [u8; 8] = [0xD1, 0x25, 0xA0, 0x05, 0x61, 0x05, 0xD1, 0x25];
        assert(demo@ =~= demo_program());
        let program: &[u8] = if is_test { demo.as_slice() } else { op_code.as_slice() };
        if program.len() > MEMORY_SIZE - PROGRAM_START as usize {
            return Err(LoadError::ProgramTooLarge);
        }
        let glyphs = font_bytes();
        let mut memory = [0u8; MEMORY_SIZE];
        let mut i: usize = 0;
        while i < FONT_SIZE
            invariant
                i <= 80,
                glyphs@ == font(),
                forall|a: int| 0 <= a < 4096 ==> #[trigger] memory@[a] == if a < i { font()[a] } else { 0u8 },
            decreases 80 - i,
        {
            memory[i] = glyphs[i];
            i = i + 1;
        }
        let mut j: usize = 0;
        while j < program.len()
            invariant
                j <= program@.len() <= 4096 - 0x200,
                forall|a: int|
                    0 <= a < 4096 ==> #[trigger] memory@[a] == if a < 80 {
                        font()[a]
                    } else if 0x200 <= a < 0x200 + j {
                        program@[a - 0x200]
                    } else {
                        0u8
                    },
            decreases program@.len() - j,
        {
            memory[0x200 + j] = program[j];
            j = j + 1;
        }
        let machine = Chip8 {
            memory,
            register: [0u8; 16],
            index: 0,
            pc: PROGRAM_START,
            display: [false; SCREEN_SIZE],
            stack: [0u16; 16],
            sp: 0,
            delay_timer: 0,
            sound_timer: 0,
            draw_flag: false,
            awaiting_key: false,
        };
        assert(machine@.memory =~= initial_memory(program@));
        assert(machine@.v =~= Seq::new(16, |i: int| 0u8));
        assert(machine@.display =~= blank_display());
        assert(machine@.stack =~= Seq::<u16>::empty());
        Ok(machine)
    }

    // Runs one decoded instruction standing at the program counter.
    fn run_instruction(&mut self, ins: Instruction, key: u8, rnd: u8) -> (r: Result<Outcome, Fault>)
        requires
            old(self).wf(),
            old(self).pc < 4095,
            fields_in_range(ins),
        ensures
            final(self).wf(),
            match effect(old(self)@, ins, key, rnd) {
                Ok((m, outcome)) => r == Ok::<Outcome, Fault>(outcome) && final(self)@ == m,
                Err(fault) => r == Err::<Outcome, Fault>(fault) && *final(self) == *old(self),
            },
    {
        match ins {
            Instruction::Clear => self.op_00e0(),
            Instruction::Return => {
                self.op_00ee()?;
            },
            Instruction::Jump { nnn } => self.op_1xxx(nnn),
            Instruction::Call { nnn } => {
                self.op_2xxx(nnn)?;
            },
            Instruction::SkipEqImm { x, nn } => self.op_3xxx(x, nn),
            Instruction::SkipNeImm { x, nn } => self.op_4xxx(x, nn),
            Instruction::SkipEqReg { x, y } => self.op_5xxx(x, y),
            Instruction::LoadImm { x, nn } => self.op_6xxx(x, nn),
            Instruction::AddImm { x, nn } => self.op_7xxx(x, nn),
            Instruction::Move { x, y } => self.op_8xx0(x, y),
            Instruction::Or { x, y } => self.op_8xx1(x, y),
            Instruction::And { x, y } => self.op_8xx2(x, y),
            Instruction::Xor { x, y } => self.op_8xx3(x, y),
            Instruction::AddReg { x, y } => self.op_8xx4(x, y),
            Instruction::SubReg { x, y } => self.op_8xx5(x, y),
            Instruction::ShiftRight { x, y } => self.op_8xx6(x, y),
            Instruction::SubRev { x, y } => self.op_8xx7(x, y),
            Instruction::ShiftLeft { x, y } => self.op_8xxe(x, y),
            Instruction::SkipNeReg { x, y } => self.op_9xxx(x, y),
            Instruction::LoadIndex { nnn } => self.op_axxx(nnn),
            Instruction::JumpOffset { nnn } => self.op_bxxx(nnn),
            Instruction::Random { x, nn } => self.op_cxxx(x, nn, rnd),
            Instruction::Draw { x, y, n } => {
                self.op_dxxx(x, y, n)?;
            },
            Instruction::SkipKeyEq { x } => self.op_ex9e(x, key),
            Instruction::SkipKeyNe { x } => self.op_exa1(x, key),
            Instruction::GetDelay { x } => self.op_fx07(x),
            Instruction::WaitKey { x } => {
                if self.op_fx0a(x, key) {
                    return Ok(Outcome::AwaitingKey);
                }
            },
            Instruction::SetDelay { x } => self.op_fx15(x),
            Instruction::SetSound { x } => self.op_fx18(x),
            Instruction::AddIndex { x } => self.op_fx1e(x),
            Instruction::Glyph { x } => self.op_fx29(x),
            Instruction::Bcd { x } => {
                self.op_fx33(x)?;
            },
            Instruction::Store { x } => {
                self.op_fx55(x)?;
            },
            Instruction::Load { x } => {
                self.op_fx65(x)?;
            },
            Instruction::Unknown { word } => {
                self.pc = self.pc + 2;
                return Ok(Outcome::UnknownOpcode { word });
            },
        }
        Ok(Outcome::Executed)
    }

    /// Executes `word` as the instruction at the program counter, with `key`
    /// as the key latch (a value above 15 means no key) and `rnd` as the
    /// random byte that `Cxnn` uses. Words that name no instruction, the
    /// all-zero word among them, are skipped and reported.
    pub fn execute(&mut self, word: u16, key: u8, rnd: u8) -> (r: Result<Outcome, Fault>)
        requires
            old(self).wf(),
        ensures
            final(self).wf(),
            match step(old(self)@, decode_spec(word), key, rnd) {
                Ok((m, outcome)) => r == Ok::<Outcome, Fault>(outcome) && final(self)@ == m,
                Err(fault) => r == Err::<Outcome, Fault>(fault) && *final(self) == *old(self),
            },
    {
        if self.pc as usize + 1 >= MEMORY_SIZE {
            return Err(Fault::ProgramCounterOutOfRange);
        }
        let ins = decode(word);
        let outcome = self.run_instruction(ins, key, rnd)?;
        self.draw_flag = matches!(ins, Instruction::Clear | Instruction::Draw { .. });
        self.awaiting_key = outcome == Outcome::AwaitingKey;
        Ok(outcome)
    }

    /// One machine cycle: fetches the instruction word at the program
    /// counter and executes it, `key` being the key latch. The timers are not
    /// touched: they run on their own cadence, see `tick_timers`.
    pub fn run_cycle(&mut self, key: u8) -> (r: Result<Outcome, Fault>)
        requires
            old(self).wf(),
        ensures
            final(self).wf(),
            exists|rnd: u8|
                match #[trigger] step(old(self)@, decode_spec(fetched(old(self)@)), key, rnd) {
                    Ok((m, outcome)) => r == Ok::<Outcome, Fault>(outcome) && final(self)@ == m,
                    Err(fault) => r == Err::<Outcome, Fault>(fault) && *final(self) == *old(self),
                },
    {
        let pc = self.pc as usize;
        if pc + 1 >= MEMORY_SIZE {
            assert(step(self@, decode_spec(fetched(self@)), key, 0) is Err);
            return Err(Fault::ProgramCounterOutOfRange);
        }
        let word = self.memory[pc] as u16 * 256 + self.memory[pc + 1] as u16;
        let rnd = if word / 4096 == 0xC { random_byte() } else { 0 };
        self.execute(word, key, rnd)
    }

    /// One tick of the 60 Hz timers: each one above zero counts down by one.
    pub fn tick_timers(&mut self)
        requires
            old(self).wf(),
        ensures
            final(self).wf(),
            final(self)@ == ticked(old(self)@),
    {
        if self.delay_timer > 0 {
            self.delay_timer = self.delay_timer - 1;
        }
        if self.sound_timer > 0 {
            self.sound_timer = self.sound_timer - 1;
        }
    }

    /// Register `V[i]`.
    pub fn register(&self, i: u8) -> (r: u8)
        requires
            i < 16,
            self.wf(),
        ensures
            r == self@.v[i as int],
    {
        self.register[i as usize]
    }

    /// The index register `I`.
    pub fn index(&self) -> (r: u16)
        ensures
            r == self@.index,
    {
        self.index
    }

    /// The program counter.
    pub fn pc(&self) -> (r: u16)
        ensures
            r == self@.pc,
    {
        self.pc
    }

    /// The number of active calls on the stack.
    pub fn stack_depth(&self) -> (r: usize)
        requires
            self.wf(),
        ensures
            r == self@.stack.len(),
    {
        self.sp as usize
    }

    /// The byte at `addr`.
    pub fn memory_at(&self, addr: u16) -> (r: u8)
        requires
            addr < 4096,
            self.wf(),
        ensures
            r == self@.memory[addr as int],
    {
        self.memory[addr as usize]
    }

    /// The delay timer.
    pub fn delay_timer(&self) -> (r: u8)
        ensures
            r == self@.delay,
    {
        self.delay_timer
    }

    /// The sound timer.
    pub fn sound_timer(&self) -> (r: u8)
        ensures
            r == self@.sound,
    {
        self.sound_timer
    }

    /// Whether the machine is suspended on `Fx0A`, waiting for a key.
    pub fn awaiting_key(&self) -> (r: bool)
        ensures
            r == self@.awaiting_key,
    {
        self.awaiting_key
    }

    // 00E0: clear the framebuffer.
    fn op_00e0(&mut self)
        requires
            old(self).wf(),
            old(self).pc < 4095,
        ensures
            final(self).wf(),
            final(self)@ == advanced(Machine { display: blank_display(), ..old(self)@ }, 2),
    {
        self.display = [false; SCREEN_SIZE];
        assert(self.display@ =~= blank_display());
        self.pc = self.pc + 2;
    }

    // 00EE: return from a subroutine to the instruction after its call.
    fn op_00ee(&mut self) -> (r: Result<(), Fault>)
        requires
            old(self).wf(),
        ensures
            final(self).wf(),
            old(self)@.stack.len() == 0 ==> r == Err::<(), Fault>(Fault::StackUnderflow) && *final(self) == *old(self),
            old(self)@.stack.len() > 0 ==> r is Ok && final(self)@ == (Machine {
                pc: (old(self)@.stack.last() + 2) as u16,
                stack: old(self)@.stack.drop_last(),
                ..old(self)@
            }),
    {
        if self.sp == 0 {
            return Err(Fault::StackUnderflow);
        }
        let ghost before = self@;
        self.sp = self.sp - 1;
        assert(self.stack@[self.sp as int] == before.stack.last());
        self.pc = self.stack[self.sp as usize] + 2;
        assert(self@.stack =~= before.stack.drop_last());
        Ok(())
    }

    // 1NNN: jump to NNN.
    fn op_1xxx(&mut self, nnn: u16)
        requires
            old(self).wf(),
        ensures
            final(self).wf(),
            final(self)@ == (Machine { pc: nnn, ..old(self)@ }),
    {
        self.pc = nnn;
    }

    // 2NNN: push the program counter and jump to NNN.
    fn op_2xxx(&mut self, nnn: u16) -> (r: Result<(), Fault>)
        requires
            old(self).wf(),
            old(self).pc < 4095,
        ensures
            final(self).wf(),
            old(self)@.stack.len() >= 16 ==> r == Err::<(), Fault>(Fault::StackOverflow) && *final(self) == *old(self),
            old(self)@.stack.len() < 16 ==> r is Ok && final(self)@ == (Machine {
                pc: nnn,
                stack: old(self)@.stack.push(old(self)@.pc),
                ..old(self)@
            }),
    {
        if self.sp >= STACK_DEPTH {
            return Err(Fault::StackOverflow);
        }
        let ghost before = self@;
        self.stack[self.sp as usize] = self.pc;
        self.sp = self.sp + 1;
        self.pc = nnn;
        assert(self@.stack =~= before.stack.push(before.pc));
        Ok(())
    }

    // 3XNN: skip the next instruction if VX == NN.
    fn op_3xxx(&mut self, x: u8, nn: u8)
        requires
            old(self).wf(),
            old(self).pc < 4095,
            x < 16,
        ensures
            final(self).wf(),
            final(self)@ == skip_if(old(self)@, old(self)@.v[x as int] == nn),
    {
        if self.register[x as usize] == nn {
            self.pc = self.pc + 4;
        } else {
            self.pc = self.pc + 2;
        }
    }

    // 4XNN: skip the next instruction if VX != NN.
    fn op_4xxx(&mut self, x: u8, nn: u8)
        requires
            old(self).wf(),
            old(self).pc < 4095,
            x < 16,
        ensures
            final(self).wf(),
            final(self)@ == skip_if(old(self)@, old(self)@.v[x as int] != nn),
    {
        if self.register[x as usize] != nn {
            self.pc = self.pc + 4;
        } else {
            self.pc = self.pc + 2;
        }
    }

    // 5XY0: skip the next instruction if VX == VY.
    fn op_5xxx(&mut self, x: u8, y: u8)
        requires
            old(self).wf(),
            old(self).pc < 4095,
            x < 16,
            y < 16,
        ensures
            final(self).wf(),
            final(self)@ == skip_if(old(self)@, old(self)@.v[x as int] == old(self)@.v[y as int]),
    {
        if self.register[x as usize] == self.register[y as usize] {
            self.pc = self.pc + 4;
        } else {
            self.pc = self.pc + 2;
        }
    }

    // 6XNN: VX = NN.
    fn op_6xxx(&mut self, x: u8, nn: u8)
        requires
            old(self).wf(),
            old(self).pc < 4095,
            x < 16,
        ensures
            final(self).wf(),
            final(self)@ == advanced(with_reg(old(self)@, x as int, nn), 2),
    {
        self.register[x as usize] = nn;
        self.pc = self.pc + 2;
    }

    // 7XNN: VX += NN, wrapping, with no flag.
    fn op_7xxx(&mut self, x: u8, nn: u8)
        requires
            old(self).wf(),
            old(self).pc < 4095,
            x < 16,
        ensures
            final(self).wf(),
            final(self)@ == advanced(
                with_reg(old(self)@, x as int, ((old(self)@.v[x as int] + nn) % 256) as u8),
                2,
            ),
    {
        let sum: u16 = self.register[x as usize] as u16 + nn as u16;
        self.register[x as usize] = (sum % 256) as u8;
        self.pc = self.pc + 2;
    }

    // 8XY0: VX = VY.
    fn op_8xx0(&mut self, x: u8, y: u8)
        requires
            old(self).wf(),
            old(self).pc < 4095,
            x < 16,
            y < 16,
        ensures
            final(self).wf(),
            final(self)@ == advanced(with_reg(old(self)@, x as int, old(self)@.v[y as int]), 2),
    {
        self.register[x as usize] = self.register[y as usize];
        self.pc = self.pc + 2;
    }

    // 8XY1: VX = VX | VY.
    fn op_8xx1(&mut self, x: u8, y: u8)
        requires
            old(self).wf(),
            old(self).pc < 4095,
            x < 16,
            y < 16,
        ensures
            final(self).wf(),
            final(self)@ == advanced(
                with_reg(old(self)@, x as int, old(self)@.v[x as int] | old(self)@.v[y as int]),
                2,
            ),
    {
        self.register[x as usize] = self.register[x as usize] | self.register[y as usize];
        self.pc = self.pc + 2;
    }

    // 8XY2: VX = VX & VY.
    fn op_8xx2(&mut self, x: u8, y: u8)
        requires
            old(self).wf(),
            old(self).pc < 4095,
            x < 16,
            y < 16,
        ensures
            final(self).wf(),
            final(self)@ == advanced(
                with_reg(old(self)@, x as int, old(self)@.v[x as int] & old(self)@.v[y as int]),
                2,
            ),
    {
        self.register[x as usize] = self.register[x as usize] & self.register[y as usize];
        self.pc = self.pc + 2;
    }

    // 8XY3: VX = VX ^ VY.
    fn op_8xx3(&mut self, x: u8, y: u8)
        requires
            old(self).wf(),
            old(self).pc < 4095,
            x < 16,
            y < 16,
        ensures
            final(self).wf(),
            final(self)@ == advanced(
                with_reg(old(self)@, x as int, old(self)@.v[x as int] ^ old(self)@.v[y as int]),
                2,
            ),
    {
        self.register[x as usize] = self.register[x as usize] ^ self.register[y as usize];
        self.pc = self.pc + 2;
    }

    // 8XY4: VF = carry of VX + VY, then VX = the sum's low byte.
    fn op_8xx4(&mut self, x: u8, y: u8)
        requires
            old(self).wf(),
            old(self).pc < 4095,
            x < 16,
            y < 16,
        ensures
            final(self).wf(),
            final(self)@ == flag_then_reg(
                old(self)@,
                old(self)@.v[x as int] + old(self)@.v[y as int] > 255,
                x as int,
                ((old(self)@.v[x as int] + old(self)@.v[y as int]) % 256) as u8,
            ),
    {
        let sum: u16 = self.register[x as usize] as u16 + self.register[y as usize] as u16;
        self.register[15] = if sum > 255 { 1 } else { 0 };
        self.register[x as usize] = (sum % 256) as u8;
        self.pc = self.pc + 2;
    }

    // 8XY5: VF = 1 when VX >= VY (no borrow), then VX = VX - VY, wrapping.
    fn op_8xx5(&mut self, x: u8, y: u8)
        requires
            old(self).wf(),
            old(self).pc < 4095,
            x < 16,
            y < 16,
        ensures
            final(self).wf(),
            final(self)@ == flag_then_reg(
                old(self)@,
                old(self)@.v[x as int] >= old(self)@.v[y as int],
                x as int,
                ((old(self)@.v[x as int] - old(self)@.v[y as int]) % 256) as u8,
            ),
    {
        let vx = self.register[x as usize];
        let vy = self.register[y as usize];
        self.register[15] = if vx >= vy { 1 } else { 0 };
        self.register[x as usize] = ((vx as u16 + 256 - vy as u16) % 256) as u8;
        self.pc = self.pc + 2;
    }

    // 8XY6: VF = lowest bit of VY, then VX = VY >> 1.
    fn op_8xx6(&mut self, x: u8, y: u8)
        requires
            old(self).wf(),
            old(self).pc < 4095,
            x < 16,
            y < 16,
        ensures
            final(self).wf(),
            final(self)@ == flag_then_reg(
                old(self)@,
                old(self)@.v[y as int] % 2 == 1,
                x as int,
                (old(self)@.v[y as int] / 2) as u8,
            ),
    {
        let vy = self.register[y as usize];
        self.register[15] = vy % 2;
        self.register[x as usize] = vy / 2;
        self.pc = self.pc + 2;
    }

    // 8XY7: VF = 1 when VY >= VX (no borrow), then VX = VY - VX, wrapping.
    fn op_8xx7(&mut self, x: u8, y: u8)
        requires
            old(self).wf(),
            old(self).pc < 4095,
            x < 16,
            y < 16,
        ensures
            final(self).wf(),
            final(self)@ == flag_then_reg(
                old(self)@,
                old(self)@.v[y as int] >= old(self)@.v[x as int],
                x as int,
                ((old(self)@.v[y as int] - old(self)@.v[x as int]) % 256) as u8,
            ),
    {
        let vx = self.register[x as usize];
        let vy = self.register[y as usize];
        self.register[15] = if vy >= vx { 1 } else { 0 };
        self.register[x as usize] = ((vy as u16 + 256 - vx as u16) % 256) as u8;
        self.pc = self.pc + 2;
    }

    // 8XYE: VF = highest bit of VY, then VX = VY << 1, kept to eight bits.
    fn op_8xxe(&mut self, x: u8, y: u8)
        requires
            old(self).wf(),
            old(self).pc < 4095,
            x < 16,
            y < 16,
        ensures
            final(self).wf(),
            final(self)@ == flag_then_reg(
                old(self)@,
                old(self)@.v[y as int] >= 128,
                x as int,
                ((old(self)@.v[y as int] * 2) % 256) as u8,
            ),
    {
        let vy = self.register[y as usize];
        self.register[15] = if vy >= 128 { 1 } else { 0 };
        self.register[x as usize] = ((vy as u16 * 2) % 256) as u8;
        self.pc = self.pc + 2;
    }

    // 9XY0: skip the next instruction if VX != VY.
    fn op_9xxx(&mut self, x: u8, y: u8)
        requires
            old(self).wf(),
            old(self).pc < 4095,
            x < 16,
            y < 16,
        ensures
            final(self).wf(),
            final(self)@ == skip_if(old(self)@, old(self)@.v[x as int] != old(self)@.v[y as int]),
    {
        if self.register[x as usize] != self.register[y as usize] {
            self.pc = self.pc + 4;
        } else {
            self.pc = self.pc + 2;
        }
    }

    // ANNN: I = NNN.
    fn op_axxx(&mut self, nnn: u16)
        requires
            old(self).wf(),
            old(self).pc < 4095,
        ensures
            final(self).wf(),
            final(self)@ == advanced(Machine { index: nnn, ..old(self)@ }, 2),
    {
        self.index = nnn;
        self.pc = self.pc + 2;
    }

    // BNNN: jump to V0 + NNN.
    fn op_bxxx(&mut self, nnn: u16)
        requires
            old(self).wf(),
            nnn < 4096,
        ensures
            final(self).wf(),
            final(self)@ == (Machine { pc: (old(self)@.v[0] + nnn) as u16, ..old(self)@ }),
    {
        self.pc = self.register[0] as u16 + nnn;
    }

    // CXNN: VX = a random byte & NN; `rnd` is the byte drawn.
    fn op_cxxx(&mut self, x: u8, nn: u8, rnd: u8)
        requires
            old(self).wf(),
            old(self).pc < 4095,
            x < 16,
        ensures
            final(self).wf(),
            final(self)@ == advanced(with_reg(old(self)@, x as int, rnd & nn), 2),
    {
        self.register[x as usize] = rnd & nn;
        self.pc = self.pc + 2;
    }

    // DXYN: XOR an N-row sprite from memory at I onto the framebuffer at
    // (VX, VY); VF tells whether a lit pixel was turned off.
    fn op_dxxx(&mut self, x: u8, y: u8, n: u8) -> (r: Result<(), Fault>)
        requires
            old(self).wf(),
            old(self).pc < 4095,
            x < 16,
            y < 16,
            n < 16,
        ensures
            final(self).wf(),
            old(self)@.index + n > 4096 ==> r == Err::<(), Fault>(Fault::MemoryOutOfRange) && *final(self) == *old(self),
            old(self)@.index + n <= 4096 ==> r is Ok && final(self)@ == advanced(
                Machine {
                    display: drawn(
                        old(self)@.display,
                        old(self)@.memory,
                        old(self)@.index as int,
                        old(self)@.v[x as int],
                        old(self)@.v[y as int],
                        n,
                    ),
                    v: old(self)@.v.update(
                        15,
                        if collides(
                            old(self)@.display,
                            old(self)@.memory,
                            old(self)@.index as int,
                            old(self)@.v[x as int],
                            old(self)@.v[y as int],
                            n,
                        ) {
                            1
                        } else {
                            0
                        },
                    ),
                    ..old(self)@
                },
                2,
            ),
    {
        if self.index as usize + n as usize > MEMORY_SIZE {
            return Err(Fault::MemoryOutOfRange);
        }
        let vx = self.register[x as usize];
        let vy = self.register[y as usize];
        let collided = draw_sprite(&mut self.display, &self.memory, self.index as usize, vx, vy, n);
        self.register[15] = if collided { 1 } else { 0 };
        self.pc = self.pc + 2;
        Ok(())
    }

    // EX9E: skip the next instruction if the pressed key is VX.
    fn op_ex9e(&mut self, x: u8, key: u8)
        requires
            old(self).wf(),
            old(self).pc < 4095,
            x < 16,
        ensures
            final(self).wf(),
            final(self)@ == skip_if(old(self)@, key_pressed(key) && old(self)@.v[x as int] == key),
    {
        if key < 16 && self.register[x as usize] == key {
            self.pc = self.pc + 4;
        } else {
            self.pc = self.pc + 2;
        }
    }

    // EXA1: skip the next instruction unless the pressed key is VX.
    fn op_exa1(&mut self, x: u8, key: u8)
        requires
            old(self).wf(),
            old(self).pc < 4095,
            x < 16,
        ensures
            final(self).wf(),
            final(self)@ == skip_if(old(self)@, !(key_pressed(key) && old(self)@.v[x as int] == key)),
    {
        if !(key < 16 && self.register[x as usize] == key) {
            self.pc = self.pc + 4;
        } else {
            self.pc = self.pc + 2;
        }
    }

    // FX07: VX = the delay timer.
    fn op_fx07(&mut self, x: u8)
        requires
            old(self).wf(),
            old(self).pc < 4095,
            x < 16,
        ensures
            final(self).wf(),
            final(self)@ == advanced(with_reg(old(self)@, x as int, old(self)@.delay), 2),
    {
        self.register[x as usize] = self.delay_timer;
        self.pc = self.pc + 2;
    }

    // FX0A: VX = the pressed key; with none pressed, wait on this instruction.
    fn op_fx0a(&mut self, x: u8, key: u8) -> (waiting: bool)
        requires
            old(self).wf(),
            old(self).pc < 4095,
            x < 16,
        ensures
            final(self).wf(),
            waiting == !key_pressed(key),
            waiting ==> *final(self) == *old(self),
            !waiting ==> final(self)@ == advanced(with_reg(old(self)@, x as int, key), 2),
    {
        if key >= 16 {
            return true;
        }
        self.register[x as usize] = key;
        self.pc = self.pc + 2;
        false
    }

    // FX15: the delay timer = VX.
    fn op_fx15(&mut self, x: u8)
        requires
            old(self).wf(),
            old(self).pc < 4095,
            x < 16,
        ensures
            final(self).wf(),
            final(self)@ == advanced(Machine { delay: old(self)@.v[x as int], ..old(self)@ }, 2),
    {
        self.delay_timer = self.register[x as usize];
        self.pc = self.pc + 2;
    }

    // FX18: the sound timer = VX.
    fn op_fx18(&mut self, x: u8)
        requires
            old(self).wf(),
            old(self).pc < 4095,
            x < 16,
        ensures
            final(self).wf(),
            final(self)@ == advanced(Machine { sound: old(self)@.v[x as int], ..old(self)@ }, 2),
    {
        self.sound_timer = self.register[x as usize];
        self.pc = self.pc + 2;
    }

    // FX1E: I += VX; the index register is sixteen bits wide and wraps.
    fn op_fx1e(&mut self, x: u8)
        requires
            old(self).wf(),
            old(self).pc < 4095,
            x < 16,
        ensures
            final(self).wf(),
            final(self)@ == advanced(
                Machine { index: ((old(self)@.index + old(self)@.v[x as int]) % 65536) as u16, ..old(self)@ },
                2,
            ),
    {
        self.index = ((self.index as u32 + self.register[x as usize] as u32) % 65536) as u16;
        self.pc = self.pc + 2;
    }

    // FX29: I = the address of the glyph for the digit in VX.
    fn op_fx29(&mut self, x: u8)
        requires
            old(self).wf(),
            old(self).pc < 4095,
            x < 16,
        ensures
            final(self).wf(),
            final(self)@ == advanced(Machine { index: (old(self)@.v[x as int] * 5) as u16, ..old(self)@ }, 2),
    {
        self.index = self.register[x as usize] as u16 * 5;
        self.pc = self.pc + 2;
    }

    // FX33: the decimal digits of VX at I, I + 1 and I + 2.
    fn op_fx33(&mut self, x: u8) -> (r: Result<(), Fault>)
        requires
            old(self).wf(),
            old(self).pc < 4095,
            x < 16,
        ensures
            final(self).wf(),
            old(self)@.index + 2 >= 4096 ==> r == Err::<(), Fault>(Fault::MemoryOutOfRange) && *final(self) == *old(self),
            old(self)@.index + 2 < 4096 ==> r is Ok && final(self)@ == advanced(
                Machine {
                    memory: with_bcd(old(self)@.memory, old(self)@.index as int, old(self)@.v[x as int]),
                    ..old(self)@
                },
                2,
            ),
    {
        let i = self.index as usize;
        if i + 2 >= MEMORY_SIZE {
            return Err(Fault::MemoryOutOfRange);
        }
        let val = self.register[x as usize];
        self.memory[i] = val / 100;
        self.memory[i + 1] = (val / 10) % 10;
        self.memory[i + 2] = val % 10;
        self.pc = self.pc + 2;
        Ok(())
    }

    // FX55: V0..=VX to memory from I on; I moves past them.
    fn op_fx55(&mut self, x: u8) -> (r: Result<(), Fault>)
        requires
            old(self).wf(),
            old(self).pc < 4095,
            x < 16,
        ensures
            final(self).wf(),
            old(self)@.index + x >= 4096 ==> r == Err::<(), Fault>(Fault::MemoryOutOfRange) && *final(self) == *old(self),
            old(self)@.index + x < 4096 ==> r is Ok && final(self)@ == advanced(
                Machine {
                    memory: stored(old(self)@.memory, old(self)@.v, old(self)@.index as int, x as int),
                    index: (old(self)@.index + x + 1) as u16,
                    ..old(self)@
                },
                2,
            ),
    {
        if self.index as usize + x as usize >= MEMORY_SIZE {
            return Err(Fault::MemoryOutOfRange);
        }
        let ghost start = self@;
        let mut k: u8 = 0;
        while k <= x
            invariant
                k <= x + 1,
                x < 16,
                start.index + x < 4096,
                self.index == start.index + k,
                self.register@ == start.v,
                self.pc == start.pc,
                self.wf(),
                self@ == (Machine { memory: self@.memory, index: self@.index, ..start }),
                self@.memory =~= stored(start.memory, start.v, start.index as int, k - 1),
            decreases x + 1 - k,
        {
            self.memory[self.index as usize] = self.register[k as usize];
            self.index = self.index + 1;
            k = k + 1;
        }
        self.pc = self.pc + 2;
        Ok(())
    }

    // FX65: V0..=VX from memory from I on; I moves past them.
    fn op_fx65(&mut self, x: u8) -> (r: Result<(), Fault>)
        requires
            old(self).wf(),
            old(self).pc < 4095,
            x < 16,
        ensures
            final(self).wf(),
            old(self)@.index + x >= 4096 ==> r == Err::<(), Fault>(Fault::MemoryOutOfRange) && *final(self) == *old(self),
            old(self)@.index + x < 4096 ==> r is Ok && final(self)@ == advanced(
                Machine {
                    v: loaded(old(self)@.v, old(self)@.memory, old(self)@.index as int, x as int),
                    index: (old(self)@.index + x + 1) as u16,
                    ..old(self)@
                },
                2,
            ),
    {
        if self.index as usize + x as usize >= MEMORY_SIZE {
            return Err(Fault::MemoryOutOfRange);
        }
        let ghost start = self@;
        let mut k: u8 = 0;
        while k <= x
            invariant
                k <= x + 1,
                x < 16,
                start.index + x < 4096,
                self.index == start.index + k,
                self.memory@ == start.memory,
                self.pc == start.pc,
                self.wf(),
                self@ == (Machine { v: self@.v, index: self@.index, ..start }),
                self@.v =~= loaded(start.v, start.memory, start.index as int, k - 1),
            decreases x + 1 - k,
        {
            self.register[k as usize] = self.memory[self.index as usize];
            self.index = self.index + 1;
            k = k + 1;
        }
        self.pc = self.pc + 2;
        Ok(())
    }
}

} // verus!
