//! The executable machine.

use vstd::prelude::*;
use crate::font::{FONT_SET, FONT_START};
use crate::model::{PROGRAM_CAPACITY, PROGRAM_START, State, loaded_memory};
use crate::opcode::{Instruction, decode, instruction_of, word_of};
use crate::random::random_byte;

verus! {

/// Why a program could not be loaded.
#[derive(Clone, Copy, Debug, PartialEq, Eq)]
pub enum LoadError {
    /// The program has `len` bytes, more than fit above the load address.
    ProgramTooLarge { len: usize },
}

/// The virtual CPU: registers, memory, stack, timers, keypad and framebuffer.
pub struct Chip8 {
    /// The registers `V0` to `VF`; `VF` is the flag register.
    pub registers: [u8; 16],
    pub memory: [u8; 4096],
    /// The index register, an address into memory.
    pub index: u16,
    /// The program counter: the address of the next instruction.
    pub pc: u16,
    /// The return addresses of the calls that are in progress.
    pub stack: [u16; 16],
    /// The stack pointer: the next free slot of the stack.
    pub sp: u8,
    pub delay_timer: u8,
    /// While this timer is not zero, a tone is due.
    pub sound_timer: u8,
    /// For each key, whether it is held down.
    pub keypad: [bool; 16],
    /// The framebuffer, 64 pixels a row, 32 rows; a cell that is not zero is
    /// a pixel that is on.
    pub video: [u32; 2048],
    /// The instruction word fetched last.
    pub opcode: u16,
}

impl View for Chip8 {
    type V = State;

    open spec fn view(&self) -> State {
        State {
            registers: self.registers@,
            memory: self.memory@,
            index: self.index,
            pc: self.pc,
            stack: self.stack@,
            sp: self.sp,
            delay_timer: self.delay_timer,
            sound_timer: self.sound_timer,
            keypad: self.keypad@,
            video: self.video@,
            opcode: self.opcode,
        }
    }
}

impl Chip8 {
    /// A machine in which every register, cell, timer and key is zero.
    pub fn new() -> (cpu: Self)
        ensures
            cpu@ == (State {
                registers: Seq::new(16, |i: int| 0u8),
                memory: Seq::new(4096, |i: int| 0u8),
                index: 0,
                pc: 0,
                stack: Seq::new(16, |i: int| 0u16),
                sp: 0,
                delay_timer: 0,
                sound_timer: 0,
                keypad: Seq::new(16, |i: int| false),
                video: Seq::new(2048, |i: int| 0u32),
                opcode: 0,
            }),
    {
        Chip8 {
            registers: [0; 16],
            memory: [0; 4096],
            index: 0,
            pc: 0,
            stack: [0; 16],
            sp: 0,
            delay_timer: 0,
            sound_timer: 0,
            keypad: [false; 16],
            video: [0; 2048],
            opcode: 0,
        }
    }

    /// A copy of the framebuffer.
    pub fn get_display(&self) -> (display: [u32; 2048])
        ensures
            display@ == self@.video,
    {
        self.video
    }

    /// Records that key `key` is held down (`value` is not zero) or released
    /// (`value` is zero).
    pub fn update_key(&mut self, key: usize, value: usize)
        requires
            key < 16,
        ensures
            final(self)@ == old(self)@.with_key(key as int, value != 0),
    {
        self.keypad[key] = value != 0;
    }

    /// Copies the font to its place in memory.
    pub fn load_fonts(&mut self)
        ensures
            final(self)@ == old(self)@.load_fonts(),
    {
        let ghost before = self@;
        let mut i: usize = 0;
        while i < 80
            invariant
                before == old(self)@,
                i <= 80,
                self@ == (State { memory: self.memory@, ..before }),
                self.memory@ == Seq::new(
                    4096,
                    |address: int|
                        if FONT_START <= address < FONT_START + i {
                            FONT_SET[address - FONT_START]
                        } else {
                            before.memory[address]
                        },
                ),
            decreases 80 - i,
        {
            self.memory[FONT_START + i] = FONT_SET[i];
            i += 1;
        }
    }

    /// Loads a program: copies the font to its place and `program` to memory
    /// from [`PROGRAM_START`] on, and sets the program counter to the
    /// program's first instruction.
    ///
    /// A program of more than [`PROGRAM_CAPACITY`] bytes does not fit and is
    /// refused; the machine is then left as it was.
    pub fn load_rom(&mut self, program: &[u8]) -> (result: Result<(), LoadError>)
        ensures
            match result {
                Ok(()) => {
                    &&& program@.len() <= PROGRAM_CAPACITY
                    &&& final(self)@ == old(self)@.load_rom(program@)
                },
                Err(error) => {
                    &&& program@.len() > PROGRAM_CAPACITY
                    &&& error == (LoadError::ProgramTooLarge { len: program@.len() as usize })
                    &&& *final(self) == *old(self)
                },
            },
    {
        let len = program.len();
        if len > PROGRAM_CAPACITY {
            return Err(LoadError::ProgramTooLarge { len });
        }
        let ghost before = self@;
        self.load_fonts();
        let mut i: usize = 0;
        while i < len
            invariant
                before == old(self)@,
                len == program@.len(),
                len <= PROGRAM_CAPACITY,
                i <= len,
                self@ == (State { memory: self.memory@, ..before }),
                self.memory@ == loaded_memory(before.memory, program@.take(i as int)),
            decreases len - i,
        {
            self.memory[PROGRAM_START + i] = program[i];
            i += 1;
        }
        self.pc = PROGRAM_START as u16;
        Ok(())
    }

    /// Fetch: reads the instruction word at the program counter, high byte
    /// first, and moves the program counter on to the next word.
    ///
    /// Addresses are taken modulo 4096: a program counter that has run off
    /// the end of memory starts again at its beginning.
    pub fn fetch(&mut self)
        ensures
            final(self)@ == old(self)@.fetch(),
    {
        let pc = (self.pc % 4096) as usize;
        self.opcode = word_of(self.memory[pc], self.memory[(pc + 1) % 4096]);
        self.pc = (pc + 2) as u16;
    }

    /// Executes the current instruction word. A word that encodes no
    /// instruction does nothing. `random` is the byte that `Cxkk` uses.
    pub fn execute(&mut self, random: u8)
        ensures
            final(self)@ == old(self)@.execute(random),
    {
        match decode(self.opcode) {
            Some(Instruction::ClearScreen) => self.op_00e0(),
            Some(Instruction::Return) => self.op_00ee(),
            Some(Instruction::Jump) => self.op_1nnn(),
            Some(Instruction::Call) => self.op_2nnn(),
            Some(Instruction::SkipIfEqual) => self.op_3xkk(),
            Some(Instruction::SkipIfNotEqual) => self.op_4xkk(),
            Some(Instruction::SkipIfRegistersEqual) => self.op_5xy0(),
            Some(Instruction::Load) => self.op_6xkk(),
            Some(Instruction::Add) => self.op_7xkk(),
            Some(Instruction::Copy) => self.op_8xy0(),
            Some(Instruction::Or) => self.op_8xy1(),
            Some(Instruction::And) => self.op_8xy2(),
            Some(Instruction::Xor) => self.op_8xy3(),
            Some(Instruction::AddRegister) => self.op_8xy4(),
            Some(Instruction::Subtract) => self.op_8xy5(),
            Some(Instruction::ShiftRight) => self.op_8xy6(),
            Some(Instruction::SubtractFrom) => self.op_8xy7(),
            Some(Instruction::ShiftLeft) => self.op_8xye(),
            Some(Instruction::SkipIfRegistersNotEqual) => self.op_9xy0(),
            Some(Instruction::LoadIndex) => self.op_annn(),
            Some(Instruction::JumpOffset) => self.op_bnnn(),
            Some(Instruction::Random) => self.op_cxkk_with(random),
            Some(Instruction::Draw) => self.op_dxyn(),
            Some(Instruction::SkipIfKey) => self.op_ex9e(),
            Some(Instruction::SkipIfNotKey) => self.op_exa1(),
            Some(Instruction::ReadDelay) => self.op_fx07(),
            Some(Instruction::WaitKey) => self.op_fx0a(),
            Some(Instruction::SetDelay) => self.op_fx15(),
            Some(Instruction::SetSound) => self.op_fx18(),
            Some(Instruction::AddIndex) => self.op_fx1e(),
            Some(Instruction::Glyph) => self.op_fx29(),
            Some(Instruction::StoreDecimal) => self.op_fx33(),
            Some(Instruction::StoreRegisters) => self.op_fx55(),
            Some(Instruction::LoadRegisters) => self.op_fx65(),
            None => {},
        }
    }

    /// Each timer that is not zero goes down by one.
    pub fn tick_timers(&mut self)
        ensures
            final(self)@ == old(self)@.tick(),
    {
        if self.delay_timer > 0 {
            self.delay_timer -= 1;
        }
        if self.sound_timer > 0 {
            self.sound_timer -= 1;
        }
    }

    /// One cycle with the random byte given: fetches the instruction at the
    /// program counter, executes it, and lets the timers tick. `random` is
    /// used only if the instruction is `Cxkk`.
    pub fn cycle_with(&mut self, random: u8)
        ensures
            final(self)@ == old(self)@.step(random),
    {
        self.fetch();
        self.execute(random);
        self.tick_timers();
    }

    /// One cycle: fetches the instruction at the program counter, executes
    /// it, and lets the timers tick. If the instruction is `Cxkk`, a byte is
    /// drawn at random for it.
    pub fn cycle(&mut self)
        ensures
            exists|random: u8| final(self)@ == old(self)@.step(random),
            instruction_of(old(self)@.fetch().opcode) != Some(Instruction::Random)
                ==> final(self)@ == old(self)@.step(0),
    {
        self.fetch();
        let random = match decode(self.opcode) {
            Some(Instruction::Random) => random_byte(),
            _ => 0,
        };
        self.execute(random);
        self.tick_timers();
        assert(self@ == old(self)@.step(random));
    }
}

} // verus!
