//! The interpreter: a machine in memory, and the operations that load a
//! program into it and run it one cycle at a time.

use vstd::prelude::*;
use xorshift::Xoroshiro128;
use crate::display::{blit, encode_frame, encoded_frame};
use crate::keypad::{key_index, keypad_key, Keycode};
use crate::memory::{copy_image, load_registers, store_registers, write_decimal};
use crate::opcode::{decode, opcode_family, Instruction};
use crate::random::{
    generator_words, next_word, seeded_generator, xoroshiro_next, SEED_HIGH, SEED_LOW,
};
use crate::state::{Fault, LoadError, Machine};

verus! {

/// The glyphs of the sixteen hexadecimal digits, five bytes each.
pub const FONTSET: [u8; 80] = [
    0xF0, 0x90, 0x90, 0x90, 0xF0,
    0x20, 0x60, 0x20, 0x20, 0x70,
    0xF0, 0x10, 0xF0, 0x80, 0xF0,
    0xF0, 0x10, 0xF0, 0x10, 0xF0,
    0x90, 0x90, 0xF0, 0x10, 0x10,
    0xF0, 0x80, 0xF0, 0x10, 0xF0,
    0xF0, 0x80, 0xF0, 0x90, 0xF0,
    0xF0, 0x10, 0x20, 0x40, 0x40,
    0xF0, 0x90, 0xF0, 0x90, 0xF0,
    0xF0, 0x90, 0xF0, 0x10, 0xF0,
    0xF0, 0x90, 0xF0, 0x90, 0x90,
    0xE0, 0x90, 0xE0, 0x90, 0xE0,
    0xF0, 0x80, 0x80, 0x80, 0xF0,
    0xE0, 0x90, 0x90, 0x90, 0xE0,
    0xF0, 0x80, 0xF0, 0x80, 0xF0,
    0xF0, 0x80, 0xF0, 0x80, 0x80,
];

/// Adds two bytes, dropping the carry.
fn add_bytes(a: u8, b: u8) -> (sum: u8)
    ensures
        sum == ((a + b) % 256) as u8,
{
    a.wrapping_add(b)
}

/// Subtracts `b` from `a`, borrowing from nowhere.
fn subtract_bytes(a: u8, b: u8) -> (difference: u8)
    ensures
        difference == ((a - b) % 256) as u8,
{
    a.wrapping_sub(b)
}

/// Adds two 16-bit words, dropping the carry.
fn add_words(a: u16, b: u16) -> (sum: u16)
    ensures
        sum == ((a + b) % 0x10000) as u16,
{
    a.wrapping_add(b)
}

/// The low byte of a 32-bit word.
fn low_byte(word: u32) -> (byte: u8)
    ensures
        byte == (word % 256) as u8,
{
    assert(word & 0xFF == word % 256) by (bit_vector);
    (word & 0xFF) as u8
}

/// A CHIP-8 machine.
pub struct Chip8 {
    memory: [u8; 4096],
    registers: [u8; 16],
    framebuffer: [bool; 2048],
    stack: [u16; 16],
    keys: [bool; 16],
    opcode: u16,
    index: u16,
    program_counter: u16,
    stack_pointer: usize,
    random: Xoroshiro128,
    delay_timer: u8,
    sound_timer: u8,
    beep_flag: bool,
    last_key: Option<u8>,
}

impl View for Chip8 {
    type V = Machine;

    closed spec fn view(&self) -> Machine {
        Machine {
            memory: self.memory@,
            registers: self.registers@,
            pixels: self.framebuffer@,
            stack: self.stack@,
            stack_pointer: self.stack_pointer as nat,
            keys: self.keys@,
            last_key: self.last_key,
            opcode: self.opcode,
            index: self.index,
            program_counter: self.program_counter,
            delay_timer: self.delay_timer,
            sound_timer: self.sound_timer,
            beep: self.beep_flag,
            generator: generator_words(self.random),
        }
    }
}

impl Chip8 {
    /// Makes a machine that is ready to run the program `rom`: memory holds
    /// the font and the program and is zero elsewhere, and the
    /// pseudo-random generator is at its fixed seed.
    ///
    /// A program of more than 3584 bytes does not fit and is refused.
    pub fn new(rom: &[u8]) -> (result: Result<Chip8, LoadError>)
        ensures
            match result {
                Ok(chip8) => {
                    &&& rom@.len() <= 3584
                    &&& chip8@.valid()
                    &&& chip8@ == Machine::blank().with_font(FONTSET@).with_program(rom@)
                },
                Err(error) => {
                    &&& rom@.len() > 3584
                    &&& error == (LoadError::CapacityExceeded { capacity: 3584, length: rom.len() })
                },
            },
    {
        let mut chip8 = Chip8 {
            memory: [0; 4096],
            registers: [0; 16],
            framebuffer: [false; 2048],
            stack: [0; 16],
            keys: [false; 16],
            opcode: 0,
            index: 0,
            program_counter: 0,
            stack_pointer: 0,
            random: seeded_generator(SEED_LOW, SEED_HIGH),
            delay_timer: 0,
            sound_timer: 0,
            beep_flag: false,
            last_key: None,
        };
        match chip8.load_fontset(&FONTSET) {
            Ok(()) => {},
            Err(error) => {
                return Err(error);
            },
        }
        match chip8.load_rom(rom) {
            Ok(_) => Ok(chip8),
            Err(error) => Err(error),
        }
    }

    /// Copies a font into memory, from address `0x050` on.
    ///
    /// A font of more than 80 bytes is refused, and nothing is written.
    pub fn load_fontset(&mut self, bytes: &[u8]) -> (result: Result<(), LoadError>)
        requires
            old(self)@.valid(),
        ensures
            final(self)@.valid(),
            match result {
                Ok(()) => bytes@.len() <= 80 && final(self)@ == old(self)@.with_font(bytes@),
                Err(error) => {
                    &&& bytes@.len() > 80
                    &&& final(self)@ == old(self)@
                    &&& error == (LoadError::CapacityExceeded { capacity: 80, length: bytes.len() })
                },
            },
    {
        if bytes.len() > 80 {
            return Err(LoadError::CapacityExceeded { capacity: 80, length: bytes.len() });
        }
        copy_image(&mut self.memory, 0x050, bytes);
        Ok(())
    }

    /// Copies a program into memory, from address `0x200` on, and makes the
    /// machine ready to run it: the program counter is set to `0x200`, the
    /// index register to 0, and the stack is emptied. Registers, timers,
    /// keys and the display stay as they are. Returns the size of the memory.
    ///
    /// A program of more than 3584 bytes does not fit. It is refused, and
    /// the machine stays as it was.
    pub fn load_rom(&mut self, bytes: &[u8]) -> (result: Result<usize, LoadError>)
        requires
            old(self)@.valid(),
        ensures
            final(self)@.valid(),
            match result {
                Ok(size) => {
                    &&& bytes@.len() <= 3584
                    &&& size == 4096
                    &&& final(self)@ == old(self)@.with_program(bytes@)
                },
                Err(error) => {
                    &&& bytes@.len() > 3584
                    &&& final(self)@ == old(self)@
                    &&& error == (LoadError::CapacityExceeded { capacity: 3584, length: bytes.len() })
                },
            },
    {
        if bytes.len() > 4096 - 0x200 {
            return Err(LoadError::CapacityExceeded { capacity: 4096 - 0x200, length: bytes.len() });
        }
        self.program_counter = 0x200;
        self.index = 0;
        self.stack = [0; 16];
        self.stack_pointer = 0;
        copy_image(&mut self.memory, 0x200, bytes);
        Ok(4096)
    }

    /// Reads the instruction word at the program counter.
    fn fetch(&self) -> (opcode: u16)
        requires
            self@.program_counter < 4095,
        ensures
            opcode == self@.fetch(),
    {
        let high = self.memory[self.program_counter as usize];
        let low = self.memory[self.program_counter as usize + 1];
        assert((high as u16) << 8 | (low as u16) == high * 256 + low) by (bit_vector);
        (high as u16) << 8 | (low as u16)
    }

    /// Ends a cycle: lets the timers tick and forgets the reported key.
    fn tick(&mut self)
        requires
            old(self)@.valid(),
        ensures
            final(self)@.valid(),
            final(self)@ == old(self)@.ticked(),
    {
        self.beep_flag = self.sound_timer == 1;
        if self.delay_timer > 0 {
            self.delay_timer -= 1;
        }
        if self.sound_timer > 0 {
            self.sound_timer -= 1;
        }
        self.last_key = None;
    }

    /// Executes the instruction word `opcode`, as if it had been fetched at
    /// the program counter. `word` is the number that the pseudo-random
    /// generator gave for this instruction; only `CXNN` reads it.
    ///
    /// The word is noted in the opcode register. On a fault nothing else
    /// changes.
    pub fn execute(&mut self, opcode: u16, word: u32) -> (result: Result<(), Fault>)
        requires
            old(self)@.valid(),
            old(self)@.program_counter < 4095,
        ensures
            final(self)@.valid(),
            match result {
                Ok(()) => old(self)@.execute(opcode, word) == Ok::<Machine, Fault>(final(self)@),
                Err(fault) => {
                    &&& old(self)@.execute(opcode, word) == Err::<Machine, Fault>(fault)
                    &&& final(self)@ == old(self)@.with_opcode(opcode)
                },
            },
    {
        self.set_opcode(opcode);
        let instruction = match decode(opcode) {
            Some(instruction) => instruction,
            None => {
                return Err(Fault::UnknownInstruction);
            },
        };
        match instruction {
            Instruction::NoOperation => {
                self.advance();
            },
            Instruction::ClearScreen => {
                self.clear();
                self.advance();
            },
            Instruction::Return => {
                return self.leave();
            },
            Instruction::Jump { address } => {
                self.jump(address);
            },
            Instruction::Call { address } => {
                return self.call(address);
            },
            Instruction::SkipIfEqual { x, value } => {
                self.skip_if(self.register(x) == value);
            },
            Instruction::SkipIfNotEqual { x, value } => {
                self.skip_if(self.register(x) != value);
            },
            Instruction::SkipIfRegistersEqual { x, y } => {
                self.skip_if(self.register(x) == self.register(y));
            },
            Instruction::LoadImmediate { x, value } => {
                self.set_register(x, value);
                self.advance();
            },
            Instruction::AddImmediate { x, value } => {
                self.set_register(x, add_bytes(self.register(x), value));
                self.advance();
            },
            Instruction::Copy { x, y } => {
                self.set_register(x, self.register(y));
                self.advance();
            },
            Instruction::Or { x, y } => {
                self.set_register(x, self.register(x) | self.register(y));
                self.advance();
            },
            Instruction::And { x, y } => {
                self.set_register(x, self.register(x) & self.register(y));
                self.advance();
            },
            Instruction::Xor { x, y } => {
                self.set_register(x, self.register(x) ^ self.register(y));
                self.advance();
            },
            Instruction::Add { x, y } => {
                let vx = self.register(x);
                let vy = self.register(y);
                self.set_register(x, add_bytes(vx, vy));
                self.set_flag(vy > 255 - vx);
                self.advance();
            },
            Instruction::Subtract { x, y } => {
                let vx = self.register(x);
                let vy = self.register(y);
                self.set_register(x, subtract_bytes(vx, vy));
                self.set_flag(vx >= vy);
                self.advance();
            },
            Instruction::ShiftRight { x, y } => {
                let vy = self.register(y);
                self.set_register(x, vy >> 1);
                self.set_flag(vy & 1 == 1);
                self.advance();
            },
            Instruction::SubtractReversed { x, y } => {
                let vx = self.register(x);
                let vy = self.register(y);
                self.set_register(x, subtract_bytes(vy, vx));
                self.set_flag(vy >= vx);
                self.advance();
            },
            Instruction::ShiftLeft { x, y } => {
                let vy = self.register(y);
                self.set_register(x, vy << 1);
                self.set_flag(vy & 0x80 != 0);
                self.advance();
            },
            Instruction::SkipIfRegistersDiffer { x, y } => {
                self.skip_if(self.register(x) != self.register(y));
            },
            Instruction::LoadIndex { address } => {
                self.set_index(address);
                self.advance();
            },
            Instruction::JumpOffset { address } => {
                self.jump(address + self.register(0) as u16);
            },
            Instruction::Random { x, mask } => {
                self.set_register(x, low_byte(word) & mask);
                self.advance();
            },
            Instruction::Draw { x, y, rows } => {
                self.draw(x, y, rows);
                self.advance();
            },
            Instruction::SkipIfKeyDown { x } => {
                self.skip_if(self.key_down(self.register(x)));
            },
            Instruction::SkipIfKeyUp { x } => {
                self.skip_if(!self.key_down(self.register(x)));
            },
            Instruction::ReadDelay { x } => {
                self.set_register(x, self.get_delay_timer());
                self.advance();
            },
            Instruction::WaitKey { x } => {
                if let Some(key) = self.reported_key() {
                    self.set_register(x, key);
                    self.advance();
                }
            },
            Instruction::SetDelay { x } => {
                self.set_delay_timer(self.register(x));
                self.advance();
            },
            Instruction::SetSound { x } => {
                self.set_sound_timer(self.register(x));
                self.advance();
            },
            Instruction::AddIndex { x } => {
                self.set_index(add_words(self.get_program_index(), self.register(x) as u16));
                self.advance();
            },
            Instruction::Glyph { x } => {
                self.set_index(0x050 + self.register(x) as u16 * 5);
                self.advance();
            },
            Instruction::Decimal { x } => {
                self.store_decimal(x);
                self.advance();
            },
            Instruction::Store { x } => {
                self.store(x);
                self.advance();
            },
            Instruction::Load { x } => {
                self.load(x);
                self.advance();
            },
        }
        Ok(())
    }

    /// Notes `opcode` in the opcode register.
    fn set_opcode(&mut self, opcode: u16)
        ensures
            final(self)@ == old(self)@.with_opcode(opcode),
    {
        self.opcode = opcode;
    }

    /// Reads register `x`.
    fn register(&self, x: u8) -> (value: u8)
        requires
            x < 16,
        ensures
            value == self@.register(x),
    {
        self.registers[x as usize]
    }

    /// Tells whether key `key` exists and is held down.
    fn key_down(&self, key: u8) -> (down: bool)
        ensures
            down == self@.key_down(key),
    {
        key < 16 && self.keys[key as usize]
    }

    /// Sets register `x` to `value`.
    fn set_register(&mut self, x: u8, value: u8)
        requires
            x < 16,
        ensures
            final(self)@ == old(self)@.with_register(x, value),
    {
        self.registers[x as usize] = value;
    }

    /// The key whose press was reported since the last cycle, if any.
    fn reported_key(&self) -> (key: Option<u8>)
        ensures
            key == self@.last_key,
    {
        self.last_key
    }

    /// Sets the delay timer to `value`.
    fn set_delay_timer(&mut self, value: u8)
        ensures
            final(self)@ == (Machine { delay_timer: value, ..old(self)@ }),
    {
        self.delay_timer = value;
    }

    /// Sets the sound timer to `value`.
    fn set_sound_timer(&mut self, value: u8)
        ensures
            final(self)@ == (Machine { sound_timer: value, ..old(self)@ }),
    {
        self.sound_timer = value;
    }

    /// Takes the next number from the pseudo-random generator.
    fn draw_word(&mut self) -> (word: u32)
        ensures
            word == xoroshiro_next(old(self)@.generator).0,
            final(self)@ == (Machine {
                generator: xoroshiro_next(old(self)@.generator).1,
                ..old(self)@
            }),
    {
        next_word(&mut self.random)
    }

    /// Sets the index register to `value`.
    fn set_index(&mut self, value: u16)
        ensures
            final(self)@ == old(self)@.with_index(value),
    {
        self.index = value;
    }

    /// Sets the program counter to `target`.
    fn jump(&mut self, target: u16)
        ensures
            final(self)@ == old(self)@.jumped(target),
    {
        self.program_counter = target;
    }

    /// Moves the program counter to the next instruction.
    fn advance(&mut self)
        requires
            old(self)@.program_counter < 4095,
        ensures
            final(self)@ == old(self)@.advanced(),
    {
        self.program_counter += 2;
    }

    /// Switches every pixel off.
    fn clear(&mut self)
        ensures
            final(self)@ == old(self)@.cleared(),
    {
        self.framebuffer = [false; 2048];
    }

    /// Calls the subroutine at `address`.
    fn call(&mut self, address: u16) -> (result: Result<(), Fault>)
        requires
            old(self)@.valid(),
            old(self)@.program_counter < 4095,
        ensures
            final(self)@.valid(),
            match result {
                Ok(()) => old(self)@.called(address) == Ok::<Machine, Fault>(final(self)@),
                Err(fault) => {
                    &&& old(self)@.called(address) == Err::<Machine, Fault>(fault)
                    &&& final(self)@ == old(self)@
                },
            },
    {
        if self.stack_pointer >= 16 {
            return Err(Fault::StackOverflow);
        }
        self.stack[self.stack_pointer] = self.program_counter;
        self.stack_pointer += 1;
        self.program_counter = address;
        Ok(())
    }

    /// Returns from a subroutine.
    fn leave(&mut self) -> (result: Result<(), Fault>)
        requires
            old(self)@.valid(),
        ensures
            final(self)@.valid(),
            match result {
                Ok(()) => old(self)@.returned() == Ok::<Machine, Fault>(final(self)@),
                Err(fault) => {
                    &&& old(self)@.returned() == Err::<Machine, Fault>(fault)
                    &&& final(self)@ == old(self)@
                },
            },
    {
        if self.stack_pointer == 0 {
            return Err(Fault::StackUnderflow);
        }
        self.stack_pointer -= 1;
        self.program_counter = self.stack[self.stack_pointer] + 2;
        Ok(())
    }

    /// Draws the sprite of `rows` rows at the index register at `(VX, VY)`.
    fn draw(&mut self, x: u8, y: u8, rows: u8)
        requires
            x < 16,
            y < 16,
        ensures
            final(self)@ == old(self)@.drawn(x, y, rows),
    {
        let left = self.registers[x as usize];
        let top = self.registers[y as usize];
        let collision = blit(&mut self.framebuffer, &self.memory, self.index, left, top, rows);
        self.set_flag(collision);
    }

    /// Writes the three decimal digits of `VX` at the index register.
    fn store_decimal(&mut self, x: u8)
        requires
            x < 16,
        ensures
            final(self)@ == old(self)@.decimal_stored(x),
    {
        write_decimal(&mut self.memory, self.index, self.registers[x as usize]);
    }

    /// Stores `V0` to `VX` at the index register.
    fn store(&mut self, x: u8)
        requires
            x < 16,
        ensures
            final(self)@ == old(self)@.stored(x),
    {
        store_registers(&mut self.memory, &self.registers, self.index, x);
        self.index = add_words(self.index, x as u16 + 1);
    }

    /// Loads `V0` to `VX` from the index register.
    fn load(&mut self, x: u8)
        requires
            x < 16,
        ensures
            final(self)@ == old(self)@.loaded(x),
    {
        load_registers(&mut self.registers, &self.memory, self.index, x);
        self.index = add_words(self.index, x as u16 + 1);
    }

    /// Sets the flag register to 1 if `set`, else to 0.
    fn set_flag(&mut self, set: bool)
        ensures
            final(self)@ == old(self)@.with_flag(set),
    {
        self.registers[0xF] = if set {
            1
        } else {
            0
        };
    }

    /// Moves the program counter behind the next instruction if
    /// `condition` holds, and to the next instruction if not.
    fn skip_if(&mut self, condition: bool)
        requires
            old(self)@.program_counter < 4095,
        ensures
            final(self)@ == old(self)@.skipping(condition),
    {
        if condition {
            self.program_counter += 4;
        } else {
            self.program_counter += 2;
        }
    }

    /// Runs one cycle: fetches the instruction word at the program counter,
    /// executes it, and lets the timers tick.
    ///
    /// On a fault the machine stays as it was, but for the opcode register,
    /// which holds the word that could not be executed.
    pub fn step(&mut self) -> (result: Result<(), Fault>)
        requires
            old(self)@.valid(),
            old(self)@.program_counter < 4095,
        ensures
            final(self)@.valid(),
            match result {
                Ok(()) => old(self)@.step() == Ok::<Machine, Fault>(final(self)@),
                Err(fault) => {
                    &&& old(self)@.step() == Err::<Machine, Fault>(fault)
                    &&& final(self)@ == old(self)@.with_opcode(old(self)@.fetch())
                },
            },
    {
        let opcode = self.fetch();
        let word = if opcode_family(opcode) == 0xC {
            self.draw_word()
        } else {
            0
        };
        match self.execute(opcode, word) {
            Ok(()) => {
                self.tick();
                Ok(())
            },
            Err(fault) => Err(fault),
        }
    }

    /// The registers `V0` to `VF`.
    pub fn get_registers(&self) -> (registers: &[u8; 16])
        ensures
            registers@ == self@.registers,
    {
        &self.registers
    }

    /// The memory.
    pub fn get_memory(&self) -> (memory: &[u8; 4096])
        ensures
            memory@ == self@.memory,
    {
        &self.memory
    }

    /// The display, as the bytes of a frame of 32-bit pixels.
    pub fn get_framebuffer(&self) -> (frame: Vec<u8>)
        ensures
            frame@ == encoded_frame(self@.pixels),
    {
        encode_frame(&self.framebuffer)
    }

    /// The 16 slots of the call stack.
    pub fn get_stack(&self) -> (stack: &[u16; 16])
        ensures
            stack@ == self@.stack,
    {
        &self.stack
    }

    /// The instruction word that was executed last.
    pub fn get_opcode(&self) -> (opcode: u16)
        ensures
            opcode == self@.opcode,
    {
        self.opcode
    }

    /// The address of the next instruction.
    pub fn get_program_counter(&self) -> (program_counter: u16)
        ensures
            program_counter == self@.program_counter,
    {
        self.program_counter
    }

    /// The index register.
    pub fn get_program_index(&self) -> (index: u16)
        ensures
            index == self@.index,
    {
        self.index
    }

    /// The number of open calls.
    pub fn get_stack_pointer(&self) -> (stack_pointer: usize)
        ensures
            stack_pointer == self@.stack_pointer,
    {
        self.stack_pointer
    }

    /// The delay timer.
    pub fn get_delay_timer(&self) -> (timer: u8)
        ensures
            timer == self@.delay_timer,
    {
        self.delay_timer
    }

    /// The sound timer.
    pub fn get_sound_timer(&self) -> (timer: u8)
        ensures
            timer == self@.sound_timer,
    {
        self.sound_timer
    }

    /// Whether the last cycle asked for a beep.
    pub fn get_beep_flag(&self) -> (beep: bool)
        ensures
            beep == self@.beep,
    {
        self.beep_flag
    }

    /// Reports that key `key` of the keypad went down (`pressed`) or up.
    /// A key that does not exist is ignored.
    pub fn set_key(&mut self, key: u8, pressed: bool)
        requires
            old(self)@.valid(),
        ensures
            final(self)@.valid(),
            final(self)@ == old(self)@.with_key(key, pressed),
    {
        if key < 16 {
            self.keys[key as usize] = pressed;
            if pressed {
                self.last_key = Some(key);
            }
        }
    }

    /// Reports that a key of the host keyboard went down (`pressed`) or up.
    /// A key that stands for no key of the keypad is ignored.
    pub fn set_key_state(&mut self, key: Keycode, pressed: bool)
        requires
            old(self)@.valid(),
        ensures
            final(self)@.valid(),
            final(self)@ == match keypad_key(key) {
                Some(index) => old(self)@.with_key(index, pressed),
                None => old(self)@,
            },
    {
        match key_index(key) {
            Some(index) => self.set_key(index, pressed),
            None => {},
        }
    }
}

} // verus!
