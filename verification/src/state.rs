//! The machine as a mathematical value, and what every instruction makes of it.
//!
//! `Machine` is the model that all contracts of the interpreter speak of.
//! Where implementations of this instruction set differ, this one is as
//! follows.
//!
//! - Addresses that an instruction forms from the index register are taken
//!   modulo the size of the memory, so a block at the end of the memory
//!   goes on at address 0.
//! - A sprite is clipped at the right and at the bottom edge of the display:
//!   what would fall outside is not drawn, and nothing wraps around.
//! - The shifts take `VY` as their operand, and set the flag register to
//!   0 or 1.
//! - An instruction that sets the flag register writes it after its
//!   result, and works out both from the registers as they were before.
//! - The timers tick once in every cycle.
//! - A key with a number above 15 does not exist, and is never down.
//! - On a fault the machine stays as it was, but for the opcode register.

use vstd::prelude::*;
use crate::display::{blitted, collides, sprite_at};
use crate::memory::{decimal_written, image_copied, registers_loaded, registers_stored};
use crate::opcode::{decode_spec, family, Instruction};
use crate::random::{xoroshiro_next, SEED_HIGH, SEED_LOW};

verus! {

/// Why the machine could not execute an instruction. After a fault the
/// program cannot go on.
#[derive(Clone, Copy, Debug, PartialEq, Eq, Structural)]
pub enum Fault {
    /// A return was executed while no call was open.
    StackUnderflow,
    /// A call was executed while the stack was full.
    StackOverflow,
    /// The instruction word is no instruction of the machine.
    UnknownInstruction,
}

/// Why an image could not be put into memory.
#[derive(Clone, Copy, Debug, PartialEq, Eq, Structural)]
pub enum LoadError {
    /// The image has `length` bytes, but only `capacity` bytes are free for it.
    CapacityExceeded { capacity: usize, length: usize },
}

/// The complete state of a machine.
#[verifier::ext_equal]
pub struct Machine {
    /// The 4096 bytes of memory.
    pub memory: Seq<u8>,
    /// The registers `V0` to `VF`. `VF` doubles as the flag register.
    pub registers: Seq<u8>,
    /// The pixels of the display, row by row from the top left corner.
    pub pixels: Seq<bool>,
    /// The 16 slots of the call stack. The open calls are in the slots below
    /// `stack_pointer`.
    pub stack: Seq<u16>,
    /// Number of open calls.
    pub stack_pointer: nat,
    /// For each of the 16 keys, whether it is held down.
    pub keys: Seq<bool>,
    /// The key whose press was reported since the last cycle, if any.
    pub last_key: Option<u8>,
    /// The instruction word that was executed last.
    pub opcode: u16,
    /// The index register.
    pub index: u16,
    /// Address of the next instruction.
    pub program_counter: u16,
    /// The delay timer.
    pub delay_timer: u8,
    /// The sound timer.
    pub sound_timer: u8,
    /// Whether the last cycle asked for a beep.
    pub beep: bool,
    /// The two words of state of the pseudo-random generator.
    pub generator: Seq<u64>,
}

impl Machine {
    /// What holds of every machine: the sizes of its parts, and that the
    /// open calls were made from inside the memory.
    pub open spec fn valid(self) -> bool {
        &&& self.memory.len() == 4096
        &&& self.registers.len() == 16
        &&& self.pixels.len() == 2048
        &&& self.stack.len() == 16
        &&& self.keys.len() == 16
        &&& self.stack_pointer <= 16
        &&& forall|slot: int| 0 <= slot < self.stack_pointer ==> self.stack[slot] < 4095
        &&& (self.last_key matches Some(key) ==> key < 16)
    }

    /// The value of register `x`.
    pub open spec fn register(self, x: u8) -> u8 {
        self.registers[x as int]
    }

    /// Whether key `key` exists and is held down.
    pub open spec fn key_down(self, key: u8) -> bool {
        key < 16 && self.keys[key as int]
    }

    /// The instruction word at the program counter: two bytes, the high byte first.
    pub open spec fn fetch(self) -> u16 {
        (self.memory[self.program_counter as int] * 256 + self.memory[self.program_counter + 1]) as u16
    }

    /// The machine with register `x` set to `value`.
    pub open spec fn with_register(self, x: u8, value: u8) -> Machine {
        Machine { registers: self.registers.update(x as int, value), ..self }
    }

    /// The machine with the flag register set to 1 if `set`, else to 0.
    pub open spec fn with_flag(self, set: bool) -> Machine {
        self.with_register(0xF, if set { 1u8 } else { 0u8 })
    }

    /// The machine with the index register set to `value`.
    pub open spec fn with_index(self, value: u16) -> Machine {
        Machine { index: value, ..self }
    }

    /// The machine with the program counter set to `target`.
    pub open spec fn jumped(self, target: u16) -> Machine {
        Machine { program_counter: target, ..self }
    }

    /// The machine with the program counter moved to the next instruction.
    pub open spec fn advanced(self) -> Machine {
        self.jumped((self.program_counter + 2) as u16)
    }

    /// The machine with the program counter moved behind the next
    /// instruction if `condition` holds, and to the next instruction if not.
    pub open spec fn skipping(self, condition: bool) -> Machine {
        if condition {
            self.jumped((self.program_counter + 4) as u16)
        } else {
            self.advanced()
        }
    }

    /// A call of the subroutine at `address`: the address of the call goes
    /// on the stack. Fails when 16 calls are open.
    pub open spec fn called(self, address: u16) -> Result<Machine, Fault> {
        if self.stack_pointer >= 16 {
            Err(Fault::StackOverflow)
        } else {
            Ok(
                Machine {
                    stack: self.stack.update(self.stack_pointer as int, self.program_counter),
                    stack_pointer: self.stack_pointer + 1,
                    program_counter: address,
                    ..self
                },
            )
        }
    }

    /// A return: the last open call is closed and the program goes on
    /// behind it. Fails when no call is open.
    pub open spec fn returned(self) -> Result<Machine, Fault> {
        if self.stack_pointer == 0 {
            Err(Fault::StackUnderflow)
        } else {
            Ok(
                Machine {
                    stack_pointer: (self.stack_pointer - 1) as nat,
                    program_counter: (self.stack[self.stack_pointer - 1] + 2) as u16,
                    ..self
                },
            )
        }
    }

    /// The machine with every pixel switched off.
    pub open spec fn cleared(self) -> Machine {
        Machine { pixels: Seq::new(2048, |cell: int| false), ..self }
    }

    /// The draw instruction: the sprite of `rows` rows at the index register
    /// is drawn with its top left corner at column `VX` and row `VY`, and
    /// the flag register tells whether a pixel was switched off.
    pub open spec fn drawn(self, x: u8, y: u8, rows: u8) -> Machine {
        let sprite = sprite_at(self.memory, self.index, rows as int);
        let left = self.register(x) as int;
        let top = self.register(y) as int;
        Machine { pixels: blitted(self.pixels, sprite, left, top), ..self }.with_flag(
            collides(self.pixels, sprite, left, top),
        )
    }

    /// The machine after the three decimal digits of `VX` were written at
    /// the index register.
    pub open spec fn decimal_stored(self, x: u8) -> Machine {
        Machine { memory: decimal_written(self.memory, self.index, self.register(x)), ..self }
    }

    /// The machine after `V0` to `VX` were stored at the index register,
    /// which moves on by one for each register stored.
    pub open spec fn stored(self, x: u8) -> Machine {
        Machine {
            memory: registers_stored(self.memory, self.registers, self.index, x),
            index: ((self.index + x + 1) % 0x10000) as u16,
            ..self
        }
    }

    /// The machine after `V0` to `VX` were loaded from the index register,
    /// which moves on by one for each register loaded.
    pub open spec fn loaded(self, x: u8) -> Machine {
        Machine {
            registers: registers_loaded(self.registers, self.memory, self.index, x),
            index: ((self.index + x + 1) % 0x10000) as u16,
            ..self
        }
    }

    /// A machine in which nothing has happened yet: every part is zero,
    /// and the pseudo-random generator is at its fixed seed.
    pub open spec fn blank() -> Machine {
        Machine {
            memory: Seq::new(4096, |address: int| 0u8),
            registers: Seq::new(16, |register: int| 0u8),
            pixels: Seq::new(2048, |cell: int| false),
            stack: Seq::new(16, |slot: int| 0u16),
            stack_pointer: 0,
            keys: Seq::new(16, |key: int| false),
            last_key: None,
            opcode: 0,
            index: 0,
            program_counter: 0,
            delay_timer: 0,
            sound_timer: 0,
            beep: false,
            generator: seq![SEED_LOW, SEED_HIGH],
        }
    }

    /// The machine after the host reported that key `key` went down
    /// (`pressed`) or up. A press is also noted as the last key, for an
    /// instruction that waits for one. A key that does not exist changes
    /// nothing.
    pub open spec fn with_key(self, key: u8, pressed: bool) -> Machine {
        if key < 16 {
            Machine {
                keys: self.keys.update(key as int, pressed),
                last_key: if pressed {
                    Some(key)
                } else {
                    self.last_key
                },
                ..self
            }
        } else {
            self
        }
    }

    /// The machine with the font `font` in memory, from address `0x050` on.
    pub open spec fn with_font(self, font: Seq<u8>) -> Machine {
        Machine { memory: image_copied(self.memory, 0x050, font), ..self }
    }

    /// The machine with the program `program` in memory, from address
    /// `0x200` on, and ready to run it: the program counter is at the start
    /// of the program, the index register is 0 and the stack is empty.
    pub open spec fn with_program(self, program: Seq<u8>) -> Machine {
        Machine {
            memory: image_copied(self.memory, 0x200, program),
            program_counter: 0x200,
            index: 0,
            stack: Seq::new(16, |slot: int| 0u16),
            stack_pointer: 0,
            ..self
        }
    }

    /// What `instruction` makes of the machine. `word` is the number that
    /// the pseudo-random generator gave for this instruction; only
    /// `Random` reads it.
    pub open spec fn apply(self, instruction: Instruction, word: u32) -> Result<Machine, Fault> {
        match instruction {
            Instruction::NoOperation => Ok(self.advanced()),
            Instruction::ClearScreen => Ok(self.cleared().advanced()),
            Instruction::Return => self.returned(),
            Instruction::Jump { address } => Ok(self.jumped(address)),
            Instruction::Call { address } => self.called(address),
            Instruction::SkipIfEqual { x, value } => Ok(self.skipping(self.register(x) == value)),
            Instruction::SkipIfNotEqual { x, value } => Ok(self.skipping(self.register(x) != value)),
            Instruction::SkipIfRegistersEqual { x, y } => Ok(
                self.skipping(self.register(x) == self.register(y)),
            ),
            Instruction::LoadImmediate { x, value } => Ok(self.with_register(x, value).advanced()),
            Instruction::AddImmediate { x, value } => Ok(
                self.with_register(x, ((self.register(x) + value) % 256) as u8).advanced(),
            ),
            Instruction::Copy { x, y } => Ok(self.with_register(x, self.register(y)).advanced()),
            Instruction::Or { x, y } => Ok(
                self.with_register(x, self.register(x) | self.register(y)).advanced(),
            ),
            Instruction::And { x, y } => Ok(
                self.with_register(x, self.register(x) & self.register(y)).advanced(),
            ),
            Instruction::Xor { x, y } => Ok(
                self.with_register(x, self.register(x) ^ self.register(y)).advanced(),
            ),
            Instruction::Add { x, y } => Ok(
                self.with_register(x, ((self.register(x) + self.register(y)) % 256) as u8).with_flag(
                    self.register(x) + self.register(y) > 255,
                ).advanced(),
            ),
            Instruction::Subtract { x, y } => Ok(
                self.with_register(x, ((self.register(x) - self.register(y)) % 256) as u8).with_flag(
                    self.register(x) >= self.register(y),
                ).advanced(),
            ),
            Instruction::ShiftRight { x, y } => Ok(
                self.with_register(x, self.register(y) >> 1).with_flag(
                    self.register(y) & 1 == 1,
                ).advanced(),
            ),
            Instruction::SubtractReversed { x, y } => Ok(
                self.with_register(x, ((self.register(y) - self.register(x)) % 256) as u8).with_flag(
                    self.register(y) >= self.register(x),
                ).advanced(),
            ),
            Instruction::ShiftLeft { x, y } => Ok(
                self.with_register(x, self.register(y) << 1).with_flag(
                    self.register(y) & 0x80 != 0,
                ).advanced(),
            ),
            Instruction::SkipIfRegistersDiffer { x, y } => Ok(
                self.skipping(self.register(x) != self.register(y)),
            ),
            Instruction::LoadIndex { address } => Ok(self.with_index(address).advanced()),
            Instruction::JumpOffset { address } => Ok(
                self.jumped((address + self.register(0)) as u16),
            ),
            Instruction::Random { x, mask } => Ok(
                self.with_register(x, ((word % 256) as u8) & mask).advanced(),
            ),
            Instruction::Draw { x, y, rows } => Ok(self.drawn(x, y, rows).advanced()),
            Instruction::SkipIfKeyDown { x } => Ok(self.skipping(self.key_down(self.register(x)))),
            Instruction::SkipIfKeyUp { x } => Ok(self.skipping(!self.key_down(self.register(x)))),
            Instruction::ReadDelay { x } => Ok(self.with_register(x, self.delay_timer).advanced()),
            Instruction::WaitKey { x } => match self.last_key {
                Some(key) => Ok(self.with_register(x, key).advanced()),
                None => Ok(self),
            },
            Instruction::SetDelay { x } => Ok(
                Machine { delay_timer: self.register(x), ..self }.advanced(),
            ),
            Instruction::SetSound { x } => Ok(
                Machine { sound_timer: self.register(x), ..self }.advanced(),
            ),
            Instruction::AddIndex { x } => Ok(
                self.with_index(((self.index + self.register(x)) % 0x10000) as u16).advanced(),
            ),
            Instruction::Glyph { x } => Ok(
                self.with_index((0x050 + 5 * self.register(x)) as u16).advanced(),
            ),
            Instruction::Decimal { x } => Ok(self.decimal_stored(x).advanced()),
            Instruction::Store { x } => Ok(self.stored(x).advanced()),
            Instruction::Load { x } => Ok(self.loaded(x).advanced()),
        }
    }

    /// The machine with `opcode` in its opcode register.
    pub open spec fn with_opcode(self, opcode: u16) -> Machine {
        Machine { opcode, ..self }
    }

    /// What executing the instruction word `opcode` makes of the machine:
    /// the word is noted in the opcode register and its instruction applied.
    /// A word that is no instruction is a fault.
    pub open spec fn execute(self, opcode: u16, word: u32) -> Result<Machine, Fault> {
        match decode_spec(opcode) {
            Some(instruction) => self.with_opcode(opcode).apply(instruction, word),
            None => Err(Fault::UnknownInstruction),
        }
    }

    /// The end of a cycle: each timer that is not zero goes down by one, a
    /// beep is asked for exactly when the sound timer goes from 1 to 0, and
    /// the reported key is forgotten.
    pub open spec fn ticked(self) -> Machine {
        Machine {
            delay_timer: if self.delay_timer > 0 {
                (self.delay_timer - 1) as u8
            } else {
                0
            },
            sound_timer: if self.sound_timer > 0 {
                (self.sound_timer - 1) as u8
            } else {
                0
            },
            beep: self.sound_timer == 1,
            last_key: None,
            ..self
        }
    }

    /// A run of `cycles` cycles, which ends at the first fault.
    pub open spec fn run(self, cycles: nat) -> Result<Machine, Fault>
        decreases cycles,
    {
        if cycles == 0 {
            Ok(self)
        } else {
            match self.step() {
                Ok(next) => next.run((cycles - 1) as nat),
                Err(fault) => Err(fault),
            }
        }
    }

    /// The machine after the calls of the subroutines at `addresses`, one
    /// after the other, or the fault of the first call that fails.
    pub open spec fn called_in_turn(self, addresses: Seq<u16>) -> Result<Machine, Fault>
        decreases addresses.len(),
    {
        if addresses.len() == 0 {
            Ok(self)
        } else {
            match self.called(addresses[0]) {
                Ok(inside) => inside.called_in_turn(addresses.drop_first()),
                Err(fault) => Err(fault),
            }
        }
    }

    /// One cycle: the instruction word at the program counter is fetched and
    /// executed, then the timers tick. Only the family `CXNN` takes a number
    /// from the pseudo-random generator, and it takes exactly one.
    pub open spec fn step(self) -> Result<Machine, Fault> {
        let opcode = self.fetch();
        if family(opcode) == 0xC {
            let drawn = xoroshiro_next(self.generator);
            match self.execute(opcode, drawn.0) {
                Ok(next) => Ok(Machine { generator: drawn.1, ..next }.ticked()),
                Err(fault) => Err(fault),
            }
        } else {
            match self.execute(opcode, 0) {
                Ok(next) => Ok(next.ticked()),
                Err(fault) => Err(fault),
            }
        }
    }
}

} // verus!
