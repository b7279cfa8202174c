//! Laws of the machine: what holds of every machine and of every run.

use vstd::prelude::*;
use crate::opcode::{decode_spec, decoded_instruction_encodes_the_word, Instruction};
use crate::display::{blitted, collides, flips, sprite_at, touches};
use crate::memory::decimal_written;
use crate::state::{Fault, Machine};

verus! {

/// A cycle ends in the fault `UnknownInstruction` exactly when the word at
/// the program counter is no instruction.
pub proof fn unknown_instruction_is_a_refused_word(machine: Machine)
    ensures
        machine.step() == Err::<Machine, Fault>(Fault::UnknownInstruction) <==> decode_spec(
            machine.fetch(),
        ) is None,
{
}

/// Adding a constant to a register other than the flag register leaves
/// the flag register as it was, whether or not the sum wraps around.
pub proof fn add_immediate_keeps_the_flag(machine: Machine, x: u8, value: u8, word: u32)
    requires
        machine.valid(),
        x < 0xF,
    ensures
        ({
            &&& machine.apply(Instruction::AddImmediate { x, value }, word) matches Ok(next)
            &&& next.register(0xF) == machine.register(0xF)
            &&& next.register(x) == (machine.register(x) + value) % 256
        }),
{
}

/// Adding two registers sets the flag register to 1 if the sum is above
/// 255, and to 0 if not.
pub proof fn add_flags_the_carry(machine: Machine, x: u8, y: u8, word: u32)
    requires
        machine.valid(),
        x < 16,
        y < 16,
    ensures
        ({
            let sum = machine.register(x) + machine.register(y);
            &&& machine.apply(Instruction::Add { x, y }, word) matches Ok(next)
            &&& next.register(0xF) == (if sum > 255 {
                1u8
            } else {
                0u8
            })
            &&& x != 0xF ==> next.register(x) == sum % 256
        }),
{
}

/// Subtracting `VY` from `VX` sets the flag register to 1 if `VX >= VY`,
/// so that nothing is borrowed, and to 0 if not.
pub proof fn subtract_flags_no_borrow(machine: Machine, x: u8, y: u8, word: u32)
    requires
        machine.valid(),
        x < 16,
        y < 16,
    ensures
        ({
            let minuend = machine.register(x);
            let subtrahend = machine.register(y);
            &&& machine.apply(Instruction::Subtract { x, y }, word) matches Ok(next)
            &&& next.register(0xF) == (if minuend >= subtrahend {
                1u8
            } else {
                0u8
            })
            &&& x != 0xF ==> next.register(x) == (minuend - subtrahend) % 256
        }),
{
}

/// Subtracting `VX` from `VY` sets the flag register to 1 if `VY >= VX`,
/// so that nothing is borrowed, and to 0 if not.
pub proof fn reversed_subtract_flags_no_borrow(machine: Machine, x: u8, y: u8, word: u32)
    requires
        machine.valid(),
        x < 16,
        y < 16,
    ensures
        ({
            let minuend = machine.register(y);
            let subtrahend = machine.register(x);
            &&& machine.apply(Instruction::SubtractReversed { x, y }, word) matches Ok(next)
            &&& next.register(0xF) == (if minuend >= subtrahend {
                1u8
            } else {
                0u8
            })
            &&& x != 0xF ==> next.register(x) == (minuend - subtrahend) % 256
        }),
{
}

/// The shifts halve and double `VY`, and set the flag register to the bit
/// that leaves the byte: the lowest bit for the shift to the right, the
/// highest for the shift to the left.
pub proof fn shifts_flag_the_bit_shifted_out(machine: Machine, x: u8, y: u8, word: u32)
    requires
        machine.valid(),
        x < 16,
        y < 16,
    ensures
        ({
            let operand = machine.register(y);
            &&& machine.apply(Instruction::ShiftRight { x, y }, word) matches Ok(right)
            &&& right.register(0xF) == operand % 2
            &&& x != 0xF ==> right.register(x) == operand / 2
            &&& machine.apply(Instruction::ShiftLeft { x, y }, word) matches Ok(left)
            &&& left.register(0xF) == operand / 128
            &&& x != 0xF ==> left.register(x) == (2 * operand) % 256
        }),
{
    let operand = machine.register(y);
    assert(operand >> 1 == operand / 2 && (operand & 1 == 1) == (operand % 2 == 1) && operand << 1
        == (2 * operand) % 256 && (operand & 0x80 != 0) == (operand / 128 == 1) && operand / 128 <= 1
        && operand % 2 <= 1) by (bit_vector);
}

/// A call succeeds exactly while fewer than 16 calls are open, and a
/// return exactly while a call is open.
pub proof fn stack_bounds_calls_and_returns(machine: Machine, address: u16, word: u32)
    requires
        machine.valid(),
    ensures
        machine.apply(Instruction::Call { address }, word) is Ok <==> machine.stack_pointer < 16,
        machine.stack_pointer >= 16 ==> machine.apply(Instruction::Call { address }, word) == Err::<
            Machine,
            Fault,
        >(Fault::StackOverflow),
        machine.apply(Instruction::Return, word) is Ok <==> machine.stack_pointer > 0,
        machine.stack_pointer == 0 ==> machine.apply(Instruction::Return, word) == Err::<
            Machine,
            Fault,
        >(Fault::StackUnderflow),
{
}

/// A return undoes a call: the program goes on behind the call, with the
/// stack as it was before.
pub proof fn return_undoes_call(machine: Machine, address: u16, word: u32)
    requires
        machine.valid(),
        machine.program_counter < 4095,
        machine.stack_pointer < 16,
    ensures
        ({
            &&& machine.apply(Instruction::Call { address }, word) matches Ok(inside)
            &&& inside.valid()
            &&& inside.program_counter == address
            &&& inside.apply(Instruction::Return, word) matches Ok(outside)
            &&& outside.program_counter == machine.program_counter + 2
            &&& outside.stack_pointer == machine.stack_pointer
            &&& forall|slot: int|
                0 <= slot < machine.stack_pointer ==> outside.stack[slot] == machine.stack[slot]
        }),
{
}

/// Calls made one after the other all succeed exactly when the stack has
/// room for them: from an empty stack sixteen calls succeed, and the
/// seventeenth overflows.
pub proof fn calls_fill_the_stack(machine: Machine, addresses: Seq<u16>)
    requires
        machine.stack_pointer <= 16,
    ensures
        match machine.called_in_turn(addresses) {
            Ok(inside) => machine.stack_pointer + addresses.len() <= 16 && inside.stack_pointer
                == machine.stack_pointer + addresses.len(),
            Err(fault) => machine.stack_pointer + addresses.len() > 16 && fault
                == Fault::StackOverflow,
        },
    decreases addresses.len(),
{
    if addresses.len() > 0 {
        match machine.called(addresses[0]) {
            Ok(inside) => {
                calls_fill_the_stack(inside, addresses.drop_first());
            },
            Err(fault) => {},
        }
    }
}

/// Drawing a sprite twice at the same place brings the display back.
pub proof fn second_draw_restores_the_display(pixels: Seq<bool>, sprite: Seq<u8>, left: int, top: int)
    requires
        pixels.len() == 2048,
    ensures
        blitted(blitted(pixels, sprite, left, top), sprite, left, top) == pixels,
{
    assert(blitted(blitted(pixels, sprite, left, top), sprite, left, top) =~= pixels);
}

/// Where a sprite is drawn over pixels that are all off, the first draw
/// reports no collision, and a second draw at the same place reports one
/// if the sprite has any set pixel on the display.
pub proof fn second_draw_collides(pixels: Seq<bool>, sprite: Seq<u8>, left: int, top: int)
    requires
        pixels.len() == 2048,
        forall|cell: int| 0 <= cell < 2048 && flips(sprite, left, top, cell) ==> !pixels[cell],
    ensures
        !collides(pixels, sprite, left, top),
        collides(blitted(pixels, sprite, left, top), sprite, left, top) == touches(sprite, left, top),
{
    let drawn = blitted(pixels, sprite, left, top);
    if touches(sprite, left, top) {
        let cell = choose|cell: int| 0 <= cell < 2048 && #[trigger] flips(sprite, left, top, cell);
        assert(drawn[cell] && flips(sprite, left, top, cell));
    }
    if collides(drawn, sprite, left, top) {
        let cell = choose|cell: int|
            0 <= cell < 2048 && drawn[cell] && #[trigger] flips(sprite, left, top, cell);
        assert(flips(sprite, left, top, cell));
    }
}

/// The draw instruction, executed twice with the same registers over
/// pixels that are all off: the first draw clears the flag register, the
/// second sets it if the sprite has any set pixel on the display, and the
/// display is as it was. The registers that give the place must not be
/// the flag register, which the first draw writes.
pub proof fn draw_twice_clears_the_sprite(machine: Machine, x: u8, y: u8, rows: u8, word: u32)
    requires
        machine.valid(),
        x < 0xF,
        y < 0xF,
        forall|cell: int|
            0 <= cell < 2048 && flips(
                sprite_at(machine.memory, machine.index, rows as int),
                machine.register(x) as int,
                machine.register(y) as int,
                cell,
            ) ==> !machine.pixels[cell],
    ensures
        ({
            let sprite = sprite_at(machine.memory, machine.index, rows as int);
            let left = machine.register(x) as int;
            let top = machine.register(y) as int;
            &&& machine.apply(Instruction::Draw { x, y, rows }, word) matches Ok(first)
            &&& first.register(0xF) == 0
            &&& first.apply(Instruction::Draw { x, y, rows }, word) matches Ok(second)
            &&& second.pixels == machine.pixels
            &&& second.register(0xF) == (if touches(sprite, left, top) {
                1u8
            } else {
                0u8
            })
        }),
{
    let sprite = sprite_at(machine.memory, machine.index, rows as int);
    let left = machine.register(x) as int;
    let top = machine.register(y) as int;
    second_draw_restores_the_display(machine.pixels, sprite, left, top);
    second_draw_collides(machine.pixels, sprite, left, top);
}

/// The three bytes that the decimal instruction writes are the decimal
/// digits of the value, the hundreds first, and no other byte changes.
pub proof fn decimal_digits_make_the_value(memory: Seq<u8>, index: u16, value: u8)
    requires
        memory.len() == 4096,
    ensures
        ({
            let written = decimal_written(memory, index, value);
            let hundreds = written[(index + 0) % 4096];
            let tens = written[(index + 1) % 4096];
            let ones = written[(index + 2) % 4096];
            &&& written.len() == 4096
            &&& hundreds <= 2 && tens <= 9 && ones <= 9
            &&& 100 * hundreds + 10 * tens + ones == value
            &&& forall|address: int|
                0 <= address < 4096 && address != (index + 0) % 4096 && address != (index + 1) % 4096
                    && address != (index + 2) % 4096 ==> written[address] == memory[address]
        }),
{
}

/// Storing `V0` to `VX` and loading them again from the same address
/// brings the registers back, whatever they held in between. Each of the
/// two moves the index register on by `X + 1`, and storing changes no
/// register.
pub proof fn load_restores_stored_registers(machine: Machine, x: u8, scratch: Seq<u8>)
    requires
        machine.valid(),
        x < 16,
        scratch.len() == 16,
    ensures
        ({
            let stored = machine.stored(x);
            let loaded = Machine { registers: scratch, index: machine.index, ..stored }.loaded(x);
            &&& stored.registers == machine.registers
            &&& stored.index == (machine.index + x + 1) % 0x10000
            &&& loaded.index == (machine.index + x + 1) % 0x10000
            &&& loaded.memory == stored.memory
            &&& forall|register: int| 0 <= register <= x ==> loaded.registers[register] == machine.registers[register]
            &&& forall|register: int| x < register < 16 ==> loaded.registers[register] == scratch[register]
        }),
{
}

/// Every instruction but a jump, a call, a return and a wait for a key
/// that was not pressed moves the program counter on by 2, or by 4 if it
/// is a skip. So a program counter that is even stays even until the
/// program jumps to an odd address.
pub proof fn program_counter_moves_by_two_or_four(
    machine: Machine,
    instruction: Instruction,
    word: u32,
)
    requires
        machine.valid(),
        machine.program_counter < 4095,
        instruction.valid(),
        !(instruction is Jump),
        !(instruction is JumpOffset),
        !(instruction is Call),
        !(instruction is Return),
        !(instruction is WaitKey && machine.last_key is None),
    ensures
        ({
            let skip = instruction is SkipIfEqual || instruction is SkipIfNotEqual
                || instruction is SkipIfRegistersEqual || instruction is SkipIfRegistersDiffer
                || instruction is SkipIfKeyDown || instruction is SkipIfKeyUp;
            &&& machine.apply(instruction, word) matches Ok(next)
            &&& next.program_counter == machine.program_counter + 2 || (skip && next.program_counter
                == machine.program_counter + 4)
            &&& machine.program_counter % 2 == 0 ==> next.program_counter % 2 == 0
        }),
{
}

/// A machine that waits for a key while no key press is reported stays
/// where it is: after any number of cycles the program counter, the
/// registers and the memory are as they were.
pub proof fn waiting_machine_stays(machine: Machine, x: u8, cycles: nat)
    requires
        machine.valid(),
        machine.program_counter < 4095,
        decode_spec(machine.fetch()) == Some(Instruction::WaitKey { x }),
        machine.last_key is None,
    ensures
        ({
            &&& machine.run(cycles) matches Ok(later)
            &&& later.program_counter == machine.program_counter
            &&& later.registers == machine.registers
            &&& later.memory == machine.memory
            &&& later.last_key is None
        }),
    decreases cycles,
{
    if cycles > 0 {
        let next = machine.step()->Ok_0;
        waiting_machine_stays(next, x, (cycles - 1) as nat);
    }
}

/// A machine that waits for a key takes the reported key: the key goes
/// into the register, the program moves on, and the report is used up.
pub proof fn reported_key_ends_the_wait(machine: Machine, x: u8, key: u8)
    requires
        machine.valid(),
        machine.program_counter < 4095,
        decode_spec(machine.fetch()) == Some(Instruction::WaitKey { x }),
        machine.last_key == Some(key),
    ensures
        ({
            &&& machine.step() matches Ok(next)
            &&& next.register(x) == key
            &&& next.program_counter == machine.program_counter + 2
            &&& next.last_key is None
        }),
{
    decoded_instruction_encodes_the_word(machine.fetch());
}

/// Every cycle that succeeds forgets the reported key, so that a key
/// press is taken by at most one cycle.
pub proof fn cycle_forgets_the_reported_key(machine: Machine)
    ensures
        machine.step() matches Ok(next) ==> next.last_key is None,
{
}

/// A cycle that succeeds leaves a valid machine valid.
pub proof fn cycle_keeps_the_machine_valid(machine: Machine)
    requires
        machine.valid(),
        machine.program_counter < 4095,
    ensures
        machine.step() matches Ok(next) ==> next.valid(),
{
    decoded_instruction_encodes_the_word(machine.fetch());
}

} // verus!
