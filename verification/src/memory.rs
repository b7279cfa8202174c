//! The memory: 4096 bytes, and the block operations on it.
//!
//! Every address that an instruction forms from the index register is taken
//! modulo the size of the memory: a block that runs over the end of the
//! memory goes on at address 0.

use vstd::prelude::*;

verus! {

/// The memory with `image` copied in from address `start` on.
pub open spec fn image_copied(memory: Seq<u8>, start: int, image: Seq<u8>) -> Seq<u8> {
    Seq::new(
        4096,
        |address: int|
            if start <= address < start + image.len() {
                image[address - start]
            } else {
                memory[address]
            },
    )
}

/// The memory after the registers `0` to `x` were stored from address
/// `index` on.
pub open spec fn registers_stored(memory: Seq<u8>, registers: Seq<u8>, index: u16, x: u8) -> Seq<u8> {
    Seq::new(
        4096,
        |address: int|
            {
                let offset = (address - index) % 4096;
                if offset <= x {
                    registers[offset]
                } else {
                    memory[address]
                }
            },
    )
}

/// The registers after the registers `0` to `x` were loaded from address
/// `index` on.
pub open spec fn registers_loaded(registers: Seq<u8>, memory: Seq<u8>, index: u16, x: u8) -> Seq<u8> {
    Seq::new(
        16,
        |register: int|
            if register <= x {
                memory[(index + register) % 4096]
            } else {
                registers[register]
            },
    )
}

/// The memory after the three decimal digits of `value` were written from
/// address `index` on: hundreds, tens, ones.
pub open spec fn decimal_written(memory: Seq<u8>, index: u16, value: u8) -> Seq<u8> {
    memory.update((index + 0) % 4096, value / 100).update(
        (index + 1) % 4096,
        (value / 10) % 10,
    ).update((index + 2) % 4096, value % 10)
}

/// Copies `image` into `memory`, from address `start` on.
pub(crate) fn copy_image(memory: &mut [u8; 4096], start: usize, image: &[u8])
    requires
        start + image@.len() <= 4096,
    ensures
        final(memory)@ == image_copied(old(memory)@, start as int, image@),
{
    let mut i: usize = 0;
    while i < image.len()
        invariant
            i <= image@.len(),
            start + image@.len() <= 4096,
            memory@ == image_copied(old(memory)@, start as int, image@.take(i as int)),
        decreases image@.len() - i,
    {
        memory[start + i] = image[i];
        i += 1;
    }
    assert(image@.take(image@.len() as int) == image@);
}

/// Stores the registers `0` to `x` in `memory`, from address `index` on.
pub(crate) fn store_registers(memory: &mut [u8; 4096], registers: &[u8; 16], index: u16, x: u8)
    requires
        x < 16,
    ensures
        final(memory)@ == registers_stored(old(memory)@, registers@, index, x),
{
    let mut register: u8 = 0;
    while register <= x
        invariant
            register <= x + 1,
            x < 16,
            memory@ == Seq::new(
                4096,
                |address: int|
                    {
                        let offset = (address - index) % 4096;
                        if offset < register {
                            registers@[offset]
                        } else {
                            old(memory)@[address]
                        }
                    },
            ),
        decreases x + 1 - register,
    {
        memory[(index as usize + register as usize) % 4096] = registers[register as usize];
        register += 1;
    }
}

/// Loads the registers `0` to `x` from `memory`, from address `index` on.
pub(crate) fn load_registers(registers: &mut [u8; 16], memory: &[u8; 4096], index: u16, x: u8)
    requires
        x < 16,
    ensures
        final(registers)@ == registers_loaded(old(registers)@, memory@, index, x),
{
    let mut register: u8 = 0;
    while register <= x
        invariant
            register <= x + 1,
            x < 16,
            registers@ == Seq::new(
                16,
                |i: int|
                    if i < register {
                        memory@[(index + i) % 4096]
                    } else {
                        old(registers)@[i]
                    },
            ),
        decreases x + 1 - register,
    {
        registers[register as usize] = memory[(index as usize + register as usize) % 4096];
        register += 1;
    }
}

/// Writes the three decimal digits of `value` to `memory`, from address
/// `index` on.
pub(crate) fn write_decimal(memory: &mut [u8; 4096], index: u16, value: u8)
    ensures
        final(memory)@ == decimal_written(old(memory)@, index, value),
{
    memory[index as usize % 4096] = value / 100;
    memory[(index as usize + 1) % 4096] = (value / 10) % 10;
    memory[(index as usize + 2) % 4096] = value % 10;
}

} // verus!
