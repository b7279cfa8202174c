//! The display: 64 by 32 pixels, and the drawing of sprites onto it.
//!
//! A sprite is eight pixels wide and up to fifteen rows high. Each row is
//! one byte, whose most significant bit is the leftmost pixel. Drawing
//! flips every pixel of the display under a set pixel of the sprite. A
//! sprite is clipped at the right and at the bottom edge of the display:
//! what would fall outside is not drawn, and nothing wraps around.

use vstd::prelude::*;

verus! {

/// Number of pixels in a row of the display.
pub const FRAMEBUFFER_WIDTH: usize = 64;

/// Number of rows of the display.
pub const FRAMEBUFFER_HEIGHT: usize = 32;

/// Number of pixels of the display.
pub const FRAMEBUFFER_SIZE: usize = FRAMEBUFFER_WIDTH * FRAMEBUFFER_HEIGHT;

/// Number of bytes that one row of the display takes in an encoded frame.
pub const FRAMEBUFFER_PITCH: usize = FRAMEBUFFER_WIDTH * 4;

/// Whether the pixel in column `column` of a sprite row is set. Column 0 is
/// the leftmost pixel and the most significant bit of the row.
pub open spec fn sprite_bit(row: u8, column: u8) -> bool {
    row & (0x80u8 >> column) != 0
}

/// The sprite of `rows` rows that lies in `memory` at `index`. Addresses
/// are taken modulo the size of the memory.
pub open spec fn sprite_at(memory: Seq<u8>, index: u16, rows: int) -> Seq<u8> {
    Seq::new(rows as nat, |row: int| memory[(index + row) % 4096])
}

/// Whether `sprite`, put with its top left corner at column `left` and row
/// `top`, has a set pixel at column `column` and row `line`.
pub open spec fn sprite_covers(sprite: Seq<u8>, left: int, top: int, column: int, line: int) -> bool {
    &&& 0 <= column - left < 8
    &&& 0 <= line - top < sprite.len()
    &&& sprite_bit(sprite[line - top], (column - left) as u8)
}

/// Whether drawing `sprite` at `(left, top)` flips pixel `cell` of the
/// display. Pixels are numbered row by row from the top left corner.
pub open spec fn flips(sprite: Seq<u8>, left: int, top: int, cell: int) -> bool {
    sprite_covers(sprite, left, top, cell % 64, cell / 64)
}

/// Whether `sprite`, drawn at `(left, top)`, has a set pixel on the display.
pub open spec fn touches(sprite: Seq<u8>, left: int, top: int) -> bool {
    exists|cell: int| 0 <= cell < 2048 && #[trigger] flips(sprite, left, top, cell)
}

/// Whether drawing `sprite` at `(left, top)` switches off a pixel that was on.
pub open spec fn collides(pixels: Seq<bool>, sprite: Seq<u8>, left: int, top: int) -> bool {
    exists|cell: int| 0 <= cell < 2048 && pixels[cell] && #[trigger] flips(sprite, left, top, cell)
}

/// The display after drawing `sprite` at `(left, top)`.
pub open spec fn blitted(pixels: Seq<bool>, sprite: Seq<u8>, left: int, top: int) -> Seq<bool> {
    Seq::new(2048, |cell: int| pixels[cell] != flips(sprite, left, top, cell))
}

/// The display as the bytes of a frame of 32-bit pixels: four bytes for
/// each pixel, row by row from the top left corner, all `0xFF` for a pixel
/// that is on and all `0x00` for one that is off.
pub open spec fn encoded_frame(pixels: Seq<bool>) -> Seq<u8> {
    Seq::new(
        8192,
        |i: int|
            if pixels[i / 4] {
                0xFFu8
            } else {
                0x00u8
            },
    )
}

/// `flips`, for the part of the sprite that comes before column `column` of
/// row `row` when the sprite is read row by row.
spec fn flips_before(sprite: Seq<u8>, left: int, top: int, row: int, column: int, cell: int) -> bool {
    &&& flips(sprite, left, top, cell)
    &&& (cell / 64 - top < row || (cell / 64 - top == row && cell % 64 - left < column))
}

/// `collides`, for the part of the sprite before column `column` of row `row`.
spec fn collides_before(
    pixels: Seq<bool>,
    sprite: Seq<u8>,
    left: int,
    top: int,
    row: int,
    column: int,
) -> bool {
    exists|cell: int|
        0 <= cell < 2048 && pixels[cell] && #[trigger] flips_before(sprite, left, top, row, column, cell)
}

/// `blitted`, for the part of the sprite before column `column` of row `row`.
spec fn blitted_before(
    pixels: Seq<bool>,
    sprite: Seq<u8>,
    left: int,
    top: int,
    row: int,
    column: int,
) -> Seq<bool> {
    Seq::new(2048, |cell: int| pixels[cell] != flips_before(sprite, left, top, row, column, cell))
}

/// Drawing one more pixel of the sprite touches the one cell under it, if
/// that cell is on the display, and no other.
proof fn lemma_blit_pixel(pixels: Seq<bool>, sprite: Seq<u8>, left: int, top: int, row: int, column: int)
    requires
        pixels.len() == 2048,
        0 <= left,
        0 <= top,
        0 <= row < sprite.len(),
        0 <= column < 8,
    ensures
        ({
            let cell = (left + column) + (top + row) * 64;
            let hit = left + column < 64 && top + row < 32 && sprite_bit(sprite[row], column as u8);
            &&& blitted_before(pixels, sprite, left, top, row, column + 1) == if hit {
                blitted_before(pixels, sprite, left, top, row, column).update(cell, !pixels[cell])
            } else {
                blitted_before(pixels, sprite, left, top, row, column)
            }
            &&& hit ==> blitted_before(pixels, sprite, left, top, row, column)[cell] == pixels[cell]
            &&& collides_before(pixels, sprite, left, top, row, column + 1) == (collides_before(
                pixels,
                sprite,
                left,
                top,
                row,
                column,
            ) || (hit && pixels[cell]))
        }),
{
    let target = (left + column) + (top + row) * 64;
    let hit = left + column < 64 && top + row < 32 && sprite_bit(sprite[row], column as u8);
    assert forall|cell: int| 0 <= cell < 2048 implies flips_before(
        sprite,
        left,
        top,
        row,
        column + 1,
        cell,
    ) == (flips_before(sprite, left, top, row, column, cell) || (hit && cell == target)) by {
        if cell % 64 - left == column && cell / 64 - top == row {
            assert(cell == target);
        }
    }
    if collides_before(pixels, sprite, left, top, row, column + 1) {
        let cell = choose|cell: int|
            0 <= cell < 2048 && pixels[cell] && #[trigger] flips_before(
                sprite,
                left,
                top,
                row,
                column + 1,
                cell,
            );
        if !(hit && cell == target) {
            assert(flips_before(sprite, left, top, row, column, cell));
        }
    }
    if collides_before(pixels, sprite, left, top, row, column) {
        let cell = choose|cell: int|
            0 <= cell < 2048 && pixels[cell] && #[trigger] flips_before(
                sprite,
                left,
                top,
                row,
                column,
                cell,
            );
        assert(flips_before(sprite, left, top, row, column + 1, cell));
    }
    if hit && pixels[target] {
        assert(flips_before(sprite, left, top, row, column + 1, target));
    }
    assert(blitted_before(pixels, sprite, left, top, row, column + 1) =~= if hit {
        blitted_before(pixels, sprite, left, top, row, column).update(target, !pixels[target])
    } else {
        blitted_before(pixels, sprite, left, top, row, column)
    });
}

/// The part of the sprite before the end of a row is the part before the
/// start of the next row.
proof fn lemma_blit_row(pixels: Seq<bool>, sprite: Seq<u8>, left: int, top: int, row: int)
    ensures
        blitted_before(pixels, sprite, left, top, row, 8) == blitted_before(
            pixels,
            sprite,
            left,
            top,
            row + 1,
            0,
        ),
        collides_before(pixels, sprite, left, top, row, 8) == collides_before(
            pixels,
            sprite,
            left,
            top,
            row + 1,
            0,
        ),
{
    assert forall|cell: int|
        flips_before(sprite, left, top, row, 8, cell) == flips_before(
            sprite,
            left,
            top,
            row + 1,
            0,
            cell,
        ) by {}
    assert(blitted_before(pixels, sprite, left, top, row, 8) =~= blitted_before(
        pixels,
        sprite,
        left,
        top,
        row + 1,
        0,
    ));
    if collides_before(pixels, sprite, left, top, row, 8) {
        let cell = choose|cell: int|
            0 <= cell < 2048 && pixels[cell] && #[trigger] flips_before(sprite, left, top, row, 8, cell);
        assert(flips_before(sprite, left, top, row + 1, 0, cell));
    }
    if collides_before(pixels, sprite, left, top, row + 1, 0) {
        let cell = choose|cell: int|
            0 <= cell < 2048 && pixels[cell] && #[trigger] flips_before(
                sprite,
                left,
                top,
                row + 1,
                0,
                cell,
            );
        assert(flips_before(sprite, left, top, row, 8, cell));
    }
}

/// Before the first row nothing is drawn; before the row behind the last,
/// the whole sprite is.
proof fn lemma_blit_ends(pixels: Seq<bool>, sprite: Seq<u8>, left: int, top: int)
    requires
        pixels.len() == 2048,
    ensures
        blitted_before(pixels, sprite, left, top, 0, 0) == pixels,
        !collides_before(pixels, sprite, left, top, 0, 0),
        blitted_before(pixels, sprite, left, top, sprite.len() as int, 0) == blitted(
            pixels,
            sprite,
            left,
            top,
        ),
        collides_before(pixels, sprite, left, top, sprite.len() as int, 0) == collides(
            pixels,
            sprite,
            left,
            top,
        ),
{
    let rows = sprite.len() as int;
    assert(blitted_before(pixels, sprite, left, top, 0, 0) =~= pixels);
    assert forall|cell: int|
        flips_before(sprite, left, top, rows, 0, cell) == flips(sprite, left, top, cell) by {}
    assert(blitted_before(pixels, sprite, left, top, rows, 0) =~= blitted(pixels, sprite, left, top));
    if collides_before(pixels, sprite, left, top, rows, 0) {
        let cell = choose|cell: int|
            0 <= cell < 2048 && pixels[cell] && #[trigger] flips_before(sprite, left, top, rows, 0, cell);
        assert(flips(sprite, left, top, cell));
    }
    if collides(pixels, sprite, left, top) {
        let cell = choose|cell: int|
            0 <= cell < 2048 && pixels[cell] && #[trigger] flips(sprite, left, top, cell);
        assert(flips_before(sprite, left, top, rows, 0, cell));
    }
}

/// Draws the sprite of `rows` rows that lies in `memory` at `index` onto
/// the display, with its top left corner at column `left` and row `top`.
///
/// Every pixel under a set pixel of the sprite is flipped. Returns whether
/// a pixel that was on has been switched off.
pub fn blit(
    framebuffer: &mut [bool; 2048],
    memory: &[u8; 4096],
    index: u16,
    left: u8,
    top: u8,
    rows: u8,
) -> (collision: bool)
    ensures
        final(framebuffer)@ == blitted(
            old(framebuffer)@,
            sprite_at(memory@, index, rows as int),
            left as int,
            top as int,
        ),
        collision == collides(
            old(framebuffer)@,
            sprite_at(memory@, index, rows as int),
            left as int,
            top as int,
        ),
{
    let ghost before = framebuffer@;
    let ghost sprite = sprite_at(memory@, index, rows as int);
    proof {
        lemma_blit_ends(before, sprite, left as int, top as int);
    }
    let mut collision = false;
    let mut row: u8 = 0;
    while row < rows
        invariant
            row <= rows,
            before.len() == 2048,
            sprite == sprite_at(memory@, index, rows as int),
            framebuffer@ == blitted_before(before, sprite, left as int, top as int, row as int, 0),
            collision == collides_before(before, sprite, left as int, top as int, row as int, 0),
        decreases rows - row,
    {
        let bits = memory[(index as usize + row as usize) % 4096];
        let mut column: u8 = 0;
        while column < 8
            invariant
                column <= 8,
                row < rows,
                before.len() == 2048,
                sprite == sprite_at(memory@, index, rows as int),
                bits == sprite[row as int],
                framebuffer@ == blitted_before(
                    before,
                    sprite,
                    left as int,
                    top as int,
                    row as int,
                    column as int,
                ),
                collision == collides_before(
                    before,
                    sprite,
                    left as int,
                    top as int,
                    row as int,
                    column as int,
                ),
            decreases 8 - column,
        {
            proof {
                lemma_blit_pixel(before, sprite, left as int, top as int, row as int, column as int);
            }
            let x = left as usize + column as usize;
            let y = top as usize + row as usize;
            if x < 64 && y < 32 && bits & (0x80u8 >> column) != 0 {
                let cell = x + y * 64;
                if framebuffer[cell] {
                    collision = true;
                }
                framebuffer[cell] = !framebuffer[cell];
            }
            column += 1;
        }
        proof {
            lemma_blit_row(before, sprite, left as int, top as int, row as int);
        }
        row += 1;
    }
    collision
}

/// Encodes the display as the bytes of a frame of 32-bit pixels.
pub fn encode_frame(framebuffer: &[bool; 2048]) -> (frame: Vec<u8>)
    ensures
        frame@ == encoded_frame(framebuffer@),
{
    let mut frame: Vec<u8> = Vec::with_capacity(8192);
    let mut cell: usize = 0;
    while cell < 2048
        invariant
            cell <= 2048,
            frame@.len() == 4 * cell,
            forall|i: int|
                0 <= i < 4 * cell ==> frame@[i] == if framebuffer@[i / 4] {
                    0xFFu8
                } else {
                    0x00u8
                },
        decreases 2048 - cell,
    {
        let byte: u8 = if framebuffer[cell] {
            0xFF
        } else {
            0x00
        };
        frame.push(byte);
        frame.push(byte);
        frame.push(byte);
        frame.push(byte);
        cell += 1;
    }
    frame
}

} // verus!
