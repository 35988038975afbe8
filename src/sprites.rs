use vstd::prelude::*;

use crate::emulation::{
    Emulation, EmulationError, Machine, DISPLAY_SIZE, FLAG_REGISTER, RAM_SIZE, SCREEN_HEIGHT,
    SCREEN_WIDTH,
};

verus! {

/*
Sprites are always 8 pixels wide and up to 15 pixels tall. They are
stored row by row from the address in the index register, the leftmost pixel
of a row in its most significant bit. Drawing XORs them onto the display,
wrapping around both edges.
*/

/// Bit `col` of a sprite row, counted from the most significant bit.
pub open spec fn sprite_bit(row: u8, col: int) -> bool {
    row & (0x80u8 >> (col as u8)) != 0
}

/// The sprite row that display cell `p` lies in, for a sprite whose top is
/// on screen row `y`, counting with wraparound.
pub open spec fn row_of(p: int, y: int) -> int {
    (p / SCREEN_WIDTH as int - y) % (SCREEN_HEIGHT as int)
}

/// The sprite column that display cell `p` lies in, for a sprite whose left
/// edge is on screen column `x`, counting with wraparound.
pub open spec fn col_of(p: int, x: int) -> int {
    (p % SCREEN_WIDTH as int - x) % (SCREEN_WIDTH as int)
}

/// The display cell that sprite row `r`, column `c` lands on.
pub open spec fn pixel_index(x: int, y: int, r: int, c: int) -> int {
    (x + c) % (SCREEN_WIDTH as int) + SCREEN_WIDTH as int * ((y + r) % (SCREEN_HEIGHT as int))
}

/// Whether the sprite of `height` rows at `index`, drawn with its corner at
/// `(x, y)`, has a set bit over display cell `p`.
pub open spec fn sprite_covers(ram: Seq<u8>, index: int, x: int, y: int, height: int, p: int) -> bool {
    &&& row_of(p, y) < height
    &&& col_of(p, x) < 8
    &&& sprite_bit(ram[index + row_of(p, y)], col_of(p, x))
}

/// The display after the sprite has been XORed onto it.
pub open spec fn drawn(display: Seq<bool>, ram: Seq<u8>, index: int, x: int, y: int, height: int) -> Seq<bool> {
    Seq::new(display.len(), |p: int| display[p] != sprite_covers(ram, index, x, y, height, p))
}

/// Whether the sprite has a set bit over some lit cell, which drawing turns off.
pub open spec fn collides(display: Seq<bool>, ram: Seq<u8>, index: int, x: int, y: int, height: int) -> bool {
    exists|p: int| 0 <= p < display.len() && #[trigger] display[p] && sprite_covers(ram, index, x, y, height, p)
}

/// Drawing the sprite of `height` rows at the index register at the
/// position held in registers `x` and `y`: the display is XORed with it and
/// the flag register tells whether a lit pixel was turned off. A sprite that
/// reaches past the end of memory is a fault; a sprite of no rows reads
/// nothing and never faults.
pub open spec fn draw_spec(m: Machine, x: int, y: int, height: int) -> (Machine, Result<(), EmulationError>) {
    if height > 0 && m.index + height > RAM_SIZE {
        (m, Err(EmulationError::MemoryOutOfRange { start: m.index as usize, len: height as usize }))
    } else {
        let sx = m.registers[x] as int;
        let sy = m.registers[y] as int;
        let hit = collides(m.display, m.ram, m.index as int, sx, sy, height);
        (
            Machine {
                display: drawn(m.display, m.ram, m.index as int, sx, sy, height),
                registers: m.registers.update(FLAG_REGISTER as int, if hit { 1u8 } else { 0u8 }),
                ..m
            },
            Ok(()),
        )
    }
}

/// A display cell is where sprite row `r`, column `c` lands exactly when it
/// lies in that row and column.
pub proof fn lemma_pixel_position(p: int, x: int, y: int, r: int, c: int)
    requires
        0 <= p < DISPLAY_SIZE,
        0 <= x,
        0 <= y,
        0 <= r < SCREEN_HEIGHT,
        0 <= c < SCREEN_WIDTH,
    ensures
        (p == pixel_index(x, y, r, c)) == (row_of(p, y) == r && col_of(p, x) == c),
        0 <= pixel_index(x, y, r, c) < DISPLAY_SIZE,
{
    let a = p % 64;
    let b = p / 64;
    assert(p == a + 64 * b);
    assert(0 <= b < 32);
}

/// Whether sprite row `r`, column `c` comes before the scan position
/// (`line`, `pixel`).
pub open spec fn scanned(r: int, c: int, line: int, pixel: int) -> bool {
    r < line || (r == line && c < pixel)
}

/// XOR-draws the sprite of `nibble4` rows at the index register onto the
/// display, at the position held in registers `nibble2` and `nibble3`, and
/// sets the flag register on collision.
pub fn draw_sprite(emu: &mut Emulation, nibble2: u16, nibble3: u16, nibble4: u16) -> (r: Result<(), EmulationError>)
    requires
        old(emu).wf(),
        nibble2 < 16,
        nibble3 < 16,
        nibble4 < 16,
    ensures
        final(emu).wf(),
        (final(emu)@, r) == draw_spec(old(emu)@, nibble2 as int, nibble3 as int, nibble4 as int),
{
    // nibble 2 and 3 name the registers that hold the coordinates
    let screen_x = emu.registers[nibble2 as usize] as usize;
    let screen_y = emu.registers[nibble3 as usize] as usize;
    // nibble 4 is the height of the sprite
    let sprite_height = nibble4 as usize;
    let start = emu.index_register as usize;
    if sprite_height > 0 && start + sprite_height > RAM_SIZE {
        return Err(EmulationError::MemoryOutOfRange { start, len: sprite_height });
    }
    let ghost m0 = emu@;
    let ghost d0 = emu@.display;
    let ghost gi = start as int;
    let ghost gx = screen_x as int;
    let ghost gy = screen_y as int;
    let ghost gh = sprite_height as int;

    let mut flipped_pixels = false;
    let mut line: usize = 0;
    // draw pixels line by line
    while line < sprite_height
        invariant
            line <= sprite_height,
            sprite_height < 16,
            sprite_height > 0 ==> start + sprite_height <= RAM_SIZE,
            screen_x < 256,
            screen_y < 256,
            gi == start,
            gx == screen_x,
            gy == screen_y,
            gh == sprite_height,
            emu@ == (Machine { display: emu@.display, ..m0 }),
            emu@.display.len() == DISPLAY_SIZE,
            forall|p: int| 0 <= p < DISPLAY_SIZE ==> #[trigger] emu@.display[p] == (d0[p] != (sprite_covers(m0.ram, gi, gx, gy, gh, p)
                && scanned(row_of(p, gy), col_of(p, gx), line as int, 0))),
            flipped_pixels == exists|p: int| 0 <= p < DISPLAY_SIZE && #[trigger] d0[p] && sprite_covers(m0.ram, gi, gx, gy, gh, p)
                && scanned(row_of(p, gy), col_of(p, gx), line as int, 0),
        decreases sprite_height - line,
    {
        let pixels = emu.ram[start + line];
        let mut pixel: usize = 0;
        while pixel < 8
            invariant
                pixel <= 8,
                line < sprite_height,
                sprite_height < 16,
                sprite_height > 0 ==> start + sprite_height <= RAM_SIZE,
                pixels == m0.ram[start + line],
                screen_x < 256,
                screen_y < 256,
                gi == start,
                gx == screen_x,
                gy == screen_y,
                gh == sprite_height,
                emu@ == (Machine { display: emu@.display, ..m0 }),
                emu@.display.len() == DISPLAY_SIZE,
                forall|p: int| 0 <= p < DISPLAY_SIZE ==> #[trigger] emu@.display[p] == (d0[p] != (sprite_covers(m0.ram, gi, gx, gy, gh, p)
                    && scanned(row_of(p, gy), col_of(p, gx), line as int, pixel as int))),
                flipped_pixels == exists|p: int| 0 <= p < DISPLAY_SIZE && #[trigger] d0[p] && sprite_covers(m0.ram, gi, gx, gy, gh, p)
                    && scanned(row_of(p, gy), col_of(p, gx), line as int, pixel as int),
            decreases 8 - pixel,
        {
            let ghost disp_before = emu@.display;
            // only set bits flip a pixel
            if (pixels & (0x80u8 >> (pixel as u8))) != 0 {
                // wrap around the edges of the screen
                let x = (screen_x + pixel) % SCREEN_WIDTH;
                let y = (screen_y + line) % SCREEN_HEIGHT;
                let index = x + SCREEN_WIDTH * y;
                proof {
                    assert(index == pixel_index(gx, gy, line as int, pixel as int));
                }
                // the flag reads the pixel before it flips
                flipped_pixels = flipped_pixels || emu.frame_buffer[index];
                emu.frame_buffer[index] = !emu.frame_buffer[index];
                proof {
                    assert forall|p: int| 0 <= p < DISPLAY_SIZE implies (p == index) == (row_of(p, gy) == line
                        && col_of(p, gx) == pixel) by {
                        lemma_pixel_position(p, gx, gy, line as int, pixel as int);
                    }
                    lemma_pixel_position(index as int, gx, gy, line as int, pixel as int);
                    assert(sprite_covers(m0.ram, gi, gx, gy, gh, index as int));
                    if disp_before[index as int] {
                        assert(d0[index as int] && sprite_covers(m0.ram, gi, gx, gy, gh, index as int) && scanned(row_of(index as int, gy),
                            col_of(index as int, gx), line as int, pixel as int + 1));
                    }
                }
            } else {
                proof {
                    assert forall|p: int| 0 <= p < DISPLAY_SIZE && row_of(p, gy) == line
                        && col_of(p, gx) == pixel implies !sprite_covers(m0.ram, gi, gx, gy, gh, p) by {
                    }
                }
            }
            pixel = pixel + 1;
        }
        proof {
            assert forall|p: int| #![trigger row_of(p, gy), col_of(p, gx)] 0 <= p < DISPLAY_SIZE implies (sprite_covers(m0.ram, gi, gx, gy, gh, p)
                && scanned(row_of(p, gy), col_of(p, gx), line as int, 8)) == (sprite_covers(m0.ram, gi, gx, gy, gh, p)
                && scanned(row_of(p, gy), col_of(p, gx), line as int + 1, 0)) by {
            }
        }
        line = line + 1;
    }
    emu.registers[FLAG_REGISTER] = if flipped_pixels { 1 } else { 0 };
    proof {
        assert(emu@.display =~= drawn(m0.display, m0.ram, start as int, gx, gy, sprite_height as int));
        assert(emu@ =~= draw_spec(m0, nibble2 as int, nibble3 as int, nibble4 as int).0);
    }
    Ok(())
}

} // verus!
