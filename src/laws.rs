use vstd::prelude::*;

use crate::cpu::{execute_spec, first_pressed};
use crate::emulation::{
    initial_machine, load_spec, opcode_at, tick_spec, EmulationError, Machine, DISPLAY_SIZE, FLAG_REGISTER,
    NUM_KEYS, RAM_SIZE, START_ADDRESS,
};
use crate::font;
use crate::instruction::{address_of, low_byte, nibble1, nibble2, nibble3, nibble4};
use crate::sprites::{draw_spec, drawn, sprite_covers};

verus! {

/// The opcode with nibbles `n1`, `x`, `y`, `n`, most significant first.
pub open spec fn opcode(n1: u16, x: u16, y: u16, n: u16) -> u16 {
    (n1 * 0x1000 + x * 0x100 + y * 0x10 + n) as u16
}

/// Splitting an opcode put together from four nibbles gives them back.
pub proof fn lemma_opcode_fields(n1: u16, x: u16, y: u16, n: u16)
    requires
        n1 < 16,
        x < 16,
        y < 16,
        n < 16,
    ensures
        nibble1(opcode(n1, x, y, n)) == n1,
        nibble2(opcode(n1, x, y, n)) == x,
        nibble3(opcode(n1, x, y, n)) == y,
        nibble4(opcode(n1, x, y, n)) == n,
        low_byte(opcode(n1, x, y, n)) == y * 16 + n,
        address_of(opcode(n1, x, y, n)) == x * 256 + y * 16 + n,
{
    let op = opcode(n1, x, y, n);
    assert(op == n1 * 0x1000 + x * 0x100 + y * 0x10 + n);
    assert((op & 0xF000) >> 12u16 == n1 && (op & 0x0F00) >> 8u16 == x && (op & 0x00F0) >> 4u16 == y
        && op & 0x000F == n && op & 0xFF == y * 16 + n && op & 0xFFF == x * 256 + y * 16 + n) by (bit_vector)
        requires
            n1 < 16,
            x < 16,
            y < 16,
            n < 16,
            op == n1 * 0x1000 + x * 0x100 + y * 0x10 + n,
    ;
}

/// Register arithmetic sets the flag register as unsigned arithmetic does:
/// `8xy4` to 1 on carry, `8xy5` and `8xy7` to 0 on borrow and to 1
/// otherwise; register `x`, unless it is the flag register itself, holds the
/// result modulo 256.
pub proof fn lemma_arithmetic_flags(m: Machine, x: u16, y: u16, random: u8)
    requires
        m.wf(),
        x < 16,
        y < 16,
    ensures
        ({
            let (a, b) = (m.registers[x as int] as int, m.registers[y as int] as int);
            let (add, r_add) = execute_spec(m, opcode(8, x, y, 4), random);
            let (sub, r_sub) = execute_spec(m, opcode(8, x, y, 5), random);
            let (rev, r_rev) = execute_spec(m, opcode(8, x, y, 7), random);
            &&& r_add is Ok && r_sub is Ok && r_rev is Ok
            &&& add.registers[FLAG_REGISTER as int] == (if a + b > 255 { 1u8 } else { 0u8 })
            &&& sub.registers[FLAG_REGISTER as int] == (if a >= b { 1u8 } else { 0u8 })
            &&& rev.registers[FLAG_REGISTER as int] == (if b >= a { 1u8 } else { 0u8 })
            &&& x != FLAG_REGISTER ==> {
                &&& add.registers[x as int] == (a + b) % 256
                &&& sub.registers[x as int] == (a - b) % 256
                &&& rev.registers[x as int] == (b - a) % 256
            }
        }),
{
    lemma_opcode_fields(8, x, y, 4);
    lemma_opcode_fields(8, x, y, 5);
    lemma_opcode_fields(8, x, y, 7);
}

/// The shifts put the bit shifted out of register `x`, as it was before the
/// shift, into the flag register; register `x`, unless it is the flag
/// register itself, holds the shifted value.
pub proof fn lemma_shift_flags(m: Machine, x: u16, y: u16, random: u8)
    requires
        m.wf(),
        x < 16,
        y < 16,
    ensures
        ({
            let a = m.registers[x as int];
            let (right, r_right) = execute_spec(m, opcode(8, x, y, 6), random);
            let (left, r_left) = execute_spec(m, opcode(8, x, y, 0xE), random);
            &&& r_right is Ok && r_left is Ok
            &&& right.registers[FLAG_REGISTER as int] == a % 2
            &&& left.registers[FLAG_REGISTER as int] == a / 128
            &&& x != FLAG_REGISTER ==> {
                &&& right.registers[x as int] == a / 2
                &&& left.registers[x as int] == (a * 2) % 256
            }
        }),
{
    lemma_opcode_fields(8, x, y, 6);
    lemma_opcode_fields(8, x, y, 0xE);
    let a = m.registers[x as int];
    assert(a & 1 == a % 2 && (a >> 7u8) & 1 == a / 128 && a >> 1u8 == a / 2 && (a << 1u8) == (a * 2) % 256)
        by (bit_vector);
}

/// Drawing the same sprite twice at the same place gives back the display it
/// started from. The coordinates must not come from the flag register, which
/// the first draw overwrites.
pub proof fn lemma_draw_twice(m: Machine, x: int, y: int, height: int)
    requires
        m.wf(),
        0 <= x < 16,
        0 <= y < 16,
        x != FLAG_REGISTER,
        y != FLAG_REGISTER,
        0 <= height < 16,
        height > 0 ==> m.index + height <= RAM_SIZE,
    ensures
        draw_spec(draw_spec(m, x, y, height).0, x, y, height).0.display == m.display,
        draw_spec(draw_spec(m, x, y, height).0, x, y, height).1 is Ok,
{
    let m1 = draw_spec(m, x, y, height).0;
    let m2 = draw_spec(m1, x, y, height).0;
    assert(m1.registers[x] == m.registers[x] && m1.registers[y] == m.registers[y]);
    assert(m2.display =~= m.display);
}

/// The display is XORed with the sprite: drawing it twice onto any display
/// gives that display back.
pub proof fn lemma_drawn_involution(display: Seq<bool>, ram: Seq<u8>, index: int, x: int, y: int, height: int)
    ensures
        drawn(drawn(display, ram, index, x, y, height), ram, index, x, y, height) == display,
{
    assert(drawn(drawn(display, ram, index, x, y, height), ram, index, x, y, height) =~= display);
}

/// The flag register is 1 after a draw exactly when some pixel went from lit
/// to unlit, and 0 otherwise.
pub proof fn lemma_collision_flag(m: Machine, x: int, y: int, height: int)
    requires
        m.wf(),
        0 <= x < 16,
        0 <= y < 16,
        0 <= height < 16,
        height > 0 ==> m.index + height <= RAM_SIZE,
    ensures
        ({
            let after = draw_spec(m, x, y, height).0;
            let flag = after.registers[FLAG_REGISTER as int];
            &&& flag == 0 || flag == 1
            &&& (flag == 1) == exists|p: int| 0 <= p < DISPLAY_SIZE && #[trigger] m.display[p] && !after.display[p]
        }),
{
    let after = draw_spec(m, x, y, height).0;
    let (sx, sy) = (m.registers[x] as int, m.registers[y] as int);
    if after.registers[FLAG_REGISTER as int] == 1 {
        let p = choose|p: int| 0 <= p < m.display.len() && #[trigger] m.display[p] && sprite_covers(m.ram, m.index as int, sx, sy, height, p);
        assert(m.display[p] && !after.display[p]);
    }
    if exists|p: int| 0 <= p < DISPLAY_SIZE && #[trigger] m.display[p] && !after.display[p] {
        let p = choose|p: int| 0 <= p < DISPLAY_SIZE && #[trigger] m.display[p] && !after.display[p];
        assert(sprite_covers(m.ram, m.index as int, sx, sy, height, p));
    }
}

/// `Fx33` stores the decimal digits of register `x`: three digits below ten
/// that make up its value, hundreds first.
pub proof fn lemma_bcd_digits(m: Machine, x: u16, random: u8)
    requires
        m.wf(),
        x < 16,
        m.index + 3 <= RAM_SIZE,
    ensures
        ({
            let (after, r) = execute_spec(m, opcode(0xF, x, 3, 3), random);
            let i = m.index as int;
            &&& r is Ok
            &&& after.ram[i] < 10 && after.ram[i + 1] < 10 && after.ram[i + 2] < 10
            &&& after.ram[i] * 100 + after.ram[i + 1] * 10 + after.ram[i + 2] == m.registers[x as int]
        }),
{
    lemma_opcode_fields(0xF, x, 3, 3);
}

/// `Fx29` points the index register at the glyph of the digit in register
/// `x`: five times its value.
pub proof fn lemma_font_glyph_index(m: Machine, x: u16, random: u8)
    requires
        m.wf(),
        x < 16,
    ensures
        ({
            let (after, r) = execute_spec(m, opcode(0xF, x, 2, 9), random);
            r is Ok && after.index == 5 * m.registers[x as int]
        }),
{
    lemma_opcode_fields(0xF, x, 2, 9);
}

/// While no key is pressed, a tick on `Fx0A` changes nothing: the program
/// counter stays on the instruction, so every later tick polls again.
pub proof fn lemma_wait_key_blocks(m: Machine, x: u16, random: u8)
    requires
        m.wf(),
        x < 16,
        m.pc + 1 < RAM_SIZE,
        opcode_at(m.ram, m.pc as int) == opcode(0xF, x, 0, 0xA),
        forall|k: int| 0 <= k < NUM_KEYS ==> !#[trigger] m.keys[k],
    ensures
        tick_spec(m, random) == (m, Ok::<(), EmulationError>(())),
{
    lemma_opcode_fields(0xF, x, 0, 0xA);
    lemma_none_pressed(m.keys, 0);
    assert(tick_spec(m, random).0 =~= m);
}

/// With a key pressed, a tick on `Fx0A` moves on to the next instruction
/// and stores in register `x` the lowest pressed key.
pub proof fn lemma_wait_key_resumes(m: Machine, x: u16, random: u8)
    requires
        m.wf(),
        x < 16,
        m.pc + 1 < RAM_SIZE,
        opcode_at(m.ram, m.pc as int) == opcode(0xF, x, 0, 0xA),
        exists|k: int| 0 <= k < NUM_KEYS && #[trigger] m.keys[k],
    ensures
        ({
            let (after, r) = tick_spec(m, random);
            let key = after.registers[x as int] as int;
            &&& r is Ok
            &&& after.pc == m.pc + 2
            &&& 0 <= key < NUM_KEYS && m.keys[key]
            &&& forall|j: int| 0 <= j < key ==> !#[trigger] m.keys[j]
        }),
{
    lemma_opcode_fields(0xF, x, 0, 0xA);
    let k = choose|k: int| 0 <= k < NUM_KEYS && #[trigger] m.keys[k];
    lemma_first_pressed(m.keys, 0, k);
}

/// With no key pressed from `from` on, none is found.
proof fn lemma_none_pressed(keys: Seq<bool>, from: int)
    requires
        keys.len() == NUM_KEYS,
        0 <= from,
        forall|k: int| 0 <= k < NUM_KEYS ==> !#[trigger] keys[k],
    ensures
        first_pressed(keys, from) == NUM_KEYS,
    decreases NUM_KEYS - from,
{
    if from < NUM_KEYS {
        lemma_none_pressed(keys, from + 1);
    }
}

/// With key `k` pressed, the search from `from <= k` finds a pressed key no
/// later than `k`, with none pressed between `from` and it.
proof fn lemma_first_pressed(keys: Seq<bool>, from: int, k: int)
    requires
        keys.len() == NUM_KEYS,
        0 <= from <= k < NUM_KEYS,
        keys[k],
    ensures
        from <= first_pressed(keys, from) <= k,
        keys[first_pressed(keys, from)],
        forall|j: int| from <= j < first_pressed(keys, from) ==> !#[trigger] keys[j],
    decreases k - from,
{
    if !keys[from] {
        lemma_first_pressed(keys, from + 1, k);
    }
}

/// Whatever was loaded before, a reset leaves address 0x200 zero and the
/// font table at address 0.
pub proof fn lemma_reset_after_load(m: Machine, rom: Seq<u8>)
    requires
        m.wf(),
        rom.len() > 0,
        START_ADDRESS + rom.len() <= RAM_SIZE,
    ensures
        load_spec(m, rom).1 is Ok,
        load_spec(m, rom).0.ram[START_ADDRESS as int] == rom[0],
        initial_machine().ram[START_ADDRESS as int] == 0,
        initial_machine().ram.subrange(0, font::SET_SIZE as int) == font::glyphs(),
{
    assert(initial_machine().ram.subrange(0, font::SET_SIZE as int) =~= font::glyphs());
}

} // verus!
