use vstd::prelude::*;

use crate::emulation::{
    wrap16, Emulation, EmulationError, Machine, DISPLAY_SIZE, FLAG_REGISTER, INSTRUCTION_SIZE,
    NUM_KEYS, RAM_SIZE, REGISTER_NUM,
};
use crate::font;
use crate::instruction::{decode, decode_spec, Instruction};
use crate::sprites::{draw_sprite, draw_spec};

verus! {

/*
    Executes one decoded instruction against the machine. Each instruction's
    meaning is `run_spec`; instructions that fault leave the machine as they
    found it.
*/

/// An 8-bit value reduced modulo 256.
pub open spec fn wrap8(v: int) -> u8 {
    (v % 0x100) as u8
}

/// `m` with register `x` set to `v`.
pub open spec fn set_reg(m: Machine, x: int, v: u8) -> Machine {
    Machine { registers: m.registers.update(x, v), ..m }
}

/// `m` with register `x` set to `v`, then the flag register to `flag`.
pub open spec fn set_reg_flag(m: Machine, x: int, v: u8, flag: u8) -> Machine {
    Machine { registers: m.registers.update(x, v).update(FLAG_REGISTER as int, flag), ..m }
}

/// `m` with the next instruction skipped where `cond` holds.
pub open spec fn skip_if(m: Machine, cond: bool) -> Machine {
    if cond {
        Machine { pc: wrap16(m.pc + INSTRUCTION_SIZE), ..m }
    } else {
        m
    }
}

/// The lowest pressed key from `from` on, or the number of keys if none is.
pub open spec fn first_pressed(keys: Seq<bool>, from: int) -> int
    decreases NUM_KEYS - from,
{
    if from >= NUM_KEYS {
        NUM_KEYS as int
    } else if keys[from] {
        from
    } else {
        first_pressed(keys, from + 1)
    }
}

/// Memory with the decimal digits of `v` (hundreds, tens, ones) from `i` on.
pub open spec fn bcd_ram(ram: Seq<u8>, i: int, v: u8) -> Seq<u8> {
    ram.update(i, v / 100).update(i + 1, (v / 10) % 10).update(i + 2, v % 10)
}

/// Memory with registers 0 to `x` stored from `i` on.
pub open spec fn stored_ram(ram: Seq<u8>, i: int, registers: Seq<u8>, x: int) -> Seq<u8> {
    Seq::new(ram.len(), |a: int| if i <= a <= i + x { registers[a - i] } else { ram[a] })
}

/// Registers 0 to `x` loaded from memory at `i` on.
pub open spec fn loaded_registers(registers: Seq<u8>, ram: Seq<u8>, i: int, x: int) -> Seq<u8> {
    Seq::new(registers.len(), |k: int| if k <= x { ram[i + k] } else { registers[k] })
}

/// Whether `len` bytes from the index register reach past the end of memory.
pub open spec fn index_range_fault(m: Machine, len: int) -> bool {
    m.index + len > RAM_SIZE
}

/// A step that succeeds with the machine `m`.
pub open spec fn done(m: Machine) -> (Machine, Result<(), EmulationError>) {
    (m, Ok(()))
}

/// What executing `inst` does to `m`, with `random` the byte that a
/// random-number instruction draws. The program counter already points
/// past the instruction.
pub open spec fn run_spec(m: Machine, inst: Instruction, random: u8) -> (Machine, Result<(), EmulationError>) {
    match inst {
        Instruction::Nop => done(m),
        Instruction::ClearScreen => done(Machine { display: Seq::new(DISPLAY_SIZE as nat, |i: int| false), ..m }),
        Instruction::Return => if m.sp == 0 {
            (m, Err(EmulationError::StackUnderflow))
        } else {
            done(Machine { pc: m.stack[m.sp - 1], sp: (m.sp - 1) as u16, ..m })
        },
        Instruction::Jump { nnn } => done(Machine { pc: nnn, ..m }),
        Instruction::Call { nnn } => if m.sp >= m.stack.len() {
            (m, Err(EmulationError::StackOverflow))
        } else {
            done(Machine { stack: m.stack.update(m.sp as int, m.pc), sp: (m.sp + 1) as u16, pc: nnn, ..m })
        },
        Instruction::SkipEqImm { x, nn } => done(skip_if(m, m.registers[x as int] == nn)),
        Instruction::SkipNeImm { x, nn } => done(skip_if(m, m.registers[x as int] != nn)),
        Instruction::SkipEqReg { x, y } => done(skip_if(m, m.registers[x as int] == m.registers[y as int])),
        Instruction::SetImm { x, nn } => done(set_reg(m, x as int, nn)),
        Instruction::AddImm { x, nn } => done(set_reg(m, x as int, wrap8(m.registers[x as int] + nn))),
        Instruction::Copy { x, y } => done(set_reg(m, x as int, m.registers[y as int])),
        Instruction::Or { x, y } => done(set_reg(m, x as int, m.registers[x as int] | m.registers[y as int])),
        Instruction::And { x, y } => done(set_reg(m, x as int, m.registers[x as int] & m.registers[y as int])),
        Instruction::Xor { x, y } => done(set_reg(m, x as int, m.registers[x as int] ^ m.registers[y as int])),
        Instruction::AddReg { x, y } => {
            let (a, b) = (m.registers[x as int], m.registers[y as int]);
            done(set_reg_flag(m, x as int, wrap8(a + b), if a + b > 0xFF { 1 } else { 0 }))
        },
        Instruction::SubReg { x, y } => {
            let (a, b) = (m.registers[x as int], m.registers[y as int]);
            done(set_reg_flag(m, x as int, wrap8(a - b), if a < b { 0 } else { 1 }))
        },
        Instruction::ShiftRight { x } => {
            let a = m.registers[x as int];
            done(set_reg_flag(m, x as int, a >> 1u8, a & 1))
        },
        Instruction::SubRev { x, y } => {
            let (a, b) = (m.registers[x as int], m.registers[y as int]);
            done(set_reg_flag(m, x as int, wrap8(b - a), if b < a { 0 } else { 1 }))
        },
        Instruction::ShiftLeft { x } => {
            let a = m.registers[x as int];
            done(set_reg_flag(m, x as int, a << 1u8, (a >> 7u8) & 1))
        },
        Instruction::SkipNeReg { x, y } => done(skip_if(m, m.registers[x as int] != m.registers[y as int])),
        Instruction::SetIndex { nnn } => done(Machine { index: nnn, ..m }),
        Instruction::JumpOffset { nnn } => done(Machine { pc: (m.registers[0] + nnn) as u16, ..m }),
        Instruction::Random { x, nn } => done(set_reg(m, x as int, random & nn)),
        Instruction::Draw { x, y, n } => draw_spec(m, x as int, y as int, n as int),
        Instruction::SkipKeyPressed { x } => {
            let key = m.registers[x as int];
            if key >= NUM_KEYS {
                (m, Err(EmulationError::KeyOutOfRange { key }))
            } else {
                done(skip_if(m, m.keys[key as int]))
            }
        },
        Instruction::SkipKeyReleased { x } => {
            let key = m.registers[x as int];
            if key >= NUM_KEYS {
                (m, Err(EmulationError::KeyOutOfRange { key }))
            } else {
                done(skip_if(m, !m.keys[key as int]))
            }
        },
        Instruction::GetDelay { x } => done(set_reg(m, x as int, m.delay_timer)),
        Instruction::WaitKey { x } => {
            let key = first_pressed(m.keys, 0);
            if key < NUM_KEYS {
                done(set_reg(m, x as int, key as u8))
            } else {
                // the same instruction runs again on the next tick
                done(Machine { pc: wrap16(m.pc - INSTRUCTION_SIZE), ..m })
            }
        },
        Instruction::SetDelay { x } => done(Machine { delay_timer: m.registers[x as int], ..m }),
        Instruction::SetSound { x } => done(Machine { sound_timer: m.registers[x as int], ..m }),
        Instruction::AddIndex { x } => done(Machine { index: wrap16(m.index + m.registers[x as int]), ..m }),
        Instruction::FontGlyph { x } => done(Machine { index: (m.registers[x as int] * font::GLYPH_SIZE) as u16, ..m }),
        Instruction::Bcd { x } => if index_range_fault(m, 3) {
            (m, Err(EmulationError::MemoryOutOfRange { start: m.index as usize, len: 3 }))
        } else {
            done(Machine { ram: bcd_ram(m.ram, m.index as int, m.registers[x as int]), ..m })
        },
        Instruction::StoreRegs { x } => if index_range_fault(m, x + 1) {
            (m, Err(EmulationError::MemoryOutOfRange { start: m.index as usize, len: (x + 1) as usize }))
        } else {
            done(Machine { ram: stored_ram(m.ram, m.index as int, m.registers, x as int), ..m })
        },
        Instruction::LoadRegs { x } => if index_range_fault(m, x + 1) {
            (m, Err(EmulationError::MemoryOutOfRange { start: m.index as usize, len: (x + 1) as usize }))
        } else {
            done(Machine { registers: loaded_registers(m.registers, m.ram, m.index as int, x as int), ..m })
        },
    }
}

/// Executing the opcode `op`, fetched from two bytes before the program
/// counter: an opcode that encodes no instruction is a fault.
pub open spec fn execute_spec(m: Machine, op: u16, random: u8) -> (Machine, Result<(), EmulationError>) {
    match decode_spec(op) {
        None => (m, Err(EmulationError::UnknownOpcode { opcode: op, address: wrap16(m.pc - INSTRUCTION_SIZE) })),
        Some(inst) => run_spec(m, inst, random),
    }
}

/// Relies on rand's `OsRng::try_fill_bytes` (rand_core): one byte from the
/// operating system's random source, or `None` where that source fails.
/// Nothing is known of the byte's value.
#[verifier::external_body]
fn random_byte() -> (r: Option<u8>) {
    let mut buf = [0u8; 1];
    match rand::RngCore::try_fill_bytes(&mut rand::rngs::OsRng, &mut buf) {
        Ok(()) => Some(buf[0]),
        Err(_) => None,
    }
}

/// The register instructions `8xyN`.
fn run_arithmetic(emu: &mut Emulation, inst: Instruction) -> (r: Result<(), EmulationError>)
    requires
        old(emu).wf(),
        inst.wf(),
        inst is Copy || inst is Or || inst is And || inst is Xor || inst is AddReg || inst is SubReg
            || inst is ShiftRight || inst is SubRev || inst is ShiftLeft,
    ensures
        final(emu).wf(),
        (final(emu)@, r) == run_spec(old(emu)@, inst, 0),
{
    match inst {
        Instruction::Copy { x, y } => {
            emu.registers[x as usize] = emu.registers[y as usize];
        },
        Instruction::Or { x, y } => {
            emu.registers[x as usize] = emu.registers[x as usize] | emu.registers[y as usize];
        },
        Instruction::And { x, y } => {
            emu.registers[x as usize] = emu.registers[x as usize] & emu.registers[y as usize];
        },
        Instruction::Xor { x, y } => {
            emu.registers[x as usize] = emu.registers[x as usize] ^ emu.registers[y as usize];
        },
        Instruction::AddReg { x, y } => {
            // carry flag on overflow
            let a = emu.registers[x as usize];
            let b = emu.registers[y as usize];
            let carry = a as u16 + b as u16 > 0xFF;
            emu.registers[x as usize] = a.wrapping_add(b);
            emu.registers[FLAG_REGISTER] = if carry { 1 } else { 0 };
        },
        Instruction::SubReg { x, y } => {
            // the flag is cleared on borrow
            let a = emu.registers[x as usize];
            let b = emu.registers[y as usize];
            emu.registers[x as usize] = a.wrapping_sub(b);
            emu.registers[FLAG_REGISTER] = if a < b { 0 } else { 1 };
        },
        Instruction::ShiftRight { x } => {
            // the dropped bit goes to the flag register
            let a = emu.registers[x as usize];
            let lsb = a & 1;
            emu.registers[x as usize] = a >> 1u8;
            emu.registers[FLAG_REGISTER] = lsb;
        },
        Instruction::SubRev { x, y } => {
            let a = emu.registers[x as usize];
            let b = emu.registers[y as usize];
            emu.registers[x as usize] = b.wrapping_sub(a);
            emu.registers[FLAG_REGISTER] = if b < a { 0 } else { 1 };
        },
        Instruction::ShiftLeft { x } => {
            let a = emu.registers[x as usize];
            let msb = (a >> 7u8) & 1;
            emu.registers[x as usize] = a << 1u8;
            emu.registers[FLAG_REGISTER] = msb;
        },
        _ => {},
    }
    assert(emu@ =~= run_spec(old(emu)@, inst, 0).0);
    Ok(())
}

/// The memory instructions `Fx33`, `Fx55` and `Fx65`.
fn run_memory(emu: &mut Emulation, inst: Instruction) -> (r: Result<(), EmulationError>)
    requires
        old(emu).wf(),
        inst.wf(),
        inst is Bcd || inst is StoreRegs || inst is LoadRegs,
    ensures
        final(emu).wf(),
        (final(emu)@, r) == run_spec(old(emu)@, inst, 0),
{
    let i_reg = emu.index_register as usize;
    match inst {
        Instruction::Bcd { x } => {
            if i_reg + 3 > RAM_SIZE {
                return Err(EmulationError::MemoryOutOfRange { start: i_reg, len: 3 });
            }
            // decimal hundreds, tens and ones
            let value = emu.registers[x as usize];
            emu.ram[i_reg] = value / 100;
            emu.ram[i_reg + 1] = (value / 10) % 10;
            emu.ram[i_reg + 2] = value % 10;
            assert(emu@ =~= run_spec(old(emu)@, inst, 0).0);
        },
        Instruction::StoreRegs { x } => {
            let x = x as usize;
            if i_reg + x + 1 > RAM_SIZE {
                return Err(EmulationError::MemoryOutOfRange { start: i_reg, len: x + 1 });
            }
            let mut index: usize = 0;
            while index <= x
                invariant
                    x < REGISTER_NUM,
                    i_reg == old(emu).index_register,
                    i_reg + x + 1 <= RAM_SIZE,
                    index <= x + 1,
                    emu@ == (Machine { ram: emu@.ram, ..old(emu)@ }),
                    emu.ram@.len() == RAM_SIZE,
                    forall|a: int|
                        0 <= a < RAM_SIZE ==> #[trigger] emu.ram@[a] == if i_reg <= a < i_reg + index {
                            old(emu).registers@[a - i_reg]
                        } else {
                            old(emu).ram@[a]
                        },
                decreases x + 1 - index,
            {
                emu.ram[i_reg + index] = emu.registers[index];
                index = index + 1;
            }
            assert(emu@ =~= run_spec(old(emu)@, inst, 0).0);
        },
        Instruction::LoadRegs { x } => {
            let x = x as usize;
            if i_reg + x + 1 > RAM_SIZE {
                return Err(EmulationError::MemoryOutOfRange { start: i_reg, len: x + 1 });
            }
            let mut index: usize = 0;
            while index <= x
                invariant
                    x < REGISTER_NUM,
                    i_reg == old(emu).index_register,
                    i_reg + x + 1 <= RAM_SIZE,
                    index <= x + 1,
                    emu@ == (Machine { registers: emu@.registers, ..old(emu)@ }),
                    emu.registers@.len() == REGISTER_NUM,
                    forall|k: int|
                        0 <= k < REGISTER_NUM ==> #[trigger] emu.registers@[k] == if k < index {
                            old(emu).ram@[i_reg + k]
                        } else {
                            old(emu).registers@[k]
                        },
                decreases x + 1 - index,
            {
                emu.registers[index] = emu.ram[i_reg + index];
                index = index + 1;
            }
            assert(emu@ =~= run_spec(old(emu)@, inst, 0).0);
        },
        _ => {},
    }
    Ok(())
}

/// The lowest pressed key, or the number of keys where none is pressed.
fn first_pressed_key(emu: &Emulation) -> (r: usize)
    ensures
        r == first_pressed(emu@.keys, 0),
{
    let mut i: usize = 0;
    while i < NUM_KEYS
        invariant
            i <= NUM_KEYS,
            emu.keys@.len() == NUM_KEYS,
            first_pressed(emu@.keys, 0) == first_pressed(emu@.keys, i as int),
        decreases NUM_KEYS - i,
    {
        if emu.keys[i] {
            return i;
        }
        i = i + 1;
    }
    NUM_KEYS
}

/// The instructions that move the program counter or clear the screen.
fn run_control(emu: &mut Emulation, inst: Instruction) -> (r: Result<(), EmulationError>)
    requires
        old(emu).wf(),
        inst.wf(),
        inst is Nop || inst is ClearScreen || inst is Return || inst is Jump || inst is Call
            || inst is SkipEqImm || inst is SkipNeImm || inst is SkipEqReg || inst is SkipNeReg
            || inst is JumpOffset || inst is SkipKeyPressed || inst is SkipKeyReleased,
    ensures
        final(emu).wf(),
        (final(emu)@, r) == run_spec(old(emu)@, inst, 0),
{
    match inst {
        Instruction::ClearScreen => {
            emu.frame_buffer = [false; DISPLAY_SIZE];
        },
        Instruction::Return => {
            match emu.pop() {
                Ok(ret_addr) => {
                    emu.program_counter = ret_addr;
                },
                Err(e) => {
                    return Err(e);
                },
            }
        },
        Instruction::Jump { nnn } => {
            emu.program_counter = nnn;
        },
        Instruction::Call { nnn } => {
            let pc = emu.program_counter;
            match emu.push(pc) {
                Ok(()) => {
                    emu.program_counter = nnn;
                },
                Err(e) => {
                    return Err(e);
                },
            }
        },
        Instruction::SkipEqImm { x, nn } => {
            if emu.registers[x as usize] == nn {
                emu.next_instruction();
            }
        },
        Instruction::SkipNeImm { x, nn } => {
            if emu.registers[x as usize] != nn {
                emu.next_instruction();
            }
        },
        Instruction::SkipEqReg { x, y } => {
            if emu.registers[x as usize] == emu.registers[y as usize] {
                emu.next_instruction();
            }
        },
        Instruction::SkipNeReg { x, y } => {
            if emu.registers[x as usize] != emu.registers[y as usize] {
                emu.next_instruction();
            }
        },
        Instruction::JumpOffset { nnn } => {
            emu.program_counter = emu.registers[0] as u16 + nnn;
        },
        Instruction::SkipKeyPressed { x } => {
            let key = emu.registers[x as usize];
            if key as usize >= NUM_KEYS {
                return Err(EmulationError::KeyOutOfRange { key });
            }
            if emu.keys[key as usize] {
                emu.next_instruction();
            }
        },
        Instruction::SkipKeyReleased { x } => {
            let key = emu.registers[x as usize];
            if key as usize >= NUM_KEYS {
                return Err(EmulationError::KeyOutOfRange { key });
            }
            if !emu.keys[key as usize] {
                emu.next_instruction();
            }
        },
        _ => {},
    }
    assert(emu@ =~= run_spec(old(emu)@, inst, 0).0);
    Ok(())
}

/// The instructions that set one register, a timer or the index register.
fn run_load(emu: &mut Emulation, inst: Instruction, random: u8) -> (r: Result<(), EmulationError>)
    requires
        old(emu).wf(),
        inst.wf(),
        inst is SetImm || inst is AddImm || inst is SetIndex || inst is Random || inst is GetDelay
            || inst is WaitKey || inst is SetDelay || inst is SetSound || inst is AddIndex
            || inst is FontGlyph,
    ensures
        final(emu).wf(),
        (final(emu)@, r) == run_spec(old(emu)@, inst, random),
{
    match inst {
        Instruction::SetImm { x, nn } => {
            emu.registers[x as usize] = nn;
        },
        Instruction::AddImm { x, nn } => {
            // no carry flag
            emu.registers[x as usize] = emu.registers[x as usize].wrapping_add(nn);
        },
        Instruction::SetIndex { nnn } => {
            emu.index_register = nnn;
        },
        Instruction::Random { x, nn } => {
            emu.registers[x as usize] = random & nn;
        },
        Instruction::GetDelay { x } => {
            emu.registers[x as usize] = emu.delay_timer;
        },
        Instruction::WaitKey { x } => {
            let key = first_pressed_key(emu);
            if key < NUM_KEYS {
                emu.registers[x as usize] = key as u8;
            } else {
                // poll again on the next tick
                emu.program_counter = emu.program_counter.wrapping_sub(INSTRUCTION_SIZE);
            }
        },
        Instruction::SetDelay { x } => {
            emu.delay_timer = emu.registers[x as usize];
        },
        Instruction::SetSound { x } => {
            emu.sound_timer = emu.registers[x as usize];
        },
        Instruction::AddIndex { x } => {
            // wraps at 16 bits
            emu.index_register = emu.index_register.wrapping_add(emu.registers[x as usize] as u16);
        },
        Instruction::FontGlyph { x } => {
            // glyphs are stored from address 0, five bytes each
            emu.index_register = emu.registers[x as usize] as u16 * font::GLYPH_SIZE;
        },
        _ => {},
    }
    assert(emu@ =~= run_spec(old(emu)@, inst, random).0);
    Ok(())
}

/// Executes one decoded instruction, `random` standing for the byte that a
/// random-number instruction draws.
pub fn run(emu: &mut Emulation, inst: Instruction, random: u8) -> (r: Result<(), EmulationError>)
    requires
        old(emu).wf(),
        inst.wf(),
    ensures
        final(emu).wf(),
        (final(emu)@, r) == run_spec(old(emu)@, inst, random),
{
    match inst {
        Instruction::Copy { .. } | Instruction::Or { .. } | Instruction::And { .. }
        | Instruction::Xor { .. } | Instruction::AddReg { .. } | Instruction::SubReg { .. }
        | Instruction::ShiftRight { .. } | Instruction::SubRev { .. }
        | Instruction::ShiftLeft { .. } => run_arithmetic(emu, inst),
        Instruction::Bcd { .. } | Instruction::StoreRegs { .. } | Instruction::LoadRegs { .. } => {
            run_memory(emu, inst)
        },
        Instruction::SetImm { .. } | Instruction::AddImm { .. } | Instruction::SetIndex { .. }
        | Instruction::Random { .. } | Instruction::GetDelay { .. } | Instruction::WaitKey { .. }
        | Instruction::SetDelay { .. } | Instruction::SetSound { .. } | Instruction::AddIndex { .. }
        | Instruction::FontGlyph { .. } => run_load(emu, inst, random),
        Instruction::Draw { x, y, n } => draw_sprite(emu, x as u16, y as u16, n as u16),
        _ => run_control(emu, inst),
    }
}

/// Decodes and executes `op`, with `random` standing for the byte that a
/// random-number instruction draws.
pub fn execute_with_random(emu: &mut Emulation, op: u16, random: u8) -> (r: Result<(), EmulationError>)
    requires
        old(emu).wf(),
    ensures
        final(emu).wf(),
        (final(emu)@, r) == execute_spec(old(emu)@, op, random),
{
    match decode(op) {
        None => Err(EmulationError::UnknownOpcode {
            opcode: op,
            address: emu.program_counter.wrapping_sub(INSTRUCTION_SIZE),
        }),
        Some(inst) => run(emu, inst, random),
    }
}

/// Decodes and executes `op`; a random-number instruction draws its byte
/// from the operating system, and where none can be had it fails with
/// `RandomUnavailable`, leaving the machine as it was.
pub fn execute(emu: &mut Emulation, op: u16) -> (r: Result<(), EmulationError>)
    requires
        old(emu).wf(),
    ensures
        final(emu).wf(),
        (exists|random: u8| (final(emu)@, r) == execute_spec(old(emu)@, op, random)) || (r
            == Err::<(), EmulationError>(EmulationError::RandomUnavailable) && final(emu)@ == old(emu)@
            && decode_spec(op) matches Some(Instruction::Random { .. })),
{
    let random = if (op & 0xF000) >> 12u16 == 0xC {
        match random_byte() {
            Some(b) => b,
            None => {
                return Err(EmulationError::RandomUnavailable);
            },
        }
    } else {
        0
    };
    execute_with_random(emu, op, random)
}

} // verus!
