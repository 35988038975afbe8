use vstd::prelude::*;

use crate::cpu;
use crate::font;
use crate::instruction::{decode_spec, Instruction};

verus! {

pub const SCREEN_WIDTH: usize = 64;
pub const SCREEN_HEIGHT: usize = 32;
pub const DISPLAY_SIZE: usize = 2048;
pub const INSTRUCTION_SIZE: u16 = 2;

pub const RAM_SIZE: usize = 4096;
pub const REGISTER_NUM: usize = 16;
pub const NUM_KEYS: usize = 16;
pub const STACK_SIZE: usize = 16;

/// The contents of a ROM are copied to this address.
pub const START_ADDRESS: u16 = 0x200;

/// The register that receives carry, borrow, shifted-out bit and collision.
pub const FLAG_REGISTER: usize = 0xF;

/// A fault raised by one operation of the machine. The operation that
/// raises it leaves the machine as it found it (a failing instruction has
/// only had its fetch applied).
#[derive(Debug, Clone, Copy, PartialEq, Eq, Structural)]
pub enum EmulationError {
    /// The ROM does not fit between the start address and the end of memory.
    RomTooLarge { len: usize },
    /// The fetched word is no instruction; `address` is where it was fetched.
    UnknownOpcode { opcode: u16, address: u16 },
    /// A call with all stack entries in use.
    StackOverflow,
    /// A return with an empty stack.
    StackUnderflow,
    /// An access of `len` bytes from `start` reaches past the end of memory.
    MemoryOutOfRange { start: usize, len: usize },
    /// A random-number instruction found no random byte to draw.
    RandomUnavailable,
    /// A key instruction names a key beyond the sixteen of the keypad.
    KeyOutOfRange { key: u8 },
}

/// The state of the machine as mathematical values.
#[verifier::ext_equal]
pub struct Machine {
    pub pc: u16,
    pub ram: Seq<u8>,
    pub display: Seq<bool>,
    pub registers: Seq<u8>,
    pub index: u16,
    pub sp: u16,
    pub stack: Seq<u16>,
    pub keys: Seq<bool>,
    pub delay_timer: u8,
    pub sound_timer: u8,
}

impl Machine {
    /// The stack pointer never passes the stack's capacity; the sizes of the
    /// sequences are those of the machine.
    pub open spec fn wf(self) -> bool {
        &&& self.sp <= STACK_SIZE
        &&& self.ram.len() == RAM_SIZE
        &&& self.display.len() == DISPLAY_SIZE
        &&& self.registers.len() == REGISTER_NUM
        &&& self.stack.len() == STACK_SIZE
        &&& self.keys.len() == NUM_KEYS
    }
}

/// Memory right after construction: the font at address 0, zero elsewhere.
pub open spec fn initial_ram() -> Seq<u8> {
    Seq::new(RAM_SIZE as nat, |a: int| if a < font::SET_SIZE { font::glyphs()[a] } else { 0u8 })
}

/// The machine right after construction or reset.
pub open spec fn initial_machine() -> Machine {
    Machine {
        pc: START_ADDRESS,
        ram: initial_ram(),
        display: Seq::new(DISPLAY_SIZE as nat, |i: int| false),
        registers: Seq::new(REGISTER_NUM as nat, |i: int| 0u8),
        index: 0,
        sp: 0,
        stack: Seq::new(STACK_SIZE as nat, |i: int| 0u16),
        keys: Seq::new(NUM_KEYS as nat, |i: int| false),
        delay_timer: 0,
        sound_timer: 0,
    }
}

/// `v` reduced modulo 2^16.
pub open spec fn wrap16(v: int) -> u16 {
    (v % 0x10000) as u16
}

/// The result of loading `rom`: its bytes placed from the start address on.
pub open spec fn load_spec(m: Machine, rom: Seq<u8>) -> (Machine, Result<(), EmulationError>) {
    if START_ADDRESS + rom.len() > RAM_SIZE {
        (m, Err(EmulationError::RomTooLarge { len: rom.len() as usize }))
    } else {
        (
            Machine {
                ram: Seq::new(
                    RAM_SIZE as nat,
                    |a: int|
                        if START_ADDRESS <= a < START_ADDRESS + rom.len() {
                            rom[a - START_ADDRESS]
                        } else {
                            m.ram[a]
                        },
                ),
                ..m
            },
            Ok(()),
        )
    }
}

/// The big-endian word at `pc`.
pub open spec fn opcode_at(ram: Seq<u8>, pc: int) -> u16 {
    (ram[pc] as int * 256 + ram[pc + 1] as int) as u16
}

/// Fetching: the word at `pc`, with `pc` moved past it; or a fault where the
/// word does not lie wholly in memory.
pub open spec fn fetch_spec(m: Machine) -> (Machine, Result<u16, EmulationError>) {
    if m.pc + 1 >= RAM_SIZE {
        (m, Err(EmulationError::MemoryOutOfRange { start: m.pc as usize, len: 2 }))
    } else {
        (Machine { pc: (m.pc + INSTRUCTION_SIZE) as u16, ..m }, Ok(opcode_at(m.ram, m.pc as int)))
    }
}

/// One step of the machine: fetch, then execute what was fetched, `random`
/// standing for the byte that a random-number instruction draws.
pub open spec fn tick_spec(m: Machine, random: u8) -> (Machine, Result<(), EmulationError>) {
    let (m1, fetched) = fetch_spec(m);
    match fetched {
        Err(e) => (m1, Err(e)),
        Ok(op) => cpu::execute_spec(m1, op, random),
    }
}

/// Whether `m` fetches a random-number instruction, `after` being the
/// machine with only that fetch applied.
pub open spec fn random_fetched(m: Machine, after: Machine) -> bool {
    match fetch_spec(m) {
        (fetched, Ok(op)) => after == fetched && match decode_spec(op) {
            Some(Instruction::Random { .. }) => true,
            _ => false,
        },
        _ => false,
    }
}

/// One timer tick: each timer moves one step towards zero.
pub open spec fn tick_timers_spec(m: Machine) -> Machine {
    Machine {
        delay_timer: if m.delay_timer > 0 { (m.delay_timer - 1) as u8 } else { 0 },
        sound_timer: if m.sound_timer > 0 { (m.sound_timer - 1) as u8 } else { 0 },
        ..m
    }
}

pub struct Emulation {
    pub(crate) program_counter: u16,
    pub(crate) ram: [u8; RAM_SIZE],
    pub(crate) frame_buffer: [bool; DISPLAY_SIZE],
    pub(crate) registers: [u8; REGISTER_NUM],
    pub(crate) index_register: u16,
    pub(crate) stack_pointer: u16,
    pub(crate) stack: [u16; STACK_SIZE],
    pub(crate) keys: [bool; NUM_KEYS],
    pub(crate) delay_timer: u8,
    pub(crate) sound_timer: u8,
}

impl View for Emulation {
    type V = Machine;

    open(crate) spec fn view(&self) -> Machine {
        Machine {
            pc: self.program_counter,
            ram: self.ram@,
            display: self.frame_buffer@,
            registers: self.registers@,
            index: self.index_register,
            sp: self.stack_pointer,
            stack: self.stack@,
            keys: self.keys@,
            delay_timer: self.delay_timer,
            sound_timer: self.sound_timer,
        }
    }
}

impl Emulation {
    pub open spec fn wf(&self) -> bool {
        self@.wf()
    }

    pub fn new() -> (r: Self)
        ensures
            r@ == initial_machine(),
            r.wf(),
    {
        let mut new_emulation = Emulation {
            program_counter: START_ADDRESS,
            ram: [0u8; RAM_SIZE],
            frame_buffer: [false; DISPLAY_SIZE],
            registers: [0u8; REGISTER_NUM],
            index_register: 0,
            stack_pointer: 0,
            stack: [0u16; STACK_SIZE],
            keys: [false; NUM_KEYS],
            delay_timer: 0,
            sound_timer: 0,
        };
        // the font lives in the otherwise unused memory below the ROM
        let set = font::set();
        let mut i: usize = 0;
        while i < font::SET_SIZE
            invariant
                i <= font::SET_SIZE,
                set@ == font::glyphs(),
                new_emulation.ram@.len() == RAM_SIZE,
                forall|a: int|
                    0 <= a < RAM_SIZE ==> #[trigger] new_emulation.ram@[a] == if a < i {
                        font::glyphs()[a]
                    } else {
                        0u8
                    },
                new_emulation.program_counter == START_ADDRESS,
                new_emulation.frame_buffer@ =~= Seq::new(DISPLAY_SIZE as nat, |j: int| false),
                new_emulation.registers@ =~= Seq::new(REGISTER_NUM as nat, |j: int| 0u8),
                new_emulation.index_register == 0,
                new_emulation.stack_pointer == 0,
                new_emulation.stack@ =~= Seq::new(STACK_SIZE as nat, |j: int| 0u16),
                new_emulation.keys@ =~= Seq::new(NUM_KEYS as nat, |j: int| false),
                new_emulation.delay_timer == 0,
                new_emulation.sound_timer == 0,
            decreases font::SET_SIZE - i,
        {
            new_emulation.ram[i] = set[i];
            i = i + 1;
        }
        assert(new_emulation@ =~= initial_machine());
        new_emulation
    }

    /// Puts every part of the machine back to its state after construction.
    pub fn reset(&mut self)
        ensures
            final(self)@ == initial_machine(),
            final(self).wf(),
    {
        *self = Emulation::new();
    }

    /// The frame buffer, row by row, `true` where a pixel is lit.
    pub fn get_display(&self) -> (r: &[bool])
        ensures
            r@ == self@.display,
    {
        self.frame_buffer.as_slice()
    }

    /// The address of the next instruction.
    pub fn program_counter(&self) -> (r: u16)
        ensures
            r == self@.pc,
    {
        self.program_counter
    }

    /// The whole memory.
    pub fn ram(&self) -> (r: &[u8])
        ensures
            r@ == self@.ram,
    {
        self.ram.as_slice()
    }

    /// The sixteen general registers, the flag register last.
    pub fn registers(&self) -> (r: &[u8])
        ensures
            r@ == self@.registers,
    {
        self.registers.as_slice()
    }

    /// The index register.
    pub fn index_register(&self) -> (r: u16)
        ensures
            r == self@.index,
    {
        self.index_register
    }

    /// The number of return addresses on the stack.
    pub fn stack_pointer(&self) -> (r: u16)
        ensures
            r == self@.sp,
    {
        self.stack_pointer
    }

    /// The stack's entries, including those above the stack pointer.
    pub fn stack(&self) -> (r: &[u16])
        ensures
            r@ == self@.stack,
    {
        self.stack.as_slice()
    }

    /// The state of each key, `true` where pressed.
    pub fn keys(&self) -> (r: &[bool])
        ensures
            r@ == self@.keys,
    {
        self.keys.as_slice()
    }

    /// The delay timer.
    pub fn delay_timer(&self) -> (r: u8)
        ensures
            r == self@.delay_timer,
    {
        self.delay_timer
    }

    /// The sound timer; a host sounds its tone while it is above zero.
    pub fn sound_timer(&self) -> (r: u8)
        ensures
            r == self@.sound_timer,
    {
        self.sound_timer
    }

    /// Sets the state of key `index`.
    pub fn key_press(&mut self, index: usize, pressed: bool)
        requires
            index < NUM_KEYS,
        ensures
            final(self)@ == (Machine { keys: old(self)@.keys.update(index as int, pressed), ..old(self)@ }),
    {
        self.keys[index] = pressed;
        assert(self@ =~= (Machine { keys: old(self)@.keys.update(index as int, pressed), ..old(self)@ }));
    }

    /// Copies `data` into memory from the start address on; a ROM that would
    /// reach past the end of memory is refused and nothing is copied.
    pub fn load(&mut self, data: &[u8]) -> (r: Result<(), EmulationError>)
        ensures
            (final(self)@, r) == load_spec(old(self)@, data@),
    {
        let start = START_ADDRESS as usize;
        if data.len() > RAM_SIZE - start {
            return Err(EmulationError::RomTooLarge { len: data.len() });
        }
        let mut i: usize = 0;
        while i < data.len()
            invariant
                i <= data@.len(),
                start + data@.len() <= RAM_SIZE,
                start == START_ADDRESS,
                self@ == (Machine { ram: self@.ram, ..old(self)@ }),
                self.ram@.len() == RAM_SIZE,
                forall|a: int|
                    0 <= a < RAM_SIZE ==> #[trigger] self.ram@[a] == if start <= a < start + i {
                        data@[a - start]
                    } else {
                        old(self).ram@[a]
                    },
            decreases data@.len() - i,
        {
            self.ram[start + i] = data[i];
            i = i + 1;
        }
        assert(self@ =~= load_spec(old(self)@, data@).0);
        Ok(())
    }

    /// Pushes a return address; a full stack is a fault.
    pub(crate) fn push(&mut self, val: u16) -> (r: Result<(), EmulationError>)
        requires
            old(self).wf(),
        ensures
            final(self).wf(),
            old(self).stack_pointer >= STACK_SIZE ==> final(self)@ == old(self)@ && r == Err::<(), EmulationError>(EmulationError::StackOverflow),
            old(self).stack_pointer < STACK_SIZE ==> r is Ok && final(self)@ == (Machine {
                stack: old(self)@.stack.update(old(self).stack_pointer as int, val),
                sp: (old(self).stack_pointer + 1) as u16,
                ..old(self)@
            }),
    {
        if self.stack_pointer as usize >= STACK_SIZE {
            return Err(EmulationError::StackOverflow);
        }
        self.stack[self.stack_pointer as usize] = val;
        self.stack_pointer += 1;
        Ok(())
    }

    /// Pops a return address; an empty stack is a fault.
    pub(crate) fn pop(&mut self) -> (r: Result<u16, EmulationError>)
        requires
            old(self).wf(),
        ensures
            final(self).wf(),
            old(self).stack_pointer == 0 ==> final(self)@ == old(self)@ && r == Err::<u16, EmulationError>(EmulationError::StackUnderflow),
            old(self).stack_pointer > 0 ==> r == Ok::<u16, EmulationError>(old(self)@.stack[old(self).stack_pointer - 1])
                && final(self)@ == (Machine { sp: (old(self).stack_pointer - 1) as u16, ..old(self)@ }),
    {
        if self.stack_pointer == 0 {
            return Err(EmulationError::StackUnderflow);
        }
        self.stack_pointer -= 1;
        Ok(self.stack[self.stack_pointer as usize])
    }

    /// Moves the program counter past one instruction.
    pub(crate) fn next_instruction(&mut self)
        ensures
            final(self)@ == (Machine { pc: wrap16(old(self).program_counter + INSTRUCTION_SIZE), ..old(self)@ }),
    {
        self.program_counter = self.program_counter.wrapping_add(INSTRUCTION_SIZE);
    }

    /// Reads the big-endian word at the program counter and moves the
    /// program counter past it.
    fn fetch(&mut self) -> (r: Result<u16, EmulationError>)
        ensures
            (final(self)@, r) == fetch_spec(old(self)@),
    {
        let pc = self.program_counter as usize;
        if pc + 1 >= RAM_SIZE {
            return Err(EmulationError::MemoryOutOfRange { start: pc, len: 2 });
        }
        let first_byte = self.ram[pc] as u16;
        let second_byte = self.ram[pc + 1] as u16;
        let op = (first_byte << 8u16) | second_byte;
        assert(op == first_byte * 256 + second_byte) by (bit_vector)
            requires
                first_byte < 256,
                second_byte < 256,
                op == (first_byte << 8u16) | second_byte,
        ;
        self.program_counter += INSTRUCTION_SIZE;
        Ok(op)
    }

    /// Executes one instruction: fetch, decode, execute. A random-number
    /// instruction draws its byte from the operating system; where none can
    /// be had it fails with `RandomUnavailable` after its fetch.
    pub fn tick(&mut self) -> (r: Result<(), EmulationError>)
        requires
            old(self).wf(),
        ensures
            final(self).wf(),
            (exists|random: u8| (final(self)@, r) == tick_spec(old(self)@, random)) || (r
                == Err::<(), EmulationError>(EmulationError::RandomUnavailable) && random_fetched(
                old(self)@,
                final(self)@,
            )),
    {
        let op = match self.fetch() {
            Ok(op) => op,
            Err(e) => {
                assert((self@, Err::<(), EmulationError>(e)) == tick_spec(old(self)@, 0));
                return Err(e);
            },
        };
        let ghost fetched = self@;
        let r = cpu::execute(self, op);
        proof {
            if exists|random: u8| (self@, r) == cpu::execute_spec(fetched, op, random) {
                let random = choose|random: u8| (self@, r) == cpu::execute_spec(fetched, op, random);
                assert((self@, r) == tick_spec(old(self)@, random));
            }
        }
        r
    }

    /// Executes one instruction, `random` standing for the byte that a
    /// random-number instruction draws.
    pub fn tick_with_random(&mut self, random: u8) -> (r: Result<(), EmulationError>)
        requires
            old(self).wf(),
        ensures
            final(self).wf(),
            (final(self)@, r) == tick_spec(old(self)@, random),
    {
        match self.fetch() {
            Ok(op) => cpu::execute_with_random(self, op, random),
            Err(e) => Err(e),
        }
    }

    /// Decrements each timer that has not reached zero. The sound timer going
    /// from one to zero is where a host sounds its tone.
    pub fn tick_timers(&mut self)
        ensures
            final(self)@ == tick_timers_spec(old(self)@),
    {
        if self.delay_timer > 0 {
            self.delay_timer -= 1;
        }
        if self.sound_timer > 0 {
            self.sound_timer -= 1;
        }
    }
}

} // verus!
