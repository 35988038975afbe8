//! A CHIP-8 interpreter core: machine state, fetch/decode/execute, sprite
//! drawing and timers, each operation specified over a mathematical model of
//! the machine.

pub mod cpu;
pub mod emulation;
pub mod font;
pub mod instruction;
pub mod laws;
pub mod sprites;

pub use emulation::Emulation;
pub use emulation::EmulationError;
pub use emulation::SCREEN_HEIGHT;
pub use emulation::SCREEN_WIDTH;
