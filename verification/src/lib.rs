//! Fairchild Channel F core: an F8 (3850) CPU execution engine together with
//! the console's memory map, I/O port bank and 2102 serial SRAM. A host
//! drives the core one instruction at a time through [`Cpu::fetch`] and
//! [`Cpu::execute`] and supplies the pixel, sound and key capabilities
//! through the [`ChannelF`] trait.

pub mod alu;
pub mod host;
pub mod mem;
pub mod opcodes;
pub mod ports;
pub mod regs;
pub mod state;

pub use alu::signed_byte;
pub use host::ChannelF;
pub use host::Key;
pub use host::Sound;
pub use state::Cpu;
