//! A unified memory bus for an emulated game console.
//!
//! The bus mediates every access the emulated CPU makes to the console's
//! 32-bit address space.  It decodes a flat address into one of several
//! backing stores (boot ROM, cartridge ROM, two RAM banks) or a memory-mapped
//! I/O register, performs width-correct little-endian reads and writes, and
//! forwards register writes that have side effects (enabling interrupts,
//! reconfiguring the video peripheral).
//!
//! Every access to every address produces a deterministic, defined result:
//! unmapped addresses read back an open-bus fallback and absorb writes,
//! read-only stores silently discard writes, and unaligned accesses are
//! truncated to the containing aligned unit.

pub mod bus;
pub mod bytes;
pub mod decoder;
pub mod laws;
pub mod mem;
pub mod ppu;
