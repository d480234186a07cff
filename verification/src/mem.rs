//! The backing stores of the bus: boot ROM, cartridge ROM, the two RAM
//! banks, and the bus-local interrupt-enable flag.
//!
//! The two ROM stores are immutable after load; the two RAM banks are
//! zero-initialized and mutable.  The cartridge image may be shorter than
//! its mapped bank: reads past the loaded length return the open-bus
//! fallback instead of failing.

use vstd::prelude::*;

use crate::decoder::{BIOS_SIZE, EWRAM_SIZE, IWRAM_SIZE, ROM_BANK_SIZE};

verus! {

/// A fatal failure while assembling the memory image, surfaced to the caller
/// before any emulation begins.  Every later condition (unmapped addresses,
/// writes to ROM, unimplemented registers) is absorbed with a defined
/// fallback instead.
#[derive(Clone, Copy, Debug, PartialEq, Eq, Structural)]
pub enum LoadError {
    /// The boot ROM image does not have exactly the fixed boot-ROM size.
    BiosSize,
    /// The cartridge image is larger than the bank it is mapped into.
    CartridgeTooLarge,
}

/// The main, non-I/O memory of the console, owned exclusively by the bus for
/// the session lifetime.
pub struct Memory {
    /// Boot ROM image: read-only, fixed size.
    pub bios: Vec<u8>,
    /// Cartridge ROM image: read-only, at most one bank long.
    pub rom: Vec<u8>,
    /// External RAM bank: read/write, zero-initialized.
    pub ewram: Vec<u8>,
    /// Internal RAM bank: read/write, zero-initialized.
    pub iwram: Vec<u8>,
    /// Interrupt-enable flag: a bus-local I/O register, read by the
    /// interrupt-delivery logic outside this core.
    pub ime: bool,
}

impl Memory {
    /// The stores have the sizes the memory map declares for them.
    pub open spec fn wf(self) -> bool {
        &&& self.bios@.len() == BIOS_SIZE
        &&& self.rom@.len() <= ROM_BANK_SIZE
        &&& self.ewram@.len() == EWRAM_SIZE
        &&& self.iwram@.len() == IWRAM_SIZE
    }

    /// Assemble the memory image from the loaded boot ROM and cartridge
    /// images.  Rejects an image that cannot fit the map it is loaded into;
    /// both RAM banks come up holding zeroes and interrupts come up
    /// disabled.
    pub fn new(bios: Vec<u8>, rom: Vec<u8>) -> (r: Result<Memory, LoadError>)
        ensures
            r is Ok <==> bios@.len() == BIOS_SIZE && rom@.len() <= ROM_BANK_SIZE,
            bios@.len() != BIOS_SIZE ==> r == Result::<Memory, LoadError>::Err(
                LoadError::BiosSize,
            ),
            bios@.len() == BIOS_SIZE && rom@.len() > ROM_BANK_SIZE ==> r == Result::<
                Memory,
                LoadError,
            >::Err(LoadError::CartridgeTooLarge),
            r matches Ok(m) ==> {
                &&& m.wf()
                &&& m.bios@ == bios@
                &&& m.rom@ == rom@
                &&& m.ewram@ == Seq::new(EWRAM_SIZE as nat, |i: int| 0u8)
                &&& m.iwram@ == Seq::new(IWRAM_SIZE as nat, |i: int| 0u8)
                &&& m.ime == false
            },
    {
        if bios.len() != BIOS_SIZE as usize {
            return Err(LoadError::BiosSize);
        }
        if rom.len() > ROM_BANK_SIZE as usize {
            return Err(LoadError::CartridgeTooLarge);
        }
        Ok(
            Memory {
                bios,
                rom,
                ewram: zeroed(EWRAM_SIZE as usize),
                iwram: zeroed(IWRAM_SIZE as usize),
                ime: false,
            },
        )
    }
}

/// A vector of `n` zero bytes: the power-on contents of a RAM bank.
fn zeroed(n: usize) -> (v: Vec<u8>)
    ensures
        v@ == Seq::new(n as nat, |i: int| 0u8),
{
    let mut v: Vec<u8> = Vec::new();
    let mut i: usize = 0;
    while i < n
        invariant
            i <= n,
            v@ == Seq::new(i as nat, |j: int| 0u8),
        decreases n - i,
    {
        v.push(0);
        i = i + 1;
        proof {
            assert(v@ =~= Seq::new(i as nat, |j: int| 0u8));
        }
    }
    v
}

} // verus!
