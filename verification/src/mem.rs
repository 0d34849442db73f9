use vstd::prelude::*;

use crate::host::ChannelF;
use crate::state::{after_fetch, CpuState, Cpu};

verus! {

/// What a read of address `addr` returns: the two BIOS banks, then the
/// cartridge window, then the on-cartridge RAM; every unmapped address, and
/// every address past the end of a borrowed image, reads as 0xff.
pub open spec fn mem_read(s: CpuState, addr: u16) -> u8 {
    if addr < 0x400 {
        if addr < s.rom_a.len() {
            s.rom_a[addr as int]
        } else {
            0xff
        }
    } else if addr < 0x800 {
        if addr - 0x400 < s.rom_b.len() {
            s.rom_b[addr - 0x400]
        } else {
            0xff
        }
    } else if addr < 0x2800 {
        if addr - 0x800 < s.cartridge.len() {
            s.cartridge[addr - 0x800]
        } else {
            0xff
        }
    } else if addr < 0x3000 {
        s.ram[addr - 0x2800]
    } else {
        0xff
    }
}

/// What the on-cartridge RAM holds after a write of `v` to `addr`: only the
/// window 0x2800..=0x2fff is writable, every other write is dropped.
pub open spec fn ram_after_write(s: CpuState, addr: u16, v: u8) -> Seq<u8> {
    if 0x2800 <= addr < 0x3000 {
        s.ram.update(addr - 0x2800, v)
    } else {
        s.ram
    }
}

/// A read anywhere in the address space never fails; past the end of a
/// cartridge of any length, and on every unmapped address, it yields 0xff.
pub proof fn lemma_cartridge_fallback(s: CpuState, addr: u16)
    requires
        0x800 + s.cartridge.len() <= addr <= 0x27ff,
    ensures
        mem_read(s, addr) == 0xff,
{
}

impl<CF: ChannelF> Cpu<CF> {
    /// Read one instruction-stream byte at PC0 and advance PC0 (mod 2^16).
    pub fn fetch(&mut self) -> (res: u8)
        ensures
            res == mem_read(old(self)@, old(self)@.pc0),
            final(self)@ == after_fetch(old(self)@),
    {
        let res = self.get_from_memory(self.pc0);
        self.pc0 = self.pc0.wrapping_add(1);
        proof {
            assert(self@ =~= after_fetch(old(self)@));
        }
        res
    }

    pub(crate) fn get_from_memory(&self, addr: u16) -> (res: u8)
        ensures
            res == mem_read(self@, addr),
    {
        let addr = addr as usize;
        if addr < 0x400 {
            if addr < self.memory_0000.len() {
                self.memory_0000[addr]
            } else {
                0xff
            }
        } else if addr < 0x800 {
            if addr - 0x400 < self.memory_0400.len() {
                self.memory_0400[addr - 0x400]
            } else {
                0xff
            }
        } else if addr < 0x2800 {
            if addr - 0x800 < self.memory_0800.len() {
                self.memory_0800[addr - 0x800]
            } else {
                0xff
            }
        } else if addr < 0x3000 {
            self.ram_2800[addr - 0x2800]
        } else {
            0xff
        }
    }

    pub(crate) fn read(&self, addr: u16) -> (res: u8)
        ensures
            res == mem_read(self@, addr),
    {
        if addr < 0x4000 {
            self.get_from_memory(addr)
        } else {
            0xff
        }
    }

    pub(crate) fn write(&mut self, addr: u16, v: u8)
        ensures
            final(self)@ == (CpuState { ram: ram_after_write(old(self)@, addr, v), ..old(self)@ }),
    {
        if 0x2800 <= addr && addr < 0x3000 {
            self.ram_2800[(addr - 0x2800) as usize] = v;
        }
        proof {
            assert(self@ =~= (CpuState { ram: ram_after_write(old(self)@, addr, v), ..old(self)@ }));
        }
    }
}

} // verus!
