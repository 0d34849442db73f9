use vstd::prelude::*;

use crate::host::ChannelF;

verus! {

/// Mathematical model of the complete CPU state. Every contract of the core
/// speaks of values of this type, obtained through the view of [`Cpu`].
#[verifier::ext_equal]
pub ghost struct CpuState {
    pub a: u8,
    pub scratchpad: Seq<u8>,
    pub isar: u8,
    pub flags: u8,
    pub icb_flag: u8,

    pub pc0: u16,
    pub pc1: u16,
    pub dc0: u16,
    pub dc1: u16,

    pub cycles: u16,

    pub rom_a: Seq<u8>,
    pub rom_b: Seq<u8>,
    pub cartridge: Seq<u8>,
    pub ram: Seq<u8>,

    pub xmemory: Seq<u8>,
    pub xregister: u16,

    pub io_latch: Seq<u8>,

    pub x: u8,
    pub y: u8,
    pub color: u8,
}

impl CpuState {
    /// Structural invariant: the buffers have their fixed sizes, the ISAR is a
    /// 6-bit pointer, the flag byte holds only the four flag bits, and the
    /// interrupt control bit is either clear or exactly 0x10.
    pub open spec fn wf(self) -> bool {
        &&& self.scratchpad.len() == 64
        &&& self.ram.len() == 0x800
        &&& self.xmemory.len() == 0x400
        &&& self.io_latch.len() == 256
        &&& self.isar < 64
        &&& self.flags < 16
        &&& (self.icb_flag == 0 || self.icb_flag == 0x10)
    }
}

/// 16-bit wraparound for the program and data counters; `n` may be a small
/// negative displacement.
pub open spec fn wadd16(a: u16, n: int) -> u16 {
    if a + n > 0xffff {
        (a + n - 0x10000) as u16
    } else if a + n < 0 {
        (a + n + 0x10000) as u16
    } else {
        (a + n) as u16
    }
}

/// The cycle counter after charging `n` more cycles.
pub open spec fn cyc(s: CpuState, n: u16) -> u16 {
    wadd16(s.cycles, n as int)
}

/// The state right after one more instruction-stream byte has been consumed.
pub open spec fn after_fetch(s: CpuState) -> CpuState {
    CpuState { pc0: wadd16(s.pc0, 1), ..s }
}

/// The state a freshly constructed CPU is in: all registers cleared, the
/// external 2102 SRAM cells all ones (uninitialized hardware), the borrowed
/// ROM images recorded as given.
pub open spec fn init_state(rom_a: Seq<u8>, rom_b: Seq<u8>, cartridge: Seq<u8>) -> CpuState {
    CpuState {
        a: 0,
        scratchpad: Seq::new(64, |i: int| 0u8),
        isar: 0,
        flags: 0,
        icb_flag: 0,
        pc0: 0,
        pc1: 0,
        dc0: 0,
        dc1: 0,
        cycles: 0,
        rom_a: rom_a,
        rom_b: rom_b,
        cartridge: cartridge,
        ram: Seq::new(0x800, |i: int| 0u8),
        xmemory: Seq::new(0x400, |i: int| 1u8),
        xregister: 0,
        io_latch: Seq::new(256, |i: int| 0u8),
        x: 0,
        y: 0,
        color: 0,
    }
}

/// The Fairchild F8 CPU core together with the console state it owns.
/// `CF` is the host capability surface; the core holds it only to raise
/// pixel, sound and key-query requests.
pub struct Cpu<CF: ChannelF> {
    pub a: u8,
    pub scratchpad: [u8; 64],
    pub isar: u8,
    pub flags: u8,
    pub icb_flag: u8,

    pub pc0: u16,
    pub pc1: u16,
    pub dc0: u16,
    pub dc1: u16,

    pub cycles: u16,

    pub memory_0000: Vec<u8>,
    pub memory_0400: Vec<u8>,
    pub memory_0800: Vec<u8>,
    pub ram_2800: [u8; 0x800],

    pub xmemory: [u8; 0x400],
    pub xregister: u16,

    pub channel_f: CF,

    pub io_latch: [u8; 256],

    pub x: u8,
    pub y: u8,
    pub color: u8,
}

impl<CF: ChannelF> View for Cpu<CF> {
    type V = CpuState;

    open spec fn view(&self) -> CpuState {
        CpuState {
            a: self.a,
            scratchpad: self.scratchpad@,
            isar: self.isar,
            flags: self.flags,
            icb_flag: self.icb_flag,
            pc0: self.pc0,
            pc1: self.pc1,
            dc0: self.dc0,
            dc1: self.dc1,
            cycles: self.cycles,
            rom_a: self.memory_0000@,
            rom_b: self.memory_0400@,
            cartridge: self.memory_0800@,
            ram: self.ram_2800@,
            xmemory: self.xmemory@,
            xregister: self.xregister,
            io_latch: self.io_latch@,
            x: self.x,
            y: self.y,
            color: self.color,
        }
    }
}

impl<CF: ChannelF> Cpu<CF> {
    /// Build a CPU over the two BIOS images and the cartridge image. The byte
    /// slices are copied in; the host capability object is taken over.
    pub fn new(rom_0: &[u8], rom_400: &[u8], cartridge: &[u8], channel_f: CF) -> (cpu: Cpu<CF>)
        ensures
            cpu@ == init_state(rom_0@, rom_400@, cartridge@),
            cpu@.wf(),
    {
        let cpu = Cpu {
            a: 0,
            scratchpad: [0u8; 64],
            isar: 0,
            flags: 0,
            icb_flag: 0,
            pc0: 0,
            pc1: 0,
            dc0: 0,
            dc1: 0,
            cycles: 0,
            memory_0000: vstd::slice::slice_to_vec(rom_0),
            memory_0400: vstd::slice::slice_to_vec(rom_400),
            memory_0800: vstd::slice::slice_to_vec(cartridge),
            ram_2800: [0u8; 0x800],

            xmemory: [1u8; 0x400],
            xregister: 0,

            channel_f: channel_f,
            io_latch: [0u8; 256],

            x: 0,
            y: 0,
            color: 0,
        };
        proof {
            assert(cpu@ =~= init_state(rom_0@, rom_400@, cartridge@));
        }
        cpu
    }

    /// Power-on reset: only the two program counters are cleared; every other
    /// register, the scratchpad and the latches keep their values.
    pub fn reset(&mut self)
        ensures
            final(self)@ == (CpuState { pc0: 0, pc1: 0, ..old(self)@ }),
    {
        self.pc0 = 0;
        self.pc1 = 0;
        proof {
            assert(self@ =~= (CpuState { pc0: 0, pc1: 0, ..old(self)@ }));
        }
    }
}

} // verus!
