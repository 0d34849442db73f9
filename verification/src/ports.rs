use vstd::prelude::*;

use crate::alu::logic_flags;
use crate::host::{ChannelF, Key, Sound};
use crate::state::{cyc, CpuState, Cpu};

verus! {

/// The 10-bit 2102 SRAM cell address held in the serial control word:
/// bits 7..0 directly, bits 9..8 taken from control-word bits 10..9.
pub open spec fn xaddr(xregister: u16) -> int {
    ((xregister & 0xff) | ((xregister >> 1) & 0x300)) as int
}

/// One step of the 2102 serial engine, run on every access to its control
/// ports. Bit 8 of the control word selects the direction: set means write
/// control-word bit 11 into the addressed cell; clear means read, replacing
/// the top bit of the control word with the addressed cell.
pub open spec fn xupd_state(s: CpuState) -> CpuState {
    if s.xregister & 0x100 != 0 {
        CpuState {
            xmemory: s.xmemory.update(xaddr(s.xregister), ((s.xregister >> 11) & 1) as u8),
            ..s
        }
    } else {
        CpuState {
            xregister: (s.xregister & 0xfff) | ((s.xmemory[xaddr(s.xregister)] as u16) << 15),
            ..s
        }
    }
}

/// The CPU state after a write of `v` to port `port`: the latch always
/// records `v`; ports 1, 4 and 5 stage the pixel colour and coordinates;
/// ports 0x20/0x24 and 0x21/0x25 load the 2102 control word's upper nibble or
/// low byte and run one serial step. Port 0's pixel emission and port 5's
/// tone selection go to the host and leave no further CPU state.
pub open spec fn outport_state(s: CpuState, port: u8, v: u8) -> CpuState {
    let t = CpuState { io_latch: s.io_latch.update(port as int, v), ..s };
    if port == 1 {
        CpuState { color: (v >> 6) ^ 0x3, ..t }
    } else if port == 4 {
        CpuState { x: (v & 0x7f) ^ 0x7f, ..t }
    } else if port == 5 {
        CpuState { y: (v & 0x3f) ^ 0x3f, ..t }
    } else if port == 0x20 || port == 0x24 {
        xupd_state(
            CpuState { xregister: (s.xregister & 0xff) | (((v & 0xf) as u16) << 8), ..t },
        )
    } else if port == 0x21 || port == 0x25 {
        xupd_state(CpuState { xregister: (s.xregister & 0xff00) | (v as u16), ..t })
    } else {
        t
    }
}

/// Relation between the state `s` before a port read and the state `post`
/// after the read value has been stored into the accumulator with logical
/// flags and `n` cycles have been charged. The button port 0 and the gated
/// controller ports 1 and 4 depend on keys the host reports, so only their
/// frame, range and gating are pinned here; how the reported keys become the
/// returned byte is pinned by [`console_buttons`] and [`controller_byte`],
/// which the read path calls. Every other port's value is exact.
pub open spec fn in_op_rel(s: CpuState, port: u8, n: u16, post: CpuState) -> bool {
    if port == 0x20 || port == 0x24 {
        let m = xupd_state(s);
        let r = (((m.xregister >> 8) & 0xff) as u8) | s.io_latch[port as int];
        post == (CpuState {
            a: r,
            flags: logic_flags(r),
            cycles: cyc(s, n),
            xregister: m.xregister,
            xmemory: m.xmemory,
            ..s
        })
    } else if port == 0x21 || port == 0x25 {
        let m = xupd_state(s);
        let r = ((m.xregister & 0xff) as u8) | s.io_latch[port as int];
        post == (CpuState {
            a: r,
            flags: logic_flags(r),
            cycles: cyc(s, n),
            xregister: m.xregister,
            xmemory: m.xmemory,
            ..s
        })
    } else if port == 0 {
        &&& post == (CpuState { a: post.a, flags: logic_flags(post.a), cycles: cyc(s, n), ..s })
        &&& post.a <= 0x0f
    } else if port == 1 || port == 4 {
        &&& post == (CpuState { a: post.a, flags: logic_flags(post.a), cycles: cyc(s, n), ..s })
        &&& (s.io_latch[0] & 0x40 != 0 ==> post.a == s.io_latch[port as int])
    } else {
        let r = s.io_latch[port as int];
        post == (CpuState { a: r, flags: logic_flags(r), cycles: cyc(s, n), ..s })
    }
}

/// The console-button nibble of port 0. Low-active: the nibble starts at
/// 0x0f and each held key clears its own bit — Start bit 0, Hold bit 1,
/// Mode bit 2, Time bit 3.
pub fn console_buttons(start: bool, hold: bool, mode: bool, time: bool) -> (res: u8)
    ensures
        res as int == 0x0f - (if start {
            1int
        } else {
            0
        }) - (if hold {
            2int
        } else {
            0
        }) - (if mode {
            4int
        } else {
            0
        }) - (if time {
            8int
        } else {
            0
        }),
{
    let mut res: u8 = 0xf;

    if start {
        res = res - 0x1;
    }

    if hold {
        res = res - 0x2;
    }

    if mode {
        res = res - 0x4;
    }

    if time {
        res = res - 0x8;
    }

    res
}

/// The controller byte of ports 1 and 4. The eight inputs occupy bits 0..7
/// in the order Right, Left, Back, Forward, CounterClockwise, Clockwise,
/// Pull, Push, and the byte is their complement: a held input reads as a
/// clear bit, an idle one as a set bit.
pub fn controller_byte(
    right: bool,
    left: bool,
    back: bool,
    forward: bool,
    counter_clockwise: bool,
    clockwise: bool,
    pull: bool,
    push: bool,
) -> (res: u8)
    ensures
        res as int == 0xff - (if right {
            1int
        } else {
            0
        }) - (if left {
            2int
        } else {
            0
        }) - (if back {
            4int
        } else {
            0
        }) - (if forward {
            8int
        } else {
            0
        }) - (if counter_clockwise {
            16int
        } else {
            0
        }) - (if clockwise {
            32int
        } else {
            0
        }) - (if pull {
            64int
        } else {
            0
        }) - (if push {
            128int
        } else {
            0
        }),
{
    let mut res: u8 = 0xff;

    if right {
        res = res - 1;
    }

    if left {
        res = res - 2;
    }

    if back {
        res = res - 4;
    }

    if forward {
        res = res - 8;
    }

    if counter_clockwise {
        res = res - 16;
    }

    if clockwise {
        res = res - 32;
    }

    if pull {
        res = res - 64;
    }

    if push {
        res = res - 128;
    }

    res
}

/// The tone a write of `v` to port 5 selects: the value's top two bits pick
/// among silence and the three fixed frequencies.
pub fn sound_of(v: u8) -> (tone: Sound)
    ensures
        v >> 6 == 0 ==> tone == Sound::Silence,
        v >> 6 == 1 ==> tone == Sound::Frequency1Khz,
        v >> 6 == 2 ==> tone == Sound::Frequency500Hz,
        v >> 6 == 3 ==> tone == Sound::Frequency120Hz,
        v >> 6 <= 3,
{
    proof {
        assert(v >> 6 <= 3) by (bit_vector);
    }
    let selection: u8 = v >> 6;
    if selection == 0 {
        Sound::Silence
    } else if selection == 1 {
        Sound::Frequency1Khz
    } else if selection == 2 {
        Sound::Frequency500Hz
    } else {
        Sound::Frequency120Hz
    }
}

impl<CF: ChannelF> Cpu<CF> {
    /// One step of the 2102 serial engine on the live control word.
    pub(crate) fn xmemory_update(&mut self)
        ensures
            final(self)@ == xupd_state(old(self)@),
    {
        let addr16: u16 = (self.xregister & 0xff) | ((self.xregister >> 1) & 0x300);
        proof {
            let x = self.xregister;
            assert(((x & 0xff) | ((x >> 1) & 0x300)) < 0x400) by (bit_vector);
        }
        let addr = addr16 as usize;
        if self.xregister & 0x100 != 0 {
            self.xmemory[addr] = ((self.xregister >> 11) & 1) as u8;
        } else {
            self.xregister = (self.xregister & 0xfff) | ((self.xmemory[addr] as u16) << 15);
        }
        proof {
            assert(self@ =~= xupd_state(old(self)@));
        }
    }

    /// Read port `port`. The button and controller ports ask the host which
    /// keys are held and encode them through [`console_buttons`] and
    /// [`controller_byte`]; the 2102 control ports run one serial step and
    /// expose the control word; every other port reads back its latch.
    pub(crate) fn inport(&mut self, port: u8) -> (res: u8)
        ensures
            (port == 0x20 || port == 0x24) ==> final(self)@ == xupd_state(old(self)@) && res == ((((
            final(self)@.xregister >> 8) & 0xff) as u8) | old(self)@.io_latch[port as int]),
            (port == 0x21 || port == 0x25) ==> final(self)@ == xupd_state(old(self)@) && res == (((
            final(self)@.xregister & 0xff) as u8) | old(self)@.io_latch[port as int]),
            port == 0 ==> final(self)@ == old(self)@ && res <= 0x0f,
            (port == 1 || port == 4) ==> final(self)@ == old(self)@ && (old(self)@.io_latch[0]
                & 0x40 != 0 ==> res == old(self)@.io_latch[port as int]),
            !(port == 0 || port == 1 || port == 4 || port == 0x20 || port == 0x21 || port == 0x24
                || port == 0x25) ==> final(self)@ == old(self)@ && res == old(
                self,
            )@.io_latch[port as int],
    {
        if port == 0 {
            return console_buttons(
                self.channel_f.key_pressed(Key::Start),
                self.channel_f.key_pressed(Key::Hold),
                self.channel_f.key_pressed(Key::Mode),
                self.channel_f.key_pressed(Key::Time),
            );
        }

        if port == 1 {
            let reading = controller_byte(
                self.channel_f.key_pressed(Key::Right0),
                self.channel_f.key_pressed(Key::Left0),
                self.channel_f.key_pressed(Key::Back0),
                self.channel_f.key_pressed(Key::Forward0),
                self.channel_f.key_pressed(Key::CounterClockwise0),
                self.channel_f.key_pressed(Key::Clockwise0),
                self.channel_f.key_pressed(Key::Pull0),
                self.channel_f.key_pressed(Key::Push0),
            );

            if self.io_latch[0] & 0x40 == 0 {
                return reading;
            }
        }

        if port == 4 {
            let reading = controller_byte(
                self.channel_f.key_pressed(Key::Right1),
                self.channel_f.key_pressed(Key::Left1),
                self.channel_f.key_pressed(Key::Back1),
                self.channel_f.key_pressed(Key::Forward1),
                self.channel_f.key_pressed(Key::CounterClockwise1),
                self.channel_f.key_pressed(Key::Clockwise1),
                self.channel_f.key_pressed(Key::Pull1),
                self.channel_f.key_pressed(Key::Push1),
            );

            if self.io_latch[0] & 0x40 == 0 {
                return reading;
            }
        }

        if port == 0x20 || port == 0x24 {
            self.xmemory_update();
            return (((self.xregister >> 8) & 0xff) as u8) | self.io_latch[port as usize];
        }

        if port == 0x21 || port == 0x25 {
            self.xmemory_update();
            return ((self.xregister & 0xff) as u8) | self.io_latch[port as usize];
        }

        self.io_latch[port as usize]
    }

    /// Write `v` to port `port`: latch it, stage pixel state, emit the tone
    /// that [`sound_of`] selects or a pixel request to the host, or drive the
    /// 2102 serial engine.
    pub(crate) fn outport(&mut self, port: u8, v: u8)
        ensures
            final(self)@ == outport_state(old(self)@, port, v),
    {
        let old_latch = self.io_latch[port as usize];
        self.io_latch[port as usize] = v;

        if port == 1 {
            self.color = (v >> 6) ^ 0x3;
        } else if port == 4 {
            self.x = (v & 0x7f) ^ 0x7f;
        } else if port == 5 {
            self.y = (v & 0x3f) ^ 0x3f;

            let tone = sound_of(v);
            self.channel_f.sound(tone);
        } else if port == 0 {
            if v & 0x20 == 0 && old_latch & 0x20 != 0 {
                self.channel_f.set_pixel(self.x, self.y, self.color);
            }
        } else if port == 0x20 || port == 0x24 {
            self.xregister = (self.xregister & 0xff) | (((v & 0xf) as u16) << 8);
            self.xmemory_update();
        } else if port == 0x21 || port == 0x25 {
            self.xregister = (self.xregister & 0xff00) | (v as u16);
            self.xmemory_update();
        }

        proof {
            assert(self@ =~= outport_state(old(self)@, port, v));
        }
    }
}

} // verus!
