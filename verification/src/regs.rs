use vstd::prelude::*;

use crate::host::ChannelF;
use crate::state::{CpuState, Cpu};

verus! {

/// The ISAR's low three bits (ISL), the octal digit that selects a register
/// within the current scratchpad segment.
pub open spec fn isl_of(isar: u8) -> u8 {
    isar & 0x7
}

/// The ISAR's high three bits (ISU), kept in place at bits 3..5.
pub open spec fn isu_of(isar: u8) -> u8 {
    isar & 0x38
}

/// The ISAR after a post-increment: only ISL moves, wrapping inside its three
/// bits; ISU is untouched.
pub open spec fn isar_inc(isar: u8) -> u8 {
    (((((isar + 1) % 256) as u8) & 0x7) + (isar & 0x38)) as u8
}

/// The ISAR after a post-decrement: only ISL moves, wrapping inside its three
/// bits; ISU is untouched.
pub open spec fn isar_dec(isar: u8) -> u8 {
    (((((isar + 255) % 256) as u8) & 0x7) + (isar & 0x38)) as u8
}

/// The ISAR discipline: post-increment and post-decrement drive only the low
/// octal digit, which cycles with period eight, so eight increments return
/// any ISAR to itself; the segment bits never change; a decrement undoes an
/// increment.
pub proof fn lemma_isar_increment_cycle(isar: u8)
    by (bit_vector)
    ensures
        isu_of(isar_inc(isar)) == isu_of(isar),
        isu_of(isar_dec(isar)) == isu_of(isar),
        isl_of(isar_inc(isar)) == ((isl_of(isar) + 1) % 8) as u8,
        isl_of(isar_dec(isar)) == ((isl_of(isar) + 7) % 8) as u8,
        isar < 64 ==> isar_inc(
            isar_inc(isar_inc(isar_inc(isar_inc(isar_inc(isar_inc(isar_inc(isar))))))),
        ) == isar,
        isar < 64 ==> isar_dec(isar_inc(isar)) == isar,
        isar_inc(isar) < 64,
        isar_dec(isar) < 64,
{
}

impl<CF: ChannelF> Cpu<CF> {
    pub(crate) fn inc_isl(&mut self)
        ensures
            final(self)@ == (CpuState { isar: isar_inc(old(self)@.isar), ..old(self)@ }),
            final(self)@.isar < 64,
    {
        proof {
            let i = self.isar;
            assert((((i + 1) % 256) as u8 & 0x7) <= 7 && (i & 0x38) <= 0x38) by (bit_vector);
        }
        self.isar = (self.isar.wrapping_add(1) & 0x7) + (self.isar & 0x38);
        proof {
            assert(self@ =~= (CpuState { isar: isar_inc(old(self)@.isar), ..old(self)@ }));
        }
    }

    pub(crate) fn dec_isl(&mut self)
        ensures
            final(self)@ == (CpuState { isar: isar_dec(old(self)@.isar), ..old(self)@ }),
            final(self)@.isar < 64,
    {
        proof {
            let i = self.isar;
            assert((((i + 255) % 256) as u8 & 0x7) <= 7 && (i & 0x38) <= 0x38) by (bit_vector);
            assert(i.wrapping_sub(1) == ((i + 255) % 256) as u8) by (bit_vector);
        }
        self.isar = (self.isar.wrapping_sub(1) & 0x7) + (self.isar & 0x38);
        proof {
            assert(self@ =~= (CpuState { isar: isar_dec(old(self)@.isar), ..old(self)@ }));
        }
    }
}

} // verus!
