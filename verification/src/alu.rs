use vstd::prelude::*;

use crate::host::ChannelF;
use crate::state::{CpuState, Cpu};

verus! {

/// The byte an 8-bit binary add with carry-in leaves in the accumulator.
pub open spec fn add_result(v1: u8, v2: u8, c: u8) -> u8 {
    ((v1 + v2 + c) % 256) as u8
}

/// The flag byte a binary add leaves behind: sign (bit 0) set when the result
/// is below 0x80, carry (bit 1) when the 9-bit sum overflows a byte, zero
/// (bit 2) when the result is 0, overflow (bit 3) from the two's-complement
/// overflow rule. The four contributions occupy disjoint bits.
pub open spec fn add_flags(v1: u8, v2: u8, c: u8) -> u8 {
    let r = add_result(v1, v2, c);
    ((if r < 0x80 {
        1int
    } else {
        0int
    }) + (if v1 + v2 + c >= 256 {
        2int
    } else {
        0int
    }) + (if r == 0 {
        4int
    } else {
        0int
    }) + (if (v1 ^ r) & (v2 ^ r) & 0x80 != 0 {
        8int
    } else {
        0int
    })) as u8
}

/// The flag byte a logical or shift operation leaves behind: only sign and
/// zero can be set; carry and overflow are cleared.
pub open spec fn logic_flags(v: u8) -> u8 {
    if v == 0 {
        5u8
    } else if v < 0x80 {
        1u8
    } else {
        0u8
    }
}

/// Each flag bit of `add_flags` in isolation, and the bound the flag byte
/// obeys.
pub proof fn lemma_add_flags_bits(v1: u8, v2: u8, c: u8)
    by (bit_vector)
    requires
        c <= 1,
    ensures
        (add_flags(v1, v2, c) & 1 != 0) <==> (add_result(v1, v2, c) < 0x80),
        (add_flags(v1, v2, c) & 2 != 0) <==> (v1 + v2 + c >= 256),
        (add_flags(v1, v2, c) & 4 != 0) <==> (add_result(v1, v2, c) == 0),
        (add_flags(v1, v2, c) & 8 != 0) <==> ((v1 ^ add_result(v1, v2, c)) & (v2 ^ add_result(
            v1,
            v2,
            c,
        )) & 0x80 != 0),
        add_flags(v1, v2, c) < 16,
{
}

/// The logical flag byte survives the datasheet's sign-and-zero mask
/// unchanged, and a right shift always reports a positive sign.
pub proof fn lemma_logic_flags_masked(v: u8)
    by (bit_vector)
    ensures
        logic_flags(v) & 0b0101 == logic_flags(v),
        logic_flags(v) < 16,
        logic_flags(v >> 1) & 1 == 1,
        logic_flags(v >> 4) & 1 == 1,
{
}

/// The BCD-corrected sum of the F8 decimal add: the plain binary sum, then
/// +0xA0 on the high nibble unless the byte carried, and +0x0A on the low
/// nibble unless the low nibbles carried, each nibble masked after its
/// correction so carries stay confined.
pub open spec fn bcd_result(v1: u8, v2: u8) -> u8 {
    let sum = add_result(v1, v2, 0);
    let hi = if v1 + v2 >= 0x100 {
        sum & 0xf0
    } else {
        (((sum + 0xa0) % 256) as u8) & 0xf0
    };
    let lo = if (v1 & 0x0f) + (v2 & 0x0f) >= 0x10 {
        sum & 0x0f
    } else {
        (((sum + 0x0a) % 256) as u8) & 0x0f
    };
    (hi + lo) as u8
}

/// Bounds that let the two corrected nibbles be recombined without overflow.
pub proof fn lemma_nibble_bounds(v: u8)
    by (bit_vector)
    ensures
        v & 0xf0 <= 0xf0,
        v & 0x0f <= 0x0f,
{
}

/// The two's-complement value of a byte, as an integer: 0x00..=0x7f map to
/// 0..=127, 0x80..=0xff to -128..=-1.
pub open spec fn signed_val(v: u8) -> int {
    if v < 0x80 {
        v as int
    } else {
        v - 256
    }
}

/// Two's-complement reading of a byte.
pub fn signed_byte(v: u8) -> (res: i8)
    ensures
        res as int == signed_val(v),
{
    if v < 0x80 {
        v as i8
    } else {
        ((v as i16) - 256) as i8
    }
}

impl<CF: ChannelF> Cpu<CF> {
    /// Binary add of `v1`, `v2` and carry-in `c`, setting all four flags from
    /// scratch. Returns the low byte of the 9-bit sum. This is the whole flag
    /// algebra of the core: result, zero, carry, sign and overflow are each
    /// pinned for every input.
    pub fn add_czso(&mut self, v1: u8, v2: u8, c: u8) -> (res: u8)
        requires
            c <= 1,
        ensures
            res == add_result(v1, v2, c),
            res as int == (v1 + v2 + c) % 256,
            final(self)@.flags == add_flags(v1, v2, c),
            (final(self)@.flags & 4 != 0) <==> (res == 0),
            (final(self)@.flags & 2 != 0) <==> (v1 + v2 + c >= 256),
            (final(self)@.flags & 1 != 0) <==> (res < 0x80),
            (final(self)@.flags & 8 != 0) <==> ((v1 ^ res) & (v2 ^ res) & 0x80 != 0),
            final(self)@ == (CpuState { flags: add_flags(v1, v2, c), ..old(self)@ }),
    {
        let full_res: u16 = v1 as u16 + v2 as u16 + c as u16;
        let res: u8 = (full_res & 0xff) as u8;

        proof {
            assert((full_res & 0xff) == full_res % 256) by (bit_vector);
            assert(full_res < 512 ==> ((full_res & 0x100 != 0) <==> (full_res >= 256)))
                by (bit_vector);
            lemma_add_flags_bits(v1, v2, c);
        }

        self.flags = 0;

        if res < 0x80 {
            self.flags = self.flags + 0x1;  // SF
        }

        if (full_res & 0x100) != 0 {
            self.flags = self.flags + 0x2;  // CF
        }

        if res == 0 {
            self.flags = self.flags + 0x4;  // ZF
        }

        if ((v1 ^ res) & (v2 ^ res) & 0x80) != 0 {
            self.flags = self.flags + 0x8;  // OF
        }

        proof {
            assert(self@ =~= (CpuState { flags: add_flags(v1, v2, c), ..old(self)@ }));
        }

        res
    }

    /// Record the sign and zero of `v` in the flag byte, clearing carry and
    /// overflow, and hand `v` back.
    pub(crate) fn result_0czs0o(&mut self, v: u8) -> (res: u8)
        ensures
            res == v,
            final(self)@ == (CpuState { flags: logic_flags(v), ..old(self)@ }),
    {
        self.flags = 0;
        if v < 0x80 {
            self.flags = self.flags + 0x1;  // SF
        }

        if v == 0 {
            self.flags = self.flags + 0x4;  // ZF
        }

        proof {
            assert(self@ =~= (CpuState { flags: logic_flags(v), ..old(self)@ }));
        }

        v
    }

    /// Decimal add: flags come from the plain binary sum, the returned byte
    /// from the BCD correction table.
    pub fn adddec(&mut self, v1: u8, v2: u8) -> (res: u8)
        ensures
            res == bcd_result(v1, v2),
            final(self)@ == (CpuState { flags: add_flags(v1, v2, 0), ..old(self)@ }),
    {
        let sum = self.add_czso(v1, v2, 0);

        let high_carry: bool = v1 as u16 + v2 as u16 >= 0x100;
        let low_carry: bool = (v1 & 0x0f) as u16 + (v2 & 0x0f) as u16 >= 0x10;

        proof {
            lemma_nibble_bounds(sum);
            lemma_nibble_bounds(sum.wrapping_add(0xa0));
            lemma_nibble_bounds(sum.wrapping_add(0x0a));
        }

        let hi: u8 = if high_carry {
            sum & 0xf0
        } else {
            sum.wrapping_add(0xa0) & 0xf0
        };
        let lo: u8 = if low_carry {
            sum & 0x0f
        } else {
            sum.wrapping_add(0x0a) & 0x0f
        };

        hi + lo
    }

    /// Compare by subtraction: sets the flags of `v2 + !v1 + 1` and discards
    /// the byte.
    pub(crate) fn cmp(&mut self, v1: u8, v2: u8)
        ensures
            final(self)@ == (CpuState { flags: add_flags(v2, v1 ^ 0xff, 1), ..old(self)@ }),
    {
        self.add_czso(v2, v1 ^ 0xff, 1);
    }
}

} // verus!
