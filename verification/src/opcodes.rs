use vstd::prelude::*;

use crate::alu::{add_flags, add_result, bcd_result, logic_flags, signed_val};
use crate::host::ChannelF;
use crate::mem::{mem_read, ram_after_write};
use crate::ports::{in_op_rel, outport_state};
use crate::regs::{isar_dec, isar_inc};
use crate::state::{after_fetch, cyc, wadd16, CpuState, Cpu};

verus! {

/// The 16-bit value formed from the scratchpad pair at `i` (high) and
/// `i + 1` (low).
pub open spec fn sp_pair(s: CpuState, i: int) -> u16 {
    (s.scratchpad[i] * 256 + s.scratchpad[i + 1]) as u16
}

/// The scratchpad slot a register-file opcode's low nibble selects: registers
/// 0..=11 directly, the ISAR slot for the three indirect variants.
pub open spec fn rf_index(s: CpuState, low: int) -> int {
    if low <= 0xb {
        low
    } else {
        s.isar as int
    }
}

/// The ISAR after a register-file opcode: the 0xd variant post-increments
/// ISL, the 0xe variant post-decrements it, every other leaves it alone.
pub open spec fn rf_isar(s: CpuState, low: int) -> u8 {
    if low == 0xd {
        isar_inc(s.isar)
    } else if low == 0xe {
        isar_dec(s.isar)
    } else {
        s.isar
    }
}

/// Where PC0 lands when a branch at displacement byte `d` (fetched at `pc`)
/// is taken: past the displacement byte, then moved by the signed
/// displacement minus one, modulo 2^16. The minus one reflects that PC0 has
/// already advanced past the displacement byte.
pub open spec fn branch_target(pc: u16, d: u8) -> u16 {
    wadd16(wadd16(pc, 1), signed_val(d) - 1)
}

/// The state after the branch engine has consumed its displacement byte:
/// taken branches move PC0 to the target and cost two extra cycles, untaken
/// ones only step past the displacement.
pub open spec fn branch_state(s: CpuState, cond: bool) -> CpuState {
    if cond {
        CpuState { pc0: branch_target(s.pc0, mem_read(s, s.pc0)), cycles: cyc(s, 2), ..s }
    } else {
        after_fetch(s)
    }
}

/// The opcodes the F8 defines. Every other byte is a fatal decoding error:
/// the host must not hand it to the executor.
pub open spec fn valid_opcode(op: u8) -> bool {
    !(op == 0x2d || op == 0x2e || op == 0x2f || op == 0x3f || op == 0x4f || op == 0x5f || op
        == 0xcf || op == 0xdf || op == 0xef || op == 0xff)
}

/// The complete instruction semantics: `step(s, op, post)` holds exactly when
/// executing opcode `op` (already fetched, PC0 past it) may take the CPU from
/// state `s` to state `post`. Every opcode is deterministic over the CPU
/// state except reads of the button and controller ports, whose value rests
/// on keys the host reports.
pub open spec fn step(s: CpuState, op: u8, post: CpuState) -> bool {
    if op <= 0x03 {
        // LR A,Ku/Kl/Qu/Ql
        post == (CpuState { a: s.scratchpad[12 + op], cycles: cyc(s, 4), ..s })
    } else if op <= 0x07 {
        // LR Ku/Kl/Qu/Ql,A
        post == (CpuState {
            scratchpad: s.scratchpad.update(12 + (op - 4), s.a),
            cycles: cyc(s, 4),
            ..s
        })
    } else if op == 0x08 {
        // LR K,P
        post == (CpuState {
            scratchpad: s.scratchpad.update(12, (s.pc1 >> 8) as u8).update(
                13,
                (s.pc1 & 0xff) as u8,
            ),
            cycles: cyc(s, 16),
            ..s
        })
    } else if op == 0x09 {
        // LR P,K
        post == (CpuState { pc1: sp_pair(s, 12), cycles: cyc(s, 16), ..s })
    } else if op == 0x0a {
        // LR A,IS
        post == (CpuState { a: s.isar, cycles: cyc(s, 4), ..s })
    } else if op == 0x0b {
        // LR IS,A
        post == (CpuState { isar: s.a & 0x3f, cycles: cyc(s, 4), ..s })
    } else if op == 0x0c {
        // PK
        post == (CpuState { pc1: s.pc0, pc0: sp_pair(s, 12), cycles: cyc(s, 16), ..s })
    } else if op == 0x0d {
        // LR P0,Q
        post == (CpuState { pc0: sp_pair(s, 14), cycles: cyc(s, 16), ..s })
    } else if op == 0x0e {
        // LR Q,DC
        post == (CpuState {
            scratchpad: s.scratchpad.update(14, (s.dc0 >> 8) as u8).update(
                15,
                (s.dc0 & 0xff) as u8,
            ),
            cycles: cyc(s, 16),
            ..s
        })
    } else if op == 0x0f {
        // LR DC,Q
        post == (CpuState { dc0: sp_pair(s, 14), cycles: cyc(s, 16), ..s })
    } else if op == 0x10 {
        // LR DC,H
        post == (CpuState { dc0: sp_pair(s, 10), cycles: cyc(s, 16), ..s })
    } else if op == 0x11 {
        // LR H,DC
        post == (CpuState {
            scratchpad: s.scratchpad.update(10, (s.dc0 >> 8) as u8).update(
                11,
                (s.dc0 & 0xff) as u8,
            ),
            cycles: cyc(s, 16),
            ..s
        })
    } else if op == 0x12 {
        // SR 1
        post == (CpuState { a: s.a >> 1, flags: logic_flags(s.a >> 1), cycles: cyc(s, 4), ..s })
    } else if op == 0x13 {
        // SL 1
        post == (CpuState { a: s.a << 1, flags: logic_flags(s.a << 1), cycles: cyc(s, 4), ..s })
    } else if op == 0x14 {
        // SR 4
        post == (CpuState { a: s.a >> 4, flags: logic_flags(s.a >> 4), cycles: cyc(s, 4), ..s })
    } else if op == 0x15 {
        // SL 4
        post == (CpuState { a: s.a << 4, flags: logic_flags(s.a << 4), cycles: cyc(s, 4), ..s })
    } else if op == 0x16 {
        // LM
        post == (CpuState {
            a: mem_read(s, s.dc0),
            dc0: wadd16(s.dc0, 1),
            cycles: cyc(s, 10),
            ..s
        })
    } else if op == 0x17 {
        // ST
        post == (CpuState {
            ram: ram_after_write(s, s.dc0, s.a),
            dc0: wadd16(s.dc0, 1),
            cycles: cyc(s, 10),
            ..s
        })
    } else if op == 0x18 {
        // COM
        post == (CpuState {
            a: s.a ^ 0xff,
            flags: logic_flags(s.a ^ 0xff),
            cycles: cyc(s, 4),
            ..s
        })
    } else if op == 0x19 {
        // LNK
        let cin: u8 = if s.flags & 0x2 != 0 {
            1
        } else {
            0
        };
        post == (CpuState {
            a: add_result(s.a, 0, cin),
            flags: add_flags(s.a, 0, cin),
            cycles: cyc(s, 4),
            ..s
        })
    } else if op == 0x1a {
        // DI
        post == (CpuState { icb_flag: 0, cycles: cyc(s, 8), ..s })
    } else if op == 0x1b {
        // EI
        post == (CpuState { icb_flag: 0x10, cycles: cyc(s, 8), ..s })
    } else if op == 0x1c {
        // POP
        post == (CpuState { pc0: s.pc1, cycles: cyc(s, 8), ..s })
    } else if op == 0x1d {
        // LR W,J
        post == (CpuState {
            flags: s.scratchpad[9] & 0xf,
            icb_flag: s.scratchpad[9] & 0x10,
            cycles: cyc(s, 8),
            ..s
        })
    } else if op == 0x1e {
        // LR J,W
        post == (CpuState {
            scratchpad: s.scratchpad.update(9, (s.flags + s.icb_flag) as u8),
            cycles: cyc(s, 4),
            ..s
        })
    } else if op == 0x1f {
        // INC
        post == (CpuState {
            a: add_result(s.a, 0, 1),
            flags: add_flags(s.a, 0, 1),
            cycles: cyc(s, 4),
            ..s
        })
    } else if op == 0x20 {
        // LI
        post == (CpuState {
            a: mem_read(s, s.pc0),
            pc0: wadd16(s.pc0, 1),
            cycles: cyc(s, 10),
            ..s
        })
    } else if op == 0x21 {
        // NI
        let r = s.a & mem_read(s, s.pc0);
        post == (CpuState {
            a: r,
            flags: logic_flags(r),
            pc0: wadd16(s.pc0, 1),
            cycles: cyc(s, 10),
            ..s
        })
    } else if op == 0x22 {
        // OI
        let r = s.a | mem_read(s, s.pc0);
        post == (CpuState {
            a: r,
            flags: logic_flags(r),
            pc0: wadd16(s.pc0, 1),
            cycles: cyc(s, 10),
            ..s
        })
    } else if op == 0x23 {
        // XI
        let r = s.a ^ mem_read(s, s.pc0);
        post == (CpuState {
            a: r,
            flags: logic_flags(r),
            pc0: wadd16(s.pc0, 1),
            cycles: cyc(s, 10),
            ..s
        })
    } else if op == 0x24 {
        // AI
        let d = mem_read(s, s.pc0);
        post == (CpuState {
            a: add_result(s.a, d, 0),
            flags: add_flags(s.a, d, 0),
            pc0: wadd16(s.pc0, 1),
            cycles: cyc(s, 10),
            ..s
        })
    } else if op == 0x25 {
        // CI
        let d = mem_read(s, s.pc0);
        post == (CpuState {
            flags: add_flags(d, s.a ^ 0xff, 1),
            pc0: wadd16(s.pc0, 1),
            cycles: cyc(s, 10),
            ..s
        })
    } else if op == 0x26 {
        // IN
        in_op_rel(after_fetch(s), mem_read(s, s.pc0), 16, post)
    } else if op == 0x27 {
        // OUT
        post == (CpuState {
            cycles: cyc(s, 16),
            ..outport_state(after_fetch(s), mem_read(s, s.pc0), s.a)
        })
    } else if op == 0x28 {
        // PI
        let h = mem_read(s, s.pc0);
        let s1 = after_fetch(s);
        let l = mem_read(s1, s1.pc0);
        let s2 = after_fetch(s1);
        post == (CpuState {
            a: h,
            pc1: s2.pc0,
            pc0: (h * 256 + l) as u16,
            cycles: cyc(s, 26),
            ..s
        })
    } else if op == 0x29 {
        // JMP
        let h = mem_read(s, s.pc0);
        let s1 = after_fetch(s);
        let l = mem_read(s1, s1.pc0);
        post == (CpuState { a: h, pc0: (h * 256 + l) as u16, cycles: cyc(s, 16), ..s })
    } else if op == 0x2a {
        // DCI
        let h = mem_read(s, s.pc0);
        let s1 = after_fetch(s);
        let l = mem_read(s1, s1.pc0);
        let s2 = after_fetch(s1);
        post == (CpuState {
            dc0: (h * 256 + l) as u16,
            pc0: s2.pc0,
            cycles: cyc(s, 24),
            ..s
        })
    } else if op == 0x2b {
        // NOP
        post == (CpuState { cycles: cyc(s, 4), ..s })
    } else if op == 0x2c {
        // XDC
        post == (CpuState { dc0: s.dc1, dc1: s.dc0, cycles: cyc(s, 8), ..s })
    } else if 0x30 <= op && op <= 0x3e {
        // DS
        let i = rf_index(s, op - 0x30);
        let v = s.scratchpad[i];
        post == (CpuState {
            scratchpad: s.scratchpad.update(i, add_result(v, 0xff, 0)),
            flags: add_flags(v, 0xff, 0),
            isar: rf_isar(s, op - 0x30),
            cycles: cyc(s, 6),
            ..s
        })
    } else if 0x40 <= op && op <= 0x4e {
        // LR A,r
        let i = rf_index(s, op - 0x40);
        post == (CpuState {
            a: s.scratchpad[i],
            isar: rf_isar(s, op - 0x40),
            cycles: cyc(s, 4),
            ..s
        })
    } else if 0x50 <= op && op <= 0x5e {
        // LR r,A
        let i = rf_index(s, op - 0x50);
        post == (CpuState {
            scratchpad: s.scratchpad.update(i, s.a),
            isar: rf_isar(s, op - 0x50),
            cycles: cyc(s, 4),
            ..s
        })
    } else if 0x60 <= op && op <= 0x67 {
        // LISU
        post == (CpuState {
            isar: ((s.isar & 0x7) + (op - 0x60) * 8) as u8,
            cycles: cyc(s, 4),
            ..s
        })
    } else if 0x68 <= op && op <= 0x6f {
        // LISL
        post == (CpuState { isar: ((s.isar & 0x38) + (op - 0x68)) as u8, cycles: cyc(s, 4), ..s })
    } else if 0x70 <= op && op <= 0x7f {
        // LIS
        post == (CpuState { a: (op - 0x70) as u8, cycles: cyc(s, 4), ..s })
    } else if 0x80 <= op && op <= 0x87 {
        // BT
        post == branch_state(
            CpuState { cycles: cyc(s, 12), ..s },
            s.flags & ((op - 0x80) as u8) != 0,
        )
    } else if op == 0x88 {
        // AM
        let m = mem_read(s, s.dc0);
        post == (CpuState {
            a: add_result(s.a, m, 0),
            flags: add_flags(s.a, m, 0),
            dc0: wadd16(s.dc0, 1),
            cycles: cyc(s, 10),
            ..s
        })
    } else if op == 0x89 {
        // AMD
        let m = mem_read(s, s.dc0);
        post == (CpuState {
            a: bcd_result(s.a, m),
            flags: add_flags(s.a, m, 0),
            dc0: wadd16(s.dc0, 1),
            cycles: cyc(s, 10),
            ..s
        })
    } else if op == 0x8a {
        // NM
        let r = s.a & mem_read(s, s.dc0);
        post == (CpuState {
            a: r,
            flags: logic_flags(r),
            dc0: wadd16(s.dc0, 1),
            cycles: cyc(s, 10),
            ..s
        })
    } else if op == 0x8b {
        // OM
        let r = s.a | mem_read(s, s.dc0);
        post == (CpuState {
            a: r,
            flags: logic_flags(r),
            dc0: wadd16(s.dc0, 1),
            cycles: cyc(s, 10),
            ..s
        })
    } else if op == 0x8c {
        // XM
        let r = s.a ^ mem_read(s, s.dc0);
        post == (CpuState {
            a: r,
            flags: logic_flags(r),
            dc0: wadd16(s.dc0, 1),
            cycles: cyc(s, 10),
            ..s
        })
    } else if op == 0x8d {
        // CM
        let m = mem_read(s, s.dc0);
        post == (CpuState {
            flags: add_flags(m, s.a ^ 0xff, 1),
            dc0: wadd16(s.dc0, 1),
            cycles: cyc(s, 10),
            ..s
        })
    } else if op == 0x8e {
        // ADC
        post == (CpuState { dc0: wadd16(s.dc0, signed_val(s.a)), cycles: cyc(s, 10), ..s })
    } else if op == 0x8f {
        // BR7
        post == branch_state(CpuState { cycles: cyc(s, 8), ..s }, s.isar & 0x7 != 0x7)
    } else if 0x90 <= op && op <= 0x9f {
        // BF
        post == branch_state(
            CpuState { cycles: cyc(s, 12), ..s },
            s.flags & ((op - 0x90) as u8) == 0,
        )
    } else if 0xa0 <= op && op <= 0xaf {
        // INS
        in_op_rel(
            s,
            (op - 0xa0) as u8,
            if op - 0xa0 <= 1 {
                8
            } else {
                16
            },
            post,
        )
    } else if 0xb0 <= op && op <= 0xbf {
        // OUTS
        let n: u16 = if op - 0xb0 <= 1 {
            8
        } else {
            16
        };
        post == (CpuState { cycles: cyc(s, n), ..outport_state(s, (op - 0xb0) as u8, s.a) })
    } else if 0xc0 <= op && op <= 0xce {
        // AS
        let v = s.scratchpad[rf_index(s, op - 0xc0)];
        post == (CpuState {
            a: add_result(s.a, v, 0),
            flags: add_flags(s.a, v, 0),
            isar: rf_isar(s, op - 0xc0),
            cycles: cyc(s, 4),
            ..s
        })
    } else if 0xd0 <= op && op <= 0xde {
        // ASD
        let v = s.scratchpad[rf_index(s, op - 0xd0)];
        post == (CpuState {
            a: bcd_result(s.a, v),
            flags: add_flags(s.a, v, 0),
            isar: rf_isar(s, op - 0xd0),
            cycles: cyc(s, 8),
            ..s
        })
    } else if 0xe0 <= op && op <= 0xee {
        // XS
        let r = s.a ^ s.scratchpad[rf_index(s, op - 0xe0)];
        post == (CpuState {
            a: r,
            flags: logic_flags(r),
            isar: rf_isar(s, op - 0xe0),
            cycles: cyc(s, 4),
            ..s
        })
    } else if 0xf0 <= op && op <= 0xfe {
        // NS
        let r = s.a & s.scratchpad[rf_index(s, op - 0xf0)];
        post == (CpuState {
            a: r,
            flags: logic_flags(r),
            isar: rf_isar(s, op - 0xf0),
            cycles: cyc(s, 4),
            ..s
        })
    } else {
        false
    }
}

proof fn lemma_mask_bounds(v: u8)
    by (bit_vector)
    ensures
        v & 0x3f < 64,
        v & 0x0f < 16,
        (v & 0x10 == 0) || (v & 0x10 == 0x10),
        v & 0x7 <= 7,
        v & 0x38 <= 0x38,
        v <= 7 ==> (v << 3) == v * 8,
{
}

impl<CF: ChannelF> Cpu<CF> {
    /// Consume the displacement byte of a branch; when `cond` holds, move PC0
    /// to the branch target and charge the two extra cycles.
    pub(crate) fn branch(&mut self, cond: bool)
        ensures
            final(self)@ == branch_state(old(self)@, cond),
    {
        let disp = self.fetch();
        if cond {
            if disp < 0x80 {
                self.pc0 = self.pc0.wrapping_add(disp as u16).wrapping_sub(1);
            } else {
                self.pc0 = self.pc0.wrapping_add(disp as u16).wrapping_sub(0x101);
            }
            self.cycles = self.cycles.wrapping_add(2);
        }
        proof {
            assert(self@ =~= branch_state(old(self)@, cond));
        }
    }

    /// Execute one already-fetched opcode: dispatch across the full F8
    /// instruction set, charging its documented cycle cost and applying its
    /// register, flag, memory and port effects as [`step`] states them.
    #[verifier::rlimit(100)]
    pub fn execute(&mut self, opcode: u8)
        requires
            old(self)@.wf(),
            valid_opcode(opcode),
        ensures
            step(old(self)@, opcode, final(self)@),
            final(self)@.wf(),
    {
        match opcode {
            // LR A,Ku/Kl/Qu/Ql
            0x00..=0x03 => {
                self.cycles = self.cycles.wrapping_add(4);
                self.a = self.scratchpad[12 + opcode as usize];
            },
            // LR Ku/Kl/Qu/Ql,A
            0x04..=0x07 => {
                self.cycles = self.cycles.wrapping_add(4);
                self.scratchpad[12 + (opcode - 0x04) as usize] = self.a;
            },
            // LR K,P
            0x08 => {
                self.cycles = self.cycles.wrapping_add(16);
                self.scratchpad[12] = (self.pc1 >> 8) as u8;
                self.scratchpad[13] = (self.pc1 & 0xff) as u8;
            },
            // LR P,K
            0x09 => {
                self.cycles = self.cycles.wrapping_add(16);
                self.pc1 = (self.scratchpad[12] as u16) * 256 + (self.scratchpad[13] as u16);
            },
            // LR A,IS
            0x0a => {
                self.cycles = self.cycles.wrapping_add(4);
                self.a = self.isar;
            },
            // LR IS,A
            0x0b => {
                self.cycles = self.cycles.wrapping_add(4);
                proof {
                    lemma_mask_bounds(self.a);
                }
                self.isar = self.a & 0x3f;
            },
            // PK
            0x0c => {
                self.cycles = self.cycles.wrapping_add(16);
                self.pc1 = self.pc0;
                self.pc0 = (self.scratchpad[12] as u16) * 256 + (self.scratchpad[13] as u16);
            },
            // LR P0,Q
            0x0d => {
                self.cycles = self.cycles.wrapping_add(16);
                self.pc0 = (self.scratchpad[14] as u16) * 256 + (self.scratchpad[15] as u16);
            },
            // LR Q,DC
            0x0e => {
                self.cycles = self.cycles.wrapping_add(16);
                self.scratchpad[14] = (self.dc0 >> 8) as u8;
                self.scratchpad[15] = (self.dc0 & 0xff) as u8;
            },
            // LR DC,Q
            0x0f => {
                self.cycles = self.cycles.wrapping_add(16);
                self.dc0 = (self.scratchpad[14] as u16) * 256 + (self.scratchpad[15] as u16);
            },
            // LR DC,H
            0x10 => {
                self.cycles = self.cycles.wrapping_add(16);
                self.dc0 = (self.scratchpad[10] as u16) * 256 + (self.scratchpad[11] as u16);
            },
            // LR H,DC
            0x11 => {
                self.cycles = self.cycles.wrapping_add(16);
                self.scratchpad[10] = (self.dc0 >> 8) as u8;
                self.scratchpad[11] = (self.dc0 & 0xff) as u8;
            },
            // SR 1
            0x12 => {
                self.cycles = self.cycles.wrapping_add(4);
                let r = self.a >> 1;
                self.a = self.result_0czs0o(r);
            },
            // SL 1
            0x13 => {
                self.cycles = self.cycles.wrapping_add(4);
                let r = self.a << 1;
                self.a = self.result_0czs0o(r);
            },
            // SR 4
            0x14 => {
                self.cycles = self.cycles.wrapping_add(4);
                let r = self.a >> 4;
                self.a = self.result_0czs0o(r);
            },
            // SL 4
            0x15 => {
                self.cycles = self.cycles.wrapping_add(4);
                let r = self.a << 4;
                self.a = self.result_0czs0o(r);
            },
            // LM
            0x16 => {
                self.cycles = self.cycles.wrapping_add(10);
                self.a = self.read(self.dc0);
                self.dc0 = self.dc0.wrapping_add(1);
            },
            // ST
            0x17 => {
                self.cycles = self.cycles.wrapping_add(10);
                self.write(self.dc0, self.a);
                self.dc0 = self.dc0.wrapping_add(1);
            },
            // COM
            0x18 => {
                self.cycles = self.cycles.wrapping_add(4);
                let r = self.a ^ 0xff;
                self.a = self.result_0czs0o(r);
            },
            // LNK
            0x19 => {
                self.cycles = self.cycles.wrapping_add(4);
                let cin: u8 = if self.flags & 0x2 != 0 {
                    1
                } else {
                    0
                };
                self.a = self.add_czso(self.a, 0, cin);
            },
            // DI
            0x1a => {
                self.cycles = self.cycles.wrapping_add(8);
                self.icb_flag = 0;
            },
            // EI
            0x1b => {
                self.cycles = self.cycles.wrapping_add(8);
                self.icb_flag = 0x10;
            },
            // POP
            0x1c => {
                self.cycles = self.cycles.wrapping_add(8);
                self.pc0 = self.pc1;
            },
            // LR W,J
            0x1d => {
                self.cycles = self.cycles.wrapping_add(8);
                proof {
                    lemma_mask_bounds(self.scratchpad@[9]);
                }
                self.flags = self.scratchpad[9] & 0xf;
                self.icb_flag = self.scratchpad[9] & 0x10;
            },
            // LR J,W
            0x1e => {
                self.cycles = self.cycles.wrapping_add(4);
                self.scratchpad[9] = self.flags + self.icb_flag;
            },
            // INC
            0x1f => {
                self.cycles = self.cycles.wrapping_add(4);
                self.a = self.add_czso(self.a, 0, 1);
            },
            // LI
            0x20 => {
                self.cycles = self.cycles.wrapping_add(10);
                self.a = self.fetch();
            },
            // NI
            0x21 => {
                self.cycles = self.cycles.wrapping_add(10);
                let fetched = self.fetch();
                let r = self.a & fetched;
                self.a = self.result_0czs0o(r);
            },
            // OI
            0x22 => {
                self.cycles = self.cycles.wrapping_add(10);
                let fetched = self.fetch();
                let r = self.a | fetched;
                self.a = self.result_0czs0o(r);
            },
            // XI
            0x23 => {
                self.cycles = self.cycles.wrapping_add(10);
                let fetched = self.fetch();
                let r = self.a ^ fetched;
                self.a = self.result_0czs0o(r);
            },
            // AI
            0x24 => {
                self.cycles = self.cycles.wrapping_add(10);
                let fetched = self.fetch();
                self.a = self.add_czso(self.a, fetched, 0);
            },
            // CI
            0x25 => {
                self.cycles = self.cycles.wrapping_add(10);
                let fetched = self.fetch();
                self.cmp(self.a, fetched);
            },
            // IN
            0x26 => {
                self.cycles = self.cycles.wrapping_add(16);
                let port = self.fetch();
                let in_res = self.inport(port);
                self.a = self.result_0czs0o(in_res);
            },
            // OUT
            0x27 => {
                self.cycles = self.cycles.wrapping_add(16);
                let fetched = self.fetch();
                self.outport(fetched, self.a);
            },
            // PI
            0x28 => {
                self.cycles = self.cycles.wrapping_add(26);
                self.a = self.fetch();
                let tmp = self.fetch();
                self.pc1 = self.pc0;
                self.pc0 = (self.a as u16) * 256 + (tmp as u16);
            },
            // JMP
            0x29 => {
                self.cycles = self.cycles.wrapping_add(16);
                self.a = self.fetch();
                let tmp = self.fetch();
                self.pc0 = (self.a as u16) * 256 + (tmp as u16);
            },
            // DCI
            0x2a => {
                self.cycles = self.cycles.wrapping_add(24);
                let h = self.fetch();
                let l = self.fetch();
                self.dc0 = (h as u16) * 256 + (l as u16);
            },
            // NOP
            0x2b => {
                self.cycles = self.cycles.wrapping_add(4);
            },
            // XDC
            0x2c => {
                self.cycles = self.cycles.wrapping_add(8);
                let tmp = self.dc0;
                self.dc0 = self.dc1;
                self.dc1 = tmp;
            },
            // DS
            0x30..=0x3e => {
                self.cycles = self.cycles.wrapping_add(6);
                let low = opcode - 0x30;
                let index = if low <= 0xb {
                    low as usize
                } else {
                    self.isar as usize
                };
                let v = self.scratchpad[index];
                let decremented = self.add_czso(v, 0xff, 0);
                self.scratchpad[index] = decremented;
                if low == 0xd {
                    self.inc_isl();
                } else if low == 0xe {
                    self.dec_isl();
                }
            },
            // LR A,r
            0x40..=0x4e => {
                self.cycles = self.cycles.wrapping_add(4);
                let low = opcode - 0x40;
                let index = if low <= 0xb {
                    low as usize
                } else {
                    self.isar as usize
                };
                self.a = self.scratchpad[index];
                if low == 0xd {
                    self.inc_isl();
                } else if low == 0xe {
                    self.dec_isl();
                }
            },
            // LR r,A
            0x50..=0x5e => {
                self.cycles = self.cycles.wrapping_add(4);
                let low = opcode - 0x50;
                let index = if low <= 0xb {
                    low as usize
                } else {
                    self.isar as usize
                };
                self.scratchpad[index] = self.a;
                if low == 0xd {
                    self.inc_isl();
                } else if low == 0xe {
                    self.dec_isl();
                }
            },
            // LISU
            0x60..=0x67 => {
                self.cycles = self.cycles.wrapping_add(4);
                let index = opcode - 0x60;
                proof {
                    lemma_mask_bounds(self.isar);
                    lemma_mask_bounds((opcode - 0x60) as u8);
                }
                self.isar = (self.isar & 0x7) + (index << 3);
            },
            // LISL
            0x68..=0x6f => {
                self.cycles = self.cycles.wrapping_add(4);
                let index = opcode - 0x68;
                proof {
                    lemma_mask_bounds(self.isar);
                }
                self.isar = (self.isar & 0x38) + index;
            },
            // LIS
            0x70..=0x7f => {
                self.cycles = self.cycles.wrapping_add(4);
                self.a = opcode - 0x70;
            },
            // BT
            0x80..=0x87 => {
                self.cycles = self.cycles.wrapping_add(12);
                let mask = opcode - 0x80;
                let cond = (self.flags & mask) != 0;
                self.branch(cond);
            },
            // AM
            0x88 => {
                self.cycles = self.cycles.wrapping_add(10);
                let m = self.read(self.dc0);
                self.a = self.add_czso(self.a, m, 0);
                self.dc0 = self.dc0.wrapping_add(1);
            },
            // AMD
            0x89 => {
                self.cycles = self.cycles.wrapping_add(10);
                let m = self.read(self.dc0);
                self.a = self.adddec(self.a, m);
                self.dc0 = self.dc0.wrapping_add(1);
            },
            // NM
            0x8a => {
                self.cycles = self.cycles.wrapping_add(10);
                let m = self.read(self.dc0);
                let r = self.a & m;
                self.a = self.result_0czs0o(r);
                self.dc0 = self.dc0.wrapping_add(1);
            },
            // OM
            0x8b => {
                self.cycles = self.cycles.wrapping_add(10);
                let m = self.read(self.dc0);
                let r = self.a | m;
                self.a = self.result_0czs0o(r);
                self.dc0 = self.dc0.wrapping_add(1);
            },
            // XM
            0x8c => {
                self.cycles = self.cycles.wrapping_add(10);
                let m = self.read(self.dc0);
                let r = self.a ^ m;
                self.a = self.result_0czs0o(r);
                self.dc0 = self.dc0.wrapping_add(1);
            },
            // CM
            0x8d => {
                self.cycles = self.cycles.wrapping_add(10);
                let m = self.read(self.dc0);
                self.cmp(self.a, m);
                self.dc0 = self.dc0.wrapping_add(1);
            },
            // ADC
            0x8e => {
                self.cycles = self.cycles.wrapping_add(10);
                if self.a < 0x80 {
                    self.dc0 = self.dc0.wrapping_add(self.a as u16);
                } else {
                    self.dc0 = self.dc0.wrapping_sub(0x100 - (self.a as u16));
                }
            },
            // BR7
            0x8f => {
                self.cycles = self.cycles.wrapping_add(8);
                let cond = self.isar & 0x7 != 0x7;
                self.branch(cond);
            },
            // BF
            0x90..=0x9f => {
                self.cycles = self.cycles.wrapping_add(12);
                let mask = opcode - 0x90;
                let cond = self.flags & mask == 0;
                self.branch(cond);
            },
            // INS
            0xa0..=0xaf => {
                let index = opcode - 0xa0;
                if index <= 1 {
                    self.cycles = self.cycles.wrapping_add(8);
                } else {
                    self.cycles = self.cycles.wrapping_add(16);
                }
                let input = self.inport(index);
                self.a = self.result_0czs0o(input);
            },
            // OUTS
            0xb0..=0xbf => {
                let index = opcode - 0xb0;
                if index <= 1 {
                    self.cycles = self.cycles.wrapping_add(8);
                } else {
                    self.cycles = self.cycles.wrapping_add(16);
                }
                self.outport(index, self.a);
            },
            // AS
            0xc0..=0xce => {
                self.cycles = self.cycles.wrapping_add(4);
                let low = opcode - 0xc0;
                let index = if low <= 0xb {
                    low as usize
                } else {
                    self.isar as usize
                };
                let v = self.scratchpad[index];
                self.a = self.add_czso(self.a, v, 0);
                if low == 0xd {
                    self.inc_isl();
                } else if low == 0xe {
                    self.dec_isl();
                }
            },
            // ASD
            0xd0..=0xde => {
                self.cycles = self.cycles.wrapping_add(8);
                let low = opcode - 0xd0;
                let index = if low <= 0xb {
                    low as usize
                } else {
                    self.isar as usize
                };
                let v = self.scratchpad[index];
                self.a = self.adddec(self.a, v);
                if low == 0xd {
                    self.inc_isl();
                } else if low == 0xe {
                    self.dec_isl();
                }
            },
            // XS
            0xe0..=0xee => {
                self.cycles = self.cycles.wrapping_add(4);
                let low = opcode - 0xe0;
                let index = if low <= 0xb {
                    low as usize
                } else {
                    self.isar as usize
                };
                let r = self.a ^ self.scratchpad[index];
                self.a = self.result_0czs0o(r);
                if low == 0xd {
                    self.inc_isl();
                } else if low == 0xe {
                    self.dec_isl();
                }
            },
            // NS
            0xf0..=0xfe => {
                self.cycles = self.cycles.wrapping_add(4);
                let low = opcode - 0xf0;
                let index = if low <= 0xb {
                    low as usize
                } else {
                    self.isar as usize
                };
                let r = self.a & self.scratchpad[index];
                self.a = self.result_0czs0o(r);
                if low == 0xd {
                    self.inc_isl();
                } else if low == 0xe {
                    self.dec_isl();
                }
            },
            _ => {
                proof {
                    assert(false);
                }
            },
        }
    }
}

} // verus!
