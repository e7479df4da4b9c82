use vstd::prelude::*;
use crate::alu::{half_carry8, is_half_carry_u8};
use crate::mem::Memory;
use crate::regfile::{
    index_to_16reg, index_to_16reg_stack, index_to_8reg, RegFile, Register,
};
use crate::regfile::Register::{
    A, BC, C, CARRY_F, DE, HALF_CARRY_F, HL, L, NEGATIVE_F, PC, SP, ZERO_F,
};

verus! {

/// The little-endian 16-bit value with low byte `lo` and high byte `hi`.
pub open spec fn addr16(lo: u8, hi: u8) -> u16 {
    ((hi as u16) << 8u16) | (lo as u16)
}

/// The 16-bit two's-complement sign extension of a byte.
pub open spec fn sign_extend(n: u8) -> u16 {
    if n < 0x80 {
        n as u16
    } else {
        (n as u16) | 0xFF00
    }
}

/// How many immediate bytes follow an opcode.
pub open spec fn immediate_bytes(op: u8) -> u8 {
    if op == 0x08 || op == 0xEA || op == 0xFA {
        2
    } else if op == 0x36 || op == 0xE0 || op == 0xF0 || op == 0xF8 {
        1
    } else if op & 0xCF == 0x01 {
        2
    } else if op & 0xC7 == 0x06 {
        1
    } else {
        0
    }
}

/// The `n` immediate bytes (at most two) read from memory starting at `at`.
pub open spec fn operands(m: Seq<u8>, at: u16, n: u8) -> Seq<u8> {
    if n == 0 {
        seq![]
    } else if n == 1 {
        seq![m[at as int]]
    } else {
        seq![m[at as int], m[at.wrapping_add(1) as int]]
    }
}

/// Result of an opcode whose register field selects nothing, and of an opcode
/// outside the table: nothing changes and no cycle elapses.
pub open spec fn no_op(rf: RegFile, m: Seq<u8>) -> (RegFile, Seq<u8>, u32) {
    (rf, m, 0)
}

/// `ADD A, x`: the sum wraps; Z is set iff it is zero, N is cleared, H and C
/// report the carries out of bits 3 and 7.
pub open spec fn add_a(rf: RegFile, x: u8) -> RegFile {
    let a = rf.cell(A);
    let s = a.wrapping_add(x);
    rf.with8(A, s).with_flag(ZERO_F, s == 0).with_flag(NEGATIVE_F, false).with_flag(
        HALF_CARRY_F,
        half_carry8(a, x),
    ).with_flag(CARRY_F, a as int + x as int > 0xFF)
}

/// The instruction table: registers, memory and elapsed cycles after opcode
/// `op` runs with immediate bytes `d` on registers `rf` and memory `m`.
/// Exact opcodes are tried first, then the bit-field families in order.
pub open spec fn semantics(rf: RegFile, m: Seq<u8>, op: u8, d: Seq<u8>) -> (
    RegFile,
    Seq<u8>,
    u32,
) {
    let hl = rf.pair(HL);
    if op == 0x00 {
        (rf, m, 0)
    } else if op == 0x02 {
        (rf, m.update(rf.pair(BC) as int, rf.cell(A)), 8)
    } else if op == 0x08 {
        let at = addr16(d[0], d[1]);
        let sp = rf.pair(SP);
        (rf, m.update(at as int, sp as u8).update(at.wrapping_add(1) as int, (sp >> 8u16) as u8), 20)
    } else if op == 0x0A {
        (rf.with8(A, m[rf.pair(BC) as int]), m, 8)
    } else if op == 0x12 {
        (rf, m.update(rf.pair(DE) as int, rf.cell(A)), 8)
    } else if op == 0x1A {
        (rf.with8(A, m[rf.pair(DE) as int]), m, 8)
    } else if op == 0x22 {
        (rf.with16(HL, hl.wrapping_add(1)), m.update(hl as int, rf.cell(A)), 8)
    } else if op == 0x2A {
        (rf.with8(A, m[hl as int]).with16(HL, hl.wrapping_add(1)), m, 8)
    } else if op == 0x32 {
        (rf.with16(HL, hl.wrapping_sub(1)), m.update(hl as int, rf.cell(A)), 8)
    } else if op == 0x36 {
        // the immediate byte becomes the low byte of HL
        (rf.with8(L, d[0]), m, 12)
    } else if op == 0x3A {
        (rf.with8(A, m[hl as int]).with16(HL, hl.wrapping_sub(1)), m, 8)
    } else if op == 0xE0 {
        (rf, m.update(addr16(d[0], 0xFF) as int, rf.cell(A)), 12)
    } else if op == 0xE2 {
        (rf, m.update(addr16(rf.cell(C), 0xFF) as int, rf.cell(A)), 8)
    } else if op == 0xEA {
        (rf, m.update(addr16(d[0], d[1]) as int, rf.cell(A)), 16)
    } else if op == 0xF0 {
        (rf.with8(A, m[addr16(d[0], 0xFF) as int]), m, 12)
    } else if op == 0xF2 {
        (rf.with8(A, m[addr16(rf.cell(C), 0xFF) as int]), m, 8)
    } else if op == 0xF8 {
        let sp = rf.pair(SP);
        let n = d[0];
        (
            rf.with16(HL, sp.wrapping_add(sign_extend(n))).with_flag(ZERO_F, false).with_flag(
                NEGATIVE_F,
                false,
            ).with_flag(HALF_CARRY_F, half_carry8(sp as u8, n)).with_flag(
                CARRY_F,
                (sp as u8) as int + n as int > 0xFF,
            ),
            m,
            12,
        )
    } else if op == 0xF9 {
        (rf.with16(SP, hl), m, 8)
    } else if op == 0xFA {
        (rf.with8(A, m[addr16(d[0], d[1]) as int]), m, 16)
    } else if op & 0xF8 == 0x80 {
        match index_to_8reg(op & 0x07) {
            Some(r) => (add_a(rf, rf.cell(r)), m, 4),
            None => (add_a(rf, m[hl as int]), m, 8),
        }
    } else if op & 0xCF == 0xC5 {
        match index_to_16reg_stack((op & 0x30) >> 4u8) {
            Some(rr) => {
                let sp1 = rf.pair(SP).wrapping_sub(1);
                let sp2 = sp1.wrapping_sub(1);
                (
                    rf.with16(SP, sp2),
                    m.update(sp1 as int, rf.cell(rr.high())).update(sp2 as int, rf.cell(rr.low())),
                    16,
                )
            },
            None => no_op(rf, m),
        }
    } else if op & 0xCF == 0xC1 {
        match index_to_16reg_stack((op & 0x30) >> 4u8) {
            Some(rr) => {
                let sp = rf.pair(SP);
                let v = addr16(m[sp as int], m[sp.wrapping_add(1) as int]);
                (rf.with16(SP, sp.wrapping_add(2)).with16(rr, v), m, 12)
            },
            None => no_op(rf, m),
        }
    } else if op & 0xCF == 0x01 {
        match index_to_16reg((op & 0x30) >> 4u8) {
            Some(rr) => (rf.with16(rr, addr16(d[0], d[1])), m, 12),
            None => no_op(rf, m),
        }
    } else if op & 0xC7 == 0x06 {
        match index_to_8reg((op & 0x38) >> 3u8) {
            Some(r) => (rf.with8(r, d[0]), m, 4),
            None => no_op(rf, m),
        }
    } else if op & 0xC7 == 0x46 {
        match index_to_8reg((op & 0x38) >> 3u8) {
            Some(r) => (rf.with8(r, m[hl as int]), m, 4),
            None => no_op(rf, m),
        }
    } else if op & 0xF8 == 0x70 {
        match index_to_8reg(op & 0x07) {
            Some(r) => (rf, m.update(hl as int, rf.cell(r)), 4),
            None => no_op(rf, m),
        }
    } else if op & 0xC1 == 0x40 {
        match (index_to_8reg((op & 0x38) >> 3u8), index_to_8reg(op & 0x07)) {
            (Some(dst), Some(src)) => (rf.with8(dst, rf.cell(src)), m, 4),
            _ => no_op(rf, m),
        }
    } else {
        no_op(rf, m)
    }
}

/// A processor: its register file and its memory.
pub struct SharpCpu {
    pub regfile: RegFile,
    pub memory: Memory,
}

impl SharpCpu {
    /// The memory covers the whole address space and bits 0 to 3 of F are
    /// zero.
    pub open spec fn wf(&self) -> bool {
        self.memory.wf() && self.regfile.wf()
    }

    /// A processor with zeroed registers and zeroed memory.
    pub fn default() -> (cpu: SharpCpu)
        ensures
            cpu.wf(),
            cpu.regfile.wf(),
            forall|q: Register| #[trigger] cpu.regfile.cell(q) == 0,
            forall|i: int| 0 <= i < 0x10000 ==> #[trigger] cpu.memory@[i] == 0,
    {
        SharpCpu { regfile: RegFile::default(), memory: Memory::default() }
    }

    /// Number of immediate bytes that follow `opcode`.
    pub fn immediate_count(opcode: u8) -> (r: u8)
        ensures
            r == immediate_bytes(opcode),
    {
        if opcode == 0x08 || opcode == 0xEA || opcode == 0xFA {
            2
        } else if opcode == 0x36 || opcode == 0xE0 || opcode == 0xF0 || opcode == 0xF8 {
            1
        } else if opcode & 0xCF == 0x01 {
            2
        } else if opcode & 0xC7 == 0x06 {
            1
        } else {
            0
        }
    }

    /// Runs one instruction given its opcode and immediate bytes, and returns
    /// the cycles it took. `num_data_bytes` is informational: the opcode
    /// alone decides how many of `data` are read.
    #[verifier::rlimit(50)]
    pub fn execute(&mut self, opcode: u8, data: &[u8], num_data_bytes: u8) -> (cycles: u32)
        requires
            old(self).wf(),
            data@.len() >= immediate_bytes(opcode),
        ensures
            final(self).wf(),
            (final(self).regfile, final(self).memory@, cycles) == semantics(
                old(self).regfile,
                old(self).memory@,
                opcode,
                data@,
            ),
    {
        let ghost rf0 = self.regfile;
        let ghost hl0 = rf0.pair(HL);
        if opcode == 0x00 {
            0
        } else if opcode == 0x02 {
            let dst = self.regfile.get_16reg(BC);
            let v = self.regfile.get_8reg(A);
            self.memory.write(dst, v);
            8
        } else if opcode == 0x08 {
            let sp = self.regfile.get_16reg(SP);
            let dst = ((data[1] as u16) << 8u16) | (data[0] as u16);
            self.memory.write(dst, sp as u8);
            self.memory.write(dst.wrapping_add(1), (sp >> 8u16) as u8);
            20
        } else if opcode == 0x0A {
            let v = self.memory.read(self.regfile.get_16reg(BC));
            self.regfile.set_8reg(A, v);
            8
        } else if opcode == 0x12 {
            let dst = self.regfile.get_16reg(DE);
            let v = self.regfile.get_8reg(A);
            self.memory.write(dst, v);
            8
        } else if opcode == 0x1A {
            let v = self.memory.read(self.regfile.get_16reg(DE));
            self.regfile.set_8reg(A, v);
            8
        } else if opcode == 0x22 {
            let dst = self.regfile.get_16reg(HL);
            let v = self.regfile.get_8reg(A);
            self.memory.write(dst, v);
            self.regfile.increment(HL);
            8
        } else if opcode == 0x2A {
            let src = self.regfile.get_16reg(HL);
            let v = self.memory.read(src);
            self.regfile.set_8reg(A, v);
            proof {
                rf0.lemma_with8(A, v);
            }
            self.regfile.increment(HL);
            8
        } else if opcode == 0x32 {
            let dst = self.regfile.get_16reg(HL);
            let v = self.regfile.get_8reg(A);
            self.memory.write(dst, v);
            self.regfile.decrement(HL);
            8
        } else if opcode == 0x36 {
            self.regfile.set_8reg(L, data[0]);
            12
        } else if opcode == 0x3A {
            let src = self.regfile.get_16reg(HL);
            let v = self.memory.read(src);
            self.regfile.set_8reg(A, v);
            proof {
                rf0.lemma_with8(A, v);
            }
            self.regfile.decrement(HL);
            8
        } else if opcode == 0xE0 {
            let n = data[0];
            let dst = 0xFF00u16 | (n as u16);
            assert(dst == addr16(n, 0xFF)) by (bit_vector)
                requires
                    dst == 0xFF00u16 | (n as u16),
            ;
            let v = self.regfile.get_8reg(A);
            self.memory.write(dst, v);
            12
        } else if opcode == 0xE2 {
            let c = self.regfile.get_8reg(C);
            let dst = 0xFF00u16 | (c as u16);
            assert(dst == addr16(c, 0xFF)) by (bit_vector)
                requires
                    dst == 0xFF00u16 | (c as u16),
            ;
            let v = self.regfile.get_8reg(A);
            self.memory.write(dst, v);
            8
        } else if opcode == 0xEA {
            let dst = ((data[1] as u16) << 8u16) | (data[0] as u16);
            let v = self.regfile.get_8reg(A);
            self.memory.write(dst, v);
            16
        } else if opcode == 0xF0 {
            let n = data[0];
            let src = 0xFF00u16 | (n as u16);
            assert(src == addr16(n, 0xFF)) by (bit_vector)
                requires
                    src == 0xFF00u16 | (n as u16),
            ;
            let v = self.memory.read(src);
            self.regfile.set_8reg(A, v);
            12
        } else if opcode == 0xF2 {
            let c = self.regfile.get_8reg(C);
            let src = 0xFF00u16 | (c as u16);
            assert(src == addr16(c, 0xFF)) by (bit_vector)
                requires
                    src == 0xFF00u16 | (c as u16),
            ;
            let v = self.memory.read(src);
            self.regfile.set_8reg(A, v);
            8
        } else if opcode == 0xF8 {
            let sp = self.regfile.get_16reg(SP);
            let n = data[0];
            let offset: u16 = if n < 0x80 {
                n as u16
            } else {
                (n as u16) | 0xFF00
            };
            let low = sp as u8;
            let half = is_half_carry_u8(low, n);
            let carry = (low as u16) + (n as u16) > 0xFF;
            self.regfile.set_16reg(HL, sp.wrapping_add(offset));
            self.regfile.set_flag(ZERO_F, false);
            self.regfile.set_flag(NEGATIVE_F, false);
            self.regfile.set_flag(HALF_CARRY_F, half);
            self.regfile.set_flag(CARRY_F, carry);
            12
        } else if opcode == 0xF9 {
            let v = self.regfile.get_16reg(HL);
            self.regfile.set_16reg(SP, v);
            8
        } else if opcode == 0xFA {
            let src = ((data[1] as u16) << 8u16) | (data[0] as u16);
            let v = self.memory.read(src);
            self.regfile.set_8reg(A, v);
            16
        } else if opcode & 0xF8 == 0x80 {
            match RegFile::num_to_8reg(opcode & 0x07) {
                Some(r) => {
                    let x = self.regfile.get_8reg(r);
                    self.add_to_a(x);
                    4
                },
                None => {
                    let x = self.memory.read(self.regfile.get_16reg(HL));
                    self.add_to_a(x);
                    8
                },
            }
        } else if opcode & 0xCF == 0xC5 {
            match RegFile::num_to_16reg_stack((opcode & 0x30) >> 4u8) {
                Some(rr) => {
                    let (hi, lo) = self.regfile.get_byte_pair(rr);
                    let ghost sp1 = rf0.pair(SP).wrapping_sub(1);
                    let ghost sp2 = sp1.wrapping_sub(1);
                    self.regfile.decrement(SP);
                    proof {
                        crate::regfile::lemma_set16_get16(rf0, SP, sp1);
                    }
                    let at1 = self.regfile.get_16reg(SP);
                    self.memory.write(at1, hi);
                    self.regfile.decrement(SP);
                    proof {
                        crate::regfile::lemma_with16_twice(rf0, SP, sp1, sp2);
                    }
                    let at2 = self.regfile.get_16reg(SP);
                    proof {
                        crate::regfile::lemma_set16_get16(rf0, SP, sp2);
                    }
                    self.memory.write(at2, lo);
                    16
                },
                None => 0,
            }
        } else if opcode & 0xCF == 0xC1 {
            match RegFile::num_to_16reg_stack((opcode & 0x30) >> 4u8) {
                Some(rr) => {
                    let ghost sp = rf0.pair(SP);
                    let ghost sp1 = sp.wrapping_add(1);
                    let ghost sp2 = sp1.wrapping_add(1);
                    let lo = self.memory.read(self.regfile.get_16reg(SP));
                    self.regfile.increment(SP);
                    proof {
                        crate::regfile::lemma_set16_get16(rf0, SP, sp1);
                    }
                    let hi = self.memory.read(self.regfile.get_16reg(SP));
                    self.regfile.increment(SP);
                    proof {
                        crate::regfile::lemma_with16_twice(rf0, SP, sp1, sp2);
                        assert(sp2 == sp.wrapping_add(2));
                    }
                    self.regfile.set_16reg(rr, ((hi as u16) << 8u16) | (lo as u16));
                    12
                },
                None => 0,
            }
        } else if opcode & 0xCF == 0x01 {
            match RegFile::num_to_16reg((opcode & 0x30) >> 4u8) {
                Some(rr) => {
                    let v = ((data[1] as u16) << 8u16) | (data[0] as u16);
                    self.regfile.set_16reg(rr, v);
                    12
                },
                None => 0,
            }
        } else if opcode & 0xC7 == 0x06 {
            match RegFile::num_to_8reg((opcode & 0x38) >> 3u8) {
                Some(r) => {
                    self.regfile.set_8reg(r, data[0]);
                    4
                },
                None => 0,
            }
        } else if opcode & 0xC7 == 0x46 {
            match RegFile::num_to_8reg((opcode & 0x38) >> 3u8) {
                Some(r) => {
                    let v = self.memory.read(self.regfile.get_16reg(HL));
                    self.regfile.set_8reg(r, v);
                    4
                },
                None => 0,
            }
        } else if opcode & 0xF8 == 0x70 {
            match RegFile::num_to_8reg(opcode & 0x07) {
                Some(r) => {
                    let v = self.regfile.get_8reg(r);
                    let dst = self.regfile.get_16reg(HL);
                    self.memory.write(dst, v);
                    4
                },
                None => 0,
            }
        } else if opcode & 0xC1 == 0x40 {
            match (
                RegFile::num_to_8reg((opcode & 0x38) >> 3u8),
                RegFile::num_to_8reg(opcode & 0x07),
            ) {
                (Some(dst), Some(src)) => {
                    let v = self.regfile.get_8reg(src);
                    self.regfile.set_8reg(dst, v);
                    4
                },
                _ => 0,
            }
        } else {
            0
        }
    }

    /// Reads the opcode at PC and advances PC by one, wrapping around.
    pub fn fetch(&mut self) -> (opcode: u8)
        requires
            old(self).wf(),
        ensures
            final(self).wf(),
            opcode == old(self).memory@[old(self).regfile.pair(PC) as int],
            final(self).regfile == old(self).regfile.with16(
                PC,
                old(self).regfile.pair(PC).wrapping_add(1),
            ),
            final(self).memory == old(self).memory,
    {
        let pc = self.regfile.get_16reg(PC);
        let opcode = self.memory.read(pc);
        self.regfile.increment(PC);
        opcode
    }

    /// The opcode just fetched (the byte before PC) and the number of
    /// immediate bytes that follow it.
    pub fn decode(&self) -> (r: (u8, u8))
        requires
            self.wf(),
        ensures
            r.0 == self.memory@[self.regfile.pair(PC).wrapping_sub(1) as int],
            r.1 == immediate_bytes(r.0),
    {
        let pc = self.regfile.get_16reg(PC);
        let opcode = self.memory.read(pc.wrapping_sub(1));
        (opcode, Self::immediate_count(opcode))
    }

    /// Runs one whole instruction: fetches the opcode, decodes it, fetches its
    /// immediate bytes (advancing PC past each), executes it and returns the
    /// cycles it took.
    pub fn step(&mut self) -> (cycles: u32)
        requires
            old(self).wf(),
        ensures
            final(self).wf(),
            ({
                let rf = old(self).regfile;
                let m = old(self).memory@;
                let pc = rf.pair(PC);
                let op = m[pc as int];
                let n = immediate_bytes(op);
                let d = operands(m, pc.wrapping_add(1), n);
                let next = pc.wrapping_add(1).wrapping_add(n as u16);
                (final(self).regfile, final(self).memory@, cycles) == semantics(
                    rf.with16(PC, next),
                    m,
                    op,
                    d,
                )
            }),
    {
        let ghost rf0 = self.regfile;
        let ghost pc0 = rf0.pair(PC);
        let opcode = self.fetch();
        proof {
            crate::regfile::lemma_set16_get16(rf0, PC, pc0.wrapping_add(1));
        }
        let (op, n) = self.decode();
        let mut data: Vec<u8> = Vec::new();
        if n >= 1 {
            let b0 = self.fetch();
            data.push(b0);
            proof {
                crate::regfile::lemma_with16_twice(
                    rf0,
                    PC,
                    pc0.wrapping_add(1),
                    pc0.wrapping_add(1).wrapping_add(1),
                );
                crate::regfile::lemma_set16_get16(rf0, PC, pc0.wrapping_add(1).wrapping_add(1));
            }
            if n >= 2 {
                let b1 = self.fetch();
                data.push(b1);
                proof {
                    crate::regfile::lemma_with16_twice(
                        rf0,
                        PC,
                        pc0.wrapping_add(1).wrapping_add(1),
                        pc0.wrapping_add(1).wrapping_add(1).wrapping_add(1),
                    );
                    assert(pc0.wrapping_add(1).wrapping_add(1).wrapping_add(1) == pc0.wrapping_add(
                        1,
                    ).wrapping_add(2));
                }
            }
        }
        proof {
            assert(data@ =~= operands(self.memory@, pc0.wrapping_add(1), n));
        }
        self.execute(opcode, data.as_slice(), n)
    }

    fn add_to_a(&mut self, x: u8)
        ensures
            old(self).regfile.wf() ==> final(self).regfile.wf(),
            final(self).regfile == add_a(old(self).regfile, x),
            final(self).memory == old(self).memory,
    {
        let a = self.regfile.get_8reg(A);
        let s = a.wrapping_add(x);
        let half = is_half_carry_u8(a, x);
        let carry = (a as u16) + (x as u16) > 0xFF;
        self.regfile.set_8reg(A, s);
        self.regfile.set_flag(ZERO_F, s == 0);
        self.regfile.set_flag(NEGATIVE_F, false);
        self.regfile.set_flag(HALF_CARRY_F, half);
        self.regfile.set_flag(CARRY_F, carry);
    }
}

/// Registers, memory and total cycles after opcode `op` runs `k` times in a
/// row with immediate bytes `d`.
pub open spec fn run_repeated(rf: RegFile, m: Seq<u8>, op: u8, d: Seq<u8>, k: nat) -> (
    RegFile,
    Seq<u8>,
    int,
)
    decreases k,
{
    if k == 0 {
        (rf, m, 0)
    } else {
        let (rf1, m1, c) = semantics(rf, m, op, d);
        let (rf2, m2, total) = run_repeated(rf1, m1, op, d, (k - 1) as nat);
        (rf2, m2, c + total)
    }
}

/// The no-op opcode changes no register and no memory cell and takes no
/// cycle, however many times it runs.
pub proof fn lemma_nop_changes_nothing(rf: RegFile, m: Seq<u8>, d: Seq<u8>, k: nat)
    ensures
        semantics(rf, m, 0x00, d) == (rf, m, 0u32),
        run_repeated(rf, m, 0x00, d, k) == (rf, m, 0int),
    decreases k,
{
    if k > 0 {
        lemma_nop_changes_nothing(rf, m, d, (k - 1) as nat);
    }
}

} // verus!
