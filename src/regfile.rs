use vstd::prelude::*;

verus! {

/// Identifiers of the 8-bit cells, the 16-bit register pairs and the flags.
#[allow(non_camel_case_types)]
#[derive(Clone, Copy, Debug, PartialEq, Eq, Structural)]
pub enum Register {
    B,
    C,
    D,
    E,
    H,
    L,
    F,
    A,
    SP_HIGH,
    SP_LOW,
    PC_HIGH,
    PC_LOW,
    AF,
    BC,
    DE,
    HL,
    SP,
    PC,
    ZERO_F,
    NEGATIVE_F,
    HALF_CARRY_F,
    CARRY_F,
}

use Register::{
    A, AF, B, BC, C, CARRY_F, D, DE, E, F, H, HALF_CARRY_F, HL, L, NEGATIVE_F, PC, PC_HIGH, PC_LOW,
    SP, SP_HIGH, SP_LOW, ZERO_F,
};

impl Register {
    /// One of the 8-bit storage cells.
    pub open spec fn is_8bit(self) -> bool {
        match self {
            B | C | D | E | H | L | F | A | SP_HIGH | SP_LOW | PC_HIGH | PC_LOW => true,
            _ => false,
        }
    }

    /// One of the 16-bit views AF, BC, DE, HL, SP, PC.
    pub open spec fn is_16bit(self) -> bool {
        match self {
            AF | BC | DE | HL | SP | PC => true,
            _ => false,
        }
    }

    /// One of the four flags held in F.
    pub open spec fn is_flag(self) -> bool {
        match self {
            ZERO_F | NEGATIVE_F | HALF_CARRY_F | CARRY_F => true,
            _ => false,
        }
    }

    /// The cell holding the high byte of a 16-bit view.
    pub open spec fn high(self) -> Register {
        match self {
            AF => A,
            BC => B,
            DE => D,
            HL => H,
            SP => SP_HIGH,
            _ => PC_HIGH,
        }
    }

    /// The cell holding the low byte of a 16-bit view.
    pub open spec fn low(self) -> Register {
        match self {
            AF => F,
            BC => C,
            DE => E,
            HL => L,
            SP => SP_LOW,
            _ => PC_LOW,
        }
    }

    /// The bit of F that a flag occupies.
    pub open spec fn flag_mask(self) -> u8 {
        match self {
            ZERO_F => 0x80,
            NEGATIVE_F => 0x40,
            HALF_CARRY_F => 0x20,
            _ => 0x10,
        }
    }
}

/// What an 8-bit cell holds after `v` is written to it: the low nibble of F
/// is always zero.
pub open spec fn stored8(reg: Register, v: u8) -> u8 {
    if reg == F {
        v & 0xF0
    } else {
        v
    }
}

/// What a 16-bit view reads after `v` is written to it.
pub open spec fn stored16(reg: Register, v: u16) -> u16 {
    if reg == AF {
        v & 0xFFF0
    } else {
        v
    }
}

/// The processor's registers: twelve 8-bit cells, F holding the flags.
pub struct RegFile {
    b: u8,
    c: u8,
    d: u8,
    e: u8,
    h: u8,
    l: u8,
    f: u8,
    a: u8,
    sp_high: u8,
    sp_low: u8,
    pc_high: u8,
    pc_low: u8,
}

impl RegFile {
    /// The value of an 8-bit cell (zero for any other identifier).
    pub closed spec fn cell(self, reg: Register) -> u8 {
        match reg {
            B => self.b,
            C => self.c,
            D => self.d,
            E => self.e,
            H => self.h,
            L => self.l,
            F => self.f,
            A => self.a,
            SP_HIGH => self.sp_high,
            SP_LOW => self.sp_low,
            PC_HIGH => self.pc_high,
            PC_LOW => self.pc_low,
            _ => 0,
        }
    }

    /// The value of a 16-bit view: its high cell shifted left by eight, or'ed
    /// with its low cell.
    pub open spec fn pair(self, reg: Register) -> u16 {
        ((self.cell(reg.high()) as u16) << 8u16) | (self.cell(reg.low()) as u16)
    }

    /// The value of a flag: its bit of F.
    pub open spec fn flag(self, reg: Register) -> bool {
        self.cell(F) & reg.flag_mask() != 0
    }

    /// Bits 0 to 3 of F are zero.
    pub open spec fn wf(self) -> bool {
        self.cell(F) & 0x0F == 0
    }

    /// The register file after `v` is written to the 8-bit cell `reg`.
    pub closed spec fn with8(self, reg: Register, v: u8) -> RegFile {
        match reg {
            B => RegFile { b: v, ..self },
            C => RegFile { c: v, ..self },
            D => RegFile { d: v, ..self },
            E => RegFile { e: v, ..self },
            H => RegFile { h: v, ..self },
            L => RegFile { l: v, ..self },
            F => RegFile { f: v & 0xF0, ..self },
            A => RegFile { a: v, ..self },
            SP_HIGH => RegFile { sp_high: v, ..self },
            SP_LOW => RegFile { sp_low: v, ..self },
            PC_HIGH => RegFile { pc_high: v, ..self },
            PC_LOW => RegFile { pc_low: v, ..self },
            _ => self,
        }
    }

    /// The register file after `v` is written to the 16-bit view `reg`: high
    /// byte first, then low byte.
    pub open spec fn with16(self, reg: Register, v: u16) -> RegFile {
        self.with8(reg.high(), (v >> 8u16) as u8).with8(reg.low(), v as u8)
    }

    /// The register file after flag `reg` is set to `b`.
    pub open spec fn with_flag(self, reg: Register, b: bool) -> RegFile {
        let f = self.cell(F);
        self.with8(F, if b { f | reg.flag_mask() } else { f & !reg.flag_mask() })
    }

    /// Writing an 8-bit cell changes that cell alone.
    pub proof fn lemma_with8(self, reg: Register, v: u8)
        requires
            reg.is_8bit(),
        ensures
            forall|q: Register|
                #![trigger self.with8(reg, v).cell(q)]
                self.with8(reg, v).cell(q) == if q == reg {
                    stored8(reg, v)
                } else {
                    self.cell(q)
                },
    {
    }

    /// A zeroed register file.
    pub fn default() -> (r: RegFile)
        ensures
            r.wf(),
            forall|q: Register| #[trigger] r.cell(q) == 0,
    {
        assert(0u8 & 0x0F == 0) by (bit_vector);
        RegFile {
            b: 0,
            c: 0,
            d: 0,
            e: 0,
            h: 0,
            l: 0,
            f: 0,
            a: 0,
            sp_high: 0,
            sp_low: 0,
            pc_high: 0,
            pc_low: 0,
        }
    }

    /// Reads an 8-bit cell.
    pub fn get_8reg(&self, reg: Register) -> (r: u8)
        requires
            reg.is_8bit(),
        ensures
            r == self.cell(reg),
    {
        match reg {
            B => self.b,
            C => self.c,
            D => self.d,
            E => self.e,
            H => self.h,
            L => self.l,
            F => self.f,
            A => self.a,
            SP_HIGH => self.sp_high,
            SP_LOW => self.sp_low,
            PC_HIGH => self.pc_high,
            _ => self.pc_low,
        }
    }

    /// Reads a 16-bit view.
    pub fn get_16reg(&self, reg: Register) -> (r: u16)
        requires
            reg.is_16bit(),
        ensures
            r == self.pair(reg),
    {
        let (hi, lo) = self.get_byte_pair(reg);
        ((hi as u16) << 8u16) | (lo as u16)
    }

    /// Reads a flag.
    pub fn get_flag(&self, reg: Register) -> (r: bool)
        requires
            reg.is_flag(),
        ensures
            r == self.flag(reg),
    {
        let mask: u8 = match reg {
            ZERO_F => 0x80,
            NEGATIVE_F => 0x40,
            HALF_CARRY_F => 0x20,
            _ => 0x10,
        };
        self.f & mask != 0
    }

    /// The high and low bytes of a 16-bit view.
    pub fn get_byte_pair(&self, reg: Register) -> (r: (u8, u8))
        requires
            reg.is_16bit(),
        ensures
            r == (self.cell(reg.high()), self.cell(reg.low())),
    {
        match reg {
            AF => (self.a, self.f),
            BC => (self.b, self.c),
            DE => (self.d, self.e),
            HL => (self.h, self.l),
            SP => (self.sp_high, self.sp_low),
            _ => (self.pc_high, self.pc_low),
        }
    }

    /// Writes an 8-bit cell; a write to F clears its low nibble.
    pub fn set_8reg(&mut self, reg: Register, val: u8)
        requires
            reg.is_8bit(),
        ensures
            old(self).wf() ==> final(self).wf(),
            *final(self) == old(self).with8(reg, val),
    {
        match reg {
            B => self.b = val,
            C => self.c = val,
            D => self.d = val,
            E => self.e = val,
            H => self.h = val,
            L => self.l = val,
            F => self.f = val & 0xF0,
            A => self.a = val,
            SP_HIGH => self.sp_high = val,
            SP_LOW => self.sp_low = val,
            PC_HIGH => self.pc_high = val,
            _ => self.pc_low = val,
        }
        assert((val & 0xF0) & 0x0F == 0) by (bit_vector);
    }

    /// Writes a 16-bit view by splitting `val` into its two cells.
    pub fn set_16reg(&mut self, reg: Register, val: u16)
        requires
            reg.is_16bit(),
        ensures
            old(self).wf() ==> final(self).wf(),
            *final(self) == old(self).with16(reg, val),
    {
        let hi = (val >> 8u16) as u8;
        let lo = val as u8;
        match reg {
            AF => {
                self.set_8reg(A, hi);
                self.set_8reg(F, lo);
            },
            BC => {
                self.set_8reg(B, hi);
                self.set_8reg(C, lo);
            },
            DE => {
                self.set_8reg(D, hi);
                self.set_8reg(E, lo);
            },
            HL => {
                self.set_8reg(H, hi);
                self.set_8reg(L, lo);
            },
            SP => {
                self.set_8reg(SP_HIGH, hi);
                self.set_8reg(SP_LOW, lo);
            },
            _ => {
                self.set_8reg(PC_HIGH, hi);
                self.set_8reg(PC_LOW, lo);
            },
        }
    }

    /// Sets or clears the bit of F that holds flag `reg`.
    pub fn set_flag(&mut self, reg: Register, val: bool)
        requires
            reg.is_flag(),
        ensures
            old(self).wf() ==> final(self).wf(),
            *final(self) == old(self).with_flag(reg, val),
    {
        let mask: u8 = match reg {
            ZERO_F => 0x80,
            NEGATIVE_F => 0x40,
            HALF_CARRY_F => 0x20,
            _ => 0x10,
        };
        let f = self.f;
        if val {
            self.set_8reg(F, f | mask);
        } else {
            self.set_8reg(F, f & !mask);
        }
    }

    /// Adds one to an 8-bit cell or a 16-bit view, wrapping around.
    pub fn increment(&mut self, reg: Register)
        requires
            reg.is_8bit() || reg.is_16bit(),
        ensures
            old(self).wf() ==> final(self).wf(),
            reg.is_16bit() ==> *final(self) == old(self).with16(
                reg,
                old(self).pair(reg).wrapping_add(1),
            ),
            reg.is_8bit() ==> *final(self) == old(self).with8(
                reg,
                old(self).cell(reg).wrapping_add(1),
            ),
    {
        if Self::is_pair(reg) {
            let v = self.get_16reg(reg);
            self.set_16reg(reg, v.wrapping_add(1));
        } else {
            let v = self.get_8reg(reg);
            self.set_8reg(reg, v.wrapping_add(1));
        }
    }

    /// Subtracts one from an 8-bit cell or a 16-bit view, wrapping around.
    pub fn decrement(&mut self, reg: Register)
        requires
            reg.is_8bit() || reg.is_16bit(),
        ensures
            old(self).wf() ==> final(self).wf(),
            reg.is_16bit() ==> *final(self) == old(self).with16(
                reg,
                old(self).pair(reg).wrapping_sub(1),
            ),
            reg.is_8bit() ==> *final(self) == old(self).with8(
                reg,
                old(self).cell(reg).wrapping_sub(1),
            ),
    {
        if Self::is_pair(reg) {
            let v = self.get_16reg(reg);
            self.set_16reg(reg, v.wrapping_sub(1));
        } else {
            let v = self.get_8reg(reg);
            self.set_8reg(reg, v.wrapping_sub(1));
        }
    }

    fn is_pair(reg: Register) -> (r: bool)
        ensures
            r == reg.is_16bit(),
    {
        match reg {
            AF | BC | DE | HL | SP | PC => true,
            _ => false,
        }
    }

    /// The 8-bit register selected by a 3-bit instruction field; index 6
    /// (memory through HL) and anything above 7 select none.
    pub fn num_to_8reg(num: u8) -> (r: Option<Register>)
        ensures
            r == index_to_8reg(num),
    {
        match num {
            0 => Some(B),
            1 => Some(C),
            2 => Some(D),
            3 => Some(E),
            4 => Some(H),
            5 => Some(L),
            7 => Some(A),
            _ => None,
        }
    }

    /// The register pair selected by a 2-bit field in general loads.
    pub fn num_to_16reg(num: u8) -> (r: Option<Register>)
        ensures
            r == index_to_16reg(num),
    {
        match num {
            0 => Some(BC),
            1 => Some(DE),
            2 => Some(HL),
            3 => Some(SP),
            _ => None,
        }
    }

    /// The register pair selected by a 2-bit field in push and pop.
    pub fn num_to_16reg_stack(num: u8) -> (r: Option<Register>)
        ensures
            r == index_to_16reg_stack(num),
    {
        match num {
            0 => Some(BC),
            1 => Some(DE),
            2 => Some(HL),
            3 => Some(AF),
            _ => None,
        }
    }
}

/// The 8-bit register table of the instruction encoding.
pub open spec fn index_to_8reg(num: u8) -> Option<Register> {
    if num == 0 {
        Some(B)
    } else if num == 1 {
        Some(C)
    } else if num == 2 {
        Some(D)
    } else if num == 3 {
        Some(E)
    } else if num == 4 {
        Some(H)
    } else if num == 5 {
        Some(L)
    } else if num == 7 {
        Some(A)
    } else {
        None
    }
}

/// The register-pair table of general 16-bit loads.
pub open spec fn index_to_16reg(num: u8) -> Option<Register> {
    if num == 0 {
        Some(BC)
    } else if num == 1 {
        Some(DE)
    } else if num == 2 {
        Some(HL)
    } else if num == 3 {
        Some(SP)
    } else {
        None
    }
}

/// The register-pair table of push and pop, where index 3 is AF.
pub open spec fn index_to_16reg_stack(num: u8) -> Option<Register> {
    if num == 0 {
        Some(BC)
    } else if num == 1 {
        Some(DE)
    } else if num == 2 {
        Some(HL)
    } else if num == 3 {
        Some(AF)
    } else {
        None
    }
}

/// Writing a 16-bit view and reading it back gives the value written, except
/// that the low nibble of AF (bits 0 to 3 of F) always reads zero; a 16-bit
/// view always reads as its high cell shifted left by eight, or'ed with its
/// low cell.
pub proof fn lemma_set16_get16(rf: RegFile, reg: Register, v: u16)
    requires
        reg.is_16bit(),
    ensures
        rf.with16(reg, v).pair(reg) == stored16(reg, v),
        reg != AF ==> rf.with16(reg, v).pair(reg) == v,
        rf.pair(reg) == ((rf.cell(reg.high()) as u16) << 8u16) | (rf.cell(reg.low()) as u16),
{
    let hi = (v >> 8u16) as u8;
    let lo = v as u8;
    let r1 = rf.with8(reg.high(), hi);
    rf.lemma_with8(reg.high(), hi);
    r1.lemma_with8(reg.low(), lo);
    assert(((hi as u16) << 8u16) | (lo as u16) == v) by (bit_vector)
        requires
            hi == (v >> 8u16) as u8,
            lo == v as u8,
    ;
    assert(((hi as u16) << 8u16) | ((lo & 0xF0) as u16) == v & 0xFFF0) by (bit_vector)
        requires
            hi == (v >> 8u16) as u8,
            lo == v as u8,
    ;
}

proof fn lemma_flag_bits(f: u8, m: u8, n: u8)
    requires
        m == 0x80u8 || m == 0x40u8 || m == 0x20u8 || m == 0x10u8,
        n == 0x80u8 || n == 0x40u8 || n == 0x20u8 || n == 0x10u8,
    ensures
        ((f | m) & 0xF0) & m != 0,
        ((f & !m) & 0xF0) & m == 0,
        m != n ==> ((f | m) & 0xF0) & n == f & n,
        m != n ==> ((f & !m) & 0xF0) & n == f & n,
        ((f | m) & 0xF0) & 0x0F == 0,
        ((f & !m) & 0xF0) & 0x0F == 0,
{
    assert(((f | m) & 0xF0) & m != 0 && ((f & !m) & 0xF0) & m == 0 && (m != n ==> ((f | m)
        & 0xF0) & n == f & n) && (m != n ==> ((f & !m) & 0xF0) & n == f & n) && ((f | m) & 0xF0)
        & 0x0F == 0 && ((f & !m) & 0xF0) & 0x0F == 0) by (bit_vector)
        requires
            m == 0x80u8 || m == 0x40u8 || m == 0x20u8 || m == 0x10u8,
            n == 0x80u8 || n == 0x40u8 || n == 0x20u8 || n == 0x10u8,
    ;
}

/// Setting a flag and reading it back gives the value set; the other flags,
/// bits 0 to 3 of F and every other cell keep their values.
pub proof fn lemma_set_flag_get_flag(rf: RegFile, reg: Register, b: bool, other: Register)
    requires
        rf.wf(),
        reg.is_flag(),
        other.is_flag(),
    ensures
        rf.with_flag(reg, b).flag(reg) == b,
        other != reg ==> rf.with_flag(reg, b).flag(other) == rf.flag(other),
        rf.with_flag(reg, b).cell(F) & 0x0F == rf.cell(F) & 0x0F,
        rf.with_flag(reg, b).wf(),
        forall|q: Register| q != F ==> #[trigger] rf.with_flag(reg, b).cell(q) == rf.cell(q),
{
    let f = rf.cell(F);
    let nf = if b { f | reg.flag_mask() } else { f & !reg.flag_mask() };
    rf.lemma_with8(F, nf);
    lemma_flag_bits(f, reg.flag_mask(), other.flag_mask());
    assert(reg != other ==> reg.flag_mask() != other.flag_mask());
}

/// Writing a 16-bit view twice leaves what the second write leaves.
pub proof fn lemma_with16_twice(rf: RegFile, reg: Register, v: u16, w: u16)
    requires
        reg.is_16bit(),
    ensures
        rf.with16(reg, v).with16(reg, w) == rf.with16(reg, w),
{
}

/// Incrementing a 16-bit view that holds 0xFFFF wraps it to 0x0000.
pub proof fn lemma_increment_wraps(rf: RegFile, reg: Register)
    requires
        reg.is_16bit(),
        rf.pair(reg) == 0xFFFF,
    ensures
        rf.with16(reg, rf.pair(reg).wrapping_add(1)).pair(reg) == 0,
{
    lemma_set16_get16(rf, reg, 0);
    assert(0u16 & 0xFFF0 == 0) by (bit_vector);
}

/// Decrementing a 16-bit view that holds 0x0000 wraps it to 0xFFFF (0xFFF0
/// for AF, whose low nibble always reads zero).
pub proof fn lemma_decrement_wraps(rf: RegFile, reg: Register)
    requires
        reg.is_16bit(),
        rf.pair(reg) == 0,
    ensures
        rf.with16(reg, rf.pair(reg).wrapping_sub(1)).pair(reg) == stored16(reg, 0xFFFF),
        reg != AF ==> rf.with16(reg, rf.pair(reg).wrapping_sub(1)).pair(reg) == 0xFFFF,
{
    lemma_set16_get16(rf, reg, 0xFFFF);
}

} // verus!
