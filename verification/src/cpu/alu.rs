//! The arithmetic and logic of the CPU, as functions of register values.

use vstd::prelude::*;

verus! {

pub const FLAG_N: u8 = 0b1000_0000;

pub const FLAG_V: u8 = 0b0100_0000;

pub const FLAG_D: u8 = 0b0000_1000;

pub const FLAG_I: u8 = 0b0000_0100;

pub const FLAG_Z: u8 = 0b0000_0010;

pub const FLAG_C: u8 = 0b0000_0001;

/// The status register. Bits 7 to 0 are N, V, two bits without a flag
/// behind them, D, I, Z and C.
#[derive(Debug, Clone, Copy)]
pub struct StatusReg {
    pub value: u8,
}

#[allow(non_snake_case)]
impl StatusReg {
    /// The register with the flag of `mask` set to `v`.
    pub open spec fn with_flag(self, mask: u8, v: bool) -> StatusReg {
        StatusReg {
            value: if v {
                self.value | mask
            } else {
                self.value & !mask
            },
        }
    }

    /// Whether the flag of `mask` is set.
    pub open spec fn flag(self, mask: u8) -> bool {
        self.value & mask != 0
    }

    /// The register with Z and N set from a result: Z when it is zero, N
    /// from its bit 7.
    pub open spec fn with_zn(self, r: u8) -> StatusReg {
        self.with_flag(FLAG_Z, r == 0).with_flag(FLAG_N, r & 0b1000_0000 != 0)
    }

    /// The register after a byte is pulled into it: the six flags come from
    /// the byte, bits 4 and 5 stay.
    pub open spec fn pulled(self, value: u8) -> StatusReg {
        StatusReg { value: (value & 0b1100_1111) | (self.value & 0b0011_0000) }
    }

    /// The byte that is pushed for the register: the six flags, with bits 4
    /// and 5 set from the low two bits of `source` (3 for an instruction,
    /// 2 for an interrupt).
    pub open spec fn pushed(self, source: u8) -> u8 {
        (self.value & 0b1100_1111) | ((source & 0b11) << 4)
    }

    pub fn new() -> (r: Self)
        ensures
            r.value == 0x24,
    {
        Self { value: 0x24 }
    }

    pub fn reset(&mut self)
        ensures
            final(self).value == 0x24,
    {
        self.value = 0x24;
    }

    pub fn set_value(&mut self, value: u8)
        ensures
            *final(self) == old(self).pulled(value),
    {
        self.value = (value & 0b1100_1111) | (self.value & 0b0011_0000);
    }

    fn set(&mut self, mask: u8, v: bool)
        ensures
            *final(self) == old(self).with_flag(mask, v),
    {
        if v {
            self.value = self.value | mask;
        } else {
            self.value = self.value & !mask;
        }
    }

    pub fn set_N(&mut self, v: bool)
        ensures
            *final(self) == old(self).with_flag(FLAG_N, v),
    {
        self.set(FLAG_N, v);
    }

    pub fn set_V(&mut self, v: bool)
        ensures
            *final(self) == old(self).with_flag(FLAG_V, v),
    {
        self.set(FLAG_V, v);
    }

    /// The byte to push for the register; the register stays as it is.
    pub fn set_B(&self, v: u8) -> (r: u8)
        ensures
            r == self.pushed(v),
    {
        (self.value & 0b1100_1111) | ((v & 0b11) << 4)
    }

    pub fn set_D(&mut self, v: bool)
        ensures
            *final(self) == old(self).with_flag(FLAG_D, v),
    {
        self.set(FLAG_D, v);
    }

    pub fn set_I(&mut self, v: bool)
        ensures
            *final(self) == old(self).with_flag(FLAG_I, v),
    {
        self.set(FLAG_I, v);
    }

    pub fn set_Z(&mut self, v: bool)
        ensures
            *final(self) == old(self).with_flag(FLAG_Z, v),
    {
        self.set(FLAG_Z, v);
    }

    pub fn set_C(&mut self, v: bool)
        ensures
            *final(self) == old(self).with_flag(FLAG_C, v),
    {
        self.set(FLAG_C, v);
    }

    /// Sets Z and N from a result.
    pub fn set_ZN(&mut self, r: u8)
        ensures
            *final(self) == old(self).with_zn(r),
    {
        self.set(FLAG_Z, r == 0);
        self.set(FLAG_N, r & 0b1000_0000 != 0);
    }

    pub fn get_N(&self) -> (r: bool)
        ensures
            r == self.flag(FLAG_N),
    {
        (self.value & FLAG_N) != 0x0
    }

    pub fn get_V(&self) -> (r: bool)
        ensures
            r == self.flag(FLAG_V),
    {
        (self.value & FLAG_V) != 0x0
    }

    pub fn get_D(&self) -> (r: bool)
        ensures
            r == self.flag(FLAG_D),
    {
        (self.value & FLAG_D) != 0x0
    }

    pub fn get_I(&self) -> (r: bool)
        ensures
            r == self.flag(FLAG_I),
    {
        (self.value & FLAG_I) != 0x0
    }

    pub fn get_Z(&self) -> (r: bool)
        ensures
            r == self.flag(FLAG_Z),
    {
        (self.value & FLAG_Z) != 0x0
    }

    pub fn get_C(&self) -> (r: bool)
        ensures
            r == self.flag(FLAG_C),
    {
        (self.value & FLAG_C) != 0x0
    }
}

/// The carry flag as a number.
pub open spec fn carry_in(p: StatusReg) -> int {
    if p.flag(FLAG_C) {
        1
    } else {
        0
    }
}

/// Addition with carry: the sum of `a`, `m` and the carry flag modulo 256,
/// and the flags after it. C is the carry out of bit 7, V is set when the
/// result's sign differs from the sign of both `a` and `m`. The decimal
/// flag plays no part.
pub open spec fn adc(a: u8, m: u8, p: StatusReg) -> (u8, StatusReg) {
    let sum = a + m + carry_in(p);
    let r = (sum % 256) as u8;
    (
        r,
        p.with_flag(FLAG_C, sum > 255).with_flag(FLAG_Z, r == 0).with_flag(
            FLAG_V,
            (a ^ r) & (m ^ r) & 0b1000_0000 != 0,
        ).with_flag(FLAG_N, r & 0b1000_0000 != 0),
    )
}

/// The flags after `reg` is compared with `m`: C when `reg` is not below
/// `m`, Z when they are equal, N from bit 7 of their difference modulo 256.
pub open spec fn compare(reg: u8, m: u8, p: StatusReg) -> StatusReg {
    p.with_flag(FLAG_C, reg >= m).with_flag(FLAG_Z, reg == m).with_flag(
        FLAG_N,
        reg.wrapping_sub(m) & 0b1000_0000 != 0,
    )
}

/// The flags after a bit test of `m` against `a`: Z when they share no bit,
/// V and N from bits 6 and 7 of `m`.
pub open spec fn bit_test(a: u8, m: u8, p: StatusReg) -> StatusReg {
    p.with_flag(FLAG_Z, a & m == 0).with_flag(FLAG_V, m & 0b0100_0000 != 0).with_flag(
        FLAG_N,
        m & 0b1000_0000 != 0,
    )
}

/// Shift left: bit 7 goes to the carry, 0 comes in at bit 0.
pub open spec fn asl(m: u8, p: StatusReg) -> (u8, StatusReg) {
    let r = m << 1;
    (r, p.with_flag(FLAG_C, m & 0b1000_0000 != 0).with_zn(r))
}

/// Shift right: bit 0 goes to the carry, 0 comes in at bit 7.
pub open spec fn lsr(m: u8, p: StatusReg) -> (u8, StatusReg) {
    let r = m >> 1;
    (r, p.with_flag(FLAG_C, m & 0b0000_0001 != 0).with_zn(r))
}

/// Rotate left: bit 7 goes to the carry, the old carry comes in at bit 0.
pub open spec fn rol(m: u8, p: StatusReg) -> (u8, StatusReg) {
    let r = if p.flag(FLAG_C) {
        (m << 1) | 0b0000_0001
    } else {
        m << 1
    };
    (r, p.with_flag(FLAG_C, m & 0b1000_0000 != 0).with_zn(r))
}

/// Rotate right: bit 0 goes to the carry, the old carry comes in at bit 7.
pub open spec fn ror(m: u8, p: StatusReg) -> (u8, StatusReg) {
    let r = if p.flag(FLAG_C) {
        (m >> 1) | 0b1000_0000
    } else {
        m >> 1
    };
    (r, p.with_flag(FLAG_C, m & 0b0000_0001 != 0).with_zn(r))
}

pub fn do_adc(a: u8, m: u8, p: StatusReg) -> (r: (u8, StatusReg))
    ensures
        r == adc(a, m, p),
{
    let carry: u16 = if p.get_C() {
        1
    } else {
        0
    };
    let sum: u16 = a as u16 + m as u16 + carry;
    let r: u8 = (sum % 256) as u8;
    let mut q = p;
    q.set_C(sum > 255);
    q.set_Z(r == 0);
    q.set_V((a ^ r) & (m ^ r) & 0b1000_0000 != 0);
    q.set_N(r & 0b1000_0000 != 0);
    (r, q)
}

pub fn do_compare(reg: u8, m: u8, p: StatusReg) -> (r: StatusReg)
    ensures
        r == compare(reg, m, p),
{
    let mut q = p;
    q.set_C(reg >= m);
    q.set_Z(reg == m);
    q.set_N(reg.wrapping_sub(m) & 0b1000_0000 != 0);
    q
}

pub fn do_bit_test(a: u8, m: u8, p: StatusReg) -> (r: StatusReg)
    ensures
        r == bit_test(a, m, p),
{
    let mut q = p;
    q.set_Z(a & m == 0);
    q.set_V(m & 0b0100_0000 != 0);
    q.set_N(m & 0b1000_0000 != 0);
    q
}

pub fn do_asl(m: u8, p: StatusReg) -> (r: (u8, StatusReg))
    ensures
        r == asl(m, p),
{
    let r: u8 = m << 1;
    let mut q = p;
    q.set_C(m & 0b1000_0000 != 0);
    q.set_ZN(r);
    (r, q)
}

pub fn do_lsr(m: u8, p: StatusReg) -> (r: (u8, StatusReg))
    ensures
        r == lsr(m, p),
{
    let r: u8 = m >> 1;
    let mut q = p;
    q.set_C(m & 0b0000_0001 != 0);
    q.set_ZN(r);
    (r, q)
}

pub fn do_rol(m: u8, p: StatusReg) -> (r: (u8, StatusReg))
    ensures
        r == rol(m, p),
{
    let r: u8 = if p.get_C() {
        (m << 1) | 0b0000_0001
    } else {
        m << 1
    };
    let mut q = p;
    q.set_C(m & 0b1000_0000 != 0);
    q.set_ZN(r);
    (r, q)
}

pub fn do_ror(m: u8, p: StatusReg) -> (r: (u8, StatusReg))
    ensures
        r == ror(m, p),
{
    let r: u8 = if p.get_C() {
        (m >> 1) | 0b1000_0000
    } else {
        m >> 1
    };
    let mut q = p;
    q.set_C(m & 0b0000_0001 != 0);
    q.set_ZN(r);
    (r, q)
}

} // verus!

verus! {

/// Setting a flag and reading it back gives what was set.
pub proof fn lemma_flag_set(p: StatusReg, mask: u8, v: bool)
    requires
        mask != 0,
    ensures
        p.with_flag(mask, v).flag(mask) == v,
{
    let x = p.value;
    assert((x | mask) & mask != 0 && (x & !mask) & mask == 0) by (bit_vector)
        requires
            mask != 0,
    ;
}

/// Setting a flag leaves the flags of other bits as they are.
pub proof fn lemma_flag_other(p: StatusReg, mask: u8, other: u8, v: bool)
    requires
        mask & other == 0,
    ensures
        p.with_flag(mask, v).flag(other) == p.flag(other),
{
    let x = p.value;
    assert((x | mask) & other == x & other && (x & !mask) & other == x & other) by (bit_vector)
        requires
            mask & other == 0,
    ;
}

/// The flags after an addition: each of C, Z, V and N is what the addition
/// sets it to, and D and I stay.
pub proof fn lemma_adc_flags(a: u8, m: u8, p: StatusReg)
    ensures
        ({
            let (r, q) = adc(a, m, p);
            &&& q.flag(FLAG_C) == (a + m + carry_in(p) > 255)
            &&& q.flag(FLAG_Z) == (r == 0)
            &&& q.flag(FLAG_V) == ((a ^ r) & (m ^ r) & 0b1000_0000 != 0)
            &&& q.flag(FLAG_N) == (r & 0b1000_0000 != 0)
            &&& q.flag(FLAG_D) == p.flag(FLAG_D)
            &&& q.flag(FLAG_I) == p.flag(FLAG_I)
        }),
{
    let sum = a + m + carry_in(p);
    let r = (sum % 256) as u8;
    let c = sum > 255;
    let z = r == 0;
    let v = (a ^ r) & (m ^ r) & 0b1000_0000 != 0;
    let n = r & 0b1000_0000 != 0;
    let after_c = p.with_flag(FLAG_C, c);
    let after_z = after_c.with_flag(FLAG_Z, z);
    let after_v = after_z.with_flag(FLAG_V, v);
    let after_n = after_v.with_flag(FLAG_N, n);
    assert(FLAG_C & FLAG_Z == 0 && FLAG_C & FLAG_V == 0 && FLAG_C & FLAG_N == 0 && FLAG_Z & FLAG_V
        == 0 && FLAG_Z & FLAG_N == 0 && FLAG_V & FLAG_N == 0 && FLAG_Z & FLAG_C == 0 && FLAG_V
        & FLAG_C == 0 && FLAG_N & FLAG_C == 0 && FLAG_V & FLAG_Z == 0 && FLAG_N & FLAG_Z == 0
        && FLAG_N & FLAG_V == 0 && FLAG_C & FLAG_D == 0 && FLAG_Z & FLAG_D == 0 && FLAG_V & FLAG_D
        == 0 && FLAG_N & FLAG_D == 0 && FLAG_C & FLAG_I == 0 && FLAG_Z & FLAG_I == 0 && FLAG_V
        & FLAG_I == 0 && FLAG_N & FLAG_I == 0) by (bit_vector);
    lemma_flag_set(p, FLAG_C, c);
    lemma_flag_other(after_c, FLAG_Z, FLAG_C, z);
    lemma_flag_other(after_z, FLAG_V, FLAG_C, v);
    lemma_flag_other(after_v, FLAG_N, FLAG_C, n);
    lemma_flag_set(after_c, FLAG_Z, z);
    lemma_flag_other(after_z, FLAG_V, FLAG_Z, v);
    lemma_flag_other(after_v, FLAG_N, FLAG_Z, n);
    lemma_flag_set(after_z, FLAG_V, v);
    lemma_flag_other(after_v, FLAG_N, FLAG_V, n);
    lemma_flag_set(after_v, FLAG_N, n);
    lemma_flag_other(p, FLAG_C, FLAG_D, c);
    lemma_flag_other(after_c, FLAG_Z, FLAG_D, z);
    lemma_flag_other(after_z, FLAG_V, FLAG_D, v);
    lemma_flag_other(after_v, FLAG_N, FLAG_D, n);
    lemma_flag_other(p, FLAG_C, FLAG_I, c);
    lemma_flag_other(after_c, FLAG_Z, FLAG_I, z);
    lemma_flag_other(after_z, FLAG_V, FLAG_I, v);
    lemma_flag_other(after_v, FLAG_N, FLAG_I, n);
}

/// Addition with carry-in C gives (A + M + C) modulo 256, and sets V
/// exactly when the result's sign differs from the signs of both A and M,
/// whatever the decimal flag says.
pub proof fn lemma_adc(a: u8, m: u8, p: StatusReg)
    ensures
        adc(a, m, p).0 == (a + m + carry_in(p)) % 256,
        adc(a, m, p).1.flag(FLAG_V) == ((a ^ adc(a, m, p).0) & (m ^ adc(a, m, p).0) & 0b1000_0000
            != 0),
        adc(a, m, p).1.flag(FLAG_C) == (a + m + carry_in(p) >= 256),
        adc(a, m, p).0 == adc(a, m, p.with_flag(FLAG_D, !p.flag(FLAG_D))).0,
{
    lemma_adc_flags(a, m, p);
    assert(FLAG_D & FLAG_C == 0) by (bit_vector);
    lemma_flag_other(p, FLAG_D, FLAG_C, !p.flag(FLAG_D));
}

/// The flags after a comparison: each of C, Z and N is what the comparison
/// sets it to.
pub proof fn lemma_compare_flags(reg: u8, m: u8, p: StatusReg)
    ensures
        compare(reg, m, p).flag(FLAG_C) == (reg >= m),
        compare(reg, m, p).flag(FLAG_Z) == (reg == m),
        compare(reg, m, p).flag(FLAG_N) == (reg.wrapping_sub(m) & 0b1000_0000 != 0),
{
    let c = reg >= m;
    let z = reg == m;
    let n = reg.wrapping_sub(m) & 0b1000_0000 != 0;
    let after_c = p.with_flag(FLAG_C, c);
    let after_z = after_c.with_flag(FLAG_Z, z);
    assert(FLAG_Z & FLAG_C == 0 && FLAG_N & FLAG_C == 0 && FLAG_N & FLAG_Z == 0) by (bit_vector);
    lemma_flag_set(p, FLAG_C, c);
    lemma_flag_other(after_c, FLAG_Z, FLAG_C, z);
    lemma_flag_other(after_z, FLAG_N, FLAG_C, n);
    lemma_flag_set(after_c, FLAG_Z, z);
    lemma_flag_other(after_z, FLAG_N, FLAG_Z, n);
    lemma_flag_set(after_z, FLAG_N, n);
}

/// A comparison of a register that is not below the operand sets the
/// carry, and N is bit 7 of their difference.
pub proof fn lemma_compare_not_below(reg: u8, m: u8, p: StatusReg)
    requires
        reg >= m,
    ensures
        compare(reg, m, p).flag(FLAG_C),
        compare(reg, m, p).flag(FLAG_N) == ((((reg - m) % 256) as u8) & 0b1000_0000 != 0),
        compare(reg, m, p).flag(FLAG_N) == (reg - m >= 128),
{
    lemma_compare_flags(reg, m, p);
    let d: u8 = (reg - m) as u8;
    assert(reg.wrapping_sub(m) == d);
    assert((d & 0b1000_0000 != 0) == (d >= 128)) by (bit_vector);
}

} // verus!
