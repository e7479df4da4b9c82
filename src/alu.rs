use vstd::prelude::*;

verus! {

/// Adding the low nibbles of `a` and `b` carries out of bit 3.
pub open spec fn half_carry8(a: u8, b: u8) -> bool {
    (a & 0x0F) as int + (b & 0x0F) as int > 0x0F
}

/// True iff adding the low nibbles of `a` and `b` carries out of bit 3.
pub fn is_half_carry_u8(a: u8, b: u8) -> (r: bool)
    ensures
        r == half_carry8(a, b),
{
    assert(a & 0x0F <= 0x0F && b & 0x0F <= 0x0F) by (bit_vector);
    (a & 0x0F) + (b & 0x0F) > 0x0F
}

/// True iff subtracting `b` from `a` borrows into bit 3, that is, the low
/// nibble of `b` exceeds the low nibble of `a`.
pub fn is_half_borrow_u8(a: u8, b: u8) -> (r: bool)
    ensures
        r == ((a & 0x0F) < (b & 0x0F)),
{
    (a & 0x0F) < (b & 0x0F)
}

/// True iff adding the low twelve bits of `a` and `b` carries out of bit 11.
pub fn is_half_carry_u16(a: u16, b: u16) -> (r: bool)
    ensures
        r == ((a & 0x0FFF) as int + (b & 0x0FFF) as int > 0x0FFF),
{
    assert(a & 0x0FFF <= 0x0FFF && b & 0x0FFF <= 0x0FFF) by (bit_vector);
    (a & 0x0FFF) + (b & 0x0FFF) > 0x0FFF
}

} // verus!
