//! The fields of an instruction word and the bit tricks of the instruction
//! set, each with what it computes in plain arithmetic.
use vstd::prelude::*;

verus! {

/// The address `nnn` of an instruction word: its low twelve bits.
pub open spec fn address_of(inst: u16) -> u16 {
    inst % 0x1000
}

/// The immediate byte `nn` of an instruction word: its low eight bits.
pub open spec fn byte_of(inst: u16) -> u8 {
    (inst % 0x100) as u8
}

/// The nibble `n` of an instruction word: its low four bits.
pub open spec fn nibble_of(inst: u16) -> u16 {
    inst % 0x10
}

/// The index `x` of an instruction word: the second nibble of its first
/// byte.
pub open spec fn x_of(inst: u16) -> u16 {
    (inst / 0x100) % 0x10
}

/// The index `y` of an instruction word: the first nibble of its second
/// byte.
pub open spec fn y_of(inst: u16) -> u16 {
    (inst / 0x10) % 0x10
}

/// The family of an instruction word: its first nibble.
pub open spec fn family_of(inst: u16) -> u16 {
    inst / 0x1000
}

pub fn address_bits(inst: u16) -> (nnn: u16)
    ensures
        nnn == address_of(inst),
{
    assert(inst & 0xfff == inst % 0x1000) by (bit_vector);
    inst & 0xfff
}

pub fn byte_bits(inst: u16) -> (nn: u8)
    ensures
        nn == byte_of(inst),
{
    assert(inst & 0xff == inst % 0x100) by (bit_vector);
    (inst & 0xff) as u8
}

pub fn nibble_bits(inst: u16) -> (n: u16)
    ensures
        n == nibble_of(inst),
{
    assert(inst & 0xf == inst % 0x10) by (bit_vector);
    inst & 0xf
}

pub fn x_bits(inst: u16) -> (x: u16)
    ensures
        x == x_of(inst),
        x < 16,
{
    assert((inst & 0x0f00) >> 8 == (inst / 0x100) % 0x10) by (bit_vector);
    (inst & 0x0f00) >> 8
}

pub fn y_bits(inst: u16) -> (y: u16)
    ensures
        y == y_of(inst),
        y < 16,
{
    assert((inst & 0x00f0) >> 4 == (inst / 0x10) % 0x10) by (bit_vector);
    (inst & 0x00f0) >> 4
}

/// The high byte of a word.
pub fn high_byte(word: u16) -> (b: u8)
    ensures
        b == word / 0x100,
{
    assert(word >> 8 == word / 0x100) by (bit_vector);
    (word >> 8) as u8
}

/// The low byte of a word.
pub fn low_byte(word: u16) -> (b: u8)
    ensures
        b == word % 0x100,
{
    assert(word & 0xff == word % 0x100) by (bit_vector);
    (word & 0xff) as u8
}

/// The word with the given high and low byte.
pub fn make_word(hi: u8, lo: u8) -> (word: u16)
    ensures
        word == hi * 0x100 + lo,
{
    let wide: u16 = hi as u16;
    assert(wide << 8 == wide * 0x100) by (bit_vector)
        requires
            wide < 0x100,
    ;
    (wide << 8) + lo as u16
}

/// The 256-byte page of an address, as the VIP's interpreter sees it when it
/// works within its 4K: the third nibble from the right.
pub fn page_nibble(addr: u16) -> (page: u16)
    ensures
        page == ((addr / 0x100) % 0x10) * 0x100,
{
    assert(addr & 0xf00 == ((addr / 0x100) % 0x10) * 0x100) by (bit_vector);
    addr & 0xf00
}

/// The 256-byte page of an address.
pub fn page_of(addr: u16) -> (page: u16)
    ensures
        page == (addr / 0x100) * 0x100,
{
    assert(addr & 0xff00 == (addr / 0x100) * 0x100) by (bit_vector);
    addr & 0xff00
}

/// `a + b` in eight bits, and the carry: 1 where the sum passed 0xff.
pub fn add_with_carry(a: u8, b: u8) -> (r: (u8, u8))
    ensures
        r.0 == (a + b) % 0x100,
        r.1 == if a + b > 0xff { 1u8 } else { 0u8 },
{
    let res: u16 = a as u16 + b as u16;
    (
        low_byte(res),
        if res > 0xff {
            0x01
        } else {
            0x00
        },
    )
}

/// `a - b` in eight bits, and the inverse of the borrow: 1 where nothing was
/// borrowed, 0 where `b` was the greater.
pub fn subtract_with_borrow(a: u8, b: u8) -> (r: (u8, u8))
    ensures
        r.0 == (a - b) % 0x100,
        r.1 == if a >= b { 1u8 } else { 0u8 },
{
    let res: u16 = 0x100 + a as u16 - b as u16;
    proof {
        if a >= b {
            assert(res % 0x100 == a - b);
            assert((a - b) % 0x100 == a - b);
        } else {
            assert(res % 0x100 == res);
            assert((a - b) % 0x100 == a - b + 0x100);
        }
    }
    (
        low_byte(res),
        if res < 0x100 {
            0x00
        } else {
            0x01
        },
    )
}

/// `v` shifted right by one bit, and the bit that fell out.
pub fn shift_right(v: u8) -> (r: (u8, u8))
    ensures
        r.0 == v / 2,
        r.1 == v % 2,
{
    assert(v >> 1 == v / 2) by (bit_vector);
    assert(v & 0x1 == v % 2) by (bit_vector);
    (v >> 1, v & 0x1)
}

/// `v` shifted left by one bit, and the bit that fell out.
pub fn shift_left(v: u8) -> (r: (u8, u8))
    ensures
        r.0 == (v * 2) % 0x100,
        r.1 == v / 0x80,
{
    assert(v << 1 == (v * 2) % 0x100) by (bit_vector);
    assert((v & 0x80) >> 7 == v / 0x80) by (bit_vector);
    (v << 1, (v & 0x80) >> 7)
}

/// The bit within a byte at which a pixel column starts: the low three bits
/// of the column.
pub fn bit_offset(column: u8) -> (offset: u8)
    ensures
        offset == column % 8,
{
    assert(column & 0x7 == column % 8) by (bit_vector);
    column & 0x7
}

/// The hexadecimal digit that a byte names: its low four bits.
pub fn low_digit(v: u8) -> (digit: u8)
    ensures
        digit == v % 16,
{
    assert(v & 0xf == v % 16) by (bit_vector);
    v & 0xf
}

/// The pixel column that a byte names on a display 64 pixels wide.
pub fn wrapped_column(v: u8) -> (column: u8)
    ensures
        column == v % 64,
{
    assert(v & 0x3f == v % 64) by (bit_vector);
    v & 0x3f
}

/// The pixel row that a byte names on a display 32 pixels high.
pub fn wrapped_row(v: u8) -> (row: u8)
    ensures
        row == v % 32,
{
    assert(v & 0x1f == v % 32) by (bit_vector);
    v & 0x1f
}

} // verus!
