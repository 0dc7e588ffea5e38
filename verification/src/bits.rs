use vstd::prelude::*;

verus! {

/// Whether any bit of `mask` is set in `byte`.
pub open spec fn flag_set(byte: u8, mask: u8) -> bool {
    byte & mask != 0
}

/// Bit `n` of a 16-bit register, as 0 or 1.
pub open spec fn bit16(x: u16, n: u8) -> u16 {
    (x >> n) & 1
}

/// The two bits of a 32-bit register that start at bit `2 * n`, as 0 to 3.
pub open spec fn pair32(x: u32, n: u8) -> u32 {
    (x >> (2 * n) as u32) & 3
}

/// The byte with its eight bits in the opposite order.
pub open spec fn reversed(x: u8) -> int {
    (x as int % 2) * 128 + (x as int / 2 % 2) * 64 + (x as int / 4 % 2) * 32 + (x as int / 8 % 2)
        * 16 + (x as int / 16 % 2) * 8 + (x as int / 32 % 2) * 4 + (x as int / 64 % 2) * 2
        + x as int / 128
}

/// Turns a byte end for end: bit 0 becomes bit 7, bit 1 becomes bit 6 and
/// so on.
pub fn reverse_byte(x: u8) -> (r: u8)
    ensures
        r == reversed(x),
{
    proof {
        lemma_reverse_bits(x);
    }
    let nibbles: u8 = ((x & 0xf0) >> 4) | ((x & 0x0f) << 4);
    let pairs: u8 = ((nibbles & 0xcc) >> 2) | ((nibbles & 0x33) << 2);
    ((pairs & 0xaa) >> 1) | ((pairs & 0x55) << 1)
}

/// Three rounds of swaps, of nibbles, of pairs and of single bits, reverse a byte.
pub proof fn lemma_reverse_bits(x: u8)
    by (bit_vector)
    ensures
        ({
            let nibbles = ((x & 0xf0) >> 4) | ((x & 0x0f) << 4);
            let pairs = ((nibbles & 0xcc) >> 2) | ((nibbles & 0x33) << 2);
            ((pairs & 0xaa) >> 1) | ((pairs & 0x55) << 1) == (x % 2) * 128 + (x / 2 % 2) * 64 + (x
                / 4 % 2) * 32 + (x / 8 % 2) * 16 + (x / 16 % 2) * 8 + (x / 32 % 2) * 4 + (x / 64
                % 2) * 2 + x / 128
        }),
{
}

/// How the bus masks a CPU address: the RAM slot and the register index
/// are remainders, and both stay inside their tables.
pub proof fn lemma_bus_masks(address: u16)
    by (bit_vector)
    ensures
        address & 0x07ff < 2048,
        address & 0x07ff == address % 2048,
        address & 7 < 8,
        address & 7 == address % 8,
        address & 0x3fff < 0x4000,
        address & 0x3fff == address % 0x4000,
{
}

/// The low bits of a byte are remainders and its right shifts are quotients.
pub proof fn lemma_byte_bits(x: u8)
    by (bit_vector)
    ensures
        x & 1 == x % 2,
        x & 1 < 2,
        x & 3 == x % 4,
        x & 3 < 4,
        x >> 1 == x / 2,
        (x & 1) << 1 == 2 * (x % 2),
        (x & 1) | ((x & 1) << 1) == 3 * (x % 2),
{
}

} // verus!
