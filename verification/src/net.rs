//! Fixed network parameters of the responder and byte-order helpers.

use vstd::prelude::*;

verus! {

/// The TCP port the listening socket binds to.
pub const PORT: u16 = 6971;

/// The depth of the kernel queue of pending connections.
pub const BACKLOG: i32 = 5;

/// The IPv4 loopback address 127.0.0.1, already in network byte order
/// (the least significant byte is the first octet).
pub const LOOPBACK_ADDR: u32 = 0x0100_007F;

/// The two bytes of a 16-bit value exchanged: the low byte moves to the
/// high position and the high byte to the low position.
pub open spec fn swap_bytes(n: u16) -> u16 {
    ((n & 0xff) << 8) | ((n >> 8) & 0xff)
}

/// Converts a 16-bit value from host byte order (little-endian) to
/// network byte order (big-endian) by swapping its two bytes.
pub fn htons(n: u16) -> (r: u16)
    ensures
        r == swap_bytes(n),
        r == n % 256 * 256 + n / 256,
{
    let first: u16 = (n & 255) << 8u16;
    let second: u16 = (n >> 8u16) & 255;
    let r: u16 = first | second;
    assert((((n & 255) << 8) | ((n >> 8) & 255)) == n % 256 * 256 + n / 256) by (bit_vector);
    r
}

/// Swapping the bytes of a 16-bit value twice restores the value, so a
/// port converted to network byte order converts back to itself.
pub proof fn lemma_swap_bytes_involutive(n: u16)
    ensures
        swap_bytes(swap_bytes(n)) == n,
{
    let m: u16 = swap_bytes(n);
    assert((((m & 0xff) << 8) | ((m >> 8) & 0xff)) == n) by (bit_vector)
        requires
            m == (((n & 0xff) << 8) | ((n >> 8) & 0xff)),
    ;
}

} // verus!
