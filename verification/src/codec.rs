//! The byte layout of a pair of counters, and the calls into `borsh` that
//! read and write it.

use vstd::prelude::*;

verus! {

/// Number of bytes that one counter takes.
pub const COUNTER_LEN: usize = 4;

/// Number of bytes that a pair of counters takes.
pub const PAIR_LEN: usize = 8;

/// The four bytes of `x`, least significant first.
pub open spec fn le_bytes(x: u32) -> Seq<u8> {
    seq![
        (x % 256) as u8,
        ((x / 256) % 256) as u8,
        ((x / 65536) % 256) as u8,
        (x / 16777216) as u8,
    ]
}

/// The number whose bytes, least significant first, are the first four of `b`.
pub open spec fn le_value(b: Seq<u8>) -> int
    recommends
        b.len() >= 4,
{
    b[0] + 256 * b[1] + 65536 * b[2] + 16777216 * b[3]
}

/// The eight bytes of the pair `(first, second)`: those of `first`, then
/// those of `second`.
pub open spec fn pair_bytes(first: u32, second: u32) -> Seq<u8> {
    le_bytes(first) + le_bytes(second)
}

/// `std::io::Error`, the error of `borsh`'s calls. Nothing is read from it.
#[verifier::external_type_specification]
#[verifier::external_body]
pub struct ExIoError(std::io::Error);

/// `borsh::from_slice` at the type `(u32, u32)`.
///
/// Not proved: that the call succeeds on a slice of exactly eight bytes and
/// on no other, and that it reads the first four bytes as the first number
/// and the last four as the second, each least significant byte first.
#[verifier::external_body]
pub(crate) fn read_pair(bytes: &[u8]) -> (r: Result<(u32, u32), std::io::Error>)
    ensures
        r is Ok <==> bytes@.len() == PAIR_LEN,
        r matches Ok(pair) ==> pair.0 == le_value(bytes@.subrange(0, 4)) && pair.1 == le_value(
            bytes@.subrange(4, 8),
        ),
{
    borsh::from_slice::<(u32, u32)>(bytes)
}

/// `borsh::to_vec` at the type `(u32, u32)`.
///
/// Not proved: that the call succeeds, and that it gives the four bytes of
/// the first number followed by the four bytes of the second, each least
/// significant byte first.
#[verifier::external_body]
pub(crate) fn write_pair(first: u32, second: u32) -> (r: Result<Vec<u8>, std::io::Error>)
    ensures
        r is Ok,
        r matches Ok(bytes) ==> bytes@ == pair_bytes(first, second),
{
    borsh::to_vec(&(first, second))
}

/// Reading back what was written gives the number that was written.
pub proof fn lemma_le_value_of_le_bytes(x: u32)
    ensures
        le_bytes(x).len() == COUNTER_LEN,
        le_value(le_bytes(x)) == x,
{
}

/// A number below 256 is the last digit, in base 256, of itself plus any
/// multiple of 256.
proof fn lemma_digit(low: int, high: int)
    requires
        0 <= low < 256,
    ensures
        (low + 256 * high) % 256 == low,
        (low + 256 * high) / 256 == high,
{
    assert((low + 256 * high) % 256 == low && (low + 256 * high) / 256 == high)
        by (nonlinear_arith)
        requires
            0 <= low < 256,
    ;
}

/// Writing what was read gives back the four bytes that were read.
pub proof fn lemma_le_bytes_of_le_value(b: Seq<u8>)
    requires
        b.len() == COUNTER_LEN,
    ensures
        0 <= le_value(b) <= u32::MAX,
        le_bytes(le_value(b) as u32) == b,
{
    let x = le_value(b);
    let upper = b[1] + 256 * (b[2] + 256 * b[3]);
    let top = b[2] + 256 * b[3];
    assert(x == b[0] + 256 * upper);
    lemma_digit(b[0] as int, upper);
    lemma_digit(b[1] as int, top);
    lemma_digit(b[2] as int, b[3] as int);
    assert(x / 256 == upper);
    assert(x / 65536 == top) by {
        assert(x / 65536 == (x / 256) / 256);
    }
    assert(x / 16777216 == b[3]) by {
        assert(x / 16777216 == (x / 65536) / 256);
    }
    assert(le_bytes(x as u32) =~= b);
}

} // verus!
