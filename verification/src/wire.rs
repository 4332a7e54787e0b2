//! Little-endian integers inside fixed-size frames.

use vstd::prelude::*;

verus! {

/// The four bytes of a 32-bit value, least significant first.
#[verifier::opaque]
pub open spec fn u32_le(x: u32) -> Seq<u8> {
    seq![
        (x % 256) as u8,
        (x / 0x100 % 256) as u8,
        (x / 0x1_0000 % 256) as u8,
        (x / 0x100_0000 % 256) as u8,
    ]
}

/// The value that four little-endian bytes stand for.
#[verifier::opaque]
pub open spec fn u32_from_le(s: Seq<u8>) -> u32
    recommends
        s.len() == 4,
{
    (s[0] + 0x100 * s[1] + 0x1_0000 * s[2] + 0x100_0000 * s[3]) as u32
}

/// The eight bytes of a 64-bit value, least significant first.
#[verifier::opaque]
pub open spec fn u64_le(x: u64) -> Seq<u8> {
    seq![
        (x % 256) as u8,
        (x / 0x100 % 256) as u8,
        (x / 0x1_0000 % 256) as u8,
        (x / 0x100_0000 % 256) as u8,
        (x / 0x1_0000_0000 % 256) as u8,
        (x / 0x100_0000_0000 % 256) as u8,
        (x / 0x1_0000_0000_0000 % 256) as u8,
        (x / 0x100_0000_0000_0000 % 256) as u8,
    ]
}

/// The value that eight little-endian bytes stand for.
#[verifier::opaque]
pub open spec fn u64_from_le(s: Seq<u8>) -> u64
    recommends
        s.len() == 8,
{
    (s[0] + 0x100 * s[1] + 0x1_0000 * s[2] + 0x100_0000 * s[3] + 0x1_0000_0000 * s[4]
        + 0x100_0000_0000 * s[5] + 0x1_0000_0000_0000 * s[6] + 0x100_0000_0000_0000 * s[7]) as u64
}

/// A sequence in which the bytes from `at` on are replaced by `part`.
pub open spec fn splice(s: Seq<u8>, at: int, part: Seq<u8>) -> Seq<u8>
    recommends
        0 <= at,
        at + part.len() <= s.len(),
{
    s.subrange(0, at) + part + s.subrange(at + part.len(), s.len() as int)
}

/// Replacing the bytes that follow a known beginning makes the beginning
/// longer by the bytes put in.
pub proof fn lemma_splice_extends(s: Seq<u8>, at: int, part: Seq<u8>)
    requires
        0 <= at,
        at + part.len() <= s.len(),
    ensures
        splice(s, at, part).len() == s.len(),
        splice(s, at, part).subrange(0, at + part.len()) == s.subrange(0, at) + part,
{
    assert(splice(s, at, part).subrange(0, at + part.len()) =~= s.subrange(0, at) + part);
}

/// Reading back the bytes of a 32-bit value gives the value.
pub proof fn lemma_u32_le_round_trip(x: u32)
    ensures
        u32_le(x).len() == 4,
        u32_from_le(u32_le(x)) == x,
{
    reveal(u32_le);
    reveal(u32_from_le);
    assert(x == (x % 256) + 0x100 * (x / 0x100 % 256) + 0x1_0000 * (x / 0x1_0000 % 256)
        + 0x100_0000 * (x / 0x100_0000 % 256)) by (bit_vector);
}

/// Writing out the value of four bytes gives the four bytes.
pub proof fn lemma_u32_le_unique(s: Seq<u8>)
    requires
        s.len() == 4,
    ensures
        u32_le(u32_from_le(s)) == s,
{
    reveal(u32_le);
    reveal(u32_from_le);
    let (a, b, c, d) = (s[0], s[1], s[2], s[3]);
    let x = u32_from_le(s);
    assert(x == a + 0x100 * b + 0x1_0000 * c + 0x100_0000 * d);
    assert(x == a + 0x100 * b + 0x1_0000 * c + 0x100_0000 * d ==> x % 256 == a && x / 0x100 % 256
        == b && x / 0x1_0000 % 256 == c && x / 0x100_0000 % 256 == d) by (bit_vector);
    assert(u32_le(x) =~= s);
}

/// Reading back the bytes of a 64-bit value gives the value.
pub proof fn lemma_u64_le_round_trip(x: u64)
    ensures
        u64_le(x).len() == 8,
        u64_from_le(u64_le(x)) == x,
{
    reveal(u64_le);
    reveal(u64_from_le);
    assert(x == (x % 256) + 0x100 * (x / 0x100 % 256) + 0x1_0000 * (x / 0x1_0000 % 256)
        + 0x100_0000 * (x / 0x100_0000 % 256) + 0x1_0000_0000 * (x / 0x1_0000_0000 % 256)
        + 0x100_0000_0000 * (x / 0x100_0000_0000 % 256) + 0x1_0000_0000_0000 * (x
        / 0x1_0000_0000_0000 % 256) + 0x100_0000_0000_0000 * (x / 0x100_0000_0000_0000 % 256))
        by (bit_vector);
}

/// Writing out the value of eight bytes gives the eight bytes.
pub proof fn lemma_u64_le_unique(s: Seq<u8>)
    requires
        s.len() == 8,
    ensures
        u64_le(u64_from_le(s)) == s,
{
    reveal(u64_le);
    reveal(u64_from_le);
    let (a, b, c, d) = (s[0], s[1], s[2], s[3]);
    let (e, f, g, h) = (s[4], s[5], s[6], s[7]);
    let x = u64_from_le(s);
    assert(x == a + 0x100 * b + 0x1_0000 * c + 0x100_0000 * d + 0x1_0000_0000 * e
        + 0x100_0000_0000 * f + 0x1_0000_0000_0000 * g + 0x100_0000_0000_0000 * h);
    assert(x == a + 0x100 * b + 0x1_0000 * c + 0x100_0000 * d + 0x1_0000_0000 * e
        + 0x100_0000_0000 * f + 0x1_0000_0000_0000 * g + 0x100_0000_0000_0000 * h ==> x % 256 == a
        && x / 0x100 % 256 == b && x / 0x1_0000 % 256 == c && x / 0x100_0000 % 256 == d && x
        / 0x1_0000_0000 % 256 == e && x / 0x100_0000_0000 % 256 == f && x / 0x1_0000_0000_0000
        % 256 == g && x / 0x100_0000_0000_0000 % 256 == h) by (bit_vector);
    assert(u64_le(x) =~= s);
}

/// Writes a 32-bit value into a frame, least significant byte first.
pub(crate) fn put_u32<const N: usize>(frame: &mut [u8; N], at: usize, x: u32)
    requires
        at + 4 <= N,
    ensures
        final(frame)@ == splice(old(frame)@, at as int, u32_le(x)),
{
    frame[at] = (x % 256) as u8;
    frame[at + 1] = (x / 0x100 % 256) as u8;
    frame[at + 2] = (x / 0x1_0000 % 256) as u8;
    frame[at + 3] = (x / 0x100_0000 % 256) as u8;
    proof {
        reveal(u32_le);
    }
    assert(frame@ =~= splice(old(frame)@, at as int, u32_le(x)));
}

/// Writes a 64-bit value into a frame, least significant byte first.
pub(crate) fn put_u64<const N: usize>(frame: &mut [u8; N], at: usize, x: u64)
    requires
        at + 8 <= N,
    ensures
        final(frame)@ == splice(old(frame)@, at as int, u64_le(x)),
{
    frame[at] = (x % 256) as u8;
    frame[at + 1] = (x / 0x100 % 256) as u8;
    frame[at + 2] = (x / 0x1_0000 % 256) as u8;
    frame[at + 3] = (x / 0x100_0000 % 256) as u8;
    frame[at + 4] = (x / 0x1_0000_0000 % 256) as u8;
    frame[at + 5] = (x / 0x100_0000_0000 % 256) as u8;
    frame[at + 6] = (x / 0x1_0000_0000_0000 % 256) as u8;
    frame[at + 7] = (x / 0x100_0000_0000_0000 % 256) as u8;
    proof {
        reveal(u64_le);
    }
    assert(frame@ =~= splice(old(frame)@, at as int, u64_le(x)));
}

/// Copies a record into a frame.
pub(crate) fn put_bytes<const N: usize, const M: usize>(frame: &mut [u8; N], at: usize, part: &[u8; M])
    requires
        at + M <= N,
    ensures
        final(frame)@ == splice(old(frame)@, at as int, part@),
{
    let mut i: usize = 0;
    while i < M
        invariant
            i <= M,
            at + M <= N,
            frame@.len() == N,
            part@.len() == M,
            forall|k: int| 0 <= k < at ==> frame@[k] == old(frame)@[k],
            forall|k: int| at <= k < at + i ==> frame@[k] == part@[k - at],
            forall|k: int| at + i <= k < N ==> frame@[k] == old(frame)@[k],
        decreases M - i,
    {
        frame[at + i] = part[i];
        i = i + 1;
    }
    assert(frame@ =~= splice(old(frame)@, at as int, part@));
}

/// Reads a little-endian 32-bit value out of received bytes.
pub(crate) fn get_u32(bytes: &[u8], at: usize) -> (x: u32)
    requires
        at + 4 <= bytes@.len(),
    ensures
        x == u32_from_le(bytes@.subrange(at as int, at + 4)),
{
    let b0: u32 = bytes[at] as u32;
    let b1: u32 = bytes[at + 1] as u32;
    let b2: u32 = bytes[at + 2] as u32;
    let b3: u32 = bytes[at + 3] as u32;
    proof {
        reveal(u32_from_le);
    }
    b0 + 0x100 * b1 + 0x1_0000 * b2 + 0x100_0000 * b3
}

/// Reads a little-endian 64-bit value out of received bytes.
pub(crate) fn get_u64(bytes: &[u8], at: usize) -> (x: u64)
    requires
        at + 8 <= bytes@.len(),
    ensures
        x == u64_from_le(bytes@.subrange(at as int, at + 8)),
{
    let b0: u64 = bytes[at] as u64;
    let b1: u64 = bytes[at + 1] as u64;
    let b2: u64 = bytes[at + 2] as u64;
    let b3: u64 = bytes[at + 3] as u64;
    let b4: u64 = bytes[at + 4] as u64;
    let b5: u64 = bytes[at + 5] as u64;
    let b6: u64 = bytes[at + 6] as u64;
    let b7: u64 = bytes[at + 7] as u64;
    proof {
        reveal(u64_from_le);
    }
    b0 + 0x100 * b1 + 0x1_0000 * b2 + 0x100_0000 * b3 + 0x1_0000_0000 * b4 + 0x100_0000_0000 * b5
        + 0x1_0000_0000_0000 * b6 + 0x100_0000_0000_0000 * b7
}

} // verus!
