use byteorder::{BigEndian, ByteOrder, LittleEndian};
use vstd::prelude::*;
use vstd::slice::slice_subrange;

verus! {

/// The four bytes of `n`, most significant first.
pub open spec fn be_bytes(n: u32) -> Seq<u8> {
    seq![
        (n / 0x100_0000) as u8,
        ((n / 0x1_0000) % 0x100) as u8,
        ((n / 0x100) % 0x100) as u8,
        (n % 0x100) as u8,
    ]
}

/// The four bytes of `n`, least significant first.
pub open spec fn le_bytes(n: u32) -> Seq<u8> {
    seq![
        (n % 0x100) as u8,
        ((n / 0x100) % 0x100) as u8,
        ((n / 0x1_0000) % 0x100) as u8,
        (n / 0x100_0000) as u8,
    ]
}

/// The number whose big-endian bytes are the first four of `b`.
pub open spec fn be_value(b: Seq<u8>) -> u32
    recommends
        b.len() >= 4,
{
    (b[0] * 0x100_0000 + b[1] * 0x1_0000 + b[2] * 0x100 + b[3]) as u32
}

/// The two bytes of a PCM sample in two's complement, low byte first.
pub open spec fn sample_le_bytes(s: i16) -> Seq<u8> {
    let u: int = if s < 0 { s + 0x1_0000 } else { s as int };
    seq![(u % 0x100) as u8, (u / 0x100) as u8]
}

/// The PCM sample whose little-endian two's-complement bytes are `lo`, `hi`.
pub open spec fn sample_from_le(lo: u8, hi: u8) -> i16 {
    let u: int = lo + hi * 0x100;
    if u >= 0x8000 { (u - 0x1_0000) as i16 } else { u as i16 }
}

/// A run of samples laid out two bytes each, low byte first.
pub open spec fn samples_le_bytes(samples: Seq<i16>) -> Seq<u8> {
    Seq::new(2 * samples.len(), |i: int| sample_le_bytes(samples[i / 2])[i % 2])
}

/// The samples held by `bytes`, two bytes each, low byte first. A last odd
/// byte holds no sample.
pub open spec fn samples_from_le(bytes: Seq<u8>) -> Seq<i16> {
    Seq::new(bytes.len() / 2, |i: int| sample_from_le(bytes[2 * i], bytes[2 * i + 1]))
}

/// `byteorder::BigEndian::read_u32`: the first four bytes of `buf` read as a
/// big-endian number. The crate panics on a shorter buffer.
#[verifier::external_body]
pub(crate) fn read_u32_be(buf: &[u8]) -> (n: u32)
    requires
        buf@.len() >= 4,
    ensures
        n == be_value(buf@),
{
    BigEndian::read_u32(buf)
}

/// `byteorder::BigEndian::write_u32` on a fresh four-byte buffer: the bytes
/// of `n`, most significant first.
#[verifier::external_body]
pub(crate) fn write_u32_be(n: u32) -> (b: [u8; 4])
    ensures
        b@ == be_bytes(n),
{
    let mut b = [0u8; 4];
    BigEndian::write_u32(&mut b, n);
    b
}

/// `byteorder::LittleEndian::write_u32` on a fresh four-byte buffer: the
/// bytes of `n`, least significant first.
#[verifier::external_body]
pub(crate) fn write_u32_le(n: u32) -> (b: [u8; 4])
    ensures
        b@ == le_bytes(n),
{
    let mut b = [0u8; 4];
    LittleEndian::write_u32(&mut b, n);
    b
}

/// `byteorder::LittleEndian::write_i16_into`: fills `dst` with the samples
/// of `src`, two bytes each, low byte first. The crate panics unless `dst`
/// is exactly twice as long as `src`.
#[verifier::external_body]
fn write_i16_into_le(src: &[i16], dst: &mut Vec<u8>)
    requires
        old(dst)@.len() == 2 * src@.len(),
    ensures
        final(dst)@ == samples_le_bytes(src@),
{
    LittleEndian::write_i16_into(src, dst.as_mut_slice())
}

/// `byteorder::LittleEndian::read_i16_into`: fills `dst` with the samples
/// that `src` holds, two bytes each, low byte first. The crate panics
/// unless `src` is exactly twice as long as `dst`.
#[verifier::external_body]
fn read_i16_into_le(src: &[u8], dst: &mut Vec<i16>)
    requires
        src@.len() == 2 * old(dst)@.len(),
    ensures
        final(dst)@ == samples_from_le(src@),
{
    LittleEndian::read_i16_into(src, dst.as_mut_slice())
}

/// The bytes of a run of samples, two each, low byte first.
pub fn samples_to_le(samples: &[i16]) -> (bytes: Vec<u8>)
    ensures
        bytes@ == samples_le_bytes(samples@),
{
    let mut bytes: Vec<u8> = Vec::new();
    let mut done: usize = 0;
    while done < samples.len()
        invariant
            done <= samples@.len(),
            bytes@.len() == 2 * done,
        decreases samples@.len() - done,
    {
        bytes.push(0u8);
        bytes.push(0u8);
        done = done + 1;
    }
    write_i16_into_le(samples, &mut bytes);
    bytes
}

/// The samples that a run of bytes holds, two bytes each, low byte first.
/// A last odd byte is left out.
pub fn samples_of_le(bytes: &[u8]) -> (samples: Vec<i16>)
    ensures
        samples@ == samples_from_le(bytes@),
{
    let count = bytes.len() / 2;
    let whole = slice_subrange(bytes, 0, 2 * count);
    let mut samples: Vec<i16> = Vec::new();
    let mut done: usize = 0;
    while done < count
        invariant
            done <= count,
            samples@.len() == done,
        decreases count - done,
    {
        samples.push(0i16);
        done = done + 1;
    }
    read_i16_into_le(whole, &mut samples);
    assert(samples@ =~= samples_from_le(bytes@));
    samples
}

/// Reading back what was written, most significant byte first, gives the
/// number that was written.
pub proof fn lemma_be_round_trip(n: u32)
    ensures
        be_value(be_bytes(n)) == n,
{
}

/// Reading back the bytes of a sample gives the sample.
pub proof fn lemma_sample_round_trip(s: i16)
    ensures
        sample_from_le(sample_le_bytes(s)[0], sample_le_bytes(s)[1]) == s,
{
}

/// Reading back a run of samples gives the run.
pub proof fn lemma_samples_round_trip(samples: Seq<i16>)
    ensures
        samples_from_le(samples_le_bytes(samples)) == samples,
{
    let bytes = samples_le_bytes(samples);
    let back = samples_from_le(bytes);
    assert(back.len() == samples.len());
    assert forall|i: int| 0 <= i < samples.len() implies back[i] == samples[i] by {
        lemma_sample_round_trip(samples[i]);
        assert((2 * i) / 2 == i && (2 * i) % 2 == 0);
        assert((2 * i + 1) / 2 == i && (2 * i + 1) % 2 == 1);
    }
    assert(back =~= samples);
}

} // verus!
