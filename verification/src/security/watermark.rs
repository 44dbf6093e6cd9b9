//! Robust LSB steganography for cloned-voice provenance.
//!
//! Embeds `user_id` (i64) + `timestamp` (u32) + a CRC32 checksum into the low
//! bit of 16-bit PCM samples, redundantly across three blocks, so `decode`
//! recovers the tag even if some samples are modified; the CRC catches
//! corruption so a wrong id is never reported.
//!
//! Layout per block (12 payload bytes + 4 checksum bytes = 128 bits, each
//! byte least significant bit first):
//!   bits 0..64   user_id  (little endian)
//!   bits 64..96  timestamp (little endian)
//!   bits 96..128 crc32 of the 12-byte payload (little endian)
//! The block is repeated three times across the first 384 samples; decoding
//! takes each bit by majority vote.

use crate::error::AnubisError;
use vstd::prelude::*;
use vstd::slice::slice_to_vec;

verus! {

/// Number of redundant copies of the payload block.
pub const REPETITIONS: usize = 3;

/// Payload bytes per block: 12 payload plus 4 checksum.
pub const PAYLOAD_BYTES: usize = 16;

/// Bits per block.
pub const BITS_PER_BLOCK: usize = 128;

/// Samples that carry the watermark.
pub const TOTAL_BITS: usize = 384;

/// One step of the bitwise CRC: shift right, folding in the polynomial when
/// the low bit was set.
pub open spec fn crc_step(c: u32) -> u32 {
    if c & 1 != 0 {
        (c >> 1u32) ^ 0xEDB88320u32
    } else {
        c >> 1u32
    }
}

/// `n` CRC steps.
pub open spec fn crc_steps(c: u32, n: nat) -> u32
    decreases n,
{
    if n == 0 {
        c
    } else {
        crc_steps(crc_step(c), (n - 1) as nat)
    }
}

/// The CRC state after one more byte.
pub open spec fn crc_update(c: u32, b: u8) -> u32 {
    crc_steps(c ^ (b as u32), 8)
}

/// The CRC state after the bytes of `data`, from state `c`.
pub open spec fn crc_fold(c: u32, data: Seq<u8>) -> u32
    decreases data.len(),
{
    if data.len() == 0 {
        c
    } else {
        crc_fold(crc_update(c, data[0]), data.drop_first())
    }
}

/// The checksum: the reflected CRC-32 register over the data from all ones,
/// without a final inversion.
pub open spec fn crc32_spec(data: Seq<u8>) -> u32 {
    crc_fold(0xFFFFFFFFu32, data)
}

/// The checksum of a byte slice.
pub fn crc32(data: &[u8]) -> (r: u32)
    ensures
        r == crc32_spec(data@),
{
    let mut crc: u32 = 0xFFFFFFFF;
    let mut i: usize = 0;
    assert(data@.skip(0) =~= data@);
    while i < data.len()
        invariant
            i <= data@.len(),
            crc32_spec(data@) == crc_fold(crc, data@.skip(i as int)),
        decreases data@.len() - i,
    {
        assert(data@.skip(i as int).drop_first() =~= data@.skip(i + 1));
        let mut c: u32 = crc ^ (data[i] as u32);
        let ghost c0 = c;
        let mut j: usize = 0;
        while j < 8
            invariant
                j <= 8,
                crc_steps(c0, 8) == crc_steps(c, (8 - j) as nat),
            decreases 8 - j,
        {
            c = if c & 1 != 0 {
                (c >> 1) ^ 0xEDB88320
            } else {
                c >> 1
            };
            j = j + 1;
        }
        crc = c;
        i = i + 1;
    }
    crc
}

/// Little-endian bytes of a 64-bit value.
pub open spec fn le64(x: u64) -> Seq<u8> {
    seq![
        x as u8,
        (x >> 8u64) as u8,
        (x >> 16u64) as u8,
        (x >> 24u64) as u8,
        (x >> 32u64) as u8,
        (x >> 40u64) as u8,
        (x >> 48u64) as u8,
        (x >> 56u64) as u8,
    ]
}

/// Little-endian bytes of a 32-bit value.
pub open spec fn le32(x: u32) -> Seq<u8> {
    seq![x as u8, (x >> 8u32) as u8, (x >> 16u32) as u8, (x >> 24u32) as u8]
}

/// The 64-bit value of eight little-endian bytes.
pub open spec fn le64_value(b0: u8, b1: u8, b2: u8, b3: u8, b4: u8, b5: u8, b6: u8, b7: u8) -> u64 {
    (b0 as u64) | ((b1 as u64) << 8u64) | ((b2 as u64) << 16u64) | ((b3 as u64) << 24u64) | ((
    b4 as u64) << 32u64) | ((b5 as u64) << 40u64) | ((b6 as u64) << 48u64) | ((b7 as u64)
        << 56u64)
}

/// The 32-bit value of four little-endian bytes.
pub open spec fn le32_value(b0: u8, b1: u8, b2: u8, b3: u8) -> u32 {
    (b0 as u32) | ((b1 as u32) << 8u32) | ((b2 as u32) << 16u32) | ((b3 as u32) << 24u32)
}

proof fn lemma_le64_roundtrip(x: u64)
    ensures
        le64_value(
            x as u8,
            (x >> 8u64) as u8,
            (x >> 16u64) as u8,
            (x >> 24u64) as u8,
            (x >> 32u64) as u8,
            (x >> 40u64) as u8,
            (x >> 48u64) as u8,
            (x >> 56u64) as u8,
        ) == x,
{
    assert(((x as u8) as u64) | ((((x >> 8u64) as u8) as u64) << 8u64) | ((((x >> 16u64) as u8)
        as u64) << 16u64) | ((((x >> 24u64) as u8) as u64) << 24u64) | ((((x >> 32u64) as u8)
        as u64) << 32u64) | ((((x >> 40u64) as u8) as u64) << 40u64) | ((((x >> 48u64) as u8)
        as u64) << 48u64) | ((((x >> 56u64) as u8) as u64) << 56u64) == x) by (bit_vector);
}

proof fn lemma_le32_roundtrip(x: u32)
    ensures
        le32_value(x as u8, (x >> 8u32) as u8, (x >> 16u32) as u8, (x >> 24u32) as u8) == x,
{
    assert(((x as u8) as u32) | ((((x >> 8u32) as u8) as u32) << 8u32) | ((((x >> 16u32) as u8)
        as u32) << 16u32) | ((((x >> 24u32) as u8) as u32) << 24u32) == x) by (bit_vector);
}

proof fn lemma_i64_u64_roundtrip(x: i64)
    ensures
        ((x as u64) as i64) == x,
{
    assert(((x as u64) as i64) == x) by (bit_vector);
}

/// The 16 payload bytes for a user and timestamp: the user id and timestamp
/// (little endian) followed by the checksum of those 12 bytes.
pub open spec fn payload_of(user_id: i64, timestamp: u32) -> Seq<u8> {
    let head = le64(user_id as u64) + le32(timestamp);
    head + le32(crc32_spec(head))
}

/// Bit `k` of a payload (bytes in order, each least significant bit first).
pub open spec fn payload_bit(p: Seq<u8>, k: int) -> i16 {
    ((p[k / 8] >> ((k % 8) as u8)) & 1u8) as i16
}

/// The least significant bit of a sample.
pub open spec fn lsb(s: i16) -> i16 {
    s & 1i16
}

/// The samples with the payload written into the low bit of the first
/// `TOTAL_BITS` of them (the block repeated); later samples unchanged.
pub open spec fn watermarked(s: Seq<i16>, p: Seq<u8>) -> Seq<i16> {
    Seq::new(
        s.len(),
        |i: int|
            if i < TOTAL_BITS {
                (s[i] & !1i16) | payload_bit(p, i % (BITS_PER_BLOCK as int))
            } else {
                s[i]
            },
    )
}

/// The majority vote of the three copies of payload bit `k`.
pub open spec fn majority_bit(t: Seq<i16>, k: int) -> u8 {
    let ones = lsb(t[k]) + lsb(t[BITS_PER_BLOCK + k]) + lsb(t[2 * BITS_PER_BLOCK + k]);
    if ones * 2 >= REPETITIONS {
        1
    } else {
        0
    }
}

/// The first `j` voted bits of byte `m`, assembled least significant first.
pub open spec fn voted_bits(t: Seq<i16>, m: int, j: nat) -> u8
    decreases j,
{
    if j == 0 {
        0
    } else {
        voted_bits(t, m, (j - 1) as nat) | (majority_bit(t, 8 * m + j - 1) << ((j - 1) as u8))
    }
}

/// The 16 payload bytes recovered by majority vote.
pub open spec fn voted(t: Seq<i16>) -> Seq<u8> {
    Seq::new(PAYLOAD_BYTES as nat, |m: int| voted_bits(t, m, 8))
}

/// What decoding recovers from the samples: the user id and timestamp when
/// there are enough samples and the voted checksum matches, else nothing.
pub open spec fn decoded(t: Seq<i16>) -> Option<(i64, u32)> {
    if t.len() < TOTAL_BITS {
        None
    } else {
        let v = voted(t);
        if crc32_spec(v.subrange(0, 12)) != le32_value(v[12], v[13], v[14], v[15]) {
            None
        } else {
            Some(
                (
                    le64_value(v[0], v[1], v[2], v[3], v[4], v[5], v[6], v[7]) as i64,
                    le32_value(v[8], v[9], v[10], v[11]),
                ),
            )
        }
    }
}

/// Copy `c` of payload bit `k` in `t` carries the bit that `p` has there.
pub open spec fn copy_agrees(t: Seq<i16>, p: Seq<u8>, k: int, c: int) -> bool {
    lsb(t[c * BITS_PER_BLOCK + k]) == payload_bit(p, k)
}

/// For every payload bit, at least two of the three copies in `t` carry the
/// bit of `p`: each bit has lost at most one copy.
pub open spec fn majority_intact(t: Seq<i16>, p: Seq<u8>) -> bool {
    forall|k: int|
        0 <= k < BITS_PER_BLOCK ==> {
            let a = #[trigger] copy_agrees(t, p, k, 0);
            let b = copy_agrees(t, p, k, 1);
            let c = copy_agrees(t, p, k, 2);
            (a && b) || (a && c) || (b && c)
        }
}

proof fn lemma_lsb_bit(s: i16)
    ensures
        0 <= lsb(s) <= 1,
{
    assert(0 <= s & 1i16 <= 1) by (bit_vector);
}

proof fn lemma_payload_bit(b: u8, x: u8)
    requires
        x < 8,
    ensures
        0 <= ((b >> x) & 1u8) as i16 <= 1,
{
    assert(((b >> x) & 1u8) <= 1) by (bit_vector);
}

proof fn lemma_majority(t: Seq<i16>, p: Seq<u8>, k: int)
    requires
        t.len() >= TOTAL_BITS,
        p.len() == PAYLOAD_BYTES,
        0 <= k < BITS_PER_BLOCK,
        majority_intact(t, p),
    ensures
        majority_bit(t, k) as i16 == payload_bit(p, k),
{
    let a = copy_agrees(t, p, k, 0);
    let b = copy_agrees(t, p, k, 1);
    let c = copy_agrees(t, p, k, 2);
    assert((a && b) || (a && c) || (b && c));
    assert(a == (lsb(t[k]) == payload_bit(p, k)));
    assert(b == (lsb(t[BITS_PER_BLOCK + k]) == payload_bit(p, k)));
    assert(c == (lsb(t[2 * BITS_PER_BLOCK + k]) == payload_bit(p, k)));
    lemma_lsb_bit(t[k]);
    lemma_lsb_bit(t[BITS_PER_BLOCK + k]);
    lemma_lsb_bit(t[2 * BITS_PER_BLOCK + k]);
    lemma_payload_bit(p[k / 8], (k % 8) as u8);
}

/// Reassembling the low `j` bits of a byte from its bits.
proof fn lemma_voted_bits(t: Seq<i16>, p: Seq<u8>, m: int, j: nat)
    requires
        t.len() >= TOTAL_BITS,
        p.len() == PAYLOAD_BYTES,
        0 <= m < PAYLOAD_BYTES,
        j <= 8,
        majority_intact(t, p),
    ensures
        voted_bits(t, m, j) == p[m] & (((1u32 << (j as u32)) - 1) as u8),
    decreases j,
{
    let b = p[m];
    if j == 0 {
        assert(b & (((1u32 << 0u32) - 1) as u8) == 0) by (bit_vector);
    } else {
        let i = (j - 1) as nat;
        lemma_voted_bits(t, p, m, i);
        lemma_majority(t, p, 8 * m + i);
        assert((8 * m + i) / 8 == m);
        assert((8 * m + i) % 8 == i);
        let x = i as u8;
        let mb = majority_bit(t, 8 * m + i);
        assert(mb == (b >> x) & 1u8) by {
            lemma_payload_bit(b, x);
        }
        let iu = i as u32;
        assert(iu < 8 ==> (b & (((1u32 << iu) - 1) as u8)) | (((b >> (iu as u8)) & 1u8) << (
        iu as u8)) == b & (((1u32 << ((iu + 1) as u32)) - 1) as u8)) by (bit_vector);
        assert(x == iu as u8);
        assert(j as u32 == (iu + 1) as u32);
    }
}

/// The vote recovers the payload whenever each bit has kept two of its
/// three copies.
proof fn lemma_voted(t: Seq<i16>, p: Seq<u8>)
    requires
        t.len() >= TOTAL_BITS,
        p.len() == PAYLOAD_BYTES,
        majority_intact(t, p),
    ensures
        voted(t) == p,
{
    assert forall|m: int| 0 <= m < PAYLOAD_BYTES implies #[trigger] voted(t)[m] == p[m] by {
        lemma_voted_bits(t, p, m, 8);
        let b = p[m];
        assert(b & (((1u32 << 8u32) - 1) as u8) == b) by (bit_vector);
    }
    assert(voted(t) =~= p);
}

/// Decoding recovers the user id and timestamp from any samples in which
/// every payload bit still has at least two intact copies out of three.
pub proof fn lemma_decode_robust(t: Seq<i16>, user_id: i64, timestamp: u32)
    requires
        t.len() >= TOTAL_BITS,
        majority_intact(t, payload_of(user_id, timestamp)),
    ensures
        decoded(t) == Some((user_id, timestamp)),
{
    let p = payload_of(user_id, timestamp);
    let u = user_id as u64;
    let head = le64(u) + le32(timestamp);
    assert(p.len() == PAYLOAD_BYTES);
    lemma_voted(t, p);
    let v = voted(t);
    assert(v.subrange(0, 12) =~= head);
    let c = crc32_spec(head);
    lemma_le32_roundtrip(c);
    lemma_le32_roundtrip(timestamp);
    lemma_le64_roundtrip(u);
    lemma_i64_u64_roundtrip(user_id);
}

proof fn lemma_lsb_of_marked(s: i16, bit: i16)
    requires
        0 <= bit <= 1,
    ensures
        lsb((s & !1i16) | bit) == bit,
{
    assert(0 <= bit <= 1 ==> ((s & !1i16) | bit) & 1i16 == bit) by (bit_vector);
}

/// Embedding and then decoding gives back the user id and timestamp, for
/// any audio of at least `TOTAL_BITS` samples.
pub proof fn lemma_decode_embedded(s: Seq<i16>, user_id: i64, timestamp: u32)
    requires
        s.len() >= TOTAL_BITS,
    ensures
        decoded(watermarked(s, payload_of(user_id, timestamp))) == Some((user_id, timestamp)),
{
    let p = payload_of(user_id, timestamp);
    let t = watermarked(s, p);
    assert forall|k: int| 0 <= k < BITS_PER_BLOCK implies {
        let a = #[trigger] copy_agrees(t, p, k, 0);
        let b = copy_agrees(t, p, k, 1);
        let c = copy_agrees(t, p, k, 2);
        (a && b) || (a && c) || (b && c)
    } by {
        lemma_payload_bit(p[k / 8], (k % 8) as u8);
        let bit = payload_bit(p, k);
        assert forall|c: int| 0 <= c < 3 implies #[trigger] copy_agrees(t, p, k, c) by {
            let i = c * BITS_PER_BLOCK + k;
            assert(i % (BITS_PER_BLOCK as int) == k) by (nonlinear_arith)
                requires
                    0 <= k < 128,
                    0 <= c < 3,
                    i == c * 128 + k,
            ;
            assert(i < TOTAL_BITS) by (nonlinear_arith)
                requires
                    0 <= k < 128,
                    0 <= c < 3,
                    i == c * 128 + k,
            ;
            lemma_lsb_of_marked(s[i], bit);
        }
    }
    lemma_decode_robust(t, user_id, timestamp);
}

/// The low bit of a sample, as 0 or 1.
fn low_bit(s: i16) -> (b: i16)
    ensures
        b == lsb(s),
        0 <= b <= 1,
{
    assert(0 <= s & 1i16 <= 1) by (bit_vector);
    s & 1
}

fn push_le64(out: &mut Vec<u8>, x: u64)
    ensures
        final(out)@ == old(out)@ + le64(x),
{
    out.push(x as u8);
    out.push((x >> 8) as u8);
    out.push((x >> 16) as u8);
    out.push((x >> 24) as u8);
    out.push((x >> 32) as u8);
    out.push((x >> 40) as u8);
    out.push((x >> 48) as u8);
    out.push((x >> 56) as u8);
    assert(final(out)@ =~= old(out)@ + le64(x));
}

fn push_le32(out: &mut Vec<u8>, x: u32)
    ensures
        final(out)@ == old(out)@ + le32(x),
{
    out.push(x as u8);
    out.push((x >> 8) as u8);
    out.push((x >> 16) as u8);
    out.push((x >> 24) as u8);
    assert(final(out)@ =~= old(out)@ + le32(x));
}

/// The 16 payload bytes for a user and timestamp.
pub fn payload_bytes(user_id: i64, timestamp: u32) -> (p: Vec<u8>)
    ensures
        p@ == payload_of(user_id, timestamp),
{
    let mut p: Vec<u8> = Vec::new();
    push_le64(&mut p, user_id as u64);
    push_le32(&mut p, timestamp);
    let csum = crc32(p.as_slice());
    push_le32(&mut p, csum);
    p
}

/// Write the payload for `user_id` and `timestamp` into the low bit of the
/// first `TOTAL_BITS` samples (three copies of the 128-bit block).
pub fn embed_samples(samples: &[i16], user_id: i64, timestamp: u32) -> (r: Vec<i16>)
    ensures
        r@ == watermarked(samples@, payload_of(user_id, timestamp)),
{
    let payload = payload_bytes(user_id, timestamp);
    let mut out: Vec<i16> = Vec::new();
    let mut i: usize = 0;
    while i < samples.len()
        invariant
            i <= samples@.len(),
            payload@ == payload_of(user_id, timestamp),
            payload@.len() == PAYLOAD_BYTES,
            out@ =~= watermarked(samples@, payload@).take(i as int),
        decreases samples@.len() - i,
    {
        let sample = samples[i];
        let w = if i < TOTAL_BITS {
            let k = i % BITS_PER_BLOCK;
            let bit = ((payload[k / 8] >> ((k % 8) as u8)) & 1) as i16;
            (sample & !1) | bit
        } else {
            sample
        };
        out.push(w);
        i = i + 1;
    }
    out
}

/// Recover `(user_id, timestamp)` from samples by majority vote across the
/// three copies and a checksum check; `None` when there are too few samples
/// or the checksum does not match.
pub fn decode_samples(t: &[i16]) -> (r: Option<(i64, u32)>)
    ensures
        r == decoded(t@),
{
    if t.len() < TOTAL_BITS {
        return None;
    }
    let mut v: Vec<u8> = Vec::new();
    let mut m: usize = 0;
    while m < PAYLOAD_BYTES
        invariant
            t@.len() >= TOTAL_BITS,
            m <= PAYLOAD_BYTES,
            v@ =~= voted(t@).take(m as int),
        decreases PAYLOAD_BYTES - m,
    {
        let mut byte: u8 = 0;
        let mut j: usize = 0;
        while j < 8
            invariant
                t@.len() >= TOTAL_BITS,
                m < PAYLOAD_BYTES,
                j <= 8,
                byte == voted_bits(t@, m as int, j as nat),
            decreases 8 - j,
        {
            let k = 8 * m + j;
            let ones: i16 = low_bit(t[k]) + low_bit(t[BITS_PER_BLOCK + k]) + low_bit(
                t[2 * BITS_PER_BLOCK + k],
            );
            let bit: u8 = if ones * 2 >= 3 {
                1
            } else {
                0
            };
            byte = byte | (bit << (j as u8));
            j = j + 1;
        }
        v.push(byte);
        m = m + 1;
    }
    assert(v@ =~= voted(t@));
    let csum = crc32(vstd::slice::slice_subrange(v.as_slice(), 0, 12));
    let stored = (v[12] as u32) | ((v[13] as u32) << 8) | ((v[14] as u32) << 16) | ((v[15] as u32)
        << 24);
    if csum != stored {
        return None;
    }
    let id = (v[0] as u64) | ((v[1] as u64) << 8) | ((v[2] as u64) << 16) | ((v[3] as u64) << 24)
        | ((v[4] as u64) << 32) | ((v[5] as u64) << 40) | ((v[6] as u64) << 48) | ((v[7] as u64)
        << 56);
    let ts = (v[8] as u32) | ((v[9] as u32) << 8) | ((v[10] as u32) << 16) | ((v[11] as u32)
        << 24);
    Some((id as i64, ts))
}


/// A WAV header as `(channels, sample_rate, bits_per_sample, integer samples)`.
pub type WavHeader = (u16, u32, u16, bool);

/// What hound's reader makes of the header of `bytes`: the format, or the
/// text of its error.
pub uninterp spec fn wav_header_of(bytes: Seq<u8>) -> Result<WavHeader, Seq<char>>;

/// What hound's reader makes of the samples of `bytes`, read as 16-bit
/// integers: the interleaved samples, or the text of the first error.
pub uninterp spec fn wav_samples_of(bytes: Seq<u8>) -> Result<Seq<i16>, Seq<char>>;

/// What hound's writer produces for a header and interleaved samples: the
/// bytes of the file, or the text of its error.
pub uninterp spec fn wav_encoding(header: WavHeader, samples: Seq<i16>) -> Result<Seq<u8>, Seq<char>>;

/// A result with a `String` error, the error taken by its text.
pub open spec fn text_err<T>(r: Result<T, String>) -> Result<T, Seq<char>> {
    match r {
        Ok(v) => Ok(v),
        Err(e) => Err(e@),
    }
}

/// A result holding a vector, taken by its view.
pub open spec fn seq_result<T>(r: Result<Vec<T>, String>) -> Result<Seq<T>, Seq<char>> {
    match r {
        Ok(v) => Ok(v@),
        Err(e) => Err(e@),
    }
}

/// Whether the header describes 16-bit integer samples, the only layout
/// that carries a watermark.
pub open spec fn is_pcm16(h: WavHeader) -> bool {
    h.3 && h.2 == 16
}

/// Whether hound's writer can write `n` 16-bit samples under this header
/// without an arithmetic fault: at least one channel, a non-zero sample
/// rate whose byte rate fits 32 bits, and a data length that fits the
/// 32-bit size fields.
pub open spec fn writable(h: WavHeader, n: nat) -> bool {
    &&& h.0 > 0
    &&& h.1 > 0
    &&& h.1 * 2 * h.0 <= u32::MAX
    &&& 2 * n + 60 <= u32::MAX
}

/// Reads the header of a WAV file with `hound::WavReader::new` and
/// `WavReader::spec`. The contract claims that the result is hound's, as
/// named by `wav_header_of`, with the error taken by its `Display` text, and
/// that a header hound accepts has at least one channel (it refuses a file
/// of zero channels).
#[verifier::external_body]
fn wav_header(bytes: &[u8]) -> (r: Result<WavHeader, String>)
    ensures
        text_err(r) == wav_header_of(bytes@),
        r is Ok ==> r->Ok_0.0 > 0,
{
    match hound::WavReader::new(std::io::Cursor::new(bytes)) {
        Ok(reader) => {
            let s = reader.spec();
            let is_int = match s.sample_format {
                hound::SampleFormat::Int => true,
                hound::SampleFormat::Float => false,
            };
            Ok((s.channels, s.sample_rate, s.bits_per_sample, is_int))
        },
        Err(e) => Err(e.to_string()),
    }
}

/// Reads all samples of a WAV file as `i16` with `hound::WavReader::new`
/// and `WavReader::samples`, collected until the first error. The contract
/// claims that the result is hound's, as named by `wav_samples_of`, and
/// that when every sample reads, their number is a whole number of frames:
/// the reader yields exactly the data chunk's sample count, which it
/// refuses unless it is a multiple of the channel count.
#[verifier::external_body]
fn wav_samples(bytes: &[u8]) -> (r: Result<Vec<i16>, String>)
    ensures
        seq_result(r) == wav_samples_of(bytes@),
        r is Ok && wav_header_of(bytes@) is Ok ==> r->Ok_0@.len() % (wav_header_of(
            bytes@,
        )->Ok_0.0 as nat) == 0,
{
    let mut reader = hound::WavReader::new(std::io::Cursor::new(bytes)).map_err(|e| e.to_string())?;
    reader.samples::<i16>().collect::<Result<Vec<i16>, hound::Error>>().map_err(|e| e.to_string())
}

/// Writes a WAV file into memory with `hound::WavWriter::new`, one
/// `write_sample` per sample in order, and `finalize`. The contract claims
/// that the result is hound's, as named by `wav_encoding`, and what hound's
/// reader and writer show together: a file hound wrote reads back with the
/// same header and the same samples, as long as the block size (two bytes
/// per channel) fits the 16-bit field hound writes it to; past that the
/// writer truncates the field and nothing is claimed. Writing 16-bit
/// integer samples into memory cannot fail, so the only error is hound's
/// report of an unfinished frame, when the number of samples is not a
/// multiple of the channel count. The `requires` keeps out the inputs on
/// which hound's writer divides by zero or overflows its 32-bit counters.
#[verifier::external_body]
fn wav_encode(h: WavHeader, samples: &[i16]) -> (r: Result<Vec<u8>, String>)
    requires
        is_pcm16(h),
        writable(h, samples@.len()),
    ensures
        seq_result(r) == wav_encoding(h, samples@),
        samples@.len() % (h.0 as nat) == 0 ==> r is Ok,
        r is Ok && 2 * h.0 <= 0xFFFF ==> wav_header_of(r->Ok_0@) is Ok && wav_header_of(r->Ok_0@)->Ok_0
            == h,
        r is Ok && 2 * h.0 <= 0xFFFF ==> wav_samples_of(r->Ok_0@) is Ok && wav_samples_of(
            r->Ok_0@,
        )->Ok_0 == samples@,
{
    let format = match h.3 {
        true => hound::SampleFormat::Int,
        false => hound::SampleFormat::Float,
    };
    let spec = hound::WavSpec { channels: h.0, sample_rate: h.1, bits_per_sample: h.2, sample_format: format };
    let mut buf = std::io::Cursor::new(Vec::new());
    let mut w = hound::WavWriter::new(&mut buf, spec).map_err(|e| e.to_string())?;
    for &s in samples {
        w.write_sample(s).map_err(|e| e.to_string())?;
    }
    w.finalize().map_err(|e| e.to_string())?;
    Ok(buf.into_inner())
}

/// What embedding does to the bytes of a WAV file: nothing when disabled or
/// when the audio is not 16-bit integer PCM; hound's error on a header or
/// sample that cannot be read; else the file rewritten with the watermarked
/// samples.
pub open spec fn embedding(enabled: bool, wav: Seq<u8>, user_id: i64, timestamp: u32) -> Result<
    Seq<u8>,
    Seq<char>,
> {
    if !enabled {
        Ok(wav)
    } else {
        match wav_header_of(wav) {
            Err(e) => Err(e),
            Ok(h) => if !is_pcm16(h) {
                Ok(wav)
            } else {
                match wav_samples_of(wav) {
                    Err(e) => Err(e),
                    Ok(s) => wav_encoding(h, watermarked(s, payload_of(user_id, timestamp))),
                }
            },
        }
    }
}

/// The inputs on which embedding reaches hound's writer only with a header
/// and sample count that it can write.
pub open spec fn embed_writable(enabled: bool, wav: Seq<u8>) -> bool {
    enabled ==> match wav_header_of(wav) {
        Ok(h) => is_pcm16(h) ==> match wav_samples_of(wav) {
            Ok(s) => writable(h, s.len()),
            Err(_) => true,
        },
        Err(_) => true,
    }
}

/// What decoding reads from the bytes of a WAV file.
pub open spec fn decoding(wav: Seq<u8>) -> Option<(i64, u32)> {
    match wav_header_of(wav) {
        Ok(h) => if is_pcm16(h) {
            match wav_samples_of(wav) {
                Ok(s) => decoded(s),
                Err(_) => None,
            }
        } else {
            None
        },
        Err(_) => None,
    }
}

/// Whether embedding meets a file hound cannot read: enabled, and either
/// the header is unreadable or, for 16-bit integer PCM, a sample is.
pub open spec fn embed_unreadable(enabled: bool, wav: Seq<u8>) -> bool {
    enabled && match wav_header_of(wav) {
        Err(_) => true,
        Ok(h) => is_pcm16(h) && wav_samples_of(wav) is Err,
    }
}

/// The library's view of an embedding result.
pub open spec fn embed_view(r: Result<Vec<u8>, AnubisError>) -> Result<Seq<u8>, Seq<char>> {
    match r {
        Ok(v) => Ok(v@),
        Err(AnubisError::Wav(m)) => Err(m@),
        Err(_) => Err(Seq::empty()),
    }
}

/// Embeds and decodes the provenance tag of generated audio.
pub struct Watermarker {
    pub enabled: bool,
}

impl Watermarker {
    pub fn new(enabled: bool) -> (w: Self)
        ensures
            w.enabled == enabled,
    {
        Watermarker { enabled }
    }

    /// Tag the 16-bit PCM samples of a WAV file with `user_id` and
    /// `timestamp`. Disabled watermarking and other sample formats give the
    /// bytes back unchanged; a file hound cannot read is a `Wav` error.
    pub fn embed(&self, wav_bytes: &[u8], user_id: i64, timestamp: u32) -> (r: Result<
        Vec<u8>,
        AnubisError,
    >)
        requires
            embed_writable(self.enabled, wav_bytes@),
        ensures
            embed_view(r) == embedding(self.enabled, wav_bytes@, user_id, timestamp),
            r is Err ==> r->Err_0 is Wav,
            r is Err <==> embed_unreadable(self.enabled, wav_bytes@),
            r is Ok && self.enabled && wav_header_of(wav_bytes@) is Ok && is_pcm16(
                wav_header_of(wav_bytes@)->Ok_0,
            ) && 2 * wav_header_of(wav_bytes@)->Ok_0.0 <= 0xFFFF && wav_samples_of(wav_bytes@) is Ok
                ==> wav_header_of(r->Ok_0@) == wav_header_of(wav_bytes@) && wav_samples_of(
                r->Ok_0@,
            ) is Ok && wav_samples_of(r->Ok_0@)->Ok_0 == watermarked(
                wav_samples_of(wav_bytes@)->Ok_0,
                payload_of(user_id, timestamp),
            ),
            r is Ok && self.enabled && wav_header_of(wav_bytes@) is Ok && is_pcm16(
                wav_header_of(wav_bytes@)->Ok_0,
            ) && 2 * wav_header_of(wav_bytes@)->Ok_0.0 <= 0xFFFF && wav_samples_of(wav_bytes@) is Ok
                && wav_samples_of(wav_bytes@)->Ok_0.len() >= TOTAL_BITS ==> decoding(r->Ok_0@)
                == Some((user_id, timestamp)),
    {
        if !self.enabled {
            return Ok(slice_to_vec(wav_bytes));
        }
        let h = match wav_header(wav_bytes) {
            Ok(h) => h,
            Err(e) => return Err(AnubisError::Wav(e)),
        };
        if !(h.3 && h.2 == 16) {
            return Ok(slice_to_vec(wav_bytes));
        }
        let samples = match wav_samples(wav_bytes) {
            Ok(s) => s,
            Err(e) => return Err(AnubisError::Wav(e)),
        };
        let marked = embed_samples(samples.as_slice(), user_id, timestamp);
        match wav_encode(h, marked.as_slice()) {
            Ok(out) => {
                proof {
                    if samples@.len() >= TOTAL_BITS {
                        lemma_decode_embedded(samples@, user_id, timestamp);
                    }
                }
                Ok(out)
            },
            Err(e) => Err(AnubisError::Wav(e)),
        }
    }

    /// `embed` where hound's writer can take the file; `None` on the inputs
    /// on which writing it would fault (a zero sample rate or channel count,
    /// or sizes past the 32-bit fields), checked first.
    pub fn embed_checked(&self, wav_bytes: &[u8], user_id: i64, timestamp: u32) -> (r: Option<
        Result<Vec<u8>, AnubisError>,
    >)
        ensures
            r is None <==> !embed_writable(self.enabled, wav_bytes@),
            r is Some ==> embed_view(r->0) == embedding(
                self.enabled,
                wav_bytes@,
                user_id,
                timestamp,
            ),
    {
        if self.enabled {
            if let Ok(h) = wav_header(wav_bytes) {
                if h.3 && h.2 == 16 {
                    if let Ok(s) = wav_samples(wav_bytes) {
                        let rate2: u64 = (h.1 as u64) * 2;
                        let channels: u64 = h.0 as u64;
                        assert(rate2 * channels <= 0x2_0000_0000u64 * 0x1_0000u64)
                            by (nonlinear_arith)
                            requires
                                rate2 <= 0x2_0000_0000u64,
                                channels <= 0x1_0000u64,
                        ;
                        let ok = h.0 > 0 && h.1 > 0 && rate2 * channels <= 0xFFFF_FFFF
                            && (s.len() as u64) <= 0x7FFF_FFE1;
                        if !ok {
                            return None;
                        }
                    }
                }
            }
        }
        Some(self.embed(wav_bytes, user_id, timestamp))
    }

    /// Recover `(user_id, timestamp)` from a watermarked WAV file; `None`
    /// when the file cannot be read, is not 16-bit integer PCM, or carries
    /// no intact tag.
    pub fn decode(&self, wav_bytes: &[u8]) -> (r: Option<(i64, u32)>)
        ensures
            r == decoding(wav_bytes@),
    {
        let h = match wav_header(wav_bytes) {
            Ok(h) => h,
            Err(_) => return None,
        };
        if !(h.3 && h.2 == 16) {
            return None;
        }
        match wav_samples(wav_bytes) {
            Ok(s) => decode_samples(s.as_slice()),
            Err(_) => None,
        }
    }
}

} // verus!
