use anubis_core::security::watermark::{
    crc32, decode_samples, embed_samples, payload_bytes, Watermarker, BITS_PER_BLOCK,
    REPETITIONS, TOTAL_BITS,
};
use hound::{SampleFormat, WavSpec, WavWriter};
use std::io::Cursor;

fn make_wav(sample_count: usize) -> Vec<u8> {
    let spec = WavSpec {
        channels: 1,
        sample_rate: 8000,
        bits_per_sample: 16,
        sample_format: SampleFormat::Int,
    };
    let mut buf = Cursor::new(Vec::new());
    {
        let mut w = WavWriter::new(&mut buf, spec).unwrap();
        for i in 0..sample_count {
            w.write_sample(((i as i32 * 37) % 32000 - 16000) as i16)
                .unwrap();
        }
    }
    buf.into_inner()
}

#[test]
fn roundtrip_recovers_metadata() {
    let w = make_wav(2000);
    let wm = Watermarker::new(true);
    let tagged = wm.embed(&w, 123456789, 987654321).unwrap();
    let r = wm.decode(&tagged).unwrap();
    assert_eq!(r, (123456789, 987654321));
}

#[test]
fn disabled_returns_original() {
    let w = make_wav(500);
    let out = Watermarker::new(false).embed(&w, 1, 2).unwrap();
    assert_eq!(out, w);
}

#[test]
fn survives_bit_flips() {
    let w = make_wav(2000);
    let wm = Watermarker::new(true);
    let mut tagged = wm.embed(&w, 42, 99).unwrap();

    // Corrupt ~10% of the watermarked sample LSBs.
    // WAV header is 44 bytes; samples start at offset 44.
    let header_size = 44usize;
    let mut rng = 0x12345678u64;
    let in_scope = BITS_PER_BLOCK * REPETITIONS;
    let corrupt_count = in_scope / 10; // 10%
    for _ in 0..corrupt_count {
        rng = rng
            .wrapping_mul(6364136223846793005)
            .wrapping_add(1442695040888963407);
        let sample_idx = (rng as usize) % in_scope;
        // Each sample is 2 bytes; LSB is the first byte of the pair.
        let byte_offset = header_size + sample_idx * 2;
        if byte_offset + 1 < tagged.len() {
            tagged[byte_offset] ^= 1;
        }
    }

    // With 3x redundancy + majority vote, the id should survive.
    let r = wm.decode(&tagged).unwrap();
    assert_eq!(r.0, 42);
}

#[test]
fn empty_or_corrupt_returns_none() {
    let w = make_wav(500);
    let wm = Watermarker::new(true);
    // Untagged audio — low chance of a valid CRC collision.
    assert!(wm.decode(&w).is_none());
    // Truncated — too few samples.
    let tagged = wm.embed(&w, 7, 8).unwrap();
    assert!(wm.decode(&tagged[..100]).is_none());
}

#[test]
fn crc32_of_known_input() {
    // Reflected CRC-32 register without the final inversion.
    assert_eq!(crc32(b"123456789"), !0xCBF43926u32);
    assert_eq!(crc32(&[]), 0xFFFF_FFFF);
}

#[test]
fn payload_layout_is_little_endian_with_checksum() {
    let p = payload_bytes(0x0102030405060708, 0x0A0B0C0D);
    assert_eq!(&p[..12], &[8, 7, 6, 5, 4, 3, 2, 1, 0x0D, 0x0C, 0x0B, 0x0A]);
    let c = crc32(&p[..12]);
    assert_eq!(&p[12..], &c.to_le_bytes());
}

#[test]
fn embed_samples_touches_only_the_tagged_prefix() {
    let samples: Vec<i16> = (0..500).map(|i| (i * 7 - 1000) as i16).collect();
    let marked = embed_samples(&samples, -5, 77);
    assert_eq!(marked.len(), samples.len());
    for i in 0..samples.len() {
        assert_eq!(marked[i] & !1, samples[i] & !1);
        if i >= TOTAL_BITS {
            assert_eq!(marked[i], samples[i]);
        }
    }
    assert_eq!(decode_samples(&marked), Some((-5, 77)));
}

#[test]
fn one_damaged_copy_per_bit_is_outvoted() {
    let samples = vec![0i16; TOTAL_BITS];
    let mut marked = embed_samples(&samples, i64::MIN, u32::MAX);
    // Flip every bit of the first copy.
    for i in 0..BITS_PER_BLOCK {
        marked[i] ^= 1;
    }
    assert_eq!(decode_samples(&marked), Some((i64::MIN, u32::MAX)));
    // Flipping a second copy of one bit breaks the checksum.
    marked[BITS_PER_BLOCK] ^= 1;
    assert_eq!(decode_samples(&marked), None);
}

#[test]
fn too_few_samples_decode_to_none() {
    let marked = embed_samples(&vec![3i16; TOTAL_BITS - 1], 1, 1);
    assert_eq!(decode_samples(&marked), None);
}

#[test]
fn non_wav_bytes_are_a_wav_error() {
    let wm = Watermarker::new(true);
    let err = wm.embed(b"not a wav file", 1, 2).unwrap_err();
    assert!(err.message().starts_with("WAV codec: "));
    assert_eq!(wm.decode(b"not a wav file"), None);
}

#[test]
fn float_wav_is_returned_unchanged() {
    let spec = WavSpec {
        channels: 1,
        sample_rate: 8000,
        bits_per_sample: 32,
        sample_format: SampleFormat::Float,
    };
    let mut buf = Cursor::new(Vec::new());
    {
        let mut w = WavWriter::new(&mut buf, spec).unwrap();
        for i in 0..400 {
            w.write_sample(i as f32 / 400.0).unwrap();
        }
    }
    let bytes = buf.into_inner();
    let wm = Watermarker::new(true);
    assert_eq!(wm.embed(&bytes, 1, 2).unwrap(), bytes);
    assert_eq!(wm.embed_checked(&bytes, 1, 2).unwrap().unwrap(), bytes);
    assert_eq!(wm.decode(&bytes), None);
}
