use dragon_world::wav::{
    build_wav, footstep_noise, footstep_wav_bytes, lcg_next, noise_bits, FOOTSTEP_SAMPLE_RATE,
    LCG_INCREMENT, LCG_MULTIPLIER,
};

fn le32(v: u32) -> Vec<u8> {
    v.to_le_bytes().to_vec()
}

#[test]
fn build_wav_writes_header_and_samples() {
    let out = build_wav(&[1, -2, 0x1234], 8000, 1);
    let mut expected: Vec<u8> = Vec::new();
    expected.extend_from_slice(b"RIFF");
    expected.extend(le32(36 + 6));
    expected.extend_from_slice(b"WAVEfmt ");
    expected.extend(le32(16));
    expected.extend_from_slice(&[1, 0, 1, 0]);
    expected.extend(le32(8000));
    expected.extend(le32(16000));
    expected.extend_from_slice(&[2, 0, 16, 0]);
    expected.extend_from_slice(b"data");
    expected.extend(le32(6));
    expected.extend_from_slice(&[0x01, 0x00, 0xfe, 0xff, 0x34, 0x12]);
    assert_eq!(out, expected);
}

#[test]
fn build_wav_stereo_fields() {
    let out = build_wav(&[], 44100, 2);
    assert_eq!(out.len(), 44);
    assert_eq!(&out[22..24], &[2, 0]);
    assert_eq!(&out[24..28], &44100u32.to_le_bytes());
    assert_eq!(&out[28..32], &(44100u32 * 4).to_le_bytes());
    assert_eq!(&out[32..34], &[4, 0]);
    assert_eq!(&out[40..44], &[0, 0, 0, 0]);
}

#[test]
fn wav_length_and_riff_size() {
    let samples: Vec<i16> = (0..100).map(|i| (i * 37 - 1000) as i16).collect();
    let out = build_wav(&samples, 22050, 1);
    assert_eq!(out.len(), 44 + 200);
    let riff = u32::from_le_bytes([out[4], out[5], out[6], out[7]]);
    assert_eq!(riff as usize, out.len() - 8);
}

#[test]
fn footstep_clip_is_mono_44100() {
    let samples = [i16::MIN, i16::MAX, 0, -1];
    let out = footstep_wav_bytes(&samples);
    assert_eq!(out, build_wav(&samples, FOOTSTEP_SAMPLE_RATE, 1));
    assert_eq!(&out[24..28], &44100u32.to_le_bytes());
    assert_eq!(&out[28..32], &88200u32.to_le_bytes());
    assert_eq!(&out[44..], &[0x00, 0x80, 0xff, 0x7f, 0x00, 0x00, 0xff, 0xff]);
}

#[test]
fn lcg_step_wraps() {
    assert_eq!(lcg_next(0), LCG_INCREMENT);
    assert_eq!(lcg_next(1), LCG_MULTIPLIER.wrapping_add(LCG_INCREMENT));
    let s = 0xdead_beef_u64;
    assert_eq!(
        lcg_next(s),
        ((s as u128 * LCG_MULTIPLIER as u128 + LCG_INCREMENT as u128) % (1u128 << 64)) as u64
    );
}

#[test]
fn noise_reads_top_bits() {
    assert_eq!(noise_bits(u64::MAX), i32::MAX);
    assert_eq!(noise_bits(0), 0);
    assert_eq!(noise_bits(1u64 << 33), 1);
}

#[test]
fn footstep_noise_is_deterministic_per_seed() {
    let a = footstep_noise(101, 5);
    let b = footstep_noise(101, 5);
    let c = footstep_noise(271, 5);
    assert_eq!(a, b);
    assert_ne!(a, c);
    let mut rng = lcg_next(101);
    for v in a {
        rng = lcg_next(rng);
        assert_eq!(v, (rng >> 33) as i32);
    }
    assert!(footstep_noise(7, 0).is_empty());
}
