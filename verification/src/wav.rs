//! In-memory RIFF/WAVE encoding of 16-bit PCM, and the deterministic noise
//! source that drives the procedural footstep clips.
//!
//! A WAV file here is the canonical 44-byte header (`RIFF` chunk, `fmt `
//! chunk of 16 bytes describing uncompressed PCM, `data` chunk) followed by
//! the interleaved samples, each written little-endian.

use vstd::prelude::*;

verus! {

/// Sample rate of the procedural footstep clips (Hz).
pub const FOOTSTEP_SAMPLE_RATE: u32 = 44100;

/// Multiplier of the 64-bit linear congruential generator used for noise.
pub const LCG_MULTIPLIER: u64 = 6364136223846793005;

/// Increment of the 64-bit linear congruential generator used for noise.
pub const LCG_INCREMENT: u64 = 1442695040888963407;

/// Little-endian encoding of a value below 2^16.
pub open spec fn le16(v: nat) -> Seq<u8> {
    seq![(v % 256) as u8, ((v / 256) % 256) as u8]
}

/// Little-endian encoding of a value below 2^32.
pub open spec fn le32(v: nat) -> Seq<u8> {
    seq![
        (v % 256) as u8,
        ((v / 256) % 256) as u8,
        ((v / 65536) % 256) as u8,
        ((v / 16777216) % 256) as u8,
    ]
}

/// The ASCII chunk tag `RIFF`.
pub open spec fn tag_riff() -> Seq<u8> {
    seq![0x52u8, 0x49u8, 0x46u8, 0x46u8]
}

/// The ASCII format tag `WAVE`.
pub open spec fn tag_wave() -> Seq<u8> {
    seq![0x57u8, 0x41u8, 0x56u8, 0x45u8]
}

/// The ASCII chunk tag `fmt ` (with a trailing space).
pub open spec fn tag_fmt() -> Seq<u8> {
    seq![0x66u8, 0x6du8, 0x74u8, 0x20u8]
}

/// The ASCII chunk tag `data`.
pub open spec fn tag_data() -> Seq<u8> {
    seq![0x64u8, 0x61u8, 0x74u8, 0x61u8]
}

/// The 44-byte header of a 16-bit PCM WAV file whose data chunk holds
/// `data_size` bytes.
pub open spec fn wav_header(sample_rate: nat, channels: nat, data_size: nat) -> Seq<u8> {
    tag_riff() + le32(36 + data_size) + tag_wave() + tag_fmt() + le32(16) + le16(1) + le16(
        channels,
    ) + le32(sample_rate) + le32(sample_rate * channels * 2) + le16(channels * 2) + le16(16)
        + tag_data() + le32(data_size)
}

/// The two's-complement bit pattern of a 16-bit sample, as a value below 2^16.
pub open spec fn sample_bits(s: i16) -> nat {
    if s < 0 {
        (s + 65536) as nat
    } else {
        s as nat
    }
}

/// The samples, each as two little-endian bytes, in order.
pub open spec fn pcm_bytes(samples: Seq<i16>) -> Seq<u8>
    decreases samples.len(),
{
    if samples.len() == 0 {
        Seq::empty()
    } else {
        pcm_bytes(samples.drop_last()) + le16(sample_bits(samples.last()))
    }
}

/// A complete 16-bit PCM WAV file holding `samples` (interleaved over
/// `channels`) at `sample_rate` Hz.
pub open spec fn wav_bytes(samples: Seq<i16>, sample_rate: nat, channels: nat) -> Seq<u8> {
    wav_header(sample_rate, channels, 2 * samples.len()) + pcm_bytes(samples)
}

/// Whether `wav_bytes(samples, sample_rate, channels)` fits the header's
/// 32- and 16-bit fields (and the data size in a `usize`).
pub open spec fn wav_fits(sample_count: nat, sample_rate: nat, channels: nat) -> bool {
    &&& sample_count * 2 + 36 <= u32::MAX
    &&& sample_rate * channels * 2 <= u32::MAX
    &&& channels * 2 <= u16::MAX
}

/// The PCM data holds two bytes per sample.
pub proof fn lemma_pcm_bytes_len(samples: Seq<i16>)
    ensures
        pcm_bytes(samples).len() == 2 * samples.len(),
    decreases samples.len(),
{
    if samples.len() > 0 {
        lemma_pcm_bytes_len(samples.drop_last());
    }
}

/// Byte `2 * k` and `2 * k + 1` of the PCM data are the low and high byte of
/// sample `k`.
pub proof fn lemma_pcm_bytes_index(samples: Seq<i16>, k: int)
    requires
        0 <= k < samples.len(),
    ensures
        pcm_bytes(samples).len() == 2 * samples.len(),
        pcm_bytes(samples)[2 * k] == (sample_bits(samples[k]) % 256) as u8,
        pcm_bytes(samples)[2 * k + 1] == ((sample_bits(samples[k]) / 256) % 256) as u8,
    decreases samples.len(),
{
    lemma_pcm_bytes_len(samples);
    lemma_pcm_bytes_len(samples.drop_last());
    if k < samples.len() - 1 {
        lemma_pcm_bytes_index(samples.drop_last(), k);
    }
}

/// A WAV file of `n` samples is 44 header bytes plus two bytes per sample,
/// and its RIFF size field counts every byte after the first eight.
pub proof fn lemma_wav_len(samples: Seq<i16>, sample_rate: nat, channels: nat)
    requires
        samples.len() * 2 + 36 <= u32::MAX,
    ensures
        wav_bytes(samples, sample_rate, channels).len() == 44 + 2 * samples.len(),
        wav_bytes(samples, sample_rate, channels).subrange(4, 8) == le32(
            (wav_bytes(samples, sample_rate, channels).len() - 8) as nat,
        ),
        wav_bytes(samples, sample_rate, channels).subrange(40, 44) == le32(2 * samples.len()),
{
    lemma_pcm_bytes_len(samples);
    let w = wav_bytes(samples, sample_rate, channels);
    assert(w.subrange(4, 8) =~= le32(36 + 2 * samples.len()));
    assert(w.subrange(40, 44) =~= le32(2 * samples.len()));
}

/// Byte `b` (0 = lowest) of the little-endian encoding of `v`.
pub open spec fn byte_of(v: int, b: nat) -> u8 {
    ((v / pow256(b)) % 256) as u8
}

/// `256^b`.
pub open spec fn pow256(b: nat) -> int
    decreases b,
{
    if b == 0 {
        1
    } else {
        256 * pow256((b - 1) as nat)
    }
}

/// The 44 header bytes, one by one.
proof fn lemma_wav_header_bytes(sample_rate: nat, channels: nat, d: nat)
    ensures
        ({
            let h = wav_header(sample_rate, channels, d);
            let br = sample_rate * channels * 2;
            &&& h.len() == 44
            &&& h[0] == 0x52 && h[1] == 0x49 && h[2] == 0x46 && h[3] == 0x46
            &&& h[4] == byte_of((36 + d) as int, 0) && h[5] == byte_of((36 + d) as int, 1)
            &&& h[6] == byte_of((36 + d) as int, 2) && h[7] == byte_of((36 + d) as int, 3)
            &&& h[8] == 0x57 && h[9] == 0x41 && h[10] == 0x56 && h[11] == 0x45
            &&& h[12] == 0x66 && h[13] == 0x6d && h[14] == 0x74 && h[15] == 0x20
            &&& h[16] == 16 && h[17] == 0 && h[18] == 0 && h[19] == 0
            &&& h[20] == 1 && h[21] == 0
            &&& h[22] == byte_of(channels as int, 0) && h[23] == byte_of(channels as int, 1)
            &&& h[24] == byte_of(sample_rate as int, 0) && h[25] == byte_of(sample_rate as int, 1)
            &&& h[26] == byte_of(sample_rate as int, 2) && h[27] == byte_of(sample_rate as int, 3)
            &&& h[28] == byte_of(br as int, 0) && h[29] == byte_of(br as int, 1)
            &&& h[30] == byte_of(br as int, 2) && h[31] == byte_of(br as int, 3)
            &&& h[32] == byte_of((channels * 2) as int, 0) && h[33] == byte_of((channels * 2) as int, 1)
            &&& h[34] == 16 && h[35] == 0
            &&& h[36] == 0x64 && h[37] == 0x61 && h[38] == 0x74 && h[39] == 0x61
            &&& h[40] == byte_of(d as int, 0) && h[41] == byte_of(d as int, 1)
            &&& h[42] == byte_of(d as int, 2) && h[43] == byte_of(d as int, 3)
        }),
{
    reveal_with_fuel(pow256, 4);
    let br = sample_rate * channels * 2;
    let h = wav_header(sample_rate, channels, d);
    let p0 = tag_riff() + le32(36 + d);
    let p1 = tag_wave() + tag_fmt();
    let p2 = le32(16) + le16(1) + le16(channels);
    let p3 = le32(sample_rate) + le32(br);
    let p4 = le16(channels * 2) + le16(16);
    let p5 = tag_data() + le32(d);
    assert(p0 =~= seq![0x52u8, 0x49u8, 0x46u8, 0x46u8, byte_of((36 + d) as int, 0), byte_of((36 + d) as int, 1), byte_of((36 + d) as int, 2), byte_of((36 + d) as int, 3)]);
    assert(p1 =~= seq![0x57u8, 0x41u8, 0x56u8, 0x45u8, 0x66u8, 0x6du8, 0x74u8, 0x20u8]);
    assert(p2 =~= seq![16u8, 0u8, 0u8, 0u8, 1u8, 0u8, byte_of(channels as int, 0), byte_of(channels as int, 1)]);
    assert(p3 =~= seq![byte_of(sample_rate as int, 0), byte_of(sample_rate as int, 1), byte_of(sample_rate as int, 2), byte_of(sample_rate as int, 3), byte_of(br as int, 0), byte_of(br as int, 1), byte_of(br as int, 2), byte_of(br as int, 3)]);
    assert(p4 =~= seq![byte_of((channels * 2) as int, 0), byte_of((channels * 2) as int, 1), 16u8, 0u8]);
    assert(p5 =~= seq![0x64u8, 0x61u8, 0x74u8, 0x61u8, byte_of(d as int, 0), byte_of(d as int, 1), byte_of(d as int, 2), byte_of(d as int, 3)]);
    assert(h =~= p0 + p1 + p2 + p3 + p4 + p5);
}

/// The layout of every WAV file built here, byte by byte: the `RIFF` tag
/// and the size of the rest of the file, `WAVE`, a 16-byte `fmt ` chunk
/// declaring uncompressed PCM (format 1) with the given channel count and
/// sample rate, a byte rate of `rate * channels * 2`, a block of
/// `channels * 2` bytes and 16 bits per sample, then the `data` tag, the
/// data size `2 * n`, and each sample as two's complement, low byte first.
#[verifier::rlimit(60)]
pub proof fn lemma_wav_layout(samples: Seq<i16>, sample_rate: nat, channels: nat)
    ensures
        ({
            let w = wav_bytes(samples, sample_rate, channels);
            let n = samples.len();
            let br = sample_rate * channels * 2;
            &&& w.len() == 44 + 2 * n
            &&& w[0] == 0x52 && w[1] == 0x49 && w[2] == 0x46 && w[3] == 0x46
            &&& w[4] == byte_of((36 + 2 * n) as int, 0) && w[5] == byte_of((36 + 2 * n) as int, 1)
            &&& w[6] == byte_of((36 + 2 * n) as int, 2) && w[7] == byte_of((36 + 2 * n) as int, 3)
            &&& w[8] == 0x57 && w[9] == 0x41 && w[10] == 0x56 && w[11] == 0x45
            &&& w[12] == 0x66 && w[13] == 0x6d && w[14] == 0x74 && w[15] == 0x20
            &&& w[16] == 16 && w[17] == 0 && w[18] == 0 && w[19] == 0
            &&& w[20] == 1 && w[21] == 0
            &&& w[22] == byte_of(channels as int, 0) && w[23] == byte_of(channels as int, 1)
            &&& w[24] == byte_of(sample_rate as int, 0) && w[25] == byte_of(sample_rate as int, 1)
            &&& w[26] == byte_of(sample_rate as int, 2) && w[27] == byte_of(sample_rate as int, 3)
            &&& w[28] == byte_of(br as int, 0) && w[29] == byte_of(br as int, 1)
            &&& w[30] == byte_of(br as int, 2) && w[31] == byte_of(br as int, 3)
            &&& w[32] == byte_of((channels * 2) as int, 0) && w[33] == byte_of((channels * 2) as int, 1)
            &&& w[34] == 16 && w[35] == 0
            &&& w[36] == 0x64 && w[37] == 0x61 && w[38] == 0x74 && w[39] == 0x61
            &&& w[40] == byte_of((2 * n) as int, 0) && w[41] == byte_of((2 * n) as int, 1)
            &&& w[42] == byte_of((2 * n) as int, 2) && w[43] == byte_of((2 * n) as int, 3)
            &&& forall|k: int|
                0 <= k < n ==> {
                    &&& #[trigger] w[44 + 2 * k] == byte_of((samples[k] as int + 65536) % 65536, 0)
                    &&& w[44 + 2 * k + 1] == byte_of((samples[k] as int + 65536) % 65536, 1)
                }
        }),
{
    let n = samples.len();
    lemma_pcm_bytes_len(samples);
    lemma_wav_header_bytes(sample_rate, channels, 2 * n);
    lemma_wav_sample_bytes(samples, sample_rate, channels);
    let w = wav_bytes(samples, sample_rate, channels);
    let h = wav_header(sample_rate, channels, 2 * n);
    assert(w.subrange(0, 44) =~= h);
    assert(forall|i: int| 0 <= i < 44 ==> #[trigger] w[i] == w.subrange(0, 44)[i]);
}

/// The samples follow the header, each as two's complement, low byte first.
proof fn lemma_wav_sample_bytes(samples: Seq<i16>, sample_rate: nat, channels: nat)
    ensures
        forall|k: int|
            0 <= k < samples.len() ==> {
                &&& #[trigger] wav_bytes(samples, sample_rate, channels)[44 + 2 * k] == byte_of(
                    (samples[k] as int + 65536) % 65536,
                    0,
                )
                &&& wav_bytes(samples, sample_rate, channels)[44 + 2 * k + 1] == byte_of(
                    (samples[k] as int + 65536) % 65536,
                    1,
                )
            },
{
    let n = samples.len();
    lemma_pcm_bytes_len(samples);
    reveal_with_fuel(pow256, 2);
    let w = wav_bytes(samples, sample_rate, channels);
    let h = wav_header(sample_rate, channels, 2 * n);
    assert(h.len() == 44);
    assert forall|k: int| 0 <= k < n implies {
        &&& #[trigger] w[44 + 2 * k] == byte_of((samples[k] as int + 65536) % 65536, 0)
        &&& w[44 + 2 * k + 1] == byte_of((samples[k] as int + 65536) % 65536, 1)
    } by {
        lemma_pcm_bytes_index(samples, k);
        assert(w[44 + 2 * k] == pcm_bytes(samples)[2 * k]);
        assert(w[44 + 2 * k + 1] == pcm_bytes(samples)[2 * k + 1]);
        assert((samples[k] as int + 65536) % 65536 == sample_bits(samples[k]) as int);
    }
}

fn push_tag(out: &mut Vec<u8>, a: u8, b: u8, c: u8, d: u8)
    ensures
        final(out)@ == old(out)@ + seq![a, b, c, d],
{
    out.push(a);
    out.push(b);
    out.push(c);
    out.push(d);
    assert(out@ =~= old(out)@ + seq![a, b, c, d]);
}

fn push_le16(out: &mut Vec<u8>, v: u16)
    ensures
        final(out)@ == old(out)@ + le16(v as nat),
{
    out.push((v % 256) as u8);
    out.push((v / 256) as u8);
    assert(out@ =~= old(out)@ + le16(v as nat));
}

fn push_le32(out: &mut Vec<u8>, v: u32)
    ensures
        final(out)@ == old(out)@ + le32(v as nat),
{
    out.push((v % 256) as u8);
    out.push(((v / 256) % 256) as u8);
    out.push(((v / 65536) % 256) as u8);
    out.push((v / 16777216) as u8);
    assert(out@ =~= old(out)@ + le32(v as nat));
}

/// Encodes `samples` (16-bit PCM, interleaved over `channels`) as a
/// self-contained WAV file.
pub fn build_wav(samples: &[i16], sample_rate: u32, channels: u16) -> (out: Vec<u8>)
    requires
        wav_fits(samples@.len(), sample_rate as nat, channels as nat),
    ensures
        out@ == wav_bytes(samples@, sample_rate as nat, channels as nat),
        out@.len() == 44 + 2 * samples@.len(),
        out@[20] == 1 && out@[21] == 0,
{
    let ghost rate = sample_rate as nat;
    let ghost ch = channels as nat;
    assert(sample_rate * channels <= u32::MAX) by (nonlinear_arith)
        requires
            sample_rate * channels * 2 <= u32::MAX,
    ;
    let byte_rate: u32 = sample_rate * (channels as u32) * 2;
    let block_align: u16 = channels * 2;
    let data_size: u32 = (samples.len() * 2) as u32;
    let mut out: Vec<u8> = Vec::new();
    push_tag(&mut out, 0x52, 0x49, 0x46, 0x46);
    push_le32(&mut out, 36 + data_size);
    push_tag(&mut out, 0x57, 0x41, 0x56, 0x45);
    push_tag(&mut out, 0x66, 0x6d, 0x74, 0x20);
    push_le32(&mut out, 16);
    push_le16(&mut out, 1);
    push_le16(&mut out, channels);
    push_le32(&mut out, sample_rate);
    push_le32(&mut out, byte_rate);
    push_le16(&mut out, block_align);
    push_le16(&mut out, 16);
    push_tag(&mut out, 0x64, 0x61, 0x74, 0x61);
    push_le32(&mut out, data_size);
    let ghost header = wav_header(rate, ch, 2 * samples@.len());
    assert(out@ =~= header);
    let mut i: usize = 0;
    while i < samples.len()
        invariant
            0 <= i <= samples@.len(),
            out@ == header + pcm_bytes(samples@.subrange(0, i as int)),
        decreases samples@.len() - i,
    {
        let s = samples[i];
        let bits: u16 = if s < 0 {
            (s as i32 + 65536) as u16
        } else {
            s as u16
        };
        assert(bits as nat == sample_bits(s));
        push_le16(&mut out, bits);
        proof {
            let next = samples@.subrange(0, i + 1);
            assert(next.drop_last() =~= samples@.subrange(0, i as int));
            assert(next.last() == s);
            assert(out@ =~= header + pcm_bytes(next));
        }
        i = i + 1;
    }
    assert(samples@.subrange(0, samples@.len() as int) =~= samples@);
    proof {
        lemma_pcm_bytes_len(samples@);
        lemma_wav_header_bytes(rate, ch, 2 * samples@.len());
        assert(out@[20] == header[20] && out@[21] == header[21]);
    }
    out
}

/// Encodes one procedural footstep clip: 16-bit mono PCM at
/// `FOOTSTEP_SAMPLE_RATE`.
pub fn footstep_wav_bytes(samples: &[i16]) -> (out: Vec<u8>)
    requires
        samples@.len() * 2 + 36 <= u32::MAX,
    ensures
        out@ == wav_bytes(samples@, FOOTSTEP_SAMPLE_RATE as nat, 1),
        out@.len() == 44 + 2 * samples@.len(),
        out@[22] == 1 && out@[23] == 0,
        out@[24] == 0x44 && out@[25] == 0xac && out@[26] == 0 && out@[27] == 0,
{
    let out = build_wav(samples, FOOTSTEP_SAMPLE_RATE, 1);
    proof {
        lemma_wav_layout(samples@, FOOTSTEP_SAMPLE_RATE as nat, 1);
        reveal_with_fuel(pow256, 4);
        assert(FOOTSTEP_SAMPLE_RATE == 44100);
        assert(byte_of(44100, 0) == 0x44);
        assert(byte_of(44100, 1) == 0xac);
        assert(byte_of(44100, 2) == 0);
        assert(byte_of(44100, 3) == 0);
        assert(byte_of(1, 0) == 1);
        assert(byte_of(1, 1) == 0);
    }
    out
}

/// One step of the noise generator: `state * LCG_MULTIPLIER + LCG_INCREMENT`
/// modulo 2^64.
#[verifier::opaque]
pub open spec fn lcg_step(state: u64) -> u64 {
    ((state as nat * LCG_MULTIPLIER as nat + LCG_INCREMENT as nat) % 0x1_0000_0000_0000_0000nat) as u64
}

/// The generator state after `n` steps from `state`.
pub open spec fn lcg_iter(state: u64, n: nat) -> u64
    decreases n,
{
    if n == 0 {
        state
    } else {
        lcg_step(lcg_iter(state, (n - 1) as nat))
    }
}

/// The raw noise value read from a generator state: its top 31 bits.
pub open spec fn noise_of(state: u64) -> i32 {
    (state as nat / 0x2_0000_0000nat) as i32
}

/// Adding `c < m` to `a % m` and wrapping once past `m` gives `(a + c) % m`.
proof fn lemma_wrapping_add_of_mod(a: int, c: int, m: int)
    requires
        a >= 0,
        0 <= c < m,
    ensures
        ({
            let r = a % m;
            if r + c >= m {
                r + c - m
            } else {
                r + c
            }
        }) == (a + c) % m,
{
    let r = a % m;
    vstd::arithmetic::div_mod::lemma_mod_bound(a, m);
    vstd::arithmetic::div_mod::lemma_add_mod_noop(a, c, m);
    vstd::arithmetic::div_mod::lemma_small_mod(c as nat, m as nat);
    if r + c >= m {
        vstd::arithmetic::div_mod::lemma_fundamental_div_mod_converse(r + c, m, 1, r + c - m);
    } else {
        vstd::arithmetic::div_mod::lemma_small_mod((r + c) as nat, m as nat);
    }
}

/// Advances the noise generator by one step (wrapping arithmetic).
pub fn lcg_next(state: u64) -> (next: u64)
    ensures
        next == lcg_step(state),
        next as int == (state as int * 6364136223846793005 + 1442695040888963407)
            % 0x1_0000_0000_0000_0000,
{
    let m = state.wrapping_mul(LCG_MULTIPLIER);
    let r = m.wrapping_add(LCG_INCREMENT);
    proof {
        reveal(lcg_step);
        lemma_wrapping_add_of_mod(
            state as int * LCG_MULTIPLIER as int,
            LCG_INCREMENT as int,
            0x1_0000_0000_0000_0000int,
        );
    }
    proof {
        reveal(lcg_step);
    }
    r
}

/// The generator's state sequence starts at the seed, and each state is the
/// previous one times `LCG_MULTIPLIER` plus `LCG_INCREMENT`, modulo 2^64.
pub proof fn lemma_lcg_iter_recurrence(state: u64, n: nat)
    ensures
        lcg_iter(state, 0) == state,
        lcg_iter(state, n + 1) as int == (lcg_iter(state, n) as int * 6364136223846793005
            + 1442695040888963407) % 0x1_0000_0000_0000_0000,
{
    reveal(lcg_step);
    assert(lcg_iter(state, n + 1) == lcg_step(lcg_iter(state, n)));
}

/// The top 31 bits of a generator state, as a non-negative `i32`.
pub fn noise_bits(state: u64) -> (v: i32)
    ensures
        v == noise_of(state),
        0 <= v,
        v as int == state as int / 0x2_0000_0000,
{
    (state / 0x2_0000_0000u64) as i32
}

/// The raw noise values of one footstep clip: the generator is seeded with
/// one step from `seed`, and each value is read after one further step.
pub fn footstep_noise(seed: u64, count: usize) -> (noise: Vec<i32>)
    ensures
        noise@.len() == count,
        forall|k: int| 0 <= k < count ==> #[trigger] noise@[k] == noise_of(lcg_iter(seed, (k + 2) as nat)),
        forall|k: int|
            0 <= k < count ==> #[trigger] noise@[k] as int == lcg_iter(seed, (k + 2) as nat) as int
                / 0x2_0000_0000,
{
    let mut rng = lcg_next(seed);
    assert(lcg_iter(seed, 0) == seed);
    assert(lcg_iter(seed, 1) == lcg_step(lcg_iter(seed, 0)));
    let mut noise: Vec<i32> = Vec::new();
    let mut k: usize = 0;
    while k < count
        invariant
            0 <= k <= count,
            noise@.len() == k,
            rng == lcg_iter(seed, (k + 1) as nat),
            forall|j: int| 0 <= j < k ==> #[trigger] noise@[j] == noise_of(lcg_iter(seed, (j + 2) as nat)),
        decreases count - k,
    {
        rng = lcg_next(rng);
        noise.push(noise_bits(rng));
        k = k + 1;
    }
    noise
}

} // verus!
