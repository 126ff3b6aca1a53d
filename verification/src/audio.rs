//! WAV encoding of recorded audio, reading a WAV header back, and the
//! audio cues' tone sequences.

use vstd::prelude::*;

use crate::streaming::pcm16_le;

verus! {

/// The little-endian bytes of a `u16`.
pub open spec fn u16_le(x: u16) -> Seq<u8> {
    seq![(x % 256) as u8, (x / 256) as u8]
}

/// The little-endian bytes of a `u32`.
pub open spec fn u32_le(x: u32) -> Seq<u8> {
    seq![(x % 256) as u8, ((x / 256) % 256) as u8, ((x / 65536) % 256) as u8, (x / 16777216) as u8]
}

/// The ASCII tag "RIFF".
pub open spec fn tag_riff() -> Seq<u8> {
    seq![0x52u8, 0x49u8, 0x46u8, 0x46u8]
}

/// The ASCII tag "WAVE".
pub open spec fn tag_wave() -> Seq<u8> {
    seq![0x57u8, 0x41u8, 0x56u8, 0x45u8]
}

/// The ASCII tag "fmt ".
pub open spec fn tag_fmt() -> Seq<u8> {
    seq![0x66u8, 0x6du8, 0x74u8, 0x20u8]
}

/// The ASCII tag "data".
pub open spec fn tag_data() -> Seq<u8> {
    seq![0x64u8, 0x61u8, 0x74u8, 0x61u8]
}

/// The size the data chunk header records: two bytes per sample, modulo 2^32.
pub open spec fn data_size_of(samples: nat) -> u32 {
    ((2 * samples) % 0x1_0000_0000) as u32
}

/// A 16-bit mono PCM WAV file holding `samples` at `sample_rate` Hz: the
/// RIFF header, a 16-byte `fmt ` chunk, then the `data` chunk.
pub open spec fn wav_file(samples: Seq<i16>, sample_rate: u32) -> Seq<u8> {
    let data_size = data_size_of(samples.len());
    tag_riff() + u32_le((36 + data_size) as u32) + tag_wave() + tag_fmt() + u32_le(16) + u16_le(1)
        + u16_le(1) + u32_le(sample_rate) + u32_le((sample_rate * 2) as u32) + u16_le(2) + u16_le(
        16,
    ) + tag_data() + u32_le(data_size) + pcm16_le(samples)
}

fn push_u16(out: &mut Vec<u8>, x: u16)
    ensures
        final(out)@ == old(out)@ + u16_le(x),
{
    out.push((x % 256) as u8);
    out.push((x / 256) as u8);
    proof {
        assert(final(out)@ =~= old(out)@ + u16_le(x));
    }
}

fn push_u32(out: &mut Vec<u8>, x: u32)
    ensures
        final(out)@ == old(out)@ + u32_le(x),
{
    out.push((x % 256) as u8);
    out.push(((x / 256) % 256) as u8);
    out.push(((x / 65536) % 256) as u8);
    out.push((x / 16777216) as u8);
    proof {
        assert(final(out)@ =~= old(out)@ + u32_le(x));
    }
}

fn push_tag(out: &mut Vec<u8>, a: u8, b: u8, c: u8, d: u8)
    ensures
        final(out)@ == old(out)@ + seq![a, b, c, d],
{
    out.push(a);
    out.push(b);
    out.push(c);
    out.push(d);
    proof {
        assert(final(out)@ =~= old(out)@ + seq![a, b, c, d]);
    }
}

/// Encode 16-bit PCM samples as a mono WAV file in memory, ready to POST to
/// the transcription API. The recorded size fields hold the low 32 bits of
/// the data size, which must leave room for the 36 header bytes.
pub fn encode_wav(samples: &[i16], sample_rate: u32) -> (r: Vec<u8>)
    requires
        sample_rate <= u32::MAX / 16,
        data_size_of(samples@.len()) <= u32::MAX - 36,
        2 * samples@.len() <= usize::MAX,
    ensures
        r@ == wav_file(samples@, sample_rate),
{
    let num_channels: u16 = 1;
    let bits_per_sample: u16 = 16;
    let byte_rate: u32 = sample_rate * (num_channels as u32) * (bits_per_sample as u32) / 8;
    let block_align: u16 = num_channels * bits_per_sample / 8;
    let data_size: u32 = ((samples.len() as u64 * 2) % 0x1_0000_0000) as u32;
    let riff_size: u32 = 36 + data_size;
    let mut out: Vec<u8> = Vec::new();
    push_tag(&mut out, 0x52, 0x49, 0x46, 0x46);
    push_u32(&mut out, riff_size);
    push_tag(&mut out, 0x57, 0x41, 0x56, 0x45);
    push_tag(&mut out, 0x66, 0x6d, 0x74, 0x20);
    push_u32(&mut out, 16);
    push_u16(&mut out, 1);
    push_u16(&mut out, num_channels);
    push_u32(&mut out, sample_rate);
    push_u32(&mut out, byte_rate);
    push_u16(&mut out, block_align);
    push_u16(&mut out, bits_per_sample);
    push_tag(&mut out, 0x64, 0x61, 0x74, 0x61);
    push_u32(&mut out, data_size);
    let ghost header = out@;
    let mut i: usize = 0;
    while i < samples.len()
        invariant
            i <= samples@.len(),
            2 * samples@.len() <= usize::MAX,
            out@ == header + pcm16_le(samples@.take(i as int)),
        decreases samples@.len() - i,
    {
        let u = samples[i] as u16;
        out.push((u % 256) as u8);
        out.push((u / 256) as u8);
        i = i + 1;
        proof {
            assert(out@ =~= header + pcm16_le(samples@.take(i as int)));
        }
    }
    proof {
        assert(samples@.take(samples@.len() as int) =~= samples@);
        assert(byte_rate == (sample_rate * 2) as u32);
        assert(out@ =~= wav_file(samples@, sample_rate));
    }
    out
}

/// One tone of an audio cue: a sine at `freq_hz` for `duration_ms`.
#[derive(Debug, Clone, Copy, PartialEq, Eq)]
pub struct Tone {
    pub freq_hz: u32,
    pub duration_ms: u64,
}

/// The lower tone of the chirps.
pub const LOW_TONE_HZ: u32 = 880;

/// The higher tone of the chirps.
pub const HIGH_TONE_HZ: u32 = 1320;

/// How long each tone of a chirp lasts.
pub const TONE_MS: u64 = 80;

/// The tones of a cue, as (frequency, duration) pairs.
pub open spec fn tones_view(t: Seq<Tone>) -> Seq<(u32, u64)> {
    t.map_values(|x: Tone| (x.freq_hz, x.duration_ms))
}

/// The ascending chirp played when recording starts.
pub fn play_start() -> (r: Vec<Tone>)
    ensures
        tones_view(r@) == seq![(LOW_TONE_HZ, TONE_MS), (HIGH_TONE_HZ, TONE_MS)],
{
    let r = vec![
        Tone { freq_hz: LOW_TONE_HZ, duration_ms: TONE_MS },
        Tone { freq_hz: HIGH_TONE_HZ, duration_ms: TONE_MS },
    ];
    proof {
        assert(tones_view(r@) =~= seq![(LOW_TONE_HZ, TONE_MS), (HIGH_TONE_HZ, TONE_MS)]);
    }
    r
}

/// The descending chirp played when a transcription completes: the start
/// chirp backwards.
pub fn play_done() -> (r: Vec<Tone>)
    ensures
        tones_view(r@) == seq![(HIGH_TONE_HZ, TONE_MS), (LOW_TONE_HZ, TONE_MS)],
{
    let r = vec![
        Tone { freq_hz: HIGH_TONE_HZ, duration_ms: TONE_MS },
        Tone { freq_hz: LOW_TONE_HZ, duration_ms: TONE_MS },
    ];
    proof {
        assert(tones_view(r@) =~= seq![(HIGH_TONE_HZ, TONE_MS), (LOW_TONE_HZ, TONE_MS)]);
    }
    r
}

} // verus!
