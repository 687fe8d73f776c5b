//! Feedback cues: the tones played when recording starts and stops, and
//! the in-memory WAV file they are rendered into.
//!
//! Synthesizing the sine samples and playing the bytes are external
//! collaborators' work; the cue notes themselves and the WAV framing of
//! finished 16-bit mono samples are decided here, byte for byte.

use vstd::prelude::*;

verus! {

/// One feedback tone: a sine note with a fade envelope, rendered by the
/// playback collaborator. The volume is in thousandths of full scale.
#[derive(Clone, Copy, PartialEq, Eq, Structural, Debug)]
pub struct TonePlan {
    /// Pitch of the note.
    pub frequency_hz: u32,
    /// Length of the note.
    pub duration_ms: u32,
    /// Loudness, in thousandths of full scale.
    pub volume_permille: u32,
}

/// The cue played when recording starts: two quick notes going up.
pub fn start_cue() -> (tones: Vec<TonePlan>)
    ensures
        tones@.len() == 2,
        tones@[0] == (TonePlan { frequency_hz: 880, duration_ms: 80, volume_permille: 300 }),
        tones@[1] == (TonePlan { frequency_hz: 1100, duration_ms: 80, volume_permille: 300 }),
{
    let mut tones: Vec<TonePlan> = Vec::new();
    tones.push(TonePlan { frequency_hz: 880, duration_ms: 80, volume_permille: 300 });
    tones.push(TonePlan { frequency_hz: 1100, duration_ms: 80, volume_permille: 300 });
    tones
}

/// The cue played when recording stops: the same two notes going down.
pub fn stop_cue() -> (tones: Vec<TonePlan>)
    ensures
        tones@.len() == 2,
        tones@[0] == (TonePlan { frequency_hz: 1100, duration_ms: 80, volume_permille: 300 }),
        tones@[1] == (TonePlan { frequency_hz: 880, duration_ms: 80, volume_permille: 300 }),
{
    let mut tones: Vec<TonePlan> = Vec::new();
    tones.push(TonePlan { frequency_hz: 1100, duration_ms: 80, volume_permille: 300 });
    tones.push(TonePlan { frequency_hz: 880, duration_ms: 80, volume_permille: 300 });
    tones
}

/// A 16-bit value in little-endian byte order.
pub open spec fn le16_spec(x: u16) -> Seq<u8> {
    seq![(x % 256) as u8, (x / 256) as u8]
}

/// A 32-bit value in little-endian byte order.
pub open spec fn le32_spec(x: u32) -> Seq<u8> {
    seq![
        (x % 256) as u8,
        ((x / 256) % 256) as u8,
        ((x / 65536) % 256) as u8,
        ((x / 16777216) % 256) as u8,
    ]
}

/// The sample data of a 16-bit recording: each sample's two's-complement
/// bits, little-endian, in order.
pub open spec fn pcm16_spec(samples: Seq<i16>) -> Seq<u8>
    decreases samples.len(),
{
    if samples.len() == 0 {
        Seq::<u8>::empty()
    } else {
        le16_spec(samples[0] as u16) + pcm16_spec(samples.drop_first())
    }
}

/// Appending one sample appends its two bytes.
proof fn lemma_pcm16_push(samples: Seq<i16>, x: i16)
    ensures
        pcm16_spec(samples.push(x)) == pcm16_spec(samples) + le16_spec(x as u16),
    decreases samples.len(),
{
    assert(pcm16_spec(samples.push(x)) == le16_spec(samples.push(x)[0] as u16) + pcm16_spec(
        samples.push(x).drop_first(),
    ));
    if samples.len() == 0 {
        assert(samples.push(x)[0] == x);
        assert(samples.push(x).drop_first() =~= Seq::<i16>::empty());
        assert(pcm16_spec(Seq::<i16>::empty()) == Seq::<u8>::empty());
        assert(le16_spec(x as u16) + Seq::<u8>::empty() =~= le16_spec(x as u16));
        assert(pcm16_spec(samples) + le16_spec(x as u16) =~= le16_spec(x as u16));
    } else {
        assert(samples.push(x)[0] == samples[0]);
        assert(samples.push(x).drop_first() =~= samples.drop_first().push(x));
        lemma_pcm16_push(samples.drop_first(), x);
        assert(le16_spec(samples[0] as u16) + (pcm16_spec(samples.drop_first()) + le16_spec(
            x as u16,
        )) =~= (le16_spec(samples[0] as u16) + pcm16_spec(samples.drop_first())) + le16_spec(
            x as u16,
        ));
    }
}

/// The 44-byte header of a mono 16-bit WAV file holding `len` samples at
/// `rate` Hz: the RIFF chunk, the PCM `fmt ` chunk, and the `data` chunk
/// header.
pub open spec fn wav_header_spec(len: int, rate: u32) -> Seq<u8> {
    seq![0x52u8, 0x49u8, 0x46u8, 0x46u8] + le32_spec((36 + 2 * len) as u32) + seq![0x57u8, 0x41u8, 0x56u8, 0x45u8]
        + seq![0x66u8, 0x6Du8, 0x74u8, 0x20u8] + le32_spec(16) + le16_spec(1) + le16_spec(1) + le32_spec(
        rate,
    ) + le32_spec((2 * rate) as u32) + le16_spec(2) + le16_spec(16) + seq![0x64u8, 0x61u8, 0x74u8, 0x61u8]
        + le32_spec((2 * len) as u32)
}

/// A complete mono 16-bit WAV file: the header followed by the samples.
pub open spec fn wav_spec(samples: Seq<i16>, rate: u32) -> Seq<u8> {
    wav_header_spec(samples.len() as int, rate) + pcm16_spec(samples)
}

/// Append a 16-bit value, little-endian.
fn push_le16(out: &mut Vec<u8>, x: u16)
    ensures
        final(out)@ == old(out)@ + le16_spec(x),
{
    out.push((x % 256) as u8);
    out.push((x / 256) as u8);
    proof {
        assert(out@ =~= old(out)@ + le16_spec(x));
    }
}

/// Append a 32-bit value, little-endian.
fn push_le32(out: &mut Vec<u8>, x: u32)
    ensures
        final(out)@ == old(out)@ + le32_spec(x),
{
    out.push((x % 256) as u8);
    out.push(((x / 256) % 256) as u8);
    out.push(((x / 65536) % 256) as u8);
    out.push(((x / 16777216) % 256) as u8);
    proof {
        assert(out@ =~= old(out)@ + le32_spec(x));
    }
}

/// Frame finished 16-bit mono samples as an in-memory WAV file the
/// playback collaborator can decode: RIFF header, PCM format chunk for one
/// channel at `sample_rate` Hz, then the sample data.
#[verifier::loop_isolation(false)]
pub fn wav_from_pcm16(samples: &Vec<i16>, sample_rate: u32) -> (wav: Vec<u8>)
    requires
        36 + 2 * samples@.len() <= u32::MAX,
        2 * sample_rate <= u32::MAX,
    ensures
        wav@ == wav_spec(samples@, sample_rate),
{
    let n = samples.len();
    let data_size: u32 = (n as u32) * 2;
    let file_size: u32 = 36 + data_size;
    let mut wav: Vec<u8> = Vec::new();
    wav.push(0x52u8);
    wav.push(0x49u8);
    wav.push(0x46u8);
    wav.push(0x46u8);
    push_le32(&mut wav, file_size);
    wav.push(0x57u8);
    wav.push(0x41u8);
    wav.push(0x56u8);
    wav.push(0x45u8);
    wav.push(0x66u8);
    wav.push(0x6Du8);
    wav.push(0x74u8);
    wav.push(0x20u8);
    push_le32(&mut wav, 16);
    push_le16(&mut wav, 1);
    push_le16(&mut wav, 1);
    push_le32(&mut wav, sample_rate);
    push_le32(&mut wav, sample_rate * 2);
    push_le16(&mut wav, 2);
    push_le16(&mut wav, 16);
    wav.push(0x64u8);
    wav.push(0x61u8);
    wav.push(0x74u8);
    wav.push(0x61u8);
    push_le32(&mut wav, data_size);
    proof {
        assert(wav@ =~= wav_header_spec(samples@.len() as int, sample_rate));
    }
    let ghost header = wav@;
    let mut i: usize = 0;
    while i < n
        invariant
            i <= n,
            n == samples@.len(),
            wav@ == header + pcm16_spec(samples@.subrange(0, i as int)),
        decreases n - i,
    {
        let bits = #[verifier::truncate] (samples[i] as u16);
        push_le16(&mut wav, bits);
        proof {
            assert(samples@.subrange(0, i as int + 1) =~= samples@.subrange(0, i as int).push(
                samples@[i as int],
            ));
            lemma_pcm16_push(samples@.subrange(0, i as int), samples@[i as int]);
            assert((header + pcm16_spec(samples@.subrange(0, i as int))) + le16_spec(
                samples@[i as int] as u16,
            ) =~= header + (pcm16_spec(samples@.subrange(0, i as int)) + le16_spec(
                samples@[i as int] as u16,
            )));
        }
        i = i + 1;
    }
    proof {
        assert(samples@.subrange(0, n as int) =~= samples@);
    }
    wav
}

} // verus!
