//! Audio primitives (formats, PCM chunks, WAV encoding) and the speech
//! backends that work without an engine.
use vstd::prelude::*;

use crate::text::{chars_of, is_blank};
use crate::voice::{SpeechToText, TextToSpeech, VoiceError};

verus! {

/// PCM capture format used across STT/TTS boundaries.
#[derive(Debug, Clone, Copy, PartialEq, Eq, Structural)]
pub struct AudioFormat {
    pub sample_rate: u32,
    pub channels: u16,
}

impl Default for AudioFormat {
    fn default() -> (r: Self)
        ensures
            r.sample_rate == 16000 && r.channels == 1,
    {
        AudioFormat { sample_rate: 16_000, channels: 1 }
    }
}

/// A slice of mono 16-bit PCM samples with its format.
#[derive(Debug, Clone)]
pub struct AudioChunk {
    pub samples: Vec<i16>,
    pub format: AudioFormat,
}

/// Number of samples in `duration_ms` of audio at this rate.
pub open spec fn sample_count(duration_ms: u32, format: AudioFormat) -> nat {
    (format.sample_rate * duration_ms / 1000int) as nat
}

impl AudioChunk {
    /// `duration_ms` of silence in this format.
    pub fn silence(duration_ms: u32, format: AudioFormat) -> (r: Self)
        requires
            format.sample_rate * duration_ms <= u32::MAX,
        ensures
            r.format == format,
            r.samples@.len() == sample_count(duration_ms, format),
            forall|i: int| 0 <= i < r.samples@.len() ==> r.samples@[i] == 0,
    {
        let n = (format.sample_rate * duration_ms / 1000) as usize;
        let mut samples: Vec<i16> = Vec::new();
        let mut i: usize = 0;
        while i < n
            invariant
                i <= n,
                samples@.len() == i,
                forall|k: int| 0 <= k < i ==> samples@[k] == 0,
            decreases n - i,
        {
            samples.push(0);
            i = i + 1;
        }
        AudioChunk { samples, format }
    }

    /// Length in milliseconds (zero for a zero sample rate).
    pub fn duration_ms(&self) -> (r: u32)
        requires
            (self.samples@.len() as u32) * 1000 <= u32::MAX,
        ensures
            self.format.sample_rate == 0 ==> r == 0,
            self.format.sample_rate > 0 ==> r as int == (self.samples@.len() as u32) * 1000
                / (self.format.sample_rate as int),
    {
        if self.format.sample_rate == 0 {
            return 0;
        }
        (self.samples.len() as u32 * 1000) / self.format.sample_rate
    }
}

/// Sum of the squared samples.
pub open spec fn sum_squares(samples: Seq<i16>) -> int
    decreases samples.len(),
{
    if samples.len() == 0 {
        0
    } else {
        sum_squares(samples.drop_last()) + samples.last() * samples.last()
    }
}

/// The signal energy of the samples, the sum of their squares (the
/// root-mean-square level is its mean's square root over `i16::MAX`).
pub fn energy(samples: &[i16]) -> (r: u128)
    ensures
        r == sum_squares(samples@),
{
    let mut sum: u128 = 0;
    let mut i: usize = 0;
    while i < samples.len()
        invariant
            i <= samples@.len(),
            sum == sum_squares(samples@.take(i as int)),
            sum <= i * 0x4000_0000,
        decreases samples.len() - i,
    {
        let x = samples[i] as i64;
        assert(0 <= x * x <= 0x4000_0000) by (nonlinear_arith)
            requires
                -32768 <= x <= 32767,
        ;
        let sq: i64 = x * x;
        proof {
            assert(samples@.take(i + 1).drop_last() =~= samples@.take(i as int));
            assert(samples@.take(i + 1).last() == samples@[i as int]);
            assert(i * 0x4000_0000 + 0x4000_0000 == (i + 1) * 0x4000_0000) by (nonlinear_arith);
            assert((i + 1) * 0x4000_0000 <= 0x1_0000_0000_0000_0000 * 0x4000_0000) by (nonlinear_arith)
                requires
                    i + 1 <= 0x1_0000_0000_0000_0000,
            ;
        }
        sum = sum + sq as u128;
        i = i + 1;
    }
    assert(samples@.take(samples@.len() as int) =~= samples@);
    sum
}

/// The two bytes of `x`, least significant first.
pub open spec fn le16(x: u16) -> Seq<u8> {
    seq![(x % 256) as u8, (x / 256) as u8]
}

/// The four bytes of `x`, least significant first.
pub open spec fn le32(x: u32) -> Seq<u8> {
    seq![(x % 256) as u8, ((x / 256) % 256) as u8, ((x / 65536) % 256) as u8, (x / 16777216) as u8]
}

/// The bytes of the samples, two per sample, least significant first.
pub open spec fn sample_bytes(samples: Seq<i16>) -> Seq<u8>
    decreases samples.len(),
{
    if samples.len() == 0 {
        seq![]
    } else {
        sample_bytes(samples.drop_last()) + le16(samples.last() as u16)
    }
}

/// A 44-byte RIFF/WAVE header (PCM, 16 bits) followed by the samples.
pub open spec fn wav_bytes(samples: Seq<i16>, format: AudioFormat) -> Seq<u8> {
    let data_len = (samples.len() * 2) as u32;
    seq![82u8, 73u8, 70u8, 70u8] + le32((36 + data_len) as u32) + seq![
        87u8,
        65u8,
        86u8,
        69u8,
        102u8,
        109u8,
        116u8,
        32u8,
    ] + le32(16) + le16(1) + le16(format.channels) + le32(format.sample_rate) + le32(
        (format.sample_rate * format.channels * 2) as u32,
    ) + le16((format.channels * 2) as u16) + le16(16) + seq![100u8, 97u8, 116u8, 97u8] + le32(
        data_len,
    ) + sample_bytes(samples)
}

proof fn lemma_sample_bytes_len(samples: Seq<i16>)
    ensures
        sample_bytes(samples).len() == 2 * samples.len(),
    decreases samples.len(),
{
    if samples.len() > 0 {
        lemma_sample_bytes_len(samples.drop_last());
    }
}

/// A WAV file is a 44-byte header followed by two bytes per sample: it
/// starts with `RIFF`, names `WAVE` at byte 8 and `data` at byte 36, and
/// the samples' bytes are all that follows the header.
pub proof fn law_wav_layout(samples: Seq<i16>, format: AudioFormat)
    ensures
        wav_bytes(samples, format).len() == 44 + 2 * samples.len(),
        wav_bytes(samples, format).take(4) == seq![82u8, 73u8, 70u8, 70u8],
        wav_bytes(samples, format).subrange(8, 12) == seq![87u8, 65u8, 86u8, 69u8],
        wav_bytes(samples, format).subrange(36, 40) == seq![100u8, 97u8, 116u8, 97u8],
        wav_bytes(samples, format).skip(44) == sample_bytes(samples),
{
    lemma_sample_bytes_len(samples);
    let w = wav_bytes(samples, format);
    assert(w.take(4) =~= seq![82u8, 73u8, 70u8, 70u8]);
    assert(w.subrange(8, 12) =~= seq![87u8, 65u8, 86u8, 69u8]);
    assert(w.subrange(36, 40) =~= seq![100u8, 97u8, 116u8, 97u8]);
    assert(w.skip(44) =~= sample_bytes(samples));
}

fn push_le16(out: &mut Vec<u8>, x: u16)
    ensures
        final(out)@ == old(out)@ + le16(x),
{
    out.push((x % 256) as u8);
    out.push((x / 256) as u8);
    assert(final(out)@ =~= old(out)@ + le16(x));
}

fn push_le32(out: &mut Vec<u8>, x: u32)
    ensures
        final(out)@ == old(out)@ + le32(x),
{
    out.push((x % 256) as u8);
    out.push(((x / 256) % 256) as u8);
    out.push(((x / 65536) % 256) as u8);
    out.push((x / 16777216) as u8);
    assert(final(out)@ =~= old(out)@ + le32(x));
}

fn push_bytes4(out: &mut Vec<u8>, a: u8, b: u8, c: u8, d: u8)
    ensures
        final(out)@ == old(out)@ + seq![a, b, c, d],
{
    out.push(a);
    out.push(b);
    out.push(c);
    out.push(d);
    assert(final(out)@ =~= old(out)@ + seq![a, b, c, d]);
}

/// Encode mono 16-bit PCM as a minimal WAV file (for playback /
/// debugging).
pub fn encode_wav(samples: &[i16], format: AudioFormat) -> (r: Vec<u8>)
    requires
        samples@.len() * 2 <= u32::MAX - 36,
        format.sample_rate * format.channels * 2 <= u32::MAX,
        format.channels * 2 <= u16::MAX,
    ensures
        r@ == wav_bytes(samples@, format),
{
    let data_len = (samples.len() * 2) as u32;
    let mut out: Vec<u8> = Vec::new();
    push_bytes4(&mut out, 82, 73, 70, 70);
    push_le32(&mut out, 36 + data_len);
    push_bytes4(&mut out, 87, 65, 86, 69);
    push_bytes4(&mut out, 102, 109, 116, 32);
    push_le32(&mut out, 16);
    push_le16(&mut out, 1);
    push_le16(&mut out, format.channels);
    push_le32(&mut out, format.sample_rate);
    let byte_rate = format.sample_rate * format.channels as u32 * 2;
    push_le32(&mut out, byte_rate);
    push_le16(&mut out, format.channels * 2);
    push_le16(&mut out, 16);
    push_bytes4(&mut out, 100, 97, 116, 97);
    push_le32(&mut out, data_len);
    let ghost header = out@;
    let mut i: usize = 0;
    while i < samples.len()
        invariant
            i <= samples@.len(),
            out@ == header + sample_bytes(samples@.take(i as int)),
        decreases samples.len() - i,
    {
        push_le16(&mut out, samples[i] as u16);
        proof {
            assert(samples@.take(i + 1).drop_last() =~= samples@.take(i as int));
        }
        i = i + 1;
    }
    assert(samples@.take(samples@.len() as int) =~= samples@);
    assert(header =~= seq![82u8, 73u8, 70u8, 70u8] + le32((36 + data_len) as u32) + seq![
        87u8,
        65u8,
        86u8,
        69u8,
        102u8,
        109u8,
        116u8,
        32u8,
    ] + le32(16) + le16(1) + le16(format.channels) + le32(format.sample_rate) + le32(
        (format.sample_rate * format.channels * 2) as u32,
    ) + le16((format.channels * 2) as u16) + le16(16) + seq![100u8, 97u8, 116u8, 97u8] + le32(
        data_len,
    ));
    out
}

/// Milliseconds of audio the mock synthesizer makes for a text: 20 per
/// character, between 100 and 5000.
pub open spec fn mock_speech_ms(chars: nat) -> u32 {
    let ms = chars * 20;
    if ms < 100 {
        100
    } else if ms > 5000 {
        5000
    } else {
        ms as u32
    }
}

/// The text is blank.
pub open spec fn trim_len_zero(text: Seq<char>) -> bool {
    crate::text::trim_seq(text).len() == 0
}

/// The default sample format (16 kHz mono).
pub open spec fn default_format() -> AudioFormat {
    AudioFormat { sample_rate: 16000, channels: 1 }
}

/// `bytes` is a WAV file of `n` silent samples in the default format.
pub open spec fn silent_wav(bytes: Seq<u8>, n: nat) -> bool {
    exists|samples: Seq<i16>|
        samples.len() == n && (forall|i: int| 0 <= i < samples.len() ==> samples[i] == 0) && bytes
            == wav_bytes(samples, default_format())
}

/// Text-to-speech test double: silent WAV audio whose length grows with
/// the text, so playback can be exercised without an engine.
#[derive(Debug, Clone, Copy)]
pub struct MockTts;

impl MockTts {
    pub fn name(&self) -> (r: &'static str)
        ensures
            r@ == "mock-tts"@,
    {
        "mock-tts"
    }

    /// About 20 ms of silence per character (between 100 ms and 5 s);
    /// blank text is refused.
    pub fn synthesize(&self, text: &str) -> (r: Result<Vec<u8>, VoiceError>)
        requires
            text@.len() * 20 <= u32::MAX,
        ensures
            trim_len_zero(text@) ==> (r matches Err(VoiceError::Synthesis(m)) && m@ == "empty text"@),
            !trim_len_zero(text@) ==> (r matches Ok(bytes) && silent_wav(
                bytes@,
                sample_count(mock_speech_ms(text@.len()), default_format()),
            )),
    {
        if is_blank(text) {
            return Err(VoiceError::Synthesis("empty text".to_string()));
        }
        let n = chars_of(text).len();
        let raw = (n as u32) * 20;
        let ms: u32 = if raw < 100 {
            100
        } else if raw > 5000 {
            5000
        } else {
            raw
        };
        let format = AudioFormat::default();
        let chunk = AudioChunk::silence(ms, format);
        let bytes = encode_wav(chunk.samples.as_slice(), format);
        Ok(bytes)
    }
}

/// Backend for "voice enabled, no engine": 200 ms of silent WAV audio for
/// any text, so the pipeline never fails.
#[derive(Debug, Clone, Copy)]
pub struct SilentTts;

impl SilentTts {
    pub fn name(&self) -> (r: &'static str)
        ensures
            r@ == "silent-tts"@,
    {
        "silent-tts"
    }

    pub fn synthesize(&self, _text: &str) -> (r: Result<Vec<u8>, VoiceError>)
        ensures
            r matches Ok(bytes) && silent_wav(bytes@, sample_count(200, default_format())),
    {
        let format = AudioFormat::default();
        let chunk = AudioChunk::silence(200, format);
        Ok(encode_wav(chunk.samples.as_slice(), format))
    }
}

/// The default transcript of [`MockStt`].
pub open spec fn default_transcript() -> Seq<char> {
    "Bonjour, ceci est une transcription simulée."@
}

/// Speech-to-text test double: its canned transcript for any non-empty
/// audio.
#[derive(Debug, Clone)]
pub struct MockStt {
    pub transcript: String,
}

impl MockStt {
    pub fn new(transcript: String) -> (r: Self)
        ensures
            r.transcript == transcript,
    {
        MockStt { transcript }
    }

    pub fn name(&self) -> (r: &'static str)
        ensures
            r@ == "mock-stt"@,
    {
        "mock-stt"
    }

    pub fn transcribe(&self, audio: &[u8]) -> (r: Result<String, VoiceError>)
        ensures
            audio@.len() == 0 ==> (r matches Err(VoiceError::Transcription(m)) && m@
                == "empty audio buffer"@),
            audio@.len() > 0 ==> (r matches Ok(t) && t@ == self.transcript@),
    {
        if audio.len() == 0 {
            return Err(VoiceError::Transcription("empty audio buffer".to_string()));
        }
        Ok(self.transcript.clone())
    }
}

impl Default for MockStt {
    fn default() -> (r: Self)
        ensures
            r.transcript@ == default_transcript(),
    {
        MockStt::new("Bonjour, ceci est une transcription simulée.".to_string())
    }
}

/// Speech-to-text used when no microphone or engine is available.
#[derive(Debug, Clone, Copy)]
pub struct NoAudioStt;

impl NoAudioStt {
    pub fn name(&self) -> (r: &'static str)
        ensures
            r@ == "unavailable-stt"@,
    {
        "unavailable-stt"
    }

    /// Always unavailable, with a message saying what to configure.
    pub fn transcribe(&self, _audio: &[u8]) -> (r: Result<String, VoiceError>)
        ensures
            r matches Err(VoiceError::Unavailable(m)) && m@
                == "no speech-to-text backend configured (see voice.stt_provider)"@,
    {
        Err(VoiceError::Unavailable("no speech-to-text backend configured (see voice.stt_provider)".to_string()))
    }
}

impl TextToSpeech for SilentTts {
    fn name(&self) -> (r: &str)
        ensures
            r@ == "silent-tts"@,
    {
        SilentTts::name(self)
    }

    fn synthesize(&self, text: &str) -> (r: Result<Vec<u8>, VoiceError>)
        ensures
            r matches Ok(bytes) && silent_wav(bytes@, sample_count(200, default_format())),
    {
        SilentTts::synthesize(self, text)
    }
}

impl SpeechToText for MockStt {
    fn name(&self) -> (r: &str)
        ensures
            r@ == "mock-stt"@,
    {
        MockStt::name(self)
    }

    fn transcribe(&self, audio: &[u8]) -> (r: Result<String, VoiceError>)
        ensures
            audio@.len() == 0 ==> (r matches Err(VoiceError::Transcription(m)) && m@
                == "empty audio buffer"@),
            audio@.len() > 0 ==> (r matches Ok(t) && t@ == self.transcript@),
    {
        MockStt::transcribe(self, audio)
    }
}

impl SpeechToText for NoAudioStt {
    fn name(&self) -> (r: &str)
        ensures
            r@ == "unavailable-stt"@,
    {
        NoAudioStt::name(self)
    }

    fn transcribe(&self, audio: &[u8]) -> (r: Result<String, VoiceError>)
        ensures
            r matches Err(VoiceError::Unavailable(m)) && m@
                == "no speech-to-text backend configured (see voice.stt_provider)"@,
    {
        NoAudioStt::transcribe(self, audio)
    }
}

} // verus!
