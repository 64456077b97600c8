//! Mono, 16 kHz, 16-bit PCM WAV encoding of audio samples.
use vstd::prelude::*;
use crate::error::TranscribeError;

verus! {

/// Samples per second of every file this module writes.
pub const SAMPLE_RATE: u32 = 16000;

/// The most samples a file can hold: the RIFF size field (a `u32`) counts
/// 36 header bytes plus two bytes per sample.
pub const MAX_SAMPLES: usize = 2147483629;

/// Size in bytes of the canonical RIFF/WAVE header.
pub const HEADER_LEN: usize = 44;

/// The 16-bit value of a sample already scaled by 32767 and truncated:
/// out-of-range values stick to the nearest bound.
pub open spec fn clamp_pcm(scaled: int) -> i16 {
    if scaled > 32767 {
        32767
    } else if scaled < -32768 {
        -32768i16
    } else {
        scaled as i16
    }
}

/// The PCM values of a sequence of scaled samples.
pub open spec fn pcm_of(scaled: Seq<i64>) -> Seq<i16> {
    scaled.map_values(|v: i64| clamp_pcm(v as int))
}

/// Little-endian bytes of a 16-bit word.
pub open spec fn le16(x: int) -> Seq<u8> {
    seq![(x % 256) as u8, ((x / 256) % 256) as u8]
}

/// Little-endian bytes of a 32-bit word.
pub open spec fn le32(x: int) -> Seq<u8> {
    seq![
        (x % 256) as u8,
        ((x / 256) % 256) as u8,
        ((x / 65536) % 256) as u8,
        ((x / 16777216) % 256) as u8,
    ]
}

/// Four ASCII characters as bytes.
pub open spec fn tag(a: char, b: char, c: char, d: char) -> Seq<u8> {
    seq![a as u8, b as u8, c as u8, d as u8]
}

/// The 44-byte header of a mono, 16000 Hz, 16-bit PCM file of `n` samples.
pub open spec fn wav_header(n: nat) -> Seq<u8> {
    tag('R', 'I', 'F', 'F') + le32(36 + 2 * n as int) + tag('W', 'A', 'V', 'E')
        + tag('f', 'm', 't', ' ') + le32(16) + le16(1) + le16(1)
        + le32(SAMPLE_RATE as int) + le32(2 * SAMPLE_RATE as int) + le16(2) + le16(16)
        + tag('d', 'a', 't', 'a') + le32(2 * n as int)
}

/// The frames of a PCM sequence: two's complement, little-endian.
pub open spec fn pcm_frames(pcm: Seq<i16>) -> Seq<u8>
    decreases pcm.len(),
{
    if pcm.len() == 0 {
        Seq::empty()
    } else {
        pcm_frames(pcm.drop_last()) + le16(pcm.last() as u16 as int)
    }
}

/// The complete file for a PCM sequence.
pub open spec fn wav_file(pcm: Seq<i16>) -> Seq<u8> {
    wav_header(pcm.len()) + pcm_frames(pcm)
}

pub proof fn lemma_pcm_frames_len(pcm: Seq<i16>)
    ensures
        pcm_frames(pcm).len() == 2 * pcm.len(),
    decreases pcm.len(),
{
    if pcm.len() > 0 {
        lemma_pcm_frames_len(pcm.drop_last());
    }
}

/// Frame `i` of the data section holds sample `i`.
pub proof fn lemma_pcm_frames_index(pcm: Seq<i16>, i: int)
    requires
        0 <= i < pcm.len(),
    ensures
        pcm_frames(pcm).subrange(2 * i, 2 * i + 2) == le16(pcm[i] as u16 as int),
    decreases pcm.len(),
{
    lemma_pcm_frames_len(pcm);
    lemma_pcm_frames_len(pcm.drop_last());
    if i < pcm.len() - 1 {
        lemma_pcm_frames_index(pcm.drop_last(), i);
        assert(pcm_frames(pcm).subrange(2 * i, 2 * i + 2) =~= pcm_frames(
            pcm.drop_last(),
        ).subrange(2 * i, 2 * i + 2));
    } else {
        assert(pcm_frames(pcm).subrange(2 * i, 2 * i + 2) =~= le16(pcm[i] as u16 as int));
    }
}

/// A file of `n` samples is 44 + 2n bytes long.
pub proof fn lemma_wav_file_len(pcm: Seq<i16>)
    ensures
        wav_file(pcm).len() == HEADER_LEN + 2 * pcm.len(),
{
    lemma_pcm_frames_len(pcm);
}

/// Sample `i` of a file is stored at bytes 44 + 2i and 45 + 2i.
pub proof fn lemma_wav_file_sample(pcm: Seq<i16>, i: int)
    requires
        0 <= i < pcm.len(),
    ensures
        wav_file(pcm).subrange(HEADER_LEN + 2 * i, HEADER_LEN + 2 * i + 2) == le16(
            pcm[i] as u16 as int,
        ),
{
    lemma_pcm_frames_len(pcm);
    lemma_pcm_frames_index(pcm, i);
    assert(wav_file(pcm).subrange(HEADER_LEN + 2 * i, HEADER_LEN + 2 * i + 2) =~= pcm_frames(
        pcm,
    ).subrange(2 * i, 2 * i + 2));
}

/// The 16-bit value of one scaled sample, clamped to the 16-bit range.
pub fn pcm_from_scaled(scaled: i64) -> (r: i16)
    ensures
        r == clamp_pcm(scaled as int),
{
    if scaled > 32767 {
        32767
    } else if scaled < -32768 {
        -32768
    } else {
        scaled as i16
    }
}

#[verifier::external_type_specification]
#[verifier::external_body]
pub struct ExHoundError(hound::Error);

/// Relies on hound::WavWriter (new, write_sample, finalize) writing into an
/// in-memory cursor: for a mono 16-bit integer spec of at most two channels
/// it writes the 44-byte PCMWAVEFORMAT header, each sample as two
/// little-endian bytes, and on finalize patches the RIFF and data sizes.
/// Writes and seeks on the cursor do not fail, 16 bits is a supported depth
/// and a mono file never ends on an unfinished sample, so no error arises.
/// The writer takes samples one call at a time; the loop only hands them
/// over. At most `MAX_SAMPLES` keeps its `u32` byte counters from overflowing.
#[verifier::external_body]
fn hound_pcm16(pcm: &Vec<i16>) -> (r: Result<Vec<u8>, hound::Error>)
    requires
        pcm@.len() <= MAX_SAMPLES,
    ensures
        r is Ok,
        r matches Ok(bytes) ==> bytes@ == wav_file(pcm@),
{
    let mut cursor = std::io::Cursor::new(Vec::new());
    let spec = hound::WavSpec {
        channels: 1,
        sample_rate: SAMPLE_RATE,
        bits_per_sample: 16,
        sample_format: hound::SampleFormat::Int,
    };
    let mut writer = hound::WavWriter::new(&mut cursor, spec)?;
    for &s in pcm.iter() {
        writer.write_sample(s)?;
    }
    writer.finalize()?;
    Ok(cursor.into_inner())
}

} // verus!

verus! {

/// Encodes scaled samples (each a sample times 32767, truncated toward
/// zero) as a mono, 16000 Hz, 16-bit PCM WAV file held in memory. Values
/// outside the 16-bit range are clamped to its bounds.
pub fn encode_wav(scaled: &Vec<i64>) -> (r: Result<Vec<u8>, TranscribeError>)
    ensures
        scaled@.len() <= MAX_SAMPLES ==> r is Ok,
        scaled@.len() > MAX_SAMPLES ==> r == Err::<Vec<u8>, TranscribeError>(
            TranscribeError::Encoding,
        ),
        r matches Ok(bytes) ==> bytes@ == wav_file(pcm_of(scaled@)),
        r matches Ok(bytes) ==> bytes@.len() == HEADER_LEN + 2 * scaled@.len(),
        r matches Err(e) ==> e == TranscribeError::Encoding,
{
    if scaled.len() > MAX_SAMPLES {
        return Err(TranscribeError::Encoding);
    }
    let mut pcm: Vec<i16> = Vec::with_capacity(scaled.len());
    let mut i: usize = 0;
    while i < scaled.len()
        invariant
            i <= scaled@.len(),
            pcm@ == pcm_of(scaled@).subrange(0, i as int),
        decreases scaled@.len() - i,
    {
        pcm.push(pcm_from_scaled(scaled[i]));
        i = i + 1;
        assert(pcm@ =~= pcm_of(scaled@).subrange(0, i as int));
    }
    assert(pcm@ =~= pcm_of(scaled@));
    proof {
        lemma_wav_file_len(pcm@);
    }
    match hound_pcm16(&pcm) {
        Ok(bytes) => Ok(bytes),
        Err(_) => Err(TranscribeError::Encoding),
    }
}

} // verus!

verus! {

/// Encoding no samples gives exactly the 44-byte header of an empty file.
pub proof fn empty_audio_is_header_only(scaled: Seq<i64>)
    requires
        scaled.len() == 0,
    ensures
        wav_file(pcm_of(scaled)) == wav_header(0),
        wav_file(pcm_of(scaled)).len() == HEADER_LEN,
{
    assert(pcm_frames(pcm_of(scaled)) =~= Seq::<u8>::empty());
    assert(wav_file(pcm_of(scaled)) =~= wav_header(0));
}

/// A scaled sample above the 16-bit range is stored as 32767 and one below
/// it as -32768, never as a wrapped-around value.
pub proof fn out_of_range_samples_clamp(scaled: Seq<i64>, i: int)
    requires
        0 <= i < scaled.len(),
    ensures
        scaled[i] > 32767 ==> wav_file(pcm_of(scaled)).subrange(
            HEADER_LEN + 2 * i,
            HEADER_LEN + 2 * i + 2,
        ) == le16(32767),
        scaled[i] < -32768 ==> wav_file(pcm_of(scaled)).subrange(
            HEADER_LEN + 2 * i,
            HEADER_LEN + 2 * i + 2,
        ) == le16((-32768i16) as u16 as int),
{
    lemma_wav_file_sample(pcm_of(scaled), i);
}

} // verus!
