//! Recording: how much to read, how it becomes samples, and how it becomes a WAV file.

use vstd::prelude::*;

use crate::bytes::{le16, le32, pcm16, push_le16, push_le32, push_pcm16, samples_of};
use crate::samples::{concatenated, extend};

verus! {

/// Rate of the file-dump capture.
pub const SAMPLE_RATE: u32 = 48_000;

/// Rate of the capture for transcription.
pub const RATE_16K: u32 = 16_000;

/// Bits of one sample.
pub const BITS_PER_SAMPLE: u16 = 16;

/// Frames of one read.
pub const CHUNK_FRAMES: usize = 4_096;

/// Samples of one read of the streaming capture (64 ms at 16 kHz).
pub const STREAM_CHUNK_SAMPLES: usize = 1_024;

/// Nanoseconds in a second.
pub const NANOS_PER_SEC: u128 = 1_000_000_000;

/// Length of the one-shot capture for transcription, in seconds.
pub const DEFAULT_CAPTURE_SECS: u64 = 5;

/// Bytes in front of the samples in a WAV file.
pub const WAV_HEADER_LEN: usize = 44;

// ── Configuration ─────────────────────────────────────────────────────────────

/// One file-dump capture stream.
#[derive(Debug, Clone)]
pub struct CaptureConfig {
    /// Device name on the sound server.
    pub device: String,
    /// Label shown in mixers and logs.
    pub label: &'static str,
    /// 1 for the microphone, 2 for the system monitor.
    pub channels: u8,
}

impl CaptureConfig {
    /// Microphone capture: mono.
    pub fn mic(device: String) -> (config: Self)
        ensures
            config.device@ == device@,
            config.label@ == "mic"@,
            config.channels == 1,
    {
        CaptureConfig { device, label: "mic", channels: 1 }
    }

    /// System-audio capture: stereo.
    pub fn system(device: String) -> (config: Self)
        ensures
            config.device@ == device@,
            config.label@ == "system"@,
            config.channels == 2,
    {
        CaptureConfig { device, label: "system", channels: 2 }
    }
}

/// A recorder of 16 kHz mono audio that runs until it is stopped.
#[derive(Debug)]
pub struct Recorder {
    pub device: String,
    pub label: &'static str,
}

impl Recorder {
    /// A recorder for the given device.
    pub fn new(device: String, label: &'static str) -> (recorder: Self)
        ensures
            recorder.device@ == device@,
            recorder.label@ == label@,
    {
        Recorder { device, label }
    }
}

// ── Reading ───────────────────────────────────────────────────────────────────

/// How many bytes a capture reads: at a time, and in all.
#[derive(Debug, Clone, Copy)]
pub struct ReadPlan {
    pub chunk_bytes: usize,
    pub total_bytes: usize,
}

/// The bytes of so many nanoseconds of 16-bit audio, a frame that is not over left out.
pub open spec fn planned_bytes(rate: int, channels: int, nanos: int) -> int {
    (rate * nanos / NANOS_PER_SEC as int) * (channels * 2)
}

/// The reads that capture `nanos` nanoseconds of 16-bit audio.
pub fn read_plan(rate: u32, channels: u8, nanos: u128) -> (plan: ReadPlan)
    requires
        rate * nanos <= u128::MAX,
        (rate * nanos / NANOS_PER_SEC as int) * (channels * 2) <= usize::MAX,
    ensures
        plan.chunk_bytes == CHUNK_FRAMES * (channels * 2),
        plan.total_bytes == (rate * nanos / NANOS_PER_SEC as int) * (channels * 2),
{
    let bytes_per_frame: usize = channels as usize * (BITS_PER_SAMPLE as usize / 8);
    let total_frames: u128 = rate as u128 * nanos / NANOS_PER_SEC;
    ReadPlan {
        chunk_bytes: CHUNK_FRAMES * bytes_per_frame,
        total_bytes: (total_frames * bytes_per_frame as u128) as usize,
    }
}

/// Whether a capture that has `have` bytes goes on reading.
pub fn wants_more(have: usize, plan: &ReadPlan, before_deadline: bool) -> (more: bool)
    ensures
        more == (before_deadline && have < plan.total_bytes),
{
    before_deadline && have < plan.total_bytes
}

/// What a capture holds after `chunks`, none of it beyond `total` bytes.
pub open spec fn captured(chunks: Seq<Seq<u8>>, total: int) -> Seq<u8> {
    let all = concatenated(chunks);
    if all.len() <= total {
        all
    } else {
        all.take(total)
    }
}

/// Keep a chunk, as far as it fits into the total.
pub fn keep_chunk(pcm: &mut Vec<u8>, chunk: &[u8], plan: &ReadPlan)
    requires
        old(pcm)@.len() <= plan.total_bytes,
    ensures
        final(pcm)@ == (if chunk@.len() <= plan.total_bytes - old(pcm)@.len() {
            old(pcm)@ + chunk@
        } else {
            old(pcm)@ + chunk@.take(plan.total_bytes - old(pcm)@.len())
        }),
{
    let remaining: usize = plan.total_bytes - pcm.len();
    if chunk.len() <= remaining {
        extend(pcm, chunk);
    } else {
        let (head, rest) = chunk.split_at(remaining);
        assert(head@ =~= chunk@.take(remaining as int));
        extend(pcm, head);
    }
}

/// Keeping chunk after chunk gives the audio in order, cut off at the total.
pub proof fn law_chunks_add_up(chunks: Seq<Seq<u8>>, chunk: Seq<u8>, total: int)
    requires
        total >= 0,
    ensures
        captured(chunks.push(chunk), total) == (if chunk.len() <= total - captured(
            chunks,
            total,
        ).len() {
            captured(chunks, total) + chunk
        } else {
            captured(chunks, total) + chunk.take(total - captured(chunks, total).len())
        }),
        captured(chunks, total).len() <= total,
{
    assert(chunks.push(chunk).drop_last() =~= chunks);
    let all = concatenated(chunks);
    assert(concatenated(chunks.push(chunk)) =~= all + chunk);
    let kept = captured(chunks, total);
    if chunk.len() > total - kept.len() {
        assert((all + chunk).take(total) =~= kept + chunk.take(total - kept.len()));
    } else if all.len() > total {
        assert(chunk.len() == 0);
        assert((all + chunk).take(total) =~= kept + chunk);
    }
}

/// A capture that has read as much as it planned holds exactly that, which is a whole
/// number of samples: as many in each channel as the rate gives for the time.
pub proof fn law_capture_is_as_long_as_planned(
    chunks: Seq<Seq<u8>>,
    rate: int,
    channels: int,
    nanos: int,
)
    requires
        rate >= 0,
        channels >= 0,
        nanos >= 0,
        concatenated(chunks).len() >= planned_bytes(rate, channels, nanos),
    ensures
        ({
            let pcm = captured(chunks, planned_bytes(rate, channels, nanos));
            &&& pcm.len() == planned_bytes(rate, channels, nanos)
            &&& samples_of(pcm).len() == rate * nanos / NANOS_PER_SEC as int * channels
        }),
{
    let frames = rate * nanos / NANOS_PER_SEC as int;
    assert(rate * nanos >= 0) by (nonlinear_arith)
        requires
            rate >= 0,
            nanos >= 0,
    ;
    assert(frames * (channels * 2) == 2 * (frames * channels)) by (nonlinear_arith);
    assert(frames * channels >= 0) by (nonlinear_arith)
        requires
            frames >= 0,
            channels >= 0,
    ;
}

/// The deadline does not cut a capture short that keeps up with real time: while it has
/// fewer bytes than planned, the audio that it has read is shorter than the time it takes.
pub proof fn law_deadline_leaves_time(reads: int, rate: int, channels: int, nanos: int)
    requires
        reads * (CHUNK_FRAMES * (channels * 2)) < planned_bytes(rate, channels, nanos),
        channels > 0,
    ensures
        reads * CHUNK_FRAMES * NANOS_PER_SEC < rate * nanos,
{
    let frames = rate * nanos / NANOS_PER_SEC as int;
    let read = reads * CHUNK_FRAMES;
    let width = channels * 2;
    assert(read < frames) by (nonlinear_arith)
        requires
            reads * (CHUNK_FRAMES * width) < frames * width,
            read == reads * CHUNK_FRAMES,
            width > 0,
    ;
}

// ── WAV ───────────────────────────────────────────────────────────────────────

/// A PCM WAV file: 44 header bytes, then the samples.
///
/// The length field holds `data_len`, which is the body's length where that fits it.
pub open spec fn wav_header(data_len: int, channels: int, rate: int) -> Seq<u8> {
    seq![82u8, 73, 70, 70] + le32(36 + data_len) + seq![87u8, 65, 86, 69] + seq![
        102u8,
        109,
        116,
        32,
    ] + le32(16) + le16(1) + le16(channels) + le32(rate) + le32(rate * channels * 2) + le16(
        channels * 2,
    ) + le16(16) + seq![100u8, 97, 116, 97] + le32(data_len)
}

fn push_wav_header(out: &mut Vec<u8>, data_len: u32, channels: u8, rate: u32)
    requires
        36 + data_len <= u32::MAX,
        rate * channels * 2 <= u32::MAX,
    ensures
        final(out)@ == old(out)@ + wav_header(data_len as int, channels as int, rate as int),
{
    let bytes_per_sample: u16 = BITS_PER_SAMPLE / 8;
    assert(bytes_per_sample == 2);
    let byte_rate: u32 = rate * channels as u32 * bytes_per_sample as u32;
    let block_align: u16 = channels as u16 * bytes_per_sample;
    let ghost before = out@;
    // "RIFF"
    extend(out, &[82u8, 73, 70, 70]);
    push_le32(out, 36 + data_len);
    // "WAVE"
    extend(out, &[87u8, 65, 86, 69]);
    // "fmt "
    extend(out, &[102u8, 109, 116, 32]);
    push_le32(out, 16);
    push_le16(out, 1);
    push_le16(out, channels as u16);
    push_le32(out, rate);
    push_le32(out, byte_rate);
    push_le16(out, block_align);
    push_le16(out, BITS_PER_SAMPLE);
    // "data"
    extend(out, &[100u8, 97, 116, 97]);
    push_le32(out, data_len);
    assert(out@ =~= before + wav_header(data_len as int, channels as int, rate as int));
}

/// The length field of a body of `len` bytes: the lowest 32 bits of the length.
pub open spec fn length_field(len: int) -> int {
    len % 0x1_0000_0000
}

fn low_u32(len: usize) -> (field: u32)
    ensures
        field == length_field(len as int),
{
    (len as u64 % 0x1_0000_0000) as u32
}

/// The bytes of a WAV file that holds `pcm`, raw 16-bit samples.
pub fn wav_file(pcm: &[u8], channels: u8, rate: u32) -> (file: Vec<u8>)
    requires
        36 + length_field(pcm@.len() as int) <= u32::MAX,
        rate * channels * 2 <= u32::MAX,
    ensures
        file@ == wav_header(length_field(pcm@.len() as int), channels as int, rate as int) + pcm@,
{
    let mut file: Vec<u8> = Vec::new();
    push_wav_header(&mut file, low_u32(pcm.len()), channels, rate);
    extend(&mut file, pcm);
    assert(file@ =~= wav_header(length_field(pcm@.len() as int), channels as int, rate as int)
        + pcm@);
    file
}

/// The bytes of a 16 kHz mono WAV file that holds `samples`.
pub fn wav_bytes(samples: &[i16]) -> (file: Vec<u8>)
    requires
        samples@.len() * 2 <= usize::MAX,
        36 + length_field(samples@.len() as int * 2) <= u32::MAX,
    ensures
        file@ == wav_header(length_field(samples@.len() as int * 2), 1, RATE_16K as int) + pcm16(
            samples@,
        ),
{
    let mut file: Vec<u8> = Vec::new();
    push_wav_header(&mut file, low_u32(samples.len() * 2), 1, RATE_16K);
    push_pcm16(&mut file, samples);
    file
}

/// A WAV header is 44 bytes long; its RIFF size counts what follows the size itself,
/// and its data size counts the body.
#[verifier::spinoff_prover]
pub proof fn law_wav_header_describes_body(body: Seq<u8>, channels: int, rate: int)
    requires
        36 + body.len() <= u32::MAX,
        0 <= channels <= 255,
        0 <= rate <= u32::MAX,
    ensures
        ({
            let file = wav_header(body.len() as int, channels, rate) + body;
            &&& file.len() == WAV_HEADER_LEN + body.len()
            &&& file.subrange(4, 8) == le32(file.len() - 8)
            &&& file.subrange(40, 44) == le32(body.len() as int)
            &&& file.subrange(22, 24) == le16(channels)
            &&& file.subrange(24, 28) == le32(rate)
            &&& file.skip(44) == body
        }),
{
    let header = wav_header(body.len() as int, channels, rate);
    let file = header + body;
    assert(header.len() == 44);
    assert(header.subrange(4, 8) =~= le32(36 + body.len() as int));
    assert(header.subrange(22, 24) =~= le16(channels));
    assert(header.subrange(24, 28) =~= le32(rate));
    assert(header.subrange(40, 44) =~= le32(body.len() as int));
    assert(file.subrange(4, 8) =~= header.subrange(4, 8));
    assert(file.subrange(22, 24) =~= header.subrange(22, 24));
    assert(file.subrange(24, 28) =~= header.subrange(24, 28));
    assert(file.subrange(40, 44) =~= header.subrange(40, 44));
    assert(file.skip(44) =~= body);
}

/// Every field of a WAV header stands at its place: the three tags and the size of the format,
/// plain PCM, the channels, the rate, the bytes of a second and of a frame, the bits of a
/// sample, and the size of the body.
#[verifier::spinoff_prover]
pub proof fn law_wav_header_fields(data_len: int, channels: int, rate: int)
    ensures
        ({
            let header = wav_header(data_len, channels, rate);
            &&& header.len() == 44
            &&& header.subrange(0, 4) == seq![0x52u8, 0x49, 0x46, 0x46]
            &&& header.subrange(4, 8) == le32(36 + data_len)
            &&& header.subrange(8, 12) == seq![0x57u8, 0x41, 0x56, 0x45]
            &&& header.subrange(12, 16) == seq![0x66u8, 0x6d, 0x74, 0x20]
            &&& header.subrange(16, 20) == le32(16)
            &&& header.subrange(20, 22) == le16(1)
            &&& header.subrange(22, 24) == le16(channels)
            &&& header.subrange(24, 28) == le32(rate)
            &&& header.subrange(28, 32) == le32(rate * channels * 2)
            &&& header.subrange(32, 34) == le16(channels * 2)
            &&& header.subrange(34, 36) == le16(16)
            &&& header.subrange(36, 40) == seq![0x64u8, 0x61, 0x74, 0x61]
            &&& header.subrange(40, 44) == le32(data_len)
        }),
{
    let header = wav_header(data_len, channels, rate);
    assert(header.len() == 44);
    assert(header.subrange(0, 4) =~= seq![0x52u8, 0x49, 0x46, 0x46]);
    assert(header.subrange(4, 8) =~= le32(36 + data_len));
    assert(header.subrange(8, 12) =~= seq![0x57u8, 0x41, 0x56, 0x45]);
    assert(header.subrange(12, 16) =~= seq![0x66u8, 0x6d, 0x74, 0x20]);
    assert(header.subrange(16, 20) =~= le32(16));
    assert(header.subrange(20, 22) =~= le16(1));
    assert(header.subrange(22, 24) =~= le16(channels));
    assert(header.subrange(24, 28) =~= le32(rate));
    assert(header.subrange(28, 32) =~= le32(rate * channels * 2));
    assert(header.subrange(32, 34) =~= le16(channels * 2));
    assert(header.subrange(34, 36) =~= le16(16));
    assert(header.subrange(36, 40) =~= seq![0x64u8, 0x61, 0x74, 0x61]);
    assert(header.subrange(40, 44) =~= le32(data_len));
}

/// A length that fits its field is what stands there; beyond that the field starts over.
pub proof fn law_length_field(len: int)
    requires
        len >= 0,
    ensures
        0 <= length_field(len) <= u32::MAX,
        len <= u32::MAX ==> length_field(len) == len,
        length_field(len + 0x1_0000_0000) == length_field(len),
{
}

/// A capture holds the beginning of what was read, all of it where it fits.
pub proof fn law_capture_is_a_beginning(chunks: Seq<Seq<u8>>, total: int)
    requires
        total >= 0,
    ensures
        ({
            let all = concatenated(chunks);
            let kept = captured(chunks, total);
            &&& kept == all.take(kept.len() as int)
            &&& kept.len() <= total
            &&& kept.len() == total || kept.len() == all.len()
            &&& all.len() <= total ==> kept == all
        }),
{
    let all = concatenated(chunks);
    assert(captured(chunks, total) =~= all.take(captured(chunks, total).len() as int));
}

/// The rates and sizes of a capture: a streamed block is 64 ms at its rate, a file is captured
/// at 48 kHz, and one capture for transcription takes 5 s.
pub proof fn law_capture_sizes()
    ensures
        STREAM_CHUNK_SAMPLES * 1_000 == 64 * RATE_16K,
        RATE_16K == 16_000,
        SAMPLE_RATE == 48_000,
        BITS_PER_SAMPLE == 16,
        CHUNK_FRAMES == 4_096,
        NANOS_PER_SEC == 1_000 * 1_000 * 1_000,
        DEFAULT_CAPTURE_SECS == 5,
{
}

} // verus!
