//! FFmpeg command lines, WAV encoding and the checks around video encoding.
//!
//! The caller runs FFmpeg and writes files; this module decides what FFmpeg is
//! asked to do, what bytes a WAV file holds, and how each outcome is reported.

use vstd::prelude::*;
use vstd::string::*;
use crate::text::{decimal, u32_to_decimal};

verus! {

/// The contents of a list of strings.
pub open spec fn string_views(v: Seq<String>) -> Seq<Seq<char>> {
    v.map_values(|s: String| s@)
}

/// Appends a copy of `s` to `v`.
fn push_str(v: &mut Vec<String>, s: &str)
    ensures
        string_views(final(v)@) == string_views(old(v)@).push(s@),
{
    v.push(String::from_str(s));
    assert(string_views(v@) =~= string_views(old(v)@).push(s@));
}

/// `<width>x<height>`, as FFmpeg's `-video_size` takes it.
pub open spec fn video_size(width: u32, height: u32) -> Seq<char> {
    decimal(width as nat) + "x"@ + decimal(height as nat)
}

/// Options that read raw BGRA frames of the given size and rate from stdin.
pub open spec fn raw_input_args(width: u32, height: u32, fps: u32) -> Seq<Seq<char>> {
    seq![
        "-y"@, "-f"@, "rawvideo"@, "-pixel_format"@, "bgra"@,
        "-video_size"@, video_size(width, height),
        "-framerate"@, decimal(fps as nat),
        "-i"@, "pipe:0"@,
    ]
}

/// Options that encode the video stream as H.264.
pub open spec fn x264_args() -> Seq<Seq<char>> {
    seq!["-c:v"@, "libx264"@, "-preset"@, "ultrafast"@, "-crf"@, "23"@, "-pix_fmt"@, "yuv420p"@]
}

/// Options that encode the audio stream as AAC and stop at the shorter stream.
pub open spec fn aac_args() -> Seq<Seq<char>> {
    seq!["-c:a"@, "aac"@, "-b:a"@, "128k"@, "-shortest"@]
}

/// The FFmpeg arguments of a streaming encoder writing to `output`.
pub open spec fn streaming_args_spec(output: Seq<char>, width: u32, height: u32, fps: u32) -> Seq<Seq<char>> {
    raw_input_args(width, height, fps) + x264_args() + seq![output]
}

/// The FFmpeg arguments that mux a video file and a WAV file into `output`.
pub open spec fn mux_args_spec(video: Seq<char>, wav: Seq<char>, output: Seq<char>) -> Seq<Seq<char>> {
    seq!["-y"@, "-i"@, video, "-i"@, wav, "-c:v"@, "copy"@] + aac_args() + seq![output]
}

/// The FFmpeg arguments that encode piped frames, with an optional WAV track.
pub open spec fn encode_args_spec(
    width: u32,
    height: u32,
    fps: u32,
    wav: Option<Seq<char>>,
    output: Seq<char>,
) -> Seq<Seq<char>> {
    match wav {
        Some(w) => raw_input_args(width, height, fps) + seq!["-i"@, w] + x264_args() + aac_args() + seq![output],
        None => raw_input_args(width, height, fps) + x264_args() + seq![output],
    }
}

fn push_raw_input_args(v: &mut Vec<String>, width: u32, height: u32, fps: u32)
    ensures
        string_views(final(v)@) == string_views(old(v)@) + raw_input_args(width, height, fps),
{
    let ghost start = string_views(v@);
    push_str(v, "-y");
    push_str(v, "-f");
    push_str(v, "rawvideo");
    push_str(v, "-pixel_format");
    push_str(v, "bgra");
    push_str(v, "-video_size");
    let mut size = u32_to_decimal(width);
    size.append("x");
    size.append(u32_to_decimal(height).as_str());
    push_str(v, size.as_str());
    push_str(v, "-framerate");
    push_str(v, u32_to_decimal(fps).as_str());
    push_str(v, "-i");
    push_str(v, "pipe:0");
    assert(string_views(v@) =~= start + raw_input_args(width, height, fps));
}

fn push_x264_args(v: &mut Vec<String>)
    ensures
        string_views(final(v)@) == string_views(old(v)@) + x264_args(),
{
    let ghost start = string_views(v@);
    push_str(v, "-c:v");
    push_str(v, "libx264");
    push_str(v, "-preset");
    push_str(v, "ultrafast");
    push_str(v, "-crf");
    push_str(v, "23");
    push_str(v, "-pix_fmt");
    push_str(v, "yuv420p");
    assert(string_views(v@) =~= start + x264_args());
}

fn push_aac_args(v: &mut Vec<String>)
    ensures
        string_views(final(v)@) == string_views(old(v)@) + aac_args(),
{
    let ghost start = string_views(v@);
    push_str(v, "-c:a");
    push_str(v, "aac");
    push_str(v, "-b:a");
    push_str(v, "128k");
    push_str(v, "-shortest");
    assert(string_views(v@) =~= start + aac_args());
}

/// The FFmpeg arguments of a streaming encoder: raw BGRA frames of
/// `width`x`height` at `fps` on stdin, encoded to H.264 in `output`.
pub fn streaming_args(output: &str, width: u32, height: u32, fps: u32) -> (r: Vec<String>)
    ensures
        string_views(r@) == streaming_args_spec(output@, width, height, fps),
{
    let mut v: Vec<String> = Vec::new();
    assert(string_views(v@) =~= Seq::<Seq<char>>::empty());
    push_raw_input_args(&mut v, width, height, fps);
    push_x264_args(&mut v);
    push_str(&mut v, output);
    assert(string_views(v@) =~= streaming_args_spec(output@, width, height, fps));
    v
}

/// The encoder's decisions: FFmpeg command lines, WAV bytes, frame checks,
/// and how each FFmpeg run is reported.
pub struct VideoEncoder;

/// How a frame reaches the encoder: BGRA frames carry their size.
#[derive(Debug, Clone, Copy, PartialEq, Eq, Structural)]
pub enum FrameFormat {
    Bgra { width: i32, height: i32 },
    Other,
}

/// The unsigned reading of a signed 32-bit value (what `as u32` gives).
pub open spec fn as_unsigned(x: i32) -> u32 {
    if x >= 0 {
        x as u32
    } else {
        (x + 0x1_0000_0000) as u32
    }
}

fn to_unsigned(x: i32) -> (r: u32)
    ensures
        r == as_unsigned(x),
{
    if x >= 0 {
        x as u32
    } else {
        (x as i64 + 0x1_0000_0000i64) as u32
    }
}

/// Little-endian bytes of a 16-bit value.
pub open spec fn le16(x: int) -> Seq<u8> {
    seq![(x % 256) as u8, ((x / 256) % 256) as u8]
}

/// Little-endian bytes of a 32-bit value.
pub open spec fn le32(x: int) -> Seq<u8> {
    seq![(x % 256) as u8, ((x / 256) % 256) as u8, ((x / 65536) % 256) as u8, ((x / 16777216) % 256) as u8]
}

/// The value of two little-endian bytes.
pub open spec fn le16_value(b: Seq<u8>) -> int {
    b[0] + 256 * b[1]
}

/// The value of four little-endian bytes.
pub open spec fn le32_value(b: Seq<u8>) -> int {
    b[0] + 256 * b[1] + 65536 * b[2] + 16777216 * b[3]
}

/// The bytes of the `data` chunk size for `sample_count` 16-bit samples (the
/// count is taken modulo 2^32, as a 32-bit header field holds it).
pub open spec fn wav_data_size(sample_count: nat) -> int {
    ((sample_count % 0x1_0000_0000) * 2) as int
}

/// Whether the header fields of a WAV file fit their widths.
pub open spec fn wav_fits(sample_count: nat, sample_rate: u32, channels: u16) -> bool {
    &&& sample_rate * channels * 2 <= u32::MAX
    &&& channels * 2 <= u16::MAX
    &&& wav_data_size(sample_count) + 36 <= u32::MAX
}

/// The 44-byte header of a 16-bit PCM WAV file.
pub open spec fn wav_header(sample_count: nat, sample_rate: u32, channels: u16) -> Seq<u8> {
    let data_size: int = wav_data_size(sample_count);
    seq![0x52u8, 0x49u8, 0x46u8, 0x46u8] + le32(36 + data_size)
        + seq![0x57u8, 0x41u8, 0x56u8, 0x45u8]
        + seq![0x66u8, 0x6du8, 0x74u8, 0x20u8] + le32(16) + le16(1) + le16(channels as int)
        + le32(sample_rate as int) + le32(sample_rate * channels * 2) + le16(channels * 2) + le16(16)
        + seq![0x64u8, 0x61u8, 0x74u8, 0x61u8] + le32(data_size)
}

/// The two bytes of a 16-bit sample (two's complement, little-endian).
pub open spec fn sample_bytes(s: i16) -> Seq<u8> {
    le16(if s >= 0 { s as int } else { s + 65536 })
}

/// The bytes of a run of 16-bit samples.
pub open spec fn pcm16_bytes(samples: Seq<i16>) -> Seq<u8>
    decreases samples.len(),
{
    if samples.len() == 0 {
        Seq::empty()
    } else {
        pcm16_bytes(samples.drop_last()) + sample_bytes(samples.last())
    }
}

fn push_le16(v: &mut Vec<u8>, x: u32)
    requires
        x <= u16::MAX,
    ensures
        final(v)@ == old(v)@ + le16(x as int),
{
    v.push((x % 256) as u8);
    v.push((x / 256) as u8);
    assert(v@ =~= old(v)@ + le16(x as int));
}

fn push_le32(v: &mut Vec<u8>, x: u32)
    ensures
        final(v)@ == old(v)@ + le32(x as int),
{
    v.push((x % 256) as u8);
    v.push(((x / 256) % 256) as u8);
    v.push(((x / 65536) % 256) as u8);
    v.push((x / 16777216) as u8);
    assert(v@ =~= old(v)@ + le32(x as int));
}

fn push_tag(v: &mut Vec<u8>, a: u8, b: u8, c: u8, d: u8)
    ensures
        final(v)@ == old(v)@ + seq![a, b, c, d],
{
    v.push(a);
    v.push(b);
    v.push(c);
    v.push(d);
    assert(v@ =~= old(v)@ + seq![a, b, c, d]);
}

impl VideoEncoder {
    /// Refuses to encode an empty run of frames.
    pub fn check_frames(frame_count: usize) -> (r: Result<(), String>)
        ensures
            r is Ok <==> frame_count > 0,
            r matches Err(e) ==> e@ == "No frames to encode"@,
    {
        if frame_count == 0 {
            Err(String::from_str("No frames to encode"))
        } else {
            Ok(())
        }
    }

    /// The size of a frame, which must be BGRA.
    pub fn frame_dimensions(frame: &FrameFormat) -> (r: Result<(u32, u32), String>)
        ensures
            match *frame {
                FrameFormat::Bgra { width, height } => r == Ok::<(u32, u32), String>(
                    (as_unsigned(width), as_unsigned(height)),
                ),
                FrameFormat::Other => r matches Err(e) && e@ == "Unexpected frame format (expected BGRA)"@,
            },
    {
        match *frame {
            FrameFormat::Bgra { width, height } => Ok((to_unsigned(width), to_unsigned(height))),
            FrameFormat::Other => Err(String::from_str("Unexpected frame format (expected BGRA)")),
        }
    }

    /// The size of the first captured frame of a recording, which must be BGRA.
    pub fn first_frame_dimensions(frame: &FrameFormat) -> (r: Result<(u32, u32), String>)
        ensures
            match *frame {
                FrameFormat::Bgra { width, height } => r == Ok::<(u32, u32), String>(
                    (as_unsigned(width), as_unsigned(height)),
                ),
                FrameFormat::Other => r matches Err(e) && e@ == "Unexpected frame format"@,
            },
    {
        match *frame {
            FrameFormat::Bgra { width, height } => Ok((to_unsigned(width), to_unsigned(height))),
            FrameFormat::Other => Err(String::from_str("Unexpected frame format")),
        }
    }

    /// The FFmpeg arguments that mux `video` with the audio in `wav` into `output`.
    pub fn mux_args(video: &str, wav: &str, output: &str) -> (r: Vec<String>)
        ensures
            string_views(r@) == mux_args_spec(video@, wav@, output@),
    {
        let mut v: Vec<String> = Vec::new();
        assert(string_views(v@) =~= Seq::<Seq<char>>::empty());
        push_str(&mut v, "-y");
        push_str(&mut v, "-i");
        push_str(&mut v, video);
        push_str(&mut v, "-i");
        push_str(&mut v, wav);
        push_str(&mut v, "-c:v");
        push_str(&mut v, "copy");
        push_aac_args(&mut v);
        push_str(&mut v, output);
        assert(string_views(v@) =~= mux_args_spec(video@, wav@, output@));
        v
    }

    /// The FFmpeg arguments that encode piped BGRA frames of `width`x`height`
    /// at `fps` into `output`, adding the audio of `wav` when given.
    pub fn encode_args(width: u32, height: u32, fps: u32, wav: Option<&str>, output: &str) -> (r: Vec<String>)
        ensures
            string_views(r@) == encode_args_spec(
                width,
                height,
                fps,
                match wav {
                    Some(w) => Some(w@),
                    None => None,
                },
                output@,
            ),
    {
        let mut v: Vec<String> = Vec::new();
        assert(string_views(v@) =~= Seq::<Seq<char>>::empty());
        push_raw_input_args(&mut v, width, height, fps);
        match wav {
            Some(w) => {
                push_str(&mut v, "-i");
                push_str(&mut v, w);
            },
            None => {},
        }
        push_x264_args(&mut v);
        if wav.is_some() {
            push_aac_args(&mut v);
        }
        push_str(&mut v, output);
        proof {
            match wav {
                Some(w) => {
                    assert(string_views(v@) =~= raw_input_args(width, height, fps) + seq!["-i"@, w@]
                        + x264_args() + aac_args() + seq![output@]);
                },
                None => {
                    assert(string_views(v@) =~= raw_input_args(width, height, fps) + x264_args()
                        + seq![output@]);
                },
            }
        }
        v
    }

    /// Whether captured audio goes into the file: only when there is audio
    /// and it holds samples.
    pub fn wav_needed(has_audio: bool, sample_count: usize) -> (r: bool)
        ensures
            r == (has_audio && sample_count > 0),
    {
        has_audio && sample_count > 0
    }

    /// Whether a WAV file of `sample_count` samples at `sample_rate` over
    /// `channels` has header fields that fit their widths.
    pub fn wav_header_fits(sample_count: usize, sample_rate: u32, channels: u16) -> (r: bool)
        ensures
            r == wav_fits(sample_count as nat, sample_rate, channels),
    {
        let rate: u64 = sample_rate as u64;
        let ch: u64 = channels as u64;
        assert(rate * ch <= 0xffff_ffff * 0xffff) by (nonlinear_arith)
            requires
                rate <= 0xffff_ffff,
                ch <= 0xffff,
        ;
        let byte_rate: u64 = rate * ch * 2;
        let count: u64 = (sample_count as u64) % 0x1_0000_0000u64;
        byte_rate <= 0xffff_ffffu64 && ch * 2 <= 0xffffu64 && count * 2 + 36 <= 0xffff_ffffu64
    }

    /// A 16-bit PCM WAV file holding `samples` (interleaved over `channels`)
    /// at `sample_rate`.
    pub fn wav_bytes(samples: &[i16], sample_rate: u32, channels: u16) -> (r: Vec<u8>)
        requires
            wav_fits(samples@.len(), sample_rate, channels),
        ensures
            r@ == wav_header(samples@.len(), sample_rate, channels) + pcm16_bytes(samples@),
    {
        let byte_rate: u32 = sample_rate * (channels as u32) * 2;
        let block_align: u16 = channels * 2;
        let count: u64 = samples.len() as u64;
        let count32: u32 = (count % 0x1_0000_0000u64) as u32;
        let data_size: u32 = count32 * 2;
        let file_size: u32 = 36 + data_size;

        let mut out: Vec<u8> = Vec::new();
        push_tag(&mut out, 0x52, 0x49, 0x46, 0x46);
        push_le32(&mut out, file_size);
        push_tag(&mut out, 0x57, 0x41, 0x56, 0x45);
        push_tag(&mut out, 0x66, 0x6d, 0x74, 0x20);
        push_le32(&mut out, 16);
        push_le16(&mut out, 1);
        push_le16(&mut out, channels as u32);
        push_le32(&mut out, sample_rate);
        push_le32(&mut out, byte_rate);
        push_le16(&mut out, block_align as u32);
        push_le16(&mut out, 16);
        push_tag(&mut out, 0x64, 0x61, 0x74, 0x61);
        push_le32(&mut out, data_size);
        let ghost header = wav_header(samples@.len(), sample_rate, channels);
        assert(out@ =~= header);

        let n: usize = samples.len();
        for i in 0..n
            invariant
                n == samples@.len(),
                out@ == header + pcm16_bytes(samples@.take(i as int)),
        {
            let s: i16 = samples[i];
            let u: u32 = if s >= 0 { s as u32 } else { (s as i32 + 65536) as u32 };
            push_le16(&mut out, u);
            proof {
                assert(samples@.take(i + 1).drop_last() =~= samples@.take(i as int));
                assert(out@ =~= header + pcm16_bytes(samples@.take(i + 1)));
            }
        }
        assert(samples@.take(n as int) =~= samples@);
        out
    }

    /// How a finished streaming encoder is reported: the output path, or the
    /// FFmpeg error output.
    pub fn streaming_outcome(success: bool, stderr: &str, output_path: String) -> (r: Result<String, String>)
        ensures
            success ==> r == Ok::<String, String>(output_path),
            !success ==> (r matches Err(e) && e@ == "FFmpeg failed: "@ + stderr@),
    {
        if success {
            Ok(output_path)
        } else {
            let mut e = String::from_str("FFmpeg failed: ");
            e.append(stderr);
            Err(e)
        }
    }

    /// How a mux run is reported.
    pub fn mux_outcome(success: bool, stderr: &str) -> (r: Result<(), String>)
        ensures
            r is Ok <==> success,
            r matches Err(e) ==> e@ == "FFmpeg mux failed: "@ + stderr@,
    {
        if success {
            Ok(())
        } else {
            let mut e = String::from_str("FFmpeg mux failed: ");
            e.append(stderr);
            Err(e)
        }
    }

    /// How a run that encodes a batch of frames is reported.
    pub fn encode_outcome(success: bool, stderr: &str) -> (r: Result<(), String>)
        ensures
            r is Ok <==> success,
            r matches Err(e) ==> e@ == "ffmpeg failed: "@ + stderr@,
    {
        if success {
            Ok(())
        } else {
            let mut e = String::from_str("ffmpeg failed: ");
            e.append(stderr);
            Err(e)
        }
    }
}

/// Two little-endian bytes read back as the value they were made from.
pub proof fn lemma_le16_round_trip(x: int)
    requires
        0 <= x < 0x1_0000,
    ensures
        le16(x).len() == 2,
        le16_value(le16(x)) == x,
{
}

/// Four little-endian bytes read back as the value they were made from.
pub proof fn lemma_le32_round_trip(x: int)
    requires
        0 <= x < 0x1_0000_0000,
    ensures
        le32(x).len() == 4,
        le32_value(le32(x)) == x,
{
}

/// Each sample takes two bytes.
pub proof fn lemma_pcm16_len(samples: Seq<i16>)
    ensures
        pcm16_bytes(samples).len() == 2 * samples.len(),
    decreases samples.len(),
{
    if samples.len() > 0 {
        lemma_pcm16_len(samples.drop_last());
    }
}

/// The fields of a WAV header sit at their fixed offsets.
#[verifier::spinoff_prover]
#[verifier::rlimit(40)]
pub proof fn lemma_wav_header_fields(sample_count: nat, sample_rate: u32, channels: u16)
    ensures
        ({
            let h = wav_header(sample_count, sample_rate, channels);
            let data_size: int = wav_data_size(sample_count);
            &&& h.len() == 44
            &&& h.subrange(4, 8) == le32(36 + data_size)
            &&& h.subrange(20, 22) == le16(1)
            &&& h.subrange(22, 24) == le16(channels as int)
            &&& h.subrange(24, 28) == le32(sample_rate as int)
            &&& h.subrange(28, 32) == le32(sample_rate * channels * 2)
            &&& h.subrange(32, 34) == le16(channels * 2)
            &&& h.subrange(34, 36) == le16(16)
            &&& h.subrange(40, 44) == le32(data_size)
        }),
{
    let data_size: int = wav_data_size(sample_count);
    let byte_rate: int = sample_rate * channels * 2;
    let p1 = seq![0x52u8, 0x49u8, 0x46u8, 0x46u8] + le32(36 + data_size);
    let p2 = p1 + seq![0x57u8, 0x41u8, 0x56u8, 0x45u8] + seq![0x66u8, 0x6du8, 0x74u8, 0x20u8]
        + le32(16) + le16(1);
    let p3 = p2 + le16(channels as int);
    let p4 = p3 + le32(sample_rate as int);
    let p5 = p4 + le32(byte_rate);
    let p6 = p5 + le16(channels * 2);
    let p7 = p6 + le16(16) + seq![0x64u8, 0x61u8, 0x74u8, 0x61u8];
    let h = p7 + le32(data_size);
    assert(h =~= wav_header(sample_count, sample_rate, channels));
    assert(p1.subrange(4, 8) =~= le32(36 + data_size));
    assert(h.subrange(4, 8) =~= p1.subrange(4, 8));
    assert(p2.subrange(20, 22) =~= le16(1));
    assert(h.subrange(20, 22) =~= p2.subrange(20, 22));
    assert(h.subrange(22, 24) =~= le16(channels as int));
    assert(h.subrange(24, 28) =~= le32(sample_rate as int));
    assert(h.subrange(28, 32) =~= le32(byte_rate));
    assert(h.subrange(32, 34) =~= le16(channels * 2));
    assert(h.subrange(34, 36) =~= le16(16));
    assert(h.subrange(40, 44) =~= le32(data_size));
}

/// The numeric fields of a WAV header read back as the values it was made with.
pub proof fn lemma_wav_header_values(sample_count: nat, sample_rate: u32, channels: u16)
    requires
        wav_fits(sample_count, sample_rate, channels),
        sample_count < 0x1_0000_0000,
    ensures
        ({
            let h = wav_header(sample_count, sample_rate, channels);
            &&& h.len() == 44
            &&& le32_value(h.subrange(4, 8)) == 36 + 2 * sample_count
            &&& le32_value(h.subrange(40, 44)) == 2 * sample_count
            &&& le16_value(h.subrange(20, 22)) == 1
            &&& le16_value(h.subrange(22, 24)) == channels
            &&& le32_value(h.subrange(24, 28)) == sample_rate
            &&& le32_value(h.subrange(28, 32)) == sample_rate * channels * 2
            &&& le16_value(h.subrange(32, 34)) == channels * 2
            &&& le16_value(h.subrange(34, 36)) == 16
        }),
{
    let data_size: int = wav_data_size(sample_count);
    assert(data_size == 2 * sample_count);
    lemma_wav_header_fields(sample_count, sample_rate, channels);
    let byte_rate: int = sample_rate * channels * 2;
    let align: int = channels * 2;
    lemma_le32_round_trip(36 + data_size);
    lemma_le32_round_trip(data_size);
    lemma_le32_round_trip(sample_rate as int);
    lemma_le32_round_trip(byte_rate);
    lemma_le16_round_trip(1);
    lemma_le16_round_trip(16);
    lemma_le16_round_trip(channels as int);
    lemma_le16_round_trip(align);
}

/// A WAV file describes itself: its RIFF size counts the bytes after the size
/// field, its data size counts the sample bytes that follow the 44-byte
/// header, its format fields read back as the rate and channel count it was
/// made with, and sample `i` reads back from bytes `44 + 2i` and `45 + 2i`.
pub proof fn lemma_wav_layout(samples: Seq<i16>, sample_rate: u32, channels: u16, i: int)
    requires
        wav_fits(samples.len(), sample_rate, channels),
        samples.len() < 0x1_0000_0000,
        0 <= i < samples.len(),
    ensures
        ({
            let w = wav_header(samples.len(), sample_rate, channels) + pcm16_bytes(samples);
            &&& w.len() == 44 + 2 * samples.len()
            &&& le32_value(w.subrange(4, 8)) == w.len() - 8
            &&& le32_value(w.subrange(40, 44)) == w.len() - 44
            &&& le16_value(w.subrange(20, 22)) == 1
            &&& le16_value(w.subrange(22, 24)) == channels
            &&& le32_value(w.subrange(24, 28)) == sample_rate
            &&& le32_value(w.subrange(28, 32)) == sample_rate * channels * 2
            &&& le16_value(w.subrange(32, 34)) == channels * 2
            &&& le16_value(w.subrange(34, 36)) == 16
            &&& w.subrange(44, w.len() as int) == pcm16_bytes(samples)
            &&& le16_value(w.subrange(44 + 2 * i, 46 + 2 * i)) == (if samples[i] >= 0 {
                samples[i] as int
            } else {
                samples[i] + 65536
            })
        }),
{
    let n: nat = samples.len();
    let h = wav_header(n, sample_rate, channels);
    let p = pcm16_bytes(samples);
    let w = h + p;
    lemma_wav_header_values(n, sample_rate, channels);
    lemma_pcm16_len(samples);
    assert(w.subrange(4, 8) =~= h.subrange(4, 8));
    assert(w.subrange(40, 44) =~= h.subrange(40, 44));
    assert(w.subrange(20, 22) =~= h.subrange(20, 22));
    assert(w.subrange(22, 24) =~= h.subrange(22, 24));
    assert(w.subrange(24, 28) =~= h.subrange(24, 28));
    assert(w.subrange(28, 32) =~= h.subrange(28, 32));
    assert(w.subrange(32, 34) =~= h.subrange(32, 34));
    assert(w.subrange(34, 36) =~= h.subrange(34, 36));
    assert(w.subrange(44, w.len() as int) =~= p);
    lemma_pcm16_sample(samples, i);
    assert(w.subrange(44 + 2 * i, 46 + 2 * i) =~= p.subrange(2 * i, 2 * i + 2));
    let u: int = if samples[i] >= 0 { samples[i] as int } else { samples[i] + 65536 };
    lemma_le16_round_trip(u);
}

/// Sample `i` occupies bytes `2i` and `2i + 1` of the sample bytes.
pub proof fn lemma_pcm16_sample(samples: Seq<i16>, i: int)
    requires
        0 <= i < samples.len(),
    ensures
        pcm16_bytes(samples).len() == 2 * samples.len(),
        pcm16_bytes(samples).subrange(2 * i, 2 * i + 2) == sample_bytes(samples[i]),
    decreases samples.len(),
{
    lemma_pcm16_len(samples);
    let init = samples.drop_last();
    lemma_pcm16_len(init);
    if i == samples.len() - 1 {
        assert(pcm16_bytes(samples).subrange(2 * i, 2 * i + 2) =~= sample_bytes(samples.last()));
    } else {
        lemma_pcm16_sample(init, i);
        assert(pcm16_bytes(samples).subrange(2 * i, 2 * i + 2) =~= pcm16_bytes(init).subrange(2 * i, 2 * i + 2));
    }
}

/// The streaming encoder is told the frame's own geometry and rate: it reads
/// raw BGRA frames from stdin, the size given is exactly the width, an `x`
/// and the height in decimal, the rate is the fps in decimal, it encodes to
/// H.264 in yuv420p, and the output path comes last.
pub proof fn lemma_streaming_args_layout(output: Seq<char>, width: u32, height: u32, fps: u32)
    ensures
        ({
            let a = streaming_args_spec(output, width, height, fps);
            &&& a.len() == 20
            &&& a[0] == "-y"@
            &&& a[1] == "-f"@ && a[2] == "rawvideo"@
            &&& a[3] == "-pixel_format"@ && a[4] == "bgra"@
            &&& a[5] == "-video_size"@
            &&& a[6] == decimal(width as nat) + "x"@ + decimal(height as nat)
            &&& a[7] == "-framerate"@ && a[8] == decimal(fps as nat)
            &&& a[9] == "-i"@ && a[10] == "pipe:0"@
            &&& a[11] == "-c:v"@ && a[12] == "libx264"@
            &&& a[17] == "-pix_fmt"@ && a[18] == "yuv420p"@
            &&& a[19] == output
        }),
{
    let a = streaming_args_spec(output, width, height, fps);
    assert(a =~= seq![
        "-y"@, "-f"@, "rawvideo"@, "-pixel_format"@, "bgra"@,
        "-video_size"@, decimal(width as nat) + "x"@ + decimal(height as nat),
        "-framerate"@, decimal(fps as nat), "-i"@, "pipe:0"@,
        "-c:v"@, "libx264"@, "-preset"@, "ultrafast"@, "-crf"@, "23"@, "-pix_fmt"@, "yuv420p"@,
        output,
    ]);
}

/// Encoding a batch of frames tells FFmpeg the frames' own geometry and rate,
/// with or without audio; with a WAV file it is the second input and the
/// audio is encoded as AAC up to the shorter stream; without one the list
/// ends with the H.264 options and the output; the output comes last.
pub proof fn lemma_encode_args_layout(width: u32, height: u32, fps: u32, wav: Option<Seq<char>>, output: Seq<char>)
    ensures
        ({
            let a = encode_args_spec(width, height, fps, wav, output);
            &&& a[5] == "-video_size"@
            &&& a[6] == decimal(width as nat) + "x"@ + decimal(height as nat)
            &&& a[7] == "-framerate"@ && a[8] == decimal(fps as nat)
            &&& a[9] == "-i"@ && a[10] == "pipe:0"@
            &&& a[a.len() - 1] == output
            &&& match wav {
                Some(w) => {
                    &&& a.len() == 27
                    &&& a[11] == "-i"@ && a[12] == w
                    &&& a[13] == "-c:v"@ && a[14] == "libx264"@
                    &&& a[21] == "-c:a"@ && a[22] == "aac"@ && a[23] == "-b:a"@ && a[24] == "128k"@
                    &&& a[25] == "-shortest"@
                },
                None => {
                    &&& a.len() == 20
                    &&& a[11] == "-c:v"@ && a[12] == "libx264"@
                    &&& a[17] == "-pix_fmt"@ && a[18] == "yuv420p"@
                },
            }
        }),
{
    let a = encode_args_spec(width, height, fps, wav, output);
    let size = decimal(width as nat) + "x"@ + decimal(height as nat);
    let rate = decimal(fps as nat);
    match wav {
        Some(w) => {
            assert(a =~= seq![
                "-y"@, "-f"@, "rawvideo"@, "-pixel_format"@, "bgra"@, "-video_size"@, size,
                "-framerate"@, rate, "-i"@, "pipe:0"@, "-i"@, w,
                "-c:v"@, "libx264"@, "-preset"@, "ultrafast"@, "-crf"@, "23"@, "-pix_fmt"@, "yuv420p"@,
                "-c:a"@, "aac"@, "-b:a"@, "128k"@, "-shortest"@, output,
            ]);
        },
        None => {
            assert(a =~= seq![
                "-y"@, "-f"@, "rawvideo"@, "-pixel_format"@, "bgra"@, "-video_size"@, size,
                "-framerate"@, rate, "-i"@, "pipe:0"@,
                "-c:v"@, "libx264"@, "-preset"@, "ultrafast"@, "-crf"@, "23"@, "-pix_fmt"@, "yuv420p"@,
                output,
            ]);
        },
    }
}

/// Muxing copies the video of `video`, adds the audio of `wav` as AAC, stops
/// at the shorter stream and writes `output`.
pub proof fn lemma_mux_args_layout(video: Seq<char>, wav: Seq<char>, output: Seq<char>)
    ensures
        ({
            let a = mux_args_spec(video, wav, output);
            &&& a.len() == 13
            &&& a[1] == "-i"@ && a[2] == video
            &&& a[3] == "-i"@ && a[4] == wav
            &&& a[5] == "-c:v"@ && a[6] == "copy"@
            &&& a[7] == "-c:a"@ && a[8] == "aac"@ && a[9] == "-b:a"@ && a[10] == "128k"@
            &&& a[11] == "-shortest"@
            &&& a[12] == output
        }),
{
    let a = mux_args_spec(video, wav, output);
    assert(a =~= seq!["-y"@, "-i"@, video, "-i"@, wav, "-c:v"@, "copy"@, "-c:a"@, "aac"@, "-b:a"@, "128k"@, "-shortest"@, output]);
}

/// A WAV file is a RIFF file of type WAVE whose `fmt ` chunk is 16 bytes of
/// PCM format (format tag 1, 16 bits per sample), so its `data` chunk starts
/// right after, at byte 36, and the samples at byte 44.
pub proof fn lemma_wav_chunks(samples: Seq<i16>, sample_rate: u32, channels: u16)
    requires
        wav_fits(samples.len(), sample_rate, channels),
    ensures
        ({
            let w = wav_header(samples.len(), sample_rate, channels) + pcm16_bytes(samples);
            &&& w.subrange(0, 4) == seq![0x52u8, 0x49u8, 0x46u8, 0x46u8]
            &&& w.subrange(8, 12) == seq![0x57u8, 0x41u8, 0x56u8, 0x45u8]
            &&& w.subrange(12, 16) == seq![0x66u8, 0x6du8, 0x74u8, 0x20u8]
            &&& le32_value(w.subrange(16, 20)) == 16
            &&& 20 + le32_value(w.subrange(16, 20)) == 36
            &&& le16_value(w.subrange(20, 22)) == 1
            &&& le16_value(w.subrange(34, 36)) == 16
            &&& w.subrange(36, 40) == seq![0x64u8, 0x61u8, 0x74u8, 0x61u8]
        }),
{
    let n = samples.len();
    let h = wav_header(n, sample_rate, channels);
    let w = h + pcm16_bytes(samples);
    lemma_wav_header_tags(n, sample_rate, channels);
    lemma_le32_round_trip(16);
    lemma_le16_round_trip(1);
    lemma_le16_round_trip(16);
    assert(w.subrange(0, 4) =~= h.subrange(0, 4));
    assert(w.subrange(8, 12) =~= h.subrange(8, 12));
    assert(w.subrange(12, 16) =~= h.subrange(12, 16));
    assert(w.subrange(16, 20) =~= h.subrange(16, 20));
    assert(w.subrange(20, 22) =~= h.subrange(20, 22));
    assert(w.subrange(34, 36) =~= h.subrange(34, 36));
    assert(w.subrange(36, 40) =~= h.subrange(36, 40));
}

/// The fixed parts of a WAV header.
#[verifier::spinoff_prover]
#[verifier::rlimit(40)]
proof fn lemma_wav_header_tags(sample_count: nat, sample_rate: u32, channels: u16)
    ensures
        ({
            let h = wav_header(sample_count, sample_rate, channels);
            &&& h.len() == 44
            &&& h.subrange(0, 4) == seq![0x52u8, 0x49u8, 0x46u8, 0x46u8]
            &&& h.subrange(8, 12) == seq![0x57u8, 0x41u8, 0x56u8, 0x45u8]
            &&& h.subrange(12, 16) == seq![0x66u8, 0x6du8, 0x74u8, 0x20u8]
            &&& h.subrange(16, 20) == le32(16)
            &&& h.subrange(20, 22) == le16(1)
            &&& h.subrange(34, 36) == le16(16)
            &&& h.subrange(36, 40) == seq![0x64u8, 0x61u8, 0x74u8, 0x61u8]
        }),
{
    let data_size: int = wav_data_size(sample_count);
    let byte_rate: int = sample_rate * channels * 2;
    let riff = seq![0x52u8, 0x49u8, 0x46u8, 0x46u8];
    let p1 = riff + le32(36 + data_size);
    let p2 = p1 + seq![0x57u8, 0x41u8, 0x56u8, 0x45u8];
    let p3 = p2 + seq![0x66u8, 0x6du8, 0x74u8, 0x20u8];
    let p4 = p3 + le32(16);
    let p5 = p4 + le16(1) + le16(channels as int) + le32(sample_rate as int) + le32(byte_rate)
        + le16(channels * 2);
    let p6 = p5 + le16(16);
    let p7 = p6 + seq![0x64u8, 0x61u8, 0x74u8, 0x61u8];
    let h = p7 + le32(data_size);
    assert(h =~= wav_header(sample_count, sample_rate, channels));
    assert(h.subrange(0, 4) =~= riff);
    assert(h.subrange(8, 12) =~= seq![0x57u8, 0x41u8, 0x56u8, 0x45u8]);
    assert(h.subrange(12, 16) =~= seq![0x66u8, 0x6du8, 0x74u8, 0x20u8]);
    assert(h.subrange(16, 20) =~= le32(16));
    assert(h.subrange(20, 22) =~= le16(1));
    assert(h.subrange(34, 36) =~= le16(16));
    assert(h.subrange(36, 40) =~= seq![0x64u8, 0x61u8, 0x74u8, 0x61u8]);
}

/// A frame dimension keeps its value when it is not negative, and otherwise
/// reads as the same value modulo 2^32 (two's complement).
pub proof fn lemma_as_unsigned(x: i32)
    ensures
        x >= 0 ==> as_unsigned(x) == x,
        x < 0 ==> as_unsigned(x) as int == x + 0x1_0000_0000,
        (as_unsigned(x) as int - x) % 0x1_0000_0000 == 0,
{
}

} // verus!
