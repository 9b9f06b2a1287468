use tapeit::encoder::{streaming_args, FrameFormat, VideoEncoder};
use tapeit::output::{
    file_name_for_stamp, recording_file_name, recording_output_path, temp_video_path, temp_wav_path,
    video_output_path, LocalDateTime,
};

fn strs(v: &[&str]) -> Vec<String> {
    v.iter().map(|s| s.to_string()).collect()
}

#[test]
fn streaming_arguments() {
    assert_eq!(
        streaming_args("/tmp/out.mp4", 1920, 1080, 30),
        strs(&[
            "-y", "-f", "rawvideo", "-pixel_format", "bgra", "-video_size", "1920x1080",
            "-framerate", "30", "-i", "pipe:0", "-c:v", "libx264", "-preset", "ultrafast",
            "-crf", "23", "-pix_fmt", "yuv420p", "/tmp/out.mp4",
        ])
    );
}

#[test]
fn mux_arguments() {
    assert_eq!(
        VideoEncoder::mux_args("v.tmp.mp4", "v.tmp.wav", "v.mp4"),
        strs(&[
            "-y", "-i", "v.tmp.mp4", "-i", "v.tmp.wav", "-c:v", "copy", "-c:a", "aac", "-b:a",
            "128k", "-shortest", "v.mp4",
        ])
    );
}

#[test]
fn encode_arguments_with_and_without_audio() {
    assert_eq!(
        VideoEncoder::encode_args(640, 480, 15, None, "o.mp4"),
        strs(&[
            "-y", "-f", "rawvideo", "-pixel_format", "bgra", "-video_size", "640x480",
            "-framerate", "15", "-i", "pipe:0", "-c:v", "libx264", "-preset", "ultrafast",
            "-crf", "23", "-pix_fmt", "yuv420p", "o.mp4",
        ])
    );
    assert_eq!(
        VideoEncoder::encode_args(640, 480, 60, Some("o.tmp.wav"), "o.mp4"),
        strs(&[
            "-y", "-f", "rawvideo", "-pixel_format", "bgra", "-video_size", "640x480",
            "-framerate", "60", "-i", "pipe:0", "-i", "o.tmp.wav", "-c:v", "libx264", "-preset",
            "ultrafast", "-crf", "23", "-pix_fmt", "yuv420p", "-c:a", "aac", "-b:a", "128k",
            "-shortest", "o.mp4",
        ])
    );
}

#[test]
fn wav_file_bytes() {
    let w = VideoEncoder::wav_bytes(&[0, 1, -1, i16::MAX, i16::MIN], 48000, 2);
    let mut expected: Vec<u8> = Vec::new();
    expected.extend_from_slice(b"RIFF");
    expected.extend_from_slice(&(36u32 + 10).to_le_bytes());
    expected.extend_from_slice(b"WAVE");
    expected.extend_from_slice(b"fmt ");
    expected.extend_from_slice(&16u32.to_le_bytes());
    expected.extend_from_slice(&1u16.to_le_bytes());
    expected.extend_from_slice(&2u16.to_le_bytes());
    expected.extend_from_slice(&48000u32.to_le_bytes());
    expected.extend_from_slice(&192000u32.to_le_bytes());
    expected.extend_from_slice(&4u16.to_le_bytes());
    expected.extend_from_slice(&16u16.to_le_bytes());
    expected.extend_from_slice(b"data");
    expected.extend_from_slice(&10u32.to_le_bytes());
    for s in [0i16, 1, -1, i16::MAX, i16::MIN] {
        expected.extend_from_slice(&s.to_le_bytes());
    }
    assert_eq!(w, expected);
    assert_eq!(w.len(), 54);
    assert_eq!(u32::from_le_bytes([w[4], w[5], w[6], w[7]]) as usize, w.len() - 8);
    assert_eq!(u32::from_le_bytes([w[40], w[41], w[42], w[43]]) as usize, w.len() - 44);
}

#[test]
fn empty_wav_is_header_only() {
    let w = VideoEncoder::wav_bytes(&[], 44100, 1);
    assert_eq!(w.len(), 44);
    assert_eq!(&w[0..4], b"RIFF");
    assert_eq!(u32::from_le_bytes([w[4], w[5], w[6], w[7]]), 36);
    assert_eq!(u32::from_le_bytes([w[28], w[29], w[30], w[31]]), 88200);
    assert_eq!(u32::from_le_bytes([w[40], w[41], w[42], w[43]]), 0);
}

#[test]
fn frame_dimensions() {
    assert_eq!(
        VideoEncoder::frame_dimensions(&FrameFormat::Bgra { width: 1920, height: 1080 }),
        Ok((1920, 1080))
    );
    assert_eq!(
        VideoEncoder::frame_dimensions(&FrameFormat::Bgra { width: -1, height: 0 }),
        Ok((u32::MAX, 0))
    );
    assert_eq!(
        VideoEncoder::frame_dimensions(&FrameFormat::Other),
        Err("Unexpected frame format (expected BGRA)".to_string())
    );
    assert_eq!(
        VideoEncoder::first_frame_dimensions(&FrameFormat::Other),
        Err("Unexpected frame format".to_string())
    );
    assert_eq!(
        VideoEncoder::first_frame_dimensions(&FrameFormat::Bgra { width: 8, height: 6 }),
        Ok((8, 6))
    );
}

#[test]
fn outcomes_and_frame_count() {
    assert_eq!(VideoEncoder::check_frames(0), Err("No frames to encode".to_string()));
    assert_eq!(VideoEncoder::check_frames(3), Ok(()));
    assert_eq!(
        VideoEncoder::streaming_outcome(true, "", "out.mp4".to_string()),
        Ok("out.mp4".to_string())
    );
    assert_eq!(
        VideoEncoder::streaming_outcome(false, "bad input", "out.mp4".to_string()),
        Err("FFmpeg failed: bad input".to_string())
    );
    assert_eq!(VideoEncoder::mux_outcome(true, "x"), Ok(()));
    assert_eq!(VideoEncoder::mux_outcome(false, "x"), Err("FFmpeg mux failed: x".to_string()));
    assert_eq!(VideoEncoder::encode_outcome(true, ""), Ok(()));
    assert_eq!(VideoEncoder::encode_outcome(false, "y"), Err("ffmpeg failed: y".to_string()));
}

#[test]
fn output_names_and_paths() {
    let now = LocalDateTime { year: 2025, month: 12, day: 31, hour: 23, minute: 59, second: 58 };
    assert_eq!(file_name_for_stamp("X"), "tapeit_X.mp4");
    assert_eq!(recording_file_name(&now), Some("tapeit_20251231_235958.mp4".to_string()));
    let bad = LocalDateTime { year: 2025, month: 13, day: 1, hour: 0, minute: 0, second: 0 };
    assert_eq!(recording_file_name(&bad), None);
    let late = LocalDateTime { year: 2025, month: 1, day: 1, hour: 24, minute: 0, second: 0 };
    assert_eq!(recording_file_name(&late), None);
    assert_eq!(
        recording_output_path("/home/u/Videos", &now),
        Some("/home/u/Videos/tapeit_20251231_235958.mp4".to_string())
    );
    assert_eq!(temp_video_path("/tmp/a.mp4"), "/tmp/a.tmp.mp4");
    assert_eq!(temp_wav_path("/tmp/a.mp4"), "/tmp/a.tmp.wav");
    assert_eq!(video_output_path("/tmp/a.mp4", true), "/tmp/a.tmp.mp4");
    assert_eq!(video_output_path("/tmp/a.mp4", false), "/tmp/a.mp4");
}

#[test]
fn wav_needed_only_with_samples() {
    assert!(!VideoEncoder::wav_needed(false, 0));
    assert!(!VideoEncoder::wav_needed(false, 5));
    assert!(!VideoEncoder::wav_needed(true, 0));
    assert!(VideoEncoder::wav_needed(true, 5));
}

#[test]
fn wav_header_fit_limits() {
    assert!(VideoEncoder::wav_header_fits(10, 48000, 2));
    assert!(!VideoEncoder::wav_header_fits(10, u32::MAX, 2));
    assert!(!VideoEncoder::wav_header_fits(10, 1, 40000));
}

#[test]
fn stamp_layout_and_calendar() {
    let at = |year, month, day, hour, minute, second| LocalDateTime { year, month, day, hour, minute, second };
    assert_eq!(recording_file_name(&at(2024, 2, 29, 0, 0, 0)), Some("tapeit_20240229_000000.mp4".to_string()));
    assert_eq!(recording_file_name(&at(2023, 2, 29, 0, 0, 0)), None);
    assert_eq!(recording_file_name(&at(1900, 2, 29, 0, 0, 0)), None);
    assert_eq!(recording_file_name(&at(2000, 2, 29, 12, 30, 59)), Some("tapeit_20000229_123059.mp4".to_string()));
    assert_eq!(recording_file_name(&at(2024, 4, 31, 0, 0, 0)), None);
    assert_eq!(recording_file_name(&at(2024, 1, 1, 0, 0, 60)), None);
    assert_eq!(recording_file_name(&at(2024, 0, 1, 0, 0, 0)), None);
    assert_eq!(recording_file_name(&at(999, 1, 1, 0, 0, 0)), Some("tapeit_09990101_000000.mp4".to_string()));
    assert_eq!(recording_file_name(&at(7, 3, 9, 1, 2, 3)), Some("tapeit_00070309_010203.mp4".to_string()));
}
