use wavstream::errors::StreamError;
use wavstream::extract::build_mono_buffer;
use wavstream::extract::compute_window;
use wavstream::extract::downmix_stereo;
use wavstream::extract::normalize_sample;
use wavstream::extract::AudioSourceSpec;
use wavstream::extract::FrameWindow;
use wavstream::extract::DEFAULT_VOLUME_MILLIONTHS;
use wavstream::negotiate::clamp_capacity;
use wavstream::negotiate::negotiate_capacity;
use wavstream::negotiate::parse_capacity;
use wavstream::session::cycle_delay_ms;
use wavstream::session::StreamSession;
use wavstream::wire::format_sample_line;
use wavstream::wire::handshake_request;

fn source(start: usize, end: usize, volume: u32) -> AudioSourceSpec {
    AudioSourceSpec {
        start_offset_seconds: start,
        end_offset_seconds: end,
        volume_millionths: volume,
    }
}

#[test]
fn window_full_length() {
    let w = compute_window(&source(0, 0, DEFAULT_VOLUME_MILLIONTHS), 8000, 16000);
    assert_eq!(w, Ok(FrameWindow { start_frame: 0, frame_count: 16000 }));
}

#[test]
fn window_trims_both_ends() {
    // 16000 frames at 8000 Hz: skip one second at the start, one at the end.
    let w = compute_window(&source(1, 1, DEFAULT_VOLUME_MILLIONTHS), 8000, 16000);
    assert_eq!(w, Ok(FrameWindow { start_frame: 8000, frame_count: 0 }));
}

#[test]
fn window_length_formula() {
    // length = max(0, (total - end*rate) - start*rate)
    let w = compute_window(&source(1, 0, DEFAULT_VOLUME_MILLIONTHS), 100, 1000);
    assert_eq!(w, Ok(FrameWindow { start_frame: 100, frame_count: 900 }));
    let w = compute_window(&source(2, 3, DEFAULT_VOLUME_MILLIONTHS), 100, 1000);
    assert_eq!(w, Ok(FrameWindow { start_frame: 200, frame_count: 500 }));
    let w = compute_window(&source(0, 99, DEFAULT_VOLUME_MILLIONTHS), 100, 1000);
    assert_eq!(w, Ok(FrameWindow { start_frame: 0, frame_count: 0 }));
}

#[test]
fn window_offset_out_of_range() {
    // start_offset_seconds * sample_rate >= total_frame_count fails before
    // any connection is attempted.
    let w = compute_window(&source(2, 0, DEFAULT_VOLUME_MILLIONTHS), 8000, 16000);
    assert_eq!(w, Err(StreamError::OffsetOutOfRange));
    let w = compute_window(&source(3, 0, DEFAULT_VOLUME_MILLIONTHS), 8000, 16000);
    assert_eq!(w, Err(StreamError::OffsetOutOfRange));
    // The boundary below the limit still succeeds.
    let w = compute_window(&source(1, 0, DEFAULT_VOLUME_MILLIONTHS), 8000, 16000);
    assert!(w.is_ok());
}

#[test]
fn downmix_averages_pairs() {
    let mono = downmix_stereo(&vec![100, 200, -100, -200]);
    assert_eq!(mono, vec![150, -150]);
}

#[test]
fn downmix_truncates_toward_zero() {
    assert_eq!(downmix_stereo(&vec![3, 0]), vec![1]);
    assert_eq!(downmix_stereo(&vec![-3, 0]), vec![-1]);
}

#[test]
fn downmix_drops_trailing_sample() {
    let mono = downmix_stereo(&vec![100, 200, 300]);
    assert_eq!(mono, vec![150]);
}

#[test]
fn downmix_commutative_pairs() {
    // Swapping left and right within a frame never changes the average,
    // including at the extremes.
    let cases: Vec<(i16, i16)> = vec![
        (0, 0),
        (1, 2),
        (-1, 2),
        (32767, 32767),
        (-32768, -32768),
        (32767, -32768),
        (-32768, 32767),
        (32767, 1),
        (-32767, -1),
    ];
    for (a, b) in cases {
        let lr = downmix_stereo(&vec![a, b]);
        let rl = downmix_stereo(&vec![b, a]);
        assert_eq!(lr, rl);
    }
}

#[test]
fn downmix_extremes_do_not_overflow() {
    assert_eq!(downmix_stereo(&vec![32767, 32767]), vec![32767]);
    assert_eq!(downmix_stereo(&vec![-32768, -32768]), vec![-32768]);
    assert_eq!(downmix_stereo(&vec![32767, -32768]), vec![0]);
}

#[test]
fn normalize_exact_values() {
    // 16384 / 32768 = 0.5 exactly.
    assert_eq!(normalize_sample(16384, DEFAULT_VOLUME_MILLIONTHS), 5_000_000);
    assert_eq!(normalize_sample(-16384, DEFAULT_VOLUME_MILLIONTHS), -5_000_000);
    assert_eq!(normalize_sample(0, DEFAULT_VOLUME_MILLIONTHS), 0);
    assert_eq!(normalize_sample(-32768, DEFAULT_VOLUME_MILLIONTHS), -10_000_000);
    // 32767 / 32768 = 0.99996948..., which rounds up at the seventh digit.
    assert_eq!(normalize_sample(32767, DEFAULT_VOLUME_MILLIONTHS), 9_999_695);
}

#[test]
fn normalize_ties_round_to_even() {
    // 128 / 32768 * 10^7 = 39062.5: the even neighbour stays.
    assert_eq!(normalize_sample(128, DEFAULT_VOLUME_MILLIONTHS), 39062);
    // 384 / 32768 * 10^7 = 117187.5: the odd base rounds up.
    assert_eq!(normalize_sample(384, DEFAULT_VOLUME_MILLIONTHS), 117188);
}

#[test]
fn normalize_unit_volume_stays_in_range() {
    for s in [-32768i16, -32767, -12345, -1, 0, 1, 128, 12345, 32766, 32767] {
        let v = normalize_sample(s, DEFAULT_VOLUME_MILLIONTHS);
        assert!(-10_000_000 <= v && v <= 10_000_000);
    }
}

#[test]
fn normalize_volume_scales_and_may_exceed_full_range() {
    // Volume 2.0 doubles the value; no clamping is applied.
    assert_eq!(normalize_sample(16384, 2_000_000), 10_000_000);
    assert!(normalize_sample(32767, 2_000_000) > 10_000_000);
    // Volume 0 silences everything.
    assert_eq!(normalize_sample(-12345, 0), 0);
}

#[test]
fn buffer_mono_keeps_length_and_values() {
    let buf = build_mono_buffer(&vec![16384, -16384, 0], 1, DEFAULT_VOLUME_MILLIONTHS);
    assert_eq!(buf.len(), 3);
    assert_eq!(buf.sample_at(0), 5_000_000);
    assert_eq!(buf.sample_at(1), -5_000_000);
    assert_eq!(buf.sample_at(2), 0);
}

#[test]
fn buffer_stereo_halves_length() {
    // Five interleaved samples: two full pairs, one trailing sample dropped.
    let buf = build_mono_buffer(&vec![16384, 16384, 0, 0, 999], 2, DEFAULT_VOLUME_MILLIONTHS);
    assert_eq!(buf.len(), 2);
    assert_eq!(buf.sample_at(0), 5_000_000);
    assert_eq!(buf.sample_at(1), 0);
}

#[test]
fn parse_capacity_plain_number() {
    assert_eq!(parse_capacity(&b"100".to_vec()), 100);
    assert_eq!(parse_capacity(&b"100\n".to_vec()), 100);
    assert_eq!(parse_capacity(&b"  42 rest is ignored\n".to_vec()), 42);
    assert_eq!(parse_capacity(&b"007".to_vec()), 7);
    assert_eq!(parse_capacity(&b"0".to_vec()), 0);
}

#[test]
fn parse_capacity_malformed_yields_zero() {
    // Empty, whitespace-only, non-numeric and oversized tokens all
    // degrade to capacity zero instead of failing.
    assert_eq!(parse_capacity(&b"".to_vec()), 0);
    assert_eq!(parse_capacity(&b"   \n\t".to_vec()), 0);
    assert_eq!(parse_capacity(&b"garbage".to_vec()), 0);
    assert_eq!(parse_capacity(&b"12x".to_vec()), 0);
    assert_eq!(parse_capacity(&b"-5".to_vec()), 0);
    assert_eq!(parse_capacity(&b"99999999999999999999999999".to_vec()), 0);
}

#[test]
fn clamp_capacity_with_limit() {
    // Effective capacity = min(C, R*L) for L > 0.
    assert_eq!(clamp_capacity(500_000, 8000, 10), 80_000);
    assert_eq!(clamp_capacity(500, 8000, 10), 500);
    assert_eq!(clamp_capacity(80_000, 8000, 10), 80_000);
}

#[test]
fn clamp_capacity_zero_limit_is_unlimited() {
    assert_eq!(clamp_capacity(500_000, 8000, 0), 500_000);
    assert_eq!(clamp_capacity(0, 8000, 0), 0);
}

#[test]
fn negotiate_parses_then_clamps() {
    assert_eq!(negotiate_capacity(&b"250 ok\n".to_vec(), 10, 5), 50);
    assert_eq!(negotiate_capacity(&b"250 ok\n".to_vec(), 10, 0), 250);
    assert_eq!(negotiate_capacity(&b"bogus".to_vec(), 8000, 10), 0);
}

#[test]
fn handshake_request_line() {
    assert_eq!(handshake_request(), b"CONFIG\n".to_vec());
}

#[test]
fn sample_line_format() {
    // Index 42 with normalized value 0.5 gives exactly this line.
    let units = normalize_sample(16384, DEFAULT_VOLUME_MILLIONTHS);
    let line = format_sample_line(42, units);
    assert_eq!(line, b"SMPL 42 0.5000000\n".to_vec());
}

#[test]
fn sample_line_negative_and_zero() {
    assert_eq!(format_sample_line(0, 0), b"SMPL 0 0.0000000\n".to_vec());
    assert_eq!(format_sample_line(1, -5_000_000), b"SMPL 1 -0.5000000\n".to_vec());
    assert_eq!(format_sample_line(7, 39062), b"SMPL 7 0.0039062\n".to_vec());
}

#[test]
fn sample_line_whole_part_above_one() {
    // A volume above 1.0 can push values past full scale; they render with
    // a whole part.
    assert_eq!(format_sample_line(3, 12_500_000), b"SMPL 3 1.2500000\n".to_vec());
    assert_eq!(format_sample_line(123456, 43_000_000_000), b"SMPL 123456 4300.0000000\n".to_vec());
}

#[test]
fn cycle_sends_min_of_length_and_capacity() {
    // A mono 8000 Hz source of 16000 frames with negotiated capacity 100:
    // each cycle transmits exactly the lines for indices 0..99, ascending.
    let raw: Vec<i16> = (0..16000).map(|i| (i % 3000) as i16).collect();
    let window = compute_window(&source(0, 0, DEFAULT_VOLUME_MILLIONTHS), 8000, 16000).unwrap();
    assert_eq!(window.frame_count, 16000);
    let buf = build_mono_buffer(&raw, 1, DEFAULT_VOLUME_MILLIONTHS);
    assert_eq!(buf.len(), 16000);
    let session = StreamSession::new(buf, 100);
    let payload = session.cycle_payload();

    let text = String::from_utf8(payload).unwrap();
    let lines: Vec<&str> = text.split_terminator('\n').collect();
    assert_eq!(lines.len(), 100);
    for (i, line) in lines.iter().enumerate() {
        let mut parts = line.split(' ');
        assert_eq!(parts.next(), Some("SMPL"));
        assert_eq!(parts.next(), Some(format!("{}", i).as_str()));
        let value = parts.next().unwrap();
        assert!(parts.next().is_none());
        // Exactly seven digits after the point.
        let (_, frac) = value.split_once('.').unwrap();
        assert_eq!(frac.len(), 7);
        let expected =
            format!("{:.7}", session.buffer.sample_at(i) as f64 / 10_000_000.0);
        assert_eq!(value, expected);
    }
}

#[test]
fn cycle_capacity_zero_sends_nothing() {
    let buf = build_mono_buffer(&vec![1, 2, 3], 1, DEFAULT_VOLUME_MILLIONTHS);
    let session = StreamSession::new(buf, 0);
    assert_eq!(session.cycle_payload(), Vec::<u8>::new());
}

#[test]
fn cycle_capacity_beyond_buffer_sends_all() {
    let buf = build_mono_buffer(&vec![16384, -16384], 1, DEFAULT_VOLUME_MILLIONTHS);
    let session = StreamSession::new(buf, 1000);
    let payload = session.cycle_payload();
    assert_eq!(payload, b"SMPL 0 0.5000000\nSMPL 1 -0.5000000\n".to_vec());
}

#[test]
fn cycle_counter_increments() {
    let buf = build_mono_buffer(&vec![0], 1, DEFAULT_VOLUME_MILLIONTHS);
    let mut session = StreamSession::new(buf, 1);
    assert_eq!(session.cycles_completed, 0);
    session.advance_cycle();
    session.advance_cycle();
    assert_eq!(session.cycles_completed, 2);
}

#[test]
fn cycle_delay_is_base_plus_bounded_jitter() {
    for _ in 0..200 {
        let d = cycle_delay_ms(500);
        assert!((500..2500).contains(&d));
    }
    // Zero base delay still paces the loop (the random component may be 0,
    // but never reaches the bound).
    for _ in 0..200 {
        let d = cycle_delay_ms(0);
        assert!(d < 2000);
    }
}

#[test]
fn default_source_has_unit_volume() {
    let d = AudioSourceSpec::default();
    assert_eq!(d.start_offset_seconds, 0);
    assert_eq!(d.end_offset_seconds, 0);
    assert_eq!(d.volume_millionths, 1_000_000);
}

#[test]
fn error_descriptions_are_distinct() {
    let all = [
        StreamError::DecodeError,
        StreamError::OffsetOutOfRange,
        StreamError::ConnectionError,
        StreamError::HandshakeTimeout,
        StreamError::MalformedResponse,
        StreamError::TransmissionError,
    ];
    for (i, a) in all.iter().enumerate() {
        assert!(!a.describe().is_empty());
        for b in all.iter().skip(i + 1) {
            assert_ne!(a.describe(), b.describe());
        }
    }
}
