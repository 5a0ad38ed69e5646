//! Unit tests for the fade curves, the decode-retry policy, the time-unit
//! conversions, the duration resolution and the error taxonomy.

use player_core::decoder::{Symphonia, SymphoniaDecoderError};
use player_core::fade::{attenuate, fade_in_level, fade_out_level};
use player_core::retry::{retry_outcome_of, Attempt, RetryOutcome};
use player_core::units::{ns_to_timestamp, timestamp_to_ns};

#[test]
fn fade_out_level_starts_full_and_reaches_silence() {
    // A full window gives full amplitude: numerator equals denominator.
    assert_eq!(fade_out_level(10_000_000, 10_000_000), 10_000_000);
    // The curve reaches exact silence at the window's midpoint...
    assert_eq!(fade_out_level(5_000_000, 10_000_000), 0);
    // ...and stays silent through the whole back half.
    assert_eq!(fade_out_level(2_000_000, 10_000_000), 0);
    assert_eq!(fade_out_level(0, 10_000_000), 0);
    // In between it is the line 2 * remaining / total - 1.
    assert_eq!(fade_out_level(7_000_000, 10_000_000), 4_000_000);
}

#[test]
fn fade_out_level_monotonic_and_clamped() {
    let total: u64 = 1_000_000;
    let mut previous = fade_out_level(0, total);
    let mut remaining: u64 = 0;
    while remaining <= total {
        let level = fade_out_level(remaining, total);
        assert!(level >= previous, "fade-out must not increase as time runs");
        assert!(level <= total, "level must stay within [0, 1]");
        previous = level;
        remaining += 10_000;
    }
    // Clamped to 1 even for remaining beyond the window.
    assert_eq!(fade_out_level(3 * total, total), total);
    // A zero-width window is silent.
    assert_eq!(fade_out_level(5, 0), 0);
}

#[test]
fn fade_in_level_mirrors_fade_out() {
    // At the window's start the fade-in is silent.
    assert_eq!(fade_in_level(10_000_000, 10_000_000), 0);
    // Still silent through the front half.
    assert_eq!(fade_in_level(6_000_000, 10_000_000), 0);
    // Then the mirror line.
    assert_eq!(fade_in_level(3_000_000, 10_000_000), 4_000_000);
    // Exactly full at the window's end.
    assert_eq!(fade_in_level(0, 10_000_000), 10_000_000);
    // Clamped for remaining beyond the window.
    assert_eq!(fade_in_level(25_000_000, 10_000_000), 0);
}

#[test]
fn attenuate_scales_toward_zero() {
    assert_eq!(attenuate(1000, 5, 100), 50);
    assert_eq!(attenuate(-1000, 5, 100), -50);
    assert_eq!(attenuate(32767, 0, 10), 0);
    assert_eq!(attenuate(i16::MIN, 100, 100), i16::MIN);
    assert_eq!(attenuate(i16::MAX, 100, 100), i16::MAX);
    // Truncation is toward zero for both signs.
    assert_eq!(attenuate(99, 1, 100), 0);
    assert_eq!(attenuate(-99, 1, 100), 0);
}

#[test]
fn retry_tolerates_exactly_the_cap() {
    // Exactly MAX_DECODE_ERRORS consecutive failures then one success
    // still delivers.
    let attempts = vec![Attempt::Corrupt, Attempt::Corrupt, Attempt::Corrupt, Attempt::Success];
    assert_eq!(retry_outcome_of(&attempts), RetryOutcome::Delivers);
}

#[test]
fn retry_ends_past_the_cap() {
    // One more consecutive failure than the cap ends the stream, whatever
    // would have followed.
    let attempts = vec![Attempt::Corrupt, Attempt::Corrupt, Attempt::Corrupt, Attempt::Corrupt];
    assert_eq!(retry_outcome_of(&attempts), RetryOutcome::Ends);
    let attempts = vec![
        Attempt::Corrupt,
        Attempt::Corrupt,
        Attempt::Corrupt,
        Attempt::Corrupt,
        Attempt::Success,
    ];
    assert_eq!(retry_outcome_of(&attempts), RetryOutcome::Ends);
}

#[test]
fn retry_other_failures_are_fatal_at_once() {
    assert_eq!(retry_outcome_of(&vec![Attempt::Fatal]), RetryOutcome::Ends);
    assert_eq!(
        retry_outcome_of(&vec![Attempt::Corrupt, Attempt::Fatal]),
        RetryOutcome::Ends
    );
    assert_eq!(retry_outcome_of(&vec![Attempt::Success]), RetryOutcome::Delivers);
    assert_eq!(retry_outcome_of(&vec![]), RetryOutcome::Undecided);
}

#[test]
fn timestamp_conversions_are_exact() {
    // 8000 units under a 1/8000 time base is one second.
    assert_eq!(timestamp_to_ns(8000, 1, 8000), 1_000_000_000);
    // 50.05 seconds at 8000 units per second.
    assert_eq!(ns_to_timestamp(50_050_000_000, 1, 8000), 400_400);
    // A coarser time base.
    assert_eq!(timestamp_to_ns(90, 1, 90_000), 1_000_000);
    assert_eq!(ns_to_timestamp(999, 1, 1_000_000_000), 999);
}

#[test]
fn duration_resolution_prefers_frames_times_time_base() {
    assert_eq!(
        Symphonia::get_duration(Some(8000), Some((1, 8000))),
        1_000_000_000
    );
    assert_eq!(
        Symphonia::get_duration(Some(1_600_000), Some((1, 8000))),
        200_000_000_000
    );
}

#[test]
fn duration_resolution_falls_back_to_sentinels() {
    // No frame count: the first sentinel.
    assert_eq!(Symphonia::get_duration(None, Some((1, 8000))), 99_000_000_000);
    assert_eq!(Symphonia::get_duration(None, None), 99_000_000_000);
    // Frames but no usable time base: the second sentinel.
    assert_eq!(Symphonia::get_duration(Some(100), None), 199_000_000_000);
    assert_eq!(Symphonia::get_duration(Some(100), Some((0, 8))), 199_000_000_000);
    assert_eq!(Symphonia::get_duration(Some(100), Some((1, 0))), 199_000_000_000);
}

#[test]
fn unrecognized_bytes_fail_construction_with_the_probe_kind() {
    let garbage = vec![0u8; 512];
    let result = Symphonia::new(garbage, true);
    assert!(matches!(
        result,
        Err(SymphoniaDecoderError::UnrecognizedFormat)
    ));
}

#[test]
fn error_messages_carry_their_text() {
    assert_eq!(SymphoniaDecoderError::NoStreams.message(), "No streams");
    assert_eq!(
        SymphoniaDecoderError::UnrecognizedFormat.message(),
        "Unrecognized format"
    );
    assert_eq!(SymphoniaDecoderError::ResetRequired.message(), "Reset required");
    assert_eq!(
        SymphoniaDecoderError::IoError(String::from("gone")).message(),
        "gone"
    );
    assert_eq!(SymphoniaDecoderError::DecodeError("bad frame").message(), "bad frame");
}
