//! End-to-end playback scenarios over streams decoded by the real media
//! framework: progress reporting, deferred seeking, and track changes.

use player_core::decoder::Symphonia;
use player_core::player::{Player, PlayerError};

/// A minimal mono 16-bit PCM WAVE stream.
fn wav_bytes(rate: u32, samples: &[i16]) -> Vec<u8> {
    let data_len = (samples.len() * 2) as u32;
    let mut v = Vec::with_capacity(44 + samples.len() * 2);
    v.extend_from_slice(b"RIFF");
    v.extend_from_slice(&(36 + data_len).to_le_bytes());
    v.extend_from_slice(b"WAVE");
    v.extend_from_slice(b"fmt ");
    v.extend_from_slice(&16u32.to_le_bytes());
    v.extend_from_slice(&1u16.to_le_bytes());
    v.extend_from_slice(&1u16.to_le_bytes());
    v.extend_from_slice(&rate.to_le_bytes());
    v.extend_from_slice(&(rate * 2).to_le_bytes());
    v.extend_from_slice(&2u16.to_le_bytes());
    v.extend_from_slice(&16u16.to_le_bytes());
    v.extend_from_slice(b"data");
    v.extend_from_slice(&data_len.to_le_bytes());
    for s in samples {
        v.extend_from_slice(&s.to_le_bytes());
    }
    v
}

const RATE: u32 = 8000;

#[test]
fn progress_on_a_fresh_player_is_a_stopped_error() {
    let mut player = Player::new();
    assert!(matches!(
        player.get_progress(),
        Err(PlayerError::StoppedError)
    ));
}

#[test]
fn progress_right_after_play_reports_the_trimmed_duration() {
    // A 200 second decodable stream.
    let samples = vec![0i16; (200 * RATE) as usize];
    let mut player = Player::new();
    player.play(wav_bytes(RATE, &samples));
    let (percent, position, duration) = player.get_progress().unwrap();
    assert_eq!(percent, 0);
    assert_eq!(position, 0);
    // 200 s less the fixed 0.29 s trailing trim, in whole seconds.
    assert_eq!(duration, 199);
}

#[test]
fn play_on_undecodable_bytes_leaves_the_player_stopped() {
    let mut player = Player::new();
    player.play(vec![7u8; 64]);
    assert!(matches!(
        player.get_progress(),
        Err(PlayerError::StoppedError)
    ));
}

#[test]
fn deferred_seek_converges_after_sample_pulls() {
    let samples = vec![0i16; (200 * RATE) as usize];
    let mut player = Player::new();
    player.play(wav_bytes(RATE, &samples));

    player.seek_to(50_000_000_000);
    // The seek is asynchronous: before any pull the position may still be
    // the pre-seek value.
    assert!(player.elapsed() < 1_000_000_000);

    // The 10 ms masking fade-out spans 80 samples at this rate; after it
    // runs out the pending seek executes inside a pull.
    for _ in 0..200 {
        player.sink.pull();
    }
    let elapsed = player.elapsed();
    // Lands near 50 s: aimed 0.05 s past, then floored to a packet
    // boundary by the coarse seek.
    assert!(
        elapsed > 49_800_000_000 && elapsed < 50_300_000_000,
        "elapsed was {}",
        elapsed
    );
}

#[test]
fn the_latest_of_two_pending_seeks_wins() {
    let samples = vec![0i16; (200 * RATE) as usize];
    let mut player = Player::new();
    player.play(wav_bytes(RATE, &samples));

    player.seek_to(10_000_000_000);
    player.seek_to(5_000_000_000);
    // Only the latest pending target is recorded.
    assert_eq!(
        player.sink.source.as_ref().unwrap().seek_to_time_ns,
        5_000_000_000
    );

    for _ in 0..200 {
        player.sink.pull();
    }
    let elapsed = player.elapsed();
    assert!(
        elapsed > 4_800_000_000 && elapsed < 5_300_000_000,
        "elapsed was {}",
        elapsed
    );
}

#[test]
fn a_second_play_replaces_the_first_track_entirely() {
    // Two streams with distinguishable constant samples.
    let first = vec![1000i16; (10 * RATE) as usize];
    let second = vec![-2000i16; (30 * RATE) as usize];
    let mut player = Player::new();

    player.play(wav_bytes(RATE, &first));
    // At the default 5 percent volume, the first track's samples come out
    // as 1000 * 5 / 100.
    assert_eq!(player.sink.pull(), Some(50));

    player.play(wav_bytes(RATE, &second));
    // The old sink is fully discarded: position resets, the duration is
    // the new track's, and every produced sample is the new track's.
    assert_eq!(player.elapsed(), 0);
    let (_, _, duration) = player.get_progress().unwrap();
    assert_eq!(duration, 29);
    for _ in 0..100 {
        assert_eq!(player.sink.pull(), Some(-100));
    }
}

#[test]
fn a_failed_play_still_tears_the_old_track_down() {
    let samples = vec![1000i16; (10 * RATE) as usize];
    let mut player = Player::new();
    player.play(wav_bytes(RATE, &samples));
    assert_eq!(player.sink.pull(), Some(50));

    // The tear-down happens before the new stream is probed, so a failing
    // play leaves the player stopped and silent, not on the old track.
    player.play(vec![9u8; 256]);
    assert!(player.sink.source.is_none());
    assert_eq!(player.sink.pull(), None);
    assert!(matches!(
        player.get_progress(),
        Err(PlayerError::StoppedError)
    ));
}

#[test]
fn progress_clamps_at_one_hundred_percent() {
    // A short track: 1 s total, 0.71 s after the trim. Decoding to the
    // end leaves the position past the trimmed duration.
    let samples = vec![0i16; RATE as usize];
    let mut player = Player::new();
    player.play(wav_bytes(RATE, &samples));
    let mut pulls = 0u32;
    while player.sink.pull().is_some() {
        pulls += 1;
        let (percent, _, _) = player.get_progress().unwrap();
        assert!(percent <= 10_000);
        assert!(pulls <= 2 * RATE, "stream must end");
    }
    let (percent, _, _) = player.get_progress().unwrap();
    assert_eq!(percent, 10_000);
}

#[test]
fn pause_and_resume_are_idempotent_and_keep_position() {
    let samples = vec![0i16; (10 * RATE) as usize];
    let mut player = Player::new();
    player.play(wav_bytes(RATE, &samples));
    for _ in 0..100 {
        player.sink.pull();
    }
    assert!(!player.is_paused());
    player.pause();
    player.pause();
    assert!(player.is_paused());
    let before = player.elapsed();
    // While paused the producer gets nothing and the position holds.
    assert_eq!(player.sink.pull(), None);
    assert_eq!(player.elapsed(), before);
    player.resume();
    player.resume();
    assert!(!player.is_paused());
    assert!(player.sink.pull().is_some());
}

#[test]
fn seek_bw_clamps_at_the_start() {
    let samples = vec![0i16; (20 * RATE) as usize];
    let mut player = Player::new();
    player.play(wav_bytes(RATE, &samples));
    // Elapsed is near zero, so stepping back clamps the target at zero.
    player.seek_bw();
    assert_eq!(player.sink.source.as_ref().unwrap().seek_to_time_ns, 0);
    assert!(player.sink.source.as_ref().unwrap().is_seeking_soon);
}

#[test]
fn seek_fw_steps_only_within_the_track() {
    let samples = vec![0i16; (60 * RATE) as usize];
    let mut player = Player::new();
    player.play(wav_bytes(RATE, &samples));
    // From the start of a 60 s track a five-second step fits.
    player.seek_fw();
    assert_eq!(
        player.sink.source.as_ref().unwrap().seek_to_time_ns,
        5_000_000_000
    );

    // On a track too short for the guard band, the step is refused.
    let short = vec![0i16; (8 * RATE) as usize];
    let mut player = Player::new();
    player.play(wav_bytes(RATE, &short));
    player.seek_fw();
    assert!(!player.sink.source.as_ref().unwrap().is_seeking_soon);
}

#[test]
fn the_cursor_never_passes_the_buffer() {
    let samples = vec![0i16; (3 * RATE) as usize];
    let mut decoder = Symphonia::new(wav_bytes(RATE, &samples), true).unwrap();
    let mut reads = 0u32;
    while decoder.next().is_some() {
        // Immediately after a read the cursor is at most at the buffer's
        // end, and a fresh buffer is consumed from its start.
        assert!(decoder.current_frame_offset <= decoder.buffer.len());
        assert!(decoder.current_frame_offset >= 1);
        reads += 1;
        assert!(reads <= 4 * RATE, "stream must end");
    }
    assert_eq!(reads, 3 * RATE);
}

#[test]
fn fade_out_attenuates_the_hot_path_to_silence() {
    // Constant full-ish amplitude, so the curve is visible in the output.
    let samples = vec![10_000i16; (10 * RATE) as usize];
    let mut decoder = Symphonia::new(wav_bytes(RATE, &samples), true).unwrap();
    // A 10 ms window spans 80 samples at this rate.
    decoder.fade_out_from_now(10_000_000);
    let mut previous = i16::MAX;
    let mut produced = Vec::new();
    // Stay within the window: after it runs out the signal returns to
    // full amplitude.
    for _ in 0..80 {
        let s = decoder.next().unwrap();
        assert!(s <= previous, "fade-out must not increase");
        assert!((0..=10_000).contains(&s));
        previous = s;
        produced.push(s);
    }
    // Full amplitude on the first sample of the window...
    assert_eq!(produced[0], 10_000);
    // ...silence from the window's midpoint through its end.
    assert!(produced[40..].iter().all(|&s| s == 0));
}

#[test]
fn fade_in_ramps_the_hot_path_up_to_full() {
    let samples = vec![10_000i16; (10 * RATE) as usize];
    let mut decoder = Symphonia::new(wav_bytes(RATE, &samples), true).unwrap();
    decoder.fade_in_from_now(10_000_000);
    let mut previous = 0i16;
    let mut produced = Vec::new();
    for _ in 0..81 {
        let s = decoder.next().unwrap();
        assert!(s >= previous, "fade-in must not decrease");
        assert!((0..=10_000).contains(&s));
        previous = s;
        produced.push(s);
    }
    // Silent through the front half of the window...
    assert!(produced[..40].iter().all(|&s| s == 0));
    // ...and exactly full once the window has run out.
    assert_eq!(produced[80], 10_000);
}

#[test]
fn duration_is_trimmed_by_the_fixed_tail() {
    let samples = vec![0i16; (200 * RATE) as usize];
    let mut player = Player::new();
    player.play(wav_bytes(RATE, &samples));
    assert_eq!(player.duration(), Some(199_710_000_000));
}

#[test]
fn stopping_discards_the_sink_and_its_source() {
    let samples = vec![0i16; (10 * RATE) as usize];
    let mut player = Player::new();
    player.play(wav_bytes(RATE, &samples));
    assert!(player.sink.source.is_some());
    player.stop();
    assert!(player.sink.source.is_none());
    assert_eq!(player.sink.pull(), None);
    assert!(matches!(
        player.get_progress(),
        Err(PlayerError::StoppedError)
    ));
}
