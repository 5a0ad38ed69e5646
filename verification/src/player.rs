//! The playback orchestrator: a sink consuming one decoder on the
//! producer path, and the player's transport state machine over it.
//!
//! The player owns the current sink, the cached total duration adjusted by
//! a fixed trailing trim that masks container padding, and the stopped
//! flag. `play` and `stop` always tear the sink down and rebuild it, so no
//! stale audio from a previous track can outlive a track change. Progress
//! is derived from the decoder's own timestamp domain, never wall-clock.

use vstd::prelude::*;

use crate::decoder::{Symphonia, SEEK_FADE_OUT_NS};
use crate::fade::{attenuate, scale_sample};
use crate::units::{sat64, NS_PER_SEC};

verus! {

/// How far `seek_fw` and `seek_bw` step.
pub const SEEK_STEP_NS: u64 = 5_000_000_000;

/// The fixed trailing trim on the reported duration, masking container
/// padding at the end of a track.
pub const DURATION_TRIM_NS: u64 = 290_000_000;

/// The player's starting volume, in percent.
pub const DEFAULT_VOLUME: u16 = 5;

/// The player's starting speed, in thousandths of real-time rate.
pub const DEFAULT_SPEED: u32 = 1000;

/// Error of the one transport operation that can fail.
#[derive(Debug, Clone, Copy, PartialEq, Eq, Structural)]
pub enum PlayerError {
    /// Progress was queried while no track is loaded.
    StoppedError,
}

/// A playback sink: consumes one source on the producer path and exposes
/// the control contract — pause and resume without losing position,
/// volume and speed for subsequently produced samples, elapsed in the
/// source's own time domain, and the source's deferred seek.
pub struct Sink {
    /// The one source being consumed, if any.
    pub source: Option<Symphonia>,
    /// Whether production is paused.
    pub paused: bool,
    /// Volume in percent, applied to each produced sample.
    pub volume: u16,
    /// Speed in thousandths of real-time rate.
    pub speed: u32,
}

/// The sink's elapsed position: its source's, or zero with none loaded.
pub open spec fn sink_elapsed_ns(sink: Sink) -> int {
    match sink.source {
        Some(s) => s.elapsed_ns as int,
        None => 0,
    }
}

impl Sink {
    /// The sink's invariant: the volume is a percentage and any loaded
    /// source is well formed.
    pub open spec fn wf(self) -> bool {
        &&& self.volume <= 100
        &&& (self.source matches Some(s) ==> s.wf())
    }

    /// A fresh sink: nothing loaded, not paused, full volume, real-time
    /// speed.
    pub fn new() -> (r: Sink)
        ensures
            r == (Sink { source: None, paused: false, volume: 100u16, speed: 1000u32 }),
            r.wf(),
    {
        Sink { source: None, paused: false, volume: 100, speed: 1000 }
    }

    /// Installs a source, dropping — and thereby silencing — any source
    /// the sink held before.
    pub fn append(&mut self, source: Symphonia)
        requires
            source.wf(),
        ensures
            *final(self) == (Sink { source: Some(source), ..*old(self) }),
    {
        self.source = Some(source);
    }

    /// Pauses production; idempotent.
    pub fn pause(&mut self)
        ensures
            *final(self) == (Sink { paused: true, ..*old(self) }),
    {
        self.paused = true;
    }

    /// Resumes production; idempotent.
    pub fn play(&mut self)
        ensures
            *final(self) == (Sink { paused: false, ..*old(self) }),
    {
        self.paused = false;
    }

    /// Whether production is paused.
    pub fn is_paused(&self) -> (r: bool)
        ensures
            r == self.paused,
    {
        self.paused
    }

    /// Sets the volume applied to subsequently produced samples.
    pub fn set_volume(&mut self, volume: u16)
        requires
            volume <= 100,
        ensures
            *final(self) == (Sink { volume, ..*old(self) }),
    {
        self.volume = volume;
    }

    /// Sets the speed applied to subsequent production.
    pub fn set_speed(&mut self, speed: u32)
        ensures
            *final(self) == (Sink { speed, ..*old(self) }),
    {
        self.speed = speed;
    }

    /// Elapsed time in the source's own time domain; zero with nothing
    /// loaded.
    pub fn elapsed(&self) -> (r: u64)
        ensures
            r == sink_elapsed_ns(*self),
    {
        match &self.source {
            Some(s) => s.elapsed_ns,
            None => 0,
        }
    }

    /// Forwards a deferred seek to the source: the source records the
    /// target — the latest request wins — and schedules its masking
    /// fade-out. Nothing happens with no source loaded.
    pub fn seek(&mut self, time_ns: u64)
        requires
            old(self).wf(),
        ensures
            final(self).wf(),
            final(self).paused == old(self).paused,
            final(self).volume == old(self).volume,
            final(self).speed == old(self).speed,
            old(self).source is None ==> *final(self) == *old(self),
            old(self).source matches Some(s) ==> final(self).source == Some(
                Symphonia {
                    fade_out_remaining_ns: SEEK_FADE_OUT_NS,
                    fade_out_total_ns: SEEK_FADE_OUT_NS,
                    is_seeking_soon: true,
                    seek_to_time_ns: time_ns,
                    ..s
                },
            ),
            // the seek is deferred: the position has not moved yet
            sink_elapsed_ns(*final(self)) == sink_elapsed_ns(*old(self)),
    {
        if let Some(s) = &mut self.source {
            s.seek(time_ns);
        }
    }

    /// The producer path's pull: one sample of the source, scaled by the
    /// volume, or `None` when paused, empty, or at the stream's end. The
    /// source's position only ever moves through this call.
    pub fn pull(&mut self) -> (r: Option<i16>)
        requires
            old(self).wf(),
        ensures
            final(self).wf(),
            final(self).paused == old(self).paused,
            final(self).volume == old(self).volume,
            final(self).speed == old(self).speed,
            old(self).paused ==> *final(self) == *old(self) && r is None,
            old(self).source is None ==> *final(self) == *old(self) && r is None,
            final(self).source is Some <==> old(self).source is Some,
            r matches Some(v) ==> exists|raw: i16|
                v == scale_sample(raw as int, old(self).volume as int, 100) as i16,
            // the plain steady case, pinned exactly: samples remain, no fade and no
            // seek pending — the cursor's sample comes out scaled by the volume
            // alone and the cursor advances by one
            (old(self).source matches Some(s) && !old(self).paused && s.current_frame_offset
                < s.buffer.len() && s.fade_out_remaining_ns == 0 && !s.is_seeking_soon
                && s.fade_in_remaining_ns == 0) ==> ({
                let raw = old(self).source->0.buffer[old(self).source->0.current_frame_offset as int];
                &&& r == Some(
                    scale_sample(raw as int, old(self).volume as int, 100) as i16,
                )
                &&& final(self).source matches Some(after)
                &&& final(self).source->0.current_frame_offset == old(
                    self,
                ).source->0.current_frame_offset + 1
                &&& final(self).source->0.elapsed_ns == old(self).source->0.elapsed_ns
            }),
    {
        if self.paused {
            return None;
        }
        match &mut self.source {
            None => None,
            Some(s) => match s.next() {
                None => None,
                Some(raw) => Some(attenuate(raw, self.volume as u64, 100)),
            },
        }
    }
}

/// The duration reported to callers: the cached total less the fixed
/// trailing trim, floored at zero.
pub open spec fn trimmed_ns(total: int) -> int {
    if total >= DURATION_TRIM_NS {
        total - DURATION_TRIM_NS
    } else {
        0
    }
}

/// Progress through a track in hundredths of a percent, unclamped except
/// by saturation. A zero duration reports complete for any position past
/// the start.
pub open spec fn progress_permyriad(elapsed: int, duration: int) -> int {
    if duration == 0 {
        if elapsed == 0 {
            0
        } else {
            10_000
        }
    } else {
        sat64(elapsed * 10_000 / duration)
    }
}

/// Progress clamped to one hundred percent.
pub open spec fn clamped_percent_hundredths(elapsed: int, duration: int) -> int {
    if progress_permyriad(elapsed, duration) > 10_000 {
        10_000
    } else {
        progress_permyriad(elapsed, duration)
    }
}

/// The playback orchestrator: the public transport state machine over one
/// sink, rebuilt at every track change.
pub struct Player {
    /// The current sink; recreated at `stop` and at every `play`.
    pub sink: Sink,
    /// The current track's total duration, cached at `play`.
    pub total_duration_ns: Option<u64>,
    /// Whether no track is loaded.
    pub is_stopped: bool,
    /// Volume in percent.
    pub volume: u16,
    /// Speed in thousandths of real-time rate.
    pub speed: u32,
    /// Whether decoders are constructed in gapless mode.
    pub gapless: bool,
}

impl Player {
    /// The player's invariant: a loaded track always has a cached
    /// duration, the volume is a percentage, and the sink is well
    /// formed.
    pub open spec fn wf(self) -> bool {
        &&& self.volume <= 100
        &&& self.sink.wf()
        &&& (!self.is_stopped ==> self.total_duration_ns is Some)
    }

    /// A stopped player with an empty sink at the default volume and
    /// speed.
    pub fn new() -> (r: Player)
        ensures
            r.wf(),
            r.is_stopped,
            r.total_duration_ns is None,
            r.volume == DEFAULT_VOLUME,
            r.speed == DEFAULT_SPEED,
            r.gapless,
            r.sink.source is None,
            !r.sink.paused,
            r.sink.volume == DEFAULT_VOLUME,
            r.sink.speed == DEFAULT_SPEED,
    {
        let gapless = true;
        let mut sink = Sink::new();
        let volume: u16 = DEFAULT_VOLUME;
        sink.set_volume(volume);
        let speed: u32 = DEFAULT_SPEED;
        sink.set_speed(speed);
        Player {
            sink,
            total_duration_ns: None,
            is_stopped: true,
            volume,
            speed,
            gapless,
        }
    }

    /// Tears the current playback down, constructs a decoder over the
    /// given stream of bytes, and on success caches its total duration,
    /// installs it in a fresh sink, re-applies the stored speed and
    /// clears the stopped flag. On any construction failure the player
    /// silently remains stopped: errors are not surfaced at this layer.
    pub fn play(&mut self, data: Vec<u8>)
        requires
            old(self).wf(),
        ensures
            final(self).wf(),
            final(self).volume == old(self).volume,
            final(self).speed == old(self).speed,
            final(self).gapless == old(self).gapless,
            // failure: stopped, the old source discarded, the cached duration kept
            final(self).is_stopped ==> final(self).sink.source is None && final(self).total_duration_ns == old(self).total_duration_ns,
            // success: a fresh sink holding only the new decoder at its start
            !final(self).is_stopped ==> (final(self).sink.source matches Some(d) && {
                &&& d.elapsed_ns == 0
                &&& d.current_frame_offset == 0
                &&& !d.is_seeking_soon
                &&& d.fade_in_remaining_ns == 0
                &&& d.fade_out_remaining_ns == 0
                &&& final(self).total_duration_ns == Some(d.duration_ns)
            }) && !final(self).sink.paused && final(self).sink.speed == old(self).speed && final(self).sink.volume == old(self).volume,
    {
        self.stop();
        match Symphonia::new(data, self.gapless) {
            Ok(decoder) => {
                self.total_duration_ns = Some(decoder.duration_ns);
                self.sink.append(decoder);
                self.sink.set_speed(self.speed);
                self.is_stopped = false;
            },
            Err(_) => {},
        }
    }

    /// Pauses the sink; idempotent.
    pub fn pause(&mut self)
        ensures
            *final(self) == (Player { sink: final(self).sink, ..*old(self) }),
            final(self).sink == (Sink { paused: true, ..old(self).sink }),
    {
        self.sink.pause();
    }

    /// Resumes the sink; idempotent.
    pub fn resume(&mut self)
        ensures
            *final(self) == (Player { sink: final(self).sink, ..*old(self) }),
            final(self).sink == (Sink { paused: false, ..old(self).sink }),
    {
        self.sink.play();
    }

    /// Whether the sink is paused.
    pub fn is_paused(&self) -> (r: bool)
        ensures
            r == self.sink.paused,
    {
        self.sink.is_paused()
    }

    /// Replaces the sink with a fresh one — immediately silencing any
    /// in-flight audio — re-applies the stored volume, and marks the
    /// player stopped. The cached duration is left as it stands.
    pub fn stop(&mut self)
        requires
            old(self).wf(),
        ensures
            final(self).wf(),
            *final(self) == (Player { sink: final(self).sink, is_stopped: true, ..*old(self) }),
            final(self).sink == (Sink {
                source: None,
                paused: false,
                volume: old(self).volume,
                speed: 1000u32,
            }),
    {
        self.sink = Sink::new();
        self.sink.set_volume(self.volume);
        self.is_stopped = true;
    }

    /// Elapsed time of the current track in the decoder's own time
    /// domain; zero with nothing loaded.
    pub fn elapsed(&self) -> (r: u64)
        ensures
            r == sink_elapsed_ns(self.sink),
    {
        self.sink.elapsed()
    }

    /// The cached duration less the fixed trailing trim, or `None` while
    /// no duration was ever cached.
    pub fn duration(&self) -> (r: Option<u64>)
        ensures
            self.total_duration_ns is None ==> r is None,
            self.total_duration_ns matches Some(t) ==> r == Some(trimmed_ns(t as int) as u64),
    {
        match self.total_duration_ns {
            None => None,
            Some(t) => {
                if t >= DURATION_TRIM_NS {
                    Some(t - DURATION_TRIM_NS)
                } else {
                    Some(0)
                }
            },
        }
    }

    /// Steps five seconds forward, clamped: the step is taken only while
    /// it stays a full step short of the trimmed duration.
    pub fn seek_fw(&mut self)
        requires
            old(self).wf(),
        ensures
            final(self).wf(),
            ({
                let pos = sink_elapsed_ns(old(self).sink);
                let new_pos = if pos + SEEK_STEP_NS <= u64::MAX {
                    pos + SEEK_STEP_NS
                } else {
                    u64::MAX as int
                };
                let goes = match old(self).total_duration_ns {
                    Some(t) => trimmed_ns(t as int) >= SEEK_STEP_NS && new_pos < trimmed_ns(
                        t as int,
                    ) - SEEK_STEP_NS,
                    None => false,
                };
                if goes {
                    (old(self).sink.source matches Some(s) ==> final(self).sink.source == Some(
                        Symphonia {
                            fade_out_remaining_ns: SEEK_FADE_OUT_NS,
                            fade_out_total_ns: SEEK_FADE_OUT_NS,
                            is_seeking_soon: true,
                            seek_to_time_ns: new_pos as u64,
                            ..s
                        },
                    )) && (old(self).sink.source is None ==> *final(self) == *old(self))
                } else {
                    *final(self) == *old(self)
                }
            }),
    {
        let pos = self.elapsed();
        let new_pos = if pos <= u64::MAX - SEEK_STEP_NS {
            pos + SEEK_STEP_NS
        } else {
            u64::MAX
        };
        if let Some(duration) = self.duration() {
            if duration >= SEEK_STEP_NS && new_pos < duration - SEEK_STEP_NS {
                self.seek_to(new_pos);
            }
        }
    }

    /// Steps five seconds backward, clamped at the track's start.
    pub fn seek_bw(&mut self)
        requires
            old(self).wf(),
        ensures
            final(self).wf(),
            ({
                let pos = sink_elapsed_ns(old(self).sink);
                let new_pos = if pos >= SEEK_STEP_NS {
                    pos - SEEK_STEP_NS
                } else {
                    0int
                };
                (old(self).sink.source matches Some(s) ==> final(self).sink.source == Some(
                    Symphonia {
                        fade_out_remaining_ns: SEEK_FADE_OUT_NS,
                        fade_out_total_ns: SEEK_FADE_OUT_NS,
                        is_seeking_soon: true,
                        seek_to_time_ns: new_pos as u64,
                        ..s
                    },
                )) && (old(self).sink.source is None ==> *final(self) == *old(self))
            }),
    {
        let pos = self.elapsed();
        let new_pos = if pos >= SEEK_STEP_NS {
            pos - SEEK_STEP_NS
        } else {
            0
        };
        self.seek_to(new_pos);
    }

    /// Forwards a deferred seek to the sink's source; the player performs
    /// no clamping — that is the caller's responsibility. The call
    /// returns before the seek is physically applied.
    pub fn seek_to(&mut self, time_ns: u64)
        requires
            old(self).wf(),
        ensures
            final(self).wf(),
            final(self).total_duration_ns == old(self).total_duration_ns,
            final(self).is_stopped == old(self).is_stopped,
            final(self).volume == old(self).volume,
            final(self).speed == old(self).speed,
            final(self).gapless == old(self).gapless,
            final(self).sink.paused == old(self).sink.paused,
            final(self).sink.volume == old(self).sink.volume,
            final(self).sink.speed == old(self).sink.speed,
            old(self).sink.source is None ==> *final(self) == *old(self),
            old(self).sink.source matches Some(s) ==> final(self).sink.source == Some(
                Symphonia {
                    fade_out_remaining_ns: SEEK_FADE_OUT_NS,
                    fade_out_total_ns: SEEK_FADE_OUT_NS,
                    is_seeking_soon: true,
                    seek_to_time_ns: time_ns,
                    ..s
                },
            ),
            // the seek is asynchronous relative to the caller: progress queried
            // right after may still report the pre-seek position
            sink_elapsed_ns(final(self).sink) == sink_elapsed_ns(old(self).sink),
    {
        self.sink.seek(time_ns);
    }

    /// Progress through the track in hundredths of a percent, unclamped;
    /// zero while no duration was ever cached.
    pub fn percentage(&self) -> (r: u64)
        ensures
            self.total_duration_ns is None ==> r == 0,
            self.total_duration_ns matches Some(t) ==> r == progress_permyriad(
                sink_elapsed_ns(self.sink),
                trimmed_ns(t as int),
            ),
    {
        match self.duration() {
            None => 0,
            Some(duration) => {
                let elapsed = self.elapsed();
                if duration == 0 {
                    if elapsed == 0 {
                        0
                    } else {
                        10_000
                    }
                } else {
                    let wide: u128 = (elapsed as u128) * 10_000;
                    let q: u128 = wide / (duration as u128);
                    if q > u64::MAX as u128 {
                        u64::MAX
                    } else {
                        q as u64
                    }
                }
            },
        }
    }

    /// Updates the stored speed and the live sink's.
    pub fn set_speed(&mut self, speed: u32)
        ensures
            *final(self) == (Player { speed, sink: final(self).sink, ..*old(self) }),
            final(self).sink == (Sink { speed, ..old(self).sink }),
    {
        self.speed = speed;
        self.sink.set_speed(speed);
    }

    /// Reports `(percent, position, duration)`: progress in hundredths
    /// of a percent clamped to one hundred percent, and position and
    /// trimmed duration in whole seconds. Fails exactly when no track is
    /// loaded.
    pub fn get_progress(&mut self) -> (r: Result<(u64, i64, i64), PlayerError>)
        requires
            old(self).wf(),
        ensures
            *final(self) == *old(self),
            r is Err <==> old(self).is_stopped,
            r matches Err(e) ==> e == PlayerError::StoppedError,
            r matches Ok(p) ==> ({
                let t = old(self).total_duration_ns->0;
                let elapsed = sink_elapsed_ns(old(self).sink);
                &&& p.0 == clamped_percent_hundredths(elapsed, trimmed_ns(t as int))
                &&& p.0 <= 10_000
                &&& p.1 == elapsed / (NS_PER_SEC as int)
                &&& p.2 == trimmed_ns(t as int) / (NS_PER_SEC as int)
            }),
    {
        if self.is_stopped {
            return Err(PlayerError::StoppedError);
        }
        let position = self.elapsed() / NS_PER_SEC;
        let duration = match self.duration() {
            Some(d) => d,
            None => 0,
        };
        let duration_secs = duration / NS_PER_SEC;
        let mut percent = self.percentage();
        if percent > 10_000 {
            percent = 10_000;
        }
        Ok((percent, position as i64, duration_secs as i64))
    }
}

/// For every position and duration, the clamped progress lies between
/// zero and exactly one hundred percent.
pub proof fn lemma_progress_clamped(elapsed: int, duration: int)
    requires
        elapsed >= 0,
        duration >= 0,
    ensures
        0 <= clamped_percent_hundredths(elapsed, duration) <= 10_000,
{
    if duration != 0 {
        vstd::arithmetic::mul::lemma_mul_nonnegative(elapsed, 10_000);
        vstd::arithmetic::div_mod::lemma_div_pos_is_pos(elapsed * 10_000, duration);
    }
}

} // verus!
