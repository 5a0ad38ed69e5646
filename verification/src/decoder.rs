//! The media decoder: a compressed stream held in memory turned into a
//! sequence of fixed-point samples, packet by packet.
//!
//! The decoder owns the demuxer and codec handles, the current decoded
//! sample buffer with its cursor, the track's time base, the cached total
//! duration, the elapsed position in the decoder's own timestamp domain,
//! the fade windows, and the pending deferred seek. Decode errors are
//! tolerated up to `MAX_DECODE_ERRORS` consecutive packets; seeking is
//! deferred into the sample pull and masked by a short fade-out before and
//! a fade-in after.

use vstd::prelude::*;

use crate::fade::{
    attenuate, fade_in_level, fade_in_num, fade_out_level, fade_out_num, scale_sample,
};
use crate::media::{
    decode_packet, default_track_meta, make_codec, next_packet, packet_ts, probe_format,
    seek_track, Chunk, CodecHandle, FormatHandle, StreamFault,
};
use crate::retry::{lemma_retry_run, retry_outcome, Attempt, RetryOutcome, MAX_DECODE_ERRORS};
use crate::units::{ns_to_timestamp, sat64, timestamp_ns, timestamp_to_ns, NS_PER_SEC};

verus! {

/// The short fade-out that masks the discontinuity of a coming seek.
pub const SEEK_FADE_OUT_NS: u64 = 10_000_000;

/// The fade-in that masks the splice right after a seek lands.
pub const SEEK_FADE_IN_NS: u64 = 100_000_000;

/// The coarse seek lands about this much early; the target is pushed past
/// by the same amount to compensate.
pub const SEEK_LEAD_NS: u64 = 50_000_000;

/// The stated total duration when the track reports no frame count: an
/// explicit approximation, not a guess at the real duration.
pub const DURATION_NO_FRAMES_NS: u64 = 99_000_000_000;

/// The stated total duration when the track reports frames but no usable
/// time base.
pub const DURATION_NO_TIME_BASE_NS: u64 = 199_000_000_000;

/// Error that can happen when creating a decoder.
#[derive(Debug, Clone)]
pub enum SymphoniaDecoderError {
    /// The format of the data has not been recognized.
    UnrecognizedFormat,
    /// An IO error occurred while reading or seeking the stream.
    IoError(String),
    /// The stream contained malformed data and could not be decoded or
    /// demuxed.
    DecodeError(&'static str),
    /// A default or user-defined limit was reached while decoding or
    /// demuxing the stream; limits guard against denial-of-service from
    /// malicious streams.
    LimitError(&'static str),
    /// The demuxer or decoder needs to be reset before continuing.
    ResetRequired,
    /// No streams were found by the decoder.
    NoStreams,
}

impl SymphoniaDecoderError {
    /// The error's text, with an IO or decode failure carrying the
    /// underlying message through.
    pub fn message(&self) -> (r: &str)
        ensures
            self matches SymphoniaDecoderError::IoError(m) ==> r@ == m@,
            self matches SymphoniaDecoderError::DecodeError(m) ==> r@ == m@,
            self matches SymphoniaDecoderError::LimitError(m) ==> r@ == m@,
    {
        match self {
            SymphoniaDecoderError::UnrecognizedFormat => "Unrecognized format",
            SymphoniaDecoderError::IoError(m) => m.as_str(),
            SymphoniaDecoderError::DecodeError(m) => m,
            SymphoniaDecoderError::LimitError(m) => m,
            SymphoniaDecoderError::ResetRequired => "Reset required",
            SymphoniaDecoderError::NoStreams => "No streams",
        }
    }
}

/// Maps a framework fault at construction into the decoder's closed error
/// taxonomy. A seek fault cannot arise while constructing (nothing has
/// seeked yet); it is folded into the decode kind rather than trusted to
/// be absent.
pub fn construction_error(fault: StreamFault) -> (r: SymphoniaDecoderError)
    ensures
        fault matches StreamFault::Io(m) ==> r == SymphoniaDecoderError::IoError(m),
        fault matches StreamFault::Decode(m) ==> r == SymphoniaDecoderError::DecodeError(m),
        fault matches StreamFault::Unsupported(_) ==> r
            == SymphoniaDecoderError::UnrecognizedFormat,
        fault matches StreamFault::Limit(m) ==> r == SymphoniaDecoderError::LimitError(m),
        fault matches StreamFault::Reset ==> r == SymphoniaDecoderError::ResetRequired,
        fault matches StreamFault::Seek ==> r matches SymphoniaDecoderError::DecodeError(_),
{
    match fault {
        StreamFault::Io(m) => SymphoniaDecoderError::IoError(m),
        StreamFault::Decode(m) => SymphoniaDecoderError::DecodeError(m),
        StreamFault::Seek => SymphoniaDecoderError::DecodeError("unexpected seek failure"),
        StreamFault::Unsupported(_) => SymphoniaDecoderError::UnrecognizedFormat,
        StreamFault::Limit(m) => SymphoniaDecoderError::LimitError(m),
        StreamFault::Reset => SymphoniaDecoderError::ResetRequired,
    }
}

/// What one pass of the retry-capped fetch loop came to.
pub enum FetchResult {
    /// A packet was fetched and decoded; carries the audio and the
    /// packet's timestamp.
    Delivered(Chunk, u64),
    /// Fetching the next packet failed.
    PacketFault(StreamFault),
    /// A packet decoded with a failure that retrying cannot mend.
    DecodeFatal(StreamFault),
    /// More than `MAX_DECODE_ERRORS` consecutive packets were malformed;
    /// carries the last decode fault.
    TooCorrupt(StreamFault),
}

/// `remaining` lowered by `step`, clamped at zero.
pub open spec fn dec_sat(remaining: int, step: int) -> int {
    if remaining >= step {
        remaining - step
    } else {
        0
    }
}

/// Nanoseconds of real time that one interleaved sample spans:
/// `1e9 / (rate * channels)`. A degenerate spec (zero rate or channels)
/// consumes any fade window at once.
pub open spec fn spec_sample_step_ns(rate: int, channels: int) -> int {
    if rate * channels == 0 {
        u64::MAX as int
    } else {
        1_000_000_000int / (rate * channels)
    }
}

/// Across one pull the fade-out window's remaining counter only runs
/// down, so the level applied to the next sample never exceeds the one
/// just applied: the fade-out factor is monotonically non-increasing
/// over the fade window as the decoder steps through it.
pub proof fn lemma_fade_out_level_never_rises(remaining: int, step: int, total: int)
    requires
        0 <= remaining,
        0 <= step,
    ensures
        fade_out_num(dec_sat(remaining, step), total) <= fade_out_num(remaining, total),
{
    crate::fade::lemma_fade_out_monotonic(dec_sat(remaining, step), remaining, total);
}

/// The mirror fact for fade-in: as the decoder steps through the window
/// the applied level never falls.
pub proof fn lemma_fade_in_level_never_falls(remaining: int, step: int, total: int)
    requires
        0 <= remaining,
        0 <= step,
    ensures
        fade_in_num(dec_sat(remaining, step), total) >= fade_in_num(remaining, total),
{
    crate::fade::lemma_fade_in_monotonic(dec_sat(remaining, step), remaining, total);
}

/// A sample after the fade-out window's attenuation, when one is active.
pub open spec fn spec_fade_out_applied(s: int, remaining: int, total: int) -> int {
    if remaining > 0 {
        scale_sample(s, fade_out_num(remaining, total), total)
    } else {
        s
    }
}

/// A sample after the fade-in window's attenuation, when one is active.
pub open spec fn spec_fade_in_applied(s: int, remaining: int, total: int) -> int {
    if remaining > 0 {
        scale_sample(s, fade_in_num(remaining, total), total)
    } else {
        s
    }
}

/// A format-agnostic media decoder over a stream of bytes held in memory.
pub struct Symphonia {
    /// The probed container's demuxer, behind the trusted boundary.
    pub format: FormatHandle,
    /// The instantiated codec, behind the trusted boundary.
    pub codec: CodecHandle,
    /// The default track's identifier.
    pub track_id: u32,
    /// The track's time base, seconds per timestamp unit, where known.
    pub time_base: Option<(u32, u32)>,
    /// The current decoded sample buffer.
    pub buffer: Vec<i16>,
    /// The cursor into `buffer`; always within its bounds.
    pub current_frame_offset: usize,
    /// Sample rate of the most recently decoded packet.
    pub rate: u32,
    /// Channel count of the most recently decoded packet.
    pub channels: u16,
    /// The cached total duration.
    pub duration_ns: u64,
    /// Position in the decoder's own timestamp domain.
    pub elapsed_ns: u64,
    /// Remaining and total width of the fade-in window.
    pub fade_in_remaining_ns: u64,
    pub fade_in_total_ns: u64,
    /// Remaining and total width of the fade-out window.
    pub fade_out_remaining_ns: u64,
    pub fade_out_total_ns: u64,
    /// Whether a deferred seek is pending.
    pub is_seeking_soon: bool,
    /// The latest requested seek target; last write wins.
    pub seek_to_time_ns: u64,
}

/// The two decoders' plain state agrees: everything but the demuxer and
/// codec handles.
pub open spec fn same_plain(a: Symphonia, b: Symphonia) -> bool {
    &&& a.track_id == b.track_id
    &&& a.time_base == b.time_base
    &&& a.buffer == b.buffer
    &&& a.current_frame_offset == b.current_frame_offset
    &&& a.rate == b.rate
    &&& a.channels == b.channels
    &&& a.duration_ns == b.duration_ns
    &&& a.elapsed_ns == b.elapsed_ns
    &&& a.fade_in_remaining_ns == b.fade_in_remaining_ns
    &&& a.fade_in_total_ns == b.fade_in_total_ns
    &&& a.fade_out_remaining_ns == b.fade_out_remaining_ns
    &&& a.fade_out_total_ns == b.fade_out_total_ns
    &&& a.is_seeking_soon == b.is_seeking_soon
    &&& a.seek_to_time_ns == b.seek_to_time_ns
}

impl Symphonia {
    /// The decoder's invariant: the cursor never passes the buffer's end,
    /// and no fade window's remaining counter passes its total.
    pub open spec fn wf(self) -> bool {
        &&& self.current_frame_offset <= self.buffer.len()
        &&& self.fade_in_remaining_ns <= self.fade_in_total_ns
        &&& self.fade_out_remaining_ns <= self.fade_out_total_ns
    }

    /// Opens a stream of bytes as a media source, probes its container
    /// format, instantiates a codec for the default track with integrity
    /// verification on, and decodes the first packet through the
    /// retry-capped loop.
    pub fn new(data: Vec<u8>, gapless: bool) -> (r: Result<Symphonia, SymphoniaDecoderError>)
        ensures
            r matches Ok(d) ==> {
                &&& d.wf()
                &&& d.elapsed_ns == 0
                &&& d.current_frame_offset == 0
                &&& !d.is_seeking_soon
                &&& d.fade_in_remaining_ns == 0
                &&& d.fade_in_total_ns == 0
                &&& d.fade_out_remaining_ns == 0
                &&& d.fade_out_total_ns == 0
                &&& d.seek_to_time_ns == 0
            },
    {
        match Self::init(data, gapless) {
            Err(fault) => Err(construction_error(fault)),
            Ok(Some(decoder)) => Ok(decoder),
            Ok(None) => Err(SymphoniaDecoderError::NoStreams),
        }
    }

    /// The construction behind `new`: `Ok(None)` when the container holds
    /// no default track, `Err` with the framework's fault otherwise.
    fn init(data: Vec<u8>, gapless: bool) -> (r: Result<Option<Symphonia>, StreamFault>)
        ensures
            r matches Ok(Some(d)) ==> {
                &&& d.wf()
                &&& d.elapsed_ns == 0
                &&& d.current_frame_offset == 0
                &&& !d.is_seeking_soon
                &&& d.fade_in_remaining_ns == 0
                &&& d.fade_in_total_ns == 0
                &&& d.fade_out_remaining_ns == 0
                &&& d.fade_out_total_ns == 0
                &&& d.seek_to_time_ns == 0
            },
    {
        let format = match probe_format(data, gapless) {
            Ok(f) => f,
            Err(fault) => {
                return Err(fault);
            },
        };
        let meta = match default_track_meta(&format) {
            Some(m) => m,
            None => {
                return Ok(None);
            },
        };
        let codec = match make_codec(&format) {
            Some(Ok(c)) => c,
            Some(Err(fault)) => {
                return Err(fault);
            },
            None => {
                return Ok(None);
            },
        };
        let duration_ns = Self::get_duration(meta.n_frames, meta.time_base);
        let mut decoder = Symphonia {
            format,
            codec,
            track_id: meta.id,
            time_base: meta.time_base,
            buffer: Vec::new(),
            current_frame_offset: 0,
            rate: 0,
            channels: 0,
            duration_ns,
            elapsed_ns: 0,
            fade_in_remaining_ns: 0,
            fade_in_total_ns: 0,
            fade_out_remaining_ns: 0,
            fade_out_total_ns: 0,
            is_seeking_soon: false,
            seek_to_time_ns: 0,
        };
        let (result, _log) = decoder.fetch_block();
        match result {
            FetchResult::Delivered(chunk, _ts) => {
                decoder.rate = chunk.rate;
                decoder.channels = chunk.channels;
                decoder.buffer = chunk.samples;
                decoder.current_frame_offset = 0;
                Ok(Some(decoder))
            },
            FetchResult::PacketFault(fault) => Err(fault),
            FetchResult::DecodeFatal(fault) => Err(fault),
            FetchResult::TooCorrupt(fault) => Err(fault),
        }
    }

    /// The total duration stated by the track's parameters:
    /// `frame_count * time_base` where both are present and the time base
    /// is usable, else a fixed sentinel.
    pub fn get_duration(n_frames: Option<u64>, time_base: Option<(u32, u32)>) -> (r: u64)
        ensures
            n_frames is None ==> r == DURATION_NO_FRAMES_NS,
            n_frames is Some && (time_base is None || (time_base matches Some(tb) && (tb.0 == 0
                || tb.1 == 0))) ==> r == DURATION_NO_TIME_BASE_NS,
            n_frames matches Some(n) ==> (time_base matches Some(tb) ==> ((tb.0 > 0 && tb.1 > 0)
                ==> r == sat64(timestamp_ns(n as int, tb.0 as int, tb.1 as int)))),
    {
        match n_frames {
            None => DURATION_NO_FRAMES_NS,
            Some(n) => match time_base {
                None => DURATION_NO_TIME_BASE_NS,
                Some((numer, denom)) => {
                    if numer > 0 && denom > 0 {
                        timestamp_to_ns(n, numer, denom)
                    } else {
                        DURATION_NO_TIME_BASE_NS
                    }
                },
            },
        }
    }

    /// Fetches and decodes packets until one decodes, a failure that
    /// retrying cannot mend arises, or more than `MAX_DECODE_ERRORS`
    /// consecutive packets are malformed. The ghost record of attempts
    /// ties the loop's verdict to the retry policy's model.
    fn fetch_block(&mut self) -> (r: (FetchResult, Ghost<Seq<Attempt>>))
        ensures
            same_plain(*final(self), *old(self)),
            r.1@.len() >= 1,
            r.1@.len() <= MAX_DECODE_ERRORS + 1,
            forall|i: int| 0 <= i < r.1@.len() - 1 ==> r.1@[i] == Attempt::Corrupt,
            match r.0 {
                FetchResult::Delivered(_, _) => retry_outcome(r.1@, 0) == RetryOutcome::Delivers,
                FetchResult::PacketFault(_) => retry_outcome(r.1@, 0) == RetryOutcome::Ends,
                FetchResult::DecodeFatal(f) => retry_outcome(r.1@, 0) == RetryOutcome::Ends && !(f
                    matches StreamFault::Decode(_)),
                FetchResult::TooCorrupt(f) => retry_outcome(r.1@, 0) == RetryOutcome::Ends && r.1@.len()
                    == MAX_DECODE_ERRORS + 1 && f matches StreamFault::Decode(_),
            },
    {
        let mut errors: usize = 0;
        let ghost mut log: Seq<Attempt> = Seq::empty();
        loop
            invariant
                same_plain(*self, *old(self)),
                errors <= MAX_DECODE_ERRORS,
                log.len() == errors,
                forall|i: int| 0 <= i < log.len() ==> log[i] == Attempt::Corrupt,
            decreases MAX_DECODE_ERRORS - errors,
        {
            match next_packet(&mut self.format) {
                Err(fault) => {
                    proof {
                        log = log.push(Attempt::Fatal);
                        lemma_retry_run(log, 0);
                    }
                    return (FetchResult::PacketFault(fault), Ghost(log));
                },
                Ok(packet) => {
                    let ts = packet_ts(&packet);
                    match decode_packet(&mut self.codec, &packet) {
                        Ok(chunk) => {
                            proof {
                                log = log.push(Attempt::Success);
                                lemma_retry_run(log, 0);
                            }
                            return (FetchResult::Delivered(chunk, ts), Ghost(log));
                        },
                        Err(fault) => {
                            match fault {
                                StreamFault::Decode(_) => {
                                    proof {
                                        log = log.push(Attempt::Corrupt);
                                    }
                                    if errors >= MAX_DECODE_ERRORS {
                                        proof {
                                            lemma_retry_run(log, 0);
                                        }
                                        return (FetchResult::TooCorrupt(fault), Ghost(log));
                                    }
                                    errors = errors + 1;
                                },
                                _ => {
                                    proof {
                                        log = log.push(Attempt::Fatal);
                                        lemma_retry_run(log, 0);
                                    }
                                    return (FetchResult::DecodeFatal(fault), Ghost(log));
                                },
                            }
                        },
                    }
                },
            }
        }
    }

    /// The number of samples the current decoded buffer holds.
    pub fn current_frame_len(&self) -> (r: Option<usize>)
        ensures
            r == Some(self.buffer@.len() as usize),
    {
        Some(self.buffer.len())
    }

    /// Channel count of the most recently decoded packet.
    pub fn channels(&self) -> (r: u16)
        ensures
            r == self.channels,
    {
        self.channels
    }

    /// Sample rate of the most recently decoded packet.
    pub fn sample_rate(&self) -> (r: u32)
        ensures
            r == self.rate,
    {
        self.rate
    }

    /// The cached total duration resolved at construction.
    pub fn total_duration(&self) -> (r: Option<u64>)
        ensures
            r == Some(self.duration_ns),
    {
        Some(self.duration_ns)
    }

    /// Position in the decoder's own timestamp domain.
    pub fn elapsed(&mut self) -> (r: u64)
        ensures
            *final(self) == *old(self),
            r == old(self).elapsed_ns,
    {
        self.elapsed_ns
    }

    /// Schedules a linear fade-in over the coming `duration_ns` of real
    /// time, starting at the next sample pulled.
    pub fn fade_in_from_now(&mut self, duration_ns: u64)
        ensures
            *final(self) == (Symphonia {
                fade_in_remaining_ns: duration_ns,
                fade_in_total_ns: duration_ns,
                ..*old(self)
            }),
    {
        self.fade_in_remaining_ns = duration_ns;
        self.fade_in_total_ns = duration_ns;
    }

    /// Schedules a linear fade-out over the coming `duration_ns` of real
    /// time, starting at the next sample pulled.
    pub fn fade_out_from_now(&mut self, duration_ns: u64)
        ensures
            *final(self) == (Symphonia {
                fade_out_remaining_ns: duration_ns,
                fade_out_total_ns: duration_ns,
                ..*old(self)
            }),
    {
        self.fade_out_remaining_ns = duration_ns;
        self.fade_out_total_ns = duration_ns;
    }

    /// The deferred seek: does not touch the format reader now (the
    /// active buffer may be mid-packet), but schedules a short fade-out
    /// to mask the coming discontinuity, records the pending target —
    /// the latest request wins — and returns a placeholder zero. The true
    /// position is known only once the seek runs inside a later pull.
    pub fn seek(&mut self, time_ns: u64) -> (r: Option<u64>)
        ensures
            *final(self) == (Symphonia {
                fade_out_remaining_ns: SEEK_FADE_OUT_NS,
                fade_out_total_ns: SEEK_FADE_OUT_NS,
                is_seeking_soon: true,
                seek_to_time_ns: time_ns,
                ..*old(self)
            }),
            r == Some(0u64),
    {
        self.fade_out_from_now(SEEK_FADE_OUT_NS);
        self.is_seeking_soon = true;
        self.seek_to_time_ns = time_ns;
        Some(0)
    }

    /// Nanoseconds of real time that one sample of the current signal
    /// spans.
    fn sample_step_ns(&self) -> (r: u64)
        ensures
            r == spec_sample_step_ns(self.rate as int, self.channels as int),
    {
        proof {
            assert(0 <= (self.rate as int) * (self.channels as int) <= 0xffff_ffffu32 * 0xffffu16)
                by (nonlinear_arith)
                requires 0 <= self.rate <= 0xffff_ffffu32, 0 <= self.channels <= 0xffffu16,
            ;
        }
        let denom: u64 = (self.rate as u64) * (self.channels as u64);
        if denom == 0 {
            u64::MAX
        } else {
            1_000_000_000 / denom
        }
    }

    /// Runs the pending coarse seek: aims past the whole-second target by
    /// the documented lead, recomputes the elapsed position from the
    /// timestamp actually landed on, and schedules a fade-in to mask the
    /// splice. A failed seek is swallowed: the pending flag clears and
    /// playback goes on from wherever the reader stands, with no error
    /// surfaced.
    fn run_pending_seek(&mut self)
        requires
            old(self).wf(),
        ensures
            final(self).wf(),
            !final(self).is_seeking_soon,
            final(self).track_id == old(self).track_id,
            final(self).time_base == old(self).time_base,
            final(self).buffer == old(self).buffer,
            final(self).current_frame_offset == old(self).current_frame_offset,
            final(self).rate == old(self).rate,
            final(self).channels == old(self).channels,
            final(self).duration_ns == old(self).duration_ns,
            final(self).fade_out_remaining_ns == old(self).fade_out_remaining_ns,
            final(self).fade_out_total_ns == old(self).fade_out_total_ns,
            final(self).seek_to_time_ns == old(self).seek_to_time_ns,
            (final(self).fade_in_remaining_ns == SEEK_FADE_IN_NS && final(self).fade_in_total_ns
                == SEEK_FADE_IN_NS) || (final(self).fade_in_remaining_ns == old(
                self,
            ).fade_in_remaining_ns && final(self).fade_in_total_ns == old(self).fade_in_total_ns
                && final(self).elapsed_ns == old(self).elapsed_ns),
    {
        let target_secs = self.seek_to_time_ns / NS_PER_SEC;
        proof {
            vstd::arithmetic::div_mod::lemma_fundamental_div_mod(
                self.seek_to_time_ns as int,
                NS_PER_SEC as int,
            );
        }
        let whole_ns = target_secs * NS_PER_SEC;
        let target_ns = if whole_ns <= u64::MAX - SEEK_LEAD_NS {
            whole_ns + SEEK_LEAD_NS
        } else {
            u64::MAX
        };
        if let Some((numer, denom)) = self.time_base {
            if numer > 0 {
                let ts = ns_to_timestamp(target_ns, numer, denom);
                match seek_track(&mut self.format, ts, self.track_id) {
                    Ok(actual_ts) => {
                        if self.rate > 0 {
                            self.elapsed_ns = timestamp_to_ns(actual_ts, 1, self.rate);
                        }
                        self.fade_in_from_now(SEEK_FADE_IN_NS);
                    },
                    Err(_) => {},
                }
            }
        }
        self.is_seeking_soon = false;
    }

    /// Decodes the next packet into a fresh buffer and recomputes the
    /// elapsed position from that packet's timestamp through the track's
    /// time base. A refill that fails, or that decodes to no samples,
    /// ends the stream and leaves the buffer and cursor as they stand.
    fn refill(&mut self) -> (ok: bool)
        requires
            old(self).wf(),
        ensures
            final(self).wf(),
            final(self).track_id == old(self).track_id,
            final(self).time_base == old(self).time_base,
            final(self).duration_ns == old(self).duration_ns,
            final(self).fade_in_remaining_ns == old(self).fade_in_remaining_ns,
            final(self).fade_in_total_ns == old(self).fade_in_total_ns,
            final(self).fade_out_remaining_ns == old(self).fade_out_remaining_ns,
            final(self).fade_out_total_ns == old(self).fade_out_total_ns,
            final(self).is_seeking_soon == old(self).is_seeking_soon,
            final(self).seek_to_time_ns == old(self).seek_to_time_ns,
            ok ==> final(self).current_frame_offset == 0 && final(self).buffer.len() > 0,
            // without a usable time base the position cannot move
            (ok && old(self).time_base is None) ==> final(self).elapsed_ns == old(
                self,
            ).elapsed_ns,
            !ok ==> final(self).buffer == old(self).buffer && final(self).current_frame_offset
                == old(self).current_frame_offset && final(self).elapsed_ns == old(self).elapsed_ns
                && final(self).rate == old(self).rate && final(self).channels == old(
                self,
            ).channels,
    {
        let (result, _log) = self.fetch_block();
        match result {
            FetchResult::Delivered(chunk, ts) => {
                if chunk.samples.len() == 0 {
                    return false;
                }
                if let Some((numer, denom)) = self.time_base {
                    if numer > 0 && denom > 0 {
                        self.elapsed_ns = timestamp_to_ns(ts, numer, denom);
                    }
                }
                self.rate = chunk.rate;
                self.channels = chunk.channels;
                self.buffer = chunk.samples;
                self.current_frame_offset = 0;
                true
            },
            FetchResult::PacketFault(_) => false,
            FetchResult::DecodeFatal(_) => false,
            FetchResult::TooCorrupt(_) => false,
        }
    }

    /// Pulls one sample: the hot path, invoked once per output sample.
    ///
    /// Refills the buffer — exactly once — when and only when it is
    /// exhausted; reads the sample under the cursor and advances the
    /// cursor; applies an active fade-out; else runs a pending seek;
    /// applies an active fade-in; and never panics. `None` signals the
    /// end of the stream: a refill that failed, was aborted by the retry
    /// cap, or decoded to no samples.
    pub fn next(&mut self) -> (r: Option<i16>)
        requires
            old(self).wf(),
        ensures
            final(self).wf(),
            // the stream ends only at an exhausted buffer, and then nothing observable moves
            r is None ==> old(self).current_frame_offset == old(self).buffer.len() && same_plain(
                *final(self),
                *old(self),
            ),
            // while samples remain there is no refill: the buffer stands and the cursor advances by one
            old(self).current_frame_offset < old(self).buffer.len() ==> (r is Some && final(self).buffer == old(self).buffer && final(self).current_frame_offset == old(
                self,
            ).current_frame_offset + 1 && final(self).rate == old(self).rate && final(self).channels == old(self).channels && final(self).duration_ns == old(self).duration_ns),
            // exactly one refill per exhaustion: a sample delivered right after one
            // comes from index zero of the fresh buffer
            (old(self).current_frame_offset == old(self).buffer.len() && r is Some) ==> (final(self).current_frame_offset == 1 && final(self).buffer.len() >= 1),
            // with no fade or seek pending, the first fresh sample passes through raw
            (old(self).current_frame_offset == old(self).buffer.len() && r is Some && old(
                self,
            ).fade_out_remaining_ns == 0 && !old(self).is_seeking_soon && old(
                self,
            ).fade_in_remaining_ns == 0) ==> r == Some(final(self).buffer[0]),
            // an active fade-out attenuates the sample and both windows run down by one sample period
            (old(self).current_frame_offset < old(self).buffer.len()
                && old(self).fade_out_remaining_ns > 0) ==> ({
                let raw = old(self).buffer[old(self).current_frame_offset as int] as int;
                let stepped = spec_sample_step_ns(old(self).rate as int, old(self).channels as int);
                let after_out = spec_fade_out_applied(
                    raw,
                    old(self).fade_out_remaining_ns as int,
                    old(self).fade_out_total_ns as int,
                );
                let value = spec_fade_in_applied(
                    after_out,
                    old(self).fade_in_remaining_ns as int,
                    old(self).fade_in_total_ns as int,
                );
                &&& r == Some(value as i16)
                &&& final(self).fade_out_remaining_ns == dec_sat(
                    old(self).fade_out_remaining_ns as int,
                    stepped,
                )
                &&& final(self).fade_out_total_ns == old(self).fade_out_total_ns
                &&& final(self).fade_in_total_ns == old(self).fade_in_total_ns
                &&& final(self).fade_in_remaining_ns == (if old(self).fade_in_remaining_ns > 0 {
                    dec_sat(old(self).fade_in_remaining_ns as int, stepped)
                } else {
                    0int
                })
                &&& final(self).is_seeking_soon == old(self).is_seeking_soon
                &&& final(self).seek_to_time_ns == old(self).seek_to_time_ns
                &&& final(self).elapsed_ns == old(self).elapsed_ns
            }),
            // no fade-out and no pending seek: the sample passes through any fade-in only
            (old(self).current_frame_offset < old(self).buffer.len()
                && old(self).fade_out_remaining_ns == 0 && !old(self).is_seeking_soon) ==> ({
                let raw = old(self).buffer[old(self).current_frame_offset as int] as int;
                let stepped = spec_sample_step_ns(old(self).rate as int, old(self).channels as int);
                let value = spec_fade_in_applied(
                    raw,
                    old(self).fade_in_remaining_ns as int,
                    old(self).fade_in_total_ns as int,
                );
                &&& r == Some(value as i16)
                &&& final(self).fade_out_remaining_ns == 0
                &&& final(self).is_seeking_soon == false
                &&& final(self).seek_to_time_ns == old(self).seek_to_time_ns
                &&& final(self).elapsed_ns == old(self).elapsed_ns
                &&& final(self).fade_in_total_ns == old(self).fade_in_total_ns
                &&& final(self).fade_in_remaining_ns == (if old(self).fade_in_remaining_ns > 0 {
                    dec_sat(old(self).fade_in_remaining_ns as int, stepped)
                } else {
                    0int
                })
            }),
            // a pending seek runs once the fade-out has finished; it either lands —
            // scheduling the splice-masking fade-in, whose first sample is silent —
            // or is swallowed whole
            (old(self).current_frame_offset < old(self).buffer.len()
                && old(self).fade_out_remaining_ns == 0 && old(self).is_seeking_soon) ==> ({
                let raw = old(self).buffer[old(self).current_frame_offset as int] as int;
                let stepped = spec_sample_step_ns(old(self).rate as int, old(self).channels as int);
                &&& final(self).is_seeking_soon == false
                &&& final(self).seek_to_time_ns == old(self).seek_to_time_ns
                &&& final(self).fade_out_remaining_ns == 0
                &&& ((final(self).fade_in_total_ns == SEEK_FADE_IN_NS && final(self).fade_in_remaining_ns == dec_sat(SEEK_FADE_IN_NS as int, stepped) && r == Some(
                    0i16,
                )) || (final(self).fade_in_total_ns == old(self).fade_in_total_ns && final(self).elapsed_ns == old(self).elapsed_ns && r == Some(
                    spec_fade_in_applied(
                        raw,
                        old(self).fade_in_remaining_ns as int,
                        old(self).fade_in_total_ns as int,
                    ) as i16,
                ) && final(self).fade_in_remaining_ns == (if old(self).fade_in_remaining_ns > 0 {
                    dec_sat(old(self).fade_in_remaining_ns as int, stepped)
                } else {
                    0int
                })))
            }),
    {
        if self.current_frame_offset == self.buffer.len() {
            if !self.refill() {
                return None;
            }
        }
        let raw = self.buffer[self.current_frame_offset];
        self.current_frame_offset = self.current_frame_offset + 1;
        let mut sample = raw;
        if self.fade_out_remaining_ns > 0 {
            let num = fade_out_level(self.fade_out_remaining_ns, self.fade_out_total_ns);
            sample = attenuate(sample, num, self.fade_out_total_ns);
            let stepped = self.sample_step_ns();
            self.fade_out_remaining_ns = sat_sub(self.fade_out_remaining_ns, stepped);
        } else if self.is_seeking_soon {
            self.run_pending_seek();
        }
        if self.fade_in_remaining_ns > 0 {
            let num = fade_in_level(self.fade_in_remaining_ns, self.fade_in_total_ns);
            sample = attenuate(sample, num, self.fade_in_total_ns);
            let stepped = self.sample_step_ns();
            self.fade_in_remaining_ns = sat_sub(self.fade_in_remaining_ns, stepped);
        }
        Some(sample)
    }
}

/// `a - b` clamped at zero.
fn sat_sub(a: u64, b: u64) -> (r: u64)
    ensures
        r == dec_sat(a as int, b as int),
{
    if a >= b {
        a - b
    } else {
        0
    }
}

} // verus!
