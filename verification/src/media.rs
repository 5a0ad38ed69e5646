//! The trusted boundary around the symphonia media framework.
//!
//! Everything symphonia does — probing a container held in memory,
//! instantiating a codec, fetching packets, decoding them, coarse seeking —
//! happens behind the items of this module. The handles keep the
//! framework's trait objects in private fields; every value that the
//! verified logic reads crosses the boundary as a plain integer, vector or
//! enum. What a packet decodes to depends on the stream's bytes in ways no
//! short statement could pin down, so the contracts here state only the
//! shape of each outcome, and the verified decode logic is proved for every
//! value these items may hand back.

use vstd::prelude::*;

verus! {

/// A failure reported by the media framework, with the field of the
/// framework's error moved over as a plain value.
#[derive(Debug, Clone)]
pub enum StreamFault {
    /// An IO error occurred while reading or seeking the stream.
    Io(String),
    /// The stream contained malformed data; the one retryable kind.
    Decode(&'static str),
    /// The stream could not be seeked.
    Seek,
    /// An unsupported container or codec feature was encountered.
    Unsupported(&'static str),
    /// A resource or size guard tripped while decoding or demuxing.
    Limit(&'static str),
    /// The demuxer or decoder needs a reset before continuing.
    Reset,
}

/// The plain facts about a container's default track that the engine's
/// logic reads: its identifier, its time base as a rational number of
/// seconds per timestamp unit, and its total frame count where known.
#[derive(Clone, Copy, Debug)]
pub struct TrackMeta {
    pub id: u32,
    pub time_base: Option<(u32, u32)>,
    pub n_frames: Option<u64>,
}

/// One decoded packet's worth of audio as plain values: the interleaved
/// fixed-point samples and the signal spec they were decoded under.
pub struct Chunk {
    pub samples: Vec<i16>,
    pub rate: u32,
    pub channels: u16,
}

#[verifier::external_type_specification]
#[verifier::external_body]
pub struct ExPacket(symphonia::core::formats::Packet);

#[verifier::external_type_specification]
#[verifier::external_body]
pub struct ExError(symphonia::core::errors::Error);

/// A probed container format: the framework's demuxer for one stream,
/// held as a trait object that only the trusted items below touch.
#[verifier::external_body]
pub struct FormatHandle {
    reader: Box<dyn symphonia::core::formats::FormatReader>,
}

/// An instantiated codec for the container's default track, held as a
/// trait object that only the trusted items below touch.
#[verifier::external_body]
pub struct CodecHandle {
    decoder: Box<dyn symphonia::core::codecs::Decoder>,
}

/// Relies on symphonia's error enum: moves each variant's message over,
/// and on `std::io::Error`'s text form for the IO case.
#[verifier::external_body]
fn fault_of(e: symphonia::core::errors::Error) -> (r: StreamFault) {
    match e {
        symphonia::core::errors::Error::IoError(err) => StreamFault::Io(format!("{}", err)),
        symphonia::core::errors::Error::DecodeError(m) => StreamFault::Decode(m),
        symphonia::core::errors::Error::SeekError(_) => StreamFault::Seek,
        symphonia::core::errors::Error::Unsupported(m) => StreamFault::Unsupported(m),
        symphonia::core::errors::Error::LimitError(m) => StreamFault::Limit(m),
        symphonia::core::errors::Error::ResetRequired => StreamFault::Reset,
    }
}

/// Relies on `Probe::format` to find a recognized container in a stream
/// of bytes held in memory, prebuilding a seek index, and on
/// `MediaSourceStream::new` over a cursor to present the bytes as a
/// media source. Returns the demuxer for the stream.
#[verifier::external_body]
pub(crate) fn probe_format(data: Vec<u8>, gapless: bool) -> (r: Result<FormatHandle, StreamFault>) {
    let mss = symphonia::core::io::MediaSourceStream::new(
        Box::new(std::io::Cursor::new(data)),
        symphonia::core::io::MediaSourceStreamOptions::default(),
    );
    let opts = symphonia::core::formats::FormatOptions { prebuild_seek_index: true, seek_index_fill_rate: 10, enable_gapless: gapless };
    match symphonia::default::get_probe().format(&symphonia::core::probe::Hint::default(), mss, &opts, &symphonia::core::meta::MetadataOptions::default()) {
        Ok(probed) => Ok(FormatHandle { reader: probed.format }),
        Err(e) => Err(fault_of(e)),
    }
}

/// Relies on `FormatReader::default_track`: hands over the default track's
/// identifier, time base and frame count as plain values, or `None` where
/// the container has no default track.
#[verifier::external_body]
pub(crate) fn default_track_meta(format: &FormatHandle) -> (r: Option<TrackMeta>) {
    format.reader.default_track().map(|t| TrackMeta {
        id: t.id,
        time_base: t.codec_params.time_base.map(|tb| (tb.numer, tb.denom)),
        n_frames: t.codec_params.n_frames,
    })
}

/// Relies on `CodecRegistry::make` to instantiate a codec for the
/// default track — fetched again through `FormatReader::default_track` —
/// with integrity verification enabled. `None` where the container has
/// no default track.
#[verifier::external_body]
pub(crate) fn make_codec(format: &FormatHandle) -> (r: Option<Result<CodecHandle, StreamFault>>) {
    let track = format.reader.default_track()?;
    let made = symphonia::default::get_codecs().make(&track.codec_params, &symphonia::core::codecs::DecoderOptions { verify: true });
    Some(match made {
        Ok(decoder) => Ok(CodecHandle { decoder }),
        Err(e) => Err(fault_of(e)),
    })
}

/// Relies on `FormatReader::next_packet`: fetches the next packet of the
/// container, or the failure that ended the stream.
#[verifier::external_body]
pub(crate) fn next_packet(format: &mut FormatHandle) -> (r: Result<symphonia::core::formats::Packet, StreamFault>) {
    format.reader.next_packet().map_err(fault_of)
}

/// Relies on `Packet::ts`: the packet's timestamp in the units of its
/// track's time base.
#[verifier::external_body]
pub(crate) fn packet_ts(packet: &symphonia::core::formats::Packet) -> (r: u64) {
    packet.ts()
}

/// Relies on `Decoder::decode` to turn one packet into audio, and on
/// `SampleBuffer::copy_interleaved_ref` (with `SignalSpec` and
/// `Channels::count`) to lay the decoded audio out as plain interleaved
/// `i16` samples with their rate and channel count.
#[verifier::external_body]
pub(crate) fn decode_packet(codec: &mut CodecHandle, packet: &symphonia::core::formats::Packet) -> (r: Result<Chunk, StreamFault>) {
    match codec.decoder.decode(packet) {
        Ok(decoded) => {
            let spec = *decoded.spec();
            let mut buf = symphonia::core::audio::SampleBuffer::<i16>::new(decoded.capacity() as u64, spec);
            buf.copy_interleaved_ref(decoded);
            Ok(Chunk {
                samples: buf.samples().to_vec(),
                rate: spec.rate,
                channels: spec.channels.count() as u16,
            })
        },
        Err(e) => Err(fault_of(e)),
    }
}

/// Relies on `FormatReader::seek`: a coarse seek to a timestamp of the
/// given track, best-effort, landing at the nearest indexed position. On
/// success hands back the timestamp actually seeked to.
#[verifier::external_body]
pub(crate) fn seek_track(format: &mut FormatHandle, ts: u64, track_id: u32) -> (r: Result<
    u64,
    StreamFault,
>) {
    match format.reader.seek(symphonia::core::formats::SeekMode::Coarse, symphonia::core::formats::SeekTo::TimeStamp { ts, track_id }) {
        Ok(to) => Ok(to.actual_ts),
        Err(e) => Err(fault_of(e)),
    }
}

} // verus!
