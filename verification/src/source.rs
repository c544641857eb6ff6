//! The decode bridge: the pull-based source that stands between a container
//! reader with its decoder and the output sink.
//!
//! Reading packets and decoding them is done by the caller. This module holds
//! what is decided in between: in which order a file is opened and which
//! failure is reported, which packets are decoded and which are skipped, how
//! a decoded block is handed out sample by sample, and what a seek asks of
//! the container and does to the pending block.

use vstd::prelude::*;
use crate::paths::{extension, path_extension};
use crate::span::{nanos_per_sec, Span};

verus! {

/// Channel count of a source whose codec reports none.
pub const DEFAULT_CHANNELS: u16 = 2;

/// Sample rate, in hertz, of a source whose codec reports none.
pub const DEFAULT_SAMPLE_RATE: u32 = 48_000;

/// Why no source could be built for a file.
#[derive(Clone, Copy, Debug, PartialEq, Eq, Structural)]
pub enum DecodeError {
    /// The file could not be opened for reading.
    Open,
    /// No known container format was recognised.
    Probe,
    /// The container holds no default audio track.
    NoDefaultTrack,
    /// Neither codec registry has a decoder for the track.
    NoDecoder,
}

impl DecodeError {
    /// What is told about the failure.
    pub open spec fn text(self) -> Seq<char> {
        match self {
            DecodeError::Open => "Failed to open audio file"@,
            DecodeError::Probe => "Failed to probe audio file"@,
            DecodeError::NoDefaultTrack => "No default track found in audio file"@,
            DecodeError::NoDecoder => "Failed to create decoder"@,
        }
    }

    /// What is told about the failure.
    pub fn message(&self) -> (r: &'static str)
        ensures
            r@ == self.text(),
    {
        match self {
            DecodeError::Open => "Failed to open audio file",
            DecodeError::Probe => "Failed to probe audio file",
            DecodeError::NoDefaultTrack => "No default track found in audio file",
            DecodeError::NoDecoder => "Failed to create decoder",
        }
    }
}

/// The hint that helps to recognise the container of the file at `path`:
/// the extension of the file, where it has one.
pub fn format_hint(path: &str) -> (r: Option<String>)
    ensures
        r is Some <==> path_extension(path@) is Some,
        r matches Some(hint) ==> path_extension(path@) == Some(hint@),
{
    extension(path)
}

/// The codec registry that supplied the decoder.
#[derive(Clone, Copy, Debug, PartialEq, Eq, Structural)]
pub enum Registry {
    /// The registry that is tried first.
    Primary,
    /// The registry with the extended codec set, tried when the first fails.
    Extended,
}

/// Where the opening of a file stands. Each step but the last two names the
/// work that the caller does next.
#[derive(Clone, Copy, Debug, PartialEq, Eq, Structural)]
pub enum OpenStep {
    /// Open the file.
    OpenFile,
    /// Probe the container, with the hint from the file extension.
    Probe,
    /// Look up the default audio track.
    FindTrack,
    /// Ask the primary registry for a decoder.
    PrimaryDecoder,
    /// Ask the extended registry for a decoder.
    ExtendedDecoder,
    /// A decoder from the given registry is bound to the track.
    Ready(Registry),
    /// Opening has failed.
    Failed(DecodeError),
}

impl OpenStep {
    /// The step that follows `self` once its work has succeeded or failed.
    pub open spec fn next(self, succeeded: bool) -> OpenStep {
        match self {
            OpenStep::OpenFile => if succeeded {
                OpenStep::Probe
            } else {
                OpenStep::Failed(DecodeError::Open)
            },
            OpenStep::Probe => if succeeded {
                OpenStep::FindTrack
            } else {
                OpenStep::Failed(DecodeError::Probe)
            },
            OpenStep::FindTrack => if succeeded {
                OpenStep::PrimaryDecoder
            } else {
                OpenStep::Failed(DecodeError::NoDefaultTrack)
            },
            OpenStep::PrimaryDecoder => if succeeded {
                OpenStep::Ready(Registry::Primary)
            } else {
                OpenStep::ExtendedDecoder
            },
            OpenStep::ExtendedDecoder => if succeeded {
                OpenStep::Ready(Registry::Extended)
            } else {
                OpenStep::Failed(DecodeError::NoDecoder)
            },
            OpenStep::Ready(registry) => OpenStep::Ready(registry),
            OpenStep::Failed(error) => OpenStep::Failed(error),
        }
    }

    /// Whether no work is left.
    pub open spec fn is_settled(self) -> bool {
        self is Ready || self is Failed
    }

    /// The step reached from `self` after the outcomes in `outcomes`, one for
    /// each piece of work in turn.
    pub open spec fn run(self, outcomes: Seq<bool>) -> OpenStep
        decreases outcomes.len(),
    {
        if outcomes.len() == 0 {
            self
        } else {
            self.next(outcomes[0]).run(outcomes.skip(1))
        }
    }

    /// The first step of opening a file.
    pub fn start() -> (r: OpenStep)
        ensures
            r == OpenStep::OpenFile,
    {
        OpenStep::OpenFile
    }

    /// Moves on from the step whose work has just ended.
    pub fn advance(self, succeeded: bool) -> (r: OpenStep)
        ensures
            r == self.next(succeeded),
    {
        match self {
            OpenStep::OpenFile => if succeeded {
                OpenStep::Probe
            } else {
                OpenStep::Failed(DecodeError::Open)
            },
            OpenStep::Probe => if succeeded {
                OpenStep::FindTrack
            } else {
                OpenStep::Failed(DecodeError::Probe)
            },
            OpenStep::FindTrack => if succeeded {
                OpenStep::PrimaryDecoder
            } else {
                OpenStep::Failed(DecodeError::NoDefaultTrack)
            },
            OpenStep::PrimaryDecoder => if succeeded {
                OpenStep::Ready(Registry::Primary)
            } else {
                OpenStep::ExtendedDecoder
            },
            OpenStep::ExtendedDecoder => if succeeded {
                OpenStep::Ready(Registry::Extended)
            } else {
                OpenStep::Failed(DecodeError::NoDecoder)
            },
            OpenStep::Ready(registry) => OpenStep::Ready(registry),
            OpenStep::Failed(error) => OpenStep::Failed(error),
        }
    }

    /// How opening ends, or `None` while work is left.
    pub fn outcome(self) -> (r: Option<Result<Registry, DecodeError>>)
        ensures
            r is Some <==> self.is_settled(),
            self matches OpenStep::Ready(registry) ==> r == Some(
                Ok::<Registry, DecodeError>(registry),
            ),
            self matches OpenStep::Failed(error) ==> r == Some(
                Err::<Registry, DecodeError>(error),
            ),
    {
        match self {
            OpenStep::Ready(registry) => Some(Ok(registry)),
            OpenStep::Failed(error) => Some(Err(error)),
            _ => None,
        }
    }
}

/// What opening a file comes to, given how each piece of work would go: a
/// decoder from the primary registry where it has one, else one from the
/// extended registry, and otherwise the failure of the first piece of work
/// that fails.
pub open spec fn open_result(
    opened: bool,
    probed: bool,
    has_track: bool,
    primary: bool,
    extended: bool,
) -> Result<Registry, DecodeError> {
    if !opened {
        Err(DecodeError::Open)
    } else if !probed {
        Err(DecodeError::Probe)
    } else if !has_track {
        Err(DecodeError::NoDefaultTrack)
    } else if primary {
        Ok(Registry::Primary)
    } else if extended {
        Ok(Registry::Extended)
    } else {
        Err(DecodeError::NoDecoder)
    }
}

/// Opening is over after at most five pieces of work, and ends as
/// [`open_result`] says: whatever the outcomes, running the steps from the
/// first one settles, on a decoder exactly when the file opens, the container
/// is recognised, a default track exists and one of the registries has a
/// decoder.
pub proof fn law_open_settles(
    opened: bool,
    probed: bool,
    has_track: bool,
    primary: bool,
    extended: bool,
)
    ensures
        ({
            let end = OpenStep::OpenFile.next(opened).next(probed).next(has_track).next(
                primary,
            ).next(extended);
            &&& end.is_settled()
            &&& match open_result(opened, probed, has_track, primary, extended) {
                Ok(registry) => end == OpenStep::Ready(registry),
                Err(error) => end == OpenStep::Failed(error),
            }
        }),
{
}

/// A settled step stays as it is, whatever is reported afterwards.
pub proof fn law_settled_is_final(step: OpenStep, outcomes: Seq<bool>)
    requires
        step.is_settled(),
    ensures
        step.run(outcomes) == step,
    decreases outcomes.len(),
{
    if outcomes.len() > 0 {
        law_settled_is_final(step, outcomes.skip(1));
    }
}

/// The container timestamp, in ticks of `sample_rate` per second, of the
/// position `nanos` nanoseconds into the track: the whole seconds times the
/// rate, plus the part below one second times the rate, floored to a tick.
pub open spec fn seek_ticks(nanos: nat, sample_rate: u32) -> nat {
    (nanos / nanos_per_sec()) * (sample_rate as nat) + ((nanos % nanos_per_sec()) * (
    sample_rate as nat)) / nanos_per_sec()
}

/// The container timestamp for a seek to `position`, or `None` exactly when
/// it does not fit in 64 bits, which makes the request invalid.
pub fn seek_timestamp(position: Span, sample_rate: u32) -> (r: Option<u64>)
    ensures
        r is Some <==> seek_ticks(position@, sample_rate) <= u64::MAX,
        r matches Some(ticks) ==> ticks as nat == seek_ticks(position@, sample_rate),
{
    let rate: u64 = sample_rate as u64;
    let secs: u64 = position.as_secs();
    let nanos: u64 = position.subsec_nanos() as u64;
    assert(nanos * rate <= 1_000_000_000 * 0x1_0000_0000) by (nonlinear_arith)
        requires
            nanos <= 1_000_000_000,
            rate <= 0x1_0000_0000,
    ;
    let fraction: u64 = nanos * rate / 1_000_000_000;
    match secs.checked_mul(rate) {
        Some(whole) => whole.checked_add(fraction),
        None => None,
    }
}

/// The mathematical state of a decode bridge.
pub struct BridgeModel {
    /// The track of the container whose packets are decoded.
    pub track_id: u32,
    /// Decoded samples that have not been handed out yet.
    pub pending: Seq<i16>,
    /// Interleaved channels per frame.
    pub channels: u16,
    /// Frames per second.
    pub sample_rate: u32,
}

impl BridgeModel {
    /// The state after the first `count` pending samples have been handed out.
    pub open spec fn drained(self, count: nat) -> BridgeModel {
        BridgeModel { pending: self.pending.skip(count as int), ..self }
    }

    /// The state with `samples` as the pending block.
    pub open spec fn loaded(self, samples: Seq<i16>) -> BridgeModel {
        BridgeModel { pending: samples, ..self }
    }

    /// The state with no pending block.
    pub open spec fn flushed(self) -> BridgeModel {
        BridgeModel { pending: Seq::empty(), ..self }
    }
}

/// What the bridge needs next.
#[derive(Clone, Copy, Debug, PartialEq, Eq, Structural)]
pub enum BridgeStep {
    /// A sample is pending: pull it.
    SampleReady,
    /// Read the next packet from the container.
    ReadPacket,
    /// Decode the packet that was just read.
    DecodePacket,
    /// The stream has ended: there are no more samples.
    Finished,
}

/// A seek that did not take effect.
#[derive(Clone, Copy, Debug, PartialEq, Eq, Structural)]
pub enum SeekError {
    /// The container cannot seek, or the request was invalid.
    NotSupported,
}

/// The state of one decode session that is not held by the container reader
/// and the decoder themselves: the target track, the pending block with its
/// read cursor, and the fixed channel count and sample rate.
#[derive(Debug)]
pub struct DecodeBridge {
    track_id: u32,
    block: Vec<i16>,
    cursor: usize,
    channels: u16,
    sample_rate: u32,
}

impl View for DecodeBridge {
    type V = BridgeModel;

    closed spec fn view(&self) -> BridgeModel {
        BridgeModel {
            track_id: self.track_id,
            pending: if self.cursor <= self.block@.len() {
                self.block@.skip(self.cursor as int)
            } else {
                Seq::empty()
            },
            channels: self.channels,
            sample_rate: self.sample_rate,
        }
    }
}

impl DecodeBridge {
    /// A bridge for the track `track_id` with nothing decoded yet. Where the
    /// codec reports no channel count or sample rate, the source is taken to
    /// be stereo at 48 kHz.
    pub fn new(track_id: u32, channels: Option<u16>, sample_rate: Option<u32>) -> (r: DecodeBridge)
        ensures
            r@.track_id == track_id,
            r@.pending == Seq::<i16>::empty(),
            r@.channels == match channels {
                Some(count) => count,
                None => DEFAULT_CHANNELS,
            },
            r@.sample_rate == match sample_rate {
                Some(rate) => rate,
                None => DEFAULT_SAMPLE_RATE,
            },
    {
        DecodeBridge {
            track_id,
            block: Vec::new(),
            cursor: 0,
            channels: match channels {
                Some(count) => count,
                None => DEFAULT_CHANNELS,
            },
            sample_rate: match sample_rate {
                Some(rate) => rate,
                None => DEFAULT_SAMPLE_RATE,
            },
        }
    }

    /// The track whose packets are decoded.
    pub fn track_id(&self) -> (r: u32)
        ensures
            r == self@.track_id,
    {
        self.track_id
    }

    /// Interleaved channels per frame. Fixed for the life of the source.
    pub fn channels(&self) -> (r: u16)
        ensures
            r == self@.channels,
    {
        self.channels
    }

    /// Frames per second. Fixed for the life of the source.
    pub fn sample_rate(&self) -> (r: u32)
        ensures
            r == self@.sample_rate,
    {
        self.sample_rate
    }

    /// The length of the current frame: never known in advance.
    pub fn current_frame_len(&self) -> (r: Option<usize>)
        ensures
            r is None,
    {
        None
    }

    /// The total length of the stream: never known in advance.
    pub fn total_duration(&self) -> (r: Option<Span>)
        ensures
            r is None,
    {
        None
    }

    /// What the bridge needs before the next sample can be pulled.
    pub fn poll(&self) -> (r: BridgeStep)
        ensures
            r == if self@.pending.len() > 0 {
                BridgeStep::SampleReady
            } else {
                BridgeStep::ReadPacket
            },
    {
        if self.cursor < self.block.len() {
            BridgeStep::SampleReady
        } else {
            BridgeStep::ReadPacket
        }
    }

    /// Hands out the next pending sample. `None` means that the block is
    /// used up and a packet has to be read, not that the stream has ended.
    pub fn next_sample(&mut self) -> (r: Option<i16>)
        ensures
            old(self)@.pending.len() > 0 ==> r == Some(old(self)@.pending[0]) && final(self)@
                == old(self)@.drained(1),
            old(self)@.pending.len() == 0 ==> r is None && final(self)@ == old(self)@,
    {
        if self.cursor < self.block.len() {
            let sample = self.block[self.cursor];
            self.cursor = self.cursor + 1;
            assert(final(self)@.pending =~= old(self)@.pending.skip(1));
            Some(sample)
        } else {
            None
        }
    }

    /// Decides what to do with the result of reading a packet: `None` for the
    /// end of the stream or a read that failed, else the track that the
    /// packet belongs to. Packets of other tracks are skipped.
    pub fn on_packet(&self, packet_track: Option<u32>) -> (r: BridgeStep)
        ensures
            r == match packet_track {
                None => BridgeStep::Finished,
                Some(id) => if id == self@.track_id {
                    BridgeStep::DecodePacket
                } else {
                    BridgeStep::ReadPacket
                },
            },
    {
        match packet_track {
            None => BridgeStep::Finished,
            Some(id) => if id == self.track_id {
                BridgeStep::DecodePacket
            } else {
                BridgeStep::ReadPacket
            },
        }
    }

    /// Takes the result of decoding a packet: the interleaved samples, or
    /// `None` where the packet was corrupt. A corrupt packet is skipped and
    /// leaves the bridge as it was; a decoded block replaces the pending one.
    pub fn on_decoded(&mut self, decoded: Option<Vec<i16>>) -> (r: BridgeStep)
        ensures
            decoded is None ==> final(self)@ == old(self)@ && r == BridgeStep::ReadPacket,
            decoded matches Some(samples) ==> final(self)@ == old(self)@.loaded(samples@) && r
                == if samples@.len() > 0 {
                BridgeStep::SampleReady
            } else {
                BridgeStep::ReadPacket
            },
    {
        match decoded {
            None => BridgeStep::ReadPacket,
            Some(samples) => {
                let ready = samples.len() > 0;
                self.cursor = 0;
                self.block = samples;
                assert(final(self)@.pending =~= samples@);
                if ready {
                    BridgeStep::SampleReady
                } else {
                    BridgeStep::ReadPacket
                }
            },
        }
    }

    /// The container timestamp to seek to for `position`, at this source's
    /// sample rate; `None` where the request is invalid.
    pub fn seek_target(&self, position: Span) -> (r: Option<u64>)
        ensures
            r is Some <==> seek_ticks(position@, self@.sample_rate) <= u64::MAX,
            r matches Some(ticks) ==> ticks as nat == seek_ticks(position@, self@.sample_rate),
    {
        seek_timestamp(position, self.sample_rate)
    }

    /// Takes the result of the container's seek. After a seek that took
    /// effect the pending block is dropped, so that the next pull decodes
    /// from the new position. A seek that failed is reported as not
    /// supported and leaves the bridge as it was.
    pub fn try_seek(&mut self, succeeded: bool) -> (r: Result<(), SeekError>)
        ensures
            succeeded ==> r is Ok && final(self)@ == old(self)@.flushed(),
            !succeeded ==> r == Err::<(), SeekError>(SeekError::NotSupported) && final(self)@
                == old(self)@,
    {
        if succeeded {
            self.cursor = 0;
            self.block = Vec::new();
            assert(final(self)@.pending =~= Seq::<i16>::empty());
            Ok(())
        } else {
            Err(SeekError::NotSupported)
        }
    }
}

/// A decoded block is handed out whole and in order: after `count` pulls the
/// next pull yields the sample at index `count` of the block.
pub proof fn law_block_in_order(bridge: BridgeModel, samples: Seq<i16>, count: nat)
    requires
        count < samples.len(),
    ensures
        bridge.loaded(samples).drained(count).pending.len() > 0,
        bridge.loaded(samples).drained(count).pending[0] == samples[count as int],
        bridge.loaded(samples).drained(count).drained(1) == bridge.loaded(samples).drained(
            count + 1,
        ),
{
    assert(samples.skip(count as int).skip(1) =~= samples.skip(count as int + 1));
}

/// Once every sample of a block has been handed out, nothing is pending.
pub proof fn law_block_used_up(bridge: BridgeModel, samples: Seq<i16>)
    ensures
        bridge.loaded(samples).drained(samples.len()).pending.len() == 0,
{
}

/// One packet of a stream, as far as the bridge is concerned: the track
/// that it belongs to, and the samples that it decodes to, or nothing where
/// it is corrupt.
pub struct PacketModel {
    pub track_id: u32,
    pub decoded: Option<Seq<i16>>,
}

/// The samples that the packets in `feed` hold for the track `track_id`:
/// the blocks of the packets of that track that can be decoded, one after
/// the other.
pub open spec fn stream_samples(track_id: u32, feed: Seq<PacketModel>) -> Seq<i16>
    decreases feed.len(),
{
    if feed.len() == 0 {
        Seq::empty()
    } else if feed[0].track_id == track_id && feed[0].decoded is Some {
        feed[0].decoded->0 + stream_samples(track_id, feed.skip(1))
    } else {
        stream_samples(track_id, feed.skip(1))
    }
}

impl BridgeModel {
    /// What one pull comes to for a caller that follows the steps, with
    /// `feed` as the packets that the container still holds: the sample, the
    /// state after it and the packets that are left; or nothing once the
    /// stream has ended. A pending sample is handed out. Otherwise packets
    /// are read until one of them leaves a sample pending: packets of other
    /// tracks and corrupt packets are passed over, and a decoded block takes
    /// the place of the pending one.
    pub open spec fn pull(self, feed: Seq<PacketModel>) -> Option<
        (i16, BridgeModel, Seq<PacketModel>),
    >
        decreases feed.len(), self.pending.len(),
    {
        if self.pending.len() > 0 {
            Some((self.pending[0], self.drained(1), feed))
        } else if feed.len() == 0 {
            None
        } else if feed[0].track_id != self.track_id {
            self.pull(feed.skip(1))
        } else {
            match feed[0].decoded {
                None => self.pull(feed.skip(1)),
                Some(samples) => self.loaded(samples).pull(feed.skip(1)),
            }
        }
    }

    /// Every sample that is still to come: the pending ones, then those of
    /// the packets in `feed`.
    pub open spec fn upcoming(self, feed: Seq<PacketModel>) -> Seq<i16> {
        self.pending + stream_samples(self.track_id, feed)
    }
}

/// The samples come out in the order of the stream, none is lost and none
/// is made up: a pull hands out the first of the samples that are still to
/// come and leaves the others to come, and it hands out nothing exactly
/// when none is left. Packets of other tracks and corrupt packets change
/// nothing about this.
pub proof fn law_pull_follows_the_stream(bridge: BridgeModel, feed: Seq<PacketModel>)
    ensures
        bridge.pull(feed) is None <==> bridge.upcoming(feed).len() == 0,
        bridge.pull(feed) matches Some(pulled) ==> pulled.0 == bridge.upcoming(feed)[0]
            && pulled.1.upcoming(pulled.2) == bridge.upcoming(feed).skip(1) && pulled.1.track_id
            == bridge.track_id && pulled.1.channels == bridge.channels && pulled.1.sample_rate
            == bridge.sample_rate,
    decreases feed.len(), bridge.pending.len(),
{
    if bridge.pending.len() > 0 {
        assert(bridge.drained(1).upcoming(feed) =~= bridge.upcoming(feed).skip(1));
    } else if feed.len() == 0 {
    } else if feed[0].track_id != bridge.track_id {
        law_pull_follows_the_stream(bridge, feed.skip(1));
        assert(bridge.upcoming(feed) =~= bridge.upcoming(feed.skip(1)));
    } else {
        match feed[0].decoded {
            None => {
                law_pull_follows_the_stream(bridge, feed.skip(1));
                assert(bridge.upcoming(feed) =~= bridge.upcoming(feed.skip(1)));
            },
            Some(samples) => {
                law_pull_follows_the_stream(bridge.loaded(samples), feed.skip(1));
                assert(bridge.upcoming(feed) =~= bridge.loaded(samples).upcoming(feed.skip(1)));
            },
        }
    }
}

} // verus!
