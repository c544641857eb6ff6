//! The playback controller: the one component that the rest of the program
//! talks to for playback.
//!
//! The controller owns the current track, its metadata, what it knows of the
//! output sink and the position bookkeeping, all in one value with one owner.
//! It touches neither files nor the audio device. Each operation takes the
//! current time and what the caller has observed, updates the state, and
//! answers with the action that the caller has to perform on the sink.

use vstd::prelude::*;
use crate::metadata::TrackMetadata;
use crate::source::DecodeError;
use crate::span::{nanos_per_sec, span_limit, Span};
use crate::text::{push_str, string_of};
use crate::tracker::{PositionTracker, TrackerModel};

verus! {

/// What the controller knows of the output sink of the current track.
#[derive(Clone, Copy, Debug, PartialEq, Eq, Structural)]
pub struct SinkStatus {
    /// The sink has been told to pause and not yet to play again.
    pub paused: bool,
    /// The sink has played its source to the end.
    pub empty: bool,
}

/// What the caller has to do to the output sink after an operation.
#[derive(Clone, Copy, Debug, PartialEq, Eq, Structural)]
pub enum SinkAction {
    /// Leave the sink alone.
    Nothing,
    /// Pause the sink.
    Pause,
    /// Let the sink play again.
    Play,
    /// Stop the sink and drop it.
    Stop,
    /// Ask the sink to seek to the given position, then report the result
    /// with [`Player::seek_finished`].
    Seek(Span),
}

/// Why a track could not be started.
#[derive(Clone, Copy, Debug, PartialEq, Eq, Structural)]
pub enum PlayError {
    /// The file is missing or cannot be opened.
    Open,
    /// The length of the file cannot be read.
    FileMetadata,
    /// The file holds no bytes.
    EmptyFile,
    /// No decode session could be built, for the given reason.
    Decode(DecodeError),
    /// No sink could be created on the output device.
    Sink,
}

impl PlayError {
    /// What is told about the failure to play the file at `path`: the kind
    /// of failure, and the path where a file is at fault.
    pub open spec fn text(self, path: Seq<char>) -> Seq<char> {
        match self {
            PlayError::Open => "Failed to open audio file: "@ + path,
            PlayError::FileMetadata => "Failed to read file metadata: "@ + path,
            PlayError::EmptyFile => "Audio file is empty: "@ + path,
            PlayError::Decode(_) => "Failed to decode audio file: "@ + path,
            PlayError::Sink => "Failed to create audio sink"@,
        }
    }

    /// What is told about the failure to play the file at `path`.
    pub fn message(&self, path: &str) -> (r: String)
        ensures
            r@ == self.text(path@),
    {
        let mut out: Vec<char> = Vec::new();
        match self {
            PlayError::Open => {
                push_str(&mut out, "Failed to open audio file: ");
                push_str(&mut out, path);
            },
            PlayError::FileMetadata => {
                push_str(&mut out, "Failed to read file metadata: ");
                push_str(&mut out, path);
            },
            PlayError::EmptyFile => {
                push_str(&mut out, "Audio file is empty: ");
                push_str(&mut out, path);
            },
            PlayError::Decode(_) => {
                push_str(&mut out, "Failed to decode audio file: ");
                push_str(&mut out, path);
            },
            PlayError::Sink => {
                push_str(&mut out, "Failed to create audio sink");
            },
        }
        assert(out@ =~= self.text(path@));
        string_of(&out)
    }
}

/// Checks a file before any decoding is tried: `opened` says whether it
/// could be opened, `length` is its length in bytes where that could be
/// read. A file without bytes is refused with an error of its own.
pub fn check_file(opened: bool, length: Option<u64>) -> (r: Result<(), PlayError>)
    ensures
        r is Ok <==> opened && length is Some && length != Some(0u64),
        r == Err::<(), PlayError>(PlayError::Open) <==> !opened,
        r == Err::<(), PlayError>(PlayError::FileMetadata) <==> opened && length is None,
        r == Err::<(), PlayError>(PlayError::EmptyFile) <==> opened && length == Some(0u64),
{
    if !opened {
        Err(PlayError::Open)
    } else {
        match length {
            None => Err(PlayError::FileMetadata),
            Some(bytes) => if bytes == 0 {
                Err(PlayError::EmptyFile)
            } else {
                Ok(())
            },
        }
    }
}

/// How far a track has been played, as a fraction of whole seconds.
#[derive(Clone, Copy, Debug, PartialEq, Eq, Structural)]
pub struct Progress {
    /// Seconds played, never more than `total_secs`.
    pub played_secs: u64,
    /// Length of the track in seconds, never zero.
    pub total_secs: u64,
}

/// The mathematical state of a player.
pub struct PlayerModel {
    /// The sink of the current track, if there is one.
    pub sink: Option<SinkStatus>,
    /// The path of the current track.
    pub track: Option<Seq<char>>,
    /// The metadata of the current track, where it could be read.
    pub metadata: Option<TrackMetadata>,
    /// The position bookkeeping.
    pub tracker: TrackerModel,
}

impl PlayerModel {
    /// The state of a player that plays nothing.
    pub open spec fn idle() -> PlayerModel {
        PlayerModel { sink: None, track: None, metadata: None, tracker: TrackerModel::cleared() }
    }

    /// A sink exists, is not paused and has not run empty.
    pub open spec fn is_playing(self) -> bool {
        self.sink matches Some(sink) && !sink.paused && !sink.empty
    }

    /// A sink exists and is paused.
    pub open spec fn is_paused(self) -> bool {
        self.sink matches Some(sink) && sink.paused
    }

    /// No sink exists, or the sink has run empty.
    pub open spec fn is_finished(self) -> bool {
        match self.sink {
            Some(sink) => sink.empty,
            None => true,
        }
    }

    /// The playback position at `now`, in nanoseconds.
    pub open spec fn elapsed(self, now: nat) -> nat {
        self.tracker.elapsed(self.is_paused(), now)
    }

    /// What holds of every state that the operations can reach from
    /// [`PlayerModel::idle`]: without a sink nothing is current and nothing
    /// has elapsed; with a sink there is a current track and a segment start.
    pub open spec fn wf(self) -> bool {
        match self.sink {
            None => self == Self::idle(),
            Some(_) => self.track is Some && self.tracker.segment_start is Some,
        }
    }

    /// The state after `path` has started to play at `now`: a fresh sink that
    /// is neither paused nor empty, and the position back at zero.
    pub open spec fn started(
        self,
        path: Seq<char>,
        metadata: Option<TrackMetadata>,
        now: nat,
    ) -> PlayerModel {
        PlayerModel {
            sink: Some(SinkStatus { paused: false, empty: false }),
            track: Some(path),
            metadata,
            tracker: TrackerModel::started(now),
        }
    }

    /// Whether a pause has anything to do: there is a sink and it is not
    /// paused already.
    pub open spec fn can_pause(self) -> bool {
        self.sink is Some && !self.is_paused()
    }

    /// The state after a pause at `now`.
    pub open spec fn paused_at(self, now: nat) -> PlayerModel {
        if self.can_pause() {
            PlayerModel {
                sink: Some(SinkStatus { paused: true, empty: self.sink->0.empty }),
                tracker: self.tracker.frozen(now),
                ..self
            }
        } else {
            self
        }
    }

    /// The state after a resume at `now`.
    pub open spec fn resumed_at(self, now: nat) -> PlayerModel {
        if self.is_paused() {
            PlayerModel {
                sink: Some(SinkStatus { paused: false, empty: self.sink->0.empty }),
                tracker: self.tracker.resumed(now),
                ..self
            }
        } else {
            self
        }
    }

    /// The state after the sink has played its source to the end.
    pub open spec fn drained(self) -> PlayerModel {
        match self.sink {
            Some(sink) => PlayerModel {
                sink: Some(SinkStatus { paused: sink.paused, empty: true }),
                ..self
            },
            None => self,
        }
    }

    /// The position that a forward seek by `seconds` asks for at `now`.
    pub open spec fn forward_target(self, seconds: u64, now: nat) -> nat {
        self.elapsed(now) + (seconds as nat) * nanos_per_sec()
    }

    /// The position that a backward seek by `seconds` asks for at `now`:
    /// the start of the track where the seek reaches further back than that.
    pub open spec fn backward_target(self, seconds: u64, now: nat) -> nat {
        if self.elapsed(now) >= (seconds as nat) * nanos_per_sec() {
            (self.elapsed(now) - (seconds as nat) * nanos_per_sec()) as nat
        } else {
            0
        }
    }

    /// The state after the sink has answered a seek to `target` at `now`.
    /// Only a seek that took effect, on a sink that still exists, moves the
    /// position.
    pub open spec fn sought(self, target: nat, succeeded: bool, now: nat) -> PlayerModel {
        if succeeded && self.sink is Some {
            PlayerModel { tracker: self.tracker.moved(target, now), ..self }
        } else {
            self
        }
    }

    /// The length of the current track in seconds, where it is known and
    /// not zero.
    pub open spec fn known_length(self) -> Option<u64> {
        match self.metadata {
            Some(metadata) => match metadata.duration_secs {
                Some(total) => if total > 0 {
                    Some(total)
                } else {
                    None
                },
                None => None,
            },
            None => None,
        }
    }

    /// The progress through the current track at `now`: the whole seconds
    /// played over the length of the track, held at one where the position
    /// has passed the length; nothing where the length is unknown or zero.
    pub open spec fn progress(self, now: nat) -> Option<Progress> {
        match self.known_length() {
            Some(total) => {
                let played = self.elapsed(now) / nanos_per_sec();
                Some(
                    Progress {
                        played_secs: if played <= total {
                            played as u64
                        } else {
                            total
                        },
                        total_secs: total,
                    },
                )
            },
            None => None,
        }
    }
}

/// The playback controller.
#[derive(Debug)]
pub struct Player {
    sink: Option<SinkStatus>,
    current_track: Option<String>,
    current_metadata: Option<TrackMetadata>,
    tracker: PositionTracker,
}

impl View for Player {
    type V = PlayerModel;

    closed spec fn view(&self) -> PlayerModel {
        PlayerModel {
            sink: self.sink,
            track: match self.current_track {
                Some(path) => Some(path@),
                None => None,
            },
            metadata: self.current_metadata,
            tracker: self.tracker@,
        }
    }
}

impl Player {
    /// Every player is in a state that [`PlayerModel::wf`] admits.
    #[verifier::type_invariant]
    pub closed spec fn wf(self) -> bool {
        self@.wf()
    }

    /// A player that plays nothing.
    pub fn new() -> (r: Player)
        ensures
            r@ == PlayerModel::idle(),
    {
        Player {
            sink: None,
            current_track: None,
            current_metadata: None,
            tracker: PositionTracker::new(),
        }
    }

    /// Takes the result of preparing `path` for playback. `prepared` is the
    /// metadata of the track (or `None` where none could be read, which is no
    /// failure) once the file has been checked, the decode session built and
    /// a sink created with the session as its source; otherwise it is the
    /// first failure. On success the track becomes current and its position
    /// starts at zero at `now`; what was current before is gone. On failure
    /// nothing changes and the failure is handed back.
    pub fn play(
        &mut self,
        path: String,
        prepared: Result<Option<TrackMetadata>, PlayError>,
        now: Span,
    ) -> (r: Result<(), PlayError>)
        ensures
            match prepared {
                Ok(metadata) => r is Ok && final(self)@ == old(self)@.started(
                    path@,
                    metadata,
                    now@,
                ),
                Err(error) => r == Err::<(), PlayError>(error) && final(self)@ == old(self)@,
            },
    {
        match prepared {
            Ok(metadata) => {
                *self = Player {
                    sink: Some(SinkStatus { paused: false, empty: false }),
                    current_track: Some(path),
                    current_metadata: metadata,
                    tracker: PositionTracker::starting(now),
                };
                Ok(())
            },
            Err(error) => Err(error),
        }
    }

    /// Whether the position at `now`, moved `ahead` seconds forward, is a
    /// length of time that a [`Span`] can hold. The operations that compute
    /// a position ask for this.
    pub fn in_range(&self, now: Span, ahead: u64) -> (r: bool)
        ensures
            r == (self@.forward_target(ahead, now@) <= span_limit()),
    {
        self.tracker.in_range(self.is_paused(), now, ahead)
    }

    /// Pauses playback at `now`. Nothing happens without a sink or when
    /// paused already. Otherwise the position is frozen first, and the
    /// answer tells the caller to pause the sink after that.
    pub fn pause(&mut self, now: Span) -> (r: SinkAction)
        requires
            old(self)@.can_pause() ==> old(self)@.elapsed(now@) <= span_limit(),
        ensures
            final(self)@ == old(self)@.paused_at(now@),
            r == if old(self)@.can_pause() {
                SinkAction::Pause
            } else {
                SinkAction::Nothing
            },
    {
        proof {
            use_type_invariant(&*self);
        }
        match self.sink {
            Some(sink) => {
                if sink.paused {
                    SinkAction::Nothing
                } else {
                    let mut tracker = self.tracker;
                    tracker.freeze(now);
                    self.tracker = tracker;
                    self.sink = Some(SinkStatus { paused: true, empty: sink.empty });
                    SinkAction::Pause
                }
            },
            None => SinkAction::Nothing,
        }
    }

    /// Resumes playback at `now`. Nothing happens unless the sink is paused.
    /// Otherwise a new segment begins at `now`, and the answer tells the
    /// caller to let the sink play.
    pub fn resume(&mut self, now: Span) -> (r: SinkAction)
        ensures
            final(self)@ == old(self)@.resumed_at(now@),
            r == if old(self)@.is_paused() {
                SinkAction::Play
            } else {
                SinkAction::Nothing
            },
    {
        proof {
            use_type_invariant(&*self);
        }
        match self.sink {
            Some(sink) => {
                if sink.paused {
                    let mut tracker = self.tracker;
                    tracker.resume(now);
                    self.tracker = tracker;
                    self.sink = Some(SinkStatus { paused: false, empty: sink.empty });
                    SinkAction::Play
                } else {
                    SinkAction::Nothing
                }
            },
            None => SinkAction::Nothing,
        }
    }

    /// Stops playback: the track, its metadata and the position are
    /// forgotten. The answer tells the caller to stop the sink, if there
    /// was one.
    pub fn stop(&mut self) -> (r: SinkAction)
        ensures
            final(self)@ == PlayerModel::idle(),
            r == if old(self)@.sink is Some {
                SinkAction::Stop
            } else {
                SinkAction::Nothing
            },
    {
        let action = if self.sink.is_some() {
            SinkAction::Stop
        } else {
            SinkAction::Nothing
        };
        *self = Player::new();
        action
    }

    /// Records that the sink has played its source to the end.
    pub fn sink_drained(&mut self)
        ensures
            final(self)@ == old(self)@.drained(),
    {
        proof {
            use_type_invariant(&*self);
        }
        match self.sink {
            Some(sink) => {
                self.sink = Some(SinkStatus { paused: sink.paused, empty: true });
            },
            None => {},
        }
    }

    /// Whether a track is playing: not without a sink.
    pub fn is_playing(&self) -> (r: bool)
        ensures
            r == self@.is_playing(),
    {
        match self.sink {
            Some(sink) => !sink.paused && !sink.empty,
            None => false,
        }
    }

    /// Whether playback is paused: not without a sink.
    pub fn is_paused(&self) -> (r: bool)
        ensures
            r == self@.is_paused(),
    {
        match self.sink {
            Some(sink) => sink.paused,
            None => false,
        }
    }

    /// Whether the track has been played to the end: so without a sink.
    pub fn is_finished(&self) -> (r: bool)
        ensures
            r == self@.is_finished(),
    {
        match self.sink {
            Some(sink) => sink.empty,
            None => true,
        }
    }

    /// The path of the current track.
    pub fn current_track(&self) -> (r: Option<&String>)
        ensures
            r is Some <==> self@.track is Some,
            r matches Some(path) ==> self@.track == Some(path@),
    {
        self.current_track.as_ref()
    }

    /// The metadata of the current track.
    pub fn current_metadata(&self) -> (r: Option<&TrackMetadata>)
        ensures
            r is Some <==> self@.metadata is Some,
            r matches Some(metadata) ==> self@.metadata == Some(*metadata),
    {
        self.current_metadata.as_ref()
    }

    /// The playback position at `now` and the progress through the track.
    /// There is no progress where the length of the track is unknown or zero.
    pub fn get_position_and_progress(&self, now: Span) -> (r: (Span, Option<Progress>))
        requires
            self@.elapsed(now@) <= span_limit(),
        ensures
            r.0@ == self@.elapsed(now@),
            r.1 == self@.progress(now@),
    {
        let position = self.tracker.elapsed(self.is_paused(), now);
        let progress = match &self.current_metadata {
            Some(metadata) => match metadata.duration_secs {
                Some(total) => {
                    if total > 0 {
                        let played = position.as_secs();
                        Some(
                            Progress {
                                played_secs: if played <= total {
                                    played
                                } else {
                                    total
                                },
                                total_secs: total,
                            },
                        )
                    } else {
                        None
                    }
                },
                None => None,
            },
            None => None,
        };
        (position, progress)
    }

    /// Begins a seek `seconds` forward from the position at `now`. With a
    /// sink the answer is the seek to ask of it; without one nothing is to
    /// be done. The state changes only in [`Player::seek_finished`].
    pub fn seek_forward(&self, seconds: u64, now: Span) -> (r: SinkAction)
        requires
            self@.forward_target(seconds, now@) <= span_limit(),
        ensures
            self@.sink is None ==> r == SinkAction::Nothing,
            self@.sink is Some ==> (r matches SinkAction::Seek(target) && target@
                == self@.forward_target(seconds, now@)),
    {
        let current = self.tracker.elapsed(self.is_paused(), now);
        let target = current.checked_add(Span::from_secs(seconds)).unwrap();
        if self.sink.is_some() {
            SinkAction::Seek(target)
        } else {
            SinkAction::Nothing
        }
    }

    /// Begins a seek `seconds` backward from the position at `now`, which
    /// stops at the start of the track. With a sink the answer is the seek
    /// to ask of it; without one nothing is to be done.
    pub fn seek_backward(&self, seconds: u64, now: Span) -> (r: SinkAction)
        requires
            self@.elapsed(now@) <= span_limit(),
        ensures
            self@.sink is None ==> r == SinkAction::Nothing,
            self@.sink is Some ==> (r matches SinkAction::Seek(target) && target@
                == self@.backward_target(seconds, now@)),
    {
        let current = self.tracker.elapsed(self.is_paused(), now);
        let target = current.saturating_sub(Span::from_secs(seconds));
        if self.sink.is_some() {
            SinkAction::Seek(target)
        } else {
            SinkAction::Nothing
        }
    }

    /// Takes the sink's answer to a seek to `target`. A seek that took effect
    /// moves the position to `target` as of `now`. A seek that did not leaves
    /// everything as it was, and playback goes on from where it is.
    pub fn seek_finished(&mut self, target: Span, succeeded: bool, now: Span)
        ensures
            final(self)@ == old(self)@.sought(target@, succeeded, now@),
    {
        proof {
            use_type_invariant(&*self);
        }
        if succeeded && self.sink.is_some() {
            let mut tracker = self.tracker;
            tracker.relocate(target, now);
            self.tracker = tracker;
        }
    }
}

/// Right after a track has started it is not finished.
pub proof fn law_started_track_is_not_finished(
    player: PlayerModel,
    path: Seq<char>,
    metadata: Option<TrackMetadata>,
    now: nat,
)
    ensures
        !player.started(path, metadata, now).is_finished(),
        player.started(path, metadata, now).is_playing(),
        player.started(path, metadata, now).elapsed(now) == 0,
{
}

/// A pause followed by a resume, with no seek between them, loses and gains
/// no track time: at any moment `later` the position is the one before the
/// pause plus the wall-clock time that has passed since the resume, and so
/// right after the resume it is the position right before the pause.
pub proof fn law_pause_resume_keeps_position(
    player: PlayerModel,
    paused_at: nat,
    resumed_at: nat,
    later: nat,
)
    requires
        player.wf(),
    ensures
        player.paused_at(paused_at).resumed_at(resumed_at).elapsed(resumed_at) == player.elapsed(
            paused_at,
        ),
        player.sink is Some ==> player.paused_at(paused_at).resumed_at(resumed_at).elapsed(later)
            == player.elapsed(paused_at) + TrackerModel::since(resumed_at, later),
{
}

/// While playback is paused the position stands still.
pub proof fn law_paused_position_stands_still(player: PlayerModel, first: nat, second: nat)
    requires
        player.is_paused(),
    ensures
        player.elapsed(first) == player.elapsed(second),
{
}

/// Pausing twice in a row is the same as pausing once: the second pause
/// changes nothing, so the frozen position is the one of the first.
pub proof fn law_pause_is_idempotent(player: PlayerModel, first: nat, second: nat, later: nat)
    ensures
        player.paused_at(first).paused_at(second) == player.paused_at(first),
        player.paused_at(first).paused_at(second).elapsed(later) == player.paused_at(
            first,
        ).elapsed(later),
        player.sink is Some ==> player.paused_at(first).elapsed(later) == player.elapsed(first),
{
}

/// A forward seek by `seconds` followed by a backward seek by the same
/// amount, both taking effect, leads back to the position before the first
/// seek, plus the wall-clock time that passed while playing between the
/// first seek taking effect and the second being asked for.
pub proof fn law_seek_there_and_back(
    player: PlayerModel,
    seconds: u64,
    forward_asked: nat,
    forward_done: nat,
    backward_asked: nat,
    backward_done: nat,
)
    requires
        player.sink is Some,
    ensures
        ({
            let there = player.sought(
                player.forward_target(seconds, forward_asked),
                true,
                forward_done,
            );
            let back = there.sought(
                there.backward_target(seconds, backward_asked),
                true,
                backward_done,
            );
            back.elapsed(backward_done) == player.elapsed(forward_asked) + if player.is_paused() {
                0
            } else {
                TrackerModel::since(forward_done, backward_asked)
            }
        }),
{
}

/// A backward seek never asks for a position before the start of the track
/// or after the current one; it asks for the start exactly when it reaches
/// at least as far back as the track has played.
pub proof fn law_backward_seek_stops_at_start(player: PlayerModel, seconds: u64, now: nat)
    ensures
        0 <= player.backward_target(seconds, now) <= player.elapsed(now),
        (seconds as nat) * nanos_per_sec() >= player.elapsed(now) <==> player.backward_target(
            seconds,
            now,
        ) == 0,
        (seconds as nat) * nanos_per_sec() <= player.elapsed(now) ==> player.backward_target(
            seconds,
            now,
        ) + (seconds as nat) * nanos_per_sec() == player.elapsed(now),
{
}

/// A seek that did not take effect changes nothing, and the position goes
/// on from where it was.
pub proof fn law_failed_seek_changes_nothing(player: PlayerModel, target: nat, now: nat)
    ensures
        player.sought(target, false, now) == player,
{
}

/// A seek that took effect puts the position at the target, and leaves
/// playing and paused as they were.
pub proof fn law_seek_moves_position(player: PlayerModel, target: nat, now: nat)
    requires
        player.sink is Some,
    ensures
        player.sought(target, true, now).elapsed(now) == target,
        player.sought(target, true, now).is_paused() == player.is_paused(),
        player.sought(target, true, now).is_playing() == player.is_playing(),
        player.sought(target, true, now).is_finished() == player.is_finished(),
{
}

/// There is progress exactly when the length of the track is known and not
/// zero, and then it lies between zero and one.
pub proof fn law_progress_is_a_fraction(player: PlayerModel, now: nat)
    ensures
        player.progress(now) is None <==> (player.metadata is None
            || player.metadata->0.duration_secs is None || player.metadata->0.duration_secs
            == Some(0u64)),
        player.progress(now) matches Some(progress) ==> 0 <= progress.played_secs
            <= progress.total_secs && progress.total_secs > 0 && Some(progress.total_secs)
            == player.metadata->0.duration_secs,
{
}

/// With no seek and no other operation in between, position and progress
/// never go back as time goes on.
pub proof fn law_progress_never_goes_back(player: PlayerModel, earlier: nat, later: nat)
    requires
        earlier <= later,
    ensures
        player.elapsed(earlier) <= player.elapsed(later),
        player.progress(earlier) is Some <==> player.progress(later) is Some,
        player.progress(earlier) matches Some(before) ==> before.played_secs
            <= player.progress(later)->0.played_secs && before.total_secs == player.progress(
            later,
        )->0.total_secs,
{
    let first = player.elapsed(earlier);
    let second = player.elapsed(later);
    assert(first / nanos_per_sec() <= second / nanos_per_sec()) by (nonlinear_arith)
        requires
            first <= second,
            nanos_per_sec() == 1_000_000_000,
    ;
}

/// Once the position has reached the length of the track, progress is one.
pub proof fn law_progress_ends_at_one(player: PlayerModel, now: nat)
    requires
        player.known_length() matches Some(total) && player.elapsed(now) >= (total as nat)
            * nanos_per_sec(),
    ensures
        player.progress(now) matches Some(progress) && progress.played_secs
            == progress.total_secs,
{
    let total = player.known_length()->0 as nat;
    let position = player.elapsed(now);
    assert(position / nanos_per_sec() >= total) by (nonlinear_arith)
        requires
            position >= total * nanos_per_sec(),
            nanos_per_sec() == 1_000_000_000,
    ;
}

/// Every operation leaves a well-formed state well-formed, and the idle
/// state is well-formed.
pub proof fn law_operations_preserve_wf(
    player: PlayerModel,
    path: Seq<char>,
    metadata: Option<TrackMetadata>,
    target: nat,
    succeeded: bool,
    now: nat,
)
    requires
        player.wf(),
    ensures
        PlayerModel::idle().wf(),
        player.started(path, metadata, now).wf(),
        player.paused_at(now).wf(),
        player.resumed_at(now).wf(),
        player.drained().wf(),
        player.sought(target, succeeded, now).wf(),
{
}

/// The three queries split the states with a sink: such a state is playing,
/// paused or finished, and never playing together with one of the others.
/// Without a sink a player is finished and neither playing nor paused.
pub proof fn law_queries_agree(player: PlayerModel)
    ensures
        player.sink is None ==> player.is_finished() && !player.is_playing()
            && !player.is_paused(),
        player.is_playing() || player.is_paused() || player.is_finished(),
        !(player.is_playing() && player.is_paused()),
        !(player.is_playing() && player.is_finished()),
{
}

} // verus!
