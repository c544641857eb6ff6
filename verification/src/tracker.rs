//! Wall-clock bookkeeping of the playback position.
//!
//! The tracker never asks the output sink for its clock, which pause and seek
//! reset. It keeps the instant at which the running segment began and the
//! track time that had elapsed before that instant, and computes the position
//! from the two and the current time.

use vstd::prelude::*;
use crate::span::{lemma_span_within_limit, span_limit, Span};

verus! {

/// What a tracker holds, in nanoseconds. Instants count from a fixed origin
/// that the caller chooses for all of them.
pub struct TrackerModel {
    /// When the running segment began, if one has begun.
    pub segment_start: Option<nat>,
    /// Track time that had elapsed up to the last pause, seek or start.
    pub paused_elapsed: nat,
}

impl TrackerModel {
    /// The state with no segment and nothing elapsed.
    pub open spec fn cleared() -> TrackerModel {
        TrackerModel { segment_start: None, paused_elapsed: 0 }
    }

    /// The state of a track that starts at `now`.
    pub open spec fn started(now: nat) -> TrackerModel {
        TrackerModel { segment_start: Some(now), paused_elapsed: 0 }
    }

    /// Wall-clock time that passed from `start` to `now`, zero where the
    /// clock has gone backwards.
    pub open spec fn since(start: nat, now: nat) -> nat {
        if now >= start {
            (now - start) as nat
        } else {
            0
        }
    }

    /// The playback position at `now`: the stored time, and on top of it
    /// the time since the segment began where a segment has begun and
    /// playback is not paused.
    pub open spec fn elapsed(self, paused: bool, now: nat) -> nat {
        if paused {
            self.paused_elapsed
        } else {
            match self.segment_start {
                Some(start) => self.paused_elapsed + Self::since(start, now),
                None => self.paused_elapsed,
            }
        }
    }

    /// The state after the position at `now` has been frozen for a pause.
    pub open spec fn frozen(self, now: nat) -> TrackerModel {
        TrackerModel { paused_elapsed: self.elapsed(false, now), ..self }
    }

    /// The state after a new segment has begun at `now`.
    pub open spec fn resumed(self, now: nat) -> TrackerModel {
        TrackerModel { segment_start: Some(now), ..self }
    }

    /// The state after a seek to `target` that took effect at `now`.
    pub open spec fn moved(self, target: nat, now: nat) -> TrackerModel {
        TrackerModel { segment_start: Some(now), paused_elapsed: target }
    }
}

/// The position bookkeeping of one player.
#[derive(Clone, Copy, Debug)]
pub struct PositionTracker {
    segment_start: Option<Span>,
    paused_elapsed: Span,
}

impl View for PositionTracker {
    type V = TrackerModel;

    closed spec fn view(&self) -> TrackerModel {
        TrackerModel {
            segment_start: match self.segment_start {
                Some(start) => Some(start@),
                None => None,
            },
            paused_elapsed: self.paused_elapsed@,
        }
    }
}

impl PositionTracker {
    /// A tracker with no segment and nothing elapsed.
    pub fn new() -> (r: PositionTracker)
        ensures
            r@ == TrackerModel::cleared(),
    {
        PositionTracker { segment_start: None, paused_elapsed: Span::zero() }
    }

    /// A tracker for a track that starts playing at `now`.
    pub fn starting(now: Span) -> (r: PositionTracker)
        ensures
            r@ == TrackerModel::started(now@),
    {
        PositionTracker { segment_start: Some(now), paused_elapsed: Span::zero() }
    }

    /// The playback position at `now`, or `None` exactly when it is longer
    /// than a [`Span`] can hold.
    pub fn checked_elapsed(&self, paused: bool, now: Span) -> (r: Option<Span>)
        ensures
            r is Some <==> self@.elapsed(paused, now@) <= span_limit(),
            r matches Some(position) ==> position@ == self@.elapsed(paused, now@),
    {
        proof {
            use_type_invariant(self.paused_elapsed);
            lemma_span_within_limit(self.paused_elapsed);
        }
        if paused {
            Some(self.paused_elapsed)
        } else {
            match self.segment_start {
                Some(start) => self.paused_elapsed.checked_add(now.saturating_sub(start)),
                None => Some(self.paused_elapsed),
            }
        }
    }

    /// Whether the position at `now`, moved `ahead` seconds forward, is a
    /// length of time that a [`Span`] can hold.
    pub fn in_range(&self, paused: bool, now: Span, ahead: u64) -> (r: bool)
        ensures
            r == (self@.elapsed(paused, now@) + (ahead as nat) * 1_000_000_000 <= span_limit()),
    {
        match self.checked_elapsed(paused, now) {
            Some(position) => position.checked_add(Span::from_secs(ahead)).is_some(),
            None => false,
        }
    }

    /// The playback position at `now`.
    pub fn elapsed(&self, paused: bool, now: Span) -> (r: Span)
        requires
            self@.elapsed(paused, now@) <= span_limit(),
        ensures
            r@ == self@.elapsed(paused, now@),
    {
        self.checked_elapsed(paused, now).unwrap()
    }

    /// Freezes the position at `now`, as a pause does before the sink stops.
    pub fn freeze(&mut self, now: Span)
        requires
            old(self)@.elapsed(false, now@) <= span_limit(),
        ensures
            final(self)@ == old(self)@.frozen(now@),
    {
        let position = self.elapsed(false, now);
        self.paused_elapsed = position;
    }

    /// Begins a new segment at `now`, as a resume does.
    pub fn resume(&mut self, now: Span)
        ensures
            final(self)@ == old(self)@.resumed(now@),
    {
        self.segment_start = Some(now);
    }

    /// Records that a seek to `target` took effect at `now`.
    pub fn relocate(&mut self, target: Span, now: Span)
        ensures
            final(self)@ == old(self)@.moved(target@, now@),
    {
        self.segment_start = Some(now);
        self.paused_elapsed = target;
    }

    /// Forgets the segment and the elapsed time.
    pub fn clear(&mut self)
        ensures
            final(self)@ == TrackerModel::cleared(),
    {
        self.segment_start = None;
        self.paused_elapsed = Span::zero();
    }
}

} // verus!
