//! The queue of tracks to play, with a marker on the current one.

use vstd::prelude::*;
use crate::text::texts;

verus! {

/// The mathematical state of a queue.
pub struct QueueModel {
    /// The paths of the queued tracks, in playing order.
    pub tracks: Seq<Seq<char>>,
    /// The index of the current track.
    pub current: Option<usize>,
}

impl QueueModel {
    /// The queue without tracks.
    pub open spec fn empty() -> QueueModel {
        QueueModel { tracks: Seq::empty(), current: None }
    }

    /// The marker, where there is one, points at a track; a queue without
    /// tracks has no marker.
    pub open spec fn wf(self) -> bool {
        match self.current {
            Some(index) => index < self.tracks.len(),
            None => true,
        }
    }

    /// The path of the current track: none without a marker, or where the
    /// marker points past the end.
    pub open spec fn current_track(self) -> Option<Seq<char>> {
        match self.current {
            Some(index) => if index < self.tracks.len() {
                Some(self.tracks[index as int])
            } else {
                None
            },
            None => None,
        }
    }

    /// The queue after `more` has been put at its end. A queue without a
    /// marker gets one on its first track, if it has a track by then.
    pub open spec fn extended(self, more: Seq<Seq<char>>) -> QueueModel {
        QueueModel {
            tracks: self.tracks + more,
            current: if self.current is None && self.tracks.len() + more.len() > 0 {
                Some(0usize)
            } else {
                self.current
            },
        }
    }

    /// The queue after the track at `index` has been taken out. The marker
    /// stays on its track; where its own track leaves, it stays in place and
    /// so moves to the following track, to the new last track where there is
    /// no following one, and goes away with the last track of the queue.
    pub open spec fn without(self, index: usize) -> QueueModel {
        if index < self.tracks.len() {
            let rest = self.tracks.remove(index as int);
            QueueModel {
                tracks: rest,
                current: match self.current {
                    Some(current) => if current == index {
                        if rest.len() == 0 {
                            None
                        } else if current >= rest.len() {
                            Some((rest.len() - 1) as usize)
                        } else {
                            Some(current)
                        }
                    } else if current > index {
                        Some((current - 1) as usize)
                    } else {
                        Some(current)
                    },
                    None => None,
                },
            }
        } else {
            self
        }
    }

    /// Whether a track follows the current one.
    pub open spec fn has_next(self) -> bool {
        self.current matches Some(current) && current + 1 < self.tracks.len()
    }

    /// The queue after the marker has moved to the following track.
    pub open spec fn advanced(self) -> QueueModel {
        if self.has_next() {
            QueueModel { current: Some((self.current->0 + 1) as usize), ..self }
        } else {
            self
        }
    }

    /// Whether the marker stands behind the first position.
    pub open spec fn has_prev(self) -> bool {
        self.current matches Some(current) && current > 0
    }

    /// The queue after the marker has moved one position back.
    pub open spec fn retreated(self) -> QueueModel {
        if self.has_prev() {
            QueueModel { current: Some((self.current->0 - 1) as usize), ..self }
        } else {
            self
        }
    }

    /// The queue after the marker has been put on `index`, where a track
    /// stands there.
    pub open spec fn jumped(self, index: usize) -> QueueModel {
        if index < self.tracks.len() {
            QueueModel { current: Some(index), ..self }
        } else {
            self
        }
    }

    /// The tracks with those at `first` and `second` exchanged.
    pub open spec fn exchanged(tracks: Seq<Seq<char>>, first: int, second: int) -> Seq<
        Seq<char>,
    > {
        tracks.update(first, tracks[second]).update(second, tracks[first])
    }

    /// The queue after the track at `index` has changed places with the one
    /// before it. The marker follows whichever of the two it was on.
    pub open spec fn moved_up(self, index: usize) -> QueueModel {
        if index == 0 || index >= self.tracks.len() {
            self
        } else {
            QueueModel {
                tracks: Self::exchanged(self.tracks, index as int, index - 1),
                current: match self.current {
                    Some(current) => if current == index {
                        Some((index - 1) as usize)
                    } else if current + 1 == index {
                        Some(index)
                    } else {
                        Some(current)
                    },
                    None => None,
                },
            }
        }
    }

    /// The queue after the track at `index` has changed places with the one
    /// after it. The marker follows whichever of the two it was on.
    pub open spec fn moved_down(self, index: usize) -> QueueModel {
        if index + 1 >= self.tracks.len() {
            self
        } else {
            QueueModel {
                tracks: Self::exchanged(self.tracks, index as int, index + 1),
                current: match self.current {
                    Some(current) => if current == index {
                        Some((index + 1) as usize)
                    } else if current == index + 1 {
                        Some(index)
                    } else {
                        Some(current)
                    },
                    None => None,
                },
            }
        }
    }
}

/// The queue of tracks.
#[derive(Debug, Clone)]
pub struct Queue {
    tracks: Vec<String>,
    current_index: Option<usize>,
}

impl View for Queue {
    type V = QueueModel;

    closed spec fn view(&self) -> QueueModel {
        QueueModel { tracks: texts(self.tracks@), current: self.current_index }
    }
}

impl Queue {
    /// A queue without tracks.
    pub fn new() -> (r: Queue)
        ensures
            r@ == QueueModel::empty(),
    {
        let queue = Queue { tracks: Vec::new(), current_index: None };
        assert(queue@.tracks =~= Seq::empty());
        queue
    }

    /// A queue of the given tracks and marker, as they were stored. The
    /// marker is taken as it is, also where it points at no track.
    pub fn from_parts(tracks: Vec<String>, current_index: Option<usize>) -> (r: Queue)
        ensures
            r@.tracks == texts(tracks@),
            r@.current == current_index,
    {
        Queue { tracks, current_index }
    }

    /// Puts `track` at the end of the queue.
    pub fn add(&mut self, track: String)
        ensures
            final(self)@ == old(self)@.extended(seq![track@]),
    {
        self.tracks.push(track);
        if self.current_index.is_none() {
            self.current_index = Some(0);
        }
        assert(self@.tracks =~= old(self)@.tracks + seq![track@]);
    }

    /// Puts `tracks` at the end of the queue, in their order.
    pub fn add_multiple(&mut self, tracks: Vec<String>)
        ensures
            final(self)@ == old(self)@.extended(texts(tracks@)),
    {
        let ghost added = tracks@;
        let mut rest = tracks;
        self.tracks.append(&mut rest);
        if self.current_index.is_none() && self.tracks.len() > 0 {
            self.current_index = Some(0);
        }
        assert(self@.tracks =~= old(self)@.tracks + texts(added));
    }

    /// Takes the track at `index` out of the queue. Nothing happens where no
    /// track stands there.
    pub fn remove(&mut self, index: usize)
        ensures
            final(self)@ == old(self)@.without(index),
    {
        if index < self.tracks.len() {
            self.tracks.remove(index);
            assert(self@.tracks =~= old(self)@.tracks.remove(index as int));
            if let Some(current) = self.current_index {
                if current == index {
                    self.current_index = if self.tracks.len() == 0 {
                        None
                    } else if current >= self.tracks.len() {
                        Some(self.tracks.len() - 1)
                    } else {
                        Some(current)
                    };
                } else if current > index {
                    self.current_index = Some(current - 1);
                }
            }
        }
    }

    /// Takes every track out of the queue.
    pub fn clear(&mut self)
        ensures
            final(self)@ == QueueModel::empty(),
    {
        self.tracks.clear();
        self.current_index = None;
        assert(self@.tracks =~= Seq::empty());
    }

    /// The current track.
    pub fn current(&self) -> (r: Option<&String>)
        ensures
            r is Some <==> self@.current_track() is Some,
            r matches Some(track) ==> self@.current_track() == Some(track@),
    {
        match self.current_index {
            Some(index) => if index < self.tracks.len() {
                Some(&self.tracks[index])
            } else {
                None
            },
            None => None,
        }
    }

    /// Moves the marker to the following track and hands that track out, or
    /// leaves the queue as it is and hands out nothing where no track
    /// follows.
    pub fn next(&mut self) -> (r: Option<&String>)
        ensures
            final(self)@ == old(self)@.advanced(),
            r is Some <==> old(self)@.has_next(),
            r matches Some(track) ==> final(self)@.current_track() == Some(track@),
    {
        if let Some(current) = self.current_index {
            if current < self.tracks.len() && current + 1 < self.tracks.len() {
                self.current_index = Some(current + 1);
                return Some(&self.tracks[current + 1]);
            }
        }
        None
    }

    /// Moves the marker one position back and hands out the track there.
    /// Nothing happens and nothing is handed out where the marker is missing
    /// or on the first position.
    pub fn prev(&mut self) -> (r: Option<&String>)
        ensures
            final(self)@ == old(self)@.retreated(),
            r is Some <==> old(self)@.has_prev() && final(self)@.current_track() is Some,
            r matches Some(track) ==> final(self)@.current_track() == Some(track@),
    {
        if let Some(current) = self.current_index {
            if current > 0 {
                self.current_index = Some(current - 1);
                if current - 1 < self.tracks.len() {
                    return Some(&self.tracks[current - 1]);
                }
            }
        }
        None
    }

    /// Puts the marker on `index` and hands out the track there, or leaves
    /// the queue as it is and hands out nothing where no track stands there.
    pub fn jump_to(&mut self, index: usize) -> (r: Option<&String>)
        ensures
            final(self)@ == old(self)@.jumped(index),
            r is Some <==> index < old(self)@.tracks.len(),
            r matches Some(track) ==> old(self)@.tracks[index as int] == track@,
    {
        if index < self.tracks.len() {
            self.current_index = Some(index);
            Some(&self.tracks[index])
        } else {
            None
        }
    }

    /// The queued tracks, in playing order.
    pub fn tracks(&self) -> (r: &[String])
        ensures
            texts(r@) == self@.tracks,
    {
        self.tracks.as_slice()
    }

    /// The index of the current track.
    pub fn current_index(&self) -> (r: Option<usize>)
        ensures
            r == self@.current,
    {
        self.current_index
    }

    /// Whether the queue holds no track.
    pub fn is_empty(&self) -> (r: bool)
        ensures
            r == (self@.tracks.len() == 0),
    {
        self.tracks.len() == 0
    }

    /// The number of queued tracks.
    pub fn len(&self) -> (r: usize)
        ensures
            r == self@.tracks.len(),
    {
        self.tracks.len()
    }

    /// Lets the track at `index` change places with the one before it.
    /// Nothing happens for the first track or where no track stands at
    /// `index`.
    pub fn move_up(&mut self, index: usize)
        ensures
            final(self)@ == old(self)@.moved_up(index),
    {
        if index == 0 || index >= self.tracks.len() {
            return ;
        }
        let track = self.tracks.remove(index);
        self.tracks.insert(index - 1, track);
        assert(self@.tracks =~= QueueModel::exchanged(
            old(self)@.tracks,
            index as int,
            index - 1,
        ));
        if let Some(current) = self.current_index {
            if current == index {
                self.current_index = Some(index - 1);
            } else if current == index - 1 {
                self.current_index = Some(index);
            }
        }
    }

    /// Lets the track at `index` change places with the one after it.
    /// Nothing happens for the last track or where no track stands at
    /// `index`.
    pub fn move_down(&mut self, index: usize)
        ensures
            final(self)@ == old(self)@.moved_down(index),
    {
        if index >= self.tracks.len() || index + 1 >= self.tracks.len() {
            return ;
        }
        let track = self.tracks.remove(index);
        self.tracks.insert(index + 1, track);
        assert(self@.tracks =~= QueueModel::exchanged(
            old(self)@.tracks,
            index as int,
            index + 1,
        ));
        if let Some(current) = self.current_index {
            if current == index {
                self.current_index = Some(index + 1);
            } else if current == index + 1 {
                self.current_index = Some(index);
            }
        }
    }
}

impl Default for Queue {
    fn default() -> (r: Queue)
        ensures
            r@ == QueueModel::empty(),
    {
        Queue::new()
    }
}

impl QueueModel {
    /// The queue is well-formed and has a marker whenever it has a track.
    pub open spec fn marked(self) -> bool {
        self.wf() && (self.tracks.len() > 0 ==> self.current is Some)
    }
}

/// The empty queue is marked, and every operation leaves a marked queue
/// marked: the marker never points past the end, and it is there as long as
/// there is a track.
pub proof fn law_queue_stays_marked(queue: QueueModel, more: Seq<Seq<char>>, index: usize)
    requires
        queue.marked(),
        queue.tracks.len() + more.len() <= usize::MAX,
    ensures
        QueueModel::empty().marked(),
        queue.extended(more).marked(),
        queue.without(index).marked(),
        queue.advanced().marked(),
        queue.retreated().marked(),
        queue.jumped(index).marked(),
        queue.moved_up(index).marked(),
        queue.moved_down(index).marked(),
{
}

/// No operation but adding and removing changes which tracks are queued,
/// and moving a track changes only the places of two neighbours.
pub proof fn law_queue_keeps_its_tracks(queue: QueueModel, index: usize)
    ensures
        queue.advanced().tracks == queue.tracks,
        queue.retreated().tracks == queue.tracks,
        queue.jumped(index).tracks == queue.tracks,
        queue.moved_up(index).tracks.len() == queue.tracks.len(),
        queue.moved_down(index).tracks.len() == queue.tracks.len(),
        queue.moved_up(index).tracks.to_multiset() == queue.tracks.to_multiset(),
        queue.moved_down(index).tracks.to_multiset() == queue.tracks.to_multiset(),
{
    broadcast use vstd::seq_lib::group_to_multiset_ensures;

    if 0 < index < queue.tracks.len() {
        lemma_exchanged_keeps_items(queue.tracks, index as int, index - 1);
    }
    if index + 1 < queue.tracks.len() {
        lemma_exchanged_keeps_items(queue.tracks, index as int, index + 1);
    }
}

/// Exchanging two items of a sequence keeps every item.
proof fn lemma_exchanged_keeps_items(tracks: Seq<Seq<char>>, first: int, second: int)
    requires
        0 <= first < tracks.len(),
        0 <= second < tracks.len(),
    ensures
        QueueModel::exchanged(tracks, first, second).to_multiset() == tracks.to_multiset(),
{
    broadcast use vstd::seq_lib::group_to_multiset_ensures;

    let once = tracks.update(first, tracks[second]);
    vstd::seq_lib::to_multiset_update(tracks, first, tracks[second]);
    vstd::seq_lib::to_multiset_update(once, second, tracks[first]);
    assert(QueueModel::exchanged(tracks, first, second).to_multiset() =~= tracks.to_multiset());
}

/// Moving a track up and then down again, or down and then up again, puts
/// the queue back as it was, marker included.
pub proof fn law_moves_undo_each_other(queue: QueueModel, index: usize)
    requires
        queue.wf(),
        queue.tracks.len() <= usize::MAX,
    ensures
        0 < index < queue.tracks.len() ==> queue.moved_up(index).moved_down((index - 1) as usize)
            == queue,
        index + 1 < queue.tracks.len() ==> queue.moved_down(index).moved_up((index + 1) as usize)
            == queue,
{
    if 0 < index < queue.tracks.len() {
        let there = queue.moved_up(index);
        assert(there.moved_down((index - 1) as usize).tracks =~= queue.tracks);
    }
    if index + 1 < queue.tracks.len() {
        let there = queue.moved_down(index);
        assert(there.moved_up((index + 1) as usize).tracks =~= queue.tracks);
    }
}

/// Going to the following track and back again leads to the same track.
pub proof fn law_next_then_prev(queue: QueueModel)
    requires
        queue.has_next(),
        queue.tracks.len() <= usize::MAX,
    ensures
        queue.advanced().retreated() == queue,
        queue.advanced().current_track() == Some(queue.tracks[queue.current->0 + 1]),
{
}

} // verus!
