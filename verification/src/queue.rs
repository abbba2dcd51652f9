//! The play queue: tracks in the order they will play, and a cursor on one of
//! them. The head of the queue is the track that is playing.

use crate::search::SearchResult;
use std::collections::vec_deque::Iter;
use std::collections::VecDeque;
use vstd::prelude::*;
use vstd::std_specs::iter::IteratorSpec;

verus! {

/// Whether a cursor at `cursor` points into a list of `len` entries; on an
/// empty list it rests at zero.
pub open spec fn cursor_ok(cursor: int, len: int) -> bool {
    0 <= cursor < len || (len == 0 && cursor == 0)
}

/// Where the cursor stands once the head has left a list of `len` entries:
/// one lower, so that it stays on its track; at zero if it was on the head,
/// and at zero on an empty list.
pub open spec fn cursor_after_pop(cursor: nat, len: nat) -> nat {
    if len > 0 && cursor > 0 {
        (cursor - 1) as nat
    } else {
        0
    }
}

/// Where the cursor stands once the entry at `index` has left a list of `len`
/// entries: one lower if the entry stood before it, and on the last entry if
/// it would otherwise point past the end. Out of range nothing leaves, and
/// the cursor stays.
pub open spec fn cursor_after_remove(cursor: nat, index: nat, len: nat) -> nat {
    if index >= len {
        cursor
    } else if index < cursor {
        (cursor - 1) as nat
    } else if len == 1 {
        0
    } else if cursor >= len - 1 {
        (len - 2) as nat
    } else {
        cursor
    }
}

/// Where `select` puts the cursor: on `index`, or on the last entry where
/// `index` is past the end.
pub open spec fn cursor_at(index: nat, len: nat) -> nat {
    if index < len {
        index
    } else if len == 0 {
        0
    } else {
        (len - 1) as nat
    }
}

/// The queue as plain values.
pub struct QueueView {
    /// The tracks, the head first.
    pub tracks: Seq<SearchResult>,
    /// The index that the cursor is on.
    pub cursor: nat,
}

impl QueueView {
    /// The cursor points at a track, or rests at zero on an empty queue.
    pub open spec fn wf(self) -> bool {
        cursor_ok(self.cursor as int, self.tracks.len() as int)
    }

    /// The queue with `track` at its end.
    pub open spec fn pushed(self, track: SearchResult) -> QueueView {
        QueueView { tracks: self.tracks.push(track), ..self }
    }

    /// The queue without its head.
    pub open spec fn popped(self) -> QueueView {
        QueueView {
            tracks: if self.tracks.len() > 0 {
                self.tracks.drop_first()
            } else {
                self.tracks
            },
            cursor: cursor_after_pop(self.cursor, self.tracks.len()),
        }
    }

    /// The queue without the track at `index`; itself where there is none.
    pub open spec fn removed(self, index: nat) -> QueueView {
        QueueView {
            tracks: if index < self.tracks.len() {
                self.tracks.remove(index as int)
            } else {
                self.tracks
            },
            cursor: cursor_after_remove(self.cursor, index, self.tracks.len()),
        }
    }

    /// The queue with the track at `index` moved to the head and the cursor
    /// on it; itself where there is no such track.
    pub open spec fn promoted(self, index: nat) -> QueueView {
        if index < self.tracks.len() {
            QueueView {
                tracks: seq![self.tracks[index as int]] + self.tracks.remove(index as int),
                cursor: 0,
            }
        } else {
            self
        }
    }

    /// The empty queue.
    pub open spec fn empty() -> QueueView {
        QueueView { tracks: Seq::empty(), cursor: 0 }
    }
}

/// The tracks waiting to be played, the playing one first.
pub struct Queue {
    tracks: VecDeque<SearchResult>,
    selected_index: usize,
}

impl View for Queue {
    type V = QueueView;

    closed spec fn view(&self) -> QueueView {
        QueueView { tracks: self.tracks@, cursor: self.selected_index as nat }
    }
}

impl Queue {
    /// The cursor points at a track, or rests at zero on an empty queue.
    pub open spec fn wf(&self) -> bool {
        self@.wf()
    }

    /// The index that the cursor is on.
    pub fn selected_index(&self) -> (r: usize)
        ensures
            r == self@.cursor,
    {
        self.selected_index
    }

    /// Puts the cursor on `index`, or on the last track where `index` is
    /// past the end.
    pub fn select(&mut self, index: usize)
        ensures
            final(self)@ == (QueueView {
                cursor: cursor_at(index as nat, old(self)@.tracks.len()),
                ..old(self)@
            }),
            final(self).wf(),
    {
        let len = self.tracks.len();
        self.selected_index = if index < len {
            index
        } else if len == 0 {
            0
        } else {
            len - 1
        };
    }

    /// An empty queue.
    pub fn new() -> (r: Self)
        ensures
            r@ == QueueView::empty(),
            r.wf(),
    {
        Queue { tracks: VecDeque::new(), selected_index: 0 }
    }

    /// Adds `track` at the end.
    pub fn push_back(&mut self, track: SearchResult)
        ensures
            final(self)@ == old(self)@.pushed(track),
            old(self).wf() ==> final(self).wf(),
    {
        self.tracks.push_back(track);
    }

    /// Takes the head off. The cursor moves down with the tracks, so that it
    /// stays on the track it was on; on the head it stays at zero. On an
    /// empty queue nothing is returned and the cursor rests at zero.
    pub fn pop_front(&mut self) -> (r: Option<SearchResult>)
        ensures
            final(self)@ == old(self)@.popped(),
            r == (if old(self)@.tracks.len() > 0 {
                Some(old(self)@.tracks[0])
            } else {
                None::<SearchResult>
            }),
            old(self).wf() ==> final(self).wf(),
    {
        if self.tracks.len() == 0 {
            self.selected_index = 0;
        } else if self.selected_index > 0 {
            self.selected_index = self.selected_index - 1;
        }
        let r = self.tracks.pop_front();
        proof {
            assert(final(self)@.tracks =~= old(self)@.popped().tracks);
        }
        r
    }

    /// Takes out the track at `index`. Out of range, nothing happens. The
    /// cursor moves down by one if the track stood before it, and never ends
    /// up past the last track.
    pub fn remove(&mut self, index: usize) -> (r: Option<SearchResult>)
        ensures
            final(self)@ == old(self)@.removed(index as nat),
            r == (if index < old(self)@.tracks.len() {
                Some(old(self)@.tracks[index as int])
            } else {
                None::<SearchResult>
            }),
            old(self).wf() ==> final(self).wf(),
    {
        let len = self.tracks.len();
        if index >= len {
            return None;
        }
        if index < self.selected_index {
            self.selected_index = self.selected_index - 1;
        } else if len == 1 {
            self.selected_index = 0;
        } else if self.selected_index >= len - 1 {
            self.selected_index = len - 2;
        }
        self.tracks.remove(index)
    }

    /// Empties the queue and puts the cursor back to zero.
    pub fn clear(&mut self)
        ensures
            final(self)@ == QueueView::empty(),
            final(self).wf(),
    {
        self.tracks.clear();
        self.selected_index = 0;
    }

    /// The number of tracks.
    pub fn len(&self) -> (r: usize)
        ensures
            r == self@.tracks.len(),
    {
        self.tracks.len()
    }

    /// Whether there is no track.
    pub fn is_empty(&self) -> (r: bool)
        ensures
            r == (self@.tracks.len() == 0),
    {
        self.tracks.len() == 0
    }

    /// The track at `index`, if there is one.
    pub fn get(&self, index: usize) -> (r: Option<&SearchResult>)
        ensures
            index < self@.tracks.len() ==> r == Some(&self@.tracks[index as int]),
            index >= self@.tracks.len() ==> r is None,
    {
        if index < self.tracks.len() {
            Some(&self.tracks[index])
        } else {
            None
        }
    }

    /// The tracks from the head on.
    pub fn iter(&self) -> (r: Iter<'_, SearchResult>)
        ensures
            r.remaining() == self@.tracks.as_ref(),
    {
        self.tracks.iter()
    }

    /// Puts the track at `index` at the head and the cursor on it. Out of
    /// range, nothing happens.
    pub fn move_to_front(&mut self, index: usize)
        ensures
            final(self)@ == old(self)@.promoted(index as nat),
            old(self).wf() ==> final(self).wf(),
    {
        if index < self.tracks.len() {
            match self.tracks.remove(index) {
                Some(track) => {
                    self.tracks.push_front(track);
                },
                None => {},
            }
            self.selected_index = 0;
        }
    }
}

/// After `move_to_front` with an index in range the moved track is the head,
/// the cursor is on it, the queue is as long as before, and the other tracks
/// keep their order.
pub proof fn lemma_move_to_front(q: QueueView, index: nat)
    requires
        index < q.tracks.len(),
    ensures
        ({
            let moved = q.promoted(index);
            &&& moved.tracks[0] == q.tracks[index as int]
            &&& moved.cursor == 0
            &&& moved.tracks.len() == q.tracks.len()
            &&& forall|i: int| 0 <= i < index ==> moved.tracks[i + 1] == q.tracks[i]
            &&& forall|i: int| index < i < q.tracks.len() ==> moved.tracks[i] == q.tracks[i]
        }),
{
}

/// No operation on a well-formed queue leaves the cursor past the last
/// track; on an empty queue it rests at zero.
pub proof fn lemma_cursor_in_range(q: QueueView, track: SearchResult, index: nat)
    requires
        q.wf(),
    ensures
        q.pushed(track).wf(),
        q.popped().wf(),
        q.removed(index).wf(),
        q.promoted(index).wf(),
        QueueView::empty().wf(),
        q.tracks.len() == 0 ==> q.popped() == q,
        index >= q.tracks.len() ==> q.removed(index) == q,
        index < q.tracks.len() && index < q.cursor ==> q.removed(index).cursor == q.cursor - 1,
{
}

} // verus!
