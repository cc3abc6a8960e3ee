use vstd::prelude::*;

use crate::library_entry::LibraryFilterEntry;
use crate::library_entry::TrackFile;
use crate::listable::Listable;

verus! {

/// Ordered play queue plus the cursor of the track currently played.
#[derive(Clone, Debug, PartialEq, Eq)]
pub struct StatePlaylist {
    pub list: Vec<TrackFile>,
    pub selected: usize,
}

/// How a library row relates to the playlist, for the playback indicator.
#[derive(Clone, Copy, Debug, PartialEq, Eq, Structural)]
pub enum PlaylistState {
    Absent,
    Played,
    Playing,
    Queued,
}

/// Whether a track belongs to the rows a filter entry stands for.
pub open spec fn filter_matches(entry: LibraryFilterEntry, t: TrackFile) -> bool {
    match entry {
        LibraryFilterEntry::All => false,
        LibraryFilterEntry::Artist(a) => t.id_artist == a.artist_id,
        LibraryFilterEntry::Year { year } => t.year == year,
    }
}

/// The indicator for a set of playlist positions: the playing position
/// wins, then a queued one, then a played one.
#[verifier::opaque]
pub open spec fn spec_filter_state(s: Seq<TrackFile>, sel: int, entry: LibraryFilterEntry) -> PlaylistState {
    if exists|i: int| 0 <= i < s.len() && filter_matches(entry, #[trigger] s[i]) && i == sel {
        PlaylistState::Playing
    } else if exists|i: int| 0 <= i < s.len() && filter_matches(entry, #[trigger] s[i]) && i > sel {
        PlaylistState::Queued
    } else if exists|i: int| 0 <= i < s.len() && filter_matches(entry, #[trigger] s[i]) {
        PlaylistState::Played
    } else {
        PlaylistState::Absent
    }
}

/// The first playlist position holding the track, `s.len()` if none.
pub open spec fn first_with_id(s: Seq<TrackFile>, id: u64) -> int
    decreases s.len(),
{
    if s.len() == 0 {
        0
    } else if s[0].id_track == id {
        0
    } else {
        1 + first_with_id(s.drop_first(), id)
    }
}

#[verifier::opaque]
pub open spec fn spec_track_state(s: Seq<TrackFile>, sel: int, id: u64) -> PlaylistState {
    let i = first_with_id(s, id);
    if i >= s.len() {
        PlaylistState::Absent
    } else if i < sel {
        PlaylistState::Played
    } else if i == sel {
        PlaylistState::Playing
    } else {
        PlaylistState::Queued
    }
}

pub proof fn lemma_first_with_id(s: Seq<TrackFile>, id: u64)
    ensures
        0 <= first_with_id(s, id) <= s.len(),
        first_with_id(s, id) < s.len() ==> s[first_with_id(s, id)].id_track == id,
        forall|k: int| 0 <= k < first_with_id(s, id) ==> (#[trigger] s[k]).id_track != id,
    decreases s.len(),
{
    if s.len() > 0 && s[0].id_track != id {
        lemma_first_with_id(s.drop_first(), id);
        assert forall|k: int| 0 <= k < first_with_id(s, id) implies (#[trigger] s[k]).id_track
            != id by {
            if k > 0 {
                assert(s[k] == s.drop_first()[k - 1]);
            }
        }
    }
}

impl StatePlaylist {
    pub fn init() -> (r: StatePlaylist)
        ensures
            r.list@.len() == 0,
            r.selected == 0,
    {
        StatePlaylist { list: Vec::new(), selected: 0 }
    }

    /// The track under the cursor, if the cursor is inside the list.
    pub fn get_current_track(&self) -> (r: Option<TrackFile>)
        ensures
            match r {
                Option::Some(t) => (self.selected as int) < self.list@.len() && t
                    == self.list@[self.selected as int],
                Option::None => (self.selected as int) >= self.list@.len(),
            },
    {
        if self.selected < self.list.len() {
            Option::Some(self.list[self.selected].duplicate())
        } else {
            Option::None
        }
    }

    /// The track after the cursor, if there is one.
    pub fn get_next_track(&self) -> (r: Option<TrackFile>)
        ensures
            match r {
                Option::Some(t) => self.selected + 1 < self.list@.len() && t
                    == self.list@[self.selected + 1],
                Option::None => self.selected + 1 >= self.list@.len(),
            },
    {
        if self.selected < self.list.len() && self.list.len() - self.selected > 1 {
            Option::Some(self.list[self.selected + 1].duplicate())
        } else {
            Option::None
        }
    }

    /// Advance the cursor; past the end this leaves the list untouched and
    /// simply points one further, so no current track exists.
    pub fn next(&mut self)
        requires
            old(self).selected < usize::MAX,
        ensures
            final(self).list@ == old(self).list@,
            final(self).selected == old(self).selected + 1,
    {
        self.selected = self.selected + 1;
    }

    /// Step the cursor back; at the first entry this does nothing.
    pub fn previous(&mut self)
        ensures
            final(self).list@ == old(self).list@,
            final(self).selected as int == if old(self).selected == 0 {
                0
            } else {
                old(self).selected - 1
            },
    {
        match self.selected {
            0 => {},
            _ => self.selected = self.selected - 1,
        }
    }

    pub fn replace(&mut self, list: Vec<TrackFile>, selected: usize)
        ensures
            final(self).list@ == list@,
            final(self).selected == selected,
    {
        self.list = list;
        self.selected = selected;
    }

    pub fn append(&mut self, track: TrackFile)
        requires
            old(self).list@.len() < usize::MAX,
        ensures
            final(self).list@ == old(self).list@.push(track),
            final(self).selected == old(self).selected,
    {
        self.list.push(track);
    }

    pub fn clear(&mut self)
        ensures
            final(self).list@.len() == 0,
            final(self).selected == 0,
    {
        self.list.clear();
        self.selected = 0;
    }

    /// The playback indicator for a filter row: `Playing` if the current
    /// track matches it, else `Queued` if a later track does, else `Played`
    /// if any does, else `Absent`.
    pub fn get_playback_state_for_filter(&self, entry: &LibraryFilterEntry) -> (r: PlaylistState)
        ensures
            r == spec_filter_state(self.list@, self.selected as int, *entry),
    {
        proof {
            reveal(spec_filter_state);
        }
        let ghost s = self.list@;
        let ghost sel = self.selected as int;
        if matches!(entry, LibraryFilterEntry::All) {
            return PlaylistState::Absent;
        }
        let mut any_eq = false;
        let mut any_gt = false;
        let mut any_lt = false;
        let mut i: usize = 0;
        while i < self.list.len()
            invariant
                self.list@ == s,
                sel == self.selected as int,
                0 <= i <= s.len(),
                any_eq == exists|k: int|
                    0 <= k < i && filter_matches(*entry, #[trigger] s[k]) && k == sel,
                any_gt == exists|k: int|
                    0 <= k < i && filter_matches(*entry, #[trigger] s[k]) && k > sel,
                any_lt == exists|k: int|
                    0 <= k < i && filter_matches(*entry, #[trigger] s[k]) && k < sel,
            decreases s.len() - i,
        {
            let m = match entry {
                LibraryFilterEntry::All => false,
                LibraryFilterEntry::Artist(a) => self.list[i].id_artist == a.artist_id,
                LibraryFilterEntry::Year { year } => match (year, &self.list[i].year) {
                    (Option::None, Option::None) => true,
                    (Option::Some(x), Option::Some(y)) => *x == *y,
                    _ => false,
                },
            };
            if m {
                if i == self.selected {
                    any_eq = true;
                } else if i > self.selected {
                    any_gt = true;
                } else {
                    any_lt = true;
                }
            }
            i = i + 1;
        }
        proof {
            assert((exists|k: int| 0 <= k < s.len() && filter_matches(*entry, #[trigger] s[k]))
                <==> (any_eq || any_gt || any_lt));
        }
        if any_eq {
            PlaylistState::Playing
        } else if any_gt {
            PlaylistState::Queued
        } else if any_lt {
            PlaylistState::Played
        } else {
            PlaylistState::Absent
        }
    }

    /// The playback indicator for one track, by its first playlist
    /// position relative to the cursor.
    pub fn get_playback_state_for_track(&self, track_id: u64) -> (r: PlaylistState)
        ensures
            r == spec_track_state(self.list@, self.selected as int, track_id),
    {
        let ghost s = self.list@;
        proof {
            reveal(spec_track_state);
            lemma_first_with_id(s, track_id);
        }
        let mut i: usize = 0;
        while i < self.list.len()
            invariant
                self.list@ == s,
                0 <= i <= s.len(),
                forall|k: int| 0 <= k < i ==> (#[trigger] s[k]).id_track != track_id,
            decreases s.len() - i,
        {
            if self.list[i].id_track == track_id {
                proof {
                    reveal(spec_track_state);
                    lemma_first_with_id(s, track_id);
                    if first_with_id(s, track_id) < i {
                        assert(s[first_with_id(s, track_id)].id_track == track_id);
                    }
                }
                return if i < self.selected {
                    PlaylistState::Played
                } else if i == self.selected {
                    PlaylistState::Playing
                } else {
                    PlaylistState::Queued
                };
            }
            i = i + 1;
        }
        proof {
            reveal(spec_track_state);
            if first_with_id(s, track_id) < s.len() {
                assert(s[first_with_id(s, track_id)].id_track == track_id);
            }
        }
        PlaylistState::Absent
    }
}

} // verus!
