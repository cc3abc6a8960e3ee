use vstd::prelude::*;

use crate::input::InputEffect;
use crate::input::InputGlobalEffect;
use crate::input::InputLocal;
use crate::input::InputLocalEffect;
use crate::library_entry::LibraryArtistEntry;
use crate::library_entry::LibraryFilterEntry;
use crate::library_entry::TrackFile;
use crate::library_entry::artist_sort_key;
use crate::library_entry::cmp_opt_lower;
use crate::library_entry::opt_lower;
use crate::library_entry::opt_view;
use crate::listable::Listable;
use crate::listable::le;
use crate::order::Cmp;
use crate::order::lemma_opt_chars_eq;
use crate::playlist::first_with_id;
use crate::playlist::lemma_first_with_id;
use crate::sorted_list::SortedListState;
use crate::sorted_list::contains_eqv;
use crate::sorted_list::insert_pos;
use crate::sorted_list::lemma_sorted_pairwise;
use crate::sorted_list::sorted_adj;
use crate::sorted_list::sorted_insert_unique;
use crate::sorted_list::spec_unique_insert;

verus! {

/// The two ways the filter column can group the library.
#[derive(Clone, Copy, Debug, PartialEq, Eq, Structural)]
pub enum LibraryTab {
    Artists,
    Year,
}

/// Which of the two columns holds the cursor.
#[derive(Clone, Copy, Debug, PartialEq, Eq, Structural)]
pub enum LibraryColumn {
    Filter,
    Tracks,
}

/// Which tracks a selection takes along.
#[derive(Clone, Copy, Debug, PartialEq, Eq, Structural)]
pub enum LibrarySelectMode {
    All,
    Artist,
    Album,
    Track,
}

pub open spec fn spec_next_tab(t: LibraryTab) -> LibraryTab {
    match t {
        LibraryTab::Artists => LibraryTab::Year,
        LibraryTab::Year => LibraryTab::Artists,
    }
}

pub open spec fn spec_next_mode(m: LibrarySelectMode) -> LibrarySelectMode {
    match m {
        LibrarySelectMode::All => LibrarySelectMode::Artist,
        LibrarySelectMode::Artist => LibrarySelectMode::Album,
        LibrarySelectMode::Album => LibrarySelectMode::Track,
        LibrarySelectMode::Track => LibrarySelectMode::All,
    }
}

pub open spec fn spec_prev_mode(m: LibrarySelectMode) -> LibrarySelectMode {
    match m {
        LibrarySelectMode::All => LibrarySelectMode::Track,
        LibrarySelectMode::Artist => LibrarySelectMode::All,
        LibrarySelectMode::Album => LibrarySelectMode::Artist,
        LibrarySelectMode::Track => LibrarySelectMode::Album,
    }
}

/// Whether `t` belongs to the bulk selection anchored at `e`.
pub open spec fn mode_matches(mode: LibrarySelectMode, e: TrackFile, t: TrackFile) -> bool {
    match mode {
        LibrarySelectMode::All => true,
        LibrarySelectMode::Artist => t.id_artist == e.id_artist,
        LibrarySelectMode::Album => t.id_album == e.id_album,
        LibrarySelectMode::Track => t.id_track == e.id_track,
    }
}

/// The selectable rows from position `i` on that the bulk mode takes along.
pub open spec fn selected_tracks_from(
    s: Seq<TrackFile>,
    i: int,
    e: TrackFile,
    mode: LibrarySelectMode,
) -> Seq<TrackFile>
    decreases s.len() - i,
{
    if i < 0 || i >= s.len() {
        Seq::empty()
    } else {
        (if s[i].selectable() && mode_matches(mode, e, s[i]) {
            seq![s[i]]
        } else {
            Seq::empty()
        }) + selected_tracks_from(s, i + 1, e, mode)
    }
}

pub open spec fn spec_selected_tracks(
    s: Seq<TrackFile>,
    e: TrackFile,
    mode: LibrarySelectMode,
) -> Seq<TrackFile> {
    selected_tracks_from(s, 0, e, mode)
}

/// Whether `t` passes the current filter; no filter and `All` let all pass.
pub open spec fn track_matches_filter(f: Option<LibraryFilterEntry>, t: TrackFile) -> bool {
    match f {
        Option::None => true,
        Option::Some(LibraryFilterEntry::All) => true,
        Option::Some(LibraryFilterEntry::Artist(a)) => t.id_artist == a.artist_id,
        Option::Some(LibraryFilterEntry::Year { year }) => t.year == year,
    }
}

pub open spec fn filtered_from(
    s: Seq<TrackFile>,
    i: int,
    f: Option<LibraryFilterEntry>,
) -> Seq<TrackFile>
    decreases s.len() - i,
{
    if i < 0 || i >= s.len() {
        Seq::empty()
    } else {
        (if track_matches_filter(f, s[i]) {
            seq![s[i]]
        } else {
            Seq::empty()
        }) + filtered_from(s, i + 1, f)
    }
}

pub open spec fn spec_filtered(s: Seq<TrackFile>, f: Option<LibraryFilterEntry>) -> Seq<TrackFile> {
    filtered_from(s, 0, f)
}

/// Tracks of one album run: same year, same lowered album artist, same
/// lowered album title.
pub open spec fn same_album(a: TrackFile, b: TrackFile) -> bool {
    &&& a.year == b.year
    &&& opt_lower(a.album_artist) == opt_lower(b.album_artist)
    &&& opt_lower(a.album_title) == opt_lower(b.album_title)
}

/// The album banner row for a track.
pub open spec fn header_of(t: TrackFile) -> TrackFile {
    TrackFile { is_album_padding: true, ..t }
}

/// The track rows with an album banner inserted before the first track of
/// each album run.
pub open spec fn with_headers_from(s: Seq<TrackFile>, i: int) -> Seq<TrackFile>
    decreases s.len() - i,
{
    if i < 0 || i >= s.len() {
        Seq::empty()
    } else {
        (if i == 0 || !same_album(s[i - 1], s[i]) {
            seq![header_of(s[i]), s[i]]
        } else {
            seq![s[i]]
        }) + with_headers_from(s, i + 1)
    }
}

pub open spec fn spec_with_headers(s: Seq<TrackFile>) -> Seq<TrackFile> {
    with_headers_from(s, 0)
}

/// The browsable library: all scanned tracks, the two prebuilt filter
/// stores, and the two cursor-bearing columns currently shown.
#[derive(Clone, Debug, PartialEq, Eq)]
pub struct StateLibrary {
    pub tracks: Vec<TrackFile>,
    pub filters_artist: Vec<LibraryFilterEntry>,
    pub filters_years: Vec<LibraryFilterEntry>,
    pub selected_tab: LibraryTab,
    pub selected_column: LibraryColumn,
    pub select_mode: LibrarySelectMode,
    pub list_filter: SortedListState<LibraryFilterEntry>,
    pub list_tracks: SortedListState<TrackFile>,
}

impl StateLibrary {
    pub open spec fn wf(self) -> bool {
        &&& sorted_adj(self.tracks@)
        &&& forall|i: int|
            0 <= i < self.tracks@.len() ==> !(#[trigger] self.tracks@[i]).is_album_padding
        &&& sorted_adj(self.filters_artist@)
        &&& sorted_adj(self.filters_years@)
        &&& self.list_filter.wf()
        &&& self.list_filter.unique
        &&& self.list_tracks.wf()
        &&& !self.list_tracks.unique
    }

    pub fn init() -> (r: StateLibrary)
        ensures
            r.wf(),
            r.tracks@.len() == 0,
            r.filters_artist@ == seq![LibraryFilterEntry::All],
            r.filters_years@ == seq![LibraryFilterEntry::All],
            r.selected_tab == LibraryTab::Artists,
            r.selected_column == LibraryColumn::Filter,
            r.select_mode == LibrarySelectMode::Artist,
            r.list_filter.entries@ == seq![LibraryFilterEntry::All],
            r.list_filter.selected == 0,
            r.list_tracks.entries@.len() == 0,
    {
        let mut filter: SortedListState<LibraryFilterEntry> = SortedListState::new(true);
        filter.add(LibraryFilterEntry::All);
        proof {
            assert(filter.entries@ =~= seq![LibraryFilterEntry::All]);
        }
        let mut filters_artist: Vec<LibraryFilterEntry> = Vec::new();
        filters_artist.push(LibraryFilterEntry::All);
        let mut filters_years: Vec<LibraryFilterEntry> = Vec::new();
        filters_years.push(LibraryFilterEntry::All);
        proof {
            assert(filters_artist@ =~= seq![LibraryFilterEntry::All]);
            assert(filters_years@ =~= seq![LibraryFilterEntry::All]);
        }
        StateLibrary {
            tracks: Vec::new(),
            filters_artist,
            filters_years,
            selected_tab: LibraryTab::Artists,
            selected_column: LibraryColumn::Filter,
            select_mode: LibrarySelectMode::Artist,
            list_filter: filter,
            list_tracks: SortedListState::new(false),
        }
    }

    /// Translate a local input into its effect: cursor motion and column
    /// moves stay local; a selection in the track column gathers the rows
    /// the bulk mode takes along, with the index of the anchored row.
    pub fn handle_input(&self, input: InputLocal) -> (r: InputEffect)
        ensures
            match input {
                InputLocal::Up => r == InputEffect::Local(InputLocalEffect::Up(1)),
                InputLocal::Down => r == InputEffect::Local(InputLocalEffect::Down(1)),
                InputLocal::Left => r == InputEffect::Local(InputLocalEffect::Left),
                InputLocal::Right => r == InputEffect::Local(InputLocalEffect::Right),
                InputLocal::PgUp => r == InputEffect::Local(InputLocalEffect::Up(10)),
                InputLocal::PgDown => r == InputEffect::Local(InputLocalEffect::Down(10)),
                InputLocal::Home => r == InputEffect::Local(InputLocalEffect::Home),
                InputLocal::End => r == InputEffect::Local(InputLocalEffect::End),
                InputLocal::Tab => r == InputEffect::Local(InputLocalEffect::NextTab),
                InputLocal::RevTab => r == InputEffect::Local(InputLocalEffect::PrevTab),
                InputLocal::Select => {
                    if self.selected_column is Filter {
                        r == InputEffect::Local(InputLocalEffect::Right)
                    } else if self.list_tracks.selected as int >= self.list_tracks.entries@.len() {
                        r == InputEffect::Ignored
                    } else {
                        ({
                            let e = self.list_tracks.entries@[self.list_tracks.selected as int];
                            let sel = spec_selected_tracks(
                                self.list_tracks.entries@,
                                e,
                                self.select_mode,
                            );
                            match r {
                                InputEffect::Global(
                                    InputGlobalEffect::ReplaceTracksAndPlay { tracks, index },
                                ) => {
                                    &&& tracks@ == sel
                                    &&& index as int == (if first_with_id(sel, e.id_track)
                                        < sel.len() {
                                        first_with_id(sel, e.id_track)
                                    } else {
                                        0
                                    })
                                },
                                _ => false,
                            }
                        })
                    }
                },
                InputLocal::SelectAlt => {
                    if self.selected_column is Filter {
                        r == InputEffect::Local(InputLocalEffect::Right)
                    } else if self.list_tracks.selected as int >= self.list_tracks.entries@.len() {
                        r == InputEffect::Ignored
                    } else {
                        ({
                            let e = self.list_tracks.entries@[self.list_tracks.selected as int];
                            let sel = spec_selected_tracks(
                                self.list_tracks.entries@,
                                e,
                                self.select_mode,
                            );
                            match r {
                                InputEffect::Global(InputGlobalEffect::AppendTracks(tracks)) => {
                                    tracks@ == sel
                                },
                                _ => false,
                            }
                        })
                    }
                },
            },
    {
        match input {
            InputLocal::Up => InputEffect::Local(InputLocalEffect::Up(1)),
            InputLocal::Down => InputEffect::Local(InputLocalEffect::Down(1)),
            InputLocal::Left => InputEffect::Local(InputLocalEffect::Left),
            InputLocal::Right => InputEffect::Local(InputLocalEffect::Right),
            InputLocal::PgUp => InputEffect::Local(InputLocalEffect::Up(10)),
            InputLocal::PgDown => InputEffect::Local(InputLocalEffect::Down(10)),
            InputLocal::Home => InputEffect::Local(InputLocalEffect::Home),
            InputLocal::End => InputEffect::Local(InputLocalEffect::End),
            InputLocal::Tab => InputEffect::Local(InputLocalEffect::NextTab),
            InputLocal::RevTab => InputEffect::Local(InputLocalEffect::PrevTab),
            InputLocal::Select => {
                match self.selected_column {
                    LibraryColumn::Filter => InputEffect::Local(InputLocalEffect::Right),
                    LibraryColumn::Tracks => {
                        match self.list_tracks.selected_entry() {
                            Option::None => InputEffect::Ignored,
                            Option::Some(entry) => {
                                let anchor = entry.duplicate();
                                let tracks = self.gather_selected(&anchor);
                                let index = find_track_index(&tracks, anchor.id_track);
                                InputEffect::Global(
                                    InputGlobalEffect::ReplaceTracksAndPlay { tracks, index },
                                )
                            },
                        }
                    },
                }
            },
            InputLocal::SelectAlt => {
                match self.selected_column {
                    LibraryColumn::Filter => InputEffect::Local(InputLocalEffect::Right),
                    LibraryColumn::Tracks => {
                        match self.list_tracks.selected_entry() {
                            Option::None => InputEffect::Ignored,
                            Option::Some(entry) => {
                                let anchor = entry.duplicate();
                                let tracks = self.gather_selected(&anchor);
                                InputEffect::Global(InputGlobalEffect::AppendTracks(tracks))
                            },
                        }
                    },
                }
            },
        }
    }

    /// The selectable rows of the track column that the bulk mode takes
    /// along for the anchored row.
    fn gather_selected(&self, anchor: &TrackFile) -> (r: Vec<TrackFile>)
        ensures
            r@ == spec_selected_tracks(self.list_tracks.entries@, *anchor, self.select_mode),
    {
        let ghost s = self.list_tracks.entries@;
        let ghost e = *anchor;
        let ghost mode = self.select_mode;
        let mut out: Vec<TrackFile> = Vec::new();
        let mut i: usize = 0;
        while i < self.list_tracks.entries.len()
            invariant
                self.list_tracks.entries@ == s,
                e == *anchor,
                mode == self.select_mode,
                0 <= i <= s.len(),
                spec_selected_tracks(s, e, mode) == out@ + selected_tracks_from(s, i as int, e, mode),
            decreases s.len() - i,
        {
            let t = &self.list_tracks.entries[i];
            let take = t.is_selectable() && match self.select_mode {
                LibrarySelectMode::All => true,
                LibrarySelectMode::Artist => t.id_artist == anchor.id_artist,
                LibrarySelectMode::Album => t.id_album == anchor.id_album,
                LibrarySelectMode::Track => t.id_track == anchor.id_track,
            };
            if take {
                out.push(t.duplicate());
            }
            i = i + 1;
        }
        proof {
            assert(out@ =~= spec_selected_tracks(s, e, mode));
        }
        out
    }
}

/// The first position of the track in the gathered rows, or the top when
/// it is not among them.
fn find_track_index(tracks: &Vec<TrackFile>, id: u64) -> (r: usize)
    ensures
        r as int == if first_with_id(tracks@, id) < tracks@.len() {
            first_with_id(tracks@, id)
        } else {
            0
        },
{
    let ghost s = tracks@;
    proof {
        lemma_first_with_id(s, id);
    }
    let mut i: usize = 0;
    while i < tracks.len()
        invariant
            tracks@ == s,
            0 <= i <= s.len(),
            forall|k: int| 0 <= k < i ==> (#[trigger] s[k]).id_track != id,
        decreases s.len() - i,
    {
        if tracks[i].id_track == id {
            proof {
                lemma_first_with_id(s, id);
                if first_with_id(s, id) < i {
                    assert(s[first_with_id(s, id)].id_track == id);
                }
            }
            return i;
        }
        i = i + 1;
    }
    proof {
        if first_with_id(s, id) < s.len() {
            assert(s[first_with_id(s, id)].id_track == id);
        }
    }
    0
}

/// A track equal by value to `t` sits in the suffix of `s` from `i` on.
pub open spec fn in_suffix(s: Seq<TrackFile>, i: int, t: TrackFile) -> bool {
    exists|k: int| i <= k < s.len() && s[k] == t
}

proof fn lemma_filtered_sorted(s: Seq<TrackFile>, i: int, f: Option<LibraryFilterEntry>)
    requires
        sorted_adj(s),
        0 <= i,
    ensures
        sorted_adj(filtered_from(s, i, f)),
        forall|j: int|
            0 <= j < filtered_from(s, i, f).len() ==> #[trigger] in_suffix(
                s,
                i,
                filtered_from(s, i, f)[j],
            ),
    decreases s.len() - i,
{
    lemma_sorted_pairwise(s);
    if i < s.len() {
        lemma_filtered_sorted(s, i + 1, f);
        let rest = filtered_from(s, i + 1, f);
        let flt = filtered_from(s, i, f);
        if track_matches_filter(f, s[i]) {
            assert(flt =~= seq![s[i]] + rest);
            assert forall|j: int| 0 <= j < flt.len() implies #[trigger] in_suffix(
                s,
                i,
                flt[j],
            ) by {
                if j == 0 {
                    assert(flt[0] == s[i]);
                } else {
                    assert(flt[j] == rest[j - 1]);
                    assert(in_suffix(s, i + 1, rest[j - 1]));
                    let k = choose|k: int| i + 1 <= k < s.len() && s[k] == rest[j - 1];
                    assert(i <= k < s.len() && s[k] == flt[j]);
                }
            }
            assert forall|j: int| 0 <= j < flt.len() - 1 implies le(
                #[trigger] flt[j],
                flt[j + 1],
            ) by {
                if j == 0 {
                    assert(flt[1] == rest[0]);
                    assert(in_suffix(s, i + 1, rest[0]));
                    let k = choose|k: int| i + 1 <= k < s.len() && s[k] == rest[0];
                    assert(le(s[i], s[k]));
                } else {
                    assert(flt[j] == rest[j - 1]);
                    assert(flt[j + 1] == rest[j]);
                    assert(le(rest[j - 1], rest[j]));
                }
            }
        } else {
            assert(flt =~= rest);
            assert forall|j: int| 0 <= j < flt.len() implies #[trigger] in_suffix(
                s,
                i,
                flt[j],
            ) by {
                assert(flt[j] == rest[j]);
                assert(in_suffix(s, i + 1, rest[j]));
                let k = choose|k: int| i + 1 <= k < s.len() && s[k] == rest[j];
                assert(i <= k < s.len() && s[k] == flt[j]);
            }
        }
    }
}

/// A track sorts strictly before the album banner of any later album.
proof fn lemma_le_header(a: TrackFile, b: TrackFile)
    requires
        le(a, b),
        !same_album(a, b),
    ensures
        le(a, header_of(b)),
{
    lemma_opt_chars_eq(opt_lower(a.album_artist), opt_lower(b.album_artist));
    lemma_opt_chars_eq(opt_lower(a.album_title), opt_lower(b.album_title));
}

/// An album banner sorts directly before its first track.
proof fn lemma_header_le(t: TrackFile)
    requires
        !t.is_album_padding,
    ensures
        le(header_of(t), t),
{
    lemma_opt_chars_eq(opt_lower(t.album_artist), opt_lower(t.album_artist));
    lemma_opt_chars_eq(opt_lower(t.album_title), opt_lower(t.album_title));
}

proof fn lemma_with_headers_sorted(s: Seq<TrackFile>, i: int)
    requires
        sorted_adj(s),
        forall|k: int| 0 <= k < s.len() ==> !(#[trigger] s[k]).is_album_padding,
        0 <= i,
    ensures
        sorted_adj(with_headers_from(s, i)),
        i < s.len() ==> with_headers_from(s, i).len() > 0,
        i < s.len() ==> (with_headers_from(s, i)[0] == s[i] || with_headers_from(s, i)[0]
            == header_of(s[i])),
    decreases s.len() - i,
{
    if i < s.len() {
        lemma_with_headers_sorted(s, i + 1);
        let rest = with_headers_from(s, i + 1);
        let wh = with_headers_from(s, i);
        lemma_header_le(s[i]);
        if i + 1 < s.len() {
            assert(le(s[i], s[i + 1]));
            if !same_album(s[i], s[i + 1]) {
                lemma_le_header(s[i], s[i + 1]);
            }
            assert(le(s[i], rest[0]));
        }
        if i == 0 || !same_album(s[i - 1], s[i]) {
            assert(wh =~= seq![header_of(s[i]), s[i]] + rest);
            assert forall|j: int| 0 <= j < wh.len() - 1 implies le(
                #[trigger] wh[j],
                wh[j + 1],
            ) by {
                if j == 0 {
                } else if j == 1 {
                    assert(wh[1] == s[i]);
                    assert(wh[2] == rest[0]);
                } else {
                    assert(wh[j] == rest[j - 2]);
                    assert(wh[j + 1] == rest[j - 1]);
                    assert(le(rest[j - 2], rest[j - 1]));
                }
            }
        } else {
            assert(wh =~= seq![s[i]] + rest);
            assert forall|j: int| 0 <= j < wh.len() - 1 implies le(
                #[trigger] wh[j],
                wh[j + 1],
            ) by {
                if j == 0 {
                    assert(wh[1] == rest[0]);
                } else {
                    assert(wh[j] == rest[j - 1]);
                    assert(wh[j + 1] == rest[j]);
                    assert(le(rest[j - 1], rest[j]));
                }
            }
        }
    }
}

fn opt_string_eq(a: &Option<String>, b: &Option<String>) -> (r: bool)
    ensures
        r == (opt_view(*a) == opt_view(*b)),
{
    match (a, b) {
        (Option::None, Option::None) => true,
        (Option::Some(x), Option::Some(y)) => *x == *y,
        _ => false,
    }
}

fn same_album_exec(a: &TrackFile, b: &TrackFile) -> (r: bool)
    ensures
        r == same_album(*a, *b),
{
    proof {
        lemma_opt_chars_eq(opt_lower(a.album_artist), opt_lower(b.album_artist));
        lemma_opt_chars_eq(opt_lower(a.album_title), opt_lower(b.album_title));
    }
    let year_eq = match (&a.year, &b.year) {
        (Option::None, Option::None) => true,
        (Option::Some(x), Option::Some(y)) => *x == *y,
        _ => false,
    };
    year_eq && matches!(cmp_opt_lower(&a.album_artist, &b.album_artist), Cmp::Equal) && matches!(
        cmp_opt_lower(&a.album_title, &b.album_title),
        Cmp::Equal,
    )
}

/// The filter the cursor of the filter column rests on, if any.
pub open spec fn spec_selected_filter(l: SortedListState<LibraryFilterEntry>) -> Option<
    LibraryFilterEntry,
> {
    if (l.selected as int) < l.entries@.len() {
        Option::Some(l.entries@[l.selected as int])
    } else {
        Option::None
    }
}

/// The fields `from_track` derives for a track's artist row.
pub open spec fn artist_entry_matches(track: TrackFile, e: LibraryArtistEntry) -> bool {
    &&& e.artist_id == track.id_artist
    &&& e.name_display == track.album_artist
    &&& match (track.album_artist, e.name_compare) {
        (Option::Some(s), Option::Some(t)) => t@ == artist_sort_key(s@),
        (Option::None, Option::None) => true,
        _ => false,
    }
}


/// Where the cursor of a list lands after a movement effect.
pub open spec fn spec_moved_cursor<T: Listable>(l: SortedListState<T>, effect: InputLocalEffect) -> int {
    match effect {
        InputLocalEffect::Up(n) => crate::sorted_list::spec_select_prev(
            l.entries@,
            l.selected as int,
            n as int,
        ),
        InputLocalEffect::Down(n) => crate::sorted_list::spec_select_next(
            l.entries@,
            l.selected as int,
            n as int,
        ),
        InputLocalEffect::Home => ({
            let nf = crate::sorted_list::first_selectable(l.entries@);
            if nf < l.entries@.len() {
                nf
            } else {
                0
            }
        }),
        InputLocalEffect::End => ({
            let nl = crate::sorted_list::prev_selectable(l.entries@, l.entries@.len() - 1);
            if l.entries@.len() > 0 && nl >= 0 {
                nl
            } else {
                0
            }
        }),
        _ => l.selected as int,
    }
}

impl StateLibrary {
    /// Rebuild the filter column from the store of the current tab.
    fn refresh_filter_list(&mut self)
        requires
            old(self).wf(),
        ensures
            final(self).wf(),
            final(self).list_filter.entries@ == (match old(self).selected_tab {
                LibraryTab::Artists => old(self).filters_artist@,
                LibraryTab::Year => old(self).filters_years@,
            }),
            final(self).list_filter.unique == old(self).list_filter.unique,
            final(self).list_filter.scroll_anchor == 0,
            final(self).list_filter.selected as int == ({
                let nentries = match old(self).selected_tab {
                    LibraryTab::Artists => old(self).filters_artist@,
                    LibraryTab::Year => old(self).filters_years@,
                };
                let nf = crate::sorted_list::first_selectable(nentries);
                if nf < nentries.len() {
                    nf
                } else {
                    0
                }
            }),
            final(self).tracks@ == old(self).tracks@,
            final(self).filters_artist@ == old(self).filters_artist@,
            final(self).filters_years@ == old(self).filters_years@,
            final(self).selected_tab == old(self).selected_tab,
            final(self).selected_column == old(self).selected_column,
            final(self).select_mode == old(self).select_mode,
            final(self).list_tracks == old(self).list_tracks,
    {
        match self.selected_tab {
            LibraryTab::Artists => {
                let v = crate::sorted_list::duplicate_entries(&self.filters_artist);
                self.list_filter.replace_all(v);
            },
            LibraryTab::Year => {
                let v = crate::sorted_list::duplicate_entries(&self.filters_years);
                self.list_filter.replace_all(v);
            },
        }
    }

    /// Rebuild the track column: the tracks passing the current filter, in
    /// order, with an album banner before each new album run.
    fn refresh_tracks_list(&mut self)
        requires
            old(self).wf(),
        ensures
            final(self).wf(),
            final(self).list_tracks.entries@ == spec_with_headers(
                spec_filtered(old(self).tracks@, spec_selected_filter(old(self).list_filter)),
            ),
            final(self).list_tracks.unique == old(self).list_tracks.unique,
            final(self).list_tracks.scroll_anchor == 0,
            final(self).tracks@ == old(self).tracks@,
            final(self).filters_artist@ == old(self).filters_artist@,
            final(self).filters_years@ == old(self).filters_years@,
            final(self).selected_tab == old(self).selected_tab,
            final(self).selected_column == old(self).selected_column,
            final(self).select_mode == old(self).select_mode,
            final(self).list_filter == old(self).list_filter,
    {
        let ghost ts = self.tracks@;
        let fsel: Option<LibraryFilterEntry> = match self.list_filter.selected_entry() {
            Option::Some(e) => Option::Some(e.duplicate()),
            Option::None => Option::None,
        };
        let ghost f = spec_selected_filter(self.list_filter);
        let mut filtered: Vec<TrackFile> = Vec::new();
        let mut i: usize = 0;
        while i < self.tracks.len()
            invariant
                self.tracks@ == ts,
                0 <= i <= ts.len(),
                fsel == f,
                spec_filtered(ts, f) == filtered@ + filtered_from(ts, i as int, f),
            decreases ts.len() - i,
        {
            let t = &self.tracks[i];
            let keep = match &fsel {
                Option::None => true,
                Option::Some(LibraryFilterEntry::All) => true,
                Option::Some(LibraryFilterEntry::Artist(a)) => t.id_artist == a.artist_id,
                Option::Some(LibraryFilterEntry::Year { year }) => match (year, &t.year) {
                    (Option::None, Option::None) => true,
                    (Option::Some(x), Option::Some(y)) => *x == *y,
                    _ => false,
                },
            };
            if keep {
                filtered.push(t.duplicate());
            }
            i = i + 1;
        }
        proof {
            assert(filtered@ =~= spec_filtered(ts, f));
            lemma_filtered_sorted(ts, 0, f);
            assert forall|k: int| 0 <= k < filtered@.len() implies !(
            #[trigger] filtered@[k]).is_album_padding by {
                assert(in_suffix(ts, 0, filtered@[k]));
                let w = choose|w: int| 0 <= w < ts.len() && ts[w] == filtered@[k];
                assert(!ts[w].is_album_padding);
            }
        }
        let ghost fs = filtered@;
        let mut rows: Vec<TrackFile> = Vec::new();
        let mut j: usize = 0;
        while j < filtered.len()
            invariant
                filtered@ == fs,
                0 <= j <= fs.len(),
                spec_with_headers(fs) == rows@ + with_headers_from(fs, j as int),
            decreases fs.len() - j,
        {
            let new_run = if j == 0 {
                true
            } else {
                !same_album_exec(&filtered[j - 1], &filtered[j])
            };
            if new_run {
                let mut h = filtered[j].duplicate();
                h.is_album_padding = true;
                proof {
                    assert(h == header_of(fs[j as int]));
                }
                rows.push(h);
            }
            rows.push(filtered[j].duplicate());
            j = j + 1;
        }
        proof {
            assert(rows@ =~= spec_with_headers(fs));
            lemma_with_headers_sorted(fs, 0);
        }
        self.list_tracks.replace_all(rows);
    }

    /// Apply a local effect: cursor motion, column moves, tab rotation in
    /// the filter column (followed by a rebuild of both columns), bulk-mode
    /// rotation in the track column.
    pub fn handle_input_effect(&mut self, effect: InputLocalEffect)
        requires
            old(self).wf(),
        ensures
            final(self).wf(),
            final(self).tracks@ == old(self).tracks@,
            final(self).filters_artist@ == old(self).filters_artist@,
            final(self).filters_years@ == old(self).filters_years@,
            ({
                let l0 = old(self).list_filter;
                match old(self).selected_column {
                    LibraryColumn::Filter => match effect {
                        InputLocalEffect::Left => *final(self) == *old(self),
                        InputLocalEffect::Right => *final(self) == (StateLibrary {
                            selected_column: LibraryColumn::Tracks,
                            ..*old(self)
                        }),
                        InputLocalEffect::Up(_) | InputLocalEffect::Down(_)
                        | InputLocalEffect::Home | InputLocalEffect::End => {
                            let nsel = spec_moved_cursor(l0, effect);
                            &&& final(self).selected_tab == old(self).selected_tab
                            &&& final(self).selected_column == old(self).selected_column
                            &&& final(self).select_mode == old(self).select_mode
                            &&& final(self).list_filter.entries@ == l0.entries@
                            &&& final(self).list_filter.selected as int == nsel
                            &&& final(self).list_tracks.entries@ == spec_with_headers(
                                spec_filtered(
                                    old(self).tracks@,
                                    if nsel < l0.entries@.len() {
                                        Option::Some(l0.entries@[nsel])
                                    } else {
                                        Option::None
                                    },
                                ),
                            )
                        },
                        InputLocalEffect::NextTab | InputLocalEffect::PrevTab => {
                            let ntab = spec_next_tab(old(self).selected_tab);
                            let nentries = match ntab {
                                LibraryTab::Artists => old(self).filters_artist@,
                                LibraryTab::Year => old(self).filters_years@,
                            };
                            let nsel = ({
                                let nf = crate::sorted_list::first_selectable(nentries);
                                if nf < nentries.len() {
                                    nf
                                } else {
                                    0
                                }
                            });
                            &&& final(self).selected_tab == ntab
                            &&& final(self).selected_column == old(self).selected_column
                            &&& final(self).select_mode == old(self).select_mode
                            &&& final(self).list_filter.entries@ == nentries
                            &&& final(self).list_filter.selected as int == nsel
                            &&& final(self).list_tracks.entries@ == spec_with_headers(
                                spec_filtered(
                                    old(self).tracks@,
                                    if nsel < nentries.len() {
                                        Option::Some(nentries[nsel])
                                    } else {
                                        Option::None
                                    },
                                ),
                            )
                        },
                    },
                    LibraryColumn::Tracks => {
                        let t0 = old(self).list_tracks;
                        match effect {
                            InputLocalEffect::Left => *final(self) == (StateLibrary {
                                selected_column: LibraryColumn::Filter,
                                ..*old(self)
                            }),
                            InputLocalEffect::Right => *final(self) == *old(self),
                            InputLocalEffect::NextTab => *final(self) == (StateLibrary {
                                select_mode: spec_next_mode(old(self).select_mode),
                                ..*old(self)
                            }),
                            InputLocalEffect::PrevTab => *final(self) == (StateLibrary {
                                select_mode: spec_prev_mode(old(self).select_mode),
                                ..*old(self)
                            }),
                            InputLocalEffect::Up(_) | InputLocalEffect::Down(_)
                            | InputLocalEffect::Home | InputLocalEffect::End => {
                                let nsel = spec_moved_cursor(t0, effect);
                                &&& final(self).selected_tab == old(self).selected_tab
                                &&& final(self).selected_column == old(self).selected_column
                                &&& final(self).select_mode == old(self).select_mode
                                &&& final(self).list_filter == old(self).list_filter
                                &&& final(self).list_tracks.entries@ == t0.entries@
                                &&& final(self).list_tracks.selected as int == nsel
                            },
                        }
                    },
                }
            }),
    {
        match self.selected_column {
            LibraryColumn::Filter => {
                match effect {
                    InputLocalEffect::Up(steps) => self.list_filter.select_prev(steps),
                    InputLocalEffect::Down(steps) => self.list_filter.select_next(steps),
                    InputLocalEffect::Left => {
                        return ;
                    },
                    InputLocalEffect::Right => {
                        self.selected_column = LibraryColumn::Tracks;
                        return ;
                    },
                    InputLocalEffect::Home => self.list_filter.select_start(),
                    InputLocalEffect::End => self.list_filter.select_end(),
                    InputLocalEffect::NextTab => {
                        self.selected_tab = next_tab(self.selected_tab);
                        self.refresh_filter_list();
                    },
                    InputLocalEffect::PrevTab => {
                        // with two tabs, the previous tab is the next one
                        self.selected_tab = next_tab(self.selected_tab);
                        self.refresh_filter_list();
                    },
                }
                self.refresh_tracks_list()
            },
            LibraryColumn::Tracks => match effect {
                InputLocalEffect::Up(steps) => self.list_tracks.select_prev(steps),
                InputLocalEffect::Down(steps) => self.list_tracks.select_next(steps),
                InputLocalEffect::Left => {
                    self.selected_column = LibraryColumn::Filter;
                },
                InputLocalEffect::Right => {},
                InputLocalEffect::Home => self.list_tracks.select_start(),
                InputLocalEffect::End => self.list_tracks.select_end(),
                InputLocalEffect::NextTab => {
                    self.select_mode = next_mode(self.select_mode);
                },
                InputLocalEffect::PrevTab => {
                    self.select_mode = prev_mode(self.select_mode);
                },
            },
        }
    }
}

fn next_tab(t: LibraryTab) -> (r: LibraryTab)
    ensures
        r == spec_next_tab(t),
{
    match t {
        LibraryTab::Artists => LibraryTab::Year,
        LibraryTab::Year => LibraryTab::Artists,
    }
}

fn next_mode(m: LibrarySelectMode) -> (r: LibrarySelectMode)
    ensures
        r == spec_next_mode(m),
{
    match m {
        LibrarySelectMode::All => LibrarySelectMode::Artist,
        LibrarySelectMode::Artist => LibrarySelectMode::Album,
        LibrarySelectMode::Album => LibrarySelectMode::Track,
        LibrarySelectMode::Track => LibrarySelectMode::All,
    }
}

fn prev_mode(m: LibrarySelectMode) -> (r: LibrarySelectMode)
    ensures
        r == spec_prev_mode(m),
{
    match m {
        LibrarySelectMode::All => LibrarySelectMode::Track,
        LibrarySelectMode::Artist => LibrarySelectMode::All,
        LibrarySelectMode::Album => LibrarySelectMode::Artist,
        LibrarySelectMode::Track => LibrarySelectMode::Album,
    }
}

impl StateLibrary {
    /// Take one scanned track into the library: both filter stores learn
    /// its artist and year rows, the visible filter column learns the row
    /// of the current tab, the track column gains the track (behind a
    /// fresh album banner if its album title is new there) whenever it
    /// passes the filter now under the cursor, and the track itself joins
    /// the sorted track store.
    #[verifier::rlimit(80)]
    pub fn new_track(&mut self, track: TrackFile)
        requires
            old(self).wf(),
            !track.is_album_padding,
            old(self).filters_artist@.len() < usize::MAX,
            old(self).filters_years@.len() < usize::MAX,
            old(self).list_filter.entries@.len() < usize::MAX,
            old(self).list_tracks.entries@.len() + 1 < usize::MAX,
            old(self).tracks@.len() < usize::MAX,
        ensures
            final(self).wf(),
            final(self).selected_tab == old(self).selected_tab,
            final(self).selected_column == old(self).selected_column,
            final(self).select_mode == old(self).select_mode,
            final(self).tracks@ == spec_unique_insert(old(self).tracks@, track),
            final(self).filters_years@ == spec_unique_insert(
                old(self).filters_years@,
                LibraryFilterEntry::Year { year: track.year },
            ),
            exists|e: LibraryArtistEntry|
                {
                    &&& #[trigger] artist_entry_matches(track, e)
                    &&& final(self).filters_artist@ == spec_unique_insert(
                        old(self).filters_artist@,
                        LibraryFilterEntry::Artist(e),
                    )
                    &&& final(self).list_filter.entries@ == (match old(self).selected_tab {
                        LibraryTab::Artists => spec_unique_insert(
                            old(self).list_filter.entries@,
                            LibraryFilterEntry::Artist(e),
                        ),
                        LibraryTab::Year => spec_unique_insert(
                            old(self).list_filter.entries@,
                            LibraryFilterEntry::Year { year: track.year },
                        ),
                    })
                },
            final(self).list_tracks.entries@ == (if track_matches_filter(
                spec_selected_filter(final(self).list_filter),
                track,
            ) {
                spec_track_rows_after(old(self).list_tracks.entries@, track)
            } else {
                old(self).list_tracks.entries@
            }),
    {
        let artist_entry = LibraryArtistEntry::from_track(&track);
        let ghost witness = artist_entry;
        let artist_row = LibraryFilterEntry::Artist(artist_entry);
        let year_row = LibraryFilterEntry::Year { year: track.year };
        sorted_insert_unique(&mut self.filters_artist, artist_row.duplicate());
        sorted_insert_unique(&mut self.filters_years, year_row.duplicate());
        match self.selected_tab {
            LibraryTab::Artists => self.list_filter.add(artist_row),
            LibraryTab::Year => self.list_filter.add(year_row),
        }

        let add_to_track_list = match self.list_filter.selected_entry() {
            Option::None => true,
            Option::Some(LibraryFilterEntry::All) => true,
            Option::Some(LibraryFilterEntry::Artist(a)) => a.artist_id == track.id_artist,
            Option::Some(LibraryFilterEntry::Year { year }) => match (year, &track.year) {
                (Option::None, Option::None) => true,
                (Option::Some(x), Option::Some(y)) => *x == *y,
                _ => false,
            },
        };
        if add_to_track_list {
            insert_track_with_banner(&mut self.list_tracks, &track);
        }

        sorted_insert_unique(&mut self.tracks, track);
        proof {
            let ts0 = old(self).tracks@;
            s_insert_keeps_no_padding(ts0, track);
            assert(artist_entry_matches(track, witness));
        }
    }
}

/// The track column after one track arrives: the track at its sorted
/// position, behind a fresh album banner when its album title is not in
/// the column yet.
pub open spec fn spec_track_rows_after(s0: Seq<TrackFile>, track: TrackFile) -> Seq<TrackFile> {
    let has_album = exists|k: int|
        0 <= k < s0.len() && opt_view((#[trigger] s0[k]).album_title) == opt_view(
            track.album_title,
        );
    if has_album {
        s0.insert(insert_pos(s0, track), track)
    } else {
        ({
            let s1 = s0.insert(insert_pos(s0, header_of(track)), header_of(track));
            s1.insert(insert_pos(s1, track), track)
        })
    }
}

/// Put one track into the track column, with its album banner if the
/// album title is new there.
fn insert_track_with_banner(list: &mut SortedListState<TrackFile>, track: &TrackFile)
    requires
        old(list).wf(),
        !old(list).unique,
        old(list).entries@.len() + 1 < usize::MAX,
    ensures
        final(list).wf(),
        final(list).unique == old(list).unique,
        final(list).entries@ == spec_track_rows_after(old(list).entries@, *track),
{
    let ghost s0 = list.entries@;
    let mut has_album = false;
    let mut i: usize = 0;
    while i < list.entries.len()
        invariant
            list.entries@ == s0,
            list.unique == old(list).unique,
            *list == *old(list),
            0 <= i <= s0.len(),
            has_album == exists|k: int|
                0 <= k < i && opt_view((#[trigger] s0[k]).album_title) == opt_view(
                    track.album_title,
                ),
        decreases s0.len() - i,
    {
        if opt_string_eq(&list.entries[i].album_title, &track.album_title) {
            has_album = true;
        }
        i = i + 1;
    }
    if !has_album {
        let mut header = track.duplicate();
        header.is_album_padding = true;
        proof {
            assert(header == header_of(*track));
            crate::sorted_list::lemma_insert_pos(s0, header_of(*track));
        }
        list.add(header);
        proof {
            s0.insert_ensures(insert_pos(s0, header_of(*track)), header_of(*track));
            assert(list.entries@.len() == s0.len() + 1);
        }
    }
    list.add(track.duplicate());
}

/// Inserting a plain track keeps the track store free of banner rows.
proof fn s_insert_keeps_no_padding(s: Seq<TrackFile>, track: TrackFile)
    requires
        forall|i: int| 0 <= i < s.len() ==> !(#[trigger] s[i]).is_album_padding,
        !track.is_album_padding,
    ensures
        forall|i: int|
            0 <= i < spec_unique_insert(s, track).len() ==> !(#[trigger] spec_unique_insert(
                s,
                track,
            )[i]).is_album_padding,
{
    if !contains_eqv(s, track) {
        let p = insert_pos(s, track);
        crate::sorted_list::lemma_insert_pos(s, track);
        s.insert_ensures(p, track);
        let sp = spec_unique_insert(s, track);
        assert forall|i: int| 0 <= i < sp.len() implies !(#[trigger] sp[i]).is_album_padding by {
            if i < p {
                assert(sp[i] == s[i]);
            } else if i == p {
                assert(sp[i] == track);
            } else {
                assert(sp[i] == s[i - 1]);
            }
        }
    }
}

/// The bulk selection never holds more rows than the track column.
pub proof fn lemma_selected_tracks_len(s: Seq<TrackFile>, i: int)
    ensures
        forall|e: TrackFile, mode: LibrarySelectMode|
            (#[trigger] selected_tracks_from(s, i, e, mode)).len() <= (if i < s.len() {
                s.len() - i
            } else {
                0
            }),
    decreases s.len() - i,
{
    if i < s.len() {
        lemma_selected_tracks_len(s, i + 1);
        assert forall|e: TrackFile, mode: LibrarySelectMode|
            (#[trigger] selected_tracks_from(s, i, e, mode)).len() <= s.len() - i by {
            assert(selected_tracks_from(s, i + 1, e, mode).len() <= (if i + 1 < s.len() {
                s.len() - i - 1
            } else {
                0
            }));
        }
    }
}

} // verus!
