use vstd::prelude::*;

use crate::config::ConfTheme;
use crate::library::LibraryColumn;
use crate::library::LibrarySelectMode;
use crate::library::LibraryTab;
use crate::library_entry::LibraryFilterEntry;
use crate::library_entry::TrackFile;
use crate::playback_clock::GlobalPlaybackSnapshot;
use crate::playlist::StatePlaylist;
use crate::ui_state::GlobalUiStateSnapshot;

verus! {

/// What every widget of a frame reads: the two shared-state snapshots, a
/// copy of the playlist, and the theme.
#[derive(Clone, Debug)]
pub struct RenderDataCommon {
    pub term: GlobalUiStateSnapshot,
    pub playback: GlobalPlaybackSnapshot,
    pub playlist: StatePlaylist,
    pub theme: ConfTheme,
}

/// The view-specific half of a frame.
#[derive(Clone, Debug)]
pub enum RenderDataView {
    Library(RenderDataViewLibrary),
}

/// The visible windows of the two library columns and where their cursors
/// sit inside them.
#[derive(Clone, Debug)]
pub struct RenderDataViewLibrary {
    pub column_selected: LibraryColumn,
    pub tab_selected: LibraryTab,
    pub track_select_mode: LibrarySelectMode,
    pub list_height: usize,
    pub left: Vec<LibraryFilterEntry>,
    pub left_selected: usize,
    pub right: Vec<TrackFile>,
    pub right_selected: usize,
}

} // verus!
