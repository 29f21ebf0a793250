//! The shared UI state record and its vocabulary of types.
//!
//! One instance of [`State`] is shared between the input thread and the
//! render/fetch worker; the input-side handlers mutate it and report
//! through an [`Outcome`](crate::handlers::Outcome) whether observers
//! must be woken. The fetch-request slot `to_fetch` holds at most one
//! outstanding request: issuing a new one overwrites the previous one.
use std::collections::VecDeque;
use vstd::prelude::*;

verus! {

/// Number of entries in the fixed sidebar option list.
pub const SIDEBAR_LIST_COUNT: usize = 6;

/// The focusable panels. `Shutdown` is the terminal sentinel: reaching
/// it means the process is shutting down, and no transition leaves it.
#[derive(Clone, Copy, Debug, PartialEq, Eq, Structural)]
pub enum Window {
    Shutdown,
    Sidebar,
    Musicbar,
    Playlistbar,
    Artistbar,
    Searchbar,
    Helpbar,
}

impl Window {
    /// The next panel in the fixed cyclic focus order; `Shutdown` is
    /// terminal and stays put.
    pub open spec fn spec_next(self) -> Window {
        match self {
            Window::Sidebar => Window::Musicbar,
            Window::Musicbar => Window::Playlistbar,
            Window::Playlistbar => Window::Artistbar,
            Window::Artistbar => Window::Searchbar,
            Window::Searchbar => Window::Helpbar,
            Window::Helpbar => Window::Sidebar,
            Window::Shutdown => Window::Shutdown,
        }
    }

    /// The previous panel in the fixed cyclic focus order.
    pub open spec fn spec_prev(self) -> Window {
        match self {
            Window::Sidebar => Window::Helpbar,
            Window::Musicbar => Window::Sidebar,
            Window::Playlistbar => Window::Musicbar,
            Window::Artistbar => Window::Playlistbar,
            Window::Searchbar => Window::Artistbar,
            Window::Helpbar => Window::Searchbar,
            Window::Shutdown => Window::Shutdown,
        }
    }

    /// Cycles focus forward through the panels.
    pub fn next(&self) -> (w: Window)
        ensures
            w == self.spec_next(),
    {
        match self {
            Window::Sidebar => Window::Musicbar,
            Window::Musicbar => Window::Playlistbar,
            Window::Playlistbar => Window::Artistbar,
            Window::Artistbar => Window::Searchbar,
            Window::Searchbar => Window::Helpbar,
            Window::Helpbar => Window::Sidebar,
            Window::Shutdown => Window::Shutdown,
        }
    }

    /// Cycles focus backward through the panels.
    pub fn prev(&self) -> (w: Window)
        ensures
            w == self.spec_prev(),
    {
        match self {
            Window::Sidebar => Window::Helpbar,
            Window::Musicbar => Window::Sidebar,
            Window::Playlistbar => Window::Musicbar,
            Window::Artistbar => Window::Playlistbar,
            Window::Searchbar => Window::Artistbar,
            Window::Helpbar => Window::Searchbar,
            Window::Shutdown => Window::Shutdown,
        }
    }
}

/// Cycling focus forward and then backward (or the reverse) restores
/// the focused panel.
pub proof fn lemma_window_cycle_round_trip(w: Window)
    requires
        w != Window::Shutdown,
    ensures
        w.spec_next().spec_prev() == w,
        w.spec_prev().spec_next() == w,
{
}

/// The options of the fixed sidebar list, in display order.
#[derive(Clone, Copy, Debug, PartialEq, Eq, Structural)]
pub enum SidebarOption {
    Trending,
    YoutubeCommunity,
    Favourites,
    RecentlyPlayed,
    Search,
    Nothing,
}

/// The sidebar option shown at `index` in the fixed list.
pub open spec fn spec_sidebar_option_at(index: usize) -> SidebarOption {
    if index == 0 {
        SidebarOption::Trending
    } else if index == 1 {
        SidebarOption::YoutubeCommunity
    } else if index == 2 {
        SidebarOption::Favourites
    } else if index == 3 {
        SidebarOption::RecentlyPlayed
    } else if index == 4 {
        SidebarOption::Search
    } else {
        SidebarOption::Nothing
    }
}

/// Looks up the sidebar option at a valid list index.
pub fn sidebar_option_at(index: usize) -> (choice: SidebarOption)
    requires
        index < SIDEBAR_LIST_COUNT,
    ensures
        choice == spec_sidebar_option_at(index),
{
    if index == 0 {
        SidebarOption::Trending
    } else if index == 1 {
        SidebarOption::YoutubeCommunity
    } else if index == 2 {
        SidebarOption::Favourites
    } else if index == 3 {
        SidebarOption::RecentlyPlayed
    } else if index == 4 {
        SidebarOption::Search
    } else {
        SidebarOption::Nothing
    }
}

/// Which logical feed currently fills the music panel.
#[derive(Clone, Debug, PartialEq, Eq)]
pub enum MusicbarSource {
    Trending,
    YoutubeCommunity,
    RecentlyPlayed,
    Favourites,
    Search,
    Playlist(Vec<char>),
    Artist(Vec<char>),
}

/// Which logical feed currently fills the playlist panel.
#[derive(Clone, Debug, PartialEq, Eq)]
pub enum PlaylistbarSource {
    Search,
    Artist(Vec<char>),
    Favourites,
    RecentlyPlayed,
}

/// Which logical feed currently fills the artist panel.
#[derive(Clone, Debug, PartialEq, Eq)]
pub enum ArtistbarSource {
    Followings,
    Search,
    RecentlyPlayed,
}

/// The source tags of the three row panels. A panel's rows are only
/// meaningful relative to its tag, so retagging is always paired with
/// clearing the rows.
#[derive(Clone, Debug, PartialEq, Eq)]
pub struct SourceTags {
    pub music: MusicbarSource,
    pub playlist: PlaylistbarSource,
    pub artist: ArtistbarSource,
}

/// The last page fetched for each of the three row panels; `None`
/// means not yet fetched (or reset).
#[derive(Clone, Copy, Debug, PartialEq, Eq, Structural)]
pub struct PageSet {
    pub music: Option<usize>,
    pub playlist: Option<usize>,
    pub artist: Option<usize>,
}

/// A row of the music panel.
#[derive(Clone, Debug, PartialEq, Eq)]
pub struct MusicUnit {
    pub id: Vec<char>,
}

/// A row of the playlist panel.
#[derive(Clone, Debug, PartialEq, Eq)]
pub struct PlaylistUnit {
    pub id: Vec<char>,
}

/// A row of the artist panel.
#[derive(Clone, Debug, PartialEq, Eq)]
pub struct ArtistUnit {
    pub id: Vec<char>,
}

/// The search query pair: `live` mutates on every keystroke while the
/// search panel is focused; `committed` is frozen at commit time and
/// used as the fetch key.
#[derive(Clone, Debug, PartialEq, Eq)]
pub struct SearchQuery {
    pub live: Vec<char>,
    pub committed: Vec<char>,
}

/// The fetch request handed to the external worker. The slot holds at
/// most one request; a new one overwrites the old (no queueing).
#[derive(Clone, Debug, PartialEq, Eq)]
pub enum FillFetch {
    /// No request outstanding.
    Idle,
    /// Fetch the given page of the trending feed.
    Trending(usize),
    /// Fetch the given pages of search results for the committed query,
    /// one optional page per panel column.
    Search(Vec<char>, PageSet),
    /// Fetch a page of the playlist recorded in the music panel's
    /// source tag, at the page recorded in `fetched_page`.
    Playlist,
}

/// The single shared UI state record.
#[derive(Debug)]
pub struct State {
    /// The currently focused panel.
    pub active: Window,
    /// Cursor into the fixed sidebar option list.
    pub sidebar: usize,
    /// Rows of the music panel; the front row is the selected one.
    pub musicbar: VecDeque<MusicUnit>,
    /// Rows of the playlist panel; the front row is the selected one.
    pub playlistbar: VecDeque<PlaylistUnit>,
    /// Rows of the artist panel; the front row is the selected one.
    pub artistbar: VecDeque<ArtistUnit>,
    /// Which feed currently fills each row panel.
    pub filled_source: SourceTags,
    /// Last fetched page per row panel.
    pub fetched_page: PageSet,
    /// Live and committed search queries.
    pub search: SearchQuery,
    /// The outstanding fetch request, if any.
    pub to_fetch: FillFetch,
    /// Transient status text.
    pub help: &'static str,
}

impl State {
    /// Structural well-formedness: the sidebar cursor stays inside the
    /// fixed option list.
    pub open spec fn wf(self) -> bool {
        self.sidebar < SIDEBAR_LIST_COUNT
    }

    /// The startup state: focus on the sidebar, everything empty and
    /// unfetched, no request outstanding.
    pub fn new() -> (s: State)
        ensures
            s.wf(),
            s.active == Window::Sidebar,
            s.sidebar == 0,
            s.musicbar@ == Seq::<MusicUnit>::empty(),
            s.playlistbar@ == Seq::<PlaylistUnit>::empty(),
            s.artistbar@ == Seq::<ArtistUnit>::empty(),
            s.filled_source == (SourceTags {
                music: MusicbarSource::Trending,
                playlist: PlaylistbarSource::RecentlyPlayed,
                artist: ArtistbarSource::RecentlyPlayed,
            }),
            s.fetched_page == (PageSet { music: None, playlist: None, artist: None }),
            s.search.live@ == Seq::<char>::empty(),
            s.search.committed@ == Seq::<char>::empty(),
            s.to_fetch == FillFetch::Idle,
    {
        State {
            active: Window::Sidebar,
            sidebar: 0,
            musicbar: VecDeque::new(),
            playlistbar: VecDeque::new(),
            artistbar: VecDeque::new(),
            filled_source: SourceTags {
                music: MusicbarSource::Trending,
                playlist: PlaylistbarSource::RecentlyPlayed,
                artist: ArtistbarSource::RecentlyPlayed,
            },
            fetched_page: PageSet { music: None, playlist: None, artist: None },
            search: SearchQuery { live: Vec::new(), committed: Vec::new() },
            to_fetch: FillFetch::Idle,
            help: "Press ?",
        }
    }
}

/// The state with `request` placed in the single outstanding-request
/// slot; every contract that issues a fetch request goes through this.
pub open spec fn with_request(s: State, request: FillFetch) -> State {
    State { to_fetch: request, ..s }
}

/// At most one fetch request is ever outstanding: issuing `second`
/// after `first` leaves exactly the state that issuing `second` alone
/// would leave — the earlier request is overwritten, not queued.
pub proof fn lemma_request_overwrite(s: State, first: FillFetch, second: FillFetch)
    ensures
        with_request(with_request(s, first), second) == with_request(s, second),
{
}

} // verus!
