//! Key-event handling: the transitions of the shared UI state.
//!
//! Every handler mutates the state and returns an [`Outcome`] saying
//! whether observers on the shared condition variable must be woken,
//! whether the input loop must stop, and which collaborator action
//! (playback, unsupported feature) the event requests. The surrounding
//! input loop owns the lock and the condition variable; the handlers
//! themselves are pure state transitions.
use crate::navigation::{advance_index, get_page, index_after, page_for, HeadTo};
use crate::query::{copy_chars, trim_chars, trimmed};
use crate::rotation::{advance_list, rotated_next, rotated_prev};
use crate::state::{
    sidebar_option_at, spec_sidebar_option_at, with_request, ArtistUnit, ArtistbarSource,
    FillFetch, MusicUnit, MusicbarSource, PageSet, PlaylistUnit, PlaylistbarSource, SearchQuery,
    SidebarOption, SourceTags, State, Window, SIDEBAR_LIST_COUNT,
};
use vstd::prelude::*;

verus! {

/// Shortcut key that focuses the search panel.
pub const SEARCH_SH_KEY: char = '/';

/// Shortcut key reserved for the help panel.
pub const HELP_SH_KEY: char = '?';

/// Shortcut key for page-forward / play-next.
pub const NEXT_SH_KEY: char = 'n';

/// Shortcut key for page-backward / play-previous.
pub const PREV_SH_KEY: char = 'p';

/// Shortcut key that requests shutdown.
pub const QUIT_SH_KEY: char = 'q';

/// Shortcut key reserved for seeking forward.
pub const SEEK_F_KEY: char = '>';

/// Shortcut key reserved for seeking backward.
pub const SEEK_B_KEY: char = '<';

/// Shortcut key that toggles playback pause.
pub const TOGGLE_PAUSE_KEY: char = ' ';

/// A decoded key, reduced to what the handlers dispatch on.
#[derive(Clone, Copy, Debug, PartialEq, Eq, Structural)]
pub enum Key {
    Down,
    Up,
    Left,
    Right,
    PageDown,
    PageUp,
    Tab,
    BackTab,
    Esc,
    Enter,
    Backspace,
    Delete,
    Char(char),
    Other,
}

/// A key press together with whether a control modifier was held.
#[derive(Clone, Copy, Debug, PartialEq, Eq, Structural)]
pub struct KeyInput {
    pub code: Key,
    pub ctrl: bool,
}

/// One observation of the terminal: a key, a resize, a pointer event,
/// or a poll timeout (`Tick`, the periodic refresh).
#[derive(Clone, Copy, Debug, PartialEq, Eq, Structural)]
pub enum TermEvent {
    Key(KeyInput),
    Resize,
    Mouse,
    Tick,
}

/// The collaborator action an event requests, if any.
#[derive(Clone, Copy, Debug, PartialEq, Eq, Structural)]
pub enum Action {
    /// Nothing to do beyond the state change.
    Stay,
    /// Start playing the front row of the music panel.
    PlayFirst,
    /// Toggle playback pause.
    TogglePause,
    /// The event reached a feature that is not wired up yet.
    Unsupported,
}

/// What an event asks of the surrounding loop: wake the observers,
/// stop the loop, and/or perform a collaborator action.
#[derive(Clone, Copy, Debug, PartialEq, Eq, Structural)]
pub struct Outcome {
    pub notify: bool,
    pub quit: bool,
    pub action: Action,
}

/// Observers must be woken; the loop goes on.
pub open spec fn notified_outcome() -> Outcome {
    Outcome { notify: true, quit: false, action: Action::Stay }
}

/// Nothing happened: no wakeup, no action.
pub open spec fn silent_outcome() -> Outcome {
    Outcome { notify: false, quit: false, action: Action::Stay }
}

/// The event reached a not-yet-supported feature: no state change,
/// the caller is told so.
pub open spec fn unsupported_outcome() -> Outcome {
    Outcome { notify: false, quit: false, action: Action::Unsupported }
}

/// A row list rotated one step in `direction` (unchanged when empty or
/// for the identity direction).
pub open spec fn seq_rotated<T>(pre: Seq<T>, post: Seq<T>, direction: HeadTo) -> bool {
    if pre.len() == 0 || direction == HeadTo::Initial {
        post == pre
    } else if direction == HeadTo::Next {
        post == rotated_next(pre)
    } else {
        post == rotated_prev(pre)
    }
}

/// Rotating a row list changes it — and so wakes observers — exactly
/// when the list is non-empty and the step is a real one.
pub open spec fn rotation_notifies<T>(s: Seq<T>, direction: HeadTo) -> bool {
    s.len() > 0 && direction != HeadTo::Initial
}

/// The sidebar cursor moved one circular step; nothing else changed.
pub open spec fn sidebar_advanced(pre: State, post: State, direction: HeadTo, r: Outcome) -> bool {
    &&& post == (State { sidebar: post.sidebar, ..pre })
    &&& post.sidebar == index_after(pre.sidebar, SIDEBAR_LIST_COUNT, direction)
    &&& r == notified_outcome()
}

/// The music panel's selection rotated; nothing else changed.
pub open spec fn music_advanced(pre: State, post: State, direction: HeadTo, r: Outcome) -> bool {
    &&& post == (State { musicbar: post.musicbar, ..pre })
    &&& seq_rotated(pre.musicbar@, post.musicbar@, direction)
    &&& r == (Outcome {
        notify: rotation_notifies(pre.musicbar@, direction),
        quit: false,
        action: Action::Stay,
    })
}

/// The playlist panel's selection rotated; nothing else changed.
pub open spec fn playlist_advanced(pre: State, post: State, direction: HeadTo, r: Outcome) -> bool {
    &&& post == (State { playlistbar: post.playlistbar, ..pre })
    &&& seq_rotated(pre.playlistbar@, post.playlistbar@, direction)
    &&& r == (Outcome {
        notify: rotation_notifies(pre.playlistbar@, direction),
        quit: false,
        action: Action::Stay,
    })
}

/// The artist panel's selection rotated; nothing else changed.
pub open spec fn artist_advanced(pre: State, post: State, direction: HeadTo, r: Outcome) -> bool {
    &&& post == (State { artistbar: post.artistbar, ..pre })
    &&& seq_rotated(pre.artistbar@, post.artistbar@, direction)
    &&& r == (Outcome {
        notify: rotation_notifies(pre.artistbar@, direction),
        quit: false,
        action: Action::Stay,
    })
}

/// Focus moved to `w`; nothing else changed, observers are woken.
pub open spec fn focus_moved(pre: State, post: State, w: Window, r: Outcome) -> bool {
    &&& post == (State { active: w, ..pre })
    &&& r == notified_outcome()
}

impl State {
    /// Moves the sidebar cursor one step through the option list.
    pub fn advance_sidebar(&mut self, direction: HeadTo) -> (r: Outcome)
        requires
            old(self).wf(),
        ensures
            final(self).wf(),
            sidebar_advanced(*old(self), *final(self), direction, r),
    {
        let current = self.sidebar;
        self.sidebar = advance_index(current, SIDEBAR_LIST_COUNT, direction);
        Outcome { notify: true, quit: false, action: Action::Stay }
    }

    /// Rotates the music panel's selection.
    pub fn advance_music_list(&mut self, direction: HeadTo) -> (r: Outcome)
        ensures
            music_advanced(*old(self), *final(self), direction, r),
    {
        let changed = advance_list(&mut self.musicbar, direction);
        Outcome { notify: changed, quit: false, action: Action::Stay }
    }

    /// Rotates the playlist panel's selection.
    pub fn advance_playlist_list(&mut self, direction: HeadTo) -> (r: Outcome)
        ensures
            playlist_advanced(*old(self), *final(self), direction, r),
    {
        let changed = advance_list(&mut self.playlistbar, direction);
        Outcome { notify: changed, quit: false, action: Action::Stay }
    }

    /// Rotates the artist panel's selection.
    pub fn advance_artist_list(&mut self, direction: HeadTo) -> (r: Outcome)
        ensures
            artist_advanced(*old(self), *final(self), direction, r),
    {
        let changed = advance_list(&mut self.artistbar, direction);
        Outcome { notify: changed, quit: false, action: Action::Stay }
    }

    /// Requests shutdown: focus becomes the terminal sentinel, the
    /// observers are woken, and the caller is told to stop its loop.
    pub fn quit(&mut self) -> (r: Outcome)
        ensures
            *final(self) == (State { active: Window::Shutdown, ..*old(self) }),
            r == (Outcome { notify: true, quit: true, action: Action::Stay }),
    {
        self.active = Window::Shutdown;
        Outcome { notify: true, quit: true, action: Action::Stay }
    }

    /// Cycles focus to the next panel.
    pub fn moveto_next_window(&mut self) -> (r: Outcome)
        ensures
            focus_moved(*old(self), *final(self), old(self).active.spec_next(), r),
    {
        self.active = self.active.next();
        Outcome { notify: true, quit: false, action: Action::Stay }
    }

    /// Cycles focus to the previous panel.
    pub fn moveto_prev_window(&mut self) -> (r: Outcome)
        ensures
            focus_moved(*old(self), *final(self), old(self).active.spec_prev(), r),
    {
        self.active = self.active.prev();
        Outcome { notify: true, quit: false, action: Action::Stay }
    }

    /// Escape: from the search panel, clears the live query and moves
    /// focus onward; anywhere else it does nothing.
    pub fn handle_esc(&mut self) -> (r: Outcome)
        ensures
            esc_spec(*old(self), *final(self), r),
    {
        if self.active == Window::Searchbar {
            self.search.live.clear();
            self.moveto_next_window()
        } else {
            Outcome { notify: false, quit: false, action: Action::Stay }
        }
    }

    /// Backspace / Delete: in the search panel, deletes the last typed
    /// character; anywhere else it acts as focus-previous.
    pub fn handle_backspace(&mut self) -> (r: Outcome)
        ensures
            backspace_spec(*old(self), *final(self), r),
    {
        match self.active {
            Window::Searchbar => {
                self.search.live.pop();
                Outcome { notify: true, quit: false, action: Action::Stay }
            },
            _ => self.moveto_prev_window(),
        }
    }

    /// Appends one typed character to the live search query.
    pub fn handle_search_input(&mut self, ch: char) -> (r: Outcome)
        ensures
            *final(self) == (State {
                search: (SearchQuery { live: final(self).search.live, ..old(self).search }),
                ..*old(self)
            }),
            final(self).search.live@ == old(self).search.live@.push(ch),
            r == notified_outcome(),
    {
        self.search.live.push(ch);
        Outcome { notify: true, quit: false, action: Action::Stay }
    }

    /// Focuses the search panel.
    pub fn activate_search(&mut self) -> (r: Outcome)
        ensures
            focus_moved(*old(self), *final(self), Window::Searchbar, r),
    {
        self.active = Window::Searchbar;
        Outcome { notify: true, quit: false, action: Action::Stay }
    }

    /// Up / PageUp: moves the focused panel's selection or cursor one
    /// step backward; from a panel without one, focus-previous.
    pub fn handle_up(&mut self) -> (r: Outcome)
        requires
            old(self).wf(),
        ensures
            final(self).wf(),
            vertical_spec(*old(self), *final(self), r, HeadTo::Prev),
    {
        match self.active {
            Window::Sidebar => self.advance_sidebar(HeadTo::Prev),
            Window::Musicbar => self.advance_music_list(HeadTo::Prev),
            Window::Playlistbar => self.advance_playlist_list(HeadTo::Prev),
            Window::Artistbar => self.advance_artist_list(HeadTo::Prev),
            _ => self.moveto_prev_window(),
        }
    }

    /// Down / PageDown: moves the focused panel's selection or cursor
    /// one step forward; from a panel without one, focus-next.
    pub fn handle_down(&mut self) -> (r: Outcome)
        requires
            old(self).wf(),
        ensures
            final(self).wf(),
            vertical_spec(*old(self), *final(self), r, HeadTo::Next),
    {
        match self.active {
            Window::Sidebar => self.advance_sidebar(HeadTo::Next),
            Window::Musicbar => self.advance_music_list(HeadTo::Next),
            Window::Playlistbar => self.advance_playlist_list(HeadTo::Next),
            Window::Artistbar => self.advance_artist_list(HeadTo::Next),
            _ => self.moveto_next_window(),
        }
    }
}

/// Escape either leaves the search panel (clearing the live query and
/// cycling focus onward) or does nothing.
pub open spec fn esc_spec(pre: State, post: State, r: Outcome) -> bool {
    if pre.active == Window::Searchbar {
        &&& post == (State {
            active: Window::Searchbar.spec_next(),
            search: (SearchQuery { live: post.search.live, ..pre.search }),
            ..pre
        })
        &&& post.search.live@ == Seq::<char>::empty()
        &&& r == notified_outcome()
    } else {
        post == pre && r == silent_outcome()
    }
}

/// Backspace deletes in the search panel and acts as focus-previous
/// everywhere else.
pub open spec fn backspace_spec(pre: State, post: State, r: Outcome) -> bool {
    if pre.active == Window::Searchbar {
        &&& post == (State {
            search: (SearchQuery { live: post.search.live, ..pre.search }),
            ..pre
        })
        &&& post.search.live@ == (if pre.search.live@.len() > 0 {
            pre.search.live@.drop_last()
        } else {
            pre.search.live@
        })
        &&& r == notified_outcome()
    } else {
        focus_moved(pre, post, pre.active.spec_prev(), r)
    }
}

/// All recorded pages leave room for one forward step without
/// overflowing the machine word; a forward page request needs this.
pub open spec fn pages_below_max(s: State) -> bool {
    &&& (s.fetched_page.music matches Some(p) ==> p < usize::MAX)
    &&& (s.fetched_page.playlist matches Some(p) ==> p < usize::MAX)
    &&& (s.fetched_page.artist matches Some(p) ==> p < usize::MAX)
}

/// The trending-feed request that a navigation step from `pre` composes.
pub open spec fn trending_request(pre: State, direction: HeadTo) -> FillFetch {
    FillFetch::Trending(page_for(pre.fetched_page.music, direction) as usize)
}

/// A trending request was issued: the request slot holds it, the
/// status text says so, observers are woken; nothing else changed.
pub open spec fn trending_filled(pre: State, post: State, direction: HeadTo, r: Outcome) -> bool {
    &&& post == (State { help: post.help, ..with_request(pre, trending_request(pre, direction)) })
    &&& post.help@ == "Fetching.."@
    &&& r == notified_outcome()
}

/// A search request scoped to the music column was issued: the request
/// carries the committed query and the music column's next page, the
/// music panel is retagged to `Search`, observers are woken.
pub open spec fn search_filled_music(pre: State, post: State, direction: HeadTo, r: Outcome) -> bool {
    &&& post == (State {
        filled_source: (SourceTags { music: MusicbarSource::Search, ..pre.filled_source }),
        help: post.help,
        ..with_request(pre, post.to_fetch)
    })
    &&& post.to_fetch matches FillFetch::Search(q, pages) && q@ == pre.search.committed@
        && pages == (PageSet {
        music: Some(page_for(pre.fetched_page.music, direction) as usize),
        playlist: None,
        artist: None,
    })
    &&& post.help@ == "Searching.."@
    &&& r == notified_outcome()
}

/// A search request scoped to the playlist column was issued.
pub open spec fn search_filled_playlist(pre: State, post: State, direction: HeadTo, r: Outcome) -> bool {
    &&& post == (State {
        filled_source: (SourceTags { playlist: PlaylistbarSource::Search, ..pre.filled_source }),
        help: post.help,
        ..with_request(pre, post.to_fetch)
    })
    &&& post.to_fetch matches FillFetch::Search(q, pages) && q@ == pre.search.committed@
        && pages == (PageSet {
        music: None,
        playlist: Some(page_for(pre.fetched_page.playlist, direction) as usize),
        artist: None,
    })
    &&& post.help@ == "Searching.."@
    &&& r == notified_outcome()
}

/// A search request scoped to the artist column was issued.
pub open spec fn search_filled_artist(pre: State, post: State, direction: HeadTo, r: Outcome) -> bool {
    &&& post == (State {
        filled_source: (SourceTags { artist: ArtistbarSource::Search, ..pre.filled_source }),
        help: post.help,
        ..with_request(pre, post.to_fetch)
    })
    &&& post.to_fetch matches FillFetch::Search(q, pages) && q@ == pre.search.committed@
        && pages == (PageSet {
        music: None,
        playlist: None,
        artist: Some(page_for(pre.fetched_page.artist, direction) as usize),
    })
    &&& post.help@ == "Searching.."@
    &&& r == notified_outcome()
}

/// A search request for all three columns was issued and all three
/// panels were retagged to `Search`.
pub open spec fn search_filled_all(pre: State, post: State, direction: HeadTo, r: Outcome) -> bool {
    &&& post == (State {
        filled_source: (SourceTags {
            music: MusicbarSource::Search,
            playlist: PlaylistbarSource::Search,
            artist: ArtistbarSource::Search,
        }),
        help: post.help,
        ..with_request(pre, post.to_fetch)
    })
    &&& post.to_fetch matches FillFetch::Search(q, pages) && q@ == pre.search.committed@
        && pages == (PageSet {
        music: Some(page_for(pre.fetched_page.music, direction) as usize),
        playlist: Some(page_for(pre.fetched_page.playlist, direction) as usize),
        artist: Some(page_for(pre.fetched_page.artist, direction) as usize),
    })
    &&& post.help@ == "Searching.."@
    &&& r == notified_outcome()
}

/// The same playlist's next page was requested: the music column's
/// page counter advances and the request slot holds a playlist fetch.
pub open spec fn playlist_refilled(pre: State, post: State, direction: HeadTo) -> bool {
    &&& post == (State { fetched_page: post.fetched_page, ..with_request(pre, FillFetch::Playlist) })
    &&& post.fetched_page == (PageSet {
        music: Some(page_for(pre.fetched_page.music, direction) as usize),
        ..pre.fetched_page
    })
}

/// The playlist column's page counter advanced for an artist-sourced
/// playlist panel; no request slot change.
pub open spec fn artist_playlist_paged(pre: State, post: State, direction: HeadTo) -> bool {
    &&& post == (State { fetched_page: post.fetched_page, ..pre })
    &&& post.fetched_page == (PageSet {
        playlist: Some(page_for(pre.fetched_page.playlist, direction) as usize),
        ..pre.fetched_page
    })
}

impl State {
    /// Composes a trending-feed request for the music panel's next
    /// page and hands it to the worker.
    pub fn fill_trending_music(&mut self, direction: HeadTo) -> (r: Outcome)
        requires
            old(self).fetched_page.music matches Some(p) ==> (direction != HeadTo::Next || p
                < usize::MAX),
        ensures
            trending_filled(*old(self), *final(self), direction, r),
    {
        let page = get_page(&self.fetched_page.music, direction);
        self.to_fetch = FillFetch::Trending(page);
        self.help = "Fetching..";
        Outcome { notify: true, quit: false, action: Action::Stay }
    }

    /// Composes a search request for the music column only.
    pub fn fill_search_music(&mut self, direction: HeadTo) -> (r: Outcome)
        requires
            old(self).fetched_page.music matches Some(p) ==> (direction != HeadTo::Next || p
                < usize::MAX),
        ensures
            search_filled_music(*old(self), *final(self), direction, r),
    {
        let page = get_page(&self.fetched_page.music, direction);
        let query = copy_chars(&self.search.committed);
        self.to_fetch = FillFetch::Search(
            query,
            PageSet { music: Some(page), playlist: None, artist: None },
        );
        self.help = "Searching..";
        self.filled_source.music = MusicbarSource::Search;
        Outcome { notify: true, quit: false, action: Action::Stay }
    }

    /// Composes a search request for the playlist column only.
    pub fn fill_search_playlist(&mut self, direction: HeadTo) -> (r: Outcome)
        requires
            old(self).fetched_page.playlist matches Some(p) ==> (direction != HeadTo::Next || p
                < usize::MAX),
        ensures
            search_filled_playlist(*old(self), *final(self), direction, r),
    {
        let page = get_page(&self.fetched_page.playlist, direction);
        let query = copy_chars(&self.search.committed);
        self.to_fetch = FillFetch::Search(
            query,
            PageSet { music: None, playlist: Some(page), artist: None },
        );
        self.help = "Searching..";
        self.filled_source.playlist = PlaylistbarSource::Search;
        Outcome { notify: true, quit: false, action: Action::Stay }
    }

    /// Composes a search request for the artist column only.
    pub fn fill_search_artist(&mut self, direction: HeadTo) -> (r: Outcome)
        requires
            old(self).fetched_page.artist matches Some(p) ==> (direction != HeadTo::Next || p
                < usize::MAX),
        ensures
            search_filled_artist(*old(self), *final(self), direction, r),
    {
        let page = get_page(&self.fetched_page.artist, direction);
        let query = copy_chars(&self.search.committed);
        self.to_fetch = FillFetch::Search(
            query,
            PageSet { music: None, playlist: None, artist: Some(page) },
        );
        self.help = "Searching..";
        self.filled_source.artist = ArtistbarSource::Search;
        Outcome { notify: true, quit: false, action: Action::Stay }
    }

    /// Composes a search request for all three columns and retags all
    /// three panels to the search feed.
    pub fn fill_search_all(&mut self, direction: HeadTo) -> (r: Outcome)
        requires
            direction == HeadTo::Next ==> pages_below_max(*old(self)),
        ensures
            search_filled_all(*old(self), *final(self), direction, r),
    {
        let music_page = get_page(&self.fetched_page.music, direction);
        let playlist_page = get_page(&self.fetched_page.playlist, direction);
        let artist_page = get_page(&self.fetched_page.artist, direction);
        let query = copy_chars(&self.search.committed);
        self.to_fetch = FillFetch::Search(
            query,
            PageSet {
                music: Some(music_page),
                playlist: Some(playlist_page),
                artist: Some(artist_page),
            },
        );
        self.help = "Searching..";
        self.filled_source.music = MusicbarSource::Search;
        self.filled_source.playlist = PlaylistbarSource::Search;
        self.filled_source.artist = ArtistbarSource::Search;
        Outcome { notify: true, quit: false, action: Action::Stay }
    }

    /// Requests the next page of the playlist that currently fills the
    /// music panel; a no-op unless the panel is playlist-sourced.
    pub fn fill_music_from_playlist(&mut self, direction: HeadTo) -> (r: Outcome)
        requires
            old(self).fetched_page.music matches Some(p) ==> (direction != HeadTo::Next || p
                < usize::MAX),
        ensures
            old(self).filled_source.music is Playlist ==> playlist_refilled(
                *old(self),
                *final(self),
                direction,
            ) && r == notified_outcome(),
            !(old(self).filled_source.music is Playlist) ==> *final(self) == *old(self) && r
                == silent_outcome(),
    {
        if matches!(&self.filled_source.music, MusicbarSource::Playlist(_)) {
            let page = get_page(&self.fetched_page.music, direction);
            self.fetched_page.music = Some(page);
            self.to_fetch = FillFetch::Playlist;
            Outcome { notify: true, quit: false, action: Action::Stay }
        } else {
            Outcome { notify: false, quit: false, action: Action::Stay }
        }
    }

    /// Advances the playlist column's page counter when the playlist
    /// panel is artist-sourced; a no-op otherwise.
    pub fn fill_playlist_from_artist(&mut self, direction: HeadTo) -> (r: Outcome)
        requires
            old(self).fetched_page.playlist matches Some(p) ==> (direction != HeadTo::Next || p
                < usize::MAX),
        ensures
            old(self).filled_source.playlist is Artist ==> artist_playlist_paged(
                *old(self),
                *final(self),
                direction,
            ) && r == notified_outcome(),
            !(old(self).filled_source.playlist is Artist) ==> *final(self) == *old(self) && r
                == silent_outcome(),
    {
        if matches!(&self.filled_source.playlist, PlaylistbarSource::Artist(_)) {
            let page = get_page(&self.fetched_page.playlist, direction);
            self.fetched_page.playlist = Some(page);
            Outcome { notify: true, quit: false, action: Action::Stay }
        } else {
            Outcome { notify: false, quit: false, action: Action::Stay }
        }
    }

    /// Rotates the music selection and asks the playback backend to
    /// start the new front row.
    pub fn handle_play_advance(&mut self, direction: HeadTo) -> (r: Outcome)
        ensures
            *final(self) == (State { musicbar: final(self).musicbar, ..*old(self) }),
            seq_rotated(old(self).musicbar@, final(self).musicbar@, direction),
            r == (Outcome {
                notify: rotation_notifies(old(self).musicbar@, direction),
                quit: false,
                action: Action::PlayFirst,
            }),
    {
        let rotated = advance_list(&mut self.musicbar, direction);
        Outcome { notify: rotated, quit: false, action: Action::PlayFirst }
    }

    /// Pages the focused panel through its current feed: what a page
    /// step means depends on the panel's source tag.
    pub fn handle_page_nav(&mut self, direction: HeadTo) -> (r: Outcome)
        requires
            direction == HeadTo::Next ==> pages_below_max(*old(self)),
        ensures
            page_nav_spec(*old(self), *final(self), r, direction),
    {
        match self.active {
            Window::Musicbar => {
                if matches!(&self.filled_source.music, MusicbarSource::Trending) {
                    self.fill_trending_music(direction)
                } else if matches!(&self.filled_source.music, MusicbarSource::Search) {
                    self.fill_search_music(direction)
                } else if matches!(&self.filled_source.music, MusicbarSource::Playlist(_)) {
                    self.fill_music_from_playlist(direction)
                } else {
                    Outcome { notify: false, quit: false, action: Action::Stay }
                }
            },
            Window::Playlistbar => {
                if matches!(&self.filled_source.playlist, PlaylistbarSource::Search) {
                    self.fill_search_playlist(direction)
                } else if matches!(&self.filled_source.playlist, PlaylistbarSource::Artist(_)) {
                    Outcome { notify: false, quit: false, action: Action::Unsupported }
                } else {
                    Outcome { notify: false, quit: false, action: Action::Stay }
                }
            },
            Window::Artistbar => {
                if matches!(&self.filled_source.artist, ArtistbarSource::Search) {
                    self.fill_search_artist(direction)
                } else {
                    Outcome { notify: false, quit: false, action: Action::Stay }
                }
            },
            _ => Outcome { notify: false, quit: false, action: Action::Stay },
        }
    }
}

/// Page-navigation routing: the meaning of a page step is decided by
/// the focused panel and its source tag; reserved feeds are silent
/// no-ops, and paging an artist-sourced playlist panel is explicitly
/// unsupported.
pub open spec fn page_nav_spec(pre: State, post: State, r: Outcome, direction: HeadTo) -> bool {
    match pre.active {
        Window::Musicbar => match pre.filled_source.music {
            MusicbarSource::Trending => trending_filled(pre, post, direction, r),
            MusicbarSource::Search => search_filled_music(pre, post, direction, r),
            MusicbarSource::Playlist(_) => playlist_refilled(pre, post, direction) && r
                == notified_outcome(),
            _ => post == pre && r == silent_outcome(),
        },
        Window::Playlistbar => match pre.filled_source.playlist {
            PlaylistbarSource::Search => search_filled_playlist(pre, post, direction, r),
            PlaylistbarSource::Artist(_) => post == pre && r == unsupported_outcome(),
            _ => post == pre && r == silent_outcome(),
        },
        Window::Artistbar => match pre.filled_source.artist {
            ArtistbarSource::Search => search_filled_artist(pre, post, direction, r),
            _ => post == pre && r == silent_outcome(),
        },
        _ => post == pre && r == silent_outcome(),
    }
}

impl State {
    /// Enter: activates the focused panel's selection — a sidebar
    /// option, playback of the front music row, a search commit, or
    /// drilling into the front playlist/artist row.
    pub fn handle_enter(&mut self) -> (r: Outcome)
        requires
            old(self).wf(),
        ensures
            final(self).wf(),
            enter_spec(*old(self), *final(self), r),
    {
        match self.active {
            Window::Sidebar => {
                let choice = sidebar_option_at(self.sidebar);
                match choice {
                    SidebarOption::Trending => {
                        self.fetched_page.music = None;
                        self.filled_source.music = MusicbarSource::Trending;
                        self.musicbar.clear();
                        self.fill_trending_music(HeadTo::Initial)
                    },
                    SidebarOption::YoutubeCommunity => {
                        self.filled_source.music = MusicbarSource::YoutubeCommunity;
                        self.musicbar.clear();
                        Outcome { notify: false, quit: false, action: Action::Stay }
                    },
                    SidebarOption::Favourites => {
                        self.filled_source.music = MusicbarSource::Favourites;
                        self.filled_source.playlist = PlaylistbarSource::Favourites;
                        self.filled_source.artist = ArtistbarSource::Followings;
                        self.musicbar.clear();
                        self.playlistbar.clear();
                        self.artistbar.clear();
                        Outcome { notify: false, quit: false, action: Action::Stay }
                    },
                    SidebarOption::RecentlyPlayed => {
                        self.filled_source.music = MusicbarSource::RecentlyPlayed;
                        self.filled_source.playlist = PlaylistbarSource::RecentlyPlayed;
                        self.filled_source.artist = ArtistbarSource::RecentlyPlayed;
                        self.musicbar.clear();
                        self.playlistbar.clear();
                        self.artistbar.clear();
                        Outcome { notify: false, quit: false, action: Action::Stay }
                    },
                    SidebarOption::Search => self.activate_search(),
                    SidebarOption::Nothing => Outcome {
                        notify: false,
                        quit: false,
                        action: Action::Stay,
                    },
                }
            },
            Window::Musicbar => Outcome { notify: false, quit: false, action: Action::PlayFirst },
            Window::Searchbar => {
                let committed = trim_chars(&self.search.live);
                self.search.committed = committed;
                self.fetched_page = PageSet { music: None, playlist: None, artist: None };
                self.musicbar.clear();
                self.playlistbar.clear();
                self.artistbar.clear();
                self.fill_search_all(HeadTo::Initial)
            },
            Window::Playlistbar => {
                if self.playlistbar.len() > 0 {
                    let id = copy_chars(&self.playlistbar[0].id);
                    self.filled_source.music = MusicbarSource::Playlist(id);
                    self.fetched_page.music = None;
                    self.musicbar.clear();
                    self.fill_music_from_playlist(HeadTo::Initial)
                } else {
                    Outcome { notify: false, quit: false, action: Action::Stay }
                }
            },
            Window::Artistbar => {
                if self.artistbar.len() > 0 {
                    let music_id = copy_chars(&self.artistbar[0].id);
                    let playlist_id = copy_chars(&self.artistbar[0].id);
                    self.filled_source.music = MusicbarSource::Artist(music_id);
                    self.filled_source.playlist = PlaylistbarSource::Artist(playlist_id);
                    self.fetched_page.music = None;
                    self.fetched_page.playlist = None;
                    self.musicbar.clear();
                    self.playlistbar.clear();
                    self.fill_playlist_from_artist(HeadTo::Initial)
                } else {
                    Outcome { notify: false, quit: false, action: Action::Stay }
                }
            },
            _ => Outcome { notify: false, quit: false, action: Action::Stay },
        }
    }
}

/// Enter routing, one case per focused panel. Sidebar options retag
/// and clear the panels they refill; a search commit freezes the
/// trimmed query, resets all pagination and rows, and issues the
/// all-columns search; activating a playlist or artist row retags the
/// panels it drills into.
pub open spec fn enter_spec(pre: State, post: State, r: Outcome) -> bool {
    match pre.active {
        Window::Sidebar => match spec_sidebar_option_at(pre.sidebar) {
            SidebarOption::Trending => {
                let mid = State {
                    fetched_page: PageSet { music: None, ..pre.fetched_page },
                    filled_source: SourceTags {
                        music: MusicbarSource::Trending,
                        ..pre.filled_source
                    },
                    musicbar: post.musicbar,
                    ..pre
                };
                &&& post.musicbar@ == Seq::<MusicUnit>::empty()
                &&& trending_filled(mid, post, HeadTo::Initial, r)
            },
            SidebarOption::YoutubeCommunity => {
                &&& post == (State {
                    filled_source: (SourceTags {
                        music: MusicbarSource::YoutubeCommunity,
                        ..pre.filled_source
                    }),
                    musicbar: post.musicbar,
                    ..pre
                })
                &&& post.musicbar@ == Seq::<MusicUnit>::empty()
                &&& r == silent_outcome()
            },
            SidebarOption::Favourites => {
                &&& post == (State {
                    filled_source: (SourceTags {
                        music: MusicbarSource::Favourites,
                        playlist: PlaylistbarSource::Favourites,
                        artist: ArtistbarSource::Followings,
                    }),
                    musicbar: post.musicbar,
                    playlistbar: post.playlistbar,
                    artistbar: post.artistbar,
                    ..pre
                })
                &&& post.musicbar@ == Seq::<MusicUnit>::empty()
                &&& post.playlistbar@ == Seq::<PlaylistUnit>::empty()
                &&& post.artistbar@ == Seq::<ArtistUnit>::empty()
                &&& r == silent_outcome()
            },
            SidebarOption::RecentlyPlayed => {
                &&& post == (State {
                    filled_source: (SourceTags {
                        music: MusicbarSource::RecentlyPlayed,
                        playlist: PlaylistbarSource::RecentlyPlayed,
                        artist: ArtistbarSource::RecentlyPlayed,
                    }),
                    musicbar: post.musicbar,
                    playlistbar: post.playlistbar,
                    artistbar: post.artistbar,
                    ..pre
                })
                &&& post.musicbar@ == Seq::<MusicUnit>::empty()
                &&& post.playlistbar@ == Seq::<PlaylistUnit>::empty()
                &&& post.artistbar@ == Seq::<ArtistUnit>::empty()
                &&& r == silent_outcome()
            },
            SidebarOption::Search => focus_moved(pre, post, Window::Searchbar, r),
            SidebarOption::Nothing => post == pre && r == silent_outcome(),
        },
        Window::Musicbar => post == pre && r == (Outcome {
            notify: false,
            quit: false,
            action: Action::PlayFirst,
        }),
        Window::Searchbar => {
            let mid = State {
                search: SearchQuery { live: pre.search.live, committed: post.search.committed },
                fetched_page: PageSet { music: None, playlist: None, artist: None },
                musicbar: post.musicbar,
                playlistbar: post.playlistbar,
                artistbar: post.artistbar,
                ..pre
            };
            &&& post.search.committed@ == trimmed(pre.search.live@)
            &&& post.musicbar@ == Seq::<MusicUnit>::empty()
            &&& post.playlistbar@ == Seq::<PlaylistUnit>::empty()
            &&& post.artistbar@ == Seq::<ArtistUnit>::empty()
            &&& search_filled_all(mid, post, HeadTo::Initial, r)
        },
        Window::Playlistbar => {
            if pre.playlistbar@.len() == 0 {
                post == pre && r == silent_outcome()
            } else {
                let mid = State {
                    filled_source: SourceTags {
                        music: post.filled_source.music,
                        ..pre.filled_source
                    },
                    fetched_page: PageSet { music: None, ..pre.fetched_page },
                    musicbar: post.musicbar,
                    ..pre
                };
                &&& post.filled_source.music matches MusicbarSource::Playlist(id) && id@
                    == pre.playlistbar@[0].id@
                &&& post.musicbar@ == Seq::<MusicUnit>::empty()
                &&& playlist_refilled(mid, post, HeadTo::Initial)
                &&& r == notified_outcome()
            }
        },
        Window::Artistbar => {
            if pre.artistbar@.len() == 0 {
                post == pre && r == silent_outcome()
            } else {
                let mid = State {
                    filled_source: SourceTags {
                        music: post.filled_source.music,
                        playlist: post.filled_source.playlist,
                        ..pre.filled_source
                    },
                    fetched_page: PageSet { music: None, playlist: None, ..pre.fetched_page },
                    musicbar: post.musicbar,
                    playlistbar: post.playlistbar,
                    ..pre
                };
                &&& post.filled_source.music matches MusicbarSource::Artist(id) && id@
                    == pre.artistbar@[0].id@
                &&& post.filled_source.playlist matches PlaylistbarSource::Artist(id) && id@
                    == pre.artistbar@[0].id@
                &&& post.musicbar@ == Seq::<MusicUnit>::empty()
                &&& post.playlistbar@ == Seq::<PlaylistUnit>::empty()
                &&& artist_playlist_paged(mid, post, HeadTo::Initial)
                &&& r == notified_outcome()
            }
        },
        _ => post == pre && r == silent_outcome(),
    }
}

/// Up/Down routing: a selection step in the panel that has one, a
/// focus move in the others.
pub open spec fn vertical_spec(pre: State, post: State, r: Outcome, direction: HeadTo) -> bool {
    match pre.active {
        Window::Sidebar => sidebar_advanced(pre, post, direction, r),
        Window::Musicbar => music_advanced(pre, post, direction, r),
        Window::Playlistbar => playlist_advanced(pre, post, direction, r),
        Window::Artistbar => artist_advanced(pre, post, direction, r),
        _ => focus_moved(
            pre,
            post,
            if direction == HeadTo::Next {
                pre.active.spec_next()
            } else {
                pre.active.spec_prev()
            },
            r,
        ),
    }
}

/// Character routing: typed into the live query while the search
/// panel is focused, otherwise looked up in the fixed shortcut table.
pub open spec fn char_spec(pre: State, post: State, r: Outcome, c: char, ctrl: bool) -> bool {
    if pre.active == Window::Searchbar {
        &&& post == (State {
            search: (SearchQuery { live: post.search.live, ..pre.search }),
            ..pre
        })
        &&& post.search.live@ == pre.search.live@.push(c)
        &&& r == notified_outcome()
    } else if c == SEARCH_SH_KEY {
        focus_moved(pre, post, Window::Searchbar, r)
    } else if c == HELP_SH_KEY {
        post == pre && r == unsupported_outcome()
    } else if c == QUIT_SH_KEY {
        post == (State { active: Window::Shutdown, ..pre }) && r == (Outcome {
            notify: true,
            quit: true,
            action: Action::Stay,
        })
    } else if c == NEXT_SH_KEY || c == PREV_SH_KEY {
        let direction = if c == NEXT_SH_KEY {
            HeadTo::Next
        } else {
            HeadTo::Prev
        };
        if ctrl {
            &&& post == (State { musicbar: post.musicbar, ..pre })
            &&& seq_rotated(pre.musicbar@, post.musicbar@, direction)
            &&& r == (Outcome {
                notify: rotation_notifies(pre.musicbar@, direction),
                quit: false,
                action: Action::PlayFirst,
            })
        } else {
            page_nav_spec(pre, post, r, direction)
        }
    } else if c == SEEK_F_KEY || c == SEEK_B_KEY {
        post == pre && r == silent_outcome()
    } else if c == TOGGLE_PAUSE_KEY {
        post == pre && r == (Outcome { notify: false, quit: false, action: Action::TogglePause })
    } else {
        post == pre && r == silent_outcome()
    }
}

/// Key routing: each decoded key maps to exactly one handler.
pub open spec fn key_spec(pre: State, post: State, r: Outcome, key: KeyInput) -> bool {
    match key.code {
        Key::Down | Key::PageDown => vertical_spec(pre, post, r, HeadTo::Next),
        Key::Up | Key::PageUp => vertical_spec(pre, post, r, HeadTo::Prev),
        Key::Right | Key::Tab => focus_moved(pre, post, pre.active.spec_next(), r),
        Key::Left | Key::BackTab => focus_moved(pre, post, pre.active.spec_prev(), r),
        Key::Esc => esc_spec(pre, post, r),
        Key::Enter => enter_spec(pre, post, r),
        Key::Backspace | Key::Delete => backspace_spec(pre, post, r),
        Key::Char(c) => char_spec(pre, post, r, c, key.ctrl),
        Key::Other => post == pre && r == silent_outcome(),
    }
}

/// Event routing: a key goes to the key handlers, a resize and a poll
/// timeout only wake the observers, pointer events are ignored.
pub open spec fn event_spec(pre: State, post: State, r: Outcome, ev: TermEvent) -> bool {
    match ev {
        TermEvent::Key(key) => key_spec(pre, post, r, key),
        TermEvent::Resize => post == pre && r == notified_outcome(),
        TermEvent::Mouse => post == pre && r == silent_outcome(),
        TermEvent::Tick => post == pre && r == notified_outcome(),
    }
}

/// The one event shape whose handling computes a forward page number:
/// a plain (uncontrolled) page-forward shortcut outside the search
/// panel.
pub open spec fn needs_page_room(pre: State, ev: TermEvent) -> bool {
    ev matches TermEvent::Key(key) && pre.active != Window::Searchbar && !key.ctrl && key.code
        == Key::Char(NEXT_SH_KEY)
}

impl State {
    /// Routes one decoded key press to its handler.
    pub fn handle_key(&mut self, key: KeyInput) -> (r: Outcome)
        requires
            old(self).wf(),
            needs_page_room(*old(self), TermEvent::Key(key)) ==> pages_below_max(*old(self)),
        ensures
            final(self).wf(),
            key_spec(*old(self), *final(self), r, key),
    {
        match key.code {
            Key::Down | Key::PageDown => self.handle_down(),
            Key::Up | Key::PageUp => self.handle_up(),
            Key::Right | Key::Tab => self.moveto_next_window(),
            Key::Left | Key::BackTab => self.moveto_prev_window(),
            Key::Esc => self.handle_esc(),
            Key::Enter => self.handle_enter(),
            Key::Backspace | Key::Delete => self.handle_backspace(),
            Key::Char(ch) => {
                if self.active == Window::Searchbar {
                    self.handle_search_input(ch)
                } else if ch == SEARCH_SH_KEY {
                    self.activate_search()
                } else if ch == HELP_SH_KEY {
                    Outcome { notify: false, quit: false, action: Action::Unsupported }
                } else if ch == QUIT_SH_KEY {
                    self.quit()
                } else if ch == NEXT_SH_KEY {
                    if key.ctrl {
                        self.handle_play_advance(HeadTo::Next)
                    } else {
                        self.handle_page_nav(HeadTo::Next)
                    }
                } else if ch == PREV_SH_KEY {
                    if key.ctrl {
                        self.handle_play_advance(HeadTo::Prev)
                    } else {
                        self.handle_page_nav(HeadTo::Prev)
                    }
                } else if ch == SEEK_F_KEY || ch == SEEK_B_KEY {
                    Outcome { notify: false, quit: false, action: Action::Stay }
                } else if ch == TOGGLE_PAUSE_KEY {
                    Outcome { notify: false, quit: false, action: Action::TogglePause }
                } else {
                    Outcome { notify: false, quit: false, action: Action::Stay }
                }
            },
            Key::Other => Outcome { notify: false, quit: false, action: Action::Stay },
        }
    }

    /// Handles one observation of the terminal: the single entry point
    /// the input loop calls for every event, including the periodic
    /// poll timeout.
    pub fn handle_event(&mut self, ev: TermEvent) -> (r: Outcome)
        requires
            old(self).wf(),
            needs_page_room(*old(self), ev) ==> pages_below_max(*old(self)),
        ensures
            final(self).wf(),
            event_spec(*old(self), *final(self), r, ev),
    {
        match ev {
            TermEvent::Key(key) => self.handle_key(key),
            TermEvent::Resize => Outcome { notify: true, quit: false, action: Action::Stay },
            TermEvent::Mouse => Outcome { notify: false, quit: false, action: Action::Stay },
            TermEvent::Tick => Outcome { notify: true, quit: false, action: Action::Stay },
        }
    }
}

} // verus!
