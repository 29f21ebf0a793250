use std::collections::VecDeque;
use ytui_input::handlers::{Action, Key, KeyInput, Outcome, TermEvent};
use ytui_input::navigation::HeadTo;
use ytui_input::state::{
    sidebar_option_at, ArtistUnit, ArtistbarSource, FillFetch, MusicUnit, MusicbarSource, PageSet,
    PlaylistUnit, PlaylistbarSource, SidebarOption, State, Window,
};

fn chars(text: &str) -> Vec<char> {
    text.chars().collect()
}

fn key(code: Key) -> TermEvent {
    TermEvent::Key(KeyInput { code, ctrl: false })
}

fn ctrl_key(code: Key) -> TermEvent {
    TermEvent::Key(KeyInput { code, ctrl: true })
}

fn music_rows(ids: &[&str]) -> VecDeque<MusicUnit> {
    ids.iter().map(|id| MusicUnit { id: chars(id) }).collect()
}

#[test]
fn enter_on_sidebar_search_option_focuses_searchbar_without_fetch() {
    let mut state = State::new();
    state.active = Window::Sidebar;
    state.sidebar = 4;
    let outcome = state.handle_event(key(Key::Enter));
    assert_eq!(state.active, Window::Searchbar);
    assert_eq!(state.to_fetch, FillFetch::Idle);
    assert_eq!(
        outcome,
        Outcome { notify: true, quit: false, action: Action::Stay }
    );
}

#[test]
fn enter_in_searchbar_commits_trimmed_query_and_requests_all_columns() {
    let mut state = State::new();
    state.active = Window::Searchbar;
    state.search.live = chars("  lofi  ");
    state.fetched_page = PageSet { music: Some(4), playlist: Some(1), artist: None };
    state.musicbar = music_rows(&["m1"]);
    state.playlistbar = VecDeque::from(vec![PlaylistUnit { id: chars("p1") }]);
    state.artistbar = VecDeque::from(vec![ArtistUnit { id: chars("a1") }]);
    let outcome = state.handle_event(key(Key::Enter));
    assert_eq!(state.search.committed, chars("lofi"));
    assert_eq!(state.search.live, chars("  lofi  "));
    assert!(state.musicbar.is_empty());
    assert!(state.playlistbar.is_empty());
    assert!(state.artistbar.is_empty());
    assert_eq!(
        state.fetched_page,
        PageSet { music: None, playlist: None, artist: None }
    );
    assert_eq!(
        state.to_fetch,
        FillFetch::Search(
            chars("lofi"),
            PageSet { music: Some(0), playlist: Some(0), artist: Some(0) }
        )
    );
    assert_eq!(state.filled_source.music, MusicbarSource::Search);
    assert_eq!(state.filled_source.playlist, PlaylistbarSource::Search);
    assert_eq!(state.filled_source.artist, ArtistbarSource::Search);
    assert_eq!(state.help, "Searching..");
    assert_eq!(
        outcome,
        Outcome { notify: true, quit: false, action: Action::Stay }
    );
}

#[test]
fn page_forward_on_trending_musicbar_requests_next_page() {
    let mut state = State::new();
    state.active = Window::Musicbar;
    state.filled_source.music = MusicbarSource::Trending;
    state.fetched_page.music = Some(2);
    let outcome = state.handle_event(key(Key::Char('n')));
    assert_eq!(state.to_fetch, FillFetch::Trending(3));
    assert_eq!(state.help, "Fetching..");
    assert_eq!(
        outcome,
        Outcome { notify: true, quit: false, action: Action::Stay }
    );
}

#[test]
fn page_backward_on_trending_musicbar_requests_previous_page() {
    let mut state = State::new();
    state.active = Window::Musicbar;
    state.filled_source.music = MusicbarSource::Trending;
    state.fetched_page.music = Some(3);
    state.handle_event(key(Key::Char('p')));
    assert_eq!(state.to_fetch, FillFetch::Trending(2));
}

#[test]
fn control_next_rotates_music_list_and_requests_playback() {
    let mut state = State::new();
    state.active = Window::Musicbar;
    state.filled_source.music = MusicbarSource::Trending;
    state.musicbar = music_rows(&["a", "b", "c"]);
    let outcome = state.handle_event(ctrl_key(Key::Char('n')));
    assert_eq!(state.musicbar, music_rows(&["b", "c", "a"]));
    assert_eq!(
        outcome,
        Outcome { notify: true, quit: false, action: Action::PlayFirst }
    );
    assert_eq!(state.to_fetch, FillFetch::Idle);
}

#[test]
fn quit_shortcut_sets_shutdown_sentinel_and_stops_loop() {
    let mut state = State::new();
    state.active = Window::Musicbar;
    let outcome = state.handle_event(key(Key::Char('q')));
    assert_eq!(state.active, Window::Shutdown);
    assert_eq!(
        outcome,
        Outcome { notify: true, quit: true, action: Action::Stay }
    );
}

#[test]
fn second_request_overwrites_the_first() {
    let mut state = State::new();
    state.active = Window::Musicbar;
    state.filled_source.music = MusicbarSource::Trending;
    state.handle_event(key(Key::Char('n')));
    assert_eq!(state.to_fetch, FillFetch::Trending(0));
    state.filled_source.music = MusicbarSource::Search;
    state.search.committed = chars("jazz");
    state.handle_event(key(Key::Char('n')));
    assert_eq!(
        state.to_fetch,
        FillFetch::Search(
            chars("jazz"),
            PageSet { music: Some(0), playlist: None, artist: None }
        )
    );
}

#[test]
fn typing_in_searchbar_appends_even_shortcut_characters() {
    let mut state = State::new();
    state.active = Window::Searchbar;
    state.handle_event(key(Key::Char('q')));
    state.handle_event(key(Key::Char('n')));
    assert_eq!(state.search.live, chars("qn"));
    assert_eq!(state.active, Window::Searchbar);
}

#[test]
fn backspace_in_searchbar_deletes_one_character() {
    let mut state = State::new();
    state.active = Window::Searchbar;
    state.search.live = chars("abc");
    let outcome = state.handle_event(key(Key::Backspace));
    assert_eq!(state.search.live, chars("ab"));
    assert!(outcome.notify);
}

#[test]
fn backspace_outside_searchbar_moves_focus_back() {
    let mut state = State::new();
    state.active = Window::Musicbar;
    state.handle_event(key(Key::Delete));
    assert_eq!(state.active, Window::Sidebar);
}

#[test]
fn esc_in_searchbar_clears_live_query_and_moves_on() {
    let mut state = State::new();
    state.active = Window::Searchbar;
    state.search.live = chars("half typed");
    let outcome = state.handle_event(key(Key::Esc));
    assert!(state.search.live.is_empty());
    assert_eq!(state.active, Window::Helpbar);
    assert!(outcome.notify);
}

#[test]
fn esc_elsewhere_is_silent() {
    let mut state = State::new();
    state.active = Window::Musicbar;
    let outcome = state.handle_event(key(Key::Esc));
    assert_eq!(state.active, Window::Musicbar);
    assert_eq!(
        outcome,
        Outcome { notify: false, quit: false, action: Action::Stay }
    );
}

#[test]
fn slash_shortcut_focuses_searchbar() {
    let mut state = State::new();
    state.active = Window::Musicbar;
    let outcome = state.handle_event(key(Key::Char('/')));
    assert_eq!(state.active, Window::Searchbar);
    assert!(outcome.notify);
}

#[test]
fn help_shortcut_is_reported_unsupported() {
    let mut state = State::new();
    state.active = Window::Musicbar;
    let outcome = state.handle_event(key(Key::Char('?')));
    assert_eq!(
        outcome,
        Outcome { notify: false, quit: false, action: Action::Unsupported }
    );
}

#[test]
fn space_requests_pause_toggle() {
    let mut state = State::new();
    state.active = Window::Musicbar;
    let outcome = state.handle_event(key(Key::Char(' ')));
    assert_eq!(
        outcome,
        Outcome { notify: false, quit: false, action: Action::TogglePause }
    );
}

#[test]
fn enter_on_musicbar_requests_playback_of_front_row() {
    let mut state = State::new();
    state.active = Window::Musicbar;
    state.musicbar = music_rows(&["a", "b"]);
    let outcome = state.handle_event(key(Key::Enter));
    assert_eq!(state.musicbar, music_rows(&["a", "b"]));
    assert_eq!(
        outcome,
        Outcome { notify: false, quit: false, action: Action::PlayFirst }
    );
}

#[test]
fn enter_on_playlist_row_retags_music_panel_and_requests_playlist() {
    let mut state = State::new();
    state.active = Window::Playlistbar;
    state.playlistbar = VecDeque::from(vec![
        PlaylistUnit { id: chars("pl-7") },
        PlaylistUnit { id: chars("pl-8") },
    ]);
    state.musicbar = music_rows(&["old"]);
    state.fetched_page.music = Some(9);
    let outcome = state.handle_event(key(Key::Enter));
    assert_eq!(state.filled_source.music, MusicbarSource::Playlist(chars("pl-7")));
    assert_eq!(state.fetched_page.music, Some(0));
    assert!(state.musicbar.is_empty());
    assert_eq!(state.to_fetch, FillFetch::Playlist);
    assert!(outcome.notify);
}

#[test]
fn enter_on_empty_playlistbar_is_silent() {
    let mut state = State::new();
    state.active = Window::Playlistbar;
    let outcome = state.handle_event(key(Key::Enter));
    assert_eq!(state.to_fetch, FillFetch::Idle);
    assert_eq!(
        outcome,
        Outcome { notify: false, quit: false, action: Action::Stay }
    );
}

#[test]
fn enter_on_artist_row_retags_music_and_playlist_panels() {
    let mut state = State::new();
    state.active = Window::Artistbar;
    state.artistbar = VecDeque::from(vec![ArtistUnit { id: chars("ch-1") }]);
    state.musicbar = music_rows(&["old"]);
    state.playlistbar = VecDeque::from(vec![PlaylistUnit { id: chars("old") }]);
    state.fetched_page = PageSet { music: Some(2), playlist: Some(2), artist: Some(2) };
    let outcome = state.handle_event(key(Key::Enter));
    assert_eq!(state.filled_source.music, MusicbarSource::Artist(chars("ch-1")));
    assert_eq!(
        state.filled_source.playlist,
        PlaylistbarSource::Artist(chars("ch-1"))
    );
    assert!(state.musicbar.is_empty());
    assert!(state.playlistbar.is_empty());
    assert_eq!(
        state.fetched_page,
        PageSet { music: None, playlist: Some(0), artist: Some(2) }
    );
    assert_eq!(state.to_fetch, FillFetch::Idle);
    assert!(outcome.notify);
}

#[test]
fn enter_on_sidebar_trending_clears_music_panel_and_requests_first_page() {
    let mut state = State::new();
    state.active = Window::Sidebar;
    state.sidebar = 0;
    state.filled_source.music = MusicbarSource::Search;
    state.fetched_page.music = Some(6);
    state.musicbar = music_rows(&["stale"]);
    let outcome = state.handle_event(key(Key::Enter));
    assert_eq!(state.filled_source.music, MusicbarSource::Trending);
    assert!(state.musicbar.is_empty());
    assert_eq!(state.fetched_page.music, None);
    assert_eq!(state.to_fetch, FillFetch::Trending(0));
    assert_eq!(state.help, "Fetching..");
    assert!(outcome.notify);
}

#[test]
fn paging_a_reserved_music_source_is_a_silent_no_op() {
    let mut state = State::new();
    state.active = Window::Musicbar;
    state.filled_source.music = MusicbarSource::YoutubeCommunity;
    let outcome = state.handle_event(key(Key::Char('n')));
    assert_eq!(state.to_fetch, FillFetch::Idle);
    assert_eq!(
        outcome,
        Outcome { notify: false, quit: false, action: Action::Stay }
    );
}

#[test]
fn paging_artist_sourced_playlistbar_is_unsupported() {
    let mut state = State::new();
    state.active = Window::Playlistbar;
    state.filled_source.playlist = PlaylistbarSource::Artist(chars("ch-1"));
    let outcome = state.handle_event(key(Key::Char('n')));
    assert_eq!(state.to_fetch, FillFetch::Idle);
    assert_eq!(
        outcome,
        Outcome { notify: false, quit: false, action: Action::Unsupported }
    );
}

#[test]
fn tab_and_backtab_cycle_focus() {
    let mut state = State::new();
    state.active = Window::Sidebar;
    state.handle_event(key(Key::Tab));
    assert_eq!(state.active, Window::Musicbar);
    state.handle_event(key(Key::BackTab));
    assert_eq!(state.active, Window::Sidebar);
    state.handle_event(key(Key::BackTab));
    assert_eq!(state.active, Window::Helpbar);
}

#[test]
fn down_moves_sidebar_cursor_and_wraps() {
    let mut state = State::new();
    state.active = Window::Sidebar;
    state.sidebar = 5;
    state.handle_event(key(Key::Down));
    assert_eq!(state.sidebar, 0);
    state.handle_event(key(Key::Up));
    assert_eq!(state.sidebar, 5);
}

#[test]
fn down_rotates_focused_music_list() {
    let mut state = State::new();
    state.active = Window::Musicbar;
    state.musicbar = music_rows(&["a", "b", "c"]);
    let outcome = state.handle_event(key(Key::Down));
    assert_eq!(state.musicbar, music_rows(&["b", "c", "a"]));
    assert!(outcome.notify);
}

#[test]
fn poll_timeout_only_wakes_observers() {
    let mut state = State::new();
    let before_active = state.active;
    let outcome = state.handle_event(TermEvent::Tick);
    assert_eq!(state.active, before_active);
    assert_eq!(state.to_fetch, FillFetch::Idle);
    assert_eq!(
        outcome,
        Outcome { notify: true, quit: false, action: Action::Stay }
    );
}

#[test]
fn resize_only_wakes_observers() {
    let mut state = State::new();
    let outcome = state.handle_event(TermEvent::Resize);
    assert_eq!(
        outcome,
        Outcome { notify: true, quit: false, action: Action::Stay }
    );
}

#[test]
fn pointer_events_are_ignored() {
    let mut state = State::new();
    let outcome = state.handle_event(TermEvent::Mouse);
    assert_eq!(
        outcome,
        Outcome { notify: false, quit: false, action: Action::Stay }
    );
}

#[test]
fn sidebar_option_order_matches_the_fixed_list() {
    assert_eq!(sidebar_option_at(0), SidebarOption::Trending);
    assert_eq!(sidebar_option_at(1), SidebarOption::YoutubeCommunity);
    assert_eq!(sidebar_option_at(2), SidebarOption::Favourites);
    assert_eq!(sidebar_option_at(3), SidebarOption::RecentlyPlayed);
    assert_eq!(sidebar_option_at(4), SidebarOption::Search);
    assert_eq!(sidebar_option_at(5), SidebarOption::Nothing);
}

#[test]
fn window_cycle_visits_every_panel_and_returns() {
    let mut w = Window::Sidebar;
    let order = [
        Window::Musicbar,
        Window::Playlistbar,
        Window::Artistbar,
        Window::Searchbar,
        Window::Helpbar,
        Window::Sidebar,
    ];
    for expected in order {
        w = w.next();
        assert_eq!(w, expected);
    }
    for expected in [
        Window::Helpbar,
        Window::Searchbar,
        Window::Artistbar,
        Window::Playlistbar,
        Window::Musicbar,
        Window::Sidebar,
    ] {
        w = w.prev();
        assert_eq!(w, expected);
    }
}

#[test]
fn shutdown_sentinel_is_terminal() {
    assert_eq!(Window::Shutdown.next(), Window::Shutdown);
    assert_eq!(Window::Shutdown.prev(), Window::Shutdown);
}
