use plaza_tui::api::Error;
use plaza_tui::models::{
    FavoriteEntry, HistoryEntry, Paginated, PaginationMeta, RatingEntry, RatingRange, Song, SongId,
    StatusResource,
};
use plaza_tui::ui::{
    classify_key, AppEvent, AppState, AudioCommand, ConnectionStatus, Effect, FavoriteOrigin, Key, KeyInput,
    PaginatedState, RemovalOrigin, Request, Screen,
};

fn song(id: &str) -> Song {
    Song {
        id: SongId::Number(id.into()),
        artist: "Artist".into(),
        album: None,
        title: format!("Song {id}"),
        length: Some(100),
        artwork_src: Some(format!("https://art/{id}.jpg")),
        artwork_sm_src: None,
        preview_src: Some(format!("https://preview/{id}.mp3")),
        reactions: 1,
    }
}

fn status(id: &str) -> StatusResource {
    StatusResource { song: song(id), listeners: 10, updated_at: None }
}

fn page<T>(data: Vec<T>, last_page: u32) -> Paginated<T> {
    Paginated { meta: PaginationMeta { current_page: 1, last_page, per_page: 20, total: 0 }, data }
}

fn history(ids: &[&str]) -> Vec<HistoryEntry> {
    ids.iter().map(|id| HistoryEntry { song: song(id), played_at: Some(1) }).collect()
}

fn signed_in() -> AppState {
    let mut s = AppState::new();
    let eff = s.start_signed_in();
    assert!(matches!(eff, Effect::Fetch(Request::Status)));
    assert!(matches!(s.pending_audio, Some(AudioCommand::Start)));
    s.pending_audio = None;
    s
}

#[test]
fn nav_items_list_every_screen_but_login() {
    let items = Screen::nav_items();
    assert_eq!(items[0], ("\u{25b6} Now Playing", Screen::NowPlaying));
    assert_eq!(items[5], ("  Profile", Screen::Profile));
    assert!(items.iter().all(|(_, v)| *v != Screen::Login));
}

#[test]
fn login_form_edits_the_focused_field() {
    let mut s = AppState::new();
    for c in "vapor".chars() {
        s.handle_key(Key::Char(c));
    }
    s.handle_key(Key::Tab);
    s.handle_event(AppEvent::Paste("wave".into()));
    s.handle_key(Key::Backspace);
    assert_eq!(s.login_username, "vapor");
    assert_eq!(s.login_password, "wav");
    // global keys do not fire on the login form
    assert!(matches!(s.handle_key(Key::Char('q')), Effect::Nothing));
    assert_eq!(s.login_password, "wavq");
    match s.handle_key(Key::Enter) {
        Effect::Fetch(Request::Login { username, password }) => {
            assert_eq!(username, "vapor");
            assert_eq!(password, "wavq");
        }
        other => panic!("expected a login, got {other:?}"),
    }
}

#[test]
fn login_requires_both_fields() {
    let mut s = AppState::new();
    assert!(matches!(s.handle_key(Key::Enter), Effect::Nothing));
    assert_eq!(s.login_error.as_deref(), Some("Username and password required"));
}

#[test]
fn guest_mode_starts_the_stream() {
    let mut s = AppState::new();
    assert!(matches!(s.handle_key(Key::Char('g')), Effect::Fetch(Request::Status)));
    assert_eq!(s.view, Screen::NowPlaying);
    assert!(!s.is_authenticated);
    assert!(matches!(s.pending_audio, Some(AudioCommand::Start)));
    s.on_status_loaded(status("5"));
    assert_eq!(s.artwork_url.as_deref(), Some("https://art/5.jpg"));
}

#[test]
fn login_outcomes() {
    let mut s = AppState::new();
    assert!(matches!(s.on_login(Err(Error::Unauthorized)), Effect::Nothing));
    assert_eq!(s.login_error.as_deref(), Some("Login failed: unauthorized"));
    assert!(matches!(s.on_login(Ok(())), Effect::Fetch(Request::Status)));
    assert!(s.is_authenticated);
    assert_eq!(s.view, Screen::NowPlaying);
    assert!(s.login_error.is_none());
}

#[test]
fn quit_and_help() {
    let mut s = signed_in();
    assert!(matches!(s.handle_key(Key::Char('?')), Effect::Nothing));
    assert!(s.show_help);
    // any other key closes the help first
    s.handle_key(Key::Char(' '));
    assert!(!s.show_help);
    assert!(s.pending_audio.is_none());
    assert!(matches!(s.handle_key(Key::Char('q')), Effect::Quit));
    assert!(matches!(s.handle_event(AppEvent::Quit), Effect::Quit));
}

#[test]
fn number_keys_open_screens_and_request_missing_data() {
    let mut s = signed_in();
    assert!(matches!(s.handle_key(Key::Char('2')), Effect::Fetch(Request::HistoryPage { page: 1, append: false })));
    assert_eq!(s.view, Screen::History);
    assert!(matches!(s.handle_key(Key::Char('3')), Effect::Fetch(Request::FavoritesPage { page: 1, append: false })));
    assert!(matches!(
        s.handle_key(Key::Char('4')),
        Effect::Fetch(Request::ChartsPage { range: RatingRange::Overtime, report_failure: true })
    ));
    assert!(matches!(s.handle_key(Key::Char('5')), Effect::Fetch(Request::NewsPage)));
    assert!(matches!(s.handle_key(Key::Char('6')), Effect::Fetch(Request::Profile)));
    assert!(matches!(s.handle_key(Key::Char('1')), Effect::Nothing));
    assert_eq!(s.view, Screen::NowPlaying);
    s.on_history_page(1, false, Ok(page(history(&["1"]), 1)));
    assert!(matches!(s.handle_key(Key::Char('2')), Effect::Nothing), "loaded lists are not fetched again");
}

#[test]
fn guests_do_not_fetch_favorites_or_profile() {
    let mut s = AppState::new();
    s.handle_key(Key::Char('g'));
    assert!(matches!(s.handle_key(Key::Char('3')), Effect::Nothing));
    assert!(matches!(s.handle_key(Key::Char('6')), Effect::Nothing));
}

#[test]
fn history_paginates_at_the_end() {
    let mut s = signed_in();
    s.handle_key(Key::Char('2'));
    s.on_history_page(1, false, Ok(page(history(&["1", "2"]), 3)));
    assert_eq!(s.history.page, 1);
    assert!(matches!(s.handle_key(Key::Char('j')), Effect::Fetch(Request::HistoryPage { page: 2, append: true })));
    assert_eq!(s.history.selected, 1);
    s.on_history_page(2, true, Ok(page(history(&["3"]), 3)));
    assert_eq!(s.history.items.len(), 3);
    assert_eq!(s.history.page, 2);
    assert!(matches!(s.handle_key(Key::Down), Effect::Fetch(Request::HistoryPage { page: 3, append: true })));
    s.on_history_page(3, true, Err(Error::NotFound));
    assert!(s.notification.is_none(), "later pages fail quietly");
    assert_eq!(s.history.selected, 2);
    s.handle_key(Key::Char('g'));
    assert_eq!(s.history.selected, 0);
    s.handle_key(Key::Char('G'));
    assert_eq!(s.history.selected, 2);
    s.handle_key(Key::Char('K'));
    assert_eq!(s.history.selected, 0);
    s.handle_key(Key::Char('J'));
    assert_eq!(s.history.selected, 2);
    s.handle_key(Key::Up);
    assert_eq!(s.history.selected, 1);
}

#[test]
fn first_page_failure_is_reported() {
    let mut s = signed_in();
    s.on_history_page(1, false, Err(Error::Server { status: 500 }));
    assert_eq!(s.notification.as_deref(), Some("Failed to load history: server returned status 500"));
    s.on_news_page(Err(Error::RateLimited));
    assert_eq!(s.notification.as_deref(), Some("Failed to load news: rate limited"));
    s.notification = None;
    s.on_charts_page(false, Err(Error::RateLimited));
    assert!(s.notification.is_none());
}

#[test]
fn opening_a_song_from_history_and_previewing_it() {
    let mut s = signed_in();
    s.handle_key(Key::Char('2'));
    s.on_history_page(1, false, Ok(page(history(&["7", "8"]), 1)));
    s.handle_key(Key::Char('j'));
    match s.handle_key(Key::Enter) {
        Effect::Fetch(Request::SongStatus { song_id }) => assert_eq!(song_id, "8"),
        other => panic!("expected a status request, got {other:?}"),
    }
    let d = s.show_song_detail.as_ref().unwrap();
    assert!(d.loading_favorite && !d.is_favorited);
    assert_eq!(d.played_at, Some(1));
    // favourite status unknown yet: `f` waits
    assert!(matches!(s.handle_key(Key::Char('f')), Effect::Nothing));
    s.on_song_status(true, Some(31));
    match s.handle_key(Key::Char('f')) {
        Effect::Fetch(Request::RemoveFavorite { favorite_id: 31, place: RemovalOrigin::Popup }) => {}
        other => panic!("expected a removal, got {other:?}"),
    }
    s.on_favorite_removed(RemovalOrigin::Popup, Ok(()));
    assert!(!s.show_song_detail.as_ref().unwrap().is_favorited);
    match s.handle_key(Key::Char('f')) {
        Effect::Fetch(Request::AddFavorite { song_id, origin: FavoriteOrigin::Popup }) => assert_eq!(song_id, "8"),
        other => panic!("expected an add, got {other:?}"),
    }
    s.handle_key(Key::Char('p'));
    match &s.pending_audio {
        Some(AudioCommand::StartUrl(u)) => assert_eq!(u, "https://preview/8.mp3"),
        other => panic!("expected a preview, got {other:?}"),
    }
    s.handle_key(Key::Esc);
    assert!(s.show_song_detail.is_none());
    assert!(matches!(s.pending_audio, Some(AudioCommand::Start)), "closing a preview restarts the stream");
}

#[test]
fn preview_unavailable_is_reported() {
    let mut s = signed_in();
    s.handle_key(Key::Char('4'));
    let mut rated = RatingEntry { song: song("3"), likes: 1, rank: None };
    rated.song.preview_src = None;
    s.on_charts_page(true, Ok(page(vec![rated], 1)));
    s.handle_key(Key::Enter);
    s.handle_key(Key::Char('p'));
    assert_eq!(s.notification.as_deref(), Some("No preview available for this song"));
}

#[test]
fn chart_range_switching_clears_and_refetches() {
    let mut s = signed_in();
    s.handle_key(Key::Char('4'));
    s.on_charts_page(true, Ok(page(vec![RatingEntry { song: song("1"), likes: 2, rank: Some(1) }], 1)));
    s.charts.selected = 0;
    assert!(matches!(
        s.handle_key(Key::Char('l')),
        Effect::Fetch(Request::ChartsPage { range: RatingRange::Weekly, report_failure: false })
    ));
    assert!(s.charts.items.is_empty());
    assert!(matches!(
        s.handle_key(Key::Left),
        Effect::Fetch(Request::ChartsPage { range: RatingRange::Overtime, report_failure: false })
    ));
    assert!(matches!(
        s.handle_key(Key::Char('h')),
        Effect::Fetch(Request::ChartsPage { range: RatingRange::Monthly, report_failure: false })
    ));
}

#[test]
fn removing_a_favorite_from_the_list() {
    let mut s = signed_in();
    s.handle_key(Key::Char('3'));
    let entries = vec![
        FavoriteEntry { id: 1, song: song("a"), created_at: None },
        FavoriteEntry { id: 2, song: song("b"), created_at: None },
    ];
    s.on_favorites_page(1, false, Ok(page(entries, 1)));
    s.handle_key(Key::Char('j'));
    match s.handle_key(Key::Char('d')) {
        Effect::Fetch(Request::RemoveFavorite { favorite_id: 2, place: RemovalOrigin::List(1) }) => {}
        other => panic!("expected a removal, got {other:?}"),
    }
    s.on_favorite_removed(RemovalOrigin::List(1), Ok(()));
    assert_eq!(s.favorites.items.len(), 1);
    assert_eq!(s.favorites.selected, 0);
    assert_eq!(s.notification.as_deref(), Some("Removed from favorites"));
    s.on_favorite_removed(RemovalOrigin::List(0), Err(Error::NotFound));
    assert_eq!(s.notification.as_deref(), Some("Error: not found"));
}

#[test]
fn now_playing_actions() {
    let mut s = signed_in();
    s.handle_event(AppEvent::StatusUpdate(status("9")));
    assert!(matches!(s.handle_key(Key::Char('+')), Effect::AdjustVolume(true)));
    assert!(matches!(s.handle_key(Key::Char('-')), Effect::AdjustVolume(false)));
    s.handle_key(Key::Char(' '));
    assert!(matches!(s.pending_audio, Some(AudioCommand::Resume)));
    s.is_playing = true;
    s.handle_key(Key::Char(' '));
    assert!(matches!(s.pending_audio, Some(AudioCommand::Pause)));
    match s.handle_key(Key::Char('f')) {
        Effect::Fetch(Request::AddFavorite { song_id, origin: FavoriteOrigin::NowPlaying }) => assert_eq!(song_id, "9"),
        other => panic!("expected an add, got {other:?}"),
    }
    s.on_favorite_added(FavoriteOrigin::NowPlaying, Ok(FavoriteEntry { id: 4, song: song("9"), created_at: None }));
    assert_eq!(s.notification.as_deref(), Some("\u{2665} Added to favorites"));
    assert!(matches!(s.handle_key(Key::Char('r')), Effect::Fetch(Request::Reaction)));
    s.on_reaction(Ok(43));
    assert_eq!(s.notification.as_deref(), Some("\u{2726} Reaction sent! Total: 43"));
}

#[test]
fn account_actions_need_a_login() {
    let mut s = AppState::new();
    s.handle_key(Key::Char('g'));
    assert!(matches!(s.handle_key(Key::Char('r')), Effect::Nothing));
    assert_eq!(s.notification.as_deref(), Some("Login required for this action"));
    s.handle_key(Key::Char('2'));
    s.on_history_page(1, false, Ok(page(history(&["1"]), 1)));
    assert!(matches!(s.handle_key(Key::Char('f')), Effect::Nothing));
    assert_eq!(s.notification.as_deref(), Some("Login required to favorite songs"));
}

#[test]
fn status_updates_track_song_changes() {
    let mut s = signed_in();
    s.on_history_page(1, false, Ok(page(history(&["1", "2"]), 1)));
    s.handle_event(AppEvent::StatusUpdate(status("1")));
    assert_eq!(s.connection, ConnectionStatus::Connected);
    assert!(s.history.items.is_empty(), "first status is a change of song");
    s.on_history_prefetched(page(history(&["1"]), 1));
    assert_eq!(s.history.items.len(), 1);
    s.handle_event(AppEvent::StatusUpdate(status("1")));
    assert_eq!(s.history.items.len(), 1, "same song keeps the history");
    s.handle_event(AppEvent::ListenersUpdate(77));
    s.handle_event(AppEvent::ReactionsUpdate(5));
    let np = s.now_playing.as_ref().unwrap();
    assert_eq!(np.listeners, 77);
    assert_eq!(np.song.reactions, 5);
    assert_eq!(s.new_song_id(&None).as_deref(), Some("1"));
    assert_eq!(s.new_song_id(&Some("1".into())), None);
    s.handle_event(AppEvent::AudioError("boom".into()));
    assert_eq!(s.error.as_deref(), Some("boom"));
    assert!(!s.is_playing);
}

#[test]
fn logging_out_forgets_the_account() {
    let mut s = signed_in();
    s.handle_event(AppEvent::StatusUpdate(status("1")));
    s.handle_key(Key::Char('6'));
    assert!(matches!(s.handle_key(Key::Char('L')), Effect::ForgetToken));
    assert_eq!(s.view, Screen::Login);
    assert!(!s.is_authenticated && s.now_playing.is_none() && s.user.is_none());
    assert_eq!(s.notification.as_deref(), Some("Logged out"));
}

#[test]
fn paginated_state_defaults_and_navigation() {
    let mut l: PaginatedState<u8> = PaginatedState::default();
    assert!(l.items.is_empty() && l.page == 0 && l.selected == 0 && !l.loading);
    assert!(!l.select_next());
    assert_eq!(l.selected, 0);
    l.load_first_page(page(vec![1, 2, 3], 2));
    assert!(l.has_more_pages());
    assert!(!l.select_next());
    assert!(l.select_next());
    assert!(l.select_next());
    assert_eq!(l.selected, 2);
    l.select_prev();
    assert_eq!(l.selected, 1);
}

#[test]
fn key_releases_are_ignored_and_ctrl_c_quits() {
    assert_eq!(classify_key(Key::Char('q'), false, true), KeyInput::Ignore);
    assert_eq!(classify_key(Key::Char('c'), true, true), KeyInput::Ignore);
    assert_eq!(classify_key(Key::Char('c'), true, false), KeyInput::Quit);
    assert_eq!(classify_key(Key::Char('c'), false, false), KeyInput::Press(Key::Char('c')));
    assert_eq!(classify_key(Key::Enter, true, false), KeyInput::Press(Key::Enter));
}

#[test]
fn five_line_jump_does_not_load_the_next_page() {
    let mut s = signed_in();
    s.view = Screen::History;
    s.on_history_page(1, false, Ok(page(history(&["1", "2", "3"]), 3)));
    assert!(matches!(s.handle_key(Key::Char('J')), Effect::Nothing));
    assert_eq!(s.history.selected, 2);
    s.handle_key(Key::Char('g'));
    assert!(matches!(s.handle_key(Key::Down), Effect::Nothing));
    assert!(matches!(s.handle_key(Key::Down), Effect::Fetch(Request::HistoryPage { page: 2, append: true })));
}

#[test]
fn a_status_is_marked_as_received() {
    let mut s = signed_in();
    assert!(!s.status_received);
    s.handle_event(AppEvent::StatusUpdate(status("7")));
    assert!(s.status_received);
}

#[test]
fn chart_range_steps_back_and_forth() {
    let mut s = signed_in();
    s.view = Screen::Charts;
    let start = s.chart_range;
    s.handle_key(Key::Char('l'));
    assert_ne!(s.chart_range, start);
    let e = s.handle_key(Key::Left);
    assert_eq!(s.chart_range, start);
    assert!(matches!(e, Effect::Fetch(Request::ChartsPage { range, .. }) if range == start));
}

#[test]
fn a_notification_expires_after_three_seconds() {
    let mut s = signed_in();
    assert!(!s.expire_notification(10_000));
    s.notify("hello".to_string());
    assert!(!s.expire_notification(3_000));
    assert_eq!(s.notification.as_deref(), Some("hello"));
    assert!(s.expire_notification(3_001));
    assert!(s.notification.is_none());
}
