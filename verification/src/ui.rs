//! The terminal application's state and how it reacts to input.
//!
//! The application alternates between waiting for an event (a key, a socket
//! update, a decoded-audio error) and deciding what to do about it. The
//! decisions live here: an event updates [`AppState`] and yields an [`Effect`],
//! the request the caller carries out (an API call, quitting, forgetting the
//! saved token). The caller hands each request's outcome back through the
//! matching `on_...` method.

use vstd::prelude::*;
use vstd::string::*;

use crate::api::{error_message, Error};
use crate::models::{
    range_after, range_before, song_id_text, FavoriteEntry, HistoryEntry, NewsItem, Paginated,
    RatingEntry, RatingRange, Song, StatusResource, User, UserStats,
};
use crate::strings::{decimal, push_char, push_decimal, push_str};

verus! {

/// The application's screens.
#[derive(Debug, Clone, Copy, PartialEq, Eq, Structural)]
pub enum Screen {
    Login,
    NowPlaying,
    History,
    Favorites,
    Charts,
    News,
    Profile,
}

/// The sidebar entries, in order, with the screen each opens.
pub open spec fn nav_entries() -> Seq<(Seq<char>, Screen)> {
    seq![
        ("\u{25b6} Now Playing"@, Screen::NowPlaying),
        ("  History"@, Screen::History),
        ("  Favorites"@, Screen::Favorites),
        ("  Charts"@, Screen::Charts),
        ("  News"@, Screen::News),
        ("  Profile"@, Screen::Profile),
    ]
}

impl Screen {
    /// The sidebar entries: a label and the screen it opens, for every screen but
    /// the login form.
    pub fn nav_items() -> (items: [(&'static str, Screen); 6])
        ensures
            items@.map_values(|e: (&'static str, Screen)| (e.0@, e.1)) == nav_entries(),
    {
        let items = [
            ("\u{25b6} Now Playing", Screen::NowPlaying),
            ("  History", Screen::History),
            ("  Favorites", Screen::Favorites),
            ("  Charts", Screen::Charts),
            ("  News", Screen::News),
            ("  Profile", Screen::Profile),
        ];
        assert(items@.map_values(|e: (&'static str, Screen)| (e.0@, e.1)) =~= nav_entries());
        items
    }
}

/// The state of the real-time connection.
#[derive(Debug, Clone, Copy, PartialEq, Eq, Structural)]
pub enum ConnectionStatus {
    Connected,
    Disconnected,
    Connecting,
}

/// A key the application reacts to.
#[derive(Debug, Clone, Copy, PartialEq, Eq, Structural)]
pub enum Key {
    Char(char),
    Enter,
    Esc,
    Tab,
    Backspace,
    Delete,
    Up,
    Down,
    Left,
    Right,
    /// Any other key.
    Other,
}

/// A list loaded page by page, with a selection.
#[derive(Debug)]
pub struct PaginatedState<T> {
    pub items: Vec<T>,
    pub page: u32,
    pub last_page: u32,
    pub selected: usize,
    pub loading: bool,
}

impl<T> Default for PaginatedState<T> {
    /// Empty, nothing loaded, the first entry selected.
    fn default() -> (s: PaginatedState<T>)
        ensures
            s.items@ == Seq::<T>::empty(),
            s.page == 0,
            s.last_page == 0,
            s.selected == 0,
            !s.loading,
    {
        PaginatedState { items: Vec::new(), page: 0, last_page: 0, selected: 0, loading: false }
    }
}

/// The index of the last entry of a list of `len` entries (0 when empty).
pub open spec fn last_index(len: int) -> int {
    if len > 0 { len - 1 } else { 0 }
}

impl<T> PaginatedState<T> {
    /// Move the selection down one entry, stopping at the last. Returns whether
    /// the selection is now on the last entry of a non-empty list.
    pub fn select_next(&mut self) -> (at_end: bool)
        ensures
            final(self).selected == (if old(self).selected + 1 <= last_index(old(self).items@.len() as int) {
                old(self).selected + 1
            } else {
                last_index(old(self).items@.len() as int)
            }),
            final(self).items == old(self).items,
            final(self).page == old(self).page,
            final(self).last_page == old(self).last_page,
            final(self).loading == old(self).loading,
            at_end == (old(self).items@.len() > 0 && final(self).selected == old(self).items@.len() - 1),
    {
        let len = self.items.len();
        let last = if len > 0 { len - 1 } else { 0 };
        self.selected = if self.selected >= last { last } else { self.selected + 1 };
        len > 0 && self.selected == last
    }

    /// Move the selection down `n` entries, stopping at the last. Returns whether
    /// the selection is now on the last entry of a non-empty list.
    pub fn select_down_by(&mut self, n: usize) -> (at_end: bool)
        ensures
            final(self).selected == (if old(self).selected + n <= last_index(old(self).items@.len() as int) {
                old(self).selected + n
            } else {
                last_index(old(self).items@.len() as int)
            }),
            final(self).items == old(self).items,
            final(self).page == old(self).page,
            final(self).last_page == old(self).last_page,
            final(self).loading == old(self).loading,
            at_end == (old(self).items@.len() > 0 && final(self).selected == old(self).items@.len() - 1),
    {
        let len = self.items.len();
        let last = if len > 0 { len - 1 } else { 0 };
        self.selected = if self.selected >= last || last - self.selected <= n { last } else { self.selected + n };
        len > 0 && self.selected == last
    }

    /// Move the selection up `n` entries, stopping at the first.
    pub fn select_up_by(&mut self, n: usize)
        ensures
            final(self).selected == (if old(self).selected >= n { old(self).selected - n } else { 0 }),
            final(self).items == old(self).items,
            final(self).page == old(self).page,
            final(self).last_page == old(self).last_page,
            final(self).loading == old(self).loading,
    {
        self.selected = if self.selected >= n { self.selected - n } else { 0 };
    }

    /// Move the selection up one entry, stopping at the first.
    pub fn select_prev(&mut self)
        ensures
            final(self).selected == (if old(self).selected > 0 { old(self).selected - 1 } else { 0 }),
            final(self).items == old(self).items,
            final(self).page == old(self).page,
            final(self).last_page == old(self).last_page,
            final(self).loading == old(self).loading,
    {
        self.selected = if self.selected > 0 { self.selected - 1 } else { 0 };
    }

    /// Select the first entry.
    pub fn select_first(&mut self)
        ensures
            final(self).selected == 0,
            final(self).items == old(self).items,
            final(self).page == old(self).page,
            final(self).last_page == old(self).last_page,
            final(self).loading == old(self).loading,
    {
        self.selected = 0;
    }

    /// Select the last entry (the first of an empty list).
    pub fn select_last(&mut self)
        ensures
            final(self).selected == last_index(old(self).items@.len() as int),
            final(self).items == old(self).items,
            final(self).page == old(self).page,
            final(self).last_page == old(self).last_page,
            final(self).loading == old(self).loading,
    {
        let len = self.items.len();
        self.selected = if len > 0 { len - 1 } else { 0 };
    }

    /// Whether pages after the loaded ones exist.
    pub fn has_more_pages(&self) -> (b: bool)
        ensures
            b == (self.page < self.last_page),
    {
        self.page < self.last_page
    }

    /// Replace the entries with the first page of a listing.
    pub fn load_first_page(&mut self, page: Paginated<T>)
        ensures
            final(self).items@ == page.data@,
            final(self).last_page == page.meta.last_page,
            final(self).page == 1,
            final(self).selected == old(self).selected,
            final(self).loading == old(self).loading,
    {
        self.items = page.data;
        self.last_page = page.meta.last_page;
        self.page = 1;
    }

    /// Append page `next` of a listing to the entries.
    pub fn append_page(&mut self, next: u32, page: Paginated<T>)
        ensures
            final(self).items@ == old(self).items@ + page.data@,
            final(self).last_page == page.meta.last_page,
            final(self).page == next,
            final(self).selected == old(self).selected,
            final(self).loading == old(self).loading,
    {
        let mut data = page.data;
        self.items.append(&mut data);
        self.last_page = page.meta.last_page;
        self.page = next;
    }

    /// Forget the loaded entries (the page count and selection stay).
    pub fn clear_items(&mut self)
        ensures
            final(self).items@ == Seq::<T>::empty(),
            final(self).page == old(self).page,
            final(self).last_page == old(self).last_page,
            final(self).selected == old(self).selected,
            final(self).loading == old(self).loading,
    {
        self.items.clear();
    }
}

/// The song-detail popup (opened from History or Charts).
#[derive(Debug)]
pub struct SongDetailState {
    pub song: Song,
    /// When the song was played (from a history entry), as a Unix timestamp.
    pub played_at: Option<i64>,
    pub is_favorited: bool,
    pub favorite_id: Option<u64>,
    /// True while the favourite status is being fetched.
    pub loading_favorite: bool,
    /// True while the preview is playing.
    pub is_previewing: bool,
}

impl SongDetailState {
    /// A popup for `song`, its favourite status still loading.
    pub fn new(song: Song, played_at: Option<i64>) -> (d: SongDetailState)
        ensures
            d == (SongDetailState {
                song,
                played_at,
                is_favorited: false,
                favorite_id: None,
                loading_favorite: true,
                is_previewing: false,
            }),
    {
        SongDetailState {
            song,
            played_at,
            is_favorited: false,
            favorite_id: None,
            loading_favorite: true,
            is_previewing: false,
        }
    }
}

/// A playback command queued by an event and carried out on the next turn of
/// the main loop.
#[derive(Debug)]
pub enum AudioCommand {
    /// Start the configured live stream.
    Start,
    /// Play this URL once (a song preview).
    StartUrl(String),
    Pause,
    Resume,
}

/// Where a song was favourited from; the outcome is reported there.
#[derive(Debug, Clone, Copy, PartialEq, Eq, Structural)]
pub enum FavoriteOrigin {
    NowPlaying,
    History,
    Popup,
}

/// Where a favourite was removed from.
#[derive(Debug, Clone, Copy, PartialEq, Eq, Structural)]
pub enum RemovalOrigin {
    /// The song-detail popup.
    Popup,
    /// The favourites list, at this index.
    List(usize),
}

/// An API request the application needs made.
#[derive(Debug)]
pub enum Request {
    /// The current broadcast status.
    Status,
    /// A page of the history, replacing the list or appended to it.
    HistoryPage { page: u32, append: bool },
    /// A page of the favourites, replacing the list or appended to it.
    FavoritesPage { page: u32, append: bool },
    /// The first page of a chart; a failure is reported when `report_failure`.
    ChartsPage { range: RatingRange, report_failure: bool },
    /// The first page of news.
    NewsPage,
    /// The user's profile and stats.
    Profile,
    /// Whether the user has favourited a song.
    SongStatus { song_id: String },
    AddFavorite { song_id: String, origin: FavoriteOrigin },
    RemoveFavorite { favorite_id: u64, place: RemovalOrigin },
    /// Send a reaction to the current song.
    Reaction,
    Login { username: String, password: String },
}

/// What the caller does after an event.
#[derive(Debug)]
pub enum Effect {
    Nothing,
    /// Leave the application.
    Quit,
    /// Make this request and hand its outcome back.
    Fetch(Request),
    /// Raise (`true`) or lower the volume by one step.
    AdjustVolume(bool),
    /// Forget the saved authentication token (the user logged out).
    ForgetToken,
}

/// An input to the application.
#[derive(Debug)]
pub enum AppEvent {
    Key(Key),
    Resize(u16, u16),
    Tick,
    Paste(String),
    StatusUpdate(StatusResource),
    ListenersUpdate(u32),
    ReactionsUpdate(u32),
    AudioError(String),
    Quit,
}

/// The application state.
#[derive(Debug)]
pub struct AppState {
    pub view: Screen,
    pub now_playing: Option<StatusResource>,
    pub is_playing: bool,
    pub is_authenticated: bool,
    pub connection: ConnectionStatus,
    pub history: PaginatedState<HistoryEntry>,
    pub favorites: PaginatedState<FavoriteEntry>,
    pub charts: PaginatedState<RatingEntry>,
    pub chart_range: RatingRange,
    pub news: PaginatedState<NewsItem>,
    pub user: Option<User>,
    pub user_stats: Option<UserStats>,
    /// The message shown in the status bar (the caller expires it).
    pub notification: Option<String>,
    pub show_help: bool,
    pub error: Option<String>,
    pub login_username: String,
    pub login_password: String,
    pub login_focus_password: bool,
    pub login_error: Option<String>,
    pub show_song_detail: Option<SongDetailState>,
    pub show_delete_confirm: bool,
    pub show_logout_confirm: bool,
    /// The playback command to carry out on the next turn of the main loop.
    pub pending_audio: Option<AudioCommand>,
    /// Artwork URL of the song on display (to notice song changes).
    pub artwork_url: Option<String>,
    /// A broadcast status has arrived since the last one was timed: the run
    /// loop restarts its clock for the song's position and clears this.
    pub status_received: bool,
}

/// The text of an optional string.
pub open spec fn text_of(o: Option<String>) -> Option<Seq<char>> {
    crate::recording::opt_view(o)
}

/// The artwork to show for a song: the thumbnail, else the full-size image.
pub open spec fn artwork_of(song: Song) -> Option<Seq<char>> {
    match song.artwork_sm_src {
        Some(u) => Some(u@),
        None => text_of(song.artwork_src),
    }
}

fn clone_opt(o: &Option<String>) -> (r: Option<String>)
    ensures
        text_of(r) == text_of(*o),
{
    match o {
        Some(s) => Some(s.clone()),
        None => None,
    }
}

fn song_artwork(song: &Song) -> (r: Option<String>)
    ensures
        text_of(r) == artwork_of(*song),
{
    match &song.artwork_sm_src {
        Some(u) => Some(u.clone()),
        None => clone_opt(&song.artwork_src),
    }
}

/// `n` is `s` with a notification whose text is `msg`, and otherwise unchanged.
pub open spec fn notified(s: AppState, n: AppState, msg: Seq<char>) -> bool {
    &&& n.notification matches Some(m) && m@ == msg
    &&& n == AppState { notification: n.notification, ..s }
}

/// The notification for a failed request.
pub open spec fn error_note(prefix: Seq<char>, e: Error) -> Seq<char> {
    prefix + error_message(e)
}

impl AppState {
    /// The state at start-up: the login form, nothing loaded, connecting.
    pub fn new() -> (s: AppState)
        ensures
            s.view == Screen::Login,
            s.now_playing is None,
            !s.is_playing,
            !s.is_authenticated,
            s.connection == ConnectionStatus::Connecting,
            s.history.items@.len() == 0 && s.favorites.items@.len() == 0,
            s.charts.items@.len() == 0 && s.news.items@.len() == 0,
            s.chart_range == RatingRange::Overtime,
            s.user is None && s.user_stats is None,
            s.notification is None && !s.show_help && s.error is None,
            s.login_username@.len() == 0 && s.login_password@.len() == 0,
            !s.login_focus_password && s.login_error is None,
            s.show_song_detail is None,
            !s.show_delete_confirm && !s.show_logout_confirm,
            s.pending_audio is None && s.artwork_url is None,
            !s.status_received,
    {
        AppState {
            view: Screen::Login,
            now_playing: None,
            is_playing: false,
            is_authenticated: false,
            connection: ConnectionStatus::Connecting,
            history: PaginatedState::default(),
            favorites: PaginatedState::default(),
            charts: PaginatedState::default(),
            chart_range: RatingRange::Overtime,
            news: PaginatedState::default(),
            user: None,
            user_stats: None,
            notification: None,
            show_help: false,
            error: None,
            login_username: String::new(),
            login_password: String::new(),
            login_focus_password: false,
            login_error: None,
            show_song_detail: None,
            show_delete_confirm: false,
            show_logout_confirm: false,
            pending_audio: None,
            artwork_url: None,
            status_received: false,
        }
    }

    /// How long a notification stays in the status bar, in milliseconds.
    pub const NOTIFICATION_MS: u64 = 3000;

    /// Clear the notification once it has been shown for longer than three
    /// seconds (`shown_ms` is how long it has been on display); returns whether
    /// it was cleared.
    pub fn expire_notification(&mut self, shown_ms: u64) -> (cleared: bool)
        ensures
            cleared == (old(self).notification is Some && shown_ms > Self::NOTIFICATION_MS),
            *final(self) == (if cleared { AppState { notification: None, ..*old(self) } } else { *old(self) }),
    {
        if self.notification.is_some() && shown_ms > Self::NOTIFICATION_MS {
            self.notification = None;
            true
        } else {
            false
        }
    }

    /// Show a message in the status bar.
    pub fn notify(&mut self, msg: String)
        ensures
            notified(*old(self), *final(self), msg@),
    {
        self.notification = Some(msg);
    }

    fn notify_str(&mut self, msg: &str)
        ensures
            notified(*old(self), *final(self), msg@),
    {
        self.notification = Some(crate::strings::string_from_chars(&crate::strings::chars_of(msg)));
    }

    fn notify_error(&mut self, prefix: &str, e: &Error)
        ensures
            notified(*old(self), *final(self), error_note(prefix@, *e)),
    {
        let mut m = crate::strings::string_from_chars(&crate::strings::chars_of(prefix));
        let text = e.message();
        push_str(&mut m, text.as_str());
        self.notification = Some(m);
    }
}

/// Removes the last character of a string (std's `String::pop`), returning it;
/// `None`, with the string unchanged, when it is empty.
#[verifier::external_body]
fn pop_char(s: &mut String) -> (c: Option<char>)
    ensures
        old(s)@.len() == 0 ==> c is None && final(s)@ == old(s)@,
        old(s)@.len() > 0 ==> c == Some(old(s)@.last()) && final(s)@ == old(s)@.drop_last(),
{
    s.pop()
}

/// The history or favourites list after page `page` of a listing was loaded:
/// replacing the entries (the first page) or appended.
pub open spec fn after_page<T>(old: PaginatedState<T>, new: PaginatedState<T>, page: u32, append: bool, data: Seq<T>, last_page: u32) -> bool {
    &&& new.items@ == (if append { old.items@ + data } else { data })
    &&& new.page == page
    &&& new.last_page == last_page
    &&& new.selected == old.selected
    &&& new.loading == old.loading
}

/// The state after a status update `st`: it becomes the one on display, the
/// connection is live, and a change of song forgets the loaded history.
pub open spec fn status_update_result(s: AppState, st: StatusResource, n: AppState) -> bool {
    let changed = match s.now_playing {
        Some(np) => song_id_text(np.song.id) != song_id_text(st.song.id),
        None => true,
    };
    &&& n.now_playing == Some(st)
    &&& n.connection == ConnectionStatus::Connected
    &&& n.status_received
    &&& text_of(n.artwork_url) == artwork_of(st.song)
    &&& if changed {
        n.history.items@.len() == 0 && n.history == PaginatedState { items: n.history.items, page: 0, ..s.history }
    } else {
        n.history == s.history
    }
    &&& n == AppState {
        now_playing: n.now_playing,
        connection: n.connection,
        artwork_url: n.artwork_url,
        history: n.history,
        status_received: n.status_received,
        ..s
    }
}

/// A key that opens a screen from the sidebar.
pub open spec fn is_screen_key(key: Key) -> bool {
    key == Key::Char('1') || key == Key::Char('2') || key == Key::Char('3') || key == Key::Char('4')
        || key == Key::Char('5') || key == Key::Char('6')
}

/// Opening a screen with its number key; a list that has not been loaded yet is
/// requested (favourites and the profile only when signed in).
pub open spec fn screen_key_result(s: AppState, key: Key, n: AppState, eff: Effect) -> bool {
    if key == Key::Char('1') {
        n == AppState { view: Screen::NowPlaying, ..s } && eff is Nothing
    } else if key == Key::Char('2') {
        &&& n == AppState { view: Screen::History, ..s }
        &&& if s.history.items@.len() == 0 {
            eff matches Effect::Fetch(Request::HistoryPage { page, append }) && page == 1 && !append
        } else {
            eff is Nothing
        }
    } else if key == Key::Char('3') {
        &&& n == AppState { view: Screen::Favorites, ..s }
        &&& if s.favorites.items@.len() == 0 && s.is_authenticated {
            eff matches Effect::Fetch(Request::FavoritesPage { page, append }) && page == 1 && !append
        } else {
            eff is Nothing
        }
    } else if key == Key::Char('4') {
        &&& n == AppState { view: Screen::Charts, ..s }
        &&& if s.charts.items@.len() == 0 {
            eff matches Effect::Fetch(Request::ChartsPage { range, report_failure }) && range == s.chart_range
                && report_failure
        } else {
            eff is Nothing
        }
    } else if key == Key::Char('5') {
        &&& n == AppState { view: Screen::News, ..s }
        &&& if s.news.items@.len() == 0 {
            eff matches Effect::Fetch(Request::NewsPage)
        } else {
            eff is Nothing
        }
    } else {
        &&& n == AppState { view: Screen::Profile, ..s }
        &&& if s.user is None && s.is_authenticated {
            eff matches Effect::Fetch(Request::Profile)
        } else {
            eff is Nothing
        }
    }
}

/// A key while the song-detail popup `d` is open: Esc or `q` closes it (going
/// back to the live stream if a preview was playing), `f` toggles the favourite
/// when signed in and its status is known, `p` starts or stops the preview.
pub open spec fn popup_key_result(s: AppState, d: SongDetailState, key: Key, n: AppState, eff: Effect) -> bool {
    if key == Key::Esc || key == Key::Char('q') {
        &&& eff is Nothing
        &&& n == AppState {
            show_song_detail: None,
            pending_audio: n.pending_audio,
            ..s
        }
        &&& if d.is_previewing { n.pending_audio matches Some(AudioCommand::Start) } else { n.pending_audio == s.pending_audio }
    } else if key == Key::Char('f') && s.is_authenticated {
        &&& n == s
        &&& if d.loading_favorite {
            eff is Nothing
        } else if d.is_favorited {
            match d.favorite_id {
                Some(id) => eff matches Effect::Fetch(Request::RemoveFavorite { favorite_id, place })
                    && favorite_id == id && place == RemovalOrigin::Popup,
                None => eff is Nothing,
            }
        } else {
            eff matches Effect::Fetch(Request::AddFavorite { song_id, origin }) && song_id@ == song_id_text(
                d.song.id,
            ) && origin == FavoriteOrigin::Popup
        }
    } else if key == Key::Char('p') {
        &&& eff is Nothing
        &&& if d.is_previewing {
            &&& n.show_song_detail == Some(SongDetailState { is_previewing: false, ..d })
            &&& n.pending_audio matches Some(AudioCommand::Start)
            &&& n == AppState { show_song_detail: n.show_song_detail, pending_audio: n.pending_audio, ..s }
        } else {
            match d.song.preview_src {
                Some(url) => {
                    &&& n.show_song_detail == Some(SongDetailState { is_previewing: true, ..d })
                    &&& n.pending_audio matches Some(AudioCommand::StartUrl(u)) && u@ == url@
                    &&& n == AppState { show_song_detail: n.show_song_detail, pending_audio: n.pending_audio, ..s }
                },
                None => notified(s, n, "No preview available for this song"@),
            }
        }
    } else {
        n == s && eff is Nothing
    }
}

/// A key on the login form: Tab switches fields, `g` continues as a guest, Enter
/// submits (both fields are required), characters and Backspace edit the
/// focused field.
pub open spec fn login_key_result(s: AppState, key: Key, n: AppState, eff: Effect) -> bool {
    match key {
        Key::Tab => n == AppState { login_focus_password: !s.login_focus_password, ..s } && eff is Nothing,
        Key::Char(c) => if c == 'g' || c == 'G' {
            &&& eff matches Effect::Fetch(Request::Status)
            &&& n.pending_audio matches Some(AudioCommand::Start)
            &&& n == AppState {
                is_authenticated: false,
                view: Screen::NowPlaying,
                pending_audio: n.pending_audio,
                ..s
            }
        } else if s.login_focus_password {
            &&& eff is Nothing
            &&& n.login_password@ == s.login_password@.push(c)
            &&& n == AppState { login_password: n.login_password, ..s }
        } else {
            &&& eff is Nothing
            &&& n.login_username@ == s.login_username@.push(c)
            &&& n == AppState { login_username: n.login_username, ..s }
        },
        Key::Enter => if s.login_username@.len() == 0 || s.login_password@.len() == 0 {
            &&& eff is Nothing
            &&& n.login_error matches Some(m) && m@ == "Username and password required"@
            &&& n == AppState { login_error: n.login_error, ..s }
        } else {
            &&& n == s
            &&& eff matches Effect::Fetch(Request::Login { username, password }) && username@ == s.login_username@
                && password@ == s.login_password@
        },
        Key::Backspace => {
            &&& eff is Nothing
            &&& if s.login_focus_password {
                &&& n.login_password@ == (if s.login_password@.len() > 0 { s.login_password@.drop_last() } else { s.login_password@ })
                &&& n == AppState { login_password: n.login_password, ..s }
            } else {
                &&& n.login_username@ == (if s.login_username@.len() > 0 { s.login_username@.drop_last() } else { s.login_username@ })
                &&& n == AppState { login_username: n.login_username, ..s }
            }
        },
        _ => n == s && eff is Nothing,
    }
}

/// A key on the now-playing screen: Space pauses or resumes, `+`/`=` and `-`
/// change the volume, `f` favourites the current song and `r` sends a reaction
/// (both only when signed in).
pub open spec fn now_playing_key_result(s: AppState, key: Key, n: AppState, eff: Effect) -> bool {
    if key == Key::Char(' ') {
        &&& eff is Nothing
        &&& (if s.is_playing { n.pending_audio matches Some(AudioCommand::Pause) } else { n.pending_audio matches Some(AudioCommand::Resume) })
        &&& n == AppState { pending_audio: n.pending_audio, ..s }
    } else if key == Key::Char('+') || key == Key::Char('=') {
        n == s && eff == Effect::AdjustVolume(true)
    } else if key == Key::Char('-') {
        n == s && eff == Effect::AdjustVolume(false)
    } else if key == Key::Char('f') || key == Key::Char('r') {
        if !s.is_authenticated {
            eff is Nothing && notified(s, n, "Login required for this action"@)
        } else if key == Key::Char('r') {
            n == s && eff matches Effect::Fetch(Request::Reaction)
        } else {
            &&& n == s
            &&& match s.now_playing {
                Some(np) => eff matches Effect::Fetch(Request::AddFavorite { song_id, origin }) && song_id@
                    == song_id_text(np.song.id) && origin == FavoriteOrigin::NowPlaying,
                None => eff is Nothing,
            }
        }
    } else {
        n == s && eff is Nothing
    }
}

/// A key that moves the selection in a list.
pub open spec fn is_nav_key(key: Key) -> bool {
    key == Key::Char('j') || key == Key::Down || key == Key::Char('k') || key == Key::Up || key
        == Key::Char('J') || key == Key::Char('K') || key == Key::Char('g') || key == Key::Char('G')
}

/// A key that moves the selection down one entry (the keys that load the next
/// page on reaching the end).
pub open spec fn is_down_key(key: Key) -> bool {
    key == Key::Char('j') || key == Key::Down
}

/// The list after a selection key: `j`/Down moves down (stopping at the last
/// entry), `k`/Up moves up (stopping at the first), `J` and `K` move five
/// entries the same way, `g` and `G` jump to the first and last entries.
pub open spec fn list_nav<T>(l: PaginatedState<T>, key: Key, m: PaginatedState<T>) -> bool {
    let last = last_index(l.items@.len() as int);
    &&& m == PaginatedState { selected: m.selected, ..l }
    &&& if key == Key::Char('j') || key == Key::Down {
        m.selected == (if l.selected + 1 <= last { l.selected + 1 } else { last })
    } else if key == Key::Char('J') {
        m.selected == (if l.selected + 5 <= last { l.selected + 5 } else { last })
    } else if key == Key::Char('k') || key == Key::Up {
        m.selected == (if l.selected > 0 { l.selected - 1 } else { 0 })
    } else if key == Key::Char('K') {
        m.selected == (if l.selected >= 5 { l.selected - 5 } else { 0 })
    } else if key == Key::Char('g') {
        m.selected == 0
    } else {
        m.selected == last
    }
}

/// Moving down reached the last entry of a list with more pages to load.
pub open spec fn wants_next_page<T>(key: Key, m: PaginatedState<T>) -> bool {
    &&& is_down_key(key)
    &&& m.items@.len() > 0
    &&& m.selected == m.items@.len() - 1
    &&& m.page < m.last_page
}

/// `d` is the popup for `song` (played at `played_at`), its favourite status
/// loading.
pub open spec fn is_fresh_popup(d: SongDetailState, song: Song, played_at: Option<i64>) -> bool {
    &&& d.song@ == song@
    &&& d.played_at == played_at
    &&& !d.is_favorited
    &&& d.favorite_id is None
    &&& d.loading_favorite
    &&& !d.is_previewing
}

/// A key on one of the list screens: selection keys move (and, at the end of the
/// history or favourites, load the next page); Enter opens a song from the
/// history or charts; `f` favourites a history entry (when signed in); `d` or
/// Delete removes a favourite; `h`/`l` and the arrows switch the chart's range.
pub open spec fn list_key_result(s: AppState, key: Key, n: AppState, eff: Effect) -> bool {
    if is_nav_key(key) {
        match s.view {
            Screen::History => {
                &&& list_nav(s.history, key, n.history)
                &&& n == AppState { history: n.history, ..s }
                &&& if wants_next_page(key, n.history) {
                    eff matches Effect::Fetch(Request::HistoryPage { page, append }) && page == s.history.page + 1
                        && append
                } else {
                    eff is Nothing
                }
            },
            Screen::Favorites => {
                &&& list_nav(s.favorites, key, n.favorites)
                &&& n == AppState { favorites: n.favorites, ..s }
                &&& if wants_next_page(key, n.favorites) {
                    eff matches Effect::Fetch(Request::FavoritesPage { page, append }) && page == s.favorites.page
                        + 1 && append
                } else {
                    eff is Nothing
                }
            },
            Screen::Charts => list_nav(s.charts, key, n.charts) && n == AppState { charts: n.charts, ..s }
                && eff is Nothing,
            _ => list_nav(s.news, key, n.news) && n == AppState { news: n.news, ..s } && eff is Nothing,
        }
    } else if key == Key::Enter && s.view == Screen::History && s.history.selected < s.history.items@.len() {
        let entry = s.history.items@[s.history.selected as int];
        &&& n.show_song_detail matches Some(d) && is_fresh_popup(d, entry.song, entry.played_at)
        &&& n == AppState { show_song_detail: n.show_song_detail, ..s }
        &&& eff matches Effect::Fetch(Request::SongStatus { song_id }) && song_id@ == song_id_text(entry.song.id)
    } else if key == Key::Enter && s.view == Screen::Charts && s.charts.selected < s.charts.items@.len() {
        let entry = s.charts.items@[s.charts.selected as int];
        &&& n.show_song_detail matches Some(d) && is_fresh_popup(d, entry.song, None)
        &&& n == AppState { show_song_detail: n.show_song_detail, ..s }
        &&& eff matches Effect::Fetch(Request::SongStatus { song_id }) && song_id@ == song_id_text(entry.song.id)
    } else if key == Key::Char('f') && s.view == Screen::History && s.history.selected < s.history.items@.len() {
        if s.is_authenticated {
            &&& n == s
            &&& eff matches Effect::Fetch(Request::AddFavorite { song_id, origin }) && song_id@ == song_id_text(
                s.history.items@[s.history.selected as int].song.id,
            ) && origin == FavoriteOrigin::History
        } else {
            eff is Nothing && notified(s, n, "Login required to favorite songs"@)
        }
    } else if (key == Key::Char('d') || key == Key::Delete) && s.view == Screen::Favorites
        && s.favorites.selected < s.favorites.items@.len() {
        &&& n == s
        &&& eff matches Effect::Fetch(Request::RemoveFavorite { favorite_id, place })
            && favorite_id == s.favorites.items@[s.favorites.selected as int].id
            && place == RemovalOrigin::List(s.favorites.selected)
    } else if (key == Key::Char('h') || key == Key::Left || key == Key::Char('l') || key == Key::Right)
        && s.view == Screen::Charts {
        let range = if key == Key::Char('h') || key == Key::Left {
            range_before(s.chart_range)
        } else {
            range_after(s.chart_range)
        };
        &&& n.chart_range == range
        &&& n.charts.items@.len() == 0
        &&& n.charts == PaginatedState { items: n.charts.items, selected: 0, ..s.charts }
        &&& n == AppState { chart_range: n.chart_range, charts: n.charts, ..s }
        &&& eff matches Effect::Fetch(Request::ChartsPage { range: r, report_failure }) && r == range
            && !report_failure
    } else {
        n == s && eff is Nothing
    }
}

/// A key on the profile screen: `L` logs out, forgetting the account's data and
/// the saved token.
pub open spec fn profile_key_result(s: AppState, key: Key, n: AppState, eff: Effect) -> bool {
    if key == Key::Char('L') {
        &&& eff is ForgetToken
        &&& n.history.items@.len() == 0
        &&& n.history == PaginatedState { items: n.history.items, ..s.history }
        &&& n.favorites.items@.len() == 0
        &&& n.favorites == PaginatedState { items: n.favorites.items, ..s.favorites }
        &&& n.notification matches Some(m) && m@ == "Logged out"@
        &&& n == AppState {
            user: None,
            user_stats: None,
            now_playing: None,
            history: n.history,
            favorites: n.favorites,
            is_authenticated: false,
            is_playing: false,
            view: Screen::Login,
            notification: n.notification,
            ..s
        }
    } else {
        n == s && eff is Nothing
    }
}

/// What a key does: outside the login form, `q` quits, `?` toggles the help and
/// the number keys open screens. Otherwise an open help overlay is closed, an
/// open popup takes the key, or the current screen does.
pub open spec fn key_result(s: AppState, key: Key, n: AppState, eff: Effect) -> bool {
    if s.view != Screen::Login && key == Key::Char('q') {
        n == s && eff is Quit
    } else if s.view != Screen::Login && key == Key::Char('?') {
        n == AppState { show_help: !s.show_help, ..s } && eff is Nothing
    } else if s.view != Screen::Login && is_screen_key(key) {
        screen_key_result(s, key, n, eff)
    } else if s.show_help {
        n == AppState { show_help: false, ..s } && eff is Nothing
    } else {
        match s.show_song_detail {
            Some(d) => popup_key_result(s, d, key, n, eff),
            None => match s.view {
                Screen::Login => login_key_result(s, key, n, eff),
                Screen::NowPlaying => now_playing_key_result(s, key, n, eff),
                Screen::Profile => profile_key_result(s, key, n, eff),
                _ => list_key_result(s, key, n, eff),
            },
        }
    }
}

/// Moving down (`j` or Down) on the history or favourites screen, with no help or
/// popup open: the selection moves one entry down (stopping at the last), the
/// list and its page counters are otherwise unchanged, and the page right after
/// the loaded one, `page + 1`, is requested for appending exactly when the
/// selection reaches the last entry and more pages exist; nothing else is
/// requested, so a loaded page is never fetched again.
pub proof fn lemma_paging_requests_the_next_page(s: AppState, key: Key, n: AppState, eff: Effect)
    requires
        s.view == Screen::History || s.view == Screen::Favorites,
        !s.show_help,
        s.show_song_detail is None,
        key == Key::Char('j') || key == Key::Down,
        key_result(s, key, n, eff),
    ensures
        s.view == Screen::History ==> {
            let (l, m) = (s.history, n.history);
            &&& m.items == l.items && m.page == l.page && m.last_page == l.last_page
            &&& m.selected == (if l.selected + 1 < l.items@.len() { l.selected + 1 } else if l.items@.len() > 0 { l.items@.len() - 1 } else { 0 })
            &&& (eff is Fetch) == (l.items@.len() > 0 && m.selected == l.items@.len() - 1 && l.page < l.last_page)
            &&& eff is Fetch ==> eff == Effect::Fetch(Request::HistoryPage { page: (l.page + 1) as u32, append: true })
        },
        s.view == Screen::Favorites ==> {
            let (l, m) = (s.favorites, n.favorites);
            &&& m.items == l.items && m.page == l.page && m.last_page == l.last_page
            &&& m.selected == (if l.selected + 1 < l.items@.len() { l.selected + 1 } else if l.items@.len() > 0 { l.items@.len() - 1 } else { 0 })
            &&& (eff is Fetch) == (l.items@.len() > 0 && m.selected == l.items@.len() - 1 && l.page < l.last_page)
            &&& eff is Fetch ==> eff == Effect::Fetch(Request::FavoritesPage { page: (l.page + 1) as u32, append: true })
        },
{
}

/// A key that steps the chart range right (`l` or Right).
pub open spec fn is_range_right_key(key: Key) -> bool {
    key == Key::Char('l') || key == Key::Right
}

/// A key that steps the chart range left (`h` or Left).
pub open spec fn is_range_left_key(key: Key) -> bool {
    key == Key::Char('h') || key == Key::Left
}

/// On the charts screen (no help or popup open), stepping the range one way and
/// then the other comes back to the range it started on, with the selection on
/// the first entry and the chart for that range requested again.
pub proof fn lemma_chart_range_round_trip(s0: AppState, k1: Key, s1: AppState, e1: Effect, k2: Key, s2: AppState, e2: Effect)
    requires
        s0.view == Screen::Charts,
        !s0.show_help,
        s0.show_song_detail is None,
        (is_range_right_key(k1) && is_range_left_key(k2)) || (is_range_left_key(k1) && is_range_right_key(k2)),
        key_result(s0, k1, s1, e1),
        key_result(s1, k2, s2, e2),
    ensures
        s2.chart_range == s0.chart_range,
        s2.charts.selected == 0,
        s2.charts.items@.len() == 0,
        e2 matches Effect::Fetch(Request::ChartsPage { range, .. }) && range == s0.chart_range,
{
    crate::models::lemma_range_cycle(s0.chart_range);
    assert(s1.view == Screen::Charts && !s1.show_help && s1.show_song_detail is None);
}

/// What an event does (see [`key_result`] and [`status_update_result`]).
pub open spec fn event_result(s: AppState, event: AppEvent, n: AppState, eff: Effect) -> bool {
    match event {
        AppEvent::Quit => n == s && eff is Quit,
        AppEvent::StatusUpdate(st) => status_update_result(s, st, n) && eff is Nothing,
        AppEvent::ListenersUpdate(count) => {
            &&& eff is Nothing
            &&& match s.now_playing {
                Some(np) => n == AppState { now_playing: Some(StatusResource { listeners: count, ..np }), ..s },
                None => n == s,
            }
        },
        AppEvent::ReactionsUpdate(count) => {
            &&& eff is Nothing
            &&& match s.now_playing {
                Some(np) => n == AppState {
                    now_playing: Some(StatusResource { song: Song { reactions: count, ..np.song }, ..np }),
                    ..s
                },
                None => n == s,
            }
        },
        AppEvent::AudioError(e) => {
            &&& eff is Nothing
            &&& n.error matches Some(m) && m@ == e@
            &&& n == AppState { error: n.error, is_playing: false, ..s }
        },
        AppEvent::Paste(text) => {
            &&& eff is Nothing
            &&& if s.view != Screen::Login {
                n == s
            } else if s.login_focus_password {
                n.login_password@ == s.login_password@ + text@ && n == AppState { login_password: n.login_password, ..s }
            } else {
                n.login_username@ == s.login_username@ + text@ && n == AppState { login_username: n.login_username, ..s }
            }
        },
        AppEvent::Key(key) => key_result(s, key, n, eff),
        _ => n == s && eff is Nothing,
    }
}

fn is_nav_key_exec(key: Key) -> (b: bool)
    ensures
        b == is_nav_key(key),
{
    key == Key::Char('j') || key == Key::Down || key == Key::Char('k') || key == Key::Up || key
        == Key::Char('J') || key == Key::Char('K') || key == Key::Char('g') || key == Key::Char('G')
}

/// Apply a selection key to a list; returns whether moving down one entry
/// reached the last entry of a non-empty list.
fn navigate<T>(l: &mut PaginatedState<T>, key: Key) -> (at_end: bool)
    requires
        is_nav_key(key),
    ensures
        list_nav(*old(l), key, *final(l)),
        at_end == (is_down_key(key) && final(l).items@.len() > 0
            && final(l).selected == final(l).items@.len() - 1),
{
    if key == Key::Char('j') || key == Key::Down {
        l.select_next()
    } else if key == Key::Char('J') {
        l.select_down_by(5);
        false
    } else if key == Key::Char('k') || key == Key::Up {
        l.select_prev();
        false
    } else if key == Key::Char('K') {
        l.select_up_by(5);
        false
    } else if key == Key::Char('g') {
        l.select_first();
        false
    } else {
        l.select_last();
        false
    }
}

impl AppState {
    fn on_status_update(&mut self, st: StatusResource)
        ensures
            status_update_result(*old(self), st, *final(self)),
    {
        let changed = match &self.now_playing {
            Some(np) => {
                let a = np.song.id_str();
                let b = st.song.id_str();
                !crate::strings::str_eq(a.as_str(), b.as_str())
            },
            None => true,
        };
        if changed {
            self.history.clear_items();
            self.history.page = 0;
        }
        self.artwork_url = song_artwork(&st.song);
        self.now_playing = Some(st);
        self.connection = ConnectionStatus::Connected;
        self.status_received = true;
    }

    fn screen_key(&mut self, key: Key) -> (eff: Effect)
        requires
            is_screen_key(key),
        ensures
            screen_key_result(*old(self), key, *final(self), eff),
    {
        if key == Key::Char('1') {
            self.view = Screen::NowPlaying;
            Effect::Nothing
        } else if key == Key::Char('2') {
            self.view = Screen::History;
            if self.history.items.len() == 0 {
                Effect::Fetch(Request::HistoryPage { page: 1, append: false })
            } else {
                Effect::Nothing
            }
        } else if key == Key::Char('3') {
            self.view = Screen::Favorites;
            if self.favorites.items.len() == 0 && self.is_authenticated {
                Effect::Fetch(Request::FavoritesPage { page: 1, append: false })
            } else {
                Effect::Nothing
            }
        } else if key == Key::Char('4') {
            self.view = Screen::Charts;
            if self.charts.items.len() == 0 {
                Effect::Fetch(Request::ChartsPage { range: self.chart_range, report_failure: true })
            } else {
                Effect::Nothing
            }
        } else if key == Key::Char('5') {
            self.view = Screen::News;
            if self.news.items.len() == 0 {
                Effect::Fetch(Request::NewsPage)
            } else {
                Effect::Nothing
            }
        } else {
            self.view = Screen::Profile;
            if self.user.is_none() && self.is_authenticated {
                Effect::Fetch(Request::Profile)
            } else {
                Effect::Nothing
            }
        }
    }

    fn popup_key(&mut self, key: Key) -> (eff: Effect)
        requires
            old(self).show_song_detail is Some,
        ensures
            popup_key_result(*old(self), old(self).show_song_detail->0, key, *final(self), eff),
    {
        if key == Key::Esc || key == Key::Char('q') {
            let closed = self.show_song_detail.take();
            if let Some(d) = closed {
                if d.is_previewing {
                    self.pending_audio = Some(AudioCommand::Start);
                }
            }
            Effect::Nothing
        } else if key == Key::Char('f') && self.is_authenticated {
            match &self.show_song_detail {
                Some(d) => {
                    if d.loading_favorite {
                        Effect::Nothing
                    } else if d.is_favorited {
                        match d.favorite_id {
                            Some(id) => Effect::Fetch(
                                Request::RemoveFavorite { favorite_id: id, place: RemovalOrigin::Popup },
                            ),
                            None => Effect::Nothing,
                        }
                    } else {
                        Effect::Fetch(
                            Request::AddFavorite { song_id: d.song.id_str(), origin: FavoriteOrigin::Popup },
                        )
                    }
                },
                None => Effect::Nothing,
            }
        } else if key == Key::Char('p') {
            let mut command: Option<AudioCommand> = None;
            if let Some(d) = &mut self.show_song_detail {
                if d.is_previewing {
                    d.is_previewing = false;
                    command = Some(AudioCommand::Start);
                } else {
                    let url = clone_opt(&d.song.preview_src);
                    if let Some(u) = url {
                        d.is_previewing = true;
                        command = Some(AudioCommand::StartUrl(u));
                    }
                }
            }
            match command {
                Some(c) => self.pending_audio = Some(c),
                None => self.notify_str("No preview available for this song"),
            }
            Effect::Nothing
        } else {
            Effect::Nothing
        }
    }

    fn login_key(&mut self, key: Key) -> (eff: Effect)
        ensures
            login_key_result(*old(self), key, *final(self), eff),
    {
        match key {
            Key::Tab => {
                self.login_focus_password = !self.login_focus_password;
                Effect::Nothing
            },
            Key::Char(c) => {
                if c == 'g' || c == 'G' {
                    self.is_authenticated = false;
                    self.view = Screen::NowPlaying;
                    self.pending_audio = Some(AudioCommand::Start);
                    Effect::Fetch(Request::Status)
                } else if self.login_focus_password {
                    push_char(&mut self.login_password, c);
                    Effect::Nothing
                } else {
                    push_char(&mut self.login_username, c);
                    Effect::Nothing
                }
            },
            Key::Enter => {
                if self.login_username.as_str().is_empty() || self.login_password.as_str().is_empty() {
                    self.login_error = Some(String::from_str("Username and password required"));
                    Effect::Nothing
                } else {
                    Effect::Fetch(
                        Request::Login {
                            username: self.login_username.clone(),
                            password: self.login_password.clone(),
                        },
                    )
                }
            },
            Key::Backspace => {
                if self.login_focus_password {
                    pop_char(&mut self.login_password);
                } else {
                    pop_char(&mut self.login_username);
                }
                Effect::Nothing
            },
            _ => Effect::Nothing,
        }
    }

    fn now_playing_key(&mut self, key: Key) -> (eff: Effect)
        ensures
            now_playing_key_result(*old(self), key, *final(self), eff),
    {
        if key == Key::Char(' ') {
            if self.is_playing {
                self.pending_audio = Some(AudioCommand::Pause);
            } else {
                self.pending_audio = Some(AudioCommand::Resume);
            }
            Effect::Nothing
        } else if key == Key::Char('+') || key == Key::Char('=') {
            Effect::AdjustVolume(true)
        } else if key == Key::Char('-') {
            Effect::AdjustVolume(false)
        } else if key == Key::Char('f') || key == Key::Char('r') {
            if !self.is_authenticated {
                self.notify_str("Login required for this action");
                Effect::Nothing
            } else if key == Key::Char('r') {
                Effect::Fetch(Request::Reaction)
            } else {
                match &self.now_playing {
                    Some(np) => Effect::Fetch(
                        Request::AddFavorite { song_id: np.song.id_str(), origin: FavoriteOrigin::NowPlaying },
                    ),
                    None => Effect::Nothing,
                }
            }
        } else {
            Effect::Nothing
        }
    }

    fn list_key(&mut self, key: Key) -> (eff: Effect)
        requires
            old(self).view != Screen::Login && old(self).view != Screen::NowPlaying && old(self).view
                != Screen::Profile,
        ensures
            list_key_result(*old(self), key, *final(self), eff),
    {
        if is_nav_key_exec(key) {
            match self.view {
                Screen::History => {
                    let at_end = navigate(&mut self.history, key);
                    if at_end && self.history.page < self.history.last_page {
                        Effect::Fetch(Request::HistoryPage { page: self.history.page + 1, append: true })
                    } else {
                        Effect::Nothing
                    }
                },
                Screen::Favorites => {
                    let at_end = navigate(&mut self.favorites, key);
                    if at_end && self.favorites.page < self.favorites.last_page {
                        Effect::Fetch(Request::FavoritesPage { page: self.favorites.page + 1, append: true })
                    } else {
                        Effect::Nothing
                    }
                },
                Screen::Charts => {
                    navigate(&mut self.charts, key);
                    Effect::Nothing
                },
                _ => {
                    navigate(&mut self.news, key);
                    Effect::Nothing
                },
            }
        } else if key == Key::Enter && self.view == Screen::History && self.history.selected
            < self.history.items.len() {
            let entry = &self.history.items[self.history.selected];
            let song = entry.song.clone();
            let played_at = entry.played_at;
            let song_id = entry.song.id_str();
            self.show_song_detail = Some(SongDetailState::new(song, played_at));
            Effect::Fetch(Request::SongStatus { song_id })
        } else if key == Key::Enter && self.view == Screen::Charts && self.charts.selected
            < self.charts.items.len() {
            let entry = &self.charts.items[self.charts.selected];
            let song = entry.song.clone();
            let song_id = entry.song.id_str();
            self.show_song_detail = Some(SongDetailState::new(song, None));
            Effect::Fetch(Request::SongStatus { song_id })
        } else if key == Key::Char('f') && self.view == Screen::History && self.history.selected
            < self.history.items.len() {
            if self.is_authenticated {
                let song_id = self.history.items[self.history.selected].song.id_str();
                Effect::Fetch(Request::AddFavorite { song_id, origin: FavoriteOrigin::History })
            } else {
                self.notify_str("Login required to favorite songs");
                Effect::Nothing
            }
        } else if (key == Key::Char('d') || key == Key::Delete) && self.view == Screen::Favorites
            && self.favorites.selected < self.favorites.items.len() {
            let sel = self.favorites.selected;
            Effect::Fetch(
                Request::RemoveFavorite {
                    favorite_id: self.favorites.items[sel].id,
                    place: RemovalOrigin::List(sel),
                },
            )
        } else if (key == Key::Char('h') || key == Key::Left || key == Key::Char('l') || key
            == Key::Right) && self.view == Screen::Charts {
            self.chart_range = if key == Key::Char('h') || key == Key::Left {
                self.chart_range.prev()
            } else {
                self.chart_range.next()
            };
            self.charts.clear_items();
            self.charts.selected = 0;
            Effect::Fetch(Request::ChartsPage { range: self.chart_range, report_failure: false })
        } else {
            Effect::Nothing
        }
    }

    fn profile_key(&mut self, key: Key) -> (eff: Effect)
        ensures
            profile_key_result(*old(self), key, *final(self), eff),
    {
        if key == Key::Char('L') {
            self.user = None;
            self.user_stats = None;
            self.now_playing = None;
            self.history.clear_items();
            self.favorites.clear_items();
            self.is_authenticated = false;
            self.is_playing = false;
            self.view = Screen::Login;
            self.notify_str("Logged out");
            Effect::ForgetToken
        } else {
            Effect::Nothing
        }
    }

    /// React to a key (see [`key_result`]).
    pub fn handle_key(&mut self, key: Key) -> (eff: Effect)
        ensures
            key_result(*old(self), key, *final(self), eff),
    {
        let not_login = self.view != Screen::Login;
        if not_login && key == Key::Char('q') {
            return Effect::Quit;
        }
        if not_login && key == Key::Char('?') {
            self.show_help = !self.show_help;
            return Effect::Nothing;
        }
        if not_login && (key == Key::Char('1') || key == Key::Char('2') || key == Key::Char('3') || key
            == Key::Char('4') || key == Key::Char('5') || key == Key::Char('6')) {
            return self.screen_key(key);
        }
        if self.show_help {
            self.show_help = false;
            return Effect::Nothing;
        }
        if self.show_song_detail.is_some() {
            return self.popup_key(key);
        }
        match self.view {
            Screen::Login => self.login_key(key),
            Screen::NowPlaying => self.now_playing_key(key),
            Screen::Profile => self.profile_key(key),
            _ => self.list_key(key),
        }
    }

    /// React to an event (see [`event_result`]).
    pub fn handle_event(&mut self, event: AppEvent) -> (eff: Effect)
        ensures
            event_result(*old(self), event, *final(self), eff),
    {
        match event {
            AppEvent::Quit => Effect::Quit,
            AppEvent::StatusUpdate(st) => {
                self.on_status_update(st);
                Effect::Nothing
            },
            AppEvent::ListenersUpdate(count) => {
                if let Some(np) = &mut self.now_playing {
                    np.listeners = count;
                }
                Effect::Nothing
            },
            AppEvent::ReactionsUpdate(count) => {
                if let Some(np) = &mut self.now_playing {
                    np.song.reactions = count;
                }
                Effect::Nothing
            },
            AppEvent::AudioError(e) => {
                self.error = Some(e);
                self.is_playing = false;
                Effect::Nothing
            },
            AppEvent::Paste(text) => {
                if self.view == Screen::Login {
                    if self.login_focus_password {
                        push_str(&mut self.login_password, text.as_str());
                    } else {
                        push_str(&mut self.login_username, text.as_str());
                    }
                }
                Effect::Nothing
            },
            AppEvent::Key(key) => self.handle_key(key),
            _ => Effect::Nothing,
        }
    }
}

impl AppState {
    /// A saved token was found at start-up: skip the login form, fetch the
    /// status and start the stream.
    pub fn start_signed_in(&mut self) -> (eff: Effect)
        ensures
            (eff matches Effect::Fetch(Request::Status)),
            (final(self).pending_audio matches Some(AudioCommand::Start)),
            *final(self) == (AppState {
                is_authenticated: true,
                view: Screen::NowPlaying,
                pending_audio: final(self).pending_audio,
                ..*old(self)
            }),
    {
        self.is_authenticated = true;
        self.view = Screen::NowPlaying;
        self.pending_audio = Some(AudioCommand::Start);
        Effect::Fetch(Request::Status)
    }

    /// The broadcast status arrived: it goes on display with its artwork.
    pub fn on_status_loaded(&mut self, status: StatusResource)
        ensures
            text_of(final(self).artwork_url) == artwork_of(status.song),
            *final(self) == (AppState {
                now_playing: Some(status),
                artwork_url: final(self).artwork_url,
                status_received: true,
                ..*old(self)
            }),
    {
        self.artwork_url = song_artwork(&status.song);
        self.now_playing = Some(status);
        self.status_received = true;
    }

    /// A page of the history arrived (or failed): the first page replaces the
    /// list, a later page is appended; a failure to load the first page is
    /// reported.
    pub fn on_history_page(&mut self, page: u32, append: bool, result: Result<Paginated<HistoryEntry>, Error>)
        ensures
            match result {
                Ok(p) => {
                    &&& after_page(old(self).history, final(self).history, if append { page } else { 1 }, append, p.data@, p.meta.last_page)
                    &&& *final(self) == (AppState { history: final(self).history, ..*old(self) })
                },
                Err(e) => if append {
                    *final(self) == *old(self)
                } else {
                    notified(*old(self), *final(self), error_note("Failed to load history: "@, e))
                },
            },
    {
        match result {
            Ok(p) => if append {
                self.history.append_page(page, p);
            } else {
                self.history.load_first_page(p);
            },
            Err(e) => if !append {
                self.notify_error("Failed to load history: ", &e);
            },
        }
    }

    /// A page of the favourites arrived (or failed, which is not reported).
    pub fn on_favorites_page(&mut self, page: u32, append: bool, result: Result<Paginated<FavoriteEntry>, Error>)
        ensures
            match result {
                Ok(p) => {
                    &&& after_page(old(self).favorites, final(self).favorites, if append { page } else { 1 }, append, p.data@, p.meta.last_page)
                    &&& *final(self) == (AppState { favorites: final(self).favorites, ..*old(self) })
                },
                Err(_) => *final(self) == *old(self),
            },
    {
        match result {
            Ok(p) => if append {
                self.favorites.append_page(page, p);
            } else {
                self.favorites.load_first_page(p);
            },
            Err(_) => {},
        }
    }

    /// The first page of a chart arrived (or failed, which is reported when asked).
    pub fn on_charts_page(&mut self, report_failure: bool, result: Result<Paginated<RatingEntry>, Error>)
        ensures
            match result {
                Ok(p) => {
                    &&& after_page(old(self).charts, final(self).charts, 1, false, p.data@, p.meta.last_page)
                    &&& *final(self) == (AppState { charts: final(self).charts, ..*old(self) })
                },
                Err(e) => if report_failure {
                    notified(*old(self), *final(self), error_note("Failed to load charts: "@, e))
                } else {
                    *final(self) == *old(self)
                },
            },
    {
        match result {
            Ok(p) => self.charts.load_first_page(p),
            Err(e) => if report_failure {
                self.notify_error("Failed to load charts: ", &e);
            },
        }
    }

    /// The first page of news arrived (or failed, which is reported).
    pub fn on_news_page(&mut self, result: Result<Paginated<NewsItem>, Error>)
        ensures
            match result {
                Ok(p) => {
                    &&& after_page(old(self).news, final(self).news, 1, false, p.data@, p.meta.last_page)
                    &&& *final(self) == (AppState { news: final(self).news, ..*old(self) })
                },
                Err(e) => notified(*old(self), *final(self), error_note("Failed to load news: "@, e)),
            },
    {
        match result {
            Ok(p) => self.news.load_first_page(p),
            Err(e) => self.notify_error("Failed to load news: ", &e),
        }
    }

    /// The profile and stats arrived; whichever failed stays as it was.
    pub fn on_profile(&mut self, user: Result<User, Error>, stats: Result<UserStats, Error>)
        ensures
            *final(self) == (AppState {
                user: match user {
                    Ok(u) => Some(u),
                    Err(_) => old(self).user,
                },
                user_stats: match stats {
                    Ok(s) => Some(s),
                    Err(_) => old(self).user_stats,
                },
                ..*old(self)
            }),
    {
        if let Ok(u) = user {
            self.user = Some(u);
        }
        if let Ok(st) = stats {
            self.user_stats = Some(st);
        }
    }

    /// The open popup's favourite status arrived.
    pub fn on_song_status(&mut self, is_favorited: bool, favorite_id: Option<u64>)
        ensures
            *final(self) == (AppState {
                show_song_detail: match old(self).show_song_detail {
                    Some(d) => Some(SongDetailState { is_favorited, favorite_id, loading_favorite: false, ..d }),
                    None => None,
                },
                ..*old(self)
            }),
    {
        if let Some(d) = &mut self.show_song_detail {
            d.is_favorited = is_favorited;
            d.favorite_id = favorite_id;
            d.loading_favorite = false;
        }
    }

    /// A favourite was added (or not). From the popup it updates the popup and
    /// forgets the loaded favourites; elsewhere it is reported.
    pub fn on_favorite_added(&mut self, origin: FavoriteOrigin, result: Result<FavoriteEntry, Error>)
        ensures
            match result {
                Err(e) => notified(*old(self), *final(self), error_note("Error: "@, e)),
                Ok(fe) => if origin == FavoriteOrigin::Popup {
                    match old(self).show_song_detail {
                        Some(d) => {
                            &&& final(self).show_song_detail == Some((SongDetailState { is_favorited: true, favorite_id: Some(fe.id), ..d }))
                            &&& final(self).favorites.items@.len() == 0
                            &&& final(self).favorites == (PaginatedState { items: final(self).favorites.items, ..old(self).favorites })
                            &&& *final(self) == (AppState { show_song_detail: final(self).show_song_detail, favorites: final(self).favorites, ..*old(self) })
                        },
                        None => *final(self) == *old(self),
                    }
                } else {
                    notified(*old(self), *final(self), "\u{2665} Added to favorites"@)
                },
            },
    {
        match result {
            Err(e) => self.notify_error("Error: ", &e),
            Ok(fe) => {
                if origin == FavoriteOrigin::Popup {
                    let mut opened = false;
                    if let Some(d) = &mut self.show_song_detail {
                        d.is_favorited = true;
                        d.favorite_id = Some(fe.id);
                        opened = true;
                    }
                    if opened {
                        self.favorites.clear_items();
                    }
                } else {
                    self.notify_str("\u{2665} Added to favorites");
                }
            },
        }
    }

    /// A favourite was removed (or not). From the popup it updates the popup and
    /// forgets the loaded favourites; from the list it drops the entry, moves the
    /// selection up, and reports it.
    #[verifier::rlimit(40)]
    pub fn on_favorite_removed(&mut self, origin: RemovalOrigin, result: Result<(), Error>)
        ensures
            match result {
                Err(e) => notified(*old(self), *final(self), error_note("Error: "@, e)),
                Ok(_) => match origin {
                    RemovalOrigin::Popup => match old(self).show_song_detail {
                        Some(d) => {
                            &&& final(self).show_song_detail == Some((SongDetailState { is_favorited: false, favorite_id: None, ..d }))
                            &&& final(self).favorites.items@.len() == 0
                            &&& final(self).favorites == (PaginatedState { items: final(self).favorites.items, ..old(self).favorites })
                            &&& *final(self) == (AppState { show_song_detail: final(self).show_song_detail, favorites: final(self).favorites, ..*old(self) })
                        },
                        None => *final(self) == *old(self),
                    },
                    RemovalOrigin::List(i) => if i < old(self).favorites.items@.len() {
                        &&& final(self).favorites.items@ == old(self).favorites.items@.remove(i as int)
                        &&& final(self).favorites == (PaginatedState {
                            items: final(self).favorites.items,
                            selected: if i > 0 { (i - 1) as usize } else { old(self).favorites.selected },
                            ..old(self).favorites
                        })
                        &&& final(self).notification matches Some(m) && m@ == "Removed from favorites"@
                        &&& *final(self) == (AppState { favorites: final(self).favorites, notification: final(self).notification, ..*old(self) })
                    } else {
                        *final(self) == *old(self)
                    },
                },
            },
    {
        match result {
            Err(e) => self.notify_error("Error: ", &e),
            Ok(_) => match origin {
                RemovalOrigin::Popup => {
                    let mut opened = false;
                    if let Some(d) = &mut self.show_song_detail {
                        d.is_favorited = false;
                        d.favorite_id = None;
                        opened = true;
                    }
                    if opened {
                        self.favorites.clear_items();
                    }
                },
                RemovalOrigin::List(i) => {
                    if i < self.favorites.items.len() {
                        self.favorites.items.remove(i);
                        if i > 0 {
                            self.favorites.selected = i - 1;
                        }
                        self.notify_str("Removed from favorites");
                    }
                },
            },
        }
    }

    /// A reaction was sent (or not); the new total is reported.
    pub fn on_reaction(&mut self, result: Result<u32, Error>)
        ensures
            match result {
                Ok(count) => notified(*old(self), *final(self), "\u{2726} Reaction sent! Total: "@ + decimal(count as nat)),
                Err(e) => notified(*old(self), *final(self), error_note("Error: "@, e)),
            },
    {
        match result {
            Ok(count) => {
                let mut m = String::from_str("\u{2726} Reaction sent! Total: ");
                push_decimal(&mut m, count as u64);
                self.notification = Some(m);
            },
            Err(e) => self.notify_error("Error: ", &e),
        }
    }

    /// A login finished. On success the form is left for the now-playing screen,
    /// the stream starts and the status is requested; on failure the reason is
    /// shown on the form.
    pub fn on_login(&mut self, result: Result<(), Error>) -> (eff: Effect)
        ensures
            match result {
                Ok(_) => {
                    &&& eff matches Effect::Fetch(Request::Status)
                    &&& final(self).pending_audio matches Some(AudioCommand::Start)
                    &&& *final(self) == (AppState {
                        login_error: None,
                        is_authenticated: true,
                        view: Screen::NowPlaying,
                        pending_audio: final(self).pending_audio,
                        ..*old(self)
                    })
                },
                Err(e) => {
                    &&& eff is Nothing
                    &&& final(self).login_error matches Some(m) && m@ == error_note("Login failed: "@, e)
                    &&& *final(self) == (AppState { login_error: final(self).login_error, ..*old(self) })
                },
            },
    {
        match result {
            Ok(_) => {
                self.login_error = None;
                self.is_authenticated = true;
                self.view = Screen::NowPlaying;
                self.pending_audio = Some(AudioCommand::Start);
                Effect::Fetch(Request::Status)
            },
            Err(e) => {
                let mut m = String::from_str("Login failed: ");
                let text = e.message();
                push_str(&mut m, text.as_str());
                self.login_error = Some(m);
                Effect::Nothing
            },
        }
    }

    /// History fetched in the background: used only if nothing is loaded yet.
    pub fn on_history_prefetched(&mut self, p: Paginated<HistoryEntry>)
        ensures
            if old(self).history.items@.len() == 0 {
                &&& after_page(old(self).history, final(self).history, 1, false, p.data@, p.meta.last_page)
                &&& *final(self) == (AppState { history: final(self).history, ..*old(self) })
            } else {
                *final(self) == *old(self)
            },
    {
        if self.history.items.len() == 0 {
            self.history.load_first_page(p);
        }
    }

    /// A chart fetched in the background: used only if nothing is loaded yet.
    pub fn on_charts_prefetched(&mut self, p: Paginated<RatingEntry>)
        ensures
            if old(self).charts.items@.len() == 0 {
                &&& after_page(old(self).charts, final(self).charts, 1, false, p.data@, p.meta.last_page)
                &&& *final(self) == (AppState { charts: final(self).charts, ..*old(self) })
            } else {
                *final(self) == *old(self)
            },
    {
        if self.charts.items.len() == 0 {
            self.charts.load_first_page(p);
        }
    }

    /// The id of the song on display when it differs from `last_seen` (the history
    /// is then fetched again in the background); `None` when nothing changed or
    /// nothing is playing.
    pub fn new_song_id(&self, last_seen: &Option<String>) -> (id: Option<String>)
        ensures
            match self.now_playing {
                None => id is None,
                Some(np) => if text_of(*last_seen) == Some(song_id_text(np.song.id)) {
                    id is None
                } else {
                    id matches Some(s) && s@ == song_id_text(np.song.id)
                },
            },
    {
        match &self.now_playing {
            None => None,
            Some(np) => {
                let current = np.song.id_str();
                let same = match last_seen {
                    Some(l) => crate::strings::str_eq(l.as_str(), current.as_str()),
                    None => false,
                };
                if same {
                    None
                } else {
                    Some(current)
                }
            },
        }
    }
}

/// What a key press from the terminal becomes.
#[derive(Debug, Clone, Copy, PartialEq, Eq, Structural)]
pub enum KeyInput {
    /// Not acted on (a key release).
    Ignore,
    /// Ctrl-C: quit.
    Quit,
    /// An ordinary key press (or repeat).
    Press(Key),
}

/// Classify a terminal key event: releases are ignored (terminals that report
/// both press and release would otherwise act twice), Ctrl-C quits, anything
/// else is a key press.
pub fn classify_key(key: Key, ctrl: bool, release: bool) -> (k: KeyInput)
    ensures
        k == (if release {
            KeyInput::Ignore
        } else if key == Key::Char('c') && ctrl {
            KeyInput::Quit
        } else {
            KeyInput::Press(key)
        }),
{
    if release {
        KeyInput::Ignore
    } else if key == Key::Char('c') && ctrl {
        KeyInput::Quit
    } else {
        KeyInput::Press(key)
    }
}

} // verus!
