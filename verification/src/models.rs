//! Response and request types for the Plaza REST and Socket.IO APIs.
//!
//! These mirror the JSON shapes the backend returns; the JSON itself is read and
//! written at the edge of the program.

use vstd::prelude::*;
use vstd::string::*;

use chrono::TimeZone;

use crate::strings::{decimal, push_decimal, push_str, string_from_chars, chars_of};

verus! {

/// A song's server id, which the backend encodes as a JSON number or string
/// depending on the endpoint.
#[derive(Debug)]
pub enum SongId {
    /// A JSON number, as the server wrote it.
    Number(String),
    /// A JSON string.
    Text(String),
    /// Any other JSON value, as JSON text.
    Other(String),
}

/// The text of an id: the number's digits, the string itself, or the JSON text.
pub open spec fn song_id_text(id: SongId) -> Seq<char> {
    match id {
        SongId::Number(n) => n@,
        SongId::Text(s) => s@,
        SongId::Other(j) => j@,
    }
}

/// A track: the unit of "now playing", history, favourites, and charts.
#[derive(Debug)]
pub struct Song {
    /// Server id; use [`Song::id_str`] for a stable string form.
    pub id: SongId,
    /// Performing artist.
    pub artist: String,
    /// Album title, if known.
    pub album: Option<String>,
    /// Track title.
    pub title: String,
    /// Track length in seconds, if known.
    pub length: Option<u32>,
    /// Full-size artwork URL.
    pub artwork_src: Option<String>,
    /// Thumbnail artwork URL.
    pub artwork_sm_src: Option<String>,
    /// URL of a short preview clip, if one is available.
    pub preview_src: Option<String>,
    /// Total reactions this track has received.
    pub reactions: u32,
}

/// Two digits, with a leading zero below ten.
pub open spec fn two_digits(n: nat) -> Seq<char> {
    if n < 10 {
        seq!['0'] + decimal(n)
    } else {
        decimal(n)
    }
}

/// A length of `secs` seconds as `M:SS`.
pub open spec fn duration_text(secs: u32) -> Seq<char> {
    decimal((secs / 60) as nat) + ":"@ + two_digits((secs % 60) as nat)
}

impl Song {
    /// The id as a string, regardless of how the server encoded it.
    pub fn id_str(&self) -> (s: String)
        ensures
            s@ == song_id_text(self.id),
    {
        match &self.id {
            SongId::Number(n) => n.clone(),
            SongId::Text(t) => t.clone(),
            SongId::Other(j) => j.clone(),
        }
    }

    /// `"Artist — Title"`, for single-line display.
    pub fn display_name(&self) -> (s: String)
        ensures
            s@ == self.artist@ + seq![' ', '\u{2014}', ' '] + self.title@,
    {
        let mut s = string_from_chars(&chars_of(self.artist.as_str()));
        push_str(&mut s, " \u{2014} ");
        proof {
            reveal_strlit(" \u{2014} ");
        }
        push_str(&mut s, self.title.as_str());
        assert(s@ =~= self.artist@ + seq![' ', '\u{2014}', ' '] + self.title@);
        s
    }

    /// Length formatted as `M:SS`, or `--:--` when unknown.
    pub fn duration_display(&self) -> (s: String)
        ensures
            s@ == match self.length {
                Some(secs) => duration_text(secs),
                None => "--:--"@,
            },
    {
        match self.length {
            Some(secs) => {
                let mut s = String::new();
                push_decimal(&mut s, (secs / 60) as u64);
                push_str(&mut s, ":");
                let rest = secs % 60;
                if rest < 10 {
                    push_str(&mut s, "0");
                }
                push_decimal(&mut s, rest as u64);
                proof {
                    reveal_strlit(":");
                    reveal_strlit("0");
                }
                assert(s@ =~= duration_text(secs));
                s
            },
            None => String::from_str("--:--"),
        }
    }
}

/// A date-time field layout accepted by [`format_utc`].
pub open spec fn is_date_layout(layout: Seq<char>) -> bool {
    layout == "%B %Y"@ || layout == "%m/%d %H:%M"@ || layout == "%Y-%m-%d %H:%M"@
}

/// What chrono writes for the UTC time `ts` (seconds since the Unix epoch) in
/// `layout`, or `None` when `ts` is outside chrono's range.
pub uninterp spec fn utc_formatted(ts: i64, layout: Seq<char>) -> Option<Seq<char>>;

/// Formats a Unix timestamp in UTC with `chrono::Utc.timestamp_opt(ts, 0)` and
/// `format`. Trusted: the text is a function of the timestamp and layout alone,
/// named [`utc_formatted`]; `None` when chrono has no such instant.
#[verifier::external_body]
fn format_utc(ts: i64, layout: &str) -> (r: Option<String>)
    requires
        is_date_layout(layout@),
    ensures
        match r {
            Some(s) => utc_formatted(ts, layout@) == Some(s@),
            None => utc_formatted(ts, layout@) is None,
        },
{
    chrono::Utc.timestamp_opt(ts, 0).single().map(|dt| dt.format(layout).to_string())
}

/// Formats the current UTC time (`chrono::Utc::now`) in `layout`. Trusted: it
/// depends on the clock, so nothing is stated of it.
#[verifier::external_body]
fn format_utc_now(layout: &str) -> (s: String)
    requires
        is_date_layout(layout@),
{
    chrono::Utc::now().format(layout).to_string()
}

/// A timestamp in `layout`: `missing` when there is none; when chrono has no such
/// instant, the current time stands in (nothing is stated of it then).
fn timestamp_display(ts: Option<i64>, layout: &str, missing: &str) -> (s: String)
    requires
        is_date_layout(layout@),
    ensures
        match ts {
            Some(t) => utc_formatted(t, layout@) matches Some(text) ==> s@ == text,
            None => s@ == missing@,
        },
{
    match ts {
        Some(t) => match format_utc(t, layout) {
            Some(text) => text,
            None => format_utc_now(layout),
        },
        None => string_from_chars(&chars_of(missing)),
    }
}

/// An authenticated user account.
#[derive(Debug, Clone)]
pub struct User {
    /// Server id.
    pub id: u64,
    /// Display name.
    pub username: String,
    /// Account email, if the server returns it.
    pub email: Option<String>,
    /// Account creation time as a Unix timestamp.
    pub created_at: Option<i64>,
}

impl User {
    /// The "member since" month and year (e.g. `"March 2024"`), or `"Unknown"`.
    pub fn member_since(&self) -> (s: String)
        ensures
            match self.created_at {
                Some(t) => utc_formatted(t, "%B %Y"@) matches Some(text) ==> s@ == text,
                None => s@ == "Unknown"@,
            },
    {
        proof {
            reveal_strlit("%B %Y");
        }
        timestamp_display(self.created_at, "%B %Y", "Unknown")
    }
}

/// The live broadcast state: the current song and listener count.
#[derive(Debug, Clone)]
pub struct StatusResource {
    /// The currently playing song.
    pub song: Song,
    /// Number of listeners currently tuned in.
    pub listeners: u32,
    /// When this status was produced, as a Unix timestamp.
    pub updated_at: Option<i64>,
}

/// Generic envelope for single-resource responses shaped like `{"data": T}`.
#[derive(Debug, Clone)]
pub struct DataWrapper<T> {
    /// The wrapped resource.
    pub data: T,
}

/// Credentials submitted to the login endpoint.
#[derive(Debug, Clone)]
pub struct LoginForm {
    /// Account username.
    pub username: String,
    /// Account password.
    pub password: String,
    /// Whether to request a long-lived session.
    pub remember: bool,
}

/// A successful login: the user record plus a bearer token.
#[derive(Debug, Clone)]
pub struct LoginResponse {
    /// The authenticated user.
    pub data: User,
    /// Bearer token for subsequent authenticated requests.
    pub token: String,
}

/// Pagination metadata accompanying a [`Paginated`] response.
#[derive(Debug, Clone, Copy, PartialEq, Eq, Structural)]
pub struct PaginationMeta {
    /// 1-based index of the returned page.
    pub current_page: u32,
    /// Index of the last available page.
    pub last_page: u32,
    /// Items per page.
    pub per_page: u32,
    /// Total items across all pages.
    pub total: u32,
}

/// A page of results plus its [`PaginationMeta`].
#[derive(Debug, Clone)]
pub struct Paginated<T> {
    /// Pagination metadata.
    pub meta: PaginationMeta,
    /// The items on this page.
    pub data: Vec<T>,
}

/// One entry in the user's favourites library.
#[derive(Debug, Clone)]
pub struct FavoriteEntry {
    /// Favourite id, used to remove it later.
    pub id: u64,
    /// The favourited song.
    pub song: Song,
    /// When it was favourited, as a Unix timestamp.
    pub created_at: Option<i64>,
}

/// One entry in the recently played history.
#[derive(Debug, Clone)]
pub struct HistoryEntry {
    /// The song that played.
    pub song: Song,
    /// When it played, as a Unix timestamp.
    pub played_at: Option<i64>,
}

impl HistoryEntry {
    /// The play time formatted as `MM/DD HH:MM`, or a placeholder when unknown.
    pub fn played_at_display(&self) -> (s: String)
        ensures
            match self.played_at {
                Some(t) => utc_formatted(t, "%m/%d %H:%M"@) matches Some(text) ==> s@ == text,
                None => s@ == "--/-- --:--"@,
            },
    {
        proof {
            reveal_strlit("%m/%d %H:%M");
        }
        timestamp_display(self.played_at, "%m/%d %H:%M", "--/-- --:--")
    }
}

/// One ranked entry in a ratings chart.
#[derive(Debug, Clone)]
pub struct RatingEntry {
    /// The ranked song.
    pub song: Song,
    /// Number of likes over the chart's range.
    pub likes: u32,
    /// 1-based rank within the chart, if provided.
    pub rank: Option<u32>,
}

/// A news / blog post.
#[derive(Debug, Clone)]
pub struct NewsItem {
    /// Server id.
    pub id: u64,
    /// Post body (may contain HTML).
    pub text: String,
    /// Author name, if attributed.
    pub author: Option<String>,
    /// Publication time as a Unix timestamp.
    pub created_at: Option<i64>,
}

impl NewsItem {
    /// The publication time formatted as `YYYY-MM-DD HH:MM`, or `"Unknown"`.
    pub fn created_at_display(&self) -> (s: String)
        ensures
            match self.created_at {
                Some(t) => utc_formatted(t, "%Y-%m-%d %H:%M"@) matches Some(text) ==> s@ == text,
                None => s@ == "Unknown"@,
            },
    {
        proof {
            reveal_strlit("%Y-%m-%d %H:%M");
        }
        timestamp_display(self.created_at, "%Y-%m-%d %H:%M", "Unknown")
    }
}

/// Aggregate counts for the signed-in user's profile.
#[derive(Debug, Clone, Copy, PartialEq, Eq, Structural)]
pub struct UserStats {
    /// Total reactions the user has sent.
    pub reactions: u64,
    /// Total songs the user has favourited.
    pub favorites: u64,
}

impl Default for UserStats {
    /// No reactions, no favourites.
    fn default() -> (s: UserStats)
        ensures
            s.reactions == 0 && s.favorites == 0,
    {
        UserStats { reactions: 0, favorites: 0 }
    }
}

/// A song detail response, including the viewer's relationship to it.
#[derive(Debug, Clone)]
pub struct SongResource {
    /// The song.
    pub song: Song,
    /// Whether the signed-in user has favourited it.
    pub is_favorited: bool,
    /// The favourite id, if favourited (used to remove it).
    pub favorite_id: Option<u64>,
}

/// The time window for a ratings chart.
#[derive(Debug, Clone, Copy, PartialEq, Eq, Structural)]
pub enum RatingRange {
    /// All-time ratings.
    Overtime,
    /// The past week.
    Weekly,
    /// The past month.
    Monthly,
}

/// The API path segment of a range.
pub open spec fn range_path(r: RatingRange) -> Seq<char> {
    match r {
        RatingRange::Overtime => "overtime"@,
        RatingRange::Weekly => "weekly"@,
        RatingRange::Monthly => "monthly"@,
    }
}

/// The UI label of a range.
pub open spec fn range_label(r: RatingRange) -> Seq<char> {
    match r {
        RatingRange::Overtime => "All Time"@,
        RatingRange::Weekly => "Weekly"@,
        RatingRange::Monthly => "Monthly"@,
    }
}

/// The range after `r` when cycling right: All Time → Weekly → Monthly → All Time.
pub open spec fn range_after(r: RatingRange) -> RatingRange {
    match r {
        RatingRange::Overtime => RatingRange::Weekly,
        RatingRange::Weekly => RatingRange::Monthly,
        RatingRange::Monthly => RatingRange::Overtime,
    }
}

/// The range before `r` when cycling left.
pub open spec fn range_before(r: RatingRange) -> RatingRange {
    match r {
        RatingRange::Overtime => RatingRange::Monthly,
        RatingRange::Weekly => RatingRange::Overtime,
        RatingRange::Monthly => RatingRange::Weekly,
    }
}

impl RatingRange {
    /// The value used in the API path segment (e.g. `"weekly"`).
    pub fn as_str(&self) -> (s: &'static str)
        ensures
            s@ == range_path(*self),
    {
        match self {
            RatingRange::Overtime => "overtime",
            RatingRange::Weekly => "weekly",
            RatingRange::Monthly => "monthly",
        }
    }

    /// A human-readable label for the UI (e.g. `"All Time"`).
    pub fn display(&self) -> (s: &'static str)
        ensures
            s@ == range_label(*self),
    {
        match self {
            RatingRange::Overtime => "All Time",
            RatingRange::Weekly => "Weekly",
            RatingRange::Monthly => "Monthly",
        }
    }

    /// The next range to the right.
    pub fn next(self) -> (r: RatingRange)
        ensures
            r == range_after(self),
    {
        match self {
            RatingRange::Overtime => RatingRange::Weekly,
            RatingRange::Weekly => RatingRange::Monthly,
            RatingRange::Monthly => RatingRange::Overtime,
        }
    }

    /// The next range to the left.
    pub fn prev(self) -> (r: RatingRange)
        ensures
            r == range_before(self),
    {
        match self {
            RatingRange::Overtime => RatingRange::Monthly,
            RatingRange::Weekly => RatingRange::Overtime,
            RatingRange::Monthly => RatingRange::Weekly,
        }
    }
}

/// Cycling left undoes cycling right and the reverse, and three steps either way
/// come back to the start.
pub proof fn lemma_range_cycle(r: RatingRange)
    ensures
        range_before(range_after(r)) == r,
        range_after(range_before(r)) == r,
        range_after(range_after(range_after(r))) == r,
{
}

impl Clone for SongId {
    /// The same kind of id with the same text.
    fn clone(&self) -> (r: SongId)
        ensures
            song_id_text(r) == song_id_text(*self),
            r is Number <==> self is Number,
            r is Text <==> self is Text,
    {
        match self {
            SongId::Number(n) => SongId::Number(n.clone()),
            SongId::Text(t) => SongId::Text(t.clone()),
            SongId::Other(j) => SongId::Other(j.clone()),
        }
    }
}

/// What a song says, as text and numbers.
pub struct SongView {
    pub id: Seq<char>,
    pub artist: Seq<char>,
    pub album: Option<Seq<char>>,
    pub title: Seq<char>,
    pub length: Option<u32>,
    pub artwork_src: Option<Seq<char>>,
    pub artwork_sm_src: Option<Seq<char>>,
    pub preview_src: Option<Seq<char>>,
    pub reactions: u32,
}

/// The text of an optional string.
pub open spec fn opt_text(o: Option<String>) -> Option<Seq<char>> {
    match o {
        Some(s) => Some(s@),
        None => None,
    }
}

impl View for Song {
    type V = SongView;

    open spec fn view(&self) -> SongView {
        SongView {
            id: song_id_text(self.id),
            artist: self.artist@,
            album: opt_text(self.album),
            title: self.title@,
            length: self.length,
            artwork_src: opt_text(self.artwork_src),
            artwork_sm_src: opt_text(self.artwork_sm_src),
            preview_src: opt_text(self.preview_src),
            reactions: self.reactions,
        }
    }
}

fn clone_text(o: &Option<String>) -> (r: Option<String>)
    ensures
        opt_text(r) == opt_text(*o),
{
    match o {
        Some(s) => Some(s.clone()),
        None => None,
    }
}

impl Clone for Song {
    /// A song that says the same.
    fn clone(&self) -> (r: Song)
        ensures
            r@ == self@,
    {
        Song {
            id: self.id.clone(),
            artist: self.artist.clone(),
            album: clone_text(&self.album),
            title: self.title.clone(),
            length: self.length,
            artwork_src: clone_text(&self.artwork_src),
            artwork_sm_src: clone_text(&self.artwork_sm_src),
            preview_src: clone_text(&self.preview_src),
            reactions: self.reactions,
        }
    }
}

} // verus!
