//! HLS (HTTP Live Streaming) playlist logic.
//!
//! Plaza's `/hls` endpoint is a master playlist pointing at AAC bitrate variants,
//! each a sliding-window media playlist of MPEG-TS segments. The player polls the
//! chosen variant's media playlist, fetches the segments this module selects,
//! demuxes them with [`crate::ts`] and decodes the AAC.
//!
//! Latency is bounded by [`select_window`]: playback starts near the live edge
//! and, if it ever falls more than the buffer behind it (e.g. after a network
//! stall), it skips forward instead of playing every buffered segment in order.
//! Without this, audio drifts further and further behind the "now playing"
//! metadata, which is always at the live edge.

use vstd::prelude::*;

use crate::pcm::PcmError;
use crate::strings::{chars_of, push_char, push_str, starts_with, string_from_chars, string_from_range};
use vstd::string::*;

verus! {

/// How far behind the live edge playback stays, in segments. Plaza segments are
/// about 4 s, so 2 is about 8 s of latency: enough to ride out jitter without the
/// drift of playing the whole sliding window from its oldest segment.
pub const BUFFER_SEGMENTS: u64 = 2;

/// The sequence number just past the newest segment of a playlist.
pub open spec fn live_edge(media_sequence: u64, segment_count: usize) -> int {
    media_sequence + segment_count
}

/// The first sequence number to fetch: `buffer_segments` behind the live edge on
/// the first poll, else the next unplayed segment unless that is further behind
/// than the buffer allows; always within what the playlist offers.
pub open spec fn window_start(
    media_sequence: u64,
    segment_count: usize,
    next_seq: Option<u64>,
    buffer_segments: u64,
) -> int {
    let live = live_edge(media_sequence, segment_count);
    let floor = if live >= buffer_segments { live - buffer_segments } else { 0 };
    let wanted = match next_seq {
        None => floor,
        Some(ns) => if ns >= floor { ns as int } else { floor },
    };
    if wanted < media_sequence {
        media_sequence as int
    } else if wanted > live {
        live
    } else {
        wanted
    }
}

/// Decide which segment sequence numbers to fetch this poll, bounding how far
/// behind the live edge playback runs.
///
/// `media_sequence` is the sequence of the first segment in the playlist;
/// `segment_count` how many it has; `next_seq` the next sequence to play (`None`
/// on the first poll). Returns the half-open range of sequences to fetch; its
/// `end` is the new `next_seq`, and an empty range means "nothing new yet".
pub fn select_window(
    media_sequence: u64,
    segment_count: usize,
    next_seq: Option<u64>,
    buffer_segments: u64,
) -> (w: std::ops::Range<u64>)
    requires
        media_sequence + segment_count <= u64::MAX,
    ensures
        w.start == window_start(media_sequence, segment_count, next_seq, buffer_segments),
        w.end == live_edge(media_sequence, segment_count),
{
    let live_edge: u64 = media_sequence + segment_count as u64;
    let floor: u64 = if live_edge >= buffer_segments { live_edge - buffer_segments } else { 0 };
    let wanted: u64 = match next_seq {
        None => floor,
        Some(ns) => if ns >= floor { ns } else { floor },
    };
    let start: u64 = if wanted < media_sequence {
        media_sequence
    } else if wanted > live_edge {
        live_edge
    } else {
        wanted
    };
    std::ops::Range { start: start, end: live_edge }
}

/// Playback never runs more than `buffer_segments` behind the live edge, never
/// starts before the oldest segment the playlist offers, and every window ends
/// at the live edge.
pub proof fn lemma_window_bounds(
    media_sequence: u64,
    segment_count: usize,
    next_seq: Option<u64>,
    buffer_segments: u64,
)
    ensures
        media_sequence <= window_start(media_sequence, segment_count, next_seq, buffer_segments)
            <= live_edge(media_sequence, segment_count),
        live_edge(media_sequence, segment_count) - window_start(
            media_sequence,
            segment_count,
            next_seq,
            buffer_segments,
        ) <= buffer_segments,
{
}

/// A segment already handed out is never fetched again: a later window starts at
/// or after the previous window's end (or is empty, at the live edge).
pub proof fn lemma_window_never_replays(
    media_sequence: u64,
    segment_count: usize,
    prev_end: u64,
    buffer_segments: u64,
)
    ensures
        window_start(media_sequence, segment_count, Some(prev_end), buffer_segments) >= prev_end
            || window_start(media_sequence, segment_count, Some(prev_end), buffer_segments)
            == live_edge(media_sequence, segment_count),
{
}

/// While playback keeps up (the next segment is still in the playlist and within
/// the buffer of the live edge), the window starts exactly at that segment: no
/// segment is skipped.
pub proof fn lemma_window_contiguous_when_keeping_up(
    media_sequence: u64,
    segment_count: usize,
    next: u64,
    buffer_segments: u64,
)
    requires
        media_sequence <= next <= live_edge(media_sequence, segment_count),
        live_edge(media_sequence, segment_count) - next <= buffer_segments,
    ensures
        window_start(media_sequence, segment_count, Some(next), buffer_segments) == next,
{
}

/// The index of the last occurrence of `c` in `s`.
pub open spec fn last_index_of(s: Seq<char>, c: char) -> Option<int>
    decreases s.len(),
{
    if s.len() == 0 {
        None
    } else if s.last() == c {
        Some(s.len() - 1)
    } else {
        last_index_of(s.drop_last(), c)
    }
}

/// Whether `s` begins with `prefix`.
pub open spec fn has_prefix(s: Seq<char>, prefix: Seq<char>) -> bool {
    prefix.len() <= s.len() && s.subrange(0, prefix.len() as int) == prefix
}

/// Whether a URI is an absolute HTTP(S) URL.
pub open spec fn is_absolute_url(uri: Seq<char>) -> bool {
    has_prefix(uri, "http://"@) || has_prefix(uri, "https://"@)
}

/// Where the host of an HTTP(S) base URL begins: just after the scheme's `//`
/// (0 for a base with no such scheme).
pub open spec fn host_start(base_url: Seq<char>) -> int {
    if has_prefix(base_url, "http://"@) {
        7
    } else if has_prefix(base_url, "https://"@) {
        8
    } else {
        0
    }
}

/// A possibly-relative URI resolved against a base URL: an absolute URL stands as
/// it is; otherwise it replaces whatever follows the last `/` of the base's path
/// (a `/` after the scheme's `//`), or is joined to the base with a `/` when the
/// base has no path, so the base's host is always kept.
pub open spec fn resolved_url(base_url: Seq<char>, uri: Seq<char>) -> Seq<char> {
    if is_absolute_url(uri) {
        uri
    } else {
        match last_index_of(base_url, '/') {
            Some(idx) => if idx >= host_start(base_url) {
                base_url.subrange(0, idx + 1) + uri
            } else {
                base_url + "/"@ + uri
            },
            None => base_url + "/"@ + uri,
        }
    }
}

proof fn lemma_last_index_of(s: Seq<char>, c: char)
    ensures
        match last_index_of(s, c) {
            Some(i) => 0 <= i < s.len() && s[i] == c && forall|j: int| i < j < s.len() ==> s[j] != c,
            None => forall|j: int| 0 <= j < s.len() ==> s[j] != c,
        },
    decreases s.len(),
{
    if s.len() > 0 && s.last() != c {
        lemma_last_index_of(s.drop_last(), c);
        assert(forall|j: int| 0 <= j < s.len() - 1 ==> s.drop_last()[j] == s[j]);
    }
}

fn rfind_char(v: &Vec<char>, c: char) -> (r: Option<usize>)
    ensures
        match r {
            Some(i) => last_index_of(v@, c) == Some(i as int),
            None => last_index_of(v@, c) is None,
        },
{
    let mut i: usize = v.len();
    assert(v@.subrange(0, v@.len() as int) =~= v@);
    while i > 0
        invariant
            i <= v@.len(),
            last_index_of(v@, c) == last_index_of(v@.subrange(0, i as int), c),
        decreases i,
    {
        let ghost prefix = v@.subrange(0, i as int);
        if v[i - 1] == c {
            return Some(i - 1);
        }
        assert(prefix.drop_last() =~= v@.subrange(0, i - 1));
        i = i - 1;
    }
    None
}

/// Resolve a possibly-relative playlist or segment URI against a base URL
/// (see [`resolved_url`]).
pub fn resolve_url(base_url: &str, uri: &str) -> (url: String)
    ensures
        url@ == resolved_url(base_url@, uri@),
{
    if starts_with(uri, "http://") || starts_with(uri, "https://") {
        let u = chars_of(uri);
        return string_from_chars(&u);
    }
    let host: usize = if starts_with(base_url, "http://") {
        7
    } else if starts_with(base_url, "https://") {
        8
    } else {
        0
    };
    let b = chars_of(base_url);
    proof {
        lemma_last_index_of(b@, '/');
    }
    match rfind_char(&b, '/') {
        Some(idx) => {
            assert(idx < b.len());
            if idx >= host {
                let mut s = string_from_range(&b, 0, idx + 1);
                push_str(&mut s, uri);
                return s;
            }
        },
        None => {},
    }
    let mut s = string_from_chars(&b);
    push_char(&mut s, '/');
    push_str(&mut s, uri);
    assert(s@ =~= base_url@ + "/"@ + uri@) by {
        reveal_strlit("/");
    }
    s
}

/// One variant stream of a master playlist.
pub struct VariantInfo {
    /// The advertised peak bandwidth, in bits per second.
    pub bandwidth: u64,
    /// The variant's media-playlist URI, possibly relative.
    pub uri: String,
}

/// What a playlist body holds, as far as the player needs it.
pub enum PlaylistInfo {
    /// A master playlist: the variant streams, in playlist order.
    Master { variants: Vec<VariantInfo> },
    /// A media playlist: its target segment duration (seconds), the sequence
    /// number of its first segment, and the segment URIs in order.
    Media { target_duration: u64, media_sequence: u64, segment_uris: Vec<String> },
    /// The body is not a playlist.
    Invalid,
}

/// The content of a [`PlaylistInfo`]: variants as `(bandwidth, uri)` pairs.
pub enum PlaylistView {
    Master(Seq<(u64, Seq<char>)>),
    Media { target_duration: u64, media_sequence: u64, segment_uris: Seq<Seq<char>> },
    Invalid,
}

impl View for PlaylistInfo {
    type V = PlaylistView;

    open spec fn view(&self) -> PlaylistView {
        match self {
            PlaylistInfo::Master { variants } => PlaylistView::Master(
                variants@.map_values(|v: VariantInfo| (v.bandwidth, v.uri@)),
            ),
            PlaylistInfo::Media { target_duration, media_sequence, segment_uris } => PlaylistView::Media {
                target_duration: *target_duration,
                media_sequence: *media_sequence,
                segment_uris: segment_uris@.map_values(|u: String| u@),
            },
            PlaylistInfo::Invalid => PlaylistView::Invalid,
        }
    }
}

/// What the m3u8 parser makes of a playlist body.
pub uninterp spec fn parsed_playlist(body: Seq<u8>) -> PlaylistView;

/// Parses a playlist body with `m3u8_rs::parse_playlist_res`. Trusted: the result
/// is taken to be a function of the bytes alone, named [`parsed_playlist`]; a
/// parse error is reported as `Invalid`.
#[verifier::external_body]
fn parse_playlist(body: &[u8]) -> (p: PlaylistInfo)
    ensures
        p@ == parsed_playlist(body@),
{
    match m3u8_rs::parse_playlist_res(body) {
        Ok(m3u8_rs::Playlist::MasterPlaylist(m)) => PlaylistInfo::Master {
            variants: m.variants.iter().map(|v| VariantInfo { bandwidth: v.bandwidth, uri: v.uri.clone() }).collect(),
        },
        Ok(m3u8_rs::Playlist::MediaPlaylist(m)) => PlaylistInfo::Media {
            target_duration: m.target_duration,
            media_sequence: m.media_sequence,
            segment_uris: m.segments.iter().map(|seg| seg.uri.clone()).collect(),
        },
        Err(_) => PlaylistInfo::Invalid,
    }
}

/// The index of the highest-bandwidth variant among the first `n`; among equal
/// bandwidths, the last one.
pub open spec fn best_of_prefix(vs: Seq<(u64, Seq<char>)>, n: int) -> int
    decreases n,
{
    if n <= 1 {
        0
    } else {
        let b = best_of_prefix(vs, n - 1);
        if vs[n - 1].0 >= vs[b].0 { n - 1 } else { b }
    }
}

/// Variant `i` has the highest bandwidth, and every later variant a lower one.
pub open spec fn is_best_variant(vs: Seq<(u64, Seq<char>)>, i: int) -> bool {
    &&& 0 <= i < vs.len()
    &&& forall|j: int| 0 <= j < i ==> vs[j].0 <= vs[i].0
    &&& forall|j: int| i < j < vs.len() ==> vs[j].0 < vs[i].0
}

proof fn lemma_best_of_prefix(vs: Seq<(u64, Seq<char>)>, n: int)
    requires
        1 <= n <= vs.len(),
    ensures
        is_best_variant(vs.subrange(0, n), best_of_prefix(vs, n)),
    decreases n,
{
    if n > 1 {
        lemma_best_of_prefix(vs, n - 1);
        assert(vs.subrange(0, n - 1) =~= vs.subrange(0, n).subrange(0, n - 1));
    }
}

/// The index of the variant to play: the highest bandwidth, the last one on a tie
/// (as `Iterator::max_by_key` picks). `None` when there are no variants.
pub fn best_variant_index(variants: &Vec<VariantInfo>) -> (r: Option<usize>)
    ensures
        match r {
            Some(i) => {
                &&& i == best_of_prefix(variants@.map_values(|v: VariantInfo| (v.bandwidth, v.uri@)), variants@.len() as int)
                &&& is_best_variant(variants@.map_values(|v: VariantInfo| (v.bandwidth, v.uri@)), i as int)
            },
            None => variants@.len() == 0,
        },
{
    let ghost vs = variants@.map_values(|v: VariantInfo| (v.bandwidth, v.uri@));
    if variants.len() == 0 {
        return None;
    }
    let mut best: usize = 0;
    let mut k: usize = 1;
    while k < variants.len()
        invariant
            1 <= k <= variants@.len(),
            vs == variants@.map_values(|v: VariantInfo| (v.bandwidth, v.uri@)),
            best as int == best_of_prefix(vs, k as int),
            best < k,
        decreases variants@.len() - k,
    {
        proof {
            lemma_best_of_prefix(vs, k as int);
        }
        if variants[k].bandwidth >= variants[best].bandwidth {
            best = k;
        }
        k = k + 1;
    }
    proof {
        lemma_best_of_prefix(vs, k as int);
        assert(vs.subrange(0, k as int) =~= vs);
    }
    Some(best)
}

/// The media playlist to play for a master-playlist URL, or the permanent error
/// message: the best variant of a master playlist, resolved against the master
/// URL; the URL itself when it already names a media playlist.
pub open spec fn media_url_of(master_url: Seq<char>, p: PlaylistView) -> Result<Seq<char>, Seq<char>> {
    match p {
        PlaylistView::Master(vs) => if vs.len() == 0 {
            Err("HLS master playlist has no variants"@)
        } else {
            Ok(resolved_url(master_url, vs[best_of_prefix(vs, vs.len() as int)].1))
        },
        PlaylistView::Media { .. } => Ok(master_url),
        PlaylistView::Invalid => Err("HLS: could not parse master playlist"@),
    }
}

/// Whether `r` is the outcome `expected`, an error being permanent.
pub open spec fn url_result_is(r: Result<String, PcmError>, expected: Result<Seq<char>, Seq<char>>) -> bool {
    match expected {
        Ok(u) => r matches Ok(s) && s@ == u,
        Err(msg) => r matches Err(PcmError::Permanent(m)) && m@ == msg,
    }
}

/// The media-playlist URL for a parsed master playlist (see [`media_url_of`]).
pub fn media_url_for(master_url: &str, playlist: &PlaylistInfo) -> (r: Result<String, PcmError>)
    ensures
        url_result_is(r, media_url_of(master_url@, playlist@)),
{
    match playlist {
        PlaylistInfo::Master { variants } => {
            match best_variant_index(variants) {
                Some(i) => Ok(resolve_url(master_url, variants[i].uri.as_str())),
                None => Err(PcmError::Permanent(String::from_str("HLS master playlist has no variants"))),
            }
        },
        PlaylistInfo::Media { .. } => Ok(string_from_chars(&chars_of(master_url))),
        PlaylistInfo::Invalid => Err(PcmError::Permanent(String::from_str("HLS: could not parse master playlist"))),
    }
}

/// Resolve a fetched master playlist into a concrete media-playlist URL, choosing
/// the highest-bitrate variant. If the body is already a media playlist, the URL
/// is returned unchanged.
pub fn resolve_media_url(master_url: &str, body: &[u8]) -> (r: Result<String, PcmError>)
    ensures
        url_result_is(r, media_url_of(master_url@, parsed_playlist(body@))),
{
    let playlist = parse_playlist(body);
    media_url_for(master_url, &playlist)
}

/// Give up (and let the player reconnect) after this many consecutive poll failures.
pub const MAX_CONSECUTIVE_FAILURES: u32 = 5;

/// How long to wait between polls of a media playlist: half its target duration,
/// at least one second.
pub open spec fn poll_interval_of(target_duration: u64) -> u64 {
    let t: u64 = if target_duration >= 1 { target_duration } else { 1 };
    if t / 2 >= 1 { (t / 2) as u64 } else { 1 }
}

/// What one poll of the media playlist calls for.
pub enum PollPlan {
    /// The body was not a usable media playlist; retry shortly.
    Retry,
    /// Fetch these segments in order, then wait `interval_secs` before the next
    /// poll. `next_seq` is the sequence to continue from; `skipped` counts the
    /// segments dropped to re-sync with the live edge.
    Fetch { interval_secs: u64, segment_urls: Vec<String>, next_seq: u64, skipped: u64 },
}

/// `urls` are the segments `start..end` of a playlist whose first segment is
/// `media_sequence`, resolved against `media_url`.
pub open spec fn segment_urls_are(
    urls: Seq<Seq<char>>,
    media_url: Seq<char>,
    media_sequence: u64,
    segment_uris: Seq<Seq<char>>,
    start: int,
    end: int,
) -> bool {
    &&& urls.len() == end - start
    &&& forall|k: int|
        0 <= k < urls.len() ==> #[trigger] urls[k] == resolved_url(
            media_url,
            segment_uris[start - media_sequence + k],
        )
}

/// The plan for a media playlist whose first segment is `media_sequence`.
pub open spec fn is_media_plan(
    plan: PollPlan,
    media_url: Seq<char>,
    target_duration: u64,
    media_sequence: u64,
    segment_uris: Seq<Seq<char>>,
    next_seq: Option<u64>,
) -> bool {
    let count = segment_uris.len() as usize;
    let start = window_start(media_sequence, count, next_seq, BUFFER_SEGMENTS);
    let end = live_edge(media_sequence, count);
    match plan {
        PollPlan::Fetch { interval_secs, segment_urls, next_seq: new_next, skipped } => {
            &&& interval_secs == poll_interval_of(target_duration)
            &&& new_next == end
            &&& skipped == (match next_seq {
                Some(prev) => if start > prev { start - prev } else { 0 },
                None => 0,
            })
            &&& segment_urls_are(
                segment_urls@.map_values(|u: String| u@),
                media_url,
                media_sequence,
                segment_uris,
                start,
                end,
            )
        },
        PollPlan::Retry => false,
    }
}

/// Plan one poll of a media playlist: which segments to fetch (see
/// [`select_window`]), where they are, and when to poll again.
pub fn plan_media_poll(
    media_url: &str,
    target_duration: u64,
    media_sequence: u64,
    segment_uris: &Vec<String>,
    next_seq: Option<u64>,
) -> (plan: PollPlan)
    requires
        media_sequence + segment_uris@.len() <= u64::MAX,
    ensures
        is_media_plan(
            plan,
            media_url@,
            target_duration,
            media_sequence,
            segment_uris@.map_values(|u: String| u@),
            next_seq,
        ),
{
    let ghost uris = segment_uris@.map_values(|u: String| u@);
    let t: u64 = if target_duration >= 1 { target_duration } else { 1 };
    let interval_secs: u64 = if t / 2 >= 1 { t / 2 } else { 1 };
    let count = segment_uris.len();
    let window = select_window(media_sequence, count, next_seq, BUFFER_SEGMENTS);
    proof {
        lemma_window_bounds(media_sequence, count, next_seq, BUFFER_SEGMENTS);
    }
    let skipped: u64 = match next_seq {
        Some(prev) => if window.start > prev { window.start - prev } else { 0 },
        None => 0,
    };
    let mut urls: Vec<String> = Vec::new();
    let mut seq: u64 = window.start;
    while seq < window.end
        invariant
            window.start <= seq <= window.end,
            media_sequence <= window.start,
            window.end == media_sequence + count,
            count == segment_uris@.len(),
            uris == segment_uris@.map_values(|u: String| u@),
            segment_urls_are(
                urls@.map_values(|u: String| u@),
                media_url@,
                media_sequence,
                uris,
                window.start as int,
                seq as int,
            ),
        decreases window.end - seq,
    {
        let idx = (seq - media_sequence) as usize;
        let url = resolve_url(media_url, segment_uris[idx].as_str());
        let ghost before = urls@.map_values(|u: String| u@);
        urls.push(url);
        proof {
            assert(urls@.map_values(|u: String| u@) =~= before.push(url@));
        }
        seq = seq + 1;
    }
    PollPlan::Fetch { interval_secs, segment_urls: urls, next_seq: window.end, skipped }
}

/// The plan for a fetched playlist body: a media playlist is planned by
/// [`is_media_plan`]; anything else, or a media playlist whose sequence numbers
/// would run past `u64::MAX`, calls for a retry.
pub open spec fn poll_plan_of(
    plan: PollPlan,
    media_url: Seq<char>,
    parsed: PlaylistView,
    next_seq: Option<u64>,
) -> bool {
    match parsed {
        PlaylistView::Media { target_duration, media_sequence, segment_uris } => {
            if media_sequence + segment_uris.len() <= u64::MAX {
                is_media_plan(plan, media_url, target_duration, media_sequence, segment_uris, next_seq)
            } else {
                plan is Retry
            }
        },
        _ => plan is Retry,
    }
}

/// Plan one poll from the fetched media-playlist body.
pub fn plan_poll(media_url: &str, body: &[u8], next_seq: Option<u64>) -> (plan: PollPlan)
    ensures
        poll_plan_of(plan, media_url@, parsed_playlist(body@), next_seq),
{
    let playlist = parse_playlist(body);
    match playlist {
        PlaylistInfo::Media { target_duration, media_sequence, segment_uris } => {
            if segment_uris.len() as u64 > u64::MAX - media_sequence {
                PollPlan::Retry
            } else {
                plan_media_poll(media_url, target_duration, media_sequence, &segment_uris, next_seq)
            }
        },
        _ => PollPlan::Retry,
    }
}

/// How a poll went, as seen by the fetch loop.
pub enum PollOutcome {
    /// Progress (or simply nothing new); poll again after this many seconds.
    Progress { interval_secs: u64 },
    /// A transient failure (network or parse).
    Failed,
    /// The consumer went away or a stop was requested.
    Closed,
}

/// What the fetch loop does next.
#[derive(Debug, Clone, Copy, PartialEq, Eq, Structural)]
pub enum FetchAction {
    /// Sleep this many seconds (interruptibly), then poll again.
    Sleep(u64),
    /// Too many consecutive failures: stop, so the player reconnects.
    GiveUp,
    /// Stop quietly.
    Exit,
}

/// One step of the fetch loop: the consecutive-failure count after a poll, and
/// the action it calls for. Progress resets the count; a failure retries after a
/// second until [`MAX_CONSECUTIVE_FAILURES`] in a row, then gives up.
pub fn fetch_step(failures: u32, outcome: PollOutcome) -> (r: (u32, FetchAction))
    requires
        failures < MAX_CONSECUTIVE_FAILURES,
    ensures
        match outcome {
            PollOutcome::Progress { interval_secs } => r == (0u32, FetchAction::Sleep(interval_secs)),
            PollOutcome::Failed => {
                &&& r.0 == failures + 1
                &&& r.1 == if failures + 1 >= MAX_CONSECUTIVE_FAILURES {
                    FetchAction::GiveUp
                } else {
                    FetchAction::Sleep(1)
                }
            },
            PollOutcome::Closed => r == (failures, FetchAction::Exit),
        },
        r.1 is Sleep ==> r.0 < MAX_CONSECUTIVE_FAILURES,
{
    match outcome {
        PollOutcome::Progress { interval_secs } => (0, FetchAction::Sleep(interval_secs)),
        PollOutcome::Failed => {
            let f = failures + 1;
            if f >= MAX_CONSECUTIVE_FAILURES {
                (f, FetchAction::GiveUp)
            } else {
                (f, FetchAction::Sleep(1))
            }
        },
        PollOutcome::Closed => (failures, FetchAction::Exit),
    }
}

} // verus!
