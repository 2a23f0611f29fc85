use plaza_tui::models::{HistoryEntry, NewsItem, RatingRange, Song, SongId, User, UserStats};
use plaza_tui::news::{news_header, strip_html};

fn song(length: Option<u32>) -> Song {
    Song {
        id: SongId::Number("214".into()),
        artist: "Macintosh Plus".into(),
        album: Some("Floral Shoppe".into()),
        title: "リサフランク420".into(),
        length,
        artwork_src: None,
        artwork_sm_src: None,
        preview_src: None,
        reactions: 0,
    }
}

#[test]
fn test_rating_range_as_str() {
    assert_eq!(RatingRange::Overtime.as_str(), "overtime");
    assert_eq!(RatingRange::Weekly.as_str(), "weekly");
    assert_eq!(RatingRange::Monthly.as_str(), "monthly");
}

#[test]
fn test_song_duration_display_no_length() {
    let song = Song {
        id: SongId::Number("1".into()),
        artist: "A".into(),
        album: None,
        title: "B".into(),
        length: None,
        artwork_src: None,
        artwork_sm_src: None,
        preview_src: None,
        reactions: 0,
    };
    assert_eq!(song.duration_display(), "--:--");
}

#[test]
fn durations_are_minutes_and_padded_seconds() {
    assert_eq!(song(Some(214)).duration_display(), "3:34");
    assert_eq!(song(Some(65)).duration_display(), "1:05");
    assert_eq!(song(Some(0)).duration_display(), "0:00");
    assert_eq!(song(Some(3600)).duration_display(), "60:00");
}

#[test]
fn song_ids_and_display_names() {
    assert_eq!(song(None).id_str(), "214");
    let mut s = song(None);
    s.id = SongId::Text("abc".into());
    assert_eq!(s.id_str(), "abc");
    assert_eq!(song(None).display_name(), "Macintosh Plus \u{2014} リサフランク420");
    let c = song(Some(5)).clone();
    assert_eq!(c.length, Some(5));
    assert_eq!(c.artist, "Macintosh Plus");
}

#[test]
fn range_labels_and_cycling() {
    assert_eq!(RatingRange::Overtime.display(), "All Time");
    assert_eq!(RatingRange::Weekly.display(), "Weekly");
    assert_eq!(RatingRange::Monthly.display(), "Monthly");
    assert_eq!(RatingRange::Overtime.next(), RatingRange::Weekly);
    assert_eq!(RatingRange::Weekly.next(), RatingRange::Monthly);
    assert_eq!(RatingRange::Monthly.next(), RatingRange::Overtime);
    assert_eq!(RatingRange::Overtime.prev(), RatingRange::Monthly);
    for r in [RatingRange::Overtime, RatingRange::Weekly, RatingRange::Monthly] {
        assert_eq!(r.next().prev(), r);
    }
}

#[test]
fn timestamps_format_in_utc() {
    let h = HistoryEntry { song: song(None), played_at: Some(1_700_000_000) };
    assert_eq!(h.played_at_display(), "11/14 22:13");
    let h = HistoryEntry { song: song(None), played_at: None };
    assert_eq!(h.played_at_display(), "--/-- --:--");
    let u = User { id: 7, username: "vapor".into(), email: None, created_at: Some(1_709_251_200) };
    assert_eq!(u.member_since(), "March 2024");
    let u = User { id: 7, username: "vapor".into(), email: None, created_at: None };
    assert_eq!(u.member_since(), "Unknown");
    let n = NewsItem { id: 1, text: String::new(), author: None, created_at: Some(0) };
    assert_eq!(n.created_at_display(), "1970-01-01 00:00");
    assert_eq!(news_header(&n), "1970-01-01 00:00 by Plaza Staff");
    let n = NewsItem { id: 1, text: String::new(), author: Some("Ena".into()), created_at: None };
    assert_eq!(news_header(&n), "Unknown by Ena");
    assert_eq!(UserStats::default(), UserStats { reactions: 0, favorites: 0 });
}

#[test]
fn strip_html_drops_tags_and_decodes_entities() {
    assert_eq!(strip_html("<p>Hello &amp; welcome</p>"), "Hello & welcome");
    assert_eq!(strip_html("  <b>a&lt;b&gt;c</b>\r\nnext\r "), "a<b>c\nnext");
    assert_eq!(strip_html("&quot;q&quot; &#39;s&#39;&nbsp;x"), "\"q\" 's' x");
    assert_eq!(strip_html("&amp;lt;"), "&lt;");
    assert_eq!(strip_html("<a href=\"x\">link</a> text"), "link text");
    assert_eq!(strip_html(""), "");
}

#[test]
fn strip_html_decodes_each_entity_once() {
    assert_eq!(strip_html("<p>Tom &amp; Jerry</p>"), "Tom & Jerry");
    assert_eq!(strip_html("&amp;lt;b&amp;gt;"), "&lt;b&gt;");
    assert_eq!(strip_html("&amp;amp;"), "&amp;");
}
