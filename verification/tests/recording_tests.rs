use std::path::Path;

use plaza_tui::recording::{
    cache_path, cover_mime, cover_picture, join, library_path, library_write_needed, sanitize,
    song_comments, CacheLedger, RecordEvent, RecordMode, Recorder, RecorderAction, SongTags,
};

fn tags(artist: &str, album: &str, title: &str) -> SongTags {
    SongTags {
        artist: Some(artist.into()),
        album: Some(album.into()),
        title: Some(title.into()),
    }
}

#[test]
fn library_path_uses_artist_album_title_tree() {
    let p = library_path("/m", &tags("la trace", "LITE TOUCH", "Man Enough"));
    assert_eq!(
        Path::new(&p),
        Path::new("/m/la trace/LITE TOUCH/la trace - Man Enough.flac")
    );
}

#[test]
fn missing_tags_fall_back_to_placeholders() {
    let p = library_path("/m", &SongTags::default());
    assert_eq!(
        Path::new(&p),
        Path::new("/m/Unknown Artist/Unknown Album/Unknown Artist - Untitled.flac")
    );
}

#[test]
fn sanitize_strips_path_separators_and_control_chars() {
    assert_eq!(sanitize("AC/DC"), "AC_DC");
    assert_eq!(sanitize("a\nb:c"), "a_b_c");
    assert_eq!(sanitize("  spaced.  "), "spaced");
    assert_eq!(sanitize(""), "Unknown");
    assert_eq!(sanitize("   "), "Unknown");
}

#[test]
fn mode_cycles_off_cache_session() {
    assert_eq!(RecordMode::Off.next(), RecordMode::Cache);
    assert_eq!(RecordMode::Cache.next(), RecordMode::Session);
    assert_eq!(RecordMode::Session.next(), RecordMode::Off);
}

#[test]
fn mode_labels_and_default() {
    assert_eq!(RecordMode::Off.label(), "off");
    assert_eq!(RecordMode::Cache.label(), "cache");
    assert_eq!(RecordMode::Session.label(), "session");
    assert_eq!(RecordMode::default(), RecordMode::Off);
}

#[test]
fn sanitize_caps_length_and_replaces_every_special_character() {
    assert_eq!(sanitize("a*b?c\"d<e>f|g\\h"), "a_b_c_d_e_f_g_h");
    let long: String = std::iter::repeat('x').take(200).collect();
    assert_eq!(sanitize(&long).chars().count(), 120);
    assert_eq!(sanitize("...."), "Unknown");
    assert_eq!(sanitize("\u{3000}名前\u{3000}"), "名前");
    assert_eq!(sanitize("tab\there"), "tab_here");
    assert_eq!(sanitize("a\u{85}b"), "a_b");
}

#[test]
fn cache_path_is_flat_under_the_cache_folder() {
    let p = cache_path("/m/", &tags("A/B", "X", "T."));
    assert_eq!(p, "/m/.cache/A_B - T.flac");
}

#[test]
fn join_follows_path_rules() {
    assert_eq!(join("/m", "a"), "/m/a");
    assert_eq!(join("/m/", "a"), "/m/a");
    assert_eq!(join("", "a"), "a");
    assert_eq!(join("/m", "/abs"), "/abs");
}

#[test]
fn comments_list_the_known_tags_and_the_source() {
    let t = SongTags { artist: Some("X".into()), album: None, title: Some("Y".into()) };
    assert_eq!(
        song_comments(&t),
        vec![("ARTIST", "X"), ("TITLE", "Y"), ("SOURCE", "Nightwave Plaza")]
    );
}

#[test]
fn a_song_is_written_only_if_captured_whole() {
    let mut r = Recorder::new(RecordMode::Session);
    assert!(r.is_active());
    // joined mid-way: not savable
    assert!(matches!(r.handle(RecordEvent::Begin { tags: SongTags::default(), savable: false, artwork_url: None }), RecorderAction::StartSong));
    assert!(matches!(r.handle(RecordEvent::Samples { sample_rate: 48_000, channels: 2, len: 960 }), RecorderAction::AppendSamples));
    assert!(matches!(r.handle(RecordEvent::Finish), RecorderAction::DropSong));
    // a whole song
    r.handle(RecordEvent::Begin { tags: tags("a", "b", "c"), savable: true, artwork_url: Some("u".into()) });
    r.handle(RecordEvent::Samples { sample_rate: 48_000, channels: 2, len: 960 });
    match r.handle(RecordEvent::Finish) {
        RecorderAction::WriteToLibrary(song) => {
            assert_eq!(song.sample_rate, 48_000);
            assert_eq!(song.channels, 2);
            assert_eq!(song.tags.title.as_deref(), Some("c"));
            assert_eq!(song.artwork_url.as_deref(), Some("u"));
        }
        other => panic!("expected a library write, got {other:?}"),
    }
    // interrupted
    r.handle(RecordEvent::Begin { tags: tags("a", "b", "c"), savable: true, artwork_url: None });
    r.handle(RecordEvent::Samples { sample_rate: 48_000, channels: 2, len: 10 });
    assert!(matches!(r.handle(RecordEvent::Abort), RecorderAction::DropSong));
    assert!(matches!(r.handle(RecordEvent::Finish), RecorderAction::Nothing));
    // no audio at all
    r.handle(RecordEvent::Begin { tags: tags("a", "b", "c"), savable: true, artwork_url: None });
    assert!(matches!(r.handle(RecordEvent::Finish), RecorderAction::DropSong));
}

#[test]
fn cache_mode_writes_to_the_cache_and_off_drops() {
    let mut r = Recorder::new(RecordMode::Cache);
    r.handle(RecordEvent::Begin { tags: tags("a", "b", "c"), savable: true, artwork_url: None });
    r.handle(RecordEvent::Samples { sample_rate: 44_100, channels: 1, len: 5 });
    assert!(matches!(r.handle(RecordEvent::Finish), RecorderAction::WriteToCache(_)));
    r.handle(RecordEvent::Begin { tags: tags("a", "b", "c"), savable: true, artwork_url: None });
    assert!(matches!(r.handle(RecordEvent::SetMode(RecordMode::Off)), RecorderAction::DropSong));
    assert!(!r.is_active());
    assert!(matches!(r.handle(RecordEvent::Samples { sample_rate: 1, channels: 1, len: 1 }), RecorderAction::Nothing));
    assert!(matches!(r.handle(RecordEvent::Keep), RecorderAction::KeepLast));
}

#[test]
fn cache_ledger_evicts_the_oldest_and_never_lists_twice() {
    let mut l = CacheLedger::new(2);
    assert!(l.on_cached("a".into(), tags("1", "1", "1")).is_empty());
    assert!(l.on_cached("b".into(), tags("2", "2", "2")).is_empty());
    assert!(l.on_cached("a".into(), tags("3", "3", "3")).is_empty());
    assert_eq!(l.entries(), &vec!["b".to_string(), "a".to_string()]);
    assert_eq!(l.on_cached("c".into(), tags("4", "4", "4")), vec!["b".to_string()]);
    assert_eq!(l.entries(), &vec!["a".to_string(), "c".to_string()]);
    let (from, to) = l.keep_plan("/lib").unwrap();
    assert_eq!(from, "c");
    assert_eq!(to, "/lib/4/4/4 - 4.flac");
    l.on_kept();
    assert_eq!(l.entries(), &vec!["a".to_string()]);
    assert!(l.keep_plan("/lib").is_none());
}

#[test]
fn cache_ledger_keeps_at_least_one_song() {
    let mut l = CacheLedger::new(0);
    assert!(l.on_cached("a".into(), SongTags::default()).is_empty());
    assert_eq!(l.on_cached("b".into(), SongTags::default()), vec!["a".to_string()]);
}

#[test]
fn deduplication_skips_existing_files() {
    assert!(!library_write_needed(true, true));
    assert!(library_write_needed(false, true));
    assert!(library_write_needed(true, false));
}

#[test]
fn cover_mime_comes_from_the_content_type() {
    assert_eq!(cover_mime(Some("image/png; charset=binary")), "image/png");
    assert_eq!(cover_mime(Some(" image/webp ")), "image/webp");
    assert_eq!(cover_mime(None), "image/jpeg");
    assert!(cover_picture(Some("image/png"), Vec::new()).is_none());
    let p = cover_picture(None, vec![1]).unwrap();
    assert_eq!(p.mime, "image/jpeg");
    assert_eq!(p.data, vec![1]);
}

#[test]
fn sanitize_trims_any_mix_of_trailing_dots_and_spaces() {
    assert_eq!(sanitize("a. ."), "a");
    assert_eq!(sanitize(". ."), "Unknown");
    assert_eq!(sanitize("Vol. 2 . . ."), "Vol. 2");
    assert_eq!(sanitize(".hidden"), ".hidden");
}

#[test]
fn sanitize_collapses_runs_of_white_space() {
    assert_eq!(sanitize("la  trace"), "la trace");
    assert_eq!(sanitize("a \u{3000} b"), "a b");
    assert_eq!(sanitize("x\u{a0}y"), "x y");
}

#[test]
fn sanitize_is_idempotent_on_examples() {
    for s in ["a. .", "  spaced.  ", "la  trace", "AC/DC", "", "x\u{a0}\u{a0}y . "] {
        let once = sanitize(s);
        assert_eq!(sanitize(&once), once);
    }
}

#[test]
fn recorder_writes_only_songs_captured_whole() {
    let mut r = Recorder::new(RecordMode::Session);
    let begin = |savable: bool| RecordEvent::Begin { tags: tags("A", "B", "C"), savable, artwork_url: None };
    let samples = |len: usize| RecordEvent::Samples { sample_rate: 48_000, channels: 2, len };
    let events = vec![
        begin(false), samples(10), RecordEvent::Finish,          // joined mid-way: dropped
        begin(true), samples(10), RecordEvent::Finish,           // written
        begin(true), samples(0), RecordEvent::Finish,            // no audio: dropped
        begin(true), samples(10), RecordEvent::Abort, RecordEvent::Finish, // aborted
        begin(true), samples(10), RecordEvent::SetMode(RecordMode::Off),
        RecordEvent::SetMode(RecordMode::Cache), RecordEvent::Finish, // turned off: dropped
        begin(true), samples(5), begin(true), samples(5), RecordEvent::Finish, // second song written
        begin(true), samples(5),                                  // still open: never written
    ];
    let mut writes = Vec::new();
    for (i, e) in events.into_iter().enumerate() {
        match r.handle(e) {
            RecorderAction::WriteToLibrary(_) | RecorderAction::WriteToCache(_) => writes.push(i),
            _ => {}
        }
    }
    assert_eq!(writes, vec![5, 22]);
}
