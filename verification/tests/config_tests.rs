use plaza_tui::config::{
    config_path_in, default_cache_size, default_true, parse_quality, recording_root_from,
    token_file_path_in, Cli, RecordingSettings,
};
use plaza_tui::quality::{Decoder, StreamQuality};
use plaza_tui::recording::RecordMode;

#[test]
fn test_stream_quality_urls() {
    assert!(StreamQuality::Hls.stream_url().contains("hls"));
    assert!(StreamQuality::Ogg.stream_url().contains("ogg"));
    assert!(StreamQuality::Mp3.stream_url().contains("mp3"));
}

#[test]
fn test_low_quality_urls_use_underscore_not_slash() {
    assert_eq!(
        StreamQuality::Mp3Low.stream_url(),
        "https://radio.plaza.one/mp3_low"
    );
    assert_eq!(
        StreamQuality::OggLow.stream_url(),
        "https://radio.plaza.one/ogg_low"
    );
    assert!(!StreamQuality::Mp3Low.stream_url().contains("/low"));
    assert!(!StreamQuality::OggLow.stream_url().contains("/low"));
}

#[test]
fn test_all_qualities_supported() {
    for q in [
        StreamQuality::Mp3,
        StreamQuality::Mp3Low,
        StreamQuality::Ogg,
        StreamQuality::OggLow,
        StreamQuality::Hls,
    ] {
        assert!(q.is_supported(), "{q:?} should be supported");
    }
}

#[test]
fn default_quality_is_mp3_and_labels_match() {
    assert_eq!(StreamQuality::default(), StreamQuality::Mp3);
    assert_eq!(StreamQuality::Hls.label(), "HLS/AAC");
    assert_eq!(StreamQuality::Ogg.label(), "Opus 64k");
    assert_eq!(StreamQuality::OggLow.label(), "Opus 96k");
    assert_eq!(StreamQuality::Mp3.label(), "MP3 128k");
    assert_eq!(StreamQuality::Mp3Low.label(), "MP3 96k");
    assert_eq!(StreamQuality::Hls.decoder(), Decoder::HlsAac);
    assert_eq!(StreamQuality::OggLow.decoder(), Decoder::OggOpus);
    assert_eq!(StreamQuality::Mp3Low.decoder(), Decoder::Mpeg);
}

#[test]
fn command_line_quality_names() {
    assert_eq!(parse_quality("hls"), Some(StreamQuality::Hls));
    assert_eq!(parse_quality("ogg"), Some(StreamQuality::Ogg));
    assert_eq!(parse_quality("ogg-low"), Some(StreamQuality::OggLow));
    assert_eq!(parse_quality("mp3"), Some(StreamQuality::Mp3));
    assert_eq!(parse_quality("mp3-low"), Some(StreamQuality::Mp3Low));
    assert_eq!(parse_quality("mp3_low"), None);
    assert_eq!(parse_quality("MP3"), None);
    let cli = Cli { reset_auth: false, stream_quality: Some("ogg".into()), log_level: "info".into() };
    assert_eq!(cli.quality_override(), Some(StreamQuality::Ogg));
    let cli = Cli { reset_auth: false, stream_quality: None, log_level: "info".into() };
    assert_eq!(cli.quality_override(), None);
}

#[test]
fn recording_settings_defaults() {
    let s = RecordingSettings::default();
    assert_eq!(s.mode, RecordMode::Off);
    assert!(s.directory.is_none());
    assert_eq!(s.cache_size, 20);
    assert!(s.embed_artwork && s.deduplicate);
    assert_eq!(default_cache_size(), 20);
    assert!(default_true());
}

#[test]
fn configured_directory_becomes_the_library_root() {
    let s = RecordingSettings {
        mode: RecordMode::Cache,
        directory: Some("/music/plaza".into()),
        cache_size: 3,
        embed_artwork: false,
        deduplicate: true,
    };
    let c = s.to_config();
    assert_eq!(c.root, "/music/plaza");
    assert_eq!(c.mode, RecordMode::Cache);
    assert_eq!(c.cache_size, 3);
    assert!(!c.embed_artwork && c.deduplicate);
}

#[test]
fn empty_directory_means_the_default_library() {
    let s = RecordingSettings { directory: Some(String::new()), ..RecordingSettings::default() };
    assert!(s.to_config().root.ends_with("Plaza"));
    assert!(RecordingSettings::default().to_config().root.ends_with("Plaza"));
}

#[test]
fn default_library_prefers_the_music_directory() {
    assert_eq!(recording_root_from(Some("/home/u/Music".into()), Some("/d".into())), "/home/u/Music/Plaza");
    assert_eq!(recording_root_from(None, Some("/d".into())), "/d/Plaza");
    assert_eq!(recording_root_from(None, None), "./Plaza");
}

#[test]
fn config_and_token_files_live_in_the_app_folder() {
    assert_eq!(config_path_in(Some("/c".into())), "/c/plaza-tui/config.toml");
    assert_eq!(config_path_in(None), "./plaza-tui/config.toml");
    assert_eq!(token_file_path_in(Some("/d/".into())), "/d/plaza-tui/.token");
}

#[test]
fn every_quality_is_played_as_configured() {
    for q in [StreamQuality::Hls, StreamQuality::Ogg, StreamQuality::OggLow, StreamQuality::Mp3, StreamQuality::Mp3Low] {
        let (played, notice) = q.session_quality();
        assert_eq!(played, q);
        assert!(notice.is_none());
    }
}
