use plaza_tui::hls::{
    best_variant_index, fetch_step, media_url_for, plan_media_poll, plan_poll, resolve_media_url,
    resolve_url, select_window, FetchAction, PlaylistInfo, PollOutcome, PollPlan, VariantInfo,
    BUFFER_SEGMENTS, MAX_CONSECUTIVE_FAILURES,
};
use plaza_tui::hls::resolve_url as resolve_segment_url;
use plaza_tui::pcm::PcmError;

#[test]
fn hls_resolve_url_handles_relative_and_absolute() {
    assert_eq!(
        resolve_url("https://radio.plaza.one/hls", "aac_hifi.m3u8"),
        "https://radio.plaza.one/aac_hifi.m3u8"
    );
    assert_eq!(
        resolve_url("https://radio.plaza.one/aac_hifi.m3u8", "seg_1.ts"),
        "https://radio.plaza.one/seg_1.ts"
    );
    assert_eq!(
        resolve_url("https://x/hls", "https://cdn/abs.ts"),
        "https://cdn/abs.ts"
    );
}

#[test]
fn first_poll_starts_near_live_edge_not_oldest_segment() {
    let w = select_window(100, 3, None, 2);
    assert_eq!(w, 101..103, "should start 2 segments behind the live edge");
}

#[test]
fn steady_state_fetches_only_new_segments() {
    let w = select_window(101, 3, Some(103), 2);
    assert_eq!(w, 103..104, "should fetch exactly the one new segment");
}

#[test]
fn nothing_new_yields_empty_range() {
    let w = select_window(101, 3, Some(104), 2);
    assert!(w.is_empty(), "no new segments -> empty range, got {w:?}");
}

#[test]
fn skips_forward_when_fallen_behind() {
    let w = select_window(110, 3, Some(103), 2);
    assert_eq!(w, 111..113, "should skip forward to re-sync near live");
    assert!(w.start > 103, "must drop the stale gap rather than play it");
}

#[test]
fn never_buffers_more_than_buffer_segments_behind_live() {
    for (ms, count, next) in [(100u64, 5usize, None), (100, 5, Some(0)), (50, 3, Some(40))] {
        let w = select_window(ms, count, next, 2);
        let live = ms + count as u64;
        assert!(
            live - w.start <= 2,
            "latency exceeded buffer for ms={ms} next={next:?}"
        );
    }
}

#[test]
fn handles_empty_playlist_without_panicking() {
    let w = select_window(100, 0, None, 2);
    assert!(w.is_empty());
    let w = select_window(100, 0, Some(50), 2);
    assert!(w.is_empty());
}

#[test]
fn select_window_never_starts_before_the_playlist() {
    let w = select_window(100, 1, None, 5);
    assert_eq!(w, 100..101);
    let w = select_window(100, 4, Some(20), 10);
    assert_eq!(w, 100..104);
}

#[test]
fn select_window_past_the_live_edge_is_empty_at_the_edge() {
    let w = select_window(100, 3, Some(200), 2);
    assert_eq!(w, 103..103);
}

#[test]
fn select_window_with_zero_buffer_starts_at_the_edge() {
    let w = select_window(7, 4, None, 0);
    assert_eq!(w, 11..11);
}

#[test]
fn test_resolve_segment_url_relative() {
    let base = "https://radio.plaza.one/hls/stream/index.m3u8";
    let segment = "segment_001.ts";
    let result = resolve_segment_url(base, segment);
    assert_eq!(result, "https://radio.plaza.one/hls/stream/segment_001.ts");
}

#[test]
fn test_resolve_segment_url_absolute() {
    let base = "https://radio.plaza.one/hls/index.m3u8";
    let segment = "https://cdn.example.com/hls/segment.ts";
    let result = resolve_segment_url(base, segment);
    assert_eq!(result, "https://cdn.example.com/hls/segment.ts");
}

#[test]
fn test_resolve_segment_url_base_with_trailing_slash() {
    let base = "https://radio.plaza.one/hls/";
    let segment = "stream/seg001.ts";
    let result = resolve_segment_url(base, segment);
    assert_eq!(result, "https://radio.plaza.one/hls/stream/seg001.ts");
}

#[test]
fn test_resolve_segment_url_no_path() {
    let base = "https://example.com";
    let segment = "seg.ts";
    let result = resolve_segment_url(base, segment);
    assert!(result.contains("seg.ts"));
}

#[test]
fn resolve_url_without_any_slash_joins_with_one() {
    assert_eq!(resolve_url("base", "seg.ts"), "base/seg.ts");
    assert_eq!(resolve_url("https://example.com", "seg.ts"), "https://example.com/seg.ts");
    assert_eq!(resolve_url("http://host", "a.m3u8"), "http://host/a.m3u8");
    assert_eq!(resolve_url("https://example.com/", "seg.ts"), "https://example.com/seg.ts");
    assert_eq!(resolve_url("http://a/b", "http://c/d"), "http://c/d");
}

#[test]
fn hls_test_test_parse_media_playlist() {
    let m3u8 = b"#EXTM3U\n\
                 #EXT-X-VERSION:3\n\
                 #EXT-X-TARGETDURATION:5\n\
                 #EXT-X-MEDIA-SEQUENCE:42\n\
                 #EXTINF:5.0,\n\
                 segment_001.ts\n\
                 #EXTINF:5.0,\n\
                 segment_002.ts\n\
                 #EXTINF:4.8,\n\
                 segment_003.ts\n";

    let playlist = m3u8_rs::parse_media_playlist_res(m3u8).expect("media playlist parse");
    assert_eq!(playlist.segments.len(), 3);
    assert_eq!(playlist.target_duration, 5);
    assert_eq!(playlist.media_sequence, 42);
    assert_eq!(playlist.segments[0].uri, "segment_001.ts");
    assert_eq!(playlist.segments[2].uri, "segment_003.ts");
}

#[test]
fn test_parse_master_playlist_picks_highest_bandwidth() {
    let m3u8 = b"#EXTM3U\n\
                 #EXT-X-VERSION:3\n\
                 #EXT-X-STREAM-INF:BANDWIDTH=70400,CODECS=\"mp4a.40.2\"\n\
                 aac_lofi.m3u8\n\
                 #EXT-X-STREAM-INF:BANDWIDTH=105600,CODECS=\"mp4a.40.2\"\n\
                 aac_midfi.m3u8\n\
                 #EXT-X-STREAM-INF:BANDWIDTH=140800,CODECS=\"mp4a.40.2\"\n\
                 aac_hifi.m3u8\n";

    let playlist = m3u8_rs::parse_master_playlist_res(m3u8).expect("master playlist parse");
    assert_eq!(playlist.variants.len(), 3);
    let highest = playlist
        .variants
        .iter()
        .max_by_key(|v| v.bandwidth)
        .unwrap();
    assert_eq!(highest.bandwidth, 140800);
    assert_eq!(highest.uri, "aac_hifi.m3u8");
}

#[test]
fn test_parse_master_playlist() {
    let m3u8 = b"#EXTM3U\n\
                 #EXT-X-VERSION:3\n\
                 #EXT-X-STREAM-INF:BANDWIDTH=128000,CODECS=\"mp4a.40.2\"\n\
                 low/index.m3u8\n\
                 #EXT-X-STREAM-INF:BANDWIDTH=320000,CODECS=\"mp4a.40.2\"\n\
                 high/index.m3u8\n";

    let result = m3u8_rs::parse_master_playlist_res(m3u8);
    assert!(result.is_ok(), "Master playlist parse failed: {:?}", result.err());
    let playlist = result.unwrap();
    assert_eq!(playlist.variants.len(), 2);

    let highest = playlist.variants.iter().max_by_key(|v| v.bandwidth).unwrap();
    assert_eq!(highest.bandwidth, 320000);
    assert_eq!(highest.uri, "high/index.m3u8");
}

const MASTER: &[u8] = b"#EXTM3U\n\
    #EXT-X-VERSION:3\n\
    #EXT-X-STREAM-INF:BANDWIDTH=70400,CODECS=\"mp4a.40.2\"\n\
    aac_lofi.m3u8\n\
    #EXT-X-STREAM-INF:BANDWIDTH=140800,CODECS=\"mp4a.40.2\"\n\
    aac_hifi.m3u8\n\
    #EXT-X-STREAM-INF:BANDWIDTH=105600,CODECS=\"mp4a.40.2\"\n\
    aac_midfi.m3u8\n";

const MEDIA: &[u8] = b"#EXTM3U\n\
    #EXT-X-VERSION:3\n\
    #EXT-X-TARGETDURATION:5\n\
    #EXT-X-MEDIA-SEQUENCE:42\n\
    #EXTINF:5.0,\n\
    segment_001.ts\n\
    #EXTINF:5.0,\n\
    segment_002.ts\n\
    #EXTINF:4.8,\n\
    segment_003.ts\n";

#[test]
fn master_playlist_resolves_to_highest_bandwidth_variant() {
    let url = resolve_media_url("https://radio.plaza.one/hls", MASTER).unwrap();
    assert_eq!(url, "https://radio.plaza.one/aac_hifi.m3u8");
}

#[test]
fn media_playlist_url_is_kept_as_is() {
    let url = resolve_media_url("https://radio.plaza.one/aac_hifi.m3u8", MEDIA).unwrap();
    assert_eq!(url, "https://radio.plaza.one/aac_hifi.m3u8");
}

#[test]
fn unparsable_master_playlist_is_a_permanent_error() {
    let err = resolve_media_url("https://radio.plaza.one/hls", b"not a playlist").unwrap_err();
    assert_eq!(err, PcmError::Permanent("HLS: could not parse master playlist".to_string()));
}

#[test]
fn master_playlist_without_variants_is_a_permanent_error() {
    let empty = PlaylistInfo::Master { variants: Vec::new() };
    let err = media_url_for("https://x/hls", &empty).unwrap_err();
    assert_eq!(err, PcmError::Permanent("HLS master playlist has no variants".to_string()));
}

#[test]
fn equal_bandwidths_pick_the_last_variant() {
    let variants = vec![
        VariantInfo { bandwidth: 5, uri: "a".to_string() },
        VariantInfo { bandwidth: 9, uri: "b".to_string() },
        VariantInfo { bandwidth: 9, uri: "c".to_string() },
        VariantInfo { bandwidth: 1, uri: "d".to_string() },
    ];
    assert_eq!(best_variant_index(&variants), Some(2));
    assert_eq!(best_variant_index(&Vec::new()), None);
}

#[test]
fn first_poll_plans_the_segments_near_the_live_edge() {
    match plan_poll("https://radio.plaza.one/aac_hifi.m3u8", MEDIA, None) {
        PollPlan::Fetch { interval_secs, segment_urls, next_seq, skipped } => {
            assert_eq!(interval_secs, 2);
            assert_eq!(next_seq, 45);
            assert_eq!(skipped, 0);
            assert_eq!(
                segment_urls,
                vec![
                    "https://radio.plaza.one/segment_002.ts".to_string(),
                    "https://radio.plaza.one/segment_003.ts".to_string(),
                ]
            );
        }
        PollPlan::Retry => panic!("a media playlist must be planned"),
    }
}

#[test]
fn a_master_playlist_where_a_media_playlist_is_expected_is_retried() {
    assert!(matches!(plan_poll("https://x/a.m3u8", MASTER, None), PollPlan::Retry));
    assert!(matches!(plan_poll("https://x/a.m3u8", b"garbage", Some(3)), PollPlan::Retry));
}

#[test]
fn a_stalled_client_skips_forward_and_counts_the_skipped_segments() {
    let uris: Vec<String> = (0..3).map(|i| format!("s{i}.ts")).collect();
    match plan_media_poll("http://h/p/m.m3u8", 1, 110, &uris, Some(103)) {
        PollPlan::Fetch { interval_secs, segment_urls, next_seq, skipped } => {
            assert_eq!(interval_secs, 1);
            assert_eq!(next_seq, 113);
            assert_eq!(skipped, 8);
            assert_eq!(segment_urls, vec!["http://h/p/s1.ts".to_string(), "http://h/p/s2.ts".to_string()]);
        }
        PollPlan::Retry => panic!("expected a fetch plan"),
    }
}

#[test]
fn poll_interval_is_half_the_target_duration_but_at_least_a_second() {
    let uris: Vec<String> = Vec::new();
    for (target, expected) in [(0u64, 1u64), (1, 1), (3, 1), (4, 2), (10, 5)] {
        match plan_media_poll("u", target, 0, &uris, None) {
            PollPlan::Fetch { interval_secs, .. } => assert_eq!(interval_secs, expected),
            PollPlan::Retry => panic!("expected a fetch plan"),
        }
    }
}

#[test]
fn fetch_loop_gives_up_after_five_consecutive_failures() {
    assert_eq!(MAX_CONSECUTIVE_FAILURES, 5);
    let mut failures = 0;
    for attempt in 1..=5 {
        let (f, action) = fetch_step(failures, PollOutcome::Failed);
        failures = f;
        if attempt < 5 {
            assert_eq!(action, FetchAction::Sleep(1));
        } else {
            assert_eq!(action, FetchAction::GiveUp);
        }
    }
    assert_eq!(fetch_step(3, PollOutcome::Progress { interval_secs: 2 }), (0, FetchAction::Sleep(2)));
    assert_eq!(fetch_step(2, PollOutcome::Closed), (2, FetchAction::Exit));
    assert_eq!(BUFFER_SEGMENTS, 2);
}
