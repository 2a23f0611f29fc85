use plaza_tui::flac::{encode_flac, picture_block, splice_metadata, u24_be, vorbis_comment_block, Error, Picture};

/// One second of a 440 Hz stereo tone, quantized to 16 bits as the recorder does.
fn tone() -> (Vec<i32>, u32, u16) {
    let rate = 48_000u32;
    let mut s = Vec::with_capacity(rate as usize * 2);
    for i in 0..rate as usize {
        let v = (i as f32 * 440.0 * std::f32::consts::TAU / rate as f32).sin() * 0.5;
        let q = (v.clamp(-1.0, 1.0) * f32::from(i16::MAX)).round() as i32;
        s.push(q);
        s.push(q);
    }
    (s, rate, 2)
}

/// Decode FLAC bytes with symphonia and return the per-channel frame count.
fn decode_frames(flac: &[u8]) -> u64 {
    let mss = symphonia::core::io::MediaSourceStream::new(Box::new(std::io::Cursor::new(flac.to_vec())), Default::default());
    let mut hint = symphonia::core::probe::Hint::new();
    hint.with_extension("flac");
    let probed = symphonia::default::get_probe()
        .format(&hint, mss, &symphonia::core::formats::FormatOptions::default(), &symphonia::core::meta::MetadataOptions::default())
        .expect("our FLAC output must be decodable by symphonia");
    let mut format = probed.format;
    let track = format
        .tracks()
        .iter()
        .find(|t| t.codec_params.codec != symphonia::core::codecs::CODEC_TYPE_NULL)
        .expect("audio track");
    let track_id = track.id;
    let mut decoder = symphonia::default::get_codecs()
        .make(&track.codec_params, &symphonia::core::codecs::DecoderOptions::default())
        .expect("flac decoder");
    let mut frames = 0u64;
    while let Ok(packet) = format.next_packet() {
        if packet.track_id() != track_id {
            continue;
        }
        if let Ok(decoded) = decoder.decode(&packet) {
            let mut sb = symphonia::core::audio::SampleBuffer::<f32>::new(decoded.capacity() as u64, *decoded.spec());
            sb.copy_interleaved_ref(decoded);
            frames += (sb.samples().len() / 2) as u64;
        }
    }
    frames
}

fn contains(haystack: &[u8], needle: &[u8]) -> bool {
    haystack.windows(needle.len()).any(|w| w == needle)
}

#[test]
fn round_trips_to_lossless_audio_of_the_same_length() {
    let (samples, rate, ch) = tone();
    let flac = encode_flac(&samples, ch, rate, &[("ARTIST", "Test")], None).unwrap();
    assert_eq!(&flac[0..4], b"fLaC");
    assert_eq!(decode_frames(&flac), rate as u64);
}

#[test]
fn embeds_vorbis_comments_and_a_picture() {
    let (samples, rate, ch) = tone();
    let cover = Picture { mime: "image/jpeg".into(), data: vec![0xFF, 0xD8, 0xFF, 0xD9] };
    let flac = encode_flac(
        &samples,
        ch,
        rate,
        &[("ARTIST", "la trace"), ("TITLE", "Man Enough")],
        Some(&cover),
    )
    .unwrap();
    assert!(contains(&flac, b"ARTIST=la trace"));
    assert!(contains(&flac, b"TITLE=Man Enough"));
    assert!(contains(&flac, b"image/jpeg"));
    assert_eq!(decode_frames(&flac), rate as u64);
}

#[test]
fn u24_be_takes_the_low_24_bits() {
    assert_eq!(u24_be(0x123456), [0x12, 0x34, 0x56]);
    assert_eq!(u24_be(7), [0, 0, 7]);
    assert_eq!(u24_be(0x1_000_001), [0, 0, 1]);
}

#[test]
fn vorbis_comment_block_layout() {
    let d = vorbis_comment_block(&[("A", "b")]);
    let mut expected = vec![9, 0, 0, 0];
    expected.extend_from_slice(b"plaza-tui");
    expected.extend_from_slice(&[1, 0, 0, 0, 3, 0, 0, 0]);
    expected.extend_from_slice(b"A=b");
    assert_eq!(d, expected);
    let empty = vorbis_comment_block(&[]);
    assert_eq!(empty.len(), 4 + 9 + 4);
}

#[test]
fn vorbis_comments_are_utf8() {
    let d = vorbis_comment_block(&[("TITLE", "リサ")]);
    let entry = "TITLE=リサ".as_bytes();
    assert_eq!(&d[17..21], &(entry.len() as u32).to_le_bytes());
    assert_eq!(&d[21..], entry);
}

#[test]
fn picture_block_layout() {
    let pic = Picture { mime: "image/png".into(), data: vec![1, 2, 3] };
    let d = picture_block(&pic);
    let mut expected = vec![0, 0, 0, 3, 0, 0, 0, 9];
    expected.extend_from_slice(b"image/png");
    expected.extend_from_slice(&[0; 4]);
    expected.extend_from_slice(&[0; 16]);
    expected.extend_from_slice(&[0, 0, 0, 3, 1, 2, 3]);
    assert_eq!(d, expected);
}

/// A minimal stream: marker, a last-flagged STREAMINFO of 34 bytes, then frames.
fn tiny_stream() -> Vec<u8> {
    let mut s = b"fLaC".to_vec();
    s.extend_from_slice(&[0x80, 0, 0, 34]);
    let mut info = vec![0u8; 34];
    info[0] = 0x00;
    info[1] = 0x10; // min block size 16
    info[2] = 0x10;
    info[3] = 0x00; // max block size 4096
    s.extend_from_slice(&info);
    s.extend_from_slice(&[0xFF, 0xF8, 0xAB, 0xCD]);
    s
}

#[test]
fn splice_inserts_comments_after_streaminfo_and_moves_the_last_flag() {
    let flac = tiny_stream();
    let out = splice_metadata(flac.clone(), &[("K", "v")], None).unwrap();
    assert_eq!(&out[0..4], b"fLaC");
    assert_eq!(out[4], 0x00, "STREAMINFO is no longer the last block");
    assert_eq!(&out[8..10], &[0x10, 0x00], "min block size set to max block size");
    let comment = vorbis_comment_block(&[("K", "v")]);
    assert_eq!(out[42], 0x84);
    assert_eq!(&out[43..46], &u24_be(comment.len()));
    assert_eq!(&out[46..46 + comment.len()], &comment[..]);
    assert_eq!(&out[46 + comment.len()..], &[0xFF, 0xF8, 0xAB, 0xCD]);
}

#[test]
fn splice_with_a_picture_flags_only_the_picture_last() {
    let flac = tiny_stream();
    let pic = Picture { mime: "image/jpeg".into(), data: vec![9, 9] };
    let out = splice_metadata(flac, &[], Some(&pic)).unwrap();
    let comment = vorbis_comment_block(&[]);
    assert_eq!(out[42], 0x04);
    let pic_at = 46 + comment.len();
    assert_eq!(out[pic_at], 0x86);
    let body = picture_block(&pic);
    assert_eq!(&out[pic_at + 4..pic_at + 4 + body.len()], &body[..]);
    assert_eq!(&out[pic_at + 4 + body.len()..], &[0xFF, 0xF8, 0xAB, 0xCD]);
}

#[test]
fn splice_rejects_what_is_not_flac() {
    match splice_metadata(b"OggS1234".to_vec(), &[], None) {
        Err(Error::Encode(m)) => assert_eq!(m, "encoder did not produce a FLAC stream"),
        other => panic!("unexpected {other:?}"),
    }
    match splice_metadata(b"fLaC".to_vec(), &[], None) {
        Err(Error::Encode(m)) => assert_eq!(m, "encoder did not produce a FLAC stream"),
        other => panic!("unexpected {other:?}"),
    }
}

#[test]
fn splice_reports_truncated_metadata() {
    let mut s = b"fLaC".to_vec();
    s.extend_from_slice(&[0x81, 0, 0, 200, 1, 2, 3]);
    match splice_metadata(s, &[], None) {
        Err(Error::Encode(m)) => assert_eq!(m, "truncated metadata block"),
        other => panic!("unexpected {other:?}"),
    }
    let mut t = b"fLaC".to_vec();
    t.extend_from_slice(&[0x01, 0, 0, 0, 0x01, 0, 0]);
    match splice_metadata(t, &[], None) {
        Err(Error::Encode(m)) => assert_eq!(m, "truncated metadata block header"),
        other => panic!("unexpected {other:?}"),
    }
}

#[test]
fn encoder_rejects_an_impossible_channel_count() {
    let r = encode_flac(&[0, 0, 0], 0, 44_100, &[], None);
    assert!(matches!(r, Err(Error::Config(_)) | Err(Error::Encode(_))));
}

#[test]
fn splice_keeps_a_short_last_streaminfo_as_it_is() {
    let mut flac = b"fLaC".to_vec();
    flac.extend_from_slice(&[0x80, 0x00, 0x00, 0x00]);
    flac.extend_from_slice(&[0xFF, 0xF8]);
    let out = splice_metadata(flac, &[], None).unwrap();
    let comment = vorbis_comment_block(&[]);
    assert_eq!(&out[0..8], &[0x66, 0x4C, 0x61, 0x43, 0x00, 0x00, 0x00, 0x00]);
    assert_eq!(out[8], 0x84);
    assert_eq!(&out[12..12 + comment.len()], &comment[..]);
    assert_eq!(&out[12 + comment.len()..], &[0xFF, 0xF8]);
}
