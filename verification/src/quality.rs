//! Stream format selection.

use vstd::prelude::*;
use vstd::string::*;

verus! {

/// A Nightwave Plaza stream endpoint, identified by codec and bitrate.
///
/// MP3 is the default: it plays everywhere with no extra setup, whereas the
/// lower-bandwidth Opus and adaptive HLS streams are opt-in.
#[derive(Debug, Clone, Copy, PartialEq, Eq, Structural)]
pub enum StreamQuality {
    /// Adaptive AAC over HLS (the highest-bandwidth variant is selected).
    Hls,
    /// 64 kbps Opus.
    Ogg,
    /// 96 kbps Opus.
    OggLow,
    /// 128 kbps MP3.
    Mp3,
    /// 96 kbps MP3.
    Mp3Low,
}

/// The live URL of each stream quality. The low-quality endpoints use an
/// underscore; the slash forms (`/ogg/low`, `/mp3/low`) do not exist on the server.
pub open spec fn stream_url_of(q: StreamQuality) -> Seq<char> {
    match q {
        StreamQuality::Hls => "https://radio.plaza.one/hls"@,
        StreamQuality::Ogg => "https://radio.plaza.one/ogg"@,
        StreamQuality::OggLow => "https://radio.plaza.one/ogg_low"@,
        StreamQuality::Mp3 => "https://radio.plaza.one/mp3"@,
        StreamQuality::Mp3Low => "https://radio.plaza.one/mp3_low"@,
    }
}

/// The human-readable label of each stream quality.
pub open spec fn label_of(q: StreamQuality) -> Seq<char> {
    match q {
        StreamQuality::Hls => "HLS/AAC"@,
        StreamQuality::Ogg => "Opus 64k"@,
        StreamQuality::OggLow => "Opus 96k"@,
        StreamQuality::Mp3 => "MP3 128k"@,
        StreamQuality::Mp3Low => "MP3 96k"@,
    }
}

/// The command-line names of the stream qualities.
pub open spec fn quality_named(name: Seq<char>) -> Option<StreamQuality> {
    if name == "hls"@ {
        Some(StreamQuality::Hls)
    } else if name == "ogg"@ {
        Some(StreamQuality::Ogg)
    } else if name == "ogg-low"@ {
        Some(StreamQuality::OggLow)
    } else if name == "mp3"@ {
        Some(StreamQuality::Mp3)
    } else if name == "mp3-low"@ {
        Some(StreamQuality::Mp3Low)
    } else {
        None
    }
}

/// A command-line name as it appears in a URL path: `-` written as `_`.
pub open spec fn url_form(name: Seq<char>) -> Seq<char> {
    name.map_values(|c: char| if c == '-' { '_' } else { c })
}

/// Each quality streams from its own endpoint on the Plaza radio host, named
/// after the quality's command-line name (`mp3` plays `/mp3`, `mp3-low` plays
/// `/mp3_low`, and so on): no two qualities share a stream.
pub proof fn lemma_stream_urls_follow_quality_names(name: Seq<char>, q1: StreamQuality, q2: StreamQuality)
    ensures
        quality_named(name) == Some(q1) ==> stream_url_of(q1) == "https://radio.plaza.one/"@ + url_form(name),
        stream_url_of(q1) == stream_url_of(q2) ==> q1 == q2,
{
    reveal_strlit("https://radio.plaza.one/");
    reveal_strlit("https://radio.plaza.one/hls");
    reveal_strlit("https://radio.plaza.one/ogg");
    reveal_strlit("https://radio.plaza.one/ogg_low");
    reveal_strlit("https://radio.plaza.one/mp3");
    reveal_strlit("https://radio.plaza.one/mp3_low");
    reveal_strlit("hls");
    reveal_strlit("ogg");
    reveal_strlit("ogg-low");
    reveal_strlit("mp3");
    reveal_strlit("mp3-low");
    let base = "https://radio.plaza.one/"@;
    if quality_named(name) == Some(q1) {
        assert(stream_url_of(q1) =~= base + url_form(name));
    }
    let u1 = stream_url_of(q1);
    let u2 = stream_url_of(q2);
    if u1 == u2 && q1 != q2 {
        assert(u1.len() == u2.len());
        assert(u1[24] == u2[24] && u1[26] == u2[26]);
    }
}

impl Default for StreamQuality {
    /// MP3 128k.
    fn default() -> (q: StreamQuality)
        ensures
            q == StreamQuality::Mp3,
    {
        StreamQuality::Mp3
    }
}

/// How a stream's audio is decoded.
#[derive(Debug, Clone, Copy, PartialEq, Eq, Structural)]
pub enum Decoder {
    /// Decoded by symphonia, probed as `audio/mpeg`.
    Mpeg,
    /// Ogg demuxed by symphonia, Opus decoded by libopus.
    OggOpus,
    /// HLS playlists, MPEG-TS demuxed here, AAC decoded by symphonia.
    HlsAac,
}

/// The decoder for each quality.
pub open spec fn decoder_of(q: StreamQuality) -> Decoder {
    match q {
        StreamQuality::Mp3 | StreamQuality::Mp3Low => Decoder::Mpeg,
        StreamQuality::Ogg | StreamQuality::OggLow => Decoder::OggOpus,
        StreamQuality::Hls => Decoder::HlsAac,
    }
}

impl StreamQuality {
    /// The live stream URL for this quality.
    pub fn stream_url(&self) -> (url: &'static str)
        ensures
            url@ == stream_url_of(*self),
    {
        match self {
            StreamQuality::Hls => "https://radio.plaza.one/hls",
            StreamQuality::Ogg => "https://radio.plaza.one/ogg",
            StreamQuality::OggLow => "https://radio.plaza.one/ogg_low",
            StreamQuality::Mp3 => "https://radio.plaza.one/mp3",
            StreamQuality::Mp3Low => "https://radio.plaza.one/mp3_low",
        }
    }

    /// A short human-readable label, e.g. for status messages.
    pub fn label(&self) -> (l: &'static str)
        ensures
            l@ == label_of(*self),
    {
        match self {
            StreamQuality::Hls => "HLS/AAC",
            StreamQuality::Ogg => "Opus 64k",
            StreamQuality::OggLow => "Opus 96k",
            StreamQuality::Mp3 => "MP3 128k",
            StreamQuality::Mp3Low => "MP3 96k",
        }
    }

    /// How this stream is decoded.
    pub fn decoder(&self) -> (d: Decoder)
        ensures
            d == decoder_of(*self),
    {
        match self {
            StreamQuality::Mp3 | StreamQuality::Mp3Low => Decoder::Mpeg,
            StreamQuality::Ogg | StreamQuality::OggLow => Decoder::OggOpus,
            StreamQuality::Hls => Decoder::HlsAac,
        }
    }

    /// Whether this client can decode this stream: MP3 and HLS/AAC decode in
    /// pure Rust, Opus through libopus, so every quality is playable.
    pub fn is_supported(&self) -> (b: bool)
        ensures
            b,
    {
        true
    }

    /// The stream to play this session for this configured quality, and the
    /// notice owed when it cannot be decoded: such a quality would fall back to
    /// MP3 128k, leaving the stored preference alone. Every quality is
    /// supported, so it is always played as configured, with no notice.
    pub fn session_quality(&self) -> (r: (StreamQuality, Option<String>))
        ensures
            r.0 == *self,
            r.1 is None,
    {
        if self.is_supported() {
            (*self, None)
        } else {
            let mut notice = String::from_str(self.label());
            crate::strings::push_str(&mut notice, " not supported yet \u{2014} playing MP3 128k instead");
            (StreamQuality::Mp3, Some(notice))
        }
    }
}

} // verus!
