//! User settings: recording preferences, where files live by default, and the
//! command line.

use vstd::prelude::*;
use vstd::string::*;

use crate::quality::{quality_named, StreamQuality};
use crate::recording::{join, join_path, opt_view, RecordMode, RecordingConfig};
use crate::strings::str_eq;

verus! {

/// Settings for recording songs from the live stream to a local FLAC library.
#[derive(Debug)]
pub struct RecordingSettings {
    /// What to do with completed songs: `off`, `cache`, or `session`.
    pub mode: RecordMode,
    /// Library directory; empty means `<audio dir>/Plaza`.
    pub directory: Option<String>,
    /// How many songs the rolling cache keeps.
    pub cache_size: usize,
    /// Download and embed cover art.
    pub embed_artwork: bool,
    /// Skip re-saving a song already in the library.
    pub deduplicate: bool,
}

/// The default size of the rolling cache.
pub fn default_cache_size() -> (n: usize)
    ensures
        n == 20,
{
    20
}

/// The default of the settings that are on unless turned off.
pub fn default_true() -> (b: bool)
    ensures
        b,
{
    true
}

impl Default for RecordingSettings {
    /// Recording off, the default library, a cache of 20 songs, artwork embedded,
    /// duplicates skipped.
    fn default() -> (s: RecordingSettings)
        ensures
            s.mode == RecordMode::Off,
            s.directory is None,
            s.cache_size == 20,
            s.embed_artwork,
            s.deduplicate,
    {
        RecordingSettings {
            mode: RecordMode::Off,
            directory: None,
            cache_size: default_cache_size(),
            embed_artwork: default_true(),
            deduplicate: default_true(),
        }
    }
}

/// The platform's music directory (`dirs::audio_dir`), as text. Trusted: it
/// depends on the environment, so nothing is stated of it; a path that is not
/// UTF-8 comes back with replacement characters.
#[verifier::external_body]
fn audio_dir() -> (d: Option<String>) {
    dirs::audio_dir().map(|p| p.to_string_lossy().into_owned())
}

/// The platform's local data directory (`dirs::data_local_dir`), as text.
/// Trusted in the same way as [`audio_dir`].
#[verifier::external_body]
fn data_local_dir() -> (d: Option<String>) {
    dirs::data_local_dir().map(|p| p.to_string_lossy().into_owned())
}

/// The platform's configuration directory (`dirs::config_dir`), as text.
/// Trusted in the same way as [`audio_dir`].
#[verifier::external_body]
fn config_dir() -> (d: Option<String>) {
    dirs::config_dir().map(|p| p.to_string_lossy().into_owned())
}

/// The text of the first directory present, else `.`.
pub open spec fn dir_or_current(first: Option<Seq<char>>, second: Option<Seq<char>>) -> Seq<char> {
    match first {
        Some(d) => d,
        None => match second {
            Some(d) => d,
            None => "."@,
        },
    }
}

fn first_dir(first: Option<String>, second: Option<String>) -> (d: String)
    ensures
        d@ == dir_or_current(opt_view(first), opt_view(second)),
{
    match first {
        Some(d) => d,
        None => match second {
            Some(d) => d,
            None => String::from_str("."),
        },
    }
}

/// The default recording library given the platform's music directory and its
/// local data directory: the `Plaza` folder of the first that exists, else of
/// the current directory.
pub fn recording_root_from(audio: Option<String>, data_local: Option<String>) -> (root: String)
    ensures
        root@ == join_path(dir_or_current(opt_view(audio), opt_view(data_local)), "Plaza"@),
{
    let dir = first_dir(audio, data_local);
    join(dir.as_str(), "Plaza")
}

/// The default recording library: the platform music directory's `Plaza` folder
/// (see [`recording_root_from`]).
pub fn default_recording_root() -> (root: String)
    ensures
        exists|d: Seq<char>| root@ == join_path(d, "Plaza"@),
{
    let audio = audio_dir();
    let data_local = if audio.is_none() { data_local_dir() } else { None };
    recording_root_from(audio, data_local)
}

impl RecordingSettings {
    /// Resolve these settings into a [`RecordingConfig`] for the recorder: the
    /// configured directory when one is set and not empty, else the default
    /// library.
    pub fn to_config(&self) -> (c: RecordingConfig)
        ensures
            c.mode == self.mode,
            c.cache_size == self.cache_size,
            c.embed_artwork == self.embed_artwork,
            c.deduplicate == self.deduplicate,
            match self.directory {
                Some(d) => if d@.len() > 0 {
                    c.root@ == d@
                } else {
                    exists|dir: Seq<char>| c.root@ == join_path(dir, "Plaza"@)
                },
                None => exists|dir: Seq<char>| c.root@ == join_path(dir, "Plaza"@),
            },
    {
        let root = match &self.directory {
            Some(d) => if d.as_str().is_empty() {
                default_recording_root()
            } else {
                d.clone()
            },
            None => default_recording_root(),
        };
        RecordingConfig {
            mode: self.mode,
            root,
            cache_size: self.cache_size,
            embed_artwork: self.embed_artwork,
            deduplicate: self.deduplicate,
        }
    }
}

/// The configuration file under a configuration directory:
/// `<dir>/plaza-tui/config.toml`, the current directory standing in for a
/// missing one.
pub open spec fn config_path_of(dir: Option<Seq<char>>) -> Seq<char> {
    join_path(join_path(dir_or_current(dir, None), "plaza-tui"@), "config.toml"@)
}

/// The configuration file under `dir` (see [`config_path_of`]).
pub fn config_path_in(dir: Option<String>) -> (p: String)
    ensures
        p@ == config_path_of(opt_view(dir)),
{
    let d = first_dir(dir, None);
    let app_dir = join(d.as_str(), "plaza-tui");
    join(app_dir.as_str(), "config.toml")
}

/// The configuration file (`$XDG_CONFIG_HOME/plaza-tui/config.toml` or the
/// platform equivalent).
pub fn config_path() -> (p: String)
    ensures
        exists|d: Option<Seq<char>>| p@ == config_path_of(d),
{
    config_path_in(config_dir())
}

/// The saved-token file under a local data directory:
/// `<dir>/plaza-tui/.token`, the current directory standing in for a missing one.
pub open spec fn token_path_of(dir: Option<Seq<char>>) -> Seq<char> {
    join_path(join_path(dir_or_current(dir, None), "plaza-tui"@), ".token"@)
}

/// The saved-token file under `dir` (see [`token_path_of`]).
pub fn token_file_path_in(dir: Option<String>) -> (p: String)
    ensures
        p@ == token_path_of(opt_view(dir)),
{
    let d = first_dir(dir, None);
    let app_dir = join(d.as_str(), "plaza-tui");
    join(app_dir.as_str(), ".token")
}

/// The saved-token file in the platform's local data directory.
pub fn token_file_path() -> (p: String)
    ensures
        exists|d: Option<Seq<char>>| p@ == token_path_of(d),
{
    token_file_path_in(data_local_dir())
}

/// The directory that holds the log file: `<local data dir>/plaza-tui`.
pub fn log_dir() -> (p: String)
    ensures
        exists|d: Seq<char>| p@ == join_path(d, "plaza-tui"@),
{
    let d = first_dir(data_local_dir(), None);
    join(d.as_str(), "plaza-tui")
}

/// Parse a command-line quality name (`hls`, `ogg`, `ogg-low`, `mp3`, `mp3-low`).
pub fn parse_quality(s: &str) -> (q: Option<StreamQuality>)
    ensures
        q == quality_named(s@),
{
    if str_eq(s, "hls") {
        Some(StreamQuality::Hls)
    } else if str_eq(s, "ogg") {
        Some(StreamQuality::Ogg)
    } else if str_eq(s, "ogg-low") {
        Some(StreamQuality::OggLow)
    } else if str_eq(s, "mp3") {
        Some(StreamQuality::Mp3)
    } else if str_eq(s, "mp3-low") {
        Some(StreamQuality::Mp3Low)
    } else {
        None
    }
}

/// The command line: a terminal client for Nightwave Plaza, the vaporwave radio
/// station.
#[derive(Debug)]
pub struct Cli {
    /// Forget the saved authentication token and exit.
    pub reset_auth: bool,
    /// Stream quality to play: hls, ogg, ogg-low, mp3, or mp3-low.
    pub stream_quality: Option<String>,
    /// Log level: error, warn, info, debug, or trace.
    pub log_level: String,
}

impl Cli {
    /// The stream quality the command line asks for, if it names one.
    pub fn quality_override(&self) -> (q: Option<StreamQuality>)
        ensures
            q == match self.stream_quality {
                Some(s) => quality_named(s@),
                None => None,
            },
    {
        match &self.stream_quality {
            Some(s) => parse_quality(s.as_str()),
            None => None,
        }
    }
}

} // verus!
