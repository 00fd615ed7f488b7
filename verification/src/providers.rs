//! The provider-facing data and interfaces: what audio and lyric
//! searches return, and the lyric service that answers window queries.
//!
//! The interfaces that reach the network are declared here and
//! implemented outside the library; the lyric service is implemented
//! here, since it only computes.

use crate::lyrics::{spec_window, LyricsMap};
use crate::parse::{all_lines_ok, parse, spec_lines, spec_parse, ParseError};
use vstd::prelude::*;

verus! {

/// What an audio search returns for one candidate track. A duration of
/// zero milliseconds means the provider did not report one.
#[derive(Debug)]
pub struct AudioResult {
    pub id: String,
    pub title: String,
    pub artist: String,
    pub duration_ms: u64,
}

/// One candidate from a lyric search.
#[derive(Debug)]
pub struct LyricsResult {
    pub id: String,
    pub title: String,
    pub artist: String,
    pub synced_lyrics: String,
    pub lyric_map: Option<LyricsMap>,
}

impl Clone for AudioResult {
    /// An equal result, field for field.
    fn clone(&self) -> (r: Self)
        ensures
            r.id@ == self.id@,
            r.title@ == self.title@,
            r.artist@ == self.artist@,
            r.duration_ms == self.duration_ms,
    {
        AudioResult {
            id: self.id.clone(),
            title: self.title.clone(),
            artist: self.artist.clone(),
            duration_ms: self.duration_ms,
        }
    }
}

impl Clone for LyricsResult {
    /// An equal result, field for field; the lyric table keeps its view.
    fn clone(&self) -> (r: Self)
        ensures
            r.id@ == self.id@,
            r.title@ == self.title@,
            r.artist@ == self.artist@,
            r.synced_lyrics@ == self.synced_lyrics@,
            match (r.lyric_map, self.lyric_map) {
                (Some(rm), Some(m)) => rm@ == m@,
                (None, None) => true,
                _ => false,
            },
    {
        LyricsResult {
            id: self.id.clone(),
            title: self.title.clone(),
            artist: self.artist.clone(),
            synced_lyrics: self.synced_lyrics.clone(),
            lyric_map: match &self.lyric_map {
                Some(m) => Some(m.clone()),
                None => None,
            },
        }
    }
}

/// A lyric payload nested inside a provider's response body.
#[derive(Debug, Clone)]
pub struct Message {
    pub synced_lyrics: Option<String>,
}

/// A display-ready lyric candidate.
#[derive(Debug, Clone)]
pub struct Lyric {
    pub id: String,
    pub artist: String,
    pub title: String,
    pub synced_lyrics: String,
}

/// A video search hit.
#[derive(Debug, Clone)]
pub struct Video {
    pub id: String,
    pub title: String,
    pub artist: String,
}

/// A search or fetch against an outside provider failed; the text says
/// how, for the user's eyes.
#[derive(Debug, Clone)]
pub struct ProviderError {
    pub message: String,
}

/// A source of audio candidates; implementations reach the network.
pub trait AudioFetcher {
    fn search(&self, query: &str) -> Result<Vec<AudioResult>, ProviderError>;
}

/// A sink that plays a track by its identifier; implementations drive an
/// external player. There is no seek, and a pause request does not stop
/// an already running stream.
pub trait AudioService {
    fn play(&self, id: &str);

    fn pause(&self);
}

/// A source of lyric candidates; implementations reach the network for
/// the search and may use the library's parser for the raw text.
pub trait LyricsFetcher {
    fn search(&self, query: &str) -> Result<Vec<LyricsResult>, ProviderError>;

    fn parse(&self, synced: String) -> Result<Option<LyricsMap>, ParseError>;
}

/// Answers "what should be shown at time T" over a parsed lyric table.
pub trait LyricsService {
    /// The three-slot lyric window at an elapsed time; see
    /// [`LyricsMap::lookup_window`].
    fn play(&self, elapsed_time_ms: u64, lyrics_map: &LyricsMap) -> (r: Vec<String>)
        requires
            lyrics_map.wf(),
        ensures
            r.deep_view() == spec_window(lyrics_map@, elapsed_time_ms),
            r@.len() == 3,
    ;
}

/// The lyric provider's computational half: parsing synced text and
/// answering window queries. Its network half lives outside the library.
#[derive(Debug, Clone)]
pub struct LRCLib;

impl LRCLib {
    pub fn new() -> (r: Self) {
        LRCLib
    }

    /// Parse raw synced-lyric text; see [`parse`]. Success always carries
    /// a table, an empty one when no line bore a time tag.
    pub fn parse(&self, synced: String) -> (r: Result<Option<LyricsMap>, ParseError>)
        ensures
            r matches Ok(o) ==> o matches Some(tm) && tm.wf() && tm.to_map() == spec_parse(
                spec_lines(synced@),
            ) && all_lines_ok(spec_lines(synced@)),
            r is Err ==> !all_lines_ok(spec_lines(synced@)),
    {
        match parse(synced.as_str()) {
            Ok(tm) => Ok(Some(tm)),
            Err(e) => Err(e),
        }
    }
}

impl LyricsService for LRCLib {
    fn play(&self, elapsed_time_ms: u64, lyrics_map: &LyricsMap) -> (r: Vec<String>) {
        lyrics_map.lookup_window(elapsed_time_ms)
    }
}

} // verus!
