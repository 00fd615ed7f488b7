//! The composed track: one audio source and one lyric source merged into
//! a single playable value.

use crate::lyrics::LyricsMap;
use crate::providers::{AudioResult, LyricsResult};

use vstd::prelude::*;

verus! {

/// A playable track, composed by the search flow before it is enqueued
/// and immutable from then on.
#[derive(Debug)]
pub struct Song {
    pub lyric_id: String,
    pub video_id: String,
    pub title: String,
    pub artist: String,
    /// Track length in milliseconds as the audio provider reported it;
    /// zero means unknown.
    pub duration_ms: u64,
    pub synced_lyrics: String,
    /// Present only once lyric parsing succeeded.
    pub lyric_map: Option<LyricsMap>,
}

/// The songs awaiting playback, in first-in first-out order.
pub type SongList = Vec<Song>;

/// Two songs carry the same text fields, duration and lyric table view.
pub open spec fn song_views_eq(a: Song, b: Song) -> bool {
    &&& a.lyric_id@ == b.lyric_id@
    &&& a.video_id@ == b.video_id@
    &&& a.title@ == b.title@
    &&& a.artist@ == b.artist@
    &&& a.duration_ms == b.duration_ms
    &&& a.synced_lyrics@ == b.synced_lyrics@
    &&& match (a.lyric_map, b.lyric_map) {
        (Some(am), Some(bm)) => am@ == bm@,
        (None, None) => true,
        _ => false,
    }
}

/// `r` is `base` with its lyric side taken from `lr` and `map`.
pub open spec fn is_with_lr(r: Song, base: Song, lr: LyricsResult, map: Option<LyricsMap>) -> bool {
    &&& r.lyric_id@ == lr.id@
    &&& r.video_id@ == base.video_id@
    &&& r.title@ == lr.title@
    &&& r.artist@ == lr.artist@
    &&& r.duration_ms == base.duration_ms
    &&& r.synced_lyrics@ == lr.synced_lyrics@
    &&& match (r.lyric_map, map) {
        (Some(rm), Some(m)) => rm@ == m@,
        (None, None) => true,
        _ => false,
    }
}

/// `r` is `base` with its audio side taken from `ar`.
pub open spec fn is_with_ar(r: Song, base: Song, ar: AudioResult) -> bool {
    &&& r.lyric_id@ == base.lyric_id@
    &&& r.video_id@ == ar.id@
    &&& r.title@ == base.title@
    &&& r.artist@ == base.artist@
    &&& r.duration_ms == ar.duration_ms
    &&& r.synced_lyrics@ == base.synced_lyrics@
    &&& match (r.lyric_map, base.lyric_map) {
        (Some(rm), Some(m)) => rm@ == m@,
        (None, None) => true,
        _ => false,
    }
}

impl Song {
    /// A song is well formed when its lyric table, if any, is.
    pub open spec fn wf(&self) -> bool {
        match self.lyric_map {
            Some(m) => m.wf(),
            None => true,
        }
    }

    /// Every field blank, no lyric table.
    pub open spec fn is_blank(&self) -> bool {
        &&& self.lyric_id@.len() == 0
        &&& self.video_id@.len() == 0
        &&& self.title@.len() == 0
        &&& self.artist@.len() == 0
        &&& self.duration_ms == 0
        &&& self.synced_lyrics@.len() == 0
        &&& self.lyric_map is None
    }

    /// An empty song: all fields blank, no lyric table.
    pub fn new() -> (r: Self)
        ensures
            r.is_blank(),
            r.wf(),
    {
        Song {
            lyric_id: String::new(),
            video_id: String::new(),
            title: String::new(),
            artist: String::new(),
            duration_ms: 0,
            synced_lyrics: String::new(),
            lyric_map: None,
        }
    }

    /// This song with the lyric side replaced by one lyric result and
    /// its parsed table.
    pub fn with_lr(&self, lr: LyricsResult, map: Option<LyricsMap>) -> (r: Self)
        requires
            match map {
                Some(m) => m.wf(),
                None => true,
            },
        ensures
            is_with_lr(r, *self, lr, map),
            r.wf(),
    {
        Song {
            lyric_id: lr.id,
            video_id: self.video_id.clone(),
            title: lr.title,
            artist: lr.artist,
            duration_ms: self.duration_ms,
            synced_lyrics: lr.synced_lyrics,
            lyric_map: map,
        }
    }

    /// This song with the audio side replaced by one audio result.
    pub fn with_ar(&self, ar: AudioResult) -> (r: Self)
        requires
            self.wf(),
        ensures
            is_with_ar(r, *self, ar),
            r.wf(),
    {
        let map = match &self.lyric_map {
            Some(m) => Some(m.clone()),
            None => None,
        };
        Song {
            lyric_id: self.lyric_id.clone(),
            video_id: ar.id,
            title: self.title.clone(),
            artist: self.artist.clone(),
            duration_ms: ar.duration_ms,
            synced_lyrics: self.synced_lyrics.clone(),
            lyric_map: map,
        }
    }
}

impl Clone for Song {
    /// An equal song, field for field; the lyric table keeps its view.
    fn clone(&self) -> (r: Self)
        ensures
            r.lyric_id@ == self.lyric_id@,
            r.video_id@ == self.video_id@,
            r.title@ == self.title@,
            r.artist@ == self.artist@,
            r.duration_ms == self.duration_ms,
            r.synced_lyrics@ == self.synced_lyrics@,
            match (r.lyric_map, self.lyric_map) {
                (Some(rm), Some(m)) => rm@ == m@,
                (None, None) => true,
                _ => false,
            },
            r.wf() == self.wf(),
    {
        Song {
            lyric_id: self.lyric_id.clone(),
            video_id: self.video_id.clone(),
            title: self.title.clone(),
            artist: self.artist.clone(),
            duration_ms: self.duration_ms,
            synced_lyrics: self.synced_lyrics.clone(),
            lyric_map: match &self.lyric_map {
                Some(m) => Some(m.clone()),
                None => None,
            },
        }
    }
}

} // verus!
