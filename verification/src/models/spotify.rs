//! Normalized catalog records: a track, an album, a playlist, and the kind
//! selector. Records are read-only once fetched; the pipeline never mutates
//! them.

use crate::text::str_eq;
use vstd::prelude::*;

verus! {

/// One track of the remote catalog, normalized to plain values.
#[derive(Debug)]
pub struct SpotifyTrack {
    pub name: String,
    pub artists: Vec<String>,
    pub album_name: String,
    pub album_cover: String,
    pub disc_number: i32,
    pub track_number: u32,
}

/// An album: its name, its tracks in order, the stated track count, and an
/// optional cover-art URL.
#[derive(Debug)]
pub struct SpotifyAlbum {
    pub name: String,
    pub tracks: Vec<SpotifyTrack>,
    pub number_of_songs: u32,
    pub cover_url: Option<String>,
}

/// A playlist: its name, the stated track count, its tracks in order, and the
/// cover-art URLs.
#[derive(Debug)]
pub struct SpotifyPlaylist {
    pub name: String,
    pub number_of_songs: u32,
    pub tracks: Vec<SpotifyTrack>,
    pub cover_url: Vec<String>,
}

/// The kind of catalog entity a run downloads.
#[derive(Clone, Copy, Debug, PartialEq, Eq, Structural, Hash)]
pub enum Spotify {
    Album,
    Playlist,
    Track,
}

/// Whether two track records hold the same data, field for field.
pub open spec fn same_track(a: SpotifyTrack, b: SpotifyTrack) -> bool {
    &&& a.name == b.name
    &&& a.artists@ == b.artists@
    &&& a.album_name == b.album_name
    &&& a.album_cover == b.album_cover
    &&& a.disc_number == b.disc_number
    &&& a.track_number == b.track_number
}

/// A track is well formed when its disc number is not negative, as the
/// catalog delivers it in practice.
pub open spec fn spec_track_wf(t: SpotifyTrack) -> bool {
    t.disc_number >= 0
}

impl Clone for SpotifyTrack {
    /// A deep copy: every field of the copy holds the same data.
    fn clone(&self) -> (res: Self)
        ensures
            same_track(*self, res),
    {
        let artists = clone_strings(&self.artists);
        SpotifyTrack {
            name: self.name.clone(),
            artists,
            album_name: self.album_name.clone(),
            album_cover: self.album_cover.clone(),
            disc_number: self.disc_number,
            track_number: self.track_number,
        }
    }
}

/// Copy a list of strings element by element.
pub fn clone_strings(v: &Vec<String>) -> (r: Vec<String>)
    ensures
        r@ == v@,
{
    let mut r: Vec<String> = Vec::new();
    let mut i: usize = 0;
    while i < v.len()
        invariant
            i <= v@.len(),
            r@ == v@.take(i as int),
        decreases v@.len() - i,
    {
        r.push(v[i].clone());
        proof {
            assert(v@.take(i + 1) =~= v@.take(i as int).push(v@[i as int]));
        }
        i = i + 1;
    }
    proof {
        assert(v@.take(v@.len() as int) =~= v@);
    }
    r
}

impl SpotifyAlbum {
    /// The stated count is trusted only when it matches the track list.
    pub open spec fn wf(self) -> bool {
        self.number_of_songs as int == self.tracks@.len()
    }

    /// Whether the stated track count matches the track list.
    pub fn count_matches(&self) -> (r: bool)
        ensures
            r == self.wf(),
    {
        self.tracks.len() == self.number_of_songs as usize
    }
}

impl SpotifyPlaylist {
    /// The stated count is trusted only when it matches the track list.
    pub open spec fn wf(self) -> bool {
        self.number_of_songs as int == self.tracks@.len()
    }

    /// Whether the stated track count matches the track list.
    pub fn count_matches(&self) -> (r: bool)
        ensures
            r == self.wf(),
    {
        self.tracks.len() == self.number_of_songs as usize
    }
}

/// The entity kind named by a string, if any.
pub open spec fn spec_parse_spotify(s: Seq<char>) -> Option<Spotify> {
    if s == "album"@ {
        Some(Spotify::Album)
    } else if s == "playlist"@ {
        Some(Spotify::Playlist)
    } else if s == "track"@ {
        Some(Spotify::Track)
    } else {
        None
    }
}

/// Parse an entity kind (`"album"`, `"playlist"` or `"track"`).
pub fn parse_spotify(s: &str) -> (r: Option<Spotify>)
    ensures
        r == spec_parse_spotify(s@),
{
    if str_eq(s, "album") {
        Some(Spotify::Album)
    } else if str_eq(s, "playlist") {
        Some(Spotify::Playlist)
    } else if str_eq(s, "track") {
        Some(Spotify::Track)
    } else {
        None
    }
}

} // verus!
