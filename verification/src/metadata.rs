//! The metadata tagger's decisions: which tag container to use, exactly what
//! the persisted tag holds, and the verifier's read-back check. Opening and
//! persisting the audio file itself happens outside the library; this module
//! fixes what is written and what counts as consistent.

use crate::errors::RunError;
use crate::models::spotify::SpotifyTrack;
use crate::models::spotify::spec_track_wf;
use crate::text::join_strings;
use crate::text::str_eq;
use crate::text::spec_join;
use vstd::prelude::*;
use vstd::string::StringExecFns;

verus! {

/// The full contents persisted into an audio file's tag container.
#[derive(Debug)]
pub struct TagData {
    pub artist: String,
    pub title: String,
    pub album: String,
    pub disc: u32,
    pub track: u32,
    pub picture: Option<Vec<u8>>,
}

/// What the tagger writes for a track and an optional cover image: artists
/// joined by `", "`, the track's own title, album, disc and track numbers,
/// and the image bytes as the front cover if there are any.
pub open spec fn spec_tag_matches(t: TagData, song: SpotifyTrack, art: Option<Seq<u8>>) -> bool {
    &&& t.artist@ == spec_join(song.artists.deep_view(), ", "@)
    &&& t.title@ == song.name@
    &&& t.album@ == song.album_name@
    &&& t.disc == song.disc_number as u32
    &&& t.track == song.track_number
    &&& t.picture.deep_view() == art
}

/// Compute the tag contents for one track. Absent art is no error: every
/// textual field is still written and the picture is simply omitted.
pub fn build_tag_data(song: &SpotifyTrack, art: Option<Vec<u8>>) -> (t: TagData)
    requires
        spec_track_wf(*song),
    ensures
        spec_tag_matches(t, *song, art.deep_view()),
        art is None ==> t.picture is None,
{
    let artist = join_strings(&song.artists, ", ");
    TagData {
        artist,
        title: song.name.clone(),
        album: song.album_name.clone(),
        disc: song.disc_number as u32,
        track: song.track_number,
        picture: art,
    }
}

/// The persisted tag after a save: the new contents, whatever the file held
/// before. Saving overwrites; nothing of the previous tag survives.
pub open spec fn spec_persisted(prev: Option<TagData>, t: TagData) -> TagData {
    t
}

/// Tagging a file twice with the same contents persists exactly what tagging
/// it once does.
pub proof fn lemma_tagging_idempotent(prev: Option<TagData>, t: TagData)
    ensures
        spec_persisted(Some(spec_persisted(prev, t)), t) == spec_persisted(prev, t),
{
}

/// Two tagger runs over the same track and the same art agree on every
/// persisted field.
pub proof fn lemma_tagging_deterministic(
    t1: TagData,
    t2: TagData,
    song: SpotifyTrack,
    art: Option<Seq<u8>>,
)
    requires
        spec_tag_matches(t1, song, art),
        spec_tag_matches(t2, song, art),
    ensures
        t1.artist@ == t2.artist@,
        t1.title@ == t2.title@,
        t1.album@ == t2.album@,
        t1.disc == t2.disc,
        t1.track == t2.track,
        t1.picture.deep_view() == t2.picture.deep_view(),
{
}

/// The textual fields never depend on the art: however two art inputs
/// differ, the same track yields the same artist, title, album and numbers,
/// and no picture is embedded when the art is absent.
pub proof fn lemma_tag_text_independent_of_art(
    t1: TagData,
    t2: TagData,
    song: SpotifyTrack,
    a1: Option<Seq<u8>>,
    a2: Option<Seq<u8>>,
)
    requires
        spec_tag_matches(t1, song, a1),
        spec_tag_matches(t2, song, a2),
    ensures
        t1.artist@ == t2.artist@,
        t1.title@ == t2.title@,
        t1.album@ == t2.album@,
        t1.disc == t2.disc,
        t1.track == t2.track,
        a1 is None ==> t1.picture.deep_view() is None,
{
}

/// Which tag container the tagger writes into.
#[derive(Clone, Copy, Debug, PartialEq, Eq, Structural)]
pub enum TagSource {
    /// The file's primary tag.
    Primary,
    /// The first tag of a file without a primary one.
    First,
    /// A fresh tag of the detected format's default type.
    CreateDefault,
}

/// The container choice: the primary tag when there is one, else the first
/// tag, else a fresh default-typed tag. Creating one here is expected, not an
/// inconsistency.
pub open spec fn spec_choose_tag_source(has_primary: bool, has_first: bool) -> TagSource {
    if has_primary {
        TagSource::Primary
    } else if has_first {
        TagSource::First
    } else {
        TagSource::CreateDefault
    }
}

/// Decide which tag container to write into.
pub fn choose_tag_source(has_primary: bool, has_first: bool) -> (r: TagSource)
    ensures
        r == spec_choose_tag_source(has_primary, has_first),
{
    if has_primary {
        TagSource::Primary
    } else if has_first {
        TagSource::First
    } else {
        TagSource::CreateDefault
    }
}

/// What the verifier reads back from a just-tagged file, for operator-facing
/// confirmation.
#[derive(Debug)]
pub struct TagSummary {
    pub title: Option<String>,
    pub artist: Option<String>,
    pub album: Option<String>,
    pub disc: Option<u32>,
    pub track: Option<u32>,
}

/// After a reported successful tagging, a missing tag is a persistence
/// inconsistency, distinct from the expected "no tag yet" during tagging.
pub fn verify_tag(found: Option<TagSummary>) -> (r: Result<TagSummary, RunError>)
    ensures
        r is Ok <==> found is Some,
        r is Err ==> r->Err_0 == RunError::VerifyInconsistency,
        r is Ok ==> r->Ok_0 == found->0,
{
    match found {
        Some(summary) => Ok(summary),
        None => Err(RunError::VerifyInconsistency),
    }
}

/// Whether a read-back summary reports exactly the persisted contents.
pub open spec fn spec_summary_matches(s: TagSummary, t: TagData) -> bool {
    &&& s.title matches Some(v) && v@ == t.title@
    &&& s.artist matches Some(v) && v@ == t.artist@
    &&& s.album matches Some(v) && v@ == t.album@
    &&& s.disc == Some(t.disc)
    &&& s.track == Some(t.track)
}

/// Compare a read-back summary with the contents the tagger persisted.
pub fn summary_matches_tag(s: &TagSummary, t: &TagData) -> (r: bool)
    ensures
        r == spec_summary_matches(*s, *t),
{
    let title_ok = match &s.title {
        Some(v) => str_eq(v.as_str(), t.title.as_str()),
        None => false,
    };
    let artist_ok = match &s.artist {
        Some(v) => str_eq(v.as_str(), t.artist.as_str()),
        None => false,
    };
    let album_ok = match &s.album {
        Some(v) => str_eq(v.as_str(), t.album.as_str()),
        None => false,
    };
    let disc_ok = match s.disc {
        Some(d) => d == t.disc,
        None => false,
    };
    let track_ok = match s.track {
        Some(n) => n == t.track,
        None => false,
    };
    title_ok && artist_ok && album_ok && disc_ok && track_ok
}

/// The operator-facing rendering of an optional textual field.
pub fn field_or_none(v: &Option<String>) -> (r: String)
    ensures
        v matches Some(s) ==> r@ == s@,
        v is None ==> r@ == "None"@,
{
    match v {
        Some(s) => s.clone(),
        None => String::from_str("None"),
    }
}

} // verus!
