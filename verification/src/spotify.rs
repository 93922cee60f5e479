//! Catalog-side selection logic: picking a cover image from a track's image
//! list and keeping only real songs out of a playlist's mixed items. The
//! catalog calls themselves happen outside the library; this module works on
//! their normalized results.

use crate::models::spotify::SpotifyTrack;
use vstd::prelude::*;

verus! {

/// One image attached to a catalog record: its URL and its dimensions, as
/// far as the catalog states them.
#[derive(Debug)]
pub struct ImageInfo {
    pub url: String,
    pub width: Option<u32>,
    pub height: Option<u32>,
}

/// The cover size the pipeline looks for.
pub open spec fn spec_is_cover_size(im: ImageInfo) -> bool {
    im.width == Some(640u32) && im.height == Some(640u32)
}

/// The URL of the first 640 by 640 image, or the empty string when no image
/// qualifies.
pub open spec fn spec_cover_url(images: Seq<ImageInfo>) -> Seq<char>
    decreases images.len(),
{
    if images.len() == 0 {
        Seq::empty()
    } else if spec_is_cover_size(images.first()) {
        images.first().url@
    } else {
        spec_cover_url(images.drop_first())
    }
}

/// Pick the cover-art URL: the first image with dimensions 640 by 640, or an
/// empty string when there is none.
pub fn get_album_cover_url(images: &Vec<ImageInfo>) -> (r: String)
    ensures
        r@ == spec_cover_url(images@),
{
    let mut i: usize = 0;
    proof {
        assert(images@.skip(0) =~= images@);
    }
    while i < images.len()
        invariant
            i <= images@.len(),
            spec_cover_url(images@) == spec_cover_url(images@.skip(i as int)),
        decreases images@.len() - i,
    {
        proof {
            assert(images@.skip(i as int).first() == images@[i as int]);
            assert(images@.skip(i as int).drop_first() =~= images@.skip(i + 1));
        }
        let im = &images[i];
        let is_cover = match (im.width, im.height) {
            (Some(w), Some(h)) => w == 640 && h == 640,
            _ => false,
        };
        if is_cover {
            return im.url.clone();
        }
        i = i + 1;
    }
    proof {
        assert(images@.skip(images@.len() as int) =~= Seq::<ImageInfo>::empty());
    }
    String::new()
}

/// One entry of a playlist: a playable song, or something else (an episode,
/// a removed item) that the pipeline skips.
#[derive(Debug)]
pub enum PlaylistEntry {
    Song(SpotifyTrack),
    NonTrack,
}

/// The songs of a playlist's entries, in order, with everything else
/// dropped.
pub open spec fn spec_songs_of(items: Seq<PlaylistEntry>) -> Seq<SpotifyTrack>
    decreases items.len(),
{
    if items.len() == 0 {
        Seq::empty()
    } else {
        match items.first() {
            PlaylistEntry::Song(t) => seq![t] + spec_songs_of(items.drop_first()),
            PlaylistEntry::NonTrack => spec_songs_of(items.drop_first()),
        }
    }
}

/// Keep only the real songs of a playlist, in their original order.
pub fn who_loves_podcasts_anyways(playable_items: Vec<PlaylistEntry>) -> (tracks: Vec<
    SpotifyTrack,
>)
    ensures
        tracks@ == spec_songs_of(playable_items@),
{
    let ghost orig = playable_items@;
    let mut items = playable_items;
    let mut tracks: Vec<SpotifyTrack> = Vec::new();
    proof {
        assert(tracks@ + spec_songs_of(items@) =~= spec_songs_of(orig));
    }
    while items.len() > 0
        invariant
            tracks@ + spec_songs_of(items@) == spec_songs_of(orig),
        decreases items@.len(),
    {
        let ghost before = items@;
        let entry = items.remove(0);
        proof {
            assert(items@ =~= before.drop_first());
        }
        match entry {
            PlaylistEntry::Song(t) => {
                proof {
                    assert(spec_songs_of(before) == seq![before.first()->Song_0] + spec_songs_of(
                        before.drop_first(),
                    ));
                }
                tracks.push(t);
                proof {
                    assert(tracks@ + spec_songs_of(items@) =~= spec_songs_of(orig));
                }
            },
            PlaylistEntry::NonTrack => {
                proof {
                    assert(tracks@ + spec_songs_of(items@) =~= spec_songs_of(orig));
                }
            },
        }
    }
    proof {
        assert(spec_songs_of(items@) =~= Seq::<SpotifyTrack>::empty());
        assert(tracks@ =~= spec_songs_of(orig));
    }
    tracks
}

} // verus!
