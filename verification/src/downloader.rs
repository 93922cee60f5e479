//! The download pipeline's decisions: search queries, destination file names,
//! fetch-tool arguments, per-chunk outcome lists, their merge across workers,
//! and the run plans that the orchestrator spawns workers from.

use crate::cli::Config;
use crate::errors::RunError;
use crate::models::cli::Bitrate;
use crate::models::cli::Codec;
use crate::models::cli::spec_bitrate_label;
use crate::models::cli::spec_codec_label;
use crate::models::spotify::SpotifyAlbum;
use crate::models::spotify::SpotifyPlaylist;
use crate::models::spotify::SpotifyTrack;
use crate::paths::OutputPath;
use crate::planner::chunk_tracks;
use crate::planner::spec_chunk;
use crate::planner::spec_vec_views;
use crate::planner::spec_chunk_count;
use crate::planner::spec_effective_parallelism;
use crate::state::TrackOutcome;
use crate::state::TrackStepResult;
use crate::state::pipeline_outcome;
use crate::state::spec_outcome;
use crate::text::sanitize;
use crate::text::join_strings;
use crate::text::spec_join;
use crate::text::spec_sanitize;
use vstd::prelude::*;
use vstd::string::StringExecFns;

verus! {

/// The search query sent to the external fetch capability:
/// the title, a dash, and the artists joined by `", "`.
pub open spec fn spec_query(name: Seq<char>, artists: Seq<Seq<char>>) -> Seq<char> {
    name + " - "@ + spec_join(artists, ", "@)
}

/// Build the search query for one track.
pub fn create_query(spotify_song: SpotifyTrack) -> (r: String)
    ensures
        r@ == spec_query(spotify_song.name@, spotify_song.artists.deep_view()),
{
    let mut q = spotify_song.name;
    q.append(" - ");
    let joined = join_strings(&spotify_song.artists, ", ");
    q.append(joined.as_str());
    proof {
        assert(q@ =~= spec_query(spotify_song.name@, spotify_song.artists.deep_view()));
    }
    q
}

/// The sanitized display name used for a track's cover-art file.
pub fn filter_image_name(song: &SpotifyTrack) -> (r: String)
    ensures
        r@ == spec_sanitize(song.name@),
{
    sanitize(song.name.as_str())
}

/// The audio destination file name: the raw title, a dot, the codec label.
pub open spec fn spec_audio_file_name(name: Seq<char>, c: Codec) -> Seq<char> {
    name + "."@ + spec_codec_label(c)
}

/// Build the audio destination file name for a title and codec.
pub fn audio_file_name(name: &str, codec: Codec) -> (r: String)
    ensures
        r@ == spec_audio_file_name(name@, codec),
{
    let mut r = String::from_str(name);
    r.append(".");
    let label = codec.label();
    r.append(label.as_str());
    proof {
        assert(r@ =~= spec_audio_file_name(name@, codec));
    }
    r
}

/// The cover-art file name: the sanitized title with a `.jpeg` suffix.
pub open spec fn spec_art_file_name(name: Seq<char>) -> Seq<char> {
    spec_sanitize(name) + ".jpeg"@
}

/// Build the cover-art file name for a title.
pub fn art_file_name(name: &str) -> (r: String)
    ensures
        r@ == spec_art_file_name(name@),
{
    let mut r = sanitize(name);
    r.append(".jpeg");
    r
}

/// The extra arguments handed to the external fetch tool: the audio format
/// and the audio quality, each as a flag followed by its value.
pub fn fetch_extra_args(codec: Codec, bitrate: Bitrate) -> (r: Vec<String>)
    ensures
        r@.len() == 4,
        r@[0]@ == "--audio-format"@,
        r@[1]@ == spec_codec_label(codec),
        r@[2]@ == "--audio-quality"@,
        r@[3]@ == spec_bitrate_label(bitrate),
{
    let mut r: Vec<String> = Vec::new();
    r.push(String::from_str("--audio-format"));
    r.push(codec.label());
    r.push(String::from_str("--audio-quality"));
    r.push(bitrate.label());
    r
}

/// A track can only be fetched into a location that has a parent directory;
/// without one the track aborts locally as a fetch failure.
pub fn download_precheck(file_path: &OutputPath) -> (r: Result<(), RunError>)
    ensures
        r is Ok <==> file_path@.len() > 0,
        r is Err ==> r->Err_0 == RunError::FetchError,
{
    if file_path.has_parent() {
        Ok(())
    } else {
        Err(RunError::FetchError)
    }
}

/// Decide every track of a chunk in order; the chunk's outcome list is
/// index-for-index the outcome of each track's step reports.
pub fn chunk_outcomes(results: &Vec<TrackStepResult>) -> (o: Vec<TrackOutcome>)
    ensures
        o@.len() == results@.len(),
        forall|i: int| 0 <= i < o@.len() ==> #[trigger] o@[i] == spec_outcome(results@[i]),
{
    let mut o: Vec<TrackOutcome> = Vec::new();
    let mut i: usize = 0;
    while i < results.len()
        invariant
            i <= results@.len(),
            o@.len() == i,
            forall|j: int| 0 <= j < i ==> #[trigger] o@[j] == spec_outcome(results@[j]),
        decreases results@.len() - i,
    {
        o.push(pipeline_outcome(results[i]));
        i = i + 1;
    }
    o
}

/// Merge the per-chunk outcome lists, in chunk order, into one run-wide list.
pub fn merge_outcomes(per_chunk: Vec<Vec<TrackOutcome>>) -> (all: Vec<TrackOutcome>)
    ensures
        all@ == spec_vec_views(per_chunk@).flatten(),
{
    let mut all: Vec<TrackOutcome> = Vec::new();
    let mut i: usize = 0;
    proof {
        assert(spec_vec_views(per_chunk@.take(0)) =~= Seq::<Seq<TrackOutcome>>::empty());
        assert(all@ =~= spec_vec_views(per_chunk@.take(0)).flatten());
    }
    while i < per_chunk.len()
        invariant
            i <= per_chunk@.len(),
            all@ == spec_vec_views(per_chunk@.take(i as int)).flatten(),
        decreases per_chunk@.len() - i,
    {
        let ghost prev = all@;
        let chunk = &per_chunk[i];
        let mut j: usize = 0;
        while j < chunk.len()
            invariant
                j <= chunk@.len(),
                all@ == prev + chunk@.take(j as int),
            decreases chunk@.len() - j,
        {
            all.push(chunk[j]);
            proof {
                assert(chunk@.take(j + 1) =~= chunk@.take(j as int).push(chunk@[j as int]));
                assert(all@ =~= prev + chunk@.take(j + 1));
            }
            j = j + 1;
        }
        proof {
            broadcast use vstd::prelude::Seq::lemma_flatten_push;

            assert(chunk@.take(chunk@.len() as int) =~= chunk@);
            assert(spec_vec_views(per_chunk@.take(i + 1)) =~= spec_vec_views(
                per_chunk@.take(i as int),
            ).push(chunk@));
        }
        i = i + 1;
    }
    proof {
        assert(per_chunk@.take(per_chunk@.len() as int) =~= per_chunk@);
    }
    all
}

/// A ready run: the base output location seeded with the collection's name,
/// the effective parallelism, and one chunk of tracks per worker to spawn.
#[derive(Debug)]
pub struct RunPlan {
    pub base: OutputPath,
    pub parallelism: u32,
    pub chunks: Vec<Vec<SpotifyTrack>>,
}

/// What a correct plan promises for a track list, base location and
/// configured parallelism.
pub open spec fn spec_plan_ok(
    plan: RunPlan,
    tracks: Seq<SpotifyTrack>,
    base: Seq<Seq<char>>,
    p: nat,
) -> bool {
    &&& plan.base@ == base
    &&& plan.parallelism as nat == spec_effective_parallelism(tracks.len(), p)
    &&& plan.chunks@.len() == spec_chunk_count(tracks.len(), p)
    &&& forall|i: int|
        0 <= i < plan.chunks@.len() ==> #[trigger] plan.chunks@[i]@ == spec_chunk(tracks, p, i)
    &&& spec_vec_views(plan.chunks@).flatten() == tracks
}

/// Plan a run over a named collection of tracks: refuse an empty collection
/// or a count that belies the track list, clamp the parallelism, and chunk
/// the tracks. No worker is spawned for a refused plan.
fn plan_collection_run(
    name: String,
    tracks: Vec<SpotifyTrack>,
    number_of_songs: u32,
    cli_args: &Config,
) -> (r: Result<RunPlan, RunError>)
    requires
        cli_args.wf(),
    ensures
        r is Ok <==> (number_of_songs as int == tracks@.len() && tracks@.len() > 0),
        r is Err ==> r->Err_0 == RunError::ConfigError,
        r is Ok ==> spec_plan_ok(
            r->Ok_0,
            tracks@,
            cli_args.file_path@.push(name@),
            cli_args.spec_parallelism() as nat,
        ),
{
    let n = tracks.len();
    if n != number_of_songs as usize || n == 0 {
        return Err(RunError::ConfigError);
    }
    let p = cli_args.parallelism();
    let parallelism: u32 = if (p as usize) <= n {
        p
    } else {
        n as u32
    };
    let base = cli_args.file_path.child(name);
    let chunks = chunk_tracks(tracks, p);
    Ok(RunPlan { base, parallelism, chunks })
}

/// Plan an album run. The album's stated count must match its tracks and the
/// album must not be empty; otherwise nothing is spawned.
pub fn plan_album_run(spotify_album: SpotifyAlbum, cli_args: &Config) -> (r: Result<
    RunPlan,
    RunError,
>)
    requires
        cli_args.wf(),
    ensures
        r is Ok <==> (spotify_album.wf() && spotify_album.tracks@.len() > 0),
        r is Err ==> r->Err_0 == RunError::ConfigError,
        r is Ok ==> spec_plan_ok(
            r->Ok_0,
            spotify_album.tracks@,
            cli_args.file_path@.push(spotify_album.name@),
            cli_args.spec_parallelism() as nat,
        ),
{
    let SpotifyAlbum { name, tracks, number_of_songs, cover_url } = spotify_album;
    plan_collection_run(name, tracks, number_of_songs, cli_args)
}

/// Plan a playlist run, under the same refusals as an album run.
pub fn plan_playlist_run(spotify_playlist: SpotifyPlaylist, cli_args: &Config) -> (r: Result<
    RunPlan,
    RunError,
>)
    requires
        cli_args.wf(),
    ensures
        r is Ok <==> (spotify_playlist.wf() && spotify_playlist.tracks@.len() > 0),
        r is Err ==> r->Err_0 == RunError::ConfigError,
        r is Ok ==> spec_plan_ok(
            r->Ok_0,
            spotify_playlist.tracks@,
            cli_args.file_path@.push(spotify_playlist.name@),
            cli_args.spec_parallelism() as nat,
        ),
{
    let SpotifyPlaylist { name, number_of_songs, tracks, cover_url } = spotify_playlist;
    plan_collection_run(name, tracks, number_of_songs, cli_args)
}

/// A track's art URL, if it has one; an empty URL counts as absent, which is
/// no error: the art step is skipped silently.
pub fn track_art_url(song: &SpotifyTrack) -> (r: Option<String>)
    ensures
        r is None <==> song.album_cover@.len() == 0,
        r matches Some(u) ==> u@ == song.album_cover@,
{
    if song.album_cover.as_str().is_empty() {
        None
    } else {
        Some(song.album_cover.clone())
    }
}

/// Where an album's cover art lands, if the album names a cover URL at all:
/// under a directory named after the album, as the sanitized album name with
/// a `.jpeg` suffix. No URL means no art step, silently.
pub fn plan_album_art(spotify_album: &SpotifyAlbum, album_art_dir: &OutputPath) -> (r: Option<
    OutputPath,
>)
    ensures
        r is Some <==> spotify_album.cover_url is Some,
        r matches Some(p) ==> p@ == album_art_dir@.push(spotify_album.name@).push(
            spec_art_file_name(spotify_album.name@),
        ),
{
    match &spotify_album.cover_url {
        None => None,
        Some(_) => {
            let dir = album_art_dir.child(spotify_album.name.clone());
            let file = art_file_name(spotify_album.name.as_str());
            Some(dir.child(file))
        },
    }
}

/// Everything one track's download needs, derived once: the search query,
/// both file names, and the destination locations for audio and art.
#[derive(Debug)]
pub struct TrackPlan {
    pub query: String,
    pub audio_file: String,
    pub art_file: String,
    pub audio_path: OutputPath,
    pub art_path: OutputPath,
}

/// Derive one track's download plan, refusing an output location without a
/// parent directory; that refusal aborts this track only.
pub fn plan_track_download(song: &SpotifyTrack, cli_args: &Config) -> (r: Result<
    TrackPlan,
    RunError,
>)
    ensures
        r is Ok <==> cli_args.file_path@.len() > 0,
        r is Err ==> r->Err_0 == RunError::FetchError,
        r is Ok ==> {
            let t = r->Ok_0;
            &&& t.query@ == spec_query(song.name@, song.artists.deep_view())
            &&& t.audio_file@ == spec_audio_file_name(song.name@, cli_args.codec)
            &&& t.art_file@ == spec_art_file_name(song.name@)
            &&& t.audio_path@ == cli_args.file_path@.push(
                spec_audio_file_name(song.name@, cli_args.codec),
            )
            &&& t.art_path@ == cli_args.file_path@.push(spec_art_file_name(song.name@))
        },
{
    if let Err(e) = download_precheck(&cli_args.file_path) {
        return Err(e);
    }
    let copy = song.clone();
    proof {
        assert(copy.artists.deep_view() =~= song.artists.deep_view());
    }
    let query = create_query(copy);
    let audio_file = audio_file_name(song.name.as_str(), cli_args.codec);
    let art_file = art_file_name(song.name.as_str());
    let audio_path = cli_args.file_path.child(audio_file.clone());
    let art_path = cli_args.file_path.child(art_file.clone());
    Ok(TrackPlan { query, audio_file, art_file, audio_path, art_path })
}

} // verus!
