use yuck_premium::cli::Config;
use yuck_premium::errors::RunError;
use yuck_premium::models::cli::Bitrate;
use yuck_premium::models::cli::Codec;
use yuck_premium::models::spotify::Spotify;
use yuck_premium::models::spotify::SpotifyAlbum;
use yuck_premium::models::spotify::SpotifyPlaylist;
use yuck_premium::models::spotify::SpotifyTrack;
use yuck_premium::paths::OutputPath;
use yuck_premium::planner::chunk_tracks;

fn mk_track(name: &str) -> SpotifyTrack {
    SpotifyTrack {
        name: name.to_string(),
        artists: vec!["Artist".to_string()],
        album_name: "Album".to_string(),
        album_cover: "http://example.invalid/cover.jpeg".to_string(),
        disc_number: 1,
        track_number: 1,
    }
}

fn mk_tracks(n: usize) -> Vec<SpotifyTrack> {
    (0..n).map(|i| mk_track(&format!("song{}", i))).collect()
}

fn mk_config(chunk: Option<u32>) -> Config {
    Config {
        id: "id".to_string(),
        spotify_type: Spotify::Album,
        file_path: OutputPath::from_root("music".to_string()),
        codec: Codec::MP3,
        bitrate: Bitrate::High,
        chunk,
    }
}

#[test]
fn chunk_sizes_25_tracks_parallelism_10() {
    let chunks = chunk_tracks(mk_tracks(25), 10);
    let sizes: Vec<usize> = chunks.iter().map(|c| c.len()).collect();
    assert_eq!(sizes, vec![10, 10, 5]);
}

#[test]
fn chunk_clamps_to_track_count() {
    let chunks = chunk_tracks(mk_tracks(3), 10);
    let sizes: Vec<usize> = chunks.iter().map(|c| c.len()).collect();
    assert_eq!(sizes, vec![3]);
}

#[test]
fn chunk_empty_list_yields_no_chunks() {
    let chunks = chunk_tracks(Vec::new(), 10);
    assert_eq!(chunks.len(), 0);
}

#[test]
fn chunks_concatenate_to_original_order() {
    let chunks = chunk_tracks(mk_tracks(7), 3);
    let names: Vec<String> = chunks
        .iter()
        .flat_map(|c| c.iter().map(|t| t.name.clone()))
        .collect();
    let expected: Vec<String> = (0..7).map(|i| format!("song{}", i)).collect();
    assert_eq!(names, expected);
    let sizes: Vec<usize> = chunks.iter().map(|c| c.len()).collect();
    assert_eq!(sizes, vec![3, 3, 1]);
}

#[test]
fn chunk_exact_multiple() {
    let chunks = chunk_tracks(mk_tracks(20), 10);
    let sizes: Vec<usize> = chunks.iter().map(|c| c.len()).collect();
    assert_eq!(sizes, vec![10, 10]);
}

#[test]
fn chunk_parallelism_one_is_one_track_per_chunk() {
    let chunks = chunk_tracks(mk_tracks(4), 1);
    let sizes: Vec<usize> = chunks.iter().map(|c| c.len()).collect();
    assert_eq!(sizes, vec![1, 1, 1, 1]);
}

#[test]
fn album_plan_rejects_empty_collection() {
    let album = SpotifyAlbum {
        name: "Empty".to_string(),
        tracks: Vec::new(),
        number_of_songs: 0,
        cover_url: None,
    };
    let cfg = mk_config(Some(10));
    let r = yuck_premium::downloader::plan_album_run(album, &cfg);
    assert!(matches!(r, Err(RunError::ConfigError)));
}

#[test]
fn playlist_plan_rejects_empty_collection() {
    let playlist = SpotifyPlaylist {
        name: "Empty".to_string(),
        number_of_songs: 0,
        tracks: Vec::new(),
        cover_url: Vec::new(),
    };
    let cfg = mk_config(None);
    let r = yuck_premium::downloader::plan_playlist_run(playlist, &cfg);
    assert!(matches!(r, Err(RunError::ConfigError)));
}

#[test]
fn album_plan_rejects_count_mismatch() {
    let album = SpotifyAlbum {
        name: "Odd".to_string(),
        tracks: mk_tracks(3),
        number_of_songs: 5,
        cover_url: None,
    };
    let cfg = mk_config(Some(2));
    let r = yuck_premium::downloader::plan_album_run(album, &cfg);
    assert!(matches!(r, Err(RunError::ConfigError)));
}

#[test]
fn album_plan_builds_chunks_and_base() {
    let album = SpotifyAlbum {
        name: "Greatest".to_string(),
        tracks: mk_tracks(25),
        number_of_songs: 25,
        cover_url: Some("http://example.invalid/art.jpeg".to_string()),
    };
    let cfg = mk_config(Some(10));
    let plan = yuck_premium::downloader::plan_album_run(album, &cfg).unwrap();
    assert_eq!(plan.parallelism, 10);
    let sizes: Vec<usize> = plan.chunks.iter().map(|c| c.len()).collect();
    assert_eq!(sizes, vec![10, 10, 5]);
    assert_eq!(plan.base.render(), "music/Greatest");
}

#[test]
fn playlist_plan_clamps_parallelism() {
    let playlist = SpotifyPlaylist {
        name: "Short".to_string(),
        number_of_songs: 3,
        tracks: mk_tracks(3),
        cover_url: Vec::new(),
    };
    let cfg = mk_config(Some(10));
    let plan = yuck_premium::downloader::plan_playlist_run(playlist, &cfg).unwrap();
    assert_eq!(plan.parallelism, 3);
    let sizes: Vec<usize> = plan.chunks.iter().map(|c| c.len()).collect();
    assert_eq!(sizes, vec![3]);
}

#[test]
fn plan_uses_default_parallelism_without_hint() {
    let playlist = SpotifyPlaylist {
        name: "Long".to_string(),
        number_of_songs: 25,
        tracks: mk_tracks(25),
        cover_url: Vec::new(),
    };
    let cfg = mk_config(None);
    let plan = yuck_premium::downloader::plan_playlist_run(playlist, &cfg).unwrap();
    assert_eq!(plan.parallelism, 10);
    assert_eq!(plan.chunks.len(), 3);
}
