use yuck_premium::cli::Config;
use yuck_premium::downloader::art_file_name;
use yuck_premium::downloader::audio_file_name;
use yuck_premium::downloader::create_query;
use yuck_premium::downloader::fetch_extra_args;
use yuck_premium::downloader::filter_image_name;
use yuck_premium::downloader::plan_album_art;
use yuck_premium::downloader::plan_track_download;
use yuck_premium::downloader::track_art_url;
use yuck_premium::errors::RunError;
use yuck_premium::models::cli::Bitrate;
use yuck_premium::models::cli::Codec;
use yuck_premium::models::spotify::Spotify;
use yuck_premium::models::spotify::SpotifyAlbum;
use yuck_premium::models::spotify::SpotifyTrack;
use yuck_premium::paths::OutputPath;

fn mk_track(name: &str, artists: &[&str]) -> SpotifyTrack {
    SpotifyTrack {
        name: name.to_string(),
        artists: artists.iter().map(|a| a.to_string()).collect(),
        album_name: "Album".to_string(),
        album_cover: "http://example.invalid/cover.jpeg".to_string(),
        disc_number: 1,
        track_number: 3,
    }
}

#[test]
fn query_joins_title_and_artists() {
    let q = create_query(mk_track("Song Title", &["First", "Second"]));
    assert_eq!(q, "Song Title - First, Second");
}

#[test]
fn query_with_single_artist() {
    let q = create_query(mk_track("Hit", &["Only"]));
    assert_eq!(q, "Hit - Only");
}

#[test]
fn image_name_is_sanitized_title() {
    let t = mk_track("Good Name (Live)", &["A"]);
    assert_eq!(filter_image_name(&t), "GoodNameLive");
}

#[test]
fn audio_file_name_appends_codec_extension() {
    assert_eq!(audio_file_name("Song", Codec::MP3), "Song.mp3");
    assert_eq!(audio_file_name("Song", Codec::Flac), "Song.flac");
}

#[test]
fn art_file_name_is_sanitized_with_jpeg_suffix() {
    assert_eq!(art_file_name("My Song (Remix)"), "MySongRemix.jpeg");
}

#[test]
fn fetch_arguments_name_format_and_quality() {
    let args = fetch_extra_args(Codec::Opus, Bitrate::Medium);
    assert_eq!(args, vec!["--audio-format", "opus", "--audio-quality", "192"]);
}

#[test]
fn fetch_arguments_use_alias_tiers() {
    let args = fetch_extra_args(Codec::MP3, Bitrate::Best);
    assert_eq!(args, vec!["--audio-format", "mp3", "--audio-quality", "best"]);
}

fn mk_config(root: Option<&str>) -> Config {
    let file_path = match root {
        Some(r) => OutputPath::from_root(r.to_string()),
        None => OutputPath::empty(),
    };
    Config {
        id: "id".to_string(),
        spotify_type: Spotify::Track,
        file_path,
        codec: Codec::MP3,
        bitrate: Bitrate::High,
        chunk: Some(1),
    }
}

#[test]
fn track_plan_builds_names_and_paths() {
    let cfg = mk_config(Some("music"));
    let song = mk_track("Song (Live)", &["A", "B"]);
    let plan = plan_track_download(&song, &cfg).unwrap();
    assert_eq!(plan.query, "Song (Live) - A, B");
    assert_eq!(plan.audio_file, "Song (Live).mp3");
    assert_eq!(plan.art_file, "SongLive.jpeg");
    assert_eq!(plan.audio_path.render(), "music/Song (Live).mp3");
    assert_eq!(plan.art_path.render(), "music/SongLive.jpeg");
}

#[test]
fn track_plan_requires_a_parent_directory() {
    let cfg = mk_config(None);
    let song = mk_track("Song", &["A"]);
    let r = plan_track_download(&song, &cfg);
    assert!(matches!(r, Err(RunError::FetchError)));
}

#[test]
fn empty_art_url_is_skipped_silently() {
    let mut song = mk_track("Song", &["A"]);
    song.album_cover = String::new();
    assert_eq!(track_art_url(&song), None);
    let song2 = mk_track("Song", &["A"]);
    assert_eq!(
        track_art_url(&song2),
        Some("http://example.invalid/cover.jpeg".to_string())
    );
}

#[test]
fn album_art_plan_only_with_a_cover_url() {
    let album = SpotifyAlbum {
        name: "Best Of (Deluxe)".to_string(),
        tracks: Vec::new(),
        number_of_songs: 0,
        cover_url: Some("http://example.invalid/a.jpeg".to_string()),
    };
    let dir = OutputPath::from_root("music".to_string());
    let path = plan_album_art(&album, &dir).unwrap();
    assert_eq!(path.render(), "music/Best Of (Deluxe)/BestOfDeluxe.jpeg");

    let bare = SpotifyAlbum { cover_url: None, ..album };
    assert!(plan_album_art(&bare, &dir).is_none());
}

#[test]
fn output_path_operations() {
    let root = OutputPath::from_root("music".to_string());
    assert!(root.has_parent());
    assert_eq!(root.depth(), 1);
    let child = root.child("album".to_string());
    assert_eq!(child.render(), "music/album");
    assert_eq!(root.render(), "music");
    let up = child.parent().unwrap();
    assert_eq!(up.render(), "music");
    assert!(OutputPath::empty().parent().is_none());
    assert!(!OutputPath::empty().has_parent());
}

#[test]
fn run_level_errors_are_distinguished() {
    assert!(RunError::NotFoundError.is_run_level());
    assert!(RunError::ConfigError.is_run_level());
    assert!(!RunError::FetchError.is_run_level());
    assert!(!RunError::ArtError.is_run_level());
    assert!(!RunError::TagError.is_run_level());
    assert!(!RunError::VerifyInconsistency.is_run_level());
}

#[test]
fn error_messages_are_stable() {
    assert_eq!(RunError::NotFoundError.message(), "catalog entity not found");
    assert_eq!(
        RunError::ConfigError.message(),
        "invalid configuration or empty collection"
    );
    assert_eq!(RunError::FetchError.message(), "audio fetch failed");
    assert_eq!(
        RunError::VerifyInconsistency.message(),
        "tag missing after successful tagging"
    );
}

#[test]
fn art_and_tag_error_messages() {
    assert_eq!(
        RunError::ArtError.message(),
        "cover art could not be fetched or written"
    );
    assert_eq!(RunError::TagError.message(), "metadata could not be written");
}
