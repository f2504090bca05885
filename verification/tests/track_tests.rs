use bz_player::Playlist;
use bz_player::Song;
use bz_player::SongError;

fn temp_song_file(suffix: &str) -> tempfile::NamedTempFile {
    tempfile::Builder::new()
        .suffix(suffix)
        .tempfile()
        .expect("temp file")
}

#[test]
fn construct_fails_on_missing_path() {
    let r = Song::new(1, "ghost", "/no/such/directory/anywhere/song.mp3");
    assert!(matches!(r, Err(SongError::InvalidSongPath)));
}

#[test]
fn build_fails_on_missing_path_whatever_the_extension() {
    let r = Song::build(1, "ghost", "song.mp3", false);
    assert!(matches!(r, Err(SongError::InvalidSongPath)));
    let r = Song::build(1, "ghost", "song.txt", false);
    assert!(matches!(r, Err(SongError::InvalidSongPath)));
}

#[test]
fn construct_fails_on_disallowed_extension() {
    let file = temp_song_file(".txt");
    let path = file.path().to_str().unwrap();
    let r = Song::new(2, "notes", path);
    assert!(matches!(r, Err(SongError::InvalidSongFormat)));
}

#[test]
fn construct_fails_on_missing_extension() {
    let file = temp_song_file("");
    let path = file.path().to_str().unwrap();
    let r = Song::new(2, "bare", path);
    assert!(matches!(r, Err(SongError::InvalidSongFormat)));
}

#[test]
fn construct_accepts_allowed_extensions() {
    for suffix in [".mp3", ".ogg", ".wav"] {
        let file = temp_song_file(suffix);
        let path = file.path().to_str().unwrap();
        let song = Song::new(7, "tune", path).expect("valid track");
        assert_eq!(song.song_id, 7);
        assert_eq!(song.song_name, "tune");
        assert_eq!(song.song_path, path);
    }
}

#[test]
fn extension_check_is_case_insensitive() {
    for suffix in [".MP3", ".Ogg", ".WAV", ".mP3"] {
        let file = temp_song_file(suffix);
        let path = file.path().to_str().unwrap();
        assert!(Song::new(7, "tune", path).is_ok(), "suffix {}", suffix);
    }
}

#[test]
fn extension_of_final_component_only() {
    assert!(Song::is_valid_song_path("a/b/c.mp3"));
    assert!(Song::is_valid_song_path("archive.tar.mp3"));
    assert!(!Song::is_valid_song_path("a.mp3/file"));
    assert!(!Song::is_valid_song_path("a.mp3/file.txt"));
    assert!(!Song::is_valid_song_path("noext"));
    assert!(!Song::is_valid_song_path("dir/.mp3"));
    assert!(!Song::is_valid_song_path(".mp3"));
    assert!(!Song::is_valid_song_path("song.mp4"));
    assert!(!Song::is_valid_song_path("song.mp3x"));
    assert!(!Song::is_valid_song_path(""));
    assert!(Song::is_valid_song_path("x.wav"));
}

#[test]
fn build_validates_from_plain_facts() {
    let ok = Song::build(3, "a", "a.ogg", true).expect("valid");
    assert_eq!(ok.song_id, 3);
    assert_eq!(ok.song_name, "a");
    assert_eq!(ok.song_path, "a.ogg");
    assert!(matches!(
        Song::build(3, "a", "a.pdf", true),
        Err(SongError::InvalidSongFormat)
    ));
    assert!(matches!(
        Song::build(3, "a", "a.ogg", false),
        Err(SongError::InvalidSongPath)
    ));
}

#[test]
fn playlist_keeps_insertion_order() {
    let mut playlist = Playlist::new("mix");
    assert_eq!(playlist.playlist_name, "mix");
    assert!(playlist.songs.is_empty());
    playlist.add_song(Song::build(1, "first", "first.mp3", true).unwrap());
    playlist.add_song(Song::build(2, "second", "second.wav", true).unwrap());
    assert_eq!(playlist.songs.len(), 2);
    assert_eq!(playlist.songs[0].song_name, "first");
    assert_eq!(playlist.songs[1].song_name, "second");
}

#[test]
fn song_error_messages() {
    assert_eq!(
        SongError::InvalidSongPath.message(),
        "Song Path Cannot be Found"
    );
    assert_eq!(
        SongError::InvalidSongFormat.message(),
        "Only ogg, wav, mp3 are supported"
    );
    assert_eq!(SongError::SongAccessError.message(), "No Access to Song File");
}
