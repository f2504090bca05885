use bz_player::SongBase;
use bz_player::SongBaseError;

fn temp_song_file(dir: &tempfile::TempDir, suffix: &str) -> tempfile::NamedTempFile {
    tempfile::Builder::new()
        .suffix(suffix)
        .tempfile_in(dir.path())
        .expect("temp file")
}

fn path_of(file: &tempfile::NamedTempFile) -> String {
    file.path().to_str().unwrap().to_string()
}

fn name_of(file: &tempfile::NamedTempFile) -> String {
    file.path().file_name().unwrap().to_str().unwrap().to_string()
}

#[test]
fn init_fails_with_access_failed_on_an_unopenable_path() {
    let r = SongBase::init("/no/such/directory/anywhere/song.db");
    assert!(matches!(r, Err(SongBaseError::AccessFailed)));
}

#[test]
fn init_is_idempotent_on_one_file() {
    let dir = tempfile::tempdir().unwrap();
    let db = dir.path().join("song.db");
    let db = db.to_str().unwrap();
    SongBase::init(db).expect("first open");
    SongBase::init(db).expect("second open over the same tables");
}

#[test]
fn create_song_twice_returns_the_same_id_without_error() {
    let base = SongBase::init(":memory:").unwrap();
    let dir = tempfile::tempdir().unwrap();
    let file = temp_song_file(&dir, ".mp3");
    let (name, path) = (name_of(&file), path_of(&file));

    let (first_id, dup_first) = base.create_song_status(&name, &path).expect("insert");
    assert!(!dup_first);
    let (second_id, dup_second) = base.create_song_status(&name, &path).expect("no error");
    assert!(dup_second);
    assert_eq!(first_id, second_id);
    assert_eq!(base.create_song(&name, &path).expect("still no error"), first_id);
}

#[test]
fn find_song_by_name_matches_substrings() {
    let base = SongBase::init(":memory:").unwrap();
    let dir = tempfile::tempdir().unwrap();
    let file = temp_song_file(&dir, ".ogg");
    let (name, path) = (name_of(&file), path_of(&file));
    let id = base.create_song(&name, &path).unwrap();

    let found = base.find_song_by_name(name.clone()).expect("full name matches");
    assert_eq!(found.song_id, id);
    assert_eq!(found.song_name, name);
    assert_eq!(found.song_path, path);

    // A proper substring of the name matches too.
    let inner = name[1..name.len() - 1].to_string();
    let found = base.find_song_by_name(inner).expect("substring matches");
    assert_eq!(found.song_id, id);

    let missing = base.find_song_by_name("no song is called this".to_string());
    assert!(matches!(missing, Err(SongBaseError::EntryNotFound)));
}

#[test]
fn filter_song_returns_all_matches_and_tolerates_none() {
    let base = SongBase::init(":memory:").unwrap();
    let dir = tempfile::tempdir().unwrap();
    let first = temp_song_file(&dir, ".mp3");
    let second = temp_song_file(&dir, ".wav");
    let id1 = base.create_song(&name_of(&first), &path_of(&first)).unwrap();
    let id2 = base.create_song(&name_of(&second), &path_of(&second)).unwrap();

    // The default temp-file prefix is shared, so both rows match it.
    let matches = base.filter_song(".tmp").expect("query runs");
    let mut ids: Vec<u32> = matches.iter().map(|(_, id)| *id).collect();
    ids.sort();
    assert_eq!(ids, vec![id1, id2]);

    let none = base.filter_song("nothing like this").expect("query runs");
    assert!(none.is_empty());
}

#[test]
fn create_playlist_rejects_a_taken_name() {
    let base = SongBase::init(":memory:").unwrap();
    let id = base.create_playlist("Chill".to_string()).expect("fresh name");
    assert_eq!(id, 1);
    let again = base.create_playlist("Chill".to_string());
    assert!(matches!(again, Err(SongBaseError::NameAlreadyExists)));
    let other = base.create_playlist("Focus".to_string()).expect("fresh name");
    assert_eq!(other, 2);
}

#[test]
fn playlist_from_folder_takes_only_audio_files() {
    // A folder with one mp3, one txt and one wav: the playlist gets
    // exactly the two audio files; the text file is never catalogued.
    let base = SongBase::init(":memory:").unwrap();
    let dir = tempfile::tempdir().unwrap();
    let _song1 = temp_song_file(&dir, ".mp3");
    let notes = tempfile::Builder::new()
        .prefix("notes")
        .suffix(".txt")
        .tempfile_in(dir.path())
        .unwrap();
    let _song2 = temp_song_file(&dir, ".wav");

    let events = base
        .create_playlist_from_path("Chill".to_string(), dir.path().to_str().unwrap().to_string())
        .expect("playlist built");
    assert_eq!(events.len(), 2);

    let playlist = base.get_playlist(1).expect("playlist exists");
    assert_eq!(playlist.playlist_name, "Chill");
    assert_eq!(playlist.songs.len(), 2);

    let never_inserted = base.filter_song(&name_of(&notes)).expect("query runs");
    assert!(never_inserted.is_empty());
}

#[test]
fn playlist_from_missing_folder_fails_whole() {
    let base = SongBase::init(":memory:").unwrap();
    let r = base.create_playlist_from_path(
        "Chill".to_string(),
        "/no/such/folder/anywhere".to_string(),
    );
    assert!(matches!(r, Err(SongBaseError::AccessFailed)));
    // One logical operation: the failed call left no playlist row behind,
    // so the name is still free.
    base.create_playlist("Chill".to_string())
        .expect("name still free");
}

#[test]
fn get_playlist_prunes_dangling_members() {
    // One member's backing file is deleted after insertion: the load
    // excludes it and removes the dangling row from the catalog.
    let base = SongBase::init(":memory:").unwrap();
    let dir = tempfile::tempdir().unwrap();
    let keep = temp_song_file(&dir, ".mp3");
    let gone = temp_song_file(&dir, ".mp3");
    let keep_id = base.create_song(&name_of(&keep), &path_of(&keep)).unwrap();
    let gone_name = name_of(&gone);
    let gone_id = base.create_song(&gone_name, &path_of(&gone)).unwrap();

    let playlist_id = base.create_playlist("mix".to_string()).unwrap();
    base.add_playlist_song(playlist_id, vec![keep_id, gone_id]).unwrap();

    drop(gone);  // the backing file disappears

    let playlist = base.get_playlist(playlist_id).expect("load still succeeds");
    assert_eq!(playlist.songs.len(), 1);
    assert_eq!(playlist.songs[0].song_id, keep_id);

    // The dangling row is gone from the catalog as a side effect.
    let r = base.find_song_by_name(gone_name);
    assert!(matches!(r, Err(SongBaseError::EntryNotFound)));
}

#[test]
fn get_playlist_of_unknown_id_fails_entry_not_found() {
    let base = SongBase::init(":memory:").unwrap();
    let r = base.get_playlist(9);
    assert!(matches!(r, Err(SongBaseError::EntryNotFound)));
}

#[test]
fn add_playlist_song_skips_existing_members() {
    let base = SongBase::init(":memory:").unwrap();
    let dir = tempfile::tempdir().unwrap();
    let file = temp_song_file(&dir, ".ogg");
    let id = base.create_song(&name_of(&file), &path_of(&file)).unwrap();
    let playlist_id = base.create_playlist("mix".to_string()).unwrap();

    base.add_playlist_song(playlist_id, vec![id]).expect("first link");
    base.add_playlist_song(playlist_id, vec![id, id]).expect("repeats are skipped");

    let playlist = base.get_playlist(playlist_id).unwrap();
    assert_eq!(playlist.songs.len(), 1);
}

#[test]
fn catalog_error_messages() {
    assert_eq!(
        SongBaseError::AccessFailed.message(),
        "Cannot Access the Database"
    );
    assert_eq!(SongBaseError::EntryNotFound.message(), "Entry Not Found");
    assert_eq!(
        SongBaseError::InvalidPath.message(),
        "The given path does not exists"
    );
    assert_eq!(
        SongBaseError::DatabaseError("boom".to_string()).message(),
        "Database error: boom"
    );
}
