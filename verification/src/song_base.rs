use vstd::prelude::*;

use crate::decimal::u32_to_string;
use crate::errors::SongBaseError;
use crate::errors::SongError;
use crate::song::has_allowed_extension;
use crate::song::path_exists;
use crate::song::Playlist;
use crate::song::Song;

verus! {

#[verifier::external_type_specification]
#[verifier::external_body]
pub struct ExConnection(rusqlite::Connection);

/// What one SQL statement execution reported.
#[derive(Debug)]
pub enum ExecStatus {
    /// The statement ran.
    Done,
    /// The statement hit a uniqueness or foreign-key constraint.
    Constraint,
    /// Any other failure, with the engine's diagnostic text.
    Fail(String),
}

/// What a single-row query reported.
#[derive(Debug)]
pub enum RowOutcome<T> {
    /// The first row's value.
    Found(T),
    /// The query matched no row.
    NoRow,
    /// Any other failure, with the engine's diagnostic text.
    Fail(String),
}

/// One immediate entry of a scanned directory.
#[derive(Debug)]
pub struct DirItem {
    pub name: String,
    pub path: String,
    pub is_dir: bool,
}

/// One per-item outcome of a batch operation (a scan, a
/// playlist-from-folder), reported as a notification rather than an error.
#[derive(Debug, PartialEq, Eq)]
pub enum ScanEvent {
    /// The file was inserted as a new catalog row.
    Added(String),
    /// The file was already catalogued; the row was left alone.
    DuplicateSkipped(String),
    /// The insert failed: the file's name and the diagnostic text.
    Failed(String, String),
    /// The directory could not be read at all.
    CantReadDir(String),
}

/// The name an event reports on.
pub open spec fn scan_event_name(e: ScanEvent) -> Seq<char> {
    match e {
        ScanEvent::Added(n) => n@,
        ScanEvent::DuplicateSkipped(n) => n@,
        ScanEvent::Failed(n, _) => n@,
        ScanEvent::CantReadDir(p) => p@,
    }
}

/// The event that reports one attempted file: inserted is `Added`,
/// already catalogued is `DuplicateSkipped` — never a failure — and a
/// storage failure is `Failed` with its diagnostic.
pub open spec fn event_reports(
    e: ScanEvent,
    name: Seq<char>,
    outcome: Result<(u32, bool), SongBaseError>,
) -> bool {
    match outcome {
        Ok(p) => if p.1 {
            e matches ScanEvent::DuplicateSkipped(n) && n@ == name
        } else {
            e matches ScanEvent::Added(n) && n@ == name
        },
        Err(err) => e matches ScanEvent::Failed(n, d) && n@ == name && d@ == err.spec_message(),
    }
}

/// A directory entry the scan catalogues: a non-directory whose extension
/// is in the audio allow-set.
pub open spec fn is_audio_file(e: DirItem) -> bool {
    !e.is_dir && has_allowed_extension(e.path@)
}

/// The audio files among the listed entries, in listing order.
pub open spec fn audio_files(entries: Seq<DirItem>) -> Seq<DirItem>
    decreases entries.len(),
{
    if entries.len() == 0 {
        Seq::empty()
    } else if is_audio_file(entries.last()) {
        audio_files(entries.drop_last()).push(entries.last())
    } else {
        audio_files(entries.drop_last())
    }
}

/// A directory name the scanner does not descend into. Of the two
/// build/dependency folder names, a directory is skipped when its name
/// matches either one.
pub open spec fn is_excluded_dir_name(name: Seq<char>) -> bool {
    name == "node_modules"@ || name == "target"@
}

/// A directory entry the walk descends into: a directory whose name is
/// not excluded.
pub open spec fn is_scannable_dir(e: DirItem) -> bool {
    e.is_dir && !is_excluded_dir_name(e.name@)
}

/// The paths of the subdirectories the walk queues, in listing order.
pub open spec fn subdir_paths(entries: Seq<DirItem>) -> Seq<String>
    decreases entries.len(),
{
    if entries.len() == 0 {
        Seq::empty()
    } else if is_scannable_dir(entries.last()) {
        subdir_paths(entries.drop_last()).push(entries.last().path)
    } else {
        subdir_paths(entries.drop_last())
    }
}

/// The successfully catalogued ids among the per-file outcomes, in order.
pub open spec fn kept_ids(outcomes: Seq<(String, Result<(u32, bool), SongBaseError>)>) -> Seq<u32>
    decreases outcomes.len(),
{
    if outcomes.len() == 0 {
        Seq::empty()
    } else {
        match outcomes.last().1 {
            Ok(p) => kept_ids(outcomes.drop_last()).push(p.0),
            Err(_) => kept_ids(outcomes.drop_last()),
        }
    }
}

/// The successfully resolved tracks among the per-member resolutions, in
/// link order.
pub open spec fn kept_songs(resolutions: Seq<Result<Song, SongBaseError>>) -> Seq<Song>
    decreases resolutions.len(),
{
    if resolutions.len() == 0 {
        Seq::empty()
    } else {
        match resolutions.last() {
            Ok(song) => kept_songs(resolutions.drop_last()).push(song),
            Err(_) => kept_songs(resolutions.drop_last()),
        }
    }
}

/// What holds of each kept track holds of each resolution's success.
proof fn lemma_kept_songs_valid(resolutions: Seq<Result<Song, SongBaseError>>)
    requires
        forall|j: int|
            0 <= j < resolutions.len() ==> (#[trigger] resolutions[j] matches Ok(s)
                ==> has_allowed_extension(s.song_path@)),
    ensures
        forall|k: int|
            0 <= k < kept_songs(resolutions).len() ==> has_allowed_extension(
                #[trigger] kept_songs(resolutions)[k].song_path@,
            ),
    decreases resolutions.len(),
{
    if resolutions.len() > 0 {
        let prefix = resolutions.drop_last();
        assert forall|j: int| 0 <= j < prefix.len() implies (#[trigger] prefix[j] matches Ok(s)
            ==> has_allowed_extension(s.song_path@)) by {
            assert(prefix[j] == resolutions[j]);
        }
        lemma_kept_songs_valid(prefix);
        let kept = kept_songs(resolutions);
        assert forall|k: int| 0 <= k < kept.len() implies has_allowed_extension(
            #[trigger] kept[k].song_path@,
        ) by {
            assert(resolutions[resolutions.len() - 1] == resolutions.last());
            match resolutions.last() {
                Ok(song) => {
                    assert(kept == kept_songs(prefix).push(song));
                    if k < kept.len() - 1 {
                        assert(kept[k] == kept_songs(prefix)[k]);
                    } else {
                        assert(kept[k] == song);
                    }
                },
                Err(_) => {
                    assert(kept == kept_songs(prefix));
                },
            }
        }
    }
}

/// Relies on rusqlite::Connection::open: opens (creating if absent) the
/// database file; a failure to open maps to `AccessFailed`, anything else
/// to `DatabaseError` with the engine's text.
#[verifier::external_body]
fn open_connection(db_name: &str) -> (r: Result<rusqlite::Connection, SongBaseError>)
    ensures
        r matches Err(e) ==> e == SongBaseError::AccessFailed || e matches
            SongBaseError::DatabaseError(_),
{
    rusqlite::Connection::open(db_name).map_err(
        |err|
            if err.sqlite_error_code() == Some(rusqlite::ErrorCode::CannotOpen) {
                SongBaseError::AccessFailed
            } else {
                SongBaseError::DatabaseError(err.to_string())
            },
    )
}

/// Relies on rusqlite::Connection::execute: runs one SQL statement with
/// text parameters, telling a constraint violation apart from other
/// failures. What it does to the stored rows depends on the statement and
/// the database file, so nothing is promised of the outcome.
#[verifier::external_body]
fn exec_sql(conn: &rusqlite::Connection, sql: &str, params: &Vec<String>) -> ExecStatus {
    match conn.execute(sql, rusqlite::params_from_iter(params.iter())) {
        Ok(_) => ExecStatus::Done,
        Err(err) if err.sqlite_error_code() == Some(rusqlite::ErrorCode::ConstraintViolation) => {
            ExecStatus::Constraint
        },
        Err(err) => ExecStatus::Fail(err.to_string()),
    }
}

/// Relies on rusqlite::Connection::prepare and Statement::query_map:
/// fetches all rows of a three-column `(song_id, song_name, song_path)`
/// query; a row that cannot be decoded is skipped.
#[verifier::external_body]
fn query_song_rows(conn: &rusqlite::Connection, sql: &str, params: &Vec<String>) -> Result<
    Vec<(u32, String, String)>,
    String,
> {
    let mut stmt = match conn.prepare(sql) {
        Ok(stmt) => stmt,
        Err(err) => return Err(err.to_string()),
    };
    let fetched = match stmt.query_map(
        rusqlite::params_from_iter(params.iter()),
        |row| Ok((row.get(0)?, row.get(1)?, row.get(2)?)),
    ) {
        Ok(rows) => Ok(rows.filter_map(|r| r.ok()).collect()),
        Err(err) => Err(err.to_string()),
    };
    fetched
}

/// Relies on rusqlite::Connection::prepare and Statement::query_map:
/// fetches all rows of a two-column `(song_name, song_id)` query; a row
/// that cannot be decoded is skipped.
#[verifier::external_body]
fn query_name_id_rows(conn: &rusqlite::Connection, sql: &str, params: &Vec<String>) -> Result<
    Vec<(String, u32)>,
    String,
> {
    let mut stmt = match conn.prepare(sql) {
        Ok(stmt) => stmt,
        Err(err) => return Err(err.to_string()),
    };
    let fetched = match stmt.query_map(
        rusqlite::params_from_iter(params.iter()),
        |row| Ok((row.get(0)?, row.get(1)?)),
    ) {
        Ok(rows) => Ok(rows.filter_map(|r| r.ok()).collect()),
        Err(err) => Err(err.to_string()),
    };
    fetched
}

/// Relies on rusqlite::Connection::prepare and Statement::query_map:
/// fetches all rows of a one-column id query; a row that cannot be
/// decoded is skipped.
#[verifier::external_body]
fn query_id_rows(conn: &rusqlite::Connection, sql: &str, params: &Vec<String>) -> Result<
    Vec<u32>,
    String,
> {
    let mut stmt = match conn.prepare(sql) {
        Ok(stmt) => stmt,
        Err(err) => return Err(err.to_string()),
    };
    let fetched = match stmt.query_map(rusqlite::params_from_iter(params.iter()), |row| row.get(0)) {
        Ok(rows) => Ok(rows.filter_map(|r| r.ok()).collect()),
        Err(err) => Err(err.to_string()),
    };
    fetched
}

/// Relies on rusqlite::Connection::query_row: the first row of a
/// one-column text query, telling "no row" apart from other failures.
#[verifier::external_body]
fn query_text_row(conn: &rusqlite::Connection, sql: &str, params: &Vec<String>) -> RowOutcome<
    String,
> {
    match conn.query_row(sql, rusqlite::params_from_iter(params.iter()), |row| row.get(0)) {
        Ok(v) => RowOutcome::Found(v),
        Err(rusqlite::Error::QueryReturnedNoRows) => RowOutcome::NoRow,
        Err(err) => RowOutcome::Fail(err.to_string()),
    }
}

/// Relies on rusqlite::Connection::query_row: the first row of a
/// one-column id query, telling "no row" apart from other failures.
#[verifier::external_body]
fn query_id_row(conn: &rusqlite::Connection, sql: &str, params: &Vec<String>) -> RowOutcome<u32> {
    match conn.query_row(sql, rusqlite::params_from_iter(params.iter()), |row| row.get(0)) {
        Ok(v) => RowOutcome::Found(v),
        Err(rusqlite::Error::QueryReturnedNoRows) => RowOutcome::NoRow,
        Err(err) => RowOutcome::Fail(err.to_string()),
    }
}

/// Relies on dirs::audio_dir: the platform's audio directory, when the
/// environment defines one. The answer depends on the environment, so
/// nothing is promised of it.
#[verifier::external_body]
fn default_audio_dir() -> Option<String> {
    dirs::audio_dir().map(|p| p.to_string_lossy().into_owned())
}

/// Relies on std::path::Path::read_dir: the directory's immediate
/// entries, each with its file name, its full path and whether it is a
/// directory; an entry that cannot be read is skipped.
#[verifier::external_body]
fn list_dir(path: &str) -> Result<Vec<DirItem>, ()> {
    match std::path::Path::new(path).read_dir() {
        Err(_) => Err(()),
        Ok(read_dir) => Ok(
            read_dir.filter_map(|e| e.ok()).map(
                |e|
                    DirItem {
                        name: e.file_name().to_string_lossy().into_owned(),
                        path: e.path().to_string_lossy().into_owned(),
                        is_dir: e.path().is_dir(),
                    },
            ).collect(),
        ),
    }
}

/// How one table-creation statement ends: anything but plain success is a
/// storage error.
fn ddl_outcome(status: ExecStatus) -> (r: Result<(), SongBaseError>)
    ensures
        status is Done <==> r == Ok::<(), SongBaseError>(()),
        status matches ExecStatus::Fail(d) ==> r == Err::<(), SongBaseError>(
            SongBaseError::DatabaseError(d),
        ),
        r matches Err(e) ==> e matches SongBaseError::DatabaseError(_),
{
    match status {
        ExecStatus::Done => Ok(()),
        ExecStatus::Constraint => Err(
            SongBaseError::DatabaseError(String::from_str("constraint on table creation")),
        ),
        ExecStatus::Fail(detail) => Err(SongBaseError::DatabaseError(detail)),
    }
}

/// How a multi-row query ends: the rows as they came, or the failure as a
/// storage error.
fn rows_outcome<T>(fetched: Result<Vec<T>, String>) -> (r: Result<Vec<T>, SongBaseError>)
    ensures
        fetched matches Ok(v) ==> r == Ok::<Vec<T>, SongBaseError>(v),
        fetched matches Err(d) ==> r == Err::<Vec<T>, SongBaseError>(
            SongBaseError::DatabaseError(d),
        ),
        r is Ok <==> fetched is Ok,
{
    match fetched {
        Ok(rows) => Ok(rows),
        Err(detail) => Err(SongBaseError::DatabaseError(detail)),
    }
}

/// How an insert-or-fetch ends, given what the two storage calls came
/// back with: a row that was read back yields its id (marked duplicate
/// when the insert hit the uniqueness constraint) and never an error; a
/// missing or unreadable row is a `DatabaseError`.
fn resolve_inserted_id(already_present: bool, fetched: RowOutcome<u32>) -> (r: Result<
    (u32, bool),
    SongBaseError,
>)
    ensures
        fetched matches RowOutcome::Found(id) ==> r == Ok::<(u32, bool), SongBaseError>(
            (id, already_present),
        ),
        r is Ok <==> fetched is Found,
        fetched is NoRow ==> (r matches Err(e) && e matches SongBaseError::DatabaseError(_)),
        fetched matches RowOutcome::Fail(d) ==> r == Err::<(u32, bool), SongBaseError>(
            SongBaseError::DatabaseError(d),
        ),
{
    match fetched {
        RowOutcome::Found(id) => Ok((id, already_present)),
        RowOutcome::NoRow => Err(
            SongBaseError::DatabaseError(String::from_str("inserted row could not be read back")),
        ),
        RowOutcome::Fail(detail) => Err(SongBaseError::DatabaseError(detail)),
    }
}

/// How one fetched song row resolves, given its validation outcome: a
/// validated track is returned as it is; a row whose backing file
/// vanished maps to "entry not found" and asks for the row's deletion —
/// the self-healing read; any other validation failure surfaces as a
/// track error and deletes nothing.
fn resolve_song_row(validated: Result<Song, SongError>) -> (r: (
    Result<Song, SongBaseError>,
    bool,
))
    ensures
        validated matches Ok(song) ==> r == (Ok::<Song, SongBaseError>(song), false),
        validated == Err::<Song, SongError>(SongError::InvalidSongPath) <==> r == (
            Err::<Song, SongBaseError>(SongBaseError::EntryNotFound),
            true,
        ),
        validated matches Err(e) ==> (e != SongError::InvalidSongPath ==> r == (
            Err::<Song, SongBaseError>(SongBaseError::SongError(e)),
            false,
        )),
        r.0 is Ok <==> validated is Ok,
{
    match validated {
        Ok(song) => (Ok(song), false),
        Err(SongError::InvalidSongPath) => (Err(SongBaseError::EntryNotFound), true),
        Err(err) => (Err(SongBaseError::SongError(err)), false),
    }
}

/// How the playlist-name lookup ends: a missing row is "entry not found"
/// — never a raw storage error — and any other failure is one.
fn playlist_name_outcome(fetched: RowOutcome<String>) -> (r: Result<String, SongBaseError>)
    ensures
        fetched matches RowOutcome::Found(name) ==> r == Ok::<String, SongBaseError>(name),
        fetched is NoRow <==> r == Err::<String, SongBaseError>(SongBaseError::EntryNotFound),
        fetched matches RowOutcome::Fail(d) ==> r == Err::<String, SongBaseError>(
            SongBaseError::DatabaseError(d),
        ),
        r is Ok <==> fetched is Found,
{
    match fetched {
        RowOutcome::Found(name) => Ok(name),
        RowOutcome::NoRow => Err(SongBaseError::EntryNotFound),
        RowOutcome::Fail(detail) => Err(SongBaseError::DatabaseError(detail)),
    }
}

/// How creating the playlist row ends: a uniqueness violation is exactly
/// the taken-name error; any other failure is a storage error.
fn playlist_insert_outcome(status: ExecStatus) -> (r: Result<(), SongBaseError>)
    ensures
        status is Done <==> r == Ok::<(), SongBaseError>(()),
        status is Constraint <==> r == Err::<(), SongBaseError>(SongBaseError::NameAlreadyExists),
        status matches ExecStatus::Fail(d) ==> r == Err::<(), SongBaseError>(
            SongBaseError::DatabaseError(d),
        ),
        status is Fail <==> (r matches Err(e) && e matches SongBaseError::DatabaseError(_)),
{
    match status {
        ExecStatus::Done => Ok(()),
        ExecStatus::Constraint => Err(SongBaseError::NameAlreadyExists),
        ExecStatus::Fail(detail) => Err(SongBaseError::DatabaseError(detail)),
    }
}

/// How the fresh playlist id read-back ends: a found id in the one-byte
/// id range is the playlist's id; an id past it, a missing row, or a
/// failed read is a storage error.
fn resolve_playlist_id(fetched: RowOutcome<u32>) -> (r: Result<u8, SongBaseError>)
    ensures
        fetched matches RowOutcome::Found(id) ==> (id <= 255 ==> r == Ok::<u8, SongBaseError>(
            id as u8,
        )) && (id > 255 ==> (r matches Err(e) && e matches SongBaseError::DatabaseError(_))),
        fetched is NoRow ==> (r matches Err(e) && e matches SongBaseError::DatabaseError(_)),
        fetched matches RowOutcome::Fail(d) ==> r == Err::<u8, SongBaseError>(
            SongBaseError::DatabaseError(d),
        ),
        r is Ok <==> (fetched matches RowOutcome::Found(id) && id <= 255),
{
    match fetched {
        RowOutcome::Found(id) => {
            if id > 255 {
                Err(SongBaseError::DatabaseError(String::from_str("playlist id out of range")))
            } else {
                Ok(id as u8)
            }
        },
        RowOutcome::NoRow => Err(
            SongBaseError::DatabaseError(
                String::from_str("inserted playlist could not be read back"),
            ),
        ),
        RowOutcome::Fail(detail) => Err(SongBaseError::DatabaseError(detail)),
    }
}

/// How one membership insert ends: an id that is already linked hits the
/// constraint and is skipped — not fatal to the batch; only a hard
/// failure is an error.
fn link_insert_outcome(status: ExecStatus) -> (r: Result<(), SongBaseError>)
    ensures
        status matches ExecStatus::Fail(d) ==> r == Err::<(), SongBaseError>(
            SongBaseError::DatabaseError(d),
        ),
        !(status is Fail) <==> r == Ok::<(), SongBaseError>(()),
{
    match status {
        ExecStatus::Fail(detail) => Err(SongBaseError::DatabaseError(detail)),
        _ => Ok(()),
    }
}

/// How the folder listing ends: the entries, or `AccessFailed` when the
/// folder cannot be read.
fn folder_listing_outcome(listing: Result<Vec<DirItem>, ()>) -> (r: Result<
    Vec<DirItem>,
    SongBaseError,
>)
    ensures
        listing matches Ok(entries) ==> r == Ok::<Vec<DirItem>, SongBaseError>(entries),
        listing is Err <==> r == Err::<Vec<DirItem>, SongBaseError>(SongBaseError::AccessFailed),
{
    match listing {
        Ok(entries) => Ok(entries),
        Err(()) => Err(SongBaseError::AccessFailed),
    }
}

/// Whether a scan may start at the resolved path: a path found on disk is
/// acknowledged as it stands; one not found is the invalid-path error.
fn acknowledge_scan_path(resolved: String, found: bool) -> (r: Result<String, SongBaseError>)
    ensures
        found <==> r == Ok::<String, SongBaseError>(resolved),
        !found <==> r == Err::<String, SongBaseError>(SongBaseError::InvalidPath),
{
    if found {
        Ok(resolved)
    } else {
        Err(SongBaseError::InvalidPath)
    }
}

/// Which path a scan starts at: the requested one when given, else the
/// platform's default audio directory, else no path at all —
/// `InvalidPath`.
fn resolve_scan_path(requested: Option<String>, fallback: Option<String>) -> (r: Result<
    String,
    SongBaseError,
>)
    ensures
        requested matches Some(p) ==> r == Ok::<String, SongBaseError>(p),
        requested is None ==> (fallback matches Some(d) ==> r == Ok::<String, SongBaseError>(d)),
        requested is None && fallback is None <==> r == Err::<String, SongBaseError>(
            SongBaseError::InvalidPath,
        ),
{
    match requested {
        Some(p) => Ok(p),
        None => match fallback {
            Some(d) => Ok(d),
            None => Err(SongBaseError::InvalidPath),
        },
    }
}

/// A directory name the scanner does not descend into.
pub fn is_excluded_dir(name: &String) -> (r: bool)
    ensures
        r == is_excluded_dir_name(name@),
{
    let first = String::from_str("node_modules");
    let second = String::from_str("target");
    *name == first || *name == second
}

/// The event that reports one attempted file, per `event_reports`.
fn event_for(name: String, outcome: &Result<(u32, bool), SongBaseError>) -> (r: ScanEvent)
    ensures
        event_reports(r, name@, *outcome),
{
    match outcome {
        Ok(pair) => {
            if pair.1 {
                ScanEvent::DuplicateSkipped(name)
            } else {
                ScanEvent::Added(name)
            }
        },
        Err(err) => ScanEvent::Failed(name, err.message()),
    }
}

/// One event per attempted file, in order, reporting its outcome.
fn events_of_outcomes(outcomes: &Vec<(String, Result<(u32, bool), SongBaseError>)>) -> (r: Vec<
    ScanEvent,
>)
    ensures
        r@.len() == outcomes@.len(),
        forall|j: int|
            0 <= j < r@.len() ==> event_reports(#[trigger] r@[j], outcomes@[j].0@, outcomes@[j].1),
{
    let mut events: Vec<ScanEvent> = Vec::new();
    let mut i: usize = 0;
    while i < outcomes.len()
        invariant
            i <= outcomes.len(),
            events@.len() == i,
            forall|j: int|
                0 <= j < i ==> event_reports(#[trigger] events@[j], outcomes@[j].0@, outcomes@[j].1),
        decreases outcomes.len() - i,
    {
        events.push(event_for(outcomes[i].0.clone(), &outcomes[i].1));
        i += 1;
    }
    events
}

/// The successfully catalogued ids among the outcomes, in order.
fn ids_of_outcomes(outcomes: &Vec<(String, Result<(u32, bool), SongBaseError>)>) -> (r: Vec<u32>)
    ensures
        r@ == kept_ids(outcomes@),
{
    let mut ids: Vec<u32> = Vec::new();
    let mut i: usize = 0;
    while i < outcomes.len()
        invariant
            i <= outcomes.len(),
            ids@ == kept_ids(outcomes@.take(i as int)),
        decreases outcomes.len() - i,
    {
        assert(outcomes@.take(i + 1).drop_last() =~= outcomes@.take(i as int));
        assert(outcomes@.take(i + 1).last() == outcomes@[i as int]);
        match &outcomes[i].1 {
            Ok(pair) => ids.push(pair.0),
            Err(_) => (),
        }
        i += 1;
    }
    assert(outcomes@.take(outcomes@.len() as int) =~= outcomes@);
    ids
}

/// Builds the loaded playlist from the fetched name and the per-member
/// resolutions: the playlist carries that name, and its members are
/// exactly the successfully resolved tracks, in link order.
fn assemble_playlist(playlist_name: String, resolutions: &Vec<Result<Song, SongBaseError>>) -> (r:
    Playlist)
    ensures
        r.playlist_name == playlist_name,
        r.songs@ == kept_songs(resolutions@),
{
    let mut playlist = Playlist { playlist_name, songs: Vec::new() };
    let mut i: usize = 0;
    while i < resolutions.len()
        invariant
            i <= resolutions.len(),
            playlist.playlist_name == playlist_name,
            playlist.songs@ == kept_songs(resolutions@.take(i as int)),
        decreases resolutions.len() - i,
    {
        assert(resolutions@.take(i + 1).drop_last() =~= resolutions@.take(i as int));
        assert(resolutions@.take(i + 1).last() == resolutions@[i as int]);
        match &resolutions[i] {
            Ok(song) => playlist.songs.push(song.clone()),
            Err(_) => (),
        }
        i += 1;
    }
    assert(resolutions@.take(resolutions@.len() as int) =~= resolutions@);
    playlist
}

/// The relational catalog of songs, playlists and their membership,
/// backed by one storage connection.
pub struct SongBase {
    conn: rusqlite::Connection,
}

impl SongBase {
    /// Opens the catalog and creates its three tables when absent.
    pub fn init(db_name: &str) -> (r: Result<SongBase, SongBaseError>)
        ensures
            r matches Err(e) ==> e == SongBaseError::AccessFailed || e matches
                SongBaseError::DatabaseError(_),
    {
        let conn = match open_connection(db_name) {
            Ok(conn) => conn,
            Err(e) => return Err(e),
        };
        let no_params: Vec<String> = Vec::new();
        let tables = SongBase { conn };
        match ddl_outcome(
            exec_sql(
                &tables.conn,
                "CREATE TABLE IF NOT EXISTS songs(song_id INTEGER PRIMARY KEY AUTOINCREMENT, song_name TEXT UNIQUE NOT NULL, song_path TEXT NOT NULL)",
                &no_params,
            ),
        ) {
            Ok(()) => (),
            Err(e) => return Err(e),
        }
        match ddl_outcome(
            exec_sql(
                &tables.conn,
                "CREATE TABLE IF NOT EXISTS playlists(playlist_id INTEGER PRIMARY KEY AUTOINCREMENT, playlist_name TEXT UNIQUE NOT NULL)",
                &no_params,
            ),
        ) {
            Ok(()) => (),
            Err(e) => return Err(e),
        }
        match ddl_outcome(
            exec_sql(
                &tables.conn,
                "CREATE TABLE IF NOT EXISTS playlist_song_link(playlist_id INTEGER, song_id INTEGER, PRIMARY KEY (playlist_id, song_id), FOREIGN KEY (playlist_id) REFERENCES playlists(playlist_id) ON DELETE CASCADE, FOREIGN KEY (song_id) REFERENCES songs(song_id) ON DELETE CASCADE)",
                &no_params,
            ),
        ) {
            Ok(()) => (),
            Err(e) => return Err(e),
        }
        Ok(tables)
    }

    /// The first stored track whose name contains the pattern
    /// (case-insensitive substring, storage-defined order). Whatever row
    /// storage hands back, a returned track is validated: its path was
    /// found on disk and carries an allowed audio extension.
    pub fn find_song_by_name(&self, song_name: String) -> (r: Result<Song, SongBaseError>)
        ensures
            r matches Ok(s) ==> has_allowed_extension(s.song_path@),
            r matches Err(e) ==> e == SongBaseError::EntryNotFound || (e matches
                SongBaseError::DatabaseError(_)) || (e matches SongBaseError::SongError(_)),
    {
        let pattern = String::from_str("%").concat(song_name.as_str()).concat("%");
        let params = vec![pattern];
        let rows = match rows_outcome(
            query_song_rows(
                &self.conn,
                "SELECT song_id, song_name, song_path FROM songs WHERE song_name LIKE ?1",
                &params,
            ),
        ) {
            Ok(rows) => rows,
            Err(e) => return Err(e),
        };
        if rows.len() == 0 {
            return Err(SongBaseError::EntryNotFound);
        }
        let (song_id, name, path) = (rows[0].0, rows[0].1.clone(), rows[0].2.clone());
        match Song::new(song_id, name.as_str(), path.as_str()) {
            Ok(song) => Ok(song),
            Err(err) => Err(SongBaseError::SongError(err)),
        }
    }

    /// The track with the given catalog id, resolved per
    /// `resolve_song_row`: a missing row is "entry not found"; a row whose
    /// backing file no longer exists is removed from the catalog and
    /// reported as "entry not found" too — the self-healing read.
    fn find_song_by_id(&self, song_id: u32) -> (r: Result<Song, SongBaseError>)
        ensures
            r matches Ok(s) ==> s.song_id == song_id && has_allowed_extension(s.song_path@),
            r matches Err(e) ==> e == SongBaseError::EntryNotFound || (e matches
                SongBaseError::DatabaseError(_)) || (e matches SongBaseError::SongError(_)),
    {
        let params = vec![u32_to_string(song_id)];
        let rows = match rows_outcome(
            query_song_rows(
                &self.conn,
                "SELECT song_id, song_name, song_path FROM songs WHERE song_id = ?1",
                &params,
            ),
        ) {
            Ok(rows) => rows,
            Err(e) => return Err(e),
        };
        if rows.len() == 0 {
            return Err(SongBaseError::EntryNotFound);
        }
        let (name, path) = (rows[0].1.clone(), rows[0].2.clone());
        let resolved = resolve_song_row(Song::new(song_id, name.as_str(), path.as_str()));
        if resolved.1 {
            match exec_sql(&self.conn, "DELETE FROM songs WHERE song_id = ?1", &params) {
                ExecStatus::Fail(detail) => return Err(SongBaseError::DatabaseError(detail)),
                _ => (),
            }
        }
        resolved.0
    }

    /// All `(name, id)` pairs whose name contains the pattern
    /// (case-insensitive substring); an empty answer is a valid outcome,
    /// not an error.
    pub fn filter_song(&self, song_name: &str) -> (r: Result<Vec<(String, u32)>, SongBaseError>)
        ensures
            r matches Err(e) ==> e matches SongBaseError::DatabaseError(_),
    {
        let pattern = String::from_str("%").concat(song_name).concat("%");
        let params = vec![pattern];
        rows_outcome(
            query_name_id_rows(
                &self.conn,
                "SELECT song_name, song_id FROM songs WHERE song_name LIKE ?1",
                &params,
            ),
        )
    }

    /// Insert-or-fetch of one song row, also telling whether the row was
    /// already there: the insert's uniqueness violation is swallowed and
    /// the existing row's id read back (per `resolve_inserted_id`), which
    /// makes repeated scans of the same tree idempotent.
    pub fn create_song_status(&self, song_name: &str, song_path: &str) -> (r: Result<
        (u32, bool),
        SongBaseError,
    >)
        ensures
            r matches Err(e) ==> e matches SongBaseError::DatabaseError(_),
    {
        let params = vec![String::from_str(song_name), String::from_str(song_path)];
        let already_present = match exec_sql(
            &self.conn,
            "INSERT INTO songs (song_name, song_path) VALUES (?1, ?2)",
            &params,
        ) {
            ExecStatus::Done => false,
            ExecStatus::Constraint => true,
            ExecStatus::Fail(detail) => return Err(SongBaseError::DatabaseError(detail)),
        };
        let fetched = query_id_row(
            &self.conn,
            "SELECT song_id FROM songs WHERE song_name = ?1 AND song_path = ?2",
            &params,
        );
        resolve_inserted_id(already_present, fetched)
    }

    /// Insert-or-fetch of one song row: the new row's id, or the existing
    /// one's on a duplicate — never a `DatabaseError` for the duplicate
    /// alone.
    pub fn create_song(&self, song_name: &str, song_path: &str) -> (r: Result<u32, SongBaseError>)
        ensures
            r matches Err(e) ==> e matches SongBaseError::DatabaseError(_),
    {
        match self.create_song_status(song_name, song_path) {
            Ok((id, _)) => Ok(id),
            Err(e) => Err(e),
        }
    }

    /// Creates an empty playlist under a fresh id: the insert decides per
    /// `playlist_insert_outcome` (a taken name is `NameAlreadyExists`),
    /// and the fresh id comes back per `resolve_playlist_id`.
    pub fn create_playlist(&self, playlist_name: String) -> (r: Result<u8, SongBaseError>)
        ensures
            r matches Err(e) ==> e == SongBaseError::NameAlreadyExists || (e matches
                SongBaseError::DatabaseError(_)),
    {
        let params = vec![playlist_name];
        match playlist_insert_outcome(
            exec_sql(&self.conn, "INSERT INTO playlists (playlist_name) VALUES (?1)", &params),
        ) {
            Ok(()) => (),
            Err(e) => return Err(e),
        }
        resolve_playlist_id(
            query_id_row(
                &self.conn,
                "SELECT playlist_id FROM playlists WHERE playlist_name = ?1",
                &params,
            ),
        )
    }

    /// Loads a playlist: the name lookup decides per
    /// `playlist_name_outcome` (a missing row is `EntryNotFound`, never a
    /// raw storage error), each member id is resolved in link order —
    /// pruning rows whose files vanished, per `find_song_by_id` — and the
    /// answer is assembled per `assemble_playlist`: it carries the fetched
    /// name, and its members are exactly the successful resolutions, in
    /// order; every one carries an allowed audio extension.
    pub fn get_playlist(&self, playlist_id: u8) -> (r: Result<Playlist, SongBaseError>)
        ensures
            r matches Ok(pl) ==> forall|i: int|
                0 <= i < pl.songs@.len() ==> has_allowed_extension(
                    #[trigger] pl.songs@[i].song_path@,
                ),
            r matches Err(e) ==> e == SongBaseError::EntryNotFound || (e matches
                SongBaseError::DatabaseError(_)),
    {
        let params = vec![u32_to_string(playlist_id as u32)];
        let playlist_name = match playlist_name_outcome(
            query_text_row(
                &self.conn,
                "SELECT playlist_name FROM playlists WHERE playlist_id = ?1",
                &params,
            ),
        ) {
            Ok(name) => name,
            Err(e) => return Err(e),
        };
        let member_ids = match rows_outcome(
            query_id_rows(
                &self.conn,
                "SELECT song_id FROM playlist_song_link WHERE playlist_id = ?1",
                &params,
            ),
        ) {
            Ok(ids) => ids,
            Err(e) => return Err(e),
        };
        let mut resolutions: Vec<Result<Song, SongBaseError>> = Vec::new();
        let mut i: usize = 0;
        while i < member_ids.len()
            invariant
                forall|j: int|
                    0 <= j < resolutions@.len() ==> (#[trigger] resolutions@[j] matches Ok(s)
                        ==> has_allowed_extension(s.song_path@)),
            decreases member_ids.len() - i,
        {
            resolutions.push(self.find_song_by_id(member_ids[i]));
            i += 1;
        }
        proof {
            lemma_kept_songs_valid(resolutions@);
        }
        Ok(assemble_playlist(playlist_name, &resolutions))
    }

    /// Links the given song ids to a playlist, in order, each insert
    /// deciding per `link_insert_outcome`: an id that is already a member
    /// is skipped, and only a hard storage failure ends the batch.
    pub fn add_playlist_song(&self, playlist_id: u8, song_ids: Vec<u32>) -> (r: Result<
        (),
        SongBaseError,
    >)
        ensures
            song_ids@.len() == 0 ==> r == Ok::<(), SongBaseError>(()),
            r matches Err(e) ==> e matches SongBaseError::DatabaseError(_),
    {
        let mut i: usize = 0;
        while i < song_ids.len()
            decreases song_ids.len() - i,
        {
            let params = vec![u32_to_string(song_ids[i]), u32_to_string(playlist_id as u32)];
            match link_insert_outcome(
                exec_sql(
                    &self.conn,
                    "INSERT INTO playlist_song_link (song_id, playlist_id) VALUES (?1, ?2)",
                    &params,
                ),
            ) {
                Ok(()) => (),
                Err(e) => return Err(e),
            }
            i += 1;
        }
        Ok(())
    }

    /// Attempts an insert-or-fetch for exactly the listed entries that
    /// are audio files — non-directories with an allowed extension — in
    /// listing order, pairing each file's name with its storage outcome.
    /// No other entry is ever attempted.
    fn try_catalog_audio_files(&self, entries: &Vec<DirItem>) -> (r: Vec<
        (String, Result<(u32, bool), SongBaseError>),
    >)
        ensures
            r@.len() == audio_files(entries@).len(),
            forall|j: int|
                0 <= j < r@.len() ==> (#[trigger] r@[j]).0 == audio_files(entries@)[j].name,
    {
        let mut outcomes: Vec<(String, Result<(u32, bool), SongBaseError>)> = Vec::new();
        let mut i: usize = 0;
        while i < entries.len()
            invariant
                i <= entries.len(),
                outcomes@.len() == audio_files(entries@.take(i as int)).len(),
                forall|j: int|
                    0 <= j < outcomes@.len() ==> (#[trigger] outcomes@[j]).0 == audio_files(
                        entries@.take(i as int),
                    )[j].name,
            decreases entries.len() - i,
        {
            assert(entries@.take(i + 1).drop_last() =~= entries@.take(i as int));
            assert(entries@.take(i + 1).last() == entries@[i as int]);
            let entry = &entries[i];
            if !entry.is_dir && Song::is_valid_song_path(entry.path.as_str()) {
                let outcome = self.create_song_status(entry.name.as_str(), entry.path.as_str());
                outcomes.push((entry.name.clone(), outcome));
            }
            i += 1;
        }
        assert(entries@.take(entries@.len() as int) =~= entries@);
        outcomes
    }

    /// Creates a playlist filled from a folder's immediate entries, as
    /// one logical operation: the folder is listed first (an unreadable
    /// folder is `AccessFailed` and nothing is created), the playlist row
    /// is created (a taken name is `NameAlreadyExists`), then exactly the
    /// listed audio files are inserted — per `try_catalog_audio_files`,
    /// so nothing else is ever catalogued — the resolved ids are linked,
    /// and one event per attempted file reports its outcome, in order.
    pub fn create_playlist_from_path(&self, playlist_name: String, folder_name: String) -> (r:
        Result<Vec<ScanEvent>, SongBaseError>)
        ensures
            r matches Err(e) ==> e == SongBaseError::NameAlreadyExists || e
                == SongBaseError::AccessFailed || (e matches SongBaseError::DatabaseError(_)),
            r matches Ok(events) ==> forall|j: int|
                0 <= j < events@.len() ==> !((#[trigger] events@[j]) is CantReadDir),
    {
        let entries = match folder_listing_outcome(list_dir(folder_name.as_str())) {
            Ok(entries) => entries,
            Err(e) => return Err(e),
        };
        let playlist_id = match self.create_playlist(playlist_name) {
            Ok(id) => id,
            Err(e) => return Err(e),
        };
        let outcomes = self.try_catalog_audio_files(&entries);
        let events = events_of_outcomes(&outcomes);
        let song_ids = ids_of_outcomes(&outcomes);
        match self.add_playlist_song(playlist_id, song_ids) {
            Ok(()) => Ok(events),
            Err(e) => Err(e),
        }
    }

    /// Validates where a scan would start: the given path, or the
    /// platform's default audio directory when absent (per
    /// `resolve_scan_path`); the resolved path is then acknowledged
    /// exactly when it exists on disk, else `InvalidPath` (per
    /// `acknowledge_scan_path`). The caller drives the walk itself, so
    /// this call never blocks on it.
    pub fn scan_songs(&self, path: Option<String>) -> (r: Result<String, SongBaseError>)
        ensures
            r matches Err(e) ==> e == SongBaseError::InvalidPath,
            path matches Some(p) ==> (r matches Ok(q) ==> q == p),
    {
        let resolved = match resolve_scan_path(path, default_audio_dir()) {
            Ok(p) => p,
            Err(e) => return Err(e),
        };
        let found = path_exists(resolved.as_str());
        acknowledge_scan_path(resolved, found)
    }

    /// Catalogues one listed directory: queues exactly the scannable
    /// subdirectories — every directory entry except the excluded names —
    /// in listing order, attempts exactly the audio files, and returns
    /// one event per attempted file, in order, reporting its name and
    /// outcome.
    fn process_scan_entries(&self, entries: &Vec<DirItem>, worklist: &mut Vec<String>) -> (r: Vec<
        ScanEvent,
    >)
        ensures
            final(worklist)@ == old(worklist)@ + subdir_paths(entries@),
            r@.len() == audio_files(entries@).len(),
            forall|j: int|
                0 <= j < r@.len() ==> !((#[trigger] r@[j]) is CantReadDir) && scan_event_name(r@[j])
                    == audio_files(entries@)[j].name@,
    {
        let mut events: Vec<ScanEvent> = Vec::new();
        let mut i: usize = 0;
        while i < entries.len()
            invariant
                i <= entries.len(),
                worklist@ == old(worklist)@ + subdir_paths(entries@.take(i as int)),
                events@.len() == audio_files(entries@.take(i as int)).len(),
                forall|j: int|
                    0 <= j < events@.len() ==> !((#[trigger] events@[j]) is CantReadDir)
                        && scan_event_name(events@[j]) == audio_files(
                        entries@.take(i as int),
                    )[j].name@,
            decreases entries.len() - i,
        {
            assert(entries@.take(i + 1).drop_last() =~= entries@.take(i as int));
            assert(entries@.take(i + 1).last() == entries@[i as int]);
            let entry = &entries[i];
            if entry.is_dir {
                if !is_excluded_dir(&entry.name) {
                    worklist.push(entry.path.clone());
                    assert(worklist@ =~= old(worklist)@ + subdir_paths(entries@.take(i + 1)));
                }
            } else if Song::is_valid_song_path(entry.path.as_str()) {
                let outcome = self.create_song_status(entry.name.as_str(), entry.path.as_str());
                events.push(event_for(entry.name.clone(), &outcome));
            }
            i += 1;
        }
        assert(entries@.take(entries@.len() as int) =~= entries@);
        events
    }

    /// What one listed (or unlistable) directory contributes: a readable
    /// listing is catalogued per `process_scan_entries`; a failed listing
    /// yields exactly one `CantReadDir` event naming the directory, and
    /// queues and catalogues nothing — so `CantReadDir` comes if and only
    /// if the listing failed.
    fn process_listing(&self, dir: String, listing: Result<Vec<DirItem>, ()>, worklist: &mut Vec<
        String,
    >) -> (r: Vec<ScanEvent>)
        ensures
            listing matches Ok(entries) ==> final(worklist)@ == old(worklist)@ + subdir_paths(
                entries@,
            ) && r@.len() == audio_files(entries@).len() && (forall|j: int|
                0 <= j < r@.len() ==> !((#[trigger] r@[j]) is CantReadDir) && scan_event_name(r@[j])
                    == audio_files(entries@)[j].name@),
            listing is Err ==> (r@ =~= seq![ScanEvent::CantReadDir(dir)] && final(worklist)@ == old(
                worklist,
            )@),
            listing is Err <==> (exists|j: int|
                0 <= j < r@.len() && (#[trigger] r@[j]) is CantReadDir),
    {
        match listing {
            Ok(entries) => {
                let events = self.process_scan_entries(&entries, worklist);
                events
            },
            Err(_) => {
                let mut events: Vec<ScanEvent> = Vec::new();
                events.push(ScanEvent::CantReadDir(dir));
                assert(events@[0] is CantReadDir);
                events
            },
        }
    }

    /// One step of the recursive walk: takes the most recently found
    /// directory off the worklist and hands its listing to
    /// `process_listing` — exactly the audio files catalogued, one event
    /// each; exactly the non-excluded subdirectories queued; a directory
    /// that cannot be read yields a single `CantReadDir` event naming it,
    /// and queues and catalogues nothing. The rest of the worklist is
    /// left in place, so driving this to an empty worklist walks the
    /// whole tree.
    pub fn scan_directory_step(&self, worklist: &mut Vec<String>) -> (r: Vec<ScanEvent>)
        ensures
            old(worklist)@.len() == 0 ==> final(worklist)@ == old(worklist)@ && r@.len() == 0,
            old(worklist)@.len() > 0 ==> final(worklist)@.len() >= old(worklist)@.len() - 1
                && final(worklist)@.subrange(0, old(worklist)@.len() - 1) == old(
                worklist,
            )@.drop_last(),
            old(worklist)@.len() > 0 ==> forall|j: int|
                0 <= j < r@.len() ==> ((#[trigger] r@[j]) matches ScanEvent::CantReadDir(p) ==> p
                    == old(worklist)@.last() && r@.len() == 1 && final(worklist)@ == old(
                    worklist,
                )@.drop_last()),
    {
        if worklist.len() == 0 {
            return Vec::new();
        }
        let ghost base = worklist@.drop_last();
        let dir = match worklist.pop() {
            Some(dir) => dir,
            None => return Vec::new(),
        };
        let listing = list_dir(dir.as_str());
        let events = self.process_listing(dir, listing, worklist);
        assert(worklist@.subrange(0, base.len() as int) =~= base);
        events
    }
}

} // verus!
