use vstd::prelude::*;

verus! {

/// Failures of validating or opening a single track.
#[derive(Debug, PartialEq, Eq)]
pub enum SongError {
    /// The filesystem path did not exist at validation time.
    InvalidSongPath,
    /// The extension is absent or not one of the allowed audio formats.
    InvalidSongFormat,
    /// The backing file could not be opened for playback.
    SongAccessError,
}

impl SongError {
    /// Human-readable description, in place of a `Display` impl.
    pub fn message(&self) -> (r: String)
        ensures
            r@ == self.spec_message(),
    {
        match self {
            SongError::InvalidSongPath => String::from_str("Song Path Cannot be Found"),
            SongError::InvalidSongFormat => String::from_str("Only ogg, wav, mp3 are supported"),
            SongError::SongAccessError => String::from_str("No Access to Song File"),
        }
    }

    pub open spec fn spec_message(&self) -> Seq<char> {
        match self {
            SongError::InvalidSongPath => "Song Path Cannot be Found"@,
            SongError::InvalidSongFormat => "Only ogg, wav, mp3 are supported"@,
            SongError::SongAccessError => "No Access to Song File"@,
        }
    }
}

/// Failures of the playback engine and its queue.
#[derive(Debug, PartialEq, Eq)]
pub enum PlayerError {
    /// A track-level failure surfaced through the engine.
    SongError(SongError),
    /// The cursor already stands on the last queued track.
    LastSong,
    /// The operation needs a non-empty queue.
    EmptyQueue,
    /// The given queue position is not occupied.
    IndexOutOfBounds,
}

impl PlayerError {
    /// Human-readable description, in place of a `Display` impl.
    pub fn message(&self) -> (r: String)
        ensures
            r@ == self.spec_message(),
    {
        match self {
            PlayerError::SongError(song_err) => song_err.message(),
            PlayerError::LastSong => String::from_str("No More Song in the Queue"),
            PlayerError::EmptyQueue => String::from_str("Queue is Empty"),
            PlayerError::IndexOutOfBounds => String::from_str("Given Song Index is Invalid"),
        }
    }

    pub open spec fn spec_message(&self) -> Seq<char> {
        match self {
            PlayerError::SongError(song_err) => song_err.spec_message(),
            PlayerError::LastSong => "No More Song in the Queue"@,
            PlayerError::EmptyQueue => "Queue is Empty"@,
            PlayerError::IndexOutOfBounds => "Given Song Index is Invalid"@,
        }
    }
}

/// Failures of the catalog store; low-level storage diagnostics travel
/// as a wrapped detail string and never as a raw storage-engine error.
#[derive(Debug, PartialEq, Eq)]
pub enum SongBaseError {
    /// No row matched the lookup.
    EntryNotFound,
    /// The catalog file or a directory could not be accessed.
    AccessFailed,
    /// A track-level failure surfaced through the catalog.
    SongError(SongError),
    /// The given or default scan path does not exist.
    InvalidPath,
    /// A playlist with the requested name already exists.
    NameAlreadyExists,
    /// Any other storage failure, with the engine's diagnostic text.
    DatabaseError(String),
}

impl SongBaseError {
    /// Human-readable description, in place of a `Display` impl.
    pub fn message(&self) -> (r: String)
        ensures
            r@ == self.spec_message(),
    {
        match self {
            SongBaseError::AccessFailed => String::from_str("Cannot Access the Database"),
            SongBaseError::EntryNotFound => String::from_str("Entry Not Found"),
            SongBaseError::SongError(err) => err.message(),
            SongBaseError::InvalidPath => String::from_str("The given path does not exists"),
            SongBaseError::NameAlreadyExists => String::from_str("Playlist Name Already Exists"),
            SongBaseError::DatabaseError(err) => String::from_str("Database error: ").concat(
                err.as_str(),
            ),
        }
    }

    pub open spec fn spec_message(&self) -> Seq<char> {
        match self {
            SongBaseError::AccessFailed => "Cannot Access the Database"@,
            SongBaseError::EntryNotFound => "Entry Not Found"@,
            SongBaseError::SongError(err) => err.spec_message(),
            SongBaseError::InvalidPath => "The given path does not exists"@,
            SongBaseError::NameAlreadyExists => "Playlist Name Already Exists"@,
            SongBaseError::DatabaseError(err) => "Database error: "@ + err@,
        }
    }
}

} // verus!
