use vstd::prelude::*;

use crate::errors::SongError;

verus! {

/// What the user asked to enqueue.
#[derive(Debug)]
pub enum Playable {
    Song(String),
    Playlist(u8),
    Nothing,
    Whole,
}

/// A playlist subcommand, as the command layer hands it to the core.
/// Paths travel as plain strings.
#[derive(Debug)]
pub enum PlaylistActions {
    Show,
    View(Option<u8>),
    Create(Option<String>, Option<String>),
    Add(u8, Option<Vec<String>>),
    AddAll(Option<u8>),
    Invalid,
}

/// Lower-cases the letters that can occur in an allowed audio extension;
/// every other character is left as it is.
pub open spec fn lower_ext_char(c: char) -> char {
    if c == 'M' {
        'm'
    } else if c == 'P' {
        'p'
    } else if c == 'O' {
        'o'
    } else if c == 'G' {
        'g'
    } else if c == 'W' {
        'w'
    } else if c == 'A' {
        'a'
    } else if c == 'V' {
        'v'
    } else {
        c
    }
}

/// The extension names one of the allowed audio formats, compared
/// case-insensitively: `mp3`, `ogg` or `wav`.
pub open spec fn is_allowed_extension(ext: Seq<char>) -> bool {
    ext.len() == 3 && {
        let a = lower_ext_char(ext[0]);
        let b = lower_ext_char(ext[1]);
        let c = lower_ext_char(ext[2]);
        (a == 'm' && b == 'p' && c == '3') || (a == 'o' && b == 'g' && c == 'g') || (a == 'w' && b
            == 'a' && c == 'v')
    }
}

/// The dot at index `d` starts the extension of path `p`: it lies inside
/// the final path component, is not that component's first character, and
/// no other dot follows it.
pub open spec fn is_extension_dot(p: Seq<char>, d: int) -> bool {
    0 < d < p.len() && p[d] == '.' && p[d - 1] != '/' && (forall|j: int|
        d < j < p.len() ==> p[j] != '.' && p[j] != '/')
}

/// The path's final component has an extension in the allow-set.
pub open spec fn has_allowed_extension(p: Seq<char>) -> bool {
    exists|d: int|
        is_extension_dot(p, d) && is_allowed_extension(p.subrange(d + 1, p.len() as int))
}

fn lower_char(c: char) -> (r: char)
    ensures
        r == lower_ext_char(c),
{
    if c == 'M' {
        'm'
    } else if c == 'P' {
        'p'
    } else if c == 'O' {
        'o'
    } else if c == 'G' {
        'g'
    } else if c == 'W' {
        'w'
    } else if c == 'A' {
        'a'
    } else if c == 'V' {
        'v'
    } else {
        c
    }
}

/// One validated playable audio file reference. A value is immutable once
/// constructed; a catalog id of 0 stands for "not yet assigned".
#[derive(Debug)]
pub struct Song {
    pub song_id: u32,
    pub song_name: String,
    pub song_path: String,
}

impl Clone for Song {
    fn clone(&self) -> (r: Self)
        ensures
            r == *self,
    {
        Song {
            song_id: self.song_id,
            song_name: self.song_name.clone(),
            song_path: self.song_path.clone(),
        }
    }
}

/// Relies on std::path::Path::exists: whether the path points at an entity
/// that exists on disk at the time of the call.
#[verifier::external_body]
pub(crate) fn path_exists(path: &str) -> bool {
    std::path::Path::new(path).exists()
}

impl Song {
    /// Whether the path's extension is one of the allowed audio formats
    /// (`mp3`, `ogg`, `wav`, case-insensitive).
    pub fn is_valid_song_path(path: &str) -> (r: bool)
        ensures
            r == has_allowed_extension(path@),
    {
        let ghost p = path@;
        let n = path.unicode_len();
        let mut i: usize = n;
        while i > 0
            invariant
                i <= n,
                n == p.len(),
                p == path@,
                forall|j: int| i <= j < n ==> p[j] != '.' && p[j] != '/',
            decreases i,
        {
            let c = path.get_char(i - 1);
            if c == '/' {
                assert forall|d: int| !is_extension_dot(p, d) by {
                    if i <= d < n {
                        assert(p[d] != '.');
                    } else if 0 < d < i - 1 {
                        assert(d < i - 1 < p.len());
                        assert(p[i - 1] == '/');
                    }
                }
                return false;
            }
            if c == '.' {
                assert forall|d: int| d != i - 1 implies !is_extension_dot(p, d) by {
                    if i <= d < n {
                        assert(p[d] != '.');
                    } else if 0 < d < i - 1 {
                        assert(d < i - 1 < p.len());
                        assert(p[i - 1] == '.');
                    }
                }
                if i - 1 == 0 {
                    return false;
                }
                let prev = path.get_char(i - 2);
                if prev == '/' {
                    return false;
                }
                assert(is_extension_dot(p, i - 1));
                let ghost ext = p.subrange(i as int, n as int);
                if n - i != 3 {
                    assert(ext.len() != 3);
                    return false;
                }
                let a = lower_char(path.get_char(i));
                let b = lower_char(path.get_char(i + 1));
                let c3 = lower_char(path.get_char(i + 2));
                assert(ext[0] == p[i as int] && ext[1] == p[i + 1] && ext[2] == p[i + 2]);
                let ok = (a == 'm' && b == 'p' && c3 == '3') || (a == 'o' && b == 'g' && c3 == 'g')
                    || (a == 'w' && b == 'a' && c3 == 'v');
                assert(ok == is_allowed_extension(ext));
                if ok {
                    assert(has_allowed_extension(p)) by {
                        assert(is_extension_dot(p, i - 1) && is_allowed_extension(
                            p.subrange(i as int, n as int),
                        ));
                    }
                }
                return ok;
            }
            i -= 1;
        }
        assert forall|d: int| !is_extension_dot(p, d) by {
            if 0 < d < n {
                assert(p[d] != '.');
            }
        }
        false
    }

    /// Validates one track from plain facts: the catalog id, the display
    /// name, the filesystem path, and whether that path was found on disk.
    /// Fails `InvalidSongPath` when the path was not found, and
    /// `InvalidSongFormat` when its extension is not an allowed audio
    /// format; otherwise the track carries the given fields unchanged.
    pub fn build(id: u32, song_name: &str, song_path: &str, path_found: bool) -> (r: Result<
        Song,
        SongError,
    >)
        ensures
            !path_found <==> r == Err::<Song, SongError>(SongError::InvalidSongPath),
            path_found && !has_allowed_extension(song_path@) <==> r == Err::<Song, SongError>(
                SongError::InvalidSongFormat,
            ),
            path_found && has_allowed_extension(song_path@) <==> (r matches Ok(s) && s.song_id
                == id && s.song_name@ == song_name@ && s.song_path@ == song_path@),
    {
        if !path_found {
            return Err(SongError::InvalidSongPath);
        }
        if !Self::is_valid_song_path(song_path) {
            return Err(SongError::InvalidSongFormat);
        }
        Ok(Song {
            song_id: id,
            song_name: String::from_str(song_name),
            song_path: String::from_str(song_path),
        })
    }

    /// Validates and constructs one track, checking the path on disk.
    /// Whether the path exists is a fact of the filesystem at call time;
    /// everything else about the result is pinned down.
    pub fn new(id: u32, song_name: &str, song_path: &str) -> (r: Result<Song, SongError>)
        ensures
            r matches Err(e) ==> e == SongError::InvalidSongPath || e
                == SongError::InvalidSongFormat,
            r matches Err(e) && e == SongError::InvalidSongFormat ==> !has_allowed_extension(
                song_path@,
            ),
            !has_allowed_extension(song_path@) ==> r is Err,
            r matches Ok(s) ==> s.song_id == id && s.song_name@ == song_name@ && s.song_path@
                == song_path@ && has_allowed_extension(song_path@),
    {
        let found = path_exists(song_path);
        Self::build(id, song_name, song_path, found)
    }
}

/// An ordered collection of tracks under one name. Membership order is
/// insertion order.
#[derive(Debug)]
pub struct Playlist {
    pub playlist_name: String,
    pub songs: Vec<Song>,
}

impl Playlist {
    /// An empty playlist with the given name.
    pub fn new(playlist_name: &str) -> (r: Playlist)
        ensures
            r.playlist_name@ == playlist_name@,
            r.songs@ =~= Seq::<Song>::empty(),
    {
        Playlist { playlist_name: String::from_str(playlist_name), songs: Vec::new() }
    }

    /// Appends one track at the end of the membership.
    pub fn add_song(&mut self, song: Song)
        ensures
            final(self).playlist_name == old(self).playlist_name,
            final(self).songs@ == old(self).songs@.push(song),
    {
        self.songs.push(song)
    }
}

} // verus!
