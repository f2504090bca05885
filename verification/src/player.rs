use vstd::prelude::*;

use crate::decimal::spec_decimal;
use crate::decimal::u32_to_string;
use crate::errors::PlayerError;
use crate::song::Playlist;
use crate::song::Song;

verus! {

/// A message from background work (scan progress, completion events,
/// diagnostics) into the control loop.
#[derive(Debug)]
pub enum PlayerAction {
    ConnectionMessage(String),
}

/// The commanded state of the audio sink.
#[derive(Debug, Clone, Copy, PartialEq, Eq, Structural)]
pub enum SinkState {
    /// No decoded stream is loaded.
    Empty,
    /// A stream is loaded and output runs.
    Playing,
    /// A stream is loaded and output is held.
    Paused,
}

/// One operation the audio layer must apply to the real output sink.
/// The engine only decides; applying the commands, in order, is the
/// caller's job.
#[derive(Debug)]
pub enum SinkCommand {
    /// Drop whatever is buffered in the sink.
    Clear,
    /// Decode this track's file and append it to the sink.
    Load(Song),
    /// Resume output.
    Play,
    /// Hold output.
    Pause,
}

impl Clone for SinkCommand {
    fn clone(&self) -> (r: Self)
        ensures
            r == *self,
    {
        match self {
            SinkCommand::Clear => SinkCommand::Clear,
            SinkCommand::Load(song) => SinkCommand::Load(song.clone()),
            SinkCommand::Play => SinkCommand::Play,
            SinkCommand::Pause => SinkCommand::Pause,
        }
    }
}

/// The playback engine: the ordered queue, the position cursor, and the
/// commanded sink state. The cursor is either `None` (playback never
/// started, or the sink was cleared) or a valid index into the queue.
pub struct Player {
    queue: Vec<Song>,
    cursor: Option<usize>,
    sink_state: SinkState,
    pending: Vec<SinkCommand>,
}

impl Player {
    /// The queued tracks, in order.
    pub closed spec fn tracks(&self) -> Seq<Song> {
        self.queue@
    }

    /// The position cursor.
    pub closed spec fn spec_cursor(&self) -> Option<int> {
        match self.cursor {
            Some(c) => Some(c as int),
            None => None,
        }
    }

    /// The commanded sink state.
    pub closed spec fn sink(&self) -> SinkState {
        self.sink_state
    }

    /// Sink commands decided but not yet taken by the audio layer.
    pub closed spec fn commands(&self) -> Seq<SinkCommand> {
        self.pending@
    }

    /// The index a forced reload plays at: the cursor, or the first track
    /// when playback never started.
    pub open spec fn effective_cursor(&self) -> int {
        match self.spec_cursor() {
            Some(c) => c,
            None => 0,
        }
    }

    /// Well-formedness: the cursor is a valid index exactly while a stream
    /// is loaded, and the queue length fits the public `u32` counters.
    pub open spec fn wf(&self) -> bool {
        &&& (self.spec_cursor() matches Some(c) ==> 0 <= c < self.tracks().len())
        &&& (self.sink() == SinkState::Empty <==> self.spec_cursor() is None)
        &&& self.tracks().len() <= 0xffff_ffff
    }

    /// A fresh engine: empty queue, no cursor, empty sink, nothing pending.
    pub fn new() -> (r: Player)
        ensures
            r.wf(),
            r.tracks() =~= Seq::<Song>::empty(),
            r.spec_cursor() is None,
            r.sink() == SinkState::Empty,
            r.commands() =~= Seq::<SinkCommand>::empty(),
    {
        Player { queue: Vec::new(), cursor: None, sink_state: SinkState::Empty, pending: Vec::new() }
    }

    /// Clears the real sink, loads the track at the cursor and starts
    /// output: the forced-reload step shared by every transition that
    /// (re)starts playback.
    fn load_at_cursor(&mut self)
        requires
            old(self).spec_cursor() matches Some(c) && 0 <= c < old(self).tracks().len(),
        ensures
            final(self).tracks() == old(self).tracks(),
            final(self).spec_cursor() == old(self).spec_cursor(),
            final(self).sink() == SinkState::Playing,
            final(self).commands() == old(self).commands() + seq![
                SinkCommand::Clear,
                SinkCommand::Load(old(self).tracks()[old(self).spec_cursor().unwrap()]),
                SinkCommand::Play,
            ],
    {
        let c = match self.cursor {
            Some(c) => c,
            None => 0,
        };
        let song = self.queue[c].clone();
        self.pending.push(SinkCommand::Clear);
        self.pending.push(SinkCommand::Load(song));
        self.pending.push(SinkCommand::Play);
        self.sink_state = SinkState::Playing;
        assert(self.pending@ =~= old(self).pending@ + seq![
            SinkCommand::Clear,
            SinkCommand::Load(old(self).tracks()[old(self).spec_cursor().unwrap()]),
            SinkCommand::Play,
        ]);
    }

    /// Appends one track. If the sink was empty, playback immediately
    /// starts on the new track (forced reload) and the result is its
    /// index; otherwise nothing changes about playback and the result is
    /// the new queue length.
    pub fn add_track(&mut self, song: Song) -> (r: Result<u32, PlayerError>)
        requires
            old(self).wf(),
            old(self).tracks().len() < 0xffff_ffff,
        ensures
            final(self).wf(),
            final(self).tracks() == old(self).tracks().push(song),
            old(self).sink() == SinkState::Empty ==> final(self).spec_cursor() == Some(
                old(self).tracks().len() as int,
            ) && final(self).sink() == SinkState::Playing && final(self).commands() == old(self).commands() + seq![
                SinkCommand::Clear,
                SinkCommand::Load(song),
                SinkCommand::Play,
            ] && r == Ok::<u32, PlayerError>(old(self).tracks().len() as u32),
            old(self).sink() != SinkState::Empty ==> final(self).spec_cursor() == old(self).spec_cursor() && final(self).sink() == old(self).sink() && final(self).commands()
                == old(self).commands() && r == Ok::<u32, PlayerError>(
                (old(self).tracks().len() + 1) as u32,
            ),
    {
        let new_index = self.queue.len();
        self.queue.push(song);
        if matches!(self.sink_state, SinkState::Empty) {
            self.cursor = Some(new_index);
            self.load_at_cursor();
            Ok(new_index as u32)
        } else {
            Ok(self.queue.len() as u32)
        }
    }

    /// Appends a playlist's tracks in order. If the sink was empty and the
    /// queue ends up non-empty, playback starts with a forced reload at
    /// the effective cursor; adding an empty playlist to an empty queue
    /// fails with `EmptyQueue`, as a forced play on an empty queue does.
    pub fn add_playlist(&mut self, playlist: Playlist) -> (r: Result<u32, PlayerError>)
        requires
            old(self).wf(),
            old(self).tracks().len() + playlist.songs@.len() <= 0xffff_ffff,
        ensures
            final(self).wf(),
            final(self).tracks() == old(self).tracks() + playlist.songs@,
            old(self).sink() != SinkState::Empty ==> final(self).spec_cursor() == old(self).spec_cursor() && final(self).sink() == old(self).sink() && final(self).commands()
                == old(self).commands() && r == Ok::<u32, PlayerError>(
                (old(self).tracks().len() + playlist.songs@.len()) as u32,
            ),
            old(self).sink() == SinkState::Empty && old(self).tracks().len() + playlist.songs@.len()
                == 0 ==> r == Err::<u32, PlayerError>(PlayerError::EmptyQueue) && final(self).sink()
                == SinkState::Empty && final(self).commands() == old(self).commands(),
            old(self).sink() == SinkState::Empty && old(self).tracks().len() + playlist.songs@.len()
                > 0 ==> final(self).spec_cursor() == Some(0int) && final(self).sink()
                == SinkState::Playing && final(self).commands() == old(self).commands() + seq![
                SinkCommand::Clear,
                SinkCommand::Load(final(self).tracks()[0]),
                SinkCommand::Play,
            ] && r == Ok::<u32, PlayerError>(
                (old(self).tracks().len() + playlist.songs@.len()) as u32,
            ),
    {
        let mut songs = playlist.songs;
        self.queue.append(&mut songs);
        if matches!(self.sink_state, SinkState::Empty) {
            if self.queue.len() == 0 {
                return Err(PlayerError::EmptyQueue);
            }
            self.cursor = Some(0);
            self.load_at_cursor();
        }
        Ok(self.queue.len() as u32)
    }

    /// Forced: clears the sink and reloads the stream at the effective
    /// cursor, transitioning to `Playing`. Not forced: resumes a paused
    /// sink without reloading; resuming while already playing, or while
    /// nothing is loaded, changes no state. Fails with `EmptyQueue`
    /// exactly when the queue is empty.
    pub fn play(&mut self, forced: bool) -> (r: Result<u32, PlayerError>)
        requires
            old(self).wf(),
        ensures
            final(self).wf(),
            final(self).tracks() == old(self).tracks(),
            old(self).tracks().len() == 0 <==> r == Err::<u32, PlayerError>(
                PlayerError::EmptyQueue,
            ),
            old(self).tracks().len() == 0 ==> final(self).spec_cursor() == old(self).spec_cursor()
                && final(self).sink() == old(self).sink() && final(self).commands() == old(self).commands(),
            old(self).tracks().len() > 0 && forced ==> final(self).spec_cursor() == Some(
                old(self).effective_cursor(),
            ) && final(self).sink() == SinkState::Playing && final(self).commands() == old(self).commands() + seq![
                SinkCommand::Clear,
                SinkCommand::Load(old(self).tracks()[old(self).effective_cursor()]),
                SinkCommand::Play,
            ] && r == Ok::<u32, PlayerError>(old(self).effective_cursor() as u32),
            old(self).tracks().len() > 0 && !forced ==> final(self).spec_cursor() == old(self).spec_cursor() && final(self).sink() == (if old(self).sink() == SinkState::Paused {
                SinkState::Playing
            } else {
                old(self).sink()
            }) && final(self).commands() == old(self).commands() + seq![SinkCommand::Play] && r
                == Ok::<u32, PlayerError>(old(self).effective_cursor() as u32),
    {
        if self.queue.len() == 0 {
            return Err(PlayerError::EmptyQueue);
        }
        let eff = match self.cursor {
            Some(c) => c,
            None => 0,
        };
        if forced {
            self.cursor = Some(eff);
            self.load_at_cursor();
        } else {
            self.pending.push(SinkCommand::Play);
            if matches!(self.sink_state, SinkState::Paused) {
                self.sink_state = SinkState::Playing;
            }
            assert(self.pending@ =~= old(self).pending@ + seq![SinkCommand::Play]);
        }
        Ok(eff as u32)
    }

    /// Holds output: `Playing` becomes `Paused`; pausing a paused or an
    /// empty sink changes no state.
    pub fn pause(&mut self)
        requires
            old(self).wf(),
        ensures
            final(self).wf(),
            final(self).tracks() == old(self).tracks(),
            final(self).spec_cursor() == old(self).spec_cursor(),
            final(self).sink() == (if old(self).sink() == SinkState::Playing {
                SinkState::Paused
            } else {
                old(self).sink()
            }),
            final(self).commands() == old(self).commands() + seq![SinkCommand::Pause],
    {
        self.pending.push(SinkCommand::Pause);
        if matches!(self.sink_state, SinkState::Playing) {
            self.sink_state = SinkState::Paused;
        }
        assert(self.pending@ =~= old(self).pending@ + seq![SinkCommand::Pause]);
    }

    /// Resumes a paused sink ("player resumed"), otherwise holds it
    /// ("player paused").
    pub fn toggle_player(&mut self) -> (r: String)
        requires
            old(self).wf(),
        ensures
            final(self).wf(),
            final(self).tracks() == old(self).tracks(),
            final(self).spec_cursor() == old(self).spec_cursor(),
            old(self).sink() == SinkState::Paused ==> final(self).sink() == SinkState::Playing
                && final(self).commands() == old(self).commands() + seq![SinkCommand::Play] && r@
                == "player resumed"@,
            old(self).sink() != SinkState::Paused ==> final(self).sink() == (
            if old(self).sink() == SinkState::Playing {
                SinkState::Paused
            } else {
                old(self).sink()
            }) && final(self).commands() == old(self).commands() + seq![SinkCommand::Pause] && r@
                == "player paused"@,
    {
        if matches!(self.sink_state, SinkState::Paused) {
            self.pending.push(SinkCommand::Play);
            self.sink_state = SinkState::Playing;
            assert(self.pending@ =~= old(self).pending@ + seq![SinkCommand::Play]);
            String::from_str("player resumed")
        } else {
            self.pause();
            String::from_str("player paused")
        }
    }

    /// Advances the cursor and forces a reload. Fails with
    /// `IndexOutOfBounds` exactly when the index after the effective
    /// cursor is not a valid queue index — the bound check is
    /// `cursor + 1 >= length`, so the last track is reachable and nothing
    /// past it is.
    pub fn next_track(&mut self) -> (r: Result<u32, PlayerError>)
        requires
            old(self).wf(),
        ensures
            final(self).wf(),
            final(self).tracks() == old(self).tracks(),
            old(self).effective_cursor() + 1 >= old(self).tracks().len() <==> r == Err::<
                u32,
                PlayerError,
            >(PlayerError::IndexOutOfBounds),
            old(self).effective_cursor() + 1 >= old(self).tracks().len() ==> final(self).spec_cursor() == old(self).spec_cursor() && final(self).sink() == old(self).sink()
                && final(self).commands() == old(self).commands(),
            old(self).effective_cursor() + 1 < old(self).tracks().len() ==> final(self).spec_cursor() == Some(old(self).effective_cursor() + 1) && final(self).sink()
                == SinkState::Playing && final(self).commands() == old(self).commands() + seq![
                SinkCommand::Clear,
                SinkCommand::Load(old(self).tracks()[old(self).effective_cursor() + 1]),
                SinkCommand::Play,
            ] && r == Ok::<u32, PlayerError>((old(self).effective_cursor() + 1) as u32),
    {
        let eff = match self.cursor {
            Some(c) => c,
            None => 0,
        };
        if eff + 1 >= self.queue.len() {
            Err(PlayerError::IndexOutOfBounds)
        } else {
            self.cursor = Some(eff + 1);
            self.load_at_cursor();
            Ok((eff + 1) as u32)
        }
    }

    /// Jumps to the given one-based queue position: fails with
    /// `IndexOutOfBounds` for every position outside `[1, length]`, and
    /// reloads playback at the chosen track for every position inside it.
    pub fn jump_track(&mut self, position: usize) -> (r: Result<u32, PlayerError>)
        requires
            old(self).wf(),
        ensures
            final(self).wf(),
            final(self).tracks() == old(self).tracks(),
            position < 1 || position > old(self).tracks().len() <==> r == Err::<u32, PlayerError>(
                PlayerError::IndexOutOfBounds,
            ),
            position < 1 || position > old(self).tracks().len() ==> final(self).spec_cursor()
                == old(self).spec_cursor() && final(self).sink() == old(self).sink() && final(self).commands() == old(self).commands(),
            1 <= position <= old(self).tracks().len() ==> final(self).spec_cursor() == Some(
                position - 1,
            ) && final(self).sink() == SinkState::Playing && final(self).commands() == old(self).commands() + seq![
                SinkCommand::Clear,
                SinkCommand::Load(old(self).tracks()[position - 1]),
                SinkCommand::Play,
            ] && r == Ok::<u32, PlayerError>((position - 1) as u32),
    {
        if position == 0 || position > self.queue.len() {
            return Err(PlayerError::IndexOutOfBounds);
        }
        self.cursor = Some(position - 1);
        self.load_at_cursor();
        Ok((position - 1) as u32)
    }

    /// The cursor index a removal leaves behind, for a non-empty remaining
    /// queue: a cursor past the removed entry is decremented so it keeps
    /// naming the same logical track; a cursor on the removed entry stays
    /// (clamped to the last remaining index); an earlier cursor, or a
    /// never-started one, is untouched.
    pub open spec fn cursor_after_remove(c: Option<int>, removed: int, new_len: int) -> int {
        match c {
            None => 0,
            Some(c) => if removed < c {
                c - 1
            } else if c < new_len {
                c
            } else {
                new_len - 1
            },
        }
    }

    /// Removes the track at the given one-based position. Out of
    /// `[1, length]` fails with `IndexOutOfBounds`. If the removal empties
    /// the queue, the sink is cleared and the outcome reports an empty
    /// queue — no error. Otherwise playback reloads at the adjusted
    /// cursor and the outcome names the removed and the playing track.
    pub fn remove_track(&mut self, song_id: usize) -> (r: Result<String, PlayerError>)
        requires
            old(self).wf(),
        ensures
            final(self).wf(),
            song_id == 0 || song_id > old(self).tracks().len() <==> r == Err::<String, PlayerError>(
                PlayerError::IndexOutOfBounds,
            ),
            song_id == 0 || song_id > old(self).tracks().len() ==> final(self).tracks() == old(self).tracks() && final(self).spec_cursor() == old(self).spec_cursor() && final(self).sink()
                == old(self).sink() && final(self).commands() == old(self).commands(),
            1 <= song_id <= old(self).tracks().len() ==> final(self).tracks() == old(self).tracks().remove(song_id - 1),
            1 <= song_id <= old(self).tracks().len() && old(self).tracks().len() == 1 ==> final(self).spec_cursor() is None && final(self).sink() == SinkState::Empty && final(self).commands() == old(self).commands() + seq![SinkCommand::Clear] && (r matches Ok(m)
                && m@ == "Removed "@ + old(self).tracks()[song_id - 1].song_name@
                + " from queue! It's Empty Now!"@),
            1 <= song_id <= old(self).tracks().len() && old(self).tracks().len() > 1 ==> {
                let new_cursor = Self::cursor_after_remove(
                    old(self).spec_cursor(),
                    song_id - 1,
                    old(self).tracks().len() - 1,
                );
                final(self).spec_cursor() == Some(new_cursor) && final(self).sink()
                    == SinkState::Playing && final(self).commands() == old(self).commands() + seq![
                    SinkCommand::Clear,
                    SinkCommand::Load(final(self).tracks()[new_cursor]),
                    SinkCommand::Play,
                ] && (r matches Ok(m) && m@ == "Removed "@ + old(self).tracks()[song_id - 1].song_name@ + ", Now Playing "@ + final(self).tracks()[new_cursor].song_name@ + " @ "@ + spec_decimal(new_cursor as nat))
            },
    {
        if song_id == 0 || song_id > self.queue.len() {
            return Err(PlayerError::IndexOutOfBounds);
        }
        let removed = self.queue.remove(song_id - 1);
        if self.queue.len() == 0 {
            self.cursor = None;
            self.sink_state = SinkState::Empty;
            self.pending.push(SinkCommand::Clear);
            assert(self.pending@ =~= old(self).pending@ + seq![SinkCommand::Clear]);
            let m = String::from_str("Removed ").concat(removed.song_name.as_str()).concat(
                " from queue! It's Empty Now!",
            );
            return Ok(m);
        }
        let new_cursor: usize = match self.cursor {
            None => 0,
            Some(c) => if song_id - 1 < c {
                c - 1
            } else if c < self.queue.len() {
                c
            } else {
                self.queue.len() - 1
            },
        };
        self.cursor = Some(new_cursor);
        self.load_at_cursor();
        let index_text = u32_to_string(new_cursor as u32);
        let m = String::from_str("Removed ").concat(removed.song_name.as_str()).concat(
            ", Now Playing ",
        ).concat(self.queue[new_cursor].song_name.as_str()).concat(" @ ").concat(
            index_text.as_str(),
        );
        Ok(m)
    }

    /// Empties the queue and clears the sink.
    pub fn clear_tracks(&mut self)
        requires
            old(self).wf(),
        ensures
            final(self).wf(),
            final(self).tracks() =~= Seq::<Song>::empty(),
            final(self).spec_cursor() is None,
            final(self).sink() == SinkState::Empty,
            final(self).commands() == old(self).commands() + seq![SinkCommand::Clear],
    {
        self.queue.clear();
        self.cursor = None;
        self.sink_state = SinkState::Empty;
        self.pending.push(SinkCommand::Clear);
        assert(self.pending@ =~= old(self).pending@ + seq![SinkCommand::Clear]);
    }

    /// Hands the decided sink commands to the audio layer, oldest first,
    /// and forgets them.
    pub fn take_commands(&mut self) -> (r: Vec<SinkCommand>)
        ensures
            r@ == old(self).commands(),
            final(self).commands() =~= Seq::<SinkCommand>::empty(),
            final(self).tracks() == old(self).tracks(),
            final(self).spec_cursor() == old(self).spec_cursor(),
            final(self).sink() == old(self).sink(),
    {
        let mut out: Vec<SinkCommand> = Vec::new();
        core::mem::swap(&mut self.pending, &mut out);
        out
    }

    /// The queued track names, in queue order.
    pub fn get_queue(&self) -> (r: Vec<String>)
        ensures
            r@.len() == self.tracks().len(),
            forall|i: int| 0 <= i < r@.len() ==> r@[i]@ == self.tracks()[i].song_name@,
    {
        let mut names: Vec<String> = Vec::new();
        let mut i: usize = 0;
        while i < self.queue.len()
            invariant
                i <= self.queue.len(),
                names@.len() == i,
                forall|j: int| 0 <= j < i ==> names@[j]@ == self.tracks()[j].song_name@,
            decreases self.queue.len() - i,
        {
            names.push(self.queue[i].song_name.clone());
            i += 1;
        }
        names
    }

    /// The queued catalog ids, in queue order.
    pub fn get_queue_ids(&self) -> (r: Vec<u32>)
        ensures
            r@.len() == self.tracks().len(),
            forall|i: int| 0 <= i < r@.len() ==> r@[i] == self.tracks()[i].song_id,
    {
        let mut ids: Vec<u32> = Vec::new();
        let mut i: usize = 0;
        while i < self.queue.len()
            invariant
                i <= self.queue.len(),
                ids@.len() == i,
                forall|j: int| 0 <= j < i ==> ids@[j] == self.tracks()[j].song_id,
            decreases self.queue.len() - i,
        {
            ids.push(self.queue[i].song_id);
            i += 1;
        }
        ids
    }

    /// The name of the track at the given zero-based index, or
    /// `IndexOutOfBounds`.
    pub fn get_song_detail(&self, index: usize) -> (r: Result<String, PlayerError>)
        ensures
            index < self.tracks().len() <==> (r matches Ok(n) && n@
                == self.tracks()[index as int].song_name@),
            index >= self.tracks().len() <==> r == Err::<String, PlayerError>(
                PlayerError::IndexOutOfBounds,
            ),
    {
        if index >= self.queue.len() {
            Err(PlayerError::IndexOutOfBounds)
        } else {
            Ok(self.queue[index].song_name.clone())
        }
    }

    /// The effective cursor index.
    pub fn current_song(&self) -> (r: u32)
        requires
            self.wf(),
        ensures
            r as int == self.effective_cursor(),
    {
        match self.cursor {
            Some(c) => c as u32,
            None => 0,
        }
    }

    /// The name of the track under the cursor; asks that playback has
    /// started.
    pub fn current_song_name(&self) -> (r: String)
        requires
            self.wf(),
            self.spec_cursor() is Some,
        ensures
            r@ == self.tracks()[self.spec_cursor().unwrap()].song_name@,
    {
        let c = match self.cursor {
            Some(c) => c,
            None => 0,
        };
        self.queue[c].song_name.clone()
    }

    /// Whether the commanded sink state is `Empty`.
    pub fn is_sink_empty(&self) -> (r: bool)
        ensures
            r == (self.sink() == SinkState::Empty),
    {
        matches!(self.sink_state, SinkState::Empty)
    }

    /// Whether the cursor stands on the last queued track (or past every
    /// track, on an empty queue): the exact boundary is
    /// `cursor + 1 >= length`.
    pub fn is_last(&self) -> (r: bool)
        requires
            self.wf(),
        ensures
            r == (self.effective_cursor() + 1 >= self.tracks().len()),
    {
        let eff = match self.cursor {
            Some(c) => c,
            None => 0,
        };
        eff + 1 >= self.queue.len()
    }
}

} // verus!
