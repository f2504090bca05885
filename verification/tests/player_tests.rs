use bz_player::Player;
use bz_player::PlayerError;
use bz_player::SinkCommand;
use bz_player::Song;

fn track(id: u32, name: &str) -> Song {
    Song::build(id, name, &format!("{}.mp3", name), true).expect("valid track")
}

fn player_with(names: &[&str]) -> Player {
    let mut player = Player::new();
    for (i, name) in names.iter().enumerate() {
        player.add_track(track(i as u32 + 1, name)).expect("added");
    }
    player
}

#[test]
fn fresh_player_is_empty() {
    let mut player = Player::new();
    assert!(player.is_sink_empty());
    assert_eq!(player.current_song(), 0);
    assert!(player.get_queue().is_empty());
    assert!(player.take_commands().is_empty());
}

#[test]
fn first_add_starts_playback_on_the_new_track() {
    let mut player = Player::new();
    let r = player.add_track(track(1, "a"));
    assert_eq!(r.unwrap(), 0);
    assert!(!player.is_sink_empty());
    let cmds = player.take_commands();
    assert_eq!(cmds.len(), 3);
    assert!(matches!(cmds[0], SinkCommand::Clear));
    assert!(matches!(&cmds[1], SinkCommand::Load(s) if s.song_name == "a"));
    assert!(matches!(cmds[2], SinkCommand::Play));
}

#[test]
fn later_adds_only_report_the_new_length() {
    let mut player = Player::new();
    player.add_track(track(1, "a")).unwrap();
    player.take_commands();
    let r = player.add_track(track(2, "b"));
    assert_eq!(r.unwrap(), 2);
    assert!(player.take_commands().is_empty());
    assert_eq!(player.current_song(), 0);
}

#[test]
fn play_on_empty_queue_fails() {
    let mut player = Player::new();
    assert!(matches!(player.play(true), Err(PlayerError::EmptyQueue)));
    assert!(matches!(player.play(false), Err(PlayerError::EmptyQueue)));
}

#[test]
fn pause_and_resume() {
    let mut player = player_with(&["a"]);
    player.take_commands();
    player.pause();
    let cmds = player.take_commands();
    assert!(matches!(cmds[..], [SinkCommand::Pause]));
    let r = player.play(false);
    assert_eq!(r.unwrap(), 0);
    let cmds = player.take_commands();
    assert!(matches!(cmds[..], [SinkCommand::Play]));
}

#[test]
fn toggle_player_flips_between_paused_and_playing() {
    let mut player = player_with(&["a"]);
    assert_eq!(player.toggle_player(), "player paused");
    assert_eq!(player.toggle_player(), "player resumed");
    assert_eq!(player.toggle_player(), "player paused");
}

#[test]
fn next_track_advances_and_stops_at_the_last() {
    // Queue [A, B, C], cursor at A: two advances reach C, a third fails
    // and the cursor stays.
    let mut player = player_with(&["a", "b", "c"]);
    assert_eq!(player.current_song(), 0);
    assert_eq!(player.next_track().unwrap(), 1);
    assert_eq!(player.next_track().unwrap(), 2);
    assert!(matches!(
        player.next_track(),
        Err(PlayerError::IndexOutOfBounds)
    ));
    assert_eq!(player.current_song(), 2);
    assert_eq!(player.current_song_name(), "c");
}

#[test]
fn jump_track_is_one_based_and_bounded() {
    let mut player = player_with(&["a", "b", "c"]);
    player.take_commands();
    assert!(matches!(player.jump_track(0), Err(PlayerError::IndexOutOfBounds)));
    assert!(matches!(player.jump_track(4), Err(PlayerError::IndexOutOfBounds)));
    assert!(player.take_commands().is_empty());
    assert_eq!(player.jump_track(1).unwrap(), 0);
    assert_eq!(player.current_song(), 0);
    assert_eq!(player.jump_track(3).unwrap(), 2);
    assert_eq!(player.current_song(), 2);
    let cmds = player.take_commands();
    assert_eq!(cmds.len(), 6);
    assert!(matches!(&cmds[4], SinkCommand::Load(s) if s.song_name == "c"));
}

#[test]
fn jump_track_returns_the_chosen_index() {
    let mut player = player_with(&["a", "b"]);
    assert_eq!(player.jump_track(2).unwrap(), 1);
    assert_eq!(player.current_song_name(), "b");
    assert!(matches!(
        player.jump_track(3),
        Err(PlayerError::IndexOutOfBounds)
    ));
}

#[test]
fn remove_track_bounds() {
    let mut player = player_with(&["a", "b"]);
    assert!(matches!(
        player.remove_track(0),
        Err(PlayerError::IndexOutOfBounds)
    ));
    assert!(matches!(
        player.remove_track(3),
        Err(PlayerError::IndexOutOfBounds)
    ));
}

#[test]
fn removing_every_entry_empties_the_sink_without_error() {
    let mut player = player_with(&["a", "b"]);
    assert!(!player.is_sink_empty());
    let first = player.remove_track(1).expect("not an error");
    assert_eq!(first, "Removed a, Now Playing b @ 0");
    assert!(!player.is_sink_empty());
    let second = player.remove_track(1).expect("not an error");
    assert_eq!(second, "Removed b from queue! It's Empty Now!");
    assert!(player.is_sink_empty());
    assert!(player.get_queue().is_empty());
    let cmds = player.take_commands();
    assert!(matches!(cmds.last(), Some(SinkCommand::Clear)));
}

#[test]
fn removing_before_the_cursor_keeps_the_logical_track() {
    let mut player = player_with(&["a", "b", "c"]);
    player.jump_track(3).unwrap();
    assert_eq!(player.current_song_name(), "c");
    let message = player.remove_track(1).expect("not an error");
    assert_eq!(message, "Removed a, Now Playing c @ 1");
    assert_eq!(player.current_song(), 1);
    assert_eq!(player.current_song_name(), "c");
}

#[test]
fn removing_the_cursors_own_last_entry_clamps_to_the_remaining_tail() {
    let mut player = player_with(&["a", "b"]);
    player.jump_track(2).unwrap();
    assert_eq!(player.current_song_name(), "b");
    let message = player.remove_track(2).expect("not an error");
    assert_eq!(message, "Removed b, Now Playing a @ 0");
    assert_eq!(player.current_song(), 0);
}

#[test]
fn add_playlist_appends_and_starts_when_empty() {
    let mut playlist = bz_player::Playlist::new("mix");
    playlist.add_song(track(1, "a"));
    playlist.add_song(track(2, "b"));
    let mut player = Player::new();
    let r = player.add_playlist(playlist);
    assert_eq!(r.unwrap(), 2);
    assert!(!player.is_sink_empty());
    let cmds = player.take_commands();
    assert!(matches!(&cmds[1], SinkCommand::Load(s) if s.song_name == "a"));
    assert_eq!(player.get_queue(), vec!["a", "b"]);
}

#[test]
fn add_empty_playlist_to_empty_queue_fails() {
    let playlist = bz_player::Playlist::new("hollow");
    let mut player = Player::new();
    assert!(matches!(
        player.add_playlist(playlist),
        Err(PlayerError::EmptyQueue)
    ));
}

#[test]
fn queue_views() {
    let mut player = player_with(&["a", "b", "c"]);
    assert_eq!(player.get_queue(), vec!["a", "b", "c"]);
    assert_eq!(player.get_queue_ids(), vec![1, 2, 3]);
    assert_eq!(player.get_song_detail(1).unwrap(), "b");
    assert!(matches!(
        player.get_song_detail(3),
        Err(PlayerError::IndexOutOfBounds)
    ));
    assert!(!player.is_last());
    player.jump_track(3).unwrap();
    assert!(player.is_last());
}

#[test]
fn clear_tracks_resets_everything() {
    let mut player = player_with(&["a", "b"]);
    player.clear_tracks();
    assert!(player.get_queue().is_empty());
    assert!(player.is_sink_empty());
    assert_eq!(player.current_song(), 0);
}

#[test]
fn player_error_messages() {
    assert_eq!(PlayerError::EmptyQueue.message(), "Queue is Empty");
    assert_eq!(
        PlayerError::IndexOutOfBounds.message(),
        "Given Song Index is Invalid"
    );
    assert_eq!(PlayerError::LastSong.message(), "No More Song in the Queue");
}

#[test]
fn decimal_rendering() {
    assert_eq!(bz_player::u32_to_string(0), "0");
    assert_eq!(bz_player::u32_to_string(7), "7");
    assert_eq!(bz_player::u32_to_string(10), "10");
    assert_eq!(bz_player::u32_to_string(42), "42");
    assert_eq!(bz_player::u32_to_string(100), "100");
    assert_eq!(bz_player::u32_to_string(4294967295), "4294967295");
}
