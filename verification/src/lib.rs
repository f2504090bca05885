mod decimal;
mod errors;
mod player;
mod song;
mod song_base;
mod utility;
mod watcher;

pub use decimal::spec_decimal;
pub use decimal::u32_to_string;
pub use errors::PlayerError;
pub use errors::SongBaseError;
pub use errors::SongError;
pub use player::Player;
pub use player::PlayerAction;
pub use player::SinkCommand;
pub use player::SinkState;
pub use song::has_allowed_extension;
pub use song::is_allowed_extension;
pub use song::is_extension_dot;
pub use song::lower_ext_char;
pub use song::Playable;
pub use song::Playlist;
pub use song::PlaylistActions;
pub use song::Song;
pub use song_base::audio_files;
pub use song_base::event_reports;
pub use song_base::is_audio_file;
pub use song_base::is_excluded_dir;
pub use song_base::is_excluded_dir_name;
pub use song_base::is_scannable_dir;
pub use song_base::kept_ids;
pub use song_base::kept_songs;
pub use song_base::scan_event_name;
pub use song_base::subdir_paths;
pub use song_base::DirItem;
pub use song_base::ScanEvent;
pub use song_base::SongBase;
pub use utility::UtilityState;
pub use watcher::lemma_single_notification_per_completion;
pub use watcher::spec_watcher_step;
pub use watcher::CompletionWatcher;
pub use watcher::WatcherEvent;
pub use watcher::WatcherState;
