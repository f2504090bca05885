use vstd::prelude::*;

use crate::song::PlaylistActions;

verus! {

/// Which utility pane the front end shows; carried as plain data so the
/// command layer and the renderer agree on one closed set of states.
#[derive(Debug)]
pub enum UtilityState {
    Playlist(PlaylistActions),
    SearchSong(String),
    Help,
}

} // verus!
