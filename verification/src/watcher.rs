use vstd::prelude::*;

use crate::player::PlayerAction;

verus! {

/// Where the completion watcher stands.
#[derive(Debug, Clone, Copy, PartialEq, Eq, Structural)]
pub enum WatcherState {
    /// Waiting for the signal that a new track was loaded.
    Parked,
    /// A track is loaded; polling the sink until it is observed empty.
    Watching,
}

/// What the watcher sees on one wake-up.
#[derive(Debug, Clone, Copy, PartialEq, Eq, Structural)]
pub enum WatcherEvent {
    /// The control path loaded a new track into the sink.
    TrackLoaded,
    /// One poll of the shared sink, carrying whether it was empty.
    Polled(bool),
}

/// The watcher's transition function: it parks until a track is loaded,
/// then polls until the sink is observed empty, emits a notification for
/// that one completion, and parks again.
pub open spec fn spec_watcher_step(state: WatcherState, event: WatcherEvent) -> (
    WatcherState,
    bool,
) {
    match (state, event) {
        (WatcherState::Parked, WatcherEvent::TrackLoaded) => (WatcherState::Watching, false),
        (WatcherState::Parked, WatcherEvent::Polled(_)) => (WatcherState::Parked, false),
        (WatcherState::Watching, WatcherEvent::TrackLoaded) => (WatcherState::Watching, false),
        (WatcherState::Watching, WatcherEvent::Polled(empty)) => if empty {
            (WatcherState::Parked, true)
        } else {
            (WatcherState::Watching, false)
        },
    }
}

/// Exactly one notification is emitted per track completion: a step
/// notifies if and only if the watcher was watching a loaded track and the
/// poll observed the sink empty; that step parks the watcher, and once
/// parked, no further poll — however often the empty sink is re-checked —
/// emits anything until the next track is loaded.
pub proof fn lemma_single_notification_per_completion(
    state: WatcherState,
    event: WatcherEvent,
    empty_again: bool,
)
    ensures
        spec_watcher_step(state, event).1 <==> (state == WatcherState::Watching && event
            == WatcherEvent::Polled(true)),
        spec_watcher_step(state, event).1 ==> spec_watcher_step(state, event).0
            == WatcherState::Parked,
        spec_watcher_step(WatcherState::Parked, WatcherEvent::Polled(empty_again)).1 == false,
{
}

/// The background detector of natural track end. It never touches the
/// queue or the cursor: it only turns sink-emptiness observations into
/// "finished" notifications for the control loop, which performs the
/// actual transition.
pub struct CompletionWatcher {
    state: WatcherState,
}

impl CompletionWatcher {
    /// Where the watcher stands.
    pub closed spec fn spec_state(&self) -> WatcherState {
        self.state
    }

    /// A fresh watcher, parked.
    pub fn new() -> (r: CompletionWatcher)
        ensures
            r.spec_state() == WatcherState::Parked,
    {
        CompletionWatcher { state: WatcherState::Parked }
    }

    /// Feeds one observation through the transition function and returns
    /// the notification to forward, if this step detected a completion.
    pub fn step(&mut self, event: WatcherEvent) -> (r: Option<PlayerAction>)
        ensures
            final(self).spec_state() == spec_watcher_step(old(self).spec_state(), event).0,
            spec_watcher_step(old(self).spec_state(), event).1 ==> (r matches Some(a) && a matches
                PlayerAction::ConnectionMessage(m) && m@ == "101 Done"@),
            !spec_watcher_step(old(self).spec_state(), event).1 ==> r is None,
    {
        match (self.state, event) {
            (WatcherState::Parked, WatcherEvent::TrackLoaded) => {
                self.state = WatcherState::Watching;
                None
            },
            (WatcherState::Parked, WatcherEvent::Polled(_)) => None,
            (WatcherState::Watching, WatcherEvent::TrackLoaded) => None,
            (WatcherState::Watching, WatcherEvent::Polled(empty)) => {
                if empty {
                    self.state = WatcherState::Parked;
                    Some(PlayerAction::ConnectionMessage(String::from_str("101 Done")))
                } else {
                    None
                }
            },
        }
    }
}

} // verus!
