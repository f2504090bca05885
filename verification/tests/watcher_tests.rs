use bz_player::CompletionWatcher;
use bz_player::PlayerAction;
use bz_player::WatcherEvent;

fn is_finished(notification: &PlayerAction) -> bool {
    match notification {
        PlayerAction::ConnectionMessage(m) => m == "101 Done",
    }
}

#[test]
fn parked_watcher_ignores_polls() {
    let mut watcher = CompletionWatcher::new();
    assert!(watcher.step(WatcherEvent::Polled(true)).is_none());
    assert!(watcher.step(WatcherEvent::Polled(false)).is_none());
}

#[test]
fn one_notification_per_completion_within_one_poll() {
    let mut watcher = CompletionWatcher::new();
    assert!(watcher.step(WatcherEvent::TrackLoaded).is_none());

    // While the track still plays, polls stay silent.
    assert!(watcher.step(WatcherEvent::Polled(false)).is_none());
    assert!(watcher.step(WatcherEvent::Polled(false)).is_none());

    // The first poll that observes the sink empty notifies, once.
    let notification = watcher.step(WatcherEvent::Polled(true)).expect("notified");
    assert!(is_finished(&notification));

    // Repeated empty observations emit nothing more: no duplicates.
    assert!(watcher.step(WatcherEvent::Polled(true)).is_none());
    assert!(watcher.step(WatcherEvent::Polled(true)).is_none());

    // The next completion notifies again, exactly once.
    assert!(watcher.step(WatcherEvent::TrackLoaded).is_none());
    let notification = watcher.step(WatcherEvent::Polled(true)).expect("notified");
    assert!(is_finished(&notification));
    assert!(watcher.step(WatcherEvent::Polled(true)).is_none());
}

#[test]
fn reloading_while_watching_changes_nothing() {
    let mut watcher = CompletionWatcher::new();
    assert!(watcher.step(WatcherEvent::TrackLoaded).is_none());
    assert!(watcher.step(WatcherEvent::TrackLoaded).is_none());
    assert!(watcher.step(WatcherEvent::Polled(true)).is_some());
}
