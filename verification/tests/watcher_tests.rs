use peerctl::channel::Channel;
use peerctl::channel::ChannelConfig;
use peerctl::channel::ChannelError;
use peerctl::channel::WireEvent;
use peerctl::channel::single_command;
use peerctl::id64::Id64;
use peerctl::protocol::Command;
use peerctl::watcher::Debouncer;
use peerctl::watcher::FsEventKind;
use peerctl::watcher::RefreshFollowUp;
use peerctl::watcher::Watcher;
use peerctl::watcher::is_change;

#[test]
fn classification_of_event_kinds() {
    assert!(!is_change(FsEventKind::NoticeWrite));
    assert!(!is_change(FsEventKind::NoticeRemove));
    assert!(is_change(FsEventKind::Create));
    assert!(is_change(FsEventKind::Write));
    assert!(!is_change(FsEventKind::Chmod));
    assert!(is_change(FsEventKind::Remove));
    assert!(is_change(FsEventKind::Rename));
    assert!(!is_change(FsEventKind::Rescan));
    assert!(!is_change(FsEventKind::Error));
}

#[test]
fn burst_of_writes_emits_exactly_one_refresh() {
    let mut deb = Debouncer::new(1000);
    let mut emitted = 0;

    // Five writes to the same file, each within the window of the last.
    for t in [0u64, 200, 400, 600, 800] {
        deb.note_event(t, FsEventKind::Write);
        if deb.poll(t) {
            emitted += 1;
        }
    }
    // Quiet period: polls before the last deadline stay silent.
    for t in [900u64, 1200, 1799] {
        if deb.poll(t) {
            emitted += 1;
        }
    }
    // The window closes 1000 ms after the last event.
    for t in [1800u64, 1900, 5000] {
        if deb.poll(t) {
            emitted += 1;
        }
    }
    assert_eq!(emitted, 1);
}

#[test]
fn non_change_events_never_open_a_window() {
    let mut deb = Debouncer::new(50);
    deb.note_event(0, FsEventKind::NoticeWrite);
    deb.note_event(1, FsEventKind::Chmod);
    deb.note_event(2, FsEventKind::Rescan);
    deb.note_event(3, FsEventKind::NoticeRemove);
    assert!(!deb.poll(10_000));
}

#[test]
fn separate_bursts_emit_separately() {
    let mut deb = Debouncer::new(100);
    deb.note_event(0, FsEventKind::Create);
    assert!(!deb.poll(99));
    assert!(deb.poll(100));
    deb.note_event(500, FsEventKind::Remove);
    assert!(!deb.poll(599));
    assert!(deb.poll(600));
    assert!(!deb.poll(10_000));
}

#[test]
fn fatal_notification_error_ends_the_watch() {
    let mut w = Watcher::new(1000);
    assert!(w.on_fs_event(0, FsEventKind::Write));
    assert!(!w.on_fs_event(1, FsEventKind::Error));
}

#[test]
fn refresh_follow_up_policy() {
    assert_eq!(
        Watcher::after_refresh(&Ok(())),
        RefreshFollowUp::Proceed
    );
    assert_eq!(
        Watcher::after_refresh(&Err(ChannelError::ProbablyRestarted)),
        RefreshFollowUp::Resync
    );
    assert_eq!(
        Watcher::after_refresh(&Err(ChannelError::NotConnected)),
        RefreshFollowUp::Resync
    );
    assert_eq!(
        Watcher::after_refresh(&Err(ChannelError::PeerRejected(Some(b"busy".to_vec())))),
        RefreshFollowUp::Proceed
    );
    assert_eq!(
        Watcher::after_refresh(&Err(ChannelError::UnexpectedWait)),
        RefreshFollowUp::Proceed
    );
}

#[test]
fn refresh_that_restarts_peer_reconnects_and_keeps_watching() {
    let mut w = Watcher::new(1000);
    let mut ch = Channel::new(ChannelConfig {
        timeout_ms: 5000,
        backoff_ms: 3000,
    });
    ch.begin_connect();
    ch.connect_attempt_done(true);

    // A change burst closes its window; one refresh is due.
    assert!(w.on_fs_event(0, FsEventKind::Write));
    assert!(w.on_fs_event(300, FsEventKind::Write));
    assert!(!w.poll_refresh(1200));
    assert!(w.poll_refresh(1300));

    // The background refresh makes the peer drop the connection.
    let events = vec![WireEvent::Closed];
    let out = single_command(Command::BackgroundRefresh, Id64::from_u64(11), &events);
    let res = out.result.unwrap();
    assert_eq!(res, Err(ChannelError::ProbablyRestarted));
    ch.connection_lost();

    // Expected for a refresh: back off and re-synchronize, then resume.
    assert_eq!(Watcher::after_refresh(&res), RefreshFollowUp::Resync);
    assert_eq!(ch.retry_delay_ms(), 3000);
    ch.begin_connect();
    ch.connect_attempt_done(false);
    ch.begin_connect();
    ch.connect_attempt_done(true);
    assert!(ch.is_connected());

    // A later, distinct change signal is not lost.
    assert!(w.on_fs_event(9000, FsEventKind::Create));
    assert!(!w.poll_refresh(9999));
    assert!(w.poll_refresh(10_000));
    let events = vec![WireEvent::Received(b"\"Success\"".to_vec())];
    let out = single_command(Command::BackgroundRefresh, Id64::from_u64(12), &events);
    assert_eq!(out.result, Some(Ok(())));
    assert_eq!(Watcher::after_refresh(&Ok(())), RefreshFollowUp::Proceed);
}
