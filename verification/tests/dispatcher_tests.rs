use peerctl::channel::Channel;
use peerctl::channel::ChannelConfig;
use peerctl::channel::ChannelError;
use peerctl::channel::WireEvent;
use peerctl::channel::single_command;
use peerctl::dispatcher::Dispatch;
use peerctl::dispatcher::DispatchAction;
use peerctl::dispatcher::Operation;
use peerctl::dispatcher::plan;
use peerctl::id64::Id64;
use peerctl::protocol::Command;

#[test]
fn plans_match_the_operations() {
    assert_eq!(plan(Operation::Play), vec![Command::Play, Command::CheckAlive]);
    assert_eq!(plan(Operation::Stop), vec![Command::Stop]);
    assert_eq!(
        plan(Operation::Refresh),
        vec![Command::Refresh, Command::CheckAlive]
    );
    assert_eq!(plan(Operation::Build), vec![Command::Build]);
}

#[test]
fn one_shot_operations_report_directly() {
    let (mut d, first) = Dispatch::start(Operation::Stop);
    assert_eq!(first, Command::Stop);
    assert_eq!(d.on_result(Ok(())), DispatchAction::Report(Ok(())));

    let (mut d, first) = Dispatch::start(Operation::Build);
    assert_eq!(first, Command::Build);
    assert_eq!(
        d.on_result(Err(ChannelError::SendFailed)),
        DispatchAction::Report(Err(ChannelError::SendFailed))
    );
}

#[test]
fn play_polls_liveness_after_success() {
    let (mut d, first) = Dispatch::start(Operation::Play);
    assert_eq!(first, Command::Play);
    assert_eq!(
        d.on_result(Ok(())),
        DispatchAction::Send(Command::CheckAlive)
    );
    assert_eq!(d.on_result(Ok(())), DispatchAction::Report(Ok(())));
}

#[test]
fn refresh_tolerates_restart_then_succeeds_end_to_end() {
    // The peer replies Wait to the refresh, then drops the connection;
    // after a reconnect it answers the liveness check with Success.
    let mut ch = Channel::new(ChannelConfig {
        timeout_ms: 5000,
        backoff_ms: 3000,
    });
    ch.begin_connect();
    ch.connect_attempt_done(true);

    let (mut d, first) = Dispatch::start(Operation::Refresh);
    assert_eq!(first, Command::Refresh);

    let events = vec![
        WireEvent::Received(b"\"Wait\"".to_vec()),
        WireEvent::Closed,
    ];
    let out = single_command(first, Id64::from_u64(21), &events);
    let res = out.result.unwrap();
    assert_eq!(res, Err(ChannelError::ProbablyRestarted));
    ch.connection_lost();

    let action = d.on_result(res);
    assert_eq!(action, DispatchAction::ResyncThenSend(Command::CheckAlive));

    ch.begin_connect();
    ch.connect_attempt_done(true);
    assert!(ch.is_connected());

    let events = vec![WireEvent::Received(b"\"Success\"".to_vec())];
    let out = single_command(Command::CheckAlive, Id64::from_u64(22), &events);
    let res = out.result.unwrap();
    assert_eq!(res, Ok(()));
    assert_eq!(d.on_result(res), DispatchAction::Report(Ok(())));
}

#[test]
fn stop_against_busy_peer_reports_the_reason() {
    let (mut d, first) = Dispatch::start(Operation::Stop);

    let events = vec![WireEvent::Received(b"{\"Error\":\"busy\"}".to_vec())];
    let out = single_command(first, Id64::from_u64(31), &events);
    let res = out.result.unwrap();
    assert_eq!(
        res,
        Err(ChannelError::PeerRejected(Some(b"busy".to_vec())))
    );

    // The dispatcher surfaces the peer's reason verbatim as a terminal
    // error; the operator sees it and the process exits non-zero.
    match d.on_result(res) {
        DispatchAction::Report(Err(ChannelError::PeerRejected(Some(reason)))) => {
            assert_eq!(reason, b"busy".to_vec());
        }
        other => panic!("expected a terminal report, got {:?}", other),
    }
}

#[test]
fn ambiguous_outcome_without_liveness_check_is_terminal() {
    // Stop defines no liveness poll, so an ambiguous outcome must not be
    // silently retried: it is reported.
    let (mut d, _) = Dispatch::start(Operation::Stop);
    assert_eq!(
        d.on_result(Err(ChannelError::ProbablyRestarted)),
        DispatchAction::Report(Err(ChannelError::ProbablyRestarted))
    );
}

#[test]
fn rejected_first_command_skips_the_liveness_check() {
    let (mut d, _) = Dispatch::start(Operation::Refresh);
    assert_eq!(
        d.on_result(Err(ChannelError::PeerRejected(None))),
        DispatchAction::Report(Err(ChannelError::PeerRejected(None)))
    );
}
