use jwst_sync::client::{
    after_sync, is_empty_update, needs_remote_sync, outcome_of, prepare_connection,
    request_for_url, still_waiting_for_first_sync, ConnectError, RetryPlan, SyncAction,
    SyncEvent, SyncOutcome, SyncSession, FIRST_SYNC_POLL_MILLIS, FIRST_SYNC_TIMEOUT_SECS,
    RECONNECT_DELAY_SECS, REMOTE_CHANNEL_CAPACITY, RETRY_DELAY_SECS, SYNC_START_DELAY_SECS,
};
use jwst_sync::message::Message;

fn step(s: SyncSession, e: SyncEvent) -> (SyncSession, SyncAction) {
    assert!(s.accepts(&e));
    s.step(e)
}

fn sent(a: &SyncAction) -> Option<Vec<u8>> {
    match a {
        SyncAction::Send(Message::Binary(d)) => Some(d.clone()),
        _ => None,
    }
}

#[test]
fn empty_update_is_recognised() {
    assert!(is_empty_update(&vec![0, 2, 2, 0, 0]));
    assert!(!is_empty_update(&vec![0, 2, 2, 0]));
    assert!(!is_empty_update(&vec![0, 2, 2, 0, 1]));
    assert!(!is_empty_update(&vec![0, 2, 2, 0, 0, 0]));
    assert!(!is_empty_update(&vec![]));
}

#[test]
fn empty_update_is_skipped_and_other_frames_decoded() {
    let (s, a) = step(SyncSession::start(), SyncEvent::RemoteBinary(vec![0, 2, 2, 0, 0]));
    assert!(matches!(s, SyncSession::Listening));
    assert!(matches!(a, SyncAction::Wait));
    let (s, a) = step(s, SyncEvent::RemoteBinary(vec![1, 2, 3]));
    assert!(matches!(s, SyncSession::Decoding));
    match a {
        SyncAction::Decode(m) => assert_eq!(m, vec![1, 2, 3]),
        _ => panic!("expected a decode"),
    }
    let (s, a) = step(SyncSession::Listening, SyncEvent::RemoteOther);
    assert!(matches!(s, SyncSession::Listening));
    assert!(matches!(a, SyncAction::Wait));
}

#[test]
fn answers_are_sent_in_order_after_the_flag_is_raised() {
    let (s, a) = step(SyncSession::Decoding, SyncEvent::Decoded(vec![vec![1], vec![2, 2], vec![3]]));
    assert!(matches!(a, SyncAction::MarkSynced));
    let (s, a) = step(s, SyncEvent::Done);
    assert_eq!(sent(&a), Some(vec![1]));
    let (s, a) = step(s, SyncEvent::SendOk);
    assert_eq!(sent(&a), Some(vec![2, 2]));
    let (s, a) = step(s, SyncEvent::SendOk);
    assert_eq!(sent(&a), Some(vec![3]));
    let (s, a) = step(s, SyncEvent::SendOk);
    assert!(matches!(s, SyncSession::Listening));
    assert!(matches!(a, SyncAction::Wait));
}

#[test]
fn no_answers_means_listening_again() {
    let (s, _) = step(SyncSession::Decoding, SyncEvent::Decoded(vec![]));
    let (s, a) = step(s, SyncEvent::Done);
    assert!(matches!(s, SyncSession::Listening));
    assert!(matches!(a, SyncAction::Wait));
}

#[test]
fn failed_answer_closes_and_asks_for_reconnection() {
    let (s, _) = step(SyncSession::Decoding, SyncEvent::Decoded(vec![vec![7], vec![8]]));
    let (s, _) = step(s, SyncEvent::Done);
    let (s, a) = step(s, SyncEvent::SendFailed);
    assert!(matches!(a, SyncAction::Close));
    let (s, a) = step(s, SyncEvent::Done);
    assert!(matches!(s, SyncSession::Finished(false)));
    assert!(matches!(a, SyncAction::Finish(false)));
    assert!(!s.accepts(&SyncEvent::RemoteOther));
}

#[test]
fn local_updates_are_sent_and_a_failure_finishes_the_thread() {
    let (s, a) = step(SyncSession::Listening, SyncEvent::LocalUpdate(vec![5, 5]));
    assert_eq!(sent(&a), Some(vec![5, 5]));
    let (s2, a2) = step(s, SyncEvent::SendOk);
    assert!(matches!(s2, SyncSession::Listening));
    assert!(matches!(a2, SyncAction::Wait));
    let (s, _) = step(SyncSession::Listening, SyncEvent::LocalUpdate(vec![5]));
    let (s, a) = step(s, SyncEvent::SendFailed);
    assert!(matches!(a, SyncAction::Close));
    let (_, a) = step(s, SyncEvent::Done);
    assert!(matches!(a, SyncAction::Finish(true)));
}

#[test]
fn remote_error_ends_without_close() {
    let (s, a) = step(SyncSession::Listening, SyncEvent::RemoteError);
    assert!(matches!(s, SyncSession::Finished(false)));
    assert!(matches!(a, SyncAction::Finish(false)));
}

#[test]
fn retry_policy() {
    assert_eq!(after_sync(SyncOutcome::Completed), RetryPlan::Finish);
    assert_eq!(after_sync(SyncOutcome::Disconnected), RetryPlan::RetryAfterSecs(2));
    assert_eq!(after_sync(SyncOutcome::Failed), RetryPlan::RetryAfterSecs(3));
    assert_eq!(RECONNECT_DELAY_SECS, 2);
    assert_eq!(RETRY_DELAY_SECS, 3);
    assert_eq!(FIRST_SYNC_TIMEOUT_SECS, 2);
    assert_eq!(SYNC_START_DELAY_SECS, 6);
    assert_eq!(FIRST_SYNC_POLL_MILLIS, 100);
    assert_eq!(REMOTE_CHANNEL_CAPACITY, 100);
    assert_eq!(outcome_of::<ConnectError>(Ok(true)), SyncOutcome::Completed);
    assert_eq!(outcome_of::<ConnectError>(Ok(false)), SyncOutcome::Disconnected);
    assert_eq!(outcome_of::<ConnectError>(Err(ConnectError::InvalidUrl)), SyncOutcome::Failed);
}

#[test]
fn caller_waits_until_the_flag_is_seen_raised() {
    assert!(still_waiting_for_first_sync(Err(false)));
    assert!(still_waiting_for_first_sync(Ok(false)));
    assert!(!still_waiting_for_first_sync(Ok(true)));
    assert!(!still_waiting_for_first_sync(Err(true)));
}

#[test]
fn remote_sync_only_with_an_address() {
    assert!(!needs_remote_sync(""));
    assert!(needs_remote_sync("ws://localhost:3000/collaboration/1"));
}

#[test]
fn connection_preparation() {
    let target = prepare_connection("ws://localhost:3000/collaboration/1").unwrap();
    assert_eq!(target.url, "ws://localhost:3000/collaboration/1");
    assert_eq!(target.protocol, "AFFiNE");
    assert!(matches!(prepare_connection("not a url"), Err(ConnectError::InvalidUrl)));
    assert!(matches!(prepare_connection(""), Err(ConnectError::InvalidUrl)));
    assert!(matches!(
        prepare_connection("file:///tmp/socket"),
        Err(ConnectError::InvalidRequest)
    ));
    assert!(matches!(request_for_url("no host"), Err(ConnectError::InvalidRequest)));
    let target = request_for_url("wss://example.com/path").unwrap();
    assert_eq!(target.url, "wss://example.com/path");
    assert_eq!(target.protocol, "AFFiNE");
}

#[test]
fn url_is_normalised_before_the_request_is_made() {
    let target = prepare_connection("WS://LocalHost:3000").unwrap();
    assert_eq!(target.url, "ws://localhost:3000/");
}
