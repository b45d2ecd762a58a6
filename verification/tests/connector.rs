use jwst_sync::connector::{BroadcastType, ConnectorAction, ConnectorEvent, ConnectorState};
use jwst_sync::message::Message;

fn sent_binary(action: &ConnectorAction) -> Option<Vec<u8>> {
    match action {
        ConnectorAction::Send(Message::Binary(d)) => Some(d.clone()),
        _ => None,
    }
}

fn step(s: ConnectorState, id: &str, e: ConnectorEvent) -> (ConnectorState, ConnectorAction) {
    assert!(s.accepts(&e));
    s.step(id, e)
}

#[test]
fn init_message_goes_first_then_updates_are_forwarded_verbatim() {
    let s = ConnectorState::start();
    let (s, a) = step(s, "alice", ConnectorEvent::InitReady(vec![1, 2, 3]));
    assert_eq!(s, ConnectorState::SendingInit);
    assert_eq!(sent_binary(&a), Some(vec![1, 2, 3]));
    let (s, a) = step(s, "alice", ConnectorEvent::SendOk);
    assert_eq!(s, ConnectorState::Listening);
    assert!(matches!(a, ConnectorAction::Wait));
    let (s, a) = step(s, "alice", ConnectorEvent::ServerUpdate(vec![9, 8]));
    assert_eq!(s, ConnectorState::Forwarding);
    assert_eq!(sent_binary(&a), Some(vec![9, 8]));
    let (s, _) = step(s, "alice", ConnectorEvent::SendOk);
    let (s, a) = step(
        s,
        "alice",
        ConnectorEvent::Broadcast(BroadcastType::BroadcastAwareness(vec![4])),
    );
    assert_eq!(sent_binary(&a), Some(vec![4]));
    let (s, _) = step(s, "alice", ConnectorEvent::SendOk);
    let (s, a) = step(
        s,
        "alice",
        ConnectorEvent::Broadcast(BroadcastType::BroadcastContent(vec![5, 6])),
    );
    assert_eq!(s, ConnectorState::Forwarding);
    assert_eq!(sent_binary(&a), Some(vec![5, 6]));
}

#[test]
fn close_user_closes_only_the_named_session() {
    let (s, a) = step(
        ConnectorState::Listening,
        "alice",
        ConnectorEvent::Broadcast(BroadcastType::CloseUser("bob".to_string())),
    );
    assert_eq!(s, ConnectorState::Listening);
    assert!(matches!(a, ConnectorAction::Wait));
    let (s, a) = step(
        ConnectorState::Listening,
        "alice",
        ConnectorEvent::Broadcast(BroadcastType::CloseUser("alice".to_string())),
    );
    assert_eq!(s, ConnectorState::Closing);
    assert!(matches!(a, ConnectorAction::Send(Message::Close)));
    let (s, a) = step(s, "alice", ConnectorEvent::SendOk);
    assert_eq!(s, ConnectorState::FinalMigration);
    assert!(matches!(a, ConnectorAction::Migrate));
    let (s, a) = step(s, "alice", ConnectorEvent::Migrated(false));
    assert_eq!(s, ConnectorState::Stopped);
    assert!(matches!(a, ConnectorAction::Stop));
}

#[test]
fn close_all_closes_every_session() {
    let (s, a) = step(
        ConnectorState::Listening,
        "carol",
        ConnectorEvent::Broadcast(BroadcastType::CloseAll),
    );
    assert_eq!(s, ConnectorState::Closing);
    assert!(matches!(a, ConnectorAction::Send(Message::Close)));
    let (s, a) = step(s, "carol", ConnectorEvent::SendFailed);
    assert_eq!(s, ConnectorState::FinalMigration);
    assert!(matches!(a, ConnectorAction::Migrate));
}

#[test]
fn failed_start_closes_without_migration() {
    let (s, a) = step(ConnectorState::start(), "alice", ConnectorEvent::InitFailed);
    assert_eq!(s, ConnectorState::ClosingEarly);
    assert!(matches!(a, ConnectorAction::Send(Message::Close)));
    let (s, a) = step(s, "alice", ConnectorEvent::SendFailed);
    assert_eq!(s, ConnectorState::Stopped);
    assert!(matches!(a, ConnectorAction::Stop));

    let (s, _) = step(ConnectorState::start(), "alice", ConnectorEvent::InitReady(vec![]));
    let (s, a) = step(s, "alice", ConnectorEvent::SendFailed);
    assert_eq!(s, ConnectorState::ClosingEarly);
    assert!(matches!(a, ConnectorAction::Send(Message::Close)));
    let (s, a) = step(s, "alice", ConnectorEvent::SendOk);
    assert_eq!(s, ConnectorState::Stopped);
    assert!(matches!(a, ConnectorAction::Stop));
}

#[test]
fn tick_migrates_then_pings() {
    let (s, a) = step(ConnectorState::Listening, "alice", ConnectorEvent::Tick);
    assert_eq!(s, ConnectorState::Migrating);
    assert!(matches!(a, ConnectorAction::Migrate));
    let (s, a) = step(s, "alice", ConnectorEvent::Migrated(false));
    assert_eq!(s, ConnectorState::Pinging);
    assert!(matches!(a, ConnectorAction::Send(Message::Ping)));
    let (s, a) = step(s, "alice", ConnectorEvent::SendOk);
    assert_eq!(s, ConnectorState::Listening);
    assert!(matches!(a, ConnectorAction::Wait));
}

#[test]
fn closed_channel_or_failed_ping_ends_the_loop_with_a_final_migration() {
    let (s, _) = step(ConnectorState::Listening, "alice", ConnectorEvent::Tick);
    let (s, a) = step(s, "alice", ConnectorEvent::Migrated(true));
    assert_eq!(s, ConnectorState::FinalMigration);
    assert!(matches!(a, ConnectorAction::Migrate));

    let (s, _) = step(ConnectorState::Pinging, "alice", ConnectorEvent::SendFailed);
    assert_eq!(s, ConnectorState::FinalMigration);
    let (s, a) = step(s, "alice", ConnectorEvent::Migrated(true));
    assert_eq!(s, ConnectorState::Stopped);
    assert!(matches!(a, ConnectorAction::Stop));
}

#[test]
fn failed_forward_ends_the_loop() {
    let (s, a) = step(ConnectorState::Forwarding, "alice", ConnectorEvent::SendFailed);
    assert_eq!(s, ConnectorState::FinalMigration);
    assert!(matches!(a, ConnectorAction::Migrate));
}

#[test]
fn states_accept_only_their_answers() {
    assert!(!ConnectorState::Stopped.accepts(&ConnectorEvent::Tick));
    assert!(!ConnectorState::Listening.accepts(&ConnectorEvent::SendOk));
    assert!(!ConnectorState::AwaitingInit.accepts(&ConnectorEvent::ServerUpdate(vec![1])));
    assert!(ConnectorState::Forwarding.accepts(&ConnectorEvent::SendFailed));
    assert!(ConnectorState::FinalMigration.accepts(&ConnectorEvent::Migrated(false)));
    assert!(!ConnectorState::FinalMigration.accepts(&ConnectorEvent::SendOk));
}
