//! The server side of one collaboration session: what the handler of a connected
//! peer does with each thing that happens, from the initial sync message to the
//! final storage migration.

use vstd::prelude::*;
use crate::message::{same_text, Message, MessageView};

verus! {

/// A notification published on a workspace's in-memory broadcast channel.
#[derive(Clone, Debug)]
pub enum BroadcastType {
    /// An awareness (presence) update, already encoded for the wire.
    BroadcastAwareness(Vec<u8>),
    /// A document content update, already encoded for the wire.
    BroadcastContent(Vec<u8>),
    /// The session of the named user must be closed.
    CloseUser(String),
    /// Every session of the workspace must be closed.
    CloseAll,
}

/// The mathematical value of a [`BroadcastType`].
pub enum BroadcastView {
    Awareness(Seq<u8>),
    Content(Seq<u8>),
    CloseUser(Seq<char>),
    CloseAll,
}

impl View for BroadcastType {
    type V = BroadcastView;

    open spec fn view(&self) -> BroadcastView {
        match self {
            BroadcastType::BroadcastAwareness(d) => BroadcastView::Awareness(d@),
            BroadcastType::BroadcastContent(d) => BroadcastView::Content(d@),
            BroadcastType::CloseUser(u) => BroadcastView::CloseUser(u@),
            BroadcastType::CloseAll => BroadcastView::CloseAll,
        }
    }
}

/// Seconds between two periodic storage migrations of a syncing session.
pub const MIGRATION_INTERVAL_SECS: u64 = 5;

/// Where a session handler stands.
#[derive(Clone, Copy, PartialEq, Eq, Structural, Debug)]
pub enum ConnectorState {
    /// Waiting for the workspace's initial sync message.
    AwaitingInit,
    /// The initial sync message is being sent.
    SendingInit,
    /// The session failed before syncing began; a close frame is being sent.
    ClosingEarly,
    /// Syncing: waiting for a server update, a broadcast or the periodic tick.
    Listening,
    /// An update is being forwarded to the peer.
    Forwarding,
    /// A close frame is being sent because the session was closed by the server.
    Closing,
    /// The periodic storage migration runs.
    Migrating,
    /// A keep-alive ping is being sent.
    Pinging,
    /// The sync loop is over; the final storage migration runs.
    FinalMigration,
    /// The handler has returned.
    Stopped,
}

/// What the session handler learns from the outside.
pub enum ConnectorEvent {
    /// The workspace produced its initial sync message.
    InitReady(Vec<u8>),
    /// The workspace could not produce its initial sync message.
    InitFailed,
    /// The last frame was handed to the peer's channel.
    SendOk,
    /// The peer's channel refused the last frame.
    SendFailed,
    /// The storage published an update of the workspace.
    ServerUpdate(Vec<u8>),
    /// The workspace broadcast channel delivered a notification.
    Broadcast(BroadcastType),
    /// The periodic timer fired.
    Tick,
    /// A storage migration finished; the flag tells whether the peer's channel is closed.
    Migrated(bool),
}

/// The mathematical value of a [`ConnectorEvent`].
pub enum ConnectorEventView {
    InitReady(Seq<u8>),
    InitFailed,
    SendOk,
    SendFailed,
    ServerUpdate(Seq<u8>),
    Broadcast(BroadcastView),
    Tick,
    Migrated(bool),
}

impl View for ConnectorEvent {
    type V = ConnectorEventView;

    open spec fn view(&self) -> ConnectorEventView {
        match self {
            ConnectorEvent::InitReady(d) => ConnectorEventView::InitReady(d@),
            ConnectorEvent::InitFailed => ConnectorEventView::InitFailed,
            ConnectorEvent::SendOk => ConnectorEventView::SendOk,
            ConnectorEvent::SendFailed => ConnectorEventView::SendFailed,
            ConnectorEvent::ServerUpdate(d) => ConnectorEventView::ServerUpdate(d@),
            ConnectorEvent::Broadcast(b) => ConnectorEventView::Broadcast(b@),
            ConnectorEvent::Tick => ConnectorEventView::Tick,
            ConnectorEvent::Migrated(closed) => ConnectorEventView::Migrated(*closed),
        }
    }
}

/// What the session handler asks the outside to do next.
pub enum ConnectorAction {
    /// Send this frame to the peer, then report `SendOk` or `SendFailed`.
    Send(Message),
    /// Run a full storage migration of the workspace, then report `Migrated`.
    Migrate,
    /// Wait for the next server update, broadcast or tick.
    Wait,
    /// Return from the handler.
    Stop,
}

/// The mathematical value of a [`ConnectorAction`].
pub enum ConnectorActionView {
    Send(MessageView),
    Migrate,
    Wait,
    Stop,
}

impl View for ConnectorAction {
    type V = ConnectorActionView;

    open spec fn view(&self) -> ConnectorActionView {
        match self {
            ConnectorAction::Send(m) => ConnectorActionView::Send(m@),
            ConnectorAction::Migrate => ConnectorActionView::Migrate,
            ConnectorAction::Wait => ConnectorActionView::Wait,
            ConnectorAction::Stop => ConnectorActionView::Stop,
        }
    }
}

/// The events that can happen in a state: the answer to the action that led there.
pub open spec fn accepts(s: ConnectorState, e: ConnectorEventView) -> bool {
    match s {
        ConnectorState::AwaitingInit => e is InitReady || e is InitFailed,
        ConnectorState::Listening => e is ServerUpdate || e is Broadcast || e is Tick,
        ConnectorState::Migrating => e is Migrated,
        ConnectorState::FinalMigration => e is Migrated,
        ConnectorState::Stopped => false,
        _ => e is SendOk || e is SendFailed,
    }
}

/// The session's transition relation: the next state and action of a session of the
/// user `identifier` in state `s` when `e` happens.
pub open spec fn next(
    identifier: Seq<char>,
    s: ConnectorState,
    e: ConnectorEventView,
) -> (ConnectorState, ConnectorActionView) {
    match s {
        ConnectorState::AwaitingInit => match e {
            ConnectorEventView::InitReady(d) => (
                ConnectorState::SendingInit,
                ConnectorActionView::Send(MessageView::Binary(d)),
            ),
            _ => (ConnectorState::ClosingEarly, ConnectorActionView::Send(MessageView::Close)),
        },
        ConnectorState::SendingInit => if e is SendOk {
            (ConnectorState::Listening, ConnectorActionView::Wait)
        } else {
            (ConnectorState::ClosingEarly, ConnectorActionView::Send(MessageView::Close))
        },
        ConnectorState::ClosingEarly => (ConnectorState::Stopped, ConnectorActionView::Stop),
        ConnectorState::Listening => match e {
            ConnectorEventView::ServerUpdate(d) => (
                ConnectorState::Forwarding,
                ConnectorActionView::Send(MessageView::Binary(d)),
            ),
            ConnectorEventView::Broadcast(b) => match b {
                BroadcastView::Awareness(d) => (
                    ConnectorState::Forwarding,
                    ConnectorActionView::Send(MessageView::Binary(d)),
                ),
                BroadcastView::Content(d) => (
                    ConnectorState::Forwarding,
                    ConnectorActionView::Send(MessageView::Binary(d)),
                ),
                BroadcastView::CloseUser(user) => if user == identifier {
                    (ConnectorState::Closing, ConnectorActionView::Send(MessageView::Close))
                } else {
                    (ConnectorState::Listening, ConnectorActionView::Wait)
                },
                BroadcastView::CloseAll => (
                    ConnectorState::Closing,
                    ConnectorActionView::Send(MessageView::Close),
                ),
            },
            _ => (ConnectorState::Migrating, ConnectorActionView::Migrate),
        },
        ConnectorState::Forwarding => if e is SendOk {
            (ConnectorState::Listening, ConnectorActionView::Wait)
        } else {
            (ConnectorState::FinalMigration, ConnectorActionView::Migrate)
        },
        ConnectorState::Pinging => if e is SendOk {
            (ConnectorState::Listening, ConnectorActionView::Wait)
        } else {
            (ConnectorState::FinalMigration, ConnectorActionView::Migrate)
        },
        ConnectorState::Closing => (ConnectorState::FinalMigration, ConnectorActionView::Migrate),
        ConnectorState::Migrating => match e {
            ConnectorEventView::Migrated(closed) => if closed {
                (ConnectorState::FinalMigration, ConnectorActionView::Migrate)
            } else {
                (ConnectorState::Pinging, ConnectorActionView::Send(MessageView::Ping))
            },
            _ => (ConnectorState::FinalMigration, ConnectorActionView::Migrate),
        },
        ConnectorState::FinalMigration => (ConnectorState::Stopped, ConnectorActionView::Stop),
        ConnectorState::Stopped => (ConnectorState::Stopped, ConnectorActionView::Stop),
    }
}

/// The state and the actions of a session fed `events` one by one from `s`, up to the
/// first event that its state does not accept.
pub open spec fn run(
    identifier: Seq<char>,
    s: ConnectorState,
    events: Seq<ConnectorEventView>,
) -> (ConnectorState, Seq<ConnectorActionView>)
    decreases events.len(),
{
    if events.len() == 0 || !accepts(s, events[0]) {
        (s, Seq::empty())
    } else {
        let (s1, a) = next(identifier, s, events[0]);
        let (s2, rest) = run(identifier, s1, events.drop_first());
        (s2, seq![a] + rest)
    }
}

/// The states of the sync loop, entered once the initial sync message went out.
pub open spec fn in_sync_loop(s: ConnectorState) -> bool {
    ||| s == ConnectorState::Listening
    ||| s == ConnectorState::Forwarding
    ||| s == ConnectorState::Closing
    ||| s == ConnectorState::Migrating
    ||| s == ConnectorState::Pinging
    ||| s == ConnectorState::FinalMigration
}

/// The states from which the session only winds down.
pub open spec fn winding_down(s: ConnectorState) -> bool {
    ||| s == ConnectorState::ClosingEarly
    ||| s == ConnectorState::Closing
    ||| s == ConnectorState::FinalMigration
    ||| s == ConnectorState::Stopped
}


/// When the workspace produces its initial sync message, that message is the first frame
/// sent to the peer, with exactly its bytes; the sync loop starts only once it went out.
pub proof fn law_init_message_sent_first(identifier: Seq<char>, d: Seq<u8>)
    ensures
        accepts(ConnectorState::AwaitingInit, ConnectorEventView::InitReady(d)),
        next(identifier, ConnectorState::AwaitingInit, ConnectorEventView::InitReady(d)) == (
            ConnectorState::SendingInit,
            ConnectorActionView::Send(MessageView::Binary(d)),
        ),
        next(identifier, ConnectorState::SendingInit, ConnectorEventView::SendOk) == (
            ConnectorState::Listening,
            ConnectorActionView::Wait,
        ),
        forall|e: ConnectorEventView|
            accepts(ConnectorState::AwaitingInit, e) ==> #[trigger] next(
                identifier,
                ConnectorState::AwaitingInit,
                e,
            ).1 is Send,
{
}

/// On each tick a syncing session migrates the storage, then pings the peer when the
/// channel is open; a closed channel ends the loop with the final migration.
pub proof fn law_tick_migrates_then_pings(identifier: Seq<char>)
    ensures
        next(identifier, ConnectorState::Listening, ConnectorEventView::Tick) == (
            ConnectorState::Migrating,
            ConnectorActionView::Migrate,
        ),
        next(identifier, ConnectorState::Migrating, ConnectorEventView::Migrated(false)) == (
            ConnectorState::Pinging,
            ConnectorActionView::Send(MessageView::Ping),
        ),
        next(identifier, ConnectorState::Migrating, ConnectorEventView::Migrated(true)) == (
            ConnectorState::FinalMigration,
            ConnectorActionView::Migrate,
        ),
        next(identifier, ConnectorState::Pinging, ConnectorEventView::SendOk) == (
            ConnectorState::Listening,
            ConnectorActionView::Wait,
        ),
{
}

/// A close for every session closes this one too; a failed forward ends the loop with
/// the final migration, and a forwarded frame that went out returns to listening.
pub proof fn law_close_all_and_forward_outcomes(identifier: Seq<char>)
    ensures
        next(
            identifier,
            ConnectorState::Listening,
            ConnectorEventView::Broadcast(BroadcastView::CloseAll),
        ) == (ConnectorState::Closing, ConnectorActionView::Send(MessageView::Close)),
        next(identifier, ConnectorState::Forwarding, ConnectorEventView::SendFailed) == (
            ConnectorState::FinalMigration,
            ConnectorActionView::Migrate,
        ),
        next(identifier, ConnectorState::Forwarding, ConnectorEventView::SendOk) == (
            ConnectorState::Listening,
            ConnectorActionView::Wait,
        ),
{
}

/// Every update that reaches a syncing session, from the storage or from the workspace
/// broadcast, is sent to the peer as a binary frame holding exactly the same bytes.
pub proof fn law_updates_forwarded_verbatim(identifier: Seq<char>, data: Seq<u8>)
    ensures
        next(identifier, ConnectorState::Listening, ConnectorEventView::ServerUpdate(data)) == (
            ConnectorState::Forwarding,
            ConnectorActionView::Send(MessageView::Binary(data)),
        ),
        next(
            identifier,
            ConnectorState::Listening,
            ConnectorEventView::Broadcast(BroadcastView::Awareness(data)),
        ) == (ConnectorState::Forwarding, ConnectorActionView::Send(MessageView::Binary(data))),
        next(
            identifier,
            ConnectorState::Listening,
            ConnectorEventView::Broadcast(BroadcastView::Content(data)),
        ) == (ConnectorState::Forwarding, ConnectorActionView::Send(MessageView::Binary(data))),
{
}

/// A request to close a user's session closes the session of that user and is ignored
/// by the sessions of every other user.
pub proof fn law_close_user_targets_one_session(identifier: Seq<char>, user: Seq<char>)
    ensures
        next(
            identifier,
            ConnectorState::Listening,
            ConnectorEventView::Broadcast(BroadcastView::CloseUser(user)),
        ) == if user == identifier {
            (ConnectorState::Closing, ConnectorActionView::Send(MessageView::Close))
        } else {
            (ConnectorState::Listening, ConnectorActionView::Wait)
        },
{
}

/// When the initial sync message cannot be produced or cannot be sent, the peer gets a
/// close frame and the handler stops right after, without a storage migration.
pub proof fn law_failed_start_closes_and_stops(identifier: Seq<char>, e: ConnectorEventView)
    ensures
        next(identifier, ConnectorState::AwaitingInit, ConnectorEventView::InitFailed) == (
            ConnectorState::ClosingEarly,
            ConnectorActionView::Send(MessageView::Close),
        ),
        next(identifier, ConnectorState::SendingInit, ConnectorEventView::SendFailed) == (
            ConnectorState::ClosingEarly,
            ConnectorActionView::Send(MessageView::Close),
        ),
        accepts(ConnectorState::ClosingEarly, e) ==> next(
            identifier,
            ConnectorState::ClosingEarly,
            e,
        ) == (ConnectorState::Stopped, ConnectorActionView::Stop),
{
}

/// Once a session winds down (after a close frame, or once the sync loop is left), it
/// sends nothing more to the peer, whatever happens.
pub proof fn law_nothing_sent_while_winding_down(
    identifier: Seq<char>,
    s: ConnectorState,
    events: Seq<ConnectorEventView>,
)
    requires
        winding_down(s),
    ensures
        winding_down(run(identifier, s, events).0),
        forall|i: int|
            0 <= i < run(identifier, s, events).1.len() ==> !(run(identifier, s, events).1[i] is Send),
    decreases events.len(),
{
    if events.len() > 0 && accepts(s, events[0]) {
        let (s1, a) = next(identifier, s, events[0]);
        law_nothing_sent_while_winding_down(identifier, s1, events.drop_first());
        let rest = run(identifier, s1, events.drop_first()).1;
        assert forall|i: int| 0 <= i < (seq![a] + rest).len() implies !((seq![a] + rest)[i] is Send) by {
            if i > 0 {
                assert((seq![a] + rest)[i] == rest[i - 1]);
            }
        }
    }
}

/// A session that has entered the sync loop only ever stops through a final storage
/// migration: when it stops, its last two actions are a migration and the return.
pub proof fn law_sync_loop_ends_with_migration(
    identifier: Seq<char>,
    s: ConnectorState,
    events: Seq<ConnectorEventView>,
)
    requires
        in_sync_loop(s),
        s != ConnectorState::FinalMigration,
        run(identifier, s, events).0 == ConnectorState::Stopped,
    ensures
        run(identifier, s, events).1.len() >= 2,
        run(identifier, s, events).1[run(identifier, s, events).1.len() - 2]
            == ConnectorActionView::Migrate,
        run(identifier, s, events).1[run(identifier, s, events).1.len() - 1]
            == ConnectorActionView::Stop,
    decreases events.len(),
{
    let (s1, a) = next(identifier, s, events[0]);
    let tail = events.drop_first();
    let rest = run(identifier, s1, tail).1;
    assert(run(identifier, s, events).1 == seq![a] + rest);
    if s1 == ConnectorState::FinalMigration {
        assert(a == ConnectorActionView::Migrate);
        if tail.len() > 0 && accepts(s1, tail[0]) {
            assert(run(identifier, ConnectorState::Stopped, tail.drop_first()).1 =~= Seq::empty());
            assert(rest =~= seq![ConnectorActionView::Stop]);
        } else {
            assert(run(identifier, s1, tail).0 == ConnectorState::FinalMigration);
        }
    } else {
        law_sync_loop_ends_with_migration(identifier, s1, tail);
    }
}

/// Every binary frame that a session sends carries bytes that it was given: the initial
/// sync message, a storage update or a broadcast update.
pub proof fn law_sent_bytes_come_from_inputs(
    identifier: Seq<char>,
    s: ConnectorState,
    e: ConnectorEventView,
    data: Seq<u8>,
)
    requires
        accepts(s, e),
        next(identifier, s, e).1 == ConnectorActionView::Send(MessageView::Binary(data)),
    ensures
        e == ConnectorEventView::InitReady(data) || e == ConnectorEventView::ServerUpdate(data)
            || e == ConnectorEventView::Broadcast(BroadcastView::Awareness(data)) || e
            == ConnectorEventView::Broadcast(BroadcastView::Content(data)),
{
}

/// A close frame is the last frame a session sends: after it, whatever happens, nothing
/// more goes to the peer.
pub proof fn law_close_is_the_last_frame(
    identifier: Seq<char>,
    s: ConnectorState,
    events: Seq<ConnectorEventView>,
    i: int,
    j: int,
)
    requires
        0 <= i < j < run(identifier, s, events).1.len(),
        run(identifier, s, events).1[i] == ConnectorActionView::Send(MessageView::Close),
    ensures
        !(run(identifier, s, events).1[j] is Send),
    decreases events.len(),
{
    let (s1, a) = next(identifier, s, events[0]);
    let tail = events.drop_first();
    let rest = run(identifier, s1, tail).1;
    assert(run(identifier, s, events).1 == seq![a] + rest);
    assert(run(identifier, s, events).1[j] == rest[j - 1]);
    if i == 0 {
        assert(winding_down(s1));
        law_nothing_sent_while_winding_down(identifier, s1, tail);
    } else {
        assert(rest[i - 1] == run(identifier, s, events).1[i]);
        law_close_is_the_last_frame(identifier, s1, tail, i - 1, j - 1);
    }
}

impl ConnectorState {
    /// The state of a handler that has just been started.
    pub fn start() -> (s: ConnectorState)
        ensures
            s == ConnectorState::AwaitingInit,
    {
        ConnectorState::AwaitingInit
    }

    /// Whether `event` is an answer that this state waits for.
    pub fn accepts(&self, event: &ConnectorEvent) -> (ok: bool)
        ensures
            ok == accepts(*self, event@),
    {
        match self {
            ConnectorState::AwaitingInit => match event {
                ConnectorEvent::InitReady(_) => true,
                ConnectorEvent::InitFailed => true,
                _ => false,
            },
            ConnectorState::Listening => match event {
                ConnectorEvent::ServerUpdate(_) => true,
                ConnectorEvent::Broadcast(_) => true,
                ConnectorEvent::Tick => true,
                _ => false,
            },
            ConnectorState::Migrating => match event {
                ConnectorEvent::Migrated(_) => true,
                _ => false,
            },
            ConnectorState::FinalMigration => match event {
                ConnectorEvent::Migrated(_) => true,
                _ => false,
            },
            ConnectorState::Stopped => false,
            _ => match event {
                ConnectorEvent::SendOk => true,
                ConnectorEvent::SendFailed => true,
                _ => false,
            },
        }
    }

    /// Decides what a session of the user `identifier` does when `event` happens.
    pub fn step(self, identifier: &str, event: ConnectorEvent) -> (res: (
        ConnectorState,
        ConnectorAction,
    ))
        requires
            accepts(self, event@),
        ensures
            (res.0, res.1@) == next(identifier@, self, event@),
    {
        match self {
            ConnectorState::AwaitingInit => match event {
                ConnectorEvent::InitReady(d) => (
                    ConnectorState::SendingInit,
                    ConnectorAction::Send(Message::Binary(d)),
                ),
                _ => (ConnectorState::ClosingEarly, ConnectorAction::Send(Message::Close)),
            },
            ConnectorState::SendingInit => match event {
                ConnectorEvent::SendOk => (ConnectorState::Listening, ConnectorAction::Wait),
                _ => (ConnectorState::ClosingEarly, ConnectorAction::Send(Message::Close)),
            },
            ConnectorState::ClosingEarly => (ConnectorState::Stopped, ConnectorAction::Stop),
            ConnectorState::Listening => match event {
                ConnectorEvent::ServerUpdate(d) => (
                    ConnectorState::Forwarding,
                    ConnectorAction::Send(Message::Binary(d)),
                ),
                ConnectorEvent::Broadcast(b) => match b {
                    BroadcastType::BroadcastAwareness(d) => (
                        ConnectorState::Forwarding,
                        ConnectorAction::Send(Message::Binary(d)),
                    ),
                    BroadcastType::BroadcastContent(d) => (
                        ConnectorState::Forwarding,
                        ConnectorAction::Send(Message::Binary(d)),
                    ),
                    BroadcastType::CloseUser(user) => if same_text(user.as_str(), identifier) {
                        (ConnectorState::Closing, ConnectorAction::Send(Message::Close))
                    } else {
                        (ConnectorState::Listening, ConnectorAction::Wait)
                    },
                    BroadcastType::CloseAll => (
                        ConnectorState::Closing,
                        ConnectorAction::Send(Message::Close),
                    ),
                },
                _ => (ConnectorState::Migrating, ConnectorAction::Migrate),
            },
            ConnectorState::Forwarding => match event {
                ConnectorEvent::SendOk => (ConnectorState::Listening, ConnectorAction::Wait),
                _ => (ConnectorState::FinalMigration, ConnectorAction::Migrate),
            },
            ConnectorState::Pinging => match event {
                ConnectorEvent::SendOk => (ConnectorState::Listening, ConnectorAction::Wait),
                _ => (ConnectorState::FinalMigration, ConnectorAction::Migrate),
            },
            ConnectorState::Closing => (ConnectorState::FinalMigration, ConnectorAction::Migrate),
            ConnectorState::Migrating => match event {
                ConnectorEvent::Migrated(closed) => if closed {
                    (ConnectorState::FinalMigration, ConnectorAction::Migrate)
                } else {
                    (ConnectorState::Pinging, ConnectorAction::Send(Message::Ping))
                },
                _ => (ConnectorState::FinalMigration, ConnectorAction::Migrate),
            },
            ConnectorState::FinalMigration => (ConnectorState::Stopped, ConnectorAction::Stop),
            ConnectorState::Stopped => (ConnectorState::Stopped, ConnectorAction::Stop),
        }
    }
}

} // verus!
