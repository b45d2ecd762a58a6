//! The client side of remote synchronisation: what one sync connection does with each
//! thing that happens on the socket or in the local workspace, and how the sync thread
//! reacts to the end of a connection.

use vstd::prelude::*;
use crate::message::{copy_bytes, Message, MessageView};
use vstd::string::StringExecFns;
use tokio_tungstenite::tungstenite::client::IntoClientRequest;

verus! {

/// The frame that a peer sends when it has nothing to update; it is skipped.
pub open spec fn empty_update() -> Seq<u8> {
    seq![0u8, 2u8, 2u8, 0u8, 0u8]
}

/// Whether `msg` is the empty update frame.
pub fn is_empty_update(msg: &Vec<u8>) -> (empty: bool)
    ensures
        empty == (msg@ == empty_update()),
{
    if msg.len() != 5 {
        return false;
    }
    let e = msg[0] == 0 && msg[1] == 2 && msg[2] == 2 && msg[3] == 0 && msg[4] == 0;
    if e {
        assert(msg@ =~= empty_update());
    } else {
        assert(msg@ != empty_update()) by {
            if msg@ == empty_update() {
                assert(msg@[0] == 0 && msg@[1] == 2 && msg@[2] == 2 && msg@[3] == 0 && msg@[4] == 0);
            }
        }
    }
    e
}

/// The bytes of each update, in order.
pub open spec fn updates_view(updates: Seq<Vec<u8>>) -> Seq<Seq<u8>> {
    updates.map_values(|u: Vec<u8>| u@)
}

/// Where one sync connection stands.
pub enum SyncSession {
    /// Waiting for a frame from the remote peer or an update of the local workspace.
    Listening,
    /// A remote update is being applied to the local workspace.
    Decoding,
    /// The first-sync flag is being raised; then these answers go to the peer.
    Marking(Vec<Vec<u8>>),
    /// The answers to a remote update are being sent; the one before the index is in flight.
    Forwarding(Vec<Vec<u8>>, usize),
    /// A local update is being sent to the peer.
    SendingLocal,
    /// The socket is being closed; the flag is the connection's result.
    Closing(bool),
    /// The connection is over with this result: `true` when no new connection is needed.
    Finished(bool),
}

/// The mathematical value of a [`SyncSession`].
pub enum SyncSessionView {
    Listening,
    Decoding,
    Marking(Seq<Seq<u8>>),
    Forwarding(Seq<Seq<u8>>, nat),
    SendingLocal,
    Closing(bool),
    Finished(bool),
}

impl View for SyncSession {
    type V = SyncSessionView;

    open spec fn view(&self) -> SyncSessionView {
        match self {
            SyncSession::Listening => SyncSessionView::Listening,
            SyncSession::Decoding => SyncSessionView::Decoding,
            SyncSession::Marking(p) => SyncSessionView::Marking(updates_view(p@)),
            SyncSession::Forwarding(p, i) => SyncSessionView::Forwarding(updates_view(p@), *i as nat),
            SyncSession::SendingLocal => SyncSessionView::SendingLocal,
            SyncSession::Closing(r) => SyncSessionView::Closing(*r),
            SyncSession::Finished(r) => SyncSessionView::Finished(*r),
        }
    }
}

/// What a sync connection learns from the outside.
pub enum SyncEvent {
    /// The peer sent a binary frame.
    RemoteBinary(Vec<u8>),
    /// The peer sent a frame of another kind.
    RemoteOther,
    /// Reading from the socket failed.
    RemoteError,
    /// The local workspace produced an update.
    LocalUpdate(Vec<u8>),
    /// The remote update was applied; these updates answer it.
    Decoded(Vec<Vec<u8>>),
    /// The last requested step that has no outcome of its own is done.
    Done,
    /// The last frame went out.
    SendOk,
    /// The last frame could not be sent.
    SendFailed,
}

/// The mathematical value of a [`SyncEvent`].
pub enum SyncEventView {
    RemoteBinary(Seq<u8>),
    RemoteOther,
    RemoteError,
    LocalUpdate(Seq<u8>),
    Decoded(Seq<Seq<u8>>),
    Done,
    SendOk,
    SendFailed,
}

impl View for SyncEvent {
    type V = SyncEventView;

    open spec fn view(&self) -> SyncEventView {
        match self {
            SyncEvent::RemoteBinary(m) => SyncEventView::RemoteBinary(m@),
            SyncEvent::RemoteOther => SyncEventView::RemoteOther,
            SyncEvent::RemoteError => SyncEventView::RemoteError,
            SyncEvent::LocalUpdate(m) => SyncEventView::LocalUpdate(m@),
            SyncEvent::Decoded(p) => SyncEventView::Decoded(updates_view(p@)),
            SyncEvent::Done => SyncEventView::Done,
            SyncEvent::SendOk => SyncEventView::SendOk,
            SyncEvent::SendFailed => SyncEventView::SendFailed,
        }
    }
}

/// What a sync connection asks the outside to do next.
pub enum SyncAction {
    /// Wait for the next frame from the peer or local update.
    Wait,
    /// Apply this remote update to the local workspace and report `Decoded`.
    Decode(Vec<u8>),
    /// Raise the first-sync flag and report `Done`.
    MarkSynced,
    /// Send this frame to the peer and report `SendOk` or `SendFailed`.
    Send(Message),
    /// Close the socket and report `Done`.
    Close,
    /// End the connection with this result.
    Finish(bool),
}

/// The mathematical value of a [`SyncAction`].
pub enum SyncActionView {
    Wait,
    Decode(Seq<u8>),
    MarkSynced,
    Send(MessageView),
    Close,
    Finish(bool),
}

impl View for SyncAction {
    type V = SyncActionView;

    open spec fn view(&self) -> SyncActionView {
        match self {
            SyncAction::Wait => SyncActionView::Wait,
            SyncAction::Decode(m) => SyncActionView::Decode(m@),
            SyncAction::MarkSynced => SyncActionView::MarkSynced,
            SyncAction::Send(m) => SyncActionView::Send(m@),
            SyncAction::Close => SyncActionView::Close,
            SyncAction::Finish(r) => SyncActionView::Finish(*r),
        }
    }
}

/// A state that can occur: a forwarding index points just past an update that exists.
pub open spec fn session_wf(s: SyncSessionView) -> bool {
    match s {
        SyncSessionView::Forwarding(p, i) => 1 <= i <= p.len(),
        _ => true,
    }
}

/// The events that a state waits for.
pub open spec fn session_accepts(s: SyncSessionView, e: SyncEventView) -> bool {
    match s {
        SyncSessionView::Listening => e is RemoteBinary || e is RemoteOther || e is RemoteError
            || e is LocalUpdate,
        SyncSessionView::Decoding => e is Decoded,
        SyncSessionView::Marking(_) => e is Done,
        SyncSessionView::Closing(_) => e is Done,
        SyncSessionView::Finished(_) => false,
        _ => e is SendOk || e is SendFailed,
    }
}

/// The answer at index `i` of `p`, or the return to listening once all went out.
pub open spec fn forward_from(p: Seq<Seq<u8>>, i: nat) -> (SyncSessionView, SyncActionView) {
    if i >= p.len() {
        (SyncSessionView::Listening, SyncActionView::Wait)
    } else {
        (
            SyncSessionView::Forwarding(p, i + 1),
            SyncActionView::Send(MessageView::Binary(p[i as int])),
        )
    }
}

/// The connection's transition relation.
pub open spec fn session_next(s: SyncSessionView, e: SyncEventView) -> (
    SyncSessionView,
    SyncActionView,
) {
    match s {
        SyncSessionView::Listening => match e {
            SyncEventView::RemoteBinary(m) => if m == empty_update() {
                (SyncSessionView::Listening, SyncActionView::Wait)
            } else {
                (SyncSessionView::Decoding, SyncActionView::Decode(m))
            },
            SyncEventView::RemoteError => (
                SyncSessionView::Finished(false),
                SyncActionView::Finish(false),
            ),
            SyncEventView::LocalUpdate(m) => (
                SyncSessionView::SendingLocal,
                SyncActionView::Send(MessageView::Binary(m)),
            ),
            _ => (SyncSessionView::Listening, SyncActionView::Wait),
        },
        SyncSessionView::Decoding => match e {
            SyncEventView::Decoded(p) => (SyncSessionView::Marking(p), SyncActionView::MarkSynced),
            _ => (SyncSessionView::Decoding, SyncActionView::Wait),
        },
        SyncSessionView::Marking(p) => forward_from(p, 0),
        SyncSessionView::Forwarding(p, i) => if e is SendOk {
            forward_from(p, i)
        } else {
            (SyncSessionView::Closing(false), SyncActionView::Close)
        },
        SyncSessionView::SendingLocal => if e is SendOk {
            (SyncSessionView::Listening, SyncActionView::Wait)
        } else {
            (SyncSessionView::Closing(true), SyncActionView::Close)
        },
        SyncSessionView::Closing(r) => (SyncSessionView::Finished(r), SyncActionView::Finish(r)),
        SyncSessionView::Finished(r) => (SyncSessionView::Finished(r), SyncActionView::Finish(r)),
    }
}

/// The state and the actions of a connection fed `events` one by one, up to the first
/// event that its state does not accept.
pub open spec fn session_run(s: SyncSessionView, events: Seq<SyncEventView>) -> (
    SyncSessionView,
    Seq<SyncActionView>,
)
    decreases events.len(),
{
    if events.len() == 0 || !session_accepts(s, events[0]) {
        (s, Seq::empty())
    } else {
        let (s1, a) = session_next(s, events[0]);
        let (s2, rest) = session_run(s1, events.drop_first());
        (s2, seq![a] + rest)
    }
}

/// `n` send confirmations.
pub open spec fn send_oks(n: nat) -> Seq<SyncEventView> {
    Seq::new(n, |k: int| SyncEventView::SendOk)
}

/// The frames that carry the updates `p`.
pub open spec fn sends_of(p: Seq<Seq<u8>>) -> Seq<SyncActionView> {
    p.map_values(|u: Seq<u8>| SyncActionView::Send(MessageView::Binary(u)))
}

proof fn lemma_forwarding_drains(p: Seq<Seq<u8>>, i: nat)
    requires
        1 <= i <= p.len(),
    ensures
        session_run(SyncSessionView::Forwarding(p, i), send_oks((p.len() - i + 1) as nat))
            == (SyncSessionView::Listening, sends_of(p.subrange(i as int, p.len() as int)).push(
            SyncActionView::Wait,
        )),
    decreases p.len() - i,
{
    reveal_with_fuel(session_run, 2);
    let events = send_oks((p.len() - i + 1) as nat);
    let s = SyncSessionView::Forwarding(p, i);
    assert(events[0] == SyncEventView::SendOk);
    if i == p.len() {
        assert(events.drop_first() =~= Seq::empty());
        assert(sends_of(p.subrange(i as int, p.len() as int)) =~= Seq::empty());
        assert(session_run(s, events).1 =~= seq![SyncActionView::Wait]);
    } else {
        assert(events.drop_first() =~= send_oks((p.len() - (i + 1) + 1) as nat));
        lemma_forwarding_drains(p, i + 1);
        let tail = sends_of(p.subrange((i + 1) as int, p.len() as int)).push(SyncActionView::Wait);
        assert(seq![SyncActionView::Send(MessageView::Binary(p[i as int]))] + tail
            =~= sends_of(p.subrange(i as int, p.len() as int)).push(SyncActionView::Wait));
    }
}

/// The answers to a remote update go to the peer one by one, in the order in which the
/// workspace produced them, each exactly once, as long as every send succeeds; then the
/// connection listens again.
pub proof fn law_answers_sent_in_order(p: Seq<Seq<u8>>)
    ensures
        session_run(
            SyncSessionView::Marking(p),
            seq![SyncEventView::Done] + send_oks(p.len()),
        ) == (SyncSessionView::Listening, sends_of(p).push(SyncActionView::Wait)),
{
    reveal_with_fuel(session_run, 2);
    let events = seq![SyncEventView::Done] + send_oks(p.len());
    assert(events[0] == SyncEventView::Done);
    assert(events.drop_first() =~= send_oks(p.len()));
    if p.len() == 0 {
        assert(send_oks(0) =~= Seq::empty());
        assert(sends_of(p) =~= Seq::empty());
        assert(session_run(SyncSessionView::Marking(p), events).1 =~= seq![SyncActionView::Wait]);
    } else {
        assert(send_oks(p.len()) =~= send_oks((p.len() - 1 + 1) as nat));
        lemma_forwarding_drains(p, 1);
        assert(seq![SyncActionView::Send(MessageView::Binary(p[0]))] + sends_of(
            p.subrange(1, p.len() as int),
        ).push(SyncActionView::Wait) =~= sends_of(p).push(SyncActionView::Wait));
    }
}

/// A remote binary frame is skipped exactly when it is the empty update; any other one
/// is applied to the local workspace as it came.
pub proof fn law_empty_update_skipped(m: Seq<u8>)
    ensures
        session_next(SyncSessionView::Listening, SyncEventView::RemoteBinary(m)) == if m
            == empty_update() {
            (SyncSessionView::Listening, SyncActionView::Wait)
        } else {
            (SyncSessionView::Decoding, SyncActionView::Decode(m))
        },
{
}

/// A local update of the workspace is sent to the remote peer with exactly its own bytes,
/// and the connection then waits for the outcome of that send.
pub proof fn law_local_update_sent_verbatim(m: Seq<u8>)
    ensures
        session_next(SyncSessionView::Listening, SyncEventView::LocalUpdate(m)) == (
            SyncSessionView::SendingLocal,
            SyncActionView::Send(MessageView::Binary(m)),
        ),
        session_accepts(SyncSessionView::Listening, SyncEventView::LocalUpdate(m)),
{
}

/// A remote update is applied as it came; the answers that the workspace gives are then
/// all kept, in order, and the first-sync flag is raised before any of them is sent.
pub proof fn law_remote_update_decoded_then_flag_raised(m: Seq<u8>, p: Seq<Seq<u8>>)
    ensures
        m != empty_update() ==> session_next(
            SyncSessionView::Listening,
            SyncEventView::RemoteBinary(m),
        ) == (SyncSessionView::Decoding, SyncActionView::Decode(m)),
        session_next(SyncSessionView::Decoding, SyncEventView::Decoded(p)) == (
            SyncSessionView::Marking(p),
            SyncActionView::MarkSynced,
        ),
{
}

/// Frames of other kinds from the peer are ignored; a failed read ends the connection
/// with `false`, without closing the socket, so that a new connection is made.
pub proof fn law_remote_other_ignored_and_error_ends()
    ensures
        session_next(SyncSessionView::Listening, SyncEventView::RemoteOther) == (
            SyncSessionView::Listening,
            SyncActionView::Wait,
        ),
        session_next(SyncSessionView::Listening, SyncEventView::RemoteError) == (
            SyncSessionView::Finished(false),
            SyncActionView::Finish(false),
        ),
        !session_accepts(SyncSessionView::Finished(false), SyncEventView::RemoteOther),
{
}

/// A connection whose answer to the peer cannot be sent closes the socket and ends
/// with `false`, so that a new connection is made; one whose local update cannot be
/// sent closes the socket and ends with `true`.
pub proof fn law_failed_send_outcome(p: Seq<Seq<u8>>, i: nat)
    requires
        1 <= i <= p.len(),
    ensures
        session_run(
            SyncSessionView::Forwarding(p, i),
            seq![SyncEventView::SendFailed, SyncEventView::Done],
        ) == (SyncSessionView::Finished(false), seq![
            SyncActionView::Close,
            SyncActionView::Finish(false),
        ]),
        session_run(
            SyncSessionView::SendingLocal,
            seq![SyncEventView::SendFailed, SyncEventView::Done],
        ) == (SyncSessionView::Finished(true), seq![
            SyncActionView::Close,
            SyncActionView::Finish(true),
        ]),
{
    reveal_with_fuel(session_run, 3);
    let events = seq![SyncEventView::SendFailed, SyncEventView::Done];
    assert(events.drop_first() =~= seq![SyncEventView::Done]);
    assert(events.drop_first().drop_first() =~= Seq::<SyncEventView>::empty());
    assert(session_run(SyncSessionView::Forwarding(p, i), events).1 =~= seq![
        SyncActionView::Close,
        SyncActionView::Finish(false),
    ]);
    assert(session_run(SyncSessionView::SendingLocal, events).1 =~= seq![
        SyncActionView::Close,
        SyncActionView::Finish(true),
    ]);
}

impl SyncSession {
    /// The state of a connection that has just been opened.
    pub fn start() -> (s: SyncSession)
        ensures
            s@ == SyncSessionView::Listening,
    {
        SyncSession::Listening
    }

    /// The state is one that can occur.
    pub open spec fn wf(&self) -> bool {
        session_wf(self@)
    }

    /// Whether `event` is an answer that this state waits for.
    pub fn accepts(&self, event: &SyncEvent) -> (ok: bool)
        ensures
            ok == session_accepts(self@, event@),
    {
        match self {
            SyncSession::Listening => match event {
                SyncEvent::RemoteBinary(_) => true,
                SyncEvent::RemoteOther => true,
                SyncEvent::RemoteError => true,
                SyncEvent::LocalUpdate(_) => true,
                _ => false,
            },
            SyncSession::Decoding => match event {
                SyncEvent::Decoded(_) => true,
                _ => false,
            },
            SyncSession::Marking(_) => match event {
                SyncEvent::Done => true,
                _ => false,
            },
            SyncSession::Closing(_) => match event {
                SyncEvent::Done => true,
                _ => false,
            },
            SyncSession::Finished(_) => false,
            _ => match event {
                SyncEvent::SendOk => true,
                SyncEvent::SendFailed => true,
                _ => false,
            },
        }
    }

    fn forward(updates: Vec<Vec<u8>>, i: usize) -> (res: (SyncSession, SyncAction))
        requires
            i <= updates.len(),
        ensures
            (res.0@, res.1@) == forward_from(updates_view(updates@), i as nat),
            session_wf(res.0@),
    {
        if i >= updates.len() {
            (SyncSession::Listening, SyncAction::Wait)
        } else {
            let frame = copy_bytes(&updates[i]);
            proof {
                assert(updates_view(updates@)[i as int] == updates@[i as int]@);
            }
            (SyncSession::Forwarding(updates, i + 1), SyncAction::Send(Message::Binary(frame)))
        }
    }

    /// Decides what the connection does when `event` happens.
    pub fn step(self, event: SyncEvent) -> (res: (SyncSession, SyncAction))
        requires
            self.wf(),
            session_accepts(self@, event@),
        ensures
            res.0.wf(),
            (res.0@, res.1@) == session_next(self@, event@),
    {
        match self {
            SyncSession::Listening => match event {
                SyncEvent::RemoteBinary(m) => if is_empty_update(&m) {
                    (SyncSession::Listening, SyncAction::Wait)
                } else {
                    (SyncSession::Decoding, SyncAction::Decode(m))
                },
                SyncEvent::RemoteError => (SyncSession::Finished(false), SyncAction::Finish(false)),
                SyncEvent::LocalUpdate(m) => (
                    SyncSession::SendingLocal,
                    SyncAction::Send(Message::Binary(m)),
                ),
                _ => (SyncSession::Listening, SyncAction::Wait),
            },
            SyncSession::Decoding => match event {
                SyncEvent::Decoded(p) => (SyncSession::Marking(p), SyncAction::MarkSynced),
                _ => (SyncSession::Decoding, SyncAction::Wait),
            },
            SyncSession::Marking(p) => Self::forward(p, 0),
            SyncSession::Forwarding(p, i) => match event {
                SyncEvent::SendOk => Self::forward(p, i),
                _ => (SyncSession::Closing(false), SyncAction::Close),
            },
            SyncSession::SendingLocal => match event {
                SyncEvent::SendOk => (SyncSession::Listening, SyncAction::Wait),
                _ => (SyncSession::Closing(true), SyncAction::Close),
            },
            SyncSession::Closing(r) => (SyncSession::Finished(r), SyncAction::Finish(r)),
            SyncSession::Finished(r) => (SyncSession::Finished(r), SyncAction::Finish(r)),
        }
    }
}

/// How one sync connection ended, as the sync thread sees it.
#[derive(Clone, Copy, PartialEq, Eq, Structural, Debug)]
pub enum SyncOutcome {
    /// The connection ended with `true`: no new connection is needed.
    Completed,
    /// The connection ended with `false`: the remote went away.
    Disconnected,
    /// The connection could not be set up.
    Failed,
}

/// What the sync thread does after a connection ended.
#[derive(Clone, Copy, PartialEq, Eq, Structural, Debug)]
pub enum RetryPlan {
    /// The sync thread ends.
    Finish,
    /// A new connection is made after this many seconds.
    RetryAfterSecs(u64),
}

/// Seconds after which a dropped connection is made again ("try again in 2 seconds").
pub const RECONNECT_DELAY_SECS: u64 = 2;

/// Seconds after which a connection that could not be set up is tried again ("try again
/// in 3 seconds").
pub const RETRY_DELAY_SECS: u64 = 3;

/// Seconds after the start of the sync thread at which the waiting caller is released
/// even when no connection has synced yet.
pub const FIRST_SYNC_TIMEOUT_SECS: u64 = 2;

/// Seconds that the sync thread waits before its first connection.
pub const SYNC_START_DELAY_SECS: u64 = 6;

/// Milliseconds between two looks of the caller at the first-sync flag.
pub const FIRST_SYNC_POLL_MILLIS: u64 = 100;

/// Capacity of the channel that carries a workspace's local updates to the sync thread.
pub const REMOTE_CHANNEL_CAPACITY: usize = 100;

/// The sync thread's policy after a connection ended. Whatever the outcome, the
/// first-sync flag is raised, so that a caller waiting for it is released.
pub fn after_sync(outcome: SyncOutcome) -> (plan: RetryPlan)
    ensures
        plan == match outcome {
            SyncOutcome::Completed => RetryPlan::Finish,
            SyncOutcome::Disconnected => RetryPlan::RetryAfterSecs(RECONNECT_DELAY_SECS),
            SyncOutcome::Failed => RetryPlan::RetryAfterSecs(RETRY_DELAY_SECS),
        },
{
    match outcome {
        SyncOutcome::Completed => RetryPlan::Finish,
        SyncOutcome::Disconnected => RetryPlan::RetryAfterSecs(RECONNECT_DELAY_SECS),
        SyncOutcome::Failed => RetryPlan::RetryAfterSecs(RETRY_DELAY_SECS),
    }
}

/// The outcome of a connection that ended with `result`.
pub fn outcome_of<E>(result: Result<bool, E>) -> (outcome: SyncOutcome)
    ensures
        outcome == match result {
            Ok(true) => SyncOutcome::Completed,
            Ok(false) => SyncOutcome::Disconnected,
            Err(_) => SyncOutcome::Failed,
        },
{
    match result {
        Ok(true) => SyncOutcome::Completed,
        Ok(false) => SyncOutcome::Disconnected,
        Err(_) => SyncOutcome::Failed,
    }
}

/// The caller of the sync thread keeps waiting while an attempt to take the raised
/// first-sync flag (swap `true` for `false`) finds it lowered.
pub fn still_waiting_for_first_sync(attempt: Result<bool, bool>) -> (wait: bool)
    ensures
        wait == (attempt == Ok::<bool, bool>(false) || attempt == Err::<bool, bool>(false)),
{
    match attempt {
        Ok(b) => !b,
        Err(b) => !b,
    }
}

/// A workspace is synced with a remote peer exactly when a remote address is given.
pub fn needs_remote_sync(remote: &str) -> (sync: bool)
    ensures
        sync == (remote@.len() > 0),
{
    remote.unicode_len() > 0
}

/// Why a connection to the remote peer could not be prepared.
#[derive(Clone, Copy, PartialEq, Eq, Structural, Debug)]
pub enum ConnectError {
    /// The remote address is not a URL.
    InvalidUrl,
    /// The URL does not make a websocket request.
    InvalidRequest,
}

/// The sub-protocol that the client asks the remote peer for.
pub const WEBSOCKET_PROTOCOL: &'static str = "AFFiNE";

/// The serialisation of the URL that `url::Url::parse` makes of `input`, when it makes one.
pub uninterp spec fn url_parse(input: Seq<char>) -> Option<Seq<char>>;

/// Whether tungstenite's `IntoClientRequest` for `&str` makes a request of this URL.
pub uninterp spec fn request_accepted(url: Seq<char>) -> bool;

/// Calls `url::Url::parse` and gives back the parsed URL as `Url::as_str` writes it.
/// The result is named `url_parse` of the input: the WHATWG URL rules that decide it
/// are not written out here.
#[verifier::external_body]
fn parse_url(input: &str) -> (parsed: Option<String>)
    ensures
        match parsed {
            Some(u) => url_parse(input@) == Some(u@),
            None => url_parse(input@) is None,
        },
{
    match url::Url::parse(input) {
        Ok(u) => Some(u.as_str().to_string()),
        Err(_) => None,
    }
}

/// Calls tungstenite's `IntoClientRequest::into_client_request` on a URL string and tells
/// whether it made a request. It fails exactly when `request_accepted` does not hold of
/// the URL: the URI does not parse, has no authority or an empty host, or the request
/// cannot be built (a header value that is not valid). The random handshake key that the
/// request carries does not affect this.
#[verifier::external_body]
fn client_request_accepted(url: &str) -> (accepted: bool)
    ensures
        accepted == request_accepted(url@),
{
    url.into_client_request().is_ok()
}

/// The characters that `http::HeaderValue` takes in a header value built from a static
/// string: visible ASCII and tab.
pub open spec fn visible_ascii(s: Seq<char>) -> bool {
    forall|i: int|
        0 <= i < s.len() ==> ((32 <= (s[i] as u32) && (s[i] as u32) < 127) || s[i] == '\t')
}

/// Where and how to open the websocket to the remote peer: the URL of the handshake
/// request and the sub-protocol that it asks for in `Sec-WebSocket-Protocol`.
pub struct WebSocketTarget {
    pub url: String,
    pub protocol: String,
}

/// The websocket target for an already parsed URL, asking for the `AFFiNE` sub-protocol;
/// an error when the URL makes no websocket request.
pub fn request_for_url(url: &str) -> (target: Result<WebSocketTarget, ConnectError>)
    ensures
        target is Ok <==> request_accepted(url@),
        target matches Err(e) ==> e == ConnectError::InvalidRequest,
        target matches Ok(t) ==> t.url@ == url@ && t.protocol@ == WEBSOCKET_PROTOCOL@
            && visible_ascii(t.protocol@),
{
    if client_request_accepted(url) {
        proof {
            reveal_strlit("AFFiNE");
        }
        Ok(WebSocketTarget { url: String::from_str(url), protocol: String::from_str(WEBSOCKET_PROTOCOL) })
    } else {
        Err(ConnectError::InvalidRequest)
    }
}

/// Prepares the websocket handshake to the remote peer at `remote`: the address must be
/// a URL, and the URL must make a websocket request; the request goes to the parsed URL
/// and asks for the `AFFiNE` sub-protocol.
pub fn prepare_connection(remote: &str) -> (target: Result<WebSocketTarget, ConnectError>)
    ensures
        target matches Err(ConnectError::InvalidUrl) <==> url_parse(remote@) is None,
        target matches Err(ConnectError::InvalidRequest) <==> (url_parse(remote@) is Some
            && !request_accepted(url_parse(remote@)->0)),
        target is Ok <==> (url_parse(remote@) is Some && request_accepted(
            url_parse(remote@)->0,
        )),
        target matches Ok(t) ==> t.url@ == url_parse(remote@)->0 && t.protocol@
            == WEBSOCKET_PROTOCOL@,
{
    match parse_url(remote) {
        Some(url) => request_for_url(url.as_str()),
        None => Err(ConnectError::InvalidUrl),
    }
}

} // verus!
