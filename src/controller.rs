//! The session of one connected controller: frame handling, request
//! correlation, the heartbeat policy and registration with the manager.
use vstd::prelude::*;
use crate::command::{
    internal_error, internal_error_text, processing_error, processing_error_text, Command,
    CommandResult, ControllerMessage, Device, ResultView, ServerMessage, ServerMessageView,
};

verus! {

/// How often, in milliseconds, the heartbeat is checked and a ping sent.
pub const HEARTBEAT_INTERVAL_MS: u64 = 5000;

/// How long, in milliseconds, a peer may stay silent before it is dropped.
pub const CLIENT_TIMEOUT_MS: u64 = 10000;

/// Where a session is in its life.
#[derive(Clone, Copy, PartialEq, Eq, Structural, Debug)]
pub enum Phase {
    Connected,
    Closing,
    Terminated,
}

/// A frame received from the peer; a text frame arrives decoded, `None`
/// where it did not decode as a request.
pub enum Frame {
    Ping(Vec<u8>),
    Pong,
    Text(Option<ControllerMessage>),
    Close,
    Binary,
    Continuation,
    Nop,
    TransportError,
}

/// What the runtime does after a frame or a heartbeat tick.
pub enum Action {
    /// Nothing.
    Nothing,
    /// Answer a ping with this payload.
    SendPong(Vec<u8>),
    /// Send a ping.
    SendPing,
    /// Write this message to the peer.
    Send(ServerMessage),
    /// Hand the command to the manager; its result goes back under this id.
    Forward(String, Command),
    /// End the session, sending a close frame first where asked.
    Shutdown { send_close: bool },
}

/// A fleet snapshot pushed by the manager.
pub struct SyncMessage {
    pub devices: Vec<Device>,
}

/// Mathematical form of a session.
pub struct ControllerView {
    pub session_id: u128,
    pub remote_addr: Seq<char>,
    pub heart_beat: u64,
    pub phase: Phase,
    pub registered: bool,
}

/// Whether a peer last heard from at `heart_beat` counts as dead at `now`.
pub open spec fn timed_out(heart_beat: u64, now: u64) -> bool {
    now - heart_beat > CLIENT_TIMEOUT_MS
}

/// The session after a heartbeat tick at `now`: a connected session whose
/// peer timed out starts closing.
pub open spec fn after_tick(v: ControllerView, now: u64) -> ControllerView {
    if v.phase == Phase::Connected && timed_out(v.heart_beat, now) {
        ControllerView { phase: Phase::Closing, ..v }
    } else {
        v
    }
}

/// Text of the refusal of a connection whose peer address is unknown.
pub open spec fn no_address_text() -> Seq<char> {
    "WebSocket connection without remote address"@
}

/// One connected controller.
pub struct Controller {
    session_id: u128,
    remote_addr: String,
    heart_beat: u64,
    phase: Phase,
    registered: bool,
}

impl View for Controller {
    type V = ControllerView;

    closed spec fn view(&self) -> ControllerView {
        ControllerView {
            session_id: self.session_id,
            remote_addr: self.remote_addr@,
            heart_beat: self.heart_beat,
            phase: self.phase,
            registered: self.registered,
        }
    }
}

impl Controller {
    /// A session `session_id` (one that the manager claimed) for a peer at
    /// `remote_addr`, connected at `now`; refused where the address is
    /// unknown.
    pub fn new(session_id: u128, remote_addr: Option<String>, now: u64) -> (r: Result<Self, String>)
        ensures
            remote_addr is None ==> (r matches Err(e) && e@ == no_address_text()),
            remote_addr matches Some(a) ==> (r matches Ok(c) && c@ == (ControllerView {
                session_id,
                remote_addr: a@,
                heart_beat: now,
                phase: Phase::Connected,
                registered: false,
            })),
    {
        match remote_addr {
            Some(a) => Ok(
                Controller {
                    session_id,
                    remote_addr: a,
                    heart_beat: now,
                    phase: Phase::Connected,
                    registered: false,
                },
            ),
            None => Err(String::from_str("WebSocket connection without remote address")),
        }
    }

    /// The session's id.
    pub fn session_id(&self) -> (r: u128)
        ensures
            r == self@.session_id,
    {
        self.session_id
    }

    /// The peer's address.
    pub fn remote_addr(&self) -> (r: &str)
        ensures
            r@ == self@.remote_addr,
    {
        self.remote_addr.as_str()
    }

    /// Where the session is in its life.
    pub fn phase(&self) -> (r: Phase)
        ensures
            r == self@.phase,
    {
        self.phase
    }

    /// The session's actor has started: it registers with the manager under
    /// the returned id.
    pub fn started(&mut self) -> (r: u128)
        ensures
            r == old(self)@.session_id,
            final(self)@ == (ControllerView { registered: true, ..old(self)@ }),
    {
        self.registered = true;
        self.session_id
    }

    /// Handles a frame received at `now`. Pings and pongs renew the
    /// heartbeat in every phase, and a ping is answered; other frames count
    /// only while the session is connected.
    pub fn handle_frame(&mut self, frame: Frame, now: u64) -> (r: Action)
        ensures
            frame matches Frame::Ping(p) ==> ((r matches Action::SendPong(q) && q@ == p@)
                && final(self)@ == (ControllerView { heart_beat: now, ..old(self)@ })),
            frame is Pong ==> (r is Nothing && final(self)@ == (ControllerView {
                heart_beat: now,
                ..old(self)@
            })),
            old(self)@.phase != Phase::Connected && !(frame is Ping) && !(frame is Pong) ==> (
            r is Nothing && final(self)@ == old(self)@),
            old(self)@.phase == Phase::Connected ==> match frame {
                Frame::Text(Some(m)) => (r matches Action::Forward(id, c) && id@ == m.id@ && c
                    == m.command) && final(self)@ == old(self)@,
                Frame::Text(None) => (r matches Action::Send(msg) && msg@ == (ServerMessageView {
                    id: None,
                    result: ResultView::Error(processing_error_text()),
                })) && final(self)@ == old(self)@,
                Frame::Close => (r matches Action::Shutdown { send_close } && !send_close)
                    && final(self)@ == (ControllerView { phase: Phase::Closing, ..old(self)@ }),
                Frame::TransportError => (r matches Action::Shutdown { send_close } && send_close)
                    && final(self)@ == (ControllerView { phase: Phase::Closing, ..old(self)@ }),
                Frame::Ping(_) | Frame::Pong => true,
                _ => r is Nothing && final(self)@ == old(self)@,
            },
    {
        match frame {
            Frame::Ping(p) => {
                self.heart_beat = now;
                return Action::SendPong(p);
            },
            Frame::Pong => {
                self.heart_beat = now;
                return Action::Nothing;
            },
            _ => {},
        }
        if self.phase != Phase::Connected {
            return Action::Nothing;
        }
        match frame {
            Frame::Ping(_) | Frame::Pong => Action::Nothing,
            Frame::Text(Some(m)) => Action::Forward(m.id, m.command),
            Frame::Text(None) => Action::Send(processing_error()),
            Frame::Close => {
                self.phase = Phase::Closing;
                Action::Shutdown { send_close: false }
            },
            Frame::TransportError => {
                self.phase = Phase::Closing;
                Action::Shutdown { send_close: true }
            },
            Frame::Binary | Frame::Continuation | Frame::Nop => Action::Nothing,
        }
    }

    /// The heartbeat tick at `now`: a peer silent for longer than the
    /// timeout is dropped, in whatever phase; otherwise a connected session
    /// sends a ping.
    pub fn heartbeat(&mut self, now: u64) -> (r: Action)
        ensures
            final(self)@ == after_tick(old(self)@, now),
            timed_out(old(self)@.heart_beat, now) ==> (r matches Action::Shutdown { send_close }
                && !send_close),
            !timed_out(old(self)@.heart_beat, now) && old(self)@.phase == Phase::Connected
                ==> r is SendPing,
            !timed_out(old(self)@.heart_beat, now) && old(self)@.phase != Phase::Connected
                ==> r is Nothing,
    {
        if now >= self.heart_beat && now - self.heart_beat > CLIENT_TIMEOUT_MS {
            if self.phase == Phase::Connected {
                self.phase = Phase::Closing;
            }
            Action::Shutdown { send_close: false }
        } else if self.phase == Phase::Connected {
            Action::SendPing
        } else {
            Action::Nothing
        }
    }

    /// The manager's result for the request `id`, as a message to the peer.
    pub fn reply(&self, id: String, result: CommandResult) -> (r: ServerMessage)
        ensures
            r@ == (ServerMessageView { id: Some(id@), result: result@ }),
    {
        ServerMessage { id: Some(id), result }
    }

    /// The message to the peer when the request `id` could not reach the
    /// manager.
    pub fn dispatch_failed(&self, id: String, detail: &str) -> (r: ServerMessage)
        ensures
            r@ == (ServerMessageView {
                id: Some(id@),
                result: ResultView::Error(internal_error_text(detail@)),
            }),
    {
        ServerMessage { id: Some(id), result: internal_error(detail) }
    }

    /// A fleet snapshot from the manager, as an unsolicited message.
    pub fn handle_sync(&self, msg: SyncMessage) -> (r: ServerMessage)
        ensures
            r@ == (ServerMessageView { id: None, result: ResultView::Sync(msg.devices@) }),
    {
        ServerMessage { id: None, result: CommandResult::Sync(msg.devices) }
    }

    /// The session's actor has stopped, by whatever path: tells whether the
    /// session must now be removed from the manager, which is so once only.
    pub fn stopped(&mut self) -> (r: bool)
        ensures
            r == old(self)@.registered,
            final(self)@ == (ControllerView {
                phase: Phase::Terminated,
                registered: false,
                ..old(self)@
            }),
    {
        let r = self.registered;
        self.registered = false;
        self.phase = Phase::Terminated;
        r
    }
}

/// A session whose peer has been silent for longer than the timeout is no
/// longer connected after a heartbeat tick, whatever else arrived.
pub proof fn law_silent_peer_dropped(v: ControllerView, now: u64)
    requires
        now - v.heart_beat > CLIENT_TIMEOUT_MS,
    ensures
        timed_out(v.heart_beat, now),
        after_tick(v, now).phase != Phase::Connected,
{
}

/// Ticks every heartbeat interval, the first no later than the timeout after
/// the last ping or pong, put one tick in the interval that follows the
/// timeout: a silent peer is dropped within timeout plus interval.
pub proof fn law_silent_peer_dropped_in_time(heart_beat: u64, first_tick: int)
    requires
        first_tick <= heart_beat + CLIENT_TIMEOUT_MS,
    ensures
        exists|k: nat|
            heart_beat + CLIENT_TIMEOUT_MS < #[trigger] (first_tick + k * HEARTBEAT_INTERVAL_MS)
                <= heart_beat + CLIENT_TIMEOUT_MS + HEARTBEAT_INTERVAL_MS,
        forall|now: u64|
            heart_beat + CLIENT_TIMEOUT_MS < now ==> #[trigger] timed_out(heart_beat, now),
{
    let i = HEARTBEAT_INTERVAL_MS as int;
    let d = heart_beat + CLIENT_TIMEOUT_MS - first_tick;
    let q = d / i;
    let r = d % i;
    assert(d == q * i + r && 0 <= r < i) by (nonlinear_arith)
        requires
            d >= 0,
            i > 0,
            q == d / i,
            r == d % i,
    ;
    assert(q >= 0) by (nonlinear_arith)
        requires
            d >= 0,
            i > 0,
            q == d / i,
    ;
    let k = (q + 1) as nat;
    assert(first_tick + k * i == first_tick + q * i + i) by (nonlinear_arith)
        requires
            k == q + 1,
    ;
    assert(heart_beat + CLIENT_TIMEOUT_MS < first_tick + k * HEARTBEAT_INTERVAL_MS
        <= heart_beat + CLIENT_TIMEOUT_MS + HEARTBEAT_INTERVAL_MS);
}

} // verus!
