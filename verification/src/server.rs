//! The server side of a client session: when to enter capture mode, what to
//! forward while capturing, and when to hand control back.
use vstd::prelude::*;
use crate::edge::{is_release_hotkey, is_release_hotkey_spec, ReleaseKey, EDGE_PUSH_THRESHOLD};
use crate::event::{InputEvent, Position};
use crate::proto::{message_of_event, Message};

verus! {

/// Bit pattern of the binary64 number one half: the vertical ratio used when
/// control returns without the client naming one.
pub const HALF_RATIO_BITS: u64 = 0x3FE0_0000_0000_0000;

#[derive(Debug, Clone, Copy, PartialEq, Eq, Structural)]
pub enum ServerState {
    Idle,
    Capturing { target: Position },
}

/// What happened while a client session runs.
#[derive(Debug, Clone, Copy, PartialEq)]
pub enum ServerEvent {
    /// The shutdown signal was raised.
    Shutdown,
    /// The configured side of the client changed.
    PositionChanged(Position),
    /// A local input event, with the edge it pushes against (if any) at the
    /// moment it was captured.
    Input { event: InputEvent, edge_push: Option<Position> },
    /// A message arrived on the control stream.
    StreamMessage(Message),
    /// The control stream failed.
    StreamError,
    /// A datagram arrived from the client.
    DatagramMessage(Message),
    /// Reading datagrams failed: the client is gone.
    DatagramError,
}

/// What the server has to do in response.
#[derive(Debug, Clone, Copy, PartialEq)]
pub enum ServerAction {
    Nothing,
    /// Tell the client its side (`Message::AssignPosition`).
    AssignPosition(Position),
    /// Start capturing local input and send `Message::Enter(target)`.
    EnterCapture(Position),
    /// Stop capturing, put the cursor back at the `target` edge at the given
    /// vertical ratio, and send `Message::Leave(y_ratio)`.
    LeaveCapture { target: Position, y_ratio: u64 },
    /// Send this message to the client as a datagram.
    Forward(Message),
}

#[derive(Debug, Clone, Copy, PartialEq)]
pub struct ServerStep {
    pub action: ServerAction,
    /// The session is over after the action.
    pub end_session: bool,
}

/// The decision state of one client session.
#[derive(Debug, Clone, Copy, PartialEq, Eq, Structural)]
pub struct ServerSession {
    pub state: ServerState,
    pub client_position: Position,
    pub edge_push_count: u32,
    /// The configured key that releases a capture.
    pub release_key: ReleaseKey,
}

pub open spec fn step_of(action: ServerAction, end_session: bool) -> ServerStep {
    ServerStep { action, end_session }
}

/// Leaving capture: back to idle, at the capturing target (the right edge
/// when not capturing).
pub open spec fn leave_spec(s: ServerSession, y_ratio: u64, end_session: bool) -> (
    ServerSession,
    ServerStep,
) {
    let target = match s.state {
        ServerState::Capturing { target } => target,
        ServerState::Idle => Position::Right,
    };
    (
        ServerSession { state: ServerState::Idle, ..s },
        step_of(ServerAction::LeaveCapture { target, y_ratio }, end_session),
    )
}

/// Leaves capture when capturing; otherwise does nothing.
pub open spec fn leave_if_capturing(s: ServerSession, y_ratio: u64, end_session: bool) -> (
    ServerSession,
    ServerStep,
) {
    if s.state == ServerState::Idle {
        (s, step_of(ServerAction::Nothing, end_session))
    } else {
        leave_spec(s, y_ratio, end_session)
    }
}

/// The server's reaction to one event.
pub open spec fn server_next(s: ServerSession, ev: ServerEvent) -> (ServerSession, ServerStep) {
    match ev {
        ServerEvent::Shutdown => (s, step_of(ServerAction::Nothing, true)),
        ServerEvent::PositionChanged(p) => if p != s.client_position {
            (
                ServerSession { client_position: p, edge_push_count: 0, ..s },
                step_of(ServerAction::AssignPosition(p), false),
            )
        } else {
            (s, step_of(ServerAction::Nothing, false))
        },
        ServerEvent::Input { event, edge_push } => match s.state {
            ServerState::Idle => match edge_push {
                Some(dir) => if dir == s.client_position {
                    if s.edge_push_count + 1 >= EDGE_PUSH_THRESHOLD {
                        (
                            ServerSession {
                                state: ServerState::Capturing { target: s.client_position },
                                edge_push_count: 0,
                                ..s
                            },
                            step_of(ServerAction::EnterCapture(s.client_position), false),
                        )
                    } else {
                        (
                            ServerSession { edge_push_count: (s.edge_push_count + 1) as u32, ..s },
                            step_of(ServerAction::Nothing, false),
                        )
                    }
                } else {
                    (
                        ServerSession { edge_push_count: 0, ..s },
                        step_of(ServerAction::Nothing, false),
                    )
                },
                None => if event is PointerMotion {
                    (
                        ServerSession { edge_push_count: 0, ..s },
                        step_of(ServerAction::Nothing, false),
                    )
                } else {
                    (s, step_of(ServerAction::Nothing, false))
                },
            },
            ServerState::Capturing { .. } => if is_release_hotkey_spec(event, s.release_key) {
                leave_spec(s, HALF_RATIO_BITS, false)
            } else {
                (s, step_of(ServerAction::Forward(message_of_event(event)), false))
            },
        },
        ServerEvent::StreamMessage(m) => match m {
            Message::Leave(y) => leave_if_capturing(s, y, false),
            _ => (s, step_of(ServerAction::Nothing, false)),
        },
        ServerEvent::StreamError => leave_if_capturing(s, HALF_RATIO_BITS, true),
        ServerEvent::DatagramMessage(_) => (s, step_of(ServerAction::Nothing, false)),
        ServerEvent::DatagramError => leave_if_capturing(s, HALF_RATIO_BITS, true),
    }
}

/// The server's reply to the first message of a client on the control
/// stream: `Pong` to a `Ping`, nothing to any other message (the session goes
/// on either way, with the position assignment).
pub fn handshake_reply(first: &Message) -> (r: Option<Message>)
    ensures
        r == (if *first == Message::Ping {
            Some(Message::Pong)
        } else {
            None
        }),
{
    match first {
        Message::Ping => Some(Message::Pong),
        _ => None,
    }
}

impl ServerSession {
    /// The session's invariant: the push count stays below the threshold.
    pub open spec fn wf(&self) -> bool {
        self.edge_push_count < EDGE_PUSH_THRESHOLD
    }

    /// A session with `client_position` as the client's side, starting from
    /// the server's current state, released by `release_key`.
    pub fn new(state: ServerState, client_position: Position, release_key: ReleaseKey) -> (s: Self)
        ensures
            s.wf(),
            s == (ServerSession { state, client_position, edge_push_count: 0, release_key }),
    {
        ServerSession { state, client_position, edge_push_count: 0, release_key }
    }

    fn leave(&mut self, y_ratio: u64, end_session: bool) -> (r: ServerStep)
        requires
            old(self).wf(),
        ensures
            (*final(self), r) == leave_spec(*old(self), y_ratio, end_session),
    {
        let target = match self.state {
            ServerState::Capturing { target } => target,
            ServerState::Idle => Position::Right,
        };
        self.state = ServerState::Idle;
        ServerStep { action: ServerAction::LeaveCapture { target, y_ratio }, end_session }
    }

    fn leave_if_capturing(&mut self, y_ratio: u64, end_session: bool) -> (r: ServerStep)
        requires
            old(self).wf(),
        ensures
            (*final(self), r) == leave_if_capturing(*old(self), y_ratio, end_session),
    {
        if self.state == ServerState::Idle {
            ServerStep { action: ServerAction::Nothing, end_session }
        } else {
            self.leave(y_ratio, end_session)
        }
    }

    /// Reacts to one event of the session.
    pub fn step(&mut self, ev: ServerEvent) -> (r: ServerStep)
        requires
            old(self).wf(),
        ensures
            final(self).wf(),
            (*final(self), r) == server_next(*old(self), ev),
            final(self).release_key == old(self).release_key,
            (old(self).state is Capturing && (ev matches ServerEvent::Input { event, .. }
                && is_release_hotkey_spec(event, old(self).release_key))) ==> (r.action is LeaveCapture
                && final(self).state == ServerState::Idle),
    {
        match ev {
            ServerEvent::Shutdown => ServerStep { action: ServerAction::Nothing, end_session: true },
            ServerEvent::PositionChanged(p) => {
                if p != self.client_position {
                    self.client_position = p;
                    self.edge_push_count = 0;
                    ServerStep { action: ServerAction::AssignPosition(p), end_session: false }
                } else {
                    ServerStep { action: ServerAction::Nothing, end_session: false }
                }
            },
            ServerEvent::Input { event, edge_push } => {
                match self.state {
                    ServerState::Idle => {
                        match edge_push {
                            Some(dir) => {
                                if dir == self.client_position {
                                    self.edge_push_count = self.edge_push_count + 1;
                                    if self.edge_push_count >= EDGE_PUSH_THRESHOLD {
                                        let target = self.client_position;
                                        self.state = ServerState::Capturing { target };
                                        self.edge_push_count = 0;
                                        return ServerStep {
                                            action: ServerAction::EnterCapture(target),
                                            end_session: false,
                                        };
                                    }
                                } else {
                                    self.edge_push_count = 0;
                                }
                            },
                            None => {
                                if event.is_pointer_motion() {
                                    self.edge_push_count = 0;
                                }
                            },
                        }
                        ServerStep { action: ServerAction::Nothing, end_session: false }
                    },
                    ServerState::Capturing { .. } => {
                        if is_release_hotkey(&event, &self.release_key) {
                            self.leave(HALF_RATIO_BITS, false)
                        } else {
                            ServerStep {
                                action: ServerAction::Forward(Message::from_input_event(&event)),
                                end_session: false,
                            }
                        }
                    },
                }
            },
            ServerEvent::StreamMessage(m) => match m {
                Message::Leave(y) => self.leave_if_capturing(y, false),
                _ => ServerStep { action: ServerAction::Nothing, end_session: false },
            },
            ServerEvent::StreamError => self.leave_if_capturing(HALF_RATIO_BITS, true),
            ServerEvent::DatagramMessage(_) => ServerStep {
                action: ServerAction::Nothing,
                end_session: false,
            },
            ServerEvent::DatagramError => self.leave_if_capturing(HALF_RATIO_BITS, true),
        }
    }
}

/// Every event keeps the session invariant.
pub proof fn lemma_server_wf_preserved(s: ServerSession, ev: ServerEvent)
    requires
        s.wf(),
    ensures
        server_next(s, ev).0.wf(),
{
}

/// Capture is entered exactly on the threshold-th consecutive push towards
/// the client's side while idle; the client's side becomes the target and
/// the count starts over.
pub proof fn lemma_server_enter_capture(s: ServerSession, ev: ServerEvent)
    requires
        s.wf(),
    ensures
        ({
            let (n, r) = server_next(s, ev);
            (r.action is EnterCapture) <==> (s.state == ServerState::Idle && (ev matches ServerEvent::Input {
                edge_push,
                ..
            } && edge_push == Some(s.client_position)) && s.edge_push_count + 1
                == EDGE_PUSH_THRESHOLD)
        }),
        ({
            let (n, r) = server_next(s, ev);
            r.action matches ServerAction::EnterCapture(t) ==> t == s.client_position && n.state
                == (ServerState::Capturing { target: t }) && n.edge_push_count == 0
        }),
{
}

/// Input is forwarded only while capturing, as the message of the event
/// itself, and every captured input other than the release hotkey is
/// forwarded without changing the session.
pub proof fn lemma_server_forwarding(s: ServerSession, ev: ServerEvent)
    requires
        s.wf(),
    ensures
        ({
            let (n, r) = server_next(s, ev);
            r.action matches ServerAction::Forward(m) ==> (s.state is Capturing && (ev matches ServerEvent::Input {
                event,
                ..
            } && m == message_of_event(event) && !is_release_hotkey_spec(event, s.release_key)) && n == s)
        }),
        ({
            let (n, r) = server_next(s, ev);
            (s.state is Capturing && (ev matches ServerEvent::Input { event, .. }
                && !is_release_hotkey_spec(event, s.release_key))) ==> r.action == ServerAction::Forward(
                message_of_event(ev->event),
            )
        }),
{
}

/// Control is handed back only from capture mode, at the edge that was
/// being captured towards, and the server is idle afterwards.
pub proof fn lemma_server_leave(s: ServerSession, ev: ServerEvent)
    requires
        s.wf(),
    ensures
        ({
            let (n, r) = server_next(s, ev);
            r.action matches ServerAction::LeaveCapture { target, .. } ==> s.state == (
            ServerState::Capturing { target }) && n.state == ServerState::Idle
        }),
        ({
            let (n, r) = server_next(s, ev);
            (s.state is Capturing && (ev matches ServerEvent::Input { event, .. }
                && is_release_hotkey_spec(event, s.release_key))) ==> r.action is LeaveCapture && n.state
                == ServerState::Idle
        }),
{
}

/// A session ends on shutdown and on a failed stream or datagram channel,
/// and on nothing else.
pub proof fn lemma_server_session_end(s: ServerSession, ev: ServerEvent)
    ensures
        server_next(s, ev).1.end_session <==> (ev is Shutdown || ev is StreamError
            || ev is DatagramError),
{
}

/// From a fresh idle session, the first two pushes towards the client's
/// side only count, and the third enters capture towards that side.
pub proof fn lemma_server_third_push_captures(
    p: Position,
    k: ReleaseKey,
    e1: InputEvent,
    e2: InputEvent,
    e3: InputEvent,
)
    ensures
        ({
            let s0 = ServerSession {
                state: ServerState::Idle,
                client_position: p,
                edge_push_count: 0,
                release_key: k,
            };
            let (s1, r1) = server_next(s0, ServerEvent::Input { event: e1, edge_push: Some(p) });
            let (s2, r2) = server_next(s1, ServerEvent::Input { event: e2, edge_push: Some(p) });
            let (s3, r3) = server_next(s2, ServerEvent::Input { event: e3, edge_push: Some(p) });
            &&& r1.action == ServerAction::Nothing
            &&& r2.action == ServerAction::Nothing
            &&& r3.action == ServerAction::EnterCapture(p)
            &&& s3.state == (ServerState::Capturing { target: p })
        }),
{
}

/// The configured release key never changes during a session, and a press
/// of it while capturing hands control back at the capturing target with
/// the half ratio without forwarding it; every other input event while
/// capturing is forwarded, the capture going on.
pub proof fn lemma_server_release_key(s: ServerSession, ev: ServerEvent)
    requires
        s.wf(),
    ensures
        server_next(s, ev).0.release_key == s.release_key,
        (s.state is Capturing && (ev matches ServerEvent::Input { event, .. }
            && is_release_hotkey_spec(event, s.release_key))) ==> server_next(s, ev) == (
        ServerSession { state: ServerState::Idle, ..s },
        step_of(
            ServerAction::LeaveCapture { target: s.state->target, y_ratio: HALF_RATIO_BITS },
            false,
        )),
        (s.state is Capturing && (ev matches ServerEvent::Input { event, .. }
            && !is_release_hotkey_spec(event, s.release_key))) ==> server_next(s, ev) == (
        s,
        step_of(ServerAction::Forward(message_of_event(ev->event)), false)),
{
}

/// The capture push count while idle: a push towards the client's side
/// counts one more (until the threshold-th enters capture), a push against
/// any other edge or a pointer motion that pushes against no edge starts the
/// count again, and other input leaves the session as it is.
pub proof fn lemma_server_push_count(s: ServerSession, event: InputEvent, edge_push: Option<Position>)
    requires
        s.wf(),
    ensures
        ({
            let (n, r) = server_next(s, ServerEvent::Input { event, edge_push });
            &&& (s.state == ServerState::Idle && edge_push == Some(s.client_position)
                && s.edge_push_count + 1 < EDGE_PUSH_THRESHOLD) ==> n == (ServerSession {
                edge_push_count: (s.edge_push_count + 1) as u32,
                ..s
            }) && r.action == ServerAction::Nothing
            &&& (s.state == ServerState::Idle && edge_push is Some && edge_push != Some(
                s.client_position,
            )) ==> n == (ServerSession { edge_push_count: 0, ..s }) && r.action
                == ServerAction::Nothing
            &&& (s.state == ServerState::Idle && edge_push is None && event is PointerMotion) ==> n
                == (ServerSession { edge_push_count: 0, ..s }) && r.action == ServerAction::Nothing
            &&& (s.state == ServerState::Idle && edge_push is None && !(event is PointerMotion)) ==> n
                == s && r.action == ServerAction::Nothing
            &&& !r.end_session
        }),
{
}

/// A lost client ends the session with the server idle: when the control
/// stream or the datagram channel fails during a capture, control comes back
/// at the captured edge at half height, and when it fails while idle
/// nothing else happens. Shutdown ends the session without touching it.
/// Every session end other than shutdown therefore leaves the server idle.
pub proof fn lemma_server_lost_client_releases(s: ServerSession, ev: ServerEvent)
    requires
        s.wf(),
        ev is StreamError || ev is DatagramError,
    ensures
        ({
            let (n, r) = server_next(s, ev);
            &&& r.end_session
            &&& n == (ServerSession { state: ServerState::Idle, ..s })
            &&& s.state matches ServerState::Capturing { target } ==> r.action
                == ServerAction::LeaveCapture { target, y_ratio: HALF_RATIO_BITS }
            &&& s.state == ServerState::Idle ==> r.action == ServerAction::Nothing
        }),
        server_next(s, ServerEvent::Shutdown) == (s, step_of(ServerAction::Nothing, true)),
        forall|e: ServerEvent|
            #![trigger server_next(s, e)]
            server_next(s, e).1.end_session && !(e is Shutdown) ==> server_next(s, e).0.state
                == ServerState::Idle,
{
}

/// Messages from the client: a `Leave` request during a capture hands
/// control back at the captured edge at the ratio the client sent, and is
/// ignored while idle; every other stream or datagram message changes
/// nothing. A change of the configured side is told to the client and
/// starts the push count over; a change to the same side does nothing.
pub proof fn lemma_server_client_messages(s: ServerSession, m: Message, p: Position)
    requires
        s.wf(),
    ensures
        ({
            let (n, r) = server_next(s, ServerEvent::StreamMessage(m));
            &&& (m matches Message::Leave(y) && s.state matches ServerState::Capturing { target })
                ==> n == (ServerSession { state: ServerState::Idle, ..s }) && r == step_of(
                ServerAction::LeaveCapture { target: s.state->target, y_ratio: m->Leave_0 },
                false,
            )
            &&& (m is Leave && s.state == ServerState::Idle) ==> n == s && r == step_of(
                ServerAction::Nothing,
                false,
            )
            &&& !(m is Leave) ==> n == s && r == step_of(ServerAction::Nothing, false)
        }),
        server_next(s, ServerEvent::DatagramMessage(m)) == (s, step_of(ServerAction::Nothing, false)),
        p != s.client_position ==> server_next(s, ServerEvent::PositionChanged(p)) == (
        ServerSession { client_position: p, edge_push_count: 0, ..s },
        step_of(ServerAction::AssignPosition(p), false)),
        p == s.client_position ==> server_next(s, ServerEvent::PositionChanged(p)) == (
        s,
        step_of(ServerAction::Nothing, false)),
{
}

} // verus!
