//! The client side of a session: when to inject received input, and when to
//! ask the server to take control back.
use vstd::prelude::*;
use crate::edge::EDGE_PUSH_THRESHOLD;
use crate::event::{opposite_position, InputEvent, Position};
use crate::proto::{event_of_message, Message};

verus! {

/// The side assumed when the server does not assign one.
pub const DEFAULT_POSITION: Position = Position::Right;

#[derive(Debug, Clone, Copy, PartialEq, Eq, Structural)]
pub enum ClientState {
    Disconnected,
    Connected,
    Active,
}

/// The side the client takes from the server's reply to the handshake: the
/// assigned one, or the default when the reply assigns none.
pub open spec fn assigned_position_spec(reply: Message) -> Position {
    match reply {
        Message::AssignPosition(p) => p,
        _ => DEFAULT_POSITION,
    }
}

pub fn assigned_position(reply: &Message) -> (p: Position)
    ensures
        p == assigned_position_spec(*reply),
{
    match reply {
        Message::AssignPosition(p) => *p,
        _ => DEFAULT_POSITION,
    }
}

/// What happened while the client session runs.
#[derive(Debug, Clone, Copy, PartialEq)]
pub enum ClientEvent {
    /// The shutdown signal was raised.
    Shutdown,
    /// A datagram arrived from the server.
    Datagram(Message),
    /// An event was injected; `edge_push` is the edge it pushes against,
    /// judged from the cursor after the injection.
    Emitted { event: InputEvent, edge_push: Option<Position> },
    /// Reading datagrams failed.
    DatagramError,
    /// A message arrived on the control stream.
    StreamMessage(Message),
    /// The control stream failed.
    StreamError,
}

/// What the client has to do in response.
#[derive(Debug, Clone, Copy, PartialEq, Eq, Structural)]
pub enum ClientAction {
    Nothing,
    /// Inject this event locally, then report `ClientEvent::Emitted`.
    Emit(InputEvent),
    /// Send `Message::Leave` with the cursor's vertical ratio: control goes
    /// back to the server.
    RequestReturn,
}

#[derive(Debug, Clone, Copy, PartialEq, Eq, Structural)]
pub struct ClientStep {
    pub action: ClientAction,
    /// The session is over after the action.
    pub end_session: bool,
}

/// The decision state of a connected client.
#[derive(Debug, Clone, Copy, PartialEq, Eq, Structural)]
pub struct ClientSession {
    pub state: ClientState,
    pub position: Position,
    pub edge_push_count: u32,
}

pub open spec fn client_step_of(action: ClientAction, end_session: bool) -> ClientStep {
    ClientStep { action, end_session }
}

/// The edge that leads back to the server.
pub open spec fn return_direction(s: ClientSession) -> Position {
    opposite_position(s.position)
}

pub open spec fn client_quiet(s: ClientSession) -> (ClientSession, ClientStep) {
    (s, client_step_of(ClientAction::Nothing, false))
}

/// The client's reaction to one event.
pub open spec fn client_next(s: ClientSession, ev: ClientEvent) -> (ClientSession, ClientStep) {
    match ev {
        ClientEvent::Shutdown => (s, client_step_of(ClientAction::Nothing, true)),
        ClientEvent::Datagram(m) => match event_of_message(m) {
            Some(e) => if s.state == ClientState::Active {
                (s, client_step_of(ClientAction::Emit(e), false))
            } else {
                client_quiet(s)
            },
            None => client_quiet(s),
        },
        ClientEvent::Emitted { event, edge_push } => if s.state != ClientState::Active {
            client_quiet(s)
        } else {
            match edge_push {
                Some(dir) => if dir == return_direction(s) {
                    if s.edge_push_count + 1 >= EDGE_PUSH_THRESHOLD {
                        (
                            ClientSession {
                                state: ClientState::Connected,
                                edge_push_count: 0,
                                ..s
                            },
                            client_step_of(ClientAction::RequestReturn, false),
                        )
                    } else {
                        client_quiet(
                            ClientSession { edge_push_count: (s.edge_push_count + 1) as u32, ..s },
                        )
                    }
                } else {
                    client_quiet(ClientSession { edge_push_count: 0, ..s })
                },
                None => if event is PointerMotion {
                    client_quiet(ClientSession { edge_push_count: 0, ..s })
                } else {
                    client_quiet(s)
                },
            }
        },
        ClientEvent::DatagramError => (s, client_step_of(ClientAction::Nothing, true)),
        ClientEvent::StreamMessage(m) => match m {
            Message::Enter(_) => client_quiet(
                ClientSession { state: ClientState::Active, edge_push_count: 0, ..s },
            ),
            Message::Leave(_) => client_quiet(
                ClientSession { state: ClientState::Connected, edge_push_count: 0, ..s },
            ),
            Message::AssignPosition(p) => client_quiet(
                ClientSession { position: p, edge_push_count: 0, ..s },
            ),
            _ => client_quiet(s),
        },
        ClientEvent::StreamError => (s, client_step_of(ClientAction::Nothing, true)),
    }
}

impl ClientSession {
    /// The session's invariant: the push count stays below the threshold.
    pub open spec fn wf(&self) -> bool {
        self.edge_push_count < EDGE_PUSH_THRESHOLD
    }

    /// A freshly connected client on side `position`.
    pub fn new(position: Position) -> (s: Self)
        ensures
            s.wf(),
            s == (ClientSession { state: ClientState::Connected, position, edge_push_count: 0 }),
    {
        ClientSession { state: ClientState::Connected, position, edge_push_count: 0 }
    }

    /// The edge that leads back to the server.
    pub fn return_direction(&self) -> (p: Position)
        ensures
            p == return_direction(*self),
    {
        self.position.opposite()
    }

    fn quiet() -> (r: ClientStep)
        ensures
            r == client_step_of(ClientAction::Nothing, false),
    {
        ClientStep { action: ClientAction::Nothing, end_session: false }
    }

    /// Reacts to one event of the session.
    pub fn step(&mut self, ev: ClientEvent) -> (r: ClientStep)
        requires
            old(self).wf(),
        ensures
            final(self).wf(),
            (*final(self), r) == client_next(*old(self), ev),
    {
        match ev {
            ClientEvent::Shutdown => ClientStep { action: ClientAction::Nothing, end_session: true },
            ClientEvent::Datagram(m) => {
                match m.to_input_event() {
                    Some(e) => {
                        if self.state == ClientState::Active {
                            ClientStep { action: ClientAction::Emit(e), end_session: false }
                        } else {
                            Self::quiet()
                        }
                    },
                    None => Self::quiet(),
                }
            },
            ClientEvent::Emitted { event, edge_push } => {
                if self.state != ClientState::Active {
                    return Self::quiet();
                }
                match edge_push {
                    Some(dir) => {
                        if dir == self.return_direction() {
                            self.edge_push_count = self.edge_push_count + 1;
                            if self.edge_push_count >= EDGE_PUSH_THRESHOLD {
                                self.state = ClientState::Connected;
                                self.edge_push_count = 0;
                                return ClientStep {
                                    action: ClientAction::RequestReturn,
                                    end_session: false,
                                };
                            }
                        } else {
                            self.edge_push_count = 0;
                        }
                    },
                    None => {
                        if event.is_pointer_motion() {
                            self.edge_push_count = 0;
                        }
                    },
                }
                Self::quiet()
            },
            ClientEvent::DatagramError => ClientStep {
                action: ClientAction::Nothing,
                end_session: true,
            },
            ClientEvent::StreamMessage(m) => {
                match m {
                    Message::Enter(_) => {
                        self.state = ClientState::Active;
                        self.edge_push_count = 0;
                    },
                    Message::Leave(_) => {
                        self.state = ClientState::Connected;
                        self.edge_push_count = 0;
                    },
                    Message::AssignPosition(p) => {
                        self.position = p;
                        self.edge_push_count = 0;
                    },
                    _ => {},
                }
                Self::quiet()
            },
            ClientEvent::StreamError => ClientStep { action: ClientAction::Nothing, end_session: true },
        }
    }
}

/// Every event keeps the session invariant.
pub proof fn lemma_client_wf_preserved(s: ClientSession, ev: ClientEvent)
    requires
        s.wf(),
    ensures
        client_next(s, ev).0.wf(),
{
}

/// Received input is injected only while active, and is exactly the event
/// the datagram carries; every carried event is injected while active.
pub proof fn lemma_client_emit(s: ClientSession, ev: ClientEvent)
    requires
        s.wf(),
    ensures
        ({
            let (n, r) = client_next(s, ev);
            r.action matches ClientAction::Emit(e) ==> s.state == ClientState::Active && (ev matches ClientEvent::Datagram(
                m,
            ) && event_of_message(m) == Some(e)) && n == s
        }),
        ({
            let (n, r) = client_next(s, ev);
            (s.state == ClientState::Active && (ev matches ClientEvent::Datagram(m)
                && event_of_message(m) is Some)) ==> r.action == ClientAction::Emit(
                event_of_message(ev->Datagram_0)->Some_0,
            )
        }),
{
}

/// The client asks for control to go back exactly on the threshold-th
/// consecutive push towards the server's side while active, and stops being
/// active when it does.
pub proof fn lemma_client_request_return(s: ClientSession, ev: ClientEvent)
    requires
        s.wf(),
    ensures
        ({
            let (n, r) = client_next(s, ev);
            (r.action is RequestReturn) <==> (s.state == ClientState::Active && (ev matches ClientEvent::Emitted {
                edge_push,
                ..
            } && edge_push == Some(opposite_position(s.position))) && s.edge_push_count + 1
                == EDGE_PUSH_THRESHOLD)
        }),
        ({
            let (n, r) = client_next(s, ev);
            r.action is RequestReturn ==> n.state == ClientState::Connected && n.edge_push_count
                == 0
        }),
{
}

/// `Enter` activates the client, `Leave` deactivates it, and a new
/// assignment moves the way back to the opposite of the new side.
pub proof fn lemma_client_stream_control(s: ClientSession, p: Position, y: u64)
    ensures
        client_next(s, ClientEvent::StreamMessage(Message::Enter(p))).0.state
            == ClientState::Active,
        client_next(s, ClientEvent::StreamMessage(Message::Leave(y))).0.state
            == ClientState::Connected,
        return_direction(client_next(s, ClientEvent::StreamMessage(Message::AssignPosition(p))).0)
            == opposite_position(p),
{
}

/// A session ends on shutdown and on a failed stream or datagram channel,
/// and on nothing else.
pub proof fn lemma_client_session_end(s: ClientSession, ev: ClientEvent)
    ensures
        client_next(s, ev).1.end_session <==> (ev is Shutdown || ev is StreamError
            || ev is DatagramError),
{
}

/// Once active, the first two pushes back towards the server only count,
/// and the third asks for control to return.
pub proof fn lemma_client_third_push_returns(
    p: Position,
    e1: InputEvent,
    e2: InputEvent,
    e3: InputEvent,
)
    ensures
        ({
            let c0 = ClientSession { state: ClientState::Active, position: p, edge_push_count: 0 };
            let back = Some(opposite_position(p));
            let (c1, r1) = client_next(c0, ClientEvent::Emitted { event: e1, edge_push: back });
            let (c2, r2) = client_next(c1, ClientEvent::Emitted { event: e2, edge_push: back });
            let (c3, r3) = client_next(c2, ClientEvent::Emitted { event: e3, edge_push: back });
            &&& r1.action == ClientAction::Nothing
            &&& r2.action == ClientAction::Nothing
            &&& r3.action == ClientAction::RequestReturn
            &&& c3.state == ClientState::Connected
        }),
{
}

/// The return push count while active: a push towards the server's side
/// counts one more (until the threshold-th asks for the return), a push
/// against any other edge or a pointer motion that pushes against no edge
/// starts the count again, and other injected events (keys, buttons,
/// scrolling) leave the session as it is. Only consecutive pushes towards
/// the server therefore ask for the return. An inactive client ignores
/// injected events.
pub proof fn lemma_client_push_count(s: ClientSession, event: InputEvent, edge_push: Option<Position>)
    requires
        s.wf(),
    ensures
        ({
            let (n, r) = client_next(s, ClientEvent::Emitted { event, edge_push });
            &&& s.state != ClientState::Active ==> n == s && r.action == ClientAction::Nothing
            &&& (s.state == ClientState::Active && edge_push == Some(opposite_position(s.position))
                && s.edge_push_count + 1 < EDGE_PUSH_THRESHOLD) ==> n == (ClientSession {
                edge_push_count: (s.edge_push_count + 1) as u32,
                ..s
            }) && r.action == ClientAction::Nothing
            &&& (s.state == ClientState::Active && edge_push is Some && edge_push != Some(
                opposite_position(s.position),
            )) ==> n == (ClientSession { edge_push_count: 0, ..s }) && r.action
                == ClientAction::Nothing
            &&& (s.state == ClientState::Active && edge_push is None && event is PointerMotion) ==> n
                == (ClientSession { edge_push_count: 0, ..s }) && r.action == ClientAction::Nothing
            &&& (s.state == ClientState::Active && edge_push is None && !(event is PointerMotion))
                ==> n == s && r.action == ClientAction::Nothing
            &&& !r.end_session
        }),
{
}

/// A plain pointer motion between pushes breaks the run: from an active
/// session that the next push does not bring to the threshold, push, plain
/// motion, push leaves the count at one and asks for nothing.
pub proof fn lemma_client_motion_breaks_push_run(
    s: ClientSession,
    e1: InputEvent,
    motion: InputEvent,
    e3: InputEvent,
)
    requires
        s.wf(),
        s.state == ClientState::Active,
        s.edge_push_count + 1 < EDGE_PUSH_THRESHOLD,
        motion is PointerMotion,
    ensures
        ({
            let back = Some(opposite_position(s.position));
            let (c1, r1) = client_next(s, ClientEvent::Emitted { event: e1, edge_push: back });
            let (c2, r2) = client_next(c1, ClientEvent::Emitted { event: motion, edge_push: None });
            let (c3, r3) = client_next(c2, ClientEvent::Emitted { event: e3, edge_push: back });
            &&& r2.action == ClientAction::Nothing
            &&& r3.action == ClientAction::Nothing
            &&& c3.edge_push_count == 1
            &&& c3.state == ClientState::Active
        }),
{
}

/// Control messages from the server: `Enter` makes the client active,
/// `Leave` makes it merely connected, and an assignment moves it to the
/// assigned side; each starts the return push count over. Other control
/// messages change nothing, and a failed channel or shutdown ends the
/// session without changing it.
pub proof fn lemma_client_control_messages(s: ClientSession, m: Message)
    ensures
        ({
            let (n, r) = client_next(s, ClientEvent::StreamMessage(m));
            &&& r == client_step_of(ClientAction::Nothing, false)
            &&& m is Enter ==> n == (ClientSession {
                state: ClientState::Active,
                edge_push_count: 0,
                ..s
            })
            &&& m is Leave ==> n == (ClientSession {
                state: ClientState::Connected,
                edge_push_count: 0,
                ..s
            })
            &&& m matches Message::AssignPosition(p) ==> n == (ClientSession {
                position: p,
                edge_push_count: 0,
                ..s
            })
            &&& !(m is Enter || m is Leave || m is AssignPosition) ==> n == s
        }),
        client_next(s, ClientEvent::Shutdown) == (s, client_step_of(ClientAction::Nothing, true)),
        client_next(s, ClientEvent::StreamError) == (s, client_step_of(ClientAction::Nothing, true)),
        client_next(s, ClientEvent::DatagramError) == (s, client_step_of(ClientAction::Nothing, true)),
{
}

} // verus!
