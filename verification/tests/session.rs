use vesa::client::{
    assigned_position, ClientAction, ClientEvent, ClientSession, ClientState, DEFAULT_POSITION,
};
use vesa::edge::ReleaseKey;
use vesa::event::{InputEvent, KeyState, Position};
use vesa::proto::{decode, encode, frame, Message};
use vesa::server::{
    handshake_reply, ServerAction, ServerEvent, ServerSession, ServerState, ServerStep, HALF_RATIO_BITS,
};

fn motion() -> InputEvent {
    InputEvent::PointerMotion { time: 0, dx: 5.0f64.to_bits(), dy: 0 }
}

fn push(dir: Position) -> ServerEvent {
    ServerEvent::Input { event: motion(), edge_push: Some(dir) }
}

#[test]
fn server_enters_capture_on_third_push() {
    let mut s = ServerSession::new(ServerState::Idle, Position::Right, ReleaseKey::escape());
    assert_eq!(s.step(push(Position::Right)).action, ServerAction::Nothing);
    assert_eq!(s.step(push(Position::Right)).action, ServerAction::Nothing);
    assert_eq!(s.edge_push_count, 2);
    let r = s.step(push(Position::Right));
    assert_eq!(r, ServerStep { action: ServerAction::EnterCapture(Position::Right), end_session: false });
    assert_eq!(s.state, ServerState::Capturing { target: Position::Right });
    assert_eq!(s.edge_push_count, 0);
}

#[test]
fn server_push_count_resets() {
    let mut s = ServerSession::new(ServerState::Idle, Position::Right, ReleaseKey::escape());
    s.step(push(Position::Right));
    s.step(push(Position::Right));
    s.step(push(Position::Left));
    assert_eq!(s.edge_push_count, 0);
    s.step(push(Position::Right));
    s.step(ServerEvent::Input { event: motion(), edge_push: None });
    assert_eq!(s.edge_push_count, 0);
    s.step(push(Position::Right));
    let key = InputEvent::KeyboardKey { time: 0, key: 30, state: KeyState::Press };
    s.step(ServerEvent::Input { event: key, edge_push: None });
    assert_eq!(s.edge_push_count, 1);
    assert_eq!(s.state, ServerState::Idle);
}

#[test]
fn server_forwards_while_capturing() {
    let mut s = ServerSession::new(ServerState::Capturing { target: Position::Left }, Position::Left, ReleaseKey::escape());
    let key = InputEvent::KeyboardKey { time: 9, key: 30, state: KeyState::Press };
    let r = s.step(ServerEvent::Input { event: key, edge_push: None });
    assert_eq!(
        r.action,
        ServerAction::Forward(Message::KeyboardKey { time: 9, key: 30, state: 1 })
    );
    assert_eq!(s.state, ServerState::Capturing { target: Position::Left });
}

#[test]
fn server_release_hotkey_leaves_capture() {
    let mut s = ServerSession::new(ServerState::Capturing { target: Position::Top }, Position::Top, ReleaseKey::escape());
    let esc = InputEvent::KeyboardKey { time: 0, key: 1, state: KeyState::Press };
    let r = s.step(ServerEvent::Input { event: esc, edge_push: None });
    assert_eq!(
        r.action,
        ServerAction::LeaveCapture { target: Position::Top, y_ratio: HALF_RATIO_BITS }
    );
    assert_eq!(f64::from_bits(HALF_RATIO_BITS), 0.5);
    assert_eq!(s.state, ServerState::Idle);
    assert!(!r.end_session);
}

#[test]
fn server_configured_scroll_lock_leaves_capture() {
    let k = ReleaseKey::named("ScrollLock").unwrap();
    let mut s = ServerSession::new(ServerState::Capturing { target: Position::Right }, Position::Right, k);
    let esc = InputEvent::KeyboardKey { time: 0, key: 1, state: KeyState::Press };
    assert_eq!(
        s.step(ServerEvent::Input { event: esc, edge_push: None }).action,
        ServerAction::Forward(Message::KeyboardKey { time: 0, key: 1, state: 1 })
    );
    let scroll_lock = InputEvent::KeyboardKey { time: 3, key: 70, state: KeyState::Press };
    let r = s.step(ServerEvent::Input { event: scroll_lock, edge_push: None });
    assert_eq!(
        r,
        ServerStep {
            action: ServerAction::LeaveCapture { target: Position::Right, y_ratio: HALF_RATIO_BITS },
            end_session: false,
        }
    );
    assert_eq!(s.state, ServerState::Idle);
    assert_eq!(s.release_key, k);
}

#[test]
fn server_client_leave_request() {
    let mut s = ServerSession::new(ServerState::Idle, Position::Right, ReleaseKey::escape());
    let y = 0.25f64.to_bits();
    assert_eq!(s.step(ServerEvent::StreamMessage(Message::Leave(y))).action, ServerAction::Nothing);
    let mut s = ServerSession::new(ServerState::Capturing { target: Position::Right }, Position::Right, ReleaseKey::escape());
    assert_eq!(
        s.step(ServerEvent::StreamMessage(Message::Leave(y))).action,
        ServerAction::LeaveCapture { target: Position::Right, y_ratio: y }
    );
    assert_eq!(s.state, ServerState::Idle);
}

#[test]
fn server_session_ends_on_errors() {
    let mut s = ServerSession::new(ServerState::Capturing { target: Position::Bottom }, Position::Bottom, ReleaseKey::escape());
    let r = s.step(ServerEvent::DatagramError);
    assert!(r.end_session);
    assert_eq!(r.action, ServerAction::LeaveCapture { target: Position::Bottom, y_ratio: HALF_RATIO_BITS });
    let mut s = ServerSession::new(ServerState::Idle, Position::Bottom, ReleaseKey::escape());
    let r = s.step(ServerEvent::StreamError);
    assert_eq!(r, ServerStep { action: ServerAction::Nothing, end_session: true });
    assert!(s.step(ServerEvent::Shutdown).end_session);
    assert!(!s.step(ServerEvent::DatagramMessage(Message::Ping)).end_session);
}

#[test]
fn server_position_change() {
    let mut s = ServerSession::new(ServerState::Idle, Position::Right, ReleaseKey::escape());
    s.step(push(Position::Right));
    assert_eq!(s.step(ServerEvent::PositionChanged(Position::Right)).action, ServerAction::Nothing);
    assert_eq!(s.edge_push_count, 1);
    assert_eq!(
        s.step(ServerEvent::PositionChanged(Position::Left)).action,
        ServerAction::AssignPosition(Position::Left)
    );
    assert_eq!(s.client_position, Position::Left);
    assert_eq!(s.edge_push_count, 0);
}

#[test]
fn client_handshake_position() {
    assert_eq!(assigned_position(&Message::AssignPosition(Position::Top)), Position::Top);
    assert_eq!(assigned_position(&Message::Ping), DEFAULT_POSITION);
    assert_eq!(DEFAULT_POSITION, Position::Right);
}

#[test]
fn client_emits_only_when_active() {
    let mut c = ClientSession::new(Position::Right);
    assert_eq!(c.state, ClientState::Connected);
    let m = Message::KeyboardKey { time: 1, key: 30, state: 1 };
    assert_eq!(c.step(ClientEvent::Datagram(m)).action, ClientAction::Nothing);
    c.step(ClientEvent::StreamMessage(Message::Enter(Position::Right)));
    assert_eq!(c.state, ClientState::Active);
    assert_eq!(
        c.step(ClientEvent::Datagram(m)).action,
        ClientAction::Emit(InputEvent::KeyboardKey { time: 1, key: 30, state: KeyState::Press })
    );
    assert_eq!(c.step(ClientEvent::Datagram(Message::Ping)).action, ClientAction::Nothing);
}

#[test]
fn client_requests_return_on_third_push() {
    let mut c = ClientSession::new(Position::Right);
    c.step(ClientEvent::StreamMessage(Message::Enter(Position::Right)));
    assert_eq!(c.return_direction(), Position::Left);
    let emitted = |dir| ClientEvent::Emitted { event: motion(), edge_push: Some(dir) };
    assert_eq!(c.step(emitted(Position::Left)).action, ClientAction::Nothing);
    assert_eq!(c.step(emitted(Position::Left)).action, ClientAction::Nothing);
    assert_eq!(c.step(emitted(Position::Left)).action, ClientAction::RequestReturn);
    assert_eq!(c.state, ClientState::Connected);
    assert_eq!(c.edge_push_count, 0);
}

#[test]
fn client_reassignment_changes_way_back() {
    let mut c = ClientSession::new(Position::Right);
    c.step(ClientEvent::StreamMessage(Message::Enter(Position::Right)));
    c.step(ClientEvent::StreamMessage(Message::AssignPosition(Position::Top)));
    assert_eq!(c.return_direction(), Position::Bottom);
    c.step(ClientEvent::Emitted { event: motion(), edge_push: Some(Position::Left) });
    assert_eq!(c.edge_push_count, 0);
    c.step(ClientEvent::Emitted { event: motion(), edge_push: Some(Position::Bottom) });
    assert_eq!(c.edge_push_count, 1);
    c.step(ClientEvent::StreamMessage(Message::Leave(0)));
    assert_eq!(c.state, ClientState::Connected);
    assert_eq!(c.edge_push_count, 0);
}

#[test]
fn client_session_ends_on_errors() {
    let mut c = ClientSession::new(Position::Left);
    assert!(c.step(ClientEvent::DatagramError).end_session);
    assert!(c.step(ClientEvent::StreamError).end_session);
    assert!(c.step(ClientEvent::Shutdown).end_session);
    assert!(!c.step(ClientEvent::StreamMessage(Message::Pong)).end_session);
}

#[test]
fn forwarded_input_is_injected_end_to_end() {
    let mut server = ServerSession::new(ServerState::Capturing { target: Position::Right }, Position::Right, ReleaseKey::escape());
    let mut client = ClientSession::new(Position::Right);
    client.step(ClientEvent::StreamMessage(Message::Enter(Position::Right)));
    let event = InputEvent::PointerMotion { time: 42, dx: 1.5f64.to_bits(), dy: (-2.5f64).to_bits() };
    let sent = match server.step(ServerEvent::Input { event, edge_push: None }).action {
        ServerAction::Forward(m) => m,
        other => panic!("expected a forwarded message, got {other:?}"),
    };
    let received = decode(&encode(&sent)).unwrap();
    assert_eq!(client.step(ClientEvent::Datagram(received)).action, ClientAction::Emit(event));
}

#[test]
fn control_messages_reach_client_through_frames() {
    let mut server = ServerSession::new(ServerState::Idle, Position::Left, ReleaseKey::escape());
    let mut client = ClientSession::new(Position::Left);
    for _ in 0..2 {
        server.step(push(Position::Left));
    }
    let target = match server.step(push(Position::Left)).action {
        ServerAction::EnterCapture(t) => t,
        other => panic!("expected capture, got {other:?}"),
    };
    let framed = frame(&Message::Enter(target));
    client.step(ClientEvent::StreamMessage(decode(&framed[1..]).unwrap()));
    assert_eq!(client.state, ClientState::Active);

    let y = 0.75f64.to_bits();
    let framed = frame(&Message::Leave(y));
    let r = server.step(ServerEvent::StreamMessage(decode(&framed[1..]).unwrap()));
    assert_eq!(r.action, ServerAction::LeaveCapture { target: Position::Left, y_ratio: y });
    assert_eq!(server.state, ServerState::Idle);
}

#[test]
fn server_answers_ping_handshake() {
    assert_eq!(handshake_reply(&Message::Ping), Some(Message::Pong));
    assert_eq!(handshake_reply(&Message::Pong), None);
    assert_eq!(handshake_reply(&Message::Ack(1)), None);
    assert_eq!(handshake_reply(&Message::AssignPosition(Position::Left)), None);
}
