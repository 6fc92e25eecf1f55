//! How the server and the client fit together over the protocol: what one
//! side sends, the other side decodes and acts upon.
use vstd::prelude::*;
use crate::client::{client_next, ClientAction, ClientEvent, ClientSession, ClientState};
use crate::event::InputEvent;
use crate::proto::{
    decode_spec, encode_spec, event_of_message, frame_spec, lemma_decode_encode,
    lemma_event_message_roundtrip, lemma_frame_roundtrip, DecodeError, Message,
};
use crate::server::{server_next, ServerAction, ServerEvent, ServerSession, ServerState};

verus! {

/// Input forwarded by a capturing server reaches an active client intact:
/// the datagram's bytes decode to the forwarded message, and the client
/// injects exactly the captured event.
pub proof fn lemma_forwarded_input_is_injected(
    s: ServerSession,
    event: InputEvent,
    edge_push: Option<crate::event::Position>,
    c: ClientSession,
)
    requires
        s.wf(),
        c.wf(),
        c.state == ClientState::Active,
        server_next(s, ServerEvent::Input { event, edge_push }).1.action is Forward,
    ensures
        ({
            let m = server_next(s, ServerEvent::Input { event, edge_push }).1.action->Forward_0;
            &&& decode_spec(encode_spec(m)) == Ok::<Message, DecodeError>(m)
            &&& event_of_message(m) == Some(event)
            &&& client_next(c, ClientEvent::Datagram(m)).1.action == ClientAction::Emit(event)
        }),
{
    let m = server_next(s, ServerEvent::Input { event, edge_push }).1.action->Forward_0;
    lemma_decode_encode(m);
    lemma_event_message_roundtrip(event, m);
}

/// When the server enters capture it sends `Enter` on the stream; the
/// framed message reads back as sent, and the client becomes active.
pub proof fn lemma_enter_activates_client(s: ServerSession, ev: ServerEvent, c: ClientSession)
    requires
        s.wf(),
        server_next(s, ev).1.action is EnterCapture,
    ensures
        ({
            let m = Message::Enter(server_next(s, ev).1.action->EnterCapture_0);
            &&& decode_spec(frame_spec(m).subrange(1, frame_spec(m).len() as int)) == Ok::<
                Message,
                DecodeError,
            >(m)
            &&& client_next(c, ClientEvent::StreamMessage(m)).0.state == ClientState::Active
        }),
{
    let m = Message::Enter(server_next(s, ev).1.action->EnterCapture_0);
    lemma_frame_roundtrip(m);
}

/// When the server hands control back it sends `Leave`; the client stops
/// injecting.
pub proof fn lemma_leave_deactivates_client(s: ServerSession, ev: ServerEvent, c: ClientSession)
    requires
        s.wf(),
        server_next(s, ev).1.action is LeaveCapture,
    ensures
        ({
            let m = Message::Leave(server_next(s, ev).1.action->y_ratio);
            &&& decode_spec(frame_spec(m).subrange(1, frame_spec(m).len() as int)) == Ok::<
                Message,
                DecodeError,
            >(m)
            &&& client_next(c, ClientEvent::StreamMessage(m)).0.state == ClientState::Connected
            &&& client_next(c, ClientEvent::Datagram(m)).1.action == ClientAction::Nothing
        }),
{
    let m = Message::Leave(server_next(s, ev).1.action->y_ratio);
    lemma_frame_roundtrip(m);
}

/// A client's request to return (`Leave` with its vertical ratio) makes a
/// capturing server hand control back at the edge it was capturing
/// towards, with that same ratio.
pub proof fn lemma_return_request_releases_server(s: ServerSession, y_ratio: u64)
    requires
        s.wf(),
        s.state is Capturing,
    ensures
        ({
            let m = Message::Leave(y_ratio);
            let (n, r) = server_next(s, ServerEvent::StreamMessage(m));
            &&& decode_spec(frame_spec(m).subrange(1, frame_spec(m).len() as int)) == Ok::<
                Message,
                DecodeError,
            >(m)
            &&& n.state == ServerState::Idle
            &&& r.action == ServerAction::LeaveCapture { target: s.state->target, y_ratio }
            &&& !r.end_session
        }),
{
    lemma_frame_roundtrip(Message::Leave(y_ratio));
}

} // verus!
