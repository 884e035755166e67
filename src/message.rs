use crate::frames::{
    binary_frame, close_frame, close_payload, pong_frame, text_frame, FrameKind, FrameView, WireFrame,
};
use vstd::prelude::*;
use vstd::utf8::encode_utf8;

verus! {

/// The abstract content of an outbound message.
pub enum MessageView {
    Text(Seq<char>),
    Binary(Seq<u8>),
    Pong(Seq<u8>),
    Close(u16, Seq<char>),
}

/// One outbound message, fanned out to the delivery channel of each peer.
#[derive(Debug)]
pub enum WsMessage {
    Text(String),
    Binary(Vec<u8>),
    /// Send a pong message with the given data.
    Pong(Vec<u8>),
    /// Close the connection with the given status code and reason.
    Close(u16, String),
}

impl View for WsMessage {
    type V = MessageView;

    open spec fn view(&self) -> MessageView {
        match self {
            WsMessage::Text(t) => MessageView::Text(t@),
            WsMessage::Binary(b) => MessageView::Binary(b@),
            WsMessage::Pong(b) => MessageView::Pong(b@),
            WsMessage::Close(code, reason) => MessageView::Close(*code, reason@),
        }
    }
}

impl Clone for WsMessage {
    fn clone(&self) -> (r: Self)
        ensures
            r@ == self@,
    {
        match self {
            WsMessage::Text(t) => WsMessage::Text(t.clone()),
            WsMessage::Binary(b) => {
                let c = b.clone();
                assert(c@ =~= b@);
                WsMessage::Binary(c)
            },
            WsMessage::Pong(b) => {
                let c = b.clone();
                assert(c@ =~= b@);
                WsMessage::Pong(c)
            },
            WsMessage::Close(code, reason) => WsMessage::Close(*code, reason.clone()),
        }
    }
}

/// The frame that carries a message to a client: always final; text, binary
/// and pong frames carry the payload bytes, a close frame the code and the
/// reason.
pub open spec fn frame_view_of(m: MessageView) -> FrameView {
    match m {
        MessageView::Text(t) => FrameView { fin: true, kind: FrameKind::Text, payload: encode_utf8(t) },
        MessageView::Binary(b) => FrameView { fin: true, kind: FrameKind::Binary, payload: b },
        MessageView::Pong(b) => FrameView { fin: true, kind: FrameKind::Pong, payload: b },
        MessageView::Close(code, reason) => FrameView {
            fin: true,
            kind: FrameKind::Close,
            payload: close_payload(code, encode_utf8(reason)),
        },
    }
}

impl WsMessage {
    /// The wire frame that carries this message to a client.
    pub fn to_frame(&self) -> (r: WireFrame<'_>)
        ensures
            r@ == frame_view_of(self@),
    {
        match self {
            WsMessage::Text(text) => text_frame(text),
            WsMessage::Binary(data) => binary_frame(data),
            WsMessage::Pong(data) => pong_frame(data),
            WsMessage::Close(code, reason) => close_frame(*code, reason),
        }
    }
}

} // verus!
