use fastwebsockets::Frame;
use vstd::prelude::*;
use vstd::utf8::encode_utf8;

verus! {

/// A websocket frame of the framing layer; opaque to the proofs, which
/// speak of its model instead.
#[verifier::external_type_specification]
#[verifier::external_body]
pub struct ExFrame<'f>(Frame<'f>);

/// The opcode of a frame that the relay writes.
#[derive(Clone, Copy, Debug, PartialEq, Eq, Structural)]
pub enum FrameKind {
    Text,
    Binary,
    Pong,
    Close,
}

/// What a written frame holds: whether it is final, its opcode and its
/// payload bytes. Frames the relay writes are never masked.
pub struct FrameView {
    pub fin: bool,
    pub kind: FrameKind,
    pub payload: Seq<u8>,
}

/// A frame ready to be written, together with its model.
pub struct WireFrame<'a> {
    frame: Frame<'a>,
    model: Ghost<FrameView>,
}

impl<'a> View for WireFrame<'a> {
    type V = FrameView;

    closed spec fn view(&self) -> FrameView {
        self.model@
    }
}

impl<'a> WireFrame<'a> {
    /// The frame itself, to hand to the framing layer.
    pub fn into_frame(self) -> Frame<'a> {
        self.frame
    }
}

/// The payload of a close frame: the status code in network byte order,
/// then the reason.
pub open spec fn close_payload(code: u16, reason: Seq<u8>) -> Seq<u8> {
    seq![(code / 256) as u8, (code % 256) as u8] + reason
}

/// Relies on fastwebsockets' `Frame::text`: a final, unmasked text frame
/// whose payload is the UTF-8 bytes of `text`.
#[verifier::external_body]
pub(crate) fn text_frame<'a>(text: &'a String) -> (r: WireFrame<'a>)
    ensures
        r@ == (FrameView { fin: true, kind: FrameKind::Text, payload: encode_utf8(text@) }),
{
    WireFrame { frame: Frame::text(text.as_bytes().into()), model: Ghost(arbitrary()) }
}

/// Relies on fastwebsockets' `Frame::binary`: a final, unmasked binary frame
/// whose payload is `data`.
#[verifier::external_body]
pub(crate) fn binary_frame<'a>(data: &'a Vec<u8>) -> (r: WireFrame<'a>)
    ensures
        r@ == (FrameView { fin: true, kind: FrameKind::Binary, payload: data@ }),
{
    WireFrame { frame: Frame::binary(data.as_slice().into()), model: Ghost(arbitrary()) }
}

/// Relies on fastwebsockets' `Frame::pong`: a final, unmasked pong frame
/// whose payload is `data`.
#[verifier::external_body]
pub(crate) fn pong_frame<'a>(data: &'a Vec<u8>) -> (r: WireFrame<'a>)
    ensures
        r@ == (FrameView { fin: true, kind: FrameKind::Pong, payload: data@ }),
{
    WireFrame { frame: Frame::pong(data.as_slice().into()), model: Ghost(arbitrary()) }
}

/// Relies on fastwebsockets' `Frame::close`: a final, unmasked close frame
/// whose payload is `code` big-endian followed by the UTF-8 bytes of `reason`.
#[verifier::external_body]
pub(crate) fn close_frame<'a>(code: u16, reason: &String) -> (r: WireFrame<'a>)
    ensures
        r@ == (FrameView {
            fin: true,
            kind: FrameKind::Close,
            payload: close_payload(code, encode_utf8(reason@)),
        }),
{
    WireFrame { frame: Frame::close(code, reason.as_bytes()), model: Ghost(arbitrary()) }
}

} // verus!
