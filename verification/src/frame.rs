//! WebSocket frames as the clients receive them.
use vstd::prelude::*;
use vstd::utf8::decode_utf8;
use vstd::utf8::valid_utf8;

verus! {

/// One WebSocket frame.
#[derive(Debug)]
pub enum WsFrame {
    Text(String),
    Binary(Vec<u8>),
    Ping,
    Pong,
    /// A raw frame, which a read never yields.
    Raw,
    Close,
}

/// What a frame holds for a client that reads messages from text and binary
/// frames alike.
#[derive(Debug)]
pub enum FrameText {
    /// The text of a message.
    Text(String),
    /// Nothing to read.
    Skip,
    /// The server closes the connection.
    Close,
}

/// A `FrameText`, with its text as a character sequence.
pub enum FrameTextView {
    Text(Seq<char>),
    Skip,
    Close,
}

impl View for FrameText {
    type V = FrameTextView;

    open spec fn view(&self) -> FrameTextView {
        match *self {
            FrameText::Text(text) => FrameTextView::Text(text@),
            FrameText::Skip => FrameTextView::Skip,
            FrameText::Close => FrameTextView::Close,
        }
    }
}

/// The message in a frame: a text frame holds its text, a binary frame the text
/// that its bytes encode, where they are valid UTF-8.
pub open spec fn frame_text_view(frame: WsFrame) -> FrameTextView {
    match frame {
        WsFrame::Text(text) => FrameTextView::Text(text@),
        WsFrame::Binary(bytes) => if valid_utf8(bytes@) {
            FrameTextView::Text(decode_utf8(bytes@))
        } else {
            FrameTextView::Skip
        },
        WsFrame::Ping | WsFrame::Pong | WsFrame::Raw => FrameTextView::Skip,
        WsFrame::Close => FrameTextView::Close,
    }
}

/// The message in a frame. A binary frame counts as text, since the server
/// sends its JSON in binary frames; one that is not valid UTF-8 is skipped.
pub fn frame_text(frame: WsFrame) -> (r: FrameText)
    ensures
        r@ == frame_text_view(frame),
{
    match frame {
        WsFrame::Text(text) => FrameText::Text(text),
        WsFrame::Binary(bytes) => match String::from_utf8(bytes) {
            Ok(text) => FrameText::Text(text),
            Err(_) => FrameText::Skip,
        },
        WsFrame::Ping | WsFrame::Pong | WsFrame::Raw => FrameText::Skip,
        WsFrame::Close => FrameText::Close,
    }
}

/// A text and the binary frame of its UTF-8 encoding are read alike.
pub proof fn law_text_and_binary_alike(text: String, bytes: Vec<u8>)
    requires
        bytes@ == vstd::utf8::encode_utf8(text@),
    ensures
        frame_text_view(WsFrame::Binary(bytes)) == frame_text_view(WsFrame::Text(text)),
{
    vstd::utf8::encode_utf8_valid_utf8(text@);
    vstd::utf8::encode_utf8_decode_utf8(text@);
}

/// A frame is read in full: a text frame as its text, a binary frame of UTF-8 as
/// the text it encodes. Other frames hold nothing to read, and a close is a close.
pub proof fn law_frame_read(frame: WsFrame, read: FrameText)
    requires
        call_ensures(frame_text, (frame,), read),
    ensures
        match frame {
            WsFrame::Text(text) => read matches FrameText::Text(found) && found@ == text@,
            WsFrame::Binary(bytes) => if valid_utf8(bytes@) {
                read matches FrameText::Text(found) && vstd::utf8::encode_utf8(found@) == bytes@
            } else {
                read is Skip
            },
            WsFrame::Ping => read is Skip,
            WsFrame::Pong => read is Skip,
            WsFrame::Raw => read is Skip,
            WsFrame::Close => read is Close,
        },
{
    if let WsFrame::Binary(bytes) = frame {
        if valid_utf8(bytes@) {
            vstd::utf8::decode_utf8_encode_utf8(bytes@);
        }
    }
}

} // verus!
