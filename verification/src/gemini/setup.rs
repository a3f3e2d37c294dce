//! The setup phase of a session: after the setup message the client waits for
//! the server to complete the setup before it streams audio.
use crate::frame::frame_text;
use crate::frame::FrameText;
use crate::frame::WsFrame;
use crate::json::get_member;
use crate::json::read_value;
use crate::json::value_text;
use vstd::prelude::*;

verus! {

/// What can happen while the client waits for the server.
#[derive(Debug)]
pub enum SetupInput {
    Frame(WsFrame),
    /// The connection reported an error.
    StreamError,
    StreamEnded,
    TimedOut,
}

/// What the client does next.
#[derive(Debug)]
pub enum SetupStep {
    Wait,
    /// The setup is complete: stream audio.
    Ready,
    /// The session fails with this message.
    Failed(String),
    /// The session fails with the error of the connection.
    StreamFailed,
}

/// A `SetupStep`, with its message as a character sequence.
pub enum SetupView {
    Wait,
    Ready,
    Failed(Seq<char>),
    StreamFailed,
}

impl View for SetupStep {
    type V = SetupView;

    open spec fn view(&self) -> SetupView {
        match *self {
            SetupStep::Wait => SetupView::Wait,
            SetupStep::Ready => SetupView::Ready,
            SetupStep::Failed(message) => SetupView::Failed(message@),
            SetupStep::StreamFailed => SetupView::StreamFailed,
        }
    }
}

/// The step after a reply that completes the setup or not and may report an
/// error, given by its JSON text. An error fails the session even beside a
/// completed setup.
pub open spec fn reply_view(complete: bool, error: Option<Seq<char>>) -> SetupView {
    match error {
        Some(text) => SetupView::Failed("Gemini setup error: "@ + text),
        None => if complete {
            SetupView::Ready
        } else {
            SetupView::Wait
        },
    }
}

/// The step after a message: one that is no JSON says nothing.
pub open spec fn message_view(reply: Option<crate::json::Json>) -> SetupView {
    match reply {
        Some(value) => reply_view(
            crate::json::json_member(value, "setupComplete"@) is Some,
            match crate::json::json_member(value, "error"@) {
                Some(error) => Some(crate::json::json_text(error)),
                None => None,
            },
        ),
        None => SetupView::Wait,
    }
}

/// The step after an input.
pub open spec fn setup_view(input: SetupInput) -> SetupView {
    match input {
        SetupInput::Frame(frame) => match crate::frame::frame_text_view(frame) {
            crate::frame::FrameTextView::Text(text) => message_view(
                crate::json::parsed_json(text),
            ),
            crate::frame::FrameTextView::Skip => SetupView::Wait,
            crate::frame::FrameTextView::Close => SetupView::Failed(
                "server closed WebSocket before setupComplete"@,
            ),
        },
        SetupInput::StreamError => SetupView::StreamFailed,
        SetupInput::StreamEnded => SetupView::Failed(
            "Gemini: ws stream ended before setupComplete"@,
        ),
        SetupInput::TimedOut => SetupView::Failed("Gemini: timeout waiting for setupComplete"@),
    }
}

/// The step after a reply that completes the setup or not and may report an
/// error, given by its JSON text.
pub fn reply_step(complete: bool, error: Option<String>) -> (step: SetupStep)
    ensures
        step@ == reply_view(
            complete,
            match error {
                Some(text) => Some(text@),
                None => None,
            },
        ),
{
    match error {
        Some(text) => {
            let mut message = String::from("Gemini setup error: ");
            message.append(text.as_str());
            SetupStep::Failed(message)
        },
        None => if complete {
            SetupStep::Ready
        } else {
            SetupStep::Wait
        },
    }
}

/// The step after a message.
pub fn message_step(text: &str) -> (step: SetupStep)
    ensures
        step@ == message_view(crate::json::parsed_json(text@)),
{
    match read_value(text) {
        Ok(value) => {
            let complete = get_member(&value, "setupComplete").is_some();
            let error = match get_member(&value, "error") {
                Some(error) => Some(value_text(error)),
                None => None,
            };
            reply_step(complete, error)
        },
        Err(_) => SetupStep::Wait,
    }
}

/// What the client does after an input.
pub fn setup_step(input: SetupInput) -> (step: SetupStep)
    ensures
        step@ == setup_view(input),
{
    match input {
        SetupInput::Frame(frame) => match frame_text(frame) {
            FrameText::Text(text) => message_step(text.as_str()),
            FrameText::Skip => SetupStep::Wait,
            FrameText::Close => SetupStep::Failed(
                String::from("server closed WebSocket before setupComplete"),
            ),
        },
        SetupInput::StreamError => SetupStep::StreamFailed,
        SetupInput::StreamEnded => SetupStep::Failed(
            String::from("Gemini: ws stream ended before setupComplete"),
        ),
        SetupInput::TimedOut => SetupStep::Failed(
            String::from("Gemini: timeout waiting for setupComplete"),
        ),
    }
}

/// The outcome of the setup phase on a run of inputs: the first step that does
/// not wait, or still waiting.
pub open spec fn setup_outcome(inputs: Seq<SetupInput>) -> SetupView
    decreases inputs.len(),
{
    if inputs.len() == 0 {
        SetupView::Wait
    } else if setup_view(inputs.first()) is Wait {
        setup_outcome(inputs.drop_first())
    } else {
        setup_view(inputs.first())
    }
}

/// Whether `input` is a message that completes the setup and reports no error.
pub open spec fn completes_setup(input: SetupInput) -> bool {
    &&& input matches SetupInput::Frame(frame)
    &&& crate::frame::frame_text_view(frame) matches crate::frame::FrameTextView::Text(text)
    &&& crate::json::parsed_json(text) matches Some(value)
    &&& crate::json::json_member(value, "setupComplete"@) is Some
    &&& crate::json::json_member(value, "error"@) is None
}

/// Audio streams only after the server has completed the setup: a run of inputs
/// leaves the client ready exactly where one of them completes the setup
/// without an error and the client waited through all before it.
pub proof fn law_ready_only_when_complete(inputs: Seq<SetupInput>)
    ensures
        setup_outcome(inputs) is Ready <==> exists|i: int|
            0 <= i < inputs.len() && completes_setup(#[trigger] inputs[i]) && forall|j: int|
                0 <= j < i ==> setup_view(#[trigger] inputs[j]) is Wait,
    decreases inputs.len(),
{
    if inputs.len() > 0 {
        let rest = inputs.drop_first();
        if setup_view(inputs[0]) is Wait {
            law_ready_only_when_complete(rest);
            if setup_outcome(inputs) is Ready {
                let i = choose|i: int|
                    0 <= i < rest.len() && completes_setup(#[trigger] rest[i]) && forall|j: int|
                        0 <= j < i ==> setup_view(#[trigger] rest[j]) is Wait;
                assert forall|j: int| 0 <= j < i + 1 implies setup_view(
                    #[trigger] inputs[j],
                ) is Wait by {
                    if j > 0 {
                        assert(rest[j - 1] == inputs[j]);
                    }
                }
                assert(completes_setup(inputs[i + 1]));
            }
            if exists|i: int|
                0 <= i < inputs.len() && completes_setup(#[trigger] inputs[i]) && forall|j: int|
                    0 <= j < i ==> setup_view(#[trigger] inputs[j]) is Wait {
                let i = choose|i: int|
                    0 <= i < inputs.len() && completes_setup(#[trigger] inputs[i]) && forall|j: int|
                        0 <= j < i ==> setup_view(#[trigger] inputs[j]) is Wait;
                assert(i > 0);
                assert(completes_setup(rest[i - 1]));
                assert forall|j: int| 0 <= j < i - 1 implies setup_view(
                    #[trigger] rest[j],
                ) is Wait by {
                    assert(inputs[j + 1] == rest[j]);
                }
            }
        } else {
            if setup_view(inputs[0]) is Ready {
                assert(completes_setup(inputs[0]));
            }
        }
    }
}

/// Once a setup phase has an outcome, nothing that comes later changes it.
pub proof fn law_setup_outcome_stands(inputs: Seq<SetupInput>, later: Seq<SetupInput>)
    requires
        !(setup_outcome(inputs) is Wait),
    ensures
        setup_outcome(inputs + later) == setup_outcome(inputs),
    decreases inputs.len(),
{
    if setup_view(inputs.first()) is Wait {
        law_setup_outcome_stands(inputs.drop_first(), later);
        assert((inputs + later).drop_first() == inputs.drop_first() + later);
    }
}

/// The text that the client reads from a frame.
pub open spec fn readable(frame: WsFrame) -> Option<Seq<char>> {
    match frame {
        WsFrame::Text(text) => Some(text@),
        WsFrame::Binary(bytes) => if vstd::utf8::valid_utf8(bytes@) {
            Some(vstd::utf8::decode_utf8(bytes@))
        } else {
            None
        },
        _ => None,
    }
}

/// What the setup phase does. A reply with an error, whatever the error is, fails
/// it and is told as the server put it; a reply without one completes it exactly
/// where it has a `setupComplete`; a close, the end of the stream and the deadline
/// fail it with their own messages; an error of the connection fails it with that
/// error; and anything else lets the client wait.
pub proof fn law_setup_step(input: SetupInput, step: SetupStep)
    requires
        call_ensures(setup_step, (input,), step),
    ensures
        match input {
            SetupInput::Frame(WsFrame::Close) => step matches SetupStep::Failed(message) && message@
                == "server closed WebSocket before setupComplete"@,
            SetupInput::Frame(frame) => match readable(frame) {
                Some(text) => match crate::json::parsed_json(text) {
                    Some(reply) => match crate::json::json_member(reply, "error"@) {
                        Some(error) => step matches SetupStep::Failed(message) && message@
                            == "Gemini setup error: "@ + crate::json::json_text(error),
                        None => if crate::json::json_member(reply, "setupComplete"@) is Some {
                            step is Ready
                        } else {
                            step is Wait
                        },
                    },
                    None => step is Wait,
                },
                None => step is Wait,
            },
            SetupInput::StreamError => step is StreamFailed,
            SetupInput::StreamEnded => step matches SetupStep::Failed(message) && message@
                == "Gemini: ws stream ended before setupComplete"@,
            SetupInput::TimedOut => step matches SetupStep::Failed(message) && message@
                == "Gemini: timeout waiting for setupComplete"@,
        },
{
}

/// A reply with an error fails the setup with that error in full; one without
/// completes it where it says so.
pub proof fn law_reply_step(complete: bool, error: Option<String>, step: SetupStep)
    requires
        call_ensures(reply_step, (complete, error), step),
    ensures
        match error {
            Some(text) => step matches SetupStep::Failed(message) && message@
                == "Gemini setup error: "@ + text@,
            None => (complete ==> step is Ready) && (!complete ==> step is Wait),
        },
{
}

/// A message is taken as the same text in a frame is.
pub proof fn law_message_step(text: &str, frame: String, step: SetupStep, whole: SetupStep)
    requires
        call_ensures(message_step, (text,), step),
        frame@ == text@,
        call_ensures(setup_step, (SetupInput::Frame(WsFrame::Text(frame)),), whole),
    ensures
        step@ == whole@,
{
}

} // verus!
