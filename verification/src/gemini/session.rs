//! The streaming phase of a session: what the client sends, reports and plays
//! after each thing that happens.
use super::wire::audio_message;
use super::wire::GeminiError;
use super::wire::GeminiResponse;
use super::wire::ModelTurn;
use super::wire::Part;
use super::wire::RealtimeInputMessage;
use super::wire::Transcription;
use super::INPUT_CHUNK_SAMPLES;
use crate::decimal::signed;
use crate::events::PipelineEvent;
use crate::events::TrackId;
use crate::frame::frame_text;
use crate::frame::FrameText;
use crate::frame::WsFrame;
use crate::pcm::decode_pcm;
use crate::text::has_prefix;
use vstd::prelude::*;

verus! {

/// What can happen while a session streams.
#[derive(Debug)]
pub enum SessionInput {
    /// Samples from the microphone.
    Samples(Vec<i16>),
    /// No more samples will come.
    AudioClosed,
    /// The flush interval has passed.
    FlushTick,
    Frame(WsFrame),
    /// The message that the last frame held.
    Response(GeminiResponse),
    /// The last frame held no message that can be read.
    BadResponse,
    /// The connection reported an error.
    StreamError,
    StreamEnded,
}

/// How the session goes on.
#[derive(Debug)]
pub enum SessionNext {
    Continue,
    /// Read this text as a `GeminiResponse` and hand in what came of it.
    Read(String),
    /// The session ends without an error.
    Finish,
    /// The session fails with the error of the connection.
    Fail,
}

/// What the client does after an input: it sends the messages, reports the
/// events, plays the audio, and then goes on as `next` says.
#[derive(Debug)]
pub struct SessionOutput {
    pub sends: Vec<RealtimeInputMessage>,
    /// Whether a message that cannot be sent fails the session.
    pub sends_required: bool,
    pub events: Vec<PipelineEvent>,
    /// Translated audio; sample `s` stands for the amplitude `s / 32768`.
    pub audio: Vec<Vec<i16>>,
    pub next: SessionNext,
}

/// A session that streams.
#[derive(Debug)]
pub struct GeminiSession {
    track: TrackId,
    buffer: Vec<i16>,
    last_input_text: String,
}

/// What a session remembers: the samples not sent yet, and the last transcript
/// of the input.
pub struct SessionView {
    pub track: TrackId,
    pub buffer: Seq<i16>,
    pub last_input_text: Seq<char>,
}

impl View for GeminiSession {
    type V = SessionView;

    closed spec fn view(&self) -> SessionView {
        SessionView {
            track: self.track,
            buffer: self.buffer@,
            last_input_text: self.last_input_text@,
        }
    }
}

/// The whole chunks at the front of `samples`.
pub open spec fn whole_chunks(samples: Seq<i16>) -> Seq<Seq<i16>>
    decreases samples.len(),
{
    let size = INPUT_CHUNK_SAMPLES as int;
    if samples.len() < size {
        Seq::empty()
    } else {
        seq![samples.take(size)] + whole_chunks(samples.skip(size))
    }
}

/// The samples behind the whole chunks.
pub open spec fn behind_chunks(samples: Seq<i16>) -> Seq<i16>
    decreases samples.len(),
{
    let size = INPUT_CHUNK_SAMPLES as int;
    if samples.len() < size {
        samples
    } else {
        behind_chunks(samples.skip(size))
    }
}

/// The one chunk of all samples, or none where there are no samples.
pub open spec fn rest_chunk(samples: Seq<i16>) -> Seq<Seq<i16>> {
    if samples.len() == 0 {
        Seq::empty()
    } else {
        seq![samples]
    }
}

/// The chunks that are sent after an input.
pub open spec fn sent_chunks(buffer: Seq<i16>, input: SessionInput) -> Seq<Seq<i16>> {
    match input {
        SessionInput::Samples(samples) => whole_chunks(buffer + samples@),
        SessionInput::AudioClosed | SessionInput::FlushTick => rest_chunk(buffer),
        _ => Seq::empty(),
    }
}

/// The samples that are kept after an input.
pub open spec fn kept_samples(buffer: Seq<i16>, input: SessionInput) -> Seq<i16> {
    match input {
        SessionInput::Samples(samples) => behind_chunks(buffer + samples@),
        SessionInput::AudioClosed | SessionInput::FlushTick => Seq::empty(),
        _ => buffer,
    }
}

/// The trimmed text of a transcript, or `None` where it says nothing.
pub open spec fn spoken(transcript: Option<Transcription>) -> Option<Seq<char>> {
    match transcript {
        Some(t) => if crate::text::trimmed(t.text@).len() == 0 {
            None
        } else {
            Some(crate::text::trimmed(t.text@))
        },
        None => None,
    }
}

/// The last transcript of the input after a response.
pub open spec fn heard(last: Seq<char>, response: GeminiResponse) -> Seq<char> {
    match (response.error, response.server_content) {
        (None, Some(content)) => match spoken(content.input_transcription) {
            Some(text) => text,
            None => last,
        },
        _ => last,
    }
}

/// An optional error code as it is reported: `None` or `Some(404)`.
pub open spec fn code_text(code: Option<i32>) -> Seq<char> {
    match code {
        Some(n) => "Some("@ + crate::decimal::signed_text(n as int) + ")"@,
        None => "None"@,
    }
}

/// The report of an error of the server.
pub open spec fn server_error_text(error: GeminiError) -> Seq<char> {
    "Gemini API error: "@ + error.message@ + " (code "@ + code_text(error.code) + ")"@
}

/// The report of an input transcript.
pub open spec fn heard_events(track: TrackId, text: Option<Seq<char>>) -> Seq<
    crate::events::EventView,
> {
    match text {
        Some(text) => seq![crate::events::EventView::Partial { track, text }],
        None => Seq::empty(),
    }
}

/// The report of an output transcript: a translation of the last input
/// transcript, or of `...` where there was none.
pub open spec fn said_events(track: TrackId, last: Seq<char>, text: Option<Seq<char>>) -> Seq<
    crate::events::EventView,
> {
    match text {
        Some(translated) => seq![
            crate::events::EventView::Translated {
                track,
                source_text: if last.len() == 0 {
                    "..."@
                } else {
                    last
                },
                translated,
            },
        ],
        None => Seq::empty(),
    }
}

/// The events that report a response: the error alone where there is one, else
/// the input transcript and then the output transcript.
pub open spec fn response_events(
    track: TrackId,
    last: Seq<char>,
    response: GeminiResponse,
) -> Seq<crate::events::EventView> {
    match response.error {
        Some(error) => seq![
            crate::events::EventView::Error { track, error: server_error_text(error) },
        ],
        None => match response.server_content {
            Some(content) => heard_events(track, spoken(content.input_transcription))
                + said_events(track, heard(last, response), spoken(content.output_transcription)),
            None => Seq::empty(),
        },
    }
}

/// The samples in a part of a model turn: none where it holds no audio.
pub open spec fn part_samples(part: Part) -> Option<Seq<i16>> {
    match part.inline_data {
        Some(data) => if "audio/"@.is_prefix_of(data.mime_type@) {
            crate::pcm::decoded_pcm(data.data@)
        } else {
            None
        },
        None => None,
    }
}

/// The audio in the parts of a model turn, in their order.
pub open spec fn parts_audio(parts: Seq<Part>) -> Seq<Seq<i16>>
    decreases parts.len(),
{
    if parts.len() == 0 {
        Seq::empty()
    } else {
        match part_samples(parts.last()) {
            Some(samples) => parts_audio(parts.drop_last()).push(samples),
            None => parts_audio(parts.drop_last()),
        }
    }
}

/// The audio in a model turn.
pub open spec fn turn_audio(turn: Option<ModelTurn>) -> Seq<Seq<i16>> {
    match turn {
        Some(turn) => parts_audio(turn.parts@),
        None => Seq::empty(),
    }
}

/// The audio in a response: none in one that reports an error.
pub open spec fn response_audio(response: GeminiResponse) -> Seq<Seq<i16>> {
    match (response.error, response.server_content) {
        (None, Some(content)) => turn_audio(content.model_turn),
        _ => Seq::empty(),
    }
}

/// `SessionNext`, with its text as a character sequence.
pub enum NextView {
    Continue,
    Read(Seq<char>),
    Finish,
    Fail,
}

impl View for SessionNext {
    type V = NextView;

    open spec fn view(&self) -> NextView {
        match *self {
            SessionNext::Continue => NextView::Continue,
            SessionNext::Read(text) => NextView::Read(text@),
            SessionNext::Finish => NextView::Finish,
            SessionNext::Fail => NextView::Fail,
        }
    }
}

/// How the session goes on after an input.
pub open spec fn next_view(input: SessionInput) -> NextView {
    match input {
        SessionInput::AudioClosed | SessionInput::StreamEnded => NextView::Finish,
        SessionInput::Frame(frame) => match crate::frame::frame_text_view(frame) {
            crate::frame::FrameTextView::Text(text) => NextView::Read(text),
            crate::frame::FrameTextView::Skip => NextView::Continue,
            crate::frame::FrameTextView::Close => NextView::Finish,
        },
        SessionInput::Response(response) => if response.error is Some {
            NextView::Finish
        } else {
            NextView::Continue
        },
        SessionInput::StreamError => NextView::Fail,
        SessionInput::Samples(_) | SessionInput::FlushTick | SessionInput::BadResponse =>
            NextView::Continue,
    }
}

/// What a session remembers after an input.
pub open spec fn session_after(before: SessionView, input: SessionInput) -> SessionView {
    SessionView {
        track: before.track,
        buffer: kept_samples(before.buffer, input),
        last_input_text: match input {
            SessionInput::Response(response) => heard(before.last_input_text, response),
            _ => before.last_input_text,
        },
    }
}

/// The events that are reported after an input.
pub open spec fn session_events(before: SessionView, input: SessionInput) -> Seq<
    crate::events::EventView,
> {
    match input {
        SessionInput::Response(response) => response_events(
            before.track,
            before.last_input_text,
            response,
        ),
        _ => Seq::empty(),
    }
}

/// The audio that is played after an input.
pub open spec fn session_audio(input: SessionInput) -> Seq<Seq<i16>> {
    match input {
        SessionInput::Response(response) => response_audio(response),
        _ => Seq::empty(),
    }
}

/// Whether the messages carry the chunks, one each and in order.
pub open spec fn carry_all(messages: Seq<RealtimeInputMessage>, chunks: Seq<Seq<i16>>) -> bool {
    &&& messages.len() == chunks.len()
    &&& forall|i: int|
        0 <= i < chunks.len() ==> super::wire::carries(#[trigger] messages[i], chunks[i])
}

/// Lists of samples as sequences.
pub open spec fn audio_view(audio: Seq<Vec<i16>>) -> Seq<Seq<i16>> {
    audio.map_values(|samples: Vec<i16>| samples@)
}

/// Whether `output` is what the client does after `input`.
pub open spec fn answers(
    before: SessionView,
    input: SessionInput,
    output: SessionOutput,
) -> bool {
    &&& carry_all(output.sends@, sent_chunks(before.buffer, input))
    &&& output.sends_required == !(input is AudioClosed)
    &&& crate::events::events_view(output.events@) == session_events(before, input)
    &&& audio_view(output.audio@) == session_audio(input)
    &&& output.next@ == next_view(input)
}

/// The trimmed text of a transcript, or `None` where it says nothing.
fn spoken_text(transcript: &Option<Transcription>) -> (r: Option<String>)
    ensures
        match r {
            Some(text) => spoken(*transcript) == Some(text@),
            None => spoken(*transcript) is None,
        },
{
    match transcript {
        Some(t) => {
            let text = t.text.as_str().trim();
            if text.is_empty() {
                None
            } else {
                Some(String::from(text))
            }
        },
        None => None,
    }
}

/// The report of an error of the server.
pub fn server_error_message(error: &GeminiError) -> (text: String)
    ensures
        text@ == server_error_text(*error),
{
    let mut text = String::from("Gemini API error: ");
    text.append(error.message.as_str());
    text.append(" (code ");
    match error.code {
        Some(n) => {
            let mut code = String::from("Some(");
            code.append(signed(n).as_str());
            code.append(")");
            text.append(code.as_str());
        },
        None => {
            text.append("None");
        },
    }
    text.append(")");
    text
}

/// The audio in a model turn.
pub fn turn_samples(turn: &Option<ModelTurn>) -> (audio: Vec<Vec<i16>>)
    ensures
        audio_view(audio@) == turn_audio(*turn),
{
    let mut audio: Vec<Vec<i16>> = Vec::new();
    if let Some(turn) = turn {
        let mut i: usize = 0;
        while i < turn.parts.len()
            invariant
                i <= turn.parts@.len(),
                audio_view(audio@) == parts_audio(turn.parts@.take(i as int)),
            decreases turn.parts@.len() - i,
        {
            let ghost seen = turn.parts@.take(i as int + 1);
            assert(seen.drop_last() == turn.parts@.take(i as int));
            assert(seen.last() == turn.parts@[i as int]);
            if let Some(data) = &turn.parts[i].inline_data {
                if has_prefix(data.mime_type.as_str(), "audio/") {
                    if let Some(samples) = decode_pcm(data.data.as_str()) {
                        let ghost before = audio@;
                        audio.push(samples);
                        assert(audio_view(audio@) =~= audio_view(before).push(samples@));
                    }
                }
            }
            i = i + 1;
        }
        assert(turn.parts@.take(turn.parts@.len() as int) == turn.parts@);
    }
    assert(turn is None ==> audio_view(audio@) =~= Seq::empty());
    audio
}

/// What the client does after an input that it only takes note of.
fn quiet(next: SessionNext) -> (output: SessionOutput)
    ensures
        output.sends@.len() == 0,
        output.sends_required,
        crate::events::events_view(output.events@) == Seq::<crate::events::EventView>::empty(),
        audio_view(output.audio@) == Seq::<Seq<i16>>::empty(),
        output.next == next,
{
    let output = SessionOutput {
        sends: Vec::new(),
        sends_required: true,
        events: Vec::new(),
        audio: Vec::new(),
        next,
    };
    assert(crate::events::events_view(output.events@) =~= Seq::empty());
    assert(audio_view(output.audio@) =~= Seq::empty());
    output
}

impl GeminiSession {
    /// Whether fewer samples than a chunk are kept.
    pub open spec fn wf(&self) -> bool {
        self@.buffer.len() < INPUT_CHUNK_SAMPLES
    }

    /// A session that has heard nothing yet.
    pub fn new(track: TrackId) -> (session: Self)
        ensures
            session.wf(),
            session@.track == track,
            session@.buffer == Seq::<i16>::empty(),
            session@.last_input_text == Seq::<char>::empty(),
    {
        GeminiSession { track, buffer: Vec::new(), last_input_text: String::new() }
    }

    /// Takes samples in and gives out the messages for the whole chunks.
    fn push_samples(&mut self, samples: &[i16]) -> (sends: Vec<RealtimeInputMessage>)
        requires
            old(self).wf(),
        ensures
            final(self).wf(),
            carry_all(sends@, whole_chunks(old(self)@.buffer + samples@)),
            final(self)@.buffer == behind_chunks(old(self)@.buffer + samples@),
            final(self)@.track == old(self)@.track,
            final(self)@.last_input_text == old(self)@.last_input_text,
    {
        let mut sends: Vec<RealtimeInputMessage> = Vec::new();
        self.buffer.extend_from_slice(samples);
        let ghost all = self.buffer@;
        assert(all =~= old(self)@.buffer + samples@);
        let ghost mut done: Seq<Seq<i16>> = Seq::empty();
        while self.buffer.len() >= INPUT_CHUNK_SAMPLES
            invariant
                carry_all(sends@, done),
                done + whole_chunks(self.buffer@) == whole_chunks(all),
                behind_chunks(self.buffer@) == behind_chunks(all),
                self.track == old(self).track,
                self.last_input_text == old(self).last_input_text,
            decreases self.buffer@.len(),
        {
            let ghost before = self.buffer@;
            let rest = self.buffer.split_off(INPUT_CHUNK_SAMPLES);
            assert(self.buffer@ =~= before.take(INPUT_CHUNK_SAMPLES as int));
            assert(rest@ =~= before.skip(INPUT_CHUNK_SAMPLES as int));
            sends.push(audio_message(self.buffer.as_slice()));
            proof {
                let chunk = self.buffer@;
                let earlier = done;
                done = earlier.push(chunk);
                assert(earlier + whole_chunks(before) =~= done + whole_chunks(rest@));
            }
            self.buffer = rest;
        }
        assert(done =~= whole_chunks(all));
        sends
    }

    /// Gives out all samples that are kept, as one message.
    fn flush(&mut self) -> (sends: Vec<RealtimeInputMessage>)
        requires
            old(self).wf(),
        ensures
            final(self).wf(),
            carry_all(sends@, rest_chunk(old(self)@.buffer)),
            final(self)@.buffer == Seq::<i16>::empty(),
            final(self)@.track == old(self)@.track,
            final(self)@.last_input_text == old(self)@.last_input_text,
    {
        let mut sends: Vec<RealtimeInputMessage> = Vec::new();
        if !self.buffer.is_empty() {
            sends.push(audio_message(self.buffer.as_slice()));
            self.buffer.clear();
        }
        assert(self.buffer@ =~= Seq::empty());
        sends
    }

    /// Takes note of a response and gives out its events and audio.
    fn take_response(&mut self, response: GeminiResponse) -> (output: SessionOutput)
        requires
            old(self).wf(),
        ensures
            final(self).wf(),
            final(self)@ == session_after(old(self)@, SessionInput::Response(response)),
            answers(old(self)@, SessionInput::Response(response), output),
    {
        let mut output = quiet(SessionNext::Continue);
        if let Some(error) = &response.error {
            let event = PipelineEvent::Error {
                track: self.track,
                error: server_error_message(error),
            };
            output.events.push(event);
            output.next = SessionNext::Finish;
            assert(crate::events::events_view(output.events@) =~= seq![event@]);
            return output;
        }
        if let Some(content) = &response.server_content {
            if let Some(text) = spoken_text(&content.input_transcription) {
                self.last_input_text = text.clone();
                let event = PipelineEvent::Partial { track: self.track, text };
                output.events.push(event);
            }
            assert(crate::events::events_view(output.events@) =~= heard_events(
                old(self)@.track,
                spoken(content.input_transcription),
            ));
            let ghost first = output.events@;
            if let Some(translated) = spoken_text(&content.output_transcription) {
                let source_text = if self.last_input_text.as_str().is_empty() {
                    String::from("...")
                } else {
                    self.last_input_text.clone()
                };
                let event = PipelineEvent::Translated {
                    track: self.track,
                    source_text,
                    translated,
                };
                output.events.push(event);
                assert(crate::events::events_view(output.events@) =~= crate::events::events_view(
                    first,
                ).push(event@));
            }
            assert(crate::events::events_view(output.events@) =~= response_events(
                old(self)@.track,
                old(self)@.last_input_text,
                response,
            ));
            output.audio = turn_samples(&content.model_turn);
        }
        output
    }

    /// What the client does after an input.
    pub fn step(&mut self, input: SessionInput) -> (output: SessionOutput)
        requires
            old(self).wf(),
        ensures
            final(self).wf(),
            final(self)@ == session_after(old(self)@, input),
            answers(old(self)@, input, output),
    {
        match input {
            SessionInput::Samples(samples) => {
                let mut output = quiet(SessionNext::Continue);
                output.sends = self.push_samples(samples.as_slice());
                output
            },
            SessionInput::AudioClosed => {
                let mut output = quiet(SessionNext::Finish);
                output.sends_required = false;
                output.sends = self.flush();
                output
            },
            SessionInput::FlushTick => {
                let mut output = quiet(SessionNext::Continue);
                output.sends = self.flush();
                output
            },
            SessionInput::Frame(frame) => match frame_text(frame) {
                FrameText::Text(text) => quiet(SessionNext::Read(text)),
                FrameText::Skip => quiet(SessionNext::Continue),
                FrameText::Close => quiet(SessionNext::Finish),
            },
            SessionInput::Response(response) => self.take_response(response),
            SessionInput::BadResponse => quiet(SessionNext::Continue),
            SessionInput::StreamError => quiet(SessionNext::Fail),
            SessionInput::StreamEnded => quiet(SessionNext::Finish),
        }
    }
}

} // verus!
