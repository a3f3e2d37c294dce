//! A Scribe session: what the client does after each thing that happens. It
//! streams audio until the audio closes or the connection ends, and then reads
//! what the server still sends.
use super::message::audio_chunk_msg;
use super::message::handle_ws_message;
use super::message::Note;
use crate::events::PipelineError;
use crate::events::PipelineEvent;
use crate::events::TrackId;
use crate::frame::WsFrame;
use vstd::prelude::*;

verus! {

/// What can happen in a session.
#[derive(Debug)]
pub enum ScribeInput {
    /// Samples from the microphone.
    Samples(Vec<i16>),
    /// No more samples will come.
    AudioClosed,
    Frame(WsFrame),
    /// The connection reported an error.
    StreamError,
    StreamEnded,
}

/// Where a session stands.
#[derive(Clone, Copy, Debug, PartialEq, Eq, Structural)]
pub enum Phase {
    /// Audio goes out and messages come in.
    Streaming,
    /// No more audio goes out; the last messages come in.
    Draining,
    Ended,
}

/// What the client does after an input.
#[derive(Debug)]
pub enum ScribeAction {
    Nothing,
    /// Send the message. Where it is required, a failure to send it fails the
    /// session.
    Send { message: String, required: bool },
    Emit(PipelineEvent),
    /// Take note of a message that is no transcript.
    Note(Note),
    /// Take note of a message that cannot be read.
    Reject(PipelineError),
    /// The session fails with the error of the connection.
    Fail,
}

/// A `ScribeAction`, with its texts as character sequences.
pub enum ActionView {
    Nothing,
    Send { message: Seq<char>, required: bool },
    Emit(crate::events::EventView),
    Note(super::message::NoteView),
    Reject,
    Fail,
}

impl View for ScribeAction {
    type V = ActionView;

    open spec fn view(&self) -> ActionView {
        match *self {
            ScribeAction::Nothing => ActionView::Nothing,
            ScribeAction::Send { message, required } => ActionView::Send {
                message: message@,
                required,
            },
            ScribeAction::Emit(event) => ActionView::Emit(event@),
            ScribeAction::Note(note) => ActionView::Note(note@),
            ScribeAction::Reject(_) => ActionView::Reject,
            ScribeAction::Fail => ActionView::Fail,
        }
    }
}

/// Where a session stands after an input.
pub open spec fn phase_after(phase: Phase, input: ScribeInput) -> Phase {
    match (phase, input) {
        (Phase::Streaming, ScribeInput::AudioClosed) => Phase::Draining,
        (Phase::Streaming, ScribeInput::StreamEnded) => Phase::Draining,
        (Phase::Streaming, ScribeInput::StreamError) => Phase::Ended,
        (Phase::Draining, ScribeInput::StreamEnded) => Phase::Ended,
        (Phase::Draining, ScribeInput::StreamError) => Phase::Ended,
        _ => phase,
    }
}

/// What the client does after a frame: it reports a transcript, takes note of
/// another message, and of one that is no JSON while it streams.
pub open spec fn frame_action(phase: Phase, track: TrackId, frame: WsFrame) -> ActionView {
    match frame {
        WsFrame::Text(text) => match crate::json::parsed_json(text@) {
            Some(value) => match super::message::value_event(track, value) {
                Some(event) => ActionView::Emit(event),
                None => match super::message::value_note(value, text@) {
                    Some(note) => ActionView::Note(note),
                    None => ActionView::Nothing,
                },
            },
            None => if phase is Streaming {
                ActionView::Reject
            } else {
                ActionView::Nothing
            },
        },
        _ => ActionView::Nothing,
    }
}

/// What the client does after an input.
pub open spec fn action_view(phase: Phase, track: TrackId, input: ScribeInput) -> ActionView {
    match (phase, input) {
        (Phase::Streaming, ScribeInput::Samples(samples)) => ActionView::Send {
            message: crate::json::json_text(super::message::chunk_record(samples@, false)),
            required: true,
        },
        (Phase::Streaming, ScribeInput::AudioClosed) => ActionView::Send {
            message: crate::json::json_text(super::message::chunk_record(Seq::empty(), true)),
            required: false,
        },
        (Phase::Streaming, ScribeInput::StreamError) => ActionView::Fail,
        (Phase::Streaming, ScribeInput::Frame(frame)) => frame_action(phase, track, frame),
        (Phase::Draining, ScribeInput::Frame(frame)) => frame_action(phase, track, frame),
        _ => ActionView::Nothing,
    }
}

/// Whether what is sent while a session streams reads back: samples as a chunk of
/// just these, and the end of the audio as the commit of no more samples.
pub open spec fn sends_read_back(phase: Phase, input: ScribeInput, action: ScribeAction) -> bool {
    phase is Streaming ==> match input {
        ScribeInput::Samples(samples) => action matches ScribeAction::Send { message, .. }
            && super::message::reads_as_chunk(message@, samples@, false),
        ScribeInput::AudioClosed => action matches ScribeAction::Send { message, .. }
            && super::message::reads_as_chunk(message@, Seq::empty(), true),
        _ => true,
    }
}

/// A Scribe session.
#[derive(Debug)]
pub struct ScribeSession {
    track: TrackId,
    phase: Phase,
}

impl ScribeSession {
    /// The track that the session works for.
    pub closed spec fn spec_track(&self) -> TrackId {
        self.track
    }

    /// Where the session stands.
    pub closed spec fn spec_phase(&self) -> Phase {
        self.phase
    }

    /// A session that streams.
    pub fn new(track: TrackId) -> (session: Self)
        ensures
            session.spec_track() == track,
            session.spec_phase() == Phase::Streaming,
    {
        ScribeSession { track, phase: Phase::Streaming }
    }

    /// Where the session stands.
    pub fn phase(&self) -> (phase: Phase)
        ensures
            phase == self.spec_phase(),
    {
        self.phase
    }

    /// What the client does after a frame.
    fn read_frame(&self, frame: WsFrame) -> (action: ScribeAction)
        ensures
            action@ == frame_action(self.spec_phase(), self.spec_track(), frame),
            action matches ScribeAction::Reject(error) ==> frame matches WsFrame::Text(text)
                && super::message::is_rejection(error, text@),
    {
        match handle_ws_message(frame, self.track) {
            Ok(reading) => match (reading.event, reading.note) {
                (Some(event), _) => ScribeAction::Emit(event),
                (None, Some(note)) => ScribeAction::Note(note),
                (None, None) => ScribeAction::Nothing,
            },
            Err(error) => match self.phase {
                Phase::Streaming => ScribeAction::Reject(error),
                _ => ScribeAction::Nothing,
            },
        }
    }

    /// What the client does after an input.
    pub fn step(&mut self, input: ScribeInput) -> (action: ScribeAction)
        requires
            input matches ScribeInput::Samples(samples) ==> crate::pcm::pcm_fits(samples@.len()),
        ensures
            final(self).spec_track() == old(self).spec_track(),
            final(self).spec_phase() == phase_after(old(self).spec_phase(), input),
            action@ == action_view(old(self).spec_phase(), old(self).spec_track(), input),
            action matches ScribeAction::Reject(error) ==> input matches ScribeInput::Frame(
                WsFrame::Text(text),
            ) && super::message::is_rejection(error, text@),
            sends_read_back(old(self).spec_phase(), input, action),
    {
        match (self.phase, input) {
            (Phase::Streaming, ScribeInput::Samples(samples)) => ScribeAction::Send {
                message: audio_chunk_msg(samples.as_slice(), false),
                required: true,
            },
            (Phase::Streaming, ScribeInput::AudioClosed) => {
                self.phase = Phase::Draining;
                let none: Vec<i16> = Vec::new();
                assert(none@ =~= Seq::empty());
                ScribeAction::Send {
                    message: audio_chunk_msg(none.as_slice(), true),
                    required: false,
                }
            },
            (Phase::Streaming, ScribeInput::StreamEnded) => {
                self.phase = Phase::Draining;
                ScribeAction::Nothing
            },
            (Phase::Streaming, ScribeInput::StreamError) => {
                self.phase = Phase::Ended;
                ScribeAction::Fail
            },
            (Phase::Streaming, ScribeInput::Frame(frame)) => self.read_frame(frame),
            (Phase::Draining, ScribeInput::Frame(frame)) => self.read_frame(frame),
            (Phase::Draining, ScribeInput::StreamEnded) => {
                self.phase = Phase::Ended;
                ScribeAction::Nothing
            },
            (Phase::Draining, ScribeInput::StreamError) => {
                self.phase = Phase::Ended;
                ScribeAction::Nothing
            },
            _ => ScribeAction::Nothing,
        }
    }
}

/// Where a session stands after a run of inputs.
pub open spec fn phase_run(phase: Phase, inputs: Seq<ScribeInput>) -> Phase
    decreases inputs.len(),
{
    if inputs.len() == 0 {
        phase
    } else {
        phase_after(phase_run(phase, inputs.drop_last()), inputs.last())
    }
}

/// The actions of the client over a run of inputs.
pub open spec fn actions(phase: Phase, track: TrackId, inputs: Seq<ScribeInput>) -> Seq<ActionView>
    decreases inputs.len(),
{
    if inputs.len() == 0 {
        Seq::empty()
    } else {
        actions(phase, track, inputs.drop_last()).push(
            action_view(phase_run(phase, inputs.drop_last()), track, inputs.last()),
        )
    }
}

/// Whether an action is the commit that ends the audio.
pub open spec fn is_commit(action: ActionView) -> bool {
    action matches ActionView::Send { required, .. } && !required
}

/// The phases only go forward: a session that has left streaming or has ended
/// does not come back.
pub proof fn law_phases_go_forward(phase: Phase, inputs: Seq<ScribeInput>)
    ensures
        phase is Ended ==> phase_run(phase, inputs) is Ended,
        phase is Draining ==> !(phase_run(phase, inputs) is Streaming),
    decreases inputs.len(),
{
    if inputs.len() > 0 {
        law_phases_go_forward(phase, inputs.drop_last());
    }
}

/// After the commit that ends the audio nothing more is sent; so a session
/// commits at most once.
pub proof fn law_nothing_sent_after_commit(
    phase: Phase,
    track: TrackId,
    inputs: Seq<ScribeInput>,
    i: int,
    j: int,
)
    requires
        0 <= i < j < inputs.len(),
        is_commit(actions(phase, track, inputs)[i]),
    ensures
        !(actions(phase, track, inputs)[j] is Send),
{
    lemma_action_at(phase, track, inputs, i);
    lemma_action_at(phase, track, inputs, j);
    let upto = inputs.take(i + 1);
    assert(upto.drop_last() =~= inputs.take(i));
    assert(phase_run(phase, upto) is Draining);
    let between = inputs.subrange(i + 1, j);
    lemma_phase_run_concat(phase, upto, between);
    assert(upto + between =~= inputs.take(j));
    law_phases_go_forward(phase_run(phase, upto), between);
}

/// When the audio closes on a session that streams, exactly then it commits.
pub proof fn law_close_commits(phase: Phase, track: TrackId, input: ScribeInput)
    ensures
        is_commit(action_view(phase, track, input)) <==> phase is Streaming && input is AudioClosed,
{
}

/// A session that has ended does nothing.
pub proof fn law_ended_is_silent(track: TrackId, input: ScribeInput)
    ensures
        action_view(Phase::Ended, track, input) is Nothing,
        phase_after(Phase::Ended, input) is Ended,
{
}

/// While a session drains, frames are answered as they are while it streams,
/// except that a message that cannot be read is passed over.
pub proof fn law_tail_is_reported(track: TrackId, frame: WsFrame)
    ensures
        action_view(Phase::Draining, track, ScribeInput::Frame(frame)) == match action_view(
            Phase::Streaming,
            track,
            ScribeInput::Frame(frame),
        ) {
            ActionView::Reject => ActionView::Nothing,
            action => action,
        },
{
}

/// Every event of a session is on the session's own track.
pub proof fn law_events_on_track(phase: Phase, track: TrackId, input: ScribeInput)
    ensures
        action_view(phase, track, input) matches ActionView::Emit(event)
            ==> crate::events::event_track(event) == track,
{
}

proof fn lemma_action_at(phase: Phase, track: TrackId, inputs: Seq<ScribeInput>, i: int)
    requires
        0 <= i < inputs.len(),
    ensures
        actions(phase, track, inputs).len() == inputs.len(),
        actions(phase, track, inputs)[i] == action_view(
            phase_run(phase, inputs.take(i)),
            track,
            inputs[i],
        ),
    decreases inputs.len(),
{
    lemma_actions_len(phase, track, inputs.drop_last());
    if i < inputs.len() - 1 {
        lemma_action_at(phase, track, inputs.drop_last(), i);
        assert(inputs.drop_last().take(i) =~= inputs.take(i));
    } else {
        assert(inputs.take(i) =~= inputs.drop_last());
    }
}

proof fn lemma_actions_len(phase: Phase, track: TrackId, inputs: Seq<ScribeInput>)
    ensures
        actions(phase, track, inputs).len() == inputs.len(),
    decreases inputs.len(),
{
    if inputs.len() > 0 {
        lemma_actions_len(phase, track, inputs.drop_last());
    }
}

proof fn lemma_phase_run_concat(phase: Phase, a: Seq<ScribeInput>, b: Seq<ScribeInput>)
    ensures
        phase_run(phase, a + b) == phase_run(phase_run(phase, a), b),
    decreases b.len(),
{
    if b.len() == 0 {
        assert(a + b =~= a);
    } else {
        assert((a + b).drop_last() =~= a + b.drop_last());
        lemma_phase_run_concat(phase, a, b.drop_last());
    }
}

} // verus!
