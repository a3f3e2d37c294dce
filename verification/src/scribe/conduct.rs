//! What a Scribe session does, told from what it is given and what it does: each
//! law speaks of the actions of `ScribeSession::step` themselves.
use super::message::lemma_tells_chunk;
use super::message::notes;
use super::message::reports;
use super::message::tells_chunk;
use super::message::text_under;
use super::session::action_view;
use super::session::phase_after;
use super::session::sends_read_back;
use super::session::Phase;
use super::session::ScribeAction;
use super::session::ScribeInput;
use super::session::ScribeSession;
use crate::events::TrackId;
use crate::frame::WsFrame;
use crate::json::Json;
use vstd::prelude::*;

verus! {

/// While a session streams, samples are sent as one message that holds just these,
/// without a commit, and the end of the audio as a commit without samples; the
/// session then drains. Nothing else is ever sent.
pub proof fn law_step_sends(s: &mut ScribeSession, input: ScribeInput, action: ScribeAction)
    requires
        call_ensures(ScribeSession::step, (s, input), action),
    ensures
        old(s).spec_phase() is Streaming && input is Samples ==> (
        action matches ScribeAction::Send { message, required } && required && tells_chunk(
            message@,
            input->Samples_0@,
            false,
        )) && final(s).spec_phase() is Streaming,
        old(s).spec_phase() is Streaming && input is AudioClosed ==> (
        action matches ScribeAction::Send { message, required } && !required && tells_chunk(
            message@,
            Seq::empty(),
            true,
        )) && final(s).spec_phase() is Draining,
        !(old(s).spec_phase() is Streaming && (input is Samples || input is AudioClosed)) ==> !(
        action is Send),
{
    let phase = old(s).spec_phase();
    assert(action@ == action_view(phase, old(s).spec_track(), input));
    if phase is Streaming {
        if let ScribeInput::Samples(samples) = input {
            let message = action->Send_message;
            lemma_tells_chunk(message@, samples@, false);
        }
        if input is AudioClosed {
            let message = action->Send_message;
            lemma_tells_chunk(message@, Seq::empty(), true);
        }
    }
}

/// Whether an action is what a message with this text calls for: the report of a
/// transcript, or the note on another message, or nothing for a blank transcript.
pub open spec fn answers_message(
    action: ScribeAction,
    track: TrackId,
    value: Json,
    message: Seq<char>,
) -> bool {
    let kind = text_under(value, "message_type"@);
    let said = text_under(value, "text"@);
    match action {
        ScribeAction::Emit(event) => reports(Some(event), track, kind, said),
        ScribeAction::Note(note) => notes(Some(note), kind, message) && reports(
            None,
            track,
            kind,
            said,
        ),
        ScribeAction::Nothing => reports(None, track, kind, said) && notes(None, kind, message),
        _ => false,
    }
}

/// While a session streams or drains, a text frame is answered by what it says,
/// and any other frame by nothing. One that is no JSON is rejected while the
/// session streams and passed over while it drains. No frame changes the phase.
pub proof fn law_frames_answered(
    s: &mut ScribeSession,
    frame: WsFrame,
    action: ScribeAction,
)
    requires
        call_ensures(ScribeSession::step, (s, ScribeInput::Frame(frame)), action),
        !(old(s).spec_phase() is Ended),
    ensures
        match frame {
            WsFrame::Text(message) => match crate::json::parsed_json(message@) {
                Some(value) => answers_message(action, old(s).spec_track(), value, message@),
                None => if old(s).spec_phase() is Streaming {
                    action is Reject
                } else {
                    action is Nothing
                },
            },
            _ => action is Nothing,
        },
        final(s).spec_phase() == old(s).spec_phase(),
{
    reveal_strlit("");
    assert(""@ =~= Seq::empty());
    let phase = old(s).spec_phase();
    let track = old(s).spec_track();
    assert(action@ == action_view(phase, track, ScribeInput::Frame(frame)));
    if let WsFrame::Text(message) = frame {
        if let Some(value) = crate::json::parsed_json(message@) {
            crate::text::law_trimmed_empty(text_under(value, "text"@));
        }
    }
}

/// How the other inputs move a session on: the end of the stream lets it drain and
/// then ends it; an error of the connection ends it, and fails it only while it
/// streams; and a session that has ended does nothing more. The track stays.
pub proof fn law_session_moves(s: &mut ScribeSession, input: ScribeInput, action: ScribeAction)
    requires
        call_ensures(ScribeSession::step, (s, input), action),
    ensures
        final(s).spec_track() == old(s).spec_track(),
        input is StreamEnded ==> action is Nothing && (old(s).spec_phase() is Streaming
            ==> final(s).spec_phase() is Draining) && (old(s).spec_phase() is Draining
            ==> final(s).spec_phase() is Ended),
        input is StreamError ==> final(s).spec_phase() is Ended && (old(s).spec_phase() is Streaming
            <==> action is Fail),
        !(input is StreamError) ==> !(action is Fail),
        old(s).spec_phase() is Draining && (input is Samples || input is AudioClosed)
            ==> action is Nothing && final(s).spec_phase() is Draining,
        old(s).spec_phase() is Ended ==> action is Nothing && final(s).spec_phase() is Ended,
{
    assert(action@ == action_view(old(s).spec_phase(), old(s).spec_track(), input));
}

/// One step in the history of a session.
pub struct ScribeStep {
    pub input: ScribeInput,
    pub action: ScribeAction,
}

/// Where a session stands after its first `n` steps.
pub open spec fn phase_at(steps: Seq<ScribeStep>, n: int) -> Phase
    decreases n,
{
    if n <= 0 {
        Phase::Streaming
    } else {
        phase_after(phase_at(steps, n - 1), steps[n - 1].input)
    }
}

/// Whether step `i` is answered as `ScribeSession::step` answers it.
pub open spec fn is_step(track: TrackId, steps: Seq<ScribeStep>, i: int) -> bool {
    &&& steps[i].action@ == action_view(phase_at(steps, i), track, steps[i].input)
    &&& sends_read_back(phase_at(steps, i), steps[i].input, steps[i].action)
}

/// Whether the steps are a history of a session from its start on.
pub open spec fn is_scribe_history(track: TrackId, steps: Seq<ScribeStep>) -> bool {
    forall|i: int| 0 <= i < steps.len() ==> #[trigger] is_step(track, steps, i)
}

/// Every step of a session continues a history.
pub proof fn law_step_continues(s: &mut ScribeSession, input: ScribeInput, action: ScribeAction)
    requires
        call_ensures(ScribeSession::step, (s, input), action),
    ensures
        action@ == action_view(old(s).spec_phase(), old(s).spec_track(), input),
        sends_read_back(old(s).spec_phase(), input, action),
        final(s).spec_phase() == phase_after(old(s).spec_phase(), input),
{
}

/// Whether an input ends the streaming.
pub open spec fn ends_streaming(input: ScribeInput) -> bool {
    input is AudioClosed || input is StreamEnded || input is StreamError
}

/// Whether nothing in the first `n` steps ended the streaming.
pub open spec fn still_streams(steps: Seq<ScribeStep>, n: int) -> bool {
    forall|j: int| 0 <= j < n ==> !ends_streaming((#[trigger] steps[j]).input)
}

/// The samples that came in while the session streamed, in the first `n` steps.
pub open spec fn all_recorded(steps: Seq<ScribeStep>, n: int) -> Seq<i16>
    decreases n,
{
    if n <= 0 {
        Seq::empty()
    } else {
        match steps[n - 1].input {
            ScribeInput::Samples(samples) => if still_streams(steps, n - 1) {
                all_recorded(steps, n - 1) + samples@
            } else {
                all_recorded(steps, n - 1)
            },
            _ => all_recorded(steps, n - 1),
        }
    }
}

/// The samples that a message of the session holds, read from its JSON text.
pub open spec fn message_samples(message: Seq<char>) -> Seq<i16> {
    match crate::json::parsed_json(message) {
        Some(value) => match crate::pcm::decoded_pcm(text_under(value, "audio_base_64"@)) {
            Some(samples) => samples,
            None => Seq::empty(),
        },
        None => Seq::empty(),
    }
}

/// The samples in all messages sent in the first `n` steps.
pub open spec fn all_sent(steps: Seq<ScribeStep>, n: int) -> Seq<i16>
    decreases n,
{
    if n <= 0 {
        Seq::empty()
    } else {
        match steps[n - 1].action {
            ScribeAction::Send { message, .. } => all_sent(steps, n - 1) + message_samples(message@),
            _ => all_sent(steps, n - 1),
        }
    }
}

proof fn lemma_message_samples(message: Seq<char>, samples: Seq<i16>, commit: bool)
    requires
        super::message::reads_as_chunk(message, samples, commit),
    ensures
        message_samples(message) == samples,
{
    lemma_tells_chunk(message, samples, commit);
    let value = crate::json::parsed_json(message)->0;
    let data = text_under(value, "audio_base_64"@);
    if samples.len() > 0 {
        crate::pcm::law_text_holds(data, samples);
    } else {
        assert(message_samples(message) =~= samples);
    }
}

proof fn lemma_streams(steps: Seq<ScribeStep>, n: int)
    requires
        0 <= n <= steps.len(),
    ensures
        phase_at(steps, n) is Streaming <==> still_streams(steps, n),
    decreases n,
{
    if n > 0 {
        lemma_streams(steps, n - 1);
        assert(still_streams(steps, n) <==> still_streams(steps, n - 1) && !ends_streaming(
            steps[n - 1].input,
        )) by {
            if still_streams(steps, n) {
                assert(!ends_streaming(steps[n - 1].input));
            }
        }
    }
}

/// What goes out is what came in: the samples read back from the messages that a
/// session sends, one behind the other, are the samples that came in while it
/// streamed. None is lost, changed, doubled or moved.
pub proof fn law_recorded_is_sent(track: TrackId, steps: Seq<ScribeStep>, n: int)
    requires
        is_scribe_history(track, steps),
        0 <= n <= steps.len(),
    ensures
        all_sent(steps, n) == all_recorded(steps, n),
    decreases n,
{
    if n > 0 {
        law_recorded_is_sent(track, steps, n - 1);
        lemma_streams(steps, n - 1);
        assert(is_step(track, steps, n - 1));
        let step = steps[n - 1];
        if phase_at(steps, n - 1) is Streaming {
            if let ScribeInput::Samples(samples) = step.input {
                lemma_message_samples(step.action->Send_message@, samples@, false);
            }
            if step.input is AudioClosed {
                lemma_message_samples(step.action->Send_message@, Seq::empty(), true);
                assert(all_sent(steps, n) =~= all_sent(steps, n - 1));
            }
        }
    }
}

} // verus!
