//! What holds of a whole session, whatever happens in it.
use super::session::behind_chunks;
use super::session::heard;
use super::session::next_view;
use super::session::parts_audio;
use super::session::response_events;
use super::session::rest_chunk;
use super::session::sent_chunks;
use super::session::session_after;
use super::session::session_audio;
use super::session::session_events;
use super::session::spoken;
use super::session::whole_chunks;
use super::session::SessionInput;
use super::session::SessionView;
use super::INPUT_CHUNK_SAMPLES;
use crate::events::EventView;
use vstd::prelude::*;

verus! {

/// The samples of the chunks, one chunk behind the other.
pub open spec fn joined(chunks: Seq<Seq<i16>>) -> Seq<i16>
    decreases chunks.len(),
{
    if chunks.len() == 0 {
        Seq::empty()
    } else {
        joined(chunks.drop_last()) + chunks.last()
    }
}

/// What a session remembers after a run of inputs.
pub open spec fn run(start: SessionView, inputs: Seq<SessionInput>) -> SessionView
    decreases inputs.len(),
{
    if inputs.len() == 0 {
        start
    } else {
        session_after(run(start, inputs.drop_last()), inputs.last())
    }
}

/// The chunks that are sent over a run of inputs.
pub open spec fn run_sends(start: SessionView, inputs: Seq<SessionInput>) -> Seq<Seq<i16>>
    decreases inputs.len(),
{
    if inputs.len() == 0 {
        Seq::empty()
    } else {
        run_sends(start, inputs.drop_last()) + sent_chunks(
            run(start, inputs.drop_last()).buffer,
            inputs.last(),
        )
    }
}

/// The samples that come in over a run of inputs.
pub open spec fn recorded(inputs: Seq<SessionInput>) -> Seq<i16>
    decreases inputs.len(),
{
    if inputs.len() == 0 {
        Seq::empty()
    } else {
        match inputs.last() {
            SessionInput::Samples(samples) => recorded(inputs.drop_last()) + samples@,
            _ => recorded(inputs.drop_last()),
        }
    }
}

/// The last input transcript that says anything over a run of inputs.
pub open spec fn last_heard(inputs: Seq<SessionInput>) -> Option<Seq<char>>
    decreases inputs.len(),
{
    if inputs.len() == 0 {
        None
    } else {
        let earlier = last_heard(inputs.drop_last());
        match inputs.last() {
            SessionInput::Response(response) => match (response.error, response.server_content) {
                (None, Some(content)) => match spoken(content.input_transcription) {
                    Some(text) => Some(text),
                    None => earlier,
                },
                _ => earlier,
            },
            _ => earlier,
        }
    }
}

proof fn lemma_joined_concat(a: Seq<Seq<i16>>, b: Seq<Seq<i16>>)
    ensures
        joined(a + b) == joined(a) + joined(b),
    decreases b.len(),
{
    if b.len() == 0 {
        assert(a + b == a);
    } else {
        assert((a + b).drop_last() == a + b.drop_last());
        lemma_joined_concat(a, b.drop_last());
        assert(joined(a + b) =~= joined(a) + joined(b));
    }
}

proof fn lemma_joined_one(chunk: Seq<i16>)
    ensures
        joined(seq![chunk]) == chunk,
{
    reveal_with_fuel(joined, 2);
    assert(seq![chunk].drop_last() =~= Seq::empty());
    assert(joined(seq![chunk]) =~= chunk);
}

/// Cutting samples into chunks loses nothing and keeps their order, leaves less
/// than a chunk behind, and cuts chunks of one size.
pub proof fn law_chunks(samples: Seq<i16>)
    ensures
        joined(whole_chunks(samples)) + behind_chunks(samples) == samples,
        behind_chunks(samples).len() < INPUT_CHUNK_SAMPLES,
        forall|i: int|
            0 <= i < whole_chunks(samples).len() ==> (#[trigger] whole_chunks(samples)[i]).len()
                == INPUT_CHUNK_SAMPLES,
    decreases samples.len(),
{
    let size = INPUT_CHUNK_SAMPLES as int;
    if samples.len() < size {
        assert(joined(whole_chunks(samples)) + behind_chunks(samples) =~= samples);
    } else {
        let first = samples.take(size);
        let rest = samples.skip(size);
        law_chunks(rest);
        lemma_joined_concat(seq![first], whole_chunks(rest));
        lemma_joined_one(first);
        assert(joined(whole_chunks(samples)) + behind_chunks(samples) =~= first + (joined(
            whole_chunks(rest),
        ) + behind_chunks(rest)));
        assert(first + rest =~= samples);
        assert forall|i: int| 0 <= i < whole_chunks(samples).len() implies (
        #[trigger] whole_chunks(samples)[i]).len() == INPUT_CHUNK_SAMPLES by {
            if i > 0 {
                assert(whole_chunks(samples)[i] == whole_chunks(rest)[i - 1]);
            }
        }
    }
}

/// New samples are sent in whole chunks only; a flush or the end of the audio
/// sends less than a chunk, and never an empty one.
pub proof fn law_chunk_sizes(buffer: Seq<i16>, input: SessionInput)
    requires
        buffer.len() < INPUT_CHUNK_SAMPLES,
    ensures
        forall|i: int|
            0 <= i < sent_chunks(buffer, input).len() ==> {
                let len = (#[trigger] sent_chunks(buffer, input)[i]).len();
                if input is Samples {
                    len == INPUT_CHUNK_SAMPLES
                } else {
                    0 < len < INPUT_CHUNK_SAMPLES
                }
            },
{
    if let SessionInput::Samples(samples) = input {
        law_chunks(buffer + samples@);
    }
}

/// No sample is lost, doubled or moved: what was sent over a run, followed by
/// what is still kept, is what was kept at the start, followed by all that came
/// in.
pub proof fn law_samples_conserved(start: SessionView, inputs: Seq<SessionInput>)
    ensures
        joined(run_sends(start, inputs)) + run(start, inputs).buffer == start.buffer + recorded(
            inputs,
        ),
    decreases inputs.len(),
{
    if inputs.len() == 0 {
        assert(joined(run_sends(start, inputs)) + start.buffer =~= start.buffer + recorded(inputs));
    } else {
        let before = inputs.drop_last();
        let kept = run(start, before).buffer;
        let now = sent_chunks(kept, inputs.last());
        law_samples_conserved(start, before);
        lemma_joined_concat(run_sends(start, before), now);
        match inputs.last() {
            SessionInput::Samples(samples) => {
                law_chunks(kept + samples@);
            },
            SessionInput::AudioClosed | SessionInput::FlushTick => {
                if kept.len() > 0 {
                    lemma_joined_one(kept);
                }
                assert(joined(rest_chunk(kept)) =~= kept);
            },
            _ => {},
        }
        let new = match inputs.last() {
            SessionInput::Samples(samples) => samples@,
            _ => Seq::<i16>::empty(),
        };
        let sent = joined(run_sends(start, before));
        assert(joined(now) + run(start, inputs).buffer =~= kept + new);
        assert(joined(run_sends(start, inputs)) + run(start, inputs).buffer =~= sent + (joined(now)
            + run(start, inputs).buffer));
        assert(sent + (kept + new) =~= (sent + kept) + new);
        assert((start.buffer + recorded(before)) + new =~= start.buffer + recorded(inputs));
    }
}

/// When the audio has closed, everything that was recorded has been sent.
pub proof fn law_close_sends_everything(start: SessionView, inputs: Seq<SessionInput>)
    requires
        start.buffer.len() == 0,
        inputs.len() > 0,
        inputs.last() is AudioClosed,
    ensures
        joined(run_sends(start, inputs)) == recorded(inputs),
{
    law_samples_conserved(start, inputs);
    assert(joined(run_sends(start, inputs)) + run(start, inputs).buffer =~= joined(
        run_sends(start, inputs),
    ));
    assert(start.buffer + recorded(inputs) =~= recorded(inputs));
}

/// Less than a chunk is ever kept back.
pub proof fn law_buffer_bounded(start: SessionView, inputs: Seq<SessionInput>)
    requires
        start.buffer.len() < INPUT_CHUNK_SAMPLES,
    ensures
        run(start, inputs).buffer.len() < INPUT_CHUNK_SAMPLES,
    decreases inputs.len(),
{
    if inputs.len() > 0 {
        law_buffer_bounded(start, inputs.drop_last());
        if let SessionInput::Samples(samples) = inputs.last() {
            law_chunks(run(start, inputs.drop_last()).buffer + samples@);
        }
    }
}

/// A session that started fresh remembers the last input transcript that said
/// anything, and nothing where there was none.
pub proof fn law_remembers_last_heard(start: SessionView, inputs: Seq<SessionInput>)
    requires
        start.last_input_text.len() == 0,
    ensures
        match last_heard(inputs) {
            Some(text) => run(start, inputs).last_input_text == text && text.len() > 0,
            None => run(start, inputs).last_input_text.len() == 0,
        },
        run(start, inputs).track == start.track,
    decreases inputs.len(),
{
    if inputs.len() > 0 {
        law_remembers_last_heard(start, inputs.drop_last());
    }
}

/// A translation is reported beside the last input transcript that said
/// anything, its own response's first, and beside `...` where there was none.
pub proof fn law_translation_source(start: SessionView, inputs: Seq<SessionInput>, i: int)
    requires
        start.last_input_text.len() == 0,
        inputs.len() > 0,
        0 <= i < session_events(run(start, inputs.drop_last()), inputs.last()).len(),
    ensures
        session_events(run(start, inputs.drop_last()), inputs.last())[i] matches
            EventView::Translated { source_text, .. } ==> source_text == match last_heard(inputs) {
            Some(text) => text,
            None => "..."@,
        },
{
    let before = run(start, inputs.drop_last());
    law_remembers_last_heard(start, inputs.drop_last());
    law_remembers_last_heard(start, inputs);
    match inputs.last() {
        SessionInput::Response(response) => {
            if response.error is None {
                assert(run(start, inputs).last_input_text == heard(
                    before.last_input_text,
                    response,
                ));
                assert(session_events(before, inputs.last()) == response_events(
                    before.track,
                    before.last_input_text,
                    response,
                ));
            }
        },
        _ => {},
    }
}

/// No transcript that is reported is blank or has white space at its ends.
pub proof fn law_reported_text_trimmed(before: SessionView, input: SessionInput, i: int)
    requires
        0 <= i < session_events(before, input).len(),
    ensures
        match session_events(before, input)[i] {
            EventView::Partial { text, .. } => text.len() > 0 && text == crate::text::trimmed(text),
            EventView::Translated { translated, .. } => translated.len() > 0 && translated
                == crate::text::trimmed(translated),
            EventView::Flushed { .. } => false,
            EventView::Error { .. } => true,
        },
{
    if let SessionInput::Response(response) = input {
        if let Some(content) = response.server_content {
            if let Some(t) = content.input_transcription {
                crate::text::law_trim_idempotent(t.text@);
            }
            if let Some(t) = content.output_transcription {
                crate::text::law_trim_idempotent(t.text@);
            }
        }
    }
}

/// An error of the server is answered by one error event on the session's
/// track, without audio and without a change of what is remembered, and ends
/// the session.
pub proof fn law_server_error_ends_session(before: SessionView, input: SessionInput)
    requires
        input matches SessionInput::Response(response) && response.error is Some,
    ensures
        session_events(before, input).len() == 1,
        session_events(before, input)[0] matches EventView::Error { track, .. } && track
            == before.track,
        session_audio(input).len() == 0,
        session_after(before, input) == before,
        next_view(input) is Finish,
{
}

/// The session goes on after samples, a flush, a message that cannot be read
/// and a message without an error.
pub proof fn law_session_goes_on(input: SessionInput)
    ensures
        next_view(input) is Finish <==> {
            ||| input is AudioClosed
            ||| input is StreamEnded
            ||| input matches SessionInput::Frame(frame) && crate::frame::frame_text_view(
                frame,
            ) is Close
            ||| input matches SessionInput::Response(response) && response.error is Some
        },
        next_view(input) is Fail <==> input is StreamError,
{
}

/// The events that are reported over a run of inputs.
pub open spec fn run_events(start: SessionView, inputs: Seq<SessionInput>) -> Seq<EventView>
    decreases inputs.len(),
{
    if inputs.len() == 0 {
        Seq::empty()
    } else {
        run_events(start, inputs.drop_last()) + session_events(
            run(start, inputs.drop_last()),
            inputs.last(),
        )
    }
}

/// The audio that is played over a run of inputs.
pub open spec fn run_audio(inputs: Seq<SessionInput>) -> Seq<Seq<i16>>
    decreases inputs.len(),
{
    if inputs.len() == 0 {
        Seq::empty()
    } else {
        run_audio(inputs.drop_last()) + session_audio(inputs.last())
    }
}

/// Every event of a session is on the session's own track.
pub proof fn law_events_on_track(start: SessionView, inputs: Seq<SessionInput>)
    ensures
        run(start, inputs).track == start.track,
        forall|i: int|
            0 <= i < run_events(start, inputs).len() ==> crate::events::event_track(
                #[trigger] run_events(start, inputs)[i],
            ) == start.track,
    decreases inputs.len(),
{
    if inputs.len() > 0 {
        let before = inputs.drop_last();
        law_events_on_track(start, before);
        let earlier = run_events(start, before);
        let now = session_events(run(start, before), inputs.last());
        assert forall|i: int| 0 <= i < run_events(start, inputs).len() implies
            crate::events::event_track(#[trigger] run_events(start, inputs)[i]) == start.track by {
            if i < earlier.len() {
                assert(run_events(start, inputs)[i] == earlier[i]);
            } else {
                assert(run_events(start, inputs)[i] == now[i - earlier.len()]);
            }
        }
    }
}

proof fn lemma_parts_audio_nonempty(parts: Seq<super::wire::Part>)
    ensures
        forall|i: int|
            0 <= i < parts_audio(parts).len() ==> (#[trigger] parts_audio(parts)[i]).len() > 0,
    decreases parts.len(),
{
    if parts.len() > 0 {
        lemma_parts_audio_nonempty(parts.drop_last());
        let earlier = parts_audio(parts.drop_last());
        assert forall|i: int| 0 <= i < parts_audio(parts).len() implies (
        #[trigger] parts_audio(parts)[i]).len() > 0 by {
            if i < earlier.len() {
                assert(parts_audio(parts)[i] == earlier[i]);
            }
        }
    }
}

/// Nothing empty is ever played.
pub proof fn law_audio_nonempty(inputs: Seq<SessionInput>)
    ensures
        forall|i: int|
            0 <= i < run_audio(inputs).len() ==> (#[trigger] run_audio(inputs)[i]).len() > 0,
    decreases inputs.len(),
{
    if inputs.len() > 0 {
        law_audio_nonempty(inputs.drop_last());
        if let SessionInput::Response(response) = inputs.last() {
            if let Some(content) = response.server_content {
                if let Some(turn) = content.model_turn {
                    lemma_parts_audio_nonempty(turn.parts@);
                }
            }
        }
        let earlier = run_audio(inputs.drop_last());
        let now = session_audio(inputs.last());
        assert forall|i: int| 0 <= i < run_audio(inputs).len() implies (
        #[trigger] run_audio(inputs)[i]).len() > 0 by {
            if i < earlier.len() {
                assert(run_audio(inputs)[i] == earlier[i]);
            } else {
                assert(run_audio(inputs)[i] == now[i - earlier.len()]);
            }
        }
    }
}

} // verus!
