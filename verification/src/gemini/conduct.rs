//! What a session does, told from what it is given and what it gives out: each
//! law speaks of the outputs of `GeminiSession::step` themselves.
use super::laws::joined;
use super::laws::law_chunks;
use super::session::answers;
use super::session::carry_all;
use super::session::kept_samples;
use super::session::parts_audio;
use super::session::rest_chunk;
use super::session::sent_chunks;
use super::session::session_after;
use super::session::GeminiSession;
use super::session::SessionInput;
use super::session::SessionNext;
use super::session::SessionOutput;
use super::session::SessionView;
use super::wire::GeminiResponse;
use super::wire::Part;
use super::wire::RealtimeInputMessage;
use super::wire::Transcription;
use super::INPUT_CHUNK_SAMPLES;
use crate::events::PipelineEvent;
use crate::frame::WsFrame;
use crate::text::blank;
use crate::text::trimmed;
use vstd::prelude::*;

verus! {

/// Whether a part of a model turn holds audio, and it is these samples: its MIME
/// type begins with `audio/` and its data is the base64 text of their bytes.
pub open spec fn plays(part: Part, samples: Seq<i16>) -> bool {
    &&& part.inline_data matches Some(data)
    &&& "audio/"@.is_prefix_of(data.mime_type@)
    &&& crate::pcm::text_holds(data.data@, samples)
}

/// Whether `audio` is the audio of the parts at the places `at`: one item for
/// each place, in order, and no part that plays is left out.
pub open spec fn plays_at(parts: Seq<Part>, audio: Seq<Seq<i16>>, at: Seq<int>) -> bool {
    &&& at.len() == audio.len()
    &&& forall|k: int|
        0 <= k < at.len() ==> 0 <= #[trigger] at[k] < parts.len() && plays(parts[at[k]], audio[k])
    &&& forall|j: int, k: int| 0 <= j < k < at.len() ==> #[trigger] at[j] < #[trigger] at[k]
    &&& forall|i: int, samples: Seq<i16>|
        0 <= i < parts.len() && #[trigger] plays(parts[i], samples) ==> at.contains(i)
}

proof fn lemma_part_plays(part: Part)
    ensures
        match super::session::part_samples(part) {
            Some(samples) => plays(part, samples),
            None => forall|samples: Seq<i16>| !plays(part, samples),
        },
{
    if let Some(data) = part.inline_data {
        match super::session::part_samples(part) {
            Some(samples) => {
                crate::pcm::law_text_holds(data.data@, samples);
            },
            None => {
                assert forall|samples: Seq<i16>| !plays(part, samples) by {
                    crate::pcm::law_text_holds(data.data@, samples);
                }
            },
        }
    }
}

proof fn lemma_parts_played(parts: Seq<Part>) -> (at: Seq<int>)
    ensures
        plays_at(parts, parts_audio(parts), at),
    decreases parts.len(),
{
    if parts.len() == 0 {
        Seq::empty()
    } else {
        let before = parts.drop_last();
        let last = parts.len() - 1;
        let earlier = lemma_parts_played(before);
        lemma_part_plays(parts.last());
        let at = match super::session::part_samples(parts.last()) {
            Some(_) => earlier.push(last),
            None => earlier,
        };
        let audio = parts_audio(parts);
        assert forall|k: int| 0 <= k < at.len() implies 0 <= #[trigger] at[k] < parts.len()
            && plays(parts[at[k]], audio[k]) by {
            if k < earlier.len() {
                assert(at[k] == earlier[k]);
                assert(before[earlier[k]] == parts[earlier[k]]);
            }
        }
        assert forall|i: int, samples: Seq<i16>|
            0 <= i < parts.len() && #[trigger] plays(parts[i], samples) implies at.contains(i) by {
            if i < last {
                assert(plays(before[i], samples));
                assert(earlier.contains(i));
                let k = choose|k: int| 0 <= k < earlier.len() && earlier[k] == i;
                assert(at[k] == i);
            } else {
                assert(at[at.len() - 1] == last);
            }
        }
        at
    }
}

/// The samples of each item of audio.
pub open spec fn items(audio: Seq<Vec<i16>>) -> Seq<Seq<i16>> {
    Seq::new(audio.len(), |i: int| audio[i]@)
}

/// The samples of each item of audio that is played.
pub open spec fn played(output: SessionOutput) -> Seq<Seq<i16>> {
    items(output.audio@)
}

/// A response without an error plays the audio of its model turn: the samples of
/// every part that holds audio, in the order of the parts, and nothing else.
/// Transcripts in the same response make no difference. A response with an error
/// or without a model turn, and any other input, plays nothing.
pub proof fn law_audio_played(s: &mut GeminiSession, input: SessionInput, output: SessionOutput)
    requires
        call_ensures(GeminiSession::step, (s, input), output),
    ensures
        input matches SessionInput::Response(response) ==> (response.error is None
            ==> (response.server_content matches Some(content) ==> (
        content.model_turn matches Some(turn) ==> exists|at: Seq<int>| #[trigger]
            plays_at(turn.parts@, played(output), at)))),
        (match input {
            SessionInput::Response(response) => response.error is Some
                || response.server_content is None || response.server_content->0.model_turn is None,
            _ => true,
        }) ==> output.audio@.len() == 0,
{
    assert(super::session::audio_view(output.audio@) =~= played(output));
    if let SessionInput::Response(response) = input {
        if let Some(content) = response.server_content {
            if let Some(turn) = content.model_turn {
                if response.error is None {
                    let at = lemma_parts_played(turn.parts@);
                    assert(plays_at(turn.parts@, played(output), at));
                }
            }
        }
    }
}

/// The model turn of a response without an error.
pub open spec fn turn_parts(response: GeminiResponse) -> Option<Seq<Part>> {
    match (response.error, response.server_content) {
        (None, Some(content)) => match content.model_turn {
            Some(turn) => Some(turn.parts@),
            None => None,
        },
        _ => None,
    }
}

/// Responses with the same model turn play the same audio, whatever session they
/// come to and whatever else they hold.
pub proof fn law_turn_alone_plays(
    s: &mut GeminiSession,
    t: &mut GeminiSession,
    a: GeminiResponse,
    b: GeminiResponse,
    from_a: SessionOutput,
    from_b: SessionOutput,
)
    requires
        call_ensures(GeminiSession::step, (s, SessionInput::Response(a)), from_a),
        call_ensures(GeminiSession::step, (t, SessionInput::Response(b)), from_b),
        turn_parts(a) == turn_parts(b),
    ensures
        played(from_a) == played(from_b),
{
    assert(super::session::audio_view(from_a.audio@) =~= played(from_a));
    assert(super::session::audio_view(from_b.audio@) =~= played(from_b));
}

/// Whether a transcript says anything.
pub open spec fn says(transcript: Option<Transcription>) -> bool {
    transcript matches Some(t) && !blank(t.text@)
}

/// Whether `event` is the report of an input transcript.
pub open spec fn reports_heard(
    event: PipelineEvent,
    on: crate::events::TrackId,
    heard: Transcription,
) -> bool {
    event matches PipelineEvent::Partial { track, text } && track == on && text@ == trimmed(
        heard.text@,
    )
}

/// Whether `event` is the report of an output transcript with this source.
pub open spec fn reports_said(
    event: PipelineEvent,
    on: crate::events::TrackId,
    said: Transcription,
    source: Seq<char>,
) -> bool {
    event matches PipelineEvent::Translated { track, source_text, translated } && track == on
        && translated@ == trimmed(said.text@) && source_text@ == source
}

proof fn lemma_spoken(transcript: Option<Transcription>)
    ensures
        super::session::spoken(transcript) is Some <==> says(transcript),
        says(transcript) ==> super::session::spoken(transcript) == Some(
            trimmed(transcript->0.text@),
        ),
{
    if let Some(t) = transcript {
        crate::text::law_trimmed_empty(t.text@);
    }
}

/// A response without an error is reported by its transcripts: first the input
/// transcript, then the output transcript, each trimmed and on the session's
/// track, and nothing else. One that is blank is not reported. The source of a
/// translation is the input transcript of the same response; where that says
/// nothing, what the session heard last; and `...` where it heard nothing.
/// What the session heard before does not keep anything from being reported.
pub proof fn law_transcripts_reported(
    s: &mut GeminiSession,
    response: GeminiResponse,
    output: SessionOutput,
)
    requires
        call_ensures(GeminiSession::step, (s, SessionInput::Response(response)), output),
        response.error is None,
    ensures
        response.server_content is None ==> output.events@.len() == 0
            && final(s)@.last_input_text == old(s)@.last_input_text,
        response.server_content matches Some(content) ==> {
            let heard = says(content.input_transcription);
            let said = says(content.output_transcription);
            let known = if heard {
                trimmed(content.input_transcription->0.text@)
            } else {
                old(s)@.last_input_text
            };
            &&& output.events@.len() == (if heard {
                1int
            } else {
                0
            }) + (if said {
                1int
            } else {
                0
            })
            &&& heard ==> reports_heard(
                output.events@[0],
                old(s)@.track,
                content.input_transcription->0,
            )
            &&& said ==> reports_said(
                output.events@.last(),
                old(s)@.track,
                content.output_transcription->0,
                if known.len() == 0 {
                    "..."@
                } else {
                    known
                },
            )
            &&& final(s)@.last_input_text == known
        },
        final(s)@.track == old(s)@.track,
{
    let views = crate::events::events_view(output.events@);
    assert(views.len() == output.events@.len());
    assert forall|i: int| 0 <= i < views.len() implies #[trigger] views[i] == output.events@[i]@ by {
    }
    if let Some(content) = response.server_content {
        lemma_spoken(content.input_transcription);
        lemma_spoken(content.output_transcription);
        if views.len() > 0 {
            assert(views[0] == output.events@[0]@);
            assert(views.last() == output.events@.last()@);
        }
    }
}

/// The notation of an optional error code.
pub open spec fn tells_code(text: Seq<char>, code: Option<i32>) -> bool {
    match code {
        None => text == "None"@,
        Some(n) => exists|number: Seq<char>| #[trigger]
            crate::decimal::writes_signed(number, n as int) && text == "Some("@ + number + ")"@,
    }
}

/// An error of the server is reported by one event on the session's track, which
/// tells the message in full and the code. It ends the session, plays and sends
/// nothing, and leaves what was heard as it is.
pub proof fn law_server_error_reported(
    s: &mut GeminiSession,
    response: GeminiResponse,
    output: SessionOutput,
)
    requires
        call_ensures(GeminiSession::step, (s, SessionInput::Response(response)), output),
        response.error is Some,
    ensures
        output.events@.len() == 1,
        output.events@[0] matches PipelineEvent::Error { track, error } && track == old(s)@.track
            && exists|code: Seq<char>|
            tells_code(code, response.error->0.code) && error@ == #[trigger] (
            "Gemini API error: "@ + response.error->0.message@ + " (code "@ + code + ")"@),
        output.audio@.len() == 0,
        output.sends@.len() == 0,
        output.next is Finish,
        final(s)@ == old(s)@,
{
    let views = crate::events::events_view(output.events@);
    assert(views.len() == 1);
    assert(views[0] == output.events@[0]@);
    let code = super::session::code_text(response.error->0.code);
    if let Some(n) = response.error->0.code {
        crate::decimal::law_signed_writes(n as int);
    }
    assert(tells_code(code, response.error->0.code));
    assert(super::session::audio_view(output.audio@).len() == output.audio@.len());
}

/// Only responses are reported.
pub proof fn law_only_responses_reported(
    s: &mut GeminiSession,
    input: SessionInput,
    output: SessionOutput,
)
    requires
        call_ensures(GeminiSession::step, (s, input), output),
        !(input is Response),
    ensures
        output.events@.len() == 0,
        final(s)@.last_input_text == old(s)@.last_input_text,
        final(s)@.track == old(s)@.track,
{
    assert(crate::events::events_view(output.events@).len() == output.events@.len());
}

/// How a session goes on. A text frame, or a binary frame of UTF-8 text, is to be
/// read as it is; the close of the server, of the audio or of the stream and an
/// error of the server end the session; an error of the connection fails it; and
/// anything else lets it go on.
pub proof fn law_session_next(s: &mut GeminiSession, input: SessionInput, output: SessionOutput)
    requires
        call_ensures(GeminiSession::step, (s, input), output),
    ensures
        match input {
            SessionInput::Frame(WsFrame::Text(text)) => output.next matches SessionNext::Read(read)
                && read@ == text@,
            SessionInput::Frame(WsFrame::Binary(bytes)) => if vstd::utf8::valid_utf8(bytes@) {
                output.next matches SessionNext::Read(read) && read@ == vstd::utf8::decode_utf8(
                    bytes@,
                )
            } else {
                output.next is Continue
            },
            SessionInput::Frame(WsFrame::Ping) => output.next is Continue,
            SessionInput::Frame(WsFrame::Pong) => output.next is Continue,
            SessionInput::Frame(WsFrame::Raw) => output.next is Continue,
            SessionInput::Frame(WsFrame::Close) => output.next is Finish,
            SessionInput::Response(response) => if response.error is Some {
                output.next is Finish
            } else {
                output.next is Continue
            },
            SessionInput::AudioClosed => output.next is Finish,
            SessionInput::StreamEnded => output.next is Finish,
            SessionInput::StreamError => output.next is Fail,
            SessionInput::Samples(_) => output.next is Continue,
            SessionInput::FlushTick => output.next is Continue,
            SessionInput::BadResponse => output.next is Continue,
        },
        output.sends_required <==> !(input is AudioClosed),
{
}

/// The samples that a message carries.
pub open spec fn message_samples(message: RealtimeInputMessage) -> Seq<i16> {
    match crate::pcm::base64_bytes(message.realtime_input.audio.data@) {
        Some(bytes) => crate::pcm::pcm_samples(bytes),
        None => Seq::empty(),
    }
}

/// The samples that messages carry, one message behind the other.
pub open spec fn carried(messages: Seq<RealtimeInputMessage>) -> Seq<i16>
    decreases messages.len(),
{
    if messages.len() == 0 {
        Seq::empty()
    } else {
        carried(messages.drop_last()) + message_samples(messages.last())
    }
}

/// The samples in an input.
pub open spec fn new_samples(input: SessionInput) -> Seq<i16> {
    match input {
        SessionInput::Samples(samples) => samples@,
        _ => Seq::empty(),
    }
}

proof fn lemma_message_samples(message: RealtimeInputMessage, samples: Seq<i16>)
    requires
        super::wire::carries(message, samples),
    ensures
        message_samples(message) == samples,
        samples.len() > 0 ==> crate::pcm::text_holds(message.realtime_input.audio.data@, samples),
{
    crate::pcm::law_pcm_reads_back(samples);
    crate::pcm::law_base64_reads_back(crate::pcm::pcm_bytes(samples));
    crate::pcm::law_text_holds(message.realtime_input.audio.data@, samples);
}

proof fn lemma_carried(messages: Seq<RealtimeInputMessage>, chunks: Seq<Seq<i16>>)
    requires
        carry_all(messages, chunks),
    ensures
        carried(messages) == joined(chunks),
    decreases messages.len(),
{
    if messages.len() > 0 {
        let m = messages.drop_last();
        let c = chunks.drop_last();
        assert forall|i: int| 0 <= i < c.len() implies super::wire::carries(
            #[trigger] m[i],
            c[i],
        ) by {
            assert(super::wire::carries(messages[i], chunks[i]));
        }
        lemma_carried(m, c);
        assert(super::wire::carries(messages[messages.len() - 1], chunks[chunks.len() - 1]));
        lemma_message_samples(messages.last(), chunks.last());
    }
}

proof fn lemma_step_conserves(buffer: Seq<i16>, input: SessionInput)
    ensures
        joined(sent_chunks(buffer, input)) + kept_samples(buffer, input) == buffer + new_samples(
            input,
        ),
{
    match input {
        SessionInput::Samples(samples) => {
            law_chunks(buffer + samples@);
        },
        SessionInput::AudioClosed | SessionInput::FlushTick => {
            reveal_with_fuel(joined, 2);
            if buffer.len() > 0 {
                assert(rest_chunk(buffer).drop_last() =~= Seq::empty());
            }
            assert(joined(rest_chunk(buffer)) =~= buffer);
            assert(joined(sent_chunks(buffer, input)) + kept_samples(buffer, input) =~= buffer
                + new_samples(input));
        },
        _ => {
            assert(joined(sent_chunks(buffer, input)) + kept_samples(buffer, input) =~= buffer
                + new_samples(input));
        },
    }
}

/// No sample is lost, doubled, changed or moved: what the messages of a step
/// carry, followed by what is kept, is what was kept, followed by what came in.
/// Less than a chunk is kept, and nothing after a flush or the end of the audio.
/// Each message holds its samples as base64 under the MIME type of input audio:
/// a whole chunk of new samples, or else all that was kept, in one message.
pub proof fn law_step_sends(s: &mut GeminiSession, input: SessionInput, output: SessionOutput)
    requires
        call_ensures(GeminiSession::step, (s, input), output),
        old(s)@.buffer.len() < 1600,
    ensures
        carried(output.sends@) + final(s)@.buffer == old(s)@.buffer + new_samples(input),
        final(s)@.buffer.len() < 1600,
        input is AudioClosed || input is FlushTick ==> final(s)@.buffer.len() == 0
            && output.sends@.len() <= 1,
        forall|i: int|
            0 <= i < output.sends@.len() ==> {
                let audio = (#[trigger] output.sends@[i]).realtime_input.audio;
                let samples = message_samples(output.sends@[i]);
                &&& audio.mime_type@ == "audio/pcm;rate=16000"@
                &&& crate::pcm::text_holds(audio.data@, samples)
                &&& samples.len() > 0
                &&& input is Samples ==> samples.len() == 1600
            },
        !(input is Samples || input is AudioClosed || input is FlushTick) ==> output.sends@.len()
            == 0,
{
    let buffer = old(s)@.buffer;
    let chunks = sent_chunks(buffer, input);
    lemma_step_conserves(buffer, input);
    lemma_carried(output.sends@, chunks);
    super::laws::law_chunk_sizes(buffer, input);
    if let SessionInput::Samples(samples) = input {
        law_chunks(buffer + samples@);
    }
    assert forall|i: int| 0 <= i < output.sends@.len() implies {
        let audio = (#[trigger] output.sends@[i]).realtime_input.audio;
        let samples = message_samples(output.sends@[i]);
        &&& audio.mime_type@ == "audio/pcm;rate=16000"@
        &&& crate::pcm::text_holds(audio.data@, samples)
        &&& samples.len() > 0
        &&& input is Samples ==> samples.len() == 1600
    } by {
        assert(super::wire::carries(output.sends@[i], chunks[i]));
        assert(chunks[i].len() > 0);
        lemma_message_samples(output.sends@[i], chunks[i]);
    }
}

/// One step in the history of a session.
pub struct SessionStep {
    pub input: SessionInput,
    pub output: SessionOutput,
}

/// What a session remembers after its first `n` steps.
pub open spec fn session_at(start: SessionView, steps: Seq<SessionStep>, n: int) -> SessionView
    decreases n,
{
    if n <= 0 {
        start
    } else {
        session_after(session_at(start, steps, n - 1), steps[n - 1].input)
    }
}

/// Whether step `i` is answered as `GeminiSession::step` answers it.
pub open spec fn is_step(start: SessionView, steps: Seq<SessionStep>, i: int) -> bool {
    answers(session_at(start, steps, i), steps[i].input, steps[i].output)
}

/// Whether the steps are a history of a session that was new at the start.
pub open spec fn is_session_history(start: SessionView, steps: Seq<SessionStep>) -> bool {
    &&& start.buffer.len() == 0
    &&& start.last_input_text.len() == 0
    &&& forall|i: int| 0 <= i < steps.len() ==> #[trigger] is_step(start, steps, i)
}

/// Every step of a session continues a history.
pub proof fn law_step_continues(s: &mut GeminiSession, input: SessionInput, output: SessionOutput)
    requires
        call_ensures(GeminiSession::step, (s, input), output),
    ensures
        answers(old(s)@, input, output),
        final(s)@ == session_after(old(s)@, input),
{
}

/// What is heard in an input: the trimmed text of the input transcript of a
/// response without an error, where it says anything.
pub open spec fn heard_in(input: SessionInput) -> Seq<Seq<char>> {
    match input {
        SessionInput::Response(response) => match (response.error, response.server_content) {
            (None, Some(content)) => if says(content.input_transcription) {
                seq![trimmed(content.input_transcription->0.text@)]
            } else {
                Seq::empty()
            },
            _ => Seq::empty(),
        },
        _ => Seq::empty(),
    }
}

/// What is said in an input: the trimmed text of the output transcript of a
/// response without an error, where it says anything.
pub open spec fn said_in(input: SessionInput) -> Seq<Seq<char>> {
    match input {
        SessionInput::Response(response) => match (response.error, response.server_content) {
            (None, Some(content)) => if says(content.output_transcription) {
                seq![trimmed(content.output_transcription->0.text@)]
            } else {
                Seq::empty()
            },
            _ => Seq::empty(),
        },
        _ => Seq::empty(),
    }
}

/// All that is heard in the first `n` steps.
pub open spec fn all_heard(steps: Seq<SessionStep>, n: int) -> Seq<Seq<char>>
    decreases n,
{
    if n <= 0 {
        Seq::empty()
    } else {
        all_heard(steps, n - 1) + heard_in(steps[n - 1].input)
    }
}

/// All that is said in the first `n` steps.
pub open spec fn all_said(steps: Seq<SessionStep>, n: int) -> Seq<Seq<char>>
    decreases n,
{
    if n <= 0 {
        Seq::empty()
    } else {
        all_said(steps, n - 1) + said_in(steps[n - 1].input)
    }
}

/// The texts of the partial transcripts among events.
pub open spec fn partials(events: Seq<PipelineEvent>) -> Seq<Seq<char>>
    decreases events.len(),
{
    if events.len() == 0 {
        Seq::empty()
    } else {
        match events.last() {
            PipelineEvent::Partial { text, .. } => partials(events.drop_last()).push(text@),
            _ => partials(events.drop_last()),
        }
    }
}

/// The translations among events, each with its source.
pub open spec fn translations(events: Seq<PipelineEvent>) -> Seq<(Seq<char>, Seq<char>)>
    decreases events.len(),
{
    if events.len() == 0 {
        Seq::empty()
    } else {
        match events.last() {
            PipelineEvent::Translated { source_text, translated, .. } => translations(
                events.drop_last(),
            ).push((source_text@, translated@)),
            _ => translations(events.drop_last()),
        }
    }
}

/// The partial transcripts that the first `n` steps report.
pub open spec fn all_partials(steps: Seq<SessionStep>, n: int) -> Seq<Seq<char>>
    decreases n,
{
    if n <= 0 {
        Seq::empty()
    } else {
        all_partials(steps, n - 1) + partials(steps[n - 1].output.events@)
    }
}

/// The translations that the first `n` steps report.
pub open spec fn all_translated(steps: Seq<SessionStep>, n: int) -> Seq<Seq<char>>
    decreases n,
{
    if n <= 0 {
        Seq::empty()
    } else {
        all_translated(steps, n - 1) + translations(steps[n - 1].output.events@).map_values(
            |pair: (Seq<char>, Seq<char>)| pair.1,
        )
    }
}

/// The source of the translations in step `n` of a history: what was heard last
/// up to and with this step, or `...` where nothing was heard.
pub open spec fn source_at(steps: Seq<SessionStep>, n: int) -> Seq<char> {
    let heard = all_heard(steps, n + 1);
    if heard.len() == 0 {
        "..."@
    } else {
        heard.last()
    }
}

proof fn lemma_step_texts(before: SessionView, input: SessionInput, output: SessionOutput)
    requires
        answers(before, input, output),
    ensures
        partials(output.events@) == heard_in(input),
        translations(output.events@).map_values(|pair: (Seq<char>, Seq<char>)| pair.1) == said_in(
            input,
        ),
        ({
            let known = session_after(before, input).last_input_text;
            let source = if known.len() == 0 {
                "..."@
            } else {
                known
            };
            forall|i: int|
                0 <= i < translations(output.events@).len() ==> (#[trigger] translations(
                    output.events@,
                )[i]).0 == source
        }),
        session_after(before, input).last_input_text == if heard_in(input).len() == 0 {
            before.last_input_text
        } else {
            heard_in(input).last()
        },
        forall|i: int| 0 <= i < heard_in(input).len() ==> (#[trigger] heard_in(input)[i]).len() > 0,
{
    reveal_with_fuel(partials, 3);
    reveal_with_fuel(translations, 3);
    let events = output.events@;
    let views = crate::events::events_view(events);
    assert(views.len() == events.len());
    if events.len() > 0 {
        assert(views[0] == events[0]@);
        assert(views[events.len() - 1] == events[events.len() - 1]@);
    }
    if let SessionInput::Response(response) = input {
        if let Some(content) = response.server_content {
            lemma_spoken(content.input_transcription);
            lemma_spoken(content.output_transcription);
        }
    }
    assert(events.len() <= 2);
    if events.len() == 2 {
        assert(events.drop_last().last() == events[0]);
        assert(events.drop_last().drop_last() =~= Seq::empty());
    } else if events.len() == 1 {
        assert(events.drop_last() =~= Seq::empty());
    }
    assert(partials(events) =~= heard_in(input));
    assert(translations(events).map_values(|pair: (Seq<char>, Seq<char>)| pair.1) =~= said_in(
        input,
    ));
}

proof fn lemma_known_at(start: SessionView, steps: Seq<SessionStep>, n: int)
    requires
        is_session_history(start, steps),
        0 <= n <= steps.len(),
    ensures
        session_at(start, steps, n).last_input_text == if all_heard(steps, n).len() == 0 {
            Seq::empty()
        } else {
            all_heard(steps, n).last()
        },
        all_heard(steps, n).len() > 0 ==> all_heard(steps, n).last().len() > 0,
    decreases n,
{
    if n > 0 {
        lemma_known_at(start, steps, n - 1);
        assert(is_step(start, steps, n - 1));
        lemma_step_texts(
            session_at(start, steps, n - 1),
            steps[n - 1].input,
            steps[n - 1].output,
        );
        assert(start.last_input_text =~= Seq::empty());
    } else {
        assert(start.last_input_text =~= Seq::empty());
    }
}

/// Every transcript is reported, once and in order: over a session the partial
/// transcripts reported are the input transcripts, and the translations reported
/// the output transcripts, of the responses without an error, trimmed and
/// without the blank ones.
pub proof fn law_all_transcripts_reported(start: SessionView, steps: Seq<SessionStep>, n: int)
    requires
        is_session_history(start, steps),
        0 <= n <= steps.len(),
    ensures
        all_partials(steps, n) == all_heard(steps, n),
        all_translated(steps, n) == all_said(steps, n),
    decreases n,
{
    if n > 0 {
        law_all_transcripts_reported(start, steps, n - 1);
        assert(is_step(start, steps, n - 1));
        lemma_step_texts(
            session_at(start, steps, n - 1),
            steps[n - 1].input,
            steps[n - 1].output,
        );
    }
}

/// Every translation is reported with what was heard last as its source.
pub proof fn law_translations_have_sources(
    start: SessionView,
    steps: Seq<SessionStep>,
    n: int,
    i: int,
)
    requires
        is_session_history(start, steps),
        0 <= n < steps.len(),
        0 <= i < translations(steps[n].output.events@).len(),
    ensures
        translations(steps[n].output.events@)[i].0 == source_at(steps, n),
{
    assert(is_step(start, steps, n));
    lemma_step_texts(session_at(start, steps, n), steps[n].input, steps[n].output);
    lemma_known_at(start, steps, n + 1);
}

/// The samples that came in over the first `n` steps.
pub open spec fn all_recorded(steps: Seq<SessionStep>, n: int) -> Seq<i16>
    decreases n,
{
    if n <= 0 {
        Seq::empty()
    } else {
        all_recorded(steps, n - 1) + new_samples(steps[n - 1].input)
    }
}

/// The samples that went out over the first `n` steps.
pub open spec fn all_sent(steps: Seq<SessionStep>, n: int) -> Seq<i16>
    decreases n,
{
    if n <= 0 {
        Seq::empty()
    } else {
        all_sent(steps, n - 1) + carried(steps[n - 1].output.sends@)
    }
}

proof fn lemma_sent_and_kept(start: SessionView, steps: Seq<SessionStep>, n: int)
    requires
        is_session_history(start, steps),
        0 <= n <= steps.len(),
    ensures
        all_sent(steps, n) + session_at(start, steps, n).buffer == all_recorded(steps, n),
        session_at(start, steps, n).buffer.len() < INPUT_CHUNK_SAMPLES,
    decreases n,
{
    if n > 0 {
        lemma_sent_and_kept(start, steps, n - 1);
        assert(is_step(start, steps, n - 1));
        let before = session_at(start, steps, n - 1).buffer;
        let step = steps[n - 1];
        lemma_step_conserves(before, step.input);
        lemma_carried(step.output.sends@, sent_chunks(before, step.input));
        if let SessionInput::Samples(samples) = step.input {
            law_chunks(before + samples@);
        }
        let sent = all_sent(steps, n - 1);
        let now = carried(step.output.sends@);
        let kept = session_at(start, steps, n).buffer;
        assert((sent + now) + kept =~= sent + (now + kept));
        assert(sent + (before + new_samples(step.input)) =~= (sent + before) + new_samples(
            step.input,
        ));
    } else {
        assert(all_sent(steps, n) + start.buffer =~= all_recorded(steps, n));
    }
}

/// What goes out is what came in: at every moment the samples sent are the first
/// of those recorded, less than 100 ms of them are held back, and after a flush
/// or the end of the audio none is.
pub proof fn law_recorded_is_sent(start: SessionView, steps: Seq<SessionStep>, n: int)
    requires
        is_session_history(start, steps),
        0 < n <= steps.len(),
    ensures
        all_sent(steps, n).is_prefix_of(all_recorded(steps, n)),
        all_recorded(steps, n).len() - all_sent(steps, n).len() < 1600,
        steps[n - 1].input is AudioClosed || steps[n - 1].input is FlushTick ==> all_sent(steps, n)
            == all_recorded(steps, n),
{
    lemma_sent_and_kept(start, steps, n);
    let sent = all_sent(steps, n);
    assert(all_recorded(steps, n).subrange(0, sent.len() as int) =~= sent);
    if steps[n - 1].input is AudioClosed || steps[n - 1].input is FlushTick {
        assert(all_sent(steps, n) =~= all_recorded(steps, n));
    }
}

/// The audio of a model turn is that of its parts that hold audio, in their order;
/// without a turn there is none.
pub proof fn law_turn_played(turn: &Option<super::wire::ModelTurn>, audio: Vec<Vec<i16>>)
    requires
        call_ensures(super::session::turn_samples, (turn,), audio),
    ensures
        match *turn {
            Some(t) => exists|at: Seq<int>| #[trigger]
                plays_at(t.parts@, items(audio@), at),
            None => audio@.len() == 0,
        },
{
    assert(super::session::audio_view(audio@) =~= items(audio@));
    if let Some(t) = *turn {
        let at = lemma_parts_played(t.parts@);
        assert(plays_at(t.parts@, items(audio@), at));
    }
}

/// The report of an error tells its message in full and its code.
pub proof fn law_error_told(error: &super::wire::GeminiError, text: String)
    requires
        call_ensures(super::session::server_error_message, (error,), text),
    ensures
        exists|code: Seq<char>|
            tells_code(code, error.code) && text@ == #[trigger] ("Gemini API error: "@
                + error.message@ + " (code "@ + code + ")"@),
{
    let code = super::session::code_text(error.code);
    if let Some(n) = error.code {
        crate::decimal::law_signed_writes(n as int);
    }
    assert(tells_code(code, error.code));
}

/// A chunk is 100 ms of input audio, which is also how long input waits before it
/// is flushed; the server has ten seconds for the setup; and the queues hold 512
/// pushes and 256 events.
pub proof fn law_limits()
    ensures
        INPUT_CHUNK_SAMPLES * 1000 == super::INPUT_SAMPLE_RATE * 100,
        super::FLUSH_INTERVAL_MS == 100,
        super::INPUT_SAMPLE_RATE == 16000,
        super::OUTPUT_SAMPLE_RATE == 24000,
        super::SETUP_TIMEOUT_SECS == 10,
        crate::queue::AUDIO_QUEUE_LEN == 512,
        crate::queue::EVENT_QUEUE_LEN == 256,
{
}

} // verus!
