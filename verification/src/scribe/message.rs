//! The messages of the Scribe protocol.
use crate::events::PipelineError;
use crate::events::PipelineEvent;
use crate::events::TrackId;
use crate::frame::WsFrame;
use crate::json::bool_value;
use crate::json::member_text;
use crate::json::number_value;
use crate::json::object_value;
use crate::json::read_value;
use crate::json::text_value;
use crate::json::value_text;
use crate::json::Json;
use crate::pcm::encode_pcm;
use crate::text::same_text;
use vstd::prelude::*;

verus! {

/// Input audio: 16-bit PCM, 16 kHz, mono, little-endian.
pub const SAMPLE_RATE: u32 = 16_000;

/// The JSON object of a chunk of audio.
pub open spec fn chunk_record(samples: Seq<i16>, commit: bool) -> Json {
    Json::Object(
        Map::empty().insert("message_type"@, Json::Str("input_audio_chunk"@)).insert(
            "audio_base_64"@,
            Json::Str(crate::pcm::base64_text(crate::pcm::pcm_bytes(samples))),
        ).insert("commit"@, Json::Bool(commit)).insert(
            "sample_rate"@,
            Json::Number(crate::decimal::decimal_text(SAMPLE_RATE as nat)),
        ),
    )
}

/// Whether `message` reads as a chunk of exactly these samples: its audio
/// decodes to their bytes, and it commits as asked.
pub open spec fn reads_as_chunk(message: Seq<char>, samples: Seq<i16>, commit: bool) -> bool {
    &&& crate::json::parsed_json(message) matches Some(value)
    &&& crate::json::text_member(value, "message_type"@) == Some("input_audio_chunk"@)
    &&& crate::json::text_member(value, "audio_base_64"@) matches Some(data)
    &&& crate::pcm::base64_bytes(data) == Some(crate::pcm::pcm_bytes(samples))
    &&& crate::json::json_member(value, "commit"@) == Some(Json::Bool(commit))
    &&& crate::json::json_member(value, "sample_rate"@) == Some(
        Json::Number(crate::decimal::decimal_text(SAMPLE_RATE as nat)),
    )
}

/// The message that carries a chunk of audio, and commits what came so far
/// where `commit` says so.
pub fn audio_chunk_msg(samples: &[i16], commit: bool) -> (message: String)
    requires
        crate::pcm::pcm_fits(samples@.len()),
    ensures
        message@ == crate::json::json_text(chunk_record(samples@, commit)),
        crate::json::parsed_json(message@) == Some(chunk_record(samples@, commit)),
        reads_as_chunk(message@, samples@, commit),
{
    let data = encode_pcm(samples);
    let mut entries: Vec<(String, serde_json::Value)> = Vec::new();
    entries.push((String::from("message_type"), text_value("input_audio_chunk")));
    entries.push((String::from("audio_base_64"), text_value(data.as_str())));
    entries.push((String::from("commit"), bool_value(commit)));
    entries.push((String::from("sample_rate"), number_value(SAMPLE_RATE)));
    proof {
        lemma_chunk_keys();
        lemma_chunk_members(entries@, samples@, commit);
        lemma_chunk_is_record(samples@, commit);
    }
    let record = object_value(entries);
    value_text(&record)
}

/// The four entries of a chunk make its record.
proof fn lemma_chunk_members(
    entries: Seq<(String, serde_json::Value)>,
    samples: Seq<i16>,
    commit: bool,
)
    requires
        entries.len() == 4,
        entries[0].0@ == "message_type"@,
        crate::json::json_of(entries[0].1) == Json::Str("input_audio_chunk"@),
        entries[1].0@ == "audio_base_64"@,
        crate::json::json_of(entries[1].1) == Json::Str(
            crate::pcm::base64_text(crate::pcm::pcm_bytes(samples)),
        ),
        entries[2].0@ == "commit"@,
        crate::json::json_of(entries[2].1) == Json::Bool(commit),
        entries[3].0@ == "sample_rate"@,
        crate::json::json_of(entries[3].1) == Json::Number(
            crate::decimal::decimal_text(SAMPLE_RATE as nat),
        ),
    ensures
        Json::Object(crate::json::members_of(entries)) == chunk_record(samples, commit),
{
    reveal_with_fuel(crate::json::members_of, 5);
}

/// The four keys of a chunk are different: no two are of one length.
proof fn lemma_chunk_keys()
    ensures
        "message_type"@.len() == 12,
        "audio_base_64"@.len() == 13,
        "commit"@.len() == 6,
        "sample_rate"@.len() == 11,
{
    reveal_strlit("message_type");
    reveal_strlit("audio_base_64");
    reveal_strlit("commit");
    reveal_strlit("sample_rate");
}

/// The record of a chunk is an object of plain scalars.
proof fn lemma_chunk_is_record(samples: Seq<i16>, commit: bool)
    ensures
        crate::json::is_record(chunk_record(samples, commit), 8),
        crate::json::text_member(chunk_record(samples, commit), "message_type"@) == Some(
            "input_audio_chunk"@,
        ),
        crate::json::text_member(chunk_record(samples, commit), "audio_base_64"@) == Some(
            crate::pcm::base64_text(crate::pcm::pcm_bytes(samples)),
        ),
        crate::json::json_member(chunk_record(samples, commit), "commit"@) == Some(
            Json::Bool(commit),
        ),
        crate::json::json_member(chunk_record(samples, commit), "sample_rate"@) == Some(
            Json::Number(crate::decimal::decimal_text(SAMPLE_RATE as nat)),
        ),
{
    lemma_chunk_keys();
    reveal_with_fuel(crate::json::is_record, 2);
    let rate = Json::Number(crate::decimal::decimal_text(SAMPLE_RATE as nat));
    assert(crate::json::is_plain_scalar(rate)) by {
        let n: u64 = SAMPLE_RATE as u64;
        assert(crate::decimal::decimal_text(n as nat) == crate::decimal::decimal_text(
            SAMPLE_RATE as nat,
        ));
    }
}

/// The text of an optional string, empty where there is none.
pub open spec fn or_empty(text: Option<Seq<char>>) -> Seq<char> {
    match text {
        Some(t) => t,
        None => ""@,
    }
}

/// The event that a server message of this kind and text is reported by: a
/// partial transcript as it is, a committed one trimmed, and none that is
/// blank.
pub open spec fn transcript_view(
    track: TrackId,
    kind: Option<Seq<char>>,
    text: Option<Seq<char>>,
) -> Option<crate::events::EventView> {
    let kind = or_empty(kind);
    let text = or_empty(text);
    let spoken = crate::text::trimmed(text);
    if spoken.len() == 0 {
        None
    } else if kind == "partial_transcript"@ {
        Some(crate::events::EventView::Partial { track, text })
    } else if kind == "committed_transcript"@ || kind == "committed_transcript_with_timestamps"@ {
        Some(crate::events::EventView::Flushed { track, text: spoken, reason: "committed"@ })
    } else {
        None
    }
}

/// The event that a server message, read as JSON, is reported by.
pub open spec fn value_event(track: TrackId, value: Json) -> Option<crate::events::EventView> {
    transcript_view(
        track,
        crate::json::text_member(value, "message_type"@),
        crate::json::text_member(value, "text"@),
    )
}

/// Whether `event` is the event of this view.
pub open spec fn is_event(
    event: Option<PipelineEvent>,
    view: Option<crate::events::EventView>,
) -> bool {
    match event {
        Some(e) => view == Some(e@),
        None => view is None,
    }
}

/// The event that a server message of this kind and text is reported by.
pub fn transcript_event(track: TrackId, kind: Option<&str>, text: Option<&str>) -> (event: Option<
    PipelineEvent,
>)
    ensures
        is_event(
            event,
            transcript_view(
                track,
                match kind {
                    Some(k) => Some(k@),
                    None => None,
                },
                match text {
                    Some(t) => Some(t@),
                    None => None,
                },
            ),
        ),
{
    let kind = match kind {
        Some(k) => k,
        None => "",
    };
    let text = match text {
        Some(t) => t,
        None => "",
    };
    let spoken = text.trim();
    if spoken.is_empty() {
        None
    } else if same_text(kind, "partial_transcript") {
        Some(PipelineEvent::Partial { track, text: String::from(text) })
    } else if same_text(kind, "committed_transcript") || same_text(
        kind,
        "committed_transcript_with_timestamps",
    ) {
        Some(PipelineEvent::Flushed { track, text: String::from(spoken), reason: "committed" })
    } else {
        None
    }
}

/// What a server message that is no transcript says, for the log.
#[derive(Debug)]
pub enum Note {
    SessionStarted,
    /// The server could not use the input; this is its message.
    InputError(String),
    /// A message of an unknown kind.
    UnknownKind(String),
}

/// A `Note`, with its text as a character sequence.
pub enum NoteView {
    SessionStarted,
    InputError(Seq<char>),
    UnknownKind(Seq<char>),
}

impl View for Note {
    type V = NoteView;

    open spec fn view(&self) -> NoteView {
        match *self {
            Note::SessionStarted => NoteView::SessionStarted,
            Note::InputError(message) => NoteView::InputError(message@),
            Note::UnknownKind(kind) => NoteView::UnknownKind(kind@),
        }
    }
}

/// The note on a message of this kind: none on a transcript, blank or not.
pub open spec fn note_view(kind: Option<Seq<char>>, message: Seq<char>) -> Option<NoteView> {
    let kind = or_empty(kind);
    if kind == "partial_transcript"@ || kind == "committed_transcript"@ || kind
        == "committed_transcript_with_timestamps"@ {
        None
    } else if kind == "session_started"@ {
        Some(NoteView::SessionStarted)
    } else if kind == "input_error"@ {
        Some(NoteView::InputError(message))
    } else {
        Some(NoteView::UnknownKind(kind))
    }
}

/// The note on a server message with this text, read as JSON.
pub open spec fn value_note(value: Json, message: Seq<char>) -> Option<NoteView> {
    note_view(crate::json::text_member(value, "message_type"@), message)
}

/// Whether `note` is the note of this view.
pub open spec fn is_note(note: Option<Note>, view: Option<NoteView>) -> bool {
    match note {
        Some(n) => view == Some(n@),
        None => view is None,
    }
}

/// The note on a message of this kind: none on a transcript, blank or not.
pub fn message_note(kind: Option<&str>, message: &str) -> (note: Option<Note>)
    ensures
        is_note(
            note,
            note_view(
                match kind {
                    Some(k) => Some(k@),
                    None => None,
                },
                message@,
            ),
        ),
{
    let kind = match kind {
        Some(k) => k,
        None => "",
    };
    if same_text(kind, "partial_transcript") || same_text(kind, "committed_transcript")
        || same_text(kind, "committed_transcript_with_timestamps") {
        None
    } else if same_text(kind, "session_started") {
        Some(Note::SessionStarted)
    } else if same_text(kind, "input_error") {
        Some(Note::InputError(String::from(message)))
    } else {
        Some(Note::UnknownKind(String::from(kind)))
    }
}

/// What a frame holds: the event that it is reported by, and the note on it.
#[derive(Debug)]
pub struct Reading {
    pub event: Option<PipelineEvent>,
    pub note: Option<Note>,
}

/// Whether `error` is what reading `text` as JSON came to.
pub open spec fn is_rejection(error: PipelineError, text: Seq<char>) -> bool {
    error matches PipelineError::Json(e) && crate::json::rejected_with(text, e)
}

/// What a frame holds. Only text frames hold messages; one that is no JSON is
/// an error.
pub fn handle_ws_message(frame: WsFrame, track: TrackId) -> (r: Result<Reading, PipelineError>)
    ensures
        match frame {
            WsFrame::Text(text) => match crate::json::parsed_json(text@) {
                Some(value) => r matches Ok(reading) && is_event(
                    reading.event,
                    value_event(track, value),
                ) && is_note(reading.note, value_note(value, text@)),
                None => r matches Err(error) && is_rejection(error, text@),
            },
            _ => r matches Ok(reading) && reading.event is None && reading.note is None,
        },
{
    match frame {
        WsFrame::Text(message) => match read_value(message.as_str()) {
            Ok(value) => {
                let kind = member_text(&value, "message_type");
                let text = member_text(&value, "text");
                Ok(
                    Reading {
                        event: transcript_event(track, kind, text),
                        note: message_note(kind, message.as_str()),
                    },
                )
            },
            Err(error) => Err(PipelineError::Json(error)),
        },
        _ => Ok(Reading { event: None, note: None }),
    }
}

/// No message is both reported and noted, and one is neither only where it is a
/// blank transcript.
pub proof fn law_reported_or_noted(
    track: TrackId,
    kind: Option<Seq<char>>,
    text: Option<Seq<char>>,
    message: Seq<char>,
)
    ensures
        transcript_view(track, kind, text) is Some ==> note_view(kind, message) is None,
        transcript_view(track, kind, text) is None && note_view(kind, message) is None
            ==> crate::text::blank(or_empty(text)),
{
    crate::text::law_trimmed_empty(or_empty(text));
}

/// Nothing blank is ever reported, a committed utterance has no white space at
/// its ends, and only the two kinds of transcripts are reported.
pub proof fn law_transcripts(track: TrackId, kind: Option<Seq<char>>, text: Option<Seq<char>>)
    ensures
        match transcript_view(track, kind, text) {
            Some(crate::events::EventView::Partial { track: t, text: said }) => t == track && text
                == Some(said) && !crate::text::blank(said),
            Some(crate::events::EventView::Flushed { track: t, text: said, reason }) => t == track
                && said.len() > 0 && said == crate::text::trimmed(said) && reason == "committed"@,
            Some(_) => false,
            None => true,
        },
        or_empty(text).len() == 0 || crate::text::blank(or_empty(text)) ==> transcript_view(
            track,
            kind,
            text,
        ) is None,
{
    reveal_strlit("");
    crate::text::law_trimmed_empty(or_empty(text));
    crate::text::law_trim_idempotent(or_empty(text));
}

/// Every utterance that the server commits, with or without time stamps, goes
/// on to the translation, unless it is blank.
pub proof fn law_committed_is_flushed(track: TrackId, kind: Seq<char>, text: Seq<char>)
    requires
        kind == "committed_transcript"@ || kind == "committed_transcript_with_timestamps"@,
        !crate::text::blank(text),
    ensures
        transcript_view(track, Some(kind), Some(text)) == Some(
            crate::events::EventView::Flushed {
                track,
                text: crate::text::trimmed(text),
                reason: "committed"@,
            },
        ),
{
    reveal_strlit("partial_transcript");
    reveal_strlit("committed_transcript");
    reveal_strlit("committed_transcript_with_timestamps");
    crate::text::law_trimmed_empty(text);
    assert("partial_transcript"@.len() != "committed_transcript"@.len());
    assert("partial_transcript"@.len() != "committed_transcript_with_timestamps"@.len());
}

/// Whether `message` reads back as a chunk of audio that holds just these samples
/// at 16 kHz, and commits or not.
pub open spec fn tells_chunk(message: Seq<char>, samples: Seq<i16>, commit: bool) -> bool {
    &&& crate::json::parsed_json(message) matches Some(value)
    &&& crate::json::text_member(value, "message_type"@) == Some("input_audio_chunk"@)
    &&& crate::json::text_member(value, "audio_base_64"@) matches Some(data)
    &&& if samples.len() == 0 {
        data.len() == 0
    } else {
        crate::pcm::text_holds(data, samples)
    }
    &&& crate::json::json_member(value, "commit"@) == Some(Json::Bool(commit))
    &&& crate::json::json_member(value, "sample_rate"@) matches Some(Json::Number(rate))
    &&& crate::decimal::writes(rate, 16000)
}

/// A message that reads as a chunk tells all its samples.
pub proof fn lemma_tells_chunk(message: Seq<char>, samples: Seq<i16>, commit: bool)
    requires
        reads_as_chunk(message, samples, commit),
    ensures
        tells_chunk(message, samples, commit),
{
    let value = crate::json::parsed_json(message)->0;
    let data = crate::json::text_member(value, "audio_base_64"@)->0;
    let bytes = crate::pcm::pcm_bytes(samples);
    crate::decimal::law_decimal_writes(16000);
    crate::pcm::law_pcm_reads_back(samples);
    assert(crate::pcm::base64_text(bytes) == data);
    crate::pcm::law_bytes_hold_samples(bytes, samples);
}

/// The message of a chunk of audio reads back as just these samples, with the
/// commit that was asked for.
pub proof fn law_chunk_reads_back(samples: &[i16], commit: bool, message: String)
    requires
        call_ensures(audio_chunk_msg, (samples, commit), message),
    ensures
        tells_chunk(message@, samples@, commit),
{
    lemma_tells_chunk(message@, samples@, commit);
}

/// What an optional text says, empty where there is none.
pub open spec fn said_text(text: Option<&str>) -> Seq<char> {
    match text {
        Some(t) => t@,
        None => Seq::empty(),
    }
}

/// Whether `event` is the report of a message of this kind and text: a partial
/// transcript as it is and a committed one trimmed, unless it is blank, and
/// nothing else.
pub open spec fn reports(
    event: Option<PipelineEvent>,
    on: TrackId,
    kind: Seq<char>,
    said: Seq<char>,
) -> bool {
    if crate::text::blank(said) {
        event is None
    } else if kind == "partial_transcript"@ {
        event matches Some(PipelineEvent::Partial { track, text }) && track == on && text@ == said
    } else if kind == "committed_transcript"@ || kind == "committed_transcript_with_timestamps"@ {
        event matches Some(PipelineEvent::Flushed { track, text, reason }) && track == on && text@
            == crate::text::trimmed(said) && reason@ == "committed"@
    } else {
        event is None
    }
}

/// Whether `note` is the note on a message of this kind.
pub open spec fn notes(note: Option<Note>, kind: Seq<char>, message: Seq<char>) -> bool {
    if kind == "partial_transcript"@ || kind == "committed_transcript"@ || kind
        == "committed_transcript_with_timestamps"@ {
        note is None
    } else if kind == "session_started"@ {
        note matches Some(Note::SessionStarted)
    } else if kind == "input_error"@ {
        note matches Some(Note::InputError(told)) && told@ == message
    } else {
        note matches Some(Note::UnknownKind(told)) && told@ == kind
    }
}

/// Every transcript that says anything is reported, and nothing else is.
pub proof fn law_transcript_reported(
    track: TrackId,
    kind: Option<&str>,
    text: Option<&str>,
    event: Option<PipelineEvent>,
)
    requires
        call_ensures(transcript_event, (track, kind, text), event),
    ensures
        reports(event, track, said_text(kind), said_text(text)),
{
    reveal_strlit("");
    assert(""@ =~= Seq::empty());
    crate::text::law_trimmed_empty(said_text(text));
}

/// Every message that is no transcript is noted, and no transcript is.
pub proof fn law_message_noted(kind: Option<&str>, message: &str, note: Option<Note>)
    requires
        call_ensures(message_note, (kind, message), note),
    ensures
        notes(note, said_text(kind), message@),
{
    reveal_strlit("");
    assert(""@ =~= Seq::empty());
}

/// The text under a key of a JSON value, empty where there is none.
pub open spec fn text_under(value: Json, key: Seq<char>) -> Seq<char> {
    match crate::json::json_member(value, key) {
        Some(Json::Str(text)) => text,
        _ => Seq::empty(),
    }
}

/// A text frame is reported and noted by its `message_type` and `text`, whatever
/// else it holds; one that is no JSON is an error, and any other frame is passed
/// over.
pub proof fn law_frame_handled(frame: WsFrame, track: TrackId, r: Result<Reading, PipelineError>)
    requires
        call_ensures(handle_ws_message, (frame, track), r),
    ensures
        match frame {
            WsFrame::Text(message) => match crate::json::parsed_json(message@) {
                Some(value) => r matches Ok(reading) && reports(
                    reading.event,
                    track,
                    text_under(value, "message_type"@),
                    text_under(value, "text"@),
                ) && notes(reading.note, text_under(value, "message_type"@), message@),
                None => r matches Err(PipelineError::Json(_)),
            },
            _ => r matches Ok(reading) && reading.event is None && reading.note is None,
        },
{
    reveal_strlit("");
    assert(""@ =~= Seq::empty());
    if let WsFrame::Text(message) = frame {
        if let Some(value) = crate::json::parsed_json(message@) {
            crate::text::law_trimmed_empty(text_under(value, "text"@));
        }
    }
}

} // verus!
