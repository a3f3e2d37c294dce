//! What a speech client reports, and how the end of its task is reported.
use vstd::prelude::*;

verus! {

/// The audio track that a client works for.
#[derive(Clone, Copy, Debug, PartialEq, Eq, Structural)]
pub struct TrackId(pub u32);

/// What a client reports to the rest of the pipeline.
#[derive(Debug)]
pub enum PipelineEvent {
    /// A transcript that may still change.
    Partial { track: TrackId, text: String },
    /// A finished utterance, ready for translation.
    Flushed { track: TrackId, text: String, reason: &'static str },
    /// A translated utterance.
    Translated { track: TrackId, source_text: String, translated: String },
    /// The client ran into an error.
    Error { track: TrackId, error: String },
}

/// A `PipelineEvent`, with its texts as character sequences.
pub enum EventView {
    Partial { track: TrackId, text: Seq<char> },
    Flushed { track: TrackId, text: Seq<char>, reason: Seq<char> },
    Translated { track: TrackId, source_text: Seq<char>, translated: Seq<char> },
    Error { track: TrackId, error: Seq<char> },
}

impl View for PipelineEvent {
    type V = EventView;

    open spec fn view(&self) -> EventView {
        match *self {
            PipelineEvent::Partial { track, text } => EventView::Partial { track, text: text@ },
            PipelineEvent::Flushed { track, text, reason } => EventView::Flushed {
                track,
                text: text@,
                reason: reason@,
            },
            PipelineEvent::Translated { track, source_text, translated } => EventView::Translated {
                track,
                source_text: source_text@,
                translated: translated@,
            },
            PipelineEvent::Error { track, error } => EventView::Error { track, error: error@ },
        }
    }
}

/// The track that an event belongs to.
pub open spec fn event_track(event: EventView) -> TrackId {
    match event {
        EventView::Partial { track, .. } => track,
        EventView::Flushed { track, .. } => track,
        EventView::Translated { track, .. } => track,
        EventView::Error { track, .. } => track,
    }
}

/// The views of a list of events.
pub open spec fn events_view(events: Seq<PipelineEvent>) -> Seq<EventView> {
    events.map_values(|e: PipelineEvent| e@)
}

/// An error that the library itself finds.
#[derive(Debug)]
pub enum PipelineError {
    /// A server message that is no JSON.
    Json(serde_json::Error),
    /// A Scribe request that cannot be made.
    Scribe(String),
}

/// How the background task of a client came to its end.
#[derive(Debug)]
pub enum TaskEnd {
    /// It finished without an error.
    Finished,
    /// It returned an error, displayed as this text.
    Failed(String),
    /// It panicked with this text.
    Panicked(String),
    /// It panicked with a payload that is no text.
    PanickedOpaquely,
}

/// The text that reports the end of a task, or `None` for a task that finished.
/// `panic_prefix` introduces the text of a panic.
pub open spec fn task_end_text(end: TaskEnd, panic_prefix: Seq<char>) -> Option<Seq<char>> {
    match end {
        TaskEnd::Finished => None,
        TaskEnd::Failed(error) => Some(error@),
        TaskEnd::Panicked(text) => Some(panic_prefix + text@),
        TaskEnd::PanickedOpaquely => Some(panic_prefix + "<non-string panic>"@),
    }
}

/// The event that reports the end of a task: none for a task that finished.
pub open spec fn task_end_view(
    track: TrackId,
    end: TaskEnd,
    panic_prefix: Seq<char>,
) -> Option<EventView> {
    match task_end_text(end, panic_prefix) {
        Some(error) => Some(EventView::Error { track, error }),
        None => None,
    }
}

/// The event that reports the end of a task: none for a task that finished.
pub fn task_end_event(track: TrackId, end: TaskEnd, panic_prefix: &str) -> (event: Option<
    PipelineEvent,
>)
    ensures
        match event {
            Some(e) => task_end_view(track, end, panic_prefix@) == Some(e@),
            None => task_end_view(track, end, panic_prefix@) is None,
        },
{
    let error = match end {
        TaskEnd::Finished => {
            return None;
        },
        TaskEnd::Failed(error) => error,
        TaskEnd::Panicked(text) => {
            let mut error = String::from(panic_prefix);
            error.append(text.as_str());
            error
        },
        TaskEnd::PanickedOpaquely => {
            let mut error = String::from(panic_prefix);
            error.append("<non-string panic>");
            error
        },
    };
    Some(PipelineEvent::Error { track, error })
}

/// The end of a task is reported on its own track, by an error, and exactly
/// where the task did not finish.
pub proof fn law_task_end_on_track(track: TrackId, end: TaskEnd, panic_prefix: Seq<char>)
    ensures
        task_end_view(track, end, panic_prefix) is None <==> end is Finished,
        task_end_view(track, end, panic_prefix) matches Some(event) ==> event is Error
            && event_track(event) == track,
{
}

/// Whether `event` reports the end of a task on this track: a task that finished
/// is not reported; one that failed is reported by its error in full, and one
/// that panicked by its text behind the prefix.
pub open spec fn reports_end(
    event: Option<PipelineEvent>,
    on: TrackId,
    end: TaskEnd,
    panic_prefix: Seq<char>,
) -> bool {
    match end {
        TaskEnd::Finished => event is None,
        TaskEnd::Failed(text) => event matches Some(PipelineEvent::Error { track, error }) && track
            == on && error@ == text@,
        TaskEnd::Panicked(text) => event matches Some(PipelineEvent::Error { track, error })
            && track == on && error@ == panic_prefix + text@,
        TaskEnd::PanickedOpaquely => event matches Some(PipelineEvent::Error { track, error })
            && track == on && error@ == panic_prefix + "<non-string panic>"@,
    }
}

/// The end of a task is reported as it came about.
pub proof fn law_end_reported(
    track: TrackId,
    end: TaskEnd,
    panic_prefix: &str,
    event: Option<PipelineEvent>,
)
    requires
        call_ensures(task_end_event, (track, end, panic_prefix), event),
    ensures
        reports_end(event, track, end, panic_prefix@),
{
}

} // verus!
