//! A client's work on one connection from its opening to its end: the client
//! sends the setup message, waits for the server to complete the setup, and only
//! then streams.
use super::session::GeminiSession;
use super::session::SessionInput;
use super::session::SessionNext;
use super::session::SessionOutput;
use super::session::SessionView;
use super::setup::setup_step;
use super::setup::SetupInput;
use super::setup::SetupStep;
use super::wire::GeminiResponse;
use super::wire::SetupMessage;
use super::GeminiConfig;
use crate::events::TrackId;
use crate::frame::WsFrame;
use vstd::prelude::*;

verus! {

/// What can happen to a task.
#[derive(Debug)]
pub enum TaskInput {
    /// The connection is open.
    Connected,
    Frame(WsFrame),
    /// The server has not completed the setup in time.
    SetupTimedOut,
    /// The connection reported an error.
    StreamError,
    StreamEnded,
    /// Samples from the microphone.
    Samples(Vec<i16>),
    /// No more samples will come.
    AudioClosed,
    /// The flush interval has passed.
    FlushTick,
    /// The message that the last frame held.
    Response(GeminiResponse),
    /// The last frame held no message that can be read.
    BadResponse,
}

/// Where a task stands.
#[derive(Clone, Copy, Debug, PartialEq, Eq, Structural)]
pub enum TaskPhase {
    /// The connection is not open yet.
    Opening,
    /// The setup message is sent; the server has not completed the setup.
    Setup,
    /// Audio goes out and messages come in.
    Streaming,
    Ended,
}

/// What the client does after an input.
#[derive(Debug)]
pub enum TaskAction {
    Nothing,
    /// Send the setup message; a failure to send it fails the task.
    SendSetup(SetupMessage),
    /// The setup is complete: read audio from now on.
    Start,
    /// The task fails with this message.
    Fail(String),
    /// The task fails with the error of the connection.
    FailStream,
    /// Do what the session asks for.
    Stream(SessionOutput),
}

/// What a task remembers.
pub struct TaskView {
    pub config: GeminiConfig,
    pub phase: TaskPhase,
    pub session: SessionView,
}

/// An input as the setup phase takes it, where that phase takes it.
pub open spec fn setup_input(input: TaskInput) -> Option<SetupInput> {
    match input {
        TaskInput::Frame(frame) => Some(SetupInput::Frame(frame)),
        TaskInput::SetupTimedOut => Some(SetupInput::TimedOut),
        TaskInput::StreamError => Some(SetupInput::StreamError),
        TaskInput::StreamEnded => Some(SetupInput::StreamEnded),
        _ => None,
    }
}

/// An input as the session takes it, where the session takes it.
pub open spec fn session_input(input: TaskInput) -> Option<SessionInput> {
    match input {
        TaskInput::Frame(frame) => Some(SessionInput::Frame(frame)),
        TaskInput::StreamError => Some(SessionInput::StreamError),
        TaskInput::StreamEnded => Some(SessionInput::StreamEnded),
        TaskInput::Samples(samples) => Some(SessionInput::Samples(samples)),
        TaskInput::AudioClosed => Some(SessionInput::AudioClosed),
        TaskInput::FlushTick => Some(SessionInput::FlushTick),
        TaskInput::Response(response) => Some(SessionInput::Response(response)),
        TaskInput::BadResponse => Some(SessionInput::BadResponse),
        TaskInput::Connected | TaskInput::SetupTimedOut => None,
    }
}

/// Where a task stands after a step of the setup phase.
pub open spec fn phase_after_setup(step: super::setup::SetupView) -> TaskPhase {
    match step {
        super::setup::SetupView::Wait => TaskPhase::Setup,
        super::setup::SetupView::Ready => TaskPhase::Streaming,
        super::setup::SetupView::Failed(_) => TaskPhase::Ended,
        super::setup::SetupView::StreamFailed => TaskPhase::Ended,
    }
}

/// Where a task stands after a step of the session.
pub open spec fn phase_after_session(next: super::session::NextView) -> TaskPhase {
    match next {
        super::session::NextView::Continue => TaskPhase::Streaming,
        super::session::NextView::Read(_) => TaskPhase::Streaming,
        super::session::NextView::Finish => TaskPhase::Ended,
        super::session::NextView::Fail => TaskPhase::Ended,
    }
}

/// What a task remembers after an input. An input that its phase does not take
/// changes nothing.
pub open spec fn task_after(before: TaskView, input: TaskInput) -> TaskView {
    match before.phase {
        TaskPhase::Opening => if input is Connected {
            TaskView { phase: TaskPhase::Setup, ..before }
        } else {
            before
        },
        TaskPhase::Setup => match setup_input(input) {
            Some(i) => TaskView {
                phase: phase_after_setup(super::setup::setup_view(i)),
                ..before
            },
            None => before,
        },
        TaskPhase::Streaming => match session_input(input) {
            Some(i) => TaskView {
                phase: phase_after_session(super::session::next_view(i)),
                session: super::session::session_after(before.session, i),
                ..before
            },
            None => before,
        },
        TaskPhase::Ended => before,
    }
}

/// Whether `action` is what the client does after a step of the setup phase.
pub open spec fn setup_acts(step: super::setup::SetupView, action: TaskAction) -> bool {
    match step {
        super::setup::SetupView::Wait => action is Nothing,
        super::setup::SetupView::Ready => action is Start,
        super::setup::SetupView::Failed(text) => action matches TaskAction::Fail(message)
            && message@ == text,
        super::setup::SetupView::StreamFailed => action is FailStream,
    }
}

/// Whether `action` is what the client does after `input`.
pub open spec fn acts(before: TaskView, input: TaskInput, action: TaskAction) -> bool {
    match before.phase {
        TaskPhase::Opening => if input is Connected {
            action matches TaskAction::SendSetup(message) && super::wire::sets_up(
                message,
                before.config,
            )
        } else {
            action is Nothing
        },
        TaskPhase::Setup => match setup_input(input) {
            Some(i) => setup_acts(super::setup::setup_view(i), action),
            None => action is Nothing,
        },
        TaskPhase::Streaming => match session_input(input) {
            Some(i) => action matches TaskAction::Stream(output) && super::session::answers(
                before.session,
                i,
                output,
            ),
            None => action is Nothing,
        },
        TaskPhase::Ended => action is Nothing,
    }
}

/// An input as the setup phase takes it.
fn for_setup(input: TaskInput) -> (r: Option<SetupInput>)
    ensures
        r == setup_input(input),
{
    match input {
        TaskInput::Frame(frame) => Some(SetupInput::Frame(frame)),
        TaskInput::SetupTimedOut => Some(SetupInput::TimedOut),
        TaskInput::StreamError => Some(SetupInput::StreamError),
        TaskInput::StreamEnded => Some(SetupInput::StreamEnded),
        _ => None,
    }
}

/// An input as the session takes it.
fn for_session(input: TaskInput) -> (r: Option<SessionInput>)
    ensures
        r == session_input(input),
{
    match input {
        TaskInput::Frame(frame) => Some(SessionInput::Frame(frame)),
        TaskInput::StreamError => Some(SessionInput::StreamError),
        TaskInput::StreamEnded => Some(SessionInput::StreamEnded),
        TaskInput::Samples(samples) => Some(SessionInput::Samples(samples)),
        TaskInput::AudioClosed => Some(SessionInput::AudioClosed),
        TaskInput::FlushTick => Some(SessionInput::FlushTick),
        TaskInput::Response(response) => Some(SessionInput::Response(response)),
        TaskInput::BadResponse => Some(SessionInput::BadResponse),
        TaskInput::Connected | TaskInput::SetupTimedOut => None,
    }
}

/// A client's work on one connection.
pub struct GeminiTask {
    config: GeminiConfig,
    phase: TaskPhase,
    session: GeminiSession,
}

impl View for GeminiTask {
    type V = TaskView;

    closed spec fn view(&self) -> TaskView {
        TaskView { config: self.config, phase: self.phase, session: self.session@ }
    }
}

impl GeminiTask {
    /// Whether fewer samples than a chunk are kept.
    pub open spec fn wf(&self) -> bool {
        self@.session.buffer.len() < super::INPUT_CHUNK_SAMPLES
    }

    /// A task whose connection is not open yet.
    pub fn new(config: GeminiConfig, track: TrackId) -> (task: Self)
        ensures
            task.wf(),
            task@.config == config,
            task@.phase == TaskPhase::Opening,
            task@.session.track == track,
            task@.session.buffer == Seq::<i16>::empty(),
            task@.session.last_input_text == Seq::<char>::empty(),
    {
        GeminiTask { config, phase: TaskPhase::Opening, session: GeminiSession::new(track) }
    }

    /// Where the task stands.
    pub fn phase(&self) -> (phase: TaskPhase)
        ensures
            phase == self@.phase,
    {
        self.phase
    }

    /// What the client does after an input. Audio is taken only while the task
    /// streams; until then it stays in its queue.
    pub fn step(&mut self, input: TaskInput) -> (action: TaskAction)
        requires
            old(self).wf(),
        ensures
            final(self).wf(),
            final(self)@ == task_after(old(self)@, input),
            acts(old(self)@, input, action),
    {
        match self.phase {
            TaskPhase::Opening => match input {
                TaskInput::Connected => {
                    self.phase = TaskPhase::Setup;
                    TaskAction::SendSetup(self.config.setup_message())
                },
                _ => TaskAction::Nothing,
            },
            TaskPhase::Setup => match for_setup(input) {
                Some(input) => match setup_step(input) {
                    SetupStep::Wait => TaskAction::Nothing,
                    SetupStep::Ready => {
                        self.phase = TaskPhase::Streaming;
                        TaskAction::Start
                    },
                    SetupStep::Failed(message) => {
                        self.phase = TaskPhase::Ended;
                        TaskAction::Fail(message)
                    },
                    SetupStep::StreamFailed => {
                        self.phase = TaskPhase::Ended;
                        TaskAction::FailStream
                    },
                },
                None => TaskAction::Nothing,
            },
            TaskPhase::Streaming => match for_session(input) {
                Some(input) => {
                    let output = self.session.step(input);
                    match output.next {
                        SessionNext::Continue | SessionNext::Read(_) => {},
                        SessionNext::Finish | SessionNext::Fail => {
                            self.phase = TaskPhase::Ended;
                        },
                    }
                    TaskAction::Stream(output)
                },
                None => TaskAction::Nothing,
            },
            TaskPhase::Ended => TaskAction::Nothing,
        }
    }
}

/// One step in the history of a task: what happened and what the client did.
pub struct TaskStep {
    pub input: TaskInput,
    pub action: TaskAction,
}

/// What a task remembers after its first `n` steps.
pub open spec fn task_at(start: TaskView, steps: Seq<TaskStep>, n: int) -> TaskView
    decreases n,
{
    if n <= 0 {
        start
    } else {
        task_after(task_at(start, steps, n - 1), steps[n - 1].input)
    }
}

/// Whether step `i` is answered as `GeminiTask::step` answers it.
pub open spec fn is_answered(start: TaskView, steps: Seq<TaskStep>, i: int) -> bool {
    acts(task_at(start, steps, i), steps[i].input, steps[i].action)
}

/// Whether the steps are a history of a task from its opening on: after each
/// input the client does what `GeminiTask::step` returns.
pub open spec fn is_task_history(start: TaskView, steps: Seq<TaskStep>) -> bool {
    &&& start.phase is Opening
    &&& forall|i: int| 0 <= i < steps.len() ==> #[trigger] is_answered(start, steps, i)
}

/// Whether the connection was reported open in one of the first `n` steps.
pub open spec fn was_connected(steps: Seq<TaskStep>, n: int) -> bool {
    exists|j: int| 0 <= j < n && (#[trigger] steps[j]).input is Connected
}

/// Whether `input` is a frame that completes the setup and reports no error.
pub open spec fn completes(input: TaskInput) -> bool {
    setup_input(input) matches Some(i) && super::setup::completes_setup(i)
}

/// Whether one of the first `n` steps sends the setup message.
pub open spec fn setup_sent(steps: Seq<TaskStep>, n: int) -> bool {
    exists|k: int| 0 <= k < n && (#[trigger] steps[k]).action is SendSetup
}

/// Whether one of the first `n` steps reads a frame that completes the setup,
/// after the setup message was sent.
pub open spec fn setup_completed(steps: Seq<TaskStep>, n: int) -> bool {
    exists|j: int|
        0 <= j < n && completes((#[trigger] steps[j]).input) && setup_sent(steps, j)
}

/// Whether an action sends audio.
pub open spec fn sends_audio(action: TaskAction) -> bool {
    action matches TaskAction::Stream(output) && output.sends@.len() > 0
}

/// No audio is sent before the server has completed the setup: a step that sends
/// audio, or does anything else for the session, comes after a frame that
/// completes the setup without an error, and that frame after the setup message.
pub proof fn law_setup_before_audio(start: TaskView, steps: Seq<TaskStep>, i: int)
    requires
        is_task_history(start, steps),
        0 <= i < steps.len(),
    ensures
        steps[i].action is Stream ==> setup_completed(steps, i),
        sends_audio(steps[i].action) ==> setup_completed(steps, i),
{
    lemma_phase_reached(start, steps, i);
    assert(is_answered(start, steps, i));
}

/// On a connection that opens the setup message is sent exactly once, when it
/// opens, and it is the one that the configuration asks for.
pub proof fn law_setup_sent_once(start: TaskView, steps: Seq<TaskStep>)
    requires
        is_task_history(start, steps),
    ensures
        forall|i: int|
            0 <= i < steps.len() ==> ((#[trigger] steps[i]).action is SendSetup
                <==> steps[i].input is Connected && !was_connected(steps, i)),
        forall|i: int, j: int|
            0 <= i < steps.len() && 0 <= j < steps.len() && (#[trigger] steps[i]).action is SendSetup
                && (#[trigger] steps[j]).action is SendSetup ==> i == j,
        forall|i: int|
            0 <= i < steps.len() ==> ((#[trigger] steps[i]).action matches TaskAction::SendSetup(
                message,
            ) ==> super::wire::sets_up(message, start.config)),
        was_connected(steps, steps.len() as int) <==> setup_sent(steps, steps.len() as int),
{
    assert forall|i: int| 0 <= i < steps.len() implies ((#[trigger] steps[i]).action is SendSetup
        <==> steps[i].input is Connected && !was_connected(steps, i)) && (
    steps[i].action matches TaskAction::SendSetup(message) ==> super::wire::sets_up(
        message,
        start.config,
    )) by {
        lemma_opening_until_connected(start, steps, i);
        assert(is_answered(start, steps, i));
    }
    lemma_opening_until_connected(start, steps, steps.len() as int);
    lemma_phase_reached(start, steps, steps.len() as int);
}

/// A task that has ended does nothing more.
pub proof fn law_task_ends(before: TaskView, input: TaskInput, action: TaskAction)
    requires
        before.phase is Ended,
        acts(before, input, action),
    ensures
        action is Nothing,
        task_after(before, input) == before,
{
}

/// What a task has done when it has left a phase behind.
proof fn lemma_phase_reached(start: TaskView, steps: Seq<TaskStep>, n: int)
    requires
        is_task_history(start, steps),
        0 <= n <= steps.len(),
    ensures
        !(task_at(start, steps, n).phase is Opening) ==> setup_sent(steps, n),
        task_at(start, steps, n).phase is Streaming ==> setup_completed(steps, n),
    decreases n,
{
    if n > 0 {
        let before = task_at(start, steps, n - 1);
        let step = steps[n - 1];
        lemma_phase_reached(start, steps, n - 1);
        assert(is_answered(start, steps, n - 1));
        if before.phase is Opening {
            if step.input is Connected {
                assert(steps[n - 1].action is SendSetup);
            }
        } else {
            let k = choose|k: int| 0 <= k < n - 1 && (#[trigger] steps[k]).action is SendSetup;
            assert(steps[k].action is SendSetup);
            if before.phase is Setup && task_at(start, steps, n).phase is Streaming {
                assert(completes(steps[n - 1].input));
            }
            if before.phase is Streaming {
                let j = choose|j: int|
                    0 <= j < n - 1 && completes((#[trigger] steps[j]).input) && setup_sent(steps, j);
                assert(completes(steps[j].input));
            }
        }
    }
}

/// A task is opening exactly until its connection is open, and it keeps its
/// configuration.
proof fn lemma_opening_until_connected(start: TaskView, steps: Seq<TaskStep>, n: int)
    requires
        start.phase is Opening,
        0 <= n <= steps.len(),
    ensures
        task_at(start, steps, n).config == start.config,
        task_at(start, steps, n).phase is Opening <==> !was_connected(steps, n),
    decreases n,
{
    if n > 0 {
        lemma_opening_until_connected(start, steps, n - 1);
        assert(was_connected(steps, n) <==> was_connected(steps, n - 1) || steps[n
            - 1].input is Connected);
    }
}

/// A task that opens does nothing until the connection is open; then it sends the
/// setup message of its configuration and waits for the server.
pub proof fn law_task_opens(t: &mut GeminiTask, input: TaskInput, action: TaskAction)
    requires
        call_ensures(GeminiTask::step, (t, input), action),
        old(t)@.phase is Opening,
    ensures
        input is Connected ==> final(t)@.phase is Setup && (action matches TaskAction::SendSetup(
            message,
        ) && message.setup.model@ == "models/"@ + old(t)@.config.model@
            && message.setup.generation_config.response_modalities@.len() == 1
            && message.setup.generation_config.response_modalities@[0]@ == "AUDIO"@
            && message.setup.generation_config.translation_config.target_language_code@
            == old(t)@.config.target_language_code@
            && message.setup.generation_config.translation_config.echo_target_language
            == old(t)@.config.echo_target_language),
        !(input is Connected) ==> final(t)@.phase is Opening && action is Nothing,
        final(t)@.config == old(t)@.config,
        final(t)@.session == old(t)@.session,
{
}

/// A task that waits for the setup takes what the setup phase takes, as that phase
/// answers it, and nothing else; `step` is that answer.
pub proof fn law_task_sets_up(
    t: &mut GeminiTask,
    input: TaskInput,
    action: TaskAction,
    taken: SetupInput,
    step: SetupStep,
)
    requires
        call_ensures(GeminiTask::step, (t, input), action),
        call_ensures(setup_step, (taken,), step),
        old(t)@.phase is Setup,
        match input {
            TaskInput::Frame(frame) => taken == SetupInput::Frame(frame),
            TaskInput::SetupTimedOut => taken is TimedOut,
            TaskInput::StreamError => taken is StreamError,
            TaskInput::StreamEnded => taken is StreamEnded,
            _ => false,
        },
    ensures
        match step {
            SetupStep::Wait => action is Nothing && final(t)@.phase is Setup,
            SetupStep::Ready => action is Start && final(t)@.phase is Streaming,
            SetupStep::Failed(message) => final(t)@.phase is Ended && (
            action matches TaskAction::Fail(told) && told@ == message@),
            SetupStep::StreamFailed => action is FailStream && final(t)@.phase is Ended,
        },
        final(t)@.config == old(t)@.config,
        final(t)@.session == old(t)@.session,
{
    assert(setup_input(input) == Some(taken));
}

/// Until the setup is complete, audio, flushes and responses are not taken.
pub proof fn law_task_waits(t: &mut GeminiTask, input: TaskInput, action: TaskAction)
    requires
        call_ensures(GeminiTask::step, (t, input), action),
        old(t)@.phase is Setup,
        !(input is Frame || input is SetupTimedOut || input is StreamError || input is StreamEnded),
    ensures
        action is Nothing,
        final(t)@ == old(t)@,
{
}

/// A task that streams hands everything that can happen then to its session, as
/// it came, and does what the session asks for. It ends where the session does.
pub proof fn law_task_streams(
    t: &mut GeminiTask,
    input: TaskInput,
    action: TaskAction,
    handed: SessionInput,
)
    requires
        call_ensures(GeminiTask::step, (t, input), action),
        old(t)@.phase is Streaming,
        match input {
            TaskInput::Frame(frame) => handed == SessionInput::Frame(frame),
            TaskInput::StreamError => handed is StreamError,
            TaskInput::StreamEnded => handed is StreamEnded,
            TaskInput::Samples(samples) => handed == SessionInput::Samples(samples),
            TaskInput::AudioClosed => handed is AudioClosed,
            TaskInput::FlushTick => handed is FlushTick,
            TaskInput::Response(response) => handed == SessionInput::Response(response),
            TaskInput::BadResponse => handed is BadResponse,
            TaskInput::Connected => false,
            TaskInput::SetupTimedOut => false,
        },
    ensures
        action matches TaskAction::Stream(output) && super::session::answers(
            old(t)@.session,
            handed,
            output,
        ) && (final(t)@.phase is Ended <==> output.next is Finish || output.next is Fail) && (
        final(t)@.phase is Streaming <==> !(output.next is Finish || output.next is Fail)),
        final(t)@.session == super::session::session_after(old(t)@.session, handed),
        final(t)@.config == old(t)@.config,
{
    assert(session_input(input) == Some(handed));
}

/// A task that has ended, or whose phase does not take an input, does nothing.
pub proof fn law_task_idle(t: &mut GeminiTask, input: TaskInput, action: TaskAction)
    requires
        call_ensures(GeminiTask::step, (t, input), action),
        old(t)@.phase is Ended || (old(t)@.phase is Streaming && (input is Connected
            || input is SetupTimedOut)),
    ensures
        action is Nothing,
        final(t)@ == old(t)@,
{
}

/// Every step of a task continues a history.
pub proof fn law_task_continues(t: &mut GeminiTask, input: TaskInput, action: TaskAction)
    requires
        call_ensures(GeminiTask::step, (t, input), action),
    ensures
        acts(old(t)@, input, action),
        final(t)@ == task_after(old(t)@, input),
{
}

} // verus!
