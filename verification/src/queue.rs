//! The queue through which a caller feeds microphone audio to a client task.
pub mod record;

use self::record::Offered;
use self::record::Offers;
use std::sync::atomic::AtomicBool;
use std::sync::Arc;
use vstd::prelude::*;

verus! {

/// How many pushes of audio a client queues.
pub const AUDIO_QUEUE_LEN: usize = 512;

/// How many events, or chunks of translated audio, a client queues.
pub const EVENT_QUEUE_LEN: usize = 256;

#[verifier::external_type_specification]
#[verifier::external_body]
#[verifier::reject_recursive_types(Item)]
pub struct ExSender<Item>(tokio::sync::mpsc::Sender<Item>);

/// `Sender::clone` of `tokio::sync::mpsc`: another handle to the same channel.
/// The handle is compared as its shared pointer to the channel is, and the copy
/// holds the same pointer.
pub assume_specification<Item>[ <tokio::sync::mpsc::Sender<Item> as std::clone::Clone>::clone ](
    sender: &tokio::sync::mpsc::Sender<Item>,
) -> (copy: tokio::sync::mpsc::Sender<Item>)
    ensures
        copy == *sender,
;

/// What came of an attempt to queue samples. Samples that were not queued come
/// back.
#[derive(Debug)]
pub enum SendOutcome {
    Sent,
    Full(Vec<i16>),
    Closed(Vec<i16>),
}

/// What came of a push, for the log.
#[derive(Clone, Copy, Debug, PartialEq, Eq, Structural)]
pub enum PushReport {
    /// There were no samples to queue.
    Ignored,
    Queued,
    /// The queue was full: the samples are dropped, which is worth a warning.
    DroppedFull,
    /// The client task has ended: the samples are dropped. Only the first such
    /// push is worth an error; later ones are dropped silently.
    DroppedClosed { first: bool },
}

/// `Sender::try_send` of `tokio::sync::mpsc`, which returns at once. Which
/// outcome it is depends on the channel at that moment; samples that were not
/// sent come back unchanged. Each call is one offer, which the record takes down.
#[verifier::external_body]
#[allow(unused_variables)]
pub(crate) fn try_send(
    audio_tx: &tokio::sync::mpsc::Sender<Vec<i16>>,
    samples: Vec<i16>,
    offers: &mut Offers,
) -> (outcome: SendOutcome)
    ensures
        outcome matches SendOutcome::Full(back) ==> back == samples,
        outcome matches SendOutcome::Closed(back) ==> back == samples,
        final(offers)@ == old(offers)@.push(
            (Offered { samples: samples@, sent: outcome is Sent }),
        ),
{
    match audio_tx.try_send(samples) {
        Ok(()) => SendOutcome::Sent,
        Err(tokio::sync::mpsc::error::TrySendError::Full(back)) => SendOutcome::Full(back),
        Err(tokio::sync::mpsc::error::TrySendError::Closed(back)) => SendOutcome::Closed(back),
    }
}

/// `Sender::is_closed` of `tokio::sync::mpsc`. The answer depends on the
/// channel at that moment, so nothing is stated of it.
#[verifier::external_body]
pub(crate) fn channel_is_closed(audio_tx: &tokio::sync::mpsc::Sender<Vec<i16>>) -> (closed: bool)
{
    audio_tx.is_closed()
}

/// The report of an outcome. `closed_logged` says whether an earlier push was
/// reported as the first to find the channel closed.
pub open spec fn report_of(outcome: SendOutcome, closed_logged: bool) -> PushReport {
    match outcome {
        SendOutcome::Sent => PushReport::Queued,
        SendOutcome::Full(_) => PushReport::DroppedFull,
        SendOutcome::Closed(_) => PushReport::DroppedClosed { first: !closed_logged },
    }
}

/// The report of an outcome.
pub fn push_report(outcome: SendOutcome, closed_logged: bool) -> (report: PushReport)
    ensures
        report == report_of(outcome, closed_logged),
{
    match outcome {
        SendOutcome::Sent => PushReport::Queued,
        SendOutcome::Full(_) => PushReport::DroppedFull,
        SendOutcome::Closed(_) => PushReport::DroppedClosed { first: !closed_logged },
    }
}

/// The sending end of an audio queue. Clones feed one queue; when the last is
/// dropped, the queue closes and the client task ends.
pub struct AudioQueue {
    audio_tx: tokio::sync::mpsc::Sender<Vec<i16>>,
    closed_logged: Arc<AtomicBool>,
}

impl Clone for AudioQueue {
    fn clone(&self) -> (copy: Self)
        ensures
            copy == *self,
    {
        AudioQueue {
            audio_tx: self.audio_tx.clone(),
            closed_logged: self.closed_logged.clone(),
        }
    }
}

impl AudioQueue {
    /// The channel that the queue feeds.
    pub closed spec fn channel(&self) -> tokio::sync::mpsc::Sender<Vec<i16>> {
        self.audio_tx
    }

    /// Whether `outcome` is what offering `samples` to the channel once came to.
    pub closed spec fn offered(&self, samples: Vec<i16>, outcome: SendOutcome) -> bool {
        exists|offers: &mut Offers| #[trigger]
            call_ensures(try_send, (&self.audio_tx, samples, offers), outcome)
    }

    /// Whether `earlier` is what the flag for a closed channel held when it was
    /// set once.
    pub closed spec fn flagged(&self, earlier: bool) -> bool {
        call_ensures(
            AtomicBool::swap,
            (&*self.closed_logged, true, std::sync::atomic::Ordering::Relaxed),
            earlier,
        )
    }

    /// Whether `closed` is what asking the channel came to.
    pub closed spec fn asked(&self, closed: bool) -> bool {
        call_ensures(channel_is_closed, (&self.audio_tx,), closed)
    }

    /// Whether the flag for a closed channel was made unset.
    pub closed spec fn unflagged(&self) -> bool {
        call_ensures(AtomicBool::new, (false,), *self.closed_logged)
    }

    /// Whether a push of `samples` may be answered by `report`, where offering
    /// them came to `outcome` and the flag held `earlier` before it was set: an
    /// empty push is ignored, any other is offered and reported by its outcome,
    /// and a closed channel sets the flag.
    pub open spec fn answered(
        &self,
        samples: Vec<i16>,
        outcome: SendOutcome,
        earlier: bool,
        report: PushReport,
    ) -> bool {
        if samples@.len() == 0 {
            report is Ignored
        } else {
            &&& self.offered(samples, outcome)
            &&& outcome is Closed ==> self.flagged(earlier)
            &&& report == report_of(outcome, earlier)
        }
    }

    /// A queue that feeds the given channel, with the flag for a closed channel
    /// unset.
    pub fn new(audio_tx: tokio::sync::mpsc::Sender<Vec<i16>>) -> (queue: Self)
        ensures
            queue.channel() == audio_tx,
            queue.unflagged(),
    {
        AudioQueue { audio_tx, closed_logged: Arc::new(AtomicBool::new(false)) }
    }

    /// Queues samples without blocking, or drops them where the queue is full
    /// or closed. An empty push is ignored; any other is offered to the channel,
    /// once, and reported by its outcome, which depends on the channel at that
    /// moment. A closed channel sets the flag that the clones share.
    pub fn push_recorded(&self, samples: Vec<i16>, offers: &mut Offers) -> (report: PushReport)
        ensures
            exists|outcome: SendOutcome, earlier: bool|
                self.answered(samples, outcome, earlier, report),
            final(offers)@ == if samples@.len() == 0 {
                old(offers)@
            } else {
                old(offers)@.push((Offered { samples: samples@, sent: report is Queued }))
            },
    {
        if samples.is_empty() {
            assert(self.answered(samples, SendOutcome::Sent, false, PushReport::Ignored));
            return PushReport::Ignored;
        }
        let outcome = try_send(&self.audio_tx, samples, offers);
        let closed_logged = match outcome {
            SendOutcome::Closed(_) => self.closed_logged.swap(
                true,
                std::sync::atomic::Ordering::Relaxed,
            ),
            _ => false,
        };
        let report = push_report(outcome, closed_logged);
        assert(self.answered(samples, outcome, closed_logged, report));
        report
    }

    /// Whether the client task has ended. The answer depends on the channel at
    /// that moment.
    pub fn is_closed(&self) -> (closed: bool)
        ensures
            self.asked(closed),
    {
        channel_is_closed(&self.audio_tx)
    }
}

/// One push in the history of a queue: what was pushed, what offering it came
/// to, what the flag for a closed channel held before, and the report.
pub struct PushRecord {
    pub samples: Vec<i16>,
    pub outcome: SendOutcome,
    pub earlier: bool,
    pub report: PushReport,
}

/// Whether a push found the channel closed.
pub open spec fn found_closed(push: PushRecord) -> bool {
    push.samples@.len() > 0 && push.outcome is Closed
}

/// Whether one of the first `n` pushes found the channel closed.
pub open spec fn closed_before(pushes: Seq<PushRecord>, n: int) -> bool {
    exists|j: int| 0 <= j < n && found_closed(#[trigger] pushes[j])
}

/// Whether the pushes are a history of a new queue, over all its clones, in the
/// order in which they reach the flag for a closed channel: each is answered as
/// `AudioQueue::push` answers it, and one that finds the channel closed finds the
/// flag set exactly where an earlier one did. The last is assumed here and is no
/// part of what `push` states: the content of a shared atomic flag cannot be
/// spoken of there. It holds because the flag starts unset, swaps of one flag come
/// one after the other, and only a push that finds the channel closed sets it.
pub open spec fn is_history(queue: AudioQueue, pushes: Seq<PushRecord>) -> bool {
    &&& queue.unflagged()
    &&& forall|i: int|
        0 <= i < pushes.len() ==> {
            let push = #[trigger] pushes[i];
            &&& queue.answered(push.samples, push.outcome, push.earlier, push.report)
            &&& found_closed(push) ==> push.earlier == closed_before(pushes, i)
        }
}

/// Whether a push is reported as the first to find the channel closed.
pub open spec fn reports_close(push: PushRecord) -> bool {
    push.report == (PushReport::DroppedClosed { first: true })
}

/// Over all pushes on a queue and its clones a closed channel is reported once:
/// by the first push with samples that finds it closed, and by no other. Where
/// no push finds it closed, it is not reported. How the flag behaves is assumed,
/// as `is_history` says.
pub proof fn law_closed_reported_once(queue: AudioQueue, pushes: Seq<PushRecord>)
    requires
        is_history(queue, pushes),
    ensures
        forall|i: int|
            0 <= i < pushes.len() ==> (reports_close(#[trigger] pushes[i]) <==> found_closed(
                pushes[i],
            ) && !closed_before(pushes, i)),
        forall|i: int, j: int|
            0 <= i < pushes.len() && 0 <= j < pushes.len() && reports_close(#[trigger] pushes[i])
                && reports_close(#[trigger] pushes[j]) ==> i == j,
        closed_before(pushes, pushes.len() as int) <==> exists|i: int|
            0 <= i < pushes.len() && reports_close(#[trigger] pushes[i]),
{
    if closed_before(pushes, pushes.len() as int) {
        let last = choose|j: int| 0 <= j < pushes.len() && found_closed(#[trigger] pushes[j]);
        let first = lemma_first_closed(pushes, last);
        assert(reports_close(pushes[first]));
    }
}

/// Once the receiver is gone every push with samples finds the channel closed.
/// All samples are then dropped, and the close is reported exactly where some
/// push had samples.
pub proof fn law_receiver_gone(queue: AudioQueue, pushes: Seq<PushRecord>)
    requires
        is_history(queue, pushes),
        forall|i: int|
            0 <= i < pushes.len() && (#[trigger] pushes[i]).samples@.len() > 0
                ==> pushes[i].outcome is Closed,
    ensures
        forall|i: int|
            0 <= i < pushes.len() ==> (#[trigger] pushes[i]).report is Ignored
                || pushes[i].report is DroppedClosed,
        (exists|i: int| 0 <= i < pushes.len() && reports_close(#[trigger] pushes[i])) <==> exists|
            i: int,
        |
            0 <= i < pushes.len() && (#[trigger] pushes[i]).samples@.len() > 0,
{
    law_closed_reported_once(queue, pushes);
    if exists|i: int| 0 <= i < pushes.len() && (#[trigger] pushes[i]).samples@.len() > 0 {
        let i = choose|i: int| 0 <= i < pushes.len() && (#[trigger] pushes[i]).samples@.len() > 0;
        assert(found_closed(pushes[i]));
    }
}

/// The first push that found the channel closed, no later than the given one.
proof fn lemma_first_closed(pushes: Seq<PushRecord>, last: int) -> (first: int)
    requires
        0 <= last < pushes.len(),
        found_closed(pushes[last]),
    ensures
        0 <= first <= last,
        found_closed(pushes[first]),
        !closed_before(pushes, first),
    decreases last,
{
    if closed_before(pushes, last) {
        let earlier = choose|j: int| 0 <= j < last && found_closed(#[trigger] pushes[j]);
        lemma_first_closed(pushes, earlier)
    } else {
        last
    }
}

/// Whether `report` tells what came of a push: an empty one is ignored, and any
/// other was offered to the channel and is reported as queued, dropped because
/// the queue was full, or dropped because it was closed, as the channel answered;
/// the last as the first of its kind exactly where the flag was not set.
pub open spec fn tells_push(queue: AudioQueue, samples: Vec<i16>, report: PushReport) -> bool {
    if samples@.len() == 0 {
        report is Ignored
    } else {
        match report {
            PushReport::Ignored => false,
            PushReport::Queued => queue.offered(samples, SendOutcome::Sent),
            PushReport::DroppedFull => exists|back: Vec<i16>| #[trigger]
                queue.offered(samples, SendOutcome::Full(back)),
            PushReport::DroppedClosed { first } => queue.flagged(!first) && exists|back: Vec<i16>|
             #[trigger]
                queue.offered(samples, SendOutcome::Closed(back)),
        }
    }
}

/// A push is reported as what came of it.
pub proof fn law_push_told(queue: &AudioQueue, samples: Vec<i16>, report: PushReport)
    requires
        call_ensures(AudioQueue::push, (queue, samples), report),
    ensures
        tells_push(*queue, samples, report),
{
    lemma_answer_told(*queue, samples, report);
}

/// Whatever answers a push tells what came of it.
pub proof fn lemma_answer_told(queue: AudioQueue, samples: Vec<i16>, report: PushReport)
    requires
        exists|outcome: SendOutcome, earlier: bool|
            queue.answered(samples, outcome, earlier, report),
    ensures
        tells_push(queue, samples, report),
{
    let (outcome, earlier) = choose|outcome: SendOutcome, earlier: bool|
        queue.answered(samples, outcome, earlier, report);
    if samples@.len() > 0 {
        match outcome {
            SendOutcome::Sent => {},
            SendOutcome::Full(back) => {
                assert(queue.offered(samples, SendOutcome::Full(back)));
            },
            SendOutcome::Closed(back) => {
                assert(queue.offered(samples, SendOutcome::Closed(back)));
                assert(queue.flagged(earlier));
            },
        }
    }
}

/// Each outcome has its report, and a closed channel is reported as found first
/// exactly where it was not logged before.
pub proof fn law_outcome_told(outcome: SendOutcome, closed_logged: bool, report: PushReport)
    requires
        call_ensures(push_report, (outcome, closed_logged), report),
    ensures
        outcome is Sent <==> report is Queued,
        outcome is Full <==> report is DroppedFull,
        outcome is Closed <==> report is DroppedClosed,
        report matches PushReport::DroppedClosed { first } ==> first == !closed_logged,
{
}

} // verus!
