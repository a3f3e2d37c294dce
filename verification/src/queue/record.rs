//! A record of the samples that pushes offer to a channel. It is there for proofs
//! alone and holds nothing when the program runs. Only a push starts one.
use super::AudioQueue;
use super::PushReport;
use super::SendOutcome;
use vstd::prelude::*;

verus! {

/// One offer of samples to a channel, and whether the channel took them.
pub struct Offered {
    pub samples: Seq<i16>,
    pub sent: bool,
}

/// The offers made so far, in order.
pub struct Offers {
    made: Ghost<Seq<Offered>>,
}

impl View for Offers {
    type V = Seq<Offered>;

    closed spec fn view(&self) -> Seq<Offered> {
        self.made@
    }
}

impl Offers {
    /// A record without an offer.
    fn new() -> (offers: Self)
        ensures
            offers@ == Seq::<Offered>::empty(),
    {
        Offers { made: Ghost(Seq::empty()) }
    }
}

impl AudioQueue {
    /// Queues samples without blocking, or drops them where the queue is full
    /// or closed. An empty push is ignored; any other is offered to the channel
    /// and reported by its outcome, which depends on the channel at that moment.
    /// A closed channel sets the flag that the clones share.
    pub fn push(&self, samples: Vec<i16>) -> (report: PushReport)
        ensures
            exists|outcome: SendOutcome, earlier: bool|
                self.answered(samples, outcome, earlier, report),
    {
        let mut offers = Offers::new();
        let report = self.push_recorded(samples, &mut offers);
        // One push makes one offer at most.
        assert(offers@.len() <= 1);
        report
    }
}

/// A push with samples offers just these to the channel, once, and an empty push
/// offers nothing; what was pushed is queued exactly where it is reported so.
pub proof fn law_offered_once(
    queue: &AudioQueue,
    samples: Vec<i16>,
    offers: &mut Offers,
    report: PushReport,
)
    requires
        call_ensures(AudioQueue::push_recorded, (queue, samples, offers), report),
    ensures
        samples@.len() == 0 ==> final(offers)@ == old(offers)@ && report is Ignored,
        samples@.len() > 0 ==> final(offers)@.len() == old(offers)@.len() + 1
            && final(offers)@.drop_last() == old(offers)@ && final(offers)@.last().samples
            == samples@ && (final(offers)@.last().sent <==> report is Queued) && !(
        report is Ignored),
{
    if samples@.len() > 0 {
        assert(final(offers)@.drop_last() =~= old(offers)@);
    }
}

/// One push: what was pushed, its report, and the record after it.
pub struct RecordedPush {
    pub samples: Seq<i16>,
    pub report: PushReport,
    pub after: Seq<Offered>,
}

/// Whether the record after a push follows from the one before it.
pub open spec fn is_recorded(before: Seq<Offered>, push: RecordedPush) -> bool {
    push.after == if push.samples.len() == 0 {
        before
    } else {
        before.push((Offered { samples: push.samples, sent: push.report is Queued }))
    }
}

/// The record after the first `n` pushes.
pub open spec fn record_at(pushes: Seq<RecordedPush>, n: int) -> Seq<Offered> {
    if n <= 0 {
        Seq::empty()
    } else {
        pushes[n - 1].after
    }
}

/// Every push continues the record.
pub proof fn law_push_recorded(
    queue: &AudioQueue,
    samples: Vec<i16>,
    offers: &mut Offers,
    report: PushReport,
)
    requires
        call_ensures(AudioQueue::push_recorded, (queue, samples, offers), report),
    ensures
        is_recorded(
            old(offers)@,
            (RecordedPush { samples: samples@, report, after: final(offers)@ }),
        ),
{
}

/// What the channel took of the offers, and so what its receiver reads.
pub open spec fn taken(offers: Seq<Offered>) -> Seq<Seq<i16>>
    decreases offers.len(),
{
    if offers.len() == 0 {
        Seq::empty()
    } else if offers.last().sent {
        taken(offers.drop_last()).push(offers.last().samples)
    } else {
        taken(offers.drop_last())
    }
}

/// The pushes that are reported as queued, among the first `n`.
pub open spec fn queued(pushes: Seq<RecordedPush>, n: int) -> Seq<Seq<i16>>
    decreases n,
{
    if n <= 0 {
        Seq::empty()
    } else if pushes[n - 1].report is Queued {
        queued(pushes, n - 1).push(pushes[n - 1].samples)
    } else {
        queued(pushes, n - 1)
    }
}

/// The receiver gets the pushes that are reported as queued, each once, in full
/// and in order.
pub proof fn law_receiver_gets_queued(pushes: Seq<RecordedPush>, n: int)
    requires
        0 <= n <= pushes.len(),
        forall|i: int|
            0 <= i < pushes.len() ==> is_recorded(record_at(pushes, i), #[trigger] pushes[i]) && (
            pushes[i].samples.len() == 0 ==> !(pushes[i].report is Queued)),
    ensures
        taken(record_at(pushes, n)) == queued(pushes, n),
    decreases n,
{
    if n > 0 {
        law_receiver_gets_queued(pushes, n - 1);
        let push = pushes[n - 1];
        assert(is_recorded(record_at(pushes, n - 1), push));
        if push.samples.len() > 0 {
            assert(push.after.drop_last() =~= record_at(pushes, n - 1));
        }
    }
}

} // verus!
