//! The relay queue: the ordered hand-off between the ingestion
//! boundary and the publisher task, together with the publisher's
//! per-item step and the ingestion boundary's reply.

use vstd::prelude::*;
use crate::models::ScoreReplay;
use crate::render::{create_score_embed, spec_embed_of, ScoreEmbed};

verus! {

/// An unbounded first-in-first-out queue of score records. Records
/// are delivered to the consumer in the order their enqueues
/// completed.
#[derive(Debug)]
pub struct RelayQueue {
    items: Vec<ScoreReplay>,
}

impl View for RelayQueue {
    type V = Seq<ScoreReplay>;

    closed spec fn view(&self) -> Seq<ScoreReplay> {
        self.items@
    }
}

impl RelayQueue {
    /// An empty queue.
    pub fn new() -> (q: Self)
        ensures
            q@ == Seq::<ScoreReplay>::empty(),
    {
        RelayQueue { items: Vec::new() }
    }

    /// The number of records waiting.
    pub fn len(&self) -> (n: usize)
        ensures
            n == self@.len(),
    {
        self.items.len()
    }

    /// Appends one record at the tail; enqueuing never fails.
    pub fn enqueue(&mut self, r: ScoreReplay)
        ensures
            final(self)@ == old(self)@.push(r),
    {
        self.items.push(r);
    }

    /// Removes and returns the head record — the oldest enqueue — or
    /// `None` on an empty queue.
    pub fn dequeue(&mut self) -> (r: Option<ScoreReplay>)
        ensures
            match r {
                Some(x) => old(self)@.len() > 0 && x == old(self)@[0] && final(self)@ == old(
                    self,
                )@.drop_first(),
                None => old(self)@.len() == 0 && final(self)@ == old(self)@,
            },
    {
        if self.items.len() > 0 {
            let x = self.items.remove(0);
            proof {
                assert(old(self)@.remove(0) =~= old(self)@.drop_first());
            }
            Some(x)
        } else {
            None
        }
    }
}

/// The queue after a producer has enqueued the records `rs` in
/// sequence, oldest first.
pub open spec fn spec_enqueue_all(q: Seq<ScoreReplay>, rs: Seq<ScoreReplay>) -> Seq<ScoreReplay>
    decreases rs.len(),
{
    if rs.len() == 0 {
        q
    } else {
        spec_enqueue_all(q.push(rs[0]), rs.drop_first())
    }
}

/// First-in-first-out delivery: a producer that enqueues `rs` in
/// sequence leaves the queue holding exactly its previous records
/// followed by `rs`, in enqueue order. Since [`RelayQueue::dequeue`]
/// always removes the head, the sole consumer observes and publishes
/// the records in that exact order.
pub proof fn lemma_fifo_order(q: Seq<ScoreReplay>, rs: Seq<ScoreReplay>)
    ensures
        spec_enqueue_all(q, rs) == q + rs,
    decreases rs.len(),
{
    if rs.len() == 0 {
        assert(q + rs =~= q);
    } else {
        lemma_fifo_order(q.push(rs[0]), rs.drop_first());
        assert(q.push(rs[0]) + rs.drop_first() =~= q + rs);
    }
}

/// One step of the publisher task: takes the next queued record, if
/// any, and renders it for publishing. The publish call itself — and
/// the policy of dropping the message and moving on when that call
/// fails — live at the boundary around this step.
pub fn publisher_step(q: &mut RelayQueue) -> (e: Option<ScoreEmbed>)
    ensures
        match e {
            Some(em) => old(q)@.len() > 0 && final(q)@ == old(q)@.drop_first() && spec_embed_of(
                em,
                old(q)@[0],
            ),
            None => old(q)@.len() == 0 && final(q)@ == old(q)@,
        },
{
    match q.dequeue() {
        Some(r) => Some(create_score_embed(&r)),
        None => None,
    }
}

/// The ingestion boundary's HTTP reply: success exactly when the
/// record was enqueued, a bare server error when the relay consumer
/// is gone.
pub fn ingestion_response(enqueued: bool) -> (r: (u16, String))
    ensures
        r.0 == (if enqueued {
            200u16
        } else {
            500u16
        }),
        enqueued ==> r.1@ == "{\"status\":\"success\"}"@,
        !enqueued ==> r.1@.len() == 0,
{
    if enqueued {
        (200, "{\"status\":\"success\"}".to_owned())
    } else {
        (500, String::new())
    }
}

} // verus!
