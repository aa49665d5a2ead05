use vstd::prelude::*;

use crate::error::Error;
use crate::row::Batch;

verus! {

/// Where a pipeline is in its life.
#[derive(Clone, Copy, Debug, PartialEq, Eq, Structural)]
pub enum PipelineState {
    /// Accepting batches and sending them.
    Open,
    /// Closed to new batches; the queued ones are still being sent.
    Draining,
    /// A send failed; nothing more is sent and the queued batches were dropped.
    Failed,
    /// The stream has been finished.
    Finished,
}

/// What became of a batch offered to an open pipeline.
#[derive(Debug)]
pub enum Offer {
    /// It was queued.
    Accepted,
    /// The queue is full: the batch is handed back, and the producer waits for room.
    WouldBlock(Batch),
}

/// The abstract state of a pipeline.
pub struct InserterModel {
    pub state: PipelineState,
    pub close_requested: bool,
    pub capacity: nat,
    /// Batches waiting to be sent, oldest first.
    pub queue: Seq<Batch>,
    /// Row count of the batch handed to the writer and not yet acknowledged.
    pub in_flight: Option<u32>,
    /// Every batch handed to the writer, in the order it was handed over.
    pub sent: Seq<Batch>,
    /// Every batch the queue took, in the order it took them.
    pub accepted: Seq<Batch>,
    /// Rows of all batches whose send succeeded.
    pub rows: nat,
    /// Batches dropped from the queue when a send failed.
    pub discarded: nat,
}

/// Total rows of a sequence of batches.
pub open spec fn rows_of(bs: Seq<Batch>) -> nat
    decreases bs.len(),
{
    if bs.len() == 0 {
        0
    } else {
        bs[0].row_count as nat + rows_of(bs.drop_first())
    }
}

impl InserterModel {
    pub open spec fn fresh(capacity: nat) -> InserterModel {
        InserterModel {
            state: PipelineState::Open,
            close_requested: false,
            capacity,
            queue: Seq::empty(),
            in_flight: None,
            sent: Seq::empty(),
            accepted: Seq::empty(),
            rows: 0,
            discarded: 0,
        }
    }

    pub open spec fn has_room(self) -> bool {
        self.queue.len() < self.capacity
    }

    /// State after offering `b`: queued only when open and not full.
    pub open spec fn enqueue(self, b: Batch) -> InserterModel {
        if self.state == PipelineState::Open && self.has_room() {
            InserterModel { queue: self.queue.push(b), accepted: self.accepted.push(b), ..self }
        } else {
            self
        }
    }

    /// Whether the writer is due the next queued batch.
    pub open spec fn can_send(self) -> bool {
        &&& (self.state == PipelineState::Open || self.state == PipelineState::Draining)
        &&& self.in_flight is None
        &&& self.queue.len() > 0
    }

    /// State after handing the oldest queued batch to the writer.
    pub open spec fn start_send(self) -> InserterModel {
        if self.can_send() {
            InserterModel {
                queue: self.queue.drop_first(),
                in_flight: Some(self.queue[0].row_count),
                sent: self.sent.push(self.queue[0]),
                ..self
            }
        } else {
            self
        }
    }

    /// State after the writer acknowledged the batch in flight.
    pub open spec fn send_ok(self) -> InserterModel {
        match self.in_flight {
            Some(r) => InserterModel { in_flight: None, rows: self.rows + r as nat, ..self },
            None => self,
        }
    }

    /// State after the writer failed on the batch in flight: the rest is dropped.
    pub open spec fn send_failed(self) -> InserterModel {
        InserterModel {
            state: PipelineState::Failed,
            in_flight: None,
            queue: Seq::empty(),
            discarded: self.discarded + self.queue.len(),
            ..self
        }
    }

    pub open spec fn can_close(self) -> bool {
        !self.close_requested && self.state != PipelineState::Finished
    }

    /// State after a request to stop taking batches.
    pub open spec fn close(self) -> InserterModel {
        if self.can_close() {
            InserterModel {
                close_requested: true,
                state: if self.state == PipelineState::Open {
                    PipelineState::Draining
                } else {
                    self.state
                },
                ..self
            }
        } else {
            self
        }
    }

    /// Whether the writer is due its one call to `finish`.
    pub open spec fn finish_due(self) -> bool {
        &&& self.close_requested
        &&& self.in_flight is None
        &&& (self.state == PipelineState::Failed || (self.state == PipelineState::Draining
            && self.queue.len() == 0))
    }

    pub open spec fn finish(self) -> InserterModel {
        InserterModel { state: PipelineState::Finished, ..self }
    }

    /// Offers each of `bs` in turn.
    pub open spec fn enqueue_all(self, bs: Seq<Batch>) -> InserterModel
        decreases bs.len(),
    {
        if bs.len() == 0 {
            self
        } else {
            self.enqueue(bs[0]).enqueue_all(bs.drop_first())
        }
    }

    /// Sends every queued batch, each send succeeding.
    pub open spec fn drain_ok(self) -> InserterModel
        decreases self.queue.len(),
    {
        if self.can_send() {
            self.start_send().send_ok().drain_ok()
        } else {
            self
        }
    }
}

/// The decisions of an ingestion pipeline: a bounded queue of batches and the
/// lifecycle of the stream that drains it. The task that owns the writer asks it
/// for the next batch to send and reports each outcome back.
pub struct Inserter {
    queue: Vec<Batch>,
    capacity: usize,
    state: PipelineState,
    close_requested: bool,
    in_flight: Option<u32>,
    rows_sent: u64,
    discarded: usize,
    last_error: Option<String>,
    sent: Ghost<Seq<Batch>>,
    accepted: Ghost<Seq<Batch>>,
    rows: Ghost<nat>,
}

impl View for Inserter {
    type V = InserterModel;

    closed spec fn view(&self) -> InserterModel {
        InserterModel {
            state: self.state,
            close_requested: self.close_requested,
            capacity: self.capacity as nat,
            queue: self.queue@,
            in_flight: self.in_flight,
            sent: self.sent@,
            accepted: self.accepted@,
            rows: self.rows@,
            discarded: self.discarded as nat,
        }
    }
}

/// `n`, or the largest `u64` where `n` exceeds it.
pub open spec fn saturate(n: nat) -> u64 {
    if n > u64::MAX {
        u64::MAX
    } else {
        n as u64
    }
}

impl Inserter {
    pub closed spec fn wf(&self) -> bool {
        &&& self.capacity > 0
        &&& self.queue@.len() <= self.capacity
        &&& self.rows_sent == saturate(self.rows@)
        &&& (self.state == PipelineState::Open || self.state == PipelineState::Draining) ==> self.discarded == 0
        &&& self.discarded <= self.capacity
        &&& (self.state == PipelineState::Failed || self.state == PipelineState::Finished) ==> self.in_flight is None
    }

    pub closed spec fn last_error_spec(&self) -> Option<String> {
        self.last_error
    }

    /// An open pipeline with an empty queue that holds at most `capacity` batches.
    pub fn new(capacity: usize) -> (r: Result<Inserter, Error>)
        ensures
            capacity == 0 <==> r == Err::<Inserter, Error>(Error::InvalidArgument),
            capacity > 0 <==> r is Ok,
            r matches Ok(p) ==> p.wf() && p@ == InserterModel::fresh(capacity as nat)
                && p.last_error_spec() is None,
    {
        if capacity == 0 {
            return Err(Error::InvalidArgument);
        }
        Ok(
            Inserter {
                queue: Vec::new(),
                capacity,
                state: PipelineState::Open,
                close_requested: false,
                in_flight: None,
                rows_sent: 0,
                discarded: 0,
                last_error: None,
                sent: Ghost(Seq::empty()),
                accepted: Ghost(Seq::empty()),
                rows: Ghost(0),
            },
        )
    }

    /// Offers a batch. Once the pipeline no longer takes batches this fails at once;
    /// when the queue is full the batch is handed back for the producer to wait and
    /// offer again.
    pub fn enqueue(&mut self, batch: Batch) -> (r: Result<Offer, Error>)
        requires
            old(self).wf(),
        ensures
            final(self).wf(),
            final(self)@ == old(self)@.enqueue(batch),
            final(self).last_error_spec() == old(self).last_error_spec(),
            old(self)@.state != PipelineState::Open ==> r == Err::<Offer, Error>(Error::PipelineClosed),
            old(self)@.state == PipelineState::Open && old(self)@.has_room() ==> r
                == Ok::<Offer, Error>(Offer::Accepted),
            old(self)@.state == PipelineState::Open && !old(self)@.has_room() ==> r
                == Ok::<Offer, Error>(Offer::WouldBlock(batch)),
    {
        if self.state != PipelineState::Open {
            return Err(Error::PipelineClosed);
        }
        if self.queue.len() >= self.capacity {
            return Ok(Offer::WouldBlock(batch));
        }
        self.accepted = Ghost(self.accepted@.push(batch));
        self.queue.push(batch);
        Ok(Offer::Accepted)
    }

    /// Hands out the oldest queued batch when the writer is due one.
    pub fn next_batch(&mut self) -> (r: Option<Batch>)
        requires
            old(self).wf(),
        ensures
            final(self).wf(),
            final(self)@ == old(self)@.start_send(),
            final(self).last_error_spec() == old(self).last_error_spec(),
            r == (if old(self)@.can_send() {
                Some(old(self)@.queue[0])
            } else {
                None::<Batch>
            }),
    {
        let due = (self.state == PipelineState::Open || self.state == PipelineState::Draining)
            && self.in_flight.is_none() && self.queue.len() > 0;
        if !due {
            return None;
        }
        let b = self.queue.remove(0);
        self.in_flight = Some(b.row_count);
        self.sent = Ghost(self.sent@.push(b));
        Some(b)
    }

    /// Records that the writer accepted the batch in flight.
    pub fn send_succeeded(&mut self)
        requires
            old(self).wf(),
            old(self)@.in_flight is Some,
        ensures
            final(self).wf(),
            final(self)@ == old(self)@.send_ok(),
            final(self).last_error_spec() == old(self).last_error_spec(),
    {
        if let Some(r) = self.in_flight {
            self.rows_sent = self.rows_sent.saturating_add(r as u64);
            self.rows = Ghost(self.rows@ + r as nat);
        }
        self.in_flight = None;
    }

    /// Records that the writer failed on the batch in flight: nothing more is sent,
    /// and the batches still queued are dropped and counted.
    pub fn send_failed(&mut self, message: String)
        requires
            old(self).wf(),
            old(self)@.in_flight is Some,
        ensures
            final(self).wf(),
            final(self)@ == old(self)@.send_failed(),
            final(self).last_error_spec() == Some(message),
    {
        self.discarded = self.queue.len();
        self.queue = Vec::new();
        self.in_flight = None;
        self.state = PipelineState::Failed;
        self.last_error = Some(message);
    }

    /// Stops taking batches; the queued ones are still sent. Fails when a close was
    /// already requested or the stream is finished.
    pub fn close(&mut self) -> (r: Result<(), Error>)
        requires
            old(self).wf(),
        ensures
            final(self).wf(),
            final(self)@ == old(self)@.close(),
            final(self).last_error_spec() == old(self).last_error_spec(),
            old(self)@.can_close() <==> r is Ok,
            r is Err ==> r == Err::<(), Error>(Error::PipelineClosed),
    {
        if self.close_requested || self.state == PipelineState::Finished {
            return Err(Error::PipelineClosed);
        }
        self.close_requested = true;
        if self.state == PipelineState::Open {
            self.state = PipelineState::Draining;
        }
        Ok(())
    }

    /// Whether the writer is now due its one call to `finish`.
    pub fn finish_due(&self) -> (r: bool)
        ensures
            r == self@.finish_due(),
    {
        self.close_requested && self.in_flight.is_none() && (self.state == PipelineState::Failed
            || (self.state == PipelineState::Draining && self.queue.len() == 0))
    }

    /// Records the writer's answer to `finish` and ends the pipeline. The result is
    /// the writer's count of rows written, or an error where a send or the finish
    /// itself failed.
    pub fn finish(&mut self, outcome: Result<u64, String>) -> (r: Result<u64, Error>)
        requires
            old(self).wf(),
            old(self)@.finish_due(),
        ensures
            final(self).wf(),
            final(self)@ == old(self)@.finish(),
            old(self)@.state == PipelineState::Failed ==> r == Err::<u64, Error>(Error::TransportError),
            old(self)@.state != PipelineState::Failed ==> r == match outcome {
                Ok(n) => Ok::<u64, Error>(n),
                Err(_) => Err::<u64, Error>(Error::TransportError),
            },
            old(self)@.state != PipelineState::Failed ==> final(self).last_error_spec() == match outcome {
                Ok(_) => old(self).last_error_spec(),
                Err(e) => Some(e),
            },
    {
        let failed = self.state == PipelineState::Failed;
        self.state = PipelineState::Finished;
        if failed {
            return Err(Error::TransportError);
        }
        match outcome {
            Ok(n) => Ok(n),
            Err(e) => {
                self.last_error = Some(e);
                Err(Error::TransportError)
            },
        }
    }

    pub fn state(&self) -> (r: PipelineState)
        ensures
            r == self@.state,
    {
        self.state
    }

    pub fn is_closed(&self) -> (r: bool)
        ensures
            r == (self@.state == PipelineState::Failed || self@.state == PipelineState::Finished),
    {
        self.state == PipelineState::Failed || self.state == PipelineState::Finished
    }

    pub fn capacity(&self) -> (r: usize)
        ensures
            r == self@.capacity,
    {
        self.capacity
    }

    /// How many batches wait in the queue.
    pub fn queued(&self) -> (r: usize)
        ensures
            r == self@.queue.len(),
    {
        self.queue.len()
    }

    /// Rows of all batches the writer accepted, saturating at the largest `u64`.
    pub fn rows_sent(&self) -> (r: u64)
        requires
            self.wf(),
        ensures
            r == saturate(self@.rows),
    {
        self.rows_sent
    }

    /// How many queued batches were dropped when a send failed.
    pub fn discarded(&self) -> (r: usize)
        ensures
            r == self@.discarded,
    {
        self.discarded
    }

    /// The message of the failure that ended the pipeline, if any.
    pub fn last_error(&self) -> (r: &Option<String>)
        ensures
            *r == self.last_error_spec(),
    {
        &self.last_error
    }
}

/// Offering batches to an open pipeline with room for all of them queues them in order.
proof fn lemma_enqueue_all_appends(m: InserterModel, bs: Seq<Batch>)
    requires
        m.state == PipelineState::Open,
        m.queue.len() + bs.len() <= m.capacity,
    ensures
        m.enqueue_all(bs) == (InserterModel { queue: m.queue + bs, accepted: m.accepted + bs, ..m }),
    decreases bs.len(),
{
    if bs.len() == 0 {
        assert(m.queue + bs =~= m.queue);
        assert(m.accepted + bs =~= m.accepted);
    } else {
        let n = m.enqueue(bs[0]);
        lemma_enqueue_all_appends(n, bs.drop_first());
        assert(n.queue + bs.drop_first() =~= m.queue + bs);
        assert(n.accepted + bs.drop_first() =~= m.accepted + bs);
    }
}

/// Draining with every send succeeding hands the queue to the writer in order.
proof fn lemma_drain_ok_sends_queue(m: InserterModel)
    requires
        m.state == PipelineState::Draining,
        m.in_flight is None,
    ensures
        m.drain_ok() == (InserterModel {
            queue: Seq::empty(),
            sent: m.sent + m.queue,
            rows: m.rows + rows_of(m.queue),
            ..m
        }),
    decreases m.queue.len(),
{
    if m.queue.len() == 0 {
        assert(m.sent + m.queue =~= m.sent);
        assert(m.queue =~= Seq::<Batch>::empty());
    } else {
        let n = m.start_send().send_ok();
        lemma_drain_ok_sends_queue(n);
        assert(n.sent + n.queue =~= m.sent + m.queue);
    }
}

/// Batches offered to a fresh pipeline with room for them all, then closed and drained
/// with every send succeeding, reach the writer exactly in the order they were offered;
/// the rows acknowledged are the rows of all of them, and the stream is then due to be
/// finished.
pub proof fn lemma_delivered_in_order(capacity: nat, bs: Seq<Batch>)
    requires
        bs.len() <= capacity,
    ensures
        InserterModel::fresh(capacity).enqueue_all(bs).close().drain_ok().sent == bs,
        InserterModel::fresh(capacity).enqueue_all(bs).close().drain_ok().rows == rows_of(bs),
        InserterModel::fresh(capacity).enqueue_all(bs).close().drain_ok().discarded == 0,
        InserterModel::fresh(capacity).enqueue_all(bs).close().drain_ok().finish_due(),
{
    let m0 = InserterModel::fresh(capacity);
    lemma_enqueue_all_appends(m0, bs);
    assert(m0.queue + bs =~= bs);
    assert(m0.accepted + bs =~= bs);
    let m1 = m0.enqueue_all(bs).close();
    lemma_drain_ok_sends_queue(m1);
    assert(m1.sent + m1.queue =~= bs);
}

/// After a send fails, the pipeline hands nothing more to the writer and takes no
/// batch; the batches that were queued are counted as dropped, so the writer has
/// received fewer batches than were queued whenever any was still waiting.
pub proof fn lemma_send_failure_halts(m: InserterModel, b: Batch)
    requires
        m.in_flight is Some,
    ensures
        m.send_failed().state == PipelineState::Failed,
        !m.send_failed().can_send(),
        m.send_failed().start_send() == m.send_failed(),
        m.send_failed().enqueue(b) == m.send_failed(),
        m.send_failed().sent == m.sent,
        m.send_failed().sent.len() + m.send_failed().discarded == m.sent.len() + m.queue.len()
            + m.discarded,
        m.send_failed().queue.len() == 0,
{
}

impl InserterModel {
    /// The batches handed to the writer followed by those still queued are exactly
    /// the batches the queue took, in the order it took them.
    pub open spec fn order_kept(self) -> bool {
        self.sent + self.queue == self.accepted
    }
}

/// Until a send fails, the pipeline keeps the order of its batches: in a state where
/// the batches handed to the writer and those still queued make up, in order, all the
/// batches taken, every step but a failed send leads to another such state, whatever
/// the interleaving of producers and writer. A fresh pipeline is such a state.
pub proof fn lemma_order_kept(m: InserterModel, b: Batch, capacity: nat)
    requires
        m.order_kept(),
    ensures
        InserterModel::fresh(capacity).order_kept(),
        m.enqueue(b).order_kept(),
        m.start_send().order_kept(),
        m.send_ok().order_kept(),
        m.close().order_kept(),
        m.finish().order_kept(),
        m.can_send() ==> m.start_send().sent.last() == m.queue[0],
{
    assert(InserterModel::fresh(capacity).sent + InserterModel::fresh(capacity).queue
        =~= InserterModel::fresh(capacity).accepted);
    if m.state == PipelineState::Open && m.has_room() {
        assert(m.sent + m.queue.push(b) =~= (m.sent + m.queue).push(b));
    }
    if m.can_send() {
        assert(m.sent.push(m.queue[0]) + m.queue.drop_first() =~= m.sent + m.queue);
    }
}

} // verus!
