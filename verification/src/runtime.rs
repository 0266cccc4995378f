//! An executable model of the running stream, and the delivery guarantees
//! proved over it.
//!
//! The real runtime is a set of cooperating asynchronous tasks: one ingest,
//! `thread_num` workers, one sink, joined by two bounded queues. The model
//! keeps exactly the state those tasks share — the two queues, the stream
//! state, the fired acknowledgement tokens, the written batches — and exposes
//! one operation per task step. The embedding drives the same decisions
//! through `crate::stream`'s step functions; the model is where the delivery
//! properties are stated and proved:
//!
//! * an acknowledgement token is fired at most once, and a token still in
//!   flight has never been fired;
//! * the sink fires a group's ack exactly when every write of the group
//!   succeeded;
//! * once draining, nothing new enters the ingest queue;
//! * the in-flight count never exceeds the two queue capacities, `4 ×
//!   thread_num` each.

use crate::ack::Ack;
use crate::batch::{ContentV, MessageBatch};
use crate::error::Error;
use crate::stream::{should_ack, worker_step, StreamState, WorkerAction};
use vstd::prelude::*;
use vstd::multiset::Multiset;
use vstd::seq_lib::lemma_multiset_commutative;

verus! {

/// The delivery tokens of a queue of `(batch, ack)` pairs, in queue order.
pub open spec fn pair_tokens(q: Seq<(MessageBatch, Ack)>) -> Seq<u64>
    decreases q.len(),
{
    if q.len() == 0 {
        Seq::empty()
    } else {
        q[0].1@ + pair_tokens(q.drop_first())
    }
}

/// The delivery tokens of a queue of `(batches, ack)` groups, in queue order.
pub open spec fn group_tokens(q: Seq<(Vec<MessageBatch>, Ack)>) -> Seq<u64>
    decreases q.len(),
{
    if q.len() == 0 {
        Seq::empty()
    } else {
        q[0].1@ + group_tokens(q.drop_first())
    }
}

/// Appending a pair appends its tokens.
proof fn lemma_pair_tokens_push(q: Seq<(MessageBatch, Ack)>, p: (MessageBatch, Ack))
    ensures
        pair_tokens(q.push(p)) == pair_tokens(q) + p.1@,
    decreases q.len(),
{
    let qp = q.push(p);
    assert(qp.len() == q.len() + 1);
    if q.len() == 0 {
        assert(qp[0] == p);
        assert(qp.drop_first() =~= Seq::<(MessageBatch, Ack)>::empty());
        assert(pair_tokens(qp.drop_first()) == Seq::<u64>::empty());
        assert(pair_tokens(qp) == p.1@ + Seq::<u64>::empty());
        assert(pair_tokens(q) == Seq::<u64>::empty());
        assert(pair_tokens(qp) =~= pair_tokens(q) + p.1@);
    } else {
        assert(qp[0] == q[0]);
        assert(qp.drop_first() =~= q.drop_first().push(p));
        lemma_pair_tokens_push(q.drop_first(), p);
        assert(pair_tokens(qp) == q[0].1@ + (pair_tokens(q.drop_first()) + p.1@));
        assert(pair_tokens(q) == q[0].1@ + pair_tokens(q.drop_first()));
        assert(pair_tokens(qp) =~= pair_tokens(q) + p.1@);
    }
}

/// Appending a group appends its tokens.
proof fn lemma_group_tokens_push(q: Seq<(Vec<MessageBatch>, Ack)>, p: (Vec<MessageBatch>, Ack))
    ensures
        group_tokens(q.push(p)) == group_tokens(q) + p.1@,
    decreases q.len(),
{
    let qp = q.push(p);
    assert(qp.len() == q.len() + 1);
    if q.len() == 0 {
        assert(qp[0] == p);
        assert(qp.drop_first() =~= Seq::<(Vec<MessageBatch>, Ack)>::empty());
        assert(group_tokens(qp.drop_first()) == Seq::<u64>::empty());
        assert(group_tokens(qp) == p.1@ + Seq::<u64>::empty());
        assert(group_tokens(q) == Seq::<u64>::empty());
        assert(group_tokens(qp) =~= group_tokens(q) + p.1@);
    } else {
        assert(qp[0] == q[0]);
        assert(qp.drop_first() =~= q.drop_first().push(p));
        lemma_group_tokens_push(q.drop_first(), p);
        assert(group_tokens(qp) == q[0].1@ + (group_tokens(q.drop_first()) + p.1@));
        assert(group_tokens(q) == q[0].1@ + group_tokens(q.drop_first()));
        assert(group_tokens(qp) =~= group_tokens(q) + p.1@);
    }
}

/// An empty token list contributes nothing to any count.
proof fn lemma_empty_tokens_count(t: u64)
    ensures
        Seq::<u64>::empty().to_multiset().count(t) == 0,
{
    Seq::<u64>::empty().to_multiset_ensures();
    assert(!Seq::<u64>::empty().contains(t));
}

/// The batches of a group that were written, given one outcome per batch.
pub open spec fn kept_views(batches: Seq<ContentV>, results: Seq<bool>) -> Seq<ContentV>
    recommends
        batches.len() == results.len(),
    decreases batches.len(),
{
    if batches.len() == 0 {
        Seq::empty()
    } else {
        kept_views(batches.drop_last(), results.drop_last()) + (if results.last()
            && results.len() == batches.len() {
            seq![batches.last()]
        } else {
            Seq::empty()
        })
    }
}

/// The shared state of a running stream: the two bounded queues, the stream
/// state, the fired tokens and the written batches.
pub struct StreamModel {
    thread_num: u32,
    state: StreamState,
    in_q: Vec<(MessageBatch, Ack)>,
    out_q: Vec<(Vec<MessageBatch>, Ack)>,
    acked: Vec<u64>,
    written: Vec<MessageBatch>,
}

impl StreamModel {
    /// The worker count.
    pub closed spec fn spec_thread_num(self) -> u32 {
        self.thread_num
    }

    /// Where the stream is in its life.
    pub closed spec fn spec_state(self) -> StreamState {
        self.state
    }

    /// The ingest queue, oldest first.
    pub closed spec fn spec_in_q(self) -> Seq<(MessageBatch, Ack)> {
        self.in_q@
    }

    /// The sink queue, oldest first.
    pub closed spec fn spec_out_q(self) -> Seq<(Vec<MessageBatch>, Ack)> {
        self.out_q@
    }

    /// Every fired token, in firing order.
    pub closed spec fn spec_acked(self) -> Seq<u64> {
        self.acked@
    }

    /// Every successfully written batch, in write order.
    pub closed spec fn spec_written(self) -> Seq<ContentV> {
        self.written@.map_values(|b: MessageBatch| b@)
    }

    /// Every token currently travelling through the two queues.
    pub open spec fn spec_in_flight_tokens(self) -> Seq<u64> {
        pair_tokens(self.spec_in_q()) + group_tokens(self.spec_out_q())
    }

    /// Every token the model has seen, fired or not, as a multiset.
    pub open spec fn tokens_ms(self) -> Multiset<u64> {
        pair_tokens(self.spec_in_q()).to_multiset().add(
            group_tokens(self.spec_out_q()).to_multiset(),
        ).add(self.spec_acked().to_multiset())
    }

    /// The standing invariant: at least one worker, both queues within their
    /// `4 × thread_num` capacity, and every token held at most once across
    /// the queues and the fired list.
    pub open spec fn wf(self) -> bool {
        &&& self.spec_thread_num() >= 1
        &&& self.spec_in_q().len() <= 4 * self.spec_thread_num()
        &&& self.spec_out_q().len() <= 4 * self.spec_thread_num()
        &&& forall|t: u64| self.tokens_ms().count(t) <= 1
    }

    /// A stream that connected its input and output and is about to start.
    pub fn new(thread_num: u32) -> (r: StreamModel)
        requires
            thread_num >= 1,
        ensures
            r.wf(),
            r.spec_state() == StreamState::Building,
            r.spec_in_q().len() == 0,
            r.spec_out_q().len() == 0,
            r.spec_acked().len() == 0,
            r.spec_written().len() == 0,
            r.spec_thread_num() == thread_num,
    {
        let r = StreamModel {
            thread_num,
            state: StreamState::Building,
            in_q: Vec::new(),
            out_q: Vec::new(),
            acked: Vec::new(),
            written: Vec::new(),
        };
        proof {
            assert(r.spec_written() =~= Seq::<ContentV>::empty());
            assert forall|t: u64| r.tokens_ms().count(t) <= 1 by {
                lemma_empty_tokens_count(t);
                assert(pair_tokens(r.spec_in_q()) == Seq::<u64>::empty());
                assert(group_tokens(r.spec_out_q()) == Seq::<u64>::empty());
                assert(r.spec_acked() == Seq::<u64>::empty());
            }
        }
        r
    }

    /// Both connects succeeded: the tasks start and the stream runs.
    pub fn start(&mut self)
        requires
            old(self).wf(),
            old(self).spec_state() == StreamState::Building,
        ensures
            final(self).wf(),
            final(self).spec_state() == StreamState::Running,
            final(self).spec_in_q() == old(self).spec_in_q(),
            final(self).spec_out_q() == old(self).spec_out_q(),
            final(self).spec_acked() == old(self).spec_acked(),
            final(self).spec_written() == old(self).spec_written(),
            final(self).spec_thread_num() == old(self).spec_thread_num(),
    {
        self.state = StreamState::Running;
        proof {
            assert(self.tokens_ms() == old(self).tokens_ms());
            assert forall|t: u64| self.tokens_ms().count(t) <= 1 by {
                assert(old(self).tokens_ms().count(t) <= 1);
            }
        }
    }

    /// A connect failed: startup aborts and the stream closes directly, with
    /// nothing read, processed, written or acknowledged.
    pub fn abort_startup(&mut self)
        requires
            old(self).wf(),
            old(self).spec_state() == StreamState::Building,
        ensures
            final(self).wf(),
            final(self).spec_state() == StreamState::Closed,
            final(self).spec_in_q() == old(self).spec_in_q(),
            final(self).spec_out_q() == old(self).spec_out_q(),
            final(self).spec_acked() == old(self).spec_acked(),
            final(self).spec_written() == old(self).spec_written(),
            final(self).spec_thread_num() == old(self).spec_thread_num(),
    {
        self.state = StreamState::Closed;
        proof {
            assert(self.tokens_ms() == old(self).tokens_ms());
            assert forall|t: u64| self.tokens_ms().count(t) <= 1 by {
                assert(old(self).tokens_ms().count(t) <= 1);
            }
        }
    }

    /// A signal arrived or the source reported EOF: the stream drains. The
    /// queues keep whatever is in flight; nothing is cancelled mid-pipeline.
    pub fn begin_drain(&mut self)
        requires
            old(self).wf(),
            old(self).spec_state() == StreamState::Running,
        ensures
            final(self).wf(),
            final(self).spec_state() == StreamState::Draining,
            final(self).spec_in_q() == old(self).spec_in_q(),
            final(self).spec_out_q() == old(self).spec_out_q(),
            final(self).spec_acked() == old(self).spec_acked(),
            final(self).spec_written() == old(self).spec_written(),
            final(self).spec_thread_num() == old(self).spec_thread_num(),
    {
        self.state = StreamState::Draining;
        proof {
            assert(self.tokens_ms() == old(self).tokens_ms());
            assert forall|t: u64| self.tokens_ms().count(t) <= 1 by {
                assert(old(self).tokens_ms().count(t) <= 1);
            }
        }
    }

    /// Both queues drained and every task joined: the components close and
    /// the stream is done.
    pub fn finish(&mut self)
        requires
            old(self).wf(),
            old(self).spec_state() == StreamState::Draining,
            old(self).spec_in_q().len() == 0,
            old(self).spec_out_q().len() == 0,
        ensures
            final(self).wf(),
            final(self).spec_state() == StreamState::Closed,
            final(self).spec_acked() == old(self).spec_acked(),
            final(self).spec_written() == old(self).spec_written(),
    {
        self.state = StreamState::Closed;
        proof {
            assert(self.tokens_ms() == old(self).tokens_ms());
            assert forall|t: u64| self.tokens_ms().count(t) <= 1 by {
                assert(old(self).tokens_ms().count(t) <= 1);
            }
        }
    }

    /// Where the stream is in its life.
    pub fn state(&self) -> (r: StreamState)
        ensures
            r == self.spec_state(),
    {
        self.state
    }

    /// How many entries are in flight across the two queues.
    pub fn in_flight(&self) -> (r: u64)
        requires
            self.wf(),
        ensures
            r == self.spec_in_q().len() + self.spec_out_q().len(),
    {
        (self.in_q.len() as u64) + (self.out_q.len() as u64)
    }

    /// The fired tokens, in firing order.
    pub fn acked_tokens(&self) -> (r: &Vec<u64>)
        ensures
            r@ == self.spec_acked(),
    {
        &self.acked
    }

    /// The written batches, in write order.
    pub fn written_batches(&self) -> (r: &Vec<MessageBatch>)
        ensures
            r@.map_values(|b: MessageBatch| b@) == self.spec_written(),
    {
        &self.written
    }

    /// The ingest task forwards one batch into the ingest queue. The push is
    /// accepted only while the stream runs and the queue is below its
    /// capacity of `4 × thread_num`; a full queue blocks the ingest, which is
    /// how backpressure reaches the source. The ack must be fresh: none of
    /// its tokens has been seen before.
    pub fn push_input(&mut self, batch: MessageBatch, ack: Ack) -> (accepted: bool)
        requires
            old(self).wf(),
            forall|t: u64|
                old(self).tokens_ms().count(t) + ack@.to_multiset().count(t) <= 1,
        ensures
            final(self).wf(),
            accepted <==> (old(self).spec_state() == StreamState::Running && old(
                self,
            ).spec_in_q().len() < 4 * old(self).spec_thread_num()),
            accepted ==> final(self).spec_in_q() == old(self).spec_in_q().push((batch, ack)),
            !accepted ==> *final(self) == *old(self),
            final(self).spec_out_q() == old(self).spec_out_q(),
            final(self).spec_acked() == old(self).spec_acked(),
            final(self).spec_written() == old(self).spec_written(),
            final(self).spec_state() == old(self).spec_state(),
            final(self).spec_thread_num() == old(self).spec_thread_num(),
    {
        let running = match self.state {
            StreamState::Running => true,
            _ => false,
        };
        let cap = 4u64 * (self.thread_num as u64);
        if !running || self.in_q.len() as u64 >= cap {
            return false;
        }
        self.in_q.push((batch, ack));
        proof {
            lemma_pair_tokens_push(old(self).spec_in_q(), (batch, ack));
            lemma_multiset_commutative(pair_tokens(old(self).spec_in_q()), ack@);
            assert forall|t: u64| final(self).tokens_ms().count(t) <= 1 by {
                assert(final(self).tokens_ms().count(t) == old(self).tokens_ms().count(t)
                    + ack@.to_multiset().count(t));
            }
        }
        true
    }

    /// One worker takes the oldest queued batch and applies the pipeline;
    /// `processed` is the pipeline's result for it. Success sends the output
    /// group onward with the untouched ack; a processor error discards the
    /// batch, whose ack then never fires. The worker blocks while the sink
    /// queue is full, so the step requires room there.
    pub fn worker_apply(&mut self, processed: Result<Vec<MessageBatch>, Error>) -> (sent: bool)
        requires
            old(self).wf(),
            old(self).spec_in_q().len() > 0,
            old(self).spec_out_q().len() < 4 * old(self).spec_thread_num(),
        ensures
            final(self).wf(),
            final(self).spec_in_q() == old(self).spec_in_q().drop_first(),
            sent <==> processed is Ok,
            processed matches Ok(batches) ==> final(self).spec_out_q() == old(
                self,
            ).spec_out_q().push((batches, old(self).spec_in_q()[0].1)),
            processed is Err ==> final(self).spec_out_q() == old(self).spec_out_q(),
            final(self).spec_acked() == old(self).spec_acked(),
            final(self).spec_written() == old(self).spec_written(),
            final(self).spec_state() == old(self).spec_state(),
            final(self).spec_thread_num() == old(self).spec_thread_num(),
    {
        let pair = self.in_q.remove(0);
        let ghost head = old(self).spec_in_q()[0];
        let ghost x = head.1@;
        proof {
            assert(self.in_q@ =~= old(self).spec_in_q().drop_first());
            assert(pair_tokens(old(self).spec_in_q()) == x + pair_tokens(self.in_q@));
            lemma_multiset_commutative(x, pair_tokens(self.in_q@));
        }
        let (_batch, ack) = pair;
        match worker_step(processed, ack) {
            WorkerAction::Send(batches, ack2) => {
                proof {
                    lemma_group_tokens_push(old(self).spec_out_q(), (batches, ack2));
                }
                self.out_q.push((batches, ack2));
                proof {
                    lemma_multiset_commutative(group_tokens(old(self).spec_out_q()), ack2@);
                    assert(ack2@.to_multiset() =~= x.to_multiset()) by {
                        assert(ack2@ == x);
                    }
                    assert forall|t: u64| final(self).tokens_ms().count(t) <= 1 by {
                        assert(final(self).tokens_ms().count(t) == old(self).tokens_ms().count(t));
                    }
                }
                true
            },
            WorkerAction::Discard => {
                proof {
                    assert forall|t: u64| final(self).tokens_ms().count(t) <= 1 by {
                        assert(final(self).tokens_ms().count(t) + x.to_multiset().count(t) == old(
                            self,
                        ).tokens_ms().count(t));
                    }
                }
                false
            },
        }
    }

    /// The sink takes the oldest output group; `write_results` holds the
    /// outcome of writing each of its batches, in order. The successfully
    /// written batches are recorded; the group's ack fires — all its tokens,
    /// exactly once each — precisely when every write succeeded. Otherwise
    /// nothing fires and the source may redeliver.
    pub fn sink_apply(&mut self, write_results: &Vec<bool>) -> (fired: Option<Vec<u64>>)
        requires
            old(self).wf(),
            old(self).spec_out_q().len() > 0,
            write_results@.len() == old(self).spec_out_q()[0].0@.len(),
        ensures
            final(self).wf(),
            final(self).spec_out_q() == old(self).spec_out_q().drop_first(),
            final(self).spec_in_q() == old(self).spec_in_q(),
            fired is Some <==> (forall|i: int| 0 <= i < write_results@.len() ==> write_results@[i]),
            fired matches Some(tokens) ==> {
                &&& tokens@ == old(self).spec_out_q()[0].1@
                &&& final(self).spec_acked() == old(self).spec_acked() + tokens@
            },
            fired is None ==> final(self).spec_acked() == old(self).spec_acked(),
            final(self).spec_written() == old(self).spec_written() + kept_views(
                old(self).spec_out_q()[0].0@.map_values(|b: MessageBatch| b@),
                write_results@,
            ),
            final(self).spec_state() == old(self).spec_state(),
            final(self).spec_thread_num() == old(self).spec_thread_num(),
    {
        let group = self.out_q.remove(0);
        let ghost head = old(self).spec_out_q()[0];
        let ghost x = head.1@;
        proof {
            assert(self.out_q@ =~= old(self).spec_out_q().drop_first());
            assert(group_tokens(old(self).spec_out_q()) == x + group_tokens(self.out_q@));
            lemma_multiset_commutative(x, group_tokens(self.out_q@));
        }
        let (batches, ack) = group;
        let ghost written_before = self.written@;
        let n = batches.len();
        let mut i: usize = 0;
        while i < n
            invariant
                i <= n,
                n == batches@.len(),
                n == write_results@.len(),
                self.written@.map_values(|b: MessageBatch| b@) == written_before.map_values(
                    |b: MessageBatch| b@,
                ) + kept_views(
                    batches@.take(i as int).map_values(|b: MessageBatch| b@),
                    write_results@.take(i as int),
                ),
                self.in_q@ == old(self).spec_in_q(),
                self.out_q@ == old(self).spec_out_q().drop_first(),
                self.acked@ == old(self).spec_acked(),
                self.state == old(self).spec_state(),
                self.thread_num == old(self).spec_thread_num(),
            decreases n - i,
        {
            let ghost wpre = self.written@;
            if write_results[i] {
                let c = batches[i].clone();
                proof {
                    assert(c@ == batches@[i as int]@);
                }
                self.written.push(c);
                proof {
                    assert(self.written@.map_values(|b: MessageBatch| b@) =~= wpre.map_values(
                        |b: MessageBatch| b@,
                    ).push(batches@[i as int]@));
                }
            }
            proof {
                let bv = batches@.take(i + 1 as int).map_values(|b: MessageBatch| b@);
                let rv = write_results@.take(i + 1 as int);
                assert(bv.len() == i + 1);
                assert(rv.len() == i + 1);
                assert(bv.last() == batches@[i as int]@) by {
                    assert(batches@.take(i + 1 as int)[i as int] == batches@[i as int]);
                }
                assert(rv.last() == write_results@[i as int]);
                assert(bv.drop_last() =~= batches@.take(i as int).map_values(
                    |b: MessageBatch| b@,
                )) by {
                    assert(batches@.take(i + 1 as int).drop_last() =~= batches@.take(i as int));
                }
                assert(rv.drop_last() =~= write_results@.take(i as int));
                assert(kept_views(bv, rv) == kept_views(
                    batches@.take(i as int).map_values(|b: MessageBatch| b@),
                    write_results@.take(i as int),
                ) + (if write_results@[i as int] {
                    seq![batches@[i as int]@]
                } else {
                    Seq::<ContentV>::empty()
                }));
                assert(self.written@.map_values(|b: MessageBatch| b@) =~= written_before.map_values(
                    |b: MessageBatch| b@,
                ) + kept_views(bv, rv));
            }
            i = i + 1;
        }
        proof {
            assert(batches@.take(n as int) =~= batches@);
            assert(write_results@.take(n as int) =~= write_results@);
        }
        if should_ack(write_results) {
            let mut tokens = ack.fire();
            let ghost fired_tokens = tokens@;
            proof {
                assert(fired_tokens == x);
            }
            let mut k: usize = 0;
            let m = tokens.len();
            while k < m
                invariant
                    k <= m,
                    m == tokens@.len(),
                    tokens@ == fired_tokens,
                    self.acked@ == old(self).spec_acked() + fired_tokens.take(k as int),
                    self.in_q@ == old(self).spec_in_q(),
                    self.out_q@ == old(self).spec_out_q().drop_first(),
                    self.written@.map_values(|b: MessageBatch| b@) == written_before.map_values(
                        |b: MessageBatch| b@,
                    ) + kept_views(
                        batches@.map_values(|b: MessageBatch| b@),
                        write_results@,
                    ),
                    self.state == old(self).spec_state(),
                    self.thread_num == old(self).spec_thread_num(),
                decreases m - k,
            {
                self.acked.push(tokens[k]);
                proof {
                    assert(self.acked@ =~= old(self).spec_acked() + fired_tokens.take(
                        k + 1 as int,
                    ));
                }
                k = k + 1;
            }
            proof {
                assert(fired_tokens.take(m as int) =~= fired_tokens);
                lemma_multiset_commutative(old(self).spec_acked(), fired_tokens);
                assert forall|t: u64| final(self).tokens_ms().count(t) <= 1 by {
                    assert(final(self).tokens_ms().count(t) == old(self).tokens_ms().count(t));
                }
            }
            Some(tokens)
        } else {
            proof {
                assert forall|t: u64| final(self).tokens_ms().count(t) <= 1 by {
                    assert(final(self).tokens_ms().count(t) + x.to_multiset().count(t) == old(
                        self,
                    ).tokens_ms().count(t));
                }
            }
            None
        }
    }
}

/// At-least-once, for one batch: given the pipeline's result for the batch
/// and the outcome of every write of its output group, the batch's ack fires
/// — all its tokens, once — exactly when the pipeline succeeded and every
/// write succeeded; on a processor error or any failed write nothing fires
/// and the source may redeliver.
pub fn process_and_ack(
    processed: Result<Vec<MessageBatch>, Error>,
    ack: Ack,
    write_results: &Vec<bool>,
) -> (fired: Option<Vec<u64>>)
    requires
        processed matches Ok(batches) ==> write_results@.len() == batches@.len(),
    ensures
        fired is Some <==> (processed is Ok && forall|i: int|
            0 <= i < write_results@.len() ==> write_results@[i]),
        fired matches Some(tokens) ==> tokens@ == ack@,
{
    match worker_step(processed, ack) {
        WorkerAction::Send(_batches, group_ack) => {
            if should_ack(write_results) {
                Some(group_ack.fire())
            } else {
                None
            }
        },
        WorkerAction::Discard => None,
    }
}

/// Bounded memory: with both queues within their `4 × thread_num` capacity
/// and a coalescing buffer within its configured capacity, the in-flight
/// count never exceeds `8 × thread_num` plus the buffer capacity.
pub proof fn lemma_bounded_in_flight(m: StreamModel, buffered: nat, buffer_capacity: nat)
    requires
        m.wf(),
        buffered <= buffer_capacity,
    ensures
        m.spec_in_q().len() + m.spec_out_q().len() + buffered <= 8 * m.spec_thread_num()
            + buffer_capacity,
{
}

/// No loss on graceful shutdown: in every reachable state — in particular
/// while draining after a signal, when nothing new enters the ingest queue —
/// every token has fired at most once, and a token still travelling through
/// the queues has never fired. A token fires only in the sink step that saw
/// every write of its group succeed; every other token stays unfired, and
/// its source may redeliver the batch.
pub proof fn lemma_no_loss_on_shutdown(m: StreamModel)
    requires
        m.wf(),
    ensures
        forall|t: u64| m.spec_acked().to_multiset().count(t) <= 1,
        forall|t: u64|
            m.spec_in_flight_tokens().to_multiset().count(t) > 0
                ==> m.spec_acked().to_multiset().count(t) == 0,
{
    assert forall|t: u64| m.spec_acked().to_multiset().count(t) <= 1 by {
        assert(m.tokens_ms().count(t) <= 1);
    }
    assert forall|t: u64|
        m.spec_in_flight_tokens().to_multiset().count(t) > 0 implies m.spec_acked().to_multiset().count(
        t,
    ) == 0 by {
        lemma_multiset_commutative(pair_tokens(m.spec_in_q()), group_tokens(m.spec_out_q()));
        assert(m.tokens_ms().count(t) <= 1);
    }
}

} // verus!
