//! The stream runtime's structure and decisions.
//!
//! A stream wires one input into `thread_num` parallel workers and one
//! output, through two bounded queues of capacity `4 × thread_num` each, with
//! an optional coalescing buffer between workers and sink. The loops
//! themselves are asynchronous and live in the embedding; this module fixes
//! every decision they take: how an ingest reacts to each read outcome, how a
//! worker treats a pipeline result, when the sink acknowledges, in which
//! order components close, and how the queues are sized.

use crate::ack::Ack;
use crate::batch::MessageBatch;
use crate::error::Error;
use crate::pipeline::Pipeline;
use vstd::prelude::*;

verus! {

/// The life of a stream: built, running, draining after a signal or EOF,
/// and closed once every task has joined and every component is closed.
#[derive(Clone, Copy, Debug, PartialEq, Eq, Structural)]
pub enum StreamState {
    Building,
    Running,
    Draining,
    Closed,
}

/// The component kinds of a stream, in the roles they close under.
#[derive(Clone, Copy, Debug, PartialEq, Eq, Structural)]
pub enum ComponentKind {
    Input,
    Pipeline,
    Buffer,
    Output,
}

/// A stream bound to resolved builder handles: one input, a pipeline of
/// processors, one output, a worker count, and optionally a buffer.
pub struct Stream {
    input: u64,
    pipeline: Pipeline<u64>,
    output: u64,
    thread_num: u32,
    buffer: Option<u64>,
}

impl Stream {
    /// The resolved input builder handle.
    pub closed spec fn spec_input(self) -> u64 {
        self.input
    }

    /// The resolved output builder handle.
    pub closed spec fn spec_output(self) -> u64 {
        self.output
    }

    /// The pipeline of resolved processor builder handles.
    pub closed spec fn spec_pipeline(self) -> Pipeline<u64> {
        self.pipeline
    }

    /// The worker count.
    pub closed spec fn spec_thread_num(self) -> u32 {
        self.thread_num
    }

    /// The resolved buffer builder handle, when a buffer is configured.
    pub closed spec fn spec_buffer(self) -> Option<u64> {
        self.buffer
    }

    /// Create a new stream without a buffer.
    pub fn new(input: u64, pipeline: Pipeline<u64>, output: u64, thread_num: u32) -> (r: Stream)
        ensures
            r.spec_input() == input,
            r.spec_pipeline() == pipeline,
            r.spec_output() == output,
            r.spec_thread_num() == thread_num,
            r.spec_buffer() is None,
    {
        Stream { input, pipeline, output, thread_num, buffer: None }
    }

    /// The same stream with a coalescing buffer wired between workers and
    /// sink.
    pub fn with_buffer(self, buffer: u64) -> (r: Stream)
        ensures
            r.spec_input() == self.spec_input(),
            r.spec_pipeline() == self.spec_pipeline(),
            r.spec_output() == self.spec_output(),
            r.spec_thread_num() == self.spec_thread_num(),
            r.spec_buffer() == Some(buffer),
    {
        Stream { buffer: Some(buffer), ..self }
    }

    /// The worker count.
    pub fn thread_num(&self) -> (r: u32)
        ensures
            r == self.spec_thread_num(),
    {
        self.thread_num
    }

    /// The capacity of the queue from ingest to workers: `4 × thread_num`.
    pub fn in_queue_capacity(&self) -> (r: u64)
        ensures
            r == 4 * self.spec_thread_num(),
    {
        4u64 * (self.thread_num as u64)
    }

    /// The capacity of the queue from workers to sink: `4 × thread_num`.
    pub fn out_queue_capacity(&self) -> (r: u64)
        ensures
            r == 4 * self.spec_thread_num(),
    {
        4u64 * (self.thread_num as u64)
    }

    /// The input builder handle.
    pub fn input(&self) -> (r: u64)
        ensures
            r == self.spec_input(),
    {
        self.input
    }

    /// The output builder handle.
    pub fn output(&self) -> (r: u64)
        ensures
            r == self.spec_output(),
    {
        self.output
    }

    /// The buffer builder handle, when a buffer is configured.
    pub fn buffer(&self) -> (r: Option<u64>)
        ensures
            r == self.spec_buffer(),
    {
        self.buffer
    }

    /// How many processors the pipeline has.
    pub fn pipeline_len(&self) -> (r: usize)
        ensures
            r == self.spec_pipeline().spec_len(),
    {
        self.pipeline.size()
    }

    /// The order in which components close once every task has joined:
    /// input, then pipeline, then the buffer if one is wired, then output.
    /// Each close runs even if an earlier one failed.
    pub fn close_order(&self) -> (r: Vec<ComponentKind>)
        ensures
            self.spec_buffer() is Some ==> r@ == seq![
                ComponentKind::Input,
                ComponentKind::Pipeline,
                ComponentKind::Buffer,
                ComponentKind::Output,
            ],
            self.spec_buffer() is None ==> r@ == seq![
                ComponentKind::Input,
                ComponentKind::Pipeline,
                ComponentKind::Output,
            ],
    {
        let mut r: Vec<ComponentKind> = Vec::new();
        r.push(ComponentKind::Input);
        r.push(ComponentKind::Pipeline);
        if self.buffer.is_some() {
            r.push(ComponentKind::Buffer);
        }
        r.push(ComponentKind::Output);
        proof {
            if self.spec_buffer() is Some {
                assert(r@ =~= seq![
                    ComponentKind::Input,
                    ComponentKind::Pipeline,
                    ComponentKind::Buffer,
                    ComponentKind::Output,
                ]);
            } else {
                assert(r@ =~= seq![
                    ComponentKind::Input,
                    ComponentKind::Pipeline,
                    ComponentKind::Output,
                ]);
            }
        }
        r
    }
}

/// Which components close when startup aborts: exactly those whose connect
/// had already succeeded, in the order they connected (input before output).
/// Startup failure moves the stream straight from building to closed; no
/// queue exists yet and nothing was read, processed, written or
/// acknowledged.
pub fn abort_close_order(input_connected: bool, output_connected: bool) -> (r: Vec<ComponentKind>)
    ensures
        input_connected && output_connected ==> r@ == seq![
            ComponentKind::Input,
            ComponentKind::Output,
        ],
        input_connected && !output_connected ==> r@ == seq![ComponentKind::Input],
        !input_connected && output_connected ==> r@ == seq![ComponentKind::Output],
        !input_connected && !output_connected ==> r@ == Seq::<ComponentKind>::empty(),
{
    let mut r: Vec<ComponentKind> = Vec::new();
    if input_connected {
        r.push(ComponentKind::Input);
    }
    if output_connected {
        r.push(ComponentKind::Output);
    }
    proof {
        if input_connected && output_connected {
            assert(r@ =~= seq![ComponentKind::Input, ComponentKind::Output]);
        } else if input_connected {
            assert(r@ =~= seq![ComponentKind::Input]);
        } else if output_connected {
            assert(r@ =~= seq![ComponentKind::Output]);
        } else {
            assert(r@ =~= Seq::<ComponentKind>::empty());
        }
    }
    r
}

/// What the ingest task observed: a read outcome or a shutdown signal.
pub enum IngestEvent {
    /// The input produced a batch and its ack.
    Batch(MessageBatch, Ack),
    /// The input read failed.
    ReadError(Error),
    /// An interrupt or terminate signal arrived.
    Signal,
}

/// What the ingest task does next.
pub enum IngestAction {
    /// Forward the batch and its ack into the ingest queue.
    Forward(MessageBatch, Ack),
    /// Exit the ingest loop, closing the ingest queue so workers drain.
    Stop,
    /// Enter the reconnect loop.
    Reconnect,
    /// Log the error and keep reading.
    Continue,
}

/// The ingest task's reaction to one event.
///
/// A batch is forwarded unchanged. A signal stops the ingest, as do `EOF`
/// (the source is drained) and a `Config` error (fatal); stopping closes the
/// ingest queue so the rest of the graph drains. `Disconnection` enters the
/// reconnect loop, and a read `Timeout` — a deadline missed on the link — is
/// treated the same way. Every other read error is logged and reading
/// continues.
pub fn ingest_step(event: IngestEvent) -> (r: IngestAction)
    ensures
        event matches IngestEvent::Batch(b, a) ==> (r matches IngestAction::Forward(b2, a2) && b2
            == b && a2 == a),
        event is Signal ==> r is Stop,
        event matches IngestEvent::ReadError(e) ==> match e {
            Error::EOF => r is Stop,
            Error::Config(_) => r is Stop,
            Error::Disconnection => r is Reconnect,
            Error::Timeout => r is Reconnect,
            _ => r is Continue,
        },
{
    match event {
        IngestEvent::Batch(batch, ack) => IngestAction::Forward(batch, ack),
        IngestEvent::Signal => IngestAction::Stop,
        IngestEvent::ReadError(e) => match e {
            Error::EOF => IngestAction::Stop,
            Error::Config(_) => IngestAction::Stop,
            Error::Disconnection => IngestAction::Reconnect,
            Error::Timeout => IngestAction::Reconnect,
            _ => IngestAction::Continue,
        },
    }
}

/// What the reconnect loop does after one `connect` attempt.
#[derive(Clone, Copy, Debug, PartialEq, Eq, Structural)]
pub enum ReconnectAction {
    /// Connected again: resume reading.
    Resume,
    /// Log the failure and retry after the given pause, in milliseconds.
    RetryAfterMs(u64),
}

/// The reconnect loop's reaction to one `connect` outcome: resume on
/// success, otherwise log and retry after five seconds.
pub fn reconnect_step(connect_result: &Result<(), Error>) -> (r: ReconnectAction)
    ensures
        connect_result is Ok ==> r == ReconnectAction::Resume,
        connect_result is Err ==> r == ReconnectAction::RetryAfterMs(5000),
{
    match connect_result {
        Ok(_) => ReconnectAction::Resume,
        Err(_) => ReconnectAction::RetryAfterMs(5000),
    }
}

/// What a worker does with one pipeline result.
pub enum WorkerAction {
    /// Send the output batches and the ack onward to the sink.
    Send(Vec<MessageBatch>, Ack),
    /// Log the processor error and discard; the batch is never acknowledged.
    Discard,
}

/// A worker's reaction to one pipeline result: successful output goes to the
/// sink queue together with the untouched ack; a processor error discards
/// the batch without acknowledging it, and the worker keeps running.
pub fn worker_step(processed: Result<Vec<MessageBatch>, Error>, ack: Ack) -> (r: WorkerAction)
    ensures
        processed matches Ok(batches) ==> (r matches WorkerAction::Send(b2, a2) && b2 == batches
            && a2 == ack),
        processed is Err ==> r is Discard,
{
    match processed {
        Ok(batches) => WorkerAction::Send(batches, ack),
        Err(_) => WorkerAction::Discard,
    }
}

/// How many of the write outcomes succeeded.
pub open spec fn count_true(s: Seq<bool>) -> nat
    decreases s.len(),
{
    if s.len() == 0 {
        0
    } else {
        count_true(s.drop_last()) + (if s.last() {
            1nat
        } else {
            0nat
        })
    }
}

/// The sink acknowledges only when every write of the group succeeded.
///
/// `results` holds one outcome per output batch of the group; the sink
/// counts successes and acknowledges exactly when the count equals the group
/// size, that is, when no write failed.
pub fn should_ack(results: &Vec<bool>) -> (r: bool)
    ensures
        r == (count_true(results@) == results@.len()),
        r == (forall|i: int| 0 <= i < results@.len() ==> results@[i]),
{
    let mut success_count: usize = 0;
    let n = results.len();
    for i in 0..n
        invariant
            n == results@.len(),
            success_count as nat == count_true(results@.take(i as int)),
            success_count <= i,
            (success_count == i) == (forall|k: int| 0 <= k < i ==> results@[k]),
    {
        proof {
            assert(results@.take(i + 1 as int).drop_last() =~= results@.take(i as int));
            assert(results@.take(i + 1 as int).last() == results@[i as int]);
        }
        if results[i] {
            success_count = success_count + 1;
        }
    }
    proof {
        assert(results@.take(n as int) =~= results@);
        lemma_count_true_all(results@);
    }
    success_count == n
}

/// Every outcome is a success exactly when the success count is the length.
proof fn lemma_count_true_all(s: Seq<bool>)
    ensures
        (count_true(s) == s.len()) == (forall|i: int| 0 <= i < s.len() ==> s[i]),
        count_true(s) <= s.len(),
    decreases s.len(),
{
    if s.len() > 0 {
        lemma_count_true_all(s.drop_last());
        assert forall|i: int| 0 <= i < s.len() && count_true(s) == s.len() implies s[i] by {
            if i < s.len() - 1 {
                assert(s.drop_last()[i] == s[i]);
            }
        }
        if forall|i: int| 0 <= i < s.len() ==> s[i] {
            assert(s.last());
            assert(forall|i: int| 0 <= i < s.drop_last().len() ==> s.drop_last()[i] == s[i]);
        }
    }
}

} // verus!
