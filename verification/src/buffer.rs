//! The in-memory coalescing buffer.
//!
//! When configured, the buffer sits between the workers and the sink. Writers
//! push `(batch, ack)` pairs; a read drains the whole queue, merges the
//! batches into one, and returns it with an aggregate ack that fans out to
//! every constituent ack. Readers are woken when the queue approaches its
//! capacity or when the configured timeout elapses; the ticking and waking
//! are the embedding's work, and their decisions are fixed here.

use crate::ack::{tokens_of_list, Ack};
use crate::batch::{concat_message_batches, merged_content, mergeable, ContentV, MessageBatch};
use crate::error::Error;
use crate::json::{json_as_u64, json_get};
use crate::registry::Registries;
use vstd::prelude::*;
use vstd::string::StringExecFns;

verus! {

/// Memory buffer configuration: the queue capacity that triggers an early
/// wake-up, and the coalescing timeout in milliseconds.
pub struct MemoryBufferConfig {
    pub capacity: u32,
    pub timeout_ms: u64,
}

impl MemoryBufferConfig {
    /// A usable configuration: a positive capacity and a positive timeout.
    pub open spec fn wf(self) -> bool {
        self.capacity >= 1 && self.timeout_ms >= 1
    }
}

/// Validate the two fields a memory buffer is configured with. Both must be
/// present; the capacity must be between one and `u32::MAX`, the timeout
/// positive. Anything else is a `Config` error.
pub fn memory_buffer_config_from_parts(capacity: Option<u64>, timeout_ms: Option<u64>) -> (r:
    Result<MemoryBufferConfig, Error>)
    ensures
        r is Ok <==> ({
            &&& capacity matches Some(c) && 1 <= c <= u32::MAX
            &&& timeout_ms matches Some(t) && t >= 1
        }),
        r matches Ok(cfg) ==> {
            &&& capacity == Some(cfg.capacity as u64)
            &&& timeout_ms == Some(cfg.timeout_ms)
            &&& cfg.wf()
        },
        r matches Err(e) ==> e is Config,
{
    let c = match capacity {
        Some(c) => c,
        None => {
            return Err(Error::Config(String::from_str("memory buffer capacity is missing")));
        },
    };
    if c < 1 || c > u32::MAX as u64 {
        return Err(Error::Config(String::from_str("memory buffer capacity is out of range")));
    }
    let t = match timeout_ms {
        Some(t) => t,
        None => {
            return Err(Error::Config(String::from_str("memory buffer timeout is missing")));
        },
    };
    if t < 1 {
        return Err(Error::Config(String::from_str("memory buffer timeout must be positive")));
    }
    Ok(MemoryBufferConfig { capacity: c as u32, timeout_ms: t })
}

/// Bind a memory buffer configuration from its raw fragment: the fragment
/// must be present and carry numeric `capacity` and `timeout_ms` fields.
pub fn memory_buffer_config_from_value(config: &Option<serde_json::Value>) -> (r: Result<
    MemoryBufferConfig,
    Error,
>)
    ensures
        config is None ==> (r matches Err(e) && e is Config),
        r matches Ok(cfg) ==> cfg.wf(),
        r matches Err(e) ==> e is Config,
{
    match config {
        None => Err(Error::Config(String::from_str("Memory buffer configuration is missing"))),
        Some(v) => {
            let capacity = match json_get(v, "capacity") {
                Some(c) => json_as_u64(c),
                None => None,
            };
            let timeout_ms = match json_get(v, "timeout_ms") {
                Some(t) => json_as_u64(t),
                None => None,
            };
            memory_buffer_config_from_parts(capacity, timeout_ms)
        },
    }
}

/// The bounded in-memory queue of `(batch, ack)` pairs, newest first.
pub struct MemoryBuffer {
    config: MemoryBufferConfig,
    queue: std::collections::VecDeque<(MessageBatch, Ack)>,
    closed: bool,
}

impl MemoryBuffer {
    /// The queued pairs, newest first (reads drain oldest first).
    pub closed spec fn spec_queue(self) -> Seq<(MessageBatch, Ack)> {
        self.queue@
    }

    /// The configuration the buffer was built with.
    pub closed spec fn spec_config(self) -> MemoryBufferConfig {
        self.config
    }

    /// Whether `close` has been requested.
    pub closed spec fn spec_closed(self) -> bool {
        self.closed
    }

    /// The queued batch contents in arrival order, oldest first.
    pub open spec fn spec_contents(self) -> Seq<ContentV> {
        self.spec_queue().reverse().map_values(|p: (MessageBatch, Ack)| p.0@)
    }

    /// The delivery tokens of the queued acks in arrival order.
    pub open spec fn spec_ack_tokens(self) -> Seq<u64> {
        tokens_of_list(self.spec_queue().reverse().map_values(|p: (MessageBatch, Ack)| p.1))
    }

    /// A usable configuration and well-formed queued batches.
    pub open spec fn wf(self) -> bool {
        &&& self.spec_config().wf()
        &&& forall|k: int|
            0 <= k < self.spec_queue().len() ==> (#[trigger] self.spec_queue()[k]).0@.wf()
    }

    /// Create an empty buffer. A configuration without a positive capacity
    /// is rejected with a `Config` error.
    pub fn new(config: MemoryBufferConfig) -> (r: Result<MemoryBuffer, Error>)
        ensures
            r is Ok <==> config.wf(),
            r matches Ok(b) ==> {
                &&& b.spec_config() == config
                &&& b.spec_queue().len() == 0
                &&& !b.spec_closed()
                &&& b.wf()
            },
            r matches Err(e) ==> e is Config,
    {
        if config.capacity < 1 {
            return Err(Error::Config(String::from_str("buffer capacity must be at least 1")));
        }
        if config.timeout_ms < 1 {
            return Err(Error::Config(String::from_str("buffer timeout must be positive")));
        }
        Ok(MemoryBuffer { config, queue: std::collections::VecDeque::new(), closed: false })
    }

    /// How many batches are queued.
    pub fn len(&self) -> (r: usize)
        ensures
            r == self.spec_queue().len(),
    {
        self.queue.len()
    }

    /// Queue one batch with its ack; best effort, never drops. The result
    /// reports whether readers should be woken: they are when the queue had
    /// already reached one below capacity before this write.
    pub fn write(&mut self, msg: MessageBatch, ack: Ack) -> (r: Result<bool, Error>)
        requires
            old(self).wf(),
            msg@.wf(),
        ensures
            final(self).wf(),
            r matches Ok(notify) ==> {
                &&& final(self).spec_queue() == seq![(msg, ack)] + old(self).spec_queue()
                &&& notify == (old(self).spec_queue().len() + 1 >= old(self).spec_config().capacity)
                &&& final(self).spec_config() == old(self).spec_config()
                &&& final(self).spec_closed() == old(self).spec_closed()
            },
            r is Ok,
    {
        let len = self.queue.len();
        let notify = len as u64 >= (self.config.capacity as u64) - 1;
        self.queue.push_front((msg, ack));
        proof {
            assert forall|k: int|
                0 <= k < self.spec_queue().len() implies (#[trigger] self.spec_queue()[
            k]).0@.wf() by {
                if k > 0 {
                    assert(self.spec_queue()[k] == old(self).spec_queue()[k - 1]);
                }
            }
        }
        Ok(notify)
    }

    /// Drain the queue and merge everything into one batch with an aggregate
    /// ack. An empty queue yields `None`. The aggregate ack fans out to every
    /// drained ack, oldest first; the merged batch is the concatenation of
    /// the drained batches, oldest first. Batches that cannot merge (mixed
    /// binary and columnar content, or inconsistent schemas) surface a
    /// `Process` error; the drained batches stay unacknowledged either way.
    pub fn read(&mut self) -> (r: Result<Option<(MessageBatch, Ack)>, Error>)
        requires
            old(self).wf(),
        ensures
            final(self).wf(),
            final(self).spec_queue().len() == 0,
            final(self).spec_config() == old(self).spec_config(),
            final(self).spec_closed() == old(self).spec_closed(),
            old(self).spec_queue().len() == 0 ==> (r matches Ok(v) && v is None),
            old(self).spec_queue().len() > 0 ==> {
                &&& (r matches Ok(v) ==> (v matches Some(p) && p.0@ == merged_content(
                    old(self).spec_contents(),
                ) && p.0@.wf() && p.1@ == old(self).spec_ack_tokens()))
                &&& (r is Ok <==> mergeable(old(self).spec_contents()))
                &&& (r matches Err(e) ==> e is Process)
            },
    {
        self.process_messages()
    }

    /// The drain behind `read`.
    fn process_messages(&mut self) -> (r: Result<Option<(MessageBatch, Ack)>, Error>)
        requires
            old(self).wf(),
        ensures
            final(self).wf(),
            final(self).spec_queue().len() == 0,
            final(self).spec_config() == old(self).spec_config(),
            final(self).spec_closed() == old(self).spec_closed(),
            old(self).spec_queue().len() == 0 ==> (r matches Ok(v) && v is None),
            old(self).spec_queue().len() > 0 ==> {
                &&& (r matches Ok(v) ==> (v matches Some(p) && p.0@ == merged_content(
                    old(self).spec_contents(),
                ) && p.0@.wf() && p.1@ == old(self).spec_ack_tokens()))
                &&& (r is Ok <==> mergeable(old(self).spec_contents()))
                &&& (r matches Err(e) ==> e is Process)
            },
    {
        let ghost orig = self.queue@;
        let mut batches: Vec<MessageBatch> = Vec::new();
        let mut acks: Vec<Ack> = Vec::new();
        loop
            invariant
                self.spec_config().wf(),
                self.config == old(self).config,
                self.closed == old(self).closed,
                orig == old(self).spec_queue(),
                batches@.len() == acks@.len(),
                batches@.len() <= orig.len(),
                self.queue@ == orig.subrange(0, orig.len() - batches@.len()),
                forall|j: int|
                    0 <= j < batches@.len() ==> #[trigger] batches@[j] == orig[orig.len() - 1
                        - j].0,
                forall|j: int|
                    0 <= j < acks@.len() ==> #[trigger] acks@[j] == orig[orig.len() - 1 - j].1,
            ensures
                self.spec_config().wf(),
                self.config == old(self).config,
                self.closed == old(self).closed,
                self.queue@.len() == 0,
                batches@.len() == acks@.len(),
                batches@.len() == orig.len(),
                forall|j: int|
                    0 <= j < batches@.len() ==> #[trigger] batches@[j] == orig[orig.len() - 1
                        - j].0,
                forall|j: int|
                    0 <= j < acks@.len() ==> #[trigger] acks@[j] == orig[orig.len() - 1 - j].1,
            decreases self.queue@.len(),
        {
            match self.queue.pop_back() {
                Some(pair) => {
                    let (msg, ack) = pair;
                    batches.push(msg);
                    acks.push(ack);
                },
                None => {
                    break ;
                },
            }
        }
        proof {
            assert(batches@ =~= orig.reverse().map_values(|p: (MessageBatch, Ack)| p.0));
            assert(acks@ =~= orig.reverse().map_values(|p: (MessageBatch, Ack)| p.1));
        }
        if batches.len() == 0 {
            return Ok(None);
        }
        proof {
            assert forall|k: int| 0 <= k < batches@.len() implies (#[trigger] batches@[k])@.wf() by {
                assert(batches@[k] == orig[orig.len() - 1 - k].0);
            }
            assert(crate::batch::contents_of(batches@) =~= old(self).spec_contents());
        }
        let merged = match concat_message_batches(&batches) {
            Ok(m) => m,
            Err(e) => {
                return Err(e);
            },
        };
        let aggregate = Ack::fanout(acks);
        Ok(Some((merged, aggregate)))
    }

    /// Request an immediate drain: the embedding wakes one pending reader.
    pub fn flush(&self) -> (r: Result<(), Error>)
        ensures
            r is Ok,
    {
        Ok(())
    }

    /// Mark the buffer closed. The embedding then stops the ticker and wakes
    /// pending readers one final time so they observe the shutdown.
    pub fn close(&mut self) -> (r: Result<(), Error>)
        requires
            old(self).wf(),
        ensures
            final(self).wf(),
            final(self).spec_closed(),
            final(self).spec_queue() == old(self).spec_queue(),
            final(self).spec_config() == old(self).spec_config(),
            r is Ok,
    {
        self.closed = true;
        proof {
            assert(self.spec_queue() == old(self).spec_queue());
            assert forall|k: int|
                0 <= k < self.spec_queue().len() implies (#[trigger] self.spec_queue()[
            k]).0@.wf() by {
                assert(self.spec_queue()[k] == old(self).spec_queue()[k]);
            }
        }
        Ok(())
    }
}

/// What the buffer's background ticker observed.
#[derive(Clone, Copy, Debug, PartialEq, Eq, Structural)]
pub enum TickerEvent {
    /// The coalescing timeout elapsed.
    TimerElapsed,
    /// The buffer is closing.
    CloseRequested,
    /// A reader was woken for another reason; the timer restarts.
    ReaderNotified,
}

/// What the ticker does next.
#[derive(Clone, Copy, Debug, PartialEq, Eq, Structural)]
pub enum TickerAction {
    /// Wake all pending readers, then arm the timer again.
    NotifyAndRestart,
    /// Wake all pending readers one last time and exit the ticker.
    NotifyAndExit,
    /// Arm the timer again without waking anyone.
    Restart,
}

/// The ticker's reaction to one event: an elapsed timer wakes readers and
/// re-arms; a close wakes them once more and ends the ticker; any other
/// wake-up just resets the timer.
pub fn ticker_step(event: TickerEvent) -> (r: TickerAction)
    ensures
        event == TickerEvent::TimerElapsed ==> r == TickerAction::NotifyAndRestart,
        event == TickerEvent::CloseRequested ==> r == TickerAction::NotifyAndExit,
        event == TickerEvent::ReaderNotified ==> r == TickerAction::Restart,
{
    match event {
        TickerEvent::TimerElapsed => TickerAction::NotifyAndRestart,
        TickerEvent::CloseRequested => TickerAction::NotifyAndExit,
        TickerEvent::ReaderNotified => TickerAction::Restart,
    }
}

/// Register the memory buffer builder under its `memory` tag.
pub fn init(registries: &mut Registries, builder: u64) -> (r: Result<(), Error>)
    requires
        old(registries).wf(),
    ensures
        final(registries).wf(),
        r is Ok <==> !old(registries).spec_buffer().spec_contains("memory"@),
        r is Ok ==> final(registries).spec_buffer().spec_lookup("memory"@) == Some(builder),
        r is Ok ==> final(registries).spec_buffer().tags() == old(
            registries,
        ).spec_buffer().tags().push("memory"@),
        r matches Err(e) ==> e is Config,
{
    registries.register_buffer_builder(String::from_str("memory"), builder)
}

} // verus!
