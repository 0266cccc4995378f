//! The processing pipeline: an ordered sequence of processors.
//!
//! `process` threads a batch through all processors in order; each stage's
//! outputs are flattened into one list before the next stage runs. If any
//! processor fails, the whole input batch is aborted with that error and is
//! never acknowledged. The pipeline itself keeps no state across batches.

use crate::batch::MessageBatch;
use crate::error::Error;
use vstd::prelude::*;

verus! {

/// A processing stage: transforms one batch into zero or more batches.
///
/// Implementations are supplied by the embedding (SQL queries, format
/// conversions, user-defined functions). A stage that returns an empty list
/// drops the batch without error. A stage may keep per-instance state; it is
/// called from several workers and must guard that state itself, which is why
/// `process` takes `&self`.
pub trait Processor {
    /// Transform one input batch into zero or more output batches.
    fn process(&self, batch: &MessageBatch) -> Result<Vec<MessageBatch>, Error>;

    /// Release resources; called exactly once, after the last `process`.
    fn close(&self) -> Result<(), Error>;
}

/// An ordered sequence of processors applied to each batch.
pub struct Pipeline<P> {
    processors: Vec<P>,
}

impl<P> Pipeline<P> {
    /// The pipeline's stages, first to run first.
    pub closed spec fn spec_stages(self) -> Seq<P> {
        self.processors@
    }

    /// How many processors the pipeline has.
    pub open spec fn spec_len(self) -> nat {
        self.spec_stages().len()
    }

    /// Build a pipeline from its stages, first to run first.
    pub fn new(processors: Vec<P>) -> (r: Self)
        ensures
            r.spec_stages() == processors@,
    {
        Pipeline { processors }
    }

    /// How many processors the pipeline has.
    pub fn size(&self) -> (r: usize)
        ensures
            r == self.spec_len(),
    {
        self.processors.len()
    }
}

/// Gather one stage's outputs: what each processor call returned for each
/// input batch of the stage, flattened in call order, is exactly the list
/// the next stage (or the sink) receives.
pub fn collect_stage(outs: Vec<Vec<MessageBatch>>) -> (r: Vec<MessageBatch>)
    ensures
        r@.map_values(|b: MessageBatch| b@) == outs@.map_values(
            |v: Vec<MessageBatch>| v@.map_values(|b: MessageBatch| b@),
        ).flatten(),
{
    let ghost ov = outs@;
    let mut r: Vec<MessageBatch> = Vec::new();
    let n = outs.len();
    let mut remaining = outs;
    for i in 0..n
        invariant
            n == ov.len(),
            remaining@ == ov.skip(i as int),
            r@.map_values(|b: MessageBatch| b@) == ov.take(i as int).map_values(
                |v: Vec<MessageBatch>| v@.map_values(|b: MessageBatch| b@),
            ).flatten(),
    {
        let mut chunk = remaining.remove(0);
        proof {
            assert(ov.skip(i as int)[0] == ov[i as int]);
            assert(remaining@ =~= ov.skip(i + 1 as int)) by {
                assert(ov.skip(i as int).subrange(1, ov.skip(i as int).len() as int) =~= ov.skip(
                    i + 1 as int,
                ));
            }
        }
        let ghost chunk_view = chunk@.map_values(|b: MessageBatch| b@);
        r.append(&mut chunk);
        proof {
            let mapped = ov.take(i as int).map_values(
                |v: Vec<MessageBatch>| v@.map_values(|b: MessageBatch| b@),
            );
            assert(ov.take(i + 1 as int).map_values(
                |v: Vec<MessageBatch>| v@.map_values(|b: MessageBatch| b@),
            ) =~= mapped.push(chunk_view)) by {
                assert(ov.take(i + 1 as int)[i as int] == ov[i as int]);
                assert(forall|k: int| 0 <= k < i ==> ov.take(i + 1 as int)[k] == ov.take(
                    i as int,
                )[k]);
            }
            mapped.lemma_flatten_push(chunk_view);
            assert(r@.map_values(|b: MessageBatch| b@) =~= mapped.flatten() + chunk_view);
        }
    }
    proof {
        assert(ov.take(n as int) =~= ov);
    }
    r
}

impl<P: Processor> Pipeline<P> {
    /// Thread a batch through all processors: each stage runs on every batch
    /// the previous stage produced, in order, and `collect_stage` fixes what
    /// the next stage is handed — the flattened outputs of all its calls.
    ///
    /// An empty input batch is legal and traverses without producing
    /// downstream work or invoking any processor. With no processors the
    /// batch passes through unchanged. If a processor fails, its error is
    /// surfaced and the batch produces no output.
    pub fn process(&self, batch: MessageBatch) -> (r: Result<Vec<MessageBatch>, Error>)
        ensures
            batch@.len() == 0 ==> (r matches Ok(v) && v@.len() == 0),
            (batch@.len() > 0 && self.spec_len() == 0) ==> (r matches Ok(v) && v@.len() == 1
                && v@[0]@ == batch@),
    {
        if batch.is_empty() {
            return Ok(Vec::new());
        }
        let mut current: Vec<MessageBatch> = Vec::new();
        let ghost entry = batch@;
        current.push(batch);
        proof {
            assert(current@.len() == 1);
            assert(current@[0]@ == entry);
        }
        let n = self.processors.len();
        for i in 0..n
            invariant
                n == self.processors@.len(),
                entry == batch@,
                entry.len() > 0,
                n == 0 ==> current@.len() == 1 && current@[0]@ == entry,
        {
            let mut outs: Vec<Vec<MessageBatch>> = Vec::new();
            let m = current.len();
            for j in 0..m
                invariant
                    m == current@.len(),
                    i < n,
                    entry == batch@,
                    entry.len() > 0,
                    n == self.processors@.len(),
            {
                let out = self.processors[i].process(&current[j])?;
                outs.push(out);
            }
            current = collect_stage(outs);
        }
        Ok(current)
    }

    /// Close every processor in order. Each close runs even if an earlier
    /// one failed; the first error, if any, is reported, and a pipeline
    /// without processors closes cleanly.
    pub fn close(&self) -> (r: Result<(), Error>)
        ensures
            self.spec_len() == 0 ==> r is Ok,
    {
        let mut first_err: Option<Error> = None;
        let n = self.processors.len();
        for i in 0..n
            invariant
                n == self.processors@.len(),
                n == 0 ==> first_err is None,
        {
            match self.processors[i].close() {
                Ok(()) => {},
                Err(e) => {
                    if first_err.is_none() {
                        first_err = Some(e);
                    }
                },
            }
        }
        match first_err {
            None => Ok(()),
            Some(e) => Err(e),
        }
    }
}

} // verus!
