//! Declarative configuration of a stream and its binding to registered
//! builders.
//!
//! A stream configuration names one input, an ordered list of processors with
//! a worker count, one output, and optionally a buffer. Each component
//! configuration is a type-tag plus a free-form fragment; building resolves
//! the tag in the corresponding registry and fails with a `Config` error on
//! an unknown tag or an invalid worker count.

use crate::error::Error;
use crate::pipeline::Pipeline;
use crate::registry::Registries;
use crate::stream::Stream;
use vstd::prelude::*;
use vstd::string::StringExecFns;

verus! {

/// Input configuration: a type-tag and its raw fragment.
pub struct InputConfig {
    pub input_type: String,
    pub config: Option<serde_json::Value>,
}

/// Output configuration: a type-tag and its raw fragment.
pub struct OutputConfig {
    pub output_type: String,
    pub config: Option<serde_json::Value>,
}

/// Processor configuration: a type-tag and its raw fragment.
pub struct ProcessorConfig {
    pub processor_type: String,
    pub config: Option<serde_json::Value>,
}

/// Buffer configuration: a type-tag and its raw fragment.
pub struct BufferConfig {
    pub buffer_type: String,
    pub config: Option<serde_json::Value>,
}

/// Pipeline configuration: the worker count and the ordered processor list.
pub struct PipelineConfig {
    pub thread_num: u32,
    pub processors: Vec<ProcessorConfig>,
}

/// Stream configuration: one input, a pipeline, one output, and an optional
/// coalescing buffer between workers and sink.
pub struct StreamConfig {
    pub input: InputConfig,
    pub pipeline: PipelineConfig,
    pub output: OutputConfig,
    pub buffer: Option<BufferConfig>,
}

/// Parse a raw configuration fragment; text that is not a JSON document is
/// a `Config` error.
pub fn parse_fragment(text: &str) -> (r: Result<serde_json::Value, Error>)
    ensures
        r matches Err(e) ==> e is Config,
{
    match crate::json::json_parse(text) {
        Some(v) => Ok(v),
        None => Err(Error::Config(String::from_str("the fragment is not a JSON document"))),
    }
}

impl BufferConfig {
    /// Resolve the buffer builder registered under this configuration's tag;
    /// an unknown tag is a `Config` error.
    pub fn build(&self, registries: &Registries) -> (r: Result<u64, Error>)
        requires
            registries.wf(),
        ensures
            r is Ok <==> registries.spec_buffer().spec_contains(self.buffer_type@),
            r matches Ok(b) ==> Some(b) == registries.spec_buffer().spec_lookup(self.buffer_type@),
            r matches Err(e) ==> e is Config,
    {
        match registries.lookup_buffer(&self.buffer_type) {
            Some(b) => Ok(b),
            None => Err(
                Error::Config(
                    String::from_str("Unknown buffer type: ").concat(self.buffer_type.as_str()),
                ),
            ),
        }
    }
}

impl InputConfig {
    /// Resolve the input builder registered under this configuration's tag;
    /// an unknown tag is a `Config` error.
    pub fn build(&self, registries: &Registries) -> (r: Result<u64, Error>)
        requires
            registries.wf(),
        ensures
            r is Ok <==> registries.spec_input().spec_contains(self.input_type@),
            r matches Ok(b) ==> Some(b) == registries.spec_input().spec_lookup(self.input_type@),
            r matches Err(e) ==> e is Config,
    {
        match registries.lookup_input(&self.input_type) {
            Some(b) => Ok(b),
            None => Err(
                Error::Config(
                    String::from_str("Unknown input type: ").concat(self.input_type.as_str()),
                ),
            ),
        }
    }
}

impl OutputConfig {
    /// Resolve the output builder registered under this configuration's tag;
    /// an unknown tag is a `Config` error.
    pub fn build(&self, registries: &Registries) -> (r: Result<u64, Error>)
        requires
            registries.wf(),
        ensures
            r is Ok <==> registries.spec_output().spec_contains(self.output_type@),
            r matches Ok(b) ==> Some(b) == registries.spec_output().spec_lookup(self.output_type@),
            r matches Err(e) ==> e is Config,
    {
        match registries.lookup_output(&self.output_type) {
            Some(b) => Ok(b),
            None => Err(
                Error::Config(
                    String::from_str("Unknown output type: ").concat(self.output_type.as_str()),
                ),
            ),
        }
    }
}

impl ProcessorConfig {
    /// Resolve the processor builder registered under this configuration's
    /// tag; an unknown tag is a `Config` error.
    pub fn build(&self, registries: &Registries) -> (r: Result<u64, Error>)
        requires
            registries.wf(),
        ensures
            r is Ok <==> registries.spec_processor().spec_contains(self.processor_type@),
            r matches Ok(b) ==> Some(b) == registries.spec_processor().spec_lookup(
                self.processor_type@,
            ),
            r matches Err(e) ==> e is Config,
    {
        match registries.lookup_processor(&self.processor_type) {
            Some(b) => Ok(b),
            None => Err(
                Error::Config(
                    String::from_str("Unknown processor type: ").concat(
                        self.processor_type.as_str(),
                    ),
                ),
            ),
        }
    }
}

impl PipelineConfig {
    /// Resolve every processor of the pipeline and check the worker count;
    /// yields the processors' builder handles, in order, and the count.
    pub fn build(&self, registries: &Registries) -> (r: Result<(Pipeline<u64>, u32), Error>)
        requires
            registries.wf(),
        ensures
            r is Ok <==> (self.thread_num >= 1 && forall|k: int|
                0 <= k < self.processors@.len()
                    ==> registries.spec_processor().spec_contains(
                    (#[trigger] self.processors@[k]).processor_type@,
                )),
            r matches Ok(p) ==> {
                &&& p.1 == self.thread_num
                &&& p.0.spec_stages().len() == self.processors@.len()
                &&& forall|k: int|
                    0 <= k < self.processors@.len() ==> Some(#[trigger] p.0.spec_stages()[k])
                        == registries.spec_processor().spec_lookup(
                        self.processors@[k].processor_type@,
                    )
            },
            r matches Err(e) ==> e is Config,
    {
        if self.thread_num < 1 {
            return Err(Error::Config(String::from_str("thread_num must be at least 1")));
        }
        let mut handles: Vec<u64> = Vec::new();
        let n = self.processors.len();
        for k in 0..n
            invariant
                n == self.processors@.len(),
                registries.wf(),
                handles@.len() == k,
                forall|j: int|
                    0 <= j < k ==> registries.spec_processor().spec_contains(
                        (#[trigger] self.processors@[j]).processor_type@,
                    ),
                forall|j: int|
                    0 <= j < k ==> Some(#[trigger] handles@[j])
                        == registries.spec_processor().spec_lookup(
                        self.processors@[j].processor_type@,
                    ),
        {
            let h = self.processors[k].build(registries)?;
            handles.push(h);
        }
        Ok((Pipeline::new(handles), self.thread_num))
    }
}

impl StreamConfig {
    /// Build a stream from this configuration: resolve the input, pipeline,
    /// output and, when configured, buffer against the registries. Any
    /// unknown tag and a worker count below one abort with a `Config` error.
    pub fn build(&self, registries: &Registries) -> (r: Result<Stream, Error>)
        requires
            registries.wf(),
        ensures
            r is Ok <==> ({
                &&& registries.spec_input().spec_contains(self.input.input_type@)
                &&& registries.spec_output().spec_contains(self.output.output_type@)
                &&& self.pipeline.thread_num >= 1
                &&& forall|k: int|
                    0 <= k < self.pipeline.processors@.len()
                        ==> registries.spec_processor().spec_contains(
                        (#[trigger] self.pipeline.processors@[k]).processor_type@,
                    )
                &&& (self.buffer matches Some(b)
                    ==> registries.spec_buffer().spec_contains(b.buffer_type@))
            }),
            r matches Ok(s) ==> {
                &&& Some(s.spec_input()) == registries.spec_input().spec_lookup(
                    self.input.input_type@,
                )
                &&& Some(s.spec_output()) == registries.spec_output().spec_lookup(
                    self.output.output_type@,
                )
                &&& s.spec_thread_num() == self.pipeline.thread_num
                &&& s.spec_pipeline().spec_stages().len() == self.pipeline.processors@.len()
                &&& (self.buffer is Some <==> s.spec_buffer() is Some)
                &&& (self.buffer matches Some(b) ==> s.spec_buffer()
                    == registries.spec_buffer().spec_lookup(b.buffer_type@))
            },
            r matches Err(e) ==> e is Config,
    {
        let input = self.input.build(registries)?;
        let (pipeline, thread_num) = self.pipeline.build(registries)?;
        let output = self.output.build(registries)?;
        let stream = Stream::new(input, pipeline, output, thread_num);
        match &self.buffer {
            None => Ok(stream),
            Some(buffer_config) => {
                let buffer = buffer_config.build(registries)?;
                Ok(stream.with_buffer(buffer))
            },
        }
    }
}

} // verus!
