use arkflow::ack::Ack;
use arkflow::batch::MessageBatch;
use arkflow::config::{
    BufferConfig, InputConfig, OutputConfig, PipelineConfig, ProcessorConfig, StreamConfig,
};
use arkflow::error::Error;
use arkflow::pipeline::{collect_stage, Pipeline, Processor};
use arkflow::registry::Registries;
use arkflow::runtime::{process_and_ack, StreamModel};
use arkflow::stream::{
    abort_close_order, ingest_step, reconnect_step, should_ack, worker_step, ComponentKind,
    IngestAction, IngestEvent, ReconnectAction, StreamState, WorkerAction,
};

fn binary(payload: &str) -> MessageBatch {
    MessageBatch::new_binary(vec![payload.as_bytes().to_vec()])
}

fn payload_of(batch: &MessageBatch) -> String {
    String::from_utf8(batch.as_binary()[0].clone()).unwrap()
}

struct IdentityProcessor;

impl Processor for IdentityProcessor {
    fn process(&self, batch: &MessageBatch) -> Result<Vec<MessageBatch>, Error> {
        Ok(vec![batch.clone()])
    }

    fn close(&self) -> Result<(), Error> {
        Ok(())
    }
}

struct FailsOnBad;

impl Processor for FailsOnBad {
    fn process(&self, batch: &MessageBatch) -> Result<Vec<MessageBatch>, Error> {
        let strings = batch.as_string()?;
        if strings.iter().any(|s| s == "bad") {
            Err(Error::Process("bad payload".to_string()))
        } else {
            Ok(vec![batch.clone()])
        }
    }

    fn close(&self) -> Result<(), Error> {
        Ok(())
    }
}

struct DuplicatingProcessor;

impl Processor for DuplicatingProcessor {
    fn process(&self, batch: &MessageBatch) -> Result<Vec<MessageBatch>, Error> {
        Ok(vec![batch.clone(), batch.clone()])
    }

    fn close(&self) -> Result<(), Error> {
        Ok(())
    }
}

/// Happy path: three batches through an identity pipeline with two workers'
/// worth of queue capacity; all three are written and acknowledged, and the
/// stream exits cleanly on EOF.
#[test]
fn scenario_happy_path() {
    let pipeline = Pipeline::new(vec![IdentityProcessor]);
    let mut model = StreamModel::new(2);
    model.start();
    for (i, payload) in ["a", "b", "c"].iter().enumerate() {
        let accepted = model.push_input(binary(payload), Ack::source(i as u64 + 1));
        assert!(accepted);
    }
    for payload in ["a", "b", "c"] {
        let processed = pipeline.process(binary(payload));
        assert!(model.worker_apply(processed));
        let fired = model.sink_apply(&vec![true]);
        assert!(fired.is_some());
    }
    let written: Vec<String> = model.written_batches().iter().map(payload_of).collect();
    assert_eq!(written, vec!["a".to_string(), "b".to_string(), "c".to_string()]);
    assert_eq!(model.acked_tokens(), &vec![1, 2, 3]);
    model.begin_drain();
    model.finish();
    assert_eq!(model.state(), StreamState::Closed);
}

/// A processor error drops the batch without acknowledging it; the stream
/// keeps going and the other batches are written and acknowledged.
#[test]
fn scenario_processor_error() {
    let pipeline = Pipeline::new(vec![FailsOnBad]);
    let mut model = StreamModel::new(1);
    model.start();
    let payloads = ["ok1", "bad", "ok2"];
    for (i, payload) in payloads.iter().enumerate() {
        assert!(model.push_input(binary(payload), Ack::source(i as u64 + 1)));
    }
    for payload in payloads.iter() {
        let processed = pipeline.process(binary(payload));
        let sent = model.worker_apply(processed);
        if sent {
            model.sink_apply(&vec![true]);
        }
    }
    let written: Vec<String> = model.written_batches().iter().map(payload_of).collect();
    assert_eq!(written, vec!["ok1".to_string(), "ok2".to_string()]);
    assert_eq!(model.acked_tokens(), &vec![1, 3]);
}

/// A partial write failure: the first of two output batches is written, the
/// second fails, and the input batch is never acknowledged.
#[test]
fn scenario_output_partial_failure() {
    let pipeline = Pipeline::new(vec![DuplicatingProcessor]);
    let mut model = StreamModel::new(1);
    model.start();
    assert!(model.push_input(binary("x"), Ack::source(1)));
    let processed = pipeline.process(binary("x"));
    assert!(model.worker_apply(processed));
    let fired = model.sink_apply(&vec![true, false]);
    assert!(fired.is_none());
    let written: Vec<String> = model.written_batches().iter().map(payload_of).collect();
    assert_eq!(written, vec!["x".to_string()]);
    assert!(model.acked_tokens().is_empty());
}

/// Reconnect: a disconnection enters the reconnect loop, which retries every
/// five seconds until a connect succeeds — here on the third attempt — and
/// EOF then shuts the ingest down.
#[test]
fn scenario_reconnect() {
    let action = ingest_step(IngestEvent::ReadError(Error::Disconnection));
    assert!(matches!(action, IngestAction::Reconnect));

    let attempts: Vec<Result<(), Error>> = vec![
        Err(Error::Connection("down".to_string())),
        Err(Error::Connection("down".to_string())),
        Ok(()),
    ];
    let mut connect_calls = 0;
    let mut sleeps = Vec::new();
    for attempt in attempts.iter() {
        connect_calls += 1;
        match reconnect_step(attempt) {
            ReconnectAction::Resume => break,
            ReconnectAction::RetryAfterMs(ms) => sleeps.push(ms),
        }
    }
    assert_eq!(connect_calls, 3);
    assert_eq!(sleeps, vec![5000, 5000]);
    assert!(matches!(
        ingest_step(IngestEvent::ReadError(Error::EOF)),
        IngestAction::Stop
    ));
}

/// Backpressure: with one worker both queues cap at four entries, so no more
/// than eight batches are ever in flight and further pushes are refused.
#[test]
fn scenario_backpressure() {
    let mut model = StreamModel::new(1);
    model.start();
    let mut token = 0u64;
    let mut accepted = 0;
    for _ in 0..1000 {
        token += 1;
        if model.push_input(binary("p"), Ack::source(token)) {
            accepted += 1;
        }
        assert!(model.in_flight() <= 8);
    }
    assert_eq!(accepted, 4);
    // Workers move batches onward until the sink queue fills as well.
    for _ in 0..4 {
        assert!(model.worker_apply(Ok(vec![binary("p")])));
        token += 1;
        model.push_input(binary("p"), Ack::source(token));
        assert!(model.in_flight() <= 8);
    }
    assert_eq!(model.in_flight(), 8);
    token += 1;
    assert!(!model.push_input(binary("p"), Ack::source(token)));
    assert!(model.in_flight() <= 8);
}

/// At-least-once for one batch: the ack fires exactly when the pipeline
/// succeeded and every write succeeded.
#[test]
fn process_and_ack_decision() {
    let fired = process_and_ack(Ok(vec![binary("a")]), Ack::source(9), &vec![true]);
    assert_eq!(fired, Some(vec![9]));
    let not_fired = process_and_ack(Ok(vec![binary("a"), binary("b")]), Ack::source(9), &vec![
        true, false,
    ]);
    assert_eq!(not_fired, None);
    let dropped = process_and_ack(
        Err(Error::Process("p".to_string())),
        Ack::source(9),
        &vec![],
    );
    assert_eq!(dropped, None);
}

#[test]
fn pipeline_passes_empty_batches_without_work() {
    let pipeline = Pipeline::new(vec![FailsOnBad]);
    let out = pipeline.process(MessageBatch::new_binary(vec![])).unwrap();
    assert!(out.is_empty());
}

#[test]
fn pipeline_without_processors_is_identity() {
    let pipeline: Pipeline<IdentityProcessor> = Pipeline::new(vec![]);
    let out = pipeline.process(binary("a")).unwrap();
    assert_eq!(out.len(), 1);
    assert_eq!(payload_of(&out[0]), "a");
}

#[test]
fn ingest_decisions_follow_the_error_taxonomy() {
    assert!(matches!(ingest_step(IngestEvent::Signal), IngestAction::Stop));
    assert!(matches!(
        ingest_step(IngestEvent::ReadError(Error::Config("c".to_string()))),
        IngestAction::Stop
    ));
    assert!(matches!(
        ingest_step(IngestEvent::ReadError(Error::Read("r".to_string()))),
        IngestAction::Continue
    ));
    assert!(matches!(
        ingest_step(IngestEvent::ReadError(Error::Timeout)),
        IngestAction::Reconnect
    ));
    let forwarded = ingest_step(IngestEvent::Batch(binary("a"), Ack::source(1)));
    match forwarded {
        IngestAction::Forward(batch, ack) => {
            assert_eq!(payload_of(&batch), "a");
            assert_eq!(ack.fire(), vec![1]);
        },
        _ => panic!("a batch must be forwarded"),
    }
}

#[test]
fn worker_and_sink_decisions() {
    match worker_step(Ok(vec![binary("a")]), Ack::source(1)) {
        WorkerAction::Send(batches, ack) => {
            assert_eq!(batches.len(), 1);
            assert_eq!(ack.fire(), vec![1]);
        },
        WorkerAction::Discard => panic!("success must be sent"),
    }
    assert!(matches!(
        worker_step(Err(Error::Process("p".to_string())), Ack::source(1)),
        WorkerAction::Discard
    ));
    assert!(should_ack(&vec![]));
    assert!(should_ack(&vec![true, true]));
    assert!(!should_ack(&vec![true, false]));
}

#[test]
fn startup_failure_closes_directly() {
    let mut model = StreamModel::new(1);
    assert_eq!(model.state(), StreamState::Building);
    model.abort_startup();
    assert_eq!(model.state(), StreamState::Closed);
    assert!(model.acked_tokens().is_empty());
    assert!(model.written_batches().is_empty());
    assert_eq!(model.in_flight(), 0);
    assert_eq!(
        abort_close_order(true, false),
        vec![ComponentKind::Input]
    );
    assert_eq!(abort_close_order(false, false), Vec::<ComponentKind>::new());
    assert_eq!(
        abort_close_order(true, true),
        vec![ComponentKind::Input, ComponentKind::Output]
    );
}

#[test]
fn stages_flatten_in_call_order() {
    let outs = vec![
        vec![binary("a"), binary("b")],
        vec![],
        vec![binary("c")],
    ];
    let flat = collect_stage(outs);
    let payloads: Vec<String> = flat.iter().map(payload_of).collect();
    assert_eq!(payloads, vec!["a".to_string(), "b".to_string(), "c".to_string()]);
}

#[test]
fn stream_config_build_resolves_tags() {
    let mut registries = Registries::new();
    registries.register_input_builder("generate".to_string(), 1).unwrap();
    registries.register_output_builder("stdout".to_string(), 2).unwrap();
    registries.register_processor_builder("sql".to_string(), 3).unwrap();
    arkflow::buffer::init(&mut registries, 4).unwrap();

    let config = StreamConfig {
        input: InputConfig { input_type: "generate".to_string(), config: None },
        pipeline: PipelineConfig {
            thread_num: 2,
            processors: vec![ProcessorConfig {
                processor_type: "sql".to_string(),
                config: None,
            }],
        },
        output: OutputConfig { output_type: "stdout".to_string(), config: None },
        buffer: Some(BufferConfig { buffer_type: "memory".to_string(), config: None }),
    };
    let stream = config.build(&registries).unwrap();
    assert_eq!(stream.thread_num(), 2);
    assert_eq!(stream.in_queue_capacity(), 8);
    assert_eq!(stream.out_queue_capacity(), 8);
    assert_eq!(stream.input(), 1);
    assert_eq!(stream.output(), 2);
    assert_eq!(stream.buffer(), Some(4));
    assert_eq!(stream.pipeline_len(), 1);
    assert_eq!(
        stream.close_order(),
        vec![
            ComponentKind::Input,
            ComponentKind::Pipeline,
            ComponentKind::Buffer,
            ComponentKind::Output,
        ]
    );

    let unknown = StreamConfig {
        input: InputConfig { input_type: "missing".to_string(), config: None },
        pipeline: PipelineConfig { thread_num: 1, processors: vec![] },
        output: OutputConfig { output_type: "stdout".to_string(), config: None },
        buffer: None,
    };
    assert!(matches!(unknown.build(&registries), Err(Error::Config(_))));

    let zero_workers = StreamConfig {
        input: InputConfig { input_type: "generate".to_string(), config: None },
        pipeline: PipelineConfig { thread_num: 0, processors: vec![] },
        output: OutputConfig { output_type: "stdout".to_string(), config: None },
        buffer: None,
    };
    assert!(matches!(zero_workers.build(&registries), Err(Error::Config(_))));
}
