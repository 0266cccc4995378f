use arkflow::ack::Ack;
use arkflow::batch::{
    concat_batches, concat_message_batches, CellValue, Content, DataType, Field, MessageBatch,
    RecordBatch,
};
use arkflow::buffer::{
    memory_buffer_config_from_parts, memory_buffer_config_from_value, ticker_step, MemoryBuffer,
    MemoryBufferConfig, TickerAction, TickerEvent,
};
use arkflow::error::Error;
use arkflow::input::sql::{coalesce_results, SqlConfig, SqlInput};
use arkflow::registry::{Registries, Registry};

fn binary(payload: &str) -> MessageBatch {
    MessageBatch::new_binary(vec![payload.as_bytes().to_vec()])
}

#[test]
fn test_memory_buffer_new() {
    let p = MemoryBuffer::new(MemoryBufferConfig { capacity: 10, timeout_ms: 10_000 }).unwrap();

    let mut p = p;
    let x = p.write(
        MessageBatch::new_binary(vec!["test".as_bytes().to_vec()]),
        Ack::noop(),
    );
    assert!(x.is_ok());
}

#[test]
fn test_sql_input_new() {
    let config = SqlConfig {
        select_sql: "SELECT * FROM test".to_string(),
        create_table_sql:
            "CREATE EXTERNAL TABLE test (id INT, name STRING) STORED AS CSV LOCATION 'test.csv'"
                .to_string(),
    };
    let input = SqlInput::new(&config);
    assert!(input.is_ok());
}

#[test]
fn test_sql_input_connect() {
    let config = SqlConfig {
        select_sql: "SELECT * FROM test".to_string(),
        create_table_sql:
            "CREATE EXTERNAL TABLE test (id INT, name STRING) STORED AS CSV LOCATION 'test.csv'"
                .to_string(),
    };
    let input = SqlInput::new(&config).unwrap();
    assert!(input.connect().is_ok());
}

#[test]
fn test_sql_input_close() {
    let config = SqlConfig {
        select_sql: "SELECT * FROM test".to_string(),
        create_table_sql:
            "CREATE EXTERNAL TABLE test (id INT, name STRING) STORED AS CSV LOCATION 'test.csv'"
                .to_string(),
    };
    let mut input = SqlInput::new(&config).unwrap();
    assert!(input.close().is_ok());
}

#[test]
fn sql_input_reads_report_eof_after_close() {
    let config = SqlConfig {
        select_sql: "SELECT 1".to_string(),
        create_table_sql: "CREATE TABLE t (id INT)".to_string(),
    };
    let mut input = SqlInput::new(&config).unwrap();
    input.close().unwrap();
    assert!(matches!(input.begin_read(), Err(Error::EOF)));
}

#[test]
fn sql_input_reads_once_then_eof() {
    let config = SqlConfig {
        select_sql: "SELECT * FROM test".to_string(),
        create_table_sql: "CREATE TABLE test (id INT)".to_string(),
    };
    let mut input = SqlInput::new(&config).unwrap();
    let stmts = input.begin_read().unwrap();
    assert_eq!(stmts.0, "CREATE TABLE test (id INT)");
    assert_eq!(stmts.1, "SELECT * FROM test");
    input.complete_read();
    assert!(matches!(input.begin_read(), Err(Error::EOF)));
}

#[test]
fn coalesce_results_empty_is_empty_batch() {
    let merged = coalesce_results(vec![]).unwrap();
    assert_eq!(merged.len(), 0);
    assert!(matches!(merged.content, Content::Arrow(_)));
}

fn utf8_batch(name: &str, cells: &[&str]) -> RecordBatch {
    let fields = vec![Field::new(name.to_string(), DataType::Utf8)];
    let column = cells.iter().map(|c| CellValue::Utf8(c.to_string())).collect::<Vec<_>>();
    RecordBatch::try_new(fields, vec![column]).unwrap()
}

#[test]
fn coalesce_results_concatenates_rows() {
    let a = utf8_batch("v", &["1", "2"]);
    let b = utf8_batch("v", &["3"]);
    let merged = coalesce_results(vec![a, b]).unwrap();
    assert_eq!(merged.len(), 3);
}

#[test]
fn concat_batches_rejects_schema_mismatch() {
    let a = utf8_batch("v", &["1"]);
    let b = utf8_batch("w", &["2"]);
    let r = concat_batches(&vec![a, b]);
    assert!(matches!(r, Err(Error::Process(_))));
}

#[test]
fn concat_message_batches_rejects_mixed_content() {
    let a = binary("a");
    let b = MessageBatch::new_arrow(utf8_batch("v", &["1"]));
    let r = concat_message_batches(&vec![a, b]);
    assert!(matches!(r, Err(Error::Process(_))));
}

#[test]
fn batch_as_string_round_trip() {
    let batch = binary("test");
    let strings = batch.as_string().unwrap();
    assert_eq!(strings, vec!["test".to_string()]);
}

#[test]
fn batch_as_string_rejects_invalid_utf8() {
    let batch = MessageBatch::new_binary(vec![vec![0xff, 0xfe]]);
    assert!(matches!(batch.as_string(), Err(Error::Process(_))));
}

#[test]
fn batch_lengths() {
    let batch = MessageBatch::from_string("abc");
    assert_eq!(batch.len(), 1);
    assert!(!batch.is_empty());
    let empty = MessageBatch::new_binary(vec![]);
    assert_eq!(empty.len(), 0);
    assert!(empty.is_empty());
    let rows = utf8_batch("v", &["1", "2"]);
    assert_eq!(MessageBatch::new_arrow(rows).len(), 2);
}

#[test]
fn record_batch_rejects_ragged_columns() {
    let fields = vec![
        Field::new("a".to_string(), DataType::Utf8),
        Field::new("b".to_string(), DataType::Utf8),
    ];
    let columns = vec![
        vec![CellValue::Utf8("1".to_string())],
        vec![CellValue::Utf8("2".to_string()), CellValue::Utf8("3".to_string())],
    ];
    assert!(matches!(RecordBatch::try_new(fields, columns), Err(Error::Process(_))));
}

#[test]
fn record_batch_rejects_ill_typed_cell() {
    let fields = vec![Field::new("a".to_string(), DataType::Int64)];
    let columns = vec![vec![CellValue::Utf8("1".to_string())]];
    assert!(matches!(RecordBatch::try_new(fields, columns), Err(Error::Process(_))));
}

#[test]
fn registry_rejects_duplicate_tag() {
    let mut registry = Registry::new();
    assert!(registry.register("memory".to_string(), 1).is_ok());
    let again = registry.register("memory".to_string(), 2);
    assert!(matches!(again, Err(Error::Config(_))));
    assert_eq!(registry.lookup(&"memory".to_string()), Some(1));
    assert_eq!(registry.lookup(&"missing".to_string()), None);
}

#[test]
fn registries_track_buffer_types() {
    let mut registries = Registries::new();
    arkflow::buffer::init(&mut registries, 7).unwrap();
    assert_eq!(registries.get_registered_buffer_types(), vec!["memory".to_string()]);
    assert!(arkflow::buffer::init(&mut registries, 8).is_err());
}

#[test]
fn ack_fanout_fires_all_constituents() {
    let children = vec![Ack::source(1), Ack::source(2), Ack::source(3), Ack::source(4)];
    let merged = Ack::fanout(children);
    assert_eq!(merged.width(), 4);
    assert_eq!(merged.fire(), vec![1, 2, 3, 4]);
    assert_eq!(Ack::noop().fire(), Vec::<u64>::new());
}

#[test]
fn memory_buffer_coalesces_four_writes() {
    let mut buffer =
        MemoryBuffer::new(MemoryBufferConfig { capacity: 4, timeout_ms: 100 }).unwrap();
    let mut notified = false;
    for (i, payload) in ["a", "b", "c", "d"].iter().enumerate() {
        let notify = buffer.write(binary(payload), Ack::source(i as u64 + 1)).unwrap();
        if notify {
            notified = true;
        }
    }
    assert!(notified);
    assert_eq!(buffer.len(), 4);
    let (merged, ack) = buffer.read().unwrap().unwrap();
    assert_eq!(merged.len(), 4);
    assert_eq!(
        merged.as_binary(),
        &vec![b"a".to_vec(), b"b".to_vec(), b"c".to_vec(), b"d".to_vec()]
    );
    assert_eq!(ack.fire(), vec![1, 2, 3, 4]);
    assert_eq!(buffer.len(), 0);
    assert!(matches!(buffer.read(), Ok(None)));
}

#[test]
fn memory_buffer_read_rejects_mixed_content() {
    let mut buffer =
        MemoryBuffer::new(MemoryBufferConfig { capacity: 4, timeout_ms: 100 }).unwrap();
    buffer.write(binary("a"), Ack::source(1)).unwrap();
    buffer
        .write(MessageBatch::new_arrow(utf8_batch("v", &["1"])), Ack::source(2))
        .unwrap();
    assert!(matches!(buffer.read(), Err(Error::Process(_))));
}

#[test]
fn memory_buffer_rejects_zero_capacity() {
    let r = MemoryBuffer::new(MemoryBufferConfig { capacity: 0, timeout_ms: 100 });
    assert!(matches!(r, Err(Error::Config(_))));
}

#[test]
fn memory_buffer_config_binding() {
    let fragment =
        arkflow::config::parse_fragment(r#"{"capacity": 4, "timeout_ms": 100}"#).unwrap();
    let config = memory_buffer_config_from_value(&Some(fragment)).unwrap();
    assert_eq!(config.capacity, 4);
    assert_eq!(config.timeout_ms, 100);
    assert!(matches!(
        memory_buffer_config_from_value(&None),
        Err(Error::Config(_))
    ));
    let bad = arkflow::config::parse_fragment(r#"{"capacity": "many"}"#).unwrap();
    assert!(matches!(
        arkflow::config::parse_fragment("not json"),
        Err(Error::Config(_))
    ));
    assert!(matches!(
        memory_buffer_config_from_value(&Some(bad)),
        Err(Error::Config(_))
    ));
    assert!(matches!(
        memory_buffer_config_from_parts(Some(0), Some(100)),
        Err(Error::Config(_))
    ));
}

#[test]
fn ticker_decisions() {
    assert_eq!(ticker_step(TickerEvent::TimerElapsed), TickerAction::NotifyAndRestart);
    assert_eq!(ticker_step(TickerEvent::CloseRequested), TickerAction::NotifyAndExit);
    assert_eq!(ticker_step(TickerEvent::ReaderNotified), TickerAction::Restart);
}

#[test]
fn error_messages_name_their_kind() {
    assert_eq!(Error::Config("bad".to_string()).message(), "Configuration error: bad");
    assert_eq!(Error::Read("r".to_string()).message(), "Read error: r");
    assert_eq!(Error::Process("p".to_string()).message(), "Process errors: p");
    assert_eq!(Error::Connection("c".to_string()).message(), "Connection error: c");
    assert_eq!(Error::Io("i".to_string()).message(), "IO error: i");
    assert_eq!(Error::Serialization("s".to_string()).message(), "Serialization error: s");
    assert_eq!(Error::Unknown("u".to_string()).message(), "Unknown error: u");
    assert_eq!(Error::Disconnection.message(), "Connection lost");
    assert_eq!(Error::Timeout.message(), "Timeout error");
    assert_eq!(Error::EOF.message(), "EOF");
}
