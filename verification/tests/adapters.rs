use arkflow::batch::{CellValue, DataType, Field, MessageBatch, RecordBatch};
use arkflow::error::Error;
use arkflow::input::http::HttpInput;
use arkflow::input::http::HttpInputConfig;
use arkflow::input::mqtt::{qos_level, read_event, MqttMsg, QosLevel};
use arkflow::batch::Content;
use arkflow::input::modbus::{points_to_batch, PointData};
use arkflow::input::redis::RedisInputBuilder;
use arkflow::output::http::{backoff_ms, parse_method, send_step, HttpMethod, SendAction};
use arkflow::output::kafka::{
    join, kafka_client_settings, kafka_write_plan, CompressionType, KafkaOutputConfig,
};
use arkflow::output::sql::{
    client_cert_usage, column_names, extract_rows, parse_ssl_mode, ClientCertUsage, SslMode,
};
use arkflow::processor::sql::{
    apply_window, assoc_set, drain_window, extract_timestamp, parse_i64, should_trigger,
    state_expired, update_last_timestamp, update_state_data, WindowConfig, WindowState,
    WindowType,
};
use arkflow::registry::Registries;

fn binary(payload: &str) -> MessageBatch {
    MessageBatch::new_binary(vec![payload.as_bytes().to_vec()])
}

#[test]
fn qos_levels_map_like_the_broker_expects() {
    assert_eq!(qos_level(Some(0)), QosLevel::AtMostOnce);
    assert_eq!(qos_level(Some(1)), QosLevel::AtLeastOnce);
    assert_eq!(qos_level(Some(2)), QosLevel::ExactlyOnce);
    assert_eq!(qos_level(Some(9)), QosLevel::AtLeastOnce);
    assert_eq!(qos_level(None), QosLevel::AtLeastOnce);
}

#[test]
fn mqtt_read_decisions() {
    assert!(matches!(read_event(false, None), Err(Error::Disconnection)));
    assert!(matches!(read_event(true, None), Err(Error::EOF)));
    let (batch, ack) =
        read_event(true, Some(MqttMsg::Publish(b"hello".to_vec(), 42))).unwrap();
    assert_eq!(batch.as_binary(), &vec![b"hello".to_vec()]);
    assert_eq!(ack.fire(), vec![42]);
    assert!(matches!(
        read_event(true, Some(MqttMsg::Failed(Error::Timeout))),
        Err(Error::Timeout)
    ));
}

#[test]
fn http_input_queue_lifecycle() {
    let config = HttpInputConfig {
        address: "127.0.0.1:8080".to_string(),
        path: "/ingest".to_string(),
        cors_enabled: None,
    };
    let mut input = HttpInput::new(config).unwrap();
    assert!(matches!(input.read(), Err(Error::Connection(_))));
    input.connect();
    assert!(matches!(input.read(), Err(Error::Process(_))));
    input.enqueue(binary("a"));
    input.enqueue(binary("b"));
    let first = input.read().unwrap();
    assert_eq!(first.as_binary(), &vec![b"a".to_vec()]);
    input.close();
    assert!(matches!(input.read(), Err(Error::Connection(_))));
}

#[test]
fn http_input_config_binds_from_json() {
    let fragment = arkflow::config::parse_fragment(
        r#"{"address": "0.0.0.0:8000", "path": "/in", "cors_enabled": true}"#,
    )
    .unwrap();
    let config = arkflow::input::http::http_input_config_from_value(&Some(fragment)).unwrap();
    assert_eq!(config.address, "0.0.0.0:8000");
    assert_eq!(config.path, "/in");
    assert_eq!(config.cors_enabled, Some(true));
    assert!(matches!(
        arkflow::input::http::http_input_config_from_value(&None),
        Err(Error::Config(_))
    ));
    let incomplete = arkflow::config::parse_fragment(r#"{"path": "/in"}"#).unwrap();
    assert!(matches!(
        arkflow::input::http::http_input_config_from_value(&Some(incomplete)),
        Err(Error::Config(_))
    ));
    let direct = arkflow::input::http::http_input_config_from_parts(
        Some("a:1".to_string()),
        Some("/p".to_string()),
        None,
    )
    .unwrap();
    assert_eq!(direct.address, "a:1");
    assert_eq!(direct.path, "/p");
    assert_eq!(direct.cors_enabled, None);
    assert!(matches!(
        arkflow::input::http::http_input_config_from_parts(None, Some("/p".to_string()), None),
        Err(Error::Config(_))
    ));
}

#[test]
fn redis_builder_requires_a_fragment() {
    let builder = RedisInputBuilder;
    assert!(matches!(builder.build(None), Err(Error::Config(_))));
}

#[test]
fn http_methods_parse_ignoring_case() {
    assert_eq!(parse_method(&"GET".to_string()).unwrap(), (HttpMethod::Get, false));
    assert_eq!(parse_method(&"post".to_string()).unwrap(), (HttpMethod::Post, true));
    assert_eq!(parse_method(&"PaTcH".to_string()).unwrap(), (HttpMethod::Patch, true));
    assert_eq!(parse_method(&"DELETE".to_string()).unwrap(), (HttpMethod::Delete, false));
    assert_eq!(parse_method(&"put".to_string()).unwrap(), (HttpMethod::Put, true));
    assert!(matches!(parse_method(&"BREW".to_string()), Err(Error::Config(_))));
}

#[test]
fn backoff_doubles_from_100ms() {
    assert_eq!(backoff_ms(1), 100);
    assert_eq!(backoff_ms(2), 200);
    assert_eq!(backoff_ms(3), 400);
    assert_eq!(backoff_ms(8), 12800);
}

#[test]
fn send_steps_retry_then_give_up() {
    assert_eq!(send_step(0, 3, true), SendAction::Done);
    assert_eq!(send_step(0, 3, false), SendAction::RetryAfterMs(100));
    assert_eq!(send_step(1, 3, false), SendAction::RetryAfterMs(200));
    assert_eq!(send_step(3, 3, false), SendAction::GiveUp);
    assert_eq!(send_step(0, 0, false), SendAction::GiveUp);
}

#[test]
fn kafka_settings_join_brokers() {
    let config = KafkaOutputConfig {
        brokers: vec!["k1:9092".to_string(), "k2:9092".to_string()],
        topic: "t".to_string(),
        key: None,
        client_id: Some("c1".to_string()),
        compression: Some(CompressionType::Gzip),
        acks: Some("all".to_string()),
    };
    let settings = kafka_client_settings(&config);
    assert_eq!(settings[0], ("bootstrap.servers".to_string(), "k1:9092,k2:9092".to_string()));
    assert_eq!(settings[1], ("client.id".to_string(), "c1".to_string()));
    assert_eq!(settings[2], ("compression.type".to_string(), "gzip".to_string()));
    assert_eq!(settings[3], ("acks".to_string(), "all".to_string()));
    assert_eq!(join(&vec!["only".to_string()], ","), "only");
    assert_eq!(join(&vec![], ","), "");
    assert_eq!(CompressionType::Uncompressed.as_str(), "none");
    assert_eq!(CompressionType::Lz4.as_str(), "lz4");
    assert_eq!(CompressionType::Snappy.as_str(), "snappy");
}

#[test]
fn kafka_write_plan_rejects_non_text() {
    let plan = kafka_write_plan(&binary("m")).unwrap();
    assert_eq!(plan, vec![b"m".to_vec()]);
    let arrow = MessageBatch::new_arrow(
        RecordBatch::try_new(
            vec![Field::new("v".to_string(), DataType::Utf8)],
            vec![vec![CellValue::Utf8("1".to_string())]],
        )
        .unwrap(),
    );
    assert!(matches!(kafka_write_plan(&arrow), Err(Error::Process(_))));
    let raw = MessageBatch::new_binary(vec![vec![0xff]]);
    assert!(matches!(kafka_write_plan(&raw), Err(Error::Process(_))));
}

#[test]
fn ssl_modes_parse_ignoring_case() {
    assert_eq!(parse_ssl_mode(&"disable".to_string()).unwrap(), SslMode::Disable);
    assert_eq!(parse_ssl_mode(&"Prefer".to_string()).unwrap(), SslMode::Prefer);
    assert_eq!(parse_ssl_mode(&"REQUIRE".to_string()).unwrap(), SslMode::Require);
    assert_eq!(parse_ssl_mode(&"verify_ca".to_string()).unwrap(), SslMode::VerifyCa);
    assert_eq!(parse_ssl_mode(&"verify_full".to_string()).unwrap(), SslMode::VerifyFull);
    assert!(matches!(parse_ssl_mode(&"plaintext".to_string()), Err(Error::Config(_))));
}

#[test]
fn client_certificate_needs_its_key() {
    assert_eq!(client_cert_usage(&None, &None), ClientCertUsage::Neither);
    assert_eq!(
        client_cert_usage(&Some("c".to_string()), &Some("k".to_string())),
        ClientCertUsage::Both
    );
    assert_eq!(
        client_cert_usage(&Some("c".to_string()), &None),
        ClientCertUsage::IgnoreCertWithoutKey
    );
    assert_eq!(
        client_cert_usage(&None, &Some("k".to_string())),
        ClientCertUsage::IgnoreKeyWithoutCert
    );
}

fn two_by_two() -> RecordBatch {
    RecordBatch::try_new(
        vec![
            Field::new("k".to_string(), DataType::Utf8),
            Field::new("v".to_string(), DataType::Utf8),
        ],
        vec![
            vec![CellValue::Utf8("k1".to_string()), CellValue::Utf8("k2".to_string())],
            vec![CellValue::Utf8("v1".to_string()), CellValue::Utf8("v2".to_string())],
        ],
    )
    .unwrap()
}

#[test]
fn rows_extract_row_major() {
    let batch = two_by_two();
    assert_eq!(column_names(&batch), vec!["k".to_string(), "v".to_string()]);
    let rows = extract_rows(&batch);
    assert_eq!(rows.len(), 2);
    assert!(matches!(&rows[0][0], CellValue::Utf8(s) if s == "k1"));
    assert!(matches!(&rows[0][1], CellValue::Utf8(s) if s == "v1"));
    assert!(matches!(&rows[1][0], CellValue::Utf8(s) if s == "k2"));
    assert!(matches!(&rows[1][1], CellValue::Utf8(s) if s == "v2"));
}

#[test]
fn window_triggers() {
    let tumbling = WindowConfig {
        window_type: WindowType::Tumbling,
        size_ms: 1000,
        slide_ms: None,
        timeout_ms: None,
        timestamp_field: "ts".to_string(),
        watermark_delay_ms: 0,
    };
    // The window for 999 ends at 1000; without delay it has not passed yet.
    assert!(!should_trigger(&tumbling, 999, 0));
    let with_delay = WindowConfig { watermark_delay_ms: 1, ..tumbling };
    assert!(should_trigger(&with_delay, 999, 0));

    let sliding = WindowConfig {
        window_type: WindowType::Sliding,
        size_ms: 1000,
        slide_ms: Some(500),
        timeout_ms: None,
        timestamp_field: "ts".to_string(),
        watermark_delay_ms: 1,
    };
    assert!(should_trigger(&sliding, 499, 0));
    assert!(!should_trigger(&sliding, 498, 0));

    let session = WindowConfig {
        window_type: WindowType::Session,
        size_ms: 1000,
        slide_ms: None,
        timeout_ms: Some(30_000),
        timestamp_field: "ts".to_string(),
        watermark_delay_ms: 0,
    };
    assert!(!should_trigger(&session, 100, 0));
    assert!(should_trigger(&session, 31_002, 1));
    assert!(!should_trigger(&session, 30_001, 1));
}

#[test]
fn last_timestamp_is_monotone() {
    assert_eq!(update_last_timestamp(5, 9), 9);
    assert_eq!(update_last_timestamp(9, 5), 9);
}

#[test]
fn timestamps_parse_as_decimals() {
    assert_eq!(parse_i64("123").unwrap(), 123);
    assert_eq!(parse_i64("0").unwrap(), 0);
    assert_eq!(parse_i64("9223372036854775807").unwrap(), i64::MAX);
    assert!(matches!(parse_i64(""), Err(Error::Process(_))));
    assert!(matches!(parse_i64("12a"), Err(Error::Process(_))));
    assert!(matches!(parse_i64("-5"), Err(Error::Process(_))));
    assert!(matches!(parse_i64("9223372036854775808"), Err(Error::Process(_))));
}

#[test]
fn timestamp_extraction_reads_the_named_field() {
    let batch = RecordBatch::try_new(
        vec![
            Field::new("ts".to_string(), DataType::Utf8),
            Field::new("n".to_string(), DataType::Int64),
        ],
        vec![
            vec![CellValue::Utf8("1700000000".to_string())],
            vec![CellValue::Int64(7)],
        ],
    )
    .unwrap();
    let config = WindowConfig {
        window_type: WindowType::Tumbling,
        size_ms: 1000,
        slide_ms: None,
        timeout_ms: None,
        timestamp_field: "ts".to_string(),
        watermark_delay_ms: 0,
    };
    assert_eq!(extract_timestamp(&batch, &config).unwrap(), 1_700_000_000);
    let by_int = WindowConfig { timestamp_field: "n".to_string(), ..config };
    assert_eq!(extract_timestamp(&batch, &by_int).unwrap(), 7);
    let missing = WindowConfig { timestamp_field: "gone".to_string(), ..by_int };
    assert!(matches!(extract_timestamp(&batch, &missing), Err(Error::Process(_))));
}

fn ts_batch(ts: &str) -> RecordBatch {
    RecordBatch::try_new(
        vec![Field::new("ts".to_string(), DataType::Utf8)],
        vec![vec![CellValue::Utf8(ts.to_string())]],
    )
    .unwrap()
}

#[test]
fn windows_accumulate_until_they_fire() {
    let config = WindowConfig {
        window_type: WindowType::Tumbling,
        size_ms: 1000,
        slide_ms: None,
        timeout_ms: None,
        timestamp_field: "ts".to_string(),
        watermark_delay_ms: 1,
    };
    let mut state = WindowState::new(0);
    assert!(!apply_window(&config, &mut state, ts_batch("100")).unwrap());
    assert!(!apply_window(&config, &mut state, ts_batch("900")).unwrap());
    assert!(apply_window(&config, &mut state, ts_batch("999")).unwrap());
    assert_eq!(state.last_timestamp, 999);
    assert_eq!(state.window_data.len(), 3);
    let merged = drain_window(&mut state).unwrap().unwrap();
    assert_eq!(merged.num_rows(), 3);
    assert!(state.window_data.is_empty());
    assert!(matches!(drain_window(&mut state), Ok(None)));

    let unreadable = RecordBatch::try_new(
        vec![Field::new("other".to_string(), DataType::Utf8)],
        vec![vec![CellValue::Utf8("1".to_string())]],
    )
    .unwrap();
    assert!(matches!(
        apply_window(&config, &mut state, unreadable),
        Err(Error::Process(_))
    ));
    assert!(state.window_data.is_empty());
}

#[test]
fn state_updates_and_expires() {
    assert!(!state_expired(1000, 500, 0));
    assert!(!state_expired(1000, 500, 500));
    assert!(state_expired(1001, 500, 500));

    let mut map: Vec<(String, String)> = Vec::new();
    assoc_set(&mut map, "a".to_string(), "1".to_string());
    assoc_set(&mut map, "b".to_string(), "2".to_string());
    assoc_set(&mut map, "a".to_string(), "3".to_string());
    assert_eq!(
        map,
        vec![("a".to_string(), "3".to_string()), ("b".to_string(), "2".to_string())]
    );

    let mut state = WindowState::new(100);
    assert_eq!(state.last_state_update_ms, 100);
    update_state_data(&mut state, &two_by_two(), Some(0), 200).unwrap();
    assert_eq!(state.last_state_update_ms, 200);
    assert_eq!(
        state.state_data,
        vec![("k1".to_string(), "v1".to_string()), ("k2".to_string(), "v2".to_string())]
    );
    // An expired state is cleared before the new rows arrive.
    update_state_data(&mut state, &two_by_two(), Some(10), 900).unwrap();
    assert_eq!(state.state_data.len(), 2);
}

#[test]
fn adapter_inits_register_their_tags() {
    let mut registries = Registries::new();
    arkflow::input::http::init(&mut registries, 1).unwrap();
    arkflow::input::redis::init(&mut registries, 2).unwrap();
    arkflow::output::http::init(&mut registries, 3).unwrap();
    arkflow::output::kafka::init(&mut registries, 4).unwrap();
    arkflow::output::sql::init(&mut registries, 5).unwrap();
    arkflow::input::modbus::init(&mut registries, 6).unwrap();
    assert!(arkflow::output::kafka::init(&mut registries, 7).is_err());
    assert_eq!(registries.lookup_output(&"kafka".to_string()), Some(4));
    assert_eq!(registries.lookup_input(&"redis".to_string()), Some(2));
    assert_eq!(registries.lookup_input(&"modbus".to_string()), Some(6));
}

#[test]
fn modbus_points_build_a_single_row_batch() {
    let points = vec![
        ("coils".to_string(), PointData::Bits(vec![true, false])),
        ("regs".to_string(), PointData::Words(vec![1, 2, 3])),
    ];
    let batch = points_to_batch(points).unwrap();
    assert_eq!(batch.len(), 1);
    match &batch.content {
        Content::Arrow(rb) => {
            assert_eq!(rb.num_columns(), 2);
            assert_eq!(rb.field(0).name, "coils");
            assert_eq!(rb.field(1).name, "regs");
            assert!(matches!(&rb.column(0)[0], CellValue::BooleanList(v) if v == &vec![true, false]));
            assert!(matches!(&rb.column(1)[0], CellValue::UInt16List(v) if v == &vec![1, 2, 3]));
        }
        _ => panic!("a modbus round is columnar"),
    }
}
