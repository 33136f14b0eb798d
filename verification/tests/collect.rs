use network_monitor::json::{Json, JsonNumber};
use network_monitor::monitor::{
    interpret_document, CollectionError, NetworkMonitor, ToolAttempt, DEFAULT_CADENCE_SECS,
};
use network_monitor::record::{NetworkMetrics, SpeedTestResult};
use network_monitor::units::{Mbps, Milliseconds};
use std::time::{SystemTime, UNIX_EPOCH};

const WELL_FORMED: &str = "{\"download\":{\"bandwidth\":12500000},\"upload\":{\"bandwidth\":1250000},\"ping\":{\"latency\":15.5},\"isp\":\"Acme Net\",\"server\":{\"name\":\"NYC-1\"}}";

fn exited(success: bool, stdout: &str, stderr: &str) -> ToolAttempt {
    ToolAttempt::Exited {
        success,
        stdout: stdout.as_bytes().to_vec(),
        stderr: stderr.as_bytes().to_vec(),
    }
}

fn collect(stdout: &str) -> Result<NetworkMetrics, CollectionError> {
    NetworkMonitor::new().collect_metrics(&exited(true, stdout, ""))
}

fn parse_error(stdout: &str) -> String {
    match collect(stdout) {
        Err(CollectionError::ParseError(message)) => message,
        other => panic!("expected a parse error, got {:?}", other),
    }
}

fn epoch_seconds() -> i64 {
    SystemTime::now().duration_since(UNIX_EPOCH).unwrap().as_secs() as i64
}

#[test]
fn well_formed_response_gives_a_full_record() {
    let before = epoch_seconds();
    let metrics = collect(WELL_FORMED).unwrap();
    let after = epoch_seconds();
    assert_eq!(metrics.download_speed.bits_per_second() as f64 / 1_000_000.0, 100.0);
    assert_eq!(metrics.upload_speed.bits_per_second() as f64 / 1_000_000.0, 10.0);
    assert_eq!(metrics.download_speed, Mbps::from_bytes_per_second(12_500_000));
    assert_eq!(metrics.upload_speed, Mbps::from_bytes_per_second(1_250_000));
    assert_eq!(metrics.download_speed.whole(), 100);
    assert_eq!(metrics.download_speed.millionths(), 0);
    assert_eq!(metrics.upload_speed.whole(), 10);
    assert_eq!(metrics.upload_speed.millionths(), 0);
    assert_eq!(f64::from_bits(metrics.ping_ms.bits), 15.5);
    assert_eq!(metrics.isp, "Acme Net");
    assert_eq!(metrics.server_name, "NYC-1");
    assert!(before <= metrics.timestamp && metrics.timestamp <= after);
}

#[test]
fn response_without_download_is_a_parse_error() {
    let stdout = "{\"upload\":{\"bandwidth\":1250000},\"ping\":{\"latency\":15.5},\"isp\":\"Acme Net\",\"server\":{\"name\":\"NYC-1\"}}";
    assert_eq!(parse_error(stdout), "missing field `download`");
}

#[test]
fn response_without_upload_is_a_parse_error() {
    let stdout = "{\"download\":{\"bandwidth\":12500000},\"ping\":{\"latency\":15.5},\"isp\":\"Acme Net\",\"server\":{\"name\":\"NYC-1\"}}";
    assert_eq!(parse_error(stdout), "missing field `upload`");
}

#[test]
fn response_without_ping_is_a_parse_error() {
    let stdout = "{\"download\":{\"bandwidth\":12500000},\"upload\":{\"bandwidth\":1250000},\"isp\":\"Acme Net\",\"server\":{\"name\":\"NYC-1\"}}";
    assert_eq!(parse_error(stdout), "missing field `ping`");
}

#[test]
fn response_without_isp_is_a_parse_error() {
    let stdout = "{\"download\":{\"bandwidth\":12500000},\"upload\":{\"bandwidth\":1250000},\"ping\":{\"latency\":15.5},\"server\":{\"name\":\"NYC-1\"}}";
    assert_eq!(parse_error(stdout), "missing field `isp`");
}

#[test]
fn response_without_server_is_a_parse_error() {
    let stdout = "{\"download\":{\"bandwidth\":12500000},\"upload\":{\"bandwidth\":1250000},\"ping\":{\"latency\":15.5},\"isp\":\"Acme Net\"}";
    assert_eq!(parse_error(stdout), "missing field `server`");
}

#[test]
fn failed_exit_is_an_execution_error_with_the_standard_error_text() {
    let monitor = NetworkMonitor::new();
    let stderr = "[error] Cannot open socket: Timeout occurred in connect.\n";
    let outcome = monitor.collect_metrics(&exited(false, WELL_FORMED, stderr));
    assert_eq!(outcome, Err(CollectionError::ExecutionError(stderr.to_string())));
    let outcome = monitor.collect_metrics(&exited(false, "", stderr));
    assert_eq!(outcome, Err(CollectionError::ExecutionError(stderr.to_string())));
    let outcome = monitor.collect_metrics(&exited(false, "not json", ""));
    assert_eq!(outcome, Err(CollectionError::ExecutionError(String::new())));
}

#[test]
fn standard_error_keeps_text_beyond_ascii() {
    let stderr = "Verbindung fehlgeschlagen: Zeitüberschreitung \u{2014} \u{1F4A5}";
    let outcome = NetworkMonitor::new().collect_metrics(&exited(false, WELL_FORMED, stderr));
    assert_eq!(outcome, Err(CollectionError::ExecutionError(stderr.to_string())));
}

#[test]
fn standard_error_that_is_not_utf8_is_read_with_replacement_characters() {
    let attempt = ToolAttempt::Exited {
        success: false,
        stdout: Vec::new(),
        stderr: vec![b'o', b'h', 0xff, b'!', 0xc3],
    };
    let outcome = NetworkMonitor::new().collect_metrics(&attempt);
    assert_eq!(
        outcome,
        Err(CollectionError::ExecutionError("oh\u{fffd}!\u{fffd}".to_string()))
    );
}

#[test]
fn tool_that_did_not_start_is_an_execution_error() {
    let attempt = ToolAttempt::NotStarted { reason: "No such file or directory".to_string() };
    assert_eq!(
        NetworkMonitor::new().collect_metrics(&attempt),
        Err(CollectionError::ExecutionError("No such file or directory".to_string()))
    );
}

#[test]
fn output_that_is_no_json_is_a_parse_error_with_the_parsers_message() {
    for stdout in ["", "speedtest: command output", "{\"download\":", "{\"isp\":\"Acme Net\",}"] {
        let expected = serde_json::from_slice::<serde_json::Value>(stdout.as_bytes())
            .unwrap_err()
            .to_string();
        assert!(!expected.is_empty());
        assert_eq!(parse_error(stdout), expected);
    }
    assert_eq!(parse_error(""), "EOF while parsing a value at line 1 column 0");
}

#[test]
fn text_after_the_document_is_a_parse_error() {
    let stdout = format!("{} trailing", WELL_FORMED);
    let expected =
        serde_json::from_slice::<serde_json::Value>(stdout.as_bytes()).unwrap_err().to_string();
    assert_eq!(parse_error(&stdout), expected);
}

#[test]
fn space_around_the_document_is_accepted() {
    let stdout = format!("\n  {}\n", WELL_FORMED);
    assert_eq!(collect(&stdout).unwrap().isp, "Acme Net");
}

#[test]
fn document_that_is_no_object_is_a_parse_error() {
    assert_eq!(parse_error("[]"), "expected a JSON object");
    assert_eq!(parse_error("null"), "expected a JSON object");
    assert_eq!(parse_error("12500000"), "expected a JSON object");
    assert_eq!(parse_error("\"download\""), "expected a JSON object");
    let wrapped = format!("[{}]", WELL_FORMED);
    assert_eq!(parse_error(&wrapped), "expected a JSON object");
}

#[test]
fn bandwidth_of_the_wrong_type_is_a_parse_error() {
    let stdout = WELL_FORMED.replace("12500000", "\"fast\"");
    assert_eq!(parse_error(&stdout), "invalid value for field `download`");
    let stdout = WELL_FORMED.replace("12500000", "12500000.5");
    assert_eq!(parse_error(&stdout), "invalid value for field `download`");
    let stdout = WELL_FORMED.replace("12500000", "-1");
    assert_eq!(parse_error(&stdout), "invalid value for field `download`");
    let stdout = WELL_FORMED.replace("1250000}", "1.25e6}");
    assert_eq!(parse_error(&stdout), "invalid value for field `upload`");
    let stdout = WELL_FORMED.replace("1250000}", "18446744073709551616}");
    assert_eq!(parse_error(&stdout), "invalid value for field `upload`");
}

#[test]
fn largest_bandwidth_is_accepted() {
    let stdout = WELL_FORMED.replace("12500000", "18446744073709551615");
    let metrics = collect(&stdout).unwrap();
    assert_eq!(metrics.download_speed, Mbps::from_bytes_per_second(u64::MAX));
}

#[test]
fn members_of_the_wrong_shape_are_parse_errors() {
    let stdout = WELL_FORMED.replace("{\"latency\":15.5}", "15.5");
    assert_eq!(parse_error(&stdout), "invalid value for field `ping`");
    let stdout = WELL_FORMED.replace("{\"latency\":15.5}", "{\"latency\":\"15.5\"}");
    assert_eq!(parse_error(&stdout), "invalid value for field `ping`");
    let stdout = WELL_FORMED.replace("\"Acme Net\"", "null");
    assert_eq!(parse_error(&stdout), "invalid value for field `isp`");
    let stdout = WELL_FORMED.replace("{\"name\":\"NYC-1\"}", "\"NYC-1\"");
    assert_eq!(parse_error(&stdout), "invalid value for field `server`");
    let stdout = WELL_FORMED.replace("{\"name\":\"NYC-1\"}", "{}");
    assert_eq!(parse_error(&stdout), "invalid value for field `server`");
}

#[test]
fn latency_written_as_an_integer_is_accepted() {
    let stdout = WELL_FORMED.replace("15.5", "15");
    assert_eq!(f64::from_bits(collect(&stdout).unwrap().ping_ms.bits), 15.0);
}

#[test]
fn latency_is_read_to_the_nearest_double() {
    let stdout = WELL_FORMED.replace("15.5", "0.1");
    assert_eq!(collect(&stdout).unwrap().ping_ms, Milliseconds { bits: 0.1f64.to_bits() });
    let stdout = WELL_FORMED.replace("15.5", "1.5e2");
    assert_eq!(f64::from_bits(collect(&stdout).unwrap().ping_ms.bits), 150.0);
}

#[test]
fn unknown_members_are_ignored() {
    let stdout = "{\"type\":\"result\",\"timestamp\":\"2024-05-01T10:00:00Z\",\"ping\":{\"jitter\":0.4,\"latency\":15.5,\"low\":15.1},\"download\":{\"bandwidth\":12500000,\"bytes\":151234560,\"elapsed\":12001,\"latency\":{\"iqm\":20.1}},\"upload\":{\"bandwidth\":1250000,\"bytes\":15123456},\"packetLoss\":0,\"isp\":\"Acme Net\",\"interface\":{\"name\":\"eth0\",\"isVpn\":false},\"server\":{\"id\":1234,\"host\":\"nyc.example.net\",\"port\":8080,\"name\":\"NYC-1\",\"location\":\"New York, NY\"},\"result\":{\"id\":\"0000\",\"persisted\":true},\"tags\":[1,[2,{\"deep\":null}]]}";
    let metrics = collect(stdout).unwrap();
    let plain = collect(WELL_FORMED).unwrap();
    assert_eq!(metrics.download_speed, plain.download_speed);
    assert_eq!(metrics.upload_speed, plain.upload_speed);
    assert_eq!(metrics.ping_ms, plain.ping_ms);
    assert_eq!(metrics.isp, plain.isp);
    assert_eq!(metrics.server_name, plain.server_name);
}

#[test]
fn escapes_in_text_are_decoded() {
    let stdout = WELL_FORMED.replace("Acme Net", "Acme \\\"Net\\\" \\u00e9\\n");
    assert_eq!(collect(&stdout).unwrap().isp, "Acme \"Net\" \u{e9}\n");
}

#[test]
fn empty_server_name_is_kept() {
    let stdout = WELL_FORMED.replace("NYC-1", "");
    assert_eq!(collect(&stdout).unwrap().server_name, "");
}

#[test]
fn interpret_document_passes_the_parsers_error_on() {
    let outcome = interpret_document(Err("expected value at line 1 column 1".to_string()));
    assert_eq!(
        outcome,
        Err(CollectionError::ParseError("expected value at line 1 column 1".to_string()))
    );
}

#[test]
fn interpret_document_reads_a_document() {
    let number = |value: u64| {
        Json::Number(JsonNumber { unsigned: Some(value), float_bits: Some((value as f64).to_bits()) })
    };
    let doc = Json::Object(vec![
        ("isp".to_string(), Json::Text("Acme Net".to_string())),
        ("server".to_string(), Json::Object(vec![("name".to_string(), Json::Text("NYC-1".to_string()))])),
        ("ping".to_string(), Json::Object(vec![("latency".to_string(), number(20))])),
        ("upload".to_string(), Json::Object(vec![("bandwidth".to_string(), number(2))])),
        ("download".to_string(), Json::Object(vec![("bandwidth".to_string(), number(1))])),
    ]);
    assert_eq!(
        interpret_document(Ok(doc)),
        Ok(SpeedTestResult {
            download_bandwidth: 1,
            upload_bandwidth: 2,
            ping_latency: Milliseconds { bits: 20.0f64.to_bits() },
            isp: "Acme Net".to_string(),
            server_name: "NYC-1".to_string(),
        })
    );
    assert_eq!(
        interpret_document(Ok(Json::Array(Vec::new()))),
        Err(CollectionError::ParseError("expected a JSON object".to_string()))
    );
}

#[test]
fn read_attempt_gives_the_raw_result() {
    let result = NetworkMonitor::new().read_attempt(&exited(true, WELL_FORMED, "")).unwrap();
    assert_eq!(result.download_bandwidth, 12_500_000);
    assert_eq!(result.upload_bandwidth, 1_250_000);
    assert_eq!(result.ping_latency.bits, 15.5f64.to_bits());
    assert_eq!(result.isp, "Acme Net");
    assert_eq!(result.server_name, "NYC-1");
}

#[test]
fn record_is_normalized_from_the_raw_result() {
    let result = SpeedTestResult {
        download_bandwidth: 125_001,
        upload_bandwidth: 0,
        ping_latency: Milliseconds { bits: 3.25f64.to_bits() },
        isp: "Acme Net".to_string(),
        server_name: String::new(),
    };
    let metrics = NetworkMetrics::from_result(result, 1_700_000_000);
    assert_eq!(metrics.timestamp, 1_700_000_000);
    assert_eq!(metrics.download_speed.whole(), 1);
    assert_eq!(metrics.download_speed.millionths(), 8);
    assert_eq!(metrics.upload_speed.bits_per_second(), 0);
    assert_eq!(f64::from_bits(metrics.ping_ms.bits), 3.25);
    assert_eq!(metrics.isp, "Acme Net");
    assert_eq!(metrics.server_name, "");
}

#[test]
fn errors_are_described_for_the_log() {
    assert_eq!(
        CollectionError::ExecutionError("no route to host".to_string()).describe(),
        "Speedtest failed: no route to host"
    );
    assert_eq!(
        CollectionError::ParseError("missing field `isp`".to_string()).describe(),
        "Failed to parse speedtest output: missing field `isp`"
    );
}

#[test]
fn tool_is_run_for_json_without_prompts() {
    let monitor = NetworkMonitor::new();
    assert_eq!(monitor.tool_program(), "speedtest");
    assert_eq!(
        monitor.tool_arguments(),
        vec!["--format=json", "--progress=no", "--accept-license"]
    );
}

#[test]
fn default_cadence_is_one_minute() {
    assert_eq!(DEFAULT_CADENCE_SECS, 60);
    assert_eq!(NetworkMonitor::new().cadence_secs(), 60);
}

#[test]
fn cadence_must_be_positive() {
    assert_eq!(NetworkMonitor::with_cadence(0), None);
    assert_eq!(NetworkMonitor::with_cadence(1).unwrap().cadence_secs(), 1);
    assert_eq!(NetworkMonitor::with_cadence(u64::MAX).unwrap().cadence_secs(), u64::MAX);
}
