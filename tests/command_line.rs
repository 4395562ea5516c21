use httperf_sweep::{default_cases, parse_cli, parse_port, usage_line, TestKind, UsageError};

fn args(a: &[&str]) -> Vec<String> {
    a.iter().map(|s| s.to_string()).collect()
}

#[test]
fn too_few_arguments_is_usage() {
    assert_eq!(parse_cli(&args(&["bench"])).err(), Some(UsageError::MissingArgs));
    assert_eq!(parse_cli(&args(&["bench", "host"])).err(), Some(UsageError::MissingArgs));
    assert_eq!(parse_cli(&args(&["bench", "host", "80"])).err(), Some(UsageError::MissingArgs));
    assert_eq!(parse_cli(&Vec::new()).err(), Some(UsageError::MissingArgs));
}

#[test]
fn bad_port_is_usage_error() {
    assert_eq!(parse_cli(&args(&["bench", "host", "abc", "w"])).err(), Some(UsageError::BadPort));
    assert_eq!(
        parse_cli(&args(&["bench", "host", "99999999", "w"])).err(),
        Some(UsageError::BadPort)
    );
    assert_eq!(parse_cli(&args(&["bench", "host", "65536", "w"])).err(), Some(UsageError::BadPort));
}

#[test]
fn port_grammar() {
    assert_eq!(parse_port("8080"), Some(8080));
    assert_eq!(parse_port("0"), Some(0));
    assert_eq!(parse_port("65535"), Some(65535));
    assert_eq!(parse_port("+443"), Some(443));
    assert_eq!(parse_port("007"), Some(7));
    assert_eq!(parse_port("65536"), None);
    assert_eq!(parse_port(""), None);
    assert_eq!(parse_port("+"), None);
    assert_eq!(parse_port("-1"), None);
    assert_eq!(parse_port("8o"), None);
    for s in ["1", "80", "65535", "+9", "0009"] {
        assert_eq!(parse_port(s), s.parse::<u16>().ok());
    }
}

#[test]
fn good_command_line() {
    let inv = parse_cli(&args(&["bench", "127.0.0.1", "8080", "cat", "dog"])).unwrap();
    assert_eq!(inv.server_addr, "127.0.0.1");
    assert_eq!(inv.port, 8080);
    assert_eq!(inv.dict, vec!["cat", "dog"]);
    let cases = default_cases(&inv);
    assert_eq!(cases.len(), 3);
    let kinds: Vec<TestKind> = cases.iter().map(|c| c.kind).collect();
    assert_eq!(kinds, vec![TestKind::Latency, TestKind::ThroughputBytes, TestKind::ThroughputReq]);
    let files: Vec<&str> = cases.iter().map(|c| c.out_file.as_str()).collect();
    assert_eq!(
        files,
        vec![
            "multisampled_latency.png",
            "multisampled_throughput_bytes.png",
            "multisampled_throughput_requests.png"
        ]
    );
    for c in &cases {
        assert_eq!(c.dict, vec!["cat", "dog"]);
        assert_eq!(c.server_port, 8080);
    }
}

#[test]
fn usage_text() {
    assert_eq!(
        usage_line("bench"),
        "./bench <server_addr> <port_number> <query_word1> <query_word2> ..."
    );
}

#[test]
fn kind_facets() {
    assert_eq!(TestKind::Latency.y_title(), "Avg. Response Latency (ms)");
    assert_eq!(TestKind::ThroughputReq.y_title(), "Max. Throughput (req./sec.)");
    assert_eq!(TestKind::ThroughputBytes.y_title(), "Max. Throughput (KB/sec.)");
    assert_eq!(TestKind::Latency.pattern(), r"Connection time.*avg (\S+) max");
    assert_eq!(TestKind::ThroughputReq.pattern(), r"Request rate: (\S+) req");
    assert_eq!(TestKind::ThroughputBytes.pattern(), r"Net I/O: (\S+) ");
    assert_eq!(TestKind::Latency.count_flag(), "--num-calls");
    assert_eq!(TestKind::ThroughputBytes.count_flag(), "--num-conns");
}
