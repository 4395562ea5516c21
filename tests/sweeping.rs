use httperf_sweep::{
    bench_args, build_queries, compute_bounds, decimal_string, query_uri, Bounds, ExtractError,
    Metric, Sample, Sweep, TestCase, TestKind, BENCH_CMD, SAMPLES,
};

const E18: u128 = 1_000_000_000_000_000_000;

fn words(ws: &[&str]) -> Vec<String> {
    ws.iter().map(|w| w.to_string()).collect()
}

fn case(dict: &[&str], kind: TestKind) -> TestCase {
    TestCase {
        server_addr: "127.0.0.1".to_string(),
        server_port: 8080,
        dict: words(dict),
        kind,
        out_file: kind.out_file().to_string(),
    }
}

#[test]
fn queries_are_word_prefixes() {
    let q = build_queries(&words(&["alpha", "beta", "gamma"]));
    assert_eq!(q, vec!["alpha", "alpha+beta", "alpha+beta+gamma"]);
    assert_eq!(build_queries(&words(&["one"])), vec!["one"]);
    assert!(build_queries(&Vec::new()).is_empty());
}

#[test]
fn uri_and_numbers() {
    assert_eq!(query_uri("cat+dog"), "/query?terms=cat+dog");
    assert_eq!(decimal_string(0), "0");
    assert_eq!(decimal_string(8080), "8080");
    assert_eq!(decimal_string(65535), "65535");
    assert_eq!(decimal_string(u64::MAX), "18446744073709551615");
}

#[test]
fn arguments_per_kind() {
    assert_eq!(BENCH_CMD, "httperf");
    assert_eq!(
        bench_args("10.0.0.1", 80, "a+b", TestKind::Latency, SAMPLES),
        vec!["--server", "10.0.0.1", "--port", "80", "--uri", "/query?terms=a+b", "--num-calls", "10"]
    );
    assert_eq!(
        bench_args("h", 1, "q", TestKind::ThroughputBytes, 7),
        vec!["--server", "h", "--port", "1", "--uri", "/query?terms=q", "--num-conns", "7"]
    );
    assert_eq!(
        bench_args("h", 1, "q", TestKind::ThroughputReq, 7)[6],
        "--num-conns"
    );
}

#[test]
fn bounds_ignore_order() {
    let m = |units: u128, tenths: u128| Metric { scaled: units * E18 + tenths * E18 / 10 };
    let s = vec![
        Sample { x: 3, y: m(1, 0) },
        Sample { x: 7, y: m(5, 0) },
        Sample { x: 5, y: m(2, 0) },
    ];
    let expected = Bounds { min_x: 3, max_x: 7, min_y: m(1, 0), max_y: m(5, 0) };
    assert_eq!(compute_bounds(&s), Some(expected));
    let mut r = s.clone();
    r.reverse();
    assert_eq!(compute_bounds(&r), Some(expected));
    let t = vec![s[2], s[0], s[1]];
    assert_eq!(compute_bounds(&t), Some(expected));
    assert_eq!(compute_bounds(&Vec::new()), None);
    let one = vec![Sample { x: 4, y: m(0, 5) }];
    assert_eq!(
        compute_bounds(&one),
        Some(Bounds { min_x: 4, max_x: 4, min_y: m(0, 5), max_y: m(0, 5) })
    );
}

#[test]
fn cat_dog_sweep() {
    let mut sw = Sweep::new(case(&["cat", "dog"], TestKind::Latency));
    let reports = [
        "Connection time [ms]: min 1.0 avg 1.5 max 2.0\n",
        "Connection time [ms]: min 1.0 avg 2.5 max 3.0\n",
    ];
    let mut uris = Vec::new();
    let mut step = 0;
    while let Some(args) = sw.next_args() {
        uris.push(args[5].clone());
        assert_eq!(args[1], "127.0.0.1");
        assert_eq!(args[3], "8080");
        assert_eq!(sw.record(reports[step]), Ok(()));
        step += 1;
    }
    assert!(sw.is_done());
    assert_eq!(uris, vec!["/query?terms=cat", "/query?terms=cat+dog"]);
    let xs: Vec<usize> = sw.series.iter().map(|s| s.x).collect();
    assert_eq!(xs, vec![3, 7]);
    assert_eq!(sw.series[0].y, Metric { scaled: 3 * E18 / 2 });
    assert_eq!(sw.series[1].y, Metric { scaled: 5 * E18 / 2 });
    assert_eq!(
        sw.bounds(),
        Some(Bounds {
            min_x: 3,
            max_x: 7,
            min_y: Metric { scaled: 3 * E18 / 2 },
            max_y: Metric { scaled: 5 * E18 / 2 },
        })
    );
}

#[test]
fn sweep_keeps_state_on_bad_report() {
    let mut sw = Sweep::new(case(&["cat", "dog"], TestKind::ThroughputReq));
    assert_eq!(sw.record("Request rate: N/A req/s\n"), Err(ExtractError::Malformed));
    assert_eq!(sw.record("nothing useful\n"), Err(ExtractError::Absent));
    assert!(sw.series.is_empty());
    assert_eq!(sw.next_args().unwrap()[5], "/query?terms=cat");
    sw.record_metric(Metric { scaled: 9 });
    assert_eq!(sw.series, vec![Sample { x: 3, y: Metric { scaled: 9 } }]);
    assert_eq!(sw.next_args().unwrap()[5], "/query?terms=cat+dog");
}

#[test]
fn series_length_matches_dictionary() {
    let dict = ["a", "bb", "ccc", "dddd"];
    let mut sw = Sweep::new(case(&dict, TestKind::ThroughputBytes));
    while sw.next_args().is_some() {
        assert_eq!(sw.record("Net I/O: 4.0 KB/s\n"), Ok(()));
    }
    assert_eq!(sw.series.len(), dict.len());
    let xs: Vec<usize> = sw.series.iter().map(|s| s.x).collect();
    assert_eq!(xs, vec![1, 4, 8, 13]);
}

#[test]
fn empty_dictionary_has_no_bounds() {
    let sw = Sweep::new(case(&[], TestKind::Latency));
    assert!(sw.is_done());
    assert!(sw.next_args().is_none());
    assert_eq!(sw.bounds(), None);
}
