use vstd::prelude::*;

verus! {

/// Which metric a sweep measures.
#[derive(Clone, Copy, Debug, PartialEq, Eq, Structural)]
pub enum TestKind {
    /// Average time for a response to arrive.
    Latency,
    /// Largest number of bytes per second served.
    ThroughputBytes,
    /// Largest number of requests per second served.
    ThroughputReq,
}

/// The chart's axis label for each kind.
pub open spec fn spec_y_title(k: TestKind) -> Seq<char> {
    match k {
        TestKind::Latency => "Avg. Response Latency (ms)"@,
        TestKind::ThroughputReq => "Max. Throughput (req./sec.)"@,
        TestKind::ThroughputBytes => "Max. Throughput (KB/sec.)"@,
    }
}

/// The pattern whose first group holds the kind's metric in a report.
pub open spec fn spec_pattern(k: TestKind) -> Seq<char> {
    match k {
        TestKind::Latency => "Connection time.*avg (\\S+) max"@,
        TestKind::ThroughputReq => "Request rate: (\\S+) req"@,
        TestKind::ThroughputBytes => "Net I/O: (\\S+) "@,
    }
}

/// The flag that carries the sample count for each kind.
pub open spec fn spec_count_flag(k: TestKind) -> Seq<char> {
    match k {
        TestKind::Latency => "--num-calls"@,
        _ => "--num-conns"@,
    }
}

/// The image file that a default run writes for each kind.
pub open spec fn spec_out_file(k: TestKind) -> Seq<char> {
    match k {
        TestKind::Latency => "multisampled_latency.png"@,
        TestKind::ThroughputBytes => "multisampled_throughput_bytes.png"@,
        TestKind::ThroughputReq => "multisampled_throughput_requests.png"@,
    }
}

impl TestKind {
    /// The kinds that a default run sweeps, in order.
    pub fn defaults() -> (r: Vec<TestKind>)
        ensures
            r@ == seq![TestKind::Latency, TestKind::ThroughputBytes, TestKind::ThroughputReq],
    {
        let r = vec![TestKind::Latency, TestKind::ThroughputBytes, TestKind::ThroughputReq];
        assert(r@ =~= seq![TestKind::Latency, TestKind::ThroughputBytes, TestKind::ThroughputReq]);
        r
    }

    pub fn y_title(self) -> (r: &'static str)
        ensures
            r@ == spec_y_title(self),
    {
        match self {
            TestKind::Latency => "Avg. Response Latency (ms)",
            TestKind::ThroughputReq => "Max. Throughput (req./sec.)",
            TestKind::ThroughputBytes => "Max. Throughput (KB/sec.)",
        }
    }

    pub fn pattern(self) -> (r: &'static str)
        ensures
            r@ == spec_pattern(self),
    {
        match self {
            TestKind::Latency => "Connection time.*avg (\\S+) max",
            TestKind::ThroughputReq => "Request rate: (\\S+) req",
            TestKind::ThroughputBytes => "Net I/O: (\\S+) ",
        }
    }

    pub fn count_flag(self) -> (r: &'static str)
        ensures
            r@ == spec_count_flag(self),
    {
        match self {
            TestKind::Latency => "--num-calls",
            _ => "--num-conns",
        }
    }

    pub fn out_file(self) -> (r: &'static str)
        ensures
            r@ == spec_out_file(self),
    {
        match self {
            TestKind::Latency => "multisampled_latency.png",
            TestKind::ThroughputBytes => "multisampled_throughput_bytes.png",
            TestKind::ThroughputReq => "multisampled_throughput_requests.png",
        }
    }
}

} // verus!
