use vstd::prelude::*;
use vstd::string::*;
use crate::kind::{spec_count_flag, TestKind};
use crate::query::{query_uri, spec_uri};

verus! {

/// The benchmarking tool that each sweep step runs.
pub const BENCH_CMD: &'static str = "httperf";

/// How many times the tool repeats each request.
pub const SAMPLES: u64 = 10;

pub open spec fn digit_char(d: nat) -> char {
    seq!['0', '1', '2', '3', '4', '5', '6', '7', '8', '9'][d as int]
}

/// The decimal digits of `n`, without leading zeros.
pub open spec fn decimal(n: nat) -> Seq<char>
    decreases n,
{
    if n < 10 {
        seq![digit_char(n)]
    } else {
        decimal(n / 10).push(digit_char(n % 10))
    }
}

/// The tool's arguments for one sweep step.
pub open spec fn spec_bench_args(
    addr: Seq<char>,
    port: nat,
    query: Seq<char>,
    kind: TestKind,
    samples: nat,
) -> Seq<Seq<char>> {
    seq![
        "--server"@,
        addr,
        "--port"@,
        decimal(port),
        "--uri"@,
        spec_uri(query),
        spec_count_flag(kind),
        decimal(samples),
    ]
}

fn digit_str(d: u64) -> (r: &'static str)
    requires
        d < 10,
    ensures
        r@ == seq![digit_char(d as nat)],
{
    proof {
        reveal_strlit("0");
        reveal_strlit("1");
        reveal_strlit("2");
        reveal_strlit("3");
        reveal_strlit("4");
        reveal_strlit("5");
        reveal_strlit("6");
        reveal_strlit("7");
        reveal_strlit("8");
        reveal_strlit("9");
    }
    let r = match d {
        0 => "0",
        1 => "1",
        2 => "2",
        3 => "3",
        4 => "4",
        5 => "5",
        6 => "6",
        7 => "7",
        8 => "8",
        _ => "9",
    };
    assert(r@ =~= seq![digit_char(d as nat)]);
    r
}

/// `n` written in decimal.
pub fn decimal_string(n: u64) -> (r: String)
    ensures
        r@ == decimal(n as nat),
    decreases n,
{
    if n < 10 {
        String::from_str(digit_str(n))
    } else {
        let r = decimal_string(n / 10).concat(digit_str(n % 10));
        assert(r@ =~= decimal(n as nat));
        r
    }
}

/// The arguments that make the tool request `query` from the server at
/// `addr:port`, repeated `samples` times in the way that `kind` asks for.
pub fn bench_args(addr: &str, port: u16, query: &str, kind: TestKind, samples: u64) -> (r: Vec<
    String,
>)
    ensures
        r@.map_values(|a: String| a@) == spec_bench_args(
            addr@,
            port as nat,
            query@,
            kind,
            samples as nat,
        ),
{
    let mut r: Vec<String> = Vec::new();
    r.push(String::from_str("--server"));
    r.push(String::from_str(addr));
    r.push(String::from_str("--port"));
    r.push(decimal_string(port as u64));
    r.push(String::from_str("--uri"));
    r.push(query_uri(query));
    r.push(String::from_str(kind.count_flag()));
    r.push(decimal_string(samples));
    assert(r@.map_values(|a: String| a@) =~= spec_bench_args(
        addr@,
        port as nat,
        query@,
        kind,
        samples as nat,
    ));
    r
}

} // verus!
