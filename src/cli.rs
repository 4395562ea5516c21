use vstd::prelude::*;
use vstd::string::*;
use crate::kind::{spec_out_file, TestKind};
use crate::metric::{digit_run, digits_value, run_value};
use crate::query::words_of;
use crate::sweep::TestCase;

verus! {

/// Why the command line cannot start a run.
#[derive(Clone, Copy, Debug, PartialEq, Eq, Structural)]
pub enum UsageError {
    /// Fewer than three arguments after the program's name.
    MissingArgs,
    /// The port is not a number from 0 to 65535.
    BadPort,
}

/// What the command line asks for: a server and the words of the queries.
#[derive(Debug)]
pub struct Invocation {
    pub server_addr: String,
    pub port: u16,
    pub dict: Vec<String>,
}

/// The digits of a port number, past an optional leading `+`.
pub open spec fn port_digits(s: Seq<char>) -> Seq<char> {
    if s.len() > 0 && s[0] == '+' {
        s.skip(1)
    } else {
        s
    }
}

/// The port that `s` writes in decimal, if it writes one that fits in 16 bits.
pub open spec fn port_value(s: Seq<char>) -> Option<u16> {
    let t = port_digits(s);
    if digit_run(t) && digits_value(t) <= u16::MAX {
        Some(digits_value(t) as u16)
    } else {
        None
    }
}

/// Reads a port number: decimal digits, optionally after a `+`.
pub fn parse_port(s: &str) -> (r: Option<u16>)
    ensures
        r == port_value(s@),
{
    let n = s.unicode_len();
    let start: usize = if n > 0 && s.get_char(0) == '+' {
        1
    } else {
        0
    };
    proof {
        if start == 1 {
            assert(s@.skip(1) =~= s@.subrange(1, n as int));
        } else {
            assert(s@ =~= s@.subrange(0, n as int));
        }
    }
    match run_value(s, start, n) {
        Some(v) => {
            if v <= 65535 {
                Some(v as u16)
            } else {
                None
            }
        },
        None => None,
    }
}

/// The outcome of reading `args`, the program's name first.
pub open spec fn spec_parse_cli(args: Seq<Seq<char>>) -> Result<(Seq<char>, u16, Seq<Seq<char>>), UsageError> {
    if args.len() < 4 {
        Err(UsageError::MissingArgs)
    } else {
        match port_value(args[2]) {
            None => Err(UsageError::BadPort),
            Some(p) => Ok((args[1], p, args.skip(3))),
        }
    }
}

/// Reads the command line `<program> <server_addr> <port> <word>...`.
pub fn parse_cli(args: &Vec<String>) -> (r: Result<Invocation, UsageError>)
    ensures
        match spec_parse_cli(words_of(args@)) {
            Ok((addr, port, words)) => r matches Ok(inv) && inv.server_addr@ == addr && inv.port
                == port && words_of(inv.dict@) == words,
            Err(e) => r == Err::<Invocation, UsageError>(e),
        },
{
    let ghost view = words_of(args@);
    if args.len() < 4 {
        return Err(UsageError::MissingArgs);
    }
    assert(view[2] == args@[2]@);
    let port = match parse_port(args[2].as_str()) {
        Some(p) => p,
        None => {
            return Err(UsageError::BadPort);
        },
    };
    let mut dict: Vec<String> = Vec::new();
    let mut i: usize = 3;
    while i < args.len()
        invariant
            3 <= i <= args.len(),
            view == words_of(args@),
            words_of(dict@) =~= view.subrange(3, i as int),
        decreases args.len() - i,
    {
        let ghost prev = dict@;
        dict.push(args[i].clone());
        assert(dict@ == prev.push(args@[i as int]));
        assert(words_of(dict@) =~= words_of(prev).push(args@[i as int]@));
        assert(view.subrange(3, i + 1) =~= view.subrange(3, i as int).push(view[i as int]));
        i = i + 1;
    }
    assert(view.skip(3) =~= view.subrange(3, args.len() as int));
    Ok(Invocation { server_addr: args[1].clone(), port, dict })
}

/// The line that tells how to call `program`.
pub fn usage_line(program: &str) -> (r: String)
    ensures
        r@ == "./"@ + program@ + " <server_addr> <port_number> <query_word1> <query_word2> ..."@,
{
    String::from_str("./").concat(program).concat(
        " <server_addr> <port_number> <query_word1> <query_word2> ...",
    )
}

/// One test case per default kind, each writing its own image.
pub fn default_cases(inv: &Invocation) -> (r: Vec<TestCase>)
    ensures
        r.len() == 3,
        r[0].kind == TestKind::Latency,
        r[1].kind == TestKind::ThroughputBytes,
        r[2].kind == TestKind::ThroughputReq,
        forall|i: int|
            0 <= i < 3 ==> {
                &&& (#[trigger] r[i]).server_addr@ == inv.server_addr@
                &&& r[i].server_port == inv.port
                &&& words_of(r[i].dict@) == words_of(inv.dict@)
                &&& r[i].out_file@ == spec_out_file(r[i].kind)
            },
{
    let kinds = TestKind::defaults();
    let mut r: Vec<TestCase> = Vec::new();
    let mut i: usize = 0;
    while i < 3
        invariant
            i <= 3,
            kinds@ == seq![TestKind::Latency, TestKind::ThroughputBytes, TestKind::ThroughputReq],
            r.len() == i,
            forall|j: int| 0 <= j < i ==> (#[trigger] r[j]).kind == kinds@[j],
            forall|j: int|
                0 <= j < i ==> {
                    &&& (#[trigger] r[j]).server_addr@ == inv.server_addr@
                    &&& r[j].server_port == inv.port
                    &&& words_of(r[j].dict@) == words_of(inv.dict@)
                    &&& r[j].out_file@ == spec_out_file(r[j].kind)
                },
        decreases 3 - i,
    {
        let kind = kinds[i];
        let dict = clone_words(&inv.dict);
        r.push(
            TestCase {
                server_addr: inv.server_addr.clone(),
                server_port: inv.port,
                dict,
                kind,
                out_file: String::from_str(kind.out_file()),
            },
        );
        i = i + 1;
    }
    r
}

fn clone_words(words: &Vec<String>) -> (r: Vec<String>)
    ensures
        words_of(r@) == words_of(words@),
{
    let mut r: Vec<String> = Vec::new();
    let mut i: usize = 0;
    while i < words.len()
        invariant
            i <= words.len(),
            words_of(r@) =~= words_of(words@.subrange(0, i as int)),
        decreases words.len() - i,
    {
        let ghost prev = r@;
        r.push(words[i].clone());
        assert(r@ == prev.push(words@[i as int]));
        assert(words@.subrange(0, i + 1) =~= words@.subrange(0, i as int).push(words@[i as int]));
        assert(words_of(r@) =~= words_of(prev).push(words@[i as int]@));
        assert(words_of(words@.subrange(0, i + 1)) =~= words_of(words@.subrange(0, i as int)).push(words@[i as int]@));
        i = i + 1;
    }
    assert(words@.subrange(0, words.len() as int) =~= words@);
    r
}

} // verus!
