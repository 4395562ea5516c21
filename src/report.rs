use vstd::prelude::*;
use crate::kind::{spec_pattern, TestKind};
use crate::metric::{metric_value, parse_metric, Metric};

verus! {

/// Why no metric could be read from a report.
#[derive(Clone, Copy, Debug, PartialEq, Eq, Structural)]
pub enum ExtractError {
    /// The report holds no line that the kind's pattern matches.
    Absent,
    /// The matched text is not a number.
    Malformed,
}

/// The text of group 1 of the leftmost match of the regular expression
/// `pattern` in `text`; none where the pattern does not compile, does not
/// match, or its group 1 takes no part in the match.
pub uninterp spec fn first_group(pattern: Seq<char>, text: Seq<char>) -> Option<Seq<char>>;

/// Relies on regex's `Regex::new`, `Regex::captures` and `Captures::get`:
/// what they return is the leftmost match of the compiled pattern, and the
/// text of its group 1.
#[verifier::external_body]
fn capture_group_one(pattern: &str, text: &str) -> (r: Option<String>)
    ensures
        match r {
            Some(g) => first_group(pattern@, text@) == Some(g@),
            None => first_group(pattern@, text@) is None,
        },
{
    let re = match regex::Regex::new(pattern) {
        Ok(re) => re,
        Err(_) => return None,
    };
    match re.captures(text) {
        Some(caps) => match caps.get(1) {
            Some(m) => Some(m.as_str().to_string()),
            None => None,
        },
        None => None,
    }
}

/// The outcome of reading a metric from the captured text, if any.
pub open spec fn spec_from_capture(captured: Option<Seq<char>>) -> Result<Metric, ExtractError> {
    match captured {
        None => Err(ExtractError::Absent),
        Some(g) => match metric_value(g) {
            Some(v) => Ok(Metric { scaled: v as u128 }),
            None => Err(ExtractError::Malformed),
        },
    }
}

/// The outcome of reading the metric of `kind` from a report.
pub open spec fn spec_extract(report: Seq<char>, kind: TestKind) -> Result<Metric, ExtractError> {
    spec_from_capture(first_group(spec_pattern(kind), report))
}

/// Turns the text that a kind's pattern captured into a metric.
pub fn metric_from_capture(captured: Option<String>) -> (r: Result<Metric, ExtractError>)
    ensures
        r == spec_from_capture(
            match captured {
                Some(g) => Some(g@),
                None => None,
            },
        ),
{
    match captured {
        None => Err(ExtractError::Absent),
        Some(g) => match parse_metric(g.as_str()) {
            Some(m) => Ok(m),
            None => Err(ExtractError::Malformed),
        },
    }
}

/// Reads the metric of `kind` from the text of a report.
pub fn extract_metric(report: &str, kind: TestKind) -> (r: Result<Metric, ExtractError>)
    ensures
        r == spec_extract(report@, kind),
{
    let captured = capture_group_one(kind.pattern(), report);
    metric_from_capture(captured)
}

} // verus!
