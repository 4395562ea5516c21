//! Drives an HTTP benchmarking tool across queries of growing size and
//! turns its reports into chart-ready series.
mod bounds;
mod cli;
mod invoke;
mod kind;
mod metric;
mod query;
mod report;
mod sweep;

pub use kind::TestKind;
pub use query::{build_queries, lemma_query_extends, query_uri};
pub use metric::{parse_metric, Metric, FRACTION_DIGITS};
pub use invoke::{bench_args, decimal_string, BENCH_CMD, SAMPLES};
pub use report::{extract_metric, metric_from_capture, ExtractError};
pub use bounds::{compute_bounds, lemma_bounds_order_free, is_bounds, Bounds, Sample};
pub use sweep::{lemma_finished_sweep, Sweep, TestCase};
pub use cli::{default_cases, parse_cli, parse_port, usage_line, Invocation, UsageError};
