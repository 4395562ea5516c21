use vstd::prelude::*;
use vstd::string::*;
use crate::bounds::{compute_bounds, is_bounds, Bounds, Sample};
use crate::invoke::{bench_args, spec_bench_args, SAMPLES};
use crate::kind::TestKind;
use crate::metric::Metric;
use crate::query::{build_queries, spec_query, words_of};
use crate::report::{extract_metric, spec_extract, ExtractError};

verus! {

/// What one sweep runs against: the server, the words its queries are
/// made of, the metric measured and the image the chart goes to.
#[derive(Debug)]
pub struct TestCase {
    pub server_addr: String,
    pub server_port: u16,
    pub dict: Vec<String>,
    pub kind: TestKind,
    pub out_file: String,
}

/// A sweep in progress: the queries still to run follow the samples
/// already taken, one sample per query, in query order.
pub struct Sweep {
    pub case: TestCase,
    pub queries: Vec<String>,
    pub series: Vec<Sample>,
}

impl Sweep {
    pub open spec fn wf(&self) -> bool {
        &&& self.queries.len() == self.case.dict.len()
        &&& forall|i: int|
            0 <= i < self.queries.len() ==> #[trigger] self.queries[i]@ == spec_query(
                words_of(self.case.dict@),
                i,
            )
        &&& self.series.len() <= self.queries.len()
        &&& forall|j: int|
            0 <= j < self.series.len() ==> (#[trigger] self.series[j]).x == spec_query(
                words_of(self.case.dict@),
                j,
            ).len()
    }

    /// Every query has its sample.
    pub open spec fn spec_done(&self) -> bool {
        self.series.len() == self.case.dict.len()
    }

    /// A sweep of `case` that has taken no sample yet.
    pub fn new(case: TestCase) -> (r: Sweep)
        ensures
            r.wf(),
            r.case == case,
            r.series@.len() == 0,
    {
        let queries = build_queries(&case.dict);
        Sweep { case, queries, series: Vec::new() }
    }

    pub fn is_done(&self) -> (r: bool)
        requires
            self.wf(),
        ensures
            r == self.spec_done(),
    {
        self.series.len() == self.queries.len()
    }

    /// The tool's arguments for the next step; none once every query has
    /// its sample.
    pub fn next_args(&self) -> (r: Option<Vec<String>>)
        requires
            self.wf(),
        ensures
            self.spec_done() ==> r is None,
            !self.spec_done() ==> (r matches Some(a) && a@.map_values(|s: String| s@)
                == spec_bench_args(
                self.case.server_addr@,
                self.case.server_port as nat,
                spec_query(words_of(self.case.dict@), self.series.len() as int),
                self.case.kind,
                SAMPLES as nat,
            )),
    {
        let i = self.series.len();
        if i == self.queries.len() {
            return None;
        }
        Some(
            bench_args(
                self.case.server_addr.as_str(),
                self.case.server_port,
                self.queries[i].as_str(),
                self.case.kind,
                SAMPLES,
            ),
        )
    }

    /// Takes `m` as the sample of the next query.
    pub fn record_metric(&mut self, m: Metric)
        requires
            old(self).wf(),
            !old(self).spec_done(),
        ensures
            final(self).wf(),
            final(self).case == old(self).case,
            final(self).series@ == old(self).series@.push(
                Sample {
                    x: spec_query(words_of(old(self).case.dict@), old(self).series.len() as int).len()
                        as usize,
                    y: m,
                },
            ),
    {
        let i = self.series.len();
        let x = self.queries[i].as_str().unicode_len();
        self.series.push(Sample { x, y: m });
    }

    /// Reads the next query's sample from the report that its run gave;
    /// where the report holds no metric, the sweep is left as it was.
    pub fn record(&mut self, report: &str) -> (r: Result<(), ExtractError>)
        requires
            old(self).wf(),
            !old(self).spec_done(),
        ensures
            final(self).wf(),
            final(self).case == old(self).case,
            match spec_extract(report@, old(self).case.kind) {
                Ok(m) => r is Ok && final(self).series@ == old(self).series@.push(
                    Sample {
                        x: spec_query(words_of(old(self).case.dict@), old(self).series.len() as int).len()
                            as usize,
                        y: m,
                    },
                ),
                Err(e) => r == Err::<(), ExtractError>(e) && final(self).series@ == old(
                    self,
                ).series@,
            },
    {
        match extract_metric(report, self.case.kind) {
            Ok(m) => {
                self.record_metric(m);
                Ok(())
            },
            Err(e) => Err(e),
        }
    }

    /// The axis extents of the samples taken; none before the first.
    pub fn bounds(&self) -> (r: Option<Bounds>)
        ensures
            self.series.len() == 0 ==> r is None,
            self.series.len() > 0 ==> (r matches Some(b) && is_bounds(self.series@, b)),
    {
        compute_bounds(&self.series)
    }
}

/// A finished sweep holds one sample per word of its dictionary, and
/// sample `j` stands for the query of the first `j + 1` words.
pub proof fn lemma_finished_sweep(s: Sweep)
    requires
        s.wf(),
        s.spec_done(),
    ensures
        s.series.len() == s.case.dict.len(),
        forall|j: int|
            0 <= j < s.series.len() ==> (#[trigger] s.series[j]).x == spec_query(
                words_of(s.case.dict@),
                j,
            ).len(),
{
}

} // verus!
