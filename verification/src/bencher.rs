//! The benchmark orchestrator: codecs × corpus, strictly sequential.
//!
//! For each codec in registration order, and within it each corpus item in
//! corpus order, the timing engine runs once and its result is appended to
//! the codec's series. Nothing runs concurrently — accurate wall-clock
//! measurement needs CPU exclusivity — and no state is shared between
//! iterations. Colors are assigned deterministically by codec index into the
//! fixed palette, falling back to the documented color once it is exhausted.

use vstd::prelude::*;
use crate::bfunc::{result_valid, BenchResult, Bfunc};
use crate::error::{BenchError, CodecError, Phase};
use crate::graph::{color_for, color_wheel, fallback_color, COLOR_WHEEL_LEN};

verus! {

/// One codec's ordered measurements across the corpus, with the codec's
/// label and assigned chart color.
pub struct SeriesData {
    /// The codec's label, as registered.
    pub title: &'static str,
    /// The assigned trace color.
    pub color: (u8, u8, u8),
    /// One result per corpus item, in corpus order.
    pub results: Vec<BenchResult>,
}

/// What the orchestrator owes for the series at `idx`: the codec's label,
/// the deterministic color assignment, and one well-formed result of the
/// codec's family per corpus item, in corpus order.
pub open spec fn series_matches(
    s: SeriesData,
    f: Bfunc,
    idx: int,
    n: int,
    inputs: Seq<Vec<u8>>,
) -> bool {
    &&& s.title == f.title
    &&& (idx < COLOR_WHEEL_LEN ==> s.color == color_wheel(idx))
    &&& (idx >= COLOR_WHEEL_LEN ==> s.color == fallback_color())
    &&& s.results@.len() == inputs.len()
    &&& forall|j: int|
        0 <= j < inputs.len() ==> result_valid(
            #[trigger] s.results@[j],
            inputs[j]@,
            n,
            f.compressor.family(),
        )
}

/// The whole benchmark run: an ordered list of codecs under test and the
/// corpus of decompressed inputs they are measured on.
pub struct Bencher {
    functions: Vec<Bfunc>,
    inputs: Vec<Vec<u8>>,
}

impl Bencher {
    /// Every registered codec is well formed.
    pub closed spec fn wf(&self) -> bool {
        forall|i: int| 0 <= i < self.functions@.len() ==> (#[trigger] self.functions@[i]).wf()
    }

    /// The registered codecs, in order.
    pub closed spec fn functions(&self) -> Seq<Bfunc> {
        self.functions@
    }

    /// The corpus, in order.
    pub closed spec fn inputs(&self) -> Seq<Vec<u8>> {
        self.inputs@
    }

    /// Register the codecs under test and the corpus they run on.
    pub fn new(functions: Vec<Bfunc>, inputs: Vec<Vec<u8>>) -> (r: Bencher)
        requires
            forall|i: int| 0 <= i < functions@.len() ==> (#[trigger] functions@[i]).wf(),
        ensures
            r.wf(),
            r.functions() == functions@,
            r.inputs() == inputs@,
    {
        Bencher { functions, inputs }
    }

    /// Run the full benchmark: exactly one series per codec in registration
    /// order, each with exactly one result per corpus item in corpus order.
    /// Any codec failure is fatal to the whole run and reported with the
    /// codec and corpus indices that triggered it; no partial result is
    /// returned and nothing is retried.
    pub fn run(&self, num_of_samples: u8) -> (r: Result<Vec<SeriesData>, BenchError>)
        requires
            self.wf(),
            num_of_samples >= 1,
        ensures
            r is Ok ==> r->Ok_0@.len() == self.functions().len(),
            r is Ok ==> forall|i: int|
                0 <= i < self.functions().len() ==> series_matches(
                    #[trigger] r->Ok_0@[i],
                    self.functions()[i],
                    i,
                    num_of_samples as int,
                    self.inputs(),
                ),
            r is Err ==> r->Err_0.codec_idx < self.functions().len()
                && r->Err_0.input_idx < self.inputs().len() && r->Err_0.error
                == CodecError::Operation(Phase::Compress),
    {
        let mut series: Vec<SeriesData> = Vec::new();
        let mut idx: usize = 0;
        while idx < self.functions.len()
            invariant
                self.wf(),
                num_of_samples >= 1,
                idx <= self.functions@.len(),
                series@.len() == idx as int,
                forall|i: int|
                    0 <= i < idx as int ==> series_matches(
                        #[trigger] series@[i],
                        self.functions@[i],
                        i,
                        num_of_samples as int,
                        self.inputs@,
                    ),
            decreases self.functions@.len() - idx as int,
        {
            let bfunc = &self.functions[idx];
            let color = color_for(idx);
            let mut results: Vec<BenchResult> = Vec::new();
            let mut j: usize = 0;
            while j < self.inputs.len()
                invariant
                    self.wf(),
                    num_of_samples >= 1,
                    idx < self.functions@.len(),
                    bfunc == self.functions@[idx as int],
                    j <= self.inputs@.len(),
                    results@.len() == j as int,
                    forall|k: int|
                        0 <= k < j as int ==> result_valid(
                            #[trigger] results@[k],
                            self.inputs@[k]@,
                            num_of_samples as int,
                            bfunc.compressor.family(),
                        ),
                decreases self.inputs@.len() - j as int,
            {
                let input = &self.inputs[j];
                match bfunc.bench(input.as_slice(), num_of_samples) {
                    Ok(b) => results.push(b),
                    Err(e) => {
                        return Err(BenchError { codec_idx: idx, input_idx: j, error: e });
                    },
                }
                j = j + 1;
            }
            series.push(SeriesData { title: bfunc.title, color, results });
            idx = idx + 1;
        }
        Ok(series)
    }
}

} // verus!
