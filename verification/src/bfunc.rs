//! The timing engine: warm-up, sampling and median reduction for one
//! (codec, input) pair.
//!
//! One untimed compress call eliminates cold-start skew and produces the one
//! compressed artifact; N timed compress calls and, after one untimed
//! decompress warm-up, N timed decompress calls of that artifact follow. The
//! elapsed nanoseconds of each phase are reduced to a median: the samples are
//! sorted ascending, and the two middle elements are kept — equal for an odd
//! count (the true zero-based middle element), adjacent for an even count,
//! whose average is the median.

use vstd::prelude::*;
use vstd::multiset::Multiset;
use vstd::relations::{sorted_by, total_ordering};
use vstd::seq_lib::lemma_sorted_unique;
use crate::comp::CompFunc;
use crate::decomp::{inflate, DecompFunc, Family};
use crate::error::{CodecError, Phase};

verus! {

/// An opaque monotonic time stamp of the machine's clock.
#[verifier::external_type_specification]
#[verifier::external_body]
pub struct ExInstant(std::time::Instant);

/// Relies on `std::time::Instant::now`: an opaque monotonic time stamp.
#[verifier::external_body]
fn instant_now() -> std::time::Instant {
    std::time::Instant::now()
}

/// Relies on `std::time::Instant::elapsed`: the wall-clock nanoseconds since
/// the stamp was taken, saturated to 64 bits. Nothing is promised of the
/// value — time depends on the machine, not on the arguments.
#[verifier::external_body]
fn nanos_since(start: &std::time::Instant) -> u64 {
    u64::try_from(start.elapsed().as_nanos()).unwrap_or(u64::MAX)
}

/// The ascending order on nanosecond samples.
pub open spec fn nanos_leq() -> spec_fn(u64, u64) -> bool {
    |x: u64, y: u64| x <= y
}

/// The samples in ascending order.
pub open spec fn sorted_samples(s: Seq<u64>) -> Seq<u64> {
    s.sort_by(nanos_leq())
}

/// The two middle elements of the sorted samples. For an odd count both are
/// the zero-based middle element; for an even count they are the two
/// neighbours of the middle, whose average is the median.
pub open spec fn median_pair(s: Seq<u64>) -> (u64, u64)
    recommends
        s.len() > 0,
{
    (sorted_samples(s)[((s.len() as int) - 1) / 2], sorted_samples(s)[(s.len() as int) / 2])
}

proof fn lemma_nanos_leq_total()
    ensures
        total_ordering(nanos_leq()),
{
    let r = nanos_leq();
    assert forall|x: u64| #[trigger] r(x, x) by {}
    assert forall|x: u64, y: u64| #[trigger] r(x, y) && #[trigger] r(y, x) implies x == y by {}
    assert forall|x: u64, y: u64, z: u64| #[trigger] r(x, y) && #[trigger] r(y, z) implies r(
        x,
        z,
    ) by {}
    assert forall|x: u64, y: u64| !(#[trigger] r(x, y)) implies r(y, x) by {}
}

/// Sort samples ascending by repeatedly extracting a minimum.
fn sort_ascending(input: &Vec<u64>) -> (r: Vec<u64>)
    ensures
        r@ == sorted_samples(input@),
        r@.len() == input@.len(),
{
    broadcast use vstd::seq_lib::group_to_multiset_ensures;
    broadcast use vstd::multiset::group_multiset_axioms;

    let mut rest: Vec<u64> = Vec::new();
    let mut i: usize = 0;
    while i < input.len()
        invariant
            i <= input@.len(),
            rest@ == input@.subrange(0, i as int),
        decreases input@.len() - i,
    {
        rest.push(input[i]);
        i = i + 1;
        proof {
            assert(rest@ =~= input@.subrange(0, i as int));
        }
    }
    proof {
        assert(rest@ =~= input@);
    }
    let mut out: Vec<u64> = Vec::new();
    while rest.len() > 0
        invariant
            sorted_by(out@, nanos_leq()),
            out@.to_multiset().add(rest@.to_multiset()) =~= input@.to_multiset(),
            forall|a: int, b: int|
                0 <= a < out@.len() && 0 <= b < rest@.len() ==> out@[a] <= rest@[b],
        decreases rest@.len(),
    {
        let mut m: usize = 0;
        let mut k: usize = 1;
        while k < rest.len()
            invariant
                m < rest@.len(),
                k <= rest@.len(),
                forall|j: int| 0 <= j < k ==> rest@[m as int] <= rest@[j],
            decreases rest@.len() - k,
        {
            if rest[k] < rest[m] {
                m = k;
            }
            k = k + 1;
        }
        let ghost old_out = out@;
        let ghost old_rest = rest@;
        let x = rest.remove(m);
        out.push(x);
        proof {
            old_rest.remove_ensures(m as int);
            vstd::seq_lib::to_multiset_remove(old_rest, m as int);
            vstd::seq_lib::to_multiset_build(old_out, x);
            old_rest.to_multiset_ensures();
            assert(old_rest.contains(old_rest[m as int]));
            assert(old_rest.to_multiset().count(x) > 0);
            assert(rest@ == old_rest.remove(m as int));
            assert(out@ == old_out.push(x));
            assert(rest@.to_multiset() == old_rest.to_multiset().remove(x));
            assert(out@.to_multiset() == old_out.to_multiset().insert(x));
            assert(out@.to_multiset().add(rest@.to_multiset()) =~= old_out.to_multiset().add(
                old_rest.to_multiset(),
            ));
            let leq = nanos_leq();
            assert forall|a: int, b: int| 0 <= a < b < out@.len() implies #[trigger] leq(
                out@[a],
                out@[b],
            ) by {
                if b < out@.len() - 1 {
                    assert(leq(old_out[a], old_out[b]));
                } else {
                    assert(out@[b] == x);
                    assert(old_out[a] <= old_rest[m as int]);
                }
            }
            assert forall|a: int, b: int|
                0 <= a < out@.len() && 0 <= b < rest@.len() implies out@[a] <= rest@[b] by {
                if b < m {
                    assert(rest@[b] == old_rest[b]);
                } else {
                    assert(rest@[b] == old_rest[b + 1]);
                }
                if a < out@.len() - 1 {
                    assert(out@[a] == old_out[a]);
                } else {
                    assert(out@[a] == old_rest[m as int]);
                }
            }
        }
    }
    proof {
        assert forall|y: u64| rest@.to_multiset().count(y) == 0 by {
            assert(!rest@.contains(y));
        }
        assert(rest@.to_multiset() =~= Multiset::<u64>::empty());
        assert(out@.to_multiset() =~= input@.to_multiset());
        lemma_nanos_leq_total();
        input@.lemma_sort_by_ensures(nanos_leq());
        lemma_sorted_unique(out@, input@.sort_by(nanos_leq()), nanos_leq());
        assert(out@ =~= sorted_samples(input@));
        assert(out@.to_multiset().len() == input@.to_multiset().len());
        assert(out@.len() == input@.len());
    }
    out
}

/// The well-formedness of one measurement: the pair's sizes and sample sets
/// were taken as described, with each phase's stored median pinned to its
/// sample set. The compressed size is the length of a real artifact: some
/// stream of the codec's family that inflates back to exactly the input.
pub open spec fn result_valid(b: BenchResult, input: Seq<u8>, n: int, fam: Family) -> bool {
    &&& b.decompressed_bytes == input.len()
    &&& exists|c: Seq<u8>|
        #[trigger] inflate(fam, c) == Some(input) && b.compressed_bytes == c.len()
    &&& b.compress_samples@.len() == n
    &&& b.decompress_samples@.len() == n
    &&& b.median_compress_nanos == median_pair(b.compress_samples@)
    &&& b.median_decompress_nanos == median_pair(b.decompress_samples@)
}

/// The measurements of one (codec, input) pair. Sizes are byte lengths and
/// samples are elapsed nanoseconds; the chart layer divides sizes by 1e6
/// (decimal megabytes), divides times by 1e9 (seconds), and averages each
/// median pair, to form its three coordinate pairs.
pub struct BenchResult {
    /// Byte length of the decompressed input.
    pub decompressed_bytes: usize,
    /// Byte length of the one compressed artifact.
    pub compressed_bytes: usize,
    /// Elapsed nanoseconds of each timed compress call, in call order.
    pub compress_samples: Vec<u64>,
    /// Elapsed nanoseconds of each timed decompress call, in call order.
    pub decompress_samples: Vec<u64>,
    /// The two middle elements of the sorted compress samples.
    pub median_compress_nanos: (u64, u64),
    /// The two middle elements of the sorted decompress samples.
    pub median_decompress_nanos: (u64, u64),
}

/// A codec under test: a label, unique per run, and a matched
/// compress/decompress operation pair with their configuration bound at
/// construction.
#[derive(Clone, Copy, Debug)]
pub struct Bfunc {
    /// The codec's label on charts and in diagnostics.
    pub title: &'static str,
    /// The compression operation.
    pub compressor: CompFunc,
    /// The decompression operation.
    pub decompressor: DecompFunc,
}

impl Bfunc {
    /// A valid codec: the compressor's configuration is in range and both
    /// operations work on the same family of streams.
    pub open spec fn wf(&self) -> bool {
        &&& self.compressor.wf()
        &&& self.compressor.compatible(self.decompressor)
    }

    /// Pair a label with matched compress and decompress operations.
    pub fn new(title: &'static str, compressor: CompFunc, decompressor: DecompFunc) -> (r: Bfunc)
        requires
            compressor.wf(),
            compressor.compatible(decompressor),
        ensures
            r == (Bfunc { title, compressor, decompressor }),
            r.wf(),
    {
        Bfunc { title, compressor, decompressor }
    }

    /// Reduce a sample set to its median pair: the samples sorted ascending,
    /// then the two middle elements, whose average is the median.
    pub fn median(input: &Vec<u64>) -> (r: (u64, u64))
        requires
            input@.len() > 0,
        ensures
            r == median_pair(input@),
    {
        let sorted = sort_ascending(input);
        let n = sorted.len();
        (sorted[(n - 1) / 2], sorted[n / 2])
    }

    /// One compress call followed by one decompress call of its output.
    /// Whatever bytes come back are exactly the input: a codec never hands
    /// back altered data, and the only failure that can occur at all is the
    /// compress call's own.
    pub fn round_trip(&self, input: &[u8]) -> (r: Result<Vec<u8>, CodecError>)
        requires
            self.wf(),
        ensures
            r is Ok ==> r->Ok_0@ == input@,
            r is Err ==> r->Err_0 == CodecError::Operation(Phase::Compress),
    {
        let compressed = match self.compressor.compress(input) {
            Ok(c) => c,
            Err(e) => {
                return Err(e);
            },
        };
        self.decompressor.decompress(compressed.as_slice())
    }

    /// Measure this codec on one input. The warm-up compress call produces
    /// the artifact; each phase then runs `num_of_samples` timed calls and
    /// stores its samples with their median pair. Once the warm-up compress
    /// call has succeeded nothing else can fail: every decompress call
    /// provably returns the original input.
    pub fn bench(&self, uncompressed_input_data: &[u8], num_of_samples: u8) -> (r: Result<
        BenchResult,
        CodecError,
    >)
        requires
            self.wf(),
            num_of_samples >= 1,
        ensures
            r is Ok ==> result_valid(
                r->Ok_0,
                uncompressed_input_data@,
                num_of_samples as int,
                self.compressor.family(),
            ),
            r is Err ==> r->Err_0 == CodecError::Operation(Phase::Compress),
    {
        // Warm-up: one untimed compress call, whose output is the one
        // compressed artifact used for decompression timing.
        let compressed_input_data = match self.compressor.compress(uncompressed_input_data) {
            Ok(c) => c,
            Err(e) => {
                return Err(e);
            },
        };
        assert(self.decompressor.accepts(compressed_input_data@));
        assert(inflate(self.compressor.family(), compressed_input_data@) == Some(
            uncompressed_input_data@,
        ));

        let mut comp_samples: Vec<u64> = Vec::new();
        let mut i: u8 = 0;
        while i < num_of_samples
            invariant
                self.wf(),
                inflate(self.compressor.family(), compressed_input_data@) == Some(
                    uncompressed_input_data@,
                ),
                i <= num_of_samples,
                comp_samples@.len() == i as int,
            decreases num_of_samples as int - i as int,
        {
            let inst = instant_now();
            match self.compressor.compress(uncompressed_input_data) {
                Ok(_) => (),
                Err(e) => {
                    return Err(e);
                },
            }
            comp_samples.push(nanos_since(&inst));
            i = i + 1;
        }
        let median_compress_nanos = Self::median(&comp_samples);

        // Warm-up: one untimed decompress call of the artifact. It provably
        // succeeds and returns the original input.
        match self.decompressor.decompress(compressed_input_data.as_slice()) {
            Ok(_) => (),
            Err(e) => {
                return Err(e);
            },
        }

        let mut decomp_samples: Vec<u64> = Vec::new();
        let mut j: u8 = 0;
        while j < num_of_samples
            invariant
                self.wf(),
                self.decompressor.accepts(compressed_input_data@),
                inflate(self.compressor.family(), compressed_input_data@) == Some(
                    uncompressed_input_data@,
                ),
                j <= num_of_samples,
                decomp_samples@.len() == j as int,
            decreases num_of_samples as int - j as int,
        {
            let inst = instant_now();
            match self.decompressor.decompress(compressed_input_data.as_slice()) {
                Ok(_) => (),
                Err(e) => {
                    return Err(e);
                },
            }
            decomp_samples.push(nanos_since(&inst));
            j = j + 1;
        }
        let median_decompress_nanos = Self::median(&decomp_samples);

        proof {
            // The warm-up artifact witnesses that the compressed size is the
            // length of a stream inflating back to the input.
            assert(inflate(self.compressor.family(), compressed_input_data@) == Some(
                uncompressed_input_data@,
            ));
        }
        Ok(
            BenchResult {
                decompressed_bytes: uncompressed_input_data.len(),
                compressed_bytes: compressed_input_data.len(),
                compress_samples: comp_samples,
                decompress_samples: decomp_samples,
                median_compress_nanos,
                median_decompress_nanos,
            },
        )
    }
}

} // verus!
