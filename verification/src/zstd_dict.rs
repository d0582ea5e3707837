//! Shared-dictionary training over a corpus of decompressed samples.
//!
//! The samples are laid end to end in one continuous buffer, with each
//! sample's length recorded alongside, and handed to the zstd dictionary
//! trainer with a size cap. The caller supplies the samples already
//! decompressed; reading and decompressing files is outside this module.

use vstd::prelude::*;

verus! {

/// What the zstd dictionary trainer produces from a continuous sample
/// buffer, the sample sizes and a size cap — or nothing, when it rejects the
/// samples. Training is deterministic: the outcome depends on these
/// arguments alone.
pub uninterp spec fn zstd_dict_of(data: Seq<u8>, sizes: Seq<usize>, max_size: nat) -> Option<
    Seq<u8>,
>;

/// Relies on zstd's `dict::from_continuous`: trains a dictionary of at most
/// `max_size` bytes — it writes into a buffer of exactly that capacity —
/// from samples laid end to end, failing when the sizes do not add up to the
/// buffer or the samples are unsuitable; the outcome is a deterministic
/// function of the arguments.
#[verifier::external_body]
fn zstd_train_from_continuous(data: &Vec<u8>, sizes: &Vec<usize>, max_size: usize) -> (r: Option<
    Vec<u8>,
>)
    ensures
        r is Some <==> zstd_dict_of(data@, sizes@, max_size as nat) is Some,
        r is Some ==> r->0@ == zstd_dict_of(data@, sizes@, max_size as nat)->0,
        r is Some ==> r->0@.len() <= max_size,
{
    match zstd::dict::from_continuous(data.as_slice(), sizes.as_slice(), max_size) {
        Ok(v) => Some(v),
        Err(_) => None,
    }
}

/// The samples laid end to end, in order.
pub open spec fn concat_samples(samples: Seq<Vec<u8>>) -> Seq<u8>
    decreases samples.len(),
{
    if samples.len() == 0 {
        Seq::empty()
    } else {
        concat_samples(samples.drop_last()) + samples.last()@
    }
}

/// The length of each sample, in order.
pub open spec fn sample_sizes(samples: Seq<Vec<u8>>) -> Seq<usize>
    decreases samples.len(),
{
    if samples.len() == 0 {
        Seq::empty()
    } else {
        sample_sizes(samples.drop_last()).push(samples.last()@.len() as usize)
    }
}

/// The size cap the trainer runs with: the caller's, or the 2 MiB default
/// for a medium-sized dictionary.
pub open spec fn effective_max_size(max_size: Option<usize>) -> usize {
    match max_size {
        Some(m) => m,
        None => 2097152,
    }
}

/// Train a dictionary from decompressed samples: lay them end to end with
/// their sizes alongside and hand them to the trainer, capped at the given
/// maximum size or the 2 MiB default. Yields whatever the trainer produces
/// for exactly that buffer, those sizes and that cap — never more bytes than
/// the cap allows.
pub fn train(max_size: Option<usize>, samples: &Vec<Vec<u8>>) -> (r: Option<Vec<u8>>)
    ensures
        r is Some <==> zstd_dict_of(
            concat_samples(samples@),
            sample_sizes(samples@),
            effective_max_size(max_size) as nat,
        ) is Some,
        r is Some ==> r->0@ == zstd_dict_of(
            concat_samples(samples@),
            sample_sizes(samples@),
            effective_max_size(max_size) as nat,
        )->0,
        r is Some ==> r->0@.len() <= effective_max_size(max_size),
{
    let max_size: usize = match max_size {
        Some(m) => m,
        None => 2097152,
    };
    let mut data: Vec<u8> = Vec::new();
    let mut sizes: Vec<usize> = Vec::new();
    let mut i: usize = 0;
    while i < samples.len()
        invariant
            i <= samples@.len(),
            data@ == concat_samples(samples@.subrange(0, i as int)),
            sizes@ == sample_sizes(samples@.subrange(0, i as int)),
        decreases samples@.len() - i as int,
    {
        let sample = &samples[i];
        let ghost prev = data@;
        let mut k: usize = 0;
        while k < sample.len()
            invariant
                k <= sample@.len(),
                sample == samples@[i as int],
                data@ == prev + sample@.subrange(0, k as int),
            decreases sample@.len() - k as int,
        {
            data.push(sample[k]);
            k = k + 1;
            proof {
                assert(prev + sample@.subrange(0, k - 1 as int) + seq![sample@[k - 1]] =~= prev
                    + sample@.subrange(0, k as int));
            }
        }
        sizes.push(sample.len());
        i = i + 1;
        proof {
            let here = samples@.subrange(0, i as int);
            assert(here.drop_last() =~= samples@.subrange(0, i as int - 1));
            assert(here.last() == samples@[i as int - 1]);
            assert(sample@.subrange(0, sample@.len() as int) =~= sample@);
            assert(data@ == concat_samples(here));
            assert(sizes@ == sample_sizes(here));
        }
    }
    proof {
        assert(samples@.subrange(0, samples@.len() as int) =~= samples@);
    }
    zstd_train_from_continuous(&data, &sizes, max_size)
}

} // verus!
