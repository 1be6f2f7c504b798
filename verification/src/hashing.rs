//! The fingerprint of a media file: a SHA-256 digest over samples of its
//! bytes, so that a renamed file is recognized without reading it whole.
use vstd::prelude::*;

verus! {

/// How many bytes each sample of a file holds (2 MiB).
pub const HASH_SAMPLE_SIZE: usize = 2097152;

/// How many bytes are skipped after each sample (30 MiB).
pub const HASH_SKIP: u64 = 31457280;

/// The SHA-256 digest of a byte sequence.
pub uninterp spec fn sha256_digest(data: Seq<u8>) -> Seq<u8>;

/// `sha2::Sha256::digest`: the SHA-256 digest of `data`, 32 bytes long.
#[verifier::external_body]
fn sha256(data: &[u8]) -> (r: Vec<u8>)
    ensures
        r@ == sha256_digest(data@),
        r@.len() == 32,
{
    <sha2::Sha256 as sha2::Digest>::digest(data).to_vec()
}

/// The samples one after another.
pub open spec fn joined(samples: Seq<Seq<u8>>) -> Seq<u8>
    decreases samples.len(),
{
    if samples.len() == 0 {
        Seq::empty()
    } else {
        joined(samples.drop_last()) + samples.last()
    }
}

pub open spec fn sample_views(samples: Seq<Vec<u8>>) -> Seq<Seq<u8>> {
    samples.map_values(|s: Vec<u8>| s@)
}

/// The fingerprint of a file from the samples read from it, in order: the
/// digest of all sampled bytes.
pub fn hash_samples(samples: &Vec<Vec<u8>>) -> (r: Vec<u8>)
    ensures
        r@ == sha256_digest(joined(sample_views(samples@))),
        r@.len() == 32,
{
    let mut all: Vec<u8> = Vec::new();
    let mut i: usize = 0;
    while i < samples.len()
        invariant
            i <= samples@.len(),
            all@ == joined(sample_views(samples@).subrange(0, i as int)),
        decreases samples@.len() - i,
    {
        let sample = &samples[i];
        let mut k: usize = 0;
        let ghost start = all@;
        while k < sample.len()
            invariant
                k <= sample@.len(),
                all@ == start + sample@.subrange(0, k as int),
            decreases sample@.len() - k,
        {
            all.push(sample[k]);
            k = k + 1;
        }
        assert(sample@.subrange(0, sample@.len() as int) =~= sample@);
        assert(sample_views(samples@).subrange(0, i + 1).drop_last() =~= sample_views(
            samples@,
        ).subrange(0, i as int));
        i = i + 1;
    }
    assert(sample_views(samples@).subrange(0, samples@.len() as int) =~= sample_views(samples@));
    sha256(all.as_slice())
}

} // verus!
