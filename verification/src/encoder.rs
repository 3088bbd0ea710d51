//! Sample encoding: one channel-interleaved audio block, already resampled to
//! the target rate, becomes a little-endian byte stream.
//!
//! A sample is carried as the 32-bit pattern of one single-precision value;
//! the resampling itself is floating-point work done by the unverified shell,
//! which hands the resulting patterns (or the failure) to this module.

use vstd::prelude::*;

verus! {

/// The sample-encoding failures a producer can observe. Encoding is fatal for
/// the enclosing write: it must surface here, never be dropped silently.
#[derive(Debug, Clone, Copy, PartialEq, Eq, Structural)]
pub enum EncodeError {
    /// The resampler could not produce output for the block.
    ResampleFailed,
}

/// The four bytes of one 32-bit sample, least significant first.
pub open spec fn sample_le_bytes(s: u32) -> Seq<u8> {
    seq![
        (s & 0xff) as u8,
        ((s >> 8) & 0xff) as u8,
        ((s >> 16) & 0xff) as u8,
        ((s >> 24) & 0xff) as u8,
    ]
}

/// The encoding of a whole block: each sample's four bytes, concatenated in
/// the block's channel-interleaved order.
pub open spec fn block_encoding(samples: Seq<u32>) -> Seq<u8>
    decreases samples.len(),
{
    if samples.len() == 0 {
        Seq::empty()
    } else {
        block_encoding(samples.drop_last()) + sample_le_bytes(samples.last())
    }
}

/// The encoding of a sequence of blocks pushed one after the other.
pub open spec fn blocks_encoding(blocks: Seq<Seq<u32>>) -> Seq<u8>
    decreases blocks.len(),
{
    if blocks.len() == 0 {
        Seq::empty()
    } else {
        blocks_encoding(blocks.drop_last()) + block_encoding(blocks.last())
    }
}

pub proof fn lemma_block_encoding_len(samples: Seq<u32>)
    ensures
        block_encoding(samples).len() == 4 * samples.len(),
    decreases samples.len(),
{
    if samples.len() > 0 {
        lemma_block_encoding_len(samples.drop_last());
    }
}

/// One sample's four bytes, least significant first.
fn sample_to_le_bytes(s: u32) -> (r: Vec<u8>)
    ensures
        r@ == sample_le_bytes(s),
{
    proof {
        assert((s & 0xff) < 256 && ((s >> 8) & 0xff) < 256 && ((s >> 16) & 0xff) < 256 && ((s
            >> 24) & 0xff) < 256) by (bit_vector);
    }
    let mut r: Vec<u8> = Vec::new();
    r.push((s & 0xff) as u8);
    r.push(((s >> 8) & 0xff) as u8);
    r.push(((s >> 16) & 0xff) as u8);
    r.push(((s >> 24) & 0xff) as u8);
    proof {
        assert(r@ =~= sample_le_bytes(s));
    }
    r
}

/// Encodes one block of samples into its little-endian byte stream.
pub fn encode_block(samples: &Vec<u32>) -> (out: Vec<u8>)
    ensures
        out@ == block_encoding(samples@),
        out@.len() == 4 * samples@.len(),
{
    let mut out: Vec<u8> = Vec::new();
    let mut i: usize = 0;
    while i < samples.len()
        invariant
            i <= samples@.len(),
            out@ == block_encoding(samples@.take(i as int)),
        decreases samples@.len() - i,
    {
        let mut chunk = sample_to_le_bytes(samples[i]);
        out.append(&mut chunk);
        proof {
            assert(samples@.take(i as int + 1).drop_last() =~= samples@.take(i as int));
            assert(samples@.take(i as int + 1).last() == samples@[i as int]);
        }
        i += 1;
    }
    proof {
        assert(samples@.take(samples@.len() as int) =~= samples@);
        lemma_block_encoding_len(samples@);
    }
    out
}

/// Turns the outcome of the external resampler into the bytes to hand to the
/// bridge. A block the resampler produced is encoded; a block it could not
/// produce is a fatal, observable error for this write, never a silent skip.
pub fn encode_resampled(resampled: &Option<Vec<u32>>) -> (r: Result<Vec<u8>, EncodeError>)
    ensures
        match r {
            Ok(bytes) => resampled matches Some(samples) && bytes@ == block_encoding(samples@),
            Err(e) => resampled is None && e == EncodeError::ResampleFailed,
        },
{
    match resampled {
        Some(samples) => Ok(encode_block(samples)),
        None => Err(EncodeError::ResampleFailed),
    }
}

} // verus!
