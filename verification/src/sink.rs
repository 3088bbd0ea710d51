//! The audio sink handed to the playback engine: the producer face and the
//! consumer face of one [`ByteBridge`].
//!
//! The playback engine writes encoded blocks into it; the voice-transmission
//! layer reads raw bytes back out. Each face advances in steps — a write step
//! pushes what fits, a read step pulls what is there — and the unverified
//! shell supplies the waiting in between, so neither schedule can outrun the
//! other by more than the bridge capacity.

use vstd::prelude::*;
use vstd::math::min;
use crate::bridge::ByteBridge;
use crate::encoder::blocks_encoding;
use crate::encoder::block_encoding;

verus! {

/// The bridge capacity of a sink: small, to bound the latency between the
/// producer and consumer schedules, yet a few encoded samples wide to keep
/// the hand-off from degenerating into lockstep.
pub const SINK_CAPACITY: usize = 24;

/// The sink backing one playback engine: a bounded byte bridge between the
/// engine's pushed writes and the voice layer's pulled reads.
pub struct EmittedSink {
    bridge: ByteBridge,
}

/// A sink as it comes out of construction: well-formed, of the default
/// capacity, and carrying no bytes at all — neither buffered nor in its
/// histories. Each enabled session gets one, so nothing pushed for an
/// earlier pipeline can reach a later one.
pub open spec fn fresh_sink(s: EmittedSink) -> bool {
    &&& s.wf()
    &&& s.bridge().cap() == SINK_CAPACITY
    &&& s.bridge()@ == Seq::<u8>::empty()
    &&& s.bridge().pushed() == Seq::<u8>::empty()
    &&& s.bridge().pulled() == Seq::<u8>::empty()
}

impl EmittedSink {
    /// The underlying bridge, for contracts.
    pub closed spec fn bridge(self) -> ByteBridge {
        self.bridge
    }

    pub open spec fn wf(self) -> bool {
        self.bridge().wf()
    }

    /// A fresh sink with an empty bridge of the default capacity.
    pub fn new() -> (s: EmittedSink)
        ensures
            fresh_sink(s),
    {
        EmittedSink { bridge: ByteBridge::new(SINK_CAPACITY) }
    }

    /// One producer step of a blocking write: offers `bytes[start..]` to the
    /// bridge and reports how many bytes it took. The caller loops, waiting
    /// while the bridge is full, until the whole encoding is through.
    pub fn write_available(&mut self, bytes: &Vec<u8>, start: usize) -> (n: usize)
        requires
            old(self).wf(),
            start <= bytes@.len(),
        ensures
            final(self).wf(),
            final(self).bridge().cap() == old(self).bridge().cap(),
            final(self).bridge().pulled() == old(self).bridge().pulled(),
            n == min(bytes@.len() - start, old(self).bridge().cap() - old(self).bridge()@.len()),
            final(self).bridge()@ == old(self).bridge()@ + bytes@.subrange(
                start as int,
                start as int + n,
            ),
            final(self).bridge().pushed() == old(self).bridge().pushed() + bytes@.subrange(
                start as int,
                start as int + n,
            ),
    {
        self.bridge.push_available(bytes, start)
    }

    /// One consumer step of a blocking read: pulls up to `want` of the oldest
    /// buffered bytes, in push order. The caller loops, waiting while the
    /// bridge is empty, until its output buffer is filled.
    pub fn read_available(&mut self, want: usize) -> (r: Vec<u8>)
        requires
            old(self).wf(),
        ensures
            final(self).wf(),
            final(self).bridge().cap() == old(self).bridge().cap(),
            final(self).bridge().pushed() == old(self).bridge().pushed(),
            r@.len() == min(want as int, old(self).bridge()@.len() as int),
            r@ == old(self).bridge()@.take(r@.len() as int),
            final(self).bridge()@ == old(self).bridge()@.skip(r@.len() as int),
            final(self).bridge().pulled() == old(self).bridge().pulled() + r@,
    {
        self.bridge.pull_available(want)
    }
}

/// Splitting off one more block keeps the concatenation law: the encoding of
/// `blocks` followed by one further block's encoding is the encoding of the
/// extended sequence. This is the step by which a producer that pushes whole
/// encodings in order builds `blocks_encoding` in the bridge's push history.
pub proof fn lemma_blocks_encoding_push(blocks: Seq<Seq<u32>>, block: Seq<u32>)
    ensures
        blocks_encoding(blocks.push(block)) == blocks_encoding(blocks) + block_encoding(block),
{
    assert(blocks.push(block).drop_last() =~= blocks);
    assert(blocks.push(block).last() == block);
}

/// Order preservation across the whole pipeline: once the producer has pushed
/// exactly the encodings of `blocks`, one after the other, and the consumer
/// has drained the bridge, the bytes the consumer received are exactly the
/// concatenation of the per-block encodings in push order — nothing lost,
/// duplicated or reordered across block boundaries.
pub proof fn lemma_stream_order_preservation(s: EmittedSink, blocks: Seq<Seq<u32>>)
    requires
        s.wf(),
        s.bridge().pushed() == blocks_encoding(blocks),
        s.bridge()@.len() == 0,
    ensures
        s.bridge().pulled() == blocks_encoding(blocks),
{
    assert(s.bridge().pulled() =~= s.bridge().pulled() + s.bridge()@);
}

} // verus!
