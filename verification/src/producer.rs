use vstd::prelude::*;

use crate::aead::chunk_view;
use crate::error::CryptoError;

verus! {

/// What a producer still has to hand out, in order: each entry is the bytes
/// of a chunk, or the error that comes in its place.
pub type Pending = Seq<Result<Seq<u8>, CryptoError>>;

/// One pull: from a producer with `before` still to come, it gave `chunk` and
/// left `after`. A producer with nothing to come signals the end and stays as
/// it is; any other hands out its first entry and keeps the rest.
pub open spec fn pulled(
    before: Pending,
    chunk: Option<Result<Vec<u8>, CryptoError>>,
    after: Pending,
) -> bool {
    if before.len() == 0 {
        chunk is None && after =~= before
    } else {
        &&& chunk matches Some(c) && chunk_view(c) == before[0]
        &&& after =~= before.drop_first()
    }
}

/// A sequence of byte chunks that is pulled until it is exhausted.
pub trait ChunkProducer {
    /// The producer is in a state that its constructor or a pull left.
    spec fn wf(&self) -> bool;

    /// What is still to come.
    spec fn pending(&self) -> Pending;

    /// Hands out the next chunk, or `None` once nothing is left.
    fn next(&mut self) -> (chunk: Option<Result<Vec<u8>, CryptoError>>)
        requires
            old(self).wf(),
        ensures
            final(self).wf(),
            pulled(old(self).pending(), chunk, final(self).pending()),
    ;
}

/// A producer that has signalled the end goes on signalling it: after a pull
/// that gave `None`, every further pull gives `None` too and nothing is left
/// to come.
pub proof fn lemma_exhaustion_is_final(
    before: Pending,
    after: Pending,
    later_chunk: Option<Result<Vec<u8>, CryptoError>>,
    later: Pending,
)
    requires
        pulled(before, None, after),
        pulled(after, later_chunk, later),
    ensures
        later_chunk is None,
        later.len() == 0,
        pulled(later, None, later),
{
}

/// Successive pulls hand out what was pending at the start, entry by entry,
/// and `None` from then on: `states[i]` is what is pending before pull `i`,
/// `chunks[i]` what that pull gave.
pub proof fn lemma_pulls_in_order(
    states: Seq<Pending>,
    chunks: Seq<Option<Result<Vec<u8>, CryptoError>>>,
    i: int,
)
    requires
        states.len() == chunks.len() + 1,
        forall|k: int| 0 <= k < chunks.len() ==> pulled(states[k], #[trigger] chunks[k], states[k + 1]),
        0 <= i < chunks.len(),
    ensures
        i < states[0].len() ==> (chunks[i] matches Some(c) && chunk_view(c) == states[0][i]),
        i >= states[0].len() ==> chunks[i] is None,
        states[i + 1] =~= (if i + 1 <= states[0].len() {
            states[0].skip(i + 1)
        } else {
            Seq::empty()
        }),
    decreases i,
{
    assert(pulled(states[i], chunks[i], states[i + 1]));
    if i > 0 {
        lemma_pulls_in_order(states, chunks, i - 1);
    } else {
        assert(states[0] =~= states[0].skip(0));
    }
}

} // verus!
