use vstd::prelude::*;

use crate::error::CryptoError;
use crate::producer::{ChunkProducer, Pending};

verus! {

/// The bytes that reach the sink when `chunks` are drained: every chunk in
/// order, up to the first error.
pub open spec fn written(chunks: Pending) -> Seq<u8>
    decreases chunks.len(),
{
    if chunks.len() == 0 {
        Seq::empty()
    } else {
        match chunks[0] {
            Ok(bytes) => bytes + written(chunks.drop_first()),
            Err(_) => Seq::empty(),
        }
    }
}

/// How draining `chunks` ends: with their first error, or well.
pub open spec fn drained(chunks: Pending) -> Result<(), CryptoError>
    decreases chunks.len(),
{
    if chunks.len() == 0 {
        Ok(())
    } else {
        match chunks[0] {
            Ok(_) => drained(chunks.drop_first()),
            Err(error) => Err(error),
        }
    }
}

/// Drains a producer into a sink: pulls until it is exhausted and appends
/// each chunk to `writer`, in the order in which they come. An error in place
/// of a chunk ends the draining at once; what was written before it stays.
pub fn write_iter_bytes<P: ChunkProducer>(bytes_iter: P, writer: &mut Vec<u8>) -> (r: Result<
    (),
    CryptoError,
>)
    requires
        bytes_iter.wf(),
    ensures
        final(writer)@ == old(writer)@ + written(bytes_iter.pending()),
        r == drained(bytes_iter.pending()),
{
    let mut producer = bytes_iter;
    loop
        invariant
            producer.wf(),
            writer@ + written(producer.pending()) == old(writer)@ + written(bytes_iter.pending()),
            drained(producer.pending()) == drained(bytes_iter.pending()),
        decreases producer.pending().len(),
    {
        let ghost before = producer.pending();
        let ghost sunk = writer@;
        match producer.next() {
            None => {
                assert(writer@ + Seq::<u8>::empty() =~= writer@);
                return Ok(());
            },
            Some(Err(error)) => {
                assert(writer@ + Seq::<u8>::empty() =~= writer@);
                return Err(error);
            },
            Some(Ok(bytes)) => {
                let mut chunk = bytes;
                writer.append(&mut chunk);
                assert(writer@ + written(producer.pending()) =~= sunk + written(before));
            },
        }
    }
}

} // verus!
