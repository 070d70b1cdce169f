use vstd::prelude::*;
use vstd::slice::{slice_subrange, slice_to_vec};

use crate::error::CryptoError;
use crate::producer::{ChunkProducer, Pending};
use crate::sink::{drained, written};

verus! {

/// Size of the chunks in which key material is written out: 1 MiB.
pub const BUFFER_SIZE: usize = 1024 * 1024;

/// `data` cut into chunks of `size` bytes, the last one shorter where `size`
/// does not divide the length. Empty data gives no chunk.
pub open spec fn chunked(data: Seq<u8>, size: nat) -> Pending
    decreases data.len(),
{
    if data.len() == 0 || size == 0 {
        Seq::empty()
    } else if data.len() <= size {
        seq![Ok(data)]
    } else {
        seq![Ok(data.take(size as int))] + chunked(data.skip(size as int), size)
    }
}

/// Draining the chunks of `data` ends well and writes `data` itself.
pub proof fn lemma_chunks_rejoin(data: Seq<u8>, size: nat)
    requires
        size > 0,
    ensures
        written(chunked(data, size)) == data,
        drained(chunked(data, size)) == Ok::<(), CryptoError>(()),
    decreases data.len(),
{
    let chunks = chunked(data, size);
    if data.len() == 0 {
        assert(written(chunks) =~= data);
    } else if data.len() <= size {
        assert(chunks.drop_first() =~= Seq::empty());
        assert(written(chunks.drop_first()) =~= Seq::empty());
        assert(written(chunks) =~= data);
        assert(drained(chunks.drop_first()) == Ok::<(), CryptoError>(()));
    } else {
        let rest = chunked(data.skip(size as int), size);
        lemma_chunks_rejoin(data.skip(size as int), size);
        assert(chunks.drop_first() =~= rest);
        assert(written(chunks) =~= data.take(size as int) + data.skip(size as int));
        assert(data.take(size as int) + data.skip(size as int) =~= data);
    }
}

/// A buffer as the contracts see it: its bytes, the size of a chunk and how
/// many bytes were handed out.
pub struct ByteChunksView {
    pub data: Seq<u8>,
    pub chunk_size: nat,
    pub position: nat,
}

/// Hands out a buffer in chunks of a fixed size.
pub struct ByteChunks {
    data: Vec<u8>,
    chunk_size: usize,
    position: usize,
}

impl View for ByteChunks {
    type V = ByteChunksView;

    closed spec fn view(&self) -> ByteChunksView {
        ByteChunksView {
            data: self.data@,
            chunk_size: self.chunk_size as nat,
            position: self.position as nat,
        }
    }
}

impl ByteChunks {
    /// The chunks of `data`, `chunk_size` bytes each.
    pub fn new(data: Vec<u8>, chunk_size: usize) -> (chunks: Self)
        requires
            chunk_size > 0,
        ensures
            chunks.wf(),
            chunks@ == (ByteChunksView { data: data@, chunk_size: chunk_size as nat, position: 0 }),
            chunks.pending() == chunked(data@, chunk_size as nat),
    {
        assert(data@.skip(0) =~= data@);
        ByteChunks { data, chunk_size, position: 0 }
    }
}

impl ChunkProducer for ByteChunks {
    open spec fn wf(&self) -> bool {
        self@.chunk_size > 0 && self@.position <= self@.data.len()
    }

    open spec fn pending(&self) -> Pending {
        chunked(self@.data.skip(self@.position as int), self@.chunk_size)
    }

    fn next(&mut self) -> (chunk: Option<Result<Vec<u8>, CryptoError>>)
        ensures
            final(self)@.data == old(self)@.data,
            final(self)@.chunk_size == old(self)@.chunk_size,
    {
        let length = self.data.len();
        if self.position >= length {
            return None;
        }
        let start = self.position;
        let end = if length - start <= self.chunk_size {
            length
        } else {
            start + self.chunk_size
        };
        let bytes = slice_to_vec(slice_subrange(self.data.as_slice(), start, end));
        self.position = end;
        proof {
            let rest = self@.data.skip(start as int);
            let size = self@.chunk_size;
            assert(rest.len() == length - start);
            if rest.len() <= size {
                assert(bytes@ =~= rest);
                assert(self@.data.skip(end as int) =~= Seq::empty());
                assert(chunked(rest, size).drop_first() =~= Seq::empty());
            } else {
                assert(bytes@ =~= rest.take(size as int));
                assert(self@.data.skip(end as int) =~= rest.skip(size as int));
                assert(chunked(rest, size).drop_first() =~= chunked(rest.skip(size as int), size));
            }
        }
        Some(Ok(bytes))
    }
}

} // verus!
