//! Fixed-size chunking of downloads.
//!
//! A file is streamed to the client as a run of chunks: every chunk but the
//! last carries exactly the configured chunk size, the last carries the
//! remaining bytes, and concatenating the chunks in chunk-id order gives
//! back the file exactly.

use vstd::prelude::*;
use vstd::slice::{slice_subrange, slice_to_vec};

verus! {

/// Chunk size suited to slow or unstable networks.
pub const CHUNK_SIZE_SMALL: usize = 512 * 1024;

/// Chunk size suited to ordinary wide-area networks.
pub const CHUNK_SIZE_MEDIUM: usize = 2 * 1024 * 1024;

/// Chunk size suited to local, high-speed networks.
pub const CHUNK_SIZE_LARGE: usize = 10 * 1024 * 1024;

/// The chunk size the bridge uses.
pub const CHUNK_SIZE: usize = CHUNK_SIZE_LARGE;

/// The chunks of `data` in order: full chunks of `chunk` bytes, then the
/// remainder; no chunk at all for empty data.
pub open spec fn chunks_of(data: Seq<u8>, chunk: nat) -> Seq<Seq<u8>>
    decreases data.len(),
{
    if chunk == 0 || data.len() == 0 {
        Seq::empty()
    } else if data.len() <= chunk {
        seq![data]
    } else {
        seq![data.take(chunk as int)] + chunks_of(data.skip(chunk as int), chunk)
    }
}

/// Concatenating all chunks in chunk-id order reproduces the data exactly;
/// every chunk but the last is full; the last chunk's size is exactly the
/// count of bytes remaining after the full chunks, and never zero.
pub proof fn lemma_chunks_reassemble(data: Seq<u8>, chunk: nat)
    requires
        chunk > 0,
    ensures
        chunks_of(data, chunk).flatten() == data,
        data.len() == 0 ==> chunks_of(data, chunk).len() == 0,
        data.len() > 0 ==> chunks_of(data, chunk).len() > 0,
        forall|i: int|
            0 <= i < chunks_of(data, chunk).len() - 1 ==> (#[trigger] chunks_of(data, chunk)[i]).len()
                == chunk,
        data.len() > 0 ==> {
            let cs = chunks_of(data, chunk);
            &&& 0 < cs.last().len() <= chunk
            &&& cs.last().len() == data.len() - chunk * (cs.len() - 1)
        },
    decreases data.len(),
{
    let cs = chunks_of(data, chunk);
    if data.len() == 0 {
        assert(cs.flatten() =~= data);
    } else if data.len() <= chunk {
        broadcast use Seq::lemma_flatten_singleton;

        assert(cs =~= seq![data]);
        assert(cs.len() == 1);
        assert(cs.flatten() == cs[0]);
    } else {
        let head = data.take(chunk as int);
        let tail = data.skip(chunk as int);
        lemma_chunks_reassemble(tail, chunk);
        let rest = chunks_of(tail, chunk);
        assert(cs == seq![head] + rest);
        assert(cs.drop_first() =~= rest);
        assert(cs.first() == head);
        assert(cs.flatten() == head + rest.flatten());
        assert(head + tail =~= data);
        assert forall|i: int| 0 <= i < cs.len() - 1 implies (#[trigger] cs[i]).len() == chunk by {
            if i > 0 {
                assert(cs[i] == rest[i - 1]);
            }
        }
        assert(cs.last() == rest.last());
        assert(rest.last().len() == tail.len() - chunk * (rest.len() - 1));
        assert(chunk * ((rest.len() - 1) + 1) == chunk * (rest.len() - 1) + chunk)
            by (nonlinear_arith);
        assert(cs.len() - 1 == (rest.len() - 1) + 1);
    }
}

/// The sizes a download announces when every read returns as much of one
/// chunk as the file still has: full chunks, then the remainder.
pub open spec fn announced_sizes(total: nat, chunk: nat) -> Seq<int>
    decreases total,
{
    if chunk == 0 || total == 0 {
        Seq::empty()
    } else if total <= chunk {
        seq![total as int]
    } else {
        seq![chunk as int] + announced_sizes((total - chunk) as nat, chunk)
    }
}

/// Law of the download stream: when every read fills as much of the chunk
/// buffer as the file still has, the sizes announced chunk by chunk are
/// exactly the sizes of the chunks of the file — so the client can pair
/// every announcement with its binary frame and reassemble the file.
pub proof fn lemma_announced_sizes_match(data: Seq<u8>, chunk: nat)
    requires
        chunk > 0,
    ensures
        announced_sizes(data.len(), chunk) == chunks_of(data, chunk).map_values(
            |c: Seq<u8>| c.len() as int,
        ),
    decreases data.len(),
{
    let sizes = announced_sizes(data.len(), chunk);
    let lens = chunks_of(data, chunk).map_values(|c: Seq<u8>| c.len() as int);
    if data.len() == 0 {
        assert(sizes =~= lens);
    } else if data.len() <= chunk {
        assert(chunks_of(data, chunk) =~= seq![data]);
        assert(sizes =~= lens);
    } else {
        let tail = data.skip(chunk as int);
        lemma_announced_sizes_match(tail, chunk);
        assert(chunks_of(data, chunk) =~= seq![data.take(chunk as int)] + chunks_of(tail, chunk));
        assert(sizes =~= lens);
    }
}

/// Split in-memory data into chunks of at most `chunk` bytes.
pub fn split_into_chunks(data: &[u8], chunk: usize) -> (r: Vec<Vec<u8>>)
    requires
        chunk > 0,
    ensures
        r@.map_values(|c: Vec<u8>| c@) == chunks_of(data@, chunk as nat),
    decreases data@.len(),
{
    let n = data.len();
    if n == 0 {
        let r: Vec<Vec<u8>> = Vec::new();
        proof {
            assert(r@.map_values(|c: Vec<u8>| c@) =~= chunks_of(data@, chunk as nat));
        }
        r
    } else if n <= chunk {
        let mut r: Vec<Vec<u8>> = Vec::new();
        r.push(slice_to_vec(data));
        proof {
            assert(r@.map_values(|c: Vec<u8>| c@) =~= chunks_of(data@, chunk as nat));
        }
        r
    } else {
        let head = slice_subrange(data, 0, chunk);
        let tail = slice_subrange(data, chunk, n);
        let mut rest = split_into_chunks(tail, chunk);
        let mut r: Vec<Vec<u8>> = Vec::new();
        r.push(slice_to_vec(head));
        r.append(&mut rest);
        proof {
            assert(head@ =~= data@.take(chunk as int));
            assert(tail@ =~= data@.skip(chunk as int));
            assert(r@.map_values(|c: Vec<u8>| c@) =~= chunks_of(data@, chunk as nat));
        }
        r
    }
}

} // verus!
