//! Bounded pool of fixed-capacity byte buffers.
//!
//! Every chunked I/O path of the gateway borrows one buffer for the duration
//! of one chunk and returns it afterwards. The pool never hands out more
//! buffers than its configured capacity, which bounds the memory spent on
//! concurrent transfers no matter how many sessions are active.

use vstd::prelude::*;

verus! {

/// A byte buffer checked out of the pool for one chunk's read or write.
///
/// `cap` is the fixed capacity the pool built the buffer with; the contents
/// never outgrow it. Returning the buffer resets its length to zero without
/// shrinking the capacity.
pub struct PooledBuffer {
    data: Vec<u8>,
    cap: usize,
}

impl View for PooledBuffer {
    type V = Seq<u8>;

    closed spec fn view(&self) -> Seq<u8> {
        self.data@
    }
}

impl PooledBuffer {
    /// The fixed capacity this buffer was built with.
    pub closed spec fn spec_cap(&self) -> usize {
        self.cap
    }

    /// The contents always fit in the fixed capacity.
    pub open spec fn wf(&self) -> bool {
        self@.len() <= self.spec_cap()
    }

    pub fn capacity(&self) -> (n: usize)
        ensures
            n == self.spec_cap(),
    {
        self.cap
    }

    pub fn len(&self) -> (n: usize)
        ensures
            n == self@.len(),
    {
        self.data.len()
    }

    pub fn as_bytes(&self) -> (s: &[u8])
        ensures
            s@ == self@,
    {
        self.data.as_slice()
    }

    /// Append one chunk's bytes; the caller keeps the total within capacity,
    /// which is what bounds the memory of a transfer.
    pub fn append_bytes(&mut self, src: &[u8])
        requires
            old(self)@.len() + src@.len() <= old(self).spec_cap(),
        ensures
            final(self)@ == old(self)@ + src@,
            final(self).spec_cap() == old(self).spec_cap(),
            final(self).wf(),
    {
        let mut i: usize = 0;
        while i < src.len()
            invariant
                i <= src@.len(),
                self@ == old(self)@ + src@.subrange(0, i as int),
                self@.len() == old(self)@.len() + i,
                old(self)@.len() + src@.len() <= old(self).spec_cap(),
                self.spec_cap() == old(self).spec_cap(),
            decreases src@.len() - i,
        {
            self.data.push(src[i]);
            i = i + 1;
            assert(self@ == old(self)@ + src@.subrange(0, i as int));
        }
        assert(src@.subrange(0, src@.len() as int) == src@);
    }

    /// Reset to zero length; the capacity is kept for reuse.
    pub fn reset(&mut self)
        ensures
            final(self)@.len() == 0,
            final(self).spec_cap() == old(self).spec_cap(),
            final(self).wf(),
    {
        self.data.clear();
    }
}

/// Builds the pool's buffers: each one empty, with the fixed capacity chosen
/// at construction.
#[derive(Clone)]
pub struct BufferManager {
    size: usize,
}

impl BufferManager {
    /// The capacity, in bytes, of every buffer this manager builds.
    pub closed spec fn spec_size(&self) -> usize {
        self.size
    }

    pub fn new(size: usize) -> (m: BufferManager)
        ensures
            m.spec_size() == size,
    {
        BufferManager { size }
    }

    pub fn size(&self) -> (n: usize)
        ensures
            n == self.spec_size(),
    {
        self.size
    }

    /// A fresh buffer: empty, with the fixed capacity.
    pub fn fresh(&self) -> (b: PooledBuffer)
        ensures
            b@.len() == 0,
            b.spec_cap() == self.spec_size(),
            b.wf(),
    {
        PooledBuffer { data: Vec::new(), cap: self.size }
    }

    /// Make a returned buffer ready for reuse: zero length, capacity kept.
    pub fn recycle(&self, b: &mut PooledBuffer)
        ensures
            final(b)@.len() == 0,
            final(b).spec_cap() == old(b).spec_cap(),
            final(b).wf(),
    {
        b.reset();
    }
}

/// The bounded buffer pool.
///
/// `outstanding` counts the buffers currently checked out; it never exceeds
/// `capacity`, so the bytes held by in-flight chunks are bounded by
/// `capacity * buffer size` across all sessions.
pub struct BufferPool {
    manager: BufferManager,
    capacity: usize,
    outstanding: usize,
    free: Vec<PooledBuffer>,
}

impl BufferPool {
    pub closed spec fn spec_capacity(&self) -> usize {
        self.capacity
    }

    pub closed spec fn spec_buf_size(&self) -> usize {
        self.manager.spec_size()
    }

    pub closed spec fn spec_outstanding(&self) -> usize {
        self.outstanding
    }

    pub closed spec fn spec_free_count(&self) -> usize {
        self.free.len() as usize
    }

    /// The pool invariant: checked-out and idle buffers together never exceed
    /// the configured capacity, and every idle buffer is reset and of the
    /// fixed size.
    pub closed spec fn wf(&self) -> bool {
        &&& self.outstanding + self.free@.len() <= self.capacity
        &&& forall|i: int|
            0 <= i < self.free@.len() ==> (#[trigger] self.free@[i])@.len() == 0
                && self.free@[i].spec_cap() == self.manager.spec_size()
    }

    pub fn new(manager: BufferManager, capacity: usize) -> (p: BufferPool)
        ensures
            p.wf(),
            p.spec_capacity() == capacity,
            p.spec_buf_size() == manager.spec_size(),
            p.spec_outstanding() == 0,
    {
        BufferPool { manager, capacity, outstanding: 0, free: Vec::new() }
    }

    pub fn capacity(&self) -> (n: usize)
        ensures
            n == self.spec_capacity(),
    {
        self.capacity
    }

    pub fn outstanding(&self) -> (n: usize)
        ensures
            n == self.spec_outstanding(),
    {
        self.outstanding
    }

    /// Try to check a buffer out. Succeeds exactly when the pool is below
    /// capacity, so the number of buffers in flight can never pass the bound;
    /// a caller that receives `None` must wait for a release.
    pub fn try_checkout(&mut self) -> (r: Option<PooledBuffer>)
        requires
            old(self).wf(),
        ensures
            final(self).wf(),
            final(self).spec_capacity() == old(self).spec_capacity(),
            final(self).spec_buf_size() == old(self).spec_buf_size(),
            r is Some <==> old(self).spec_outstanding() < old(self).spec_capacity(),
            r matches Some(b) ==> {
                &&& final(self).spec_outstanding() == old(self).spec_outstanding() + 1
                &&& b@.len() == 0
                &&& b.spec_cap() == old(self).spec_buf_size()
                &&& b.wf()
            },
            r is None ==> final(self).spec_outstanding() == old(self).spec_outstanding(),
            final(self).spec_outstanding() <= final(self).spec_capacity(),
    {
        if self.outstanding < self.capacity {
            self.outstanding = self.outstanding + 1;
            match self.free.pop() {
                Some(b) => Some(b),
                None => Some(self.manager.fresh()),
            }
        } else {
            None
        }
    }

    /// Return a checked-out buffer: it is reset to zero length, its capacity
    /// kept, and the outstanding count goes down by one.
    pub fn release(&mut self, buf: PooledBuffer)
        requires
            old(self).wf(),
            old(self).spec_outstanding() > 0,
            buf.spec_cap() == old(self).spec_buf_size(),
        ensures
            final(self).wf(),
            final(self).spec_capacity() == old(self).spec_capacity(),
            final(self).spec_buf_size() == old(self).spec_buf_size(),
            final(self).spec_outstanding() == old(self).spec_outstanding() - 1,
            final(self).spec_free_count() == old(self).spec_free_count() + 1,
    {
        let mut buf = buf;
        buf.reset();
        self.free.push(buf);
        self.outstanding = self.outstanding - 1;
    }
}

} // verus!
