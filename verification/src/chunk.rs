//! Chunked register I/O.
//!
//! A logical read or write of an arbitrary span is split into chunks no
//! larger than one frame's payload capacity. Each chunk is one framed
//! request/response round trip. The surrounding application performs the
//! actual transport exchange; the transactions here decide every frame that
//! goes out and account for every response that comes back, so the chunking
//! arithmetic, the accumulated data and the abort-on-error rule are all
//! verified. A non-OK status aborts the whole operation with the device's
//! code and the transaction keeps no partial result.

use crate::error::MtError;
use crate::frame;
use crate::frame::{CHUNK_CAPACITY, REPORT_LENGTH, STATUS_OK};
use vstd::prelude::*;

verus! {

/// Number of frames a span of `length` bytes needs: `ceil(length / capacity)`.
pub open spec fn chunk_count(length: int) -> int {
    (length + CHUNK_CAPACITY - 1) / CHUNK_CAPACITY as int
}

/// Bytes carried by chunk `i` of a span of `length` bytes.
pub open spec fn chunk_len(length: int, i: int) -> int {
    if length - i * CHUNK_CAPACITY < CHUNK_CAPACITY {
        length - i * CHUNK_CAPACITY
    } else {
        CHUNK_CAPACITY as int
    }
}

/// Register address chunk `i` starts at.
pub open spec fn chunk_addr(address: int, i: int) -> int {
    address + i * CHUNK_CAPACITY
}

/// Bytes covered once the first `k` chunks of a span of `length` bytes are
/// done.
pub open spec fn covered(length: int, k: int) -> int {
    if k * CHUNK_CAPACITY < length {
        k * CHUNK_CAPACITY
    } else {
        length
    }
}

/// A logical read or write of `length` bytes is split into exactly
/// `ceil(length / capacity)` chunks; every chunk before the last carries the
/// full capacity, the last carries what is left, and together they cover the
/// span exactly.
pub proof fn lemma_chunks_cover_span(length: int)
    requires
        0 <= length,
    ensures
        CHUNK_CAPACITY * (chunk_count(length) - 1) < length || length == 0,
        length <= CHUNK_CAPACITY * chunk_count(length),
        covered(length, chunk_count(length)) == length,
        forall|i: int|
            0 <= i < chunk_count(length) ==> 1 <= #[trigger] chunk_len(length, i)
                <= CHUNK_CAPACITY,
        forall|i: int|
            0 <= i < chunk_count(length) ==> #[trigger] covered(length, i + 1) == covered(
                length,
                i,
            ) + chunk_len(length, i),
{
    let cap = CHUNK_CAPACITY as int;
    let n = chunk_count(length);
    assert(cap * (n - 1) < length || length == 0) by (nonlinear_arith)
        requires
            n == (length + cap - 1) / cap,
            cap == 28,
            0 <= length,
    ;
    assert(length <= cap * n) by (nonlinear_arith)
        requires
            n == (length + cap - 1) / cap,
            cap == 28,
            0 <= length,
    ;
    assert forall|i: int| 0 <= i < n implies 1 <= #[trigger] chunk_len(length, i)
        <= cap by {
        assert(i * cap < length && (i + 1) * cap <= i * cap + cap) by (nonlinear_arith)
            requires
                0 <= i < n,
                n == (length + cap - 1) / cap,
                cap == 28,
                0 <= length,
        ;
    }
    assert forall|i: int| 0 <= i < n implies #[trigger] covered(length, i + 1) == covered(
        length,
        i,
    ) + chunk_len(length, i) by {
        assert(i * cap < length) by (nonlinear_arith)
            requires
                0 <= i < n,
                n == (length + cap - 1) / cap,
                cap == 28,
                0 <= length,
        ;
        assert((i + 1) * cap == i * cap + cap) by (nonlinear_arith);
    }
}

/// A chunked register read in flight: issues one read-request frame per
/// chunk, in order, and accumulates each chunk's payload.
pub struct ReadTransaction {
    address: u16,
    length: u8,
    chunks_done: u8,
    data: Vec<u8>,
}

impl ReadTransaction {
    /// First register address of the span.
    pub closed spec fn spec_address(&self) -> u16 {
        self.address
    }

    /// Total bytes the logical read asks for.
    pub closed spec fn spec_length(&self) -> u8 {
        self.length
    }

    /// Chunks acknowledged so far.
    pub closed spec fn spec_chunks_done(&self) -> int {
        self.chunks_done as int
    }

    /// The data accumulated so far, in chunk order.
    pub closed spec fn spec_data(&self) -> Seq<u8> {
        self.data@
    }

    /// The transaction's bookkeeping is consistent.
    pub open spec fn wf(&self) -> bool {
        &&& self.spec_address() + self.spec_length() <= 0x10000
        &&& 0 <= self.spec_chunks_done() <= chunk_count(self.spec_length() as int)
        &&& self.spec_data().len() == covered(
            self.spec_length() as int,
            self.spec_chunks_done(),
        )
    }

    /// All chunks are acknowledged.
    pub open spec fn spec_done(&self) -> bool {
        self.spec_chunks_done() == chunk_count(self.spec_length() as int)
    }

    /// Start a logical read of `length` bytes at `address`.
    pub fn new(address: u16, length: u8) -> (t: ReadTransaction)
        requires
            address + length <= 0x10000,
        ensures
            t.wf(),
            t.spec_address() == address,
            t.spec_length() == length,
            t.spec_chunks_done() == 0,
            t.spec_data() == Seq::<u8>::empty(),
    {
        ReadTransaction { address, length, chunks_done: 0, data: Vec::new() }
    }

    /// Whether every chunk has been acknowledged and the data is complete.
    pub fn is_done(&self) -> (done: bool)
        requires
            self.wf(),
        ensures
            done == self.spec_done(),
    {
        proof {
            lemma_chunks_cover_span(self.spec_length() as int);
        }
        !(self.chunks_done as usize * CHUNK_CAPACITY < self.length as usize)
    }

    /// The request frame for the next chunk: a read of the next chunk's
    /// length at `address + chunks_done * capacity`.
    pub fn next_request(&self) -> (f: Vec<u8>)
        requires
            self.wf(),
            !self.spec_done(),
        ensures
            frame::is_read_request(
                f@,
                chunk_addr(self.spec_address() as int, self.spec_chunks_done()) as u16,
                chunk_len(self.spec_length() as int, self.spec_chunks_done()) as u8,
            ),
    {
        proof {
            lemma_chunks_cover_span(self.spec_length() as int);
        }
        let done_bytes = self.chunks_done as usize * CHUNK_CAPACITY;
        let remaining = self.length as usize - done_bytes;
        let len = if remaining < CHUNK_CAPACITY {
            remaining
        } else {
            CHUNK_CAPACITY
        };
        let addr = self.address + (done_bytes as u16);
        frame::read_request(addr, len as u8)
    }

    /// Account for the response to the chunk requested last. An OK status
    /// appends the chunk's payload to the accumulated data; any other status
    /// aborts the read with the device's code and discards nothing into the
    /// result — the transaction is left exactly as it was.
    #[verifier::loop_isolation(false)]
    pub fn accept_response(&mut self, f: &Vec<u8>) -> (r: Result<(), MtError>)
        requires
            old(self).wf(),
            !old(self).spec_done(),
            f@.len() == REPORT_LENGTH,
        ensures
            final(self).wf(),
            final(self).spec_address() == old(self).spec_address(),
            final(self).spec_length() == old(self).spec_length(),
            r is Ok <==> f@[0] == STATUS_OK,
            r is Ok ==> {
                &&& final(self).spec_chunks_done() == old(self).spec_chunks_done() + 1
                &&& final(self).spec_data() == old(self).spec_data() + f@.subrange(
                    4,
                    4 + chunk_len(
                        old(self).spec_length() as int,
                        old(self).spec_chunks_done(),
                    ),
                )
            },
            r is Err ==> {
                &&& r->Err_0 == MtError::DeviceError(f@[0])
                &&& *final(self) == *old(self)
            },
    {
        proof {
            lemma_chunks_cover_span(self.spec_length() as int);
            assert(chunk_count(self.spec_length() as int) <= 10) by (nonlinear_arith)
                requires
                    self.spec_length() <= 255,
                    chunk_count(self.spec_length() as int) == (self.spec_length() as int
                        + CHUNK_CAPACITY - 1) / CHUNK_CAPACITY as int,
                    CHUNK_CAPACITY == 28,
            ;
        }
        if f[0] != STATUS_OK {
            return Err(MtError::DeviceError(f[0]));
        }
        let done_bytes = self.chunks_done as usize * CHUNK_CAPACITY;
        let remaining = self.length as usize - done_bytes;
        let len = if remaining < CHUNK_CAPACITY {
            remaining
        } else {
            CHUNK_CAPACITY
        };
        let ghost before = self.data@;
        let mut i: usize = 0;
        while i < len
            invariant
                i <= len,
                self.address == old(self).spec_address(),
                self.length == old(self).spec_length(),
                self.chunks_done == old(self).spec_chunks_done(),
                self.data@ == before + f@.subrange(4, 4 + i as int),
            decreases len - i,
        {
            self.data.push(f[4 + i]);
            proof {
                assert(before + f@.subrange(4, 4 + (i + 1) as int) =~= (before
                    + f@.subrange(4, 4 + i as int)).push(f@[4 + i]));
            }
            i = i + 1;
        }
        self.chunks_done = self.chunks_done + 1;
        Ok(())
    }

    /// Hand out the fully accumulated data: exactly `length` bytes.
    pub fn finish(self) -> (data: Vec<u8>)
        requires
            self.wf(),
            self.spec_done(),
        ensures
            data@ == self.spec_data(),
            data@.len() == self.spec_length(),
    {
        proof {
            lemma_chunks_cover_span(self.spec_length() as int);
        }
        self.data
    }
}

/// A chunked register write in flight: issues one write-request frame per
/// chunk, in order, each carrying the next slice of the payload.
pub struct WriteTransaction {
    address: u16,
    data: Vec<u8>,
    chunks_done: u8,
}

impl WriteTransaction {
    /// First register address of the span.
    pub closed spec fn spec_address(&self) -> u16 {
        self.address
    }

    /// The whole payload the logical write carries.
    pub closed spec fn spec_data(&self) -> Seq<u8> {
        self.data@
    }

    /// Chunks acknowledged so far.
    pub closed spec fn spec_chunks_done(&self) -> int {
        self.chunks_done as int
    }

    /// The transaction's bookkeeping is consistent.
    pub open spec fn wf(&self) -> bool {
        &&& self.spec_address() + self.spec_data().len() <= 0x10000
        &&& self.spec_data().len() <= 255
        &&& 0 <= self.spec_chunks_done() <= chunk_count(self.spec_data().len() as int)
    }

    /// All chunks are acknowledged.
    pub open spec fn spec_done(&self) -> bool {
        self.spec_chunks_done() == chunk_count(self.spec_data().len() as int)
    }

    /// Start a logical write of `data` at `address`.
    pub fn new(address: u16, data: Vec<u8>) -> (t: WriteTransaction)
        requires
            address + data@.len() <= 0x10000,
            data@.len() <= 255,
        ensures
            t.wf(),
            t.spec_address() == address,
            t.spec_data() == data@,
            t.spec_chunks_done() == 0,
    {
        WriteTransaction { address, data, chunks_done: 0 }
    }

    /// Whether every chunk has been acknowledged.
    pub fn is_done(&self) -> (done: bool)
        requires
            self.wf(),
        ensures
            done == self.spec_done(),
    {
        proof {
            lemma_chunks_cover_span(self.spec_data().len() as int);
        }
        !((self.chunks_done as usize) * CHUNK_CAPACITY < self.data.len())
    }

    /// The request frame for the next chunk: a write of the next payload
    /// slice at `address + chunks_done * capacity`.
    pub fn next_request(&self) -> (f: Vec<u8>)
        requires
            self.wf(),
            !self.spec_done(),
        ensures
            frame::is_write_request(
                f@,
                chunk_addr(self.spec_address() as int, self.spec_chunks_done()) as u16,
                self.spec_data().subrange(
                    self.spec_chunks_done() * CHUNK_CAPACITY,
                    self.spec_chunks_done() * CHUNK_CAPACITY + chunk_len(
                        self.spec_data().len() as int,
                        self.spec_chunks_done(),
                    ),
                ),
            ),
    {
        proof {
            lemma_chunks_cover_span(self.spec_data().len() as int);
        }
        let done_bytes = self.chunks_done as usize * CHUNK_CAPACITY;
        let remaining = self.data.len() - done_bytes;
        let len = if remaining < CHUNK_CAPACITY {
            remaining
        } else {
            CHUNK_CAPACITY
        };
        let addr = self.address + (done_bytes as u16);
        frame::write_request(addr, &self.data, done_bytes, len)
    }

    /// Account for the response to the chunk requested last. An OK status
    /// moves on to the next chunk; any other status aborts the write with
    /// the device's code and the transaction is left exactly as it was.
    pub fn accept_response(&mut self, f: &Vec<u8>) -> (r: Result<(), MtError>)
        requires
            old(self).wf(),
            !old(self).spec_done(),
            f@.len() == REPORT_LENGTH,
        ensures
            final(self).wf(),
            final(self).spec_address() == old(self).spec_address(),
            final(self).spec_data() == old(self).spec_data(),
            r is Ok <==> f@[0] == STATUS_OK,
            r is Ok ==> final(self).spec_chunks_done() == old(self).spec_chunks_done() + 1,
            r is Err ==> {
                &&& r->Err_0 == MtError::DeviceError(f@[0])
                &&& *final(self) == *old(self)
            },
    {
        proof {
            lemma_chunks_cover_span(self.spec_data().len() as int);
        }
        if f[0] != STATUS_OK {
            return Err(MtError::DeviceError(f[0]));
        }
        self.chunks_done = self.chunks_done + 1;
        Ok(())
    }
}

} // verus!
