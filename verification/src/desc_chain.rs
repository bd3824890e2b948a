//! Model of one virtio descriptor chain: a typed reader over the
//! guest-to-host bytes, a typed writer over the host-to-guest bytes, and the
//! identifier used to mark the chain as used on its queue.
//!
//! The writer reserves its final byte for the status code; the request
//! pipeline splits that byte off so the data region and the status byte have
//! disjoint writers.

use vstd::prelude::*;

verus! {

/// Reader half of a descriptor chain: the bytes the guest made readable,
/// consumed front to back.
pub struct Reader {
    data: Vec<u8>,
    pos: usize,
}

impl Reader {
    /// The consumed prefix never runs past the end of the data.
    pub closed spec fn wf(self) -> bool {
        self.pos <= self.data@.len()
    }

    /// The bytes not yet consumed.
    pub closed spec fn remaining(self) -> Seq<u8> {
        self.data@.subrange(self.pos as int, self.data@.len() as int)
    }

    /// A reader over all of `data`.
    pub fn new(data: Vec<u8>) -> (r: Reader)
        ensures
            r.wf(),
            r.remaining() == data@,
    {
        let r = Reader { data, pos: 0 };
        proof {
            assert(r.remaining() =~= r.data@);
        }
        r
    }

    /// How many readable bytes are left.
    pub fn available_bytes(&self) -> (n: usize)
        requires
            self.wf(),
        ensures
            n == self.remaining().len(),
    {
        self.data.len() - self.pos
    }

    /// Consumes and returns the next `n` bytes.
    pub fn read_bytes(&mut self, n: usize) -> (b: Vec<u8>)
        requires
            old(self).wf(),
            n <= old(self).remaining().len(),
        ensures
            final(self).wf(),
            b@ == old(self).remaining().subrange(0, n as int),
            final(self).remaining() == old(self).remaining().skip(n as int),
    {
        let total: usize = self.data.len();
        let mut b: Vec<u8> = Vec::new();
        let mut i: usize = 0;
        while i < n
            invariant
                i <= n,
                self == old(self),
                old(self).wf(),
                total == self.data@.len(),
                self.pos + n <= total,
                b@ =~= old(self).remaining().subrange(0, i as int),
            decreases n - i,
        {
            b.push(self.data[self.pos + i]);
            proof {
                assert(b@ =~= old(self).remaining().subrange(0, i + 1));
            }
            i = i + 1;
        }
        self.pos = self.pos + n;
        proof {
            assert(self.remaining() =~= old(self).remaining().skip(n as int));
        }
        b
    }

    /// Consumes four bytes and returns the 32-bit value they hold, least
    /// significant first.
    pub fn read_u32_le(&mut self) -> (x: u32)
        requires
            old(self).wf(),
            4 <= old(self).remaining().len(),
        ensures
            final(self).wf(),
            x == crate::bytes::u32_from_le(old(self).remaining().subrange(0, 4)),
            final(self).remaining() == old(self).remaining().skip(4),
    {
        let b = self.read_bytes(4);
        crate::bytes::read_u32_le(&b, 0)
    }

    /// Consumes eight bytes and returns the 64-bit value they hold, least
    /// significant first.
    pub fn read_u64_le(&mut self) -> (x: u64)
        requires
            old(self).wf(),
            8 <= old(self).remaining().len(),
        ensures
            final(self).wf(),
            x == crate::bytes::u64_from_le(old(self).remaining().subrange(0, 8)),
            final(self).remaining() == old(self).remaining().skip(8),
    {
        let b = self.read_bytes(8);
        crate::bytes::read_u64_le(&b, 0)
    }
}

/// Writer half of a descriptor chain: a bounded region the host fills front
/// to back.
pub struct Writer {
    data: Vec<u8>,
    cap: usize,
}

impl Writer {
    /// What was written fits the region, and the region fits the 32-bit
    /// used-length field of the queue.
    pub closed spec fn wf(self) -> bool {
        self.data@.len() <= self.cap && self.cap <= u32::MAX
    }

    /// The bytes written so far.
    pub closed spec fn contents(self) -> Seq<u8> {
        self.data@
    }

    /// The total size of the writable region.
    pub closed spec fn capacity(self) -> int {
        self.cap as int
    }

    /// A well-formed writer's region fits the queue's 32-bit used-length
    /// field, and what was written fits the region.
    pub proof fn lemma_wf_bounds(self)
        requires
            self.wf(),
        ensures
            0 <= self.contents().len() <= self.capacity() <= u32::MAX,
    {
    }

    /// An empty writer over a region of `cap` bytes.
    pub fn new(cap: u32) -> (w: Writer)
        ensures
            w.wf(),
            w.contents() == Seq::<u8>::empty(),
            w.capacity() == cap,
    {
        let w = Writer { data: Vec::new(), cap: cap as usize };
        proof {
            assert(w.contents() =~= Seq::<u8>::empty());
        }
        w
    }

    /// How many writable bytes are left.
    pub fn available_bytes(&self) -> (n: usize)
        requires
            self.wf(),
        ensures
            n == self.capacity() - self.contents().len(),
    {
        self.cap - self.data.len()
    }

    /// Splits the region at `offset`: `self` keeps the first `offset` bytes,
    /// the returned writer owns the rest.  Only an unwritten tail can be
    /// split off.
    pub fn split_at(&mut self, offset: usize) -> (w: Writer)
        requires
            old(self).wf(),
            old(self).contents().len() <= offset <= old(self).capacity(),
        ensures
            final(self).wf(),
            w.wf(),
            final(self).contents() == old(self).contents(),
            final(self).capacity() == offset,
            w.contents() == Seq::<u8>::empty(),
            w.capacity() == old(self).capacity() - offset,
    {
        let tail_cap = self.cap - offset;
        self.cap = offset;
        let w = Writer { data: Vec::new(), cap: tail_cap };
        proof {
            assert(w.contents() =~= Seq::<u8>::empty());
        }
        w
    }

    /// Gives up the writer, returning the bytes written into it.
    pub fn into_vec(self) -> (v: Vec<u8>)
        ensures
            v@ == self.contents(),
    {
        let Writer { data, cap: _ } = self;
        data
    }

    /// Appends all of `buf` if it fits; on insufficient space nothing is
    /// written and `false` is returned.
    pub fn write_all(&mut self, buf: &Vec<u8>) -> (ok: bool)
        requires
            old(self).wf(),
        ensures
            final(self).wf(),
            ok <==> old(self).contents().len() + buf@.len() <= old(self).capacity(),
            final(self).capacity() == old(self).capacity(),
            ok ==> final(self).contents() == old(self).contents() + buf@,
            !ok ==> final(self).contents() == old(self).contents(),
    {
        if buf.len() > self.cap - self.data.len() {
            return false;
        }
        let mut i: usize = 0;
        let n = buf.len();
        while i < n
            invariant
                i <= n,
                n == buf@.len(),
                self.cap == old(self).cap,
                self.data@.len() + (n - i) <= self.cap,
                self.cap <= u32::MAX,
                self.data@ =~= old(self).contents() + buf@.subrange(0, i as int),
            decreases n - i,
        {
            self.data.push(buf[i]);
            proof {
                assert(self.data@ =~= old(self).contents() + buf@.subrange(0, i + 1));
            }
            i = i + 1;
        }
        proof {
            assert(self.data@ =~= old(self).contents() + buf@);
        }
        true
    }
}

/// One request from the guest: readable bytes, a writable data region, the
/// status byte region split off from its end, and the identifier reported on
/// the used ring.
pub struct DescriptorChain {
    /// Identifier used to mark the chain as used on the queue.
    pub id: u16,
    /// Guest-to-host bytes.
    pub reader: Reader,
    /// Host-to-guest data region.
    pub writer: Writer,
    /// Bytes of the status region, written when the request completes.
    pub status: Vec<u8>,
}

impl DescriptorChain {
    /// Both halves are well formed.
    pub open spec fn wf(self) -> bool {
        self.reader.wf() && self.writer.wf()
    }

    /// A chain carrying `reader_data` as its readable bytes and a writable
    /// region of `writer_cap` bytes (the last of which is the status byte).
    pub fn new(id: u16, reader_data: Vec<u8>, writer_cap: u32) -> (c: DescriptorChain)
        ensures
            c.wf(),
            c.id == id,
            c.reader.remaining() == reader_data@,
            c.writer.contents() == Seq::<u8>::empty(),
            c.writer.capacity() == writer_cap,
            c.status@ == Seq::<u8>::empty(),
    {
        let c = DescriptorChain {
            id,
            reader: Reader::new(reader_data),
            writer: Writer::new(writer_cap),
            status: Vec::new(),
        };
        proof {
            assert(c.status@ =~= Seq::<u8>::empty());
        }
        c
    }
}

} // verus!
