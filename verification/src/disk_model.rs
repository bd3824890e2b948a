//! In-memory model of the asynchronous disk backend.
//!
//! The disk backend interface is read and write at an offset, truncate or
//! extend, punch holes, write zeroes, pre-allocate, clone the handle - at
//! run time served by a disk image file.  Here the image is a byte vector,
//! so every operation is executable and its effect on the contents is
//! stated exactly.
//! Hole punching reads back as zeroes, as it does on a sparse image.

use vstd::prelude::*;

verus! {

/// A sequence of `n` zero bytes.
pub open spec fn zero_seq(n: int) -> Seq<u8> {
    Seq::new(n as nat, |i: int| 0u8)
}

/// `d` with `b` stored at offset `off`; everything else is unchanged.
pub open spec fn store_bytes(d: Seq<u8>, off: int, b: Seq<u8>) -> Seq<u8>
    recommends
        0 <= off,
        off + b.len() <= d.len(),
{
    d.subrange(0, off) + b + d.subrange(off + b.len(), d.len() as int)
}

/// `d` with `len` zero bytes stored at offset `off`.
pub open spec fn zero_range_spec(d: Seq<u8>, off: int, len: int) -> Seq<u8>
    recommends
        0 <= off,
        0 <= len,
        off + len <= d.len(),
{
    store_bytes(d, off, zero_seq(len))
}

/// `d` truncated or extended with zeroes to length `n`, as a file is by
/// `set_len`.
pub open spec fn resize_spec(d: Seq<u8>, n: int) -> Seq<u8>
    recommends
        0 <= n,
{
    if n <= d.len() {
        d.subrange(0, n)
    } else {
        d + zero_seq(n - d.len())
    }
}

/// Bytes stored at an offset read back unchanged.
pub proof fn lemma_store_then_read(d: Seq<u8>, off: int, b: Seq<u8>)
    requires
        0 <= off,
        off + b.len() <= d.len(),
    ensures
        store_bytes(d, off, b).len() == d.len(),
        store_bytes(d, off, b).subrange(off, off + b.len()) == b,
{
    assert(store_bytes(d, off, b).subrange(off, off + b.len()) =~= b);
}

/// A zeroed range reads back as zeroes.
pub proof fn lemma_zero_then_read(d: Seq<u8>, off: int, len: int)
    requires
        0 <= off,
        0 <= len,
        off + len <= d.len(),
    ensures
        zero_range_spec(d, off, len).len() == d.len(),
        zero_range_spec(d, off, len).subrange(off, off + len) == zero_seq(len),
{
    lemma_store_then_read(d, off, zero_seq(len));
}

/// The in-memory disk image.
pub struct Disk {
    data: Vec<u8>,
}

impl Disk {
    /// The bytes the image currently holds.
    pub closed spec fn contents(self) -> Seq<u8> {
        self.data@
    }

    /// A fresh image of `len` zero bytes.
    pub fn zeroed(len: usize) -> (d: Disk)
        ensures
            d.contents() == zero_seq(len as int),
    {
        let mut data: Vec<u8> = Vec::new();
        let mut i: usize = 0;
        while i < len
            invariant
                i <= len,
                data@ =~= zero_seq(i as int),
            decreases len - i,
        {
            data.push(0u8);
            i = i + 1;
        }
        proof {
            assert(data@ =~= zero_seq(len as int));
        }
        Disk { data }
    }

    /// An image holding exactly `data`.
    pub fn from_contents(data: Vec<u8>) -> (d: Disk)
        ensures
            d.contents() == data@,
    {
        Disk { data }
    }

    /// Length of the image in bytes.
    pub fn get_len(&self) -> (n: u64)
        ensures
            n == self.contents().len(),
    {
        self.data.len() as u64
    }

    /// Truncates or zero-extends the image to `new_len` bytes.
    pub fn set_len(&mut self, new_len: usize)
        ensures
            final(self).contents() == resize_spec(old(self).contents(), new_len as int),
    {
        if new_len <= self.data.len() {
            self.data.truncate(new_len);
            proof {
                assert(self.data@ =~= resize_spec(old(self).contents(), new_len as int));
            }
        } else {
            while self.data.len() < new_len
                invariant
                    old(self).contents().len() <= self.data@.len() <= new_len,
                    self.data@ =~= old(self).contents() + zero_seq(
                        self.data@.len() - old(self).contents().len(),
                    ),
                decreases new_len - self.data@.len(),
            {
                self.data.push(0u8);
                proof {
                    assert(self.data@ =~= old(self).contents() + zero_seq(
                        self.data@.len() - old(self).contents().len(),
                    ));
                }
            }
            proof {
                assert(self.data@ =~= resize_spec(old(self).contents(), new_len as int));
            }
        }
    }

    /// Pre-reserves backing blocks; the contents are untouched.
    pub fn allocate(&self, _offset: u64, _length: u64) {
    }

    /// Durably commits prior completed writes.  The in-memory image is
    /// always durable, so this is a point of ordering only; the contents are
    /// untouched.
    pub fn fsync(&self) {
    }

    /// The `len` bytes stored at `offset`.
    pub fn read_at(&self, offset: u64, len: usize) -> (b: Vec<u8>)
        requires
            offset + len <= self.contents().len(),
        ensures
            b@ == self.contents().subrange(offset as int, offset + len),
    {
        let n: usize = self.data.len();
        assert(offset + len <= n);
        let start = offset as usize;
        let mut b: Vec<u8> = Vec::new();
        let mut i: usize = 0;
        while i < len
            invariant
                i <= len,
                start == offset,
                start + len <= usize::MAX,
                offset + len <= self.contents().len(),
                b@ =~= self.contents().subrange(offset as int, offset + i),
            decreases len - i,
        {
            b.push(self.data[start + i]);
            proof {
                assert(b@ =~= self.contents().subrange(offset as int, offset + i + 1));
            }
            i = i + 1;
        }
        b
    }

    /// Stores `buf` at `offset`; the length of the image is unchanged.
    pub fn write_at(&mut self, offset: u64, buf: &Vec<u8>)
        requires
            offset + buf@.len() <= old(self).contents().len(),
        ensures
            final(self).contents() == store_bytes(old(self).contents(), offset as int, buf@),
    {
        let n: usize = self.data.len();
        assert(offset + buf@.len() <= n);
        let start = offset as usize;
        let len = buf.len();
        let mut i: usize = 0;
        while i < len
            invariant
                i <= len,
                len == buf@.len(),
                start == offset,
                start + len <= usize::MAX,
                offset + len <= old(self).contents().len(),
                self.data@.len() == old(self).contents().len(),
                forall|j: int|
                    0 <= j < self.data@.len() && !(offset <= j < offset + i) ==> self.data@[j]
                        == old(self).contents()[j],
                forall|j: int| offset <= j < offset + i ==> self.data@[j] == buf@[j - offset],
            decreases len - i,
        {
            self.data.set(start + i, buf[i]);
            i = i + 1;
        }
        proof {
            assert(self.data@ =~= store_bytes(old(self).contents(), offset as int, buf@));
        }
    }

    /// Stores `length` zero bytes at `offset`.
    pub fn write_zeroes_at(&mut self, offset: u64, length: u64)
        requires
            offset + length <= old(self).contents().len(),
        ensures
            final(self).contents() == zero_range_spec(
                old(self).contents(),
                offset as int,
                length as int,
            ),
    {
        let n: usize = self.data.len();
        assert(offset + length <= n);
        let start = offset as usize;
        let len = length as usize;
        let mut i: usize = 0;
        while i < len
            invariant
                i <= len,
                len == length,
                start == offset,
                start + len <= usize::MAX,
                offset + length <= old(self).contents().len(),
                self.data@.len() == old(self).contents().len(),
                forall|j: int|
                    0 <= j < self.data@.len() && !(offset <= j < offset + i) ==> self.data@[j]
                        == old(self).contents()[j],
                forall|j: int| offset <= j < offset + i ==> self.data@[j] == 0u8,
            decreases len - i,
        {
            self.data.set(start + i, 0u8);
            i = i + 1;
        }
        proof {
            assert(self.data@ =~= zero_range_spec(
                old(self).contents(),
                offset as int,
                length as int,
            ));
        }
    }

    /// Deallocates `length` bytes at `offset`; the hole reads back as zeroes,
    /// as on a sparse image.
    pub fn punch_hole(&mut self, offset: u64, length: u64)
        requires
            offset + length <= old(self).contents().len(),
        ensures
            final(self).contents() == zero_range_spec(
                old(self).contents(),
                offset as int,
                length as int,
            ),
    {
        self.write_zeroes_at(offset, length);
    }

    /// An independent handle on the same image.  In this model the clone is a
    /// snapshot of the contents.
    pub fn try_clone(&self) -> (d: Disk)
        ensures
            d.contents() == self.contents(),
    {
        Disk { data: self.data.clone() }
    }
}

} // verus!
