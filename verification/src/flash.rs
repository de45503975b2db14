//! The flash storage adapter: byte-addressable read/write over a fixed-size
//! medium, injected at construction so the update logic is independent of the
//! hardware. Erase-before-write ordering is the adapter's or the caller's
//! concern, not this crate's.

use vstd::prelude::*;

verus! {

/// An I/O failure reported by a flash storage adapter. Mirrors the error
/// kinds a hardware flash driver distinguishes, as plain values.
#[derive(Debug, Clone, Copy, PartialEq, Eq, Structural)]
pub enum StorageError {
    IoError,
    IoTimeout,
    NotAligned,
    OutOfBounds,
    Other,
}

/// Byte-addressable storage of fixed size. A write touches no byte outside
/// the addressed range, even when it fails; a read never changes the medium.
pub trait FlashStorage: Sized {
    /// The bytes the medium currently holds.
    spec fn contents(&self) -> Seq<u8>;

    /// Read `len` bytes starting at `offset`.
    fn read(&mut self, offset: u32, len: u32) -> (r: Result<Vec<u8>, StorageError>)
        requires
            offset + len <= old(self).contents().len(),
        ensures
            final(self).contents() == old(self).contents(),
            r matches Ok(v) ==> v@ == old(self).contents().subrange(
                offset as int,
                offset as int + len as int,
            ),
    ;

    /// Write `data` starting at `offset`.
    fn write(&mut self, offset: u32, data: &[u8]) -> (r: Result<(), StorageError>)
        requires
            offset + data@.len() <= old(self).contents().len(),
        ensures
            final(self).contents().len() == old(self).contents().len(),
            forall|i: int|
                0 <= i < final(self).contents().len() && !(offset <= i < offset + data@.len())
                    ==> final(self).contents()[i] == old(self).contents()[i],
            r matches Ok(u) ==> forall|i: int|
                offset <= i < offset + data@.len() ==> final(self).contents()[i] == data@[i
                    - offset],
    ;
}

/// An in-memory flash medium: every operation succeeds. It serves as the
/// unit-test double for the hardware adapter and as the reference behaviour a
/// driver must match.
pub struct MemFlash {
    data: Vec<u8>,
}

impl MemFlash {
    /// A fresh medium of `len` bytes, erased to `0xFF` as flash is.
    pub fn new(len: usize) -> (r: MemFlash)
        ensures
            r.contents() == Seq::new(len as nat, |i: int| 0xFFu8),
    {
        let mut data: Vec<u8> = Vec::new();
        let mut i: usize = 0;
        while i < len
            invariant
                0 <= i <= len,
                data@.len() == i,
                forall|j: int| 0 <= j < i ==> data@[j] == 0xFFu8,
            decreases len - i,
        {
            data.push(0xFF);
            i = i + 1;
        }
        let r = MemFlash { data };
        proof {
            assert(r.contents() =~= Seq::new(len as nat, |i: int| 0xFFu8));
        }
        r
    }
}

impl FlashStorage for MemFlash {
    closed spec fn contents(&self) -> Seq<u8> {
        self.data@
    }

    fn read(&mut self, offset: u32, len: u32) -> (r: Result<Vec<u8>, StorageError>) {
        let mut out: Vec<u8> = Vec::new();
        let base = offset as usize;
        let total = self.data.len();
        let mut i: usize = 0;
        while i < len as usize
            invariant
                base + len as usize <= total,
                total == self.data@.len(),
                0 <= i <= len as usize,
                out@.len() == i,
                forall|j: int| 0 <= j < i ==> out@[j] == self.data@[base + j],
            decreases len as usize - i,
        {
            out.push(self.data[base + i]);
            i = i + 1;
        }
        proof {
            assert(out@ =~= self.contents().subrange(offset as int, offset as int + len as int));
        }
        Ok(out)
    }

    fn write(&mut self, offset: u32, data: &[u8]) -> (r: Result<(), StorageError>) {
        let base = offset as usize;
        let total = self.data.len();
        let mut i: usize = 0;
        while i < data.len()
            invariant
                base + data@.len() <= total,
                total == self.data@.len(),
                0 <= i <= data@.len(),
                self.data@.len() == old(self).data@.len(),
                forall|j: int|
                    0 <= j < self.data@.len() && !(base <= j < base + i) ==> self.data@[j] == old(
                        self,
                    ).data@[j],
                forall|j: int| 0 <= j < i ==> self.data@[base + j] == data@[j],
            decreases data@.len() - i,
        {
            let b = *vstd::slice::slice_index_get(data, i);
            self.data.set(base + i, b);
            i = i + 1;
        }
        Ok(())
    }
}

} // verus!
