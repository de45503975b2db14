//! Non-volatile value storage: a small partition whose first word is a magic
//! marker saying whether its contents were ever initialized, with
//! bounds-checked reads and writes behind the marker.

use vstd::prelude::*;
use vstd::bytes::{spec_u32_from_le_bytes, spec_u32_to_le_bytes, u32_from_le_bytes, u32_to_le_bytes};
use crate::flash::{FlashStorage, StorageError};
use crate::partitions::{NVS_OFFSET, NVS_SIZE};

verus! {

/// The marker the partition carries once it has been initialized.
pub const MAGIC: u32 = 0xDEADBEEF;

/// First usable byte offset inside the partition: the four bytes of the
/// magic marker are reserved.
pub const MIN_OFFSET: u32 = 4;

/// What a storage operation can report.
#[derive(Debug, Clone, Copy, PartialEq, Eq, Structural)]
pub enum Error {
    /// The requested range reaches into the marker or past the partition.
    OutOfBounds,
    /// An I/O failure from the storage adapter, surfaced verbatim.
    Storage(StorageError),
}

impl From<StorageError> for Error {
    fn from(value: StorageError) -> (r: Self) {
        Error::Storage(value)
    }
}

impl vstd::std_specs::convert::FromSpecImpl<StorageError> for Error {
    open spec fn obeys_from_spec() -> bool {
        true
    }

    open spec fn from_spec(value: StorageError) -> Self {
        Error::Storage(value)
    }
}

/// Whether a range of `len` bytes at `offset` lies behind the marker and
/// within a partition of `size` bytes.
pub open spec fn spec_range_ok(offset: u32, len: int, size: u32) -> bool {
    offset >= MIN_OFFSET && offset + len <= size
}

/// The value storage over an exclusively owned flash medium.
pub struct Nvs<F: FlashStorage> {
    /// The exclusively owned flash medium.
    pub flash: F,
    /// Absolute flash address of the partition.
    pub offset: u32,
    /// Size of the partition in bytes.
    pub size: u32,
}

impl<F: FlashStorage> Nvs<F> {
    /// The bytes of the managed flash medium.
    pub open spec fn contents(&self) -> Seq<u8> {
        self.flash.contents()
    }

    /// The partition lies within the medium and has room for the marker.
    pub open spec fn wf(&self) -> bool {
        &&& self.offset + self.size <= self.contents().len()
        &&& self.offset + self.size <= u32::MAX
        &&& self.size >= MIN_OFFSET
    }

    /// Take exclusive charge of `flash`, managing the value-storage
    /// partition of the fixed layout.
    pub fn new(flash: F) -> (r: Nvs<F>)
        requires
            flash.contents().len() >= NVS_OFFSET + NVS_SIZE,
        ensures
            r.wf(),
            r.contents() == flash.contents(),
            r.offset == NVS_OFFSET,
            r.size == NVS_SIZE,
    {
        Nvs { flash, offset: NVS_OFFSET, size: NVS_SIZE }
    }

    /// Whether `len` bytes at `offset` may be read or written: the range
    /// must lie behind the marker and within the partition.
    fn valid_offset(&self, offset: u32, len: u32) -> (r: Result<(), Error>)
        ensures
            r matches Ok(u) <==> spec_range_ok(offset, len as int, self.size),
            r matches Err(e) ==> e == Error::OutOfBounds,
    {
        if offset < MIN_OFFSET || len > self.size || offset > self.size - len {
            Err(Error::OutOfBounds)
        } else {
            Ok(())
        }
    }

    /// Whether the partition carries the marker of initialized contents.
    pub fn is_valid(&mut self) -> (r: Result<bool, Error>)
        requires
            old(self).wf(),
        ensures
            final(self).wf(),
            final(self).contents() == old(self).contents(),
            final(self).offset == old(self).offset,
            final(self).size == old(self).size,
            r matches Ok(b) ==> b == (spec_u32_from_le_bytes(
                old(self).contents().subrange(old(self).offset as int, old(self).offset + 4),
            ) == MAGIC),
            r matches Err(e) ==> e matches Error::Storage(_),
    {
        let base = self.offset;
        let buf = match self.flash.read(base, MIN_OFFSET) {
            Ok(v) => v,
            Err(e) => {
                return Err(Error::Storage(e));
            },
        };
        let val = u32_from_le_bytes(buf.as_slice());
        Ok(val == MAGIC)
    }

    /// Write the marker, or erase it to zero.
    pub fn set_valid(&mut self, valid: bool) -> (r: Result<(), Error>)
        requires
            old(self).wf(),
        ensures
            final(self).wf(),
            final(self).offset == old(self).offset,
            final(self).size == old(self).size,
            final(self).contents().len() == old(self).contents().len(),
            forall|i: int|
                0 <= i < final(self).contents().len() && !(old(self).offset <= i < old(self).offset
                    + 4) ==> final(self).contents()[i] == old(self).contents()[i],
            r matches Ok(u) ==> final(self).contents().subrange(
                old(self).offset as int,
                old(self).offset + 4,
            ) == spec_u32_to_le_bytes(if valid { MAGIC } else { 0u32 }),
            r matches Err(e) ==> e matches Error::Storage(_),
    {
        let word: u32 = if valid {
            MAGIC
        } else {
            0
        };
        let buf = u32_to_le_bytes(word);
        let base = self.offset;
        match self.flash.write(base, buf.as_slice()) {
            Ok(u) => {
                proof {
                    assert(final(self).contents().subrange(
                        old(self).offset as int,
                        old(self).offset + 4,
                    ) =~= spec_u32_to_le_bytes(word));
                }
                Ok(())
            },
            Err(e) => Err(Error::Storage(e)),
        }
    }

    /// Read `len` bytes at `offset` behind the marker; a range outside the
    /// partition is refused.
    pub fn read(&mut self, offset: u32, len: u32) -> (r: Result<Vec<u8>, Error>)
        requires
            old(self).wf(),
        ensures
            final(self).wf(),
            final(self).contents() == old(self).contents(),
            final(self).offset == old(self).offset,
            final(self).size == old(self).size,
            !spec_range_ok(offset, len as int, old(self).size) <==> r == Err::<Vec<u8>, Error>(
                Error::OutOfBounds,
            ),
            r matches Ok(v) ==> v@ == old(self).contents().subrange(
                old(self).offset + offset,
                old(self).offset + offset + len,
            ),
            r matches Err(e) ==> (e == Error::OutOfBounds || e matches Error::Storage(_)),
    {
        match self.valid_offset(offset, len) {
            Ok(u) => {},
            Err(e) => {
                return Err(e);
            },
        }
        let base = self.offset + offset;
        match self.flash.read(base, len) {
            Ok(v) => Ok(v),
            Err(e) => Err(Error::Storage(e)),
        }
    }

    /// Write `buf` at `offset` behind the marker; a range outside the
    /// partition is refused whole, and no byte outside it is ever touched.
    pub fn write(&mut self, offset: u32, buf: &[u8]) -> (r: Result<(), Error>)
        requires
            old(self).wf(),
            buf@.len() <= u32::MAX,
        ensures
            final(self).wf(),
            final(self).offset == old(self).offset,
            final(self).size == old(self).size,
            final(self).contents().len() == old(self).contents().len(),
            !spec_range_ok(offset, buf@.len() as int, old(self).size) <==> r == Err::<(), Error>(
                Error::OutOfBounds,
            ),
            !spec_range_ok(offset, buf@.len() as int, old(self).size) ==> final(self).contents()
                == old(self).contents(),
            forall|i: int|
                0 <= i < final(self).contents().len() && !(old(self).offset + offset <= i
                    < old(self).offset + offset + buf@.len()) ==> final(self).contents()[i]
                    == old(self).contents()[i],
            r matches Ok(u) ==> forall|i: int|
                old(self).offset + offset <= i < old(self).offset + offset + buf@.len()
                    ==> final(self).contents()[i] == buf@[i - (old(self).offset + offset)],
            r matches Err(e) ==> (e == Error::OutOfBounds || e matches Error::Storage(_)),
    {
        match self.valid_offset(offset, buf.len() as u32) {
            Ok(u) => {},
            Err(e) => {
                return Err(e);
            },
        }
        let base = self.offset + offset;
        match self.flash.write(base, buf) {
            Ok(u) => Ok(()),
            Err(e) => Err(Error::Storage(e)),
        }
    }
}

} // verus!
