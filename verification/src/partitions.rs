//! The fixed flash layout: where the metadata and the two firmware image
//! partitions sit in the flash address space. The values mirror the device's
//! partition table.

use vstd::prelude::*;

verus! {

/// One partition of the flash address space.
#[derive(Clone, Copy, Debug, PartialEq, Eq, Structural)]
pub struct Partition {
    pub offset: u32,
    pub size: u32,
}

/// Size of one erasable flash sector in bytes.
pub const SECTOR_SIZE: u32 = 0x1000;

pub const NVS_OFFSET: u32 = 0x9000;
pub const NVS_SIZE: u32 = 0x4000;

/// The metadata partition holding the two selector entries, at byte offsets
/// `0` and `SECTOR_SIZE` within it.
pub const OTA_DATA_OFFSET: u32 = 0xD000;
pub const OTA_DATA_SIZE: u32 = 0x2000;

pub const OTA_0_OFFSET: u32 = 0x110000;
pub const OTA_0_SIZE: u32 = 0x100000;

pub const OTA_1_OFFSET: u32 = 0x210000;
pub const OTA_1_SIZE: u32 = 0x100000;

/// First address past every partition this crate touches; a flash medium must
/// be at least this large.
pub const FLASH_SPAN: u32 = 0x310000;

pub fn nvs_partition() -> (r: Partition)
    ensures
        r == (Partition { offset: NVS_OFFSET, size: NVS_SIZE }),
{
    Partition { offset: NVS_OFFSET, size: NVS_SIZE }
}

pub fn ota_data_partition() -> (r: Partition)
    ensures
        r == (Partition { offset: OTA_DATA_OFFSET, size: OTA_DATA_SIZE }),
{
    Partition { offset: OTA_DATA_OFFSET, size: OTA_DATA_SIZE }
}

pub fn ota_0_partition() -> (r: Partition)
    ensures
        r == (Partition { offset: OTA_0_OFFSET, size: OTA_0_SIZE }),
{
    Partition { offset: OTA_0_OFFSET, size: OTA_0_SIZE }
}

pub fn ota_1_partition() -> (r: Partition)
    ensures
        r == (Partition { offset: OTA_1_OFFSET, size: OTA_1_SIZE }),
{
    Partition { offset: OTA_1_OFFSET, size: OTA_1_SIZE }
}

} // verus!
