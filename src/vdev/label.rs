use vstd::prelude::*;
use crate::binary::{Reader, SeekFrom};
use crate::error::Error;
use crate::nvlist::{Flags, List, StreamHeader, Version, nvstream_read};

verus! {

/// Size of one label region.
pub const LABEL_SIZE: u64 = 262144;

/// Offset of the nvlist header inside a label region.
pub const LABEL_NVLIST_OFFSET: u64 = 16384;

/// One of the four redundant copies of the label: two at the start of the
/// device and two at its end.
#[derive(Debug, Clone, Copy, PartialEq, Eq, Structural)]
pub enum LabelNumber {
    L0,
    L1,
    L2,
    L3,
}

/// Where the region of `label` starts on a device of `size` bytes.
pub open spec fn label_offset(size: int, label: LabelNumber) -> int {
    match label {
        LabelNumber::L0 => 0,
        LabelNumber::L1 => LABEL_SIZE as int,
        LabelNumber::L2 => size - 2 * LABEL_SIZE,
        LabelNumber::L3 => size - LABEL_SIZE,
    }
}

/// Byte offset of the region of `label` on a device of `physical_vdev_size`
/// bytes. The device must hold at least the two trailing label regions.
pub fn offset(physical_vdev_size: u64, label: LabelNumber) -> (r: u64)
    requires
        physical_vdev_size >= 2 * LABEL_SIZE,
    ensures
        r == label_offset(physical_vdev_size as int, label),
{
    let base_offset: u64 = match label {
        LabelNumber::L0 | LabelNumber::L1 => 0,
        LabelNumber::L2 | LabelNumber::L3 => physical_vdev_size - LABEL_SIZE * 2,
    };
    let offset: u64 = match label {
        LabelNumber::L0 | LabelNumber::L2 => 0,
        LabelNumber::L1 | LabelNumber::L3 => 1,
    };
    base_offset + offset * LABEL_SIZE
}

/// Byte offset of the nvlist header of `label` on a device of
/// `physical_vdev_size` bytes.
pub fn nvlist_offset(physical_vdev_size: u64, label: LabelNumber) -> (r: u64)
    requires
        physical_vdev_size >= 2 * LABEL_SIZE,
    ensures
        r == label_offset(physical_vdev_size as int, label) + LABEL_NVLIST_OFFSET,
{
    offset(physical_vdev_size, label) + LABEL_NVLIST_OFFSET
}

/// Decodes the nvlist header of a label from the bytes of its region, read
/// from the start of the region given by `offset`.
pub fn read_nvlist(region: Vec<u8>) -> (res: Result<List, Error>)
    ensures
        match res {
            Ok(l) => nvstream_read(region@, LABEL_NVLIST_OFFSET as int).0
                == Ok::<(StreamHeader, Version, Seq<Flags>), Error>((l.header, l.version, l.flags@)),
            Err(e) => nvstream_read(region@, LABEL_NVLIST_OFFSET as int).0
                == Err::<(StreamHeader, Version, Seq<Flags>), Error>(e),
        },
{
    let mut r = Reader::new(region);
    r.seek(SeekFrom::Start(LABEL_NVLIST_OFFSET))?;
    List::read(&mut r)
}
} // verus!
