use zfs::error::Error;
use zfs::nvlist::{Encoding, Endianness, Flags, Version};
use zfs::unix::{block_device_size, block_device_size_from_sysfs, DeviceNumber};
use zfs::vdev::label::{nvlist_offset, offset, read_nvlist, LabelNumber, LABEL_NVLIST_OFFSET, LABEL_SIZE};

#[test]
fn label_offsets_on_a_two_gigabyte_device() {
    let s: u64 = 2_000_000_000;
    assert_eq!(offset(s, LabelNumber::L0), 0);
    assert_eq!(offset(s, LabelNumber::L1), 262144);
    assert_eq!(offset(s, LabelNumber::L2), s - 524288);
    assert_eq!(offset(s, LabelNumber::L3), s - 262144);
    assert_eq!(nvlist_offset(s, LabelNumber::L0), 16384);
    assert_eq!(nvlist_offset(s, LabelNumber::L1), 262144 + 16384);
    assert_eq!(nvlist_offset(s, LabelNumber::L2), s - 524288 + 16384);
    assert_eq!(nvlist_offset(s, LabelNumber::L3), s - 262144 + 16384);
}

#[test]
fn label_offsets_on_the_smallest_device() {
    let s = 2 * LABEL_SIZE;
    assert_eq!(offset(s, LabelNumber::L2), 0);
    assert_eq!(offset(s, LabelNumber::L3), LABEL_SIZE);
}

fn region_with(header: &[u8]) -> Vec<u8> {
    let mut region = vec![0u8; LABEL_SIZE as usize];
    let at = LABEL_NVLIST_OFFSET as usize;
    region[at..at + header.len()].copy_from_slice(header);
    region
}

#[test]
fn read_nvlist_decodes_the_header_inside_the_region() {
    let l = read_nvlist(region_with(&[1, 0, 0, 0, 0, 0, 0, 0, 0, 0, 0, 3])).unwrap();
    assert_eq!(l.header.encoding, Encoding::XDR);
    assert_eq!(l.header.endianness, Endianness::Big);
    assert_eq!(l.version, Version::V0);
    assert_eq!(l.flags, vec![Flags::UniqueName, Flags::UniqueNameType]);
}

#[test]
fn read_nvlist_passes_errors_on() {
    assert_eq!(read_nvlist(region_with(&[5])).unwrap_err(), Error::InvalidInput(5));
    assert_eq!(read_nvlist(vec![1, 0, 0, 0]).unwrap_err(), Error::UnexpectedEof);
}

#[test]
fn device_number_splits_major_and_minor() {
    let n = DeviceNumber::new(0x0803);
    assert_eq!((n.major, n.minor), (8, 3));
    let n = DeviceNumber::new(0xabc_1234_5678);
    assert_eq!((n.major, n.minor), (0x56, 0x78));
}

#[test]
fn block_device_size_counts_half_kilobyte_blocks() {
    assert_eq!(block_device_size(3), Some(1536));
    assert_eq!(block_device_size(0), Some(0));
    assert_eq!(block_device_size(u64::MAX / 512), Some(u64::MAX / 512 * 512));
    assert_eq!(block_device_size(u64::MAX / 512 + 1), None);
}

#[test]
fn block_device_size_from_sysfs_text() {
    assert_eq!(block_device_size_from_sysfs("3907029168\n"), Some(3907029168 * 512));
    assert_eq!(block_device_size_from_sysfs("  8 \t"), Some(4096));
    assert_eq!(block_device_size_from_sysfs("+2"), Some(1024));
    assert_eq!(block_device_size_from_sysfs("\u{3000}5\u{a0}"), Some(2560));
    assert_eq!(block_device_size_from_sysfs(""), None);
    assert_eq!(block_device_size_from_sysfs("\n"), None);
    assert_eq!(block_device_size_from_sysfs("-1"), None);
    assert_eq!(block_device_size_from_sysfs("12a"), None);
    assert_eq!(block_device_size_from_sysfs("1 2"), None);
    assert_eq!(block_device_size_from_sysfs("18446744073709551616"), None);
    assert_eq!(block_device_size_from_sysfs("36028797018963968"), None);
    assert_eq!(block_device_size_from_sysfs("36028797018963967"), Some(36028797018963967 * 512));
}
