use zfs::binary::{Reader, SeekFrom};
use zfs::error::Error;

#[test]
fn read_fills_the_buffer_and_moves_the_cursor() {
    let mut r = Reader::new(vec![1, 2, 3, 4, 5]);
    let mut buf = [0u8; 3];
    assert_eq!(r.read(&mut buf), Ok(()));
    assert_eq!(buf, [1, 2, 3]);
    assert_eq!(r.position(), 3);
}

#[test]
fn short_read_fails_and_changes_nothing() {
    let mut r = Reader::new(vec![1, 2, 3]);
    let mut buf = [9u8; 4];
    assert_eq!(r.read(&mut buf), Err(Error::UnexpectedEof));
    assert_eq!(buf, [9, 9, 9, 9]);
    assert_eq!(r.position(), 0);
}

#[test]
fn empty_read_at_the_end_succeeds() {
    let mut r = Reader::new(vec![1, 2]);
    assert_eq!(r.seek(SeekFrom::End(0)), Ok(2));
    let mut buf = [0u8; 0];
    assert_eq!(r.read(&mut buf), Ok(()));
}

#[test]
fn seek_from_start_end_and_current() {
    let mut r = Reader::new(vec![0; 10]);
    assert_eq!(r.seek(SeekFrom::Start(4)), Ok(4));
    assert_eq!(r.seek(SeekFrom::Current(-3)), Ok(1));
    assert_eq!(r.seek(SeekFrom::End(-2)), Ok(8));
    assert_eq!(r.seek(SeekFrom::Start(20)), Ok(20));
    assert_eq!(r.seek(SeekFrom::Current(-21)), Err(Error::InvalidSeek));
    assert_eq!(r.position(), 20);
    assert_eq!(r.seek(SeekFrom::End(-11)), Err(Error::InvalidSeek));
}

#[test]
fn reading_past_the_end_after_a_seek_fails() {
    let mut r = Reader::new(vec![0; 4]);
    assert_eq!(r.seek(SeekFrom::Start(6)), Ok(6));
    let mut buf = [0u8; 1];
    assert_eq!(r.read(&mut buf), Err(Error::UnexpectedEof));
}

#[test]
fn skip_moves_forward() {
    let mut r = Reader::new(vec![0; 8]);
    assert_eq!(r.skip(3), Ok(3));
    assert_eq!(r.skip(0), Ok(3));
    assert_eq!(r.skip(2), Ok(5));
}

#[test]
fn skip_past_the_largest_offset_fails() {
    let mut r = Reader::new(vec![]);
    assert_eq!(r.seek(SeekFrom::Start(u64::MAX - 1)), Ok(u64::MAX - 1));
    assert_eq!(r.skip(2), Err(Error::InvalidSeek));
    assert_eq!(r.position(), u64::MAX - 1);
    assert_eq!(r.skip(1), Ok(u64::MAX));
}

#[test]
fn align_moves_to_the_next_multiple() {
    let mut r = Reader::new(vec![0; 32]);
    assert_eq!(r.align(4), Ok(0));
    assert_eq!(r.skip(1), Ok(1));
    assert_eq!(r.align(4), Ok(4));
    assert_eq!(r.skip(3), Ok(7));
    assert_eq!(r.align(8), Ok(8));
    assert_eq!(r.skip(1), Ok(9));
    assert_eq!(r.align(1), Ok(9));
    assert_eq!(r.align(16), Ok(16));
}

#[test]
fn align_twice_is_align_once() {
    for start in 0u64..12 {
        let mut r = Reader::new(vec![0; 16]);
        r.seek(SeekFrom::Start(start)).unwrap();
        let once = r.align(4).unwrap();
        let twice = r.align(4).unwrap();
        assert_eq!(once, twice);
        assert_eq!(once % 4, 0);
        assert!(once >= start && once < start + 4);
    }
}

#[test]
fn align_near_the_largest_offset_fails() {
    let mut r = Reader::new(vec![]);
    r.seek(SeekFrom::Start(u64::MAX - 1)).unwrap();
    assert_eq!(r.align(4), Err(Error::InvalidSeek));
    assert_eq!(r.position(), u64::MAX - 1);
}

#[test]
fn read_as_hands_the_bytes_over() {
    let mut r = Reader::new(vec![7, 8, 9]);
    let sum = r.read_as::<u32, 2>(|b: &[u8; 2]| b[0] as u32 * 10 + b[1] as u32);
    assert_eq!(sum, Ok(78));
    assert_eq!(r.position(), 2);
    assert_eq!(r.read_as::<u8, 2>(|b: &[u8; 2]| b[0]), Err(Error::UnexpectedEof));
    assert_eq!(r.position(), 2);
}

#[test]
fn try_read_as_passes_the_failure_on_and_consumes_the_bytes() {
    let mut r = Reader::new(vec![5, 6]);
    let res = r.try_read_as::<u8, 1>(|b: &[u8; 1]| Err(Error::InvalidInput(b[0])));
    assert_eq!(res, Err(Error::InvalidInput(5)));
    assert_eq!(r.position(), 1);
}

#[test]
fn read_to_reads_the_given_count() {
    let mut r = Reader::new(vec![1, 2, 3, 4, 5]);
    assert_eq!(r.read_to(3, |v: Vec<u8>| v), Ok(vec![1, 2, 3]));
    assert_eq!(r.try_read_to(2, |v: Vec<u8>| Ok(v.len())), Ok(2));
    assert_eq!(r.read_to(1, |v: Vec<u8>| v), Err(Error::UnexpectedEof));
    assert_eq!(r.position(), 5);
}
