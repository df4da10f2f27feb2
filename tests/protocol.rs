use metrics_exporter_scope::protocol::{
    check_version, read_frame, read_frame_len, read_version, write_frame, write_version, VERSION,
};
use metrics_exporter_scope::Error;

#[test]
fn version_cell_is_two_little_endian_bytes() {
    let mut out = vec![0xAAu8];
    write_version(&mut out);
    assert_eq!(out, vec![0xAA, 1, 0]);
    assert_eq!(read_version(&out[1..]), Ok(VERSION));
    assert_eq!(read_version(&[0x34, 0x12, 9]), Ok(0x1234));
}

#[test]
fn short_version_cell_is_truncated() {
    assert_eq!(read_version(&[1]), Err(Error::Truncated));
    assert_eq!(read_version(&[]), Err(Error::Truncated));
}

#[test]
fn only_the_own_version_is_accepted() {
    assert_eq!(check_version(1), Ok(()));
    assert_eq!(check_version(2), Err(Error::Incompatible(2)));
    assert_eq!(check_version(0), Err(Error::Incompatible(0)));
}

#[test]
fn frame_round_trip_keeps_payload() {
    let mut out = Vec::new();
    assert_eq!(write_frame(&mut out, b"abc"), Ok(()));
    assert_eq!(out, vec![3, 0, 0, 0, b'a', b'b', b'c']);
    out.extend_from_slice(&[9, 9]);
    let (payload, used) = read_frame(&out).unwrap();
    assert_eq!(payload, b"abc".to_vec());
    assert_eq!(used, 7);
}

#[test]
fn empty_payload_frame() {
    let mut out = Vec::new();
    assert_eq!(write_frame(&mut out, &[]), Ok(()));
    assert_eq!(out, vec![0, 0, 0, 0]);
    assert_eq!(read_frame(&out), Ok((Vec::new(), 4)));
}

#[test]
fn frames_follow_each_other() {
    let mut out = Vec::new();
    write_frame(&mut out, &[1, 2]).unwrap();
    write_frame(&mut out, &[3]).unwrap();
    let (first, n) = read_frame(&out).unwrap();
    assert_eq!((first, n), (vec![1, 2], 6));
    let (second, m) = read_frame(&out[n..]).unwrap();
    assert_eq!((second, m), (vec![3], 5));
}

#[test]
fn truncated_frames_are_refused() {
    assert_eq!(read_frame(&[5, 0, 0, 0, 1, 2]), Err(Error::Truncated));
    assert_eq!(read_frame(&[1, 0]), Err(Error::Truncated));
    assert_eq!(read_frame(&[0xFF, 0xFF, 0xFF, 0xFF]), Err(Error::Truncated));
}

#[test]
fn length_prefix_is_little_endian() {
    assert_eq!(read_frame_len(&[0x78, 0x56, 0x34, 0x12]), Ok(0x1234_5678));
    assert_eq!(read_frame_len(&[1, 0, 0]), Err(Error::Truncated));
    let mut out = Vec::new();
    write_frame(&mut out, &[0u8; 300]).unwrap();
    assert_eq!(&out[..4], &[0x2C, 0x01, 0, 0]);
    assert_eq!(out.len(), 304);
}
