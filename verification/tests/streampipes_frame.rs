use std::collections::VecDeque;

use netservices::streampipes::frame::{DumbFrame64Kb, DumbFramed64KbStream, Frame, Multiplexed, MultiplexedError};

#[test]
fn test() {
    let mut stream = DumbFramed64KbStream::with(VecDeque::new());

    let data = [
        0x02, 0x00, b'a', b'b', 0x05, 0x00, b'M', b'a', b'x', b'i', b'm',
    ];
    let mut expected_payloads = [&b"ab"[..], &b"Maxim"[..]].into_iter();

    for byte in data {
        // Writing data byte by byte, ensuring that the reading is not broken
        stream.write(&[byte]).unwrap();
        while let Some(frame) = stream.next() {
            assert_eq!(frame.as_ref(), expected_payloads.next().unwrap().as_ref());
        }
    }
    assert!(expected_payloads.next().is_none());
}

#[test]
fn multiplexed_frame_reads_channel_and_whole_payload() {
    let frame = <Multiplexed<Vec<u8>> as Frame>::parse(&[0x34, 0x12, 7, 8]).unwrap();
    assert_eq!(frame.channel, 0x1234);
    assert_eq!(frame.payload, vec![0x34, 0x12, 7, 8]);
}

#[test]
fn multiplexed_frame_without_channel_is_refused() {
    let res = <Multiplexed<DumbFrame64Kb> as Frame>::parse(&[0x01]);
    assert!(matches!(res, Err(MultiplexedError::NoChannel)));
}

#[test]
fn framed_write_then_next_gives_frames_back_in_order() {
    let mut stream = DumbFramed64KbStream::with(VecDeque::new());
    let long = vec![0xabu8; 300];
    let mut bytes = vec![0x2c, 0x01];
    bytes.extend_from_slice(&long);
    bytes.extend_from_slice(&[0x00, 0x00, 0x01, 0x00, 0x7f, 0x03]);
    assert_eq!(stream.write(&bytes).unwrap(), bytes.len());
    assert_eq!(stream.next().unwrap().as_ref(), &long[..]);
    assert!(stream.next().unwrap().as_ref().is_empty());
    assert_eq!(stream.next().unwrap().as_ref(), &[0x7f][..]);
    assert!(stream.next().is_none());
    assert_eq!(stream.read(10), vec![0x03]);
}
