use fff_daemon::frame::{read_frame, write_frame, FrameError};

#[test]
fn frame_round_trip() {
    let mut wire: Vec<u8> = Vec::new();
    write_frame(&mut wire, b"hello");
    assert_eq!(wire, vec![0, 0, 0, 5, b'h', b'e', b'l', b'l', b'o']);
    wire.push(9);
    let frame = read_frame(&wire).unwrap();
    assert_eq!(frame.payload, b"hello");
    assert_eq!(frame.consumed, 9);
    assert!(matches!(read_frame(&wire[..7]), Err(FrameError::UnexpectedEof { missing: 2 })));
}
