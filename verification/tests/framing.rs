use bytes::BytesMut;
use embedded_web_ui::framing::{append_terminator, fits_in_buffer, strip_terminator, usb_packets, NullSepCodec, FRAME_END, USB_PACKET_SIZE};

#[test]
fn decode_takes_first_frame() {
    let mut buf = BytesMut::from(&b"ab\0cd\0ef"[..]);
    let frame = NullSepCodec.decode(&mut buf);
    assert_eq!(frame, Some(b"ab\0".to_vec()));
    assert_eq!(&buf[..], b"cd\0ef");
    let frame = NullSepCodec.decode(&mut buf);
    assert_eq!(frame, Some(b"cd\0".to_vec()));
    assert_eq!(&buf[..], b"ef");
}

#[test]
fn decode_waits_for_frame_end() {
    let mut buf = BytesMut::from(&b"partial"[..]);
    assert_eq!(NullSepCodec.decode(&mut buf), None);
    assert_eq!(&buf[..], b"partial");
    let mut empty = BytesMut::new();
    assert_eq!(NullSepCodec.decode(&mut empty), None);
    assert!(empty.is_empty());
}

#[test]
fn decode_lone_terminator() {
    let mut buf = BytesMut::from(&[0u8, 0u8][..]);
    assert_eq!(NullSepCodec.decode(&mut buf), Some(vec![0]));
    assert_eq!(&buf[..], &[0u8]);
}

#[test]
fn encode_appends_unchanged() {
    let mut buf = BytesMut::from(&b"xy"[..]);
    NullSepCodec.encode(vec![1, 2, 0], &mut buf);
    assert_eq!(&buf[..], &[b'x', b'y', 1, 2, 0]);
}

#[test]
fn pending_bytes_joined_with_rest_of_frame() {
    let mut buf = BytesMut::from(&b"he"[..]);
    assert_eq!(NullSepCodec.decode(&mut buf), None);
    NullSepCodec.encode(append_terminator(b"llo".to_vec()), &mut buf);
    assert_eq!(NullSepCodec.decode(&mut buf), Some(b"hello\0".to_vec()));
    assert!(buf.is_empty());
}

#[test]
fn json_framing_round_trip() {
    let framed = append_terminator(b"{\"Click\":3}".to_vec());
    assert_eq!(framed.last(), Some(&FRAME_END));
    assert_eq!(framed.len(), 12);
    assert_eq!(strip_terminator(&framed), b"{\"Click\":3}");
    assert_eq!(strip_terminator(&[7]), b"");
}

#[test]
fn packets_of_short_message() {
    let data = [5u8; 10];
    let ps = usb_packets(&data);
    assert_eq!(ps, vec![data.to_vec()]);
}

#[test]
fn packets_of_exact_multiple_end_with_empty_packet() {
    let data: Vec<u8> = (0..128u32).map(|i| i as u8).collect();
    let ps = usb_packets(&data);
    assert_eq!(ps.len(), 3);
    assert_eq!(ps[0], data[..64].to_vec());
    assert_eq!(ps[1], data[64..].to_vec());
    assert!(ps[2].is_empty());
}

#[test]
fn packets_reassemble() {
    let data: Vec<u8> = (0..150u32).map(|i| (i * 7) as u8).collect();
    let ps = usb_packets(&data);
    assert_eq!(ps.len(), 150 / USB_PACKET_SIZE + 1);
    assert!(ps.iter().all(|p| p.len() <= USB_PACKET_SIZE));
    assert_eq!(ps.last().unwrap().len(), 22);
    assert_eq!(ps.concat(), data);
    assert_eq!(usb_packets(&[]), vec![Vec::<u8>::new()]);
}

#[test]
fn buffer_room() {
    let buf = BytesMut::from(&b"abc"[..]);
    assert!(fits_in_buffer(&buf, 10));
    assert!(fits_in_buffer(&buf, isize::MAX as usize - 3));
    assert!(!fits_in_buffer(&buf, isize::MAX as usize - 2));
    assert!(!fits_in_buffer(&buf, usize::MAX));
}

#[test]
fn several_frames_in_order() {
    let mut buf = BytesMut::new();
    NullSepCodec.encode(append_terminator(vec![1, 2]), &mut buf);
    NullSepCodec.encode(append_terminator(vec![]), &mut buf);
    NullSepCodec.encode(append_terminator(vec![3]), &mut buf);
    NullSepCodec.encode(vec![4, 5], &mut buf);
    assert_eq!(NullSepCodec.decode(&mut buf), Some(vec![1, 2, 0]));
    assert_eq!(NullSepCodec.decode(&mut buf), Some(vec![0]));
    assert_eq!(NullSepCodec.decode(&mut buf), Some(vec![3, 0]));
    assert_eq!(NullSepCodec.decode(&mut buf), None);
    assert_eq!(&buf[..], &[4, 5]);
}
