use madquatter::{UartHeader, UART_FRAME_START, UART_HEADER_LEN};

fn frame(header: &mut UartHeader, payload: &[u8]) -> Vec<u8> {
    let head = header.prepare(payload);
    let mut out = head.to_vec();
    out.extend_from_slice(payload);
    out
}

#[test]
fn new_header_carries_marker_and_no_payload() {
    let h = UartHeader::new();
    assert_eq!(h.frame_start, 0x7777_7777);
    assert_eq!(h.frame_start, UART_FRAME_START);
    assert_eq!(h.payload_len, 0);
}

#[test]
fn new_header_bytes() {
    let h = UartHeader::new();
    assert_eq!(h.as_bytes(), [0x77, 0x77, 0x77, 0x77, 0, 0, 0, 0]);
    assert_eq!(h.as_bytes().len(), UART_HEADER_LEN);
}

#[test]
fn header_bytes_are_least_significant_first() {
    let h = UartHeader { frame_start: 0x0403_0201, payload_len: 0x0807_0605 };
    assert_eq!(h.as_bytes(), [1, 2, 3, 4, 5, 6, 7, 8]);
}

#[test]
fn set_payload_len_keeps_marker() {
    let mut h = UartHeader::new();
    h.set_payload_len(300);
    assert_eq!(h.payload_len, 300);
    assert_eq!(h.frame_start, UART_FRAME_START);
    assert_eq!(h.as_bytes(), [0x77, 0x77, 0x77, 0x77, 0x2c, 0x01, 0, 0]);
}

#[test]
fn set_payload_len_wraps_past_u32() {
    let mut h = UartHeader::new();
    h.set_payload_len(usize::MAX);
    assert_eq!(h.payload_len, u32::MAX);
    let len: u64 = (1u64 << 32) + 5;
    if let Ok(len) = usize::try_from(len) {
        h.set_payload_len(len);
        assert_eq!(h.payload_len, 5);
    }
}

#[test]
fn prepare_three_bytes() {
    let mut h = UartHeader::new();
    let head = h.prepare(&[1, 2, 3]);
    assert_eq!(head, [0x77, 0x77, 0x77, 0x77, 3, 0, 0, 0]);
    assert_eq!(h.payload_len, 3);
    assert_eq!(frame(&mut h, &[1, 2, 3]), vec![0x77, 0x77, 0x77, 0x77, 3, 0, 0, 0, 1, 2, 3]);
}

#[test]
fn prepare_empty_payload_resets_length() {
    let mut h = UartHeader::new();
    h.set_payload_len(9);
    let head = h.prepare(&[]);
    assert_eq!(head, [0x77, 0x77, 0x77, 0x77, 0, 0, 0, 0]);
    assert_eq!(h.payload_len, 0);
}

#[test]
fn prepare_keeps_a_custom_marker() {
    let mut h = UartHeader { frame_start: 0xdead_beef, payload_len: 1 };
    let head = h.prepare(&[9; 2]);
    assert_eq!(head, [0xef, 0xbe, 0xad, 0xde, 2, 0, 0, 0]);
    assert_eq!(h.frame_start, 0xdead_beef);
}

#[test]
fn frame_reads_back() {
    let payload: Vec<u8> = (0..200u32).map(|i| (i * 7 % 256) as u8).collect();
    let mut h = UartHeader::new();
    let f = frame(&mut h, &payload);
    assert_eq!(f.len(), UART_HEADER_LEN + payload.len());
    assert_eq!(u32::from_le_bytes([f[0], f[1], f[2], f[3]]), UART_FRAME_START);
    assert_eq!(u32::from_le_bytes([f[4], f[5], f[6], f[7]]) as usize, payload.len());
    assert_eq!(&f[UART_HEADER_LEN..], payload.as_slice());
}

#[test]
fn frame_starts_with_marker_whatever_the_payload() {
    for n in [0usize, 1, 4, 128] {
        let payload = vec![0xabu8; n];
        let mut h = UartHeader::new();
        let f = frame(&mut h, &payload);
        assert_eq!(&f[..4], &[0x77, 0x77, 0x77, 0x77]);
    }
}

#[test]
fn different_payloads_give_different_frames() {
    let mut h1 = UartHeader::new();
    let mut h2 = UartHeader::new();
    let f1 = frame(&mut h1, &[1, 2]);
    let f2 = frame(&mut h2, &[1, 2, 0]);
    assert_ne!(f1, f2);
}

#[test]
fn frame_of_postcard_orientation() {
    let mut buf = [0u8; 128];
    let msg = postcard::to_slice(&(1.5f32, -2.0f32, 90.0f32), &mut buf).unwrap();
    assert_eq!(msg.len(), 12);
    let mut h = UartHeader::new();
    let f = frame(&mut h, msg);
    assert_eq!(&f[..8], &[0x77, 0x77, 0x77, 0x77, 12, 0, 0, 0]);
    assert_eq!(&f[8..12], &1.5f32.to_le_bytes());
    assert_eq!(&f[16..20], &90.0f32.to_le_bytes());
}

#[test]
fn stream_of_three_messages() {
    let msgs: [&[u8]; 3] = [&[1, 2], &[], &[3]];
    let mut h = UartHeader::new();
    let mut out = Vec::new();
    for m in msgs {
        out.extend(frame(&mut h, m));
    }
    assert_eq!(
        out,
        vec![
            0x77, 0x77, 0x77, 0x77, 2, 0, 0, 0, 1, 2,
            0x77, 0x77, 0x77, 0x77, 0, 0, 0, 0,
            0x77, 0x77, 0x77, 0x77, 1, 0, 0, 0, 3,
        ]
    );
}
