use flare::protocol::Frame;
use flare::protocol::PacketData;

const BEGIN_MARKER: u32 = 0xFEED_FEED;
const END_MARKER: u32 = 0xCAFE_CAFE;

fn patterned(len: usize) -> Vec<u8> {
    let mut v = Vec::new();
    for i in 0..len {
        v.push((i % 251) as u8);
    }
    v
}

#[test]
fn begin_packet_layout() {
    let p = PacketData::begin(0x0102_0304, 5, 32);
    assert_eq!(p.order, BEGIN_MARKER);
    assert_eq!(p.size, 12);
    assert_eq!(p.unused0, 0);
    assert_eq!(p.unused1, 0);
    assert_eq!(p.data, vec![1, 2, 3, 4, 0, 0, 0, 5, 0, 0, 0, 32]);
}

#[test]
fn end_packet_layout() {
    let p = PacketData::end();
    assert_eq!(p.order, END_MARKER);
    assert_eq!(p.size, 0);
    assert!(p.data.is_empty());
}

#[test]
fn begin_wire_bytes_exact() {
    let p = PacketData::begin(1, 2, 3);
    let bytes = p.get_data();
    let expected = vec![
        0xED, 0xFE, 0xED, 0xFE, // BEGIN marker, little-endian
        12, 0, 0, 0, // payload size
        0, 0, 0, 0, 0, 0, 0, 0, // reserved words
        0, 0, 0, 1, 0, 0, 0, 2, 0, 0, 0, 3, // big-endian width, height, bpp
    ];
    assert_eq!(bytes, expected);
}

#[test]
fn end_wire_bytes_exact() {
    let bytes = PacketData::end().get_data();
    let expected = vec![0xFE, 0xCA, 0xFE, 0xCA, 0, 0, 0, 0, 0, 0, 0, 0, 0, 0, 0, 0];
    assert_eq!(bytes, expected);
}

#[test]
fn chunk_wire_bytes_carry_payload() {
    let payload = [9u8, 8, 7];
    let p = PacketData::chunk(2, &payload);
    let bytes = p.get_data();
    assert_eq!(bytes.len(), 16 + 3);
    assert_eq!(&bytes[0..4], &[2, 0, 0, 0]);
    assert_eq!(&bytes[4..8], &[3, 0, 0, 0]);
    assert_eq!(&bytes[16..], &[9, 8, 7]);
}

#[test]
fn packetize_2500_bytes() {
    let data = patterned(2500);
    let frame = Frame::from(640, 480, 32, data);
    let packets = frame.packets();
    assert_eq!(packets.len(), 5);
    assert_eq!(packets[0].order, BEGIN_MARKER);
    assert_eq!(packets[1].order, 1);
    assert_eq!(packets[1].size, 1000);
    assert_eq!(packets[2].order, 2);
    assert_eq!(packets[2].size, 1000);
    assert_eq!(packets[3].order, 3);
    assert_eq!(packets[3].size, 500);
    assert_eq!(packets[4].order, END_MARKER);
}

#[test]
fn packetize_2000_bytes_no_empty_tail() {
    let data = patterned(2000);
    let frame = Frame::from(640, 480, 32, data);
    let packets = frame.packets();
    assert_eq!(packets.len(), 4);
    assert_eq!(packets[1].size, 1000);
    assert_eq!(packets[2].size, 1000);
    assert_eq!(packets[3].order, END_MARKER);
}

#[test]
fn packetize_empty_image() {
    let frame = Frame::from(640, 480, 32, Vec::new());
    let packets = frame.packets();
    assert_eq!(packets.len(), 2);
    assert_eq!(packets[0].order, BEGIN_MARKER);
    assert_eq!(packets[1].order, END_MARKER);
}

#[test]
fn chunk_orders_are_gapless() {
    let data = patterned(5321);
    let frame = Frame::from(1, 1, 32, data);
    let packets = frame.packets();
    assert_eq!(packets.len(), 8);
    for i in 1..packets.len() - 1 {
        assert_eq!(packets[i].order, i as u32);
    }
}

#[test]
fn chunk_payloads_reassemble() {
    let data = patterned(2500);
    let frame = Frame::from(640, 480, 32, data.clone());
    let packets = frame.packets();
    let mut rebuilt = Vec::new();
    for p in &packets[1..packets.len() - 1] {
        rebuilt.extend_from_slice(&p.data);
    }
    assert_eq!(rebuilt, data);
}

#[test]
fn begin_payload_decodes_to_inputs() {
    let p = PacketData::begin(1920, 1080, 32);
    let w = u32::from_be_bytes([p.data[0], p.data[1], p.data[2], p.data[3]]);
    let h = u32::from_be_bytes([p.data[4], p.data[5], p.data[6], p.data[7]]);
    let bpp = u32::from_be_bytes([p.data[8], p.data[9], p.data[10], p.data[11]]);
    assert_eq!((w, h, bpp), (1920, 1080, 32));
}
