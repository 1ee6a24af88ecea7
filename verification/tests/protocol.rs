use nova::checksum::ip_checksum;
use nova::protocol::{
    build_udp_packet, nova_packet, udp_packet, BROADCAST_MAC, NOVA_CMD_STATUS, NOVA_CMD_SYNC,
    UDP_CMD_RGB,
};

fn levels() -> Vec<u16> {
    (0..750).map(|i| (i % 1024) as u16).collect()
}

#[test]
fn checksum_of_a_known_header() {
    let header = [
        0x45, 0x00, 0x00, 0x73, 0x00, 0x00, 0x40, 0x00, 0x40, 0x11, 0x00, 0x00, 0xc0, 0xa8, 0x00,
        0x01, 0xc0, 0xa8, 0x00, 0xc7,
    ];
    assert_eq!(ip_checksum(&header), 0xb861);
    let mut completed = header;
    completed[10] = 0xb8;
    completed[11] = 0x61;
    assert_eq!(ip_checksum(&completed), 0);
}

#[test]
fn checksum_pads_odd_lengths_and_folds_carries() {
    assert_eq!(ip_checksum(&[]), 0xffff);
    assert_eq!(ip_checksum(&[0x01]), 0xfeff);
    assert_eq!(ip_checksum(&[0xff, 0xff, 0x00, 0x02]), 0xfffd);
}

#[test]
fn sync_packet_layout() {
    let src = [1, 2, 3, 4, 5, 6];
    let packet = nova_packet(&BROADCAST_MAC, &src, NOVA_CMD_SYNC, 300, true);
    assert_eq!(packet.len(), 60);
    assert_eq!(&packet[0..6], &[0xff; 6]);
    assert_eq!(&packet[6..12], &src);
    assert_eq!(&packet[12..20], &[0x08, 0x10, 0x00, 46, 0x00, 0x00, 44, 1]);
    assert!(packet[20..].iter().all(|&b| b == 0));
    let poll = nova_packet(&BROADCAST_MAC, &src, NOVA_CMD_STATUS, 0, false);
    assert_eq!(&poll[12..20], &[0x08, 0x10, 0x00, 46, 0x04, 0x00, 0, 0]);
}

#[test]
fn data_packet_headers() {
    let src = [0xaa, 0xbb, 0xcc, 0xdd, 0xee, 0xff];
    let packet = udp_packet(&src, 7, UDP_CMD_RGB, 257, &levels(), false);
    assert_eq!(packet.len(), 1142);
    assert_eq!(&packet[0..6], &[0x00, 0x20, 0xe3, 0x10, 0x00, 7]);
    assert_eq!(&packet[6..12], &src);
    assert_eq!(&packet[12..14], &[0x08, 0x00]);
    assert_eq!(&packet[14..24], &[0x45, 0x00, 0x04, 0x68, 0x32, 0x1c, 0x40, 0x00, 0x80, 0x11]);
    assert_eq!(&packet[26..34], &[127, 0, 0, 1, 192, 168, 1, 7]);
    assert_eq!(&packet[34..42], &[0x04, 0xd2, 0x0c, 0x8a, 0x04, 0x54, 0x00, 0x00]);
    assert_eq!(ip_checksum(&packet[14..34]), 0);
    assert_ne!(&packet[24..26], &[0, 0]);
}

#[test]
fn data_packet_payload_packs_ten_bit_levels() {
    let mut levels = vec![0u16; 750];
    levels[30] = 1023;
    levels[31] = 0;
    levels[32] = 1;
    levels[57] = 1;
    levels[58] = 2;
    levels[59] = 3;
    let packet = udp_packet(&[0; 6], 1, UDP_CMD_RGB, 5, &levels, false);
    assert_eq!(&packet[42..46], &[0xc0, UDP_CMD_RGB, 5, 0]);
    let chain1 = 42 + 44;
    assert_eq!(&packet[chain1..chain1 + 4], &[0xc0, UDP_CMD_RGB, 5, 1]);
    assert_eq!(&packet[chain1 + 4..chain1 + 8], &[0x3f, 0xf0, 0x00, 0x01]);
    assert_eq!(&packet[chain1 + 40..chain1 + 44], &[0x00, 0x10, 0x08, 0x03]);
    let flipped = udp_packet(&[0; 6], 1, UDP_CMD_RGB, 5, &levels, true);
    assert_eq!(&flipped[chain1 + 4..chain1 + 8], &[0x00, 0x10, 0x08, 0x03]);
    assert_eq!(&flipped[chain1 + 40..chain1 + 44], &[0x3f, 0xf0, 0x00, 0x01]);
    assert_eq!(&flipped[..chain1 + 4], &packet[..chain1 + 4]);
}

#[test]
fn data_packet_from_another_address() {
    let packet = build_udp_packet(&[0; 6], &[10, 0, 0, 2], 4000, 3, 0x70, 0, &levels(), false);
    assert_eq!(&packet[26..34], &[10, 0, 0, 2, 192, 168, 1, 3]);
    assert_eq!(&packet[34..36], &[0x0f, 0xa0]);
    assert_eq!(packet[43], 0x70);
    assert_eq!(ip_checksum(&packet[14..34]), 0);
}

#[test]
fn flip_mirrors_every_chain() {
    let levels: Vec<u16> = (0..750u32).map(|i| ((i * 37 + 11) % 1024) as u16).collect();
    let plain = udp_packet(&[2; 6], 3, UDP_CMD_RGB, 9, &levels, false);
    let flipped = udp_packet(&[2; 6], 3, UDP_CMD_RGB, 9, &levels, true);
    assert_eq!(plain.len(), flipped.len());
    assert_eq!(&plain[..42], &flipped[..42]);
    for chain in 0..25 {
        for slot in 0..10 {
            let at = 46 + 44 * chain + 4 * slot;
            let mirror = 46 + 44 * chain + 4 * (9 - slot);
            assert_eq!(&flipped[at..at + 4], &plain[mirror..mirror + 4]);
        }
    }
}
