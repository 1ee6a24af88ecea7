use nova::classic::driver::{StatusPacketOutcome, SyncResponder};
use nova::classic::protocol::{decode_sync_packet, nova_packet, udp_packet, CMD_START, CMD_STOP, SYNC_ADDR};
use nova::checksum::ip_checksum;
use nova::protocol::NOVA_CMD_STATUS;

fn request(command: u8, ip: [u8; 4]) -> Vec<u8> {
    let mut packet = vec![0u8; 60];
    packet[0..6].copy_from_slice(&[0x00, 0x20, 0xe3, 0x10, 0x00, 0x02]);
    packet[12] = 0x08;
    packet[13] = 0x10;
    packet[16] = command;
    packet[20..24].copy_from_slice(&ip);
    packet
}

#[test]
fn classic_sync_packets_split_the_sequence() {
    let packet = nova_packet(&[0xff; 6], &SYNC_ADDR, 0, 1, 511);
    assert_eq!(packet.len(), 60);
    assert_eq!(&packet[12..20], &[0x08, 0x10, 0x00, 46, 0, 1, 255, 1]);
    let packet = nova_packet(&[0xff; 6], &SYNC_ADDR, 0, 0, 600);
    assert_eq!(&packet[18..20], &[44, 0]);
}

#[test]
fn classic_data_packets_carry_the_local_address() {
    let packet = udp_packet(&[1; 6], &[10, 1, 2, 3], 5555, 4, 2, 9, &vec![0u16; 750]);
    assert_eq!(&packet[26..34], &[10, 1, 2, 3, 192, 168, 1, 4]);
    assert_eq!(&packet[34..36], &[0x15, 0xb3]);
    assert_eq!(packet[44], 9);
    assert_eq!(ip_checksum(&packet[14..34]), 0);
}

#[test]
fn classic_driver_answers_start_stop_and_status() {
    let mut driver = SyncResponder::new();
    driver.advance();
    driver.advance();
    assert_eq!(driver.sequence_number, 2);
    let sender = [0x00, 0x20, 0xe3, 0x10, 0x00, 0x02];
    match driver.handle_status_packet(&request(CMD_START, [0; 4])) {
        StatusPacketOutcome::Reply(reply) => {
            assert_eq!(reply, nova_packet(&SYNC_ADDR, &sender, NOVA_CMD_STATUS, 1, 511))
        }
        other => panic!("unexpected {other:?}"),
    }
    assert!(driver.is_running);
    assert_eq!(driver.sequence_number, 0);
    driver.advance();
    match driver.handle_status_packet(&request(NOVA_CMD_STATUS, [0; 4])) {
        StatusPacketOutcome::Reply(reply) => {
            assert_eq!(reply, nova_packet(&SYNC_ADDR, &sender, NOVA_CMD_STATUS, 1, 1))
        }
        other => panic!("unexpected {other:?}"),
    }
    assert_eq!(
        driver.handle_status_packet(&request(NOVA_CMD_STATUS, [192, 168, 1, 7])),
        StatusPacketOutcome::ModuleAlive(7)
    );
    match driver.handle_status_packet(&request(CMD_STOP, [0; 4])) {
        StatusPacketOutcome::Reply(reply) => {
            assert_eq!(reply, nova_packet(&SYNC_ADDR, &sender, NOVA_CMD_STATUS, 0, 0))
        }
        other => panic!("unexpected {other:?}"),
    }
    assert!(!driver.is_running);
    assert_eq!(driver.handle_status_packet(&request(9, [0; 4])), StatusPacketOutcome::UnknownCommand(9));
    let mut broadcast = request(CMD_START, [0; 4]);
    broadcast[0..6].copy_from_slice(&[0xff; 6]);
    assert_eq!(driver.handle_status_packet(&broadcast), StatusPacketOutcome::Ignored);
    let mut other_type = request(CMD_START, [0; 4]);
    other_type[13] = 0x00;
    assert_eq!(driver.handle_status_packet(&other_type), StatusPacketOutcome::Ignored);
    assert_eq!(driver.handle_status_packet(&request(CMD_START, [0; 4])[..16]), StatusPacketOutcome::Ignored);
    assert!(!driver.is_running);
    driver.reset();
    assert_eq!(driver.sequence_number, 0);
}

#[test]
fn classic_sync_packets_read_back() {
    let packet = nova_packet(&[0xff; 6], &SYNC_ADDR, CMD_START, 1, 777);
    let fields = decode_sync_packet(&packet).unwrap();
    assert_eq!(fields.dst, [0xff; 6]);
    assert_eq!(fields.src, SYNC_ADDR);
    assert_eq!(fields.ethertype, 0x0810);
    assert_eq!(fields.length, 46);
    assert_eq!(fields.command, CMD_START);
    assert_eq!(fields.status, 1);
    assert_eq!(fields.sequence, 777 % 512);
    assert!(decode_sync_packet(&packet[..59]).is_none());
}

#[test]
fn classic_sequence_bytes_are_joined_bitwise() {
    let mut packet = vec![0u8; 60];
    packet[18] = 1;
    packet[19] = 3;
    assert_eq!(decode_sync_packet(&packet).unwrap().sequence, 3);
    packet[18] = 0x80;
    packet[19] = 0x01;
    assert_eq!(decode_sync_packet(&packet).unwrap().sequence, 0x101);
}

#[test]
fn classic_frames_send_a_running_sync_then_pixels_to_every_module() {
    let mut driver = SyncResponder::new();
    driver.advance();
    driver.advance();
    driver.advance();
    let levels = vec![7u16; 750];
    let modules = [(0, 0, 4), (1, 0, 9)];
    let (sync, data) = driver.frame_packets(&[3; 6], &[10, 0, 0, 2], 40000, &modules, &levels);
    assert_eq!(sync, nova_packet(&[0xff; 6], &SYNC_ADDR, 0, 1, 3));
    assert_eq!(&sync[16..20], &[0x00, 0x01, 1, 1]);
    assert_eq!(data.len(), 2);
    assert_eq!(data[0], udp_packet(&[3; 6], &[10, 0, 0, 2], 40000, 4, 2, 3, &levels));
    assert_eq!(data[1], udp_packet(&[3; 6], &[10, 0, 0, 2], 40000, 9, 2, 3, &levels));
    assert_eq!(data[1][5], 9);
    assert_eq!(data[1][44], 3);
}

#[test]
fn classic_reset_rounds_use_the_local_address() {
    let levels = vec![0u16; 750];
    let modules = [(0, 0, 1)];
    let rounds = nova::driver::reset_rounds(&[3; 6], &[10, 0, 0, 2], 40000, &modules, &levels);
    assert_eq!(rounds.len(), 5);
    assert_eq!(rounds[0][0], udp_packet(&[3; 6], &[10, 0, 0, 2], 40000, 1, 0x00, 0, &levels));
    assert_eq!(rounds[4][0], udp_packet(&[3; 6], &[10, 0, 0, 2], 40000, 1, 0x70, 0, &levels));
    assert_eq!(&rounds[4][0][26..30], &[10, 0, 0, 2]);
}

#[test]
fn classic_status_from_another_network_is_answered_not_noted() {
    let mut driver = SyncResponder::new();
    let sender = [0x00, 0x20, 0xe3, 0x10, 0x00, 0x02];
    match driver.handle_status_packet(&request(NOVA_CMD_STATUS, [192, 0, 0, 7])) {
        StatusPacketOutcome::Reply(reply) => {
            assert_eq!(reply, nova_packet(&SYNC_ADDR, &sender, NOVA_CMD_STATUS, 0, 0))
        }
        other => panic!("unexpected {other:?}"),
    }
    assert_eq!(
        driver.handle_status_packet(&request(NOVA_CMD_STATUS, [192, 168, 1, 7])),
        StatusPacketOutcome::ModuleAlive(7)
    );
}
