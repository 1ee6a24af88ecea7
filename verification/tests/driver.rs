use nova::app_state::Status;
use nova::driver::{
    is_configured_module, module_status, parse_status_reply, plan_sync_wait, reset_rounds,
    status_poll_due, FrameSequencer, ReadyModules, StatusReplyError, SyncMode, SyncWait,
};
use nova::protocol::{
    nova_packet, udp_packet, BROADCAST_MAC, LOCAL_IP, LOCAL_UDP_PORT, NOVA_CMD_STATUS, UDP_CMD_AUTOID,
    UDP_CMD_RESET,
};

const MS: u64 = 1_000_000;

#[test]
fn frames_alternate_between_sending_and_shifting() {
    let mut frames = FrameSequencer::new();
    let first = frames.step(true);
    assert_eq!(first.sync_sequence, 0);
    assert!(!first.shift_pixels);
    assert!(first.render);
    assert_eq!(first.pixel_sequence, Some(1));
    assert_eq!(frames.sync_mode, SyncMode::ShiftPixels);
    let second = frames.step(true);
    assert_eq!(second.sync_sequence, 0);
    assert!(second.shift_pixels);
    assert!(!second.render);
    assert_eq!(second.pixel_sequence, None);
    assert_eq!(frames.sequence_number, 1);
    let third = frames.step(false);
    assert_eq!(third.sync_sequence, 1);
    assert!(!third.render);
    assert_eq!(third.pixel_sequence, Some(2));
}

#[test]
fn sequence_numbers_wrap() {
    let mut frames = FrameSequencer { sequence_number: usize::MAX, sync_mode: SyncMode::SendPixels };
    assert_eq!(frames.step(true).pixel_sequence, Some(0));
    frames.step(true);
    assert_eq!(frames.sequence_number, 0);
}

#[test]
fn sync_waits_sleep_busy_wait_or_miss() {
    assert_eq!(plan_sync_wait(0, 0), (20 * MS, SyncWait::Wait { sleep_ns: 15 * MS }));
    assert_eq!(plan_sync_wait(0, 16 * MS), (20 * MS, SyncWait::Wait { sleep_ns: 0 }));
    assert_eq!(plan_sync_wait(0, 15 * MS), (20 * MS, SyncWait::Wait { sleep_ns: 0 }));
    assert_eq!(plan_sync_wait(0, 20 * MS), (20 * MS, SyncWait::Wait { sleep_ns: 0 }));
    assert_eq!(plan_sync_wait(0, 21 * MS), (20 * MS, SyncWait::Missed { late_ns: MS }));
}

#[test]
fn status_polls_every_five_seconds() {
    assert_eq!(status_poll_due(0, 0), (true, 5_000 * MS));
    assert_eq!(status_poll_due(5_000 * MS, 4_999 * MS), (false, 5_000 * MS));
}

fn reply(address: u8, first_ip_byte: u8) -> Vec<u8> {
    let mut packet = nova_packet(&[1; 6], &[2; 6], NOVA_CMD_STATUS, 0, false);
    packet[20] = first_ip_byte;
    packet[21] = 168;
    packet[22] = 1;
    packet[23] = address;
    packet
}

#[test]
fn status_replies_are_checked() {
    let modules = [(0, 0, 1), (1, 0, 4)];
    assert_eq!(parse_status_reply(&reply(4, 192), &modules), Ok(4));
    assert_eq!(parse_status_reply(&reply(5, 192), &modules), Err(StatusReplyError::UnknownModule(5)));
    assert_eq!(
        parse_status_reply(&reply(4, 10), &modules),
        Err(StatusReplyError::UnexpectedIp([10, 168, 1, 4]))
    );
    assert_eq!(parse_status_reply(&reply(4, 192)[..59], &modules), Err(StatusReplyError::TooShort(59)));
    let sync = nova_packet(&BROADCAST_MAC, &[2; 6], 0, 0, false);
    assert_eq!(parse_status_reply(&sync, &modules), Err(StatusReplyError::UnexpectedCommand(0)));
    let poll = nova_packet(&BROADCAST_MAC, &[2; 6], NOVA_CMD_STATUS, 0, false);
    assert_eq!(parse_status_reply(&poll, &modules), Err(StatusReplyError::UnexpectedIp([0, 0, 0, 0])));
    assert!(is_configured_module(&modules, 1));
    assert!(!is_configured_module(&modules, 2));
}

#[test]
fn modules_stay_ready_for_five_seconds() {
    let mut ready = ReadyModules::new();
    assert_eq!(ready.count_ready(0), 0);
    ready.mark_ready(1, 1_000 * MS);
    ready.mark_ready(4, 3_000 * MS);
    assert_eq!(ready.count_ready(3_000 * MS), 2);
    assert_eq!(ready.count_ready(500 * MS), 2);
    assert_eq!(ready.count_ready(5_999 * MS), 2);
    assert_eq!(ready.count_ready(6_000 * MS), 1);
    assert_eq!(ready.count_ready(8_000 * MS), 0);
    ready.mark_ready(1, 8_000 * MS);
    assert_eq!(ready.count_ready(8_000 * MS), 1);
    ready.clear();
    assert_eq!(ready.count_ready(8_000 * MS), 0);
}

#[test]
fn status_messages_count_ready_modules() {
    assert_eq!(module_status(3, 3), Status::Okay("3 of 3 modules ready.".into()));
    assert_eq!(module_status(1, 12), Status::Error("1 of 12 modules ready.".into()));
    assert_eq!(module_status(0, 0), Status::Okay("0 of 0 modules ready.".into()));
}

#[test]
fn reset_sends_four_reset_rounds_then_auto_identification() {
    let levels = vec![0u16; 750];
    let src = [9; 6];
    let modules = [(0, 0, 1), (1, 0, 2)];
    let rounds = reset_rounds(&src, &LOCAL_IP, LOCAL_UDP_PORT, &modules, &levels);
    assert_eq!(rounds.len(), 5);
    for (r, round) in rounds.iter().enumerate() {
        assert_eq!(round.len(), 2);
        let command = if r < 4 { UDP_CMD_RESET } else { UDP_CMD_AUTOID };
        assert_eq!(round[0], udp_packet(&src, 1, command, 0, &levels, false));
        assert_eq!(round[1], udp_packet(&src, 2, command, 0, &levels, false));
    }
}

#[test]
fn replies_from_another_network_are_rejected() {
    let modules = [(0, 0, 5)];
    let mut packet = reply(5, 192);
    packet[21] = 0;
    packet[22] = 0;
    assert_eq!(
        parse_status_reply(&packet, &modules),
        Err(StatusReplyError::UnexpectedIp([192, 0, 0, 5]))
    );
    let mut packet = reply(5, 192);
    packet[22] = 2;
    assert_eq!(
        parse_status_reply(&packet, &modules),
        Err(StatusReplyError::UnexpectedIp([192, 168, 2, 5]))
    );
    assert_eq!(parse_status_reply(&reply(5, 192), &modules), Ok(5));
}

#[test]
fn the_kth_frame_carries_half_its_number() {
    let mut frames = FrameSequencer::new();
    for k in 0..1100usize {
        let action = frames.step(k % 3 != 0);
        let sync = nova_packet(&BROADCAST_MAC, &[2; 6], 0, action.sync_sequence, action.shift_pixels);
        assert_eq!(&sync[0..6], &BROADCAST_MAC);
        assert_eq!(sync[16], 0);
        assert_eq!(sync[18], (k / 2) as u8);
        assert_eq!(sync[19], (k % 2) as u8);
        if k % 2 == 0 {
            assert_eq!(action.pixel_sequence, Some(k / 2 + 1));
            assert_eq!(action.render, k % 3 != 0);
        } else {
            assert_eq!(action.pixel_sequence, None);
            assert!(!action.render);
        }
    }
}
