//! The decisions of the first-generation hardware driver: it keeps a run
//! status and a sequence number, answers start, stop and status requests, and
//! notes which modules report in.

use vstd::prelude::*;

use crate::classic::protocol::{
    nova_packet, spec_nova_packet, CMD_START, CMD_STOP, STATUS_RUNNING, STATUS_STOPPED, SYNC_ADDR,
};
use crate::driver::from_module_network;
use crate::protocol::{
    module_packets, spec_udp_packet, valid_levels, BROADCAST_MAC, ETHER_TYPE_NOVA,
    NOVA_CMD_STATUS, NOVA_CMD_SYNC, UDP_CMD_RGB,
};

verus! {

/// What to do about a received sync packet.
#[derive(Debug, PartialEq, Eq)]
pub enum StatusPacketOutcome {
    /// Nothing: a broadcast, another EtherType, or too short.
    Ignored,
    /// Send this reply.
    Reply(Vec<u8>),
    /// The module with this jumper address reported in.
    ModuleAlive(u8),
    /// An unknown command (it is given); nothing is sent.
    UnknownCommand(u8),
}

/// The run status and sequence number of the first-generation driver.
#[derive(Debug, Clone, Copy, PartialEq, Eq)]
pub struct SyncResponder {
    pub is_running: bool,
    pub sequence_number: usize,
}

/// The address of the sync packet's destination field, as the reply's destination.
pub open spec fn sender_of(packet: Seq<u8>) -> Seq<u8> {
    packet.subrange(0, 6)
}

/// Whether a packet is addressed to everyone.
pub open spec fn is_broadcast(packet: Seq<u8>) -> bool {
    packet.subrange(0, 6) == seq![0xffu8, 0xffu8, 0xffu8, 0xffu8, 0xffu8, 0xffu8]
}

/// The packets the driver can read without running past their end: at least
/// the addresses; a packet that is not a broadcast carries its EtherType; a
/// status request carries the sender's network address.
pub open spec fn readable(packet: Seq<u8>) -> bool {
    &&& packet.len() >= 6
    &&& !is_broadcast(packet) ==> packet.len() >= 14
    &&& (!is_broadcast(packet) && packet[12] == 0x08 && packet[13] == 0x10 && packet.len() >= 17
        && packet[16] == NOVA_CMD_STATUS) ==> packet.len() >= 21 && (packet[20] == 192
        ==> packet.len() >= 24)
}

impl SyncResponder {
    /// Stopped, at sequence 0.
    pub fn new() -> (responder: Self)
        ensures
            !responder.is_running,
            responder.sequence_number == 0,
    {
        SyncResponder { is_running: false, sequence_number: 0 }
    }

    /// The state after a module reset: stopped, at sequence 0.
    pub fn reset(&mut self)
        ensures
            !final(self).is_running,
            final(self).sequence_number == 0,
    {
        self.is_running = false;
        self.sequence_number = 0;
    }

    /// The next frame: the sequence number advances by one (wrapping).
    pub fn advance(&mut self)
        ensures
            final(self).is_running == old(self).is_running,
            final(self).sequence_number == crate::driver::wrapping_next(old(self).sequence_number),
    {
        self.sequence_number = self.sequence_number.wrapping_add(1);
    }

    /// The packets of one frame: the sync broadcast from the sync address with
    /// a running status and the current sequence number, then one RGB data
    /// packet per module, in configuration order, from the interface address
    /// and `local_ip:local_port` with the current sequence number and no flip.
    pub fn frame_packets(
        &self,
        interface_addr: &[u8; 6],
        local_ip: &[u8; 4],
        local_port: u16,
        modules: &[(usize, usize, u8)],
        levels: &[u16],
    ) -> (packets: (Vec<u8>, Vec<Vec<u8>>))
        requires
            valid_levels(levels@),
        ensures
            packets.0@ == spec_nova_packet(
                BROADCAST_MAC@,
                SYNC_ADDR@,
                NOVA_CMD_SYNC,
                STATUS_RUNNING,
                self.sequence_number,
            ),
            packets.1@.len() == modules@.len(),
            forall|m: int|
                0 <= m < modules@.len() ==> (#[trigger] packets.1@[m])@ == spec_udp_packet(
                    interface_addr@,
                    local_ip@,
                    local_port,
                    modules@[m].2,
                    UDP_CMD_RGB,
                    self.sequence_number,
                    levels@,
                    false,
                ),
    {
        let broadcast = BROADCAST_MAC;
        let sync_addr = SYNC_ADDR;
        let sync = nova_packet(
            &broadcast,
            &sync_addr,
            NOVA_CMD_SYNC,
            STATUS_RUNNING,
            self.sequence_number,
        );
        let data = module_packets(
            interface_addr,
            local_ip,
            local_port,
            modules,
            UDP_CMD_RGB,
            self.sequence_number,
            levels,
            false,
        );
        (sync, data)
    }

    /// Handles a received sync packet. Broadcasts, packets of another
    /// EtherType and packets shorter than 17 bytes are ignored. A start request
    /// starts the driver at sequence 0 and is answered with a running status
    /// (sequence 511); a stop request stops it at sequence 0 and is answered
    /// with a stopped status; a status request from a module
    /// (`192.168.1.<address>` in bytes 20..24) notes the module, any other status
    /// request is answered with the current status and sequence. Replies go
    /// from the sync address to the packet's first address field.
    pub fn handle_status_packet(&mut self, packet: &[u8]) -> (outcome: StatusPacketOutcome)
        requires
            readable(packet@),
        ensures
            ({
                let p = packet@;
                if is_broadcast(p) || !(p[12] == 0x08 && p[13] == 0x10) || p.len() < 17 {
                    outcome == StatusPacketOutcome::Ignored && *final(self) == *old(self)
                } else if p[16] == CMD_START {
                    &&& outcome matches StatusPacketOutcome::Reply(reply)
                    &&& reply@ == spec_nova_packet(SYNC_ADDR@, sender_of(p), NOVA_CMD_STATUS, STATUS_RUNNING, 511)
                    &&& final(self).is_running
                    &&& final(self).sequence_number == 0
                } else if p[16] == CMD_STOP {
                    &&& outcome matches StatusPacketOutcome::Reply(reply)
                    &&& reply@ == spec_nova_packet(SYNC_ADDR@, sender_of(p), NOVA_CMD_STATUS, STATUS_STOPPED, 0)
                    &&& !final(self).is_running
                    &&& final(self).sequence_number == 0
                } else if p[16] == NOVA_CMD_STATUS {
                    &&& *final(self) == *old(self)
                    &&& if from_module_network(p) {
                        outcome == StatusPacketOutcome::ModuleAlive(p[23])
                    } else {
                        &&& outcome matches StatusPacketOutcome::Reply(reply)
                        &&& reply@ == spec_nova_packet(
                            SYNC_ADDR@,
                            sender_of(p),
                            NOVA_CMD_STATUS,
                            if old(self).is_running { STATUS_RUNNING } else { STATUS_STOPPED },
                            old(self).sequence_number,
                        )
                    }
                } else {
                    outcome == StatusPacketOutcome::UnknownCommand(p[16]) && *final(self) == *old(self)
                }
            }),
    {
        let broadcast = packet[0] == 0xff && packet[1] == 0xff && packet[2] == 0xff && packet[3]
            == 0xff && packet[4] == 0xff && packet[5] == 0xff;
        proof {
            let first = packet@.subrange(0, 6);
            if broadcast {
                assert(first =~= seq![0xffu8, 0xffu8, 0xffu8, 0xffu8, 0xffu8, 0xffu8]);
            } else {
                assert(first[0] != 0xff || first[1] != 0xff || first[2] != 0xff || first[3] != 0xff
                    || first[4] != 0xff || first[5] != 0xff);
            }
        }
        if broadcast {
            return StatusPacketOutcome::Ignored;
        }
        let ethertype = ((packet[12] as u16) << 8u16) | packet[13] as u16;
        proof {
            let a = packet[12];
            let b = packet[13];
            assert((((a as u16) << 8u16) | b as u16) == 0x0810 <==> (a == 0x08 && b == 0x10)) by (bit_vector);
        }
        if ethertype != ETHER_TYPE_NOVA {
            return StatusPacketOutcome::Ignored;
        }
        if packet.len() < 17 {
            return StatusPacketOutcome::Ignored;
        }
        let dst = SYNC_ADDR;
        let src: [u8; 6] = [packet[0], packet[1], packet[2], packet[3], packet[4], packet[5]];
        proof {
            assert(src@ == sender_of(packet@));
        }
        let command = packet[16];
        if command == CMD_START {
            self.is_running = true;
            self.sequence_number = 0;
            StatusPacketOutcome::Reply(nova_packet(&dst, &src, NOVA_CMD_STATUS, STATUS_RUNNING, 511))
        } else if command == CMD_STOP {
            self.is_running = false;
            self.sequence_number = 0;
            StatusPacketOutcome::Reply(nova_packet(&dst, &src, NOVA_CMD_STATUS, STATUS_STOPPED, 0))
        } else if command == NOVA_CMD_STATUS {
            if packet[20] == 192 && packet[21] == 168 && packet[22] == 1 {
                StatusPacketOutcome::ModuleAlive(packet[23])
            } else {
                let status = if self.is_running { STATUS_RUNNING } else { STATUS_STOPPED };
                StatusPacketOutcome::Reply(nova_packet(&dst, &src, NOVA_CMD_STATUS, status, self.sequence_number))
            }
        } else {
            StatusPacketOutcome::UnknownCommand(command)
        }
    }
}

} // verus!
