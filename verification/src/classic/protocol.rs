//! The sync and data packets of the first-generation controller.

use vstd::prelude::*;

use crate::protocol::{build_udp_packet, spec_udp_packet, sync_packet, valid_levels, NOVA_PACKET_LEN};

verus! {

/// The address the first-generation controller sends its sync broadcasts from.
pub const SYNC_ADDR: [u8; 6] = [0x00, 0x20, 0xe3, 0x10, 0x01, 0x00];

/// Sync command: start.
pub const CMD_START: u8 = 0x02;

/// Sync command: stop.
pub const CMD_STOP: u8 = 0x03;

/// Status flag: stopped.
pub const STATUS_STOPPED: u8 = 0x00;

/// Status flag: running.
pub const STATUS_RUNNING: u8 = 0x01;

/// A first-generation sync packet: the status byte, and the sequence number
/// split into its upper bits (byte 18, modulo 256) and its lowest bit (byte 19).
pub open spec fn spec_nova_packet(
    dst: Seq<u8>,
    src: Seq<u8>,
    command: u8,
    status: u8,
    sequence_num: usize,
) -> Seq<u8> {
    sync_packet(dst, src, command, status, ((sequence_num / 2) % 256) as u8, (sequence_num % 2) as u8)
}

/// A first-generation sync packet.
pub fn nova_packet(dst: &[u8; 6], src: &[u8; 6], command: u8, status: u8, sequence_num: usize) -> (packet: Vec<u8>)
    ensures
        packet@ == spec_nova_packet(dst@, src@, command, status, sequence_num),
        packet@.len() == NOVA_PACKET_LEN,
{
    let hi = (sequence_num >> 1) as u8;
    let lo = (sequence_num & 1) as u8;
    proof {
        assert(hi == ((sequence_num / 2) % 256) as u8 && lo == (sequence_num % 2) as u8) by (bit_vector)
            requires
                hi == (sequence_num >> 1) as u8,
                lo == (sequence_num & 1) as u8,
        ;
    }
    let mut packet: Vec<u8> = Vec::with_capacity(NOVA_PACKET_LEN);
    let mut i: usize = 0;
    while i < 6
        invariant
            0 <= i <= 6,
            packet@ == dst@.subrange(0, i as int),
        decreases 6 - i,
    {
        packet.push(dst[i]);
        proof {
            assert(dst@.subrange(0, i + 1) == dst@.subrange(0, i as int).push(dst@[i as int]));
        }
        i = i + 1;
    }
    let mut j: usize = 0;
    while j < 6
        invariant
            0 <= j <= 6,
            packet@ == dst@ + src@.subrange(0, j as int),
        decreases 6 - j,
    {
        packet.push(src[j]);
        proof {
            assert(src@.subrange(0, j + 1) == src@.subrange(0, j as int).push(src@[j as int]));
        }
        j = j + 1;
    }
    let ghost header = dst@ + src@;
    packet.push(0x08);
    packet.push(0x10);
    packet.push(0x00);
    packet.push(46);
    packet.push(command);
    packet.push(status);
    packet.push(hi);
    packet.push(lo);
    let ghost fields = packet@;
    assert(fields == header + seq![0x08u8, 0x10u8, 0x00u8, 46u8, command, status, hi, lo]);
    let mut k: usize = 0;
    while k < 40
        invariant
            0 <= k <= 40,
            packet@ == fields + Seq::new(k as nat, |x: int| 0u8),
        decreases 40 - k,
    {
        packet.push(0);
        proof {
            assert(Seq::new((k + 1) as nat, |x: int| 0u8) == Seq::new(k as nat, |x: int| 0u8).push(0u8));
        }
        k = k + 1;
    }
    packet
}

/// The fields of a received sync packet.
#[derive(Debug, Clone, Copy, PartialEq, Eq)]
pub struct SyncFields {
    pub dst: [u8; 6],
    pub src: [u8; 6],
    pub ethertype: u16,
    pub length: u16,
    pub command: u8,
    pub status: u8,
    /// The sequence number, rebuilt from its two bytes.
    pub sequence: usize,
}

/// The sequence number read from the two sequence bytes: the upper byte
/// shifted left by one bit, or-ed with the lower byte.
pub open spec fn joined_sequence(hi: u8, lo: u8) -> usize {
    ((hi as usize) << 1usize) | (lo as usize)
}

/// Reads the fields of a sync packet of at least 60 bytes (`None` for a
/// shorter one); the sequence number is byte 18 shifted left by one bit,
/// or-ed with byte 19.
pub fn decode_sync_packet(packet: &[u8]) -> (fields: Option<SyncFields>)
    ensures
        packet@.len() < NOVA_PACKET_LEN ==> fields.is_none(),
        packet@.len() >= NOVA_PACKET_LEN ==> (fields matches Some(f) && f.dst@ == packet@.subrange(
            0,
            6,
        ) && f.src@ == packet@.subrange(6, 12) && f.ethertype == packet@[12] * 256 + packet@[13]
            && f.length == packet@[14] * 256 + packet@[15] && f.command == packet@[16] && f.status
            == packet@[17] && f.sequence == joined_sequence(packet@[18], packet@[19])),
{
    if packet.len() < NOVA_PACKET_LEN {
        return None;
    }
    let dst: [u8; 6] = [packet[0], packet[1], packet[2], packet[3], packet[4], packet[5]];
    let src: [u8; 6] = [packet[6], packet[7], packet[8], packet[9], packet[10], packet[11]];
    let ethertype = (packet[12] as u16) * 256 + packet[13] as u16;
    let length = (packet[14] as u16) * 256 + packet[15] as u16;
    let sequence = ((packet[18] as usize) << 1usize) | (packet[19] as usize);
    proof {
        assert(dst@ == packet@.subrange(0, 6));
        assert(src@ == packet@.subrange(6, 12));
    }
    Some(SyncFields {
        dst,
        src,
        ethertype,
        length,
        command: packet[16],
        status: packet[17],
        sequence,
    })
}

/// Sync packets read back: a first-generation sync packet, read, gives its
/// addresses, EtherType 0x0810, data length 46, command and status back, and
/// its sequence number modulo 512 (the lower byte carries one bit only).
pub proof fn lemma_sync_packet_reads_back(
    dst: Seq<u8>,
    src: Seq<u8>,
    command: u8,
    status: u8,
    sequence_num: usize,
)
    requires
        dst.len() == 6,
        src.len() == 6,
    ensures
        ({
            let p = spec_nova_packet(dst, src, command, status, sequence_num);
            &&& p.len() == 60
            &&& p.subrange(0, 6) == dst
            &&& p.subrange(6, 12) == src
            &&& p[12] * 256 + p[13] == 0x0810
            &&& p[14] * 256 + p[15] == 46
            &&& p[16] == command
            &&& p[17] == status
            &&& joined_sequence(p[18], p[19]) == sequence_num % 512
        }),
{
    let p = spec_nova_packet(dst, src, command, status, sequence_num);
    let hi = ((sequence_num / 2) % 256) as u8;
    let lo = (sequence_num % 2) as u8;
    assert(joined_sequence(hi, lo) == hi * 2 + lo) by (bit_vector)
        requires
            lo < 2,
    ;
    assert(p.subrange(0, 6) =~= dst);
    assert(p.subrange(6, 12) =~= src);
    let s = sequence_num as int;
    assert(((s / 2) % 256) * 2 + s % 2 == s % 512) by (nonlinear_arith)
        requires
            s >= 0,
    {
        vstd::arithmetic::div_mod::lemma_fundamental_div_mod(s, 2);
        vstd::arithmetic::div_mod::lemma_fundamental_div_mod(s / 2, 256);
        vstd::arithmetic::div_mod::lemma_fundamental_div_mod(s, 512);
        vstd::arithmetic::div_mod::lemma_mod_mod(s, 2, 256);
    }
}

/// A first-generation data packet: from the interface address and the given
/// local address and port, without flip.
pub fn udp_packet(
    interface_addr: &[u8; 6],
    local_ip: &[u8; 4],
    local_port: u16,
    module_address: u8,
    command: u8,
    sequence_num: usize,
    levels: &[u16],
) -> (packet: Vec<u8>)
    requires
        valid_levels(levels@),
    ensures
        packet@ == spec_udp_packet(
            interface_addr@,
            local_ip@,
            local_port,
            module_address,
            command,
            sequence_num,
            levels@,
            false,
        ),
{
    build_udp_packet(interface_addr, local_ip, local_port, module_address, command, sequence_num, levels, false)
}

} // verus!
