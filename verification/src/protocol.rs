//! The Nova wire format: sync packets (EtherType 0x0810) for timing, status
//! polls and replies, and data packets (IPv4/UDP to port 3210) that carry the
//! 25 pixel chains of a module.

use vstd::prelude::*;

use crate::checksum::{ip_checksum, lemma_checksum_completes_header, spec_ip_checksum};

verus! {

/// EtherType of the IPv4 data packets.
pub const ETHER_TYPE_IP: u16 = 0x0800;

/// EtherType of the Nova sync packets.
pub const ETHER_TYPE_NOVA: u16 = 0x0810;

/// Length of the data field of a sync packet.
pub const NOVA_DATA_LEN: usize = 46;

/// Length of a sync packet: two addresses, the EtherType and the data field.
pub const NOVA_PACKET_LEN: usize = 60;

/// Length of the IPv4 header.
pub const IP_HEADER_LEN: usize = 20;

/// Length of the UDP header.
pub const UDP_HEADER_LEN: usize = 8;

/// Offset of the UDP payload in a data packet.
pub const UDP_PAYLOAD_OFFSET: usize = 42;

/// Number of pixel chains of a module.
pub const CHAINS: usize = 25;

/// Number of pixels of a chain.
pub const CHAIN_PIXELS: usize = 10;

/// Length of the UDP payload: 25 chains of a 4-byte head and 10 pixels of 4 bytes.
pub const UDP_CHAINED_DATA_LEN: usize = 1100;

/// Length of a data packet.
pub const UDP_PACKET_LEN: usize = 1142;

/// Number of 10-bit channel levels a data packet carries (25 chains of 10 RGB pixels).
pub const CHAIN_LEVELS: usize = 750;

/// The largest 10-bit channel level.
pub const MAX_LEVEL: u16 = 1023;

/// Source address written into data packets.
pub const LOCAL_IP: [u8; 4] = [127, 0, 0, 1];

/// Source UDP port written into data packets.
pub const LOCAL_UDP_PORT: u16 = 1234;

/// UDP port of the modules.
pub const NOVA_UDP_PORT: u16 = 3210;

/// IPv4 version field (the header length of 5 words is or-ed in).
pub const IP_VERSION: u8 = 0x40;

/// Sync packet command: frame sync.
pub const NOVA_CMD_SYNC: u8 = 0x00;

/// Sync packet command: status poll and reply.
pub const NOVA_CMD_STATUS: u8 = 0x04;

/// Data packet command: reset the module.
pub const UDP_CMD_RESET: u8 = 0x00;

/// Data packet command: RGB pixel data.
pub const UDP_CMD_RGB: u8 = 0x02;

/// Data packet command: automatic module identification.
pub const UDP_CMD_AUTOID: u8 = 0x70;

/// The broadcast hardware address.
pub const BROADCAST_MAC: [u8; 6] = [0xff, 0xff, 0xff, 0xff, 0xff, 0xff];

/// The first five bytes of a module's hardware address; the sixth is its jumper address.
pub const NOVA_MAC_PREFIX: [u8; 5] = [0x00, 0x20, 0xe3, 0x10, 0x00];

/// The first three bytes of a module's IPv4 address; the fourth is its jumper address.
pub const NOVA_IP_PREFIX: [u8; 3] = [192, 168, 1];

/// The big-endian bytes of a 16-bit value.
pub open spec fn be16(v: int) -> Seq<u8> {
    seq![(v / 256) as u8, (v % 256) as u8]
}

/// `n` zero bytes.
pub open spec fn zeros(n: nat) -> Seq<u8> {
    Seq::new(n, |i: int| 0u8)
}

/// A sync packet: destination and source address, EtherType 0x0810, the data
/// length 46, the command, the status byte, two sequence bytes, and 26 zero
/// bytes of reserved data.
pub open spec fn sync_packet(
    dst: Seq<u8>,
    src: Seq<u8>,
    command: u8,
    status: u8,
    sequence_hi: u8,
    sequence_lo: u8,
) -> Seq<u8> {
    dst + src + seq![0x08u8, 0x10u8, 0x00u8, 46u8, command, status, sequence_hi, sequence_lo]
        + zeros(40)
}

/// The sync packet of the current driver: status 0, the sequence number modulo
/// 256, and the shift flag (1 when the modules shift their pixel buffers and no
/// pixel data follows).
pub open spec fn spec_nova_packet(
    dst: Seq<u8>,
    src: Seq<u8>,
    command: u8,
    sequence_num: usize,
    shift_pixels: bool,
) -> Seq<u8> {
    sync_packet(dst, src, command, 0, (sequence_num % 256) as u8, if shift_pixels { 1u8 } else { 0u8 })
}

/// The 4 big-endian bytes of a pixel packed as `r << 20 | g << 10 | b`.
pub open spec fn pixel_bytes(r: u16, g: u16, b: u16) -> Seq<u8> {
    let packed = r * 0x10_0000 + g * 0x400 + b;
    seq![
        (packed / 0x100_0000) as u8,
        (packed / 0x1_0000 % 256) as u8,
        (packed / 256 % 256) as u8,
        (packed % 256) as u8,
    ]
}

/// The pixels `0..n` of a chain, each as its packed bytes; with `flip` the
/// pixel order of the chain is reversed.
pub open spec fn chain_pixels(levels: Seq<u16>, chain: int, flip: bool, n: nat) -> Seq<u8>
    decreases n,
{
    if n == 0 {
        Seq::empty()
    } else {
        let i = n - 1;
        let p = if flip { 9 - i } else { i };
        let base = chain * 30 + p * 3;
        chain_pixels(levels, chain, flip, (n - 1) as nat) + pixel_bytes(
            levels[base],
            levels[base + 1],
            levels[base + 2],
        )
    }
}

/// One chain of the payload: the marker 0xc0, the command, the sequence byte,
/// the chain index, then the 10 pixels of the chain.
pub open spec fn chain_block(levels: Seq<u16>, command: u8, sequence: u8, chain: int, flip: bool) -> Seq<u8> {
    seq![0xc0u8, command, sequence, chain as u8] + chain_pixels(levels, chain, flip, 10)
}

/// The chains `0..n` of the payload.
pub open spec fn chain_blocks(levels: Seq<u16>, command: u8, sequence: u8, flip: bool, n: nat) -> Seq<u8>
    decreases n,
{
    if n == 0 {
        Seq::empty()
    } else {
        chain_blocks(levels, command, sequence, flip, (n - 1) as nat) + chain_block(
            levels,
            command,
            sequence,
            n - 1,
            flip,
        )
    }
}

/// The IPv4 header of a data packet with the given checksum field.
pub open spec fn ip_header(local_ip: Seq<u8>, module_address: u8, checksum: Seq<u8>) -> Seq<u8> {
    seq![0x45u8, 0x00u8] + be16(1128) + seq![0x32u8, 0x1cu8, 0x40u8, 0x00u8, 0x80u8, 0x11u8]
        + checksum + local_ip + seq![192u8, 168u8, 1u8, module_address]
}

/// A data packet to the module with the given jumper address: Ethernet header
/// (module address `00:20:e3:10:00:<address>`), IPv4 header from `local_ip` to
/// `192.168.1.<address>` with its checksum, UDP header from `local_port` to
/// port 3210 with a zero checksum, and the 25 chains of the payload.
pub open spec fn spec_udp_packet(
    src: Seq<u8>,
    local_ip: Seq<u8>,
    local_port: u16,
    module_address: u8,
    command: u8,
    sequence_num: usize,
    levels: Seq<u16>,
    flip: bool,
) -> Seq<u8> {
    let unchecked = ip_header(local_ip, module_address, seq![0u8, 0u8]);
    let checksum = spec_ip_checksum(unchecked);
    seq![0x00u8, 0x20u8, 0xe3u8, 0x10u8, 0x00u8, module_address] + src + seq![0x08u8, 0x00u8]
        + ip_header(local_ip, module_address, be16(checksum as int)) + be16(local_port as int)
        + be16(3210) + be16(1108) + seq![0u8, 0u8] + chain_blocks(
        levels,
        command,
        (sequence_num % 256) as u8,
        flip,
        25,
    )
}

/// Levels that a data packet can carry: 750 levels of 10 bits each.
pub open spec fn valid_levels(levels: Seq<u16>) -> bool {
    &&& levels.len() == 750
    &&& forall|i: int| 0 <= i < levels.len() ==> levels[i] <= 1023
}

proof fn lemma_chain_lengths(levels: Seq<u16>, command: u8, sequence: u8, flip: bool, n: nat)
    ensures
        chain_pixels(levels, n as int, flip, n).len() == 4 * n,
        chain_blocks(levels, command, sequence, flip, n).len() == 44 * n,
    decreases n,
{
    if n > 0 {
        lemma_chain_lengths(levels, command, sequence, flip, (n - 1) as nat);
        lemma_chain_pixels_length(levels, (n - 1) as int, flip, 10);
        lemma_chain_pixels_length(levels, n as int, flip, n);
    }
}

proof fn lemma_chain_pixels_length(levels: Seq<u16>, chain: int, flip: bool, n: nat)
    ensures
        chain_pixels(levels, chain, flip, n).len() == 4 * n,
    decreases n,
{
    if n > 0 {
        lemma_chain_pixels_length(levels, chain, flip, (n - 1) as nat);
    }
}

/// The packed bytes of the pixel that slot `k` of a chain carries.
pub open spec fn slot_pixel(levels: Seq<u16>, chain: int, flip: bool, k: int) -> Seq<u8> {
    let p = if flip { 9 - k } else { k };
    let base = chain * 30 + p * 3;
    pixel_bytes(levels[base], levels[base + 1], levels[base + 2])
}

proof fn lemma_chain_pixel_slot(levels: Seq<u16>, chain: int, flip: bool, n: nat, k: int)
    requires
        0 <= k < n,
    ensures
        chain_pixels(levels, chain, flip, n).subrange(4 * k, 4 * k + 4) == slot_pixel(
            levels,
            chain,
            flip,
            k,
        ),
    decreases n,
{
    let prev = chain_pixels(levels, chain, flip, (n - 1) as nat);
    lemma_chain_pixels_length(levels, chain, flip, (n - 1) as nat);
    if k < n - 1 {
        lemma_chain_pixel_slot(levels, chain, flip, (n - 1) as nat, k);
        assert(chain_pixels(levels, chain, flip, n).subrange(4 * k, 4 * k + 4) =~= prev.subrange(
            4 * k,
            4 * k + 4,
        ));
    } else {
        assert(chain_pixels(levels, chain, flip, n).subrange(4 * k, 4 * k + 4) =~= slot_pixel(
            levels,
            chain,
            flip,
            k,
        ));
    }
}

proof fn lemma_chain_block_at(levels: Seq<u16>, command: u8, sequence: u8, flip: bool, n: nat, c: int)
    requires
        0 <= c < n,
    ensures
        chain_blocks(levels, command, sequence, flip, n).subrange(44 * c, 44 * c + 44)
            == chain_block(levels, command, sequence, c, flip),
    decreases n,
{
    let prev = chain_blocks(levels, command, sequence, flip, (n - 1) as nat);
    lemma_chain_lengths(levels, command, sequence, flip, (n - 1) as nat);
    lemma_chain_pixels_length(levels, c, flip, 10);
    lemma_chain_pixels_length(levels, n - 1, flip, 10);
    if c < n - 1 {
        lemma_chain_block_at(levels, command, sequence, flip, (n - 1) as nat, c);
        assert(chain_blocks(levels, command, sequence, flip, n).subrange(44 * c, 44 * c + 44)
            =~= prev.subrange(44 * c, 44 * c + 44));
    } else {
        assert(chain_blocks(levels, command, sequence, flip, n).subrange(44 * c, 44 * c + 44)
            =~= chain_block(levels, command, sequence, c, flip));
    }
}

/// Flipping mirrors every chain: a flipped data packet has the same headers
/// and length as the unflipped one, and slot `slot` of each chain carries the
/// pixel bytes that slot `9 - slot` of that chain carries unflipped.
pub proof fn lemma_flip_mirrors_chains(
    src: Seq<u8>,
    local_ip: Seq<u8>,
    local_port: u16,
    module_address: u8,
    command: u8,
    sequence_num: usize,
    levels: Seq<u16>,
    chain: int,
    slot: int,
)
    requires
        src.len() == 6,
        local_ip.len() == 4,
        0 <= chain < 25,
        0 <= slot < 10,
    ensures
        ({
            let flipped = spec_udp_packet(
                src,
                local_ip,
                local_port,
                module_address,
                command,
                sequence_num,
                levels,
                true,
            );
            let plain = spec_udp_packet(
                src,
                local_ip,
                local_port,
                module_address,
                command,
                sequence_num,
                levels,
                false,
            );
            let at = 46 + 44 * chain + 4 * slot;
            let mirror = 46 + 44 * chain + 4 * (9 - slot);
            &&& flipped.len() == plain.len()
            &&& flipped.subrange(0, 42) == plain.subrange(0, 42)
            &&& flipped.subrange(at, at + 4) == plain.subrange(mirror, mirror + 4)
        }),
{
    let sequence = (sequence_num % 256) as u8;
    let unchecked = ip_header(local_ip, module_address, seq![0u8, 0u8]);
    let checksum = spec_ip_checksum(unchecked);
    let head = seq![0x00u8, 0x20u8, 0xe3u8, 0x10u8, 0x00u8, module_address] + src + seq![
        0x08u8,
        0x00u8,
    ] + ip_header(local_ip, module_address, be16(checksum as int)) + be16(local_port as int)
        + be16(3210) + be16(1108) + seq![0u8, 0u8];
    assert(head.len() == 42);
    let fb = chain_blocks(levels, command, sequence, true, 25);
    let pb = chain_blocks(levels, command, sequence, false, 25);
    let flipped = spec_udp_packet(
        src,
        local_ip,
        local_port,
        module_address,
        command,
        sequence_num,
        levels,
        true,
    );
    let plain = spec_udp_packet(
        src,
        local_ip,
        local_port,
        module_address,
        command,
        sequence_num,
        levels,
        false,
    );
    assert(flipped == head + fb);
    assert(plain == head + pb);
    lemma_chain_lengths(levels, command, sequence, true, 25);
    lemma_chain_lengths(levels, command, sequence, false, 25);
    assert(flipped.subrange(0, 42) =~= head);
    assert(plain.subrange(0, 42) =~= head);
    lemma_chain_block_at(levels, command, sequence, true, 25, chain);
    lemma_chain_block_at(levels, command, sequence, false, 25, chain);
    lemma_chain_pixels_length(levels, chain, true, 10);
    lemma_chain_pixels_length(levels, chain, false, 10);
    lemma_chain_pixel_slot(levels, chain, true, 10, slot);
    lemma_chain_pixel_slot(levels, chain, false, 10, 9 - slot);
    let at = 46 + 44 * chain + 4 * slot;
    let mirror = 46 + 44 * chain + 4 * (9 - slot);
    let fblock = chain_block(levels, command, sequence, chain, true);
    let pblock = chain_block(levels, command, sequence, chain, false);
    assert(flipped.subrange(at, at + 4) =~= fb.subrange(44 * chain, 44 * chain + 44).subrange(
        4 + 4 * slot,
        8 + 4 * slot,
    ));
    assert(fblock.subrange(4 + 4 * slot, 8 + 4 * slot) =~= chain_pixels(
        levels,
        chain,
        true,
        10,
    ).subrange(4 * slot, 4 * slot + 4));
    assert(plain.subrange(mirror, mirror + 4) =~= pb.subrange(44 * chain, 44 * chain + 44).subrange(
        4 + 4 * (9 - slot),
        8 + 4 * (9 - slot),
    ));
    assert(pblock.subrange(4 + 4 * (9 - slot), 8 + 4 * (9 - slot)) =~= chain_pixels(
        levels,
        chain,
        false,
        10,
    ).subrange(4 * (9 - slot), 4 * (9 - slot) + 4));
}

fn push_bytes(packet: &mut Vec<u8>, bytes: &[u8])
    ensures
        final(packet)@ == old(packet)@ + bytes@,
{
    let mut i: usize = 0;
    while i < bytes.len()
        invariant
            0 <= i <= bytes@.len(),
            packet@ == old(packet)@ + bytes@.subrange(0, i as int),
        decreases bytes@.len() - i,
    {
        packet.push(bytes[i]);
        proof {
            assert(bytes@.subrange(0, i + 1) == bytes@.subrange(0, i as int).push(bytes@[i as int]));
        }
        i = i + 1;
    }
    proof {
        assert(bytes@.subrange(0, bytes@.len() as int) == bytes@);
    }
}

fn push_zeros(packet: &mut Vec<u8>, n: usize)
    ensures
        final(packet)@ == old(packet)@ + zeros(n as nat),
{
    let mut i: usize = 0;
    while i < n
        invariant
            0 <= i <= n,
            packet@ == old(packet)@ + zeros(i as nat),
        decreases n - i,
    {
        packet.push(0);
        proof {
            assert(zeros((i + 1) as nat) == zeros(i as nat).push(0u8));
        }
        i = i + 1;
    }
}

fn push_be16(packet: &mut Vec<u8>, v: u16)
    ensures
        final(packet)@ == old(packet)@ + be16(v as int),
{
    packet.push((v >> 8u16) as u8);
    packet.push((v & 0xff) as u8);
    proof {
        assert((v >> 8u16) as u8 == (v / 256) as u8 && (v & 0xff) as u8 == (v % 256) as u8)
            by (bit_vector);
    }
}

/// A sync packet of the current driver (`sequence_num` is sent modulo 256).
pub fn nova_packet(
    dst: &[u8; 6],
    src: &[u8; 6],
    command: u8,
    sequence_num: usize,
    shift_pixels: bool,
) -> (packet: Vec<u8>)
    ensures
        packet@ == spec_nova_packet(dst@, src@, command, sequence_num, shift_pixels),
        packet@.len() == NOVA_PACKET_LEN,
{
    let mut packet: Vec<u8> = Vec::with_capacity(NOVA_PACKET_LEN);
    push_bytes(&mut packet, dst.as_slice());
    push_bytes(&mut packet, src.as_slice());
    let status: u8 = 0;
    let sequence = (sequence_num % 256) as u8;
    let shift: u8 = if shift_pixels { 1 } else { 0 };
    let fields: [u8; 8] = [0x08, 0x10, 0x00, 46, command, status, sequence, shift];
    push_bytes(&mut packet, fields.as_slice());
    push_zeros(&mut packet, 40);
    proof {
        assert(fields@ == seq![0x08u8, 0x10u8, 0x00u8, 46u8, command, status, sequence, shift]);
    }
    packet
}

fn push_pixel(packet: &mut Vec<u8>, r: u16, g: u16, b: u16)
    requires
        r <= 1023,
        g <= 1023,
        b <= 1023,
    ensures
        final(packet)@ == old(packet)@ + pixel_bytes(r, g, b),
{
    let packed: u32 = ((r as u32) << 20u32) | ((g as u32) << 10u32) | (b as u32);
    let b0 = (packed >> 24u32) as u8;
    let b1 = (packed >> 16u32) as u8;
    let b2 = (packed >> 8u32) as u8;
    let b3 = packed as u8;
    packet.push(b0);
    packet.push(b1);
    packet.push(b2);
    packet.push(b3);
    proof {
        let rr = r as u32;
        let gg = g as u32;
        let bb = b as u32;
        assert(packed == rr * 0x10_0000 + gg * 0x400 + bb) by (bit_vector)
            requires
                packed == (rr << 20u32) | (gg << 10u32) | bb,
                rr <= 1023,
                gg <= 1023,
                bb <= 1023,
        ;
        assert(b0 == (packed / 0x100_0000) as u8 && b1 == (packed / 0x1_0000 % 256) as u8 && b2
            == (packed / 256 % 256) as u8 && b3 == (packed % 256) as u8) by (bit_vector)
            requires
                b0 == (packed >> 24u32) as u8,
                b1 == (packed >> 16u32) as u8,
                b2 == (packed >> 8u32) as u8,
                b3 == packed as u8,
        ;
        assert(pixel_bytes(r, g, b) == seq![b0, b1, b2, b3]);
    }
}

fn push_chain_pixels(packet: &mut Vec<u8>, levels: &[u16], chain: usize, flip: bool)
    requires
        valid_levels(levels@),
        chain < 25,
    ensures
        final(packet)@ == old(packet)@ + chain_pixels(levels@, chain as int, flip, 10),
{
    let mut i: usize = 0;
    while i < 10
        invariant
            valid_levels(levels@),
            chain < 25,
            0 <= i <= 10,
            packet@ == old(packet)@ + chain_pixels(levels@, chain as int, flip, i as nat),
        decreases 10 - i,
    {
        let p = if flip { 9 - i } else { i };
        let base = chain * 30 + p * 3;
        let r = levels[base];
        let g = levels[base + 1];
        let b = levels[base + 2];
        push_pixel(packet, r, g, b);
        i = i + 1;
    }
}

fn push_chain_blocks(packet: &mut Vec<u8>, levels: &[u16], command: u8, sequence: u8, flip: bool)
    requires
        valid_levels(levels@),
    ensures
        final(packet)@ == old(packet)@ + chain_blocks(levels@, command, sequence, flip, 25),
{
    let mut chain: usize = 0;
    while chain < CHAINS
        invariant
            valid_levels(levels@),
            0 <= chain <= 25,
            packet@ == old(packet)@ + chain_blocks(levels@, command, sequence, flip, chain as nat),
        decreases 25 - chain,
    {
        let head: [u8; 4] = [0xc0, command, sequence, chain as u8];
        push_bytes(packet, head.as_slice());
        push_chain_pixels(packet, levels, chain, flip);
        proof {
            assert(head@ == seq![0xc0u8, command, sequence, chain as u8]);
        }
        chain = chain + 1;
    }
}

fn ip_header_bytes(local_ip: &[u8; 4], module_address: u8, checksum: u16) -> (header: Vec<u8>)
    ensures
        header@ == ip_header(local_ip@, module_address, be16(checksum as int)),
{
    let mut header: Vec<u8> = Vec::with_capacity(IP_HEADER_LEN);
    let start: [u8; 2] = [IP_VERSION | 0x05, 0x00];
    push_bytes(&mut header, start.as_slice());
    push_be16(&mut header, 1128);
    let fields: [u8; 6] = [0x32, 0x1c, 0x40, 0x00, 0x80, 0x11];
    push_bytes(&mut header, fields.as_slice());
    push_be16(&mut header, checksum);
    push_bytes(&mut header, local_ip.as_slice());
    let dst: [u8; 4] = [192, 168, 1, module_address];
    push_bytes(&mut header, dst.as_slice());
    proof {
        assert(IP_VERSION | 0x05 == 0x45u8) by (bit_vector);
        assert(start@ == seq![0x45u8, 0x00u8]);
        assert(fields@ == seq![0x32u8, 0x1cu8, 0x40u8, 0x00u8, 0x80u8, 0x11u8]);
        assert(dst@ == seq![192u8, 168u8, 1u8, module_address]);
    }
    header
}

/// A data packet from `src` and `local_ip:local_port` to the module with the
/// given jumper address, carrying `levels` (25 chains of 10 RGB pixels, each
/// channel a 10-bit level, chain after chain); with `flip` the pixel order of
/// every chain is reversed. The IPv4 header checksum verifies.
pub fn build_udp_packet(
    src: &[u8; 6],
    local_ip: &[u8; 4],
    local_port: u16,
    module_address: u8,
    command: u8,
    sequence_num: usize,
    levels: &[u16],
    flip: bool,
) -> (packet: Vec<u8>)
    requires
        valid_levels(levels@),
    ensures
        packet@ == spec_udp_packet(
            src@,
            local_ip@,
            local_port,
            module_address,
            command,
            sequence_num,
            levels@,
            flip,
        ),
        packet@.len() == UDP_PACKET_LEN,
        spec_ip_checksum(packet@.subrange(14, 34)) == 0,
{
    let unchecked = ip_header_bytes(local_ip, module_address, 0);
    let checksum = ip_checksum(unchecked.as_slice());
    let header = ip_header_bytes(local_ip, module_address, checksum);
    let mut packet: Vec<u8> = Vec::with_capacity(UDP_PACKET_LEN);
    let dst: [u8; 6] = [0x00, 0x20, 0xe3, 0x10, 0x00, module_address];
    push_bytes(&mut packet, dst.as_slice());
    push_bytes(&mut packet, src.as_slice());
    push_be16(&mut packet, ETHER_TYPE_IP);
    push_bytes(&mut packet, header.as_slice());
    push_be16(&mut packet, local_port);
    push_be16(&mut packet, NOVA_UDP_PORT);
    push_be16(&mut packet, 1108);
    push_zeros(&mut packet, 2);
    let sequence = (sequence_num % 256) as u8;
    push_chain_blocks(&mut packet, levels, command, sequence, flip);
    proof {
        assert(dst@ == seq![0x00u8, 0x20u8, 0xe3u8, 0x10u8, 0x00u8, module_address]);
        lemma_chain_lengths(levels@, command, sequence, flip, 25);
        assert(be16(0) == seq![0u8, 0u8]);
        assert(zeros(2) == seq![0u8, 0u8]);
        assert(be16(0x0800) == seq![0x08u8, 0x00u8]);
        let c = checksum;
        let plain = ip_header(local_ip@, module_address, seq![0u8, 0u8]);
        assert(plain.len() == 20);
        lemma_checksum_completes_header(plain, 5);
        assert(ip_header(local_ip@, module_address, be16(c as int)) == plain.update(10, (c / 256) as u8).update(11, (c % 256) as u8));
        assert(packet@.subrange(14, 34) == header@);
    }
    packet
}

/// One data packet per module, in configuration order: from `src` and
/// `local_ip:local_port` to each module's jumper address, all with the same
/// command, sequence number, levels and flip.
pub fn module_packets(
    src: &[u8; 6],
    local_ip: &[u8; 4],
    local_port: u16,
    modules: &[(usize, usize, u8)],
    command: u8,
    sequence_num: usize,
    levels: &[u16],
    flip: bool,
) -> (packets: Vec<Vec<u8>>)
    requires
        valid_levels(levels@),
    ensures
        packets@.len() == modules@.len(),
        forall|m: int|
            0 <= m < modules@.len() ==> (#[trigger] packets@[m])@ == spec_udp_packet(
                src@,
                local_ip@,
                local_port,
                modules@[m].2,
                command,
                sequence_num,
                levels@,
                flip,
            ),
{
    let mut packets: Vec<Vec<u8>> = Vec::new();
    let mut m: usize = 0;
    while m < modules.len()
        invariant
            valid_levels(levels@),
            0 <= m <= modules@.len(),
            packets@.len() == m,
            forall|j: int|
                0 <= j < m ==> (#[trigger] packets@[j])@ == spec_udp_packet(
                    src@,
                    local_ip@,
                    local_port,
                    modules@[j].2,
                    command,
                    sequence_num,
                    levels@,
                    flip,
                ),
        decreases modules@.len() - m,
    {
        let packet = build_udp_packet(
            src,
            local_ip,
            local_port,
            modules[m].2,
            command,
            sequence_num,
            levels,
            flip,
        );
        packets.push(packet);
        m = m + 1;
    }
    packets
}

/// A data packet of the current driver: from `src`, `127.0.0.1:1234`, to the
/// module with the given jumper address.
pub fn udp_packet(
    src: &[u8; 6],
    module_address: u8,
    command: u8,
    sequence_num: usize,
    levels: &[u16],
    flip: bool,
) -> (packet: Vec<u8>)
    requires
        valid_levels(levels@),
    ensures
        packet@ == spec_udp_packet(
            src@,
            seq![127u8, 0u8, 0u8, 1u8],
            1234,
            module_address,
            command,
            sequence_num,
            levels@,
            flip,
        ),
        spec_ip_checksum(packet@.subrange(14, 34)) == 0,
{
    let local_ip = LOCAL_IP;
    let packet = build_udp_packet(src, &local_ip, LOCAL_UDP_PORT, module_address, command, sequence_num, levels, flip);
    proof {
        assert(local_ip@ == seq![127u8, 0u8, 0u8, 1u8]);
    }
    packet
}

} // verus!
