//! The decisions of the Nova hardware driver: the two-cycle frame sequence,
//! the sync timing, the module reset rounds, and the bookkeeping of status
//! replies. The driver itself (interface, clock, sleeping) calls these.

use vstd::prelude::*;

use crate::app_state::Status;
use crate::text::{decimal, push_decimal};
use crate::protocol::{
    module_packets, spec_nova_packet, spec_udp_packet, valid_levels, NOVA_CMD_STATUS, NOVA_CMD_SYNC,
    NOVA_PACKET_LEN, UDP_CMD_AUTOID, UDP_CMD_RESET,
};

verus! {

/// The two cycles of the 50 Hz frame loop: pixel data is sent in one cycle and
/// shifted into the voxels by the modules in the next.
#[derive(Debug, Clone, Copy, PartialEq, Eq)]
pub enum SyncMode {
    SendPixels,
    ShiftPixels,
}

/// What the driver does in one sync period.
#[derive(Debug, Clone, Copy, PartialEq, Eq)]
pub struct FrameAction {
    /// The sequence number carried by the sync broadcast.
    pub sync_sequence: usize,
    /// The shift flag of the sync broadcast.
    pub shift_pixels: bool,
    /// Whether a new image is rendered before the pixel data is sent.
    pub render: bool,
    /// The sequence number of the pixel data sent to each module, if any is sent.
    pub pixel_sequence: Option<usize>,
}

/// The frame loop state: the sequence number and the current cycle.
#[derive(Debug, Clone, Copy, PartialEq, Eq)]
pub struct FrameSequencer {
    pub sequence_number: usize,
    pub sync_mode: SyncMode,
}

/// The next value of a wrapping `usize` counter.
pub open spec fn wrapping_next(n: usize) -> usize {
    if n == usize::MAX {
        0
    } else {
        (n + 1) as usize
    }
}

/// One sync period of the frame loop: the next state and the action.
pub open spec fn frame_step(state: FrameSequencer, do_render: bool) -> (FrameSequencer, FrameAction) {
    match state.sync_mode {
        SyncMode::SendPixels => (
            FrameSequencer { sequence_number: state.sequence_number, sync_mode: SyncMode::ShiftPixels },
            FrameAction {
                sync_sequence: state.sequence_number,
                shift_pixels: false,
                render: do_render,
                pixel_sequence: Some(wrapping_next(state.sequence_number)),
            },
        ),
        SyncMode::ShiftPixels => (
            FrameSequencer {
                sequence_number: wrapping_next(state.sequence_number),
                sync_mode: SyncMode::SendPixels,
            },
            FrameAction {
                sync_sequence: state.sequence_number,
                shift_pixels: true,
                render: false,
                pixel_sequence: None,
            },
        ),
    }
}

/// Frames come in pairs: from a send cycle, two sync periods send the image
/// once, with the sequence number the next pair's syncs carry, broadcast the
/// current sequence number twice (the second time as a shift), and advance the
/// sequence number by one (wrapping); the loop is then back in a send cycle.
pub proof fn lemma_frames_come_in_pairs(state: FrameSequencer, render_first: bool, render_second: bool)
    requires
        state.sync_mode == SyncMode::SendPixels,
    ensures
        ({
            let (middle, first) = frame_step(state, render_first);
            let (end, second) = frame_step(middle, render_second);
            let (_, next) = frame_step(end, render_first);
            &&& first.sync_sequence == state.sequence_number && !first.shift_pixels
            &&& second.sync_sequence == state.sequence_number && second.shift_pixels
            &&& first.pixel_sequence == Some(end.sequence_number)
            &&& second.pixel_sequence.is_none()
            &&& next.sync_sequence == end.sequence_number
            &&& end.sequence_number == wrapping_next(state.sequence_number)
            &&& end.sync_mode == SyncMode::SendPixels
        }),
{
}

/// The frame loop state after `k` sync periods from the start of the loop
/// (the state does not depend on whether frames were rendered).
pub open spec fn frames_from_start(k: nat) -> FrameSequencer
    decreases k,
{
    if k == 0 {
        FrameSequencer { sequence_number: 0, sync_mode: SyncMode::SendPixels }
    } else {
        frame_step(frames_from_start((k - 1) as nat), false).0
    }
}

/// The number of values of a `usize`.
pub open spec fn usize_range() -> nat {
    (usize::MAX + 1) as nat
}

proof fn lemma_wrapping_next_mod(x: nat)
    ensures
        wrapping_next((x % usize_range()) as usize) == (x + 1) % usize_range(),
{
    let m = usize_range();
    vstd::arithmetic::div_mod::lemma_add_mod_noop(x as int, 1, m as int);
    vstd::arithmetic::div_mod::lemma_small_mod(1, m);
    if x % m < m - 1 {
        vstd::arithmetic::div_mod::lemma_small_mod((x % m + 1) as nat, m);
    } else {
        vstd::arithmetic::div_mod::lemma_mod_self_0(m as int);
    }
}

proof fn lemma_frames_from_start_state(k: nat)
    ensures
        frames_from_start(k).sequence_number == (k / 2) % usize_range(),
        frames_from_start(k).sync_mode == (if k % 2 == 0 {
            SyncMode::SendPixels
        } else {
            SyncMode::ShiftPixels
        }),
    decreases k,
{
    if k == 0 {
        vstd::arithmetic::div_mod::lemma_small_mod(0, usize_range());
    } else {
        let j = (k - 1) as nat;
        lemma_frames_from_start_state(j);
        if j % 2 == 1 {
            assert(k / 2 == j / 2 + 1);
            lemma_wrapping_next_mod((j / 2) as nat);
        } else {
            assert(k / 2 == j / 2);
        }
    }
}

proof fn lemma_mod_byte(x: nat)
    ensures
        (x % usize_range()) % 256 == x % 256,
{
    let m = usize_range();
    assert(m == 0x1_0000_0000 || m == 0x1_0000_0000_0000_0000);
    if m == 0x1_0000_0000 {
        vstd::arithmetic::div_mod::lemma_mod_mod(x as int, 256, 0x100_0000);
    } else {
        vstd::arithmetic::div_mod::lemma_mod_mod(x as int, 256, 0x100_0000_0000_0000);
    }
}

/// The `k`-th sync period since the loop started (counting from 0): the state
/// is the start state stepped `k` times, whatever was rendered. Its sync
/// broadcast carries sequence number `k / 2` (wrapping) and is a shift exactly
/// for odd `k`, so the packet's sequence byte is `(k / 2) mod 256` and its
/// shift byte `k mod 2`; after an even `k` the image is sent (rendered if the
/// sync was met) with sequence number `k / 2 + 1`, sequence byte
/// `(k / 2 + 1) mod 256`; after an odd `k` nothing is sent.
pub proof fn lemma_kth_frame(k: nat, render: bool, dst: Seq<u8>, src: Seq<u8>)
    requires
        dst.len() == 6,
        src.len() == 6,
    ensures
        ({
            let state = frames_from_start(k);
            let (next, action) = frame_step(state, render);
            let sync = spec_nova_packet(
                dst,
                src,
                NOVA_CMD_SYNC,
                action.sync_sequence,
                action.shift_pixels,
            );
            &&& next == frames_from_start(k + 1)
            &&& action.sync_sequence == (k / 2) % usize_range()
            &&& action.shift_pixels == (k % 2 == 1)
            &&& action.render == (k % 2 == 0 && render)
            &&& sync.subrange(0, 6) == dst
            &&& sync[16] == NOVA_CMD_SYNC
            &&& sync[18] == (k / 2) % 256
            &&& sync[19] == k % 2
            &&& (k % 2 == 0 ==> (action.pixel_sequence matches Some(s) && s == (k / 2 + 1)
                % usize_range() && s % 256 == (k / 2 + 1) % 256))
            &&& (k % 2 == 1 ==> action.pixel_sequence is None)
        }),
{
    lemma_frames_from_start_state(k);
    lemma_frames_from_start_state(k + 1);
    let state = frames_from_start(k);
    let (next, action) = frame_step(state, render);
    assert(frame_step(state, render).0 == frame_step(state, false).0);
    if k % 2 == 0 {
        lemma_wrapping_next_mod((k / 2) as nat);
        lemma_mod_byte((k / 2 + 1) as nat);
    }
    lemma_mod_byte((k / 2) as nat);
    let sync = spec_nova_packet(dst, src, NOVA_CMD_SYNC, action.sync_sequence, action.shift_pixels);
    assert(sync.subrange(0, 6) =~= dst);
}

impl FrameSequencer {
    /// The state at the start of the loop: sequence 0, pixels are sent first.
    pub fn new() -> (sequencer: Self)
        ensures
            sequencer.sequence_number == 0,
            sequencer.sync_mode == SyncMode::SendPixels,
    {
        FrameSequencer { sequence_number: 0, sync_mode: SyncMode::SendPixels }
    }

    /// One sync period. The sync broadcast carries the current sequence number
    /// and is flagged as a shift when the modules shift their buffers. In a send
    /// cycle the image is rendered (unless the sync was missed) and sent with
    /// the next sequence number, and the next cycle shifts; in a shift cycle the
    /// sequence number advances (wrapping) and the next cycle sends.
    pub fn step(&mut self, do_render: bool) -> (action: FrameAction)
        ensures
            (*final(self), action) == frame_step(*old(self), do_render),
    {
        let sync_sequence = self.sequence_number;
        match self.sync_mode {
            SyncMode::SendPixels => {
                self.sync_mode = SyncMode::ShiftPixels;
                let next = sync_sequence.wrapping_add(1);
                FrameAction {
                    sync_sequence,
                    shift_pixels: false,
                    render: do_render,
                    pixel_sequence: Some(next),
                }
            },
            SyncMode::ShiftPixels => {
                self.sequence_number = self.sequence_number.wrapping_add(1);
                self.sync_mode = SyncMode::SendPixels;
                FrameAction {
                    sync_sequence,
                    shift_pixels: true,
                    render: false,
                    pixel_sequence: None,
                }
            },
        }
    }
}

/// The sync period: 20 ms (50 Hz), in nanoseconds.
pub const SYNC_PERIOD_NS: u64 = 20_000_000;

/// The part of the sync period that is busy-waited rather than slept, in nanoseconds.
pub const SYNC_BUSY_WAIT_MARGIN_NS: u64 = 5_000_000;

/// The period of the module status polls: 5 s, in nanoseconds.
pub const STATUS_PERIOD_NS: u64 = 5_000_000_000;

/// How long a status reply keeps a module ready: 5 s, in nanoseconds.
pub const READY_TIMEOUT_NS: u64 = 5_000_000_000;

/// How the driver waits for the next sync.
#[derive(Debug, Clone, Copy, PartialEq, Eq)]
pub enum SyncWait {
    /// The sync was missed by the given number of nanoseconds: nothing is
    /// rendered and nothing is waited for.
    Missed { late_ns: u64 },
    /// Sleep for the given number of nanoseconds (none if 0), then busy-wait
    /// until the sync time; rendering goes ahead.
    Wait { sleep_ns: u64 },
}

/// The wait for the next sync, given the time of the previous sync and the
/// current time (nanoseconds on the driver's clock). Returns the new sync time,
/// one period later, and how to wait for it.
pub fn plan_sync_wait(sync_time: u64, now: u64) -> (plan: (u64, SyncWait))
    requires
        sync_time + SYNC_PERIOD_NS <= u64::MAX,
    ensures
        plan.0 == sync_time + SYNC_PERIOD_NS,
        now > plan.0 ==> plan.1 == (SyncWait::Missed { late_ns: (now - plan.0) as u64 }),
        now <= plan.0 && now + SYNC_BUSY_WAIT_MARGIN_NS < plan.0 ==> plan.1 == (SyncWait::Wait {
            sleep_ns: (plan.0 - now - SYNC_BUSY_WAIT_MARGIN_NS) as u64,
        }),
        now <= plan.0 && now + SYNC_BUSY_WAIT_MARGIN_NS >= plan.0 ==> plan.1 == (SyncWait::Wait {
            sleep_ns: 0,
        }),
{
    let target = sync_time + SYNC_PERIOD_NS;
    if now > target {
        (target, SyncWait::Missed { late_ns: now - target })
    } else if now < target - SYNC_BUSY_WAIT_MARGIN_NS {
        (target, SyncWait::Wait { sleep_ns: (target - now) - SYNC_BUSY_WAIT_MARGIN_NS })
    } else {
        (target, SyncWait::Wait { sleep_ns: 0 })
    }
}

/// Whether a status poll is due at `now`, and the time of the poll after the
/// due one (one period later).
pub fn status_poll_due(status_time: u64, now: u64) -> (due: (bool, u64))
    requires
        status_time + STATUS_PERIOD_NS <= u64::MAX,
    ensures
        due.0 == (now >= status_time),
        due.0 ==> due.1 == status_time + STATUS_PERIOD_NS,
        !due.0 ==> due.1 == status_time,
{
    if now >= status_time {
        (true, status_time + STATUS_PERIOD_NS)
    } else {
        (false, status_time)
    }
}

/// Why a received sync packet was not taken as a status reply of a module.
#[derive(Debug, Clone, Copy, PartialEq, Eq)]
pub enum StatusReplyError {
    /// Shorter than a sync packet (the length is given).
    TooShort(usize),
    /// Not a status command (the command is given).
    UnexpectedCommand(u8),
    /// The sender's IPv4 address is not in the modules' network `192.168.1`
    /// (it is given).
    UnexpectedIp([u8; 4]),
    /// No configured module has this jumper address.
    UnknownModule(u8),
}

/// Whether some module `(x, y, address)` of `modules` has the given address.
pub open spec fn has_module_address(modules: Seq<(usize, usize, u8)>, address: u8) -> bool {
    exists|i: int| 0 <= i < modules.len() && #[trigger] modules[i].2 == address
}

/// Whether any of `modules` has the given jumper address.
pub fn is_configured_module(modules: &[(usize, usize, u8)], address: u8) -> (found: bool)
    ensures
        found == has_module_address(modules@, address),
{
    let mut i: usize = 0;
    while i < modules.len()
        invariant
            0 <= i <= modules@.len(),
            forall|j: int| 0 <= j < i ==> #[trigger] modules@[j].2 != address,
        decreases modules@.len() - i,
    {
        if modules[i].2 == address {
            return true;
        }
        i = i + 1;
    }
    false
}

/// Whether a packet's sender address (bytes 20..23) is in the modules'
/// network `192.168.1`.
pub open spec fn from_module_network(packet: Seq<u8>) -> bool {
    packet[20] == 192 && packet[21] == 168 && packet[22] == 1
}

/// The status reply of a module: a sync packet of at least 60 bytes with the
/// status command (byte 16), sent from `192.168.1.<address>` (bytes 20..24),
/// by a configured module. Returns the module's jumper address.
pub fn parse_status_reply(packet: &[u8], modules: &[(usize, usize, u8)]) -> (reply: Result<
    u8,
    StatusReplyError,
>)
    ensures
        packet@.len() < NOVA_PACKET_LEN ==> reply == Err::<u8, StatusReplyError>(
            StatusReplyError::TooShort(packet@.len() as usize),
        ),
        packet@.len() >= NOVA_PACKET_LEN && packet@[16] != NOVA_CMD_STATUS ==> reply == Err::<
            u8,
            StatusReplyError,
        >(StatusReplyError::UnexpectedCommand(packet@[16])),
        packet@.len() >= NOVA_PACKET_LEN && packet@[16] == NOVA_CMD_STATUS
            && !from_module_network(packet@) ==> (reply matches Err(
            StatusReplyError::UnexpectedIp(ip),
        ) && ip@ == packet@.subrange(20, 24)),
        packet@.len() >= NOVA_PACKET_LEN && packet@[16] == NOVA_CMD_STATUS && from_module_network(
            packet@,
        ) ==> reply == (if has_module_address(modules@, packet@[23]) {
            Ok::<u8, StatusReplyError>(packet@[23])
        } else {
            Err(StatusReplyError::UnknownModule(packet@[23]))
        }),
{
    if packet.len() < NOVA_PACKET_LEN {
        return Err(StatusReplyError::TooShort(packet.len()));
    }
    let command = packet[16];
    if command != NOVA_CMD_STATUS {
        return Err(StatusReplyError::UnexpectedCommand(command));
    }
    if !(packet[20] == 192 && packet[21] == 168 && packet[22] == 1) {
        let ip: [u8; 4] = [packet[20], packet[21], packet[22], packet[23]];
        proof {
            assert(ip@ == packet@.subrange(20, 24));
        }
        return Err(StatusReplyError::UnexpectedIp(ip));
    }
    let module_address = packet[23];
    if !is_configured_module(modules, module_address) {
        return Err(StatusReplyError::UnknownModule(module_address));
    }
    Ok(module_address)
}

/// A status poll never passes for a module's reply: the driver's own poll
/// (a sync packet with the status command, as broadcast every 5 s) carries
/// zeros where a reply carries the module's network address.
pub proof fn lemma_poll_is_not_a_reply(
    dst: Seq<u8>,
    src: Seq<u8>,
    sequence_num: usize,
    shift_pixels: bool,
)
    requires
        dst.len() == 6,
        src.len() == 6,
    ensures
        ({
            let poll = spec_nova_packet(dst, src, NOVA_CMD_STATUS, sequence_num, shift_pixels);
            &&& poll.len() == NOVA_PACKET_LEN
            &&& poll[16] == NOVA_CMD_STATUS
            &&& !from_module_network(poll)
        }),
{
    let poll = spec_nova_packet(dst, src, NOVA_CMD_STATUS, sequence_num, shift_pixels);
    assert(poll[20] == 0);
}

/// Whether a reply seen at `seen` still counts as ready at `now`: less than
/// 5 s have passed (no time has passed if `seen` is later than `now`).
pub open spec fn is_fresh(seen: u64, now: u64) -> bool {
    (if now >= seen { now - seen } else { 0 }) < READY_TIMEOUT_NS
}

/// The number of addresses `0..n` with a fresh reply.
pub open spec fn count_fresh(slots: Seq<Option<u64>>, now: u64, n: nat) -> nat
    decreases n,
{
    if n == 0 {
        0
    } else {
        count_fresh(slots, now, (n - 1) as nat) + (if slots[n - 1] matches Some(seen) && is_fresh(
            seen,
            now,
        ) {
            1nat
        } else {
            0nat
        })
    }
}

/// The last time a status reply was received from each module address
/// (nanoseconds on the driver's clock).
pub struct ReadyModules {
    slots: Vec<Option<u64>>,
}

impl View for ReadyModules {
    type V = Seq<Option<u64>>;

    /// The last reply time of each of the 256 module addresses, if any.
    closed spec fn view(&self) -> Seq<Option<u64>> {
        self.slots@
    }
}

impl ReadyModules {
    /// Well formed: one slot for each of the 256 addresses.
    pub closed spec fn wf(&self) -> bool {
        self.slots@.len() == 256
    }

    /// No replies recorded.
    pub fn new() -> (ready: Self)
        ensures
            ready.wf(),
            ready@ == Seq::new(256, |i: int| None::<u64>),
    {
        let mut slots: Vec<Option<u64>> = Vec::with_capacity(256);
        let mut i: usize = 0;
        while i < 256
            invariant
                0 <= i <= 256,
                slots@ == Seq::new(i as nat, |k: int| None::<u64>),
            decreases 256 - i,
        {
            slots.push(None);
            i = i + 1;
        }
        ReadyModules { slots }
    }

    /// Forgets all replies.
    pub fn clear(&mut self)
        requires
            old(self).wf(),
        ensures
            final(self).wf(),
            final(self)@ == Seq::new(256, |i: int| None::<u64>),
    {
        *self = Self::new();
    }

    /// Records a reply from `address` at `now`.
    pub fn mark_ready(&mut self, address: u8, now: u64)
        requires
            old(self).wf(),
        ensures
            final(self).wf(),
            final(self)@ == old(self)@.update(address as int, Some(now)),
    {
        self.slots.set(address as usize, Some(now));
    }

    /// The number of modules whose last reply is less than 5 s old at `now`.
    pub fn count_ready(&self, now: u64) -> (count: usize)
        requires
            self.wf(),
        ensures
            count == count_fresh(self@, now, 256),
    {
        let mut count: usize = 0;
        let mut i: usize = 0;
        while i < 256
            invariant
                self.wf(),
                0 <= i <= 256,
                count == count_fresh(self@, now, i as nat),
                count <= i,
            decreases 256 - i,
        {
            match self.slots[i] {
                Some(seen) => {
                    let elapsed = if now >= seen { now - seen } else { 0 };
                    if elapsed < READY_TIMEOUT_NS {
                        count = count + 1;
                    }
                },
                None => {},
            }
            i = i + 1;
        }
        count
    }
}

/// The status message of a poll: `"<ready> of <total> modules ready."`.
pub open spec fn ready_message(ready: nat, total: nat) -> Seq<char> {
    decimal(ready) + " of "@ + decimal(total) + " modules ready."@
}

/// The display status after a status poll: fine when every configured module
/// is ready, an error otherwise, with the counts in the message.
pub fn module_status(num_ready: usize, num_modules: usize) -> (status: Status)
    ensures
        num_ready == num_modules ==> (status matches Status::Okay(m) && m@ == ready_message(
            num_ready as nat,
            num_modules as nat,
        )),
        num_ready != num_modules ==> (status matches Status::Error(m) && m@ == ready_message(
            num_ready as nat,
            num_modules as nat,
        )),
{
    let mut message = String::new();
    push_decimal(&mut message, num_ready);
    message.append(" of ");
    push_decimal(&mut message, num_modules);
    message.append(" modules ready.");
    proof {
        assert(message@ =~= ready_message(num_ready as nat, num_modules as nat));
    }
    if num_ready == num_modules {
        Status::Okay(message)
    } else {
        Status::Error(message)
    }
}

/// The reset of all modules: four rounds of reset packets and one round of
/// auto-identification packets, each round one packet per module in
/// configuration order, from `src` and `local_ip:local_port`, all with
/// sequence number 0 and no flip. The driver sends the rounds some time apart.
pub fn reset_rounds(
    src: &[u8; 6],
    local_ip: &[u8; 4],
    local_port: u16,
    modules: &[(usize, usize, u8)],
    levels: &[u16],
) -> (rounds: Vec<Vec<Vec<u8>>>)
    requires
        valid_levels(levels@),
    ensures
        rounds@.len() == 5,
        forall|r: int| 0 <= r < 5 ==> (#[trigger] rounds@[r])@.len() == modules@.len(),
        forall|r: int, m: int|
            0 <= r < 5 && 0 <= m < modules@.len() ==> (#[trigger] rounds@[r]@[m])@
                == spec_udp_packet(
                src@,
                local_ip@,
                local_port,
                modules@[m].2,
                if r < 4 {
                    UDP_CMD_RESET
                } else {
                    UDP_CMD_AUTOID
                },
                0,
                levels@,
                false,
            ),
{
    let mut rounds: Vec<Vec<Vec<u8>>> = Vec::new();
    let mut r: usize = 0;
    while r < 5
        invariant
            valid_levels(levels@),
            0 <= r <= 5,
            rounds@.len() == r,
            forall|k: int| 0 <= k < r ==> (#[trigger] rounds@[k])@.len() == modules@.len(),
            forall|k: int, m: int|
                0 <= k < r && 0 <= m < modules@.len() ==> (#[trigger] rounds@[k]@[m])@
                    == spec_udp_packet(
                    src@,
                    local_ip@,
                    local_port,
                    modules@[m].2,
                    if k < 4 {
                        UDP_CMD_RESET
                    } else {
                        UDP_CMD_AUTOID
                    },
                    0,
                    levels@,
                    false,
                ),
        decreases 5 - r,
    {
        let command = if r < 4 { UDP_CMD_RESET } else { UDP_CMD_AUTOID };
        let round = module_packets(src, local_ip, local_port, modules, command, 0, levels, false);
        rounds.push(round);
        r = r + 1;
    }
    rounds
}

} // verus!
