//! Radio bridge: owns the peer table and the send/retry state.
//!
//! Commands arrive as binary frames on a queue; the bridge resolves the
//! addressed peer, hands the frame out for transmission, and reacts to the
//! asynchronous delivery-status notifications of the radio layer with a
//! bounded retry scheme.  The radio hardware itself is outside this crate:
//! the caller performs the transmission an outcome asks for and feeds the
//! delivery notifications back in.

use vstd::prelude::*;

use crate::queue::{popped, push_effect, push_fits, FramedQueue, QueueModel};
use crate::wire::{spec_frame_device, MAX_FRAME_LEN};

verus! {

/// The radio broadcast address; device number 0 always maps to it.
pub const BROADCAST: [u8; 6] = [0xFF, 0xFF, 0xFF, 0xFF, 0xFF, 0xFF];

/// Byte-wise equality of two radio hardware addresses.
fn mac_eq(a: &[u8; 6], b: &[u8; 6]) -> (r: bool)
    ensures
        r == (a@ == b@),
{
    let mut i: usize = 0;
    while i < 6
        invariant
            i <= 6,
            forall|j: int| 0 <= j < i ==> a@[j] == b@[j],
        decreases 6 - i,
    {
        if a[i] != b[i] {
            return false;
        }
        i = i + 1;
    }
    proof {
        assert(a@ =~= b@);
    }
    true
}

/// The first index in `peers` at or after `i` whose address is `mac`, or 0
/// when no entry matches.
pub open spec fn spec_lookup_from(peers: Seq<[u8; 6]>, mac: Seq<u8>, i: int) -> int
    decreases peers.len() - i,
{
    if i < 0 || i >= peers.len() {
        0
    } else if peers[i]@ == mac {
        i
    } else {
        spec_lookup_from(peers, mac, i + 1)
    }
}

/// The device number an address resolves to: the first peer-table entry
/// holding it, or 0 when the address is not in the table.
pub open spec fn spec_lookup(peers: Seq<[u8; 6]>, mac: Seq<u8>) -> int {
    spec_lookup_from(peers, mac, 0)
}

proof fn lemma_lookup_in_range(peers: Seq<[u8; 6]>, mac: Seq<u8>, i: int)
    requires
        peers.len() > 0,
    ensures
        0 <= spec_lookup_from(peers, mac, i) < peers.len(),
    decreases peers.len() - i,
{
    if 0 <= i < peers.len() && peers[i]@ != mac {
        lemma_lookup_in_range(peers, mac, i + 1);
    }
}

/// What one peer-table entry registers with the radio stack.
#[derive(Clone, Copy, Debug, PartialEq, Eq)]
pub struct PeerRegistration {
    pub addr: [u8; 6],
    pub channel: u8,
    pub encrypt: bool,
}

/// The ordered table of radio peer addresses, indexed by device number.
/// Entry 0 is the broadcast address.
pub struct PeerTable {
    addrs: Vec<[u8; 6]>,
}

impl View for PeerTable {
    type V = Seq<[u8; 6]>;

    closed spec fn view(&self) -> Seq<[u8; 6]> {
        self.addrs@
    }
}

impl PeerTable {
    /// A device number is one byte, so a table never exceeds 256 entries,
    /// and entry 0 is always the broadcast address.
    pub open spec fn inv(self) -> bool {
        &&& 1 <= self@.len() <= 256
        &&& self@[0]@ == BROADCAST@
    }

    /// Build the table from the configured device addresses: the broadcast
    /// address first, then the devices in order.
    pub fn new(devices: &Vec<[u8; 6]>) -> (t: PeerTable)
        requires
            devices@.len() <= 255,
        ensures
            t.inv(),
            t@.len() == devices@.len() + 1,
            t@[0] == BROADCAST,
            forall|i: int| 0 <= i < devices@.len() ==> t@[i + 1] == devices@[i],
    {
        let mut addrs: Vec<[u8; 6]> = Vec::new();
        addrs.push(BROADCAST);
        let mut i: usize = 0;
        while i < devices.len()
            invariant
                i <= devices@.len(),
                addrs@.len() == i + 1,
                addrs@[0] == BROADCAST,
                forall|j: int| 0 <= j < i ==> addrs@[j + 1] == devices@[j],
            decreases devices@.len() - i,
        {
            addrs.push(devices[i]);
            i = i + 1;
        }
        PeerTable { addrs }
    }

    /// Number of addressable devices, broadcast included.
    pub fn len(&self) -> (n: usize)
        ensures
            n == self@.len(),
    {
        self.addrs.len()
    }

    /// The address of device `d`.
    pub fn addr_of(&self, d: u8) -> (a: [u8; 6])
        requires
            (d as int) < self@.len(),
        ensures
            a == self@[d as int],
    {
        self.addrs[d as usize]
    }

    /// The registrations configuration hands the radio stack: every entry
    /// of the table, broadcast included, in order, at the given channel,
    /// with encryption disabled.  A registration that the radio stack
    /// refuses is reported and skipped; the rest still go through.
    pub fn registrations(&self, channel: u8) -> (r: Vec<PeerRegistration>)
        ensures
            r@.len() == self@.len(),
            forall|i: int|
                0 <= i < r@.len() ==> r@[i] == (PeerRegistration {
                    addr: self@[i],
                    channel,
                    encrypt: false,
                }),
    {
        let mut r: Vec<PeerRegistration> = Vec::new();
        let mut i: usize = 0;
        while i < self.addrs.len()
            invariant
                i <= self@.len(),
                r@.len() == i,
                forall|j: int|
                    0 <= j < i ==> r@[j] == (PeerRegistration {
                        addr: self@[j],
                        channel,
                        encrypt: false,
                    }),
            decreases self@.len() - i,
        {
            r.push(PeerRegistration { addr: self.addrs[i], channel, encrypt: false });
            i = i + 1;
        }
        r
    }

    fn lookup_from(&self, mac: &[u8; 6], i: usize) -> (d: u8)
        requires
            self.inv(),
            i <= self@.len(),
        ensures
            d as int == spec_lookup_from(self@, mac@, i as int),
            (d as int) < self@.len(),
        decreases self@.len() - i,
    {
        proof {
            lemma_lookup_in_range(self@, mac@, i as int);
        }
        if i >= self.addrs.len() {
            0
        } else if mac_eq(&self.addrs[i], mac) {
            i as u8
        } else {
            self.lookup_from(mac, i + 1)
        }
    }

    /// The device number an address resolves to: the first entry holding
    /// it, or 0 when the address is unknown.
    pub fn lookup(&self, mac: &[u8; 6]) -> (d: u8)
        requires
            self.inv(),
        ensures
            d as int == spec_lookup(self@, mac@),
            (d as int) < self@.len(),
    {
        self.lookup_from(mac, 0)
    }
}

/// Mathematical state of a [`RadioBridge`].
pub ghost struct BridgeModel {
    pub peers: Seq<[u8; 6]>,
    pub last_packet: Seq<u8>,
    pub retry_count: nat,
    pub max_retries: nat,
}

/// Whether one more delivery failure is retried rather than reported.
pub open spec fn retries_next_failure(count: nat, max: nat) -> bool {
    count < max
}

/// The retry counter after one delivery failure of a non-broadcast device:
/// it grows until it reaches the bound and then stays there.
pub open spec fn count_after_failure(count: nat, max: nat) -> nat {
    if count < max {
        count + 1
    } else {
        count
    }
}

/// The retry counter after `k` consecutive delivery failures of a
/// non-broadcast device, starting from a fresh (or just-reset) counter.
pub open spec fn count_after_failures(k: nat, max: nat) -> nat
    decreases k,
{
    if k == 0 {
        0
    } else {
        count_after_failure(count_after_failures((k - 1) as nat, max), max)
    }
}

/// Bounded retry: starting from a reset counter, each of the first `max`
/// consecutive delivery failures triggers a retry, and every consecutive
/// failure after them triggers an error report instead — until a success
/// resets the counter.
pub proof fn lemma_retry_bound(k: nat, max: nat)
    ensures
        count_after_failures(k, max) == if k <= max {
            k
        } else {
            max
        },
        k < max ==> retries_next_failure(count_after_failures(k, max), max),
        k >= max ==> !retries_next_failure(count_after_failures(k, max), max),
    decreases k,
{
    if k > 0 {
        lemma_retry_bound((k - 1) as nat, max);
    }
}

/// What the bridge asks its caller to do after a polling step.
#[derive(Debug, PartialEq, Eq)]
pub enum CommandOutcome {
    /// No frame was pending.
    Idle,
    /// Transmit `data` to the peer `addr` (device number `device`).
    Transmit { device: u8, addr: [u8; 6], data: Vec<u8> },
    /// The frame addressed a device number outside the peer table; the
    /// frame was discarded.
    UnknownDevice { device: u8 },
    /// The frame was longer than the radio link allows; it was discarded.
    FrameTooLong,
}

/// Enqueue a status-indicator trigger frame, dropping it when the indicator
/// queue is full — a lost indication is not an error.
pub fn trigger_indicator(led_q: &mut FramedQueue) -> (fit: bool)
    requires
        old(led_q).inv(),
    ensures
        final(led_q).inv(),
        push_effect(old(led_q)@, final(led_q)@, seq![1u8]),
        fit == push_fits(old(led_q)@, seq![1u8]),
{
    let mut trigger: Vec<u8> = Vec::new();
    trigger.push(1u8);
    proof {
        assert(trigger@ =~= seq![1u8]);
    }
    led_q.push_or_drop(trigger.as_slice())
}

/// Copy a frame received over the radio verbatim into the telemetry queue.
/// A full queue drops the frame: the radio cannot be paused, so there is no
/// backpressure on this path, only an overflow report.
pub fn on_radio_receive(data: &[u8], telemetry_q: &mut FramedQueue) -> (fit: bool)
    requires
        old(telemetry_q).inv(),
    ensures
        final(telemetry_q).inv(),
        push_effect(old(telemetry_q)@, final(telemetry_q)@, data@),
        fit == push_fits(old(telemetry_q)@, data@),
{
    telemetry_q.push_or_drop(data)
}

/// Send/retry state of the radio link.
pub struct RadioBridge {
    peers: PeerTable,
    last_packet: Vec<u8>,
    retry_count: usize,
    max_retries: usize,
}

impl View for RadioBridge {
    type V = BridgeModel;

    closed spec fn view(&self) -> BridgeModel {
        BridgeModel {
            peers: self.peers@,
            last_packet: self.last_packet@,
            retry_count: self.retry_count as nat,
            max_retries: self.max_retries as nat,
        }
    }
}

impl RadioBridge {
    /// The peer table is well formed and the recorded frame fits the link.
    pub open spec fn inv(self) -> bool {
        &&& 1 <= self@.peers.len() <= 256
        &&& self@.peers[0]@ == BROADCAST@
        &&& self@.last_packet.len() <= MAX_FRAME_LEN
    }

    /// A fresh bridge: nothing sent yet, retry counter reset.
    pub fn new(peers: PeerTable, max_retries: usize) -> (b: RadioBridge)
        requires
            peers.inv(),
        ensures
            b.inv(),
            b@ == (BridgeModel {
                peers: peers@,
                last_packet: Seq::<u8>::empty(),
                retry_count: 0,
                max_retries: max_retries as nat,
            }),
    {
        let b = RadioBridge { peers, last_packet: Vec::new(), retry_count: 0, max_retries };
        proof {
            assert(b@.last_packet =~= Seq::<u8>::empty());
        }
        b
    }

    /// The peer table, for registration with the radio stack.
    pub fn peers(&self) -> (t: &PeerTable)
        ensures
            t@ == self@.peers,
    {
        &self.peers
    }

    /// Take the oldest pending command frame and decide what to do with it:
    /// hand it out for transmission when its device number is in the peer
    /// table, discard it and report `UnknownDevice` otherwise.  A frame
    /// longer than the radio link allows is discarded as `FrameTooLong`.
    /// In every case the frame leaves the queue.
    pub fn poll_command(&self, cmd_q: &mut FramedQueue) -> (r: CommandOutcome)
        requires
            self.inv(),
            old(cmd_q).inv(),
        ensures
            final(cmd_q).inv(),
            final(cmd_q)@ == popped(old(cmd_q)@),
            match r {
                CommandOutcome::Idle => old(cmd_q)@.frames.len() == 0,
                CommandOutcome::Transmit { device, addr, data } => {
                    &&& old(cmd_q)@.frames.len() > 0
                    &&& data@ == old(cmd_q)@.frames[0]
                    &&& data@.len() <= MAX_FRAME_LEN
                    &&& device == spec_frame_device(data@)
                    &&& (device as int) < self@.peers.len()
                    &&& addr == self@.peers[device as int]
                },
                CommandOutcome::UnknownDevice { device } => {
                    &&& old(cmd_q)@.frames.len() > 0
                    &&& old(cmd_q)@.frames[0].len() <= MAX_FRAME_LEN
                    &&& device == spec_frame_device(old(cmd_q)@.frames[0])
                    &&& (device as int) >= self@.peers.len()
                },
                CommandOutcome::FrameTooLong => {
                    &&& old(cmd_q)@.frames.len() > 0
                    &&& old(cmd_q)@.frames[0].len() > MAX_FRAME_LEN
                },
            },
    {
        match cmd_q.pop() {
            None => CommandOutcome::Idle,
            Some(data) => {
                if data.len() > MAX_FRAME_LEN {
                    return CommandOutcome::FrameTooLong;
                }
                let device = crate::wire::frame_device(&data);
                if (device as usize) < self.peers.len() {
                    let addr = self.peers.addr_of(device);
                    CommandOutcome::Transmit { device, addr, data }
                } else {
                    CommandOutcome::UnknownDevice { device }
                }
            },
        }
    }

    /// Record a frame whose synchronous transmission succeeded as the last
    /// sent packet, and trigger the status indicator.
    pub fn on_transmit_ok(&mut self, data: &Vec<u8>, led_q: &mut FramedQueue)
        requires
            old(self).inv(),
            old(led_q).inv(),
            data@.len() <= MAX_FRAME_LEN,
        ensures
            final(self).inv(),
            final(led_q).inv(),
            final(self)@ == (BridgeModel { last_packet: data@, ..old(self)@ }),
            push_effect(old(led_q)@, final(led_q)@, seq![1u8]),
    {
        self.last_packet = vstd::slice::slice_to_vec(data.as_slice());
        trigger_indicator(led_q);
    }

    /// Trigger the status indicator after a successful re-transmission; a
    /// retry does not overwrite the recorded last packet.
    pub fn on_retry_transmit_ok(&self, led_q: &mut FramedQueue)
        requires
            old(led_q).inv(),
        ensures
            final(led_q).inv(),
            push_effect(old(led_q)@, final(led_q)@, seq![1u8]),
    {
        trigger_indicator(led_q);
    }

    /// Take a pending retry trigger and re-issue the last transmitted
    /// frame.  The trigger frame itself only signals; the re-send uses the
    /// recorded packet, whatever device the trigger named — so a retry that
    /// follows an unrelated send re-sends that later packet instead.
    pub fn poll_retry(&self, retry_q: &mut FramedQueue) -> (r: CommandOutcome)
        requires
            self.inv(),
            old(retry_q).inv(),
        ensures
            final(retry_q).inv(),
            final(retry_q)@ == popped(old(retry_q)@),
            match r {
                CommandOutcome::Idle => old(retry_q)@.frames.len() == 0,
                CommandOutcome::Transmit { device, addr, data } => {
                    &&& old(retry_q)@.frames.len() > 0
                    &&& data@ == self@.last_packet
                    &&& device == spec_frame_device(self@.last_packet)
                    &&& (device as int) < self@.peers.len()
                    &&& addr == self@.peers[device as int]
                },
                CommandOutcome::UnknownDevice { device } => {
                    &&& old(retry_q)@.frames.len() > 0
                    &&& device == spec_frame_device(self@.last_packet)
                    &&& (device as int) >= self@.peers.len()
                },
                CommandOutcome::FrameTooLong => false,
            },
    {
        match retry_q.pop() {
            None => CommandOutcome::Idle,
            Some(_trigger) => {
                let data = vstd::slice::slice_to_vec(self.last_packet.as_slice());
                let device = crate::wire::frame_device(&data);
                if (device as usize) < self.peers.len() {
                    let addr = self.peers.addr_of(device);
                    CommandOutcome::Transmit { device, addr, data }
                } else {
                    CommandOutcome::UnknownDevice { device }
                }
            },
        }
    }

    /// React to a delivery-status notification for the peer `mac`.
    ///
    /// Success resets the retry counter.  Failure resolves the peer to a
    /// device number; the broadcast device (0, also the fallback for an
    /// unknown address) is never retried nor reported.  For any other
    /// device: while the counter is below the bound it is incremented and a
    /// retry trigger carrying the device number is enqueued; once the bound
    /// is reached an error-report frame is enqueued instead and the counter
    /// stays until a success resets it.  Either enqueue is best-effort: a
    /// full queue drops the frame.
    pub fn on_send_status(
        &mut self,
        mac: &[u8; 6],
        success: bool,
        retry_q: &mut FramedQueue,
        error_q: &mut FramedQueue,
    )
        requires
            old(self).inv(),
            old(retry_q).inv(),
            old(error_q).inv(),
        ensures
            final(self).inv(),
            final(retry_q).inv(),
            final(error_q).inv(),
            final(self)@.peers == old(self)@.peers,
            final(self)@.last_packet == old(self)@.last_packet,
            final(self)@.max_retries == old(self)@.max_retries,
            success ==> {
                &&& final(self)@.retry_count == 0
                &&& *final(retry_q) == *old(retry_q)
                &&& *final(error_q) == *old(error_q)
            },
            !success ==> {
                let dev = spec_lookup(old(self)@.peers, mac@);
                if dev == 0 {
                    &&& *final(self) == *old(self)
                    &&& *final(retry_q) == *old(retry_q)
                    &&& *final(error_q) == *old(error_q)
                } else {
                    &&& final(self)@.retry_count == count_after_failure(
                        old(self)@.retry_count,
                        old(self)@.max_retries,
                    )
                    &&& if retries_next_failure(old(self)@.retry_count, old(self)@.max_retries) {
                        &&& push_effect(old(retry_q)@, final(retry_q)@, seq![dev as u8])
                        &&& *final(error_q) == *old(error_q)
                    } else {
                        &&& push_effect(old(error_q)@, final(error_q)@, seq![dev as u8])
                        &&& *final(retry_q) == *old(retry_q)
                    }
                }
            },
    {
        if success {
            self.retry_count = 0;
        } else {
            let dev = self.peers.lookup(mac);
            if dev != 0 {
                let mut report: Vec<u8> = Vec::new();
                report.push(dev);
                proof {
                    assert(report@ =~= seq![dev]);
                }
                if self.retry_count < self.max_retries {
                    self.retry_count = self.retry_count + 1;
                    retry_q.push_or_drop(report.as_slice());
                } else {
                    error_q.push_or_drop(report.as_slice());
                }
            }
        }
    }
}

} // verus!
