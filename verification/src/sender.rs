//! Control sender: translation of upstream telemetry into OSC replies, and
//! the runtime-updatable destination address.
//!
//! Each scheduling turn polls three queues: telemetry frames from the
//! radio, error reports from the bridge's retry logic, and destination-IP
//! changes from the control receiver — every poll runs every turn,
//! whether or not the others produced a message.

use vstd::prelude::*;

use crate::osc::{OutMsg, OutMsgModel};
use crate::queue::{popped, FramedQueue, QueueModel};
use crate::wire::{spec_tag_of_byte, Msg};

verus! {

/// Frame payload bytes widened to the 32-bit integer arguments OSC
/// carries.
pub open spec fn ints_of(bytes: Seq<u8>) -> Seq<i32> {
    bytes.map(|i: int, b: u8| b as i32)
}

/// The OSC reply a telemetry frame `[tag, device, payload...]` translates
/// to: `/mac`, `/boot` and `/status` for the known telemetry tags, and
/// `/unknown` — with the raw tag inserted after the device number for
/// diagnostics — for every other tag.
pub open spec fn spec_translate(f: Seq<u8>) -> OutMsgModel
    recommends
        f.len() >= 2,
{
    let dev = f[1] as i32;
    let payload = ints_of(f.subrange(2, f.len() as int));
    match spec_tag_of_byte(f[0]) {
        Some(Msg::Mac) => OutMsgModel { addr: "/mac"@, args: seq![dev] + payload },
        Some(Msg::Boot) => OutMsgModel { addr: "/boot"@, args: seq![dev] },
        Some(Msg::Status) => OutMsgModel { addr: "/status"@, args: seq![dev] + payload },
        _ => OutMsgModel { addr: "/unknown"@, args: seq![dev, f[0] as i32] + payload },
    }
}

/// Append a frame's payload bytes (everything after the two-byte header)
/// to an argument list, widened to integers.
fn append_payload(args: &mut Vec<i32>, frame: &Vec<u8>)
    requires
        frame@.len() >= 2,
    ensures
        final(args)@ == old(args)@ + ints_of(frame@.subrange(2, frame@.len() as int)),
{
    let mut i: usize = 2;
    proof {
        assert(args@ =~= args@ + ints_of(frame@.subrange(2, 2)));
    }
    while i < frame.len()
        invariant
            2 <= i <= frame@.len(),
            args@ == old(args)@ + ints_of(frame@.subrange(2, i as int)),
        decreases frame@.len() - i,
    {
        args.push(frame[i] as i32);
        proof {
            assert(frame@.subrange(2, i + 1) =~= frame@.subrange(2, i as int).push(
                frame@[i as int],
            ));
            assert(old(args)@ + ints_of(frame@.subrange(2, i + 1)) =~= (old(args)@ + ints_of(
                frame@.subrange(2, i as int),
            )).push(frame@[i as int] as i32));
        }
        i = i + 1;
    }
}

/// Translate one upstream telemetry frame into the OSC reply it stands
/// for.
pub fn translate_upstream(frame: &Vec<u8>) -> (m: OutMsg)
    requires
        frame@.len() >= 2,
    ensures
        m@ == spec_translate(frame@),
{
    let tag = frame[0];
    let dev = frame[1] as i32;
    let mut args: Vec<i32> = Vec::new();
    args.push(dev);
    match Msg::from_tag_byte(tag) {
        Some(Msg::Mac) => {
            append_payload(&mut args, frame);
            proof {
                assert(args@ =~= seq![dev] + ints_of(frame@.subrange(2, frame@.len() as int)));
            }
            OutMsg { addr: String::from_str("/mac"), args }
        },
        Some(Msg::Boot) => {
            proof {
                assert(args@ =~= seq![dev]);
            }
            OutMsg { addr: String::from_str("/boot"), args }
        },
        Some(Msg::Status) => {
            append_payload(&mut args, frame);
            proof {
                assert(args@ =~= seq![dev] + ints_of(frame@.subrange(2, frame@.len() as int)));
            }
            OutMsg { addr: String::from_str("/status"), args }
        },
        _ => {
            args.push(tag as i32);
            append_payload(&mut args, frame);
            proof {
                assert(args@ =~= seq![dev, frame@[0] as i32] + ints_of(
                    frame@.subrange(2, frame@.len() as int),
                ));
            }
            OutMsg { addr: String::from_str("/unknown"), args }
        },
    }
}

/// The reply the oldest telemetry frame produces: `None` when no frame is
/// pending, or when the frame is shorter than its two-byte header (such a
/// frame is dropped).
pub open spec fn upstream_reply(q: QueueModel) -> Option<OutMsgModel> {
    if q.frames.len() == 0 {
        None
    } else if q.frames[0].len() < 2 {
        None
    } else {
        Some(spec_translate(q.frames[0]))
    }
}

/// Take the oldest telemetry frame and translate it.  A frame shorter than
/// its two-byte header is dropped without a reply.
pub fn poll_upstream(q: &mut FramedQueue) -> (r: Option<OutMsg>)
    requires
        old(q).inv(),
    ensures
        final(q).inv(),
        final(q)@ == popped(old(q)@),
        match r {
            Some(m) => upstream_reply(old(q)@) == Some(m@),
            None => upstream_reply(old(q)@) is None,
        },
{
    match q.pop() {
        None => None,
        Some(frame) => {
            if frame.len() < 2 {
                None
            } else {
                Some(translate_upstream(&frame))
            }
        },
    }
}

/// The `/notfound` report the oldest error frame produces: its first byte
/// is the device number that exhausted its retries.  An empty error frame
/// is dropped.
pub open spec fn error_reply(q: QueueModel) -> Option<OutMsgModel> {
    if q.frames.len() == 0 {
        None
    } else if q.frames[0].len() < 1 {
        None
    } else {
        Some(OutMsgModel { addr: "/notfound"@, args: seq![q.frames[0][0] as i32] })
    }
}

/// The destination IP after one poll of the IP-change queue: a pending
/// 4-byte frame replaces it, anything else leaves it.
pub open spec fn destip_after(q: QueueModel, ip: Seq<u8>) -> Seq<u8> {
    if q.frames.len() > 0 && q.frames[0].len() == 4 {
        q.frames[0]
    } else {
        ip
    }
}

/// The `/destip` echo one poll of the IP-change queue produces: any
/// pending frame is answered with the then-active address, whether or not
/// it changed it.
pub open spec fn destip_reply(q: QueueModel, ip: Seq<u8>) -> Option<OutMsgModel> {
    if q.frames.len() == 0 {
        None
    } else {
        Some(OutMsgModel { addr: "/destip"@, args: ints_of(destip_after(q, ip)) })
    }
}

/// The boot notice sent to the host once at startup: this bridge node
/// reports as device 0.
pub fn boot_message() -> (m: OutMsg)
    ensures
        m@.addr == "/boot"@,
        m@.args == seq![0i32],
{
    let mut args: Vec<i32> = Vec::new();
    args.push(0i32);
    proof {
        assert(args@ =~= seq![0i32]);
    }
    OutMsg { addr: String::from_str("/boot"), args }
}

/// The control host's network address, as the sender currently knows it.
pub struct ControlSender {
    pub dest_ip: [u8; 4],
    pub dest_port: u16,
}

impl ControlSender {
    /// A sender replying to the configured destination address.
    pub fn new(dest_ip: [u8; 4], dest_port: u16) -> (s: ControlSender)
        ensures
            s.dest_ip == dest_ip,
            s.dest_port == dest_port,
    {
        ControlSender { dest_ip, dest_port }
    }

    /// Poll the error queue: a pending report becomes a `/notfound` reply
    /// naming the failed device.
    pub fn check_espnow_error(&self, error_q: &mut FramedQueue) -> (r: Option<OutMsg>)
        requires
            old(error_q).inv(),
        ensures
            final(error_q).inv(),
            final(error_q)@ == popped(old(error_q)@),
            match r {
                Some(m) => error_reply(old(error_q)@) == Some(m@),
                None => error_reply(old(error_q)@) is None,
            },
    {
        match error_q.pop() {
            None => None,
            Some(frame) => {
                if frame.len() < 1 {
                    None
                } else {
                    let mut args: Vec<i32> = Vec::new();
                    args.push(frame[0] as i32);
                    proof {
                        assert(args@ =~= seq![frame@[0] as i32]);
                    }
                    Some(OutMsg { addr: String::from_str("/notfound"), args })
                }
            },
        }
    }

    /// Poll the IP-change queue: a pending 4-byte frame replaces the
    /// destination IP, and any pending frame — well-formed or not — is
    /// echoed with the then-active address as `/destip`.
    pub fn check_dest_ip_change(&mut self, ip_q: &mut FramedQueue) -> (r: Option<OutMsg>)
        requires
            old(ip_q).inv(),
        ensures
            final(ip_q).inv(),
            final(ip_q)@ == popped(old(ip_q)@),
            final(self).dest_port == old(self).dest_port,
            final(self).dest_ip@ == destip_after(old(ip_q)@, old(self).dest_ip@),
            match r {
                Some(m) => destip_reply(old(ip_q)@, old(self).dest_ip@) == Some(m@),
                None => {
                    &&& destip_reply(old(ip_q)@, old(self).dest_ip@) is None
                    &&& *final(self) == *old(self)
                },
            },
    {
        match ip_q.pop() {
            None => None,
            Some(frame) => {
                if frame.len() == 4 {
                    self.dest_ip = [frame[0], frame[1], frame[2], frame[3]];
                    proof {
                        assert(self.dest_ip@ =~= frame@);
                    }
                }
                let mut args: Vec<i32> = Vec::new();
                args.push(self.dest_ip[0] as i32);
                args.push(self.dest_ip[1] as i32);
                args.push(self.dest_ip[2] as i32);
                args.push(self.dest_ip[3] as i32);
                proof {
                    assert(args@ =~= ints_of(self.dest_ip@));
                }
                Some(OutMsg { addr: String::from_str("/destip"), args })
            },
        }
    }

    /// One scheduling turn of the control sender: poll the telemetry,
    /// error and IP-change queues, in that order, each regardless of the
    /// others, and return the replies each produced.
    pub fn turn(
        &mut self,
        telemetry_q: &mut FramedQueue,
        error_q: &mut FramedQueue,
        ip_q: &mut FramedQueue,
    ) -> (r: (Option<OutMsg>, Option<OutMsg>, Option<OutMsg>))
        requires
            old(telemetry_q).inv(),
            old(error_q).inv(),
            old(ip_q).inv(),
        ensures
            final(telemetry_q).inv(),
            final(error_q).inv(),
            final(ip_q).inv(),
            final(telemetry_q)@ == popped(old(telemetry_q)@),
            final(error_q)@ == popped(old(error_q)@),
            final(ip_q)@ == popped(old(ip_q)@),
            final(self).dest_port == old(self).dest_port,
            final(self).dest_ip@ == destip_after(old(ip_q)@, old(self).dest_ip@),
            match r.0 {
                Some(m) => upstream_reply(old(telemetry_q)@) == Some(m@),
                None => upstream_reply(old(telemetry_q)@) is None,
            },
            match r.1 {
                Some(m) => error_reply(old(error_q)@) == Some(m@),
                None => error_reply(old(error_q)@) is None,
            },
            match r.2 {
                Some(m) => destip_reply(old(ip_q)@, old(self).dest_ip@) == Some(m@),
                None => destip_reply(old(ip_q)@, old(self).dest_ip@) is None,
            },
    {
        let up = poll_upstream(telemetry_q);
        let err = self.check_espnow_error(error_q);
        let dest = self.check_dest_ip_change(ip_q);
        (up, err, dest)
    }
}

} // verus!
