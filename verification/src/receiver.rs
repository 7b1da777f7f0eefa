//! Control receiver: dispatch of inbound OSC messages into binary command
//! frames.
//!
//! One datagram is handled per call.  Only single messages are acted on;
//! bundles are ignored.  A message is dispatched by its address pattern and
//! must carry exactly the arity the pattern asks for, or it is silently
//! ignored.  The first argument of an in-scope message is the target device
//! number; a non-integer argument coerces to 0.

use vstd::prelude::*;

use crate::osc::{ControlMsg, MsgModel, OscArg, Packet, PacketModel};
use crate::queue::{push_effect, push_fits, FramedQueue, QueueModel};
use crate::wire::{spec_tag_byte, Msg};

verus! {

/// What an inbound message asks the bridge to do.
#[derive(Debug, PartialEq, Eq)]
pub enum Action {
    /// Emit a downstream command frame `[tag, device]`.
    Command { tag: Msg, device: u8 },
    /// Restart this bridge node itself (a reset addressed to device 0).
    LocalReset,
    /// Carry a new destination IP to the control sender.
    SetDestIp { octets: [u8; 4] },
    /// Out-of-scope address, wrong arity, or a bundle: do nothing.
    Ignore,
}

/// Mathematical view of an [`Action`].
pub ghost enum ActionModel {
    Command { tag: Msg, device: u8 },
    LocalReset,
    SetDestIp { octets: Seq<u8> },
    Ignore,
}

impl View for Action {
    type V = ActionModel;

    open spec fn view(&self) -> ActionModel {
        match self {
            Action::Command { tag, device } => ActionModel::Command {
                tag: *tag,
                device: *device,
            },
            Action::LocalReset => ActionModel::LocalReset,
            Action::SetDestIp { octets } => ActionModel::SetDestIp { octets: octets@ },
            Action::Ignore => ActionModel::Ignore,
        }
    }
}

/// The low byte of an integer argument; a non-integer argument coerces
/// to 0.
pub open spec fn spec_octet(a: OscArg) -> u8 {
    match a {
        OscArg::Int(n) => (n & 0xFF) as u8,
        OscArg::Other => 0,
    }
}

/// The device number a message addresses: the low byte of its first
/// argument, or 0 when there is no first argument or it is not an integer.
pub open spec fn spec_device_of_args(args: Seq<OscArg>) -> u8 {
    if args.len() > 0 {
        spec_octet(args[0])
    } else {
        0
    }
}

fn octet(a: OscArg) -> (b: u8)
    ensures
        b == spec_octet(a),
{
    match a {
        OscArg::Int(n) => {
            proof {
                assert(0 <= (n & 0xFF) <= 255) by (bit_vector);
            }
            (n & 0xFF) as u8
        },
        OscArg::Other => 0,
    }
}

/// Read the target device number out of a message's arguments.
pub fn device_of_args(args: &Vec<OscArg>) -> (d: u8)
    ensures
        d == spec_device_of_args(args@),
{
    if args.len() > 0 {
        octet(args[0])
    } else {
        0
    }
}

/// The dispatch table: what a message with this address pattern and these
/// arguments asks for.
pub open spec fn spec_dispatch(m: MsgModel) -> ActionModel {
    let dev = spec_device_of_args(m.args);
    if m.addr == "/macquery"@ {
        if m.args.len() == 1 {
            ActionModel::Command { tag: Msg::MacQuery, device: dev }
        } else {
            ActionModel::Ignore
        }
    } else if m.addr == "/reset"@ {
        if m.args.len() == 1 {
            if dev == 0 {
                ActionModel::LocalReset
            } else {
                ActionModel::Command { tag: Msg::Reset, device: dev }
            }
        } else {
            ActionModel::Ignore
        }
    } else if m.addr == "/statusquery"@ {
        if m.args.len() == 1 {
            ActionModel::Command { tag: Msg::StatusQuery, device: dev }
        } else {
            ActionModel::Ignore
        }
    } else if m.addr == "/run"@ {
        if m.args.len() == 1 {
            ActionModel::Command { tag: Msg::Run, device: dev }
        } else {
            ActionModel::Ignore
        }
    } else if m.addr == "/setdestip"@ {
        if m.args.len() == 4 {
            ActionModel::SetDestIp {
                octets: seq![
                    spec_octet(m.args[0]),
                    spec_octet(m.args[1]),
                    spec_octet(m.args[2]),
                    spec_octet(m.args[3]),
                ],
            }
        } else {
            ActionModel::Ignore
        }
    } else {
        ActionModel::Ignore
    }
}

/// Decide what an inbound message asks for, by the dispatch table.
pub fn dispatch(msg: &ControlMsg) -> (a: Action)
    ensures
        a@ == spec_dispatch(msg@),
{
    let dev = device_of_args(&msg.args);
    if msg.addr == String::from_str("/macquery") {
        if msg.args.len() == 1 {
            Action::Command { tag: Msg::MacQuery, device: dev }
        } else {
            Action::Ignore
        }
    } else if msg.addr == String::from_str("/reset") {
        if msg.args.len() == 1 {
            if dev == 0 {
                Action::LocalReset
            } else {
                Action::Command { tag: Msg::Reset, device: dev }
            }
        } else {
            Action::Ignore
        }
    } else if msg.addr == String::from_str("/statusquery") {
        if msg.args.len() == 1 {
            Action::Command { tag: Msg::StatusQuery, device: dev }
        } else {
            Action::Ignore
        }
    } else if msg.addr == String::from_str("/run") {
        if msg.args.len() == 1 {
            Action::Command { tag: Msg::Run, device: dev }
        } else {
            Action::Ignore
        }
    } else if msg.addr == String::from_str("/setdestip") {
        if msg.args.len() == 4 {
            let octets: [u8; 4] = [octet(msg.args[0]), octet(msg.args[1]), octet(msg.args[2]), octet(
                msg.args[3],
            )];
            proof {
                assert(octets@ =~= seq![
                    spec_octet(msg.args[0]),
                    spec_octet(msg.args[1]),
                    spec_octet(msg.args[2]),
                    spec_octet(msg.args[3]),
                ]);
            }
            Action::SetDestIp { octets }
        } else {
            Action::Ignore
        }
    } else {
        Action::Ignore
    }
}

/// Build a downstream command frame `[tag, content...]` and enqueue it,
/// dropping it when the command queue is full (a reported overflow, not a
/// fault).
pub fn send_downstream_buffer(cmd_q: &mut FramedQueue, header: Msg, content: &[u8]) -> (fit: bool)
    requires
        old(cmd_q).inv(),
    ensures
        final(cmd_q).inv(),
        push_effect(old(cmd_q)@, final(cmd_q)@, seq![spec_tag_byte(header)] + content@),
        fit == push_fits(old(cmd_q)@, seq![spec_tag_byte(header)] + content@),
{
    let mut buf: Vec<u8> = Vec::new();
    buf.push(header.tag_byte());
    let mut i: usize = 0;
    while i < content.len()
        invariant
            i <= content@.len(),
            buf@ == seq![spec_tag_byte(header)] + content@.subrange(0, i as int),
        decreases content@.len() - i,
    {
        buf.push(content[i]);
        proof {
            assert(content@.subrange(0, i + 1) =~= content@.subrange(0, i as int).push(
                content@[i as int],
            ));
        }
        i = i + 1;
    }
    proof {
        assert(content@.subrange(0, content@.len() as int) =~= content@);
    }
    cmd_q.push_or_drop(buf.as_slice())
}

/// Enqueue a new destination IP, verbatim, for the control sender; a full
/// queue drops it.
pub fn notify_new_destip(ip_q: &mut FramedQueue, newip: &[u8]) -> (fit: bool)
    requires
        old(ip_q).inv(),
    ensures
        final(ip_q).inv(),
        push_effect(old(ip_q)@, final(ip_q)@, newip@),
        fit == push_fits(old(ip_q)@, newip@),
{
    ip_q.push_or_drop(newip)
}

/// The datagram bytes were not a well-formed OSC packet; they were
/// discarded and the receiver goes on.
#[derive(Clone, Copy, Debug, PartialEq, Eq)]
pub struct DecodeError;

/// What handling one datagram did.
#[derive(Debug, PartialEq, Eq)]
pub enum RxOutcome {
    /// A command frame `[tag, device]` was enqueued for the radio bridge.
    CommandQueued { tag: Msg, device: u8 },
    /// The command queue was full; the frame was dropped.
    CommandDropped { tag: Msg, device: u8 },
    /// A reset addressed to this bridge node itself: the caller must run
    /// the local restart sequence.
    ResetRequested,
    /// A destination-IP change was enqueued for the control sender.
    DestIpQueued { octets: [u8; 4] },
    /// The IP-change queue was full; the change was dropped.
    DestIpDropped { octets: [u8; 4] },
    /// A bundle, an out-of-scope address, or a wrong arity: nothing done.
    Ignored,
}

/// How an action plays out on the two queues, and the outcome reported for
/// it.
pub open spec fn action_effect(
    a: ActionModel,
    pre_cmd: QueueModel,
    post_cmd: QueueModel,
    pre_ip: QueueModel,
    post_ip: QueueModel,
    out: RxOutcome,
) -> bool {
    match a {
        ActionModel::Command { tag, device } => {
            &&& push_effect(pre_cmd, post_cmd, seq![spec_tag_byte(tag), device])
            &&& post_ip == pre_ip
            &&& out == if push_fits(pre_cmd, seq![spec_tag_byte(tag), device]) {
                (RxOutcome::CommandQueued { tag, device })
            } else {
                (RxOutcome::CommandDropped { tag, device })
            }
        },
        ActionModel::LocalReset => {
            &&& post_cmd == pre_cmd
            &&& post_ip == pre_ip
            &&& out == RxOutcome::ResetRequested
        },
        ActionModel::SetDestIp { octets } => {
            &&& push_effect(pre_ip, post_ip, octets)
            &&& post_cmd == pre_cmd
            &&& if push_fits(pre_ip, octets) {
                out matches RxOutcome::DestIpQueued { octets: o } && o@ == octets
            } else {
                out matches RxOutcome::DestIpDropped { octets: o } && o@ == octets
            }
        },
        ActionModel::Ignore => {
            &&& post_cmd == pre_cmd
            &&& post_ip == pre_ip
            &&& out == RxOutcome::Ignored
        },
    }
}

/// Handle one inbound UDP datagram: decode it as OSC, dispatch a single
/// message by the table, and enqueue the command frame or IP change it
/// asks for.  Malformed datagrams are rejected; bundles are ignored.
pub fn handle_datagram(bytes: &[u8], cmd_q: &mut FramedQueue, ip_q: &mut FramedQueue) -> (r:
    Result<RxOutcome, DecodeError>)
    requires
        old(cmd_q).inv(),
        old(ip_q).inv(),
    ensures
        final(cmd_q).inv(),
        final(ip_q).inv(),
        match r {
            Err(_) => {
                &&& crate::osc::osc_decoded(bytes@) is None
                &&& *final(cmd_q) == *old(cmd_q)
                &&& *final(ip_q) == *old(ip_q)
            },
            Ok(out) => match crate::osc::osc_decoded(bytes@) {
                None => false,
                Some(PacketModel::Bundle) => {
                    &&& out == RxOutcome::Ignored
                    &&& *final(cmd_q) == *old(cmd_q)
                    &&& *final(ip_q) == *old(ip_q)
                },
                Some(PacketModel::Message(m)) => action_effect(
                    spec_dispatch(m),
                    old(cmd_q)@,
                    final(cmd_q)@,
                    old(ip_q)@,
                    final(ip_q)@,
                    out,
                ),
            },
        },
{
    match crate::osc::decode_datagram_raw(bytes) {
        None => Err(DecodeError),
        Some(Packet::Bundle) => Ok(RxOutcome::Ignored),
        Some(Packet::Message(msg)) => {
            let action = dispatch(&msg);
            match action {
                Action::Command { tag, device } => {
                    let mut content: Vec<u8> = Vec::new();
                    content.push(device);
                    let fit = send_downstream_buffer(cmd_q, tag, content.as_slice());
                    proof {
                        assert(seq![spec_tag_byte(tag)] + content@ =~= seq![
                            spec_tag_byte(tag),
                            device,
                        ]);
                    }
                    if fit {
                        Ok(RxOutcome::CommandQueued { tag, device })
                    } else {
                        Ok(RxOutcome::CommandDropped { tag, device })
                    }
                },
                Action::LocalReset => Ok(RxOutcome::ResetRequested),
                Action::SetDestIp { octets } => {
                    let mut newip: Vec<u8> = Vec::new();
                    let mut i: usize = 0;
                    while i < 4
                        invariant
                            i <= 4,
                            newip@ == octets@.subrange(0, i as int),
                        decreases 4 - i,
                    {
                        newip.push(octets[i]);
                        proof {
                            assert(octets@.subrange(0, i + 1) =~= octets@.subrange(
                                0,
                                i as int,
                            ).push(octets@[i as int]));
                        }
                        i = i + 1;
                    }
                    proof {
                        assert(octets@.subrange(0, 4) =~= octets@);
                    }
                    let fit = notify_new_destip(ip_q, newip.as_slice());
                    if fit {
                        Ok(RxOutcome::DestIpQueued { octets })
                    } else {
                        Ok(RxOutcome::DestIpDropped { octets })
                    }
                },
                Action::Ignore => Ok(RxOutcome::Ignored),
            }
        },
    }
}

} // verus!
