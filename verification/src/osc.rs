//! The crate's view of OSC messages, and the trusted boundary to the `rosc`
//! codec.
//!
//! Inbound control traffic is decoded from UDP datagram bytes into
//! [`Packet`]; outbound replies are built as [`OutMsg`] values, whose
//! arguments are always 32-bit integers, and encoded back to datagram
//! bytes.  The OSC 1.0 byte format itself is `rosc`'s business: its encoder
//! and decoder are called through `external_body` wrappers, and what they
//! produce is named by uninterpreted functions rather than restated.

use vstd::prelude::*;

verus! {

/// One argument of an inbound OSC message.  The bridge only ever reads
/// 32-bit integer arguments; every other argument type is kept only as the
/// fact that it was not an integer.
#[derive(Clone, Copy, Debug, PartialEq, Eq)]
pub enum OscArg {
    Int(i32),
    Other,
}

/// An inbound OSC message: address pattern and arguments.
pub struct ControlMsg {
    pub addr: String,
    pub args: Vec<OscArg>,
}

/// Mathematical view of a [`ControlMsg`].
pub ghost struct MsgModel {
    pub addr: Seq<char>,
    pub args: Seq<OscArg>,
}

impl View for ControlMsg {
    type V = MsgModel;

    open spec fn view(&self) -> MsgModel {
        MsgModel { addr: self.addr@, args: self.args@ }
    }
}

/// An inbound OSC packet: a single message, or a bundle.  Bundles carry no
/// control traffic for this bridge and are only told apart to be ignored.
pub enum Packet {
    Message(ControlMsg),
    Bundle,
}

/// Mathematical view of a [`Packet`].
pub ghost enum PacketModel {
    Message(MsgModel),
    Bundle,
}

impl View for Packet {
    type V = PacketModel;

    open spec fn view(&self) -> PacketModel {
        match self {
            Packet::Message(m) => PacketModel::Message(m@),
            Packet::Bundle => PacketModel::Bundle,
        }
    }
}

/// An outbound OSC message: address pattern and 32-bit integer arguments.
pub struct OutMsg {
    pub addr: String,
    pub args: Vec<i32>,
}

/// Mathematical view of an [`OutMsg`].
pub ghost struct OutMsgModel {
    pub addr: Seq<char>,
    pub args: Seq<i32>,
}

impl View for OutMsg {
    type V = OutMsgModel;

    open spec fn view(&self) -> OutMsgModel {
        OutMsgModel { addr: self.addr@, args: self.args@ }
    }
}

impl DeepView for OutMsg {
    type V = OutMsgModel;

    open spec fn deep_view(&self) -> OutMsgModel {
        self.view()
    }
}

/// What `rosc`'s UDP decoder makes of a datagram: `None` when the bytes are
/// not a well-formed OSC packet, otherwise the packet with its arguments
/// abstracted to [`OscArg`].  A pure function of the bytes alone.
pub uninterp spec fn osc_decoded(bytes: Seq<u8>) -> Option<PacketModel>;

/// The OSC 1.0 encoding of a message whose arguments are all 32-bit
/// integers.  A pure function of the address and the arguments alone.
pub uninterp spec fn osc_message_bytes(addr: Seq<char>, args: Seq<i32>) -> Seq<u8>;

/// Relies on `rosc::decoder::decode_udp`: it parses one OSC 1.0 UDP
/// datagram into a packet, depending on the bytes alone, and reports an
/// error exactly when the bytes are not a well-formed packet.  Integer
/// arguments are kept; every other argument collapses to [`OscArg::Other`],
/// which is all this bridge reads of them.
#[verifier::external_body]
pub(crate) fn decode_datagram_raw(bytes: &[u8]) -> (r: Option<Packet>)
    ensures
        r matches Some(p) ==> osc_decoded(bytes@) == Some(p@),
        r is None ==> osc_decoded(bytes@) is None,
{
    let arg_of = |a: rosc::OscType| match a {
        rosc::OscType::Int(i) => OscArg::Int(i),
        _ => OscArg::Other,
    };
    match rosc::decoder::decode_udp(bytes) {
        Ok((_, rosc::OscPacket::Message(m))) => {
            let args = m.args.into_iter().map(arg_of).collect();
            Some(Packet::Message(ControlMsg { addr: m.addr, args }))
        },
        Ok((_, rosc::OscPacket::Bundle(_))) => Some(Packet::Bundle),
        Err(_) => None,
    }
}

/// Relies on `rosc::encoder::encode`: the OSC 1.0 encoding of a message
/// depends on its address and arguments alone, and encoding into a byte
/// vector cannot fail (its output sink is infallible, per the encoder's
/// source).
#[verifier::external_body]
fn encode_message_raw(addr: &String, args: &Vec<i32>) -> (r: Vec<u8>)
    ensures
        r@ == osc_message_bytes(addr@, args@),
{
    let msg = rosc::OscMessage {
        addr: addr.clone(),
        args: args.iter().map(|v| rosc::OscType::Int(*v)).collect(),
    };
    rosc::encoder::encode(&rosc::OscPacket::Message(msg)).unwrap_or_default()
}

/// The UDP datagram bytes that carry an outbound message.
pub fn message_datagram(m: &OutMsg) -> (r: Vec<u8>)
    ensures
        r@ == osc_message_bytes(m@.addr, m@.args),
{
    encode_message_raw(&m.addr, &m.args)
}

} // verus!
