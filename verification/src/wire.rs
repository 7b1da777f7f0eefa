//! Wire format of the radio link: compact binary frames
//! `[tag, device_no, payload...]`, at most `MAX_FRAME_LEN` bytes.

use vstd::prelude::*;

verus! {

/// A frame on the radio link is at most this many bytes long.
pub const MAX_FRAME_LEN: usize = 10;

/// Tags of the binary frames exchanged over the radio link.
///
/// `Boot`, `Mac` and `Status` identify upstream telemetry; `Reset`,
/// `MacQuery`, `Run` and `StatusQuery` identify downstream commands.
/// The set is open: an upstream frame may carry a tag outside this
/// enumeration and is then reported verbatim.
#[derive(Clone, Copy, Debug, PartialEq, Eq)]
pub enum Msg {
    Boot,
    Mac,
    Status,
    Reset,
    MacQuery,
    Run,
    StatusQuery,
}

/// The byte that stands for a tag on the wire.
pub open spec fn spec_tag_byte(m: Msg) -> u8 {
    match m {
        Msg::Boot => 0x42,
        Msg::Mac => 0x4D,
        Msg::Status => 0x55,
        Msg::Reset => 0x62,
        Msg::MacQuery => 0x6D,
        Msg::Run => 0x72,
        Msg::StatusQuery => 0x75,
    }
}

/// The tag a byte stands for, if any.
pub open spec fn spec_tag_of_byte(b: u8) -> Option<Msg> {
    if b == 0x42 {
        Some(Msg::Boot)
    } else if b == 0x4D {
        Some(Msg::Mac)
    } else if b == 0x55 {
        Some(Msg::Status)
    } else if b == 0x62 {
        Some(Msg::Reset)
    } else if b == 0x6D {
        Some(Msg::MacQuery)
    } else if b == 0x72 {
        Some(Msg::Run)
    } else if b == 0x75 {
        Some(Msg::StatusQuery)
    } else {
        None
    }
}

impl Msg {
    /// Encode the tag as its wire byte.
    pub fn tag_byte(self) -> (b: u8)
        ensures
            b == spec_tag_byte(self),
    {
        match self {
            Msg::Boot => 0x42,
            Msg::Mac => 0x4D,
            Msg::Status => 0x55,
            Msg::Reset => 0x62,
            Msg::MacQuery => 0x6D,
            Msg::Run => 0x72,
            Msg::StatusQuery => 0x75,
        }
    }

    /// Decode a wire byte back into a tag, if it stands for one.
    pub fn from_tag_byte(b: u8) -> (m: Option<Msg>)
        ensures
            m == spec_tag_of_byte(b),
    {
        if b == 0x42 {
            Some(Msg::Boot)
        } else if b == 0x4D {
            Some(Msg::Mac)
        } else if b == 0x55 {
            Some(Msg::Status)
        } else if b == 0x62 {
            Some(Msg::Reset)
        } else if b == 0x6D {
            Some(Msg::MacQuery)
        } else if b == 0x72 {
            Some(Msg::Run)
        } else if b == 0x75 {
            Some(Msg::StatusQuery)
        } else {
            None
        }
    }
}

/// Encoding a tag and decoding the byte again yields the same tag, and a
/// byte that decodes to a tag re-encodes to the same byte: the tag byte
/// assignment is one-to-one.
pub proof fn lemma_tag_byte_round_trip(m: Msg, b: u8)
    ensures
        spec_tag_of_byte(spec_tag_byte(m)) == Some(m),
        spec_tag_of_byte(b) matches Some(t) ==> spec_tag_byte(t) == b,
{
}

/// Translation round trip: a command frame `[tag, device]` built from a
/// tag and a device number reads back as exactly that tag and that device
/// number.
pub proof fn lemma_command_frame_round_trip(tag: Msg, device: u8)
    ensures
        spec_tag_of_byte(seq![spec_tag_byte(tag), device][0]) == Some(tag),
        spec_frame_device(seq![spec_tag_byte(tag), device]) == device,
{
}

/// The device number addressed by a frame: its second byte, or 0 (the
/// broadcast device) when the frame is too short to carry one.
pub open spec fn spec_frame_device(f: Seq<u8>) -> u8 {
    if f.len() >= 2 {
        f[1]
    } else {
        0
    }
}

/// Read the device number out of a frame.
pub fn frame_device(f: &Vec<u8>) -> (d: u8)
    ensures
        d == spec_frame_device(f@),
{
    if f.len() >= 2 {
        f[1]
    } else {
        0
    }
}

} // verus!
