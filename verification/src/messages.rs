//! Command frames for the attitude-control unit: a fixed six-byte header
//! followed by a little-endian payload. Each command states the exact byte
//! sequence it serializes to, and framing lemmas show that the header's
//! declared length matches the payload that follows it.

use vstd::prelude::*;
use crate::encode::{le16, le16_value, le32, i32_bits, push_u16_le, push_u32_le, push_i32_le};

verus! {

/// The sync marker that opens every frame, stored little-endian as
/// 0x90 0xEB on the wire.
pub const SYNC_WORD: u16 = 0xEB90;

/// Fixed header of every structured command frame: sync marker, payload
/// length in bytes, message identifier, destination address.
pub struct MessageHeader {
    pub sync: u16,
    pub data_len: u16,
    pub msg_id: u8,
    pub addr: u8,
}

impl MessageHeader {
    /// The six header bytes as laid out on the wire.
    pub open spec fn wire(&self) -> Seq<u8> {
        le16(self.sync) + le16(self.data_len) + seq![self.msg_id, self.addr]
    }

    pub fn serialize(&self) -> (out: Vec<u8>)
        ensures
            out@ == self.wire(),
    {
        let mut out: Vec<u8> = Vec::new();
        push_u16_le(&mut out, self.sync);
        push_u16_le(&mut out, self.data_len);
        out.push(self.msg_id);
        out.push(self.addr);
        assert(out@ =~= self.wire());
        out
    }
}

impl Default for MessageHeader {
    fn default() -> (h: Self)
        ensures
            h == (MessageHeader { sync: SYNC_WORD, data_len: 0, msg_id: 0, addr: 0 }),
    {
        MessageHeader { sync: SYNC_WORD, data_len: 0, msg_id: 0, addr: 0 }
    }
}

/// A command that can be serialized to its exact wire bytes.
pub trait Message {
    /// The bytes this command puts on the wire.
    spec fn wire(&self) -> Seq<u8>;

    fn serialize(&self) -> (out: Vec<u8>)
        ensures
            out@ == self.wire(),
    ;
}

/// The fixed six-byte control frame with the given message identifier.
pub open spec fn fixed_frame(msg_id: u8) -> Seq<u8> {
    seq![0x90u8, 0xEBu8, 0x00u8, 0x00u8, msg_id, 0x00u8]
}

/// Request for device information (version, build): a fixed control frame.
pub struct GetInfo([u8; 6]);

impl Default for GetInfo {
    fn default() -> (m: Self)
        ensures
            m.wire() == fixed_frame(0x1D),
    {
        let array: [u8; 6] = [0x90, 0xEB, 0x00, 0x00, 0x1D, 0x00];
        let m = GetInfo(array);
        assert(m.wire() =~= fixed_frame(0x1D));
        m
    }
}

impl Message for GetInfo {
    closed spec fn wire(&self) -> Seq<u8> {
        self.0@
    }

    fn serialize(&self) -> (out: Vec<u8>)
        ensures
            out@ == self.wire(),
    {
        array_to_vec(&self.0)
    }
}

/// Request that the unit reset itself: a fixed control frame.
pub struct RequestReset(pub [u8; 6]);

impl Default for RequestReset {
    fn default() -> (m: Self)
        ensures
            m.wire() == fixed_frame(0x5A),
    {
        let array: [u8; 6] = [0x90, 0xEB, 0x00, 0x00, 0x5A, 0x00];
        let m = RequestReset(array);
        assert(m.wire() =~= fixed_frame(0x5A));
        m
    }
}

impl Message for RequestReset {
    open spec fn wire(&self) -> Seq<u8> {
        self.0@
    }

    fn serialize(&self) -> (out: Vec<u8>)
        ensures
            out@ == self.wire(),
    {
        array_to_vec(&self.0)
    }
}

/// Confirmation of a requested reset: a fixed control frame.
pub struct ConfirmReset([u8; 6]);

impl Default for ConfirmReset {
    fn default() -> (m: Self)
        ensures
            m.wire() == fixed_frame(0xF1),
    {
        let array: [u8; 6] = [0x90, 0xEB, 0x00, 0x00, 0xF1, 0x00];
        let m = ConfirmReset(array);
        assert(m.wire() =~= fixed_frame(0xF1));
        m
    }
}

impl Message for ConfirmReset {
    closed spec fn wire(&self) -> Seq<u8> {
        self.0@
    }

    fn serialize(&self) -> (out: Vec<u8>)
        ensures
            out@ == self.wire(),
    {
        array_to_vec(&self.0)
    }
}

fn array_to_vec(a: &[u8; 6]) -> (out: Vec<u8>)
    ensures
        out@ == a@,
{
    let mut out: Vec<u8> = Vec::new();
    out.push(a[0]);
    out.push(a[1]);
    out.push(a[2]);
    out.push(a[3]);
    out.push(a[4]);
    out.push(a[5]);
    assert(out@ =~= a@);
    out
}

/// Command that selects the attitude-control mode and its parameters.
pub struct SetAcsMode {
    pub hdr: MessageHeader,
    pub mode: u8,
    pub sec_vec: i32,
    pub pri_axis: i32,
    pub sec_axis: i32,
    pub qbi_cmd4: i32,
}

impl SetAcsMode {
    /// The payload bytes that follow the header.
    pub open spec fn payload(&self) -> Seq<u8> {
        seq![self.mode] + le32(i32_bits(self.sec_vec)) + le32(i32_bits(self.pri_axis))
            + le32(i32_bits(self.sec_axis)) + le32(i32_bits(self.qbi_cmd4))
    }

    /// The header's declared length matches the payload that follows it.
    pub open spec fn wf(&self) -> bool {
        self.hdr.data_len == self.payload().len()
    }
}

impl Default for SetAcsMode {
    fn default() -> (m: Self)
        ensures
            m == (SetAcsMode {
                hdr: MessageHeader { sync: SYNC_WORD, data_len: 17, msg_id: 0, addr: 0 },
                mode: 0,
                sec_vec: 0,
                pri_axis: 0,
                sec_axis: 0,
                qbi_cmd4: 0,
            }),
            m.wf(),
    {
        SetAcsMode {
            hdr: MessageHeader { sync: SYNC_WORD, data_len: 17, msg_id: 0, addr: 0 },
            mode: 0,
            sec_vec: 0,
            pri_axis: 0,
            sec_axis: 0,
            qbi_cmd4: 0,
        }
    }
}

impl Message for SetAcsMode {
    open spec fn wire(&self) -> Seq<u8> {
        self.hdr.wire() + self.payload()
    }

    fn serialize(&self) -> (out: Vec<u8>)
        ensures
            out@ == self.wire(),
    {
        let mut out = self.hdr.serialize();
        out.push(self.mode);
        push_i32_le(&mut out, self.sec_vec);
        push_i32_le(&mut out, self.pri_axis);
        push_i32_le(&mut out, self.sec_axis);
        push_i32_le(&mut out, self.qbi_cmd4);
        assert(out@ =~= self.wire());
        out
    }
}

/// Command that hands the unit the current GPS time.
pub struct SetGPSTime {
    pub hdr: MessageHeader,
    pub gps_time: u32,
}

impl SetGPSTime {
    /// The payload bytes that follow the header.
    pub open spec fn payload(&self) -> Seq<u8> {
        le32(self.gps_time)
    }

    /// The header's declared length matches the payload that follows it.
    pub open spec fn wf(&self) -> bool {
        self.hdr.data_len == self.payload().len()
    }
}

impl Default for SetGPSTime {
    fn default() -> (m: Self)
        ensures
            m == (SetGPSTime {
                hdr: MessageHeader { sync: SYNC_WORD, data_len: 4, msg_id: 0x44, addr: 0 },
                gps_time: 0,
            }),
            m.wf(),
    {
        SetGPSTime {
            hdr: MessageHeader { sync: SYNC_WORD, data_len: 4, msg_id: 0x44, addr: 0 },
            gps_time: 0,
        }
    }
}

impl Message for SetGPSTime {
    open spec fn wire(&self) -> Seq<u8> {
        self.hdr.wire() + self.payload()
    }

    fn serialize(&self) -> (out: Vec<u8>)
        ensures
            out@ == self.wire(),
    {
        let mut out = self.hdr.serialize();
        push_u32_le(&mut out, self.gps_time);
        assert(out@ =~= self.wire());
        out
    }
}

/// Framing law: a well-formed attitude-mode command serializes to the six
/// header bytes plus its payload, and bytes 2 and 3 of the frame encode the
/// payload length little-endian.
pub proof fn lemma_set_acs_mode_framing(m: SetAcsMode)
    requires
        m.wf(),
    ensures
        m.wire().len() == 6 + m.payload().len(),
        le16_value(m.wire()[2], m.wire()[3]) == m.payload().len(),
{
    assert(m.wire()[2] == le16(m.hdr.data_len)[0]);
    assert(m.wire()[3] == le16(m.hdr.data_len)[1]);
}

/// Framing law: a well-formed GPS-time command serializes to the six header
/// bytes plus its payload, and bytes 2 and 3 of the frame encode the payload
/// length little-endian.
pub proof fn lemma_set_gps_time_framing(m: SetGPSTime)
    requires
        m.wf(),
    ensures
        m.wire().len() == 6 + m.payload().len(),
        le16_value(m.wire()[2], m.wire()[3]) == m.payload().len(),
{
    assert(m.wire()[2] == le16(m.hdr.data_len)[0]);
    assert(m.wire()[3] == le16(m.hdr.data_len)[1]);
}

/// Framing law: a fixed control frame is six bytes with no payload, and its
/// length bytes encode zero.
pub proof fn lemma_fixed_frame_framing(msg_id: u8)
    ensures
        fixed_frame(msg_id).len() == 6,
        le16_value(fixed_frame(msg_id)[2], fixed_frame(msg_id)[3]) == 0,
{
}

} // verus!
