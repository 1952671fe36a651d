//! Encoders for the outbound command frames: the three fixed
//! session-management escape payloads and the 13-byte NFC-F polling frame.
use vstd::prelude::*;

verus! {

/// Wildcard system code: a polling frame carrying it addresses every system
/// on the card.
pub const SYSTEM_ALL: u16 = 0xFFFF;

/// Extra data a polling command may ask the card to return.
#[derive(Clone, Copy, Debug, PartialEq, Eq, Structural)]
pub enum RequestCode {
    NoRequest,
    SystemCode,
    Capability,
}

impl RequestCode {
    /// Wire encoding of the request code.
    pub open spec fn spec_encode(self) -> u8 {
        match self {
            RequestCode::NoRequest => 0x00,
            RequestCode::SystemCode => 0x01,
            RequestCode::Capability => 0x02,
        }
    }

    pub fn encode(&self) -> (r: u8)
        ensures
            r == self.spec_encode(),
    {
        match self {
            RequestCode::NoRequest => 0x00,
            RequestCode::SystemCode => 0x01,
            RequestCode::Capability => 0x02,
        }
    }
}

/// Number of time slots the card may answer in. Only these five values are
/// admitted by the governing polling specification; their encodings are not
/// sequential small integers.
#[derive(Clone, Copy, Debug, PartialEq, Eq, Structural)]
pub enum TimeSlot {
    Slot1,
    Slot2,
    Slot4,
    Slot8,
    Slot16,
}

impl TimeSlot {
    /// Wire encoding of the time-slot count.
    pub open spec fn spec_encode(self) -> u8 {
        match self {
            TimeSlot::Slot1 => 0x00,
            TimeSlot::Slot2 => 0x01,
            TimeSlot::Slot4 => 0x03,
            TimeSlot::Slot8 => 0x07,
            TimeSlot::Slot16 => 0x0F,
        }
    }

    pub fn encode(&self) -> (r: u8)
        ensures
            r == self.spec_encode(),
    {
        match self {
            TimeSlot::Slot1 => 0x00,
            TimeSlot::Slot2 => 0x01,
            TimeSlot::Slot4 => 0x03,
            TimeSlot::Slot8 => 0x07,
            TimeSlot::Slot16 => 0x0F,
        }
    }
}

/// Escape payload that starts a transparent session.
pub open spec fn start_session_bytes() -> Seq<u8> {
    seq![0xFF, 0xC2, 0x00, 0x00, 0x02, 0x81, 0x00, 0x00]
}

/// Escape payload that ends a transparent session.
pub open spec fn end_session_bytes() -> Seq<u8> {
    seq![0xFF, 0xC2, 0x00, 0x00, 0x02, 0x82, 0x00, 0x00]
}

/// Escape payload that switches the RF front-end to NFC-F.
pub open spec fn switch_to_nfc_f_bytes() -> Seq<u8> {
    seq![0xFF, 0xC2, 0x00, 0x02, 0x04, 0x8F, 0x02, 0x03, 0x00, 0x00]
}

/// The 13-byte polling frame: fixed 8-byte prefix, one reserved zero byte,
/// the big-endian system code, the request code and the time slot.
pub open spec fn polling_frame(system_code: u16, request_code: RequestCode, time_slot: TimeSlot) -> Seq<u8> {
    seq![
        0xFF, 0xC2, 0x00, 0x01, 0x08, 0x95, 0x06, 0x06, 0x00,
        (system_code / 0x100) as u8,
        (system_code % 0x100) as u8,
        request_code.spec_encode(),
        time_slot.spec_encode(),
    ]
}

pub fn start_session_apdu() -> (r: Vec<u8>)
    ensures
        r@ == start_session_bytes(),
{
    let mut v: Vec<u8> = Vec::new();
    v.push(0xFF);
    v.push(0xC2);
    v.push(0x00);
    v.push(0x00);
    v.push(0x02);
    v.push(0x81);
    v.push(0x00);
    v.push(0x00);
    assert(v@ =~= start_session_bytes());
    v
}

pub fn end_session_apdu() -> (r: Vec<u8>)
    ensures
        r@ == end_session_bytes(),
{
    let mut v: Vec<u8> = Vec::new();
    v.push(0xFF);
    v.push(0xC2);
    v.push(0x00);
    v.push(0x00);
    v.push(0x02);
    v.push(0x82);
    v.push(0x00);
    v.push(0x00);
    assert(v@ =~= end_session_bytes());
    v
}

pub fn switch_to_nfc_f_apdu() -> (r: Vec<u8>)
    ensures
        r@ == switch_to_nfc_f_bytes(),
{
    let mut v: Vec<u8> = Vec::new();
    v.push(0xFF);
    v.push(0xC2);
    v.push(0x00);
    v.push(0x02);
    v.push(0x04);
    v.push(0x8F);
    v.push(0x02);
    v.push(0x03);
    v.push(0x00);
    v.push(0x00);
    assert(v@ =~= switch_to_nfc_f_bytes());
    v
}

/// Builds the polling command frame for the given system code, request code
/// and time slot.
pub fn polling(system_code: u16, request_code: RequestCode, time_slot: TimeSlot) -> (r: Vec<u8>)
    ensures
        r@ == polling_frame(system_code, request_code, time_slot),
        r@.len() == 13,
{
    let mut v: Vec<u8> = Vec::new();
    v.push(0xFF);
    v.push(0xC2);
    v.push(0x00);
    v.push(0x01);
    v.push(0x08);
    v.push(0x95);
    v.push(0x06);
    v.push(0x06);
    v.push(0x00);
    v.push((system_code / 0x100) as u8);
    v.push((system_code % 0x100) as u8);
    v.push(request_code.encode());
    v.push(time_slot.encode());
    assert(v@ =~= polling_frame(system_code, request_code, time_slot));
    v
}

} // verus!
