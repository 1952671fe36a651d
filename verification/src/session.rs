//! The reader-session state machine. It owns the acquired capability
//! (escape) code, the transparent-mode flag and the last observed IDm, and
//! sequences the only valid lifecycle: acquire the capability code, start a
//! transparent session, switch the RF protocol, poll repeatedly, end the
//! session on release.
//!
//! Every exchange with the reader is a blocking round-trip the caller
//! performs: the methods here build each outbound `ControlRequest` and
//! consume each response buffer, so the whole decision layer is checked
//! while the control channel stays outside.
use vstd::prelude::*;

use crate::apdu::{
    end_session_bytes, polling_frame, start_session_bytes, switch_to_nfc_f_bytes, end_session_apdu,
    polling, start_session_apdu, switch_to_nfc_f_apdu, RequestCode, TimeSlot, SYSTEM_ALL,
};
use crate::nfc_f::{spec_parse_polling_response, PollingResponse, IDM_LENGTH};
use crate::parser::{
    get_escape_code_from_get_feature_request_response, get_response_apdu_error, get_response_data,
    spec_escape_code, spec_response_apdu_error, ResponseApduError, RESPONSE_DATA_APDU_TAG,
};
use crate::tlv::{find_by_tag, tlv_decode, TLVParser};
use crate::PcscError;

verus! {

/// Control code reserved for feature discovery; it needs no capability code.
/// This is the pcsclite encoding of card-service control function 3400.
pub const FEATURE_DISCOVERY_CONTROL_CODE: u32 = 0x4200_0000 + 3400;

/// Capability code used when feature discovery yields nothing: the pcsclite
/// encoding of card-service control function 3500.
pub const DEFAULT_ESCAPE_CODE: u32 = 0x4200_0000 + 3500;

/// One outbound control exchange: the control code to address the firmware
/// with and the request payload to hand it.
pub struct ControlRequest {
    pub code: u32,
    pub payload: Vec<u8>,
}

/// Whether the first sequence is an exact byte prefix of the second.
pub open spec fn is_prefix_of(p: Seq<u8>, s: Seq<u8>) -> bool {
    p.len() <= s.len() && s.subrange(0, p.len() as int) == p
}

/// First-match search over the enumerated reader names: the index of the
/// first name the prefix matches, since the real device name carries a
/// trailing suffix the caller wants to ignore.
pub fn find_reader(names: &Vec<Vec<u8>>, prefix: &[u8]) -> (r: Option<usize>)
    ensures
        match r {
            Some(i) => {
                &&& i < names@.len()
                &&& is_prefix_of(prefix@, names@[i as int]@)
                &&& forall|k: int| 0 <= k < i ==> !is_prefix_of(prefix@, names@[k]@)
            },
            None => forall|k: int| 0 <= k < names@.len() ==> !is_prefix_of(prefix@, names@[k]@),
        },
{
    let mut i: usize = 0;
    while i < names.len()
        invariant
            i <= names@.len(),
            forall|k: int| 0 <= k < i ==> !is_prefix_of(prefix@, names@[k]@),
        decreases names@.len() - i,
    {
        if starts_with(&names[i], prefix) {
            return Some(i);
        }
        i = i + 1;
    }
    None
}

/// Whether the name begins with the given byte prefix.
fn starts_with(name: &Vec<u8>, prefix: &[u8]) -> (r: bool)
    ensures
        r == is_prefix_of(prefix@, name@),
{
    if name.len() < prefix.len() {
        assert(!is_prefix_of(prefix@, name@));
        return false;
    }
    let mut j: usize = 0;
    while j < prefix.len()
        invariant
            j <= prefix@.len(),
            prefix@.len() <= name@.len(),
            forall|k: int| 0 <= k < j ==> name@[k] == prefix@[k],
        decreases prefix@.len() - j,
    {
        if *vstd::slice::slice_index_get(prefix, j) != name[j] {
            assert(name@.subrange(0, prefix@.len() as int)[j as int] != prefix@[j as int]);
            return false;
        }
        j = j + 1;
    }
    assert(name@.subrange(0, prefix@.len() as int) =~= prefix@);
    true
}

/// What one poll decides from a response buffer: a decode failure, no card,
/// or a fresh IDm. Tracks the buffer through the record decoder, the status
/// table and the polling-response decoder.
pub open spec fn spec_poll_outcome(s: Seq<u8>) -> Result<Option<Seq<u8>>, PcscError> {
    match tlv_decode(s) {
        None => Err(PcscError::MalformedResponse),
        Some(recs) => match spec_response_apdu_error(recs) {
            None => Ok(None),
            Some(status) => if status is Success {
                match find_by_tag(recs, RESPONSE_DATA_APDU_TAG) {
                    None => Ok(None),
                    Some(d) => match spec_parse_polling_response(d) {
                        None => Err(PcscError::MalformedResponse),
                        Some(p) => Ok(Some(p.idm)),
                    },
                }
            } else {
                Ok(None)
            },
        },
    }
}

/// The single stateful entity of the protocol layer.
pub struct ReaderSession {
    /// Acquired or defaulted vendor escape code; `None` until acquisition.
    pub escape_code: Option<u32>,
    /// True only between a successful session start and its end.
    pub is_transparent_mode: bool,
    /// The 8 bytes of the most recently observed IDm, zero-filled initially.
    pub idm: Vec<u8>,
}

impl ReaderSession {
    /// The session invariant: the IDm slot always holds exactly 8 bytes, and
    /// transparent mode is only ever reached with a capability code in hand.
    pub open spec fn wf(self) -> bool {
        &&& self.idm@.len() == IDM_LENGTH
        &&& (self.is_transparent_mode ==> self.escape_code is Some)
    }

    /// A fresh session right after the device connect: no capability code,
    /// not in transparent mode, IDm zero-filled.
    pub fn new() -> (s: ReaderSession)
        ensures
            s.wf(),
            s.escape_code is None,
            !s.is_transparent_mode,
            s.idm@ =~= Seq::new(IDM_LENGTH as nat, |i: int| 0u8),
    {
        let mut idm: Vec<u8> = Vec::new();
        let mut k: usize = 0;
        while k < IDM_LENGTH
            invariant
                k <= IDM_LENGTH,
                idm@ =~= Seq::new(k as nat, |i: int| 0u8),
            decreases IDM_LENGTH - k,
        {
            idm.push(0);
            k = k + 1;
        }
        ReaderSession { escape_code: None, is_transparent_mode: false, idm }
    }

    /// Falls back to the fixed default capability code.
    pub fn use_default_escape_code(&mut self)
        ensures
            final(self).escape_code == Some(DEFAULT_ESCAPE_CODE),
            final(self).is_transparent_mode == old(self).is_transparent_mode,
            final(self).idm == old(self).idm,
    {
        self.escape_code = Some(DEFAULT_ESCAPE_CODE);
    }

    /// The feature-discovery exchange: fixed control code, empty payload.
    pub fn feature_discovery_request() -> (r: ControlRequest)
        ensures
            r.code == FEATURE_DISCOVERY_CONTROL_CODE,
            r.payload@ =~= Seq::<u8>::empty(),
    {
        ControlRequest { code: FEATURE_DISCOVERY_CONTROL_CODE, payload: Vec::new() }
    }

    /// Consumes the feature-discovery response: stores the advertised escape
    /// code, or the default when the feature record is absent or malformed —
    /// that path never fails. Only an undecodable buffer is an error, and it
    /// leaves the session untouched.
    pub fn acquire_escape_code_from_reader(&mut self, response: &[u8]) -> (r: Result<
        (),
        PcscError,
    >)
        ensures
            final(self).is_transparent_mode == old(self).is_transparent_mode,
            final(self).idm == old(self).idm,
            old(self).wf() ==> final(self).wf(),
            match r {
                Ok(_) => {
                    &&& tlv_decode(response@) matches Some(recs)
                    &&& final(self).escape_code == (match spec_escape_code(recs) {
                        Some(c) => Some(c),
                        None => Some(DEFAULT_ESCAPE_CODE),
                    })
                },
                Err(e) => {
                    &&& tlv_decode(response@) is None
                    &&& e == PcscError::MalformedResponse
                    &&& *final(self) == *old(self)
                },
            },
    {
        let resp_parser = match TLVParser::parse_slice(response) {
            Ok(p) => p,
            Err(e) => {
                return Err(e);
            },
        };
        match get_escape_code_from_get_feature_request_response(&resp_parser) {
            Some(code) => {
                self.escape_code = Some(code);
            },
            None => {
                self.use_default_escape_code();
            },
        }
        Ok(())
    }

    /// The start-session exchange, owed exactly when a capability code is in
    /// hand; without one it fails with `CapabilityCodeMissing`.
    pub fn start_transparent_session(&self) -> (r: Result<ControlRequest, PcscError>)
        ensures
            match r {
                Ok(req) => {
                    &&& self.escape_code == Some(req.code)
                    &&& req.payload@ == start_session_bytes()
                },
                Err(e) => {
                    &&& self.escape_code is None
                    &&& e == PcscError::CapabilityCodeMissing
                },
            },
    {
        match self.escape_code {
            Some(code) => Ok(ControlRequest { code, payload: start_session_apdu() }),
            None => Err(PcscError::CapabilityCodeMissing),
        }
    }

    /// Records that the start-session exchange succeeded: only then does the
    /// session enter transparent mode.
    pub fn confirm_transparent_session_started(&mut self)
        requires
            old(self).escape_code is Some,
        ensures
            final(self).is_transparent_mode,
            final(self).escape_code == old(self).escape_code,
            final(self).idm == old(self).idm,
            old(self).wf() ==> final(self).wf(),
    {
        self.is_transparent_mode = true;
    }

    /// The end-session exchange, under the same capability rule as the start.
    pub fn end_transparent_session(&self) -> (r: Result<ControlRequest, PcscError>)
        ensures
            match r {
                Ok(req) => {
                    &&& self.escape_code == Some(req.code)
                    &&& req.payload@ == end_session_bytes()
                },
                Err(e) => {
                    &&& self.escape_code is None
                    &&& e == PcscError::CapabilityCodeMissing
                },
            },
    {
        match self.escape_code {
            Some(code) => Ok(ControlRequest { code, payload: end_session_apdu() }),
            None => Err(PcscError::CapabilityCodeMissing),
        }
    }

    /// Records that the end-session exchange was attempted: the session
    /// leaves transparent mode whatever the exchange returned.
    pub fn confirm_transparent_session_ended(&mut self)
        ensures
            !final(self).is_transparent_mode,
            final(self).escape_code == old(self).escape_code,
            final(self).idm == old(self).idm,
            old(self).wf() ==> final(self).wf(),
    {
        self.is_transparent_mode = false;
    }

    /// The switch-to-NFC-F exchange, under the same capability rule; the
    /// session state does not change.
    pub fn switch_protocol_to_nfc_f(&self) -> (r: Result<ControlRequest, PcscError>)
        ensures
            match r {
                Ok(req) => {
                    &&& self.escape_code == Some(req.code)
                    &&& req.payload@ == switch_to_nfc_f_bytes()
                },
                Err(e) => {
                    &&& self.escape_code is None
                    &&& e == PcscError::CapabilityCodeMissing
                },
            },
    {
        match self.escape_code {
            Some(code) => Ok(ControlRequest { code, payload: switch_to_nfc_f_apdu() }),
            None => Err(PcscError::CapabilityCodeMissing),
        }
    }

    /// The polling exchange: the 13-byte frame with the wildcard system
    /// code, no extra request and one time slot, under the capability rule.
    pub fn nfc_f_polling(&self) -> (r: Result<ControlRequest, PcscError>)
        ensures
            match r {
                Ok(req) => {
                    &&& self.escape_code == Some(req.code)
                    &&& req.payload@ == polling_frame(
                        SYSTEM_ALL,
                        RequestCode::NoRequest,
                        TimeSlot::Slot1,
                    )
                },
                Err(e) => {
                    &&& self.escape_code is None
                    &&& e == PcscError::CapabilityCodeMissing
                },
            },
    {
        match self.escape_code {
            Some(code) => Ok(
                ControlRequest {
                    code,
                    payload: polling(SYSTEM_ALL, RequestCode::NoRequest, TimeSlot::Slot1),
                },
            ),
            None => Err(PcscError::CapabilityCodeMissing),
        }
    }

    /// Consumes one polling response. Returns `Ok(true)` and stores the IDm
    /// exactly when the status is success and a well-formed polling frame is
    /// present under the response-data tag; `Ok(false)` with the IDm kept
    /// when the status is absent, not success, or success without response
    /// data; an error exactly when a buffer fails to decode.
    pub fn nfc_f_polling_response(&mut self, response: &[u8]) -> (r: Result<bool, PcscError>)
        ensures
            final(self).escape_code == old(self).escape_code,
            final(self).is_transparent_mode == old(self).is_transparent_mode,
            old(self).wf() ==> final(self).wf(),
            match spec_poll_outcome(response@) {
                Err(e) => r == Err::<bool, PcscError>(e) && final(self).idm == old(self).idm,
                Ok(None) => r == Ok::<bool, PcscError>(false) && final(self).idm == old(self).idm,
                Ok(Some(idm)) => r == Ok::<bool, PcscError>(true) && final(self).idm@ == idm,
            },
    {
        let resp_parser = match TLVParser::parse_slice(response) {
            Ok(p) => p,
            Err(e) => {
                return Err(e);
            },
        };
        match get_response_apdu_error(&resp_parser) {
            None => Ok(false),
            Some(status) => match status {
                ResponseApduError::Success => {
                    match get_response_data(&resp_parser) {
                        None => {
                            // The firmware claimed success yet supplied no
                            // data: treated as no card, not as an error.
                            Ok(false)
                        },
                        Some(data) => {
                            let polling_resp = match PollingResponse::parse_from_data(
                                data.as_slice(),
                            ) {
                                Ok(p) => p,
                                Err(e) => {
                                    return Err(e);
                                },
                            };
                            self.idm = polling_resp.idm;
                            Ok(true)
                        },
                    }
                },
                ResponseApduError::ICCNotResponding => {
                    // Steady state while no card is in range.
                    Ok(false)
                },
                _ => Ok(false),
            },
        }
    }

    /// The release path: exactly one end-session exchange is owed when the
    /// session is still in transparent mode, none otherwise. Clearing the
    /// flag here is what makes a second release ask for nothing.
    pub fn release_request(&mut self) -> (r: Option<ControlRequest>)
        requires
            old(self).wf(),
        ensures
            final(self).wf(),
            !final(self).is_transparent_mode,
            final(self).escape_code == old(self).escape_code,
            final(self).idm == old(self).idm,
            match r {
                Some(req) => {
                    &&& old(self).is_transparent_mode
                    &&& old(self).escape_code == Some(req.code)
                    &&& req.payload@ == end_session_bytes()
                },
                None => !old(self).is_transparent_mode,
            },
    {
        if self.is_transparent_mode {
            self.is_transparent_mode = false;
            match self.escape_code {
                Some(code) => Some(ControlRequest { code, payload: end_session_apdu() }),
                None => {
                    // Ruled out by the invariant: transparent mode implies a
                    // capability code.
                    assert(false);
                    None
                },
            }
        } else {
            None
        }
    }
}

} // verus!
