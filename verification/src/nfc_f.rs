//! Decoder for the fixed-layout NFC-F polling response frame held under the
//! response-data tag: one length byte (unused), the response-code marker
//! `0x01`, 8 bytes of IDm, 8 bytes of PMm, and optionally 2 more bytes of
//! requested data.
use vstd::prelude::*;
use vstd::slice::*;

use crate::PcscError;

verus! {

pub const IDM_LENGTH: usize = 8;

pub const PMM_LENGTH: usize = 8;

/// Wire value of the polling response-code marker.
pub const POLLING_RESPONSE_CODE: u8 = 0x01;

/// Mathematical image of a decoded polling response.
pub ghost struct PollingResponseModel {
    pub idm: Seq<u8>,
    pub pmm: Seq<u8>,
    pub requested_data: Option<Seq<u8>>,
}

/// The identifier fields of one polling response.
pub struct PollingResponse {
    pub idm: Vec<u8>,
    pub pmm: Vec<u8>,
    pub requested_data: Option<Vec<u8>>,
}

impl View for PollingResponse {
    type V = PollingResponseModel;

    open spec fn view(&self) -> PollingResponseModel {
        PollingResponseModel {
            idm: self.idm@,
            pmm: self.pmm@,
            requested_data: match self.requested_data {
                Some(d) => Some(d@),
                None => None,
            },
        }
    }
}

/// What a polling-response buffer decodes to: after the length byte, the
/// second byte must be the response-code marker and at least 16 bytes must
/// follow it; two further bytes, when present, are the requested data.
pub open spec fn spec_parse_polling_response(s: Seq<u8>) -> Option<PollingResponseModel> {
    if s.len() < 18 || s[1] != POLLING_RESPONSE_CODE {
        None
    } else {
        Some(
            PollingResponseModel {
                idm: s.subrange(2, 10),
                pmm: s.subrange(10, 18),
                requested_data: if s.len() >= 20 {
                    Some(s.subrange(18, 20))
                } else {
                    None
                },
            },
        )
    }
}

impl PollingResponse {
    /// Decodes the raw bytes held under the response-data tag; fails exactly
    /// when the frame is shorter than required or the marker is wrong.
    pub fn parse_from_data(data: &[u8]) -> (r: Result<PollingResponse, PcscError>)
        ensures
            match r {
                Ok(p) => spec_parse_polling_response(data@) == Some(p@),
                Err(e) => spec_parse_polling_response(data@) is None && e
                    == PcscError::MalformedResponse,
            },
    {
        if data.len() < 18 {
            return Err(PcscError::MalformedResponse);
        }
        if *slice_index_get(data, 1) != POLLING_RESPONSE_CODE {
            return Err(PcscError::MalformedResponse);
        }
        let idm: Vec<u8> = slice_to_vec(slice_subrange(data, 2, 10));
        let pmm: Vec<u8> = slice_to_vec(slice_subrange(data, 10, 18));
        let requested_data: Option<Vec<u8>> = if data.len() >= 20 {
            Some(slice_to_vec(slice_subrange(data, 18, 20)))
        } else {
            None
        };
        Ok(PollingResponse { idm, pmm, requested_data })
    }
}

} // verus!
