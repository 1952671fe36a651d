//! Interpretation of the decoded records of a firmware response: the feature
//! record that carries the vendor escape code, the status record and its
//! fixed status-word table, and the response-data record.
use vstd::prelude::*;

use crate::tlv::{find_by_tag, TLVParser, TlvRec};

verus! {

/// Tag of the feature record whose 4-byte big-endian value is the vendor
/// escape-command control code.
pub const FEATURE_CCID_ESC_COMMAND: u8 = 0x13;

/// Tag of the 3-byte status record; its first byte is a fixed marker, the
/// last two bytes are the status word.
pub const RESPONSE_APDU_TAG: u8 = 0xC0;

/// Tag of the record holding the response data of a transparent exchange.
pub const RESPONSE_DATA_APDU_TAG: u8 = 0x97;

/// Typed outcome of the two status bytes the firmware returns, plus
/// `MalformedApdu` for a status record of the wrong length.
#[derive(Clone, Copy, Debug, PartialEq, Eq, Structural)]
pub enum ResponseApduError {
    Success,
    DataNotAvailable,
    NoInformation,
    BadRelatedDataObject,
    NotSupported,
    UnexpectedLength,
    UnexpectedValue,
    IFDNotResponding,
    ICCNotResponding,
    NoPreciseInfo,
    Unknown,
    MalformedApdu,
}

/// The fixed status-word table. Any pair outside it is `Unknown`, itself a
/// reportable outcome, never a decode failure.
pub open spec fn spec_status_outcome(b1: u8, b2: u8) -> ResponseApduError {
    if b1 == 0x90 && b2 == 0x00 {
        ResponseApduError::Success
    } else if b1 == 0x62 && b2 == 0x82 {
        ResponseApduError::DataNotAvailable
    } else if b1 == 0x63 && b2 == 0x00 {
        ResponseApduError::NoInformation
    } else if b1 == 0x63 && b2 == 0x01 {
        ResponseApduError::BadRelatedDataObject
    } else if b1 == 0x6A && b2 == 0x81 {
        ResponseApduError::NotSupported
    } else if b1 == 0x67 && b2 == 0x00 {
        ResponseApduError::UnexpectedLength
    } else if b1 == 0x6A && b2 == 0x80 {
        ResponseApduError::UnexpectedValue
    } else if b1 == 0x64 && b2 == 0x00 {
        ResponseApduError::IFDNotResponding
    } else if b1 == 0x64 && b2 == 0x01 {
        ResponseApduError::ICCNotResponding
    } else if b1 == 0x6F && b2 == 0x00 {
        ResponseApduError::NoPreciseInfo
    } else {
        ResponseApduError::Unknown
    }
}

/// Outcome of the status record among the decoded records: `None` when no
/// status record is present, `MalformedApdu` when it is not exactly 3 bytes,
/// else the table applied to its last two bytes.
pub open spec fn spec_response_apdu_error(recs: Seq<TlvRec>) -> Option<ResponseApduError> {
    match find_by_tag(recs, RESPONSE_APDU_TAG) {
        None => None,
        Some(v) => if v.len() != 3 {
            Some(ResponseApduError::MalformedApdu)
        } else {
            Some(spec_status_outcome(v[1], v[2]))
        },
    }
}

/// The big-endian value of four bytes.
pub open spec fn spec_be32(v: Seq<u8>) -> u32 {
    (v[0] * 0x100_0000 + v[1] * 0x1_0000 + v[2] * 0x100 + v[3]) as u32
}

/// The escape code carried by the feature record: present exactly when the
/// record exists and its value is exactly 4 bytes.
pub open spec fn spec_escape_code(recs: Seq<TlvRec>) -> Option<u32> {
    match find_by_tag(recs, FEATURE_CCID_ESC_COMMAND) {
        None => None,
        Some(v) => if v.len() == 4 {
            Some(spec_be32(v))
        } else {
            None
        },
    }
}

/// Reads the vendor escape code out of a decoded feature-discovery response;
/// a missing record or one of the wrong length yields `None`.
pub fn get_escape_code_from_get_feature_request_response(resp_parser: &TLVParser) -> (r: Option<
    u32,
>)
    ensures
        r == spec_escape_code(resp_parser@),
{
    match resp_parser.find_value_by_tag(FEATURE_CCID_ESC_COMMAND) {
        None => None,
        Some(code_val) => {
            if code_val.len() != 4 {
                None
            } else {
                let code: u32 = (code_val[0] as u32) * 0x100_0000 + (code_val[1] as u32) * 0x1_0000
                    + (code_val[2] as u32) * 0x100 + (code_val[3] as u32);
                Some(code)
            }
        },
    }
}

/// Maps the status record of a decoded response through the status-word
/// table; `None` exactly when no status record is present.
pub fn get_response_apdu_error(resp_parser: &TLVParser) -> (r: Option<ResponseApduError>)
    ensures
        r == spec_response_apdu_error(resp_parser@),
{
    match resp_parser.find_value_by_tag(RESPONSE_APDU_TAG) {
        None => None,
        Some(resp_value) => {
            if resp_value.len() != 3 {
                return Some(ResponseApduError::MalformedApdu);
            }
            let b1 = resp_value[1];
            let b2 = resp_value[2];
            if b1 == 0x90 && b2 == 0x00 {
                Some(ResponseApduError::Success)
            } else if b1 == 0x62 && b2 == 0x82 {
                Some(ResponseApduError::DataNotAvailable)
            } else if b1 == 0x63 && b2 == 0x00 {
                Some(ResponseApduError::NoInformation)
            } else if b1 == 0x63 && b2 == 0x01 {
                Some(ResponseApduError::BadRelatedDataObject)
            } else if b1 == 0x6A && b2 == 0x81 {
                Some(ResponseApduError::NotSupported)
            } else if b1 == 0x67 && b2 == 0x00 {
                Some(ResponseApduError::UnexpectedLength)
            } else if b1 == 0x6A && b2 == 0x80 {
                Some(ResponseApduError::UnexpectedValue)
            } else if b1 == 0x64 && b2 == 0x00 {
                Some(ResponseApduError::IFDNotResponding)
            } else if b1 == 0x64 && b2 == 0x01 {
                Some(ResponseApduError::ICCNotResponding)
            } else if b1 == 0x6F && b2 == 0x00 {
                Some(ResponseApduError::NoPreciseInfo)
            } else {
                Some(ResponseApduError::Unknown)
            }
        },
    }
}

/// The value under the response-data tag of a decoded response.
pub fn get_response_data(resp_parser: &TLVParser) -> (r: Option<Vec<u8>>)
    ensures
        match r {
            Some(v) => find_by_tag(resp_parser@, RESPONSE_DATA_APDU_TAG) == Some(v@),
            None => find_by_tag(resp_parser@, RESPONSE_DATA_APDU_TAG) is None,
        },
{
    resp_parser.find_value_by_tag(RESPONSE_DATA_APDU_TAG)
}

} // verus!
