use nfcf_reader::session::{
    find_reader, ReaderSession, DEFAULT_ESCAPE_CODE, FEATURE_DISCOVERY_CONTROL_CODE,
};
use nfcf_reader::PcscError;

fn tlv_concat(records: &[(u8, &[u8])]) -> Vec<u8> {
    let mut buf: Vec<u8> = Vec::new();
    for (tag, value) in records {
        buf.push(*tag);
        buf.push(value.len() as u8);
        buf.extend_from_slice(value);
    }
    buf
}

fn ok_poll_response(idm: &[u8; 8]) -> Vec<u8> {
    let mut frame = vec![0x12, 0x01];
    frame.extend_from_slice(idm);
    frame.extend_from_slice(&[0xB0; 8]);
    tlv_concat(&[(0xC0, &[0x00, 0x90, 0x00]), (0x97, &frame)])
}

#[test]
fn find_reader_matches_by_prefix_ignoring_suffix() {
    let names: Vec<Vec<u8>> = vec![
        b"Other Reader 00".to_vec(),
        b"ACME Reader (123) 01 00".to_vec(),
        b"ACME Reader (123) 02 00".to_vec(),
    ];
    assert_eq!(find_reader(&names, b"ACME Reader (123)"), Some(1));
}

#[test]
fn find_reader_without_match_is_none() {
    let names: Vec<Vec<u8>> = vec![b"Some Reader".to_vec()];
    assert_eq!(find_reader(&names, b"Another Reader"), None);
    assert_eq!(find_reader(&names, b"Some Reader with a longer name"), None);
}

#[test]
fn capability_requiring_operations_fail_before_acquisition() {
    let mut session = ReaderSession::new();
    assert!(matches!(
        session.start_transparent_session(),
        Err(PcscError::CapabilityCodeMissing)
    ));
    assert!(matches!(
        session.end_transparent_session(),
        Err(PcscError::CapabilityCodeMissing)
    ));
    assert!(matches!(
        session.switch_protocol_to_nfc_f(),
        Err(PcscError::CapabilityCodeMissing)
    ));
    assert!(matches!(
        session.nfc_f_polling(),
        Err(PcscError::CapabilityCodeMissing)
    ));
}

#[test]
fn acquire_with_advertised_code_stores_it() {
    let mut session = ReaderSession::new();
    let response = tlv_concat(&[(0x13, &[0x00, 0x31, 0x35, 0x07])]);
    session.acquire_escape_code_from_reader(&response).unwrap();
    assert_eq!(session.escape_code, Some(0x00313507));
}

#[test]
fn acquire_without_feature_tag_falls_back_to_default() {
    let mut session = ReaderSession::new();
    let response = tlv_concat(&[(0x40, &[0x01])]);
    session.acquire_escape_code_from_reader(&response).unwrap();
    assert_eq!(session.escape_code, Some(DEFAULT_ESCAPE_CODE));
}

#[test]
fn acquire_with_wrong_length_code_falls_back_to_default() {
    let mut session = ReaderSession::new();
    let response = tlv_concat(&[(0x13, &[0x31, 0x35])]);
    session.acquire_escape_code_from_reader(&response).unwrap();
    assert_eq!(session.escape_code, Some(DEFAULT_ESCAPE_CODE));
}

#[test]
fn acquire_with_undecodable_response_is_malformed() {
    let mut session = ReaderSession::new();
    let response = vec![0x13, 0x04, 0x00];
    assert!(matches!(
        session.acquire_escape_code_from_reader(&response),
        Err(PcscError::MalformedResponse)
    ));
    assert_eq!(session.escape_code, None);
}

#[test]
fn feature_discovery_uses_the_fixed_control_code() {
    let req = ReaderSession::feature_discovery_request();
    assert_eq!(req.code, FEATURE_DISCOVERY_CONTROL_CODE);
    assert!(req.payload.is_empty());
}

#[test]
fn release_without_transparent_mode_sends_nothing() {
    let mut session = ReaderSession::new();
    session.use_default_escape_code();
    assert!(session.release_request().is_none());
}

#[test]
fn release_after_transparent_mode_sends_exactly_one_end_session() {
    let mut session = ReaderSession::new();
    session.use_default_escape_code();
    let start = session.start_transparent_session().unwrap();
    assert_eq!(start.payload, vec![0xFF, 0xC2, 0x00, 0x00, 0x02, 0x81, 0x00, 0x00]);
    session.confirm_transparent_session_started();

    let first = session.release_request().unwrap();
    assert_eq!(first.code, DEFAULT_ESCAPE_CODE);
    assert_eq!(first.payload, vec![0xFF, 0xC2, 0x00, 0x00, 0x02, 0x82, 0x00, 0x00]);
    // A second release asks for nothing: the command is sent exactly once,
    // whatever came of the first exchange.
    assert!(session.release_request().is_none());
}

#[test]
fn poll_response_with_card_updates_idm() {
    let mut session = ReaderSession::new();
    session.use_default_escape_code();
    let found = session
        .nfc_f_polling_response(&ok_poll_response(&[1, 2, 3, 4, 5, 6, 7, 8]))
        .unwrap();
    assert!(found);
    assert_eq!(session.idm, vec![1, 2, 3, 4, 5, 6, 7, 8]);
}

#[test]
fn new_session_starts_connected_with_zero_idm() {
    let session = ReaderSession::new();
    assert_eq!(session.escape_code, None);
    assert!(!session.is_transparent_mode);
    assert_eq!(session.idm, vec![0; 8]);
}

#[test]
fn poll_response_with_unexpected_status_is_no_card() {
    let mut session = ReaderSession::new();
    let response = tlv_concat(&[(0xC0, &[0x00, 0x6A, 0x81])]);
    assert_eq!(session.nfc_f_polling_response(&response), Ok(false));
}

#[test]
fn poll_response_without_status_record_is_no_card() {
    let mut session = ReaderSession::new();
    let response = tlv_concat(&[(0x97, &[0x01])]);
    assert_eq!(session.nfc_f_polling_response(&response), Ok(false));
}

#[test]
fn poll_response_with_success_but_no_data_is_no_card() {
    let mut session = ReaderSession::new();
    let response = tlv_concat(&[(0xC0, &[0x00, 0x90, 0x00])]);
    assert_eq!(session.nfc_f_polling_response(&response), Ok(false));
    assert_eq!(session.idm, vec![0; 8]);
}

#[test]
fn poll_response_with_undecodable_buffer_is_malformed() {
    let mut session = ReaderSession::new();
    assert_eq!(
        session.nfc_f_polling_response(&[0xC0]),
        Err(PcscError::MalformedResponse)
    );
}

#[test]
fn poll_response_with_short_frame_is_malformed() {
    let mut session = ReaderSession::new();
    let response = tlv_concat(&[(0xC0, &[0x00, 0x90, 0x00]), (0x97, &[0x03, 0x01, 0xAA])]);
    assert_eq!(
        session.nfc_f_polling_response(&response),
        Err(PcscError::MalformedResponse)
    );
}

#[test]
fn end_to_end_lifecycle_with_default_code() {
    // Connect: the reader is found by prefix among the enumerated names.
    let names: Vec<Vec<u8>> = vec![b"ACME Reader (123) 01 00".to_vec()];
    assert_eq!(find_reader(&names, b"ACME Reader (123)"), Some(0));
    let mut session = ReaderSession::new();

    // Acquire: the firmware returns no feature tag, the default code is used.
    session
        .acquire_escape_code_from_reader(&tlv_concat(&[]))
        .unwrap();
    assert_eq!(session.escape_code, Some(DEFAULT_ESCAPE_CODE));

    // Start the transparent session and switch the protocol.
    let start = session.start_transparent_session().unwrap();
    assert_eq!(start.code, DEFAULT_ESCAPE_CODE);
    session.confirm_transparent_session_started();
    let switch = session.switch_protocol_to_nfc_f().unwrap();
    assert_eq!(
        switch.payload,
        vec![0xFF, 0xC2, 0x00, 0x02, 0x04, 0x8F, 0x02, 0x03, 0x00, 0x00]
    );

    // Poll: a card answers, the stored IDm is updated.
    let poll = session.nfc_f_polling().unwrap();
    assert_eq!(
        poll.payload,
        vec![0xFF, 0xC2, 0x00, 0x01, 0x08, 0x95, 0x06, 0x06, 0x00, 0xFF, 0xFF, 0x00, 0x00]
    );
    let found = session
        .nfc_f_polling_response(&ok_poll_response(&[0x01, 0x02, 0x03, 0x04, 0x05, 0x06, 0x07, 0x08]))
        .unwrap();
    assert!(found);
    assert_eq!(session.idm, vec![0x01, 0x02, 0x03, 0x04, 0x05, 0x06, 0x07, 0x08]);

    // A later poll with "ICC not responding" is the quiet steady state.
    let idle = tlv_concat(&[(0xC0, &[0x00, 0x64, 0x01])]);
    assert_eq!(session.nfc_f_polling_response(&idle), Ok(false));
    assert_eq!(session.idm, vec![0x01, 0x02, 0x03, 0x04, 0x05, 0x06, 0x07, 0x08]);

    // Release sends the one end-session command.
    let end = session.release_request().unwrap();
    assert_eq!(end.payload, vec![0xFF, 0xC2, 0x00, 0x00, 0x02, 0x82, 0x00, 0x00]);
    assert!(session.release_request().is_none());
}
