use sha2::{Digest, Sha256};
use spdmlib::context::{
    ResponderContext, SpdmConfigInfo, SpdmNegotiateInfo, SpdmRuntimeInfo, SpdmTransportInfo,
    MAX_SPDM_MESSAGE_BUFFER_SIZE,
};
use spdmlib::protocol::{
    SpdmBaseHashAlgo, SpdmConnectionState, SpdmRequestResponseCode, SpdmStatus, SpdmVersion,
};
use spdmlib::software_crypto::SpdmSoftwareCrypto;

fn responder() -> ResponderContext {
    let mut ctx = ResponderContext::new(
        SpdmNegotiateInfo {
            spdm_version_sel: SpdmVersion::SpdmVersion12,
            rsp_capabilities_sel: 0,
            base_hash_sel: SpdmBaseHashAlgo { bits: 1 },
            dhe_sel: 0,
            aead_sel: 0,
            key_schedule_sel: 0,
            measurement_specification_sel: 0,
            measurement_hash_sel: 0,
            opaque_data_support: 0,
        },
        SpdmConfigInfo { secure_spdm_version: vec![0x12], heartbeat_period: 0 },
        SpdmRuntimeInfo {
            connection_state: SpdmConnectionState::SpdmConnectionNegotiated,
            need_measurement_summary_hash: false,
            message_a: vec![1, 2],
            message_m: vec![3],
        },
        SpdmTransportInfo { sequence_number_count: 0, max_random_count: 0 },
    );
    ctx.common.session[1].session_id = 0xFFFC_0007;
    ctx.common.session[1].runtime_info.message_m = vec![4];
    ctx
}

#[test]
fn new_responder_has_four_unused_sessions() {
    let ctx = ResponderContext::new(
        responder().common.negotiate_info,
        SpdmConfigInfo { secure_spdm_version: vec![], heartbeat_period: 0 },
        SpdmRuntimeInfo {
            connection_state: SpdmConnectionState::SpdmConnectionNotStarted,
            need_measurement_summary_hash: false,
            message_a: vec![],
            message_m: vec![],
        },
        SpdmTransportInfo { sequence_number_count: 0, max_random_count: 0 },
    );
    assert_eq!(ctx.common.session.len(), 4);
    assert!(ctx.common.session.iter().all(|s| s.session_id == 0));
}

#[test]
fn get_measurements_keeps_the_measurement_transcripts() {
    let mut ctx = responder();
    ctx.common.reset_buffer_via_request_code(SpdmRequestResponseCode::SpdmRequestGetMeasurements, None);
    assert_eq!(ctx.common.runtime_info.message_m, vec![3]);
    ctx.common.reset_buffer_via_request_code(
        SpdmRequestResponseCode::SpdmRequestGetMeasurements,
        Some(0xFFFC_0007),
    );
    assert_eq!(ctx.common.session[1].runtime_info.message_m, vec![4]);
}

#[test]
fn other_requests_reset_the_transcript_they_belong_to() {
    let mut ctx = responder();
    ctx.common.reset_buffer_via_request_code(SpdmRequestResponseCode::SpdmRequestHeartbeat, Some(0xFFFC_0007));
    assert!(ctx.common.session[1].runtime_info.message_m.is_empty());
    assert_eq!(ctx.common.runtime_info.message_m, vec![3]);
    ctx.common.reset_buffer_via_request_code(SpdmRequestResponseCode::SpdmRequestHeartbeat, None);
    assert!(ctx.common.runtime_info.message_m.is_empty());
}

#[test]
fn half_session_ids_come_from_the_first_free_slot() {
    let mut ctx = responder();
    assert_eq!(ctx.common.get_next_half_session_id(false), Ok(0xFFFD));
    ctx.common.session[0].session_id = 0xFFFD_0001;
    assert_eq!(ctx.common.get_next_half_session_id(false), Ok(0xFFFB));
    assert_eq!(ctx.common.get_next_half_session_id(true), Ok(0xFFFB));
    assert_eq!(ctx.common.get_next_avaiable_session(), Some(2));
    ctx.common.session[2].session_id = 0xFFFB_0001;
    ctx.common.session[3].session_id = 0xFFFA_0001;
    assert_eq!(ctx.common.get_next_half_session_id(false), Err(SpdmStatus::InvalidStateLocal));
    assert_eq!(ctx.common.get_next_avaiable_session(), None);
}

#[test]
fn sessions_are_found_by_id() {
    let ctx = responder();
    assert_eq!(ctx.common.find_session(0xFFFC_0007), Some(1));
    assert_eq!(ctx.common.find_session(0xFFFC_0008), None);
    assert_eq!(ctx.common.find_session(0), None);
}

#[test]
fn message_k_grows_up_to_its_bound() {
    let mut ctx = responder();
    assert_eq!(ctx.common.append_message_k(0xFFFC_0007, &[1, 2]), Ok(()));
    assert_eq!(ctx.common.append_message_k(0xFFFC_0007, &[3]), Ok(()));
    assert_eq!(ctx.common.session[1].runtime_info.message_k, vec![1, 2, 3]);
    assert_eq!(ctx.common.append_message_k(0x1234_5678, &[3]), Err(SpdmStatus::InvalidParameter));
    let big = vec![0u8; MAX_SPDM_MESSAGE_BUFFER_SIZE - 3];
    assert_eq!(ctx.common.append_message_k(0xFFFC_0007, &big), Ok(()));
    assert_eq!(ctx.common.append_message_k(0xFFFC_0007, &[1]), Err(SpdmStatus::InvalidStateLocal));
    assert_eq!(ctx.common.session[1].runtime_info.message_k.len(), MAX_SPDM_MESSAGE_BUFFER_SIZE);
}

#[test]
fn transcript_hash_covers_message_a_then_message_k() {
    let mut ctx = responder();
    ctx.common.session[1].runtime_info.message_a = vec![1, 2];
    ctx.common.session[1].runtime_info.message_k = vec![5, 6, 7];
    let crypto = SpdmSoftwareCrypto {
        psk_hint: vec![],
        psk: vec![],
        tcb_measurements: vec![],
        all_measurements: vec![],
    };
    let th = ctx.common.calc_rsp_transcript_hash(&crypto, &ctx.common.session[1]).unwrap();
    assert_eq!(th, Sha256::digest([1u8, 2, 5, 6, 7]).to_vec());
}
