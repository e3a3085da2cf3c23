use spdmlib::codec::Writer;
use spdmlib::context::{
    ResponderContext, SpdmConfigInfo, SpdmNegotiateInfo, SpdmRuntimeInfo, SpdmTransportInfo,
};
use spdmlib::protocol::{SpdmBaseHashAlgo, SpdmConnectionState, SpdmVersion};

fn responder() -> ResponderContext {
    ResponderContext::new(
        SpdmNegotiateInfo {
            spdm_version_sel: SpdmVersion::SpdmVersion12,
            rsp_capabilities_sel: 0,
            base_hash_sel: SpdmBaseHashAlgo { bits: 1 },
            dhe_sel: 0,
            aead_sel: 0,
            key_schedule_sel: 0,
            measurement_specification_sel: 0,
            measurement_hash_sel: 0,
            opaque_data_support: 0,
        },
        SpdmConfigInfo { secure_spdm_version: vec![0x12], heartbeat_period: 5 },
        SpdmRuntimeInfo {
            connection_state: SpdmConnectionState::SpdmConnectionNegotiated,
            need_measurement_summary_hash: false,
            message_a: vec![],
            message_m: vec![9, 9],
        },
        SpdmTransportInfo { sequence_number_count: 0, max_random_count: 0 },
    )
}

#[test]
fn heartbeat_is_acknowledged() {
    let mut ctx = responder();
    let mut w = Writer::init(64);
    let (r, rsp) = ctx.handle_spdm_heartbeat(0x1234_5678, &[0x12, 0xE8, 0, 0], &mut w);
    assert!(r.is_ok());
    assert_eq!(rsp.unwrap(), &[0x12, 0x68, 0, 0]);
}

#[test]
fn heartbeat_resets_the_measurement_transcript_of_its_session() {
    let mut ctx = responder();
    ctx.common.session[0].session_id = 0xFFFD_0001;
    ctx.common.session[0].runtime_info.message_m = vec![1, 2, 3];
    let mut w = Writer::init(64);
    ctx.write_spdm_heartbeat_response(0xFFFD_0001, &[0x12, 0xE8, 0, 0], &mut w);
    assert!(ctx.common.session[0].runtime_info.message_m.is_empty());
    assert_eq!(ctx.common.runtime_info.message_m, vec![9, 9]);
}

#[test]
fn heartbeat_without_parameters_is_an_invalid_request() {
    let mut ctx = responder();
    let mut w = Writer::init(64);
    ctx.write_spdm_heartbeat_response(1, &[0x12, 0xE8, 0], &mut w);
    assert_eq!(w.used_slice(), &[0x12, 0x7F, 0x01, 0]);
}

#[test]
fn heartbeat_of_another_version_is_a_version_mismatch() {
    let mut ctx = responder();
    ctx.common.session[0].session_id = 0xFFFD_0001;
    ctx.common.session[0].runtime_info.message_m = vec![1];
    let mut w = Writer::init(64);
    ctx.write_spdm_heartbeat_response(0xFFFD_0001, &[0x11, 0xE8, 0, 0], &mut w);
    assert_eq!(w.used_slice(), &[0x12, 0x7F, 0x41, 0]);
    assert_eq!(ctx.common.session[0].runtime_info.message_m, vec![1]);
}

#[test]
fn heartbeat_ack_is_appended_to_what_the_writer_held() {
    let mut ctx = responder();
    let mut w = Writer::init(64);
    assert_eq!(w.push(0xAA), Some(1));
    ctx.write_spdm_heartbeat_response(1, &[0x12, 0xE8, 0, 0], &mut w);
    assert_eq!(w.used_slice(), &[0xAA, 0x12, 0x68, 0, 0]);
}

#[test]
fn heartbeat_ack_that_does_not_fit_becomes_an_unspecified_error() {
    let mut ctx = responder();
    let mut w = Writer::init(5);
    assert_eq!(w.extend_from_slice(&[1, 2, 3]), Some(3));
    ctx.write_spdm_heartbeat_response(1, &[0x12, 0xE8, 0, 0], &mut w);
    assert_eq!(w.used_slice(), &[0x12, 0x7F, 0x05, 0]);
}
