use spdmlib::codec::Writer;
use spdmlib::context::{
    ResponderContext, SpdmConfigInfo, SpdmNegotiateInfo, SpdmRuntimeInfo, SpdmTransportInfo,
};
use spdmlib::protocol::{SpdmBaseHashAlgo, SpdmConnectionState, SpdmErrorCode, SpdmVersion};

fn responder(version: SpdmVersion) -> ResponderContext {
    ResponderContext::new(
        SpdmNegotiateInfo {
            spdm_version_sel: version,
            rsp_capabilities_sel: 0,
            base_hash_sel: SpdmBaseHashAlgo { bits: 1 },
            dhe_sel: 0,
            aead_sel: 0,
            key_schedule_sel: 0,
            measurement_specification_sel: 0,
            measurement_hash_sel: 0,
            opaque_data_support: 0,
        },
        SpdmConfigInfo { secure_spdm_version: vec![0x10, 0x11], heartbeat_period: 5 },
        SpdmRuntimeInfo {
            connection_state: SpdmConnectionState::SpdmConnectionNegotiated,
            need_measurement_summary_hash: false,
            message_a: vec![],
            message_m: vec![],
        },
        SpdmTransportInfo { sequence_number_count: 0, max_random_count: 0 },
    )
}

#[test]
fn write_spdm_error_writes_four_bytes() {
    let mut ctx = responder(SpdmVersion::SpdmVersion12);
    let mut w = Writer::init(64);
    ctx.write_spdm_error(SpdmErrorCode::SpdmErrorBusy, 7, &mut w);
    assert_eq!(w.used_slice(), &[0x12, 0x7F, 0x03, 7]);
}

#[test]
fn write_spdm_error_before_negotiation_uses_version_1_0() {
    let mut ctx = responder(SpdmVersion::Unknown(0));
    let mut w = Writer::init(64);
    ctx.write_spdm_error(SpdmErrorCode::SpdmErrorVersionMismatch, 0, &mut w);
    assert_eq!(w.used_slice(), &[0x10, 0x7F, 0x41, 0]);
}

#[test]
fn write_spdm_error_replaces_what_the_writer_held() {
    let mut ctx = responder(SpdmVersion::SpdmVersion11);
    let mut w = Writer::init(64);
    assert_eq!(w.extend_from_slice(&[1, 2, 3, 4, 5]), Some(5));
    ctx.write_spdm_error(SpdmErrorCode::SpdmErrorUnspecified, 0, &mut w);
    assert_eq!(w.used_slice(), &[0x11, 0x7F, 0x05, 0]);
}

#[test]
fn write_spdm_error_into_a_small_buffer_keeps_the_fields_that_fit() {
    let mut ctx = responder(SpdmVersion::SpdmVersion12);
    let mut w = Writer::init(3);
    ctx.write_spdm_error(SpdmErrorCode::SpdmErrorBusy, 9, &mut w);
    assert_eq!(w.used_slice(), &[0x12, 0x7F, 0x03]);
}

#[test]
fn unsupported_request_echoes_the_request_code() {
    let mut ctx = responder(SpdmVersion::SpdmVersion12);
    let mut w = Writer::init(64);
    let (r, rsp) =
        ctx.handle_error_request(SpdmErrorCode::SpdmErrorUnsupportedRequest, &[0x12, 0xE9, 1, 2], &mut w);
    assert!(r.is_ok());
    assert_eq!(rsp.unwrap(), &[0x12, 0x7F, 0x07, 0xE9]);
}

#[test]
fn other_errors_carry_zero_error_data() {
    let mut ctx = responder(SpdmVersion::SpdmVersion12);
    let mut w = Writer::init(64);
    let (r, rsp) = ctx.handle_error_request(SpdmErrorCode::SpdmErrorBusy, &[0x12, 0xE9], &mut w);
    assert!(r.is_ok());
    assert_eq!(rsp.unwrap(), &[0x12, 0x7F, 0x03, 0]);
}

#[test]
fn error_request_of_another_version_is_a_version_mismatch() {
    let mut ctx = responder(SpdmVersion::SpdmVersion12);
    let mut w = Writer::init(64);
    let (r, rsp) =
        ctx.handle_error_request(SpdmErrorCode::SpdmErrorUnsupportedRequest, &[0x11, 0xE9], &mut w);
    assert!(r.is_ok());
    assert_eq!(rsp.unwrap(), &[0x12, 0x7F, 0x41, 0]);
}

#[test]
fn error_request_without_header_is_an_invalid_request() {
    let mut ctx = responder(SpdmVersion::SpdmVersion12);
    let mut w = Writer::init(64);
    ctx.write_error_response(SpdmErrorCode::SpdmErrorUnsupportedRequest, &[0x12], &mut w);
    assert_eq!(w.used_slice(), &[0x12, 0x7F, 0x01, 0]);
}
