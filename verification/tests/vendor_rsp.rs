use spdmlib::codec::Writer;
use spdmlib::context::{
    ResponderContext, SpdmConfigInfo, SpdmNegotiateInfo, SpdmRuntimeInfo, SpdmTransportInfo,
};
use spdmlib::protocol::{SpdmBaseHashAlgo, SpdmConnectionState, SpdmResult, SpdmStatus, SpdmVersion};
use spdmlib::vendor::{
    VendorDefinedReqPayloadStruct, VendorDefinedRspPayloadStruct, VendorIDStruct,
};

fn responder() -> ResponderContext {
    ResponderContext::new(
        SpdmNegotiateInfo {
            spdm_version_sel: SpdmVersion::SpdmVersion12,
            rsp_capabilities_sel: 0,
            base_hash_sel: SpdmBaseHashAlgo { bits: 1 },
            dhe_sel: 0,
            aead_sel: 0,
            key_schedule_sel: 0,
            measurement_specification_sel: 0,
            measurement_hash_sel: 0,
            opaque_data_support: 0,
        },
        SpdmConfigInfo { secure_spdm_version: vec![0x12], heartbeat_period: 5 },
        SpdmRuntimeInfo {
            connection_state: SpdmConnectionState::SpdmConnectionNegotiated,
            need_measurement_summary_hash: false,
            message_a: vec![],
            message_m: vec![7],
        },
        SpdmTransportInfo { sequence_number_count: 0, max_random_count: 0 },
    )
}

fn reversing(req: &VendorDefinedReqPayloadStruct) -> SpdmResult<VendorDefinedRspPayloadStruct> {
    let mut v = req.vendor_defined_req_payload.clone();
    v.reverse();
    Ok(VendorDefinedRspPayloadStruct { vendor_defined_rsp_payload: v })
}

fn failing(_req: &VendorDefinedReqPayloadStruct) -> SpdmResult<VendorDefinedRspPayloadStruct> {
    Err(SpdmStatus::Unsupported)
}

fn oversized(_req: &VendorDefinedReqPayloadStruct) -> SpdmResult<VendorDefinedRspPayloadStruct> {
    Ok(VendorDefinedRspPayloadStruct { vendor_defined_rsp_payload: vec![0; 257] })
}

const REQUEST: [u8; 13] =
    [0x12, 0xFE, 0, 0, 0x03, 0x00, 2, 0x86, 0x80, 3, 0, 0xA, 0xB];

#[test]
fn vendor_request_is_answered_with_the_handler_payload() {
    let mut ctx = responder();
    let mut w = Writer::init(64);
    let mut req = REQUEST.to_vec();
    req.push(0xC);
    let (r, rsp) = ctx.handle_spdm_vendor_defined_request(Some(5), &req, &mut w, reversing);
    assert!(r.is_ok());
    assert_eq!(
        rsp.unwrap(),
        &[0x12, 0x7E, 0, 0, 0x03, 0x00, 2, 0x86, 0x80, 3, 0, 0xC, 0xB, 0xA]
    );
    assert!(ctx.common.runtime_info.message_m.is_empty() == false);
}

#[test]
fn vendor_request_outside_a_session_resets_the_connection_transcript() {
    let mut ctx = responder();
    let mut w = Writer::init(64);
    let mut req = REQUEST.to_vec();
    req.push(0xC);
    ctx.write_spdm_vendor_defined_response(None, &req, &mut w, reversing);
    assert!(ctx.common.runtime_info.message_m.is_empty());
}

#[test]
fn vendor_handler_failure_is_an_unspecified_error() {
    let mut ctx = responder();
    let mut w = Writer::init(64);
    let mut req = REQUEST.to_vec();
    req.push(0xC);
    let (r, rsp) = ctx.handle_spdm_vendor_defined_request(None, &req, &mut w, failing);
    assert!(r.is_ok());
    assert_eq!(rsp.unwrap(), &[0x12, 0x7F, 0x05, 0]);
}

#[test]
fn vendor_payload_too_long_to_send_is_an_unspecified_error() {
    let mut ctx = responder();
    let mut w = Writer::init(1024);
    let mut req = REQUEST.to_vec();
    req.push(0xC);
    ctx.write_spdm_vendor_defined_response(None, &req, &mut w, oversized);
    assert_eq!(w.used_slice(), &[0x12, 0x7F, 0x05, 0]);
}

#[test]
fn truncated_vendor_request_is_an_invalid_request() {
    let mut ctx = responder();
    let mut w = Writer::init(64);
    ctx.write_spdm_vendor_defined_response(None, &REQUEST, &mut w, reversing);
    assert_eq!(w.used_slice(), &[0x12, 0x7F, 0x01, 0]);
}

#[test]
fn vendor_id_over_its_bound_is_an_invalid_request() {
    let mut ctx = responder();
    let mut w = Writer::init(64);
    let mut req = vec![0x12, 0xFE, 0, 0, 0x03, 0x00, 65];
    req.extend_from_slice(&[0u8; 65]);
    req.extend_from_slice(&[0, 0]);
    ctx.write_spdm_vendor_defined_response(None, &req, &mut w, reversing);
    assert_eq!(w.used_slice(), &[0x12, 0x7F, 0x01, 0]);
}

#[test]
fn vendor_request_of_another_version_is_a_version_mismatch() {
    let mut ctx = responder();
    let mut w = Writer::init(64);
    let mut req = REQUEST.to_vec();
    req[0] = 0x11;
    req.push(0xC);
    ctx.write_spdm_vendor_defined_response(None, &req, &mut w, reversing);
    assert_eq!(w.used_slice(), &[0x12, 0x7F, 0x41, 0]);
    assert_eq!(ctx.common.runtime_info.message_m, vec![7]);
}

#[test]
fn reply_echoes_the_ids() {
    let mut ctx = responder();
    let mut w = Writer::init(64);
    ctx.write_vendor_defined_reply(
        0x0004,
        VendorIDStruct { vendor_id: vec![1, 2, 3, 4] },
        Ok(VendorDefinedRspPayloadStruct { vendor_defined_rsp_payload: vec![0x55] }),
        &mut w,
    );
    assert_eq!(w.used_slice(), &[0x12, 0x7E, 0, 0, 4, 0, 4, 1, 2, 3, 4, 1, 0, 0x55]);
}

#[test]
fn respond_to_vendor_defined_request_returns_the_handler_result() {
    let mut ctx = responder();
    let req = VendorDefinedReqPayloadStruct { vendor_defined_req_payload: vec![1, 2, 3] };
    let rsp = ctx.respond_to_vendor_defined_request(&req, reversing).unwrap();
    assert_eq!(rsp.vendor_defined_rsp_payload, vec![3, 2, 1]);
    assert_eq!(ctx.respond_to_vendor_defined_request(&req, failing).err(), Some(SpdmStatus::Unsupported));
}
