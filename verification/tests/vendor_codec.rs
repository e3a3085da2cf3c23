use spdmlib::message::{Reader, SpdmMessageHeader};
use spdmlib::protocol::{SpdmRequestResponseCode, SpdmVersion};
use spdmlib::vendor::{
    SpdmVendorDefinedRequestPayload, SpdmVendorDefinedResponsePayload, VendorDefinedRspPayloadStruct,
    VendorIDStruct,
};

#[test]
fn vendor_body_reads_back_what_was_encoded() {
    let p = SpdmVendorDefinedResponsePayload {
        standard_id: 0x0102,
        vendor_id: VendorIDStruct { vendor_id: vec![7, 8, 9] },
        rsp_payload: VendorDefinedRspPayloadStruct { vendor_defined_rsp_payload: vec![0xAB; 10] },
    };
    let bytes: Vec<u8> = p.message_fields(SpdmVersion::SpdmVersion12).unwrap().concat();
    let mut r = Reader::init(&bytes);
    let h = SpdmMessageHeader::read(&mut r).unwrap();
    assert_eq!(h.request_response_code, SpdmRequestResponseCode::SpdmResponseVendorDefinedResponse);
    let q = SpdmVendorDefinedRequestPayload::spdm_read(&mut r).unwrap();
    assert_eq!(q.standard_id, 0x0102);
    assert_eq!(q.vendor_id.vendor_id, vec![7, 8, 9]);
    assert_eq!(q.req_payload.vendor_defined_req_payload, vec![0xAB; 10]);
    assert_eq!(r.used(), bytes.len());
}

#[test]
fn vendor_payload_over_its_bound_is_not_encoded() {
    let p = SpdmVendorDefinedResponsePayload {
        standard_id: 0,
        vendor_id: VendorIDStruct { vendor_id: vec![] },
        rsp_payload: VendorDefinedRspPayloadStruct { vendor_defined_rsp_payload: vec![0; 257] },
    };
    assert!(p.message_fields(SpdmVersion::SpdmVersion12).is_none());
}
