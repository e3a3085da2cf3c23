use vstd::prelude::*;

use crate::codec::{write_fields, Writer};
use crate::context::{spec_reset_buffer, ResponderContext};
use crate::message::{Reader, SpdmMessageHeader};
use crate::protocol::{SpdmErrorCode, SpdmRequestResponseCode, SpdmResult, SpdmStatus, SpdmVersion};
use crate::responder::error_rsp::spec_error_written;
use crate::responder::heartbeat_rsp::{spec_header_accepted, spec_header_refusal};
use crate::vendor::{
    spec_parse_vendor_body, spec_vendor_rsp_fields, SpdmVendorDefinedRequestPayload,
    SpdmVendorDefinedResponsePayload, VendorDefinedReqPayloadStruct, VendorDefinedRspPayloadStruct,
    VendorIDStruct,
};

verus! {

/// The vendor payload a handler answered with, or its failure.
pub open spec fn spec_rsp_view(rsp: SpdmResult<VendorDefinedRspPayloadStruct>) -> Result<
    Seq<u8>,
    SpdmStatus,
> {
    match rsp {
        Ok(p) => Ok(p.vendor_defined_rsp_payload@),
        Err(e) => Err(e),
    }
}

/// What `writer` holds after the handler of a vendor-defined request, with
/// standard id `standard_id` and vendor id `vendor_id`, answered `rsp`: the
/// VENDOR_DEFINED_RESPONSE, echoing both ids, appended to what the writer
/// held; an Unspecified error where the handler failed, the payload is too
/// long, or the response does not fit.
pub open spec fn spec_vendor_reply_written(
    sel: SpdmVersion,
    old_data: Seq<u8>,
    cap: nat,
    standard_id: u16,
    vendor_id: Seq<u8>,
    rsp: Result<Seq<u8>, SpdmStatus>,
) -> Seq<u8> {
    let unspecified = spec_error_written(sel, cap, SpdmErrorCode::SpdmErrorUnspecified, 0);
    match rsp {
        Err(_) => unspecified,
        Ok(payload) => match spec_vendor_rsp_fields(sel, standard_id, vendor_id, payload) {
            None => unspecified,
            Some(fields) => {
                let w = write_fields((old_data, true), cap, fields);
                if w.1 {
                    w.0
                } else {
                    unspecified
                }
            },
        },
    }
}

/// The request is a well-formed VENDOR_DEFINED_REQUEST of the negotiated
/// version; its standard id, vendor id and payload.
pub open spec fn spec_vendor_request(sel: SpdmVersion, request: Seq<u8>) -> Option<
    (u16, Seq<u8>, Seq<u8>),
> {
    if spec_header_accepted(sel, request) {
        spec_parse_vendor_body(request.skip(2))
    } else {
        None
    }
}

/// What `writer` holds after a request that is not a well-formed
/// VENDOR_DEFINED_REQUEST of the negotiated version was refused.
pub open spec fn spec_vendor_refused(sel: SpdmVersion, cap: nat, request: Seq<u8>) -> Seq<u8> {
    if !spec_header_accepted(sel, request) {
        spec_error_written(sel, cap, spec_header_refusal(sel, request), 0)
    } else {
        spec_error_written(sel, cap, SpdmErrorCode::SpdmErrorInvalidRequest, 0)
    }
}

impl ResponderContext {
    /// Answers a VENDOR_DEFINED_REQUEST with the help of
    /// `vendor_defined_func` (see `write_spdm_vendor_defined_response`) and
    /// hands back the response.
    pub fn handle_spdm_vendor_defined_request<'a, F>(
        &mut self,
        session_id: Option<u32>,
        bytes: &[u8],
        writer: &'a mut Writer,
        vendor_defined_func: F,
    ) -> (r: (SpdmResult, Option<&'a [u8]>)) where
        F: Fn(&VendorDefinedReqPayloadStruct) -> SpdmResult<VendorDefinedRspPayloadStruct>,

        requires
            forall|q: &VendorDefinedReqPayloadStruct| call_requires(vendor_defined_func, (q,)),
        ensures
            !spec_header_accepted(old(self).common.negotiate_info.spdm_version_sel, bytes@)
                ==> final(self).common == old(self).common,
            spec_header_accepted(old(self).common.negotiate_info.spdm_version_sel, bytes@)
                ==> spec_reset_buffer(
                old(self).common,
                final(self).common,
                SpdmRequestResponseCode::SpdmRequestVendorDefinedRequest,
                session_id,
            ),
            old(self).common.wf() ==> final(self).common.wf(),
            final(writer).cap() == old(writer).cap(),
            spec_vendor_request(old(self).common.negotiate_info.spdm_version_sel, bytes@) is None
                ==> final(writer).data() == spec_vendor_refused(
                old(self).common.negotiate_info.spdm_version_sel,
                old(writer).cap(),
                bytes@,
            ),
            spec_vendor_request(old(self).common.negotiate_info.spdm_version_sel, bytes@) matches Some(
                (standard_id, vendor_id, payload),
            ) ==> exists|
                q: &VendorDefinedReqPayloadStruct,
                rsp: SpdmResult<VendorDefinedRspPayloadStruct>,
            |
                q.vendor_defined_req_payload@ == payload && #[trigger] call_ensures(
                    vendor_defined_func,
                    (q,),
                    rsp,
                ) && final(writer).data() == spec_vendor_reply_written(
                    old(self).common.negotiate_info.spdm_version_sel,
                    old(writer).data(),
                    old(writer).cap(),
                    standard_id,
                    vendor_id,
                    spec_rsp_view(rsp),
                ),
            r.0 == Ok::<(), SpdmStatus>(()),
            r.1 matches Some(s) && s@ == final(writer).data(),
    {
        self.write_spdm_vendor_defined_response(session_id, bytes, writer, vendor_defined_func);
        (Ok(()), Some(writer.used_slice()))
    }

    /// Answers a VENDOR_DEFINED_REQUEST: after a header of the negotiated
    /// version the measurement transcript is reset; the body is parsed, its
    /// payload handed to `vendor_defined_func`, and the handler's payload is
    /// sent back in a VENDOR_DEFINED_RESPONSE that echoes the request's
    /// standard id and vendor id.
    pub fn write_spdm_vendor_defined_response<F>(
        &mut self,
        session_id: Option<u32>,
        bytes: &[u8],
        writer: &mut Writer,
        vendor_defined_func: F,
    ) where
        F: Fn(&VendorDefinedReqPayloadStruct) -> SpdmResult<VendorDefinedRspPayloadStruct>,

        requires
            forall|q: &VendorDefinedReqPayloadStruct| call_requires(vendor_defined_func, (q,)),
        ensures
            !spec_header_accepted(old(self).common.negotiate_info.spdm_version_sel, bytes@)
                ==> final(self).common == old(self).common,
            spec_header_accepted(old(self).common.negotiate_info.spdm_version_sel, bytes@)
                ==> spec_reset_buffer(
                old(self).common,
                final(self).common,
                SpdmRequestResponseCode::SpdmRequestVendorDefinedRequest,
                session_id,
            ),
            old(self).common.wf() ==> final(self).common.wf(),
            final(writer).cap() == old(writer).cap(),
            spec_vendor_request(old(self).common.negotiate_info.spdm_version_sel, bytes@) is None
                ==> final(writer).data() == spec_vendor_refused(
                old(self).common.negotiate_info.spdm_version_sel,
                old(writer).cap(),
                bytes@,
            ),
            spec_vendor_request(old(self).common.negotiate_info.spdm_version_sel, bytes@) matches Some(
                (standard_id, vendor_id, payload),
            ) ==> exists|
                q: &VendorDefinedReqPayloadStruct,
                rsp: SpdmResult<VendorDefinedRspPayloadStruct>,
            |
                q.vendor_defined_req_payload@ == payload && #[trigger] call_ensures(
                    vendor_defined_func,
                    (q,),
                    rsp,
                ) && final(writer).data() == spec_vendor_reply_written(
                    old(self).common.negotiate_info.spdm_version_sel,
                    old(writer).data(),
                    old(writer).cap(),
                    standard_id,
                    vendor_id,
                    spec_rsp_view(rsp),
                ),
    {
        let mut reader = Reader::init(bytes);
        let message_header = SpdmMessageHeader::read(&mut reader);
        if let Some(message_header) = message_header {
            if message_header.version != self.common.negotiate_info.spdm_version_sel {
                self.write_spdm_error(SpdmErrorCode::SpdmErrorVersionMismatch, 0, writer);
                return ;
            }
        } else {
            self.write_spdm_error(SpdmErrorCode::SpdmErrorInvalidRequest, 0, writer);
            return ;
        }
        assert(reader.rest() == bytes@.skip(2));

        self.common.reset_buffer_via_request_code(
            SpdmRequestResponseCode::SpdmRequestVendorDefinedRequest,
            session_id,
        );

        let vendor_defined_request_payload = SpdmVendorDefinedRequestPayload::spdm_read(
            &mut reader,
        );
        if vendor_defined_request_payload.is_none() {
            self.write_spdm_error(SpdmErrorCode::SpdmErrorInvalidRequest, 0, writer);
            return ;
        }
        let vendor_defined_request_payload = vendor_defined_request_payload.unwrap();

        let standard_id = vendor_defined_request_payload.standard_id;
        let vendor_id = vendor_defined_request_payload.vendor_id;
        let req_payload = vendor_defined_request_payload.req_payload;
        let rsp_payload = self.respond_to_vendor_defined_request(&req_payload, vendor_defined_func);
        self.write_vendor_defined_reply(standard_id, vendor_id, rsp_payload, writer);
    }

    /// Sends back what the handler of a vendor-defined request answered:
    /// the VENDOR_DEFINED_RESPONSE carrying `standard_id`, `vendor_id` and
    /// the handler's payload, or an Unspecified error where the handler
    /// failed or the response cannot be encoded.
    pub fn write_vendor_defined_reply(
        &mut self,
        standard_id: u16,
        vendor_id: VendorIDStruct,
        rsp_payload: SpdmResult<VendorDefinedRspPayloadStruct>,
        writer: &mut Writer,
    )
        ensures
            *final(self) == *old(self),
            old(self).common.wf() ==> final(self).common.wf(),
            final(writer).cap() == old(writer).cap(),
            final(writer).data() == spec_vendor_reply_written(
                old(self).common.negotiate_info.spdm_version_sel,
                old(writer).data(),
                old(writer).cap(),
                standard_id,
                vendor_id.vendor_id@,
                spec_rsp_view(rsp_payload),
            ),
    {
        match rsp_payload {
            Err(_) => {
                self.write_spdm_error(SpdmErrorCode::SpdmErrorUnspecified, 0, writer);
            },
            Ok(rsp_payload) => {
                let response = SpdmVendorDefinedResponsePayload {
                    standard_id,
                    vendor_id,
                    rsp_payload,
                };
                let fields = response.message_fields(self.common.negotiate_info.spdm_version_sel);
                match fields {
                    None => {
                        self.write_spdm_error(SpdmErrorCode::SpdmErrorUnspecified, 0, writer);
                    },
                    Some(fields) => {
                        let res = writer.write_fields(&fields);
                        if !res {
                            self.write_spdm_error(SpdmErrorCode::SpdmErrorUnspecified, 0, writer);
                        }
                    },
                }
            },
        }
    }

    /// Hands the vendor payload of a request to `verdor_defined_func` and
    /// returns its answer.
    pub fn respond_to_vendor_defined_request<F>(
        &mut self,
        req: &VendorDefinedReqPayloadStruct,
        verdor_defined_func: F,
    ) -> (r: SpdmResult<VendorDefinedRspPayloadStruct>) where
        F: Fn(&VendorDefinedReqPayloadStruct) -> SpdmResult<VendorDefinedRspPayloadStruct>,

        requires
            call_requires(verdor_defined_func, (req,)),
        ensures
            *final(self) == *old(self),
            call_ensures(verdor_defined_func, (req,), r),
    {
        verdor_defined_func(req)
    }
}

} // verus!
