use vstd::prelude::*;

use crate::codec::{lemma_write_fields_fit, write_fields, Writer};
use crate::context::{spec_reset_buffer, ResponderContext};
use crate::message::{
    spec_heartbeat_ack_fields, spec_read_header, Reader, SpdmHeartbeatRequestPayload,
    SpdmHeartbeatResponsePayload, SpdmMessageHeader,
};
use crate::protocol::{SpdmErrorCode, SpdmRequestResponseCode, SpdmResult, SpdmStatus, SpdmVersion};
use crate::responder::error_rsp::spec_error_written;

verus! {

/// The header of `request` is readable and of the negotiated version.
pub open spec fn spec_header_accepted(sel: SpdmVersion, request: Seq<u8>) -> bool {
    spec_read_header(request) matches Some(h) && h.version == sel
}

/// The error with which a request whose header is not accepted is refused.
pub open spec fn spec_header_refusal(sel: SpdmVersion, request: Seq<u8>) -> SpdmErrorCode {
    if spec_read_header(request) is None {
        SpdmErrorCode::SpdmErrorInvalidRequest
    } else {
        SpdmErrorCode::SpdmErrorVersionMismatch
    }
}

/// What `writer` holds after a HEARTBEAT request was answered: an ERROR
/// response for a bad header or a request without its two parameter bytes,
/// else the HEARTBEAT_ACK appended to what the writer held (or an
/// Unspecified error where it does not fit).
pub open spec fn spec_heartbeat_written(
    sel: SpdmVersion,
    old_data: Seq<u8>,
    cap: nat,
    request: Seq<u8>,
) -> Seq<u8> {
    if !spec_header_accepted(sel, request) {
        spec_error_written(sel, cap, spec_header_refusal(sel, request), 0)
    } else if request.len() < 4 {
        spec_error_written(sel, cap, SpdmErrorCode::SpdmErrorInvalidRequest, 0)
    } else {
        let w = write_fields((old_data, true), cap, spec_heartbeat_ack_fields(sel));
        if w.1 {
            w.0
        } else {
            spec_error_written(sel, cap, SpdmErrorCode::SpdmErrorUnspecified, 0)
        }
    }
}

/// A HEARTBEAT whose header carries the negotiated version `sel` and that
/// has its two parameter bytes is answered, where the answer fits, by
/// appending to what the writer held a HEARTBEAT_ACK of that version: the
/// version's byte, 0x68, and two zero parameter bytes.
pub proof fn lemma_heartbeat_ack_of_negotiated_version(
    sel: SpdmVersion,
    old_data: Seq<u8>,
    cap: nat,
    request: Seq<u8>,
)
    requires
        request.len() >= 4,
        SpdmVersion::spec_from_u8(request[0]) == sel,
        old_data.len() + 4 <= cap,
    ensures
        spec_heartbeat_written(sel, old_data, cap, request) == old_data + seq![
            sel.spec_u8(),
            0x68u8,
            0u8,
            0u8,
        ],
{
    let f = spec_heartbeat_ack_fields(sel);
    assert(f.flatten() =~= seq![sel.spec_u8(), 0x68u8, 0u8, 0u8]) by {
        reveal_with_fuel(Seq::<_>::flatten, 5);
    }
    lemma_write_fields_fit(old_data, cap, f);
}

impl ResponderContext {
    /// Answers a HEARTBEAT request of the session `session_id` (see
    /// `write_spdm_heartbeat_response`) and hands back the response.
    pub fn handle_spdm_heartbeat<'a>(
        &mut self,
        session_id: u32,
        bytes: &[u8],
        writer: &'a mut Writer,
    ) -> (r: (SpdmResult, Option<&'a [u8]>))
        ensures
            !spec_header_accepted(old(self).common.negotiate_info.spdm_version_sel, bytes@)
                ==> final(self).common == old(self).common,
            spec_header_accepted(old(self).common.negotiate_info.spdm_version_sel, bytes@)
                ==> spec_reset_buffer(
                old(self).common,
                final(self).common,
                SpdmRequestResponseCode::SpdmRequestHeartbeat,
                Some(session_id),
            ),
            old(self).common.wf() ==> final(self).common.wf(),
            final(writer).cap() == old(writer).cap(),
            final(writer).data() == spec_heartbeat_written(
                old(self).common.negotiate_info.spdm_version_sel,
                old(writer).data(),
                old(writer).cap(),
                bytes@,
            ),
            r.0 == Ok::<(), SpdmStatus>(()),
            r.1 matches Some(s) && s@ == final(writer).data(),
    {
        self.write_spdm_heartbeat_response(session_id, bytes, writer);
        (Ok(()), Some(writer.used_slice()))
    }

    /// Answers a HEARTBEAT request: after a header of the negotiated version
    /// the session's measurement transcript is reset, and a request with its
    /// two parameter bytes is acknowledged with HEARTBEAT_ACK.
    pub fn write_spdm_heartbeat_response(&mut self, session_id: u32, bytes: &[u8], writer: &mut Writer)
        ensures
            !spec_header_accepted(old(self).common.negotiate_info.spdm_version_sel, bytes@)
                ==> final(self).common == old(self).common,
            spec_header_accepted(old(self).common.negotiate_info.spdm_version_sel, bytes@)
                ==> spec_reset_buffer(
                old(self).common,
                final(self).common,
                SpdmRequestResponseCode::SpdmRequestHeartbeat,
                Some(session_id),
            ),
            old(self).common.wf() ==> final(self).common.wf(),
            final(writer).cap() == old(writer).cap(),
            final(writer).data() == spec_heartbeat_written(
                old(self).common.negotiate_info.spdm_version_sel,
                old(writer).data(),
                old(writer).cap(),
                bytes@,
            ),
    {
        let mut reader = Reader::init(bytes);
        let message_header = SpdmMessageHeader::read(&mut reader);
        if let Some(message_header) = message_header {
            if message_header.version != self.common.negotiate_info.spdm_version_sel {
                self.write_spdm_error(SpdmErrorCode::SpdmErrorVersionMismatch, 0, writer);
                return ;
            }
        } else {
            self.write_spdm_error(SpdmErrorCode::SpdmErrorInvalidRequest, 0, writer);
            return ;
        }

        self.common.reset_buffer_via_request_code(
            SpdmRequestResponseCode::SpdmRequestHeartbeat,
            Some(session_id),
        );

        let heartbeat_req = SpdmHeartbeatRequestPayload::spdm_read(&mut reader);
        if heartbeat_req.is_none() {
            self.write_spdm_error(SpdmErrorCode::SpdmErrorInvalidRequest, 0, writer);
            return ;
        }

        let response = SpdmHeartbeatResponsePayload {  };
        let fields = response.message_fields(self.common.negotiate_info.spdm_version_sel);
        let res = writer.write_fields(&fields);
        if !res {
            self.write_spdm_error(SpdmErrorCode::SpdmErrorUnspecified, 0, writer);
        }
    }
}

} // verus!
