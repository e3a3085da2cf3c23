use vstd::prelude::*;

use crate::codec::{lemma_write_fields_fit, lemma_write_fields_overflow, write_fields, Writer};
use crate::context::ResponderContext;
use crate::message::{
    error_fields, lemma_error_fields_flatten, spec_error_bytes, spec_error_fields,
    spec_read_header, Reader, SpdmMessageHeader,
};
use crate::protocol::{SpdmErrorCode, SpdmRequestResponseCode, SpdmResult, SpdmVersion};

verus! {

/// The version an ERROR response carries: the negotiated one, or 1.0 before
/// any version was negotiated.
pub open spec fn spec_error_version(sel: SpdmVersion) -> SpdmVersion {
    if sel.spec_u8() == 0 {
        SpdmVersion::SpdmVersion10
    } else {
        sel
    }
}

/// What a cleared buffer of `cap` bytes holds after an ERROR response was
/// encoded into it: the whole response when it fits, else the fields that fit.
pub open spec fn spec_error_written(
    sel: SpdmVersion,
    cap: nat,
    error_code: SpdmErrorCode,
    error_data: u8,
) -> Seq<u8> {
    write_fields(
        (Seq::<u8>::empty(), true),
        cap,
        spec_error_fields(spec_error_version(sel), error_code, error_data),
    ).0
}

/// The error code and error data with which a request is refused by
/// `write_error_response` when it is answered with `error_code`.
pub open spec fn spec_refusal(sel: SpdmVersion, error_code: SpdmErrorCode, request: Seq<u8>) -> (
    SpdmErrorCode,
    u8,
) {
    match spec_read_header(request) {
        None => (SpdmErrorCode::SpdmErrorInvalidRequest, 0u8),
        Some(h) => if h.version != sel {
            (SpdmErrorCode::SpdmErrorVersionMismatch, 0u8)
        } else if error_code == SpdmErrorCode::SpdmErrorUnsupportedRequest {
            (error_code, h.request_response_code.spec_u8())
        } else {
            (error_code, 0u8)
        },
    }
}

/// An ERROR response fits any buffer of four bytes or more, and is then
/// written whole.
pub proof fn lemma_error_written_fits(
    sel: SpdmVersion,
    cap: nat,
    error_code: SpdmErrorCode,
    error_data: u8,
)
    requires
        cap >= 4,
    ensures
        spec_error_written(sel, cap, error_code, error_data) == spec_error_bytes(
            spec_error_version(sel),
            error_code,
            error_data,
        ),
{
    let v = spec_error_version(sel);
    lemma_error_fields_flatten(v, error_code, error_data);
    lemma_write_fields_fit(Seq::<u8>::empty(), cap, spec_error_fields(v, error_code, error_data));
    assert(Seq::<u8>::empty() + spec_error_bytes(v, error_code, error_data) == spec_error_bytes(
        v,
        error_code,
        error_data,
    ));
}

/// A request whose header carries the negotiated version `sel` is refused
/// with `error_code` by an ERROR response of that version (1.0 before any
/// was negotiated) and that code, whose error data is the request's code
/// for UnsupportedRequest and 0 for every other error code.
pub proof fn lemma_refusal_error_data(
    sel: SpdmVersion,
    cap: nat,
    error_code: SpdmErrorCode,
    request: Seq<u8>,
)
    requires
        request.len() >= 2,
        SpdmVersion::spec_from_u8(request[0]) == sel,
        cap >= 4,
    ensures
        spec_error_written(
            sel,
            cap,
            spec_refusal(sel, error_code, request).0,
            spec_refusal(sel, error_code, request).1,
        ) == seq![
            if sel.spec_u8() == 0 { 0x10u8 } else { sel.spec_u8() },
            0x7Fu8,
            error_code.spec_u8(),
            if error_code == SpdmErrorCode::SpdmErrorUnsupportedRequest { request[1] } else { 0u8 },
        ],
{
    let x = request[1];
    assert(SpdmRequestResponseCode::spec_from_u8(x).spec_u8() == x);
    let refusal = spec_refusal(sel, error_code, request);
    lemma_error_written_fits(sel, cap, refusal.0, refusal.1);
}

impl ResponderContext {
    /// Replaces what `writer` holds with an ERROR response carrying
    /// `error_code` and `error_data`.
    pub fn write_spdm_error(&mut self, error_code: SpdmErrorCode, error_data: u8, writer: &mut Writer)
        ensures
            *final(self) == *old(self),
            final(writer).cap() == old(writer).cap(),
            final(writer).data() == spec_error_written(
                old(self).common.negotiate_info.spdm_version_sel,
                old(writer).cap(),
                error_code,
                error_data,
            ),
            final(writer).data().len() <= final(writer).cap(),
            old(writer).cap() >= 4 ==> final(writer).data() == spec_error_bytes(
                spec_error_version(old(self).common.negotiate_info.spdm_version_sel),
                error_code,
                error_data,
            ),
    {
        let version = if self.common.negotiate_info.spdm_version_sel.get_u8() == 0 {
            SpdmVersion::SpdmVersion10
        } else {
            self.common.negotiate_info.spdm_version_sel
        };
        let fields = error_fields(version, error_code, error_data);
        writer.clear();
        let _ = writer.write_fields(&fields);
        proof {
            lemma_write_fields_overflow(
                Seq::<u8>::empty(),
                writer.cap(),
                spec_error_fields(version, error_code, error_data),
            );
            if writer.cap() >= 4 {
                lemma_error_written_fits(
                    self.common.negotiate_info.spdm_version_sel,
                    writer.cap(),
                    error_code,
                    error_data,
                );
            }
        }
    }

    /// Answers a request with an ERROR response (see `write_error_response`)
    /// and hands back the response.
    pub fn handle_error_request<'a>(
        &mut self,
        error_code: SpdmErrorCode,
        bytes: &[u8],
        writer: &'a mut Writer,
    ) -> (r: (SpdmResult, Option<&'a [u8]>))
        ensures
            *final(self) == *old(self),
            final(writer).cap() == old(writer).cap(),
            final(writer).data() == spec_error_written(
                old(self).common.negotiate_info.spdm_version_sel,
                old(writer).cap(),
                spec_refusal(old(self).common.negotiate_info.spdm_version_sel, error_code, bytes@).0,
                spec_refusal(old(self).common.negotiate_info.spdm_version_sel, error_code, bytes@).1,
            ),
            r.0 == Ok::<(), crate::protocol::SpdmStatus>(()),
            r.1 matches Some(s) && s@ == final(writer).data(),
    {
        self.write_error_response(error_code, bytes, writer);
        (Ok(()), Some(writer.used_slice()))
    }

    /// Refuses a request with `error_code`: a request too short for a header
    /// is answered with InvalidRequest, one of another version than the
    /// negotiated one with VersionMismatch, and UnsupportedRequest carries the
    /// request code as its error data.
    pub fn write_error_response(&mut self, error_code: SpdmErrorCode, bytes: &[u8], writer: &mut Writer)
        ensures
            *final(self) == *old(self),
            final(writer).cap() == old(writer).cap(),
            final(writer).data() == spec_error_written(
                old(self).common.negotiate_info.spdm_version_sel,
                old(writer).cap(),
                spec_refusal(old(self).common.negotiate_info.spdm_version_sel, error_code, bytes@).0,
                spec_refusal(old(self).common.negotiate_info.spdm_version_sel, error_code, bytes@).1,
            ),
    {
        let mut reader = Reader::init(bytes);
        let message_header = SpdmMessageHeader::read(&mut reader);
        if let Some(message_header) = message_header {
            if message_header.version != self.common.negotiate_info.spdm_version_sel {
                self.write_spdm_error(SpdmErrorCode::SpdmErrorVersionMismatch, 0, writer);
                return ;
            }
            let error_data = if error_code == SpdmErrorCode::SpdmErrorUnsupportedRequest {
                message_header.request_response_code.get_u8()
            } else {
                0u8
            };
            self.write_spdm_error(error_code, error_data, writer);
        } else {
            self.write_spdm_error(SpdmErrorCode::SpdmErrorInvalidRequest, 0, writer);
        }
    }
}

} // verus!
