use vstd::prelude::*;

use crate::codec::{fields_view, spec_u16_bytes, spec_u16_le, u16_to_le_bytes};
use crate::crypto::SpdmDigestStruct;
use crate::message::{byte_field, spec_header_fields, Reader, SpdmMessageHeader};
use crate::opaque::{SpdmOpaqueStruct, MAX_SPDM_OPAQUE_SIZE};
use crate::protocol::{SpdmMeasurementSummaryHashType, SpdmRequestResponseCode, SpdmVersion};
use crate::vendor::clone_bytes;

verus! {

/// Longest PSK hint a PSK_EXCHANGE request may carry.
pub const MAX_SPDM_PSK_HINT_SIZE: usize = 32;

/// Longest requester or responder context of a PSK exchange.
pub const MAX_SPDM_PSK_CONTEXT_SIZE: usize = 64;

/// The name under which the requester's pre-shared key is known.
pub struct SpdmPskHintStruct {
    pub data: Vec<u8>,
}

/// A requester or responder context (a nonce) of a PSK exchange.
pub struct SpdmPskContextStruct {
    pub data: Vec<u8>,
}

/// What follows the header of a PSK_EXCHANGE request.
pub struct SpdmPskExchangeRequestPayload {
    pub measurement_summary_hash_type: SpdmMeasurementSummaryHashType,
    pub session_policy: u8,
    pub req_session_id: u16,
    pub psk_hint: SpdmPskHintStruct,
    pub psk_context: SpdmPskContextStruct,
    pub opaque: SpdmOpaqueStruct,
}

/// What follows the header of a PSK_EXCHANGE_RSP response.
pub struct SpdmPskExchangeResponsePayload {
    pub heartbeat_period: u8,
    pub rsp_session_id: u16,
    pub measurement_summary_hash: SpdmDigestStruct,
    pub psk_context: SpdmPskContextStruct,
    pub opaque: SpdmOpaqueStruct,
    pub verify_data: SpdmDigestStruct,
}

/// The fields of a PSK_EXCHANGE request body.
pub struct SpecPskExchangeRequest {
    pub hash_type: u8,
    pub session_policy: u8,
    pub req_session_id: u16,
    pub psk_hint: Seq<u8>,
    pub context: Seq<u8>,
    pub opaque: Seq<u8>,
}

/// The number of bytes of a PSK_EXCHANGE request body.
pub open spec fn spec_psk_body_len(q: SpecPskExchangeRequest) -> int {
    (10 + q.psk_hint.len() + q.context.len() + q.opaque.len()) as int
}

/// Parses a PSK_EXCHANGE request body: the two parameter bytes, the
/// requester's half session id, the three lengths, then the PSK hint, the
/// requester context and the opaque data. `None` where the body is short or
/// a length is over its bound.
pub open spec fn spec_parse_psk_body(r: Seq<u8>) -> Option<SpecPskExchangeRequest> {
    if r.len() < 10 {
        None
    } else {
        let hl = spec_u16_le(r[4], r[5]) as int;
        let cl = spec_u16_le(r[6], r[7]) as int;
        let ol = spec_u16_le(r[8], r[9]) as int;
        if hl > MAX_SPDM_PSK_HINT_SIZE || cl > MAX_SPDM_PSK_CONTEXT_SIZE || ol > MAX_SPDM_OPAQUE_SIZE
            || r.len() < 10 + hl + cl + ol {
            None
        } else {
            Some(
                SpecPskExchangeRequest {
                    hash_type: r[0],
                    session_policy: r[1],
                    req_session_id: spec_u16_le(r[2], r[3]),
                    psk_hint: r.subrange(10, 10 + hl),
                    context: r.subrange(10 + hl, 10 + hl + cl),
                    opaque: r.subrange(10 + hl + cl, 10 + hl + cl + ol),
                },
            )
        }
    }
}

/// The view of a parsed request body.
pub open spec fn spec_psk_request_view(p: SpdmPskExchangeRequestPayload) -> SpecPskExchangeRequest {
    SpecPskExchangeRequest {
        hash_type: p.measurement_summary_hash_type.spec_u8(),
        session_policy: p.session_policy,
        req_session_id: p.req_session_id,
        psk_hint: p.psk_hint.data@,
        context: p.psk_context.data@,
        opaque: p.opaque.data@,
    }
}

impl SpdmPskExchangeRequestPayload {
    /// Reads the body of a PSK_EXCHANGE request.
    pub fn spdm_read(r: &mut Reader) -> (res: Option<SpdmPskExchangeRequestPayload>)
        requires
            old(r).wf(),
        ensures
            final(r).wf(),
            final(r).data() == old(r).data(),
            res is Some <==> spec_parse_psk_body(old(r).rest()) is Some,
            res matches Some(p) ==> spec_parse_psk_body(old(r).rest()) == Some(
                spec_psk_request_view(p),
            ) && p.measurement_summary_hash_type == SpdmMeasurementSummaryHashType::spec_from_u8(
                p.measurement_summary_hash_type.spec_u8(),
            ) && final(r).pos() == old(r).pos() + spec_psk_body_len(spec_psk_request_view(p)),
    {
        let ghost r0 = r.rest();
        let t = r.read_u8();
        if t.is_none() {
            return None;
        }
        let policy = r.read_u8();
        if policy.is_none() {
            return None;
        }
        let req_session_id = r.read_u16();
        if req_session_id.is_none() {
            return None;
        }
        let hl = r.read_u16();
        if hl.is_none() {
            return None;
        }
        let cl = r.read_u16();
        if cl.is_none() {
            return None;
        }
        let ol = r.read_u16();
        if ol.is_none() {
            return None;
        }
        let hl = hl.unwrap();
        let cl = cl.unwrap();
        let ol = ol.unwrap();
        assert(hl == spec_u16_le(r0[4], r0[5]));
        assert(cl == spec_u16_le(r0[6], r0[7]));
        assert(ol == spec_u16_le(r0[8], r0[9]));
        if hl as usize > MAX_SPDM_PSK_HINT_SIZE || cl as usize > MAX_SPDM_PSK_CONTEXT_SIZE || ol as usize
            > MAX_SPDM_OPAQUE_SIZE {
            return None;
        }
        let hint = r.read_bytes(hl as usize);
        if hint.is_none() {
            return None;
        }
        let ctx = r.read_bytes(cl as usize);
        if ctx.is_none() {
            return None;
        }
        let opaque = r.read_bytes(ol as usize);
        if opaque.is_none() {
            return None;
        }
        let hint = hint.unwrap();
        let ctx = ctx.unwrap();
        let opaque = opaque.unwrap();
        assert(hint@ =~= r0.subrange(10, 10 + hl));
        assert(ctx@ =~= r0.subrange(10 + hl, 10 + hl + cl));
        assert(opaque@ =~= r0.subrange(10 + hl + cl, 10 + hl + cl + ol));
        Some(
            SpdmPskExchangeRequestPayload {
                measurement_summary_hash_type: SpdmMeasurementSummaryHashType::from_u8(t.unwrap()),
                session_policy: policy.unwrap(),
                req_session_id: req_session_id.unwrap(),
                psk_hint: SpdmPskHintStruct { data: hint },
                psk_context: SpdmPskContextStruct { data: ctx },
                opaque: SpdmOpaqueStruct { data: opaque },
            },
        )
    }
}

/// A digest as it is encoded with a negotiated hash size of `size` bytes:
/// its first `size` bytes, zero beyond its end.
pub open spec fn spec_digest_bytes(d: Seq<u8>, size: nat) -> Seq<u8> {
    Seq::new(size, |i: int| if i < d.len() { d[i] } else { 0u8 })
}

/// Encodes a digest with a negotiated hash size of `size` bytes.
pub fn digest_bytes(d: &Vec<u8>, size: u16) -> (r: Vec<u8>)
    ensures
        r@ == spec_digest_bytes(d@, size as nat),
{
    let mut r = Vec::new();
    let mut i: usize = 0;
    while i < size as usize
        invariant
            i <= size,
            r@ == spec_digest_bytes(d@, i as nat),
        decreases size - i,
    {
        if i < d.len() {
            r.push(d[i]);
        } else {
            r.push(0);
        }
        i = i + 1;
        assert(r@ =~= spec_digest_bytes(d@, i as nat));
    }
    r
}

/// The fields of a PSK_EXCHANGE_RSP response: header, heartbeat period,
/// reserved byte, responder half session id, reserved word, context and
/// opaque lengths, the measurement summary hash when one was asked for, the
/// responder context, the opaque data and the verify data.
pub open spec fn spec_psk_rsp_fields(
    version: SpdmVersion,
    heartbeat_period: u8,
    rsp_session_id: u16,
    include_hash: bool,
    measurement_hash: Seq<u8>,
    hash_size: nat,
    context: Seq<u8>,
    opaque: Seq<u8>,
    verify_data: Seq<u8>,
) -> Seq<Seq<u8>> {
    spec_header_fields(version, SpdmRequestResponseCode::SpdmResponsePskExchangeRsp) + seq![
        seq![heartbeat_period],
        seq![0u8],
        spec_u16_bytes(rsp_session_id),
        spec_u16_bytes(0),
        spec_u16_bytes(context.len() as u16),
        spec_u16_bytes(opaque.len() as u16),
        if include_hash {
            spec_digest_bytes(measurement_hash, hash_size)
        } else {
            Seq::<u8>::empty()
        },
        context,
        opaque,
        spec_digest_bytes(verify_data, hash_size),
    ]
}

impl SpdmPskExchangeResponsePayload {
    /// The fields of the PSK_EXCHANGE_RSP response of `version` with this
    /// body, for a negotiated hash size of `hash_size` bytes.
    pub fn message_fields(&self, version: SpdmVersion, hash_size: u16, include_hash: bool) -> (r: Vec<
        Vec<u8>,
    >)
        requires
            self.psk_context.data@.len() <= 0xFFFF,
            self.opaque.data@.len() <= 0xFFFF,
        ensures
            fields_view(r@) == spec_psk_rsp_fields(
                version,
                self.heartbeat_period,
                self.rsp_session_id,
                include_hash,
                self.measurement_summary_hash.data@,
                hash_size as nat,
                self.psk_context.data@,
                self.opaque.data@,
                self.verify_data.data@,
            ),
    {
        let h = SpdmMessageHeader {
            version,
            request_response_code: SpdmRequestResponseCode::SpdmResponsePskExchangeRsp,
        };
        let mut r = h.encode_fields();
        r.push(byte_field(self.heartbeat_period));
        r.push(byte_field(0));
        r.push(u16_to_le_bytes(self.rsp_session_id));
        r.push(u16_to_le_bytes(0));
        r.push(u16_to_le_bytes(self.psk_context.data.len() as u16));
        r.push(u16_to_le_bytes(self.opaque.data.len() as u16));
        if include_hash {
            r.push(digest_bytes(&self.measurement_summary_hash.data, hash_size));
        } else {
            r.push(Vec::new());
        }
        r.push(clone_bytes(&self.psk_context.data));
        r.push(clone_bytes(&self.opaque.data));
        r.push(digest_bytes(&self.verify_data.data, hash_size));
        assert(fields_view(r@) =~= spec_psk_rsp_fields(
            version,
            self.heartbeat_period,
            self.rsp_session_id,
            include_hash,
            self.measurement_summary_hash.data@,
            hash_size as nat,
            self.psk_context.data@,
            self.opaque.data@,
            self.verify_data.data@,
        ));
        r
    }
}

/// The last field of a PSK_EXCHANGE_RSP is its verify data: the encoding is
/// the encoding without it, followed by it.
pub proof fn lemma_psk_rsp_split(
    version: SpdmVersion,
    heartbeat_period: u8,
    rsp_session_id: u16,
    include_hash: bool,
    measurement_hash: Seq<u8>,
    hash_size: nat,
    context: Seq<u8>,
    opaque: Seq<u8>,
    verify_data: Seq<u8>,
)
    ensures
        ({
            let f = spec_psk_rsp_fields(
                version,
                heartbeat_period,
                rsp_session_id,
                include_hash,
                measurement_hash,
                hash_size,
                context,
                opaque,
                verify_data,
            );
            f.flatten() == f.drop_last().flatten() + spec_digest_bytes(verify_data, hash_size)
                && f.drop_last() == spec_psk_rsp_fields(
                version,
                heartbeat_period,
                rsp_session_id,
                include_hash,
                measurement_hash,
                hash_size,
                context,
                opaque,
                Seq::<u8>::empty(),
            ).drop_last()
        }),
{
    let f = spec_psk_rsp_fields(
        version,
        heartbeat_period,
        rsp_session_id,
        include_hash,
        measurement_hash,
        hash_size,
        context,
        opaque,
        verify_data,
    );
    assert(f.drop_last().push(f.last()) == f);
    f.drop_last().lemma_flatten_push(f.last());
    assert(f.drop_last() =~= spec_psk_rsp_fields(
        version,
        heartbeat_period,
        rsp_session_id,
        include_hash,
        measurement_hash,
        hash_size,
        context,
        opaque,
        Seq::<u8>::empty(),
    ).drop_last());
}

} // verus!
