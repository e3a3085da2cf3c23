use vstd::prelude::*;

use crate::codec::{fields_view, spec_u16_bytes, spec_u16_le, u16_to_le_bytes};
use crate::message::{byte_field, spec_header_fields, spec_read_header, Reader, SpdmMessageHeader};
use crate::protocol::{SpdmRequestResponseCode, SpdmVersion};

verus! {

/// Longest vendor id a vendor-defined message may carry.
pub const MAX_SPDM_VENDOR_DEFINED_VENDOR_ID_LEN: usize = 64;

/// Longest payload a vendor-defined message may carry.
pub const MAX_SPDM_VENDOR_DEFINED_PAYLOAD_SIZE: usize = 256;

/// The vendor id of a vendor-defined message, within the registry named by
/// its standard id.
pub struct VendorIDStruct {
    pub vendor_id: Vec<u8>,
}

/// The vendor payload of a VENDOR_DEFINED_REQUEST.
pub struct VendorDefinedReqPayloadStruct {
    pub vendor_defined_req_payload: Vec<u8>,
}

/// The vendor payload of a VENDOR_DEFINED_RESPONSE.
pub struct VendorDefinedRspPayloadStruct {
    pub vendor_defined_rsp_payload: Vec<u8>,
}

/// What follows the header of a VENDOR_DEFINED_REQUEST.
pub struct SpdmVendorDefinedRequestPayload {
    pub standard_id: u16,
    pub vendor_id: VendorIDStruct,
    pub req_payload: VendorDefinedReqPayloadStruct,
}

/// What follows the header of a VENDOR_DEFINED_RESPONSE.
pub struct SpdmVendorDefinedResponsePayload {
    pub standard_id: u16,
    pub vendor_id: VendorIDStruct,
    pub rsp_payload: VendorDefinedRspPayloadStruct,
}

/// The parts of a vendor-defined message body: the two parameter bytes,
/// the standard id, the vendor id with its one-byte length, the payload with
/// its two-byte length. `None` where the body is too short or a length is
/// over its bound.
pub open spec fn spec_parse_vendor_body(r: Seq<u8>) -> Option<(u16, Seq<u8>, Seq<u8>)> {
    if r.len() < 5 {
        None
    } else {
        let len = r[4] as int;
        if len > MAX_SPDM_VENDOR_DEFINED_VENDOR_ID_LEN || r.len() < 7 + len {
            None
        } else {
            let plen = spec_u16_le(r[5 + len], r[6 + len]) as int;
            if plen > MAX_SPDM_VENDOR_DEFINED_PAYLOAD_SIZE || r.len() < 7 + len + plen {
                None
            } else {
                Some(
                    (
                        spec_u16_le(r[2], r[3]),
                        r.subrange(5, 5 + len),
                        r.subrange(7 + len, 7 + len + plen),
                    ),
                )
            }
        }
    }
}

/// The bytes a well-formed vendor-defined message body consists of.
pub open spec fn spec_vendor_body_len(vendor_id: Seq<u8>, payload: Seq<u8>) -> int {
    7 + vendor_id.len() as int + payload.len() as int
}

/// The fields that encode a vendor-defined body.
pub open spec fn spec_vendor_body_fields(standard_id: u16, vendor_id: Seq<u8>, payload: Seq<u8>) -> Seq<
    Seq<u8>,
> {
    seq![
        seq![0u8],
        seq![0u8],
        spec_u16_bytes(standard_id),
        seq![vendor_id.len() as u8],
        vendor_id,
        spec_u16_bytes(payload.len() as u16),
        payload,
    ]
}

/// The fields of a VENDOR_DEFINED_RESPONSE; `None` where the vendor id or the
/// payload is longer than a message may carry.
pub open spec fn spec_vendor_rsp_fields(
    version: SpdmVersion,
    standard_id: u16,
    vendor_id: Seq<u8>,
    payload: Seq<u8>,
) -> Option<Seq<Seq<u8>>> {
    if vendor_id.len() > MAX_SPDM_VENDOR_DEFINED_VENDOR_ID_LEN || payload.len()
        > MAX_SPDM_VENDOR_DEFINED_PAYLOAD_SIZE {
        None
    } else {
        Some(
            spec_header_fields(version, SpdmRequestResponseCode::SpdmResponseVendorDefinedResponse)
                + spec_vendor_body_fields(standard_id, vendor_id, payload),
        )
    }
}

/// Reading back the encoding of a vendor-defined body gives its standard id,
/// vendor id and payload, whatever follows it.
pub proof fn lemma_vendor_body_roundtrip(
    standard_id: u16,
    vendor_id: Seq<u8>,
    payload: Seq<u8>,
    rest: Seq<u8>,
)
    requires
        vendor_id.len() <= MAX_SPDM_VENDOR_DEFINED_VENDOR_ID_LEN,
        payload.len() <= MAX_SPDM_VENDOR_DEFINED_PAYLOAD_SIZE,
    ensures
        spec_parse_vendor_body(spec_vendor_body_fields(standard_id, vendor_id, payload).flatten()
            + rest) == Some((standard_id, vendor_id, payload)),
{
    let f = spec_vendor_body_fields(standard_id, vendor_id, payload);
    let len = vendor_id.len() as int;
    let plen = payload.len() as int;
    let b = seq![0u8, 0u8] + spec_u16_bytes(standard_id) + seq![len as u8] + vendor_id
        + spec_u16_bytes(plen as u16) + payload;
    assert(f.flatten() =~= b) by {
        reveal_with_fuel(Seq::<_>::flatten, 8);
    }
    let r = b + rest;
    assert(r[4] == len as u8);
    assert(r[5 + len] == spec_u16_bytes(plen as u16)[0]);
    assert(r[6 + len] == spec_u16_bytes(plen as u16)[1]);
    assert(r.subrange(5, 5 + len) =~= vendor_id);
    assert(r.subrange(7 + len, 7 + len + plen) =~= payload);
    assert(r[2] == spec_u16_bytes(standard_id)[0]);
    assert(r[3] == spec_u16_bytes(standard_id)[1]);
}

/// A VENDOR_DEFINED_RESPONSE can carry any vendor id of at most
/// `MAX_SPDM_VENDOR_DEFINED_VENDOR_ID_LEN` bytes and any payload of at most
/// `MAX_SPDM_VENDOR_DEFINED_PAYLOAD_SIZE` bytes, and none longer; its bytes
/// are the version, 0x7E, two zero parameter bytes, the standard id
/// (little-endian), the vendor id's length and bytes, and the payload's
/// length (little-endian) and bytes.
#[verifier::spinoff_prover]
#[verifier::rlimit(30)]
pub proof fn lemma_vendor_response_bytes(
    version: SpdmVersion,
    standard_id: u16,
    vendor_id: Seq<u8>,
    payload: Seq<u8>,
)
    ensures
        spec_vendor_rsp_fields(version, standard_id, vendor_id, payload) is Some <==> (
        vendor_id.len() <= MAX_SPDM_VENDOR_DEFINED_VENDOR_ID_LEN && payload.len()
            <= MAX_SPDM_VENDOR_DEFINED_PAYLOAD_SIZE),
        spec_vendor_rsp_fields(version, standard_id, vendor_id, payload) matches Some(f)
            ==> f.flatten() == seq![
            version.spec_u8(),
            0x7Eu8,
            0u8,
            0u8,
            (standard_id % 256) as u8,
            (standard_id / 256) as u8,
            vendor_id.len() as u8,
        ] + vendor_id + seq![(payload.len() % 256) as u8, (payload.len() / 256) as u8] + payload,
{
    if vendor_id.len() <= MAX_SPDM_VENDOR_DEFINED_VENDOR_ID_LEN && payload.len()
        <= MAX_SPDM_VENDOR_DEFINED_PAYLOAD_SIZE {
        let h = spec_header_fields(version, SpdmRequestResponseCode::SpdmResponseVendorDefinedResponse);
        let b = spec_vendor_body_fields(standard_id, vendor_id, payload);
        vstd::seq_lib::lemma_flatten_concat(h, b);
        assert(h.flatten() =~= seq![version.spec_u8(), 0x7Eu8]) by {
            reveal_with_fuel(Seq::<_>::flatten, 3);
        }
        assert(b.flatten() =~= seq![0u8, 0u8] + spec_u16_bytes(standard_id) + seq![
            vendor_id.len() as u8,
        ] + vendor_id + spec_u16_bytes(payload.len() as u16) + payload) by {
            reveal_with_fuel(Seq::<_>::flatten, 8);
        }
        assert(spec_vendor_rsp_fields(version, standard_id, vendor_id, payload).unwrap().flatten()
            =~= seq![
            version.spec_u8(),
            0x7Eu8,
            0u8,
            0u8,
            (standard_id % 256) as u8,
            (standard_id / 256) as u8,
            vendor_id.len() as u8,
        ] + vendor_id + seq![(payload.len() % 256) as u8, (payload.len() / 256) as u8] + payload);
    }
}

/// A VENDOR_DEFINED_RESPONSE reads back: its header is the response header
/// of its version, and what follows decodes, consuming all of it, to its
/// standard id, vendor id and payload.
#[verifier::spinoff_prover]
#[verifier::rlimit(30)]
pub proof fn lemma_vendor_response_roundtrip(
    version: SpdmVersion,
    standard_id: u16,
    vendor_id: Seq<u8>,
    payload: Seq<u8>,
)
    requires
        spec_vendor_rsp_fields(version, standard_id, vendor_id, payload) is Some,
    ensures
        ({
            let b = spec_vendor_rsp_fields(version, standard_id, vendor_id, payload).unwrap().flatten();
            &&& spec_read_header(b) == Some(
                SpdmMessageHeader {
                    version: SpdmVersion::spec_from_u8(version.spec_u8()),
                    request_response_code: SpdmRequestResponseCode::SpdmResponseVendorDefinedResponse,
                },
            )
            &&& spec_parse_vendor_body(b.skip(2)) == Some((standard_id, vendor_id, payload))
            &&& b.len() == 2 + spec_vendor_body_len(vendor_id, payload)
        }),
{
    let h = spec_header_fields(version, SpdmRequestResponseCode::SpdmResponseVendorDefinedResponse);
    let f = spec_vendor_body_fields(standard_id, vendor_id, payload);
    vstd::seq_lib::lemma_flatten_concat(h, f);
    assert(h.flatten() =~= seq![version.spec_u8(), 0x7Eu8]) by {
        reveal_with_fuel(Seq::<_>::flatten, 3);
    }
    let b = h.flatten() + f.flatten();
    assert(spec_vendor_rsp_fields(version, standard_id, vendor_id, payload).unwrap().flatten() == b);
    lemma_vendor_body_roundtrip(standard_id, vendor_id, payload, Seq::<u8>::empty());
    assert(f.flatten() + Seq::<u8>::empty() =~= f.flatten());
    assert(b.skip(2) =~= f.flatten());
    assert(f.flatten().len() == spec_vendor_body_len(vendor_id, payload)) by {
        reveal_with_fuel(Seq::<_>::flatten, 8);
    }
}

impl SpdmVendorDefinedRequestPayload {
    /// Reads the body of a VENDOR_DEFINED_REQUEST.
    pub fn spdm_read(r: &mut Reader) -> (res: Option<SpdmVendorDefinedRequestPayload>)
        requires
            old(r).wf(),
        ensures
            final(r).wf(),
            final(r).data() == old(r).data(),
            res is Some <==> spec_parse_vendor_body(old(r).rest()) is Some,
            res matches Some(p) ==> spec_parse_vendor_body(old(r).rest()) == Some(
                (
                    p.standard_id,
                    p.vendor_id.vendor_id@,
                    p.req_payload.vendor_defined_req_payload@,
                ),
            ) && final(r).pos() == old(r).pos() + spec_vendor_body_len(
                p.vendor_id.vendor_id@,
                p.req_payload.vendor_defined_req_payload@,
            ),
    {
        let ghost r0 = r.rest();
        let p1 = r.read_u8();
        if p1.is_none() {
            return None;
        }
        let p2 = r.read_u8();
        if p2.is_none() {
            return None;
        }
        let standard_id = r.read_u16();
        if standard_id.is_none() {
            return None;
        }
        let len = r.read_u8();
        if len.is_none() {
            return None;
        }
        let len = len.unwrap();
        assert(len == r0[4]);
        if len as usize > MAX_SPDM_VENDOR_DEFINED_VENDOR_ID_LEN {
            return None;
        }
        let vendor_id = r.read_bytes(len as usize);
        if vendor_id.is_none() {
            return None;
        }
        let plen = r.read_u16();
        if plen.is_none() {
            return None;
        }
        let plen = plen.unwrap();
        assert(plen == spec_u16_le(r0[5 + len], r0[6 + len]));
        if plen as usize > MAX_SPDM_VENDOR_DEFINED_PAYLOAD_SIZE {
            return None;
        }
        let payload = r.read_bytes(plen as usize);
        if payload.is_none() {
            return None;
        }
        let vendor_id = vendor_id.unwrap();
        let payload = payload.unwrap();
        assert(vendor_id@ =~= r0.subrange(5, 5 + len));
        assert(payload@ =~= r0.subrange(7 + len, 7 + len + plen));
        Some(
            SpdmVendorDefinedRequestPayload {
                standard_id: standard_id.unwrap(),
                vendor_id: VendorIDStruct { vendor_id },
                req_payload: VendorDefinedReqPayloadStruct { vendor_defined_req_payload: payload },
            },
        )
    }
}

/// A copy of a byte vector.
pub fn clone_bytes(v: &Vec<u8>) -> (r: Vec<u8>)
    ensures
        r@ == v@,
{
    let mut r = Vec::new();
    let mut i: usize = 0;
    while i < v.len()
        invariant
            i <= v@.len(),
            r@ == v@.subrange(0, i as int),
        decreases v@.len() - i,
    {
        r.push(v[i]);
        i = i + 1;
        assert(r@ == v@.subrange(0, i as int));
    }
    assert(v@.subrange(0, v@.len() as int) == v@);
    r
}

impl SpdmVendorDefinedResponsePayload {
    /// The fields of a VENDOR_DEFINED_RESPONSE of `version` carrying this
    /// body; `None` where a length is over its bound.
    pub fn message_fields(&self, version: SpdmVersion) -> (r: Option<Vec<Vec<u8>>>)
        ensures
            r is Some <==> spec_vendor_rsp_fields(
                version,
                self.standard_id,
                self.vendor_id.vendor_id@,
                self.rsp_payload.vendor_defined_rsp_payload@,
            ) is Some,
            r matches Some(f) ==> Some(fields_view(f@)) == spec_vendor_rsp_fields(
                version,
                self.standard_id,
                self.vendor_id.vendor_id@,
                self.rsp_payload.vendor_defined_rsp_payload@,
            ),
    {
        let vid = &self.vendor_id.vendor_id;
        let payload = &self.rsp_payload.vendor_defined_rsp_payload;
        if vid.len() > MAX_SPDM_VENDOR_DEFINED_VENDOR_ID_LEN || payload.len()
            > MAX_SPDM_VENDOR_DEFINED_PAYLOAD_SIZE {
            return None;
        }
        let h = SpdmMessageHeader {
            version,
            request_response_code: SpdmRequestResponseCode::SpdmResponseVendorDefinedResponse,
        };
        let mut r = h.encode_fields();
        r.push(byte_field(0));
        r.push(byte_field(0));
        r.push(u16_to_le_bytes(self.standard_id));
        r.push(byte_field(vid.len() as u8));
        r.push(clone_bytes(vid));
        r.push(u16_to_le_bytes(payload.len() as u16));
        r.push(clone_bytes(payload));
        assert(fields_view(r@) =~= spec_vendor_rsp_fields(
            version,
            self.standard_id,
            vid@,
            payload@,
        ).unwrap());
        Some(r)
    }
}

} // verus!
