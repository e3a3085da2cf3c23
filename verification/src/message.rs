use vstd::prelude::*;

use crate::codec::{copy_range, fields_view, spec_u16_le};
use crate::protocol::{SpdmErrorCode, SpdmRequestResponseCode, SpdmVersion};

verus! {

/// A cursor over a received message.
pub struct Reader<'a> {
    buf: &'a [u8],
    offs: usize,
}

impl<'a> Reader<'a> {
    /// The whole message.
    pub closed spec fn data(self) -> Seq<u8> {
        self.buf@
    }

    /// How many bytes have been consumed.
    pub closed spec fn pos(self) -> nat {
        self.offs as nat
    }

    /// The bytes not yet consumed.
    pub open spec fn rest(self) -> Seq<u8> {
        self.data().subrange(self.pos() as int, self.data().len() as int)
    }

    pub closed spec fn wf(self) -> bool {
        self.offs <= self.buf@.len()
    }

    pub fn init(bytes: &'a [u8]) -> (r: Reader<'a>)
        ensures
            r.wf(),
            r.data() == bytes@,
            r.pos() == 0,
            r.rest() == bytes@,
    {
        let r = Reader { buf: bytes, offs: 0 };
        assert(r.rest() == bytes@);
        r
    }

    /// The number of bytes consumed so far.
    pub fn used(&self) -> (r: usize)
        ensures
            r == self.pos(),
    {
        self.offs
    }

    /// The bytes consumed so far.
    pub fn used_slice(&self) -> (r: &'a [u8])
        requires
            self.wf(),
        ensures
            r@ == self.data().subrange(0, self.pos() as int),
    {
        let s: &'a [u8] = self.buf;
        &s[0..self.offs]
    }

    /// Consumes one byte.
    pub fn read_u8(&mut self) -> (r: Option<u8>)
        requires
            old(self).wf(),
        ensures
            final(self).wf(),
            final(self).data() == old(self).data(),
            r is Some <==> old(self).rest().len() >= 1,
            r matches Some(b) ==> b == old(self).rest()[0] && final(self).pos() == old(self).pos()
                + 1 && final(self).rest() == old(self).rest().skip(1),
            r is None ==> final(self).pos() == old(self).pos(),
    {
        if self.offs < self.buf.len() {
            let b = self.buf[self.offs];
            self.offs = self.offs + 1;
            assert(self.rest() == old(self).rest().skip(1));
            Some(b)
        } else {
            None
        }
    }

    /// Consumes a little-endian 16-bit value.
    pub fn read_u16(&mut self) -> (r: Option<u16>)
        requires
            old(self).wf(),
        ensures
            final(self).wf(),
            final(self).data() == old(self).data(),
            r is Some <==> old(self).rest().len() >= 2,
            r matches Some(v) ==> v == spec_u16_le(old(self).rest()[0], old(self).rest()[1])
                && final(self).pos() == old(self).pos() + 2 && final(self).rest() == old(
                self,
            ).rest().skip(2),
            r is None ==> final(self).pos() == old(self).pos(),
    {
        if self.offs < self.buf.len() && self.buf.len() - self.offs >= 2 {
            let lo = self.buf[self.offs] as u16;
            let hi = self.buf[self.offs + 1] as u16;
            self.offs = self.offs + 2;
            assert(self.rest() == old(self).rest().skip(2));
            Some(lo + 256 * hi)
        } else {
            None
        }
    }

    /// Consumes `len` bytes.
    pub fn read_bytes(&mut self, len: usize) -> (r: Option<Vec<u8>>)
        requires
            old(self).wf(),
        ensures
            final(self).wf(),
            final(self).data() == old(self).data(),
            r is Some <==> old(self).rest().len() >= len,
            r matches Some(v) ==> v@ == old(self).rest().take(len as int) && final(self).pos()
                == old(self).pos() + len && final(self).rest() == old(self).rest().skip(len as int),
            r is None ==> final(self).pos() == old(self).pos(),
    {
        if self.buf.len() - self.offs >= len {
            let v = copy_range(self.buf, self.offs, len);
            self.offs = self.offs + len;
            assert(self.rest() == old(self).rest().skip(len as int));
            assert(v@ == old(self).rest().take(len as int));
            Some(v)
        } else {
            None
        }
    }
}

/// The first two bytes of every SPDM message.
#[derive(Clone, Copy, Debug, PartialEq, Eq, Structural)]
pub struct SpdmMessageHeader {
    pub version: SpdmVersion,
    pub request_response_code: SpdmRequestResponseCode,
}

/// The header at the start of `bytes`, if there are two bytes.
pub open spec fn spec_read_header(bytes: Seq<u8>) -> Option<SpdmMessageHeader> {
    if bytes.len() >= 2 {
        Some(
            SpdmMessageHeader {
                version: SpdmVersion::spec_from_u8(bytes[0]),
                request_response_code: SpdmRequestResponseCode::spec_from_u8(bytes[1]),
            },
        )
    } else {
        None
    }
}

/// The encoding of a header: one field per byte.
pub open spec fn spec_header_fields(version: SpdmVersion, code: SpdmRequestResponseCode) -> Seq<
    Seq<u8>,
> {
    seq![seq![version.spec_u8()], seq![code.spec_u8()]]
}

/// A one-byte field.
pub fn byte_field(b: u8) -> (r: Vec<u8>)
    ensures
        r@ == seq![b],
{
    let mut v = Vec::new();
    v.push(b);
    v
}

impl SpdmMessageHeader {
    /// Reads the header at the reader's position.
    pub fn read(r: &mut Reader) -> (res: Option<SpdmMessageHeader>)
        requires
            old(r).wf(),
            old(r).pos() == 0,
        ensures
            final(r).wf(),
            final(r).data() == old(r).data(),
            res == spec_read_header(old(r).data()),
            res is Some ==> final(r).pos() == 2,
    {
        let v = r.read_u8();
        if v.is_none() {
            return None;
        }
        let c = r.read_u8();
        if c.is_none() {
            return None;
        }
        let version = SpdmVersion::from_u8(v.unwrap());
        let code = SpdmRequestResponseCode::from_u8(c.unwrap());
        Some(SpdmMessageHeader { version, request_response_code: code })
    }

    /// The fields of the header's encoding.
    pub fn encode_fields(&self) -> (r: Vec<Vec<u8>>)
        ensures
            fields_view(r@) =~= spec_header_fields(self.version, self.request_response_code),
    {
        let mut r = Vec::new();
        r.push(byte_field(self.version.get_u8()));
        r.push(byte_field(self.request_response_code.get_u8()));
        assert(fields_view(r@) =~= spec_header_fields(self.version, self.request_response_code));
        r
    }
}

/// Reading the encoding of a header gives the header back, whatever follows
/// it, where both values are in the form that decoding produces.
pub proof fn lemma_header_roundtrip(h: SpdmMessageHeader, rest: Seq<u8>)
    requires
        h.version == SpdmVersion::spec_from_u8(h.version.spec_u8()),
        h.request_response_code == SpdmRequestResponseCode::spec_from_u8(
            h.request_response_code.spec_u8(),
        ),
    ensures
        spec_read_header(spec_header_fields(h.version, h.request_response_code).flatten() + rest)
            == Some(h),
{
    let f = spec_header_fields(h.version, h.request_response_code);
    assert(f.flatten() == seq![h.version.spec_u8(), h.request_response_code.spec_u8()]) by {
        reveal_with_fuel(Seq::<_>::flatten, 3);
    }
}

/// The fields of an ERROR response: header, error code, error data; no
/// extended data.
pub open spec fn spec_error_fields(version: SpdmVersion, error_code: SpdmErrorCode, error_data: u8) -> Seq<
    Seq<u8>,
> {
    spec_header_fields(version, SpdmRequestResponseCode::SpdmResponseError) + seq![
        seq![error_code.spec_u8()],
        seq![error_data],
    ]
}

/// The bytes of an ERROR response.
pub open spec fn spec_error_bytes(version: SpdmVersion, error_code: SpdmErrorCode, error_data: u8) -> Seq<u8> {
    seq![version.spec_u8(), 0x7Fu8, error_code.spec_u8(), error_data]
}

pub proof fn lemma_error_fields_flatten(version: SpdmVersion, error_code: SpdmErrorCode, error_data: u8)
    ensures
        spec_error_fields(version, error_code, error_data).flatten() == spec_error_bytes(
            version,
            error_code,
            error_data,
        ),
{
    reveal_with_fuel(Seq::<_>::flatten, 5);
}

/// An ERROR response reads back, with the header reader, as a header of its
/// version and of the ERROR response code.
pub proof fn lemma_error_response_readable(
    version: SpdmVersion,
    error_code: SpdmErrorCode,
    error_data: u8,
)
    ensures
        spec_read_header(spec_error_bytes(version, error_code, error_data)) == Some(
            SpdmMessageHeader {
                version: SpdmVersion::spec_from_u8(version.spec_u8()),
                request_response_code: SpdmRequestResponseCode::SpdmResponseError,
            },
        ),
{
}

/// The fields of an ERROR response.
pub fn error_fields(version: SpdmVersion, error_code: SpdmErrorCode, error_data: u8) -> (r: Vec<Vec<u8>>)
    ensures
        fields_view(r@) =~= spec_error_fields(version, error_code, error_data),
{
    let h = SpdmMessageHeader {
        version,
        request_response_code: SpdmRequestResponseCode::SpdmResponseError,
    };
    let mut r = h.encode_fields();
    r.push(byte_field(error_code.get_u8()));
    r.push(byte_field(error_data));
    assert(fields_view(r@) =~= spec_error_fields(version, error_code, error_data));
    r
}

/// A HEARTBEAT request carries two reserved parameter bytes.
#[derive(Clone, Copy, Debug, PartialEq, Eq, Structural)]
pub struct SpdmHeartbeatRequestPayload {}

/// A HEARTBEAT_ACK response carries two reserved parameter bytes.
#[derive(Clone, Copy, Debug, PartialEq, Eq, Structural)]
pub struct SpdmHeartbeatResponsePayload {}

impl SpdmHeartbeatRequestPayload {
    /// Reads the two parameter bytes of a HEARTBEAT request.
    pub fn spdm_read(r: &mut Reader) -> (res: Option<SpdmHeartbeatRequestPayload>)
        requires
            old(r).wf(),
        ensures
            final(r).wf(),
            final(r).data() == old(r).data(),
            res is Some <==> old(r).rest().len() >= 2,
            res is Some ==> final(r).pos() == old(r).pos() + 2,
    {
        let p1 = r.read_u8();
        if p1.is_none() {
            return None;
        }
        let p2 = r.read_u8();
        if p2.is_none() {
            return None;
        }
        Some(SpdmHeartbeatRequestPayload {  })
    }
}

/// The fields of a HEARTBEAT_ACK response.
pub open spec fn spec_heartbeat_ack_fields(version: SpdmVersion) -> Seq<Seq<u8>> {
    spec_header_fields(version, SpdmRequestResponseCode::SpdmResponseHeartbeatAck) + seq![
        seq![0u8],
        seq![0u8],
    ]
}

/// The bytes of a HEARTBEAT_ACK response.
pub open spec fn spec_heartbeat_ack_bytes(version: SpdmVersion) -> Seq<u8> {
    seq![version.spec_u8(), 0x68u8, 0u8, 0u8]
}

/// A HEARTBEAT_ACK goes out as four bytes: the version, the response code, two zero parameters.
pub proof fn lemma_heartbeat_ack_flatten(version: SpdmVersion)
    ensures
        spec_heartbeat_ack_fields(version).flatten() == spec_heartbeat_ack_bytes(version),
{
    reveal_with_fuel(Seq::<_>::flatten, 5);
}

impl SpdmHeartbeatResponsePayload {
    /// The fields of a HEARTBEAT_ACK response of `version`.
    pub fn message_fields(&self, version: SpdmVersion) -> (r: Vec<Vec<u8>>)
        ensures
            fields_view(r@) =~= spec_heartbeat_ack_fields(version),
    {
        let h = SpdmMessageHeader {
            version,
            request_response_code: SpdmRequestResponseCode::SpdmResponseHeartbeatAck,
        };
        let mut r = h.encode_fields();
        r.push(byte_field(0));
        r.push(byte_field(0));
        assert(fields_view(r@) =~= spec_heartbeat_ack_fields(version));
        r
    }
}

} // verus!
