use vstd::prelude::*;

verus! {

/// SPDM protocol version carried in the first byte of every message.
#[derive(Clone, Copy, Debug, PartialEq, Eq, Structural)]
pub enum SpdmVersion {
    SpdmVersion10,
    SpdmVersion11,
    SpdmVersion12,
    SpdmVersion13,
    Unknown(u8),
}

impl SpdmVersion {
    /// The wire byte of a version.
    pub open spec fn spec_u8(self) -> u8 {
        match self {
            SpdmVersion::SpdmVersion10 => 0x10,
            SpdmVersion::SpdmVersion11 => 0x11,
            SpdmVersion::SpdmVersion12 => 0x12,
            SpdmVersion::SpdmVersion13 => 0x13,
            SpdmVersion::Unknown(x) => x,
        }
    }

    /// The version that a wire byte denotes.
    pub open spec fn spec_from_u8(x: u8) -> SpdmVersion {
        if x == 0x10 {
            SpdmVersion::SpdmVersion10
        } else if x == 0x11 {
            SpdmVersion::SpdmVersion11
        } else if x == 0x12 {
            SpdmVersion::SpdmVersion12
        } else if x == 0x13 {
            SpdmVersion::SpdmVersion13
        } else {
            SpdmVersion::Unknown(x)
        }
    }

    pub fn get_u8(&self) -> (r: u8)
        ensures
            r == self.spec_u8(),
    {
        match self {
            SpdmVersion::SpdmVersion10 => 0x10,
            SpdmVersion::SpdmVersion11 => 0x11,
            SpdmVersion::SpdmVersion12 => 0x12,
            SpdmVersion::SpdmVersion13 => 0x13,
            SpdmVersion::Unknown(x) => *x,
        }
    }

    pub fn from_u8(x: u8) -> (r: SpdmVersion)
        ensures
            r == Self::spec_from_u8(x),
            r.spec_u8() == x,
    {
        if x == 0x10 {
            SpdmVersion::SpdmVersion10
        } else if x == 0x11 {
            SpdmVersion::SpdmVersion11
        } else if x == 0x12 {
            SpdmVersion::SpdmVersion12
        } else if x == 0x13 {
            SpdmVersion::SpdmVersion13
        } else {
            SpdmVersion::Unknown(x)
        }
    }
}

/// Request or response code carried in the second byte of every message.
#[derive(Clone, Copy, Debug, PartialEq, Eq, Structural)]
pub enum SpdmRequestResponseCode {
    SpdmResponseDigests,
    SpdmResponseCertificate,
    SpdmResponseChallengeAuth,
    SpdmResponseVersion,
    SpdmResponseMeasurements,
    SpdmResponseCapabilities,
    SpdmResponseAlgorithms,
    SpdmResponseKeyExchangeRsp,
    SpdmResponseFinishRsp,
    SpdmResponsePskExchangeRsp,
    SpdmResponsePskFinishRsp,
    SpdmResponseHeartbeatAck,
    SpdmResponseKeyUpdateAck,
    SpdmResponseEncapsulatedRequest,
    SpdmResponseEncapsulatedResponseAck,
    SpdmResponseEndSessionAck,
    SpdmResponseVendorDefinedResponse,
    SpdmResponseError,
    SpdmRequestGetDigests,
    SpdmRequestGetCertificate,
    SpdmRequestChallenge,
    SpdmRequestGetVersion,
    SpdmRequestGetMeasurements,
    SpdmRequestGetCapabilities,
    SpdmRequestNegotiateAlgorithms,
    SpdmRequestKeyExchange,
    SpdmRequestFinish,
    SpdmRequestPskExchange,
    SpdmRequestPskFinish,
    SpdmRequestHeartbeat,
    SpdmRequestKeyUpdate,
    SpdmRequestGetEncapsulatedRequest,
    SpdmRequestDeliverEncapsulatedResponse,
    SpdmRequestEndSession,
    SpdmRequestVendorDefinedRequest,
    SpdmRequestRespondIfReady,
    Unknown(u8),
}

impl SpdmRequestResponseCode {
    /// The wire byte of a value.
    pub open spec fn spec_u8(self) -> u8 {
        match self {
            SpdmRequestResponseCode::SpdmResponseDigests => 0x01,
            SpdmRequestResponseCode::SpdmResponseCertificate => 0x02,
            SpdmRequestResponseCode::SpdmResponseChallengeAuth => 0x03,
            SpdmRequestResponseCode::SpdmResponseVersion => 0x04,
            SpdmRequestResponseCode::SpdmResponseMeasurements => 0x60,
            SpdmRequestResponseCode::SpdmResponseCapabilities => 0x61,
            SpdmRequestResponseCode::SpdmResponseAlgorithms => 0x63,
            SpdmRequestResponseCode::SpdmResponseKeyExchangeRsp => 0x64,
            SpdmRequestResponseCode::SpdmResponseFinishRsp => 0x65,
            SpdmRequestResponseCode::SpdmResponsePskExchangeRsp => 0x66,
            SpdmRequestResponseCode::SpdmResponsePskFinishRsp => 0x67,
            SpdmRequestResponseCode::SpdmResponseHeartbeatAck => 0x68,
            SpdmRequestResponseCode::SpdmResponseKeyUpdateAck => 0x69,
            SpdmRequestResponseCode::SpdmResponseEncapsulatedRequest => 0x6A,
            SpdmRequestResponseCode::SpdmResponseEncapsulatedResponseAck => 0x6B,
            SpdmRequestResponseCode::SpdmResponseEndSessionAck => 0x6C,
            SpdmRequestResponseCode::SpdmResponseVendorDefinedResponse => 0x7E,
            SpdmRequestResponseCode::SpdmResponseError => 0x7F,
            SpdmRequestResponseCode::SpdmRequestGetDigests => 0x81,
            SpdmRequestResponseCode::SpdmRequestGetCertificate => 0x82,
            SpdmRequestResponseCode::SpdmRequestChallenge => 0x83,
            SpdmRequestResponseCode::SpdmRequestGetVersion => 0x84,
            SpdmRequestResponseCode::SpdmRequestGetMeasurements => 0xE0,
            SpdmRequestResponseCode::SpdmRequestGetCapabilities => 0xE1,
            SpdmRequestResponseCode::SpdmRequestNegotiateAlgorithms => 0xE3,
            SpdmRequestResponseCode::SpdmRequestKeyExchange => 0xE4,
            SpdmRequestResponseCode::SpdmRequestFinish => 0xE5,
            SpdmRequestResponseCode::SpdmRequestPskExchange => 0xE6,
            SpdmRequestResponseCode::SpdmRequestPskFinish => 0xE7,
            SpdmRequestResponseCode::SpdmRequestHeartbeat => 0xE8,
            SpdmRequestResponseCode::SpdmRequestKeyUpdate => 0xE9,
            SpdmRequestResponseCode::SpdmRequestGetEncapsulatedRequest => 0xEA,
            SpdmRequestResponseCode::SpdmRequestDeliverEncapsulatedResponse => 0xEB,
            SpdmRequestResponseCode::SpdmRequestEndSession => 0xEC,
            SpdmRequestResponseCode::SpdmRequestVendorDefinedRequest => 0xFE,
            SpdmRequestResponseCode::SpdmRequestRespondIfReady => 0xFF,
            SpdmRequestResponseCode::Unknown(x) => x,
        }
    }

    /// The value that a wire byte denotes.
    pub open spec fn spec_from_u8(x: u8) -> SpdmRequestResponseCode {
        if x == 0x01 {
            SpdmRequestResponseCode::SpdmResponseDigests
        } else if x == 0x02 {
            SpdmRequestResponseCode::SpdmResponseCertificate
        } else if x == 0x03 {
            SpdmRequestResponseCode::SpdmResponseChallengeAuth
        } else if x == 0x04 {
            SpdmRequestResponseCode::SpdmResponseVersion
        } else if x == 0x60 {
            SpdmRequestResponseCode::SpdmResponseMeasurements
        } else if x == 0x61 {
            SpdmRequestResponseCode::SpdmResponseCapabilities
        } else if x == 0x63 {
            SpdmRequestResponseCode::SpdmResponseAlgorithms
        } else if x == 0x64 {
            SpdmRequestResponseCode::SpdmResponseKeyExchangeRsp
        } else if x == 0x65 {
            SpdmRequestResponseCode::SpdmResponseFinishRsp
        } else if x == 0x66 {
            SpdmRequestResponseCode::SpdmResponsePskExchangeRsp
        } else if x == 0x67 {
            SpdmRequestResponseCode::SpdmResponsePskFinishRsp
        } else if x == 0x68 {
            SpdmRequestResponseCode::SpdmResponseHeartbeatAck
        } else if x == 0x69 {
            SpdmRequestResponseCode::SpdmResponseKeyUpdateAck
        } else if x == 0x6A {
            SpdmRequestResponseCode::SpdmResponseEncapsulatedRequest
        } else if x == 0x6B {
            SpdmRequestResponseCode::SpdmResponseEncapsulatedResponseAck
        } else if x == 0x6C {
            SpdmRequestResponseCode::SpdmResponseEndSessionAck
        } else if x == 0x7E {
            SpdmRequestResponseCode::SpdmResponseVendorDefinedResponse
        } else if x == 0x7F {
            SpdmRequestResponseCode::SpdmResponseError
        } else if x == 0x81 {
            SpdmRequestResponseCode::SpdmRequestGetDigests
        } else if x == 0x82 {
            SpdmRequestResponseCode::SpdmRequestGetCertificate
        } else if x == 0x83 {
            SpdmRequestResponseCode::SpdmRequestChallenge
        } else if x == 0x84 {
            SpdmRequestResponseCode::SpdmRequestGetVersion
        } else if x == 0xE0 {
            SpdmRequestResponseCode::SpdmRequestGetMeasurements
        } else if x == 0xE1 {
            SpdmRequestResponseCode::SpdmRequestGetCapabilities
        } else if x == 0xE3 {
            SpdmRequestResponseCode::SpdmRequestNegotiateAlgorithms
        } else if x == 0xE4 {
            SpdmRequestResponseCode::SpdmRequestKeyExchange
        } else if x == 0xE5 {
            SpdmRequestResponseCode::SpdmRequestFinish
        } else if x == 0xE6 {
            SpdmRequestResponseCode::SpdmRequestPskExchange
        } else if x == 0xE7 {
            SpdmRequestResponseCode::SpdmRequestPskFinish
        } else if x == 0xE8 {
            SpdmRequestResponseCode::SpdmRequestHeartbeat
        } else if x == 0xE9 {
            SpdmRequestResponseCode::SpdmRequestKeyUpdate
        } else if x == 0xEA {
            SpdmRequestResponseCode::SpdmRequestGetEncapsulatedRequest
        } else if x == 0xEB {
            SpdmRequestResponseCode::SpdmRequestDeliverEncapsulatedResponse
        } else if x == 0xEC {
            SpdmRequestResponseCode::SpdmRequestEndSession
        } else if x == 0xFE {
            SpdmRequestResponseCode::SpdmRequestVendorDefinedRequest
        } else if x == 0xFF {
            SpdmRequestResponseCode::SpdmRequestRespondIfReady
        } else {
            SpdmRequestResponseCode::Unknown(x)
        }
    }

    pub fn get_u8(&self) -> (r: u8)
        ensures
            r == self.spec_u8(),
    {
        match self {
            SpdmRequestResponseCode::SpdmResponseDigests => 0x01,
            SpdmRequestResponseCode::SpdmResponseCertificate => 0x02,
            SpdmRequestResponseCode::SpdmResponseChallengeAuth => 0x03,
            SpdmRequestResponseCode::SpdmResponseVersion => 0x04,
            SpdmRequestResponseCode::SpdmResponseMeasurements => 0x60,
            SpdmRequestResponseCode::SpdmResponseCapabilities => 0x61,
            SpdmRequestResponseCode::SpdmResponseAlgorithms => 0x63,
            SpdmRequestResponseCode::SpdmResponseKeyExchangeRsp => 0x64,
            SpdmRequestResponseCode::SpdmResponseFinishRsp => 0x65,
            SpdmRequestResponseCode::SpdmResponsePskExchangeRsp => 0x66,
            SpdmRequestResponseCode::SpdmResponsePskFinishRsp => 0x67,
            SpdmRequestResponseCode::SpdmResponseHeartbeatAck => 0x68,
            SpdmRequestResponseCode::SpdmResponseKeyUpdateAck => 0x69,
            SpdmRequestResponseCode::SpdmResponseEncapsulatedRequest => 0x6A,
            SpdmRequestResponseCode::SpdmResponseEncapsulatedResponseAck => 0x6B,
            SpdmRequestResponseCode::SpdmResponseEndSessionAck => 0x6C,
            SpdmRequestResponseCode::SpdmResponseVendorDefinedResponse => 0x7E,
            SpdmRequestResponseCode::SpdmResponseError => 0x7F,
            SpdmRequestResponseCode::SpdmRequestGetDigests => 0x81,
            SpdmRequestResponseCode::SpdmRequestGetCertificate => 0x82,
            SpdmRequestResponseCode::SpdmRequestChallenge => 0x83,
            SpdmRequestResponseCode::SpdmRequestGetVersion => 0x84,
            SpdmRequestResponseCode::SpdmRequestGetMeasurements => 0xE0,
            SpdmRequestResponseCode::SpdmRequestGetCapabilities => 0xE1,
            SpdmRequestResponseCode::SpdmRequestNegotiateAlgorithms => 0xE3,
            SpdmRequestResponseCode::SpdmRequestKeyExchange => 0xE4,
            SpdmRequestResponseCode::SpdmRequestFinish => 0xE5,
            SpdmRequestResponseCode::SpdmRequestPskExchange => 0xE6,
            SpdmRequestResponseCode::SpdmRequestPskFinish => 0xE7,
            SpdmRequestResponseCode::SpdmRequestHeartbeat => 0xE8,
            SpdmRequestResponseCode::SpdmRequestKeyUpdate => 0xE9,
            SpdmRequestResponseCode::SpdmRequestGetEncapsulatedRequest => 0xEA,
            SpdmRequestResponseCode::SpdmRequestDeliverEncapsulatedResponse => 0xEB,
            SpdmRequestResponseCode::SpdmRequestEndSession => 0xEC,
            SpdmRequestResponseCode::SpdmRequestVendorDefinedRequest => 0xFE,
            SpdmRequestResponseCode::SpdmRequestRespondIfReady => 0xFF,
            SpdmRequestResponseCode::Unknown(x) => *x,
        }
    }

    pub fn from_u8(x: u8) -> (r: SpdmRequestResponseCode)
        ensures
            r == Self::spec_from_u8(x),
            r.spec_u8() == x,
    {
        if x == 0x01 {
            SpdmRequestResponseCode::SpdmResponseDigests
        } else if x == 0x02 {
            SpdmRequestResponseCode::SpdmResponseCertificate
        } else if x == 0x03 {
            SpdmRequestResponseCode::SpdmResponseChallengeAuth
        } else if x == 0x04 {
            SpdmRequestResponseCode::SpdmResponseVersion
        } else if x == 0x60 {
            SpdmRequestResponseCode::SpdmResponseMeasurements
        } else if x == 0x61 {
            SpdmRequestResponseCode::SpdmResponseCapabilities
        } else if x == 0x63 {
            SpdmRequestResponseCode::SpdmResponseAlgorithms
        } else if x == 0x64 {
            SpdmRequestResponseCode::SpdmResponseKeyExchangeRsp
        } else if x == 0x65 {
            SpdmRequestResponseCode::SpdmResponseFinishRsp
        } else if x == 0x66 {
            SpdmRequestResponseCode::SpdmResponsePskExchangeRsp
        } else if x == 0x67 {
            SpdmRequestResponseCode::SpdmResponsePskFinishRsp
        } else if x == 0x68 {
            SpdmRequestResponseCode::SpdmResponseHeartbeatAck
        } else if x == 0x69 {
            SpdmRequestResponseCode::SpdmResponseKeyUpdateAck
        } else if x == 0x6A {
            SpdmRequestResponseCode::SpdmResponseEncapsulatedRequest
        } else if x == 0x6B {
            SpdmRequestResponseCode::SpdmResponseEncapsulatedResponseAck
        } else if x == 0x6C {
            SpdmRequestResponseCode::SpdmResponseEndSessionAck
        } else if x == 0x7E {
            SpdmRequestResponseCode::SpdmResponseVendorDefinedResponse
        } else if x == 0x7F {
            SpdmRequestResponseCode::SpdmResponseError
        } else if x == 0x81 {
            SpdmRequestResponseCode::SpdmRequestGetDigests
        } else if x == 0x82 {
            SpdmRequestResponseCode::SpdmRequestGetCertificate
        } else if x == 0x83 {
            SpdmRequestResponseCode::SpdmRequestChallenge
        } else if x == 0x84 {
            SpdmRequestResponseCode::SpdmRequestGetVersion
        } else if x == 0xE0 {
            SpdmRequestResponseCode::SpdmRequestGetMeasurements
        } else if x == 0xE1 {
            SpdmRequestResponseCode::SpdmRequestGetCapabilities
        } else if x == 0xE3 {
            SpdmRequestResponseCode::SpdmRequestNegotiateAlgorithms
        } else if x == 0xE4 {
            SpdmRequestResponseCode::SpdmRequestKeyExchange
        } else if x == 0xE5 {
            SpdmRequestResponseCode::SpdmRequestFinish
        } else if x == 0xE6 {
            SpdmRequestResponseCode::SpdmRequestPskExchange
        } else if x == 0xE7 {
            SpdmRequestResponseCode::SpdmRequestPskFinish
        } else if x == 0xE8 {
            SpdmRequestResponseCode::SpdmRequestHeartbeat
        } else if x == 0xE9 {
            SpdmRequestResponseCode::SpdmRequestKeyUpdate
        } else if x == 0xEA {
            SpdmRequestResponseCode::SpdmRequestGetEncapsulatedRequest
        } else if x == 0xEB {
            SpdmRequestResponseCode::SpdmRequestDeliverEncapsulatedResponse
        } else if x == 0xEC {
            SpdmRequestResponseCode::SpdmRequestEndSession
        } else if x == 0xFE {
            SpdmRequestResponseCode::SpdmRequestVendorDefinedRequest
        } else if x == 0xFF {
            SpdmRequestResponseCode::SpdmRequestRespondIfReady
        } else {
            SpdmRequestResponseCode::Unknown(x)
        }
    }
}

/// Error code carried in Param1 of an ERROR response.
#[derive(Clone, Copy, Debug, PartialEq, Eq, Structural)]
pub enum SpdmErrorCode {
    SpdmErrorInvalidRequest,
    SpdmErrorBusy,
    SpdmErrorUnexpectedRequest,
    SpdmErrorUnspecified,
    SpdmErrorDecryptError,
    SpdmErrorUnsupportedRequest,
    SpdmErrorRequestInFlight,
    SpdmErrorInvalidResponseCode,
    SpdmErrorSessionLimitExceeded,
    SpdmErrorSessionRequired,
    SpdmErrorResetRequired,
    SpdmErrorResponseTooLarge,
    SpdmErrorRequestTooLarge,
    SpdmErrorLargeResponse,
    SpdmErrorMessageLost,
    SpdmErrorVersionMismatch,
    SpdmErrorResponseNotReady,
    SpdmErrorRequestResynch,
    SpdmErrorVendorDefined,
    Unknown(u8),
}

impl SpdmErrorCode {
    /// The wire byte of a value.
    pub open spec fn spec_u8(self) -> u8 {
        match self {
            SpdmErrorCode::SpdmErrorInvalidRequest => 0x01,
            SpdmErrorCode::SpdmErrorBusy => 0x03,
            SpdmErrorCode::SpdmErrorUnexpectedRequest => 0x04,
            SpdmErrorCode::SpdmErrorUnspecified => 0x05,
            SpdmErrorCode::SpdmErrorDecryptError => 0x06,
            SpdmErrorCode::SpdmErrorUnsupportedRequest => 0x07,
            SpdmErrorCode::SpdmErrorRequestInFlight => 0x08,
            SpdmErrorCode::SpdmErrorInvalidResponseCode => 0x09,
            SpdmErrorCode::SpdmErrorSessionLimitExceeded => 0x0A,
            SpdmErrorCode::SpdmErrorSessionRequired => 0x0B,
            SpdmErrorCode::SpdmErrorResetRequired => 0x0C,
            SpdmErrorCode::SpdmErrorResponseTooLarge => 0x0D,
            SpdmErrorCode::SpdmErrorRequestTooLarge => 0x0E,
            SpdmErrorCode::SpdmErrorLargeResponse => 0x0F,
            SpdmErrorCode::SpdmErrorMessageLost => 0x10,
            SpdmErrorCode::SpdmErrorVersionMismatch => 0x41,
            SpdmErrorCode::SpdmErrorResponseNotReady => 0x42,
            SpdmErrorCode::SpdmErrorRequestResynch => 0x43,
            SpdmErrorCode::SpdmErrorVendorDefined => 0xFF,
            SpdmErrorCode::Unknown(x) => x,
        }
    }

    /// The value that a wire byte denotes.
    pub open spec fn spec_from_u8(x: u8) -> SpdmErrorCode {
        if x == 0x01 {
            SpdmErrorCode::SpdmErrorInvalidRequest
        } else if x == 0x03 {
            SpdmErrorCode::SpdmErrorBusy
        } else if x == 0x04 {
            SpdmErrorCode::SpdmErrorUnexpectedRequest
        } else if x == 0x05 {
            SpdmErrorCode::SpdmErrorUnspecified
        } else if x == 0x06 {
            SpdmErrorCode::SpdmErrorDecryptError
        } else if x == 0x07 {
            SpdmErrorCode::SpdmErrorUnsupportedRequest
        } else if x == 0x08 {
            SpdmErrorCode::SpdmErrorRequestInFlight
        } else if x == 0x09 {
            SpdmErrorCode::SpdmErrorInvalidResponseCode
        } else if x == 0x0A {
            SpdmErrorCode::SpdmErrorSessionLimitExceeded
        } else if x == 0x0B {
            SpdmErrorCode::SpdmErrorSessionRequired
        } else if x == 0x0C {
            SpdmErrorCode::SpdmErrorResetRequired
        } else if x == 0x0D {
            SpdmErrorCode::SpdmErrorResponseTooLarge
        } else if x == 0x0E {
            SpdmErrorCode::SpdmErrorRequestTooLarge
        } else if x == 0x0F {
            SpdmErrorCode::SpdmErrorLargeResponse
        } else if x == 0x10 {
            SpdmErrorCode::SpdmErrorMessageLost
        } else if x == 0x41 {
            SpdmErrorCode::SpdmErrorVersionMismatch
        } else if x == 0x42 {
            SpdmErrorCode::SpdmErrorResponseNotReady
        } else if x == 0x43 {
            SpdmErrorCode::SpdmErrorRequestResynch
        } else if x == 0xFF {
            SpdmErrorCode::SpdmErrorVendorDefined
        } else {
            SpdmErrorCode::Unknown(x)
        }
    }

    pub fn get_u8(&self) -> (r: u8)
        ensures
            r == self.spec_u8(),
    {
        match self {
            SpdmErrorCode::SpdmErrorInvalidRequest => 0x01,
            SpdmErrorCode::SpdmErrorBusy => 0x03,
            SpdmErrorCode::SpdmErrorUnexpectedRequest => 0x04,
            SpdmErrorCode::SpdmErrorUnspecified => 0x05,
            SpdmErrorCode::SpdmErrorDecryptError => 0x06,
            SpdmErrorCode::SpdmErrorUnsupportedRequest => 0x07,
            SpdmErrorCode::SpdmErrorRequestInFlight => 0x08,
            SpdmErrorCode::SpdmErrorInvalidResponseCode => 0x09,
            SpdmErrorCode::SpdmErrorSessionLimitExceeded => 0x0A,
            SpdmErrorCode::SpdmErrorSessionRequired => 0x0B,
            SpdmErrorCode::SpdmErrorResetRequired => 0x0C,
            SpdmErrorCode::SpdmErrorResponseTooLarge => 0x0D,
            SpdmErrorCode::SpdmErrorRequestTooLarge => 0x0E,
            SpdmErrorCode::SpdmErrorLargeResponse => 0x0F,
            SpdmErrorCode::SpdmErrorMessageLost => 0x10,
            SpdmErrorCode::SpdmErrorVersionMismatch => 0x41,
            SpdmErrorCode::SpdmErrorResponseNotReady => 0x42,
            SpdmErrorCode::SpdmErrorRequestResynch => 0x43,
            SpdmErrorCode::SpdmErrorVendorDefined => 0xFF,
            SpdmErrorCode::Unknown(x) => *x,
        }
    }

    pub fn from_u8(x: u8) -> (r: SpdmErrorCode)
        ensures
            r == Self::spec_from_u8(x),
            r.spec_u8() == x,
    {
        if x == 0x01 {
            SpdmErrorCode::SpdmErrorInvalidRequest
        } else if x == 0x03 {
            SpdmErrorCode::SpdmErrorBusy
        } else if x == 0x04 {
            SpdmErrorCode::SpdmErrorUnexpectedRequest
        } else if x == 0x05 {
            SpdmErrorCode::SpdmErrorUnspecified
        } else if x == 0x06 {
            SpdmErrorCode::SpdmErrorDecryptError
        } else if x == 0x07 {
            SpdmErrorCode::SpdmErrorUnsupportedRequest
        } else if x == 0x08 {
            SpdmErrorCode::SpdmErrorRequestInFlight
        } else if x == 0x09 {
            SpdmErrorCode::SpdmErrorInvalidResponseCode
        } else if x == 0x0A {
            SpdmErrorCode::SpdmErrorSessionLimitExceeded
        } else if x == 0x0B {
            SpdmErrorCode::SpdmErrorSessionRequired
        } else if x == 0x0C {
            SpdmErrorCode::SpdmErrorResetRequired
        } else if x == 0x0D {
            SpdmErrorCode::SpdmErrorResponseTooLarge
        } else if x == 0x0E {
            SpdmErrorCode::SpdmErrorRequestTooLarge
        } else if x == 0x0F {
            SpdmErrorCode::SpdmErrorLargeResponse
        } else if x == 0x10 {
            SpdmErrorCode::SpdmErrorMessageLost
        } else if x == 0x41 {
            SpdmErrorCode::SpdmErrorVersionMismatch
        } else if x == 0x42 {
            SpdmErrorCode::SpdmErrorResponseNotReady
        } else if x == 0x43 {
            SpdmErrorCode::SpdmErrorRequestResynch
        } else if x == 0xFF {
            SpdmErrorCode::SpdmErrorVendorDefined
        } else {
            SpdmErrorCode::Unknown(x)
        }
    }
}

/// Which measurements a key exchange asks to be summarised.
#[derive(Clone, Copy, Debug, PartialEq, Eq, Structural)]
pub enum SpdmMeasurementSummaryHashType {
    SpdmMeasurementSummaryHashTypeNone,
    SpdmMeasurementSummaryHashTypeTcb,
    SpdmMeasurementSummaryHashTypeAll,
    Unknown(u8),
}

impl SpdmMeasurementSummaryHashType {
    /// The wire byte of a value.
    pub open spec fn spec_u8(self) -> u8 {
        match self {
            SpdmMeasurementSummaryHashType::SpdmMeasurementSummaryHashTypeNone => 0x00,
            SpdmMeasurementSummaryHashType::SpdmMeasurementSummaryHashTypeTcb => 0x01,
            SpdmMeasurementSummaryHashType::SpdmMeasurementSummaryHashTypeAll => 0xFF,
            SpdmMeasurementSummaryHashType::Unknown(x) => x,
        }
    }

    /// The value that a wire byte denotes.
    pub open spec fn spec_from_u8(x: u8) -> SpdmMeasurementSummaryHashType {
        if x == 0x00 {
            SpdmMeasurementSummaryHashType::SpdmMeasurementSummaryHashTypeNone
        } else if x == 0x01 {
            SpdmMeasurementSummaryHashType::SpdmMeasurementSummaryHashTypeTcb
        } else if x == 0xFF {
            SpdmMeasurementSummaryHashType::SpdmMeasurementSummaryHashTypeAll
        } else {
            SpdmMeasurementSummaryHashType::Unknown(x)
        }
    }

    pub fn get_u8(&self) -> (r: u8)
        ensures
            r == self.spec_u8(),
    {
        match self {
            SpdmMeasurementSummaryHashType::SpdmMeasurementSummaryHashTypeNone => 0x00,
            SpdmMeasurementSummaryHashType::SpdmMeasurementSummaryHashTypeTcb => 0x01,
            SpdmMeasurementSummaryHashType::SpdmMeasurementSummaryHashTypeAll => 0xFF,
            SpdmMeasurementSummaryHashType::Unknown(x) => *x,
        }
    }

    pub fn from_u8(x: u8) -> (r: SpdmMeasurementSummaryHashType)
        ensures
            r == Self::spec_from_u8(x),
            r.spec_u8() == x,
    {
        if x == 0x00 {
            SpdmMeasurementSummaryHashType::SpdmMeasurementSummaryHashTypeNone
        } else if x == 0x01 {
            SpdmMeasurementSummaryHashType::SpdmMeasurementSummaryHashTypeTcb
        } else if x == 0xFF {
            SpdmMeasurementSummaryHashType::SpdmMeasurementSummaryHashTypeAll
        } else {
            SpdmMeasurementSummaryHashType::Unknown(x)
        }
    }
}

/// Why a request could not be served.
#[derive(Clone, Copy, Debug, PartialEq, Eq, Structural)]
pub enum SpdmStatus {
    /// The peer sent a request the connection state does not allow.
    InvalidStatePeer,
    /// A field of the received message is malformed or not acceptable.
    InvalidMsgField,
    /// A cryptographic operation failed.
    CryptoError,
    /// The local state cannot serve the request (no free session, buffer full).
    InvalidStateLocal,
    /// An argument handed to the library is out of range.
    InvalidParameter,
    /// The requested operation is not supported.
    Unsupported,
}

pub type SpdmResult<T = ()> = Result<T, SpdmStatus>;

pub const SPDM_STATUS_INVALID_STATE_PEER: SpdmStatus = SpdmStatus::InvalidStatePeer;
pub const SPDM_STATUS_INVALID_MSG_FIELD: SpdmStatus = SpdmStatus::InvalidMsgField;
pub const SPDM_STATUS_CRYPTO_ERROR: SpdmStatus = SpdmStatus::CryptoError;
pub const SPDM_STATUS_INVALID_STATE_LOCAL: SpdmStatus = SpdmStatus::InvalidStateLocal;
pub const SPDM_STATUS_INVALID_PARAMETER: SpdmStatus = SpdmStatus::InvalidParameter;

/// How far the connection has progressed; the order of the variants is the
/// order of the negotiation.
#[derive(Clone, Copy, Debug, PartialEq, Eq, Structural)]
pub enum SpdmConnectionState {
    SpdmConnectionNotStarted,
    SpdmConnectionAfterVersion,
    SpdmConnectionAfterCapabilities,
    SpdmConnectionNegotiated,
    SpdmConnectionAfterDigest,
    SpdmConnectionAfterCertificate,
    SpdmConnectionAuthenticated,
}

impl SpdmConnectionState {
    pub open spec fn spec_u8(self) -> u8 {
        match self {
            SpdmConnectionState::SpdmConnectionNotStarted => 0,
            SpdmConnectionState::SpdmConnectionAfterVersion => 1,
            SpdmConnectionState::SpdmConnectionAfterCapabilities => 2,
            SpdmConnectionState::SpdmConnectionNegotiated => 3,
            SpdmConnectionState::SpdmConnectionAfterDigest => 4,
            SpdmConnectionState::SpdmConnectionAfterCertificate => 5,
            SpdmConnectionState::SpdmConnectionAuthenticated => 6,
        }
    }

    pub fn get_u8(&self) -> (r: u8)
        ensures
            r == self.spec_u8(),
    {
        match self {
            SpdmConnectionState::SpdmConnectionNotStarted => 0,
            SpdmConnectionState::SpdmConnectionAfterVersion => 1,
            SpdmConnectionState::SpdmConnectionAfterCapabilities => 2,
            SpdmConnectionState::SpdmConnectionNegotiated => 3,
            SpdmConnectionState::SpdmConnectionAfterDigest => 4,
            SpdmConnectionState::SpdmConnectionAfterCertificate => 5,
            SpdmConnectionState::SpdmConnectionAuthenticated => 6,
        }
    }
}

/// Progress of a secure session.
#[derive(Clone, Copy, Debug, PartialEq, Eq, Structural)]
pub enum SpdmSessionState {
    SpdmSessionNotStarted,
    SpdmSessionHandshaking,
    SpdmSessionEstablished,
}

pub const SPDM_BASE_HASH_ALGO_TPM_ALG_SHA_256: u32 = 0x0000_0001;
pub const SPDM_BASE_HASH_ALGO_TPM_ALG_SHA_384: u32 = 0x0000_0002;
pub const SPDM_BASE_HASH_ALGO_TPM_ALG_SHA_512: u32 = 0x0000_0004;
pub const SPDM_BASE_HASH_ALGO_TPM_ALG_SHA3_256: u32 = 0x0000_0008;
pub const SPDM_BASE_HASH_ALGO_TPM_ALG_SHA3_384: u32 = 0x0000_0010;
pub const SPDM_BASE_HASH_ALGO_TPM_ALG_SHA3_512: u32 = 0x0000_0020;
pub const SPDM_BASE_HASH_ALGO_TPM_ALG_SM3_256: u32 = 0x0000_0040;

/// The negotiated base hash algorithm, as its bit in the ALGORITHMS message.
#[derive(Clone, Copy, Debug, PartialEq, Eq, Structural)]
pub struct SpdmBaseHashAlgo {
    pub bits: u32,
}

impl SpdmBaseHashAlgo {
    /// Digest size in bytes of the algorithm; 0 where no single algorithm is selected.
    pub open spec fn spec_size(self) -> u16 {
        if self.bits == SPDM_BASE_HASH_ALGO_TPM_ALG_SHA_256 {
            32
        } else if self.bits == SPDM_BASE_HASH_ALGO_TPM_ALG_SHA_384 {
            48
        } else if self.bits == SPDM_BASE_HASH_ALGO_TPM_ALG_SHA_512 {
            64
        } else if self.bits == SPDM_BASE_HASH_ALGO_TPM_ALG_SHA3_256 {
            32
        } else if self.bits == SPDM_BASE_HASH_ALGO_TPM_ALG_SHA3_384 {
            48
        } else if self.bits == SPDM_BASE_HASH_ALGO_TPM_ALG_SHA3_512 {
            64
        } else if self.bits == SPDM_BASE_HASH_ALGO_TPM_ALG_SM3_256 {
            32
        } else {
            0
        }
    }

    pub fn get_size(&self) -> (r: u16)
        ensures
            r == self.spec_size(),
            r <= SPDM_MAX_HASH_SIZE,
    {
        if self.bits == SPDM_BASE_HASH_ALGO_TPM_ALG_SHA_256 {
            32
        } else if self.bits == SPDM_BASE_HASH_ALGO_TPM_ALG_SHA_384 {
            48
        } else if self.bits == SPDM_BASE_HASH_ALGO_TPM_ALG_SHA_512 {
            64
        } else if self.bits == SPDM_BASE_HASH_ALGO_TPM_ALG_SHA3_256 {
            32
        } else if self.bits == SPDM_BASE_HASH_ALGO_TPM_ALG_SHA3_384 {
            48
        } else if self.bits == SPDM_BASE_HASH_ALGO_TPM_ALG_SHA3_512 {
            64
        } else if self.bits == SPDM_BASE_HASH_ALGO_TPM_ALG_SM3_256 {
            32
        } else {
            0
        }
    }
}

/// Largest digest of any base hash algorithm.
pub const SPDM_MAX_HASH_SIZE: u16 = 64;

/// Responder capability: pre-shared keys, without a responder context.
pub const SPDM_RSP_CAP_PSK_CAP_WITHOUT_CONTEXT: u32 = 0x0000_0400;
/// Responder capability: pre-shared keys, with a responder context.
pub const SPDM_RSP_CAP_PSK_CAP_WITH_CONTEXT: u32 = 0x0000_0800;

/// Opaque data format 0 (the DSP0277 layout with a spec identifier).
pub const SPDM_OPAQUE_SUPPORT_FMT0: u8 = 0x01;
/// Opaque data format 1 (the general opaque data table of DSP0274 1.2).
pub const SPDM_OPAQUE_SUPPORT_FMT1: u8 = 0x02;

} // verus!
