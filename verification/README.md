# spdmlib

Responder-side message handling of the SPDM protocol (DMTF DSP0274), verified with Verus.

- `src/` is the verified library: the ERROR, HEARTBEAT, VENDOR_DEFINED and PSK_EXCHANGE
  responders (`src/responder/`), the message codecs they use, the connection context with
  its session slots, secured-message version selection, and a software provider of the
  cryptographic services (`SpdmSoftwareCrypto`: SHA-2 through the `sha2` crate, HMAC, the
  SPDM key schedule, and randomness through the `getrandom` crate).
- Cryptographic and secret-holding services reach the responders through the
  `SpdmCryptoProvider` trait, whose contracts the responders' proofs rely on; an integrator
  may supply another implementation.
- `tests/` runs the library on concrete messages.
- `app/` holds the timer callback type, which uses a function pointer.
