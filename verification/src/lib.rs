//! Core of an OPAQUE asymmetric password-authenticated key exchange (aPAKE).
//!
//! OPAQUE lets a client prove knowledge of a password to a server and derive a
//! mutually authenticated session key, without the server ever learning the
//! password or a password-equivalent value.  The server stores a blinded,
//! salted credential record from which an offline dictionary attack is
//! infeasible without first compromising the server's long-term secrets.
//!
//! The crate covers the cryptographic state machine itself:
//!
//! 1. an oblivious pseudo-random function (OPRF) over the Ristretto255 group
//!    (blind / evaluate / finalize),
//! 2. the credential envelope (build, seal, recover) binding client key
//!    material to password-derived randomness,
//! 3. the registration flow (request, response, upload), and
//! 4. the three-message authenticated key exchange (KE1/KE2/KE3) layered on
//!    top, with transcript hashing, MAC tags and session-key derivation.
//!
//! The fixed cipher suite is `ristretto255-SHA512`: SHA-512 hashing,
//! HKDF-SHA-512 key derivation, HMAC-SHA-512 tags, and the identity
//! memory-hard function.  Transport, persistence and user-facing identifier
//! handling are out of scope; callers move the message structures between the
//! two parties and store `RegistrationUpload` records keyed by credential
//! identifier.
#![verifier::loop_isolation(false)]

use vstd::prelude::*;

pub mod ake;
pub mod common;
pub mod envelope;
pub mod group;
pub mod hash;
pub mod keys;
pub mod messages;
pub mod oprf;
pub mod rng;

verus! {

use vstd::string::StringExecFns;

/// The error kinds surfaced by the protocol core.
///
/// Nothing is retried internally; every failure is reported to the caller.
/// Error values deliberately do not reveal which MAC byte differed, nor
/// whether a credential record existed.
#[derive(Clone, Copy, Debug, PartialEq, Eq, Structural)]
pub enum OpaqueError {
    /// The operating-system random number source reported a failure.
    RngFailure,
    /// A malformed point, scalar or message length was encountered.
    DeserializationError,
    /// A requested `expand_message_xmd` output would need more than 255 blocks.
    ExpandTooLarge,
    /// The envelope authentication tag did not verify: wrong password,
    /// corrupted record, changed identities, or wrong server key.
    EnvelopeRecoveryError,
    /// A handshake MAC (server or client) did not verify.
    HandshakeError,
    /// A consumed state object was reused, or an internal length contract
    /// between the two parties was broken.
    UsageError,
}

pub fn hello_world() -> (r: String)
    ensures
        r@ == "Hello, world!"@,
{
    String::from_str("Hello, world!")
}

} // verus!
