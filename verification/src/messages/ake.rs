//! The three messages of the authenticated key exchange and their wire
//! formats.

use vstd::prelude::*;

use crate::OpaqueError;
use crate::common::bytes_concat;
use crate::envelope::{spec_envelope_size, EnvelopeMode};
use crate::messages::credential::{CredentialRequest, CredentialResponse};

verus! {

/// The first AKE message, client to server.
#[derive(Debug)]
pub struct KE1 {
    /// The blinded OPRF element.
    pub request: CredentialRequest,
    /// A fresh random nonce.
    pub client_nonce: Vec<u8>,
    /// The client's ephemeral key share.
    pub client_keyshare: Vec<u8>,
}

impl KE1 {
    pub open spec fn wf(self) -> bool {
        &&& self.request.wf()
        &&& self.client_nonce@.len() == 32
        &&& self.client_keyshare@.len() == 32
    }

    /// `request[32] || client_nonce[32] || client_keyshare[32]`.
    pub open spec fn spec_serialize(self) -> Seq<u8> {
        self.request.spec_serialize() + self.client_nonce@ + self.client_keyshare@
    }

    pub fn serialize(&self) -> (r: Vec<u8>)
        ensures
            r@ == self.spec_serialize(),
    {
        let mut out = self.request.serialize();
        out = bytes_concat(out.as_slice(), self.client_nonce.as_slice());
        out = bytes_concat(out.as_slice(), self.client_keyshare.as_slice());
        out
    }

    pub fn deserialize(bytes: &[u8]) -> (r: Result<KE1, OpaqueError>)
        ensures
            r is Ok <==> bytes@.len() == 96,
            r is Ok ==> r->Ok_0.wf() && r->Ok_0.request.data@ == bytes@.subrange(0, 32)
                && r->Ok_0.client_nonce@ == bytes@.subrange(32, 64) && r->Ok_0.client_keyshare@
                == bytes@.subrange(64, 96) && r->Ok_0.spec_serialize() == bytes@,
            r is Err ==> r->Err_0 == OpaqueError::DeserializationError,
    {
        if bytes.len() != 96 {
            return Err(OpaqueError::DeserializationError);
        }
        let data = vstd::slice::slice_to_vec(vstd::slice::slice_subrange(bytes, 0, 32));
        let client_nonce = vstd::slice::slice_to_vec(vstd::slice::slice_subrange(bytes, 32, 64));
        let client_keyshare = vstd::slice::slice_to_vec(vstd::slice::slice_subrange(bytes, 64, 96));
        let ke1 = KE1 { request: CredentialRequest { data }, client_nonce, client_keyshare };
        proof {
            assert(ke1.spec_serialize() =~= bytes@);
        }
        Ok(ke1)
    }
}

/// The authenticated part of the second AKE message.
#[derive(Debug)]
pub struct InnerKE2 {
    /// The server's credential response.
    pub response: CredentialResponse,
    /// A fresh random nonce.
    pub server_nonce: Vec<u8>,
    /// The server's ephemeral key share.
    pub server_keyshare: Vec<u8>,
}

impl InnerKE2 {
    pub open spec fn wf(self, mode: EnvelopeMode) -> bool {
        &&& self.response.wf(mode)
        &&& self.server_nonce@.len() == 32
        &&& self.server_keyshare@.len() == 32
    }

    /// `response[96+Ne] || server_nonce[32] || server_keyshare[32]`.
    pub open spec fn spec_serialize(self) -> Seq<u8> {
        self.response.spec_serialize() + self.server_nonce@ + self.server_keyshare@
    }

    pub fn serialize(&self) -> (r: Vec<u8>)
        ensures
            r@ == self.spec_serialize(),
    {
        let mut out = self.response.serialize();
        out = bytes_concat(out.as_slice(), self.server_nonce.as_slice());
        out = bytes_concat(out.as_slice(), self.server_keyshare.as_slice());
        out
    }

    pub fn deserialize(mode: EnvelopeMode, bytes: &[u8]) -> (r: Result<InnerKE2, OpaqueError>)
        ensures
            r is Ok <==> bytes@.len() == 160 + spec_envelope_size(mode),
            r is Ok ==> r->Ok_0.wf(mode) && r->Ok_0.response.spec_serialize() == bytes@.subrange(
                0,
                (96 + spec_envelope_size(mode)) as int,
            ) && r->Ok_0.server_nonce@ == bytes@.subrange(
                (96 + spec_envelope_size(mode)) as int,
                (128 + spec_envelope_size(mode)) as int,
            ) && r->Ok_0.server_keyshare@ == bytes@.subrange(
                (128 + spec_envelope_size(mode)) as int,
                (160 + spec_envelope_size(mode)) as int,
            ) && r->Ok_0.spec_serialize() == bytes@,
            r is Err ==> r->Err_0 == OpaqueError::DeserializationError,
    {
        let resp_len: usize = match mode {
            EnvelopeMode::Internal => 192,
            EnvelopeMode::External => 224,
        };
        if bytes.len() != resp_len + 64 {
            return Err(OpaqueError::DeserializationError);
        }
        let response = match CredentialResponse::deserialize(
            mode,
            vstd::slice::slice_subrange(bytes, 0, resp_len),
        ) {
            Ok(v) => v,
            Err(e) => {
                proof {
                    assert(false);
                }
                return Err(e);
            },
        };
        let server_nonce = vstd::slice::slice_to_vec(
            vstd::slice::slice_subrange(bytes, resp_len, resp_len + 32),
        );
        let server_keyshare = vstd::slice::slice_to_vec(
            vstd::slice::slice_subrange(bytes, resp_len + 32, resp_len + 64),
        );
        let inner = InnerKE2 { response, server_nonce, server_keyshare };
        proof {
            assert(inner.spec_serialize() =~= bytes@);
        }
        Ok(inner)
    }
}

/// The second AKE message, server to client.
#[derive(Debug)]
pub struct KE2 {
    /// The authenticated inner part.
    pub inner_ke2: InnerKE2,
    /// The server's transcript MAC.
    pub server_mac: Vec<u8>,
}

impl KE2 {
    pub open spec fn wf(self, mode: EnvelopeMode) -> bool {
        &&& self.inner_ke2.wf(mode)
        &&& self.server_mac@.len() == 64
    }

    /// `inner_ke2 || server_mac[64]`.
    pub open spec fn spec_serialize(self) -> Seq<u8> {
        self.inner_ke2.spec_serialize() + self.server_mac@
    }

    pub fn serialize(&self) -> (r: Vec<u8>)
        ensures
            r@ == self.spec_serialize(),
    {
        let mut out = self.inner_ke2.serialize();
        out = bytes_concat(out.as_slice(), self.server_mac.as_slice());
        out
    }

    pub fn deserialize(mode: EnvelopeMode, bytes: &[u8]) -> (r: Result<KE2, OpaqueError>)
        ensures
            r is Ok <==> bytes@.len() == 224 + spec_envelope_size(mode),
            r is Ok ==> r->Ok_0.wf(mode) && r->Ok_0.inner_ke2.spec_serialize() == bytes@.subrange(
                0,
                (160 + spec_envelope_size(mode)) as int,
            ) && r->Ok_0.server_mac@ == bytes@.subrange(
                (160 + spec_envelope_size(mode)) as int,
                (224 + spec_envelope_size(mode)) as int,
            ) && r->Ok_0.spec_serialize() == bytes@,
            r is Err ==> r->Err_0 == OpaqueError::DeserializationError,
    {
        let inner_len: usize = match mode {
            EnvelopeMode::Internal => 256,
            EnvelopeMode::External => 288,
        };
        if bytes.len() != inner_len + 64 {
            return Err(OpaqueError::DeserializationError);
        }
        let inner_ke2 = match InnerKE2::deserialize(
            mode,
            vstd::slice::slice_subrange(bytes, 0, inner_len),
        ) {
            Ok(v) => v,
            Err(e) => {
                proof {
                    assert(false);
                }
                return Err(e);
            },
        };
        let server_mac = vstd::slice::slice_to_vec(
            vstd::slice::slice_subrange(bytes, inner_len, inner_len + 64),
        );
        let ke2 = KE2 { inner_ke2, server_mac };
        proof {
            assert(ke2.spec_serialize() =~= bytes@);
        }
        Ok(ke2)
    }
}

/// The third AKE message, client to server.
#[derive(Debug)]
pub struct KE3 {
    /// The client's transcript MAC.
    pub client_mac: Vec<u8>,
}

impl KE3 {
    pub open spec fn wf(self) -> bool {
        self.client_mac@.len() == 64
    }

    /// `client_mac[64]`.
    pub open spec fn spec_serialize(self) -> Seq<u8> {
        self.client_mac@
    }

    pub fn serialize(&self) -> (r: Vec<u8>)
        ensures
            r@ == self.spec_serialize(),
    {
        vstd::slice::slice_to_vec(self.client_mac.as_slice())
    }

    pub fn deserialize(bytes: &[u8]) -> (r: Result<KE3, OpaqueError>)
        ensures
            r is Ok <==> bytes@.len() == 64,
            r is Ok ==> r->Ok_0.wf() && r->Ok_0.client_mac@ == bytes@,
            r is Err ==> r->Err_0 == OpaqueError::DeserializationError,
    {
        if bytes.len() != 64 {
            return Err(OpaqueError::DeserializationError);
        }
        Ok(KE3 { client_mac: vstd::slice::slice_to_vec(bytes) })
    }
}

} // verus!
