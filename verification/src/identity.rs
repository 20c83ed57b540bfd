//! The transport identity: a self-signed certificate and its private key.
//!
//! An identity is created once per process run and never persisted: trust is
//! established out of band by handing the certificate bytes to the peer. The
//! key material itself comes from an outside helper; everything here treats
//! it as opaque bytes.

use vstd::prelude::*;

use crate::errors::TransferError;

verus! {

/// One transport identity: the DER-encoded certificate and the matching
/// DER-encoded private key. Immutable once created; the certificate half is
/// what a client needs as its trust anchor.
pub struct Identity {
    /// The DER-encoded self-signed certificate.
    pub certificate: Vec<u8>,
    /// The DER-encoded private key matching the certificate.
    pub private_key: Vec<u8>,
}

/// Relies on rcgen::generate_simple_self_signed: generates a fresh key pair
/// and a self-signed certificate for the given subject name, or fails on a
/// key-generation error. The output is fresh random key material, so nothing
/// is promised of the bytes; a failure here is fatal to the whole process.
#[verifier::external_body]
pub fn generate_identity(subject: &str) -> (r: Result<Identity, TransferError>) {
    match rcgen::generate_simple_self_signed(vec![subject.to_string()]) {
        Ok(generated) => Ok(
            Identity {
                certificate: generated.cert.der().as_ref().to_vec(),
                private_key: generated.signing_key.serialize_der(),
            },
        ),
        Err(_) => Err(TransferError::IdentityError),
    }
}

} // verus!
