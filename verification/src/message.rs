//! The requests that a host sends to the service machine, and its answers.

use vstd::prelude::*;

verus! {

/// What is sent to the service machine.
#[derive(Clone, Debug, PartialEq, Eq)]
pub enum ServiceVmRequest {
    /// A request that the service machine answers.
    Process(Request),
    /// Shuts the service machine down. No answer is expected.
    Shutdown,
}

/// A request that the service machine answers.
#[derive(Clone, Debug, PartialEq, Eq)]
pub enum Request {
    /// Reverses the order of the bytes that are given.
    Reverse(Vec<u8>),
    /// Makes a new key pair that the remote server can attest.
    GenerateEcdsaP256KeyPair,
    /// Makes a request for certificates, to be sent to the provisioning server.
    GenerateCertificateRequest(GenerateCertificateRequestParams),
}

/// The answer to a request.
#[derive(Clone, Debug, PartialEq, Eq)]
pub enum Response {
    /// The bytes in reverse order.
    Reverse(Vec<u8>),
    /// The new key pair.
    GenerateEcdsaP256KeyPair(EcdsaP256KeyPair),
    /// The request for certificates as bytes.
    GenerateCertificateRequest(Vec<u8>),
    /// The request could not be answered.
    Error(RequestProcessingError),
}

/// A function of the cryptography library that can fail.
#[derive(Clone, Copy, Debug, PartialEq, Eq, Structural)]
pub enum ApiName {
    EvpSha256,
    Hmac,
}

/// Why a request could not be answered.
#[derive(Clone, Copy, Debug, PartialEq, Eq, Structural)]
pub enum RequestProcessingError {
    /// A call into the cryptography library failed.
    BoringSslError(ApiName),
    /// A signed object could not be read or written.
    CosetError,
    /// Something unexpected happened.
    InternalError,
    /// A key that is to be signed has no valid authentication code.
    InvalidMac,
    /// A key that is to be signed has no payload.
    KeyToSignHasEmptyPayload,
    /// A value could not be turned into bytes, or bytes into a value.
    CborValueError,
}

/// What the request for certificates is made of.
#[derive(Clone, Debug, PartialEq, Eq)]
pub struct GenerateCertificateRequestParams {
    /// The keys to certify.
    pub keys_to_sign: Vec<Vec<u8>>,
    /// Bytes of the provisioning server that go into what is signed, at most 64.
    pub challenge: Vec<u8>,
}

/// A key pair.
#[derive(Clone, Debug, PartialEq, Eq)]
pub struct EcdsaP256KeyPair {
    /// The public key with its authentication code, as bytes.
    pub maced_public_key: Vec<u8>,
    /// A handle to the private key.
    pub key_blob: Vec<u8>,
}

/// Checks the authentication code `tag` of a key against the code that was computed
/// for it.
pub fn verify_tag(tag: &Vec<u8>, computed_tag: &Vec<u8>) -> (r: Result<(), RequestProcessingError>)
    ensures
        r == (if tag@ == computed_tag@ {
            Ok::<(), RequestProcessingError>(())
        } else {
            Err::<(), RequestProcessingError>(RequestProcessingError::InvalidMac)
        }),
{
    if tag.len() != computed_tag.len() {
        return Err(RequestProcessingError::InvalidMac);
    }
    let mut i: usize = 0;
    while i < tag.len()
        invariant
            i <= tag@.len(),
            tag@.len() == computed_tag@.len(),
            forall|j: int| 0 <= j < i ==> tag@[j] == computed_tag@[j],
        decreases tag@.len() - i,
    {
        if tag[i] != computed_tag[i] {
            return Err(RequestProcessingError::InvalidMac);
        }
        i += 1;
    }
    assert(tag@ =~= computed_tag@);
    Ok(())
}

} // verus!
