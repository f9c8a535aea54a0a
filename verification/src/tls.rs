//! What the server and the client settle about TLS before any handshake.

use std::sync::Arc;
use vstd::prelude::*;

verus! {

/// Days for which a certificate for WebTransport is valid. A browser
/// accepts a certificate by its hash only if it is valid for two weeks at most.
pub const WEBTRANSPORT_CERT_DAYS: i64 = 14;

/// A signature scheme of TLS.
#[derive(Clone, Copy, Debug, PartialEq, Eq, Structural)]
pub enum VerifyScheme {
    RsaPkcs1Sha256,
    RsaPkcs1Sha384,
    RsaPkcs1Sha512,
    EcdsaNistp256Sha256,
    EcdsaNistp384Sha384,
    EcdsaNistp521Sha512,
    RsaPssSha256,
    RsaPssSha384,
    RsaPssSha512,
    Ed25519,
}

/// The schemes that the insecure verifier announces, in its order of preference.
pub open spec fn insecure_schemes() -> Seq<VerifyScheme> {
    seq![
        VerifyScheme::RsaPkcs1Sha256,
        VerifyScheme::RsaPkcs1Sha384,
        VerifyScheme::RsaPkcs1Sha512,
        VerifyScheme::EcdsaNistp256Sha256,
        VerifyScheme::EcdsaNistp384Sha384,
        VerifyScheme::EcdsaNistp521Sha512,
        VerifyScheme::RsaPssSha256,
        VerifyScheme::RsaPssSha384,
        VerifyScheme::RsaPssSha512,
        VerifyScheme::Ed25519,
    ]
}

/// Certificate verifier that skips verification, for development and
/// testing only: it accepts any certificate and any signature, which leaves
/// the connection open to an attacker in the middle.
#[derive(Debug)]
pub struct InsecureCertVerifier;

impl InsecureCertVerifier {
    /// Whether a certificate is accepted: always.
    pub fn accepts_certificate(&self, _end_entity: &[u8]) -> (accepted: bool)
        ensures
            accepted,
    {
        true
    }

    /// Whether a handshake signature is accepted: always.
    pub fn accepts_signature(&self, _message: &[u8], _certificate: &[u8]) -> (accepted: bool)
        ensures
            accepted,
    {
        true
    }

    /// The signature schemes that the verifier announces.
    pub fn supported_verify_schemes(&self) -> (schemes: Vec<VerifyScheme>)
        ensures
            schemes@ == insecure_schemes(),
    {
        let schemes: Vec<VerifyScheme> = vec![
            VerifyScheme::RsaPkcs1Sha256,
            VerifyScheme::RsaPkcs1Sha384,
            VerifyScheme::RsaPkcs1Sha512,
            VerifyScheme::EcdsaNistp256Sha256,
            VerifyScheme::EcdsaNistp384Sha384,
            VerifyScheme::EcdsaNistp521Sha512,
            VerifyScheme::RsaPssSha256,
            VerifyScheme::RsaPssSha384,
            VerifyScheme::RsaPssSha512,
            VerifyScheme::Ed25519,
        ];
        assert(schemes@ =~= insecure_schemes());
        schemes
    }
}

/// Creates an insecure certificate verifier, shared by reference count.
pub fn insecure_verifier() -> (verifier: Arc<InsecureCertVerifier>)
    ensures
        *verifier == InsecureCertVerifier,
{
    Arc::new(InsecureCertVerifier)
}

} // verus!
