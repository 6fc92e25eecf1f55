//! The server's self-signed certificate identity and its fingerprint.
use vstd::prelude::*;
use rcgen::{Certificate, CertificateParams, KeyPair};
use rustls::pki_types::{CertificateDer, PrivateKeyDer, PrivatePkcs8KeyDer};

verus! {

#[verifier::external_type_specification]
#[verifier::external_body]
pub struct ExKeyPair(KeyPair);

#[verifier::external_type_specification]
#[verifier::external_body]
pub struct ExCertificateParams(CertificateParams);

#[verifier::external_type_specification]
#[verifier::external_body]
pub struct ExCertificate(Certificate);

#[verifier::external_type_specification]
#[verifier::external_body]
pub struct ExRcgenError(rcgen::Error);

#[verifier::external_type_specification]
#[verifier::external_body]
pub struct ExIoError(std::io::Error);

#[verifier::external_type_specification]
#[verifier::external_body]
pub struct ExCertificateDer<'a>(CertificateDer<'a>);

#[verifier::external_type_specification]
#[verifier::external_body]
pub struct ExPrivateKeyDer<'a>(PrivateKeyDer<'a>);

/// Why an identity could not be made, stored or used.
#[derive(Debug)]
pub enum CertError {
    Generation(rcgen::Error),
    Io(std::io::Error),
    InvalidDer,
    InvalidKey,
}

/// Every character of `s` is ASCII.
pub open spec fn all_ascii(s: Seq<char>) -> bool {
    forall|i: int| 0 <= i < s.len() ==> (s[i] as u32) < 128
}

/// Every character of `s` may occur in the text of an IP address: decimal
/// and hexadecimal digits, `.` and `:`. A name with any other character is
/// neither an IPv4 address (dotted decimal) nor an IPv6 address
/// (hexadecimal groups separated by colons, possibly ending in dotted
/// decimal).
pub open spec fn ip_address_chars(s: Seq<char>) -> bool {
    forall|i: int|
        0 <= i < s.len() ==> ('0' <= #[trigger] s[i] <= '9' || 'a' <= s[i] <= 'f' || 'A' <= s[i]
            <= 'F' || s[i] == '.' || s[i] == ':')
}

/// The PKCS#8 DER of the private key that an rcgen key pair holds.
pub uninterp spec fn key_pair_der_of(key: KeyPair) -> Seq<u8>;

/// The DER of the public key (SubjectPublicKeyInfo) of an rcgen key pair.
pub uninterp spec fn key_pair_public_key_of(key: KeyPair) -> Seq<u8>;

/// The subject alternative names that rcgen certificate parameters hold, in
/// order: the text of each DNS name, `None` for a name of another kind.
pub uninterp spec fn subject_alt_names_of(params: CertificateParams) -> Seq<Option<Seq<char>>>;

/// The subject alternative names of the parameters an rcgen certificate was
/// made from, as `subject_alt_names_of` gives them.
pub uninterp spec fn certificate_subject_alt_names_of(cert: Certificate) -> Seq<
    Option<Seq<char>>,
>;

/// The subject public key (SubjectPublicKeyInfo DER) that an rcgen
/// certificate holds.
pub uninterp spec fn certificate_public_key_of(cert: Certificate) -> Seq<u8>;

/// The DER bytes of an rcgen certificate.
pub uninterp spec fn certificate_der_of(cert: Certificate) -> Seq<u8>;

/// The bytes a rustls certificate holds.
pub uninterp spec fn certificate_der_contents(cert: CertificateDer<'static>) -> Seq<u8>;

/// The DER bytes a rustls private key holds (`PrivateKeyDer::secret_der`).
pub uninterp spec fn private_key_der_contents(key: PrivateKeyDer<'static>) -> Seq<u8>;

/// The SHA-256 digest of a byte string.
pub uninterp spec fn sha256(data: Seq<u8>) -> Seq<u8>;

/// Largest input (in bytes) whose bit length fits the 64-bit length field
/// of SHA-256; `ring` refuses longer input with a panic.
pub const SHA256_MAX_INPUT: u64 = 0x1fff_ffff_ffff_ffff;

/// Calls `ring::digest::digest` with `ring::digest::SHA256` and copies the
/// 32-byte result out. Trusted to return the SHA-256 digest of `data`; ring
/// panics only on input longer than `SHA256_MAX_INPUT` bytes.
#[verifier::external_body]
fn sha256_digest(data: &[u8]) -> (r: [u8; 32])
    requires
        data@.len() <= SHA256_MAX_INPUT,
    ensures
        r@ == sha256(data@),
{
    let digest = ring::digest::digest(&ring::digest::SHA256, data);
    let mut out = [0u8; 32];
    out.copy_from_slice(digest.as_ref());
    out
}

/// Calls `rcgen::KeyPair::generate`: a fresh random ECDSA P-256 key pair, or
/// the error of the random source; then `rcgen::KeyPair::serialize_der` on
/// that key for its PKCS#8 DER (which panics only for remote key pairs,
/// never for a generated one). Trusted to return with the key the PKCS#8
/// DER it holds (`serialize_der` clones it); nothing more is stated of the
/// key, which is random.
#[verifier::external_body]
fn generate_key_pair() -> (r: Result<(KeyPair, Vec<u8>), rcgen::Error>)
    ensures
        r matches Ok((key, der)) ==> der@ == key_pair_der_of(key),
{
    let key = KeyPair::generate()?;
    let der = key.serialize_der();
    Ok((key, der))
}

/// Calls `rcgen::CertificateParams::new` with the given subject alternative
/// names. Trusted to succeed exactly when every name is ASCII: each name is
/// taken as an IP address if it parses as one, else as a DNS name, which
/// rcgen refuses only when it holds a character outside ASCII. Trusted too
/// to hold one subject alternative name per name, in order: a DNS name with
/// that text, or another kind (an IP address), the latter only for a name
/// whose characters may all occur in an IP address. Nothing else is stated
/// of the parameters.
#[verifier::external_body]
fn certificate_params(names: Vec<String>) -> (r: Result<CertificateParams, rcgen::Error>)
    ensures
        r is Ok <==> forall|i: int| 0 <= i < names@.len() ==> all_ascii(#[trigger] names@[i]@),
        r matches Ok(params) ==> {
            let sans = subject_alt_names_of(params);
            &&& sans.len() == names@.len()
            &&& forall|i: int|
                0 <= i < names@.len() ==> (#[trigger] sans[i] is None || sans[i] == Some(
                    names@[i]@,
                )) && (!ip_address_chars(names@[i]@) ==> sans[i] == Some(names@[i]@))
        },
{
    CertificateParams::new(names)
}

/// Calls `rcgen::CertificateParams::self_signed`: the certificate of
/// `params` signed with `key`. Trusted to keep the parameters' subject
/// alternative names and to hold `key`'s public key as its subject key;
/// nothing is stated of the signature, which is randomised.
#[verifier::external_body]
fn self_signed(params: CertificateParams, key: &KeyPair) -> (r: Result<Certificate, rcgen::Error>)
    ensures
        r matches Ok(cert) ==> certificate_subject_alt_names_of(cert) == subject_alt_names_of(params)
            && certificate_public_key_of(cert) == key_pair_public_key_of(*key),
{
    params.self_signed(key)
}

/// Calls `rcgen::Certificate::der` and copies the DER bytes out.
#[verifier::external_body]
fn certificate_der_bytes(cert: &Certificate) -> (r: Vec<u8>)
    ensures
        r@ == certificate_der_of(*cert),
{
    cert.der().to_vec()
}

/// Calls `CertificateDer::from(Vec<u8>)`, which keeps the vector as the
/// certificate's bytes. Only the bytes are stated: the value also carries
/// the buffer it took over.
#[verifier::external_body]
fn certificate_der_from(der: Vec<u8>) -> (r: CertificateDer<'static>)
    ensures
        certificate_der_contents(r) == der@,
{
    CertificateDer::from(der)
}

/// Calls `PrivatePkcs8KeyDer::from(Vec<u8>)` and wraps it as
/// `PrivateKeyDer::Pkcs8`, which keeps the vector as the key's bytes. Only
/// the bytes are stated: the value also carries the buffer it took over.
#[verifier::external_body]
fn pkcs8_key_from(der: Vec<u8>) -> (r: PrivateKeyDer<'static>)
    ensures
        private_key_der_contents(r) == der@,
{
    PrivateKeyDer::Pkcs8(PrivatePkcs8KeyDer::from(der))
}

/// A certificate and its private key, both DER encoded.
pub struct Identity {
    pub cert_der: Vec<u8>,
    pub key_der: Vec<u8>,
}

/// The DER bytes `cert_der` and `key_der` are those of a certificate for
/// the one DNS name "vesa" and of the key pair whose public key it holds.
pub open spec fn is_vesa_identity(cert_der: Seq<u8>, key_der: Seq<u8>) -> bool {
    exists|cert: Certificate, key: KeyPair|
        {
            &&& cert_der == #[trigger] certificate_der_of(cert)
            &&& key_der == #[trigger] key_pair_der_of(key)
            &&& certificate_public_key_of(cert) == key_pair_public_key_of(key)
            &&& certificate_subject_alt_names_of(cert) == seq![Some("vesa"@)]
        }
}

impl Identity {
    /// A fresh self-signed certificate for the name "vesa" with a new random
    /// key. Only key generation and signing can fail: the name is accepted.
    pub fn generate() -> (r: Result<Self, CertError>)
        ensures
            r matches Err(e) ==> e is Generation,
            r matches Ok(id) ==> is_vesa_identity(id.cert_der@, id.key_der@),
    {
        let (key_pair, key_der) = match generate_key_pair() {
            Ok(k) => k,
            Err(e) => return Err(CertError::Generation(e)),
        };
        let names = vec!["vesa".to_owned()];
        proof {
            reveal_strlit("vesa");
            assert(all_ascii(names@[0]@));
            assert(!ip_address_chars(names@[0]@)) by {
                assert(names@[0]@[0] == 'v');
            }
        }
        let params = match certificate_params(names) {
            Ok(p) => p,
            Err(e) => {
                // Not reached: the one name is ASCII.
                assert(false);
                return Err(CertError::Generation(e));
            },
        };
        let cert = match self_signed(params, &key_pair) {
            Ok(c) => c,
            Err(e) => return Err(CertError::Generation(e)),
        };
        let cert_der = certificate_der_bytes(&cert);
        proof {
            let sans = certificate_subject_alt_names_of(cert);
            assert(sans[0] == Some(names@[0]@));
            assert(sans =~= seq![Some("vesa"@)]);
            assert(is_vesa_identity(cert_der@, key_der@));
        }
        Ok(Identity { cert_der, key_der })
    }

    /// The SHA-256 digest of the certificate.
    pub fn fingerprint(&self) -> (r: [u8; 32])
        requires
            self.cert_der@.len() <= SHA256_MAX_INPUT,
        ensures
            r@ == sha256(self.cert_der@),
    {
        sha256_digest(self.cert_der.as_slice())
    }

    /// The certificate for rustls.
    pub fn rustls_cert(&self) -> (r: CertificateDer<'static>)
        ensures
            certificate_der_contents(r) == self.cert_der@,
    {
        certificate_der_from(self.cert_der.clone())
    }

    /// The private key for rustls, as PKCS#8.
    pub fn rustls_key(&self) -> (r: Result<PrivateKeyDer<'static>, CertError>)
        ensures
            r matches Ok(k) && private_key_der_contents(k) == self.key_der@,
    {
        Ok(pkcs8_key_from(self.key_der.clone()))
    }
}

/// The SHA-256 fingerprint of a DER-encoded certificate, as presented by a
/// peer.
pub fn certificate_fingerprint(der: &[u8]) -> (r: [u8; 32])
    requires
        der@.len() <= SHA256_MAX_INPUT,
    ensures
        r@ == sha256(der@),
{
    sha256_digest(der)
}

/// What to do with a server's certificate, trusting it on first use.
#[derive(Debug, Clone, Copy, PartialEq, Eq, Structural)]
pub enum TrustDecision {
    /// The fingerprint matches the one remembered for this server.
    Trust,
    /// Nothing is remembered for this server: trust it and remember it.
    TrustAndRemember,
    /// The fingerprint differs from the one remembered: refuse the server.
    Reject,
}

/// Trust on first use: a server seen for the first time is trusted and
/// remembered; afterwards only the remembered fingerprint is trusted.
pub open spec fn trust_decision_spec(stored: Option<Seq<u8>>, presented: Seq<u8>) -> TrustDecision {
    match stored {
        None => TrustDecision::TrustAndRemember,
        Some(s) => if s == presented {
            TrustDecision::Trust
        } else {
            TrustDecision::Reject
        },
    }
}

/// Decides on the fingerprint `presented` by a server, given the one
/// remembered for it, if any.
pub fn trust_decision(stored: Option<[u8; 32]>, presented: &[u8; 32]) -> (d: TrustDecision)
    ensures
        d == trust_decision_spec(
            match stored {
                Some(s) => Some(s@),
                None => None,
            },
            presented@,
        ),
{
    match stored {
        None => TrustDecision::TrustAndRemember,
        Some(s) => {
            let mut i: usize = 0;
            while i < 32
                invariant
                    i <= 32,
                    stored == Some(s),
                    s@.len() == 32,
                    presented@.len() == 32,
                    forall|j: int| 0 <= j < i ==> s@[j] == presented@[j],
                decreases 32 - i,
            {
                if s[i] != presented[i] {
                    assert(s@[i as int] != presented@[i as int]);
                    return TrustDecision::Reject;
                }
                i = i + 1;
            }
            assert(s@ =~= presented@);
            TrustDecision::Trust
        },
    }
}

/// The fingerprint remembered in a stored record: the record is exactly the
/// 32 bytes of the fingerprint.
pub fn stored_fingerprint(record: &[u8]) -> (r: Option<[u8; 32]>)
    ensures
        r matches Some(f) <==> record@.len() == 32,
        r matches Some(f) ==> f@ == record@,
{
    if record.len() != 32 {
        return None;
    }
    let mut f: [u8; 32] = [0u8; 32];
    let mut i: usize = 0;
    while i < 32
        invariant
            i <= 32,
            record@.len() == 32,
            f@.len() == 32,
            forall|j: int| 0 <= j < i ==> f@[j] == record@[j],
        decreases 32 - i,
    {
        f.set(i, record[i]);
        i = i + 1;
    }
    assert(f@ =~= record@);
    Some(f)
}

/// Trust on first use: once a server's fingerprint is remembered, that
/// fingerprint is trusted on every later connection and every other one is
/// rejected; before that, whatever is presented is trusted and remembered.
pub proof fn lemma_trust_on_first_use(remembered: Seq<u8>, presented: Seq<u8>)
    ensures
        trust_decision_spec(None, presented) == TrustDecision::TrustAndRemember,
        trust_decision_spec(Some(presented), presented) == TrustDecision::Trust,
        trust_decision_spec(Some(remembered), presented) == TrustDecision::Trust <==> remembered
            == presented,
        remembered != presented ==> trust_decision_spec(Some(remembered), presented)
            == TrustDecision::Reject,
{
}

} // verus!
