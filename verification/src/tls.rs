use vstd::prelude::*;
use crate::error::{ErrorKind, MediaSoupError};
use tokio_rustls::rustls::pki_types::PrivateKeyDer;

verus! {

/// The encodings a PEM private key section can hold.
#[derive(Debug, Clone, Copy, PartialEq, Eq, Structural)]
pub enum PemKeyKind {
    /// `RSA PRIVATE KEY`: PKCS#1.
    Pkcs1,
    /// `EC PRIVATE KEY`: SEC1.
    Sec1,
    /// `PRIVATE KEY`: PKCS#8.
    Pkcs8,
}

/// What reading every certificate of a PEM file gives: the DER bytes of each
/// certificate section in file order, or the reason the file cannot be read.
pub uninterp spec fn pem_certificates(pem: Seq<u8>) -> Result<Seq<Seq<u8>>, Seq<char>>;

/// What looking for the first private key of a PEM file gives: the kind and
/// DER bytes of the first key section, none when there is no key section, or
/// the reason the file cannot be read.
pub uninterp spec fn pem_private_key(pem: Seq<u8>) -> Result<Option<(PemKeyKind, Seq<u8>)>, Seq<char>>;

/// The model of a list of DER byte strings.
pub open spec fn ders_view(ders: Seq<Vec<u8>>) -> Seq<Seq<u8>> {
    Seq::new(ders.len(), |i: int| ders[i]@)
}

/// `rustls_pemfile::certs`, collected: the DER bytes of every X.509
/// certificate section of the PEM text in order, or the text of the first
/// read error.  Both are a function of the input bytes.
#[verifier::external_body]
fn read_pem_certificates(pem: &[u8]) -> (r: Result<Vec<Vec<u8>>, String>)
    ensures
        match (r, pem_certificates(pem@)) {
            (Ok(certs), Ok(ders)) => ders_view(certs@) == ders,
            (Err(text), Err(reason)) => text@ == reason,
            _ => false,
        },
{
    let mut reader: &[u8] = pem;
    let mut certs: Vec<Vec<u8>> = Vec::new();
    for item in rustls_pemfile::certs(&mut reader) {
        match item {
            Ok(cert) => certs.push(cert.as_ref().to_vec()),
            Err(e) => return Err(e.to_string()),
        }
    }
    Ok(certs)
}

/// `rustls_pemfile::private_key`: the first private key section (PKCS#1,
/// SEC1 or PKCS#8) of the PEM text with its DER bytes, none when there is no
/// key section, or the text of the read error.  All are a function of the
/// input bytes.  (The function yields only these three kinds; a kind added
/// by a later version of the key type is reported as an error.)
#[verifier::external_body]
fn read_pem_private_key(pem: &[u8]) -> (r: Result<Option<(PemKeyKind, Vec<u8>)>, String>)
    ensures
        match (r, pem_private_key(pem@)) {
            (Ok(Some((kind, der))), Ok(Some((k, d)))) => kind == k && der@ == d,
            (Ok(None), Ok(None)) => true,
            (Err(text), Err(reason)) => text@ == reason,
            _ => false,
        },
{
    let mut reader: &[u8] = pem;
    match rustls_pemfile::private_key(&mut reader) {
        Ok(None) => Ok(None),
        Ok(Some(PrivateKeyDer::Pkcs1(k))) => Ok(Some((PemKeyKind::Pkcs1, k.secret_pkcs1_der().to_vec()))),
        Ok(Some(PrivateKeyDer::Sec1(k))) => Ok(Some((PemKeyKind::Sec1, k.secret_sec1_der().to_vec()))),
        Ok(Some(PrivateKeyDer::Pkcs8(k))) => Ok(Some((PemKeyKind::Pkcs8, k.secret_pkcs8_der().to_vec()))),
        Ok(Some(_)) => Err("unsupported private key kind".to_string()),
        Err(e) => Err(e.to_string()),
    }
}

/// The certificate chain and private key a TLS listener serves with, as DER.
pub struct TlsMaterial {
    /// The certificate chain, leaf first, as in the PEM file.
    pub certificates: Vec<Vec<u8>>,
    pub key_kind: PemKeyKind,
    pub private_key: Vec<u8>,
}

/// Why a certificate chain and key cannot serve, checking the certificate
/// file first and then the key file; `None` when both are usable.
pub open spec fn tls_material_failure(
    cert_pem: Seq<u8>,
    key_pem: Seq<u8>,
    cert_path: Seq<char>,
    key_path: Seq<char>,
) -> Option<Seq<char>> {
    match pem_certificates(cert_pem) {
        Err(reason) => Some("Invalid TLS certificate: "@ + reason),
        Ok(ders) => if ders.len() == 0 {
            Some("No certificates found in "@ + cert_path)
        } else {
            match pem_private_key(key_pem) {
                Err(reason) => Some("Invalid TLS private key: "@ + reason),
                Ok(found) => if found is None {
                    Some("No private key found in "@ + key_path)
                } else {
                    None
                },
            }
        },
    }
}

/// Reads the certificate chain and private key from the contents of their
/// PEM files (the paths are only used in error messages).
pub fn load_tls_material(cert_pem: &[u8], key_pem: &[u8], cert_path: &str, key_path: &str) -> (r: Result<TlsMaterial, MediaSoupError>)
    ensures
        match tls_material_failure(cert_pem@, key_pem@, cert_path@, key_path@) {
            Some(reason) => r matches Err(e) && e@ == (ErrorKind::Config, reason),
            None => r matches Ok(m) && pem_certificates(cert_pem@) == Ok::<Seq<Seq<u8>>, Seq<char>>(
                ders_view(m.certificates@),
            ) && pem_private_key(key_pem@) == Ok::<Option<(PemKeyKind, Seq<u8>)>, Seq<char>>(
                Some((m.key_kind, m.private_key@)),
            ),
        },
{
    let certificates = match read_pem_certificates(cert_pem) {
        Ok(certs) => certs,
        Err(reason) => {
            let text = "Invalid TLS certificate: ".to_string().concat(reason.as_str());
            return Err(MediaSoupError::Config(text));
        },
    };
    if certificates.len() == 0 {
        let text = "No certificates found in ".to_string().concat(cert_path);
        return Err(MediaSoupError::Config(text));
    }
    let (key_kind, private_key) = match read_pem_private_key(key_pem) {
        Ok(Some(key)) => key,
        Ok(None) => {
            let text = "No private key found in ".to_string().concat(key_path);
            return Err(MediaSoupError::Config(text));
        },
        Err(reason) => {
            let text = "Invalid TLS private key: ".to_string().concat(reason.as_str());
            return Err(MediaSoupError::Config(text));
        },
    };
    Ok(TlsMaterial { certificates, key_kind, private_key })
}

} // verus!
