//! Self-signed device certificates and their fingerprints.
//!
//! Trust is on first use: during pairing each side pins the other's SHA-256
//! certificate fingerprint, and later connections have to present a
//! certificate with the same fingerprint. Fingerprints are stored as plain
//! lowercase hex without separators.
use super::Error;
use crate::text;
use sha2::Digest;
use vstd::prelude::*;

verus! {

/// File name of the device certificate inside the state directory.
pub const CERT_FILE_NAME: &'static str = "id_cert.der";

/// File name of the device key inside the state directory.
pub const KEY_FILE_NAME: &'static str = "id_key.der";

/// The SHA-256 digest of `bytes`.
pub uninterp spec fn sha256(bytes: Seq<u8>) -> Seq<u8>;

/// Calls `sha2::Sha256::digest`; its 32 bytes are named [`sha256`].
#[verifier::external_body]
fn digest(bytes: &[u8]) -> (r: [u8; 32])
    ensures
        r@ == sha256(bytes@),
{
    sha2::Sha256::digest(bytes).into()
}

/// Device TLS material: leaf certificate, private key and fingerprint.
#[derive(Debug, Clone, PartialEq, Eq)]
pub struct CertPair {
    /// DER-encoded self-signed X.509 certificate.
    pub cert_der: Vec<u8>,
    /// DER-encoded PKCS#8 private key matching `cert_der`.
    pub key_der_pkcs8: Vec<u8>,
    /// SHA-256 digest of the certificate; what peers pin and compare.
    pub fingerprint_sha256: [u8; 32],
}

/// Computes the SHA-256 fingerprint over raw DER certificate bytes.
pub fn cert_fingerprint(cert_der: &[u8]) -> (r: Result<[u8; 32], Error>)
    ensures
        match r {
            Ok(fingerprint) => fingerprint@ == sha256(cert_der@),
            Err(_) => false,
        },
{
    Ok(digest(cert_der))
}

/// Two lowercase hex digits for each byte.
pub open spec fn hex_text(bytes: Seq<u8>) -> Seq<char>
    decreases bytes.len(),
{
    if bytes.len() == 0 {
        Seq::empty()
    } else {
        hex_text(bytes.drop_last()).push(text::digit(bytes.last() as int / 16)).push(
            text::digit(bytes.last() as int % 16),
        )
    }
}

/// Renders bytes as lowercase hex.
pub fn hex(bytes: &[u8]) -> (r: String)
    ensures
        r@ == hex_text(bytes@),
{
    let mut out = String::new();
    let mut i: usize = 0;
    while i < bytes.len()
        invariant
            i <= bytes@.len(),
            out@ == hex_text(bytes@.take(i as int)),
        decreases bytes@.len() - i,
    {
        let byte: u8 = bytes[i];
        assert(bytes@.take(i + 1).drop_last() =~= bytes@.take(i as int));
        out.push(text::digit_char(byte / 16));
        out.push(text::digit_char(byte % 16));
        i += 1;
    }
    assert(bytes@.take(i as int) =~= bytes@);
    out
}

/// Whether `c` is a lowercase hex digit.
pub open spec fn is_hex_digit(c: char) -> bool {
    exists|n: int| 0 <= n < 16 && c == #[trigger] text::digit(n)
}

/// The hex text of `n` bytes has `2 n` characters, all lowercase hex digits.
pub proof fn law_hex_shape(bytes: Seq<u8>)
    ensures
        hex_text(bytes).len() == 2 * bytes.len(),
        forall|i: int| 0 <= i < hex_text(bytes).len() ==> is_hex_digit(#[trigger] hex_text(bytes)[i]),
    decreases bytes.len(),
{
    if bytes.len() > 0 {
        law_hex_shape(bytes.drop_last());
        let t = hex_text(bytes);
        let u = hex_text(bytes.drop_last());
        assert forall|i: int| 0 <= i < t.len() implies is_hex_digit(#[trigger] t[i]) by {
            if i < u.len() {
                assert(t[i] == u[i]);
            } else if i == u.len() {
                assert(t[i] == text::digit(bytes.last() as int / 16));
            } else {
                assert(t[i] == text::digit(bytes.last() as int % 16));
            }
        }
    }
}

/// Different fingerprints have different hex texts.
pub proof fn law_hex_tells_bytes_apart(a: Seq<u8>, b: Seq<u8>)
    requires
        hex_text(a) == hex_text(b),
    ensures
        a == b,
    decreases a.len(),
{
    law_hex_shape(a);
    law_hex_shape(b);
    if a.len() > 0 {
        let x = hex_text(a);
        let p = hex_text(a.drop_last());
        let q = hex_text(b.drop_last());
        law_hex_shape(a.drop_last());
        law_hex_shape(b.drop_last());
        assert(x.take(x.len() - 2) =~= p);
        assert(hex_text(b).take(x.len() - 2) =~= q);
        law_hex_tells_bytes_apart(a.drop_last(), b.drop_last());
        assert(x[x.len() - 1] == text::digit(a.last() as int % 16));
        assert(x[x.len() - 1] == text::digit(b.last() as int % 16));
        assert(x[x.len() - 2] == text::digit(a.last() as int / 16));
        assert(x[x.len() - 2] == text::digit(b.last() as int / 16));
        assert(a =~= a.drop_last().push(a.last()));
        assert(b =~= b.drop_last().push(b.last()));
    } else {
        assert(a =~= b);
    }
}

/// Whether `bytes` begin as the DER of a sequence does, the form of both
/// certificates and keys.
pub open spec fn is_der_sequence(bytes: Seq<u8>) -> bool {
    bytes.len() > 0 && bytes[0] == 0x30
}

/// The object identifier of a common name, 2.5.4.3, in DER, and the tag of the
/// UTF-8 string that follows it.
pub open spec fn common_name_mark() -> Seq<u8> {
    seq![0x06u8, 0x03, 0x55, 0x04, 0x03, 0x0c]
}

/// Whether the mark of a common name stands at position `i` of a certificate
/// and the name itself at position `j`, behind the octets of its length.
pub open spec fn common_name_at(cert_der: Seq<u8>, name: Seq<char>, i: int, j: int) -> bool {
    let mark = common_name_mark();
    let bytes = vstd::utf8::encode_utf8(name);
    &&& 0 <= i
    &&& i + mark.len() < j <= i + mark.len() + 9
    &&& j + bytes.len() <= cert_der.len()
    &&& cert_der.subrange(i, i + mark.len()) == mark
    &&& cert_der.subrange(j, j + bytes.len()) == bytes
}

/// Whether a certificate carries `name` as a common name.
pub open spec fn carries_common_name(cert_der: Seq<u8>, name: Seq<char>) -> bool {
    exists|i: int, j: int| common_name_at(cert_der, name, i, j)
}

/// A step of making a certificate.
#[derive(Debug, Clone, Copy, PartialEq, Eq, Structural)]
pub enum GenerationStep {
    /// Making the key.
    Key,
    /// Setting up the certificate.
    Parameters,
    /// Signing the certificate.
    Signing,
}

/// What is said of a step of making a certificate that failed because of
/// `why`.
pub open spec fn generation_text(step: GenerationStep, why: Seq<char>) -> Seq<char> {
    match step {
        GenerationStep::Key => "device key generation failed: "@ + why,
        GenerationStep::Parameters => "certificate parameters rejected: "@ + why,
        GenerationStep::Signing => "certificate self-signing failed: "@ + why,
    }
}

/// The error about a step of making a certificate that failed because of
/// `why`.
pub fn generation_failure(step: GenerationStep, why: &str) -> (r: Error)
    ensures
        match r {
            Error::Cert(m) => m@ == generation_text(step, why@),
            _ => false,
        },
{
    let what = match step {
        GenerationStep::Key => "device key generation failed: ",
        GenerationStep::Parameters => "certificate parameters rejected: ",
        GenerationStep::Signing => "certificate self-signing failed: ",
    };
    Error::Cert(what.to_owned().concat(why))
}

/// Whether `e` is what is said of some step that failed for some reason.
pub open spec fn is_generation_failure(e: Error) -> bool {
    exists|step: GenerationStep, why: Seq<char>|
        e is Cert && e->Cert_0@ == #[trigger] generation_text(step, why)
}

/// The raw public key of the pair that `rcgen` reads from a PKCS#8 key,
/// `KeyPair::public_key_raw`.
pub uninterp spec fn public_key(key_der: Seq<u8>) -> Seq<u8>;

/// Whether a certificate holds a public key.
pub open spec fn carries_key(cert_der: Seq<u8>, key: Seq<u8>) -> bool {
    exists|i: int|
        0 <= i && i + key.len() <= cert_der.len() && #[trigger] cert_der.subrange(
            i,
            i + key.len(),
        ) == key
}

/// Calls `rcgen::KeyPair::generate` and serializes the new pair in PKCS#8.
/// The serialization is the DER of a sequence; otherwise the key is random and
/// nothing is said of it. An error is its text.
#[verifier::external_body]
fn generate_key() -> (r: Result<Vec<u8>, String>)
    ensures
        match r {
            Ok(der) => is_der_sequence(der@),
            Err(_) => true,
        },
{
    rcgen::KeyPair::generate().map(|pair| pair.serialize_der()).map_err(|err| err.to_string())
}

/// Reads a pair from its PKCS#8 serialization and calls
/// `rcgen::CertificateParams::self_signed` for a certificate of that pair,
/// without alternative names and with the given common name, and takes its
/// DER. That is the DER of a sequence; the common name is written into it as a
/// UTF-8 string, and the pair's public key as it is. The signature is random;
/// of it, the validity and the other fields nothing is said. An error is the
/// step that failed and the error's text.
#[verifier::external_body]
fn self_sign(key_der: &[u8], common_name: &str) -> (r: Result<Vec<u8>, (GenerationStep, String)>)
    ensures
        match r {
            Ok(der) => {
                &&& is_der_sequence(der@)
                &&& carries_common_name(der@, common_name@)
                &&& carries_key(der@, public_key(key_der@))
            },
            Err(_) => true,
        },
{
    let pair = rcgen::KeyPair::try_from(key_der)
        .map_err(|err| (GenerationStep::Key, err.to_string()))?;
    let mut params = rcgen::CertificateParams::new(Vec::<String>::new())
        .map_err(|err| (GenerationStep::Parameters, err.to_string()))?;
    params.distinguished_name.push(rcgen::DnType::CommonName, common_name);
    params.self_signed(&pair)
        .map(|certificate| certificate.der().as_ref().to_vec())
        .map_err(|err| (GenerationStep::Signing, err.to_string()))
}

/// Whether stored certificate and key can be used: both were read and neither
/// is empty.
pub open spec fn is_stored(cert: Option<Vec<u8>>, key: Option<Vec<u8>>) -> bool {
    match (cert, key) {
        (Some(c), Some(k)) => c@.len() > 0 && k@.len() > 0,
        _ => false,
    }
}

impl CertPair {
    /// The fingerprint is that of the certificate.
    pub open spec fn wf(&self) -> bool {
        self.fingerprint_sha256@ == sha256(self.cert_der@)
    }

    /// The pair made of stored certificate and key, or a fresh self-signed
    /// pair with common name `device_id` when either was not read or is
    /// empty. The second part of the result tells whether the pair is fresh
    /// and has to be stored.
    ///
    /// The stored identity wins: `device_id` is used for a fresh certificate
    /// only. Whichever pair is returned, once stored it is what the next call
    /// returns.
    pub fn load_or_generate(
        cert: Option<Vec<u8>>,
        key: Option<Vec<u8>>,
        device_id: &str,
    ) -> (r: Result<(CertPair, bool), Error>)
        ensures
            is_stored(cert, key) ==> match r {
                Ok((pair, fresh)) => !fresh && pair.wf() && Some(pair.cert_der) == cert && Some(
                    pair.key_der_pkcs8,
                ) == key,
                Err(_) => false,
            },
            !is_stored(cert, key) ==> match r {
                Ok((pair, fresh)) => {
                    &&& fresh && pair.wf()
                    &&& is_der_sequence(pair.cert_der@)
                    &&& is_der_sequence(pair.key_der_pkcs8@)
                    &&& carries_common_name(pair.cert_der@, device_id@)
                    &&& carries_key(pair.cert_der@, public_key(pair.key_der_pkcs8@))
                },
                Err(e) => is_generation_failure(e),
            },
            r matches Ok((pair, _)) ==> is_stored(
                Some(pair.cert_der),
                Some(pair.key_der_pkcs8),
            ),
    {
        if let (Some(cert_der), Some(key_der_pkcs8)) = (cert, key) {
            if cert_der.len() != 0 && key_der_pkcs8.len() != 0 {
                let fingerprint_sha256 = cert_fingerprint(cert_der.as_slice())?;
                return Ok((CertPair { cert_der, key_der_pkcs8, fingerprint_sha256 }, false));
            }
        }
        let (cert_der, key_der_pkcs8) = generate_self_signed(device_id)?;
        let fingerprint_sha256 = cert_fingerprint(cert_der.as_slice())?;
        Ok((CertPair { cert_der, key_der_pkcs8, fingerprint_sha256 }, true))
    }

    /// The certificate fingerprint as plain lowercase hex without separators.
    pub fn fingerprint_hex(&self) -> (r: String)
        ensures
            r@ == hex_text(self.fingerprint_sha256@),
            r@.len() == 64,
    {
        proof {
            law_hex_shape(self.fingerprint_sha256@);
        }
        hex(self.fingerprint_sha256.as_slice())
    }
}

/// A fresh certificate with common name `device_id`, self-signed, and the key
/// that it was made for.
/// Fails only where a step fails.
fn generate_self_signed(device_id: &str) -> (r: Result<(Vec<u8>, Vec<u8>), Error>)
    ensures
        match r {
            Ok((cert_der, key_der)) => {
                &&& is_der_sequence(cert_der@)
                &&& is_der_sequence(key_der@)
                &&& carries_common_name(cert_der@, device_id@)
                &&& carries_key(cert_der@, public_key(key_der@))
            },
            Err(e) => is_generation_failure(e),
        },
{
    let key_der = match generate_key() {
        Ok(der) => der,
        Err(why) => {
            let e = generation_failure(GenerationStep::Key, why.as_str());
            assert(e->Cert_0@ == generation_text(GenerationStep::Key, why@));
            return Err(e);
        },
    };
    match self_sign(key_der.as_slice(), device_id) {
        Ok(cert_der) => Ok((cert_der, key_der)),
        Err((step, why)) => {
            let e = generation_failure(step, why.as_str());
            assert(e->Cert_0@ == generation_text(step, why@));
            Err(e)
        },
    }
}

/// The name of the temporary file through which a certificate file is
/// replaced.
pub fn temp_file_name(file_name: &str, pid: u32, nonce: u128) -> (r: String)
    ensures
        r@ == "."@ + file_name@ + "."@ + text::decimal(pid as nat) + "."@ + text::decimal(
            nonce as nat,
        ) + ".tmp"@,
{
    ".".to_owned()
        .concat(file_name)
        .concat(".")
        .concat(text::decimal_text(pid as u128).as_str())
        .concat(".")
        .concat(text::decimal_text(nonce).as_str())
        .concat(".tmp")
}

/// The number that a lowercase hex digit stands for.
pub open spec fn hex_value(c: char) -> int {
    if '0' <= c <= '9' {
        c as int - '0' as int
    } else {
        c as int - 'a' as int + 10
    }
}

/// The hex text gives the bytes in their order, the high half of each before
/// the low one.
pub proof fn law_hex_gives_the_bytes_in_order(bytes: Seq<u8>, i: int)
    requires
        0 <= i < bytes.len(),
    ensures
        hex_text(bytes).len() == 2 * bytes.len(),
        hex_value(hex_text(bytes)[2 * i]) * 16 + hex_value(hex_text(bytes)[2 * i + 1]) == bytes[i],
    decreases bytes.len(),
{
    law_hex_shape(bytes);
    law_hex_shape(bytes.drop_last());
    if i < bytes.len() - 1 {
        law_hex_gives_the_bytes_in_order(bytes.drop_last(), i);
        assert(hex_text(bytes)[2 * i] == hex_text(bytes.drop_last())[2 * i]);
        assert(hex_text(bytes)[2 * i + 1] == hex_text(bytes.drop_last())[2 * i + 1]);
    }
}

} // verus!
