//! The OpenSSL surface that the library stands on.
//!
//! What stands here is taken on trust: the outside types are opaque handles,
//! each function is a call into the `openssl` crate with what converts its
//! arguments and its result, and the names stand for what OpenSSL reads out of
//! an encoded certificate or key. None of it is proved; the rest of the
//! library is proved from it.

use openssl::asn1::Asn1Time;
use openssl::error::ErrorStack;
use openssl::hash::MessageDigest;
use openssl::pkey::{PKey, Private};
use openssl::rsa::Rsa;
use openssl::x509::extension::SubjectAlternativeName;
use openssl::x509::{X509Builder, X509NameBuilder, X509};
use vstd::prelude::*;
use vstd::string::StringSliceAdditionalSpecFns;

verus! {

/// The largest length OpenSSL takes for a buffer: the C `int` maximum.
pub const MAX_BUFFER: usize = 0x7fff_ffff;

/// The most entries that the library puts into one name.
pub const MAX_ENTRIES: usize = 16;

/// The longest value, in bytes, that the library puts into an entry of a name.
/// A name of `MAX_ENTRIES` such entries has an encoding well within
/// `MAX_BUFFER`.
pub const MAX_ENTRY_VALUE: usize = 0x00ff_ffff;

/// `openssl::error::ErrorStack`, OpenSSL's error queue. It is only carried from
/// a failed call to the place where it is mapped to an error of the library.
#[verifier::external_type_specification]
#[verifier::external_body]
pub struct ExErrorStack(ErrorStack);

/// `openssl::x509::X509`, a parsed certificate: a handle that is handed back to
/// OpenSSL.
#[verifier::external_type_specification]
#[verifier::external_body]
pub struct ExX509(X509);

/// `openssl::x509::X509Builder`, a certificate under construction.
#[verifier::external_type_specification]
#[verifier::external_body]
pub struct ExX509Builder(X509Builder);

/// `openssl::x509::X509NameBuilder`, a distinguished name under construction.
#[verifier::external_type_specification]
#[verifier::external_body]
pub struct ExX509NameBuilder(X509NameBuilder);

/// `openssl::pkey::PKey`, a key.
#[verifier::external_type_specification]
#[verifier::external_body]
#[verifier::reject_recursive_types(T)]
pub struct ExPKey<T>(PKey<T>);

/// `openssl::pkey::Private`, the marker of a key that holds its private half.
#[verifier::external_type_specification]
#[verifier::external_body]
pub struct ExPrivate(Private);

/// The subject name of the DER certificate `cert`, DER-encoded; `None` where
/// OpenSSL does not parse `cert`.
pub uninterp spec fn x509_subject(cert: Seq<u8>) -> Option<Seq<u8>>;

/// The issuer name of the DER certificate `cert`, DER-encoded.
pub uninterp spec fn x509_issuer(cert: Seq<u8>) -> Option<Seq<u8>>;

/// The entries of the subject name of `cert`, in order: OpenSSL's short name of
/// the attribute and the bytes of its value.
pub uninterp spec fn x509_subject_entries(cert: Seq<u8>) -> Option<Seq<(Seq<u8>, Seq<u8>)>>;

/// The subject alternative names of `cert`, in order: the bytes of a DNS name,
/// `None` for a name of another kind. Empty where there is no such extension.
pub uninterp spec fn x509_alt_names(cert: Seq<u8>) -> Option<Seq<Option<Seq<u8>>>>;

/// The not-before time of `cert`: the days and the seconds of the last day
/// from the Unix epoch to it. `None` also where the time is none that OpenSSL
/// can reckon with.
pub uninterp spec fn x509_not_before(cert: Seq<u8>) -> Option<(i32, i32)>;

/// The not-after time of `cert`: the days and the seconds of the last day from
/// the Unix epoch to it.
pub uninterp spec fn x509_not_after(cert: Seq<u8>) -> Option<(i32, i32)>;

/// The magnitude of the serial number of `cert`, big-endian, without leading
/// zero bytes.
pub uninterp spec fn x509_serial(cert: Seq<u8>) -> Option<Seq<u8>>;

/// The public key of `cert`, as a DER SubjectPublicKeyInfo.
pub uninterp spec fn x509_public_key(cert: Seq<u8>) -> Option<Seq<u8>>;

/// Whether the signature on `cert` verifies under the public key of the
/// certificate `issuer`; `None` where either does not parse.
pub uninterp spec fn x509_signed_by(cert: Seq<u8>, issuer: Seq<u8>) -> Option<bool>;

/// The public half of the DER private key `key`, as a DER SubjectPublicKeyInfo.
pub uninterp spec fn private_key_public_half(key: Seq<u8>) -> Option<Seq<u8>>;

/// The version field of `cert`, which counts from zero.
pub uninterp spec fn x509_version(cert: Seq<u8>) -> Option<i32>;

/// OpenSSL's short name of the digest that its table of signature algorithms
/// gives to the one of `cert`: `Some(None)` where the table does not hold the
/// algorithm, `None` where `cert` does not parse.
pub uninterp spec fn x509_signature_digest(cert: Seq<u8>) -> Option<Option<Seq<u8>>>;

/// The size in bits of the DER private key `key`; `None` where it does not
/// parse as an RSA key.
pub uninterp spec fn rsa_key_bits(key: Seq<u8>) -> Option<u32>;

/// The entries that a name under construction holds, in order: of each the
/// field and the value, as the texts that it was added by.
pub uninterp spec fn name_entries(name: X509NameBuilder) -> Seq<(Seq<char>, Seq<char>)>;

/// Whether a name of these entries is small enough for its encoding to fit an
/// OpenSSL buffer.
pub open spec fn name_fits(entries: Seq<(Seq<char>, Seq<char>)>) -> bool {
    &&& entries.len() <= MAX_ENTRIES
    &&& forall|i: int|
        0 <= i < entries.len() ==> vstd::utf8::encode_utf8(#[trigger] entries[i].1).len()
            <= MAX_ENTRY_VALUE
}

/// A digest name as the contracts speak of it: by its bytes.
pub open spec fn digest_view(digest: Option<Vec<u8>>) -> Option<Seq<u8>> {
    match digest {
        Some(name) => Some(name@),
        None => None,
    }
}

/// The entries as the contracts speak of them: each field and value by its
/// bytes.
pub open spec fn entries_view(entries: Seq<(Vec<u8>, Vec<u8>)>) -> Seq<(Seq<u8>, Seq<u8>)> {
    Seq::new(entries.len(), |i: int| (entries[i].0@, entries[i].1@))
}

/// The alternative names as the contracts speak of them: each DNS name by its
/// bytes.
pub open spec fn alt_names_view(names: Seq<Option<Vec<u8>>>) -> Seq<Option<Seq<u8>>> {
    Seq::new(
        names.len(),
        |i: int|
            match names[i] {
                Some(dns) => Some(dns@),
                None => None,
            },
    )
}

/// `X509::from_der`, then `subject_name` and `to_der`. The result is the named
/// subject of `cert`; it fails exactly where that has none.
#[verifier::external_body]
pub(crate) fn read_subject(cert: &[u8]) -> (r: Result<Vec<u8>, ErrorStack>)
    ensures
        match r {
            Ok(v) => x509_subject(cert@) == Some(v@),
            Err(_) => x509_subject(cert@) is None,
        },
{
    X509::from_der(cert)?.subject_name().to_der()
}

/// `X509::from_der`, then `issuer_name` and `to_der`. The result is the named
/// issuer of `cert`.
#[verifier::external_body]
pub(crate) fn read_issuer(cert: &[u8]) -> (r: Result<Vec<u8>, ErrorStack>)
    ensures
        match r {
            Ok(v) => x509_issuer(cert@) == Some(v@),
            Err(_) => x509_issuer(cert@) is None,
        },
{
    X509::from_der(cert)?.issuer_name().to_der()
}

/// `X509::from_der`, then `subject_name().entries()`: of each entry the short
/// name of its object (`Nid::short_name`) and its data (`Asn1StringRef::as_slice`).
/// The result is the named list of entries of `cert`.
#[verifier::external_body]
pub(crate) fn read_subject_entries(cert: &[u8]) -> (r: Result<Vec<(Vec<u8>, Vec<u8>)>, ErrorStack>)
    ensures
        match r {
            Ok(v) => x509_subject_entries(cert@) == Some(entries_view(v@)),
            Err(_) => x509_subject_entries(cert@) is None,
        },
{
    let parsed = X509::from_der(cert)?;
    let entries = parsed.subject_name().entries();
    entries.map(|e| {
        let field = e.object().nid().short_name()?;
        Ok((field.as_bytes().to_vec(), e.data().as_slice().to_vec()))
    }).collect()
}

/// `X509::from_der`, then `subject_alt_names`: of each general name its
/// `dnsname`. The result is the named list of alternative names of `cert`.
#[verifier::external_body]
pub(crate) fn read_alt_names(cert: &[u8]) -> (r: Result<Vec<Option<Vec<u8>>>, ErrorStack>)
    ensures
        match r {
            Ok(v) => x509_alt_names(cert@) == Some(alt_names_view(v@)),
            Err(_) => x509_alt_names(cert@) is None,
        },
{
    let parsed = X509::from_der(cert)?;
    Ok(match parsed.subject_alt_names() {
        Some(names) => names.iter().map(|n| n.dnsname().map(|d| d.as_bytes().to_vec())).collect(),
        None => Vec::new(),
    })
}

/// `X509::from_der`, then `Asn1TimeRef::diff` from the time that
/// `Asn1Time::from_unix` makes of zero to `not_before`. The result is the named
/// not-before time of `cert`.
#[verifier::external_body]
pub(crate) fn read_not_before(cert: &[u8]) -> (r: Result<(i32, i32), ErrorStack>)
    ensures
        match r {
            Ok(v) => x509_not_before(cert@) == Some(v),
            Err(_) => x509_not_before(cert@) is None,
        },
{
    let parsed = X509::from_der(cert)?;
    let span = Asn1Time::from_unix(0)?.diff(parsed.not_before())?;
    Ok((span.days, span.secs))
}

/// `X509::from_der`, then `Asn1TimeRef::diff` from the time that
/// `Asn1Time::from_unix` makes of zero to `not_after`. The result is the named
/// not-after time of `cert`.
#[verifier::external_body]
pub(crate) fn read_not_after(cert: &[u8]) -> (r: Result<(i32, i32), ErrorStack>)
    ensures
        match r {
            Ok(v) => x509_not_after(cert@) == Some(v),
            Err(_) => x509_not_after(cert@) is None,
        },
{
    let parsed = X509::from_der(cert)?;
    let span = Asn1Time::from_unix(0)?.diff(parsed.not_after())?;
    Ok((span.days, span.secs))
}

/// `X509::from_der`, then `serial_number().to_bn()` and `BigNumRef::to_vec`.
/// The result is the named serial magnitude of `cert`.
#[verifier::external_body]
pub(crate) fn read_serial(cert: &[u8]) -> (r: Result<Vec<u8>, ErrorStack>)
    ensures
        match r {
            Ok(v) => x509_serial(cert@) == Some(v@),
            Err(_) => x509_serial(cert@) is None,
        },
{
    Ok(X509::from_der(cert)?.serial_number().to_bn()?.to_vec())
}

/// `X509::from_der`, then `public_key` and `public_key_to_der`. The result is
/// the named public key of `cert`.
#[verifier::external_body]
pub(crate) fn read_public_key(cert: &[u8]) -> (r: Result<Vec<u8>, ErrorStack>)
    ensures
        match r {
            Ok(v) => x509_public_key(cert@) == Some(v@),
            Err(_) => x509_public_key(cert@) is None,
        },
{
    X509::from_der(cert)?.public_key()?.public_key_to_der()
}

/// `X509Ref::verify` of `cert` under the `public_key` of `issuer`, both parsed
/// with `X509::from_der`. The result is the named verdict.
#[verifier::external_body]
pub(crate) fn read_signed_by(cert: &[u8], issuer: &[u8]) -> (r: Result<bool, ErrorStack>)
    ensures
        match r {
            Ok(v) => x509_signed_by(cert@, issuer@) == Some(v),
            Err(_) => x509_signed_by(cert@, issuer@) is None,
        },
{
    let key = X509::from_der(issuer)?.public_key()?;
    X509::from_der(cert)?.verify(&key)
}

/// `PKey::private_key_from_der`, then `public_key_to_der`. The result is the
/// named public half of `key`.
#[verifier::external_body]
pub(crate) fn read_public_half(key: &[u8]) -> (r: Result<Vec<u8>, ErrorStack>)
    ensures
        match r {
            Ok(v) => private_key_public_half(key@) == Some(v@),
            Err(_) => private_key_public_half(key@) is None,
        },
{
    PKey::private_key_from_der(key)?.public_key_to_der()
}

/// `X509::from_der`, then `version`. The result is the named version of
/// `cert`.
#[verifier::external_body]
pub(crate) fn read_version(cert: &[u8]) -> (r: Result<i32, ErrorStack>)
    ensures
        match r {
            Ok(v) => x509_version(cert@) == Some(v),
            Err(_) => x509_version(cert@) is None,
        },
{
    Ok(X509::from_der(cert)?.version())
}

/// `X509::from_der`, then `Nid::signature_algorithms` of
/// `signature_algorithm().object().nid()`, and of what it finds the digest by
/// its `short_name`. The result is the named signature digest of `cert`.
#[verifier::external_body]
pub(crate) fn read_signature_digest(cert: &[u8]) -> (r: Result<Option<Vec<u8>>, ErrorStack>)
    ensures
        match r {
            Ok(v) => x509_signature_digest(cert@) == Some(digest_view(v)),
            Err(_) => x509_signature_digest(cert@) is None,
        },
{
    let parsed = X509::from_der(cert)?;
    match parsed.signature_algorithm().object().nid().signature_algorithms() {
        Some(found) => Ok(Some(found.digest.short_name()?.as_bytes().to_vec())),
        None => Ok(None),
    }
}

/// `PKey::private_key_from_der`, then `rsa`, which fails on a key of another
/// kind, and `bits`. The result is the named size of `key`.
#[verifier::external_body]
pub(crate) fn read_rsa_bits(key: &[u8]) -> (r: Result<u32, ErrorStack>)
    ensures
        match r {
            Ok(v) => rsa_key_bits(key@) == Some(v),
            Err(_) => rsa_key_bits(key@) is None,
        },
{
    let parsed = PKey::private_key_from_der(key)?;
    parsed.rsa()?;
    Ok(parsed.bits())
}

/// `X509::from_pem`, re-encoded with `to_der`. A PEM block may ask OpenSSL for
/// a passphrase, so nothing is claimed of the outcome. The input must fit an
/// OpenSSL buffer.
#[verifier::external_body]
pub(crate) fn decode_certificate_pem(pem: &[u8]) -> (r: Result<Vec<u8>, ErrorStack>)
    requires
        pem@.len() <= MAX_BUFFER,
{
    X509::from_pem(pem)?.to_der()
}

/// `PKey::private_key_from_pem`, re-encoded with `private_key_to_pkcs8`. A PEM
/// block may ask OpenSSL for a passphrase, so nothing is claimed of the
/// outcome. The input must fit an OpenSSL buffer.
#[verifier::external_body]
pub(crate) fn decode_private_key_pem(pem: &[u8]) -> (r: Result<Vec<u8>, ErrorStack>)
    requires
        pem@.len() <= MAX_BUFFER,
{
    PKey::private_key_from_pem(pem)?.private_key_to_pkcs8()
}

/// `X509::from_der`. Nothing is claimed of the handle.
#[verifier::external_body]
pub(crate) fn parse_certificate(der: &[u8]) -> (r: Result<X509, ErrorStack>) {
    X509::from_der(der)
}

/// `PKey::private_key_from_der`. Nothing is claimed of the handle.
#[verifier::external_body]
pub(crate) fn parse_private_key(der: &[u8]) -> (r: Result<PKey<Private>, ErrorStack>) {
    PKey::private_key_from_der(der)
}

/// `Rsa::generate` with the given modulus size, held as a `PKey` by
/// `PKey::from_rsa` and encoded with `private_key_to_pkcs8`. The key is random:
/// nothing is claimed of it.
#[verifier::external_body]
pub(crate) fn generate_rsa_key(bits: u32) -> (r: Result<Vec<u8>, ErrorStack>) {
    PKey::from_rsa(Rsa::generate(bits)?)?.private_key_to_pkcs8()
}

/// `rand::rand_bytes` over the whole of `buf`. The bytes are random: only the
/// length is known to stay.
#[verifier::external_body]
pub(crate) fn fill_random(buf: &mut Vec<u8>) -> (r: Result<(), ErrorStack>)
    requires
        old(buf)@.len() <= MAX_BUFFER,
    ensures
        final(buf)@.len() == old(buf)@.len(),
{
    openssl::rand::rand_bytes(buf.as_mut_slice())
}

/// `X509::builder`.
#[verifier::external_body]
pub(crate) fn new_certificate() -> (r: Result<X509Builder, ErrorStack>) {
    X509::builder()
}

/// `X509Builder::set_version`.
#[verifier::external_body]
pub(crate) fn set_version(cert: &mut X509Builder, version: i32) -> (r: Result<(), ErrorStack>) {
    cert.set_version(version)
}

/// `X509NameBuilder::new`. A new name holds no entry.
#[verifier::external_body]
pub(crate) fn new_name() -> (r: Result<X509NameBuilder, ErrorStack>)
    ensures
        r matches Ok(name) ==> name_entries(name) == Seq::<(Seq<char>, Seq<char>)>::empty(),
{
    X509NameBuilder::new()
}

/// `X509NameBuilder::append_entry_by_text`, which adds the entry behind those
/// that the name holds. Where it fails, nothing is said of the name. The call
/// panics on a field with a NUL in it and on a value longer than an OpenSSL
/// buffer.
#[verifier::external_body]
pub(crate) fn append_entry(name: &mut X509NameBuilder, field: &str, value: &str) -> (r: Result<
    (),
    ErrorStack,
>)
    requires
        forall|i: int| 0 <= i < field@.len() ==> field@[i] != '\0',
        value.spec_bytes().len() <= MAX_BUFFER,
    ensures
        r is Ok ==> name_entries(*final(name)) == name_entries(*old(name)).push((field@, value@)),
{
    name.append_entry_by_text(field, value)
}

/// `X509Builder::set_subject_name` with the name that `X509NameBuilder::build`
/// makes of `name`. `build` encodes the name, parses it again and unwraps
/// both: the name must be small enough for its encoding to fit an OpenSSL
/// buffer.
#[verifier::external_body]
pub(crate) fn set_subject_name(cert: &mut X509Builder, name: X509NameBuilder) -> (r: Result<
    (),
    ErrorStack,
>)
    requires
        name_fits(name_entries(name)),
{
    cert.set_subject_name(&name.build())
}

/// `X509Builder::set_issuer_name` with the `subject_name` of `issuer`.
#[verifier::external_body]
pub(crate) fn set_issuer_name(cert: &mut X509Builder, issuer: &X509) -> (r: Result<
    (),
    ErrorStack,
>) {
    cert.set_issuer_name(issuer.subject_name())
}

/// `X509Builder::set_serial_number` with the integer that `BigNum::from_slice`
/// and `Asn1Integer::from_bn` make of `bytes`, which must fit an OpenSSL
/// buffer.
#[verifier::external_body]
pub(crate) fn set_serial_number(cert: &mut X509Builder, bytes: &[u8]) -> (r: Result<
    (),
    ErrorStack,
>)
    requires
        bytes@.len() <= MAX_BUFFER,
{
    let number = openssl::bn::BigNum::from_slice(bytes)?;
    cert.set_serial_number(openssl::asn1::Asn1Integer::from_bn(&number)?.as_ref())
}

/// `X509Builder::set_not_before` with the `not_before` of `from`.
#[verifier::external_body]
pub(crate) fn set_not_before(cert: &mut X509Builder, from: &X509) -> (r: Result<(), ErrorStack>) {
    cert.set_not_before(from.not_before())
}

/// `X509Builder::set_not_after` with the `not_after` of `from`.
#[verifier::external_body]
pub(crate) fn set_not_after(cert: &mut X509Builder, from: &X509) -> (r: Result<(), ErrorStack>) {
    cert.set_not_after(from.not_after())
}

/// `X509Builder::set_pubkey` with the public half of `key`, which is taken
/// through `public_key_to_pem` and `PKey::public_key_from_pem`.
#[verifier::external_body]
pub(crate) fn set_public_key(cert: &mut X509Builder, key: &PKey<Private>) -> (r: Result<
    (),
    ErrorStack,
>) {
    let public = PKey::public_key_from_pem(&key.public_key_to_pem()?)?;
    cert.set_pubkey(&public)
}

/// `SubjectAlternativeName::new().dns(..).build(..)` in the
/// `X509Builder::x509v3_context` of `cert` with `issuer`, then
/// `X509Builder::append_extension`. The name must fit an OpenSSL buffer.
#[verifier::external_body]
pub(crate) fn add_dns_alt_name(cert: &mut X509Builder, issuer: &X509, dns: &str) -> (r: Result<
    (),
    ErrorStack,
>)
    requires
        dns.spec_bytes().len() <= MAX_BUFFER,
{
    let context = cert.x509v3_context(Some(issuer), None);
    let extension = SubjectAlternativeName::new().dns(dns).build(&context)?;
    cert.append_extension(extension)
}

/// `X509Builder::sign` with `MessageDigest::sha256`.
#[verifier::external_body]
pub(crate) fn sign_sha256(cert: &mut X509Builder, key: &PKey<Private>) -> (r: Result<
    (),
    ErrorStack,
>) {
    cert.sign(key, MessageDigest::sha256())
}

/// `X509Builder::build`, encoded with `to_der`.
#[verifier::external_body]
pub(crate) fn finish_certificate(cert: X509Builder) -> (r: Result<Vec<u8>, ErrorStack>) {
    cert.build().to_der()
}

} // verus!
