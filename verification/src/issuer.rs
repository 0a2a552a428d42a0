//! Issuing a leaf certificate for a hostname, signed by the root authority.
//!
//! OpenSSL builds and signs the certificate. Before it is handed out, the
//! encoded certificate is read back and held against what was asked for: what
//! [`issue`] promises of a certificate is what was found in it.

use crate::bytes::{bytes_eq, lemma_magnitude_is_suffix, magnitude, trim_leading_zeros};
use crate::credential::{load_root_credential, FileContent, LoadError, RootCredential};
use crate::crypto::{
    add_dns_alt_name, append_entry, fill_random, finish_certificate, generate_rsa_key,
    name_entries, name_fits, new_certificate, new_name, parse_certificate, parse_private_key, private_key_public_half,
    read_alt_names, read_issuer, read_not_after, read_not_before, read_public_half,
    read_public_key, read_rsa_bits, read_serial, read_signature_digest, read_signed_by,
    read_subject, read_subject_entries, read_version, rsa_key_bits, set_issuer_name,
    set_not_after, set_not_before, set_public_key, set_serial_number, set_subject_name,
    set_version, sign_sha256, x509_alt_names, x509_issuer, x509_not_after, x509_not_before,
    x509_public_key, x509_serial, x509_signature_digest, x509_signed_by, x509_subject,
    x509_subject_entries, x509_version, MAX_BUFFER, MAX_ENTRY_VALUE,
};
use openssl::pkey::{PKey, Private};
use openssl::x509::{X509Builder, X509NameBuilder, X509};
use vstd::prelude::*;
use vstd::string::StringSliceAdditionalSpecFns;

verus! {

/// The size of the modulus of a leaf key, in bits.
pub const KEY_BITS: u32 = 2048;

/// The number of random bytes that a serial number is drawn from.
pub const SERIAL_BYTES: usize = 16;

/// The version field of an X.509v3 certificate, which counts from zero.
pub const VERSION_3: i32 = 2;

/// The country of every leaf's subject.
pub const SUBJECT_COUNTRY: &'static str = "ZH";

/// The state or province of every leaf's subject.
pub const SUBJECT_STATE: &'static str = "SC";

/// The locality of every leaf's subject.
pub const SUBJECT_LOCALITY: &'static str = "YC";

/// The organization of every leaf's subject.
pub const SUBJECT_ORGANIZATION: &'static str = "YC";

/// The organizational unit of every leaf's subject.
pub const SUBJECT_UNIT: &'static str = "YC";

/// Where the root certificate is kept.
pub const ROOT_CERTIFICATE_PATH: &'static str = "src/proxylea_cert.crt";

/// Where the root private key is kept.
pub const ROOT_KEY_PATH: &'static str = "src/proxylea_private.key";

/// A request for a leaf certificate: the host that it is to name.
#[derive(Clone, Debug, PartialEq, Eq)]
pub struct LeafCertificateRequest {
    pub hostname: String,
}

/// A leaf certificate and its private key, both DER-encoded (the key as
/// PKCS#8). Each issuance makes a new pair; nothing is kept.
#[derive(Clone, Debug, PartialEq, Eq)]
pub struct IssuedCertificate {
    pub certificate: Vec<u8>,
    pub private_key: Vec<u8>,
}

/// Why no certificate was issued.
#[derive(Clone, Debug, PartialEq, Eq)]
pub enum IssueError {
    /// The root credential could not be loaded, or does not parse.
    Load(LoadError),
    /// The leaf key pair could not be generated or its public half derived.
    KeyGenerationError,
    /// The subject or issuer name could not be built.
    NameBuildError,
    /// No serial number could be drawn or set.
    SerialNumberError,
    /// The subject alternative name could not be built or added.
    ExtensionBuildError,
    /// The certificate could not be set up for signing, signed or encoded, or
    /// the signed certificate does not read back as what was asked for.
    SigningError,
}

/// The steps of an issuance, in the order in which they are taken.
#[derive(Clone, Copy, Debug, PartialEq, Eq, Structural)]
pub enum Step {
    /// Parsing the root certificate.
    RootCertificate,
    /// Parsing the root private key.
    RootKey,
    /// Generating the leaf key pair.
    KeyGeneration,
    /// Creating the empty certificate and setting its version.
    Certificate,
    /// Building and setting the subject name.
    SubjectName,
    /// Setting the issuer name.
    IssuerName,
    /// Drawing and setting the serial number.
    SerialNumber,
    /// Setting the validity window.
    Validity,
    /// Deriving and setting the public key.
    PublicKey,
    /// Building and adding the subject alternative name.
    AlternativeName,
    /// Signing with the root key.
    Signature,
    /// Encoding the signed certificate.
    Encoding,
    /// Reading the encoded certificate back.
    ReadBack,
}

impl IssueError {
    /// What the error says: for a failure to load, what the loader says.
    pub open spec fn text(self) -> Seq<char> {
        match self {
            IssueError::Load(e) => e.text(),
            IssueError::KeyGenerationError => "key generation failed"@,
            IssueError::NameBuildError => "name could not be built"@,
            IssueError::SerialNumberError => "serial number could not be made"@,
            IssueError::ExtensionBuildError => "alternative name could not be built"@,
            IssueError::SigningError => "certificate could not be signed"@,
        }
    }

    /// What the error says.
    pub fn message(&self) -> (said: String)
        ensures
            said@ == self.text(),
    {
        match self {
            IssueError::Load(e) => e.message(),
            IssueError::KeyGenerationError => "key generation failed".to_owned(),
            IssueError::NameBuildError => "name could not be built".to_owned(),
            IssueError::SerialNumberError => "serial number could not be made".to_owned(),
            IssueError::ExtensionBuildError => "alternative name could not be built".to_owned(),
            IssueError::SigningError => "certificate could not be signed".to_owned(),
        }
    }
}

/// The error that a failure of `step` is reported as.
pub open spec fn failure(step: Step) -> IssueError {
    match step {
        Step::RootCertificate => IssueError::Load(LoadError::CertificateDecodeError),
        Step::RootKey => IssueError::Load(LoadError::KeyDecodeError),
        Step::KeyGeneration | Step::PublicKey => IssueError::KeyGenerationError,
        Step::SubjectName | Step::IssuerName => IssueError::NameBuildError,
        Step::SerialNumber => IssueError::SerialNumberError,
        Step::AlternativeName => IssueError::ExtensionBuildError,
        Step::Certificate | Step::Validity | Step::Signature | Step::Encoding | Step::ReadBack =>
            IssueError::SigningError,
    }
}

/// The error that a failure of `step` is reported as.
pub fn failure_of(step: Step) -> (e: IssueError)
    ensures
        e == failure(step),
{
    match step {
        Step::RootCertificate => IssueError::Load(LoadError::CertificateDecodeError),
        Step::RootKey => IssueError::Load(LoadError::KeyDecodeError),
        Step::KeyGeneration | Step::PublicKey => IssueError::KeyGenerationError,
        Step::SubjectName | Step::IssuerName => IssueError::NameBuildError,
        Step::SerialNumber => IssueError::SerialNumberError,
        Step::AlternativeName => IssueError::ExtensionBuildError,
        Step::Certificate | Step::Validity | Step::Signature | Step::Encoding | Step::ReadBack =>
            IssueError::SigningError,
    }
}

/// The entries that the subject of the leaf for `hostname` is built from, in
/// order: the fixed organizational fields, then the hostname as common name.
pub open spec fn subject_fields(hostname: Seq<char>) -> Seq<(Seq<char>, Seq<char>)> {
    seq![
        ("C"@, SUBJECT_COUNTRY@),
        ("ST"@, SUBJECT_STATE@),
        ("L"@, SUBJECT_LOCALITY@),
        ("O"@, SUBJECT_ORGANIZATION@),
        ("OU"@, SUBJECT_UNIT@),
        ("CN"@, hostname),
    ]
}

/// The subject of the leaf for `hostname`: the fixed organizational fields,
/// then the hostname as common name. Each entry is the attribute's short name
/// and its value, as bytes.
pub open spec fn leaf_subject(hostname: Seq<char>) -> Seq<(Seq<u8>, Seq<u8>)> {
    seq![
        ("C".spec_bytes(), SUBJECT_COUNTRY.spec_bytes()),
        ("ST".spec_bytes(), SUBJECT_STATE.spec_bytes()),
        ("L".spec_bytes(), SUBJECT_LOCALITY.spec_bytes()),
        ("O".spec_bytes(), SUBJECT_ORGANIZATION.spec_bytes()),
        ("OU".spec_bytes(), SUBJECT_UNIT.spec_bytes()),
        ("CN".spec_bytes(), vstd::utf8::encode_utf8(hostname)),
    ]
}

/// The certificate names the host: its subject is the leaf subject for
/// `hostname`, whose common name is the hostname, and its alternative names are
/// the one DNS name `hostname`.
pub open spec fn names_host(leaf: Seq<u8>, hostname: Seq<char>) -> bool {
    &&& x509_subject_entries(leaf) == Some(leaf_subject(hostname))
    &&& x509_alt_names(leaf) == Some(seq![Some(vstd::utf8::encode_utf8(hostname))])
}

/// The issuer name of the certificate is the subject name of the root, byte
/// for byte in encoded form.
pub open spec fn issuer_linked(leaf: Seq<u8>, root: Seq<u8>) -> bool {
    x509_issuer(leaf) is Some && x509_issuer(leaf) == x509_subject(root)
}

/// The validity window of the certificate is that of the root: both times are
/// times that OpenSSL can reckon with, and each is the root's to the second.
pub open spec fn validity_copied(leaf: Seq<u8>, root: Seq<u8>) -> bool {
    &&& x509_not_before(leaf) is Some
    &&& x509_not_before(leaf) == x509_not_before(root)
    &&& x509_not_after(leaf) is Some
    &&& x509_not_after(leaf) == x509_not_after(root)
}

/// The signature on the certificate verifies under the public key of the root.
pub open spec fn chain_valid(leaf: Seq<u8>, root: Seq<u8>) -> bool {
    x509_signed_by(leaf, root) == Some(true)
}

/// The serial number of the certificate is the unsigned integer that `drawn`
/// denotes, most significant byte first.
pub open spec fn serial_is(leaf: Seq<u8>, drawn: Seq<u8>) -> bool {
    x509_serial(leaf) == Some(magnitude(drawn))
}

/// The serial number of the certificate is an unsigned integer of at most 128
/// bits.
pub open spec fn serial_fits(leaf: Seq<u8>) -> bool {
    x509_serial(leaf) matches Some(m) && m.len() <= SERIAL_BYTES
}

/// The certificate is an X.509v3 certificate signed over SHA-256: SHA-256 is
/// the digest that OpenSSL's table of signature algorithms gives to the one of
/// the certificate. An algorithm that the table gives no digest, because it
/// names its digest in its parameters, passes.
pub open spec fn well_formed(leaf: Seq<u8>) -> bool {
    &&& x509_version(leaf) == Some(VERSION_3)
    &&& x509_signature_digest(leaf) matches Some(digest) && (digest is None || digest == Some(
        "UNDEF".spec_bytes(),
    ) || digest == Some("SHA256".spec_bytes()))
}

/// The key is an RSA private key of 2048 bits.
pub open spec fn is_leaf_key(key: Seq<u8>) -> bool {
    rsa_key_bits(key) == Some(KEY_BITS)
}

/// The public key of the certificate is the public half of `key`.
pub open spec fn key_matches(leaf: Seq<u8>, key: Seq<u8>) -> bool {
    x509_public_key(leaf) is Some && x509_public_key(leaf) == private_key_public_half(key)
}

/// `leaf` is the certificate for `hostname` with the serial number `drawn` and
/// the key `key`, issued by `root`.
pub open spec fn is_leaf_for(
    leaf: Seq<u8>,
    hostname: Seq<char>,
    drawn: Seq<u8>,
    key: Seq<u8>,
    root: Seq<u8>,
) -> bool {
    &&& well_formed(leaf)
    &&& names_host(leaf, hostname)
    &&& issuer_linked(leaf, root)
    &&& validity_copied(leaf, root)
    &&& serial_is(leaf, drawn)
    &&& key_matches(leaf, key)
    &&& chain_valid(leaf, root)
}

impl IssuedCertificate {
    /// The pair is a leaf for `hostname` issued by the root certificate `root`:
    /// a version 3 certificate signed over SHA-256 that names the host, whose
    /// issuer and validity window are the root's, which verifies under the
    /// root's key and whose serial number fits 128 bits, with the 2048-bit RSA
    /// private key of its public key.
    pub open spec fn is_for(self, hostname: Seq<char>, root: Seq<u8>) -> bool {
        &&& well_formed(self.certificate@)
        &&& is_leaf_key(self.private_key@)
        &&& names_host(self.certificate@, hostname)
        &&& issuer_linked(self.certificate@, root)
        &&& validity_copied(self.certificate@, root)
        &&& chain_valid(self.certificate@, root)
        &&& serial_fits(self.certificate@)
        &&& key_matches(self.certificate@, self.private_key@)
    }
}

/// The subject that a leaf is read back with is the subject that it was built
/// from, field by field and value by value in UTF-8.
pub proof fn lemma_subject_reads_back_encoded(hostname: Seq<char>)
    ensures
        leaf_subject(hostname).len() == subject_fields(hostname).len(),
        forall|i: int|
            0 <= i < subject_fields(hostname).len() ==> #[trigger] leaf_subject(hostname)[i] == (
                vstd::utf8::encode_utf8(subject_fields(hostname)[i].0),
                vstd::utf8::encode_utf8(subject_fields(hostname)[i].1),
            ),
{
}

/// A certificate that names a host has the hostname as the common name at the
/// end of its subject, after the five fixed fields, and as its one alternative
/// name.
pub proof fn lemma_named_host_is_common_name(leaf: Seq<u8>, hostname: Seq<char>)
    requires
        names_host(leaf, hostname),
    ensures
        x509_subject_entries(leaf).unwrap().len() == 6,
        x509_subject_entries(leaf).unwrap().last() == ("CN".spec_bytes(), vstd::utf8::encode_utf8(
            hostname,
        )),
        x509_alt_names(leaf).unwrap().len() == 1,
        x509_alt_names(leaf).unwrap()[0] == Some(vstd::utf8::encode_utf8(hostname)),
{
}

/// A certificate names at most one host.
pub proof fn lemma_named_host_is_unique(leaf: Seq<u8>, first: Seq<char>, second: Seq<char>)
    requires
        names_host(leaf, first),
        names_host(leaf, second),
    ensures
        first == second,
{
    let names = x509_alt_names(leaf).unwrap();
    assert(names[0] == Some(vstd::utf8::encode_utf8(first)));
    assert(names[0] == Some(vstd::utf8::encode_utf8(second)));
    vstd::utf8::encode_utf8_decode_utf8(first);
    vstd::utf8::encode_utf8_decode_utf8(second);
}

/// A leaf with a serial number drawn from 16 bytes and a 2048-bit RSA key is
/// what [`issue`] hands out: the pair is a leaf for the host under the root.
pub proof fn lemma_leaf_is_issued(issued: IssuedCertificate, hostname: Seq<char>, drawn: Seq<u8>, root: Seq<u8>)
    requires
        is_leaf_for(issued.certificate@, hostname, drawn, issued.private_key@, root),
        is_leaf_key(issued.private_key@),
        drawn.len() == SERIAL_BYTES,
    ensures
        issued.is_for(hostname, root),
{
    lemma_magnitude_is_suffix(drawn);
}

/// Whether a subject entry is the given attribute with the given value.
fn entry_is(entry: &(Vec<u8>, Vec<u8>), field: &str, value: &str) -> (ok: bool)
    ensures
        ok == (entry.0@ == field.spec_bytes() && entry.1@ == value.spec_bytes()),
{
    bytes_eq(entry.0.as_slice(), field.as_bytes()) && bytes_eq(
        entry.1.as_slice(),
        value.as_bytes(),
    )
}

/// Whether the certificate names the host.
pub fn check_names(leaf: &[u8], hostname: &str) -> (ok: bool)
    ensures
        ok == names_host(leaf@, hostname@),
{
    let entries = match read_subject_entries(leaf) {
        Ok(entries) => entries,
        Err(_) => {
            return false;
        },
    };
    let ghost found = crate::crypto::entries_view(entries@);
    let ghost wanted = leaf_subject(hostname@);
    if entries.len() != 6 {
        assert(found.len() != wanted.len());
        return false;
    }
    let subject_ok = entry_is(&entries[0], "C", SUBJECT_COUNTRY) && entry_is(
        &entries[1],
        "ST",
        SUBJECT_STATE,
    ) && entry_is(&entries[2], "L", SUBJECT_LOCALITY) && entry_is(
        &entries[3],
        "O",
        SUBJECT_ORGANIZATION,
    ) && entry_is(&entries[4], "OU", SUBJECT_UNIT) && entry_is(&entries[5], "CN", hostname);
    proof {
        if subject_ok {
            assert(found =~= wanted);
        } else {
            assert(exists|i: int| 0 <= i < 6 && found[i] != wanted[i]);
        }
    }
    if !subject_ok {
        return false;
    }
    let names = match read_alt_names(leaf) {
        Ok(names) => names,
        Err(_) => {
            return false;
        },
    };
    let ghost alt = crate::crypto::alt_names_view(names@);
    let ghost wanted_alt = seq![Some(vstd::utf8::encode_utf8(hostname@))];
    if names.len() != 1 {
        assert(alt.len() != wanted_alt.len());
        return false;
    }
    let alt_ok = match &names[0] {
        Some(dns) => bytes_eq(dns.as_slice(), hostname.as_bytes()),
        None => false,
    };
    proof {
        if alt_ok {
            assert(alt =~= wanted_alt);
        } else {
            assert(alt[0] != wanted_alt[0]);
        }
    }
    alt_ok
}

/// Whether the certificate is version 3 and signed over SHA-256.
pub fn check_form(leaf: &[u8]) -> (ok: bool)
    ensures
        ok == well_formed(leaf@),
{
    let version_ok = match read_version(leaf) {
        Ok(version) => version == VERSION_3,
        Err(_) => false,
    };
    if !version_ok {
        return false;
    }
    match read_signature_digest(leaf) {
        Ok(Some(digest)) => bytes_eq(digest.as_slice(), "UNDEF".as_bytes()) || bytes_eq(
            digest.as_slice(),
            "SHA256".as_bytes(),
        ),
        Ok(None) => true,
        Err(_) => false,
    }
}

/// Whether the key is an RSA private key of 2048 bits.
pub fn check_leaf_key(key: &[u8]) -> (ok: bool)
    ensures
        ok == is_leaf_key(key@),
{
    match read_rsa_bits(key) {
        Ok(bits) => bits == KEY_BITS,
        Err(_) => false,
    }
}

/// Whether the issuer of the certificate is the subject of the root.
pub fn check_issuer(leaf: &[u8], root: &[u8]) -> (ok: bool)
    ensures
        ok == issuer_linked(leaf@, root@),
{
    match read_issuer(leaf) {
        Ok(issuer) => match read_subject(root) {
            Ok(subject) => bytes_eq(issuer.as_slice(), subject.as_slice()),
            Err(_) => false,
        },
        Err(_) => false,
    }
}

/// Whether the validity window of the certificate is that of the root.
pub fn check_validity(leaf: &[u8], root: &[u8]) -> (ok: bool)
    ensures
        ok == validity_copied(leaf@, root@),
{
    let from = match read_not_before(leaf) {
        Ok(from) => from,
        Err(_) => {
            return false;
        },
    };
    let until = match read_not_after(leaf) {
        Ok(until) => until,
        Err(_) => {
            return false;
        },
    };
    let from_ok = match read_not_before(root) {
        Ok(root_from) => from.0 == root_from.0 && from.1 == root_from.1,
        Err(_) => false,
    };
    let until_ok = match read_not_after(root) {
        Ok(root_until) => until.0 == root_until.0 && until.1 == root_until.1,
        Err(_) => false,
    };
    from_ok && until_ok
}

/// Whether the signature on the certificate verifies under the root's key.
pub fn check_chain(leaf: &[u8], root: &[u8]) -> (ok: bool)
    ensures
        ok == chain_valid(leaf@, root@),
{
    match read_signed_by(leaf, root) {
        Ok(verdict) => verdict,
        Err(_) => false,
    }
}

/// Whether the serial number of the certificate is the integer that `drawn`
/// denotes.
pub fn check_serial(leaf: &[u8], drawn: &[u8]) -> (ok: bool)
    ensures
        ok == serial_is(leaf@, drawn@),
{
    match read_serial(leaf) {
        Ok(serial) => {
            let wanted = trim_leading_zeros(drawn);
            bytes_eq(serial.as_slice(), wanted.as_slice())
        },
        Err(_) => false,
    }
}

/// Whether the public key of the certificate is the public half of `key`.
pub fn check_key(leaf: &[u8], key: &[u8]) -> (ok: bool)
    ensures
        ok == key_matches(leaf@, key@),
{
    match read_public_key(leaf) {
        Ok(public) => match read_public_half(key) {
            Ok(half) => bytes_eq(public.as_slice(), half.as_slice()),
            Err(_) => false,
        },
        Err(_) => false,
    }
}

/// Whether `leaf` is the certificate for `hostname` with the serial number
/// `drawn` and the key `key`, issued by `root`.
pub fn check_leaf(leaf: &[u8], hostname: &str, drawn: &[u8], key: &[u8], root: &[u8]) -> (ok: bool)
    ensures
        ok == is_leaf_for(leaf@, hostname@, drawn@, key@, root@),
{
    check_form(leaf) && check_names(leaf, hostname) && check_issuer(leaf, root) && check_validity(
        leaf,
        root,
    ) && check_serial(leaf, drawn) && check_key(leaf, key) && check_chain(leaf, root)
}

/// Hands on a finished certificate if it reads back as the leaf for
/// `hostname` with the serial number `drawn` and the key `key`, issued by
/// `root`, and refuses it as a failure of the reading back if it does not.
pub fn accept_leaf(leaf: Vec<u8>, hostname: &str, drawn: &[u8], key: &[u8], root: &[u8]) -> (r:
    Result<Vec<u8>, IssueError>)
    ensures
        r is Ok <==> is_leaf_for(leaf@, hostname@, drawn@, key@, root@),
        r matches Ok(kept) ==> kept@ == leaf@,
        r matches Err(e) ==> e == failure(Step::ReadBack),
{
    if check_leaf(leaf.as_slice(), hostname, drawn, key, root) {
        Ok(leaf)
    } else {
        Err(failure_of(Step::ReadBack))
    }
}

/// Whether a key can be handed out with a leaf under `root`: an RSA private
/// key of 2048 bits that is not the root's.
pub open spec fn is_fresh_leaf_key(key: Seq<u8>, root: RootCredential) -> bool {
    is_leaf_key(key) && key != root.private_key@
}

/// Whether a key can be handed out with a leaf under `root`.
pub fn check_fresh_leaf_key(key: &[u8], root: &RootCredential) -> (ok: bool)
    ensures
        ok == is_fresh_leaf_key(key@, *root),
{
    check_leaf_key(key) && !bytes_eq(key, root.private_key.as_slice())
}

/// Makes the issued pair of a finished certificate and its key, or says why
/// there is none.
///
/// The pair is handed out exactly if the key is a 2048-bit RSA key other than
/// the root's and the certificate reads back as the leaf for `hostname` with
/// the serial number `drawn` and that key, issued by the root. A key that is
/// not is a failure of the key generation; a certificate that is not, with a
/// key that is, a failure of the reading back.
pub fn hand_out(
    root: &RootCredential,
    hostname: &str,
    drawn: &[u8],
    key: Vec<u8>,
    leaf: Vec<u8>,
) -> (r: Result<IssuedCertificate, IssueError>)
    ensures
        r is Ok <==> is_fresh_leaf_key(key@, *root) && is_leaf_for(
            leaf@,
            hostname@,
            drawn@,
            key@,
            root.certificate@,
        ),
        r matches Ok(issued) ==> issued.certificate@ == leaf@ && issued.private_key@ == key@,
        r matches Err(e) ==> e == (if is_fresh_leaf_key(key@, *root) {
            failure(Step::ReadBack)
        } else {
            failure(Step::KeyGeneration)
        }),
{
    if !check_fresh_leaf_key(key.as_slice(), root) {
        return Err(failure_of(Step::KeyGeneration));
    }
    match accept_leaf(leaf, hostname, drawn, key.as_slice(), root.certificate.as_slice()) {
        Ok(certificate) => Ok(IssuedCertificate { certificate, private_key: key }),
        Err(e) => Err(e),
    }
}

/// Appends one entry to a name under construction.
///
/// A value too long for a name is refused and the name left as it was. Where
/// OpenSSL takes the entry it stands last in the name; where it does not, the
/// failure is that of the subject name.
fn put_entry(name: &mut X509NameBuilder, field: &str, value: &str) -> (r: Result<(), IssueError>)
    requires
        forall|i: int| 0 <= i < field@.len() ==> field@[i] != '\0',
    ensures
        r is Ok ==> name_entries(*final(name)) == name_entries(*old(name)).push((field@, value@)),
        r is Ok ==> vstd::utf8::encode_utf8(value@).len() <= MAX_ENTRY_VALUE,
        r matches Err(e) ==> e == failure(Step::SubjectName),
        vstd::utf8::encode_utf8(value@).len() > MAX_ENTRY_VALUE ==> r is Err && name_entries(
            *final(name),
        ) == name_entries(*old(name)),
{
    if value.as_bytes().len() > MAX_ENTRY_VALUE {
        return Err(failure_of(Step::SubjectName));
    }
    match append_entry(name, field, value) {
        Ok(()) => Ok(()),
        Err(_) => Err(failure_of(Step::SubjectName)),
    }
}

/// Builds the subject name of the leaf for `hostname`: the fixed fields, then
/// the common name.
///
/// The name that comes back holds exactly the entries of [`subject_fields`],
/// in order, and is small enough to be encoded. A hostname too long for a
/// name gives none.
fn build_subject(hostname: &str) -> (r: Result<X509NameBuilder, IssueError>)
    ensures
        r matches Ok(name) ==> name_entries(name) == subject_fields(hostname@) && name_fits(
            name_entries(name),
        ),
        r matches Err(e) ==> e == failure(Step::SubjectName),
        vstd::utf8::encode_utf8(hostname@).len() > MAX_ENTRY_VALUE ==> r is Err,
{
    let mut name = match new_name() {
        Ok(name) => name,
        Err(_) => {
            return Err(failure_of(Step::SubjectName));
        },
    };
    proof {
        reveal_strlit("C");
        reveal_strlit("ST");
        reveal_strlit("L");
        reveal_strlit("O");
        reveal_strlit("OU");
        reveal_strlit("CN");
    }
    put_entry(&mut name, "C", SUBJECT_COUNTRY)?;
    put_entry(&mut name, "ST", SUBJECT_STATE)?;
    put_entry(&mut name, "L", SUBJECT_LOCALITY)?;
    put_entry(&mut name, "O", SUBJECT_ORGANIZATION)?;
    put_entry(&mut name, "OU", SUBJECT_UNIT)?;
    put_entry(&mut name, "CN", hostname)?;
    assert(name_entries(name) =~= subject_fields(hostname@));
    Ok(name)
}

/// Whether `e` is a failure of one of the steps that start a leaf.
pub open spec fn fails_at_start(e: IssueError) -> bool {
    e == failure(Step::Certificate) || e == failure(Step::SubjectName) || e == failure(
        Step::IssuerName,
    )
}

/// Whether `e` is a failure of one of the steps that complete a leaf.
pub open spec fn fails_at_completion(e: IssueError) -> bool {
    e == failure(Step::SerialNumber) || e == failure(Step::Validity) || e == failure(
        Step::PublicKey,
    ) || e == failure(Step::AlternativeName) || e == failure(Step::Signature) || e == failure(
        Step::Encoding,
    ) || e == failure(Step::ReadBack)
}

/// Whether `e` is a failure of one of the steps of an issuance from a loaded
/// root: never that of a file.
pub open spec fn fails_in_issuance(e: IssueError) -> bool {
    e == failure(Step::RootCertificate) || e == failure(Step::RootKey) || e == failure(
        Step::KeyGeneration,
    ) || fails_at_start(e) || fails_at_completion(e)
}

/// Starts the leaf: a version 3 certificate whose subject is built from
/// [`subject_fields`] and whose issuer is the subject of the root.
///
/// Whether the steps succeed is OpenSSL's to say. A failure is that of
/// creating the certificate, of the subject name or of the issuer name, and a
/// hostname too long for a name always fails.
fn begin_leaf(root: &X509, hostname: &str) -> (r: Result<X509Builder, IssueError>)
    ensures
        r matches Err(e) ==> fails_at_start(e),
        vstd::utf8::encode_utf8(hostname@).len() > MAX_ENTRY_VALUE ==> r is Err,
{
    let mut cert = match new_certificate() {
        Ok(cert) => cert,
        Err(_) => {
            return Err(failure_of(Step::Certificate));
        },
    };
    if set_version(&mut cert, VERSION_3).is_err() {
        return Err(failure_of(Step::Certificate));
    }
    let subject = build_subject(hostname)?;
    if set_subject_name(&mut cert, subject).is_err() {
        return Err(failure_of(Step::SubjectName));
    }
    if set_issuer_name(&mut cert, root).is_err() {
        return Err(failure_of(Step::IssuerName));
    }
    Ok(cert)
}

/// Completes the leaf, signs it and reads it back: the serial number, the
/// validity window of the root, the public key, the alternative name, then
/// the signature with the root key over SHA-256.
///
/// `root_der` and `key_der` are the encodings that `root` and `key` were
/// parsed from. The encoded certificate is handed out only if it reads back as
/// the leaf for `hostname` with the serial number `drawn` and the key
/// `key_der`, issued by `root_der`. A failure is that of one of these steps.
fn complete_leaf(
    cert: X509Builder,
    root: &X509,
    root_der: &[u8],
    root_key: &PKey<Private>,
    hostname: &str,
    key: &PKey<Private>,
    key_der: &[u8],
    drawn: &[u8],
) -> (r: Result<Vec<u8>, IssueError>)
    requires
        hostname.spec_bytes().len() <= MAX_BUFFER,
        drawn@.len() <= MAX_BUFFER,
    ensures
        r matches Ok(leaf) ==> is_leaf_for(leaf@, hostname@, drawn@, key_der@, root_der@),
        r matches Err(e) ==> fails_at_completion(e),
{
    let mut cert = cert;
    if set_serial_number(&mut cert, drawn).is_err() {
        return Err(failure_of(Step::SerialNumber));
    }
    if set_not_before(&mut cert, root).is_err() {
        return Err(failure_of(Step::Validity));
    }
    if set_not_after(&mut cert, root).is_err() {
        return Err(failure_of(Step::Validity));
    }
    if set_public_key(&mut cert, key).is_err() {
        return Err(failure_of(Step::PublicKey));
    }
    if add_dns_alt_name(&mut cert, root, hostname).is_err() {
        return Err(failure_of(Step::AlternativeName));
    }
    if sign_sha256(&mut cert, root_key).is_err() {
        return Err(failure_of(Step::Signature));
    }
    let leaf = match finish_certificate(cert) {
        Ok(der) => der,
        Err(_) => {
            return Err(failure_of(Step::Encoding));
        },
    };
    accept_leaf(leaf, hostname, drawn, key_der, root_der)
}

/// Issues the leaf for `hostname` with a given key and a given serial number.
///
/// This is [`issue`] without its two random draws: `key` is the DER private
/// key of the leaf and `drawn` the bytes of its serial number. A certificate
/// is handed out only if it reads back as the leaf that was asked for.
/// Whether the steps succeed is OpenSSL's to say, and [`accept_leaf`] says
/// what becomes of the certificate that they give; a name or a serial number
/// too long is refused at once.
pub fn sign_leaf(root: &RootCredential, hostname: &str, key: &[u8], drawn: &[u8]) -> (r: Result<
    Vec<u8>,
    IssueError,
>)
    ensures
        r matches Ok(leaf) ==> is_leaf_for(leaf@, hostname@, drawn@, key@, root.certificate@),
        r matches Err(e) ==> fails_in_issuance(e),
        vstd::utf8::encode_utf8(hostname@).len() > MAX_ENTRY_VALUE ==> r == Err::<
            Vec<u8>,
            IssueError,
        >(failure(Step::SubjectName)),
        vstd::utf8::encode_utf8(hostname@).len() <= MAX_ENTRY_VALUE && drawn@.len() > MAX_BUFFER
            ==> r == Err::<
            Vec<u8>,
            IssueError,
        >(failure(Step::SerialNumber)),
{
    if hostname.as_bytes().len() > MAX_ENTRY_VALUE {
        return Err(failure_of(Step::SubjectName));
    }
    if drawn.len() > MAX_BUFFER {
        return Err(failure_of(Step::SerialNumber));
    }
    let root_certificate = match parse_certificate(root.certificate.as_slice()) {
        Ok(parsed) => parsed,
        Err(_) => {
            return Err(failure_of(Step::RootCertificate));
        },
    };
    let root_key = match parse_private_key(root.private_key.as_slice()) {
        Ok(parsed) => parsed,
        Err(_) => {
            return Err(failure_of(Step::RootKey));
        },
    };
    let leaf_key = match parse_private_key(key) {
        Ok(parsed) => parsed,
        Err(_) => {
            return Err(failure_of(Step::KeyGeneration));
        },
    };
    let cert = begin_leaf(&root_certificate, hostname)?;
    complete_leaf(
        cert,
        &root_certificate,
        root.certificate.as_slice(),
        &root_key,
        hostname,
        &leaf_key,
        key,
        drawn,
    )
}

/// Issues a leaf certificate for the requested host, signed by `root`.
///
/// A new 2048-bit RSA key pair is generated and a serial number drawn from 16
/// random bytes on every call; nothing is kept between calls. The subject is
/// the fixed organizational fields with the hostname as common name, the
/// issuer is the root's subject, the validity window is the root's, the one
/// alternative name is the hostname as a DNS name, and the signature is the
/// root key's over SHA-256.
///
/// Every certificate that is handed out has these properties: it is read back
/// and refused with `SigningError` if it has not. Whether the steps succeed is
/// OpenSSL's to say, and [`hand_out`] says what becomes of the key and the
/// certificate that they give; a hostname too long for a name is refused at
/// once.
pub fn issue(root: &RootCredential, request: &LeafCertificateRequest) -> (r: Result<
    IssuedCertificate,
    IssueError,
>)
    ensures
        r matches Ok(issued) ==> chain_valid(issued.certificate@, root.certificate@),
        r matches Ok(issued) ==> names_host(issued.certificate@, request.hostname@),
        r matches Ok(issued) ==> validity_copied(issued.certificate@, root.certificate@),
        r matches Ok(issued) ==> issuer_linked(issued.certificate@, root.certificate@),
        r matches Ok(issued) ==> serial_fits(issued.certificate@),
        r matches Ok(issued) ==> well_formed(issued.certificate@),
        r matches Ok(issued) ==> is_leaf_key(issued.private_key@),
        r matches Ok(issued) ==> key_matches(issued.certificate@, issued.private_key@),
        r matches Ok(issued) ==> issued.private_key@ != root.private_key@,
        r matches Ok(issued) ==> issued.is_for(request.hostname@, root.certificate@),
        r matches Err(e) ==> fails_in_issuance(e),
        vstd::utf8::encode_utf8(request.hostname@).len() > MAX_ENTRY_VALUE ==> r == Err::<
            IssuedCertificate,
            IssueError,
        >(failure(Step::SubjectName)),
{
    let hostname = request.hostname.as_str();
    if hostname.as_bytes().len() > MAX_ENTRY_VALUE {
        return Err(failure_of(Step::SubjectName));
    }
    let root_certificate = match parse_certificate(root.certificate.as_slice()) {
        Ok(parsed) => parsed,
        Err(_) => {
            return Err(failure_of(Step::RootCertificate));
        },
    };
    let root_key = match parse_private_key(root.private_key.as_slice()) {
        Ok(parsed) => parsed,
        Err(_) => {
            return Err(failure_of(Step::RootKey));
        },
    };
    let private_key = match generate_rsa_key(KEY_BITS) {
        Ok(der) => der,
        Err(_) => {
            return Err(failure_of(Step::KeyGeneration));
        },
    };
    if !check_fresh_leaf_key(private_key.as_slice(), root) {
        return Err(failure_of(Step::KeyGeneration));
    }
    let leaf_key = match parse_private_key(private_key.as_slice()) {
        Ok(parsed) => parsed,
        Err(_) => {
            return Err(failure_of(Step::KeyGeneration));
        },
    };
    let cert = begin_leaf(&root_certificate, hostname)?;
    let mut drawn: Vec<u8> = Vec::new();
    while drawn.len() < SERIAL_BYTES
        invariant
            drawn@.len() <= SERIAL_BYTES,
        decreases SERIAL_BYTES - drawn@.len(),
    {
        drawn.push(0);
    }
    if fill_random(&mut drawn).is_err() {
        return Err(failure_of(Step::SerialNumber));
    }
    let certificate = complete_leaf(
        cert,
        &root_certificate,
        root.certificate.as_slice(),
        &root_key,
        hostname,
        &leaf_key,
        private_key.as_slice(),
        drawn.as_slice(),
    )?;
    match hand_out(root, hostname, drawn.as_slice(), private_key, certificate) {
        Ok(issued) => {
            proof {
                lemma_leaf_is_issued(issued, hostname@, drawn@, root.certificate@);
            }
            Ok(issued)
        },
        Err(e) => Err(e),
    }
}

/// What issuing from the two root files comes to, as far as the files and the
/// hostname decide it: a failure to load is handed on unchanged, a failure
/// after two files with content is that of decoding or of a step of the
/// issuance, and what is handed out is a leaf for the host under some root.
pub open spec fn issue_outcome(
    cert_path: Seq<char>,
    cert_file: FileContent,
    key_path: Seq<char>,
    key_file: FileContent,
    hostname: Seq<char>,
    r: Result<IssuedCertificate, IssueError>,
) -> bool {
    match r {
        Ok(issued) => cert_file is Bytes && key_file is Bytes && exists|root: Seq<u8>| #[trigger]
            issued.is_for(hostname, root),
        Err(e) => match cert_file {
            FileContent::Missing => e matches IssueError::Load(l) && l.is_certificate_not_found(
                cert_path,
            ),
            FileContent::Unreadable(reason) => e matches IssueError::Load(l) && l.is_io_error(
                reason@,
            ),
            FileContent::Bytes(_) => match key_file {
                FileContent::Missing => e matches IssueError::Load(l) && (l
                    is CertificateDecodeError || l.is_key_not_found(key_path)),
                FileContent::Unreadable(reason) => e matches IssueError::Load(l) && (l
                    is CertificateDecodeError || l.is_io_error(reason@)),
                FileContent::Bytes(_) => fails_in_issuance(e) && (vstd::utf8::encode_utf8(
                    hostname,
                ).len() > MAX_ENTRY_VALUE ==> e is Load || e is NameBuildError),
            },
        },
    }
}

/// Loads the root credential from what was found at the two paths, then issues
/// a leaf certificate for `hostname`.
///
/// An error of the loader comes back unchanged, inside `IssueError::Load`.
/// Nothing is retried.
pub fn issue_certificate(
    cert_path: &str,
    cert_file: FileContent,
    key_path: &str,
    key_file: FileContent,
    hostname: &str,
) -> (r: Result<IssuedCertificate, IssueError>)
    ensures
        issue_outcome(cert_path@, cert_file, key_path@, key_file, hostname@, r),
{
    let root = match load_root_credential(cert_path, cert_file, key_path, key_file) {
        Ok(root) => root,
        Err(e) => {
            return Err(IssueError::Load(e));
        },
    };
    let request = LeafCertificateRequest { hostname: hostname.to_owned() };
    match issue(&root, &request) {
        Ok(issued) => {
            assert(issued.is_for(hostname@, root.certificate@));
            Ok(issued)
        },
        Err(e) => Err(e),
    }
}

/// Issues a leaf certificate for `hostname` from the root credential at its
/// fixed place: the caller reads [`ROOT_CERTIFICATE_PATH`] and
/// [`ROOT_KEY_PATH`] and hands in what it found.
pub fn get_certificate_for_host(cert_file: FileContent, key_file: FileContent, hostname: &str) -> (r:
    Result<IssuedCertificate, IssueError>)
    ensures
        issue_outcome(
            ROOT_CERTIFICATE_PATH@,
            cert_file,
            ROOT_KEY_PATH@,
            key_file,
            hostname@,
            r,
        ),
{
    issue_certificate(ROOT_CERTIFICATE_PATH, cert_file, ROOT_KEY_PATH, key_file, hostname)
}

} // verus!
