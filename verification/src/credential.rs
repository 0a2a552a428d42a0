//! Loading the root credential: the certificate of the local authority and the
//! private key that signs for it.
//!
//! The files are read by the caller. What was found at each path comes in as a
//! [`FileContent`]; the library decodes the PEM text and decides which error a
//! failure is.

use crate::crypto::{decode_certificate_pem, decode_private_key_pem, MAX_BUFFER};
use openssl::error::ErrorStack;
use vstd::prelude::*;

verus! {

/// What the caller found at a path.
#[derive(Clone, Debug, PartialEq, Eq)]
pub enum FileContent {
    /// Nothing exists at the path.
    Missing,
    /// The file exists and could not be read; the reason, as text.
    Unreadable(String),
    /// The whole content of the file.
    Bytes(Vec<u8>),
}

/// What became of a file once its content went through the PEM decoder.
#[derive(Clone, Debug, PartialEq, Eq)]
pub enum Decoded {
    /// Nothing exists at the path.
    Missing,
    /// The file exists and could not be read; the reason, as text.
    Unreadable(String),
    /// The content is not the PEM object that was expected.
    Malformed,
    /// The object, DER-encoded.
    Der(Vec<u8>),
}

/// Why the root credential could not be loaded.
#[derive(Clone, Debug, PartialEq, Eq)]
pub enum LoadError {
    /// No certificate file at the path given.
    CertificateFileNotFound(String),
    /// No key file at the path given.
    KeyFileNotFound(String),
    /// The certificate is not a PEM-encoded X.509 certificate.
    CertificateDecodeError,
    /// The key is not a PEM-encoded private key.
    KeyDecodeError,
    /// A file exists and could not be read; the reason, as text.
    IoError(String),
}

/// The certificate of the root authority and its private key, both DER-encoded
/// (the key as PKCS#8).
#[derive(Clone, Debug, PartialEq, Eq)]
pub struct RootCredential {
    pub certificate: Vec<u8>,
    pub private_key: Vec<u8>,
}

impl LoadError {
    /// `CertificateFileNotFound` with this path.
    pub open spec fn is_certificate_not_found(self, path: Seq<char>) -> bool {
        self matches LoadError::CertificateFileNotFound(p) && p@ == path
    }

    /// `KeyFileNotFound` with this path.
    pub open spec fn is_key_not_found(self, path: Seq<char>) -> bool {
        self matches LoadError::KeyFileNotFound(p) && p@ == path
    }

    /// `IoError` with this reason.
    pub open spec fn is_io_error(self, reason: Seq<char>) -> bool {
        self matches LoadError::IoError(kept) && kept@ == reason
    }

    /// What the error says: a missing file with its path, an unreadable one
    /// with the reason that was given.
    pub open spec fn text(self) -> Seq<char> {
        match self {
            LoadError::CertificateFileNotFound(path) => "根证书文件未找到: "@ + path@,
            LoadError::KeyFileNotFound(path) => "根密钥文件未找到: "@ + path@,
            LoadError::CertificateDecodeError => "root certificate does not decode"@,
            LoadError::KeyDecodeError => "root key does not decode"@,
            LoadError::IoError(reason) => reason@,
        }
    }

    /// What the error says.
    pub fn message(&self) -> (said: String)
        ensures
            said@ == self.text(),
    {
        match self {
            LoadError::CertificateFileNotFound(path) => "根证书文件未找到: ".to_owned().concat(
                path.as_str(),
            ),
            LoadError::KeyFileNotFound(path) => "根密钥文件未找到: ".to_owned().concat(
                path.as_str(),
            ),
            LoadError::CertificateDecodeError => "root certificate does not decode".to_owned(),
            LoadError::KeyDecodeError => "root key does not decode".to_owned(),
            LoadError::IoError(reason) => reason.clone(),
        }
    }
}

impl Decoded {
    /// Whether `self` can be what decoding makes of `file`: a file that is
    /// missing or unreadable stays so, and content is either malformed or an
    /// object. Content too long for the decoder is malformed.
    pub open spec fn comes_of(self, file: FileContent) -> bool {
        match file {
            FileContent::Missing => self is Missing,
            FileContent::Unreadable(reason) => self matches Decoded::Unreadable(kept) && kept@
                == reason@,
            FileContent::Bytes(content) => (self is Malformed || self is Der) && (content@.len()
                > MAX_BUFFER ==> self is Malformed),
        }
    }
}

/// What loading the certificate at `path` comes to, given what decoding made of
/// the file.
pub open spec fn certificate_outcome(
    path: Seq<char>,
    decoded: Decoded,
    r: Result<Vec<u8>, LoadError>,
) -> bool {
    match decoded {
        Decoded::Missing => r matches Err(e) && e.is_certificate_not_found(path),
        Decoded::Unreadable(reason) => r matches Err(e) && e.is_io_error(reason@),
        Decoded::Malformed => r matches Err(LoadError::CertificateDecodeError),
        Decoded::Der(der) => r matches Ok(kept) && kept@ == der@,
    }
}

/// What loading the key at `path` comes to, given what decoding made of the
/// file.
pub open spec fn key_outcome(path: Seq<char>, decoded: Decoded, r: Result<Vec<u8>, LoadError>) -> bool {
    match decoded {
        Decoded::Missing => r matches Err(e) && e.is_key_not_found(path),
        Decoded::Unreadable(reason) => r matches Err(e) && e.is_io_error(reason@),
        Decoded::Malformed => r matches Err(LoadError::KeyDecodeError),
        Decoded::Der(der) => r matches Ok(kept) && kept@ == der@,
    }
}

/// What the PEM decoder made of content: the object where it gave one,
/// malformed where it failed.
pub fn decoded_content(outcome: Result<Vec<u8>, ErrorStack>) -> (d: Decoded)
    ensures
        match outcome {
            Ok(der) => d matches Decoded::Der(kept) && kept@ == der@,
            Err(_) => d is Malformed,
        },
{
    match outcome {
        Ok(der) => Decoded::Der(der),
        Err(_) => Decoded::Malformed,
    }
}

/// Puts the content of the certificate file through the PEM decoder.
pub fn decode_certificate_file(file: FileContent) -> (d: Decoded)
    ensures
        d.comes_of(file),
{
    match file {
        FileContent::Missing => Decoded::Missing,
        FileContent::Unreadable(reason) => Decoded::Unreadable(reason),
        FileContent::Bytes(content) => {
            if content.len() > MAX_BUFFER {
                Decoded::Malformed
            } else {
                decoded_content(decode_certificate_pem(content.as_slice()))
            }
        },
    }
}

/// Puts the content of the key file through the PEM decoder.
pub fn decode_key_file(file: FileContent) -> (d: Decoded)
    ensures
        d.comes_of(file),
{
    match file {
        FileContent::Missing => Decoded::Missing,
        FileContent::Unreadable(reason) => Decoded::Unreadable(reason),
        FileContent::Bytes(content) => {
            if content.len() > MAX_BUFFER {
                Decoded::Malformed
            } else {
                decoded_content(decode_private_key_pem(content.as_slice()))
            }
        },
    }
}

/// The root certificate, or the error that its file comes to.
pub fn certificate_from(path: &str, decoded: Decoded) -> (r: Result<Vec<u8>, LoadError>)
    ensures
        certificate_outcome(path@, decoded, r),
{
    match decoded {
        Decoded::Missing => Err(LoadError::CertificateFileNotFound(path.to_owned())),
        Decoded::Unreadable(reason) => Err(LoadError::IoError(reason)),
        Decoded::Malformed => Err(LoadError::CertificateDecodeError),
        Decoded::Der(der) => Ok(der),
    }
}

/// The root key, or the error that its file comes to.
pub fn key_from(path: &str, decoded: Decoded) -> (r: Result<Vec<u8>, LoadError>)
    ensures
        key_outcome(path@, decoded, r),
{
    match decoded {
        Decoded::Missing => Err(LoadError::KeyFileNotFound(path.to_owned())),
        Decoded::Unreadable(reason) => Err(LoadError::IoError(reason)),
        Decoded::Malformed => Err(LoadError::KeyDecodeError),
        Decoded::Der(der) => Ok(der),
    }
}

/// What loading the credential comes to, given what decoding made of the two
/// files. The certificate is looked at first: unless it is in hand, its error
/// is the result, whatever the key file holds. Then the key: its error, or the
/// credential of the two.
pub open spec fn credential_outcome(
    cert_path: Seq<char>,
    cert: Decoded,
    key_path: Seq<char>,
    key: Decoded,
    r: Result<RootCredential, LoadError>,
) -> bool {
    match cert {
        Decoded::Der(c) => match key {
            Decoded::Der(k) => r matches Ok(root) && root.certificate@ == c@ && root.private_key@
                == k@,
            _ => r matches Err(e) && key_outcome(key_path, key, Err(e)),
        },
        _ => r matches Err(e) && certificate_outcome(cert_path, cert, Err(e)),
    }
}

/// The credential of the two decoded files, or the error that they come to:
/// the certificate's before the key's.
pub fn credential_from(cert_path: &str, cert: Decoded, key_path: &str, key: Decoded) -> (r: Result<
    RootCredential,
    LoadError,
>)
    ensures
        credential_outcome(cert_path@, cert, key_path@, key, r),
{
    let certificate = match certificate_from(cert_path, cert) {
        Ok(der) => der,
        Err(e) => {
            return Err(e);
        },
    };
    match key_from(key_path, key) {
        Ok(private_key) => Ok(RootCredential { certificate, private_key }),
        Err(e) => Err(e),
    }
}

/// What loading comes to as far as the files alone decide it: which error a
/// missing, unreadable or oversized file gives, and that only two files with
/// content can give a credential.
pub open spec fn load_outcome(
    cert_path: Seq<char>,
    cert_file: FileContent,
    key_path: Seq<char>,
    key_file: FileContent,
    r: Result<RootCredential, LoadError>,
) -> bool {
    match cert_file {
        FileContent::Missing => r matches Err(e) && e.is_certificate_not_found(cert_path),
        FileContent::Unreadable(reason) => r matches Err(e) && e.is_io_error(reason@),
        FileContent::Bytes(cert) => match r {
            Ok(_) => cert@.len() <= MAX_BUFFER && (key_file matches FileContent::Bytes(key)
                && key@.len() <= MAX_BUFFER),
            Err(e) => e is CertificateDecodeError || (cert@.len() <= MAX_BUFFER && match key_file {
                FileContent::Missing => e.is_key_not_found(key_path),
                FileContent::Unreadable(reason) => e.is_io_error(reason@),
                FileContent::Bytes(_) => e is KeyDecodeError,
            }),
        },
    }
}

/// Every file has something that decoding can make of it.
pub proof fn lemma_something_comes_of(file: FileContent) -> (d: Decoded)
    ensures
        d.comes_of(file),
{
    match file {
        FileContent::Missing => Decoded::Missing,
        FileContent::Unreadable(reason) => Decoded::Unreadable(reason),
        FileContent::Bytes(_) => Decoded::Malformed,
    }
}

/// Loads the root credential from what was found at the two paths.
///
/// The certificate comes first: a missing certificate file is
/// `CertificateFileNotFound` with its path, an unreadable one `IoError`, and
/// content that does not decode `CertificateDecodeError`. Only then is the key
/// looked at, in the same way. There is no partial credential: the result is
/// both parts or an error.
///
/// Whether content decodes is OpenSSL's to say. The result is what
/// [`credential_from`] makes of the two files once decoded, for some answer of
/// the decoder that the files admit.
pub fn load_root_credential(
    cert_path: &str,
    cert_file: FileContent,
    key_path: &str,
    key_file: FileContent,
) -> (r: Result<RootCredential, LoadError>)
    ensures
        exists|cert: Decoded, key: Decoded|
            cert.comes_of(cert_file) && key.comes_of(key_file) && #[trigger] credential_outcome(
                cert_path@,
                cert,
                key_path@,
                key,
                r,
            ),
        load_outcome(cert_path@, cert_file, key_path@, key_file, r),
{
    let cert = decode_certificate_file(cert_file);
    if let Decoded::Der(_) = cert {
        let key = decode_key_file(key_file);
        credential_from(cert_path, cert, key_path, key)
    } else {
        let ghost unread = lemma_something_comes_of(key_file);
        let r = credential_from(cert_path, cert, key_path, Decoded::Missing);
        assert(credential_outcome(cert_path@, cert, key_path@, unread, r));
        r
    }
}

} // verus!
