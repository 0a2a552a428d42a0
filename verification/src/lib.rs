//! On-demand issuance of leaf certificates for a TLS-intercepting proxy.
//!
//! Given a hostname and the locally trusted root authority, the library mints a
//! fresh RSA key and an X.509v3 certificate for that host, signed by the root.
//! The cryptography is OpenSSL's; what is proved here is the order of the steps,
//! the mapping of failures, and that an issued certificate reads back as asked.

pub mod bytes;
pub mod credential;
pub mod crypto;
pub mod issuer;
pub mod trust_store;
