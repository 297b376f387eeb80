//! Configuration read from inside a pod.

use vstd::prelude::*;
use vstd::string::*;
use reqwest::Certificate;
use crate::error::ConfigError;

verus! {

pub const SERVICE_HOSTENV: &'static str = "KUBERNETES_SERVICE_HOST";

pub const SERVICE_PORTENV: &'static str = "KUBERNETES_SERVICE_PORT";

pub const SERVICE_TOKENFILE: &'static str = "/var/run/secrets/kubernetes.io/serviceaccount/token";

pub const SERVICE_CERTFILE: &'static str = "/var/run/secrets/kubernetes.io/serviceaccount/ca.crt";

pub const SERVICE_DEFAULT_NS: &'static str = "/var/run/secrets/kubernetes.io/serviceaccount/namespace";

/// The address `https://host:port`, as a sequence of characters.
pub open spec fn server_address(host: Seq<char>, port: Seq<char>) -> Seq<char> {
    "https://"@ + host + ":"@ + port
}

/// Returns the API server's address from the values of the host and port
/// environment variables: `https://host:port` where both are set, nothing
/// where either is missing.
pub fn kube_server(host: Option<String>, port: Option<String>) -> (r: Option<String>)
    ensures
        r is Some <==> host is Some && port is Some,
        r is Some ==> r->0@ == server_address(host->0@, port->0@),
{
    match host {
        Some(h) => match port {
            Some(p) => {
                let mut s = String::from_str("https://");
                s.append(h.as_str());
                s.append(":");
                s.append(p.as_str());
                Some(s)
            },
            None => None,
        },
        None => None,
    }
}

/// What a loader returns for the outcome of reading a file: the content
/// where the file was read, and a configuration error with the reader's
/// message where it was not.
pub open spec fn loaded(read: Result<String, String>) -> Result<String, ConfigError> {
    match read {
        Ok(s) => Ok(s),
        Err(m) => Err(ConfigError::KubeConfig(m)),
    }
}

fn data_or_file(read: Result<String, String>) -> (r: Result<String, ConfigError>)
    ensures
        r == loaded(read),
{
    match read {
        Ok(s) => Ok(s),
        Err(m) => Err(ConfigError::KubeConfig(m)),
    }
}

/// Returns the service account's token from the outcome of reading the file
/// at `SERVICE_TOKENFILE`.
pub fn load_token(read: Result<String, String>) -> (r: Result<String, ConfigError>)
    ensures
        r == loaded(read),
{
    data_or_file(read)
}

/// Returns the default namespace from the outcome of reading the file at
/// `SERVICE_DEFAULT_NS`.
pub fn load_default_ns(read: Result<String, String>) -> (r: Result<String, ConfigError>)
    ensures
        r == loaded(read),
{
    data_or_file(read)
}

/// A root certificate of the `reqwest` crate.
#[verifier::external_type_specification]
#[verifier::external_body]
pub struct ExCertificate(reqwest::Certificate);

/// The error type of the `reqwest` crate.
#[verifier::external_type_specification]
#[verifier::external_body]
pub struct ExReqwestError(reqwest::Error);

/// Whether `reqwest::Certificate::from_pem` accepts the bytes.
pub uninterp spec fn pem_accepted(pem: Seq<u8>) -> bool;

/// Calls `reqwest::Certificate::from_pem`. Whether the call succeeds depends
/// on the bytes alone; nothing is claimed of the certificate or of the error.
#[verifier::external_body]
fn certificate_from_pem(pem: &[u8]) -> (r: Result<Certificate, reqwest::Error>)
    ensures
        r is Ok <==> pem_accepted(pem@),
{
    Certificate::from_pem(pem)
}

/// Formats a `reqwest::Error` through its `Display`. Nothing is claimed of
/// the text.
#[verifier::external_body]
fn describe(e: &reqwest::Error) -> (text: String) {
    format!("{}", e)
}

/// Wraps the outcome of parsing a certificate: the certificate where there is
/// one, a configuration error where there is none.
pub fn parsed_cert(parsed: Result<Certificate, reqwest::Error>) -> (r: Result<Certificate, ConfigError>)
    ensures
        parsed is Ok ==> r == Ok::<Certificate, ConfigError>(parsed->Ok_0),
        parsed is Err ==> r is Err && r->Err_0 is KubeConfig,
{
    match parsed {
        Ok(c) => Ok(c),
        Err(e) => Err(ConfigError::KubeConfig(describe(&e))),
    }
}

/// Returns the cluster's root certificate from the outcome of reading and
/// decoding the file at `SERVICE_CERTFILE`. A file that could not be read
/// gives a configuration error with the reader's message, and so, with a
/// message of its own, do bytes that are no certificate.
pub fn load_cert(read: Result<Vec<u8>, String>) -> (r: Result<Certificate, ConfigError>)
    ensures
        r is Ok <==> read is Ok && pem_accepted(read->Ok_0@),
        read is Err ==> r == Err::<Certificate, ConfigError>(ConfigError::KubeConfig(read->Err_0)),
        r is Err ==> r->Err_0 is KubeConfig,
{
    match read {
        Ok(ca) => parsed_cert(certificate_from_pem(ca.as_slice())),
        Err(m) => Err(ConfigError::KubeConfig(m)),
    }
}

} // verus!
