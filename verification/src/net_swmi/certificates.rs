//! The trust anchors of the SwMI connection, and how it is made.
use crate::bluestation::config::SecretField;
use crate::bluestation::sec_swmi::CfgSwmi;
use vstd::prelude::*;

verus! {

/// The path of the SwMI on its host.
pub const ENDPOINT_PATH: &'static str = "/swmi/";

/// Why a file holds no trust anchors.
#[derive(Debug)]
pub enum CaCertificateError {
    /// The file is no PEM file; the text says why.
    Unreadable(String),
    /// The file holds no certificate.
    Empty,
}

/// The model of a list of certificates.
pub open spec fn list_view(certificates: Seq<Vec<u8>>) -> Seq<Seq<u8>> {
    certificates.map_values(|certificate: Vec<u8>| certificate@)
}

/// The model of the certificates of a file.
pub open spec fn parsed_view(parsed: Result<Vec<Vec<u8>>, String>) -> Result<
    Seq<Seq<u8>>,
    Seq<char>,
> {
    match parsed {
        Ok(certificates) => Ok(list_view(certificates@)),
        Err(text) => Err(text@),
    }
}

/// The certificates of a PEM file in DER form, or why it cannot be read.
pub uninterp spec fn pem_certificates(pem: Seq<u8>) -> Result<Seq<Seq<u8>>, Seq<char>>;

/// `rustls_pemfile::certs`: the certificates of a PEM file, in their order and in
/// DER form, without its other sections; the text of the first error where a
/// section cannot be read. The result is named and depends on the bytes alone.
#[verifier::external_body]
fn certificates_of(pem: &Vec<u8>) -> (parsed: Result<Vec<Vec<u8>>, String>)
    ensures
        parsed_view(parsed) == pem_certificates(pem@),
{
    let mut reader: &[u8] = pem.as_slice();
    rustls_pemfile::certs(&mut reader)
        .map(|item| item.map(|certificate| certificate.as_ref().to_vec()))
        .collect::<Result<Vec<Vec<u8>>, std::io::Error>>()
        .map_err(|error| error.to_string())
}

/// Trust anchors as they were read: there must be one.
pub fn accept_certificates(parsed: Result<Vec<Vec<u8>>, String>) -> (anchors: Result<
    Vec<Vec<u8>>,
    CaCertificateError,
>)
    ensures
        match parsed {
            Ok(certificates) => if certificates@.len() == 0 {
                anchors matches Err(CaCertificateError::Empty)
            } else {
                anchors == Ok::<Vec<Vec<u8>>, CaCertificateError>(certificates)
            },
            Err(text) => anchors == Err::<Vec<Vec<u8>>, CaCertificateError>(
                CaCertificateError::Unreadable(text),
            ),
        },
{
    match parsed {
        Ok(certificates) => if certificates.len() == 0 {
            Err(CaCertificateError::Empty)
        } else {
            Ok(certificates)
        },
        Err(text) => Err(CaCertificateError::Unreadable(text)),
    }
}

/// The trust anchors of the SwMI, given the content of the configured file. With
/// no file the connection uses those of the system.
pub fn load_swmi_ca_certificate(file: Option<Vec<u8>>) -> (anchors: Result<
    Option<Vec<Vec<u8>>>,
    CaCertificateError,
>)
    ensures
        match file {
            None => anchors == Ok::<Option<Vec<Vec<u8>>>, CaCertificateError>(None),
            Some(pem) => match pem_certificates(pem@) {
                Ok(certificates) => if certificates.len() == 0 {
                    anchors matches Err(CaCertificateError::Empty)
                } else {
                    anchors matches Ok(Some(list)) && list_view(list@) == certificates
                },
                Err(text) => anchors matches Err(CaCertificateError::Unreadable(told)) && told@
                    == text,
            },
        },
{
    let pem: Vec<u8> = match file {
        Some(pem) => pem,
        None => return Ok(None),
    };
    match accept_certificates(certificates_of(&pem)) {
        Ok(list) => Ok(Some(list)),
        Err(error) => Err(error),
    }
}

/// How the connection to the SwMI is made.
pub struct WebSocketTransportConfig {
    pub host: String,
    pub port: u16,
    pub use_tls: bool,
    pub custom_root_certs: Option<Vec<Vec<u8>>>,
    pub digest_auth_credentials: (String, SecretField),
    pub endpoint_path: &'static str,
    pub subprotocol: String,
    pub user_agent: String,
    pub heartbeat_interval_secs: u64,
    pub heartbeat_timeout_secs: u64,
}

/// The connection that a configuration asks for, given the content of the
/// certificate file that it names.
pub fn build_websocket_transport(
    config: &CfgSwmi,
    certificate_file: Option<Vec<u8>>,
    subprotocol: String,
    user_agent: String,
) -> (transport: Result<WebSocketTransportConfig, CaCertificateError>)
    ensures
        ({
            let broken = certificate_file matches Some(pem) && (pem_certificates(pem@) is Err
                || pem_certificates(pem@)->Ok_0.len() == 0);
            match transport {
                Ok(made) => {
                    &&& !broken
                    &&& made.host == config.host
                    &&& made.port == config.port
                    &&& made.use_tls == config.tls
                    &&& made.digest_auth_credentials.0 == config.username
                    &&& made.digest_auth_credentials.1.val == config.password.val
                    &&& made.endpoint_path@ == ENDPOINT_PATH@
                    &&& made.subprotocol == subprotocol
                    &&& made.user_agent == user_agent
                    &&& made.heartbeat_interval_secs == config.heartbeat_interval_secs
                    &&& made.heartbeat_timeout_secs == config.heartbeat_timeout_secs
                    &&& match certificate_file {
                        None => made.custom_root_certs is None,
                        Some(pem) => made.custom_root_certs matches Some(list) && pem_certificates(
                            pem@,
                        ) == Ok::<Seq<Seq<u8>>, Seq<char>>(list_view(list@)),
                    }
                },
                Err(CaCertificateError::Empty) => certificate_file matches Some(pem)
                    && pem_certificates(pem@) is Ok && pem_certificates(pem@)->Ok_0.len() == 0,
                Err(CaCertificateError::Unreadable(text)) => certificate_file matches Some(pem)
                    && pem_certificates(pem@) == Err::<Seq<Seq<u8>>, Seq<char>>(text@),
            }
        }),
{
    let custom_root_certs: Option<Vec<Vec<u8>>> = match load_swmi_ca_certificate(
        certificate_file,
    ) {
        Ok(anchors) => anchors,
        Err(error) => return Err(error),
    };
    Ok(
        WebSocketTransportConfig {
            host: config.host.clone(),
            port: config.port,
            use_tls: config.tls,
            custom_root_certs,
            digest_auth_credentials: (
                config.username.clone(),
                SecretField { val: config.password.val.clone() },
            ),
            endpoint_path: ENDPOINT_PATH,
            subprotocol,
            user_agent,
            heartbeat_interval_secs: config.heartbeat_interval_secs,
            heartbeat_timeout_secs: config.heartbeat_timeout_secs,
        },
    )
}

} // verus!
