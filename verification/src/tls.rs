//! TLS settings of the FTP server and the building of its rustls configuration.
//!
//! Reading the certificate and key files is left to the caller, which hands over their
//! bytes (or `None` where a file could not be opened); PEM decoding and the rustls
//! configuration are done here through the outside crates.

use vstd::prelude::*;
use std::sync::Arc;
use rustls::ServerConfig;
use rustls::pki_types::{CertificateDer, PrivateKeyDer};

verus! {

#[verifier::external_type_specification]
#[verifier::external_body]
pub struct ExServerConfig(ServerConfig);

#[verifier::external_type_specification]
#[verifier::external_body]
pub struct ExCertificateDer<'a>(CertificateDer<'a>);

#[verifier::external_type_specification]
#[verifier::external_body]
pub struct ExPrivateKeyDer<'a>(PrivateKeyDer<'a>);

#[verifier::external_type_specification]
#[verifier::external_body]
pub struct ExIoError(std::io::Error);

#[verifier::external_type_specification]
#[verifier::external_body]
pub struct ExRustlsError(rustls::Error);

/// Whether the certificate sections of a PEM text all read without error.
pub uninterp spec fn pem_certs_read(pem: Seq<u8>) -> bool;

/// Whether a PEM text reads without error while looking for a private key.
pub uninterp spec fn pem_key_read(pem: Seq<u8>) -> bool;

/// Whether a PEM text holds a private key, when it reads.
pub uninterp spec fn pem_key_found(pem: Seq<u8>) -> bool;

/// Calls `rustls_pemfile::certs` over the PEM text and collects the certificates in
/// the order they appear, or the first read error. Which sections the PEM grammar
/// accepts is the crate's own: whether the reading succeeds is named
/// `pem_certs_read(pem)`; nothing is stated of the certificates.
#[verifier::external_body]
fn read_pem_certs(pem: &[u8]) -> (r: Result<Vec<CertificateDer<'static>>, std::io::Error>)
    ensures
        r is Ok == pem_certs_read(pem@),
{
    let mut rd: &[u8] = pem;
    rustls_pemfile::certs(&mut rd).collect()
}

/// Calls `rustls_pemfile::private_key`: the first private key in the PEM text, `None`
/// where there is none. Whether the reading succeeds is named `pem_key_read(pem)`, and
/// whether it finds a key `pem_key_found(pem)`; nothing is stated of the key.
#[verifier::external_body]
fn read_pem_private_key(pem: &[u8]) -> (r: Result<Option<PrivateKeyDer<'static>>, std::io::Error>)
    ensures
        r is Ok == pem_key_read(pem@),
        r is Ok ==> (r matches Ok(Some(_)) == pem_key_found(pem@)),
{
    let mut rd: &[u8] = pem;
    rustls_pemfile::private_key(&mut rd)
}

/// Calls `ServerConfig::builder().with_no_client_auth().with_single_cert(..)`: a server
/// configuration without client authentication that presents `chain` with `key`.
/// Whether rustls accepts the pair is its own: nothing is stated of the result.
#[verifier::external_body]
fn single_cert_server_config(chain: Vec<CertificateDer<'static>>, key: PrivateKeyDer<'static>) -> (r:
    Result<Arc<ServerConfig>, rustls::Error>) {
    ServerConfig::builder().with_no_client_auth().with_single_cert(chain, key).map(Arc::new)
}

#[derive(Clone, Debug, Default)]
pub struct TlsConfig {
    pub enabled: bool,
    pub cert_path: String,
    pub key_path: String,
    pub require_tls: bool,
}

/// Why the rustls configuration could not be built.
#[derive(Clone, Copy, Debug, PartialEq, Eq, Structural)]
pub enum TlsLoadError {
    NotEnabled,
    CertificateOpen,
    PrivateKeyOpen,
    CertificateRead,
    PrivateKeyRead,
    NoPrivateKey,
    ServerConfig,
}

/// Why the TLS settings are not usable.
#[derive(Clone, Copy, Debug, PartialEq, Eq, Structural)]
pub enum TlsError {
    CertificatePathMissing,
    PrivateKeyPathMissing,
    CertificateFileMissing,
    PrivateKeyFileMissing,
    Load(TlsLoadError),
}

/// What each failure to build the rustls configuration reports. Opening a file
/// that fails is reported with the file's path after the text.
pub open spec fn spec_load_error_text(e: TlsLoadError) -> Seq<char> {
    match e {
        TlsLoadError::NotEnabled => "TLS is not enabled"@,
        TlsLoadError::CertificateOpen => "Failed to open certificate file"@,
        TlsLoadError::PrivateKeyOpen => "Failed to open private key file"@,
        TlsLoadError::CertificateRead => "Failed to read certificates"@,
        TlsLoadError::PrivateKeyRead => "Failed to read private key"@,
        TlsLoadError::NoPrivateKey => "No private key found in file"@,
        TlsLoadError::ServerConfig => "Failed to create TLS server config"@,
    }
}

/// What each unusable TLS setting reports. A missing file is reported with its path
/// after the text; a configuration that does not load reports that, whatever the cause.
pub open spec fn spec_tls_error_text(e: TlsError) -> Seq<char> {
    match e {
        TlsError::CertificatePathMissing => "TLS enabled but certificate path is not configured"@,
        TlsError::PrivateKeyPathMissing => "TLS enabled but private key path is not configured"@,
        TlsError::CertificateFileMissing => "Certificate file does not exist"@,
        TlsError::PrivateKeyFileMissing => "Private key file does not exist"@,
        TlsError::Load(_) => "Failed to load TLS configuration"@,
    }
}

impl TlsLoadError {
    /// The text reported for this failure.
    pub fn message(&self) -> (r: &'static str)
        ensures
            r@ == spec_load_error_text(*self),
    {
        let r = match self {
            TlsLoadError::NotEnabled => "TLS is not enabled",
            TlsLoadError::CertificateOpen => "Failed to open certificate file",
            TlsLoadError::PrivateKeyOpen => "Failed to open private key file",
            TlsLoadError::CertificateRead => "Failed to read certificates",
            TlsLoadError::PrivateKeyRead => "Failed to read private key",
            TlsLoadError::NoPrivateKey => "No private key found in file",
            TlsLoadError::ServerConfig => "Failed to create TLS server config",
        };
        r
    }
}

impl TlsError {
    /// The text reported for this setting.
    pub fn message(&self) -> (r: &'static str)
        ensures
            r@ == spec_tls_error_text(*self),
    {
        let r = match self {
            TlsError::CertificatePathMissing => "TLS enabled but certificate path is not configured",
            TlsError::PrivateKeyPathMissing => "TLS enabled but private key path is not configured",
            TlsError::CertificateFileMissing => "Certificate file does not exist",
            TlsError::PrivateKeyFileMissing => "Private key file does not exist",
            TlsError::Load(_) => "Failed to load TLS configuration",
        };
        r
    }
}

impl TlsConfig {
    pub fn new(enabled: bool, cert_path: String, key_path: String, require_tls: bool) -> (r: Self)
        ensures
            r.enabled == enabled,
            r.cert_path@ == cert_path@,
            r.key_path@ == key_path@,
            r.require_tls == require_tls,
    {
        TlsConfig { enabled, cert_path, key_path, require_tls }
    }

    pub open spec fn spec_is_configured(&self) -> bool {
        self.enabled && self.cert_path@.len() > 0 && self.key_path@.len() > 0
    }

    /// Enabled, with both a certificate path and a key path set.
    pub fn is_configured(&self) -> (r: bool)
        ensures
            r == self.spec_is_configured(),
    {
        self.enabled && self.cert_path.as_str().unicode_len() > 0
            && self.key_path.as_str().unicode_len() > 0
    }

    /// Builds the server configuration from the certificate file's bytes and the key
    /// file's bytes (`None` where the file could not be opened). Checked in order:
    /// enabled, certificate file opened, key file opened; then the certificates are
    /// decoded, then the key, then rustls combines them.
    pub fn load_server_config(&self, cert_file: Option<&[u8]>, key_file: Option<&[u8]>) -> (r:
        Result<Arc<ServerConfig>, TlsLoadError>)
        ensures
            !self.enabled ==> r matches Err(TlsLoadError::NotEnabled),
            self.enabled && cert_file is None ==> r matches Err(TlsLoadError::CertificateOpen),
            self.enabled && cert_file is Some && key_file is None ==> r matches Err(
                TlsLoadError::PrivateKeyOpen,
            ),
            r is Ok ==> self.enabled && cert_file is Some && key_file is Some,
            self.enabled ==> !(r matches Err(TlsLoadError::NotEnabled)),
            self.enabled ==> match (cert_file, key_file) {
                (Some(c), Some(k)) => spec_pem_outcome(c@, k@, r),
                _ => true,
            },
    {
        if !self.enabled {
            return Err(TlsLoadError::NotEnabled);
        }
        let cert_pem = match cert_file {
            Some(b) => b,
            None => {
                return Err(TlsLoadError::CertificateOpen);
            },
        };
        let key_pem = match key_file {
            Some(b) => b,
            None => {
                return Err(TlsLoadError::PrivateKeyOpen);
            },
        };
        let chain = match read_pem_certs(cert_pem) {
            Ok(c) => c,
            Err(_) => {
                return Err(TlsLoadError::CertificateRead);
            },
        };
        let key = match read_pem_private_key(key_pem) {
            Ok(Some(k)) => k,
            Ok(None) => {
                return Err(TlsLoadError::NoPrivateKey);
            },
            Err(_) => {
                return Err(TlsLoadError::PrivateKeyRead);
            },
        };
        match single_cert_server_config(chain, key) {
            Ok(cfg) => Ok(cfg),
            Err(_) => Err(TlsLoadError::ServerConfig),
        }
    }

    /// Checks the settings: nothing is required when TLS is off; otherwise both paths
    /// must be set, both files must exist (`cert_exists`, `key_exists`), and the
    /// configuration must build from the files' contents.
    pub fn validate(
        &self,
        cert_exists: bool,
        key_exists: bool,
        cert_file: Option<&[u8]>,
        key_file: Option<&[u8]>,
    ) -> (r: Result<(), TlsError>)
        ensures
            !self.enabled ==> r is Ok,
            self.enabled && self.cert_path@.len() == 0 ==> r == Err::<(), TlsError>(
                TlsError::CertificatePathMissing,
            ),
            self.enabled && self.cert_path@.len() > 0 && self.key_path@.len() == 0 ==> r == Err::<
                (),
                TlsError,
            >(TlsError::PrivateKeyPathMissing),
            self.spec_is_configured() && !cert_exists ==> r == Err::<(), TlsError>(
                TlsError::CertificateFileMissing,
            ),
            self.spec_is_configured() && cert_exists && !key_exists ==> r == Err::<(), TlsError>(
                TlsError::PrivateKeyFileMissing,
            ),
            self.spec_is_configured() && cert_exists && key_exists ==> (r is Ok || r matches Err(
                TlsError::Load(_),
            )),
            self.spec_is_configured() && cert_exists && key_exists && cert_file is None ==> r
                == Err::<(), TlsError>(TlsError::Load(TlsLoadError::CertificateOpen)),
            self.spec_is_configured() && cert_exists && key_exists && cert_file is Some && key_file is None
                ==> r == Err::<(), TlsError>(TlsError::Load(TlsLoadError::PrivateKeyOpen)),
            self.spec_is_configured() && cert_exists && key_exists ==> match (cert_file, key_file) {
                (Some(c), Some(k)) => spec_validate_pem(c@, k@, r),
                _ => true,
            },
    {
        if !self.enabled {
            return Ok(());
        }
        if self.cert_path.as_str().unicode_len() == 0 {
            return Err(TlsError::CertificatePathMissing);
        }
        if self.key_path.as_str().unicode_len() == 0 {
            return Err(TlsError::PrivateKeyPathMissing);
        }
        if !cert_exists {
            return Err(TlsError::CertificateFileMissing);
        }
        if !key_exists {
            return Err(TlsError::PrivateKeyFileMissing);
        }
        match self.load_server_config(cert_file, key_file) {
            Ok(_) => Ok(()),
            Err(e) => Err(TlsError::Load(e)),
        }
    }
}

/// After both files were read, the certificates are decoded first, then the key is
/// looked for; only when both succeed does rustls decide.
pub open spec fn spec_pem_outcome(cert: Seq<u8>, key: Seq<u8>, r: Result<Arc<ServerConfig>, TlsLoadError>) -> bool {
    if !pem_certs_read(cert) {
        r matches Err(TlsLoadError::CertificateRead)
    } else if !pem_key_read(key) {
        r matches Err(TlsLoadError::PrivateKeyRead)
    } else if !pem_key_found(key) {
        r matches Err(TlsLoadError::NoPrivateKey)
    } else {
        r is Ok || r matches Err(TlsLoadError::ServerConfig)
    }
}

/// [`spec_pem_outcome`] for the result of a settings check.
pub open spec fn spec_validate_pem(cert: Seq<u8>, key: Seq<u8>, r: Result<(), TlsError>) -> bool {
    if !pem_certs_read(cert) {
        r == Err::<(), TlsError>(TlsError::Load(TlsLoadError::CertificateRead))
    } else if !pem_key_read(key) {
        r == Err::<(), TlsError>(TlsError::Load(TlsLoadError::PrivateKeyRead))
    } else if !pem_key_found(key) {
        r == Err::<(), TlsError>(TlsError::Load(TlsLoadError::NoPrivateKey))
    } else {
        r is Ok || r == Err::<(), TlsError>(TlsError::Load(TlsLoadError::ServerConfig))
    }
}

/// A TLS configuration for the given certificate and key (enabled, TLS not required),
/// built as [`TlsConfig::load_server_config`] does.
pub fn load_tls_config(cert_path: &str, key_path: &str, cert_file: Option<&[u8]>, key_file: Option<
    &[u8],
>) -> (r: Result<Arc<ServerConfig>, TlsLoadError>)
    ensures
        cert_file is None ==> r matches Err(TlsLoadError::CertificateOpen),
        cert_file is Some && key_file is None ==> r matches Err(TlsLoadError::PrivateKeyOpen),
        r is Ok ==> cert_file is Some && key_file is Some,
        !(r matches Err(TlsLoadError::NotEnabled)),
        match (cert_file, key_file) {
            (Some(c), Some(k)) => spec_pem_outcome(c@, k@, r),
            _ => true,
        },
{
    let config = TlsConfig::new(true, cert_path.to_owned(), key_path.to_owned(), false);
    config.load_server_config(cert_file, key_file)
}

/// The TLS settings an FTP server starts with: when the security settings require
/// SSL and name both a certificate and a key, TLS is enabled and required with them;
/// otherwise there are none.
pub fn server_tls_settings(require_ssl: bool, cert_path: Option<&str>, key_path: Option<&str>) -> (r: Option<TlsConfig>)
    ensures
        match r {
            Some(c) => {
                &&& require_ssl
                &&& c.enabled
                &&& c.require_tls
                &&& cert_path matches Some(cp) && c.cert_path@ == cp@
                &&& key_path matches Some(kp) && c.key_path@ == kp@
            },
            None => !(require_ssl && cert_path is Some && key_path is Some),
        },
{
    if !require_ssl {
        return None;
    }
    match (cert_path, key_path) {
        (Some(c), Some(k)) => Some(TlsConfig::new(true, c.to_owned(), k.to_owned(), true)),
        _ => None,
    }
}

} // verus!
