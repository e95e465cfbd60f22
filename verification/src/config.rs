//! Configuration of client services: where they are, how long to wait for them, and how
//! the connection is secured.

use crate::text::copy_bytes;
use crate::url::Url;
use vstd::prelude::*;

verus! {

#[verifier::external_type_specification]
#[verifier::external_body]
pub struct ExPathBuf(std::path::PathBuf);

/// `std::path::PathBuf::clone`: the same path again.
pub assume_specification[ <std::path::PathBuf as Clone>::clone ](path: &std::path::PathBuf) -> (copy:
    std::path::PathBuf)
    ensures
        copy == *path,
;

/// How long to wait for a connection, where nothing else is said.
pub const DEFAULT_CONNECT_TIMEOUT_SEC: u64 = 60;

/// How long to wait for a response, where nothing else is said.
pub const DEFAULT_REQUEST_TIMEOUT_SEC: u64 = 600;

/// Configuration for client service needed for orchestrator to communicate with it.
#[derive(Debug)]
pub struct ServiceConfig {
    /// Hostname for service
    pub hostname: String,
    /// Port for service
    pub port: u16,
    /// Timeout in seconds for request to be handled
    pub request_timeout: u64,
    /// Timeout in seconds for the connection to be made
    pub connection_timeout: u64,
    /// TLS provider info
    pub tls: Option<TlsConfig>,
}

/// The protocol of a service: `https` if it has TLS, `http` otherwise.
pub open spec fn protocol(secure: bool) -> Seq<char> {
    if secure {
        "https"@
    } else {
        "http"@
    }
}

/// The URL of a service.
pub open spec fn service_url(secure: bool, hostname: Seq<char>, port: u16) -> Option<Seq<char>> {
    match crate::url::parsed_url(protocol(secure) + "://"@ + hostname) {
        Some(url) => crate::url::url_with_port(url, port),
        None => None,
    }
}

impl ServiceConfig {
    /// The URL of the service.
    pub open spec fn url(self) -> Option<Seq<char>> {
        service_url(self.tls is Some, self.hostname@, self.port)
    }

    /// A configuration with the given parts; missing timeouts have their defaults.
    pub fn from_parts(
        hostname: String,
        port: u16,
        request_timeout: Option<u64>,
        connection_timeout: Option<u64>,
        tls: Option<TlsConfig>,
    ) -> (config: ServiceConfig)
        ensures
            config.hostname == hostname,
            config.port == port,
            config.request_timeout == (match request_timeout {
                Some(secs) => secs,
                None => DEFAULT_REQUEST_TIMEOUT_SEC,
            }),
            config.connection_timeout == (match connection_timeout {
                Some(secs) => secs,
                None => DEFAULT_CONNECT_TIMEOUT_SEC,
            }),
            config.tls == tls,
    {
        ServiceConfig {
            hostname,
            port,
            request_timeout: request_timeout.unwrap_or(DEFAULT_REQUEST_TIMEOUT_SEC),
            connection_timeout: connection_timeout.unwrap_or(DEFAULT_CONNECT_TIMEOUT_SEC),
            tls,
        }
    }

    /// The protocol and the hostname, before they are read as a URL.
    fn origin(&self) -> (text: String)
        ensures
            text@ == protocol(self.tls is Some) + "://"@ + self.hostname@,
    {
        let protocol: &str = match self.tls {
            Some(_) => "https",
            None => "http",
        };
        protocol.to_owned().concat("://").concat(self.hostname.as_str())
    }

    /// The URL of the service.
    pub fn base_url(&self) -> (url: Url)
        requires
            self.url() is Some,
        ensures
            Some(url@) == self.url(),
    {
        let parsed: Option<Url> = Url::parse(self.origin().as_str());
        let url: Url = parsed.unwrap();
        let with_port: Option<Url> = url.with_port(self.port);
        with_port.unwrap()
    }

    /// The URL of the service, if its hostname makes one.
    pub fn try_base_url(&self) -> (url: Option<Url>)
        ensures
            crate::url::opt_url(url) == self.url(),
    {
        match Url::parse(self.origin().as_str()) {
            Some(url) => match url.with_port(self.port) {
                Some(_) => Some(self.base_url()),
                None => None,
            },
            None => None,
        }
    }
}

impl Clone for ServiceConfig {
    fn clone(&self) -> (copy: ServiceConfig)
        ensures
            copy.hostname == self.hostname,
            copy.port == self.port,
            copy.request_timeout == self.request_timeout,
            copy.connection_timeout == self.connection_timeout,
            opt_tls(copy.tls) == opt_tls(self.tls),
    {
        ServiceConfig {
            hostname: self.hostname.clone(),
            port: self.port,
            request_timeout: self.request_timeout,
            connection_timeout: self.connection_timeout,
            tls: match &self.tls {
                Some(tls) => Some(tls.clone()),
                None => None,
            },
        }
    }
}

/// Puts a service configuration together.
#[derive(Debug)]
pub struct ServiceConfigBuilder {
    pub config: ServiceConfig,
}

impl ServiceConfigBuilder {
    /// A service at the given host and port, with default timeouts and without TLS.
    pub fn new(hostname: String, port: u16) -> (builder: ServiceConfigBuilder)
        ensures
            builder.config == (ServiceConfig {
                hostname,
                port,
                request_timeout: DEFAULT_REQUEST_TIMEOUT_SEC,
                connection_timeout: DEFAULT_CONNECT_TIMEOUT_SEC,
                tls: None,
            }),
    {
        ServiceConfigBuilder { config: ServiceConfig::from_parts(hostname, port, None, None, None) }
    }

    /// Sets the timeout for responses, in seconds.
    pub fn with_request_timeout(self, request_timeout: u64) -> (builder: ServiceConfigBuilder)
        ensures
            builder.config == (ServiceConfig { request_timeout, ..self.config }),
    {
        ServiceConfigBuilder {
            config: ServiceConfig {
                hostname: self.config.hostname,
                port: self.config.port,
                request_timeout,
                connection_timeout: self.config.connection_timeout,
                tls: self.config.tls,
            },
        }
    }

    /// Sets the timeout for connections, in seconds.
    pub fn with_connection_timeout(self, connection_timeout: u64) -> (builder: ServiceConfigBuilder)
        ensures
            builder.config == (ServiceConfig { connection_timeout, ..self.config }),
    {
        ServiceConfigBuilder {
            config: ServiceConfig {
                hostname: self.config.hostname,
                port: self.config.port,
                request_timeout: self.config.request_timeout,
                connection_timeout,
                tls: self.config.tls,
            },
        }
    }

    /// Secures the connection.
    pub fn with_tls(self, tls: TlsConfig) -> (builder: ServiceConfigBuilder)
        ensures
            builder.config == (ServiceConfig { tls: Some(tls), ..self.config }),
    {
        ServiceConfigBuilder {
            config: ServiceConfig {
                hostname: self.config.hostname,
                port: self.config.port,
                request_timeout: self.config.request_timeout,
                connection_timeout: self.config.connection_timeout,
                tls: Some(tls),
            },
        }
    }

    /// The configuration.
    pub fn build(self) -> (config: ServiceConfig)
        ensures
            config == self.config,
    {
        self.config
    }
}

/// Client TLS configuration, by the files that it is read from.
#[derive(Debug)]
pub struct TlsConfigBuilder {
    pub cert_path: std::path::PathBuf,
    pub key_path: Option<std::path::PathBuf>,
    pub ca_cert_path: Option<std::path::PathBuf>,
    pub insecure: Option<bool>,
}

fn copy_path(path: &Option<std::path::PathBuf>) -> (copy: Option<std::path::PathBuf>)
    ensures
        copy == *path,
{
    match path {
        Some(path) => Some(path.clone()),
        None => None,
    }
}

impl Clone for TlsConfigBuilder {
    fn clone(&self) -> (copy: TlsConfigBuilder)
        ensures
            copy == *self,
    {
        TlsConfigBuilder {
            cert_path: self.cert_path.clone(),
            key_path: copy_path(&self.key_path),
            ca_cert_path: copy_path(&self.ca_cert_path),
            insecure: self.insecure,
        }
    }
}

/// The encoding of a private key.
#[derive(Debug, Clone, Copy, PartialEq, Eq, Structural)]
pub enum KeyFormat {
    Pkcs1,
    Sec1,
    Pkcs8,
}

/// A private key.
#[derive(Debug)]
pub struct PrivateKey {
    pub format: KeyFormat,
    pub der: Vec<u8>,
}

/// Client TLS configuration.
#[derive(Debug)]
pub struct TlsConfig {
    pub cert: Vec<Vec<u8>>,
    pub key: Option<PrivateKey>,
    pub ca_cert: Option<Vec<Vec<u8>>>,
    pub insecure: bool,
}

/// What a TLS configuration holds.
pub struct TlsConfigView {
    pub cert: Seq<Seq<u8>>,
    pub key: Option<(KeyFormat, Seq<u8>)>,
    pub ca_cert: Option<Seq<Seq<u8>>>,
    pub insecure: bool,
}

/// The bytes of certificates.
pub open spec fn certs_view(certs: Seq<Vec<u8>>) -> Seq<Seq<u8>> {
    certs.map_values(|cert: Vec<u8>| cert@)
}

/// The view of optional certificates.
pub open spec fn opt_certs(certs: Option<Vec<Vec<u8>>>) -> Option<Seq<Seq<u8>>> {
    match certs {
        Some(certs) => Some(certs_view(certs@)),
        None => None,
    }
}

/// The view of an optional key.
pub open spec fn opt_key(key: Option<PrivateKey>) -> Option<(KeyFormat, Seq<u8>)> {
    match key {
        Some(key) => Some((key.format, key.der@)),
        None => None,
    }
}

/// The view of an optional TLS configuration.
pub open spec fn opt_tls(tls: Option<TlsConfig>) -> Option<TlsConfigView> {
    match tls {
        Some(tls) => Some(tls@),
        None => None,
    }
}

impl View for TlsConfig {
    type V = TlsConfigView;

    open spec fn view(&self) -> TlsConfigView {
        TlsConfigView {
            cert: certs_view(self.cert@),
            key: opt_key(self.key),
            ca_cert: opt_certs(self.ca_cert),
            insecure: self.insecure,
        }
    }
}

fn copy_certs(certs: &Vec<Vec<u8>>) -> (copy: Vec<Vec<u8>>)
    ensures
        certs_view(copy@) == certs_view(certs@),
{
    let mut copy: Vec<Vec<u8>> = Vec::new();
    let mut i: usize = 0;
    while i < certs.len()
        invariant
            i <= certs@.len(),
            copy@.len() == i,
            forall|k: int| 0 <= k < i ==> (#[trigger] copy@[k])@ == certs@[k]@,
        decreases certs@.len() - i,
    {
        copy.push(copy_bytes(&certs[i]));
        i += 1;
    }
    assert(certs_view(copy@) =~= certs_view(certs@));
    copy
}

impl Clone for TlsConfig {
    fn clone(&self) -> (copy: TlsConfig)
        ensures
            copy@ == self@,
    {
        TlsConfig {
            cert: copy_certs(&self.cert),
            key: match &self.key {
                Some(key) => Some(PrivateKey { format: key.format, der: copy_bytes(&key.der) }),
                None => None,
            },
            ca_cert: match &self.ca_cert {
                Some(certs) => Some(copy_certs(certs)),
                None => None,
            },
            insecure: self.insecure,
        }
    }
}

/// Why a configuration could not be made.
#[derive(Debug)]
pub enum ConfigError {
    /// A PEM file could not be understood.
    Pem(String),
}

/// What `rustls_pemfile::certs` finds in PEM text: the certificates, or the message of
/// the first error.
pub uninterp spec fn pem_certs(pem: Seq<u8>) -> Result<Seq<Seq<u8>>, Seq<char>>;

/// What `rustls_pemfile::private_key` finds in PEM text: the first private key, if there
/// is one, or the message of the error before it.
pub uninterp spec fn pem_key(pem: Seq<u8>) -> Result<Option<(KeyFormat, Seq<u8>)>, Seq<char>>;

/// The view of what was found.
pub open spec fn certs_found(found: Result<Vec<Vec<u8>>, String>) -> Result<
    Seq<Seq<u8>>,
    Seq<char>,
> {
    match found {
        Ok(certs) => Ok(certs_view(certs@)),
        Err(message) => Err(message@),
    }
}

/// The view of what was found.
pub open spec fn key_found(found: Result<Option<PrivateKey>, String>) -> Result<
    Option<(KeyFormat, Seq<u8>)>,
    Seq<char>,
> {
    match found {
        Ok(key) => Ok(opt_key(key)),
        Err(message) => Err(message@),
    }
}

/// Calls `rustls_pemfile::certs`. The result is a function of the bytes alone.
#[verifier::external_body]
fn read_certs(pem: &Vec<u8>) -> (found: Result<Vec<Vec<u8>>, String>)
    ensures
        certs_found(found) == pem_certs(pem@),
{
    rustls_pemfile::certs(&mut pem.as_slice())
        .map(|cert| cert.map(|cert| cert.as_ref().to_vec()))
        .collect::<Result<Vec<Vec<u8>>, std::io::Error>>()
        .map_err(|error| error.to_string())
}

/// Calls `rustls_pemfile::private_key`. The result is a function of the bytes alone.
#[verifier::external_body]
fn read_key(pem: &Vec<u8>) -> (found: Result<Option<PrivateKey>, String>)
    ensures
        key_found(found) == pem_key(pem@),
{
    let key = rustls_pemfile::private_key(&mut pem.as_slice()).map_err(|error| error.to_string())?;
    Ok(key.map(|key| {
        let format = match &key {
            rustls::pki_types::PrivateKeyDer::Pkcs1(_) => KeyFormat::Pkcs1,
            rustls::pki_types::PrivateKeyDer::Sec1(_) => KeyFormat::Sec1,
            _ => KeyFormat::Pkcs8,
        };
        PrivateKey { format, der: key.secret_der().to_vec() }
    }))
}

/// The configuration that follows from what was found in the files; the first error, if
/// there is one.
pub open spec fn tls_of(
    cert: Result<Seq<Seq<u8>>, Seq<char>>,
    key: Option<Result<Option<(KeyFormat, Seq<u8>)>, Seq<char>>>,
    ca_cert: Option<Result<Seq<Seq<u8>>, Seq<char>>>,
    insecure: Option<bool>,
) -> Result<TlsConfigView, Seq<char>> {
    match (cert, key, ca_cert) {
        (Err(message), _, _) => Err(message),
        (_, Some(Err(message)), _) => Err(message),
        (_, _, Some(Err(message))) => Err(message),
        (Ok(cert), _, _) => Ok(
            TlsConfigView {
                cert,
                key: match key {
                    Some(Ok(key)) => key,
                    _ => None,
                },
                ca_cert: match ca_cert {
                    Some(Ok(certs)) => Some(certs),
                    _ => None,
                },
                insecure: insecure == Some(true),
            },
        ),
    }
}

/// The view of an optional finding.
pub open spec fn opt_certs_found(found: Option<Result<Vec<Vec<u8>>, String>>) -> Option<
    Result<Seq<Seq<u8>>, Seq<char>>,
> {
    match found {
        Some(found) => Some(certs_found(found)),
        None => None,
    }
}

/// The view of an optional finding.
pub open spec fn opt_key_found(found: Option<Result<Option<PrivateKey>, String>>) -> Option<
    Result<Option<(KeyFormat, Seq<u8>)>, Seq<char>>,
> {
    match found {
        Some(found) => Some(key_found(found)),
        None => None,
    }
}

/// The view of a configuration or the message of its error.
pub open spec fn tls_result(result: Result<TlsConfig, ConfigError>) -> Result<
    TlsConfigView,
    Seq<char>,
> {
    match result {
        Ok(tls) => Ok(tls@),
        Err(ConfigError::Pem(message)) => Err(message@),
    }
}

/// The configuration that follows from what was found in the files.
pub fn assemble_tls(
    cert: Result<Vec<Vec<u8>>, String>,
    key: Option<Result<Option<PrivateKey>, String>>,
    ca_cert: Option<Result<Vec<Vec<u8>>, String>>,
    insecure: Option<bool>,
) -> (tls: Result<TlsConfig, ConfigError>)
    ensures
        tls_result(tls) == tls_of(
            certs_found(cert),
            opt_key_found(key),
            opt_certs_found(ca_cert),
            insecure,
        ),
{
    let cert: Vec<Vec<u8>> = match cert {
        Ok(certs) => certs,
        Err(message) => return Err(ConfigError::Pem(message)),
    };
    let key: Option<PrivateKey> = match key {
        Some(Ok(key)) => key,
        Some(Err(message)) => return Err(ConfigError::Pem(message)),
        None => None,
    };
    let ca_cert: Option<Vec<Vec<u8>>> = match ca_cert {
        Some(Ok(certs)) => Some(certs),
        Some(Err(message)) => return Err(ConfigError::Pem(message)),
        None => None,
    };
    Ok(TlsConfig { cert, key, ca_cert, insecure: insecure.unwrap_or(false) })
}

impl TlsConfigBuilder {
    /// A configuration that is read from the given files.
    pub fn from_parts(
        cert_path: std::path::PathBuf,
        key_path: Option<std::path::PathBuf>,
        ca_cert_path: Option<std::path::PathBuf>,
        insecure: Option<bool>,
    ) -> (builder: TlsConfigBuilder)
        ensures
            builder == (TlsConfigBuilder { cert_path, key_path, ca_cert_path, insecure }),
    {
        TlsConfigBuilder { cert_path, key_path, ca_cert_path, insecure }
    }

    /// The configuration that follows from the contents of the files.
    pub fn build(
        self,
        cert_pem: Vec<u8>,
        key_pem: Option<Vec<u8>>,
        ca_cert_pem: Option<Vec<u8>>,
    ) -> (tls: Result<TlsConfig, ConfigError>)
        requires
            key_pem is Some <==> self.key_path is Some,
            ca_cert_pem is Some <==> self.ca_cert_path is Some,
        ensures
            tls_result(tls) == tls_of(
                pem_certs(cert_pem@),
                match key_pem {
                    Some(pem) => Some(pem_key(pem@)),
                    None => None,
                },
                match ca_cert_pem {
                    Some(pem) => Some(pem_certs(pem@)),
                    None => None,
                },
                self.insecure,
            ),
    {
        let cert: Result<Vec<Vec<u8>>, String> = read_certs(&cert_pem);
        let key: Option<Result<Option<PrivateKey>, String>> = match key_pem {
            Some(pem) => Some(read_key(&pem)),
            None => None,
        };
        let ca_cert: Option<Result<Vec<Vec<u8>>, String>> = match ca_cert_pem {
            Some(pem) => Some(read_certs(&pem)),
            None => None,
        };
        assemble_tls(cert, key, ca_cert, self.insecure)
    }
}

/// The order in which the timeouts and TLS are set does not matter.
pub proof fn builder_settings_are_independent(
    config: ServiceConfig,
    secs: u64,
    wait: u64,
    tls: TlsConfig,
)
    ensures
        (ServiceConfig {
            connection_timeout: wait,
            ..(ServiceConfig { request_timeout: secs, ..config })
        }) == (ServiceConfig {
            request_timeout: secs,
            ..(ServiceConfig { connection_timeout: wait, ..config })
        }),
        (ServiceConfig { tls: Some(tls), ..(ServiceConfig { request_timeout: secs, ..config }) })
            == (ServiceConfig {
            request_timeout: secs,
            ..(ServiceConfig { tls: Some(tls), ..config })
        }),
        (ServiceConfig { tls: Some(tls), ..(ServiceConfig { connection_timeout: wait, ..config }) })
            == (ServiceConfig {
            connection_timeout: wait,
            ..(ServiceConfig { tls: Some(tls), ..config })
        }),
{
}

/// A service without TLS is reached over `http`, one with TLS over `https`, whatever the
/// certificates are.
pub proof fn tls_alone_decides_the_protocol(a: ServiceConfig, b: ServiceConfig)
    requires
        a.hostname@ == b.hostname@,
        a.port == b.port,
        a.tls is Some <==> b.tls is Some,
    ensures
        a.url() == b.url(),
{
}

/// Certificates are verified unless the configuration says otherwise.
pub proof fn tls_is_secure_by_default(
    cert: Result<Seq<Seq<u8>>, Seq<char>>,
    key: Option<Result<Option<(KeyFormat, Seq<u8>)>, Seq<char>>>,
    ca_cert: Option<Result<Seq<Seq<u8>>, Seq<char>>>,
)
    ensures
        tls_of(cert, key, ca_cert, None) matches Ok(tls) ==> !tls.insecure,
        tls_of(cert, key, ca_cert, None) == tls_of(cert, key, ca_cert, Some(false)),
{
}

/// What was found in the files makes a configuration exactly where no file is broken, and it
/// then holds what was found, each in its place.
pub proof fn tls_holds_what_was_found(
    cert: Result<Seq<Seq<u8>>, Seq<char>>,
    key: Option<Result<Option<(KeyFormat, Seq<u8>)>, Seq<char>>>,
    ca_cert: Option<Result<Seq<Seq<u8>>, Seq<char>>>,
    insecure: Option<bool>,
)
    ensures
        tls_of(cert, key, ca_cert, insecure) is Ok <==> cert is Ok && !(key matches Some(Err(_)))
            && !(ca_cert matches Some(Err(_))),
        tls_of(cert, key, ca_cert, insecure) matches Ok(tls) ==> {
            &&& cert == Ok::<Seq<Seq<u8>>, Seq<char>>(tls.cert)
            &&& key is None ==> tls.key is None
            &&& key matches Some(Ok(found)) ==> tls.key == found
            &&& ca_cert is None ==> tls.ca_cert is None
            &&& ca_cert matches Some(Ok(found)) ==> tls.ca_cert == Some(found)
            &&& tls.insecure <==> insecure == Some(true)
        },
{
}

/// Of several broken files the first is told: the certificate before the key, and the key
/// before the authorities.
pub proof fn the_first_broken_file_is_told(
    cert: Result<Seq<Seq<u8>>, Seq<char>>,
    key: Option<Result<Option<(KeyFormat, Seq<u8>)>, Seq<char>>>,
    ca_cert: Option<Result<Seq<Seq<u8>>, Seq<char>>>,
    insecure: Option<bool>,
)
    ensures
        cert matches Err(message) ==> tls_of(cert, key, ca_cert, insecure) == Err::<
            TlsConfigView,
            Seq<char>,
        >(message),
        key matches Some(Err(message)) ==> cert is Ok ==> tls_of(cert, key, ca_cert, insecure)
            == Err::<TlsConfigView, Seq<char>>(message),
        ca_cert matches Some(Err(message)) ==> cert is Ok && !(key matches Some(Err(_))) ==> tls_of(
            cert,
            key,
            ca_cert,
            insecure,
        ) == Err::<TlsConfigView, Seq<char>>(message),
{
}

/// The URL of a service is that of its hostname under its protocol, with its port: there is
/// one exactly where that text is a URL that can have a port.
pub proof fn services_are_found_by_protocol_host_and_port(config: ServiceConfig)
    ensures
        config.tls is Some ==> config.url() == (match crate::url::parsed_url(
            "https"@ + "://"@ + config.hostname@,
        ) {
            Some(url) => crate::url::url_with_port(url, config.port),
            None => None,
        }),
        config.tls is None ==> config.url() == (match crate::url::parsed_url(
            "http"@ + "://"@ + config.hostname@,
        ) {
            Some(url) => crate::url::url_with_port(url, config.port),
            None => None,
        }),
{
}

/// What is seen of a TLS configuration, and of what was found in files, is what they hold.
pub proof fn tls_shows_what_it_holds(
    tls: TlsConfig,
    key: PrivateKey,
    certs: Vec<Vec<u8>>,
    message: String,
    i: int,
)
    ensures
        tls@.cert == certs_view(tls.cert@),
        tls@.key == opt_key(tls.key),
        tls@.ca_cert == opt_certs(tls.ca_cert),
        tls@.insecure == tls.insecure,
        opt_tls(Some(tls)) == Some(tls@),
        opt_tls(None) is None,
        opt_key(Some(key)) == Some((key.format, key.der@)),
        opt_key(None) is None,
        opt_certs(Some(certs)) == Some(certs_view(certs@)),
        opt_certs(None) is None,
        certs_view(certs@).len() == certs@.len(),
        0 <= i < certs@.len() ==> certs_view(certs@)[i] == certs@[i]@,
        certs_found(Ok(certs)) == Ok::<Seq<Seq<u8>>, Seq<char>>(certs_view(certs@)),
        certs_found(Err(message)) == Err::<Seq<Seq<u8>>, Seq<char>>(message@),
        key_found(Ok(Some(key))) == Ok::<Option<(KeyFormat, Seq<u8>)>, Seq<char>>(
            Some((key.format, key.der@)),
        ),
        key_found(Ok(None)) == Ok::<Option<(KeyFormat, Seq<u8>)>, Seq<char>>(None),
        key_found(Err(message)) == Err::<Option<(KeyFormat, Seq<u8>)>, Seq<char>>(message@),
        opt_certs_found(None) is None,
        opt_certs_found(Some(Ok(certs))) == Some(certs_found(Ok(certs))),
        opt_certs_found(Some(Err(message))) == Some(certs_found(Err(message))),
        opt_key_found(None) is None,
        opt_key_found(Some(Ok(Some(key)))) == Some(key_found(Ok(Some(key)))),
        opt_key_found(Some(Ok(None))) == Some(key_found(Ok(None))),
        opt_key_found(Some(Err(message))) == Some(key_found(Err(message))),
        tls_result(Ok(tls)) == Ok::<TlsConfigView, Seq<char>>(tls@),
        tls_result(Err(ConfigError::Pem(message))) == Err::<TlsConfigView, Seq<char>>(message@),
{
}

} // verus!
