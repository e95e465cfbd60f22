//! How a connection is secured, as it follows from the TLS configuration of a service.

use crate::config::{KeyFormat, PrivateKey, TlsConfig};
use vstd::prelude::*;

verus! {

/// The signature schemes that are accepted where the certificate of a server is not
/// verified.
#[derive(Debug, Clone, Copy, PartialEq, Eq, Structural)]
pub enum SignatureScheme {
    RsaPkcs1Sha1,
    EcdsaSha1Legacy,
    RsaPkcs1Sha256,
    EcdsaNistp256Sha256,
    RsaPkcs1Sha384,
    EcdsaNistp384Sha384,
    RsaPkcs1Sha512,
    EcdsaNistp521Sha512,
    RsaPssSha256,
    RsaPssSha384,
    RsaPssSha512,
    Ed25519,
    Ed448,
}

/// The number of a signature scheme in the TLS protocol.
pub open spec fn scheme_number(scheme: SignatureScheme) -> u16 {
    match scheme {
        SignatureScheme::RsaPkcs1Sha1 => 0x0201,
        SignatureScheme::EcdsaSha1Legacy => 0x0203,
        SignatureScheme::RsaPkcs1Sha256 => 0x0401,
        SignatureScheme::EcdsaNistp256Sha256 => 0x0403,
        SignatureScheme::RsaPkcs1Sha384 => 0x0501,
        SignatureScheme::EcdsaNistp384Sha384 => 0x0503,
        SignatureScheme::RsaPkcs1Sha512 => 0x0601,
        SignatureScheme::EcdsaNistp521Sha512 => 0x0603,
        SignatureScheme::RsaPssSha256 => 0x0804,
        SignatureScheme::RsaPssSha384 => 0x0805,
        SignatureScheme::RsaPssSha512 => 0x0806,
        SignatureScheme::Ed25519 => 0x0807,
        SignatureScheme::Ed448 => 0x0808,
    }
}

impl SignatureScheme {
    /// The number of the scheme in the TLS protocol.
    pub fn number(&self) -> (number: u16)
        ensures
            number == scheme_number(*self),
    {
        match self {
            SignatureScheme::RsaPkcs1Sha1 => 0x0201,
            SignatureScheme::EcdsaSha1Legacy => 0x0203,
            SignatureScheme::RsaPkcs1Sha256 => 0x0401,
            SignatureScheme::EcdsaNistp256Sha256 => 0x0403,
            SignatureScheme::RsaPkcs1Sha384 => 0x0501,
            SignatureScheme::EcdsaNistp384Sha384 => 0x0503,
            SignatureScheme::RsaPkcs1Sha512 => 0x0601,
            SignatureScheme::EcdsaNistp521Sha512 => 0x0603,
            SignatureScheme::RsaPssSha256 => 0x0804,
            SignatureScheme::RsaPssSha384 => 0x0805,
            SignatureScheme::RsaPssSha512 => 0x0806,
            SignatureScheme::Ed25519 => 0x0807,
            SignatureScheme::Ed448 => 0x0808,
        }
    }
}

/// All signature schemes, in the order in which they are offered.
pub open spec fn all_schemes() -> Seq<SignatureScheme> {
    seq![
        SignatureScheme::RsaPkcs1Sha1,
        SignatureScheme::EcdsaSha1Legacy,
        SignatureScheme::RsaPkcs1Sha256,
        SignatureScheme::EcdsaNistp256Sha256,
        SignatureScheme::RsaPkcs1Sha384,
        SignatureScheme::EcdsaNistp384Sha384,
        SignatureScheme::RsaPkcs1Sha512,
        SignatureScheme::EcdsaNistp521Sha512,
        SignatureScheme::RsaPssSha256,
        SignatureScheme::RsaPssSha384,
        SignatureScheme::RsaPssSha512,
        SignatureScheme::Ed25519,
        SignatureScheme::Ed448,
    ]
}

/// The signature schemes that are accepted where the certificate of a server is not
/// verified, in the order in which they are offered.
pub fn supported_verify_schemes() -> (schemes: Vec<SignatureScheme>)
    ensures
        schemes@ == all_schemes(),
{
    let mut schemes: Vec<SignatureScheme> = Vec::new();
    schemes.push(SignatureScheme::RsaPkcs1Sha1);
    schemes.push(SignatureScheme::EcdsaSha1Legacy);
    schemes.push(SignatureScheme::RsaPkcs1Sha256);
    schemes.push(SignatureScheme::EcdsaNistp256Sha256);
    schemes.push(SignatureScheme::RsaPkcs1Sha384);
    schemes.push(SignatureScheme::EcdsaNistp384Sha384);
    schemes.push(SignatureScheme::RsaPkcs1Sha512);
    schemes.push(SignatureScheme::EcdsaNistp521Sha512);
    schemes.push(SignatureScheme::RsaPssSha256);
    schemes.push(SignatureScheme::RsaPssSha384);
    schemes.push(SignatureScheme::RsaPssSha512);
    schemes.push(SignatureScheme::Ed25519);
    schemes.push(SignatureScheme::Ed448);
    assert(schemes@ =~= all_schemes());
    schemes
}

/// The authorities that a client trusts.
#[derive(Debug)]
pub enum Roots {
    /// The authorities that the system trusts.
    Native,
    /// The given authorities only.
    Custom(Vec<Vec<u8>>),
}

/// How a client presents itself.
#[derive(Debug)]
pub struct ClientAuth {
    pub cert: Vec<Vec<u8>>,
    pub key: PrivateKey,
}

/// The settings of a secured connection.
#[derive(Debug)]
pub struct ClientConfig {
    pub roots: Roots,
    pub client_auth: Option<ClientAuth>,
    /// Whether the certificate of the server is verified.
    pub verify: bool,
}

/// What the settings of a secured connection hold. No authorities stands for the ones
/// that the system trusts.
pub struct ClientConfigView {
    pub roots: Option<Seq<Seq<u8>>>,
    pub client_auth: Option<(Seq<Seq<u8>>, (KeyFormat, Seq<u8>))>,
    pub verify: bool,
}

impl View for ClientConfig {
    type V = ClientConfigView;

    open spec fn view(&self) -> ClientConfigView {
        ClientConfigView {
            roots: match self.roots {
                Roots::Native => None,
                Roots::Custom(certs) => Some(crate::config::certs_view(certs@)),
            },
            client_auth: match self.client_auth {
                Some(auth) => Some(
                    (
                        crate::config::certs_view(auth.cert@),
                        (auth.key.format, auth.key.der@),
                    ),
                ),
                None => None,
            },
            verify: self.verify,
        }
    }
}

/// The settings that follow from a TLS configuration: its own authorities if it names
/// any, a client certificate if there is one with a key, and a verification of the server
/// unless it is switched off.
pub open spec fn client_config_of(tls: crate::config::TlsConfigView) -> ClientConfigView {
    ClientConfigView {
        roots: match tls.ca_cert {
            Some(certs) if certs.len() > 0 => Some(certs),
            _ => None,
        },
        client_auth: match tls.key {
            Some(key) if tls.cert.len() > 0 => Some((tls.cert, key)),
            _ => None,
        },
        verify: !tls.insecure,
    }
}

/// The settings of a connection to a service without a TLS configuration.
pub open spec fn insecure_client_config() -> ClientConfigView {
    ClientConfigView { roots: None, client_auth: None, verify: false }
}

/// The settings of a connection to a service without a TLS configuration.
pub fn build_insecure_client_config() -> (config: ClientConfig)
    ensures
        config@ == insecure_client_config(),
{
    ClientConfig { roots: Roots::Native, client_auth: None, verify: false }
}

/// The settings that follow from a TLS configuration.
pub fn build_client_config(tls_config: &TlsConfig) -> (config: ClientConfig)
    ensures
        config@ == client_config_of(tls_config@),
{
    let tls: TlsConfig = tls_config.clone();
    assert(tls@.cert.len() == tls.cert@.len());
    let roots: Roots = match tls.ca_cert {
        Some(certs) => {
            assert(tls_config@.ca_cert == Some(crate::config::certs_view(certs@)));
            assert(crate::config::certs_view(certs@).len() == certs@.len());
            if certs.len() > 0 {
                Roots::Custom(certs)
            } else {
                Roots::Native
            }
        },
        None => Roots::Native,
    };
    let client_auth: Option<ClientAuth> = match tls.key {
        Some(key) => if tls.cert.len() > 0 {
            Some(ClientAuth { cert: tls.cert, key })
        } else {
            None
        },
        None => None,
    };
    ClientConfig { roots, client_auth, verify: !tls.insecure }
}

/// The settings of the connection to a service.
pub open spec fn connection_config_of(
    tls: Option<crate::config::TlsConfigView>,
) -> ClientConfigView {
    match tls {
        Some(tls) => client_config_of(tls),
        None => insecure_client_config(),
    }
}

/// The settings of the connection to a service.
pub fn connection_config(tls: &Option<TlsConfig>) -> (config: ClientConfig)
    ensures
        config@ == connection_config_of(crate::config::opt_tls(*tls)),
{
    match tls {
        Some(tls) => build_client_config(tls),
        None => build_insecure_client_config(),
    }
}

/// The client certificate of a gRPC connection, if the connection is secured: it is, if
/// there is a key and the verification of the server is not switched off.
pub open spec fn grpc_identity_of(tls: Option<crate::config::TlsConfigView>) -> Option<
    (Seq<Seq<u8>>, (KeyFormat, Seq<u8>)),
> {
    match tls {
        Some(tls) => if tls.insecure {
            None
        } else {
            match tls.key {
                Some(key) => Some((tls.cert, key)),
                None => None,
            }
        },
        None => None,
    }
}

/// The view of an optional client certificate.
pub open spec fn opt_auth(auth: Option<ClientAuth>) -> Option<
    (Seq<Seq<u8>>, (KeyFormat, Seq<u8>)),
> {
    match auth {
        Some(auth) => Some(
            (crate::config::certs_view(auth.cert@), (auth.key.format, auth.key.der@)),
        ),
        None => None,
    }
}

/// The client certificate of a gRPC connection, if the connection is secured.
pub fn grpc_identity(tls: &Option<TlsConfig>) -> (identity: Option<ClientAuth>)
    ensures
        opt_auth(identity) == grpc_identity_of(crate::config::opt_tls(*tls)),
{
    match tls {
        Some(tls) => {
            let tls: TlsConfig = tls.clone();
            if tls.insecure {
                None
            } else {
                match tls.key {
                    Some(key) => Some(ClientAuth { cert: tls.cert, key }),
                    None => None,
                }
            }
        },
        None => None,
    }
}

/// The server is verified exactly where there is a TLS configuration that does not
/// switch it off.
pub proof fn server_is_verified_iff_secure(tls: Option<crate::config::TlsConfigView>)
    ensures
        connection_config_of(tls).verify <==> (tls matches Some(t) && !t.insecure),
{
}

/// An empty list of authorities means the same as none at all.
pub proof fn empty_authorities_mean_native_roots(tls: crate::config::TlsConfigView)
    requires
        tls.ca_cert matches Some(certs) ==> certs.len() == 0,
    ensures
        client_config_of(tls) == client_config_of(
            (crate::config::TlsConfigView { ca_cert: None, ..tls }),
        ),
{
}

/// A certificate is presented only together with its key.
pub proof fn no_client_auth_without_key(tls: crate::config::TlsConfigView)
    requires
        tls.key is None,
    ensures
        client_config_of(tls).client_auth is None,
        grpc_identity_of(Some(tls)) is None,
{
}

/// No signature scheme is offered twice, and none is left out.
pub proof fn schemes_are_complete(scheme: SignatureScheme)
    ensures
        all_schemes().contains(scheme),
        all_schemes().no_duplicates(),
{
    let all = all_schemes();
    assert(all[0] == SignatureScheme::RsaPkcs1Sha1);
    assert(all[1] == SignatureScheme::EcdsaSha1Legacy);
    assert(all[2] == SignatureScheme::RsaPkcs1Sha256);
    assert(all[3] == SignatureScheme::EcdsaNistp256Sha256);
    assert(all[4] == SignatureScheme::RsaPkcs1Sha384);
    assert(all[5] == SignatureScheme::EcdsaNistp384Sha384);
    assert(all[6] == SignatureScheme::RsaPkcs1Sha512);
    assert(all[7] == SignatureScheme::EcdsaNistp521Sha512);
    assert(all[8] == SignatureScheme::RsaPssSha256);
    assert(all[9] == SignatureScheme::RsaPssSha384);
    assert(all[10] == SignatureScheme::RsaPssSha512);
    assert(all[11] == SignatureScheme::Ed25519);
    assert(all[12] == SignatureScheme::Ed448);
}

/// A connection trusts exactly the authorities that its configuration names, or those of the
/// system where it names none; it presents exactly the certificate and key that are given
/// together; and what is given for one has no influence on the other.
pub proof fn settings_follow_their_own_parts(tls: crate::config::TlsConfigView)
    ensures
        ({
            let settings = client_config_of(tls);
            &&& settings.roots is Some <==> (tls.ca_cert is Some && tls.ca_cert->0.len() > 0)
            &&& settings.roots matches Some(certs) ==> tls.ca_cert == Some(certs)
            &&& settings.client_auth is Some <==> tls.key is Some && tls.cert.len() > 0
            &&& settings.client_auth matches Some(auth) ==> auth.0 == tls.cert && tls.key == Some(
                auth.1,
            )
            &&& settings.verify <==> !tls.insecure
        }),
        connection_config_of(Some(tls)) == client_config_of(tls),
{
}

/// Without a TLS configuration nothing is verified, nothing is presented, and no authorities
/// are named.
pub proof fn no_tls_means_no_verification()
    ensures
        !connection_config_of(None).verify,
        connection_config_of(None).roots is None,
        connection_config_of(None).client_auth is None,
        connection_config_of(None) == insecure_client_config(),
{
}

/// A gRPC connection presents a certificate exactly where there is a key and the server is
/// verified; it is then the certificate of that key, whatever authorities are named.
pub proof fn grpc_identity_needs_key_and_verification(
    tls: crate::config::TlsConfigView,
    ca_cert: Option<Seq<Seq<u8>>>,
)
    ensures
        grpc_identity_of(None) is None,
        grpc_identity_of(Some(tls)) is Some <==> tls.key is Some && !tls.insecure,
        grpc_identity_of(Some(tls)) matches Some(identity) ==> identity.0 == tls.cert && tls.key
            == Some(identity.1),
        grpc_identity_of(Some(tls)) == grpc_identity_of(
            Some(crate::config::TlsConfigView { ca_cert, ..tls }),
        ),
{
}

/// What is seen of settings is what they hold.
pub proof fn settings_show_what_they_hold(config: ClientConfig, auth: ClientAuth)
    ensures
        match config.roots {
            Roots::Native => config@.roots is None,
            Roots::Custom(certs) => config@.roots == Some(crate::config::certs_view(certs@)),
        },
        config.client_auth is None <==> config@.client_auth is None,
        opt_auth(config.client_auth) == config@.client_auth,
        config@.verify == config.verify,
        opt_auth(None) is None,
        opt_auth(Some(auth)) == Some(
            (crate::config::certs_view(auth.cert@), (auth.key.format, auth.key.der@)),
        ),
{
}

/// Signature schemes are told apart by their numbers.
pub proof fn scheme_numbers_are_distinct(a: SignatureScheme, b: SignatureScheme)
    requires
        scheme_number(a) == scheme_number(b),
    ensures
        a == b,
{
}

} // verus!
