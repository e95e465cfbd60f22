//! Putting clients together: which service they talk to, and which one tells their health.

use crate::config::ServiceConfig;
use crate::tls::{connection_config, grpc_identity, ClientAuth, ClientConfig};
use crate::url::Url;
use std::marker::PhantomData;
use vstd::prelude::*;

verus! {

/// Keeps the kinds of clients to those of this library.
#[derive(Debug)]
pub struct Seal {}

/// The protocol of a client.
#[derive(Debug, Clone, Copy, PartialEq, Eq, Structural)]
pub enum ClientKind {
    Http,
    Grpc,
}

/// A protocol, as a type.
pub trait Kind {
    /// The protocol.
    spec fn kind() -> ClientKind;

    /// The protocol.
    fn type_id(seal: Seal) -> (kind: ClientKind)
        ensures
            kind == Self::kind(),
    ;
}

/// The HTTP protocol.
#[derive(Debug)]
pub struct Http {}

impl Kind for Http {
    open spec fn kind() -> ClientKind {
        ClientKind::Http
    }

    fn type_id(seal: Seal) -> (kind: ClientKind) {
        ClientKind::Http
    }
}

/// The gRPC protocol.
#[derive(Debug)]
pub struct Grpc {}

impl Kind for Grpc {
    open spec fn kind() -> ClientKind {
        ClientKind::Grpc
    }

    fn type_id(seal: Seal) -> (kind: ClientKind) {
        ClientKind::Grpc
    }
}

/// The HTTP service is set.
#[derive(Debug)]
pub struct WithHttpService {}

/// The gRPC service is set.
#[derive(Debug)]
pub struct WithGrpcService<G> {
    pub service: PhantomData<G>,
}

/// The health service is set.
#[derive(Debug)]
pub struct WithHealthService<K> {
    pub kind: PhantomData<K>,
}

/// The HTTP service is still to be set.
#[derive(Debug)]
pub struct MissingHttpService {}

/// The gRPC service is still to be set.
#[derive(Debug)]
pub struct MissingGrpcService {}

/// The health service is still to be set.
#[derive(Debug)]
pub struct MissingHealthService {}

/// A client in the making, with the protocol `R`, services of type `T`, and health
/// services of type `U`. What is set already shows in `S` and `H`.
#[derive(Debug)]
pub struct ClientBuilder<R, T, U, S, H> {
    pub request_type: PhantomData<R>,
    pub service_state: PhantomData<S>,
    pub health_service_state: PhantomData<H>,
    pub service: Option<T>,
    pub health_service: Option<U>,
}

/// A builder with the given services.
fn builder<R, T, U, S, H>(service: Option<T>, health_service: Option<U>) -> (made: ClientBuilder<
    R,
    T,
    U,
    S,
    H,
>)
    ensures
        made.service == service,
        made.health_service == health_service,
{
    ClientBuilder {
        request_type: PhantomData,
        service_state: PhantomData,
        health_service_state: PhantomData,
        service,
        health_service,
    }
}

impl<T, U> ClientBuilder<Http, T, U, MissingHttpService, MissingHealthService> {
    /// An HTTP client with nothing set.
    pub fn http() -> (made: ClientBuilder<Http, T, U, MissingHttpService, MissingHealthService>)
        ensures
            made.service is None,
            made.health_service is None,
    {
        builder(None, None)
    }
}

impl<T, U, H> ClientBuilder<Http, T, U, MissingHttpService, H> {
    /// Sets the service. The health service has to be set before.
    pub fn service(self, service: T) -> (made: ClientBuilder<Http, T, U, WithHttpService, H>)
        requires
            self.health_service is Some,
        ensures
            made.service == Some(service),
            made.health_service == self.health_service,
    {
        builder(Some(service), self.health_service)
    }
}

impl<T, U, S> ClientBuilder<Http, T, U, S, MissingHealthService> {
    /// Sets the health service, which has to be an HTTP service.
    pub fn health_service<K: Kind>(self, health_service: U) -> (made: ClientBuilder<
        Http,
        T,
        U,
        S,
        WithHealthService<Http>,
    >)
        requires
            K::kind() == ClientKind::Http,
        ensures
            made.service == self.service,
            made.health_service == Some(health_service),
    {
        builder(self.service, Some(health_service))
    }
}

impl<T, U> ClientBuilder<Grpc, T, U, MissingGrpcService, MissingHealthService> {
    /// A gRPC client with nothing set.
    pub fn grpc() -> (made: ClientBuilder<Grpc, T, U, MissingGrpcService, MissingHealthService>)
        ensures
            made.service is None,
            made.health_service is None,
    {
        builder(None, None)
    }
}

impl<T, U, H> ClientBuilder<Grpc, T, U, MissingGrpcService, H> {
    /// Sets the service. A health service that was set before is dropped.
    pub fn service(self, service: T) -> (made: ClientBuilder<Grpc, T, U, WithGrpcService<T>, H>)
        ensures
            made.service == Some(service),
            made.health_service is None,
    {
        builder(Some(service), None)
    }
}

impl<T, U, S> ClientBuilder<Grpc, T, U, S, MissingHealthService> {
    /// Sets the service that tells the health, which has to be a gRPC service. It takes
    /// the place of the service itself.
    pub fn health_service<K: Kind>(self, service: T) -> (made: ClientBuilder<
        Grpc,
        T,
        U,
        S,
        WithHealthService<Grpc>,
    >)
        requires
            K::kind() == ClientKind::Grpc,
        ensures
            made.service == Some(service),
            made.health_service == self.health_service,
    {
        builder(Some(service), self.health_service)
    }
}

/// `true` if a health service of the given kind fits a client of the given protocol.
pub fn fits<K: Kind>(expected: ClientKind) -> (fit: bool)
    ensures
        fit == (K::kind() == expected),
{
    match (K::type_id(Seal {}), expected) {
        (ClientKind::Http, ClientKind::Http) => true,
        (ClientKind::Grpc, ClientKind::Grpc) => true,
        _ => false,
    }
}

/// How to connect to an HTTP service, or to a service that tells the health of another.
#[derive(Debug)]
pub struct HttpConnection {
    pub base_url: Url,
    /// How long a connection may be silent, in seconds.
    pub keep_alive_timeout: u64,
    /// How long an unused connection is kept, in seconds.
    pub idle_timeout: u64,
    pub tls: ClientConfig,
}

/// How to connect to the given service.
pub fn http_connection(config: &ServiceConfig) -> (connection: HttpConnection)
    requires
        config.url() is Some,
    ensures
        Some(connection.base_url@) == config.url(),
        connection.keep_alive_timeout == config.connection_timeout,
        connection.idle_timeout == config.request_timeout,
        connection.tls@ == crate::tls::connection_config_of(crate::config::opt_tls(config.tls)),
{
    HttpConnection {
        base_url: config.base_url(),
        keep_alive_timeout: config.connection_timeout,
        idle_timeout: config.request_timeout,
        tls: connection_config(&config.tls),
    }
}

/// How to connect to the given service, if its hostname makes a URL.
pub fn try_http_connection(config: &ServiceConfig) -> (connection: Option<HttpConnection>)
    ensures
        connection is Some <==> config.url() is Some,
        connection matches Some(c) ==> Some(c.base_url@) == config.url() && c.keep_alive_timeout
            == config.connection_timeout && c.idle_timeout == config.request_timeout && c.tls@
            == crate::tls::connection_config_of(crate::config::opt_tls(config.tls)),
{
    match config.try_base_url() {
        Some(_) => Some(http_connection(config)),
        None => None,
    }
}

/// How to connect to a gRPC service.
#[derive(Debug)]
pub struct GrpcConnection {
    pub hostname: String,
    pub port: u16,
    /// How long to wait for the connection, in seconds.
    pub connect_timeout: u64,
    /// How long to wait for a response, in seconds.
    pub timeout: u64,
    /// The client certificate of a secured connection, which trusts the authorities that
    /// the system and the web trust.
    pub identity: Option<ClientAuth>,
}

/// How to connect to the given gRPC service.
pub fn grpc_connection(config: &ServiceConfig) -> (connection: GrpcConnection)
    ensures
        connection.hostname == config.hostname,
        connection.port == config.port,
        connection.connect_timeout == config.connection_timeout,
        connection.timeout == config.request_timeout,
        crate::tls::opt_auth(connection.identity) == crate::tls::grpc_identity_of(
            crate::config::opt_tls(config.tls),
        ),
{
    GrpcConnection {
        hostname: config.hostname.clone(),
        port: config.port,
        connect_timeout: config.connection_timeout,
        timeout: config.request_timeout,
        identity: grpc_identity(&config.tls),
    }
}

/// How to connect to the given gRPC service, if its hostname makes a URL.
pub fn try_grpc_connection(config: &ServiceConfig) -> (connection: Option<GrpcConnection>)
    ensures
        connection is Some <==> config.url() is Some,
        connection matches Some(c) ==> c.hostname == config.hostname && c.port == config.port
            && c.connect_timeout == config.connection_timeout && c.timeout
            == config.request_timeout && crate::tls::opt_auth(c.identity)
            == crate::tls::grpc_identity_of(crate::config::opt_tls(config.tls)),
{
    match config.try_base_url() {
        Some(_) => Some(grpc_connection(config)),
        None => None,
    }
}

/// The two protocols are told apart by their types.
pub proof fn protocols_are_told_apart()
    ensures
        Http::kind() is Http,
        Grpc::kind() is Grpc,
{
}

} // verus!
