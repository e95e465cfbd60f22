//! Command line arguments, and what follows from them.

use crate::tracing_config::{LogFormat, OtlpExport, OtlpProtocol, TracingConfig};
use vstd::prelude::*;

verus! {

/// Command line arguments.
#[derive(Debug, Clone)]
pub struct Args {
    pub http_port: u16,
    pub health_http_port: u16,
    pub config_path: std::path::PathBuf,
    pub tls_cert_path: Option<std::path::PathBuf>,
    pub tls_key_path: Option<std::path::PathBuf>,
    pub tls_client_ca_cert_path: Option<std::path::PathBuf>,
    pub start_up_health_check: bool,
    pub otlp_export: Vec<OtlpExport>,
    pub log_format: LogFormat,
    pub quiet: bool,
    pub otlp_service_name: String,
    pub otlp_endpoint: Option<String>,
    pub otlp_traces_endpoint: Option<String>,
    pub otlp_metrics_endpoint: Option<String>,
    pub otlp_protocol: OtlpProtocol,
    pub otlp_traces_protocol: Option<OtlpProtocol>,
    pub otlp_metrics_protocol: Option<OtlpProtocol>,
}

impl Args {
    /// The endpoint of exports that name none: the common one, or else the default of the
    /// common protocol.
    pub open spec fn common_endpoint(self) -> Seq<char> {
        match self.otlp_endpoint {
            Some(endpoint) => endpoint@,
            None => crate::tracing_config::default_otlp_endpoint(self.otlp_protocol),
        }
    }

    /// Where an export goes, by its own protocol and endpoint or else the common ones.
    pub open spec fn target(
        self,
        protocol: Option<OtlpProtocol>,
        endpoint: Option<String>,
    ) -> (OtlpProtocol, Seq<char>) {
        (
            match protocol {
                Some(protocol) => protocol,
                None => self.otlp_protocol,
            },
            match endpoint {
                Some(endpoint) => endpoint@,
                None => self.common_endpoint(),
            },
        )
    }
}

/// `true` if the export is among those asked for.
fn contains_export(exports: &Vec<OtlpExport>, export: OtlpExport) -> (found: bool)
    ensures
        found == exports@.contains(export),
{
    let mut i: usize = 0;
    while i < exports.len()
        invariant
            i <= exports@.len(),
            forall|k: int| 0 <= k < i ==> #[trigger] exports@[k] != export,
        decreases exports@.len() - i,
    {
        if exports[i] == export {
            assert(exports@[i as int] == export);
            return true;
        }
        i += 1;
    }
    false
}

impl TracingConfig {
    /// The configuration that the arguments ask for.
    pub fn from_args(args: Args) -> (config: TracingConfig)
        ensures
            config.service_name == args.otlp_service_name,
            crate::tracing_config::target_view(config.traces) == (if args.otlp_export@.contains(
                OtlpExport::Traces,
            ) {
                Some(args.target(args.otlp_traces_protocol, args.otlp_traces_endpoint))
            } else {
                None
            }),
            crate::tracing_config::target_view(config.metrics) == (if args.otlp_export@.contains(
                OtlpExport::Metrics,
            ) {
                Some(args.target(args.otlp_metrics_protocol, args.otlp_metrics_endpoint))
            } else {
                None
            }),
            config.log_format == args.log_format,
            config.quiet == args.quiet,
    {
        let otlp_protocol: OtlpProtocol = args.otlp_protocol;
        let otlp_endpoint: String = match args.otlp_endpoint {
            Some(endpoint) => endpoint,
            None => otlp_protocol.default_endpoint().to_owned(),
        };
        let otlp_traces_endpoint: String = match args.otlp_traces_endpoint {
            Some(endpoint) => endpoint,
            None => otlp_endpoint.clone(),
        };
        let otlp_metrics_endpoint: String = match args.otlp_metrics_endpoint {
            Some(endpoint) => endpoint,
            None => otlp_endpoint.clone(),
        };
        let otlp_traces_protocol: OtlpProtocol = match args.otlp_traces_protocol {
            Some(protocol) => protocol,
            None => otlp_protocol,
        };
        let otlp_metrics_protocol: OtlpProtocol = match args.otlp_metrics_protocol {
            Some(protocol) => protocol,
            None => otlp_protocol,
        };
        TracingConfig {
            service_name: args.otlp_service_name,
            traces: if contains_export(&args.otlp_export, OtlpExport::Traces) {
                Some((otlp_traces_protocol, otlp_traces_endpoint))
            } else {
                None
            },
            metrics: if contains_export(&args.otlp_export, OtlpExport::Metrics) {
                Some((otlp_metrics_protocol, otlp_metrics_endpoint))
            } else {
                None
            },
            log_format: args.log_format,
            quiet: args.quiet,
        }
    }
}

/// Why the TLS arguments of the server do not fit together, if they do not.
pub open spec fn tls_args_problem(has_key: bool, has_cert: bool, has_client_ca: bool) -> Option<
    Seq<char>,
> {
    if has_key != has_cert {
        Some("tls: must provide both cert and key"@)
    } else if has_client_ca && !has_cert {
        Some("tls: cannot provide client ca cert without keypair"@)
    } else {
        None
    }
}

impl Args {
    /// Checks that the TLS arguments of the server fit together.
    pub fn check_tls(&self) -> (result: Result<(), &'static str>)
        ensures
            match tls_args_problem(
                self.tls_key_path is Some,
                self.tls_cert_path is Some,
                self.tls_client_ca_cert_path is Some,
            ) {
                Some(problem) => result matches Err(message) && message@ == problem,
                None => result is Ok,
            },
    {
        check_tls_args(
            self.tls_key_path.is_some(),
            self.tls_cert_path.is_some(),
            self.tls_client_ca_cert_path.is_some(),
        )
    }
}

/// Checks that the TLS arguments of the server fit together, by which of them are given.
pub fn check_tls_args(has_key: bool, has_cert: bool, has_client_ca: bool) -> (result: Result<
    (),
    &'static str,
>)
    ensures
        match tls_args_problem(has_key, has_cert, has_client_ca) {
            Some(problem) => result matches Err(message) && message@ == problem,
            None => result is Ok,
        },
{
    if has_key != has_cert {
        Err("tls: must provide both cert and key")
    } else if has_client_ca && !has_cert {
        Err("tls: cannot provide client ca cert without keypair")
    } else {
        Ok(())
    }
}

/// The arguments fit together exactly where there is neither a key nor a certificate nor
/// a client authority, or a key with its certificate.
pub proof fn tls_args_fit_iff_paired(has_key: bool, has_cert: bool, has_client_ca: bool)
    ensures
        tls_args_problem(has_key, has_cert, has_client_ca) is None <==> (has_key && has_cert) || (
        !has_key && !has_cert && !has_client_ca),
{
}

/// An endpoint of its own takes precedence over the common one, whatever the protocol.
pub proof fn own_endpoint_takes_precedence(
    args: Args,
    protocol: Option<OtlpProtocol>,
    endpoint: String,
)
    ensures
        args.target(protocol, Some(endpoint)).1 == endpoint@,
{
}

/// Without any endpoint, both exports go to the default endpoint of the common protocol,
/// even where one of them has a protocol of its own.
pub proof fn default_endpoint_follows_the_common_protocol(
    args: Args,
    protocol: Option<OtlpProtocol>,
)
    requires
        args.otlp_endpoint is None,
    ensures
        args.target(protocol, None).1 == crate::tracing_config::default_otlp_endpoint(
            args.otlp_protocol,
        ),
{
}

/// A protocol of its own takes precedence over the common one, and has no influence on where
/// an export goes.
pub proof fn own_protocol_takes_precedence(
    args: Args,
    protocol: OtlpProtocol,
    endpoint: Option<String>,
)
    ensures
        args.target(Some(protocol), endpoint).0 == protocol,
        args.target(None, endpoint).0 == args.otlp_protocol,
        args.target(Some(protocol), endpoint).1 == args.target(None, endpoint).1,
{
}

/// An export without an endpoint of its own goes where the common one is, whatever the
/// protocols are.
pub proof fn common_endpoint_is_shared(
    args: Args,
    endpoint: String,
    a: Option<OtlpProtocol>,
    b: Option<OtlpProtocol>,
)
    ensures
        args.otlp_endpoint == Some(endpoint) ==> args.target(a, None).1 == endpoint@,
        args.target(a, None).1 == args.target(b, None).1,
        args.target(a, None).1 == args.common_endpoint(),
{
}

/// Which of the TLS arguments is missing is told: a key and a certificate need each other,
/// and a client authority needs both.
pub proof fn tls_problems_are_told_apart(has_key: bool, has_cert: bool, has_client_ca: bool)
    ensures
        has_key != has_cert ==> tls_args_problem(has_key, has_cert, has_client_ca) == Some(
            "tls: must provide both cert and key"@,
        ),
        !has_key && !has_cert && has_client_ca ==> tls_args_problem(
            has_key,
            has_cert,
            has_client_ca,
        ) == Some("tls: cannot provide client ca cert without keypair"@),
        has_key && has_cert ==> tls_args_problem(has_key, has_cert, has_client_ca) is None,
        !has_key && !has_cert && !has_client_ca ==> tls_args_problem(
            has_key,
            has_cert,
            has_client_ca,
        ) is None,
{
}

} // verus!
