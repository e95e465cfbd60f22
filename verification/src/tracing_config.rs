//! What telemetry is exported, where to, and how logs are written.

use crate::text::{join3, same_text, to_lowercase};
use vstd::prelude::*;

verus! {

/// What is exported over OTLP.
#[derive(Debug, Clone, Copy, PartialEq, Eq, Structural)]
pub enum OtlpExport {
    Traces,
    Metrics,
}

/// The name of an export.
pub open spec fn export_name(export: OtlpExport) -> Seq<char> {
    match export {
        OtlpExport::Traces => "traces"@,
        OtlpExport::Metrics => "metrics"@,
    }
}

/// The export with the given name in lower case.
pub open spec fn export_named(name: Seq<char>) -> Option<OtlpExport> {
    if name == "traces"@ {
        Some(OtlpExport::Traces)
    } else if name == "metrics"@ {
        Some(OtlpExport::Metrics)
    } else {
        None
    }
}

impl OtlpExport {
    /// The name of the export.
    pub fn to_text(&self) -> (name: &'static str)
        ensures
            name@ == export_name(*self),
    {
        match self {
            OtlpExport::Traces => "traces",
            OtlpExport::Metrics => "metrics",
        }
    }

    /// The export with the given name in lower case.
    pub fn from_name(name: &str) -> (export: Option<OtlpExport>)
        ensures
            export == export_named(name@),
    {
        if same_text(name, "traces") {
            Some(OtlpExport::Traces)
        } else if same_text(name, "metrics") {
            Some(OtlpExport::Metrics)
        } else {
            None
        }
    }

    /// The export with the given name, in upper or lower case. There are no others than
    /// traces and metrics.
    pub fn from(s: String) -> (export: OtlpExport)
        requires
            export_named(crate::text::lowercase(s@)) is Some,
        ensures
            Some(export) == export_named(crate::text::lowercase(s@)),
    {
        let lower: String = to_lowercase(s.as_str());
        let export: Option<OtlpExport> = OtlpExport::from_name(lower.as_str());
        export.unwrap()
    }

    /// The export with the given name, in upper or lower case, if there is one.
    pub fn try_from(s: String) -> (export: Option<OtlpExport>)
        ensures
            export == export_named(crate::text::lowercase(s@)),
    {
        let lower: String = to_lowercase(s.as_str());
        match OtlpExport::from_name(lower.as_str()) {
            Some(_) => Some(OtlpExport::from(s)),
            None => None,
        }
    }
}

/// The protocol that OTLP is spoken over.
#[derive(Debug, Clone, Copy, PartialEq, Eq, Structural)]
pub enum OtlpProtocol {
    Grpc,
    Http,
}

/// The name of a protocol.
pub open spec fn otlp_protocol_name(protocol: OtlpProtocol) -> Seq<char> {
    match protocol {
        OtlpProtocol::Grpc => "grpc"@,
        OtlpProtocol::Http => "http"@,
    }
}

/// The protocol with the given name in lower case; gRPC if there is none.
pub open spec fn otlp_protocol_named(name: Seq<char>) -> OtlpProtocol {
    if name == "http"@ {
        OtlpProtocol::Http
    } else {
        OtlpProtocol::Grpc
    }
}

/// `true` for the names of the protocols.
pub open spec fn is_otlp_protocol_name(name: Seq<char>) -> bool {
    exists|protocol: OtlpProtocol| name == #[trigger] otlp_protocol_name(protocol)
}

/// The endpoint of a protocol, where no other is given.
pub open spec fn default_otlp_endpoint(protocol: OtlpProtocol) -> Seq<char> {
    match protocol {
        OtlpProtocol::Http => "http://localhost:4318"@,
        OtlpProtocol::Grpc => "http://localhost:4317"@,
    }
}

impl Default for OtlpProtocol {
    fn default() -> (protocol: OtlpProtocol)
        ensures
            protocol == OtlpProtocol::Grpc,
    {
        OtlpProtocol::Grpc
    }
}

impl OtlpProtocol {
    /// The name of the protocol.
    pub fn to_text(&self) -> (name: &'static str)
        ensures
            name@ == otlp_protocol_name(*self),
    {
        match self {
            OtlpProtocol::Grpc => "grpc",
            OtlpProtocol::Http => "http",
        }
    }

    /// The protocol with the given name in lower case; gRPC if there is none.
    pub fn from_name(name: &str) -> (protocol: OtlpProtocol)
        ensures
            protocol == otlp_protocol_named(name@),
    {
        proof {
            reveal_strlit("grpc");
            reveal_strlit("http");
            assert("grpc"@[0] != "http"@[0]);
        }
        if same_text(name, "grpc") {
            OtlpProtocol::Grpc
        } else if same_text(name, "http") {
            OtlpProtocol::Http
        } else {
            OtlpProtocol::default()
        }
    }

    /// What is reported of a name that is not the name of a protocol, in whatever case.
    pub fn complaint(name: &str) -> (complaint: Option<String>)
        ensures
            crate::text::opt_text(complaint) == (if is_otlp_protocol_name(
                crate::text::lowercase(name@),
            ) {
                None
            } else {
                Some("Invalid OTLP protocol "@ + name@ + ", defaulting to "@ + "grpc"@)
            }),
    {
        let lower: String = to_lowercase(name);
        assert(otlp_protocol_name(OtlpProtocol::Grpc) == "grpc"@);
        assert(otlp_protocol_name(OtlpProtocol::Http) == "http"@);
        if same_text(lower.as_str(), "grpc") || same_text(lower.as_str(), "http") {
            None
        } else {
            let head: String = join3("Invalid OTLP protocol ", name, ", defaulting to ");
            Some(head.concat(OtlpProtocol::default().to_text()))
        }
    }

    /// The endpoint of the protocol, where no other is given.
    pub fn default_endpoint(&self) -> (endpoint: &'static str)
        ensures
            endpoint@ == default_otlp_endpoint(*self),
    {
        match self {
            OtlpProtocol::Http => "http://localhost:4318",
            OtlpProtocol::Grpc => "http://localhost:4317",
        }
    }
}

impl From<String> for OtlpProtocol {
    fn from(s: String) -> (protocol: OtlpProtocol) {
        let lower: String = to_lowercase(s.as_str());
        OtlpProtocol::from_name(lower.as_str())
    }
}

impl vstd::std_specs::convert::FromSpecImpl<String> for OtlpProtocol {
    open spec fn obeys_from_spec() -> bool {
        true
    }

    open spec fn from_spec(s: String) -> OtlpProtocol {
        otlp_protocol_named(crate::text::lowercase(s@))
    }
}

/// How logs are written.
#[derive(Debug, Clone, Copy, PartialEq, Eq, Structural)]
pub enum LogFormat {
    Full,
    Compact,
    Pretty,
    JSON,
}

/// The name of a format.
pub open spec fn log_format_name(format: LogFormat) -> Seq<char> {
    match format {
        LogFormat::Full => "full"@,
        LogFormat::Compact => "compact"@,
        LogFormat::Pretty => "pretty"@,
        LogFormat::JSON => "json"@,
    }
}

/// The format with the given name in lower case; the full one if there is none.
pub open spec fn log_format_named(name: Seq<char>) -> LogFormat {
    if name == "compact"@ {
        LogFormat::Compact
    } else if name == "pretty"@ {
        LogFormat::Pretty
    } else if name == "json"@ {
        LogFormat::JSON
    } else {
        LogFormat::Full
    }
}

/// `true` for the names of the formats.
pub open spec fn is_log_format_name(name: Seq<char>) -> bool {
    exists|format: LogFormat| name == #[trigger] log_format_name(format)
}

impl Default for LogFormat {
    fn default() -> (format: LogFormat)
        ensures
            format == LogFormat::Full,
    {
        LogFormat::Full
    }
}

impl LogFormat {
    /// The name of the format.
    pub fn name(&self) -> (name: &'static str)
        ensures
            name@ == log_format_name(*self),
    {
        match self {
            LogFormat::Full => "full",
            LogFormat::Compact => "compact",
            LogFormat::Pretty => "pretty",
            LogFormat::JSON => "json",
        }
    }

    /// The name of the format in quotes, as in JSON.
    pub fn to_text(&self) -> (text: String)
        ensures
            text@ == "\""@ + log_format_name(*self) + "\""@,
    {
        join3("\"", self.name(), "\"")
    }

    /// The format with the given name in lower case; the full one if there is none.
    pub fn from_name(name: &str) -> (format: LogFormat)
        ensures
            format == log_format_named(name@),
    {
        if same_text(name, "compact") {
            LogFormat::Compact
        } else if same_text(name, "pretty") {
            LogFormat::Pretty
        } else if same_text(name, "json") {
            LogFormat::JSON
        } else {
            LogFormat::default()
        }
    }

    /// What is reported of a name that is not the name of a format, in whatever case.
    pub fn complaint(name: &str) -> (complaint: Option<String>)
        ensures
            crate::text::opt_text(complaint) == (if is_log_format_name(
                crate::text::lowercase(name@),
            ) {
                None
            } else {
                Some(
                    "Invalid trace format "@ + name@ + ", defaulting to "@ + ("\""@ + "full"@
                        + "\""@),
                )
            }),
    {
        let lower: String = to_lowercase(name);
        assert(log_format_name(LogFormat::Full) == "full"@);
        assert(log_format_name(LogFormat::Compact) == "compact"@);
        assert(log_format_name(LogFormat::Pretty) == "pretty"@);
        assert(log_format_name(LogFormat::JSON) == "json"@);
        if same_text(lower.as_str(), "full") || same_text(lower.as_str(), "compact") || same_text(
            lower.as_str(),
            "pretty",
        ) || same_text(lower.as_str(), "json") {
            None
        } else {
            let head: String = join3("Invalid trace format ", name, ", defaulting to ");
            Some(head.concat(LogFormat::default().to_text().as_str()))
        }
    }
}

impl From<String> for LogFormat {
    fn from(s: String) -> (format: LogFormat) {
        let lower: String = to_lowercase(s.as_str());
        LogFormat::from_name(lower.as_str())
    }
}

impl vstd::std_specs::convert::FromSpecImpl<String> for LogFormat {
    open spec fn obeys_from_spec() -> bool {
        true
    }

    open spec fn from_spec(s: String) -> LogFormat {
        log_format_named(crate::text::lowercase(s@))
    }
}

/// What telemetry is exported, where to, and how logs are written.
#[derive(Debug)]
pub struct TracingConfig {
    pub service_name: String,
    pub traces: Option<(OtlpProtocol, String)>,
    pub metrics: Option<(OtlpProtocol, String)>,
    pub log_format: LogFormat,
    pub quiet: bool,
}

/// The protocol and endpoint of an export.
pub open spec fn target_view(target: Option<(OtlpProtocol, String)>) -> Option<
    (OtlpProtocol, Seq<char>),
> {
    match target {
        Some(target) => Some((target.0, target.1@)),
        None => None,
    }
}

impl Clone for TracingConfig {
    fn clone(&self) -> (copy: TracingConfig)
        ensures
            copy == *self,
    {
        TracingConfig {
            service_name: self.service_name.clone(),
            traces: match &self.traces {
                Some(target) => Some((target.0, target.1.clone())),
                None => None,
            },
            metrics: match &self.metrics {
                Some(target) => Some((target.0, target.1.clone())),
                None => None,
            },
            log_format: self.log_format,
            quiet: self.quiet,
        }
    }
}

/// Every export is found by its name.
pub proof fn export_is_found_by_its_name(export: OtlpExport)
    ensures
        export_named(export_name(export)) == Some(export),
{
    reveal_strlit("traces");
    reveal_strlit("metrics");
    assert("traces"@.len() != "metrics"@.len());
}

/// Every protocol is found by its name.
pub proof fn otlp_protocol_is_found_by_its_name(protocol: OtlpProtocol)
    ensures
        otlp_protocol_named(otlp_protocol_name(protocol)) == protocol,
{
    reveal_strlit("grpc");
    reveal_strlit("http");
    assert("grpc"@[0] != "http"@[0]);
}

/// Every log format is found by its name.
pub proof fn log_format_is_found_by_its_name(format: LogFormat)
    ensures
        log_format_named(log_format_name(format)) == format,
{
    reveal_strlit("full");
    reveal_strlit("compact");
    reveal_strlit("pretty");
    reveal_strlit("json");
    assert("full"@[0] != "json"@[0]);
    assert("compact"@.len() == 7);
    assert("pretty"@.len() == 6);
    assert("json"@.len() == 4);
    assert("full"@.len() == 4);
}

/// The names of exports, protocols and formats are in lower case.
proof fn lemma_names_are_lower(export: OtlpExport, protocol: OtlpProtocol, format: LogFormat)
    ensures
        crate::text::lowercase(export_name(export)) == export_name(export),
        crate::text::lowercase(otlp_protocol_name(protocol)) == otlp_protocol_name(protocol),
        crate::text::lowercase(log_format_name(format)) == log_format_name(format),
{
    reveal_strlit("traces");
    reveal_strlit("metrics");
    reveal_strlit("grpc");
    reveal_strlit("http");
    reveal_strlit("full");
    reveal_strlit("compact");
    reveal_strlit("pretty");
    reveal_strlit("json");
    assert(crate::text::lowercase(export_name(export)) =~= export_name(export));
    assert(crate::text::lowercase(otlp_protocol_name(protocol)) =~= otlp_protocol_name(protocol));
    assert(crate::text::lowercase(log_format_name(format)) =~= log_format_name(format));
}

/// An export is read back from its own name, in upper or lower case.
pub proof fn exports_are_read_back(export: OtlpExport, name: Seq<char>)
    requires
        name == export_name(export) || crate::text::lowercase(name) == export_name(export),
    ensures
        export_named(crate::text::lowercase(name)) == Some(export),
{
    lemma_names_are_lower(export, OtlpProtocol::Grpc, LogFormat::Full);
    export_is_found_by_its_name(export);
}

/// A protocol is read back from its own name, in upper or lower case.
pub proof fn protocols_are_read_back(protocol: OtlpProtocol, name: Seq<char>)
    requires
        name == otlp_protocol_name(protocol) || crate::text::lowercase(name) == otlp_protocol_name(
            protocol,
        ),
    ensures
        otlp_protocol_named(crate::text::lowercase(name)) == protocol,
{
    lemma_names_are_lower(OtlpExport::Traces, protocol, LogFormat::Full);
    otlp_protocol_is_found_by_its_name(protocol);
}

/// A format is read back from its own name, in upper or lower case.
pub proof fn formats_are_read_back(format: LogFormat, name: Seq<char>)
    requires
        name == log_format_name(format) || crate::text::lowercase(name) == log_format_name(format),
    ensures
        log_format_named(crate::text::lowercase(name)) == format,
{
    lemma_names_are_lower(OtlpExport::Traces, OtlpProtocol::Grpc, format);
    log_format_is_found_by_its_name(format);
}

/// Whatever is not the name of another one is read as the default: only `http` names HTTP,
/// only the names of the other formats name them, and nothing else is an export.
pub proof fn other_names_are_read_as_defaults(name: Seq<char>)
    ensures
        otlp_protocol_named(name) is Http <==> name == "http"@,
        log_format_named(name) is Compact <==> name == "compact"@,
        log_format_named(name) is Pretty <==> name == "pretty"@,
        log_format_named(name) is JSON <==> name == "json"@,
        export_named(name) == Some(OtlpExport::Traces) <==> name == "traces"@,
        export_named(name) == Some(OtlpExport::Metrics) <==> name == "metrics"@,
{
    export_is_found_by_its_name(OtlpExport::Traces);
    export_is_found_by_its_name(OtlpExport::Metrics);
    log_format_is_found_by_its_name(LogFormat::Compact);
    log_format_is_found_by_its_name(LogFormat::Pretty);
    log_format_is_found_by_its_name(LogFormat::JSON);
}

/// A name is known exactly where it is one of the names that there are.
pub proof fn known_names_are_listed(name: Seq<char>)
    ensures
        is_otlp_protocol_name(name) <==> name == "grpc"@ || name == "http"@,
        is_log_format_name(name) <==> name == "full"@ || name == "compact"@ || name == "pretty"@
            || name == "json"@,
{
    assert(otlp_protocol_name(OtlpProtocol::Grpc) == "grpc"@);
    assert(otlp_protocol_name(OtlpProtocol::Http) == "http"@);
    assert(log_format_name(LogFormat::Full) == "full"@);
    assert(log_format_name(LogFormat::Compact) == "compact"@);
    assert(log_format_name(LogFormat::Pretty) == "pretty"@);
    assert(log_format_name(LogFormat::JSON) == "json"@);
}

/// What is seen of the target of an export is its protocol and endpoint.
pub proof fn targets_show_what_they_hold(target: (OtlpProtocol, String))
    ensures
        target_view(Some(target)) == Some((target.0, target.1@)),
        target_view(None) is None,
{
}

} // verus!
