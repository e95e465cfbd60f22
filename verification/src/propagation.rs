//! Passing the metadata of a request on to the gRPC request that is sent for it.

use crate::headers::{
    can_be_header_value, empty_headers, header_text, insert_header, list_headers,
    metadata_from_headers, metadata_to_headers,
};
use crate::request::{is_allowed_header, RequestMetadata, RequestMetadataKind};
use crate::text::copy_bytes;
use vstd::prelude::*;

verus! {

/// A message together with the metadata of the request that it is sent for.
#[derive(Debug)]
pub struct MetadataIntoRequest<T> {
    pub metadata: RequestMetadata,
    pub inner: T,
}

impl<T> From<(RequestMetadata, T)> for MetadataIntoRequest<T> {
    fn from(parts: (RequestMetadata, T)) -> (request: MetadataIntoRequest<T>) {
        MetadataIntoRequest { metadata: parts.0, inner: parts.1 }
    }
}

impl<T> vstd::std_specs::convert::FromSpecImpl<(RequestMetadata, T)> for MetadataIntoRequest<T> {
    open spec fn obeys_from_spec() -> bool {
        true
    }

    open spec fn from_spec(parts: (RequestMetadata, T)) -> MetadataIntoRequest<T> {
        MetadataIntoRequest { metadata: parts.0, inner: parts.1 }
    }
}

/// What is sent along for a request of the given service: the name of the service, and
/// the first `traceparent`, if it is text.
pub open spec fn propagated(service: Seq<char>, traceparents: Seq<Seq<u8>>) -> Map<
    Seq<char>,
    Seq<Seq<u8>>,
> {
    let named = Map::empty().insert("service"@, seq![vstd::utf8::encode_utf8(service)]);
    if traceparents.len() > 0 && crate::headers::is_readable(traceparents[0]) {
        named.insert("traceparent"@, seq![traceparents[0]])
    } else {
        named
    }
}

impl<T> MetadataIntoRequest<T> {
    /// Only gRPC metadata can be sent along, and the name of the service has to be a
    /// header value.
    pub open spec fn sendable(self) -> bool {
        self.metadata.kind is Grpc && crate::headers::is_header_value(self.metadata.service.name())
    }

    /// Checks that the metadata can be sent along.
    pub fn is_sendable(&self) -> (sendable: bool)
        ensures
            sendable == self.sendable(),
    {
        match &self.metadata.kind {
            RequestMetadataKind::Http { .. } => false,
            RequestMetadataKind::Grpc { .. } => {
                let service: String = self.metadata.service.to_text();
                can_be_header_value(service.as_str())
            },
        }
    }

    /// There is a `traceparent` among gRPC metadata, and the first of them is not text.
    pub open spec fn unreadable_traceparent(self) -> bool {
        &&& self.metadata.kind is Grpc
        &&& self.metadata.kind@.allowed_values().len() > 0
        &&& !crate::headers::is_readable(self.metadata.kind@.allowed_values()[0])
    }

    /// The first `traceparent` of gRPC metadata, if there is one.
    fn first_traceparent(&self) -> (first: Option<Vec<u8>>)
        ensures
            self.metadata.kind is Http ==> first is None,
            self.metadata.kind is Grpc ==> (first is None
                <==> self.metadata.kind@.allowed_values().len() == 0),
            first matches Some(value) ==> value@ == self.metadata.kind@.allowed_values()[0],
    {
        let pairs: Vec<(String, Vec<u8>)> = match &self.metadata.kind {
            RequestMetadataKind::Http { .. } => {
                return None;
            },
            RequestMetadataKind::Grpc { metadata, .. } => {
                let headers: http::HeaderMap = metadata_to_headers(metadata);
                list_headers(&headers)
            },
        };
        proof {
            crate::headers::lemma_values_listed_are_all(
                crate::headers::pairs_view(pairs@),
                "traceparent"@,
            );
        }
        first_allowed(&pairs)
    }

    /// `true` if a `traceparent` is left behind because it is not text.
    pub fn has_unreadable_traceparent(&self) -> (unreadable: bool)
        ensures
            unreadable == self.unreadable_traceparent(),
    {
        match self.first_traceparent() {
            Some(value) => header_text(&value).is_none(),
            None => false,
        }
    }

    /// The metadata and the message of the gRPC request.
    pub fn into_request(self) -> (request: (tonic::metadata::MetadataMap, T))
        requires
            self.sendable(),
        ensures
            crate::headers::metadata_values(request.0) == propagated(
                self.metadata.service.name(),
                self.metadata.kind@.allowed_values(),
            ),
            request.1 == self.inner,
    {
        proof {
            reveal_strlit("service");
            reveal_strlit("traceparent");
        }
        let ghost values = self.metadata.kind@.allowed_values();
        let service: String = self.metadata.service.to_text();
        let first: Option<Vec<u8>> = self.first_traceparent();
        let mut headers: http::HeaderMap = empty_headers();
        insert_header(&mut headers, "service", service.as_str().as_bytes());
        match first {
            Some(value) => {
                match header_text(&value) {
                    Some(text) => {
                        proof {
                            crate::headers::readable_text_keeps_bytes(value@);
                        }
                        insert_header(&mut headers, "traceparent", text.as_str().as_bytes());
                    },
                    None => {},
                }
            },
            None => {},
        }
        (metadata_from_headers(headers), self.inner)
    }
}

/// The value of the first pair whose name is allowed.
fn first_allowed(pairs: &Vec<(String, Vec<u8>)>) -> (first: Option<Vec<u8>>)
    ensures
        first is None <==> crate::headers::values_listed(
            crate::headers::pairs_view(pairs@),
            "traceparent"@,
        ).len() == 0,
        first matches Some(value) ==> value@ == crate::headers::values_listed(
            crate::headers::pairs_view(pairs@),
            "traceparent"@,
        )[0],
{
    let ghost all = crate::headers::pairs_view(pairs@);
    let ghost name = "traceparent"@;
    let mut i: usize = 0;
    while i < pairs.len()
        invariant
            i <= pairs@.len(),
            all == crate::headers::pairs_view(pairs@),
            name == "traceparent"@,
            crate::headers::values_listed(all.take(i as int), name).len() == 0,
        decreases pairs@.len() - i,
    {
        let pair: &(String, Vec<u8>) = &pairs[i];
        assert(all[i as int] == (pair.0@, pair.1@));
        proof {
            crate::headers::lemma_values_listed_step(all, i as int, name);
            crate::headers::lemma_values_listed_prefix(all, i + 1, name);
        }
        if is_allowed_header(pair.0.as_str()) {
            let ghost listed = crate::headers::values_listed(all.take(i + 1), name);
            assert(listed[0] == pair.1@);
            return Some(copy_bytes(&pair.1));
        }
        i += 1;
    }
    assert(all.take(i as int) =~= all);
    None
}

/// Nothing but the service and `traceparent` is ever passed on.
pub proof fn only_service_and_traceparent_are_propagated(
    service: Seq<char>,
    traceparents: Seq<Seq<u8>>,
    name: Seq<char>,
)
    requires
        propagated(service, traceparents).contains_key(name),
    ensures
        name == "service"@ || name == "traceparent"@,
{
}

/// The name of the service is always passed on, whatever the request carries.
pub proof fn service_is_always_propagated(service: Seq<char>, traceparents: Seq<Seq<u8>>)
    ensures
        propagated(service, traceparents)["service"@] == seq![vstd::utf8::encode_utf8(service)],
        propagated(service, traceparents).contains_key("service"@),
{
    reveal_strlit("service");
    reveal_strlit("traceparent");
    assert("service"@.len() != "traceparent"@.len());
}

/// The `traceparent` of gRPC metadata is passed on exactly where there is one and it is not
/// reported as unreadable.
pub proof fn traceparent_is_passed_on_or_reported<T>(request: MetadataIntoRequest<T>)
    requires
        request.sendable(),
    ensures
        propagated(
            request.metadata.service.name(),
            request.metadata.kind@.allowed_values(),
        ).contains_key("traceparent"@) <==> request.metadata.kind@.allowed_values().len() > 0
            && !request.unreadable_traceparent(),
{
    reveal_strlit("service");
    reveal_strlit("traceparent");
    assert("service"@.len() != "traceparent"@.len());
}

/// What was passed on once is passed on unchanged by the next service in the chain.
pub proof fn propagation_is_stable(service: Seq<char>, next: Seq<char>, traceparents: Seq<Seq<u8>>)
    ensures
        ({
            let first = propagated(service, traceparents);
            let forwarded = crate::headers::all_values(first, "traceparent"@);
            let second = propagated(next, forwarded);
            crate::headers::all_values(second, "traceparent"@) == forwarded
        }),
{
    reveal_strlit("service");
    reveal_strlit("traceparent");
    assert("service"@.len() != "traceparent"@.len());
}

/// Of several `traceparent`s the first one goes out, byte by byte, or none where that one is
/// not text; the others play no part.
pub proof fn the_first_traceparent_is_propagated(
    service: Seq<char>,
    first: Seq<u8>,
    others: Seq<Seq<u8>>,
)
    ensures
        ({
            let sent = propagated(service, seq![first] + others);
            &&& sent == propagated(service, seq![first])
            &&& sent.contains_key("traceparent"@) <==> forall|i: int|
                0 <= i < first.len() ==> (#[trigger] first[i] == 9 || 32 <= first[i] <= 126)
            &&& sent.contains_key("traceparent"@) ==> sent["traceparent"@] == seq![first]
        }),
        !propagated(service, Seq::empty()).contains_key("traceparent"@),
{
    reveal_strlit("service");
    reveal_strlit("traceparent");
    assert("service"@.len() != "traceparent"@.len());
    assert((seq![first] + others)[0] == first);
    assert forall|i: int| 0 <= i < first.len() implies crate::headers::is_visible(
        #[trigger] first[i],
    ) == (first[i] == 9 || 32 <= first[i] <= 126) by {}
    if crate::headers::is_readable(first) {
        assert forall|i: int| 0 <= i < first.len() implies (#[trigger] first[i] == 9 || 32
            <= first[i] <= 126) by {
            assert(crate::headers::is_visible(first[i]));
        }
    }
}

/// Metadata can be sent along exactly where it is that of a gRPC request and the name of the
/// service has no control character but the tab.
pub proof fn metadata_is_sendable_iff_grpc<T>(request: MetadataIntoRequest<T>)
    ensures
        request.sendable() <==> request.metadata.kind is Grpc && forall|i: int|
            0 <= i < vstd::utf8::encode_utf8(request.metadata.service.name()).len() ==> {
                let byte = #[trigger] vstd::utf8::encode_utf8(request.metadata.service.name())[i];
                byte == 9 || (byte >= 32 && byte != 127)
            },
{
    let bytes = vstd::utf8::encode_utf8(request.metadata.service.name());
    if crate::headers::is_header_bytes(bytes) {
        assert forall|i: int| 0 <= i < bytes.len() implies {
            let byte = #[trigger] bytes[i];
            byte == 9 || (byte >= 32 && byte != 127)
        } by {
            assert(crate::headers::is_header_byte(bytes[i]));
        }
    }
}

/// A `traceparent` is reported exactly where there is one among gRPC metadata and a byte of
/// the first is no character that can be read.
pub proof fn unreadable_traceparents_have_a_bad_byte<T>(request: MetadataIntoRequest<T>)
    ensures
        request.unreadable_traceparent() ==> request.metadata.kind is Grpc && ({
            let parents = crate::headers::all_values(
                request.metadata.kind@.values(),
                "traceparent"@,
            );
            parents.len() > 0 && exists|i: int|
                0 <= i < parents[0].len() && !(#[trigger] parents[0][i] == 9 || 32 <= parents[0][i]
                    <= 126)
        }),
        request.metadata.kind is Grpc && !request.unreadable_traceparent() ==> ({
            let parents = crate::headers::all_values(
                request.metadata.kind@.values(),
                "traceparent"@,
            );
            parents.len() == 0 || crate::headers::is_readable(parents[0])
        }),
{
}

} // verus!
