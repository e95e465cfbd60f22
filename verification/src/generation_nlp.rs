//! Text generation by NLP services.

use crate::headers::{empty_headers, insert_header, metadata_from_headers};
use crate::text::same_text;
use vstd::prelude::*;

verus! {

/// Turns an NLP client gRPC request body of type `T` into the metadata and message of a
/// request on behalf of a model.
pub fn request_with_model_id<T>(request: T, model_id: &str) -> (parts: (
    tonic::metadata::MetadataMap,
    T,
))
    requires
        crate::headers::is_header_value(model_id@),
    ensures
        crate::headers::metadata_values(parts.0) == crate::nlp::with_model_id(
            crate::headers::no_values(),
            model_id@,
        ),
        parts.1 == request,
{
    proof {
        reveal_strlit("mm-model-id");
    }
    let mut headers: http::HeaderMap = empty_headers();
    insert_header(&mut headers, "mm-model-id", model_id.as_bytes());
    (metadata_from_headers(headers), request)
}

/// No client serves a generation model.
#[derive(Debug)]
pub struct GenerationModelNotFound {
    pub id: String,
    pub task: String,
}

/// The client of the NLP services that generate text. All models are reached through one
/// common router.
#[derive(Debug, Clone)]
pub struct NlpClient<C> {
    pub router_key: String,
    pub clients: Vec<(String, C)>,
}

/// The first place of a key among the clients.
pub open spec fn is_first_place<C>(clients: Seq<(String, C)>, key: Seq<char>, i: int) -> bool {
    &&& 0 <= i < clients.len()
    &&& clients[i].0@ == key
    &&& forall|j: int| 0 <= j < i ==> (#[trigger] clients[j]).0@ != key
}

impl<C> NlpClient<C> {
    /// The client that a model is reached by: the one of the common router.
    pub fn client(&self, model_id: &str) -> (client: Result<&C, GenerationModelNotFound>)
        ensures
            match client {
                Ok(c) => exists|i: int|
                    is_first_place(self.clients@, self.router_key@, i) && *c == self.clients@[i].1,
                Err(error) => {
                    &&& forall|i: int|
                        0 <= i < self.clients@.len() ==> (#[trigger] self.clients@[i]).0@
                            != self.router_key@
                    &&& error.id@ == self.router_key@
                    &&& error.task@ == "generation with NLP client"@
                },
            },
    {
        let mut i: usize = 0;
        while i < self.clients.len()
            invariant
                i <= self.clients@.len(),
                forall|j: int| 0 <= j < i ==> (#[trigger] self.clients@[j]).0@ != self.router_key@,
            decreases self.clients@.len() - i,
        {
            if same_text(self.clients[i].0.as_str(), self.router_key.as_str()) {
                assert(is_first_place(self.clients@, self.router_key@, i as int));
                return Ok(&self.clients[i].1);
            }
            i += 1;
        }
        Err(
            GenerationModelNotFound {
                id: self.router_key.clone(),
                task: "generation with NLP client".to_owned(),
            },
        )
    }
}

/// Which client is used does not depend on the model that is asked for: if one model is
/// served, every model is, and by the same client.
pub proof fn all_models_share_a_client<C>(clients: Seq<(String, C)>, key: Seq<char>, i: int, j: int)
    requires
        is_first_place(clients, key, i),
        is_first_place(clients, key, j),
    ensures
        i == j,
{
}

/// The place of a client is that of the first entry with its key.
pub proof fn first_places_are_first<C>(clients: Seq<(String, C)>, key: Seq<char>, i: int, j: int)
    requires
        is_first_place(clients, key, i),
        0 <= j < clients.len(),
        clients[j].0@ == key,
    ensures
        0 <= i <= j,
        clients[i].0@ == key,
{
}

} // verus!
