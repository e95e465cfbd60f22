//! The server of the orchestrator: its routes and the stream that it answers with.

use crate::text::join3;
use vstd::prelude::*;

verus! {

/// The port of the text generation service.
pub const TGIS_PORT: u16 = 8033;

/// The path that all tasks stand under.
pub fn api_prefix() -> (prefix: &'static str)
    ensures
        prefix@ == "/api/v1/task"@,
{
    "/api/v1/task"
}

/// What the server can be asked for.
#[derive(Debug, Clone, Copy, PartialEq, Eq, Structural)]
pub enum Route {
    Health,
    ClassificationWithGeneration,
    StreamClassificationWithGeneration,
}

/// The path of a route.
pub open spec fn route_path(route: Route) -> Seq<char> {
    match route {
        Route::Health => "/health"@,
        Route::ClassificationWithGeneration => "/api/v1/task"@ + "/"@
            + "classification-with-text-generation"@,
        Route::StreamClassificationWithGeneration => "/api/v1/task"@ + "/"@
            + "server-streaming-classification-with-text-generation"@,
    }
}

impl Route {
    /// The path of the route.
    pub fn path(&self) -> (path: String)
        ensures
            path@ == route_path(*self),
    {
        match self {
            Route::Health => "/health".to_owned(),
            Route::ClassificationWithGeneration => join3(
                api_prefix(),
                "/",
                "classification-with-text-generation",
            ),
            Route::StreamClassificationWithGeneration => join3(
                api_prefix(),
                "/",
                "server-streaming-classification-with-text-generation",
            ),
        }
    }

    /// `true` for the routes that are asked with `POST`, `false` for those with `GET`.
    pub fn is_post(&self) -> (post: bool)
        ensures
            post == !(self is Health),
    {
        match self {
            Route::Health => false,
            _ => true,
        }
    }
}

/// The health of the server, which is always well.
pub fn health() -> (health: Result<(), ()>)
    ensures
        health is Ok,
{
    Ok(())
}

/// One message of a stream.
#[derive(Debug)]
pub struct StreamResponse {
    pub generated_text: String,
    pub processed_index: i32,
}

/// The state that the server shares between requests.
#[derive(Debug, Clone, Copy)]
pub struct ServerState {}

/// The words that a stream consists of.
pub open spec fn stream_words() -> Seq<Seq<char>> {
    seq![
        "This"@,
        "is"@,
        "very"@,
        "good"@,
        "news,"@,
        "streaming"@,
        "is"@,
        "working"@,
        "!"@,
    ]
}

fn dummy_response() -> (words: Vec<&'static str>)
    ensures
        crate::tracing_setup::texts_view(words@) == stream_words(),
{
    let mut words: Vec<&'static str> = Vec::new();
    words.push("This");
    words.push("is");
    words.push("very");
    words.push("good");
    words.push("news,");
    words.push("streaming");
    words.push("is");
    words.push("working");
    words.push("!");
    assert(crate::tracing_setup::texts_view(words@) =~= stream_words());
    words
}

/// The messages of a stream: its words, numbered from zero.
pub fn generate_stream_response() -> (messages: Vec<StreamResponse>)
    ensures
        messages@.len() == stream_words().len(),
        forall|i: int|
            0 <= i < messages@.len() ==> (#[trigger] messages@[i]).generated_text@
                == stream_words()[i] && messages@[i].processed_index == i,
{
    let words: Vec<&'static str> = dummy_response();
    assert(words@.len() == crate::tracing_setup::texts_view(words@).len());
    let mut messages: Vec<StreamResponse> = Vec::new();
    let mut index: i32 = 0;
    let mut i: usize = 0;
    while i < words.len()
        invariant
            crate::tracing_setup::texts_view(words@) == stream_words(),
            words@.len() == 9,
            i <= words@.len(),
            index == i,
            messages@.len() == i,
            forall|k: int|
                0 <= k < i ==> (#[trigger] messages@[k]).generated_text@ == stream_words()[k]
                    && messages@[k].processed_index == k,
        decreases words@.len() - i,
    {
        assert(crate::tracing_setup::texts_view(words@)[i as int] == words@[i as int]@);
        messages.push(
            StreamResponse { generated_text: words[i].to_owned(), processed_index: index },
        );
        index += 1;
        i += 1;
    }
    messages
}

/// No two routes share a path.
pub proof fn routes_are_distinct(a: Route, b: Route)
    requires
        a != b,
    ensures
        route_path(a) != route_path(b),
{
    reveal_strlit("/health");
    reveal_strlit("/api/v1/task");
    reveal_strlit("/");
    reveal_strlit("classification-with-text-generation");
    reveal_strlit("server-streaming-classification-with-text-generation");
    assert(route_path(a).len() != route_path(b).len());
}

/// All tasks stand under one path, and asking for the health does not.
pub proof fn tasks_stand_under_one_path(route: Route)
    ensures
        "/api/v1/task/"@.is_prefix_of(route_path(route)) <==> !(route is Health),
{
    reveal_strlit("/health");
    reveal_strlit("/api/v1/task");
    reveal_strlit("/");
    reveal_strlit("/api/v1/task/");
    let path = route_path(route);
    if route is Health {
        assert(path.len() < "/api/v1/task/"@.len());
    } else {
        assert("/api/v1/task/"@ =~= path.take(13));
    }
}

} // verus!
