//! URLs, by the text that the `url` crate writes for them.

use vstd::prelude::*;

verus! {

/// What `url::Url::parse` makes of a text: the normalised URL, or nothing if it is none.
pub uninterp spec fn parsed_url(text: Seq<char>) -> Option<Seq<char>>;

/// What `url::Url::set_port` makes of a URL: the URL with that port, or nothing if it
/// cannot have one.
pub uninterp spec fn url_with_port(url: Seq<char>, port: u16) -> Option<Seq<char>>;

/// What `url::Url::join` makes of a base URL and a reference to it.
pub uninterp spec fn joined_url(base: Seq<char>, reference: Seq<char>) -> Option<Seq<char>>;

/// What `url::PathSegmentsMut::clear` makes of a URL: the URL without the segments of its
/// path, or nothing if a path of its kind has no segments.
pub uninterp spec fn url_without_path(url: Seq<char>) -> Option<Seq<char>>;

/// `true` if the scheme of a URL and its `:` are followed by a `/`.
pub open spec fn has_segments(url: Seq<char>) -> bool {
    exists|i: int|
        #![trigger url[i]]
        0 <= i < url.len() - 1 && url[i] == ':' && url[i + 1] == '/' && forall|j: int|
            0 <= j < i ==> url[j] != ':'
}

/// `true` for the URLs of the web.
pub open spec fn is_web_url(url: Seq<char>) -> bool {
    "http://"@.is_prefix_of(url) || "https://"@.is_prefix_of(url)
}

/// The place of the first `/` from the given one on; the end of the text if there is none.
pub open spec fn slash_from(text: Seq<char>, from: int) -> int
    decreases text.len() - from,
{
    if from >= text.len() || text[from] == '/' {
        from
    } else {
        slash_from(text, from + 1)
    }
}

/// The place of the first `?` or `#` from the given one on; the end of the text if there
/// is none.
pub open spec fn mark_from(text: Seq<char>, from: int) -> int
    decreases text.len() - from,
{
    if from >= text.len() || text[from] == '?' || text[from] == '#' {
        from
    } else {
        mark_from(text, from + 1)
    }
}

/// Where the path of a URL of the web starts: at the first `/` behind `://`.
pub open spec fn path_start(url: Seq<char>) -> int {
    slash_from(
        url,
        if "https://"@.is_prefix_of(url) {
            8
        } else {
            7
        },
    )
}

/// Where the path of a URL of the web ends: at its query, its fragment, or its end.
pub open spec fn path_end(url: Seq<char>) -> int {
    mark_from(url, path_start(url))
}

/// A URL of the web with the path `/`; what stands before and behind the path is kept.
pub open spec fn with_root_path(url: Seq<char>) -> Seq<char> {
    url.take(path_start(url)) + seq!['/'] + url.skip(path_end(url))
}

/// Of a URL of the web, the base is that URL with the path `/`. It is a URL, and read back
/// as it is written.
pub open spec fn is_web_base(url: Option<Seq<char>>, base: Option<Seq<char>>) -> bool {
    url matches Some(u) ==> is_web_url(u) ==> base == Some(with_root_path(u)) && parsed_url(
        with_root_path(u),
    ) == base
}

/// Calls `url::Url::parse`. The result is a function of the text alone.
#[verifier::external_body]
fn parse_url(text: &str) -> (url: Option<String>)
    ensures
        crate::text::opt_text(url) == parsed_url(text@),
{
    url::Url::parse(text).ok().map(String::from)
}

/// Calls `url::Url::set_port` on the URL with the given text. The result is a function
/// of the text and the port alone.
#[verifier::external_body]
fn set_url_port(url: &str, port: u16) -> (changed: Option<String>)
    ensures
        crate::text::opt_text(changed) == url_with_port(url@, port),
{
    let mut url = url::Url::parse(url).ok()?;
    url.set_port(Some(port)).ok()?;
    Some(String::from(url))
}

/// Calls `url::Url::join` on the URL with the given text. The result is a function of
/// the two texts alone.
#[verifier::external_body]
fn join_url(base: &str, reference: &str) -> (joined: Option<String>)
    ensures
        crate::text::opt_text(joined) == joined_url(base@, reference@),
{
    url::Url::parse(base).ok()?.join(reference).ok().map(String::from)
}

/// Calls `url::PathSegmentsMut::clear` on the path of the URL with the given text. The
/// result is a function of the text alone. There is one exactly where the scheme is
/// followed by a slash, as the `url` crate documents of `cannot_be_a_base`. A URL of the
/// web gets the path `/`, keeps all the rest, and is then read back as it is written.
#[verifier::external_body]
fn clear_url_path(url: &str) -> (cleared: Option<String>)
    ensures
        crate::text::opt_text(cleared) == url_without_path(url@),
        cleared is Some <==> (parsed_url(url@) matches Some(parsed) && has_segments(parsed)),
        is_web_base(parsed_url(url@), crate::text::opt_text(cleared)),
{
    let mut url = url::Url::parse(url).ok()?;
    url.path_segments_mut().ok()?.clear();
    Some(String::from(url))
}

/// A URL. Its view is the text of the URL.
#[derive(Debug, PartialEq, Eq)]
pub struct Url {
    pub text: String,
}

impl View for Url {
    type V = Seq<char>;

    open spec fn view(&self) -> Seq<char> {
        self.text@
    }
}

impl Clone for Url {
    fn clone(&self) -> (copy: Url)
        ensures
            copy == *self,
    {
        Url { text: self.text.clone() }
    }
}

/// The view of an optional URL.
pub open spec fn opt_url(url: Option<Url>) -> Option<Seq<char>> {
    match url {
        Some(u) => Some(u@),
        None => None,
    }
}

fn from_text(text: Option<String>) -> (url: Option<Url>)
    ensures
        opt_url(url) == crate::text::opt_text(text),
{
    match text {
        Some(text) => Some(Url { text }),
        None => None,
    }
}

impl Url {
    /// Reads a URL.
    pub fn parse(text: &str) -> (url: Option<Url>)
        ensures
            opt_url(url) == parsed_url(text@),
    {
        from_text(parse_url(text))
    }

    /// The text of the URL.
    pub fn as_str(&self) -> (text: &str)
        ensures
            text@ == self@,
    {
        self.text.as_str()
    }

    /// The same URL with another port, if it can have one.
    pub fn with_port(&self, port: u16) -> (url: Option<Url>)
        ensures
            opt_url(url) == url_with_port(self@, port),
    {
        from_text(set_url_port(self.text.as_str(), port))
    }

    /// The URL that a reference stands for, seen from this one.
    pub fn join(&self, reference: &str) -> (url: Option<Url>)
        ensures
            opt_url(url) == joined_url(self@, reference@),
    {
        from_text(join_url(self.text.as_str(), reference))
    }
}

/// Extracts a base url from a url including path segments.
pub fn extract_base_url(url: &Url) -> (base: Option<Url>)
    ensures
        opt_url(base) == url_without_path(url@),
        base is Some <==> (parsed_url(url@) matches Some(parsed) && has_segments(parsed)),
        is_web_base(parsed_url(url@), opt_url(base)),
{
    from_text(clear_url_path(url.text.as_str()))
}

/// A text with a `/` where another one has its first, or ends, and the same before it, has
/// its first `/` there too.
proof fn lemma_slash_from(a: Seq<char>, b: Seq<char>, from: int)
    requires
        0 <= from <= a.len(),
        slash_from(a, from) < b.len(),
        b[slash_from(a, from)] == '/',
        forall|i: int| from <= i < slash_from(a, from) ==> a[i] == b[i],
    ensures
        slash_from(b, from) == slash_from(a, from),
    decreases a.len() - from,
{
    lemma_slash_bounds(a, from);
    if from < a.len() && a[from] != '/' {
        lemma_slash_bounds(a, from + 1);
        assert(a[from] == b[from]);
        lemma_slash_from(a, b, from + 1);
    }
}

proof fn lemma_slash_bounds(text: Seq<char>, from: int)
    requires
        0 <= from <= text.len(),
    ensures
        from <= slash_from(text, from) <= text.len(),
        slash_from(text, from) < text.len() ==> text[slash_from(text, from)] == '/',
    decreases text.len() - from,
{
    if from < text.len() && text[from] != '/' {
        lemma_slash_bounds(text, from + 1);
    }
}

proof fn lemma_mark_bounds(text: Seq<char>, from: int)
    requires
        0 <= from <= text.len(),
    ensures
        from <= mark_from(text, from) <= text.len(),
        mark_from(text, from) < text.len() ==> text[mark_from(text, from)] == '?'
            || text[mark_from(text, from)] == '#',
    decreases text.len() - from,
{
    if from < text.len() && text[from] != '?' && text[from] != '#' {
        lemma_mark_bounds(text, from + 1);
    }
}

/// The base of a URL of the web has the path `/`, everything before and behind the path is
/// that of the URL, and it is its own base.
pub proof fn base_url_is_its_own_base(url: Seq<char>)
    requires
        is_web_url(url),
    ensures
        ({
            let base = with_root_path(url);
            &&& is_web_url(base)
            &&& path_start(base) == path_start(url)
            &&& base.subrange(path_start(base), path_end(base)) == seq!['/']
            &&& base.take(path_start(base)) == url.take(path_start(url))
            &&& base.skip(path_end(base)) == url.skip(path_end(url))
            &&& with_root_path(base) == base
        }),
{
    reveal_strlit("http://");
    reveal_strlit("https://");
    let secure = "https://"@.is_prefix_of(url);
    let authority: int = if secure {
        8
    } else {
        7
    };
    let start = path_start(url);
    let end = path_end(url);
    let base = with_root_path(url);
    lemma_slash_bounds(url, authority);
    lemma_mark_bounds(url, start);
    assert(base[start] == '/');
    assert(forall|i: int| 0 <= i < start ==> #[trigger] base[i] == url[i]);
    if secure {
        assert("https://"@.is_prefix_of(base)) by {
            assert("https://"@ =~= base.subrange(0, 8)) by {
                assert("https://"@ =~= url.subrange(0, 8));
            }
        }
    } else {
        assert("http://"@ =~= url.subrange(0, 7));
        assert("http://"@ =~= base.subrange(0, 7));
        assert(base[4] == ':');
        assert("https://"@[4] == 's');
        if "https://"@.is_prefix_of(base) {
            assert("https://"@ =~= base.subrange(0, 8));
            assert(base.subrange(0, 8)[4] == base[4]);
        }
    }
    lemma_slash_from(url, base, authority);
    assert(path_start(base) == start);
    if end < url.len() {
        assert(base[start + 1] == url[end]);
    }
    assert(mark_from(base, start + 1) == start + 1);
    assert(path_end(base) == start + 1);
    assert(base.subrange(start, start + 1) =~= seq!['/']);
    assert(base.take(start) =~= url.take(start));
    assert(base.skip(start + 1) =~= url.skip(end));
    assert(with_root_path(base) =~= base);
}

/// The path of a URL of the web starts at the first `/` behind `://`, and ends before the
/// first `?` or `#` from there on.
pub proof fn paths_end_at_the_first_mark(url: Seq<char>, i: int)
    requires
        is_web_url(url),
    ensures
        path_start(url) <= path_end(url) <= url.len(),
        path_start(url) < url.len() ==> url[path_start(url)] == '/',
        path_start(url) <= i < path_end(url) ==> url[i] != '?' && url[i] != '#',
        path_end(url) < url.len() ==> url[path_end(url)] == '?' || url[path_end(url)] == '#',
{
    reveal_strlit("http://");
    reveal_strlit("https://");
    let from: int = if "https://"@.is_prefix_of(url) {
        8
    } else {
        7
    };
    lemma_slash_bounds(url, from);
    lemma_mark_bounds(url, path_start(url));
    if path_start(url) <= i < path_end(url) {
        lemma_no_mark_before(url, path_start(url), i);
    }
}

proof fn lemma_no_mark_before(text: Seq<char>, from: int, i: int)
    requires
        0 <= from <= i < mark_from(text, from),
        from <= text.len(),
    ensures
        text[i] != '?',
        text[i] != '#',
    decreases text.len() - from,
{
    if from < i {
        lemma_no_mark_before(text, from + 1, i);
    }
}

/// What is seen of an optional URL is its text.
pub proof fn optional_urls_show_what_they_hold(url: Url)
    ensures
        url@ == url.text@,
        opt_url(Some(url)) == Some(url@),
        opt_url(None) is None,
{
}

} // verus!
