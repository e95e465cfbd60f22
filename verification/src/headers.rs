//! Header maps: what the `http` and `tonic` crates keep in them, and which of their
//! headers are passed on.

use crate::text::same_text;
use vstd::prelude::*;

verus! {

#[verifier::external_type_specification]
#[verifier::external_body]
#[verifier::reject_recursive_types(T)]
pub struct ExHeaderMap<T>(http::HeaderMap<T>);

#[verifier::external_type_specification]
#[verifier::external_body]
pub struct ExHeaderValue(http::HeaderValue);

#[verifier::external_type_specification]
#[verifier::external_body]
pub struct ExMetadataMap(tonic::metadata::MetadataMap);

/// What a header map holds: the values of each header name, in the order in which they
/// were added. A name without values is not a key.
pub uninterp spec fn header_values(headers: http::HeaderMap) -> Map<Seq<char>, Seq<Seq<u8>>>;

/// What a gRPC metadata map holds, in the same form as a header map.
pub uninterp spec fn metadata_values(metadata: tonic::metadata::MetadataMap) -> Map<
    Seq<char>,
    Seq<Seq<u8>>,
>;

/// What an empty header map holds.
pub open spec fn no_values() -> Map<Seq<char>, Seq<Seq<u8>>> {
    Map::empty()
}

/// The values of one header name; none where the name is missing.
pub open spec fn all_values(values: Map<Seq<char>, Seq<Seq<u8>>>, name: Seq<char>) -> Seq<Seq<u8>> {
    if values.contains_key(name) {
        values[name]
    } else {
        Seq::empty()
    }
}

/// The values that stand beside one name in a list of name and value pairs.
pub open spec fn values_listed(pairs: Seq<(Seq<char>, Seq<u8>)>, name: Seq<char>) -> Seq<Seq<u8>>
    decreases pairs.len(),
{
    if pairs.len() == 0 {
        Seq::empty()
    } else {
        let before = values_listed(pairs.drop_last(), name);
        if pairs.last().0 == name {
            before.push(pairs.last().1)
        } else {
            before
        }
    }
}

/// The view of a list of name and value pairs.
pub open spec fn pairs_view(pairs: Seq<(String, Vec<u8>)>) -> Seq<(Seq<char>, Seq<u8>)> {
    pairs.map_values(|pair: (String, Vec<u8>)| (pair.0@, pair.1@))
}

/// Every name has one value.
pub open spec fn has_single_values(values: Map<Seq<char>, Seq<Seq<u8>>>) -> bool {
    forall|name: Seq<char>| #[trigger] values.contains_key(name) ==> values[name].len() == 1
}

/// Below this many names a header map always takes some more: the `http` crate refuses
/// to grow only where its index of 32768 places is exhausted, which takes at least a
/// fifth of that many names.
pub open spec fn has_room(values: Map<Seq<char>, Seq<Seq<u8>>>) -> bool {
    values.dom().finite() && values.dom().len() < 6000
}

/// `http::HeaderMap::new`: an empty header map.
#[verifier::external_body]
pub(crate) fn empty_headers() -> (headers: http::HeaderMap)
    ensures
        header_values(headers) == no_values(),
{
    http::HeaderMap::new()
}

/// `http::HeaderMap::clone`: a header map with the same names and values.
#[verifier::external_body]
pub(crate) fn clone_headers(headers: &http::HeaderMap) -> (copy: http::HeaderMap)
    ensures
        header_values(copy) == header_values(*headers),
{
    headers.clone()
}

/// `http::HeaderMap`'s equality: two header maps are equal if each name has the same
/// values, in the same order, in both.
#[verifier::external_body]
pub(crate) fn same_headers(a: &http::HeaderMap, b: &http::HeaderMap) -> (equal: bool)
    ensures
        equal == (header_values(*a) == header_values(*b)),
{
    a == b
}

/// The values of each name in a list of name and value pairs.
pub open spec fn listed_values(pairs: Seq<(Seq<char>, Seq<u8>)>) -> Map<Seq<char>, Seq<Seq<u8>>> {
    Map::new(
        |name: Seq<char>| values_listed(pairs, name).len() > 0,
        |name: Seq<char>| values_listed(pairs, name),
    )
}

/// Every pair of the list can stand in a header map.
pub open spec fn are_headers(pairs: Seq<(Seq<char>, Seq<u8>)>) -> bool {
    forall|i: int|
        0 <= i < pairs.len() ==> is_header_name((#[trigger] pairs[i]).0) && is_header_bytes(
            pairs[i].1,
        )
}

/// `http::HeaderMap::iter`: every name is visited once per value, and the values of one
/// name in the order in which they were added. The order of the names is left open.
#[verifier::external_body]
pub(crate) fn list_headers(headers: &http::HeaderMap) -> (pairs: Vec<(String, Vec<u8>)>)
    ensures
        listed_values(pairs_view(pairs@)) == header_values(*headers),
        are_headers(pairs_view(pairs@)),
{
    headers
        .iter()
        .map(|(name, value)| (name.as_str().to_owned(), value.as_bytes().to_vec()))
        .collect()
}

/// `http::HeaderMap::try_insert`: the value replaces whatever the name had before. The
/// result is `false`, and nothing changes, if the map cannot hold another name.
#[verifier::external_body]
pub(crate) fn insert_header(headers: &mut http::HeaderMap, name: &str, value: &[u8]) -> (inserted:
    bool)
    requires
        is_header_name(name@),
        is_header_bytes(value@),
    ensures
        inserted ==> header_values(*final(headers)) == header_values(*old(headers)).insert(
            name@,
            seq![value@],
        ),
        !inserted ==> header_values(*final(headers)) == header_values(*old(headers)),
        has_room(header_values(*old(headers))) ==> inserted,
        !inserted ==> crate::ambient::may_refuse(header_values(*old(headers))),
{
    let name = http::HeaderName::from_lowercase(name.as_bytes()).unwrap();
    let value = http::HeaderValue::from_bytes(value).unwrap();
    headers.try_insert(name, value).is_ok()
}

/// `http::HeaderMap::try_append`: the value comes after those that the name has already.
/// The result is `false`, and nothing changes, if the map cannot hold another name.
#[verifier::external_body]
pub(crate) fn append_header(headers: &mut http::HeaderMap, name: &str, value: &[u8]) -> (appended:
    bool)
    requires
        is_header_name(name@),
        is_header_bytes(value@),
    ensures
        appended ==> header_values(*final(headers)) == header_values(*old(headers)).insert(
            name@,
            all_values(header_values(*old(headers)), name@).push(value@),
        ),
        !appended ==> header_values(*final(headers)) == header_values(*old(headers)),
        has_room(header_values(*old(headers))) ==> appended,
        !appended ==> crate::ambient::may_refuse(header_values(*old(headers))),
{
    let name = http::HeaderName::from_lowercase(name.as_bytes()).unwrap();
    let value = http::HeaderValue::from_bytes(value).unwrap();
    headers.try_append(name, value).is_ok()
}

/// `tonic::metadata::MetadataMap::into_headers`, on a copy: metadata is a header map
/// with the same names and values.
#[verifier::external_body]
pub(crate) fn metadata_to_headers(metadata: &tonic::metadata::MetadataMap) -> (headers:
    http::HeaderMap)
    ensures
        header_values(headers) == metadata_values(*metadata),
{
    metadata.clone().into_headers()
}

/// `tonic::metadata::MetadataMap::from_headers`: the names and values stay the same.
#[verifier::external_body]
pub(crate) fn metadata_from_headers(headers: http::HeaderMap) -> (metadata:
    tonic::metadata::MetadataMap)
    ensures
        metadata_values(metadata) == header_values(headers),
{
    tonic::metadata::MetadataMap::from_headers(headers)
}

/// A character of a header name: anything printable but upper-case letters and the
/// separators of a header.
pub open spec fn is_name_char(c: char) -> bool {
    ||| 'a' <= c <= 'z'
    ||| '0' <= c <= '9'
    ||| c == '!' || c == '"' || c == '#' || c == '$' || c == '%' || c == '&' || c == '\''
    ||| c == '*' || c == '+' || c == '-' || c == '.' || c == '^' || c == '_' || c == '`'
    ||| c == '|' || c == '~'
}

/// A header name, in lower case.
pub open spec fn is_header_name(name: Seq<char>) -> bool {
    &&& 0 < name.len() <= 65535
    &&& forall|i: int| 0 <= i < name.len() ==> is_name_char(#[trigger] name[i])
}

/// A byte that a header value may hold: no control character other than the tab.
pub open spec fn is_header_byte(byte: u8) -> bool {
    byte >= 32 && byte != 127 || byte == 9
}

/// Bytes that can be sent as a header value.
pub open spec fn is_header_bytes(value: Seq<u8>) -> bool {
    forall|i: int| 0 <= i < value.len() ==> is_header_byte(#[trigger] value[i])
}

/// A text that can be sent as a header value.
pub open spec fn is_header_value(text: Seq<char>) -> bool {
    is_header_bytes(vstd::utf8::encode_utf8(text))
}

/// A byte of a header value that can be read as a character: visible ASCII or the tab.
pub open spec fn is_visible(byte: u8) -> bool {
    32 <= byte < 127 || byte == 9
}

/// A header value that can be read as text.
pub open spec fn is_readable(value: Seq<u8>) -> bool {
    forall|i: int| 0 <= i < value.len() ==> is_visible(#[trigger] value[i])
}

/// The text of a readable header value.
pub open spec fn readable_text(value: Seq<u8>) -> Seq<char> {
    Seq::new(value.len(), |i: int| value[i] as char)
}

/// Checks that a text can be sent as a header value.
pub fn can_be_header_value(text: &str) -> (valid: bool)
    ensures
        valid == is_header_value(text@),
{
    let bytes: &[u8] = text.as_bytes();
    let mut i: usize = 0;
    while i < bytes.len()
        invariant
            bytes@ == vstd::utf8::encode_utf8(text@),
            i <= bytes@.len(),
            forall|k: int| 0 <= k < i ==> is_header_byte(#[trigger] bytes@[k]),
        decreases bytes@.len() - i,
    {
        let byte: u8 = bytes[i];
        if !((byte >= 32 && byte != 127) || byte == 9) {
            assert(!is_header_byte(bytes@[i as int]));
            return false;
        }
        i += 1;
    }
    true
}

/// Reads a header value as text, if all its bytes are visible ASCII or tabs.
pub fn header_text(value: &Vec<u8>) -> (text: Option<String>)
    ensures
        text is Some <==> is_readable(value@),
        text matches Some(t) ==> t@ == readable_text(value@),
{
    let mut text: String = String::new();
    let mut i: usize = 0;
    while i < value.len()
        invariant
            i <= value@.len(),
            text@ =~= readable_text(value@.take(i as int)),
            forall|k: int| 0 <= k < i ==> is_visible(#[trigger] value@[k]),
        decreases value@.len() - i,
    {
        let byte: u8 = value[i];
        if !((byte >= 32 && byte < 127) || byte == 9) {
            assert(!is_visible(value@[i as int]));
            return None;
        }
        text.push(byte as char);
        i += 1;
    }
    assert(value@.take(i as int) =~= value@);
    Some(text)
}

/// A readable value, sent as a header again, keeps its bytes.
pub proof fn readable_text_keeps_bytes(value: Seq<u8>)
    requires
        is_readable(value),
    ensures
        vstd::utf8::encode_utf8(readable_text(value)) == value,
        is_header_value(readable_text(value)),
{
    let text = readable_text(value);
    assert forall|i: int| 0 <= i < text.len() implies '\0' <= #[trigger] text[i] <= '\u{7f}' by {
        assert(is_visible(value[i]));
    }
    vstd::utf8::is_ascii_chars_encode_utf8(text);
    assert forall|i: int| 0 <= i < value.len() implies vstd::utf8::encode_utf8(text)[i]
        == #[trigger] value[i] by {
        assert(is_visible(value[i]));
        assert(text[i] as u8 == vstd::utf8::encode_utf8(text)[i]);
    }
    assert(vstd::utf8::encode_utf8(text) =~= value);
    assert forall|i: int| 0 <= i < value.len() implies is_header_byte(#[trigger] value[i]) by {
        assert(is_visible(value[i]));
    }
}

/// Taking one more pair into the list adds its value to its own name only.
pub(crate) proof fn lemma_values_listed_step(
    pairs: Seq<(Seq<char>, Seq<u8>)>,
    i: int,
    name: Seq<char>,
)
    requires
        0 <= i < pairs.len(),
    ensures
        values_listed(pairs.take(i + 1), name) == (if pairs[i].0 == name {
            values_listed(pairs.take(i), name).push(pairs[i].1)
        } else {
            values_listed(pairs.take(i), name)
        }),
{
    assert(pairs.take(i + 1).drop_last() =~= pairs.take(i));
    assert(pairs.take(i + 1).last() == pairs[i]);
}

/// The values listed by the first pairs come first among all values listed.
pub(crate) proof fn lemma_values_listed_prefix(
    pairs: Seq<(Seq<char>, Seq<u8>)>,
    n: int,
    name: Seq<char>,
)
    requires
        0 <= n <= pairs.len(),
    ensures
        values_listed(pairs.take(n), name).is_prefix_of(values_listed(pairs, name)),
    decreases pairs.len() - n,
{
    if n < pairs.len() {
        lemma_values_listed_step(pairs, n, name);
        lemma_values_listed_prefix(pairs, n + 1, name);
    } else {
        assert(pairs.take(n) =~= pairs);
    }
}

/// The values of one name in a list are those of the map that the list makes.
pub(crate) proof fn lemma_values_listed_are_all(pairs: Seq<(Seq<char>, Seq<u8>)>, name: Seq<char>)
    ensures
        all_values(listed_values(pairs), name) == values_listed(pairs, name),
{
    if values_listed(pairs, name).len() == 0 {
        assert(values_listed(pairs, name) =~= Seq::empty());
    }
}

/// Taking one more pair into the list adds its value to the map that the list makes.
proof fn lemma_listed_values_step(pairs: Seq<(Seq<char>, Seq<u8>)>, i: int)
    requires
        0 <= i < pairs.len(),
    ensures
        listed_values(pairs.take(i + 1)) == listed_values(pairs.take(i)).insert(
            pairs[i].0,
            values_listed(pairs.take(i), pairs[i].0).push(pairs[i].1),
        ),
        listed_values(pairs.take(i)).dom().subset_of(listed_values(pairs).dom()),
{
    let after = listed_values(pairs.take(i + 1));
    let inserted = listed_values(pairs.take(i)).insert(
        pairs[i].0,
        values_listed(pairs.take(i), pairs[i].0).push(pairs[i].1),
    );
    assert forall|name: Seq<char>| #[trigger] after.contains_key(name) == inserted.contains_key(
        name,
    ) by {
        lemma_values_listed_step(pairs, i, name);
    }
    assert forall|name: Seq<char>| after.contains_key(name) implies #[trigger] after[name]
        == inserted[name] by {
        lemma_values_listed_step(pairs, i, name);
    }
    assert(after =~= inserted);
    assert forall|name: Seq<char>| #[trigger]
        listed_values(pairs.take(i)).dom().contains(name) implies listed_values(
        pairs,
    ).dom().contains(name) by {
        lemma_values_listed_prefix(pairs, i, name);
    }
}

/// `true` if a name stands among the first pairs of a list.
fn is_listed_before(pairs: &Vec<(String, Vec<u8>)>, end: usize, name: &str) -> (listed: bool)
    requires
        end <= pairs@.len(),
    ensures
        listed == (values_listed(pairs_view(pairs@).take(end as int), name@).len() > 0),
{
    let ghost all = pairs_view(pairs@);
    let mut i: usize = 0;
    while i < end
        invariant
            i <= end <= pairs@.len(),
            all == pairs_view(pairs@),
            values_listed(all.take(i as int), name@).len() == 0,
        decreases end - i,
    {
        proof {
            lemma_values_listed_step(all, i as int, name@);
            assert(all.take(end as int).take(i + 1) =~= all.take(i + 1));
            lemma_values_listed_prefix(all.take(end as int), i + 1, name@);
            assert(all[i as int].0 == pairs@[i as int].0@);
        }
        if same_text(pairs[i].0.as_str(), name) {
            return true;
        }
        i += 1;
    }
    false
}

/// Adds the headers that carry a context to other headers. A name that both have keeps
/// the values of the context only. `None` if the map cannot hold them all, which it can
/// as long as there is room.
pub fn with_context_headers(headers: http::HeaderMap, context: http::HeaderMap) -> (traced: Option<
    http::HeaderMap,
>)
    ensures
        traced matches Some(t) ==> header_values(t) == header_values(headers).union_prefer_right(
            header_values(context),
        ),
        has_room(header_values(headers).union_prefer_right(header_values(context)))
            ==> traced is Some,
        traced is None ==> crate::ambient::is_refused(
            header_values(headers).union_prefer_right(header_values(context)),
        ),
{
    let ghost base = header_values(headers);
    let ghost whole = base.union_prefer_right(header_values(context));
    let pairs: Vec<(String, Vec<u8>)> = list_headers(&context);
    let ghost all = pairs_view(pairs@);
    let mut traced: http::HeaderMap = headers;
    let mut i: usize = 0;
    assert(listed_values(all.take(0)) =~= Map::empty());
    assert(base.union_prefer_right(listed_values(all.take(0))) =~= base);
    while i < pairs.len()
        invariant
            i <= pairs@.len(),
            all == pairs_view(pairs@),
            are_headers(all),
            whole == base.union_prefer_right(listed_values(all)),
            whole == header_values(headers).union_prefer_right(header_values(context)),
            header_values(traced) == base.union_prefer_right(listed_values(all.take(i as int))),
        decreases pairs@.len() - i,
    {
        let pair: &(String, Vec<u8>) = &pairs[i];
        assert(all[i as int] == (pair.0@, pair.1@));
        let ghost before = header_values(traced);
        let ghost part = listed_values(all.take(i as int));
        proof {
            lemma_listed_values_step(all, i as int);
            if has_room(whole) {
                assert(before.dom().subset_of(whole.dom()));
                vstd::set_lib::lemma_len_subset(before.dom(), whole.dom());
            }
        }
        let added: bool = if is_listed_before(&pairs, i, pair.0.as_str()) {
            append_header(&mut traced, pair.0.as_str(), pair.1.as_slice())
        } else {
            assert(values_listed(all.take(i as int), pair.0@) =~= Seq::empty());
            assert(Seq::<Seq<u8>>::empty().push(pair.1@) =~= seq![pair.1@]);
            insert_header(&mut traced, pair.0.as_str(), pair.1.as_slice())
        };
        if !added {
            assert(crate::ambient::may_refuse(before));
            assert(before.dom().subset_of(whole.dom()));
            return None;
        }
        assert(header_values(traced) =~= base.union_prefer_right(
            listed_values(all.take(i + 1)),
        ));
        i += 1;
    }
    assert(all.take(i as int) =~= all);
    Some(traced)
}

/// A header that the context does not set keeps its values; one that it sets has the
/// values of the context only.
pub proof fn context_headers_replace_their_own_names(
    headers: Map<Seq<char>, Seq<Seq<u8>>>,
    context: Map<Seq<char>, Seq<Seq<u8>>>,
    name: Seq<char>,
)
    ensures
        all_values(headers.union_prefer_right(context), name) == (if context.contains_key(name) {
            context[name]
        } else {
            all_values(headers, name)
        }),
{
}

/// A map with fewer than six thousand names has room.
pub proof fn small_maps_have_room(values: Map<Seq<char>, Seq<Seq<u8>>>)
    requires
        values.dom().finite(),
        values.dom().len() < 6000,
    ensures
        has_room(values),
{
}

/// A header value may hold any byte but the control characters other than the tab. Those
/// below 128 are the ones that can be read.
pub proof fn header_bytes_are_not_controls(byte: u8)
    ensures
        !is_header_byte(byte) <==> (byte <= 8 || 10 <= byte <= 31 || byte == 127),
        is_visible(byte) <==> is_header_byte(byte) && byte <= 127,
{
}

/// What can be read as text is a header value, and its text has a character for each byte.
pub proof fn readable_values_are_read_byte_by_byte(value: Seq<u8>, i: int)
    requires
        0 <= i < value.len(),
    ensures
        is_readable(value) ==> is_header_bytes(value),
        readable_text(value).len() == value.len(),
        readable_text(value)[i] as u32 == value[i] as u32,
{
    if is_readable(value) {
        assert forall|k: int| 0 <= k < value.len() implies is_header_byte(#[trigger] value[k]) by {
            assert(is_visible(value[k]));
        }
    }
}

/// One bad byte is enough to make bytes unreadable, or unfit for a header value.
pub proof fn one_bad_byte_spoils_a_value(value: Seq<u8>, i: int)
    requires
        0 <= i < value.len(),
    ensures
        !is_visible(value[i]) ==> !is_readable(value),
        !is_header_byte(value[i]) ==> !is_header_bytes(value),
        is_readable(value) <==> is_visible(value[i]) && is_readable(value.take(i)) && is_readable(
            value.skip(i + 1),
        ),
        is_header_bytes(value) <==> is_header_byte(value[i]) && is_header_bytes(value.take(i))
            && is_header_bytes(value.skip(i + 1)),
{
    if is_readable(value.take(i)) && is_readable(value.skip(i + 1)) && is_visible(value[i]) {
        assert forall|k: int| 0 <= k < value.len() implies is_visible(#[trigger] value[k]) by {
            if k < i {
                assert(value.take(i)[k] == value[k]);
            } else if k > i {
                assert(value.skip(i + 1)[k - i - 1] == value[k]);
            }
        }
    }
    if is_header_bytes(value.take(i)) && is_header_bytes(value.skip(i + 1)) && is_header_byte(
        value[i],
    ) {
        assert forall|k: int| 0 <= k < value.len() implies is_header_byte(#[trigger] value[k]) by {
            if k < i {
                assert(value.take(i)[k] == value[k]);
            } else if k > i {
                assert(value.skip(i + 1)[k - i - 1] == value[k]);
            }
        }
    }
}

/// The values of a name are what the map has for it, and none where it has nothing.
pub proof fn values_are_looked_up(
    values: Map<Seq<char>, Seq<Seq<u8>>>,
    name: Seq<char>,
    other: Seq<char>,
    given: Seq<Seq<u8>>,
)
    ensures
        all_values(no_values(), name).len() == 0,
        all_values(values.insert(name, given), name) == given,
        all_values(values.remove(name), name).len() == 0,
        other != name ==> all_values(values.insert(name, given), other) == all_values(values, other),
{
}

} // verus!
