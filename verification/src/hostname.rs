//! Hostname validation according to [IETF RFC 1123](https://tools.ietf.org/html/rfc1123).

use vstd::prelude::*;

verus! {

/// The longest hostname.
pub const MAX_HOSTNAME_LEN: usize = 253;

/// The longest label of a hostname.
pub const MAX_LABEL_LEN: usize = 63;

/// A letter or digit of the ASCII range, `-` or `.`.
pub open spec fn is_hostname_char(c: char) -> bool {
    ||| 'a' <= c <= 'z'
    ||| 'A' <= c <= 'Z'
    ||| '0' <= c <= '9'
    ||| c == '-'
    ||| c == '.'
}

/// `hostname[from..to]` is one of the pieces that the dots of the hostname separate.
pub open spec fn is_label(hostname: Seq<char>, from: int, to: int) -> bool {
    &&& 0 <= from <= to <= hostname.len()
    &&& from == 0 || hostname[from - 1] == '.'
    &&& to == hostname.len() || hostname[to] == '.'
    &&& forall|i: int| from <= i < to ==> hostname[i] != '.'
}

/// The piece `hostname[from..to]` is neither empty nor too long, and has no `-` at
/// either end.
pub open spec fn is_valid_label(hostname: Seq<char>, from: int, to: int) -> bool {
    &&& from < to
    &&& to - from <= MAX_LABEL_LEN
    &&& hostname[from] != '-'
    &&& hostname[to - 1] != '-'
}

/// What makes a hostname valid.
pub open spec fn valid_hostname(hostname: Seq<char>) -> bool {
    &&& 0 < hostname.len() <= MAX_HOSTNAME_LEN
    &&& forall|i: int| 0 <= i < hostname.len() ==> is_hostname_char(#[trigger] hostname[i])
    &&& forall|from: int, to: int| #[trigger]
        is_label(hostname, from, to) ==> is_valid_label(hostname, from, to)
}

fn is_valid_char(byte: u8) -> (valid: bool)
    requires
        byte < 128,
    ensures
        valid == is_hostname_char(byte as char),
{
    (97 <= byte && byte <= 122) || (65 <= byte && byte <= 90) || (48 <= byte && byte <= 57) || byte
        == 45 || byte == 46
}

/// Checks the label `bytes[from..to]`.
fn is_label_ok(bytes: &[u8], from: usize, to: usize) -> (ok: bool)
    requires
        from <= to <= bytes@.len(),
    ensures
        ok == (from < to && to - from <= MAX_LABEL_LEN && bytes@[from as int] != 45 && bytes@[to
            - 1] != 45),
{
    from < to && to - from <= MAX_LABEL_LEN && bytes[from] != 45 && bytes[to - 1] != 45
}

/// Returns `true` if hostname is valid according to [IETF RFC 1123](https://tools.ietf.org/html/rfc1123).
///
/// Conditions:
/// - It does not start or end with `-` or `.`.
/// - It does not contain any characters outside of the alphanumeric range, except for `-` and `.`.
/// - It is not empty.
/// - It is 253 or fewer characters.
/// - Its labels (characters separated by `.`) are not empty.
/// - Its labels are 63 or fewer characters.
/// - Its labels do not start or end with '-' or '.'.
pub fn is_valid_hostname(hostname: &str) -> (valid: bool)
    ensures
        valid == valid_hostname(hostname@),
{
    broadcast use vstd::string::is_ascii_spec_bytes;

    let ghost text = hostname@;
    if !hostname.is_ascii() {
        proof {
            if valid_hostname(text) {
                assert forall|i: int| 0 <= i < text.len() implies '\0' <= #[trigger] text[i]
                    <= '\u{7f}' by {
                    assert(is_hostname_char(text[i]));
                }
                assert(vstd::utf8::is_ascii_chars(text));
            }
        }
        return false;
    }
    let bytes: &[u8] = hostname.as_bytes();
    assert(bytes@ =~= Seq::new(text.len(), |i: int| text[i] as u8));
    assert forall|i: int| 0 <= i < text.len() implies (#[trigger] text[i]) as u32 <= 127
        && bytes@[i] as char == text[i] by {}
    let len: usize = bytes.len();
    if len == 0 || len > MAX_HOSTNAME_LEN {
        return false;
    }
    let mut start: usize = 0;
    let mut i: usize = 0;
    while i < len
        invariant
            text == hostname@,
            len == bytes@.len() == text.len(),
            0 < len <= MAX_HOSTNAME_LEN,
            forall|k: int|
                0 <= k < len ==> (#[trigger] text[k]) as u32 <= 127 && bytes@[k] as char == text[k],
            start <= i <= len,
            start == 0 || text[start - 1] == '.',
            forall|k: int| start <= k < i ==> text[k] != '.',
            forall|k: int| 0 <= k < i ==> is_hostname_char(#[trigger] text[k]),
            forall|from: int, to: int| #[trigger]
                is_label(text, from, to) && to < start ==> is_valid_label(text, from, to),
        decreases len - i,
    {
        let byte: u8 = bytes[i];
        assert(text[i as int] as u32 <= 127);
        if !is_valid_char(byte) {
            assert(!is_hostname_char(text[i as int]));
            return false;
        }
        if byte == 46 {
            if !is_label_ok(bytes, start, i) {
                assert(is_label(text, start as int, i as int));
                assert(start < i ==> text[start as int] as u32 <= 127 && text[i - 1] as u32 <= 127);
                return false;
            }
            proof {
                assert(text[start as int] as u32 <= 127 && text[i - 1] as u32 <= 127);
                assert forall|from: int, to: int| #[trigger]
                    is_label(text, from, to) && to < i + 1 implies is_valid_label(
                    text,
                    from,
                    to,
                ) by {
                    if to >= start {
                        lemma_label_before_dot(text, start as int, i as int, from, to);
                    }
                }
            }
            start = i + 1;
        }
        i += 1;
    }
    let ok: bool = is_label_ok(bytes, start, len);
    proof {
        assert(is_label(text, start as int, len as int));
        if start < len {
            assert(text[start as int] as u32 <= 127 && text[len - 1] as u32 <= 127);
        }
        assert forall|from: int, to: int| #[trigger] is_label(text, from, to) && to
            >= start implies from == start && to == len by {
            lemma_label_before_dot(text, start as int, len as int, from, to);
        }
    }
    ok
}

/// Between a label's start and the dot (or end) that closes it, no other label ends.
proof fn lemma_label_before_dot(text: Seq<char>, start: int, dot: int, from: int, to: int)
    requires
        is_label(text, start, dot),
        is_label(text, from, to),
        start <= to <= dot,
    ensures
        from == start,
        to == dot,
{
    if to < dot {
        assert(text[to] == '.');
    }
    if from < start {
        assert(text[start - 1] == '.');
    } else if from > start {
        assert(text[from - 1] == '.');
    }
}

/// The label of a text that holds the position `at`.
proof fn lemma_label_around(text: Seq<char>, at: int) -> (bounds: (int, int))
    requires
        0 <= at <= text.len(),
    ensures
        is_label(text, bounds.0, bounds.1),
        bounds.0 <= at <= bounds.1,
{
    let from = lemma_label_start(text, at);
    let to = lemma_label_end(text, at);
    (from, to)
}

proof fn lemma_label_start(text: Seq<char>, at: int) -> (from: int)
    requires
        0 <= at <= text.len(),
    ensures
        0 <= from <= at,
        from == 0 || text[from - 1] == '.',
        forall|i: int| from <= i < at ==> text[i] != '.',
    decreases at,
{
    if at == 0 || text[at - 1] == '.' {
        at
    } else {
        lemma_label_start(text, at - 1)
    }
}

proof fn lemma_label_end(text: Seq<char>, at: int) -> (to: int)
    requires
        0 <= at <= text.len(),
    ensures
        at <= to <= text.len(),
        to == text.len() || text[to] == '.',
        forall|i: int| at <= i < to ==> text[i] != '.',
    decreases text.len() - at,
{
    if at == text.len() || text[at] == '.' {
        at
    } else {
        lemma_label_end(text, at + 1)
    }
}

/// A valid hostname does not start or end with `-` or `.`.
pub proof fn valid_hostname_ends(hostname: Seq<char>)
    requires
        valid_hostname(hostname),
    ensures
        hostname.first() != '-',
        hostname.first() != '.',
        hostname.last() != '-',
        hostname.last() != '.',
{
    let first = lemma_label_around(hostname, 0);
    let last = lemma_label_around(hostname, hostname.len() as int);
    assert(is_valid_label(hostname, first.0, first.1));
    assert(is_valid_label(hostname, last.0, last.1));
    assert(hostname[first.0] != '.');
    assert(hostname[last.1 - 1] != '.');
}

/// No two dots of a valid hostname stand side by side.
pub proof fn valid_hostname_has_no_empty_label(hostname: Seq<char>, i: int)
    requires
        valid_hostname(hostname),
        0 <= i < hostname.len() - 1,
    ensures
        !(hostname[i] == '.' && hostname[i + 1] == '.'),
{
    if hostname[i] == '.' && hostname[i + 1] == '.' {
        assert(is_label(hostname, i + 1, i + 1));
    }
}

/// Every label of a valid hostname is a valid hostname by itself.
pub proof fn label_of_valid_hostname_is_valid(hostname: Seq<char>, from: int, to: int)
    requires
        valid_hostname(hostname),
        is_label(hostname, from, to),
    ensures
        valid_hostname(hostname.subrange(from, to)),
{
    let label = hostname.subrange(from, to);
    assert(is_valid_label(hostname, from, to));
    assert forall|i: int| 0 <= i < label.len() implies is_hostname_char(#[trigger] label[i]) by {
        assert(label[i] == hostname[from + i]);
    }
    assert forall|f: int, t: int| #[trigger] is_label(label, f, t) implies is_valid_label(
        label,
        f,
        t,
    ) by {
        if f > 0 {
            assert(label[f - 1] == hostname[from + f - 1]);
        }
        if t < label.len() {
            assert(label[t] == hostname[from + t]);
        }
        assert(f == 0 && t == label.len());
    }
}

/// Two valid hostnames joined by a dot make a valid hostname, as long as the whole is
/// not too long.
pub proof fn valid_hostnames_join(left: Seq<char>, right: Seq<char>)
    requires
        valid_hostname(left),
        valid_hostname(right),
        left.len() + 1 + right.len() <= MAX_HOSTNAME_LEN,
    ensures
        valid_hostname(left.push('.') + right),
{
    let whole = left.push('.') + right;
    let n = left.len() as int;
    assert forall|i: int| 0 <= i < whole.len() implies is_hostname_char(#[trigger] whole[i]) by {
        if i < n {
            assert(whole[i] == left[i]);
        } else if i > n {
            assert(whole[i] == right[i - n - 1]);
        }
    }
    assert(whole[n] == '.');
    assert forall|from: int, to: int| #[trigger] is_label(whole, from, to) implies is_valid_label(
        whole,
        from,
        to,
    ) by {
        if to <= n {
            assert forall|i: int| from <= i < to implies left[i] != '.' by {
                assert(whole[i] == left[i]);
            }
            if from > 0 {
                assert(whole[from - 1] == left[from - 1]);
            }
            if to < n {
                assert(whole[to] == left[to]);
            }
            assert(is_label(left, from, to));
            assert(whole[from] == left[from] && whole[to - 1] == left[to - 1]);
        } else {
            assert(from > n);
            let f = from - n - 1;
            let t = to - n - 1;
            assert forall|i: int| f <= i < t implies right[i] != '.' by {
                assert(whole[i + n + 1] == right[i]);
            }
            if f > 0 {
                assert(whole[from - 1] == right[f - 1]);
            }
            if t < right.len() {
                assert(whole[to] == right[t]);
            }
            assert(is_label(right, f, t));
            assert(whole[from] == right[f] && whole[to - 1] == right[t - 1]);
        }
    }
}

/// A text without a dot is a valid hostname exactly where it has 1 to 63 characters, all of
/// them letters and digits of ASCII or hyphens, and no hyphen at either end.
pub proof fn single_labels_are_valid(label: Seq<char>)
    requires
        forall|i: int| 0 <= i < label.len() ==> label[i] != '.',
    ensures
        valid_hostname(label) <==> {
            &&& 1 <= label.len() <= 63
            &&& label.first() != '-'
            &&& label.last() != '-'
            &&& forall|i: int|
                0 <= i < label.len() ==> ('a' <= #[trigger] label[i] <= 'z' || 'A' <= label[i]
                    <= 'Z' || '0' <= label[i] <= '9' || label[i] == '-')
        },
{
    assert(is_label(label, 0, label.len() as int));
    if valid_hostname(label) {
        assert(is_valid_label(label, 0, label.len() as int));
        assert forall|i: int| 0 <= i < label.len() implies ('a' <= #[trigger] label[i] <= 'z'
            || 'A' <= label[i] <= 'Z' || '0' <= label[i] <= '9' || label[i] == '-') by {
            assert(is_hostname_char(label[i]));
        }
    }
    if 1 <= label.len() <= 63 && label.first() != '-' && label.last() != '-' && (forall|i: int|
        0 <= i < label.len() ==> ('a' <= #[trigger] label[i] <= 'z' || 'A' <= label[i] <= 'Z'
            || '0' <= label[i] <= '9' || label[i] == '-')) {
        assert forall|from: int, to: int| #[trigger] is_label(label, from, to) implies
            is_valid_label(label, from, to) by {
            if from > 0 {
                assert(label[from - 1] == '.');
            }
            if to < label.len() {
                assert(label[to] == '.');
            }
        }
    }
}

/// A text that a dot divides is a valid hostname exactly where both parts are, and the whole
/// has at most 253 characters.
pub proof fn hostnames_are_valid_part_by_part(left: Seq<char>, right: Seq<char>)
    ensures
        valid_hostname(left.push('.') + right) <==> valid_hostname(left) && valid_hostname(right)
            && left.len() + 1 + right.len() <= 253,
{
    let whole = left.push('.') + right;
    let n = left.len() as int;
    if valid_hostname(left) && valid_hostname(right) && left.len() + 1 + right.len() <= 253 {
        valid_hostnames_join(left, right);
    }
    if valid_hostname(whole) {
        assert(whole[n] == '.');
        assert forall|i: int| 0 <= i < left.len() implies is_hostname_char(#[trigger] left[i]) by {
            assert(whole[i] == left[i]);
        }
        assert forall|i: int| 0 <= i < right.len() implies is_hostname_char(#[trigger] right[i]) by {
            assert(whole[n + 1 + i] == right[i]);
        }
        assert forall|from: int, to: int| #[trigger] is_label(left, from, to) implies
            is_valid_label(left, from, to) by {
            assert forall|i: int| from <= i < to implies whole[i] != '.' by {
                assert(whole[i] == left[i]);
            }
            if from > 0 {
                assert(whole[from - 1] == left[from - 1]);
            }
            if to < left.len() {
                assert(whole[to] == left[to]);
            }
            assert(is_label(whole, from, to));
            assert(is_valid_label(whole, from, to));
            assert(whole[from] == left[from] && whole[to - 1] == left[to - 1]);
        }
        assert forall|from: int, to: int| #[trigger] is_label(right, from, to) implies
            is_valid_label(right, from, to) by {
            let f = from + n + 1;
            let t = to + n + 1;
            assert forall|i: int| f <= i < t implies whole[i] != '.' by {
                assert(whole[i] == right[i - n - 1]);
            }
            if from > 0 {
                assert(whole[f - 1] == right[from - 1]);
            } else {
                assert(whole[f - 1] == '.');
            }
            if to < right.len() {
                assert(whole[t] == right[to]);
            }
            assert(is_label(whole, f, t));
            assert(is_valid_label(whole, f, t));
            assert(whole[f] == right[from] && whole[t - 1] == right[to - 1]);
        }
        if left.len() == 0 {
            assert(is_label(whole, 0, 0));
            assert(is_valid_label(whole, 0, 0));
        }
        if right.len() == 0 {
            assert(is_label(whole, n + 1, n + 1));
            assert(is_valid_label(whole, n + 1, n + 1));
        }
    }
}

} // verus!
