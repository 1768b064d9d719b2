//! Keeping credentials out of what the daemon records: metadata values and
//! URL query parameters whose names suggest a credential are replaced by
//! `<redacted>`.

use vstd::prelude::*;
use crate::text::{chars_of, string_of_chars};
use crate::json::{JsonValue, JsonTree, json_trees, json_members, lemma_json_trees, lemma_json_members};

verus! {

/// The lower-case form of an ASCII letter; other characters unchanged.
pub open spec fn ascii_lower_char(c: char) -> char {
    if 'A' <= c && c <= 'Z' {
        ((c as u32) + 32) as char
    } else {
        c
    }
}

/// A text with its ASCII letters in lower case.
pub open spec fn ascii_lower(s: Seq<char>) -> Seq<char> {
    s.map_values(|c: char| ascii_lower_char(c))
}

/// Whether `needle` occurs in `hay` as a contiguous run.
pub open spec fn contains_text(hay: Seq<char>, needle: Seq<char>) -> bool {
    exists|i: int| 0 <= i && i + needle.len() <= hay.len() && #[trigger] hay.subrange(i, i + needle.len()) == needle
}

/// Whether a name suggests that its value is a credential.
pub open spec fn credential_bearing(name: Seq<char>) -> bool {
    let l = ascii_lower(name);
    ||| contains_text(l, "authorization"@)
    ||| contains_text(l, "api_key"@)
    ||| contains_text(l, "apikey"@)
    ||| contains_text(l, "bearer"@)
    ||| contains_text(l, "credential"@)
    ||| contains_text(l, "password"@)
    ||| contains_text(l, "secret"@)
    ||| contains_text(l, "token"@)
}

/// A metadata value as recorded.
pub open spec fn redacted_metadata(v: Seq<char>) -> Seq<char> {
    if credential_bearing(v) { "<redacted>"@ } else { v }
}

/// One `key=value` query pair as recorded.
pub open spec fn redacted_pair(pair: Seq<char>) -> Seq<char> {
    match pair.index_of_first('=') {
        Some(i) => if credential_bearing(pair.take(i)) { pair.take(i) + "=<redacted>"@ } else { pair },
        None => pair,
    }
}

/// A `&`-separated query as recorded: each pair redacted on its own.
pub open spec fn redacted_query(q: Seq<char>) -> Seq<char>
    decreases q.len(),
{
    match q.index_of_first('&') {
        Some(i) => if 0 <= i < q.len() {
            redacted_pair(q.take(i)) + "&"@ + redacted_query(q.skip(i + 1))
        } else {
            q
        },
        None => redacted_pair(q),
    }
}

/// A URL as recorded: the part before the first `?` as is, the query redacted.
pub open spec fn redacted_url(u: Seq<char>) -> Seq<char> {
    match u.index_of_first('?') {
        Some(i) => u.take(i) + "?"@ + redacted_query(u.skip(i + 1)),
        None => u,
    }
}

/// A JSON tree as recorded: every object member whose key suggests a
/// credential has its value replaced by the text `<redacted>`, at any depth.
pub open spec fn redacted_tree(t: JsonTree) -> JsonTree
    decreases t,
{
    match t {
        JsonTree::Array(items) => JsonTree::Array(redacted_trees(items)),
        JsonTree::Object(members) => JsonTree::Object(redacted_members(members)),
        _ => t,
    }
}

pub open spec fn redacted_trees(s: Seq<JsonTree>) -> Seq<JsonTree>
    decreases s,
{
    if s.len() == 0 {
        Seq::empty()
    } else {
        redacted_trees(s.drop_last()).push(redacted_tree(s.last()))
    }
}

pub open spec fn redacted_members(s: Seq<(Seq<char>, JsonTree)>) -> Seq<(Seq<char>, JsonTree)>
    decreases s,
{
    if s.len() == 0 {
        Seq::empty()
    } else {
        proof {
            assert(decreases_to!(s => s.last()));
        }
        let m = s.last();
        redacted_members(s.drop_last()).push(
            if credential_bearing(m.0) {
                (m.0, JsonTree::Text("<redacted>"@))
            } else {
                (m.0, redacted_tree(m.1))
            },
        )
    }
}

/// One member as recorded.
pub open spec fn redacted_member(m: (Seq<char>, JsonTree)) -> (Seq<char>, JsonTree) {
    if credential_bearing(m.0) {
        (m.0, JsonTree::Text("<redacted>"@))
    } else {
        (m.0, redacted_tree(m.1))
    }
}

proof fn lemma_redacted_trees(s: Seq<JsonTree>)
    ensures
        redacted_trees(s).len() == s.len(),
        forall|i: int| 0 <= i < s.len() ==> #[trigger] redacted_trees(s)[i] == redacted_tree(s[i]),
    decreases s.len(),
{
    if s.len() > 0 {
        lemma_redacted_trees(s.drop_last());
    }
}

proof fn lemma_redacted_members(s: Seq<(Seq<char>, JsonTree)>)
    ensures
        redacted_members(s).len() == s.len(),
        forall|i: int| 0 <= i < s.len() ==> #[trigger] redacted_members(s)[i] == redacted_member(s[i]),
    decreases s.len(),
{
    if s.len() > 0 {
        lemma_redacted_members(s.drop_last());
    }
}

/// Whether no credential is visible anywhere in a tree: each member whose key
/// suggests a credential holds the text `<redacted>`.
pub open spec fn credentials_hidden(t: JsonTree) -> bool
    decreases t,
{
    match t {
        JsonTree::Array(items) => all_hidden(items),
        JsonTree::Object(members) => members_hidden(members),
        _ => true,
    }
}

pub open spec fn all_hidden(s: Seq<JsonTree>) -> bool
    decreases s,
{
    if s.len() == 0 {
        true
    } else {
        all_hidden(s.drop_last()) && credentials_hidden(s.last())
    }
}

pub open spec fn members_hidden(s: Seq<(Seq<char>, JsonTree)>) -> bool
    decreases s,
{
    if s.len() == 0 {
        true
    } else {
        proof {
            assert(decreases_to!(s => s.last()));
        }
        let m = s.last();
        members_hidden(s.drop_last()) && if credential_bearing(m.0) {
            m.1 == JsonTree::Text("<redacted>"@)
        } else {
            credentials_hidden(m.1)
        }
    }
}

/// One member shows no credential.
pub open spec fn member_hidden(m: (Seq<char>, JsonTree)) -> bool {
    if credential_bearing(m.0) {
        m.1 == JsonTree::Text("<redacted>"@)
    } else {
        credentials_hidden(m.1)
    }
}

proof fn lemma_all_hidden(s: Seq<JsonTree>)
    requires
        forall|i: int| 0 <= i < s.len() ==> #[trigger] credentials_hidden(s[i]),
    ensures
        all_hidden(s),
    decreases s.len(),
{
    if s.len() > 0 {
        lemma_all_hidden(s.drop_last());
        assert(credentials_hidden(s[s.len() - 1]));
    }
}

proof fn lemma_members_hidden(s: Seq<(Seq<char>, JsonTree)>)
    requires
        forall|i: int| 0 <= i < s.len() ==> #[trigger] member_hidden(s[i]),
    ensures
        members_hidden(s),
    decreases s.len(),
{
    if s.len() > 0 {
        lemma_members_hidden(s.drop_last());
        assert(member_hidden(s[s.len() - 1]));
    }
}

/// Redaction leaves no credential visible, at any depth.
pub proof fn law_redaction_hides_credentials(t: JsonTree)
    ensures
        credentials_hidden(redacted_tree(t)),
    decreases t,
{
    match t {
        JsonTree::Array(items) => {
            lemma_redacted_trees(items);
            assert forall|i: int| 0 <= i < redacted_trees(items).len() implies #[trigger] credentials_hidden(redacted_trees(items)[i]) by {
                law_redaction_hides_credentials(items[i]);
            }
            lemma_all_hidden(redacted_trees(items));
        },
        JsonTree::Object(members) => {
            lemma_redacted_members(members);
            assert forall|i: int| 0 <= i < redacted_members(members).len() implies #[trigger] member_hidden(redacted_members(members)[i]) by {
                assert(decreases_to!(members => members[i]));
                law_redaction_hides_credentials(members[i].1);
            }
            lemma_members_hidden(redacted_members(members));
        },
        _ => {},
    }
}

/// Redacting what was already redacted changes nothing.
pub proof fn law_redaction_idempotent(t: JsonTree)
    ensures
        redacted_tree(redacted_tree(t)) == redacted_tree(t),
    decreases t,
{
    match t {
        JsonTree::Array(items) => {
            lemma_redacted_trees(items);
            lemma_redacted_trees(redacted_trees(items));
            assert forall|i: int| 0 <= i < items.len() implies #[trigger] redacted_trees(redacted_trees(items))[i]
                == redacted_trees(items)[i] by {
                law_redaction_idempotent(items[i]);
            }
            assert(redacted_trees(redacted_trees(items)) =~= redacted_trees(items));
        },
        JsonTree::Object(members) => {
            lemma_redacted_members(members);
            lemma_redacted_members(redacted_members(members));
            assert forall|i: int| 0 <= i < members.len() implies #[trigger] redacted_members(redacted_members(members))[i]
                == redacted_members(members)[i] by {
                assert(decreases_to!(members => members[i]));
                law_redaction_idempotent(members[i].1);
            }
            assert(redacted_members(redacted_members(members)) =~= redacted_members(members));
        },
        _ => {},
    }
}

/// Whether a `key=value` pair shows no value under a credential-looking key.
pub open spec fn pair_hidden(pair: Seq<char>) -> bool {
    match pair.index_of_first('=') {
        Some(i) => credential_bearing(pair.take(i)) ==> pair.skip(i + 1) == "<redacted>"@,
        None => true,
    }
}

/// Whether no pair of a `&`-separated query shows a value under a
/// credential-looking key.
pub open spec fn query_hidden(q: Seq<char>) -> bool
    decreases q.len(),
{
    match q.index_of_first('&') {
        Some(i) => if 0 <= i < q.len() {
            pair_hidden(q.take(i)) && query_hidden(q.skip(i + 1))
        } else {
            true
        },
        None => pair_hidden(q),
    }
}

/// The first occurrence of `c` in `s` is at `i` when `s[i]` is `c` and no
/// earlier element is.
proof fn lemma_first_at(s: Seq<char>, c: char, i: int)
    requires
        0 <= i < s.len(),
        s[i] == c,
        forall|j: int| 0 <= j < i ==> s[j] != c,
    ensures
        s.index_of_first(c) == Some(i),
{
    s.index_of_first_ensures(c);
    assert(s.contains(c));
    let k = s.index_of_first(c)->0;
    if k < i {
        assert(s[k] != c);
    }
    if k > i {
        assert(s[i] != c);
    }
}

/// `c` does not occur in `s` when no element is `c`.
proof fn lemma_absent(s: Seq<char>, c: char)
    requires
        forall|j: int| 0 <= j < s.len() ==> s[j] != c,
    ensures
        s.index_of_first(c) is None,
{
    s.index_of_first_ensures(c);
    if s.contains(c) {
        let k = choose|k: int| 0 <= k < s.len() && s[k] == c;
        assert(s[k] == c);
    }
}

/// What is known of the first occurrence of `c`.
proof fn lemma_first_facts(s: Seq<char>, c: char)
    ensures
        s.index_of_first(c) matches Some(i) ==> 0 <= i < s.len() && s[i] == c
            && (forall|j: int| 0 <= j < i ==> s[j] != c),
        s.index_of_first(c) is None ==> forall|j: int| 0 <= j < s.len() ==> s[j] != c,
{
    s.index_of_first_ensures(c);
    if s.index_of_first(c) is None {
        assert forall|j: int| 0 <= j < s.len() implies s[j] != c by {
            if s[j] == c {
                assert(s.contains(c));
            }
        }
    }
}

/// A redacted pair holds a `&` only where the pair did, and shows no
/// credential.
proof fn lemma_redacted_pair(pair: Seq<char>)
    requires
        forall|j: int| 0 <= j < pair.len() ==> pair[j] != '&',
    ensures
        forall|j: int| 0 <= j < redacted_pair(pair).len() ==> redacted_pair(pair)[j] != '&',
        pair_hidden(redacted_pair(pair)),
{
    reveal_strlit("=<redacted>");
    reveal_strlit("<redacted>");
    lemma_first_facts(pair, '=');
    match pair.index_of_first('=') {
        Some(i) => {
            if credential_bearing(pair.take(i)) {
                let r = pair.take(i) + "=<redacted>"@;
                assert(r[i] == '=');
                assert forall|j: int| 0 <= j < i implies r[j] != '=' by {
                    assert(r[j] == pair[j]);
                }
                lemma_first_at(r, '=', i);
                assert(r.take(i) =~= pair.take(i));
                assert(r.skip(i + 1) =~= "<redacted>"@);
                assert forall|j: int| 0 <= j < r.len() implies r[j] != '&' by {
                    if j < i {
                        assert(r[j] == pair[j]);
                    }
                }
            }
        },
        None => {},
    }
}

/// A redacted query shows no value under a credential-looking key.
pub proof fn law_query_redaction_hides_credentials(q: Seq<char>)
    ensures
        query_hidden(redacted_query(q)),
    decreases q.len(),
{
    reveal_strlit("&");
    lemma_first_facts(q, '&');
    match q.index_of_first('&') {
        Some(i) => {
            let head = q.take(i);
            assert forall|j: int| 0 <= j < head.len() implies head[j] != '&' by {
                assert(head[j] == q[j]);
            }
            lemma_redacted_pair(head);
            law_query_redaction_hides_credentials(q.skip(i + 1));
            let a = redacted_pair(head);
            let rest = redacted_query(q.skip(i + 1));
            let r = a + "&"@ + rest;
            assert(r[a.len() as int] == '&');
            assert forall|j: int| 0 <= j < a.len() implies r[j] != '&' by {
                assert(r[j] == a[j]);
            }
            lemma_first_at(r, '&', a.len() as int);
            assert(r.take(a.len() as int) =~= a);
            assert(r.skip(a.len() as int + 1) =~= rest);
        },
        None => {
            lemma_redacted_pair(q);
            lemma_absent(redacted_pair(q), '&');
        },
    }
}

/// A redacted URL keeps everything before its first `?`, and its query shows
/// no value under a credential-looking key.
pub proof fn law_url_redaction_hides_credentials(u: Seq<char>)
    ensures
        u.index_of_first('?') matches Some(i) ==> redacted_url(u).take(i) == u.take(i)
            && redacted_url(u).index_of_first('?') == Some(i)
            && query_hidden(redacted_url(u).skip(i + 1)),
        u.index_of_first('?') is None ==> redacted_url(u) == u,
{
    reveal_strlit("?");
    lemma_first_facts(u, '?');
    if let Some(i) = u.index_of_first('?') {
        let rest = redacted_query(u.skip(i + 1));
        let r = u.take(i) + "?"@ + rest;
        assert(r[i] == '?');
        assert forall|j: int| 0 <= j < i implies r[j] != '?' by {
            assert(r[j] == u[j]);
        }
        lemma_first_at(r, '?', i);
        assert(r.take(i) =~= u.take(i));
        assert(r.skip(i + 1) =~= rest);
        law_query_redaction_hides_credentials(u.skip(i + 1));
    }
}

/// The index of the first `c` in `cs` at or after `from`.
fn find_char(cs: &Vec<char>, from: usize, c: char) -> (r: Option<usize>)
    requires
        from <= cs.len(),
    ensures
        match r {
            Some(k) => from <= k < cs.len() && cs@[k as int] == c
                && cs@.skip(from as int).index_of_first(c) == Some(k - from),
            None => cs@.skip(from as int).index_of_first(c) is None,
        },
{
    let mut i = from;
    while i < cs.len()
        invariant
            from <= i <= cs.len(),
            forall|j: int| from <= j < i ==> cs@[j] != c,
        decreases cs.len() - i,
    {
        if cs[i] == c {
            proof {
                let s = cs@.skip(from as int);
                s.index_of_first_ensures(c);
                assert(s[i - from] == c);
                assert(s.contains(c));
                let k = s.index_of_first(c)->0;
                assert(s[k] == cs@[from + k]);
                if k < i - from {
                    assert(cs@[from + k] != c);
                }
                if k > i - from {
                    assert(s[i - from] != c);
                }
            }
            return Some(i);
        }
        i = i + 1;
    }
    proof {
        let s = cs@.skip(from as int);
        s.index_of_first_ensures(c);
        if s.contains(c) {
            let k = choose|k: int| 0 <= k < s.len() && s[k] == c;
            assert(s[k] == cs@[from + k]);
        }
    }
    None
}

/// The text with its ASCII letters in lower case.
fn lower_chars(cs: &Vec<char>) -> (out: Vec<char>)
    ensures
        out@ == ascii_lower(cs@),
{
    let mut out: Vec<char> = Vec::new();
    let mut i: usize = 0;
    while i < cs.len()
        invariant
            i <= cs.len(),
            out@ == ascii_lower(cs@).take(i as int),
        decreases cs.len() - i,
    {
        let c = cs[i];
        let l = if 'A' <= c && c <= 'Z' { ((c as u8) + 32u8) as char } else { c };
        proof {
            if 'A' <= c && c <= 'Z' {
                assert((c as u8) as u32 == c as u32);
                assert(((c as u8) + 32u8) as u32 == (c as u32) + 32);
            }
            assert(l == ascii_lower_char(c));
        }
        out.push(l);
        proof {
            assert(out@ =~= ascii_lower(cs@).take(i + 1));
        }
        i = i + 1;
    }
    proof {
        assert(ascii_lower(cs@).take(cs.len() as int) =~= ascii_lower(cs@));
    }
    out
}

/// Whether `needle` occurs in `hay`.
fn contains_chars(hay: &Vec<char>, needle: &str) -> (r: bool)
    ensures
        r == contains_text(hay@, needle@),
{
    let nd = chars_of(needle);
    if nd.len() > hay.len() {
        return false;
    }
    let last = hay.len() - nd.len();
    let mut i: usize = 0;
    while i <= last
        invariant
            nd@ == needle@,
            last == hay.len() - nd.len(),
            nd.len() <= hay.len(),
            i <= last + 1,
            forall|k: int| 0 <= k < i ==> #[trigger] hay@.subrange(k, k + nd.len()) != nd@,
        decreases last + 1 - i,
    {
        let mut j: usize = 0;
        let mut same = true;
        while j < nd.len()
            invariant
                i <= last,
                last == hay.len() - nd.len(),
                j <= nd.len(),
                same == (forall|m: int| 0 <= m < j ==> hay@[i + m] == nd@[m]),
            decreases nd.len() - j,
        {
            if hay[i + j] != nd[j] {
                same = false;
            }
            j = j + 1;
        }
        if same {
            proof {
                assert(hay@.subrange(i as int, i + nd.len()) =~= nd@);
            }
            return true;
        }
        proof {
            let m = choose|m: int| 0 <= m < nd.len() && hay@[i + m] != nd@[m];
            assert(hay@.subrange(i as int, i + nd.len())[m] != nd@[m]);
        }
        i = i + 1;
    }
    proof {
        assert forall|k: int| 0 <= k && k + nd.len() <= hay.len() implies #[trigger] hay@.subrange(k, k + nd.len()) != nd@ by {
            assert(k < i);
        }
    }
    false
}

/// Decides which recorded values are credentials and replaces them.
pub struct SecretRedactor;

impl SecretRedactor {
    /// A JSON value as recorded: credential-named members redacted at any depth.
    pub fn json_value(value: &JsonValue) -> (r: JsonValue)
        ensures
            r@ == redacted_tree(value@),
        decreases value,
    {
        match value {
            JsonValue::Null => JsonValue::Null,
            JsonValue::Bool(b) => JsonValue::Bool(*b),
            JsonValue::Number(n) => JsonValue::Number(n.clone()),
            JsonValue::Text(t) => JsonValue::Text(t.clone()),
            JsonValue::Array(items) => {
                let mut out: Vec<JsonValue> = Vec::new();
                let mut i: usize = 0;
                while i < items.len()
                    invariant
                        *value == JsonValue::Array(*items),
                        i <= items.len(),
                        out.len() == i,
                        forall|k: int| 0 <= k < i ==> #[trigger] out@[k]@ == redacted_tree(items@[k]@),
                    decreases items.len() - i,
                {
                    proof {
                        assert(decreases_to!(*value => value->Array_0));
                        assert(decreases_to!(*items => items[i as int]));
                    }
                    let r = Self::json_value(&items[i]);
                    out.push(r);
                    i = i + 1;
                }
                proof {
                    lemma_json_trees(out@);
                    lemma_json_trees(items@);
                    lemma_redacted_trees(json_trees(items@));
                    assert forall|k: int| 0 <= k < out.len() implies #[trigger] json_trees(out@)[k]
                        == redacted_trees(json_trees(items@))[k] by {
                        assert(out@[k]@ == redacted_tree(items@[k]@));
                    }
                    assert(json_trees(out@) =~= redacted_trees(json_trees(items@)));
                }
                JsonValue::Array(out)
            },
            JsonValue::Object(members) => {
                let mut out: Vec<(String, JsonValue)> = Vec::new();
                let mut i: usize = 0;
                while i < members.len()
                    invariant
                        *value == JsonValue::Object(*members),
                        i <= members.len(),
                        out.len() == i,
                        forall|k: int| 0 <= k < i ==> #[trigger] out@[k].0@ == members@[k].0@
                            && out@[k].1@ == redacted_member((members@[k].0@, members@[k].1@)).1,
                    decreases members.len() - i,
                {
                    let m = &members[i];
                    let key = m.0.clone();
                    let v = if Self::credential_bearing_key(m.0.as_str()) {
                        JsonValue::Text("<redacted>".to_owned())
                    } else {
                        proof {
                            assert(decreases_to!(*value => value->Object_0));
                            assert(decreases_to!(*members => members[i as int]));
                            assert(decreases_to!(members[i as int] => members[i as int].1));
                        }
                        Self::json_value(&m.1)
                    };
                    out.push((key, v));
                    i = i + 1;
                }
                proof {
                    lemma_json_members(out@);
                    lemma_json_members(members@);
                    lemma_redacted_members(json_members(members@));
                    assert(json_members(out@) =~= redacted_members(json_members(members@)));
                }
                JsonValue::Object(out)
            },
        }
    }

    /// Whether a name suggests that its value is a credential.
    pub fn credential_bearing_key(value: &str) -> (r: bool)
        ensures
            r == credential_bearing(value@),
    {
        let cs = chars_of(value);
        let l = lower_chars(&cs);
        contains_chars(&l, "authorization")
            || contains_chars(&l, "api_key")
            || contains_chars(&l, "apikey")
            || contains_chars(&l, "bearer")
            || contains_chars(&l, "credential")
            || contains_chars(&l, "password")
            || contains_chars(&l, "secret")
            || contains_chars(&l, "token")
    }

    /// A metadata value as recorded: `<redacted>` when it looks like a
    /// credential name.
    pub fn metadata(value: &str) -> (r: String)
        ensures
            r@ == redacted_metadata(value@),
    {
        if Self::credential_bearing_key(value) {
            "<redacted>".to_owned()
        } else {
            value.to_owned()
        }
    }

    fn pair(cs: &Vec<char>, from: usize, to: usize) -> (r: String)
        requires
            from <= to <= cs.len(),
        ensures
            r@ == redacted_pair(cs@.subrange(from as int, to as int)),
    {
        let piece = string_of_chars(cs, from, to);
        let ghost p = cs@.subrange(from as int, to as int);
        let pcs = chars_of(piece.as_str());
        match find_char(&pcs, 0, '=') {
            Some(i) => {
                proof {
                    assert(pcs@.skip(0) =~= pcs@);
                }
                let key = string_of_chars(&pcs, 0, i);
                if Self::credential_bearing_key(key.as_str()) {
                    let mut r = key;
                    r.append("=<redacted>");
                    proof {
                        assert(pcs@.subrange(0, i as int) =~= p.take(i as int));
                    }
                    r
                } else {
                    proof {
                        assert(pcs@.subrange(0, i as int) =~= p.take(i as int));
                    }
                    piece
                }
            },
            None => {
                proof {
                    assert(pcs@.skip(0) =~= pcs@);
                }
                piece
            },
        }
    }

    fn query(cs: &Vec<char>, from: usize) -> (r: String)
        requires
            from <= cs.len(),
        ensures
            r@ == redacted_query(cs@.skip(from as int)),
        decreases cs.len() - from,
    {
        let ghost q = cs@.skip(from as int);
        match find_char(cs, from, '&') {
            Some(i) => {
                let mut r = Self::pair(cs, from, i);
                r.append("&");
                let rest = Self::query(cs, i + 1);
                r.append(rest.as_str());
                proof {
                    let k = (i - from) as int;
                    assert(cs@.subrange(from as int, i as int) =~= q.take(k));
                    assert(cs@.skip(i + 1) =~= q.skip(k + 1));
                }
                r
            },
            None => {
                let r = Self::pair(cs, from, cs.len());
                proof {
                    assert(cs@.subrange(from as int, cs.len() as int) =~= q);
                }
                r
            },
        }
    }

    /// A URL as recorded: credential-named query values replaced.
    pub fn url(value: &str) -> (r: String)
        ensures
            r@ == redacted_url(value@),
    {
        let cs = chars_of(value);
        match find_char(&cs, 0, '?') {
            Some(i) => {
                proof {
                    assert(cs@.skip(0) =~= cs@);
                }
                let mut r = string_of_chars(&cs, 0, i);
                r.append("?");
                let q = Self::query(&cs, i + 1);
                r.append(q.as_str());
                proof {
                    assert(cs@.subrange(0, i as int) =~= value@.take(i as int));
                    assert(cs@.skip(i + 1) =~= value@.skip(i + 1));
                }
                r
            },
            None => {
                proof {
                    assert(cs@.skip(0) =~= cs@);
                }
                value.to_owned()
            },
        }
    }
}

} // verus!
