//! URI query strings: `application/x-www-form-urlencoded` style decoding of
//! `key=value&...` into a map, and the request context it yields when no
//! verified app context is present.
use vstd::prelude::*;
use vstd::utf8::{encode_utf8, valid_utf8, decode_utf8};
use crate::app_context::DriveRequestContext;
use crate::text::{
    split_on, split_text, views, normalize_optional_text, normalized_text, opt_view, copy_str,
    text_eq, chars_of, string_from_chars,
};

verus! {

/// The value of an ASCII hexadecimal digit.
pub open spec fn hex_digit_value(b: u8) -> Option<u8> {
    if 48 <= b <= 57 {
        Some((b - 48) as u8)
    } else if 97 <= b <= 102 {
        Some((b - 87) as u8)
    } else if 65 <= b <= 70 {
        Some((b - 55) as u8)
    } else {
        None
    }
}

/// Percent-decoding of bytes: `+` is a space, `%HH` the byte `0xHH`, and
/// every other byte (a `%` without two hex digits too) stands for itself.
pub open spec fn percent_decode_bytes(b: Seq<u8>) -> Seq<u8>
    decreases b.len(),
{
    if b.len() == 0 {
        Seq::<u8>::empty()
    } else if b[0] == 43 {
        seq![32u8] + percent_decode_bytes(b.skip(1))
    } else if b[0] == 37 && b.len() > 2 && hex_digit_value(b[1]) is Some && hex_digit_value(
        b[2],
    ) is Some {
        seq![(hex_digit_value(b[1])->0 * 16 + hex_digit_value(b[2])->0) as u8]
            + percent_decode_bytes(b.skip(3))
    } else {
        seq![b[0]] + percent_decode_bytes(b.skip(1))
    }
}

/// The text `String::from_utf8_lossy` makes of `bytes`.
pub uninterp spec fn utf8_lossy(bytes: Seq<u8>) -> Seq<char>;

/// `String::from_utf8_lossy` of std, made owned. The contract claims that the
/// result is the named function of the bytes, and that valid UTF-8 is decoded
/// unchanged (std documents that invalid sequences become U+FFFD and valid
/// input is returned as it is); what replaces invalid sequences is not stated.
#[verifier::external_body]
fn from_utf8_lossy_string(bytes: &[u8]) -> (s: String)
    ensures
        s@ == utf8_lossy(bytes@),
        valid_utf8(bytes@) ==> s@ == decode_utf8(bytes@),
{
    String::from_utf8_lossy(bytes).to_string()
}

/// The value of a hexadecimal digit byte.
pub fn hex_value(value: u8) -> (r: Option<u8>)
    ensures
        r == hex_digit_value(value),
{
    if 48 <= value && value <= 57 {
        Some(value - 48)
    } else if 97 <= value && value <= 102 {
        Some(value - 87)
    } else if 65 <= value && value <= 70 {
        Some(value - 55)
    } else {
        None
    }
}

/// The decoded text of a query component.
pub open spec fn decode_component(s: Seq<char>) -> Seq<char> {
    utf8_lossy(percent_decode_bytes(encode_utf8(s)))
}

/// Percent-decodes a query component.
pub fn percent_decode(value: &str) -> (r: String)
    ensures
        r@ == decode_component(value@),
{
    let bytes = value.as_bytes();
    let n = bytes.len();
    let mut decoded: Vec<u8> = Vec::new();
    let mut index: usize = 0;
    assert(bytes@.skip(0) =~= bytes@);
    while index < n
        invariant
            bytes@ == encode_utf8(value@),
            n == bytes@.len(),
            index <= n,
            decoded@ + percent_decode_bytes(bytes@.skip(index as int)) == percent_decode_bytes(
                bytes@,
            ),
        decreases n - index,
    {
        let rest = Ghost(bytes@.skip(index as int));
        let b = bytes[index];
        assert(rest@[0] == b);
        if b == 43 {
            decoded.push(32);
            assert(rest@.skip(1) =~= bytes@.skip(index + 1));
            index = index + 1;
        } else if b == 37 && n - index > 2 && hex_value(bytes[index + 1]).is_some() && hex_value(
            bytes[index + 2],
        ).is_some() {
            let high = hex_value(bytes[index + 1]).unwrap();
            let low = hex_value(bytes[index + 2]).unwrap();
            assert(rest@[1] == bytes@[index + 1]);
            assert(rest@[2] == bytes@[index + 2]);
            decoded.push(high * 16 + low);
            assert(rest@.skip(3) =~= bytes@.skip(index + 3));
            index = index + 3;
        } else {
            decoded.push(b);
            assert(rest@.skip(1) =~= bytes@.skip(index + 1));
            index = index + 1;
        }
        assert(decoded@ + percent_decode_bytes(bytes@.skip(index as int)) =~= percent_decode_bytes(
            bytes@,
        ));
    }
    assert(decoded@ =~= decoded@ + percent_decode_bytes(bytes@.skip(n as int)));
    from_utf8_lossy_string(decoded.as_slice())
}

/// Where `c` first occurs in `s`; the length of `s` when it does not.
pub open spec fn first_index_of(s: Seq<char>, c: char) -> int
    decreases s.len(),
{
    if s.len() == 0 {
        0
    } else if s[0] == c {
        0
    } else {
        1 + first_index_of(s.drop_first(), c)
    }
}

/// `str::split_once('=')`, with the whole text as key when there is no `=`.
pub open spec fn split_pair(p: Seq<char>) -> (Seq<char>, Seq<char>) {
    let i = first_index_of(p, '=');
    if i < p.len() {
        (p.take(i), p.skip(i + 1))
    } else {
        (p, Seq::<char>::empty())
    }
}

proof fn lemma_first_index_bounds(s: Seq<char>, c: char)
    ensures
        0 <= first_index_of(s, c) <= s.len(),
        first_index_of(s, c) < s.len() ==> s[first_index_of(s, c)] == c,
    decreases s.len(),
{
    if s.len() > 0 && s[0] != c {
        lemma_first_index_bounds(s.drop_first(), c);
        if first_index_of(s, c) < s.len() {
            assert(s[first_index_of(s, c)] == s.drop_first()[first_index_of(s.drop_first(), c)]);
        }
    }
}

/// Splits a `key=value` pair at its first `=`.
fn split_pair_exec(pair: &str) -> (r: (String, String))
    ensures
        r.0@ == split_pair(pair@).0,
        r.1@ == split_pair(pair@).1,
{
    let v = chars_of(pair);
    let n = v.len();
    let mut k: usize = 0;
    assert(v@.skip(0) =~= v@);
    while k < n && v[k] != '='
        invariant
            v@ == pair@,
            n == v@.len(),
            k <= n,
            first_index_of(pair@, '=') == k + first_index_of(v@.skip(k as int), '='),
        decreases n - k,
    {
        assert(v@.skip(k as int).drop_first() =~= v@.skip(k + 1));
        k = k + 1;
    }
    proof {
        if k < n {
            assert(v@.skip(k as int)[0] == '=');
        }
        assert(first_index_of(pair@, '=') == k);
    }
    if k < n {
        let key = string_from_chars(&v, 0, k);
        let value = string_from_chars(&v, k + 1, n);
        assert(v@.subrange(0, k as int) =~= pair@.take(k as int));
        assert(v@.subrange(k + 1, n as int) =~= pair@.skip(k + 1));
        (key, value)
    } else {
        (copy_str(pair), String::new())
    }
}

/// The map of the pairs: later pairs win, empty pairs are skipped.
pub open spec fn query_pairs_map(pairs: Seq<Seq<char>>) -> Map<Seq<char>, Seq<char>>
    decreases pairs.len(),
{
    if pairs.len() == 0 {
        Map::empty()
    } else {
        let m = query_pairs_map(pairs.drop_last());
        let p = pairs.last();
        if p.len() == 0 {
            m
        } else {
            m.insert(decode_component(split_pair(p).0), decode_component(split_pair(p).1))
        }
    }
}

/// The parameters of a query string.
pub open spec fn parse_query(q: Option<Seq<char>>) -> Map<Seq<char>, Seq<char>> {
    match q {
        Some(s) => query_pairs_map(split_on(s, '&')),
        None => Map::empty(),
    }
}

/// The map of a list of key/value entries, later entries winning.
pub open spec fn entries_map(es: Seq<(String, String)>) -> Map<Seq<char>, Seq<char>>
    decreases es.len(),
{
    if es.len() == 0 {
        Map::empty()
    } else {
        entries_map(es.drop_last()).insert(es.last().0@, es.last().1@)
    }
}

/// No key occurs twice.
pub open spec fn keys_unique(es: Seq<(String, String)>) -> bool {
    forall|i: int, j: int|
        0 <= i < es.len() && 0 <= j < es.len() && i != j ==> #[trigger] es[i].0@ != #[trigger] es[j].0@
}

/// Query parameters by decoded name; a name occurs at most once.
pub struct QueryParams {
    entries: Vec<(String, String)>,
}

impl View for QueryParams {
    type V = Map<Seq<char>, Seq<char>>;

    closed spec fn view(&self) -> Map<Seq<char>, Seq<char>> {
        entries_map(self.entries@)
    }
}

proof fn lemma_entries_map_keys(es: Seq<(String, String)>, k: Seq<char>)
    ensures
        entries_map(es).contains_key(k) <==> exists|i: int| 0 <= i < es.len() && es[i].0@ == k,
    decreases es.len(),
{
    if es.len() > 0 {
        lemma_entries_map_keys(es.drop_last(), k);
        if exists|i: int| 0 <= i < es.len() && es[i].0@ == k {
            let i = choose|i: int| 0 <= i < es.len() && es[i].0@ == k;
            if i < es.len() - 1 {
                assert(es.drop_last()[i].0@ == k);
            }
        }
        if exists|i: int| 0 <= i < es.drop_last().len() && es.drop_last()[i].0@ == k {
            let i = choose|i: int| 0 <= i < es.drop_last().len() && es.drop_last()[i].0@ == k;
            assert(es[i].0@ == k);
        }
    }
}

proof fn lemma_entries_map_update(es: Seq<(String, String)>, j: int, e: (String, String))
    requires
        keys_unique(es),
        0 <= j < es.len(),
        es[j].0@ == e.0@,
    ensures
        entries_map(es.update(j, e)) == entries_map(es).insert(e.0@, e.1@),
        keys_unique(es.update(j, e)),
    decreases es.len(),
{
    let u = es.update(j, e);
    if j == es.len() - 1 {
        assert(u.drop_last() =~= es.drop_last());
        assert(entries_map(u) =~= entries_map(es).insert(e.0@, e.1@));
    } else {
        let d = es.drop_last();
        assert(keys_unique(d)) by {
            assert forall|a: int, b: int|
                0 <= a < d.len() && 0 <= b < d.len() && a != b implies #[trigger] d[a].0@
                != #[trigger] d[b].0@ by {
                assert(d[a] == es[a]);
                assert(d[b] == es[b]);
            }
        }
        lemma_entries_map_update(d, j, e);
        assert(u.drop_last() =~= d.update(j, e));
        assert(u.last() == es.last());
        assert(es.last().0@ != e.0@) by {
            assert(es[es.len() - 1].0@ != es[j].0@);
        }
        assert(entries_map(u) =~= entries_map(es).insert(e.0@, e.1@));
    }
    assert forall|a: int, b: int|
        0 <= a < u.len() && 0 <= b < u.len() && a != b implies #[trigger] u[a].0@
        != #[trigger] u[b].0@ by {
        if a != j && b != j {
            assert(es[a].0@ != es[b].0@);
        } else if a == j {
            assert(es[b].0@ != es[j].0@);
        } else {
            assert(es[a].0@ != es[j].0@);
        }
    }
}

impl QueryParams {
    /// The well-formedness of the parameter list: no name occurs twice.
    pub closed spec fn wf(&self) -> bool {
        keys_unique(self.entries@)
    }

    /// No parameters.
    pub fn new() -> (q: QueryParams)
        ensures
            q@ == Map::<Seq<char>, Seq<char>>::empty(),
            q.wf(),
    {
        QueryParams { entries: Vec::new() }
    }

    /// Sets `key` to `value`, replacing an earlier value.
    pub fn insert(&mut self, key: String, value: String)
        requires
            old(self).wf(),
        ensures
            final(self).wf(),
            final(self)@ == old(self)@.insert(key@, value@),
    {
        let mut j: usize = 0;
        while j < self.entries.len()
            invariant
                0 <= j <= self.entries@.len(),
                self.entries@ == old(self).entries@,
                keys_unique(self.entries@),
                forall|t: int| 0 <= t < j ==> self.entries@[t].0@ != key@,
            decreases self.entries.len() - j,
        {
            if text_eq(self.entries[j].0.as_str(), key.as_str()) {
                let ghost es = self.entries@;
                let kv = (key, value);
                proof {
                    lemma_entries_map_update(es, j as int, kv);
                }
                self.entries.set(j, kv);
                return;
            }
            j = j + 1;
        }
        let ghost es = self.entries@;
        self.entries.push((key, value));
        proof {
            let u = self.entries@;
            assert(u.drop_last() =~= es);
            assert forall|a: int, b: int|
                0 <= a < u.len() && 0 <= b < u.len() && a != b implies #[trigger] u[a].0@
                != #[trigger] u[b].0@ by {
                if a < es.len() && b < es.len() {
                    assert(u[a] == es[a]);
                    assert(u[b] == es[b]);
                } else if a < es.len() {
                    assert(u[a] == es[a]);
                } else {
                    assert(u[b] == es[b]);
                }
            }
        }
    }

    /// The value of `key`, if present.
    pub fn get(&self, key: &str) -> (r: Option<String>)
        ensures
            opt_view(r) == (if self@.contains_key(key@) {
                Some(self@[key@])
            } else {
                None
            }),
    {
        let mut j = self.entries.len();
        assert(self.entries@.take(j as int) =~= self.entries@);
        while j > 0
            invariant
                j <= self.entries@.len(),
                forall|t: int| j <= t < self.entries@.len() ==> self.entries@[t].0@ != key@,
                entries_map(self.entries@).contains_key(key@) == entries_map(
                    self.entries@.take(j as int),
                ).contains_key(key@),
                entries_map(self.entries@).contains_key(key@) ==> entries_map(self.entries@)[key@]
                    == entries_map(self.entries@.take(j as int))[key@],
            decreases j,
        {
            let ghost pre = self.entries@.take(j as int);
            assert(pre.drop_last() =~= self.entries@.take(j - 1));
            if text_eq(self.entries[j - 1].0.as_str(), key) {
                return Some(self.entries[j - 1].1.clone());
            }
            j = j - 1;
        }
        assert(self.entries@.take(0) =~= Seq::<(String, String)>::empty());
        None
    }
}

/// Parses a URI query string into its parameters.
pub fn parse_uri_query(query: Option<&str>) -> (r: QueryParams)
    ensures
        r.wf(),
        r@ == parse_query(match query {
            Some(q) => Some(q@),
            None => None,
        }),
{
    let mut values = QueryParams::new();
    match query {
        None => values,
        Some(q) => {
            let pairs = split_text(q, '&');
            let mut k: usize = 0;
            while k < pairs.len()
                invariant
                    views(pairs@) == split_on(q@, '&'),
                    k <= pairs@.len(),
                    values.wf(),
                    values@ == query_pairs_map(views(pairs@).take(k as int)),
                decreases pairs.len() - k,
            {
                let pair = &pairs[k];
                proof {
                    let pre = views(pairs@).take(k + 1);
                    assert(pre.drop_last() =~= views(pairs@).take(k as int));
                    assert(pre.last() == pair@);
                }
                if !pair.as_str().is_empty() {
                    let (key, value) = split_pair_exec(pair.as_str());
                    let dk = percent_decode(key.as_str());
                    let dv = percent_decode(value.as_str());
                    values.insert(dk, dv);
                }
                k = k + 1;
            }
            assert(views(pairs@).take(pairs@.len() as int) =~= views(pairs@));
            values
        },
    }
}

/// The identities of a verified SDKWork app context.
#[derive(Debug, Clone)]
pub struct DriveAppContextClaims {
    pub tenant_id: String,
    pub user_id: String,
    pub app_id: Option<String>,
    pub actor_id: String,
    pub actor_kind: String,
}

/// The request context of a verified app context: the subject is the user,
/// of the actor's kind.
pub fn context_from_claims(claims: DriveAppContextClaims) -> (ctx: DriveRequestContext)
    ensures
        ctx.from_token,
        ctx.tenant_id@ == claims.tenant_id@,
        ctx.user_id@ == claims.user_id@,
        opt_view(ctx.app_id) == opt_view(claims.app_id),
        ctx.actor_id@ == claims.actor_id@,
        ctx.subject_type@ == claims.actor_kind@,
        ctx.subject_id@ == claims.user_id@,
{
    let subject_id = claims.user_id.clone();
    DriveRequestContext {
        tenant_id: claims.tenant_id,
        user_id: claims.user_id,
        app_id: claims.app_id,
        actor_id: claims.actor_id,
        subject_type: claims.actor_kind,
        subject_id,
        from_token: true,
    }
}

/// The normalized value of a parameter, if present.
pub open spec fn param(q: Map<Seq<char>, Seq<char>>, name: Seq<char>) -> Option<Seq<char>> {
    normalized_text(
        if q.contains_key(name) {
            Some(q[name])
        } else {
            None
        },
    )
}

/// The value or the empty text.
pub open spec fn or_empty(o: Option<Seq<char>>) -> Seq<char> {
    match o {
        Some(v) => v,
        None => Seq::<char>::empty(),
    }
}

/// The value or `d`.
pub open spec fn or_default(o: Option<Seq<char>>, d: Seq<char>) -> Seq<char> {
    match o {
        Some(v) => v,
        None => d,
    }
}

fn unwrap_or_empty(o: Option<String>) -> (r: String)
    ensures
        r@ == or_empty(opt_view(o)),
{
    match o {
        Some(v) => v,
        None => String::new(),
    }
}

fn unwrap_or_text(o: Option<String>, d: &str) -> (r: String)
    ensures
        r@ == or_default(opt_view(o), d@),
{
    match o {
        Some(v) => v,
        None => copy_str(d),
    }
}

/// The request context taken from query parameters, when no verified app
/// context is present: tenant, user, app, operator (`operator-unset` when
/// absent), subject type (`user` when absent) and subject id.
pub fn context_from_query(query: &QueryParams) -> (ctx: DriveRequestContext)
    ensures
        !ctx.from_token,
        ctx.tenant_id@ == or_empty(param(query@, "tenantId"@)),
        ctx.user_id@ == or_empty(param(query@, "userId"@)),
        opt_view(ctx.app_id) == param(query@, "appId"@),
        ctx.actor_id@ == or_default(param(query@, "operatorId"@), "operator-unset"@),
        ctx.subject_type@ == or_default(param(query@, "subjectType"@), "user"@),
        ctx.subject_id@ == or_empty(param(query@, "subjectId"@)),
{
    DriveRequestContext {
        tenant_id: unwrap_or_empty(normalize_optional_text(query.get("tenantId"))),
        user_id: unwrap_or_empty(normalize_optional_text(query.get("userId"))),
        app_id: normalize_optional_text(query.get("appId")),
        actor_id: unwrap_or_text(normalize_optional_text(query.get("operatorId")), "operator-unset"),
        subject_type: unwrap_or_text(normalize_optional_text(query.get("subjectType")), "user"),
        subject_id: unwrap_or_empty(normalize_optional_text(query.get("subjectId"))),
        from_token: false,
    }
}

} // verus!
