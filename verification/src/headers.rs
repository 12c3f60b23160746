//! Request headers: the ordered header map of the `http` crate, what is
//! known of it, and how per-request headers are merged over the defaults.

use vstd::prelude::*;
use vstd::string::*;
use crate::text::str_eq;
use http::{HeaderMap, HeaderName, HeaderValue};

verus! {

/// `HeaderMap` of `http`, carried as an opaque value.
#[verifier::external_type_specification]
#[verifier::external_body]
#[verifier::reject_recursive_types(T)]
pub struct ExHeaderMap<T>(HeaderMap<T>);

/// `HeaderValue` of `http`, carried as an opaque value.
#[verifier::external_type_specification]
#[verifier::external_body]
pub struct ExHeaderValue(HeaderValue);

/// The name and value pairs that a header map holds, in the order in which
/// it hands them out.
pub uninterp spec fn header_entries(m: HeaderMap<HeaderValue>) -> Seq<(Seq<char>, Seq<u8>)>;

/// One header as plain values.
#[derive(Clone, Debug, PartialEq, Eq)]
pub struct Header {
    /// The lower-case header name.
    pub name: String,
    /// The bytes of the value.
    pub value: Vec<u8>,
}

impl View for Header {
    type V = (Seq<char>, Seq<u8>);

    open spec fn view(&self) -> (Seq<char>, Seq<u8>) {
        (self.name@, self.value@)
    }
}

/// The pairs that a list of headers stands for.
pub open spec fn pairs(list: Seq<Header>) -> Seq<(Seq<char>, Seq<u8>)> {
    list.map_values(|h: Header| h@)
}

/// A character that a header name may hold: a lower-case letter, a digit,
/// or one of the token symbols.
pub open spec fn name_char(c: char) -> bool {
    ||| 'a' <= c <= 'z'
    ||| '0' <= c <= '9'
    ||| c == '!' || c == '"' || c == '#' || c == '$' || c == '%' || c == '&' || c == '\''
    ||| c == '*' || c == '+' || c == '-' || c == '.' || c == '^' || c == '_' || c == '`'
    ||| c == '|' || c == '~'
}

/// A well-formed header name.
pub open spec fn valid_name(s: Seq<char>) -> bool {
    &&& 0 < s.len() <= 65535
    &&& forall|i: int| 0 <= i < s.len() ==> name_char(#[trigger] s[i])
}

/// A character that a header value may hold: visible ASCII, a space or a
/// tab.
pub open spec fn value_char(c: char) -> bool {
    (' ' <= c && c < '\x7f') || c == '\t'
}

/// A well-formed header value.
pub open spec fn valid_value(s: Seq<char>) -> bool {
    forall|i: int| 0 <= i < s.len() ==> value_char(#[trigger] s[i])
}

/// The bytes of an ASCII string.
pub open spec fn ascii_bytes(s: Seq<char>) -> Seq<u8> {
    Seq::new(s.len(), |i: int| s[i] as u8)
}

/// Whether some entry bears the name.
pub open spec fn has_name(s: Seq<(Seq<char>, Seq<u8>)>, name: Seq<char>) -> bool {
    exists|i: int| 0 <= i < s.len() && (#[trigger] s[i]).0 == name
}

/// Whether no name occurs twice.
pub open spec fn distinct_names(s: Seq<(Seq<char>, Seq<u8>)>) -> bool {
    forall|i: int, j: int| 0 <= i < j < s.len() ==> (#[trigger] s[i]).0 != (#[trigger] s[j]).0
}

/// One pass over `s` that sets `name` to `value`: the first entry of that
/// name gets the value, later ones leave, and all others stay where they
/// are. The flag says whether the name was met.
pub open spec fn scan(s: Seq<(Seq<char>, Seq<u8>)>, name: Seq<char>, value: Seq<u8>) -> (
    Seq<(Seq<char>, Seq<u8>)>,
    bool,
)
    decreases s.len(),
{
    if s.len() == 0 {
        (Seq::empty(), false)
    } else {
        let (out, seen) = scan(s.drop_last(), name, value);
        if s.last().0 != name {
            (out.push(s.last()), seen)
        } else if seen {
            (out, true)
        } else {
            (out.push((name, value)), true)
        }
    }
}

/// The entries after `name` is set to `value`: in place where the name
/// was present, at the end where it was not.
pub open spec fn put(s: Seq<(Seq<char>, Seq<u8>)>, name: Seq<char>, value: Seq<u8>) -> Seq<
    (Seq<char>, Seq<u8>),
> {
    let (out, seen) = scan(s, name, value);
    if seen {
        out
    } else {
        out.push((name, value))
    }
}

/// The defaults with every request header set on top, in request order.
pub open spec fn merge(
    defaults: Seq<(Seq<char>, Seq<u8>)>,
    request: Seq<(Seq<char>, Seq<u8>)>,
) -> Seq<(Seq<char>, Seq<u8>)>
    decreases request.len(),
{
    if request.len() == 0 {
        defaults
    } else {
        put(merge(defaults, request.drop_last()), request.last().0, request.last().1)
    }
}

/// The largest number of names with which a header map can always take
/// one more: beyond it the map may have to grow past its largest size.
pub const MOST_NAMES: usize = 6553;

/// How many different names the entries bear.
pub open spec fn name_count(s: Seq<(Seq<char>, Seq<u8>)>) -> nat
    decreases s.len(),
{
    if s.len() == 0 {
        0
    } else if has_name(s.drop_last(), s.last().0) {
        name_count(s.drop_last())
    } else {
        name_count(s.drop_last()) + 1
    }
}

/// The entries that bear the name, in their order.
pub open spec fn bearing(s: Seq<(Seq<char>, Seq<u8>)>, name: Seq<char>) -> Seq<
    (Seq<char>, Seq<u8>),
>
    decreases s.len(),
{
    if s.len() == 0 {
        Seq::empty()
    } else if s.last().0 == name {
        bearing(s.drop_last(), name).push(s.last())
    } else {
        bearing(s.drop_last(), name)
    }
}

/// The entries whose names are not among `banned`, in their order.
pub open spec fn without(s: Seq<(Seq<char>, Seq<u8>)>, banned: Set<Seq<char>>) -> Seq<
    (Seq<char>, Seq<u8>),
>
    decreases s.len(),
{
    if s.len() == 0 {
        Seq::empty()
    } else if banned.contains(s.last().0) {
        without(s.drop_last(), banned)
    } else {
        without(s.drop_last(), banned).push(s.last())
    }
}

/// The names that the entries bear.
pub open spec fn names_of(s: Seq<(Seq<char>, Seq<u8>)>) -> Set<Seq<char>> {
    Set::new(|x: Seq<char>| has_name(s, x))
}

/// Whether a map that starts with the entries `start` can take every
/// header of `list` in turn: each time one is set, the map bears no more
/// than `MOST_NAMES` names.
pub open spec fn room_for(
    start: Seq<(Seq<char>, Seq<u8>)>,
    list: Seq<(Seq<char>, Seq<u8>)>,
) -> bool {
    forall|k: int| 0 <= k < list.len() ==> name_count(#[trigger] merge(start, list.take(k)))
        <= MOST_NAMES
}

/// `HeaderMap::new` of `http`: the new map holds nothing.
#[verifier::external_body]
pub(crate) fn empty_map() -> (m: HeaderMap<HeaderValue>)
    ensures
        header_entries(m) == Seq::<(Seq<char>, Seq<u8>)>::empty(),
{
    HeaderMap::new()
}

/// `HeaderMap::insert` of `http`, with the name and the value made by
/// `HeaderName::from_static` and `HeaderValue::from_static`. The first
/// entry of that name takes the value in place and further ones leave; a
/// new name goes to the end. A map of no more than `MOST_NAMES` names
/// never has to grow past its largest size to take the header.
#[verifier::external_body]
pub(crate) fn insert_static(
    m: &mut HeaderMap<HeaderValue>,
    name: &'static str,
    value: &'static str,
)
    requires
        valid_name(name@),
        valid_value(value@),
        name_count(header_entries(*old(m))) <= MOST_NAMES,
    ensures
        header_entries(*final(m)) == put(header_entries(*old(m)), name@, ascii_bytes(value@)),
{
    m.insert(HeaderName::from_static(name), HeaderValue::from_static(value));
}

/// `HeaderMap::contains_key` of `http`, asked with a name made by
/// `HeaderName::from_static` as the names set are: whether an entry bears
/// the name.
#[verifier::external_body]
pub(crate) fn contains_name(m: &HeaderMap<HeaderValue>, name: &'static str) -> (r: bool)
    requires
        valid_name(name@),
    ensures
        r == has_name(header_entries(*m), name@),
{
    m.contains_key(HeaderName::from_static(name))
}

/// `HeaderMap::keys_len` of `http`: the number of different names that
/// the map bears.
#[verifier::external_body]
pub(crate) fn name_total(m: &HeaderMap<HeaderValue>) -> (r: usize)
    ensures
        r == name_count(header_entries(*m)),
{
    m.keys_len()
}

/// `HeaderMap::iter` of `http`: every entry in order, the name by
/// `HeaderName::as_str` and the value by `HeaderValue::as_bytes`.
#[verifier::external_body]
pub(crate) fn list_entries(m: &HeaderMap<HeaderValue>) -> (r: Vec<Header>)
    ensures
        pairs(r@) == header_entries(*m),
{
    m.iter().map(|(k, v)| Header { name: k.as_str().to_string(), value: v.as_bytes().to_vec() }).collect()
}

/// The headers of a map as plain values, in the map's order.
pub fn header_list(m: &HeaderMap<HeaderValue>) -> (r: Vec<Header>)
    ensures
        pairs(r@) == header_entries(*m),
{
    list_entries(m)
}

/// The flag of a pass says whether the name occurs, and the pass leaves
/// exactly one entry of that name where it does.
pub proof fn lemma_scan_seen(s: Seq<(Seq<char>, Seq<u8>)>, name: Seq<char>, value: Seq<u8>)
    ensures
        scan(s, name, value).1 == has_name(s, name),
        scan(s, name, value).0.len() <= s.len(),
    decreases s.len(),
{
    if s.len() > 0 {
        lemma_scan_seen(s.drop_last(), name, value);
        let t = s.drop_last();
        if has_name(t, name) {
            let i = choose|i: int| 0 <= i < t.len() && (#[trigger] t[i]).0 == name;
            assert(s[i].0 == name);
        }
        if has_name(s, name) && s.last().0 != name {
            let i = choose|i: int| 0 <= i < s.len() && (#[trigger] s[i]).0 == name;
            assert(t[i].0 == name);
        }
        if s.last().0 == name {
            assert(s[s.len() - 1].0 == name);
        }
    }
}

/// Over entries with distinct names a pass changes no position: it
/// rewrites the value of the one entry of that name, if there is one.
pub proof fn lemma_scan_distinct(s: Seq<(Seq<char>, Seq<u8>)>, name: Seq<char>, value: Seq<u8>)
    requires
        distinct_names(s),
    ensures
        scan(s, name, value).0.len() == s.len(),
        forall|i: int|
            0 <= i < s.len() ==> #[trigger] scan(s, name, value).0[i] == (if s[i].0 == name {
                (name, value)
            } else {
                s[i]
            }),
    decreases s.len(),
{
    if s.len() > 0 {
        let t = s.drop_last();
        assert(distinct_names(t)) by {
            assert forall|i: int, j: int| 0 <= i < j < t.len() implies (#[trigger] t[i]).0 != (
            #[trigger] t[j]).0 by {
                assert(s[i].0 != s[j].0);
            }
        }
        lemma_scan_distinct(t, name, value);
        lemma_scan_seen(t, name, value);
        if s.last().0 == name && has_name(t, name) {
            let i = choose|i: int| 0 <= i < t.len() && (#[trigger] t[i]).0 == name;
            assert(s[i].0 != s[s.len() - 1].0);
        }
        let out = scan(s, name, value).0;
        assert forall|i: int| 0 <= i < s.len() implies #[trigger] out[i] == (if s[i].0 == name {
            (name, value)
        } else {
            s[i]
        }) by {
            if i < t.len() {
                assert(t[i] == s[i]);
                assert(out[i] == scan(t, name, value).0[i]);
            }
        }
    }
}

/// Setting a name over entries with distinct names keeps every entry at
/// its position and keeps the names distinct.
pub proof fn lemma_put_distinct(s: Seq<(Seq<char>, Seq<u8>)>, name: Seq<char>, value: Seq<u8>)
    requires
        distinct_names(s),
    ensures
        distinct_names(put(s, name, value)),
        put(s, name, value).len() == if has_name(s, name) {
            s.len()
        } else {
            s.len() + 1
        },
        forall|i: int|
            0 <= i < s.len() ==> #[trigger] put(s, name, value)[i] == (if s[i].0 == name {
                (name, value)
            } else {
                s[i]
            }),
        !has_name(s, name) ==> put(s, name, value) == s.push((name, value)),
        has_name(put(s, name, value), name),
{
    lemma_scan_distinct(s, name, value);
    lemma_scan_seen(s, name, value);
    let out = scan(s, name, value).0;
    let p = put(s, name, value);
    assert forall|i: int| 0 <= i < s.len() implies #[trigger] p[i] == (if s[i].0 == name {
        (name, value)
    } else {
        s[i]
    }) by {
        assert(p[i] == out[i]);
    }
    assert forall|i: int, j: int| 0 <= i < j < p.len() implies (#[trigger] p[i]).0 != (
    #[trigger] p[j]).0 by {
        if j < s.len() {
            assert(s[i].0 != s[j].0);
            assert(p[i].0 == s[i].0);
            assert(p[j].0 == s[j].0);
        } else {
            assert(p[i].0 == s[i].0);
            assert(s[i].0 != name);
        }
    }
    if !has_name(s, name) {
        assert(out =~= s);
    }
    if has_name(s, name) {
        let i = choose|i: int| 0 <= i < s.len() && (#[trigger] s[i]).0 == name;
        assert(p[i].0 == name);
    } else {
        assert(p[p.len() - 1].0 == name);
    }
}

/// Merging request headers over defaults whose names are distinct keeps
/// every default at its position, under its name, and keeps its value
/// unless the request names it; what the request adds comes after the
/// defaults.
pub proof fn law_merge_keeps_default_order(
    defaults: Seq<(Seq<char>, Seq<u8>)>,
    request: Seq<(Seq<char>, Seq<u8>)>,
)
    requires
        distinct_names(defaults),
    ensures
        distinct_names(merge(defaults, request)),
        merge(defaults, request).len() >= defaults.len(),
        forall|i: int|
            0 <= i < defaults.len() ==> (#[trigger] merge(defaults, request)[i]).0 == defaults[i].0,
        forall|i: int|
            0 <= i < defaults.len() && !has_name(request, defaults[i].0) ==> #[trigger] merge(
                defaults,
                request,
            )[i] == defaults[i],
        forall|j: int|
            defaults.len() <= j < merge(defaults, request).len() ==> has_name(
                request,
                (#[trigger] merge(defaults, request)[j]).0,
            ),
    decreases request.len(),
{
    if request.len() > 0 {
        let head = request.drop_last();
        let e = request.last();
        let m = merge(defaults, head);
        law_merge_keeps_default_order(defaults, head);
        lemma_put_distinct(m, e.0, e.1);
        let r = merge(defaults, request);
        assert(r == put(m, e.0, e.1));
        assert forall|i: int| 0 <= i < defaults.len() implies (#[trigger] r[i]).0 == defaults[i].0 by {
            assert(m[i].0 == defaults[i].0);
        }
        assert forall|i: int|
            0 <= i < defaults.len() && !has_name(request, defaults[i].0) implies #[trigger] r[i]
            == defaults[i] by {
            assert(request[request.len() - 1].0 != defaults[i].0);
            if has_name(head, defaults[i].0) {
                let k = choose|k: int| 0 <= k < head.len() && (#[trigger] head[k]).0 == defaults[i].0;
                assert(request[k].0 == defaults[i].0);
            }
            assert(m[i] == defaults[i]);
        }
        assert forall|j: int| defaults.len() <= j < r.len() implies has_name(
            request,
            (#[trigger] r[j]).0,
        ) by {
            if j < m.len() {
                assert(r[j].0 == m[j].0);
                let k = choose|k: int| 0 <= k < head.len() && (#[trigger] head[k]).0 == m[j].0;
                assert(request[k].0 == m[j].0);
            } else {
                assert(r[j].0 == e.0);
                assert(request[request.len() - 1].0 == e.0);
            }
        }
    }
}

/// A request header overrides: after the merge its name bears the value
/// that the request gave it last.
pub proof fn law_merge_overrides(
    defaults: Seq<(Seq<char>, Seq<u8>)>,
    request: Seq<(Seq<char>, Seq<u8>)>,
    k: int,
)
    requires
        distinct_names(defaults),
        0 <= k < request.len(),
        forall|j: int| k < j < request.len() ==> (#[trigger] request[j]).0 != request[k].0,
    ensures
        exists|i: int|
            0 <= i < merge(defaults, request).len() && #[trigger] merge(defaults, request)[i]
                == request[k],
    decreases request.len(),
{
    let head = request.drop_last();
    let e = request.last();
    let m = merge(defaults, head);
    law_merge_keeps_default_order(defaults, head);
    lemma_put_distinct(m, e.0, e.1);
    let r = merge(defaults, request);
    if k == request.len() - 1 {
        if has_name(m, e.0) {
            let i = choose|i: int| 0 <= i < m.len() && (#[trigger] m[i]).0 == e.0;
            assert(r[i] == e);
        } else {
            assert(r[r.len() - 1] == e);
        }
    } else {
        assert(head[k] == request[k]);
        assert forall|j: int| k < j < head.len() implies (#[trigger] head[j]).0 != head[k].0 by {
            assert(request[j].0 != request[k].0);
        }
        law_merge_overrides(defaults, head, k);
        let i = choose|i: int| 0 <= i < m.len() && #[trigger] m[i] == head[k];
        assert(request[request.len() - 1].0 != request[k].0);
        assert(r[i] == m[i]);
    }
}

/// Request headers that are new, each named once, are appended to the
/// defaults in the order in which the request gave them.
pub proof fn law_merge_appends_new(
    defaults: Seq<(Seq<char>, Seq<u8>)>,
    request: Seq<(Seq<char>, Seq<u8>)>,
)
    requires
        distinct_names(defaults + request),
    ensures
        merge(defaults, request) == defaults + request,
    decreases request.len(),
{
    let all = defaults + request;
    if request.len() == 0 {
        assert(all =~= defaults);
    } else {
        let head = request.drop_last();
        let e = request.last();
        assert(defaults + head =~= all.drop_last());
        assert(distinct_names(defaults + head)) by {
            assert forall|i: int, j: int| 0 <= i < j < (defaults + head).len() implies (
            #[trigger] (defaults + head)[i]).0 != (#[trigger] (defaults + head)[j]).0 by {
                assert(all[i].0 != all[j].0);
            }
        }
        law_merge_appends_new(defaults, head);
        let m = defaults + head;
        assert(!has_name(m, e.0)) by {
            if has_name(m, e.0) {
                let i = choose|i: int| 0 <= i < m.len() && (#[trigger] m[i]).0 == e.0;
                assert(all[i].0 != all[all.len() - 1].0);
            }
        }
        lemma_put_distinct(m, e.0, e.1);
        assert(m.push(e) =~= all);
    }
}

/// A copy of a header.
fn copy_header(h: &Header) -> (r: Header)
    ensures
        r@ == h@,
{
    Header { name: h.name.clone(), value: h.value.clone() }
}

/// The list with `name` set to `value`.
fn put_header(list: &Vec<Header>, name: &String, value: &Vec<u8>) -> (r: Vec<Header>)
    ensures
        pairs(r@) == put(pairs(list@), name@, value@),
{
    let mut out: Vec<Header> = Vec::new();
    let mut seen = false;
    let mut i: usize = 0;
    while i < list.len()
        invariant
            i <= list.len(),
            (pairs(out@), seen) == scan(pairs(list@).take(i as int), name@, value@),
        decreases list.len() - i,
    {
        proof {
            let next = pairs(list@).take(i + 1);
            assert(next.drop_last() == pairs(list@).take(i as int));
            assert(next.last() == list@[i as int]@);
        }
        let ghost before = pairs(out@);
        if !str_eq(list[i].name.as_str(), name.as_str()) {
            let h = copy_header(&list[i]);
            out.push(h);
            assert(pairs(out@) == before.push(list@[i as int]@));
        } else if !seen {
            out.push(Header { name: name.clone(), value: value.clone() });
            seen = true;
            assert(pairs(out@) == before.push((name@, value@)));
        }
        i = i + 1;
    }
    proof {
        assert(pairs(list@).take(list.len() as int) == pairs(list@));
    }
    let ghost before = pairs(out@);
    if !seen {
        out.push(Header { name: name.clone(), value: value.clone() });
        assert(pairs(out@) == before.push((name@, value@)));
    }
    out
}

/// Merges the headers of one request over the defaults. A request header
/// whose name is among the entries so far replaces that entry's value in
/// place; any other is appended. Nothing is sorted.
pub fn merge_headers(defaults: &Vec<Header>, request: &Vec<Header>) -> (r: Vec<Header>)
    ensures
        pairs(r@) == merge(pairs(defaults@), pairs(request@)),
{
    let mut out: Vec<Header> = Vec::new();
    let mut i: usize = 0;
    while i < defaults.len()
        invariant
            i <= defaults.len(),
            pairs(out@) == pairs(defaults@).take(i as int),
        decreases defaults.len() - i,
    {
        let ghost before = pairs(out@);
        let h = copy_header(&defaults[i]);
        out.push(h);
        assert(pairs(out@) == before.push(defaults@[i as int]@));
        assert(pairs(defaults@).take(i + 1) == before.push(defaults@[i as int]@));
        i = i + 1;
    }
    assert(pairs(defaults@).take(defaults.len() as int) == pairs(defaults@));
    let mut k: usize = 0;
    while k < request.len()
        invariant
            k <= request.len(),
            pairs(out@) == merge(pairs(defaults@), pairs(request@).take(k as int)),
        decreases request.len() - k,
    {
        proof {
            let next = pairs(request@).take(k + 1);
            assert(next.drop_last() == pairs(request@).take(k as int));
            assert(next.last() == request@[k as int]@);
        }
        out = put_header(&out, &request[k].name, &request[k].value);
        k = k + 1;
    }
    assert(pairs(request@).take(request.len() as int) == pairs(request@));
    out
}

/// The pairs that a list of names and values in program text stands for.
pub open spec fn static_pairs(list: Seq<(&'static str, &'static str)>) -> Seq<
    (Seq<char>, Seq<u8>),
> {
    list.map_values(|e: (&'static str, &'static str)| (e.0@, ascii_bytes(e.1@)))
}

/// An entry more bears the names that were borne, and its own.
pub proof fn lemma_has_name_push(s: Seq<(Seq<char>, Seq<u8>)>, e: (Seq<char>, Seq<u8>), x: Seq<char>)
    ensures
        has_name(s.push(e), x) == (has_name(s, x) || e.0 == x),
{
    let t = s.push(e);
    if has_name(t, x) {
        let i = choose|i: int| 0 <= i < t.len() && (#[trigger] t[i]).0 == x;
        if i < s.len() {
            assert(s[i].0 == x);
        }
    }
    if has_name(s, x) {
        let i = choose|i: int| 0 <= i < s.len() && (#[trigger] s[i]).0 == x;
        assert(t[i].0 == x);
    }
    if e.0 == x {
        assert(t[t.len() - 1].0 == x);
    }
}

/// A pass keeps the names: the entries that it leaves bear the names
/// that were borne, as many as before.
pub proof fn lemma_scan_names(s: Seq<(Seq<char>, Seq<u8>)>, name: Seq<char>, value: Seq<u8>)
    ensures
        name_count(scan(s, name, value).0) == name_count(s),
        forall|x: Seq<char>| has_name(scan(s, name, value).0, x) == has_name(s, x),
    decreases s.len(),
{
    let out = scan(s, name, value).0;
    if s.len() == 0 {
        assert forall|x: Seq<char>| has_name(out, x) == has_name(s, x) by {}
    } else {
        let t = s.drop_last();
        let e = s.last();
        let (o, seen) = scan(t, name, value);
        lemma_scan_names(t, name, value);
        lemma_scan_seen(t, name, value);
        assert(t.push(e) =~= s);
        if e.0 != name {
            assert(out == o.push(e));
            assert(out.drop_last() =~= o);
            assert(has_name(o, e.0) == has_name(t, e.0));
        } else if !seen {
            assert(out == o.push((name, value)));
            assert(out.drop_last() =~= o);
            assert(has_name(o, name) == has_name(t, name));
        }
        assert forall|x: Seq<char>| has_name(out, x) == has_name(s, x) by {
            lemma_has_name_push(t, e, x);
            assert(has_name(o, x) == has_name(t, x));
            if e.0 != name {
                lemma_has_name_push(o, e, x);
            } else if !seen {
                lemma_has_name_push(o, (name, value), x);
            }
        }
    }
}

/// Setting a name adds it to the names borne, and no other.
pub proof fn lemma_put_count(s: Seq<(Seq<char>, Seq<u8>)>, name: Seq<char>, value: Seq<u8>)
    ensures
        name_count(put(s, name, value)) == if has_name(s, name) {
            name_count(s)
        } else {
            name_count(s) + 1
        },
{
    lemma_scan_names(s, name, value);
    lemma_scan_seen(s, name, value);
    let out = scan(s, name, value).0;
    if !has_name(s, name) {
        assert(out.push((name, value)).drop_last() =~= out);
        assert(has_name(out, name) == has_name(s, name));
    }
}

/// Each header merged adds at most one name.
pub proof fn lemma_merge_count(start: Seq<(Seq<char>, Seq<u8>)>, list: Seq<(Seq<char>, Seq<u8>)>)
    ensures
        name_count(merge(start, list)) <= name_count(start) + list.len(),
    decreases list.len(),
{
    if list.len() > 0 {
        lemma_merge_count(start, list.drop_last());
        lemma_put_count(merge(start, list.drop_last()), list.last().0, list.last().1);
    }
}

/// A pass leaves the entries of other names as they were, each with its
/// value and in the old order.
pub proof fn lemma_scan_leaves_others(
    s: Seq<(Seq<char>, Seq<u8>)>,
    name: Seq<char>,
    value: Seq<u8>,
    banned: Set<Seq<char>>,
)
    requires
        banned.contains(name),
    ensures
        without(scan(s, name, value).0, banned) == without(s, banned),
    decreases s.len(),
{
    if s.len() > 0 {
        let t = s.drop_last();
        let e = s.last();
        let (o, seen) = scan(t, name, value);
        lemma_scan_leaves_others(t, name, value, banned);
        if e.0 != name {
            assert(o.push(e).drop_last() =~= o);
        } else if !seen {
            assert(o.push((name, value)).drop_last() =~= o);
        }
    }
}

/// A pass leaves at most one entry of the name: the one with the value,
/// where the name was met.
pub proof fn lemma_scan_sets_once(s: Seq<(Seq<char>, Seq<u8>)>, name: Seq<char>, value: Seq<u8>)
    ensures
        bearing(scan(s, name, value).0, name) == if scan(s, name, value).1 {
            seq![(name, value)]
        } else {
            Seq::empty()
        },
    decreases s.len(),
{
    if s.len() > 0 {
        let t = s.drop_last();
        let e = s.last();
        let (o, seen) = scan(t, name, value);
        lemma_scan_sets_once(t, name, value);
        if e.0 != name {
            assert(o.push(e).drop_last() =~= o);
        } else if !seen {
            assert(o.push((name, value)).drop_last() =~= o);
            assert(Seq::<(Seq<char>, Seq<u8>)>::empty().push((name, value)) =~= seq![
                (name, value),
            ]);
        }
    }
}

/// A pass for one name leaves the entries of another name as they were.
pub proof fn lemma_scan_leaves_name(
    s: Seq<(Seq<char>, Seq<u8>)>,
    name: Seq<char>,
    value: Seq<u8>,
    other: Seq<char>,
)
    requires
        other != name,
    ensures
        bearing(scan(s, name, value).0, other) == bearing(s, other),
    decreases s.len(),
{
    if s.len() > 0 {
        let t = s.drop_last();
        let e = s.last();
        let (o, seen) = scan(t, name, value);
        lemma_scan_leaves_name(t, name, value, other);
        if e.0 != name {
            assert(o.push(e).drop_last() =~= o);
        } else if !seen {
            assert(o.push((name, value)).drop_last() =~= o);
        }
    }
}

/// Setting a name leaves one entry of that name, with the value, and the
/// entries of every other name as they were.
pub proof fn lemma_put_entries(s: Seq<(Seq<char>, Seq<u8>)>, name: Seq<char>, value: Seq<u8>)
    ensures
        bearing(put(s, name, value), name) == seq![(name, value)],
        forall|other: Seq<char>|
            other != name ==> #[trigger] bearing(put(s, name, value), other) == bearing(s, other),
        forall|banned: Set<Seq<char>>|
            banned.contains(name) ==> #[trigger] without(put(s, name, value), banned) == without(
                s,
                banned,
            ),
        forall|x: Seq<char>| #[trigger] has_name(put(s, name, value), x) == (has_name(s, x) || x == name),
{
    let (out, seen) = scan(s, name, value);
    lemma_scan_sets_once(s, name, value);
    lemma_scan_seen(s, name, value);
    lemma_scan_names(s, name, value);
    if !seen {
        assert(out.push((name, value)).drop_last() =~= out);
        assert(Seq::<(Seq<char>, Seq<u8>)>::empty().push((name, value)) =~= seq![(name, value)]);
    }
    assert forall|other: Seq<char>| other != name implies #[trigger] bearing(
        put(s, name, value),
        other,
    ) == bearing(s, other) by {
        lemma_scan_leaves_name(s, name, value, other);
    }
    assert forall|banned: Set<Seq<char>>| banned.contains(name) implies #[trigger] without(
        put(s, name, value),
        banned,
    ) == without(s, banned) by {
        lemma_scan_leaves_others(s, name, value, banned);
    }
    assert forall|x: Seq<char>| #[trigger]
        has_name(put(s, name, value), x) == (has_name(s, x) || x == name) by {
        assert(has_name(out, x) == has_name(s, x));
        if !seen {
            lemma_has_name_push(out, (name, value), x);
        }
    }
}

/// Whatever the defaults are, merging leaves every entry whose name the
/// request does not give where it was among its like: with its value, and
/// in the old order.
pub proof fn law_merge_leaves_others(
    defaults: Seq<(Seq<char>, Seq<u8>)>,
    request: Seq<(Seq<char>, Seq<u8>)>,
)
    ensures
        without(merge(defaults, request), names_of(request)) == without(
            defaults,
            names_of(request),
        ),
{
    assert forall|i: int| 0 <= i < request.len() implies names_of(request).contains(
        (#[trigger] request[i]).0,
    ) by {}
    lemma_merge_without(defaults, request, names_of(request));
}

/// Merging leaves the entries outside a set of names as they were, where
/// every name of the request is in the set.
proof fn lemma_merge_without(
    defaults: Seq<(Seq<char>, Seq<u8>)>,
    request: Seq<(Seq<char>, Seq<u8>)>,
    banned: Set<Seq<char>>,
)
    requires
        forall|i: int| 0 <= i < request.len() ==> banned.contains((#[trigger] request[i]).0),
    ensures
        without(merge(defaults, request), banned) == without(defaults, banned),
    decreases request.len(),
{
    if request.len() > 0 {
        let head = request.drop_last();
        let e = request.last();
        assert forall|i: int| 0 <= i < head.len() implies banned.contains(
            (#[trigger] head[i]).0,
        ) by {
            assert(request[i].0 == head[i].0);
        }
        lemma_merge_without(defaults, head, banned);
        assert(banned.contains(request[request.len() - 1].0));
        lemma_put_entries(merge(defaults, head), e.0, e.1);
    }
}

/// Whatever the defaults are, a name that the request gives bears one
/// value after the merge: the one that the request gave it last.
pub proof fn law_merge_sets_once(
    defaults: Seq<(Seq<char>, Seq<u8>)>,
    request: Seq<(Seq<char>, Seq<u8>)>,
    k: int,
)
    requires
        0 <= k < request.len(),
        forall|j: int| k < j < request.len() ==> (#[trigger] request[j]).0 != request[k].0,
    ensures
        bearing(merge(defaults, request), request[k].0) == seq![request[k]],
    decreases request.len(),
{
    let head = request.drop_last();
    let e = request.last();
    lemma_put_entries(merge(defaults, head), e.0, e.1);
    if k < request.len() - 1 {
        assert(head[k] == request[k]);
        assert forall|j: int| k < j < head.len() implies (#[trigger] head[j]).0 != head[k].0 by {
            assert(request[j].0 != request[k].0);
        }
        law_merge_sets_once(defaults, head, k);
        assert(request[request.len() - 1].0 != request[k].0);
    }
}

/// Whatever the defaults are, the merge bears the names of the defaults
/// and those of the request, each once counted.
pub proof fn law_merge_names(
    defaults: Seq<(Seq<char>, Seq<u8>)>,
    request: Seq<(Seq<char>, Seq<u8>)>,
)
    ensures
        forall|x: Seq<char>| #[trigger]
            has_name(merge(defaults, request), x) == (has_name(defaults, x) || has_name(
                request,
                x,
            )),
        name_count(merge(defaults, request)) == name_count(defaults + request),
    decreases request.len(),
{
    let all = defaults + request;
    if request.len() == 0 {
        assert(all =~= defaults);
        assert forall|x: Seq<char>| #[trigger]
            has_name(merge(defaults, request), x) == (has_name(defaults, x) || has_name(
                request,
                x,
            )) by {}
    } else {
        let head = request.drop_last();
        let e = request.last();
        let m = merge(defaults, head);
        law_merge_names(defaults, head);
        lemma_put_entries(m, e.0, e.1);
        lemma_put_count(m, e.0, e.1);
        assert(all.drop_last() =~= defaults + head);
        assert(all.last() == e);
        assert(head.push(e) =~= request);
        assert forall|x: Seq<char>| #[trigger]
            has_name(merge(defaults, request), x) == (has_name(defaults, x) || has_name(
                request,
                x,
            )) by {
            lemma_has_name_push(head, e, x);
            assert(has_name(m, x) == (has_name(defaults, x) || has_name(head, x)));
        }
        assert(has_name(defaults + head, e.0) == has_name(m, e.0)) by {
            lemma_has_name_concat(defaults, head, e.0);
            assert(has_name(m, e.0) == (has_name(defaults, e.0) || has_name(head, e.0)));
        }
    }
}

/// Two lists together bear the names that either bears.
pub proof fn lemma_has_name_concat(
    a: Seq<(Seq<char>, Seq<u8>)>,
    b: Seq<(Seq<char>, Seq<u8>)>,
    x: Seq<char>,
)
    ensures
        has_name(a + b, x) == (has_name(a, x) || has_name(b, x)),
{
    let t = a + b;
    if has_name(t, x) {
        let i = choose|i: int| 0 <= i < t.len() && (#[trigger] t[i]).0 == x;
        if i < a.len() {
            assert(a[i].0 == x);
        } else {
            assert(b[i - a.len()].0 == x);
        }
    }
    if has_name(a, x) {
        let i = choose|i: int| 0 <= i < a.len() && (#[trigger] a[i]).0 == x;
        assert(t[i].0 == x);
    }
    if has_name(b, x) {
        let i = choose|i: int| 0 <= i < b.len() && (#[trigger] b[i]).0 == x;
        assert(t[i + a.len()].0 == x);
    }
}

/// A map has room for a list where its names and the headers of the
/// list together are no more than one above `MOST_NAMES`.
pub proof fn lemma_room_when_few(start: Seq<(Seq<char>, Seq<u8>)>, list: Seq<(Seq<char>, Seq<u8>)>)
    requires
        name_count(start) + list.len() <= MOST_NAMES + 1,
    ensures
        room_for(start, list),
{
    assert forall|k: int| 0 <= k < list.len() implies name_count(
        #[trigger] merge(start, list.take(k)),
    ) <= MOST_NAMES by {
        lemma_merge_count(start, list.take(k));
    }
}

/// Sets each header of a list on a map, in the order of the list.
pub(crate) fn insert_all(headers: HeaderMap<HeaderValue>, list: &Vec<(&'static str, &'static str)>) -> (r:
    HeaderMap<HeaderValue>)
    requires
        room_for(header_entries(headers), static_pairs(list@)),
        forall|i: int|
            0 <= i < list.len() ==> valid_name((#[trigger] list[i]).0@) && valid_value(list[i].1@),
    ensures
        header_entries(r) == merge(header_entries(headers), static_pairs(list@)),
{
    let ghost start = header_entries(headers);
    let mut map = headers;
    let mut i: usize = 0;
    while i < list.len()
        invariant
            i <= list.len(),
            room_for(start, static_pairs(list@)),
            forall|k: int|
                0 <= k < list.len() ==> valid_name((#[trigger] list[k]).0@) && valid_value(
                    list[k].1@,
                ),
            header_entries(map) == merge(start, static_pairs(list@).take(i as int)),
        decreases list.len() - i,
    {
        proof {
            let next = static_pairs(list@).take(i + 1);
            assert(next.drop_last() == static_pairs(list@).take(i as int));
            assert(next.last() == (list@[i as int].0@, ascii_bytes(list@[i as int].1@)));
        }
        let (name, value) = list[i];
        insert_static(&mut map, name, value);
        i = i + 1;
    }
    proof {
        assert(static_pairs(list@).take(list.len() as int) == static_pairs(list@));
    }
    map
}

/// A pass for a name that no entry bears changes nothing.
pub proof fn lemma_scan_absent(s: Seq<(Seq<char>, Seq<u8>)>, name: Seq<char>, value: Seq<u8>)
    requires
        !has_name(s, name),
    ensures
        scan(s, name, value).0 == s,
    decreases s.len(),
{
    if s.len() > 0 {
        let t = s.drop_last();
        assert(s[s.len() - 1].0 != name);
        assert(!has_name(t, name)) by {
            if has_name(t, name) {
                let i = choose|i: int| 0 <= i < t.len() && (#[trigger] t[i]).0 == name;
                assert(s[i].0 == name);
            }
        }
        lemma_scan_absent(t, name, value);
        assert(t.push(s.last()) =~= s);
    }
}

/// Setting a name that no entry bears appends it.
pub proof fn lemma_put_absent(s: Seq<(Seq<char>, Seq<u8>)>, name: Seq<char>, value: Seq<u8>)
    requires
        !has_name(s, name),
    ensures
        put(s, name, value) == s.push((name, value)),
{
    lemma_scan_seen(s, name, value);
    lemma_scan_absent(s, name, value);
}

/// Whether a string is a well-formed header name.
pub fn is_valid_name(s: &str) -> (r: bool)
    ensures
        r == valid_name(s@),
{
    if !s.is_ascii() {
        proof {
            let i = choose|i: int| 0 <= i < s@.len() && !('\0' <= #[trigger] s@[i] <= '\u{7f}');
            assert(!name_char(s@[i]));
        }
        return false;
    }
    let n = s.unicode_len();
    if n == 0 || n > 65535 {
        return false;
    }
    let mut i: usize = 0;
    while i < n
        invariant
            i <= n,
            n == s@.len(),
            s.is_ascii(),
            forall|k: int| 0 <= k < i ==> name_char(#[trigger] s@[k]),
        decreases n - i,
    {
        let b = s.get_ascii(i);
        let ghost c = s@[i as int];
        assert('\0' <= c <= '\u{7f}');
        assert(b == c as u8);
        let fits = (b >= 0x61 && b <= 0x7a) || (b >= 0x30 && b <= 0x39) || b == 0x21 || b == 0x22
            || b == 0x23 || b == 0x24 || b == 0x25 || b == 0x26 || b == 0x27 || b == 0x2a || b
            == 0x2b || b == 0x2d || b == 0x2e || b == 0x5e || b == 0x5f || b == 0x60 || b == 0x7c
            || b == 0x7e;
        assert(fits == name_char(c));
        if !fits {
            return false;
        }
        i = i + 1;
    }
    true
}

/// Whether a string is a well-formed header value.
pub fn is_valid_value(s: &str) -> (r: bool)
    ensures
        r == valid_value(s@),
{
    if !s.is_ascii() {
        proof {
            let i = choose|i: int| 0 <= i < s@.len() && !('\0' <= #[trigger] s@[i] <= '\u{7f}');
            assert(!value_char(s@[i]));
        }
        return false;
    }
    let n = s.unicode_len();
    let mut i: usize = 0;
    while i < n
        invariant
            i <= n,
            n == s@.len(),
            s.is_ascii(),
            forall|k: int| 0 <= k < i ==> value_char(#[trigger] s@[k]),
        decreases n - i,
    {
        let b = s.get_ascii(i);
        let ghost c = s@[i as int];
        assert('\0' <= c <= '\u{7f}');
        assert(b == c as u8);
        let fits = (b >= 0x20 && b < 0x7f) || b == 0x09;
        assert(fits == value_char(c));
        if !fits {
            return false;
        }
        i = i + 1;
    }
    true
}

/// Whether a list of headers can be set on entries: every name and value
/// is well formed, and the map has room for each header in turn.
pub open spec fn acceptable(
    start: Seq<(Seq<char>, Seq<u8>)>,
    list: Seq<(&'static str, &'static str)>,
) -> bool {
    &&& room_for(start, static_pairs(list))
    &&& forall|i: int|
        0 <= i < list.len() ==> valid_name((#[trigger] list[i]).0@) && valid_value(list[i].1@)
}

/// Sets each header of a list on a map, in the order of the list: a name
/// that the map bears takes the new value in place, a new name goes to
/// the end. `None` is returned where the list is not acceptable.
pub fn set_headers(headers: HeaderMap<HeaderValue>, list: &Vec<(&'static str, &'static str)>) -> (r:
    Option<HeaderMap<HeaderValue>>)
    ensures
        match r {
            Some(m) => acceptable(header_entries(headers), list@) && header_entries(m) == merge(
                header_entries(headers),
                static_pairs(list@),
            ),
            None => !acceptable(header_entries(headers), list@),
        },
{
    let ghost start = header_entries(headers);
    let mut i: usize = 0;
    while i < list.len()
        invariant
            i <= list.len(),
            forall|k: int|
                0 <= k < i ==> valid_name((#[trigger] list[k]).0@) && valid_value(list[k].1@),
        decreases list.len() - i,
    {
        let (name, value) = list[i];
        if !is_valid_name(name) || !is_valid_value(value) {
            return None;
        }
        i = i + 1;
    }
    let mut map = headers;
    let mut k: usize = 0;
    while k < list.len()
        invariant
            k <= list.len(),
            start == header_entries(headers),
            forall|j: int|
                0 <= j < list.len() ==> valid_name((#[trigger] list[j]).0@) && valid_value(
                    list[j].1@,
                ),
            forall|j: int|
                0 <= j < k ==> name_count(#[trigger] merge(start, static_pairs(list@).take(j)))
                    <= MOST_NAMES,
            header_entries(map) == merge(start, static_pairs(list@).take(k as int)),
        decreases list.len() - k,
    {
        if name_total(&map) > MOST_NAMES {
            assert(name_count(merge(start, static_pairs(list@).take(k as int))) > MOST_NAMES);
            return None;
        }
        proof {
            let next = static_pairs(list@).take(k + 1);
            assert(next.drop_last() == static_pairs(list@).take(k as int));
            assert(next.last() == (list@[k as int].0@, ascii_bytes(list@[k as int].1@)));
        }
        let (name, value) = list[k];
        insert_static(&mut map, name, value);
        k = k + 1;
    }
    proof {
        assert(static_pairs(list@).take(list.len() as int) == static_pairs(list@));
    }
    Some(map)
}

} // verus!
