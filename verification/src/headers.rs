//! Selection of the request headers that the proxy passes on upstream.

use vstd::prelude::*;
use crate::text::{eq_ignore_ascii_case, str_eq_ignore_ascii_case};

verus! {

/// One request header: its name and the bytes of its value.
pub struct Header {
    pub name: String,
    pub value: Vec<u8>,
}

impl View for Header {
    type V = (Seq<char>, Seq<u8>);

    open spec fn view(&self) -> (Seq<char>, Seq<u8>) {
        (self.name@, self.value@)
    }
}

/// The abstract form of a list of headers, in order.
pub open spec fn header_views(hs: Seq<Header>) -> Seq<(Seq<char>, Seq<u8>)> {
    hs.map_values(|h: Header| h@)
}

/// The value of the first header in `hs` whose name is `name`, header names
/// compared without regard to ASCII case; `None` when there is none.
pub open spec fn first_value(hs: Seq<(Seq<char>, Seq<u8>)>, name: Seq<char>) -> Option<Seq<u8>>
    decreases hs.len(),
{
    if hs.len() == 0 {
        None
    } else if eq_ignore_ascii_case(hs[0].0, name) {
        Some(hs[0].1)
    } else {
        first_value(hs.drop_first(), name)
    }
}

/// The name `Authorization`.
pub open spec fn authorization_name() -> Seq<char> {
    seq!['A', 'u', 't', 'h', 'o', 'r', 'i', 'z', 'a', 't', 'i', 'o', 'n']
}

/// The name `Prefer`.
pub open spec fn prefer_name() -> Seq<char> {
    seq!['P', 'r', 'e', 'f', 'e', 'r']
}

/// A header `name: value` when there is a value, nothing otherwise.
pub open spec fn optional_header(name: Seq<char>, value: Option<Seq<u8>>) -> Seq<(Seq<char>, Seq<u8>)> {
    match value {
        Some(v) => seq![(name, v)],
        None => Seq::empty(),
    }
}

/// The headers passed upstream for a request with headers `hs`: its
/// `Authorization` header, then its `Prefer` header, each where present.
pub open spec fn forwarded_headers(hs: Seq<(Seq<char>, Seq<u8>)>) -> Seq<(Seq<char>, Seq<u8>)> {
    optional_header(authorization_name(), first_value(hs, authorization_name()))
        + optional_header(prefer_name(), first_value(hs, prefer_name()))
}

/// A value that `first_value` finds is the value of a header of the list,
/// one whose name matches, and no earlier header's name matches.
pub proof fn first_value_is_from_list(hs: Seq<(Seq<char>, Seq<u8>)>, name: Seq<char>)
    ensures
        match first_value(hs, name) {
            Some(v) => exists|i: int|
                0 <= i < hs.len() && eq_ignore_ascii_case(#[trigger] hs[i].0, name) && hs[i].1 == v
                    && forall|j: int| 0 <= j < i ==> !eq_ignore_ascii_case(#[trigger] hs[j].0, name),
            None => forall|i: int| 0 <= i < hs.len() ==> !eq_ignore_ascii_case(#[trigger] hs[i].0, name),
        },
    decreases hs.len(),
{
    if hs.len() > 0 && !eq_ignore_ascii_case(hs[0].0, name) {
        let rest = hs.drop_first();
        first_value_is_from_list(rest, name);
        match first_value(rest, name) {
            Some(v) => {
                let k = choose|k: int|
                    0 <= k < rest.len() && eq_ignore_ascii_case(#[trigger] rest[k].0, name) && rest[k].1 == v
                        && forall|j: int| 0 <= j < k ==> !eq_ignore_ascii_case(#[trigger] rest[j].0, name);
                assert(hs[k + 1] == rest[k]);
                assert forall|j: int| 0 <= j < k + 1 implies !eq_ignore_ascii_case(#[trigger] hs[j].0, name) by {
                    if j > 0 {
                        assert(hs[j] == rest[j - 1]);
                    }
                }
            },
            None => {
                assert forall|i: int| 0 <= i < hs.len() implies !eq_ignore_ascii_case(#[trigger] hs[i].0, name) by {
                    if i > 0 {
                        assert(hs[i] == rest[i - 1]);
                    }
                }
            },
        }
    }
}

/// The proxy passes on at most two headers, only `Authorization` and
/// `Prefer`, each at most once, and each with a value that the request
/// carries under that name (compared without regard to ASCII case).
pub proof fn forwarded_headers_come_from_request(hs: Seq<(Seq<char>, Seq<u8>)>)
    ensures
        forwarded_headers(hs).len() <= 2,
        forall|k: int| 0 <= k < forwarded_headers(hs).len() ==> {
            let (n, v) = #[trigger] forwarded_headers(hs)[k];
            &&& (n == authorization_name() || n == prefer_name())
            &&& exists|i: int| 0 <= i < hs.len() && eq_ignore_ascii_case(#[trigger] hs[i].0, n) && hs[i].1 == v
        },
        forwarded_headers(hs).len() == 2 ==> forwarded_headers(hs)[0].0 == authorization_name()
            && forwarded_headers(hs)[1].0 == prefer_name(),
{
    first_value_is_from_list(hs, authorization_name());
    first_value_is_from_list(hs, prefer_name());
    let a = optional_header(authorization_name(), first_value(hs, authorization_name()));
    let p = optional_header(prefer_name(), first_value(hs, prefer_name()));
    assert forall|k: int| 0 <= k < forwarded_headers(hs).len() implies {
        let (n, v) = #[trigger] forwarded_headers(hs)[k];
        &&& (n == authorization_name() || n == prefer_name())
        &&& exists|i: int| 0 <= i < hs.len() && eq_ignore_ascii_case(#[trigger] hs[i].0, n) && hs[i].1 == v
    } by {
        if k < a.len() {
            assert(forwarded_headers(hs)[k] == a[k]);
        } else {
            assert(forwarded_headers(hs)[k] == p[k - a.len()]);
        }
    }
}

/// `first_value` finds the value of the first header whose name matches.
proof fn first_value_at(hs: Seq<(Seq<char>, Seq<u8>)>, name: Seq<char>, i: int)
    requires
        0 <= i < hs.len(),
        eq_ignore_ascii_case(hs[i].0, name),
        forall|j: int| 0 <= j < i ==> !eq_ignore_ascii_case(#[trigger] hs[j].0, name),
    ensures
        first_value(hs, name) == Some(hs[i].1),
    decreases hs.len(),
{
    if i > 0 {
        let rest = hs.drop_first();
        assert(!eq_ignore_ascii_case(hs[0].0, name));
        assert(rest[i - 1] == hs[i]);
        assert forall|j: int| 0 <= j < i - 1 implies !eq_ignore_ascii_case(#[trigger] rest[j].0, name) by {
            assert(rest[j] == hs[j + 1]);
        }
        first_value_at(rest, name, i - 1);
    }
}

/// A request's `Authorization` and `Prefer` headers are passed on whatever
/// their values: where the header at `i` is the first whose name is
/// `Authorization` (in any ASCII case), the first forwarded header is
/// `Authorization` with exactly its value; where it is the first whose name
/// is `Prefer`, the last forwarded header is `Prefer` with exactly its value.
/// Where the request carries both, both are forwarded.
pub proof fn carried_headers_are_forwarded(hs: Seq<(Seq<char>, Seq<u8>)>, i: int)
    requires
        0 <= i < hs.len(),
    ensures
        eq_ignore_ascii_case(hs[i].0, seq!['A', 'u', 't', 'h', 'o', 'r', 'i', 'z', 'a', 't', 'i', 'o', 'n']) && (forall|j: int|
            0 <= j < i ==> !eq_ignore_ascii_case(#[trigger] hs[j].0, seq!['A', 'u', 't', 'h', 'o', 'r', 'i', 'z', 'a', 't', 'i', 'o', 'n'])) ==> forwarded_headers(hs).len() >= 1
            && forwarded_headers(hs)[0] == (seq!['A', 'u', 't', 'h', 'o', 'r', 'i', 'z', 'a', 't', 'i', 'o', 'n'], hs[i].1),
        eq_ignore_ascii_case(hs[i].0, seq!['P', 'r', 'e', 'f', 'e', 'r']) && (forall|j: int|
            0 <= j < i ==> !eq_ignore_ascii_case(#[trigger] hs[j].0, seq!['P', 'r', 'e', 'f', 'e', 'r'])) ==> forwarded_headers(hs).len() >= 1
            && forwarded_headers(hs).last() == (seq!['P', 'r', 'e', 'f', 'e', 'r'], hs[i].1)
            && forwarded_headers(hs).contains((seq!['P', 'r', 'e', 'f', 'e', 'r'], hs[i].1)),
{
    assert(authorization_name() =~= seq!['A', 'u', 't', 'h', 'o', 'r', 'i', 'z', 'a', 't', 'i', 'o', 'n']);
    assert(prefer_name() =~= seq!['P', 'r', 'e', 'f', 'e', 'r']);
    let f = forwarded_headers(hs);
    if eq_ignore_ascii_case(hs[i].0, seq!['A', 'u', 't', 'h', 'o', 'r', 'i', 'z', 'a', 't', 'i', 'o', 'n']) && (forall|j: int|
        0 <= j < i ==> !eq_ignore_ascii_case(#[trigger] hs[j].0, seq!['A', 'u', 't', 'h', 'o', 'r', 'i', 'z', 'a', 't', 'i', 'o', 'n'])) {
        first_value_at(hs, authorization_name(), i);
        assert(f[0] == (seq!['A', 'u', 't', 'h', 'o', 'r', 'i', 'z', 'a', 't', 'i', 'o', 'n'], hs[i].1));
    }
    if eq_ignore_ascii_case(hs[i].0, seq!['P', 'r', 'e', 'f', 'e', 'r']) && (forall|j: int|
        0 <= j < i ==> !eq_ignore_ascii_case(#[trigger] hs[j].0, seq!['P', 'r', 'e', 'f', 'e', 'r'])) {
        first_value_at(hs, prefer_name(), i);
        assert(f[f.len() - 1] == (seq!['P', 'r', 'e', 'f', 'e', 'r'], hs[i].1));
        assert(f.contains((seq!['P', 'r', 'e', 'f', 'e', 'r'], hs[i].1)));
    }
}

/// Looks a header up by name, without regard to ASCII case, and returns the
/// value of its first occurrence.
pub fn find_header(headers: &Vec<Header>, name: &str) -> (r: Option<Vec<u8>>)
    ensures
        match r {
            Some(v) => first_value(header_views(headers@), name@) == Some(v@),
            None => first_value(header_views(headers@), name@) is None,
        },
{
    let ghost hs = header_views(headers@);
    let n: usize = headers.len();
    let mut i: usize = 0;
    assert(hs.subrange(0, n as int) =~= hs);
    while i < n
        invariant
            n == headers@.len(),
            hs == header_views(headers@),
            i <= n,
            first_value(hs, name@) == first_value(hs.subrange(i as int, n as int), name@),
        decreases n - i,
    {
        let h = &headers[i];
        assert(hs.subrange(i as int, n as int)[0] == h@);
        if str_eq_ignore_ascii_case(h.name.as_str(), name) {
            let v = h.value.clone();
            assert(v@ =~= h.value@);
            return Some(v);
        }
        assert(hs.subrange(i as int, n as int).drop_first() =~= hs.subrange(i + 1, n as int));
        i = i + 1;
    }
    None
}

/// Pushes `name: value` onto `out` when there is a value.
fn push_optional(out: &mut Vec<Header>, name: &str, value: Option<Vec<u8>>)
    ensures
        header_views(final(out)@) == header_views(old(out)@) + optional_header(
            name@,
            match value {
                Some(v) => Some(v@),
                None => None,
            },
        ),
{
    match value {
        Some(v) => {
            let ghost before = header_views(old(out)@);
            out.push(Header { name: String::from_str(name), value: v });
            assert(header_views(out@) =~= before + optional_header(name@, Some(v@)));
        },
        None => {
            assert(header_views(out@) =~= header_views(old(out)@) + Seq::empty());
        },
    }
}

/// The headers of an incoming request that are passed on upstream: the
/// `Authorization` header and then the `Prefer` header, each under that
/// name and with the value of its first occurrence, where present.
pub fn include_headers(headers: &Vec<Header>) -> (r: Vec<Header>)
    ensures
        header_views(r@) == forwarded_headers(header_views(headers@)),
{
    let auth_name = "Authorization";
    let prefer_name_text = "Prefer";
    proof {
        reveal_strlit("Authorization");
        reveal_strlit("Prefer");
        assert(auth_name@ =~= authorization_name());
        assert(prefer_name_text@ =~= prefer_name());
    }
    let auth = find_header(headers, auth_name);
    let prefer = find_header(headers, prefer_name_text);
    let mut out: Vec<Header> = Vec::new();
    assert(header_views(out@) =~= Seq::empty());
    push_optional(&mut out, auth_name, auth);
    push_optional(&mut out, prefer_name_text, prefer);
    assert(header_views(out@) =~= forwarded_headers(header_views(headers@)));
    out
}

} // verus!
