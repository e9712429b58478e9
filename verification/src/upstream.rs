//! What the proxy sends upstream for an incoming request: the URL, the
//! method and the headers.

use vstd::prelude::*;
use crate::headers::{Header, header_views, forwarded_headers, include_headers};
use crate::text::str_equal;

verus! {

/// `http://`
pub open spec fn http_scheme() -> Seq<char> {
    seq!['h', 't', 't', 'p', ':', '/', '/']
}

/// The query part of the upstream URL: `?` and the query, or nothing for an
/// empty query.
pub open spec fn query_suffix(query: Seq<char>) -> Seq<char> {
    if query.len() == 0 {
        Seq::empty()
    } else {
        seq!['?'] + query
    }
}

/// `http://{host}:{port}/{path}`, followed by `?{query}` when the query is
/// not empty.
pub open spec fn upstream_url(host: Seq<char>, port: Seq<char>, path: Seq<char>, query: Seq<char>) -> Seq<char> {
    http_scheme() + host + seq![':'] + port + seq!['/'] + path + query_suffix(query)
}

/// The URL on the upstream server for a request to `path` with query string
/// `query`.
pub fn build_url(host: &str, port: &str, path: &str, query: &str) -> (url: String)
    ensures
        url@ == upstream_url(host@, port@, path@, query@),
        query@.len() == 0 ==> url@ == seq!['h', 't', 't', 'p', ':', '/', '/'] + host@ + seq![':'] + port@ + seq!['/'] + path@,
        query@.len() > 0 ==> url@ == seq!['h', 't', 't', 'p', ':', '/', '/'] + host@ + seq![':'] + port@ + seq!['/'] + path@ + seq!['?']
            + query@,
{
    let mut url = String::from_str("http://");
    proof {
        reveal_strlit("http://");
        reveal_strlit(":");
        reveal_strlit("/");
        reveal_strlit("?");
    }
    url.append(host);
    url.append(":");
    url.append(port);
    url.append("/");
    url.append(path);
    if !query.is_empty() {
        url.append("?");
        url.append(query);
    }
    assert(url@ =~= upstream_url(host@, port@, path@, query@));
    url
}

/// The methods that the proxy passes on.
#[derive(PartialEq, Eq, Structural, Clone, Copy, Debug)]
pub enum UpstreamMethod {
    Get,
    Delete,
    Post,
    Patch,
}

/// The two routes of the proxy: one for requests without a body (`GET`,
/// `DELETE`), one for requests with a JSON body (`POST`, `PATCH`).
#[derive(PartialEq, Eq, Structural, Clone, Copy, Debug)]
pub enum Route {
    NoBody,
    WithBody,
}

/// The name of a method as it stands in a request line.
pub open spec fn method_name(m: UpstreamMethod) -> Seq<char> {
    match m {
        UpstreamMethod::Get => seq!['G', 'E', 'T'],
        UpstreamMethod::Delete => seq!['D', 'E', 'L', 'E', 'T', 'E'],
        UpstreamMethod::Post => seq!['P', 'O', 'S', 'T'],
        UpstreamMethod::Patch => seq!['P', 'A', 'T', 'C', 'H'],
    }
}

/// Whether `route` serves method `m`.
pub open spec fn route_accepts(route: Route, m: UpstreamMethod) -> bool {
    match route {
        Route::NoBody => m == UpstreamMethod::Get || m == UpstreamMethod::Delete,
        Route::WithBody => m == UpstreamMethod::Post || m == UpstreamMethod::Patch,
    }
}

/// The method named `name`, where it is one that `route` serves.
pub open spec fn routed_method(route: Route, name: Seq<char>) -> Option<UpstreamMethod> {
    if route == Route::NoBody && name == method_name(UpstreamMethod::Get) {
        Some(UpstreamMethod::Get)
    } else if route == Route::NoBody && name == method_name(UpstreamMethod::Delete) {
        Some(UpstreamMethod::Delete)
    } else if route == Route::WithBody && name == method_name(UpstreamMethod::Post) {
        Some(UpstreamMethod::Post)
    } else if route == Route::WithBody && name == method_name(UpstreamMethod::Patch) {
        Some(UpstreamMethod::Patch)
    } else {
        None
    }
}

/// The upstream method for an incoming request with method `method` on
/// `route`; `None` for a method that the route does not serve.
pub fn route_method(route: Route, method: &str) -> (r: Option<UpstreamMethod>)
    ensures
        r == routed_method(route, method@),
{
    proof {
        reveal_strlit("GET");
        reveal_strlit("DELETE");
        reveal_strlit("POST");
        reveal_strlit("PATCH");
        assert("GET"@ =~= method_name(UpstreamMethod::Get));
        assert("DELETE"@ =~= method_name(UpstreamMethod::Delete));
        assert("POST"@ =~= method_name(UpstreamMethod::Post));
        assert("PATCH"@ =~= method_name(UpstreamMethod::Patch));
    }
    match route {
        Route::NoBody => {
            if str_equal(method, "GET") {
                Some(UpstreamMethod::Get)
            } else if str_equal(method, "DELETE") {
                Some(UpstreamMethod::Delete)
            } else {
                None
            }
        },
        Route::WithBody => {
            if str_equal(method, "POST") {
                Some(UpstreamMethod::Post)
            } else if str_equal(method, "PATCH") {
                Some(UpstreamMethod::Patch)
            } else {
                None
            }
        },
    }
}

/// The body-less route serves exactly `GET` and `DELETE`, the body route
/// exactly `POST` and `PATCH`, each under its own name, case included; every
/// other method name is served by neither.
pub proof fn routes_serve_their_methods(route: Route, name: Seq<char>)
    ensures
        route == Route::NoBody ==> (routed_method(route, name) == Some(UpstreamMethod::Get) <==> name == seq!['G', 'E', 'T']),
        route == Route::NoBody ==> (routed_method(route, name) == Some(UpstreamMethod::Delete) <==> name == seq!['D', 'E', 'L', 'E', 'T', 'E']),
        route == Route::NoBody ==> (routed_method(route, name) is None <==> name != seq!['G', 'E', 'T'] && name != seq!['D', 'E', 'L', 'E', 'T', 'E']),
        route == Route::WithBody ==> (routed_method(route, name) == Some(UpstreamMethod::Post) <==> name == seq!['P', 'O', 'S', 'T']),
        route == Route::WithBody ==> (routed_method(route, name) == Some(UpstreamMethod::Patch) <==> name == seq!['P', 'A', 'T', 'C', 'H']),
        route == Route::WithBody ==> (routed_method(route, name) is None <==> name != seq!['P', 'O', 'S', 'T'] && name != seq!['P', 'A', 'T', 'C', 'H']),
{
    assert(method_name(UpstreamMethod::Get) =~= seq!['G', 'E', 'T']);
    assert(method_name(UpstreamMethod::Delete) =~= seq!['D', 'E', 'L', 'E', 'T', 'E']);
    assert(method_name(UpstreamMethod::Post) =~= seq!['P', 'O', 'S', 'T']);
    assert(method_name(UpstreamMethod::Patch) =~= seq!['P', 'A', 'T', 'C', 'H']);
}

/// A route passes a method on unchanged, and serves exactly the methods it
/// accepts: a method that comes out carries the name that went in and is one
/// the route accepts, and every accepted method comes out under its own name.
pub proof fn routed_method_keeps_method(route: Route, name: Seq<char>, m: UpstreamMethod)
    ensures
        routed_method(route, name) == Some(m) ==> method_name(m) == name && route_accepts(route, m),
        route_accepts(route, m) ==> routed_method(route, method_name(m)) == Some(m),
{
    assert(method_name(UpstreamMethod::Get) != method_name(UpstreamMethod::Delete));
    assert(method_name(UpstreamMethod::Post) != method_name(UpstreamMethod::Patch));
}


/// The query of an incoming request reaches the upstream URL verbatim: the
/// URL for a non-empty query is the URL without a query, then `?`, then the
/// query text itself; the URL without a query is `http://host:port/path`.
pub proof fn query_is_passed_on_verbatim(host: Seq<char>, port: Seq<char>, path: Seq<char>, query: Seq<char>)
    ensures
        upstream_url(host, port, path, Seq::empty()) == seq!['h', 't', 't', 'p', ':', '/', '/'] + host + seq![':'] + port + seq!['/'] + path,
        query.len() > 0 ==> upstream_url(host, port, path, query) == upstream_url(host, port, path, Seq::empty())
            + seq!['?'] + query,
        query.len() > 0 ==> upstream_url(host, port, path, query).subrange(
            upstream_url(host, port, path, query).len() - query.len(),
            upstream_url(host, port, path, query).len() as int,
        ) == query,
{
    let base = upstream_url(host, port, path, Seq::empty());
    assert(base =~= seq!['h', 't', 't', 'p', ':', '/', '/'] + host + seq![':'] + port + seq!['/'] + path);
    if query.len() > 0 {
        let full = upstream_url(host, port, path, query);
        assert(full =~= base + seq!['?'] + query);
        assert(full.subrange(full.len() - query.len(), full.len() as int) =~= query);
    }
}

/// The proxy refuses a request only when it has no body, its path is exactly
/// `sessions` and it has no query; every other path, the empty one and
/// longer names such as `sessions_precomputed` among them, and every request
/// with a query, is passed on.
pub proof fn only_the_whole_sessions_table_is_refused(route: Route, path: Seq<char>, query: Seq<char>)
    ensures
        addresses_whole_sessions_table(route, path, query) ==> route == Route::NoBody && path == seq!['s', 'e', 's', 's', 'i', 'o', 'n', 's']
            && query.len() == 0,
        route == Route::NoBody && path == seq!['s', 'e', 's', 's', 'i', 'o', 'n', 's'] && query.len() == 0 ==> addresses_whole_sessions_table(
            route,
            path,
            query,
        ),
        path != seq!['s', 'e', 's', 's', 'i', 'o', 'n', 's'] ==> !addresses_whole_sessions_table(route, path, query),
        query.len() > 0 ==> !addresses_whole_sessions_table(route, path, query),
{
}

/// The request that the proxy makes upstream.
pub struct UpstreamRequest {
    pub method: UpstreamMethod,
    pub url: String,
    pub headers: Vec<Header>,
}

/// What the proxy does with an incoming request.
pub enum ProxyPlan {
    /// Send this request upstream and answer with its response.
    Forward(UpstreamRequest),
    /// Answer without contacting the upstream server.
    Blocked,
}

/// `sessions`
pub open spec fn sessions_path() -> Seq<char> {
    seq!['s', 'e', 's', 's', 'i', 'o', 'n', 's']
}

/// A request without a body to the whole `/sessions` table: path `sessions`
/// and no query. The proxy does not pass such requests on.
pub open spec fn addresses_whole_sessions_table(route: Route, path: Seq<char>, query: Seq<char>) -> bool {
    route == Route::NoBody && path == sessions_path() && query.len() == 0
}

/// Whether a request on `route` to `path` with query `query` addresses the
/// whole `/sessions` table without a body.
pub fn is_whole_sessions_request(route: Route, path: &str, query: &str) -> (r: bool)
    ensures
        r == addresses_whole_sessions_table(route, path@, query@),
        r == (route == Route::NoBody && path@ == seq!['s', 'e', 's', 's', 'i', 'o', 'n', 's'] && query@.len() == 0),
{
    proof {
        reveal_strlit("sessions");
        assert("sessions"@ =~= sessions_path());
    }
    match route {
        Route::NoBody => query.is_empty() && str_equal(path, "sessions"),
        Route::WithBody => false,
    }
}

/// Plans what to do with an incoming request with method `method` on
/// `route`, to `path` with query `query` and headers `headers`: block it
/// where it addresses the whole `/sessions` table without a body, forward it
/// otherwise. The route must serve the method.
pub fn plan_upstream(
    route: Route,
    method: &str,
    host: &str,
    port: &str,
    path: &str,
    query: &str,
    headers: &Vec<Header>,
) -> (r: ProxyPlan)
    requires
        routed_method(route, method@) is Some,
    ensures
        r is Blocked <==> addresses_whole_sessions_table(route, path@, query@),
        r is Blocked <==> (route == Route::NoBody && path@ == seq!['s', 'e', 's', 's', 'i', 'o', 'n', 's'] && query@.len() == 0),
        r matches ProxyPlan::Forward(req) ==> {
            &&& routed_method(route, method@) == Some(req.method)
            &&& req.url@ == upstream_url(host@, port@, path@, query@)
            &&& header_views(req.headers@) == forwarded_headers(header_views(headers@))
        },
{
    if is_whole_sessions_request(route, path, query) {
        return ProxyPlan::Blocked;
    }
    let m = match route_method(route, method) {
        Some(m) => m,
        None => unreached(),
    };
    let url = build_url(host, port, path, query);
    let forwarded = include_headers(headers);
    ProxyPlan::Forward(UpstreamRequest { method: m, url, headers: forwarded })
}

} // verus!
