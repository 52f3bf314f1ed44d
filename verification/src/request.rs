//! Requests, responses and routing: the data of the per-request pipeline
//! and the decision that matches a request to a registered endpoint.
//!
//! Each executable type has a view — its mathematical shape — and every
//! contract speaks over views.
use vstd::prelude::*;

verus! {

/// An HTTP request method.
#[derive(Clone, Copy, Debug, PartialEq, Eq, Structural)]
pub enum Method {
    /// GET
    Get,
    /// HEAD
    Head,
    /// POST
    Post,
    /// PUT
    Put,
    /// DELETE
    Delete,
    /// PATCH
    Patch,
    /// OPTIONS
    Options,
}

/// One request or response header.
pub struct Header {
    /// The header's name.
    pub name: String,
    /// The header's value.
    pub value: String,
}

/// The mathematical shape of a header.
pub struct HeaderView {
    /// The header's name.
    pub name: Seq<char>,
    /// The header's value.
    pub value: Seq<char>,
}

impl View for Header {
    type V = HeaderView;

    open spec fn view(&self) -> HeaderView {
        HeaderView { name: self.name@, value: self.value@ }
    }
}

/// A request as the pipeline sees it: method, path, headers, body, and the
/// correlation attributes the pipeline fills in.
pub struct Request {
    /// The request method.
    pub method: Method,
    /// The request path.
    pub path: String,
    /// The request headers.
    pub headers: Vec<Header>,
    /// The request body.
    pub body: Vec<u8>,
    /// The correlation identifier; assigned by the pipeline when the
    /// client supplied none.
    pub request_id: Option<u64>,
    /// The distributed-trace context; extracted from the headers or
    /// originated by the pipeline.
    pub trace: Option<String>,
}

/// The mathematical shape of a request.
pub struct RequestView {
    /// The request method.
    pub method: Method,
    /// The request path.
    pub path: Seq<char>,
    /// The request headers.
    pub headers: Seq<HeaderView>,
    /// The request body.
    pub body: Seq<u8>,
    /// The correlation identifier, once assigned.
    pub request_id: Option<u64>,
    /// The trace context, once propagated.
    pub trace: Option<Seq<char>>,
}

impl View for Request {
    type V = RequestView;

    open spec fn view(&self) -> RequestView {
        RequestView {
            method: self.method,
            path: self.path@,
            headers: self.headers@.map_values(|h: Header| h@),
            body: self.body@,
            request_id: self.request_id,
            trace: match self.trace {
                Some(t) => Some(t@),
                None => None,
            },
        }
    }
}

/// A response: status, headers, and the body.
pub struct Response {
    /// The status code.
    pub status: u16,
    /// The response headers.
    pub headers: Vec<Header>,
    /// The response body.
    pub body: Vec<u8>,
}

/// The mathematical shape of a response.
pub struct ResponseView {
    /// The status code.
    pub status: u16,
    /// The response headers.
    pub headers: Seq<HeaderView>,
    /// The response body.
    pub body: Seq<u8>,
}

impl View for Response {
    type V = ResponseView;

    open spec fn view(&self) -> ResponseView {
        ResponseView {
            status: self.status,
            headers: self.headers@.map_values(|h: Header| h@),
            body: self.body@,
        }
    }
}

/// A registered endpoint: the method and path it serves, whether its
/// handler is synchronous, and the handler's key.
pub struct Endpoint {
    /// The method served.
    pub method: Method,
    /// The path served, matched exactly.
    pub path: String,
    /// Whether the handler must run on the blocking pool.
    pub blocking: bool,
    /// The registered handler's key.
    pub handler: u64,
}

/// The mathematical shape of an endpoint registration.
pub struct EndpointView {
    /// The method served.
    pub method: Method,
    /// The path served.
    pub path: Seq<char>,
    /// Whether the handler must run on the blocking pool.
    pub blocking: bool,
    /// The registered handler's key.
    pub handler: u64,
}

impl View for Endpoint {
    type V = EndpointView;

    open spec fn view(&self) -> EndpointView {
        EndpointView {
            method: self.method,
            path: self.path@,
            blocking: self.blocking,
            handler: self.handler,
        }
    }
}

/// Where routing sent a request.
#[derive(Clone, Copy, Debug, PartialEq, Eq, Structural)]
pub enum RouteOutcome {
    /// An endpoint matched the path and the method.
    Matched {
        /// The registered handler's key.
        handler: u64,
        /// Whether the handler is synchronous and must run on the
        /// blocking pool.
        blocking: bool,
    },
    /// No endpoint's path matched.
    NotFound,
    /// Some endpoint's path matched, but none with this method.
    MethodNotAllowed,
}

/// Whether an endpoint serves exactly this method and path.
pub open spec fn matches_route(e: EndpointView, m: Method, p: Seq<char>) -> bool {
    e.method == m && e.path == p
}

/// The routing decision: the first endpoint matching both path and method
/// wins; a path match under the wrong method alone yields
/// method-not-allowed; without even that the route is not found.
pub open spec fn route_spec(eps: Seq<EndpointView>, m: Method, p: Seq<char>) -> RouteOutcome
    decreases eps.len(),
{
    if eps.len() == 0 {
        RouteOutcome::NotFound
    } else if matches_route(eps[0], m, p) {
        RouteOutcome::Matched { handler: eps[0].handler, blocking: eps[0].blocking }
    } else {
        let rest = route_spec(eps.drop_first(), m, p);
        if eps[0].path == p && rest is NotFound {
            RouteOutcome::MethodNotAllowed
        } else {
            rest
        }
    }
}

/// The views of a sequence of registered endpoints.
pub open spec fn endpoints_view(eps: Seq<Endpoint>) -> Seq<EndpointView> {
    eps.map_values(|e: Endpoint| e@)
}

/// Folds a later routing decision with whether an earlier endpoint already
/// matched the path: a path match seen anywhere turns a not-found into
/// method-not-allowed.
pub open spec fn fold_path_match(path_seen: bool, rest: RouteOutcome) -> RouteOutcome {
    if path_seen && rest is NotFound {
        RouteOutcome::MethodNotAllowed
    } else {
        rest
    }
}

/// Splits the routing decision at position `i`: with no full match before
/// `i`, the decision is the decision over the remainder, adjusted by
/// whether a path match was already seen.
proof fn lemma_route_spec_split(eps: Seq<EndpointView>, m: Method, p: Seq<char>, i: int)
    requires
        0 <= i <= eps.len(),
        forall|k: int| 0 <= k < i ==> !matches_route(#[trigger] eps[k], m, p),
    ensures
        route_spec(eps, m, p) == fold_path_match(
            exists|k: int| 0 <= k < i && #[trigger] eps[k].path == p,
            route_spec(eps.skip(i), m, p),
        ),
    decreases i,
{
    if i == 0 {
        assert(eps.skip(0) =~= eps);
    } else {
        lemma_route_spec_split(eps, m, p, i - 1);
        assert(eps.skip(i - 1).drop_first() =~= eps.skip(i));
        assert(eps.skip(i - 1).len() > 0);
        assert(eps.skip(i - 1)[0] == eps[i - 1]);
        if eps[i - 1].path == p {
            assert(exists|k: int| 0 <= k < i && #[trigger] eps[k].path == p);
        } else {
            assert((exists|k: int| 0 <= k < i && #[trigger] eps[k].path == p) == (exists|k: int|
                0 <= k < i - 1 && #[trigger] eps[k].path == p));
        }
    }
}

/// Routes a request: scans the registered endpoints in order and returns
/// the decision `route_spec` describes.
pub fn route(eps: &Vec<Endpoint>, m: Method, p: &String) -> (r: RouteOutcome)
    ensures
        r == route_spec(endpoints_view(eps@), m, p@),
{
    let ghost veps = endpoints_view(eps@);
    let mut path_seen: bool = false;
    let mut i: usize = 0;
    while i < eps.len()
        invariant
            0 <= i <= eps.len(),
            veps == endpoints_view(eps@),
            veps.len() == eps.len(),
            forall|k: int| 0 <= k < eps.len() ==> #[trigger] veps[k] == eps@[k]@,
            forall|k: int| 0 <= k < i ==> !matches_route(#[trigger] veps[k], m, p@),
            path_seen == exists|k: int| 0 <= k < i && #[trigger] veps[k].path == p@,
        decreases eps.len() - i,
    {
        let e = &eps[i];
        let same_path: bool = e.path == *p;
        if same_path && e.method == m {
            proof {
                lemma_route_spec_split(veps, m, p@, i as int);
                assert(veps.skip(i as int)[0] == veps[i as int]);
                assert(matches_route(veps[i as int], m, p@));
            }
            return RouteOutcome::Matched { handler: e.handler, blocking: e.blocking };
        }
        path_seen = path_seen || same_path;
        i = i + 1;
    }
    proof {
        lemma_route_spec_split(veps, m, p@, eps.len() as int);
        assert(veps.skip(eps.len() as int) =~= Seq::<EndpointView>::empty());
    }
    if path_seen {
        RouteOutcome::MethodNotAllowed
    } else {
        RouteOutcome::NotFound
    }
}

/// The value of the first header with this name, if any.
pub open spec fn header_value(headers: Seq<HeaderView>, name: Seq<char>) -> Option<Seq<char>>
    decreases headers.len(),
{
    if headers.len() == 0 {
        Option::<Seq<char>>::None
    } else if headers[0].name == name {
        Some(headers[0].value)
    } else {
        header_value(headers.drop_first(), name)
    }
}

/// Looking up a header may skip a prefix in which the name does not occur.
proof fn lemma_header_value_skip(headers: Seq<HeaderView>, name: Seq<char>, i: int)
    requires
        0 <= i <= headers.len(),
        forall|k: int| 0 <= k < i ==> (#[trigger] headers[k].name) != name,
    ensures
        header_value(headers, name) == header_value(headers.skip(i), name),
    decreases i,
{
    if i == 0 {
        assert(headers.skip(0) =~= headers);
    } else {
        lemma_header_value_skip(headers, name, i - 1);
        assert(headers.skip(i - 1).drop_first() =~= headers.skip(i));
        assert(headers.skip(i - 1)[0] == headers[i - 1]);
    }
}

/// Finds the first header with this name and clones its value.
pub fn find_header(headers: &Vec<Header>, name: &String) -> (r: Option<String>)
    ensures
        match r {
            Some(v) => header_value(headers@.map_values(|h: Header| h@), name@) == Some(v@),
            None => header_value(headers@.map_values(|h: Header| h@), name@) is None,
        },
{
    let ghost vh = headers@.map_values(|h: Header| h@);
    let mut i: usize = 0;
    while i < headers.len()
        invariant
            0 <= i <= headers.len(),
            vh == headers@.map_values(|h: Header| h@),
            vh.len() == headers.len(),
            forall|k: int| 0 <= k < headers.len() ==> #[trigger] vh[k] == headers@[k]@,
            forall|k: int| 0 <= k < i ==> (#[trigger] vh[k].name) != name@,
        decreases headers.len() - i,
    {
        if headers[i].name == *name {
            let v = headers[i].value.clone();
            proof {
                lemma_header_value_skip(vh, name@, i as int);
                assert(vh.skip(i as int)[0] == vh[i as int]);
            }
            return Some(v);
        }
        i = i + 1;
    }
    proof {
        lemma_header_value_skip(vh, name@, headers.len() as int);
        assert(vh.skip(headers.len() as int) =~= Seq::<HeaderView>::empty());
    }
    None
}

} // verus!
