//! The standard per-request pipeline: routing, request-id assignment,
//! trace-context propagation and span recording folded around terminal
//! handler dispatch, in that order, outermost first.
//!
//! Every stage is pure over views, so the composed pipeline's behavior is
//! exactly the nested application of the stages' transformations.
use vstd::prelude::*;
use crate::request::{
    endpoints_view,
    header_value,
    route,
    route_spec,
    Endpoint,
    EndpointView,
    Header,
    Request,
    RequestView,
    Response,
    ResponseView,
    RouteOutcome,
};
use crate::service::{Layer, Service, ServiceBuilder};

verus! {

/// A request entering the pipeline, together with the fresh correlation
/// values the connection driver drew for it in case the client supplied
/// none.
pub struct RequestEnvelope {
    /// The request itself.
    pub request: Request,
    /// The correlation identifier to assign if the request carries none.
    pub fresh_request_id: u64,
    /// The trace context to originate if no header carries one.
    pub fresh_trace: String,
}

/// The mathematical shape of an entering request.
pub struct RequestEnvelopeView {
    /// The request itself.
    pub request: RequestView,
    /// The correlation identifier to assign if the request carries none.
    pub fresh_request_id: u64,
    /// The trace context to originate if no header carries one.
    pub fresh_trace: Seq<char>,
}

impl View for RequestEnvelope {
    type V = RequestEnvelopeView;

    open spec fn view(&self) -> RequestEnvelopeView {
        RequestEnvelopeView {
            request: self.request@,
            fresh_request_id: self.fresh_request_id,
            fresh_trace: self.fresh_trace@,
        }
    }
}

/// An envelope annotated with the routing decision, flowing inward to the
/// remaining stages.
pub struct RoutedEnvelope {
    /// The request, transformed further by the inner stages.
    pub request: Request,
    /// The correlation identifier to assign if the request carries none.
    pub fresh_request_id: u64,
    /// The trace context to originate if no header carries one.
    pub fresh_trace: String,
    /// The routing decision.
    pub route: RouteOutcome,
}

/// The mathematical shape of a routed envelope.
pub struct RoutedEnvelopeView {
    /// The request.
    pub request: RequestView,
    /// The correlation identifier to assign if the request carries none.
    pub fresh_request_id: u64,
    /// The trace context to originate if no header carries one.
    pub fresh_trace: Seq<char>,
    /// The routing decision.
    pub route: RouteOutcome,
}

impl View for RoutedEnvelope {
    type V = RoutedEnvelopeView;

    open spec fn view(&self) -> RoutedEnvelopeView {
        RoutedEnvelopeView {
            request: self.request@,
            fresh_request_id: self.fresh_request_id,
            fresh_trace: self.fresh_trace@,
            route: self.route,
        }
    }
}

/// What terminal dispatch decided for a request.
pub enum DispatchOutcome {
    /// Run the matched asynchronous handler inline on the reactor.
    InvokeAsync {
        /// The registered handler's key.
        handler: u64,
        /// The fully transformed request handed to it.
        request: Request,
    },
    /// Submit the matched synchronous handler to the blocking pool and
    /// await its completion.
    SubmitBlocking {
        /// The registered handler's key.
        handler: u64,
        /// The fully transformed request handed to it.
        request: Request,
    },
    /// Answer directly with this response; no handler runs.
    Respond(Response),
}

/// The mathematical shape of a dispatch decision.
pub enum DispatchOutcomeView {
    /// Run the matched asynchronous handler inline on the reactor.
    InvokeAsync {
        /// The registered handler's key.
        handler: u64,
        /// The fully transformed request handed to it.
        request: RequestView,
    },
    /// Submit the matched synchronous handler to the blocking pool.
    SubmitBlocking {
        /// The registered handler's key.
        handler: u64,
        /// The fully transformed request handed to it.
        request: RequestView,
    },
    /// Answer directly with this response.
    Respond(ResponseView),
}

impl View for DispatchOutcome {
    type V = DispatchOutcomeView;

    open spec fn view(&self) -> DispatchOutcomeView {
        match self {
            DispatchOutcome::InvokeAsync { handler, request } => DispatchOutcomeView::InvokeAsync {
                handler: *handler,
                request: request@,
            },
            DispatchOutcome::SubmitBlocking { handler, request } => DispatchOutcomeView::SubmitBlocking {
                handler: *handler,
                request: request@,
            },
            DispatchOutcome::Respond(resp) => DispatchOutcomeView::Respond(resp@),
        }
    }
}

/// A value produced under an open span: the span opens before the inner
/// stages run and is recorded as closing only once the last body byte has
/// been produced, never earlier.
pub struct Spanned<R> {
    /// The correlation identifier the span is recorded under.
    pub span_request_id: Option<u64>,
    /// What the inner stages produced.
    pub inner: R,
}

/// The mathematical shape of a spanned value.
pub struct SpannedView<T> {
    /// The correlation identifier the span is recorded under.
    pub span_request_id: Option<u64>,
    /// What the inner stages produced.
    pub inner: T,
}

impl<R: View> View for Spanned<R> {
    type V = SpannedView<<R as View>::V>;

    open spec fn view(&self) -> SpannedView<<R as View>::V> {
        SpannedView { span_request_id: self.span_request_id, inner: self.inner@ }
    }
}

/// The request after the request-id stage: the client's identifier is kept
/// when present, and the fresh one is assigned otherwise.
pub open spec fn assign_request_id(req: RequestView, fresh: u64) -> RequestView {
    if req.request_id is Some {
        req
    } else {
        RequestView { request_id: Some(fresh), ..req }
    }
}

/// The name of the header carrying the distributed-trace context.
pub open spec fn trace_header_name() -> Seq<char> {
    "X-B3-TraceId"@
}

/// The request after the trace-propagation stage: the trace context is
/// extracted from the trace header when present and originated from the
/// fresh value otherwise.
pub open spec fn propagate_trace(req: RequestView, fresh: Seq<char>) -> RequestView {
    match header_value(req.headers, trace_header_name()) {
        Some(v) => RequestView { trace: Some(v), ..req },
        None => RequestView { trace: Some(fresh), ..req },
    }
}

/// A bodyless, headerless response with this status.
pub open spec fn status_response_view(status: u16) -> ResponseView {
    ResponseView { status, headers: Seq::empty(), body: Seq::empty() }
}

/// The terminal dispatch decision for a routed request: a matched handler
/// is invoked inline or submitted to the blocking pool according to its
/// registration; a missed route answers 404, and a path served only under
/// other methods answers 405.
pub open spec fn dispatch_spec(route: RouteOutcome, req: RequestView) -> DispatchOutcomeView {
    match route {
        RouteOutcome::Matched { handler, blocking } => if blocking {
            DispatchOutcomeView::SubmitBlocking { handler, request: req }
        } else {
            DispatchOutcomeView::InvokeAsync { handler, request: req }
        },
        RouteOutcome::NotFound => DispatchOutcomeView::Respond(status_response_view(404)),
        RouteOutcome::MethodNotAllowed => DispatchOutcomeView::Respond(status_response_view(405)),
    }
}

/// A bodyless, headerless response with this status.
pub fn status_response(status: u16) -> (r: Response)
    ensures
        r@ == status_response_view(status),
{
    let r = Response { status, headers: Vec::new(), body: Vec::new() };
    proof {
        assert(r@.headers =~= Seq::<crate::request::HeaderView>::empty());
        assert(r@.body =~= Seq::<u8>::empty());
    }
    r
}

/// The routing layer: consults the endpoint registry and annotates each
/// request with the decision before anything further runs.
pub struct RoutingLayer {
    /// The registered endpoints, fixed before the server starts.
    pub endpoints: Vec<Endpoint>,
}

impl RoutingLayer {
    /// A routing layer over these registrations.
    pub fn new(endpoints: Vec<Endpoint>) -> (r: RoutingLayer)
        ensures
            r.endpoints@ == endpoints@,
    {
        RoutingLayer { endpoints }
    }
}

/// The routing stage wrapped around an inner service.
pub struct RoutingService<S> {
    /// The registered endpoints.
    pub endpoints: Vec<Endpoint>,
    /// The next stage inward.
    pub inner: S,
}

impl<S> Layer<S> for RoutingLayer {
    type Wrapped = RoutingService<S>;

    open spec fn wrap_spec(&self, inner: S) -> RoutingService<S> {
        RoutingService { endpoints: self.endpoints, inner }
    }

    fn wrap(self, inner: S) -> (svc: RoutingService<S>)
        ensures
            svc == self.wrap_spec(inner),
    {
        RoutingService { endpoints: self.endpoints, inner }
    }
}

impl<S: Service<RoutedEnvelope>> Service<RequestEnvelope> for RoutingService<S> {
    type Response = S::Response;

    open spec fn model(&self, env: RequestEnvelopeView) -> <S::Response as View>::V {
        self.inner.model(
            RoutedEnvelopeView {
                request: env.request,
                fresh_request_id: env.fresh_request_id,
                fresh_trace: env.fresh_trace,
                route: route_spec(
                    endpoints_view(self.endpoints@),
                    env.request.method,
                    env.request.path,
                ),
            },
        )
    }

    fn call(&self, env: RequestEnvelope) -> (resp: S::Response)
        ensures
            resp@ == self.model(env@),
    {
        let decision = route(&self.endpoints, env.request.method, &env.request.path);
        let renv = RoutedEnvelope {
            request: env.request,
            fresh_request_id: env.fresh_request_id,
            fresh_trace: env.fresh_trace,
            route: decision,
        };
        self.inner.call(renv)
    }
}

/// The request-id layer: every request past this stage carries a
/// correlation identifier.
pub struct RequestIdLayer;

/// The request-id stage wrapped around an inner service.
pub struct RequestIdService<S> {
    /// The next stage inward.
    pub inner: S,
}

impl<S> Layer<S> for RequestIdLayer {
    type Wrapped = RequestIdService<S>;

    open spec fn wrap_spec(&self, inner: S) -> RequestIdService<S> {
        RequestIdService { inner }
    }

    fn wrap(self, inner: S) -> (svc: RequestIdService<S>)
        ensures
            svc == self.wrap_spec(inner),
    {
        RequestIdService { inner }
    }
}

impl<S: Service<RoutedEnvelope>> Service<RoutedEnvelope> for RequestIdService<S> {
    type Response = S::Response;

    open spec fn model(&self, renv: RoutedEnvelopeView) -> <S::Response as View>::V {
        self.inner.model(
            RoutedEnvelopeView {
                request: assign_request_id(renv.request, renv.fresh_request_id),
                ..renv
            },
        )
    }

    fn call(&self, renv: RoutedEnvelope) -> (resp: S::Response)
        ensures
            resp@ == self.model(renv@),
    {
        let request = renv.request;
        let updated = match request.request_id {
            Some(_) => request,
            None => Request { request_id: Some(renv.fresh_request_id), ..request },
        };
        self.inner.call(
            RoutedEnvelope {
                request: updated,
                fresh_request_id: renv.fresh_request_id,
                fresh_trace: renv.fresh_trace,
                route: renv.route,
            },
        )
    }
}

/// The trace-propagation layer: every request past this stage carries a
/// trace context, taken from the trace header or originated here.
pub struct TracePropagationLayer;

/// The trace-propagation stage wrapped around an inner service.
pub struct TracePropagationService<S> {
    /// The next stage inward.
    pub inner: S,
}

impl<S> Layer<S> for TracePropagationLayer {
    type Wrapped = TracePropagationService<S>;

    open spec fn wrap_spec(&self, inner: S) -> TracePropagationService<S> {
        TracePropagationService { inner }
    }

    fn wrap(self, inner: S) -> (svc: TracePropagationService<S>)
        ensures
            svc == self.wrap_spec(inner),
    {
        TracePropagationService { inner }
    }
}

impl<S: Service<RoutedEnvelope>> Service<RoutedEnvelope> for TracePropagationService<S> {
    type Response = S::Response;

    open spec fn model(&self, renv: RoutedEnvelopeView) -> <S::Response as View>::V {
        self.inner.model(
            RoutedEnvelopeView { request: propagate_trace(renv.request, renv.fresh_trace), ..renv },
        )
    }

    fn call(&self, renv: RoutedEnvelope) -> (resp: S::Response)
        ensures
            resp@ == self.model(renv@),
    {
        let name: String = "X-B3-TraceId".to_owned();
        let found = crate::request::find_header(&renv.request.headers, &name);
        let request = renv.request;
        let updated = match found {
            Some(v) => Request { trace: Some(v), ..request },
            None => Request { trace: Some(renv.fresh_trace.clone()), ..request },
        };
        self.inner.call(
            RoutedEnvelope {
                request: updated,
                fresh_request_id: renv.fresh_request_id,
                fresh_trace: renv.fresh_trace,
                route: renv.route,
            },
        )
    }
}

/// The span layer: opens a span around everything inward and records it
/// under the request's correlation identifier.
pub struct SpansLayer;

/// The span stage wrapped around an inner service.
pub struct SpansService<S> {
    /// The next stage inward.
    pub inner: S,
}

impl<S> Layer<S> for SpansLayer {
    type Wrapped = SpansService<S>;

    open spec fn wrap_spec(&self, inner: S) -> SpansService<S> {
        SpansService { inner }
    }

    fn wrap(self, inner: S) -> (svc: SpansService<S>)
        ensures
            svc == self.wrap_spec(inner),
    {
        SpansService { inner }
    }
}

impl<S: Service<RoutedEnvelope>> Service<RoutedEnvelope> for SpansService<S> {
    type Response = Spanned<S::Response>;

    open spec fn model(&self, renv: RoutedEnvelopeView) -> SpannedView<<S::Response as View>::V> {
        SpannedView { span_request_id: renv.request.request_id, inner: self.inner.model(renv) }
    }

    fn call(&self, renv: RoutedEnvelope) -> (resp: Spanned<S::Response>)
        ensures
            resp@ == self.model(renv@),
    {
        let span_request_id = renv.request.request_id;
        let inner = self.inner.call(renv);
        Spanned { span_request_id, inner }
    }
}

/// The terminal stage: turns the routing decision into handler dispatch or
/// a direct error response.
pub struct HandlerService;

impl Service<RoutedEnvelope> for HandlerService {
    type Response = DispatchOutcome;

    open spec fn model(&self, renv: RoutedEnvelopeView) -> DispatchOutcomeView {
        dispatch_spec(renv.route, renv.request)
    }

    fn call(&self, renv: RoutedEnvelope) -> (resp: DispatchOutcome)
        ensures
            resp@ == self.model(renv@),
    {
        match renv.route {
            RouteOutcome::Matched { handler, blocking } => if blocking {
                DispatchOutcome::SubmitBlocking { handler, request: renv.request }
            } else {
                DispatchOutcome::InvokeAsync { handler, request: renv.request }
            },
            RouteOutcome::NotFound => DispatchOutcome::Respond(status_response(404)),
            RouteOutcome::MethodNotAllowed => DispatchOutcome::Respond(status_response(405)),
        }
    }
}

/// The standard pipeline's concrete shape: routing outermost, then
/// request-id, trace propagation and spans, around terminal dispatch.
pub type RequestPipeline = RoutingService<
    RequestIdService<TracePropagationService<SpansService<HandlerService>>>,
>;

/// What the whole pipeline does to one entering request: route it, give it
/// a correlation identifier, give it a trace context, and dispatch it under
/// a span recorded with that identifier.
pub open spec fn pipeline_model(eps: Seq<EndpointView>, env: RequestEnvelopeView) -> SpannedView<
    DispatchOutcomeView,
> {
    let decision = route_spec(eps, env.request.method, env.request.path);
    let with_id = assign_request_id(env.request, env.fresh_request_id);
    let with_trace = propagate_trace(with_id, env.fresh_trace);
    SpannedView {
        span_request_id: with_trace.request_id,
        inner: dispatch_spec(decision, with_trace),
    }
}

/// Builds the standard pipeline by folding its layers, outermost first,
/// around terminal dispatch.
pub fn request_pipeline(endpoints: Vec<Endpoint>) -> (p: RequestPipeline)
    ensures
        p.endpoints@ == endpoints@,
        forall|env: RequestEnvelopeView| #[trigger] p.model(env) == pipeline_model(
            endpoints_view(endpoints@),
            env,
        ),
{
    ServiceBuilder::new().layer(RoutingLayer { endpoints }).layer(RequestIdLayer).layer(
        TracePropagationLayer,
    ).layer(SpansLayer).service(HandlerService)
}

/// Composition law: the service built by folding the layers around the
/// terminal is observably equivalent to the nested application of each
/// stage's transformation, outermost first — each stage sees exactly the
/// envelope the stage outside it forwards.
pub proof fn lemma_pipeline_composition(p: RequestPipeline, env: RequestEnvelopeView)
    ensures
        p.model(env) == pipeline_model(endpoints_view(p.endpoints@), env),
{
}

} // verus!
