//! The service and layer abstraction: a service transforms one input into
//! one output, and a layer wraps a service at pipeline-construction time to
//! add behavior around it.
//!
//! A pipeline is assembled by folding an ordered list of layers around a
//! terminal service; the first layer handed to the builder is the outermost,
//! so its transformation runs first on the way in and last on the way out.
use vstd::prelude::*;

verus! {

/// A unit that transforms one input value into one output value.
///
/// A service's behavior is pinned by its `model`, which maps the view of
/// the input to the view of the output: `call` must return exactly what the
/// model says for the given input.
pub trait Service<R: View>: Sized {
    /// The output produced for each input.
    type Response: View;

    /// The transformation this service performs, over views.
    spec fn model(&self, req: <R as View>::V) -> <Self::Response as View>::V;

    /// Processes one input.
    fn call(&self, req: R) -> (resp: Self::Response)
        ensures
            resp@ == self.model(req@),
    ;
}

/// A construction-time transformation of one service into another.
///
/// Wrapping is pinned by `wrap_spec`: `wrap` must return exactly the service
/// the spec describes, so the shape of a composed pipeline is known from the
/// layers alone.
pub trait Layer<S>: Sized {
    /// The service produced by wrapping.
    type Wrapped;

    /// The service this layer builds around `inner`.
    spec fn wrap_spec(&self, inner: S) -> Self::Wrapped;

    /// Wraps `inner`, consuming both.
    fn wrap(self, inner: S) -> (svc: Self::Wrapped)
        ensures
            svc == self.wrap_spec(inner),
    ;
}

/// The layer that adds nothing: wrapping any service returns it unchanged.
pub struct Identity;

impl<S> Layer<S> for Identity {
    type Wrapped = S;

    open spec fn wrap_spec(&self, inner: S) -> S {
        inner
    }

    fn wrap(self, inner: S) -> (svc: S)
        ensures
            svc == self.wrap_spec(inner),
    {
        inner
    }
}

/// Two layers applied in order: the outer one wraps what the inner one
/// builds.
pub struct Stack<Outer, Inner> {
    /// Applied last during construction, so it stands outermost.
    pub outer: Outer,
    /// Applied first during construction.
    pub inner: Inner,
}

impl<S, Outer, Inner> Layer<S> for Stack<Outer, Inner> where
    Inner: Layer<S>,
    Outer: Layer<<Inner as Layer<S>>::Wrapped>,
 {
    type Wrapped = <Outer as Layer<<Inner as Layer<S>>::Wrapped>>::Wrapped;

    open spec fn wrap_spec(&self, inner: S) -> Self::Wrapped {
        self.outer.wrap_spec(self.inner.wrap_spec(inner))
    }

    fn wrap(self, inner: S) -> (svc: Self::Wrapped)
        ensures
            svc == self.wrap_spec(inner),
    {
        let mid = self.inner.wrap(inner);
        self.outer.wrap(mid)
    }
}

/// Assembles a pipeline by folding layers around a terminal service.
///
/// Layers are handed over outermost first: `builder.layer(a).layer(b)
/// .service(t)` yields `a` wrapping `b` wrapping `t`.
pub struct ServiceBuilder<L> {
    layer: L,
}

impl ServiceBuilder<Identity> {
    /// A builder with no layers yet.
    pub fn new() -> (r: ServiceBuilder<Identity>)
        ensures
            r.layer_spec() == Identity,
    {
        ServiceBuilder { layer: Identity }
    }
}

impl<L> ServiceBuilder<L> {
    /// The layers accumulated so far.
    pub closed spec fn layer_spec(&self) -> L {
        self.layer
    }

    /// Adds the next layer inside all layers added before it.
    pub fn layer<T>(self, next: T) -> (r: ServiceBuilder<Stack<L, T>>)
        ensures
            r.layer_spec() == (Stack { outer: self.layer_spec(), inner: next }),
    {
        ServiceBuilder { layer: Stack { outer: self.layer, inner: next } }
    }

    /// Wraps the terminal service in every accumulated layer.
    ///
    /// The result is exactly the nested composition of the layers around
    /// `terminal`, outermost layer first.
    pub fn service<S>(self, terminal: S) -> (svc: L::Wrapped) where L: Layer<S>
        ensures
            svc == self.layer_spec().wrap_spec(terminal),
    {
        self.layer.wrap(terminal)
    }
}

} // verus!
