//! The server context handed to service authors at initialization: the
//! endpoint registry and the blocking pool behind it.
//!
//! Endpoints are registered before the server starts accepting connections
//! and are immutable thereafter; installing a blocking endpoint creates the
//! blocking pool on first use.
use vstd::prelude::*;
use vstd::string::StringExecFns;
use crate::blocking::ThreadPool;
use crate::config::ServerConfig;
use crate::request::{Endpoint, EndpointView};

verus! {

/// The path under which an endpoint is installed: the context path (unless
/// it is the bare root), then the optional prefix, then the endpoint's own
/// path; with no context and no prefix the path stands as registered.
pub open spec fn extend_path_spec(
    path: Seq<char>,
    context_path: Seq<char>,
    prefix: Option<Seq<char>>,
) -> Seq<char> {
    let ctx: Seq<char> = if context_path == "/"@ {
        Seq::empty()
    } else {
        context_path
    };
    let pre: Seq<char> = ctx + (match prefix {
        Some(p) => p,
        None => Seq::<char>::empty(),
    });
    if pre.len() == 0 {
        path
    } else {
        pre + path
    }
}

/// Prepends the context path and the optional prefix to an endpoint's
/// path; everything else about the registration is kept.
pub fn extend_path(endpoint: Endpoint, context_path: &str, prefix: Option<&str>) -> (r: Endpoint)
    ensures
        r@.path == extend_path_spec(
            endpoint@.path,
            context_path@,
            match prefix {
                Some(p) => Some(p@),
                None => None,
            },
        ),
        r@.method == endpoint@.method,
        r@.blocking == endpoint@.blocking,
        r@.handler == endpoint@.handler,
{
    let root: String = "/".to_owned();
    let is_root: bool = context_path.to_owned() == root;
    let mut pre: String = String::new();
    if !is_root {
        pre.append(context_path);
    }
    match prefix {
        Some(p) => pre.append(p),
        None => (),
    }
    proof {
        let ctx: Seq<char> = if context_path@ == "/"@ {
            Seq::<char>::empty()
        } else {
            context_path@
        };
        let pre_spec: Seq<char> = ctx + (match prefix {
            Some(p) => p@,
            None => Seq::<char>::empty(),
        });
        assert(pre@ =~= pre_spec);
    }
    if pre.as_str().is_empty() {
        endpoint
    } else {
        let path = pre.concat(endpoint.path.as_str());
        Endpoint {
            method: endpoint.method,
            path,
            blocking: endpoint.blocking,
            handler: endpoint.handler,
        }
    }
}

/// A registration after installation: its path extended by the context
/// path and prefix, and its blocking flag set by which registration
/// surface it came through.
pub open spec fn install_spec(
    e: EndpointView,
    context_path: Seq<char>,
    prefix: Option<Seq<char>>,
    blocking: bool,
) -> EndpointView {
    EndpointView {
        method: e.method,
        path: extend_path_spec(e.path, context_path, prefix),
        blocking,
        handler: e.handler,
    }
}

/// The view of an optional path prefix.
pub open spec fn prefix_view(prefix: Option<&str>) -> Option<Seq<char>> {
    match prefix {
        Some(p) => Some(p@),
        None => None,
    }
}

/// The server context: the install-time configuration, the endpoint
/// registry, and the blocking pool once a blocking endpoint needs it.
pub struct Witchcraft {
    /// The install-time configuration.
    pub install_config: ServerConfig,
    /// The blocking pool; created when the first blocking endpoint is
    /// installed.
    pub thread_pool: Option<ThreadPool>,
    /// Every installed endpoint, in installation order.
    pub endpoints: Vec<Endpoint>,
}

impl Witchcraft {
    /// A context with nothing installed yet.
    pub fn new(install_config: ServerConfig) -> (r: Witchcraft)
        ensures
            r.install_config == install_config,
            r.thread_pool is None,
            r.endpoints@ == Seq::<Endpoint>::empty(),
    {
        let r = Witchcraft { install_config, thread_pool: None, endpoints: Vec::new() };
        proof {
            assert(r.endpoints@ =~= Seq::<Endpoint>::empty());
        }
        r
    }

    /// Installs asynchronous endpoints under the optional prefix: each
    /// path is extended by the context path and prefix, and the handlers
    /// run inline on the reactor.
    pub fn endpoints(&mut self, prefix: Option<&str>, endpoints: Vec<Endpoint>)
        ensures
            final(self).install_config == old(self).install_config,
            final(self).thread_pool == old(self).thread_pool,
            final(self).endpoints@.len() == old(self).endpoints@.len() + endpoints@.len(),
            forall|i: int|
                0 <= i < old(self).endpoints@.len() ==> final(self).endpoints@[i] == old(
                    self,
                ).endpoints@[i],
            forall|i: int|
                0 <= i < endpoints@.len() ==> #[trigger] final(self).endpoints@[old(
                    self,
                ).endpoints@.len() + i]@ == install_spec(
                    endpoints@[i]@,
                    old(self).install_config.context_path@,
                    prefix_view(prefix),
                    false,
                ),
    {
        self.install(prefix, endpoints, false)
    }

    /// Installs blocking endpoints under the optional prefix: each path is
    /// extended by the context path and prefix, the handlers run on the
    /// blocking pool, and the pool exists afterwards.
    pub fn blocking_endpoints(&mut self, prefix: Option<&str>, endpoints: Vec<Endpoint>)
        requires
            old(self).install_config.wf(),
        ensures
            final(self).install_config == old(self).install_config,
            final(self).thread_pool is Some,
            old(self).thread_pool is None ==> (final(self).thread_pool matches Some(p)
                && p.model().wf()),
            old(self).thread_pool is Some ==> final(self).thread_pool == old(self).thread_pool,
            final(self).endpoints@.len() == old(self).endpoints@.len() + endpoints@.len(),
            forall|i: int|
                0 <= i < old(self).endpoints@.len() ==> final(self).endpoints@[i] == old(
                    self,
                ).endpoints@[i],
            forall|i: int|
                0 <= i < endpoints@.len() ==> #[trigger] final(self).endpoints@[old(
                    self,
                ).endpoints@.len() + i]@ == install_spec(
                    endpoints@[i]@,
                    old(self).install_config.context_path@,
                    prefix_view(prefix),
                    true,
                ),
    {
        if self.thread_pool.is_none() {
            self.thread_pool = Some(ThreadPool::new(self.install_config.blocking_pool_size));
        }
        self.install(prefix, endpoints, true)
    }

    /// Installs endpoints with the given blocking flag.
    fn install(&mut self, prefix: Option<&str>, endpoints: Vec<Endpoint>, blocking: bool)
        ensures
            final(self).install_config == old(self).install_config,
            final(self).thread_pool == old(self).thread_pool,
            final(self).endpoints@.len() == old(self).endpoints@.len() + endpoints@.len(),
            forall|i: int|
                0 <= i < old(self).endpoints@.len() ==> final(self).endpoints@[i] == old(
                    self,
                ).endpoints@[i],
            forall|i: int|
                0 <= i < endpoints@.len() ==> #[trigger] final(self).endpoints@[old(
                    self,
                ).endpoints@.len() + i]@ == install_spec(
                    endpoints@[i]@,
                    old(self).install_config.context_path@,
                    prefix_view(prefix),
                    blocking,
                ),
    {
        let ghost eps0 = endpoints@;
        let ghost base = self.endpoints@.len();
        let mut rest = endpoints;
        while rest.len() > 0
            invariant
                self.install_config == old(self).install_config,
                self.thread_pool == old(self).thread_pool,
                rest@ =~= eps0.skip(eps0.len() - rest@.len()),
                rest@.len() <= eps0.len(),
                base == old(self).endpoints@.len(),
                self.endpoints@.len() == base + eps0.len() - rest@.len(),
                forall|i: int|
                    0 <= i < base ==> self.endpoints@[i] == old(self).endpoints@[i],
                forall|i: int|
                    0 <= i < eps0.len() - rest@.len() ==> #[trigger] self.endpoints@[base + i]@
                        == install_spec(
                        eps0[i]@,
                        old(self).install_config.context_path@,
                        prefix_view(prefix),
                        blocking,
                    ),
            decreases rest@.len(),
        {
            let ghost k = eps0.len() - rest@.len();
            let e = rest.remove(0);
            proof {
                assert(e == eps0[k]);
                assert(rest@ =~= eps0.skip(k + 1));
            }
            let extended = extend_path(e, self.install_config.context_path.as_str(), prefix);
            let installed = Endpoint {
                method: extended.method,
                path: extended.path,
                blocking,
                handler: extended.handler,
            };
            self.endpoints.push(installed);
        }
    }

    /// Installs an asynchronous service's endpoints at the server's root.
    pub fn app(&mut self, endpoints: Vec<Endpoint>)
        ensures
            final(self).install_config == old(self).install_config,
            final(self).thread_pool == old(self).thread_pool,
            final(self).endpoints@.len() == old(self).endpoints@.len() + endpoints@.len(),
            forall|i: int|
                0 <= i < old(self).endpoints@.len() ==> final(self).endpoints@[i] == old(
                    self,
                ).endpoints@[i],
            forall|i: int|
                0 <= i < endpoints@.len() ==> #[trigger] final(self).endpoints@[old(
                    self,
                ).endpoints@.len() + i]@ == install_spec(
                    endpoints@[i]@,
                    old(self).install_config.context_path@,
                    Option::<Seq<char>>::None,
                    false,
                ),
    {
        self.endpoints(None, endpoints)
    }

    /// Installs an asynchronous service's endpoints under the server's
    /// `/api` prefix.
    pub fn api(&mut self, endpoints: Vec<Endpoint>)
        ensures
            final(self).install_config == old(self).install_config,
            final(self).thread_pool == old(self).thread_pool,
            final(self).endpoints@.len() == old(self).endpoints@.len() + endpoints@.len(),
            forall|i: int|
                0 <= i < old(self).endpoints@.len() ==> final(self).endpoints@[i] == old(
                    self,
                ).endpoints@[i],
            forall|i: int|
                0 <= i < endpoints@.len() ==> #[trigger] final(self).endpoints@[old(
                    self,
                ).endpoints@.len() + i]@ == install_spec(
                    endpoints@[i]@,
                    old(self).install_config.context_path@,
                    Some("/api"@),
                    false,
                ),
    {
        self.endpoints(Some("/api"), endpoints)
    }

    /// Installs a blocking service's endpoints at the server's root.
    pub fn blocking_app(&mut self, endpoints: Vec<Endpoint>)
        requires
            old(self).install_config.wf(),
        ensures
            final(self).install_config == old(self).install_config,
            final(self).thread_pool is Some,
            old(self).thread_pool is None ==> (final(self).thread_pool matches Some(p)
                && p.model().wf()),
            old(self).thread_pool is Some ==> final(self).thread_pool == old(self).thread_pool,
            final(self).endpoints@.len() == old(self).endpoints@.len() + endpoints@.len(),
            forall|i: int|
                0 <= i < old(self).endpoints@.len() ==> final(self).endpoints@[i] == old(
                    self,
                ).endpoints@[i],
            forall|i: int|
                0 <= i < endpoints@.len() ==> #[trigger] final(self).endpoints@[old(
                    self,
                ).endpoints@.len() + i]@ == install_spec(
                    endpoints@[i]@,
                    old(self).install_config.context_path@,
                    Option::<Seq<char>>::None,
                    true,
                ),
    {
        self.blocking_endpoints(None, endpoints)
    }

    /// Installs a blocking service's endpoints under the server's `/api`
    /// prefix.
    pub fn blocking_api(&mut self, endpoints: Vec<Endpoint>)
        requires
            old(self).install_config.wf(),
        ensures
            final(self).install_config == old(self).install_config,
            final(self).thread_pool is Some,
            old(self).thread_pool is None ==> (final(self).thread_pool matches Some(p)
                && p.model().wf()),
            old(self).thread_pool is Some ==> final(self).thread_pool == old(self).thread_pool,
            final(self).endpoints@.len() == old(self).endpoints@.len() + endpoints@.len(),
            forall|i: int|
                0 <= i < old(self).endpoints@.len() ==> final(self).endpoints@[i] == old(
                    self,
                ).endpoints@[i],
            forall|i: int|
                0 <= i < endpoints@.len() ==> #[trigger] final(self).endpoints@[old(
                    self,
                ).endpoints@.len() + i]@ == install_spec(
                    endpoints@[i]@,
                    old(self).install_config.context_path@,
                    Some("/api"@),
                    true,
                ),
    {
        self.blocking_endpoints(Some("/api"), endpoints)
    }
}

} // verus!
