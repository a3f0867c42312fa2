//! The running topology: what a configuration is built into.
//!
//! A router is built from its configuration by three collaborators, handed
//! in as functions: one makes the resolver and its executor, one composes
//! the router from the resolver and the connector configuration, one makes
//! each server. What they return decides whether the build succeeds; the
//! order of the calls, what each is handed, and what becomes of each result
//! is decided here.

use crate::admin::AdminRunner;
use crate::config::{
    admin_settings, buffer_size, resolve_admin, resolve_buffer_size, AdminConfig, AppConfig,
    InterpreterConfig, RouterConfig,
};
use crate::document::Node;
use crate::error::Error;
use crate::metrics::{
    balancer_scope, is_balancer_scope, is_router_scope, no_labels, registry_of_reporter,
    registry_of_scope, root_prefix, root_registry, router_label_key, router_scope, scope_labels,
    scope_prefix,
};
use std::cell::RefCell;
use std::collections::VecDeque;
use std::rc::Rc;
use vstd::prelude::*;

verus! {

/// `std::cell::RefCell`: a value that is borrowed at run time.
#[verifier::external_type_specification]
#[verifier::external_body]
#[verifier::reject_recursive_types(T)]
pub struct ExRefCell<T: ?Sized>(RefCell<T>);

/// The transfer buffer as the servers hold it: one allocation, jointly
/// owned, borrowed exclusively at the point of use.
pub type TransferBuffer = Rc<RefCell<Vec<u8>>>;

/// The bytes that a buffer's cell was created with.
pub uninterp spec fn created_with(cell: RefCell<Vec<u8>>) -> Seq<u8>;

/// Calls `RefCell::new`, which wraps the bytes: the cell was created with
/// them.
#[verifier::external_body]
fn new_cell(bytes: Vec<u8>) -> (cell: RefCell<Vec<u8>>)
    ensures
        created_with(cell) == bytes@,
{
    RefCell::new(bytes)
}

/// Calls `Rc::clone`, which makes another pointer to the same allocation:
/// the result is the handle it was made from.
#[verifier::external_body]
fn another_handle(buffer: &TransferBuffer) -> (handle: TransferBuffer)
    ensures
        handle == *buffer,
{
    Rc::clone(buffer)
}

/// The bytes of a transfer buffer of a size, as it is allocated: all zero.
pub open spec fn zeros(size: usize) -> Seq<u8> {
    Seq::new(size as nat, |i: int| 0u8)
}

/// Allocates a transfer buffer of the given size, filled with zeros.
///
/// No allocation is larger than `isize::MAX` bytes.
pub fn zeroed(size: usize) -> (bytes: Vec<u8>)
    requires
        size <= isize::MAX,
    ensures
        bytes@ == zeros(size),
{
    let bytes = vec![0u8; size];
    assert(bytes@ =~= zeros(size));
    bytes
}

/// Puts a buffer under joint ownership.
pub fn shared(bytes: Vec<u8>) -> (buffer: TransferBuffer)
    ensures
        created_with(*buffer) == bytes@,
{
    Rc::new(new_cell(bytes))
}

/// Spawns a router by spawning all of its serving interfaces.
///
/// Holds the router's servers, not yet bound, in the order they are to be
/// launched, and the executor of the router's resolver until it is handed
/// to the admin runner.
pub struct RouterSpawner<S, E> {
    servers: VecDeque<S>,
    resolver_executor: Option<E>,
}

impl<S, E> RouterSpawner<S, E> {
    /// The servers still to be launched, next first.
    pub closed spec fn servers(&self) -> Seq<S> {
        self.servers@
    }

    /// The resolver's executor, while the spawner still holds it.
    pub closed spec fn executor(&self) -> Option<E> {
        self.resolver_executor
    }

    /// A spawner of these servers that holds this executor.
    pub fn new(servers: VecDeque<S>, executor: E) -> (spawner: Self)
        ensures
            spawner.servers() == servers@,
            spawner.executor() == Some(executor),
    {
        RouterSpawner { servers, resolver_executor: Some(executor) }
    }

    /// The number of servers still to be launched.
    pub fn pending(&self) -> (n: usize)
        ensures
            n == self.servers().len(),
    {
        self.servers.len()
    }

    /// Whether the spawner still holds its resolver's executor.
    pub fn has_executor(&self) -> (held: bool)
        ensures
            held == self.executor() is Some,
    {
        self.resolver_executor.is_some()
    }

    /// Hands the resolver's executor over, once: the spawner keeps its
    /// servers and holds no executor afterwards.
    pub fn take_executor(&mut self) -> (executor: Option<E>)
        ensures
            executor == old(self).executor(),
            final(self).executor() is None,
            final(self).servers() == old(self).servers(),
    {
        self.resolver_executor.take()
    }

    /// Launches every server, in order, and returns what each launch gave.
    ///
    /// The spawner must have handed its executor over before.
    pub fn spawn<T, F: Fn(S) -> T>(self, launch: &F) -> (r: Result<Vec<T>, Error>)
        requires
            self.executor() is None,
            forall|i: int| 0 <= i < self.servers().len() ==> launch.requires((#[trigger] self.servers()[i],)),
        ensures
            r matches Ok(tasks) && tasks@.len() == self.servers().len() && forall|i: int|
                0 <= i < tasks@.len() ==> launch.ensures((self.servers()[i],), #[trigger] tasks@[i]),
    {
        let ghost all = self.servers();
        let mut servers = self.servers;
        let mut tasks: Vec<T> = Vec::new();
        while servers.len() > 0
            invariant
                tasks@.len() + servers@.len() == all.len(),
                servers@ == all.subrange(tasks@.len() as int, all.len() as int),
                forall|i: int| 0 <= i < all.len() ==> launch.requires((#[trigger] all[i],)),
                forall|i: int| 0 <= i < tasks@.len() ==> launch.ensures((all[i],), #[trigger] tasks@[i]),
            decreases servers@.len(),
        {
            let unbound = servers.pop_front().unwrap();
            assert(unbound == all[tasks@.len() as int]);
            let task = launch(unbound);
            tasks.push(task);
        }
        Ok(tasks)
    }
}

/// The scopes that a router's collaborators are handed: the router's own,
/// which is the root labelled with the router's label, and its balancer's,
/// one prefix below, both on the root's registry.
pub open spec fn scopes_for(
    root: tacho::Scope,
    label: Seq<char>,
    scope: tacho::Scope,
    balancer: tacho::Scope,
) -> bool {
    &&& scope_prefix(scope) == scope_prefix(root)
    &&& scope_labels(scope) == scope_labels(root).insert(router_label_key(), label)
    &&& registry_of_scope(scope) == registry_of_scope(root)
    &&& scope_prefix(balancer) == scope_prefix(scope).push("balancer"@)
    &&& scope_labels(balancer) == scope_labels(scope)
    &&& registry_of_scope(balancer) == registry_of_scope(root)
}

/// A router was built from its configuration: the resolver was made from
/// the interpreter's configuration, the router composed from that resolver
/// and the connector configuration, and each server made from its own
/// configuration, in declared order, on that router and the one buffer.
pub open spec fn router_built<R, Rt, S, E, FR, FT, FS>(
    config: RouterConfig,
    buffer: TransferBuffer,
    root: tacho::Scope,
    mk_resolver: FR,
    mk_router: FT,
    mk_server: FS,
    scope: tacho::Scope,
    balancer: tacho::Scope,
    resolver: R,
    router: Rt,
    servers: Seq<S>,
    executor: E,
) -> bool where
    FR: Fn(&InterpreterConfig, &tacho::Scope) -> Result<(R, E), String>,
    FT: Fn(R, &Option<Node>, &tacho::Scope, &tacho::Scope) -> Result<Rt, String>,
    FS: Fn(&Node, &Rt, TransferBuffer, &tacho::Scope) -> Result<S, String>,
 {
    &&& scopes_for(root, config.label@, scope, balancer)
    &&& mk_resolver.ensures((&config.interpreter, &scope), Ok((resolver, executor)))
    &&& mk_router.ensures((resolver, &config.client, &scope, &balancer), Ok(router))
    &&& servers.len() == config.servers@.len()
    &&& forall|j: int|
        0 <= j < servers.len() ==> mk_server.ensures(
            (&config.servers@[j], &router, buffer, &scope),
            Ok(#[trigger] servers[j]),
        )
}

/// A router's build succeeded with these servers and this executor.
pub open spec fn router_ok<R, Rt, S, E, FR, FT, FS>(
    config: RouterConfig,
    buffer: TransferBuffer,
    root: tacho::Scope,
    mk_resolver: FR,
    mk_router: FT,
    mk_server: FS,
    servers: Seq<S>,
    executor: E,
) -> bool where
    FR: Fn(&InterpreterConfig, &tacho::Scope) -> Result<(R, E), String>,
    FT: Fn(R, &Option<Node>, &tacho::Scope, &tacho::Scope) -> Result<Rt, String>,
    FS: Fn(&Node, &Rt, TransferBuffer, &tacho::Scope) -> Result<S, String>,
 {
    exists|scope: tacho::Scope, balancer: tacho::Scope, resolver: R, router: Rt|
        router_built(
            config,
            buffer,
            root,
            mk_resolver,
            mk_router,
            mk_server,
            scope,
            balancer,
            resolver,
            router,
            servers,
            executor,
        )
}

/// A router's build succeeded, with some servers and some executor.
pub open spec fn router_succeeds<R, Rt, S, E, FR, FT, FS>(
    config: RouterConfig,
    buffer: TransferBuffer,
    root: tacho::Scope,
    mk_resolver: FR,
    mk_router: FT,
    mk_server: FS,
) -> bool where
    FR: Fn(&InterpreterConfig, &tacho::Scope) -> Result<(R, E), String>,
    FT: Fn(R, &Option<Node>, &tacho::Scope, &tacho::Scope) -> Result<Rt, String>,
    FS: Fn(&Node, &Rt, TransferBuffer, &tacho::Scope) -> Result<S, String>,
 {
    exists|servers: Seq<S>, executor: E|
        router_ok::<R, Rt, S, E, FR, FT, FS>(
            config,
            buffer,
            root,
            mk_resolver,
            mk_router,
            mk_server,
            servers,
            executor,
        )
}

/// The resolver could not be made: the first collaborator refused the
/// interpreter's configuration with this message.
pub open spec fn interpreter_refused<R, E, FR>(
    config: RouterConfig,
    root: tacho::Scope,
    mk_resolver: FR,
    scope: tacho::Scope,
    balancer: tacho::Scope,
    message: String,
) -> bool where FR: Fn(&InterpreterConfig, &tacho::Scope) -> Result<(R, E), String> {
    &&& scopes_for(root, config.label@, scope, balancer)
    &&& mk_resolver.ensures((&config.interpreter, &scope), Err(message))
}

/// The router could not be composed: the resolver was made, and the second
/// collaborator refused the connector configuration with this message.
pub open spec fn connector_refused<R, Rt, E, FR, FT>(
    config: RouterConfig,
    root: tacho::Scope,
    mk_resolver: FR,
    mk_router: FT,
    scope: tacho::Scope,
    balancer: tacho::Scope,
    resolver: R,
    executor: E,
    message: String,
) -> bool where
    FR: Fn(&InterpreterConfig, &tacho::Scope) -> Result<(R, E), String>,
    FT: Fn(R, &Option<Node>, &tacho::Scope, &tacho::Scope) -> Result<Rt, String>,
 {
    &&& scopes_for(root, config.label@, scope, balancer)
    &&& mk_resolver.ensures((&config.interpreter, &scope), Ok((resolver, executor)))
    &&& mk_router.ensures((resolver, &config.client, &scope, &balancer), Err(message))
}

/// A server could not be made: the router was composed, the servers before
/// this one were made, and the third collaborator refused this server's
/// configuration with this message.
pub open spec fn server_refused<R, Rt, S, E, FR, FT, FS>(
    config: RouterConfig,
    buffer: TransferBuffer,
    root: tacho::Scope,
    mk_resolver: FR,
    mk_router: FT,
    mk_server: FS,
    scope: tacho::Scope,
    balancer: tacho::Scope,
    resolver: R,
    router: Rt,
    made: Seq<S>,
    executor: E,
    message: String,
) -> bool where
    FR: Fn(&InterpreterConfig, &tacho::Scope) -> Result<(R, E), String>,
    FT: Fn(R, &Option<Node>, &tacho::Scope, &tacho::Scope) -> Result<Rt, String>,
    FS: Fn(&Node, &Rt, TransferBuffer, &tacho::Scope) -> Result<S, String>,
 {
    &&& scopes_for(root, config.label@, scope, balancer)
    &&& mk_resolver.ensures((&config.interpreter, &scope), Ok((resolver, executor)))
    &&& mk_router.ensures((resolver, &config.client, &scope, &balancer), Ok(router))
    &&& made.len() < config.servers@.len()
    &&& forall|j: int|
        0 <= j < made.len() ==> mk_server.ensures(
            (&config.servers@[j], &router, buffer, &scope),
            Ok(#[trigger] made[j]),
        )
    &&& mk_server.ensures(
        (&config.servers@[made.len() as int], &router, buffer, &scope),
        Err(message),
    )
}

/// A router's build failed with this error: at the first collaborator that
/// refused, in the order resolver, router, servers as declared, and with
/// that collaborator's message under the error of its kind.
pub open spec fn router_failed<R, Rt, S, E, FR, FT, FS>(
    config: RouterConfig,
    buffer: TransferBuffer,
    root: tacho::Scope,
    mk_resolver: FR,
    mk_router: FT,
    mk_server: FS,
    error: Error,
) -> bool where
    FR: Fn(&InterpreterConfig, &tacho::Scope) -> Result<(R, E), String>,
    FT: Fn(R, &Option<Node>, &tacho::Scope, &tacho::Scope) -> Result<Rt, String>,
    FS: Fn(&Node, &Rt, TransferBuffer, &tacho::Scope) -> Result<S, String>,
 {
    match error {
        Error::Interpreter(message) => exists|scope: tacho::Scope, balancer: tacho::Scope|
            interpreter_refused::<R, E, FR>(config, root, mk_resolver, scope, balancer, message),
        Error::Connector(message) => exists|
            scope: tacho::Scope,
            balancer: tacho::Scope,
            resolver: R,
            executor: E,
        |
            connector_refused::<R, Rt, E, FR, FT>(
                config,
                root,
                mk_resolver,
                mk_router,
                scope,
                balancer,
                resolver,
                executor,
                message,
            ),
        Error::Server(message) => exists|
            scope: tacho::Scope,
            balancer: tacho::Scope,
            resolver: R,
            router: Rt,
            made: Seq<S>,
            executor: E,
        |
            server_refused::<R, Rt, S, E, FR, FT, FS>(
                config,
                buffer,
                root,
                mk_resolver,
                mk_router,
                mk_server,
                scope,
                balancer,
                resolver,
                router,
                made,
                executor,
                message,
            ),
        _ => false,
    }
}

/// Every call that a router's build may make is one the collaborators
/// accept.
pub open spec fn collaborators_total<R, Rt, S, E, FR, FT, FS>(
    mk_resolver: FR,
    mk_router: FT,
    mk_server: FS,
) -> bool where
    FR: Fn(&InterpreterConfig, &tacho::Scope) -> Result<(R, E), String>,
    FT: Fn(R, &Option<Node>, &tacho::Scope, &tacho::Scope) -> Result<Rt, String>,
    FS: Fn(&Node, &Rt, TransferBuffer, &tacho::Scope) -> Result<S, String>,
 {
    &&& forall|interpreter: &InterpreterConfig, scope: &tacho::Scope| #[trigger]
        mk_resolver.requires((interpreter, scope))
    &&& forall|
        resolver: R,
        client: &Option<Node>,
        scope: &tacho::Scope,
        balancer: &tacho::Scope,
    | #[trigger] mk_router.requires((resolver, client, scope, balancer))
    &&& forall|server: &Node, router: &Rt, buffer: TransferBuffer, scope: &tacho::Scope| #[trigger]
        mk_server.requires((server, router, buffer, scope))
}

impl RouterConfig {
    /// Consumes and validates this configuration to produce a router
    /// initializer.
    ///
    /// The resolver is made first, then the router, then the servers in
    /// declared order, each on the one buffer; the first refusal ends the
    /// build with the error of its kind. On success the spawner holds the
    /// servers in declared order and the resolver's executor.
    pub fn into_router<R, Rt, S, E, FR, FT, FS>(
        self,
        buf: &TransferBuffer,
        metrics: &tacho::Scope,
        mk_resolver: &FR,
        mk_router: &FT,
        mk_server: &FS,
    ) -> (r: Result<RouterSpawner<S, E>, Error>) where
        FR: Fn(&InterpreterConfig, &tacho::Scope) -> Result<(R, E), String>,
        FT: Fn(R, &Option<Node>, &tacho::Scope, &tacho::Scope) -> Result<Rt, String>,
        FS: Fn(&Node, &Rt, TransferBuffer, &tacho::Scope) -> Result<S, String>,

        requires
            collaborators_total::<R, Rt, S, E, FR, FT, FS>(*mk_resolver, *mk_router, *mk_server),
        ensures
            match r {
                Ok(spawner) => spawner.executor() matches Some(executor) && router_ok::<
                    R,
                    Rt,
                    S,
                    E,
                    FR,
                    FT,
                    FS,
                >(
                    self,
                    *buf,
                    *metrics,
                    *mk_resolver,
                    *mk_router,
                    *mk_server,
                    spawner.servers(),
                    executor,
                ),
                Err(error) => router_failed::<R, Rt, S, E, FR, FT, FS>(
                    self,
                    *buf,
                    *metrics,
                    *mk_resolver,
                    *mk_router,
                    *mk_server,
                    error,
                ),
            },
    {
        let scope = router_scope(metrics, self.label.clone());
        let balancer = balancer_scope(&scope);
        assert(scopes_for(*metrics, self.label@, scope, balancer));

        let (resolver, executor) = match mk_resolver(&self.interpreter, &scope) {
            Ok(pair) => pair,
            Err(message) => {
                assert(interpreter_refused::<R, E, FR>(
                    self,
                    *metrics,
                    *mk_resolver,
                    scope,
                    balancer,
                    message,
                ));
                assert(exists|s: tacho::Scope, b: tacho::Scope|
                    interpreter_refused::<R, E, FR>(self, *metrics, *mk_resolver, s, b, message));
                let error = Error::Interpreter(message);
                assert(error matches Error::Interpreter(m) && m == message);
                return Err(error);
            },
        };
        let ghost made_resolver = resolver;

        let router = match mk_router(resolver, &self.client, &scope, &balancer) {
            Ok(router) => router,
            Err(message) => {
                assert(connector_refused::<R, Rt, E, FR, FT>(
                    self,
                    *metrics,
                    *mk_resolver,
                    *mk_router,
                    scope,
                    balancer,
                    made_resolver,
                    executor,
                    message,
                ));
                assert(exists|s: tacho::Scope, b: tacho::Scope, made: R, e: E|
                    connector_refused::<R, Rt, E, FR, FT>(
                        self,
                        *metrics,
                        *mk_resolver,
                        *mk_router,
                        s,
                        b,
                        made,
                        e,
                        message,
                    ));
                let error = Error::Connector(message);
                assert(error matches Error::Connector(m) && m == message);
                return Err(error);
            },
        };

        let mut servers: VecDeque<S> = VecDeque::with_capacity(self.servers.len());
        let mut j: usize = 0;
        while j < self.servers.len()
            invariant
                j <= self.servers@.len(),
                servers@.len() == j,
                collaborators_total::<R, Rt, S, E, FR, FT, FS>(*mk_resolver, *mk_router, *mk_server),
                scopes_for(*metrics, self.label@, scope, balancer),
                mk_resolver.ensures((&self.interpreter, &scope), Ok((made_resolver, executor))),
                mk_router.ensures((made_resolver, &self.client, &scope, &balancer), Ok(router)),
                forall|k: int|
                    0 <= k < j ==> mk_server.ensures(
                        (&self.servers@[k], &router, *buf, &scope),
                        Ok(#[trigger] servers@[k]),
                    ),
            decreases self.servers@.len() - j,
        {
            // The router and transfer buffer are shared across servers.
            match mk_server(&self.servers[j], &router, another_handle(buf), &scope) {
                Ok(server) => {
                    servers.push_back(server);
                },
                Err(message) => {
                    assert(server_refused::<R, Rt, S, E, FR, FT, FS>(
                        self,
                        *buf,
                        *metrics,
                        *mk_resolver,
                        *mk_router,
                        *mk_server,
                        scope,
                        balancer,
                        made_resolver,
                        router,
                        servers@,
                        executor,
                        message,
                    ));
                    assert(exists|s: tacho::Scope, b: tacho::Scope, made: R, rt: Rt, done: Seq<S>, e: E|
                        server_refused::<R, Rt, S, E, FR, FT, FS>(
                            self,
                            *buf,
                            *metrics,
                            *mk_resolver,
                            *mk_router,
                            *mk_server,
                            s,
                            b,
                            made,
                            rt,
                            done,
                            e,
                            message,
                        ));
                    let error = Error::Server(message);
                    assert(error matches Error::Server(m) && m == message);
                    return Err(error);
                },
            }
            j += 1;
        }

        assert(router_built::<R, Rt, S, E, FR, FT, FS>(
            self,
            *buf,
            *metrics,
            *mk_resolver,
            *mk_router,
            *mk_server,
            scope,
            balancer,
            made_resolver,
            router,
            servers@,
            executor,
        ));
        Ok(RouterSpawner::new(servers, executor))
    }
}

/// Holds configured tasks to be spawned.
pub struct App<S, E> {
    /// Executes configured routers.
    pub routers: VecDeque<RouterSpawner<S, E>>,
    /// Executes the admin server.
    pub admin: AdminRunner<E>,
}

impl<S, E> App<S, E> {
    /// Bundles the routers with the admin runner: each router hands its
    /// resolver's executor over to the admin runner, which holds them in
    /// router order and runs on the resolved admin settings.
    pub fn assemble(
        spawners: VecDeque<RouterSpawner<S, E>>,
        reporter: tacho::Reporter,
        admin: &Option<AdminConfig>,
    ) -> (app: Self)
        requires
            forall|i: int| 0 <= i < spawners@.len() ==> (#[trigger] spawners@[i]).executor() is Some,
        ensures
            app.routers@.len() == spawners@.len(),
            app.admin.resolvers().len() == spawners@.len(),
            app.admin.settings() == admin_settings(*admin),
            app.admin.reporter() == reporter,
            forall|i: int|
                0 <= i < spawners@.len() ==> {
                    &&& (#[trigger] app.routers@[i]).servers() == spawners@[i].servers()
                    &&& app.routers@[i].executor() is None
                },
            forall|i: int|
                0 <= i < spawners@.len() ==> spawners@[i].executor() == Some(
                    #[trigger] app.admin.resolvers()[i],
                ),
    {
        let ghost all = spawners@;
        let mut spawners = spawners;
        let mut routers: VecDeque<RouterSpawner<S, E>> = VecDeque::with_capacity(spawners.len());
        let mut resolvers: VecDeque<E> = VecDeque::with_capacity(spawners.len());
        while spawners.len() > 0
            invariant
                routers@.len() == resolvers@.len(),
                routers@.len() + spawners@.len() == all.len(),
                spawners@ == all.subrange(routers@.len() as int, all.len() as int),
                forall|i: int| 0 <= i < all.len() ==> (#[trigger] all[i]).executor() is Some,
                forall|i: int|
                    0 <= i < routers@.len() ==> {
                        &&& (#[trigger] routers@[i]).servers() == all[i].servers()
                        &&& routers@[i].executor() is None
                    },
                forall|i: int|
                    0 <= i < resolvers@.len() ==> all[i].executor() == Some(#[trigger] resolvers@[i]),
            decreases spawners@.len(),
        {
            let mut router = spawners.pop_front().unwrap();
            assert(router == all[routers@.len() as int]);
            let executor = router.take_executor().unwrap();
            routers.push_back(router);
            resolvers.push_back(executor);
        }
        App { routers, admin: AdminRunner::new(resolve_admin(admin), reporter, resolvers) }
    }
}

/// A scope is the root of the process's metrics: named under the root
/// prefix, with no labels.
pub open spec fn is_root(root: tacho::Scope) -> bool {
    &&& scope_prefix(root) == root_prefix()
    &&& scope_labels(root) == no_labels()
}

/// A process was built from its configuration on this buffer and this
/// root scope: one spawner for each router, in declared order, built from
/// that router's configuration; the executor of each router's resolver
/// with the admin runner, in the same order; and the admin runner on the
/// resolved admin settings, with the reporter of the registry that the
/// root scope records into.
pub open spec fn app_built<R, Rt, S, E, FR, FT, FS>(
    config: AppConfig,
    mk_resolver: FR,
    mk_router: FT,
    mk_server: FS,
    buffer: TransferBuffer,
    root: tacho::Scope,
    app: App<S, E>,
) -> bool where
    FR: Fn(&InterpreterConfig, &tacho::Scope) -> Result<(R, E), String>,
    FT: Fn(R, &Option<Node>, &tacho::Scope, &tacho::Scope) -> Result<Rt, String>,
    FS: Fn(&Node, &Rt, TransferBuffer, &tacho::Scope) -> Result<S, String>,
 {
    &&& is_root(root)
    &&& registry_of_reporter(app.admin.reporter()) == registry_of_scope(root)
    &&& created_with(*buffer) == zeros(buffer_size(config.buffer_size_bytes))
    &&& app.routers@.len() == config.routers@.len()
    &&& app.admin.resolvers().len() == config.routers@.len()
    &&& app.admin.settings() == admin_settings(config.admin)
    &&& forall|i: int|
        0 <= i < config.routers@.len() ==> {
            &&& (#[trigger] app.routers@[i]).executor() is None
            &&& router_ok::<R, Rt, S, E, FR, FT, FS>(
                config.routers@[i],
                buffer,
                root,
                mk_resolver,
                mk_router,
                mk_server,
                app.routers@[i].servers(),
                app.admin.resolvers()[i],
            )
        }
}

/// A process's build failed at this router with this error: the routers
/// declared before it were built, and this one's build failed so.
pub open spec fn app_failed<R, Rt, S, E, FR, FT, FS>(
    config: AppConfig,
    mk_resolver: FR,
    mk_router: FT,
    mk_server: FS,
    buffer: TransferBuffer,
    root: tacho::Scope,
    at: int,
    error: Error,
) -> bool where
    FR: Fn(&InterpreterConfig, &tacho::Scope) -> Result<(R, E), String>,
    FT: Fn(R, &Option<Node>, &tacho::Scope, &tacho::Scope) -> Result<Rt, String>,
    FS: Fn(&Node, &Rt, TransferBuffer, &tacho::Scope) -> Result<S, String>,
 {
    &&& is_root(root)
    &&& created_with(*buffer) == zeros(buffer_size(config.buffer_size_bytes))
    &&& 0 <= at < config.routers@.len()
    &&& forall|k: int|
        0 <= k < at ==> router_succeeds::<R, Rt, S, E, FR, FT, FS>(
            #[trigger] config.routers@[k],
            buffer,
            root,
            mk_resolver,
            mk_router,
            mk_server,
        )
    &&& router_failed::<R, Rt, S, E, FR, FT, FS>(
        config.routers@[at],
        buffer,
        root,
        mk_resolver,
        mk_router,
        mk_server,
        error,
    )
}

impl AppConfig {
    /// Build an App from a configuration.
    ///
    /// One transfer buffer is allocated, zero-filled and of the configured
    /// size, which must be one that can be allocated, and one metrics
    /// registry made. The routers are built in
    /// declared order on that buffer and under the registry's root scope;
    /// the first router whose build fails ends the whole build with its
    /// error, and nothing is returned of the routers built before it.
    pub fn into_app<R, Rt, S, E, FR, FT, FS>(
        self,
        mk_resolver: &FR,
        mk_router: &FT,
        mk_server: &FS,
    ) -> (r: Result<App<S, E>, Error>) where
        FR: Fn(&InterpreterConfig, &tacho::Scope) -> Result<(R, E), String>,
        FT: Fn(R, &Option<Node>, &tacho::Scope, &tacho::Scope) -> Result<Rt, String>,
        FS: Fn(&Node, &Rt, TransferBuffer, &tacho::Scope) -> Result<S, String>,

        requires
            buffer_size(self.buffer_size_bytes) <= isize::MAX,
            collaborators_total::<R, Rt, S, E, FR, FT, FS>(*mk_resolver, *mk_router, *mk_server),
        ensures
            match r {
                Ok(app) => exists|buffer: TransferBuffer, root: tacho::Scope|
                    app_built::<R, Rt, S, E, FR, FT, FS>(
                        self,
                        *mk_resolver,
                        *mk_router,
                        *mk_server,
                        buffer,
                        root,
                        app,
                    ),
                Err(error) => exists|buffer: TransferBuffer, root: tacho::Scope, at: int|
                    app_failed::<R, Rt, S, E, FR, FT, FS>(
                        self,
                        *mk_resolver,
                        *mk_router,
                        *mk_server,
                        buffer,
                        root,
                        at,
                        error,
                    ),
            },
            r matches Ok(app) ==> {
                &&& app.routers@.len() == self.routers@.len()
                &&& app.admin.resolvers().len() == self.routers@.len()
                &&& app.admin.settings() == admin_settings(self.admin)
            },
            self.routers@.len() == 0 ==> r is Ok,
    {
        // One transfer buffer is shared by all stream proxying.
        let buf = shared(zeroed(resolve_buffer_size(self.buffer_size_bytes)));
        let registry = root_registry();
        let metrics = registry.scope;

        // The resolvers' executors are kept apart so that service discovery
        // runs with the admin server, out of the serving path.
        let ghost all = self.routers@;
        let mut spawners: VecDeque<RouterSpawner<S, E>> = VecDeque::with_capacity(
            self.routers.len(),
        );
        for config in it: self.routers.into_iter()
            invariant
                is_root(metrics),
                created_with(*buf) == zeros(buffer_size(self.buffer_size_bytes)),
                collaborators_total::<R, Rt, S, E, FR, FT, FS>(*mk_resolver, *mk_router, *mk_server),
                all == self.routers@,
                it.seq() == all,
                spawners@.len() == it.index(),
                forall|k: int|
                    0 <= k < spawners@.len() ==> {
                        &&& (#[trigger] spawners@[k]).executor() is Some
                        &&& router_ok::<R, Rt, S, E, FR, FT, FS>(
                            all[k],
                            buf,
                            metrics,
                            *mk_resolver,
                            *mk_router,
                            *mk_server,
                            spawners@[k].servers(),
                            spawners@[k].executor()->0,
                        )
                    },
        {
            let ghost at = it.index() as int;
            match config.into_router(&buf, &metrics, mk_resolver, mk_router, mk_server) {
                Ok(spawner) => {
                    spawners.push_back(spawner);
                },
                Err(error) => {
                    assert forall|k: int| 0 <= k < at implies router_succeeds::<
                        R,
                        Rt,
                        S,
                        E,
                        FR,
                        FT,
                        FS,
                    >(
                        #[trigger] self.routers@[k],
                        buf,
                        metrics,
                        *mk_resolver,
                        *mk_router,
                        *mk_server,
                    ) by {
                        let made = spawners@[k];
                        assert(router_ok::<R, Rt, S, E, FR, FT, FS>(
                            all[k],
                            buf,
                            metrics,
                            *mk_resolver,
                            *mk_router,
                            *mk_server,
                            made.servers(),
                            made.executor()->0,
                        ));
                    }
                    assert(app_failed::<R, Rt, S, E, FR, FT, FS>(
                        self,
                        *mk_resolver,
                        *mk_router,
                        *mk_server,
                        buf,
                        metrics,
                        at,
                        error,
                    ));
                    return Err(error);
                },
            }
        }
        let ghost built = spawners@;
        let app = App::assemble(spawners, registry.reporter, &self.admin);
        assert(self.routers@.len() == built.len());
        assert(app_built::<R, Rt, S, E, FR, FT, FS>(
            self,
            *mk_resolver,
            *mk_router,
            *mk_server,
            buf,
            metrics,
            app,
        )) by {
            assert forall|i: int| 0 <= i < self.routers@.len() implies {
                &&& (#[trigger] app.routers@[i]).executor() is None
                &&& router_ok::<R, Rt, S, E, FR, FT, FS>(
                    self.routers@[i],
                    buf,
                    metrics,
                    *mk_resolver,
                    *mk_router,
                    *mk_server,
                    app.routers@[i].servers(),
                    app.admin.resolvers()[i],
                )
            } by {
                assert(built[i].executor() == Some(app.admin.resolvers()[i]));
            }
        }
        assert(exists|buffer: TransferBuffer, root: tacho::Scope|
            app_built::<R, Rt, S, E, FR, FT, FS>(
                self,
                *mk_resolver,
                *mk_router,
                *mk_server,
                buffer,
                root,
                app,
            ));
        let r = Ok(app);
        assert(r matches Ok(a) && a == app);
        r
    }
}

/// Under the root of the process's metrics, the collaborators of a router
/// are handed scopes named `l5d` and, for the balancer, `l5d:balancer`,
/// each labelled with the router's label under `rt` and with nothing else.
pub proof fn scopes_under_the_root_carry_the_router_label(
    root: tacho::Scope,
    label: Seq<char>,
    scope: tacho::Scope,
    balancer: tacho::Scope,
)
    requires
        is_root(root),
        scopes_for(root, label, scope, balancer),
    ensures
        is_router_scope(scope, label),
        is_balancer_scope(balancer, label),
{
    assert(scope_prefix(balancer) =~= seq!["l5d"@, "balancer"@]);
}

/// Topology: a process that was built has one spawner for each declared
/// router and one executor with the admin runner for each, both in
/// declared order. The spawner at a position was built from the router
/// declared at that position and holds no executor any more; the executor
/// at that position is the one made with that router's resolver.
pub proof fn built_app_mirrors_the_declared_routers<R, Rt, S, E, FR, FT, FS>(
    config: AppConfig,
    mk_resolver: FR,
    mk_router: FT,
    mk_server: FS,
    buffer: TransferBuffer,
    root: tacho::Scope,
    app: App<S, E>,
    i: int,
) where
    FR: Fn(&InterpreterConfig, &tacho::Scope) -> Result<(R, E), String>,
    FT: Fn(R, &Option<Node>, &tacho::Scope, &tacho::Scope) -> Result<Rt, String>,
    FS: Fn(&Node, &Rt, TransferBuffer, &tacho::Scope) -> Result<S, String>,

    requires
        app_built::<R, Rt, S, E, FR, FT, FS>(
            config,
            mk_resolver,
            mk_router,
            mk_server,
            buffer,
            root,
            app,
        ),
        0 <= i < config.routers@.len(),
    ensures
        app.routers@.len() == config.routers@.len(),
        app.admin.resolvers().len() == config.routers@.len(),
        app.routers@[i].executor() is None,
        app.routers@[i].servers().len() == config.routers@[i].servers@.len(),
        exists|scope: tacho::Scope, balancer: tacho::Scope, resolver: R|
            scopes_for(root, config.routers@[i].label@, scope, balancer) && mk_resolver.ensures(
                (&config.routers@[i].interpreter, &scope),
                Ok((resolver, app.admin.resolvers()[i])),
            ),
{
    let spawner = app.routers@[i];
    assert(router_ok::<R, Rt, S, E, FR, FT, FS>(
        config.routers@[i],
        buffer,
        root,
        mk_resolver,
        mk_router,
        mk_server,
        spawner.servers(),
        app.admin.resolvers()[i],
    ));
    let (scope, balancer, resolver, router) = choose|
        scope: tacho::Scope,
        balancer: tacho::Scope,
        resolver: R,
        router: Rt,
    |
        router_built(
            config.routers@[i],
            buffer,
            root,
            mk_resolver,
            mk_router,
            mk_server,
            scope,
            balancer,
            resolver,
            router,
            spawner.servers(),
            app.admin.resolvers()[i],
        );
    assert(scopes_for(root, config.routers@[i].label@, scope, balancer) && mk_resolver.ensures(
        (&config.routers@[i].interpreter, &scope),
        Ok((resolver, app.admin.resolvers()[i])),
    ));
}

/// Buffer identity: in a process that was built, every server of every
/// router was made on the one buffer of the build, which was created
/// filled with zeros at the configured size.
pub proof fn built_servers_share_the_one_buffer<R, Rt, S, E, FR, FT, FS>(
    config: AppConfig,
    mk_resolver: FR,
    mk_router: FT,
    mk_server: FS,
    buffer: TransferBuffer,
    root: tacho::Scope,
    app: App<S, E>,
    i: int,
    j: int,
) where
    FR: Fn(&InterpreterConfig, &tacho::Scope) -> Result<(R, E), String>,
    FT: Fn(R, &Option<Node>, &tacho::Scope, &tacho::Scope) -> Result<Rt, String>,
    FS: Fn(&Node, &Rt, TransferBuffer, &tacho::Scope) -> Result<S, String>,

    requires
        app_built::<R, Rt, S, E, FR, FT, FS>(
            config,
            mk_resolver,
            mk_router,
            mk_server,
            buffer,
            root,
            app,
        ),
        0 <= i < config.routers@.len(),
        0 <= j < config.routers@[i].servers@.len(),
    ensures
        created_with(*buffer) == zeros(buffer_size(config.buffer_size_bytes)),
        j < app.routers@[i].servers().len(),
        exists|router: Rt, scope: tacho::Scope|
            mk_server.ensures(
                (&config.routers@[i].servers@[j], &router, buffer, &scope),
                Ok(app.routers@[i].servers()[j]),
            ),
{
    let spawner = app.routers@[i];
    assert(router_ok::<R, Rt, S, E, FR, FT, FS>(
        config.routers@[i],
        buffer,
        root,
        mk_resolver,
        mk_router,
        mk_server,
        spawner.servers(),
        app.admin.resolvers()[i],
    ));
    let (scope, balancer, resolver, router) = choose|
        scope: tacho::Scope,
        balancer: tacho::Scope,
        resolver: R,
        router: Rt,
    |
        router_built(
            config.routers@[i],
            buffer,
            root,
            mk_resolver,
            mk_router,
            mk_server,
            scope,
            balancer,
            resolver,
            router,
            spawner.servers(),
            app.admin.resolvers()[i],
        );
    assert(mk_server.ensures(
        (&config.routers@[i].servers@[j], &router, buffer, &scope),
        Ok(spawner.servers()[j]),
    ));
}

} // verus!
