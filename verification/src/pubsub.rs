//! The notification server: which handler a request goes to, what is
//! answered without one, and the life of the server from bind to shutdown.

use crate::response::{SepResponse, SepResponseView};
use dashmap::DashMap;
use vstd::prelude::*;
use vstd::utf8::{decode_utf8, valid_utf8};

verus! {

/// `dashmap::DashMap`, a concurrent hash map. Nothing of it is visible here
/// but the entries that the functions below put in and look up.
#[verifier::external_type_specification]
#[verifier::external_body]
#[verifier::reject_recursive_types(K)]
#[verifier::reject_recursive_types(V)]
#[verifier::reject_recursive_types(S)]
pub struct ExDashMap<K, V, S>(DashMap<K, V, S>);

/// The routes of a notification server: each path with the number of its
/// handler. The map allows lookups from many connections at once.
pub type RouteMap = DashMap<String, u64>;

/// The table without a route.
pub open spec fn no_routes() -> Map<Seq<char>, u64> {
    Map::empty()
}

/// What a route map holds: the handler of each path that has one.
pub uninterp spec fn route_table(routes: RouteMap) -> Map<Seq<char>, u64>;

/// `DashMap::new`: a map that holds nothing.
#[verifier::external_body]
fn empty_routes() -> (made: RouteMap)
    ensures
        route_table(made) == no_routes(),
{
    DashMap::new()
}

/// `DashMap::insert`: afterwards the key has the value, in place of the one
/// it had if it had one, and every other key is as it was.
#[verifier::external_body]
fn insert_route(routes: &mut RouteMap, path: String, handler: u64)
    ensures
        route_table(*final(routes)) == route_table(*old(routes)).insert(path@, handler),
{
    routes.insert(path, handler);
}

/// `DashMap::get`: the value of the key, if the map holds the key.
#[verifier::external_body]
fn find_route(routes: &RouteMap, path: &str) -> (handler: Option<u64>)
    ensures
        handler == (if route_table(*routes).contains_key(path@) {
            Some(route_table(*routes)[path@])
        } else {
            None
        }),
{
    routes.get(path).map(|entry| *entry.value())
}

/// Calls `String::from_utf8`: the text that the bytes encode, where they are
/// UTF-8.
#[verifier::external_body]
fn utf8_text(bytes: Vec<u8>) -> (text: Option<String>)
    ensures
        text is Some <==> valid_utf8(bytes@),
        text matches Some(read) ==> read@ == decode_utf8(bytes@),
{
    String::from_utf8(bytes).ok()
}

/// Where a request goes.
#[derive(Debug)]
pub enum Route {
    /// To the handler of this number, with the body of the request.
    Handler(u64),
    /// Nowhere: this is the answer.
    Respond(SepResponse),
}

/// The mathematical value of a [`Route`].
pub enum RouteView {
    Handler(u64),
    Respond(SepResponseView),
}

impl View for Route {
    type V = RouteView;

    open spec fn view(&self) -> RouteView {
        match self {
            Route::Handler(handler) => RouteView::Handler(*handler),
            Route::Respond(response) => RouteView::Respond(response@),
        }
    }
}

/// Where a table sends a request: a path that it does not hold is not found,
/// a path that it holds takes POST alone, and a POST goes to the path's
/// handler. Paths are compared as they are.
pub open spec fn route_of(table: Map<Seq<char>, u64>, path: Seq<char>, post: bool) -> RouteView {
    if !table.contains_key(path) {
        RouteView::Respond(SepResponseView::NotFound)
    } else if !post {
        RouteView::Respond(SepResponseView::MethodNotAllowed("POST"@))
    } else {
        RouteView::Handler(table[path])
    }
}

/// The table of exact paths and their handlers.
pub struct Router {
    routes: RouteMap,
}

impl Router {
    /// The handler of each path that has one.
    pub closed spec fn table(&self) -> Map<Seq<char>, u64> {
        route_table(self.routes)
    }

    /// A router without a route.
    pub fn new() -> (router: Router)
        ensures
            router.table() == no_routes(),
    {
        Router { routes: empty_routes() }
    }

    /// Gives the path a handler, in place of the one it had if it had one.
    pub fn add(&mut self, path: String, handler: u64)
        ensures
            final(self).table() == old(self).table().insert(path@, handler),
    {
        insert_route(&mut self.routes, path, handler);
    }

    /// Decides where a request goes, by its path and by whether its method
    /// is POST.
    pub fn route(&self, path: &str, post: bool) -> (route: Route)
        ensures
            route@ == route_of(self.table(), path@, post),
    {
        match find_route(&self.routes, path) {
            None => Route::Respond(SepResponse::NotFound),
            Some(handler) => {
                if post {
                    Route::Handler(handler)
                } else {
                    Route::Respond(SepResponse::MethodNotAllowed(String::from_str("POST")))
                }
            },
        }
    }
}

/// The text of the body of a notification, which must be UTF-8: `None` where
/// it is not, and the request then fails without an answer.
pub fn request_text(body: Vec<u8>) -> (text: Option<String>)
    ensures
        text is Some <==> valid_utf8(body@),
        text matches Some(read) ==> read@ == decode_utf8(body@),
{
    utf8_text(body)
}

/// The answer to a notification: the one its callback gave, or 400 where
/// the body was no notification of the route's resource and the callback
/// did not run.
pub fn notification_response(given: Option<SepResponse>) -> (response: SepResponse)
    ensures
        response@ == (match given {
            Some(answer) => answer@,
            None => SepResponseView::BadRequest,
        }),
{
    match given {
        Some(answer) => answer,
        None => SepResponse::BadRequest,
    }
}

/// Where the server stands.
#[derive(Clone, Copy, Debug, PartialEq, Eq, Structural)]
pub enum ServerState {
    /// Not yet listening.
    Starting,
    /// Waiting for a connection or for the shutdown signal.
    Listening,
    /// A connection was accepted and its TLS handshake is under way.
    Handshaking,
    /// Shut down: `run` has returned `Ok`.
    Stopped,
    /// Could not start: `run` has returned the error.
    Failed,
}

/// What happens to the server.
#[derive(Clone, Copy, Debug, PartialEq, Eq, Structural)]
pub enum ServerEvent {
    /// The listener is bound to its address.
    Bound,
    /// The listener could not be bound, or the acceptor could not be built.
    BindFailed,
    /// The shutdown signal has come.
    Shutdown,
    /// A connection was accepted.
    Accepted,
    /// Accepting a connection failed.
    AcceptFailed,
    /// The TLS handshake is done.
    HandshakeDone,
    /// The TLS session could not be set up, or the handshake failed.
    HandshakeFailed,
}

/// What the server does next.
#[derive(Clone, Copy, Debug, PartialEq, Eq, Structural)]
pub enum ServerAction {
    /// Wait for a connection or for the shutdown signal.
    Accept,
    /// Perform the TLS handshake on the connection that was accepted.
    Handshake,
    /// Serve the connection in a task of its own, then wait for the next.
    Serve,
    /// Drop the connection, then wait for the next.
    Drop,
    /// Abort the tasks of all connections, wait for them to end, and return `Ok`.
    Finish,
    /// Return the error.
    Fail,
    /// Nothing: the event has no meaning where the server stands.
    Ignore,
}

/// The state that follows an event.
pub open spec fn server_next(state: ServerState, event: ServerEvent) -> ServerState {
    match (state, event) {
        (ServerState::Starting, ServerEvent::Bound) => ServerState::Listening,
        (ServerState::Starting, ServerEvent::BindFailed) => ServerState::Failed,
        (ServerState::Listening, ServerEvent::Shutdown) => ServerState::Stopped,
        (ServerState::Listening, ServerEvent::Accepted) => ServerState::Handshaking,
        (ServerState::Handshaking, ServerEvent::HandshakeDone) => ServerState::Listening,
        (ServerState::Handshaking, ServerEvent::HandshakeFailed) => ServerState::Listening,
        _ => state,
    }
}

/// What the server does on an event.
pub open spec fn server_action(state: ServerState, event: ServerEvent) -> ServerAction {
    match (state, event) {
        (ServerState::Starting, ServerEvent::Bound) => ServerAction::Accept,
        (ServerState::Starting, ServerEvent::BindFailed) => ServerAction::Fail,
        (ServerState::Listening, ServerEvent::Shutdown) => ServerAction::Finish,
        (ServerState::Listening, ServerEvent::Accepted) => ServerAction::Handshake,
        (ServerState::Listening, ServerEvent::AcceptFailed) => ServerAction::Accept,
        (ServerState::Handshaking, ServerEvent::HandshakeDone) => ServerAction::Serve,
        (ServerState::Handshaking, ServerEvent::HandshakeFailed) => ServerAction::Drop,
        _ => ServerAction::Ignore,
    }
}

/// The state of the server after a run of events.
pub open spec fn server_after(state: ServerState, events: Seq<ServerEvent>) -> ServerState
    decreases events.len(),
{
    if events.len() == 0 {
        state
    } else {
        server_next(server_after(state, events.drop_last()), events.last())
    }
}

impl ServerState {
    /// Takes an event and says what the server does next.
    pub fn step(&mut self, event: ServerEvent) -> (action: ServerAction)
        ensures
            action == server_action(*old(self), event),
            *final(self) == server_next(*old(self), event),
    {
        let (next, action) = match (*self, event) {
            (ServerState::Starting, ServerEvent::Bound) => (
                ServerState::Listening,
                ServerAction::Accept,
            ),
            (ServerState::Starting, ServerEvent::BindFailed) => (
                ServerState::Failed,
                ServerAction::Fail,
            ),
            (ServerState::Listening, ServerEvent::Shutdown) => (
                ServerState::Stopped,
                ServerAction::Finish,
            ),
            (ServerState::Listening, ServerEvent::Accepted) => (
                ServerState::Handshaking,
                ServerAction::Handshake,
            ),
            (ServerState::Listening, ServerEvent::AcceptFailed) => (
                ServerState::Listening,
                ServerAction::Accept,
            ),
            (ServerState::Handshaking, ServerEvent::HandshakeDone) => (
                ServerState::Listening,
                ServerAction::Serve,
            ),
            (ServerState::Handshaking, ServerEvent::HandshakeFailed) => (
                ServerState::Listening,
                ServerAction::Drop,
            ),
            (state, _) => (state, ServerAction::Ignore),
        };
        *self = next;
        action
    }
}

/// A notification server that is being set up: the routes that it will
/// serve.
pub struct ClientNotifServer {
    router: Router,
}

impl ClientNotifServer {
    /// The handler of each path that has one.
    pub closed spec fn table(&self) -> Map<Seq<char>, u64> {
        self.router.table()
    }

    /// A server without a route.
    pub fn new() -> (server: ClientNotifServer)
        ensures
            server.table() == no_routes(),
    {
        ClientNotifServer { router: Router::new() }
    }

    /// Adds a route to the server: notifications that are posted to the path
    /// go to the handler of the given number. A path that had a handler gets
    /// the new one.
    pub fn add(self, path: String, handler: u64) -> (server: ClientNotifServer)
        ensures
            server.table() == self.table().insert(path@, handler),
    {
        let mut server = self;
        server.router.add(path, handler);
        server
    }

    /// Decides where a request goes, by its path and by whether its method
    /// is POST.
    pub fn route(&self, path: &str, post: bool) -> (route: Route)
        ensures
            route@ == route_of(self.table(), path@, post),
    {
        self.router.route(path, post)
    }

    /// Starts the server: from here on its routes do not change. Hands out
    /// the router, which the connections share, and the state that the run
    /// begins in; [`ServerState::step`] takes the run from there.
    pub fn run(self) -> (started: (Router, ServerState))
        ensures
            started.0.table() == self.table(),
            started.1 == ServerState::Starting,
    {
        (self.router, ServerState::Starting)
    }
}

/// A server that listens never fails: once the listener is bound, no event
/// brings the server to `Failed`, and none makes it return an error.
pub proof fn lemma_only_bind_fails(state: ServerState, events: Seq<ServerEvent>)
    requires
        state != ServerState::Starting,
        state != ServerState::Failed,
    ensures
        server_after(state, events) != ServerState::Failed,
        server_after(state, events) != ServerState::Starting,
        forall|event: ServerEvent|
            server_action(server_after(state, events), event) != ServerAction::Fail,
    decreases events.len(),
{
    if events.len() > 0 {
        lemma_only_bind_fails(state, events.drop_last());
    }
}

} // verus!
