//! The web server: how the process is run, kept apart from what runs.
//!
//! A strategy is one way of running a server; the context owns exactly one
//! strategy and forwards to it. The HTTP strategy keeps its bind address, its
//! routing graph and its place in the lifecycle
//! `Constructed → Bound → Serving → {Stopped | Failed}`; opening the socket
//! and serving on it is done by whoever drives it, step by step.
//!
//! A run can be told to shut down. While it serves, the policy is to drain:
//! no new work is accepted, requests in flight are completed, and the run
//! then ends in good order. Before it serves there is nothing to drain, and
//! the run ends at once.

use vstd::prelude::*;
use vstd::string::*;
use axum::Router;
use crate::config::Config;
use crate::services::database::DatabasePool;

verus! {

/// `axum::Router`, the routing graph that the server serves. Its inside is
/// not looked at here: the library only carries it.
#[verifier::external_type_specification]
#[verifier::external_body]
#[verifier::reject_recursive_types(S)]
pub struct ExRouter<S>(axum::Router<S>);

/// `axum::Router::new`: a routing graph without routes. Nothing is claimed of
/// it.
#[verifier::external_body]
fn empty_router() -> Router {
    Router::new()
}

/// Why a server could not be set up or stopped abnormally. Each class
/// carries its cause as text.
#[derive(Debug, PartialEq, Eq)]
pub enum WebServerError {
    /// The listening socket could not be acquired.
    Bind(String),
    /// Serving failed after the socket had been acquired.
    Serve(String),
    /// The configuration is unusable; raised when the strategy is built.
    Configuration(String),
}

/// The message of a server error whose cause reads `cause`.
pub open spec fn server_error_text(cause: Seq<char>) -> Seq<char> {
    "Server error: "@ + cause
}

/// The cause given when a host is no IP address.
pub open spec fn invalid_address_text(host: Seq<char>) -> Seq<char> {
    "invalid IP address syntax: "@ + host
}

/// The cause given when an instance is asked to run a second time.
pub open spec fn already_run_text() -> Seq<char> {
    "this server instance has already been run"@
}

impl Clone for WebServerError {
    fn clone(&self) -> (copy: Self)
        ensures
            copy == *self,
    {
        match self {
            WebServerError::Bind(cause) => WebServerError::Bind(cause.clone()),
            WebServerError::Serve(cause) => WebServerError::Serve(cause.clone()),
            WebServerError::Configuration(cause) => WebServerError::Configuration(cause.clone()),
        }
    }
}

impl WebServerError {
    /// The cause that the error carries.
    pub open spec fn cause(self) -> Seq<char> {
        match self {
            WebServerError::Bind(cause) => cause@,
            WebServerError::Serve(cause) => cause@,
            WebServerError::Configuration(cause) => cause@,
        }
    }

    /// The message of the error: the fixed introduction, then the cause.
    pub fn message(&self) -> (message: String)
        ensures
            message@ == server_error_text(self.cause()),
    {
        let mut message = String::from_str("Server error: ");
        match self {
            WebServerError::Bind(cause) => message.append(cause.as_str()),
            WebServerError::Serve(cause) => message.append(cause.as_str()),
            WebServerError::Configuration(cause) => message.append(cause.as_str()),
        }
        message
    }
}

/// Where a strategy instance stands in its life.
#[derive(Clone, Copy, Debug, PartialEq, Eq, Structural)]
pub enum ServerState {
    /// Built and validated; nothing has been opened.
    Constructed,
    /// `run` has taken the instance's one bind: the listening socket is being
    /// acquired, or is held.
    Bound,
    /// The routing graph is being served on the socket.
    Serving,
    /// Serving ended in good order.
    Stopped,
    /// Binding or serving failed.
    Failed,
}

/// How one call of `run` relates the state before to the state after and to
/// the result. A fresh instance ends stopped, or failed with a bind or serve
/// error; any other instance is turned away with an error and left as it was.
pub open spec fn run_obeys_lifecycle(
    before: ServerState,
    after: ServerState,
    result: Result<(), WebServerError>,
) -> bool {
    if before == ServerState::Constructed {
        match result {
            Ok(_) => after == ServerState::Stopped,
            Err(error) => after == ServerState::Failed && (error is Bind || error is Serve),
        }
    } else {
        result is Err && after == before
    }
}

/// One way of running a web server.
pub trait WebServerStrategy {
    /// Where the instance stands in its life.
    spec fn state(&self) -> ServerState;

    /// Whether one call of `run` on this instance can leave it as `after` and
    /// return `result`.
    spec fn run_gives(&self, after: &Self, result: Result<(), WebServerError>) -> bool;

    /// Runs the server for its whole life: returns when it has stopped or
    /// failed. An instance runs once.
    fn run(&mut self) -> (result: Result<(), WebServerError>)
        ensures
            old(self).run_gives(final(self), result),
            run_obeys_lifecycle(old(self).state(), final(self).state(), result),
    ;
}

/// The composition root: owns one strategy for its whole life.
pub struct WebServerContext<T: WebServerStrategy> {
    strategy: T,
}

impl<T: WebServerStrategy> WebServerContext<T> {
    /// The strategy that the context owns.
    pub closed spec fn strategy(&self) -> T {
        self.strategy
    }

    /// Takes ownership of `strategy`.
    pub fn new(strategy: T) -> (context: Self)
        ensures
            context.strategy() == strategy,
    {
        WebServerContext { strategy }
    }

    /// Runs the server by the strategy: one call of the strategy's `run`,
    /// whose result comes back as it is; nothing is added.
    pub fn run(&mut self) -> (result: Result<(), WebServerError>)
        ensures
            old(self).strategy().run_gives(&final(self).strategy(), result),
            run_obeys_lifecycle(
                old(self).strategy().state(),
                final(self).strategy().state(),
                result,
            ),
    {
        self.strategy.run()
    }
}

/// An IP address, as plain numbers: the four octets of a version 4 address,
/// or the eight groups of a version 6 address.
#[derive(Clone, Copy, Debug, PartialEq, Eq, Structural)]
pub enum IpAddress {
    V4(u8, u8, u8, u8),
    V6(u16, u16, u16, u16, u16, u16, u16, u16),
}

/// The socket address on which a server listens.
#[derive(Clone, Copy, Debug, PartialEq, Eq, Structural)]
pub struct BindAddress {
    pub ip: IpAddress,
    pub port: u16,
}

/// What the driver of a server reports to it.
#[derive(Clone, Copy, Debug, PartialEq, Eq, Structural)]
pub enum ServerEvent {
    /// `run` has been called.
    RunRequested,
    /// The listening socket has been acquired.
    BindSucceeded,
    /// The listening socket could not be acquired.
    BindFailed,
    /// Serving has ended in good order.
    ServeEnded,
    /// Serving has failed.
    ServeFailed,
    /// The shutdown signal has arrived.
    ShutdownRequested,
}

/// How a call of `run` ends.
#[derive(Clone, Copy, Debug, PartialEq, Eq, Structural)]
pub enum RunOutcome {
    /// The run ended in good order: serving stopped, or the run was told to
    /// shut down before it served.
    Stopped,
    /// The listening socket could not be acquired.
    BindFailed,
    /// Serving failed after the socket had been acquired.
    ServeFailed,
    /// The instance had been run before; nothing was opened for this call.
    Rejected,
}

/// What a server asks its driver to do next.
#[derive(Clone, Copy, Debug, PartialEq, Eq, Structural)]
pub enum ServerAction {
    /// Acquire the listening socket at the instance's address.
    Bind,
    /// Serve the instance's routing graph on the socket.
    Serve,
    /// Stop accepting new work and complete the requests in flight; serving
    /// then ends by itself.
    Drain,
    /// Return from `run`, with this outcome.
    Finish(RunOutcome),
    /// The event came out of turn: do nothing.
    Ignore,
}

/// The lifecycle's transition: the state after `event`, and what to do.
pub open spec fn lifecycle_next(state: ServerState, event: ServerEvent) -> (
    ServerState,
    ServerAction,
) {
    match (state, event) {
        (ServerState::Constructed, ServerEvent::RunRequested) => (
            ServerState::Bound,
            ServerAction::Bind,
        ),
        (_, ServerEvent::RunRequested) => (state, ServerAction::Finish(RunOutcome::Rejected)),
        (ServerState::Bound, ServerEvent::BindSucceeded) => (
            ServerState::Serving,
            ServerAction::Serve,
        ),
        (ServerState::Bound, ServerEvent::BindFailed) => (
            ServerState::Failed,
            ServerAction::Finish(RunOutcome::BindFailed),
        ),
        (ServerState::Serving, ServerEvent::ServeEnded) => (
            ServerState::Stopped,
            ServerAction::Finish(RunOutcome::Stopped),
        ),
        (ServerState::Serving, ServerEvent::ServeFailed) => (
            ServerState::Failed,
            ServerAction::Finish(RunOutcome::ServeFailed),
        ),
        (ServerState::Bound, ServerEvent::ShutdownRequested) => (
            ServerState::Stopped,
            ServerAction::Finish(RunOutcome::Stopped),
        ),
        (ServerState::Serving, ServerEvent::ShutdownRequested) => (
            ServerState::Serving,
            ServerAction::Drain,
        ),
        _ => (state, ServerAction::Ignore),
    }
}

impl ServerState {
    /// Takes `event` in, and says where the instance stands then and what its
    /// driver is to do.
    pub fn advance(self, event: ServerEvent) -> (step: (ServerState, ServerAction))
        ensures
            step == lifecycle_next(self, event),
    {
        match event {
            ServerEvent::RunRequested => match self {
                ServerState::Constructed => (ServerState::Bound, ServerAction::Bind),
                _ => (self, ServerAction::Finish(RunOutcome::Rejected)),
            },
            ServerEvent::BindSucceeded => match self {
                ServerState::Bound => (ServerState::Serving, ServerAction::Serve),
                _ => (self, ServerAction::Ignore),
            },
            ServerEvent::BindFailed => match self {
                ServerState::Bound => (
                    ServerState::Failed,
                    ServerAction::Finish(RunOutcome::BindFailed),
                ),
                _ => (self, ServerAction::Ignore),
            },
            ServerEvent::ServeEnded => match self {
                ServerState::Serving => (
                    ServerState::Stopped,
                    ServerAction::Finish(RunOutcome::Stopped),
                ),
                _ => (self, ServerAction::Ignore),
            },
            ServerEvent::ServeFailed => match self {
                ServerState::Serving => (
                    ServerState::Failed,
                    ServerAction::Finish(RunOutcome::ServeFailed),
                ),
                _ => (self, ServerAction::Ignore),
            },
            ServerEvent::ShutdownRequested => match self {
                ServerState::Bound => (
                    ServerState::Stopped,
                    ServerAction::Finish(RunOutcome::Stopped),
                ),
                ServerState::Serving => (ServerState::Serving, ServerAction::Drain),
                _ => (self, ServerAction::Ignore),
            },
        }
    }
}

impl RunOutcome {
    /// The result that `run` returns for the outcome, where `cause` is the
    /// text of the failure that the driver met (unused where none was met).
    pub open spec fn yields(self, cause: Seq<char>, result: Result<(), WebServerError>) -> bool {
        match self {
            RunOutcome::Stopped => result is Ok,
            RunOutcome::BindFailed => result matches Err(WebServerError::Bind(text)) && text@
                == cause,
            RunOutcome::ServeFailed => result matches Err(WebServerError::Serve(text)) && text@
                == cause,
            RunOutcome::Rejected => result matches Err(WebServerError::Bind(text)) && text@
                == already_run_text(),
        }
    }

    /// The state in which a run that started on a fresh instance and ended
    /// with this outcome leaves the instance; a rejected call starts on no
    /// fresh instance.
    pub open spec fn final_state(self) -> Option<ServerState> {
        match self {
            RunOutcome::Stopped => Some(ServerState::Stopped),
            RunOutcome::BindFailed => Some(ServerState::Failed),
            RunOutcome::ServeFailed => Some(ServerState::Failed),
            RunOutcome::Rejected => None,
        }
    }

    /// Turns the outcome into what `run` returns: success, or the error of
    /// the right class around `cause`.
    pub fn into_result(self, cause: String) -> (result: Result<(), WebServerError>)
        ensures
            self.yields(cause@, result),
    {
        match self {
            RunOutcome::Stopped => Ok(()),
            RunOutcome::BindFailed => Err(WebServerError::Bind(cause)),
            RunOutcome::ServeFailed => Err(WebServerError::Serve(cause)),
            RunOutcome::Rejected => Err(
                WebServerError::Bind(String::from_str("this server instance has already been run")),
            ),
        }
    }
}

/// The HTTP strategy: a validated bind address, the routing graph to serve
/// there, the database pool that the routes work on, and the instance's place
/// in the lifecycle.
pub struct AxumWebServer {
    addr: BindAddress,
    router: Router,
    db_pool: DatabasePool,
    state: ServerState,
}

impl AxumWebServer {
    /// The address at which the instance listens.
    pub closed spec fn bind_address(&self) -> BindAddress {
        self.addr
    }

    /// The routing graph that the instance serves.
    pub closed spec fn routes(&self) -> Router {
        self.router
    }

    /// The database pool that the instance holds.
    pub closed spec fn pool(&self) -> DatabasePool {
        self.db_pool
    }

    /// Where the instance stands in its life.
    pub closed spec fn lifecycle(&self) -> ServerState {
        self.state
    }

    /// Builds the strategy for `config`, where `host` is what parsing
    /// `config.server.host` as an IP address gave. The address is validated
    /// here, before anything is opened: a host that is no IP address is a
    /// configuration error, and then no instance exists that could be run.
    pub fn new(config: &Config, host: Option<IpAddress>, db_pool: DatabasePool) -> (server: Result<
        AxumWebServer,
        WebServerError,
    >)
        ensures
            match host {
                Some(ip) => server matches Ok(built) && built.bind_address() == (BindAddress {
                    ip,
                    port: config.server.port,
                }) && built.pool() == db_pool && built.lifecycle() == ServerState::Constructed,
                None => server matches Err(WebServerError::Configuration(cause)) && cause@
                    == invalid_address_text(config.server.host@),
            },
    {
        match host {
            Some(ip) => Ok(
                AxumWebServer {
                    addr: BindAddress { ip, port: config.server.port },
                    router: empty_router(),
                    db_pool,
                    state: ServerState::Constructed,
                },
            ),
            None => {
                let mut cause = String::from_str("invalid IP address syntax: ");
                cause.append(config.server.host.as_str());
                Err(WebServerError::Configuration(cause))
            },
        }
    }

    /// The address at which the instance listens.
    pub fn address(&self) -> (address: BindAddress)
        ensures
            address == self.bind_address(),
    {
        self.addr
    }

    /// The routing graph that the instance serves.
    pub fn router(&self) -> (router: &Router)
        ensures
            *router == self.routes(),
    {
        &self.router
    }

    /// The database pool that the instance holds.
    pub fn database(&self) -> (pool: &DatabasePool)
        ensures
            *pool == self.pool(),
    {
        &self.db_pool
    }

    /// Where the instance stands in its life.
    pub fn state(&self) -> (state: ServerState)
        ensures
            state == self.lifecycle(),
    {
        self.state
    }

    /// Takes `event` in: the instance moves on in its lifecycle and says what
    /// its driver is to do. Its address, routes and pool stay as they are.
    pub fn advance(&mut self, event: ServerEvent) -> (action: ServerAction)
        ensures
            (final(self).lifecycle(), action) == lifecycle_next(old(self).lifecycle(), event),
            final(self).bind_address() == old(self).bind_address(),
            final(self).routes() == old(self).routes(),
            final(self).pool() == old(self).pool(),
    {
        let (state, action) = self.state.advance(event);
        self.state = state;
        action
    }
}

/// The state in which `events`, taken in one after the other from `state`,
/// leave an instance.
pub open spec fn state_after(state: ServerState, events: Seq<ServerEvent>) -> ServerState
    decreases events.len(),
{
    if events.len() == 0 {
        state
    } else {
        state_after(lifecycle_next(state, events.first()).0, events.drop_first())
    }
}

/// How often an instance asks for its socket while `events` are taken in one
/// after the other from `state`.
pub open spec fn binds_asked(state: ServerState, events: Seq<ServerEvent>) -> nat
    decreases events.len(),
{
    if events.len() == 0 {
        0
    } else {
        let step = lifecycle_next(state, events.first());
        let now: nat = if step.1 == ServerAction::Bind {
            1
        } else {
            0
        };
        now + binds_asked(step.0, events.drop_first())
    }
}

/// No event leads back to `Constructed`: an instance that has left that
/// state never returns to it, whatever is reported to it.
pub proof fn lemma_never_constructed_again(state: ServerState, events: Seq<ServerEvent>)
    requires
        state != ServerState::Constructed,
    ensures
        state_after(state, events) != ServerState::Constructed,
    decreases events.len(),
{
    if events.len() > 0 {
        lemma_never_constructed_again(
            lifecycle_next(state, events.first()).0,
            events.drop_first(),
        );
    }
}

/// An instance binds at most once in its life, whatever is reported to it and
/// however often it is asked to run; once it has left `Constructed` it never
/// binds.
pub proof fn lemma_binds_at_most_once(state: ServerState, events: Seq<ServerEvent>)
    ensures
        binds_asked(state, events) <= 1,
        state != ServerState::Constructed ==> binds_asked(state, events) == 0,
    decreases events.len(),
{
    if events.len() > 0 {
        lemma_binds_at_most_once(lifecycle_next(state, events.first()).0, events.drop_first());
    }
}

/// How far an instance has come in its life: it only ever grows.
pub open spec fn lifecycle_progress(state: ServerState) -> nat {
    match state {
        ServerState::Constructed => 0,
        ServerState::Bound => 1,
        ServerState::Serving => 2,
        ServerState::Stopped => 3,
        ServerState::Failed => 3,
    }
}

/// Asking for the socket, asking to serve and ending a run each move the
/// instance forward; everything else leaves it where it was. So one run asks
/// for its socket, then to serve, then ends, with no step repeated; only the
/// request to drain may come again while the instance serves.
pub proof fn lemma_lifecycle_moves_forward(state: ServerState, event: ServerEvent)
    ensures
        ({
            let (next, action) = lifecycle_next(state, event);
            if action == ServerAction::Bind || action == ServerAction::Serve || (action
                matches ServerAction::Finish(outcome) && outcome != RunOutcome::Rejected) {
                lifecycle_progress(next) > lifecycle_progress(state)
            } else {
                next == state
            }
        }),
{
}

/// A stopped or failed instance is spent: every event leaves it as it is, and
/// it asks for neither socket nor serving again.
pub proof fn lemma_spent_instance_stays(state: ServerState, event: ServerEvent)
    requires
        state == ServerState::Stopped || state == ServerState::Failed,
    ensures
        lifecycle_next(state, event).0 == state,
        lifecycle_next(state, event).1 != ServerAction::Bind,
        lifecycle_next(state, event).1 != ServerAction::Serve,
        lifecycle_next(state, event).1 != ServerAction::Drain,
{
}

/// A shutdown signal never fails a run and never opens anything: a run that
/// serves is told to drain and goes on serving until that is done, a run that
/// has not begun to serve ends in good order at once, and where no run is
/// under way the signal changes nothing.
pub proof fn lemma_shutdown_is_orderly(state: ServerState)
    ensures
        lifecycle_next(state, ServerEvent::ShutdownRequested) == (if state
            == ServerState::Serving {
            (ServerState::Serving, ServerAction::Drain)
        } else if state == ServerState::Bound {
            (ServerState::Stopped, ServerAction::Finish(RunOutcome::Stopped))
        } else {
            (state, ServerAction::Ignore)
        }),
{
}

/// Asking an instance to run that has been asked before is turned away: the
/// call ends at once with an error, and the instance stays as it is.
pub proof fn lemma_second_run_is_rejected(
    state: ServerState,
    cause: Seq<char>,
    result: Result<(), WebServerError>,
)
    requires
        state != ServerState::Constructed,
        RunOutcome::Rejected.yields(cause, result),
    ensures
        lifecycle_next(state, ServerEvent::RunRequested) == (
            state,
            ServerAction::Finish(RunOutcome::Rejected),
        ),
        result is Err,
        run_obeys_lifecycle(state, state, result),
{
}

/// Whenever the lifecycle ends a call of `run` that began on a fresh
/// instance, state and result fit the strategy contract: the instance is
/// stopped and the result is success, or it has failed and the result is the
/// bind or serve error.
pub proof fn lemma_finish_fits_contract(
    state: ServerState,
    event: ServerEvent,
    outcome: RunOutcome,
    cause: Seq<char>,
    result: Result<(), WebServerError>,
)
    requires
        lifecycle_next(state, event).1 == ServerAction::Finish(outcome),
        outcome != RunOutcome::Rejected,
        outcome.yields(cause, result),
    ensures
        outcome.final_state() == Some(lifecycle_next(state, event).0),
        run_obeys_lifecycle(ServerState::Constructed, lifecycle_next(state, event).0, result),
{
}

} // verus!
