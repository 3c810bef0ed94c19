use gen_todo::config::{Config, DatabaseConfig, ServerConfig};
use gen_todo::services::database::DatabasePool;
use gen_todo::services::web_server::{
    AxumWebServer, BindAddress, IpAddress, RunOutcome, ServerAction, ServerEvent, ServerState,
    WebServerContext, WebServerError, WebServerStrategy,
};
use sea_orm::DatabaseConnection;

const STATES: [ServerState; 5] = [
    ServerState::Constructed,
    ServerState::Bound,
    ServerState::Serving,
    ServerState::Stopped,
    ServerState::Failed,
];

const EVENTS: [ServerEvent; 6] = [
    ServerEvent::RunRequested,
    ServerEvent::BindSucceeded,
    ServerEvent::BindFailed,
    ServerEvent::ServeEnded,
    ServerEvent::ServeFailed,
    ServerEvent::ShutdownRequested,
];

fn config(host: &str, port: u16) -> Config {
    Config {
        version: "1.0.0".to_string(),
        database: DatabaseConfig {
            host: "localhost".to_string(),
            port: 5432,
            name: "appdb".to_string(),
            user: "postgres".to_string(),
            password: "password".to_string(),
            max_connections: 100,
            connection_timeout: std::time::Duration::from_secs(30),
        },
        server: ServerConfig { host: host.to_string(), port },
    }
}

fn pool() -> DatabasePool {
    DatabasePool::new(Ok(DatabaseConnection::default())).unwrap()
}

fn server() -> AxumWebServer {
    match AxumWebServer::new(&config("127.0.0.1", 8080), Some(IpAddress::V4(127, 0, 0, 1)), pool())
    {
        Ok(server) => server,
        Err(error) => panic!("a valid address was refused: {}", error.message()),
    }
}

/// A strategy that plays a recorded bind and serve outcome through the
/// lifecycle, as a driver of the HTTP strategy would.
struct Scripted {
    state: ServerState,
    bind: Result<(), String>,
    serve: Result<(), String>,
    binds: u32,
}

impl Scripted {
    fn new(bind: Result<(), String>, serve: Result<(), String>) -> Self {
        Scripted { state: ServerState::Constructed, bind, serve, binds: 0 }
    }
}

impl WebServerStrategy for Scripted {
    fn state(&self) -> ServerState {
        self.state
    }

    fn run_gives(&self, after: &Self, result: Result<(), WebServerError>) -> bool {
        if self.state == ServerState::Constructed {
            (after.state == ServerState::Stopped) == result.is_ok()
        } else {
            after.state == self.state && result.is_err()
        }
    }

    fn run(&mut self) -> Result<(), WebServerError> {
        let mut event = ServerEvent::RunRequested;
        let mut cause = String::new();
        loop {
            let (state, action) = self.state.advance(event);
            self.state = state;
            match action {
                ServerAction::Bind => {
                    self.binds += 1;
                    event = match &self.bind {
                        Ok(()) => ServerEvent::BindSucceeded,
                        Err(text) => {
                            cause = text.clone();
                            ServerEvent::BindFailed
                        }
                    };
                }
                ServerAction::Serve => {
                    event = match &self.serve {
                        Ok(()) => ServerEvent::ServeEnded,
                        Err(text) => {
                            cause = text.clone();
                            ServerEvent::ServeFailed
                        }
                    };
                }
                ServerAction::Finish(outcome) => return outcome.into_result(cause),
                ServerAction::Drain | ServerAction::Ignore => {
                    unreachable!("the driver follows the lifecycle")
                }
            }
        }
    }
}

#[test]
fn malformed_address_fails_at_construction() {
    let built = AxumWebServer::new(&config("not-an-ip", 8080), None, pool());
    match built {
        Err(WebServerError::Configuration(cause)) => {
            assert_eq!(cause, "invalid IP address syntax: not-an-ip");
        }
        Err(other) => panic!("wrong class of error: {:?}", other),
        Ok(_) => panic!("a malformed address gave a server"),
    }
}

#[test]
fn valid_address_gives_a_fresh_instance() {
    let built = server();
    assert_eq!(built.state(), ServerState::Constructed);
    assert_eq!(
        built.address(),
        BindAddress { ip: IpAddress::V4(127, 0, 0, 1), port: 8080 }
    );
    assert!(matches!(built.database().get_connection(), DatabaseConnection::Disconnected));
    let _routes: &axum::Router = built.router();
}

#[test]
fn version_six_address_is_kept() {
    let ip = IpAddress::V6(0, 0, 0, 0, 0, 0, 0, 1);
    let built = AxumWebServer::new(&config("::1", 3000), Some(ip), pool());
    match built {
        Ok(server) => assert_eq!(server.address(), BindAddress { ip, port: 3000 }),
        Err(error) => panic!("a valid address was refused: {}", error.message()),
    }
}

#[test]
fn good_run_walks_the_whole_lifecycle() {
    let mut server = server();
    assert_eq!(server.advance(ServerEvent::RunRequested), ServerAction::Bind);
    assert_eq!(server.state(), ServerState::Bound);
    assert_eq!(server.advance(ServerEvent::BindSucceeded), ServerAction::Serve);
    assert_eq!(server.state(), ServerState::Serving);
    assert_eq!(
        server.advance(ServerEvent::ServeEnded),
        ServerAction::Finish(RunOutcome::Stopped)
    );
    assert_eq!(server.state(), ServerState::Stopped);
    assert_eq!(
        server.address(),
        BindAddress { ip: IpAddress::V4(127, 0, 0, 1), port: 8080 }
    );
}

#[test]
fn bind_failure_and_serve_failure_are_told_apart() {
    let mut server_one = server();
    server_one.advance(ServerEvent::RunRequested);
    assert_eq!(
        server_one.advance(ServerEvent::BindFailed),
        ServerAction::Finish(RunOutcome::BindFailed)
    );
    assert_eq!(server_one.state(), ServerState::Failed);

    let mut server_two = server();
    server_two.advance(ServerEvent::RunRequested);
    server_two.advance(ServerEvent::BindSucceeded);
    assert_eq!(
        server_two.advance(ServerEvent::ServeFailed),
        ServerAction::Finish(RunOutcome::ServeFailed)
    );
    assert_eq!(server_two.state(), ServerState::Failed);
}

#[test]
fn second_run_request_is_rejected_in_every_later_state() {
    for state in STATES {
        let (next, action) = state.advance(ServerEvent::RunRequested);
        if state == ServerState::Constructed {
            assert_eq!((next, action), (ServerState::Bound, ServerAction::Bind));
        } else {
            assert_eq!((next, action), (state, ServerAction::Finish(RunOutcome::Rejected)));
        }
    }
}

#[test]
fn no_event_leads_back_to_constructed() {
    for state in STATES {
        for event in EVENTS {
            let (next, _) = state.advance(event);
            if state != ServerState::Constructed {
                assert_ne!(next, ServerState::Constructed);
            }
        }
    }
}

#[test]
fn spent_instances_stay_as_they_are() {
    for state in [ServerState::Stopped, ServerState::Failed] {
        for event in EVENTS {
            let (next, action) = state.advance(event);
            assert_eq!(next, state);
            assert_ne!(action, ServerAction::Bind);
            assert_ne!(action, ServerAction::Serve);
            assert_ne!(action, ServerAction::Drain);
        }
    }
}

#[test]
fn shutdown_while_serving_drains_and_then_stops() {
    let mut server = server();
    server.advance(ServerEvent::RunRequested);
    server.advance(ServerEvent::BindSucceeded);
    assert_eq!(server.advance(ServerEvent::ShutdownRequested), ServerAction::Drain);
    assert_eq!(server.state(), ServerState::Serving);
    assert_eq!(server.advance(ServerEvent::ShutdownRequested), ServerAction::Drain);
    assert_eq!(
        server.advance(ServerEvent::ServeEnded),
        ServerAction::Finish(RunOutcome::Stopped)
    );
    assert_eq!(server.state(), ServerState::Stopped);
}

#[test]
fn shutdown_before_serving_ends_the_run_at_once() {
    let mut server = server();
    server.advance(ServerEvent::RunRequested);
    assert_eq!(
        server.advance(ServerEvent::ShutdownRequested),
        ServerAction::Finish(RunOutcome::Stopped)
    );
    assert_eq!(server.state(), ServerState::Stopped);
    assert_eq!(server.advance(ServerEvent::BindSucceeded), ServerAction::Ignore);
    assert_eq!(server.state(), ServerState::Stopped);
}

#[test]
fn shutdown_without_a_run_changes_nothing() {
    for state in [ServerState::Constructed, ServerState::Stopped, ServerState::Failed] {
        assert_eq!(
            state.advance(ServerEvent::ShutdownRequested),
            (state, ServerAction::Ignore)
        );
    }
}

#[test]
fn no_sequence_of_three_events_binds_twice() {
    for start in STATES {
        for first in EVENTS {
            for second in EVENTS {
                for third in EVENTS {
                    let mut state = start;
                    let mut binds = 0;
                    for event in [first, second, third] {
                        let (next, action) = state.advance(event);
                        if action == ServerAction::Bind {
                            binds += 1;
                        }
                        state = next;
                    }
                    assert!(binds <= 1);
                    if start != ServerState::Constructed {
                        assert_eq!(binds, 0);
                    }
                }
            }
        }
    }
}

#[test]
fn events_out_of_turn_are_ignored() {
    assert_eq!(
        ServerState::Constructed.advance(ServerEvent::BindSucceeded),
        (ServerState::Constructed, ServerAction::Ignore)
    );
    assert_eq!(
        ServerState::Constructed.advance(ServerEvent::ServeFailed),
        (ServerState::Constructed, ServerAction::Ignore)
    );
    assert_eq!(
        ServerState::Bound.advance(ServerEvent::ServeEnded),
        (ServerState::Bound, ServerAction::Ignore)
    );
    assert_eq!(
        ServerState::Serving.advance(ServerEvent::BindFailed),
        (ServerState::Serving, ServerAction::Ignore)
    );
}

#[test]
fn outcomes_become_results_of_the_right_class() {
    assert_eq!(RunOutcome::Stopped.into_result("unused".to_string()), Ok(()));
    assert_eq!(
        RunOutcome::BindFailed.into_result("address in use".to_string()),
        Err(WebServerError::Bind("address in use".to_string()))
    );
    assert_eq!(
        RunOutcome::ServeFailed.into_result("connection reset".to_string()),
        Err(WebServerError::Serve("connection reset".to_string()))
    );
    assert_eq!(
        RunOutcome::Rejected.into_result("unused".to_string()),
        Err(WebServerError::Bind("this server instance has already been run".to_string()))
    );
}

#[test]
fn messages_introduce_the_cause() {
    assert_eq!(
        WebServerError::Bind("address in use".to_string()).message(),
        "Server error: address in use"
    );
    assert_eq!(
        WebServerError::Serve("connection reset".to_string()).message(),
        "Server error: connection reset"
    );
    assert_eq!(
        WebServerError::Configuration("invalid IP address syntax: x".to_string()).message(),
        "Server error: invalid IP address syntax: x"
    );
    assert_eq!(WebServerError::Bind(String::new()).message(), "Server error: ");
}

#[test]
fn errors_clone_to_equal_errors() {
    let error = WebServerError::Serve("connection reset".to_string());
    assert_eq!(error.clone(), error);
    assert_ne!(error, WebServerError::Bind("connection reset".to_string()));
}

#[test]
fn context_forwards_to_its_strategy() {
    let mut context = WebServerContext::new(Scripted::new(Ok(()), Ok(())));
    assert_eq!(context.run(), Ok(()));
}

#[test]
fn context_reports_the_strategys_failures() {
    let mut context =
        WebServerContext::new(Scripted::new(Err("address in use".to_string()), Ok(())));
    assert_eq!(context.run(), Err(WebServerError::Bind("address in use".to_string())));
    let mut context =
        WebServerContext::new(Scripted::new(Ok(()), Err("connection reset".to_string())));
    assert_eq!(context.run(), Err(WebServerError::Serve("connection reset".to_string())));
}

#[test]
fn running_twice_is_rejected_and_binds_once() {
    let mut strategy = Scripted::new(Ok(()), Ok(()));
    assert_eq!(strategy.run(), Ok(()));
    assert_eq!(strategy.state(), ServerState::Stopped);
    assert_eq!(
        strategy.run(),
        Err(WebServerError::Bind("this server instance has already been run".to_string()))
    );
    assert_eq!(strategy.state(), ServerState::Stopped);
    assert_eq!(strategy.binds, 1);

    let mut context = WebServerContext::new(Scripted::new(Err("denied".to_string()), Ok(())));
    assert_eq!(context.run(), Err(WebServerError::Bind("denied".to_string())));
    assert_eq!(
        context.run(),
        Err(WebServerError::Bind("this server instance has already been run".to_string()))
    );
}

/// A strategy that counts the calls of its `run` and always returns the same
/// result.
struct Counting {
    calls: u32,
    result: Result<(), WebServerError>,
}

impl WebServerStrategy for Counting {
    fn state(&self) -> ServerState {
        match (self.calls, &self.result) {
            (0, _) => ServerState::Constructed,
            (_, Ok(())) => ServerState::Stopped,
            (_, Err(_)) => ServerState::Failed,
        }
    }

    fn run_gives(&self, after: &Self, result: Result<(), WebServerError>) -> bool {
        after.calls == self.calls + 1 && result == self.result
    }

    fn run(&mut self) -> Result<(), WebServerError> {
        self.calls += 1;
        self.result.clone()
    }
}

#[test]
fn context_returns_the_strategys_error_unchanged() {
    for error in [
        WebServerError::Bind("boom".to_string()),
        WebServerError::Serve("boom".to_string()),
        WebServerError::Configuration("boom".to_string()),
        WebServerError::Serve(String::new()),
    ] {
        let strategy = Counting { calls: 0, result: Err(error.clone()) };
        let mut context = WebServerContext::new(strategy);
        assert_eq!(context.run(), Err(error));
    }
}

#[test]
fn context_calls_the_strategy_exactly_once_per_run() {
    let calls = std::rc::Rc::new(std::cell::Cell::new(0u32));

    struct Shared(std::rc::Rc<std::cell::Cell<u32>>);

    impl WebServerStrategy for Shared {
        fn state(&self) -> ServerState {
            if self.0.get() == 0 {
                ServerState::Constructed
            } else {
                ServerState::Stopped
            }
        }

        fn run_gives(&self, _after: &Self, result: Result<(), WebServerError>) -> bool {
            result.is_ok()
        }

        fn run(&mut self) -> Result<(), WebServerError> {
            self.0.set(self.0.get() + 1);
            Ok(())
        }
    }

    let mut context = WebServerContext::new(Shared(calls.clone()));
    assert_eq!(context.run(), Ok(()));
    assert_eq!(calls.get(), 1);
    assert_eq!(context.run(), Ok(()));
    assert_eq!(calls.get(), 2);
}

#[test]
fn counting_strategy_sees_one_call() {
    let mut strategy = Counting { calls: 0, result: Ok(()) };
    let before = Counting { calls: 0, result: Ok(()) };
    let result = strategy.run();
    assert!(before.run_gives(&strategy, result));
    assert_eq!(strategy.calls, 1);
    assert_eq!(strategy.state(), ServerState::Stopped);
}
