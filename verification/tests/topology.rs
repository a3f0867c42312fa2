use linkerd_app::config::{AdminConfig, AppConfig, InterpreterConfig, RouterConfig};
use linkerd_app::document::{Entry, Node};
use linkerd_app::error::Error;
use linkerd_app::net::{IpAddr, SocketAddr};
use linkerd_app::topology::TransferBuffer;
use std::cell::RefCell;
use std::rc::Rc;

fn text(s: &str) -> Node {
    Node::Text(s.to_string())
}

fn router(label: &str, servers: &[&str]) -> RouterConfig {
    RouterConfig {
        label: label.to_string(),
        servers: servers.iter().map(|s| text(s)).collect(),
        client: None,
        interpreter: InterpreterConfig::NamerdHttp(vec![Entry {
            key: "namespace".to_string(),
            value: text(label),
        }]),
    }
}

fn name_of(node: &Node) -> String {
    match node {
        Node::Text(s) => s.clone(),
        _ => String::new(),
    }
}

fn resolver_of(config: &InterpreterConfig, _: &tacho::Scope) -> Result<(String, String), String> {
    let InterpreterConfig::NamerdHttp(settings) = config;
    let name = name_of(&settings[0].value);
    if name == "bad-interpreter" {
        Err("no such namerd".to_string())
    } else {
        Ok((format!("resolver:{}", name), format!("executor:{}", name)))
    }
}

fn router_of(
    resolver: String,
    client: &Option<Node>,
    _: &tacho::Scope,
    _: &tacho::Scope,
) -> Result<String, String> {
    match client {
        Some(Node::Text(s)) if s == "bad-client" => Err("no such connector".to_string()),
        _ => Ok(format!("router:{}", resolver)),
    }
}

fn server_of(
    config: &Node,
    router: &String,
    _: TransferBuffer,
    _: &tacho::Scope,
) -> Result<String, String> {
    let name = name_of(config);
    if name == "bad-server" {
        Err("no such server".to_string())
    } else {
        Ok(format!("{}@{}", name, router))
    }
}

#[test]
fn build_keeps_router_and_executor_order() {
    let config = AppConfig {
        admin: None,
        routers: vec![router("r1", &["a", "b"]), router("r2", &[]), router("r3", &["c"])],
        buffer_size_bytes: None,
    };
    let app = match config.into_app(&resolver_of, &router_of, &server_of) {
        Ok(app) => app,
        Err(e) => panic!("build failed: {:?}", e),
    };
    assert_eq!(app.routers.len(), 3);
    assert_eq!(app.admin.pending_resolvers(), 3);
    assert_eq!(app.routers[0].pending(), 2);
    assert_eq!(app.routers[1].pending(), 0);
    assert_eq!(app.routers[2].pending(), 1);
    assert!(app.routers.iter().all(|r| !r.has_executor()));
}

#[test]
fn admin_defaults_apply_when_nothing_is_configured() {
    let config = AppConfig { admin: None, routers: vec![], buffer_size_bytes: None };
    let app = match config.into_app(&resolver_of, &router_of, &server_of) {
        Ok(app) => app,
        Err(e) => panic!("build failed: {:?}", e),
    };
    assert_eq!(app.admin.addr(), SocketAddr { ip: IpAddr::V4(127, 0, 0, 1), port: 9989 });
    assert_eq!(app.admin.grace_secs(), 10);
    assert_eq!(app.admin.metrics_interval_secs(), 60);
    assert_eq!(app.routers.len(), 0);
}

#[test]
fn admin_defaults_apply_to_an_empty_admin_block() {
    let admin = AdminConfig { port: None, ip: None, metrics_interval_secs: None, grace_secs: None };
    let config = AppConfig { admin: Some(admin), routers: vec![], buffer_size_bytes: None };
    let app = match config.into_app(&resolver_of, &router_of, &server_of) {
        Ok(app) => app,
        Err(e) => panic!("build failed: {:?}", e),
    };
    assert_eq!(app.admin.addr(), SocketAddr { ip: IpAddr::V4(127, 0, 0, 1), port: 9989 });
    assert_eq!(app.admin.grace_secs(), 10);
    assert_eq!(app.admin.metrics_interval_secs(), 60);
}

#[test]
fn first_refusal_ends_the_build() {
    let config = AppConfig {
        admin: None,
        routers: vec![router("r1", &["a"]), router("r2", &["b", "bad-server", "c"])],
        buffer_size_bytes: None,
    };
    match config.into_app(&resolver_of, &router_of, &server_of) {
        Err(Error::Server(message)) => assert_eq!(message, "no such server"),
        other => panic!("expected a server error, got {:?}", other.map(|_| ())),
    }
}

#[test]
fn every_server_gets_the_one_buffer() {
    let seen: Rc<RefCell<Vec<TransferBuffer>>> = Rc::new(RefCell::new(Vec::new()));
    let log = seen.clone();
    let recording = move |config: &Node,
                          router: &String,
                          buffer: TransferBuffer,
                          scope: &tacho::Scope| {
        log.borrow_mut().push(buffer.clone());
        server_of(config, router, buffer, scope)
    };
    let config = AppConfig {
        admin: None,
        routers: vec![router("r1", &["a", "b"]), router("r2", &["c"])],
        buffer_size_bytes: Some(32),
    };
    assert!(config.into_app(&resolver_of, &router_of, &recording).is_ok());
    let seen = seen.borrow();
    assert_eq!(seen.len(), 3);
    assert!(seen.iter().all(|b| Rc::ptr_eq(b, &seen[0])));
    assert_eq!(*seen[0].borrow(), vec![0u8; 32]);
}

#[test]
fn interpreter_refusal_is_an_interpreter_error() {
    let config = AppConfig {
        admin: None,
        routers: vec![router("r1", &["a"]), router("bad-interpreter", &["b"])],
        buffer_size_bytes: None,
    };
    match config.into_app(&resolver_of, &router_of, &server_of) {
        Err(Error::Interpreter(message)) => assert_eq!(message, "no such namerd"),
        other => panic!("expected an interpreter error, got {:?}", other.map(|_| ())),
    }
}

#[test]
fn connector_refusal_is_a_connector_error() {
    let mut bad = router("r2", &["bad-server"]);
    bad.client = Some(text("bad-client"));
    let config = AppConfig {
        admin: None,
        routers: vec![router("r1", &["a"]), bad],
        buffer_size_bytes: None,
    };
    match config.into_app(&resolver_of, &router_of, &server_of) {
        Err(Error::Connector(message)) => assert_eq!(message, "no such connector"),
        other => panic!("expected a connector error, got {:?}", other.map(|_| ())),
    }
}

#[test]
fn resolver_is_made_before_router_and_servers() {
    let mut bad = router("bad-interpreter", &["bad-server"]);
    bad.client = Some(text("bad-client"));
    let config = AppConfig { admin: None, routers: vec![bad], buffer_size_bytes: None };
    assert!(matches!(
        config.into_app(&resolver_of, &router_of, &server_of),
        Err(Error::Interpreter(_))
    ));
}

#[test]
fn collaborators_get_the_scopes_of_their_router() {
    let seen: Rc<RefCell<Vec<tacho::Scope>>> = Rc::new(RefCell::new(Vec::new()));
    let log = seen.clone();
    let recording = move |resolver: String,
                          client: &Option<Node>,
                          scope: &tacho::Scope,
                          balancer: &tacho::Scope| {
        log.borrow_mut().push(scope.clone());
        log.borrow_mut().push(balancer.clone());
        router_of(resolver, client, scope, balancer)
    };
    let config =
        AppConfig { admin: None, routers: vec![router("r1", &[])], buffer_size_bytes: None };
    let app = match config.into_app(&resolver_of, &recording, &server_of) {
        Ok(app) => app,
        Err(e) => panic!("build failed: {:?}", e),
    };
    let seen = seen.borrow();
    assert_eq!(seen.len(), 2);
    assert_eq!(seen[0].labels().get("rt").map(|s| s.as_str()), Some("r1"));
    assert_eq!(seen[1].labels().get("rt").map(|s| s.as_str()), Some("r1"));
    let a = seen[0].counter("x");
    let b = seen[1].counter("y");
    a.incr(1);
    b.incr(2);
    let (sender, _receiver) = linkerd_app::shutdown::closer();
    let mut admin = app.admin.run(sender);
    while admin.current_phase() != linkerd_app::admin::AdminPhase::Serving {
        admin.step(linkerd_app::admin::AdminEvent::Ready);
    }
    admin.step(linkerd_app::admin::AdminEvent::Tick);
    assert_eq!(admin.metrics(), "l5d:x{rt=\"r1\"} 1\nl5d:balancer:y{rt=\"r1\"} 2\n");
}

#[test]
fn executors_reach_the_admin_context_in_router_order() {
    let config = AppConfig {
        admin: None,
        routers: vec![router("r1", &[]), router("r2", &[]), router("r3", &[])],
        buffer_size_bytes: None,
    };
    let app = match config.into_app(&resolver_of, &router_of, &server_of) {
        Ok(app) => app,
        Err(e) => panic!("build failed: {:?}", e),
    };
    let (sender, _receiver) = linkerd_app::shutdown::closer();
    let mut admin = app.admin.run(sender);
    let mut launched = Vec::new();
    while let linkerd_app::admin::AdminAction::LaunchResolver(executor) =
        admin.step(linkerd_app::admin::AdminEvent::Ready)
    {
        launched.push(executor);
    }
    assert_eq!(launched, vec!["executor:r1", "executor:r2", "executor:r3"]);
}

#[test]
fn servers_are_spawned_in_declared_order_on_their_router() {
    let config = AppConfig {
        admin: None,
        routers: vec![router("r1", &["a", "b"]), router("r2", &["c"])],
        buffer_size_bytes: None,
    };
    let mut app = match config.into_app(&resolver_of, &router_of, &server_of) {
        Ok(app) => app,
        Err(e) => panic!("build failed: {:?}", e),
    };
    let launch = |server: String| server;
    let first = app.routers.pop_front().map(|r| r.spawn(&launch).ok());
    let second = app.routers.pop_front().map(|r| r.spawn(&launch).ok());
    assert_eq!(
        first,
        Some(Some(vec!["a@router:resolver:r1".to_string(), "b@router:resolver:r1".to_string()]))
    );
    assert_eq!(second, Some(Some(vec!["c@router:resolver:r2".to_string()])));
}

#[test]
fn one_router_from_text_builds_one_spawner() {
    let text = r#"{"routers":[{"label":"r1","servers":[{"kind":"io.l5d.tcp","port":7474}],"interpreter":{"kind":"io.l5d.namerd.http","baseUrl":"http://localhost:4180","namespace":"default"}}]}"#;
    let config = match AppConfig::from_str(text) {
        Ok(config) => config,
        Err(e) => panic!("expected a configuration, got {:?}", e),
    };
    let resolver = |_: &InterpreterConfig, _: &tacho::Scope| -> Result<(u8, u8), String> { Ok((1, 2)) };
    let router = |_: u8, _: &Option<Node>, _: &tacho::Scope, _: &tacho::Scope| -> Result<u8, String> {
        Ok(3)
    };
    let server = |_: &Node, _: &u8, _: TransferBuffer, _: &tacho::Scope| -> Result<u8, String> {
        Ok(4)
    };
    let app = match config.into_app(&resolver, &router, &server) {
        Ok(app) => app,
        Err(e) => panic!("build failed: {:?}", e),
    };
    assert_eq!(app.routers.len(), 1);
    assert_eq!(app.routers[0].pending(), 1);
    assert_eq!(app.admin.pending_resolvers(), 1);
    assert_eq!(app.admin.addr(), SocketAddr { ip: IpAddr::V4(127, 0, 0, 1), port: 9989 });
}

#[test]
fn unknown_top_level_field_never_reaches_the_build() {
    match AppConfig::from_str(r#"{"foo":1,"routers":[]}"#) {
        Err(Error::Json(_)) => {}
        other => panic!("expected a JSON syntax error, got {:?}", other),
    }
}

#[test]
fn configured_admin_settings_are_used() {
    let admin = AdminConfig {
        port: Some(8080),
        ip: Some(IpAddr::V4(0, 0, 0, 0)),
        metrics_interval_secs: Some(5),
        grace_secs: None,
    };
    let config = AppConfig { admin: Some(admin), routers: vec![], buffer_size_bytes: None };
    let app = match config.into_app(&resolver_of, &router_of, &server_of) {
        Ok(app) => app,
        Err(e) => panic!("build failed: {:?}", e),
    };
    assert_eq!(app.admin.addr(), SocketAddr { ip: IpAddr::V4(0, 0, 0, 0), port: 8080 });
    assert_eq!(app.admin.metrics_interval_secs(), 5);
    assert_eq!(app.admin.grace_secs(), 10);
}

#[test]
fn transfer_buffer_defaults_to_sixteen_kibibytes() {
    let seen: Rc<RefCell<Vec<TransferBuffer>>> = Rc::new(RefCell::new(Vec::new()));
    let log = seen.clone();
    let recording = move |config: &Node,
                          router: &String,
                          buffer: TransferBuffer,
                          scope: &tacho::Scope| {
        log.borrow_mut().push(buffer.clone());
        server_of(config, router, buffer, scope)
    };
    let config =
        AppConfig { admin: None, routers: vec![router("r1", &["a"])], buffer_size_bytes: None };
    assert!(config.into_app(&resolver_of, &router_of, &recording).is_ok());
    let seen = seen.borrow();
    assert_eq!(seen.len(), 1);
    assert_eq!(*seen[0].borrow(), vec![0u8; 16 * 1024]);
}

#[test]
fn transfer_buffer_may_be_empty() {
    let seen: Rc<RefCell<Vec<TransferBuffer>>> = Rc::new(RefCell::new(Vec::new()));
    let log = seen.clone();
    let recording = move |config: &Node,
                          router: &String,
                          buffer: TransferBuffer,
                          scope: &tacho::Scope| {
        log.borrow_mut().push(buffer.clone());
        server_of(config, router, buffer, scope)
    };
    let config =
        AppConfig { admin: None, routers: vec![router("r1", &["a"])], buffer_size_bytes: Some(0) };
    assert!(config.into_app(&resolver_of, &router_of, &recording).is_ok());
    assert!(seen.borrow()[0].borrow().is_empty());
}
