use linkerd_app::config::{AppConfig, InterpreterConfig};
use linkerd_app::document::Node;
use linkerd_app::error::{Error, SchemaError, SchemaFault, SyntaxError};
use linkerd_app::format::{detect, trim_start, Format};
use linkerd_app::net::IpAddr;

const ONE_ROUTER_JSON: &str = r#"{"routers":[{"label":"r1","servers":[{"kind":"io.l5d.tcp","port":7474}],"interpreter":{"kind":"io.l5d.namerd.http","baseUrl":"http://localhost:4180","namespace":"default"}}]}"#;

const ONE_ROUTER_YAML: &str = "
admin:
  port: 9990
  ip: 10.1.2.3
  metricsIntervalSecs: 5
  graceSecs: 30
bufferSizeBytes: 8192
routers:
  - label: r1
    servers:
      - kind: io.l5d.tcp
        port: 7474
      - kind: io.l5d.tcp
        port: 7475
    client:
      kind: io.l5d.global
    interpreter:
      kind: io.l5d.namerd.http
      baseUrl: http://localhost:4180
      namespace: default
";

fn load(text: &str) -> AppConfig {
    match AppConfig::from_str(text) {
        Ok(config) => config,
        Err(e) => panic!("expected a configuration, got {:?}", e),
    }
}

fn json_error(text: &str) -> SchemaError {
    match AppConfig::from_str(text) {
        Err(Error::Json(SyntaxError::Schema(error))) => error,
        other => panic!("expected a JSON schema fault, got {:?}", other),
    }
}

fn yaml_error(text: &str) -> SchemaError {
    match AppConfig::from_str(text) {
        Err(Error::Yaml(SyntaxError::Schema(error))) => error,
        other => panic!("expected a YAML schema fault, got {:?}", other),
    }
}

fn json_fault(text: &str) -> SchemaFault {
    json_error(text).fault
}

fn yaml_fault(text: &str) -> SchemaFault {
    yaml_error(text).fault
}

fn fault(fault: SchemaFault, field: &str) -> SchemaError {
    SchemaError { fault, field: field.to_string() }
}

#[test]
fn brace_after_white_space_means_json() {
    assert_eq!(detect(trim_start("  \n\t{\"routers\":[]}")), Format::Json);
    assert_eq!(detect(trim_start("\u{a0}\u{2003}{}")), Format::Json);
    assert_eq!(detect(trim_start("{")), Format::Json);
}

#[test]
fn anything_else_means_yaml() {
    assert_eq!(detect(trim_start("routers: []")), Format::Yaml);
    assert_eq!(detect(trim_start("  [1]")), Format::Yaml);
    assert_eq!(detect(trim_start("")), Format::Yaml);
    assert_eq!(detect(trim_start("   ")), Format::Yaml);
    assert_eq!(detect(trim_start("# {")), Format::Yaml);
}

#[test]
fn trim_start_removes_leading_white_space_only() {
    assert_eq!(trim_start(" \t\r\n a b "), "a b ");
    assert_eq!(trim_start("a"), "a");
    assert_eq!(trim_start("\u{3000}\u{85}x"), "x");
    assert_eq!(trim_start(""), "");
}

#[test]
fn json_text_with_a_json_error_is_a_json_error() {
    match AppConfig::from_str("  {\"routers\": [") {
        Err(Error::Json(SyntaxError::Malformed(message))) => assert!(!message.is_empty()),
        other => panic!("expected a JSON syntax error, got {:?}", other),
    }
}

#[test]
fn other_text_with_a_yaml_error_is_a_yaml_error() {
    match AppConfig::from_str("routers: [") {
        Err(Error::Yaml(SyntaxError::Malformed(message))) => assert!(!message.is_empty()),
        other => panic!("expected a YAML syntax error, got {:?}", other),
    }
}

#[test]
fn one_router_in_json() {
    let config = load(ONE_ROUTER_JSON);
    assert!(config.admin.is_none());
    assert!(config.buffer_size_bytes.is_none());
    assert_eq!(config.routers.len(), 1);
    let router = &config.routers[0];
    assert_eq!(router.label, "r1");
    assert_eq!(router.servers.len(), 1);
    assert!(router.client.is_none());
    let InterpreterConfig::NamerdHttp(settings) = &router.interpreter;
    let keys: Vec<&str> = settings.iter().map(|e| e.key.as_str()).collect();
    assert_eq!(keys, vec!["baseUrl", "namespace"]);
}

#[test]
fn one_router_in_yaml() {
    let config = load(ONE_ROUTER_YAML);
    let admin = match config.admin {
        Some(admin) => admin,
        None => panic!("expected an admin block"),
    };
    assert_eq!(admin.port, Some(9990));
    assert_eq!(admin.ip, Some(IpAddr::V4(10, 1, 2, 3)));
    assert_eq!(admin.metrics_interval_secs, Some(5));
    assert_eq!(admin.grace_secs, Some(30));
    assert_eq!(config.buffer_size_bytes, Some(8192));
    assert_eq!(config.routers.len(), 1);
    assert_eq!(config.routers[0].servers.len(), 2);
    assert!(matches!(config.routers[0].client, Some(Node::Object(_))));
}

#[test]
fn parse_goes_through_from_str() {
    let config: AppConfig = match ONE_ROUTER_JSON.parse() {
        Ok(config) => config,
        Err(e) => panic!("expected a configuration, got {:?}", e),
    };
    assert_eq!(config.routers.len(), 1);
}

#[test]
fn unknown_top_level_field_is_a_syntax_error() {
    assert_eq!(json_fault(r#"{"foo":1,"routers":[]}"#), SchemaFault::UnknownField);
    assert_eq!(yaml_fault("foo: 1\nrouters: []\n"), SchemaFault::UnknownField);
}

#[test]
fn unknown_field_is_rejected_in_every_object() {
    assert_eq!(json_fault(r#"{"routers":[],"admin":{"prot":1}}"#), SchemaFault::UnknownField);
    assert_eq!(
        json_fault(
            r#"{"routers":[{"label":"r","servers":[],"interpreter":{"kind":"io.l5d.namerd.http"},"extra":true}]}"#
        ),
        SchemaFault::UnknownField
    );
    assert_eq!(yaml_fault("routers: []\nadmin:\n  prot: 1\n"), SchemaFault::UnknownField);
}

#[test]
fn missing_required_fields_are_rejected() {
    assert_eq!(json_fault("{}"), SchemaFault::MissingField);
    assert_eq!(
        json_fault(r#"{"routers":[{"servers":[],"interpreter":{"kind":"io.l5d.namerd.http"}}]}"#),
        SchemaFault::MissingField
    );
    assert_eq!(
        json_fault(r#"{"routers":[{"label":"r","interpreter":{"kind":"io.l5d.namerd.http"}}]}"#),
        SchemaFault::MissingField
    );
    assert_eq!(json_fault(r#"{"routers":[{"label":"r","servers":[]}]}"#), SchemaFault::MissingField);
    assert_eq!(
        json_fault(r#"{"routers":[{"label":"r","servers":[],"interpreter":{}}]}"#),
        SchemaFault::MissingField
    );
}

#[test]
fn unknown_interpreter_kind_is_rejected() {
    assert_eq!(
        json_fault(r#"{"routers":[{"label":"r","servers":[],"interpreter":{"kind":"io.l5d.fs"}}]}"#),
        SchemaFault::UnknownKind
    );
}

#[test]
fn values_of_the_wrong_type_are_rejected() {
    assert_eq!(json_fault(r#"{"routers":{}}"#), SchemaFault::InvalidType);
    assert_eq!(json_fault(r#"{"routers":[],"admin":{"port":65536}}"#), SchemaFault::InvalidType);
    assert_eq!(json_fault(r#"{"routers":[],"admin":{"port":-1}}"#), SchemaFault::InvalidType);
    assert_eq!(json_fault(r#"{"routers":[],"admin":{"port":1.5}}"#), SchemaFault::InvalidType);
    assert_eq!(json_fault(r#"{"routers":[],"admin":{"port":"80"}}"#), SchemaFault::InvalidType);
    assert_eq!(json_fault(r#"{"routers":[],"admin":{"ip":"256.0.0.1"}}"#), SchemaFault::InvalidType);
    assert_eq!(json_fault(r#"{"routers":[],"admin":{"ip":"01.2.3.4"}}"#), SchemaFault::InvalidType);
    assert_eq!(json_fault(r#"{"routers":[],"admin":{"ip":"1.2.3"}}"#), SchemaFault::InvalidType);
    assert_eq!(json_fault(r#"{"routers":[],"admin":[]}"#), SchemaFault::InvalidType);
    assert_eq!(json_fault(r#"{"routers":[7]}"#), SchemaFault::InvalidType);
    assert_eq!(yaml_fault("- 1\n- 2\n"), SchemaFault::InvalidType);
}

#[test]
fn optional_fields_may_be_null() {
    let config = load(r#"{"admin":null,"routers":[],"bufferSizeBytes":null}"#);
    assert!(config.admin.is_none());
    assert!(config.buffer_size_bytes.is_none());
    let config = load(r#"{"admin":{"port":null,"ip":null},"routers":[]}"#);
    let admin = match config.admin {
        Some(admin) => admin,
        None => panic!("expected an admin block"),
    };
    assert!(admin.port.is_none() && admin.ip.is_none());
    assert!(admin.grace_secs.is_none() && admin.metrics_interval_secs.is_none());
}

#[test]
fn limits_of_the_numbers_are_accepted() {
    let config = load(
        r#"{"routers":[],"admin":{"port":65535,"graceSecs":18446744073709551615,"metricsIntervalSecs":0}}"#,
    );
    let admin = match config.admin {
        Some(admin) => admin,
        None => panic!("expected an admin block"),
    };
    assert_eq!(admin.port, Some(65535));
    assert_eq!(admin.grace_secs, Some(u64::MAX));
    assert_eq!(admin.metrics_interval_secs, Some(0));
}

#[test]
fn admin_ip_may_be_an_ipv6_address() {
    let config = load(r#"{"routers":[],"admin":{"ip":"::1"}}"#);
    let admin = match config.admin {
        Some(admin) => admin,
        None => panic!("expected an admin block"),
    };
    assert_eq!(admin.ip, Some(IpAddr::V6(0, 0, 0, 0, 0, 0, 0, 1)));
    assert_eq!(json_fault(r#"{"routers":[],"admin":{"ip":"::1::"}}"#), SchemaFault::InvalidType);
}

#[test]
fn unknown_field_is_named() {
    assert_eq!(json_error(r#"{"foo":1,"routers":[]}"#), fault(SchemaFault::UnknownField, "foo"));
    assert_eq!(yaml_error("foo: 1\nrouters: []\n"), fault(SchemaFault::UnknownField, "foo"));
    assert_eq!(
        json_error(r#"{"routers":[],"admin":{"prot":1}}"#),
        fault(SchemaFault::UnknownField, "prot")
    );
    assert_eq!(
        json_error(
            r#"{"routers":[{"label":"r","servers":[],"interpreter":{"kind":"io.l5d.namerd.http"},"extra":true}]}"#
        ),
        fault(SchemaFault::UnknownField, "extra")
    );
    assert_eq!(
        json_error(r#"{"zeta":1,"alpha":2,"routers":[]}"#),
        fault(SchemaFault::UnknownField, "alpha")
    );
}

#[test]
fn missing_field_is_named() {
    assert_eq!(json_error("{}"), fault(SchemaFault::MissingField, "routers"));
    assert_eq!(
        json_error(r#"{"routers":[{"servers":[],"interpreter":{"kind":"io.l5d.namerd.http"}}]}"#),
        fault(SchemaFault::MissingField, "label")
    );
    assert_eq!(
        json_error(r#"{"routers":[{"label":"r","interpreter":{"kind":"io.l5d.namerd.http"}}]}"#),
        fault(SchemaFault::MissingField, "servers")
    );
    assert_eq!(
        json_error(r#"{"routers":[{"label":"r","servers":[]}]}"#),
        fault(SchemaFault::MissingField, "interpreter")
    );
    assert_eq!(
        json_error(r#"{"routers":[{"label":"r","servers":[],"interpreter":{}}]}"#),
        fault(SchemaFault::MissingField, "kind")
    );
}

#[test]
fn field_of_the_wrong_type_is_named() {
    assert_eq!(json_error(r#"{"routers":{}}"#), fault(SchemaFault::InvalidType, "routers"));
    assert_eq!(json_error(r#"{"routers":[7]}"#), fault(SchemaFault::InvalidType, "routers"));
    assert_eq!(json_error(r#"{"routers":[],"admin":[]}"#), fault(SchemaFault::InvalidType, "admin"));
    assert_eq!(
        json_error(r#"{"routers":[],"admin":{"port":65536}}"#),
        fault(SchemaFault::InvalidType, "port")
    );
    assert_eq!(
        json_error(r#"{"routers":[],"admin":{"ip":"nowhere"}}"#),
        fault(SchemaFault::InvalidType, "ip")
    );
    assert_eq!(
        json_error(r#"{"routers":[],"admin":{"metricsIntervalSecs":"1"}}"#),
        fault(SchemaFault::InvalidType, "metricsIntervalSecs")
    );
    assert_eq!(
        json_error(r#"{"routers":[],"admin":{"graceSecs":-1}}"#),
        fault(SchemaFault::InvalidType, "graceSecs")
    );
    assert_eq!(
        json_error(r#"{"routers":[],"bufferSizeBytes":1.5}"#),
        fault(SchemaFault::InvalidType, "bufferSizeBytes")
    );
    assert_eq!(
        json_error(r#"{"routers":[{"label":1,"servers":[],"interpreter":{"kind":"io.l5d.namerd.http"}}]}"#),
        fault(SchemaFault::InvalidType, "label")
    );
    assert_eq!(
        json_error(r#"{"routers":[{"label":"r","servers":{},"interpreter":{"kind":"io.l5d.namerd.http"}}]}"#),
        fault(SchemaFault::InvalidType, "servers")
    );
    assert_eq!(
        json_error(r#"{"routers":[{"label":"r","servers":[],"interpreter":"namerd"}]}"#),
        fault(SchemaFault::InvalidType, "interpreter")
    );
    assert_eq!(
        json_error(r#"{"routers":[{"label":"r","servers":[],"interpreter":{"kind":7}}]}"#),
        fault(SchemaFault::InvalidType, "kind")
    );
    assert_eq!(yaml_error("- 1\n- 2\n"), fault(SchemaFault::InvalidType, ""));
}

#[test]
fn unknown_kind_is_named_by_its_field() {
    assert_eq!(
        json_error(r#"{"routers":[{"label":"r","servers":[],"interpreter":{"kind":"io.l5d.fs"}}]}"#),
        fault(SchemaFault::UnknownKind, "kind")
    );
}

#[test]
fn first_field_at_fault_is_reported_before_unknown_fields() {
    assert_eq!(
        json_error(r#"{"routers":[],"extra":1,"admin":{"port":"x","ip":7}}"#),
        fault(SchemaFault::InvalidType, "port")
    );
    assert_eq!(
        json_error(r#"{"extra":1,"bufferSizeBytes":"x"}"#),
        fault(SchemaFault::MissingField, "routers")
    );
    assert_eq!(
        json_error(r#"{"extra":1,"routers":[],"bufferSizeBytes":"x"}"#),
        fault(SchemaFault::InvalidType, "bufferSizeBytes")
    );
}
