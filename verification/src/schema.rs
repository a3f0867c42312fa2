//! The schema of a configuration document.
//!
//! The schema is closed: an object may hold the fields named here and no
//! others. A field that may be left out may also be null. A document that
//! breaks the schema is refused with the fault and the key of the field at
//! fault. Where it breaks the schema in several places, the fault reported
//! is that of the first field at fault, in the order in which the fields
//! are named here; a field that the schema does not know is reported after
//! those, the first such field in the order of the object's entries.
//!
//! The schema reads what the parsers hand over. They keep one value, the
//! last, of a key that a text repeats, and they type every scalar, so a
//! repeated key is not seen here and a label written as a number is no
//! text. The settings of an interpreter, a server and a client are kept as
//! they stand for the subsystem that owns their schema.

use crate::config::{
    AdminConfig, AppConfig, AppConfigView, InterpreterConfig, InterpreterView, RouterConfig,
    RouterView,
};
use crate::document::{
    json_document, lookup, parse_json, parse_yaml, take_field, without, without_keeps_other_keys,
    yaml_document, Entry, Node,
};
use crate::error::{Error, SchemaError, SchemaErrorView, SchemaFault, SyntaxError};
use crate::format::{detect, format_of, trim_start, trimmed, Format};
use crate::net::{ip_of, parse_ip, IpAddr};
use crate::text::{parse_unsigned, unsigned};
use vstd::prelude::*;

verus! {

/// The unsigned number of at most `max` that an optional field holds.
pub open spec fn optional_number(value: Option<Node>, max: nat) -> Result<Option<nat>, SchemaFault> {
    match value {
        None => Ok(None),
        Some(Node::Null) => Ok(None),
        Some(Node::Number(text)) => match unsigned(text@, max) {
            Some(n) => Ok(Some(n)),
            None => Err(SchemaFault::InvalidType),
        },
        Some(_) => Err(SchemaFault::InvalidType),
    }
}

/// The address that an optional field holds.
pub open spec fn optional_ip(value: Option<Node>) -> Result<Option<IpAddr>, SchemaFault> {
    match value {
        None => Ok(None),
        Some(Node::Null) => Ok(None),
        Some(Node::Text(text)) => match ip_of(text@) {
            Some(ip) => Ok(Some(ip)),
            None => Err(SchemaFault::InvalidType),
        },
        Some(_) => Err(SchemaFault::InvalidType),
    }
}

/// The fault of a field.
pub open spec fn at(fault: SchemaFault, field: Seq<char>) -> SchemaErrorView {
    SchemaErrorView { fault, field }
}

/// The fault of a field that the schema does not know: the first entry
/// that is left when every known field is taken.
pub open spec fn unknown(rest: Seq<Entry>) -> SchemaErrorView {
    at(SchemaFault::UnknownField, rest[0].key@)
}

/// The admin settings that a value holds: an object of the optional fields
/// `port`, `ip`, `metricsIntervalSecs` and `graceSecs`.
pub open spec fn admin_of(node: Node) -> Result<AdminConfig, SchemaErrorView> {
    match node {
        Node::Object(entries) => {
            let port = optional_number(lookup(entries@, "port"@), u16::MAX as nat);
            let rest = without(entries@, "port"@);
            let ip = optional_ip(lookup(rest, "ip"@));
            let rest = without(rest, "ip"@);
            let interval = optional_number(lookup(rest, "metricsIntervalSecs"@), u64::MAX as nat);
            let rest = without(rest, "metricsIntervalSecs"@);
            let grace = optional_number(lookup(rest, "graceSecs"@), u64::MAX as nat);
            let rest = without(rest, "graceSecs"@);
            if port is Err {
                Err(at(port->Err_0, "port"@))
            } else if ip is Err {
                Err(at(ip->Err_0, "ip"@))
            } else if interval is Err {
                Err(at(interval->Err_0, "metricsIntervalSecs"@))
            } else if grace is Err {
                Err(at(grace->Err_0, "graceSecs"@))
            } else if rest.len() > 0 {
                Err(unknown(rest))
            } else {
                Ok(
                    AdminConfig {
                        port: match port->Ok_0 {
                            Some(n) => Some(n as u16),
                            None => None,
                        },
                        ip: ip->Ok_0,
                        metrics_interval_secs: match interval->Ok_0 {
                            Some(n) => Some(n as u64),
                            None => None,
                        },
                        grace_secs: match grace->Ok_0 {
                            Some(n) => Some(n as u64),
                            None => None,
                        },
                    },
                )
            }
        },
        _ => Err(at(SchemaFault::InvalidType, "admin"@)),
    }
}

/// Reads an optional field as an unsigned number of at most `max`.
pub fn read_optional_number(value: Option<Node>, max: u64) -> (r: Result<Option<u64>, SchemaFault>)
    ensures
        match r {
            Ok(Some(n)) => optional_number(value, max as nat) == Ok::<Option<nat>, SchemaFault>(
                Some(n as nat),
            ),
            Ok(None) => optional_number(value, max as nat) == Ok::<Option<nat>, SchemaFault>(None),
            Err(fault) => optional_number(value, max as nat) == Err::<Option<nat>, SchemaFault>(
                fault,
            ),
        },
{
    match value {
        None => Ok(None),
        Some(Node::Null) => Ok(None),
        Some(Node::Number(text)) => match parse_unsigned(text.as_str(), max) {
            Some(n) => Ok(Some(n)),
            None => Err(SchemaFault::InvalidType),
        },
        Some(_) => Err(SchemaFault::InvalidType),
    }
}

/// Reads an optional field as an address.
pub fn read_optional_ip(value: Option<Node>) -> (r: Result<Option<IpAddr>, SchemaFault>)
    ensures
        r == optional_ip(value),
{
    match value {
        None => Ok(None),
        Some(Node::Null) => Ok(None),
        Some(Node::Text(text)) => match parse_ip(text.as_str()) {
            Some(ip) => Ok(Some(ip)),
            None => Err(SchemaFault::InvalidType),
        },
        Some(_) => Err(SchemaFault::InvalidType),
    }
}

/// Makes the error of a field.
pub fn fault_at(fault: SchemaFault, field: &str) -> (error: SchemaError)
    ensures
        error@ == at(fault, field@),
{
    SchemaError { fault, field: String::from_str(field) }
}

/// Makes the error of the first field that is left when every known field
/// is taken.
pub fn fault_of_unknown(rest: &Vec<Entry>) -> (error: SchemaError)
    requires
        rest@.len() > 0,
    ensures
        error@ == unknown(rest@),
{
    SchemaError { fault: SchemaFault::UnknownField, field: rest[0].key.clone() }
}

/// Reads a value as the admin settings.
pub fn read_admin(node: Node) -> (r: Result<AdminConfig, SchemaError>)
    ensures
        match r {
            Ok(admin) => admin_of(node) matches Ok(v) && v == admin,
            Err(error) => admin_of(node) matches Err(e) && e == error@,
        },
{
    let mut entries = match node {
        Node::Object(entries) => entries,
        _ => return Err(fault_at(SchemaFault::InvalidType, "admin")),
    };
    let port = read_optional_number(take_field(&mut entries, "port"), 65535);
    let ip = read_optional_ip(take_field(&mut entries, "ip"));
    let interval = read_optional_number(take_field(&mut entries, "metricsIntervalSecs"), u64::MAX);
    let grace = read_optional_number(take_field(&mut entries, "graceSecs"), u64::MAX);
    let port = match port {
        Ok(Some(n)) => Some(n as u16),
        Ok(None) => None,
        Err(fault) => return Err(fault_at(fault, "port")),
    };
    let ip = match ip {
        Ok(ip) => ip,
        Err(fault) => return Err(fault_at(fault, "ip")),
    };
    let metrics_interval_secs = match interval {
        Ok(secs) => secs,
        Err(fault) => return Err(fault_at(fault, "metricsIntervalSecs")),
    };
    let grace_secs = match grace {
        Ok(secs) => secs,
        Err(fault) => return Err(fault_at(fault, "graceSecs")),
    };
    if entries.len() > 0 {
        return Err(fault_of_unknown(&entries));
    }
    Ok(AdminConfig { port, ip, metrics_interval_secs, grace_secs })
}

/// The kind of the interpreter that polls namerd over HTTP.
pub open spec fn namerd_http_kind() -> Seq<char> {
    "io.l5d.namerd.http"@
}

/// The interpreter that a required field holds: an object whose field
/// `kind` is a known kind, with its other fields for the settings.
pub open spec fn interpreter_of(value: Option<Node>) -> Result<InterpreterView, SchemaErrorView> {
    match value {
        None => Err(at(SchemaFault::MissingField, "interpreter"@)),
        Some(Node::Object(entries)) => match lookup(entries@, "kind"@) {
            None => Err(at(SchemaFault::MissingField, "kind"@)),
            Some(Node::Text(kind)) => if kind@ == namerd_http_kind() {
                Ok(InterpreterView::NamerdHttp(without(entries@, "kind"@)))
            } else {
                Err(at(SchemaFault::UnknownKind, "kind"@))
            },
            Some(_) => Err(at(SchemaFault::InvalidType, "kind"@)),
        },
        Some(_) => Err(at(SchemaFault::InvalidType, "interpreter"@)),
    }
}

/// The text that a required field holds.
pub open spec fn required_text(value: Option<Node>) -> Result<Seq<char>, SchemaFault> {
    match value {
        None => Err(SchemaFault::MissingField),
        Some(Node::Text(text)) => Ok(text@),
        Some(_) => Err(SchemaFault::InvalidType),
    }
}

/// The list that a required field holds.
pub open spec fn required_list(value: Option<Node>) -> Result<Seq<Node>, SchemaFault> {
    match value {
        None => Err(SchemaFault::MissingField),
        Some(Node::List(items)) => Ok(items@),
        Some(_) => Err(SchemaFault::InvalidType),
    }
}

/// The value that an optional field holds, whatever it is.
pub open spec fn optional_value(value: Option<Node>) -> Option<Node> {
    match value {
        None => None,
        Some(Node::Null) => None,
        Some(node) => Some(node),
    }
}

/// The router that a value holds: an object of the required fields `label`,
/// `servers` and `interpreter` and the optional field `client`.
pub open spec fn router_of(node: Node) -> Result<RouterView, SchemaErrorView> {
    match node {
        Node::Object(entries) => {
            let label = required_text(lookup(entries@, "label"@));
            let rest = without(entries@, "label"@);
            let servers = required_list(lookup(rest, "servers"@));
            let rest = without(rest, "servers"@);
            let client = optional_value(lookup(rest, "client"@));
            let rest = without(rest, "client"@);
            let interpreter = interpreter_of(lookup(rest, "interpreter"@));
            let rest = without(rest, "interpreter"@);
            if label is Err {
                Err(at(label->Err_0, "label"@))
            } else if servers is Err {
                Err(at(servers->Err_0, "servers"@))
            } else if interpreter is Err {
                Err(interpreter->Err_0)
            } else if rest.len() > 0 {
                Err(unknown(rest))
            } else {
                Ok(
                    RouterView {
                        label: label->Ok_0,
                        servers: servers->Ok_0,
                        client,
                        interpreter: interpreter->Ok_0,
                    },
                )
            }
        },
        _ => Err(at(SchemaFault::InvalidType, "routers"@)),
    }
}

/// The routers that a list holds, in order; the fault of the first value
/// that is no router.
pub open spec fn routers_of(items: Seq<Node>) -> Result<Seq<RouterView>, SchemaErrorView>
    decreases items.len(),
{
    if items.len() == 0 {
        Ok(Seq::empty())
    } else {
        match routers_of(items.drop_last()) {
            Err(error) => Err(error),
            Ok(before) => match router_of(items.last()) {
                Err(error) => Err(error),
                Ok(router) => Ok(before.push(router)),
            },
        }
    }
}

/// The routers that a required field holds.
pub open spec fn required_routers(value: Option<Node>) -> Result<Seq<RouterView>, SchemaErrorView> {
    match value {
        None => Err(at(SchemaFault::MissingField, "routers"@)),
        Some(Node::List(items)) => routers_of(items@),
        Some(_) => Err(at(SchemaFault::InvalidType, "routers"@)),
    }
}

/// The admin settings that an optional field holds.
pub open spec fn optional_admin(value: Option<Node>) -> Result<Option<AdminConfig>, SchemaErrorView> {
    match value {
        None => Ok(None),
        Some(Node::Null) => Ok(None),
        Some(node) => match admin_of(node) {
            Ok(admin) => Ok(Some(admin)),
            Err(error) => Err(error),
        },
    }
}

/// The configuration that a document holds: an object of the required
/// field `routers` and the optional fields `admin` and `bufferSizeBytes`.
pub open spec fn app_of(node: Node) -> Result<AppConfigView, SchemaErrorView> {
    match node {
        Node::Object(entries) => {
            let admin = optional_admin(lookup(entries@, "admin"@));
            let rest = without(entries@, "admin"@);
            let routers = required_routers(lookup(rest, "routers"@));
            let rest = without(rest, "routers"@);
            let size = optional_number(lookup(rest, "bufferSizeBytes"@), usize::MAX as nat);
            let rest = without(rest, "bufferSizeBytes"@);
            if admin is Err {
                Err(admin->Err_0)
            } else if routers is Err {
                Err(routers->Err_0)
            } else if size is Err {
                Err(at(size->Err_0, "bufferSizeBytes"@))
            } else if rest.len() > 0 {
                Err(unknown(rest))
            } else {
                Ok(
                    AppConfigView {
                        admin: admin->Ok_0,
                        routers: routers->Ok_0,
                        buffer_size_bytes: match size->Ok_0 {
                            Some(n) => Some(n as usize),
                            None => None,
                        },
                    },
                )
            }
        },
        _ => Err(at(SchemaFault::InvalidType, ""@)),
    }
}

/// Reads a required field as an interpreter.
pub fn read_interpreter(value: Option<Node>) -> (r: Result<InterpreterConfig, SchemaError>)
    ensures
        match r {
            Ok(interpreter) => interpreter_of(value) matches Ok(v) && v == interpreter@,
            Err(error) => interpreter_of(value) matches Err(e) && e == error@,
        },
{
    let mut entries = match value {
        None => return Err(fault_at(SchemaFault::MissingField, "interpreter")),
        Some(Node::Object(entries)) => entries,
        Some(_) => return Err(fault_at(SchemaFault::InvalidType, "interpreter")),
    };
    match take_field(&mut entries, "kind") {
        None => Err(fault_at(SchemaFault::MissingField, "kind")),
        Some(Node::Text(kind)) => {
            if kind == String::from_str("io.l5d.namerd.http") {
                Ok(InterpreterConfig::NamerdHttp(entries))
            } else {
                Err(fault_at(SchemaFault::UnknownKind, "kind"))
            }
        },
        Some(_) => Err(fault_at(SchemaFault::InvalidType, "kind")),
    }
}

/// Reads a value as a router.
pub fn read_router(node: Node) -> (r: Result<RouterConfig, SchemaError>)
    ensures
        match r {
            Ok(router) => router_of(node) matches Ok(v) && v == router@,
            Err(error) => router_of(node) matches Err(e) && e == error@,
        },
{
    let mut entries = match node {
        Node::Object(entries) => entries,
        _ => return Err(fault_at(SchemaFault::InvalidType, "routers")),
    };
    let label = take_field(&mut entries, "label");
    let servers = take_field(&mut entries, "servers");
    let client = take_field(&mut entries, "client");
    let interpreter = read_interpreter(take_field(&mut entries, "interpreter"));
    let label = match label {
        None => return Err(fault_at(SchemaFault::MissingField, "label")),
        Some(Node::Text(text)) => text,
        Some(_) => return Err(fault_at(SchemaFault::InvalidType, "label")),
    };
    let servers = match servers {
        None => return Err(fault_at(SchemaFault::MissingField, "servers")),
        Some(Node::List(items)) => items,
        Some(_) => return Err(fault_at(SchemaFault::InvalidType, "servers")),
    };
    let client = match client {
        None => None,
        Some(Node::Null) => None,
        Some(node) => Some(node),
    };
    let interpreter = match interpreter {
        Ok(interpreter) => interpreter,
        Err(error) => return Err(error),
    };
    if entries.len() > 0 {
        return Err(fault_of_unknown(&entries));
    }
    Ok(RouterConfig { label, servers, client, interpreter })
}

/// Reads a list as routers, in order.
pub fn read_routers(items: Vec<Node>) -> (r: Result<Vec<RouterConfig>, SchemaError>)
    ensures
        match r {
            Ok(routers) => routers_of(items@) matches Ok(v) && v == routers@.map_values(
                |router: RouterConfig| router@,
            ),
            Err(error) => routers_of(items@) matches Err(e) && e == error@,
        },
{
    let mut routers: Vec<RouterConfig> = Vec::new();
    for item in it: items.into_iter()
        invariant
            it.seq() == items@,
            routers@.len() == it.index(),
            routers_of(items@.subrange(0, it.index() as int)) matches Ok(v) && v
                == routers@.map_values(|router: RouterConfig| router@),
    {
        let ghost n = it.index() as int;
        let ghost before = routers@.map_values(|router: RouterConfig| router@);
        proof {
            let longer = items@.subrange(0, n + 1);
            assert(longer.drop_last() =~= items@.subrange(0, n));
            assert(longer.last() == item);
        }
        match read_router(item) {
            Ok(router) => {
                routers.push(router);
                proof {
                    assert(routers@.map_values(|router: RouterConfig| router@) =~= before.push(
                        router@,
                    ));
                }
            },
            Err(error) => {
                proof {
                    routers_fail_where_a_prefix_does(items@, n + 1);
                }
                return Err(error);
            },
        }
    }
    proof {
        assert(items@.subrange(0, items@.len() as int) =~= items@);
    }
    Ok(routers)
}

/// Where the first values of a list are not all routers, the list fails
/// with the same fault as they do.
pub proof fn routers_fail_where_a_prefix_does(items: Seq<Node>, n: int)
    requires
        0 <= n <= items.len(),
        routers_of(items.subrange(0, n)) is Err,
    ensures
        routers_of(items) == routers_of(items.subrange(0, n)),
    decreases items.len() - n,
{
    if n < items.len() {
        let longer = items.subrange(0, n + 1);
        assert(longer.drop_last() =~= items.subrange(0, n));
        routers_fail_where_a_prefix_does(items, n + 1);
    } else {
        assert(items.subrange(0, n) =~= items);
    }
}

/// Reads a document as a configuration.
pub fn read_app(node: Node) -> (r: Result<AppConfig, SchemaError>)
    ensures
        match r {
            Ok(config) => app_of(node) matches Ok(v) && v == config@,
            Err(error) => app_of(node) matches Err(e) && e == error@,
        },
{
    let mut entries = match node {
        Node::Object(entries) => entries,
        _ => return Err(fault_at(SchemaFault::InvalidType, "")),
    };
    let admin = take_field(&mut entries, "admin");
    let routers = take_field(&mut entries, "routers");
    let size = read_optional_number(take_field(&mut entries, "bufferSizeBytes"), usize::MAX as u64);
    let admin = match admin {
        None => None,
        Some(Node::Null) => None,
        Some(node) => match read_admin(node) {
            Ok(admin) => Some(admin),
            Err(error) => return Err(error),
        },
    };
    let routers = match routers {
        None => return Err(fault_at(SchemaFault::MissingField, "routers")),
        Some(Node::List(items)) => match read_routers(items) {
            Ok(routers) => routers,
            Err(error) => return Err(error),
        },
        Some(_) => return Err(fault_at(SchemaFault::InvalidType, "routers")),
    };
    let buffer_size_bytes = match size {
        Ok(Some(n)) => Some(n as usize),
        Ok(None) => None,
        Err(fault) => return Err(fault_at(fault, "bufferSizeBytes")),
    };
    if entries.len() > 0 {
        return Err(fault_of_unknown(&entries));
    }
    Ok(AppConfig { admin, routers, buffer_size_bytes })
}

/// An error says that a document in a format breaks the schema, at this
/// field and in this way.
pub open spec fn is_schema_error(format: Format, error: Error, breach: SchemaErrorView) -> bool {
    match (format, error) {
        (Format::Json, Error::Json(SyntaxError::Schema(e))) => e@ == breach,
        (Format::Yaml, Error::Yaml(SyntaxError::Schema(e))) => e@ == breach,
        _ => false,
    }
}

/// An error says that a text in a format is malformed, with this message.
pub open spec fn is_malformed(format: Format, error: Error, message: Seq<char>) -> bool {
    match (format, error) {
        (Format::Json, Error::Json(SyntaxError::Malformed(m))) => m@ == message,
        (Format::Yaml, Error::Yaml(SyntaxError::Malformed(m))) => m@ == message,
        _ => false,
    }
}

/// A result is what the schema makes of a document that was written in a
/// format: the configuration that the document holds, or the syntax error
/// of that format with the document's fault and the field at fault.
pub open spec fn read_as(format: Format, node: Node, r: Result<AppConfig, Error>) -> bool {
    match app_of(node) {
        Ok(view) => r matches Ok(config) && config@ == view,
        Err(breach) => r matches Err(error) && is_schema_error(format, error, breach),
    }
}

/// The document that a text holds, parsed in the text's own format without
/// the white space it starts with; or the parser's message.
pub open spec fn document_of(text: Seq<char>) -> Result<Node, Seq<char>> {
    match format_of(text) {
        Format::Json => json_document(trimmed(text)),
        Format::Yaml => yaml_document(trimmed(text)),
    }
}

/// A result is what loading a text gives: what the schema makes of the
/// text's document, or the syntax error of the text's format with the
/// parser's message.
pub open spec fn loaded(text: Seq<char>, r: Result<AppConfig, Error>) -> bool {
    match document_of(text) {
        Ok(node) => read_as(format_of(text), node, r),
        Err(message) => r matches Err(error) && is_malformed(format_of(text), error, message),
    }
}

impl AppConfig {
    /// Reads a parsed document, written in the given format, as a
    /// configuration.
    pub fn from_document(format: Format, node: Node) -> (r: Result<AppConfig, Error>)
        ensures
            read_as(format, node, r),
    {
        match read_app(node) {
            Ok(config) => Ok(config),
            Err(error) => Err(
                match format {
                    Format::Json => Error::Json(SyntaxError::Schema(error)),
                    Format::Yaml => Error::Yaml(SyntaxError::Schema(error)),
                },
            ),
        }
    }

    /// Parses a JSON- or YAML-formatted configuration file.
    ///
    /// A text whose first character after leading white space is `{` is
    /// parsed as JSON, any other as YAML.
    pub fn from_str(txt: &str) -> (r: Result<AppConfig, Error>)
        ensures
            loaded(txt@, r),
    {
        let txt = trim_start(txt);
        let format = detect(txt);
        let document = match format {
            Format::Json => parse_json(txt),
            Format::Yaml => parse_yaml(txt),
        };
        match document {
            Ok(node) => AppConfig::from_document(format, node),
            Err(message) => Err(
                match format {
                    Format::Json => Error::Json(SyntaxError::Malformed(message)),
                    Format::Yaml => Error::Yaml(SyntaxError::Malformed(message)),
                },
            ),
        }
    }
}

impl std::str::FromStr for AppConfig {
    type Err = Error;

    /// Parses a JSON- or YAML-formatted configuration file, as
    /// [`AppConfig::from_str`] does.
    fn from_str(txt: &str) -> (r: Result<AppConfig, Error>)
        ensures
            loaded(txt@, r),
    {
        AppConfig::from_str(txt)
    }
}

/// An entry of a key that is none of four survives the taking of those
/// four.
proof fn foreign_entry_survives(
    entries: Seq<Entry>,
    a: Seq<char>,
    b: Seq<char>,
    c: Seq<char>,
    d: Seq<char>,
    i: int,
)
    requires
        0 <= i < entries.len(),
        entries[i].key@ != a,
        entries[i].key@ != b,
        entries[i].key@ != c,
        entries[i].key@ != d,
    ensures
        without(without(without(without(entries, a), b), c), d).len() > 0,
        without(without(without(entries, a), b), c).len() > 0,
{
    let entry = entries[i];
    without_keeps_other_keys(entries, a, i);
    let e1 = without(entries, a);
    let j1 = choose|j: int| 0 <= j < e1.len() && #[trigger] e1[j] == entry;
    without_keeps_other_keys(e1, b, j1);
    let e2 = without(e1, b);
    let j2 = choose|j: int| 0 <= j < e2.len() && #[trigger] e2[j] == entry;
    without_keeps_other_keys(e2, c, j2);
    let e3 = without(e2, c);
    let j3 = choose|j: int| 0 <= j < e3.len() && #[trigger] e3[j] == entry;
    without_keeps_other_keys(e3, d, j3);
}

/// The schema is closed at the top: a document with a field other than
/// `admin`, `routers` and `bufferSizeBytes` holds no configuration.
pub proof fn unknown_field_of_a_document_is_rejected(node: Node, i: int)
    requires
        node matches Node::Object(entries) && 0 <= i < entries@.len() && entries@[i].key@
            != "admin"@ && entries@[i].key@ != "routers"@ && entries@[i].key@
            != "bufferSizeBytes"@,
    ensures
        app_of(node) is Err,
{
    let entries = node->Object_0@;
    foreign_entry_survives(entries, "admin"@, "routers"@, "bufferSizeBytes"@, "admin"@, i);
}

/// The schema is closed in the admin block: one with a field other than
/// `port`, `ip`, `metricsIntervalSecs` and `graceSecs` holds no settings.
pub proof fn unknown_field_of_an_admin_block_is_rejected(node: Node, i: int)
    requires
        node matches Node::Object(entries) && 0 <= i < entries@.len() && entries@[i].key@
            != "port"@ && entries@[i].key@ != "ip"@ && entries@[i].key@ != "metricsIntervalSecs"@
            && entries@[i].key@ != "graceSecs"@,
    ensures
        admin_of(node) is Err,
{
    let entries = node->Object_0@;
    foreign_entry_survives(entries, "port"@, "ip"@, "metricsIntervalSecs"@, "graceSecs"@, i);
}

/// The schema is closed in a router: one with a field other than `label`,
/// `servers`, `client` and `interpreter` is no router.
pub proof fn unknown_field_of_a_router_is_rejected(node: Node, i: int)
    requires
        node matches Node::Object(entries) && 0 <= i < entries@.len() && entries@[i].key@
            != "label"@ && entries@[i].key@ != "servers"@ && entries@[i].key@ != "client"@
            && entries@[i].key@ != "interpreter"@,
    ensures
        router_of(node) is Err,
{
    let entries = node->Object_0@;
    foreign_entry_survives(entries, "label"@, "servers"@, "client"@, "interpreter"@, i);
}

/// A document whose admin block holds no settings holds no configuration.
pub proof fn fault_of_the_admin_block_is_a_fault_of_the_document(node: Node, admin: Node)
    requires
        node matches Node::Object(entries) && lookup(entries@, "admin"@) == Some(admin),
        admin_of(admin) is Err,
        !(admin is Null),
    ensures
        app_of(node) is Err,
{
}

/// A list with a value that is no router holds no routers.
pub proof fn fault_of_a_router_is_a_fault_of_the_list(items: Seq<Node>, i: int)
    requires
        0 <= i < items.len(),
        router_of(items[i]) is Err,
    ensures
        routers_of(items) is Err,
    decreases items.len(),
{
    if i < items.len() - 1 {
        fault_of_a_router_is_a_fault_of_the_list(items.drop_last(), i);
    }
}

/// A document whose list of routers holds a value that is no router holds
/// no configuration.
pub proof fn fault_of_a_router_is_a_fault_of_the_document(node: Node, routers: Node, i: int)
    requires
        node matches Node::Object(entries) && lookup(without(entries@, "admin"@), "routers"@)
            == Some(routers),
        routers matches Node::List(items) && 0 <= i < items@.len() && router_of(items@[i]) is Err,
    ensures
        app_of(node) is Err,
{
    fault_of_a_router_is_a_fault_of_the_list(routers->List_0@, i);
}

/// Parsing: a text whose first character after leading white space is `{`
/// is read as JSON, and every other text as YAML; and whatever is wrong
/// with a text, malformed or against the schema, loading it fails with the
/// syntax error of the format it was read in.
pub proof fn loading_fails_with_the_syntax_error_of_the_format(
    text: Seq<char>,
    r: Result<AppConfig, Error>,
)
    requires
        loaded(text, r),
    ensures
        trimmed(text).len() > 0 && trimmed(text)[0] == '{' ==> document_of(text) == json_document(
            trimmed(text),
        ),
        !(trimmed(text).len() > 0 && trimmed(text)[0] == '{') ==> document_of(text)
            == yaml_document(trimmed(text)),
        r is Ok <==> (document_of(text) matches Ok(node) && app_of(node) is Ok),
        r is Err && format_of(text) == Format::Json ==> r->Err_0 is Json,
        r is Err && format_of(text) == Format::Yaml ==> r->Err_0 is Yaml,
{
}

/// A text whose document breaks the schema fails to load, with the syntax
/// error of the format it was read in, the fault and the field at fault.
pub proof fn document_against_the_schema_fails_to_load(
    text: Seq<char>,
    r: Result<AppConfig, Error>,
    node: Node,
)
    requires
        loaded(text, r),
        document_of(text) matches Ok(n) && n == node,
        app_of(node) is Err,
    ensures
        r matches Err(error) && is_schema_error(format_of(text), error, app_of(node)->Err_0),
        format_of(text) == Format::Json ==> r->Err_0 is Json,
        format_of(text) == Format::Yaml ==> r->Err_0 is Yaml,
{
}

/// A text whose document has a top-level field other than `admin`,
/// `routers` and `bufferSizeBytes` fails to load with the syntax error of
/// its format: the field is never dropped.
pub proof fn unknown_field_of_a_document_fails_to_load(
    text: Seq<char>,
    r: Result<AppConfig, Error>,
    node: Node,
    i: int,
)
    requires
        loaded(text, r),
        document_of(text) matches Ok(n) && n == node,
        node matches Node::Object(entries) && 0 <= i < entries@.len() && entries@[i].key@
            != "admin"@ && entries@[i].key@ != "routers"@ && entries@[i].key@
            != "bufferSizeBytes"@,
    ensures
        r is Err,
        format_of(text) == Format::Json ==> r->Err_0 is Json,
        format_of(text) == Format::Yaml ==> r->Err_0 is Yaml,
{
    unknown_field_of_a_document_is_rejected(node, i);
    document_against_the_schema_fails_to_load(text, r, node);
}

/// A text whose admin block has a field other than `port`, `ip`,
/// `metricsIntervalSecs` and `graceSecs` fails to load with the syntax
/// error of its format.
pub proof fn unknown_field_of_an_admin_block_fails_to_load(
    text: Seq<char>,
    r: Result<AppConfig, Error>,
    node: Node,
    admin: Node,
    i: int,
)
    requires
        loaded(text, r),
        document_of(text) matches Ok(n) && n == node,
        node matches Node::Object(entries) && lookup(entries@, "admin"@) == Some(admin),
        admin matches Node::Object(entries) && 0 <= i < entries@.len() && entries@[i].key@
            != "port"@ && entries@[i].key@ != "ip"@ && entries@[i].key@ != "metricsIntervalSecs"@
            && entries@[i].key@ != "graceSecs"@,
    ensures
        r is Err,
        format_of(text) == Format::Json ==> r->Err_0 is Json,
        format_of(text) == Format::Yaml ==> r->Err_0 is Yaml,
{
    unknown_field_of_an_admin_block_is_rejected(admin, i);
    fault_of_the_admin_block_is_a_fault_of_the_document(node, admin);
    document_against_the_schema_fails_to_load(text, r, node);
}

/// A text one of whose routers has a field other than `label`, `servers`,
/// `client` and `interpreter` fails to load with the syntax error of its
/// format.
pub proof fn unknown_field_of_a_router_fails_to_load(
    text: Seq<char>,
    r: Result<AppConfig, Error>,
    node: Node,
    routers: Node,
    at_router: int,
    i: int,
)
    requires
        loaded(text, r),
        document_of(text) matches Ok(n) && n == node,
        node matches Node::Object(entries) && lookup(without(entries@, "admin"@), "routers"@)
            == Some(routers),
        routers matches Node::List(items) && 0 <= at_router < items@.len() && (
        items@[at_router] matches Node::Object(entries) && 0 <= i < entries@.len()
            && entries@[i].key@ != "label"@ && entries@[i].key@ != "servers"@ && entries@[i].key@
            != "client"@ && entries@[i].key@ != "interpreter"@),
    ensures
        r is Err,
        format_of(text) == Format::Json ==> r->Err_0 is Json,
        format_of(text) == Format::Yaml ==> r->Err_0 is Yaml,
{
    unknown_field_of_a_router_is_rejected(routers->List_0@[at_router], i);
    fault_of_a_router_is_a_fault_of_the_document(node, routers, at_router);
    document_against_the_schema_fails_to_load(text, r, node);
}

} // verus!
