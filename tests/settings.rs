use edgelet_kube_settings::document::{Document, Entry, Leaf};
use edgelet_kube_settings::error::{LoadCause, LoadSettingsError};
use edgelet_kube_settings::field::{DecodeError, Field};
use edgelet_kube_settings::load::config_sources;
use edgelet_kube_settings::settings::Settings;

fn path(dotted: &str) -> Vec<String> {
    dotted.split('.').map(|k| k.to_owned()).collect()
}

fn text(dotted: &str, v: &str) -> Entry {
    Entry { path: path(dotted), value: Leaf::Text(v.to_owned()) }
}

fn flag(dotted: &str, b: bool) -> Entry {
    Entry { path: path(dotted), value: Leaf::Flag(b) }
}

fn integer(dotted: &str, n: i64) -> Entry {
    Entry { path: path(dotted), value: Leaf::Int(n) }
}

fn doc(entries: Vec<Entry>) -> Document {
    Document { entries }
}

/// A base document with every required field.
fn base_entries() -> Vec<Entry> {
    vec![
        text("hostname", "edge-host"),
        text("homedir", "/var/lib/aziot/edged"),
        text("agent.name", "edgeAgent"),
        text("agent.type", "docker"),
        text("connect.management_uri", "unix:///var/run/mgmt.sock"),
        text("listen.management_uri", "fd://aziot-edged.mgmt.socket"),
        text("namespace", "a"),
        text("device_hub_selector", "hub=true"),
        text("config_path", "/etc/edge"),
        text("config_map_name", "edge-config"),
        text("config_map_volume", "config-volume"),
        text("proxy.image", "x"),
        text("proxy.image_pull_policy", "Always"),
        text("proxy.config_path", "/etc/proxy"),
        text("proxy.config_map_name", "proxy-config"),
        text("proxy.trust_bundle_path", "/etc/trust"),
        text("proxy.trust_bundle_config_map_name", "trust-config"),
    ]
}

fn base_doc() -> Document {
    doc(base_entries())
}

fn decode(d: Document) -> Settings {
    Settings::decode(d).unwrap()
}

#[test]
fn rbac_defaults_to_true() {
    let s = decode(base_doc());
    assert!(s.has_nodes_rbac());
}

#[test]
fn rbac_false_is_kept() {
    let mut e = base_entries();
    e.push(flag("has_nodes_rbac", false));
    let s = decode(doc(e));
    assert!(!s.has_nodes_rbac());
}

#[test]
fn rbac_of_wrong_type_is_refused() {
    let mut e = base_entries();
    e.push(text("has_nodes_rbac", "no"));
    assert_eq!(Settings::decode(doc(e)), Err(DecodeError::InvalidType(Field::HasNodesRbac)));
}

#[test]
fn fields_are_read() {
    let mut e = base_entries();
    e.push(text("device_id", "dev1"));
    let s = decode(doc(e));
    assert_eq!(s.namespace(), "a");
    assert_eq!(s.device_hub_selector(), "hub=true");
    assert_eq!(s.config_path(), "/etc/edge");
    assert_eq!(s.config_map_name(), "edge-config");
    assert_eq!(s.config_map_volume(), "config-volume");
    assert_eq!(s.device_id(), Some("dev1"));
    assert_eq!(s.iot_hub_hostname(), None);
    assert_eq!(s.proxy().image(), "x");
    assert_eq!(s.proxy().image_pull_policy(), "Always");
    assert_eq!(s.proxy().config_path(), "/etc/proxy");
    assert_eq!(s.proxy().config_map_name(), "proxy-config");
    assert_eq!(s.proxy().trust_bundle_path(), "/etc/trust");
    assert_eq!(s.proxy().trust_bundle_config_map_name(), "trust-config");
    assert!(s.proxy().auth().is_none());
    assert!(s.resources().is_none());
    assert_eq!(s.hostname(), "edge-host");
    assert_eq!(s.homedir(), "/var/lib/aziot/edged");
    assert_eq!(s.agent(), &doc(vec![text("name", "edgeAgent"), text("type", "docker")]));
    assert_eq!(s.connect(), &doc(vec![text("management_uri", "unix:///var/run/mgmt.sock")]));
    assert_eq!(s.listen(), &doc(vec![text("management_uri", "fd://aziot-edged.mgmt.socket")]));
    assert_eq!(s.watchdog(), &Document::empty());
    assert_eq!(s.endpoints(), &Document::empty());
    assert_eq!(s.auto_reprovisioning_mode(), "Dynamic");
    assert_eq!(s.edge_ca_cert(), None);
    assert_eq!(s.edge_ca_key(), None);
    assert_eq!(s.trust_bundle_cert(), None);
}

#[test]
fn fragment_overrides_base() {
    let s = Settings::new(base_doc(), vec![doc(vec![text("namespace", "b")])]).unwrap();
    assert_eq!(s.namespace(), "b");
}

#[test]
fn later_fragment_overrides_earlier() {
    let frags = vec![doc(vec![text("namespace", "b")]), doc(vec![text("namespace", "c")])];
    let s = Settings::new(base_doc(), frags).unwrap();
    assert_eq!(s.namespace(), "c");
}

#[test]
fn nested_merge_keeps_siblings() {
    let s = Settings::new(base_doc(), vec![doc(vec![text("proxy.image", "y")])]).unwrap();
    assert_eq!(s.proxy().image(), "y");
    assert_eq!(s.proxy().image_pull_policy(), "Always");
}

#[test]
fn fragment_adds_new_field() {
    let s = Settings::new(base_doc(), vec![doc(vec![text("iot_hub_hostname", "hub.example")])]).unwrap();
    assert_eq!(s.iot_hub_hostname(), Some("hub.example"));
}

#[test]
fn list_is_replaced_whole() {
    let mut b = base_doc();
    b.entries.push(Entry {
        path: path("agent.env"),
        value: Leaf::List(vec![Leaf::Int(1), Leaf::Int(2)]),
    });
    let over = doc(vec![Entry { path: path("agent.env"), value: Leaf::List(vec![Leaf::Int(3)]) }]);
    let merged = b.merge(over);
    let s = decode(merged);
    let expected = doc(vec![
        text("name", "edgeAgent"),
        text("type", "docker"),
        Entry { path: path("env"), value: Leaf::List(vec![Leaf::Int(3)]) },
    ]);
    assert_eq!(s.agent(), &expected);
}

#[test]
fn scalar_replaces_table() {
    let b = doc(vec![text("agent.name", "edgeAgent"), text("agent.type", "docker")]);
    let merged = b.merge(doc(vec![text("agent", "none")]));
    assert_eq!(merged, doc(vec![text("agent", "none")]));
}

#[test]
fn missing_fragment_directory_tolerated() {
    let none = Settings::new(base_doc(), vec![]).unwrap();
    let empty = Settings::new(base_doc(), vec![Document::empty(), Document::empty()]).unwrap();
    assert_eq!(none, empty);
    assert_eq!(none, decode(base_doc()));
}

#[test]
fn device_id_overlay_is_idempotent() {
    let once = decode(base_doc()).with_device_id("dev");
    let twice = decode(base_doc()).with_device_id("dev").with_device_id("dev");
    assert_eq!(once, twice);
    assert_eq!(once.device_id(), Some("dev"));
}

#[test]
fn hostname_overlay_is_isolated() {
    let before = decode(base_doc()).with_device_id("dev");
    let after = decode(base_doc()).with_device_id("dev").with_iot_hub_hostname("hub.example");
    assert_eq!(after.device_id(), Some("dev"));
    assert_eq!(after.iot_hub_hostname(), Some("hub.example"));
    assert_eq!(before.with_iot_hub_hostname("hub.example"), after);
}

#[test]
fn overlays_chain_in_any_order() {
    let a = decode(base_doc()).with_device_id("d").with_iot_hub_hostname("h").with_nodes_rbac(false);
    let b = decode(base_doc()).with_nodes_rbac(false).with_iot_hub_hostname("h").with_device_id("d");
    assert_eq!(a, b);
    assert!(!a.has_nodes_rbac());
}

#[test]
fn missing_field_is_named() {
    let e: Vec<Entry> = base_entries().into_iter().filter(|e| e.path != path("proxy.image")).collect();
    let err = Settings::decode(doc(e)).unwrap_err();
    assert_eq!(err, DecodeError::Missing(Field::ProxyImage));
    assert_eq!(err.describe(), "missing field `proxy.image`");
}

#[test]
fn wrong_type_is_named() {
    let mut e = base_entries();
    e.push(integer("namespace", 3));
    let err = Settings::decode(doc(e)).unwrap_err();
    assert_eq!(err, DecodeError::InvalidType(Field::Namespace));
    assert_eq!(err.describe(), "invalid type for field `namespace`");
}

#[test]
fn scalar_proxy_is_refused() {
    let e: Vec<Entry> = vec![text("namespace", "a"), text("device_hub_selector", "s"), text("proxy", "p")];
    assert_eq!(Settings::decode(doc(e)), Err(DecodeError::InvalidType(Field::Proxy)));
}

#[test]
fn first_missing_field_in_order() {
    assert_eq!(Settings::decode(Document::empty()), Err(DecodeError::Missing(Field::Namespace)));
}

#[test]
fn resolve_reports_decode_error() {
    let err = Settings::new(Document::empty(), vec![]).unwrap_err();
    assert!(matches!(err.source(), LoadCause::Decode(DecodeError::Missing(Field::Namespace))));
    assert_eq!(err.message(), "Could not load settings");
    assert_eq!(err.cause_message(), "missing field `namespace`");
}

#[test]
fn parse_error_message_preserved() {
    let msg = "expected an equals, found a newline at line 1 column 5";
    let err = LoadSettingsError::from_cause(LoadCause::Parse(msg.to_owned()));
    assert_eq!(err.message(), "Could not load settings");
    assert_eq!(err.cause_message(), msg);
}

#[test]
fn io_and_domain_messages_preserved() {
    let io = LoadSettingsError::from_cause(LoadCause::Io("No such file or directory".to_owned()));
    assert_eq!(io.cause_message(), "No such file or directory");
    let chain = vec!["bad module spec".to_owned(), "missing image".to_owned()];
    let dom = LoadSettingsError::from_cause(LoadCause::Domain(chain.clone()));
    assert_eq!(dom.cause_message(), "bad module spec");
    assert_eq!(dom.cause_chain(), chain);
    assert_eq!(io.cause_chain(), vec!["No such file or directory".to_owned()]);
}

#[test]
fn decode_error_converts() {
    let err = LoadSettingsError::from(DecodeError::Missing(Field::ConfigPath));
    assert_eq!(err.cause_message(), "missing field `config_path`");
}

#[test]
fn tables_are_held_whole() {
    let mut e = base_entries();
    e.push(text("resources.limits.cpu", "500m"));
    e.push(text("proxy.auth.username", "user"));
    e.push(text("proxy.resources.requests.memory", "64Mi"));
    let s = decode(doc(e));
    assert_eq!(s.resources(), Some(&doc(vec![text("limits.cpu", "500m")])));
    assert_eq!(s.proxy().auth(), Some(&doc(vec![text("username", "user")])));
    assert_eq!(s.proxy().resources(), Some(&doc(vec![text("requests.memory", "64Mi")])));
}

#[test]
fn round_trip() {
    let mut e = base_entries();
    e.push(text("device_id", "dev"));
    e.push(text("iot_hub_hostname", "hub"));
    e.push(flag("has_nodes_rbac", false));
    e.push(text("resources.limits.cpu", "500m"));
    e.push(text("proxy.auth.password", "SECRET-REDACTED"));
    e.push(integer("watchdog.max_retries", 3));
    let once = decode(doc(e));
    let again = Settings::decode(decode(doc(base_entries())).encode());
    assert_eq!(again, Ok(decode(base_doc())));
    let copy = decode(Settings::encode(decode(once.encode())));
    let mut e2 = base_entries();
    e2.push(text("device_id", "dev"));
    e2.push(text("iot_hub_hostname", "hub"));
    e2.push(flag("has_nodes_rbac", false));
    e2.push(text("resources.limits.cpu", "500m"));
    e2.push(text("proxy.auth.password", "SECRET-REDACTED"));
    e2.push(integer("watchdog.max_retries", 3));
    assert_eq!(copy, decode(doc(e2)));
}

#[test]
fn sources_default() {
    let (f, d) = config_sources(None, None);
    assert_eq!(f, "/etc/aziot/edged/config.toml");
    assert_eq!(d, "/etc/aziot/edged/config.d");
}

#[test]
fn sources_from_variables() {
    let (f, d) = config_sources(Some("/tmp/c.toml".to_owned()), Some("/tmp/c.d".to_owned()));
    assert_eq!(f, "/tmp/c.toml");
    assert_eq!(d, "/tmp/c.d");
}

#[test]
fn shared_fields_are_read() {
    let mut e = base_entries();
    e.push(text("edge_ca_cert", "file:///ca.pem"));
    e.push(text("edge_ca_key", "file:///ca.key"));
    e.push(text("trust_bundle_cert", "file:///trust.pem"));
    e.push(text("auto_reprovisioning_mode", "AlwaysOnStartup"));
    e.push(integer("watchdog.max_retries", 3));
    e.push(text("endpoints.aziot_keyd_url", "unix:///run/keyd.sock"));
    let s = decode(doc(e));
    assert_eq!(s.edge_ca_cert(), Some("file:///ca.pem"));
    assert_eq!(s.edge_ca_key(), Some("file:///ca.key"));
    assert_eq!(s.trust_bundle_cert(), Some("file:///trust.pem"));
    assert_eq!(s.auto_reprovisioning_mode(), "AlwaysOnStartup");
    assert_eq!(s.watchdog(), &doc(vec![integer("max_retries", 3)]));
    assert_eq!(s.endpoints(), &doc(vec![text("aziot_keyd_url", "unix:///run/keyd.sock")]));
}

#[test]
fn missing_hostname_is_refused() {
    let e: Vec<Entry> = base_entries().into_iter().filter(|e| e.path != path("hostname")).collect();
    let err = Settings::new(doc(e), vec![]).unwrap_err();
    assert!(matches!(err.source(), LoadCause::Decode(DecodeError::Missing(Field::Hostname))));
    assert_eq!(err.cause_message(), "missing field `hostname`");
}

#[test]
fn missing_agent_is_refused() {
    let e: Vec<Entry> = base_entries().into_iter().filter(|e| e.path[0] != "agent").collect();
    assert_eq!(Settings::decode(doc(e)), Err(DecodeError::Missing(Field::Agent)));
}

#[test]
fn unknown_keys_are_ignored() {
    let mut e = base_entries();
    e.push(text("unknown_key", "x"));
    e.push(text("proxy.extra", "y"));
    let s = decode(doc(e));
    assert_eq!(s, decode(base_doc()));
}

#[test]
fn table_below_text_field_is_refused() {
    let mut e = base_entries();
    e.push(integer("has_nodes_rbac.x", 1));
    assert_eq!(Settings::decode(doc(e)), Err(DecodeError::InvalidType(Field::HasNodesRbac)));
    let mut e = base_entries();
    e.push(integer("iot_hub_hostname.x", 1));
    assert_eq!(Settings::decode(doc(e)), Err(DecodeError::InvalidType(Field::IotHubHostname)));
    let mut e = base_entries();
    e.push(text("namespace.x", "a"));
    assert_eq!(Settings::decode(doc(e)), Err(DecodeError::InvalidType(Field::Namespace)));
}

#[test]
fn agent_can_be_changed_in_place() {
    let mut s = decode(base_doc());
    s.agent_mut().entries.push(text("image", "edge-agent:1.2"));
    assert_eq!(s.agent().entries.len(), 3);
    assert_eq!(s.namespace(), "a");
}

#[test]
fn invalid_syntax_message_surfaces() {
    let parsed: Result<toml::value::Table, toml::de::Error> = toml::from_str("namespace = \n[proxy");
    let parse_err = parsed.unwrap_err();
    let text = parse_err.to_string();
    let err = LoadSettingsError::from_cause(LoadCause::Parse(text.clone()));
    assert!(matches!(err.source(), LoadCause::Parse(m) if *m == text));
    assert_eq!(err.cause_message(), text);
    assert_ne!(err.cause_message(), err.message());
}
