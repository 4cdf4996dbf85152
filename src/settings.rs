//! The typed settings decoded from a merged document, and the overlay of the
//! facts that are learned only once the agent runs.

use vstd::prelude::*;
use crate::document::{
    below, find, is_below, lemma_below_append, lemma_below_none, lemma_below_prefixed,
    lemma_below_prefixed_other, lemma_find_absent, lemma_find_concat, path_is_below, path_view,
    prefix_all, prefixed, Binding, Document, Entry, KeyPath, Leaf, LeafView,
};
use crate::field::{
    field_error, field_order, first_decode_error, first_error, first_error_in, DecodeError, Field,
};

verus! {

/// The shared runtime settings as the contracts see them.
pub struct BaseModel {
    pub hostname: Seq<char>,
    pub homedir: Seq<char>,
    pub edge_ca_cert: Option<Seq<char>>,
    pub edge_ca_key: Option<Seq<char>>,
    pub trust_bundle_cert: Option<Seq<char>>,
    pub auto_reprovisioning_mode: Seq<char>,
    pub watchdog: Seq<Binding>,
    pub endpoints: Seq<Binding>,
    pub agent: Seq<Binding>,
    pub connect: Seq<Binding>,
    pub listen: Seq<Binding>,
}

/// The proxy's settings as the contracts see them.
pub struct ProxyModel {
    pub auth: Option<Seq<Binding>>,
    pub image: Seq<char>,
    pub image_pull_policy: Seq<char>,
    pub config_path: Seq<char>,
    pub config_map_name: Seq<char>,
    pub trust_bundle_path: Seq<char>,
    pub trust_bundle_config_map_name: Seq<char>,
    pub resources: Option<Seq<Binding>>,
}

/// The settings as the contracts see them.
pub struct SettingsModel {
    pub base: BaseModel,
    pub namespace: Seq<char>,
    pub iot_hub_hostname: Option<Seq<char>>,
    pub device_id: Option<Seq<char>>,
    pub device_hub_selector: Seq<char>,
    pub proxy: ProxyModel,
    pub config_path: Seq<char>,
    pub config_map_name: Seq<char>,
    pub config_map_volume: Seq<char>,
    pub resources: Option<Seq<Binding>>,
    pub has_nodes_rbac: bool,
}

/// The text that `d` holds for `f`.
pub open spec fn text_of(d: Seq<Binding>, f: Field) -> Seq<char> {
    match find(d, f.spec_path()) {
        Some(LeafView::Text(s)) => s,
        _ => Seq::empty(),
    }
}

/// The text that `d` holds for `f`, if any.
pub open spec fn opt_text_of(d: Seq<Binding>, f: Field) -> Option<Seq<char>> {
    match find(d, f.spec_path()) {
        Some(LeafView::Text(s)) => Some(s),
        _ => None,
    }
}

/// The flag that `d` holds for `f`, `true` where it holds none.
pub open spec fn flag_of(d: Seq<Binding>, f: Field) -> bool {
    match find(d, f.spec_path()) {
        Some(LeafView::Flag(b)) => b,
        _ => true,
    }
}

/// The table that `d` holds for `f`, absent where nothing lies below its path.
pub open spec fn table_of(d: Seq<Binding>, f: Field) -> Option<Seq<Binding>> {
    let t = below(d, f.spec_path());
    if t.len() == 0 {
        None
    } else {
        Some(t)
    }
}

/// The text that `d` holds for `f`, `Dynamic` where it holds none.
pub open spec fn text_or_dynamic(d: Seq<Binding>, f: Field) -> Seq<char> {
    match find(d, f.spec_path()) {
        Some(LeafView::Text(s)) => s,
        _ => "Dynamic"@,
    }
}

/// The shared runtime settings that `d` describes; keys that no field
/// names are left out.
pub open spec fn base_of(d: Seq<Binding>) -> BaseModel {
    BaseModel {
        hostname: text_of(d, Field::Hostname),
        homedir: text_of(d, Field::Homedir),
        edge_ca_cert: opt_text_of(d, Field::EdgeCaCert),
        edge_ca_key: opt_text_of(d, Field::EdgeCaKey),
        trust_bundle_cert: opt_text_of(d, Field::TrustBundleCert),
        auto_reprovisioning_mode: text_or_dynamic(d, Field::AutoReprovisioningMode),
        watchdog: below(d, Field::Watchdog.spec_path()),
        endpoints: below(d, Field::Endpoints.spec_path()),
        agent: below(d, Field::Agent.spec_path()),
        connect: below(d, Field::Connect.spec_path()),
        listen: below(d, Field::Listen.spec_path()),
    }
}

/// The settings that `d` describes, read field by field; keys that no field
/// names are left out.
pub open spec fn model_of(d: Seq<Binding>) -> SettingsModel {
    SettingsModel {
        base: base_of(d),
        namespace: text_of(d, Field::Namespace),
        iot_hub_hostname: opt_text_of(d, Field::IotHubHostname),
        device_id: opt_text_of(d, Field::DeviceId),
        device_hub_selector: text_of(d, Field::DeviceHubSelector),
        proxy: ProxyModel {
            auth: table_of(d, Field::ProxyAuth),
            image: text_of(d, Field::ProxyImage),
            image_pull_policy: text_of(d, Field::ProxyImagePullPolicy),
            config_path: text_of(d, Field::ProxyConfigPath),
            config_map_name: text_of(d, Field::ProxyConfigMapName),
            trust_bundle_path: text_of(d, Field::ProxyTrustBundlePath),
            trust_bundle_config_map_name: text_of(d, Field::ProxyTrustBundleConfigMapName),
            resources: table_of(d, Field::ProxyResources),
        },
        config_path: text_of(d, Field::ConfigPath),
        config_map_name: text_of(d, Field::ConfigMapName),
        config_map_volume: text_of(d, Field::ConfigMapVolume),
        resources: table_of(d, Field::Resources),
        has_nodes_rbac: flag_of(d, Field::HasNodesRbac),
    }
}

/// What decoding `d` gives: the first field at fault, or the settings.
pub open spec fn decoded(d: Seq<Binding>) -> Result<SettingsModel, DecodeError> {
    match first_error(d) {
        Some(e) => Err(e),
        None => Ok(model_of(d)),
    }
}

pub open spec fn opt_doc_view(o: Option<Document>) -> Option<Seq<Binding>> {
    match o {
        Some(d) => Some(d@),
        None => None,
    }
}

pub open spec fn opt_string_view(o: Option<String>) -> Option<Seq<char>> {
    match o {
        Some(s) => Some(s@),
        None => None,
    }
}

/// The settings of the proxy that the agent runs beside each workload.
#[derive(Debug, PartialEq)]
pub struct ProxySettings {
    auth: Option<Document>,
    image: String,
    image_pull_policy: String,
    config_path: String,
    config_map_name: String,
    trust_bundle_path: String,
    trust_bundle_config_map_name: String,
    resources: Option<Document>,
}

impl View for ProxySettings {
    type V = ProxyModel;

    closed spec fn view(&self) -> ProxyModel {
        ProxyModel {
            auth: opt_doc_view(self.auth),
            image: self.image@,
            image_pull_policy: self.image_pull_policy@,
            config_path: self.config_path@,
            config_map_name: self.config_map_name@,
            trust_bundle_path: self.trust_bundle_path@,
            trust_bundle_config_map_name: self.trust_bundle_config_map_name@,
            resources: opt_doc_view(self.resources),
        }
    }
}

/// The runtime settings that every agent variant shares. The tables are held
/// unexamined, as documents of their own.
#[derive(Debug, PartialEq)]
pub struct BaseSettings {
    hostname: String,
    homedir: String,
    edge_ca_cert: Option<String>,
    edge_ca_key: Option<String>,
    trust_bundle_cert: Option<String>,
    auto_reprovisioning_mode: String,
    watchdog: Document,
    endpoints: Document,
    agent: Document,
    connect: Document,
    listen: Document,
}

impl View for BaseSettings {
    type V = BaseModel;

    closed spec fn view(&self) -> BaseModel {
        BaseModel {
            hostname: self.hostname@,
            homedir: self.homedir@,
            edge_ca_cert: opt_string_view(self.edge_ca_cert),
            edge_ca_key: opt_string_view(self.edge_ca_key),
            trust_bundle_cert: opt_string_view(self.trust_bundle_cert),
            auto_reprovisioning_mode: self.auto_reprovisioning_mode@,
            watchdog: self.watchdog@,
            endpoints: self.endpoints@,
            agent: self.agent@,
            connect: self.connect@,
            listen: self.listen@,
        }
    }
}

/// The resolved settings of one agent: the shared runtime settings and the
/// fields of its own.
#[derive(Debug, PartialEq)]
pub struct Settings {
    base: BaseSettings,
    namespace: String,
    iot_hub_hostname: Option<String>,
    device_id: Option<String>,
    device_hub_selector: String,
    proxy: ProxySettings,
    config_path: String,
    config_map_name: String,
    config_map_volume: String,
    resources: Option<Document>,
    has_nodes_rbac: bool,
}

impl View for Settings {
    type V = SettingsModel;

    closed spec fn view(&self) -> SettingsModel {
        SettingsModel {
            base: self.base@,
            namespace: self.namespace@,
            iot_hub_hostname: opt_string_view(self.iot_hub_hostname),
            device_id: opt_string_view(self.device_id),
            device_hub_selector: self.device_hub_selector@,
            proxy: self.proxy@,
            config_path: self.config_path@,
            config_map_name: self.config_map_name@,
            config_map_volume: self.config_map_volume@,
            resources: opt_doc_view(self.resources),
            has_nodes_rbac: self.has_nodes_rbac,
        }
    }
}

/// The text that `d` holds for `f`.
fn text_field(d: &Document, f: Field) -> (r: String)
    ensures
        r@ == text_of(d@, f),
{
    let p = f.path();
    match d.lookup(&p) {
        Some(Leaf::Text(s)) => s.clone(),
        _ => String::new(),
    }
}

/// The text that `d` holds for `f`, if any.
fn opt_text_field(d: &Document, f: Field) -> (r: Option<String>)
    ensures
        opt_string_view(r) == opt_text_of(d@, f),
{
    let p = f.path();
    match d.lookup(&p) {
        Some(Leaf::Text(s)) => Some(s.clone()),
        _ => None,
    }
}

/// The flag that `d` holds for `f`, `true` where it holds none.
fn flag_field(d: &Document, f: Field) -> (r: bool)
    ensures
        r == flag_of(d@, f),
{
    let p = f.path();
    match d.lookup(&p) {
        Some(Leaf::Flag(b)) => *b,
        _ => true,
    }
}

/// The tables of a document that the settings hold whole.
struct Parts {
    resources: Document,
    proxy_auth: Document,
    proxy_resources: Document,
    watchdog: Document,
    endpoints: Document,
    agent: Document,
    connect: Document,
    listen: Document,
}

proof fn lemma_keys_distinct()
    ensures
        "resources"@ != "proxy"@,
        "resources"@ != "watchdog"@,
        "resources"@ != "endpoints"@,
        "resources"@ != "agent"@,
        "resources"@ != "connect"@,
        "resources"@ != "listen"@,
        "proxy"@ != "watchdog"@,
        "proxy"@ != "endpoints"@,
        "proxy"@ != "agent"@,
        "proxy"@ != "connect"@,
        "proxy"@ != "listen"@,
        "watchdog"@ != "endpoints"@,
        "watchdog"@ != "agent"@,
        "watchdog"@ != "connect"@,
        "watchdog"@ != "listen"@,
        "endpoints"@ != "agent"@,
        "endpoints"@ != "connect"@,
        "endpoints"@ != "listen"@,
        "agent"@ != "connect"@,
        "agent"@ != "listen"@,
        "connect"@ != "listen"@,
        "auth"@ != "resources"@,
{
    reveal_strlit("resources");
    reveal_strlit("proxy");
    reveal_strlit("watchdog");
    reveal_strlit("endpoints");
    reveal_strlit("agent");
    reveal_strlit("connect");
    reveal_strlit("listen");
    reveal_strlit("auth");
    assert("resources"@[0] != "proxy"@[0]);
    assert("resources"@[0] != "watchdog"@[0]);
    assert("resources"@[0] != "endpoints"@[0]);
    assert("resources"@[0] != "agent"@[0]);
    assert("resources"@[0] != "connect"@[0]);
    assert("resources"@[0] != "listen"@[0]);
    assert("proxy"@[0] != "watchdog"@[0]);
    assert("proxy"@[0] != "endpoints"@[0]);
    assert("proxy"@[0] != "agent"@[0]);
    assert("proxy"@[0] != "connect"@[0]);
    assert("proxy"@[0] != "listen"@[0]);
    assert("watchdog"@[0] != "endpoints"@[0]);
    assert("watchdog"@[0] != "agent"@[0]);
    assert("watchdog"@[0] != "connect"@[0]);
    assert("watchdog"@[0] != "listen"@[0]);
    assert("endpoints"@[0] != "agent"@[0]);
    assert("endpoints"@[0] != "connect"@[0]);
    assert("endpoints"@[0] != "listen"@[0]);
    assert("agent"@[0] != "connect"@[0]);
    assert("agent"@[0] != "listen"@[0]);
    assert("connect"@[0] != "listen"@[0]);
    assert("auth"@[0] != "resources"@[0]);
}

/// Moves the bindings of `d` into the tables that the settings hold whole;
/// the rest is dropped.
fn partition(d: Document) -> (r: Parts)
    ensures
        r.resources@ == below(d@, Field::Resources.spec_path()),
        r.proxy_auth@ == below(d@, Field::ProxyAuth.spec_path()),
        r.proxy_resources@ == below(d@, Field::ProxyResources.spec_path()),
        r.watchdog@ == below(d@, Field::Watchdog.spec_path()),
        r.endpoints@ == below(d@, Field::Endpoints.spec_path()),
        r.agent@ == below(d@, Field::Agent.spec_path()),
        r.connect@ == below(d@, Field::Connect.spec_path()),
        r.listen@ == below(d@, Field::Listen.spec_path()),
{
    let ghost dv = d@;
    let mut src = d.entries;
    let ghost n = dv.len();
    let resources_path = Field::Resources.path();
    let proxy_auth_path = Field::ProxyAuth.path();
    let proxy_resources_path = Field::ProxyResources.path();
    let watchdog_path = Field::Watchdog.path();
    let endpoints_path = Field::Endpoints.path();
    let agent_path = Field::Agent.path();
    let connect_path = Field::Connect.path();
    let listen_path = Field::Listen.path();
    let mut resources: Vec<Entry> = Vec::new();
    let mut proxy_auth: Vec<Entry> = Vec::new();
    let mut proxy_resources: Vec<Entry> = Vec::new();
    let mut watchdog: Vec<Entry> = Vec::new();
    let mut endpoints: Vec<Entry> = Vec::new();
    let mut agent: Vec<Entry> = Vec::new();
    let mut connect: Vec<Entry> = Vec::new();
    let mut listen: Vec<Entry> = Vec::new();
    let mut i: usize = 0;
    proof {
        lemma_keys_distinct();
    }
    assert(n == src.len());
    while src.len() > 0
        invariant
            n == dv.len(),
            n <= usize::MAX,
            i + src.len() == n,
            path_view(resources_path@) == Field::Resources.spec_path(),
            path_view(proxy_auth_path@) == Field::ProxyAuth.spec_path(),
            path_view(proxy_resources_path@) == Field::ProxyResources.spec_path(),
            path_view(watchdog_path@) == Field::Watchdog.spec_path(),
            path_view(endpoints_path@) == Field::Endpoints.spec_path(),
            path_view(agent_path@) == Field::Agent.spec_path(),
            path_view(connect_path@) == Field::Connect.spec_path(),
            path_view(listen_path@) == Field::Listen.spec_path(),
            "resources"@ != "proxy"@,
            "resources"@ != "watchdog"@,
            "resources"@ != "endpoints"@,
            "resources"@ != "agent"@,
            "resources"@ != "connect"@,
            "resources"@ != "listen"@,
            "proxy"@ != "watchdog"@,
            "proxy"@ != "endpoints"@,
            "proxy"@ != "agent"@,
            "proxy"@ != "connect"@,
            "proxy"@ != "listen"@,
            "watchdog"@ != "endpoints"@,
            "watchdog"@ != "agent"@,
            "watchdog"@ != "connect"@,
            "watchdog"@ != "listen"@,
            "endpoints"@ != "agent"@,
            "endpoints"@ != "connect"@,
            "endpoints"@ != "listen"@,
            "agent"@ != "connect"@,
            "agent"@ != "listen"@,
            "connect"@ != "listen"@,
            "auth"@ != "resources"@,
            src@.map_values(|e: Entry| e@) =~= dv.subrange(i as int, n as int),
            resources@.map_values(|e: Entry| e@) =~= below(dv.subrange(0, i as int), Field::Resources.spec_path()),
            proxy_auth@.map_values(|e: Entry| e@) =~= below(dv.subrange(0, i as int), Field::ProxyAuth.spec_path()),
            proxy_resources@.map_values(|e: Entry| e@) =~= below(dv.subrange(0, i as int), Field::ProxyResources.spec_path()),
            watchdog@.map_values(|e: Entry| e@) =~= below(dv.subrange(0, i as int), Field::Watchdog.spec_path()),
            endpoints@.map_values(|e: Entry| e@) =~= below(dv.subrange(0, i as int), Field::Endpoints.spec_path()),
            agent@.map_values(|e: Entry| e@) =~= below(dv.subrange(0, i as int), Field::Agent.spec_path()),
            connect@.map_values(|e: Entry| e@) =~= below(dv.subrange(0, i as int), Field::Connect.spec_path()),
            listen@.map_values(|e: Entry| e@) =~= below(dv.subrange(0, i as int), Field::Listen.spec_path()),
        decreases src.len(),
    {
        let ghost before = src@;
        let e = src.remove(0);
        assert(before.map_values(|e: Entry| e@)[0] == e@);
        assert(src@.map_values(|e: Entry| e@) =~= before.map_values(|e: Entry| e@).subrange(1, before.len() as int));
        let ghost ev = e@;
        assert(dv.subrange(0, i + 1).drop_last() =~= dv.subrange(0, i as int));
        assert(dv.subrange(0, i + 1).last() == ev);
        let in_resources = path_is_below(&e.path, &resources_path);
        let in_proxy_auth = path_is_below(&e.path, &proxy_auth_path);
        let in_proxy_resources = path_is_below(&e.path, &proxy_resources_path);
        let in_watchdog = path_is_below(&e.path, &watchdog_path);
        let in_endpoints = path_is_below(&e.path, &endpoints_path);
        let in_agent = path_is_below(&e.path, &agent_path);
        let in_connect = path_is_below(&e.path, &connect_path);
        let in_listen = path_is_below(&e.path, &listen_path);
        proof {
            if in_resources {
                assert(ev.0[0] == ev.0.subrange(0, 1)[0]);
                assert(ev.0[0] == "resources"@);
            }
            if in_proxy_auth {
                assert(ev.0[0] == ev.0.subrange(0, 2)[0]);
                assert(ev.0[1] == ev.0.subrange(0, 2)[1]);
                assert(ev.0[0] == "proxy"@);
                assert(ev.0[1] == "auth"@);
            }
            if in_proxy_resources {
                assert(ev.0[0] == ev.0.subrange(0, 2)[0]);
                assert(ev.0[1] == ev.0.subrange(0, 2)[1]);
                assert(ev.0[0] == "proxy"@);
                assert(ev.0[1] == "resources"@);
            }
            if in_watchdog {
                assert(ev.0[0] == ev.0.subrange(0, 1)[0]);
                assert(ev.0[0] == "watchdog"@);
            }
            if in_endpoints {
                assert(ev.0[0] == ev.0.subrange(0, 1)[0]);
                assert(ev.0[0] == "endpoints"@);
            }
            if in_agent {
                assert(ev.0[0] == ev.0.subrange(0, 1)[0]);
                assert(ev.0[0] == "agent"@);
            }
            if in_connect {
                assert(ev.0[0] == ev.0.subrange(0, 1)[0]);
                assert(ev.0[0] == "connect"@);
            }
            if in_listen {
                assert(ev.0[0] == ev.0.subrange(0, 1)[0]);
                assert(ev.0[0] == "listen"@);
            }
        }
        if in_resources {
            let mut path = e.path;
            let tail = path.split_off(1);
            assert(path_view(tail@) =~= ev.0.subrange(1, ev.0.len() as int));
            resources.push(Entry { path: tail, value: e.value });
        } else if in_proxy_auth {
            let mut path = e.path;
            let tail = path.split_off(2);
            assert(path_view(tail@) =~= ev.0.subrange(2, ev.0.len() as int));
            proxy_auth.push(Entry { path: tail, value: e.value });
        } else if in_proxy_resources {
            let mut path = e.path;
            let tail = path.split_off(2);
            assert(path_view(tail@) =~= ev.0.subrange(2, ev.0.len() as int));
            proxy_resources.push(Entry { path: tail, value: e.value });
        } else if in_watchdog {
            let mut path = e.path;
            let tail = path.split_off(1);
            assert(path_view(tail@) =~= ev.0.subrange(1, ev.0.len() as int));
            watchdog.push(Entry { path: tail, value: e.value });
        } else if in_endpoints {
            let mut path = e.path;
            let tail = path.split_off(1);
            assert(path_view(tail@) =~= ev.0.subrange(1, ev.0.len() as int));
            endpoints.push(Entry { path: tail, value: e.value });
        } else if in_agent {
            let mut path = e.path;
            let tail = path.split_off(1);
            assert(path_view(tail@) =~= ev.0.subrange(1, ev.0.len() as int));
            agent.push(Entry { path: tail, value: e.value });
        } else if in_connect {
            let mut path = e.path;
            let tail = path.split_off(1);
            assert(path_view(tail@) =~= ev.0.subrange(1, ev.0.len() as int));
            connect.push(Entry { path: tail, value: e.value });
        } else if in_listen {
            let mut path = e.path;
            let tail = path.split_off(1);
            assert(path_view(tail@) =~= ev.0.subrange(1, ev.0.len() as int));
            listen.push(Entry { path: tail, value: e.value });
        }
        i = i + 1;
    }
    assert(dv.subrange(0, n as int) =~= dv);
    Parts {
        resources: Document { entries: resources },
        proxy_auth: Document { entries: proxy_auth },
        proxy_resources: Document { entries: proxy_resources },
        watchdog: Document { entries: watchdog },
        endpoints: Document { entries: endpoints },
        agent: Document { entries: agent },
        connect: Document { entries: connect },
        listen: Document { entries: listen },
    }
}

/// A table held whole, absent where it has no entries.
fn nonempty(t: Document) -> (r: Option<Document>)
    ensures
        opt_doc_view(r) == (if t@.len() == 0 { None } else { Some(t@) }),
{
    if t.entries.len() == 0 {
        None
    } else {
        Some(t)
    }
}

/// The text that `d` holds for `f`, `Dynamic` where it holds none.
fn text_or_dynamic_field(d: &Document, f: Field) -> (r: String)
    ensures
        r@ == text_or_dynamic(d@, f),
{
    let p = f.path();
    match d.lookup(&p) {
        Some(Leaf::Text(s)) => s.clone(),
        _ => "Dynamic".to_owned(),
    }
}

impl Settings {
    /// Decodes the settings from a merged document: the first field at fault
    /// in the order of `field_order`, or the settings read field by field.
    /// Absent optional fields stay absent, an absent `has_nodes_rbac` is
    /// `true`, an absent `auto_reprovisioning_mode` is `Dynamic`, absent
    /// `watchdog` and `endpoints` tables are empty, and keys that no field
    /// names are left out.
    pub fn decode(d: Document) -> (r: Result<Settings, DecodeError>)
        ensures
            r matches Ok(s) ==> decoded(d@) == Ok::<SettingsModel, DecodeError>(s@),
            r matches Err(e) ==> decoded(d@) == Err::<SettingsModel, DecodeError>(e),
    {
        if let Some(e) = first_decode_error(&d) {
            return Err(e);
        }
        let namespace = text_field(&d, Field::Namespace);
        let iot_hub_hostname = opt_text_field(&d, Field::IotHubHostname);
        let device_id = opt_text_field(&d, Field::DeviceId);
        let device_hub_selector = text_field(&d, Field::DeviceHubSelector);
        let image = text_field(&d, Field::ProxyImage);
        let image_pull_policy = text_field(&d, Field::ProxyImagePullPolicy);
        let proxy_config_path = text_field(&d, Field::ProxyConfigPath);
        let proxy_config_map_name = text_field(&d, Field::ProxyConfigMapName);
        let trust_bundle_path = text_field(&d, Field::ProxyTrustBundlePath);
        let trust_bundle_config_map_name = text_field(&d, Field::ProxyTrustBundleConfigMapName);
        let config_path = text_field(&d, Field::ConfigPath);
        let config_map_name = text_field(&d, Field::ConfigMapName);
        let config_map_volume = text_field(&d, Field::ConfigMapVolume);
        let has_nodes_rbac = flag_field(&d, Field::HasNodesRbac);
        let hostname = text_field(&d, Field::Hostname);
        let homedir = text_field(&d, Field::Homedir);
        let edge_ca_cert = opt_text_field(&d, Field::EdgeCaCert);
        let edge_ca_key = opt_text_field(&d, Field::EdgeCaKey);
        let trust_bundle_cert = opt_text_field(&d, Field::TrustBundleCert);
        let auto_reprovisioning_mode = text_or_dynamic_field(&d, Field::AutoReprovisioningMode);
        let parts = partition(d);
        let proxy = ProxySettings {
            auth: nonempty(parts.proxy_auth),
            image,
            image_pull_policy,
            config_path: proxy_config_path,
            config_map_name: proxy_config_map_name,
            trust_bundle_path,
            trust_bundle_config_map_name,
            resources: nonempty(parts.proxy_resources),
        };
        let base = BaseSettings {
            hostname,
            homedir,
            edge_ca_cert,
            edge_ca_key,
            trust_bundle_cert,
            auto_reprovisioning_mode,
            watchdog: parts.watchdog,
            endpoints: parts.endpoints,
            agent: parts.agent,
            connect: parts.connect,
            listen: parts.listen,
        };
        let s = Settings {
            base,
            namespace,
            iot_hub_hostname,
            device_id,
            device_hub_selector,
            proxy,
            config_path,
            config_map_name,
            config_map_volume,
            resources: nonempty(parts.resources),
            has_nodes_rbac,
        };
        Ok(s)
    }
}

/// The binding of the text `s` to the field `f`.
pub open spec fn text_binding(f: Field, s: Seq<char>) -> Binding {
    (f.spec_path(), LeafView::Text(s))
}

/// The binding of an optional text, none where it is absent.
pub open spec fn opt_text_bindings(f: Field, o: Option<Seq<char>>) -> Seq<Binding> {
    match o {
        Some(s) => seq![text_binding(f, s)],
        None => Seq::empty(),
    }
}

/// The bindings of a table held whole, put back under the field's path.
pub open spec fn table_bindings(f: Field, o: Option<Seq<Binding>>) -> Seq<Binding> {
    match o {
        Some(t) => prefixed(t, f.spec_path()),
        None => Seq::empty(),
    }
}

/// The bindings of the settings' own text and flag fields, each at its path.
pub open spec fn own_part(m: SettingsModel) -> Seq<Binding> {
    seq![text_binding(Field::Namespace, m.namespace)]
        + opt_text_bindings(Field::IotHubHostname, m.iot_hub_hostname)
        + opt_text_bindings(Field::DeviceId, m.device_id)
        + seq![
            text_binding(Field::DeviceHubSelector, m.device_hub_selector),
            text_binding(Field::ProxyImage, m.proxy.image),
            text_binding(Field::ProxyImagePullPolicy, m.proxy.image_pull_policy),
            text_binding(Field::ProxyConfigPath, m.proxy.config_path),
            text_binding(Field::ProxyConfigMapName, m.proxy.config_map_name),
            text_binding(Field::ProxyTrustBundlePath, m.proxy.trust_bundle_path),
            text_binding(Field::ProxyTrustBundleConfigMapName, m.proxy.trust_bundle_config_map_name),
            text_binding(Field::ConfigPath, m.config_path),
            text_binding(Field::ConfigMapName, m.config_map_name),
            text_binding(Field::ConfigMapVolume, m.config_map_volume),
            (Field::HasNodesRbac.spec_path(), LeafView::Flag(m.has_nodes_rbac)),
        ]
}

/// The bindings of the shared runtime settings' own text fields.
pub open spec fn base_part(m: SettingsModel) -> Seq<Binding> {
    seq![text_binding(Field::Hostname, m.base.hostname), text_binding(Field::Homedir, m.base.homedir)]
        + opt_text_bindings(Field::EdgeCaCert, m.base.edge_ca_cert)
        + opt_text_bindings(Field::EdgeCaKey, m.base.edge_ca_key)
        + opt_text_bindings(Field::TrustBundleCert, m.base.trust_bundle_cert)
        + seq![text_binding(Field::AutoReprovisioningMode, m.base.auto_reprovisioning_mode)]
}

/// The bindings of the tables that the settings hold whole, each under its
/// path.
pub open spec fn table_part(m: SettingsModel) -> Seq<Binding> {
    table_bindings(Field::ProxyAuth, m.proxy.auth)
        + table_bindings(Field::ProxyResources, m.proxy.resources)
        + table_bindings(Field::Resources, m.resources)
        + prefixed(m.base.watchdog, Field::Watchdog.spec_path())
        + prefixed(m.base.endpoints, Field::Endpoints.spec_path())
        + prefixed(m.base.agent, Field::Agent.spec_path())
        + prefixed(m.base.connect, Field::Connect.spec_path())
        + prefixed(m.base.listen, Field::Listen.spec_path())
}

/// The document that the settings `m` are written as: their own fields, the
/// shared runtime settings' text fields, then the tables they hold whole.
pub open spec fn encoded(m: SettingsModel) -> Seq<Binding> {
    own_part(m) + base_part(m) + table_part(m)
}

/// `a` followed by `b`.
fn concat(a: Document, b: Document) -> (r: Document)
    ensures
        r@ == a@ + b@,
{
    let mut x = a.entries;
    let mut y = b.entries;
    let ghost xv = x@;
    let ghost yv = y@;
    x.append(&mut y);
    assert(x@ =~= xv + yv);
    assert(x@.map_values(|e: Entry| e@) =~= xv.map_values(|e: Entry| e@) + yv.map_values(|e: Entry| e@));
    Document { entries: x }
}

/// The entry binding the text `s` to the field `f`.
fn text_entry(f: Field, s: String) -> (r: Entry)
    ensures
        r@ == text_binding(f, s@),
{
    Entry { path: f.path(), value: Leaf::Text(s) }
}

/// A one-entry document.
fn single(e: Entry) -> (r: Document)
    ensures
        r@ == seq![e@],
{
    let v = vec![e];
    let r = Document { entries: v };
    assert(r@ =~= seq![e@]);
    r
}

fn opt_text_doc(f: Field, o: Option<String>) -> (r: Document)
    ensures
        r@ == opt_text_bindings(f, opt_string_view(o)),
{
    match o {
        Some(s) => single(text_entry(f, s)),
        None => Document::empty(),
    }
}

fn table_doc(f: Field, o: Option<Document>) -> (r: Document)
    ensures
        r@ == table_bindings(f, opt_doc_view(o)),
{
    match o {
        Some(t) => {
            let p = f.path();
            prefix_all(t, &p)
        },
        None => Document::empty(),
    }
}

impl Settings {
    /// Writes the settings as a document: the fields of their own, each at
    /// its path, then the tables held whole, then the shared runtime
    /// settings.
    pub fn encode(self) -> (r: Document)
        ensures
            r@ == encoded(self@),
    {
        let m = Ghost(self@);
        let mut own: Vec<Entry> = Vec::new();
        own.push(text_entry(Field::DeviceHubSelector, self.device_hub_selector));
        own.push(text_entry(Field::ProxyImage, self.proxy.image));
        own.push(text_entry(Field::ProxyImagePullPolicy, self.proxy.image_pull_policy));
        own.push(text_entry(Field::ProxyConfigPath, self.proxy.config_path));
        own.push(text_entry(Field::ProxyConfigMapName, self.proxy.config_map_name));
        own.push(text_entry(Field::ProxyTrustBundlePath, self.proxy.trust_bundle_path));
        own.push(text_entry(
            Field::ProxyTrustBundleConfigMapName,
            self.proxy.trust_bundle_config_map_name,
        ));
        own.push(text_entry(Field::ConfigPath, self.config_path));
        own.push(text_entry(Field::ConfigMapName, self.config_map_name));
        own.push(text_entry(Field::ConfigMapVolume, self.config_map_volume));
        own.push(Entry { path: Field::HasNodesRbac.path(), value: Leaf::Flag(self.has_nodes_rbac) });
        let own = Document { entries: own };
        assert(own@ =~= seq![
            text_binding(Field::DeviceHubSelector, m@.device_hub_selector),
            text_binding(Field::ProxyImage, m@.proxy.image),
            text_binding(Field::ProxyImagePullPolicy, m@.proxy.image_pull_policy),
            text_binding(Field::ProxyConfigPath, m@.proxy.config_path),
            text_binding(Field::ProxyConfigMapName, m@.proxy.config_map_name),
            text_binding(Field::ProxyTrustBundlePath, m@.proxy.trust_bundle_path),
            text_binding(Field::ProxyTrustBundleConfigMapName, m@.proxy.trust_bundle_config_map_name),
            text_binding(Field::ConfigPath, m@.config_path),
            text_binding(Field::ConfigMapName, m@.config_map_name),
            text_binding(Field::ConfigMapVolume, m@.config_map_volume),
            (Field::HasNodesRbac.spec_path(), LeafView::Flag(m@.has_nodes_rbac)),
        ]);
        let d = single(text_entry(Field::Namespace, self.namespace));
        let d = concat(d, opt_text_doc(Field::IotHubHostname, self.iot_hub_hostname));
        let d = concat(d, opt_text_doc(Field::DeviceId, self.device_id));
        let d = concat(d, own);
        let b = self.base;
        let mut head: Vec<Entry> = Vec::new();
        head.push(text_entry(Field::Hostname, b.hostname));
        head.push(text_entry(Field::Homedir, b.homedir));
        let head = Document { entries: head };
        assert(head@ =~= seq![
            text_binding(Field::Hostname, m@.base.hostname),
            text_binding(Field::Homedir, m@.base.homedir),
        ]);
        let bp = concat(head, opt_text_doc(Field::EdgeCaCert, b.edge_ca_cert));
        let bp = concat(bp, opt_text_doc(Field::EdgeCaKey, b.edge_ca_key));
        let bp = concat(bp, opt_text_doc(Field::TrustBundleCert, b.trust_bundle_cert));
        let bp = concat(bp, single(text_entry(Field::AutoReprovisioningMode, b.auto_reprovisioning_mode)));
        let d = concat(d, bp);
        let t = table_doc(Field::ProxyAuth, self.proxy.auth);
        let t = concat(t, table_doc(Field::ProxyResources, self.proxy.resources));
        let t = concat(t, table_doc(Field::Resources, self.resources));
        let t = concat(t, prefix_all(b.watchdog, &Field::Watchdog.path()));
        let t = concat(t, prefix_all(b.endpoints, &Field::Endpoints.path()));
        let t = concat(t, prefix_all(b.agent, &Field::Agent.path()));
        let t = concat(t, prefix_all(b.connect, &Field::Connect.path()));
        let t = concat(t, prefix_all(b.listen, &Field::Listen.path()));
        concat(d, t)
    }

    /// These settings with the device id set to `device_id`; every other
    /// field is carried over.
    pub fn with_device_id(self, device_id: &str) -> (r: Settings)
        ensures
            r@ == set_device_id(self@, device_id@),
    {
        Settings { device_id: Some(device_id.to_owned()), ..self }
    }

    /// These settings with the hub's host name set to `iot_hub_hostname`;
    /// every other field is carried over.
    pub fn with_iot_hub_hostname(self, iot_hub_hostname: &str) -> (r: Settings)
        ensures
            r@ == set_iot_hub_hostname(self@, iot_hub_hostname@),
    {
        Settings { iot_hub_hostname: Some(iot_hub_hostname.to_owned()), ..self }
    }

    /// These settings with the node RBAC flag set to `has_nodes_rbac`; every
    /// other field is carried over.
    pub fn with_nodes_rbac(self, has_nodes_rbac: bool) -> (r: Settings)
        ensures
            r@ == set_nodes_rbac(self@, has_nodes_rbac),
    {
        Settings { has_nodes_rbac, ..self }
    }

    pub fn namespace(&self) -> (r: &str)
        ensures
            r@ == self@.namespace,
    {
        self.namespace.as_str()
    }

    pub fn iot_hub_hostname(&self) -> (r: Option<&str>)
        ensures
            r matches Some(s) ==> self@.iot_hub_hostname == Some(s@),
            r is None ==> self@.iot_hub_hostname is None,
    {
        match &self.iot_hub_hostname {
            Some(s) => Some(s.as_str()),
            None => None,
        }
    }

    pub fn proxy(&self) -> (r: &ProxySettings)
        ensures
            r@ == self@.proxy,
    {
        &self.proxy
    }

    pub fn device_id(&self) -> (r: Option<&str>)
        ensures
            r matches Some(s) ==> self@.device_id == Some(s@),
            r is None ==> self@.device_id is None,
    {
        match &self.device_id {
            Some(s) => Some(s.as_str()),
            None => None,
        }
    }

    pub fn device_hub_selector(&self) -> (r: &str)
        ensures
            r@ == self@.device_hub_selector,
    {
        self.device_hub_selector.as_str()
    }

    pub fn config_path(&self) -> (r: &str)
        ensures
            r@ == self@.config_path,
    {
        self.config_path.as_str()
    }

    pub fn config_map_name(&self) -> (r: &str)
        ensures
            r@ == self@.config_map_name,
    {
        self.config_map_name.as_str()
    }

    pub fn config_map_volume(&self) -> (r: &str)
        ensures
            r@ == self@.config_map_volume,
    {
        self.config_map_volume.as_str()
    }

    /// The workload resource requests and limits, held unexamined.
    pub fn resources(&self) -> (r: Option<&Document>)
        ensures
            r matches Some(t) ==> self@.resources == Some(t@),
            r is None ==> self@.resources is None,
    {
        self.resources.as_ref()
    }

    pub fn has_nodes_rbac(&self) -> (r: bool)
        ensures
            r == self@.has_nodes_rbac,
    {
        self.has_nodes_rbac
    }

    /// The shared runtime settings.
    pub fn base(&self) -> (r: &BaseSettings)
        ensures
            r@ == self@.base,
    {
        &self.base
    }

    /// The device's host name.
    pub fn hostname(&self) -> (r: &str)
        ensures
            r@ == self@.base.hostname,
    {
        self.base.hostname.as_str()
    }

    /// The agent's home directory.
    pub fn homedir(&self) -> (r: &str)
        ensures
            r@ == self@.base.homedir,
    {
        self.base.homedir.as_str()
    }

    /// Where the edge CA certificate is, if set.
    pub fn edge_ca_cert(&self) -> (r: Option<&str>)
        ensures
            r matches Some(s) ==> self@.base.edge_ca_cert == Some(s@),
            r is None ==> self@.base.edge_ca_cert is None,
    {
        match &self.base.edge_ca_cert {
            Some(s) => Some(s.as_str()),
            None => None,
        }
    }

    /// Where the edge CA key is, if set.
    pub fn edge_ca_key(&self) -> (r: Option<&str>)
        ensures
            r matches Some(s) ==> self@.base.edge_ca_key == Some(s@),
            r is None ==> self@.base.edge_ca_key is None,
    {
        match &self.base.edge_ca_key {
            Some(s) => Some(s.as_str()),
            None => None,
        }
    }

    /// Where the trust bundle certificate is, if set.
    pub fn trust_bundle_cert(&self) -> (r: Option<&str>)
        ensures
            r matches Some(s) ==> self@.base.trust_bundle_cert == Some(s@),
            r is None ==> self@.base.trust_bundle_cert is None,
    {
        match &self.base.trust_bundle_cert {
            Some(s) => Some(s.as_str()),
            None => None,
        }
    }

    /// When the device provisions itself again.
    pub fn auto_reprovisioning_mode(&self) -> (r: &str)
        ensures
            r@ == self@.base.auto_reprovisioning_mode,
    {
        self.base.auto_reprovisioning_mode.as_str()
    }

    /// The watchdog's settings, held unexamined.
    pub fn watchdog(&self) -> (r: &Document)
        ensures
            r@ == self@.base.watchdog,
    {
        &self.base.watchdog
    }

    /// The endpoints of the identity and key services, held unexamined.
    pub fn endpoints(&self) -> (r: &Document)
        ensures
            r@ == self@.base.endpoints,
    {
        &self.base.endpoints
    }

    /// The specification of the edge agent module, held unexamined.
    pub fn agent(&self) -> (r: &Document)
        ensures
            r@ == self@.base.agent,
    {
        &self.base.agent
    }

    /// The specification of the edge agent module, to be changed in place.
    pub fn agent_mut(&mut self) -> (r: &mut Document)
        ensures
            r@ == old(self)@.base.agent,
            final(self)@ == (SettingsModel {
                base: BaseModel { agent: final(r)@, ..old(self)@.base },
                ..old(self)@
            }),
    {
        &mut self.base.agent
    }

    /// Where the daemon's management and workload services are reached.
    pub fn connect(&self) -> (r: &Document)
        ensures
            r@ == self@.base.connect,
    {
        &self.base.connect
    }

    /// Where the daemon's management and workload services listen.
    pub fn listen(&self) -> (r: &Document)
        ensures
            r@ == self@.base.listen,
    {
        &self.base.listen
    }
}

impl ProxySettings {
    /// The registry credentials for the proxy's image, held unexamined.
    pub fn auth(&self) -> (r: Option<&Document>)
        ensures
            r matches Some(t) ==> self@.auth == Some(t@),
            r is None ==> self@.auth is None,
    {
        self.auth.as_ref()
    }

    pub fn image(&self) -> (r: &str)
        ensures
            r@ == self@.image,
    {
        self.image.as_str()
    }

    pub fn config_path(&self) -> (r: &str)
        ensures
            r@ == self@.config_path,
    {
        self.config_path.as_str()
    }

    pub fn config_map_name(&self) -> (r: &str)
        ensures
            r@ == self@.config_map_name,
    {
        self.config_map_name.as_str()
    }

    pub fn trust_bundle_path(&self) -> (r: &str)
        ensures
            r@ == self@.trust_bundle_path,
    {
        self.trust_bundle_path.as_str()
    }

    pub fn trust_bundle_config_map_name(&self) -> (r: &str)
        ensures
            r@ == self@.trust_bundle_config_map_name,
    {
        self.trust_bundle_config_map_name.as_str()
    }

    pub fn image_pull_policy(&self) -> (r: &str)
        ensures
            r@ == self@.image_pull_policy,
    {
        self.image_pull_policy.as_str()
    }

    /// The proxy's resource requests and limits, held unexamined.
    pub fn resources(&self) -> (r: Option<&Document>)
        ensures
            r matches Some(t) ==> self@.resources == Some(t@),
            r is None ==> self@.resources is None,
    {
        self.resources.as_ref()
    }
}

/// `m` with the device id set to `id`.
pub open spec fn set_device_id(m: SettingsModel, id: Seq<char>) -> SettingsModel {
    SettingsModel { device_id: Some(id), ..m }
}

/// `m` with the hub's host name set to `h`.
pub open spec fn set_iot_hub_hostname(m: SettingsModel, h: Seq<char>) -> SettingsModel {
    SettingsModel { iot_hub_hostname: Some(h), ..m }
}

/// `m` with the node RBAC flag set to `b`.
pub open spec fn set_nodes_rbac(m: SettingsModel, b: bool) -> SettingsModel {
    SettingsModel { has_nodes_rbac: b, ..m }
}

/// Setting the device id twice to one value is setting it once; setting the
/// hub's host name changes no other field, the device id included; and the
/// three overlays touch disjoint fields, so their order does not matter.
pub proof fn lemma_overlays(m: SettingsModel, id: Seq<char>, h: Seq<char>, b: bool)
    ensures
        set_device_id(set_device_id(m, id), id) == set_device_id(m, id),
        set_iot_hub_hostname(m, h) == (SettingsModel { iot_hub_hostname: Some(h), ..m }),
        set_iot_hub_hostname(m, h).device_id == m.device_id,
        set_iot_hub_hostname(set_device_id(m, id), h) == set_device_id(set_iot_hub_hostname(m, h), id),
        set_nodes_rbac(set_device_id(m, id), b) == set_device_id(set_nodes_rbac(m, b), id),
        set_nodes_rbac(set_iot_hub_hostname(m, h), b) == set_iot_hub_hostname(set_nodes_rbac(m, b), h),
{
}

/// A document that leaves out `has_nodes_rbac` decodes with the flag set;
/// one that sets it decodes with the flag as set.
pub proof fn lemma_nodes_rbac_default(d: Seq<Binding>)
    requires
        decoded(d) is Ok,
    ensures
        find(d, Field::HasNodesRbac.spec_path()) is None ==> decoded(d)->Ok_0.has_nodes_rbac,
        forall|b: bool| find(d, Field::HasNodesRbac.spec_path()) == Some(LeafView::Flag(b))
            ==> decoded(d)->Ok_0.has_nodes_rbac == b,
{
}


/// No field sits at `p`, and `p` lies below no field's path: a key unknown to
/// the settings, at the top level or inside one of their sections.
pub open spec fn unknown_path(p: KeyPath) -> bool {
    forall|f: Field| #![trigger f.spec_path()] p != f.spec_path() && !is_below(p, f.spec_path())
}

proof fn lemma_same_errors(a: Seq<Binding>, b: Seq<Binding>, fs: Seq<Field>)
    requires
        forall|f: Field| field_error(a, f) == field_error(b, f),
    ensures
        first_error_in(a, fs) == first_error_in(b, fs),
    decreases fs.len(),
{
    if fs.len() > 0 {
        lemma_same_errors(a, b, fs.subrange(1, fs.len() as int));
    }
}

/// A binding at a key unknown to the settings changes nothing that decoding
/// gives: the same error, or the same settings.
pub proof fn lemma_unknown_key_ignored(d: Seq<Binding>, b: Binding)
    requires
        unknown_path(b.0),
    ensures
        decoded(d.push(b)) == decoded(d),
{
    let e = d.push(b);
    assert(e.drop_last() =~= d);
    assert forall|f: Field| #![trigger f.spec_path()]
        find(e, f.spec_path()) == find(d, f.spec_path())
            && below(e, f.spec_path()) == below(d, f.spec_path()) by {
        assert(b.0 != f.spec_path());
        assert(!is_below(b.0, f.spec_path()));
    }
    assert forall|f: Field| field_error(e, f) == field_error(d, f) by {
        assert(find(e, f.spec_path()) == find(d, f.spec_path()));
    }
    lemma_same_errors(e, d, field_order());
    assert(model_of(e) == model_of(d)) by {
        assert(find(e, Field::Namespace.spec_path()) == find(d, Field::Namespace.spec_path()));
        assert(find(e, Field::IotHubHostname.spec_path()) == find(d, Field::IotHubHostname.spec_path()));
        assert(find(e, Field::DeviceId.spec_path()) == find(d, Field::DeviceId.spec_path()));
        assert(find(e, Field::DeviceHubSelector.spec_path()) == find(d, Field::DeviceHubSelector.spec_path()));
        assert(find(e, Field::ProxyAuth.spec_path()) == find(d, Field::ProxyAuth.spec_path()));
        assert(find(e, Field::ProxyImage.spec_path()) == find(d, Field::ProxyImage.spec_path()));
        assert(find(e, Field::ProxyImagePullPolicy.spec_path()) == find(d, Field::ProxyImagePullPolicy.spec_path()));
        assert(find(e, Field::ProxyConfigPath.spec_path()) == find(d, Field::ProxyConfigPath.spec_path()));
        assert(find(e, Field::ProxyConfigMapName.spec_path()) == find(d, Field::ProxyConfigMapName.spec_path()));
        assert(find(e, Field::ProxyTrustBundlePath.spec_path()) == find(d, Field::ProxyTrustBundlePath.spec_path()));
        assert(find(e, Field::ProxyTrustBundleConfigMapName.spec_path())
            == find(d, Field::ProxyTrustBundleConfigMapName.spec_path()));
        assert(find(e, Field::ProxyResources.spec_path()) == find(d, Field::ProxyResources.spec_path()));
        assert(find(e, Field::ConfigPath.spec_path()) == find(d, Field::ConfigPath.spec_path()));
        assert(find(e, Field::ConfigMapName.spec_path()) == find(d, Field::ConfigMapName.spec_path()));
        assert(find(e, Field::ConfigMapVolume.spec_path()) == find(d, Field::ConfigMapVolume.spec_path()));
        assert(find(e, Field::Resources.spec_path()) == find(d, Field::Resources.spec_path()));
        assert(find(e, Field::HasNodesRbac.spec_path()) == find(d, Field::HasNodesRbac.spec_path()));
        assert(find(e, Field::Hostname.spec_path()) == find(d, Field::Hostname.spec_path()));
        assert(find(e, Field::Homedir.spec_path()) == find(d, Field::Homedir.spec_path()));
        assert(find(e, Field::EdgeCaCert.spec_path()) == find(d, Field::EdgeCaCert.spec_path()));
        assert(find(e, Field::EdgeCaKey.spec_path()) == find(d, Field::EdgeCaKey.spec_path()));
        assert(find(e, Field::TrustBundleCert.spec_path()) == find(d, Field::TrustBundleCert.spec_path()));
        assert(find(e, Field::AutoReprovisioningMode.spec_path())
            == find(d, Field::AutoReprovisioningMode.spec_path()));
        assert(find(e, Field::Watchdog.spec_path()) == find(d, Field::Watchdog.spec_path()));
        assert(find(e, Field::Endpoints.spec_path()) == find(d, Field::Endpoints.spec_path()));
        assert(find(e, Field::Agent.spec_path()) == find(d, Field::Agent.spec_path()));
        assert(find(e, Field::Connect.spec_path()) == find(d, Field::Connect.spec_path()));
        assert(find(e, Field::Listen.spec_path()) == find(d, Field::Listen.spec_path()));
        assert(model_of(e).base == model_of(d).base);
        assert(model_of(e).proxy == model_of(d).proxy);
    }
}


/// A table held whole is absent or holds bindings, each with a path.
pub open spec fn table_ok(o: Option<Seq<Binding>>) -> bool {
    o matches Some(t) ==> t.len() > 0 && paths_nonempty(t)
}

/// Every binding of `t` has a path.
pub open spec fn paths_nonempty(t: Seq<Binding>) -> bool {
    forall|i: int| 0 <= i < t.len() ==> (#[trigger] t[i]).0.len() > 0
}

/// What every decoded model satisfies: its tables hold bindings with paths,
/// the optional ones are absent rather than empty, and the required ones are
/// not empty.
pub open spec fn well_formed(m: SettingsModel) -> bool {
    &&& table_ok(m.proxy.auth)
    &&& table_ok(m.proxy.resources)
    &&& table_ok(m.resources)
    &&& paths_nonempty(m.base.watchdog)
    &&& paths_nonempty(m.base.endpoints)
    &&& paths_nonempty(m.base.agent) && m.base.agent.len() > 0
    &&& paths_nonempty(m.base.connect) && m.base.connect.len() > 0
    &&& paths_nonempty(m.base.listen) && m.base.listen.len() > 0
}

pub open spec fn opt_table_seq(o: Option<Seq<Binding>>) -> Seq<Binding> {
    match o {
        Some(t) => t,
        None => Seq::empty(),
    }
}

/// What lies below the path of `f` among the tables of the written settings.
pub open spec fn table_back(m: SettingsModel, f: Field) -> Seq<Binding> {
    match f {
        Field::ProxyAuth => opt_table_seq(m.proxy.auth),
        Field::ProxyResources => opt_table_seq(m.proxy.resources),
        Field::Resources => opt_table_seq(m.resources),
        Field::Watchdog => m.base.watchdog,
        Field::Endpoints => m.base.endpoints,
        Field::Agent => m.base.agent,
        Field::Connect => m.base.connect,
        Field::Listen => m.base.listen,
        _ => Seq::empty(),
    }
}

/// A path of one or two keys, the first `proxy` where there are two.
pub open spec fn short_path(q: KeyPath) -> bool {
    &&& 1 <= q.len() <= 2
    &&& q.len() == 2 ==> q[0] == "proxy"@
}

proof fn lemma_field_shape(f: Field)
    ensures
        short_path(f.spec_path()),
{
    match f {
        _ => {},
    }
}

proof fn lemma_find_prefixed_none(t: Seq<Binding>, pre: KeyPath, p: KeyPath)
    requires
        paths_nonempty(t),
        p.len() <= pre.len() || (pre.len() > 0 && p.len() > 0 && p[0] != pre[0]),
    ensures
        find(prefixed(t, pre), p) is None,
{
    let d = prefixed(t, pre);
    assert forall|i: int| 0 <= i < d.len() implies d[i].0 != p by {
        assert(d[i].0 == pre + t[i].0);
        assert(t[i].0.len() > 0);
        if pre.len() > 0 {
            assert((pre + t[i].0)[0] == pre[0]);
        }
    }
    lemma_find_absent(d, p);
}

proof fn lemma_find_tables(m: SettingsModel, f: Field)
    requires
        well_formed(m),
    ensures
        find(table_part(m), f.spec_path()) is None,
{
    let p = f.spec_path();
    lemma_field_shape(f);
    lemma_all_keys_distinct();
    let a = table_bindings(Field::ProxyAuth, m.proxy.auth);
    let b = table_bindings(Field::ProxyResources, m.proxy.resources);
    let c = table_bindings(Field::Resources, m.resources);
    let w = prefixed(m.base.watchdog, Field::Watchdog.spec_path());
    let e = prefixed(m.base.endpoints, Field::Endpoints.spec_path());
    let g = prefixed(m.base.agent, Field::Agent.spec_path());
    let k = prefixed(m.base.connect, Field::Connect.spec_path());
    let l = prefixed(m.base.listen, Field::Listen.spec_path());
    if let Some(t) = m.proxy.auth {
        lemma_find_prefixed_none(t, Field::ProxyAuth.spec_path(), p);
    } else {
        lemma_find_absent(a, p);
    }
    if let Some(t) = m.proxy.resources {
        lemma_find_prefixed_none(t, Field::ProxyResources.spec_path(), p);
    } else {
        lemma_find_absent(b, p);
    }
    if let Some(t) = m.resources {
        lemma_find_prefixed_none(t, Field::Resources.spec_path(), p);
    } else {
        lemma_find_absent(c, p);
    }
    lemma_find_prefixed_none(m.base.watchdog, Field::Watchdog.spec_path(), p);
    lemma_find_prefixed_none(m.base.endpoints, Field::Endpoints.spec_path(), p);
    lemma_find_prefixed_none(m.base.agent, Field::Agent.spec_path(), p);
    lemma_find_prefixed_none(m.base.connect, Field::Connect.spec_path(), p);
    lemma_find_prefixed_none(m.base.listen, Field::Listen.spec_path(), p);
    lemma_find_concat(a, b, p);
    lemma_find_concat(a + b, c, p);
    lemma_find_concat(a + b + c, w, p);
    lemma_find_concat(a + b + c + w, e, p);
    lemma_find_concat(a + b + c + w + e, g, p);
    lemma_find_concat(a + b + c + w + e + g, k, p);
    lemma_find_concat(a + b + c + w + e + g + k, l, p);
}

/// What the own part and the base part bind at the path of `f`.
pub open spec fn own_value(m: SettingsModel, f: Field) -> Option<LeafView> {
    match f {
        Field::Namespace => Some(LeafView::Text(m.namespace)),
        Field::IotHubHostname => match m.iot_hub_hostname {
            Some(h) => Some(LeafView::Text(h)),
            None => None,
        },
        Field::DeviceId => match m.device_id {
            Some(h) => Some(LeafView::Text(h)),
            None => None,
        },
        Field::DeviceHubSelector => Some(LeafView::Text(m.device_hub_selector)),
        Field::ProxyImage => Some(LeafView::Text(m.proxy.image)),
        Field::ProxyImagePullPolicy => Some(LeafView::Text(m.proxy.image_pull_policy)),
        Field::ProxyConfigPath => Some(LeafView::Text(m.proxy.config_path)),
        Field::ProxyConfigMapName => Some(LeafView::Text(m.proxy.config_map_name)),
        Field::ProxyTrustBundlePath => Some(LeafView::Text(m.proxy.trust_bundle_path)),
        Field::ProxyTrustBundleConfigMapName => Some(LeafView::Text(m.proxy.trust_bundle_config_map_name)),
        Field::ConfigPath => Some(LeafView::Text(m.config_path)),
        Field::ConfigMapName => Some(LeafView::Text(m.config_map_name)),
        Field::ConfigMapVolume => Some(LeafView::Text(m.config_map_volume)),
        Field::HasNodesRbac => Some(LeafView::Flag(m.has_nodes_rbac)),
        _ => None,
    }
}

/// What the base part binds at the path of `f`.
pub open spec fn base_value(m: SettingsModel, f: Field) -> Option<LeafView> {
    match f {
        Field::Hostname => Some(LeafView::Text(m.base.hostname)),
        Field::Homedir => Some(LeafView::Text(m.base.homedir)),
        Field::EdgeCaCert => match m.base.edge_ca_cert {
            Some(h) => Some(LeafView::Text(h)),
            None => None,
        },
        Field::EdgeCaKey => match m.base.edge_ca_key {
            Some(h) => Some(LeafView::Text(h)),
            None => None,
        },
        Field::TrustBundleCert => match m.base.trust_bundle_cert {
            Some(h) => Some(LeafView::Text(h)),
            None => None,
        },
        Field::AutoReprovisioningMode => Some(LeafView::Text(m.base.auto_reprovisioning_mode)),
        _ => None,
    }
}

proof fn lemma_find_single(x: Seq<Binding>, p: KeyPath)
    requires
        x.len() == 1,
    ensures
        find(x, p) == (if x[0].0 == p { Some(x[0].1) } else { None }),
{
    assert(x.drop_last() =~= Seq::<Binding>::empty());
    reveal_with_fuel(find, 2);
}

proof fn lemma_find_opt(f: Field, o: Option<Seq<char>>, p: KeyPath)
    ensures
        find(opt_text_bindings(f, o), p) == (match o {
            Some(s) => if f.spec_path() == p { Some(LeafView::Text(s)) } else { None },
            None => None,
        }),
{
    match o {
        Some(s) => lemma_find_single(opt_text_bindings(f, o), p),
        None => {},
    }
}

#[verifier::spinoff_prover]
#[verifier::rlimit(100)]
proof fn lemma_find_own(m: SettingsModel, f: Field)
    ensures
        find(own_part(m), f.spec_path()) == own_value(m, f),
{
    let p = f.spec_path();
    let x0 = seq![text_binding(Field::Namespace, m.namespace)];
    let x1 = opt_text_bindings(Field::IotHubHostname, m.iot_hub_hostname);
    let x2 = opt_text_bindings(Field::DeviceId, m.device_id);
    let y0 = seq![text_binding(Field::DeviceHubSelector, m.device_hub_selector)];
    let y1 = seq![text_binding(Field::ProxyImage, m.proxy.image)];
    let y2 = seq![text_binding(Field::ProxyImagePullPolicy, m.proxy.image_pull_policy)];
    let y3 = seq![text_binding(Field::ProxyConfigPath, m.proxy.config_path)];
    let y4 = seq![text_binding(Field::ProxyConfigMapName, m.proxy.config_map_name)];
    let y5 = seq![text_binding(Field::ProxyTrustBundlePath, m.proxy.trust_bundle_path)];
    let y6 = seq![text_binding(Field::ProxyTrustBundleConfigMapName, m.proxy.trust_bundle_config_map_name)];
    let y7 = seq![text_binding(Field::ConfigPath, m.config_path)];
    let y8 = seq![text_binding(Field::ConfigMapName, m.config_map_name)];
    let y9 = seq![text_binding(Field::ConfigMapVolume, m.config_map_volume)];
    let y10 = seq![(Field::HasNodesRbac.spec_path(), LeafView::Flag(m.has_nodes_rbac))];
    assert(own_part(m) =~= x0 + x1 + x2 + y0 + y1 + y2 + y3 + y4 + y5 + y6 + y7 + y8 + y9 + y10);
    lemma_find_single(x0, p);
    lemma_find_opt(Field::IotHubHostname, m.iot_hub_hostname, p);
    lemma_find_opt(Field::DeviceId, m.device_id, p);
    lemma_find_single(y0, p);
    lemma_find_single(y1, p);
    lemma_find_single(y2, p);
    lemma_find_single(y3, p);
    lemma_find_single(y4, p);
    lemma_find_single(y5, p);
    lemma_find_single(y6, p);
    lemma_find_single(y7, p);
    lemma_find_single(y8, p);
    lemma_find_single(y9, p);
    lemma_find_single(y10, p);
    lemma_find_concat(x0, x1, p);
    lemma_find_concat(x0 + x1, x2, p);
    lemma_find_concat(x0 + x1 + x2, y0, p);
    lemma_find_concat(x0 + x1 + x2 + y0, y1, p);
    lemma_find_concat(x0 + x1 + x2 + y0 + y1, y2, p);
    lemma_find_concat(x0 + x1 + x2 + y0 + y1 + y2, y3, p);
    lemma_find_concat(x0 + x1 + x2 + y0 + y1 + y2 + y3, y4, p);
    lemma_find_concat(x0 + x1 + x2 + y0 + y1 + y2 + y3 + y4, y5, p);
    lemma_find_concat(x0 + x1 + x2 + y0 + y1 + y2 + y3 + y4 + y5, y6, p);
    lemma_find_concat(x0 + x1 + x2 + y0 + y1 + y2 + y3 + y4 + y5 + y6, y7, p);
    lemma_find_concat(x0 + x1 + x2 + y0 + y1 + y2 + y3 + y4 + y5 + y6 + y7, y8, p);
    lemma_find_concat(x0 + x1 + x2 + y0 + y1 + y2 + y3 + y4 + y5 + y6 + y7 + y8, y9, p);
    lemma_find_concat(x0 + x1 + x2 + y0 + y1 + y2 + y3 + y4 + y5 + y6 + y7 + y8 + y9, y10, p);
    lemma_all_keys_distinct();
    match f {
        Field::Namespace => {
            assert(Field::IotHubHostname.spec_path()[0] != p[0]); assert(Field::IotHubHostname.spec_path().len() != p.len() || Field::IotHubHostname.spec_path() != p); assert(Field::IotHubHostname.spec_path() != p); assert(find(x1, p) is None);
            assert(Field::DeviceId.spec_path()[0] != p[0]); assert(Field::DeviceId.spec_path().len() != p.len() || Field::DeviceId.spec_path() != p); assert(Field::DeviceId.spec_path() != p); assert(find(x2, p) is None);
            assert(Field::DeviceHubSelector.spec_path()[0] != p[0]); assert(Field::DeviceHubSelector.spec_path().len() != p.len() || Field::DeviceHubSelector.spec_path() != p); assert(Field::DeviceHubSelector.spec_path() != p); assert(find(y0, p) is None);
            assert(Field::ProxyImage.spec_path().len() != p.len() || Field::ProxyImage.spec_path() != p); assert(Field::ProxyImage.spec_path() != p); assert(find(y1, p) is None);
            assert(Field::ProxyImagePullPolicy.spec_path().len() != p.len() || Field::ProxyImagePullPolicy.spec_path() != p); assert(Field::ProxyImagePullPolicy.spec_path() != p); assert(find(y2, p) is None);
            assert(Field::ProxyConfigPath.spec_path().len() != p.len() || Field::ProxyConfigPath.spec_path() != p); assert(Field::ProxyConfigPath.spec_path() != p); assert(find(y3, p) is None);
            assert(Field::ProxyConfigMapName.spec_path().len() != p.len() || Field::ProxyConfigMapName.spec_path() != p); assert(Field::ProxyConfigMapName.spec_path() != p); assert(find(y4, p) is None);
            assert(Field::ProxyTrustBundlePath.spec_path().len() != p.len() || Field::ProxyTrustBundlePath.spec_path() != p); assert(Field::ProxyTrustBundlePath.spec_path() != p); assert(find(y5, p) is None);
            assert(Field::ProxyTrustBundleConfigMapName.spec_path().len() != p.len() || Field::ProxyTrustBundleConfigMapName.spec_path() != p); assert(Field::ProxyTrustBundleConfigMapName.spec_path() != p); assert(find(y6, p) is None);
            assert(Field::ConfigPath.spec_path()[0] != p[0]); assert(Field::ConfigPath.spec_path().len() != p.len() || Field::ConfigPath.spec_path() != p); assert(Field::ConfigPath.spec_path() != p); assert(find(y7, p) is None);
            assert(Field::ConfigMapName.spec_path()[0] != p[0]); assert(Field::ConfigMapName.spec_path().len() != p.len() || Field::ConfigMapName.spec_path() != p); assert(Field::ConfigMapName.spec_path() != p); assert(find(y8, p) is None);
            assert(Field::ConfigMapVolume.spec_path()[0] != p[0]); assert(Field::ConfigMapVolume.spec_path().len() != p.len() || Field::ConfigMapVolume.spec_path() != p); assert(Field::ConfigMapVolume.spec_path() != p); assert(find(y9, p) is None);
            assert(Field::HasNodesRbac.spec_path()[0] != p[0]); assert(Field::HasNodesRbac.spec_path().len() != p.len() || Field::HasNodesRbac.spec_path() != p); assert(Field::HasNodesRbac.spec_path() != p); assert(find(y10, p) is None);
            assert(find(x0 + x1, p) == find(x0, p));
            assert(find(x0 + x1 + x2, p) == find(x0, p));
            assert(find(x0 + x1 + x2 + y0, p) == find(x0, p));
            assert(find(x0 + x1 + x2 + y0 + y1, p) == find(x0, p));
            assert(find(x0 + x1 + x2 + y0 + y1 + y2, p) == find(x0, p));
            assert(find(x0 + x1 + x2 + y0 + y1 + y2 + y3, p) == find(x0, p));
            assert(find(x0 + x1 + x2 + y0 + y1 + y2 + y3 + y4, p) == find(x0, p));
            assert(find(x0 + x1 + x2 + y0 + y1 + y2 + y3 + y4 + y5, p) == find(x0, p));
            assert(find(x0 + x1 + x2 + y0 + y1 + y2 + y3 + y4 + y5 + y6, p) == find(x0, p));
            assert(find(x0 + x1 + x2 + y0 + y1 + y2 + y3 + y4 + y5 + y6 + y7, p) == find(x0, p));
            assert(find(x0 + x1 + x2 + y0 + y1 + y2 + y3 + y4 + y5 + y6 + y7 + y8, p) == find(x0, p));
            assert(find(x0 + x1 + x2 + y0 + y1 + y2 + y3 + y4 + y5 + y6 + y7 + y8 + y9, p) == find(x0, p));
            assert(find(x0 + x1 + x2 + y0 + y1 + y2 + y3 + y4 + y5 + y6 + y7 + y8 + y9 + y10, p) == find(x0, p));
        },
        Field::IotHubHostname => {
            assert(Field::Namespace.spec_path()[0] != p[0]); assert(Field::Namespace.spec_path().len() != p.len() || Field::Namespace.spec_path() != p); assert(Field::Namespace.spec_path() != p); assert(find(x0, p) is None);
            assert(Field::DeviceId.spec_path()[0] != p[0]); assert(Field::DeviceId.spec_path().len() != p.len() || Field::DeviceId.spec_path() != p); assert(Field::DeviceId.spec_path() != p); assert(find(x2, p) is None);
            assert(Field::DeviceHubSelector.spec_path()[0] != p[0]); assert(Field::DeviceHubSelector.spec_path().len() != p.len() || Field::DeviceHubSelector.spec_path() != p); assert(Field::DeviceHubSelector.spec_path() != p); assert(find(y0, p) is None);
            assert(Field::ProxyImage.spec_path().len() != p.len() || Field::ProxyImage.spec_path() != p); assert(Field::ProxyImage.spec_path() != p); assert(find(y1, p) is None);
            assert(Field::ProxyImagePullPolicy.spec_path().len() != p.len() || Field::ProxyImagePullPolicy.spec_path() != p); assert(Field::ProxyImagePullPolicy.spec_path() != p); assert(find(y2, p) is None);
            assert(Field::ProxyConfigPath.spec_path().len() != p.len() || Field::ProxyConfigPath.spec_path() != p); assert(Field::ProxyConfigPath.spec_path() != p); assert(find(y3, p) is None);
            assert(Field::ProxyConfigMapName.spec_path().len() != p.len() || Field::ProxyConfigMapName.spec_path() != p); assert(Field::ProxyConfigMapName.spec_path() != p); assert(find(y4, p) is None);
            assert(Field::ProxyTrustBundlePath.spec_path().len() != p.len() || Field::ProxyTrustBundlePath.spec_path() != p); assert(Field::ProxyTrustBundlePath.spec_path() != p); assert(find(y5, p) is None);
            assert(Field::ProxyTrustBundleConfigMapName.spec_path().len() != p.len() || Field::ProxyTrustBundleConfigMapName.spec_path() != p); assert(Field::ProxyTrustBundleConfigMapName.spec_path() != p); assert(find(y6, p) is None);
            assert(Field::ConfigPath.spec_path()[0] != p[0]); assert(Field::ConfigPath.spec_path().len() != p.len() || Field::ConfigPath.spec_path() != p); assert(Field::ConfigPath.spec_path() != p); assert(find(y7, p) is None);
            assert(Field::ConfigMapName.spec_path()[0] != p[0]); assert(Field::ConfigMapName.spec_path().len() != p.len() || Field::ConfigMapName.spec_path() != p); assert(Field::ConfigMapName.spec_path() != p); assert(find(y8, p) is None);
            assert(Field::ConfigMapVolume.spec_path()[0] != p[0]); assert(Field::ConfigMapVolume.spec_path().len() != p.len() || Field::ConfigMapVolume.spec_path() != p); assert(Field::ConfigMapVolume.spec_path() != p); assert(find(y9, p) is None);
            assert(Field::HasNodesRbac.spec_path()[0] != p[0]); assert(Field::HasNodesRbac.spec_path().len() != p.len() || Field::HasNodesRbac.spec_path() != p); assert(Field::HasNodesRbac.spec_path() != p); assert(find(y10, p) is None);
            assert(find(x0 + x1, p) == find(x1, p));
            assert(find(x0 + x1 + x2, p) == find(x1, p));
            assert(find(x0 + x1 + x2 + y0, p) == find(x1, p));
            assert(find(x0 + x1 + x2 + y0 + y1, p) == find(x1, p));
            assert(find(x0 + x1 + x2 + y0 + y1 + y2, p) == find(x1, p));
            assert(find(x0 + x1 + x2 + y0 + y1 + y2 + y3, p) == find(x1, p));
            assert(find(x0 + x1 + x2 + y0 + y1 + y2 + y3 + y4, p) == find(x1, p));
            assert(find(x0 + x1 + x2 + y0 + y1 + y2 + y3 + y4 + y5, p) == find(x1, p));
            assert(find(x0 + x1 + x2 + y0 + y1 + y2 + y3 + y4 + y5 + y6, p) == find(x1, p));
            assert(find(x0 + x1 + x2 + y0 + y1 + y2 + y3 + y4 + y5 + y6 + y7, p) == find(x1, p));
            assert(find(x0 + x1 + x2 + y0 + y1 + y2 + y3 + y4 + y5 + y6 + y7 + y8, p) == find(x1, p));
            assert(find(x0 + x1 + x2 + y0 + y1 + y2 + y3 + y4 + y5 + y6 + y7 + y8 + y9, p) == find(x1, p));
            assert(find(x0 + x1 + x2 + y0 + y1 + y2 + y3 + y4 + y5 + y6 + y7 + y8 + y9 + y10, p) == find(x1, p));
        },
        Field::DeviceId => {
            assert(Field::Namespace.spec_path()[0] != p[0]); assert(Field::Namespace.spec_path().len() != p.len() || Field::Namespace.spec_path() != p); assert(Field::Namespace.spec_path() != p); assert(find(x0, p) is None);
            assert(Field::IotHubHostname.spec_path()[0] != p[0]); assert(Field::IotHubHostname.spec_path().len() != p.len() || Field::IotHubHostname.spec_path() != p); assert(Field::IotHubHostname.spec_path() != p); assert(find(x1, p) is None);
            assert(Field::DeviceHubSelector.spec_path()[0] != p[0]); assert(Field::DeviceHubSelector.spec_path().len() != p.len() || Field::DeviceHubSelector.spec_path() != p); assert(Field::DeviceHubSelector.spec_path() != p); assert(find(y0, p) is None);
            assert(Field::ProxyImage.spec_path().len() != p.len() || Field::ProxyImage.spec_path() != p); assert(Field::ProxyImage.spec_path() != p); assert(find(y1, p) is None);
            assert(Field::ProxyImagePullPolicy.spec_path().len() != p.len() || Field::ProxyImagePullPolicy.spec_path() != p); assert(Field::ProxyImagePullPolicy.spec_path() != p); assert(find(y2, p) is None);
            assert(Field::ProxyConfigPath.spec_path().len() != p.len() || Field::ProxyConfigPath.spec_path() != p); assert(Field::ProxyConfigPath.spec_path() != p); assert(find(y3, p) is None);
            assert(Field::ProxyConfigMapName.spec_path().len() != p.len() || Field::ProxyConfigMapName.spec_path() != p); assert(Field::ProxyConfigMapName.spec_path() != p); assert(find(y4, p) is None);
            assert(Field::ProxyTrustBundlePath.spec_path().len() != p.len() || Field::ProxyTrustBundlePath.spec_path() != p); assert(Field::ProxyTrustBundlePath.spec_path() != p); assert(find(y5, p) is None);
            assert(Field::ProxyTrustBundleConfigMapName.spec_path().len() != p.len() || Field::ProxyTrustBundleConfigMapName.spec_path() != p); assert(Field::ProxyTrustBundleConfigMapName.spec_path() != p); assert(find(y6, p) is None);
            assert(Field::ConfigPath.spec_path()[0] != p[0]); assert(Field::ConfigPath.spec_path().len() != p.len() || Field::ConfigPath.spec_path() != p); assert(Field::ConfigPath.spec_path() != p); assert(find(y7, p) is None);
            assert(Field::ConfigMapName.spec_path()[0] != p[0]); assert(Field::ConfigMapName.spec_path().len() != p.len() || Field::ConfigMapName.spec_path() != p); assert(Field::ConfigMapName.spec_path() != p); assert(find(y8, p) is None);
            assert(Field::ConfigMapVolume.spec_path()[0] != p[0]); assert(Field::ConfigMapVolume.spec_path().len() != p.len() || Field::ConfigMapVolume.spec_path() != p); assert(Field::ConfigMapVolume.spec_path() != p); assert(find(y9, p) is None);
            assert(Field::HasNodesRbac.spec_path()[0] != p[0]); assert(Field::HasNodesRbac.spec_path().len() != p.len() || Field::HasNodesRbac.spec_path() != p); assert(Field::HasNodesRbac.spec_path() != p); assert(find(y10, p) is None);
            assert(find(x0 + x1, p) is None);
            assert(find(x0 + x1 + x2, p) == find(x2, p));
            assert(find(x0 + x1 + x2 + y0, p) == find(x2, p));
            assert(find(x0 + x1 + x2 + y0 + y1, p) == find(x2, p));
            assert(find(x0 + x1 + x2 + y0 + y1 + y2, p) == find(x2, p));
            assert(find(x0 + x1 + x2 + y0 + y1 + y2 + y3, p) == find(x2, p));
            assert(find(x0 + x1 + x2 + y0 + y1 + y2 + y3 + y4, p) == find(x2, p));
            assert(find(x0 + x1 + x2 + y0 + y1 + y2 + y3 + y4 + y5, p) == find(x2, p));
            assert(find(x0 + x1 + x2 + y0 + y1 + y2 + y3 + y4 + y5 + y6, p) == find(x2, p));
            assert(find(x0 + x1 + x2 + y0 + y1 + y2 + y3 + y4 + y5 + y6 + y7, p) == find(x2, p));
            assert(find(x0 + x1 + x2 + y0 + y1 + y2 + y3 + y4 + y5 + y6 + y7 + y8, p) == find(x2, p));
            assert(find(x0 + x1 + x2 + y0 + y1 + y2 + y3 + y4 + y5 + y6 + y7 + y8 + y9, p) == find(x2, p));
            assert(find(x0 + x1 + x2 + y0 + y1 + y2 + y3 + y4 + y5 + y6 + y7 + y8 + y9 + y10, p) == find(x2, p));
        },
        Field::DeviceHubSelector => {
            assert(Field::Namespace.spec_path()[0] != p[0]); assert(Field::Namespace.spec_path().len() != p.len() || Field::Namespace.spec_path() != p); assert(Field::Namespace.spec_path() != p); assert(find(x0, p) is None);
            assert(Field::IotHubHostname.spec_path()[0] != p[0]); assert(Field::IotHubHostname.spec_path().len() != p.len() || Field::IotHubHostname.spec_path() != p); assert(Field::IotHubHostname.spec_path() != p); assert(find(x1, p) is None);
            assert(Field::DeviceId.spec_path()[0] != p[0]); assert(Field::DeviceId.spec_path().len() != p.len() || Field::DeviceId.spec_path() != p); assert(Field::DeviceId.spec_path() != p); assert(find(x2, p) is None);
            assert(Field::ProxyImage.spec_path().len() != p.len() || Field::ProxyImage.spec_path() != p); assert(Field::ProxyImage.spec_path() != p); assert(find(y1, p) is None);
            assert(Field::ProxyImagePullPolicy.spec_path().len() != p.len() || Field::ProxyImagePullPolicy.spec_path() != p); assert(Field::ProxyImagePullPolicy.spec_path() != p); assert(find(y2, p) is None);
            assert(Field::ProxyConfigPath.spec_path().len() != p.len() || Field::ProxyConfigPath.spec_path() != p); assert(Field::ProxyConfigPath.spec_path() != p); assert(find(y3, p) is None);
            assert(Field::ProxyConfigMapName.spec_path().len() != p.len() || Field::ProxyConfigMapName.spec_path() != p); assert(Field::ProxyConfigMapName.spec_path() != p); assert(find(y4, p) is None);
            assert(Field::ProxyTrustBundlePath.spec_path().len() != p.len() || Field::ProxyTrustBundlePath.spec_path() != p); assert(Field::ProxyTrustBundlePath.spec_path() != p); assert(find(y5, p) is None);
            assert(Field::ProxyTrustBundleConfigMapName.spec_path().len() != p.len() || Field::ProxyTrustBundleConfigMapName.spec_path() != p); assert(Field::ProxyTrustBundleConfigMapName.spec_path() != p); assert(find(y6, p) is None);
            assert(Field::ConfigPath.spec_path()[0] != p[0]); assert(Field::ConfigPath.spec_path().len() != p.len() || Field::ConfigPath.spec_path() != p); assert(Field::ConfigPath.spec_path() != p); assert(find(y7, p) is None);
            assert(Field::ConfigMapName.spec_path()[0] != p[0]); assert(Field::ConfigMapName.spec_path().len() != p.len() || Field::ConfigMapName.spec_path() != p); assert(Field::ConfigMapName.spec_path() != p); assert(find(y8, p) is None);
            assert(Field::ConfigMapVolume.spec_path()[0] != p[0]); assert(Field::ConfigMapVolume.spec_path().len() != p.len() || Field::ConfigMapVolume.spec_path() != p); assert(Field::ConfigMapVolume.spec_path() != p); assert(find(y9, p) is None);
            assert(Field::HasNodesRbac.spec_path()[0] != p[0]); assert(Field::HasNodesRbac.spec_path().len() != p.len() || Field::HasNodesRbac.spec_path() != p); assert(Field::HasNodesRbac.spec_path() != p); assert(find(y10, p) is None);
            assert(find(x0 + x1, p) is None);
            assert(find(x0 + x1 + x2, p) is None);
            assert(find(x0 + x1 + x2 + y0, p) == find(y0, p));
            assert(find(x0 + x1 + x2 + y0 + y1, p) == find(y0, p));
            assert(find(x0 + x1 + x2 + y0 + y1 + y2, p) == find(y0, p));
            assert(find(x0 + x1 + x2 + y0 + y1 + y2 + y3, p) == find(y0, p));
            assert(find(x0 + x1 + x2 + y0 + y1 + y2 + y3 + y4, p) == find(y0, p));
            assert(find(x0 + x1 + x2 + y0 + y1 + y2 + y3 + y4 + y5, p) == find(y0, p));
            assert(find(x0 + x1 + x2 + y0 + y1 + y2 + y3 + y4 + y5 + y6, p) == find(y0, p));
            assert(find(x0 + x1 + x2 + y0 + y1 + y2 + y3 + y4 + y5 + y6 + y7, p) == find(y0, p));
            assert(find(x0 + x1 + x2 + y0 + y1 + y2 + y3 + y4 + y5 + y6 + y7 + y8, p) == find(y0, p));
            assert(find(x0 + x1 + x2 + y0 + y1 + y2 + y3 + y4 + y5 + y6 + y7 + y8 + y9, p) == find(y0, p));
            assert(find(x0 + x1 + x2 + y0 + y1 + y2 + y3 + y4 + y5 + y6 + y7 + y8 + y9 + y10, p) == find(y0, p));
        },
        Field::Proxy => {
            assert(Field::Namespace.spec_path()[0] != p[0]); assert(Field::Namespace.spec_path().len() != p.len() || Field::Namespace.spec_path() != p); assert(Field::Namespace.spec_path() != p); assert(find(x0, p) is None);
            assert(Field::IotHubHostname.spec_path()[0] != p[0]); assert(Field::IotHubHostname.spec_path().len() != p.len() || Field::IotHubHostname.spec_path() != p); assert(Field::IotHubHostname.spec_path() != p); assert(find(x1, p) is None);
            assert(Field::DeviceId.spec_path()[0] != p[0]); assert(Field::DeviceId.spec_path().len() != p.len() || Field::DeviceId.spec_path() != p); assert(Field::DeviceId.spec_path() != p); assert(find(x2, p) is None);
            assert(Field::DeviceHubSelector.spec_path()[0] != p[0]); assert(Field::DeviceHubSelector.spec_path().len() != p.len() || Field::DeviceHubSelector.spec_path() != p); assert(Field::DeviceHubSelector.spec_path() != p); assert(find(y0, p) is None);
            assert(Field::ProxyImage.spec_path().len() != p.len() || Field::ProxyImage.spec_path() != p); assert(Field::ProxyImage.spec_path() != p); assert(find(y1, p) is None);
            assert(Field::ProxyImagePullPolicy.spec_path().len() != p.len() || Field::ProxyImagePullPolicy.spec_path() != p); assert(Field::ProxyImagePullPolicy.spec_path() != p); assert(find(y2, p) is None);
            assert(Field::ProxyConfigPath.spec_path().len() != p.len() || Field::ProxyConfigPath.spec_path() != p); assert(Field::ProxyConfigPath.spec_path() != p); assert(find(y3, p) is None);
            assert(Field::ProxyConfigMapName.spec_path().len() != p.len() || Field::ProxyConfigMapName.spec_path() != p); assert(Field::ProxyConfigMapName.spec_path() != p); assert(find(y4, p) is None);
            assert(Field::ProxyTrustBundlePath.spec_path().len() != p.len() || Field::ProxyTrustBundlePath.spec_path() != p); assert(Field::ProxyTrustBundlePath.spec_path() != p); assert(find(y5, p) is None);
            assert(Field::ProxyTrustBundleConfigMapName.spec_path().len() != p.len() || Field::ProxyTrustBundleConfigMapName.spec_path() != p); assert(Field::ProxyTrustBundleConfigMapName.spec_path() != p); assert(find(y6, p) is None);
            assert(Field::ConfigPath.spec_path()[0] != p[0]); assert(Field::ConfigPath.spec_path().len() != p.len() || Field::ConfigPath.spec_path() != p); assert(Field::ConfigPath.spec_path() != p); assert(find(y7, p) is None);
            assert(Field::ConfigMapName.spec_path()[0] != p[0]); assert(Field::ConfigMapName.spec_path().len() != p.len() || Field::ConfigMapName.spec_path() != p); assert(Field::ConfigMapName.spec_path() != p); assert(find(y8, p) is None);
            assert(Field::ConfigMapVolume.spec_path()[0] != p[0]); assert(Field::ConfigMapVolume.spec_path().len() != p.len() || Field::ConfigMapVolume.spec_path() != p); assert(Field::ConfigMapVolume.spec_path() != p); assert(find(y9, p) is None);
            assert(Field::HasNodesRbac.spec_path()[0] != p[0]); assert(Field::HasNodesRbac.spec_path().len() != p.len() || Field::HasNodesRbac.spec_path() != p); assert(Field::HasNodesRbac.spec_path() != p); assert(find(y10, p) is None);
            assert(find(x0 + x1, p) is None);
            assert(find(x0 + x1 + x2, p) is None);
            assert(find(x0 + x1 + x2 + y0, p) is None);
            assert(find(x0 + x1 + x2 + y0 + y1, p) is None);
            assert(find(x0 + x1 + x2 + y0 + y1 + y2, p) is None);
            assert(find(x0 + x1 + x2 + y0 + y1 + y2 + y3, p) is None);
            assert(find(x0 + x1 + x2 + y0 + y1 + y2 + y3 + y4, p) is None);
            assert(find(x0 + x1 + x2 + y0 + y1 + y2 + y3 + y4 + y5, p) is None);
            assert(find(x0 + x1 + x2 + y0 + y1 + y2 + y3 + y4 + y5 + y6, p) is None);
            assert(find(x0 + x1 + x2 + y0 + y1 + y2 + y3 + y4 + y5 + y6 + y7, p) is None);
            assert(find(x0 + x1 + x2 + y0 + y1 + y2 + y3 + y4 + y5 + y6 + y7 + y8, p) is None);
            assert(find(x0 + x1 + x2 + y0 + y1 + y2 + y3 + y4 + y5 + y6 + y7 + y8 + y9, p) is None);
            assert(find(x0 + x1 + x2 + y0 + y1 + y2 + y3 + y4 + y5 + y6 + y7 + y8 + y9 + y10, p) is None);
        },
        Field::ProxyAuth => {
            assert(Field::Namespace.spec_path().len() != p.len() || Field::Namespace.spec_path() != p); assert(Field::Namespace.spec_path() != p); assert(find(x0, p) is None);
            assert(Field::IotHubHostname.spec_path().len() != p.len() || Field::IotHubHostname.spec_path() != p); assert(Field::IotHubHostname.spec_path() != p); assert(find(x1, p) is None);
            assert(Field::DeviceId.spec_path().len() != p.len() || Field::DeviceId.spec_path() != p); assert(Field::DeviceId.spec_path() != p); assert(find(x2, p) is None);
            assert(Field::DeviceHubSelector.spec_path().len() != p.len() || Field::DeviceHubSelector.spec_path() != p); assert(Field::DeviceHubSelector.spec_path() != p); assert(find(y0, p) is None);
            assert(Field::ProxyImage.spec_path()[1] != p[1]); assert(Field::ProxyImage.spec_path().len() != p.len() || Field::ProxyImage.spec_path() != p); assert(Field::ProxyImage.spec_path() != p); assert(find(y1, p) is None);
            assert(Field::ProxyImagePullPolicy.spec_path()[1] != p[1]); assert(Field::ProxyImagePullPolicy.spec_path().len() != p.len() || Field::ProxyImagePullPolicy.spec_path() != p); assert(Field::ProxyImagePullPolicy.spec_path() != p); assert(find(y2, p) is None);
            assert(Field::ProxyConfigPath.spec_path()[1] != p[1]); assert(Field::ProxyConfigPath.spec_path().len() != p.len() || Field::ProxyConfigPath.spec_path() != p); assert(Field::ProxyConfigPath.spec_path() != p); assert(find(y3, p) is None);
            assert(Field::ProxyConfigMapName.spec_path()[1] != p[1]); assert(Field::ProxyConfigMapName.spec_path().len() != p.len() || Field::ProxyConfigMapName.spec_path() != p); assert(Field::ProxyConfigMapName.spec_path() != p); assert(find(y4, p) is None);
            assert(Field::ProxyTrustBundlePath.spec_path()[1] != p[1]); assert(Field::ProxyTrustBundlePath.spec_path().len() != p.len() || Field::ProxyTrustBundlePath.spec_path() != p); assert(Field::ProxyTrustBundlePath.spec_path() != p); assert(find(y5, p) is None);
            assert(Field::ProxyTrustBundleConfigMapName.spec_path()[1] != p[1]); assert(Field::ProxyTrustBundleConfigMapName.spec_path().len() != p.len() || Field::ProxyTrustBundleConfigMapName.spec_path() != p); assert(Field::ProxyTrustBundleConfigMapName.spec_path() != p); assert(find(y6, p) is None);
            assert(Field::ConfigPath.spec_path().len() != p.len() || Field::ConfigPath.spec_path() != p); assert(Field::ConfigPath.spec_path() != p); assert(find(y7, p) is None);
            assert(Field::ConfigMapName.spec_path().len() != p.len() || Field::ConfigMapName.spec_path() != p); assert(Field::ConfigMapName.spec_path() != p); assert(find(y8, p) is None);
            assert(Field::ConfigMapVolume.spec_path().len() != p.len() || Field::ConfigMapVolume.spec_path() != p); assert(Field::ConfigMapVolume.spec_path() != p); assert(find(y9, p) is None);
            assert(Field::HasNodesRbac.spec_path().len() != p.len() || Field::HasNodesRbac.spec_path() != p); assert(Field::HasNodesRbac.spec_path() != p); assert(find(y10, p) is None);
            assert(find(x0 + x1, p) is None);
            assert(find(x0 + x1 + x2, p) is None);
            assert(find(x0 + x1 + x2 + y0, p) is None);
            assert(find(x0 + x1 + x2 + y0 + y1, p) is None);
            assert(find(x0 + x1 + x2 + y0 + y1 + y2, p) is None);
            assert(find(x0 + x1 + x2 + y0 + y1 + y2 + y3, p) is None);
            assert(find(x0 + x1 + x2 + y0 + y1 + y2 + y3 + y4, p) is None);
            assert(find(x0 + x1 + x2 + y0 + y1 + y2 + y3 + y4 + y5, p) is None);
            assert(find(x0 + x1 + x2 + y0 + y1 + y2 + y3 + y4 + y5 + y6, p) is None);
            assert(find(x0 + x1 + x2 + y0 + y1 + y2 + y3 + y4 + y5 + y6 + y7, p) is None);
            assert(find(x0 + x1 + x2 + y0 + y1 + y2 + y3 + y4 + y5 + y6 + y7 + y8, p) is None);
            assert(find(x0 + x1 + x2 + y0 + y1 + y2 + y3 + y4 + y5 + y6 + y7 + y8 + y9, p) is None);
            assert(find(x0 + x1 + x2 + y0 + y1 + y2 + y3 + y4 + y5 + y6 + y7 + y8 + y9 + y10, p) is None);
        },
        Field::ProxyImage => {
            assert(Field::Namespace.spec_path().len() != p.len() || Field::Namespace.spec_path() != p); assert(Field::Namespace.spec_path() != p); assert(find(x0, p) is None);
            assert(Field::IotHubHostname.spec_path().len() != p.len() || Field::IotHubHostname.spec_path() != p); assert(Field::IotHubHostname.spec_path() != p); assert(find(x1, p) is None);
            assert(Field::DeviceId.spec_path().len() != p.len() || Field::DeviceId.spec_path() != p); assert(Field::DeviceId.spec_path() != p); assert(find(x2, p) is None);
            assert(Field::DeviceHubSelector.spec_path().len() != p.len() || Field::DeviceHubSelector.spec_path() != p); assert(Field::DeviceHubSelector.spec_path() != p); assert(find(y0, p) is None);
            assert(Field::ProxyImagePullPolicy.spec_path()[1] != p[1]); assert(Field::ProxyImagePullPolicy.spec_path().len() != p.len() || Field::ProxyImagePullPolicy.spec_path() != p); assert(Field::ProxyImagePullPolicy.spec_path() != p); assert(find(y2, p) is None);
            assert(Field::ProxyConfigPath.spec_path()[1] != p[1]); assert(Field::ProxyConfigPath.spec_path().len() != p.len() || Field::ProxyConfigPath.spec_path() != p); assert(Field::ProxyConfigPath.spec_path() != p); assert(find(y3, p) is None);
            assert(Field::ProxyConfigMapName.spec_path()[1] != p[1]); assert(Field::ProxyConfigMapName.spec_path().len() != p.len() || Field::ProxyConfigMapName.spec_path() != p); assert(Field::ProxyConfigMapName.spec_path() != p); assert(find(y4, p) is None);
            assert(Field::ProxyTrustBundlePath.spec_path()[1] != p[1]); assert(Field::ProxyTrustBundlePath.spec_path().len() != p.len() || Field::ProxyTrustBundlePath.spec_path() != p); assert(Field::ProxyTrustBundlePath.spec_path() != p); assert(find(y5, p) is None);
            assert(Field::ProxyTrustBundleConfigMapName.spec_path()[1] != p[1]); assert(Field::ProxyTrustBundleConfigMapName.spec_path().len() != p.len() || Field::ProxyTrustBundleConfigMapName.spec_path() != p); assert(Field::ProxyTrustBundleConfigMapName.spec_path() != p); assert(find(y6, p) is None);
            assert(Field::ConfigPath.spec_path().len() != p.len() || Field::ConfigPath.spec_path() != p); assert(Field::ConfigPath.spec_path() != p); assert(find(y7, p) is None);
            assert(Field::ConfigMapName.spec_path().len() != p.len() || Field::ConfigMapName.spec_path() != p); assert(Field::ConfigMapName.spec_path() != p); assert(find(y8, p) is None);
            assert(Field::ConfigMapVolume.spec_path().len() != p.len() || Field::ConfigMapVolume.spec_path() != p); assert(Field::ConfigMapVolume.spec_path() != p); assert(find(y9, p) is None);
            assert(Field::HasNodesRbac.spec_path().len() != p.len() || Field::HasNodesRbac.spec_path() != p); assert(Field::HasNodesRbac.spec_path() != p); assert(find(y10, p) is None);
            assert(find(x0 + x1, p) is None);
            assert(find(x0 + x1 + x2, p) is None);
            assert(find(x0 + x1 + x2 + y0, p) is None);
            assert(find(x0 + x1 + x2 + y0 + y1, p) == find(y1, p));
            assert(find(x0 + x1 + x2 + y0 + y1 + y2, p) == find(y1, p));
            assert(find(x0 + x1 + x2 + y0 + y1 + y2 + y3, p) == find(y1, p));
            assert(find(x0 + x1 + x2 + y0 + y1 + y2 + y3 + y4, p) == find(y1, p));
            assert(find(x0 + x1 + x2 + y0 + y1 + y2 + y3 + y4 + y5, p) == find(y1, p));
            assert(find(x0 + x1 + x2 + y0 + y1 + y2 + y3 + y4 + y5 + y6, p) == find(y1, p));
            assert(find(x0 + x1 + x2 + y0 + y1 + y2 + y3 + y4 + y5 + y6 + y7, p) == find(y1, p));
            assert(find(x0 + x1 + x2 + y0 + y1 + y2 + y3 + y4 + y5 + y6 + y7 + y8, p) == find(y1, p));
            assert(find(x0 + x1 + x2 + y0 + y1 + y2 + y3 + y4 + y5 + y6 + y7 + y8 + y9, p) == find(y1, p));
            assert(find(x0 + x1 + x2 + y0 + y1 + y2 + y3 + y4 + y5 + y6 + y7 + y8 + y9 + y10, p) == find(y1, p));
        },
        Field::ProxyImagePullPolicy => {
            assert(Field::Namespace.spec_path().len() != p.len() || Field::Namespace.spec_path() != p); assert(Field::Namespace.spec_path() != p); assert(find(x0, p) is None);
            assert(Field::IotHubHostname.spec_path().len() != p.len() || Field::IotHubHostname.spec_path() != p); assert(Field::IotHubHostname.spec_path() != p); assert(find(x1, p) is None);
            assert(Field::DeviceId.spec_path().len() != p.len() || Field::DeviceId.spec_path() != p); assert(Field::DeviceId.spec_path() != p); assert(find(x2, p) is None);
            assert(Field::DeviceHubSelector.spec_path().len() != p.len() || Field::DeviceHubSelector.spec_path() != p); assert(Field::DeviceHubSelector.spec_path() != p); assert(find(y0, p) is None);
            assert(Field::ProxyImage.spec_path()[1] != p[1]); assert(Field::ProxyImage.spec_path().len() != p.len() || Field::ProxyImage.spec_path() != p); assert(Field::ProxyImage.spec_path() != p); assert(find(y1, p) is None);
            assert(Field::ProxyConfigPath.spec_path()[1] != p[1]); assert(Field::ProxyConfigPath.spec_path().len() != p.len() || Field::ProxyConfigPath.spec_path() != p); assert(Field::ProxyConfigPath.spec_path() != p); assert(find(y3, p) is None);
            assert(Field::ProxyConfigMapName.spec_path()[1] != p[1]); assert(Field::ProxyConfigMapName.spec_path().len() != p.len() || Field::ProxyConfigMapName.spec_path() != p); assert(Field::ProxyConfigMapName.spec_path() != p); assert(find(y4, p) is None);
            assert(Field::ProxyTrustBundlePath.spec_path()[1] != p[1]); assert(Field::ProxyTrustBundlePath.spec_path().len() != p.len() || Field::ProxyTrustBundlePath.spec_path() != p); assert(Field::ProxyTrustBundlePath.spec_path() != p); assert(find(y5, p) is None);
            assert(Field::ProxyTrustBundleConfigMapName.spec_path()[1] != p[1]); assert(Field::ProxyTrustBundleConfigMapName.spec_path().len() != p.len() || Field::ProxyTrustBundleConfigMapName.spec_path() != p); assert(Field::ProxyTrustBundleConfigMapName.spec_path() != p); assert(find(y6, p) is None);
            assert(Field::ConfigPath.spec_path().len() != p.len() || Field::ConfigPath.spec_path() != p); assert(Field::ConfigPath.spec_path() != p); assert(find(y7, p) is None);
            assert(Field::ConfigMapName.spec_path().len() != p.len() || Field::ConfigMapName.spec_path() != p); assert(Field::ConfigMapName.spec_path() != p); assert(find(y8, p) is None);
            assert(Field::ConfigMapVolume.spec_path().len() != p.len() || Field::ConfigMapVolume.spec_path() != p); assert(Field::ConfigMapVolume.spec_path() != p); assert(find(y9, p) is None);
            assert(Field::HasNodesRbac.spec_path().len() != p.len() || Field::HasNodesRbac.spec_path() != p); assert(Field::HasNodesRbac.spec_path() != p); assert(find(y10, p) is None);
            assert(find(x0 + x1, p) is None);
            assert(find(x0 + x1 + x2, p) is None);
            assert(find(x0 + x1 + x2 + y0, p) is None);
            assert(find(x0 + x1 + x2 + y0 + y1, p) is None);
            assert(find(x0 + x1 + x2 + y0 + y1 + y2, p) == find(y2, p));
            assert(find(x0 + x1 + x2 + y0 + y1 + y2 + y3, p) == find(y2, p));
            assert(find(x0 + x1 + x2 + y0 + y1 + y2 + y3 + y4, p) == find(y2, p));
            assert(find(x0 + x1 + x2 + y0 + y1 + y2 + y3 + y4 + y5, p) == find(y2, p));
            assert(find(x0 + x1 + x2 + y0 + y1 + y2 + y3 + y4 + y5 + y6, p) == find(y2, p));
            assert(find(x0 + x1 + x2 + y0 + y1 + y2 + y3 + y4 + y5 + y6 + y7, p) == find(y2, p));
            assert(find(x0 + x1 + x2 + y0 + y1 + y2 + y3 + y4 + y5 + y6 + y7 + y8, p) == find(y2, p));
            assert(find(x0 + x1 + x2 + y0 + y1 + y2 + y3 + y4 + y5 + y6 + y7 + y8 + y9, p) == find(y2, p));
            assert(find(x0 + x1 + x2 + y0 + y1 + y2 + y3 + y4 + y5 + y6 + y7 + y8 + y9 + y10, p) == find(y2, p));
        },
        Field::ProxyConfigPath => {
            assert(Field::Namespace.spec_path().len() != p.len() || Field::Namespace.spec_path() != p); assert(Field::Namespace.spec_path() != p); assert(find(x0, p) is None);
            assert(Field::IotHubHostname.spec_path().len() != p.len() || Field::IotHubHostname.spec_path() != p); assert(Field::IotHubHostname.spec_path() != p); assert(find(x1, p) is None);
            assert(Field::DeviceId.spec_path().len() != p.len() || Field::DeviceId.spec_path() != p); assert(Field::DeviceId.spec_path() != p); assert(find(x2, p) is None);
            assert(Field::DeviceHubSelector.spec_path().len() != p.len() || Field::DeviceHubSelector.spec_path() != p); assert(Field::DeviceHubSelector.spec_path() != p); assert(find(y0, p) is None);
            assert(Field::ProxyImage.spec_path()[1] != p[1]); assert(Field::ProxyImage.spec_path().len() != p.len() || Field::ProxyImage.spec_path() != p); assert(Field::ProxyImage.spec_path() != p); assert(find(y1, p) is None);
            assert(Field::ProxyImagePullPolicy.spec_path()[1] != p[1]); assert(Field::ProxyImagePullPolicy.spec_path().len() != p.len() || Field::ProxyImagePullPolicy.spec_path() != p); assert(Field::ProxyImagePullPolicy.spec_path() != p); assert(find(y2, p) is None);
            assert(Field::ProxyConfigMapName.spec_path()[1] != p[1]); assert(Field::ProxyConfigMapName.spec_path().len() != p.len() || Field::ProxyConfigMapName.spec_path() != p); assert(Field::ProxyConfigMapName.spec_path() != p); assert(find(y4, p) is None);
            assert(Field::ProxyTrustBundlePath.spec_path()[1] != p[1]); assert(Field::ProxyTrustBundlePath.spec_path().len() != p.len() || Field::ProxyTrustBundlePath.spec_path() != p); assert(Field::ProxyTrustBundlePath.spec_path() != p); assert(find(y5, p) is None);
            assert(Field::ProxyTrustBundleConfigMapName.spec_path()[1] != p[1]); assert(Field::ProxyTrustBundleConfigMapName.spec_path().len() != p.len() || Field::ProxyTrustBundleConfigMapName.spec_path() != p); assert(Field::ProxyTrustBundleConfigMapName.spec_path() != p); assert(find(y6, p) is None);
            assert(Field::ConfigPath.spec_path().len() != p.len() || Field::ConfigPath.spec_path() != p); assert(Field::ConfigPath.spec_path() != p); assert(find(y7, p) is None);
            assert(Field::ConfigMapName.spec_path().len() != p.len() || Field::ConfigMapName.spec_path() != p); assert(Field::ConfigMapName.spec_path() != p); assert(find(y8, p) is None);
            assert(Field::ConfigMapVolume.spec_path().len() != p.len() || Field::ConfigMapVolume.spec_path() != p); assert(Field::ConfigMapVolume.spec_path() != p); assert(find(y9, p) is None);
            assert(Field::HasNodesRbac.spec_path().len() != p.len() || Field::HasNodesRbac.spec_path() != p); assert(Field::HasNodesRbac.spec_path() != p); assert(find(y10, p) is None);
            assert(find(x0 + x1, p) is None);
            assert(find(x0 + x1 + x2, p) is None);
            assert(find(x0 + x1 + x2 + y0, p) is None);
            assert(find(x0 + x1 + x2 + y0 + y1, p) is None);
            assert(find(x0 + x1 + x2 + y0 + y1 + y2, p) is None);
            assert(find(x0 + x1 + x2 + y0 + y1 + y2 + y3, p) == find(y3, p));
            assert(find(x0 + x1 + x2 + y0 + y1 + y2 + y3 + y4, p) == find(y3, p));
            assert(find(x0 + x1 + x2 + y0 + y1 + y2 + y3 + y4 + y5, p) == find(y3, p));
            assert(find(x0 + x1 + x2 + y0 + y1 + y2 + y3 + y4 + y5 + y6, p) == find(y3, p));
            assert(find(x0 + x1 + x2 + y0 + y1 + y2 + y3 + y4 + y5 + y6 + y7, p) == find(y3, p));
            assert(find(x0 + x1 + x2 + y0 + y1 + y2 + y3 + y4 + y5 + y6 + y7 + y8, p) == find(y3, p));
            assert(find(x0 + x1 + x2 + y0 + y1 + y2 + y3 + y4 + y5 + y6 + y7 + y8 + y9, p) == find(y3, p));
            assert(find(x0 + x1 + x2 + y0 + y1 + y2 + y3 + y4 + y5 + y6 + y7 + y8 + y9 + y10, p) == find(y3, p));
        },
        Field::ProxyConfigMapName => {
            assert(Field::Namespace.spec_path().len() != p.len() || Field::Namespace.spec_path() != p); assert(Field::Namespace.spec_path() != p); assert(find(x0, p) is None);
            assert(Field::IotHubHostname.spec_path().len() != p.len() || Field::IotHubHostname.spec_path() != p); assert(Field::IotHubHostname.spec_path() != p); assert(find(x1, p) is None);
            assert(Field::DeviceId.spec_path().len() != p.len() || Field::DeviceId.spec_path() != p); assert(Field::DeviceId.spec_path() != p); assert(find(x2, p) is None);
            assert(Field::DeviceHubSelector.spec_path().len() != p.len() || Field::DeviceHubSelector.spec_path() != p); assert(Field::DeviceHubSelector.spec_path() != p); assert(find(y0, p) is None);
            assert(Field::ProxyImage.spec_path()[1] != p[1]); assert(Field::ProxyImage.spec_path().len() != p.len() || Field::ProxyImage.spec_path() != p); assert(Field::ProxyImage.spec_path() != p); assert(find(y1, p) is None);
            assert(Field::ProxyImagePullPolicy.spec_path()[1] != p[1]); assert(Field::ProxyImagePullPolicy.spec_path().len() != p.len() || Field::ProxyImagePullPolicy.spec_path() != p); assert(Field::ProxyImagePullPolicy.spec_path() != p); assert(find(y2, p) is None);
            assert(Field::ProxyConfigPath.spec_path()[1] != p[1]); assert(Field::ProxyConfigPath.spec_path().len() != p.len() || Field::ProxyConfigPath.spec_path() != p); assert(Field::ProxyConfigPath.spec_path() != p); assert(find(y3, p) is None);
            assert(Field::ProxyTrustBundlePath.spec_path()[1] != p[1]); assert(Field::ProxyTrustBundlePath.spec_path().len() != p.len() || Field::ProxyTrustBundlePath.spec_path() != p); assert(Field::ProxyTrustBundlePath.spec_path() != p); assert(find(y5, p) is None);
            assert(Field::ProxyTrustBundleConfigMapName.spec_path()[1] != p[1]); assert(Field::ProxyTrustBundleConfigMapName.spec_path().len() != p.len() || Field::ProxyTrustBundleConfigMapName.spec_path() != p); assert(Field::ProxyTrustBundleConfigMapName.spec_path() != p); assert(find(y6, p) is None);
            assert(Field::ConfigPath.spec_path().len() != p.len() || Field::ConfigPath.spec_path() != p); assert(Field::ConfigPath.spec_path() != p); assert(find(y7, p) is None);
            assert(Field::ConfigMapName.spec_path().len() != p.len() || Field::ConfigMapName.spec_path() != p); assert(Field::ConfigMapName.spec_path() != p); assert(find(y8, p) is None);
            assert(Field::ConfigMapVolume.spec_path().len() != p.len() || Field::ConfigMapVolume.spec_path() != p); assert(Field::ConfigMapVolume.spec_path() != p); assert(find(y9, p) is None);
            assert(Field::HasNodesRbac.spec_path().len() != p.len() || Field::HasNodesRbac.spec_path() != p); assert(Field::HasNodesRbac.spec_path() != p); assert(find(y10, p) is None);
            assert(find(x0 + x1, p) is None);
            assert(find(x0 + x1 + x2, p) is None);
            assert(find(x0 + x1 + x2 + y0, p) is None);
            assert(find(x0 + x1 + x2 + y0 + y1, p) is None);
            assert(find(x0 + x1 + x2 + y0 + y1 + y2, p) is None);
            assert(find(x0 + x1 + x2 + y0 + y1 + y2 + y3, p) is None);
            assert(find(x0 + x1 + x2 + y0 + y1 + y2 + y3 + y4, p) == find(y4, p));
            assert(find(x0 + x1 + x2 + y0 + y1 + y2 + y3 + y4 + y5, p) == find(y4, p));
            assert(find(x0 + x1 + x2 + y0 + y1 + y2 + y3 + y4 + y5 + y6, p) == find(y4, p));
            assert(find(x0 + x1 + x2 + y0 + y1 + y2 + y3 + y4 + y5 + y6 + y7, p) == find(y4, p));
            assert(find(x0 + x1 + x2 + y0 + y1 + y2 + y3 + y4 + y5 + y6 + y7 + y8, p) == find(y4, p));
            assert(find(x0 + x1 + x2 + y0 + y1 + y2 + y3 + y4 + y5 + y6 + y7 + y8 + y9, p) == find(y4, p));
            assert(find(x0 + x1 + x2 + y0 + y1 + y2 + y3 + y4 + y5 + y6 + y7 + y8 + y9 + y10, p) == find(y4, p));
        },
        Field::ProxyTrustBundlePath => {
            assert(Field::Namespace.spec_path().len() != p.len() || Field::Namespace.spec_path() != p); assert(Field::Namespace.spec_path() != p); assert(find(x0, p) is None);
            assert(Field::IotHubHostname.spec_path().len() != p.len() || Field::IotHubHostname.spec_path() != p); assert(Field::IotHubHostname.spec_path() != p); assert(find(x1, p) is None);
            assert(Field::DeviceId.spec_path().len() != p.len() || Field::DeviceId.spec_path() != p); assert(Field::DeviceId.spec_path() != p); assert(find(x2, p) is None);
            assert(Field::DeviceHubSelector.spec_path().len() != p.len() || Field::DeviceHubSelector.spec_path() != p); assert(Field::DeviceHubSelector.spec_path() != p); assert(find(y0, p) is None);
            assert(Field::ProxyImage.spec_path()[1] != p[1]); assert(Field::ProxyImage.spec_path().len() != p.len() || Field::ProxyImage.spec_path() != p); assert(Field::ProxyImage.spec_path() != p); assert(find(y1, p) is None);
            assert(Field::ProxyImagePullPolicy.spec_path()[1] != p[1]); assert(Field::ProxyImagePullPolicy.spec_path().len() != p.len() || Field::ProxyImagePullPolicy.spec_path() != p); assert(Field::ProxyImagePullPolicy.spec_path() != p); assert(find(y2, p) is None);
            assert(Field::ProxyConfigPath.spec_path()[1] != p[1]); assert(Field::ProxyConfigPath.spec_path().len() != p.len() || Field::ProxyConfigPath.spec_path() != p); assert(Field::ProxyConfigPath.spec_path() != p); assert(find(y3, p) is None);
            assert(Field::ProxyConfigMapName.spec_path()[1] != p[1]); assert(Field::ProxyConfigMapName.spec_path().len() != p.len() || Field::ProxyConfigMapName.spec_path() != p); assert(Field::ProxyConfigMapName.spec_path() != p); assert(find(y4, p) is None);
            assert(Field::ProxyTrustBundleConfigMapName.spec_path()[1] != p[1]); assert(Field::ProxyTrustBundleConfigMapName.spec_path().len() != p.len() || Field::ProxyTrustBundleConfigMapName.spec_path() != p); assert(Field::ProxyTrustBundleConfigMapName.spec_path() != p); assert(find(y6, p) is None);
            assert(Field::ConfigPath.spec_path().len() != p.len() || Field::ConfigPath.spec_path() != p); assert(Field::ConfigPath.spec_path() != p); assert(find(y7, p) is None);
            assert(Field::ConfigMapName.spec_path().len() != p.len() || Field::ConfigMapName.spec_path() != p); assert(Field::ConfigMapName.spec_path() != p); assert(find(y8, p) is None);
            assert(Field::ConfigMapVolume.spec_path().len() != p.len() || Field::ConfigMapVolume.spec_path() != p); assert(Field::ConfigMapVolume.spec_path() != p); assert(find(y9, p) is None);
            assert(Field::HasNodesRbac.spec_path().len() != p.len() || Field::HasNodesRbac.spec_path() != p); assert(Field::HasNodesRbac.spec_path() != p); assert(find(y10, p) is None);
            assert(find(x0 + x1, p) is None);
            assert(find(x0 + x1 + x2, p) is None);
            assert(find(x0 + x1 + x2 + y0, p) is None);
            assert(find(x0 + x1 + x2 + y0 + y1, p) is None);
            assert(find(x0 + x1 + x2 + y0 + y1 + y2, p) is None);
            assert(find(x0 + x1 + x2 + y0 + y1 + y2 + y3, p) is None);
            assert(find(x0 + x1 + x2 + y0 + y1 + y2 + y3 + y4, p) is None);
            assert(find(x0 + x1 + x2 + y0 + y1 + y2 + y3 + y4 + y5, p) == find(y5, p));
            assert(find(x0 + x1 + x2 + y0 + y1 + y2 + y3 + y4 + y5 + y6, p) == find(y5, p));
            assert(find(x0 + x1 + x2 + y0 + y1 + y2 + y3 + y4 + y5 + y6 + y7, p) == find(y5, p));
            assert(find(x0 + x1 + x2 + y0 + y1 + y2 + y3 + y4 + y5 + y6 + y7 + y8, p) == find(y5, p));
            assert(find(x0 + x1 + x2 + y0 + y1 + y2 + y3 + y4 + y5 + y6 + y7 + y8 + y9, p) == find(y5, p));
            assert(find(x0 + x1 + x2 + y0 + y1 + y2 + y3 + y4 + y5 + y6 + y7 + y8 + y9 + y10, p) == find(y5, p));
        },
        Field::ProxyTrustBundleConfigMapName => {
            assert(Field::Namespace.spec_path().len() != p.len() || Field::Namespace.spec_path() != p); assert(Field::Namespace.spec_path() != p); assert(find(x0, p) is None);
            assert(Field::IotHubHostname.spec_path().len() != p.len() || Field::IotHubHostname.spec_path() != p); assert(Field::IotHubHostname.spec_path() != p); assert(find(x1, p) is None);
            assert(Field::DeviceId.spec_path().len() != p.len() || Field::DeviceId.spec_path() != p); assert(Field::DeviceId.spec_path() != p); assert(find(x2, p) is None);
            assert(Field::DeviceHubSelector.spec_path().len() != p.len() || Field::DeviceHubSelector.spec_path() != p); assert(Field::DeviceHubSelector.spec_path() != p); assert(find(y0, p) is None);
            assert(Field::ProxyImage.spec_path()[1] != p[1]); assert(Field::ProxyImage.spec_path().len() != p.len() || Field::ProxyImage.spec_path() != p); assert(Field::ProxyImage.spec_path() != p); assert(find(y1, p) is None);
            assert(Field::ProxyImagePullPolicy.spec_path()[1] != p[1]); assert(Field::ProxyImagePullPolicy.spec_path().len() != p.len() || Field::ProxyImagePullPolicy.spec_path() != p); assert(Field::ProxyImagePullPolicy.spec_path() != p); assert(find(y2, p) is None);
            assert(Field::ProxyConfigPath.spec_path()[1] != p[1]); assert(Field::ProxyConfigPath.spec_path().len() != p.len() || Field::ProxyConfigPath.spec_path() != p); assert(Field::ProxyConfigPath.spec_path() != p); assert(find(y3, p) is None);
            assert(Field::ProxyConfigMapName.spec_path()[1] != p[1]); assert(Field::ProxyConfigMapName.spec_path().len() != p.len() || Field::ProxyConfigMapName.spec_path() != p); assert(Field::ProxyConfigMapName.spec_path() != p); assert(find(y4, p) is None);
            assert(Field::ProxyTrustBundlePath.spec_path()[1] != p[1]); assert(Field::ProxyTrustBundlePath.spec_path().len() != p.len() || Field::ProxyTrustBundlePath.spec_path() != p); assert(Field::ProxyTrustBundlePath.spec_path() != p); assert(find(y5, p) is None);
            assert(Field::ConfigPath.spec_path().len() != p.len() || Field::ConfigPath.spec_path() != p); assert(Field::ConfigPath.spec_path() != p); assert(find(y7, p) is None);
            assert(Field::ConfigMapName.spec_path().len() != p.len() || Field::ConfigMapName.spec_path() != p); assert(Field::ConfigMapName.spec_path() != p); assert(find(y8, p) is None);
            assert(Field::ConfigMapVolume.spec_path().len() != p.len() || Field::ConfigMapVolume.spec_path() != p); assert(Field::ConfigMapVolume.spec_path() != p); assert(find(y9, p) is None);
            assert(Field::HasNodesRbac.spec_path().len() != p.len() || Field::HasNodesRbac.spec_path() != p); assert(Field::HasNodesRbac.spec_path() != p); assert(find(y10, p) is None);
            assert(find(x0 + x1, p) is None);
            assert(find(x0 + x1 + x2, p) is None);
            assert(find(x0 + x1 + x2 + y0, p) is None);
            assert(find(x0 + x1 + x2 + y0 + y1, p) is None);
            assert(find(x0 + x1 + x2 + y0 + y1 + y2, p) is None);
            assert(find(x0 + x1 + x2 + y0 + y1 + y2 + y3, p) is None);
            assert(find(x0 + x1 + x2 + y0 + y1 + y2 + y3 + y4, p) is None);
            assert(find(x0 + x1 + x2 + y0 + y1 + y2 + y3 + y4 + y5, p) is None);
            assert(find(x0 + x1 + x2 + y0 + y1 + y2 + y3 + y4 + y5 + y6, p) == find(y6, p));
            assert(find(x0 + x1 + x2 + y0 + y1 + y2 + y3 + y4 + y5 + y6 + y7, p) == find(y6, p));
            assert(find(x0 + x1 + x2 + y0 + y1 + y2 + y3 + y4 + y5 + y6 + y7 + y8, p) == find(y6, p));
            assert(find(x0 + x1 + x2 + y0 + y1 + y2 + y3 + y4 + y5 + y6 + y7 + y8 + y9, p) == find(y6, p));
            assert(find(x0 + x1 + x2 + y0 + y1 + y2 + y3 + y4 + y5 + y6 + y7 + y8 + y9 + y10, p) == find(y6, p));
        },
        Field::ProxyResources => {
            assert(Field::Namespace.spec_path().len() != p.len() || Field::Namespace.spec_path() != p); assert(Field::Namespace.spec_path() != p); assert(find(x0, p) is None);
            assert(Field::IotHubHostname.spec_path().len() != p.len() || Field::IotHubHostname.spec_path() != p); assert(Field::IotHubHostname.spec_path() != p); assert(find(x1, p) is None);
            assert(Field::DeviceId.spec_path().len() != p.len() || Field::DeviceId.spec_path() != p); assert(Field::DeviceId.spec_path() != p); assert(find(x2, p) is None);
            assert(Field::DeviceHubSelector.spec_path().len() != p.len() || Field::DeviceHubSelector.spec_path() != p); assert(Field::DeviceHubSelector.spec_path() != p); assert(find(y0, p) is None);
            assert(Field::ProxyImage.spec_path()[1] != p[1]); assert(Field::ProxyImage.spec_path().len() != p.len() || Field::ProxyImage.spec_path() != p); assert(Field::ProxyImage.spec_path() != p); assert(find(y1, p) is None);
            assert(Field::ProxyImagePullPolicy.spec_path()[1] != p[1]); assert(Field::ProxyImagePullPolicy.spec_path().len() != p.len() || Field::ProxyImagePullPolicy.spec_path() != p); assert(Field::ProxyImagePullPolicy.spec_path() != p); assert(find(y2, p) is None);
            assert(Field::ProxyConfigPath.spec_path()[1] != p[1]); assert(Field::ProxyConfigPath.spec_path().len() != p.len() || Field::ProxyConfigPath.spec_path() != p); assert(Field::ProxyConfigPath.spec_path() != p); assert(find(y3, p) is None);
            assert(Field::ProxyConfigMapName.spec_path()[1] != p[1]); assert(Field::ProxyConfigMapName.spec_path().len() != p.len() || Field::ProxyConfigMapName.spec_path() != p); assert(Field::ProxyConfigMapName.spec_path() != p); assert(find(y4, p) is None);
            assert(Field::ProxyTrustBundlePath.spec_path()[1] != p[1]); assert(Field::ProxyTrustBundlePath.spec_path().len() != p.len() || Field::ProxyTrustBundlePath.spec_path() != p); assert(Field::ProxyTrustBundlePath.spec_path() != p); assert(find(y5, p) is None);
            assert(Field::ProxyTrustBundleConfigMapName.spec_path()[1] != p[1]); assert(Field::ProxyTrustBundleConfigMapName.spec_path().len() != p.len() || Field::ProxyTrustBundleConfigMapName.spec_path() != p); assert(Field::ProxyTrustBundleConfigMapName.spec_path() != p); assert(find(y6, p) is None);
            assert(Field::ConfigPath.spec_path().len() != p.len() || Field::ConfigPath.spec_path() != p); assert(Field::ConfigPath.spec_path() != p); assert(find(y7, p) is None);
            assert(Field::ConfigMapName.spec_path().len() != p.len() || Field::ConfigMapName.spec_path() != p); assert(Field::ConfigMapName.spec_path() != p); assert(find(y8, p) is None);
            assert(Field::ConfigMapVolume.spec_path().len() != p.len() || Field::ConfigMapVolume.spec_path() != p); assert(Field::ConfigMapVolume.spec_path() != p); assert(find(y9, p) is None);
            assert(Field::HasNodesRbac.spec_path().len() != p.len() || Field::HasNodesRbac.spec_path() != p); assert(Field::HasNodesRbac.spec_path() != p); assert(find(y10, p) is None);
            assert(find(x0 + x1, p) is None);
            assert(find(x0 + x1 + x2, p) is None);
            assert(find(x0 + x1 + x2 + y0, p) is None);
            assert(find(x0 + x1 + x2 + y0 + y1, p) is None);
            assert(find(x0 + x1 + x2 + y0 + y1 + y2, p) is None);
            assert(find(x0 + x1 + x2 + y0 + y1 + y2 + y3, p) is None);
            assert(find(x0 + x1 + x2 + y0 + y1 + y2 + y3 + y4, p) is None);
            assert(find(x0 + x1 + x2 + y0 + y1 + y2 + y3 + y4 + y5, p) is None);
            assert(find(x0 + x1 + x2 + y0 + y1 + y2 + y3 + y4 + y5 + y6, p) is None);
            assert(find(x0 + x1 + x2 + y0 + y1 + y2 + y3 + y4 + y5 + y6 + y7, p) is None);
            assert(find(x0 + x1 + x2 + y0 + y1 + y2 + y3 + y4 + y5 + y6 + y7 + y8, p) is None);
            assert(find(x0 + x1 + x2 + y0 + y1 + y2 + y3 + y4 + y5 + y6 + y7 + y8 + y9, p) is None);
            assert(find(x0 + x1 + x2 + y0 + y1 + y2 + y3 + y4 + y5 + y6 + y7 + y8 + y9 + y10, p) is None);
        },
        Field::ConfigPath => {
            assert(Field::Namespace.spec_path()[0] != p[0]); assert(Field::Namespace.spec_path().len() != p.len() || Field::Namespace.spec_path() != p); assert(Field::Namespace.spec_path() != p); assert(find(x0, p) is None);
            assert(Field::IotHubHostname.spec_path()[0] != p[0]); assert(Field::IotHubHostname.spec_path().len() != p.len() || Field::IotHubHostname.spec_path() != p); assert(Field::IotHubHostname.spec_path() != p); assert(find(x1, p) is None);
            assert(Field::DeviceId.spec_path()[0] != p[0]); assert(Field::DeviceId.spec_path().len() != p.len() || Field::DeviceId.spec_path() != p); assert(Field::DeviceId.spec_path() != p); assert(find(x2, p) is None);
            assert(Field::DeviceHubSelector.spec_path()[0] != p[0]); assert(Field::DeviceHubSelector.spec_path().len() != p.len() || Field::DeviceHubSelector.spec_path() != p); assert(Field::DeviceHubSelector.spec_path() != p); assert(find(y0, p) is None);
            assert(Field::ProxyImage.spec_path().len() != p.len() || Field::ProxyImage.spec_path() != p); assert(Field::ProxyImage.spec_path() != p); assert(find(y1, p) is None);
            assert(Field::ProxyImagePullPolicy.spec_path().len() != p.len() || Field::ProxyImagePullPolicy.spec_path() != p); assert(Field::ProxyImagePullPolicy.spec_path() != p); assert(find(y2, p) is None);
            assert(Field::ProxyConfigPath.spec_path().len() != p.len() || Field::ProxyConfigPath.spec_path() != p); assert(Field::ProxyConfigPath.spec_path() != p); assert(find(y3, p) is None);
            assert(Field::ProxyConfigMapName.spec_path().len() != p.len() || Field::ProxyConfigMapName.spec_path() != p); assert(Field::ProxyConfigMapName.spec_path() != p); assert(find(y4, p) is None);
            assert(Field::ProxyTrustBundlePath.spec_path().len() != p.len() || Field::ProxyTrustBundlePath.spec_path() != p); assert(Field::ProxyTrustBundlePath.spec_path() != p); assert(find(y5, p) is None);
            assert(Field::ProxyTrustBundleConfigMapName.spec_path().len() != p.len() || Field::ProxyTrustBundleConfigMapName.spec_path() != p); assert(Field::ProxyTrustBundleConfigMapName.spec_path() != p); assert(find(y6, p) is None);
            assert(Field::ConfigMapName.spec_path()[0] != p[0]); assert(Field::ConfigMapName.spec_path().len() != p.len() || Field::ConfigMapName.spec_path() != p); assert(Field::ConfigMapName.spec_path() != p); assert(find(y8, p) is None);
            assert(Field::ConfigMapVolume.spec_path()[0] != p[0]); assert(Field::ConfigMapVolume.spec_path().len() != p.len() || Field::ConfigMapVolume.spec_path() != p); assert(Field::ConfigMapVolume.spec_path() != p); assert(find(y9, p) is None);
            assert(Field::HasNodesRbac.spec_path()[0] != p[0]); assert(Field::HasNodesRbac.spec_path().len() != p.len() || Field::HasNodesRbac.spec_path() != p); assert(Field::HasNodesRbac.spec_path() != p); assert(find(y10, p) is None);
            assert(find(x0 + x1, p) is None);
            assert(find(x0 + x1 + x2, p) is None);
            assert(find(x0 + x1 + x2 + y0, p) is None);
            assert(find(x0 + x1 + x2 + y0 + y1, p) is None);
            assert(find(x0 + x1 + x2 + y0 + y1 + y2, p) is None);
            assert(find(x0 + x1 + x2 + y0 + y1 + y2 + y3, p) is None);
            assert(find(x0 + x1 + x2 + y0 + y1 + y2 + y3 + y4, p) is None);
            assert(find(x0 + x1 + x2 + y0 + y1 + y2 + y3 + y4 + y5, p) is None);
            assert(find(x0 + x1 + x2 + y0 + y1 + y2 + y3 + y4 + y5 + y6, p) is None);
            assert(find(x0 + x1 + x2 + y0 + y1 + y2 + y3 + y4 + y5 + y6 + y7, p) == find(y7, p));
            assert(find(x0 + x1 + x2 + y0 + y1 + y2 + y3 + y4 + y5 + y6 + y7 + y8, p) == find(y7, p));
            assert(find(x0 + x1 + x2 + y0 + y1 + y2 + y3 + y4 + y5 + y6 + y7 + y8 + y9, p) == find(y7, p));
            assert(find(x0 + x1 + x2 + y0 + y1 + y2 + y3 + y4 + y5 + y6 + y7 + y8 + y9 + y10, p) == find(y7, p));
        },
        Field::ConfigMapName => {
            assert(Field::Namespace.spec_path()[0] != p[0]); assert(Field::Namespace.spec_path().len() != p.len() || Field::Namespace.spec_path() != p); assert(Field::Namespace.spec_path() != p); assert(find(x0, p) is None);
            assert(Field::IotHubHostname.spec_path()[0] != p[0]); assert(Field::IotHubHostname.spec_path().len() != p.len() || Field::IotHubHostname.spec_path() != p); assert(Field::IotHubHostname.spec_path() != p); assert(find(x1, p) is None);
            assert(Field::DeviceId.spec_path()[0] != p[0]); assert(Field::DeviceId.spec_path().len() != p.len() || Field::DeviceId.spec_path() != p); assert(Field::DeviceId.spec_path() != p); assert(find(x2, p) is None);
            assert(Field::DeviceHubSelector.spec_path()[0] != p[0]); assert(Field::DeviceHubSelector.spec_path().len() != p.len() || Field::DeviceHubSelector.spec_path() != p); assert(Field::DeviceHubSelector.spec_path() != p); assert(find(y0, p) is None);
            assert(Field::ProxyImage.spec_path().len() != p.len() || Field::ProxyImage.spec_path() != p); assert(Field::ProxyImage.spec_path() != p); assert(find(y1, p) is None);
            assert(Field::ProxyImagePullPolicy.spec_path().len() != p.len() || Field::ProxyImagePullPolicy.spec_path() != p); assert(Field::ProxyImagePullPolicy.spec_path() != p); assert(find(y2, p) is None);
            assert(Field::ProxyConfigPath.spec_path().len() != p.len() || Field::ProxyConfigPath.spec_path() != p); assert(Field::ProxyConfigPath.spec_path() != p); assert(find(y3, p) is None);
            assert(Field::ProxyConfigMapName.spec_path().len() != p.len() || Field::ProxyConfigMapName.spec_path() != p); assert(Field::ProxyConfigMapName.spec_path() != p); assert(find(y4, p) is None);
            assert(Field::ProxyTrustBundlePath.spec_path().len() != p.len() || Field::ProxyTrustBundlePath.spec_path() != p); assert(Field::ProxyTrustBundlePath.spec_path() != p); assert(find(y5, p) is None);
            assert(Field::ProxyTrustBundleConfigMapName.spec_path().len() != p.len() || Field::ProxyTrustBundleConfigMapName.spec_path() != p); assert(Field::ProxyTrustBundleConfigMapName.spec_path() != p); assert(find(y6, p) is None);
            assert(Field::ConfigPath.spec_path()[0] != p[0]); assert(Field::ConfigPath.spec_path().len() != p.len() || Field::ConfigPath.spec_path() != p); assert(Field::ConfigPath.spec_path() != p); assert(find(y7, p) is None);
            assert(Field::ConfigMapVolume.spec_path()[0] != p[0]); assert(Field::ConfigMapVolume.spec_path().len() != p.len() || Field::ConfigMapVolume.spec_path() != p); assert(Field::ConfigMapVolume.spec_path() != p); assert(find(y9, p) is None);
            assert(Field::HasNodesRbac.spec_path()[0] != p[0]); assert(Field::HasNodesRbac.spec_path().len() != p.len() || Field::HasNodesRbac.spec_path() != p); assert(Field::HasNodesRbac.spec_path() != p); assert(find(y10, p) is None);
            assert(find(x0 + x1, p) is None);
            assert(find(x0 + x1 + x2, p) is None);
            assert(find(x0 + x1 + x2 + y0, p) is None);
            assert(find(x0 + x1 + x2 + y0 + y1, p) is None);
            assert(find(x0 + x1 + x2 + y0 + y1 + y2, p) is None);
            assert(find(x0 + x1 + x2 + y0 + y1 + y2 + y3, p) is None);
            assert(find(x0 + x1 + x2 + y0 + y1 + y2 + y3 + y4, p) is None);
            assert(find(x0 + x1 + x2 + y0 + y1 + y2 + y3 + y4 + y5, p) is None);
            assert(find(x0 + x1 + x2 + y0 + y1 + y2 + y3 + y4 + y5 + y6, p) is None);
            assert(find(x0 + x1 + x2 + y0 + y1 + y2 + y3 + y4 + y5 + y6 + y7, p) is None);
            assert(find(x0 + x1 + x2 + y0 + y1 + y2 + y3 + y4 + y5 + y6 + y7 + y8, p) == find(y8, p));
            assert(find(x0 + x1 + x2 + y0 + y1 + y2 + y3 + y4 + y5 + y6 + y7 + y8 + y9, p) == find(y8, p));
            assert(find(x0 + x1 + x2 + y0 + y1 + y2 + y3 + y4 + y5 + y6 + y7 + y8 + y9 + y10, p) == find(y8, p));
        },
        Field::ConfigMapVolume => {
            assert(Field::Namespace.spec_path()[0] != p[0]); assert(Field::Namespace.spec_path().len() != p.len() || Field::Namespace.spec_path() != p); assert(Field::Namespace.spec_path() != p); assert(find(x0, p) is None);
            assert(Field::IotHubHostname.spec_path()[0] != p[0]); assert(Field::IotHubHostname.spec_path().len() != p.len() || Field::IotHubHostname.spec_path() != p); assert(Field::IotHubHostname.spec_path() != p); assert(find(x1, p) is None);
            assert(Field::DeviceId.spec_path()[0] != p[0]); assert(Field::DeviceId.spec_path().len() != p.len() || Field::DeviceId.spec_path() != p); assert(Field::DeviceId.spec_path() != p); assert(find(x2, p) is None);
            assert(Field::DeviceHubSelector.spec_path()[0] != p[0]); assert(Field::DeviceHubSelector.spec_path().len() != p.len() || Field::DeviceHubSelector.spec_path() != p); assert(Field::DeviceHubSelector.spec_path() != p); assert(find(y0, p) is None);
            assert(Field::ProxyImage.spec_path().len() != p.len() || Field::ProxyImage.spec_path() != p); assert(Field::ProxyImage.spec_path() != p); assert(find(y1, p) is None);
            assert(Field::ProxyImagePullPolicy.spec_path().len() != p.len() || Field::ProxyImagePullPolicy.spec_path() != p); assert(Field::ProxyImagePullPolicy.spec_path() != p); assert(find(y2, p) is None);
            assert(Field::ProxyConfigPath.spec_path().len() != p.len() || Field::ProxyConfigPath.spec_path() != p); assert(Field::ProxyConfigPath.spec_path() != p); assert(find(y3, p) is None);
            assert(Field::ProxyConfigMapName.spec_path().len() != p.len() || Field::ProxyConfigMapName.spec_path() != p); assert(Field::ProxyConfigMapName.spec_path() != p); assert(find(y4, p) is None);
            assert(Field::ProxyTrustBundlePath.spec_path().len() != p.len() || Field::ProxyTrustBundlePath.spec_path() != p); assert(Field::ProxyTrustBundlePath.spec_path() != p); assert(find(y5, p) is None);
            assert(Field::ProxyTrustBundleConfigMapName.spec_path().len() != p.len() || Field::ProxyTrustBundleConfigMapName.spec_path() != p); assert(Field::ProxyTrustBundleConfigMapName.spec_path() != p); assert(find(y6, p) is None);
            assert(Field::ConfigPath.spec_path()[0] != p[0]); assert(Field::ConfigPath.spec_path().len() != p.len() || Field::ConfigPath.spec_path() != p); assert(Field::ConfigPath.spec_path() != p); assert(find(y7, p) is None);
            assert(Field::ConfigMapName.spec_path()[0] != p[0]); assert(Field::ConfigMapName.spec_path().len() != p.len() || Field::ConfigMapName.spec_path() != p); assert(Field::ConfigMapName.spec_path() != p); assert(find(y8, p) is None);
            assert(Field::HasNodesRbac.spec_path()[0] != p[0]); assert(Field::HasNodesRbac.spec_path().len() != p.len() || Field::HasNodesRbac.spec_path() != p); assert(Field::HasNodesRbac.spec_path() != p); assert(find(y10, p) is None);
            assert(find(x0 + x1, p) is None);
            assert(find(x0 + x1 + x2, p) is None);
            assert(find(x0 + x1 + x2 + y0, p) is None);
            assert(find(x0 + x1 + x2 + y0 + y1, p) is None);
            assert(find(x0 + x1 + x2 + y0 + y1 + y2, p) is None);
            assert(find(x0 + x1 + x2 + y0 + y1 + y2 + y3, p) is None);
            assert(find(x0 + x1 + x2 + y0 + y1 + y2 + y3 + y4, p) is None);
            assert(find(x0 + x1 + x2 + y0 + y1 + y2 + y3 + y4 + y5, p) is None);
            assert(find(x0 + x1 + x2 + y0 + y1 + y2 + y3 + y4 + y5 + y6, p) is None);
            assert(find(x0 + x1 + x2 + y0 + y1 + y2 + y3 + y4 + y5 + y6 + y7, p) is None);
            assert(find(x0 + x1 + x2 + y0 + y1 + y2 + y3 + y4 + y5 + y6 + y7 + y8, p) is None);
            assert(find(x0 + x1 + x2 + y0 + y1 + y2 + y3 + y4 + y5 + y6 + y7 + y8 + y9, p) == find(y9, p));
            assert(find(x0 + x1 + x2 + y0 + y1 + y2 + y3 + y4 + y5 + y6 + y7 + y8 + y9 + y10, p) == find(y9, p));
        },
        Field::Resources => {
            assert(Field::Namespace.spec_path()[0] != p[0]); assert(Field::Namespace.spec_path().len() != p.len() || Field::Namespace.spec_path() != p); assert(Field::Namespace.spec_path() != p); assert(find(x0, p) is None);
            assert(Field::IotHubHostname.spec_path()[0] != p[0]); assert(Field::IotHubHostname.spec_path().len() != p.len() || Field::IotHubHostname.spec_path() != p); assert(Field::IotHubHostname.spec_path() != p); assert(find(x1, p) is None);
            assert(Field::DeviceId.spec_path()[0] != p[0]); assert(Field::DeviceId.spec_path().len() != p.len() || Field::DeviceId.spec_path() != p); assert(Field::DeviceId.spec_path() != p); assert(find(x2, p) is None);
            assert(Field::DeviceHubSelector.spec_path()[0] != p[0]); assert(Field::DeviceHubSelector.spec_path().len() != p.len() || Field::DeviceHubSelector.spec_path() != p); assert(Field::DeviceHubSelector.spec_path() != p); assert(find(y0, p) is None);
            assert(Field::ProxyImage.spec_path().len() != p.len() || Field::ProxyImage.spec_path() != p); assert(Field::ProxyImage.spec_path() != p); assert(find(y1, p) is None);
            assert(Field::ProxyImagePullPolicy.spec_path().len() != p.len() || Field::ProxyImagePullPolicy.spec_path() != p); assert(Field::ProxyImagePullPolicy.spec_path() != p); assert(find(y2, p) is None);
            assert(Field::ProxyConfigPath.spec_path().len() != p.len() || Field::ProxyConfigPath.spec_path() != p); assert(Field::ProxyConfigPath.spec_path() != p); assert(find(y3, p) is None);
            assert(Field::ProxyConfigMapName.spec_path().len() != p.len() || Field::ProxyConfigMapName.spec_path() != p); assert(Field::ProxyConfigMapName.spec_path() != p); assert(find(y4, p) is None);
            assert(Field::ProxyTrustBundlePath.spec_path().len() != p.len() || Field::ProxyTrustBundlePath.spec_path() != p); assert(Field::ProxyTrustBundlePath.spec_path() != p); assert(find(y5, p) is None);
            assert(Field::ProxyTrustBundleConfigMapName.spec_path().len() != p.len() || Field::ProxyTrustBundleConfigMapName.spec_path() != p); assert(Field::ProxyTrustBundleConfigMapName.spec_path() != p); assert(find(y6, p) is None);
            assert(Field::ConfigPath.spec_path()[0] != p[0]); assert(Field::ConfigPath.spec_path().len() != p.len() || Field::ConfigPath.spec_path() != p); assert(Field::ConfigPath.spec_path() != p); assert(find(y7, p) is None);
            assert(Field::ConfigMapName.spec_path()[0] != p[0]); assert(Field::ConfigMapName.spec_path().len() != p.len() || Field::ConfigMapName.spec_path() != p); assert(Field::ConfigMapName.spec_path() != p); assert(find(y8, p) is None);
            assert(Field::ConfigMapVolume.spec_path()[0] != p[0]); assert(Field::ConfigMapVolume.spec_path().len() != p.len() || Field::ConfigMapVolume.spec_path() != p); assert(Field::ConfigMapVolume.spec_path() != p); assert(find(y9, p) is None);
            assert(Field::HasNodesRbac.spec_path()[0] != p[0]); assert(Field::HasNodesRbac.spec_path().len() != p.len() || Field::HasNodesRbac.spec_path() != p); assert(Field::HasNodesRbac.spec_path() != p); assert(find(y10, p) is None);
            assert(find(x0 + x1, p) is None);
            assert(find(x0 + x1 + x2, p) is None);
            assert(find(x0 + x1 + x2 + y0, p) is None);
            assert(find(x0 + x1 + x2 + y0 + y1, p) is None);
            assert(find(x0 + x1 + x2 + y0 + y1 + y2, p) is None);
            assert(find(x0 + x1 + x2 + y0 + y1 + y2 + y3, p) is None);
            assert(find(x0 + x1 + x2 + y0 + y1 + y2 + y3 + y4, p) is None);
            assert(find(x0 + x1 + x2 + y0 + y1 + y2 + y3 + y4 + y5, p) is None);
            assert(find(x0 + x1 + x2 + y0 + y1 + y2 + y3 + y4 + y5 + y6, p) is None);
            assert(find(x0 + x1 + x2 + y0 + y1 + y2 + y3 + y4 + y5 + y6 + y7, p) is None);
            assert(find(x0 + x1 + x2 + y0 + y1 + y2 + y3 + y4 + y5 + y6 + y7 + y8, p) is None);
            assert(find(x0 + x1 + x2 + y0 + y1 + y2 + y3 + y4 + y5 + y6 + y7 + y8 + y9, p) is None);
            assert(find(x0 + x1 + x2 + y0 + y1 + y2 + y3 + y4 + y5 + y6 + y7 + y8 + y9 + y10, p) is None);
        },
        Field::HasNodesRbac => {
            assert(Field::Namespace.spec_path()[0] != p[0]); assert(Field::Namespace.spec_path().len() != p.len() || Field::Namespace.spec_path() != p); assert(Field::Namespace.spec_path() != p); assert(find(x0, p) is None);
            assert(Field::IotHubHostname.spec_path()[0] != p[0]); assert(Field::IotHubHostname.spec_path().len() != p.len() || Field::IotHubHostname.spec_path() != p); assert(Field::IotHubHostname.spec_path() != p); assert(find(x1, p) is None);
            assert(Field::DeviceId.spec_path()[0] != p[0]); assert(Field::DeviceId.spec_path().len() != p.len() || Field::DeviceId.spec_path() != p); assert(Field::DeviceId.spec_path() != p); assert(find(x2, p) is None);
            assert(Field::DeviceHubSelector.spec_path()[0] != p[0]); assert(Field::DeviceHubSelector.spec_path().len() != p.len() || Field::DeviceHubSelector.spec_path() != p); assert(Field::DeviceHubSelector.spec_path() != p); assert(find(y0, p) is None);
            assert(Field::ProxyImage.spec_path().len() != p.len() || Field::ProxyImage.spec_path() != p); assert(Field::ProxyImage.spec_path() != p); assert(find(y1, p) is None);
            assert(Field::ProxyImagePullPolicy.spec_path().len() != p.len() || Field::ProxyImagePullPolicy.spec_path() != p); assert(Field::ProxyImagePullPolicy.spec_path() != p); assert(find(y2, p) is None);
            assert(Field::ProxyConfigPath.spec_path().len() != p.len() || Field::ProxyConfigPath.spec_path() != p); assert(Field::ProxyConfigPath.spec_path() != p); assert(find(y3, p) is None);
            assert(Field::ProxyConfigMapName.spec_path().len() != p.len() || Field::ProxyConfigMapName.spec_path() != p); assert(Field::ProxyConfigMapName.spec_path() != p); assert(find(y4, p) is None);
            assert(Field::ProxyTrustBundlePath.spec_path().len() != p.len() || Field::ProxyTrustBundlePath.spec_path() != p); assert(Field::ProxyTrustBundlePath.spec_path() != p); assert(find(y5, p) is None);
            assert(Field::ProxyTrustBundleConfigMapName.spec_path().len() != p.len() || Field::ProxyTrustBundleConfigMapName.spec_path() != p); assert(Field::ProxyTrustBundleConfigMapName.spec_path() != p); assert(find(y6, p) is None);
            assert(Field::ConfigPath.spec_path()[0] != p[0]); assert(Field::ConfigPath.spec_path().len() != p.len() || Field::ConfigPath.spec_path() != p); assert(Field::ConfigPath.spec_path() != p); assert(find(y7, p) is None);
            assert(Field::ConfigMapName.spec_path()[0] != p[0]); assert(Field::ConfigMapName.spec_path().len() != p.len() || Field::ConfigMapName.spec_path() != p); assert(Field::ConfigMapName.spec_path() != p); assert(find(y8, p) is None);
            assert(Field::ConfigMapVolume.spec_path()[0] != p[0]); assert(Field::ConfigMapVolume.spec_path().len() != p.len() || Field::ConfigMapVolume.spec_path() != p); assert(Field::ConfigMapVolume.spec_path() != p); assert(find(y9, p) is None);
            assert(find(x0 + x1, p) is None);
            assert(find(x0 + x1 + x2, p) is None);
            assert(find(x0 + x1 + x2 + y0, p) is None);
            assert(find(x0 + x1 + x2 + y0 + y1, p) is None);
            assert(find(x0 + x1 + x2 + y0 + y1 + y2, p) is None);
            assert(find(x0 + x1 + x2 + y0 + y1 + y2 + y3, p) is None);
            assert(find(x0 + x1 + x2 + y0 + y1 + y2 + y3 + y4, p) is None);
            assert(find(x0 + x1 + x2 + y0 + y1 + y2 + y3 + y4 + y5, p) is None);
            assert(find(x0 + x1 + x2 + y0 + y1 + y2 + y3 + y4 + y5 + y6, p) is None);
            assert(find(x0 + x1 + x2 + y0 + y1 + y2 + y3 + y4 + y5 + y6 + y7, p) is None);
            assert(find(x0 + x1 + x2 + y0 + y1 + y2 + y3 + y4 + y5 + y6 + y7 + y8, p) is None);
            assert(find(x0 + x1 + x2 + y0 + y1 + y2 + y3 + y4 + y5 + y6 + y7 + y8 + y9, p) is None);
            assert(find(x0 + x1 + x2 + y0 + y1 + y2 + y3 + y4 + y5 + y6 + y7 + y8 + y9 + y10, p) == find(y10, p));
        },
        Field::Hostname => {
            assert(Field::Namespace.spec_path()[0] != p[0]); assert(Field::Namespace.spec_path().len() != p.len() || Field::Namespace.spec_path() != p); assert(Field::Namespace.spec_path() != p); assert(find(x0, p) is None);
            assert(Field::IotHubHostname.spec_path()[0] != p[0]); assert(Field::IotHubHostname.spec_path().len() != p.len() || Field::IotHubHostname.spec_path() != p); assert(Field::IotHubHostname.spec_path() != p); assert(find(x1, p) is None);
            assert(Field::DeviceId.spec_path()[0] != p[0]); assert(Field::DeviceId.spec_path().len() != p.len() || Field::DeviceId.spec_path() != p); assert(Field::DeviceId.spec_path() != p); assert(find(x2, p) is None);
            assert(Field::DeviceHubSelector.spec_path()[0] != p[0]); assert(Field::DeviceHubSelector.spec_path().len() != p.len() || Field::DeviceHubSelector.spec_path() != p); assert(Field::DeviceHubSelector.spec_path() != p); assert(find(y0, p) is None);
            assert(Field::ProxyImage.spec_path().len() != p.len() || Field::ProxyImage.spec_path() != p); assert(Field::ProxyImage.spec_path() != p); assert(find(y1, p) is None);
            assert(Field::ProxyImagePullPolicy.spec_path().len() != p.len() || Field::ProxyImagePullPolicy.spec_path() != p); assert(Field::ProxyImagePullPolicy.spec_path() != p); assert(find(y2, p) is None);
            assert(Field::ProxyConfigPath.spec_path().len() != p.len() || Field::ProxyConfigPath.spec_path() != p); assert(Field::ProxyConfigPath.spec_path() != p); assert(find(y3, p) is None);
            assert(Field::ProxyConfigMapName.spec_path().len() != p.len() || Field::ProxyConfigMapName.spec_path() != p); assert(Field::ProxyConfigMapName.spec_path() != p); assert(find(y4, p) is None);
            assert(Field::ProxyTrustBundlePath.spec_path().len() != p.len() || Field::ProxyTrustBundlePath.spec_path() != p); assert(Field::ProxyTrustBundlePath.spec_path() != p); assert(find(y5, p) is None);
            assert(Field::ProxyTrustBundleConfigMapName.spec_path().len() != p.len() || Field::ProxyTrustBundleConfigMapName.spec_path() != p); assert(Field::ProxyTrustBundleConfigMapName.spec_path() != p); assert(find(y6, p) is None);
            assert(Field::ConfigPath.spec_path()[0] != p[0]); assert(Field::ConfigPath.spec_path().len() != p.len() || Field::ConfigPath.spec_path() != p); assert(Field::ConfigPath.spec_path() != p); assert(find(y7, p) is None);
            assert(Field::ConfigMapName.spec_path()[0] != p[0]); assert(Field::ConfigMapName.spec_path().len() != p.len() || Field::ConfigMapName.spec_path() != p); assert(Field::ConfigMapName.spec_path() != p); assert(find(y8, p) is None);
            assert(Field::ConfigMapVolume.spec_path()[0] != p[0]); assert(Field::ConfigMapVolume.spec_path().len() != p.len() || Field::ConfigMapVolume.spec_path() != p); assert(Field::ConfigMapVolume.spec_path() != p); assert(find(y9, p) is None);
            assert(Field::HasNodesRbac.spec_path()[0] != p[0]); assert(Field::HasNodesRbac.spec_path().len() != p.len() || Field::HasNodesRbac.spec_path() != p); assert(Field::HasNodesRbac.spec_path() != p); assert(find(y10, p) is None);
            assert(find(x0 + x1, p) is None);
            assert(find(x0 + x1 + x2, p) is None);
            assert(find(x0 + x1 + x2 + y0, p) is None);
            assert(find(x0 + x1 + x2 + y0 + y1, p) is None);
            assert(find(x0 + x1 + x2 + y0 + y1 + y2, p) is None);
            assert(find(x0 + x1 + x2 + y0 + y1 + y2 + y3, p) is None);
            assert(find(x0 + x1 + x2 + y0 + y1 + y2 + y3 + y4, p) is None);
            assert(find(x0 + x1 + x2 + y0 + y1 + y2 + y3 + y4 + y5, p) is None);
            assert(find(x0 + x1 + x2 + y0 + y1 + y2 + y3 + y4 + y5 + y6, p) is None);
            assert(find(x0 + x1 + x2 + y0 + y1 + y2 + y3 + y4 + y5 + y6 + y7, p) is None);
            assert(find(x0 + x1 + x2 + y0 + y1 + y2 + y3 + y4 + y5 + y6 + y7 + y8, p) is None);
            assert(find(x0 + x1 + x2 + y0 + y1 + y2 + y3 + y4 + y5 + y6 + y7 + y8 + y9, p) is None);
            assert(find(x0 + x1 + x2 + y0 + y1 + y2 + y3 + y4 + y5 + y6 + y7 + y8 + y9 + y10, p) is None);
        },
        Field::Homedir => {
            assert(Field::Namespace.spec_path()[0] != p[0]); assert(Field::Namespace.spec_path().len() != p.len() || Field::Namespace.spec_path() != p); assert(Field::Namespace.spec_path() != p); assert(find(x0, p) is None);
            assert(Field::IotHubHostname.spec_path()[0] != p[0]); assert(Field::IotHubHostname.spec_path().len() != p.len() || Field::IotHubHostname.spec_path() != p); assert(Field::IotHubHostname.spec_path() != p); assert(find(x1, p) is None);
            assert(Field::DeviceId.spec_path()[0] != p[0]); assert(Field::DeviceId.spec_path().len() != p.len() || Field::DeviceId.spec_path() != p); assert(Field::DeviceId.spec_path() != p); assert(find(x2, p) is None);
            assert(Field::DeviceHubSelector.spec_path()[0] != p[0]); assert(Field::DeviceHubSelector.spec_path().len() != p.len() || Field::DeviceHubSelector.spec_path() != p); assert(Field::DeviceHubSelector.spec_path() != p); assert(find(y0, p) is None);
            assert(Field::ProxyImage.spec_path().len() != p.len() || Field::ProxyImage.spec_path() != p); assert(Field::ProxyImage.spec_path() != p); assert(find(y1, p) is None);
            assert(Field::ProxyImagePullPolicy.spec_path().len() != p.len() || Field::ProxyImagePullPolicy.spec_path() != p); assert(Field::ProxyImagePullPolicy.spec_path() != p); assert(find(y2, p) is None);
            assert(Field::ProxyConfigPath.spec_path().len() != p.len() || Field::ProxyConfigPath.spec_path() != p); assert(Field::ProxyConfigPath.spec_path() != p); assert(find(y3, p) is None);
            assert(Field::ProxyConfigMapName.spec_path().len() != p.len() || Field::ProxyConfigMapName.spec_path() != p); assert(Field::ProxyConfigMapName.spec_path() != p); assert(find(y4, p) is None);
            assert(Field::ProxyTrustBundlePath.spec_path().len() != p.len() || Field::ProxyTrustBundlePath.spec_path() != p); assert(Field::ProxyTrustBundlePath.spec_path() != p); assert(find(y5, p) is None);
            assert(Field::ProxyTrustBundleConfigMapName.spec_path().len() != p.len() || Field::ProxyTrustBundleConfigMapName.spec_path() != p); assert(Field::ProxyTrustBundleConfigMapName.spec_path() != p); assert(find(y6, p) is None);
            assert(Field::ConfigPath.spec_path()[0] != p[0]); assert(Field::ConfigPath.spec_path().len() != p.len() || Field::ConfigPath.spec_path() != p); assert(Field::ConfigPath.spec_path() != p); assert(find(y7, p) is None);
            assert(Field::ConfigMapName.spec_path()[0] != p[0]); assert(Field::ConfigMapName.spec_path().len() != p.len() || Field::ConfigMapName.spec_path() != p); assert(Field::ConfigMapName.spec_path() != p); assert(find(y8, p) is None);
            assert(Field::ConfigMapVolume.spec_path()[0] != p[0]); assert(Field::ConfigMapVolume.spec_path().len() != p.len() || Field::ConfigMapVolume.spec_path() != p); assert(Field::ConfigMapVolume.spec_path() != p); assert(find(y9, p) is None);
            assert(Field::HasNodesRbac.spec_path()[0] != p[0]); assert(Field::HasNodesRbac.spec_path().len() != p.len() || Field::HasNodesRbac.spec_path() != p); assert(Field::HasNodesRbac.spec_path() != p); assert(find(y10, p) is None);
            assert(find(x0 + x1, p) is None);
            assert(find(x0 + x1 + x2, p) is None);
            assert(find(x0 + x1 + x2 + y0, p) is None);
            assert(find(x0 + x1 + x2 + y0 + y1, p) is None);
            assert(find(x0 + x1 + x2 + y0 + y1 + y2, p) is None);
            assert(find(x0 + x1 + x2 + y0 + y1 + y2 + y3, p) is None);
            assert(find(x0 + x1 + x2 + y0 + y1 + y2 + y3 + y4, p) is None);
            assert(find(x0 + x1 + x2 + y0 + y1 + y2 + y3 + y4 + y5, p) is None);
            assert(find(x0 + x1 + x2 + y0 + y1 + y2 + y3 + y4 + y5 + y6, p) is None);
            assert(find(x0 + x1 + x2 + y0 + y1 + y2 + y3 + y4 + y5 + y6 + y7, p) is None);
            assert(find(x0 + x1 + x2 + y0 + y1 + y2 + y3 + y4 + y5 + y6 + y7 + y8, p) is None);
            assert(find(x0 + x1 + x2 + y0 + y1 + y2 + y3 + y4 + y5 + y6 + y7 + y8 + y9, p) is None);
            assert(find(x0 + x1 + x2 + y0 + y1 + y2 + y3 + y4 + y5 + y6 + y7 + y8 + y9 + y10, p) is None);
        },
        Field::EdgeCaCert => {
            assert(Field::Namespace.spec_path()[0] != p[0]); assert(Field::Namespace.spec_path().len() != p.len() || Field::Namespace.spec_path() != p); assert(Field::Namespace.spec_path() != p); assert(find(x0, p) is None);
            assert(Field::IotHubHostname.spec_path()[0] != p[0]); assert(Field::IotHubHostname.spec_path().len() != p.len() || Field::IotHubHostname.spec_path() != p); assert(Field::IotHubHostname.spec_path() != p); assert(find(x1, p) is None);
            assert(Field::DeviceId.spec_path()[0] != p[0]); assert(Field::DeviceId.spec_path().len() != p.len() || Field::DeviceId.spec_path() != p); assert(Field::DeviceId.spec_path() != p); assert(find(x2, p) is None);
            assert(Field::DeviceHubSelector.spec_path()[0] != p[0]); assert(Field::DeviceHubSelector.spec_path().len() != p.len() || Field::DeviceHubSelector.spec_path() != p); assert(Field::DeviceHubSelector.spec_path() != p); assert(find(y0, p) is None);
            assert(Field::ProxyImage.spec_path().len() != p.len() || Field::ProxyImage.spec_path() != p); assert(Field::ProxyImage.spec_path() != p); assert(find(y1, p) is None);
            assert(Field::ProxyImagePullPolicy.spec_path().len() != p.len() || Field::ProxyImagePullPolicy.spec_path() != p); assert(Field::ProxyImagePullPolicy.spec_path() != p); assert(find(y2, p) is None);
            assert(Field::ProxyConfigPath.spec_path().len() != p.len() || Field::ProxyConfigPath.spec_path() != p); assert(Field::ProxyConfigPath.spec_path() != p); assert(find(y3, p) is None);
            assert(Field::ProxyConfigMapName.spec_path().len() != p.len() || Field::ProxyConfigMapName.spec_path() != p); assert(Field::ProxyConfigMapName.spec_path() != p); assert(find(y4, p) is None);
            assert(Field::ProxyTrustBundlePath.spec_path().len() != p.len() || Field::ProxyTrustBundlePath.spec_path() != p); assert(Field::ProxyTrustBundlePath.spec_path() != p); assert(find(y5, p) is None);
            assert(Field::ProxyTrustBundleConfigMapName.spec_path().len() != p.len() || Field::ProxyTrustBundleConfigMapName.spec_path() != p); assert(Field::ProxyTrustBundleConfigMapName.spec_path() != p); assert(find(y6, p) is None);
            assert(Field::ConfigPath.spec_path()[0] != p[0]); assert(Field::ConfigPath.spec_path().len() != p.len() || Field::ConfigPath.spec_path() != p); assert(Field::ConfigPath.spec_path() != p); assert(find(y7, p) is None);
            assert(Field::ConfigMapName.spec_path()[0] != p[0]); assert(Field::ConfigMapName.spec_path().len() != p.len() || Field::ConfigMapName.spec_path() != p); assert(Field::ConfigMapName.spec_path() != p); assert(find(y8, p) is None);
            assert(Field::ConfigMapVolume.spec_path()[0] != p[0]); assert(Field::ConfigMapVolume.spec_path().len() != p.len() || Field::ConfigMapVolume.spec_path() != p); assert(Field::ConfigMapVolume.spec_path() != p); assert(find(y9, p) is None);
            assert(Field::HasNodesRbac.spec_path()[0] != p[0]); assert(Field::HasNodesRbac.spec_path().len() != p.len() || Field::HasNodesRbac.spec_path() != p); assert(Field::HasNodesRbac.spec_path() != p); assert(find(y10, p) is None);
            assert(find(x0 + x1, p) is None);
            assert(find(x0 + x1 + x2, p) is None);
            assert(find(x0 + x1 + x2 + y0, p) is None);
            assert(find(x0 + x1 + x2 + y0 + y1, p) is None);
            assert(find(x0 + x1 + x2 + y0 + y1 + y2, p) is None);
            assert(find(x0 + x1 + x2 + y0 + y1 + y2 + y3, p) is None);
            assert(find(x0 + x1 + x2 + y0 + y1 + y2 + y3 + y4, p) is None);
            assert(find(x0 + x1 + x2 + y0 + y1 + y2 + y3 + y4 + y5, p) is None);
            assert(find(x0 + x1 + x2 + y0 + y1 + y2 + y3 + y4 + y5 + y6, p) is None);
            assert(find(x0 + x1 + x2 + y0 + y1 + y2 + y3 + y4 + y5 + y6 + y7, p) is None);
            assert(find(x0 + x1 + x2 + y0 + y1 + y2 + y3 + y4 + y5 + y6 + y7 + y8, p) is None);
            assert(find(x0 + x1 + x2 + y0 + y1 + y2 + y3 + y4 + y5 + y6 + y7 + y8 + y9, p) is None);
            assert(find(x0 + x1 + x2 + y0 + y1 + y2 + y3 + y4 + y5 + y6 + y7 + y8 + y9 + y10, p) is None);
        },
        Field::EdgeCaKey => {
            assert(Field::Namespace.spec_path()[0] != p[0]); assert(Field::Namespace.spec_path().len() != p.len() || Field::Namespace.spec_path() != p); assert(Field::Namespace.spec_path() != p); assert(find(x0, p) is None);
            assert(Field::IotHubHostname.spec_path()[0] != p[0]); assert(Field::IotHubHostname.spec_path().len() != p.len() || Field::IotHubHostname.spec_path() != p); assert(Field::IotHubHostname.spec_path() != p); assert(find(x1, p) is None);
            assert(Field::DeviceId.spec_path()[0] != p[0]); assert(Field::DeviceId.spec_path().len() != p.len() || Field::DeviceId.spec_path() != p); assert(Field::DeviceId.spec_path() != p); assert(find(x2, p) is None);
            assert(Field::DeviceHubSelector.spec_path()[0] != p[0]); assert(Field::DeviceHubSelector.spec_path().len() != p.len() || Field::DeviceHubSelector.spec_path() != p); assert(Field::DeviceHubSelector.spec_path() != p); assert(find(y0, p) is None);
            assert(Field::ProxyImage.spec_path().len() != p.len() || Field::ProxyImage.spec_path() != p); assert(Field::ProxyImage.spec_path() != p); assert(find(y1, p) is None);
            assert(Field::ProxyImagePullPolicy.spec_path().len() != p.len() || Field::ProxyImagePullPolicy.spec_path() != p); assert(Field::ProxyImagePullPolicy.spec_path() != p); assert(find(y2, p) is None);
            assert(Field::ProxyConfigPath.spec_path().len() != p.len() || Field::ProxyConfigPath.spec_path() != p); assert(Field::ProxyConfigPath.spec_path() != p); assert(find(y3, p) is None);
            assert(Field::ProxyConfigMapName.spec_path().len() != p.len() || Field::ProxyConfigMapName.spec_path() != p); assert(Field::ProxyConfigMapName.spec_path() != p); assert(find(y4, p) is None);
            assert(Field::ProxyTrustBundlePath.spec_path().len() != p.len() || Field::ProxyTrustBundlePath.spec_path() != p); assert(Field::ProxyTrustBundlePath.spec_path() != p); assert(find(y5, p) is None);
            assert(Field::ProxyTrustBundleConfigMapName.spec_path().len() != p.len() || Field::ProxyTrustBundleConfigMapName.spec_path() != p); assert(Field::ProxyTrustBundleConfigMapName.spec_path() != p); assert(find(y6, p) is None);
            assert(Field::ConfigPath.spec_path()[0] != p[0]); assert(Field::ConfigPath.spec_path().len() != p.len() || Field::ConfigPath.spec_path() != p); assert(Field::ConfigPath.spec_path() != p); assert(find(y7, p) is None);
            assert(Field::ConfigMapName.spec_path()[0] != p[0]); assert(Field::ConfigMapName.spec_path().len() != p.len() || Field::ConfigMapName.spec_path() != p); assert(Field::ConfigMapName.spec_path() != p); assert(find(y8, p) is None);
            assert(Field::ConfigMapVolume.spec_path()[0] != p[0]); assert(Field::ConfigMapVolume.spec_path().len() != p.len() || Field::ConfigMapVolume.spec_path() != p); assert(Field::ConfigMapVolume.spec_path() != p); assert(find(y9, p) is None);
            assert(Field::HasNodesRbac.spec_path()[0] != p[0]); assert(Field::HasNodesRbac.spec_path().len() != p.len() || Field::HasNodesRbac.spec_path() != p); assert(Field::HasNodesRbac.spec_path() != p); assert(find(y10, p) is None);
            assert(find(x0 + x1, p) is None);
            assert(find(x0 + x1 + x2, p) is None);
            assert(find(x0 + x1 + x2 + y0, p) is None);
            assert(find(x0 + x1 + x2 + y0 + y1, p) is None);
            assert(find(x0 + x1 + x2 + y0 + y1 + y2, p) is None);
            assert(find(x0 + x1 + x2 + y0 + y1 + y2 + y3, p) is None);
            assert(find(x0 + x1 + x2 + y0 + y1 + y2 + y3 + y4, p) is None);
            assert(find(x0 + x1 + x2 + y0 + y1 + y2 + y3 + y4 + y5, p) is None);
            assert(find(x0 + x1 + x2 + y0 + y1 + y2 + y3 + y4 + y5 + y6, p) is None);
            assert(find(x0 + x1 + x2 + y0 + y1 + y2 + y3 + y4 + y5 + y6 + y7, p) is None);
            assert(find(x0 + x1 + x2 + y0 + y1 + y2 + y3 + y4 + y5 + y6 + y7 + y8, p) is None);
            assert(find(x0 + x1 + x2 + y0 + y1 + y2 + y3 + y4 + y5 + y6 + y7 + y8 + y9, p) is None);
            assert(find(x0 + x1 + x2 + y0 + y1 + y2 + y3 + y4 + y5 + y6 + y7 + y8 + y9 + y10, p) is None);
        },
        Field::TrustBundleCert => {
            assert(Field::Namespace.spec_path()[0] != p[0]); assert(Field::Namespace.spec_path().len() != p.len() || Field::Namespace.spec_path() != p); assert(Field::Namespace.spec_path() != p); assert(find(x0, p) is None);
            assert(Field::IotHubHostname.spec_path()[0] != p[0]); assert(Field::IotHubHostname.spec_path().len() != p.len() || Field::IotHubHostname.spec_path() != p); assert(Field::IotHubHostname.spec_path() != p); assert(find(x1, p) is None);
            assert(Field::DeviceId.spec_path()[0] != p[0]); assert(Field::DeviceId.spec_path().len() != p.len() || Field::DeviceId.spec_path() != p); assert(Field::DeviceId.spec_path() != p); assert(find(x2, p) is None);
            assert(Field::DeviceHubSelector.spec_path()[0] != p[0]); assert(Field::DeviceHubSelector.spec_path().len() != p.len() || Field::DeviceHubSelector.spec_path() != p); assert(Field::DeviceHubSelector.spec_path() != p); assert(find(y0, p) is None);
            assert(Field::ProxyImage.spec_path().len() != p.len() || Field::ProxyImage.spec_path() != p); assert(Field::ProxyImage.spec_path() != p); assert(find(y1, p) is None);
            assert(Field::ProxyImagePullPolicy.spec_path().len() != p.len() || Field::ProxyImagePullPolicy.spec_path() != p); assert(Field::ProxyImagePullPolicy.spec_path() != p); assert(find(y2, p) is None);
            assert(Field::ProxyConfigPath.spec_path().len() != p.len() || Field::ProxyConfigPath.spec_path() != p); assert(Field::ProxyConfigPath.spec_path() != p); assert(find(y3, p) is None);
            assert(Field::ProxyConfigMapName.spec_path().len() != p.len() || Field::ProxyConfigMapName.spec_path() != p); assert(Field::ProxyConfigMapName.spec_path() != p); assert(find(y4, p) is None);
            assert(Field::ProxyTrustBundlePath.spec_path().len() != p.len() || Field::ProxyTrustBundlePath.spec_path() != p); assert(Field::ProxyTrustBundlePath.spec_path() != p); assert(find(y5, p) is None);
            assert(Field::ProxyTrustBundleConfigMapName.spec_path().len() != p.len() || Field::ProxyTrustBundleConfigMapName.spec_path() != p); assert(Field::ProxyTrustBundleConfigMapName.spec_path() != p); assert(find(y6, p) is None);
            assert(Field::ConfigPath.spec_path()[0] != p[0]); assert(Field::ConfigPath.spec_path().len() != p.len() || Field::ConfigPath.spec_path() != p); assert(Field::ConfigPath.spec_path() != p); assert(find(y7, p) is None);
            assert(Field::ConfigMapName.spec_path()[0] != p[0]); assert(Field::ConfigMapName.spec_path().len() != p.len() || Field::ConfigMapName.spec_path() != p); assert(Field::ConfigMapName.spec_path() != p); assert(find(y8, p) is None);
            assert(Field::ConfigMapVolume.spec_path()[0] != p[0]); assert(Field::ConfigMapVolume.spec_path().len() != p.len() || Field::ConfigMapVolume.spec_path() != p); assert(Field::ConfigMapVolume.spec_path() != p); assert(find(y9, p) is None);
            assert(Field::HasNodesRbac.spec_path()[0] != p[0]); assert(Field::HasNodesRbac.spec_path().len() != p.len() || Field::HasNodesRbac.spec_path() != p); assert(Field::HasNodesRbac.spec_path() != p); assert(find(y10, p) is None);
            assert(find(x0 + x1, p) is None);
            assert(find(x0 + x1 + x2, p) is None);
            assert(find(x0 + x1 + x2 + y0, p) is None);
            assert(find(x0 + x1 + x2 + y0 + y1, p) is None);
            assert(find(x0 + x1 + x2 + y0 + y1 + y2, p) is None);
            assert(find(x0 + x1 + x2 + y0 + y1 + y2 + y3, p) is None);
            assert(find(x0 + x1 + x2 + y0 + y1 + y2 + y3 + y4, p) is None);
            assert(find(x0 + x1 + x2 + y0 + y1 + y2 + y3 + y4 + y5, p) is None);
            assert(find(x0 + x1 + x2 + y0 + y1 + y2 + y3 + y4 + y5 + y6, p) is None);
            assert(find(x0 + x1 + x2 + y0 + y1 + y2 + y3 + y4 + y5 + y6 + y7, p) is None);
            assert(find(x0 + x1 + x2 + y0 + y1 + y2 + y3 + y4 + y5 + y6 + y7 + y8, p) is None);
            assert(find(x0 + x1 + x2 + y0 + y1 + y2 + y3 + y4 + y5 + y6 + y7 + y8 + y9, p) is None);
            assert(find(x0 + x1 + x2 + y0 + y1 + y2 + y3 + y4 + y5 + y6 + y7 + y8 + y9 + y10, p) is None);
        },
        Field::AutoReprovisioningMode => {
            assert(Field::Namespace.spec_path()[0] != p[0]); assert(Field::Namespace.spec_path().len() != p.len() || Field::Namespace.spec_path() != p); assert(Field::Namespace.spec_path() != p); assert(find(x0, p) is None);
            assert(Field::IotHubHostname.spec_path()[0] != p[0]); assert(Field::IotHubHostname.spec_path().len() != p.len() || Field::IotHubHostname.spec_path() != p); assert(Field::IotHubHostname.spec_path() != p); assert(find(x1, p) is None);
            assert(Field::DeviceId.spec_path()[0] != p[0]); assert(Field::DeviceId.spec_path().len() != p.len() || Field::DeviceId.spec_path() != p); assert(Field::DeviceId.spec_path() != p); assert(find(x2, p) is None);
            assert(Field::DeviceHubSelector.spec_path()[0] != p[0]); assert(Field::DeviceHubSelector.spec_path().len() != p.len() || Field::DeviceHubSelector.spec_path() != p); assert(Field::DeviceHubSelector.spec_path() != p); assert(find(y0, p) is None);
            assert(Field::ProxyImage.spec_path().len() != p.len() || Field::ProxyImage.spec_path() != p); assert(Field::ProxyImage.spec_path() != p); assert(find(y1, p) is None);
            assert(Field::ProxyImagePullPolicy.spec_path().len() != p.len() || Field::ProxyImagePullPolicy.spec_path() != p); assert(Field::ProxyImagePullPolicy.spec_path() != p); assert(find(y2, p) is None);
            assert(Field::ProxyConfigPath.spec_path().len() != p.len() || Field::ProxyConfigPath.spec_path() != p); assert(Field::ProxyConfigPath.spec_path() != p); assert(find(y3, p) is None);
            assert(Field::ProxyConfigMapName.spec_path().len() != p.len() || Field::ProxyConfigMapName.spec_path() != p); assert(Field::ProxyConfigMapName.spec_path() != p); assert(find(y4, p) is None);
            assert(Field::ProxyTrustBundlePath.spec_path().len() != p.len() || Field::ProxyTrustBundlePath.spec_path() != p); assert(Field::ProxyTrustBundlePath.spec_path() != p); assert(find(y5, p) is None);
            assert(Field::ProxyTrustBundleConfigMapName.spec_path().len() != p.len() || Field::ProxyTrustBundleConfigMapName.spec_path() != p); assert(Field::ProxyTrustBundleConfigMapName.spec_path() != p); assert(find(y6, p) is None);
            assert(Field::ConfigPath.spec_path()[0] != p[0]); assert(Field::ConfigPath.spec_path().len() != p.len() || Field::ConfigPath.spec_path() != p); assert(Field::ConfigPath.spec_path() != p); assert(find(y7, p) is None);
            assert(Field::ConfigMapName.spec_path()[0] != p[0]); assert(Field::ConfigMapName.spec_path().len() != p.len() || Field::ConfigMapName.spec_path() != p); assert(Field::ConfigMapName.spec_path() != p); assert(find(y8, p) is None);
            assert(Field::ConfigMapVolume.spec_path()[0] != p[0]); assert(Field::ConfigMapVolume.spec_path().len() != p.len() || Field::ConfigMapVolume.spec_path() != p); assert(Field::ConfigMapVolume.spec_path() != p); assert(find(y9, p) is None);
            assert(Field::HasNodesRbac.spec_path()[0] != p[0]); assert(Field::HasNodesRbac.spec_path().len() != p.len() || Field::HasNodesRbac.spec_path() != p); assert(Field::HasNodesRbac.spec_path() != p); assert(find(y10, p) is None);
            assert(find(x0 + x1, p) is None);
            assert(find(x0 + x1 + x2, p) is None);
            assert(find(x0 + x1 + x2 + y0, p) is None);
            assert(find(x0 + x1 + x2 + y0 + y1, p) is None);
            assert(find(x0 + x1 + x2 + y0 + y1 + y2, p) is None);
            assert(find(x0 + x1 + x2 + y0 + y1 + y2 + y3, p) is None);
            assert(find(x0 + x1 + x2 + y0 + y1 + y2 + y3 + y4, p) is None);
            assert(find(x0 + x1 + x2 + y0 + y1 + y2 + y3 + y4 + y5, p) is None);
            assert(find(x0 + x1 + x2 + y0 + y1 + y2 + y3 + y4 + y5 + y6, p) is None);
            assert(find(x0 + x1 + x2 + y0 + y1 + y2 + y3 + y4 + y5 + y6 + y7, p) is None);
            assert(find(x0 + x1 + x2 + y0 + y1 + y2 + y3 + y4 + y5 + y6 + y7 + y8, p) is None);
            assert(find(x0 + x1 + x2 + y0 + y1 + y2 + y3 + y4 + y5 + y6 + y7 + y8 + y9, p) is None);
            assert(find(x0 + x1 + x2 + y0 + y1 + y2 + y3 + y4 + y5 + y6 + y7 + y8 + y9 + y10, p) is None);
        },
        Field::Watchdog => {
            assert(Field::Namespace.spec_path()[0] != p[0]); assert(Field::Namespace.spec_path().len() != p.len() || Field::Namespace.spec_path() != p); assert(Field::Namespace.spec_path() != p); assert(find(x0, p) is None);
            assert(Field::IotHubHostname.spec_path()[0] != p[0]); assert(Field::IotHubHostname.spec_path().len() != p.len() || Field::IotHubHostname.spec_path() != p); assert(Field::IotHubHostname.spec_path() != p); assert(find(x1, p) is None);
            assert(Field::DeviceId.spec_path()[0] != p[0]); assert(Field::DeviceId.spec_path().len() != p.len() || Field::DeviceId.spec_path() != p); assert(Field::DeviceId.spec_path() != p); assert(find(x2, p) is None);
            assert(Field::DeviceHubSelector.spec_path()[0] != p[0]); assert(Field::DeviceHubSelector.spec_path().len() != p.len() || Field::DeviceHubSelector.spec_path() != p); assert(Field::DeviceHubSelector.spec_path() != p); assert(find(y0, p) is None);
            assert(Field::ProxyImage.spec_path().len() != p.len() || Field::ProxyImage.spec_path() != p); assert(Field::ProxyImage.spec_path() != p); assert(find(y1, p) is None);
            assert(Field::ProxyImagePullPolicy.spec_path().len() != p.len() || Field::ProxyImagePullPolicy.spec_path() != p); assert(Field::ProxyImagePullPolicy.spec_path() != p); assert(find(y2, p) is None);
            assert(Field::ProxyConfigPath.spec_path().len() != p.len() || Field::ProxyConfigPath.spec_path() != p); assert(Field::ProxyConfigPath.spec_path() != p); assert(find(y3, p) is None);
            assert(Field::ProxyConfigMapName.spec_path().len() != p.len() || Field::ProxyConfigMapName.spec_path() != p); assert(Field::ProxyConfigMapName.spec_path() != p); assert(find(y4, p) is None);
            assert(Field::ProxyTrustBundlePath.spec_path().len() != p.len() || Field::ProxyTrustBundlePath.spec_path() != p); assert(Field::ProxyTrustBundlePath.spec_path() != p); assert(find(y5, p) is None);
            assert(Field::ProxyTrustBundleConfigMapName.spec_path().len() != p.len() || Field::ProxyTrustBundleConfigMapName.spec_path() != p); assert(Field::ProxyTrustBundleConfigMapName.spec_path() != p); assert(find(y6, p) is None);
            assert(Field::ConfigPath.spec_path()[0] != p[0]); assert(Field::ConfigPath.spec_path().len() != p.len() || Field::ConfigPath.spec_path() != p); assert(Field::ConfigPath.spec_path() != p); assert(find(y7, p) is None);
            assert(Field::ConfigMapName.spec_path()[0] != p[0]); assert(Field::ConfigMapName.spec_path().len() != p.len() || Field::ConfigMapName.spec_path() != p); assert(Field::ConfigMapName.spec_path() != p); assert(find(y8, p) is None);
            assert(Field::ConfigMapVolume.spec_path()[0] != p[0]); assert(Field::ConfigMapVolume.spec_path().len() != p.len() || Field::ConfigMapVolume.spec_path() != p); assert(Field::ConfigMapVolume.spec_path() != p); assert(find(y9, p) is None);
            assert(Field::HasNodesRbac.spec_path()[0] != p[0]); assert(Field::HasNodesRbac.spec_path().len() != p.len() || Field::HasNodesRbac.spec_path() != p); assert(Field::HasNodesRbac.spec_path() != p); assert(find(y10, p) is None);
            assert(find(x0 + x1, p) is None);
            assert(find(x0 + x1 + x2, p) is None);
            assert(find(x0 + x1 + x2 + y0, p) is None);
            assert(find(x0 + x1 + x2 + y0 + y1, p) is None);
            assert(find(x0 + x1 + x2 + y0 + y1 + y2, p) is None);
            assert(find(x0 + x1 + x2 + y0 + y1 + y2 + y3, p) is None);
            assert(find(x0 + x1 + x2 + y0 + y1 + y2 + y3 + y4, p) is None);
            assert(find(x0 + x1 + x2 + y0 + y1 + y2 + y3 + y4 + y5, p) is None);
            assert(find(x0 + x1 + x2 + y0 + y1 + y2 + y3 + y4 + y5 + y6, p) is None);
            assert(find(x0 + x1 + x2 + y0 + y1 + y2 + y3 + y4 + y5 + y6 + y7, p) is None);
            assert(find(x0 + x1 + x2 + y0 + y1 + y2 + y3 + y4 + y5 + y6 + y7 + y8, p) is None);
            assert(find(x0 + x1 + x2 + y0 + y1 + y2 + y3 + y4 + y5 + y6 + y7 + y8 + y9, p) is None);
            assert(find(x0 + x1 + x2 + y0 + y1 + y2 + y3 + y4 + y5 + y6 + y7 + y8 + y9 + y10, p) is None);
        },
        Field::Endpoints => {
            assert(Field::Namespace.spec_path()[0] != p[0]); assert(Field::Namespace.spec_path().len() != p.len() || Field::Namespace.spec_path() != p); assert(Field::Namespace.spec_path() != p); assert(find(x0, p) is None);
            assert(Field::IotHubHostname.spec_path()[0] != p[0]); assert(Field::IotHubHostname.spec_path().len() != p.len() || Field::IotHubHostname.spec_path() != p); assert(Field::IotHubHostname.spec_path() != p); assert(find(x1, p) is None);
            assert(Field::DeviceId.spec_path()[0] != p[0]); assert(Field::DeviceId.spec_path().len() != p.len() || Field::DeviceId.spec_path() != p); assert(Field::DeviceId.spec_path() != p); assert(find(x2, p) is None);
            assert(Field::DeviceHubSelector.spec_path()[0] != p[0]); assert(Field::DeviceHubSelector.spec_path().len() != p.len() || Field::DeviceHubSelector.spec_path() != p); assert(Field::DeviceHubSelector.spec_path() != p); assert(find(y0, p) is None);
            assert(Field::ProxyImage.spec_path().len() != p.len() || Field::ProxyImage.spec_path() != p); assert(Field::ProxyImage.spec_path() != p); assert(find(y1, p) is None);
            assert(Field::ProxyImagePullPolicy.spec_path().len() != p.len() || Field::ProxyImagePullPolicy.spec_path() != p); assert(Field::ProxyImagePullPolicy.spec_path() != p); assert(find(y2, p) is None);
            assert(Field::ProxyConfigPath.spec_path().len() != p.len() || Field::ProxyConfigPath.spec_path() != p); assert(Field::ProxyConfigPath.spec_path() != p); assert(find(y3, p) is None);
            assert(Field::ProxyConfigMapName.spec_path().len() != p.len() || Field::ProxyConfigMapName.spec_path() != p); assert(Field::ProxyConfigMapName.spec_path() != p); assert(find(y4, p) is None);
            assert(Field::ProxyTrustBundlePath.spec_path().len() != p.len() || Field::ProxyTrustBundlePath.spec_path() != p); assert(Field::ProxyTrustBundlePath.spec_path() != p); assert(find(y5, p) is None);
            assert(Field::ProxyTrustBundleConfigMapName.spec_path().len() != p.len() || Field::ProxyTrustBundleConfigMapName.spec_path() != p); assert(Field::ProxyTrustBundleConfigMapName.spec_path() != p); assert(find(y6, p) is None);
            assert(Field::ConfigPath.spec_path()[0] != p[0]); assert(Field::ConfigPath.spec_path().len() != p.len() || Field::ConfigPath.spec_path() != p); assert(Field::ConfigPath.spec_path() != p); assert(find(y7, p) is None);
            assert(Field::ConfigMapName.spec_path()[0] != p[0]); assert(Field::ConfigMapName.spec_path().len() != p.len() || Field::ConfigMapName.spec_path() != p); assert(Field::ConfigMapName.spec_path() != p); assert(find(y8, p) is None);
            assert(Field::ConfigMapVolume.spec_path()[0] != p[0]); assert(Field::ConfigMapVolume.spec_path().len() != p.len() || Field::ConfigMapVolume.spec_path() != p); assert(Field::ConfigMapVolume.spec_path() != p); assert(find(y9, p) is None);
            assert(Field::HasNodesRbac.spec_path()[0] != p[0]); assert(Field::HasNodesRbac.spec_path().len() != p.len() || Field::HasNodesRbac.spec_path() != p); assert(Field::HasNodesRbac.spec_path() != p); assert(find(y10, p) is None);
            assert(find(x0 + x1, p) is None);
            assert(find(x0 + x1 + x2, p) is None);
            assert(find(x0 + x1 + x2 + y0, p) is None);
            assert(find(x0 + x1 + x2 + y0 + y1, p) is None);
            assert(find(x0 + x1 + x2 + y0 + y1 + y2, p) is None);
            assert(find(x0 + x1 + x2 + y0 + y1 + y2 + y3, p) is None);
            assert(find(x0 + x1 + x2 + y0 + y1 + y2 + y3 + y4, p) is None);
            assert(find(x0 + x1 + x2 + y0 + y1 + y2 + y3 + y4 + y5, p) is None);
            assert(find(x0 + x1 + x2 + y0 + y1 + y2 + y3 + y4 + y5 + y6, p) is None);
            assert(find(x0 + x1 + x2 + y0 + y1 + y2 + y3 + y4 + y5 + y6 + y7, p) is None);
            assert(find(x0 + x1 + x2 + y0 + y1 + y2 + y3 + y4 + y5 + y6 + y7 + y8, p) is None);
            assert(find(x0 + x1 + x2 + y0 + y1 + y2 + y3 + y4 + y5 + y6 + y7 + y8 + y9, p) is None);
            assert(find(x0 + x1 + x2 + y0 + y1 + y2 + y3 + y4 + y5 + y6 + y7 + y8 + y9 + y10, p) is None);
        },
        Field::Agent => {
            assert(Field::Namespace.spec_path()[0] != p[0]); assert(Field::Namespace.spec_path().len() != p.len() || Field::Namespace.spec_path() != p); assert(Field::Namespace.spec_path() != p); assert(find(x0, p) is None);
            assert(Field::IotHubHostname.spec_path()[0] != p[0]); assert(Field::IotHubHostname.spec_path().len() != p.len() || Field::IotHubHostname.spec_path() != p); assert(Field::IotHubHostname.spec_path() != p); assert(find(x1, p) is None);
            assert(Field::DeviceId.spec_path()[0] != p[0]); assert(Field::DeviceId.spec_path().len() != p.len() || Field::DeviceId.spec_path() != p); assert(Field::DeviceId.spec_path() != p); assert(find(x2, p) is None);
            assert(Field::DeviceHubSelector.spec_path()[0] != p[0]); assert(Field::DeviceHubSelector.spec_path().len() != p.len() || Field::DeviceHubSelector.spec_path() != p); assert(Field::DeviceHubSelector.spec_path() != p); assert(find(y0, p) is None);
            assert(Field::ProxyImage.spec_path().len() != p.len() || Field::ProxyImage.spec_path() != p); assert(Field::ProxyImage.spec_path() != p); assert(find(y1, p) is None);
            assert(Field::ProxyImagePullPolicy.spec_path().len() != p.len() || Field::ProxyImagePullPolicy.spec_path() != p); assert(Field::ProxyImagePullPolicy.spec_path() != p); assert(find(y2, p) is None);
            assert(Field::ProxyConfigPath.spec_path().len() != p.len() || Field::ProxyConfigPath.spec_path() != p); assert(Field::ProxyConfigPath.spec_path() != p); assert(find(y3, p) is None);
            assert(Field::ProxyConfigMapName.spec_path().len() != p.len() || Field::ProxyConfigMapName.spec_path() != p); assert(Field::ProxyConfigMapName.spec_path() != p); assert(find(y4, p) is None);
            assert(Field::ProxyTrustBundlePath.spec_path().len() != p.len() || Field::ProxyTrustBundlePath.spec_path() != p); assert(Field::ProxyTrustBundlePath.spec_path() != p); assert(find(y5, p) is None);
            assert(Field::ProxyTrustBundleConfigMapName.spec_path().len() != p.len() || Field::ProxyTrustBundleConfigMapName.spec_path() != p); assert(Field::ProxyTrustBundleConfigMapName.spec_path() != p); assert(find(y6, p) is None);
            assert(Field::ConfigPath.spec_path()[0] != p[0]); assert(Field::ConfigPath.spec_path().len() != p.len() || Field::ConfigPath.spec_path() != p); assert(Field::ConfigPath.spec_path() != p); assert(find(y7, p) is None);
            assert(Field::ConfigMapName.spec_path()[0] != p[0]); assert(Field::ConfigMapName.spec_path().len() != p.len() || Field::ConfigMapName.spec_path() != p); assert(Field::ConfigMapName.spec_path() != p); assert(find(y8, p) is None);
            assert(Field::ConfigMapVolume.spec_path()[0] != p[0]); assert(Field::ConfigMapVolume.spec_path().len() != p.len() || Field::ConfigMapVolume.spec_path() != p); assert(Field::ConfigMapVolume.spec_path() != p); assert(find(y9, p) is None);
            assert(Field::HasNodesRbac.spec_path()[0] != p[0]); assert(Field::HasNodesRbac.spec_path().len() != p.len() || Field::HasNodesRbac.spec_path() != p); assert(Field::HasNodesRbac.spec_path() != p); assert(find(y10, p) is None);
            assert(find(x0 + x1, p) is None);
            assert(find(x0 + x1 + x2, p) is None);
            assert(find(x0 + x1 + x2 + y0, p) is None);
            assert(find(x0 + x1 + x2 + y0 + y1, p) is None);
            assert(find(x0 + x1 + x2 + y0 + y1 + y2, p) is None);
            assert(find(x0 + x1 + x2 + y0 + y1 + y2 + y3, p) is None);
            assert(find(x0 + x1 + x2 + y0 + y1 + y2 + y3 + y4, p) is None);
            assert(find(x0 + x1 + x2 + y0 + y1 + y2 + y3 + y4 + y5, p) is None);
            assert(find(x0 + x1 + x2 + y0 + y1 + y2 + y3 + y4 + y5 + y6, p) is None);
            assert(find(x0 + x1 + x2 + y0 + y1 + y2 + y3 + y4 + y5 + y6 + y7, p) is None);
            assert(find(x0 + x1 + x2 + y0 + y1 + y2 + y3 + y4 + y5 + y6 + y7 + y8, p) is None);
            assert(find(x0 + x1 + x2 + y0 + y1 + y2 + y3 + y4 + y5 + y6 + y7 + y8 + y9, p) is None);
            assert(find(x0 + x1 + x2 + y0 + y1 + y2 + y3 + y4 + y5 + y6 + y7 + y8 + y9 + y10, p) is None);
        },
        Field::Connect => {
            assert(Field::Namespace.spec_path()[0] != p[0]); assert(Field::Namespace.spec_path().len() != p.len() || Field::Namespace.spec_path() != p); assert(Field::Namespace.spec_path() != p); assert(find(x0, p) is None);
            assert(Field::IotHubHostname.spec_path()[0] != p[0]); assert(Field::IotHubHostname.spec_path().len() != p.len() || Field::IotHubHostname.spec_path() != p); assert(Field::IotHubHostname.spec_path() != p); assert(find(x1, p) is None);
            assert(Field::DeviceId.spec_path()[0] != p[0]); assert(Field::DeviceId.spec_path().len() != p.len() || Field::DeviceId.spec_path() != p); assert(Field::DeviceId.spec_path() != p); assert(find(x2, p) is None);
            assert(Field::DeviceHubSelector.spec_path()[0] != p[0]); assert(Field::DeviceHubSelector.spec_path().len() != p.len() || Field::DeviceHubSelector.spec_path() != p); assert(Field::DeviceHubSelector.spec_path() != p); assert(find(y0, p) is None);
            assert(Field::ProxyImage.spec_path().len() != p.len() || Field::ProxyImage.spec_path() != p); assert(Field::ProxyImage.spec_path() != p); assert(find(y1, p) is None);
            assert(Field::ProxyImagePullPolicy.spec_path().len() != p.len() || Field::ProxyImagePullPolicy.spec_path() != p); assert(Field::ProxyImagePullPolicy.spec_path() != p); assert(find(y2, p) is None);
            assert(Field::ProxyConfigPath.spec_path().len() != p.len() || Field::ProxyConfigPath.spec_path() != p); assert(Field::ProxyConfigPath.spec_path() != p); assert(find(y3, p) is None);
            assert(Field::ProxyConfigMapName.spec_path().len() != p.len() || Field::ProxyConfigMapName.spec_path() != p); assert(Field::ProxyConfigMapName.spec_path() != p); assert(find(y4, p) is None);
            assert(Field::ProxyTrustBundlePath.spec_path().len() != p.len() || Field::ProxyTrustBundlePath.spec_path() != p); assert(Field::ProxyTrustBundlePath.spec_path() != p); assert(find(y5, p) is None);
            assert(Field::ProxyTrustBundleConfigMapName.spec_path().len() != p.len() || Field::ProxyTrustBundleConfigMapName.spec_path() != p); assert(Field::ProxyTrustBundleConfigMapName.spec_path() != p); assert(find(y6, p) is None);
            assert(Field::ConfigPath.spec_path()[0] != p[0]); assert(Field::ConfigPath.spec_path().len() != p.len() || Field::ConfigPath.spec_path() != p); assert(Field::ConfigPath.spec_path() != p); assert(find(y7, p) is None);
            assert(Field::ConfigMapName.spec_path()[0] != p[0]); assert(Field::ConfigMapName.spec_path().len() != p.len() || Field::ConfigMapName.spec_path() != p); assert(Field::ConfigMapName.spec_path() != p); assert(find(y8, p) is None);
            assert(Field::ConfigMapVolume.spec_path()[0] != p[0]); assert(Field::ConfigMapVolume.spec_path().len() != p.len() || Field::ConfigMapVolume.spec_path() != p); assert(Field::ConfigMapVolume.spec_path() != p); assert(find(y9, p) is None);
            assert(Field::HasNodesRbac.spec_path()[0] != p[0]); assert(Field::HasNodesRbac.spec_path().len() != p.len() || Field::HasNodesRbac.spec_path() != p); assert(Field::HasNodesRbac.spec_path() != p); assert(find(y10, p) is None);
            assert(find(x0 + x1, p) is None);
            assert(find(x0 + x1 + x2, p) is None);
            assert(find(x0 + x1 + x2 + y0, p) is None);
            assert(find(x0 + x1 + x2 + y0 + y1, p) is None);
            assert(find(x0 + x1 + x2 + y0 + y1 + y2, p) is None);
            assert(find(x0 + x1 + x2 + y0 + y1 + y2 + y3, p) is None);
            assert(find(x0 + x1 + x2 + y0 + y1 + y2 + y3 + y4, p) is None);
            assert(find(x0 + x1 + x2 + y0 + y1 + y2 + y3 + y4 + y5, p) is None);
            assert(find(x0 + x1 + x2 + y0 + y1 + y2 + y3 + y4 + y5 + y6, p) is None);
            assert(find(x0 + x1 + x2 + y0 + y1 + y2 + y3 + y4 + y5 + y6 + y7, p) is None);
            assert(find(x0 + x1 + x2 + y0 + y1 + y2 + y3 + y4 + y5 + y6 + y7 + y8, p) is None);
            assert(find(x0 + x1 + x2 + y0 + y1 + y2 + y3 + y4 + y5 + y6 + y7 + y8 + y9, p) is None);
            assert(find(x0 + x1 + x2 + y0 + y1 + y2 + y3 + y4 + y5 + y6 + y7 + y8 + y9 + y10, p) is None);
        },
        Field::Listen => {
            assert(Field::Namespace.spec_path()[0] != p[0]); assert(Field::Namespace.spec_path().len() != p.len() || Field::Namespace.spec_path() != p); assert(Field::Namespace.spec_path() != p); assert(find(x0, p) is None);
            assert(Field::IotHubHostname.spec_path()[0] != p[0]); assert(Field::IotHubHostname.spec_path().len() != p.len() || Field::IotHubHostname.spec_path() != p); assert(Field::IotHubHostname.spec_path() != p); assert(find(x1, p) is None);
            assert(Field::DeviceId.spec_path()[0] != p[0]); assert(Field::DeviceId.spec_path().len() != p.len() || Field::DeviceId.spec_path() != p); assert(Field::DeviceId.spec_path() != p); assert(find(x2, p) is None);
            assert(Field::DeviceHubSelector.spec_path()[0] != p[0]); assert(Field::DeviceHubSelector.spec_path().len() != p.len() || Field::DeviceHubSelector.spec_path() != p); assert(Field::DeviceHubSelector.spec_path() != p); assert(find(y0, p) is None);
            assert(Field::ProxyImage.spec_path().len() != p.len() || Field::ProxyImage.spec_path() != p); assert(Field::ProxyImage.spec_path() != p); assert(find(y1, p) is None);
            assert(Field::ProxyImagePullPolicy.spec_path().len() != p.len() || Field::ProxyImagePullPolicy.spec_path() != p); assert(Field::ProxyImagePullPolicy.spec_path() != p); assert(find(y2, p) is None);
            assert(Field::ProxyConfigPath.spec_path().len() != p.len() || Field::ProxyConfigPath.spec_path() != p); assert(Field::ProxyConfigPath.spec_path() != p); assert(find(y3, p) is None);
            assert(Field::ProxyConfigMapName.spec_path().len() != p.len() || Field::ProxyConfigMapName.spec_path() != p); assert(Field::ProxyConfigMapName.spec_path() != p); assert(find(y4, p) is None);
            assert(Field::ProxyTrustBundlePath.spec_path().len() != p.len() || Field::ProxyTrustBundlePath.spec_path() != p); assert(Field::ProxyTrustBundlePath.spec_path() != p); assert(find(y5, p) is None);
            assert(Field::ProxyTrustBundleConfigMapName.spec_path().len() != p.len() || Field::ProxyTrustBundleConfigMapName.spec_path() != p); assert(Field::ProxyTrustBundleConfigMapName.spec_path() != p); assert(find(y6, p) is None);
            assert(Field::ConfigPath.spec_path()[0] != p[0]); assert(Field::ConfigPath.spec_path().len() != p.len() || Field::ConfigPath.spec_path() != p); assert(Field::ConfigPath.spec_path() != p); assert(find(y7, p) is None);
            assert(Field::ConfigMapName.spec_path()[0] != p[0]); assert(Field::ConfigMapName.spec_path().len() != p.len() || Field::ConfigMapName.spec_path() != p); assert(Field::ConfigMapName.spec_path() != p); assert(find(y8, p) is None);
            assert(Field::ConfigMapVolume.spec_path()[0] != p[0]); assert(Field::ConfigMapVolume.spec_path().len() != p.len() || Field::ConfigMapVolume.spec_path() != p); assert(Field::ConfigMapVolume.spec_path() != p); assert(find(y9, p) is None);
            assert(Field::HasNodesRbac.spec_path()[0] != p[0]); assert(Field::HasNodesRbac.spec_path().len() != p.len() || Field::HasNodesRbac.spec_path() != p); assert(Field::HasNodesRbac.spec_path() != p); assert(find(y10, p) is None);
            assert(find(x0 + x1, p) is None);
            assert(find(x0 + x1 + x2, p) is None);
            assert(find(x0 + x1 + x2 + y0, p) is None);
            assert(find(x0 + x1 + x2 + y0 + y1, p) is None);
            assert(find(x0 + x1 + x2 + y0 + y1 + y2, p) is None);
            assert(find(x0 + x1 + x2 + y0 + y1 + y2 + y3, p) is None);
            assert(find(x0 + x1 + x2 + y0 + y1 + y2 + y3 + y4, p) is None);
            assert(find(x0 + x1 + x2 + y0 + y1 + y2 + y3 + y4 + y5, p) is None);
            assert(find(x0 + x1 + x2 + y0 + y1 + y2 + y3 + y4 + y5 + y6, p) is None);
            assert(find(x0 + x1 + x2 + y0 + y1 + y2 + y3 + y4 + y5 + y6 + y7, p) is None);
            assert(find(x0 + x1 + x2 + y0 + y1 + y2 + y3 + y4 + y5 + y6 + y7 + y8, p) is None);
            assert(find(x0 + x1 + x2 + y0 + y1 + y2 + y3 + y4 + y5 + y6 + y7 + y8 + y9, p) is None);
            assert(find(x0 + x1 + x2 + y0 + y1 + y2 + y3 + y4 + y5 + y6 + y7 + y8 + y9 + y10, p) is None);
        },
    }
}

#[verifier::spinoff_prover]
#[verifier::rlimit(100)]
proof fn lemma_find_base(m: SettingsModel, f: Field)
    ensures
        find(base_part(m), f.spec_path()) == base_value(m, f),
{
    let p = f.spec_path();
    let x0 = seq![text_binding(Field::Hostname, m.base.hostname)];
    let x1 = seq![text_binding(Field::Homedir, m.base.homedir)];
    let x2 = opt_text_bindings(Field::EdgeCaCert, m.base.edge_ca_cert);
    let x3 = opt_text_bindings(Field::EdgeCaKey, m.base.edge_ca_key);
    let x4 = opt_text_bindings(Field::TrustBundleCert, m.base.trust_bundle_cert);
    let x5 = seq![text_binding(Field::AutoReprovisioningMode, m.base.auto_reprovisioning_mode)];
    assert(base_part(m) =~= x0 + x1 + x2 + x3 + x4 + x5);
    lemma_find_single(x0, p);
    lemma_find_single(x1, p);
    lemma_find_opt(Field::EdgeCaCert, m.base.edge_ca_cert, p);
    lemma_find_opt(Field::EdgeCaKey, m.base.edge_ca_key, p);
    lemma_find_opt(Field::TrustBundleCert, m.base.trust_bundle_cert, p);
    lemma_find_single(x5, p);
    lemma_find_concat(x0, x1, p);
    lemma_find_concat(x0 + x1, x2, p);
    lemma_find_concat(x0 + x1 + x2, x3, p);
    lemma_find_concat(x0 + x1 + x2 + x3, x4, p);
    lemma_find_concat(x0 + x1 + x2 + x3 + x4, x5, p);
    lemma_all_keys_distinct();
    match f {
        Field::Namespace => { assert(Field::Hostname.spec_path()[0] != Field::Namespace.spec_path()[0]); assert(Field::Homedir.spec_path()[0] != Field::Namespace.spec_path()[0]); assert(Field::EdgeCaCert.spec_path()[0] != Field::Namespace.spec_path()[0]); assert(Field::EdgeCaKey.spec_path()[0] != Field::Namespace.spec_path()[0]); assert(Field::TrustBundleCert.spec_path()[0] != Field::Namespace.spec_path()[0]); assert(Field::AutoReprovisioningMode.spec_path()[0] != Field::Namespace.spec_path()[0]); },
        Field::IotHubHostname => { assert(Field::Hostname.spec_path()[0] != Field::IotHubHostname.spec_path()[0]); assert(Field::Homedir.spec_path()[0] != Field::IotHubHostname.spec_path()[0]); assert(Field::EdgeCaCert.spec_path()[0] != Field::IotHubHostname.spec_path()[0]); assert(Field::EdgeCaKey.spec_path()[0] != Field::IotHubHostname.spec_path()[0]); assert(Field::TrustBundleCert.spec_path()[0] != Field::IotHubHostname.spec_path()[0]); assert(Field::AutoReprovisioningMode.spec_path()[0] != Field::IotHubHostname.spec_path()[0]); },
        Field::DeviceId => { assert(Field::Hostname.spec_path()[0] != Field::DeviceId.spec_path()[0]); assert(Field::Homedir.spec_path()[0] != Field::DeviceId.spec_path()[0]); assert(Field::EdgeCaCert.spec_path()[0] != Field::DeviceId.spec_path()[0]); assert(Field::EdgeCaKey.spec_path()[0] != Field::DeviceId.spec_path()[0]); assert(Field::TrustBundleCert.spec_path()[0] != Field::DeviceId.spec_path()[0]); assert(Field::AutoReprovisioningMode.spec_path()[0] != Field::DeviceId.spec_path()[0]); },
        Field::DeviceHubSelector => { assert(Field::Hostname.spec_path()[0] != Field::DeviceHubSelector.spec_path()[0]); assert(Field::Homedir.spec_path()[0] != Field::DeviceHubSelector.spec_path()[0]); assert(Field::EdgeCaCert.spec_path()[0] != Field::DeviceHubSelector.spec_path()[0]); assert(Field::EdgeCaKey.spec_path()[0] != Field::DeviceHubSelector.spec_path()[0]); assert(Field::TrustBundleCert.spec_path()[0] != Field::DeviceHubSelector.spec_path()[0]); assert(Field::AutoReprovisioningMode.spec_path()[0] != Field::DeviceHubSelector.spec_path()[0]); },
        Field::Proxy => { assert(Field::Hostname.spec_path()[0] != Field::Proxy.spec_path()[0]); assert(Field::Homedir.spec_path()[0] != Field::Proxy.spec_path()[0]); assert(Field::EdgeCaCert.spec_path()[0] != Field::Proxy.spec_path()[0]); assert(Field::EdgeCaKey.spec_path()[0] != Field::Proxy.spec_path()[0]); assert(Field::TrustBundleCert.spec_path()[0] != Field::Proxy.spec_path()[0]); assert(Field::AutoReprovisioningMode.spec_path()[0] != Field::Proxy.spec_path()[0]); },
        Field::ProxyAuth => {  },
        Field::ProxyImage => {  },
        Field::ProxyImagePullPolicy => {  },
        Field::ProxyConfigPath => {  },
        Field::ProxyConfigMapName => {  },
        Field::ProxyTrustBundlePath => {  },
        Field::ProxyTrustBundleConfigMapName => {  },
        Field::ProxyResources => {  },
        Field::ConfigPath => { assert(Field::Hostname.spec_path()[0] != Field::ConfigPath.spec_path()[0]); assert(Field::Homedir.spec_path()[0] != Field::ConfigPath.spec_path()[0]); assert(Field::EdgeCaCert.spec_path()[0] != Field::ConfigPath.spec_path()[0]); assert(Field::EdgeCaKey.spec_path()[0] != Field::ConfigPath.spec_path()[0]); assert(Field::TrustBundleCert.spec_path()[0] != Field::ConfigPath.spec_path()[0]); assert(Field::AutoReprovisioningMode.spec_path()[0] != Field::ConfigPath.spec_path()[0]); },
        Field::ConfigMapName => { assert(Field::Hostname.spec_path()[0] != Field::ConfigMapName.spec_path()[0]); assert(Field::Homedir.spec_path()[0] != Field::ConfigMapName.spec_path()[0]); assert(Field::EdgeCaCert.spec_path()[0] != Field::ConfigMapName.spec_path()[0]); assert(Field::EdgeCaKey.spec_path()[0] != Field::ConfigMapName.spec_path()[0]); assert(Field::TrustBundleCert.spec_path()[0] != Field::ConfigMapName.spec_path()[0]); assert(Field::AutoReprovisioningMode.spec_path()[0] != Field::ConfigMapName.spec_path()[0]); },
        Field::ConfigMapVolume => { assert(Field::Hostname.spec_path()[0] != Field::ConfigMapVolume.spec_path()[0]); assert(Field::Homedir.spec_path()[0] != Field::ConfigMapVolume.spec_path()[0]); assert(Field::EdgeCaCert.spec_path()[0] != Field::ConfigMapVolume.spec_path()[0]); assert(Field::EdgeCaKey.spec_path()[0] != Field::ConfigMapVolume.spec_path()[0]); assert(Field::TrustBundleCert.spec_path()[0] != Field::ConfigMapVolume.spec_path()[0]); assert(Field::AutoReprovisioningMode.spec_path()[0] != Field::ConfigMapVolume.spec_path()[0]); },
        Field::Resources => { assert(Field::Hostname.spec_path()[0] != Field::Resources.spec_path()[0]); assert(Field::Homedir.spec_path()[0] != Field::Resources.spec_path()[0]); assert(Field::EdgeCaCert.spec_path()[0] != Field::Resources.spec_path()[0]); assert(Field::EdgeCaKey.spec_path()[0] != Field::Resources.spec_path()[0]); assert(Field::TrustBundleCert.spec_path()[0] != Field::Resources.spec_path()[0]); assert(Field::AutoReprovisioningMode.spec_path()[0] != Field::Resources.spec_path()[0]); },
        Field::HasNodesRbac => { assert(Field::Hostname.spec_path()[0] != Field::HasNodesRbac.spec_path()[0]); assert(Field::Homedir.spec_path()[0] != Field::HasNodesRbac.spec_path()[0]); assert(Field::EdgeCaCert.spec_path()[0] != Field::HasNodesRbac.spec_path()[0]); assert(Field::EdgeCaKey.spec_path()[0] != Field::HasNodesRbac.spec_path()[0]); assert(Field::TrustBundleCert.spec_path()[0] != Field::HasNodesRbac.spec_path()[0]); assert(Field::AutoReprovisioningMode.spec_path()[0] != Field::HasNodesRbac.spec_path()[0]); },
        Field::Hostname => { assert(Field::Homedir.spec_path()[0] != Field::Hostname.spec_path()[0]); assert(Field::EdgeCaCert.spec_path()[0] != Field::Hostname.spec_path()[0]); assert(Field::EdgeCaKey.spec_path()[0] != Field::Hostname.spec_path()[0]); assert(Field::TrustBundleCert.spec_path()[0] != Field::Hostname.spec_path()[0]); assert(Field::AutoReprovisioningMode.spec_path()[0] != Field::Hostname.spec_path()[0]); },
        Field::Homedir => { assert(Field::Hostname.spec_path()[0] != Field::Homedir.spec_path()[0]); assert(Field::EdgeCaCert.spec_path()[0] != Field::Homedir.spec_path()[0]); assert(Field::EdgeCaKey.spec_path()[0] != Field::Homedir.spec_path()[0]); assert(Field::TrustBundleCert.spec_path()[0] != Field::Homedir.spec_path()[0]); assert(Field::AutoReprovisioningMode.spec_path()[0] != Field::Homedir.spec_path()[0]); },
        Field::EdgeCaCert => { assert(Field::Hostname.spec_path()[0] != Field::EdgeCaCert.spec_path()[0]); assert(Field::Homedir.spec_path()[0] != Field::EdgeCaCert.spec_path()[0]); assert(Field::EdgeCaKey.spec_path()[0] != Field::EdgeCaCert.spec_path()[0]); assert(Field::TrustBundleCert.spec_path()[0] != Field::EdgeCaCert.spec_path()[0]); assert(Field::AutoReprovisioningMode.spec_path()[0] != Field::EdgeCaCert.spec_path()[0]); },
        Field::EdgeCaKey => { assert(Field::Hostname.spec_path()[0] != Field::EdgeCaKey.spec_path()[0]); assert(Field::Homedir.spec_path()[0] != Field::EdgeCaKey.spec_path()[0]); assert(Field::EdgeCaCert.spec_path()[0] != Field::EdgeCaKey.spec_path()[0]); assert(Field::TrustBundleCert.spec_path()[0] != Field::EdgeCaKey.spec_path()[0]); assert(Field::AutoReprovisioningMode.spec_path()[0] != Field::EdgeCaKey.spec_path()[0]); },
        Field::TrustBundleCert => { assert(Field::Hostname.spec_path()[0] != Field::TrustBundleCert.spec_path()[0]); assert(Field::Homedir.spec_path()[0] != Field::TrustBundleCert.spec_path()[0]); assert(Field::EdgeCaCert.spec_path()[0] != Field::TrustBundleCert.spec_path()[0]); assert(Field::EdgeCaKey.spec_path()[0] != Field::TrustBundleCert.spec_path()[0]); assert(Field::AutoReprovisioningMode.spec_path()[0] != Field::TrustBundleCert.spec_path()[0]); },
        Field::AutoReprovisioningMode => { assert(Field::Hostname.spec_path()[0] != Field::AutoReprovisioningMode.spec_path()[0]); assert(Field::Homedir.spec_path()[0] != Field::AutoReprovisioningMode.spec_path()[0]); assert(Field::EdgeCaCert.spec_path()[0] != Field::AutoReprovisioningMode.spec_path()[0]); assert(Field::EdgeCaKey.spec_path()[0] != Field::AutoReprovisioningMode.spec_path()[0]); assert(Field::TrustBundleCert.spec_path()[0] != Field::AutoReprovisioningMode.spec_path()[0]); },
        Field::Watchdog => { assert(Field::Hostname.spec_path()[0] != Field::Watchdog.spec_path()[0]); assert(Field::Homedir.spec_path()[0] != Field::Watchdog.spec_path()[0]); assert(Field::EdgeCaCert.spec_path()[0] != Field::Watchdog.spec_path()[0]); assert(Field::EdgeCaKey.spec_path()[0] != Field::Watchdog.spec_path()[0]); assert(Field::TrustBundleCert.spec_path()[0] != Field::Watchdog.spec_path()[0]); assert(Field::AutoReprovisioningMode.spec_path()[0] != Field::Watchdog.spec_path()[0]); },
        Field::Endpoints => { assert(Field::Hostname.spec_path()[0] != Field::Endpoints.spec_path()[0]); assert(Field::Homedir.spec_path()[0] != Field::Endpoints.spec_path()[0]); assert(Field::EdgeCaCert.spec_path()[0] != Field::Endpoints.spec_path()[0]); assert(Field::EdgeCaKey.spec_path()[0] != Field::Endpoints.spec_path()[0]); assert(Field::TrustBundleCert.spec_path()[0] != Field::Endpoints.spec_path()[0]); assert(Field::AutoReprovisioningMode.spec_path()[0] != Field::Endpoints.spec_path()[0]); },
        Field::Agent => { assert(Field::Hostname.spec_path()[0] != Field::Agent.spec_path()[0]); assert(Field::Homedir.spec_path()[0] != Field::Agent.spec_path()[0]); assert(Field::EdgeCaCert.spec_path()[0] != Field::Agent.spec_path()[0]); assert(Field::EdgeCaKey.spec_path()[0] != Field::Agent.spec_path()[0]); assert(Field::TrustBundleCert.spec_path()[0] != Field::Agent.spec_path()[0]); assert(Field::AutoReprovisioningMode.spec_path()[0] != Field::Agent.spec_path()[0]); },
        Field::Connect => { assert(Field::Hostname.spec_path()[0] != Field::Connect.spec_path()[0]); assert(Field::Homedir.spec_path()[0] != Field::Connect.spec_path()[0]); assert(Field::EdgeCaCert.spec_path()[0] != Field::Connect.spec_path()[0]); assert(Field::EdgeCaKey.spec_path()[0] != Field::Connect.spec_path()[0]); assert(Field::TrustBundleCert.spec_path()[0] != Field::Connect.spec_path()[0]); assert(Field::AutoReprovisioningMode.spec_path()[0] != Field::Connect.spec_path()[0]); },
        Field::Listen => { assert(Field::Hostname.spec_path()[0] != Field::Listen.spec_path()[0]); assert(Field::Homedir.spec_path()[0] != Field::Listen.spec_path()[0]); assert(Field::EdgeCaCert.spec_path()[0] != Field::Listen.spec_path()[0]); assert(Field::EdgeCaKey.spec_path()[0] != Field::Listen.spec_path()[0]); assert(Field::TrustBundleCert.spec_path()[0] != Field::Listen.spec_path()[0]); assert(Field::AutoReprovisioningMode.spec_path()[0] != Field::Listen.spec_path()[0]); },
    }
}

proof fn lemma_all_keys_distinct()
    ensures
        "namespace"@.len() == 9,
        "iot_hub_hostname"@.len() == 16,
        "device_id"@.len() == 9,
        "device_hub_selector"@.len() == 19,
        "proxy"@.len() == 5,
        "auth"@.len() == 4,
        "image"@.len() == 5,
        "image_pull_policy"@.len() == 17,
        "config_path"@.len() == 11,
        "config_map_name"@.len() == 15,
        "trust_bundle_path"@.len() == 17,
        "trust_bundle_config_map_name"@.len() == 28,
        "resources"@.len() == 9,
        "config_map_volume"@.len() == 17,
        "has_nodes_rbac"@.len() == 14,
        "hostname"@.len() == 8,
        "homedir"@.len() == 7,
        "edge_ca_cert"@.len() == 12,
        "edge_ca_key"@.len() == 11,
        "trust_bundle_cert"@.len() == 17,
        "auto_reprovisioning_mode"@.len() == 24,
        "watchdog"@.len() == 8,
        "endpoints"@.len() == 9,
        "agent"@.len() == 5,
        "connect"@.len() == 7,
        "listen"@.len() == 6,
        "namespace"@ != "device_id"@,
        "namespace"@ != "resources"@,
        "namespace"@ != "endpoints"@,
        "device_id"@ != "resources"@,
        "device_id"@ != "endpoints"@,
        "proxy"@ != "image"@,
        "proxy"@ != "agent"@,
        "image"@ != "agent"@,
        "image_pull_policy"@ != "trust_bundle_path"@,
        "image_pull_policy"@ != "config_map_volume"@,
        "image_pull_policy"@ != "trust_bundle_cert"@,
        "config_path"@ != "edge_ca_key"@,
        "trust_bundle_path"@ != "config_map_volume"@,
        "trust_bundle_path"@ != "trust_bundle_cert"@,
        "resources"@ != "endpoints"@,
        "config_map_volume"@ != "trust_bundle_cert"@,
        "hostname"@ != "watchdog"@,
        "homedir"@ != "connect"@,
{
    reveal_strlit("namespace");
    reveal_strlit("iot_hub_hostname");
    reveal_strlit("device_id");
    reveal_strlit("device_hub_selector");
    reveal_strlit("proxy");
    reveal_strlit("auth");
    reveal_strlit("image");
    reveal_strlit("image_pull_policy");
    reveal_strlit("config_path");
    reveal_strlit("config_map_name");
    reveal_strlit("trust_bundle_path");
    reveal_strlit("trust_bundle_config_map_name");
    reveal_strlit("resources");
    reveal_strlit("config_map_volume");
    reveal_strlit("has_nodes_rbac");
    reveal_strlit("hostname");
    reveal_strlit("homedir");
    reveal_strlit("edge_ca_cert");
    reveal_strlit("edge_ca_key");
    reveal_strlit("trust_bundle_cert");
    reveal_strlit("auto_reprovisioning_mode");
    reveal_strlit("watchdog");
    reveal_strlit("endpoints");
    reveal_strlit("agent");
    reveal_strlit("connect");
    reveal_strlit("listen");
    assert("namespace"@[0] != "device_id"@[0]);
    assert("namespace"@[0] != "resources"@[0]);
    assert("namespace"@[0] != "endpoints"@[0]);
    assert("device_id"@[0] != "resources"@[0]);
    assert("device_id"@[0] != "endpoints"@[0]);
    assert("proxy"@[0] != "image"@[0]);
    assert("proxy"@[0] != "agent"@[0]);
    assert("image"@[0] != "agent"@[0]);
    assert("image_pull_policy"@[0] != "trust_bundle_path"@[0]);
    assert("image_pull_policy"@[0] != "config_map_volume"@[0]);
    assert("image_pull_policy"@[0] != "trust_bundle_cert"@[0]);
    assert("config_path"@[0] != "edge_ca_key"@[0]);
    assert("trust_bundle_path"@[0] != "config_map_volume"@[0]);
    assert("trust_bundle_path"@[13] != "trust_bundle_cert"@[13]);
    assert("resources"@[0] != "endpoints"@[0]);
    assert("config_map_volume"@[0] != "trust_bundle_cert"@[0]);
    assert("hostname"@[0] != "watchdog"@[0]);
    assert("homedir"@[0] != "connect"@[0]);
}

proof fn lemma_tables_below_namespace(m: SettingsModel)
    requires
        well_formed(m),
    ensures
        below(table_part(m), Field::Namespace.spec_path()) == table_back(m, Field::Namespace),
{
    lemma_all_keys_distinct();
    if let Some(t) = m.proxy.auth { lemma_below_prefixed_other(t, Field::ProxyAuth.spec_path(), Field::Namespace.spec_path(), 0); }
    if let Some(t) = m.proxy.resources { lemma_below_prefixed_other(t, Field::ProxyResources.spec_path(), Field::Namespace.spec_path(), 0); }
    if let Some(t) = m.resources { lemma_below_prefixed_other(t, Field::Resources.spec_path(), Field::Namespace.spec_path(), 0); }
    { let t = m.base.watchdog; lemma_below_prefixed_other(t, Field::Watchdog.spec_path(), Field::Namespace.spec_path(), 0); }
    { let t = m.base.endpoints; lemma_below_prefixed_other(t, Field::Endpoints.spec_path(), Field::Namespace.spec_path(), 0); }
    { let t = m.base.agent; lemma_below_prefixed_other(t, Field::Agent.spec_path(), Field::Namespace.spec_path(), 0); }
    { let t = m.base.connect; lemma_below_prefixed_other(t, Field::Connect.spec_path(), Field::Namespace.spec_path(), 0); }
    { let t = m.base.listen; lemma_below_prefixed_other(t, Field::Listen.spec_path(), Field::Namespace.spec_path(), 0); }
    lemma_below_append(table_bindings(Field::ProxyAuth, m.proxy.auth), table_bindings(Field::ProxyResources, m.proxy.resources), Field::Namespace.spec_path());
    lemma_below_append(table_bindings(Field::ProxyAuth, m.proxy.auth) + table_bindings(Field::ProxyResources, m.proxy.resources), table_bindings(Field::Resources, m.resources), Field::Namespace.spec_path());
    lemma_below_append(table_bindings(Field::ProxyAuth, m.proxy.auth) + table_bindings(Field::ProxyResources, m.proxy.resources) + table_bindings(Field::Resources, m.resources), prefixed(m.base.watchdog, Field::Watchdog.spec_path()), Field::Namespace.spec_path());
    lemma_below_append(table_bindings(Field::ProxyAuth, m.proxy.auth) + table_bindings(Field::ProxyResources, m.proxy.resources) + table_bindings(Field::Resources, m.resources) + prefixed(m.base.watchdog, Field::Watchdog.spec_path()), prefixed(m.base.endpoints, Field::Endpoints.spec_path()), Field::Namespace.spec_path());
    lemma_below_append(table_bindings(Field::ProxyAuth, m.proxy.auth) + table_bindings(Field::ProxyResources, m.proxy.resources) + table_bindings(Field::Resources, m.resources) + prefixed(m.base.watchdog, Field::Watchdog.spec_path()) + prefixed(m.base.endpoints, Field::Endpoints.spec_path()), prefixed(m.base.agent, Field::Agent.spec_path()), Field::Namespace.spec_path());
    lemma_below_append(table_bindings(Field::ProxyAuth, m.proxy.auth) + table_bindings(Field::ProxyResources, m.proxy.resources) + table_bindings(Field::Resources, m.resources) + prefixed(m.base.watchdog, Field::Watchdog.spec_path()) + prefixed(m.base.endpoints, Field::Endpoints.spec_path()) + prefixed(m.base.agent, Field::Agent.spec_path()), prefixed(m.base.connect, Field::Connect.spec_path()), Field::Namespace.spec_path());
    lemma_below_append(table_bindings(Field::ProxyAuth, m.proxy.auth) + table_bindings(Field::ProxyResources, m.proxy.resources) + table_bindings(Field::Resources, m.resources) + prefixed(m.base.watchdog, Field::Watchdog.spec_path()) + prefixed(m.base.endpoints, Field::Endpoints.spec_path()) + prefixed(m.base.agent, Field::Agent.spec_path()) + prefixed(m.base.connect, Field::Connect.spec_path()), prefixed(m.base.listen, Field::Listen.spec_path()), Field::Namespace.spec_path());
    assert(below(table_part(m), Field::Namespace.spec_path()) =~= table_back(m, Field::Namespace));
}

proof fn lemma_tables_below_iothubhostname(m: SettingsModel)
    requires
        well_formed(m),
    ensures
        below(table_part(m), Field::IotHubHostname.spec_path()) == table_back(m, Field::IotHubHostname),
{
    lemma_all_keys_distinct();
    if let Some(t) = m.proxy.auth { lemma_below_prefixed_other(t, Field::ProxyAuth.spec_path(), Field::IotHubHostname.spec_path(), 0); }
    if let Some(t) = m.proxy.resources { lemma_below_prefixed_other(t, Field::ProxyResources.spec_path(), Field::IotHubHostname.spec_path(), 0); }
    if let Some(t) = m.resources { lemma_below_prefixed_other(t, Field::Resources.spec_path(), Field::IotHubHostname.spec_path(), 0); }
    { let t = m.base.watchdog; lemma_below_prefixed_other(t, Field::Watchdog.spec_path(), Field::IotHubHostname.spec_path(), 0); }
    { let t = m.base.endpoints; lemma_below_prefixed_other(t, Field::Endpoints.spec_path(), Field::IotHubHostname.spec_path(), 0); }
    { let t = m.base.agent; lemma_below_prefixed_other(t, Field::Agent.spec_path(), Field::IotHubHostname.spec_path(), 0); }
    { let t = m.base.connect; lemma_below_prefixed_other(t, Field::Connect.spec_path(), Field::IotHubHostname.spec_path(), 0); }
    { let t = m.base.listen; lemma_below_prefixed_other(t, Field::Listen.spec_path(), Field::IotHubHostname.spec_path(), 0); }
    lemma_below_append(table_bindings(Field::ProxyAuth, m.proxy.auth), table_bindings(Field::ProxyResources, m.proxy.resources), Field::IotHubHostname.spec_path());
    lemma_below_append(table_bindings(Field::ProxyAuth, m.proxy.auth) + table_bindings(Field::ProxyResources, m.proxy.resources), table_bindings(Field::Resources, m.resources), Field::IotHubHostname.spec_path());
    lemma_below_append(table_bindings(Field::ProxyAuth, m.proxy.auth) + table_bindings(Field::ProxyResources, m.proxy.resources) + table_bindings(Field::Resources, m.resources), prefixed(m.base.watchdog, Field::Watchdog.spec_path()), Field::IotHubHostname.spec_path());
    lemma_below_append(table_bindings(Field::ProxyAuth, m.proxy.auth) + table_bindings(Field::ProxyResources, m.proxy.resources) + table_bindings(Field::Resources, m.resources) + prefixed(m.base.watchdog, Field::Watchdog.spec_path()), prefixed(m.base.endpoints, Field::Endpoints.spec_path()), Field::IotHubHostname.spec_path());
    lemma_below_append(table_bindings(Field::ProxyAuth, m.proxy.auth) + table_bindings(Field::ProxyResources, m.proxy.resources) + table_bindings(Field::Resources, m.resources) + prefixed(m.base.watchdog, Field::Watchdog.spec_path()) + prefixed(m.base.endpoints, Field::Endpoints.spec_path()), prefixed(m.base.agent, Field::Agent.spec_path()), Field::IotHubHostname.spec_path());
    lemma_below_append(table_bindings(Field::ProxyAuth, m.proxy.auth) + table_bindings(Field::ProxyResources, m.proxy.resources) + table_bindings(Field::Resources, m.resources) + prefixed(m.base.watchdog, Field::Watchdog.spec_path()) + prefixed(m.base.endpoints, Field::Endpoints.spec_path()) + prefixed(m.base.agent, Field::Agent.spec_path()), prefixed(m.base.connect, Field::Connect.spec_path()), Field::IotHubHostname.spec_path());
    lemma_below_append(table_bindings(Field::ProxyAuth, m.proxy.auth) + table_bindings(Field::ProxyResources, m.proxy.resources) + table_bindings(Field::Resources, m.resources) + prefixed(m.base.watchdog, Field::Watchdog.spec_path()) + prefixed(m.base.endpoints, Field::Endpoints.spec_path()) + prefixed(m.base.agent, Field::Agent.spec_path()) + prefixed(m.base.connect, Field::Connect.spec_path()), prefixed(m.base.listen, Field::Listen.spec_path()), Field::IotHubHostname.spec_path());
    assert(below(table_part(m), Field::IotHubHostname.spec_path()) =~= table_back(m, Field::IotHubHostname));
}

proof fn lemma_tables_below_deviceid(m: SettingsModel)
    requires
        well_formed(m),
    ensures
        below(table_part(m), Field::DeviceId.spec_path()) == table_back(m, Field::DeviceId),
{
    lemma_all_keys_distinct();
    if let Some(t) = m.proxy.auth { lemma_below_prefixed_other(t, Field::ProxyAuth.spec_path(), Field::DeviceId.spec_path(), 0); }
    if let Some(t) = m.proxy.resources { lemma_below_prefixed_other(t, Field::ProxyResources.spec_path(), Field::DeviceId.spec_path(), 0); }
    if let Some(t) = m.resources { lemma_below_prefixed_other(t, Field::Resources.spec_path(), Field::DeviceId.spec_path(), 0); }
    { let t = m.base.watchdog; lemma_below_prefixed_other(t, Field::Watchdog.spec_path(), Field::DeviceId.spec_path(), 0); }
    { let t = m.base.endpoints; lemma_below_prefixed_other(t, Field::Endpoints.spec_path(), Field::DeviceId.spec_path(), 0); }
    { let t = m.base.agent; lemma_below_prefixed_other(t, Field::Agent.spec_path(), Field::DeviceId.spec_path(), 0); }
    { let t = m.base.connect; lemma_below_prefixed_other(t, Field::Connect.spec_path(), Field::DeviceId.spec_path(), 0); }
    { let t = m.base.listen; lemma_below_prefixed_other(t, Field::Listen.spec_path(), Field::DeviceId.spec_path(), 0); }
    lemma_below_append(table_bindings(Field::ProxyAuth, m.proxy.auth), table_bindings(Field::ProxyResources, m.proxy.resources), Field::DeviceId.spec_path());
    lemma_below_append(table_bindings(Field::ProxyAuth, m.proxy.auth) + table_bindings(Field::ProxyResources, m.proxy.resources), table_bindings(Field::Resources, m.resources), Field::DeviceId.spec_path());
    lemma_below_append(table_bindings(Field::ProxyAuth, m.proxy.auth) + table_bindings(Field::ProxyResources, m.proxy.resources) + table_bindings(Field::Resources, m.resources), prefixed(m.base.watchdog, Field::Watchdog.spec_path()), Field::DeviceId.spec_path());
    lemma_below_append(table_bindings(Field::ProxyAuth, m.proxy.auth) + table_bindings(Field::ProxyResources, m.proxy.resources) + table_bindings(Field::Resources, m.resources) + prefixed(m.base.watchdog, Field::Watchdog.spec_path()), prefixed(m.base.endpoints, Field::Endpoints.spec_path()), Field::DeviceId.spec_path());
    lemma_below_append(table_bindings(Field::ProxyAuth, m.proxy.auth) + table_bindings(Field::ProxyResources, m.proxy.resources) + table_bindings(Field::Resources, m.resources) + prefixed(m.base.watchdog, Field::Watchdog.spec_path()) + prefixed(m.base.endpoints, Field::Endpoints.spec_path()), prefixed(m.base.agent, Field::Agent.spec_path()), Field::DeviceId.spec_path());
    lemma_below_append(table_bindings(Field::ProxyAuth, m.proxy.auth) + table_bindings(Field::ProxyResources, m.proxy.resources) + table_bindings(Field::Resources, m.resources) + prefixed(m.base.watchdog, Field::Watchdog.spec_path()) + prefixed(m.base.endpoints, Field::Endpoints.spec_path()) + prefixed(m.base.agent, Field::Agent.spec_path()), prefixed(m.base.connect, Field::Connect.spec_path()), Field::DeviceId.spec_path());
    lemma_below_append(table_bindings(Field::ProxyAuth, m.proxy.auth) + table_bindings(Field::ProxyResources, m.proxy.resources) + table_bindings(Field::Resources, m.resources) + prefixed(m.base.watchdog, Field::Watchdog.spec_path()) + prefixed(m.base.endpoints, Field::Endpoints.spec_path()) + prefixed(m.base.agent, Field::Agent.spec_path()) + prefixed(m.base.connect, Field::Connect.spec_path()), prefixed(m.base.listen, Field::Listen.spec_path()), Field::DeviceId.spec_path());
    assert(below(table_part(m), Field::DeviceId.spec_path()) =~= table_back(m, Field::DeviceId));
}

proof fn lemma_tables_below_devicehubselector(m: SettingsModel)
    requires
        well_formed(m),
    ensures
        below(table_part(m), Field::DeviceHubSelector.spec_path()) == table_back(m, Field::DeviceHubSelector),
{
    lemma_all_keys_distinct();
    if let Some(t) = m.proxy.auth { lemma_below_prefixed_other(t, Field::ProxyAuth.spec_path(), Field::DeviceHubSelector.spec_path(), 0); }
    if let Some(t) = m.proxy.resources { lemma_below_prefixed_other(t, Field::ProxyResources.spec_path(), Field::DeviceHubSelector.spec_path(), 0); }
    if let Some(t) = m.resources { lemma_below_prefixed_other(t, Field::Resources.spec_path(), Field::DeviceHubSelector.spec_path(), 0); }
    { let t = m.base.watchdog; lemma_below_prefixed_other(t, Field::Watchdog.spec_path(), Field::DeviceHubSelector.spec_path(), 0); }
    { let t = m.base.endpoints; lemma_below_prefixed_other(t, Field::Endpoints.spec_path(), Field::DeviceHubSelector.spec_path(), 0); }
    { let t = m.base.agent; lemma_below_prefixed_other(t, Field::Agent.spec_path(), Field::DeviceHubSelector.spec_path(), 0); }
    { let t = m.base.connect; lemma_below_prefixed_other(t, Field::Connect.spec_path(), Field::DeviceHubSelector.spec_path(), 0); }
    { let t = m.base.listen; lemma_below_prefixed_other(t, Field::Listen.spec_path(), Field::DeviceHubSelector.spec_path(), 0); }
    lemma_below_append(table_bindings(Field::ProxyAuth, m.proxy.auth), table_bindings(Field::ProxyResources, m.proxy.resources), Field::DeviceHubSelector.spec_path());
    lemma_below_append(table_bindings(Field::ProxyAuth, m.proxy.auth) + table_bindings(Field::ProxyResources, m.proxy.resources), table_bindings(Field::Resources, m.resources), Field::DeviceHubSelector.spec_path());
    lemma_below_append(table_bindings(Field::ProxyAuth, m.proxy.auth) + table_bindings(Field::ProxyResources, m.proxy.resources) + table_bindings(Field::Resources, m.resources), prefixed(m.base.watchdog, Field::Watchdog.spec_path()), Field::DeviceHubSelector.spec_path());
    lemma_below_append(table_bindings(Field::ProxyAuth, m.proxy.auth) + table_bindings(Field::ProxyResources, m.proxy.resources) + table_bindings(Field::Resources, m.resources) + prefixed(m.base.watchdog, Field::Watchdog.spec_path()), prefixed(m.base.endpoints, Field::Endpoints.spec_path()), Field::DeviceHubSelector.spec_path());
    lemma_below_append(table_bindings(Field::ProxyAuth, m.proxy.auth) + table_bindings(Field::ProxyResources, m.proxy.resources) + table_bindings(Field::Resources, m.resources) + prefixed(m.base.watchdog, Field::Watchdog.spec_path()) + prefixed(m.base.endpoints, Field::Endpoints.spec_path()), prefixed(m.base.agent, Field::Agent.spec_path()), Field::DeviceHubSelector.spec_path());
    lemma_below_append(table_bindings(Field::ProxyAuth, m.proxy.auth) + table_bindings(Field::ProxyResources, m.proxy.resources) + table_bindings(Field::Resources, m.resources) + prefixed(m.base.watchdog, Field::Watchdog.spec_path()) + prefixed(m.base.endpoints, Field::Endpoints.spec_path()) + prefixed(m.base.agent, Field::Agent.spec_path()), prefixed(m.base.connect, Field::Connect.spec_path()), Field::DeviceHubSelector.spec_path());
    lemma_below_append(table_bindings(Field::ProxyAuth, m.proxy.auth) + table_bindings(Field::ProxyResources, m.proxy.resources) + table_bindings(Field::Resources, m.resources) + prefixed(m.base.watchdog, Field::Watchdog.spec_path()) + prefixed(m.base.endpoints, Field::Endpoints.spec_path()) + prefixed(m.base.agent, Field::Agent.spec_path()) + prefixed(m.base.connect, Field::Connect.spec_path()), prefixed(m.base.listen, Field::Listen.spec_path()), Field::DeviceHubSelector.spec_path());
    assert(below(table_part(m), Field::DeviceHubSelector.spec_path()) =~= table_back(m, Field::DeviceHubSelector));
}

proof fn lemma_tables_below_proxyauth(m: SettingsModel)
    requires
        well_formed(m),
    ensures
        below(table_part(m), Field::ProxyAuth.spec_path()) == table_back(m, Field::ProxyAuth),
{
    lemma_all_keys_distinct();
    if let Some(t) = m.proxy.auth { lemma_below_prefixed(t, Field::ProxyAuth.spec_path()); }
    if let Some(t) = m.proxy.resources { lemma_below_prefixed_other(t, Field::ProxyResources.spec_path(), Field::ProxyAuth.spec_path(), 1); }
    if let Some(t) = m.resources { lemma_below_prefixed_other(t, Field::Resources.spec_path(), Field::ProxyAuth.spec_path(), 0); }
    { let t = m.base.watchdog; lemma_below_prefixed_other(t, Field::Watchdog.spec_path(), Field::ProxyAuth.spec_path(), 0); }
    { let t = m.base.endpoints; lemma_below_prefixed_other(t, Field::Endpoints.spec_path(), Field::ProxyAuth.spec_path(), 0); }
    { let t = m.base.agent; lemma_below_prefixed_other(t, Field::Agent.spec_path(), Field::ProxyAuth.spec_path(), 0); }
    { let t = m.base.connect; lemma_below_prefixed_other(t, Field::Connect.spec_path(), Field::ProxyAuth.spec_path(), 0); }
    { let t = m.base.listen; lemma_below_prefixed_other(t, Field::Listen.spec_path(), Field::ProxyAuth.spec_path(), 0); }
    lemma_below_append(table_bindings(Field::ProxyAuth, m.proxy.auth), table_bindings(Field::ProxyResources, m.proxy.resources), Field::ProxyAuth.spec_path());
    lemma_below_append(table_bindings(Field::ProxyAuth, m.proxy.auth) + table_bindings(Field::ProxyResources, m.proxy.resources), table_bindings(Field::Resources, m.resources), Field::ProxyAuth.spec_path());
    lemma_below_append(table_bindings(Field::ProxyAuth, m.proxy.auth) + table_bindings(Field::ProxyResources, m.proxy.resources) + table_bindings(Field::Resources, m.resources), prefixed(m.base.watchdog, Field::Watchdog.spec_path()), Field::ProxyAuth.spec_path());
    lemma_below_append(table_bindings(Field::ProxyAuth, m.proxy.auth) + table_bindings(Field::ProxyResources, m.proxy.resources) + table_bindings(Field::Resources, m.resources) + prefixed(m.base.watchdog, Field::Watchdog.spec_path()), prefixed(m.base.endpoints, Field::Endpoints.spec_path()), Field::ProxyAuth.spec_path());
    lemma_below_append(table_bindings(Field::ProxyAuth, m.proxy.auth) + table_bindings(Field::ProxyResources, m.proxy.resources) + table_bindings(Field::Resources, m.resources) + prefixed(m.base.watchdog, Field::Watchdog.spec_path()) + prefixed(m.base.endpoints, Field::Endpoints.spec_path()), prefixed(m.base.agent, Field::Agent.spec_path()), Field::ProxyAuth.spec_path());
    lemma_below_append(table_bindings(Field::ProxyAuth, m.proxy.auth) + table_bindings(Field::ProxyResources, m.proxy.resources) + table_bindings(Field::Resources, m.resources) + prefixed(m.base.watchdog, Field::Watchdog.spec_path()) + prefixed(m.base.endpoints, Field::Endpoints.spec_path()) + prefixed(m.base.agent, Field::Agent.spec_path()), prefixed(m.base.connect, Field::Connect.spec_path()), Field::ProxyAuth.spec_path());
    lemma_below_append(table_bindings(Field::ProxyAuth, m.proxy.auth) + table_bindings(Field::ProxyResources, m.proxy.resources) + table_bindings(Field::Resources, m.resources) + prefixed(m.base.watchdog, Field::Watchdog.spec_path()) + prefixed(m.base.endpoints, Field::Endpoints.spec_path()) + prefixed(m.base.agent, Field::Agent.spec_path()) + prefixed(m.base.connect, Field::Connect.spec_path()), prefixed(m.base.listen, Field::Listen.spec_path()), Field::ProxyAuth.spec_path());
    assert(below(table_part(m), Field::ProxyAuth.spec_path()) =~= table_back(m, Field::ProxyAuth));
}

proof fn lemma_tables_below_proxyimage(m: SettingsModel)
    requires
        well_formed(m),
    ensures
        below(table_part(m), Field::ProxyImage.spec_path()) == table_back(m, Field::ProxyImage),
{
    lemma_all_keys_distinct();
    if let Some(t) = m.proxy.auth { lemma_below_prefixed_other(t, Field::ProxyAuth.spec_path(), Field::ProxyImage.spec_path(), 1); }
    if let Some(t) = m.proxy.resources { lemma_below_prefixed_other(t, Field::ProxyResources.spec_path(), Field::ProxyImage.spec_path(), 1); }
    if let Some(t) = m.resources { lemma_below_prefixed_other(t, Field::Resources.spec_path(), Field::ProxyImage.spec_path(), 0); }
    { let t = m.base.watchdog; lemma_below_prefixed_other(t, Field::Watchdog.spec_path(), Field::ProxyImage.spec_path(), 0); }
    { let t = m.base.endpoints; lemma_below_prefixed_other(t, Field::Endpoints.spec_path(), Field::ProxyImage.spec_path(), 0); }
    { let t = m.base.agent; lemma_below_prefixed_other(t, Field::Agent.spec_path(), Field::ProxyImage.spec_path(), 0); }
    { let t = m.base.connect; lemma_below_prefixed_other(t, Field::Connect.spec_path(), Field::ProxyImage.spec_path(), 0); }
    { let t = m.base.listen; lemma_below_prefixed_other(t, Field::Listen.spec_path(), Field::ProxyImage.spec_path(), 0); }
    lemma_below_append(table_bindings(Field::ProxyAuth, m.proxy.auth), table_bindings(Field::ProxyResources, m.proxy.resources), Field::ProxyImage.spec_path());
    lemma_below_append(table_bindings(Field::ProxyAuth, m.proxy.auth) + table_bindings(Field::ProxyResources, m.proxy.resources), table_bindings(Field::Resources, m.resources), Field::ProxyImage.spec_path());
    lemma_below_append(table_bindings(Field::ProxyAuth, m.proxy.auth) + table_bindings(Field::ProxyResources, m.proxy.resources) + table_bindings(Field::Resources, m.resources), prefixed(m.base.watchdog, Field::Watchdog.spec_path()), Field::ProxyImage.spec_path());
    lemma_below_append(table_bindings(Field::ProxyAuth, m.proxy.auth) + table_bindings(Field::ProxyResources, m.proxy.resources) + table_bindings(Field::Resources, m.resources) + prefixed(m.base.watchdog, Field::Watchdog.spec_path()), prefixed(m.base.endpoints, Field::Endpoints.spec_path()), Field::ProxyImage.spec_path());
    lemma_below_append(table_bindings(Field::ProxyAuth, m.proxy.auth) + table_bindings(Field::ProxyResources, m.proxy.resources) + table_bindings(Field::Resources, m.resources) + prefixed(m.base.watchdog, Field::Watchdog.spec_path()) + prefixed(m.base.endpoints, Field::Endpoints.spec_path()), prefixed(m.base.agent, Field::Agent.spec_path()), Field::ProxyImage.spec_path());
    lemma_below_append(table_bindings(Field::ProxyAuth, m.proxy.auth) + table_bindings(Field::ProxyResources, m.proxy.resources) + table_bindings(Field::Resources, m.resources) + prefixed(m.base.watchdog, Field::Watchdog.spec_path()) + prefixed(m.base.endpoints, Field::Endpoints.spec_path()) + prefixed(m.base.agent, Field::Agent.spec_path()), prefixed(m.base.connect, Field::Connect.spec_path()), Field::ProxyImage.spec_path());
    lemma_below_append(table_bindings(Field::ProxyAuth, m.proxy.auth) + table_bindings(Field::ProxyResources, m.proxy.resources) + table_bindings(Field::Resources, m.resources) + prefixed(m.base.watchdog, Field::Watchdog.spec_path()) + prefixed(m.base.endpoints, Field::Endpoints.spec_path()) + prefixed(m.base.agent, Field::Agent.spec_path()) + prefixed(m.base.connect, Field::Connect.spec_path()), prefixed(m.base.listen, Field::Listen.spec_path()), Field::ProxyImage.spec_path());
    assert(below(table_part(m), Field::ProxyImage.spec_path()) =~= table_back(m, Field::ProxyImage));
}

proof fn lemma_tables_below_proxyimagepullpolicy(m: SettingsModel)
    requires
        well_formed(m),
    ensures
        below(table_part(m), Field::ProxyImagePullPolicy.spec_path()) == table_back(m, Field::ProxyImagePullPolicy),
{
    lemma_all_keys_distinct();
    if let Some(t) = m.proxy.auth { lemma_below_prefixed_other(t, Field::ProxyAuth.spec_path(), Field::ProxyImagePullPolicy.spec_path(), 1); }
    if let Some(t) = m.proxy.resources { lemma_below_prefixed_other(t, Field::ProxyResources.spec_path(), Field::ProxyImagePullPolicy.spec_path(), 1); }
    if let Some(t) = m.resources { lemma_below_prefixed_other(t, Field::Resources.spec_path(), Field::ProxyImagePullPolicy.spec_path(), 0); }
    { let t = m.base.watchdog; lemma_below_prefixed_other(t, Field::Watchdog.spec_path(), Field::ProxyImagePullPolicy.spec_path(), 0); }
    { let t = m.base.endpoints; lemma_below_prefixed_other(t, Field::Endpoints.spec_path(), Field::ProxyImagePullPolicy.spec_path(), 0); }
    { let t = m.base.agent; lemma_below_prefixed_other(t, Field::Agent.spec_path(), Field::ProxyImagePullPolicy.spec_path(), 0); }
    { let t = m.base.connect; lemma_below_prefixed_other(t, Field::Connect.spec_path(), Field::ProxyImagePullPolicy.spec_path(), 0); }
    { let t = m.base.listen; lemma_below_prefixed_other(t, Field::Listen.spec_path(), Field::ProxyImagePullPolicy.spec_path(), 0); }
    lemma_below_append(table_bindings(Field::ProxyAuth, m.proxy.auth), table_bindings(Field::ProxyResources, m.proxy.resources), Field::ProxyImagePullPolicy.spec_path());
    lemma_below_append(table_bindings(Field::ProxyAuth, m.proxy.auth) + table_bindings(Field::ProxyResources, m.proxy.resources), table_bindings(Field::Resources, m.resources), Field::ProxyImagePullPolicy.spec_path());
    lemma_below_append(table_bindings(Field::ProxyAuth, m.proxy.auth) + table_bindings(Field::ProxyResources, m.proxy.resources) + table_bindings(Field::Resources, m.resources), prefixed(m.base.watchdog, Field::Watchdog.spec_path()), Field::ProxyImagePullPolicy.spec_path());
    lemma_below_append(table_bindings(Field::ProxyAuth, m.proxy.auth) + table_bindings(Field::ProxyResources, m.proxy.resources) + table_bindings(Field::Resources, m.resources) + prefixed(m.base.watchdog, Field::Watchdog.spec_path()), prefixed(m.base.endpoints, Field::Endpoints.spec_path()), Field::ProxyImagePullPolicy.spec_path());
    lemma_below_append(table_bindings(Field::ProxyAuth, m.proxy.auth) + table_bindings(Field::ProxyResources, m.proxy.resources) + table_bindings(Field::Resources, m.resources) + prefixed(m.base.watchdog, Field::Watchdog.spec_path()) + prefixed(m.base.endpoints, Field::Endpoints.spec_path()), prefixed(m.base.agent, Field::Agent.spec_path()), Field::ProxyImagePullPolicy.spec_path());
    lemma_below_append(table_bindings(Field::ProxyAuth, m.proxy.auth) + table_bindings(Field::ProxyResources, m.proxy.resources) + table_bindings(Field::Resources, m.resources) + prefixed(m.base.watchdog, Field::Watchdog.spec_path()) + prefixed(m.base.endpoints, Field::Endpoints.spec_path()) + prefixed(m.base.agent, Field::Agent.spec_path()), prefixed(m.base.connect, Field::Connect.spec_path()), Field::ProxyImagePullPolicy.spec_path());
    lemma_below_append(table_bindings(Field::ProxyAuth, m.proxy.auth) + table_bindings(Field::ProxyResources, m.proxy.resources) + table_bindings(Field::Resources, m.resources) + prefixed(m.base.watchdog, Field::Watchdog.spec_path()) + prefixed(m.base.endpoints, Field::Endpoints.spec_path()) + prefixed(m.base.agent, Field::Agent.spec_path()) + prefixed(m.base.connect, Field::Connect.spec_path()), prefixed(m.base.listen, Field::Listen.spec_path()), Field::ProxyImagePullPolicy.spec_path());
    assert(below(table_part(m), Field::ProxyImagePullPolicy.spec_path()) =~= table_back(m, Field::ProxyImagePullPolicy));
}

proof fn lemma_tables_below_proxyconfigpath(m: SettingsModel)
    requires
        well_formed(m),
    ensures
        below(table_part(m), Field::ProxyConfigPath.spec_path()) == table_back(m, Field::ProxyConfigPath),
{
    lemma_all_keys_distinct();
    if let Some(t) = m.proxy.auth { lemma_below_prefixed_other(t, Field::ProxyAuth.spec_path(), Field::ProxyConfigPath.spec_path(), 1); }
    if let Some(t) = m.proxy.resources { lemma_below_prefixed_other(t, Field::ProxyResources.spec_path(), Field::ProxyConfigPath.spec_path(), 1); }
    if let Some(t) = m.resources { lemma_below_prefixed_other(t, Field::Resources.spec_path(), Field::ProxyConfigPath.spec_path(), 0); }
    { let t = m.base.watchdog; lemma_below_prefixed_other(t, Field::Watchdog.spec_path(), Field::ProxyConfigPath.spec_path(), 0); }
    { let t = m.base.endpoints; lemma_below_prefixed_other(t, Field::Endpoints.spec_path(), Field::ProxyConfigPath.spec_path(), 0); }
    { let t = m.base.agent; lemma_below_prefixed_other(t, Field::Agent.spec_path(), Field::ProxyConfigPath.spec_path(), 0); }
    { let t = m.base.connect; lemma_below_prefixed_other(t, Field::Connect.spec_path(), Field::ProxyConfigPath.spec_path(), 0); }
    { let t = m.base.listen; lemma_below_prefixed_other(t, Field::Listen.spec_path(), Field::ProxyConfigPath.spec_path(), 0); }
    lemma_below_append(table_bindings(Field::ProxyAuth, m.proxy.auth), table_bindings(Field::ProxyResources, m.proxy.resources), Field::ProxyConfigPath.spec_path());
    lemma_below_append(table_bindings(Field::ProxyAuth, m.proxy.auth) + table_bindings(Field::ProxyResources, m.proxy.resources), table_bindings(Field::Resources, m.resources), Field::ProxyConfigPath.spec_path());
    lemma_below_append(table_bindings(Field::ProxyAuth, m.proxy.auth) + table_bindings(Field::ProxyResources, m.proxy.resources) + table_bindings(Field::Resources, m.resources), prefixed(m.base.watchdog, Field::Watchdog.spec_path()), Field::ProxyConfigPath.spec_path());
    lemma_below_append(table_bindings(Field::ProxyAuth, m.proxy.auth) + table_bindings(Field::ProxyResources, m.proxy.resources) + table_bindings(Field::Resources, m.resources) + prefixed(m.base.watchdog, Field::Watchdog.spec_path()), prefixed(m.base.endpoints, Field::Endpoints.spec_path()), Field::ProxyConfigPath.spec_path());
    lemma_below_append(table_bindings(Field::ProxyAuth, m.proxy.auth) + table_bindings(Field::ProxyResources, m.proxy.resources) + table_bindings(Field::Resources, m.resources) + prefixed(m.base.watchdog, Field::Watchdog.spec_path()) + prefixed(m.base.endpoints, Field::Endpoints.spec_path()), prefixed(m.base.agent, Field::Agent.spec_path()), Field::ProxyConfigPath.spec_path());
    lemma_below_append(table_bindings(Field::ProxyAuth, m.proxy.auth) + table_bindings(Field::ProxyResources, m.proxy.resources) + table_bindings(Field::Resources, m.resources) + prefixed(m.base.watchdog, Field::Watchdog.spec_path()) + prefixed(m.base.endpoints, Field::Endpoints.spec_path()) + prefixed(m.base.agent, Field::Agent.spec_path()), prefixed(m.base.connect, Field::Connect.spec_path()), Field::ProxyConfigPath.spec_path());
    lemma_below_append(table_bindings(Field::ProxyAuth, m.proxy.auth) + table_bindings(Field::ProxyResources, m.proxy.resources) + table_bindings(Field::Resources, m.resources) + prefixed(m.base.watchdog, Field::Watchdog.spec_path()) + prefixed(m.base.endpoints, Field::Endpoints.spec_path()) + prefixed(m.base.agent, Field::Agent.spec_path()) + prefixed(m.base.connect, Field::Connect.spec_path()), prefixed(m.base.listen, Field::Listen.spec_path()), Field::ProxyConfigPath.spec_path());
    assert(below(table_part(m), Field::ProxyConfigPath.spec_path()) =~= table_back(m, Field::ProxyConfigPath));
}

proof fn lemma_tables_below_proxyconfigmapname(m: SettingsModel)
    requires
        well_formed(m),
    ensures
        below(table_part(m), Field::ProxyConfigMapName.spec_path()) == table_back(m, Field::ProxyConfigMapName),
{
    lemma_all_keys_distinct();
    if let Some(t) = m.proxy.auth { lemma_below_prefixed_other(t, Field::ProxyAuth.spec_path(), Field::ProxyConfigMapName.spec_path(), 1); }
    if let Some(t) = m.proxy.resources { lemma_below_prefixed_other(t, Field::ProxyResources.spec_path(), Field::ProxyConfigMapName.spec_path(), 1); }
    if let Some(t) = m.resources { lemma_below_prefixed_other(t, Field::Resources.spec_path(), Field::ProxyConfigMapName.spec_path(), 0); }
    { let t = m.base.watchdog; lemma_below_prefixed_other(t, Field::Watchdog.spec_path(), Field::ProxyConfigMapName.spec_path(), 0); }
    { let t = m.base.endpoints; lemma_below_prefixed_other(t, Field::Endpoints.spec_path(), Field::ProxyConfigMapName.spec_path(), 0); }
    { let t = m.base.agent; lemma_below_prefixed_other(t, Field::Agent.spec_path(), Field::ProxyConfigMapName.spec_path(), 0); }
    { let t = m.base.connect; lemma_below_prefixed_other(t, Field::Connect.spec_path(), Field::ProxyConfigMapName.spec_path(), 0); }
    { let t = m.base.listen; lemma_below_prefixed_other(t, Field::Listen.spec_path(), Field::ProxyConfigMapName.spec_path(), 0); }
    lemma_below_append(table_bindings(Field::ProxyAuth, m.proxy.auth), table_bindings(Field::ProxyResources, m.proxy.resources), Field::ProxyConfigMapName.spec_path());
    lemma_below_append(table_bindings(Field::ProxyAuth, m.proxy.auth) + table_bindings(Field::ProxyResources, m.proxy.resources), table_bindings(Field::Resources, m.resources), Field::ProxyConfigMapName.spec_path());
    lemma_below_append(table_bindings(Field::ProxyAuth, m.proxy.auth) + table_bindings(Field::ProxyResources, m.proxy.resources) + table_bindings(Field::Resources, m.resources), prefixed(m.base.watchdog, Field::Watchdog.spec_path()), Field::ProxyConfigMapName.spec_path());
    lemma_below_append(table_bindings(Field::ProxyAuth, m.proxy.auth) + table_bindings(Field::ProxyResources, m.proxy.resources) + table_bindings(Field::Resources, m.resources) + prefixed(m.base.watchdog, Field::Watchdog.spec_path()), prefixed(m.base.endpoints, Field::Endpoints.spec_path()), Field::ProxyConfigMapName.spec_path());
    lemma_below_append(table_bindings(Field::ProxyAuth, m.proxy.auth) + table_bindings(Field::ProxyResources, m.proxy.resources) + table_bindings(Field::Resources, m.resources) + prefixed(m.base.watchdog, Field::Watchdog.spec_path()) + prefixed(m.base.endpoints, Field::Endpoints.spec_path()), prefixed(m.base.agent, Field::Agent.spec_path()), Field::ProxyConfigMapName.spec_path());
    lemma_below_append(table_bindings(Field::ProxyAuth, m.proxy.auth) + table_bindings(Field::ProxyResources, m.proxy.resources) + table_bindings(Field::Resources, m.resources) + prefixed(m.base.watchdog, Field::Watchdog.spec_path()) + prefixed(m.base.endpoints, Field::Endpoints.spec_path()) + prefixed(m.base.agent, Field::Agent.spec_path()), prefixed(m.base.connect, Field::Connect.spec_path()), Field::ProxyConfigMapName.spec_path());
    lemma_below_append(table_bindings(Field::ProxyAuth, m.proxy.auth) + table_bindings(Field::ProxyResources, m.proxy.resources) + table_bindings(Field::Resources, m.resources) + prefixed(m.base.watchdog, Field::Watchdog.spec_path()) + prefixed(m.base.endpoints, Field::Endpoints.spec_path()) + prefixed(m.base.agent, Field::Agent.spec_path()) + prefixed(m.base.connect, Field::Connect.spec_path()), prefixed(m.base.listen, Field::Listen.spec_path()), Field::ProxyConfigMapName.spec_path());
    assert(below(table_part(m), Field::ProxyConfigMapName.spec_path()) =~= table_back(m, Field::ProxyConfigMapName));
}

proof fn lemma_tables_below_proxytrustbundlepath(m: SettingsModel)
    requires
        well_formed(m),
    ensures
        below(table_part(m), Field::ProxyTrustBundlePath.spec_path()) == table_back(m, Field::ProxyTrustBundlePath),
{
    lemma_all_keys_distinct();
    if let Some(t) = m.proxy.auth { lemma_below_prefixed_other(t, Field::ProxyAuth.spec_path(), Field::ProxyTrustBundlePath.spec_path(), 1); }
    if let Some(t) = m.proxy.resources { lemma_below_prefixed_other(t, Field::ProxyResources.spec_path(), Field::ProxyTrustBundlePath.spec_path(), 1); }
    if let Some(t) = m.resources { lemma_below_prefixed_other(t, Field::Resources.spec_path(), Field::ProxyTrustBundlePath.spec_path(), 0); }
    { let t = m.base.watchdog; lemma_below_prefixed_other(t, Field::Watchdog.spec_path(), Field::ProxyTrustBundlePath.spec_path(), 0); }
    { let t = m.base.endpoints; lemma_below_prefixed_other(t, Field::Endpoints.spec_path(), Field::ProxyTrustBundlePath.spec_path(), 0); }
    { let t = m.base.agent; lemma_below_prefixed_other(t, Field::Agent.spec_path(), Field::ProxyTrustBundlePath.spec_path(), 0); }
    { let t = m.base.connect; lemma_below_prefixed_other(t, Field::Connect.spec_path(), Field::ProxyTrustBundlePath.spec_path(), 0); }
    { let t = m.base.listen; lemma_below_prefixed_other(t, Field::Listen.spec_path(), Field::ProxyTrustBundlePath.spec_path(), 0); }
    lemma_below_append(table_bindings(Field::ProxyAuth, m.proxy.auth), table_bindings(Field::ProxyResources, m.proxy.resources), Field::ProxyTrustBundlePath.spec_path());
    lemma_below_append(table_bindings(Field::ProxyAuth, m.proxy.auth) + table_bindings(Field::ProxyResources, m.proxy.resources), table_bindings(Field::Resources, m.resources), Field::ProxyTrustBundlePath.spec_path());
    lemma_below_append(table_bindings(Field::ProxyAuth, m.proxy.auth) + table_bindings(Field::ProxyResources, m.proxy.resources) + table_bindings(Field::Resources, m.resources), prefixed(m.base.watchdog, Field::Watchdog.spec_path()), Field::ProxyTrustBundlePath.spec_path());
    lemma_below_append(table_bindings(Field::ProxyAuth, m.proxy.auth) + table_bindings(Field::ProxyResources, m.proxy.resources) + table_bindings(Field::Resources, m.resources) + prefixed(m.base.watchdog, Field::Watchdog.spec_path()), prefixed(m.base.endpoints, Field::Endpoints.spec_path()), Field::ProxyTrustBundlePath.spec_path());
    lemma_below_append(table_bindings(Field::ProxyAuth, m.proxy.auth) + table_bindings(Field::ProxyResources, m.proxy.resources) + table_bindings(Field::Resources, m.resources) + prefixed(m.base.watchdog, Field::Watchdog.spec_path()) + prefixed(m.base.endpoints, Field::Endpoints.spec_path()), prefixed(m.base.agent, Field::Agent.spec_path()), Field::ProxyTrustBundlePath.spec_path());
    lemma_below_append(table_bindings(Field::ProxyAuth, m.proxy.auth) + table_bindings(Field::ProxyResources, m.proxy.resources) + table_bindings(Field::Resources, m.resources) + prefixed(m.base.watchdog, Field::Watchdog.spec_path()) + prefixed(m.base.endpoints, Field::Endpoints.spec_path()) + prefixed(m.base.agent, Field::Agent.spec_path()), prefixed(m.base.connect, Field::Connect.spec_path()), Field::ProxyTrustBundlePath.spec_path());
    lemma_below_append(table_bindings(Field::ProxyAuth, m.proxy.auth) + table_bindings(Field::ProxyResources, m.proxy.resources) + table_bindings(Field::Resources, m.resources) + prefixed(m.base.watchdog, Field::Watchdog.spec_path()) + prefixed(m.base.endpoints, Field::Endpoints.spec_path()) + prefixed(m.base.agent, Field::Agent.spec_path()) + prefixed(m.base.connect, Field::Connect.spec_path()), prefixed(m.base.listen, Field::Listen.spec_path()), Field::ProxyTrustBundlePath.spec_path());
    assert(below(table_part(m), Field::ProxyTrustBundlePath.spec_path()) =~= table_back(m, Field::ProxyTrustBundlePath));
}

proof fn lemma_tables_below_proxytrustbundleconfigmapname(m: SettingsModel)
    requires
        well_formed(m),
    ensures
        below(table_part(m), Field::ProxyTrustBundleConfigMapName.spec_path()) == table_back(m, Field::ProxyTrustBundleConfigMapName),
{
    lemma_all_keys_distinct();
    if let Some(t) = m.proxy.auth { lemma_below_prefixed_other(t, Field::ProxyAuth.spec_path(), Field::ProxyTrustBundleConfigMapName.spec_path(), 1); }
    if let Some(t) = m.proxy.resources { lemma_below_prefixed_other(t, Field::ProxyResources.spec_path(), Field::ProxyTrustBundleConfigMapName.spec_path(), 1); }
    if let Some(t) = m.resources { lemma_below_prefixed_other(t, Field::Resources.spec_path(), Field::ProxyTrustBundleConfigMapName.spec_path(), 0); }
    { let t = m.base.watchdog; lemma_below_prefixed_other(t, Field::Watchdog.spec_path(), Field::ProxyTrustBundleConfigMapName.spec_path(), 0); }
    { let t = m.base.endpoints; lemma_below_prefixed_other(t, Field::Endpoints.spec_path(), Field::ProxyTrustBundleConfigMapName.spec_path(), 0); }
    { let t = m.base.agent; lemma_below_prefixed_other(t, Field::Agent.spec_path(), Field::ProxyTrustBundleConfigMapName.spec_path(), 0); }
    { let t = m.base.connect; lemma_below_prefixed_other(t, Field::Connect.spec_path(), Field::ProxyTrustBundleConfigMapName.spec_path(), 0); }
    { let t = m.base.listen; lemma_below_prefixed_other(t, Field::Listen.spec_path(), Field::ProxyTrustBundleConfigMapName.spec_path(), 0); }
    lemma_below_append(table_bindings(Field::ProxyAuth, m.proxy.auth), table_bindings(Field::ProxyResources, m.proxy.resources), Field::ProxyTrustBundleConfigMapName.spec_path());
    lemma_below_append(table_bindings(Field::ProxyAuth, m.proxy.auth) + table_bindings(Field::ProxyResources, m.proxy.resources), table_bindings(Field::Resources, m.resources), Field::ProxyTrustBundleConfigMapName.spec_path());
    lemma_below_append(table_bindings(Field::ProxyAuth, m.proxy.auth) + table_bindings(Field::ProxyResources, m.proxy.resources) + table_bindings(Field::Resources, m.resources), prefixed(m.base.watchdog, Field::Watchdog.spec_path()), Field::ProxyTrustBundleConfigMapName.spec_path());
    lemma_below_append(table_bindings(Field::ProxyAuth, m.proxy.auth) + table_bindings(Field::ProxyResources, m.proxy.resources) + table_bindings(Field::Resources, m.resources) + prefixed(m.base.watchdog, Field::Watchdog.spec_path()), prefixed(m.base.endpoints, Field::Endpoints.spec_path()), Field::ProxyTrustBundleConfigMapName.spec_path());
    lemma_below_append(table_bindings(Field::ProxyAuth, m.proxy.auth) + table_bindings(Field::ProxyResources, m.proxy.resources) + table_bindings(Field::Resources, m.resources) + prefixed(m.base.watchdog, Field::Watchdog.spec_path()) + prefixed(m.base.endpoints, Field::Endpoints.spec_path()), prefixed(m.base.agent, Field::Agent.spec_path()), Field::ProxyTrustBundleConfigMapName.spec_path());
    lemma_below_append(table_bindings(Field::ProxyAuth, m.proxy.auth) + table_bindings(Field::ProxyResources, m.proxy.resources) + table_bindings(Field::Resources, m.resources) + prefixed(m.base.watchdog, Field::Watchdog.spec_path()) + prefixed(m.base.endpoints, Field::Endpoints.spec_path()) + prefixed(m.base.agent, Field::Agent.spec_path()), prefixed(m.base.connect, Field::Connect.spec_path()), Field::ProxyTrustBundleConfigMapName.spec_path());
    lemma_below_append(table_bindings(Field::ProxyAuth, m.proxy.auth) + table_bindings(Field::ProxyResources, m.proxy.resources) + table_bindings(Field::Resources, m.resources) + prefixed(m.base.watchdog, Field::Watchdog.spec_path()) + prefixed(m.base.endpoints, Field::Endpoints.spec_path()) + prefixed(m.base.agent, Field::Agent.spec_path()) + prefixed(m.base.connect, Field::Connect.spec_path()), prefixed(m.base.listen, Field::Listen.spec_path()), Field::ProxyTrustBundleConfigMapName.spec_path());
    assert(below(table_part(m), Field::ProxyTrustBundleConfigMapName.spec_path()) =~= table_back(m, Field::ProxyTrustBundleConfigMapName));
}

proof fn lemma_tables_below_proxyresources(m: SettingsModel)
    requires
        well_formed(m),
    ensures
        below(table_part(m), Field::ProxyResources.spec_path()) == table_back(m, Field::ProxyResources),
{
    lemma_all_keys_distinct();
    if let Some(t) = m.proxy.auth { lemma_below_prefixed_other(t, Field::ProxyAuth.spec_path(), Field::ProxyResources.spec_path(), 1); }
    if let Some(t) = m.proxy.resources { lemma_below_prefixed(t, Field::ProxyResources.spec_path()); }
    if let Some(t) = m.resources { lemma_below_prefixed_other(t, Field::Resources.spec_path(), Field::ProxyResources.spec_path(), 0); }
    { let t = m.base.watchdog; lemma_below_prefixed_other(t, Field::Watchdog.spec_path(), Field::ProxyResources.spec_path(), 0); }
    { let t = m.base.endpoints; lemma_below_prefixed_other(t, Field::Endpoints.spec_path(), Field::ProxyResources.spec_path(), 0); }
    { let t = m.base.agent; lemma_below_prefixed_other(t, Field::Agent.spec_path(), Field::ProxyResources.spec_path(), 0); }
    { let t = m.base.connect; lemma_below_prefixed_other(t, Field::Connect.spec_path(), Field::ProxyResources.spec_path(), 0); }
    { let t = m.base.listen; lemma_below_prefixed_other(t, Field::Listen.spec_path(), Field::ProxyResources.spec_path(), 0); }
    lemma_below_append(table_bindings(Field::ProxyAuth, m.proxy.auth), table_bindings(Field::ProxyResources, m.proxy.resources), Field::ProxyResources.spec_path());
    lemma_below_append(table_bindings(Field::ProxyAuth, m.proxy.auth) + table_bindings(Field::ProxyResources, m.proxy.resources), table_bindings(Field::Resources, m.resources), Field::ProxyResources.spec_path());
    lemma_below_append(table_bindings(Field::ProxyAuth, m.proxy.auth) + table_bindings(Field::ProxyResources, m.proxy.resources) + table_bindings(Field::Resources, m.resources), prefixed(m.base.watchdog, Field::Watchdog.spec_path()), Field::ProxyResources.spec_path());
    lemma_below_append(table_bindings(Field::ProxyAuth, m.proxy.auth) + table_bindings(Field::ProxyResources, m.proxy.resources) + table_bindings(Field::Resources, m.resources) + prefixed(m.base.watchdog, Field::Watchdog.spec_path()), prefixed(m.base.endpoints, Field::Endpoints.spec_path()), Field::ProxyResources.spec_path());
    lemma_below_append(table_bindings(Field::ProxyAuth, m.proxy.auth) + table_bindings(Field::ProxyResources, m.proxy.resources) + table_bindings(Field::Resources, m.resources) + prefixed(m.base.watchdog, Field::Watchdog.spec_path()) + prefixed(m.base.endpoints, Field::Endpoints.spec_path()), prefixed(m.base.agent, Field::Agent.spec_path()), Field::ProxyResources.spec_path());
    lemma_below_append(table_bindings(Field::ProxyAuth, m.proxy.auth) + table_bindings(Field::ProxyResources, m.proxy.resources) + table_bindings(Field::Resources, m.resources) + prefixed(m.base.watchdog, Field::Watchdog.spec_path()) + prefixed(m.base.endpoints, Field::Endpoints.spec_path()) + prefixed(m.base.agent, Field::Agent.spec_path()), prefixed(m.base.connect, Field::Connect.spec_path()), Field::ProxyResources.spec_path());
    lemma_below_append(table_bindings(Field::ProxyAuth, m.proxy.auth) + table_bindings(Field::ProxyResources, m.proxy.resources) + table_bindings(Field::Resources, m.resources) + prefixed(m.base.watchdog, Field::Watchdog.spec_path()) + prefixed(m.base.endpoints, Field::Endpoints.spec_path()) + prefixed(m.base.agent, Field::Agent.spec_path()) + prefixed(m.base.connect, Field::Connect.spec_path()), prefixed(m.base.listen, Field::Listen.spec_path()), Field::ProxyResources.spec_path());
    assert(below(table_part(m), Field::ProxyResources.spec_path()) =~= table_back(m, Field::ProxyResources));
}

proof fn lemma_tables_below_configpath(m: SettingsModel)
    requires
        well_formed(m),
    ensures
        below(table_part(m), Field::ConfigPath.spec_path()) == table_back(m, Field::ConfigPath),
{
    lemma_all_keys_distinct();
    if let Some(t) = m.proxy.auth { lemma_below_prefixed_other(t, Field::ProxyAuth.spec_path(), Field::ConfigPath.spec_path(), 0); }
    if let Some(t) = m.proxy.resources { lemma_below_prefixed_other(t, Field::ProxyResources.spec_path(), Field::ConfigPath.spec_path(), 0); }
    if let Some(t) = m.resources { lemma_below_prefixed_other(t, Field::Resources.spec_path(), Field::ConfigPath.spec_path(), 0); }
    { let t = m.base.watchdog; lemma_below_prefixed_other(t, Field::Watchdog.spec_path(), Field::ConfigPath.spec_path(), 0); }
    { let t = m.base.endpoints; lemma_below_prefixed_other(t, Field::Endpoints.spec_path(), Field::ConfigPath.spec_path(), 0); }
    { let t = m.base.agent; lemma_below_prefixed_other(t, Field::Agent.spec_path(), Field::ConfigPath.spec_path(), 0); }
    { let t = m.base.connect; lemma_below_prefixed_other(t, Field::Connect.spec_path(), Field::ConfigPath.spec_path(), 0); }
    { let t = m.base.listen; lemma_below_prefixed_other(t, Field::Listen.spec_path(), Field::ConfigPath.spec_path(), 0); }
    lemma_below_append(table_bindings(Field::ProxyAuth, m.proxy.auth), table_bindings(Field::ProxyResources, m.proxy.resources), Field::ConfigPath.spec_path());
    lemma_below_append(table_bindings(Field::ProxyAuth, m.proxy.auth) + table_bindings(Field::ProxyResources, m.proxy.resources), table_bindings(Field::Resources, m.resources), Field::ConfigPath.spec_path());
    lemma_below_append(table_bindings(Field::ProxyAuth, m.proxy.auth) + table_bindings(Field::ProxyResources, m.proxy.resources) + table_bindings(Field::Resources, m.resources), prefixed(m.base.watchdog, Field::Watchdog.spec_path()), Field::ConfigPath.spec_path());
    lemma_below_append(table_bindings(Field::ProxyAuth, m.proxy.auth) + table_bindings(Field::ProxyResources, m.proxy.resources) + table_bindings(Field::Resources, m.resources) + prefixed(m.base.watchdog, Field::Watchdog.spec_path()), prefixed(m.base.endpoints, Field::Endpoints.spec_path()), Field::ConfigPath.spec_path());
    lemma_below_append(table_bindings(Field::ProxyAuth, m.proxy.auth) + table_bindings(Field::ProxyResources, m.proxy.resources) + table_bindings(Field::Resources, m.resources) + prefixed(m.base.watchdog, Field::Watchdog.spec_path()) + prefixed(m.base.endpoints, Field::Endpoints.spec_path()), prefixed(m.base.agent, Field::Agent.spec_path()), Field::ConfigPath.spec_path());
    lemma_below_append(table_bindings(Field::ProxyAuth, m.proxy.auth) + table_bindings(Field::ProxyResources, m.proxy.resources) + table_bindings(Field::Resources, m.resources) + prefixed(m.base.watchdog, Field::Watchdog.spec_path()) + prefixed(m.base.endpoints, Field::Endpoints.spec_path()) + prefixed(m.base.agent, Field::Agent.spec_path()), prefixed(m.base.connect, Field::Connect.spec_path()), Field::ConfigPath.spec_path());
    lemma_below_append(table_bindings(Field::ProxyAuth, m.proxy.auth) + table_bindings(Field::ProxyResources, m.proxy.resources) + table_bindings(Field::Resources, m.resources) + prefixed(m.base.watchdog, Field::Watchdog.spec_path()) + prefixed(m.base.endpoints, Field::Endpoints.spec_path()) + prefixed(m.base.agent, Field::Agent.spec_path()) + prefixed(m.base.connect, Field::Connect.spec_path()), prefixed(m.base.listen, Field::Listen.spec_path()), Field::ConfigPath.spec_path());
    assert(below(table_part(m), Field::ConfigPath.spec_path()) =~= table_back(m, Field::ConfigPath));
}

proof fn lemma_tables_below_configmapname(m: SettingsModel)
    requires
        well_formed(m),
    ensures
        below(table_part(m), Field::ConfigMapName.spec_path()) == table_back(m, Field::ConfigMapName),
{
    lemma_all_keys_distinct();
    if let Some(t) = m.proxy.auth { lemma_below_prefixed_other(t, Field::ProxyAuth.spec_path(), Field::ConfigMapName.spec_path(), 0); }
    if let Some(t) = m.proxy.resources { lemma_below_prefixed_other(t, Field::ProxyResources.spec_path(), Field::ConfigMapName.spec_path(), 0); }
    if let Some(t) = m.resources { lemma_below_prefixed_other(t, Field::Resources.spec_path(), Field::ConfigMapName.spec_path(), 0); }
    { let t = m.base.watchdog; lemma_below_prefixed_other(t, Field::Watchdog.spec_path(), Field::ConfigMapName.spec_path(), 0); }
    { let t = m.base.endpoints; lemma_below_prefixed_other(t, Field::Endpoints.spec_path(), Field::ConfigMapName.spec_path(), 0); }
    { let t = m.base.agent; lemma_below_prefixed_other(t, Field::Agent.spec_path(), Field::ConfigMapName.spec_path(), 0); }
    { let t = m.base.connect; lemma_below_prefixed_other(t, Field::Connect.spec_path(), Field::ConfigMapName.spec_path(), 0); }
    { let t = m.base.listen; lemma_below_prefixed_other(t, Field::Listen.spec_path(), Field::ConfigMapName.spec_path(), 0); }
    lemma_below_append(table_bindings(Field::ProxyAuth, m.proxy.auth), table_bindings(Field::ProxyResources, m.proxy.resources), Field::ConfigMapName.spec_path());
    lemma_below_append(table_bindings(Field::ProxyAuth, m.proxy.auth) + table_bindings(Field::ProxyResources, m.proxy.resources), table_bindings(Field::Resources, m.resources), Field::ConfigMapName.spec_path());
    lemma_below_append(table_bindings(Field::ProxyAuth, m.proxy.auth) + table_bindings(Field::ProxyResources, m.proxy.resources) + table_bindings(Field::Resources, m.resources), prefixed(m.base.watchdog, Field::Watchdog.spec_path()), Field::ConfigMapName.spec_path());
    lemma_below_append(table_bindings(Field::ProxyAuth, m.proxy.auth) + table_bindings(Field::ProxyResources, m.proxy.resources) + table_bindings(Field::Resources, m.resources) + prefixed(m.base.watchdog, Field::Watchdog.spec_path()), prefixed(m.base.endpoints, Field::Endpoints.spec_path()), Field::ConfigMapName.spec_path());
    lemma_below_append(table_bindings(Field::ProxyAuth, m.proxy.auth) + table_bindings(Field::ProxyResources, m.proxy.resources) + table_bindings(Field::Resources, m.resources) + prefixed(m.base.watchdog, Field::Watchdog.spec_path()) + prefixed(m.base.endpoints, Field::Endpoints.spec_path()), prefixed(m.base.agent, Field::Agent.spec_path()), Field::ConfigMapName.spec_path());
    lemma_below_append(table_bindings(Field::ProxyAuth, m.proxy.auth) + table_bindings(Field::ProxyResources, m.proxy.resources) + table_bindings(Field::Resources, m.resources) + prefixed(m.base.watchdog, Field::Watchdog.spec_path()) + prefixed(m.base.endpoints, Field::Endpoints.spec_path()) + prefixed(m.base.agent, Field::Agent.spec_path()), prefixed(m.base.connect, Field::Connect.spec_path()), Field::ConfigMapName.spec_path());
    lemma_below_append(table_bindings(Field::ProxyAuth, m.proxy.auth) + table_bindings(Field::ProxyResources, m.proxy.resources) + table_bindings(Field::Resources, m.resources) + prefixed(m.base.watchdog, Field::Watchdog.spec_path()) + prefixed(m.base.endpoints, Field::Endpoints.spec_path()) + prefixed(m.base.agent, Field::Agent.spec_path()) + prefixed(m.base.connect, Field::Connect.spec_path()), prefixed(m.base.listen, Field::Listen.spec_path()), Field::ConfigMapName.spec_path());
    assert(below(table_part(m), Field::ConfigMapName.spec_path()) =~= table_back(m, Field::ConfigMapName));
}

proof fn lemma_tables_below_configmapvolume(m: SettingsModel)
    requires
        well_formed(m),
    ensures
        below(table_part(m), Field::ConfigMapVolume.spec_path()) == table_back(m, Field::ConfigMapVolume),
{
    lemma_all_keys_distinct();
    if let Some(t) = m.proxy.auth { lemma_below_prefixed_other(t, Field::ProxyAuth.spec_path(), Field::ConfigMapVolume.spec_path(), 0); }
    if let Some(t) = m.proxy.resources { lemma_below_prefixed_other(t, Field::ProxyResources.spec_path(), Field::ConfigMapVolume.spec_path(), 0); }
    if let Some(t) = m.resources { lemma_below_prefixed_other(t, Field::Resources.spec_path(), Field::ConfigMapVolume.spec_path(), 0); }
    { let t = m.base.watchdog; lemma_below_prefixed_other(t, Field::Watchdog.spec_path(), Field::ConfigMapVolume.spec_path(), 0); }
    { let t = m.base.endpoints; lemma_below_prefixed_other(t, Field::Endpoints.spec_path(), Field::ConfigMapVolume.spec_path(), 0); }
    { let t = m.base.agent; lemma_below_prefixed_other(t, Field::Agent.spec_path(), Field::ConfigMapVolume.spec_path(), 0); }
    { let t = m.base.connect; lemma_below_prefixed_other(t, Field::Connect.spec_path(), Field::ConfigMapVolume.spec_path(), 0); }
    { let t = m.base.listen; lemma_below_prefixed_other(t, Field::Listen.spec_path(), Field::ConfigMapVolume.spec_path(), 0); }
    lemma_below_append(table_bindings(Field::ProxyAuth, m.proxy.auth), table_bindings(Field::ProxyResources, m.proxy.resources), Field::ConfigMapVolume.spec_path());
    lemma_below_append(table_bindings(Field::ProxyAuth, m.proxy.auth) + table_bindings(Field::ProxyResources, m.proxy.resources), table_bindings(Field::Resources, m.resources), Field::ConfigMapVolume.spec_path());
    lemma_below_append(table_bindings(Field::ProxyAuth, m.proxy.auth) + table_bindings(Field::ProxyResources, m.proxy.resources) + table_bindings(Field::Resources, m.resources), prefixed(m.base.watchdog, Field::Watchdog.spec_path()), Field::ConfigMapVolume.spec_path());
    lemma_below_append(table_bindings(Field::ProxyAuth, m.proxy.auth) + table_bindings(Field::ProxyResources, m.proxy.resources) + table_bindings(Field::Resources, m.resources) + prefixed(m.base.watchdog, Field::Watchdog.spec_path()), prefixed(m.base.endpoints, Field::Endpoints.spec_path()), Field::ConfigMapVolume.spec_path());
    lemma_below_append(table_bindings(Field::ProxyAuth, m.proxy.auth) + table_bindings(Field::ProxyResources, m.proxy.resources) + table_bindings(Field::Resources, m.resources) + prefixed(m.base.watchdog, Field::Watchdog.spec_path()) + prefixed(m.base.endpoints, Field::Endpoints.spec_path()), prefixed(m.base.agent, Field::Agent.spec_path()), Field::ConfigMapVolume.spec_path());
    lemma_below_append(table_bindings(Field::ProxyAuth, m.proxy.auth) + table_bindings(Field::ProxyResources, m.proxy.resources) + table_bindings(Field::Resources, m.resources) + prefixed(m.base.watchdog, Field::Watchdog.spec_path()) + prefixed(m.base.endpoints, Field::Endpoints.spec_path()) + prefixed(m.base.agent, Field::Agent.spec_path()), prefixed(m.base.connect, Field::Connect.spec_path()), Field::ConfigMapVolume.spec_path());
    lemma_below_append(table_bindings(Field::ProxyAuth, m.proxy.auth) + table_bindings(Field::ProxyResources, m.proxy.resources) + table_bindings(Field::Resources, m.resources) + prefixed(m.base.watchdog, Field::Watchdog.spec_path()) + prefixed(m.base.endpoints, Field::Endpoints.spec_path()) + prefixed(m.base.agent, Field::Agent.spec_path()) + prefixed(m.base.connect, Field::Connect.spec_path()), prefixed(m.base.listen, Field::Listen.spec_path()), Field::ConfigMapVolume.spec_path());
    assert(below(table_part(m), Field::ConfigMapVolume.spec_path()) =~= table_back(m, Field::ConfigMapVolume));
}

proof fn lemma_tables_below_resources(m: SettingsModel)
    requires
        well_formed(m),
    ensures
        below(table_part(m), Field::Resources.spec_path()) == table_back(m, Field::Resources),
{
    lemma_all_keys_distinct();
    if let Some(t) = m.proxy.auth { lemma_below_prefixed_other(t, Field::ProxyAuth.spec_path(), Field::Resources.spec_path(), 0); }
    if let Some(t) = m.proxy.resources { lemma_below_prefixed_other(t, Field::ProxyResources.spec_path(), Field::Resources.spec_path(), 0); }
    if let Some(t) = m.resources { lemma_below_prefixed(t, Field::Resources.spec_path()); }
    { let t = m.base.watchdog; lemma_below_prefixed_other(t, Field::Watchdog.spec_path(), Field::Resources.spec_path(), 0); }
    { let t = m.base.endpoints; lemma_below_prefixed_other(t, Field::Endpoints.spec_path(), Field::Resources.spec_path(), 0); }
    { let t = m.base.agent; lemma_below_prefixed_other(t, Field::Agent.spec_path(), Field::Resources.spec_path(), 0); }
    { let t = m.base.connect; lemma_below_prefixed_other(t, Field::Connect.spec_path(), Field::Resources.spec_path(), 0); }
    { let t = m.base.listen; lemma_below_prefixed_other(t, Field::Listen.spec_path(), Field::Resources.spec_path(), 0); }
    lemma_below_append(table_bindings(Field::ProxyAuth, m.proxy.auth), table_bindings(Field::ProxyResources, m.proxy.resources), Field::Resources.spec_path());
    lemma_below_append(table_bindings(Field::ProxyAuth, m.proxy.auth) + table_bindings(Field::ProxyResources, m.proxy.resources), table_bindings(Field::Resources, m.resources), Field::Resources.spec_path());
    lemma_below_append(table_bindings(Field::ProxyAuth, m.proxy.auth) + table_bindings(Field::ProxyResources, m.proxy.resources) + table_bindings(Field::Resources, m.resources), prefixed(m.base.watchdog, Field::Watchdog.spec_path()), Field::Resources.spec_path());
    lemma_below_append(table_bindings(Field::ProxyAuth, m.proxy.auth) + table_bindings(Field::ProxyResources, m.proxy.resources) + table_bindings(Field::Resources, m.resources) + prefixed(m.base.watchdog, Field::Watchdog.spec_path()), prefixed(m.base.endpoints, Field::Endpoints.spec_path()), Field::Resources.spec_path());
    lemma_below_append(table_bindings(Field::ProxyAuth, m.proxy.auth) + table_bindings(Field::ProxyResources, m.proxy.resources) + table_bindings(Field::Resources, m.resources) + prefixed(m.base.watchdog, Field::Watchdog.spec_path()) + prefixed(m.base.endpoints, Field::Endpoints.spec_path()), prefixed(m.base.agent, Field::Agent.spec_path()), Field::Resources.spec_path());
    lemma_below_append(table_bindings(Field::ProxyAuth, m.proxy.auth) + table_bindings(Field::ProxyResources, m.proxy.resources) + table_bindings(Field::Resources, m.resources) + prefixed(m.base.watchdog, Field::Watchdog.spec_path()) + prefixed(m.base.endpoints, Field::Endpoints.spec_path()) + prefixed(m.base.agent, Field::Agent.spec_path()), prefixed(m.base.connect, Field::Connect.spec_path()), Field::Resources.spec_path());
    lemma_below_append(table_bindings(Field::ProxyAuth, m.proxy.auth) + table_bindings(Field::ProxyResources, m.proxy.resources) + table_bindings(Field::Resources, m.resources) + prefixed(m.base.watchdog, Field::Watchdog.spec_path()) + prefixed(m.base.endpoints, Field::Endpoints.spec_path()) + prefixed(m.base.agent, Field::Agent.spec_path()) + prefixed(m.base.connect, Field::Connect.spec_path()), prefixed(m.base.listen, Field::Listen.spec_path()), Field::Resources.spec_path());
    assert(below(table_part(m), Field::Resources.spec_path()) =~= table_back(m, Field::Resources));
}

proof fn lemma_tables_below_hasnodesrbac(m: SettingsModel)
    requires
        well_formed(m),
    ensures
        below(table_part(m), Field::HasNodesRbac.spec_path()) == table_back(m, Field::HasNodesRbac),
{
    lemma_all_keys_distinct();
    if let Some(t) = m.proxy.auth { lemma_below_prefixed_other(t, Field::ProxyAuth.spec_path(), Field::HasNodesRbac.spec_path(), 0); }
    if let Some(t) = m.proxy.resources { lemma_below_prefixed_other(t, Field::ProxyResources.spec_path(), Field::HasNodesRbac.spec_path(), 0); }
    if let Some(t) = m.resources { lemma_below_prefixed_other(t, Field::Resources.spec_path(), Field::HasNodesRbac.spec_path(), 0); }
    { let t = m.base.watchdog; lemma_below_prefixed_other(t, Field::Watchdog.spec_path(), Field::HasNodesRbac.spec_path(), 0); }
    { let t = m.base.endpoints; lemma_below_prefixed_other(t, Field::Endpoints.spec_path(), Field::HasNodesRbac.spec_path(), 0); }
    { let t = m.base.agent; lemma_below_prefixed_other(t, Field::Agent.spec_path(), Field::HasNodesRbac.spec_path(), 0); }
    { let t = m.base.connect; lemma_below_prefixed_other(t, Field::Connect.spec_path(), Field::HasNodesRbac.spec_path(), 0); }
    { let t = m.base.listen; lemma_below_prefixed_other(t, Field::Listen.spec_path(), Field::HasNodesRbac.spec_path(), 0); }
    lemma_below_append(table_bindings(Field::ProxyAuth, m.proxy.auth), table_bindings(Field::ProxyResources, m.proxy.resources), Field::HasNodesRbac.spec_path());
    lemma_below_append(table_bindings(Field::ProxyAuth, m.proxy.auth) + table_bindings(Field::ProxyResources, m.proxy.resources), table_bindings(Field::Resources, m.resources), Field::HasNodesRbac.spec_path());
    lemma_below_append(table_bindings(Field::ProxyAuth, m.proxy.auth) + table_bindings(Field::ProxyResources, m.proxy.resources) + table_bindings(Field::Resources, m.resources), prefixed(m.base.watchdog, Field::Watchdog.spec_path()), Field::HasNodesRbac.spec_path());
    lemma_below_append(table_bindings(Field::ProxyAuth, m.proxy.auth) + table_bindings(Field::ProxyResources, m.proxy.resources) + table_bindings(Field::Resources, m.resources) + prefixed(m.base.watchdog, Field::Watchdog.spec_path()), prefixed(m.base.endpoints, Field::Endpoints.spec_path()), Field::HasNodesRbac.spec_path());
    lemma_below_append(table_bindings(Field::ProxyAuth, m.proxy.auth) + table_bindings(Field::ProxyResources, m.proxy.resources) + table_bindings(Field::Resources, m.resources) + prefixed(m.base.watchdog, Field::Watchdog.spec_path()) + prefixed(m.base.endpoints, Field::Endpoints.spec_path()), prefixed(m.base.agent, Field::Agent.spec_path()), Field::HasNodesRbac.spec_path());
    lemma_below_append(table_bindings(Field::ProxyAuth, m.proxy.auth) + table_bindings(Field::ProxyResources, m.proxy.resources) + table_bindings(Field::Resources, m.resources) + prefixed(m.base.watchdog, Field::Watchdog.spec_path()) + prefixed(m.base.endpoints, Field::Endpoints.spec_path()) + prefixed(m.base.agent, Field::Agent.spec_path()), prefixed(m.base.connect, Field::Connect.spec_path()), Field::HasNodesRbac.spec_path());
    lemma_below_append(table_bindings(Field::ProxyAuth, m.proxy.auth) + table_bindings(Field::ProxyResources, m.proxy.resources) + table_bindings(Field::Resources, m.resources) + prefixed(m.base.watchdog, Field::Watchdog.spec_path()) + prefixed(m.base.endpoints, Field::Endpoints.spec_path()) + prefixed(m.base.agent, Field::Agent.spec_path()) + prefixed(m.base.connect, Field::Connect.spec_path()), prefixed(m.base.listen, Field::Listen.spec_path()), Field::HasNodesRbac.spec_path());
    assert(below(table_part(m), Field::HasNodesRbac.spec_path()) =~= table_back(m, Field::HasNodesRbac));
}

proof fn lemma_tables_below_hostname(m: SettingsModel)
    requires
        well_formed(m),
    ensures
        below(table_part(m), Field::Hostname.spec_path()) == table_back(m, Field::Hostname),
{
    lemma_all_keys_distinct();
    if let Some(t) = m.proxy.auth { lemma_below_prefixed_other(t, Field::ProxyAuth.spec_path(), Field::Hostname.spec_path(), 0); }
    if let Some(t) = m.proxy.resources { lemma_below_prefixed_other(t, Field::ProxyResources.spec_path(), Field::Hostname.spec_path(), 0); }
    if let Some(t) = m.resources { lemma_below_prefixed_other(t, Field::Resources.spec_path(), Field::Hostname.spec_path(), 0); }
    { let t = m.base.watchdog; lemma_below_prefixed_other(t, Field::Watchdog.spec_path(), Field::Hostname.spec_path(), 0); }
    { let t = m.base.endpoints; lemma_below_prefixed_other(t, Field::Endpoints.spec_path(), Field::Hostname.spec_path(), 0); }
    { let t = m.base.agent; lemma_below_prefixed_other(t, Field::Agent.spec_path(), Field::Hostname.spec_path(), 0); }
    { let t = m.base.connect; lemma_below_prefixed_other(t, Field::Connect.spec_path(), Field::Hostname.spec_path(), 0); }
    { let t = m.base.listen; lemma_below_prefixed_other(t, Field::Listen.spec_path(), Field::Hostname.spec_path(), 0); }
    lemma_below_append(table_bindings(Field::ProxyAuth, m.proxy.auth), table_bindings(Field::ProxyResources, m.proxy.resources), Field::Hostname.spec_path());
    lemma_below_append(table_bindings(Field::ProxyAuth, m.proxy.auth) + table_bindings(Field::ProxyResources, m.proxy.resources), table_bindings(Field::Resources, m.resources), Field::Hostname.spec_path());
    lemma_below_append(table_bindings(Field::ProxyAuth, m.proxy.auth) + table_bindings(Field::ProxyResources, m.proxy.resources) + table_bindings(Field::Resources, m.resources), prefixed(m.base.watchdog, Field::Watchdog.spec_path()), Field::Hostname.spec_path());
    lemma_below_append(table_bindings(Field::ProxyAuth, m.proxy.auth) + table_bindings(Field::ProxyResources, m.proxy.resources) + table_bindings(Field::Resources, m.resources) + prefixed(m.base.watchdog, Field::Watchdog.spec_path()), prefixed(m.base.endpoints, Field::Endpoints.spec_path()), Field::Hostname.spec_path());
    lemma_below_append(table_bindings(Field::ProxyAuth, m.proxy.auth) + table_bindings(Field::ProxyResources, m.proxy.resources) + table_bindings(Field::Resources, m.resources) + prefixed(m.base.watchdog, Field::Watchdog.spec_path()) + prefixed(m.base.endpoints, Field::Endpoints.spec_path()), prefixed(m.base.agent, Field::Agent.spec_path()), Field::Hostname.spec_path());
    lemma_below_append(table_bindings(Field::ProxyAuth, m.proxy.auth) + table_bindings(Field::ProxyResources, m.proxy.resources) + table_bindings(Field::Resources, m.resources) + prefixed(m.base.watchdog, Field::Watchdog.spec_path()) + prefixed(m.base.endpoints, Field::Endpoints.spec_path()) + prefixed(m.base.agent, Field::Agent.spec_path()), prefixed(m.base.connect, Field::Connect.spec_path()), Field::Hostname.spec_path());
    lemma_below_append(table_bindings(Field::ProxyAuth, m.proxy.auth) + table_bindings(Field::ProxyResources, m.proxy.resources) + table_bindings(Field::Resources, m.resources) + prefixed(m.base.watchdog, Field::Watchdog.spec_path()) + prefixed(m.base.endpoints, Field::Endpoints.spec_path()) + prefixed(m.base.agent, Field::Agent.spec_path()) + prefixed(m.base.connect, Field::Connect.spec_path()), prefixed(m.base.listen, Field::Listen.spec_path()), Field::Hostname.spec_path());
    assert(below(table_part(m), Field::Hostname.spec_path()) =~= table_back(m, Field::Hostname));
}

proof fn lemma_tables_below_homedir(m: SettingsModel)
    requires
        well_formed(m),
    ensures
        below(table_part(m), Field::Homedir.spec_path()) == table_back(m, Field::Homedir),
{
    lemma_all_keys_distinct();
    if let Some(t) = m.proxy.auth { lemma_below_prefixed_other(t, Field::ProxyAuth.spec_path(), Field::Homedir.spec_path(), 0); }
    if let Some(t) = m.proxy.resources { lemma_below_prefixed_other(t, Field::ProxyResources.spec_path(), Field::Homedir.spec_path(), 0); }
    if let Some(t) = m.resources { lemma_below_prefixed_other(t, Field::Resources.spec_path(), Field::Homedir.spec_path(), 0); }
    { let t = m.base.watchdog; lemma_below_prefixed_other(t, Field::Watchdog.spec_path(), Field::Homedir.spec_path(), 0); }
    { let t = m.base.endpoints; lemma_below_prefixed_other(t, Field::Endpoints.spec_path(), Field::Homedir.spec_path(), 0); }
    { let t = m.base.agent; lemma_below_prefixed_other(t, Field::Agent.spec_path(), Field::Homedir.spec_path(), 0); }
    { let t = m.base.connect; lemma_below_prefixed_other(t, Field::Connect.spec_path(), Field::Homedir.spec_path(), 0); }
    { let t = m.base.listen; lemma_below_prefixed_other(t, Field::Listen.spec_path(), Field::Homedir.spec_path(), 0); }
    lemma_below_append(table_bindings(Field::ProxyAuth, m.proxy.auth), table_bindings(Field::ProxyResources, m.proxy.resources), Field::Homedir.spec_path());
    lemma_below_append(table_bindings(Field::ProxyAuth, m.proxy.auth) + table_bindings(Field::ProxyResources, m.proxy.resources), table_bindings(Field::Resources, m.resources), Field::Homedir.spec_path());
    lemma_below_append(table_bindings(Field::ProxyAuth, m.proxy.auth) + table_bindings(Field::ProxyResources, m.proxy.resources) + table_bindings(Field::Resources, m.resources), prefixed(m.base.watchdog, Field::Watchdog.spec_path()), Field::Homedir.spec_path());
    lemma_below_append(table_bindings(Field::ProxyAuth, m.proxy.auth) + table_bindings(Field::ProxyResources, m.proxy.resources) + table_bindings(Field::Resources, m.resources) + prefixed(m.base.watchdog, Field::Watchdog.spec_path()), prefixed(m.base.endpoints, Field::Endpoints.spec_path()), Field::Homedir.spec_path());
    lemma_below_append(table_bindings(Field::ProxyAuth, m.proxy.auth) + table_bindings(Field::ProxyResources, m.proxy.resources) + table_bindings(Field::Resources, m.resources) + prefixed(m.base.watchdog, Field::Watchdog.spec_path()) + prefixed(m.base.endpoints, Field::Endpoints.spec_path()), prefixed(m.base.agent, Field::Agent.spec_path()), Field::Homedir.spec_path());
    lemma_below_append(table_bindings(Field::ProxyAuth, m.proxy.auth) + table_bindings(Field::ProxyResources, m.proxy.resources) + table_bindings(Field::Resources, m.resources) + prefixed(m.base.watchdog, Field::Watchdog.spec_path()) + prefixed(m.base.endpoints, Field::Endpoints.spec_path()) + prefixed(m.base.agent, Field::Agent.spec_path()), prefixed(m.base.connect, Field::Connect.spec_path()), Field::Homedir.spec_path());
    lemma_below_append(table_bindings(Field::ProxyAuth, m.proxy.auth) + table_bindings(Field::ProxyResources, m.proxy.resources) + table_bindings(Field::Resources, m.resources) + prefixed(m.base.watchdog, Field::Watchdog.spec_path()) + prefixed(m.base.endpoints, Field::Endpoints.spec_path()) + prefixed(m.base.agent, Field::Agent.spec_path()) + prefixed(m.base.connect, Field::Connect.spec_path()), prefixed(m.base.listen, Field::Listen.spec_path()), Field::Homedir.spec_path());
    assert(below(table_part(m), Field::Homedir.spec_path()) =~= table_back(m, Field::Homedir));
}

proof fn lemma_tables_below_edgecacert(m: SettingsModel)
    requires
        well_formed(m),
    ensures
        below(table_part(m), Field::EdgeCaCert.spec_path()) == table_back(m, Field::EdgeCaCert),
{
    lemma_all_keys_distinct();
    if let Some(t) = m.proxy.auth { lemma_below_prefixed_other(t, Field::ProxyAuth.spec_path(), Field::EdgeCaCert.spec_path(), 0); }
    if let Some(t) = m.proxy.resources { lemma_below_prefixed_other(t, Field::ProxyResources.spec_path(), Field::EdgeCaCert.spec_path(), 0); }
    if let Some(t) = m.resources { lemma_below_prefixed_other(t, Field::Resources.spec_path(), Field::EdgeCaCert.spec_path(), 0); }
    { let t = m.base.watchdog; lemma_below_prefixed_other(t, Field::Watchdog.spec_path(), Field::EdgeCaCert.spec_path(), 0); }
    { let t = m.base.endpoints; lemma_below_prefixed_other(t, Field::Endpoints.spec_path(), Field::EdgeCaCert.spec_path(), 0); }
    { let t = m.base.agent; lemma_below_prefixed_other(t, Field::Agent.spec_path(), Field::EdgeCaCert.spec_path(), 0); }
    { let t = m.base.connect; lemma_below_prefixed_other(t, Field::Connect.spec_path(), Field::EdgeCaCert.spec_path(), 0); }
    { let t = m.base.listen; lemma_below_prefixed_other(t, Field::Listen.spec_path(), Field::EdgeCaCert.spec_path(), 0); }
    lemma_below_append(table_bindings(Field::ProxyAuth, m.proxy.auth), table_bindings(Field::ProxyResources, m.proxy.resources), Field::EdgeCaCert.spec_path());
    lemma_below_append(table_bindings(Field::ProxyAuth, m.proxy.auth) + table_bindings(Field::ProxyResources, m.proxy.resources), table_bindings(Field::Resources, m.resources), Field::EdgeCaCert.spec_path());
    lemma_below_append(table_bindings(Field::ProxyAuth, m.proxy.auth) + table_bindings(Field::ProxyResources, m.proxy.resources) + table_bindings(Field::Resources, m.resources), prefixed(m.base.watchdog, Field::Watchdog.spec_path()), Field::EdgeCaCert.spec_path());
    lemma_below_append(table_bindings(Field::ProxyAuth, m.proxy.auth) + table_bindings(Field::ProxyResources, m.proxy.resources) + table_bindings(Field::Resources, m.resources) + prefixed(m.base.watchdog, Field::Watchdog.spec_path()), prefixed(m.base.endpoints, Field::Endpoints.spec_path()), Field::EdgeCaCert.spec_path());
    lemma_below_append(table_bindings(Field::ProxyAuth, m.proxy.auth) + table_bindings(Field::ProxyResources, m.proxy.resources) + table_bindings(Field::Resources, m.resources) + prefixed(m.base.watchdog, Field::Watchdog.spec_path()) + prefixed(m.base.endpoints, Field::Endpoints.spec_path()), prefixed(m.base.agent, Field::Agent.spec_path()), Field::EdgeCaCert.spec_path());
    lemma_below_append(table_bindings(Field::ProxyAuth, m.proxy.auth) + table_bindings(Field::ProxyResources, m.proxy.resources) + table_bindings(Field::Resources, m.resources) + prefixed(m.base.watchdog, Field::Watchdog.spec_path()) + prefixed(m.base.endpoints, Field::Endpoints.spec_path()) + prefixed(m.base.agent, Field::Agent.spec_path()), prefixed(m.base.connect, Field::Connect.spec_path()), Field::EdgeCaCert.spec_path());
    lemma_below_append(table_bindings(Field::ProxyAuth, m.proxy.auth) + table_bindings(Field::ProxyResources, m.proxy.resources) + table_bindings(Field::Resources, m.resources) + prefixed(m.base.watchdog, Field::Watchdog.spec_path()) + prefixed(m.base.endpoints, Field::Endpoints.spec_path()) + prefixed(m.base.agent, Field::Agent.spec_path()) + prefixed(m.base.connect, Field::Connect.spec_path()), prefixed(m.base.listen, Field::Listen.spec_path()), Field::EdgeCaCert.spec_path());
    assert(below(table_part(m), Field::EdgeCaCert.spec_path()) =~= table_back(m, Field::EdgeCaCert));
}

proof fn lemma_tables_below_edgecakey(m: SettingsModel)
    requires
        well_formed(m),
    ensures
        below(table_part(m), Field::EdgeCaKey.spec_path()) == table_back(m, Field::EdgeCaKey),
{
    lemma_all_keys_distinct();
    if let Some(t) = m.proxy.auth { lemma_below_prefixed_other(t, Field::ProxyAuth.spec_path(), Field::EdgeCaKey.spec_path(), 0); }
    if let Some(t) = m.proxy.resources { lemma_below_prefixed_other(t, Field::ProxyResources.spec_path(), Field::EdgeCaKey.spec_path(), 0); }
    if let Some(t) = m.resources { lemma_below_prefixed_other(t, Field::Resources.spec_path(), Field::EdgeCaKey.spec_path(), 0); }
    { let t = m.base.watchdog; lemma_below_prefixed_other(t, Field::Watchdog.spec_path(), Field::EdgeCaKey.spec_path(), 0); }
    { let t = m.base.endpoints; lemma_below_prefixed_other(t, Field::Endpoints.spec_path(), Field::EdgeCaKey.spec_path(), 0); }
    { let t = m.base.agent; lemma_below_prefixed_other(t, Field::Agent.spec_path(), Field::EdgeCaKey.spec_path(), 0); }
    { let t = m.base.connect; lemma_below_prefixed_other(t, Field::Connect.spec_path(), Field::EdgeCaKey.spec_path(), 0); }
    { let t = m.base.listen; lemma_below_prefixed_other(t, Field::Listen.spec_path(), Field::EdgeCaKey.spec_path(), 0); }
    lemma_below_append(table_bindings(Field::ProxyAuth, m.proxy.auth), table_bindings(Field::ProxyResources, m.proxy.resources), Field::EdgeCaKey.spec_path());
    lemma_below_append(table_bindings(Field::ProxyAuth, m.proxy.auth) + table_bindings(Field::ProxyResources, m.proxy.resources), table_bindings(Field::Resources, m.resources), Field::EdgeCaKey.spec_path());
    lemma_below_append(table_bindings(Field::ProxyAuth, m.proxy.auth) + table_bindings(Field::ProxyResources, m.proxy.resources) + table_bindings(Field::Resources, m.resources), prefixed(m.base.watchdog, Field::Watchdog.spec_path()), Field::EdgeCaKey.spec_path());
    lemma_below_append(table_bindings(Field::ProxyAuth, m.proxy.auth) + table_bindings(Field::ProxyResources, m.proxy.resources) + table_bindings(Field::Resources, m.resources) + prefixed(m.base.watchdog, Field::Watchdog.spec_path()), prefixed(m.base.endpoints, Field::Endpoints.spec_path()), Field::EdgeCaKey.spec_path());
    lemma_below_append(table_bindings(Field::ProxyAuth, m.proxy.auth) + table_bindings(Field::ProxyResources, m.proxy.resources) + table_bindings(Field::Resources, m.resources) + prefixed(m.base.watchdog, Field::Watchdog.spec_path()) + prefixed(m.base.endpoints, Field::Endpoints.spec_path()), prefixed(m.base.agent, Field::Agent.spec_path()), Field::EdgeCaKey.spec_path());
    lemma_below_append(table_bindings(Field::ProxyAuth, m.proxy.auth) + table_bindings(Field::ProxyResources, m.proxy.resources) + table_bindings(Field::Resources, m.resources) + prefixed(m.base.watchdog, Field::Watchdog.spec_path()) + prefixed(m.base.endpoints, Field::Endpoints.spec_path()) + prefixed(m.base.agent, Field::Agent.spec_path()), prefixed(m.base.connect, Field::Connect.spec_path()), Field::EdgeCaKey.spec_path());
    lemma_below_append(table_bindings(Field::ProxyAuth, m.proxy.auth) + table_bindings(Field::ProxyResources, m.proxy.resources) + table_bindings(Field::Resources, m.resources) + prefixed(m.base.watchdog, Field::Watchdog.spec_path()) + prefixed(m.base.endpoints, Field::Endpoints.spec_path()) + prefixed(m.base.agent, Field::Agent.spec_path()) + prefixed(m.base.connect, Field::Connect.spec_path()), prefixed(m.base.listen, Field::Listen.spec_path()), Field::EdgeCaKey.spec_path());
    assert(below(table_part(m), Field::EdgeCaKey.spec_path()) =~= table_back(m, Field::EdgeCaKey));
}

proof fn lemma_tables_below_trustbundlecert(m: SettingsModel)
    requires
        well_formed(m),
    ensures
        below(table_part(m), Field::TrustBundleCert.spec_path()) == table_back(m, Field::TrustBundleCert),
{
    lemma_all_keys_distinct();
    if let Some(t) = m.proxy.auth { lemma_below_prefixed_other(t, Field::ProxyAuth.spec_path(), Field::TrustBundleCert.spec_path(), 0); }
    if let Some(t) = m.proxy.resources { lemma_below_prefixed_other(t, Field::ProxyResources.spec_path(), Field::TrustBundleCert.spec_path(), 0); }
    if let Some(t) = m.resources { lemma_below_prefixed_other(t, Field::Resources.spec_path(), Field::TrustBundleCert.spec_path(), 0); }
    { let t = m.base.watchdog; lemma_below_prefixed_other(t, Field::Watchdog.spec_path(), Field::TrustBundleCert.spec_path(), 0); }
    { let t = m.base.endpoints; lemma_below_prefixed_other(t, Field::Endpoints.spec_path(), Field::TrustBundleCert.spec_path(), 0); }
    { let t = m.base.agent; lemma_below_prefixed_other(t, Field::Agent.spec_path(), Field::TrustBundleCert.spec_path(), 0); }
    { let t = m.base.connect; lemma_below_prefixed_other(t, Field::Connect.spec_path(), Field::TrustBundleCert.spec_path(), 0); }
    { let t = m.base.listen; lemma_below_prefixed_other(t, Field::Listen.spec_path(), Field::TrustBundleCert.spec_path(), 0); }
    lemma_below_append(table_bindings(Field::ProxyAuth, m.proxy.auth), table_bindings(Field::ProxyResources, m.proxy.resources), Field::TrustBundleCert.spec_path());
    lemma_below_append(table_bindings(Field::ProxyAuth, m.proxy.auth) + table_bindings(Field::ProxyResources, m.proxy.resources), table_bindings(Field::Resources, m.resources), Field::TrustBundleCert.spec_path());
    lemma_below_append(table_bindings(Field::ProxyAuth, m.proxy.auth) + table_bindings(Field::ProxyResources, m.proxy.resources) + table_bindings(Field::Resources, m.resources), prefixed(m.base.watchdog, Field::Watchdog.spec_path()), Field::TrustBundleCert.spec_path());
    lemma_below_append(table_bindings(Field::ProxyAuth, m.proxy.auth) + table_bindings(Field::ProxyResources, m.proxy.resources) + table_bindings(Field::Resources, m.resources) + prefixed(m.base.watchdog, Field::Watchdog.spec_path()), prefixed(m.base.endpoints, Field::Endpoints.spec_path()), Field::TrustBundleCert.spec_path());
    lemma_below_append(table_bindings(Field::ProxyAuth, m.proxy.auth) + table_bindings(Field::ProxyResources, m.proxy.resources) + table_bindings(Field::Resources, m.resources) + prefixed(m.base.watchdog, Field::Watchdog.spec_path()) + prefixed(m.base.endpoints, Field::Endpoints.spec_path()), prefixed(m.base.agent, Field::Agent.spec_path()), Field::TrustBundleCert.spec_path());
    lemma_below_append(table_bindings(Field::ProxyAuth, m.proxy.auth) + table_bindings(Field::ProxyResources, m.proxy.resources) + table_bindings(Field::Resources, m.resources) + prefixed(m.base.watchdog, Field::Watchdog.spec_path()) + prefixed(m.base.endpoints, Field::Endpoints.spec_path()) + prefixed(m.base.agent, Field::Agent.spec_path()), prefixed(m.base.connect, Field::Connect.spec_path()), Field::TrustBundleCert.spec_path());
    lemma_below_append(table_bindings(Field::ProxyAuth, m.proxy.auth) + table_bindings(Field::ProxyResources, m.proxy.resources) + table_bindings(Field::Resources, m.resources) + prefixed(m.base.watchdog, Field::Watchdog.spec_path()) + prefixed(m.base.endpoints, Field::Endpoints.spec_path()) + prefixed(m.base.agent, Field::Agent.spec_path()) + prefixed(m.base.connect, Field::Connect.spec_path()), prefixed(m.base.listen, Field::Listen.spec_path()), Field::TrustBundleCert.spec_path());
    assert(below(table_part(m), Field::TrustBundleCert.spec_path()) =~= table_back(m, Field::TrustBundleCert));
}

proof fn lemma_tables_below_autoreprovisioningmode(m: SettingsModel)
    requires
        well_formed(m),
    ensures
        below(table_part(m), Field::AutoReprovisioningMode.spec_path()) == table_back(m, Field::AutoReprovisioningMode),
{
    lemma_all_keys_distinct();
    if let Some(t) = m.proxy.auth { lemma_below_prefixed_other(t, Field::ProxyAuth.spec_path(), Field::AutoReprovisioningMode.spec_path(), 0); }
    if let Some(t) = m.proxy.resources { lemma_below_prefixed_other(t, Field::ProxyResources.spec_path(), Field::AutoReprovisioningMode.spec_path(), 0); }
    if let Some(t) = m.resources { lemma_below_prefixed_other(t, Field::Resources.spec_path(), Field::AutoReprovisioningMode.spec_path(), 0); }
    { let t = m.base.watchdog; lemma_below_prefixed_other(t, Field::Watchdog.spec_path(), Field::AutoReprovisioningMode.spec_path(), 0); }
    { let t = m.base.endpoints; lemma_below_prefixed_other(t, Field::Endpoints.spec_path(), Field::AutoReprovisioningMode.spec_path(), 0); }
    { let t = m.base.agent; lemma_below_prefixed_other(t, Field::Agent.spec_path(), Field::AutoReprovisioningMode.spec_path(), 0); }
    { let t = m.base.connect; lemma_below_prefixed_other(t, Field::Connect.spec_path(), Field::AutoReprovisioningMode.spec_path(), 0); }
    { let t = m.base.listen; lemma_below_prefixed_other(t, Field::Listen.spec_path(), Field::AutoReprovisioningMode.spec_path(), 0); }
    lemma_below_append(table_bindings(Field::ProxyAuth, m.proxy.auth), table_bindings(Field::ProxyResources, m.proxy.resources), Field::AutoReprovisioningMode.spec_path());
    lemma_below_append(table_bindings(Field::ProxyAuth, m.proxy.auth) + table_bindings(Field::ProxyResources, m.proxy.resources), table_bindings(Field::Resources, m.resources), Field::AutoReprovisioningMode.spec_path());
    lemma_below_append(table_bindings(Field::ProxyAuth, m.proxy.auth) + table_bindings(Field::ProxyResources, m.proxy.resources) + table_bindings(Field::Resources, m.resources), prefixed(m.base.watchdog, Field::Watchdog.spec_path()), Field::AutoReprovisioningMode.spec_path());
    lemma_below_append(table_bindings(Field::ProxyAuth, m.proxy.auth) + table_bindings(Field::ProxyResources, m.proxy.resources) + table_bindings(Field::Resources, m.resources) + prefixed(m.base.watchdog, Field::Watchdog.spec_path()), prefixed(m.base.endpoints, Field::Endpoints.spec_path()), Field::AutoReprovisioningMode.spec_path());
    lemma_below_append(table_bindings(Field::ProxyAuth, m.proxy.auth) + table_bindings(Field::ProxyResources, m.proxy.resources) + table_bindings(Field::Resources, m.resources) + prefixed(m.base.watchdog, Field::Watchdog.spec_path()) + prefixed(m.base.endpoints, Field::Endpoints.spec_path()), prefixed(m.base.agent, Field::Agent.spec_path()), Field::AutoReprovisioningMode.spec_path());
    lemma_below_append(table_bindings(Field::ProxyAuth, m.proxy.auth) + table_bindings(Field::ProxyResources, m.proxy.resources) + table_bindings(Field::Resources, m.resources) + prefixed(m.base.watchdog, Field::Watchdog.spec_path()) + prefixed(m.base.endpoints, Field::Endpoints.spec_path()) + prefixed(m.base.agent, Field::Agent.spec_path()), prefixed(m.base.connect, Field::Connect.spec_path()), Field::AutoReprovisioningMode.spec_path());
    lemma_below_append(table_bindings(Field::ProxyAuth, m.proxy.auth) + table_bindings(Field::ProxyResources, m.proxy.resources) + table_bindings(Field::Resources, m.resources) + prefixed(m.base.watchdog, Field::Watchdog.spec_path()) + prefixed(m.base.endpoints, Field::Endpoints.spec_path()) + prefixed(m.base.agent, Field::Agent.spec_path()) + prefixed(m.base.connect, Field::Connect.spec_path()), prefixed(m.base.listen, Field::Listen.spec_path()), Field::AutoReprovisioningMode.spec_path());
    assert(below(table_part(m), Field::AutoReprovisioningMode.spec_path()) =~= table_back(m, Field::AutoReprovisioningMode));
}

proof fn lemma_tables_below_watchdog(m: SettingsModel)
    requires
        well_formed(m),
    ensures
        below(table_part(m), Field::Watchdog.spec_path()) == table_back(m, Field::Watchdog),
{
    lemma_all_keys_distinct();
    if let Some(t) = m.proxy.auth { lemma_below_prefixed_other(t, Field::ProxyAuth.spec_path(), Field::Watchdog.spec_path(), 0); }
    if let Some(t) = m.proxy.resources { lemma_below_prefixed_other(t, Field::ProxyResources.spec_path(), Field::Watchdog.spec_path(), 0); }
    if let Some(t) = m.resources { lemma_below_prefixed_other(t, Field::Resources.spec_path(), Field::Watchdog.spec_path(), 0); }
    { let t = m.base.watchdog; lemma_below_prefixed(t, Field::Watchdog.spec_path()); }
    { let t = m.base.endpoints; lemma_below_prefixed_other(t, Field::Endpoints.spec_path(), Field::Watchdog.spec_path(), 0); }
    { let t = m.base.agent; lemma_below_prefixed_other(t, Field::Agent.spec_path(), Field::Watchdog.spec_path(), 0); }
    { let t = m.base.connect; lemma_below_prefixed_other(t, Field::Connect.spec_path(), Field::Watchdog.spec_path(), 0); }
    { let t = m.base.listen; lemma_below_prefixed_other(t, Field::Listen.spec_path(), Field::Watchdog.spec_path(), 0); }
    lemma_below_append(table_bindings(Field::ProxyAuth, m.proxy.auth), table_bindings(Field::ProxyResources, m.proxy.resources), Field::Watchdog.spec_path());
    lemma_below_append(table_bindings(Field::ProxyAuth, m.proxy.auth) + table_bindings(Field::ProxyResources, m.proxy.resources), table_bindings(Field::Resources, m.resources), Field::Watchdog.spec_path());
    lemma_below_append(table_bindings(Field::ProxyAuth, m.proxy.auth) + table_bindings(Field::ProxyResources, m.proxy.resources) + table_bindings(Field::Resources, m.resources), prefixed(m.base.watchdog, Field::Watchdog.spec_path()), Field::Watchdog.spec_path());
    lemma_below_append(table_bindings(Field::ProxyAuth, m.proxy.auth) + table_bindings(Field::ProxyResources, m.proxy.resources) + table_bindings(Field::Resources, m.resources) + prefixed(m.base.watchdog, Field::Watchdog.spec_path()), prefixed(m.base.endpoints, Field::Endpoints.spec_path()), Field::Watchdog.spec_path());
    lemma_below_append(table_bindings(Field::ProxyAuth, m.proxy.auth) + table_bindings(Field::ProxyResources, m.proxy.resources) + table_bindings(Field::Resources, m.resources) + prefixed(m.base.watchdog, Field::Watchdog.spec_path()) + prefixed(m.base.endpoints, Field::Endpoints.spec_path()), prefixed(m.base.agent, Field::Agent.spec_path()), Field::Watchdog.spec_path());
    lemma_below_append(table_bindings(Field::ProxyAuth, m.proxy.auth) + table_bindings(Field::ProxyResources, m.proxy.resources) + table_bindings(Field::Resources, m.resources) + prefixed(m.base.watchdog, Field::Watchdog.spec_path()) + prefixed(m.base.endpoints, Field::Endpoints.spec_path()) + prefixed(m.base.agent, Field::Agent.spec_path()), prefixed(m.base.connect, Field::Connect.spec_path()), Field::Watchdog.spec_path());
    lemma_below_append(table_bindings(Field::ProxyAuth, m.proxy.auth) + table_bindings(Field::ProxyResources, m.proxy.resources) + table_bindings(Field::Resources, m.resources) + prefixed(m.base.watchdog, Field::Watchdog.spec_path()) + prefixed(m.base.endpoints, Field::Endpoints.spec_path()) + prefixed(m.base.agent, Field::Agent.spec_path()) + prefixed(m.base.connect, Field::Connect.spec_path()), prefixed(m.base.listen, Field::Listen.spec_path()), Field::Watchdog.spec_path());
    assert(below(table_part(m), Field::Watchdog.spec_path()) =~= table_back(m, Field::Watchdog));
}

proof fn lemma_tables_below_endpoints(m: SettingsModel)
    requires
        well_formed(m),
    ensures
        below(table_part(m), Field::Endpoints.spec_path()) == table_back(m, Field::Endpoints),
{
    lemma_all_keys_distinct();
    if let Some(t) = m.proxy.auth { lemma_below_prefixed_other(t, Field::ProxyAuth.spec_path(), Field::Endpoints.spec_path(), 0); }
    if let Some(t) = m.proxy.resources { lemma_below_prefixed_other(t, Field::ProxyResources.spec_path(), Field::Endpoints.spec_path(), 0); }
    if let Some(t) = m.resources { lemma_below_prefixed_other(t, Field::Resources.spec_path(), Field::Endpoints.spec_path(), 0); }
    { let t = m.base.watchdog; lemma_below_prefixed_other(t, Field::Watchdog.spec_path(), Field::Endpoints.spec_path(), 0); }
    { let t = m.base.endpoints; lemma_below_prefixed(t, Field::Endpoints.spec_path()); }
    { let t = m.base.agent; lemma_below_prefixed_other(t, Field::Agent.spec_path(), Field::Endpoints.spec_path(), 0); }
    { let t = m.base.connect; lemma_below_prefixed_other(t, Field::Connect.spec_path(), Field::Endpoints.spec_path(), 0); }
    { let t = m.base.listen; lemma_below_prefixed_other(t, Field::Listen.spec_path(), Field::Endpoints.spec_path(), 0); }
    lemma_below_append(table_bindings(Field::ProxyAuth, m.proxy.auth), table_bindings(Field::ProxyResources, m.proxy.resources), Field::Endpoints.spec_path());
    lemma_below_append(table_bindings(Field::ProxyAuth, m.proxy.auth) + table_bindings(Field::ProxyResources, m.proxy.resources), table_bindings(Field::Resources, m.resources), Field::Endpoints.spec_path());
    lemma_below_append(table_bindings(Field::ProxyAuth, m.proxy.auth) + table_bindings(Field::ProxyResources, m.proxy.resources) + table_bindings(Field::Resources, m.resources), prefixed(m.base.watchdog, Field::Watchdog.spec_path()), Field::Endpoints.spec_path());
    lemma_below_append(table_bindings(Field::ProxyAuth, m.proxy.auth) + table_bindings(Field::ProxyResources, m.proxy.resources) + table_bindings(Field::Resources, m.resources) + prefixed(m.base.watchdog, Field::Watchdog.spec_path()), prefixed(m.base.endpoints, Field::Endpoints.spec_path()), Field::Endpoints.spec_path());
    lemma_below_append(table_bindings(Field::ProxyAuth, m.proxy.auth) + table_bindings(Field::ProxyResources, m.proxy.resources) + table_bindings(Field::Resources, m.resources) + prefixed(m.base.watchdog, Field::Watchdog.spec_path()) + prefixed(m.base.endpoints, Field::Endpoints.spec_path()), prefixed(m.base.agent, Field::Agent.spec_path()), Field::Endpoints.spec_path());
    lemma_below_append(table_bindings(Field::ProxyAuth, m.proxy.auth) + table_bindings(Field::ProxyResources, m.proxy.resources) + table_bindings(Field::Resources, m.resources) + prefixed(m.base.watchdog, Field::Watchdog.spec_path()) + prefixed(m.base.endpoints, Field::Endpoints.spec_path()) + prefixed(m.base.agent, Field::Agent.spec_path()), prefixed(m.base.connect, Field::Connect.spec_path()), Field::Endpoints.spec_path());
    lemma_below_append(table_bindings(Field::ProxyAuth, m.proxy.auth) + table_bindings(Field::ProxyResources, m.proxy.resources) + table_bindings(Field::Resources, m.resources) + prefixed(m.base.watchdog, Field::Watchdog.spec_path()) + prefixed(m.base.endpoints, Field::Endpoints.spec_path()) + prefixed(m.base.agent, Field::Agent.spec_path()) + prefixed(m.base.connect, Field::Connect.spec_path()), prefixed(m.base.listen, Field::Listen.spec_path()), Field::Endpoints.spec_path());
    assert(below(table_part(m), Field::Endpoints.spec_path()) =~= table_back(m, Field::Endpoints));
}

proof fn lemma_tables_below_agent(m: SettingsModel)
    requires
        well_formed(m),
    ensures
        below(table_part(m), Field::Agent.spec_path()) == table_back(m, Field::Agent),
{
    lemma_all_keys_distinct();
    if let Some(t) = m.proxy.auth { lemma_below_prefixed_other(t, Field::ProxyAuth.spec_path(), Field::Agent.spec_path(), 0); }
    if let Some(t) = m.proxy.resources { lemma_below_prefixed_other(t, Field::ProxyResources.spec_path(), Field::Agent.spec_path(), 0); }
    if let Some(t) = m.resources { lemma_below_prefixed_other(t, Field::Resources.spec_path(), Field::Agent.spec_path(), 0); }
    { let t = m.base.watchdog; lemma_below_prefixed_other(t, Field::Watchdog.spec_path(), Field::Agent.spec_path(), 0); }
    { let t = m.base.endpoints; lemma_below_prefixed_other(t, Field::Endpoints.spec_path(), Field::Agent.spec_path(), 0); }
    { let t = m.base.agent; lemma_below_prefixed(t, Field::Agent.spec_path()); }
    { let t = m.base.connect; lemma_below_prefixed_other(t, Field::Connect.spec_path(), Field::Agent.spec_path(), 0); }
    { let t = m.base.listen; lemma_below_prefixed_other(t, Field::Listen.spec_path(), Field::Agent.spec_path(), 0); }
    lemma_below_append(table_bindings(Field::ProxyAuth, m.proxy.auth), table_bindings(Field::ProxyResources, m.proxy.resources), Field::Agent.spec_path());
    lemma_below_append(table_bindings(Field::ProxyAuth, m.proxy.auth) + table_bindings(Field::ProxyResources, m.proxy.resources), table_bindings(Field::Resources, m.resources), Field::Agent.spec_path());
    lemma_below_append(table_bindings(Field::ProxyAuth, m.proxy.auth) + table_bindings(Field::ProxyResources, m.proxy.resources) + table_bindings(Field::Resources, m.resources), prefixed(m.base.watchdog, Field::Watchdog.spec_path()), Field::Agent.spec_path());
    lemma_below_append(table_bindings(Field::ProxyAuth, m.proxy.auth) + table_bindings(Field::ProxyResources, m.proxy.resources) + table_bindings(Field::Resources, m.resources) + prefixed(m.base.watchdog, Field::Watchdog.spec_path()), prefixed(m.base.endpoints, Field::Endpoints.spec_path()), Field::Agent.spec_path());
    lemma_below_append(table_bindings(Field::ProxyAuth, m.proxy.auth) + table_bindings(Field::ProxyResources, m.proxy.resources) + table_bindings(Field::Resources, m.resources) + prefixed(m.base.watchdog, Field::Watchdog.spec_path()) + prefixed(m.base.endpoints, Field::Endpoints.spec_path()), prefixed(m.base.agent, Field::Agent.spec_path()), Field::Agent.spec_path());
    lemma_below_append(table_bindings(Field::ProxyAuth, m.proxy.auth) + table_bindings(Field::ProxyResources, m.proxy.resources) + table_bindings(Field::Resources, m.resources) + prefixed(m.base.watchdog, Field::Watchdog.spec_path()) + prefixed(m.base.endpoints, Field::Endpoints.spec_path()) + prefixed(m.base.agent, Field::Agent.spec_path()), prefixed(m.base.connect, Field::Connect.spec_path()), Field::Agent.spec_path());
    lemma_below_append(table_bindings(Field::ProxyAuth, m.proxy.auth) + table_bindings(Field::ProxyResources, m.proxy.resources) + table_bindings(Field::Resources, m.resources) + prefixed(m.base.watchdog, Field::Watchdog.spec_path()) + prefixed(m.base.endpoints, Field::Endpoints.spec_path()) + prefixed(m.base.agent, Field::Agent.spec_path()) + prefixed(m.base.connect, Field::Connect.spec_path()), prefixed(m.base.listen, Field::Listen.spec_path()), Field::Agent.spec_path());
    assert(below(table_part(m), Field::Agent.spec_path()) =~= table_back(m, Field::Agent));
}

proof fn lemma_tables_below_connect(m: SettingsModel)
    requires
        well_formed(m),
    ensures
        below(table_part(m), Field::Connect.spec_path()) == table_back(m, Field::Connect),
{
    lemma_all_keys_distinct();
    if let Some(t) = m.proxy.auth { lemma_below_prefixed_other(t, Field::ProxyAuth.spec_path(), Field::Connect.spec_path(), 0); }
    if let Some(t) = m.proxy.resources { lemma_below_prefixed_other(t, Field::ProxyResources.spec_path(), Field::Connect.spec_path(), 0); }
    if let Some(t) = m.resources { lemma_below_prefixed_other(t, Field::Resources.spec_path(), Field::Connect.spec_path(), 0); }
    { let t = m.base.watchdog; lemma_below_prefixed_other(t, Field::Watchdog.spec_path(), Field::Connect.spec_path(), 0); }
    { let t = m.base.endpoints; lemma_below_prefixed_other(t, Field::Endpoints.spec_path(), Field::Connect.spec_path(), 0); }
    { let t = m.base.agent; lemma_below_prefixed_other(t, Field::Agent.spec_path(), Field::Connect.spec_path(), 0); }
    { let t = m.base.connect; lemma_below_prefixed(t, Field::Connect.spec_path()); }
    { let t = m.base.listen; lemma_below_prefixed_other(t, Field::Listen.spec_path(), Field::Connect.spec_path(), 0); }
    lemma_below_append(table_bindings(Field::ProxyAuth, m.proxy.auth), table_bindings(Field::ProxyResources, m.proxy.resources), Field::Connect.spec_path());
    lemma_below_append(table_bindings(Field::ProxyAuth, m.proxy.auth) + table_bindings(Field::ProxyResources, m.proxy.resources), table_bindings(Field::Resources, m.resources), Field::Connect.spec_path());
    lemma_below_append(table_bindings(Field::ProxyAuth, m.proxy.auth) + table_bindings(Field::ProxyResources, m.proxy.resources) + table_bindings(Field::Resources, m.resources), prefixed(m.base.watchdog, Field::Watchdog.spec_path()), Field::Connect.spec_path());
    lemma_below_append(table_bindings(Field::ProxyAuth, m.proxy.auth) + table_bindings(Field::ProxyResources, m.proxy.resources) + table_bindings(Field::Resources, m.resources) + prefixed(m.base.watchdog, Field::Watchdog.spec_path()), prefixed(m.base.endpoints, Field::Endpoints.spec_path()), Field::Connect.spec_path());
    lemma_below_append(table_bindings(Field::ProxyAuth, m.proxy.auth) + table_bindings(Field::ProxyResources, m.proxy.resources) + table_bindings(Field::Resources, m.resources) + prefixed(m.base.watchdog, Field::Watchdog.spec_path()) + prefixed(m.base.endpoints, Field::Endpoints.spec_path()), prefixed(m.base.agent, Field::Agent.spec_path()), Field::Connect.spec_path());
    lemma_below_append(table_bindings(Field::ProxyAuth, m.proxy.auth) + table_bindings(Field::ProxyResources, m.proxy.resources) + table_bindings(Field::Resources, m.resources) + prefixed(m.base.watchdog, Field::Watchdog.spec_path()) + prefixed(m.base.endpoints, Field::Endpoints.spec_path()) + prefixed(m.base.agent, Field::Agent.spec_path()), prefixed(m.base.connect, Field::Connect.spec_path()), Field::Connect.spec_path());
    lemma_below_append(table_bindings(Field::ProxyAuth, m.proxy.auth) + table_bindings(Field::ProxyResources, m.proxy.resources) + table_bindings(Field::Resources, m.resources) + prefixed(m.base.watchdog, Field::Watchdog.spec_path()) + prefixed(m.base.endpoints, Field::Endpoints.spec_path()) + prefixed(m.base.agent, Field::Agent.spec_path()) + prefixed(m.base.connect, Field::Connect.spec_path()), prefixed(m.base.listen, Field::Listen.spec_path()), Field::Connect.spec_path());
    assert(below(table_part(m), Field::Connect.spec_path()) =~= table_back(m, Field::Connect));
}

proof fn lemma_tables_below_listen(m: SettingsModel)
    requires
        well_formed(m),
    ensures
        below(table_part(m), Field::Listen.spec_path()) == table_back(m, Field::Listen),
{
    lemma_all_keys_distinct();
    if let Some(t) = m.proxy.auth { lemma_below_prefixed_other(t, Field::ProxyAuth.spec_path(), Field::Listen.spec_path(), 0); }
    if let Some(t) = m.proxy.resources { lemma_below_prefixed_other(t, Field::ProxyResources.spec_path(), Field::Listen.spec_path(), 0); }
    if let Some(t) = m.resources { lemma_below_prefixed_other(t, Field::Resources.spec_path(), Field::Listen.spec_path(), 0); }
    { let t = m.base.watchdog; lemma_below_prefixed_other(t, Field::Watchdog.spec_path(), Field::Listen.spec_path(), 0); }
    { let t = m.base.endpoints; lemma_below_prefixed_other(t, Field::Endpoints.spec_path(), Field::Listen.spec_path(), 0); }
    { let t = m.base.agent; lemma_below_prefixed_other(t, Field::Agent.spec_path(), Field::Listen.spec_path(), 0); }
    { let t = m.base.connect; lemma_below_prefixed_other(t, Field::Connect.spec_path(), Field::Listen.spec_path(), 0); }
    { let t = m.base.listen; lemma_below_prefixed(t, Field::Listen.spec_path()); }
    lemma_below_append(table_bindings(Field::ProxyAuth, m.proxy.auth), table_bindings(Field::ProxyResources, m.proxy.resources), Field::Listen.spec_path());
    lemma_below_append(table_bindings(Field::ProxyAuth, m.proxy.auth) + table_bindings(Field::ProxyResources, m.proxy.resources), table_bindings(Field::Resources, m.resources), Field::Listen.spec_path());
    lemma_below_append(table_bindings(Field::ProxyAuth, m.proxy.auth) + table_bindings(Field::ProxyResources, m.proxy.resources) + table_bindings(Field::Resources, m.resources), prefixed(m.base.watchdog, Field::Watchdog.spec_path()), Field::Listen.spec_path());
    lemma_below_append(table_bindings(Field::ProxyAuth, m.proxy.auth) + table_bindings(Field::ProxyResources, m.proxy.resources) + table_bindings(Field::Resources, m.resources) + prefixed(m.base.watchdog, Field::Watchdog.spec_path()), prefixed(m.base.endpoints, Field::Endpoints.spec_path()), Field::Listen.spec_path());
    lemma_below_append(table_bindings(Field::ProxyAuth, m.proxy.auth) + table_bindings(Field::ProxyResources, m.proxy.resources) + table_bindings(Field::Resources, m.resources) + prefixed(m.base.watchdog, Field::Watchdog.spec_path()) + prefixed(m.base.endpoints, Field::Endpoints.spec_path()), prefixed(m.base.agent, Field::Agent.spec_path()), Field::Listen.spec_path());
    lemma_below_append(table_bindings(Field::ProxyAuth, m.proxy.auth) + table_bindings(Field::ProxyResources, m.proxy.resources) + table_bindings(Field::Resources, m.resources) + prefixed(m.base.watchdog, Field::Watchdog.spec_path()) + prefixed(m.base.endpoints, Field::Endpoints.spec_path()) + prefixed(m.base.agent, Field::Agent.spec_path()), prefixed(m.base.connect, Field::Connect.spec_path()), Field::Listen.spec_path());
    lemma_below_append(table_bindings(Field::ProxyAuth, m.proxy.auth) + table_bindings(Field::ProxyResources, m.proxy.resources) + table_bindings(Field::Resources, m.resources) + prefixed(m.base.watchdog, Field::Watchdog.spec_path()) + prefixed(m.base.endpoints, Field::Endpoints.spec_path()) + prefixed(m.base.agent, Field::Agent.spec_path()) + prefixed(m.base.connect, Field::Connect.spec_path()), prefixed(m.base.listen, Field::Listen.spec_path()), Field::Listen.spec_path());
    assert(below(table_part(m), Field::Listen.spec_path()) =~= table_back(m, Field::Listen));
}

proof fn lemma_tables_below(m: SettingsModel, f: Field)
    requires
        well_formed(m),
        f != Field::Proxy,
    ensures
        below(table_part(m), f.spec_path()) == table_back(m, f),
{
    match f {
        Field::Namespace => lemma_tables_below_namespace(m),
        Field::IotHubHostname => lemma_tables_below_iothubhostname(m),
        Field::DeviceId => lemma_tables_below_deviceid(m),
        Field::DeviceHubSelector => lemma_tables_below_devicehubselector(m),
        Field::ProxyAuth => lemma_tables_below_proxyauth(m),
        Field::ProxyImage => lemma_tables_below_proxyimage(m),
        Field::ProxyImagePullPolicy => lemma_tables_below_proxyimagepullpolicy(m),
        Field::ProxyConfigPath => lemma_tables_below_proxyconfigpath(m),
        Field::ProxyConfigMapName => lemma_tables_below_proxyconfigmapname(m),
        Field::ProxyTrustBundlePath => lemma_tables_below_proxytrustbundlepath(m),
        Field::ProxyTrustBundleConfigMapName => lemma_tables_below_proxytrustbundleconfigmapname(m),
        Field::ProxyResources => lemma_tables_below_proxyresources(m),
        Field::ConfigPath => lemma_tables_below_configpath(m),
        Field::ConfigMapName => lemma_tables_below_configmapname(m),
        Field::ConfigMapVolume => lemma_tables_below_configmapvolume(m),
        Field::Resources => lemma_tables_below_resources(m),
        Field::HasNodesRbac => lemma_tables_below_hasnodesrbac(m),
        Field::Hostname => lemma_tables_below_hostname(m),
        Field::Homedir => lemma_tables_below_homedir(m),
        Field::EdgeCaCert => lemma_tables_below_edgecacert(m),
        Field::EdgeCaKey => lemma_tables_below_edgecakey(m),
        Field::TrustBundleCert => lemma_tables_below_trustbundlecert(m),
        Field::AutoReprovisioningMode => lemma_tables_below_autoreprovisioningmode(m),
        Field::Watchdog => lemma_tables_below_watchdog(m),
        Field::Endpoints => lemma_tables_below_endpoints(m),
        Field::Agent => lemma_tables_below_agent(m),
        Field::Connect => lemma_tables_below_connect(m),
        Field::Listen => lemma_tables_below_listen(m),
        Field::Proxy => {},
    }
}


proof fn lemma_field_not_proxy(f: Field)
    requires
        f != Field::Proxy,
        f.spec_path().len() == 1,
    ensures
        f.spec_path()[0] != "proxy"@,
{
    lemma_all_keys_distinct();
    let k = f.spec_path()[0];
    assert(k.len() != "proxy"@.len() || k != "proxy"@);
}

proof fn lemma_below_short(d: Seq<Binding>, f: Field)
    requires
        f != Field::Proxy,
        forall|i: int| 0 <= i < d.len() ==> short_path(#[trigger] d[i].0),
    ensures
        below(d, f.spec_path()) == Seq::<Binding>::empty(),
{
    let p = f.spec_path();
    lemma_field_shape(f);
    if p.len() == 1 {
        lemma_field_not_proxy(f);
    }
    assert forall|i: int| 0 <= i < d.len() implies !is_below(#[trigger] d[i].0, p) by {
        let q = d[i].0;
        assert(short_path(q));
        if is_below(q, p) {
            assert(q.subrange(0, p.len() as int)[0] == q[0]);
        }
    }
    lemma_below_none(d, p);
}

proof fn lemma_own_part_short(m: SettingsModel)
    ensures
        forall|i: int| 0 <= i < own_part(m).len() ==> short_path(#[trigger] own_part(m)[i].0),
{
    let a = seq![text_binding(Field::Namespace, m.namespace)];
    let b = opt_text_bindings(Field::IotHubHostname, m.iot_hub_hostname);
    let c = opt_text_bindings(Field::DeviceId, m.device_id);
    lemma_field_shape(Field::Namespace);
    lemma_field_shape(Field::IotHubHostname);
    lemma_field_shape(Field::DeviceId);
    lemma_field_shape(Field::DeviceHubSelector);
    lemma_field_shape(Field::ProxyImage);
    lemma_field_shape(Field::ProxyImagePullPolicy);
    lemma_field_shape(Field::ProxyConfigPath);
    lemma_field_shape(Field::ProxyConfigMapName);
    lemma_field_shape(Field::ProxyTrustBundlePath);
    lemma_field_shape(Field::ProxyTrustBundleConfigMapName);
    lemma_field_shape(Field::ConfigPath);
    lemma_field_shape(Field::ConfigMapName);
    lemma_field_shape(Field::ConfigMapVolume);
    lemma_field_shape(Field::HasNodesRbac);
    assert forall|i: int| 0 <= i < own_part(m).len() implies short_path(#[trigger] own_part(m)[i].0) by {
        let k = i - (a.len() + b.len() + c.len());
        if i >= a.len() + b.len() + c.len() {
            assert(0 <= k < 11);
            assert(k == 0 || k == 1 || k == 2 || k == 3 || k == 4 || k == 5 || k == 6 || k == 7
                || k == 8 || k == 9 || k == 10);
        }
    }
}

proof fn lemma_base_part_short(m: SettingsModel)
    ensures
        forall|i: int| 0 <= i < base_part(m).len() ==> short_path(#[trigger] base_part(m)[i].0),
{
    let a = seq![text_binding(Field::Hostname, m.base.hostname), text_binding(Field::Homedir, m.base.homedir)];
    let b = opt_text_bindings(Field::EdgeCaCert, m.base.edge_ca_cert);
    let c = opt_text_bindings(Field::EdgeCaKey, m.base.edge_ca_key);
    let d = opt_text_bindings(Field::TrustBundleCert, m.base.trust_bundle_cert);
    lemma_field_shape(Field::Hostname);
    lemma_field_shape(Field::Homedir);
    lemma_field_shape(Field::EdgeCaCert);
    lemma_field_shape(Field::EdgeCaKey);
    lemma_field_shape(Field::TrustBundleCert);
    lemma_field_shape(Field::AutoReprovisioningMode);
    assert forall|i: int| 0 <= i < base_part(m).len() implies short_path(#[trigger] base_part(m)[i].0) by {
        if i < 2 {
            assert(i == 0 || i == 1);
        }
    }
}

/// What the written settings bind at the path of `f`.
pub open spec fn written_value(m: SettingsModel, f: Field) -> Option<LeafView> {
    if own_value(m, f) is Some {
        own_value(m, f)
    } else {
        base_value(m, f)
    }
}

proof fn lemma_written_field(m: SettingsModel, f: Field)
    requires
        well_formed(m),
    ensures
        find(encoded(m), f.spec_path()) == written_value(m, f),
        f != Field::Proxy ==> below(encoded(m), f.spec_path()) == table_back(m, f),
{
    let o = own_part(m);
    let b = base_part(m);
    let t = table_part(m);
    let p = f.spec_path();
    lemma_find_tables(m, f);
    lemma_find_own(m, f);
    lemma_find_base(m, f);
    lemma_find_concat(o + b, t, p);
    lemma_find_concat(o, b, p);
    if f != Field::Proxy {
        lemma_own_part_short(m);
        lemma_base_part_short(m);
        lemma_below_short(o, f);
        lemma_below_short(b, f);
        lemma_tables_below(m, f);
        lemma_below_append(o + b, t, p);
        lemma_below_append(o, b, p);
        assert(below(encoded(m), p) =~= table_back(m, f));
    }
}

/// Writing well-formed settings as a document and decoding that document
/// gives the same settings back.
pub proof fn lemma_encode_decode(m: SettingsModel)
    requires
        well_formed(m),
    ensures
        decoded(encoded(m)) == Ok::<SettingsModel, DecodeError>(m),
{
    let e = encoded(m);
    assert forall|f: Field| field_error(e, f) is None by {
        lemma_written_field(m, f);
    }
    assert forall|i: int| 0 <= i < field_order().len() implies field_error(e, #[trigger] field_order()[i]) is None by {
        let f = field_order()[i];
        lemma_written_field(m, f);
    }
    lemma_no_error(e, field_order());
    lemma_written_field(m, Field::Namespace);
    lemma_written_field(m, Field::IotHubHostname);
    lemma_written_field(m, Field::DeviceId);
    lemma_written_field(m, Field::DeviceHubSelector);
    lemma_written_field(m, Field::ProxyAuth);
    lemma_written_field(m, Field::ProxyImage);
    lemma_written_field(m, Field::ProxyImagePullPolicy);
    lemma_written_field(m, Field::ProxyConfigPath);
    lemma_written_field(m, Field::ProxyConfigMapName);
    lemma_written_field(m, Field::ProxyTrustBundlePath);
    lemma_written_field(m, Field::ProxyTrustBundleConfigMapName);
    lemma_written_field(m, Field::ProxyResources);
    lemma_written_field(m, Field::ConfigPath);
    lemma_written_field(m, Field::ConfigMapName);
    lemma_written_field(m, Field::ConfigMapVolume);
    lemma_written_field(m, Field::Resources);
    lemma_written_field(m, Field::HasNodesRbac);
    lemma_written_field(m, Field::Hostname);
    lemma_written_field(m, Field::Homedir);
    lemma_written_field(m, Field::EdgeCaCert);
    lemma_written_field(m, Field::EdgeCaKey);
    lemma_written_field(m, Field::TrustBundleCert);
    lemma_written_field(m, Field::AutoReprovisioningMode);
    lemma_written_field(m, Field::Watchdog);
    lemma_written_field(m, Field::Endpoints);
    lemma_written_field(m, Field::Agent);
    lemma_written_field(m, Field::Connect);
    lemma_written_field(m, Field::Listen);
    assert(model_of(e).base == m.base);
    assert(model_of(e).proxy == m.proxy);
    assert(model_of(e) == m);
}

proof fn lemma_no_error(d: Seq<Binding>, fs: Seq<Field>)
    requires
        forall|i: int| 0 <= i < fs.len() ==> field_error(d, #[trigger] fs[i]) is None,
    ensures
        first_error_in(d, fs) is None,
    decreases fs.len(),
{
    if fs.len() > 0 {
        let rest = fs.subrange(1, fs.len() as int);
        assert forall|i: int| 0 <= i < rest.len() implies field_error(d, #[trigger] rest[i]) is None by {
            assert(rest[i] == fs[i + 1]);
        }
        lemma_no_error(d, rest);
    }
}

proof fn lemma_below_paths(d: Seq<Binding>, pre: KeyPath)
    ensures
        paths_nonempty(below(d, pre)),
    decreases d.len(),
{
    if d.len() > 0 {
        let dl = d.drop_last();
        lemma_below_paths(dl, pre);
        assert forall|i: int| 0 <= i < below(d, pre).len() implies (#[trigger] below(d, pre)[i]).0.len() > 0 by {
            if i < below(dl, pre).len() {
                assert(below(d, pre)[i] == below(dl, pre)[i]);
            }
        }
    }
}

/// The settings that a document decodes to are well formed.
pub proof fn lemma_decoded_well_formed(d: Seq<Binding>)
    requires
        decoded(d) is Ok,
    ensures
        well_formed(decoded(d)->Ok_0),
{
    lemma_below_paths(d, Field::ProxyAuth.spec_path());
    lemma_below_paths(d, Field::ProxyResources.spec_path());
    lemma_below_paths(d, Field::Resources.spec_path());
    lemma_below_paths(d, Field::Watchdog.spec_path());
    lemma_below_paths(d, Field::Endpoints.spec_path());
    lemma_below_paths(d, Field::Agent.spec_path());
    lemma_below_paths(d, Field::Connect.spec_path());
    lemma_below_paths(d, Field::Listen.spec_path());
    lemma_first_error_none(d, field_order());
    assert(field_order()[26] == Field::Agent);
    assert(field_order()[27] == Field::Connect);
    assert(field_order()[28] == Field::Listen);
}

proof fn lemma_first_error_none(d: Seq<Binding>, fs: Seq<Field>)
    requires
        first_error_in(d, fs) is None,
    ensures
        forall|i: int| 0 <= i < fs.len() ==> field_error(d, #[trigger] fs[i]) is None,
    decreases fs.len(),
{
    if fs.len() > 0 {
        let rest = fs.subrange(1, fs.len() as int);
        lemma_first_error_none(d, rest);
        assert forall|i: int| 0 <= i < fs.len() implies field_error(d, #[trigger] fs[i]) is None by {
            if i > 0 {
                assert(fs[i] == rest[i - 1]);
            }
        }
    }
}

/// Writing decoded settings back as a document and decoding that document
/// gives the same settings.
pub proof fn lemma_round_trip(d: Seq<Binding>)
    requires
        decoded(d) is Ok,
    ensures
        decoded(encoded(decoded(d)->Ok_0)) == decoded(d),
{
    lemma_decoded_well_formed(d);
    lemma_encode_decode(decoded(d)->Ok_0);
}

} // verus!
