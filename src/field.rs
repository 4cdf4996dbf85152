//! The fields of the settings document, where each one sits, and what makes a
//! document's value for it unusable.

use vstd::prelude::*;
use crate::document::{below, find, path_view, Binding, Document, KeyPath, Leaf, LeafView};

verus! {

/// A field of the settings document.
#[derive(Clone, Copy, Debug, PartialEq, Eq, Structural)]
pub enum Field {
    Namespace,
    IotHubHostname,
    DeviceId,
    DeviceHubSelector,
    Proxy,
    ProxyAuth,
    ProxyImage,
    ProxyImagePullPolicy,
    ProxyConfigPath,
    ProxyConfigMapName,
    ProxyTrustBundlePath,
    ProxyTrustBundleConfigMapName,
    ProxyResources,
    ConfigPath,
    ConfigMapName,
    ConfigMapVolume,
    Resources,
    HasNodesRbac,
    Hostname,
    Homedir,
    EdgeCaCert,
    EdgeCaKey,
    TrustBundleCert,
    AutoReprovisioningMode,
    Watchdog,
    Endpoints,
    Agent,
    Connect,
    Listen,
}

/// What a field holds.
#[derive(Clone, Copy, Debug, PartialEq, Eq, Structural)]
pub enum Shape {
    /// A string that must be present.
    Required,
    /// A string that may be absent.
    Optional,
    /// A boolean, `true` where absent.
    FlagDefaultTrue,
    /// A table, held unexamined; absent where it has no entries.
    Table,
    /// A string, `Dynamic` where absent.
    TextDefaultDynamic,
    /// A table, held unexamined, that must have entries.
    RequiredTable,
}

/// Why a document cannot be decoded: the field at fault.
#[derive(Clone, Copy, Debug, PartialEq, Eq, Structural)]
pub enum DecodeError {
    /// A required field is absent.
    Missing(Field),
    /// A field holds a value of the wrong shape.
    InvalidType(Field),
}

/// The fields in the order in which a document is checked.
pub open spec fn field_order() -> Seq<Field> {
    seq![
        Field::Namespace,
        Field::IotHubHostname,
        Field::DeviceId,
        Field::DeviceHubSelector,
        Field::Proxy,
        Field::ProxyAuth,
        Field::ProxyImage,
        Field::ProxyImagePullPolicy,
        Field::ProxyConfigPath,
        Field::ProxyConfigMapName,
        Field::ProxyTrustBundlePath,
        Field::ProxyTrustBundleConfigMapName,
        Field::ProxyResources,
        Field::ConfigPath,
        Field::ConfigMapName,
        Field::ConfigMapVolume,
        Field::Resources,
        Field::HasNodesRbac,
        Field::Hostname,
        Field::Homedir,
        Field::EdgeCaCert,
        Field::EdgeCaKey,
        Field::TrustBundleCert,
        Field::AutoReprovisioningMode,
        Field::Watchdog,
        Field::Endpoints,
        Field::Agent,
        Field::Connect,
        Field::Listen,
    ]
}

impl Field {
    /// The key path of the field in the document.
    pub open spec fn spec_path(self) -> KeyPath {
        match self {
            Field::Namespace => seq!["namespace"@],
            Field::IotHubHostname => seq!["iot_hub_hostname"@],
            Field::DeviceId => seq!["device_id"@],
            Field::DeviceHubSelector => seq!["device_hub_selector"@],
            Field::Proxy => seq!["proxy"@],
            Field::ProxyAuth => seq!["proxy"@, "auth"@],
            Field::ProxyImage => seq!["proxy"@, "image"@],
            Field::ProxyImagePullPolicy => seq!["proxy"@, "image_pull_policy"@],
            Field::ProxyConfigPath => seq!["proxy"@, "config_path"@],
            Field::ProxyConfigMapName => seq!["proxy"@, "config_map_name"@],
            Field::ProxyTrustBundlePath => seq!["proxy"@, "trust_bundle_path"@],
            Field::ProxyTrustBundleConfigMapName => seq!["proxy"@, "trust_bundle_config_map_name"@],
            Field::ProxyResources => seq!["proxy"@, "resources"@],
            Field::ConfigPath => seq!["config_path"@],
            Field::ConfigMapName => seq!["config_map_name"@],
            Field::ConfigMapVolume => seq!["config_map_volume"@],
            Field::Resources => seq!["resources"@],
            Field::HasNodesRbac => seq!["has_nodes_rbac"@],
            Field::Hostname => seq!["hostname"@],
            Field::Homedir => seq!["homedir"@],
            Field::EdgeCaCert => seq!["edge_ca_cert"@],
            Field::EdgeCaKey => seq!["edge_ca_key"@],
            Field::TrustBundleCert => seq!["trust_bundle_cert"@],
            Field::AutoReprovisioningMode => seq!["auto_reprovisioning_mode"@],
            Field::Watchdog => seq!["watchdog"@],
            Field::Endpoints => seq!["endpoints"@],
            Field::Agent => seq!["agent"@],
            Field::Connect => seq!["connect"@],
            Field::Listen => seq!["listen"@],
        }
    }

    pub open spec fn shape(self) -> Shape {
        match self {
            Field::IotHubHostname | Field::DeviceId | Field::EdgeCaCert | Field::EdgeCaKey
            | Field::TrustBundleCert => Shape::Optional,
            Field::Proxy | Field::ProxyAuth | Field::ProxyResources | Field::Resources
            | Field::Watchdog | Field::Endpoints => Shape::Table,
            Field::AutoReprovisioningMode => Shape::TextDefaultDynamic,
            Field::Agent | Field::Connect | Field::Listen => Shape::RequiredTable,
            Field::HasNodesRbac => Shape::FlagDefaultTrue,
            _ => Shape::Required,
        }
    }

    /// The key path of the field in the document, as strings.
    pub fn path(self) -> (r: Vec<String>)
        ensures
            path_view(r@) == self.spec_path(),
    {
        let r = match self {
            Field::Namespace => vec!["namespace".to_owned()],
            Field::IotHubHostname => vec!["iot_hub_hostname".to_owned()],
            Field::DeviceId => vec!["device_id".to_owned()],
            Field::DeviceHubSelector => vec!["device_hub_selector".to_owned()],
            Field::Proxy => vec!["proxy".to_owned()],
            Field::ProxyAuth => vec!["proxy".to_owned(), "auth".to_owned()],
            Field::ProxyImage => vec!["proxy".to_owned(), "image".to_owned()],
            Field::ProxyImagePullPolicy => vec!["proxy".to_owned(), "image_pull_policy".to_owned()],
            Field::ProxyConfigPath => vec!["proxy".to_owned(), "config_path".to_owned()],
            Field::ProxyConfigMapName => vec!["proxy".to_owned(), "config_map_name".to_owned()],
            Field::ProxyTrustBundlePath => vec!["proxy".to_owned(), "trust_bundle_path".to_owned()],
            Field::ProxyTrustBundleConfigMapName => vec![
                "proxy".to_owned(),
                "trust_bundle_config_map_name".to_owned(),
            ],
            Field::ProxyResources => vec!["proxy".to_owned(), "resources".to_owned()],
            Field::ConfigPath => vec!["config_path".to_owned()],
            Field::ConfigMapName => vec!["config_map_name".to_owned()],
            Field::ConfigMapVolume => vec!["config_map_volume".to_owned()],
            Field::Resources => vec!["resources".to_owned()],
            Field::HasNodesRbac => vec!["has_nodes_rbac".to_owned()],
            Field::Hostname => vec!["hostname".to_owned()],
            Field::Homedir => vec!["homedir".to_owned()],
            Field::EdgeCaCert => vec!["edge_ca_cert".to_owned()],
            Field::EdgeCaKey => vec!["edge_ca_key".to_owned()],
            Field::TrustBundleCert => vec!["trust_bundle_cert".to_owned()],
            Field::AutoReprovisioningMode => vec!["auto_reprovisioning_mode".to_owned()],
            Field::Watchdog => vec!["watchdog".to_owned()],
            Field::Endpoints => vec!["endpoints".to_owned()],
            Field::Agent => vec!["agent".to_owned()],
            Field::Connect => vec!["connect".to_owned()],
            Field::Listen => vec!["listen".to_owned()],
        };
        assert(path_view(r@) =~= self.spec_path());
        r
    }
}

/// What is wrong, if anything, with the value that `d` holds for `f`. A
/// table field is wrong where a single value stands at its path; any other
/// field is wrong where bindings lie below its path.
pub open spec fn field_error(d: Seq<Binding>, f: Field) -> Option<DecodeError> {
    let v = find(d, f.spec_path());
    let nested = below(d, f.spec_path()).len() > 0;
    match f.shape() {
        Shape::Required => match v {
            _ if nested => Some(DecodeError::InvalidType(f)),
            Some(LeafView::Text(_)) => None,
            Some(_) => Some(DecodeError::InvalidType(f)),
            None => Some(DecodeError::Missing(f)),
        },
        Shape::Optional | Shape::TextDefaultDynamic => match v {
            _ if nested => Some(DecodeError::InvalidType(f)),
            Some(LeafView::Text(_)) | None => None,
            Some(_) => Some(DecodeError::InvalidType(f)),
        },
        Shape::FlagDefaultTrue => match v {
            _ if nested => Some(DecodeError::InvalidType(f)),
            Some(LeafView::Flag(_)) | None => None,
            Some(_) => Some(DecodeError::InvalidType(f)),
        },
        Shape::Table => if v is Some {
            Some(DecodeError::InvalidType(f))
        } else {
            None
        },
        Shape::RequiredTable => if v is Some {
            Some(DecodeError::InvalidType(f))
        } else if !nested {
            Some(DecodeError::Missing(f))
        } else {
            None
        },
    }
}

/// The first error over `fs`, taken in order.
pub open spec fn first_error_in(d: Seq<Binding>, fs: Seq<Field>) -> Option<DecodeError>
    decreases fs.len(),
{
    if fs.len() == 0 {
        None
    } else if field_error(d, fs[0]) is Some {
        field_error(d, fs[0])
    } else {
        first_error_in(d, fs.subrange(1, fs.len() as int))
    }
}

/// The first field of `d` that cannot be decoded, in the order of
/// `field_order`.
pub open spec fn first_error(d: Seq<Binding>) -> Option<DecodeError> {
    first_error_in(d, field_order())
}

/// What is wrong, if anything, with the value that `d` holds for `f`.
pub fn check_field(d: &Document, f: Field) -> (r: Option<DecodeError>)
    ensures
        r == field_error(d@, f),
{
    let p = f.path();
    let v = d.lookup(&p);
    let nested = d.has_below(&p);
    match f {
        Field::Proxy | Field::ProxyAuth | Field::ProxyResources | Field::Resources
        | Field::Watchdog | Field::Endpoints => match v {
            Some(_) => Some(DecodeError::InvalidType(f)),
            None => None,
        },
        Field::Agent | Field::Connect | Field::Listen => match v {
            Some(_) => Some(DecodeError::InvalidType(f)),
            None => if nested {
                None
            } else {
                Some(DecodeError::Missing(f))
            },
        },
        _ => if nested {
            Some(DecodeError::InvalidType(f))
        } else {
            match f {
                Field::IotHubHostname | Field::DeviceId | Field::EdgeCaCert | Field::EdgeCaKey
                | Field::TrustBundleCert | Field::AutoReprovisioningMode => match v {
                    Some(Leaf::Text(_)) | None => None,
                    Some(_) => Some(DecodeError::InvalidType(f)),
                },
                Field::HasNodesRbac => match v {
                    Some(Leaf::Flag(_)) | None => None,
                    Some(_) => Some(DecodeError::InvalidType(f)),
                },
                _ => match v {
                    Some(Leaf::Text(_)) => None,
                    Some(_) => Some(DecodeError::InvalidType(f)),
                    None => Some(DecodeError::Missing(f)),
                },
            }
        },
    }
}

/// The first field of `d` that cannot be decoded, in the order of
/// `field_order`.
pub fn first_decode_error(d: &Document) -> (r: Option<DecodeError>)
    ensures
        r == first_error(d@),
{
    let fields = [
        Field::Namespace,
        Field::IotHubHostname,
        Field::DeviceId,
        Field::DeviceHubSelector,
        Field::Proxy,
        Field::ProxyAuth,
        Field::ProxyImage,
        Field::ProxyImagePullPolicy,
        Field::ProxyConfigPath,
        Field::ProxyConfigMapName,
        Field::ProxyTrustBundlePath,
        Field::ProxyTrustBundleConfigMapName,
        Field::ProxyResources,
        Field::ConfigPath,
        Field::ConfigMapName,
        Field::ConfigMapVolume,
        Field::Resources,
        Field::HasNodesRbac,
        Field::Hostname,
        Field::Homedir,
        Field::EdgeCaCert,
        Field::EdgeCaKey,
        Field::TrustBundleCert,
        Field::AutoReprovisioningMode,
        Field::Watchdog,
        Field::Endpoints,
        Field::Agent,
        Field::Connect,
        Field::Listen,
    ];
    assert(fields@ =~= field_order());
    assert(field_order().subrange(0, 29) =~= field_order());
    let mut i: usize = 0;
    while i < 29
        invariant
            fields@ == field_order(),
            i <= 29,
            first_error(d@) == first_error_in(d@, field_order().subrange(i as int, 29)),
        decreases 29 - i,
    {
        let e = check_field(d, fields[i]);
        assert(field_order().subrange(i as int, 29).subrange(1, 29 - i as int)
            =~= field_order().subrange(i + 1, 29));
        if e.is_some() {
            return e;
        }
        i = i + 1;
    }
    None
}

impl Field {
    /// The field's key path as a dotted name, such as `proxy.image`.
    pub open spec fn dotted(self) -> Seq<char> {
        match self {
            Field::Namespace => "namespace"@,
            Field::IotHubHostname => "iot_hub_hostname"@,
            Field::DeviceId => "device_id"@,
            Field::DeviceHubSelector => "device_hub_selector"@,
            Field::Proxy => "proxy"@,
            Field::ProxyAuth => "proxy.auth"@,
            Field::ProxyImage => "proxy.image"@,
            Field::ProxyImagePullPolicy => "proxy.image_pull_policy"@,
            Field::ProxyConfigPath => "proxy.config_path"@,
            Field::ProxyConfigMapName => "proxy.config_map_name"@,
            Field::ProxyTrustBundlePath => "proxy.trust_bundle_path"@,
            Field::ProxyTrustBundleConfigMapName => "proxy.trust_bundle_config_map_name"@,
            Field::ProxyResources => "proxy.resources"@,
            Field::ConfigPath => "config_path"@,
            Field::ConfigMapName => "config_map_name"@,
            Field::ConfigMapVolume => "config_map_volume"@,
            Field::Resources => "resources"@,
            Field::HasNodesRbac => "has_nodes_rbac"@,
            Field::Hostname => "hostname"@,
            Field::Homedir => "homedir"@,
            Field::EdgeCaCert => "edge_ca_cert"@,
            Field::EdgeCaKey => "edge_ca_key"@,
            Field::TrustBundleCert => "trust_bundle_cert"@,
            Field::AutoReprovisioningMode => "auto_reprovisioning_mode"@,
            Field::Watchdog => "watchdog"@,
            Field::Endpoints => "endpoints"@,
            Field::Agent => "agent"@,
            Field::Connect => "connect"@,
            Field::Listen => "listen"@,
        }
    }

    /// The field's key path as a dotted name, such as `proxy.image`.
    pub fn dotted_name(self) -> (r: String)
        ensures
            r@ == self.dotted(),
    {
        let s = match self {
            Field::Namespace => "namespace",
            Field::IotHubHostname => "iot_hub_hostname",
            Field::DeviceId => "device_id",
            Field::DeviceHubSelector => "device_hub_selector",
            Field::Proxy => "proxy",
            Field::ProxyAuth => "proxy.auth",
            Field::ProxyImage => "proxy.image",
            Field::ProxyImagePullPolicy => "proxy.image_pull_policy",
            Field::ProxyConfigPath => "proxy.config_path",
            Field::ProxyConfigMapName => "proxy.config_map_name",
            Field::ProxyTrustBundlePath => "proxy.trust_bundle_path",
            Field::ProxyTrustBundleConfigMapName => "proxy.trust_bundle_config_map_name",
            Field::ProxyResources => "proxy.resources",
            Field::ConfigPath => "config_path",
            Field::ConfigMapName => "config_map_name",
            Field::ConfigMapVolume => "config_map_volume",
            Field::Resources => "resources",
            Field::HasNodesRbac => "has_nodes_rbac",
            Field::Hostname => "hostname",
            Field::Homedir => "homedir",
            Field::EdgeCaCert => "edge_ca_cert",
            Field::EdgeCaKey => "edge_ca_key",
            Field::TrustBundleCert => "trust_bundle_cert",
            Field::AutoReprovisioningMode => "auto_reprovisioning_mode",
            Field::Watchdog => "watchdog",
            Field::Endpoints => "endpoints",
            Field::Agent => "agent",
            Field::Connect => "connect",
            Field::Listen => "listen",
        };
        s.to_owned()
    }
}

} // verus!
