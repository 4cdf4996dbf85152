//! Where the configuration comes from, and the settings that a base document
//! and its fragments resolve to.

use vstd::prelude::*;
use crate::document::{find, lemma_last_layer_wins, merged_all, Binding, Document, LeafView};
use crate::field::Field;
use crate::error::{LoadCause, LoadSettingsError};
use crate::settings::{decoded, lemma_nodes_rbac_default, text_of, Settings};

verus! {

/// The variable that names the base configuration file.
pub const CONFIG_ENV_VAR: &'static str = "AZIOT_EDGED_CONFIG";

/// The variable that names the directory of fragments.
pub const CONFIG_DIRECTORY_ENV_VAR: &'static str = "AZIOT_EDGED_CONFIG_DIR";

/// The base configuration file where no variable names one.
pub const CONFIG_FILE_DEFAULT: &'static str = "/etc/aziot/edged/config.toml";

/// The directory of fragments where no variable names one.
pub const CONFIG_DIRECTORY_DEFAULT: &'static str = "/etc/aziot/edged/config.d";

/// The base file and the fragment directory to read: each the variable's
/// value where it is set, else the default.
pub fn config_sources(file_var: Option<String>, dir_var: Option<String>) -> (r: (String, String))
    ensures
        r.0@ == (match file_var {
            Some(s) => s@,
            None => "/etc/aziot/edged/config.toml"@,
        }),
        r.1@ == (match dir_var {
            Some(s) => s@,
            None => "/etc/aziot/edged/config.d"@,
        }),
{
    let file = match file_var {
        Some(s) => s,
        None => CONFIG_FILE_DEFAULT.to_owned(),
    };
    let dir = match dir_var {
        Some(s) => s,
        None => CONFIG_DIRECTORY_DEFAULT.to_owned(),
    };
    (file, dir)
}

impl Settings {
    /// The settings that `base` overlaid by `fragments`, in the order given,
    /// decodes to; the decode error, as a load error, where it decodes to
    /// none.
    pub fn new(base: Document, fragments: Vec<Document>) -> (r: Result<Settings, LoadSettingsError>)
        ensures
            ({
                let d = merged_all(base@, fragments@.map_values(|f: Document| f@));
                &&& r matches Ok(s) ==> decoded(d) == Ok::<_, crate::field::DecodeError>(s@)
                &&& r matches Err(e) ==> decoded(d) matches Err(de) && e.cause() == LoadCause::Decode(de)
            }),
    {
        let merged = base.merge_layers(fragments);
        match Settings::decode(merged) {
            Ok(s) => Ok(s),
            Err(e) => Err(LoadSettingsError::from_cause(LoadCause::Decode(e))),
        }
    }
}

/// A text field that the uppermost fragment sets decodes to that fragment's
/// value, whatever the base and earlier fragments set it to.
pub proof fn lemma_fragment_text_wins(
    base: Seq<Binding>,
    fragments: Seq<Seq<Binding>>,
    f: Field,
    x: Seq<char>,
)
    requires
        fragments.len() > 0,
        find(fragments.last(), f.spec_path()) == Some(LeafView::Text(x)),
    ensures
        text_of(merged_all(base, fragments), f) == x,
{
    lemma_last_layer_wins(base, fragments, f.spec_path());
}


/// Where a base and its fragments load, and none of them sets
/// `has_nodes_rbac`, the loaded settings have the flag set.
pub proof fn lemma_loaded_rbac_default(base: Seq<Binding>, fragments: Seq<Seq<Binding>>)
    requires
        decoded(merged_all(base, fragments)) is Ok,
        find(merged_all(base, fragments), Field::HasNodesRbac.spec_path()) is None,
    ensures
        decoded(merged_all(base, fragments))->Ok_0.has_nodes_rbac,
{
    lemma_nodes_rbac_default(merged_all(base, fragments));
}

} // verus!
