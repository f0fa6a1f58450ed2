//! Plugin files and their configuration files.

use vstd::prelude::*;
use vstd::string::*;
use crate::text::{split_file_name, str_eq, stem_of, has_extension, extension_of};
use crate::paths::{join_path, join_of, plain_name};

verus! {

/// A plugin library: a file whose extension is exactly `dll`.
pub open spec fn is_plugin_file(file_name: Seq<char>) -> bool {
    has_extension(file_name) && extension_of(file_name) == "dll"@
}

/// The plugin name of a file in the plugin folder: its stem, when its
/// extension is exactly `dll`.
pub fn plugin_name_for_file(file_name: &str) -> (r: Option<String>)
    ensures
        r is Some == is_plugin_file(file_name@),
        r is Some ==> r->0@ == stem_of(file_name@),
{
    let (stem, ext) = split_file_name(file_name);
    match ext {
        Some(e) => {
            if str_eq(e.as_str(), "dll") {
                Some(stem)
            } else {
                None
            }
        },
        None => None,
    }
}

/// The name of a plugin's configuration file: the plugin's name and `.toml`.
pub fn config_file_name(plugin_name: &str) -> (r: String)
    ensures
        r@ == plugin_name@ + ".toml"@,
{
    let mut r: String = plugin_name.to_owned();
    r.append(".toml");
    r
}

/// The path of a plugin's configuration file in the configuration folder.
pub fn plugin_config_path(configs_dir: &str, plugin_name: &str) -> (r: String)
    ensures
        plain_name(plugin_name@ + ".toml"@) ==> join_of(configs_dir@, plugin_name@ + ".toml"@, r@),
{
    let name: String = config_file_name(plugin_name);
    join_path(configs_dir, name.as_str())
}

} // verus!
