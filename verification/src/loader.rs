//! Trusted edge to the filesystem and to the external configuration parser.

use vstd::prelude::*;

verus! {

/// Relies on `std::path::Path::is_file`: whether `path` names an existing
/// regular file. The answer depends on the state of the filesystem, so
/// nothing is stated of it.
#[verifier::external_body]
pub(crate) fn path_is_file(path: &str) -> bool {
    std::path::Path::new(path).is_file()
}

/// Relies on the `config` crate (`Config::builder`, `File::with_name`,
/// `ConfigBuilder::build`, `Config::try_deserialize`) to read the file at
/// `path` and parse it into flat string key/value pairs. What comes back
/// depends on the file on disk, so nothing is stated of it; the caller
/// states what holds of every outcome.
#[verifier::external_body]
pub(crate) fn load_config_pairs(path: &str) -> Result<Vec<(String, String)>, ()> {
    let source = config::File::with_name(path);
    let built = match config::Config::builder().add_source(source).build() {
        Ok(c) => c,
        Err(_) => return Err(()),
    };
    match built.try_deserialize::<std::collections::HashMap<String, String>>() {
        Ok(m) => Ok(m.into_iter().collect()),
        Err(_) => Err(()),
    }
}

} // verus!
