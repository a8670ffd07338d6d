//! Where the application keeps its keys and its store.
use vstd::prelude::*;
use vstd::string::StringExecFns;

verus! {

/// The paths of the durable resources.
pub struct AppConfig {
    /// The file of the global parameters.
    pub gk_path: String,
    /// The directory of the authority public keys.
    pub auth_dir: String,
    /// The directory of the issued user keys.
    pub user_dir: String,
    /// The file of the record store.
    pub storage_path: String,
}

impl AppConfig {
    /// The layout below a base directory: each path is the base directory
    /// followed by the resource's fixed place under it.
    pub fn new(base_dir: &str) -> (r: AppConfig)
        ensures
            r.gk_path@ == base_dir@ + "/src/keys/global_keys/global_parameters.json"@,
            r.auth_dir@ == base_dir@ + "/src/keys/authority_keys"@,
            r.user_dir@ == base_dir@ + "/src/keys/user_keys"@,
            r.storage_path@ == base_dir@ + "/src/storage/storage.json"@,
    {
        AppConfig {
            gk_path: String::from_str(base_dir).concat(
                "/src/keys/global_keys/global_parameters.json",
            ),
            auth_dir: String::from_str(base_dir).concat("/src/keys/authority_keys"),
            user_dir: String::from_str(base_dir).concat("/src/keys/user_keys"),
            storage_path: String::from_str(base_dir).concat("/src/storage/storage.json"),
        }
    }
}

} // verus!
