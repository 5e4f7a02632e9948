//! Where stored files are reached from outside.

use crate::config::Config;
use vstd::prelude::*;

verus! {

/// Knows where stored files are reached from outside.
pub struct StorageService {
    config: Config,
}

/// The address under which the file at `file_path` is reached: below the
/// CDN's address where a CDN is used, below `/downloads/` where none is.
pub open spec fn file_url_text(config: Config, file_path: Seq<char>) -> Seq<char> {
    if config.storage.use_cdn {
        config.storage.cdn_base_url@ + "/"@ + file_path
    } else {
        "/downloads/"@ + file_path
    }
}

/// What the archive of a plugin's version is called.
pub open spec fn plugin_file_name_text(plugin_id: Seq<char>, version: Seq<char>) -> Seq<char> {
    plugin_id + "-"@ + version + ".tar.gz"@
}

impl StorageService {
    pub closed spec fn config(&self) -> Config {
        self.config
    }

    pub fn new(config: Config) -> (service: StorageService)
        ensures
            service.config() == config,
    {
        StorageService { config }
    }

    /// The address under which the file at `file_path` is reached.
    pub fn get_file_url(&self, file_path: &str) -> (url: String)
        ensures
            url@ == file_url_text(self.config(), file_path@),
    {
        if self.config.storage.use_cdn {
            self.config.storage.cdn_base_url.clone().concat("/").concat(file_path)
        } else {
            "/downloads/".to_string().concat(file_path)
        }
    }

    /// What the archive of the version `version` of the plugin `plugin_id` is called.
    pub fn plugin_file_name(plugin_id: &str, version: &str) -> (name: String)
        ensures
            name@ == plugin_file_name_text(plugin_id@, version@),
    {
        plugin_id.to_string().concat("-").concat(version).concat(".tar.gz")
    }
}

} // verus!
