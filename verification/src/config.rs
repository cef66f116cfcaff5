//! Application configuration: the values the core consumes, their
//! defaults, and the configuration file's path.
//!
//! Reading and writing the file itself is left to the host program.

use vstd::prelude::*;
use crate::strutil::{clone_opt_string, clone_vec_string};

verus! {

/// Color scheme preference stored in the configuration.
#[derive(Debug, Clone, Copy, PartialEq, Eq, Structural)]
pub enum Theme {
    Dark,
    Light,
}

impl Default for Theme {
    fn default() -> (r: Self)
        ensures
            r is Dark,
    {
        Theme::Dark
    }
}

/// Proxy settings.
#[derive(Debug)]
pub struct ProxyConfig {
    pub url: String,
    pub username: Option<String>,
    pub password: Option<String>,
}

impl Clone for ProxyConfig {
    fn clone(&self) -> (res: Self)
        ensures
            res == *self,
    {
        ProxyConfig {
            url: self.url.clone(),
            username: clone_opt_string(&self.username),
            password: clone_opt_string(&self.password),
        }
    }
}

/// Application configuration.
#[derive(Debug)]
pub struct Config {
    /// Directory downloaded ZIM files are stored in.
    pub download_dir: String,
    /// Maximum concurrent downloads.
    pub max_concurrent_downloads: usize,
    /// Whether interrupted downloads may be resumed.
    pub enable_resume: bool,
    /// Whether checksums are verified after download.
    pub verify_checksums: bool,
    /// Preferred repositories, most preferred first.
    pub preferred_repositories: Vec<String>,
    /// Whether the repository list is refreshed on startup.
    pub auto_update_repos: bool,
    /// Color scheme.
    pub theme: Theme,
    /// Whether file sizes are shown in human-readable form.
    pub human_readable_sizes: bool,
    /// Download speed limit in bytes per second; 0 means unlimited.
    pub speed_limit: u64,
    /// Proxy settings, if any.
    pub proxy: Option<ProxyConfig>,
}

/// Two configurations carry the same values, vector fields compared by
/// contents.
pub open spec fn config_eq(a: Config, b: Config) -> bool {
    &&& a.download_dir == b.download_dir
    &&& a.max_concurrent_downloads == b.max_concurrent_downloads
    &&& a.enable_resume == b.enable_resume
    &&& a.verify_checksums == b.verify_checksums
    &&& a.preferred_repositories@ == b.preferred_repositories@
    &&& a.auto_update_repos == b.auto_update_repos
    &&& a.theme == b.theme
    &&& a.human_readable_sizes == b.human_readable_sizes
    &&& a.speed_limit == b.speed_limit
    &&& a.proxy == b.proxy
}

impl Clone for Config {
    fn clone(&self) -> (res: Self)
        ensures
            config_eq(res, *self),
    {
        Config {
            download_dir: self.download_dir.clone(),
            max_concurrent_downloads: self.max_concurrent_downloads,
            enable_resume: self.enable_resume,
            verify_checksums: self.verify_checksums,
            preferred_repositories: clone_vec_string(&self.preferred_repositories),
            auto_update_repos: self.auto_update_repos,
            theme: self.theme,
            human_readable_sizes: self.human_readable_sizes,
            speed_limit: self.speed_limit,
            proxy: match &self.proxy {
                Option::None => Option::None,
                Option::Some(p) => Option::Some(p.clone()),
            },
        }
    }
}

/// The default values hold, apart from the download directory.
pub open spec fn default_values(c: Config) -> bool {
    &&& c.max_concurrent_downloads == 2
    &&& c.enable_resume
    &&& c.verify_checksums
    &&& c.preferred_repositories@.len() == 2
    &&& c.preferred_repositories@[0]@ == "kiwix"@
    &&& c.preferred_repositories@[1]@ == "archive"@
    &&& c.auto_update_repos
    &&& c.theme is Dark
    &&& c.human_readable_sizes
    &&& c.speed_limit == 0
    &&& c.proxy is None
}

impl Config {
    /// The default configuration, downloading into a "ZIM" directory
    /// under the given base.
    pub fn with_download_base(base: &str) -> (c: Config)
        ensures
            default_values(c),
            c.download_dir@ == base@ + "/ZIM"@,
    {
        let download_dir = String::from_str(base).concat("/ZIM");
        proof {
            assert(download_dir@ =~= base@ + "/ZIM"@);
        }
        let mut preferred: Vec<String> = Vec::new();
        preferred.push(String::from_str("kiwix"));
        preferred.push(String::from_str("archive"));
        Config {
            download_dir,
            max_concurrent_downloads: 2,
            enable_resume: true,
            verify_checksums: true,
            preferred_repositories: preferred,
            auto_update_repos: true,
            theme: Theme::Dark,
            human_readable_sizes: true,
            speed_limit: 0,
            proxy: Option::None,
        }
    }

    /// The configuration file's path: "zim-downloader/config.toml" under
    /// the platform's configuration directory, absent when the platform
    /// reports none.
    pub fn config_path() -> (r: Option<String>)
        ensures
            r matches Some(p) ==> exists|base: Seq<char>|
                p@ == #[trigger] (base + "/zim-downloader/config.toml"@),
    {
        match config_dir_path() {
            Option::None => Option::None,
            Option::Some(d) => {
                let ghost base = d@;
                let p = d.concat("/zim-downloader/config.toml");
                proof {
                    assert(p@ == base + "/zim-downloader/config.toml"@);
                }
                Option::Some(p)
            },
        }
    }
}

impl Default for Config {
    /// The default configuration; the download directory is the
    /// platform's download directory (falling back to the current
    /// directory) with "ZIM" appended.
    fn default() -> (c: Config)
        ensures
            default_values(c),
    {
        let base = match download_dir_path() {
            Option::Some(d) => d,
            Option::None => String::from_str("."),
        };
        Config::with_download_base(base.as_str())
    }
}

/// Relies on dirs::download_dir: the platform's download directory, if
/// it reports one. The value depends on the environment, so nothing is
/// promised of it.
#[verifier::external_body]
fn download_dir_path() -> (r: Option<String>) {
    dirs::download_dir().map(|p| p.to_string_lossy().into_owned())
}

/// Relies on dirs::config_dir: the platform's configuration directory,
/// if it reports one. The value depends on the environment, so nothing
/// is promised of it.
#[verifier::external_body]
fn config_dir_path() -> (r: Option<String>) {
    dirs::config_dir().map(|p| p.to_string_lossy().into_owned())
}

} // verus!
