use zim_downloader::config::{Config, Theme};

#[test]
fn test_default_config() {
    let config = Config::default();
    assert!(config.enable_resume);
    assert_eq!(config.max_concurrent_downloads, 2);
}

#[test]
fn default_config_full_values() {
    let config = Config::default();
    assert!(config.verify_checksums);
    assert!(config.auto_update_repos);
    assert!(config.human_readable_sizes);
    assert_eq!(config.theme, Theme::Dark);
    assert_eq!(config.speed_limit, 0);
    assert!(config.proxy.is_none());
    assert_eq!(config.preferred_repositories, vec!["kiwix", "archive"]);
    assert!(config.download_dir.ends_with("/ZIM"));
}

#[test]
fn with_download_base_joins_zim_dir() {
    let config = Config::with_download_base("/data/files");
    assert_eq!(config.download_dir, "/data/files/ZIM");
    assert_eq!(config.max_concurrent_downloads, 2);
}

#[test]
fn config_path_under_config_dir() {
    // The platform reports a config directory in any ordinary environment.
    let path = Config::config_path().expect("config dir");
    assert!(path.ends_with("/zim-downloader/config.toml"));
}

#[test]
fn config_clone_copies_values() {
    let config = Config::with_download_base("/data");
    let copy = config.clone();
    assert_eq!(copy.download_dir, config.download_dir);
    assert_eq!(copy.preferred_repositories, config.preferred_repositories);
    assert_eq!(copy.theme, config.theme);
}
