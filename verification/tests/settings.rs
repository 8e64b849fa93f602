use ario::category::last_segment;
use ario::config::{expand_tilde_in, Aria2Config, Aria2ProcessConfig, HomeDirError, ServerConfig, Settings};
use ario::enums::FileCategory;

#[test]
fn default_extensions_classify_common_files() {
    let map = FileCategory::default_extensions();
    assert_eq!(FileCategory::infer_from_filename("movie.mkv", &map), FileCategory::Video);
    assert_eq!(FileCategory::infer_from_filename("Song.FLAC", &map), FileCategory::Music);
    assert_eq!(FileCategory::infer_from_filename("a.tar.gz", &map), FileCategory::Archive);
    assert_eq!(FileCategory::infer_from_filename("setup.exe", &map), FileCategory::Program);
    assert_eq!(FileCategory::infer_from_filename("notes", &map), FileCategory::Other);
    assert_eq!(FileCategory::infer_from_filename("x.unknown", &map), FileCategory::Other);
}

#[test]
fn last_segment_follows_rsplit() {
    assert_eq!(last_segment("a/b/c", '/', '/'), "c");
    assert_eq!(last_segment("a/b/", '/', '/'), "");
    assert_eq!(last_segment("plain", '/', '/'), "plain");
    assert_eq!(last_segment(r"C:\dir\f.torrent", '/', '\\'), "f.torrent");
}

#[test]
fn default_settings_place_categories_under_downloads() {
    let s = Settings::default();
    assert_eq!(s.default_download_location, "~/Downloads");
    assert_eq!(s.location_of(FileCategory::Music), "~/Downloads/Musics");
    assert_eq!(s.location_of(FileCategory::Archive), "~/Downloads/Compressed");
    assert_eq!(s.location_of(FileCategory::Other), "~/Downloads");
    assert!(!s.proxy.enabled);
}

#[test]
fn default_server_config() {
    let c = ServerConfig::default();
    assert_eq!(c.aria2.rpc_port, 6800);
    let a = Aria2Config::default();
    assert_eq!(a.binary_path, "aria2c");
    assert_eq!(a.download_dir, "~/Downloads");
}

#[test]
fn random_secret_is_32_hex_digits_and_rpc_url_uses_the_port() {
    let c = Aria2ProcessConfig::new_with_random_secret("/data", "/dl".into());
    assert_eq!(c.rpc_secret.len(), 32);
    assert!(c.rpc_secret.chars().all(|ch| ch.is_ascii_hexdigit() && !ch.is_ascii_uppercase()));
    assert_eq!(c.session_path, "/data/aria2-session.txt");
    assert_eq!(c.log_path, "/data/aria2.log");
    assert_eq!(c.rpc_url(), "http://127.0.0.1:6800/jsonrpc");
    let other = Aria2ProcessConfig::new_with_random_secret("/data", "/dl".into());
    assert_ne!(c.rpc_secret, other.rpc_secret);
}

#[test]
fn tilde_expands_against_home() {
    assert_eq!(
        expand_tilde_in("~/Downloads", Some("/home/u".into())).unwrap(),
        "/home/u/Downloads"
    );
    assert_eq!(expand_tilde_in("/abs", None).unwrap(), "/abs");
    assert_eq!(expand_tilde_in("~/x", None), Err(HomeDirError::Unknown));
}

#[test]
fn an_extension_listed_twice_gets_one_of_its_categories() {
    let map = vec![
        (FileCategory::Video, vec!["bin".to_string()]),
        (FileCategory::Archive, vec!["bin".to_string()]),
    ];
    let c = FileCategory::infer_from_filename("x.BIN", &map);
    assert!(c == FileCategory::Video || c == FileCategory::Archive);
    assert_eq!(FileCategory::infer_from_filename("x.iso", &map), FileCategory::Other);
}
