use fnm::arch::{Arch, LibC};
use fnm::config::{default_node_dist_mirror, layered, ConfigError, FnmConfig, LogLevel};

fn resolved_with(
    mirror: Option<&str>,
    base_dir: Option<&str>,
    libc_override: Option<LibC>,
) -> Result<FnmConfig, ConfigError> {
    FnmConfig::resolve(
        mirror.map(|s| s.to_string()),
        base_dir.map(|s| s.to_string()),
        None,
        None,
        None,
        libc_override,
        Arch::X64,
        LibC::Glibc,
    )
}

#[test]
fn default_mirror_follows_resolved_libc() {
    assert_eq!(
        default_node_dist_mirror(&LibC::Musl),
        "https://unofficial-builds.nodejs.org/download/release/"
    );
    assert_eq!(default_node_dist_mirror(&LibC::Glibc), "https://nodejs.org/dist/");
}

#[test]
fn resolve_defaults_use_official_mirror_for_glibc() {
    let cfg = resolved_with(None, None, None).unwrap();
    assert_eq!(cfg.node_dist_mirror, "https://nodejs.org/dist/");
    assert_eq!(cfg.arch, Arch::X64);
    assert_eq!(cfg.libc, LibC::Glibc);
    assert_eq!(*cfg.log_level(), LogLevel::Info);
    assert!(cfg.multishell_path().is_none());
}

#[test]
fn resolve_libc_override_switches_default_mirror() {
    let cfg = resolved_with(None, None, Some(LibC::Musl)).unwrap();
    assert_eq!(
        cfg.node_dist_mirror,
        "https://unofficial-builds.nodejs.org/download/release/"
    );
    assert_eq!(cfg.libc, LibC::Musl);
}

#[test]
fn resolve_explicit_mirror_wins_over_default() {
    let cfg = resolved_with(Some("https://example.com/dist/"), None, Some(LibC::Musl)).unwrap();
    assert_eq!(cfg.node_dist_mirror, "https://example.com/dist/");
}

#[test]
fn resolve_rejects_malformed_mirror() {
    let err = resolved_with(Some("not a url"), None, None).unwrap_err();
    match err {
        ConfigError::InvalidMirrorUrl(u) => assert_eq!(u, "not a url"),
        other => panic!("unexpected error: {}", other.message()),
    }
}

#[test]
fn invalid_mirror_message_names_the_value() {
    let err = resolved_with(Some("::::"), None, None).unwrap_err();
    assert_eq!(err.message(), "invalid Node dist mirror URL: ::::");
}

#[test]
fn base_dir_override_wins_over_home_default() {
    let cfg = resolved_with(None, Some("/tmp/fnm-root"), None).unwrap();
    assert_eq!(cfg.base_dir_with_default().unwrap(), "/tmp/fnm-root");
}

#[test]
fn base_dir_defaults_under_home() {
    let cfg = resolved_with(None, None, None).unwrap();
    let base = cfg.base_dir_with_default().unwrap();
    assert!(base.ends_with("/.fnm"));
}

#[test]
fn derived_directories_sit_under_the_base() {
    let cfg = resolved_with(None, Some("/tmp/fnm-root"), None).unwrap();
    assert_eq!(cfg.installations_dir().unwrap(), "/tmp/fnm-root/node-versions");
    assert_eq!(cfg.aliases_dir().unwrap(), "/tmp/fnm-root/aliases");
    assert_eq!(cfg.default_version_dir().unwrap(), "/tmp/fnm-root/aliases/default");
}

#[test]
fn accessors_repeat_the_same_path() {
    let cfg = resolved_with(None, Some("/tmp/fnm-root"), None).unwrap();
    assert_eq!(cfg.installations_dir().unwrap(), cfg.installations_dir().unwrap());
    assert_eq!(cfg.aliases_dir().unwrap(), cfg.aliases_dir().unwrap());
}

#[test]
fn multishell_base_dir_sits_under_temp() {
    let cfg = resolved_with(None, None, None).unwrap();
    assert_eq!(cfg.multishell_base_dir("/tmp"), "/tmp/fnm_multishell");
}

#[test]
fn multishell_path_reports_the_populated_value() {
    let cfg = FnmConfig::resolve(
        None,
        None,
        Some("/tmp/fnm_multishell/77".to_string()),
        None,
        None,
        None,
        Arch::X64,
        LibC::Glibc,
    )
    .unwrap();
    assert_eq!(cfg.multishell_path().unwrap().as_str(), "/tmp/fnm_multishell/77");
}

#[test]
fn with_base_dir_replaces_only_the_base() {
    let cfg = resolved_with(None, None, None).unwrap();
    let cfg = cfg.with_base_dir(Some("/tmp/other-root".to_string()));
    assert_eq!(cfg.base_dir, Some("/tmp/other-root".to_string()));
    assert_eq!(cfg.node_dist_mirror, "https://nodejs.org/dist/");
}

#[test]
fn layering_prefers_the_flag() {
    assert_eq!(layered(Some(1u32), Some(2u32)), Some(1));
    assert_eq!(layered(None, Some(2u32)), Some(2));
    assert_eq!(layered::<u32>(None, None), None);
}

#[test]
fn log_level_override_is_kept() {
    let cfg = FnmConfig::resolve(
        None,
        None,
        None,
        Some(LogLevel::Quiet),
        None,
        None,
        Arch::X64,
        LibC::Glibc,
    )
    .unwrap();
    assert_eq!(*cfg.log_level(), LogLevel::Quiet);
}
