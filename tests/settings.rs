use buckle::config::BuckleConfig;
use buckle::settings::{os_cache_dir, prelude_check_setting, resolve_settings, EnvSettings, FileSettings, SettingsError};

fn s(x: &str) -> Option<String> {
    Some(x.to_string())
}

#[test]
fn environment_overrides_file() {
    let env = EnvSettings { use_buck2_version: s("2023-07-15"), cache: s("/tmp/c"), download_url: s("https://m"), ..Default::default() };
    let file = FileSettings { buck2_version: s("2023-01-01"), cache_dir: s("/var/c"), base_download_url: s("https://f"), check_prelude: Some(false) };
    let r = resolve_settings(&env, &file, Some("2022-01-01"), "linux").unwrap();
    assert_eq!(r.buck2_version, s("2023-07-15"));
    assert_eq!(r.buckle_dir, "/tmp/c/buckle");
    assert_eq!(r.base_download_url, s("https://m"));
    assert!(!r.check_prelude);
}

#[test]
fn file_overrides_defaults() {
    let env = EnvSettings { home: s("/home/me"), ..Default::default() };
    let file = FileSettings { buck2_version: s("2023-01-01"), cache_dir: s("/var/c"), base_download_url: s("https://f"), check_prelude: Some(false) };
    let r = resolve_settings(&env, &file, None, "linux").unwrap();
    assert_eq!(r.buck2_version, s("2023-01-01"));
    assert_eq!(r.buckle_dir, "/var/c/buckle");
    assert_eq!(r.base_download_url, s("https://f"));
    assert!(!r.check_prelude);
}

#[test]
fn defaults() {
    let env = EnvSettings { home: s("/home/me"), ..Default::default() };
    let r = resolve_settings(&env, &FileSettings::default(), None, "linux").unwrap();
    assert_eq!(r.buck2_version, None);
    assert_eq!(r.buckle_dir, "/home/me/.cache/buckle");
    assert_eq!(r.base_download_url, None);
    assert!(r.check_prelude);
    let config = BuckleConfig::buck2_latest();
    assert_eq!(r.version_pattern(&config.archives[0].1), "latest");
}

#[test]
fn deprecated_buckversion_is_trimmed() {
    let env = EnvSettings { home: s("/h"), ..Default::default() };
    let r = resolve_settings(&env, &FileSettings::default(), Some("  2023-07-15\n"), "linux").unwrap();
    assert_eq!(r.buck2_version, s("2023-07-15"));
    let config = BuckleConfig::buck2_latest();
    assert_eq!(r.version_pattern(&config.archives[0].1), "2023-07-15");
}

#[test]
fn prelude_check_is_off_only_for_no() {
    let with = |v: &str| {
        let env = EnvSettings { home: s("/h"), prelude_check: s(v), ..Default::default() };
        resolve_settings(&env, &FileSettings::default(), None, "linux").unwrap().check_prelude
    };
    assert!(!with("no"));
    assert!(!with("No"));
    assert!(!with("NO"));
    assert!(with("yes"));
    assert!(with("false"));
    assert!(with(""));
    assert!(prelude_check_setting(Some("YES"), Some(false)));
    assert!(!prelude_check_setting(Some("NO"), Some(true)));
    assert!(!prelude_check_setting(None, Some(false)));
    assert!(prelude_check_setting(None, None));
}

#[test]
fn os_cache_directories() {
    let env = EnvSettings { xdg_cache_home: s("/x"), home: s("/h"), local_app_data: s("C:/L"), ..Default::default() };
    assert_eq!(os_cache_dir("linux", &env), Ok("/x".to_string()));
    assert_eq!(os_cache_dir("macos", &env), Ok("/h/Library/Caches".to_string()));
    assert_eq!(os_cache_dir("windows", &env), Ok("C:/L".to_string()));
    assert_eq!(os_cache_dir("haiku", &env), Err(SettingsError::UnsupportedOs));
    let bare = EnvSettings::default();
    assert_eq!(os_cache_dir("linux", &bare), Err(SettingsError::NoCacheBase));
    assert_eq!(os_cache_dir("macos", &bare), Err(SettingsError::HomeUndefined));
    assert_eq!(os_cache_dir("windows", &bare), Err(SettingsError::LocalAppDataUndefined));
    assert_eq!(resolve_settings(&bare, &FileSettings::default(), None, "linux"), Err(SettingsError::NoCacheBase));
}
