use dir_spec::{
    config_home, config_local, data_home, data_local, fonts, preferences, Env, Platform,
};

fn unix_home() -> Env {
    let mut e = Env::empty();
    e.home = Some("/home/u".to_string());
    e
}

#[test]
fn matches_config_home_on_non_windows() {
    let plain = unix_home();
    let mut overridden = unix_home();
    overridden.xdg_config_home = Some("/test/config".to_string());
    for e in [Env::empty(), plain, overridden] {
        assert_eq!(config_local(&e, Platform::Linux), config_home(&e, Platform::Linux));
        assert_eq!(config_local(&e, Platform::MacOs), config_home(&e, Platform::MacOs));
    }
}

#[test]
fn matches_data_home_on_non_windows() {
    let plain = unix_home();
    let mut overridden = unix_home();
    overridden.xdg_data_home = Some("/test/data".to_string());
    for e in [Env::empty(), plain, overridden] {
        assert_eq!(data_local(&e, Platform::Linux), data_home(&e, Platform::Linux));
        assert_eq!(data_local(&e, Platform::MacOs), data_home(&e, Platform::MacOs));
    }
}

#[test]
fn config_local_uses_localappdata_on_windows() {
    let mut w = Env::empty();
    w.localappdata = Some("C:\\Users\\u\\AppData\\Local".to_string());
    w.xdg_config_home = Some("C:\\test\\config".to_string());
    assert_eq!(
        config_local(&w, Platform::Windows),
        Some("C:\\Users\\u\\AppData\\Local".to_string())
    );
    assert_eq!(config_local(&Env::empty(), Platform::Windows), None);
}

#[test]
fn data_local_uses_localappdata_on_windows() {
    let mut w = Env::empty();
    w.localappdata = Some("C:\\Users\\u\\AppData\\Local".to_string());
    w.xdg_data_home = Some("C:\\test\\data".to_string());
    assert_eq!(
        data_local(&w, Platform::Windows),
        Some("C:\\Users\\u\\AppData\\Local".to_string())
    );
    assert_eq!(data_local(&Env::empty(), Platform::Windows), None);
}

#[test]
fn returns_platform_specific_path() {
    let e = unix_home();
    assert_eq!(fonts(&e, Platform::Linux), Some("/home/u/.local/share/fonts".to_string()));
    assert_eq!(fonts(&e, Platform::MacOs), Some("/home/u/Library/Fonts".to_string()));
    let mut w = Env::empty();
    w.userprofile = Some("C:\\Users\\u".to_string());
    w.localappdata = Some("C:\\Users\\u\\AppData\\Local".to_string());
    assert_eq!(fonts(&w, Platform::Windows), None);
}

#[test]
fn returns_none_on_windows() {
    let mut w = Env::empty();
    w.userprofile = Some("C:\\Users\\u".to_string());
    assert_eq!(fonts(&w, Platform::Windows), None);
}

#[test]
fn returns_some_on_unix() {
    let e = unix_home();
    assert!(fonts(&e, Platform::Linux).is_some());
    assert!(fonts(&e, Platform::MacOs).is_some());
}

#[test]
fn lib_returns_platform_specific_path() {
    let e = unix_home();
    assert_eq!(preferences(&e, Platform::MacOs), Some("/home/u/Library/Preferences".to_string()));
    assert_eq!(preferences(&e, Platform::Linux), config_home(&e, Platform::Linux));
    let mut w = Env::empty();
    w.appdata = Some("C:\\Users\\u\\AppData\\Roaming".to_string());
    assert_eq!(preferences(&w, Platform::Windows), config_home(&w, Platform::Windows));
}

#[test]
fn matches_config_home_on_non_macos() {
    let plain = unix_home();
    let mut overridden = unix_home();
    overridden.xdg_config_home = Some("/test/config".to_string());
    for e in [Env::empty(), plain, overridden] {
        assert_eq!(preferences(&e, Platform::Linux), config_home(&e, Platform::Linux));
        assert_eq!(preferences(&e, Platform::Windows), config_home(&e, Platform::Windows));
    }
}

#[test]
fn uses_library_preferences_on_macos() {
    let e = unix_home();
    assert_eq!(preferences(&e, Platform::MacOs), Some("/home/u/Library/Preferences".to_string()));
    let mut overridden = unix_home();
    overridden.xdg_config_home = Some("/test/config".to_string());
    assert_eq!(
        preferences(&overridden, Platform::MacOs),
        Some("/home/u/Library/Preferences".to_string())
    );
}
