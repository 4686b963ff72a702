use dir_spec::{
    bin_home, cache_home, config_home, data_home, desktop, documents, downloads, music, pictures,
    publicshare, runtime, state_home, templates, videos, Env, Platform,
};

fn unix_home() -> Env {
    let mut e = Env::empty();
    e.home = Some("/home/u".to_string());
    e
}

fn windows_profile() -> Env {
    let mut e = Env::empty();
    e.userprofile = Some("C:\\Users\\u".to_string());
    e.appdata = Some("C:\\Users\\u\\AppData\\Roaming".to_string());
    e.localappdata = Some("C:\\Users\\u\\AppData\\Local".to_string());
    e
}

#[test]
fn bin_home_uses_platform_default_when_xdg_unset() {
    let e = unix_home();
    assert_eq!(bin_home(&e, Platform::Linux), Some("/home/u/.local/bin".to_string()));
    assert_eq!(bin_home(&e, Platform::MacOs), Some("/home/u/.local/bin".to_string()));
    let w = windows_profile();
    assert_eq!(
        bin_home(&w, Platform::Windows),
        Some("C:\\Users\\u\\AppData\\Local\\Programs".to_string())
    );
}

#[test]
fn cache_home_uses_platform_default_when_xdg_unset() {
    let e = unix_home();
    assert_eq!(cache_home(&e, Platform::Linux), Some("/home/u/.cache".to_string()));
    assert_eq!(cache_home(&e, Platform::MacOs), Some("/home/u/Library/Caches".to_string()));
    let w = windows_profile();
    assert_eq!(
        cache_home(&w, Platform::Windows),
        Some("C:\\Users\\u\\AppData\\Local".to_string())
    );
}

#[test]
fn config_home_uses_platform_default_when_xdg_unset() {
    let e = unix_home();
    assert_eq!(config_home(&e, Platform::Linux), Some("/home/u/.config".to_string()));
    assert_eq!(
        config_home(&e, Platform::MacOs),
        Some("/home/u/Library/Application Support".to_string())
    );
    let w = windows_profile();
    assert_eq!(
        config_home(&w, Platform::Windows),
        Some("C:\\Users\\u\\AppData\\Roaming".to_string())
    );
}

#[test]
fn data_home_uses_platform_default_when_xdg_unset() {
    let e = unix_home();
    assert_eq!(data_home(&e, Platform::Linux), Some("/home/u/.local/share".to_string()));
    assert_eq!(
        data_home(&e, Platform::MacOs),
        Some("/home/u/Library/Application Support".to_string())
    );
    let w = windows_profile();
    assert_eq!(
        data_home(&w, Platform::Windows),
        Some("C:\\Users\\u\\AppData\\Roaming".to_string())
    );
}

#[test]
fn state_home_uses_platform_default_when_xdg_unset() {
    let e = unix_home();
    assert_eq!(state_home(&e, Platform::Linux), Some("/home/u/.local/state".to_string()));
    assert_eq!(
        state_home(&e, Platform::MacOs),
        Some("/home/u/Library/Application Support".to_string())
    );
    let w = windows_profile();
    assert_eq!(
        state_home(&w, Platform::Windows),
        Some("C:\\Users\\u\\AppData\\Local".to_string())
    );
}

#[test]
fn desktop_uses_platform_default_when_xdg_unset() {
    let e = unix_home();
    assert_eq!(desktop(&e, Platform::Linux), Some("/home/u/Desktop".to_string()));
    assert_eq!(desktop(&e, Platform::MacOs), Some("/home/u/Desktop".to_string()));
    let w = windows_profile();
    assert_eq!(desktop(&w, Platform::Windows), Some("C:\\Users\\u\\Desktop".to_string()));
}

#[test]
fn documents_uses_platform_default_when_xdg_unset() {
    let e = unix_home();
    assert_eq!(documents(&e, Platform::Linux), Some("/home/u/Documents".to_string()));
    assert_eq!(documents(&e, Platform::MacOs), Some("/home/u/Documents".to_string()));
    let w = windows_profile();
    assert_eq!(documents(&w, Platform::Windows), Some("C:\\Users\\u\\Documents".to_string()));
}

#[test]
fn downloads_uses_platform_default_when_xdg_unset() {
    let e = unix_home();
    assert_eq!(downloads(&e, Platform::Linux), Some("/home/u/Downloads".to_string()));
    assert_eq!(downloads(&e, Platform::MacOs), Some("/home/u/Downloads".to_string()));
    let w = windows_profile();
    assert_eq!(downloads(&w, Platform::Windows), Some("C:\\Users\\u\\Downloads".to_string()));
}

#[test]
fn music_uses_platform_default_when_xdg_unset() {
    let e = unix_home();
    assert_eq!(music(&e, Platform::Linux), Some("/home/u/Music".to_string()));
    assert_eq!(music(&e, Platform::MacOs), Some("/home/u/Music".to_string()));
    let w = windows_profile();
    assert_eq!(music(&w, Platform::Windows), Some("C:\\Users\\u\\Music".to_string()));
}

#[test]
fn pictures_uses_platform_default_when_xdg_unset() {
    let e = unix_home();
    assert_eq!(pictures(&e, Platform::Linux), Some("/home/u/Pictures".to_string()));
    assert_eq!(pictures(&e, Platform::MacOs), Some("/home/u/Pictures".to_string()));
    let w = windows_profile();
    assert_eq!(pictures(&w, Platform::Windows), Some("C:\\Users\\u\\Pictures".to_string()));
}

#[test]
fn templates_uses_platform_default_when_xdg_unset() {
    let e = unix_home();
    assert_eq!(templates(&e, Platform::Linux), Some("/home/u/Templates".to_string()));
    assert_eq!(templates(&e, Platform::MacOs), Some("/home/u/Templates".to_string()));
    let w = windows_profile();
    assert_eq!(templates(&w, Platform::Windows), Some("C:\\Users\\u\\Templates".to_string()));
}

#[test]
fn videos_uses_platform_default_when_xdg_unset() {
    let e = unix_home();
    assert_eq!(videos(&e, Platform::Linux), Some("/home/u/Videos".to_string()));
    assert_eq!(videos(&e, Platform::MacOs), Some("/home/u/Movies".to_string()));
    let w = windows_profile();
    assert_eq!(videos(&w, Platform::Windows), Some("C:\\Users\\u\\Videos".to_string()));
}

#[test]
fn publicshare_uses_platform_default_when_xdg_unset() {
    let e = unix_home();
    assert_eq!(publicshare(&e, Platform::Linux), Some("/home/u/Public".to_string()));
    assert_eq!(publicshare(&e, Platform::MacOs), Some("/home/u/Public".to_string()));
    let w = windows_profile();
    assert_eq!(publicshare(&w, Platform::Windows), Some("C:\\Users\\Public".to_string()));
}

#[test]
fn uses_system_public_on_windows() {
    let mut w = windows_profile();
    w.temp = Some("C:\\Users\\u\\AppData\\Local\\Temp".to_string());
    w.homedrive = Some("C:".to_string());
    w.homepath = Some("\\Users\\u".to_string());
    assert_eq!(publicshare(&w, Platform::Windows), Some("C:\\Users\\Public".to_string()));
}

#[test]
fn runtime_uses_platform_default_when_xdg_unset() {
    let mut e = unix_home();
    e.tmpdir = Some("/var/folders/zz/t".to_string());
    assert_eq!(runtime(&e, Platform::Linux), Some("/var/folders/zz/t".to_string()));
    assert_eq!(runtime(&e, Platform::MacOs), Some("/var/folders/zz/t".to_string()));
    let mut w = windows_profile();
    w.temp = Some("C:\\Users\\u\\AppData\\Local\\Temp".to_string());
    assert_eq!(
        runtime(&w, Platform::Windows),
        Some("C:\\Users\\u\\AppData\\Local\\Temp".to_string())
    );
}

#[test]
fn falls_back_to_tmp_on_unix() {
    let e = unix_home();
    assert_eq!(runtime(&e, Platform::Linux), Some("/tmp".to_string()));
    assert_eq!(runtime(&e, Platform::MacOs), Some("/tmp".to_string()));
}

#[test]
fn runtime_absent_on_windows_without_temp() {
    let mut w = Env::empty();
    w.userprofile = Some("C:\\Users\\u".to_string());
    assert_eq!(runtime(&w, Platform::Windows), None);
}

#[test]
fn home_relative_defaults_absent_without_home() {
    let e = Env::empty();
    assert_eq!(config_home(&e, Platform::Linux), None);
    assert_eq!(data_home(&e, Platform::MacOs), None);
    assert_eq!(desktop(&e, Platform::Linux), None);
    assert_eq!(bin_home(&Env::empty(), Platform::Windows), None);
}

#[test]
fn join_keeps_a_trailing_separator() {
    let mut e = Env::empty();
    e.home = Some("/home/u/".to_string());
    assert_eq!(desktop(&e, Platform::Linux), Some("/home/u/Desktop".to_string()));
    let mut w = Env::empty();
    w.userprofile = Some("C:\\Users\\u\\".to_string());
    assert_eq!(desktop(&w, Platform::Windows), Some("C:\\Users\\u\\Desktop".to_string()));
}
