use vstd::prelude::*;

verus! {

use crate::env::{Env, Platform, opt_seq, spec_home};
use crate::path::{spec_absolute, spec_join};

/// One logical directory the library resolves.
#[derive(Clone, Copy, Debug, PartialEq, Eq, Structural)]
pub enum DirectoryKind {
    Home,
    BinHome,
    CacheHome,
    ConfigHome,
    ConfigLocal,
    DataHome,
    DataLocal,
    StateHome,
    Runtime,
    Desktop,
    Documents,
    Downloads,
    Music,
    Pictures,
    Videos,
    Templates,
    Publicshare,
    Fonts,
    Preferences,
}

/// The value of the override variable assigned to `kind`: `None` when the
/// kind has no assigned variable, or the variable is unset.
///
/// The assignment is the fixed table of `XDG_*` variables; the home, local
/// and fonts kinds and the preferences kind have none of their own.
pub open spec fn override_value(env: Env, kind: DirectoryKind) -> Option<Seq<char>> {
    match kind {
        DirectoryKind::BinHome => opt_seq(env.xdg_bin_home),
        DirectoryKind::CacheHome => opt_seq(env.xdg_cache_home),
        DirectoryKind::ConfigHome => opt_seq(env.xdg_config_home),
        DirectoryKind::DataHome => opt_seq(env.xdg_data_home),
        DirectoryKind::StateHome => opt_seq(env.xdg_state_home),
        DirectoryKind::Runtime => opt_seq(env.xdg_runtime_dir),
        DirectoryKind::Desktop => opt_seq(env.xdg_desktop_dir),
        DirectoryKind::Documents => opt_seq(env.xdg_documents_dir),
        DirectoryKind::Downloads => opt_seq(env.xdg_download_dir),
        DirectoryKind::Music => opt_seq(env.xdg_music_dir),
        DirectoryKind::Pictures => opt_seq(env.xdg_pictures_dir),
        DirectoryKind::Videos => opt_seq(env.xdg_videos_dir),
        DirectoryKind::Templates => opt_seq(env.xdg_templates_dir),
        DirectoryKind::Publicshare => opt_seq(env.xdg_publicshare_dir),
        DirectoryKind::Home => None,
        DirectoryKind::ConfigLocal => None,
        DirectoryKind::DataLocal => None,
        DirectoryKind::Fonts => None,
        DirectoryKind::Preferences => None,
    }
}

/// What the override contributes: its value when that value is an absolute
/// path, and nothing otherwise — a relative value is discarded whole.
pub open spec fn override_result(env: Env, platform: Platform, kind: DirectoryKind) -> Option<
    Seq<char>,
> {
    match override_value(env, kind) {
        Some(s) => if spec_absolute(platform, s) {
            Some(s)
        } else {
            None
        },
        None => None,
    }
}

/// The home directory with `sub` joined on, when home resolves.
pub open spec fn home_join(env: Env, platform: Platform, sub: Seq<char>) -> Option<Seq<char>> {
    match spec_home(env, platform) {
        Some(h) => Some(spec_join(platform, h, sub)),
        None => None,
    }
}

/// A native variable's value with `sub` joined on, when the variable is set.
pub open spec fn var_join(v: Option<String>, platform: Platform, sub: Seq<char>) -> Option<
    Seq<char>,
> {
    match v {
        Some(b) => Some(spec_join(platform, b@, sub)),
        None => None,
    }
}

/// The conventional configuration directory, before any override.
pub open spec fn config_home_default(env: Env, platform: Platform) -> Option<Seq<char>> {
    match platform {
        Platform::Linux => home_join(env, platform, ".config"@),
        Platform::MacOs => home_join(env, platform, "Library/Application Support"@),
        Platform::Windows => opt_seq(env.appdata),
    }
}

/// The configuration directory with its override applied.
pub open spec fn resolve_config_home(env: Env, platform: Platform) -> Option<Seq<char>> {
    match override_result(env, platform, DirectoryKind::ConfigHome) {
        Some(s) => Some(s),
        None => config_home_default(env, platform),
    }
}

/// The conventional data directory, before any override.
pub open spec fn data_home_default(env: Env, platform: Platform) -> Option<Seq<char>> {
    match platform {
        Platform::Linux => home_join(env, platform, ".local/share"@),
        Platform::MacOs => home_join(env, platform, "Library/Application Support"@),
        Platform::Windows => opt_seq(env.appdata),
    }
}

/// The data directory with its override applied.
pub open spec fn resolve_data_home(env: Env, platform: Platform) -> Option<Seq<char>> {
    match override_result(env, platform, DirectoryKind::DataHome) {
        Some(s) => Some(s),
        None => data_home_default(env, platform),
    }
}

/// The per-user directories that sit directly under the profile: under home
/// on Unix platforms, under `USERPROFILE` on Windows.
pub open spec fn user_dir_default(env: Env, platform: Platform, name: Seq<char>) -> Option<
    Seq<char>,
> {
    match platform {
        Platform::Windows => var_join(env.userprofile, platform, name),
        _ => home_join(env, platform, name),
    }
}

/// The platform-conventional fallback for `kind`: the rule table.
pub open spec fn spec_default(env: Env, platform: Platform, kind: DirectoryKind) -> Option<
    Seq<char>,
> {
    match kind {
        DirectoryKind::Home => spec_home(env, platform),
        DirectoryKind::BinHome => match platform {
            Platform::Windows => var_join(env.localappdata, platform, "Programs"@),
            _ => home_join(env, platform, ".local/bin"@),
        },
        DirectoryKind::CacheHome => match platform {
            Platform::Linux => home_join(env, platform, ".cache"@),
            Platform::MacOs => home_join(env, platform, "Library/Caches"@),
            Platform::Windows => opt_seq(env.localappdata),
        },
        DirectoryKind::ConfigHome => config_home_default(env, platform),
        DirectoryKind::ConfigLocal => match platform {
            Platform::Windows => opt_seq(env.localappdata),
            _ => resolve_config_home(env, platform),
        },
        DirectoryKind::DataHome => data_home_default(env, platform),
        DirectoryKind::DataLocal => match platform {
            Platform::Windows => opt_seq(env.localappdata),
            _ => resolve_data_home(env, platform),
        },
        DirectoryKind::StateHome => match platform {
            Platform::Linux => home_join(env, platform, ".local/state"@),
            Platform::MacOs => home_join(env, platform, "Library/Application Support"@),
            Platform::Windows => opt_seq(env.localappdata),
        },
        DirectoryKind::Runtime => match platform {
            Platform::Windows => opt_seq(env.temp),
            _ => match env.tmpdir {
                Some(t) => Some(t@),
                None => Some("/tmp"@),
            },
        },
        DirectoryKind::Desktop => user_dir_default(env, platform, "Desktop"@),
        DirectoryKind::Documents => user_dir_default(env, platform, "Documents"@),
        DirectoryKind::Downloads => user_dir_default(env, platform, "Downloads"@),
        DirectoryKind::Music => user_dir_default(env, platform, "Music"@),
        DirectoryKind::Pictures => user_dir_default(env, platform, "Pictures"@),
        DirectoryKind::Videos => match platform {
            Platform::Linux => home_join(env, platform, "Videos"@),
            Platform::MacOs => home_join(env, platform, "Movies"@),
            Platform::Windows => var_join(env.userprofile, platform, "Videos"@),
        },
        DirectoryKind::Templates => user_dir_default(env, platform, "Templates"@),
        DirectoryKind::Publicshare => match platform {
            Platform::Windows => Some("C:\\Users\\Public"@),
            _ => home_join(env, platform, "Public"@),
        },
        DirectoryKind::Fonts => match platform {
            Platform::Linux => home_join(env, platform, ".local/share/fonts"@),
            Platform::MacOs => home_join(env, platform, "Library/Fonts"@),
            Platform::Windows => None,
        },
        DirectoryKind::Preferences => match platform {
            Platform::MacOs => home_join(env, platform, "Library/Preferences"@),
            _ => resolve_config_home(env, platform),
        },
    }
}

/// What resolving `kind` on `platform` yields: an absolute override value
/// short-circuits, and the platform default is never consulted; otherwise
/// the default stands, present or absent.
pub open spec fn spec_resolve(env: Env, platform: Platform, kind: DirectoryKind) -> Option<
    Seq<char>,
> {
    match override_result(env, platform, kind) {
        Some(s) => Some(s),
        None => spec_default(env, platform, kind),
    }
}

} // verus!
