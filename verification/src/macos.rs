use vstd::prelude::*;

verus! {

use crate::env::{Env, Platform, opt_seq};
use crate::kind::{DirectoryKind, spec_resolve};
use crate::path;
use crate::xdg;

/// Resolves the binary directory on macOS: `XDG_BIN_HOME`, else
/// `home/.local/bin`.
pub fn bin_home(env: &Env) -> (r: Option<String>)
    ensures
        opt_seq(r) == spec_resolve(*env, Platform::MacOs, DirectoryKind::BinHome),
{
    xdg::resolve_path_with_fallback(env, DirectoryKind::BinHome, Platform::MacOs, ".local/bin")
}

/// Resolves the cache directory on macOS: `XDG_CACHE_HOME`, else
/// `home/Library/Caches`.
pub fn cache_home(env: &Env) -> (r: Option<String>)
    ensures
        opt_seq(r) == spec_resolve(*env, Platform::MacOs, DirectoryKind::CacheHome),
{
    xdg::resolve_path_with_fallback(env, DirectoryKind::CacheHome, Platform::MacOs, "Library/Caches")
}

/// Resolves the configuration directory on macOS: `XDG_CONFIG_HOME`, else
/// `home/Library/Application Support`.
pub fn config_home(env: &Env) -> (r: Option<String>)
    ensures
        opt_seq(r) == spec_resolve(*env, Platform::MacOs, DirectoryKind::ConfigHome),
{
    xdg::resolve_path_with_fallback(
        env,
        DirectoryKind::ConfigHome,
        Platform::MacOs,
        "Library/Application Support",
    )
}

/// Resolves the local configuration directory on macOS, which is the
/// configuration directory itself.
pub fn config_local(env: &Env) -> (r: Option<String>)
    ensures
        opt_seq(r) == spec_resolve(*env, Platform::MacOs, DirectoryKind::ConfigLocal),
{
    config_home(env)
}

/// Resolves the data directory on macOS: `XDG_DATA_HOME`, else
/// `home/Library/Application Support`.
pub fn data_home(env: &Env) -> (r: Option<String>)
    ensures
        opt_seq(r) == spec_resolve(*env, Platform::MacOs, DirectoryKind::DataHome),
{
    xdg::resolve_path_with_fallback(
        env,
        DirectoryKind::DataHome,
        Platform::MacOs,
        "Library/Application Support",
    )
}

/// Resolves the local data directory on macOS, which is the data directory
/// itself.
pub fn data_local(env: &Env) -> (r: Option<String>)
    ensures
        opt_seq(r) == spec_resolve(*env, Platform::MacOs, DirectoryKind::DataLocal),
{
    data_home(env)
}

/// Resolves the desktop directory on macOS: `XDG_DESKTOP_DIR`, else
/// `home/Desktop`.
pub fn desktop(env: &Env) -> (r: Option<String>)
    ensures
        opt_seq(r) == spec_resolve(*env, Platform::MacOs, DirectoryKind::Desktop),
{
    xdg::resolve_path_with_fallback(env, DirectoryKind::Desktop, Platform::MacOs, "Desktop")
}

/// Resolves the documents directory on macOS: `XDG_DOCUMENTS_DIR`, else
/// `home/Documents`.
pub fn documents(env: &Env) -> (r: Option<String>)
    ensures
        opt_seq(r) == spec_resolve(*env, Platform::MacOs, DirectoryKind::Documents),
{
    xdg::resolve_path_with_fallback(env, DirectoryKind::Documents, Platform::MacOs, "Documents")
}

/// Resolves the downloads directory on macOS: `XDG_DOWNLOAD_DIR`, else
/// `home/Downloads`.
pub fn downloads(env: &Env) -> (r: Option<String>)
    ensures
        opt_seq(r) == spec_resolve(*env, Platform::MacOs, DirectoryKind::Downloads),
{
    xdg::resolve_path_with_fallback(env, DirectoryKind::Downloads, Platform::MacOs, "Downloads")
}

/// Resolves the fonts directory on macOS: `home/Library/Fonts`.  No
/// override variable is assigned to it.
pub fn fonts(env: &Env) -> (r: Option<String>)
    ensures
        opt_seq(r) == spec_resolve(*env, Platform::MacOs, DirectoryKind::Fonts),
{
    match crate::home(env, Platform::MacOs) {
        Some(h) => Some(path::join(h.as_str(), "Library/Fonts", Platform::MacOs)),
        None => None,
    }
}

/// Resolves the music directory on macOS: `XDG_MUSIC_DIR`, else
/// `home/Music`.
pub fn music(env: &Env) -> (r: Option<String>)
    ensures
        opt_seq(r) == spec_resolve(*env, Platform::MacOs, DirectoryKind::Music),
{
    xdg::resolve_path_with_fallback(env, DirectoryKind::Music, Platform::MacOs, "Music")
}

/// Resolves the pictures directory on macOS: `XDG_PICTURES_DIR`, else
/// `home/Pictures`.
pub fn pictures(env: &Env) -> (r: Option<String>)
    ensures
        opt_seq(r) == spec_resolve(*env, Platform::MacOs, DirectoryKind::Pictures),
{
    xdg::resolve_path_with_fallback(env, DirectoryKind::Pictures, Platform::MacOs, "Pictures")
}

/// Resolves the preferences directory on macOS: `home/Library/Preferences`.
/// No override variable is assigned to it.
pub fn preferences(env: &Env) -> (r: Option<String>)
    ensures
        opt_seq(r) == spec_resolve(*env, Platform::MacOs, DirectoryKind::Preferences),
{
    match crate::home(env, Platform::MacOs) {
        Some(h) => Some(path::join(h.as_str(), "Library/Preferences", Platform::MacOs)),
        None => None,
    }
}

/// Resolves the public-share directory on macOS: `XDG_PUBLICSHARE_DIR`,
/// else `home/Public`.
pub fn publicshare(env: &Env) -> (r: Option<String>)
    ensures
        opt_seq(r) == spec_resolve(*env, Platform::MacOs, DirectoryKind::Publicshare),
{
    xdg::resolve_path_with_fallback(env, DirectoryKind::Publicshare, Platform::MacOs, "Public")
}

/// Resolves the runtime directory on macOS: `XDG_RUNTIME_DIR`, else
/// `TMPDIR`, else `/tmp`.
pub fn runtime(env: &Env) -> (r: Option<String>)
    ensures
        opt_seq(r) == spec_resolve(*env, Platform::MacOs, DirectoryKind::Runtime),
{
    match xdg::resolve_path(env, DirectoryKind::Runtime, Platform::MacOs) {
        Some(p) => Some(p),
        None => match &env.tmpdir {
            Some(t) => Some(t.clone()),
            None => Some("/tmp".to_owned()),
        },
    }
}

/// Resolves the state directory on macOS: `XDG_STATE_HOME`, else
/// `home/Library/Application Support`.
pub fn state_home(env: &Env) -> (r: Option<String>)
    ensures
        opt_seq(r) == spec_resolve(*env, Platform::MacOs, DirectoryKind::StateHome),
{
    xdg::resolve_path_with_fallback(
        env,
        DirectoryKind::StateHome,
        Platform::MacOs,
        "Library/Application Support",
    )
}

/// Resolves the templates directory on macOS: `XDG_TEMPLATES_DIR`, else
/// `home/Templates`.
pub fn templates(env: &Env) -> (r: Option<String>)
    ensures
        opt_seq(r) == spec_resolve(*env, Platform::MacOs, DirectoryKind::Templates),
{
    xdg::resolve_path_with_fallback(env, DirectoryKind::Templates, Platform::MacOs, "Templates")
}

/// Resolves the videos directory on macOS: `XDG_VIDEOS_DIR`, else
/// `home/Movies`, the platform's convention.
pub fn videos(env: &Env) -> (r: Option<String>)
    ensures
        opt_seq(r) == spec_resolve(*env, Platform::MacOs, DirectoryKind::Videos),
{
    xdg::resolve_path_with_fallback(env, DirectoryKind::Videos, Platform::MacOs, "Movies")
}

} // verus!
