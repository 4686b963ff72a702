use vstd::prelude::*;

verus! {

use crate::env::{Env, Platform, opt_seq};
use crate::kind::{DirectoryKind, spec_resolve};
use crate::path;
use crate::xdg;

/// Resolves the binary directory on Linux: `XDG_BIN_HOME`, else
/// `home/.local/bin`.
pub fn bin_home(env: &Env) -> (r: Option<String>)
    ensures
        opt_seq(r) == spec_resolve(*env, Platform::Linux, DirectoryKind::BinHome),
{
    xdg::resolve_path_with_fallback(env, DirectoryKind::BinHome, Platform::Linux, ".local/bin")
}

/// Resolves the cache directory on Linux: `XDG_CACHE_HOME`, else
/// `home/.cache`.
pub fn cache_home(env: &Env) -> (r: Option<String>)
    ensures
        opt_seq(r) == spec_resolve(*env, Platform::Linux, DirectoryKind::CacheHome),
{
    xdg::resolve_path_with_fallback(env, DirectoryKind::CacheHome, Platform::Linux, ".cache")
}

/// Resolves the configuration directory on Linux: `XDG_CONFIG_HOME`, else
/// `home/.config`.
pub fn config_home(env: &Env) -> (r: Option<String>)
    ensures
        opt_seq(r) == spec_resolve(*env, Platform::Linux, DirectoryKind::ConfigHome),
{
    xdg::resolve_path_with_fallback(env, DirectoryKind::ConfigHome, Platform::Linux, ".config")
}

/// Resolves the local configuration directory on Linux, which is the
/// configuration directory itself.
pub fn config_local(env: &Env) -> (r: Option<String>)
    ensures
        opt_seq(r) == spec_resolve(*env, Platform::Linux, DirectoryKind::ConfigLocal),
{
    config_home(env)
}

/// Resolves the data directory on Linux: `XDG_DATA_HOME`, else
/// `home/.local/share`.
pub fn data_home(env: &Env) -> (r: Option<String>)
    ensures
        opt_seq(r) == spec_resolve(*env, Platform::Linux, DirectoryKind::DataHome),
{
    xdg::resolve_path_with_fallback(env, DirectoryKind::DataHome, Platform::Linux, ".local/share")
}

/// Resolves the local data directory on Linux, which is the data directory
/// itself.
pub fn data_local(env: &Env) -> (r: Option<String>)
    ensures
        opt_seq(r) == spec_resolve(*env, Platform::Linux, DirectoryKind::DataLocal),
{
    data_home(env)
}

/// Resolves the desktop directory on Linux: `XDG_DESKTOP_DIR`, else
/// `home/Desktop`.
pub fn desktop(env: &Env) -> (r: Option<String>)
    ensures
        opt_seq(r) == spec_resolve(*env, Platform::Linux, DirectoryKind::Desktop),
{
    xdg::resolve_path_with_fallback(env, DirectoryKind::Desktop, Platform::Linux, "Desktop")
}

/// Resolves the documents directory on Linux: `XDG_DOCUMENTS_DIR`, else
/// `home/Documents`.
pub fn documents(env: &Env) -> (r: Option<String>)
    ensures
        opt_seq(r) == spec_resolve(*env, Platform::Linux, DirectoryKind::Documents),
{
    xdg::resolve_path_with_fallback(env, DirectoryKind::Documents, Platform::Linux, "Documents")
}

/// Resolves the downloads directory on Linux: `XDG_DOWNLOAD_DIR`, else
/// `home/Downloads`.
pub fn downloads(env: &Env) -> (r: Option<String>)
    ensures
        opt_seq(r) == spec_resolve(*env, Platform::Linux, DirectoryKind::Downloads),
{
    xdg::resolve_path_with_fallback(env, DirectoryKind::Downloads, Platform::Linux, "Downloads")
}

/// Resolves the fonts directory on Linux: `home/.local/share/fonts`.  No
/// override variable is assigned to it.
pub fn fonts(env: &Env) -> (r: Option<String>)
    ensures
        opt_seq(r) == spec_resolve(*env, Platform::Linux, DirectoryKind::Fonts),
{
    match crate::home(env, Platform::Linux) {
        Some(h) => Some(path::join(h.as_str(), ".local/share/fonts", Platform::Linux)),
        None => None,
    }
}

/// Resolves the music directory on Linux: `XDG_MUSIC_DIR`, else
/// `home/Music`.
pub fn music(env: &Env) -> (r: Option<String>)
    ensures
        opt_seq(r) == spec_resolve(*env, Platform::Linux, DirectoryKind::Music),
{
    xdg::resolve_path_with_fallback(env, DirectoryKind::Music, Platform::Linux, "Music")
}

/// Resolves the pictures directory on Linux: `XDG_PICTURES_DIR`, else
/// `home/Pictures`.
pub fn pictures(env: &Env) -> (r: Option<String>)
    ensures
        opt_seq(r) == spec_resolve(*env, Platform::Linux, DirectoryKind::Pictures),
{
    xdg::resolve_path_with_fallback(env, DirectoryKind::Pictures, Platform::Linux, "Pictures")
}

/// Resolves the preferences directory on Linux, which is the configuration
/// directory itself.
pub fn preferences(env: &Env) -> (r: Option<String>)
    ensures
        opt_seq(r) == spec_resolve(*env, Platform::Linux, DirectoryKind::Preferences),
{
    config_home(env)
}

/// Resolves the public-share directory on Linux: `XDG_PUBLICSHARE_DIR`,
/// else `home/Public`.
pub fn publicshare(env: &Env) -> (r: Option<String>)
    ensures
        opt_seq(r) == spec_resolve(*env, Platform::Linux, DirectoryKind::Publicshare),
{
    xdg::resolve_path_with_fallback(env, DirectoryKind::Publicshare, Platform::Linux, "Public")
}

/// Resolves the runtime directory on Linux: `XDG_RUNTIME_DIR`, else
/// `TMPDIR`, else `/tmp`.
pub fn runtime(env: &Env) -> (r: Option<String>)
    ensures
        opt_seq(r) == spec_resolve(*env, Platform::Linux, DirectoryKind::Runtime),
{
    match xdg::resolve_path(env, DirectoryKind::Runtime, Platform::Linux) {
        Some(p) => Some(p),
        None => match &env.tmpdir {
            Some(t) => Some(t.clone()),
            None => Some("/tmp".to_owned()),
        },
    }
}

/// Resolves the state directory on Linux: `XDG_STATE_HOME`, else
/// `home/.local/state`.
pub fn state_home(env: &Env) -> (r: Option<String>)
    ensures
        opt_seq(r) == spec_resolve(*env, Platform::Linux, DirectoryKind::StateHome),
{
    xdg::resolve_path_with_fallback(env, DirectoryKind::StateHome, Platform::Linux, ".local/state")
}

/// Resolves the templates directory on Linux: `XDG_TEMPLATES_DIR`, else
/// `home/Templates`.
pub fn templates(env: &Env) -> (r: Option<String>)
    ensures
        opt_seq(r) == spec_resolve(*env, Platform::Linux, DirectoryKind::Templates),
{
    xdg::resolve_path_with_fallback(env, DirectoryKind::Templates, Platform::Linux, "Templates")
}

/// Resolves the videos directory on Linux: `XDG_VIDEOS_DIR`, else
/// `home/Videos`.
pub fn videos(env: &Env) -> (r: Option<String>)
    ensures
        opt_seq(r) == spec_resolve(*env, Platform::Linux, DirectoryKind::Videos),
{
    xdg::resolve_path_with_fallback(env, DirectoryKind::Videos, Platform::Linux, "Videos")
}

} // verus!
