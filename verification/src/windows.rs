use vstd::prelude::*;

verus! {

use crate::env::{Env, Platform, opt_seq};
use crate::kind::{DirectoryKind, override_result, spec_resolve, var_join};
use crate::path;
use crate::xdg;

/// Resolves the binary directory on Windows: `XDG_BIN_HOME`, else
/// `LOCALAPPDATA` with `Programs` joined on.
pub fn bin_home(env: &Env) -> (r: Option<String>)
    ensures
        opt_seq(r) == spec_resolve(*env, Platform::Windows, DirectoryKind::BinHome),
{
    resolve_xdg_path_with_fallback_and_sub_dir(env, DirectoryKind::BinHome, &env.localappdata, "Programs")
}

/// Resolves the cache directory on Windows: `XDG_CACHE_HOME`, else
/// `LOCALAPPDATA` unmodified.
pub fn cache_home(env: &Env) -> (r: Option<String>)
    ensures
        opt_seq(r) == spec_resolve(*env, Platform::Windows, DirectoryKind::CacheHome),
{
    resolve_xdg_path_with_fallback(env, DirectoryKind::CacheHome, &env.localappdata)
}

/// Resolves the configuration directory on Windows: `XDG_CONFIG_HOME`,
/// else `APPDATA` unmodified.
pub fn config_home(env: &Env) -> (r: Option<String>)
    ensures
        opt_seq(r) == spec_resolve(*env, Platform::Windows, DirectoryKind::ConfigHome),
{
    resolve_xdg_path_with_fallback(env, DirectoryKind::ConfigHome, &env.appdata)
}

/// Resolves the local (non-roaming) configuration directory on Windows:
/// `LOCALAPPDATA` unmodified.  No override variable is assigned to it.
pub fn config_local(env: &Env) -> (r: Option<String>)
    ensures
        opt_seq(r) == spec_resolve(*env, Platform::Windows, DirectoryKind::ConfigLocal),
{
    resolve_path(&env.localappdata)
}

/// Resolves the data directory on Windows: `XDG_DATA_HOME`, else `APPDATA`
/// unmodified.
pub fn data_home(env: &Env) -> (r: Option<String>)
    ensures
        opt_seq(r) == spec_resolve(*env, Platform::Windows, DirectoryKind::DataHome),
{
    resolve_xdg_path_with_fallback(env, DirectoryKind::DataHome, &env.appdata)
}

/// Resolves the local (non-roaming) data directory on Windows:
/// `LOCALAPPDATA` unmodified.  No override variable is assigned to it.
pub fn data_local(env: &Env) -> (r: Option<String>)
    ensures
        opt_seq(r) == spec_resolve(*env, Platform::Windows, DirectoryKind::DataLocal),
{
    resolve_path(&env.localappdata)
}

/// Resolves the desktop directory on Windows: `XDG_DESKTOP_DIR`, else
/// `USERPROFILE` with `Desktop` joined on.
pub fn desktop(env: &Env) -> (r: Option<String>)
    ensures
        opt_seq(r) == spec_resolve(*env, Platform::Windows, DirectoryKind::Desktop),
{
    resolve_xdg_path_with_fallback_and_sub_dir(env, DirectoryKind::Desktop, &env.userprofile, "Desktop")
}

/// Resolves the documents directory on Windows: `XDG_DOCUMENTS_DIR`, else
/// `USERPROFILE` with `Documents` joined on.
pub fn documents(env: &Env) -> (r: Option<String>)
    ensures
        opt_seq(r) == spec_resolve(*env, Platform::Windows, DirectoryKind::Documents),
{
    resolve_xdg_path_with_fallback_and_sub_dir(env, DirectoryKind::Documents, &env.userprofile, "Documents")
}

/// Resolves the downloads directory on Windows: `XDG_DOWNLOAD_DIR`, else
/// `USERPROFILE` with `Downloads` joined on.
pub fn downloads(env: &Env) -> (r: Option<String>)
    ensures
        opt_seq(r) == spec_resolve(*env, Platform::Windows, DirectoryKind::Downloads),
{
    resolve_xdg_path_with_fallback_and_sub_dir(env, DirectoryKind::Downloads, &env.userprofile, "Downloads")
}

/// Resolves the fonts directory on Windows: absent, as the platform has no
/// per-user convention.
pub fn fonts(env: &Env) -> (r: Option<String>)
    ensures
        opt_seq(r) == spec_resolve(*env, Platform::Windows, DirectoryKind::Fonts),
{
    None
}

/// Resolves the music directory on Windows: `XDG_MUSIC_DIR`, else
/// `USERPROFILE` with `Music` joined on.
pub fn music(env: &Env) -> (r: Option<String>)
    ensures
        opt_seq(r) == spec_resolve(*env, Platform::Windows, DirectoryKind::Music),
{
    resolve_xdg_path_with_fallback_and_sub_dir(env, DirectoryKind::Music, &env.userprofile, "Music")
}

/// Resolves the pictures directory on Windows: `XDG_PICTURES_DIR`, else
/// `USERPROFILE` with `Pictures` joined on.
pub fn pictures(env: &Env) -> (r: Option<String>)
    ensures
        opt_seq(r) == spec_resolve(*env, Platform::Windows, DirectoryKind::Pictures),
{
    resolve_xdg_path_with_fallback_and_sub_dir(env, DirectoryKind::Pictures, &env.userprofile, "Pictures")
}

/// Resolves the preferences directory on Windows, which is the
/// configuration directory itself.
pub fn preferences(env: &Env) -> (r: Option<String>)
    ensures
        opt_seq(r) == spec_resolve(*env, Platform::Windows, DirectoryKind::Preferences),
{
    config_home(env)
}

/// Resolves the public-share directory on Windows: `XDG_PUBLICSHARE_DIR`,
/// else the system-wide `C:\Users\Public`.
pub fn publicshare(env: &Env) -> (r: Option<String>)
    ensures
        opt_seq(r) == spec_resolve(*env, Platform::Windows, DirectoryKind::Publicshare),
{
    match xdg::resolve_path(env, DirectoryKind::Publicshare, Platform::Windows) {
        Some(p) => Some(p),
        None => Some("C:\\Users\\Public".to_owned()),
    }
}

/// Resolves the runtime directory on Windows: `XDG_RUNTIME_DIR`, else
/// `TEMP` unmodified.
pub fn runtime(env: &Env) -> (r: Option<String>)
    ensures
        opt_seq(r) == spec_resolve(*env, Platform::Windows, DirectoryKind::Runtime),
{
    resolve_xdg_path_with_fallback(env, DirectoryKind::Runtime, &env.temp)
}

/// Resolves the state directory on Windows: `XDG_STATE_HOME`, else
/// `LOCALAPPDATA` unmodified.
pub fn state_home(env: &Env) -> (r: Option<String>)
    ensures
        opt_seq(r) == spec_resolve(*env, Platform::Windows, DirectoryKind::StateHome),
{
    resolve_xdg_path_with_fallback(env, DirectoryKind::StateHome, &env.localappdata)
}

/// Resolves the templates directory on Windows: `XDG_TEMPLATES_DIR`, else
/// `USERPROFILE` with `Templates` joined on.
pub fn templates(env: &Env) -> (r: Option<String>)
    ensures
        opt_seq(r) == spec_resolve(*env, Platform::Windows, DirectoryKind::Templates),
{
    resolve_xdg_path_with_fallback_and_sub_dir(env, DirectoryKind::Templates, &env.userprofile, "Templates")
}

/// Resolves the videos directory on Windows: `XDG_VIDEOS_DIR`, else
/// `USERPROFILE` with `Videos` joined on.
pub fn videos(env: &Env) -> (r: Option<String>)
    ensures
        opt_seq(r) == spec_resolve(*env, Platform::Windows, DirectoryKind::Videos),
{
    resolve_xdg_path_with_fallback_and_sub_dir(env, DirectoryKind::Videos, &env.userprofile, "Videos")
}

/// Hands a native variable's value out unmodified.
fn resolve_path(v: &Option<String>) -> (r: Option<String>)
    ensures
        opt_seq(r) == opt_seq(*v),
{
    match v {
        Some(s) => Some(s.clone()),
        None => None,
    }
}

/// The override for `kind` when absolute; otherwise the native variable's
/// value unmodified.
fn resolve_xdg_path_with_fallback(env: &Env, kind: DirectoryKind, fallback: &Option<String>) -> (r:
    Option<String>)
    ensures
        opt_seq(r) == (match override_result(*env, Platform::Windows, kind) {
            Some(s) => Some(s),
            None => opt_seq(*fallback),
        }),
{
    match xdg::resolve_path(env, kind, Platform::Windows) {
        Some(p) => Some(p),
        None => resolve_path(fallback),
    }
}

/// The override for `kind` when absolute; otherwise the native variable's
/// value with `sub_dir` joined on.
fn resolve_xdg_path_with_fallback_and_sub_dir(
    env: &Env,
    kind: DirectoryKind,
    fallback: &Option<String>,
    sub_dir: &str,
) -> (r: Option<String>)
    ensures
        opt_seq(r) == (match override_result(*env, Platform::Windows, kind) {
            Some(s) => Some(s),
            None => var_join(*fallback, Platform::Windows, sub_dir@),
        }),
{
    match xdg::resolve_path(env, kind, Platform::Windows) {
        Some(p) => Some(p),
        None => match fallback {
            Some(b) => Some(path::join(b.as_str(), sub_dir, Platform::Windows)),
            None => None,
        },
    }
}

} // verus!
