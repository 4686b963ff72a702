use vstd::prelude::*;

verus! {

use crate::env::{Env, Platform, opt_seq};
use crate::kind::{DirectoryKind, home_join, override_result, override_value};
use crate::path;

/// The raw value of the override variable assigned to `kind`, straight from
/// the snapshot: `None` when the kind has none, or it is unset.
pub fn override_var(env: &Env, kind: DirectoryKind) -> (r: Option<&String>)
    ensures
        (match r {
            Some(s) => override_value(*env, kind) == Some(s@),
            None => override_value(*env, kind) is None,
        }),
{
    match kind {
        DirectoryKind::BinHome => env.xdg_bin_home.as_ref(),
        DirectoryKind::CacheHome => env.xdg_cache_home.as_ref(),
        DirectoryKind::ConfigHome => env.xdg_config_home.as_ref(),
        DirectoryKind::DataHome => env.xdg_data_home.as_ref(),
        DirectoryKind::StateHome => env.xdg_state_home.as_ref(),
        DirectoryKind::Runtime => env.xdg_runtime_dir.as_ref(),
        DirectoryKind::Desktop => env.xdg_desktop_dir.as_ref(),
        DirectoryKind::Documents => env.xdg_documents_dir.as_ref(),
        DirectoryKind::Downloads => env.xdg_download_dir.as_ref(),
        DirectoryKind::Music => env.xdg_music_dir.as_ref(),
        DirectoryKind::Pictures => env.xdg_pictures_dir.as_ref(),
        DirectoryKind::Videos => env.xdg_videos_dir.as_ref(),
        DirectoryKind::Templates => env.xdg_templates_dir.as_ref(),
        DirectoryKind::Publicshare => env.xdg_publicshare_dir.as_ref(),
        DirectoryKind::Home => None,
        DirectoryKind::ConfigLocal => None,
        DirectoryKind::DataLocal => None,
        DirectoryKind::Fonts => None,
        DirectoryKind::Preferences => None,
    }
}

/// The override for `kind`, absolute values only: a relative value is
/// discarded whole, never returned in part.
pub fn resolve_path(env: &Env, kind: DirectoryKind, platform: Platform) -> (r: Option<String>)
    ensures
        opt_seq(r) == override_result(*env, platform, kind),
{
    match override_var(env, kind) {
        Some(s) => {
            if path::is_absolute(s.as_str(), platform) {
                Some(s.clone())
            } else {
                None
            }
        },
        None => None,
    }
}

/// The override for `kind` when absolute; otherwise the home-relative
/// default `default`, when home resolves.
pub fn resolve_path_with_fallback(
    env: &Env,
    kind: DirectoryKind,
    platform: Platform,
    default: &str,
) -> (r: Option<String>)
    ensures
        opt_seq(r) == (match override_result(*env, platform, kind) {
            Some(s) => Some(s),
            None => home_join(*env, platform, default@),
        }),
{
    match resolve_path(env, kind, platform) {
        Some(p) => Some(p),
        None => match crate::home(env, platform) {
            Some(h) => Some(path::join(h.as_str(), default, platform)),
            None => None,
        },
    }
}

} // verus!
