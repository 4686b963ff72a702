//! Cross-platform resolution of standard user directories.
//!
//! Every resolution is a pure function of two inputs: an [`Env`] snapshot of
//! the environment variables the rules read, and the [`Platform`] family the
//! answer is wanted for.  For each directory kind the rule is uniform: the
//! kind's XDG override variable wins when it is set to an absolute path
//! (a relative value is ignored entirely, as the XDG Base Directory
//! Specification requires), and otherwise the platform's conventional
//! default stands — a home-relative join, a native variable such as
//! `APPDATA`, a fixed location, or absence where a platform has no
//! convention.
//!
//! Absence is an expected, recoverable condition here, not a failure, so
//! every operation returns an `Option` and none ever panics.  On Linux and
//! macOS the runtime directory falls back to `TMPDIR`, or `/tmp` when that
//! too is unset.
//!
//! The whole rule table is stated as specification functions in [`kind`],
//! and every operation's contract ties it to that table; the laws the table
//! obeys — an absolute override wins verbatim, a relative one is ignored,
//! the local and preferences kinds alias the configuration and data kinds —
//! are proved in [`laws`].

use vstd::prelude::*;

pub mod env;
pub mod kind;
pub mod laws;
pub mod linux;
pub mod macos;
pub mod path;
pub mod windows;
pub mod xdg;

pub use crate::env::{Env, Platform};
pub use crate::kind::DirectoryKind;

verus! {

use vstd::string::StringExecFns;

use crate::env::opt_seq;
use crate::kind::spec_resolve;

/// Returns the user's home directory: `HOME` (with a user-database
/// fallback) on Unix platforms, `USERPROFILE` (with a `HOMEDRIVE` +
/// `HOMEPATH` fallback) on Windows.
pub fn home(env: &Env, platform: Platform) -> (r: Option<String>)
    ensures
        opt_seq(r) == spec_resolve(*env, platform, DirectoryKind::Home),
{
    match platform {
        Platform::Windows => match &env.userprofile {
            Some(u) => Some(u.clone()),
            None => match (&env.homedrive, &env.homepath) {
                (Some(d), Some(p)) => Some(d.clone().concat(p.as_str())),
                _ => None,
            },
        },
        _ => match &env.home {
            Some(h) => Some(h.clone()),
            None => match &env.pw_home {
                Some(w) => Some(w.clone()),
                None => None,
            },
        },
    }
}

/// Returns the user's binary directory: `XDG_BIN_HOME`, else
/// `home/.local/bin` on Linux and macOS, `LOCALAPPDATA\Programs` on
/// Windows.
pub fn bin_home(env: &Env, platform: Platform) -> (r: Option<String>)
    ensures
        opt_seq(r) == spec_resolve(*env, platform, DirectoryKind::BinHome),
{
    match platform {
        Platform::Linux => linux::bin_home(env),
        Platform::MacOs => macos::bin_home(env),
        Platform::Windows => windows::bin_home(env),
    }
}

/// Returns the user's cache directory: `XDG_CACHE_HOME`, else
/// `home/.cache` on Linux, `home/Library/Caches` on macOS, `LOCALAPPDATA`
/// on Windows.
pub fn cache_home(env: &Env, platform: Platform) -> (r: Option<String>)
    ensures
        opt_seq(r) == spec_resolve(*env, platform, DirectoryKind::CacheHome),
{
    match platform {
        Platform::Linux => linux::cache_home(env),
        Platform::MacOs => macos::cache_home(env),
        Platform::Windows => windows::cache_home(env),
    }
}

/// Returns the user's configuration directory: `XDG_CONFIG_HOME`, else
/// `home/.config` on Linux, `home/Library/Application Support` on macOS,
/// `APPDATA` on Windows.
pub fn config_home(env: &Env, platform: Platform) -> (r: Option<String>)
    ensures
        opt_seq(r) == spec_resolve(*env, platform, DirectoryKind::ConfigHome),
{
    match platform {
        Platform::Linux => linux::config_home(env),
        Platform::MacOs => macos::config_home(env),
        Platform::Windows => windows::config_home(env),
    }
}

/// Returns the user's local (non-roaming) configuration directory: the
/// configuration directory itself on Linux and macOS, `LOCALAPPDATA` on
/// Windows.
pub fn config_local(env: &Env, platform: Platform) -> (r: Option<String>)
    ensures
        opt_seq(r) == spec_resolve(*env, platform, DirectoryKind::ConfigLocal),
{
    match platform {
        Platform::Linux => linux::config_local(env),
        Platform::MacOs => macos::config_local(env),
        Platform::Windows => windows::config_local(env),
    }
}

/// Returns the user's data directory: `XDG_DATA_HOME`, else
/// `home/.local/share` on Linux, `home/Library/Application Support` on
/// macOS, `APPDATA` on Windows.
pub fn data_home(env: &Env, platform: Platform) -> (r: Option<String>)
    ensures
        opt_seq(r) == spec_resolve(*env, platform, DirectoryKind::DataHome),
{
    match platform {
        Platform::Linux => linux::data_home(env),
        Platform::MacOs => macos::data_home(env),
        Platform::Windows => windows::data_home(env),
    }
}

/// Returns the user's local (non-roaming) data directory: the data
/// directory itself on Linux and macOS, `LOCALAPPDATA` on Windows.
pub fn data_local(env: &Env, platform: Platform) -> (r: Option<String>)
    ensures
        opt_seq(r) == spec_resolve(*env, platform, DirectoryKind::DataLocal),
{
    match platform {
        Platform::Linux => linux::data_local(env),
        Platform::MacOs => macos::data_local(env),
        Platform::Windows => windows::data_local(env),
    }
}

/// Returns the user's desktop directory: `XDG_DESKTOP_DIR`, else
/// `home/Desktop` (`USERPROFILE\Desktop` on Windows).
pub fn desktop(env: &Env, platform: Platform) -> (r: Option<String>)
    ensures
        opt_seq(r) == spec_resolve(*env, platform, DirectoryKind::Desktop),
{
    match platform {
        Platform::Linux => linux::desktop(env),
        Platform::MacOs => macos::desktop(env),
        Platform::Windows => windows::desktop(env),
    }
}

/// Returns the user's documents directory: `XDG_DOCUMENTS_DIR`, else
/// `home/Documents` (`USERPROFILE\Documents` on Windows).
pub fn documents(env: &Env, platform: Platform) -> (r: Option<String>)
    ensures
        opt_seq(r) == spec_resolve(*env, platform, DirectoryKind::Documents),
{
    match platform {
        Platform::Linux => linux::documents(env),
        Platform::MacOs => macos::documents(env),
        Platform::Windows => windows::documents(env),
    }
}

/// Returns the user's downloads directory: `XDG_DOWNLOAD_DIR`, else
/// `home/Downloads` (`USERPROFILE\Downloads` on Windows).
pub fn downloads(env: &Env, platform: Platform) -> (r: Option<String>)
    ensures
        opt_seq(r) == spec_resolve(*env, platform, DirectoryKind::Downloads),
{
    match platform {
        Platform::Linux => linux::downloads(env),
        Platform::MacOs => macos::downloads(env),
        Platform::Windows => windows::downloads(env),
    }
}

/// Returns the user's fonts directory: `home/.local/share/fonts` on Linux,
/// `home/Library/Fonts` on macOS, absent on Windows, which has no per-user
/// convention.
pub fn fonts(env: &Env, platform: Platform) -> (r: Option<String>)
    ensures
        opt_seq(r) == spec_resolve(*env, platform, DirectoryKind::Fonts),
{
    match platform {
        Platform::Linux => linux::fonts(env),
        Platform::MacOs => macos::fonts(env),
        Platform::Windows => windows::fonts(env),
    }
}

/// Returns the user's music directory: `XDG_MUSIC_DIR`, else `home/Music`
/// (`USERPROFILE\Music` on Windows).
pub fn music(env: &Env, platform: Platform) -> (r: Option<String>)
    ensures
        opt_seq(r) == spec_resolve(*env, platform, DirectoryKind::Music),
{
    match platform {
        Platform::Linux => linux::music(env),
        Platform::MacOs => macos::music(env),
        Platform::Windows => windows::music(env),
    }
}

/// Returns the user's pictures directory: `XDG_PICTURES_DIR`, else
/// `home/Pictures` (`USERPROFILE\Pictures` on Windows).
pub fn pictures(env: &Env, platform: Platform) -> (r: Option<String>)
    ensures
        opt_seq(r) == spec_resolve(*env, platform, DirectoryKind::Pictures),
{
    match platform {
        Platform::Linux => linux::pictures(env),
        Platform::MacOs => macos::pictures(env),
        Platform::Windows => windows::pictures(env),
    }
}

/// Returns the user's preferences directory: `home/Library/Preferences` on
/// macOS, the configuration directory itself elsewhere.
pub fn preferences(env: &Env, platform: Platform) -> (r: Option<String>)
    ensures
        opt_seq(r) == spec_resolve(*env, platform, DirectoryKind::Preferences),
{
    match platform {
        Platform::Linux => linux::preferences(env),
        Platform::MacOs => macos::preferences(env),
        Platform::Windows => windows::preferences(env),
    }
}

/// Returns the user's public-share directory: `XDG_PUBLICSHARE_DIR`, else
/// `home/Public` on Linux and macOS, the system-wide `C:\Users\Public` on
/// Windows.
pub fn publicshare(env: &Env, platform: Platform) -> (r: Option<String>)
    ensures
        opt_seq(r) == spec_resolve(*env, platform, DirectoryKind::Publicshare),
{
    match platform {
        Platform::Linux => linux::publicshare(env),
        Platform::MacOs => macos::publicshare(env),
        Platform::Windows => windows::publicshare(env),
    }
}

/// Returns the user's runtime directory: `XDG_RUNTIME_DIR`, else `TMPDIR`
/// or `/tmp` on Linux and macOS, `TEMP` on Windows.
pub fn runtime(env: &Env, platform: Platform) -> (r: Option<String>)
    ensures
        opt_seq(r) == spec_resolve(*env, platform, DirectoryKind::Runtime),
{
    match platform {
        Platform::Linux => linux::runtime(env),
        Platform::MacOs => macos::runtime(env),
        Platform::Windows => windows::runtime(env),
    }
}

/// Returns the user's state directory: `XDG_STATE_HOME`, else
/// `home/.local/state` on Linux, `home/Library/Application Support` on
/// macOS, `LOCALAPPDATA` on Windows.
pub fn state_home(env: &Env, platform: Platform) -> (r: Option<String>)
    ensures
        opt_seq(r) == spec_resolve(*env, platform, DirectoryKind::StateHome),
{
    match platform {
        Platform::Linux => linux::state_home(env),
        Platform::MacOs => macos::state_home(env),
        Platform::Windows => windows::state_home(env),
    }
}

/// Returns the user's templates directory: `XDG_TEMPLATES_DIR`, else
/// `home/Templates` (`USERPROFILE\Templates` on Windows).
pub fn templates(env: &Env, platform: Platform) -> (r: Option<String>)
    ensures
        opt_seq(r) == spec_resolve(*env, platform, DirectoryKind::Templates),
{
    match platform {
        Platform::Linux => linux::templates(env),
        Platform::MacOs => macos::templates(env),
        Platform::Windows => windows::templates(env),
    }
}

/// Returns the user's videos directory: `XDG_VIDEOS_DIR`, else
/// `home/Videos` on Linux, `home/Movies` on macOS, `USERPROFILE\Videos` on
/// Windows.
pub fn videos(env: &Env, platform: Platform) -> (r: Option<String>)
    ensures
        opt_seq(r) == spec_resolve(*env, platform, DirectoryKind::Videos),
{
    match platform {
        Platform::Linux => linux::videos(env),
        Platform::MacOs => macos::videos(env),
        Platform::Windows => windows::videos(env),
    }
}

} // verus!
