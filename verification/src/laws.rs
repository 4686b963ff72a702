use vstd::prelude::*;

verus! {

use crate::env::{Env, Platform, opt_seq, spec_home};
use crate::kind::{
    DirectoryKind, config_home_default, data_home_default, home_join, override_result,
    override_value, resolve_config_home, resolve_data_home, spec_default, spec_resolve,
};
use crate::path::{is_sep, sep_char, spec_absolute, spec_join};

/// Setting a kind's override variable to an absolute path makes the
/// resolution return exactly that path, verbatim, on every platform.
pub proof fn lemma_absolute_override_wins(
    env: Env,
    platform: Platform,
    kind: DirectoryKind,
    s: Seq<char>,
)
    requires
        override_value(env, kind) == Some(s),
        spec_absolute(platform, s),
    ensures
        spec_resolve(env, platform, kind) == Some(s),
{
}

/// Setting a kind's override variable to a relative path has the value
/// ignored entirely: the resolution falls through to the platform default
/// and never returns the relative value.
pub proof fn lemma_relative_override_ignored(
    env: Env,
    platform: Platform,
    kind: DirectoryKind,
    s: Seq<char>,
)
    requires
        override_value(env, kind) == Some(s),
        !spec_absolute(platform, s),
    ensures
        spec_resolve(env, platform, kind) == spec_default(env, platform, kind),
        spec_resolve(env, platform, kind) != Some(s) || spec_default(env, platform, kind) == Some(
            s,
        ),
{
}

/// With a kind's override variable unset (or none assigned), the
/// resolution is the documented platform default.
pub proof fn lemma_unset_override_gives_default(env: Env, platform: Platform, kind: DirectoryKind)
    requires
        override_value(env, kind) is None,
    ensures
        spec_resolve(env, platform, kind) == spec_default(env, platform, kind),
{
}

/// Joining a component onto an absolute Unix path keeps it absolute.
proof fn lemma_join_keeps_absolute(platform: Platform, base: Seq<char>, sub: Seq<char>)
    requires
        platform != Platform::Windows,
        spec_absolute(platform, base),
    ensures
        spec_absolute(platform, spec_join(platform, base, sub)),
{
    if base.len() > 0 && !is_sep(platform, base[base.len() - 1]) {
        assert((base + seq![sep_char(platform)] + sub)[0] == base[0]);
    }
}

/// The home-relative defaults are present and absolute whenever home
/// resolves to an absolute path.
proof fn lemma_home_join_absolute(env: Env, platform: Platform, sub: Seq<char>)
    requires
        platform != Platform::Windows,
        spec_home(env, platform) matches Some(h) && spec_absolute(platform, h),
    ensures
        home_join(env, platform, sub) matches Some(d) && spec_absolute(platform, d),
{
    lemma_join_keeps_absolute(platform, spec_home(env, platform)->0, sub);
}

/// The configuration directory is present and absolute on Linux and macOS
/// whenever home resolves to an absolute path.
proof fn lemma_resolve_config_home_absolute(env: Env, platform: Platform)
    requires
        platform != Platform::Windows,
        spec_home(env, platform) matches Some(h) && spec_absolute(platform, h),
    ensures
        resolve_config_home(env, platform) matches Some(d) && spec_absolute(platform, d),
{
    if override_result(env, platform, DirectoryKind::ConfigHome) is None {
        match platform {
            Platform::Linux => lemma_home_join_absolute(env, platform, ".config"@),
            _ => lemma_home_join_absolute(env, platform, "Library/Application Support"@),
        }
    }
}

/// The data directory is present and absolute on Linux and macOS whenever
/// home resolves to an absolute path.
proof fn lemma_resolve_data_home_absolute(env: Env, platform: Platform)
    requires
        platform != Platform::Windows,
        spec_home(env, platform) matches Some(h) && spec_absolute(platform, h),
    ensures
        resolve_data_home(env, platform) matches Some(d) && spec_absolute(platform, d),
{
    if override_result(env, platform, DirectoryKind::DataHome) is None {
        match platform {
            Platform::Linux => lemma_home_join_absolute(env, platform, ".local/share"@),
            _ => lemma_home_join_absolute(env, platform, "Library/Application Support"@),
        }
    }
}

/// On Linux and macOS every platform default is present and an absolute
/// path, as long as home resolves to an absolute path and `TMPDIR`, when
/// set, holds one.
pub proof fn lemma_unix_default_absolute(env: Env, platform: Platform, kind: DirectoryKind)
    requires
        platform != Platform::Windows,
        spec_home(env, platform) matches Some(h) && spec_absolute(platform, h),
        env.tmpdir matches Some(t) ==> spec_absolute(platform, t@),
    ensures
        spec_default(env, platform, kind) matches Some(d) && spec_absolute(platform, d),
{
    match kind {
        DirectoryKind::Home => {},
        DirectoryKind::BinHome => lemma_home_join_absolute(env, platform, ".local/bin"@),
        DirectoryKind::CacheHome => match platform {
            Platform::Linux => lemma_home_join_absolute(env, platform, ".cache"@),
            _ => lemma_home_join_absolute(env, platform, "Library/Caches"@),
        },
        DirectoryKind::ConfigHome => match platform {
            Platform::Linux => lemma_home_join_absolute(env, platform, ".config"@),
            _ => lemma_home_join_absolute(env, platform, "Library/Application Support"@),
        },
        DirectoryKind::ConfigLocal => lemma_resolve_config_home_absolute(env, platform),
        DirectoryKind::DataHome => match platform {
            Platform::Linux => lemma_home_join_absolute(env, platform, ".local/share"@),
            _ => lemma_home_join_absolute(env, platform, "Library/Application Support"@),
        },
        DirectoryKind::DataLocal => lemma_resolve_data_home_absolute(env, platform),
        DirectoryKind::StateHome => match platform {
            Platform::Linux => lemma_home_join_absolute(env, platform, ".local/state"@),
            _ => lemma_home_join_absolute(env, platform, "Library/Application Support"@),
        },
        DirectoryKind::Runtime => match env.tmpdir {
            Some(t) => {},
            None => {
                reveal_strlit("/tmp");
                assert(spec_absolute(platform, "/tmp"@));
            },
        },
        DirectoryKind::Desktop => lemma_home_join_absolute(env, platform, "Desktop"@),
        DirectoryKind::Documents => lemma_home_join_absolute(env, platform, "Documents"@),
        DirectoryKind::Downloads => lemma_home_join_absolute(env, platform, "Downloads"@),
        DirectoryKind::Music => lemma_home_join_absolute(env, platform, "Music"@),
        DirectoryKind::Pictures => lemma_home_join_absolute(env, platform, "Pictures"@),
        DirectoryKind::Videos => match platform {
            Platform::Linux => lemma_home_join_absolute(env, platform, "Videos"@),
            _ => lemma_home_join_absolute(env, platform, "Movies"@),
        },
        DirectoryKind::Templates => lemma_home_join_absolute(env, platform, "Templates"@),
        DirectoryKind::Publicshare => lemma_home_join_absolute(env, platform, "Public"@),
        DirectoryKind::Fonts => match platform {
            Platform::Linux => lemma_home_join_absolute(env, platform, ".local/share/fonts"@),
            _ => lemma_home_join_absolute(env, platform, "Library/Fonts"@),
        },
        DirectoryKind::Preferences => match platform {
            Platform::MacOs => lemma_home_join_absolute(env, platform, "Library/Preferences"@),
            _ => lemma_resolve_config_home_absolute(env, platform),
        },
    }
}

/// On Linux and macOS every resolution is present and an absolute path
/// under the same conditions: an override only ever contributes an
/// absolute value, and otherwise the default stands.
pub proof fn lemma_unix_resolution_absolute(env: Env, platform: Platform, kind: DirectoryKind)
    requires
        platform != Platform::Windows,
        spec_home(env, platform) matches Some(h) && spec_absolute(platform, h),
        env.tmpdir matches Some(t) ==> spec_absolute(platform, t@),
    ensures
        spec_resolve(env, platform, kind) matches Some(d) && spec_absolute(platform, d),
{
    if override_result(env, platform, kind) is None {
        lemma_unix_default_absolute(env, platform, kind);
    }
}

/// The local configuration directory equals the configuration directory on
/// Linux and macOS.
pub proof fn lemma_config_local_matches_config_home(env: Env, platform: Platform)
    requires
        platform != Platform::Windows,
    ensures
        spec_resolve(env, platform, DirectoryKind::ConfigLocal) == spec_resolve(
            env,
            platform,
            DirectoryKind::ConfigHome,
        ),
{
}

/// The local data directory equals the data directory on Linux and macOS.
pub proof fn lemma_data_local_matches_data_home(env: Env, platform: Platform)
    requires
        platform != Platform::Windows,
    ensures
        spec_resolve(env, platform, DirectoryKind::DataLocal) == spec_resolve(
            env,
            platform,
            DirectoryKind::DataHome,
        ),
{
}

/// On Windows the local configuration and data directories are the value
/// of `LOCALAPPDATA`, unmodified.
pub proof fn lemma_locals_are_localappdata_on_windows(env: Env)
    ensures
        spec_resolve(env, Platform::Windows, DirectoryKind::ConfigLocal) == opt_seq(
            env.localappdata,
        ),
        spec_resolve(env, Platform::Windows, DirectoryKind::DataLocal) == opt_seq(env.localappdata),
{
}

/// The preferences directory equals the configuration directory on every
/// platform but macOS.
pub proof fn lemma_preferences_matches_config_home(env: Env, platform: Platform)
    requires
        platform != Platform::MacOs,
    ensures
        spec_resolve(env, platform, DirectoryKind::Preferences) == spec_resolve(
            env,
            platform,
            DirectoryKind::ConfigHome,
        ),
{
}

/// The fonts directory is absent on Windows, and is the platform's
/// home-relative fonts location on Linux and macOS whenever home resolves.
pub proof fn lemma_fonts_locations(env: Env, platform: Platform)
    ensures
        spec_resolve(env, Platform::Windows, DirectoryKind::Fonts) is None,
        platform == Platform::Linux ==> spec_resolve(env, platform, DirectoryKind::Fonts)
            == home_join(env, platform, ".local/share/fonts"@),
        platform == Platform::MacOs ==> spec_resolve(env, platform, DirectoryKind::Fonts)
            == home_join(env, platform, "Library/Fonts"@),
{
}

} // verus!
