use vstd::prelude::*;

verus! {

/// The operating-system family a resolution is computed for.
///
/// The family is an explicit argument of every resolution, so the whole
/// rule table can be exercised on any host.
#[derive(Clone, Copy, Debug, PartialEq, Eq, Structural)]
pub enum Platform {
    Linux,
    MacOs,
    Windows,
}

/// A snapshot of the process environment, restricted to the variables the
/// resolution rules read.
///
/// Each field holds the value of one environment variable, or `None` when
/// that variable is unset.  A snapshot is plain data: every resolution is a
/// pure function of it, so callers fill it once from the process environment
/// (or build one by hand in a test) and pass it in.
#[derive(Clone, Debug)]
pub struct Env {
    /// `HOME` (Unix).
    pub home: Option<String>,
    /// The home directory recorded for the current effective user in the
    /// system user database, if the lookup succeeded and the field was valid
    /// text (Unix fallback when `HOME` is unset).
    pub pw_home: Option<String>,
    /// `USERPROFILE` (Windows).
    pub userprofile: Option<String>,
    /// `HOMEDRIVE` (Windows).
    pub homedrive: Option<String>,
    /// `HOMEPATH` (Windows).
    pub homepath: Option<String>,
    /// `APPDATA` (Windows).
    pub appdata: Option<String>,
    /// `LOCALAPPDATA` (Windows).
    pub localappdata: Option<String>,
    /// `TEMP` (Windows).
    pub temp: Option<String>,
    /// `TMPDIR` (Unix).
    pub tmpdir: Option<String>,
    /// `XDG_BIN_HOME`.
    pub xdg_bin_home: Option<String>,
    /// `XDG_CACHE_HOME`.
    pub xdg_cache_home: Option<String>,
    /// `XDG_CONFIG_HOME`.
    pub xdg_config_home: Option<String>,
    /// `XDG_DATA_HOME`.
    pub xdg_data_home: Option<String>,
    /// `XDG_STATE_HOME`.
    pub xdg_state_home: Option<String>,
    /// `XDG_RUNTIME_DIR`.
    pub xdg_runtime_dir: Option<String>,
    /// `XDG_DESKTOP_DIR`.
    pub xdg_desktop_dir: Option<String>,
    /// `XDG_DOCUMENTS_DIR`.
    pub xdg_documents_dir: Option<String>,
    /// `XDG_DOWNLOAD_DIR`.
    pub xdg_download_dir: Option<String>,
    /// `XDG_MUSIC_DIR`.
    pub xdg_music_dir: Option<String>,
    /// `XDG_PICTURES_DIR`.
    pub xdg_pictures_dir: Option<String>,
    /// `XDG_PUBLICSHARE_DIR`.
    pub xdg_publicshare_dir: Option<String>,
    /// `XDG_TEMPLATES_DIR`.
    pub xdg_templates_dir: Option<String>,
    /// `XDG_VIDEOS_DIR`.
    pub xdg_videos_dir: Option<String>,
}

/// The view of an optional variable value: its character sequence, if set.
pub open spec fn opt_seq(o: Option<String>) -> Option<Seq<char>> {
    match o {
        Some(s) => Some(s@),
        None => None,
    }
}

impl Env {
    /// The snapshot with every variable unset.
    pub open spec fn spec_empty() -> Env {
        Env {
            home: None,
            pw_home: None,
            userprofile: None,
            homedrive: None,
            homepath: None,
            appdata: None,
            localappdata: None,
            temp: None,
            tmpdir: None,
            xdg_bin_home: None,
            xdg_cache_home: None,
            xdg_config_home: None,
            xdg_data_home: None,
            xdg_state_home: None,
            xdg_runtime_dir: None,
            xdg_desktop_dir: None,
            xdg_documents_dir: None,
            xdg_download_dir: None,
            xdg_music_dir: None,
            xdg_pictures_dir: None,
            xdg_publicshare_dir: None,
            xdg_templates_dir: None,
            xdg_videos_dir: None,
        }
    }

    /// Builds the snapshot with every variable unset.
    pub fn empty() -> (r: Env)
        ensures
            r == Env::spec_empty(),
    {
        Env {
            home: None,
            pw_home: None,
            userprofile: None,
            homedrive: None,
            homepath: None,
            appdata: None,
            localappdata: None,
            temp: None,
            tmpdir: None,
            xdg_bin_home: None,
            xdg_cache_home: None,
            xdg_config_home: None,
            xdg_data_home: None,
            xdg_state_home: None,
            xdg_runtime_dir: None,
            xdg_desktop_dir: None,
            xdg_documents_dir: None,
            xdg_download_dir: None,
            xdg_music_dir: None,
            xdg_pictures_dir: None,
            xdg_publicshare_dir: None,
            xdg_templates_dir: None,
            xdg_videos_dir: None,
        }
    }
}

/// The home directory a snapshot resolves to.
///
/// On Unix platforms: `HOME` when set, otherwise the user-database entry.
/// On Windows: `USERPROFILE` when set, otherwise `HOMEDRIVE` and `HOMEPATH`
/// concatenated when both are present.  Absent when nothing resolves.
pub open spec fn spec_home(env: Env, platform: Platform) -> Option<Seq<char>> {
    match platform {
        Platform::Windows => match env.userprofile {
            Some(u) => Some(u@),
            None => match (env.homedrive, env.homepath) {
                (Some(d), Some(p)) => Some(d@ + p@),
                _ => None,
            },
        },
        _ => match env.home {
            Some(h) => Some(h@),
            None => opt_seq(env.pw_home),
        },
    }
}

} // verus!
