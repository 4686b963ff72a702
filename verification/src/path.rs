use vstd::prelude::*;

verus! {

use vstd::string::{StrSliceExecFns, StringExecFns};

use crate::env::Platform;

/// The separator character a platform's joins use.
pub open spec fn sep_char(platform: Platform) -> char {
    if platform is Windows {
        '\\'
    } else {
        '/'
    }
}

/// Whether `c` separates path components on `platform`.  Windows accepts
/// both slashes; Unix platforms only the forward slash.
pub open spec fn is_sep(platform: Platform, c: char) -> bool {
    if platform is Windows {
        c == '/' || c == '\\'
    } else {
        c == '/'
    }
}

/// Whether `c` can name a drive, as in `C:`.
pub open spec fn is_drive_letter(c: char) -> bool {
    (('A' as u32) <= (c as u32) && (c as u32) <= ('Z' as u32)) || (('a' as u32) <= (c as u32)
        && (c as u32) <= ('z' as u32))
}

/// Whether `s` is an absolute path on `platform`.
///
/// On Unix platforms a path is absolute exactly when it starts with `/`.
/// On Windows it is absolute when it starts with a rooted drive, as in
/// `C:\` or `C:/`, or with two separators, as a UNC or device path does.
pub open spec fn spec_absolute(platform: Platform, s: Seq<char>) -> bool {
    match platform {
        Platform::Windows => (s.len() >= 3 && is_drive_letter(s[0]) && s[1] == ':' && is_sep(
            platform,
            s[2],
        )) || (s.len() >= 2 && is_sep(platform, s[0]) && is_sep(platform, s[1])),
        _ => s.len() >= 1 && s[0] == '/',
    }
}

/// `base` with `sub` appended as a further component: a separator is put
/// between the two unless `base` already ends with one or is empty.
pub open spec fn spec_join(platform: Platform, base: Seq<char>, sub: Seq<char>) -> Seq<char> {
    if base.len() == 0 {
        sub
    } else if is_sep(platform, base[base.len() - 1]) {
        base + sub
    } else {
        base + seq![sep_char(platform)] + sub
    }
}

fn is_sep_char(platform: Platform, c: char) -> (r: bool)
    ensures
        r == is_sep(platform, c),
{
    match platform {
        Platform::Windows => c == '/' || c == '\\',
        _ => c == '/',
    }
}

fn drive_letter(c: char) -> (r: bool)
    ensures
        r == is_drive_letter(c),
{
    let u: u32 = c as u32;
    (u >= 'A' as u32 && u <= 'Z' as u32) || (u >= 'a' as u32 && u <= 'z' as u32)
}

/// Decides absoluteness of `s` on `platform`.
pub fn is_absolute(s: &str, platform: Platform) -> (r: bool)
    ensures
        r == spec_absolute(platform, s@),
{
    let n: usize = s.unicode_len();
    match platform {
        Platform::Windows => {
            let drive = n >= 3 && drive_letter(s.get_char(0)) && s.get_char(1) == ':'
                && is_sep_char(platform, s.get_char(2));
            let unc = n >= 2 && is_sep_char(platform, s.get_char(0)) && is_sep_char(
                platform,
                s.get_char(1),
            );
            drive || unc
        },
        _ => n >= 1 && s.get_char(0) == '/',
    }
}

fn sep_str(platform: Platform) -> (r: &'static str)
    ensures
        r@ == seq![sep_char(platform)],
{
    match platform {
        Platform::Windows => {
            let s = "\\";
            proof {
                reveal_strlit("\\");
                assert(s@ =~= seq![sep_char(Platform::Windows)]);
            }
            s
        },
        _ => {
            let s = "/";
            proof {
                reveal_strlit("/");
                assert(s@ =~= seq![sep_char(platform)]);
            }
            s
        },
    }
}

/// Joins `sub` onto `base` with the platform's separator.
pub fn join(base: &str, sub: &str, platform: Platform) -> (r: String)
    ensures
        r@ == spec_join(platform, base@, sub@),
{
    let n: usize = base.unicode_len();
    if n == 0 {
        sub.to_owned()
    } else if is_sep_char(platform, base.get_char(n - 1)) {
        base.to_owned().concat(sub)
    } else {
        base.to_owned().concat(sep_str(platform)).concat(sub)
    }
}

} // verus!
