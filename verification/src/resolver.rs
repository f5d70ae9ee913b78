//! Which directories hold the CSV files and the profile icons, and how a
//! path is shown to the front end.

use vstd::prelude::*;
use vstd::string::StringExecFns;
use crate::error::{Failure, StoreError};
use crate::location::{Location, Place};
use crate::text::{chars_of, strip_repeated, strip_repeated_at};
use crate::BuildMode;

verus! {

/// How many levels the project root lies above the running executable.
pub const PROJECT_ROOT_HOPS: usize = 4;

/// The platform whose paths are shown.
#[derive(Clone, Copy, Debug, PartialEq, Eq, Structural)]
pub enum Platform {
    /// Backslash separators, and a verbatim prefix before long paths.
    Windows,
    /// Any other platform.
    Other,
}

/// What the host's directory lookup gave, as plain values.
pub open spec fn lookup_view(lookup: Result<Location, String>) -> Result<Place, Seq<char>> {
    match lookup {
        Ok(dir) => Ok(dir@),
        Err(text) => Err(text@),
    }
}

/// A directory or a failure, as plain values.
pub open spec fn dir_view(r: Result<Location, StoreError>) -> Result<Place, Failure> {
    match r {
        Ok(dir) => Ok(dir@),
        Err(e) => Err(e@),
    }
}

/// The project root: four levels above the executable `exe`.
pub open spec fn project_root(exe: Option<Place>) -> Option<Place> {
    match exe {
        Some(path) => path.up(PROJECT_ROOT_HOPS as nat),
        None => None,
    }
}

/// The project's `public/data` directory.
pub open spec fn project_data_dir(exe: Option<Place>) -> Option<Place> {
    match project_root(exe) {
        Some(root) => Some(root.join("public"@).join("data"@)),
        None => None,
    }
}

/// `public/icon/profile` below `root`.
pub open spec fn public_icon_dir(root: Place) -> Place {
    root.join("public"@).join("icon"@).join("profile"@)
}

/// The project's `public/icon/profile` directory, or the one below the
/// working directory `cwd` where the project root cannot be had.
pub open spec fn project_icon_dir(exe: Option<Place>, cwd: Option<Place>) -> Option<Place> {
    match project_root(exe) {
        Some(root) => Some(public_icon_dir(root)),
        None => match cwd {
            Some(dir) => Some(public_icon_dir(dir)),
            None => None,
        },
    }
}

/// The `data` directory below the application-data root.
pub open spec fn app_data_dir(app_data: Result<Place, Seq<char>>) -> Result<Place, Failure> {
    match app_data {
        Ok(root) => Ok(root.join("data"@)),
        Err(text) => Err(Failure::Io(text)),
    }
}

/// The `icon/profile` directory below the application-data root.
pub open spec fn app_icon_dir(root: Place) -> Place {
    root.join("icon"@).join("profile"@)
}

/// The directory that new icons are written to.
pub open spec fn icon_dir(
    mode: BuildMode,
    exe: Option<Place>,
    cwd: Option<Place>,
    app_data: Result<Place, Seq<char>>,
) -> Result<Place, Failure> {
    if mode == BuildMode::Development && project_icon_dir(exe, cwd) is Some {
        Ok(project_icon_dir(exe, cwd)->0)
    } else {
        match app_data {
            Ok(root) => Ok(app_icon_dir(root)),
            Err(text) => Err(Failure::Io(text)),
        }
    }
}

/// The project's `public/data` directory, found from the canonical path
/// `exe` of the running executable: four levels up, then `public/data`.
/// `None` where the executable's path is unknown or has fewer than four
/// names: nothing stands in for the project then, and nothing is mirrored.
pub fn project_public_data_dir(exe: &Option<Location>) -> (r: Option<Location>)
    ensures
        r.deep_view() == project_data_dir(exe.deep_view()),
{
    match exe {
        None => None,
        Some(path) => match path.up(PROJECT_ROOT_HOPS) {
            None => None,
            Some(root) => Some(root.join("public").join("data")),
        },
    }
}

/// The project's `public/icon/profile` directory: the sibling `icon/profile`
/// of the project's data directory, or `public/icon/profile` below the
/// working directory `cwd` where the data directory cannot be had.
pub fn project_public_profile_icon_dir(
    exe: &Option<Location>,
    cwd: &Option<Location>,
) -> (r: Option<Location>)
    ensures
        r.deep_view() == project_icon_dir(exe.deep_view(), cwd.deep_view()),
{
    if let Some(data_dir) = project_public_data_dir(exe) {
        proof {
            let root = project_root(exe.deep_view())->0;
            root.join("public"@).lemma_parent_of_join("data"@);
        }
        if let Some(public_dir) = data_dir.parent() {
            return Some(public_dir.join("icon").join("profile"));
        }
    }
    match cwd {
        Some(dir) => Some(dir.join("public").join("icon").join("profile")),
        None => None,
    }
}

/// The `data` directory below the application-data root `app_data`, or the
/// failure of the root's lookup.
pub fn app_data_data_dir(
    app_data: &Result<Location, String>,
) -> (r: Result<Location, StoreError>)
    ensures
        dir_view(r) == app_data_dir(lookup_view(*app_data)),
{
    match app_data {
        Ok(root) => Ok(root.join("data")),
        Err(text) => Err(StoreError::Io(text.clone())),
    }
}

/// The directory that new icons are written to: the project's in a
/// development build where it can be had, `icon/profile` below the
/// application-data root otherwise.
pub fn profile_icon_dir(
    mode: BuildMode,
    exe: &Option<Location>,
    cwd: &Option<Location>,
    app_data: &Result<Location, String>,
) -> (r: Result<Location, StoreError>)
    ensures
        dir_view(r) == icon_dir(mode, exe.deep_view(), cwd.deep_view(), lookup_view(*app_data)),
{
    if mode == BuildMode::Development {
        if let Some(dir) = project_public_profile_icon_dir(exe, cwd) {
            return Ok(dir);
        }
    }
    match app_data {
        Ok(root) => Ok(root.join("icon").join("profile")),
        Err(text) => Err(StoreError::Io(text.clone())),
    }
}

/// The prefix that marks a verbatim path.
pub open spec fn verbatim_prefix() -> Seq<char> {
    "\\\\?\\"@
}

/// `s` with each backslash turned into a slash.
pub open spec fn forward_slashes(s: Seq<char>) -> Seq<char> {
    s.map_values(
        |c: char|
            if c == '\\' {
                '/'
            } else {
                c
            },
    )
}

/// A path as the front end takes it: on Windows without verbatim prefix and
/// with slashes for backslashes, elsewhere unchanged.
pub open spec fn display_form(platform: Platform, path: Seq<char>) -> Seq<char> {
    match platform {
        Platform::Windows => forward_slashes(strip_repeated(path, verbatim_prefix())),
        Platform::Other => path,
    }
}

/// The path `path` as the front end takes it.
pub fn path_to_display_string(platform: Platform, path: &str) -> (r: String)
    ensures
        r@ == display_form(platform, path@),
{
    match platform {
        Platform::Other => String::from_str(path),
        Platform::Windows => {
            let chars = chars_of(path);
            let prefix = chars_of("\\\\?\\");
            let from = strip_repeated_at(&chars, &prefix);
            let ghost rest = chars@.skip(from as int);
            let mut shown = String::new();
            let mut i: usize = from;
            while i < chars.len()
                invariant
                    from <= i <= chars.len(),
                    rest == chars@.skip(from as int),
                    shown@ == forward_slashes(rest.take(i - from)),
                decreases chars.len() - i,
            {
                let c = chars[i];
                shown.push(
                    if c == '\\' {
                        '/'
                    } else {
                        c
                    },
                );
                i += 1;
            }
            shown
        },
    }
}

} // verus!
