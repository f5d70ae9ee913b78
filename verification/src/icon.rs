//! Profile icons: the logical paths that name them, the names new icons
//! get, and the operations that store, find, delete and hand them out.

use vstd::prelude::*;
use vstd::string::StringExecFns;
use crate::codec::{decode_payload, decoded, encodable, encode_standard, standard_encoding};
use crate::error::{Failure, StoreError};
use crate::location::{Location, Place};
use crate::plan::{push_step, Action, Contents, FileStep, Outline, Plan, Step};
use crate::resolver::{
    app_icon_dir,
    dir_view,
    display_form,
    icon_dir,
    lookup_view,
    path_to_display_string,
    profile_icon_dir,
    project_icon_dir,
    project_public_profile_icon_dir,
    Platform,
};
use crate::text::{
    chars_of,
    contains_double_dot,
    has_double_dot,
    has_separator,
    starts_with_at,
    string_of,
    strip_repeated,
    strip_repeated_at,
};
use crate::BuildMode;

verus! {

/// The text that every logical icon path begins with.
pub open spec fn icon_prefix() -> Seq<char> {
    "/icon/profile/"@
}

/// Whether `path` begins with the prefix of logical icon paths.
pub open spec fn has_icon_prefix(path: Seq<char>) -> bool {
    icon_prefix().is_prefix_of(path)
}

/// The file name in a logical icon path: what is left once every leading
/// repetition of the prefix is removed.
pub open spec fn icon_name(path: Seq<char>) -> Seq<char> {
    strip_repeated(path, icon_prefix())
}

/// Whether `path` names an icon that the backend manages: it begins with
/// the prefix, and its file name is not empty and holds no `..`. A slash or
/// backslash in the name is not looked for.
pub open spec fn is_managed(path: Seq<char>) -> bool {
    has_icon_prefix(path) && icon_name(path).len() > 0 && !has_double_dot(icon_name(path))
}

/// Whether `icon_path` begins with the prefix of logical icon paths.
pub fn is_icon_path(icon_path: &str) -> (r: bool)
    ensures
        r == has_icon_prefix(icon_path@),
{
    let chars = chars_of(icon_path);
    let prefix = chars_of("/icon/profile/");
    starts_with_at(&chars, 0, &prefix)
}

/// The file name of the managed icon that `icon_path` names, or `None`
/// where it names none.
pub fn icon_file_name(icon_path: &str) -> (r: Option<String>)
    ensures
        match r {
            Some(name) => is_managed(icon_path@) && name@ == icon_name(icon_path@),
            None => !is_managed(icon_path@),
        },
{
    let chars = chars_of(icon_path);
    let prefix = chars_of("/icon/profile/");
    if !starts_with_at(&chars, 0, &prefix) {
        return None;
    }
    let from = strip_repeated_at(&chars, &prefix);
    if from == chars.len() || contains_double_dot(&chars, from) {
        return None;
    }
    Some(string_of(&chars, from, chars.len()))
}

/// The logical icon path of the file called `file_name`.
pub fn logical_icon_path(file_name: &str) -> (r: String)
    ensures
        r@ == icon_prefix() + file_name@,
{
    String::from_str("/icon/profile/").concat(file_name)
}

/// The character for the digit `d`.
pub open spec fn digit(d: nat) -> char {
    if d == 0 {
        '0'
    } else if d == 1 {
        '1'
    } else if d == 2 {
        '2'
    } else if d == 3 {
        '3'
    } else if d == 4 {
        '4'
    } else if d == 5 {
        '5'
    } else if d == 6 {
        '6'
    } else if d == 7 {
        '7'
    } else if d == 8 {
        '8'
    } else {
        '9'
    }
}

/// The number `n` in decimal digits, without leading zeros.
pub open spec fn decimal(n: nat) -> Seq<char>
    decreases n,
{
    if n < 10 {
        seq![digit(n)]
    } else {
        decimal(n / 10).push(digit(n % 10))
    }
}

/// The number that the decimal digits `s` stand for.
pub open spec fn decimal_value(s: Seq<char>) -> nat
    decreases s.len(),
{
    if s.len() == 0 {
        0
    } else {
        decimal_value(s.drop_last()) * 10 + (s.last() as nat - '0' as nat) as nat
    }
}

/// A number's decimal digits stand for that number.
pub proof fn lemma_decimal_value(n: nat)
    ensures
        decimal_value(decimal(n)) == n,
    decreases n,
{
    if n < 10 {
        let s = decimal(n);
        assert(decimal_value(s.drop_last()) == 0);
    } else {
        lemma_decimal_value(n / 10);
        let s = decimal(n);
        assert(s.drop_last() == decimal(n / 10));
    }
}

/// Different numbers have different decimal digits.
pub proof fn lemma_decimal_distinct(a: nat, b: nat)
    requires
        a != b,
    ensures
        decimal(a) != decimal(b),
{
    lemma_decimal_value(a);
    lemma_decimal_value(b);
}

/// The character for the digit `d`.
fn digit_char(d: u8) -> (c: char)
    requires
        d < 10,
    ensures
        c == digit(d as nat),
{
    if d == 0 {
        '0'
    } else if d == 1 {
        '1'
    } else if d == 2 {
        '2'
    } else if d == 3 {
        '3'
    } else if d == 4 {
        '4'
    } else if d == 5 {
        '5'
    } else if d == 6 {
        '6'
    } else if d == 7 {
        '7'
    } else if d == 8 {
        '8'
    } else {
        '9'
    }
}

/// The number `n` in decimal digits.
pub fn decimal_string(n: u128) -> (r: String)
    ensures
        r@ == decimal(n as nat),
{
    let mut low_first: Vec<char> = Vec::new();
    let mut rest: u128 = n;
    while rest >= 10
        invariant
            decimal(n as nat) == decimal(rest as nat) + low_first@.reverse(),
        decreases rest,
    {
        low_first.push(digit_char((rest % 10) as u8));
        rest = rest / 10;
    }
    low_first.push(digit_char(rest as u8));
    let mut r = String::new();
    let mut i: usize = low_first.len();
    while i > 0
        invariant
            i <= low_first.len(),
            r@ == low_first@.reverse().take(low_first.len() - i),
        decreases i,
    {
        i -= 1;
        r.push(low_first[i]);
    }
    r
}

/// The name of the icon file saved at `millis` milliseconds after the epoch.
pub open spec fn icon_name_at(millis: nat) -> Seq<char> {
    decimal(millis) + ".png"@
}

/// The name of the icon file saved at `millis` milliseconds after the epoch.
/// Two icons saved within one millisecond get one name, and the later takes
/// the place of the earlier.
pub fn generated_icon_name(millis: u128) -> (r: String)
    ensures
        r@ == icon_name_at(millis as nat),
{
    decimal_string(millis).concat(".png")
}

/// Where to look for a managed icon.
#[derive(Debug, PartialEq, Eq)]
pub struct IconLookup {
    /// The directory to create before looking, if any.
    pub create: Option<Location>,
    /// The files that may hold the icon, the first to try first.
    pub candidates: Vec<Location>,
}

/// What an [`IconLookup`] holds, as plain values.
pub struct Search {
    pub create: Option<Place>,
    pub candidates: Seq<Place>,
}

impl View for IconLookup {
    type V = Search;

    open spec fn view(&self) -> Search {
        Search { create: self.create.deep_view(), candidates: self.candidates.deep_view() }
    }
}

impl DeepView for IconLookup {
    type V = Search;

    open spec fn deep_view(&self) -> Search {
        self@
    }
}

/// The project's icon directory in a development build, none otherwise.
pub open spec fn development_icon_dir(
    mode: BuildMode,
    exe: Option<Place>,
    cwd: Option<Place>,
) -> Option<Place> {
    if mode == BuildMode::Development {
        project_icon_dir(exe, cwd)
    } else {
        None
    }
}

/// The file called `name` in `dir`, if there is a `dir`.
pub open spec fn candidate_in(dir: Option<Place>, name: Seq<char>) -> Seq<Place> {
    match dir {
        Some(dir) => seq![dir.join(name)],
        None => Seq::empty(),
    }
}

/// Where to look for the icon that `path` names: none for a path that is
/// not managed; else first in the project's icon directory, which a
/// development build has and creates, then in `icon/profile` below the
/// application-data root, where that root is known.
pub open spec fn icon_search(
    mode: BuildMode,
    path: Seq<char>,
    exe: Option<Place>,
    cwd: Option<Place>,
    app_data: Result<Place, Seq<char>>,
) -> Option<Search> {
    if is_managed(path) {
        let project = development_icon_dir(mode, exe, cwd);
        let fallback = match app_data {
            Ok(root) => Some(app_icon_dir(root)),
            Err(_) => None,
        };
        Some(
            Search {
                create: project,
                candidates: candidate_in(project, icon_name(path)) + candidate_in(
                    fallback,
                    icon_name(path),
                ),
            },
        )
    } else {
        None
    }
}

/// Where to look for the icon that `icon_path` names.
pub fn icon_lookup(
    mode: BuildMode,
    icon_path: &str,
    exe: &Option<Location>,
    cwd: &Option<Location>,
    app_data: &Result<Location, String>,
) -> (r: Option<IconLookup>)
    ensures
        r.deep_view() == icon_search(
            mode,
            icon_path@,
            exe.deep_view(),
            cwd.deep_view(),
            lookup_view(*app_data),
        ),
{
    let name = match icon_file_name(icon_path) {
        Some(name) => name,
        None => {
            return None;
        },
    };
    let mut candidates: Vec<Location> = Vec::new();
    let mut create: Option<Location> = None;
    if mode == BuildMode::Development {
        if let Some(dir) = project_public_profile_icon_dir(exe, cwd) {
            candidates.push(dir.join(name.as_str()));
            create = Some(dir);
        }
    }
    if let Ok(root) = app_data {
        candidates.push(root.join("icon").join("profile").join(name.as_str()));
    }
    let found = IconLookup { create, candidates };
    proof {
        let search = icon_search(
            mode,
            icon_path@,
            exe.deep_view(),
            cwd.deep_view(),
            lookup_view(*app_data),
        )->0;
        assert(found@.candidates =~= search.candidates);
    }
    Some(found)
}

/// The first of `candidates`, from index `at` on, that `present` marks as
/// there. A candidate that `present` does not reach counts as missing.
pub open spec fn first_present(
    candidates: Seq<Place>,
    present: Seq<bool>,
    at: int,
) -> Option<Place>
    decreases candidates.len() - at,
{
    if 0 <= at < candidates.len() {
        if at < present.len() && present[at] {
            Some(candidates[at])
        } else {
            first_present(candidates, present, at + 1)
        }
    } else {
        None
    }
}

/// The file that holds the icon: the first of `candidates` that is there,
/// where `present[i]` says whether `candidates[i]` is.
pub fn resolve_profile_icon_path(
    candidates: &Vec<Location>,
    present: &Vec<bool>,
) -> (r: Option<Location>)
    ensures
        r.deep_view() == first_present(candidates.deep_view(), present@, 0),
{
    let mut i: usize = 0;
    while i < candidates.len()
        invariant
            i <= candidates.len(),
            first_present(candidates.deep_view(), present@, 0) == first_present(
                candidates.deep_view(),
                present@,
                i as int,
            ),
        decreases candidates.len() - i,
    {
        if i < present.len() && present[i] {
            return Some(candidates[i].duplicate());
        }
        i += 1;
    }
    None
}

/// An icon that is ready to be saved: its bytes and the directory for it.
#[derive(Debug, PartialEq, Eq)]
pub struct IconDraft {
    pub bytes: Vec<u8>,
    pub dir: Location,
}

/// What an [`IconDraft`] holds, as plain values.
pub struct Draft {
    pub bytes: Seq<u8>,
    pub dir: Place,
}

impl View for IconDraft {
    type V = Draft;

    open spec fn view(&self) -> Draft {
        Draft { bytes: self.bytes@, dir: self.dir@ }
    }
}

/// What saving an icon takes: the steps to run, and the logical path that
/// the caller is given once they have run well.
#[derive(Debug, PartialEq, Eq)]
pub struct IconSave {
    pub plan: Plan,
    pub logical_path: String,
}

/// What an [`IconSave`] holds, as plain values.
pub struct Saving {
    pub plan: Outline,
    pub logical_path: Seq<char>,
}

impl View for IconSave {
    type V = Saving;

    open spec fn view(&self) -> Saving {
        Saving { plan: self.plan@, logical_path: self.logical_path@ }
    }
}

/// A draft or a failure, as plain values.
pub open spec fn draft_view(r: Result<IconDraft, StoreError>) -> Result<Draft, Failure> {
    match r {
        Ok(draft) => Ok(draft@),
        Err(e) => Err(e@),
    }
}

/// The draft made of what decoding the payload and looking up the icon
/// directory gave: the failure of the decoding if it failed, else that of
/// the lookup if that failed, else the bytes and the directory.
pub open spec fn drafted(
    decoded: Result<Seq<u8>, Failure>,
    dir: Result<Place, Failure>,
) -> Result<Draft, Failure> {
    match decoded {
        Ok(bytes) => match dir {
            Ok(dir) => Ok(Draft { bytes, dir }),
            Err(failure) => Err(failure),
        },
        Err(failure) => Err(failure),
    }
}

/// The saving of `draft` at `millis`: the directory is created and the
/// bytes are written to a file named after `millis`, and the logical path
/// names that file.
pub open spec fn planned_saving(draft: Draft, millis: nat) -> Saving {
    Saving {
        plan: Outline {
            steps: seq![
                Step { target: draft.dir, action: Action::CreateDir, reported: false },
                Step {
                    target: draft.dir.join(icon_name_at(millis)),
                    action: Action::WriteBytes(draft.bytes),
                    reported: true,
                },
            ],
            failure: None,
        },
        logical_path: icon_prefix() + icon_name_at(millis),
    }
}

/// A saving or a failure, as plain values.
pub open spec fn saving_view(r: Result<IconSave, StoreError>) -> Result<Saving, Failure> {
    match r {
        Ok(save) => Ok(save@),
        Err(e) => Err(e@),
    }
}

/// The saving of `draft` at the time that the clock gave, or an `Io`
/// failure with the clock's reason where it gave none.
pub open spec fn timed_saving(draft: Draft, now: Result<nat, Seq<char>>) -> Result<
    Saving,
    Failure,
> {
    match now {
        Ok(millis) => Ok(planned_saving(draft, millis)),
        Err(text) => Err(Failure::Io(text)),
    }
}

/// The draft of an icon from what decoding its payload gave and from the
/// directory found for it.
pub fn save_decoded_icon(
    decoded: Result<Vec<u8>, StoreError>,
    dir: Result<Location, StoreError>,
) -> (r: Result<IconDraft, StoreError>)
    ensures
        draft_view(r) == drafted(
            match decoded {
                Ok(bytes) => Ok(bytes@),
                Err(e) => Err(e@),
            },
            dir_view(dir),
        ),
{
    let bytes = match decoded {
        Ok(bytes) => bytes,
        Err(e) => {
            return Err(e);
        },
    };
    match dir {
        Ok(dir) => Ok(IconDraft { bytes, dir }),
        Err(e) => Err(e),
    }
}

/// The draft of the icon that `base64_content` holds in standard base64,
/// white space around it set aside. A payload that does not decode gives a
/// `Decode` error with the decoder's description, whatever the directories;
/// else the icon is bound for the directory that icons are written to. The
/// file name that the caller proposes plays no part.
pub fn save_profile_icon(
    mode: BuildMode,
    base64_content: &str,
    _filename: &str,
    exe: &Option<Location>,
    cwd: &Option<Location>,
    app_data: &Result<Location, String>,
) -> (r: Result<IconDraft, StoreError>)
    ensures
        draft_view(r) == drafted(
            decoded(base64_content@),
            icon_dir(mode, exe.deep_view(), cwd.deep_view(), lookup_view(*app_data)),
        ),
{
    save_decoded_icon(decode_payload(base64_content), profile_icon_dir(mode, exe, cwd, app_data))
}

impl IconDraft {
    /// The saving of this icon at `now_millis`, the milliseconds since the
    /// epoch, after which the file is named.
    pub fn saved_at(self, now_millis: u128) -> (save: IconSave)
        ensures
            save@ == planned_saving(self@, now_millis as nat),
    {
        let file_name = generated_icon_name(now_millis);
        let file = self.dir.join(file_name.as_str());
        let mut steps: Vec<FileStep> = Vec::new();
        push_step(&mut steps, FileStep::create_dir(self.dir));
        push_step(&mut steps, FileStep::write_bytes(file, self.bytes));
        assert(steps.deep_view() =~= planned_saving(self@, now_millis as nat).plan.steps);
        IconSave { plan: Plan::new(steps, None), logical_path: logical_icon_path(file_name.as_str()) }
    }

    /// The saving of this icon at the time that the clock gave: `Ok` with
    /// the milliseconds since the epoch, or `Err` with the reason where the
    /// clock stands before the epoch. A clock that cannot be read gives an
    /// `Io` failure with that reason, and nothing is saved.
    pub fn saved_at_reading(self, now: Result<u128, String>) -> (r: Result<IconSave, StoreError>)
        ensures
            saving_view(r) == timed_saving(
                self@,
                match now {
                    Ok(millis) => Ok(millis as nat),
                    Err(text) => Err(text@),
                },
            ),
    {
        match now {
            Ok(millis) => Ok(self.saved_at(millis)),
            Err(text) => Err(StoreError::Io(text)),
        }
    }
}

/// The plan that deletes the icon that `path` names: nothing for a path
/// that is not managed; else the icon directory is created and the file
/// removed if it is there. Where the directory cannot be had, there is no
/// file to remove: nothing is done, and no failure is reported.
pub open spec fn delete_outline(path: Seq<char>, dir: Result<Place, Failure>) -> Outline {
    match dir {
        Ok(dir) if is_managed(path) => Outline {
            steps: seq![
                Step { target: dir, action: Action::CreateDir, reported: false },
                Step {
                    target: dir.join(icon_name(path)),
                    action: Action::RemoveIfPresent,
                    reported: true,
                },
            ],
            failure: None,
        },
        _ => Outline { steps: Seq::empty(), failure: None },
    }
}

/// The plan that deletes the icon that `icon_path` names.
pub fn delete_profile_icon(
    mode: BuildMode,
    icon_path: &str,
    exe: &Option<Location>,
    cwd: &Option<Location>,
    app_data: &Result<Location, String>,
) -> (plan: Plan)
    ensures
        plan@ == delete_outline(
            icon_path@,
            icon_dir(mode, exe.deep_view(), cwd.deep_view(), lookup_view(*app_data)),
        ),
{
    let name = match icon_file_name(icon_path) {
        Some(name) => name,
        None => {
            return Plan::empty();
        },
    };
    match profile_icon_dir(mode, exe, cwd, app_data) {
        Ok(dir) => {
            let file = dir.join(name.as_str());
            let mut steps: Vec<FileStep> = Vec::new();
            push_step(&mut steps, FileStep::create_dir(dir));
            push_step(&mut steps, FileStep::remove_if_present(file));
            assert(steps.deep_view() =~= delete_outline(icon_path@, Ok(dir@)).steps);
            Plan::new(steps, None)
        },
        Err(_) => Plan::empty(),
    }
}

/// The path that the front end is given for `path`: the display form of
/// the file found for a managed path, the path itself where none was found
/// or the path is not managed.
pub open spec fn shown_icon_path(
    platform: Platform,
    path: Seq<char>,
    resolved: Option<Seq<char>>,
) -> Seq<char> {
    match resolved {
        Some(file) if is_managed(path) => display_form(platform, file),
        _ => path,
    }
}

/// The path that the front end is given for `icon_path`, where `resolved`
/// is the path of the file found for it, if one was.
pub fn get_profile_icon_path(
    platform: Platform,
    icon_path: &str,
    resolved: Option<&str>,
) -> (r: String)
    ensures
        r@ == shown_icon_path(
            platform,
            icon_path@,
            match resolved {
                Some(file) => Some(file@),
                None => None,
            },
        ),
{
    if !is_icon_path(icon_path) {
        return String::from_str(icon_path);
    }
    match resolved {
        Some(file) => {
            if icon_file_name(icon_path).is_some() {
                path_to_display_string(platform, file)
            } else {
                String::from_str(icon_path)
            }
        },
        None => String::from_str(icon_path),
    }
}

/// The text before the base64 part of a PNG data URI.
pub open spec fn data_uri_head() -> Seq<char> {
    "data:image/png;base64,"@
}

/// The PNG data URI whose base64 part is `encoded`.
pub fn data_uri(encoded: &str) -> (r: String)
    ensures
        r@ == data_uri_head() + encoded@,
{
    String::from_str("data:image/png;base64,").concat(encoded)
}

/// What reading the file behind a managed icon gave, as plain values.
pub open spec fn read_view(
    file: Option<Result<Vec<u8>, String>>,
) -> Option<Result<Seq<u8>, Seq<char>>> {
    match file {
        Some(Ok(bytes)) => Some(Ok(bytes@)),
        Some(Err(text)) => Some(Err(text@)),
        None => None,
    }
}

/// What the front end is given as the icon's data: the path itself where
/// it is not managed; else `NotFound` where no file was found, the failure
/// of the read where it failed, and the data URI of the bytes read.
pub open spec fn icon_data(
    path: Seq<char>,
    file: Option<Result<Seq<u8>, Seq<char>>>,
) -> Result<Seq<char>, Failure> {
    if is_managed(path) {
        match file {
            None => Err(Failure::NotFound),
            Some(Err(text)) => Err(Failure::Io(text)),
            Some(Ok(bytes)) => Ok(data_uri_head() + standard_encoding(bytes)),
        }
    } else {
        Ok(path)
    }
}

/// What the front end is given as the data of the icon that `icon_path`
/// names, where `file` is `None` if no file was found for it and else what
/// reading the file gave.
pub fn get_profile_icon_base64(
    icon_path: &str,
    file: Option<Result<Vec<u8>, String>>,
) -> (r: Result<String, StoreError>)
    requires
        file matches Some(Ok(bytes)) ==> encodable(bytes@.len()),
    ensures
        match r {
            Ok(text) => icon_data(icon_path@, read_view(file)) == Ok::<Seq<char>, Failure>(text@),
            Err(e) => icon_data(icon_path@, read_view(file)) == Err::<Seq<char>, Failure>(e@),
        },
{
    if !is_icon_path(icon_path) {
        return Ok(String::from_str(icon_path));
    }
    if icon_file_name(icon_path).is_none() {
        return Ok(String::from_str(icon_path));
    }
    match file {
        None => Err(StoreError::NotFound),
        Some(Err(text)) => Err(StoreError::Io(text)),
        Some(Ok(bytes)) => {
            let encoded = encode_standard(&bytes);
            Ok(data_uri(encoded.as_str()))
        },
    }
}

/// The file of a managed icon whose name holds no slash or backslash lies
/// directly in the directory that it is looked for, saved to or deleted
/// from. Of a name that holds one this is not said: joined to a directory,
/// it names a file deeper down or, where it begins with one, elsewhere.
pub proof fn lemma_plain_name_lies_in_its_directory(path: Seq<char>, dir: Place)
    requires
        is_managed(path),
        !has_separator(icon_name(path)),
    ensures
        dir.join(icon_name(path)).parent() == Some(dir),
        candidate_in(Some(dir), icon_name(path))[0].parent() == Some(dir),
        delete_outline(path, Ok(dir)).steps[1].target.parent() == Some(dir),
{
    dir.lemma_parent_of_join(icon_name(path));
}

/// Deleting reports no failure and changes no file for a path that is not
/// managed, for a managed path whose directory cannot be had, and for a
/// managed path whose file is not there.
pub proof fn lemma_delete_of_missing_icon(
    path: Seq<char>,
    dir: Result<Place, Failure>,
    outcomes: Seq<Result<(), Seq<char>>>,
    files: Map<Place, Contents>,
)
    requires
        is_managed(path) && dir is Ok ==> !files.contains_key(dir->Ok_0.join(icon_name(path))),
        delete_outline(path, dir).possible(outcomes, files),
    ensures
        delete_outline(path, dir).reply(outcomes) is Ok,
        delete_outline(path, dir).files_after(outcomes, files) == files,
{
    reveal_with_fuel(Outline::files_from, 3);
    reveal_with_fuel(Outline::reply_from, 3);
    reveal_with_fuel(Outline::possible_from, 3);
    if is_managed(path) && dir is Ok {
        let file = dir->Ok_0.join(icon_name(path));
        assert(files.remove(file) =~= files);
    }
}

/// Icons saved at different milliseconds get different file names,
/// different logical paths and different files, and saving the second
/// does not touch the first.
pub proof fn lemma_saves_at_different_times(
    first: nat,
    second: nat,
    bytes: Seq<u8>,
    first_dir: Place,
    second_dir: Place,
)
    requires
        first != second,
    ensures
        icon_name_at(first) != icon_name_at(second),
        icon_prefix() + icon_name_at(first) != icon_prefix() + icon_name_at(second),
        first_dir.join(icon_name_at(first)) != second_dir.join(icon_name_at(second)),
        !planned_saving(Draft { bytes, dir: second_dir }, second).plan.touches(
            first_dir.join(icon_name_at(first)),
        ),
{
    lemma_decimal_distinct(first, second);
    let a = icon_name_at(first);
    let b = icon_name_at(second);
    if a == b {
        assert(decimal(first) =~= a.take(decimal(first).len() as int));
        assert(decimal(second) =~= b.take(decimal(second).len() as int));
    }
    if icon_prefix() + a == icon_prefix() + b {
        assert(a =~= (icon_prefix() + a).skip(icon_prefix().len() as int));
        assert(b =~= (icon_prefix() + b).skip(icon_prefix().len() as int));
    }
    if first_dir.join(a) == second_dir.join(b) {
        assert(first_dir.names.push(a).last() == a);
        assert(second_dir.names.push(b).last() == b);
    }
}

/// Where no file was found behind a path, the path lookup hands the path
/// back, while the data lookup reports `NotFound` if the path is managed.
pub proof fn lemma_missing_icon(platform: Platform, path: Seq<char>)
    ensures
        shown_icon_path(platform, path, None) == path,
        is_managed(path) ==> icon_data(path, None) == Err::<Seq<char>, Failure>(Failure::NotFound),
        !is_managed(path) ==> icon_data(path, None) == Ok::<Seq<char>, Failure>(path),
{
}

} // verus!
