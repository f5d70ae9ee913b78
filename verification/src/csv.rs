//! The CSV master files: their names, the rule that keeps a header-only
//! payload from replacing the project's copy, and the plans that save them.

use vstd::prelude::*;
use vstd::string::StringExecFns;
use crate::error::Failure;
use crate::location::{Location, Place};
use crate::plan::{extend, push_step, Action, Contents, FileStep, Outline, Plan, Step};
use crate::resolver::{
    app_data_data_dir,
    app_data_dir,
    lookup_view,
    project_data_dir,
    project_public_data_dir,
};
use crate::text::{is_white_space, is_whitespace, lemma_trimmed, trimmed};
use crate::BuildMode;

verus! {

/// The master files that the backend keeps.
#[derive(Clone, Copy, Debug, PartialEq, Eq, Structural)]
pub enum Dataset {
    Account,
    Category,
    Tag,
    User,
    ColorPalette,
}

impl Dataset {
    /// The name of the file that holds the dataset.
    pub open spec fn file_name_text(self) -> Seq<char> {
        match self {
            Dataset::Account => "ACCOUNT.csv"@,
            Dataset::Category => "CATEGORY.csv"@,
            Dataset::Tag => "TAG.csv"@,
            Dataset::User => "USER.csv"@,
            Dataset::ColorPalette => "COLOR_PALETTE.csv"@,
        }
    }

    /// The name of the file that holds the dataset.
    pub fn file_name(self) -> (name: &'static str)
        ensures
            name@ == self.file_name_text(),
    {
        match self {
            Dataset::Account => "ACCOUNT.csv",
            Dataset::Category => "CATEGORY.csv",
            Dataset::Tag => "TAG.csv",
            Dataset::User => "USER.csv",
            Dataset::ColorPalette => "COLOR_PALETTE.csv",
        }
    }
}

/// Whether the last line of `s`, the one that no line feed has ended yet,
/// holds a character other than white space.
pub open spec fn open_line_has_content(s: Seq<char>) -> bool
    decreases s.len(),
{
    if s.len() == 0 || s.last() == '\n' {
        false
    } else {
        !is_white_space(s.last()) || open_line_has_content(s.drop_last())
    }
}

/// The number of lines of `s` that a line feed ends and that hold a
/// character other than white space.
pub open spec fn ended_lines_with_content(s: Seq<char>) -> nat
    decreases s.len(),
{
    if s.len() == 0 {
        0
    } else {
        ended_lines_with_content(s.drop_last()) + if s.last() == '\n' && open_line_has_content(
            s.drop_last(),
        ) {
            1nat
        } else {
            0nat
        }
    }
}

/// The number of lines of `s` that are not blank: that hold a character
/// other than white space. Lines end at line feeds.
pub open spec fn non_blank_lines(s: Seq<char>) -> nat {
    ended_lines_with_content(s) + if open_line_has_content(s) {
        1nat
    } else {
        0nat
    }
}

/// Whether `s` holds more than a header: at least two lines that are not blank.
pub open spec fn has_data_lines(s: Seq<char>) -> bool {
    non_blank_lines(s) >= 2
}

/// A text has at least as many non-blank lines as each of its beginnings.
pub proof fn lemma_non_blank_lines_grow(s: Seq<char>, n: int)
    requires
        0 <= n <= s.len(),
    ensures
        non_blank_lines(s.take(n)) <= non_blank_lines(s),
    decreases s.len() - n,
{
    if n == s.len() {
        assert(s.take(n) == s);
    } else {
        lemma_non_blank_lines_grow(s, n + 1);
        assert(s.take(n + 1).drop_last() == s.take(n));
    }
}

/// Whether a line feed stands somewhere between two characters of `s` that
/// are no white space.
pub open spec fn line_feed_inside(s: Seq<char>) -> bool {
    exists|i: int, j: int, k: int|
        #![trigger s[i], s[j], s[k]]
        0 <= i < j < k < s.len() && !is_white_space(s[i]) && s[j] == '\n' && !is_white_space(s[k])
}

/// A text has a line that is not blank exactly when it holds a character
/// that is no white space.
proof fn lemma_one_line(s: Seq<char>)
    ensures
        non_blank_lines(s) >= 1 <==> exists|i: int|
            0 <= i < s.len() && !is_white_space(#[trigger] s[i]),
    decreases s.len(),
{
    if s.len() > 0 {
        let rest = s.drop_last();
        lemma_one_line(rest);
        if non_blank_lines(s) >= 1 {
            if non_blank_lines(rest) >= 1 {
                let i = choose|i: int| 0 <= i < rest.len() && !is_white_space(#[trigger] rest[i]);
                assert(!is_white_space(s[i]));
            } else {
                assert(!is_white_space(s[s.len() - 1]));
            }
        }
        if exists|i: int| 0 <= i < s.len() && !is_white_space(#[trigger] s[i]) {
            let i = choose|i: int| 0 <= i < s.len() && !is_white_space(#[trigger] s[i]);
            if i < rest.len() {
                assert(!is_white_space(rest[i]));
            }
        }
    }
}

/// A text has an ended line that is not blank exactly when a line feed
/// follows a character that is no white space.
proof fn lemma_ended_line(s: Seq<char>)
    ensures
        ended_lines_with_content(s) >= 1 <==> exists|i: int, j: int|
            #![trigger s[i], s[j]]
            0 <= i < j < s.len() && !is_white_space(s[i]) && s[j] == '\n',
    decreases s.len(),
{
    if s.len() > 0 {
        let rest = s.drop_last();
        let last = s.len() - 1;
        lemma_ended_line(rest);
        lemma_one_line(rest);
        if ended_lines_with_content(s) >= 1 {
            if ended_lines_with_content(rest) >= 1 {
                let (i, j) = choose|i: int, j: int|
                    #![trigger rest[i], rest[j]]
                    0 <= i < j < rest.len() && !is_white_space(rest[i]) && rest[j] == '\n';
                assert(!is_white_space(s[i]) && s[j] == '\n');
            } else {
                let i = choose|i: int| 0 <= i < rest.len() && !is_white_space(#[trigger] rest[i]);
                assert(!is_white_space(s[i]) && s[last] == '\n');
            }
        }
        if exists|i: int, j: int|
            #![trigger s[i], s[j]]
            0 <= i < j < s.len() && !is_white_space(s[i]) && s[j] == '\n' {
            let (i, j) = choose|i: int, j: int|
                #![trigger s[i], s[j]]
                0 <= i < j < s.len() && !is_white_space(s[i]) && s[j] == '\n';
            if j < last {
                assert(!is_white_space(rest[i]) && rest[j] == '\n');
            } else {
                assert(!is_white_space(rest[i]));
            }
        }
    }
}

/// A text holds more than a header exactly when a line feed stands between
/// two of its characters that are no white space.
pub proof fn lemma_data_lines(s: Seq<char>)
    ensures
        has_data_lines(s) <==> line_feed_inside(s),
    decreases s.len(),
{
    if s.len() > 0 {
        let rest = s.drop_last();
        let last = s.len() - 1;
        lemma_data_lines(rest);
        lemma_ended_line(rest);
        if has_data_lines(s) {
            if has_data_lines(rest) {
                let (i, j, k) = choose|i: int, j: int, k: int|
                    #![trigger rest[i], rest[j], rest[k]]
                    0 <= i < j < k < rest.len() && !is_white_space(rest[i]) && rest[j] == '\n'
                        && !is_white_space(rest[k]);
                assert(!is_white_space(s[i]) && s[j] == '\n' && !is_white_space(s[k]));
            } else {
                let (i, j) = choose|i: int, j: int|
                    #![trigger rest[i], rest[j]]
                    0 <= i < j < rest.len() && !is_white_space(rest[i]) && rest[j] == '\n';
                assert(!is_white_space(s[i]) && s[j] == '\n' && !is_white_space(s[last]));
            }
        }
        if line_feed_inside(s) {
            let (i, j, k) = choose|i: int, j: int, k: int|
                #![trigger s[i], s[j], s[k]]
                0 <= i < j < k < s.len() && !is_white_space(s[i]) && s[j] == '\n'
                    && !is_white_space(s[k]);
            if k < last {
                assert(!is_white_space(rest[i]) && rest[j] == '\n' && !is_white_space(rest[k]));
            } else {
                assert(!is_white_space(rest[i]) && rest[j] == '\n');
            }
        }
    }
}

/// A text holds more than a header exactly when a line feed is left in it
/// once the white space around it is trimmed, that is, when the trimmed
/// text has two lines or more.
pub proof fn lemma_data_lines_by_trimming(s: Seq<char>)
    ensures
        has_data_lines(s) <==> trimmed(s).contains('\n'),
{
    lemma_data_lines(s);
    let (from, to) = lemma_trimmed(s);
    let kept = trimmed(s);
    if kept.contains('\n') {
        let at = choose|at: int| 0 <= at < kept.len() && kept[at] == '\n';
        assert(kept[0] == s[from]);
        assert(kept[to - from - 1] == s[to - 1]);
        assert(s[from + at] == '\n');
        assert(!is_white_space(s[from]) && s[from + at] == '\n' && !is_white_space(s[to - 1]));
    }
    if line_feed_inside(s) {
        let (i, j, k) = choose|i: int, j: int, k: int|
            #![trigger s[i], s[j], s[k]]
            0 <= i < j < k < s.len() && !is_white_space(s[i]) && s[j] == '\n' && !is_white_space(
                s[k],
            );
        assert(from <= i);
        assert(k < to);
        assert(kept[j - from] == '\n');
    }
}

/// Whether `csv` holds more than a header: at least two lines that are not
/// blank.
pub fn csv_has_data_lines(csv: &str) -> (r: bool)
    ensures
        r == has_data_lines(csv@),
{
    // Whether a line that is not blank has ended, and whether the line that
    // is being read is not blank. Once both hold, there are two.
    let mut ended: bool = false;
    let mut content: bool = false;
    for c in it: csv.chars()
        invariant
            it.seq() == csv@,
            ended_lines_with_content(it.seq().take(it.index())) == if ended {
                1nat
            } else {
                0nat
            },
            content == open_line_has_content(it.seq().take(it.index())),
            !(ended && content),
    {
        proof {
            let seen = csv@.take(it.index() + 1);
            assert(seen.drop_last() == csv@.take(it.index()));
        }
        if c == '\n' {
            if content {
                ended = true;
            }
            content = false;
        } else if !is_whitespace(c) {
            content = true;
        }
        if ended && content {
            proof {
                lemma_non_blank_lines_grow(csv@, it.index() + 1);
            }
            return true;
        }
    }
    assert(csv@.take(csv@.len() as int) == csv@);
    false
}

/// The step that creates `dir`, passing over a failure.
pub open spec fn create_step(dir: Place) -> Step {
    Step { target: dir, action: Action::CreateDir, reported: false }
}

/// The step that writes `contents` to the file `name` in `dir`.
pub open spec fn write_step(
    dir: Place,
    name: Seq<char>,
    contents: Seq<char>,
    reported: bool,
) -> Step {
    Step { target: dir.join(name), action: Action::WriteText(contents), reported }
}

/// The steps that mirror a payload into the project's data directory: none
/// outside a development build or where the directory cannot be had; else
/// the directory is created, and the file is written if the payload holds
/// more than a header. No failure of theirs is reported.
pub open spec fn mirror_steps(
    mode: BuildMode,
    exe: Option<Place>,
    name: Seq<char>,
    contents: Seq<char>,
) -> Seq<Step> {
    if mode == BuildMode::Development && project_data_dir(exe) is Some {
        let dir = project_data_dir(exe)->0;
        if has_data_lines(contents) {
            seq![create_step(dir), write_step(dir, name, contents, false)]
        } else {
            seq![create_step(dir)]
        }
    } else {
        Seq::empty()
    }
}

/// The plan that writes a payload to the application-data directory: the
/// directory is created and the file written, and a failure of the write is
/// reported. Where the directory cannot be had, nothing is done and that
/// failure is reported.
pub open spec fn store_outline(
    app_data: Result<Place, Seq<char>>,
    name: Seq<char>,
    contents: Seq<char>,
) -> Outline {
    match app_data_dir(app_data) {
        Ok(dir) => Outline {
            steps: seq![create_step(dir), write_step(dir, name, contents, true)],
            failure: None,
        },
        Err(failure) => Outline { steps: Seq::empty(), failure: Some(failure) },
    }
}

/// The plan that saves one payload: its mirror steps, then its store.
pub open spec fn named_outline(
    mode: BuildMode,
    exe: Option<Place>,
    app_data: Result<Place, Seq<char>>,
    name: Seq<char>,
    contents: Seq<char>,
) -> Outline {
    Outline { steps: mirror_steps(mode, exe, name, contents), failure: None }.followed_by(
        store_outline(app_data, name, contents),
    )
}

/// The plan that saves the three master payloads: the mirror steps of all
/// three, then the three stores in turn. Every store is attempted, whatever
/// the earlier ones came to, and the first of their failures is reported.
pub open spec fn master_outline(
    mode: BuildMode,
    exe: Option<Place>,
    app_data: Result<Place, Seq<char>>,
    account: Seq<char>,
    category: Seq<char>,
    tag: Seq<char>,
) -> Outline {
    Outline {
        steps: mirror_steps(mode, exe, Dataset::Account.file_name_text(), account) + mirror_steps(
            mode,
            exe,
            Dataset::Category.file_name_text(),
            category,
        ) + mirror_steps(mode, exe, Dataset::Tag.file_name_text(), tag),
        failure: None,
    }.followed_by(store_outline(app_data, Dataset::Account.file_name_text(), account)).followed_by(
        store_outline(app_data, Dataset::Category.file_name_text(), category),
    ).followed_by(store_outline(app_data, Dataset::Tag.file_name_text(), tag))
}

/// The steps that mirror `contents` into the file `filename` of the
/// project's data directory.
pub fn save_csv_to_public_if_has_data(
    mode: BuildMode,
    exe: &Option<Location>,
    filename: &str,
    contents: &str,
) -> (steps: Vec<FileStep>)
    ensures
        steps.deep_view() == mirror_steps(mode, exe.deep_view(), filename@, contents@),
{
    let mut steps: Vec<FileStep> = Vec::new();
    if mode == BuildMode::Development {
        if let Some(dir) = project_public_data_dir(exe) {
            let file = dir.join(filename);
            push_step(&mut steps, FileStep::create_dir(dir));
            if csv_has_data_lines(contents) {
                push_step(&mut steps, FileStep::write_text(file, contents, false));
            }
        }
    }
    steps
}

/// The plan that writes `contents` to the file `filename` of the
/// application-data directory.
pub fn save_csv_to_app_data(
    app_data: &Result<Location, String>,
    filename: &str,
    contents: &str,
) -> (plan: Plan)
    ensures
        plan@ == store_outline(lookup_view(*app_data), filename@, contents@),
{
    match app_data_data_dir(app_data) {
        Ok(dir) => {
            let file = dir.join(filename);
            let mut steps: Vec<FileStep> = Vec::new();
            push_step(&mut steps, FileStep::create_dir(dir));
            push_step(&mut steps, FileStep::write_text(file, contents, true));
            assert(steps.deep_view() =~= store_outline(
                lookup_view(*app_data),
                filename@,
                contents@,
            ).steps);
            Plan::new(steps, None)
        },
        Err(e) => Plan::failed(e),
    }
}

/// The plan that saves the payload `contents` of `dataset`.
pub fn save_named_csv(
    mode: BuildMode,
    exe: &Option<Location>,
    app_data: &Result<Location, String>,
    dataset: Dataset,
    contents: &str,
) -> (plan: Plan)
    ensures
        plan@ == named_outline(
            mode,
            exe.deep_view(),
            lookup_view(*app_data),
            dataset.file_name_text(),
            contents@,
        ),
{
    let name = dataset.file_name();
    let mirror = Plan::new(save_csv_to_public_if_has_data(mode, exe, name, contents), None);
    mirror.followed_by(save_csv_to_app_data(app_data, name, contents))
}

/// The plan that saves the account master.
pub fn save_account_csv(
    mode: BuildMode,
    exe: &Option<Location>,
    app_data: &Result<Location, String>,
    account: &str,
) -> (plan: Plan)
    ensures
        plan@ == named_outline(
            mode,
            exe.deep_view(),
            lookup_view(*app_data),
            "ACCOUNT.csv"@,
            account@,
        ),
{
    save_named_csv(mode, exe, app_data, Dataset::Account, account)
}

/// The plan that saves the category master.
pub fn save_category_csv(
    mode: BuildMode,
    exe: &Option<Location>,
    app_data: &Result<Location, String>,
    category: &str,
) -> (plan: Plan)
    ensures
        plan@ == named_outline(
            mode,
            exe.deep_view(),
            lookup_view(*app_data),
            "CATEGORY.csv"@,
            category@,
        ),
{
    save_named_csv(mode, exe, app_data, Dataset::Category, category)
}

/// The plan that saves the tag master.
pub fn save_tag_csv(
    mode: BuildMode,
    exe: &Option<Location>,
    app_data: &Result<Location, String>,
    tag: &str,
) -> (plan: Plan)
    ensures
        plan@ == named_outline(mode, exe.deep_view(), lookup_view(*app_data), "TAG.csv"@, tag@),
{
    save_named_csv(mode, exe, app_data, Dataset::Tag, tag)
}

/// The plan that saves the user master.
pub fn save_user_csv(
    mode: BuildMode,
    exe: &Option<Location>,
    app_data: &Result<Location, String>,
    user: &str,
) -> (plan: Plan)
    ensures
        plan@ == named_outline(mode, exe.deep_view(), lookup_view(*app_data), "USER.csv"@, user@),
{
    save_named_csv(mode, exe, app_data, Dataset::User, user)
}

/// The plan that saves the colour palette.
pub fn save_color_palette_csv(
    mode: BuildMode,
    exe: &Option<Location>,
    app_data: &Result<Location, String>,
    palette: &str,
) -> (plan: Plan)
    ensures
        plan@ == named_outline(
            mode,
            exe.deep_view(),
            lookup_view(*app_data),
            "COLOR_PALETTE.csv"@,
            palette@,
        ),
{
    save_named_csv(mode, exe, app_data, Dataset::ColorPalette, palette)
}

/// The plan that saves the account, category and tag masters together.
pub fn save_master_csv(
    mode: BuildMode,
    exe: &Option<Location>,
    app_data: &Result<Location, String>,
    account: &str,
    category: &str,
    tag: &str,
) -> (plan: Plan)
    ensures
        plan@ == master_outline(
            mode,
            exe.deep_view(),
            lookup_view(*app_data),
            account@,
            category@,
            tag@,
        ),
{
    let mut steps = save_csv_to_public_if_has_data(mode, exe, "ACCOUNT.csv", account);
    extend(&mut steps, save_csv_to_public_if_has_data(mode, exe, "CATEGORY.csv", category));
    extend(&mut steps, save_csv_to_public_if_has_data(mode, exe, "TAG.csv", tag));
    let mirrors = Plan::new(steps, None);
    mirrors.followed_by(save_csv_to_app_data(app_data, "ACCOUNT.csv", account)).followed_by(
        save_csv_to_app_data(app_data, "CATEGORY.csv", category),
    ).followed_by(save_csv_to_app_data(app_data, "TAG.csv", tag))
}

/// The file called `name` in the project's data directory.
pub open spec fn mirror_file(exe: Option<Place>, name: Seq<char>) -> Place {
    project_data_dir(exe)->0.join(name)
}

/// The file called `name` in the application-data directory.
pub open spec fn store_file(app_data: Result<Place, Seq<char>>, name: Seq<char>) -> Place {
    app_data_dir(app_data)->Ok_0.join(name)
}

/// Saving a payload that holds no more than a header leaves the project's
/// copy as it was, however the steps end: no step touches it. This needs
/// the application-data directory to be another directory than the
/// project's.
pub proof fn lemma_header_only_keeps_mirror(
    mode: BuildMode,
    exe: Option<Place>,
    app_data: Result<Place, Seq<char>>,
    name: Seq<char>,
    contents: Seq<char>,
    outcomes: Seq<Result<(), Seq<char>>>,
    files: Map<Place, Contents>,
)
    requires
        !has_data_lines(contents),
        project_data_dir(exe) is Some,
        app_data_dir(app_data) != Ok::<Place, Failure>(project_data_dir(exe)->0),
    ensures
        ({
            let plan = named_outline(mode, exe, app_data, name, contents);
            let mirror = mirror_file(exe, name);
            &&& !plan.touches(mirror)
            &&& plan.files_after(outcomes, files).contains_key(mirror) == files.contains_key(mirror)
            &&& plan.files_after(outcomes, files)[mirror] == files[mirror]
        }),
{
    let plan = named_outline(mode, exe, app_data, name, contents);
    let mirror = mirror_file(exe, name);
    assert forall|k: int| 0 <= k < plan.steps.len() implies !(#[trigger] plan.steps[k]).touches(
        mirror,
    ) by {
        let step = plan.steps[k];
        if step.action is WriteText {
            let dir = app_data_dir(app_data)->Ok_0;
            assert(dir.join(name).names.drop_last() == dir.names);
            assert(mirror.names.drop_last() == project_data_dir(exe)->0.names);
        }
    }
    plan.lemma_untouched(0, outcomes, files, mirror);
}

/// Saving a payload that holds more than a header makes it the contents of
/// the file in the application-data directory and, in a development build
/// that has a project directory, of the project's copy too, and reports no
/// failure. This needs the application-data directory to be known and the
/// writes to end well.
pub proof fn lemma_data_overwrites_both(
    mode: BuildMode,
    exe: Option<Place>,
    app_data: Result<Place, Seq<char>>,
    name: Seq<char>,
    contents: Seq<char>,
    outcomes: Seq<Result<(), Seq<char>>>,
    files: Map<Place, Contents>,
)
    requires
        has_data_lines(contents),
        app_data is Ok,
        forall|k: int|
            0 <= k < named_outline(mode, exe, app_data, name, contents).steps.len() && (
            #[trigger] named_outline(mode, exe, app_data, name, contents).steps[k]).action
                is WriteText ==> outcomes[k] is Ok,
    ensures
        ({
            let plan = named_outline(mode, exe, app_data, name, contents);
            let after = plan.files_after(outcomes, files);
            let stored = store_file(app_data, name);
            let mirror = mirror_file(exe, name);
            &&& plan.reply(outcomes) is Ok
            &&& after.contains_key(stored) && after[stored] == Contents::Text(contents)
            &&& mode == BuildMode::Development && project_data_dir(exe) is Some
                ==> after.contains_key(mirror) && after[mirror] == Contents::Text(contents)
        }),
{
    reveal_with_fuel(Outline::files_from, 5);
    reveal_with_fuel(Outline::reply_from, 5);
}

/// Saving the three masters leaves the project's copy of each payload that
/// holds no more than a header as it was, however the steps end and
/// whatever the other two payloads hold. This needs the application-data
/// directory to be another directory than the project's.
pub proof fn lemma_master_keeps_mirror_of_header_only(
    mode: BuildMode,
    exe: Option<Place>,
    app_data: Result<Place, Seq<char>>,
    account: Seq<char>,
    category: Seq<char>,
    tag: Seq<char>,
    kept: Dataset,
    outcomes: Seq<Result<(), Seq<char>>>,
    files: Map<Place, Contents>,
)
    requires
        kept == Dataset::Account && !has_data_lines(account) || kept == Dataset::Category
            && !has_data_lines(category) || kept == Dataset::Tag && !has_data_lines(tag),
        project_data_dir(exe) is Some,
        app_data_dir(app_data) != Ok::<Place, Failure>(project_data_dir(exe)->0),
    ensures
        ({
            let plan = master_outline(mode, exe, app_data, account, category, tag);
            let mirror = mirror_file(exe, kept.file_name_text());
            &&& !plan.touches(mirror)
            &&& plan.files_after(outcomes, files).contains_key(mirror) == files.contains_key(mirror)
            &&& plan.files_after(outcomes, files)[mirror] == files[mirror]
        }),
{
    reveal_strlit("ACCOUNT.csv");
    reveal_strlit("CATEGORY.csv");
    reveal_strlit("TAG.csv");
    let plan = master_outline(mode, exe, app_data, account, category, tag);
    let mirror = mirror_file(exe, kept.file_name_text());
    let project = project_data_dir(exe)->0;
    let first = mirror_steps(mode, exe, Dataset::Account.file_name_text(), account);
    let second = mirror_steps(mode, exe, Dataset::Category.file_name_text(), category);
    let third = mirror_steps(mode, exe, Dataset::Tag.file_name_text(), tag);
    let mirrors = first + second + third;
    let stores = store_outline(app_data, Dataset::Account.file_name_text(), account).steps
        + store_outline(app_data, Dataset::Category.file_name_text(), category).steps
        + store_outline(app_data, Dataset::Tag.file_name_text(), tag).steps;
    assert(plan.steps =~= mirrors + stores);
    assert(mirror.names.last() == kept.file_name_text());
    assert(mirror.names.drop_last() == project.names);
    assert forall|k: int| 0 <= k < plan.steps.len() implies !(#[trigger] plan.steps[k]).touches(
        mirror,
    ) by {
        let step = plan.steps[k];
        if k < first.len() {
            assert(step == first[k]);
        } else if k < first.len() + second.len() {
            assert(step == second[k - first.len()]);
        } else if k < mirrors.len() {
            assert(step == third[k - first.len() - second.len()]);
        } else {
            let dir = app_data_dir(app_data)->Ok_0;
            assert(step == stores[k - mirrors.len()]);
            assert(step.target == dir || step.target.names.drop_last() == dir.names) by {
                assert(dir.join(Dataset::Account.file_name_text()).names.drop_last() == dir.names);
                assert(dir.join(Dataset::Category.file_name_text()).names.drop_last()
                    == dir.names);
                assert(dir.join(Dataset::Tag.file_name_text()).names.drop_last() == dir.names);
            }
        }
        if step.action is WriteText && k < mirrors.len() {
            assert(step.target.names.last() != kept.file_name_text());
        }
    }
    plan.lemma_untouched(0, outcomes, files, mirror);
}

/// The failure that a write reports, if it failed.
pub open spec fn write_failure(outcome: Result<(), Seq<char>>) -> Option<Failure> {
    match outcome {
        Ok(()) => None,
        Err(text) => Some(Failure::Io(text)),
    }
}

/// Saving the three masters attempts every store, whatever the mirror
/// steps and the earlier stores came to: each payload whose write ends well
/// is the contents of its file afterwards. The caller is told the first
/// failure among the writes of the account, the category and the tag file,
/// in that order, and that all went well where none failed. This needs the
/// application-data directory to be known.
pub proof fn lemma_master_attempts_every_store(
    mode: BuildMode,
    exe: Option<Place>,
    app_data: Result<Place, Seq<char>>,
    account: Seq<char>,
    category: Seq<char>,
    tag: Seq<char>,
    outcomes: Seq<Result<(), Seq<char>>>,
    files: Map<Place, Contents>,
)
    requires
        app_data is Ok,
    ensures
        ({
            let plan = master_outline(mode, exe, app_data, account, category, tag);
            let stores = plan.steps.len() - 6;
            let after = plan.files_after(outcomes, files);
            let account_file = store_file(app_data, Dataset::Account.file_name_text());
            let category_file = store_file(app_data, Dataset::Category.file_name_text());
            let tag_file = store_file(app_data, Dataset::Tag.file_name_text());
            &&& stores >= 0
            &&& plan.steps[stores + 1] == write_step(
                app_data_dir(app_data)->Ok_0,
                Dataset::Account.file_name_text(),
                account,
                true,
            )
            &&& plan.steps[stores + 3] == write_step(
                app_data_dir(app_data)->Ok_0,
                Dataset::Category.file_name_text(),
                category,
                true,
            )
            &&& plan.steps[stores + 5] == write_step(
                app_data_dir(app_data)->Ok_0,
                Dataset::Tag.file_name_text(),
                tag,
                true,
            )
            &&& plan.reply(outcomes) == (if outcomes[stores + 1] is Err {
                Err::<(), Failure>(write_failure(outcomes[stores + 1])->0)
            } else if outcomes[stores + 3] is Err {
                Err::<(), Failure>(write_failure(outcomes[stores + 3])->0)
            } else if outcomes[stores + 5] is Err {
                Err::<(), Failure>(write_failure(outcomes[stores + 5])->0)
            } else {
                Ok::<(), Failure>(())
            })
            &&& outcomes[stores + 1] is Ok ==> after.contains_key(account_file)
                && after[account_file] == Contents::Text(account)
            &&& outcomes[stores + 3] is Ok ==> after.contains_key(category_file)
                && after[category_file] == Contents::Text(category)
            &&& outcomes[stores + 5] is Ok ==> after.contains_key(tag_file) && after[tag_file]
                == Contents::Text(tag)
        }),
{
    reveal_strlit("ACCOUNT.csv");
    reveal_strlit("CATEGORY.csv");
    reveal_strlit("TAG.csv");
    let account_file = store_file(app_data, Dataset::Account.file_name_text());
    let category_file = store_file(app_data, Dataset::Category.file_name_text());
    let tag_file = store_file(app_data, Dataset::Tag.file_name_text());
    assert(account_file != category_file && account_file != tag_file && category_file != tag_file)
        by {
        assert(account_file.names.last() == Dataset::Account.file_name_text());
        assert(category_file.names.last() == Dataset::Category.file_name_text());
        assert(tag_file.names.last() == Dataset::Tag.file_name_text());
    }
    reveal_with_fuel(Outline::files_from, 13);
    reveal_with_fuel(Outline::reply_from, 13);
}

} // verus!
