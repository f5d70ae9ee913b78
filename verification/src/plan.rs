//! Plans: the file-system steps of one operation, in order, and the rule by
//! which the steps' outcomes decide what the caller is told.

use vstd::prelude::*;
use vstd::string::StringExecFns;
use crate::error::{Failure, StoreError};
use crate::location::{Location, Place};

verus! {

/// What one step does to its target.
#[derive(Debug, PartialEq, Eq)]
pub enum FileAction {
    /// Create the directory and every missing directory above it.
    CreateDir,
    /// Replace the file's contents by this text.
    WriteText(String),
    /// Replace the file's contents by these bytes.
    WriteBytes(Vec<u8>),
    /// Remove the file if it is there; a missing file is no failure.
    RemoveIfPresent,
}

/// What a [`FileAction`] holds, as plain values.
pub enum Action {
    CreateDir,
    WriteText(Seq<char>),
    WriteBytes(Seq<u8>),
    RemoveIfPresent,
}

impl View for FileAction {
    type V = Action;

    open spec fn view(&self) -> Action {
        match self {
            FileAction::CreateDir => Action::CreateDir,
            FileAction::WriteText(text) => Action::WriteText(text@),
            FileAction::WriteBytes(bytes) => Action::WriteBytes(bytes@),
            FileAction::RemoveIfPresent => Action::RemoveIfPresent,
        }
    }
}

/// One step of a plan.
#[derive(Debug, PartialEq, Eq)]
pub struct FileStep {
    /// The directory or file that the step works on.
    pub target: Location,
    /// What is done to it.
    pub action: FileAction,
    /// Whether a failure of this step is reported to the caller. The failure
    /// of any other step is passed over. The run goes on either way.
    pub reported: bool,
}

/// What a [`FileStep`] holds, as plain values.
pub struct Step {
    pub target: Place,
    pub action: Action,
    pub reported: bool,
}

/// What a file holds.
pub enum Contents {
    Text(Seq<char>),
    Bytes(Seq<u8>),
}

impl Step {
    /// Whether the step, when it succeeds, changes or removes the file at `place`.
    pub open spec fn touches(self, place: Place) -> bool {
        self.target == place && !(self.action is CreateDir)
    }

    /// The files once the step has succeeded.
    pub open spec fn apply(self, files: Map<Place, Contents>) -> Map<Place, Contents> {
        match self.action {
            Action::CreateDir => files,
            Action::WriteText(text) => files.insert(self.target, Contents::Text(text)),
            Action::WriteBytes(bytes) => files.insert(self.target, Contents::Bytes(bytes)),
            Action::RemoveIfPresent => files.remove(self.target),
        }
    }
}

impl View for FileStep {
    type V = Step;

    open spec fn view(&self) -> Step {
        Step { target: self.target@, action: self.action@, reported: self.reported }
    }
}

impl DeepView for FileStep {
    type V = Step;

    open spec fn deep_view(&self) -> Step {
        self@
    }
}

impl FileStep {
    /// The step that creates the directory `dir`; its failure is passed over.
    pub fn create_dir(dir: Location) -> (step: FileStep)
        ensures
            step@ == (Step { target: dir@, action: Action::CreateDir, reported: false }),
    {
        FileStep { target: dir, action: FileAction::CreateDir, reported: false }
    }

    /// The step that writes `text` to `file`.
    pub fn write_text(file: Location, text: &str, reported: bool) -> (step: FileStep)
        ensures
            step@ == (Step { target: file@, action: Action::WriteText(text@), reported }),
    {
        FileStep { target: file, action: FileAction::WriteText(String::from_str(text)), reported }
    }

    /// The step that writes `bytes` to `file`; its failure is reported.
    pub fn write_bytes(file: Location, bytes: Vec<u8>) -> (step: FileStep)
        ensures
            step@ == (Step { target: file@, action: Action::WriteBytes(bytes@), reported: true }),
    {
        FileStep { target: file, action: FileAction::WriteBytes(bytes), reported: true }
    }

    /// The step that removes `file` if it is there; its failure is reported.
    pub fn remove_if_present(file: Location) -> (step: FileStep)
        ensures
            step@ == (Step { target: file@, action: Action::RemoveIfPresent, reported: true }),
    {
        FileStep { target: file, action: FileAction::RemoveIfPresent, reported: true }
    }
}

/// Appends `step` to `steps`.
pub fn push_step(steps: &mut Vec<FileStep>, step: FileStep)
    ensures
        final(steps).deep_view() == old(steps).deep_view().push(step@),
{
    steps.push(step);
}

/// Appends the steps in `more` to `steps`.
pub fn extend(steps: &mut Vec<FileStep>, more: Vec<FileStep>)
    ensures
        final(steps).deep_view() == old(steps).deep_view() + more.deep_view(),
{
    let mut more = more;
    steps.append(&mut more);
}

/// The steps of one operation and what follows them. The steps are run in
/// order, every one of them whatever the earlier ones came to. The caller is
/// told the first failure among the steps whose failure is reported; where
/// none of those failed, `failure` if there is one; and else that all went
/// well.
#[derive(Debug, PartialEq, Eq)]
pub struct Plan {
    pub steps: Vec<FileStep>,
    pub failure: Option<StoreError>,
}

/// What a [`Plan`] holds, as plain values.
pub struct Outline {
    pub steps: Seq<Step>,
    pub failure: Option<Failure>,
}

/// Where a run stands.
#[derive(Debug, PartialEq, Eq)]
pub enum Progress {
    /// The step with this index is to be run next. With it goes the failure
    /// that the run has to report so far, if there is one.
    Perform(usize, Option<StoreError>),
    /// The run is over, with this result.
    Done(Result<(), StoreError>),
}

/// What a [`Progress`] holds, as plain values.
pub enum Stage {
    Perform(int, Option<Failure>),
    Done(Result<(), Failure>),
}

impl View for Progress {
    type V = Stage;

    open spec fn view(&self) -> Stage {
        match self {
            Progress::Perform(index, earlier) => Stage::Perform(*index as int, earlier.deep_view()),
            Progress::Done(Ok(())) => Stage::Done(Ok(())),
            Progress::Done(Err(e)) => Stage::Done(Err(e@)),
        }
    }
}

impl Outline {
    /// This plan and then `next`: the steps of both, and the failure that
    /// this plan ends with, or else the one that `next` ends with.
    pub open spec fn followed_by(self, next: Outline) -> Outline {
        Outline {
            steps: self.steps + next.steps,
            failure: if self.failure is Some {
                self.failure
            } else {
                next.failure
            },
        }
    }

    /// What the caller is told once the last step is behind, where `earlier`
    /// is the failure that the run has to report so far.
    pub open spec fn ending(self, earlier: Option<Failure>) -> Result<(), Failure> {
        match earlier {
            Some(failure) => Err(failure),
            None => match self.failure {
                Some(failure) => Err(failure),
                None => Ok(()),
            },
        }
    }

    /// Where the run stands once the first `count` steps are behind, with
    /// `earlier` to report so far.
    pub open spec fn stage_at(self, count: int, earlier: Option<Failure>) -> Stage {
        if count < self.steps.len() {
            Stage::Perform(count, earlier)
        } else {
            Stage::Done(self.ending(earlier))
        }
    }

    /// The failure that the run has to report once step `done` has ended
    /// with `outcome`: the one it had to report before, or else the failure
    /// of this step if it failed and is one whose failure is reported.
    pub open spec fn to_report(
        self,
        done: int,
        earlier: Option<Failure>,
        outcome: Result<(), Seq<char>>,
    ) -> Option<Failure> {
        match earlier {
            Some(failure) => Some(failure),
            None => match outcome {
                Err(text) if 0 <= done < self.steps.len() && self.steps[done].reported => Some(
                    Failure::Io(text),
                ),
                _ => None,
            },
        }
    }

    /// Where the run stands once step `done` has ended with `outcome`: at
    /// the next step, or at its end once the last step is behind. No failure
    /// ends the run before that.
    pub open spec fn stage_after(
        self,
        done: int,
        earlier: Option<Failure>,
        outcome: Result<(), Seq<char>>,
    ) -> Stage {
        self.stage_at(done + 1, self.to_report(done, earlier, outcome))
    }

    /// What the caller is told at the end of the run in which step `k` ends
    /// with `outcomes[k]`, seen from step `at` on with `earlier` to report
    /// so far.
    pub open spec fn reply_from(
        self,
        at: int,
        earlier: Option<Failure>,
        outcomes: Seq<Result<(), Seq<char>>>,
    ) -> Result<(), Failure>
        decreases self.steps.len() - at,
    {
        if 0 <= at < self.steps.len() {
            self.reply_from(at + 1, self.to_report(at, earlier, outcomes[at]), outcomes)
        } else {
            self.ending(earlier)
        }
    }

    /// What the caller is told at the end of the run in which step `k` ends
    /// with `outcomes[k]`.
    pub open spec fn reply(self, outcomes: Seq<Result<(), Seq<char>>>) -> Result<(), Failure> {
        self.reply_from(0, None, outcomes)
    }

    /// The files at the end of the run in which step `k` ends with
    /// `outcomes[k]`, seen from step `at` on. A step that fails is taken to
    /// leave the files as they were.
    pub open spec fn files_from(
        self,
        at: int,
        outcomes: Seq<Result<(), Seq<char>>>,
        files: Map<Place, Contents>,
    ) -> Map<Place, Contents>
        decreases self.steps.len() - at,
    {
        if 0 <= at < self.steps.len() {
            self.files_from(
                at + 1,
                outcomes,
                if outcomes[at] is Ok {
                    self.steps[at].apply(files)
                } else {
                    files
                },
            )
        } else {
            files
        }
    }

    /// The files at the end of the run in which step `k` ends with
    /// `outcomes[k]`, begun on `files`.
    pub open spec fn files_after(
        self,
        outcomes: Seq<Result<(), Seq<char>>>,
        files: Map<Place, Contents>,
    ) -> Map<Place, Contents> {
        self.files_from(0, outcomes, files)
    }

    /// Whether the run in which step `k` ends with `outcomes[k]` can happen
    /// on `files`, seen from step `at` on: removing a file that is not there
    /// does not fail.
    pub open spec fn possible_from(
        self,
        at: int,
        outcomes: Seq<Result<(), Seq<char>>>,
        files: Map<Place, Contents>,
    ) -> bool
        decreases self.steps.len() - at,
    {
        if 0 <= at < self.steps.len() {
            let step = self.steps[at];
            &&& step.action is RemoveIfPresent && !files.contains_key(step.target)
                ==> outcomes[at] is Ok
            &&& self.possible_from(
                at + 1,
                outcomes,
                if outcomes[at] is Ok {
                    step.apply(files)
                } else {
                    files
                },
            )
        } else {
            true
        }
    }

    /// Whether the run in which step `k` ends with `outcomes[k]` can happen
    /// when it begins on `files`.
    pub open spec fn possible(
        self,
        outcomes: Seq<Result<(), Seq<char>>>,
        files: Map<Place, Contents>,
    ) -> bool {
        self.possible_from(0, outcomes, files)
    }

    /// Whether some step of the plan changes or removes the file at `place`.
    pub open spec fn touches(self, place: Place) -> bool {
        exists|k: int| 0 <= k < self.steps.len() && (#[trigger] self.steps[k]).touches(place)
    }

    /// A file that no step touches is after the run what it was before,
    /// however the steps end.
    pub proof fn lemma_untouched(
        self,
        at: int,
        outcomes: Seq<Result<(), Seq<char>>>,
        files: Map<Place, Contents>,
        place: Place,
    )
        requires
            0 <= at,
            !self.touches(place),
        ensures
            self.files_from(at, outcomes, files).contains_key(place) == files.contains_key(place),
            self.files_from(at, outcomes, files)[place] == files[place],
        decreases self.steps.len() - at,
    {
        if at < self.steps.len() {
            let step = self.steps[at];
            let now = if outcomes[at] is Ok {
                step.apply(files)
            } else {
                files
            };
            self.lemma_untouched(at + 1, outcomes, now, place);
        }
    }
}

impl View for Plan {
    type V = Outline;

    open spec fn view(&self) -> Outline {
        Outline { steps: self.steps.deep_view(), failure: self.failure.deep_view() }
    }
}

impl Plan {
    /// The plan with these steps and this ending.
    pub fn new(steps: Vec<FileStep>, failure: Option<StoreError>) -> (plan: Plan)
        ensures
            plan@ == (Outline { steps: steps.deep_view(), failure: failure.deep_view() }),
    {
        Plan { steps, failure }
    }

    /// The plan that does nothing and ends well.
    pub fn empty() -> (plan: Plan)
        ensures
            plan@ == (Outline { steps: Seq::empty(), failure: None }),
    {
        let plan = Plan { steps: Vec::new(), failure: None };
        assert(plan.steps.deep_view() =~= Seq::empty());
        plan
    }

    /// The plan that does nothing and ends with `failure`.
    pub fn failed(failure: StoreError) -> (plan: Plan)
        ensures
            plan@ == (Outline { steps: Seq::empty(), failure: Some(failure@) }),
    {
        let plan = Plan { steps: Vec::new(), failure: Some(failure) };
        assert(plan.steps.deep_view() =~= Seq::empty());
        plan
    }

    /// This plan and then `next`.
    pub fn followed_by(self, next: Plan) -> (plan: Plan)
        ensures
            plan@ == self@.followed_by(next@),
    {
        let mut steps = self.steps;
        extend(&mut steps, next.steps);
        let failure = if self.failure.is_some() {
            self.failure
        } else {
            next.failure
        };
        Plan { steps, failure }
    }

    /// Where the run stands once the first `count` steps are behind, with
    /// `earlier` to report so far.
    fn stage_at(&self, count: usize, earlier: Option<StoreError>) -> (next: Progress)
        ensures
            next@ == self@.stage_at(count as int, earlier.deep_view()),
    {
        if count < self.steps.len() {
            Progress::Perform(count, earlier)
        } else {
            match earlier {
                Some(failure) => Progress::Done(Err(failure)),
                None => match &self.failure {
                    Some(failure) => Progress::Done(Err(failure.duplicate())),
                    None => Progress::Done(Ok(())),
                },
            }
        }
    }

    /// Where the run begins: at the first step, or at its end if the plan
    /// has no step.
    pub fn start(&self) -> (next: Progress)
        ensures
            next@ == self@.stage_at(0, None),
    {
        self.stage_at(0, None)
    }

    /// Where the run stands once step `done` has ended with `outcome`,
    /// where `earlier` is what the run had to report before that step: at
    /// the next step, or at its end once the last step is behind. A failure
    /// of a step whose failure is reported is kept for the end, unless an
    /// earlier one is kept already.
    pub fn advance(
        &self,
        done: usize,
        earlier: Option<StoreError>,
        outcome: Result<(), String>,
    ) -> (next: Progress)
        ensures
            next@ == self@.stage_after(
                done as int,
                earlier.deep_view(),
                match outcome {
                    Ok(()) => Ok(()),
                    Err(text) => Err(text@),
                },
            ),
    {
        if done >= self.steps.len() {
            return self.stage_at(self.steps.len(), earlier);
        }
        let kept = match earlier {
            Some(failure) => Some(failure),
            None => match outcome {
                Err(text) => {
                    if self.steps[done].reported {
                        Some(StoreError::Io(text))
                    } else {
                        None
                    }
                },
                Ok(()) => None,
            },
        };
        self.stage_at(done + 1, kept)
    }
}

} // verus!
