//! The search that locates a patch file before libpd opens it.
//!
//! Locating a patch asks the process and the file system questions (where is
//! the executable, is the patch file in this directory), and decides between
//! the answers. The decisions live here as a state machine: the caller
//! performs each [`PatchAction`] and answers with a [`PatchEvent`], until the
//! machine says [`PatchAction::Done`].
//!
//! A patch is looked for as follows. An absolute path is opened from its own
//! directory. A relative path (a single file name included) is tried in the
//! directory of the executable first, and then in the manifest directory:
//! in each, the parent path is followed and the patch file itself must be
//! there. libpd is asked to open a file only once it was found.
//! [`PatchSearch::chosen_location`] states the result of the whole search,
//! and [`lemma_search_opens_chosen_location`] proves that the machine reaches it.
use crate::error::{IoError, LibpdError};
use vstd::prelude::*;
use vstd::string::*;

verus! {

/// What the search is given about the path of the patch to open.
#[derive(Debug)]
pub struct PatchRequest {
    /// The last component of the path, if it has one.
    pub file_name: Option<String>,
    /// The path without its last component (empty for a single file name).
    pub parent: String,
    /// Whether that parent path is relative.
    pub parent_is_relative: bool,
    /// The directory to fall back on for relative paths.
    pub manifest_dir: String,
}

/// A directory in which the patch file may be: `root`, followed by the
/// relative path `sub` when there is one.
#[derive(Debug)]
pub struct PatchLocation {
    pub root: String,
    pub sub: Option<String>,
}

impl PatchLocation {
    /// Returns an equal location.
    pub fn duplicate(&self) -> (r: PatchLocation)
        ensures
            r == *self,
    {
        let sub = match &self.sub {
            Some(s) => Some(s.clone()),
            None => None,
        };
        PatchLocation { root: self.root.clone(), sub }
    }
}

/// The question that the search waits to have answered.
#[derive(Debug)]
pub enum PatchStage {
    /// Waiting for the directory of the running executable.
    AwaitExecutableDir,
    /// Waiting to learn whether the patch file is in `location`; when it is
    /// not, `fallback` is tried next, if there is one.
    AwaitProbe { location: PatchLocation, fallback: Option<PatchLocation> },
    /// Waiting for libpd to open the patch.
    AwaitOpen,
    /// The search has ended.
    Finished,
}

/// The state of a search for a patch file.
#[derive(Debug)]
pub struct PatchSearch {
    pub file_name: String,
    pub parent: String,
    pub parent_is_relative: bool,
    pub manifest_dir: String,
    pub stage: PatchStage,
}

/// What the caller reports back after performing an action.
#[derive(Debug)]
pub enum PatchEvent {
    /// The directory of the running executable, or `None` when it could
    /// not be found.
    ExecutableDir(Option<String>),
    /// Whether the patch file exists in the probed location.
    Probed(bool),
    /// Whether libpd opened the patch.
    Opened(bool),
}

/// What the search asks the caller to do next.
#[derive(Debug)]
pub enum PatchAction {
    /// Find the directory of the running executable.
    FindExecutableDir,
    /// Say whether the file `file_name` exists in `location`.
    Probe { location: PatchLocation, file_name: String },
    /// Ask libpd to open the file `name` in `directory`.
    Open { name: String, directory: PatchLocation },
    /// The search has ended with this outcome; on `Ok` the patch that the
    /// last `Open` gave is the result.
    Done(Result<(), LibpdError>),
}

/// The outcome of every failed search.
pub open spec fn failed() -> PatchAction {
    PatchAction::Done(Err(LibpdError::IoError(IoError::FailedToOpenPatch)))
}

impl PatchSearch {
    /// Whether the path is a single file name (its parent is empty).
    pub open spec fn is_bare_name(self) -> bool {
        self.parent@.len() == 0
    }

    /// The relative part that is followed from a root directory: the parent
    /// path, unless it is empty.
    pub open spec fn relative_part(self) -> Option<String> {
        if self.is_bare_name() {
            None
        } else {
            Some(self.parent)
        }
    }

    /// The directory of an absolute path.
    pub open spec fn own_location(self) -> PatchLocation {
        PatchLocation { root: self.parent, sub: None }
    }

    /// Where a relative path leads from the executable's directory.
    pub open spec fn executable_location(self, exe_dir: String) -> PatchLocation {
        PatchLocation { root: exe_dir, sub: self.relative_part() }
    }

    /// Where a relative path leads from the manifest directory.
    pub open spec fn manifest_location(self) -> PatchLocation {
        PatchLocation { root: self.manifest_dir, sub: self.relative_part() }
    }

    /// The directory from which the patch is opened, given the executable's
    /// directory (`None` when it cannot be found) and, for each location,
    /// whether the patch file is there; `None` when the search fails.
    pub open spec fn chosen_location(
        self,
        exe_dir: Option<String>,
        holds: spec_fn(PatchLocation) -> bool,
    ) -> Option<PatchLocation> {
        if !self.parent_is_relative {
            if holds(self.own_location()) {
                Some(self.own_location())
            } else {
                None
            }
        } else {
            match exe_dir {
                None => None,
                Some(dir) => if holds(self.executable_location(dir)) {
                    Some(self.executable_location(dir))
                } else if holds(self.manifest_location()) {
                    Some(self.manifest_location())
                } else {
                    None
                },
            }
        }
    }

    /// This search with another stage.
    pub open spec fn at(self, stage: PatchStage) -> PatchSearch {
        PatchSearch { stage, ..self }
    }

    /// The step of the search: the next state and action, given the answer
    /// to the pending question. An answer to another question ends the
    /// search as a failure.
    pub open spec fn next(self, event: PatchEvent) -> (PatchSearch, PatchAction) {
        match (self.stage, event) {
            (PatchStage::AwaitExecutableDir, PatchEvent::ExecutableDir(Some(exe_dir))) => (
                self.at(
                    PatchStage::AwaitProbe {
                        location: self.executable_location(exe_dir),
                        fallback: Some(self.manifest_location()),
                    },
                ),
                PatchAction::Probe {
                    location: self.executable_location(exe_dir),
                    file_name: self.file_name,
                },
            ),
            (PatchStage::AwaitProbe { location, fallback: _ }, PatchEvent::Probed(true)) => (
                self.at(PatchStage::AwaitOpen),
                PatchAction::Open { name: self.file_name, directory: location },
            ),
            (
                PatchStage::AwaitProbe { location: _, fallback: Some(next) },
                PatchEvent::Probed(false),
            ) => (
                self.at(PatchStage::AwaitProbe { location: next, fallback: None }),
                PatchAction::Probe { location: next, file_name: self.file_name },
            ),
            (PatchStage::AwaitOpen, PatchEvent::Opened(true)) => (
                self.at(PatchStage::Finished),
                PatchAction::Done(Ok(())),
            ),
            _ => (self.at(PatchStage::Finished), failed()),
        }
    }

    /// How many more answers the search can take at most before it ends.
    pub open spec fn remaining(self) -> nat {
        match self.stage {
            PatchStage::AwaitExecutableDir => 4,
            PatchStage::AwaitProbe { location: _, fallback: Some(_) } => 3,
            PatchStage::AwaitProbe { location: _, fallback: None } => 2,
            PatchStage::AwaitOpen => 1,
            PatchStage::Finished => 0,
        }
    }
}

/// How a search starts: `None` when the path has no file name (the search
/// fails at once), else the first state and the first action.
pub open spec fn start_spec(request: PatchRequest) -> Option<(PatchSearch, PatchAction)> {
    match request.file_name {
        None => None,
        Some(file_name) => {
            let search = PatchSearch {
                file_name,
                parent: request.parent,
                parent_is_relative: request.parent_is_relative,
                manifest_dir: request.manifest_dir,
                stage: PatchStage::AwaitExecutableDir,
            };
            if request.parent_is_relative {
                Some((search, PatchAction::FindExecutableDir))
            } else {
                Some(
                    (
                        search.at(
                            PatchStage::AwaitProbe { location: search.own_location(), fallback: None },
                        ),
                        PatchAction::Probe { location: search.own_location(), file_name },
                    ),
                )
            }
        },
    }
}

impl PatchSearch {
    /// Starts a search for the patch that `request` describes. Returns the
    /// error at once when the path has no file name; else the search and the
    /// first action to perform.
    pub fn begin(request: PatchRequest) -> (r: Result<(PatchSearch, PatchAction), LibpdError>)
        ensures
            match start_spec(request) {
                None => r == Err::<(PatchSearch, PatchAction), LibpdError>(
                    LibpdError::IoError(IoError::FailedToOpenPatch),
                ),
                Some(first) => r == Ok::<(PatchSearch, PatchAction), LibpdError>(first),
            },
            request.file_name is None <==> r is Err,
            r matches Ok((search, first)) ==> {
                &&& search.file_name == request.file_name.unwrap()
                &&& search.parent == request.parent
                &&& search.parent_is_relative == request.parent_is_relative
                &&& search.manifest_dir == request.manifest_dir
                &&& request.parent_is_relative ==> first == PatchAction::FindExecutableDir
                &&& !request.parent_is_relative ==> first == PatchAction::Probe {
                    location: PatchLocation { root: request.parent, sub: None },
                    file_name: request.file_name.unwrap(),
                }
            },
    {
        match request.file_name {
            None => Err(LibpdError::IoError(IoError::FailedToOpenPatch)),
            Some(file_name) => {
                if request.parent_is_relative {
                    let search = PatchSearch {
                        file_name,
                        parent: request.parent,
                        parent_is_relative: true,
                        manifest_dir: request.manifest_dir,
                        stage: PatchStage::AwaitExecutableDir,
                    };
                    Ok((search, PatchAction::FindExecutableDir))
                } else {
                    let location = PatchLocation { root: request.parent.clone(), sub: None };
                    let search = PatchSearch {
                        file_name: file_name.clone(),
                        parent: request.parent,
                        parent_is_relative: false,
                        manifest_dir: request.manifest_dir,
                        stage: PatchStage::AwaitProbe { location: location.duplicate(), fallback: None },
                    };
                    Ok((search, PatchAction::Probe { location, file_name }))
                }
            },
        }
    }

    /// The relative part of the path, as the search's locations hold it.
    fn relative_part_exec(&self) -> (r: Option<String>)
        ensures
            r == self.relative_part(),
    {
        if self.parent.as_str().is_empty() {
            None
        } else {
            Some(self.parent.clone())
        }
    }

    /// Takes the answer to the pending question and returns the next action.
    pub fn advance(&mut self, event: PatchEvent) -> (action: PatchAction)
        ensures
            (*final(self), action) == old(self).next(event),
            action is Open ==> final(self).stage == PatchStage::AwaitOpen,
            old(self).stage == PatchStage::AwaitOpen && event == PatchEvent::Opened(true)
                ==> action == PatchAction::Done(Ok(())),
    {
        let fail = PatchAction::Done(Err(LibpdError::IoError(IoError::FailedToOpenPatch)));
        match (&self.stage, event) {
            (PatchStage::AwaitExecutableDir, PatchEvent::ExecutableDir(Some(exe_dir))) => {
                let location = PatchLocation { root: exe_dir, sub: self.relative_part_exec() };
                let fallback = PatchLocation {
                    root: self.manifest_dir.clone(),
                    sub: self.relative_part_exec(),
                };
                self.stage = PatchStage::AwaitProbe {
                    location: location.duplicate(),
                    fallback: Some(fallback),
                };
                PatchAction::Probe { location, file_name: self.file_name.clone() }
            },
            (PatchStage::AwaitProbe { location, fallback: _ }, PatchEvent::Probed(true)) => {
                let directory = location.duplicate();
                self.stage = PatchStage::AwaitOpen;
                PatchAction::Open { name: self.file_name.clone(), directory }
            },
            (
                PatchStage::AwaitProbe { location: _, fallback: Some(next) },
                PatchEvent::Probed(false),
            ) => {
                let location = next.duplicate();
                self.stage = PatchStage::AwaitProbe { location: next.duplicate(), fallback: None };
                PatchAction::Probe { location, file_name: self.file_name.clone() }
            },
            (PatchStage::AwaitOpen, PatchEvent::Opened(true)) => {
                self.stage = PatchStage::Finished;
                PatchAction::Done(Ok(()))
            },
            _ => {
                self.stage = PatchStage::Finished;
                fail
            },
        }
    }
}

/// The answer that a caller gives to `action` when the executable's
/// directory is `exe_dir` and `holds` says where the patch file is.
pub open spec fn answer(
    action: PatchAction,
    exe_dir: Option<String>,
    holds: spec_fn(PatchLocation) -> bool,
) -> PatchEvent {
    match action {
        PatchAction::FindExecutableDir => PatchEvent::ExecutableDir(exe_dir),
        PatchAction::Probe { location, file_name: _ } => PatchEvent::Probed(holds(location)),
        _ => PatchEvent::Opened(false),
    }
}

/// The first `Open` or `Done` that the search reaches from `search` and
/// `action` within `fuel` answers, when every question is answered by
/// [`answer`].
pub open spec fn settle(
    search: PatchSearch,
    action: PatchAction,
    exe_dir: Option<String>,
    holds: spec_fn(PatchLocation) -> bool,
    fuel: nat,
) -> PatchAction
    decreases fuel,
{
    match action {
        PatchAction::Open { .. } => action,
        PatchAction::Done(_) => action,
        _ => if fuel == 0 {
            action
        } else {
            let (s, a) = search.next(answer(action, exe_dir, holds));
            settle(s, a, exe_dir, holds, (fuel - 1) as nat)
        },
    }
}

/// The whole search: answered truthfully, a search that has a file name
/// asks libpd to open the patch from exactly the chosen location (the
/// path's own directory when it is absolute; else the executable's
/// directory when the file is there, else the manifest directory when the
/// file is there), and fails when there is none.
pub proof fn lemma_search_opens_chosen_location(
    request: PatchRequest,
    exe_dir: Option<String>,
    holds: spec_fn(PatchLocation) -> bool,
)
    requires
        request.file_name is Some,
    ensures
        ({
            let (search, first) = start_spec(request).unwrap();
            settle(search, first, exe_dir, holds, 3) == match search.chosen_location(
                exe_dir,
                holds,
            ) {
                Some(location) => PatchAction::Open {
                    name: search.file_name,
                    directory: location,
                },
                None => failed(),
            }
        }),
{
    reveal_with_fuel(settle, 4);
}

/// A relative path is opened from the executable's directory whenever the
/// patch file is there, whether or not it is under the manifest directory
/// too; and from the manifest directory only when it is not next to the
/// executable.
pub proof fn lemma_executable_dir_before_manifest_dir(
    search: PatchSearch,
    exe_dir: String,
    holds: spec_fn(PatchLocation) -> bool,
)
    requires
        search.parent_is_relative,
    ensures
        holds(search.executable_location(exe_dir)) ==> search.chosen_location(Some(exe_dir), holds)
            == Some(search.executable_location(exe_dir)),
        !holds(search.executable_location(exe_dir)) && holds(search.manifest_location())
            ==> search.chosen_location(Some(exe_dir), holds) == Some(search.manifest_location()),
        search.chosen_location(None, holds) is None,
{
}

/// A relative path is tried under the executable's directory first; when
/// the patch file is not there, it is tried under the manifest directory,
/// following the same parent path.
pub proof fn lemma_relative_path_falls_back_to_manifest_dir(search: PatchSearch, exe_dir: String)
    requires
        search.stage is AwaitExecutableDir,
    ensures
        ({
            let (s1, a1) = search.next(PatchEvent::ExecutableDir(Some(exe_dir)));
            let (s2, a2) = s1.next(PatchEvent::Probed(false));
            &&& a1 == PatchAction::Probe {
                location: PatchLocation { root: exe_dir, sub: search.relative_part() },
                file_name: search.file_name,
            }
            &&& s1.next(PatchEvent::Probed(true)).1 == PatchAction::Open {
                name: search.file_name,
                directory: PatchLocation { root: exe_dir, sub: search.relative_part() },
            }
            &&& a2 == PatchAction::Probe {
                location: PatchLocation { root: search.manifest_dir, sub: search.relative_part() },
                file_name: search.file_name,
            }
            &&& s2.next(PatchEvent::Probed(true)).1 == PatchAction::Open {
                name: search.file_name,
                directory: PatchLocation { root: search.manifest_dir, sub: search.relative_part() },
            }
            &&& s2.next(PatchEvent::Probed(false)).1 == failed()
        }),
{
}

/// libpd is asked to open a patch only right after the file was found in
/// the location that was probed, and always under the search's file name.
pub proof fn lemma_open_only_existing_file(search: PatchSearch, event: PatchEvent)
    ensures
        search.next(event).1 matches PatchAction::Open { name, directory } ==> {
            &&& name == search.file_name
            &&& event == PatchEvent::Probed(true)
            &&& search.stage matches PatchStage::AwaitProbe { location, fallback: _ }
            &&& directory == location
            &&& search.next(event).0.stage == PatchStage::AwaitOpen
        },
{
}

/// The search succeeds only when libpd opened the patch, and every other
/// ending is the error `FailedToOpenPatch`.
pub proof fn lemma_outcomes(search: PatchSearch, event: PatchEvent)
    ensures
        search.next(event).1 == PatchAction::Done(Ok(())) ==> search.stage == PatchStage::AwaitOpen
            && event == PatchEvent::Opened(true),
        search.next(event).1 matches PatchAction::Done(Err(e)) ==> e == LibpdError::IoError(
            IoError::FailedToOpenPatch,
        ),
{
}

/// Every step keeps what the search was asked for, ends the search exactly
/// when it says `Done`, and otherwise brings it closer to its end: a search
/// takes at most four answers.
pub proof fn lemma_step_progress(search: PatchSearch, event: PatchEvent)
    ensures
        ({
            let (after, action) = search.next(event);
            &&& after.file_name == search.file_name
            &&& after.parent == search.parent
            &&& after.parent_is_relative == search.parent_is_relative
            &&& after.manifest_dir == search.manifest_dir
            &&& (action is Done <==> after.stage == PatchStage::Finished)
            &&& (!(action is Done) ==> after.remaining() < search.remaining())
        }),
{
}

/// A search starts with at most four answers to wait for, and is not over
/// before it has begun.
pub proof fn lemma_start_bound(request: PatchRequest)
    requires
        request.file_name is Some,
    ensures
        0 < start_spec(request).unwrap().0.remaining() <= 4,
        !(start_spec(request).unwrap().1 is Done),
{
}

/// The answer that a caller gives to `action` when the executable's
/// directory is `exe_dir`, `holds` says where the patch file is, and libpd
/// opens a patch exactly when `opened`.
pub open spec fn answer_with(
    action: PatchAction,
    exe_dir: Option<String>,
    holds: spec_fn(PatchLocation) -> bool,
    opened: bool,
) -> PatchEvent {
    match action {
        PatchAction::FindExecutableDir => PatchEvent::ExecutableDir(exe_dir),
        PatchAction::Probe { location, file_name: _ } => PatchEvent::Probed(holds(location)),
        _ => PatchEvent::Opened(opened),
    }
}

/// A whole run of the search, answered by [`answer_with`] for at most
/// `fuel` answers: the `(name, directory)` of every `Open` it asked for, in
/// order, and the last action.
pub open spec fn run_search(
    search: PatchSearch,
    action: PatchAction,
    exe_dir: Option<String>,
    holds: spec_fn(PatchLocation) -> bool,
    opened: bool,
    fuel: nat,
) -> (Seq<(String, PatchLocation)>, PatchAction)
    decreases fuel,
{
    match action {
        PatchAction::Done(_) => (Seq::empty(), action),
        _ => if fuel == 0 {
            (Seq::empty(), action)
        } else {
            let (s, a) = search.next(answer_with(action, exe_dir, holds, opened));
            let (rest, last) = run_search(s, a, exe_dir, holds, opened, (fuel - 1) as nat);
            match action {
                PatchAction::Open { name, directory } => (seq![(name, directory)] + rest, last),
                _ => (rest, last),
            }
        },
    }
}

/// The run of a search that opens `file_name` from `location` once, and
/// ends in success exactly when libpd opened it.
pub open spec fn opens_once(
    run: (Seq<(String, PatchLocation)>, PatchAction),
    file_name: String,
    location: PatchLocation,
    opened: bool,
) -> bool {
    &&& run.0 == seq![(file_name, location)]
    &&& run.1 == if opened {
        PatchAction::Done(Ok(()))
    } else {
        failed()
    }
}

/// The run of a search that never asks libpd and fails.
pub open spec fn fails_unopened(run: (Seq<(String, PatchLocation)>, PatchAction)) -> bool {
    &&& run.0 == Seq::<(String, PatchLocation)>::empty()
    &&& run.1 == failed()
}

/// Opening a patch, from the request to the end: with the executable in
/// `exe_dir`, the patch file present exactly in the directories where
/// `holds` says, and libpd opening it exactly when `opened`,
/// - an absolute path is opened once from its own directory (the parent
///   path) when the file is there, and the search fails otherwise;
/// - a relative path (a single file name included) follows the whole parent
///   path from the executable's directory and is opened from there when the
///   file is there; else it follows the same parent path from the manifest
///   directory and is opened from there when the file is there; else, or
///   when the executable's directory is unknown, the search fails;
/// - the search succeeds exactly when a patch was opened and libpd opened it.
pub proof fn lemma_open_patch_from_request(
    request: PatchRequest,
    exe_dir: Option<String>,
    holds: spec_fn(PatchLocation) -> bool,
    opened: bool,
)
    requires
        request.file_name is Some,
    ensures
        ({
            let file_name = request.file_name.unwrap();
            let sub = if request.parent@.len() == 0 {
                None::<String>
            } else {
                Some(request.parent)
            };
            let (search, first) = start_spec(request).unwrap();
            let run = run_search(search, first, exe_dir, holds, opened, 5);
            if !request.parent_is_relative {
                let own = PatchLocation { root: request.parent, sub: None };
                if holds(own) {
                    opens_once(run, file_name, own, opened)
                } else {
                    fails_unopened(run)
                }
            } else {
                match exe_dir {
                    None => fails_unopened(run),
                    Some(dir) => {
                        let exe = PatchLocation { root: dir, sub };
                        let manifest = PatchLocation { root: request.manifest_dir, sub };
                        if holds(exe) {
                            opens_once(run, file_name, exe, opened)
                        } else if holds(manifest) {
                            opens_once(run, file_name, manifest, opened)
                        } else {
                            fails_unopened(run)
                        }
                    },
                }
            }
        }),
{
    reveal_with_fuel(run_search, 6);
}

/// A search starts from the request as it was given: the same file name,
/// parent path, relativity and manifest directory; a relative request
/// first asks for the executable's directory, an absolute one first probes
/// its parent path.
pub proof fn lemma_start_keeps_request(request: PatchRequest)
    requires
        request.file_name is Some,
    ensures
        ({
            let (search, first) = start_spec(request).unwrap();
            &&& search.file_name == request.file_name.unwrap()
            &&& search.parent == request.parent
            &&& search.parent_is_relative == request.parent_is_relative
            &&& search.manifest_dir == request.manifest_dir
            &&& request.parent_is_relative ==> first == PatchAction::FindExecutableDir
            &&& !request.parent_is_relative ==> first == PatchAction::Probe {
                location: PatchLocation { root: request.parent, sub: None },
                file_name: request.file_name.unwrap(),
            }
        }),
{
}

/// The locations of a relative path follow the whole parent path from their
/// root, and just the root for a single file name.
pub proof fn lemma_locations_follow_whole_parent(search: PatchSearch, exe_dir: String)
    ensures
        ({
            let exe = search.executable_location(exe_dir);
            let manifest = search.manifest_location();
            &&& exe.root == exe_dir
            &&& manifest.root == search.manifest_dir
            &&& search.parent@.len() > 0 ==> exe.sub == Some(search.parent)
                && manifest.sub == Some(search.parent)
            &&& search.parent@.len() == 0 ==> exe.sub is None && manifest.sub is None
        }),
{
}

/// Whenever the search asks libpd to open a patch and libpd does, the
/// search ends in success at the next step.
pub proof fn lemma_opened_patch_succeeds(search: PatchSearch, event: PatchEvent)
    ensures
        search.next(event).1 is Open ==> search.next(event).0.next(PatchEvent::Opened(true)).1
            == PatchAction::Done(Ok(())),
{
}

} // verus!
