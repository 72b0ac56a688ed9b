//! The search for the Deno executable that runs the driver.
//!
//! The sources are tried in a fixed order: the search path of the system, `$DENO_INSTALL`, the
//! home directory of the user and the places where Deno is commonly installed. Each source offers
//! candidates, and the first candidate that exists is the result.
use std::path::PathBuf;
use vstd::prelude::*;

use crate::error::{Error, ErrorView};
use crate::host::{
    self, Answer, AnswerView, CommandLine, CommandLineView, CommandOutput, CommandOutputView, Os,
    Question, QuestionView, UserDirectory, World,
};
use crate::laws;
use crate::location::{Location, LocationView};
use crate::probe::{self, Probe, ProbeProgress, ProbeProgressView, ProbeView, Progress};
use crate::text;

verus! {

// ---------------------------------------------------------------------------------------------
// What each source offers
// ---------------------------------------------------------------------------------------------

/// The program that looks `deno` up on the search path: `where deno` on Windows, `which deno`
/// elsewhere.
pub open spec fn search_path_command(os: Os) -> CommandLineView {
    let program = if os == Os::Windows {
        "where"@
    } else {
        "which"@
    };
    CommandLineView { program, args: seq!["deno"@] }
}

/// The file name of the Deno executable.
pub open spec fn deno_file_name(os: Os) -> Seq<char> {
    if os == Os::Windows {
        "deno.exe"@
    } else {
        "deno"@
    }
}

/// What the search path offers: the first line that the lookup printed, if it succeeded and
/// printed more than white space.
pub open spec fn search_path_candidates(output: Option<CommandOutputView>) -> Seq<LocationView> {
    match output {
        Some(o) => if o.success {
            printed_candidates(text::decoded(o.stdout))
        } else {
            seq![]
        },
        None => seq![],
    }
}

/// What a successful lookup that printed `printed` offers.
pub open spec fn printed_candidates(printed: Seq<char>) -> Seq<LocationView> {
    if text::trimmed(printed).len() == 0 {
        seq![]
    } else {
        seq![LocationView::text(text::first_line_of(text::trimmed(printed)))]
    }
}

/// What `DENO_INSTALL` offers: the executable under `bin` in that directory.
pub open spec fn install_root_candidates(os: Os, value: Option<Seq<char>>) -> Seq<LocationView> {
    match value {
        Some(root) => seq![LocationView::text(root).join("bin"@).join(deno_file_name(os))],
        None => seq![],
    }
}

/// What the home directory offers: the executable under `.deno/bin`.
pub open spec fn home_candidates(os: Os, home: Option<PathBuf>) -> Seq<LocationView> {
    match home {
        Some(directory) => seq![
            LocationView::directory(directory).join(".deno"@).join("bin"@).join(deno_file_name(os)),
        ],
        None => seq![],
    }
}

/// The places where Deno is commonly installed.
pub open spec fn common_candidates(os: Os) -> Seq<LocationView> {
    if os == Os::Windows {
        seq![
            LocationView::text("C:\\Program Files\\deno\\deno.exe"@),
            LocationView::text("C:\\ProgramData\\chocolatey\\bin\\deno.exe"@),
        ]
    } else {
        seq![
            LocationView::text("/usr/local/bin/deno"@),
            LocationView::text("/usr/bin/deno"@),
            LocationView::text("/opt/homebrew/bin/deno"@),
            LocationView::text("/opt/local/bin/deno"@),
        ]
    }
}

/// All that the sources offer on the machine `world`, in the order in which they are tried.
pub open spec fn deno_candidates(os: Os, world: World) -> Seq<LocationView> {
    search_path_candidates(world.output(search_path_command(os)))
        + install_root_candidates(os, world.variable("DENO_INSTALL"@))
        + home_candidates(os, world.home_directory)
        + common_candidates(os)
}

/// The error of a search that found no Deno.
pub open spec fn deno_not_found() -> ErrorView {
    ErrorView::LaunchFailed(
        "Deno executable not found. Install Deno 2.x (https://deno.com) or add it to PATH."@,
    )
}

/// What a search through `candidates` is to end in: the first that exists, or the error that Deno
/// is missing.
pub open spec fn outcome_of(candidates: Seq<LocationView>, existing: Set<LocationView>) -> Result<
    LocationView,
    ErrorView,
> {
    match probe::first_existing(candidates, existing) {
        Some(found) => Ok(found),
        None => Err(deno_not_found()),
    }
}

/// What the search for Deno is to end in on the machine `world`.
pub open spec fn deno_outcome(os: Os, world: World) -> Result<LocationView, ErrorView> {
    outcome_of(deno_candidates(os, world), world.existing)
}

fn file_name(os: Os) -> (name: &'static str)
    ensures
        name@ == deno_file_name(os),
{
    if os == Os::Windows {
        "deno.exe"
    } else {
        "deno"
    }
}

/// Tries what the lookup on the search path came to.
pub fn try_search_path(output: Option<CommandOutput>) -> (progress: ProbeProgress)
    ensures
        progress@ == ProbeView::over(search_path_candidates(host::optional_output(output))),
{
    match output {
        Some(o) => {
            if !o.success {
                return Probe::over_none();
            }
            let printed = text::decode(o.stdout.as_slice());
            try_printed_path(printed.as_str())
        },
        None => Probe::over_none(),
    }
}

/// Tries what a successful lookup on the search path printed.
pub fn try_printed_path(printed: &str) -> (progress: ProbeProgress)
    ensures
        progress@ == ProbeView::over(printed_candidates(printed@)),
{
    let deno_path = text::trim(printed);
    if deno_path.as_str().is_empty() {
        Probe::over_none()
    } else {
        Probe::over_one(Location::text(text::first_line(deno_path.as_str())))
    }
}

/// Tries the directory that `DENO_INSTALL` holds.
pub fn try_install_root(os: Os, value: Option<String>) -> (progress: ProbeProgress)
    ensures
        progress@ == ProbeView::over(install_root_candidates(os, host::optional_text(value))),
{
    match value {
        Some(root) => Probe::over_one(Location::text(root).join("bin").join(file_name(os))),
        None => Probe::over_none(),
    }
}

/// Tries the home directory that the host named.
pub fn try_home_directory(os: Os, home: Option<PathBuf>) -> (progress: ProbeProgress)
    ensures
        progress@ == ProbeView::over(home_candidates(os, home)),
{
    match home {
        Some(directory) => Probe::over_one(
            Location::directory(directory).join(".deno").join("bin").join(file_name(os)),
        ),
        None => Probe::over_none(),
    }
}

/// Tries the places where Deno is commonly installed.
pub fn try_common_locations(os: Os) -> (progress: ProbeProgress)
    ensures
        progress@ == ProbeView::over(common_candidates(os)),
{
    let mut candidates: Vec<Location> = Vec::new();
    if os == Os::Windows {
        candidates.push(Location::text("C:\\Program Files\\deno\\deno.exe".to_owned()));
        candidates.push(Location::text("C:\\ProgramData\\chocolatey\\bin\\deno.exe".to_owned()));
    } else {
        candidates.push(Location::text("/usr/local/bin/deno".to_owned()));
        candidates.push(Location::text("/usr/bin/deno".to_owned()));
        candidates.push(Location::text("/opt/homebrew/bin/deno".to_owned()));
        candidates.push(Location::text("/opt/local/bin/deno".to_owned()));
    }
    assert(probe::locations(candidates@) =~= common_candidates(os));
    Probe::over(candidates)
}

// ---------------------------------------------------------------------------------------------
// Going through the sources
// ---------------------------------------------------------------------------------------------

/// The sources that have to ask something before they can offer a candidate.
#[derive(Debug, Clone, Copy, PartialEq, Eq, Structural)]
pub enum DenoLookup {
    SearchPath,
    InstallRoot,
    HomeDirectory,
}

/// What a search turns to when a source has failed.
#[derive(Debug, Clone, Copy, PartialEq, Eq, Structural)]
pub enum DenoFallback {
    Lookup(DenoLookup),
    CommonLocations,
    GiveUp,
}

impl DenoLookup {
    /// What the source asks.
    pub open spec fn spec_question(self, os: Os) -> QuestionView {
        match self {
            DenoLookup::SearchPath => QuestionView::Output(search_path_command(os)),
            DenoLookup::InstallRoot => QuestionView::Variable("DENO_INSTALL"@),
            DenoLookup::HomeDirectory => QuestionView::Directory(UserDirectory::Home),
        }
    }

    /// What the source offers once its question is answered.
    pub open spec fn candidates(self, os: Os, answer: AnswerView) -> Seq<LocationView> {
        match (self, answer) {
            (DenoLookup::SearchPath, AnswerView::Output(output)) => search_path_candidates(output),
            (DenoLookup::InstallRoot, AnswerView::Variable(value)) => install_root_candidates(
                os,
                value,
            ),
            (DenoLookup::HomeDirectory, AnswerView::Directory(directory)) => home_candidates(
                os,
                directory,
            ),
            _ => seq![],
        }
    }

    /// What is tried after this source.
    pub open spec fn spec_next(self) -> DenoFallback {
        match self {
            DenoLookup::SearchPath => DenoFallback::Lookup(DenoLookup::InstallRoot),
            DenoLookup::InstallRoot => DenoFallback::Lookup(DenoLookup::HomeDirectory),
            DenoLookup::HomeDirectory => DenoFallback::CommonLocations,
        }
    }

    fn question(self, os: Os) -> (question: Question<'static>)
        ensures
            question@ == self.spec_question(os),
    {
        match self {
            DenoLookup::SearchPath => {
                let program = if os == Os::Windows {
                    "where"
                } else {
                    "which"
                };
                let command = CommandLine::new(program, &["deno"]);
                assert(command@.args =~= search_path_command(os).args);
                Question::Output(command)
            },
            DenoLookup::InstallRoot => Question::Variable("DENO_INSTALL"),
            DenoLookup::HomeDirectory => Question::Directory(UserDirectory::Home),
        }
    }

    fn next(self) -> (next: DenoFallback)
        ensures
            next == self.spec_next(),
    {
        match self {
            DenoLookup::SearchPath => DenoFallback::Lookup(DenoLookup::InstallRoot),
            DenoLookup::InstallRoot => DenoFallback::Lookup(DenoLookup::HomeDirectory),
            DenoLookup::HomeDirectory => DenoFallback::CommonLocations,
        }
    }
}

/// An unfinished search for the Deno executable.
#[derive(Debug)]
pub struct DenoSearch {
    os: Os,
    stage: DenoStage,
}

#[derive(Debug)]
enum DenoStage {
    Lookup(DenoLookup),
    Probing(Probe, DenoFallback),
}

/// The mathematical counterpart of [`DenoSearch`].
pub struct DenoSearchView {
    pub os: Os,
    pub stage: DenoStageView,
}

/// How far a search has come.
pub enum DenoStageView {
    /// The source has asked its question.
    Lookup(DenoLookup),
    /// The candidates of a source are being checked; what comes after it is named here.
    Probing(ProbeView, DenoFallback),
}

impl View for DenoSearch {
    type V = DenoSearchView;

    closed spec fn view(&self) -> DenoSearchView {
        DenoSearchView {
            os: self.os,
            stage: match self.stage {
                DenoStage::Lookup(lookup) => DenoStageView::Lookup(lookup),
                DenoStage::Probing(probe, then) => DenoStageView::Probing(probe@, then),
            },
        }
    }
}

/// What a search has come to: the location of the executable, or the error that it is missing.
pub type DenoProgress = Progress<DenoSearch, Result<Location, Error>>;

/// The mathematical counterpart of [`DenoProgress`].
pub type DenoProgressView = Progress<DenoSearchView, Result<LocationView, ErrorView>>;

impl View for Progress<DenoSearch, Result<Location, Error>> {
    type V = DenoProgressView;

    open spec fn view(&self) -> DenoProgressView {
        match self {
            Progress::Pending(search) => Progress::Pending(search@),
            Progress::Settled(Ok(found)) => Progress::Settled(Ok(found@)),
            Progress::Settled(Err(error)) => Progress::Settled(Err(error@)),
        }
    }
}

impl DenoSearchView {
    /// The search at its beginning.
    pub open spec fn start(os: Os) -> DenoSearchView {
        DenoSearchView { os, stage: DenoStageView::Lookup(DenoLookup::SearchPath) }
    }

    /// What the search asks next.
    pub open spec fn question(self) -> QuestionView {
        match self.stage {
            DenoStageView::Lookup(lookup) => lookup.spec_question(self.os),
            DenoStageView::Probing(probe, _) => QuestionView::Exists(probe.candidate),
        }
    }

    /// Where the search stands when it turns to `fallback`.
    pub open spec fn turn_to(os: Os, fallback: DenoFallback) -> DenoProgressView {
        match fallback {
            DenoFallback::Lookup(lookup) => Progress::Pending(
                DenoSearchView { os, stage: DenoStageView::Lookup(lookup) },
            ),
            DenoFallback::CommonLocations => match ProbeView::over(common_candidates(os)) {
                Progress::Pending(probe) => Progress::Pending(
                    DenoSearchView {
                        os,
                        stage: DenoStageView::Probing(probe, DenoFallback::GiveUp),
                    },
                ),
                Progress::Settled(_) => Progress::Settled(Err(deno_not_found())),
            },
            DenoFallback::GiveUp => Progress::Settled(Err(deno_not_found())),
        }
    }

    /// Where the search stands once a source has come to `progress`; `then` is tried after it.
    pub open spec fn after(
        os: Os,
        progress: ProbeProgressView,
        then: DenoFallback,
    ) -> DenoProgressView {
        match progress {
            Progress::Pending(probe) => Progress::Pending(
                DenoSearchView { os, stage: DenoStageView::Probing(probe, then) },
            ),
            Progress::Settled(Some(found)) => Progress::Settled(Ok(found)),
            Progress::Settled(None) => DenoSearchView::turn_to(os, then),
        }
    }

    /// Where the search stands once its question is answered. An answer to another question
    /// leaves it where it is.
    pub open spec fn resume(self, answer: AnswerView) -> DenoProgressView {
        if !self.question().takes(answer) {
            Progress::Pending(self)
        } else {
            match self.stage {
                DenoStageView::Lookup(lookup) => DenoSearchView::after(
                    self.os,
                    ProbeView::over(lookup.candidates(self.os, answer)),
                    lookup.spec_next(),
                ),
                DenoStageView::Probing(probe, then) => DenoSearchView::after(
                    self.os,
                    probe.resume(answer->Exists_0),
                    then,
                ),
            }
        }
    }
}

/// Starts the search for the Deno executable. Run to its end on any machine, it finds the first
/// candidate that exists.
pub fn find_deno_executable(os: Os) -> (search: DenoSearch)
    ensures
        search@ == DenoSearchView::start(os),
        forall|world: World| #[trigger]
            deno_result(Progress::Pending(search@), world) == deno_outcome(os, world),
{
    proof {
        assert forall|world: World| #[trigger]
            deno_result(Progress::Pending(DenoSearchView::start(os)), world) == deno_outcome(
            os,
            world,
        ) by {
            laws::law_deno_search_order(os, world);
        }
    }
    DenoSearch { os, stage: DenoStage::Lookup(DenoLookup::SearchPath) }
}

impl DenoSearch {
    /// What the search asks next.
    pub fn question(&self) -> (question: Question<'_>)
        ensures
            question@ == self@.question(),
    {
        match &self.stage {
            DenoStage::Lookup(lookup) => lookup.question(self.os),
            DenoStage::Probing(probe, _) => Question::Exists(&probe.candidate),
        }
    }

    fn not_found() -> (error: Error)
        ensures
            error@ == deno_not_found(),
    {
        Error::LaunchFailed(
            "Deno executable not found. Install Deno 2.x (https://deno.com) or add it to PATH.".to_owned(),
        )
    }

    fn turn_to(os: Os, fallback: DenoFallback) -> (next: DenoProgress)
        ensures
            next@ == DenoSearchView::turn_to(os, fallback),
    {
        match fallback {
            DenoFallback::Lookup(lookup) => Progress::Pending(
                DenoSearch { os, stage: DenoStage::Lookup(lookup) },
            ),
            DenoFallback::CommonLocations => match try_common_locations(os) {
                Progress::Pending(probe) => Progress::Pending(
                    DenoSearch { os, stage: DenoStage::Probing(probe, DenoFallback::GiveUp) },
                ),
                Progress::Settled(_) => Progress::Settled(Err(DenoSearch::not_found())),
            },
            DenoFallback::GiveUp => Progress::Settled(Err(DenoSearch::not_found())),
        }
    }

    fn after(os: Os, progress: ProbeProgress, then: DenoFallback) -> (next: DenoProgress)
        ensures
            next@ == DenoSearchView::after(os, progress@, then),
    {
        match progress {
            Progress::Pending(probe) => Progress::Pending(
                DenoSearch { os, stage: DenoStage::Probing(probe, then) },
            ),
            Progress::Settled(Some(found)) => Progress::Settled(Ok(found)),
            Progress::Settled(None) => DenoSearch::turn_to(os, then),
        }
    }

    /// Goes on with the answer to the question. An answer to another question changes nothing.
    pub fn resume(self, answer: Answer) -> (progress: DenoProgress)
        ensures
            progress@ == self@.resume(answer@),
    {
        let os = self.os;
        match (self.stage, answer) {
            (DenoStage::Probing(probe, then), Answer::Exists(exists)) => DenoSearch::after(
                os,
                probe.resume(exists),
                then,
            ),
            (DenoStage::Lookup(DenoLookup::SearchPath), Answer::Output(output)) => DenoSearch::after(
                os,
                try_search_path(output),
                DenoLookup::SearchPath.next(),
            ),
            (DenoStage::Lookup(DenoLookup::InstallRoot), Answer::Variable(value)) => DenoSearch::after(
                os,
                try_install_root(os, value),
                DenoLookup::InstallRoot.next(),
            ),
            (
                DenoStage::Lookup(DenoLookup::HomeDirectory),
                Answer::Directory(directory),
            ) => DenoSearch::after(
                os,
                try_home_directory(os, directory),
                DenoLookup::HomeDirectory.next(),
            ),
            (stage, _) => Progress::Pending(DenoSearch { os, stage }),
        }
    }
}

// ---------------------------------------------------------------------------------------------
// Running a search to its end
// ---------------------------------------------------------------------------------------------

impl DenoFallback {
    /// The most questions that can be asked from here on.
    pub open spec fn questions(self, os: Os) -> nat {
        let common = common_candidates(os).len();
        match self {
            DenoFallback::Lookup(DenoLookup::SearchPath) => 6 + common,
            DenoFallback::Lookup(DenoLookup::InstallRoot) => 4 + common,
            DenoFallback::Lookup(DenoLookup::HomeDirectory) => 2 + common,
            DenoFallback::CommonLocations => common,
            DenoFallback::GiveUp => 0,
        }
    }
}

/// The most questions that a search can still ask.
pub open spec fn deno_questions_left(progress: DenoProgressView) -> nat {
    match progress {
        Progress::Pending(search) => match search.stage {
            DenoStageView::Lookup(lookup) => DenoFallback::Lookup(lookup).questions(search.os),
            DenoStageView::Probing(probe, then) => 1 + probe.rest.len() + then.questions(search.os),
        },
        Progress::Settled(_) => 0,
    }
}

/// What a search ends in on the machine `world`.
pub open spec fn deno_result(progress: DenoProgressView, world: World) -> Result<
    LocationView,
    ErrorView,
>
    decreases deno_questions_left(progress),
{
    match progress {
        Progress::Pending(search) => deno_result(
            search.resume(world.answer(search.question())),
            world,
        ),
        Progress::Settled(found) => found,
    }
}

/// The questions that a search asks on the machine `world`, first to last.
pub open spec fn deno_questions(progress: DenoProgressView, world: World) -> Seq<QuestionView>
    decreases deno_questions_left(progress),
{
    match progress {
        Progress::Pending(search) => seq![search.question()] + deno_questions(
            search.resume(world.answer(search.question())),
            world,
        ),
        Progress::Settled(_) => seq![],
    }
}

} // verus!
