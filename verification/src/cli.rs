//! The search for the driver's `cli.js`.
//!
//! The sources are tried in a fixed order: the bundled driver, the user's cache, two environment
//! variables, the global `node_modules` of npm and the local one. Each source offers candidates,
//! and the first candidate that exists is the result.
use std::path::PathBuf;
use vstd::prelude::*;
use vstd::string::*;

use crate::host::{
    self, Answer, AnswerView, BuildInfo, BuildInfoView, CommandLine, CommandLineView, CommandOutput,
    CommandOutputView, Question, QuestionView, UserDirectory, World,
};
use crate::laws;
use crate::location::{Location, LocationView, RootView};
use crate::probe::{self, Probe, ProbeProgress, ProbeProgressView, ProbeView, Progress};
use crate::text;

verus! {

// ---------------------------------------------------------------------------------------------
// What each source offers
// ---------------------------------------------------------------------------------------------

/// The `cli.js` of the driver in `directory`.
pub open spec fn cli_of_driver(directory: LocationView) -> LocationView {
    directory.join("package"@).join("cli.js"@)
}

/// What the build offers: the `cli.js` that it recorded, then that of the directory it recorded.
pub open spec fn bundled_candidates(build: BuildInfoView) -> Seq<LocationView> {
    let recorded = match build.cli_js {
        Some(path) => seq![LocationView::text(path)],
        None => seq![],
    };
    let unpacked = match build.driver_dir {
        Some(path) => seq![cli_of_driver(LocationView::text(path))],
        None => seq![],
    };
    recorded + unpacked
}

/// Where the user's cache keeps the `cli.js` of a version of the driver for a platform:
/// `<cache>/playwright-rust/<version>/playwright-<version>-<platform>/package/cli.js`.
pub open spec fn user_cache_cli(
    cache_root: PathBuf,
    version: Seq<char>,
    platform: Seq<char>,
) -> LocationView {
    cli_of_driver(
        LocationView::directory(cache_root).join("playwright-rust"@).join(version).join(
            "playwright-"@ + version + "-"@ + platform,
        ),
    )
}

/// What the user's cache offers: nothing unless the cache directory, the version and the
/// platform are all known.
pub open spec fn user_cache_candidates(
    cache_directory: Option<PathBuf>,
    build: BuildInfoView,
) -> Seq<LocationView> {
    match (cache_directory, build.driver_version, build.driver_platform) {
        (Some(cache_root), Some(version), Some(platform)) => seq![
            user_cache_cli(cache_root, version, platform),
        ],
        _ => seq![],
    }
}

/// What `PLAYWRIGHT_DRIVER_PATH` offers: the `cli.js` of the driver in that directory.
pub open spec fn driver_path_candidates(value: Option<Seq<char>>) -> Seq<LocationView> {
    match value {
        Some(path) => seq![cli_of_driver(LocationView::text(path))],
        None => seq![],
    }
}

/// What `PLAYWRIGHT_CLI_JS` offers: the path that it holds.
pub open spec fn cli_js_candidates(value: Option<Seq<char>>) -> Seq<LocationView> {
    match value {
        Some(path) => seq![LocationView::text(path)],
        None => seq![],
    }
}

/// What a `node_modules` directory offers: the `cli.js` of `playwright`, then that of
/// `@playwright/test`.
pub open spec fn node_modules_candidates(node_modules: Seq<char>) -> Seq<LocationView> {
    seq![
        LocationView::text(node_modules).join("playwright"@).join("cli.js"@),
        LocationView::text(node_modules).join("@playwright"@).join("test"@).join("cli.js"@),
    ]
}

/// What npm offers: the candidates in the directory that it printed, if it succeeded.
pub open spec fn npm_candidates(output: Option<CommandOutputView>) -> Seq<LocationView> {
    match output {
        Some(o) => if o.success {
            node_modules_candidates(text::trimmed(text::decoded(o.stdout)))
        } else {
            seq![]
        },
        None => seq![],
    }
}

/// `npm root -g`
pub open spec fn npm_root_global() -> CommandLineView {
    CommandLineView { program: "npm"@, args: seq!["root"@, "-g"@] }
}

/// `npm root`
pub open spec fn npm_root_local() -> CommandLineView {
    CommandLineView { program: "npm"@, args: seq!["root"@] }
}

/// All that the sources offer on the machine `world`, in the order in which they are tried.
pub open spec fn cli_candidates(build: BuildInfoView, world: World) -> Seq<LocationView> {
    bundled_candidates(build)
        + user_cache_candidates(world.cache_directory, build)
        + driver_path_candidates(world.variable("PLAYWRIGHT_DRIVER_PATH"@))
        + cli_js_candidates(world.variable("PLAYWRIGHT_CLI_JS"@))
        + npm_candidates(world.output(npm_root_global()))
        + npm_candidates(world.output(npm_root_local()))
}

/// Tries the bundled driver that the build recorded.
pub fn try_bundled_cli(build: &BuildInfo) -> (progress: ProbeProgress)
    ensures
        progress@ == ProbeView::over(bundled_candidates(build@)),
{
    let mut candidates: Vec<Location> = Vec::new();
    if let Some(cli_js) = &build.cli_js {
        candidates.push(Location::text(cli_js.clone()));
    }
    if let Some(driver_dir) = &build.driver_dir {
        candidates.push(Location::text(driver_dir.clone()).join("package").join("cli.js"));
    }
    assert(probe::locations(candidates@) =~= bundled_candidates(build@));
    Probe::over(candidates)
}

/// Tries the user's cache, in the cache directory that the host named.
pub fn try_user_cache_cli(cache_directory: Option<PathBuf>, build: &BuildInfo) -> (progress:
    ProbeProgress)
    ensures
        progress@ == ProbeView::over(user_cache_candidates(cache_directory, build@)),
{
    match (cache_directory, &build.driver_version, &build.driver_platform) {
        (Some(cache_root), Some(version), Some(platform)) => try_user_cache_cli_in(
            cache_root,
            version.as_str(),
            platform.as_str(),
        ),
        _ => Probe::over_none(),
    }
}

/// Tries the user's cache for a version of the driver and a platform.
pub fn try_user_cache_cli_in(cache_root: PathBuf, version: &str, platform: &str) -> (progress:
    ProbeProgress)
    ensures
        progress@ == ProbeView::over(seq![user_cache_cli(cache_root, version@, platform@)]),
        progress@ matches Progress::Pending(probe) && {
            &&& probe.rest.len() == 0
            &&& probe.candidate.root == RootView::Directory(cache_root)
            &&& probe.candidate.joined =~= seq![
                "playwright-rust"@,
                version@,
                "playwright-"@ + version@ + "-"@ + platform@,
                "package"@,
                "cli.js"@,
            ]
        },
{
    let mut name = "playwright-".to_owned();
    name.append(version);
    name.append("-");
    name.append(platform);
    let cli_js = Location::directory(cache_root).join("playwright-rust").join(version).join(
        name.as_str(),
    ).join("package").join("cli.js");
    Probe::over_one(cli_js)
}

/// Tries the directory that `PLAYWRIGHT_DRIVER_PATH` holds.
pub fn try_driver_path_env(value: Option<String>) -> (progress: ProbeProgress)
    ensures
        progress@ == ProbeView::over(
            driver_path_candidates(host::optional_text(value)),
        ),
{
    match value {
        Some(driver_path) => Probe::over_one(Location::text(driver_path).join("package").join("cli.js")),
        None => Probe::over_none(),
    }
}

/// Tries the path that `PLAYWRIGHT_CLI_JS` holds.
pub fn try_cli_js_env(value: Option<String>) -> (progress: ProbeProgress)
    ensures
        progress@ == ProbeView::over(cli_js_candidates(host::optional_text(value))),
{
    match value {
        Some(cli_js) => Probe::over_one(Location::text(cli_js)),
        None => Probe::over_none(),
    }
}

/// Tries the `node_modules` directory that `npm root` printed.
pub fn try_npm(output: Option<CommandOutput>) -> (progress: ProbeProgress)
    ensures
        progress@ == ProbeView::over(npm_candidates(host::optional_output(output))),
{
    match output {
        Some(o) => {
            if !o.success {
                return Probe::over_none();
            }
            let printed = text::decode(o.stdout.as_slice());
            let npm_root = text::trim(printed.as_str());
            find_playwright_in_node_modules(npm_root.as_str())
        },
        None => Probe::over_none(),
    }
}

/// Tries the Playwright packages in a `node_modules` directory.
pub fn find_playwright_in_node_modules(node_modules: &str) -> (progress: ProbeProgress)
    ensures
        progress@ == ProbeView::over(node_modules_candidates(node_modules@)),
{
    let mut candidates: Vec<Location> = Vec::new();
    candidates.push(Location::text(node_modules.to_owned()).join("playwright").join("cli.js"));
    candidates.push(
        Location::text(node_modules.to_owned()).join("@playwright").join("test").join("cli.js"),
    );
    assert(probe::locations(candidates@) =~= node_modules_candidates(node_modules@));
    Probe::over(candidates)
}

// ---------------------------------------------------------------------------------------------
// Going through the sources
// ---------------------------------------------------------------------------------------------

/// The sources that have to ask something before they can offer a candidate.
#[derive(Debug, Clone, Copy, PartialEq, Eq, Structural)]
pub enum CliLookup {
    UserCache,
    DriverPathVariable,
    CliJsVariable,
    NpmGlobal,
    NpmLocal,
}

impl CliLookup {
    /// What the source asks.
    pub open spec fn spec_question(self) -> QuestionView {
        match self {
            CliLookup::UserCache => QuestionView::Directory(UserDirectory::Cache),
            CliLookup::DriverPathVariable => QuestionView::Variable("PLAYWRIGHT_DRIVER_PATH"@),
            CliLookup::CliJsVariable => QuestionView::Variable("PLAYWRIGHT_CLI_JS"@),
            CliLookup::NpmGlobal => QuestionView::Output(npm_root_global()),
            CliLookup::NpmLocal => QuestionView::Output(npm_root_local()),
        }
    }

    /// What the source offers once its question is answered.
    pub open spec fn candidates(self, build: BuildInfoView, answer: AnswerView) -> Seq<
        LocationView,
    > {
        match (self, answer) {
            (CliLookup::UserCache, AnswerView::Directory(directory)) => user_cache_candidates(
                directory,
                build,
            ),
            (CliLookup::DriverPathVariable, AnswerView::Variable(value)) => driver_path_candidates(
                value,
            ),
            (CliLookup::CliJsVariable, AnswerView::Variable(value)) => cli_js_candidates(value),
            (CliLookup::NpmGlobal, AnswerView::Output(output)) => npm_candidates(output),
            (CliLookup::NpmLocal, AnswerView::Output(output)) => npm_candidates(output),
            _ => seq![],
        }
    }

    /// The source that is tried after this one.
    pub open spec fn spec_next(self) -> Option<CliLookup> {
        match self {
            CliLookup::UserCache => Some(CliLookup::DriverPathVariable),
            CliLookup::DriverPathVariable => Some(CliLookup::CliJsVariable),
            CliLookup::CliJsVariable => Some(CliLookup::NpmGlobal),
            CliLookup::NpmGlobal => Some(CliLookup::NpmLocal),
            CliLookup::NpmLocal => None,
        }
    }

    fn question(self) -> (question: Question<'static>)
        ensures
            question@ == self.spec_question(),
    {
        match self {
            CliLookup::UserCache => Question::Directory(UserDirectory::Cache),
            CliLookup::DriverPathVariable => Question::Variable("PLAYWRIGHT_DRIVER_PATH"),
            CliLookup::CliJsVariable => Question::Variable("PLAYWRIGHT_CLI_JS"),
            CliLookup::NpmGlobal => {
                let command = CommandLine::new("npm", &["root", "-g"]);
                assert(command@.args =~= npm_root_global().args);
                Question::Output(command)
            },
            CliLookup::NpmLocal => {
                let command = CommandLine::new("npm", &["root"]);
                assert(command@.args =~= npm_root_local().args);
                Question::Output(command)
            },
        }
    }

    fn next(self) -> (next: Option<CliLookup>)
        ensures
            next == self.spec_next(),
    {
        match self {
            CliLookup::UserCache => Some(CliLookup::DriverPathVariable),
            CliLookup::DriverPathVariable => Some(CliLookup::CliJsVariable),
            CliLookup::CliJsVariable => Some(CliLookup::NpmGlobal),
            CliLookup::NpmGlobal => Some(CliLookup::NpmLocal),
            CliLookup::NpmLocal => None,
        }
    }
}

/// An unfinished search for the driver's `cli.js`.
#[derive(Debug)]
pub struct CliSearch {
    build: BuildInfo,
    stage: CliStage,
}

#[derive(Debug)]
enum CliStage {
    Lookup(CliLookup),
    Probing(Probe, Option<CliLookup>),
}

/// The mathematical counterpart of [`CliSearch`].
pub struct CliSearchView {
    pub build: BuildInfoView,
    pub stage: CliStageView,
}

/// How far a search has come.
pub enum CliStageView {
    /// The source has asked its question.
    Lookup(CliLookup),
    /// The candidates of a source are being checked; the source named here comes after it.
    Probing(ProbeView, Option<CliLookup>),
}

impl View for CliSearch {
    type V = CliSearchView;

    closed spec fn view(&self) -> CliSearchView {
        CliSearchView {
            build: self.build@,
            stage: match self.stage {
                CliStage::Lookup(lookup) => CliStageView::Lookup(lookup),
                CliStage::Probing(probe, then) => CliStageView::Probing(probe@, then),
            },
        }
    }
}

/// What a search has come to: the location of `cli.js`, or `None` where no candidate exists.
pub type CliProgress = Progress<CliSearch, Option<Location>>;

/// The mathematical counterpart of [`CliProgress`].
pub type CliProgressView = Progress<CliSearchView, Option<LocationView>>;

impl View for Progress<CliSearch, Option<Location>> {
    type V = CliProgressView;

    open spec fn view(&self) -> CliProgressView {
        match self {
            Progress::Pending(search) => Progress::Pending(search@),
            Progress::Settled(found) => Progress::Settled(probe::optional_location(*found)),
        }
    }
}

impl CliSearchView {
    /// The search at its beginning, with the candidates of the bundled driver.
    pub open spec fn start(build: BuildInfoView) -> CliSearchView {
        let stage = match ProbeView::over(bundled_candidates(build)) {
            Progress::Pending(probe) => CliStageView::Probing(probe, Some(CliLookup::UserCache)),
            Progress::Settled(_) => CliStageView::Lookup(CliLookup::UserCache),
        };
        CliSearchView { build, stage }
    }

    /// What the search asks next.
    pub open spec fn question(self) -> QuestionView {
        match self.stage {
            CliStageView::Lookup(lookup) => lookup.spec_question(),
            CliStageView::Probing(probe, _) => QuestionView::Exists(probe.candidate),
        }
    }

    /// Where the search stands once a source has come to `progress`; `then` is tried after it.
    pub open spec fn after(
        build: BuildInfoView,
        progress: ProbeProgressView,
        then: Option<CliLookup>,
    ) -> CliProgressView {
        match progress {
            Progress::Pending(probe) => Progress::Pending(
                CliSearchView { build, stage: CliStageView::Probing(probe, then) },
            ),
            Progress::Settled(Some(found)) => Progress::Settled(Some(found)),
            Progress::Settled(None) => match then {
                Some(lookup) => Progress::Pending(
                    CliSearchView { build, stage: CliStageView::Lookup(lookup) },
                ),
                None => Progress::Settled(None),
            },
        }
    }

    /// Where the search stands once its question is answered. An answer to another question
    /// leaves it where it is.
    pub open spec fn resume(self, answer: AnswerView) -> CliProgressView {
        if !self.question().takes(answer) {
            Progress::Pending(self)
        } else {
            match self.stage {
                CliStageView::Lookup(lookup) => CliSearchView::after(
                    self.build,
                    ProbeView::over(lookup.candidates(self.build, answer)),
                    lookup.spec_next(),
                ),
                CliStageView::Probing(probe, then) => CliSearchView::after(
                    self.build,
                    probe.resume(answer->Exists_0),
                    then,
                ),
            }
        }
    }
}

impl CliSearch {
    /// Starts the search. Run to its end on any machine, it finds the first candidate that
    /// exists.
    pub fn start(build: BuildInfo) -> (search: CliSearch)
        ensures
            search@ == CliSearchView::start(build@),
            forall|world: World| #[trigger]
                cli_result(Progress::Pending(search@), world) == probe::first_existing(
                    cli_candidates(build@, world),
                    world.existing,
                ),
    {
        proof {
            assert forall|world: World| #[trigger]
                cli_result(Progress::Pending(CliSearchView::start(build@)), world)
                == probe::first_existing(cli_candidates(build@, world), world.existing) by {
                laws::law_cli_search_order(build@, world);
            }
        }
        let stage = match try_bundled_cli(&build) {
            Progress::Pending(probe) => CliStage::Probing(probe, Some(CliLookup::UserCache)),
            Progress::Settled(_) => CliStage::Lookup(CliLookup::UserCache),
        };
        CliSearch { build, stage }
    }

    /// What the search asks next.
    pub fn question(&self) -> (question: Question<'_>)
        ensures
            question@ == self@.question(),
    {
        match &self.stage {
            CliStage::Lookup(lookup) => lookup.question(),
            CliStage::Probing(probe, _) => Question::Exists(&probe.candidate),
        }
    }

    fn after(build: BuildInfo, progress: ProbeProgress, then: Option<CliLookup>) -> (next:
        CliProgress)
        ensures
            next@ == CliSearchView::after(build@, progress@, then),
    {
        match progress {
            Progress::Pending(probe) => Progress::Pending(
                CliSearch { build, stage: CliStage::Probing(probe, then) },
            ),
            Progress::Settled(Some(found)) => Progress::Settled(Some(found)),
            Progress::Settled(None) => match then {
                Some(lookup) => Progress::Pending(
                    CliSearch { build, stage: CliStage::Lookup(lookup) },
                ),
                None => Progress::Settled(None),
            },
        }
    }

    /// Goes on with the answer to the question. An answer to another question changes nothing.
    pub fn resume(self, answer: Answer) -> (progress: CliProgress)
        ensures
            progress@ == self@.resume(answer@),
    {
        let build = self.build;
        match (self.stage, answer) {
            (CliStage::Probing(probe, then), Answer::Exists(exists)) => CliSearch::after(
                build,
                probe.resume(exists),
                then,
            ),
            (CliStage::Lookup(CliLookup::UserCache), Answer::Directory(directory)) => {
                let progress = try_user_cache_cli(directory, &build);
                CliSearch::after(build, progress, CliLookup::UserCache.next())
            },
            (
                CliStage::Lookup(CliLookup::DriverPathVariable),
                Answer::Variable(value),
            ) => CliSearch::after(
                build,
                try_driver_path_env(value),
                CliLookup::DriverPathVariable.next(),
            ),
            (CliStage::Lookup(CliLookup::CliJsVariable), Answer::Variable(value)) => CliSearch::after(
                build,
                try_cli_js_env(value),
                CliLookup::CliJsVariable.next(),
            ),
            (CliStage::Lookup(CliLookup::NpmGlobal), Answer::Output(output)) => CliSearch::after(
                build,
                try_npm(output),
                CliLookup::NpmGlobal.next(),
            ),
            (CliStage::Lookup(CliLookup::NpmLocal), Answer::Output(output)) => CliSearch::after(
                build,
                try_npm(output),
                CliLookup::NpmLocal.next(),
            ),
            (stage, _) => Progress::Pending(CliSearch { build, stage }),
        }
    }
}

// ---------------------------------------------------------------------------------------------
// Running a search to its end
// ---------------------------------------------------------------------------------------------

impl CliLookup {
    /// The most questions that this source and those after it can ask.
    pub open spec fn questions(self) -> nat {
        match self {
            CliLookup::UserCache => 12,
            CliLookup::DriverPathVariable => 10,
            CliLookup::CliJsVariable => 8,
            CliLookup::NpmGlobal => 6,
            CliLookup::NpmLocal => 3,
        }
    }
}

/// The most questions that a search can still ask.
pub open spec fn cli_questions_left(progress: CliProgressView) -> nat {
    match progress {
        Progress::Pending(search) => match search.stage {
            CliStageView::Lookup(lookup) => lookup.questions(),
            CliStageView::Probing(probe, then) => 1 + probe.rest.len() + (match then {
                Some(lookup) => lookup.questions(),
                None => 0,
            }),
        },
        Progress::Settled(_) => 0,
    }
}

/// What a search ends in on the machine `world`.
pub open spec fn cli_result(progress: CliProgressView, world: World) -> Option<LocationView>
    decreases cli_questions_left(progress),
{
    match progress {
        Progress::Pending(search) => cli_result(
            search.resume(world.answer(search.question())),
            world,
        ),
        Progress::Settled(found) => found,
    }
}

/// The questions that a search asks on the machine `world`, first to last.
pub open spec fn cli_questions(progress: CliProgressView, world: World) -> Seq<QuestionView>
    decreases cli_questions_left(progress),
{
    match progress {
        Progress::Pending(search) => seq![search.question()] + cli_questions(
            search.resume(world.answer(search.question())),
            world,
        ),
        Progress::Settled(_) => seq![],
    }
}

} // verus!
