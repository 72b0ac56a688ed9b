//! The search for what it takes to run the driver: its `cli.js`, then the Deno executable.
use vstd::prelude::*;

use crate::cli::{self, CliProgress, CliProgressView, CliSearch, CliSearchView};
use crate::deno::{self, DenoProgress, DenoProgressView, DenoSearch, DenoSearchView};
use crate::error::{Error, ErrorView};
use crate::host::{Answer, AnswerView, BuildInfo, BuildInfoView, Os, Question, QuestionView, World};
use crate::laws;
use crate::location::{Location, LocationView};
use crate::probe::{self, Progress};

verus! {

/// An unfinished search for the driver.
#[derive(Debug)]
pub struct DriverSearch {
    stage: DriverStage,
}

#[derive(Debug)]
enum DriverStage {
    Cli(CliSearch, Os),
    Deno(Location, DenoSearch),
}

/// The mathematical counterpart of [`DriverSearch`].
pub enum DriverSearchView {
    /// `cli.js` is being searched for, on this operating system.
    Cli(CliSearchView, Os),
    /// `cli.js` was found; Deno is being searched for.
    Deno(LocationView, DenoSearchView),
}

impl View for DriverSearch {
    type V = DriverSearchView;

    closed spec fn view(&self) -> DriverSearchView {
        match self.stage {
            DriverStage::Cli(search, os) => DriverSearchView::Cli(search@, os),
            DriverStage::Deno(cli_js, search) => DriverSearchView::Deno(cli_js@, search@),
        }
    }
}

/// What a search has come to: the locations of Deno and of `cli.js`, or why there are none.
pub type DriverProgress = Progress<DriverSearch, Result<(Location, Location), Error>>;

/// The mathematical counterpart of [`DriverProgress`].
pub type DriverProgressView = Progress<
    DriverSearchView,
    Result<(LocationView, LocationView), ErrorView>,
>;

impl View for Progress<DriverSearch, Result<(Location, Location), Error>> {
    type V = DriverProgressView;

    open spec fn view(&self) -> DriverProgressView {
        match self {
            Progress::Pending(search) => Progress::Pending(search@),
            Progress::Settled(Ok(found)) => Progress::Settled(Ok((found.0@, found.1@))),
            Progress::Settled(Err(error)) => Progress::Settled(Err(error@)),
        }
    }
}

impl DriverSearchView {
    /// The search at its beginning.
    pub open spec fn start(build: BuildInfoView, os: Os) -> DriverSearchView {
        DriverSearchView::Cli(CliSearchView::start(build), os)
    }

    /// What the search asks next.
    pub open spec fn question(self) -> QuestionView {
        match self {
            DriverSearchView::Cli(search, _) => search.question(),
            DriverSearchView::Deno(_, search) => search.question(),
        }
    }

    /// Where the search stands once that for `cli.js` has come to `progress`.
    pub open spec fn after_cli(progress: CliProgressView, os: Os) -> DriverProgressView {
        match progress {
            Progress::Pending(search) => Progress::Pending(DriverSearchView::Cli(search, os)),
            Progress::Settled(Some(cli_js)) => Progress::Pending(
                DriverSearchView::Deno(cli_js, DenoSearchView::start(os)),
            ),
            Progress::Settled(None) => Progress::Settled(Err(ErrorView::ServerNotFound)),
        }
    }

    /// Where the search stands once that for Deno has come to `progress`.
    pub open spec fn after_deno(
        cli_js: LocationView,
        progress: DenoProgressView,
    ) -> DriverProgressView {
        match progress {
            Progress::Pending(search) => Progress::Pending(DriverSearchView::Deno(cli_js, search)),
            Progress::Settled(Ok(deno_exe)) => Progress::Settled(Ok((deno_exe, cli_js))),
            Progress::Settled(Err(error)) => Progress::Settled(Err(error)),
        }
    }

    /// Where the search stands once its question is answered. An answer to another question
    /// leaves it where it is.
    pub open spec fn resume(self, answer: AnswerView) -> DriverProgressView {
        match self {
            DriverSearchView::Cli(search, os) => DriverSearchView::after_cli(
                search.resume(answer),
                os,
            ),
            DriverSearchView::Deno(cli_js, search) => DriverSearchView::after_deno(
                cli_js,
                search.resume(answer),
            ),
        }
    }
}

/// What the driver search is to find on the machine `world`: of the candidates for `cli.js` the
/// first that exists, and of those for Deno the first that exists, as Deno and `cli.js`. A
/// missing `cli.js` is reported before a missing Deno.
pub open spec fn driver_outcome(build: BuildInfoView, os: Os, world: World) -> Result<
    (LocationView, LocationView),
    ErrorView,
> {
    match probe::first_existing(cli::cli_candidates(build, world), world.existing) {
        Some(cli_js) => match probe::first_existing(
            deno::deno_candidates(os, world),
            world.existing,
        ) {
            Some(deno_exe) => Ok((deno_exe, cli_js)),
            None => Err(deno::deno_not_found()),
        },
        None => Err(ErrorView::ServerNotFound),
    }
}

/// The most questions that a search can still ask.
pub open spec fn driver_questions_left(progress: DriverProgressView) -> nat {
    match progress {
        Progress::Pending(DriverSearchView::Cli(search, os)) => cli::cli_questions_left(
            Progress::Pending(search),
        ) + deno::deno_questions_left(Progress::Pending(DenoSearchView::start(os))),
        Progress::Pending(DriverSearchView::Deno(_, search)) => deno::deno_questions_left(
            Progress::Pending(search),
        ),
        Progress::Settled(_) => 0,
    }
}

/// What a search ends in on the machine `world`.
pub open spec fn driver_result(progress: DriverProgressView, world: World) -> Result<
    (LocationView, LocationView),
    ErrorView,
>
    decreases driver_questions_left(progress),
{
    match progress {
        Progress::Pending(search) => driver_result(
            search.resume(world.answer(search.question())),
            world,
        ),
        Progress::Settled(found) => found,
    }
}

/// The questions that a search asks on the machine `world`, first to last.
pub open spec fn driver_questions(progress: DriverProgressView, world: World) -> Seq<QuestionView>
    decreases driver_questions_left(progress),
{
    match progress {
        Progress::Pending(search) => seq![search.question()] + driver_questions(
            search.resume(world.answer(search.question())),
            world,
        ),
        Progress::Settled(_) => seq![],
    }
}

/// What a search comes to when it is given `answers`, one after another.
pub open spec fn driver_follow(
    progress: DriverProgressView,
    answers: Seq<AnswerView>,
) -> DriverProgressView
    decreases answers.len(),
{
    match progress {
        Progress::Pending(search) => if answers.len() == 0 {
            progress
        } else {
            driver_follow(search.resume(answers.first()), answers.drop_first())
        },
        Progress::Settled(_) => progress,
    }
}

/// Whether a search that is given `answers` asks about `location` and is told that it exists.
pub open spec fn driver_confirms(
    progress: DriverProgressView,
    answers: Seq<AnswerView>,
    location: LocationView,
) -> bool
    decreases answers.len(),
{
    match progress {
        Progress::Pending(search) => answers.len() > 0 && {
            ||| search.question() == QuestionView::Exists(location) && answers.first()
                == AnswerView::Exists(true)
            ||| driver_confirms(search.resume(answers.first()), answers.drop_first(), location)
        },
        Progress::Settled(_) => false,
    }
}

/// Starts the search for what it takes to run the driver. Run to its end on any machine, it finds
/// the Deno executable and `cli.js` that come first among those that exist, or reports which of
/// the two is missing.
pub fn get_driver_executable(build: BuildInfo, os: Os) -> (search: DriverSearch)
    ensures
        search@ == DriverSearchView::start(build@, os),
        forall|world: World| #[trigger]
            driver_result(Progress::Pending(search@), world) == driver_outcome(build@, os, world),
{
    proof {
        assert forall|world: World| #[trigger]
            driver_result(Progress::Pending(DriverSearchView::start(build@, os)), world)
            == driver_outcome(build@, os, world) by {
            laws::law_driver_search_order(build@, os, world);
        }
    }
    DriverSearch { stage: DriverStage::Cli(CliSearch::start(build), os) }
}

impl DriverSearch {
    /// What the search asks next.
    pub fn question(&self) -> (question: Question<'_>)
        ensures
            question@ == self@.question(),
    {
        match &self.stage {
            DriverStage::Cli(search, _) => search.question(),
            DriverStage::Deno(_, search) => search.question(),
        }
    }

    fn after_cli(progress: CliProgress, os: Os) -> (next: DriverProgress)
        ensures
            next@ == DriverSearchView::after_cli(progress@, os),
    {
        match progress {
            Progress::Pending(search) => Progress::Pending(
                DriverSearch { stage: DriverStage::Cli(search, os) },
            ),
            Progress::Settled(Some(cli_js)) => Progress::Pending(
                DriverSearch { stage: DriverStage::Deno(cli_js, deno::find_deno_executable(os)) },
            ),
            Progress::Settled(None) => Progress::Settled(Err(Error::ServerNotFound)),
        }
    }

    fn after_deno(cli_js: Location, progress: DenoProgress) -> (next: DriverProgress)
        ensures
            next@ == DriverSearchView::after_deno(cli_js@, progress@),
    {
        match progress {
            Progress::Pending(search) => Progress::Pending(
                DriverSearch { stage: DriverStage::Deno(cli_js, search) },
            ),
            Progress::Settled(Ok(deno_exe)) => Progress::Settled(Ok((deno_exe, cli_js))),
            Progress::Settled(Err(error)) => Progress::Settled(Err(error)),
        }
    }

    /// Goes on with the answer to the question. An answer to another question changes nothing.
    pub fn resume(self, answer: Answer) -> (progress: DriverProgress)
        ensures
            progress@ == self@.resume(answer@),
    {
        match self.stage {
            DriverStage::Cli(search, os) => DriverSearch::after_cli(search.resume(answer), os),
            DriverStage::Deno(cli_js, search) => DriverSearch::after_deno(
                cli_js,
                search.resume(answer),
            ),
        }
    }
}

} // verus!
