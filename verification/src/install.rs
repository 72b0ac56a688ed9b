//! Installing browsers with the installer of the driver.
//!
//! An installation first locates the driver, then runs `cli.js install` with Deno, and reports
//! what came of it.
use vstd::prelude::*;
use vstd::string::*;

use crate::driver::{self, DriverProgress, DriverProgressView, DriverSearch, DriverSearchView};
use crate::error::{Error, ErrorView};
use crate::host::{Answer, AnswerView, BuildInfo, BuildInfoView, Os, Question, QuestionView, World};
use crate::laws;
use crate::location::{self, Location, LocationView};
use crate::probe::Progress;
use crate::text;

verus! {

// ---------------------------------------------------------------------------------------------
// The command
// ---------------------------------------------------------------------------------------------

/// The arguments in front of every `deno` invocation that executes the driver's `cli.js`.
///
/// - `--allow-all`: the driver spawns browsers, binds sockets and uses files anywhere.
/// - `--unstable-detect-cjs`: the playwright package ships CommonJS without saying so in its
///   `package.json`.
/// - `--no-config`, `--no-lock`: nothing in the working directory of the caller has a say.
pub const DENO_RUN_ARGS: [&'static str; 5] = [
    "run",
    "--allow-all",
    "--unstable-detect-cjs",
    "--no-config",
    "--no-lock",
];

/// An argument of a command.
#[derive(Debug)]
pub enum Argument {
    Text(String),
    Path(Location),
}

/// The mathematical counterpart of [`Argument`].
pub enum ArgumentView {
    Text(Seq<char>),
    Path(LocationView),
}

impl View for Argument {
    type V = ArgumentView;

    open spec fn view(&self) -> ArgumentView {
        match self {
            Argument::Text(text) => ArgumentView::Text(text@),
            Argument::Path(location) => ArgumentView::Path(location@),
        }
    }
}

/// The command that installs browsers.
#[derive(Debug)]
pub struct InstallCommand {
    /// The Deno executable.
    pub program: Location,
    pub args: Vec<Argument>,
}

/// The mathematical counterpart of [`InstallCommand`].
pub struct InstallCommandView {
    pub program: LocationView,
    pub args: Seq<ArgumentView>,
}

impl View for InstallCommand {
    type V = InstallCommandView;

    open spec fn view(&self) -> InstallCommandView {
        InstallCommandView { program: self.program@, args: arguments(self.args@) }
    }
}

/// The views of a sequence of arguments.
pub open spec fn arguments(args: Seq<Argument>) -> Seq<ArgumentView> {
    args.map_values(|arg: Argument| arg@)
}

/// Texts as arguments.
pub open spec fn text_arguments(args: Seq<Seq<char>>) -> Seq<ArgumentView> {
    args.map_values(|arg: Seq<char>| ArgumentView::Text(arg))
}

/// The texts of [`DENO_RUN_ARGS`].
pub open spec fn deno_run_args() -> Seq<Seq<char>> {
    DENO_RUN_ARGS@.map_values(|arg: &'static str| arg@)
}

/// The command that has `deno_exe` run the installer of `cli_js`: the arguments of every such
/// invocation, `cli.js`, `install`, the browsers, and `--with-deps` if it is wanted.
pub open spec fn install_command(
    deno_exe: LocationView,
    cli_js: LocationView,
    browsers: Seq<Seq<char>>,
    with_deps: bool,
) -> InstallCommandView {
    let flags = if with_deps {
        seq!["--with-deps"@]
    } else {
        seq![]
    };
    InstallCommandView {
        program: deno_exe,
        args: text_arguments(deno_run_args()) + seq![
            ArgumentView::Path(cli_js),
            ArgumentView::Text("install"@),
        ] + text_arguments(browsers) + text_arguments(flags),
    }
}

/// Appends texts as arguments.
fn push_texts(args: &mut Vec<Argument>, list: Vec<String>)
    ensures
        arguments(final(args)@) == arguments(old(args)@) + text_arguments(
            location::texts(list@),
        ),
{
    let ghost before = args@;
    let mut rest = list;
    let ghost mut moved: Seq<String> = seq![];
    assert(arguments(args@) =~= arguments(before) + text_arguments(location::texts(moved)));
    while rest.len() > 0
        invariant
            moved + rest@ == list@,
            arguments(args@) == arguments(before) + text_arguments(location::texts(moved)),
        decreases rest.len(),
    {
        let ghost rest_before = rest@;
        let ghost args_before = args@;
        let text = rest.remove(0);
        args.push(Argument::Text(text));
        proof {
            assert(moved.push(text) + rest@ =~= moved + rest_before);
            assert(arguments(args@) =~= arguments(args_before).push(ArgumentView::Text(text@)));
            assert(text_arguments(location::texts(moved.push(text))) =~= text_arguments(
                location::texts(moved),
            ).push(ArgumentView::Text(text@)));
            assert(arguments(args@) =~= arguments(before) + text_arguments(
                location::texts(moved.push(text)),
            ));
            moved = moved.push(text);
        }
    }
    assert(moved =~= list@);
}

impl InstallCommand {
    /// The command that has `deno_exe` run the installer of `cli_js`.
    pub fn new(deno_exe: Location, cli_js: Location, browsers: Vec<String>, with_deps: bool) -> (command:
        InstallCommand)
        ensures
            command@ == install_command(
                deno_exe@,
                cli_js@,
                location::texts(browsers@),
                with_deps,
            ),
    {
        let mut args: Vec<Argument> = Vec::new();
        push_texts(&mut args, location::to_strings(&DENO_RUN_ARGS));
        assert(arguments(args@) =~= text_arguments(deno_run_args()));
        args.push(Argument::Path(cli_js));
        args.push(Argument::Text("install".to_owned()));
        assert(arguments(args@) =~= text_arguments(deno_run_args()) + seq![
            ArgumentView::Path(cli_js@),
            ArgumentView::Text("install"@),
        ]);
        push_texts(&mut args, browsers);
        let ghost named = args@;
        if with_deps {
            args.push(Argument::Text("--with-deps".to_owned()));
            assert(arguments(args@) =~= arguments(named) + text_arguments(seq!["--with-deps"@]));
        } else {
            assert(arguments(args@) =~= arguments(named) + text_arguments(seq![]));
        }
        InstallCommand { program: deno_exe, args }
    }
}

// ---------------------------------------------------------------------------------------------
// What came of it
// ---------------------------------------------------------------------------------------------

/// What came of the command that installs browsers.
#[derive(Debug)]
pub enum InstallerOutcome {
    /// It could not be started, for this reason.
    NotStarted(String),
    /// It ran.
    Exited {
        /// Whether its exit status reports success.
        success: bool,
        /// Its exit code, if it has one.
        code: Option<i32>,
        stdout: Vec<u8>,
        stderr: Vec<u8>,
    },
}

/// The mathematical counterpart of [`InstallerOutcome`].
pub enum InstallerOutcomeView {
    NotStarted(Seq<char>),
    Exited { success: bool, code: Option<i32>, stdout: Seq<u8>, stderr: Seq<u8> },
}

impl View for InstallerOutcome {
    type V = InstallerOutcomeView;

    open spec fn view(&self) -> InstallerOutcomeView {
        match self {
            InstallerOutcome::NotStarted(reason) => InstallerOutcomeView::NotStarted(reason@),
            InstallerOutcome::Exited { success, code, stdout, stderr } => {
                InstallerOutcomeView::Exited {
                    success: *success,
                    code: *code,
                    stdout: stdout@,
                    stderr: stderr@,
                }
            },
        }
    }
}

/// The view of what an installation came to.
pub open spec fn result_view(result: Result<(), Error>) -> Result<(), ErrorView> {
    match result {
        Ok(()) => Ok(()),
        Err(error) => Err(error@),
    }
}

/// The message about an installer that failed after it had printed these texts.
pub open spec fn failure_message(
    code: Option<i32>,
    stdout: Seq<char>,
    stderr: Seq<char>,
) -> Seq<char> {
    "Browser installation failed (exit code "@ + text::exit_code_text(code) + ").\nstdout: "@
        + text::trimmed(stdout) + "\nstderr: "@ + text::trimmed(stderr)
}

/// What an installation is to report of its installer.
pub open spec fn report(outcome: InstallerOutcomeView) -> Result<(), ErrorView> {
    match outcome {
        InstallerOutcomeView::NotStarted(reason) => Err(
            ErrorView::LaunchFailed("Failed to spawn browser install process: "@ + reason),
        ),
        InstallerOutcomeView::Exited { success, code, stdout, stderr } => if success {
            Ok(())
        } else {
            Err(
                ErrorView::LaunchFailed(
                    failure_message(code, text::decoded(stdout), text::decoded(stderr)),
                ),
            )
        },
    }
}

/// The error about an installer that failed after it had printed these texts.
pub fn installer_failure(code: Option<i32>, stdout: &str, stderr: &str) -> (error: Error)
    ensures
        error@ == ErrorView::LaunchFailed(failure_message(code, stdout@, stderr@)),
{
    let mut message = "Browser installation failed (exit code ".to_owned();
    text::push_exit_code(&mut message, code);
    message.append(").\nstdout: ");
    message.append(text::trim(stdout).as_str());
    message.append("\nstderr: ");
    message.append(text::trim(stderr).as_str());
    Error::LaunchFailed(message)
}

/// What the installation reports of its installer.
pub fn report_outcome(outcome: InstallerOutcome) -> (result: Result<(), Error>)
    ensures
        result_view(result) == report(outcome@),
{
    match outcome {
        InstallerOutcome::NotStarted(reason) => {
            let mut message = "Failed to spawn browser install process: ".to_owned();
            message.append(reason.as_str());
            Err(Error::LaunchFailed(message))
        },
        InstallerOutcome::Exited { success, code, stdout, stderr } => if success {
            Ok(())
        } else {
            let stdout_text = text::decode(stdout.as_slice());
            let stderr_text = text::decode(stderr.as_slice());
            Err(installer_failure(code, stdout_text.as_str(), stderr_text.as_str()))
        },
    }
}

// ---------------------------------------------------------------------------------------------
// The installation
// ---------------------------------------------------------------------------------------------

/// An unfinished installation.
#[derive(Debug)]
pub struct Installation {
    stage: InstallStage,
}

#[derive(Debug)]
enum InstallStage {
    Locating(DriverSearch, Option<Vec<String>>, bool),
    Installing(InstallCommand),
}

/// The mathematical counterpart of [`Installation`].
pub enum InstallationView {
    /// The driver is being searched for. These are the browsers to install, all of them where
    /// there is no selection, and whether their dependencies are to be installed too.
    Locating(DriverSearchView, Option<Seq<Seq<char>>>, bool),
    /// The installer is running.
    Installing(InstallCommandView),
}

/// The texts of a selection of browsers.
spec fn selection_view(browsers: Option<Vec<String>>) -> Option<Seq<Seq<char>>> {
    match browsers {
        Some(names) => Some(location::texts(names@)),
        None => None,
    }
}

impl View for Installation {
    type V = InstallationView;

    closed spec fn view(&self) -> InstallationView {
        match self.stage {
            InstallStage::Locating(search, browsers, with_deps) => InstallationView::Locating(
                search@,
                selection_view(browsers),
                with_deps,
            ),
            InstallStage::Installing(command) => InstallationView::Installing(command@),
        }
    }
}

/// What an installation waits for.
#[derive(Debug)]
pub enum InstallRequest<'a> {
    /// The answer to a question of the search for the driver.
    Answer(Question<'a>),
    /// What comes of this command.
    Outcome(&'a InstallCommand),
}

/// The mathematical counterpart of [`InstallRequest`].
pub enum InstallRequestView {
    Answer(QuestionView),
    Outcome(InstallCommandView),
}

impl<'a> View for InstallRequest<'a> {
    type V = InstallRequestView;

    open spec fn view(&self) -> InstallRequestView {
        match self {
            InstallRequest::Answer(question) => InstallRequestView::Answer(question@),
            InstallRequest::Outcome(command) => InstallRequestView::Outcome(command@),
        }
    }
}

/// What an installation is told.
#[derive(Debug)]
pub enum InstallReply {
    /// To [`InstallRequest::Answer`].
    Answer(Answer),
    /// To [`InstallRequest::Outcome`].
    Outcome(InstallerOutcome),
}

/// The mathematical counterpart of [`InstallReply`].
pub enum InstallReplyView {
    Answer(AnswerView),
    Outcome(InstallerOutcomeView),
}

impl View for InstallReply {
    type V = InstallReplyView;

    open spec fn view(&self) -> InstallReplyView {
        match self {
            InstallReply::Answer(answer) => InstallReplyView::Answer(answer@),
            InstallReply::Outcome(outcome) => InstallReplyView::Outcome(outcome@),
        }
    }
}

/// What an installation has come to.
pub type InstallProgress = Progress<Installation, Result<(), Error>>;

/// The mathematical counterpart of [`InstallProgress`].
pub type InstallProgressView = Progress<InstallationView, Result<(), ErrorView>>;

impl View for Progress<Installation, Result<(), Error>> {
    type V = InstallProgressView;

    open spec fn view(&self) -> InstallProgressView {
        match self {
            Progress::Pending(installation) => Progress::Pending(installation@),
            Progress::Settled(result) => Progress::Settled(result_view(*result)),
        }
    }
}

impl InstallationView {
    /// The installation at its beginning. Dependencies are installed too on Linux, and wherever
    /// that is forced.
    pub open spec fn start(
        browsers: Option<Seq<Seq<char>>>,
        with_deps_forced: bool,
        build: BuildInfoView,
        os: Os,
    ) -> InstallationView {
        InstallationView::Locating(
            DriverSearchView::start(build, os),
            browsers,
            with_deps_forced || os == Os::Linux,
        )
    }

    /// What the installation waits for.
    pub open spec fn request(self) -> InstallRequestView {
        match self {
            InstallationView::Locating(search, _, _) => InstallRequestView::Answer(
                search.question(),
            ),
            InstallationView::Installing(command) => InstallRequestView::Outcome(command),
        }
    }

    /// Where the installation stands once the search for the driver has come to `progress`. An
    /// empty selection of browsers asks for no more than that the driver is there.
    pub open spec fn after_search(
        progress: DriverProgressView,
        browsers: Option<Seq<Seq<char>>>,
        with_deps: bool,
    ) -> InstallProgressView {
        match progress {
            Progress::Pending(search) => Progress::Pending(
                InstallationView::Locating(search, browsers, with_deps),
            ),
            Progress::Settled(Ok((deno_exe, cli_js))) => match browsers {
                Some(names) => if names.len() == 0 {
                    Progress::Settled(Ok(()))
                } else {
                    Progress::Pending(
                        InstallationView::Installing(
                            install_command(deno_exe, cli_js, names, with_deps),
                        ),
                    )
                },
                None => Progress::Pending(
                    InstallationView::Installing(
                        install_command(deno_exe, cli_js, seq![], with_deps),
                    ),
                ),
            },
            Progress::Settled(Err(error)) => Progress::Settled(Err(error)),
        }
    }

    /// Where the installation stands once it is told what it waits for. A reply to anything else
    /// leaves it where it is.
    pub open spec fn resume(self, reply: InstallReplyView) -> InstallProgressView {
        match (self, reply) {
            (
                InstallationView::Locating(search, browsers, with_deps),
                InstallReplyView::Answer(answer),
            ) => InstallationView::after_search(search.resume(answer), browsers, with_deps),
            (
                InstallationView::Installing(_),
                InstallReplyView::Outcome(outcome),
            ) => Progress::Settled(report(outcome)),
            _ => Progress::Pending(self),
        }
    }
}

/// What an installation is to end in, given what the search for the driver found, where
/// `installer` says what comes of each command.
pub open spec fn install_outcome(
    browsers: Option<Seq<Seq<char>>>,
    with_deps: bool,
    found: Result<(LocationView, LocationView), ErrorView>,
    installer: spec_fn(InstallCommandView) -> InstallerOutcomeView,
) -> Result<(), ErrorView> {
    match (found, browsers) {
        (Err(error), _) => Err(error),
        (Ok((deno_exe, cli_js)), None) => report(
            installer(install_command(deno_exe, cli_js, seq![], with_deps)),
        ),
        (Ok((deno_exe, cli_js)), Some(names)) => if names.len() == 0 {
            Ok(())
        } else {
            report(installer(install_command(deno_exe, cli_js, names, with_deps)))
        },
    }
}

/// The most replies that an installation can still wait for.
pub open spec fn replies_left(progress: InstallProgressView) -> nat {
    match progress {
        Progress::Pending(InstallationView::Locating(search, _, _)) => 1
            + driver::driver_questions_left(Progress::Pending(search)),
        Progress::Pending(InstallationView::Installing(_)) => 1,
        Progress::Settled(_) => 0,
    }
}

/// What an installation ends in on the machine `world`, where `installer` says what comes of each
/// command.
pub open spec fn install_result(
    progress: InstallProgressView,
    world: World,
    installer: spec_fn(InstallCommandView) -> InstallerOutcomeView,
) -> Result<(), ErrorView>
    decreases replies_left(progress),
{
    match progress {
        Progress::Pending(installation) => {
            let reply = match installation.request() {
                InstallRequestView::Answer(question) => InstallReplyView::Answer(
                    world.answer(question),
                ),
                InstallRequestView::Outcome(command) => InstallReplyView::Outcome(
                    installer(command),
                ),
            };
            install_result(installation.resume(reply), world, installer)
        },
        Progress::Settled(result) => result,
    }
}

/// The texts of a selection of browsers that a caller made.
pub open spec fn selection(browsers: Option<&[&str]>) -> Option<Seq<Seq<char>>> {
    match browsers {
        Some(names) => Some(names@.map_values(|name: &str| name@)),
        None => None,
    }
}

/// Starts the installation of the selected browsers, of all browsers where there is no selection.
/// Their system dependencies are installed too on Linux.
///
/// An empty selection installs nothing: it only makes sure that the driver can be reached.
pub fn install_browsers(browsers: Option<&[&str]>, build: BuildInfo, os: Os) -> (installation:
    Installation)
    ensures
        installation@ == InstallationView::start(selection(browsers), false, build@, os),
        forall|world: World, installer: spec_fn(InstallCommandView) -> InstallerOutcomeView|
            #[trigger] install_result(Progress::Pending(installation@), world, installer)
                == install_outcome(
                selection(browsers),
                os == Os::Linux,
                driver::driver_outcome(build@, os, world),
                installer,
            ),
{
    install_browsers_impl(browsers, false, build, os)
}

/// Starts the installation of the selected browsers, of all browsers where there is no selection,
/// together with their system dependencies on every operating system.
///
/// An empty selection installs nothing: it only makes sure that the driver can be reached.
pub fn install_browsers_with_deps(
    browsers: Option<&[&str]>,
    build: BuildInfo,
    os: Os,
) -> (installation: Installation)
    ensures
        installation@ == InstallationView::start(selection(browsers), true, build@, os),
        forall|world: World, installer: spec_fn(InstallCommandView) -> InstallerOutcomeView|
            #[trigger] install_result(Progress::Pending(installation@), world, installer)
                == install_outcome(
                selection(browsers),
                true,
                driver::driver_outcome(build@, os, world),
                installer,
            ),
{
    install_browsers_impl(browsers, true, build, os)
}

fn install_browsers_impl(
    browsers: Option<&[&str]>,
    with_deps_forced: bool,
    build: BuildInfo,
    os: Os,
) -> (installation: Installation)
    ensures
        installation@ == InstallationView::start(
            selection(browsers),
            with_deps_forced,
            build@,
            os,
        ),
        forall|world: World, installer: spec_fn(InstallCommandView) -> InstallerOutcomeView|
            #[trigger] install_result(Progress::Pending(installation@), world, installer)
                == install_outcome(
                selection(browsers),
                with_deps_forced || os == Os::Linux,
                driver::driver_outcome(build@, os, world),
                installer,
            ),
{
    let names = match browsers {
        Some(list) => Some(location::to_strings(list)),
        None => None,
    };
    let search = driver::get_driver_executable(build, os);
    let with_deps = with_deps_forced || os == Os::Linux;
    let installation = Installation { stage: InstallStage::Locating(search, names, with_deps) };
    proof {
        assert forall|world: World, installer: spec_fn(InstallCommandView) -> InstallerOutcomeView|
            #[trigger] install_result(Progress::Pending(installation@), world, installer)
                == install_outcome(
                selection(browsers),
                with_deps,
                driver::driver_outcome(build@, os, world),
                installer,
            ) by {
            laws::law_installation(
                selection(browsers),
                with_deps_forced,
                build@,
                os,
                world,
                installer,
            );
        }
    }
    installation
}

impl Installation {
    /// What the installation waits for.
    pub fn request(&self) -> (request: InstallRequest<'_>)
        ensures
            request@ == self@.request(),
    {
        match &self.stage {
            InstallStage::Locating(search, _, _) => InstallRequest::Answer(search.question()),
            InstallStage::Installing(command) => InstallRequest::Outcome(command),
        }
    }

    fn after_search(progress: DriverProgress, browsers: Option<Vec<String>>, with_deps: bool) -> (next:
        InstallProgress)
        ensures
            next@ == InstallationView::after_search(
                progress@,
                selection_view(browsers),
                with_deps,
            ),
    {
        match progress {
            Progress::Pending(search) => Progress::Pending(
                Installation { stage: InstallStage::Locating(search, browsers, with_deps) },
            ),
            Progress::Settled(Ok((deno_exe, cli_js))) => {
                let names = match browsers {
                    Some(names) => {
                        if names.len() == 0 {
                            return Progress::Settled(Ok(()));
                        }
                        names
                    },
                    None => {
                        let none: Vec<String> = Vec::new();
                        assert(location::texts(none@) =~= seq![]);
                        none
                    },
                };
                let command = InstallCommand::new(deno_exe, cli_js, names, with_deps);
                Progress::Pending(Installation { stage: InstallStage::Installing(command) })
            },
            Progress::Settled(Err(error)) => Progress::Settled(Err(error)),
        }
    }

    /// Goes on with what the installation waited for. A reply to anything else changes nothing.
    pub fn resume(self, reply: InstallReply) -> (progress: InstallProgress)
        ensures
            progress@ == self@.resume(reply@),
    {
        match (self.stage, reply) {
            (
                InstallStage::Locating(search, browsers, with_deps),
                InstallReply::Answer(answer),
            ) => Installation::after_search(search.resume(answer), browsers, with_deps),
            (
                InstallStage::Installing(_),
                InstallReply::Outcome(outcome),
            ) => Progress::Settled(report_outcome(outcome)),
            (stage, _) => Progress::Pending(Installation { stage }),
        }
    }
}

} // verus!
