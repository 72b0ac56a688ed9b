//! What the mathematical counterparts of the library's values hold: every part of the value, as it
//! is.
use vstd::prelude::*;

use crate::cli::CliSearch;
use crate::deno::DenoSearch;
use crate::driver::DriverSearch;
use crate::error::{Error, ErrorView};
use crate::host::{
    self, Answer, AnswerView, BuildInfo, CommandLine, CommandOutput, CommandOutputView, Question,
    QuestionView, UserDirectory, World,
};
use crate::install::{
    self, Argument, ArgumentView, InstallCommand, InstallReply, InstallReplyView, InstallRequest,
    InstallRequestView, Installation, InstallerOutcome, InstallerOutcomeView,
};
use crate::location::{self, Location, LocationView, Root, RootView};
use crate::probe::{self, Probe, Progress};

verus! {

/// A list of strings stands for the list of their texts.
pub proof fn law_texts(strings: Seq<String>)
    ensures
        location::texts(strings).len() == strings.len(),
        forall|i: int|
            0 <= i < strings.len() ==> #[trigger] location::texts(strings)[i] == strings[i]@,
{
}

/// A location stands for its starting point and the texts of its components.
pub proof fn law_location(location: Location)
    ensures
        match location.root {
            Root::Text(text) => location@.root == RootView::Text(text@),
            Root::Directory(directory) => location@.root == RootView::Directory(directory),
        },
        location@.joined.len() == location.joined@.len(),
        forall|i: int|
            0 <= i < location.joined@.len() ==> #[trigger] location@.joined[i]
                == location.joined@[i]@,
{
}

/// A list of locations stands for the list of what they stand for.
pub proof fn law_locations(candidates: Seq<Location>)
    ensures
        probe::locations(candidates).len() == candidates.len(),
        forall|i: int|
            0 <= i < candidates.len() ==> #[trigger] probe::locations(candidates)[i]
                == candidates[i]@,
{
}

/// A probe stands for its candidate and the candidates behind it.
pub proof fn law_probe_view(probe: Probe)
    ensures
        probe@.candidate == probe.candidate@,
        probe@.rest.len() == probe.rest@.len(),
        forall|i: int|
            0 <= i < probe.rest@.len() ==> #[trigger] probe@.rest[i] == probe.rest@[i]@,
{
}

/// What may be missing is missing exactly where its counterpart is, an empty text included.
pub proof fn law_optional(text: Option<String>, output: Option<CommandOutput>, found: Option<Location>)
    ensures
        text matches Some(t) ==> host::optional_text(text) == Some(t@),
        text is None ==> host::optional_text(text) is None,
        output matches Some(o) ==> host::optional_output(output) == Some(
            CommandOutputView { success: o.success, stdout: o.stdout@ },
        ),
        output is None ==> host::optional_output(output) is None,
        found matches Some(l) ==> probe::optional_location(found) == Some(l@),
        found is None ==> probe::optional_location(found) is None,
{
}

/// Build info stands for its four texts.
pub proof fn law_build_info(build: BuildInfo)
    ensures
        match build.cli_js {
            Some(t) => build@.cli_js == Some(t@),
            None => build@.cli_js is None,
        },
        match build.driver_dir {
            Some(t) => build@.driver_dir == Some(t@),
            None => build@.driver_dir is None,
        },
        match build.driver_version {
            Some(t) => build@.driver_version == Some(t@),
            None => build@.driver_version is None,
        },
        match build.driver_platform {
            Some(t) => build@.driver_platform == Some(t@),
            None => build@.driver_platform is None,
        },
{
}

/// A command line stands for the texts of its program and of its arguments.
pub proof fn law_command_line(command: CommandLine)
    ensures
        command@.program == command.program@,
        command@.args.len() == command.args@.len(),
        forall|i: int|
            0 <= i < command.args@.len() ==> #[trigger] command@.args[i] == command.args@[i]@,
{
}

/// A question stands for what it asks.
pub proof fn law_question(location: Location, name: &'static str, command: CommandLine)
    ensures
        Question::Exists(&location)@ == QuestionView::Exists(location@),
        Question::Directory(UserDirectory::Cache)@ == QuestionView::Directory(UserDirectory::Cache),
        Question::Directory(UserDirectory::Home)@ == QuestionView::Directory(UserDirectory::Home),
        Question::Variable(name)@ == QuestionView::Variable(name@),
        Question::Output(command)@ == QuestionView::Output(command@),
{
}

/// An answer stands for what it says, an empty text and an empty output included.
pub proof fn law_answer(
    exists: bool,
    directory: Option<std::path::PathBuf>,
    value: String,
    output: CommandOutput,
)
    ensures
        Answer::Exists(exists)@ == AnswerView::Exists(exists),
        Answer::Directory(directory)@ == AnswerView::Directory(directory),
        Answer::Variable(Some(value))@ == AnswerView::Variable(Some(value@)),
        Answer::Variable(None)@ == AnswerView::Variable(None),
        Answer::Output(Some(output))@ == AnswerView::Output(
            Some(CommandOutputView { success: output.success, stdout: output.stdout@ }),
        ),
        Answer::Output(None)@ == AnswerView::Output(None),
{
}

/// Each question takes the answers of its own kind, and no others.
pub proof fn law_takes(
    location: LocationView,
    which: UserDirectory,
    name: Seq<char>,
    command: host::CommandLineView,
    answer: AnswerView,
)
    ensures
        QuestionView::Exists(location).takes(answer) <==> answer is Exists,
        QuestionView::Directory(which).takes(answer) <==> answer is Directory,
        QuestionView::Variable(name).takes(answer) <==> answer is Variable,
        QuestionView::Output(command).takes(answer) <==> answer is Output,
{
}

/// A machine says of a location whether it exists there, and gives out its directories, its
/// variables and the outputs of its programs as they are.
pub proof fn law_world(
    world: World,
    location: LocationView,
    name: Seq<char>,
    command: host::CommandLineView,
)
    ensures
        world.answer(QuestionView::Exists(location)) == AnswerView::Exists(
            world.existing.contains(location),
        ),
        world.answer(QuestionView::Directory(UserDirectory::Cache)) == AnswerView::Directory(
            world.cache_directory,
        ),
        world.answer(QuestionView::Directory(UserDirectory::Home)) == AnswerView::Directory(
            world.home_directory,
        ),
        world.answer(QuestionView::Variable(name)) == AnswerView::Variable(
            if world.variables.contains_key(name) {
                Some(world.variables[name])
            } else {
                None
            },
        ),
        world.answer(QuestionView::Output(command)) == AnswerView::Output(
            if world.outputs.contains_key(command) {
                Some(world.outputs[command])
            } else {
                None
            },
        ),
{
}

/// An error stands for its kind and its message.
pub proof fn law_error(message: String)
    ensures
        Error::ServerNotFound@ == ErrorView::ServerNotFound,
        Error::LaunchFailed(message)@ == ErrorView::LaunchFailed(message@),
{
}

/// What has come to a result stands for that result, and what goes on for where it stands.
pub proof fn law_progress(
    probe: Probe,
    cli: CliSearch,
    deno: DenoSearch,
    driver: DriverSearch,
    installation: Installation,
    one: Location,
    other: Location,
    error: Error,
)
    ensures
        Progress::<Probe, Option<Location>>::Pending(probe)@ == Progress::<
            probe::ProbeView,
            Option<LocationView>,
        >::Pending(probe@),
        Progress::<Probe, Option<Location>>::Settled(Some(one))@ == Progress::<
            probe::ProbeView,
            Option<LocationView>,
        >::Settled(Some(one@)),
        Progress::<Probe, Option<Location>>::Settled(None)@ == Progress::<
            probe::ProbeView,
            Option<LocationView>,
        >::Settled(None),
        Progress::<CliSearch, Option<Location>>::Pending(cli)@ == Progress::<
            crate::cli::CliSearchView,
            Option<LocationView>,
        >::Pending(cli@),
        Progress::<CliSearch, Option<Location>>::Settled(Some(one))@ == Progress::<
            crate::cli::CliSearchView,
            Option<LocationView>,
        >::Settled(Some(one@)),
        Progress::<CliSearch, Option<Location>>::Settled(None)@ == Progress::<
            crate::cli::CliSearchView,
            Option<LocationView>,
        >::Settled(None),
        Progress::<DenoSearch, Result<Location, Error>>::Pending(deno)@ == Progress::<
            crate::deno::DenoSearchView,
            Result<LocationView, ErrorView>,
        >::Pending(deno@),
        Progress::<DenoSearch, Result<Location, Error>>::Settled(Ok(one))@ == Progress::<
            crate::deno::DenoSearchView,
            Result<LocationView, ErrorView>,
        >::Settled(Ok(one@)),
        Progress::<DenoSearch, Result<Location, Error>>::Settled(Err(error))@ == Progress::<
            crate::deno::DenoSearchView,
            Result<LocationView, ErrorView>,
        >::Settled(Err(error@)),
        Progress::<DriverSearch, Result<(Location, Location), Error>>::Pending(driver)@
            == Progress::<
            crate::driver::DriverSearchView,
            Result<(LocationView, LocationView), ErrorView>,
        >::Pending(driver@),
        Progress::<DriverSearch, Result<(Location, Location), Error>>::Settled(Ok((one, other)))@
            == Progress::<
            crate::driver::DriverSearchView,
            Result<(LocationView, LocationView), ErrorView>,
        >::Settled(Ok((one@, other@))),
        Progress::<DriverSearch, Result<(Location, Location), Error>>::Settled(Err(error))@
            == Progress::<
            crate::driver::DriverSearchView,
            Result<(LocationView, LocationView), ErrorView>,
        >::Settled(Err(error@)),
        Progress::<Installation, Result<(), Error>>::Pending(installation)@ == Progress::<
            install::InstallationView,
            Result<(), ErrorView>,
        >::Pending(installation@),
        Progress::<Installation, Result<(), Error>>::Settled(Ok(()))@ == Progress::<
            install::InstallationView,
            Result<(), ErrorView>,
        >::Settled(Ok(())),
        Progress::<Installation, Result<(), Error>>::Settled(Err(error))@ == Progress::<
            install::InstallationView,
            Result<(), ErrorView>,
        >::Settled(Err(error@)),
{
}

/// A command that installs browsers stands for its program and its arguments, in order.
pub proof fn law_install_command_view(command: InstallCommand, text: String, path: Location)
    ensures
        command@.program == command.program@,
        command@.args.len() == command.args@.len(),
        forall|i: int|
            0 <= i < command.args@.len() ==> #[trigger] command@.args[i] == command.args@[i]@,
        Argument::Text(text)@ == ArgumentView::Text(text@),
        Argument::Path(path)@ == ArgumentView::Path(path@),
{
}

/// What came of an installer stands for what it says.
pub proof fn law_installer_outcome_view(
    reason: String,
    success: bool,
    code: Option<i32>,
    stdout: Vec<u8>,
    stderr: Vec<u8>,
)
    ensures
        InstallerOutcome::NotStarted(reason)@ == InstallerOutcomeView::NotStarted(reason@),
        (InstallerOutcome::Exited { success, code, stdout, stderr })@ == (
        InstallerOutcomeView::Exited { success, code, stdout: stdout@, stderr: stderr@ }),
{
}

/// Requests and replies of an installation stand for what they hold.
pub proof fn law_requests_and_replies(
    question: Question<'static>,
    command: InstallCommand,
    answer: Answer,
    outcome: InstallerOutcome,
)
    ensures
        InstallRequest::Answer(question)@ == InstallRequestView::Answer(question@),
        InstallRequest::Outcome(&command)@ == InstallRequestView::Outcome(command@),
        InstallReply::Answer(answer)@ == InstallReplyView::Answer(answer@),
        InstallReply::Outcome(outcome)@ == InstallReplyView::Outcome(outcome@),
{
}

/// What an installation came to stands for success, or for its error.
pub proof fn law_result_view(error: Error)
    ensures
        install::result_view(Ok(())) == Ok::<(), ErrorView>(()),
        install::result_view(Err(error)) == Err::<(), ErrorView>(error@),
{
}

/// A selection of browsers stands for the names in it, every one of them and in order.
pub proof fn law_selection(browsers: Option<&[&str]>)
    ensures
        browsers is None <==> install::selection(browsers) is None,
        browsers matches Some(names) ==> {
            &&& install::selection(browsers) matches Some(selected)
            &&& selected.len() == names@.len()
            &&& forall|i: int| 0 <= i < names@.len() ==> #[trigger] selected[i] == names@[i]@
        },
{
}

} // verus!
