//! What a search has to learn from the machine it runs on: the questions that it asks, the
//! answers that it takes, and what the build of the crate recorded.
use std::path::PathBuf;
use vstd::prelude::*;

use crate::location::{self, Location, LocationView};

verus! {

/// The families of operating systems that a search or an installation treats differently.
#[derive(Debug, Clone, Copy, PartialEq, Eq, Structural)]
pub enum Os {
    Linux,
    Windows,
    Other,
}

/// What the build recorded of the driver that it downloaded.
#[derive(Debug)]
pub struct BuildInfo {
    /// The `cli.js` of the bundled driver.
    pub cli_js: Option<String>,
    /// The directory of the bundled driver.
    pub driver_dir: Option<String>,
    /// The version of the driver.
    pub driver_version: Option<String>,
    /// The platform that the driver was built for.
    pub driver_platform: Option<String>,
}

/// The mathematical counterpart of [`BuildInfo`].
pub struct BuildInfoView {
    pub cli_js: Option<Seq<char>>,
    pub driver_dir: Option<Seq<char>>,
    pub driver_version: Option<Seq<char>>,
    pub driver_platform: Option<Seq<char>>,
}

/// The text of a string that may be missing.
pub open spec fn optional_text(string: Option<String>) -> Option<Seq<char>> {
    match string {
        Some(s) => Some(s@),
        None => None,
    }
}

impl View for BuildInfo {
    type V = BuildInfoView;

    open spec fn view(&self) -> BuildInfoView {
        BuildInfoView {
            cli_js: optional_text(self.cli_js),
            driver_dir: optional_text(self.driver_dir),
            driver_version: optional_text(self.driver_version),
            driver_platform: optional_text(self.driver_platform),
        }
    }
}

/// A program to run and its arguments.
#[derive(Debug)]
pub struct CommandLine {
    pub program: String,
    pub args: Vec<String>,
}

/// The mathematical counterpart of [`CommandLine`].
pub struct CommandLineView {
    pub program: Seq<char>,
    pub args: Seq<Seq<char>>,
}

impl View for CommandLine {
    type V = CommandLineView;

    open spec fn view(&self) -> CommandLineView {
        CommandLineView { program: self.program@, args: location::texts(self.args@) }
    }
}

impl CommandLine {
    /// The program `program` with the arguments `args`.
    pub fn new(program: &str, args: &[&str]) -> (command: CommandLine)
        ensures
            command@.program == program@,
            command@.args == args@.map_values(|arg: &str| arg@),
            command.program@ == program@,
            command.args@.len() == args@.len(),
            forall|i: int| 0 <= i < args@.len() ==> (#[trigger] command.args@[i])@ == args@[i]@,
    {
        CommandLine { program: program.to_owned(), args: location::to_strings(args) }
    }
}

/// What came of a program that could be run.
#[derive(Debug)]
pub struct CommandOutput {
    /// Whether its exit status reports success.
    pub success: bool,
    /// What it wrote to its standard output.
    pub stdout: Vec<u8>,
}

/// The mathematical counterpart of [`CommandOutput`].
pub struct CommandOutputView {
    pub success: bool,
    pub stdout: Seq<u8>,
}

impl View for CommandOutput {
    type V = CommandOutputView;

    open spec fn view(&self) -> CommandOutputView {
        CommandOutputView { success: self.success, stdout: self.stdout@ }
    }
}

/// The view of an output that may be missing.
pub open spec fn optional_output(output: Option<CommandOutput>) -> Option<CommandOutputView> {
    match output {
        Some(o) => Some(o@),
        None => None,
    }
}

/// The directories of the user that a search asks for.
#[derive(Debug, Clone, Copy, PartialEq, Eq, Structural)]
pub enum UserDirectory {
    Cache,
    Home,
}

/// What a search asks next.
#[derive(Debug)]
pub enum Question<'a> {
    /// Is there a file or a directory at this location?
    Exists(&'a Location),
    /// Where is this directory of the user?
    Directory(UserDirectory),
    /// What does the environment variable of this name hold?
    Variable(&'static str),
    /// What does this program print?
    Output(CommandLine),
}

/// The mathematical counterpart of [`Question`].
pub enum QuestionView {
    Exists(LocationView),
    Directory(UserDirectory),
    Variable(Seq<char>),
    Output(CommandLineView),
}

impl<'a> View for Question<'a> {
    type V = QuestionView;

    open spec fn view(&self) -> QuestionView {
        match self {
            Question::Exists(location) => QuestionView::Exists(location@),
            Question::Directory(which) => QuestionView::Directory(*which),
            Question::Variable(name) => QuestionView::Variable(name@),
            Question::Output(command) => QuestionView::Output(command@),
        }
    }
}

/// What the host says to a question.
#[derive(Debug)]
pub enum Answer {
    /// To [`Question::Exists`].
    Exists(bool),
    /// To [`Question::Directory`]; `None` where the user has no such directory.
    Directory(Option<PathBuf>),
    /// To [`Question::Variable`]; `None` where the variable is not set, or not to valid text.
    Variable(Option<String>),
    /// To [`Question::Output`]; `None` where the program could not be run.
    Output(Option<CommandOutput>),
}

/// The mathematical counterpart of [`Answer`].
pub enum AnswerView {
    Exists(bool),
    Directory(Option<PathBuf>),
    Variable(Option<Seq<char>>),
    Output(Option<CommandOutputView>),
}

impl View for Answer {
    type V = AnswerView;

    open spec fn view(&self) -> AnswerView {
        match self {
            Answer::Exists(exists) => AnswerView::Exists(*exists),
            Answer::Directory(directory) => AnswerView::Directory(*directory),
            Answer::Variable(value) => AnswerView::Variable(optional_text(*value)),
            Answer::Output(output) => AnswerView::Output(optional_output(*output)),
        }
    }
}

impl QuestionView {
    /// Whether `answer` is one to a question of this kind.
    pub open spec fn takes(self, answer: AnswerView) -> bool {
        match self {
            QuestionView::Exists(_) => answer is Exists,
            QuestionView::Directory(_) => answer is Directory,
            QuestionView::Variable(_) => answer is Variable,
            QuestionView::Output(_) => answer is Output,
        }
    }
}

/// A machine at rest: everything that a search can ask about, with one answer to each question.
pub struct World {
    /// The locations at which there is a file or a directory.
    pub existing: Set<LocationView>,
    pub cache_directory: Option<PathBuf>,
    pub home_directory: Option<PathBuf>,
    /// The environment variables that are set.
    pub variables: Map<Seq<char>, Seq<char>>,
    /// The programs that can be run, with what comes of it.
    pub outputs: Map<CommandLineView, CommandOutputView>,
}

impl World {
    /// What the environment variable `name` holds.
    pub open spec fn variable(self, name: Seq<char>) -> Option<Seq<char>> {
        if self.variables.contains_key(name) {
            Some(self.variables[name])
        } else {
            None
        }
    }

    /// What comes of running `command`.
    pub open spec fn output(self, command: CommandLineView) -> Option<CommandOutputView> {
        if self.outputs.contains_key(command) {
            Some(self.outputs[command])
        } else {
            None
        }
    }

    /// What this machine says to `question`.
    pub open spec fn answer(self, question: QuestionView) -> AnswerView {
        match question {
            QuestionView::Exists(location) => AnswerView::Exists(self.existing.contains(location)),
            QuestionView::Directory(UserDirectory::Cache) => AnswerView::Directory(
                self.cache_directory,
            ),
            QuestionView::Directory(UserDirectory::Home) => AnswerView::Directory(
                self.home_directory,
            ),
            QuestionView::Variable(name) => AnswerView::Variable(self.variable(name)),
            QuestionView::Output(command) => AnswerView::Output(self.output(command)),
        }
    }
}

/// `dirs::cache_dir`: the user's cache directory, which the environment of the process decides.
/// Nothing is claimed of the result.
pub assume_specification[ dirs::cache_dir ]() -> (directory: Option<PathBuf>)
;

/// `dirs::home_dir`: the user's home directory, which the environment of the process decides.
/// Nothing is claimed of the result.
pub assume_specification[ dirs::home_dir ]() -> (directory: Option<PathBuf>)
;

/// Asks the environment of the process for a directory of the user: the answer is what a call of
/// `dirs::cache_dir` returned for the cache directory, and of `dirs::home_dir` for the home
/// directory. Which directory that is, is up to the environment.
pub fn user_directory(which: UserDirectory) -> (answer: Answer)
    ensures
        QuestionView::Directory(which).takes(answer@),
        match which {
            UserDirectory::Cache => call_ensures(dirs::cache_dir, (), answer@->Directory_0),
            UserDirectory::Home => call_ensures(dirs::home_dir, (), answer@->Directory_0),
        },
{
    match which {
        UserDirectory::Cache => Answer::Directory(dirs::cache_dir()),
        UserDirectory::Home => Answer::Directory(dirs::home_dir()),
    }
}

} // verus!
