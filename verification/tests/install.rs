use playwright_driver::error::Error;
use playwright_driver::host::{Answer, BuildInfo, Os, Question};
use playwright_driver::install::{
    install_browsers, install_browsers_with_deps, installer_failure, report_outcome, Argument,
    InstallCommand, InstallProgress, InstallReply, InstallRequest, Installation, InstallerOutcome,
    DENO_RUN_ARGS,
};
use playwright_driver::location::{Location, Root};
use playwright_driver::probe::Progress;

fn build() -> BuildInfo {
    BuildInfo {
        cli_js: Some("/bundle/cli.js".to_string()),
        driver_dir: None,
        driver_version: None,
        driver_platform: None,
    }
}

fn root(location: &Location) -> String {
    assert!(location.joined.is_empty());
    match &location.root {
        Root::Text(path) => path.clone(),
        Root::Directory(path) => path.display().to_string(),
    }
}

fn shown(command: &InstallCommand) -> Vec<String> {
    let mut words = vec![root(&command.program)];
    for argument in &command.args {
        words.push(match argument {
            Argument::Text(text) => text.clone(),
            Argument::Path(location) => format!("<{}>", root(location)),
        });
    }
    words
}

/// Runs an installation on a machine that has the files `existing` and nothing else, and whose
/// installer comes to `outcome`. Gives back the commands that were run, and the result.
fn run(
    installation: Installation,
    existing: &[&str],
    outcome: fn() -> InstallerOutcome,
) -> (Vec<Vec<String>>, Result<(), Error>) {
    let mut commands = vec![];
    let mut progress: InstallProgress = Progress::Pending(installation);
    loop {
        match progress {
            Progress::Pending(installation) => {
                let reply = match installation.request() {
                    InstallRequest::Answer(Question::Exists(location)) => {
                        let path = root(location);
                        InstallReply::Answer(Answer::Exists(existing.contains(&path.as_str())))
                    }
                    InstallRequest::Answer(Question::Directory(_)) => {
                        InstallReply::Answer(Answer::Directory(None))
                    }
                    InstallRequest::Answer(Question::Variable(_)) => {
                        InstallReply::Answer(Answer::Variable(None))
                    }
                    InstallRequest::Answer(Question::Output(_)) => {
                        InstallReply::Answer(Answer::Output(None))
                    }
                    InstallRequest::Outcome(command) => {
                        commands.push(shown(command));
                        InstallReply::Outcome(outcome())
                    }
                };
                progress = installation.resume(reply);
            }
            Progress::Settled(result) => return (commands, result),
        }
    }
}

const MACHINE: [&str; 2] = ["/bundle/cli.js", "/usr/bin/deno"];

fn success() -> InstallerOutcome {
    InstallerOutcome::Exited { success: true, code: Some(0), stdout: vec![], stderr: vec![] }
}

fn failure() -> InstallerOutcome {
    InstallerOutcome::Exited {
        success: false,
        code: Some(1),
        stdout: b"\n out \xff \n".to_vec(),
        stderr: b"err\r\n".to_vec(),
    }
}

fn killed() -> InstallerOutcome {
    InstallerOutcome::Exited { success: false, code: None, stdout: vec![], stderr: vec![] }
}

fn not_started() -> InstallerOutcome {
    InstallerOutcome::NotStarted("No such file or directory (os error 2)".to_string())
}

fn message(result: Result<(), Error>) -> String {
    match result {
        Err(Error::LaunchFailed(message)) => message,
        other => panic!("unexpected: {:?}", other),
    }
}

#[test]
fn run_arguments() {
    assert_eq!(
        DENO_RUN_ARGS,
        ["run", "--allow-all", "--unstable-detect-cjs", "--no-config", "--no-lock"]
    );
}

#[test]
fn all_browsers_are_installed_without_a_selection() {
    let (commands, result) = run(install_browsers(None, build(), Os::Other), &MACHINE, success);
    assert!(result.is_ok());
    assert_eq!(
        commands,
        vec![vec![
            "/usr/bin/deno",
            "run",
            "--allow-all",
            "--unstable-detect-cjs",
            "--no-config",
            "--no-lock",
            "</bundle/cli.js>",
            "install"
        ]]
    );
}

#[test]
fn selected_browsers_are_installed_with_dependencies_on_linux() {
    let browsers: Option<&[&str]> = Some(&["chromium", "firefox"]);
    let (commands, result) = run(install_browsers(browsers, build(), Os::Linux), &MACHINE, success);
    assert!(result.is_ok());
    assert_eq!(
        commands,
        vec![vec![
            "/usr/bin/deno",
            "run",
            "--allow-all",
            "--unstable-detect-cjs",
            "--no-config",
            "--no-lock",
            "</bundle/cli.js>",
            "install",
            "chromium",
            "firefox",
            "--with-deps"
        ]]
    );
}

#[test]
fn forcing_dependencies_adds_one_argument_at_most() {
    let browsers: Option<&[&str]> = Some(&["webkit"]);
    let (plain, _) = run(install_browsers(browsers, build(), Os::Other), &MACHINE, success);
    let (forced, _) =
        run(install_browsers_with_deps(browsers, build(), Os::Other), &MACHINE, success);
    let mut expected = plain[0].clone();
    expected.push("--with-deps".to_string());
    assert_eq!(forced, vec![expected.clone()]);
    let (on_linux, _) = run(install_browsers(browsers, build(), Os::Linux), &MACHINE, success);
    let (forced_on_linux, _) =
        run(install_browsers_with_deps(browsers, build(), Os::Linux), &MACHINE, success);
    assert_eq!(on_linux, vec![expected.clone()]);
    assert_eq!(forced_on_linux, vec![expected]);
}

#[test]
fn an_empty_selection_installs_nothing() {
    let none: Option<&[&str]> = Some(&[]);
    let (commands, result) = run(install_browsers(none, build(), Os::Linux), &MACHINE, failure);
    assert!(result.is_ok());
    assert!(commands.is_empty());
    let (commands, result) =
        run(install_browsers_with_deps(none, build(), Os::Other), &MACHINE, failure);
    assert!(result.is_ok());
    assert!(commands.is_empty());
    let (_, result) = run(install_browsers(none, build(), Os::Linux), &[], success);
    assert!(matches!(result, Err(Error::ServerNotFound)));
}

#[test]
fn a_missing_driver_is_reported() {
    let (commands, result) = run(install_browsers(None, build(), Os::Linux), &[], success);
    assert!(commands.is_empty());
    assert!(matches!(result, Err(Error::ServerNotFound)));
    let (commands, result) =
        run(install_browsers(None, build(), Os::Linux), &["/bundle/cli.js"], success);
    assert!(commands.is_empty());
    assert_eq!(
        message(result),
        "Deno executable not found. Install Deno 2.x (https://deno.com) or add it to PATH."
    );
}

#[test]
fn a_failing_installer_is_reported() {
    let (commands, result) = run(install_browsers(None, build(), Os::Other), &MACHINE, failure);
    assert_eq!(commands.len(), 1);
    assert_eq!(
        message(result),
        "Browser installation failed (exit code Some(1)).\nstdout: out \u{fffd}\nstderr: err"
    );
    assert_eq!(
        message(report_outcome(killed())),
        "Browser installation failed (exit code None).\nstdout: \nstderr: "
    );
    let (_, result) = run(install_browsers(None, build(), Os::Other), &MACHINE, not_started);
    assert_eq!(
        message(result),
        "Failed to spawn browser install process: No such file or directory (os error 2)"
    );
}

#[test]
fn exit_codes_are_written_as_the_debug_format_does() {
    let codes =
        [None, Some(0), Some(7), Some(10), Some(255), Some(-1), Some(i32::MAX), Some(i32::MIN)];
    for code in codes {
        let expected = format!(
            "Browser installation failed (exit code {:?}).\nstdout: a\nstderr: b",
            code
        );
        match installer_failure(code, "a", " b ") {
            Error::LaunchFailed(message) => assert_eq!(message, expected),
            other => panic!("unexpected: {:?}", other),
        }
    }
}

#[test]
fn a_reply_to_anything_else_changes_nothing() {
    let installation = install_browsers(None, build(), Os::Linux);
    match installation.resume(InstallReply::Outcome(success())) {
        Progress::Pending(installation) => {
            assert!(matches!(
                installation.request(),
                InstallRequest::Answer(Question::Exists(_))
            ));
        }
        Progress::Settled(result) => panic!("unexpected: {:?}", result),
    }
}
