//! What an installation waits for, what it runs and what it reports.
use vstd::prelude::*;

use crate::driver::{self, DriverProgressView, DriverSearchView};
use crate::error::ErrorView;
use crate::host::{AnswerView, BuildInfoView, Os};
use crate::install::{
    self, ArgumentView, InstallCommandView, InstallProgressView, InstallReplyView,
    InstallRequestView, InstallationView, InstallerOutcomeView,
};
use crate::location::LocationView;
use crate::probe::Progress;

verus! {

/// What an installation comes to when it is given `replies`, one after another.
pub open spec fn install_follow(
    progress: InstallProgressView,
    replies: Seq<InstallReplyView>,
) -> InstallProgressView
    decreases replies.len(),
{
    match progress {
        Progress::Pending(installation) => if replies.len() == 0 {
            progress
        } else {
            install_follow(installation.resume(replies.first()), replies.drop_first())
        },
        Progress::Settled(_) => progress,
    }
}

/// Answers as replies to an installation.
pub open spec fn replies(answers: Seq<AnswerView>) -> Seq<InstallReplyView> {
    Seq::new(answers.len(), |i: int| InstallReplyView::Answer(answers[i]))
}

/// Whether `command` has `deno_exe` run
/// `run --allow-all --unstable-detect-cjs --no-config --no-lock <cli_js> install`, then exactly the
/// names in `names`, in order, then `--with-deps` if and only if it is wanted, and nothing else.
pub open spec fn runs_installer(
    command: InstallCommandView,
    deno_exe: LocationView,
    cli_js: LocationView,
    names: Seq<Seq<char>>,
    with_deps: bool,
) -> bool {
    &&& command.program == deno_exe
    &&& command.args.len() == 7 + names.len() + (if with_deps {
        1int
    } else {
        0int
    })
    &&& command.args[0] == ArgumentView::Text("run"@)
    &&& command.args[1] == ArgumentView::Text("--allow-all"@)
    &&& command.args[2] == ArgumentView::Text("--unstable-detect-cjs"@)
    &&& command.args[3] == ArgumentView::Text("--no-config"@)
    &&& command.args[4] == ArgumentView::Text("--no-lock"@)
    &&& command.args[5] == ArgumentView::Path(cli_js)
    &&& command.args[6] == ArgumentView::Text("install"@)
    &&& forall|i: int|
        0 <= i < names.len() ==> #[trigger] command.args[7 + i] == ArgumentView::Text(names[i])
    &&& with_deps ==> command.args.last() == ArgumentView::Text("--with-deps"@)
}

/// The command that installs browsers has its arguments written out, one by one and no others.
pub proof fn law_install_command(
    deno_exe: LocationView,
    cli_js: LocationView,
    names: Seq<Seq<char>>,
    with_deps: bool,
)
    ensures
        runs_installer(
            install::install_command(deno_exe, cli_js, names, with_deps),
            deno_exe,
            cli_js,
            names,
            with_deps,
        ),
{
}

/// Whether an installation that has come to `now` is where it should be, once the search for the
/// driver has come to `found`: it waits for the answer to the question of the search, reports the
/// error of the search, is done where the selection is empty, or waits for what comes of the
/// installer, run for the selected browsers and for all where there is no selection.
pub open spec fn keeps_up(
    now: InstallProgressView,
    found: DriverProgressView,
    browsers: Option<Seq<Seq<char>>>,
    with_deps: bool,
) -> bool {
    match found {
        Progress::Pending(search) => now matches Progress::Pending(installation)
            && installation.request() == InstallRequestView::Answer(search.question()),
        Progress::Settled(Err(error)) => now == Progress::<
            InstallationView,
            Result<(), ErrorView>,
        >::Settled(Err(error)),
        Progress::Settled(Ok((deno_exe, cli_js))) => match browsers {
            Some(names) => if names.len() == 0 {
                now == Progress::<InstallationView, Result<(), ErrorView>>::Settled(Ok(()))
            } else {
                now matches Progress::Pending(installation) && installation.request() matches
                    InstallRequestView::Outcome(command) && runs_installer(
                    command,
                    deno_exe,
                    cli_js,
                    names,
                    with_deps,
                )
            },
            None => now matches Progress::Pending(installation) && installation.request() matches
                InstallRequestView::Outcome(command) && runs_installer(
                command,
                deno_exe,
                cli_js,
                seq![],
                with_deps,
            ),
        },
    }
}

/// An installation starts with the search for the driver, from its start, and remembers the
/// selection and whether dependencies are wanted: where that is forced, and on Linux. It asks what
/// the search asks, and each answer takes it as far as it takes the search.
pub proof fn law_installation_steps(
    browsers: Option<Seq<Seq<char>>>,
    with_deps: bool,
    build: BuildInfoView,
    os: Os,
    search: DriverSearchView,
    answer: AnswerView,
    command: InstallCommandView,
)
    ensures
        InstallationView::start(browsers, false, build, os) == InstallationView::Locating(
            DriverSearchView::start(build, os),
            browsers,
            match os {
                Os::Linux => true,
                Os::Windows | Os::Other => false,
            },
        ),
        InstallationView::start(browsers, true, build, os) == InstallationView::Locating(
            DriverSearchView::start(build, os),
            browsers,
            true,
        ),
        InstallationView::Locating(search, browsers, with_deps).request()
            == InstallRequestView::Answer(search.question()),
        InstallationView::Installing(command).request() == InstallRequestView::Outcome(command),
        ({
            let next = InstallationView::Locating(search, browsers, with_deps).resume(
                InstallReplyView::Answer(answer),
            );
            &&& keeps_up(next, search.resume(answer), browsers, with_deps)
            &&& search.resume(answer) matches Progress::Pending(later) ==> next == Progress::<
                InstallationView,
                Result<(), ErrorView>,
            >::Pending(InstallationView::Locating(later, browsers, with_deps))
        }),
{
    if let Progress::Settled(Ok((deno_exe, cli_js))) = search.resume(answer) {
        let names = match browsers {
            Some(selected) => selected,
            None => seq![],
        };
        law_install_command(deno_exe, cli_js, names, with_deps);
    }
}

proof fn lemma_installing_waits(command: InstallCommandView, answers: Seq<AnswerView>)
    ensures
        install_follow(
            Progress::Pending(InstallationView::Installing(command)),
            replies(answers),
        ) == Progress::<InstallationView, Result<(), ErrorView>>::Pending(
            InstallationView::Installing(command),
        ),
    decreases answers.len(),
{
    if answers.len() > 0 {
        assert(replies(answers).drop_first() =~= replies(answers.drop_first()));
        lemma_installing_waits(command, answers.drop_first());
    }
}

proof fn lemma_keeps_up_from(
    search: DriverSearchView,
    browsers: Option<Seq<Seq<char>>>,
    with_deps: bool,
    answers: Seq<AnswerView>,
)
    ensures
        keeps_up(
            install_follow(
                Progress::Pending(InstallationView::Locating(search, browsers, with_deps)),
                replies(answers),
            ),
            driver::driver_follow(Progress::Pending(search), answers),
            browsers,
            with_deps,
        ),
    decreases answers.len(),
{
    reveal_with_fuel(install_follow, 2);
    reveal_with_fuel(driver::driver_follow, 2);
    if answers.len() > 0 {
        let rest = answers.drop_first();
        assert(replies(answers).drop_first() =~= replies(rest));
        assert(replies(answers).first() == InstallReplyView::Answer(answers.first()));
        match search.resume(answers.first()) {
            Progress::Pending(later) => {
                lemma_keeps_up_from(later, browsers, with_deps, rest);
            },
            Progress::Settled(Ok((deno_exe, cli_js))) => {
                let names = match browsers {
                    Some(selected) => selected,
                    None => seq![],
                };
                law_install_command(deno_exe, cli_js, names, with_deps);
                lemma_installing_waits(
                    install::install_command(deno_exe, cli_js, names, with_deps),
                    rest,
                );
            },
            Progress::Settled(Err(_)) => {},
        }
    }
}

/// An installation, followed from its start, keeps up with the search for the driver. It waits for
/// nothing but the answers of that search until the driver is found, and then runs the installer
/// with `--with-deps` exactly where that was forced or the system is Linux.
pub proof fn law_installation_keeps_up(
    browsers: Option<Seq<Seq<char>>>,
    forced: bool,
    build: BuildInfoView,
    os: Os,
    answers: Seq<AnswerView>,
)
    ensures
        keeps_up(
            install_follow(
                Progress::Pending(InstallationView::start(browsers, forced, build, os)),
                replies(answers),
            ),
            driver::driver_follow(Progress::Pending(DriverSearchView::start(build, os)), answers),
            browsers,
            forced || os == Os::Linux,
        ),
{
    lemma_keeps_up_from(
        DriverSearchView::start(build, os),
        browsers,
        forced || os == Os::Linux,
        answers,
    );
}

/// Every selected browser is installed, in order, and nothing else: for a selection of any length
/// but zero, one included, the installation waits for a command whose arguments are
/// `run --allow-all --unstable-detect-cjs --no-config --no-lock <cli_js> install`, the names, and
/// `--with-deps` where it is wanted.
pub proof fn law_selected_browsers_are_installed(
    names: Seq<Seq<char>>,
    forced: bool,
    build: BuildInfoView,
    os: Os,
    answers: Seq<AnswerView>,
    deno_exe: LocationView,
    cli_js: LocationView,
)
    requires
        names.len() > 0,
        driver::driver_follow(
            Progress::Pending(DriverSearchView::start(build, os)),
            answers,
        ) == Progress::<
            DriverSearchView,
            Result<(LocationView, LocationView), ErrorView>,
        >::Settled(Ok((deno_exe, cli_js))),
    ensures
        install_follow(
            Progress::Pending(InstallationView::start(Some(names), forced, build, os)),
            replies(answers),
        ) matches Progress::Pending(installation) && installation.request() matches
            InstallRequestView::Outcome(command) && {
            &&& command.program == deno_exe
            &&& command.args.len() == 7 + names.len() + (if forced || os == Os::Linux {
                1int
            } else {
                0int
            })
            &&& command.args[0] == ArgumentView::Text("run"@)
            &&& command.args[1] == ArgumentView::Text("--allow-all"@)
            &&& command.args[2] == ArgumentView::Text("--unstable-detect-cjs"@)
            &&& command.args[3] == ArgumentView::Text("--no-config"@)
            &&& command.args[4] == ArgumentView::Text("--no-lock"@)
            &&& command.args[5] == ArgumentView::Path(cli_js)
            &&& command.args[6] == ArgumentView::Text("install"@)
            &&& forall|i: int|
                0 <= i < names.len() ==> #[trigger] command.args[7 + i] == ArgumentView::Text(
                    names[i],
                )
            &&& forced || os == Os::Linux ==> command.args[7 + names.len() as int]
                == ArgumentView::Text("--with-deps"@)
        },
{
    law_installation_keeps_up(Some(names), forced, build, os, answers);
}

/// Without a selection no browser is named, which installs all of them.
pub proof fn law_all_browsers_are_installed(
    forced: bool,
    build: BuildInfoView,
    os: Os,
    answers: Seq<AnswerView>,
    deno_exe: LocationView,
    cli_js: LocationView,
)
    requires
        driver::driver_follow(
            Progress::Pending(DriverSearchView::start(build, os)),
            answers,
        ) == Progress::<
            DriverSearchView,
            Result<(LocationView, LocationView), ErrorView>,
        >::Settled(Ok((deno_exe, cli_js))),
    ensures
        install_follow(
            Progress::Pending(InstallationView::start(None, forced, build, os)),
            replies(answers),
        ) matches Progress::Pending(installation) && installation.request() matches
            InstallRequestView::Outcome(command) && {
            &&& command.program == deno_exe
            &&& command.args =~= seq![
                ArgumentView::Text("run"@),
                ArgumentView::Text("--allow-all"@),
                ArgumentView::Text("--unstable-detect-cjs"@),
                ArgumentView::Text("--no-config"@),
                ArgumentView::Text("--no-lock"@),
                ArgumentView::Path(cli_js),
                ArgumentView::Text("install"@),
            ] + (if forced || os == Os::Linux {
                seq![ArgumentView::Text("--with-deps"@)]
            } else {
                seq![]
            })
        },
{
    law_installation_keeps_up(None, forced, build, os, answers);
}

/// Whatever the selection is, none included and an empty one excluded, the last argument is
/// `--with-deps` where the dependencies were forced or the system is Linux. Elsewhere it is the last
/// selected browser, or `install` where there is no selection.
pub proof fn law_dependencies_are_installed(
    browsers: Option<Seq<Seq<char>>>,
    forced: bool,
    build: BuildInfoView,
    os: Os,
    answers: Seq<AnswerView>,
    deno_exe: LocationView,
    cli_js: LocationView,
)
    requires
        browsers matches Some(names) ==> names.len() > 0,
        driver::driver_follow(
            Progress::Pending(DriverSearchView::start(build, os)),
            answers,
        ) == Progress::<
            DriverSearchView,
            Result<(LocationView, LocationView), ErrorView>,
        >::Settled(Ok((deno_exe, cli_js))),
    ensures
        install_follow(
            Progress::Pending(InstallationView::start(browsers, forced, build, os)),
            replies(answers),
        ) matches Progress::Pending(installation) && installation.request() matches
            InstallRequestView::Outcome(command) && {
            &&& forced || os == Os::Linux ==> command.args.last() == ArgumentView::Text(
                "--with-deps"@,
            )
            &&& !forced && os != Os::Linux ==> command.args.last() == ArgumentView::Text(
                match browsers {
                    Some(names) => names.last(),
                    None => "install"@,
                },
            )
        },
{
    law_installation_keeps_up(browsers, forced, build, os, answers);
    if let Progress::Pending(installation) = install_follow(
        Progress::Pending(InstallationView::start(browsers, forced, build, os)),
        replies(answers),
    ) {
        if let InstallRequestView::Outcome(command) = installation.request() {
            if let Some(names) = browsers {
                assert(command.args[7 + (names.len() - 1)] == ArgumentView::Text(names.last()));
            }
        }
    }
}

/// The report on an installer is a success if and only if the installer ran and its exit status
/// reports success, whatever its exit code is and whatever it printed. Anything else is reported as
/// a failed launch.
pub proof fn law_report(outcome: InstallerOutcomeView)
    ensures
        install::report(outcome) is Ok <==> (outcome matches InstallerOutcomeView::Exited {
            success,
            ..
        } && success),
        install::report(outcome) matches Err(error) ==> error is LaunchFailed,
{
}

/// The report on an installer that could not be started gives the reason; that on one that failed
/// gives its exit code and what it printed, white space around that aside.
pub proof fn law_report_messages(
    reason: Seq<char>,
    code: Option<i32>,
    stdout: Seq<u8>,
    stderr: Seq<u8>,
)
    ensures
        install::report(InstallerOutcomeView::NotStarted(reason)) == Err::<(), ErrorView>(
            ErrorView::LaunchFailed("Failed to spawn browser install process: "@ + reason),
        ),
        install::report(
            InstallerOutcomeView::Exited { success: false, code, stdout, stderr },
        ) == Err::<(), ErrorView>(
            ErrorView::LaunchFailed(
                "Browser installation failed (exit code "@ + crate::text::exit_code_text(code)
                    + ").\nstdout: "@ + crate::text::trimmed(crate::text::decoded(stdout))
                    + "\nstderr: "@ + crate::text::trimmed(crate::text::decoded(stderr)),
            ),
        ),
        install::report(InstallerOutcomeView::Exited { success: true, code, stdout, stderr })
            == Ok::<(), ErrorView>(()),
{
}

/// The message about an installer that failed holds its exit code and the texts that it printed,
/// white space around them aside.
pub proof fn law_failure_message(code: Option<i32>, stdout: Seq<char>, stderr: Seq<char>)
    ensures
        install::failure_message(code, stdout, stderr) == "Browser installation failed (exit code "@
            + crate::text::exit_code_text(code) + ").\nstdout: "@ + crate::text::trimmed(stdout)
            + "\nstderr: "@ + crate::text::trimmed(stderr),
{
}

/// An installation that waits for its installer ends in the report on what comes of it, and takes
/// no notice of answers to questions; one that waits for an answer takes no notice of what comes of
/// an installer.
pub proof fn law_installation_ends_in_the_report(
    installation: InstallationView,
    outcome: InstallerOutcomeView,
    answer: AnswerView,
)
    ensures
        match installation.request() {
            InstallRequestView::Outcome(_) => {
                &&& installation.resume(InstallReplyView::Outcome(outcome)) matches
                    Progress::Settled(result) && {
                    &&& result is Ok <==> (outcome matches InstallerOutcomeView::Exited {
                        success,
                        ..
                    } && success)
                    &&& result == install::report(outcome)
                }
                &&& installation.resume(InstallReplyView::Answer(answer)) == Progress::<
                    InstallationView,
                    Result<(), ErrorView>,
                >::Pending(installation)
            },
            InstallRequestView::Answer(_) => installation.resume(
                InstallReplyView::Outcome(outcome),
            ) == Progress::<InstallationView, Result<(), ErrorView>>::Pending(installation),
        },
{
}

} // verus!
