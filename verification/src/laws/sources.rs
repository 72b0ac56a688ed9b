//! What each source of `cli.js` and of Deno asks, what it offers, and what comes after it.
use std::path::PathBuf;
use vstd::prelude::*;

use crate::cli::{self, CliLookup, CliProgressView, CliSearchView, CliStageView};
use crate::deno::{
    self, DenoFallback, DenoLookup, DenoProgressView, DenoSearchView, DenoStageView,
};
use crate::driver::DriverSearchView;
use crate::error::ErrorView;
use crate::host::{
    AnswerView, BuildInfoView, CommandLineView, CommandOutputView, Os, QuestionView, UserDirectory,
};
use crate::location::{LocationView, RootView};
use crate::probe::{ProbeProgressView, ProbeView, Progress};

verus! {

/// The path `text` with `components` joined to it.
pub open spec fn path(text: Seq<char>, components: Seq<Seq<char>>) -> LocationView {
    LocationView { root: RootView::Text(text), joined: components }
}

/// The directory `directory` with `components` joined to it.
pub open spec fn under(directory: PathBuf, components: Seq<Seq<char>>) -> LocationView {
    LocationView { root: RootView::Directory(directory), joined: components }
}

// ---------------------------------------------------------------------------------------------
// Locations and probes
// ---------------------------------------------------------------------------------------------

/// A location made from a path or a directory has no components; joining adds one behind the
/// others and leaves the starting point and the other components as they are.
pub proof fn law_join(text: Seq<char>, directory: PathBuf, location: LocationView, component: Seq<char>)
    ensures
        LocationView::text(text) == path(text, seq![]),
        LocationView::directory(directory) == under(directory, seq![]),
        location.join(component).root == location.root,
        location.join(component).joined.len() == location.joined.len() + 1,
        location.join(component).joined.last() == component,
        forall|i: int|
            0 <= i < location.joined.len() ==> #[trigger] location.join(component).joined[i]
                == location.joined[i],
{
}

/// Joining components one after another gives the location with those components.
proof fn lemma_joined(
    start: LocationView,
    a: Seq<char>,
    b: Seq<char>,
    c: Seq<char>,
    d: Seq<char>,
    e: Seq<char>,
)
    requires
        start.joined.len() == 0,
    ensures
        start.join(a).join(b) == (LocationView { root: start.root, joined: seq![a, b] }),
        start.join(a).join(b).join(c) == (LocationView { root: start.root, joined: seq![a, b, c] }),
        start.join(a).join(b).join(c).join(d).join(e) == (LocationView {
            root: start.root,
            joined: seq![a, b, c, d, e],
        }),
{
    assert(start.join(a).join(b).joined =~= seq![a, b]);
    assert(start.join(a).join(b).join(c).joined =~= seq![a, b, c]);
    assert(start.join(a).join(b).join(c).join(d).join(e).joined =~= seq![a, b, c, d, e]);
}

/// Whether `progress` is the attempt that checks exactly `candidates`, first to last.
pub open spec fn checks(progress: ProbeProgressView, candidates: Seq<LocationView>) -> bool {
    match progress {
        Progress::Pending(probe) => {
            &&& candidates.len() == 1 + probe.rest.len()
            &&& candidates[0] == probe.candidate
            &&& forall|i: int|
                0 <= i < probe.rest.len() ==> #[trigger] probe.rest[i] == candidates[i + 1]
        },
        Progress::Settled(found) => candidates.len() == 0 && found is None,
    }
}

/// An attempt checks the candidates that it was made for. Where its candidate exists, that is what
/// it ends in; where it does not, the candidates behind it are checked.
pub proof fn law_probe_steps(candidates: Seq<LocationView>, probe: ProbeView)
    ensures
        checks(ProbeView::over(candidates), candidates),
        probe.resume(true) == Progress::<ProbeView, Option<LocationView>>::Settled(
            Some(probe.candidate),
        ),
        checks(probe.resume(false), probe.rest),
{
}

// ---------------------------------------------------------------------------------------------
// What the sources of `cli.js` offer
// ---------------------------------------------------------------------------------------------

/// The build offers the `cli.js` that it recorded, then `package/cli.js` in the directory that it
/// recorded.
pub proof fn law_bundle(build: BuildInfoView)
    ensures
        match (build.cli_js, build.driver_dir) {
            (Some(cli_js), Some(dir)) => checks(
                ProbeView::over(cli::bundled_candidates(build)),
                seq![path(cli_js, seq![]), path(dir, seq!["package"@, "cli.js"@])],
            ),
            (Some(cli_js), None) => checks(
                ProbeView::over(cli::bundled_candidates(build)),
                seq![path(cli_js, seq![])],
            ),
            (None, Some(dir)) => checks(
                ProbeView::over(cli::bundled_candidates(build)),
                seq![path(dir, seq!["package"@, "cli.js"@])],
            ),
            (None, None) => checks(ProbeView::over(cli::bundled_candidates(build)), seq![]),
        },
{
    if let Some(dir) = build.driver_dir {
        lemma_joined(
            LocationView::text(dir),
            "package"@,
            "cli.js"@,
            seq![],
            seq![],
            seq![],
        );
    }
}

/// The user's cache keeps `cli.js` at
/// `<cache>/playwright-rust/<version>/playwright-<version>-<platform>/package/cli.js`.
pub proof fn law_user_cache_layout(root: PathBuf, version: Seq<char>, platform: Seq<char>)
    ensures
        ({
            let candidate = cli::user_cache_cli(root, version, platform);
            &&& candidate.root == RootView::Directory(root)
            &&& candidate.joined.len() == 5
            &&& candidate.joined[0] == "playwright-rust"@
            &&& candidate.joined[1] == version
            &&& candidate.joined[2] == "playwright-"@ + version + "-"@ + platform
            &&& candidate.joined[3] == "package"@
            &&& candidate.joined[4] == "cli.js"@
        }),
{
}

/// Caches, versions and platforms that differ have candidates that differ.
pub proof fn law_user_cache_keeps_drivers_apart(
    root1: PathBuf,
    version1: Seq<char>,
    platform1: Seq<char>,
    root2: PathBuf,
    version2: Seq<char>,
    platform2: Seq<char>,
)
    requires
        cli::user_cache_cli(root1, version1, platform1) == cli::user_cache_cli(
            root2,
            version2,
            platform2,
        ),
    ensures
        root1 == root2,
        version1 == version2,
        platform1 == platform2,
{
    law_user_cache_layout(root1, version1, platform1);
    law_user_cache_layout(root2, version2, platform2);
    let prefix = "playwright-"@ + version1 + "-"@;
    assert((prefix + platform1).skip(prefix.len() as int) =~= platform1);
    assert((prefix + platform2).skip(prefix.len() as int) =~= platform2);
}

/// The user's cache offers one candidate where the directory, the version and the platform are all
/// known, and nothing otherwise.
pub proof fn law_user_cache(cache: Option<PathBuf>, build: BuildInfoView)
    ensures
        match (cache, build.driver_version, build.driver_platform) {
            (Some(root), Some(version), Some(platform)) => checks(
                ProbeView::over(cli::user_cache_candidates(cache, build)),
                seq![
                    under(
                        root,
                        seq![
                            "playwright-rust"@,
                            version,
                            "playwright-"@ + version + "-"@ + platform,
                            "package"@,
                            "cli.js"@,
                        ],
                    ),
                ],
            ),
            _ => checks(ProbeView::over(cli::user_cache_candidates(cache, build)), seq![]),
        },
{
    if let (Some(root), Some(version), Some(platform)) = (
        cache,
        build.driver_version,
        build.driver_platform,
    ) {
        lemma_joined(
            LocationView::directory(root),
            "playwright-rust"@,
            version,
            "playwright-"@ + version + "-"@ + platform,
            "package"@,
            "cli.js"@,
        );
    }
}

/// `PLAYWRIGHT_DRIVER_PATH` offers `package/cli.js` in its directory, and `PLAYWRIGHT_CLI_JS` its
/// path, whatever they hold; a variable that is not set offers nothing.
pub proof fn law_variables(value: Seq<char>)
    ensures
        checks(
            ProbeView::over(cli::driver_path_candidates(Some(value))),
            seq![path(value, seq!["package"@, "cli.js"@])],
        ),
        checks(ProbeView::over(cli::driver_path_candidates(None)), seq![]),
        checks(
            ProbeView::over(cli::cli_js_candidates(Some(value))),
            seq![path(value, seq![])],
        ),
        checks(ProbeView::over(cli::cli_js_candidates(None)), seq![]),
{
    lemma_joined(LocationView::text(value), "package"@, "cli.js"@, seq![], seq![], seq![]);
}

/// A `node_modules` directory offers `playwright/cli.js`, then `@playwright/test/cli.js`.
pub proof fn law_node_modules(directory: Seq<char>)
    ensures
        checks(
            ProbeView::over(cli::node_modules_candidates(directory)),
            seq![
                path(directory, seq!["playwright"@, "cli.js"@]),
                path(directory, seq!["@playwright"@, "test"@, "cli.js"@]),
            ],
        ),
{
    let start = LocationView::text(directory);
    lemma_joined(start, "playwright"@, "cli.js"@, seq![], seq![], seq![]);
    lemma_joined(start, "@playwright"@, "test"@, "cli.js"@, seq![], seq![]);
}

/// npm offers what there is in the directory that it printed, white space around it aside, if it
/// could be run and succeeded; otherwise it offers nothing.
pub proof fn law_npm(stdout: Seq<u8>)
    ensures
        ({
            let directory = crate::text::trimmed(crate::text::decoded(stdout));
            checks(
                ProbeView::over(
                    cli::npm_candidates(Some(CommandOutputView { success: true, stdout })),
                ),
                seq![
                    path(directory, seq!["playwright"@, "cli.js"@]),
                    path(directory, seq!["@playwright"@, "test"@, "cli.js"@]),
                ],
            )
        }),
        checks(
            ProbeView::over(
                cli::npm_candidates(Some(CommandOutputView { success: false, stdout })),
            ),
            seq![],
        ),
        checks(ProbeView::over(cli::npm_candidates(None)), seq![]),
{
    law_node_modules(crate::text::trimmed(crate::text::decoded(stdout)));
}

// ---------------------------------------------------------------------------------------------
// What the sources of Deno offer
// ---------------------------------------------------------------------------------------------

/// A lookup on the search path offers the first line of what it printed, white space around that
/// aside, if it could be run, succeeded and printed more than white space; otherwise it offers
/// nothing.
pub proof fn law_search_path(stdout: Seq<u8>)
    ensures
        ({
            let printed = crate::text::trimmed(crate::text::decoded(stdout));
            checks(
                ProbeView::over(
                    deno::search_path_candidates(
                        Some(CommandOutputView { success: true, stdout }),
                    ),
                ),
                if printed.len() > 0 {
                    seq![path(crate::text::first_line_of(printed), seq![])]
                } else {
                    seq![]
                },
            )
        }),
        checks(
            ProbeView::over(
                deno::search_path_candidates(Some(CommandOutputView { success: false, stdout })),
            ),
            seq![],
        ),
        checks(ProbeView::over(deno::search_path_candidates(None)), seq![]),
{
}

/// What a successful lookup printed offers its first line, white space around it aside.
pub proof fn law_printed_path(printed: Seq<char>)
    ensures
        crate::text::trimmed(printed).len() > 0 ==> checks(
            ProbeView::over(deno::printed_candidates(printed)),
            seq![path(crate::text::first_line_of(crate::text::trimmed(printed)), seq![])],
        ),
        crate::text::trimmed(printed).len() == 0 ==> checks(
            ProbeView::over(deno::printed_candidates(printed)),
            seq![],
        ),
{
}

/// `DENO_INSTALL` offers `bin/deno` in its directory, whatever it holds, and on Windows
/// `bin/deno.exe`; where it is not set it offers nothing.
pub proof fn law_install_root(value: Seq<char>, os: Os)
    ensures
        checks(
            ProbeView::over(deno::install_root_candidates(Os::Windows, Some(value))),
            seq![path(value, seq!["bin"@, "deno.exe"@])],
        ),
        os != Os::Windows ==> checks(
            ProbeView::over(deno::install_root_candidates(os, Some(value))),
            seq![path(value, seq!["bin"@, "deno"@])],
        ),
        checks(ProbeView::over(deno::install_root_candidates(os, None)), seq![]),
{
    let start = LocationView::text(value);
    lemma_joined(start, "bin"@, "deno.exe"@, seq![], seq![], seq![]);
    lemma_joined(start, "bin"@, "deno"@, seq![], seq![], seq![]);
}

/// The home directory offers `.deno/bin/deno`, and on Windows `.deno/bin/deno.exe`; without one
/// there is nothing on offer.
pub proof fn law_home(home: PathBuf, os: Os)
    ensures
        checks(
            ProbeView::over(deno::home_candidates(Os::Windows, Some(home))),
            seq![under(home, seq![".deno"@, "bin"@, "deno.exe"@])],
        ),
        os != Os::Windows ==> checks(
            ProbeView::over(deno::home_candidates(os, Some(home))),
            seq![under(home, seq![".deno"@, "bin"@, "deno"@])],
        ),
        checks(ProbeView::over(deno::home_candidates(os, None)), seq![]),
{
    let start = LocationView::directory(home);
    lemma_joined(start, ".deno"@, "bin"@, "deno.exe"@, seq![], seq![]);
    lemma_joined(start, ".deno"@, "bin"@, "deno"@, seq![], seq![]);
}

/// The places where Deno is commonly installed are two on Windows, and four others elsewhere.
pub proof fn law_common_locations(os: Os)
    ensures
        checks(
            ProbeView::over(deno::common_candidates(Os::Windows)),
            seq![
                path("C:\\Program Files\\deno\\deno.exe"@, seq![]),
                path("C:\\ProgramData\\chocolatey\\bin\\deno.exe"@, seq![]),
            ],
        ),
        os != Os::Windows ==> checks(
            ProbeView::over(deno::common_candidates(os)),
            seq![
                path("/usr/local/bin/deno"@, seq![]),
                path("/usr/bin/deno"@, seq![]),
                path("/opt/homebrew/bin/deno"@, seq![]),
                path("/opt/local/bin/deno"@, seq![]),
            ],
        ),
{
}

// ---------------------------------------------------------------------------------------------
// The steps of the search for `cli.js`
// ---------------------------------------------------------------------------------------------

/// Whether `progress` goes on with exactly the candidates `offered`, then with the source `then`,
/// and has found nothing where there is neither.
pub open spec fn cli_goes_on(
    progress: CliProgressView,
    build: BuildInfoView,
    offered: Seq<LocationView>,
    then: Option<CliLookup>,
) -> bool {
    match progress {
        Progress::Pending(search) => search.build == build && (match search.stage {
            CliStageView::Probing(probe, next) => next == then && checks(
                Progress::Pending(probe),
                offered,
            ),
            CliStageView::Lookup(lookup) => offered.len() == 0 && then == Some(lookup),
        }),
        Progress::Settled(found) => offered.len() == 0 && then is None && found is None,
    }
}

/// The search for `cli.js` starts with what the build offers, and goes on with the user's cache.
pub proof fn law_cli_start(build: BuildInfoView)
    ensures
        cli_goes_on(
            Progress::Pending(CliSearchView::start(build)),
            build,
            match (build.cli_js, build.driver_dir) {
                (Some(cli_js), Some(dir)) => seq![
                    path(cli_js, seq![]),
                    path(dir, seq!["package"@, "cli.js"@]),
                ],
                (Some(cli_js), None) => seq![path(cli_js, seq![])],
                (None, Some(dir)) => seq![path(dir, seq!["package"@, "cli.js"@])],
                (None, None) => seq![],
            },
            Some(CliLookup::UserCache),
        ),
{
    law_bundle(build);
}

/// A search that checks a candidate asks whether it exists. If it does, it is what the search ends
/// in; if it does not, the search goes on with the candidates behind it. No other answer moves it.
pub proof fn law_cli_probing(
    build: BuildInfoView,
    probe: ProbeView,
    then: Option<CliLookup>,
    answer: AnswerView,
)
    ensures
        ({
            let search = CliSearchView { build, stage: CliStageView::Probing(probe, then) };
            let next = search.resume(answer);
            &&& search.question() == QuestionView::Exists(probe.candidate)
            &&& answer == AnswerView::Exists(true) ==> next == Progress::<
                CliSearchView,
                Option<LocationView>,
            >::Settled(Some(probe.candidate))
            &&& answer == AnswerView::Exists(false) ==> cli_goes_on(next, build, probe.rest, then)
            &&& !(answer is Exists) ==> next == Progress::<
                CliSearchView,
                Option<LocationView>,
            >::Pending(search)
        }),
{
}

/// The user's cache asks for the cache directory, and comes before `PLAYWRIGHT_DRIVER_PATH`.
pub proof fn law_cli_user_cache(build: BuildInfoView, answer: AnswerView)
    ensures
        ({
            let search = CliSearchView { build, stage: CliStageView::Lookup(CliLookup::UserCache) };
            let next = search.resume(answer);
            &&& search.question() == QuestionView::Directory(UserDirectory::Cache)
            &&& match answer {
                AnswerView::Directory(cache) => cli_goes_on(
                    next,
                    build,
                    match (cache, build.driver_version, build.driver_platform) {
                        (Some(root), Some(version), Some(platform)) => seq![
                            under(
                                root,
                                seq![
                                    "playwright-rust"@,
                                    version,
                                    "playwright-"@ + version + "-"@ + platform,
                                    "package"@,
                                    "cli.js"@,
                                ],
                            ),
                        ],
                        _ => seq![],
                    },
                    Some(CliLookup::DriverPathVariable),
                ),
                _ => next == Progress::<CliSearchView, Option<LocationView>>::Pending(search),
            }
        }),
{
    if let AnswerView::Directory(cache) = answer {
        law_user_cache(cache, build);
    }
}

/// `PLAYWRIGHT_DRIVER_PATH` comes before `PLAYWRIGHT_CLI_JS`.
pub proof fn law_cli_driver_path(build: BuildInfoView, answer: AnswerView)
    ensures
        ({
            let search = CliSearchView {
                build,
                stage: CliStageView::Lookup(CliLookup::DriverPathVariable),
            };
            let next = search.resume(answer);
            &&& search.question() == QuestionView::Variable("PLAYWRIGHT_DRIVER_PATH"@)
            &&& match answer {
                AnswerView::Variable(Some(value)) => cli_goes_on(
                    next,
                    build,
                    seq![path(value, seq!["package"@, "cli.js"@])],
                    Some(CliLookup::CliJsVariable),
                ),
                AnswerView::Variable(None) => cli_goes_on(
                    next,
                    build,
                    seq![],
                    Some(CliLookup::CliJsVariable),
                ),
                _ => next == Progress::<CliSearchView, Option<LocationView>>::Pending(search),
            }
        }),
{
    if let AnswerView::Variable(Some(value)) = answer {
        law_variables(value);
    }
}

/// `PLAYWRIGHT_CLI_JS` comes before the global npm.
pub proof fn law_cli_cli_js(build: BuildInfoView, answer: AnswerView)
    ensures
        ({
            let search = CliSearchView {
                build,
                stage: CliStageView::Lookup(CliLookup::CliJsVariable),
            };
            let next = search.resume(answer);
            &&& search.question() == QuestionView::Variable("PLAYWRIGHT_CLI_JS"@)
            &&& match answer {
                AnswerView::Variable(Some(value)) => cli_goes_on(
                    next,
                    build,
                    seq![path(value, seq![])],
                    Some(CliLookup::NpmGlobal),
                ),
                AnswerView::Variable(None) => cli_goes_on(
                    next,
                    build,
                    seq![],
                    Some(CliLookup::NpmGlobal),
                ),
                _ => next == Progress::<CliSearchView, Option<LocationView>>::Pending(search),
            }
        }),
{
    if let AnswerView::Variable(Some(value)) = answer {
        law_variables(value);
    }
}

/// The global npm is asked with `npm root -g` and comes before the local one, which is asked with
/// `npm root` and comes last.
pub proof fn law_cli_npm(build: BuildInfoView, answer: AnswerView)
    ensures
        ({
            let global = CliSearchView { build, stage: CliStageView::Lookup(CliLookup::NpmGlobal) };
            let local = CliSearchView { build, stage: CliStageView::Lookup(CliLookup::NpmLocal) };
            &&& global.question() == QuestionView::Output(
                CommandLineView { program: "npm"@, args: seq!["root"@, "-g"@] },
            )
            &&& local.question() == QuestionView::Output(
                CommandLineView { program: "npm"@, args: seq!["root"@] },
            )
            &&& match answer {
                AnswerView::Output(output) => {
                    let offered = match output {
                        Some(o) => if o.success {
                            let directory = crate::text::trimmed(crate::text::decoded(o.stdout));
                            seq![
                                path(directory, seq!["playwright"@, "cli.js"@]),
                                path(directory, seq!["@playwright"@, "test"@, "cli.js"@]),
                            ]
                        } else {
                            seq![]
                        },
                        None => seq![],
                    };
                    &&& cli_goes_on(global.resume(answer), build, offered, Some(CliLookup::NpmLocal))
                    &&& cli_goes_on(local.resume(answer), build, offered, None)
                },
                _ => {
                    &&& global.resume(answer) == Progress::<
                        CliSearchView,
                        Option<LocationView>,
                    >::Pending(global)
                    &&& local.resume(answer) == Progress::<
                        CliSearchView,
                        Option<LocationView>,
                    >::Pending(local)
                },
            }
        }),
{
    if let AnswerView::Output(Some(o)) = answer {
        law_npm(o.stdout);
    }
}

// ---------------------------------------------------------------------------------------------
// The steps of the search for Deno
// ---------------------------------------------------------------------------------------------

/// The message about a missing Deno.
pub open spec fn missing_deno() -> ErrorView {
    ErrorView::LaunchFailed(
        "Deno executable not found. Install Deno 2.x (https://deno.com) or add it to PATH."@,
    )
}

/// The places where Deno is commonly installed.
pub open spec fn common(os: Os) -> Seq<LocationView> {
    match os {
        Os::Windows => seq![
            path("C:\\Program Files\\deno\\deno.exe"@, seq![]),
            path("C:\\ProgramData\\chocolatey\\bin\\deno.exe"@, seq![]),
        ],
        Os::Linux | Os::Other => seq![
            path("/usr/local/bin/deno"@, seq![]),
            path("/usr/bin/deno"@, seq![]),
            path("/opt/homebrew/bin/deno"@, seq![]),
            path("/opt/local/bin/deno"@, seq![]),
        ],
    }
}

/// The file name of the Deno executable.
pub open spec fn executable(os: Os) -> Seq<char> {
    match os {
        Os::Windows => "deno.exe"@,
        Os::Linux | Os::Other => "deno"@,
    }
}

/// Whether `progress` goes on with exactly the candidates `offered`, then with `then`, and reports
/// a missing Deno where there is neither.
pub open spec fn deno_goes_on(
    progress: DenoProgressView,
    os: Os,
    offered: Seq<LocationView>,
    then: DenoFallback,
) -> bool {
    match progress {
        Progress::Pending(search) => search.os == os && (match search.stage {
            DenoStageView::Probing(probe, next) => {
                ||| next == then && checks(Progress::Pending(probe), offered)
                ||| offered.len() == 0 && then == DenoFallback::CommonLocations && next
                    == DenoFallback::GiveUp && checks(Progress::Pending(probe), common(os))
            },
            DenoStageView::Lookup(lookup) => offered.len() == 0 && then == DenoFallback::Lookup(
                lookup,
            ),
        }),
        Progress::Settled(result) => offered.len() == 0 && then == DenoFallback::GiveUp && result
            == Err::<LocationView, ErrorView>(missing_deno()),
    }
}

/// The search for Deno first asks for the output of `where deno` on Windows and of `which deno`
/// everywhere else.
pub proof fn law_deno_start()
    ensures
        DenoSearchView::start(Os::Linux).question() == QuestionView::Output(
            CommandLineView { program: "which"@, args: seq!["deno"@] },
        ),
        DenoSearchView::start(Os::Other).question() == QuestionView::Output(
            CommandLineView { program: "which"@, args: seq!["deno"@] },
        ),
        DenoSearchView::start(Os::Windows).question() == QuestionView::Output(
            CommandLineView { program: "where"@, args: seq!["deno"@] },
        ),
        forall|os: Os| #[trigger]
            DenoSearchView::start(os) == (DenoSearchView {
                os,
                stage: DenoStageView::Lookup(DenoLookup::SearchPath),
            }),
{
}

/// A search that checks a candidate asks whether it exists. If it does, it is what the search ends
/// in; if it does not, the search goes on with the candidates behind it. No other answer moves it.
pub proof fn law_deno_probing(os: Os, probe: ProbeView, then: DenoFallback, answer: AnswerView)
    ensures
        ({
            let search = DenoSearchView { os, stage: DenoStageView::Probing(probe, then) };
            let next = search.resume(answer);
            &&& search.question() == QuestionView::Exists(probe.candidate)
            &&& answer == AnswerView::Exists(true) ==> next == Progress::<
                DenoSearchView,
                Result<LocationView, ErrorView>,
            >::Settled(Ok(probe.candidate))
            &&& answer == AnswerView::Exists(false) ==> deno_goes_on(next, os, probe.rest, then)
            &&& !(answer is Exists) ==> next == Progress::<
                DenoSearchView,
                Result<LocationView, ErrorView>,
            >::Pending(search)
        }),
{
    law_common_locations(os);
}

/// The search path offers the first line of what the lookup printed, and comes before
/// `DENO_INSTALL`.
pub proof fn law_deno_search_path(os: Os, answer: AnswerView)
    ensures
        ({
            let search = DenoSearchView { os, stage: DenoStageView::Lookup(DenoLookup::SearchPath) };
            let next = search.resume(answer);
            &&& search.question() == QuestionView::Output(
                CommandLineView {
                    program: match os {
                        Os::Windows => "where"@,
                        Os::Linux | Os::Other => "which"@,
                    },
                    args: seq!["deno"@],
                },
            )
            &&& match answer {
                AnswerView::Output(output) => deno_goes_on(
                    next,
                    os,
                    match output {
                        Some(o) => {
                            let printed = crate::text::trimmed(crate::text::decoded(o.stdout));
                            if o.success && printed.len() > 0 {
                                seq![path(crate::text::first_line_of(printed), seq![])]
                            } else {
                                seq![]
                            }
                        },
                        None => seq![],
                    },
                    DenoFallback::Lookup(DenoLookup::InstallRoot),
                ),
                _ => next == Progress::<DenoSearchView, Result<LocationView, ErrorView>>::Pending(
                    search,
                ),
            }
        }),
{
    if let AnswerView::Output(Some(o)) = answer {
        law_search_path(o.stdout);
    }
}

/// `DENO_INSTALL` comes before the home directory.
pub proof fn law_deno_install_root(os: Os, answer: AnswerView)
    ensures
        ({
            let search = DenoSearchView {
                os,
                stage: DenoStageView::Lookup(DenoLookup::InstallRoot),
            };
            let next = search.resume(answer);
            &&& search.question() == QuestionView::Variable("DENO_INSTALL"@)
            &&& match answer {
                AnswerView::Variable(value) => deno_goes_on(
                    next,
                    os,
                    match value {
                        Some(root) => seq![path(root, seq!["bin"@, executable(os)])],
                        None => seq![],
                    },
                    DenoFallback::Lookup(DenoLookup::HomeDirectory),
                ),
                _ => next == Progress::<DenoSearchView, Result<LocationView, ErrorView>>::Pending(
                    search,
                ),
            }
        }),
{
    if let AnswerView::Variable(Some(root)) = answer {
        law_install_root(root, os);
    }
}

/// The home directory comes before the common locations.
pub proof fn law_deno_home(os: Os, answer: AnswerView)
    ensures
        ({
            let search = DenoSearchView {
                os,
                stage: DenoStageView::Lookup(DenoLookup::HomeDirectory),
            };
            let next = search.resume(answer);
            &&& search.question() == QuestionView::Directory(UserDirectory::Home)
            &&& match answer {
                AnswerView::Directory(home) => deno_goes_on(
                    next,
                    os,
                    match home {
                        Some(directory) => seq![
                            under(directory, seq![".deno"@, "bin"@, executable(os)]),
                        ],
                        None => seq![],
                    },
                    DenoFallback::CommonLocations,
                ),
                _ => next == Progress::<DenoSearchView, Result<LocationView, ErrorView>>::Pending(
                    search,
                ),
            }
        }),
{
    law_common_locations(os);
    if let AnswerView::Directory(Some(directory)) = answer {
        law_home(directory, os);
    }
}

// ---------------------------------------------------------------------------------------------
// The steps of the search for the driver
// ---------------------------------------------------------------------------------------------

/// The search for the driver starts as that for `cli.js` and asks what that asks. Without a
/// `cli.js` it reports a missing driver; with one it turns to the search for Deno, from its start
/// and on the same operating system.
pub proof fn law_driver_cli_steps(build: BuildInfoView, search: CliSearchView, os: Os, answer: AnswerView)
    ensures
        DriverSearchView::start(build, os) == DriverSearchView::Cli(
            CliSearchView::start(build),
            os,
        ),
        DriverSearchView::Cli(search, os).question() == search.question(),
        DriverSearchView::Cli(search, os).resume(answer) == (match search.resume(answer) {
            Progress::Pending(next) => Progress::<
                DriverSearchView,
                Result<(LocationView, LocationView), ErrorView>,
            >::Pending(DriverSearchView::Cli(next, os)),
            Progress::Settled(Some(cli_js)) => Progress::Pending(
                DriverSearchView::Deno(
                    cli_js,
                    DenoSearchView { os, stage: DenoStageView::Lookup(DenoLookup::SearchPath) },
                ),
            ),
            Progress::Settled(None) => Progress::Settled(Err(ErrorView::ServerNotFound)),
        }),
{
}

/// With a `cli.js` at hand, the search for the driver asks what that for Deno asks, and ends in the
/// Deno that it finds together with that `cli.js`, or in the error that it reports.
pub proof fn law_driver_deno_steps(cli_js: LocationView, search: DenoSearchView, answer: AnswerView)
    ensures
        DriverSearchView::Deno(cli_js, search).question() == search.question(),
        DriverSearchView::Deno(cli_js, search).resume(answer) == (match search.resume(answer) {
            Progress::Pending(next) => Progress::<
                DriverSearchView,
                Result<(LocationView, LocationView), ErrorView>,
            >::Pending(DriverSearchView::Deno(cli_js, next)),
            Progress::Settled(Ok(deno_exe)) => Progress::Settled(Ok((deno_exe, cli_js))),
            Progress::Settled(Err(error)) => Progress::Settled(Err(error)),
        }),
{
}

} // verus!
