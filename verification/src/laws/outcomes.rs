//! What a search finds on a machine, told by what there is on the machine.
use vstd::prelude::*;
use vstd::utf8::*;

use crate::cli::{self, CliSearchView};
use crate::deno::{self, DenoSearchView};
use crate::driver::{self, DriverSearchView};
use crate::error::ErrorView;
use crate::host::{BuildInfoView, CommandLineView, CommandOutputView, Os, World};
use crate::laws;
use crate::laws::sources;
use crate::location::LocationView;
use crate::probe::{ProbeView, Progress};

verus! {

/// Whether `found` is the first of `candidates` that exists: one that exists, with none before it
/// that exists; nothing, where none of them exists.
pub open spec fn is_first_existing(
    found: Option<LocationView>,
    candidates: Seq<LocationView>,
    existing: Set<LocationView>,
) -> bool {
    match found {
        Some(location) => existing.contains(location) && exists|i: int|
            {
                &&& 0 <= i < candidates.len()
                &&& #[trigger] candidates[i] == location
                &&& forall|j: int| 0 <= j < i ==> !existing.contains(#[trigger] candidates[j])
            },
        None => forall|j: int|
            0 <= j < candidates.len() ==> !existing.contains(#[trigger] candidates[j]),
    }
}

/// What an environment variable holds.
pub open spec fn variable(world: World, name: Seq<char>) -> Option<Seq<char>> {
    if world.variables.contains_key(name) {
        Some(world.variables[name])
    } else {
        None
    }
}

/// What a program that succeeds prints.
pub open spec fn printed(world: World, program: Seq<char>, args: Seq<Seq<char>>) -> Option<Seq<char>> {
    let command = CommandLineView { program, args };
    if world.outputs.contains_key(command) && world.outputs[command].success {
        Some(crate::text::decoded(world.outputs[command].stdout))
    } else {
        None
    }
}

/// The `cli.js` of the packages in the `node_modules` directory that npm printed.
pub open spec fn packages(printed: Option<Seq<char>>) -> Seq<LocationView> {
    match printed {
        Some(text) => seq![
            sources::path(crate::text::trimmed(text), seq!["playwright"@, "cli.js"@]),
            sources::path(crate::text::trimmed(text), seq!["@playwright"@, "test"@, "cli.js"@]),
        ],
        None => seq![],
    }
}

/// Where `cli.js` is looked for, first to last.
pub open spec fn cli_places(build: BuildInfoView, world: World) -> Seq<LocationView> {
    (match build.cli_js {
        Some(cli_js) => seq![sources::path(cli_js, seq![])],
        None => seq![],
    }) + (match build.driver_dir {
        Some(dir) => seq![sources::path(dir, seq!["package"@, "cli.js"@])],
        None => seq![],
    }) + (match (world.cache_directory, build.driver_version, build.driver_platform) {
        (Some(root), Some(version), Some(platform)) => seq![
            sources::under(
                root,
                seq![
                    "playwright-rust"@,
                    version,
                    "playwright-"@ + version + "-"@ + platform,
                    "package"@,
                    "cli.js"@,
                ],
            ),
        ],
        _ => seq![],
    }) + (match variable(world, "PLAYWRIGHT_DRIVER_PATH"@) {
        Some(dir) => seq![sources::path(dir, seq!["package"@, "cli.js"@])],
        None => seq![],
    }) + (match variable(world, "PLAYWRIGHT_CLI_JS"@) {
        Some(cli_js) => seq![sources::path(cli_js, seq![])],
        None => seq![],
    }) + packages(printed(world, "npm"@, seq!["root"@, "-g"@])) + packages(
        printed(world, "npm"@, seq!["root"@]),
    )
}

/// Where Deno is looked for, first to last.
pub open spec fn deno_places(os: Os, world: World) -> Seq<LocationView> {
    let lookup = match os {
        Os::Windows => printed(world, "where"@, seq!["deno"@]),
        Os::Linux | Os::Other => printed(world, "which"@, seq!["deno"@]),
    };
    (match lookup {
        Some(text) => if crate::text::trimmed(text).len() > 0 {
            seq![
                sources::path(
                    crate::text::first_line_of(crate::text::trimmed(text)),
                    seq![],
                ),
            ]
        } else {
            seq![]
        },
        None => seq![],
    }) + (match variable(world, "DENO_INSTALL"@) {
        Some(root) => seq![sources::path(root, seq!["bin"@, sources::executable(os)])],
        None => seq![],
    }) + (match world.home_directory {
        Some(home) => seq![
            sources::under(home, seq![".deno"@, "bin"@, sources::executable(os)]),
        ],
        None => seq![],
    }) + sources::common(os)
}

/// What an attempt checks is what it was made for.
proof fn lemma_checked(candidates: Seq<LocationView>, expected: Seq<LocationView>)
    requires
        sources::checks(ProbeView::over(candidates), expected),
    ensures
        candidates == expected,
{
    assert forall|i: int| 0 <= i < candidates.len() implies candidates[i] == expected[i] by {
        if i > 0 {
            assert(candidates.drop_first()[i - 1] == candidates[i]);
        }
    }
    assert(candidates =~= expected);
}

proof fn lemma_packages(world: World, args: Seq<Seq<char>>)
    ensures
        cli::npm_candidates(world.output(CommandLineView { program: "npm"@, args })) == packages(
            printed(world, "npm"@, args),
        ),
{
    let command = CommandLineView { program: "npm"@, args };
    if let Some(o) = world.output(command) {
        sources::law_npm(o.stdout);
        if o.success {
            assert(o == (CommandOutputView { success: true, stdout: o.stdout }));
        } else {
            assert(o == (CommandOutputView { success: false, stdout: o.stdout }));
        }
    }
    lemma_checked(
        cli::npm_candidates(world.output(command)),
        packages(printed(world, "npm"@, args)),
    );
}

proof fn lemma_cli_places(build: BuildInfoView, world: World)
    ensures
        cli::cli_candidates(build, world) == cli_places(build, world),
{
    let none = seq![];
    let recorded = match build.cli_js {
        Some(cli_js) => seq![sources::path(cli_js, seq![])],
        None => none,
    };
    let unpacked = match build.driver_dir {
        Some(dir) => seq![sources::path(dir, seq!["package"@, "cli.js"@])],
        None => none,
    };
    assert(cli::bundled_candidates(build) == recorded + unpacked) by {
        sources::law_bundle(build);
        match (build.cli_js, build.driver_dir) {
            (Some(cli_js), Some(dir)) => {
                assert(recorded + unpacked =~= seq![
                    sources::path(cli_js, seq![]),
                    sources::path(dir, seq!["package"@, "cli.js"@]),
                ]);
            },
            (Some(cli_js), None) => {
                assert(recorded + unpacked =~= recorded);
            },
            (None, Some(dir)) => {
                assert(recorded + unpacked =~= unpacked);
            },
            (None, None) => {
                assert(recorded + unpacked =~= none);
            },
        }
        lemma_checked(cli::bundled_candidates(build), recorded + unpacked);
    }
    let cached = match (world.cache_directory, build.driver_version, build.driver_platform) {
        (Some(root), Some(version), Some(platform)) => seq![
            sources::under(
                root,
                seq![
                    "playwright-rust"@,
                    version,
                    "playwright-"@ + version + "-"@ + platform,
                    "package"@,
                    "cli.js"@,
                ],
            ),
        ],
        _ => none,
    };
    sources::law_user_cache(world.cache_directory, build);
    lemma_checked(cli::user_cache_candidates(world.cache_directory, build), cached);
    let named_dir = variable(world, "PLAYWRIGHT_DRIVER_PATH"@);
    let named = match named_dir {
        Some(dir) => seq![sources::path(dir, seq!["package"@, "cli.js"@])],
        None => none,
    };
    sources::law_variables(
        match named_dir {
            Some(dir) => dir,
            None => seq![],
        },
    );
    lemma_checked(cli::driver_path_candidates(named_dir), named);
    let given = variable(world, "PLAYWRIGHT_CLI_JS"@);
    let direct = match given {
        Some(cli_js) => seq![sources::path(cli_js, seq![])],
        None => none,
    };
    sources::law_variables(
        match given {
            Some(cli_js) => cli_js,
            None => seq![],
        },
    );
    lemma_checked(cli::cli_js_candidates(given), direct);
    lemma_packages(world, seq!["root"@, "-g"@]);
    lemma_packages(world, seq!["root"@]);
}

/// The search for `cli.js` finds the first place of all that is documented, in that order, at which
/// there is something.
pub proof fn law_cli_found(build: BuildInfoView, world: World)
    ensures
        is_first_existing(
            cli::cli_result(Progress::Pending(CliSearchView::start(build)), world),
            cli_places(build, world),
            world.existing,
        ),
{
    laws::law_cli_search_order(build, world);
    laws::law_first_existing(cli::cli_candidates(build, world), world.existing);
    lemma_cli_places(build, world);
}

proof fn lemma_deno_places(os: Os, world: World)
    ensures
        deno::deno_candidates(os, world) == deno_places(os, world),
{
    let none = seq![];
    let program = match os {
        Os::Windows => "where"@,
        Os::Linux | Os::Other => "which"@,
    };
    let command = CommandLineView { program, args: seq!["deno"@] };
    let lookup = printed(world, program, seq!["deno"@]);
    let looked_up = match lookup {
        Some(text) => if crate::text::trimmed(text).len() > 0 {
            seq![sources::path(crate::text::first_line_of(crate::text::trimmed(text)), seq![])]
        } else {
            none
        },
        None => none,
    };
    if let Some(o) = world.output(command) {
        sources::law_search_path(o.stdout);
        if o.success {
            assert(o == (CommandOutputView { success: true, stdout: o.stdout }));
        } else {
            assert(o == (CommandOutputView { success: false, stdout: o.stdout }));
        }
    }
    lemma_checked(deno::search_path_candidates(world.output(command)), looked_up);
    let root = variable(world, "DENO_INSTALL"@);
    let installed = match root {
        Some(text) => seq![sources::path(text, seq!["bin"@, sources::executable(os)])],
        None => none,
    };
    sources::law_install_root(
        match root {
            Some(text) => text,
            None => seq![],
        },
        os,
    );
    lemma_checked(deno::install_root_candidates(os, root), installed);
    let at_home = match world.home_directory {
        Some(home) => seq![sources::under(home, seq![".deno"@, "bin"@, sources::executable(os)])],
        None => none,
    };
    if let Some(home) = world.home_directory {
        sources::law_home(home, os);
    }
    lemma_checked(deno::home_candidates(os, world.home_directory), at_home);
    sources::law_common_locations(os);
    lemma_checked(deno::common_candidates(os), sources::common(os));
}

/// The search for Deno finds the first place of all that is documented, in that order, at which
/// there is something; where there is none it reports a missing Deno.
pub proof fn law_deno_found(os: Os, world: World)
    ensures
        match deno::deno_result(Progress::Pending(DenoSearchView::start(os)), world) {
            Ok(deno_exe) => is_first_existing(
                Some(deno_exe),
                deno_places(os, world),
                world.existing,
            ),
            Err(error) => error == sources::missing_deno() && is_first_existing(
                None,
                deno_places(os, world),
                world.existing,
            ),
        },
{
    laws::law_deno_search_order(os, world);
    laws::law_first_existing(deno::deno_candidates(os, world), world.existing);
    lemma_deno_places(os, world);
}

/// The search for the driver finds the first place for Deno and the first place for `cli.js` at
/// which there is something. It reports a missing driver where there is no `cli.js`, whether or not
/// there is a Deno, and a missing Deno where there is a `cli.js` but no Deno.
pub proof fn law_driver_found(build: BuildInfoView, os: Os, world: World)
    ensures
        match driver::driver_result(Progress::Pending(DriverSearchView::start(build, os)), world) {
            Ok((deno_exe, cli_js)) => {
                &&& is_first_existing(Some(cli_js), cli_places(build, world), world.existing)
                &&& is_first_existing(Some(deno_exe), deno_places(os, world), world.existing)
            },
            Err(ErrorView::ServerNotFound) => is_first_existing(
                None,
                cli_places(build, world),
                world.existing,
            ),
            Err(error) => {
                &&& error == sources::missing_deno()
                &&& !is_first_existing(None, cli_places(build, world), world.existing)
                &&& is_first_existing(None, deno_places(os, world), world.existing)
            },
        },
{
    laws::law_driver_search_order(build, os, world);
    laws::law_first_existing(cli::cli_candidates(build, world), world.existing);
    laws::law_first_existing(deno::deno_candidates(os, world), world.existing);
    lemma_cli_places(build, world);
    lemma_deno_places(os, world);
}

/// A Deno on the search path is what is found, whatever else there is: where `which deno`, or on
/// Windows `where deno`, succeeds and prints a line with a path that exists, that path is the
/// result.
pub proof fn law_deno_on_the_search_path(os: Os, world: World, found: Seq<char>, rest: Seq<char>)
    requires
        found.len() > 0,
        !found.contains('\n'),
        !crate::text::is_white_space(found.first()),
        !crate::text::is_white_space(found.last()),
        world.existing.contains(sources::path(found, seq![])),
        ({
            let command = CommandLineView {
                program: if os == Os::Windows {
                    "where"@
                } else {
                    "which"@
                },
                args: seq!["deno"@],
            };
            &&& world.outputs.contains_key(command)
            &&& world.outputs[command].success
            &&& {
                ||| world.outputs[command].stdout == encode_utf8(found)
                ||| world.outputs[command].stdout == encode_utf8(found + seq!['\n'])
                ||| world.outputs[command].stdout == encode_utf8(found + seq!['\r', '\n'])
                ||| {
                    &&& rest.len() > 0
                    &&& !crate::text::is_white_space(rest.last())
                    &&& world.outputs[command].stdout == encode_utf8(
                        found + seq!['\r', '\n'] + rest,
                    )
                }
            }
        }),
    ensures
        deno::deno_result(Progress::Pending(DenoSearchView::start(os)), world) == Ok::<
            LocationView,
            ErrorView,
        >(sources::path(found, seq![])),
{
    let command = CommandLineView {
        program: if os == Os::Windows {
            "where"@
        } else {
            "which"@
        },
        args: seq!["deno"@],
    };
    let stdout = world.outputs[command].stdout;
    let none: Seq<char> = seq![];
    laws::texts::law_decoded(found, stdout);
    laws::texts::law_decoded(found + seq!['\n'], stdout);
    laws::texts::law_decoded(found + seq!['\r', '\n'], stdout);
    let lines = found + seq!['\r', '\n'] + rest;
    laws::texts::law_decoded(lines, stdout);
    laws::texts::law_trimmed_of_padded(none, found, none);
    laws::texts::law_trimmed_of_padded(none, found, seq!['\n']);
    laws::texts::law_trimmed_of_padded(none, found, seq!['\r', '\n']);
    assert(none + found + none =~= found);
    assert(none + found + seq!['\n'] =~= found + seq!['\n']);
    assert(none + found + seq!['\r', '\n'] =~= found + seq!['\r', '\n']);
    laws::texts::law_first_line(found, rest);
    if rest.len() > 0 && !crate::text::is_white_space(rest.last()) {
        assert(lines.first() == found.first());
        assert(lines.last() == rest.last());
        laws::texts::law_trimmed_of_padded(none, lines, none);
        assert(none + lines + none =~= lines);
    }
    assert(crate::text::first_line_of(crate::text::trimmed(crate::text::decoded(stdout))) == found);
    law_deno_found(os, world);
    assert(deno_places(os, world)[0] == sources::path(found, seq![]));
}

} // verus!
