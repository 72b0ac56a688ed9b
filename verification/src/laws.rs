//! What holds of every search and of every installation.
use vstd::prelude::*;

pub mod installations;
pub mod outcomes;
pub mod sources;
pub mod texts;
pub mod views;

use crate::cli::{self, CliLookup, CliSearchView, CliStageView};
use crate::deno::{self, DenoFallback, DenoLookup, DenoSearchView, DenoStageView};
use crate::driver::{self, DriverSearchView};
use crate::error::ErrorView;
use crate::host::{AnswerView, BuildInfoView, Os, QuestionView, World};
use crate::install::{
    self, ArgumentView, InstallCommandView, InstallReplyView, InstallationView,
    InstallerOutcomeView,
};
use crate::location::LocationView;
use crate::probe::{self, ProbeView, Progress};
use crate::text;

verus! {

// ---------------------------------------------------------------------------------------------
// Candidates
// ---------------------------------------------------------------------------------------------

/// An earlier source wins over a later one: of two lists of candidates, the second is consulted
/// only where nothing in the first exists.
pub proof fn law_earlier_candidates_win(
    earlier: Seq<LocationView>,
    later: Seq<LocationView>,
    existing: Set<LocationView>,
)
    ensures
        probe::first_existing(earlier + later, existing) == (match probe::first_existing(
            earlier,
            existing,
        ) {
            Some(found) => Some(found),
            None => probe::first_existing(later, existing),
        }),
    decreases earlier.len(),
{
    if earlier.len() == 0 {
        assert(earlier + later =~= later);
    } else {
        assert((earlier + later).drop_first() =~= earlier.drop_first() + later);
        law_earlier_candidates_win(earlier.drop_first(), later, existing);
    }
}

/// What is found is a candidate that exists, and no candidate before it exists; where nothing is
/// found, no candidate exists.
pub proof fn law_first_existing(candidates: Seq<LocationView>, existing: Set<LocationView>)
    ensures
        match probe::first_existing(candidates, existing) {
            Some(found) => exists|i: int|
                {
                    &&& 0 <= i < candidates.len()
                    &&& #[trigger] candidates[i] == found
                    &&& existing.contains(found)
                    &&& forall|j: int| 0 <= j < i ==> !existing.contains(#[trigger] candidates[j])
                },
            None => forall|j: int|
                0 <= j < candidates.len() ==> !existing.contains(#[trigger] candidates[j]),
        },
    decreases candidates.len(),
{
    if candidates.len() > 0 {
        let rest = candidates.drop_first();
        law_first_existing(rest, existing);
        if existing.contains(candidates.first()) {
            assert(candidates[0] == candidates.first());
        } else {
            assert forall|j: int| 0 < j < candidates.len() implies candidates[j] == rest[j - 1] by {}
            if let Some(found) = probe::first_existing(rest, existing) {
                let i = choose|i: int|
                    {
                        &&& 0 <= i < rest.len()
                        &&& #[trigger] rest[i] == found
                        &&& existing.contains(found)
                        &&& forall|j: int| 0 <= j < i ==> !existing.contains(#[trigger] rest[j])
                    };
                assert(candidates[i + 1] == found);
                assert forall|j: int| 0 <= j < i + 1 implies !existing.contains(
                    #[trigger] candidates[j],
                ) by {
                    if j > 0 {
                        assert(candidates[j] == rest[j - 1]);
                    }
                }
            }
        }
    }
}

/// An attempt over candidates ends in the first of them that exists.
pub proof fn law_probe(candidates: Seq<LocationView>, existing: Set<LocationView>)
    ensures
        probe::probe_result(ProbeView::over(candidates), existing) == probe::first_existing(
            candidates,
            existing,
        ),
    decreases candidates.len(),
{
    reveal_with_fuel(probe::probe_result, 2);
    if candidates.len() > 0 {
        law_probe(candidates.drop_first(), existing);
    }
}

// ---------------------------------------------------------------------------------------------
// The search for `cli.js`
// ---------------------------------------------------------------------------------------------

/// What the source `lookup` and those after it offer.
spec fn cli_candidates_from(lookup: CliLookup, build: BuildInfoView, world: World) -> Seq<
    LocationView,
>
    decreases lookup.questions(),
{
    let here = lookup.candidates(build, world.answer(lookup.spec_question()));
    match lookup.spec_next() {
        Some(next) => here + cli_candidates_from(next, build, world),
        None => here,
    }
}

/// The candidates that a search has still to go through.
spec fn cli_candidates_left(search: CliSearchView, world: World) -> Seq<LocationView> {
    match search.stage {
        CliStageView::Lookup(lookup) => cli_candidates_from(lookup, search.build, world),
        CliStageView::Probing(probe, Some(then)) => probe.candidates() + cli_candidates_from(
            then,
            search.build,
            world,
        ),
        CliStageView::Probing(probe, None) => probe.candidates(),
    }
}

/// A search goes through the candidates that it has left.
proof fn lemma_cli_search_from(search: CliSearchView, world: World)
    ensures
        cli::cli_result(Progress::Pending(search), world) == probe::first_existing(
            cli_candidates_left(search, world),
            world.existing,
        ),
    decreases cli::cli_questions_left(Progress::Pending(search)),
{
    let answer = world.answer(search.question());
    let (progress, then) = match search.stage {
        CliStageView::Lookup(lookup) => (
            ProbeView::over(lookup.candidates(search.build, answer)),
            lookup.spec_next(),
        ),
        CliStageView::Probing(probe, then) => (probe.resume(answer->Exists_0), then),
    };
    let next = search.resume(answer);
    assert(next == CliSearchView::after(search.build, progress, then));
    assert(cli::cli_result(Progress::Pending(search), world) == cli::cli_result(next, world));
    if let Progress::Pending(later) = next {
        lemma_cli_search_from(later, world);
    }
    let tail = match then {
        Some(lookup) => cli_candidates_from(lookup, search.build, world),
        None => seq![],
    };
    match search.stage {
        CliStageView::Lookup(lookup) => {
            let here = lookup.candidates(search.build, answer);
            assert(cli_candidates_left(search, world) =~= here + tail);
            law_earlier_candidates_win(here, tail, world.existing);
            if here.len() > 0 {
                assert(seq![here.first()] + here.drop_first() =~= here);
                assert(next matches Progress::Pending(later) && cli_candidates_left(later, world)
                    =~= here + tail);
            } else {
                assert(here + tail =~= tail);
            }
            assert(cli::cli_result(next, world) == probe::first_existing(
                here + tail,
                world.existing,
            ));
        },
        CliStageView::Probing(probe, _) => {
            assert(cli_candidates_left(search, world) =~= probe.candidates() + tail);
            let all = probe.candidates() + tail;
            assert(all.drop_first() =~= probe.rest + tail);
            law_earlier_candidates_win(probe.rest, tail, world.existing);
            if probe.rest.len() > 0 {
                assert(seq![probe.rest.first()] + probe.rest.drop_first() =~= probe.rest);
                if let Progress::Pending(later) = next {
                    assert(cli_candidates_left(later, world) =~= probe.rest + tail);
                }
            } else {
                assert(probe.rest + tail =~= tail);
            }
            assert(cli::cli_result(next, world) == probe::first_existing(all, world.existing));
        },
    }
}

/// The search for `cli.js` ends in the first candidate that exists, in the order bundled driver,
/// user's cache, `PLAYWRIGHT_DRIVER_PATH`, `PLAYWRIGHT_CLI_JS`, global npm, local npm.
pub proof fn law_cli_search_order(build: BuildInfoView, world: World)
    ensures
        cli::cli_result(Progress::Pending(CliSearchView::start(build)), world)
            == probe::first_existing(cli::cli_candidates(build, world), world.existing),
{
    let search = CliSearchView::start(build);
    lemma_cli_search_from(search, world);
    let bundled = cli::bundled_candidates(build);
    let cache = cli::user_cache_candidates(world.cache_directory, build);
    let driver_path = cli::driver_path_candidates(world.variable("PLAYWRIGHT_DRIVER_PATH"@));
    let cli_js = cli::cli_js_candidates(world.variable("PLAYWRIGHT_CLI_JS"@));
    let global = cli::npm_candidates(world.output(cli::npm_root_global()));
    let local = cli::npm_candidates(world.output(cli::npm_root_local()));
    assert(cli_candidates_from(CliLookup::NpmLocal, build, world) == local);
    assert(cli_candidates_from(CliLookup::NpmGlobal, build, world) == global + local);
    assert(cli_candidates_from(CliLookup::CliJsVariable, build, world) == cli_js + (global
        + local));
    assert(cli_candidates_from(CliLookup::DriverPathVariable, build, world) == driver_path + (cli_js
        + (global + local)));
    let looked_up = cli_candidates_from(CliLookup::UserCache, build, world);
    assert(looked_up == cache + (driver_path + (cli_js + (global + local))));
    assert(cli_candidates_left(search, world) == bundled + looked_up) by {
        if bundled.len() > 0 {
            assert(seq![bundled.first()] + bundled.drop_first() =~= bundled);
        } else {
            assert(bundled + looked_up =~= looked_up);
        }
    }
    lemma_concat_associates(bundled, cache, driver_path, cli_js, global, local);
}

proof fn lemma_concat_associates(
    a: Seq<LocationView>,
    b: Seq<LocationView>,
    c: Seq<LocationView>,
    d: Seq<LocationView>,
    e: Seq<LocationView>,
    f: Seq<LocationView>,
)
    ensures
        a + (b + (c + (d + (e + f)))) == a + b + c + d + e + f,
{
    assert(d + (e + f) =~= d + e + f);
    assert(c + (d + e + f) =~= c + d + e + f);
    assert(b + (c + d + e + f) =~= b + c + d + e + f);
    assert(a + (b + c + d + e + f) =~= a + b + c + d + e + f);
}

// ---------------------------------------------------------------------------------------------
// The search for Deno
// ---------------------------------------------------------------------------------------------

/// What a search offers once it turns to `fallback`.
spec fn deno_candidates_from(fallback: DenoFallback, os: Os, world: World) -> Seq<LocationView>
    decreases fallback.questions(os),
{
    match fallback {
        DenoFallback::Lookup(lookup) => lookup.candidates(
            os,
            world.answer(lookup.spec_question(os)),
        ) + deno_candidates_from(lookup.spec_next(), os, world),
        DenoFallback::CommonLocations => deno::common_candidates(os),
        DenoFallback::GiveUp => seq![],
    }
}

/// The candidates that a search has still to go through.
spec fn deno_candidates_left(search: DenoSearchView, world: World) -> Seq<LocationView> {
    match search.stage {
        DenoStageView::Lookup(lookup) => deno_candidates_from(
            DenoFallback::Lookup(lookup),
            search.os,
            world,
        ),
        DenoStageView::Probing(probe, then) => probe.candidates() + deno_candidates_from(
            then,
            search.os,
            world,
        ),
    }
}

/// A search goes through the candidates that it has left.
proof fn lemma_deno_search_from(search: DenoSearchView, world: World)
    ensures
        deno::deno_result(Progress::Pending(search), world) == deno::outcome_of(
            deno_candidates_left(search, world),
            world.existing,
        ),
    decreases deno::deno_questions_left(Progress::Pending(search)),
{
    let answer = world.answer(search.question());
    let next = search.resume(answer);
    assert(deno::deno_result(Progress::Pending(search), world) == deno::deno_result(next, world));
    if let Progress::Pending(later) = next {
        lemma_deno_search_from(later, world);
    }
    match search.stage {
        DenoStageView::Lookup(lookup) => {
            let here = lookup.candidates(search.os, answer);
            let tail = deno_candidates_from(lookup.spec_next(), search.os, world);
            if here.len() > 0 {
                assert(seq![here.first()] + here.drop_first() =~= here);
            } else {
                assert(here + tail =~= tail);
                lemma_deno_turn_to(search.os, lookup.spec_next(), world);
            }
            assert(deno::deno_result(next, world) == deno::outcome_of(here + tail, world.existing));
        },
        DenoStageView::Probing(probe, then) => {
            let tail = deno_candidates_from(then, search.os, world);
            let all = probe.candidates() + tail;
            assert(all.drop_first() =~= probe.rest + tail);
            law_earlier_candidates_win(probe.rest, tail, world.existing);
            if probe.rest.len() > 0 {
                assert(seq![probe.rest.first()] + probe.rest.drop_first() =~= probe.rest);
            } else {
                assert(probe.rest + tail =~= tail);
                lemma_deno_turn_to(search.os, then, world);
            }
            assert(deno::deno_result(next, world) == deno::outcome_of(all, world.existing));
        },
    }
}

/// A search that turns to `fallback` has the candidates from there on left.
proof fn lemma_deno_turn_to(os: Os, fallback: DenoFallback, world: World)
    ensures
        match DenoSearchView::turn_to(os, fallback) {
            Progress::Pending(search) => deno_candidates_left(search, world)
                == deno_candidates_from(fallback, os, world),
            Progress::Settled(result) => result == Err::<LocationView, ErrorView>(
                deno::deno_not_found(),
            ) && deno_candidates_from(fallback, os, world).len() == 0,
        },
{
    let common = deno::common_candidates(os);
    if let DenoFallback::CommonLocations = fallback {
        assert(deno_candidates_from(DenoFallback::GiveUp, os, world).len() == 0);
        assert(seq![common.first()] + common.drop_first() + deno_candidates_from(
            DenoFallback::GiveUp,
            os,
            world,
        ) =~= common);
    }
}

/// The search for Deno ends in the first candidate that exists, in the order search path,
/// `$DENO_INSTALL/bin`, `.deno/bin` in the home directory, common locations; where none exists
/// it ends in the error that Deno is missing.
pub proof fn law_deno_search_order(os: Os, world: World)
    ensures
        deno::deno_result(Progress::Pending(DenoSearchView::start(os)), world) == deno::deno_outcome(
            os,
            world,
        ),
{
    let search = DenoSearchView::start(os);
    lemma_deno_search_from(search, world);
    let path = deno::search_path_candidates(world.output(deno::search_path_command(os)));
    let root = deno::install_root_candidates(os, world.variable("DENO_INSTALL"@));
    let home = deno::home_candidates(os, world.home_directory);
    let common = deno::common_candidates(os);
    assert(deno_candidates_from(DenoFallback::CommonLocations, os, world) == common);
    assert(deno_candidates_from(DenoFallback::Lookup(DenoLookup::HomeDirectory), os, world) == home
        + common);
    assert(deno_candidates_from(DenoFallback::Lookup(DenoLookup::InstallRoot), os, world) == root
        + (home + common));
    assert(deno_candidates_left(search, world) == path + (root + (home + common)));
    assert(root + (home + common) =~= root + home + common);
    assert(path + (root + home + common) =~= path + root + home + common);
}

// ---------------------------------------------------------------------------------------------
// The search for the driver
// ---------------------------------------------------------------------------------------------

proof fn lemma_driver_search_of_deno(cli_js: LocationView, search: DenoSearchView, world: World)
    ensures
        driver::driver_result(
            Progress::Pending(DriverSearchView::Deno(cli_js, search)),
            world,
        ) == (match deno::deno_result(Progress::Pending(search), world) {
            Ok(deno_exe) => Ok((deno_exe, cli_js)),
            Err(error) => Err(error),
        }),
    decreases deno::deno_questions_left(Progress::Pending(search)),
{
    reveal_with_fuel(driver::driver_result, 2);
    reveal_with_fuel(deno::deno_result, 2);
    if let Progress::Pending(later) = search.resume(world.answer(search.question())) {
        lemma_driver_search_of_deno(cli_js, later, world);
    }
}

proof fn lemma_driver_search_of_cli(search: CliSearchView, os: Os, world: World)
    ensures
        driver::driver_result(Progress::Pending(DriverSearchView::Cli(search, os)), world) == (
        match cli::cli_result(Progress::Pending(search), world) {
            Some(cli_js) => driver::driver_result(
                Progress::Pending(DriverSearchView::Deno(cli_js, DenoSearchView::start(os))),
                world,
            ),
            None => Err(ErrorView::ServerNotFound),
        }),
    decreases cli::cli_questions_left(Progress::Pending(search)),
{
    reveal_with_fuel(driver::driver_result, 2);
    reveal_with_fuel(cli::cli_result, 2);
    if let Progress::Pending(later) = search.resume(world.answer(search.question())) {
        lemma_driver_search_of_cli(later, os, world);
    }
}

/// The search for the driver ends in the first existing Deno and the first existing `cli.js`, in
/// the order of the sources of each.
pub proof fn law_driver_search_order(build: BuildInfoView, os: Os, world: World)
    ensures
        driver::driver_result(Progress::Pending(DriverSearchView::start(build, os)), world)
            == driver::driver_outcome(build, os, world),
{
    lemma_driver_search_of_cli(CliSearchView::start(build), os, world);
    law_cli_search_order(build, world);
    if let Some(cli_js) = cli::cli_result(Progress::Pending(CliSearchView::start(build)), world) {
        lemma_driver_search_of_deno(cli_js, DenoSearchView::start(os), world);
        law_deno_search_order(os, world);
    }
}

/// A driver is reported missing exactly where no candidate for `cli.js` exists; otherwise Deno is
/// reported missing exactly where no candidate for it exists.
pub proof fn law_driver_errors(build: BuildInfoView, os: Os, world: World)
    ensures
        ({
            let result = driver::driver_result(
                Progress::Pending(DriverSearchView::start(build, os)),
                world,
            );
            let no_cli = forall|i: int|
                0 <= i < cli::cli_candidates(build, world).len() ==> !world.existing.contains(
                    #[trigger] cli::cli_candidates(build, world)[i],
                );
            let no_deno = forall|i: int|
                0 <= i < deno::deno_candidates(os, world).len() ==> !world.existing.contains(
                    #[trigger] deno::deno_candidates(os, world)[i],
                );
            &&& result is Ok <==> !no_cli && !no_deno
            &&& result == Err::<(LocationView, LocationView), ErrorView>(
                ErrorView::ServerNotFound,
            ) <==> no_cli
            &&& result == Err::<(LocationView, LocationView), ErrorView>(
                deno::deno_not_found(),
            ) <==> !no_cli && no_deno
        }),
{
    law_driver_search_order(build, os, world);
    law_first_existing(cli::cli_candidates(build, world), world.existing);
    law_first_existing(deno::deno_candidates(os, world), world.existing);
}

/// What is found exists.
pub proof fn law_found_exists(build: BuildInfoView, os: Os, world: World)
    ensures
        driver::driver_result(
            Progress::Pending(DriverSearchView::start(build, os)),
            world,
        ) matches Ok((deno_exe, cli_js)) ==> {
            &&& world.existing.contains(deno_exe)
            &&& world.existing.contains(cli_js)
        },
{
    law_driver_search_order(build, os, world);
    law_first_existing(cli::cli_candidates(build, world), world.existing);
    law_first_existing(deno::deno_candidates(os, world), world.existing);
}

/// The bundled driver is the primary one: where it exists it is what is found, whatever the cache,
/// the environment and npm hold.
pub proof fn law_bundled_driver_is_primary(build: BuildInfoView, world: World)
    requires
        probe::first_existing(cli::bundled_candidates(build), world.existing) is Some,
    ensures
        cli::cli_result(Progress::Pending(CliSearchView::start(build)), world)
            == probe::first_existing(cli::bundled_candidates(build), world.existing),
{
    law_cli_search_order(build, world);
    let bundled = cli::bundled_candidates(build);
    let cache = cli::user_cache_candidates(world.cache_directory, build);
    let driver_path = cli::driver_path_candidates(world.variable("PLAYWRIGHT_DRIVER_PATH"@));
    let cli_js = cli::cli_js_candidates(world.variable("PLAYWRIGHT_CLI_JS"@));
    let global = cli::npm_candidates(world.output(cli::npm_root_global()));
    let local = cli::npm_candidates(world.output(cli::npm_root_local()));
    let others = cache + (driver_path + (cli_js + (global + local)));
    lemma_concat_associates(bundled, cache, driver_path, cli_js, global, local);
    law_earlier_candidates_win(bundled, others, world.existing);
}

// ---------------------------------------------------------------------------------------------
// The questions of a search
// ---------------------------------------------------------------------------------------------

/// Every answer to the question that is asked brings a search nearer to its end, whatever the
/// answer is, and any other answer leaves it where it is.
pub proof fn law_answers_bring_progress(search: DriverSearchView, answer: AnswerView)
    ensures
        search.question().takes(answer) ==> driver::driver_questions_left(search.resume(answer))
            < driver::driver_questions_left(Progress::Pending(search)),
        !search.question().takes(answer) ==> search.resume(answer) == Progress::<
            DriverSearchView,
            Result<(LocationView, LocationView), ErrorView>,
        >::Pending(search),
{
}

/// A search asks at most 24 questions.
pub proof fn law_questions_are_bounded(build: BuildInfoView, os: Os, world: World)
    ensures
        driver::driver_questions_left(Progress::Pending(DriverSearchView::start(build, os))) <= 24,
        driver::driver_questions(
            Progress::Pending(DriverSearchView::start(build, os)),
            world,
        ).len() <= 24,
{
    lemma_questions_are_bounded_from(DriverSearchView::start(build, os), world);
}

proof fn lemma_questions_are_bounded_from(search: DriverSearchView, world: World)
    ensures
        driver::driver_questions(Progress::Pending(search), world).len()
            <= driver::driver_questions_left(Progress::Pending(search)),
    decreases driver::driver_questions_left(Progress::Pending(search)),
{
    reveal_with_fuel(driver::driver_questions, 2);
    if let Progress::Pending(later) = search.resume(world.answer(search.question())) {
        lemma_questions_are_bounded_from(later, world);
    }
}

proof fn lemma_driver_questions_of_deno(cli_js: LocationView, search: DenoSearchView, world: World)
    ensures
        driver::driver_questions(
            Progress::Pending(DriverSearchView::Deno(cli_js, search)),
            world,
        ) == deno::deno_questions(Progress::Pending(search), world),
    decreases deno::deno_questions_left(Progress::Pending(search)),
{
    reveal_with_fuel(driver::driver_questions, 2);
    reveal_with_fuel(deno::deno_questions, 2);
    if let Progress::Pending(later) = search.resume(world.answer(search.question())) {
        lemma_driver_questions_of_deno(cli_js, later, world);
    }
}

/// What a search asks about Deno once that for `cli.js` has ended in `found`.
spec fn deno_questions_after(found: Option<LocationView>, os: Os, world: World) -> Seq<
    QuestionView,
> {
    match found {
        Some(_) => deno::deno_questions(Progress::Pending(DenoSearchView::start(os)), world),
        None => seq![],
    }
}

proof fn lemma_driver_questions_of_cli(search: CliSearchView, os: Os, world: World)
    ensures
        driver::driver_questions(Progress::Pending(DriverSearchView::Cli(search, os)), world)
            == cli::cli_questions(Progress::Pending(search), world) + deno_questions_after(
            cli::cli_result(Progress::Pending(search), world),
            os,
            world,
        ),
    decreases cli::cli_questions_left(Progress::Pending(search)),
{
    let next = search.resume(world.answer(search.question()));
    let rest = cli::cli_questions(next, world);
    let deno = deno_questions_after(cli::cli_result(next, world), os, world);
    match next {
        Progress::Pending(later) => {
            lemma_driver_questions_of_cli(later, os, world);
        },
        Progress::Settled(Some(cli_js)) => {
            lemma_driver_questions_of_deno(cli_js, DenoSearchView::start(os), world);
            assert(rest + deno =~= deno);
        },
        Progress::Settled(None) => {
            assert(rest + deno =~= seq![]);
        },
    }
    assert(driver::driver_questions(DriverSearchView::after_cli(next, os), world) == rest + deno);
    assert(seq![search.question()] + (rest + deno) =~= seq![search.question()] + rest + deno);
}

/// A search asks all that it asks about `cli.js` before it asks anything about Deno, and asks
/// about Deno only if it has found `cli.js`.
pub proof fn law_deno_is_searched_last(build: BuildInfoView, os: Os, world: World)
    ensures
        driver::driver_questions(Progress::Pending(DriverSearchView::start(build, os)), world)
            == cli::cli_questions(Progress::Pending(CliSearchView::start(build)), world) + (
        match cli::cli_result(Progress::Pending(CliSearchView::start(build)), world) {
            Some(_) => deno::deno_questions(Progress::Pending(DenoSearchView::start(os)), world),
            None => seq![],
        }),
{
    lemma_driver_questions_of_cli(CliSearchView::start(build), os, world);
}

/// What the sources other than npm offer from `lookup` on.
spec fn candidates_before_npm_from(lookup: CliLookup, build: BuildInfoView, world: World) -> Seq<
    LocationView,
>
    decreases lookup.questions(),
{
    match lookup {
        CliLookup::NpmGlobal | CliLookup::NpmLocal => seq![],
        _ => lookup.candidates(build, world.answer(lookup.spec_question()))
            + candidates_before_npm_from(lookup.spec_next()->Some_0, build, world),
    }
}

/// What a search has still to go through without asking npm again.
spec fn candidates_before_npm_left(search: CliSearchView, world: World) -> Seq<LocationView> {
    match search.stage {
        CliStageView::Lookup(lookup) => candidates_before_npm_from(lookup, search.build, world),
        CliStageView::Probing(probe, Some(then)) => probe.candidates()
            + candidates_before_npm_from(then, search.build, world),
        CliStageView::Probing(probe, None) => probe.candidates(),
    }
}

/// Whether a question is one to npm.
pub open spec fn asks_npm(question: QuestionView) -> bool {
    question matches QuestionView::Output(command) && command.program == "npm"@
}

proof fn lemma_npm_is_the_last_resort_from(search: CliSearchView, world: World)
    requires
        probe::first_existing(candidates_before_npm_left(search, world), world.existing) is Some,
    ensures
        forall|i: int|
            0 <= i < cli::cli_questions(Progress::Pending(search), world).len() ==> !asks_npm(
                #[trigger] cli::cli_questions(Progress::Pending(search), world)[i],
            ),
    decreases cli::cli_questions_left(Progress::Pending(search)),
{
    let answer = world.answer(search.question());
    let next = search.resume(answer);
    match search.stage {
        CliStageView::Lookup(lookup) => {
            let here = lookup.candidates(search.build, answer);
            assert(lookup != CliLookup::NpmGlobal && lookup != CliLookup::NpmLocal);
            let then = lookup.spec_next()->Some_0;
            let tail = candidates_before_npm_from(then, search.build, world);
            assert(candidates_before_npm_left(search, world) == here + tail);
            if here.len() > 0 {
                assert(seq![here.first()] + here.drop_first() =~= here);
            } else {
                assert(here + tail =~= tail);
            }
            assert(next matches Progress::Pending(later) && candidates_before_npm_left(later, world)
                == here + tail);
        },
        CliStageView::Probing(probe, then) => {
            let tail = match then {
                Some(lookup) => candidates_before_npm_from(lookup, search.build, world),
                None => seq![],
            };
            let all = probe.candidates() + tail;
            assert(candidates_before_npm_left(search, world) =~= all);
            assert(all.drop_first() =~= probe.rest + tail);
            if !world.existing.contains(probe.candidate) {
                assert(probe::first_existing(probe.rest + tail, world.existing) is Some);
                if probe.rest.len() > 0 {
                    assert(seq![probe.rest.first()] + probe.rest.drop_first() =~= probe.rest);
                    assert(probe.rest + Seq::<LocationView>::empty() =~= probe.rest);
                } else {
                    assert(probe.rest + tail =~= tail);
                }
                assert(next matches Progress::Pending(later) && candidates_before_npm_left(
                    later,
                    world,
                ) == probe.rest + tail);
            }
        },
    }
    let rest = cli::cli_questions(next, world);
    if let Progress::Pending(later) = next {
        lemma_npm_is_the_last_resort_from(later, world);
    }
    let questions = cli::cli_questions(Progress::Pending(search), world);
    assert(questions == seq![search.question()] + rest);
    assert forall|i: int| 0 <= i < questions.len() implies !asks_npm(#[trigger] questions[i]) by {
        if i > 0 {
            assert(questions[i] == rest[i - 1]);
        }
    }
}

/// npm is the last resort: where the bundled driver, the user's cache or one of the two
/// environment variables offers a `cli.js` that exists, npm is never run.
pub proof fn law_npm_is_the_last_resort(build: BuildInfoView, world: World)
    requires
        probe::first_existing(
            cli::bundled_candidates(build) + cli::user_cache_candidates(
                world.cache_directory,
                build,
            ) + cli::driver_path_candidates(world.variable("PLAYWRIGHT_DRIVER_PATH"@))
                + cli::cli_js_candidates(world.variable("PLAYWRIGHT_CLI_JS"@)),
            world.existing,
        ) is Some,
    ensures
        forall|i: int|
            0 <= i < cli::cli_questions(
                Progress::Pending(CliSearchView::start(build)),
                world,
            ).len() ==> !asks_npm(
                #[trigger] cli::cli_questions(
                    Progress::Pending(CliSearchView::start(build)),
                    world,
                )[i],
            ),
{
    let search = CliSearchView::start(build);
    let bundled = cli::bundled_candidates(build);
    let cache = cli::user_cache_candidates(world.cache_directory, build);
    let driver_path = cli::driver_path_candidates(world.variable("PLAYWRIGHT_DRIVER_PATH"@));
    let cli_js = cli::cli_js_candidates(world.variable("PLAYWRIGHT_CLI_JS"@));
    let none = candidates_before_npm_from(CliLookup::NpmGlobal, build, world);
    assert(candidates_before_npm_from(CliLookup::CliJsVariable, build, world) == cli_js + none);
    assert(candidates_before_npm_from(CliLookup::DriverPathVariable, build, world) == driver_path
        + (cli_js + none));
    let looked_up = candidates_before_npm_from(CliLookup::UserCache, build, world);
    assert(looked_up == cache + (driver_path + (cli_js + none)));
    assert(candidates_before_npm_left(search, world) == bundled + looked_up) by {
        if bundled.len() > 0 {
            assert(seq![bundled.first()] + bundled.drop_first() =~= bundled);
        } else {
            assert(bundled + looked_up =~= looked_up);
        }
    }
    assert(cli_js + none =~= cli_js);
    assert(cache + (driver_path + cli_js) =~= cache + driver_path + cli_js);
    assert(bundled + (cache + driver_path + cli_js) =~= bundled + cache + driver_path + cli_js);
    lemma_npm_is_the_last_resort_from(search, world);
}

proof fn lemma_confirmed(
    search: DriverSearchView,
    answers: Seq<AnswerView>,
    deno_exe: LocationView,
    cli_js: LocationView,
)
    requires
        driver::driver_follow(Progress::Pending(search), answers) == Progress::<
            DriverSearchView,
            Result<(LocationView, LocationView), ErrorView>,
        >::Settled(Ok((deno_exe, cli_js))),
    ensures
        driver::driver_confirms(Progress::Pending(search), answers, deno_exe),
        match search {
            DriverSearchView::Cli(_, _) => driver::driver_confirms(
                Progress::Pending(search),
                answers,
                cli_js,
            ),
            DriverSearchView::Deno(found, _) => found == cli_js,
        },
    decreases answers.len(),
{
    reveal_with_fuel(driver::driver_follow, 2);
    assert(answers.len() > 0);
    if let Progress::Pending(later) = search.resume(answers.first()) {
        lemma_confirmed(later, answers.drop_first(), deno_exe, cli_js);
    }
}

/// What is found was seen to exist, on a machine that may change while the search goes on: of both
/// locations the search has asked whether they exist, and was told that they do.
pub proof fn law_found_was_confirmed(
    build: BuildInfoView,
    os: Os,
    answers: Seq<AnswerView>,
    deno_exe: LocationView,
    cli_js: LocationView,
)
    requires
        driver::driver_follow(
            Progress::Pending(DriverSearchView::start(build, os)),
            answers,
        ) == Progress::<
            DriverSearchView,
            Result<(LocationView, LocationView), ErrorView>,
        >::Settled(Ok((deno_exe, cli_js))),
    ensures
        driver::driver_confirms(
            Progress::Pending(DriverSearchView::start(build, os)),
            answers,
            deno_exe,
        ),
        driver::driver_confirms(
            Progress::Pending(DriverSearchView::start(build, os)),
            answers,
            cli_js,
        ),
{
    lemma_confirmed(DriverSearchView::start(build, os), answers, deno_exe, cli_js);
}

// ---------------------------------------------------------------------------------------------
// Installations
// ---------------------------------------------------------------------------------------------

proof fn lemma_installation_from(
    search: DriverSearchView,
    browsers: Option<Seq<Seq<char>>>,
    with_deps: bool,
    world: World,
    installer: spec_fn(InstallCommandView) -> InstallerOutcomeView,
)
    ensures
        install::install_result(
            Progress::Pending(InstallationView::Locating(search, browsers, with_deps)),
            world,
            installer,
        ) == install::install_outcome(
            browsers,
            with_deps,
            driver::driver_result(Progress::Pending(search), world),
            installer,
        ),
    decreases driver::driver_questions_left(Progress::Pending(search)),
{
    reveal_with_fuel(install::install_result, 3);
    reveal_with_fuel(driver::driver_result, 2);
    let answer = world.answer(search.question());
    if let Progress::Pending(later) = search.resume(answer) {
        lemma_installation_from(later, browsers, with_deps, world, installer);
    }
}

/// An installation reports what the search for the driver reports where that fails; otherwise it
/// does nothing more for an empty selection, and reports on the installer for any other.
pub proof fn law_installation(
    browsers: Option<Seq<Seq<char>>>,
    with_deps_forced: bool,
    build: BuildInfoView,
    os: Os,
    world: World,
    installer: spec_fn(InstallCommandView) -> InstallerOutcomeView,
)
    ensures
        install::install_result(
            Progress::Pending(InstallationView::start(browsers, with_deps_forced, build, os)),
            world,
            installer,
        ) == install::install_outcome(
            browsers,
            with_deps_forced || os == Os::Linux,
            driver::driver_outcome(build, os, world),
            installer,
        ),
{
    lemma_installation_from(
        DriverSearchView::start(build, os),
        browsers,
        with_deps_forced || os == Os::Linux,
        world,
        installer,
    );
    law_driver_search_order(build, os, world);
}

/// An installation of an empty selection never comes to run the installer.
pub proof fn law_empty_selection_installs_nothing(
    search: DriverSearchView,
    with_deps: bool,
    reply: InstallReplyView,
)
    ensures
        match InstallationView::Locating(search, Some(seq![]), with_deps).resume(reply) {
            Progress::Pending(installation) => installation matches InstallationView::Locating(
                _,
                browsers,
                _,
            ) && browsers == Some(Seq::<Seq<char>>::empty()),
            Progress::Settled(_) => true,
        },
{
}

/// Forcing the dependencies changes nothing on Linux, where they are installed anyway. Where they
/// are not installed anyway, it adds `--with-deps` behind the arguments and changes nothing else.
pub proof fn law_with_deps(
    browsers: Option<Seq<Seq<char>>>,
    build: BuildInfoView,
    deno_exe: LocationView,
    cli_js: LocationView,
    names: Seq<Seq<char>>,
)
    ensures
        InstallationView::start(browsers, true, build, Os::Linux) == InstallationView::start(
            browsers,
            false,
            build,
            Os::Linux,
        ),
        install::install_command(deno_exe, cli_js, names, true) == (InstallCommandView {
            program: deno_exe,
            args: install::install_command(deno_exe, cli_js, names, false).args.push(
                ArgumentView::Text("--with-deps"@),
            ),
        }),
{
    let plain = install::install_command(deno_exe, cli_js, names, false);
    let forced = install::install_command(deno_exe, cli_js, names, true);
    assert(forced.args =~= plain.args.push(ArgumentView::Text("--with-deps"@)));
}

/// Every invocation of the installer has Deno run `cli.js` with the arguments of every such
/// invocation in front of it: `run --allow-all --unstable-detect-cjs --no-config --no-lock`.
pub proof fn law_installer_runs_cli_js(
    deno_exe: LocationView,
    cli_js: LocationView,
    names: Seq<Seq<char>>,
    with_deps: bool,
)
    ensures
        ({
            let command = install::install_command(deno_exe, cli_js, names, with_deps);
            &&& command.program == deno_exe
            &&& command.args.len() >= 7
            &&& command.args[0] == ArgumentView::Text("run"@)
            &&& command.args[1] == ArgumentView::Text("--allow-all"@)
            &&& command.args[2] == ArgumentView::Text("--unstable-detect-cjs"@)
            &&& command.args[3] == ArgumentView::Text("--no-config"@)
            &&& command.args[4] == ArgumentView::Text("--no-lock"@)
            &&& command.args[5] == ArgumentView::Path(cli_js)
            &&& command.args[6] == ArgumentView::Text("install"@)
            &&& forall|i: int|
                0 <= i < names.len() ==> #[trigger] command.args[7 + i] == ArgumentView::Text(
                    names[i],
                )
        }),
{
}

// ---------------------------------------------------------------------------------------------
// Text
// ---------------------------------------------------------------------------------------------

/// Trimmed text neither starts nor ends with white space.
pub proof fn law_trimmed_has_no_outer_white_space(text: Seq<char>)
    ensures
        text::trimmed(text).len() > 0 ==> {
            &&& !text::is_white_space(text::trimmed(text).first())
            &&& !text::is_white_space(text::trimmed(text).last())
        },
{
    let start = text::trimmed_start(text);
    lemma_trimmed_start(text);
    lemma_trimmed_end(start);
}

proof fn lemma_trimmed_start(text: Seq<char>)
    ensures
        text::trimmed_start(text).len() > 0 ==> !text::is_white_space(
            text::trimmed_start(text).first(),
        ),
    decreases text.len(),
{
    if text.len() > 0 && text::is_white_space(text.first()) {
        lemma_trimmed_start(text.drop_first());
    }
}

proof fn lemma_trimmed_end(text: Seq<char>)
    ensures
        text::trimmed_end(text).len() > 0 ==> {
            &&& !text::is_white_space(text::trimmed_end(text).last())
            &&& text::trimmed_end(text).first() == text.first()
        },
    decreases text.len(),
{
    if text.len() > 0 && text::is_white_space(text.last()) {
        lemma_trimmed_end(text.drop_last());
    }
}

/// A line of output gives back the text in front of its line ending: white space behind a text
/// does not count.
pub proof fn law_line_ending_is_trimmed(text: Seq<char>)
    ensures
        text::trimmed(text.push('\n')) == text::trimmed(text),
        text::trimmed(text.push('\r').push('\n')) == text::trimmed(text),
{
    lemma_trimmed_push(text.push('\r'), '\n');
    lemma_trimmed_push(text, '\r');
    lemma_trimmed_push(text, '\n');
}

proof fn lemma_trimmed_push(text: Seq<char>, c: char)
    requires
        text::is_white_space(c),
    ensures
        text::trimmed(text.push(c)) == text::trimmed(text),
    decreases text.len(),
{
    let longer = text.push(c);
    if text.len() == 0 {
        assert(longer.drop_first() =~= text);
    } else if text::is_white_space(text.first()) {
        assert(longer.drop_first() =~= text.drop_first().push(c));
        lemma_trimmed_push(text.drop_first(), c);
    } else {
        assert(longer.drop_last() =~= text);
    }
}

} // verus!
