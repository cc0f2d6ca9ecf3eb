//! What holds of every run: the report of a run follows the stages in their
//! order, fail-fast cuts it after the first failure, and resolving names gives
//! one answer.

use vstd::prelude::*;
use crate::config::{CheckConfig, CheckConfigView};
use crate::engine::duration::Duration;
use crate::engine::error::EXIT_TIMEOUT;
use crate::engine::executor::CommandOutputView;
use crate::engine::detector::Mode;
use crate::engine::runner::{
    any_failed, checks_for_mode, checks_view, results_match, singletons, spec_fail_fast,
    spec_resolve, spec_stages, CheckResultView, Schedule,
};
use crate::search::{first_where, lemma_first_where};

verus! {

/// The report of a run whose stage `i`, if it runs, comes to
/// `stage_results[i]`, from stage `from` on and with `so_far` already
/// reported: stages run in their order until none is left or, with fail-fast,
/// until some result so far has failed.
pub open spec fn spec_report(
    stage_results: Seq<Seq<CheckResultView>>,
    fail_fast: bool,
    from: int,
    so_far: Seq<CheckResultView>,
) -> Seq<CheckResultView>
    decreases stage_results.len() - from,
{
    if from < 0 || from >= stage_results.len() || (fail_fast && any_failed(so_far)) {
        so_far
    } else {
        spec_report(stage_results, fail_fast, from + 1, so_far + stage_results[from])
    }
}

/// How many stages run, under the same reading as [`spec_report`].
pub open spec fn stages_run(
    stage_results: Seq<Seq<CheckResultView>>,
    fail_fast: bool,
    from: int,
    so_far: Seq<CheckResultView>,
) -> int
    decreases stage_results.len() - from,
{
    if from < 0 || from >= stage_results.len() || (fail_fast && any_failed(so_far)) {
        from
    } else {
        stages_run(stage_results, fail_fast, from + 1, so_far + stage_results[from])
    }
}

/// The results of the first `count` stages, stage after stage.
pub open spec fn flat(stage_results: Seq<Seq<CheckResultView>>, count: int) -> Seq<CheckResultView>
    decreases count,
{
    if count <= 0 {
        Seq::empty()
    } else {
        flat(stage_results, count - 1) + stage_results[count - 1]
    }
}

/// The results that failed.
pub open spec fn failing() -> spec_fn(CheckResultView) -> bool {
    |result: CheckResultView| !result.passed
}

/// The report of checks that run one by one and come to `outcomes`: all of
/// them, or with fail-fast those up to and including the first that failed.
pub open spec fn sequential_report(outcomes: Seq<CheckResultView>, fail_fast: bool) -> Seq<
    CheckResultView,
> {
    let failed_at = first_where(outcomes, failing(), 0);
    if fail_fast && failed_at < outcomes.len() {
        outcomes.take(failed_at + 1)
    } else {
        outcomes
    }
}

/// The results of checks that run one by one, each as a stage of its own.
pub open spec fn one_by_one(outcomes: Seq<CheckResultView>) -> Seq<Seq<CheckResultView>> {
    Seq::new(outcomes.len(), |i: int| seq![outcomes[i]])
}

/// One step of a run is one step of its report: where a stage is due and its
/// results are handed in, the report from there on is the report from the next
/// stage on; where none is due, the report is what has been handed in.
pub proof fn lemma_schedule_follows_report(
    schedule: Schedule,
    next: Schedule,
    stage_results: Seq<Seq<CheckResultView>>,
)
    requires
        stage_results.len() == schedule.stages().len(),
        schedule.due() is Some ==> next.fail_fast() == schedule.fail_fast() && next.position()
            == schedule.position() + 1 && next.results() == schedule.results()
            + stage_results[schedule.position() as int],
    ensures
        schedule.due() is Some ==> spec_report(
            stage_results,
            schedule.fail_fast(),
            schedule.position() as int,
            schedule.results(),
        ) == spec_report(
            stage_results,
            next.fail_fast(),
            next.position() as int,
            next.results(),
        ),
        schedule.due() is None ==> spec_report(
            stage_results,
            schedule.fail_fast(),
            schedule.position() as int,
            schedule.results(),
        ) == schedule.results(),
{
}

/// A report holds the results of the stages that ran, stage after stage in the
/// order of the stages, and of no other stage. So every result of a stage
/// stands before every result of a later stage.
pub proof fn lemma_report_stage_by_stage(
    stage_results: Seq<Seq<CheckResultView>>,
    fail_fast: bool,
    from: int,
)
    requires
        0 <= from <= stage_results.len(),
    ensures
        from <= stages_run(stage_results, fail_fast, from, flat(stage_results, from))
            <= stage_results.len(),
        spec_report(stage_results, fail_fast, from, flat(stage_results, from)) == flat(
            stage_results,
            stages_run(stage_results, fail_fast, from, flat(stage_results, from)),
        ),
        !fail_fast ==> stages_run(stage_results, fail_fast, from, flat(stage_results, from))
            == stage_results.len(),
    decreases stage_results.len() - from,
{
    let so_far = flat(stage_results, from);
    if from < stage_results.len() && !(fail_fast && any_failed(so_far)) {
        assert(flat(stage_results, from + 1) == so_far + stage_results[from]);
        lemma_report_stage_by_stage(stage_results, fail_fast, from + 1);
    }
}

/// With fail-fast, a stage runs only while no result before it has failed;
/// and the run goes on to the end unless a result has failed.
pub proof fn lemma_fail_fast_stops_after_failure(
    stage_results: Seq<Seq<CheckResultView>>,
    from: int,
)
    requires
        0 <= from <= stage_results.len(),
        from > 0 ==> !any_failed(flat(stage_results, from - 1)),
    ensures
        ({
            let ran = stages_run(stage_results, true, from, flat(stage_results, from));
            &&& ran > 0 ==> !any_failed(flat(stage_results, ran - 1))
            &&& ran < stage_results.len() ==> any_failed(flat(stage_results, ran))
        }),
    decreases stage_results.len() - from,
{
    let so_far = flat(stage_results, from);
    if from < stage_results.len() && !any_failed(so_far) {
        assert(flat(stage_results, from + 1) == so_far + stage_results[from]);
        lemma_fail_fast_stops_after_failure(stage_results, from + 1);
    }
}

/// Checks that run one by one are reported in the order in which they are
/// declared: the report is the outcomes of the first so many checks, each in
/// its place. Without fail-fast, or where nothing fails, that is all of them;
/// with fail-fast it ends with the first check that failed, and no later
/// check appears in it.
pub proof fn lemma_sequential_order(outcomes: Seq<CheckResultView>, fail_fast: bool)
    ensures
        spec_report(one_by_one(outcomes), fail_fast, 0, Seq::empty()) == sequential_report(
            outcomes,
            fail_fast,
        ),
        sequential_report(outcomes, fail_fast).len() <= outcomes.len(),
        forall|i: int|
            0 <= i < sequential_report(outcomes, fail_fast).len() ==> (#[trigger] sequential_report(
                outcomes,
                fail_fast,
            )[i]) == outcomes[i],
        !fail_fast || !any_failed(outcomes) ==> sequential_report(outcomes, fail_fast)
            == outcomes,
        fail_fast && any_failed(outcomes) ==> sequential_report(outcomes, fail_fast).len()
            == first_where(outcomes, failing(), 0) + 1 && !sequential_report(
            outcomes,
            fail_fast,
        ).last().passed,
{
    lemma_first_where(outcomes, failing(), 0);
    assert(outcomes.take(0) =~= Seq::<CheckResultView>::empty());
    lemma_sequential_from(outcomes, fail_fast, 0);
    let failed_at = first_where(outcomes, failing(), 0);
    if any_failed(outcomes) {
        let k = choose|k: int| 0 <= k < outcomes.len() && !(#[trigger] outcomes[k]).passed;
        assert(failing()(outcomes[k]));
        assert(failed_at < outcomes.len());
        assert(failing()(outcomes[failed_at]));
    } else if failed_at < outcomes.len() {
        assert(failing()(outcomes[failed_at]));
        assert(!outcomes[failed_at].passed);
    }
}

/// The induction behind [`lemma_sequential_order`].
proof fn lemma_sequential_from(outcomes: Seq<CheckResultView>, fail_fast: bool, from: int)
    requires
        0 <= from <= outcomes.len(),
        fail_fast ==> forall|i: int| 0 <= i < from - 1 ==> (#[trigger] outcomes[i]).passed,
    ensures
        spec_report(one_by_one(outcomes), fail_fast, from, outcomes.take(from))
            == sequential_report(outcomes, fail_fast),
    decreases outcomes.len() - from,
{
    let stages = one_by_one(outcomes);
    let so_far = outcomes.take(from);
    let failed_at = first_where(outcomes, failing(), 0);
    lemma_first_where(outcomes, failing(), 0);
    if failed_at < outcomes.len() {
        assert(failing()(outcomes[failed_at]));
    }
    if from >= outcomes.len() {
        assert(so_far =~= outcomes);
        if fail_fast && failed_at < outcomes.len() {
            assert(failed_at == outcomes.len() - 1);
            assert(outcomes.take(failed_at + 1) =~= outcomes);
        }
    } else if fail_fast && any_failed(so_far) {
        let k = choose|k: int| 0 <= k < so_far.len() && !(#[trigger] so_far[k]).passed;
        assert(so_far[k] == outcomes[k]);
        assert(k == from - 1);
        assert(failing()(outcomes[k]));
        assert(failed_at == from - 1) by {
            if failed_at < k {
                assert(outcomes[failed_at].passed);
            }
        }
    } else {
        assert(so_far + stages[from] =~= outcomes.take(from + 1));
        if fail_fast {
            assert forall|i: int| 0 <= i < from implies (#[trigger] outcomes[i]).passed by {
                assert(so_far[i] == outcomes[i]);
            }
        }
        lemma_sequential_from(outcomes, fail_fast, from + 1);
    }
}

/// A mode that is not thorough runs the checks it names one by one, in the
/// order in which it names them, and stops at a failure exactly when the human
/// mode is configured to.
pub proof fn lemma_sequential_stages_follow_declaration(
    config: crate::config::ConfigView,
    mode: Mode,
)
    requires
        !mode.spec_is_thorough(),
    ensures
        spec_stages(config, mode).len() == checks_for_mode(config, mode).len(),
        forall|i: int|
            0 <= i < checks_for_mode(config, mode).len() ==> (#[trigger] spec_stages(
                config,
                mode,
            )[i]).len() == 1 && spec_stages(config, mode)[i][0].0 == checks_for_mode(
                config,
                mode,
            )[i],
        spec_fail_fast(config, mode) == config.human.fail_fast,
{
}

/// A run in which every check passed or was skipped succeeds: a skipped check
/// never makes a run fail.
pub proof fn lemma_skips_never_fail(results: Seq<CheckResultView>)
    requires
        forall|i: int|
            0 <= i < results.len() ==> (#[trigger] results[i]).wf() && (results[i].skipped
                || results[i].output.success()),
    ensures
        !any_failed(results),
{
}

/// Resolving the same names against the same definitions gives the same
/// checks, however often it is done.
pub proof fn lemma_resolve_is_repeatable(
    names: Seq<Seq<char>>,
    table: Seq<(Seq<char>, CheckConfigView)>,
    first: Seq<(String, CheckConfig)>,
    second: Seq<(String, CheckConfig)>,
)
    requires
        checks_view(first) == spec_resolve(names, table),
        checks_view(second) == spec_resolve(names, table),
    ensures
        checks_view(first) == checks_view(second),
        first.len() == names.len(),
        forall|i: int| 0 <= i < names.len() ==> (#[trigger] checks_view(first)[i]).0 == names[i],
{
    assert(checks_view(first).len() == first.len());
}

/// Every name resolves to a check that can be run: a name that nothing
/// defines is its own command, runs unconditionally and sets no variable.
pub proof fn lemma_unknown_name_is_its_own_command(
    names: Seq<Seq<char>>,
    table: Seq<(Seq<char>, CheckConfigView)>,
    i: int,
)
    requires
        0 <= i < names.len(),
        !crate::namemap::has_name(table, names[i]),
    ensures
        spec_resolve(names, table)[i] == (names[i], CheckConfigView::from_command(names[i])),
        spec_resolve(names, table)[i].1.run == names[i],
        spec_resolve(names, table)[i].1.enabled_if is None,
{
}

/// A command that exits with 0 passes; one that exits with another code fails
/// with that code; neither counts as timed out. One that is killed for running
/// over its budget fails with code 124 and counts as timed out.
pub proof fn lemma_outcome_verdicts(
    name: Seq<char>,
    code: i32,
    stdout: Seq<char>,
    stderr: Seq<char>,
    elapsed: Duration,
)
    ensures
        ({
            let ended = CheckResultView::ran(
                name,
                CommandOutputView::exited(Some(code), stdout, stderr, elapsed),
            );
            &&& ended.passed == (code == 0)
            &&& ended.output.exit_code == code
            &&& !ended.output.timed_out
            &&& !ended.skipped
        }),
        ({
            let killed = CheckResultView::ran(name, CommandOutputView::killed(elapsed));
            &&& !killed.passed
            &&& killed.output.exit_code == EXIT_TIMEOUT
            &&& killed.output.timed_out
        }),
        ({
            let skipped = CheckResultView::skipped(name, stdout);
            &&& skipped.passed
            &&& skipped.skipped
            &&& skipped.wf()
        }),
{
}

/// Results that match the checks of stages that run one by one carry the
/// names of those checks, in the order in which the checks are declared.
pub proof fn lemma_sequential_names(
    checks: Seq<(Seq<char>, CheckConfigView)>,
    outcomes: Seq<CheckResultView>,
    fail_fast: bool,
)
    requires
        outcomes.len() == checks.len(),
        forall|i: int|
            0 <= i < checks.len() ==> results_match(
                #[trigger] singletons(checks)[i],
                one_by_one(outcomes)[i],
            ),
    ensures
        forall|i: int|
            0 <= i < sequential_report(outcomes, fail_fast).len() ==> (#[trigger] sequential_report(
                outcomes,
                fail_fast,
            )[i]).name == checks[i].0,
{
    lemma_sequential_order(outcomes, fail_fast);
    assert forall|i: int| 0 <= i < sequential_report(outcomes, fail_fast).len() implies (
    #[trigger] sequential_report(outcomes, fail_fast)[i]).name == checks[i].0 by {
        assert(results_match(singletons(checks)[i], one_by_one(outcomes)[i]));
        assert(one_by_one(outcomes)[i][0] == outcomes[i]);
        assert(singletons(checks)[i][0] == checks[i]);
    }
}

} // verus!
