//! What a run does to its surroundings: a model of the write root and of the
//! files written, and what holds of every run of the writer in that model.

use vstd::prelude::*;
use crate::writer::{action_of, first_phase, next_phase, phase_fits, ActionView, Outcome, Phase};
use crate::config::JobView;
use crate::blueprint::NodeView;
use crate::yank::{yank_of, ExtractionPlan, PlanView, WriteView};

verus! {

/// The surroundings of a run, as far as the run changes them.
pub struct Effects {
    /// Whether the write root is redirected to the run's directory.
    pub root_held: bool,
    /// The writes that succeeded, in the order in which they were made.
    pub written: Seq<WriteView>,
}

/// The surroundings before a run.
pub open spec fn untouched() -> Effects {
    Effects { root_held: false, written: Seq::empty() }
}

/// The surroundings after `action` was tried: entering the root redirects
/// it, leaving restores it, a write adds a file; a failed action changes
/// nothing.
pub open spec fn effects_after(e: Effects, action: ActionView, ok: bool) -> Effects {
    if !ok {
        e
    } else {
        match action {
            ActionView::Enter(_) => Effects { root_held: true, written: e.written },
            ActionView::Write(w) => Effects { root_held: e.root_held, written: e.written.push(w) },
            ActionView::Leave => Effects { root_held: false, written: e.written },
            ActionView::Stop(_) => e,
        }
    }
}

/// The phase and the surroundings of a run of `plan` whose actions so far
/// had the results `results`, in order.
pub open spec fn run(plan: PlanView, results: Seq<bool>) -> (Phase, Effects)
    decreases results.len(),
{
    if results.len() == 0 {
        (first_phase(plan), untouched())
    } else {
        let (phase, effects) = run(plan, results.drop_last());
        (
            next_phase(plan, phase, results.last()),
            effects_after(effects, action_of(plan, phase), results.last()),
        )
    }
}

/// The number of writes that have succeeded when a run is in `phase`.
pub open spec fn writes_made(phase: Phase) -> int {
    match phase {
        Phase::Entering => 0,
        Phase::Writing(i) => i as int,
        Phase::Leaving(Outcome::Written(n)) => n as int,
        Phase::Leaving(Outcome::WriteFailed(i)) => i as int,
        Phase::Leaving(_) => 0,
        Phase::Done(Outcome::Written(n)) => n as int,
        Phase::Done(Outcome::WriteFailed(i)) => i as int,
        Phase::Done(_) => 0,
    }
}

/// Whether the writes of a plan can be counted by the machine.
pub open spec fn countable(plan: PlanView) -> bool {
    plan.writes.len() <= usize::MAX
}

/// The writes of a plan that a program holds can always be counted.
pub proof fn held_plans_are_countable(plan: ExtractionPlan)
    ensures
        countable(plan@),
{
    assert(plan.writes.len() == plan.writes@.len());
}

/// How phase and surroundings of a run belong together.
spec fn in_step(plan: PlanView, phase: Phase, e: Effects) -> bool {
    &&& phase_fits(plan, phase)
    &&& match phase {
        Phase::Entering => !e.root_held,
        Phase::Writing(_) => e.root_held == plan.root.is_some(),
        Phase::Leaving(_) => e.root_held,
        Phase::Done(Outcome::RestoreFailed) => true,
        Phase::Done(_) => !e.root_held,
    }
    &&& match phase {
        Phase::Done(Outcome::RestoreFailed) => exists|n: int|
            0 <= n <= plan.writes.len() && e.written == #[trigger] plan.writes.take(n),
        _ => e.written == plan.writes.take(writes_made(phase)),
    }
}

proof fn step_stays_in_step(plan: PlanView, phase: Phase, e: Effects, ok: bool)
    requires
        countable(plan),
        in_step(plan, phase, e),
    ensures
        in_step(plan, next_phase(plan, phase, ok), effects_after(e, action_of(plan, phase), ok)),
        steps_left(plan, phase) > 0 ==> steps_left(plan, next_phase(plan, phase, ok))
            < steps_left(plan, phase),
{
    match phase {
        Phase::Entering => {},
        Phase::Writing(i) => {
            assert(plan.writes.take(i as int).push(plan.writes[i as int]) =~= plan.writes.take(
                i as int + 1,
            ));
        },
        Phase::Leaving(_) => {},
        Phase::Done(_) => {},
    }
}

proof fn run_stays_in_step(plan: PlanView, results: Seq<bool>)
    requires
        countable(plan),
    ensures
        in_step(plan, run(plan, results).0, run(plan, results).1),
        steps_left(plan, run(plan, results).0) == 0 || steps_left(plan, run(plan, results).0)
            + results.len() <= plan.writes.len() + 2,
    decreases results.len(),
{
    if results.len() == 0 {
        assert(plan.writes.take(0) =~= Seq::<WriteView>::empty());
    } else {
        let (phase, e) = run(plan, results.drop_last());
        run_stays_in_step(plan, results.drop_last());
        step_stays_in_step(plan, phase, e, results.last());
    }
}

/// Every phase of a run is one that can occur in a run of its plan.
pub proof fn run_fits_plan(plan: PlanView, results: Seq<bool>)
    requires
        countable(plan),
    ensures
        phase_fits(plan, run(plan, results).0),
{
    run_stays_in_step(plan, results);
}

/// The write root makes a round trip: whatever succeeded and whatever
/// failed, a run that has ended has left the write root as it found it,
/// unless restoring it is what failed.
pub proof fn write_root_is_restored(plan: PlanView, results: Seq<bool>)
    requires
        countable(plan),
    ensures
        run(plan, results).0 matches Phase::Done(o) ==> o == Outcome::RestoreFailed || !run(
            plan,
            results,
        ).1.root_held,
{
    run_stays_in_step(plan, results);
}

/// The write root is redirected only while files are written or the root
/// waits to be restored, and only in a run whose plan has a root.
pub proof fn write_root_is_held_only_while_writing(plan: PlanView, results: Seq<bool>)
    requires
        countable(plan),
    ensures
        run(plan, results).1.root_held ==> plan.root is Some && !(run(plan, results).0
            is Entering),
{
    run_stays_in_step(plan, results);
}

/// The writes made are always a front part of the plan's writes, in the
/// plan's order: all of them in a run that ended well, those before the
/// failed one in a run that a failed write ended, none where the plan was
/// empty or the root could not be entered.
pub proof fn writes_follow_the_plan(plan: PlanView, results: Seq<bool>)
    requires
        countable(plan),
    ensures
        exists|n: int|
            0 <= n <= plan.writes.len() && run(plan, results).1.written
                == #[trigger] plan.writes.take(n),
        run(plan, results).0 matches Phase::Done(Outcome::Written(n)) ==> run(
            plan,
            results,
        ).1.written == plan.writes,
        run(plan, results).0 matches Phase::Done(Outcome::WriteFailed(i)) ==> run(
            plan,
            results,
        ).1.written == plan.writes.take(i as int),
        run(plan, results).0 matches Phase::Done(o) && (o == Outcome::NoArtifacts || o
            == Outcome::RootFailed) ==> run(plan, results).1.written == Seq::<WriteView>::empty(),
{
    run_stays_in_step(plan, results);
    let (phase, e) = run(plan, results);
    if phase != Phase::Done(Outcome::RestoreFailed) {
    }
}

/// The most actions that a run in `phase` can still wait for.
pub open spec fn steps_left(plan: PlanView, phase: Phase) -> int {
    match phase {
        Phase::Entering => plan.writes.len() as int + 2,
        Phase::Writing(i) => plan.writes.len() as int - i as int + 1,
        Phase::Leaving(_) => 1,
        Phase::Done(_) => 0,
    }
}

/// Every run ends: once the caller has reported on two more actions than
/// the plan has writes, nothing is left to do.
pub proof fn run_ends(plan: PlanView, results: Seq<bool>)
    requires
        countable(plan),
        results.len() >= plan.writes.len() + 2,
    ensures
        run(plan, results).0 is Done,
{
    run_stays_in_step(plan, results);
}

/// A run in which nothing fails: it enters the root where the plan has one,
/// makes every write, restores the root and ends well.
pub proof fn unfailing_run_writes_everything(plan: PlanView, results: Seq<bool>)
    requires
        countable(plan),
        plan.writes.len() > 0,
        results.len() >= plan.writes.len() + 2,
        forall|i: int| 0 <= i < results.len() ==> results[i],
    ensures
        run(plan, results).0 == Phase::Done(Outcome::Written(plan.writes.len() as usize)),
        run(plan, results).1 == (Effects { root_held: false, written: plan.writes }),
{
    run_ends(plan, results);
    unfailing_run_never_fails(plan, results);
    write_root_is_restored(plan, results);
    writes_follow_the_plan(plan, results);
    run_fits_plan(plan, results);
}

proof fn unfailing_run_never_fails(plan: PlanView, results: Seq<bool>)
    requires
        plan.writes.len() > 0,
        forall|i: int| 0 <= i < results.len() ==> results[i],
    ensures
        match run(plan, results).0 {
            Phase::Leaving(o) => o is Written,
            Phase::Done(o) => o is Written,
            _ => true,
        },
    decreases results.len(),
{
    if results.len() > 0 {
        unfailing_run_never_fails(plan, results.drop_last());
    }
}

/// The files below the write root after the writes `written` were made in
/// order on the files `before`, as a map from path to content. A write to a
/// path that holds a file replaces the file: the later write wins.
pub open spec fn files_after(written: Seq<WriteView>, before: Map<Seq<char>, Seq<char>>) -> Map<
    Seq<char>,
    Seq<char>,
>
    decreases written.len(),
{
    if written.len() == 0 {
        before
    } else {
        files_after(written.drop_last(), before).insert(
            written.last().path,
            written.last().content,
        )
    }
}

/// The writes decide alone what is at the paths they name: what was there
/// before shows only at other paths.
pub proof fn writes_cover_what_was_there(written: Seq<WriteView>, before: Map<Seq<char>, Seq<char>>)
    ensures
        files_after(written, before) == before.union_prefer_right(
            files_after(written, Map::empty()),
        ),
    decreases written.len(),
{
    if written.len() == 0 {
    } else {
        writes_cover_what_was_there(written.drop_last(), before);
    }
}

/// Idempotence: making the same writes again on what they left gives the
/// same files, byte for byte.
pub proof fn writing_again_changes_nothing(written: Seq<WriteView>, before: Map<Seq<char>, Seq<char>>)
    ensures
        files_after(written, files_after(written, before)) == files_after(written, before),
{
    let once = files_after(written, before);
    writes_cover_what_was_there(written, before);
    writes_cover_what_was_there(written, once);
}

/// Extracting again changes nothing: where a job has a plan, the files left
/// by one run of it are the files left by a second run on top of the first.
/// The plan is a function of the job and the tree alone, so an unchanged
/// source is written out byte for byte as before.
pub proof fn extracting_again_changes_nothing(
    job: JobView,
    stem: Option<Seq<char>>,
    roots: Seq<NodeView>,
    before: Map<Seq<char>, Seq<char>>,
)
    requires
        yank_of(job, stem, roots) is Ok,
    ensures
        ({
            let writes = yank_of(job, stem, roots)->Ok_0.writes;
            files_after(writes, files_after(writes, before)) == files_after(writes, before)
        }),
{
    writing_again_changes_nothing(yank_of(job, stem, roots)->Ok_0.writes, before);
}

/// Last write wins: after the writes, a path holds the content of the last
/// write that names it.
pub proof fn last_write_wins(written: Seq<WriteView>, before: Map<Seq<char>, Seq<char>>, i: int)
    requires
        0 <= i < written.len(),
        forall|j: int| i < j < written.len() ==> written[j].path != written[i].path,
    ensures
        files_after(written, before).contains_key(written[i].path),
        files_after(written, before)[written[i].path] == written[i].content,
    decreases written.len(),
{
    if i < written.len() - 1 {
        last_write_wins(written.drop_last(), before, i);
    }
}

/// A path that no write names holds after the writes what it held before.
pub proof fn unnamed_paths_are_kept(
    written: Seq<WriteView>,
    before: Map<Seq<char>, Seq<char>>,
    path: Seq<char>,
)
    requires
        forall|i: int| 0 <= i < written.len() ==> written[i].path != path,
    ensures
        files_after(written, before).contains_key(path) <==> before.contains_key(path),
        before.contains_key(path) ==> files_after(written, before)[path] == before[path],
    decreases written.len(),
{
    if written.len() > 0 {
        unnamed_paths_are_kept(written.drop_last(), before, path);
    }
}

} // verus!
