//! What holds of the jobs of a batch: every changed path is run on exactly
//! once, however many notifications name it.

use vstd::prelude::*;
use crate::config::WatchState;
use crate::watch::{
    changed_paths, distinct, event_paths, job_for, jobs_of, triggering_paths, watch_step,
    EventView, WatchActionView, WatchEventView,
};

verus! {

/// A list without its repetitions holds the paths of the list, and no other.
pub proof fn distinct_keeps_every_path(paths: Seq<Seq<char>>)
    ensures
        forall|p: Seq<char>| distinct(paths).contains(p) <==> paths.contains(p),
    decreases paths.len(),
{
    if paths.len() > 0 {
        let front = paths.drop_last();
        let d = distinct(front);
        distinct_keeps_every_path(front);
        assert forall|p: Seq<char>| distinct(paths).contains(p) <==> paths.contains(p) by {
            if paths.contains(p) {
                let i = choose|i: int| 0 <= i < paths.len() && paths[i] == p;
                if i < front.len() {
                    assert(front[i] == p);
                    assert(front.contains(p));
                    if !d.contains(paths.last()) {
                        let k = choose|k: int| 0 <= k < d.len() && d[k] == p;
                        assert(d.push(paths.last())[k] == p);
                    }
                } else if !d.contains(p) {
                    assert(d.push(p)[d.len() as int] == p);
                }
            }
            if distinct(paths).contains(p) {
                let k = choose|k: int| 0 <= k < distinct(paths).len() && distinct(paths)[k] == p;
                if k < d.len() {
                    assert(front.contains(p));
                }
            }
        }
    }
}

/// A list without its repetitions names no path twice.
pub proof fn distinct_names_no_path_twice(paths: Seq<Seq<char>>)
    ensures
        distinct(paths).no_duplicates(),
    decreases paths.len(),
{
    if paths.len() > 0 {
        distinct_names_no_path_twice(paths.drop_last());
    }
}

/// Removing repetitions never adds a path: the result is no longer than the
/// list, and is empty only where the list is.
pub proof fn distinct_is_no_longer(paths: Seq<Seq<char>>)
    ensures
        distinct(paths).len() <= paths.len(),
        paths.len() > 0 ==> distinct(paths).len() > 0,
    decreases paths.len(),
{
    if paths.len() > 0 {
        distinct_is_no_longer(paths.drop_last());
    }
}

/// Every changed path gets exactly one run: a path that a creation or
/// modification of the batch names is the source of one job of the batch,
/// and of no second one.
pub proof fn each_changed_path_runs_once(batch: Seq<EventView>, path: Seq<char>)
    requires
        triggering_paths(batch).contains(path),
    ensures
        exists|i: int|
            0 <= i < jobs_of(batch).len() && #[trigger] jobs_of(batch)[i] == job_for(path)
                && forall|j: int|
                0 <= j < jobs_of(batch).len() && j != i ==> #[trigger] jobs_of(batch)[j]
                    != job_for(path),
{
    let changed = changed_paths(batch);
    distinct_keeps_every_path(triggering_paths(batch));
    distinct_names_no_path_twice(triggering_paths(batch));
    let i = choose|i: int| 0 <= i < changed.len() && changed[i] == path;
    assert(jobs_of(batch)[i] == job_for(path));
}

/// No run without a change: a job of the batch runs on a path that a
/// creation or modification of the batch names.
pub proof fn each_run_has_a_changed_path(batch: Seq<EventView>, i: int)
    requires
        0 <= i < jobs_of(batch).len(),
    ensures
        jobs_of(batch)[i] == job_for(changed_paths(batch)[i]),
        triggering_paths(batch).contains(changed_paths(batch)[i]),
{
    distinct_keeps_every_path(triggering_paths(batch));
}

/// A batch whose notifications call for runs on one path only calls for one
/// run, on that path.
pub proof fn one_path_gives_one_run(batch: Seq<EventView>, path: Seq<char>)
    requires
        triggering_paths(batch).len() > 0,
        forall|i: int| 0 <= i < triggering_paths(batch).len() ==> triggering_paths(batch)[i] == path,
    ensures
        jobs_of(batch) == seq![job_for(path)],
{
    let all = triggering_paths(batch);
    let changed = changed_paths(batch);
    distinct_keeps_every_path(all);
    distinct_names_no_path_twice(all);
    distinct_is_no_longer(all);
    assert forall|k: int| 0 <= k < changed.len() implies changed[k] == path by {
        assert(all.contains(changed[k]));
    }
    if changed.len() > 1 {
        assert(changed[0] == changed[1]);
    }
}

/// Debounce coalescing: a batch of any number of creations and
/// modifications of one and the same path calls for exactly one run.
pub proof fn repeated_changes_coalesce(batch: Seq<EventView>, path: Seq<char>)
    requires
        batch.len() >= 1,
        forall|i: int|
            0 <= i < batch.len() ==> (#[trigger] batch[i]).kind.triggers() && batch[i].paths
                == seq![path],
    ensures
        jobs_of(batch) == seq![job_for(path)],
{
    repeated_changes_name_one_path(batch, path);
    one_path_gives_one_run(batch, path);
}

proof fn repeated_changes_name_one_path(batch: Seq<EventView>, path: Seq<char>)
    requires
        forall|i: int|
            0 <= i < batch.len() ==> (#[trigger] batch[i]).kind.triggers() && batch[i].paths
                == seq![path],
    ensures
        triggering_paths(batch).len() == batch.len(),
        forall|i: int| 0 <= i < triggering_paths(batch).len() ==> triggering_paths(batch)[i] == path,
    decreases batch.len(),
{
    if batch.len() > 0 {
        let front = batch.drop_last();
        repeated_changes_name_one_path(front, path);
    }
}

/// Notifications of other kinds call for nothing: a batch without a
/// creation or modification gives no job.
pub proof fn other_kinds_run_nothing(batch: Seq<EventView>)
    requires
        forall|i: int| 0 <= i < batch.len() ==> !(#[trigger] batch[i]).kind.triggers(),
    ensures
        jobs_of(batch).len() == 0,
{
    quiet_batch_names_no_path(batch);
}

proof fn quiet_batch_names_no_path(batch: Seq<EventView>)
    requires
        forall|i: int| 0 <= i < batch.len() ==> !(#[trigger] batch[i]).kind.triggers(),
    ensures
        triggering_paths(batch).len() == 0,
    decreases batch.len(),
{
    if batch.len() > 0 {
        let front = batch.drop_last();
        quiet_batch_names_no_path(front);
    }
}

/// A running watch keeps running: whatever it is told, it neither stops nor
/// fails, and only a batch of changes makes it run anything.
pub proof fn running_watch_keeps_running(event: WatchEventView)
    ensures
        watch_step(WatchState::Watching, event).0 == WatchState::Watching,
        !(watch_step(WatchState::Watching, event).1 is Fail),
        watch_step(WatchState::Watching, event).1 is Run <==> event is Changes,
{
}

/// Nothing runs outside a running watch, and a watch begins in one way
/// only: by a subscription that succeeded, asked for and not yet begun.
pub proof fn watch_begins_by_subscription(state: WatchState, event: WatchEventView)
    ensures
        state != WatchState::Watching ==> !(watch_step(state, event).1 is Run),
        state != WatchState::Watching && watch_step(state, event).0 == WatchState::Watching
            <==> state == WatchState::Requested && event == WatchEventView::Subscribed(true),
        watch_step(state, event).1 is Fail <==> state == WatchState::Requested && event
            == WatchEventView::Subscribed(false),
{
}

} // verus!
