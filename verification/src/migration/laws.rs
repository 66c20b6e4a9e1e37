//! What holds of every run of the migration runner.

use vstd::prelude::*;
use crate::migration::runner::{
    lemma_ascending_splits, lemma_pending_is_suffix, pending, splits_at, target_version, versions,
    MigrationAction, MigrationEvent, RunnerView, Stage,
};
use crate::migration::set::{ascending, MigrationScript};

verus! {

/// How many scripts of an ascending set are no later than `version`.
pub open spec fn split_point(scripts: Seq<MigrationScript>, version: u32) -> int
    decreases scripts.len(),
{
    if scripts.len() == 0 {
        0
    } else if scripts.last().version <= version {
        scripts.len() as int
    } else {
        split_point(scripts.drop_last(), version)
    }
}

/// An ascending set parts at every version, at its split point.
pub proof fn lemma_split_point(scripts: Seq<MigrationScript>, version: u32)
    requires
        ascending(scripts),
    ensures
        splits_at(scripts, version, split_point(scripts, version)),
        pending(scripts, version) == scripts.skip(split_point(scripts, version)),
    decreases scripts.len(),
{
    if scripts.len() > 0 && scripts.last().version > version {
        let front = scripts.drop_last();
        assert forall|i: int, j: int| 0 <= i < j < front.len() implies front[i].version
            < front[j].version by {
            assert(front[i] == scripts[i] && front[j] == scripts[j]);
        }
        lemma_split_point(front, version);
        let split = split_point(front, version);
        assert forall|i: int| 0 <= i < split implies (#[trigger] scripts[i]).version
            <= version by {
            assert(front[i] == scripts[i]);
        }
        assert forall|i: int| split <= i < scripts.len() implies (#[trigger] scripts[i]).version
            > version by {
            if i < front.len() {
                assert(front[i] == scripts[i]);
            }
        }
    } else if scripts.len() > 0 {
        assert forall|i: int| 0 <= i < scripts.len() implies (#[trigger] scripts[i]).version
            <= version by {
            if i < scripts.len() - 1 {
                assert(scripts[i].version < scripts[scripts.len() - 1].version);
            }
        }
    }
    lemma_pending_is_suffix(scripts, version, split_point(scripts, version));
}

/// Every step of a run leaves it well formed.
pub proof fn lemma_step_keeps_wf(state: RunnerView, event: MigrationEvent)
    requires
        state.wf(),
    ensures
        state.step(event).wf(),
{
    let after = state.step(event);
    if state.answers(event) {
        match event {
            MigrationEvent::JournalModeSet => {},
            MigrationEvent::VersionRead(_) => {
                assert(versions(pending(state.scripts, after.base)) =~= after.applied + versions(
                    after.remaining,
                ));
            },
            MigrationEvent::Applied => {
                let scripts = state.scripts;
                lemma_split_point(scripts, state.version);
                let split = split_point(scripts, state.version);
                assert(state.remaining[0] == scripts[split]);
                lemma_ascending_splits(scripts, split);
                lemma_pending_is_suffix(scripts, after.version, split + 1);
                assert(scripts.skip(split).skip(1) =~= scripts.skip(split + 1));
                assert(state.applied + versions(state.remaining) =~= after.applied + versions(
                    after.remaining,
                ));
            },
            MigrationEvent::Failed(_) => {},
        }
    }
}

/// The schema version never goes down: whatever the store answers, the
/// version after a step is at least the version before it.
pub proof fn lemma_version_never_decreases(state: RunnerView, event: MigrationEvent)
    requires
        state.wf(),
    ensures
        state.step(event).version >= state.version,
{
    if state.answers(event) && event is Applied {
        let scripts = state.scripts;
        lemma_split_point(scripts, state.version);
        assert(state.remaining[0] == scripts[split_point(scripts, state.version)]);
    }
}

/// A run that failed or finished stays as it is: no event moves it, so no
/// script runs after the first failure, and none runs twice.
pub proof fn lemma_end_is_final(state: RunnerView, event: MigrationEvent)
    requires
        state.stage == Stage::Failed || state.stage == Stage::Finished,
    ensures
        state.step(event) == state,
        state.action() == MigrationAction::Abort || state.action() == MigrationAction::Finish,
{
}

/// A failure stops the run where it stands: the version and the scripts
/// applied so far are kept, and the run asks for nothing more.
pub proof fn lemma_failure_stops_the_run(state: RunnerView, event: MigrationEvent)
    requires
        state.wf(),
        state.answers(event),
        event is Failed,
    ensures
        state.step(event).stage == Stage::Failed,
        state.step(event).action() == MigrationAction::Abort,
        state.step(event).version == state.version,
        state.step(event).applied == state.applied,
{
}

/// A finished run applied every script later than the version it found,
/// each once and in ascending order, and left the store at the latest of
/// them.
pub proof fn lemma_finished_run_is_complete(state: RunnerView)
    requires
        state.wf(),
        state.stage == Stage::Finished,
    ensures
        state.applied == versions(pending(state.scripts, state.base)),
        state.version == target_version(state.scripts, state.base),
        pending(state.scripts, state.version).len() == 0,
{
    assert(versions(state.remaining) =~= Seq::<u32>::empty());
    assert(state.applied + versions(state.remaining) =~= state.applied);
}

/// Nothing is pending at the version that a complete run reaches.
pub proof fn lemma_nothing_pending_at_target(scripts: Seq<MigrationScript>, version: u32)
    requires
        ascending(scripts),
    ensures
        pending(scripts, target_version(scripts, version)).len() == 0,
        target_version(scripts, target_version(scripts, version)) == target_version(
            scripts,
            version,
        ),
        target_version(scripts, version) >= version,
{
    lemma_split_point(scripts, version);
    if pending(scripts, version).len() > 0 {
        let last = scripts.len() - 1;
        assert(pending(scripts, version).last() == scripts[last]);
        lemma_ascending_splits(scripts, last);
        lemma_pending_is_suffix(scripts, scripts[last].version, scripts.len() as int);
    }
}

/// Restart is idempotent: a run over the same set against a store that an
/// earlier run finished on applies no script and leaves the version as it
/// was.
pub proof fn lemma_restart_applies_nothing(done: RunnerView, found: Option<u32>)
    requires
        done.wf(),
        done.stage == Stage::Finished,
        found == Some(done.version) || (found is None && done.version == 0),
    ensures
        ({
            let again = RunnerView::initial(done.scripts).step(MigrationEvent::JournalModeSet).step(
                MigrationEvent::VersionRead(found),
            );
            &&& again.wf()
            &&& again.stage == Stage::Finished
            &&& again.version == done.version
            &&& again.applied.len() == 0
        }),
{
    let fresh = RunnerView::initial(done.scripts);
    lemma_step_keeps_wf(fresh, MigrationEvent::JournalModeSet);
    lemma_step_keeps_wf(
        fresh.step(MigrationEvent::JournalModeSet),
        MigrationEvent::VersionRead(found),
    );
}

} // verus!
