//! The startup runner: it sets the journal mode, reads the schema version
//! that the store holds, and applies every later script in ascending order,
//! stopping at the first failure.
//!
//! The runner decides; the caller acts. The caller asks for the next action,
//! performs it against the store, and records what came back.

use vstd::prelude::*;
use crate::domain::errors::DriverFailure;
use crate::migration::set::{ascending, MigrationScript, MigrationSet};

verus! {

/// The journal mode that startup asks of the store.
pub const JOURNAL_MODE: &'static str = "wal";

/// Where a run stands.
#[derive(Clone, Copy, Debug, PartialEq, Eq, Structural)]
pub enum Stage {
    SettingJournalMode,
    ReadingVersion,
    Applying,
    Finished,
    Failed,
}

/// The step of a run that the store is asked to perform.
#[derive(Clone, Copy, Debug, PartialEq, Eq, Structural)]
pub enum SetupStep {
    JournalMode,
    ReadVersion,
    Apply { version: u32 },
}

/// The step that failed, and what the driver said.
#[derive(Debug)]
pub struct SetupFailure {
    pub step: SetupStep,
    pub source: DriverFailure,
}

/// What the caller is to do next.
#[derive(Clone, Copy, Debug, PartialEq, Eq, Structural)]
pub enum MigrationAction {
    /// Set the store's journal mode to `JOURNAL_MODE`.
    SetJournalMode,
    /// Read the persisted schema version, creating the tracking table if the
    /// store has none.
    ReadVersion,
    /// Run the pending script inside a transaction and advance the persisted
    /// version to its version.
    Apply,
    /// Nothing is left to do: the schema is current.
    Finish,
    /// A step failed: startup must not go on.
    Abort,
}

/// What the store answered.
#[derive(Debug)]
pub enum MigrationEvent {
    JournalModeSet,
    /// The persisted version; `None` where no script was ever applied.
    VersionRead(Option<u32>),
    /// The pending script ran and the persisted version advanced.
    Applied,
    /// The step that was asked for failed.
    Failed(DriverFailure),
}

/// The scripts that a store at `version` still lacks, in ascending order.
pub open spec fn pending(scripts: Seq<MigrationScript>, version: u32) -> Seq<MigrationScript> {
    scripts.filter(|script: MigrationScript| script.version > version)
}

/// The versions of the scripts, in their order.
pub open spec fn versions(scripts: Seq<MigrationScript>) -> Seq<u32> {
    scripts.map_values(|script: MigrationScript| script.version)
}

/// The version that a store at `version` holds once every pending script
/// has been applied.
pub open spec fn target_version(scripts: Seq<MigrationScript>, version: u32) -> u32 {
    if pending(scripts, version).len() == 0 {
        version
    } else {
        pending(scripts, version).last().version
    }
}

/// The state of a run.
#[verifier::ext_equal]
pub struct RunnerView {
    /// The migration set, in ascending order.
    pub scripts: Seq<MigrationScript>,
    pub stage: Stage,
    /// The version the store held when it was read; 0 before that.
    pub base: u32,
    /// The version the store holds now, as far as the run knows.
    pub version: u32,
    /// The scripts still to apply.
    pub remaining: Seq<MigrationScript>,
    /// The versions applied by this run, in the order applied.
    pub applied: Seq<u32>,
    pub failure: Option<SetupFailure>,
}

impl RunnerView {
    /// A run that has done nothing yet.
    pub open spec fn initial(scripts: Seq<MigrationScript>) -> RunnerView {
        RunnerView {
            scripts,
            stage: Stage::SettingJournalMode,
            base: 0,
            version: 0,
            remaining: scripts,
            applied: Seq::empty(),
            failure: None,
        }
    }

    /// What holds of a run once the version has been read: the remaining
    /// scripts are those later than the current version, and the applied
    /// ones followed by the remaining ones are those later than the base.
    pub open spec fn on_track(self) -> bool {
        &&& self.remaining == pending(self.scripts, self.version)
        &&& versions(pending(self.scripts, self.base)) == self.applied + versions(self.remaining)
        &&& self.version == if self.applied.len() == 0 {
            self.base
        } else {
            self.applied.last()
        }
        &&& self.base <= self.version
    }

    pub open spec fn wf(self) -> bool {
        &&& ascending(self.scripts)
        &&& match self.stage {
            Stage::SettingJournalMode | Stage::ReadingVersion => {
                &&& self.base == 0
                &&& self.version == 0
                &&& self.remaining == self.scripts
                &&& self.applied.len() == 0
                &&& self.failure is None
            },
            Stage::Applying => self.remaining.len() > 0 && self.on_track() && self.failure is None,
            Stage::Finished => self.remaining.len() == 0 && self.on_track() && self.failure is None,
            Stage::Failed => self.failure is Some,
        }
    }

    /// The action that the run waits for.
    pub open spec fn action(self) -> MigrationAction {
        match self.stage {
            Stage::SettingJournalMode => MigrationAction::SetJournalMode,
            Stage::ReadingVersion => MigrationAction::ReadVersion,
            Stage::Applying => MigrationAction::Apply,
            Stage::Finished => MigrationAction::Finish,
            Stage::Failed => MigrationAction::Abort,
        }
    }

    /// The step that a failure reported now would be blamed on.
    pub open spec fn step_in_progress(self) -> SetupStep {
        match self.stage {
            Stage::SettingJournalMode => SetupStep::JournalMode,
            Stage::ReadingVersion => SetupStep::ReadVersion,
            _ => SetupStep::Apply { version: self.remaining[0].version },
        }
    }

    /// Whether `event` answers the action that the run waits for.
    pub open spec fn answers(self, event: MigrationEvent) -> bool {
        match (self.stage, event) {
            (Stage::SettingJournalMode, MigrationEvent::JournalModeSet) => true,
            (Stage::ReadingVersion, MigrationEvent::VersionRead(_)) => true,
            (Stage::Applying, MigrationEvent::Applied) => true,
            (Stage::SettingJournalMode, MigrationEvent::Failed(_)) => true,
            (Stage::ReadingVersion, MigrationEvent::Failed(_)) => true,
            (Stage::Applying, MigrationEvent::Failed(_)) => true,
            _ => false,
        }
    }

    /// The run after `event`. An event that answers nothing changes nothing.
    pub open spec fn step(self, event: MigrationEvent) -> RunnerView {
        if !self.answers(event) {
            self
        } else {
            match event {
                MigrationEvent::JournalModeSet => RunnerView {
                    stage: Stage::ReadingVersion,
                    ..self
                },
                MigrationEvent::VersionRead(found) => {
                    let base = match found {
                        Some(version) => version,
                        None => 0,
                    };
                    let remaining = pending(self.scripts, base);
                    RunnerView {
                        stage: if remaining.len() == 0 {
                            Stage::Finished
                        } else {
                            Stage::Applying
                        },
                        base,
                        version: base,
                        remaining,
                        ..self
                    }
                },
                MigrationEvent::Applied => RunnerView {
                    stage: if self.remaining.len() == 1 {
                        Stage::Finished
                    } else {
                        Stage::Applying
                    },
                    version: self.remaining[0].version,
                    remaining: self.remaining.skip(1),
                    applied: self.applied.push(self.remaining[0].version),
                    ..self
                },
                MigrationEvent::Failed(source) => RunnerView {
                    stage: Stage::Failed,
                    failure: Some(SetupFailure { step: self.step_in_progress(), source }),
                    ..self
                },
            }
        }
    }
}

/// `split` parts the scripts at `version`: those before it are no later
/// than `version`, those from it on are later.
pub open spec fn splits_at(scripts: Seq<MigrationScript>, version: u32, split: int) -> bool {
    &&& 0 <= split <= scripts.len()
    &&& forall|i: int| 0 <= i < split ==> (#[trigger] scripts[i]).version <= version
    &&& forall|i: int| split <= i < scripts.len() ==> (#[trigger] scripts[i]).version > version
}

/// Where the scripts part at `version`, the pending ones are those from the
/// parting on.
pub proof fn lemma_pending_is_suffix(scripts: Seq<MigrationScript>, version: u32, split: int)
    requires
        splits_at(scripts, version, split),
    ensures
        pending(scripts, version) == scripts.skip(split),
    decreases scripts.len(),
{
    reveal(Seq::filter);
    let later = |script: MigrationScript| script.version > version;
    if scripts.len() == 0 {
        assert(scripts.skip(split) =~= scripts);
    } else {
        let front = scripts.drop_last();
        let front_split = if split == scripts.len() {
            split - 1
        } else {
            split
        };
        assert forall|i: int| 0 <= i < front_split implies (#[trigger] front[i]).version
            <= version by {
            assert(front[i] == scripts[i]);
        }
        assert forall|i: int| front_split <= i < front.len() implies (#[trigger] front[i]).version
            > version by {
            assert(front[i] == scripts[i]);
        }
        lemma_pending_is_suffix(front, version, front_split);
        if split == scripts.len() {
            assert(!later(scripts.last()));
            assert(front.skip(front_split) =~= scripts.skip(split));
        } else {
            assert(later(scripts.last()));
            assert(front.skip(split).push(scripts.last()) =~= scripts.skip(split));
        }
    }
}

/// In an ascending set, the scripts part just behind any script at that
/// script's version.
pub proof fn lemma_ascending_splits(scripts: Seq<MigrationScript>, index: int)
    requires
        ascending(scripts),
        0 <= index < scripts.len(),
    ensures
        splits_at(scripts, scripts[index].version, index + 1),
{
}

/// A run of the startup sequence over one migration set.
#[derive(Debug)]
pub struct MigrationRunner {
    scripts: Vec<MigrationScript>,
    stage: Stage,
    base: u32,
    version: u32,
    /// Index of the first script that was pending when the version was read.
    first: usize,
    /// Index of the script to apply next.
    next: usize,
    applied: Vec<u32>,
    failure: Option<SetupFailure>,
}

impl View for MigrationRunner {
    type V = RunnerView;

    closed spec fn view(&self) -> RunnerView {
        RunnerView {
            scripts: self.scripts@,
            stage: self.stage,
            base: self.base,
            version: self.version,
            remaining: self.scripts@.skip(self.next as int),
            applied: self.applied@,
            failure: self.failure,
        }
    }
}

impl MigrationRunner {
    spec fn in_step(self) -> bool {
        &&& splits_at(self.scripts@, self.base, self.first as int)
        &&& splits_at(self.scripts@, self.version, self.next as int)
        &&& self.applied@ == versions(self.scripts@.subrange(self.first as int, self.next as int))
        &&& self.version == if self.next == self.first {
            self.base
        } else {
            self.scripts@[self.next - 1].version
        }
        &&& self.base <= self.version
    }

    #[verifier::type_invariant]
    spec fn inv(self) -> bool {
        &&& ascending(self.scripts@)
        &&& self.first <= self.next <= self.scripts.len()
        &&& match self.stage {
            Stage::SettingJournalMode | Stage::ReadingVersion => {
                &&& self.base == 0
                &&& self.version == 0
                &&& self.first == 0
                &&& self.next == 0
                &&& self.applied@.len() == 0
                &&& self.failure is None
            },
            Stage::Applying => self.next < self.scripts.len() && self.in_step()
                && self.failure is None,
            Stage::Finished => self.next == self.scripts.len() && self.in_step()
                && self.failure is None,
            Stage::Failed => self.failure is Some,
        }
    }

    proof fn lemma_view_wf(self)
        requires
            self.inv(),
        ensures
            self@.wf(),
    {
        let scripts = self.scripts@;
        let first = self.first as int;
        let next = self.next as int;
        match self.stage {
            Stage::SettingJournalMode | Stage::ReadingVersion => {
                assert(scripts.skip(0) =~= scripts);
            },
            Stage::Applying | Stage::Finished => {
                lemma_pending_is_suffix(scripts, self.version, next);
                lemma_pending_is_suffix(scripts, self.base, first);
                assert(versions(scripts.skip(first)) =~= versions(scripts.subrange(first, next))
                    + versions(scripts.skip(next)));
            },
            Stage::Failed => {},
        }
    }

    /// Starts a run over `set`.
    pub fn new(set: MigrationSet) -> (r: Self)
        ensures
            r@ == RunnerView::initial(set@),
            r@.wf(),
    {
        let scripts = set.into_scripts();
        let r = Self {
            scripts,
            stage: Stage::SettingJournalMode,
            base: 0,
            version: 0,
            first: 0,
            next: 0,
            applied: Vec::new(),
            failure: None,
        };
        proof {
            assert(r.scripts@.skip(0) =~= r.scripts@);
            r.lemma_view_wf();
        }
        r
    }

    pub fn stage(&self) -> (r: Stage)
        ensures
            r == self@.stage,
            self@.wf(),
    {
        proof {
            use_type_invariant(self);
            self.lemma_view_wf();
        }
        self.stage
    }

    /// The action that the run waits for.
    pub fn next_action(&self) -> (r: MigrationAction)
        ensures
            r == self@.action(),
            self@.wf(),
    {
        proof {
            use_type_invariant(self);
            self.lemma_view_wf();
        }
        match self.stage {
            Stage::SettingJournalMode => MigrationAction::SetJournalMode,
            Stage::ReadingVersion => MigrationAction::ReadVersion,
            Stage::Applying => MigrationAction::Apply,
            Stage::Finished => MigrationAction::Finish,
            Stage::Failed => MigrationAction::Abort,
        }
    }

    /// The script to apply, while the run waits for one to be applied.
    pub fn pending_script(&self) -> (r: Option<&MigrationScript>)
        ensures
            self@.wf(),
            self@.stage == Stage::Applying ==> r == Some(&self@.remaining[0]),
            self@.stage != Stage::Applying ==> r is None,
    {
        proof {
            use_type_invariant(self);
            self.lemma_view_wf();
        }
        match self.stage {
            Stage::Applying => Some(&self.scripts[self.next]),
            _ => None,
        }
    }

    /// The schema version that the store holds, as far as the run knows.
    pub fn version(&self) -> (r: u32)
        ensures
            r == self@.version,
            self@.wf(),
    {
        proof {
            use_type_invariant(self);
            self.lemma_view_wf();
        }
        self.version
    }

    /// The versions that this run applied, in the order applied.
    pub fn applied(&self) -> (r: &Vec<u32>)
        ensures
            r@ == self@.applied,
            self@.wf(),
    {
        proof {
            use_type_invariant(self);
            self.lemma_view_wf();
        }
        &self.applied
    }

    /// Whether the schema is current.
    pub fn is_finished(&self) -> (r: bool)
        ensures
            r == (self@.stage == Stage::Finished),
            self@.wf(),
    {
        proof {
            use_type_invariant(self);
            self.lemma_view_wf();
        }
        match self.stage {
            Stage::Finished => true,
            _ => false,
        }
    }

    /// Ends the run and hands out the failure, if it failed.
    pub fn into_failure(self) -> (r: Option<SetupFailure>)
        ensures
            r == self@.failure,
            self@.wf(),
            r is Some <==> self@.stage == Stage::Failed,
    {
        proof {
            use_type_invariant(&self);
            self.lemma_view_wf();
        }
        self.failure
    }

    fn fail(self, source: DriverFailure) -> (r: Self)
        requires
            self@.answers(MigrationEvent::Failed(source)),
        ensures
            r@ == self@.step(MigrationEvent::Failed(source)),
            r@.wf(),
    {
        proof {
            use_type_invariant(&self);
        }
        let step = match self.stage {
            Stage::SettingJournalMode => SetupStep::JournalMode,
            Stage::ReadingVersion => SetupStep::ReadVersion,
            _ => SetupStep::Apply { version: self.scripts[self.next].version },
        };
        let r = Self {
            scripts: self.scripts,
            stage: Stage::Failed,
            base: self.base,
            version: self.version,
            first: self.first,
            next: self.next,
            applied: self.applied,
            failure: Some(SetupFailure { step, source }),
        };
        proof {
            r.lemma_view_wf();
            assert(r@ =~= self@.step(MigrationEvent::Failed(source)));
        }
        r
    }

    /// Records what the store answered to the pending action. An event that
    /// does not answer it is ignored.
    pub fn record(self, event: MigrationEvent) -> (r: Self)
        ensures
            r@ == self@.step(event),
            self@.wf(),
            r@.wf(),
    {
        proof {
            use_type_invariant(&self);
            self.lemma_view_wf();
        }
        match event {
            MigrationEvent::JournalModeSet => match self.stage {
                Stage::SettingJournalMode => {
                    let r = Self {
                        scripts: self.scripts,
                        stage: Stage::ReadingVersion,
                        base: self.base,
                        version: self.version,
                        first: self.first,
                        next: self.next,
                        applied: self.applied,
                        failure: self.failure,
                    };
                    proof {
                        r.lemma_view_wf();
                        assert(r@ =~= self@.step(event));
                    }
                    r
                },
                _ => self,
            },
            MigrationEvent::VersionRead(found) => match self.stage {
                Stage::ReadingVersion => {
                    let base = match found {
                        Some(version) => version,
                        None => 0,
                    };
                    let mut first: usize = 0;
                    while first < self.scripts.len() && self.scripts[first].version <= base
                        invariant
                            first <= self.scripts.len(),
                            forall|i: int|
                                0 <= i < first ==> (#[trigger] self.scripts@[i]).version <= base,
                        decreases self.scripts.len() - first,
                    {
                        first += 1;
                    }
                    let stage = if first == self.scripts.len() {
                        Stage::Finished
                    } else {
                        Stage::Applying
                    };
                    proof {
                        let scripts = self.scripts@;
                        assert forall|i: int| first <= i < scripts.len() implies (
                        #[trigger] scripts[i]).version > base by {
                            if i > first {
                                assert(scripts[first as int].version < scripts[i].version);
                            }
                        }
                        assert(splits_at(scripts, base, first as int));
                        assert(versions(scripts.subrange(first as int, first as int))
                            =~= self.applied@);
                    }
                    let r = Self {
                        scripts: self.scripts,
                        stage,
                        base,
                        version: base,
                        first,
                        next: first,
                        applied: self.applied,
                        failure: self.failure,
                    };
                    proof {
                        r.lemma_view_wf();
                        lemma_pending_is_suffix(r.scripts@, base, first as int);
                        assert(r@ =~= self@.step(event));
                    }
                    r
                },
                _ => self,
            },
            MigrationEvent::Applied => match self.stage {
                Stage::Applying => {
                    let version = self.scripts[self.next].version;
                    let next = self.next + 1;
                    let stage = if next == self.scripts.len() {
                        Stage::Finished
                    } else {
                        Stage::Applying
                    };
                    let mut applied = self.applied;
                    applied.push(version);
                    proof {
                        let scripts = self.scripts@;
                        lemma_ascending_splits(scripts, self.next as int);
                        assert(versions(scripts.subrange(self.first as int, next as int))
                            =~= versions(
                            scripts.subrange(self.first as int, self.next as int),
                        ).push(version));
                        assert(scripts[self.next as int].version > self.version);
                    }
                    let r = Self {
                        scripts: self.scripts,
                        stage,
                        base: self.base,
                        version,
                        first: self.first,
                        next,
                        applied,
                        failure: self.failure,
                    };
                    proof {
                        let scripts = r.scripts@;
                        r.lemma_view_wf();
                        assert(scripts.skip(self.next as int).skip(1) =~= scripts.skip(
                            next as int,
                        ));
                        assert(r@ =~= self@.step(event));
                    }
                    r
                },
                _ => self,
            },
            MigrationEvent::Failed(source) => match self.stage {
                Stage::SettingJournalMode | Stage::ReadingVersion | Stage::Applying => self.fail(
                    source,
                ),
                _ => self,
            },
        }
    }
}

} // verus!
