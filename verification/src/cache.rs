//! The published snapshot and the decision when to rebuild it.
//!
//! A [`Core`] owns the current configuration and the current rendering of the
//! graph, each behind a version counter. It is made once, read by many and
//! written by whoever drives the update cycle: [`Core::check_for_graph_update`]
//! decides whether a rebuild starts, the caller builds off to the side, and
//! [`Core::upgrade_graph`] publishes what was built or records that nothing was.
//! Time is a count of milliseconds that the caller reads from its clock.

use crate::config::SiostamConfig;
use crate::error::CustomError;
use crate::subsystem_mapping::representation::GraphRepresentation;
use vstd::prelude::*;
use vstd::std_specs::cmp::PartialEqSpec;

verus! {

/// What an [`Updatable`] holds.
pub struct UpdatableModel<T> {
    pub version: usize,
    pub last_check: u64,
    pub storage: T,
    pub has_been_acknowledged: bool,
}

/// A value with the metadata needed to tell when it changed.
pub struct Updatable<T> {
    version: usize,
    last_check: u64,
    storage: T,
    has_been_acknowledged: bool,
}

impl<T> View for Updatable<T> {
    type V = UpdatableModel<T>;

    closed spec fn view(&self) -> UpdatableModel<T> {
        UpdatableModel {
            version: self.version,
            last_check: self.last_check,
            storage: self.storage,
            has_been_acknowledged: self.has_been_acknowledged,
        }
    }
}

/// `before` after a check at `now` that found the same value again: only the
/// time of the last check moves.
pub open spec fn checked<T>(before: UpdatableModel<T>, now: u64) -> UpdatableModel<T> {
    UpdatableModel { last_check: now, ..before }
}

/// `before` after a check at `now` that found the different value
/// `new_version`: the value is replaced, the version advances by one, and the
/// change awaits acknowledgement.
pub open spec fn replaced<T>(before: UpdatableModel<T>, new_version: T, now: u64) -> UpdatableModel<
    T,
> {
    UpdatableModel {
        version: (before.version + 1) as usize,
        last_check: now,
        storage: new_version,
        has_been_acknowledged: false,
    }
}

/// `before` after `new_version` was put in at `now`.
pub open spec fn updated<T: PartialEq>(before: UpdatableModel<T>, new_version: T, now: u64) -> UpdatableModel<
    T,
> {
    if new_version.eq_spec(&before.storage) {
        checked(before, now)
    } else {
        replaced(before, new_version, now)
    }
}

/// `before` with its change acknowledged.
pub open spec fn acknowledged<T>(before: UpdatableModel<T>) -> UpdatableModel<T> {
    UpdatableModel { has_been_acknowledged: true, ..before }
}

/// The container after the values of `steps` were put in, one after the
/// other, each at its time.
pub open spec fn updated_all<T: PartialEq>(before: UpdatableModel<T>, steps: Seq<(T, u64)>) -> UpdatableModel<
    T,
>
    decreases steps.len(),
{
    if steps.len() == 0 {
        before
    } else {
        updated(updated_all(before, steps.drop_last()), steps.last().0, steps.last().1)
    }
}

/// A rebuild that gives the stored value again is no new version: version,
/// value and acknowledgement stay, and only the time of the last check moves.
pub proof fn lemma_same_content_keeps_version<T: PartialEq>(
    before: UpdatableModel<T>,
    same: T,
    now: u64,
)
    requires
        same.eq_spec(&before.storage),
    ensures
        updated(before, same, now).version == before.version,
        updated(before, same, now).storage == before.storage,
        updated(before, same, now).has_been_acknowledged == before.has_been_acknowledged,
        updated(before, same, now).last_check == now,
{
}

/// A rebuild that gives a different value is the next version: the version
/// advances by exactly one and the new value is stored.
pub proof fn lemma_new_content_is_next_version<T: PartialEq>(
    before: UpdatableModel<T>,
    different: T,
    now: u64,
)
    requires
        !different.eq_spec(&before.storage),
        before.version < usize::MAX,
    ensures
        updated(before, different, now).version == before.version + 1,
        updated(before, different, now).storage == different,
        updated(before, different, now).last_check == now,
{
}

/// Versions are monotonic: over any sequence of rebuilds the version never
/// goes down, and it never comes back to an earlier number once a rebuild
/// changed the content. Stated of two moments of one history: after `early`
/// and after `early + late`.
pub proof fn lemma_versions_are_monotonic<T: PartialEq>(
    before: UpdatableModel<T>,
    early: Seq<(T, u64)>,
    late: Seq<(T, u64)>,
)
    requires
        before.version + early.len() + late.len() <= usize::MAX,
    ensures
        before.version <= updated_all(before, early).version <= before.version + early.len(),
        updated_all(before, early).version <= updated_all(before, early + late).version,
        updated_all(before, early + late).version <= updated_all(before, early).version + late.len(),
        late.len() > 0 && !late.last().0.eq_spec(
            &updated_all(before, (early + late).drop_last()).storage,
        ) ==> updated_all(before, early).version < updated_all(before, early + late).version,
    decreases late.len(),
{
    lemma_version_is_bounded(before, early);
    if late.len() == 0 {
        assert(early + late =~= early);
    } else {
        let shorter = late.drop_last();
        assert((early + late).drop_last() =~= early + shorter);
        assert((early + late).last() == late.last());
        lemma_versions_are_monotonic(before, early, shorter);
    }
}

/// Each rebuild advances the version by one at most, and never takes it back.
pub proof fn lemma_version_is_bounded<T: PartialEq>(before: UpdatableModel<T>, steps: Seq<(T, u64)>)
    requires
        before.version + steps.len() <= usize::MAX,
    ensures
        before.version <= updated_all(before, steps).version <= before.version + steps.len(),
    decreases steps.len(),
{
    if steps.len() > 0 {
        lemma_version_is_bounded(before, steps.drop_last());
    }
}

impl<T: PartialEq> Updatable<T> {
    /// Stores the first version, checked at `now`.
    ///
    /// The first version counts as acknowledged: there is no earlier one to
    /// compare it with.
    pub fn from(storage: T, now: u64) -> (updatable: Updatable<T>)
        ensures
            updatable@ == (UpdatableModel {
                version: 0,
                last_check: now,
                storage,
                has_been_acknowledged: true,
            }),
    {
        Updatable { version: 0, last_check: now, storage, has_been_acknowledged: true }
    }

    /// Puts a newly computed value in, at `now`, and returns the version the
    /// container has then.
    ///
    /// A value equal to the stored one leaves version, value and
    /// acknowledgement as they are. A different one replaces the stored value,
    /// advances the version by one and awaits acknowledgement. Either way the
    /// time of the last check becomes `now`.
    pub fn update(&mut self, new_version: T, now: u64) -> (version: usize)
        requires
            old(self)@.version < usize::MAX,
        ensures
            final(self)@ == checked(old(self)@, now) || final(self)@ == replaced(
                old(self)@,
                new_version,
                now,
            ),
            <T as PartialEqSpec>::obeys_eq_spec() ==> final(self)@ == updated(old(self)@, new_version, now),
            version == final(self)@.version,
    {
        let is_different = new_version != self.storage;
        if is_different {
            self.version = self.version + 1;
            self.has_been_acknowledged = false;
            self.storage = new_version;
        }
        self.last_check = now;
        self.version
    }

    /// Marks the stored value as seen.
    pub fn acknowledge(&mut self)
        ensures
            final(self)@ == acknowledged(old(self)@),
    {
        self.has_been_acknowledged = true;
    }

    /// The number of times the value changed since the first version.
    pub fn version(&self) -> (version: usize)
        ensures
            version == self@.version,
    {
        self.version
    }

    /// When the value was last put in or found unchanged.
    pub fn last_check(&self) -> (last_check: u64)
        ensures
            last_check == self@.last_check,
    {
        self.last_check
    }

    /// Whether the stored value has been seen since it last changed.
    pub fn has_been_acknowledged(&self) -> (seen: bool)
        ensures
            seen == self@.has_been_acknowledged,
    {
        self.has_been_acknowledged
    }

    /// The stored value.
    pub fn storage(&self) -> (storage: &T)
        ensures
            *storage == self@.storage,
    {
        &self.storage
    }
}

/// What the update cycle does at one check.
#[derive(Debug, Clone, Copy, PartialEq, Eq, Structural)]
pub enum UpdateDecision {
    /// Nothing: neither did the configuration change nor is the snapshot old.
    NotDue,
    /// Nothing: a rebuild is due, but one is already on its way.
    Busy,
    /// A rebuild starts now, and no other starts until it has ended.
    Start,
}

/// What a [`Core`] holds.
pub struct CoreModel {
    pub interval_between_updates: u64,
    pub config_path: Seq<char>,
    pub config: UpdatableModel<SiostamConfig>,
    pub graph: UpdatableModel<GraphRepresentation>,
    pub is_graph_updating: bool,
}

/// The current configuration and snapshot, and whether a rebuild is on its way.
pub struct Core {
    /// How old a snapshot may get before it is rebuilt.
    interval_between_updates: u64,
    /// Where the configuration is read from.
    config_path: String,
    /// The current configuration.
    config: Updatable<SiostamConfig>,
    /// The current snapshot.
    graph: Updatable<GraphRepresentation>,
    /// Whether a rebuild has started and not yet ended.
    is_graph_updating: bool,
}

impl View for Core {
    type V = CoreModel;

    closed spec fn view(&self) -> CoreModel {
        CoreModel {
            interval_between_updates: self.interval_between_updates,
            config_path: self.config_path@,
            config: self.config@,
            graph: self.graph@,
            is_graph_updating: self.is_graph_updating,
        }
    }
}

/// The time from `earlier` to `now`; none where the clock went back.
pub open spec fn elapsed(now: u64, earlier: u64) -> int {
    if now >= earlier {
        now - earlier
    } else {
        0
    }
}

/// A rebuild is due at `now`: the configuration changed since it was last
/// acknowledged, or the snapshot was last checked longer ago than the interval.
pub open spec fn update_required(core: CoreModel, now: u64) -> bool {
    !core.config.has_been_acknowledged || elapsed(now, core.graph.last_check)
        > core.interval_between_updates
}

/// What a check at `now` decides.
pub open spec fn decision_at(core: CoreModel, now: u64) -> UpdateDecision {
    if !update_required(core, now) {
        UpdateDecision::NotDue
    } else if core.is_graph_updating {
        UpdateDecision::Busy
    } else {
        UpdateDecision::Start
    }
}

/// `core` after a check at `now`: a rebuild that starts is on its way,
/// nothing else changes.
pub open spec fn after_check(core: CoreModel, now: u64) -> CoreModel {
    if decision_at(core, now) == UpdateDecision::Start {
        CoreModel { is_graph_updating: true, ..core }
    } else {
        core
    }
}

/// `core` after the rebuild that gave `built` was published at `now`.
pub open spec fn after_publishing(core: CoreModel, built: GraphRepresentation, now: u64) -> CoreModel {
    CoreModel {
        config: acknowledged(core.config),
        graph: updated(core.graph, built, now),
        is_graph_updating: false,
        ..core
    }
}

/// `core` after a rebuild failed: configuration and snapshot are what they
/// were, and the next check may start a rebuild again.
pub open spec fn after_failure(core: CoreModel) -> CoreModel {
    CoreModel { is_graph_updating: false, ..core }
}

/// The state after the checks at `times`, one after the other, with no
/// rebuild ending in between.
pub open spec fn after_checks(core: CoreModel, times: Seq<u64>) -> CoreModel
    decreases times.len(),
{
    if times.len() == 0 {
        core
    } else {
        after_check(after_checks(core, times.drop_last()), times.last())
    }
}

/// How many of the checks at `times` start a rebuild.
pub open spec fn rebuilds_started(core: CoreModel, times: Seq<u64>) -> nat
    decreases times.len(),
{
    if times.len() == 0 {
        0
    } else {
        rebuilds_started(core, times.drop_last()) + if decision_at(
            after_checks(core, times.drop_last()),
            times.last(),
        ) == UpdateDecision::Start {
            1nat
        } else {
            0nat
        }
    }
}

/// Single flight: while a rebuild is on its way, a check starts none and
/// changes nothing, whenever it comes.
pub proof fn lemma_busy_check_changes_nothing(core: CoreModel, now: u64)
    requires
        core.is_graph_updating,
    ensures
        decision_at(core, now) != UpdateDecision::Start,
        after_check(core, now) == core,
{
}

/// Single flight: of any number of checks that come before a rebuild ends,
/// at most one starts a rebuild, and none does while one is on its way. The
/// checks change nothing but that a rebuild is on its way.
pub proof fn lemma_single_flight(core: CoreModel, times: Seq<u64>)
    ensures
        rebuilds_started(core, times) <= 1,
        core.is_graph_updating ==> rebuilds_started(core, times) == 0,
        rebuilds_started(core, times) == 1 ==> after_checks(core, times).is_graph_updating,
        after_checks(core, times) == (CoreModel {
            is_graph_updating: after_checks(core, times).is_graph_updating,
            ..core
        }),
        core.is_graph_updating ==> after_checks(core, times) == core,
    decreases times.len(),
{
    if times.len() > 0 {
        lemma_single_flight(core, times.drop_last());
    }
}

/// A failed rebuild leaves the published snapshot and the configuration
/// exactly as they were, and lets the next check start a rebuild again.
pub proof fn lemma_failure_keeps_snapshot(core: CoreModel)
    ensures
        after_failure(core).graph == core.graph,
        after_failure(core).config == core.config,
        !after_failure(core).is_graph_updating,
        forall|now: u64|
            update_required(core, now) ==> #[trigger] decision_at(after_failure(core), now)
                == UpdateDecision::Start,
{
}

/// Publishing what was already published is no new version: the version
/// of the snapshot stays, and the time of its last check moves to `now`.
pub proof fn lemma_publishing_same_content(core: CoreModel, built: GraphRepresentation, now: u64)
    requires
        built@ == core.graph.storage@,
    ensures
        after_publishing(core, built, now).graph.version == core.graph.version,
        after_publishing(core, built, now).graph.last_check == now,
        after_publishing(core, built, now).config.has_been_acknowledged,
        !after_publishing(core, built, now).is_graph_updating,
{
}

/// Publishing never takes the version of the snapshot back, and advances it
/// exactly when what was built differs from what was published.
pub proof fn lemma_publishing_version(core: CoreModel, built: GraphRepresentation, now: u64)
    requires
        core.graph.version < usize::MAX,
    ensures
        after_publishing(core, built, now).graph.version == if built@ == core.graph.storage@ {
            core.graph.version as int
        } else {
            core.graph.version + 1
        },
{
}

impl Core {
    /// Stores the first configuration and the first snapshot, both read at
    /// `now`. No rebuild is on its way.
    pub fn new(
        config_path: &str,
        interval_between_updates: u64,
        config: SiostamConfig,
        graph_representation: GraphRepresentation,
        now: u64,
    ) -> (core: Core)
        ensures
            core@ == (CoreModel {
                interval_between_updates,
                config_path: config_path@,
                config: UpdatableModel {
                    version: 0,
                    last_check: now,
                    storage: config,
                    has_been_acknowledged: true,
                },
                graph: UpdatableModel {
                    version: 0,
                    last_check: now,
                    storage: graph_representation,
                    has_been_acknowledged: true,
                },
                is_graph_updating: false,
            }),
    {
        Core {
            interval_between_updates,
            config_path: config_path.to_owned(),
            config: Updatable::from(config, now),
            graph: Updatable::from(graph_representation, now),
            is_graph_updating: false,
        }
    }

    // -- Updates --

    /// Takes in what reading the configuration again at `now` gave.
    ///
    /// A configuration that was read is put in: one that differs from the
    /// current one replaces it and makes a rebuild due. A failure is handed
    /// back and changes nothing.
    pub fn reload_config(&mut self, config: Result<SiostamConfig, CustomError>, now: u64) -> (outcome:
        Result<(), CustomError>)
        requires
            old(self)@.config.version < usize::MAX,
        ensures
            match config {
                Ok(read) => outcome is Ok && final(self)@ == (CoreModel {
                    config: updated(old(self)@.config, read, now),
                    ..old(self)@
                }),
                Err(e) => outcome == Err::<(), CustomError>(e) && final(self)@ == old(self)@,
            },
    {
        match config {
            Ok(read) => {
                let _ = self.config.update(read, now);
                Ok(())
            },
            Err(e) => Err(e),
        }
    }

    /// Decides at `now` whether a rebuild starts.
    ///
    /// One starts only if one is due and none is on its way. A check that
    /// starts none changes nothing: it is skipped, not queued.
    pub fn check_for_graph_update(&mut self, now: u64) -> (decision: UpdateDecision)
        ensures
            decision == decision_at(old(self)@, now),
            final(self)@ == after_check(old(self)@, now),
    {
        if !self.is_graph_update_required(now) {
            return UpdateDecision::NotDue;
        }
        // If we already are updating, don't do it twice
        if self.is_graph_updating {
            return UpdateDecision::Busy;
        }
        self.is_graph_updating = true;
        UpdateDecision::Start
    }

    /// Whether a rebuild is due at `now`.
    pub fn is_graph_update_required(&self, now: u64) -> (required: bool)
        ensures
            required == update_required(self@, now),
    {
        let since_last_check = if now >= self.graph.last_check() {
            now - self.graph.last_check()
        } else {
            0
        };
        !self.config.has_been_acknowledged() || since_last_check > self.interval_between_updates
    }

    /// The version of the current snapshot.
    pub fn version(&self) -> (version: usize)
        ensures
            version == self@.graph.version,
    {
        self.graph.version()
    }

    /// Ends the rebuild that is on its way, at `now`, with what it gave.
    ///
    /// What was built is published: the snapshot is replaced if what was
    /// built differs from it, the configuration it was built from is
    /// acknowledged, and the version that the snapshot has then is returned.
    /// A failure is handed back and leaves configuration and snapshot as they
    /// were. Either way a later check may start a rebuild.
    pub fn upgrade_graph(&mut self, built: Result<GraphRepresentation, CustomError>, now: u64) -> (outcome:
        Result<usize, CustomError>)
        requires
            old(self)@.graph.version < usize::MAX,
        ensures
            match built {
                Ok(representation) => {
                    &&& final(self)@ == after_publishing(old(self)@, representation, now)
                    &&& outcome == Ok::<usize, CustomError>(final(self)@.graph.version)
                },
                Err(e) => {
                    &&& final(self)@ == after_failure(old(self)@)
                    &&& outcome == Err::<usize, CustomError>(e)
                },
            },
    {
        self.is_graph_updating = false;
        match built {
            Ok(representation) => {
                let version = self.graph.update(representation, now);
                self.config.acknowledge();
                Ok(version)
            },
            Err(e) => Err(e),
        }
    }

    // -- Getters --

    /// The current configuration.
    pub fn config(&self) -> (config: &SiostamConfig)
        ensures
            *config == self@.config.storage,
    {
        self.config.storage()
    }

    /// Where the configuration is read from.
    pub fn config_path(&self) -> (path: &String)
        ensures
            path@ == self@.config_path,
    {
        &self.config_path
    }

    /// The version of the current configuration.
    pub fn config_version(&self) -> (version: usize)
        ensures
            version == self@.config.version,
    {
        self.config.version()
    }

    /// The structured data of the current snapshot.
    pub fn json(&self) -> (json: String)
        ensures
            json@ == self@.graph.storage@.json,
    {
        self.graph.storage().json()
    }

    /// The image of the current snapshot.
    pub fn svg(&self) -> (svg: String)
        ensures
            svg@ == self@.graph.storage@.svg,
    {
        self.graph.storage().svg()
    }
}

} // verus!
