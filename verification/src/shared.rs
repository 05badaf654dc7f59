//! The shared-access boundary.
//!
//! A background scheduler ticks the engine while any number of concurrent
//! callers perturb and observe it.  The whole engine is one indivisible
//! shared resource: every tick, influence and snapshot holds a single
//! reader–writer lock for its whole duration, so operations are totally
//! ordered and a snapshot always reflects one consistent instant — its
//! aggregate metrics are exact functions of the very zone sequence it
//! carries, never a mix of pre-tick and post-tick values.

use vstd::prelude::*;
use vstd::rwlock::{RwLock, RwLockPredicate};

use crate::engine::{
    average_activity_of, balance_of, health_of, EngineError, HomeostaticEngine, SystemState,
};
use crate::zone::SCALE;

verus! {

/// The invariant on every engine value stored in the lock: the engine is
/// well-formed and keeps the shape — zone count, target, gain — that was
/// fixed when the boundary was built.
pub struct EngineShape {
    pub zones: usize,
    pub target_calmness: u64,
    pub learning_rate: u64,
}

impl RwLockPredicate<HomeostaticEngine> for EngineShape {
    open spec fn inv(self, engine: HomeostaticEngine) -> bool {
        &&& engine.wf()
        &&& engine.config.zones == self.zones
        &&& engine.config.target_calmness == self.target_calmness
        &&& engine.config.learning_rate == self.learning_rate
    }
}

/// The single synchronized owner of the engine.  All concurrent access —
/// the scheduler's ticks and any caller's influences and snapshots — goes
/// through these methods; the engine itself is never handed out.
pub struct SharedEngine {
    zones: usize,
    target_calmness: u64,
    learning_rate: u64,
    lock: RwLock<HomeostaticEngine, EngineShape>,
}

impl SharedEngine {
    /// The fixed zone count.
    pub closed spec fn spec_zone_count(&self) -> usize {
        self.zones
    }

    /// The fixed equilibrium target.
    pub closed spec fn spec_target(&self) -> u64 {
        self.target_calmness
    }

    /// The fixed correction gain.
    pub closed spec fn spec_learning_rate(&self) -> u64 {
        self.learning_rate
    }

    /// Validity: the lock's invariant is exactly the shape recorded here.
    pub closed spec fn wf(&self) -> bool {
        &&& self.lock.pred() == (EngineShape {
            zones: self.zones,
            target_calmness: self.target_calmness,
            learning_rate: self.learning_rate,
        })
        &&& self.zones >= 1
        &&& self.target_calmness <= SCALE
    }

    /// Takes sole ownership of a well-formed engine and guards it.
    pub fn new(engine: HomeostaticEngine) -> (shared: SharedEngine)
        requires
            engine.wf(),
        ensures
            shared.wf(),
            shared.spec_zone_count() == engine.config.zones,
            shared.spec_target() == engine.config.target_calmness,
            shared.spec_learning_rate() == engine.config.learning_rate,
    {
        let zones: usize = engine.config.zones;
        let target_calmness: u64 = engine.config.target_calmness;
        let learning_rate: u64 = engine.config.learning_rate;
        let lock = RwLock::new(
            engine,
            Ghost(EngineShape { zones, target_calmness, learning_rate }),
        );
        SharedEngine { zones, target_calmness, learning_rate, lock }
    }

    /// The fixed zone count.
    pub fn zone_count(&self) -> (count: usize)
        ensures
            count == self.spec_zone_count(),
    {
        self.zones
    }

    /// One controller tick over all zones, under the write lock for its
    /// whole duration.
    pub fn tick(&self)
        requires
            self.wf(),
    {
        let (mut engine, handle) = self.lock.acquire_write();
        engine.update();
        handle.release_write(engine);
    }

    /// Applies an exogenous influence to one zone under the write lock.
    /// Succeeds exactly when the index names a zone; an out-of-range index
    /// fails without mutating anything.
    pub fn apply_influence(&self, zone_id: usize, influence: i64) -> (result: Result<
        (),
        EngineError,
    >)
        requires
            self.wf(),
        ensures
            result is Ok <==> zone_id < self.spec_zone_count(),
            result is Err ==> result == Result::<(), EngineError>::Err(EngineError::OutOfRange),
    {
        let (mut engine, handle) = self.lock.acquire_write();
        let result = engine.apply_influence(zone_id, influence);
        handle.release_write(engine);
        result
    }

    /// An immutable snapshot taken under the read lock: one consistent
    /// instant.  Every zone in it is well-formed — in particular its state
    /// is the classification of its activity — and the metrics are the
    /// exact aggregate functions of the zone sequence carried in the same
    /// snapshot.
    pub fn snapshot(&self) -> (state: SystemState)
        requires
            self.wf(),
        ensures
            state.zones@.len() == self.spec_zone_count(),
            forall|i: int| 0 <= i < state.zones@.len() ==> (#[trigger] state.zones@[i]).wf(),
            state.metrics.total_zones == state.zones@.len(),
            state.metrics.average_activity == average_activity_of(state.zones@),
            state.metrics.homeostatic_balance == balance_of(state.zones@, self.spec_target()),
            state.metrics.system_health == health_of(state.zones@),
    {
        let handle = self.lock.acquire_read();
        let state = handle.borrow().get_state();
        handle.release_read();
        state
    }
}

} // verus!
