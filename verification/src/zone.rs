//! Zones: the regulated units.
//!
//! A zone carries a continuous activity level on the fixed-point scale
//! ([`SCALE`] micro-units stand for the real value 1.0) together with the
//! discrete state derived from it.  The derived state is never stored
//! independently of the activity: every mutator reclassifies before it
//! returns, which [`Zone::wf`] captures.

use vstd::prelude::*;

use crate::ambient::{now_timestamp, random_u64};

verus! {

/// Fixed-point scale: `SCALE` micro-units stand for the real value 1.0.
/// Activities, targets and gains all live in `[0, SCALE]`.
pub const SCALE: u64 = 1_000_000;

/// Default equilibrium target, 0.5 on the unit scale.
pub const DEFAULT_TARGET: u64 = 500_000;

/// Lower end of the band from which fresh zones are seeded, 0.2.
pub const SEED_MIN: u64 = 200_000;

/// Width of the seeding band, 0.6, so seeds lie in `[0.2, 0.8]`.
pub const SEED_SPAN: u64 = 600_000;

/// Activities below 0.4 classify as `Calm`.
pub const CALM_LIMIT: u64 = 400_000;

/// Activities in `[0.4, 0.7)` classify as `Overstimulated`.
pub const OVERSTIMULATED_LIMIT: u64 = 700_000;

/// Activities in `[0.7, 0.9)` classify as `Emergent`; at or above 0.9,
/// `Critical`.
pub const EMERGENT_LIMIT: u64 = 900_000;

/// The discrete state of a zone, derived from its activity by [`classify`].
#[derive(Clone, Copy, Debug, PartialEq, Eq, Structural)]
pub enum ZoneState {
    Calm,
    Overstimulated,
    Emergent,
    Critical,
}

/// Classification of an activity level into the four discrete states, over
/// fixed half-open thresholds: `[0, 0.4)` is calm, `[0.4, 0.7)`
/// overstimulated, `[0.7, 0.9)` emergent and `[0.9, 1.0]` critical.
/// Total over the whole clamped domain; no error cases.
pub open spec fn classify(activity: u64) -> ZoneState {
    if activity < CALM_LIMIT {
        ZoneState::Calm
    } else if activity < OVERSTIMULATED_LIMIT {
        ZoneState::Overstimulated
    } else if activity < EMERGENT_LIMIT {
        ZoneState::Emergent
    } else {
        ZoneState::Critical
    }
}

/// Clamp of an unbounded intermediate value back onto the unit scale.
pub open spec fn clamp_unit(x: int) -> int {
    if x < 0 {
        0
    } else if x > SCALE {
        SCALE as int
    } else {
        x
    }
}

impl ZoneState {
    /// The executable form of [`classify`].
    pub fn from_activity(activity: u64) -> (state: ZoneState)
        ensures
            state == classify(activity),
    {
        if activity < CALM_LIMIT {
            ZoneState::Calm
        } else if activity < OVERSTIMULATED_LIMIT {
            ZoneState::Overstimulated
        } else if activity < EMERGENT_LIMIT {
            ZoneState::Emergent
        } else {
            ZoneState::Critical
        }
    }
}

/// A single regulated unit: identity, activity, per-zone target, derived
/// state and the instant of the last mutation.
#[derive(Clone, Copy, Debug, PartialEq, Eq, Structural)]
pub struct Zone {
    pub id: usize,
    pub activity: u64,
    pub target: u64,
    pub state: ZoneState,
    pub last_update: i64,
}

impl Zone {
    /// Validity: activity and target lie on the unit scale and the stored
    /// state is exactly the classification of the activity.
    pub open spec fn wf(self) -> bool {
        &&& self.activity <= SCALE
        &&& self.target <= SCALE
        &&& self.state == classify(self.activity)
    }

    /// A fresh zone with a random activity drawn from the seeding band
    /// `[0.2, 0.8]` and the default target.
    pub fn new(id: usize) -> (zone: Zone)
        ensures
            zone.wf(),
            zone.id == id,
            zone.target == DEFAULT_TARGET,
            SEED_MIN <= zone.activity <= SEED_MIN + SEED_SPAN,
    {
        let draw: u64 = random_u64();
        let activity: u64 = SEED_MIN + draw % (SEED_SPAN + 1);
        Zone::with_activity(id, activity, DEFAULT_TARGET)
    }

    /// A zone with a chosen activity and target.
    pub fn with_activity(id: usize, activity: u64, target: u64) -> (zone: Zone)
        requires
            activity <= SCALE,
            target <= SCALE,
        ensures
            zone.wf(),
            zone.id == id,
            zone.activity == activity,
            zone.target == target,
    {
        Zone {
            id,
            activity,
            target,
            state: ZoneState::from_activity(activity),
            last_update: now_timestamp(),
        }
    }

    /// The permanent identity of the zone.
    pub fn id(&self) -> (id: usize)
        ensures
            id == self.id,
    {
        self.id
    }

    /// The current activity, in micro-units.
    pub fn activity(&self) -> (activity: u64)
        ensures
            activity == self.activity,
    {
        self.activity
    }

    /// The current derived state.
    pub fn state(&self) -> (state: &ZoneState)
        ensures
            state == self.state,
    {
        &self.state
    }

    /// The equilibrium target, in micro-units.
    pub fn target(&self) -> (target: u64)
        ensures
            target == self.target,
    {
        self.target
    }

    /// Adds a signed adjustment to the activity, clamps back onto the unit
    /// scale and reclassifies.  Identity and target never change.
    pub fn apply_adjustment(&mut self, adjustment: i64)
        ensures
            final(self).activity == clamp_unit(old(self).activity + adjustment),
            final(self).state == classify(final(self).activity),
            final(self).id == old(self).id,
            final(self).target == old(self).target,
    {
        let shifted: i128 = self.activity as i128 + adjustment as i128;
        let clamped: u64 = if shifted < 0 {
            0
        } else if shifted > SCALE as i128 {
            SCALE
        } else {
            shifted as u64
        };
        self.activity = clamped;
        self.state = ZoneState::from_activity(clamped);
        self.last_update = now_timestamp();
    }

    /// An exogenous stimulus: the same clamped additive update as
    /// [`Zone::apply_adjustment`], applied directly to the activity.
    pub fn apply_influence(&mut self, influence: i64)
        ensures
            final(self).activity == clamp_unit(old(self).activity + influence),
            final(self).state == classify(final(self).activity),
            final(self).id == old(self).id,
            final(self).target == old(self).target,
    {
        self.apply_adjustment(influence);
    }

    /// Re-seeds the activity from the random band, keeping identity and
    /// target.
    pub fn reset(&mut self)
        requires
            old(self).target <= SCALE,
        ensures
            final(self).wf(),
            final(self).id == old(self).id,
            final(self).target == old(self).target,
            SEED_MIN <= final(self).activity <= SEED_MIN + SEED_SPAN,
    {
        let draw: u64 = random_u64();
        let activity: u64 = SEED_MIN + draw % (SEED_SPAN + 1);
        self.activity = activity;
        self.state = ZoneState::from_activity(activity);
        self.last_update = now_timestamp();
    }
}

} // verus!
