use vstd::prelude::*;

verus! {

/// Longest vault duration accepted, in microseconds (a little over an hour).
pub const MAX_DURATION: u64 = 0x1_0000_0000;

/// Largest actor radius or clearance margin accepted.
pub const MAX_LENGTH: i64 = 0x1000_0000;

/// What an action edge does to an actor that is already vaulting.
#[derive(Clone, Copy, Debug, PartialEq, Eq, Structural)]
pub enum RetriggerPolicy {
    /// The edge is ignored and the running vault goes on.
    Ignore,
    /// The edge is handled as for an idle actor: a new vault, if one
    /// starts, replaces the running one.
    Restart,
}

/// The vault's tuning: how long a vault lasts, and how far past the
/// obstacle's center the actor travels.
#[derive(Clone, Copy, Debug, PartialEq, Eq, Structural)]
pub struct VaultConfig {
    /// Duration of a vault, in microseconds.
    pub duration: u64,
    /// The actor's characteristic radius.
    pub actor_radius: i64,
    /// Margin kept between the actor and the obstacle.
    pub clearance: i64,
    /// Handling of an action edge while a vault runs.
    pub retrigger: RetriggerPolicy,
}

impl VaultConfig {
    /// The duration is positive and the lengths are within bounds.
    pub open spec fn wf(self) -> bool {
        &&& 0 < self.duration <= MAX_DURATION
        &&& 0 <= self.actor_radius <= MAX_LENGTH
        &&& 0 <= self.clearance <= MAX_LENGTH
    }

    /// Distance travelled along the transverse axis over a whole vault.
    pub open spec fn lateral(self) -> int {
        self.actor_radius + self.clearance
    }

    /// A vault of a quarter second, for an actor of radius 50 with a margin
    /// of 20, lengths given in thousandths; a new vault replaces a running one.
    pub fn standard() -> (r: VaultConfig)
        ensures
            r.wf(),
            r.duration == 250_000,
            r.actor_radius == 50_000,
            r.clearance == 20_000,
            r.retrigger == RetriggerPolicy::Restart,
    {
        VaultConfig {
            duration: 250_000,
            actor_radius: 50_000,
            clearance: 20_000,
            retrigger: RetriggerPolicy::Restart,
        }
    }

    /// A configuration from its parts; `None` where a part is out of bounds.
    pub fn new(duration: u64, actor_radius: i64, clearance: i64, retrigger: RetriggerPolicy) -> (r:
        Option<VaultConfig>)
        ensures
            r is Some <==> (VaultConfig { duration, actor_radius, clearance, retrigger }).wf(),
            r is Some ==> r == Some(VaultConfig { duration, actor_radius, clearance, retrigger }),
    {
        let c = VaultConfig { duration, actor_radius, clearance, retrigger };
        if 0 < duration && duration <= MAX_DURATION && 0 <= actor_radius && actor_radius
            <= MAX_LENGTH && 0 <= clearance && clearance <= MAX_LENGTH {
            Some(c)
        } else {
            None
        }
    }
}

} // verus!
