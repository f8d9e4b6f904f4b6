use vstd::prelude::*;
use crate::config::VaultConfig;
use crate::geometry::{Pose, Vec2i};
use crate::motion::{VaultState, complete_vault, spec_complete, spec_vault_position, vault_position};
use crate::trigger::{ObstacleContact, TriggerError, spec_start, spec_start_result, start_vault};

verus! {

/// An obstacle's pose, taken from the physics state at the start of a tick.
#[derive(Clone, Copy, Debug, PartialEq, Eq, Structural)]
pub struct ObstaclePose {
    pub obstacle: u64,
    pub pose: Pose,
}

/// What the motion driver did this tick.
#[derive(Clone, Copy, Debug, PartialEq, Eq, Structural)]
pub enum DriveOutcome {
    /// The actor is not vaulting; its position is left to the physics.
    Idle,
    /// The actor's position is to be set to this point.
    Moved(Vec2i),
    /// The vaulted obstacle is gone; the vault is abandoned.
    ObstacleMissing,
}

/// What one tick did to the actor.
#[derive(Clone, Copy, Debug)]
pub struct TickReport {
    /// Whether a vault started, or why the action edge started none.
    pub trigger: Result<bool, TriggerError>,
    /// The position override of this tick, if any.
    pub drive: DriveOutcome,
    /// The completion monitor ended the vault this tick.
    pub completed: bool,
}

/// Every pose in the table is well formed.
pub open spec fn poses_wf(poses: Seq<ObstaclePose>) -> bool {
    forall|i: int| 0 <= i < poses.len() ==> (#[trigger] poses[i]).pose.wf()
}

/// The pose of the first entry at index `i` or later for `obstacle`.
pub open spec fn find_pose_from(poses: Seq<ObstaclePose>, obstacle: u64, i: int) -> Option<Pose>
    decreases poses.len() - i,
{
    if i < 0 || i >= poses.len() {
        None
    } else if poses[i].obstacle == obstacle {
        Some(poses[i].pose)
    } else {
        find_pose_from(poses, obstacle, i + 1)
    }
}

/// The motion driver's outcome at `now` for the actor's vault state.
pub open spec fn spec_drive(
    cfg: VaultConfig,
    actor: Option<VaultState>,
    now: u64,
    poses: Seq<ObstaclePose>,
) -> DriveOutcome {
    match actor {
        None => DriveOutcome::Idle,
        Some(v) => match find_pose_from(poses, v.obstacle, 0) {
            None => DriveOutcome::ObstacleMissing,
            Some(p) => {
                let (x, y) = spec_vault_position(cfg, v, now as int, p);
                DriveOutcome::Moved(Vec2i { x: x as i64, y: y as i64 })
            },
        },
    }
}

proof fn lemma_find_pose_wf(poses: Seq<ObstaclePose>, obstacle: u64, i: int)
    requires
        poses_wf(poses),
    ensures
        find_pose_from(poses, obstacle, i) matches Some(p) ==> p.wf(),
    decreases poses.len() - i,
{
    if 0 <= i < poses.len() && poses[i].obstacle != obstacle {
        lemma_find_pose_wf(poses, obstacle, i + 1);
    }
}

/// Looks up the pose of `obstacle`; the first matching entry counts.
pub fn find_pose(poses: &Vec<ObstaclePose>, obstacle: u64) -> (r: Option<Pose>)
    ensures
        r == find_pose_from(poses@, obstacle, 0),
{
    let mut i: usize = 0;
    while i < poses.len()
        invariant
            0 <= i <= poses@.len(),
            find_pose_from(poses@, obstacle, 0) == find_pose_from(poses@, obstacle, i as int),
        decreases poses@.len() - i,
    {
        let e = poses[i];
        if e.obstacle == obstacle {
            return Some(e.pose);
        }
        i = i + 1;
    }
    None
}

/// The motion driver: where a vaulting actor stands at `now`, in the live
/// frame of the obstacle's pose from `poses`.
pub fn perform_vault(
    cfg: &VaultConfig,
    actor: &Option<VaultState>,
    now: u64,
    poses: &Vec<ObstaclePose>,
) -> (r: DriveOutcome)
    requires
        cfg.wf(),
        poses_wf(poses@),
    ensures
        r == spec_drive(*cfg, *actor, now, poses@),
{
    match actor {
        None => DriveOutcome::Idle,
        Some(v) => match find_pose(poses, v.obstacle) {
            None => DriveOutcome::ObstacleMissing,
            Some(p) => {
                proof {
                    lemma_find_pose_wf(poses@, v.obstacle, 0);
                }
                DriveOutcome::Moved(vault_position(cfg, v, now, &p))
            },
        },
    }
}

/// The actor's vault state after the trigger and drive stages: an
/// abandoned vault is dropped.
pub open spec fn spec_after_drive(
    cfg: VaultConfig,
    actor: Option<VaultState>,
    edge: bool,
    contacts: Seq<ObstacleContact>,
    poses: Seq<ObstaclePose>,
    now: u64,
) -> Option<VaultState> {
    let started = spec_start(cfg, actor, edge, contacts, now);
    if spec_drive(cfg, started, now, poses) == DriveOutcome::ObstacleMissing {
        None
    } else {
        started
    }
}

/// Runs one tick's stages in order: trigger on the action signal, drive the
/// vault's position, then end it if its completion is above one. A vault
/// whose obstacle is gone is dropped rather than driven.
pub fn tick(
    cfg: &VaultConfig,
    actor: &mut Option<VaultState>,
    edge: bool,
    contacts: &Vec<ObstacleContact>,
    poses: &Vec<ObstaclePose>,
    now: u64,
) -> (r: TickReport)
    requires
        cfg.wf(),
        poses_wf(poses@),
    ensures
        r.trigger == spec_start_result(*cfg, *old(actor), edge, contacts@, now),
        r.drive == spec_drive(*cfg, spec_start(*cfg, *old(actor), edge, contacts@, now), now, poses@),
        *final(actor) == spec_complete(
            *cfg,
            spec_after_drive(*cfg, *old(actor), edge, contacts@, poses@, now),
            now as int,
        ),
        r.completed <==> (spec_after_drive(*cfg, *old(actor), edge, contacts@, poses@, now) is Some
            && (*final(actor)) is None),
{
    let trigger = start_vault(cfg, actor, edge, contacts, now);
    let drive = perform_vault(cfg, actor, now, poses);
    if drive == DriveOutcome::ObstacleMissing {
        *actor = None;
    }
    let completed = complete_vault(cfg, actor, now);
    TickReport { trigger, drive, completed }
}

} // verus!
