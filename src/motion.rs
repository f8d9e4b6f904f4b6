use vstd::prelude::*;
use vstd::arithmetic::div_mod::{lemma_div_is_ordered, lemma_div_by_multiple};
use vstd::arithmetic::mul::{lemma_mul_inequality, lemma_mul_strict_inequality};
use crate::config::{VaultConfig, MAX_DURATION, MAX_LENGTH};
use crate::direction::VaultDirection;
use crate::geometry::{Pose, Vec2i, div_toward_zero, ROTATION_SCALE, OFFSET_LIMIT, spec_to_world};

verus! {

/// The record an actor holds while it vaults; its presence is the vaulting
/// state.
#[derive(Clone, Copy, Debug, PartialEq, Eq, Structural)]
pub struct VaultState {
    /// The obstacle vaulted over, looked up again on each tick.
    pub obstacle: u64,
    /// Simulation time at which the vault began, in microseconds.
    pub start_time: u64,
    /// Side of the obstacle the vault proceeds to.
    pub direction: VaultDirection,
}

/// Progress of a vault: the ratio `elapsed / duration`, kept exact as its
/// numerator and denominator.
#[derive(Clone, Copy, Debug, PartialEq, Eq, Structural)]
pub struct Completion {
    /// Time since the vault began, in microseconds; negative before it.
    pub elapsed: i128,
    /// The vault's duration, in microseconds.
    pub duration: u64,
}

/// The completion ratio at `now` of a vault begun at `start`, as a
/// numerator and a positive denominator.
pub open spec fn completion_ratio(start: int, now: int, duration: int) -> (int, int) {
    (now - start, duration)
}

/// The ratio `a` is below the ratio `b` (both with positive denominators).
pub open spec fn ratio_lt(a: (int, int), b: (int, int)) -> bool {
    a.0 * b.1 < b.0 * a.1
}

/// The ratio is zero.
pub open spec fn ratio_is_zero(a: (int, int)) -> bool {
    a.0 == 0
}

/// The ratio is one.
pub open spec fn ratio_is_one(a: (int, int)) -> bool {
    a.0 == a.1
}

/// The ratio is above one (positive denominator).
pub open spec fn ratio_exceeds_one(a: (int, int)) -> bool {
    a.0 > a.1
}

/// Elapsed time held to `[0, duration]`.
pub open spec fn clamp_elapsed(elapsed: int, duration: int) -> int {
    if elapsed < 0 {
        0
    } else if elapsed > duration {
        duration
    } else {
        elapsed
    }
}

/// The signed offset along the obstacle's transverse axis at `now`:
/// the direction's sign times the clamped completion times the lateral
/// distance, the magnitude rounded down.
pub open spec fn spec_transverse_offset(cfg: VaultConfig, v: VaultState, now: int) -> int {
    v.direction.sign() * (clamp_elapsed(now - v.start_time, cfg.duration as int) * cfg.lateral()
        / (cfg.duration as int))
}

/// The actor's world position at `now`: the transverse offset, rotated by
/// the obstacle's rotation and moved by its translation.
pub open spec fn spec_vault_position(cfg: VaultConfig, v: VaultState, now: int, pose: Pose) -> (
    int,
    int,
) {
    let off = spec_transverse_offset(cfg, v, now);
    (
        pose.translation.x + div_toward_zero(-(pose.rotation.sin * off), ROTATION_SCALE as int),
        pose.translation.y + div_toward_zero(pose.rotation.cos * off, ROTATION_SCALE as int),
    )
}

/// What the completion monitor leaves of an actor's vault state at `now`.
pub open spec fn spec_complete(cfg: VaultConfig, s: Option<VaultState>, now: int) -> Option<
    VaultState,
> {
    match s {
        Some(v) => if ratio_exceeds_one(
            completion_ratio(v.start_time as int, now, cfg.duration as int),
        ) {
            None
        } else {
            s
        },
        None => None,
    }
}

/// What the completion monitor leaves of `s` after running at each of
/// `ticks` in turn.
pub open spec fn run_monitor(cfg: VaultConfig, s: Option<VaultState>, ticks: Seq<int>) -> Option<
    VaultState,
>
    decreases ticks.len(),
{
    if ticks.len() == 0 {
        s
    } else {
        spec_complete(cfg, run_monitor(cfg, s, ticks.drop_last()), ticks.last())
    }
}

/// The completion ratio of a vault is strictly increasing in time; it is
/// zero when the vault begins and one when its duration has passed.
pub proof fn lemma_completion_monotonic(cfg: VaultConfig, start: int, t1: int, t2: int)
    requires
        cfg.wf(),
        t1 < t2,
    ensures
        ratio_lt(
            completion_ratio(start, t1, cfg.duration as int),
            completion_ratio(start, t2, cfg.duration as int),
        ),
        ratio_is_zero(completion_ratio(start, start, cfg.duration as int)),
        ratio_is_one(completion_ratio(start, start + cfg.duration, cfg.duration as int)),
{
    lemma_mul_strict_inequality(t1 - start, t2 - start, cfg.duration as int);
}

/// Run at a series of ticks, the completion monitor has removed a vault
/// exactly when one of those ticks saw its completion above one, and it
/// removes it on the first such tick and on no other.
pub proof fn lemma_completion_removal(cfg: VaultConfig, v: VaultState, ticks: Seq<int>, k: int)
    requires
        0 <= k < ticks.len(),
    ensures
        run_monitor(cfg, Some(v), ticks.take(k)) is None <==> exists|j: int|
            0 <= j < k && ratio_exceeds_one(
                #[trigger] completion_ratio(v.start_time as int, ticks[j], cfg.duration as int),
            ),
        (run_monitor(cfg, Some(v), ticks.take(k)) is Some && run_monitor(
            cfg,
            Some(v),
            ticks.take(k + 1),
        ) is None) <==> (ratio_exceeds_one(
            completion_ratio(v.start_time as int, ticks[k], cfg.duration as int),
        ) && forall|j: int|
            0 <= j < k ==> !ratio_exceeds_one(
                #[trigger] completion_ratio(v.start_time as int, ticks[j], cfg.duration as int),
            )),
{
    lemma_monitor_prefix(cfg, v, ticks, k);
    lemma_monitor_prefix(cfg, v, ticks, k + 1);
}

proof fn lemma_monitor_prefix(cfg: VaultConfig, v: VaultState, ticks: Seq<int>, k: int)
    requires
        0 <= k <= ticks.len(),
    ensures
        run_monitor(cfg, Some(v), ticks.take(k)) == (if exists|j: int|
            0 <= j < k && ratio_exceeds_one(
                #[trigger] completion_ratio(v.start_time as int, ticks[j], cfg.duration as int),
            ) {
            None
        } else {
            Some(v)
        }),
    decreases k,
{
    if k > 0 {
        lemma_monitor_prefix(cfg, v, ticks, k - 1);
        assert(ticks.take(k).drop_last() =~= ticks.take(k - 1));
        let prev = run_monitor(cfg, Some(v), ticks.take(k - 1));
        if exists|j: int|
            0 <= j < k && ratio_exceeds_one(
                #[trigger] completion_ratio(v.start_time as int, ticks[j], cfg.duration as int),
            ) {
            let j = choose|j: int|
                0 <= j < k && ratio_exceeds_one(
                    #[trigger] completion_ratio(v.start_time as int, ticks[j], cfg.duration as int),
                );
            if j < k - 1 {
                assert(prev is None);
            }
        } else {
            assert(!ratio_exceeds_one(
                completion_ratio(v.start_time as int, ticks[k - 1], cfg.duration as int),
            ));
        }
    }
}

/// The vaulting actor rides the obstacle's frame: at equal elapsed time and
/// direction, under the same rotation, its position moves by exactly what
/// the obstacle's translation moved; with the pose held fixed, it depends on
/// elapsed time alone.
pub proof fn lemma_frame_relative(
    cfg: VaultConfig,
    v1: VaultState,
    now1: int,
    pose1: Pose,
    v2: VaultState,
    now2: int,
    pose2: Pose,
)
    requires
        v1.direction == v2.direction,
        now1 - v1.start_time == now2 - v2.start_time,
        pose1.rotation == pose2.rotation,
    ensures
        spec_vault_position(cfg, v2, now2, pose2).0 == spec_vault_position(cfg, v1, now1, pose1).0
            + (pose2.translation.x - pose1.translation.x),
        spec_vault_position(cfg, v2, now2, pose2).1 == spec_vault_position(cfg, v1, now1, pose1).1
            + (pose2.translation.y - pose1.translation.y),
        pose1 == pose2 ==> spec_vault_position(cfg, v2, now2, pose2) == spec_vault_position(
            cfg,
            v1,
            now1,
            pose1,
        ),
{
}

impl Completion {
    /// The completion at `now` of `v` under `cfg`.
    pub fn of(cfg: &VaultConfig, v: &VaultState, now: u64) -> (r: Completion)
        ensures
            (r.elapsed as int, r.duration as int) == completion_ratio(
                v.start_time as int,
                now as int,
                cfg.duration as int,
            ),
    {
        Completion { elapsed: now as i128 - v.start_time as i128, duration: cfg.duration }
    }

    /// The ratio is above one.
    pub fn exceeds_one(&self) -> (r: bool)
        ensures
            r == ratio_exceeds_one((self.elapsed as int, self.duration as int)),
    {
        self.elapsed > self.duration as i128
    }
}

/// The signed transverse offset of a vaulting actor at `now`.
pub fn transverse_offset(cfg: &VaultConfig, v: &VaultState, now: u64) -> (r: i64)
    requires
        cfg.wf(),
    ensures
        r == spec_transverse_offset(*cfg, *v, now as int),
        -cfg.lateral() <= r <= cfg.lateral(),
{
    let elapsed: i128 = now as i128 - v.start_time as i128;
    let clamped: u64 = if elapsed <= 0 {
        0
    } else if elapsed >= cfg.duration as i128 {
        cfg.duration
    } else {
        elapsed as u64
    };
    let lateral: u64 = (cfg.actor_radius + cfg.clearance) as u64;
    proof {
        lemma_mul_inequality(clamped as int, cfg.duration as int, lateral as int);
        lemma_mul_inequality(cfg.duration as int, MAX_DURATION as int, lateral as int);
        lemma_mul_inequality(lateral as int, 2 * MAX_LENGTH, MAX_DURATION as int);
        lemma_div_is_ordered(
            clamped as int * lateral as int,
            cfg.duration as int * lateral as int,
            cfg.duration as int,
        );
        lemma_div_by_multiple(lateral as int, cfg.duration as int);
        assert(cfg.duration as int * lateral as int == lateral as int * cfg.duration as int)
            by (nonlinear_arith);
    }
    let magnitude: u64 = clamped * lateral / cfg.duration;
    v.direction.mul(magnitude as i64)
}

/// Drives a vaulting actor: its world position at `now`, computed in the
/// live frame of the obstacle's pose.
pub fn vault_position(cfg: &VaultConfig, v: &VaultState, now: u64, pose: &Pose) -> (r: Vec2i)
    requires
        cfg.wf(),
        pose.wf(),
    ensures
        (r.x as int, r.y as int) == spec_vault_position(*cfg, *v, now as int, *pose),
{
    let off = transverse_offset(cfg, v, now);
    let local = Vec2i { x: 0, y: off };
    proof {
        assert(local.bounded(OFFSET_LIMIT as int));
        assert(pose.rotation.cos * 0 == 0) by (nonlinear_arith);
        assert(pose.rotation.sin * 0 == 0) by (nonlinear_arith);
    }
    let r = pose.to_world(local);
    proof {
        assert((r.x as int, r.y as int) == spec_to_world(*pose, local));
    }
    r
}

/// The completion monitor: ends the vault once its completion ratio is above
/// one, and returns whether it did.
pub fn complete_vault(cfg: &VaultConfig, actor: &mut Option<VaultState>, now: u64) -> (ended: bool)
    ensures
        *final(actor) == spec_complete(*cfg, *old(actor), now as int),
        ended <==> ((*old(actor)) is Some && (*final(actor)) is None),
{
    match *actor {
        Some(v) => {
            if Completion::of(cfg, &v, now).exceeds_one() {
                *actor = None;
                true
            } else {
                false
            }
        },
        None => false,
    }
}

} // verus!
