use vault::config::{RetriggerPolicy, VaultConfig};
use vault::direction::VaultDirection;
use vault::geometry::{Pose, Rotation, Vec2i, ROTATION_SCALE};
use vault::motion::{complete_vault, transverse_offset, vault_position, Completion, VaultState};
use vault::step::{find_pose, perform_vault, tick, DriveOutcome, ObstaclePose};
use vault::trigger::{detect_vault, start_vault, ObstacleContact, TriggerError};

fn pose_at(x: i64, y: i64) -> Pose {
    Pose { translation: Vec2i::new(x, y), rotation: Rotation::identity() }
}

fn contact(obstacle: u64, normal: Option<i64>) -> ObstacleContact {
    ObstacleContact { obstacle, normal }
}

fn neg_vault(start_time: u64) -> VaultState {
    VaultState { obstacle: 7, start_time, direction: VaultDirection::Neg }
}

#[test]
fn direction_from_positive_component() {
    assert_eq!(VaultDirection::from_component(1), Some(VaultDirection::Pos));
    assert_eq!(VaultDirection::from_component(i64::MAX), Some(VaultDirection::Pos));
}

#[test]
fn direction_from_negative_component() {
    assert_eq!(VaultDirection::from_component(-700_000), Some(VaultDirection::Neg));
    assert_eq!(VaultDirection::from_component(i64::MIN), Some(VaultDirection::Neg));
}

#[test]
fn direction_from_zero_is_rejected() {
    assert_eq!(VaultDirection::from_component(0), None);
}

#[test]
fn sign_fold_keeps_or_negates() {
    assert_eq!(VaultDirection::Pos.mul(35), 35);
    assert_eq!(VaultDirection::Neg.mul(35), -35);
    assert_eq!(VaultDirection::Neg.mul(-12), 12);
    assert_eq!(VaultDirection::Pos.mul(0), 0);
    assert_eq!(VaultDirection::Neg.mul(i64::MAX), -i64::MAX);
}

#[test]
fn completion_is_zero_at_start_and_one_after_duration() {
    let cfg = VaultConfig::standard();
    let v = neg_vault(10_000_000);
    let at_start = Completion::of(&cfg, &v, 10_000_000);
    assert_eq!(at_start.elapsed, 0);
    assert_eq!(at_start.duration, 250_000);
    let at_end = Completion::of(&cfg, &v, 10_250_000);
    assert_eq!(at_end.elapsed, at_end.duration as i128);
    assert!(!at_end.exceeds_one());
    assert!(Completion::of(&cfg, &v, 10_250_001).exceeds_one());
}

#[test]
fn completion_increases_with_time() {
    let cfg = VaultConfig::standard();
    let v = neg_vault(10_000_000);
    let mut last = Completion::of(&cfg, &v, 9_000_000).elapsed;
    assert_eq!(last, -1_000_000);
    let mut t: u64 = 9_000_000;
    while t < 11_000_000 {
        t += 12_345;
        let c = Completion::of(&cfg, &v, t).elapsed;
        assert!(c > last);
        last = c;
    }
}

#[test]
fn monitor_removes_on_first_tick_past_one() {
    let cfg = VaultConfig::standard();
    let mut actor = Some(neg_vault(10_000_000));
    let ticks: [(u64, bool); 5] = [
        (10_000_000, false),
        (10_125_000, false),
        (10_250_000, false),
        (10_260_000, true),
        (10_270_000, false),
    ];
    for (now, ends) in ticks {
        assert_eq!(complete_vault(&cfg, &mut actor, now), ends);
    }
    assert_eq!(actor, None);
}

#[test]
fn monitor_leaves_idle_actor_alone() {
    let cfg = VaultConfig::standard();
    let mut actor: Option<VaultState> = None;
    assert!(!complete_vault(&cfg, &mut actor, 99_000_000));
    assert_eq!(actor, None);
}

#[test]
fn offset_follows_completion_and_is_clamped() {
    let cfg = VaultConfig::standard();
    let v = neg_vault(10_000_000);
    assert_eq!(transverse_offset(&cfg, &v, 10_000_000), 0);
    assert_eq!(transverse_offset(&cfg, &v, 10_125_000), -35_000);
    assert_eq!(transverse_offset(&cfg, &v, 10_250_000), -70_000);
    assert_eq!(transverse_offset(&cfg, &v, 10_260_000), -70_000);
    assert_eq!(transverse_offset(&cfg, &v, 9_000_000), 0);
    let p = VaultState { direction: VaultDirection::Pos, ..v };
    assert_eq!(transverse_offset(&cfg, &p, 10_062_500), 17_500);
}

#[test]
fn position_moves_rigidly_with_obstacle() {
    let cfg = VaultConfig::standard();
    let v = neg_vault(10_000_000);
    let first = vault_position(&cfg, &v, 10_100_000, &pose_at(100_000, 100_000));
    assert_eq!(first, Vec2i::new(100_000, 72_000));
    let same = vault_position(&cfg, &v, 10_100_000, &pose_at(100_000, 100_000));
    assert_eq!(same, first);
    let moved = vault_position(&cfg, &v, 10_100_000, &pose_at(103_000, 96_000));
    assert_eq!(moved, Vec2i::new(first.x + 3_000, first.y - 4_000));
    let later = vault_position(&cfg, &v, 10_200_000, &pose_at(100_000, 100_000));
    assert_eq!(later, Vec2i::new(100_000, 44_000));
}

#[test]
fn position_is_rotated_into_obstacle_frame() {
    let cfg = VaultConfig::standard();
    let v = neg_vault(10_000_000);
    let quarter_turn = Pose {
        translation: Vec2i::new(1_000, 2_000),
        rotation: Rotation { cos: 0, sin: ROTATION_SCALE },
    };
    assert_eq!(vault_position(&cfg, &v, 10_125_000, &quarter_turn), Vec2i::new(36_000, 2_000));
    let half_turn = Pose {
        translation: Vec2i::new(0, 0),
        rotation: Rotation { cos: -ROTATION_SCALE, sin: 0 },
    };
    assert_eq!(vault_position(&cfg, &v, 10_125_000, &half_turn), Vec2i::new(0, 35_000));
}

#[test]
fn rotation_rounds_toward_zero() {
    let r = Rotation { cos: 600_000, sin: 800_000 };
    assert_eq!(r.rotate(Vec2i::new(0, -35_001)), Vec2i::new(28_000, -21_000));
    assert_eq!(r.rotate(Vec2i::new(0, 35_001)), Vec2i::new(-28_000, 21_000));
}

#[test]
fn no_vault_without_active_contact() {
    let cfg = VaultConfig::standard();
    let contacts = vec![contact(1, None), contact(2, None)];
    assert_eq!(detect_vault(true, &contacts, 5_000_000), Ok(None));
    let mut actor: Option<VaultState> = None;
    assert_eq!(start_vault(&cfg, &mut actor, true, &contacts, 5_000_000), Ok(false));
    assert_eq!(actor, None);
    let empty: Vec<ObstacleContact> = Vec::new();
    assert_eq!(start_vault(&cfg, &mut actor, true, &empty, 5_000_000), Ok(false));
    assert_eq!(actor, None);
}

#[test]
fn no_vault_without_action_edge() {
    let contacts = vec![contact(3, Some(500_000))];
    assert_eq!(detect_vault(false, &contacts, 5_000_000), Ok(None));
}

#[test]
fn first_active_obstacle_is_chosen() {
    let contacts = vec![contact(1, None), contact(2, Some(250_000)), contact(3, Some(-900_000))];
    let expected = VaultState { obstacle: 2, start_time: 4_000_000, direction: VaultDirection::Pos };
    assert_eq!(detect_vault(true, &contacts, 4_000_000), Ok(Some(expected)));
}

#[test]
fn degenerate_normal_is_an_error() {
    let cfg = VaultConfig::standard();
    let contacts = vec![contact(4, Some(0)), contact(5, Some(300_000))];
    assert_eq!(
        detect_vault(true, &contacts, 1_000_000),
        Err(TriggerError::DegenerateNormal { obstacle: 4 })
    );
    let mut actor: Option<VaultState> = None;
    assert_eq!(
        start_vault(&cfg, &mut actor, true, &contacts, 1_000_000),
        Err(TriggerError::DegenerateNormal { obstacle: 4 })
    );
    assert_eq!(actor, None);
}

#[test]
fn running_vault_is_kept_under_ignore() {
    let cfg = VaultConfig::new(250_000, 50_000, 20_000, RetriggerPolicy::Ignore).unwrap();
    let running = neg_vault(10_000_000);
    let mut actor = Some(running);
    let contacts = vec![contact(9, Some(400_000))];
    assert_eq!(start_vault(&cfg, &mut actor, true, &contacts, 10_100_000), Ok(false));
    assert_eq!(actor, Some(running));
}

#[test]
fn running_vault_is_replaced_under_restart() {
    let cfg = VaultConfig::standard();
    let mut actor = Some(neg_vault(10_000_000));
    let contacts = vec![contact(9, Some(400_000))];
    assert_eq!(start_vault(&cfg, &mut actor, true, &contacts, 10_100_000), Ok(true));
    let expected = VaultState { obstacle: 9, start_time: 10_100_000, direction: VaultDirection::Pos };
    assert_eq!(actor, Some(expected));
    let none: Vec<ObstacleContact> = vec![contact(9, None)];
    assert_eq!(start_vault(&cfg, &mut actor, true, &none, 10_150_000), Ok(false));
    assert_eq!(actor, Some(expected));
}

#[test]
fn config_rejects_out_of_bounds_parts() {
    assert_eq!(VaultConfig::new(0, 50_000, 20_000, RetriggerPolicy::Restart), None);
    assert_eq!(VaultConfig::new(250_000, -1, 20_000, RetriggerPolicy::Restart), None);
    assert_eq!(VaultConfig::new(250_000, 50_000, i64::MAX, RetriggerPolicy::Restart), None);
    assert_eq!(
        VaultConfig::new(250_000, 50_000, 20_000, RetriggerPolicy::Restart),
        Some(VaultConfig::standard())
    );
}

#[test]
fn pose_lookup_takes_first_entry() {
    let poses = vec![
        ObstaclePose { obstacle: 3, pose: pose_at(1, 1) },
        ObstaclePose { obstacle: 7, pose: pose_at(2, 2) },
        ObstaclePose { obstacle: 7, pose: pose_at(3, 3) },
    ];
    assert_eq!(find_pose(&poses, 7), Some(pose_at(2, 2)));
    assert_eq!(find_pose(&poses, 8), None);
}

#[test]
fn missing_obstacle_abandons_vault() {
    let cfg = VaultConfig::standard();
    let poses = vec![ObstaclePose { obstacle: 3, pose: pose_at(0, 0) }];
    let mut actor = Some(neg_vault(10_000_000));
    assert_eq!(perform_vault(&cfg, &actor, 10_100_000, &poses), DriveOutcome::ObstacleMissing);
    let report = tick(&cfg, &mut actor, false, &Vec::new(), &poses, 10_100_000);
    assert_eq!(report.drive, DriveOutcome::ObstacleMissing);
    assert!(!report.completed);
    assert_eq!(actor, None);
}

#[test]
fn vault_over_obstacle_from_edge_to_completion() {
    let cfg = VaultConfig::standard();
    let obstacle_pose = pose_at(100_000, 100_000);
    let poses = vec![ObstaclePose { obstacle: 7, pose: obstacle_pose }];
    let contacts = vec![contact(7, Some(-700_000))];
    let mut actor: Option<VaultState> = None;

    let report = tick(&cfg, &mut actor, true, &contacts, &poses, 10_000_000);
    assert_eq!(report.trigger, Ok(true));
    assert_eq!(actor, Some(neg_vault(10_000_000)));
    assert_eq!(report.drive, DriveOutcome::Moved(Vec2i::new(100_000, 100_000)));
    assert!(!report.completed);

    let half = Completion::of(&cfg, &actor.unwrap(), 10_125_000);
    assert_eq!(half.elapsed * 2, half.duration as i128);
    let report = tick(&cfg, &mut actor, false, &contacts, &poses, 10_125_000);
    assert_eq!(report.trigger, Ok(false));
    assert_eq!(report.drive, DriveOutcome::Moved(Vec2i::new(100_000, 100_000 - 35_000)));
    assert!(actor.is_some());

    let report = tick(&cfg, &mut actor, false, &contacts, &poses, 10_260_000);
    assert_eq!(report.drive, DriveOutcome::Moved(Vec2i::new(100_000, 30_000)));
    assert!(report.completed);
    assert_eq!(actor, None);

    let report = tick(&cfg, &mut actor, false, &contacts, &poses, 10_270_000);
    assert_eq!(report.drive, DriveOutcome::Idle);
    assert!(!report.completed);
}
