use bevy::math::{EulerRot, FloatOrd, Quat, Vec3};
use bevy::transform::components::Transform;
use spider_ik::kin::{
    backward_fabric_pass, bend_adjustment, calculate_chain_lengths, constrain_chain_orientation,
    forward_fabric_pass, place_knee, solve_chain_towards_target, IkChain,
};

const TOLERANCE: f32 = 1e-4;
const BEND_EPSILON: f32 = 0.01;

fn leg_points() -> Vec<Vec3> {
    vec![Vec3::new(0.0, 0.0, 0.0), Vec3::new(1.0, 3.0, 0.0), Vec3::new(2.0, 0.0, 0.0)]
}

fn leg_chain() -> IkChain {
    IkChain::new(leg_points())
}

fn passes(chain: &mut IkChain, target: Vec3, rounds: usize) {
    for _ in 0..rounds {
        backward_fabric_pass(chain, target);
        forward_fabric_pass(chain);
    }
}

fn total_length(chain: &IkChain) -> f32 {
    chain.lengths.iter().map(|length| length.0).sum()
}

#[test]
fn new_chain_is_anchored_at_its_first_point() {
    let chain = leg_chain();
    assert_eq!(chain.start, Vec3::new(0.0, 0.0, 0.0));
    assert_eq!(chain.points, leg_points());
}

#[test]
fn new_chain_measures_its_segments() {
    let chain = leg_chain();
    assert_eq!(chain.lengths.len(), 2);
    assert_eq!(chain.lengths[0].0, 10.0_f32.sqrt());
    assert_eq!(chain.lengths[1].0, 10.0_f32.sqrt());
    assert!((chain.lengths[0].0 - 3.162).abs() < 1e-3);
}

#[test]
fn new_chain_of_two_points_has_one_segment() {
    let chain = IkChain::new(vec![Vec3::new(1.0, 1.0, 1.0), Vec3::new(1.0, 4.0, 5.0)]);
    assert_eq!(chain.start, Vec3::new(1.0, 1.0, 1.0));
    assert_eq!(chain.points.len(), 2);
    assert_eq!(chain.lengths, vec![FloatOrd(5.0)]);
}

#[test]
fn chain_lengths_are_the_distances_between_neighbours() {
    let points = vec![
        Vec3::new(0.0, 0.0, 0.0),
        Vec3::new(3.0, 4.0, 0.0),
        Vec3::new(3.0, 4.0, 12.0),
        Vec3::new(3.0, 4.0, 12.0),
    ];
    let lengths = calculate_chain_lengths(&points);
    assert_eq!(lengths, vec![FloatOrd(5.0), FloatOrd(12.0), FloatOrd(0.0)]);
}

#[test]
fn chain_lengths_of_one_point_are_none() {
    assert!(calculate_chain_lengths(&vec![Vec3::ONE]).is_empty());
}

#[test]
fn get_segment_gives_ends_and_rest_length() {
    let chain = leg_chain();
    let first = chain.get_segment(0);
    assert_eq!(first.start, Vec3::new(0.0, 0.0, 0.0));
    assert_eq!(first.end, Vec3::new(1.0, 3.0, 0.0));
    assert_eq!(first.length, chain.lengths[0]);
    let second = chain.get_segment(1);
    assert_eq!(second.start, Vec3::new(1.0, 3.0, 0.0));
    assert_eq!(second.end, Vec3::new(2.0, 0.0, 0.0));
    assert_eq!(second.length.0, 10.0_f32.sqrt());
}

#[test]
fn move_start_moves_the_anchor_only() {
    let mut chain = leg_chain();
    chain.move_start(Vec3::new(0.5, -1.0, 2.0));
    assert_eq!(chain.start, Vec3::new(0.5, -1.0, 2.0));
    assert_eq!(chain.points, leg_points());
    assert_eq!(chain.lengths, leg_chain().lengths);
    chain.move_start(Vec3::new(0.5, 0.0, 0.0));
    assert_eq!(chain.start, Vec3::new(1.0, -1.0, 2.0));
}

#[test]
fn backward_pass_puts_the_last_joint_on_the_target() {
    let mut chain = leg_chain();
    let target = Vec3::new(3.0, 1.0, -1.0);
    backward_fabric_pass(&mut chain, target);
    assert_eq!(chain.points[2], target);
    assert_eq!(chain.start, Vec3::ZERO);
}

#[test]
fn backward_pass_places_each_joint_from_its_successor() {
    let mut chain = leg_chain();
    let target = Vec3::new(3.0, 1.0, -1.0);
    let length = 10.0_f32.sqrt();
    let knee = target + (Vec3::new(1.0, 3.0, 0.0) - target).normalize_or_zero() * length;
    let hip = knee + (Vec3::new(0.0, 0.0, 0.0) - knee).normalize_or_zero() * length;
    backward_fabric_pass(&mut chain, target);
    assert_eq!(chain.points, vec![hip, knee, target]);
    assert!((chain.points[1].distance(chain.points[2]) - length).abs() < TOLERANCE);
    assert!((chain.points[0].distance(chain.points[1]) - length).abs() < TOLERANCE);
}

#[test]
fn backward_pass_along_an_axis() {
    let mut chain = IkChain::new(vec![Vec3::ZERO, Vec3::new(2.0, 0.0, 0.0), Vec3::new(5.0, 0.0, 0.0)]);
    backward_fabric_pass(&mut chain, Vec3::new(10.0, 0.0, 0.0));
    assert_eq!(
        chain.points,
        vec![Vec3::new(5.0, 0.0, 0.0), Vec3::new(7.0, 0.0, 0.0), Vec3::new(10.0, 0.0, 0.0)]
    );
}

#[test]
fn forward_pass_puts_the_first_joint_on_the_anchor() {
    let mut chain = leg_chain();
    chain.move_start(Vec3::new(0.0, 1.0, 0.0));
    forward_fabric_pass(&mut chain);
    assert_eq!(chain.points[0], Vec3::new(0.0, 1.0, 0.0));
    assert_eq!(chain.points[0], chain.start);
}

#[test]
fn forward_pass_places_each_joint_from_its_predecessor() {
    let mut chain = leg_chain();
    chain.move_start(Vec3::new(0.0, 1.0, 0.5));
    let length = 10.0_f32.sqrt();
    let hip = Vec3::new(0.0, 1.0, 0.5);
    let knee = hip + (Vec3::new(1.0, 3.0, 0.0) - hip).normalize_or_zero() * length;
    let foot = knee + (Vec3::new(2.0, 0.0, 0.0) - knee).normalize_or_zero() * length;
    forward_fabric_pass(&mut chain);
    assert_eq!(chain.points, vec![hip, knee, foot]);
}

#[test]
fn forward_pass_along_an_axis() {
    let mut chain = IkChain::new(vec![Vec3::ZERO, Vec3::new(2.0, 0.0, 0.0), Vec3::new(5.0, 0.0, 0.0)]);
    chain.move_start(Vec3::new(-1.0, 0.0, 0.0));
    forward_fabric_pass(&mut chain);
    assert_eq!(
        chain.points,
        vec![Vec3::new(-1.0, 0.0, 0.0), Vec3::new(1.0, 0.0, 0.0), Vec3::new(4.0, 0.0, 0.0)]
    );
}

#[test]
fn passes_keep_the_rest_lengths() {
    let mut chain = leg_chain();
    let before = chain.lengths.clone();
    passes(&mut chain, Vec3::new(3.0, -1.0, 2.0), 5);
    assert_eq!(chain.lengths, before);
    assert_eq!(chain.points.len(), 3);
}

#[test]
fn rigidity_after_passes_towards_a_reachable_target() {
    for target in [
        Vec3::new(2.0, 0.0, 0.0),
        Vec3::new(4.0, -0.5, 0.0),
        Vec3::new(1.0, -2.0, 3.0),
        Vec3::new(-3.0, 3.0, 3.0),
    ] {
        let mut chain = leg_chain();
        assert!(target.distance(chain.start) <= total_length(&chain));
        passes(&mut chain, target, 30);
        for i in 0..2 {
            let segment = chain.get_segment(i);
            assert!((segment.start.distance(segment.end) - segment.length.0).abs() < TOLERANCE);
        }
    }
}

#[test]
fn end_reaches_a_reachable_target() {
    for target in [
        Vec3::new(2.0, 0.0, 0.0),
        Vec3::new(4.0, -0.5, 0.0),
        Vec3::new(1.0, -2.0, 3.0),
        Vec3::new(-3.0, 3.0, 3.0),
    ] {
        let mut chain = leg_chain();
        passes(&mut chain, target, 30);
        assert!(chain.points[2].distance(target) < TOLERANCE);
        let mut solved = leg_chain();
        solve_chain_towards_target(&mut solved, target, 30, FloatOrd(BEND_EPSILON));
        assert!(solved.points[2].distance(target) < TOLERANCE);
    }
}

#[test]
fn end_stretches_towards_an_unreachable_target() {
    let target = Vec3::new(0.0, 0.0, -50.0);
    let mut chain = leg_chain();
    passes(&mut chain, target, 10);
    let total = total_length(&chain);
    assert!((chain.points[2].distance(target) - (50.0 - total)).abs() < TOLERANCE);
    assert!(chain.points[1].distance(Vec3::new(0.0, 0.0, -total / 2.0)) < TOLERANCE);
    assert!(chain.points[2].distance(Vec3::new(0.0, 0.0, -total)) < TOLERANCE);
}

#[test]
fn anchor_pin_after_a_solve() {
    let mut chain = leg_chain();
    chain.move_start(Vec3::new(0.25, 0.5, -0.75));
    solve_chain_towards_target(&mut chain, Vec3::new(2.0, 0.0, 0.0), 1, FloatOrd(BEND_EPSILON));
    assert_eq!(chain.points[0], chain.start);
    assert_eq!(chain.points[0], Vec3::new(0.25, 0.5, -0.75));
    chain.move_start(Vec3::new(1.0, 0.0, 0.0));
    solve_chain_towards_target(&mut chain, Vec3::new(90.0, 0.0, 0.0), 4, FloatOrd(BEND_EPSILON));
    assert_eq!(chain.points[0], Vec3::new(1.25, 0.5, -0.75));
}

#[test]
fn solve_without_rounds_changes_nothing() {
    let mut chain = leg_chain();
    chain.move_start(Vec3::new(1.0, 0.0, 0.0));
    solve_chain_towards_target(&mut chain, Vec3::new(5.0, 5.0, 5.0), 0, FloatOrd(BEND_EPSILON));
    assert_eq!(chain.points, leg_points());
    solve_chain_towards_target(&mut chain, Vec3::new(5.0, 5.0, 5.0), -3, FloatOrd(BEND_EPSILON));
    assert_eq!(chain.points, leg_points());
    assert_eq!(chain.start, Vec3::new(1.0, 0.0, 0.0));
}

#[test]
fn solve_is_rounds_of_the_three_passes() {
    let target = Vec3::new(3.0, 1.0, 1.0);
    let mut solved = leg_chain();
    solve_chain_towards_target(&mut solved, target, 3, FloatOrd(BEND_EPSILON));
    let mut stepped = leg_chain();
    for _ in 0..3 {
        backward_fabric_pass(&mut stepped, target);
        forward_fabric_pass(&mut stepped);
        constrain_chain_orientation(&mut stepped, FloatOrd(BEND_EPSILON));
    }
    assert_eq!(solved.points, stepped.points);
    assert_eq!(solved.lengths, stepped.lengths);
    assert_eq!(solved.start, stepped.start);
}

#[test]
fn degenerate_target_on_the_anchor_is_stable() {
    let mut chain = leg_chain();
    solve_chain_towards_target(&mut chain, Vec3::ZERO, 10, FloatOrd(BEND_EPSILON));
    for point in chain.points.iter() {
        assert!(point.is_finite());
    }
    assert_eq!(chain.points[0], Vec3::ZERO);
    assert!(chain.points[2].distance(Vec3::ZERO) < TOLERANCE);
    let mut passed = leg_chain();
    passes(&mut passed, Vec3::ZERO, 10);
    for point in passed.points.iter() {
        assert!(point.is_finite());
    }
    assert!(passed.points[2].distance(Vec3::ZERO) < TOLERANCE);
}

#[test]
fn collapsed_chain_is_stable() {
    let point = Vec3::new(1.0, 2.0, 3.0);
    let mut chain = IkChain::new(vec![point, point, point]);
    solve_chain_towards_target(&mut chain, point, 3, FloatOrd(BEND_EPSILON));
    for joint in chain.points.iter() {
        assert!(joint.is_finite());
        assert_eq!(*joint, point);
    }
}

#[test]
fn scenario_reachable_target() {
    let mut chain = leg_chain();
    assert!((chain.lengths[0].0 - 3.162).abs() < 1e-3);
    assert!((chain.lengths[1].0 - 3.162).abs() < 1e-3);
    solve_chain_towards_target(&mut chain, Vec3::new(2.0, 0.0, 0.0), 10, FloatOrd(BEND_EPSILON));
    assert_eq!(chain.points[0], Vec3::new(0.0, 0.0, 0.0));
    assert!(chain.points[2].distance(Vec3::new(2.0, 0.0, 0.0)) < TOLERANCE);
    assert!((chain.points[0].distance(chain.points[1]) - 3.162).abs() < 1e-3);
    assert!((chain.points[0].distance(chain.points[1]) - chain.lengths[0].0).abs() < TOLERANCE);
}

#[test]
fn scenario_unreachable_target() {
    let target = Vec3::new(100.0, 0.0, 0.0);
    let mut chain = leg_chain();
    passes(&mut chain, target, 10);
    for point in chain.points.iter() {
        assert!(point.y.abs() < TOLERANCE);
        assert!(point.z.abs() < TOLERANCE);
    }
    assert!((chain.points[1].x - 3.1623).abs() < 1e-3);
    assert!((chain.points[2].distance(chain.start) - 6.324).abs() < 1e-3);
    assert!(chain.points[2].distance(target) > 90.0);
    assert!((chain.points[2].distance(target) - (100.0 - total_length(&chain))).abs() < TOLERANCE);
}

#[test]
fn scenario_unreachable_target_with_the_bend_bias() {
    let target = Vec3::new(100.0, 0.0, 0.0);
    let mut chain = leg_chain();
    solve_chain_towards_target(&mut chain, target, 10, FloatOrd(BEND_EPSILON));
    assert_eq!(chain.points[0], Vec3::ZERO);
    assert!((chain.points[2].distance(chain.start) - 6.324).abs() < 1e-3);
    assert!(chain.points[2].y.abs() < 1e-3);
    assert!(chain.points[2].z.abs() < 1e-3);
    assert!(chain.points[2].distance(target) > 90.0);
    let knee_lift = chain.lengths[0].0 * BEND_EPSILON.sin();
    assert!((chain.points[1].y - knee_lift).abs() < 1e-3);
    assert!(chain.points[1].z.abs() < 1e-3);
}

#[test]
fn bend_adjustment_fills_the_pitch_up_to_epsilon() {
    let (x, _, _) = bend_adjustment(FloatOrd(0.0), FloatOrd(0.0), FloatOrd(0.01));
    assert_eq!(x, FloatOrd(0.01));
    let (x, _, _) = bend_adjustment(FloatOrd(-0.5), FloatOrd(0.0), FloatOrd(0.25));
    assert_eq!(x, FloatOrd(0.75));
    let (x, _, _) = bend_adjustment(FloatOrd(0.125), FloatOrd(0.0), FloatOrd(0.5));
    assert_eq!(x, FloatOrd(0.375));
}

#[test]
fn bend_adjustment_adds_no_pitch_from_epsilon_on() {
    let (x, _, _) = bend_adjustment(FloatOrd(0.01), FloatOrd(0.3), FloatOrd(0.01));
    assert_eq!(x.0, 0.0);
    let (x, _, _) = bend_adjustment(FloatOrd(1.0), FloatOrd(0.3), FloatOrd(0.01));
    assert_eq!(x.0, 0.0);
    let (x, _, _) = bend_adjustment(FloatOrd(f32::NAN), FloatOrd(0.3), FloatOrd(0.01));
    assert_eq!(x.0, 0.0);
}

#[test]
fn bend_adjustment_undoes_the_yaw_and_adds_no_roll() {
    let (_, y, z) = bend_adjustment(FloatOrd(0.2), FloatOrd(0.75), FloatOrd(0.01));
    assert_eq!(y, FloatOrd(-0.75));
    assert_eq!(z.0, 0.0);
    let (_, y, z) = bend_adjustment(FloatOrd(-0.2), FloatOrd(-1.5), FloatOrd(0.01));
    assert_eq!(y, FloatOrd(1.5));
    assert_eq!(z.0, 0.0);
}

#[test]
fn place_knee_puts_the_second_joint_relative_to_the_first() {
    let mut chain = IkChain::new(vec![
        Vec3::new(1.0, 1.0, 1.0),
        Vec3::new(1.0, 3.0, 0.0),
        Vec3::new(2.0, 0.0, 0.0),
    ]);
    chain.move_start(Vec3::new(5.0, 5.0, 5.0));
    let lengths = chain.lengths.clone();
    place_knee(&mut chain, Vec3::new(0.5, -2.0, 4.0));
    assert_eq!(
        chain.points,
        vec![Vec3::new(1.0, 1.0, 1.0), Vec3::new(1.5, -1.0, 5.0), Vec3::new(2.0, 0.0, 0.0)]
    );
    assert_eq!(chain.lengths, lengths);
    assert_eq!(chain.start, Vec3::new(6.0, 6.0, 6.0));
}

#[test]
fn bend_bias_moves_the_knee_only() {
    let mut chain = leg_chain();
    passes(&mut chain, Vec3::new(4.0, 1.0, 2.0), 3);
    let before = chain.points.clone();
    let lengths = chain.lengths.clone();
    constrain_chain_orientation(&mut chain, FloatOrd(BEND_EPSILON));
    assert_eq!(chain.points[0], before[0]);
    assert_eq!(chain.points[2], before[2]);
    assert_eq!(chain.lengths, lengths);
    assert_eq!(chain.start, Vec3::ZERO);
    assert!((chain.points[0].distance(chain.points[1]) - lengths[0].0).abs() < TOLERANCE);
}

#[test]
fn bend_bias_lifts_a_straight_knee() {
    let mut chain = IkChain::new(vec![Vec3::ZERO, Vec3::new(2.0, 0.0, 0.0), Vec3::new(4.0, 0.0, 0.0)]);
    constrain_chain_orientation(&mut chain, FloatOrd(0.25));
    let knee = chain.points[1];
    assert!(knee.distance(Vec3::new(2.0 * 0.25_f32.cos(), 2.0 * 0.25_f32.sin(), 0.0)) < TOLERANCE);
}

#[test]
fn bend_bias_leaves_a_bent_knee_its_pitch() {
    let mut chain = IkChain::new(vec![Vec3::ZERO, Vec3::new(2.0, 2.0, 0.0), Vec3::new(4.0, 0.0, 0.0)]);
    constrain_chain_orientation(&mut chain, FloatOrd(BEND_EPSILON));
    assert!(chain.points[1].distance(Vec3::new(2.0, 2.0, 0.0)) < TOLERANCE);
}

#[test]
fn bend_bias_is_the_corrected_orientation_applied_to_the_first_segment() {
    let mut chain = leg_chain();
    passes(&mut chain, Vec3::new(3.0, -1.0, 2.0), 2);
    let first = chain.points[0];
    let middle = chain.points[1];
    let last = chain.points[2];
    let leg = Transform::IDENTITY.looking_to(last - first, Vec3::Y).rotation;
    let joint = Transform::IDENTITY.looking_to(middle - first, Vec3::Y).rotation;
    let (pitch, yaw, _) = (leg.inverse() * joint).to_euler(EulerRot::XYZ);
    let correction = if pitch < 0.01 { -pitch + 0.01 } else { 0.0 };
    let adjusted = joint * Quat::from_euler(EulerRot::XYZ, correction, -yaw, 0.0);
    let expected = first + adjusted * (Vec3::NEG_Z * chain.lengths[0].0);
    constrain_chain_orientation(&mut chain, FloatOrd(0.01));
    assert_eq!(chain.points, vec![first, expected, last]);
}

#[test]
fn two_joint_chain_is_solved_too() {
    let mut chain = IkChain::new(vec![Vec3::ZERO, Vec3::new(0.0, 0.0, -2.0)]);
    solve_chain_towards_target(&mut chain, Vec3::new(5.0, 0.0, 0.0), 3, FloatOrd(BEND_EPSILON));
    assert_eq!(chain.points[0], Vec3::ZERO);
    assert!(chain.points[1].is_finite());
    assert!((chain.points[1].length() - 2.0).abs() < TOLERANCE);
}
