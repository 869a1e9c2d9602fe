//! The chain of one leg and the solver that bends it towards a target.
//!
//! A chain is a row of joints held together by rigid segments. Its first
//! joint follows an anchor on the body; its last joint reaches for a target.
//! One round of the solver pulls the chain to the target from the far end,
//! pins it back to the anchor from the near end, and then turns the first
//! segment so that the knee bends the preferred way.

use vstd::prelude::*;
use bevy::math::{FloatOrd, Vec3};
use crate::rotations::{composed, euler_angles, from_euler_angles, inverse, looking_at, rotated};
use crate::vector::{
    backward, distance, less_than, negated, plus, reach, reach_toward, scalar, scalar_less,
    scalar_negated, scalar_of, scalar_plus, scalar_sum, scaled, vec3_distance, vec3_sum, world_up,
};

verus! {

/// One leg's skeleton.
pub struct IkChain {
    /// The anchor: where the first joint belongs. It moves with the body and
    /// the joints follow at the next solve.
    pub start: Vec3,
    /// The joints, first to last.
    pub points: Vec<Vec3>,
    /// The rest length of each segment, first to last.
    pub lengths: Vec<FloatOrd>,
}

/// One segment of a chain: its two end joints and its rest length.
pub struct ChainSegment {
    pub start: Vec3,
    pub end: Vec3,
    pub length: FloatOrd,
}

/// What a chain is: an anchor, the joints in order, and the rest length of
/// the segment after each joint but the last.
pub struct ChainModel {
    pub anchor: Vec3,
    pub joints: Seq<Vec3>,
    pub lengths: Seq<FloatOrd>,
}

/// The distance from each point to the next.
pub open spec fn segment_lengths(points: Seq<Vec3>) -> Seq<FloatOrd> {
    Seq::new((points.len() - 1) as nat, |i: int| vec3_distance(points[i], points[i + 1]))
}

/// The number of rounds that a solve of `iterations` iterations makes: none
/// for a count below one.
pub open spec fn rounds_of(iterations: i32) -> nat {
    if iterations > 0 {
        iterations as nat
    } else {
        0
    }
}

/// The pitch to add to a knee whose pitch is `pitch`: what it lacks to reach
/// `epsilon` if it is below, and nothing otherwise. A pitch that is no number
/// is below nothing and is left alone.
pub open spec fn pitch_shortfall(pitch: FloatOrd, epsilon: FloatOrd) -> FloatOrd {
    if scalar_less(pitch, epsilon) {
        scalar_sum(scalar_negated(pitch), epsilon)
    } else {
        scalar_of(0)
    }
}

impl ChainModel {
    /// At least one segment, and one rest length for each.
    pub open spec fn well_formed(self) -> bool {
        &&& self.joints.len() >= 2
        &&& self.lengths.len() + 1 == self.joints.len()
    }

    /// Joint `i` after the backward pass. The last joint is put on the
    /// target. Every other joint is put on the line from its new successor
    /// to its own old place, one rest length from the successor.
    pub open spec fn backward_joint(self, target: Vec3, i: int) -> Vec3
        decreases self.joints.len() - i,
    {
        if i >= self.joints.len() - 1 {
            target
        } else {
            reach_toward(self.backward_joint(target, i + 1), self.joints[i], self.lengths[i])
        }
    }

    /// Joint `i` after the forward pass. The first joint is put on the
    /// anchor. Every other joint is put on the line from its new predecessor
    /// to its own old place, one rest length from the predecessor.
    pub open spec fn forward_joint(self, i: int) -> Vec3
        decreases i,
    {
        if i <= 0 {
            self.anchor
        } else {
            reach_toward(self.forward_joint(i - 1), self.joints[i], self.lengths[i - 1])
        }
    }

    /// The chain after the backward pass towards `target`.
    pub open spec fn pulled_to(self, target: Vec3) -> ChainModel {
        ChainModel {
            anchor: self.anchor,
            joints: Seq::new(self.joints.len(), |i: int| self.backward_joint(target, i)),
            lengths: self.lengths,
        }
    }

    /// The chain after the forward pass.
    pub open spec fn pinned(self) -> ChainModel {
        ChainModel {
            anchor: self.anchor,
            joints: Seq::new(self.joints.len(), |i: int| self.forward_joint(i)),
            lengths: self.lengths,
        }
    }

    /// The chain with its second joint put at `offset` from the first.
    pub open spec fn bent(self, offset: Vec3) -> ChainModel {
        ChainModel {
            anchor: self.anchor,
            joints: self.joints.update(1, vec3_sum(self.joints[0], offset)),
            lengths: self.lengths,
        }
    }

    /// Whether `after` can come out of one round of the solver on `self`:
    /// the backward pass, the forward pass, and the second joint put
    /// somewhere relative to the first.
    pub open spec fn round_gives(self, target: Vec3, after: ChainModel) -> bool {
        exists|offset: Vec3| after == #[trigger] self.pulled_to(target).pinned().bent(offset)
    }

    /// Whether `states` is a run of the solver that starts at `self`: each
    /// state comes out of one round on the state before it.
    pub open spec fn runs_through(self, target: Vec3, states: Seq<ChainModel>) -> bool {
        &&& states.len() >= 1
        &&& states[0] == self
        &&& forall|k: int|
            0 <= k < states.len() - 1 ==> #[trigger] states[k].round_gives(target, states[k + 1])
    }

    /// Whether `after` can come out of `rounds` rounds of the solver on
    /// `self`.
    pub open spec fn rounds_give(self, target: Vec3, rounds: nat, after: ChainModel) -> bool {
        exists|states: Seq<ChainModel>|
            #[trigger] self.runs_through(target, states) && states.len() == rounds + 1
                && states.last() == after
    }
}

impl View for IkChain {
    type V = ChainModel;

    open spec fn view(&self) -> ChainModel {
        ChainModel { anchor: self.start, joints: self.points@, lengths: self.lengths@ }
    }
}

/// The backward pass puts the last joint exactly on the target, and each
/// joint before it one reach from the new place of its successor towards its
/// own old place.
pub proof fn lemma_backward_pass_steps(chain: ChainModel, target: Vec3, i: int)
    requires
        chain.well_formed(),
        0 <= i < chain.joints.len(),
    ensures
        chain.pulled_to(target).well_formed(),
        chain.pulled_to(target).joints.last() == target,
        i < chain.joints.len() - 1 ==> chain.pulled_to(target).joints[i] == reach_toward(
            chain.pulled_to(target).joints[i + 1],
            chain.joints[i],
            chain.lengths[i],
        ),
{
}

/// The forward pass puts the first joint exactly on the anchor, and each
/// joint after it one reach from the new place of its predecessor towards
/// its own old place.
pub proof fn lemma_forward_pass_steps(chain: ChainModel, i: int)
    requires
        chain.well_formed(),
        0 <= i < chain.joints.len(),
    ensures
        chain.pinned().well_formed(),
        chain.pinned().joints[0] == chain.anchor,
        i >= 1 ==> chain.pinned().joints[i] == reach_toward(
            chain.pinned().joints[i - 1],
            chain.joints[i],
            chain.lengths[i - 1],
        ),
{
}

/// After one round the first joint is on the anchor, and the chain has the
/// anchor, the rest lengths and the number of joints it had.
pub proof fn lemma_round_pins_anchor(before: ChainModel, target: Vec3, after: ChainModel)
    requires
        before.well_formed(),
        before.round_gives(target, after),
    ensures
        after.well_formed(),
        after.anchor == before.anchor,
        after.lengths == before.lengths,
        after.joints.len() == before.joints.len(),
        after.joints[0] == after.anchor,
{
}

/// Every state of a run has the anchor, the rest lengths and the number of
/// joints of the first, and every state but the first has its first joint on
/// the anchor.
pub proof fn lemma_run_keeps_shape(before: ChainModel, target: Vec3, states: Seq<ChainModel>, k: int)
    requires
        before.well_formed(),
        before.runs_through(target, states),
        0 <= k < states.len(),
    ensures
        states[k].well_formed(),
        states[k].anchor == before.anchor,
        states[k].lengths == before.lengths,
        states[k].joints.len() == before.joints.len(),
        k >= 1 ==> states[k].joints[0] == states[k].anchor,
    decreases k,
{
    if k > 0 {
        lemma_run_keeps_shape(before, target, states, k - 1);
        assert(states[k - 1].round_gives(target, states[k - 1 + 1]));
        lemma_round_pins_anchor(states[k - 1], target, states[k]);
    }
}

/// Any number of rounds leaves the chain its anchor, its rest lengths and
/// its number of joints.
pub proof fn lemma_rounds_keep_shape(
    before: ChainModel,
    target: Vec3,
    rounds: nat,
    after: ChainModel,
)
    requires
        before.well_formed(),
        before.rounds_give(target, rounds, after),
    ensures
        after.well_formed(),
        after.anchor == before.anchor,
        after.lengths == before.lengths,
        after.joints.len() == before.joints.len(),
{
    let states = choose|states: Seq<ChainModel>|
        #[trigger] before.runs_through(target, states) && states.len() == rounds + 1
            && states.last() == after;
    lemma_run_keeps_shape(before, target, states, rounds as int);
}

/// Anchor pin: after a solve of at least one round the first joint is
/// exactly on the anchor.
pub proof fn lemma_solve_pins_anchor(
    before: ChainModel,
    target: Vec3,
    rounds: nat,
    after: ChainModel,
)
    requires
        before.well_formed(),
        rounds >= 1,
        before.rounds_give(target, rounds, after),
    ensures
        after.joints[0] == after.anchor,
{
    let states = choose|states: Seq<ChainModel>|
        #[trigger] before.runs_through(target, states) && states.len() == rounds + 1
            && states.last() == after;
    lemma_run_keeps_shape(before, target, states, rounds as int);
}

impl IkChain {
    /// A chain through `points`, anchored at the first of them, each segment
    /// as long as the points are apart.
    pub fn new(points: Vec<Vec3>) -> (chain: Self)
        requires
            points.len() >= 2,
        ensures
            chain@.well_formed(),
            chain@.anchor == points@[0],
            chain@.joints == points@,
            chain@.lengths == segment_lengths(points@),
    {
        let lengths = calculate_chain_lengths(&points);
        Self { start: points[0], points, lengths }
    }

    /// The segment after joint `idx`.
    pub fn get_segment(&self, idx: usize) -> (segment: ChainSegment)
        requires
            self@.well_formed(),
            idx < self@.joints.len() - 1,
        ensures
            segment.start == self@.joints[idx as int],
            segment.end == self@.joints[idx + 1],
            segment.length == self@.lengths[idx as int],
    {
        assert(idx + 1 < self.points.len());
        ChainSegment {
            start: self.points[idx],
            end: self.points[idx + 1],
            length: self.lengths[idx],
        }
    }

    /// Moves the anchor by `delta` and leaves the joints where they are.
    pub fn move_start(&mut self, delta: Vec3)
        ensures
            final(self).start == vec3_sum(old(self).start, delta),
            final(self).points == old(self).points,
            final(self).lengths == old(self).lengths,
    {
        self.start = plus(self.start, delta);
    }
}

/// The distance from each point to the next.
pub fn calculate_chain_lengths(points: &Vec<Vec3>) -> (lengths: Vec<FloatOrd>)
    requires
        points.len() >= 1,
    ensures
        lengths@ == segment_lengths(points@),
{
    let mut lengths: Vec<FloatOrd> = Vec::new();
    let mut idx: usize = 0;
    while idx < points.len() - 1
        invariant
            points.len() >= 1,
            idx <= points.len() - 1,
            lengths.len() == idx,
            forall|j: int| 0 <= j < idx ==> lengths@[j] == vec3_distance(points@[j], points@[j + 1]),
        decreases points.len() - idx,
    {
        let start = points[idx];
        let end = points[idx + 1];
        lengths.push(distance(start, end));
        idx += 1;
    }
    lengths
}

/// The backward pass: the last joint goes to the target and every joint
/// before it follows, each one rest length from its successor.
pub fn backward_fabric_pass(chain: &mut IkChain, target: Vec3)
    requires
        old(chain)@.well_formed(),
    ensures
        final(chain)@ == old(chain)@.pulled_to(target),
{
    let points_count = chain.points.len();
    chain.points[points_count - 1] = target;
    let mut i: usize = points_count - 1;
    while i > 0
        invariant
            old(chain)@.well_formed(),
            old(chain).points.len() == points_count,
            chain.start == old(chain).start,
            chain.lengths@ == old(chain).lengths@,
            chain.points.len() == points_count,
            i < points_count,
            forall|j: int|
                i <= j < points_count ==> chain.points@[j] == old(chain)@.backward_joint(target, j),
            forall|j: int| 0 <= j < i ==> chain.points@[j] == old(chain).points@[j],
        decreases i,
    {
        i -= 1;
        let segment = chain.get_segment(i);
        let moved = reach(segment.end, segment.start, segment.length);
        chain.points[i] = moved;
    }
    assert(chain@.joints =~= old(chain)@.pulled_to(target).joints);
}

/// The forward pass: the first joint goes back to the anchor and every joint
/// after it follows, each one rest length from its predecessor.
pub fn forward_fabric_pass(chain: &mut IkChain)
    requires
        old(chain)@.well_formed(),
    ensures
        final(chain)@ == old(chain)@.pinned(),
{
    let points_count = chain.points.len();
    chain.points[0] = chain.start;
    let mut i: usize = 0;
    while i < points_count - 1
        invariant
            old(chain)@.well_formed(),
            old(chain).points.len() == points_count,
            chain.start == old(chain).start,
            chain.lengths@ == old(chain).lengths@,
            chain.points.len() == points_count,
            i < points_count,
            forall|j: int| 0 <= j <= i ==> chain.points@[j] == old(chain)@.forward_joint(j),
            forall|j: int| i < j < points_count ==> chain.points@[j] == old(chain).points@[j],
        decreases points_count - i,
    {
        let segment = chain.get_segment(i);
        let moved = reach(segment.start, segment.end, segment.length);
        assert(segment.start == old(chain)@.forward_joint(i as int));
        chain.points[i + 1] = moved;
        i += 1;
    }
    assert(chain@.joints =~= old(chain)@.pinned().joints);
}

/// The three angles of the turn that corrects a knee whose turn against the
/// leg has the given `pitch` and `yaw`: the pitch that is lacking, the yaw
/// undone, and no roll.
pub fn bend_adjustment(pitch: FloatOrd, yaw: FloatOrd, epsilon: FloatOrd) -> (angles: (
    FloatOrd,
    FloatOrd,
    FloatOrd,
))
    ensures
        angles.0 == pitch_shortfall(pitch, epsilon),
        angles.1 == scalar_negated(yaw),
        angles.2 == scalar_of(0),
{
    let x_adjustment = if less_than(pitch, epsilon) {
        scalar_plus(negated(pitch), epsilon)
    } else {
        scalar(0)
    };
    (x_adjustment, negated(yaw), scalar(0))
}

/// Puts the knee, the second joint, at `offset` from the first joint.
pub fn place_knee(chain: &mut IkChain, offset: Vec3)
    requires
        old(chain)@.well_formed(),
    ensures
        final(chain)@ == old(chain)@.bent(offset),
{
    chain.points[1] = plus(chain.points[0], offset);
}

/// The bend bias: turns the first segment so that the knee bends forward by
/// at least `bend_epsilon` radians against the line from the first joint to
/// the last, with the sideways turn against that line undone. Only the knee
/// moves. It is put one rest length from the first joint as far as rounding
/// allows; the segment is not measured again here.
///
/// The turn goes through angles and quaternion products, which carry no
/// name, so all that is stated of the knee's new place is that it is some
/// offset from the first joint.
pub fn constrain_chain_orientation(chain: &mut IkChain, bend_epsilon: FloatOrd)
    requires
        old(chain)@.well_formed(),
    ensures
        exists|offset: Vec3| final(chain)@ == #[trigger] old(chain)@.bent(offset),
{
    let up = world_up();
    let first_point = chain.points[0];
    let last_point = chain.points[chain.points.len() - 1];
    let leg_orientation = looking_at(first_point, last_point, up);

    let middle_point = chain.points[1];
    let joint_orientation = looking_at(first_point, middle_point, up);

    let delta_orientation = composed(inverse(leg_orientation), joint_orientation);
    let (pitch, yaw, _) = euler_angles(delta_orientation);

    let (x_adjustment, y_adjustment, z_adjustment) = bend_adjustment(pitch, yaw, bend_epsilon);
    let orientation_adjustment = from_euler_angles(x_adjustment, y_adjustment, z_adjustment);

    let adjusted_orientation = composed(joint_orientation, orientation_adjustment);
    let segment = chain.get_segment(0);
    let offset = rotated(adjusted_orientation, scaled(backward(), segment.length));

    place_knee(chain, offset);
}

/// Solves the chain towards `target`: `iterations` rounds of backward pass,
/// forward pass and bend bias. A count of zero or less leaves the chain as
/// it is.
pub fn solve_chain_towards_target(
    chain: &mut IkChain,
    target: Vec3,
    iterations: i32,
    bend_epsilon: FloatOrd,
)
    requires
        old(chain)@.well_formed(),
    ensures
        old(chain)@.rounds_give(target, rounds_of(iterations), final(chain)@),
        final(chain)@.well_formed(),
        final(chain)@.anchor == old(chain)@.anchor,
        final(chain)@.lengths == old(chain)@.lengths,
        final(chain)@.joints.len() == old(chain)@.joints.len(),
        iterations >= 1 ==> final(chain)@.joints[0] == final(chain)@.anchor,
{
    let ghost mut states: Seq<ChainModel> = seq![chain@];
    let mut done: i32 = 0;
    while done < iterations
        invariant
            0 <= done,
            done <= iterations || done == 0,
            old(chain)@.well_formed(),
            old(chain)@.runs_through(target, states),
            states.len() == done + 1,
            states.last() == chain@,
        decreases iterations - done,
    {
        proof {
            lemma_run_keeps_shape(old(chain)@, target, states, done as int);
        }
        backward_fabric_pass(chain, target);
        forward_fabric_pass(chain);
        constrain_chain_orientation(chain, bend_epsilon);
        proof {
            states = states.push(chain@);
        }
        done += 1;
    }
    proof {
        lemma_run_keeps_shape(old(chain)@, target, states, done as int);
    }
}

} // verus!
