//! The walking creature: its legs in two alternating groups, and the rule
//! that replants the feet of one group at a time.
//!
//! While the body moves, the planted feet of the active group fall behind
//! their neutral places. Once the distances add up to more than a threshold
//! the other group becomes active and its feet are replanted.

use vstd::prelude::*;
use bevy::math::{FloatOrd, Quat, Vec3};
use crate::kin::{rounds_of, segment_lengths, solve_chain_towards_target, IkChain};
use crate::leg::AnimatedLeg;
use crate::rotations::{about_axis, facing, looking_towards, rotated, to_radians};
use crate::vector::{
    distance, divided, less_than, minus, plus, scalar, scalar_less, scalar_of, scalar_plus,
    scalar_sum, scaled, unit_or_zero, up_axis, vec3, vec3_difference, vec3_distance, vec3_of,
    vec3_quotient, vec3_scaled, vec3_sum, vec3_unit_or_zero, world_up,
};

verus! {

/// One of the two groups that take turns.
#[derive(Clone, Copy, PartialEq, Eq, Structural, Debug)]
pub enum MovementGroup {
    One,
    Two,
}

impl MovementGroup {
    /// The group that is not this one.
    pub open spec fn other(self) -> MovementGroup {
        match self {
            MovementGroup::One => MovementGroup::Two,
            MovementGroup::Two => MovementGroup::One,
        }
    }
}

/// The gait controller of one creature.
pub struct Spider {
    /// How far the feet of the active group are from their neutral places,
    /// added up, as of the last update.
    pub combined_leg_position_error: FloatOrd,
    /// The active group.
    pub movement_group: MovementGroup,
}

/// One leg of the creature: its chain, its intent and its group.
pub struct SpiderLeg {
    pub chain: IkChain,
    pub leg: AnimatedLeg,
    pub movement_group: MovementGroup,
}

impl SpiderLeg {
    /// The neutral place of the foot: the offset applied to the anchor as it
    /// is now.
    pub open spec fn neutral_target(self) -> Vec3 {
        vec3_sum(self.chain.start, self.leg.reposition_target_offset)
    }

    /// How far the planted foot is from its neutral place.
    pub open spec fn position_error(self) -> FloatOrd {
        vec3_distance(self.neutral_target(), self.leg.current_target)
    }

    /// This leg with its foot replanted at the neutral place.
    pub open spec fn replanted(self) -> SpiderLeg {
        SpiderLeg {
            chain: self.chain,
            leg: AnimatedLeg {
                reposition_target_offset: self.leg.reposition_target_offset,
                current_target: self.neutral_target(),
            },
            movement_group: self.movement_group,
        }
    }

    /// This leg with its anchor moved by `delta`.
    pub open spec fn shifted(self, delta: Vec3) -> SpiderLeg {
        SpiderLeg {
            chain: IkChain {
                start: vec3_sum(self.chain.start, delta),
                points: self.chain.points,
                lengths: self.chain.lengths,
            },
            leg: self.leg,
            movement_group: self.movement_group,
        }
    }
}

/// Whether every leg has a well-formed chain.
pub open spec fn legs_well_formed(legs: Seq<SpiderLeg>) -> bool {
    forall|i: int| 0 <= i < legs.len() ==> (#[trigger] legs[i]).chain@.well_formed()
}

/// The position errors of the legs of `group`, added up from the first leg
/// to the last, starting from zero.
pub open spec fn combined_error(legs: Seq<SpiderLeg>, group: MovementGroup) -> FloatOrd
    decreases legs.len(),
{
    if legs.len() == 0 {
        scalar_of(0)
    } else {
        let before = combined_error(legs.drop_last(), group);
        if legs.last().movement_group == group {
            scalar_sum(before, legs.last().position_error())
        } else {
            before
        }
    }
}

/// The legs with the feet of `group` replanted and the others as they were.
pub open spec fn retargeted(legs: Seq<SpiderLeg>, group: MovementGroup) -> Seq<SpiderLeg> {
    Seq::new(
        legs.len(),
        |i: int|
            if legs[i].movement_group == group {
                legs[i].replanted()
            } else {
                legs[i]
            },
    )
}

/// Where one leg is attached and which way it points, as the creature is
/// put together.
pub struct LegSpawnInfo {
    /// Where the leg is attached, relative to the body.
    pub position_offset: Vec3,
    /// The turn of the leg about the up axis, in degrees.
    pub angle_offset: FloatOrd,
    /// The group that the leg walks with.
    pub movement_group: MovementGroup,
}

/// Where a piece of a leg is drawn: in the middle of its segment, facing
/// along it.
pub struct PiecePlacement {
    pub position: Vec3,
    pub orientation: Quat,
}

/// The reading of one axis of the keys: one step for its positive key, one
/// step back for its negative key.
pub open spec fn axis_input(negative: bool, positive: bool) -> int {
    (if positive { 1int } else { 0int }) - (if negative { 1int } else { 0int })
}

/// The direction that the four keys ask for, of length one or zero: `w` is
/// towards negative z, `s` towards positive z, `a` towards negative x and
/// `d` towards positive x.
pub open spec fn input_direction(w: bool, a: bool, s: bool, d: bool) -> Vec3 {
    vec3_unit_or_zero(
        vec3_of(scalar_of(axis_input(a, d)), scalar_of(0), scalar_of(axis_input(w, s))),
    )
}

/// How far the body moves in a tick: the direction times the time that
/// passed, times the speed.
pub open spec fn movement_delta(direction: Vec3, elapsed: FloatOrd, speed: FloatOrd) -> Vec3 {
    vec3_scaled(vec3_scaled(direction, elapsed), speed)
}

/// The middle of the segment from `start` to `end`, seen from `origin`, and
/// the orientation along the segment.
pub open spec fn piece_placement(
    start: Vec3,
    end: Vec3,
    length: FloatOrd,
    origin: Vec3,
) -> PiecePlacement {
    let direction = vec3_unit_or_zero(vec3_difference(end, start));
    let middle = vec3_sum(start, vec3_quotient(vec3_scaled(direction, length), scalar_of(2)));
    PiecePlacement {
        position: vec3_difference(middle, origin),
        orientation: facing(direction, up_axis()),
    }
}

/// Whether `after` is `before` with its chain solved towards its planted
/// foot by `rounds` rounds.
pub open spec fn leg_solved(before: SpiderLeg, rounds: nat, after: SpiderLeg) -> bool {
    &&& after.leg == before.leg
    &&& after.movement_group == before.movement_group
    &&& after.chain@.well_formed()
    &&& before.chain@.rounds_give(before.leg.current_target, rounds, after.chain@)
}

impl LegSpawnInfo {
    /// A leg attached at `pos` from the body, turned by `angle` degrees, in
    /// `group`.
    pub fn new(pos: Vec3, angle: FloatOrd, group: MovementGroup) -> (info: Self)
        ensures
            info.position_offset == pos,
            info.angle_offset == angle,
            info.movement_group == group,
    {
        LegSpawnInfo { position_offset: pos, angle_offset: angle, movement_group: group }
    }
}

/// Group flip: when the feet of `group` are replanted, each of them is put
/// on the neutral place that the anchor of its leg gives at that moment, and
/// a leg of the other group keeps the foot it had. No chain, offset or group
/// changes.
pub proof fn lemma_retargeted_leg(legs: Seq<SpiderLeg>, group: MovementGroup, i: int)
    requires
        0 <= i < legs.len(),
    ensures
        retargeted(legs, group).len() == legs.len(),
        retargeted(legs, group)[i].chain == legs[i].chain,
        retargeted(legs, group)[i].movement_group == legs[i].movement_group,
        retargeted(legs, group)[i].leg.reposition_target_offset
            == legs[i].leg.reposition_target_offset,
        legs[i].movement_group == group ==> retargeted(legs, group)[i].leg.current_target
            == vec3_sum(legs[i].chain.start, legs[i].leg.reposition_target_offset),
        legs[i].movement_group != group ==> retargeted(legs, group)[i] == legs[i],
{
}

impl Spider {
    /// Whether the combined error is over `threshold`. An error that is no
    /// number is over nothing.
    pub open spec fn over(self, threshold: FloatOrd) -> bool {
        scalar_less(threshold, self.combined_leg_position_error)
    }

    /// A creature at rest: no error yet, and the second group active.
    pub fn new() -> (spider: Self)
        ensures
            spider.combined_leg_position_error == scalar_of(0),
            spider.movement_group == MovementGroup::Two,
    {
        Spider { combined_leg_position_error: scalar(0), movement_group: MovementGroup::Two }
    }

    /// Makes the other group the active one.
    pub fn switch_movement_group(&mut self)
        ensures
            final(self).movement_group == old(self).movement_group.other(),
            final(self).combined_leg_position_error == old(self).combined_leg_position_error,
    {
        self.movement_group = match self.movement_group {
            MovementGroup::One => MovementGroup::Two,
            MovementGroup::Two => MovementGroup::One,
        };
    }
}

/// Adds up anew how far the feet of the active group are from their neutral
/// places.
pub fn update_leg_error(spider: &mut Spider, legs: &Vec<SpiderLeg>)
    ensures
        final(spider).combined_leg_position_error == combined_error(
            legs@,
            old(spider).movement_group,
        ),
        final(spider).movement_group == old(spider).movement_group,
{
    let mut combined = scalar(0);
    let mut i: usize = 0;
    while i < legs.len()
        invariant
            i <= legs.len(),
            combined == combined_error(legs@.take(i as int), spider.movement_group),
            spider.movement_group == old(spider).movement_group,
        decreases legs.len() - i,
    {
        let leg = &legs[i];
        proof {
            assert(legs@.take(i + 1).drop_last() =~= legs@.take(i as int));
        }
        if leg.movement_group == spider.movement_group {
            let neutral = plus(leg.chain.start, leg.leg.reposition_target_offset);
            combined = scalar_plus(combined, distance(neutral, leg.leg.current_target));
        }
        i += 1;
    }
    proof {
        assert(legs@.take(legs.len() as int) =~= legs@);
    }
    spider.combined_leg_position_error = combined;
}

/// Once the combined error is over `threshold`, makes the other group the
/// active one and replants each of its feet at the neutral place. The feet
/// of the group that was active stay where they are. Up to the threshold
/// nothing changes.
pub fn retarget_if_threshold_reached(
    spider: &mut Spider,
    legs: &mut Vec<SpiderLeg>,
    threshold: FloatOrd,
)
    ensures
        final(spider).combined_leg_position_error == old(spider).combined_leg_position_error,
        old(spider).over(threshold) ==> final(spider).movement_group
            == old(spider).movement_group.other(),
        old(spider).over(threshold) ==> final(legs)@ == retargeted(
            old(legs)@,
            old(spider).movement_group.other(),
        ),
        !old(spider).over(threshold) ==> final(spider).movement_group
            == old(spider).movement_group,
        !old(spider).over(threshold) ==> final(legs)@ == old(legs)@,
{
    if less_than(threshold, spider.combined_leg_position_error) {
        spider.switch_movement_group();
        let mut i: usize = 0;
        while i < legs.len()
            invariant
                i <= legs.len(),
                legs@.len() == old(legs)@.len(),
                forall|j: int|
                    0 <= j < i ==> legs@[j] == retargeted(old(legs)@, spider.movement_group)[j],
                forall|j: int| i <= j < legs.len() ==> legs@[j] == old(legs)@[j],
            decreases legs.len() - i,
        {
            if legs[i].movement_group == spider.movement_group {
                let target = plus(legs[i].chain.start, legs[i].leg.reposition_target_offset);
                legs[i].leg.set_new_target(target);
            }
            i += 1;
        }
    }
}

fn axis(negative: bool, positive: bool) -> (r: i8)
    ensures
        r == axis_input(negative, positive),
{
    let forth: i8 = if positive { 1 } else { 0 };
    let back: i8 = if negative { 1 } else { 0 };
    forth - back
}

/// The direction that the pressed keys ask for.
pub fn get_wasd_input_as_vec(w: bool, a: bool, s: bool, d: bool) -> (direction: Vec3)
    ensures
        direction == input_direction(w, a, s, d),
{
    let result = vec3(scalar(axis(a, d)), scalar(0), scalar(axis(w, s)));
    unit_or_zero(result)
}

/// Moves the body for one tick: works out how far it goes and moves the
/// anchor of every leg that far. The joints and the planted feet stay. The
/// distance is returned for the body itself to be moved by.
pub fn move_from_input(
    legs: &mut Vec<SpiderLeg>,
    move_input: Vec3,
    elapsed: FloatOrd,
    speed: FloatOrd,
) -> (delta_position: Vec3)
    ensures
        delta_position == movement_delta(move_input, elapsed, speed),
        final(legs)@ == old(legs)@.map_values(|leg: SpiderLeg| leg.shifted(delta_position)),
{
    let delta_position = scaled(scaled(move_input, elapsed), speed);
    let mut i: usize = 0;
    while i < legs.len()
        invariant
            i <= legs.len(),
            legs@.len() == old(legs)@.len(),
            forall|j: int| 0 <= j < i ==> legs@[j] == old(legs)@[j].shifted(delta_position),
            forall|j: int| i <= j < legs.len() ==> legs@[j] == old(legs)@[j],
        decreases legs.len() - i,
    {
        legs[i].chain.move_start(delta_position);
        i += 1;
    }
    delta_position
}

/// Solves every leg towards its planted foot.
pub fn solve_legs(legs: &mut Vec<SpiderLeg>, iterations: i32, bend_epsilon: FloatOrd)
    requires
        legs_well_formed(old(legs)@),
    ensures
        final(legs)@.len() == old(legs)@.len(),
        forall|i: int|
            0 <= i < old(legs)@.len() ==> leg_solved(
                old(legs)@[i],
                rounds_of(iterations),
                #[trigger] final(legs)@[i],
            ),
{
    let mut i: usize = 0;
    while i < legs.len()
        invariant
            i <= legs.len(),
            legs@.len() == old(legs)@.len(),
            legs_well_formed(old(legs)@),
            forall|j: int|
                0 <= j < i ==> leg_solved(old(legs)@[j], rounds_of(iterations), #[trigger] legs@[j]),
            forall|j: int| i <= j < legs.len() ==> legs@[j] == old(legs)@[j],
        decreases legs.len() - i,
    {
        let target = legs[i].leg.current_target;
        solve_chain_towards_target(&mut legs[i].chain, target, iterations, bend_epsilon);
        i += 1;
    }
}

/// Where the piece on segment `index_in_chain` of `chain` is drawn, seen
/// from `origin`.
pub fn position_leg_piece_on_chain(
    chain: &IkChain,
    index_in_chain: usize,
    origin: Vec3,
) -> (placement: PiecePlacement)
    requires
        chain@.well_formed(),
        index_in_chain < chain@.joints.len() - 1,
    ensures
        placement == piece_placement(
            chain@.joints[index_in_chain as int],
            chain@.joints[index_in_chain + 1],
            chain@.lengths[index_in_chain as int],
            origin,
        ),
{
    let segment = chain.get_segment(index_in_chain);

    let segment_direction = unit_or_zero(minus(segment.end, segment.start));
    let segment_orientation = looking_towards(segment_direction, world_up());
    let segment_middle = plus(
        segment.start,
        divided(scaled(segment_direction, segment.length), scalar(2)),
    );

    PiecePlacement { position: minus(segment_middle, origin), orientation: segment_orientation }
}

/// Puts one leg together from its parts: the joints are the points of
/// `turned` moved by `attachment`, the anchor is the first of them, and the
/// foot is planted at `turned_offset` from `first_base_point`.
pub fn assemble_leg(
    turned: &Vec<Vec3>,
    attachment: Vec3,
    first_base_point: Vec3,
    turned_offset: Vec3,
    group: MovementGroup,
) -> (leg: SpiderLeg)
    requires
        turned.len() >= 2,
    ensures
        leg.movement_group == group,
        leg.chain@.well_formed(),
        leg.chain@.joints == turned@.map_values(|point: Vec3| vec3_sum(attachment, point)),
        leg.chain@.anchor == leg.chain@.joints[0],
        leg.chain@.lengths == segment_lengths(leg.chain@.joints),
        leg.leg.reposition_target_offset == turned_offset,
        leg.leg.current_target == vec3_sum(first_base_point, turned_offset),
{
    let mut points_of_current_leg: Vec<Vec3> = Vec::new();
    let mut i: usize = 0;
    while i < turned.len()
        invariant
            i <= turned.len(),
            points_of_current_leg.len() == i,
            forall|j: int|
                0 <= j < i ==> points_of_current_leg@[j] == vec3_sum(attachment, turned@[j]),
        decreases turned.len() - i,
    {
        points_of_current_leg.push(plus(attachment, turned[i]));
        i += 1;
    }
    assert(points_of_current_leg@ =~= turned@.map_values(
        |point: Vec3| vec3_sum(attachment, point),
    ));

    let target = plus(first_base_point, turned_offset);

    SpiderLeg {
        chain: IkChain::new(points_of_current_leg),
        leg: AnimatedLeg::new(turned_offset, target),
        movement_group: group,
    }
}

/// Puts one leg together. Its joints are the base points, turned about the
/// up axis by the angle of `info` and moved to where the leg is attached on
/// a body at `spawn_position`. Its neutral foot placement is `target_offset`
/// turned the same way, and its foot is first planted that far from the
/// first base point.
///
/// The turn is a rotation by an angle, which carries no name, so of the
/// turned points and the turned offset only their use is stated.
pub fn spawn_leg(
    base_points: &Vec<Vec3>,
    spawn_position: Vec3,
    target_offset: Vec3,
    info: &LegSpawnInfo,
) -> (leg: SpiderLeg)
    requires
        base_points.len() >= 2,
    ensures
        leg.movement_group == info.movement_group,
        leg.chain@.well_formed(),
        leg.chain@.anchor == leg.chain@.joints[0],
        leg.chain@.lengths == segment_lengths(leg.chain@.joints),
        exists|turned: Seq<Vec3>|
            #![trigger turned.len()]
            turned.len() == base_points.len() && leg.chain@.joints == turned.map_values(
                |point: Vec3| vec3_sum(vec3_sum(spawn_position, info.position_offset), point),
            ),
        leg.leg.current_target == vec3_sum(base_points@[0], leg.leg.reposition_target_offset),
{
    let rotation = about_axis(world_up(), to_radians(info.angle_offset));

    let mut turned: Vec<Vec3> = Vec::new();
    let mut i: usize = 0;
    while i < base_points.len()
        invariant
            i <= base_points.len(),
            turned.len() == i,
        decreases base_points.len() - i,
    {
        turned.push(rotated(rotation, base_points[i]));
        i += 1;
    }

    let attachment = plus(spawn_position, info.position_offset);
    let turned_offset = rotated(rotation, target_offset);
    assemble_leg(&turned, attachment, base_points[0], turned_offset, info.movement_group)
}

} // verus!
