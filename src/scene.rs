use vstd::prelude::*;

use crate::command::{Colour, Command_Queue, Message};
use crate::layout::{
    Door, Hinge_Side, Louver, Shutter, LOUVER_REST_TILT, LOUVER_TURN, MAX_CODE_LEN, spawn_doors,
    is_layout_of,
};
use crate::layout::{hinge_sides, louver_y, shutter_x, standard_frame, LOUVER_COUNT, SCALE};
use crate::store::{
    Animation_State, Camera_Pose, Camera_Transition, Shutter_Colour, Target_Door_State,
    Target_Louver_State, CAMERA_LIMIT, camera_target_after, colour_after, door_target_after,
    door_step, front_view_pose, layout_after, louver_step, louver_target_after, pending_code,
    poll_queue,
};

verus! {

/// How far a door turns about its hinge when it opens or closes, in tenths of a degree.
pub const DOOR_SWING: i64 = 450;
/// Sideways distance from a door's centre to its hinge edge, in thousandths of a unit.
pub const HINGE_OFFSET: i64 = 200;
/// Distance from a door's centre plane forward to its hinge line, in thousandths of a unit.
pub const HINGE_DEPTH: i64 = 25;
/// The camera covers a tenth of what is left of the way to its target each frame.
pub const CAMERA_BLEND: i64 = 10;

/// The signed turn of a hinge side; an opening door turns by its negation.
pub open spec fn swing(hinge: Hinge_Side) -> int {
    match hinge {
        Hinge_Side::Left => DOOR_SWING as int,
        Hinge_Side::Right => -DOOR_SWING,
    }
}

/// A door's turn about its hinge, given whether it is open.
pub open spec fn door_yaw(hinge: Hinge_Side, open: bool) -> int {
    if open {
        -swing(hinge)
    } else {
        0
    }
}

/// A louver's tilt, given whether it is open.
pub open spec fn louver_tilt(open: bool) -> int {
    if open {
        LOUVER_REST_TILT - LOUVER_TURN
    } else {
        LOUVER_REST_TILT as int
    }
}

/// The point a door turns about, in the shutter's frame (x sideways, z towards the
/// viewer): at the hinge edge, a little in front of the door, and fixed however far the
/// door has turned.
pub fn hinge_pivot(hinge: Hinge_Side) -> (r: (i64, i64))
    ensures
        r.0 == (match hinge {
            Hinge_Side::Left => -HINGE_OFFSET,
            Hinge_Side::Right => HINGE_OFFSET as int,
        }),
        r.1 == -HINGE_DEPTH,
{
    match hinge {
        Hinge_Side::Left => (-HINGE_OFFSET, -HINGE_DEPTH),
        Hinge_Side::Right => (HINGE_OFFSET, -HINGE_DEPTH),
    }
}

/// A door whose turn, and each of whose louvers' tilt, agree with their open flags.
pub open spec fn door_consistent(d: Door) -> bool {
    &&& d.yaw == door_yaw(d.hinge, d.open)
    &&& forall|j: int|
        0 <= j < d.louvers@.len() ==> (#[trigger] d.louvers@[j]).tilt == louver_tilt(
            d.louvers@[j].open,
        )
}

/// The live scene: the row of shutters and the camera's pose.
pub struct Scene {
    pub shutters: Vec<Shutter>,
    pub camera: Camera_Pose,
}

impl Scene {
    pub open spec fn wf(&self) -> bool {
        &&& self.camera.in_bounds()
        &&& forall|i: int|
            0 <= i < self.shutters@.len() ==> door_consistent(#[trigger] self.shutters@[i].door)
    }
}

/// No shutters yet, the camera at the front view.
pub fn init_scene() -> (r: Scene)
    ensures
        r.wf(),
        r.shutters@.len() == 0,
        r.camera == crate::store::front_view(),
{
    Scene { shutters: Vec::new(), camera: front_view_pose() }
}

/// `after` is `before` with each louver's open flag set to `open`, and nothing else but
/// the tilts changed.
pub open spec fn louvers_set(before: Door, after: Door, open: bool) -> bool {
    &&& after.hinge == before.hinge
    &&& after.open == before.open
    &&& after.yaw == before.yaw
    &&& after.louvers@.len() == before.louvers@.len()
    &&& forall|j: int|
        0 <= j < after.louvers@.len() ==> #[trigger] after.louvers@[j] == (Louver {
            open,
            y: before.louvers@[j].y,
            tilt: louver_tilt(open) as i64,
        })
}

/// `after` is `before` with the door's open flag set to `open`, and nothing else but its
/// turn changed.
pub open spec fn door_set(before: Door, after: Door, open: bool) -> bool {
    &&& after.hinge == before.hinge
    &&& after.open == open
    &&& after.yaw == door_yaw(before.hinge, open)
    &&& after.louvers@ == before.louvers@
}

/// Each shutter of `after` is the one of `before`, with its door changed as `f` allows.
pub open spec fn shutters_match(
    before: Seq<Shutter>,
    after: Seq<Shutter>,
    f: spec_fn(Door, Door) -> bool,
) -> bool {
    &&& after.len() == before.len()
    &&& forall|i: int|
        0 <= i < after.len() ==> {
            &&& (#[trigger] after[i]).x == before[i].x
            &&& after[i].scale == before[i].scale
            &&& after[i].colour == before[i].colour
            &&& after[i].frame == before[i].frame
            &&& f(before[i].door, after[i].door)
        }
}

fn reconcile_louvers(door: &mut Door, open: bool)
    requires
        door_consistent(*old(door)),
    ensures
        louvers_set(*old(door), *final(door), open),
        door_consistent(*final(door)),
{
    let n = door.louvers.len();
    let mut j: usize = 0;
    while j < n
        invariant
            n == door.louvers@.len(),
            n == old(door).louvers@.len(),
            j <= n,
            door.hinge == old(door).hinge,
            door.open == old(door).open,
            door.yaw == old(door).yaw,
            door_consistent(*old(door)),
            forall|k: int|
                0 <= k < j ==> #[trigger] door.louvers@[k] == (Louver {
                    open,
                    y: old(door).louvers@[k].y,
                    tilt: louver_tilt(open) as i64,
                }),
            forall|k: int| j <= k < n ==> #[trigger] door.louvers@[k] == old(door).louvers@[k],
        decreases n - j,
    {
        let louver = &mut door.louvers[j];
        if open && !louver.open {
            louver.tilt = louver.tilt - LOUVER_TURN;
            louver.open = true;
        }
        if !open && louver.open {
            louver.tilt = louver.tilt + LOUVER_TURN;
            louver.open = false;
        }
        j += 1;
    }
}

/// Brings every louver to the target: one that disagrees turns once and flips its flag.
pub fn toggle_louvers(scene: &mut Scene, target: &Target_Louver_State)
    requires
        old(scene).wf(),
    ensures
        final(scene).wf(),
        final(scene).camera == old(scene).camera,
        shutters_match(
            old(scene).shutters@,
            final(scene).shutters@,
            |b: Door, a: Door| louvers_set(b, a, target.open),
        ),
{
    let n = scene.shutters.len();
    let mut i: usize = 0;
    while i < n
        invariant
            n == scene.shutters@.len(),
            n == old(scene).shutters@.len(),
            i <= n,
            scene.camera == old(scene).camera,
            old(scene).wf(),
            scene.camera.in_bounds(),
            forall|k: int|
                0 <= k < i ==> {
                    &&& (#[trigger] scene.shutters@[k]).x == old(scene).shutters@[k].x
                    &&& scene.shutters@[k].scale == old(scene).shutters@[k].scale
                    &&& scene.shutters@[k].colour == old(scene).shutters@[k].colour
                    &&& scene.shutters@[k].frame == old(scene).shutters@[k].frame
                    &&& louvers_set(old(scene).shutters@[k].door, scene.shutters@[k].door, target.open)
                    &&& door_consistent(scene.shutters@[k].door)
                },
            forall|k: int|
                i <= k < n ==> #[trigger] scene.shutters@[k] == old(scene).shutters@[k],
        decreases n - i,
    {
        reconcile_louvers(&mut scene.shutters[i].door, target.open);
        i += 1;
    }
}

fn reconcile_door(door: &mut Door, open: bool)
    requires
        door_consistent(*old(door)),
    ensures
        door_set(*old(door), *final(door), open),
        door_consistent(*final(door)),
{
    let angle = match door.hinge {
        Hinge_Side::Left => DOOR_SWING,
        Hinge_Side::Right => -DOOR_SWING,
    };
    if open && !door.open {
        door.yaw = door.yaw - angle;
        door.open = true;
    }
    if !open && door.open {
        door.yaw = door.yaw + angle;
        door.open = false;
    }
}

/// Brings every door to the target: one that disagrees turns once about its hinge, the
/// way its hinge side gives, and flips its flag.
pub fn toggle_doors(scene: &mut Scene, target: &Target_Door_State)
    requires
        old(scene).wf(),
    ensures
        final(scene).wf(),
        final(scene).camera == old(scene).camera,
        shutters_match(
            old(scene).shutters@,
            final(scene).shutters@,
            |b: Door, a: Door| door_set(b, a, target.open),
        ),
{
    let n = scene.shutters.len();
    let mut i: usize = 0;
    while i < n
        invariant
            n == scene.shutters@.len(),
            n == old(scene).shutters@.len(),
            i <= n,
            scene.camera == old(scene).camera,
            old(scene).wf(),
            scene.camera.in_bounds(),
            forall|k: int|
                0 <= k < i ==> {
                    &&& (#[trigger] scene.shutters@[k]).x == old(scene).shutters@[k].x
                    &&& scene.shutters@[k].scale == old(scene).shutters@[k].scale
                    &&& scene.shutters@[k].colour == old(scene).shutters@[k].colour
                    &&& scene.shutters@[k].frame == old(scene).shutters@[k].frame
                    &&& door_set(old(scene).shutters@[k].door, scene.shutters@[k].door, target.open)
                    &&& door_consistent(scene.shutters@[k].door)
                },
            forall|k: int|
                i <= k < n ==> #[trigger] scene.shutters@[k] == old(scene).shutters@[k],
        decreases n - i,
    {
        reconcile_door(&mut scene.shutters[i].door, target.open);
        i += 1;
    }
}

/// One frame's move of a camera coordinate towards its target: a tenth of the gap,
/// rounded towards the current value.
pub open spec fn approach(cur: int, target: int) -> int {
    if cur <= target {
        cur + (target - cur) / CAMERA_BLEND as int
    } else {
        cur - (cur - target) / CAMERA_BLEND as int
    }
}

/// The camera's pose after one frame of moving towards `target`.
pub open spec fn camera_toward(c: Camera_Pose, target: Camera_Pose) -> Camera_Pose {
    Camera_Pose {
        x: approach(c.x as int, target.x as int) as i64,
        y: approach(c.y as int, target.y as int) as i64,
        z: approach(c.z as int, target.z as int) as i64,
        pitch: approach(c.pitch as int, target.pitch as int) as i64,
    }
}

fn step_toward(cur: i64, target: i64) -> (r: i64)
    requires
        -CAMERA_LIMIT <= cur <= CAMERA_LIMIT,
        -CAMERA_LIMIT <= target <= CAMERA_LIMIT,
    ensures
        r == approach(cur as int, target as int),
        -CAMERA_LIMIT <= r <= CAMERA_LIMIT,
{
    if cur <= target {
        cur + (target - cur) / CAMERA_BLEND
    } else {
        cur - (cur - target) / CAMERA_BLEND
    }
}

/// Moves the camera a tenth of the way to its target.
pub fn transition_camera(scene: &mut Scene, transition: &Camera_Transition)
    requires
        old(scene).wf(),
        transition.target.in_bounds(),
    ensures
        final(scene).wf(),
        final(scene).camera == camera_toward(old(scene).camera, transition.target),
        final(scene).shutters@ == old(scene).shutters@,
{
    let c = scene.camera;
    let t = transition.target;
    scene.camera = Camera_Pose {
        x: step_toward(c.x, t.x),
        y: step_toward(c.y, t.y),
        z: step_toward(c.z, t.z),
        pitch: step_toward(c.pitch, t.pitch),
    };
}

/// Each shutter of `after` is the one of `before` painted `colour`.
pub open spec fn painted(before: Seq<Shutter>, after: Seq<Shutter>, colour: Colour) -> bool {
    &&& after.len() == before.len()
    &&& forall|i: int|
        0 <= i < after.len() ==> {
            &&& (#[trigger] after[i]).x == before[i].x
            &&& after[i].scale == before[i].scale
            &&& after[i].colour == colour
            &&& after[i].frame == before[i].frame
            &&& after[i].door == before[i].door
        }
}

/// Paints every shutter's material the active colour.
pub fn apply_shutter_colour(scene: &mut Scene, colour: &Shutter_Colour)
    requires
        old(scene).wf(),
    ensures
        final(scene).wf(),
        final(scene).camera == old(scene).camera,
        painted(old(scene).shutters@, final(scene).shutters@, colour.colour),
{
    let n = scene.shutters.len();
    let mut i: usize = 0;
    while i < n
        invariant
            n == scene.shutters@.len(),
            n == old(scene).shutters@.len(),
            i <= n,
            scene.camera == old(scene).camera,
            old(scene).wf(),
            forall|k: int|
                0 <= k < i ==> {
                    &&& (#[trigger] scene.shutters@[k]).x == old(scene).shutters@[k].x
                    &&& scene.shutters@[k].scale == old(scene).shutters@[k].scale
                    &&& scene.shutters@[k].colour == colour.colour
                    &&& scene.shutters@[k].frame == old(scene).shutters@[k].frame
                    &&& scene.shutters@[k].door == old(scene).shutters@[k].door
                },
            forall|k: int|
                i <= k < n ==> #[trigger] scene.shutters@[k] == old(scene).shutters@[k],
        decreases n - i,
    {
        scene.shutters[i].colour = colour.colour;
        i += 1;
    }
}

/// Rebuilds the row from the layout code in force if it has not been built yet, and marks
/// the code applied. Returns whether it rebuilt.
pub fn apply_layout_code(state: &mut Animation_State, scene: &mut Scene) -> (rebuilt: bool)
    requires
        old(scene).wf(),
        old(state).wf(),
    ensures
        rebuilt == !old(state).layout.applied,
        final(state).layout.applied,
        final(state).layout.code@ == old(state).layout.code@,
        final(state).camera.target == old(state).camera.target,
        final(state).door.open == old(state).door.open,
        final(state).louver.open == old(state).louver.open,
        final(state).colour.colour == old(state).colour.colour,
        final(state).wf(),
        final(scene).wf(),
        final(scene).camera == old(scene).camera,
        rebuilt ==> is_layout_of(final(scene).shutters@, old(state).layout.code@),
        !rebuilt ==> final(scene).shutters@ == old(scene).shutters@,
{
    if !state.layout.applied {
        state.layout.applied = true;
        let shutters = spawn_doors(state.layout.code.as_str());
        proof {
            assert forall|i: int| 0 <= i < shutters@.len() implies door_consistent(
                #[trigger] shutters@[i].door,
            ) by {
                let d = shutters@[i].door;
                assert forall|j: int| 0 <= j < d.louvers@.len() implies (
                #[trigger] d.louvers@[j]).tilt == louver_tilt(d.louvers@[j].open) by {
                    assert(d.louvers@[j] == (Louver {
                        open: false,
                        y: louver_y(j) as i64,
                        tilt: LOUVER_REST_TILT,
                    }));
                }
            }
        }
        scene.shutters = shutters;
        true
    } else {
        false
    }
}

/// `after` stands where `before` stood: same place, scale, frame, hinge and louver heights.
pub open spec fn same_place(before: Shutter, after: Shutter) -> bool {
    &&& after.x == before.x
    &&& after.scale == before.scale
    &&& after.frame == before.frame
    &&& after.door.hinge == before.door.hinge
    &&& after.door.louvers@.len() == before.door.louvers@.len()
    &&& forall|j: int|
        0 <= j < after.door.louvers@.len() ==> (#[trigger] after.door.louvers@[j]).y
            == before.door.louvers@[j].y
}

/// The shutters stand as the layout code lays them out.
pub open spec fn shaped_as(shutters: Seq<Shutter>, code: Seq<char>) -> bool {
    let sides = hinge_sides(code);
    &&& shutters.len() == sides.len()
    &&& forall|i: int|
        0 <= i < shutters.len() ==> {
            &&& (#[trigger] shutters[i]).x == shutter_x(i, sides.len() as int)
            &&& shutters[i].scale == SCALE
            &&& shutters[i].frame == standard_frame()
            &&& shutters[i].door.hinge == sides[i]
            &&& shutters[i].door.louvers@.len() == LOUVER_COUNT
            &&& forall|j: int|
                0 <= j < LOUVER_COUNT ==> (#[trigger] shutters[i].door.louvers@[j]).y
                    == louver_y(j)
        }
}

/// Every door, louver and material agrees with the targets.
pub open spec fn settled(
    shutters: Seq<Shutter>,
    door_open: bool,
    louver_open: bool,
    colour: Colour,
) -> bool {
    forall|i: int|
        0 <= i < shutters.len() ==> {
            &&& (#[trigger] shutters[i]).door.open == door_open
            &&& shutters[i].colour == colour
            &&& forall|j: int|
                0 <= j < shutters[i].door.louvers@.len() ==> (
                #[trigger] shutters[i].door.louvers@[j]).open == louver_open
        }
}

/// One frame: drains the queue into the targets, rebuilds the row if the layout code in
/// force has not been built, then brings louvers, doors, camera and colour to the targets,
/// in that order. Returns whether the row was rebuilt.
pub fn update_scene(queue: &mut Command_Queue, state: &mut Animation_State, scene: &mut Scene) -> (rebuilt: bool)
    requires
        old(scene).wf(),
        old(state).wf(),
        pending_code(old(queue).layout) matches Some(c) ==> c.len() <= MAX_CODE_LEN,
    ensures
        final(queue).messages@.len() == 0,
        final(queue).colour is None,
        final(queue).layout is None,
        final(state).wf(),
        final(state).door.open == door_target_after(old(state).door.open, old(queue).messages@),
        final(state).louver.open == louver_target_after(
            old(state).louver.open,
            old(queue).messages@,
        ),
        final(state).camera.target == camera_target_after(
            old(state).camera.target,
            old(queue).messages@,
        ),
        final(state).colour.colour == colour_after(old(state).colour.colour, old(queue).colour),
        final(state).layout.code@ == layout_after(
            old(state).layout.code@,
            old(state).layout.applied,
            pending_code(old(queue).layout),
        ).0,
        final(state).layout.applied,
        rebuilt == !layout_after(
            old(state).layout.code@,
            old(state).layout.applied,
            pending_code(old(queue).layout),
        ).1,
        final(scene).wf(),
        final(scene).camera == camera_toward(old(scene).camera, final(state).camera.target),
        rebuilt ==> shaped_as(final(scene).shutters@, final(state).layout.code@),
        shaped_as(old(scene).shutters@, old(state).layout.code@) || !old(state).layout.applied
            ==> shaped_as(final(scene).shutters@, final(state).layout.code@),
        !rebuilt ==> final(scene).shutters@.len() == old(scene).shutters@.len() && forall|i: int|
            0 <= i < old(scene).shutters@.len() ==> same_place(
                #[trigger] old(scene).shutters@[i],
                final(scene).shutters@[i],
            ),
        settled(
            final(scene).shutters@,
            final(state).door.open,
            final(state).louver.open,
            final(state).colour.colour,
        ),
{
    poll_queue(queue, state);
    proof {
        crate::store::lemma_camera_targets_in_bounds(old(state).camera.target, old(queue).messages@);
    }
    let ghost s0 = scene.shutters@;
    let rebuilt = apply_layout_code(state, scene);
    let ghost s1 = scene.shutters@;
    toggle_louvers(scene, &state.louver);
    let ghost s2 = scene.shutters@;
    toggle_doors(scene, &state.door);
    let ghost s3 = scene.shutters@;
    transition_camera(scene, &state.camera);
    apply_shutter_colour(scene, &state.colour);
    let ghost s5 = scene.shutters@;
    proof {
        let d = state.door.open;
        let l = state.louver.open;
        assert forall|i: int| 0 <= i < s5.len() implies same_place(#[trigger] s1[i], s5[i]) && {
            &&& s5[i].door.open == d
            &&& forall|j: int|
                0 <= j < s5[i].door.louvers@.len() ==> (#[trigger] s5[i].door.louvers@[j]).open == l
        } by {
            assert(louvers_set(s1[i].door, s2[i].door, l));
            assert(door_set(s2[i].door, s3[i].door, d));
            assert(s5[i].door == s3[i].door);
            assert forall|j: int| 0 <= j < s5[i].door.louvers@.len() implies (
            #[trigger] s5[i].door.louvers@[j]).y == s1[i].door.louvers@[j].y
                && s5[i].door.louvers@[j].open == l by {
                assert(s3[i].door.louvers@[j] == s2[i].door.louvers@[j]);
            }
        }
        if rebuilt {
            assert forall|i: int| 0 <= i < s5.len() implies (#[trigger] s5[i]).x == shutter_x(
                i,
                hinge_sides(state.layout.code@).len() as int,
            ) && s5[i].scale == SCALE && s5[i].frame == standard_frame() && s5[i].door.hinge
                == hinge_sides(state.layout.code@)[i] && s5[i].door.louvers@.len() == LOUVER_COUNT
                && forall|j: int|
                0 <= j < LOUVER_COUNT ==> (#[trigger] s5[i].door.louvers@[j]).y == louver_y(j) by {
                assert(same_place(s1[i], s5[i]));
                assert forall|j: int| 0 <= j < LOUVER_COUNT implies (
                #[trigger] s5[i].door.louvers@[j]).y == louver_y(j) by {
                    assert(s5[i].door.louvers@[j].y == s1[i].door.louvers@[j].y);
                }
            }
        } else {
            assert forall|i: int| 0 <= i < s0.len() implies same_place(#[trigger] s0[i], s5[i]) by {
                assert(same_place(s1[i], s5[i]));
            }
            if shaped_as(s0, state.layout.code@) {
                let n = hinge_sides(state.layout.code@).len() as int;
                assert forall|i: int| 0 <= i < s5.len() implies (#[trigger] s5[i]).x == shutter_x(
                    i,
                    n,
                ) && s5[i].scale == SCALE && s5[i].frame == standard_frame() && s5[i].door.hinge
                    == hinge_sides(state.layout.code@)[i] && s5[i].door.louvers@.len()
                    == LOUVER_COUNT && forall|j: int|
                    0 <= j < LOUVER_COUNT ==> (#[trigger] s5[i].door.louvers@[j]).y == louver_y(j) by {
                    assert(same_place(s0[i], s5[i]));
                    assert forall|j: int| 0 <= j < LOUVER_COUNT implies (
                    #[trigger] s5[i].door.louvers@[j]).y == louver_y(j) by {
                        assert(s5[i].door.louvers@[j].y == s0[i].door.louvers@[j].y);
                    }
                }
            }
        }
    }
    rebuilt
}

/// Submitting a layout code that differs from the one in force (or one not yet built)
/// rebuilds the row in the next frame; submitting the same code again before the frame
/// after rebuilds nothing.
pub proof fn lemma_same_code_rebuilds_once(code: Seq<char>, applied: bool, submitted: Seq<char>)
    requires
        submitted != code || !applied,
    ensures
        !layout_after(code, applied, Some(submitted)).1,
        layout_after(code, applied, Some(submitted)).0 == submitted,
        layout_after(submitted, true, Some(submitted)) == (submitted, true),
{
}

/// Two frames that each carry one door toggle bring every door back to its open flag and
/// its turn from before them.
pub proof fn lemma_doors_round_trip(
    open: bool,
    s0: Seq<Shutter>,
    s1: Seq<Shutter>,
    s2: Seq<Shutter>,
)
    requires
        forall|i: int|
            0 <= i < s0.len() ==> door_consistent(#[trigger] s0[i].door) && s0[i].door.open
                == open,
        shutters_match(
            s0,
            s1,
            |b: Door, a: Door| door_set(b, a, door_step(open, Message::Toggle_Doors)),
        ),
        shutters_match(
            s1,
            s2,
            |b: Door, a: Door|
                door_set(
                    b,
                    a,
                    door_step(door_step(open, Message::Toggle_Doors), Message::Toggle_Doors),
                ),
        ),
    ensures
        s2.len() == s0.len(),
        forall|i: int|
            0 <= i < s0.len() ==> (#[trigger] s2[i]).door.open == s0[i].door.open && s2[i].door.yaw
                == s0[i].door.yaw && s2[i].door.louvers@ == s0[i].door.louvers@ && s2[i].x
                == s0[i].x,
{
    assert forall|i: int| 0 <= i < s0.len() implies (#[trigger] s2[i]).door.open
        == s0[i].door.open && s2[i].door.yaw == s0[i].door.yaw && s2[i].door.louvers@
        == s0[i].door.louvers@ && s2[i].x == s0[i].x by {
        assert(door_set(s0[i].door, s1[i].door, !open));
        assert(door_set(s1[i].door, s2[i].door, open));
    }
}

/// After one louver toggle, every louver of a settled row flips its open flag.
pub proof fn lemma_louvers_flip_together(open: bool, s0: Seq<Shutter>, s1: Seq<Shutter>)
    requires
        forall|i: int, j: int|
            0 <= i < s0.len() && 0 <= j < s0[i].door.louvers@.len() ==> (
            #[trigger] s0[i].door.louvers@[j]).open == open,
        shutters_match(
            s0,
            s1,
            |b: Door, a: Door| louvers_set(b, a, louver_step(open, Message::Toggle_Louvers)),
        ),
    ensures
        s1.len() == s0.len(),
        forall|i: int|
            0 <= i < s0.len() ==> (#[trigger] s1[i]).door.louvers@.len()
                == s0[i].door.louvers@.len(),
        forall|i: int, j: int|
            0 <= i < s0.len() && 0 <= j < s0[i].door.louvers@.len() ==> (
            #[trigger] s1[i].door.louvers@[j]).open != s0[i].door.louvers@[j].open,
{
    assert forall|i: int, j: int|
        0 <= i < s0.len() && 0 <= j < s0[i].door.louvers@.len() implies (
        #[trigger] s1[i].door.louvers@[j]).open != s0[i].door.louvers@[j].open by {
        assert(louvers_set(s0[i].door, s1[i].door, !open));
    }
}

pub open spec fn abs(v: int) -> int {
    if v < 0 {
        -v
    } else {
        v
    }
}

/// Distance from the camera's position to the target's, summed over the axes.
pub open spec fn camera_gap(c: Camera_Pose, t: Camera_Pose) -> int {
    abs(c.x - t.x) + abs(c.y - t.y) + abs(c.z - t.z)
}

proof fn lemma_approach(cur: int, target: int)
    ensures
        abs(approach(cur, target) - target) == abs(cur - target) - abs(cur - target)
            / CAMERA_BLEND as int,
        abs(approach(cur, target) - target) <= abs(cur - target),
        abs(cur - target) > 0 ==> abs(approach(cur, target) - target) > 0,
        abs(cur - target) >= CAMERA_BLEND ==> abs(approach(cur, target) - target) < abs(
            cur - target,
        ),
{
    let d = abs(cur - target);
    assert(d / 10 <= d) by (nonlinear_arith)
        requires
            d >= 0,
    ;
    assert(d > 0 ==> d / 10 < d) by (nonlinear_arith)
        requires
            d >= 0,
    ;
    assert(d >= 10 ==> d / 10 >= 1) by (nonlinear_arith);
    assert(d >= 0 ==> d / 10 >= 0) by (nonlinear_arith);
}

/// Each frame moves the camera no farther from its target; it never lands on the target
/// in one step, and it comes strictly closer while some axis is at least ten millionths
/// of a unit away.
pub proof fn lemma_camera_converges(c: Camera_Pose, t: Camera_Pose)
    ensures
        camera_gap(camera_toward(c, t), t) <= camera_gap(c, t),
        camera_gap(c, t) > 0 ==> camera_gap(camera_toward(c, t), t) > 0,
        abs(c.x - t.x) >= CAMERA_BLEND || abs(c.y - t.y) >= CAMERA_BLEND || abs(c.z - t.z)
            >= CAMERA_BLEND ==> camera_gap(camera_toward(c, t), t) < camera_gap(c, t),
{
    lemma_approach(c.x as int, t.x as int);
    lemma_approach(c.y as int, t.y as int);
    lemma_approach(c.z as int, t.z as int);
}

/// The camera's pose after `frames` frames of moving towards `target`.
pub open spec fn camera_after_frames(c: Camera_Pose, target: Camera_Pose, frames: nat) -> Camera_Pose
    decreases frames,
{
    if frames == 0 {
        c
    } else {
        camera_toward(camera_after_frames(c, target, (frames - 1) as nat), target)
    }
}

/// Over repeated frames the camera's distance to its target never grows, and a camera
/// away from its target is still away from it after any number of frames.
pub proof fn lemma_camera_never_arrives(c: Camera_Pose, t: Camera_Pose, frames: nat)
    ensures
        camera_gap(camera_after_frames(c, t, frames), t) <= camera_gap(c, t),
        camera_gap(c, t) > 0 ==> camera_gap(camera_after_frames(c, t, frames), t) > 0,
    decreases frames,
{
    if frames > 0 {
        lemma_camera_never_arrives(c, t, (frames - 1) as nat);
        lemma_camera_converges(camera_after_frames(c, t, (frames - 1) as nat), t);
    }
}

} // verus!
