use vstd::prelude::*;

use crate::command::{Colour, Command_Queue, Message};

verus! {

// Camera lengths are in millionths of a scene unit, its pitch in millionths of a degree.

/// How far from the origin any camera coordinate may lie.
pub const CAMERA_LIMIT: i64 = 1_000_000_000_000;
/// Nine scene units: how far each preset view stands from the origin.
pub const VIEW_DISTANCE: i64 = 9_000_000;
/// Pitch of the view from above: straight down.
pub const TOP_PITCH: i64 = -90_000_000;

/// A camera pose: a position and a pitch about the horizontal axis (zero looks along -z).
#[derive(Debug, Clone, Copy, PartialEq, Eq, Structural)]
pub struct Camera_Pose {
    pub x: i64,
    pub y: i64,
    pub z: i64,
    pub pitch: i64,
}

impl Camera_Pose {
    pub open spec fn in_bounds(self) -> bool {
        &&& -CAMERA_LIMIT <= self.x <= CAMERA_LIMIT
        &&& -CAMERA_LIMIT <= self.y <= CAMERA_LIMIT
        &&& -CAMERA_LIMIT <= self.z <= CAMERA_LIMIT
        &&& -CAMERA_LIMIT <= self.pitch <= CAMERA_LIMIT
    }
}

/// Nine units above the origin, looking straight down.
pub open spec fn top_view() -> Camera_Pose {
    Camera_Pose { x: 0, y: VIEW_DISTANCE, z: 0, pitch: TOP_PITCH }
}

/// Nine units in front of the origin, looking at it.
pub open spec fn front_view() -> Camera_Pose {
    Camera_Pose { x: 0, y: 0, z: VIEW_DISTANCE, pitch: 0 }
}

pub fn top_view_pose() -> (r: Camera_Pose)
    ensures
        r == top_view(),
{
    Camera_Pose { x: 0, y: VIEW_DISTANCE, z: 0, pitch: TOP_PITCH }
}

pub fn front_view_pose() -> (r: Camera_Pose)
    ensures
        r == front_view(),
{
    Camera_Pose { x: 0, y: 0, z: VIEW_DISTANCE, pitch: 0 }
}

/// The pose the camera is moving towards.
pub struct Camera_Transition {
    pub target: Camera_Pose,
}

impl Camera_Transition {
    /// Starts at the front view.
    pub fn new() -> (r: Camera_Transition)
        ensures
            r.target == front_view(),
    {
        Camera_Transition { target: front_view_pose() }
    }
}

pub struct Target_Door_State {
    pub open: bool,
}

pub struct Target_Louver_State {
    pub open: bool,
}

pub struct Shutter_Colour {
    pub colour: Colour,
}

/// The layout code in force, and whether the row has been built from it.
pub struct Layout_Code {
    pub code: String,
    pub applied: bool,
}

/// What the scene should look like; commands change it, the frame loop follows it.
pub struct Animation_State {
    pub camera: Camera_Transition,
    pub door: Target_Door_State,
    pub louver: Target_Louver_State,
    pub colour: Shutter_Colour,
    pub layout: Layout_Code,
}

/// Whether the doors should be open after one command.
pub open spec fn door_step(open: bool, m: Message) -> bool {
    if m == Message::Toggle_Doors {
        !open
    } else {
        open
    }
}

/// Whether the louvers should be open after one command.
pub open spec fn louver_step(open: bool, m: Message) -> bool {
    if m == Message::Toggle_Louvers {
        !open
    } else {
        open
    }
}

/// The camera's target after one command.
pub open spec fn camera_step(target: Camera_Pose, m: Message) -> Camera_Pose {
    match m {
        Message::Top_View => top_view(),
        Message::Front_View => front_view(),
        _ => target,
    }
}

/// Whether the doors should be open after the commands, in order.
pub open spec fn door_target_after(open: bool, msgs: Seq<Message>) -> bool
    decreases msgs.len(),
{
    if msgs.len() == 0 {
        open
    } else {
        door_step(door_target_after(open, msgs.drop_last()), msgs.last())
    }
}

/// Whether the louvers should be open after the commands, in order.
pub open spec fn louver_target_after(open: bool, msgs: Seq<Message>) -> bool
    decreases msgs.len(),
{
    if msgs.len() == 0 {
        open
    } else {
        louver_step(louver_target_after(open, msgs.drop_last()), msgs.last())
    }
}

/// The camera's target after the commands, in order: the last view chosen wins.
pub open spec fn camera_target_after(target: Camera_Pose, msgs: Seq<Message>) -> Camera_Pose
    decreases msgs.len(),
{
    if msgs.len() == 0 {
        target
    } else {
        camera_step(camera_target_after(target, msgs.drop_last()), msgs.last())
    }
}

/// A pending colour replaces the active one.
pub open spec fn colour_after(colour: Colour, pending: Option<Colour>) -> Colour {
    match pending {
        Some(c) => c,
        None => colour,
    }
}

/// A pending layout code replaces the one in force only where it differs; then the row
/// is due to be rebuilt.
pub open spec fn layout_after(code: Seq<char>, applied: bool, pending: Option<Seq<char>>) -> (
    Seq<char>,
    bool,
) {
    match pending {
        Some(c) => if c != code {
            (c, false)
        } else {
            (code, applied)
        },
        None => (code, applied),
    }
}

pub open spec fn pending_code(pending: Option<String>) -> Option<Seq<char>> {
    match pending {
        Some(s) => Some(s@),
        None => None,
    }
}

pub proof fn lemma_camera_targets_in_bounds(target: Camera_Pose, msgs: Seq<Message>)
    requires
        target.in_bounds(),
    ensures
        camera_target_after(target, msgs).in_bounds(),
    decreases msgs.len(),
{
    if msgs.len() > 0 {
        lemma_camera_targets_in_bounds(target, msgs.drop_last());
    }
}

impl Animation_State {
    /// The camera target lies in bounds and the layout code is short enough to build.
    pub open spec fn wf(&self) -> bool {
        &&& self.camera.target.in_bounds()
        &&& self.layout.code@.len() <= crate::layout::MAX_CODE_LEN
    }

    /// Doors and louvers closed, white, front view, and the row `LBR` waiting to be built.
    pub fn new() -> (r: Animation_State)
        ensures
            r.wf(),
            r.camera.target == front_view(),
            !r.door.open,
            !r.louver.open,
            r.colour.colour == Colour::White,
            r.layout.code@ == seq!['L', 'B', 'R'],
            !r.layout.applied,
    {
        let code = String::from_str("LBR");
        proof {
            reveal_strlit("LBR");
        }
        Animation_State {
            camera: Camera_Transition::new(),
            door: Target_Door_State { open: false },
            louver: Target_Louver_State { open: false },
            colour: Shutter_Colour { colour: Colour::White },
            layout: Layout_Code { code, applied: false },
        }
    }

    /// Applies one command to the targets.
    pub fn apply(&mut self, message: Message)
        ensures
            final(self).door.open == door_step(old(self).door.open, message),
            final(self).louver.open == louver_step(old(self).louver.open, message),
            final(self).camera.target == camera_step(old(self).camera.target, message),
            final(self).colour.colour == old(self).colour.colour,
            final(self).layout.code@ == old(self).layout.code@,
            final(self).layout.applied == old(self).layout.applied,
    {
        match message {
            Message::Toggle_Louvers => {
                self.louver.open = !self.louver.open;
            },
            Message::Toggle_Angles => {},
            Message::Toggle_Doors => {
                self.door.open = !self.door.open;
            },
            Message::Top_View => {
                self.camera.target = top_view_pose();
            },
            Message::Front_View => {
                self.camera.target = front_view_pose();
            },
        }
    }
}

/// Moves everything pending in the queue into the targets: the commands in order, then
/// the pending colour, then the pending layout code. The queue is left empty.
pub fn poll_queue(queue: &mut Command_Queue, state: &mut Animation_State)
    ensures
        final(queue).messages@ == Seq::<Message>::empty(),
        final(queue).colour is None,
        final(queue).layout is None,
        final(state).door.open == door_target_after(old(state).door.open, old(queue).messages@),
        final(state).louver.open == louver_target_after(
            old(state).louver.open,
            old(queue).messages@,
        ),
        final(state).camera.target == camera_target_after(
            old(state).camera.target,
            old(queue).messages@,
        ),
        final(state).colour.colour == colour_after(old(state).colour.colour, old(queue).colour),
        (final(state).layout.code@, final(state).layout.applied) == layout_after(
            old(state).layout.code@,
            old(state).layout.applied,
            pending_code(old(queue).layout),
        ),
{
    let messages = queue.drain_messages();
    let ghost start = *state;
    let mut i: usize = 0;
    while i < messages.len()
        invariant
            i <= messages@.len(),
            state.door.open == door_target_after(start.door.open, messages@.subrange(0, i as int)),
            state.louver.open == louver_target_after(
                start.louver.open,
                messages@.subrange(0, i as int),
            ),
            state.camera.target == camera_target_after(
                start.camera.target,
                messages@.subrange(0, i as int),
            ),
            state.colour.colour == start.colour.colour,
            state.layout.code@ == start.layout.code@,
            state.layout.applied == start.layout.applied,
        decreases messages@.len() - i,
    {
        proof {
            assert(messages@.subrange(0, i + 1).drop_last() =~= messages@.subrange(0, i as int));
        }
        state.apply(messages[i]);
        i += 1;
    }
    proof {
        assert(messages@.subrange(0, messages@.len() as int) =~= messages@);
    }
    match queue.take_pending_colour() {
        Some(colour) => {
            state.colour.colour = colour;
        },
        None => {},
    }
    match queue.take_pending_layout() {
        Some(code) => {
            if code != state.layout.code {
                state.layout.code = code;
                state.layout.applied = false;
            }
        },
        None => {},
    }
}

} // verus!
