use shutters::command::{push_message, set_colour, set_layout_code, Colour, Command_Queue, Message};
use shutters::layout::{parse_layout_code, spawn_doors, Hinge_Side};
use shutters::scene::{hinge_pivot, init_scene, update_scene, Scene};
use shutters::store::{Animation_State, Camera_Pose, Camera_Transition};

fn started() -> (Command_Queue, Animation_State, Scene) {
    let mut queue = Command_Queue::new();
    let mut state = Animation_State::new();
    let mut scene = init_scene();
    assert!(update_scene(&mut queue, &mut state, &mut scene));
    (queue, state, scene)
}

#[test]
fn default_layout_builds_left_and_right() {
    let (_, state, scene) = started();
    assert_eq!(state.layout.code, "LBR");
    assert!(state.layout.applied);
    assert_eq!(scene.shutters.len(), 2);
    assert_eq!(scene.shutters[0].door.hinge, Hinge_Side::Left);
    assert_eq!(scene.shutters[1].door.hinge, Hinge_Side::Right);
    assert_eq!(scene.shutters[0].x, -825);
    assert_eq!(scene.shutters[1].x, 825);
    for s in scene.shutters.iter() {
        assert!(!s.door.open);
        assert_eq!(s.colour, Colour::White);
    }
}

#[test]
fn separators_are_ignored() {
    let a = parse_layout_code("L-R");
    assert_eq!(a, vec![Hinge_Side::Left, Hinge_Side::Right]);
    assert_eq!(parse_layout_code("LR"), a);
    assert_eq!(parse_layout_code("L R"), a);
    assert_eq!(parse_layout_code("xRRéL"), vec![Hinge_Side::Right, Hinge_Side::Right, Hinge_Side::Left]);
}

#[test]
fn empty_code_gives_no_shutters() {
    assert!(spawn_doors("").is_empty());
    assert!(spawn_doors("B-x").is_empty());
}

#[test]
fn row_is_centred_with_fixed_step() {
    let row = spawn_doors("LRLR");
    let xs: Vec<i64> = row.iter().map(|s| s.x).collect();
    assert_eq!(xs, vec![-2475, -825, 825, 2475]);
    let row = spawn_doors("LRL");
    let xs: Vec<i64> = row.iter().map(|s| s.x).collect();
    assert_eq!(xs, vec![-1650, 0, 1650]);
    assert_eq!(spawn_doors("R")[0].x, 0);
}

#[test]
fn new_shutter_geometry() {
    let row = spawn_doors("R");
    let s = &row[0];
    assert_eq!(s.scale, 3);
    assert_eq!(s.door.yaw, 0);
    assert_eq!(s.door.louvers.len(), 10);
    for (j, l) in s.door.louvers.iter().enumerate() {
        assert!(!l.open);
        assert_eq!(l.y, j as i64 * 100 - 450);
        assert_eq!(l.tilt, -225);
    }
    assert_eq!(s.frame.left.x, -250);
    assert_eq!(s.frame.right.x, 250);
    assert_eq!(s.frame.left.height, 1050);
    assert_eq!(s.frame.top.y, 500);
    assert_eq!(s.frame.bottom.y, -500);
    assert_eq!(s.frame.top.width, 500);
    assert_eq!(s.frame.bottom.depth, 50);
}

#[test]
fn one_door_toggle_opens_both_doors() {
    let (mut queue, mut state, mut scene) = started();
    push_message(&mut queue, Message::Toggle_Doors);
    assert!(!update_scene(&mut queue, &mut state, &mut scene));
    assert!(state.door.open);
    assert!(scene.shutters[0].door.open);
    assert!(scene.shutters[1].door.open);
    assert_eq!(scene.shutters[0].door.yaw, -450);
    assert_eq!(scene.shutters[1].door.yaw, 450);
    assert_eq!(hinge_pivot(Hinge_Side::Left), (-200, -25));
    assert_eq!(hinge_pivot(Hinge_Side::Right), (200, -25));
}

#[test]
fn door_toggles_in_two_frames_round_trip() {
    let (mut queue, mut state, mut scene) = started();
    let before: Vec<(bool, i64)> = scene.shutters.iter().map(|s| (s.door.open, s.door.yaw)).collect();
    push_message(&mut queue, Message::Toggle_Doors);
    update_scene(&mut queue, &mut state, &mut scene);
    push_message(&mut queue, Message::Toggle_Doors);
    update_scene(&mut queue, &mut state, &mut scene);
    let after: Vec<(bool, i64)> = scene.shutters.iter().map(|s| (s.door.open, s.door.yaw)).collect();
    assert_eq!(before, after);
}

#[test]
fn every_louver_flips() {
    let (mut queue, mut state, mut scene) = started();
    push_message(&mut queue, Message::Toggle_Louvers);
    update_scene(&mut queue, &mut state, &mut scene);
    let mut count = 0;
    for s in scene.shutters.iter() {
        for l in s.door.louvers.iter() {
            assert!(l.open);
            assert_eq!(l.tilt, -675);
            count += 1;
        }
    }
    assert_eq!(count, 20);
    update_scene(&mut queue, &mut state, &mut scene);
    assert!(scene.shutters[1].door.louvers.iter().all(|l| l.open && l.tilt == -675));
}

#[test]
fn commands_apply_in_order_within_one_frame() {
    let (mut queue, mut state, mut scene) = started();
    push_message(&mut queue, Message::Toggle_Doors);
    push_message(&mut queue, Message::Toggle_Louvers);
    push_message(&mut queue, Message::Toggle_Doors);
    update_scene(&mut queue, &mut state, &mut scene);
    assert!(queue.messages.is_empty());
    assert!(!state.door.open);
    assert!(state.louver.open);
    assert!(scene.shutters.iter().all(|s| !s.door.open && s.door.yaw == 0));
    assert!(scene.shutters.iter().all(|s| s.door.louvers.iter().all(|l| l.open)));
}

#[test]
fn toggle_angles_changes_nothing() {
    let (mut queue, mut state, mut scene) = started();
    push_message(&mut queue, Message::Toggle_Angles);
    update_scene(&mut queue, &mut state, &mut scene);
    assert!(!state.door.open);
    assert!(!state.louver.open);
}

#[test]
fn same_layout_code_rebuilds_once() {
    let (mut queue, mut state, mut scene) = started();
    set_layout_code(&mut queue, "RLR".to_string());
    assert!(update_scene(&mut queue, &mut state, &mut scene));
    assert_eq!(scene.shutters.len(), 3);
    set_layout_code(&mut queue, "RLR".to_string());
    assert!(!update_scene(&mut queue, &mut state, &mut scene));
    assert_eq!(scene.shutters.len(), 3);
    assert!(!update_scene(&mut queue, &mut state, &mut scene));
}

#[test]
fn latest_layout_code_wins() {
    let (mut queue, mut state, mut scene) = started();
    set_layout_code(&mut queue, "R".to_string());
    set_layout_code(&mut queue, "LLLL".to_string());
    assert!(update_scene(&mut queue, &mut state, &mut scene));
    assert_eq!(scene.shutters.len(), 4);
    assert_eq!(state.layout.code, "LLLL");
}

#[test]
fn rebuild_keeps_targets() {
    let (mut queue, mut state, mut scene) = started();
    push_message(&mut queue, Message::Toggle_Doors);
    set_layout_code(&mut queue, "LLL".to_string());
    update_scene(&mut queue, &mut state, &mut scene);
    assert_eq!(scene.shutters.len(), 3);
    assert!(scene.shutters.iter().all(|s| s.door.open && s.door.yaw == -450));
}

#[test]
fn latest_colour_wins() {
    let (mut queue, mut state, mut scene) = started();
    set_colour(&mut queue, Colour::Red);
    set_colour(&mut queue, Colour::Blue);
    update_scene(&mut queue, &mut state, &mut scene);
    assert_eq!(state.colour.colour, Colour::Blue);
    assert!(scene.shutters.iter().all(|s| s.colour == Colour::Blue));
    assert!(queue.colour.is_none());
}

fn gap(c: &Camera_Pose, t: &Camera_Pose) -> i64 {
    (c.x - t.x).abs() + (c.y - t.y).abs() + (c.z - t.z).abs()
}

#[test]
fn camera_approaches_top_view() {
    let (mut queue, mut state, mut scene) = started();
    assert_eq!(Camera_Transition::new().target, Camera_Pose { x: 0, y: 0, z: 9_000_000, pitch: 0 });
    push_message(&mut queue, Message::Top_View);
    update_scene(&mut queue, &mut state, &mut scene);
    let target = state.camera.target;
    assert_eq!(target, Camera_Pose { x: 0, y: 9_000_000, z: 0, pitch: -90_000_000 });
    assert_eq!(scene.camera, Camera_Pose { x: 0, y: 900_000, z: 8_100_000, pitch: -9_000_000 });
    let mut last = gap(&scene.camera, &target);
    for _ in 0..50 {
        update_scene(&mut queue, &mut state, &mut scene);
        let now = gap(&scene.camera, &target);
        assert!(now < last);
        assert!(now > 0);
        last = now;
    }
}

#[test]
fn front_view_restores_target() {
    let (mut queue, mut state, mut scene) = started();
    push_message(&mut queue, Message::Top_View);
    push_message(&mut queue, Message::Front_View);
    update_scene(&mut queue, &mut state, &mut scene);
    assert_eq!(scene.camera, Camera_Pose { x: 0, y: 0, z: 9_000_000, pitch: 0 });
}
