use vstd::prelude::*;
use vstd::std_specs::iter::IteratorSpec;

use crate::command::Colour;

verus! {

broadcast use vstd::string::axiom_spec_iter, vstd::string::next_postcondition;

/// Which vertical edge of a door panel it swings about.
#[derive(Debug, Clone, Copy, PartialEq, Eq, Structural)]
pub enum Hinge_Side {
    Left,
    Right,
}

/// The hinge side a layout character stands for, if any.
pub open spec fn hinge_of(c: char) -> Option<Hinge_Side> {
    if c == 'L' {
        Some(Hinge_Side::Left)
    } else if c == 'R' {
        Some(Hinge_Side::Right)
    } else {
        None
    }
}

/// The shutters a layout code describes, left to right: one per `L` or `R`.
pub open spec fn hinge_sides(code: Seq<char>) -> Seq<Hinge_Side>
    decreases code.len(),
{
    if code.len() == 0 {
        Seq::empty()
    } else {
        let rest = hinge_sides(code.drop_last());
        match hinge_of(code.last()) {
            Some(h) => rest.push(h),
            None => rest,
        }
    }
}

pub fn hinge_side(c: char) -> (r: Option<Hinge_Side>)
    ensures
        r == hinge_of(c),
{
    if c == 'L' {
        Some(Hinge_Side::Left)
    } else if c == 'R' {
        Some(Hinge_Side::Right)
    } else {
        None
    }
}

/// Reads the hinge sides out of a layout code; every other character is ignored.
pub fn parse_layout_code(code: &str) -> (r: Vec<Hinge_Side>)
    ensures
        r@ == hinge_sides(code@),
{
    let mut chars = code.chars();
    let mut r: Vec<Hinge_Side> = Vec::new();
    let ghost mut seen: Seq<char> = Seq::empty();
    loop
        invariant
            seen + chars.remaining() == code@,
            r@ == hinge_sides(seen),
            chars.decrease() is Some,
        ensures
            r@ == hinge_sides(code@),
        decreases chars.decrease()->0,
    {
        let ghost before = chars.remaining();
        match chars.next() {
            Some(c) => {
                proof {
                    let next_seen = seen.push(c);
                    assert(next_seen.drop_last() =~= seen);
                    assert(next_seen + before.drop_first() =~= code@);
                    seen = next_seen;
                }
                match hinge_side(c) {
                    Some(h) => r.push(h),
                    None => {},
                }
            },
            None => {
                proof {
                    assert(seen =~= code@);
                }
                break;
            },
        }
    }
    r
}

// Lengths are in thousandths of a scene unit, angles in tenths of a degree.

pub const SHUTTER_WIDTH: i64 = 500;
pub const SHUTTER_HEIGHT: i64 = 1000;
pub const SHUTTER_DEPTH: i64 = 50;
/// Every shutter is drawn at this uniform scale.
pub const SCALE: i64 = 3;
/// Distance between neighbouring shutters in the row.
pub const SHUTTER_STEP: i64 = (SHUTTER_WIDTH + SHUTTER_DEPTH) * SCALE;
pub const LOUVER_COUNT: usize = 10;
pub const LOUVER_HEIGHT: i64 = 100;
pub const LOUVER_DEPTH: i64 = 25;
/// Height of the lowest louver's centre.
pub const LOUVER_BASE: i64 = -450;
/// Tilt of a closed louver.
pub const LOUVER_REST_TILT: i64 = -225;
/// How far a louver turns when it opens or closes.
pub const LOUVER_TURN: i64 = 450;
/// Longest layout code the coordinates can hold.
pub const MAX_CODE_LEN: usize = 2_147_483_647;

/// One slat of a door: its height within the door, its tilt, and whether it is open.
#[derive(Debug, Clone, Copy, PartialEq, Eq, Structural)]
pub struct Louver {
    pub open: bool,
    pub y: i64,
    pub tilt: i64,
}

/// A door panel: its hinge, whether it is open, its turn about the hinge, and its louvers.
#[derive(Debug)]
pub struct Door {
    pub hinge: Hinge_Side,
    pub open: bool,
    pub yaw: i64,
    pub louvers: Vec<Louver>,
}

/// One box-shaped beam of a frame: centre and size.
#[derive(Debug, Clone, Copy, PartialEq, Eq, Structural)]
pub struct Beam {
    pub x: i64,
    pub y: i64,
    pub width: i64,
    pub height: i64,
    pub depth: i64,
}

/// The fixed frame around a door.
#[derive(Debug, Clone, Copy, PartialEq, Eq, Structural)]
pub struct Frame {
    pub left: Beam,
    pub right: Beam,
    pub top: Beam,
    pub bottom: Beam,
}

/// One door unit of the row: its place, its scale, the colour of its material, its door
/// and its frame.
#[derive(Debug)]
pub struct Shutter {
    pub x: i64,
    pub scale: i64,
    pub colour: Colour,
    pub door: Door,
    pub frame: Frame,
}

/// Where shutter `i` of a row of `n` stands: the row is centred on the origin.
pub open spec fn shutter_x(i: int, n: int) -> int {
    i * SHUTTER_STEP - (n * SHUTTER_STEP / 2 - SHUTTER_STEP / 2)
}

/// Height of louver `j` within its door.
pub open spec fn louver_y(j: int) -> int {
    j * LOUVER_HEIGHT + LOUVER_BASE
}

/// The frame: two side beams and two cross beams that bound the door and its depth.
pub open spec fn standard_frame() -> Frame {
    let half_w = (SHUTTER_WIDTH / 2) as i64;
    let half_h = (SHUTTER_HEIGHT / 2) as i64;
    let side = (SHUTTER_HEIGHT + SHUTTER_DEPTH) as i64;
    Frame {
        left: Beam { x: -half_w as i64, y: 0, width: SHUTTER_DEPTH, height: side, depth: SHUTTER_DEPTH },
        right: Beam { x: half_w, y: 0, width: SHUTTER_DEPTH, height: side, depth: SHUTTER_DEPTH },
        top: Beam { x: 0, y: half_h, width: SHUTTER_WIDTH, height: SHUTTER_DEPTH, depth: SHUTTER_DEPTH },
        bottom: Beam {
            x: 0,
            y: -half_h as i64,
            width: SHUTTER_WIDTH,
            height: SHUTTER_DEPTH,
            depth: SHUTTER_DEPTH,
        },
    }
}

/// A door as it is built: closed, unturned, with closed louvers evenly stacked.
pub open spec fn is_new_door(d: Door, hinge: Hinge_Side) -> bool {
    &&& d.hinge == hinge
    &&& !d.open
    &&& d.yaw == 0
    &&& d.louvers@.len() == LOUVER_COUNT
    &&& forall|j: int|
        0 <= j < LOUVER_COUNT ==> #[trigger] d.louvers@[j] == (Louver {
            open: false,
            y: louver_y(j) as i64,
            tilt: LOUVER_REST_TILT,
        })
}

/// Shutter `i` of a row of `n` as it is built.
pub open spec fn is_new_shutter(s: Shutter, hinge: Hinge_Side, i: int, n: int) -> bool {
    &&& s.x == shutter_x(i, n)
    &&& s.scale == SCALE
    &&& s.colour == Colour::White
    &&& is_new_door(s.door, hinge)
    &&& s.frame == standard_frame()
}

/// The row that a layout code describes, as it is built.
pub open spec fn is_layout_of(shutters: Seq<Shutter>, code: Seq<char>) -> bool {
    let sides = hinge_sides(code);
    &&& shutters.len() == sides.len()
    &&& forall|i: int|
        0 <= i < shutters.len() ==> is_new_shutter(
            #[trigger] shutters[i],
            sides[i],
            i,
            sides.len() as int,
        )
}

pub proof fn lemma_hinge_sides_len(code: Seq<char>)
    ensures
        hinge_sides(code).len() <= code.len(),
    decreases code.len(),
{
    if code.len() > 0 {
        lemma_hinge_sides_len(code.drop_last());
    }
}

/// Whether a character names a hinge side.
pub open spec fn is_hinge_char(c: char) -> bool {
    c == 'L' || c == 'R'
}

proof fn lemma_hinge_count(code: Seq<char>)
    ensures
        hinge_sides(code).len() == code.filter(|c: char| is_hinge_char(c)).len(),
    decreases code.len(),
{
    reveal(Seq::filter);
    if code.len() > 0 {
        lemma_hinge_count(code.drop_last());
    }
}

/// The row a layout code gives has one shutter per `L` or `R` in the code; the shutters
/// stand in order at a fixed step, symmetric about the origin.
pub proof fn lemma_row_geometry(code: Seq<char>, i: int)
    ensures
        hinge_sides(code).len() == code.filter(|c: char| is_hinge_char(c)).len(),
        0 <= i < hinge_sides(code).len() ==> shutter_x(i, hinge_sides(code).len() as int)
            + shutter_x(hinge_sides(code).len() - 1 - i, hinge_sides(code).len() as int) == 0,
        0 <= i && i + 1 < hinge_sides(code).len() ==> shutter_x(
            i + 1,
            hinge_sides(code).len() as int,
        ) == shutter_x(i, hinge_sides(code).len() as int) + SHUTTER_STEP,
{
    lemma_hinge_count(code);
    let n = hinge_sides(code).len() as int;
    assert(n * SHUTTER_STEP / 2 == n * (SHUTTER_STEP / 2)) by (nonlinear_arith)
        requires
            SHUTTER_STEP == 1650,
    ;
    assert((i + 1) * SHUTTER_STEP == i * SHUTTER_STEP + SHUTTER_STEP) by (nonlinear_arith);
    assert((n - 1 - i) * SHUTTER_STEP == n * SHUTTER_STEP - SHUTTER_STEP - i * SHUTTER_STEP)
        by (nonlinear_arith);
}

fn build_frame() -> (f: Frame)
    ensures
        f == standard_frame(),
{
    let half_w = SHUTTER_WIDTH / 2;
    let half_h = SHUTTER_HEIGHT / 2;
    let side = SHUTTER_HEIGHT + SHUTTER_DEPTH;
    Frame {
        left: Beam { x: -half_w, y: 0, width: SHUTTER_DEPTH, height: side, depth: SHUTTER_DEPTH },
        right: Beam { x: half_w, y: 0, width: SHUTTER_DEPTH, height: side, depth: SHUTTER_DEPTH },
        top: Beam { x: 0, y: half_h, width: SHUTTER_WIDTH, height: SHUTTER_DEPTH, depth: SHUTTER_DEPTH },
        bottom: Beam {
            x: 0,
            y: -half_h,
            width: SHUTTER_WIDTH,
            height: SHUTTER_DEPTH,
            depth: SHUTTER_DEPTH,
        },
    }
}

fn build_door(hinge: Hinge_Side) -> (d: Door)
    ensures
        is_new_door(d, hinge),
{
    let mut louvers: Vec<Louver> = Vec::new();
    let mut j: usize = 0;
    while j < LOUVER_COUNT
        invariant
            j <= LOUVER_COUNT,
            louvers@.len() == j,
            forall|k: int|
                0 <= k < j ==> #[trigger] louvers@[k] == (Louver {
                    open: false,
                    y: louver_y(k) as i64,
                    tilt: LOUVER_REST_TILT,
                }),
        decreases LOUVER_COUNT - j,
    {
        let y = j as i64 * LOUVER_HEIGHT + LOUVER_BASE;
        louvers.push(Louver { open: false, y, tilt: LOUVER_REST_TILT });
        j += 1;
    }
    Door { hinge, open: false, yaw: 0, louvers }
}

/// Builds the row of shutters that a layout code describes, centred on the origin.
pub fn spawn_doors(code: &str) -> (r: Vec<Shutter>)
    requires
        code@.len() <= MAX_CODE_LEN,
    ensures
        is_layout_of(r@, code@),
{
    let sides = parse_layout_code(code);
    proof {
        lemma_hinge_sides_len(code@);
    }
    let n = sides.len();
    proof {
        assert(0 <= n * SHUTTER_STEP <= MAX_CODE_LEN * SHUTTER_STEP) by (nonlinear_arith)
            requires
                n <= MAX_CODE_LEN,
                SHUTTER_STEP > 0,
        ;
    }
    let offset = n as i64 * SHUTTER_STEP / 2 - SHUTTER_STEP / 2;
    let mut r: Vec<Shutter> = Vec::new();
    let mut i: usize = 0;
    while i < n
        invariant
            n == sides@.len(),
            sides@ == hinge_sides(code@),
            n <= MAX_CODE_LEN,
            offset == n * SHUTTER_STEP / 2 - SHUTTER_STEP / 2,
            0 <= n * SHUTTER_STEP <= MAX_CODE_LEN * SHUTTER_STEP,
            i <= n,
            r@.len() == i,
            forall|k: int| 0 <= k < i ==> is_new_shutter(#[trigger] r@[k], sides@[k], k, n as int),
        decreases n - i,
    {
        proof {
            assert(0 <= i * SHUTTER_STEP <= n * SHUTTER_STEP) by (nonlinear_arith)
                requires
                    i <= n,
                    SHUTTER_STEP > 0,
            ;
        }
        let shutter = Shutter {
            x: i as i64 * SHUTTER_STEP - offset,
            scale: SCALE,
            colour: Colour::White,
            door: build_door(sides[i]),
            frame: build_frame(),
        };
        r.push(shutter);
        i += 1;
    }
    r
}

} // verus!
