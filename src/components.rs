use vstd::prelude::*;
use crate::direction::{Direction, IVec2, unit_of};

verus! {

/// Size of a sprite in pixels.
#[derive(Clone, Copy, Debug, PartialEq, Eq, Structural)]
pub struct SpriteSize(pub IVec2);

impl From<(i64, i64)> for SpriteSize {
    fn from(val: (i64, i64)) -> (r: SpriteSize)
        ensures
            r.0.x == val.0,
            r.0.y == val.1,
    {
        SpriteSize(IVec2 { x: val.0, y: val.1 })
    }
}

impl vstd::std_specs::convert::FromSpecImpl<(i64, i64)> for SpriteSize {
    open spec fn obeys_from_spec() -> bool {
        true
    }

    open spec fn from_spec(val: (i64, i64)) -> SpriteSize {
        SpriteSize(IVec2 { x: val.0, y: val.1 })
    }
}

impl From<Direction> for IVec2 {
    fn from(dir: Direction) -> (r: IVec2)
        ensures
            (r.x as int, r.y as int) == unit_of(dir),
    {
        dir.unit_vector()
    }
}

impl vstd::std_specs::convert::FromSpecImpl<Direction> for IVec2 {
    open spec fn obeys_from_spec() -> bool {
        true
    }

    open spec fn from_spec(dir: Direction) -> IVec2 {
        IVec2 { x: unit_of(dir).0 as i64, y: unit_of(dir).1 as i64 }
    }
}

/// Size of the game window in pixels.
#[derive(Clone, Copy, Debug, PartialEq, Eq, Structural)]
pub struct WinSize {
    pub w: u32,
    pub h: u32,
}

/// Side of one attack frame in the sprite sheet, in pixels.
pub const ATTACK_FRAME_SIDE: i64 = 32;

/// Row of the sprite sheet where the attack frames begin, in pixels.
pub const ATTACK_SHEET_TOP: i64 = 128;

/// A rectangle of the sprite sheet, in pixels.
#[derive(Clone, Copy, Debug, PartialEq, Eq, Structural)]
pub struct FrameRect {
    pub min: IVec2,
    pub max: IVec2,
}

/// The attack frame at atlas index `k`: four to a row, rows from the top of
/// the attack part of the sheet.
pub open spec fn attack_frame(k: int) -> FrameRect {
    let x = (k % 4) * ATTACK_FRAME_SIDE;
    let y = ATTACK_SHEET_TOP + (k / 4) * ATTACK_FRAME_SIDE;
    FrameRect {
        min: IVec2 { x: x as i64, y: y as i64 },
        max: IVec2 { x: (x + ATTACK_FRAME_SIDE) as i64, y: (y + ATTACK_FRAME_SIDE) as i64 },
    }
}

/// The sixteen rectangles of the attack atlas, in atlas index order.
pub fn attack_atlas_frames() -> (r: Vec<FrameRect>)
    ensures
        r@.len() == 16,
        forall|k: int| 0 <= k < 16 ==> #[trigger] r@[k] == attack_frame(k),
{
    let mut frames: Vec<FrameRect> = Vec::new();
    let mut row: i64 = 0;
    while row < 4
        invariant
            0 <= row <= 4,
            frames@.len() == row * 4,
            forall|k: int| 0 <= k < row * 4 ==> #[trigger] frames@[k] == attack_frame(k),
        decreases 4 - row,
    {
        let mut col: i64 = 0;
        while col < 4
            invariant
                0 <= row < 4,
                0 <= col <= 4,
                frames@.len() == row * 4 + col,
                forall|k: int| 0 <= k < row * 4 + col ==> #[trigger] frames@[k] == attack_frame(k),
            decreases 4 - col,
        {
            let min_x: i64 = col * ATTACK_FRAME_SIDE;
            let min_y: i64 = ATTACK_SHEET_TOP + row * ATTACK_FRAME_SIDE;
            let rect = FrameRect {
                min: IVec2 { x: min_x, y: min_y },
                max: IVec2 { x: min_x + ATTACK_FRAME_SIDE, y: min_y + ATTACK_FRAME_SIDE },
            };
            proof {
                let k = row * 4 + col;
                assert(k % 4 == col && k / 4 == row) by (nonlinear_arith)
                    requires k == row * 4 + col, 0 <= col < 4, 0 <= row;
                assert(rect == attack_frame(k));
            }
            frames.push(rect);
            col += 1;
        }
        row += 1;
    }
    frames
}

} // verus!
