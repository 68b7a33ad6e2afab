//! The step clock's read side: pure sprite-sheet and screen geometry.
//!
//! Nothing here mutates the actor or the grid. Given an actor and the
//! current frame, these functions derive the animation sub-frame (as a
//! sprite-sheet source rectangle) and the interpolated screen position (as
//! a destination rectangle): a walking actor moves linearly between the
//! source and target cell centres over the 8 steps of a traversal, a dying
//! actor is drawn frozen between the two cells of its interrupted move,
//! and the fade sequences index their sheets by the elapsed step.
//!
//! Cells are 32 pixels; the walking and fade sprites are 36x50, the death
//! sprites 44x54, each sheet one row indexed by its animation frame.

use vstd::prelude::*;

use crate::actor::{elapsed_steps, Bobby, State, FRAMES_PER_STEP};

verus! {

/// A rectangle in sheet or screen coordinates: top-left corner and size.
#[derive(Clone, Copy, Debug, PartialEq, Eq, Structural)]
pub struct SpriteRect {
    /// Left edge.
    pub x: i32,
    /// Top edge.
    pub y: i32,
    /// Width.
    pub w: u32,
    /// Height.
    pub h: u32,
}

/// The elapsed step clamped to the 8 steps of one traversal or fade.
pub open spec fn clamp8(step: int) -> int {
    if step > 8 {
        8
    } else {
        step
    }
}

/// The sprite-sheet source rectangle for the actor's current pose: the
/// idle sway cycles three frames at half speed, the death sheet advances
/// every third step and holds its last frame, the fades play their eight
/// frames once (reveal backwards, dissolve forwards), and a walking actor
/// cycles the eight stride frames (a standing one holds the last).
pub open spec fn sprite_src_spec(b: Bobby, step: int) -> SpriteRect {
    match b.state {
        State::Idle => SpriteRect { x: (36 * ((step / 2) % 3)) as i32, y: 0, w: 36, h: 50 },
        State::Death => SpriteRect {
            x: (44 * (if step / 3 > 7 {
                7int
            } else {
                step / 3
            })) as i32,
            y: 0,
            w: 44,
            h: 54,
        },
        State::FadeIn => SpriteRect { x: (36 * (8 - clamp8(step))) as i32, y: 0, w: 36, h: 50 },
        State::FadeOut => SpriteRect { x: (36 * clamp8(step)) as i32, y: 0, w: 36, h: 50 },
        _ => SpriteRect {
            x: (if b.coord_src != b.coord_dest {
                36 * ((step + 7) % 8)
            } else {
                36 * 7int
            }) as i32,
            y: 0,
            w: 36,
            h: 50,
        },
    }
}

/// The top-left pixel of the cell the actor is drawn at: the source cell
/// while standing, a linear interpolation 4 pixels per step toward the
/// target while walking, and the midpoint of the interrupted move while
/// the death sequence plays.
pub open spec fn anchor_pixel_spec(b: Bobby, step: int) -> (int, int) {
    let sx = 32 * b.coord_src.0;
    let sy = 32 * b.coord_src.1;
    if b.coord_src == b.coord_dest {
        (sx, sy)
    } else {
        match b.state {
            State::Death => (
                16 * (b.coord_src.0 + b.coord_dest.0),
                16 * (b.coord_src.1 + b.coord_dest.1),
            ),
            State::Left => (sx - 4 * clamp8(step), sy),
            State::Right => (sx + 4 * clamp8(step), sy),
            State::Up => (sx, sy - 4 * clamp8(step)),
            State::Down => (sx, sy + 4 * clamp8(step)),
            _ => (sx, sy),
        }
    }
}

/// The screen destination rectangle: the anchor pixel shifted so the
/// sprite is centred on the cell horizontally and stands on its lower
/// half vertically.
pub open spec fn sprite_dest_spec(b: Bobby, step: int) -> SpriteRect {
    let p = anchor_pixel_spec(b, step);
    if b.state == State::Death {
        SpriteRect { x: (p.0 - 6) as i32, y: (p.1 - 22) as i32, w: 44, h: 54 }
    } else {
        SpriteRect { x: (p.0 - 2) as i32, y: (p.1 - 18) as i32, w: 36, h: 50 }
    }
}

impl Bobby {
    /// Derives the sprite-sheet source rectangle and the screen
    /// destination rectangle for the current frame. Pure: the host reads
    /// this every tick and it never changes the actor or the grid.
    pub fn texture_position(&self, frame: u32) -> (r: (SpriteRect, SpriteRect))
        requires
            self.wf(),
            frame >= self.start_frame,
        ensures
            r.0 == sprite_src_spec(*self, elapsed_steps(*self, frame)),
            r.1 == sprite_dest_spec(*self, elapsed_steps(*self, frame)),
    {
        let step = (frame - self.start_frame) / FRAMES_PER_STEP;
        let s8 = if step > 8 {
            8
        } else {
            step
        };
        let walking = self.is_walking();
        let src = match self.state {
            State::Idle => SpriteRect { x: (36 * ((step / 2) % 3)) as i32, y: 0, w: 36, h: 50 },
            State::Death => {
                let sd = if step / 3 > 7 {
                    7
                } else {
                    step / 3
                };
                SpriteRect { x: (44 * sd) as i32, y: 0, w: 44, h: 54 }
            },
            State::FadeIn => SpriteRect { x: (36 * (8 - s8)) as i32, y: 0, w: 36, h: 50 },
            State::FadeOut => SpriteRect { x: (36 * s8) as i32, y: 0, w: 36, h: 50 },
            State::Left | State::Right | State::Up | State::Down => {
                let xx = if walking {
                    36 * ((step + 7) % 8)
                } else {
                    36 * 7
                };
                SpriteRect { x: xx as i32, y: 0, w: 36, h: 50 }
            },
        };
        let anchor: (u32, u32) = if !walking {
            (self.coord_src.0 * 32, self.coord_src.1 * 32)
        } else {
            match self.state {
                State::Death => (
                    16 * (self.coord_src.0 + self.coord_dest.0),
                    16 * (self.coord_src.1 + self.coord_dest.1),
                ),
                State::Left => (self.coord_src.0 * 32 - 4 * s8, self.coord_src.1 * 32),
                State::Right => (self.coord_src.0 * 32 + 4 * s8, self.coord_src.1 * 32),
                State::Up => (self.coord_src.0 * 32, self.coord_src.1 * 32 - 4 * s8),
                State::Down => (self.coord_src.0 * 32, self.coord_src.1 * 32 + 4 * s8),
                _ => (self.coord_src.0 * 32, self.coord_src.1 * 32),
            }
        };
        let dst = if self.state == State::Death {
            SpriteRect { x: anchor.0 as i32 - 6, y: anchor.1 as i32 - 22, w: 44, h: 54 }
        } else {
            SpriteRect { x: anchor.0 as i32 - 2, y: anchor.1 as i32 - 18, w: 36, h: 50 }
        };
        (src, dst)
    }
}

} // verus!
