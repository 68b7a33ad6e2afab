//! The actor state machine.
//!
//! The actor owns a current cell and a target cell (equal when it stands
//! still, one step apart while it traverses a cell), a state that doubles
//! as its facing, a buffered direction, and its inventory. Move requests
//! are validated against the tile rules; the per-tick [`Bobby::advance`]
//! resolves departure and arrival effects exactly when the elapsed steps
//! cross the traversal boundaries.
//!
//! The clock model: the host frame counter advances once per tick, a step
//! lasts [`FRAMES_PER_STEP`] ticks, and a full cell traversal lasts 8
//! steps.

use vstd::prelude::*;

use crate::level::MapInfo;
use crate::tile::{
    apply_global_toggle, count_code, depart_code, departed, lemma_count_pos,
    lemma_count_update_inventory, lemma_toggle_keeps_inventory_counts, toggled, SwitchKind,
};

verus! {

/// How many host frames one animation step lasts.
pub const FRAMES_PER_STEP: u32 = 2;

/// How long a standing actor waits for directional input before taking
/// the idle pose, in the host clock's millisecond ticks.
pub const IDLE_TIMEOUT: u32 = 4000;

/// The actor's state: an animation selector that doubles as its facing and
/// motion capability.
#[derive(Clone, Copy, Debug, PartialEq, Eq, Structural)]
pub enum State {
    /// Standing still after the idle timeout.
    Idle,
    /// Playing the death sequence; ends with the `dead` flag.
    Death,
    /// The spawn reveal; ends in the controllable `Down` facing.
    FadeIn,
    /// The level-exit dissolve; ends with the `faded_out` flag.
    FadeOut,
    /// Facing or walking left.
    Left,
    /// Facing or walking right.
    Right,
    /// Facing or walking up.
    Up,
    /// Facing or walking down.
    Down,
}

/// The four walking states.
pub open spec fn is_direction(s: State) -> bool {
    s == State::Left || s == State::Right || s == State::Up || s == State::Down
}

/// The states a move request may interrupt: everything but the death and
/// fade sequences.
pub open spec fn controllable(s: State) -> bool {
    s != State::Death && s != State::FadeIn && s != State::FadeOut
}

/// Whether a new direction may be buffered over the currently queued one:
/// a pending special transition is never overwritten.
pub open spec fn queue_open(ns: Option<State>) -> bool {
    match ns {
        Option::None => true,
        Option::Some(s) => is_direction(s),
    }
}

/// The row-major cell index of a coordinate pair on the 16x16 board.
pub open spec fn cell_index(c: (u32, u32)) -> int {
    c.0 + 16 * c.1
}

/// Both coordinates lie on the 16x16 board.
pub open spec fn in_bounds(c: (u32, u32)) -> bool {
    c.0 < 16 && c.1 < 16
}

/// One cell step in the given direction, clamped to the board: a step that
/// would leave the board stays put.
pub open spec fn shifted(c: (u32, u32), s: State) -> (u32, u32) {
    match s {
        State::Left => if c.0 > 0 {
            (((c.0 - 1) as u32), c.1)
        } else {
            c
        },
        State::Right => if c.0 < 15 {
            (((c.0 + 1) as u32), c.1)
        } else {
            c
        },
        State::Up => if c.1 > 0 {
            (c.0, ((c.1 - 1) as u32))
        } else {
            c
        },
        State::Down => if c.1 < 15 {
            (c.0, ((c.1 + 1) as u32))
        } else {
            c
        },
        _ => c,
    }
}

/// Whether the destination tile `t` forbids being entered while moving in
/// direction `s`: rotator corners and barriers block two directions each,
/// a conveyor blocks entry against and across its flow.
pub open spec fn entry_blocks(t: u8, s: State) -> bool {
    ||| t == 24 && (s == State::Right || s == State::Down)
    ||| t == 25 && (s == State::Left || s == State::Down)
    ||| t == 26 && (s == State::Left || s == State::Up)
    ||| t == 27 && (s == State::Right || s == State::Up)
    ||| (t == 28 || t == 40 || t == 41) && (s == State::Up || s == State::Down)
    ||| (t == 29 || t == 42 || t == 43) && (s == State::Left || s == State::Right)
    ||| t == 40 && s == State::Right
    ||| t == 41 && s == State::Left
    ||| t == 42 && s == State::Down
    ||| t == 43 && s == State::Up
}

/// Whether the departed tile `t` forbids leaving in direction `s`: the
/// mirror image of [`entry_blocks`] for rotator corners, the same
/// directions for barriers and conveyors.
pub open spec fn exit_blocks(t: u8, s: State) -> bool {
    ||| t == 24 && (s == State::Left || s == State::Up)
    ||| t == 25 && (s == State::Right || s == State::Up)
    ||| t == 26 && (s == State::Right || s == State::Down)
    ||| t == 27 && (s == State::Left || s == State::Down)
    ||| (t == 28 || t == 40 || t == 41) && (s == State::Up || s == State::Down)
    ||| (t == 29 || t == 42 || t == 43) && (s == State::Left || s == State::Right)
    ||| t == 40 && s == State::Right
    ||| t == 41 && s == State::Left
    ||| t == 42 && s == State::Down
    ||| t == 43 && s == State::Up
}

/// The full rejection rule for a move in direction `s` from a cell holding
/// `old_t` onto a cell holding `new_t`: solid art, a lock without the
/// matching key, a directional block on either end, or an egg husk.
pub open spec fn move_blocked(
    old_t: u8,
    new_t: u8,
    s: State,
    key_gray: usize,
    key_yellow: usize,
    key_red: usize,
) -> bool {
    ||| new_t < 18
    ||| new_t == 33 && key_gray == 0
    ||| new_t == 35 && key_yellow == 0
    ||| new_t == 37 && key_red == 0
    ||| entry_blocks(new_t, s)
    ||| new_t == 46
    ||| exit_blocks(old_t, s)
}

/// Decides [`entry_blocks`], as a computation.
pub fn entry_blocked(t: u8, s: State) -> (r: bool)
    ensures
        r == entry_blocks(t, s),
{
    (t == 24 && (s == State::Right || s == State::Down)) || (t == 25 && (s == State::Left || s
        == State::Down)) || (t == 26 && (s == State::Left || s == State::Up)) || (t == 27 && (s
        == State::Right || s == State::Up)) || ((t == 28 || t == 40 || t == 41) && (s == State::Up
        || s == State::Down)) || ((t == 29 || t == 42 || t == 43) && (s == State::Left || s
        == State::Right)) || (t == 40 && s == State::Right) || (t == 41 && s == State::Left) || (t
        == 42 && s == State::Down) || (t == 43 && s == State::Up)
}

/// Decides [`exit_blocks`], as a computation.
pub fn exit_blocked(t: u8, s: State) -> (r: bool)
    ensures
        r == exit_blocks(t, s),
{
    (t == 24 && (s == State::Left || s == State::Up)) || (t == 25 && (s == State::Right || s
        == State::Up)) || (t == 26 && (s == State::Right || s == State::Down)) || (t == 27 && (s
        == State::Left || s == State::Down)) || ((t == 28 || t == 40 || t == 41) && (s == State::Up
        || s == State::Down)) || ((t == 29 || t == 42 || t == 43) && (s == State::Left || s
        == State::Right)) || (t == 40 && s == State::Right) || (t == 41 && s == State::Left) || (t
        == 42 && s == State::Down) || (t == 43 && s == State::Up)
}

/// The controllable actor.
pub struct Bobby {
    /// Animation state and facing.
    pub state: State,
    /// The buffered follow-up state: a queued direction, or the scheduled
    /// death when the actor walks onto an armed trap.
    pub next_state: Option<State>,
    /// The frame at which the current state or move began.
    pub start_frame: u32,
    /// The timestamp at which this life began.
    pub start_time: u32,
    /// The timestamp of the last directional input.
    pub last_action_time: u32,
    /// The cell the actor stands on or departs from.
    pub coord_src: (u32, u32),
    /// The cell the actor moves toward; equals `coord_src` when standing.
    pub coord_dest: (u32, u32),
    /// Carrots collected this life.
    pub carrot_count: usize,
    /// Eggs collected this life.
    pub egg_count: usize,
    /// Gray keys held.
    pub key_gray: usize,
    /// Yellow keys held.
    pub key_yellow: usize,
    /// Red keys held.
    pub key_red: usize,
    /// Set when the fade-out sequence has completed; the host then advances
    /// the level.
    pub faded_out: bool,
    /// Set when the death sequence has completed; the host then restarts
    /// the level.
    pub dead: bool,
}

/// The whole-step count elapsed since the actor's current state began.
pub open spec fn elapsed_steps(b: Bobby, frame: u32) -> int {
    (frame - b.start_frame) / (FRAMES_PER_STEP as int)
}

impl Bobby {
    /// Well-formedness: both cells lie on the board, and while the actor
    /// traverses a cell the target is exactly one step from the source in
    /// the walking direction (the death sequence may also hold two distinct
    /// cells, frozen from the interrupted move).
    pub open spec fn wf(self) -> bool {
        &&& in_bounds(self.coord_src)
        &&& in_bounds(self.coord_dest)
        &&& self.coord_src != self.coord_dest ==> (self.state == State::Death || (is_direction(
            self.state,
        ) && self.coord_dest == shifted(self.coord_src, self.state)))
    }

    /// The inventory counts are consistent with the grid: what was
    /// collected plus what is still on the board never exceeds the board
    /// size, so a pickup can always be counted.
    pub open spec fn inventory_ok(self, g: Seq<u8>) -> bool {
        &&& self.carrot_count + count_code(g, 19) <= 256
        &&& self.egg_count + count_code(g, 45) <= 256
        &&& self.key_gray + count_code(g, 32) <= 256
        &&& self.key_yellow + count_code(g, 34) <= 256
        &&& self.key_red + count_code(g, 36) <= 256
    }

    /// A fresh actor at the given spawn cell: fading in, standing still,
    /// with an empty inventory.
    pub fn new(start_frame: u32, start_time: u32, coord_src: (u32, u32)) -> (b: Bobby)
        requires
            in_bounds(coord_src),
        ensures
            b == (Bobby {
                state: State::FadeIn,
                next_state: None,
                start_frame,
                start_time,
                last_action_time: start_time,
                coord_src,
                coord_dest: coord_src,
                carrot_count: 0,
                egg_count: 0,
                key_gray: 0,
                key_yellow: 0,
                key_red: 0,
                faded_out: false,
                dead: false,
            }),
            b.wf(),
            forall|g: Seq<u8>| g.len() <= 256 ==> #[trigger] b.inventory_ok(g),
    {
        let b = Bobby {
            state: State::FadeIn,
            next_state: None,
            start_frame,
            start_time,
            last_action_time: start_time,
            coord_src,
            coord_dest: coord_src,
            carrot_count: 0,
            egg_count: 0,
            key_gray: 0,
            key_yellow: 0,
            key_red: 0,
            faded_out: false,
            dead: false,
        };
        proof {
            assert forall|g: Seq<u8>| g.len() <= 256 implies #[trigger] b.inventory_ok(g) by {
                crate::tile::lemma_count_le_len(g, 19);
                crate::tile::lemma_count_le_len(g, 45);
                crate::tile::lemma_count_le_len(g, 32);
                crate::tile::lemma_count_le_len(g, 34);
                crate::tile::lemma_count_le_len(g, 36);
            }
        }
        b
    }

    /// Whether the actor is mid-traversal.
    pub fn is_walking(&self) -> (r: bool)
        ensures
            r == (self.coord_src != self.coord_dest),
    {
        self.coord_src.0 != self.coord_dest.0 || self.coord_src.1 != self.coord_dest.1
    }

    /// Whether the queued follow-up state equals `s`.
    fn next_is(&self, s: State) -> (r: bool)
        ensures
            r == (self.next_state == Some(s)),
    {
        match self.next_state {
            Some(x) => x == s,
            None => false,
        }
    }

    /// Whether every collectible the level asks for has been collected:
    /// all carrots when the level has any, otherwise all eggs.
    pub fn is_finished(&self, map_info: &MapInfo) -> (r: bool)
        ensures
            r == finished(*self, *map_info),
    {
        if map_info.carrot_total > 0 {
            self.carrot_count == map_info.carrot_total
        } else {
            self.egg_count == map_info.egg_total
        }
    }

    /// Whether the win condition holds: the actor stands still on the
    /// finish tile with every collectible collected.
    pub fn wins(&self, map_info: &MapInfo) -> (r: bool)
        requires
            self.wf(),
            map_info.data@.len() == 256,
        ensures
            r == win_condition(*self, *map_info),
    {
        let pos = (self.coord_src.0 + self.coord_src.1 * 16) as usize;
        !self.is_walking() && map_info.data[pos] == 44 && self.is_finished(map_info)
    }

    /// Validates the current facing as a move: steps the target cell one
    /// cell in the facing direction (clamped to the board), then reverts it
    /// if the tile rules reject the move; an armed trap accepts the move
    /// but schedules the death transition instead.
    pub fn update_dest(&mut self, map_data: &Vec<u8>)
        requires
            old(self).wf(),
            old(self).coord_src == old(self).coord_dest,
            map_data@.len() == 256,
        ensures
            *final(self) == update_dest_spec(*old(self), map_data@),
            final(self).wf(),
    {
        let old_dest = self.coord_dest;
        match self.state {
            State::Left => if self.coord_dest.0 > 0 {
                self.coord_dest = (self.coord_dest.0 - 1, self.coord_dest.1);
            },
            State::Right => if self.coord_dest.0 < 15 {
                self.coord_dest = (self.coord_dest.0 + 1, self.coord_dest.1);
            },
            State::Up => if self.coord_dest.1 > 0 {
                self.coord_dest = (self.coord_dest.0, self.coord_dest.1 - 1);
            },
            State::Down => if self.coord_dest.1 < 15 {
                self.coord_dest = (self.coord_dest.0, self.coord_dest.1 + 1);
            },
            _ => (),
        }
        let old_pos = (self.coord_src.0 + self.coord_src.1 * 16) as usize;
        let new_pos = (self.coord_dest.0 + self.coord_dest.1 * 16) as usize;
        let old_item = map_data[old_pos];
        let new_item = map_data[new_pos];
        if new_item < 18 || (new_item == 33 && self.key_gray == 0) || (new_item == 35
            && self.key_yellow == 0) || (new_item == 37 && self.key_red == 0) || entry_blocked(
            new_item,
            self.state,
        ) || new_item == 46 || exit_blocked(old_item, self.state) {
            self.coord_dest = old_dest;
        } else if new_item == 31 {
            self.next_state = Some(State::Death);
        }
    }

    /// Begins a new state immediately: records the facing and the start
    /// frame, then validates the move via [`Bobby::update_dest`].
    pub fn update_state(&mut self, state: State, frame: u32, map_data: &Vec<u8>)
        requires
            old(self).wf(),
            old(self).coord_src == old(self).coord_dest,
            map_data@.len() == 256,
        ensures
            *final(self) == update_state_spec(*old(self), state, frame, map_data@),
            final(self).wf(),
    {
        self.start_frame = frame;
        self.state = state;
        self.update_dest(map_data);
    }

    /// Buffers a direction while the actor is mid-traversal: accepted only
    /// after more than 3 elapsed steps and only while no special transition
    /// is already pending.
    pub fn update_next_state(&mut self, state: State, frame: u32)
        requires
            frame >= old(self).start_frame,
        ensures
            *final(self) == update_next_state_spec(*old(self), state, frame),
    {
        if (frame - self.start_frame) / FRAMES_PER_STEP > 3 && !self.next_is(State::Idle)
            && !self.next_is(State::Death) && !self.next_is(State::FadeIn) && !self.next_is(
            State::FadeOut,
        ) {
            self.next_state = Some(state);
        }
    }

    /// A directional input: refreshes the input clock, then either starts
    /// the move at once (standing and controllable), buffers it
    /// (mid-traversal), or does nothing more (death or fade in progress).
    pub fn request_direction(&mut self, d: State, frame: u32, now: u32, map_data: &Vec<u8>)
        requires
            old(self).wf(),
            is_direction(d),
            frame >= old(self).start_frame,
            map_data@.len() == 256,
        ensures
            *final(self) == request_direction_spec(*old(self), d, frame, now, map_data@),
            final(self).wf(),
    {
        self.last_action_time = now;
        if self.is_walking() {
            self.update_next_state(d, frame);
        } else if !(self.state == State::Death || self.state == State::FadeIn || self.state
            == State::FadeOut) {
            self.update_state(d, frame, map_data);
        }
    }

    /// Begins the level-exit dissolve, unless it is already playing. The
    /// host calls this when the win condition holds, never mid-traversal.
    pub fn start_fade_out(&mut self, frame: u32)
        requires
            old(self).coord_src == old(self).coord_dest,
        ensures
            *final(self) == (if old(self).state == State::FadeOut {
                *old(self)
            } else {
                Bobby { state: State::FadeOut, start_frame: frame, ..*old(self) }
            }),
            old(self).wf() ==> final(self).wf(),
    {
        if !(self.state == State::FadeOut) {
            self.start_frame = frame;
            self.state = State::FadeOut;
        }
    }

    /// Resolves a completed cell traversal: applies the departure effect
    /// at the source cell, the arrival effect at the target cell, moves
    /// the actor onto the target, and consumes the buffered follow-up
    /// state through the ordinary request path.
    #[verifier::rlimit(100)]
    fn resolve_arrival(&mut self, frame: u32, map_data: &mut Vec<u8>)
        requires
            old(self).wf(),
            old(self).coord_src != old(self).coord_dest,
            old(map_data)@.len() == 256,
            old(self).inventory_ok(old(map_data)@),
        ensures
            *final(self) == resolve_arrival_spec(*old(self), frame, old(map_data)@).0,
            final(map_data)@ == resolve_arrival_spec(*old(self), frame, old(map_data)@).1,
            final(self).wf(),
            final(self).inventory_ok(final(map_data)@),
            final(map_data)@.len() == 256,
    {
        let ghost g0 = map_data@;
        let old_pos = (self.coord_src.0 + self.coord_src.1 * 16) as usize;
        let new_pos = (self.coord_dest.0 + self.coord_dest.1 * 16) as usize;
        let dep = map_data[old_pos];
        let depv = depart_code(dep);
        map_data.set(old_pos, depv);
        proof {
            lemma_count_update_inventory(g0, old_pos as int, departed(dep));
        }
        if dep == 45 {
            proof {
                lemma_count_pos(g0, 45, old_pos as int);
            }
            self.egg_count = self.egg_count + 1;
        }
        let ghost g1 = map_data@;
        let arr = map_data[new_pos];
        match arr {
            19 => {
                proof {
                    lemma_count_pos(g1, 19, new_pos as int);
                    lemma_count_update_inventory(g1, new_pos as int, 20);
                }
                map_data.set(new_pos, 20);
                self.carrot_count = self.carrot_count + 1;
            },
            22 => {
                proof {
                    lemma_toggle_keeps_inventory_counts(g1, SwitchKind::Red);
                }
                apply_global_toggle(map_data, SwitchKind::Red);
            },
            32 => {
                proof {
                    lemma_count_pos(g1, 32, new_pos as int);
                    lemma_count_update_inventory(g1, new_pos as int, 18);
                }
                map_data.set(new_pos, 18);
                self.key_gray = self.key_gray + 1;
            },
            33 => if self.key_gray > 0 {
                proof {
                    lemma_count_update_inventory(g1, new_pos as int, 18);
                }
                map_data.set(new_pos, 18);
                self.key_gray = self.key_gray - 1;
            },
            34 => {
                proof {
                    lemma_count_pos(g1, 34, new_pos as int);
                    lemma_count_update_inventory(g1, new_pos as int, 18);
                }
                map_data.set(new_pos, 18);
                self.key_yellow = self.key_yellow + 1;
            },
            35 => if self.key_yellow > 0 {
                proof {
                    lemma_count_update_inventory(g1, new_pos as int, 18);
                }
                map_data.set(new_pos, 18);
                self.key_yellow = self.key_yellow - 1;
            },
            36 => {
                proof {
                    lemma_count_pos(g1, 36, new_pos as int);
                    lemma_count_update_inventory(g1, new_pos as int, 18);
                }
                map_data.set(new_pos, 18);
                self.key_red = self.key_red + 1;
            },
            37 => if self.key_red > 0 {
                proof {
                    lemma_count_update_inventory(g1, new_pos as int, 18);
                }
                map_data.set(new_pos, 18);
                self.key_red = self.key_red - 1;
            },
            38 => {
                proof {
                    lemma_toggle_keeps_inventory_counts(g1, SwitchKind::Yellow);
                }
                apply_global_toggle(map_data, SwitchKind::Yellow);
            },
            40 => self.next_state = Some(State::Left),
            41 => self.next_state = Some(State::Right),
            42 => self.next_state = Some(State::Up),
            43 => self.next_state = Some(State::Down),
            _ => (),
        }
        self.coord_src = self.coord_dest;
        self.start_frame = frame;
        let ns = self.next_state;
        self.next_state = None;
        match ns {
            Some(s) => self.update_state(s, frame, map_data),
            None => (),
        }
    }

    /// Advances the step clock one tick: completes a death or fade
    /// sequence whose last step has elapsed, triggers a scheduled trap
    /// death at step 6 of a traversal, and resolves tile effects at step 8
    /// when the actor arrives. Between those boundaries nothing changes.
    pub fn advance(&mut self, frame: u32, map_data: &mut Vec<u8>)
        requires
            old(self).wf(),
            frame >= old(self).start_frame,
            old(map_data)@.len() == 256,
            old(self).inventory_ok(old(map_data)@),
        ensures
            *final(self) == advance_spec(*old(self), frame, old(map_data)@).0,
            final(map_data)@ == advance_spec(*old(self), frame, old(map_data)@).1,
            final(self).wf(),
            final(self).inventory_ok(final(map_data)@),
            final(map_data)@.len() == 256,
    {
        let step = (frame - self.start_frame) / FRAMES_PER_STEP;
        match self.state {
            State::Idle => (),
            State::Death => if step >= 36 {
                self.dead = true;
            },
            State::FadeIn => if step >= 8 {
                self.start_frame = frame;
                self.state = State::Down;
            },
            State::FadeOut => if step >= 8 {
                self.faded_out = true;
            },
            State::Left | State::Right | State::Up | State::Down => {
                let walking = self.is_walking();
                if step == 6 && walking && self.next_is(State::Death) {
                    self.start_frame = frame;
                    self.state = State::Death;
                } else if step == 8 && walking {
                    self.resolve_arrival(frame, map_data);
                }
            },
        }
    }

    /// Puts a standing, controllable, input-starved actor into the idle
    /// pose once the idle timeout has elapsed; does nothing otherwise.
    pub fn apply_idle_timeout(&mut self, frame: u32, now: u32)
        requires
            now >= old(self).last_action_time,
        ensures
            *final(self) == idle_timeout_spec(*old(self), frame, now),
            old(self).wf() ==> final(self).wf(),
    {
        if now - self.last_action_time >= IDLE_TIMEOUT && !self.is_walking() && !(self.state
            == State::Idle) && !(self.state == State::Death) && !(self.state == State::FadeIn)
            && !(self.state == State::FadeOut) && self.next_state.is_none() {
            self.start_frame = frame;
            self.state = State::Idle;
        }
    }
}

/// Whether every collectible the level asks for has been collected.
pub open spec fn finished(b: Bobby, m: MapInfo) -> bool {
    if m.carrot_total > 0 {
        b.carrot_count == m.carrot_total
    } else {
        b.egg_count == m.egg_total
    }
}

/// The win condition: standing still on the finish tile, everything
/// collected.
pub open spec fn win_condition(b: Bobby, m: MapInfo) -> bool {
    b.coord_src == b.coord_dest && m.data@[cell_index(b.coord_src)] == 44 && finished(b, m)
}

/// The result of validating the current facing as a move; see
/// [`Bobby::update_dest`].
pub open spec fn update_dest_spec(b: Bobby, g: Seq<u8>) -> Bobby {
    let t = shifted(b.coord_dest, b.state);
    let old_t = g[cell_index(b.coord_src)];
    let new_t = g[cell_index(t)];
    if move_blocked(old_t, new_t, b.state, b.key_gray, b.key_yellow, b.key_red) {
        b
    } else if new_t == 31 {
        Bobby { coord_dest: t, next_state: Some(State::Death), ..b }
    } else {
        Bobby { coord_dest: t, ..b }
    }
}

/// The result of beginning a new state; see [`Bobby::update_state`].
pub open spec fn update_state_spec(b: Bobby, s: State, frame: u32, g: Seq<u8>) -> Bobby {
    update_dest_spec(Bobby { state: s, start_frame: frame, ..b }, g)
}

/// The result of buffering a direction; see [`Bobby::update_next_state`].
pub open spec fn update_next_state_spec(b: Bobby, s: State, frame: u32) -> Bobby {
    if (frame - b.start_frame) / (FRAMES_PER_STEP as int) > 3 && queue_open(b.next_state) {
        Bobby { next_state: Some(s), ..b }
    } else {
        b
    }
}

/// The result of a directional input; see [`Bobby::request_direction`].
pub open spec fn request_direction_spec(
    b: Bobby,
    d: State,
    frame: u32,
    now: u32,
    g: Seq<u8>,
) -> Bobby {
    let b1 = Bobby { last_action_time: now, ..b };
    if b1.coord_src != b1.coord_dest {
        update_next_state_spec(b1, d, frame)
    } else if controllable(b1.state) {
        update_state_spec(b1, d, frame, g)
    } else {
        b1
    }
}

/// The result of the idle-timeout rule; see [`Bobby::apply_idle_timeout`].
pub open spec fn idle_timeout_spec(b: Bobby, frame: u32, now: u32) -> Bobby {
    if now - b.last_action_time >= IDLE_TIMEOUT && b.coord_src == b.coord_dest && b.state
        != State::Idle && b.state != State::Death && b.state != State::FadeIn && b.state
        != State::FadeOut && b.next_state is None {
        Bobby { state: State::Idle, start_frame: frame, ..b }
    } else {
        b
    }
}

/// The result of resolving a completed traversal; see
/// [`Bobby::resolve_arrival`] (called from [`Bobby::advance`] at step 8).
/// The departure effect is applied at the source cell, then the arrival
/// effect at the target cell, then the actor moves onto the target and the
/// buffered follow-up state, if any, is consumed through the ordinary
/// request path.
pub open spec fn resolve_arrival_spec(b: Bobby, frame: u32, g: Seq<u8>) -> (Bobby, Seq<u8>) {
    let old_idx = cell_index(b.coord_src);
    let new_idx = cell_index(b.coord_dest);
    let dep = g[old_idx];
    let g1 = g.update(old_idx, departed(dep));
    let b1 = if dep == 45 {
        Bobby { egg_count: (b.egg_count + 1) as usize, ..b }
    } else {
        b
    };
    let t = g1[new_idx];
    let bg = if t == 19 {
        (Bobby { carrot_count: (b1.carrot_count + 1) as usize, ..b1 }, g1.update(new_idx, 20))
    } else if t == 22 {
        (b1, toggled(g1, SwitchKind::Red))
    } else if t == 32 {
        (Bobby { key_gray: (b1.key_gray + 1) as usize, ..b1 }, g1.update(new_idx, 18))
    } else if t == 33 && b1.key_gray > 0 {
        (Bobby { key_gray: (b1.key_gray - 1) as usize, ..b1 }, g1.update(new_idx, 18))
    } else if t == 34 {
        (Bobby { key_yellow: (b1.key_yellow + 1) as usize, ..b1 }, g1.update(new_idx, 18))
    } else if t == 35 && b1.key_yellow > 0 {
        (Bobby { key_yellow: (b1.key_yellow - 1) as usize, ..b1 }, g1.update(new_idx, 18))
    } else if t == 36 {
        (Bobby { key_red: (b1.key_red + 1) as usize, ..b1 }, g1.update(new_idx, 18))
    } else if t == 37 && b1.key_red > 0 {
        (Bobby { key_red: (b1.key_red - 1) as usize, ..b1 }, g1.update(new_idx, 18))
    } else if t == 38 {
        (b1, toggled(g1, SwitchKind::Yellow))
    } else if t == 40 {
        (Bobby { next_state: Some(State::Left), ..b1 }, g1)
    } else if t == 41 {
        (Bobby { next_state: Some(State::Right), ..b1 }, g1)
    } else if t == 42 {
        (Bobby { next_state: Some(State::Up), ..b1 }, g1)
    } else if t == 43 {
        (Bobby { next_state: Some(State::Down), ..b1 }, g1)
    } else {
        (b1, g1)
    };
    let b2 = Bobby { coord_src: bg.0.coord_dest, start_frame: frame, ..bg.0 };
    let g2 = bg.1;
    match b2.next_state {
        Some(s) => (update_state_spec(Bobby { next_state: None, ..b2 }, s, frame, g2), g2),
        None => (b2, g2),
    }
}

/// The result of one tick of the step clock; see [`Bobby::advance`].
pub open spec fn advance_spec(b: Bobby, frame: u32, g: Seq<u8>) -> (Bobby, Seq<u8>) {
    let step = elapsed_steps(b, frame);
    match b.state {
        State::Idle => (b, g),
        State::Death => if step >= 36 {
            (Bobby { dead: true, ..b }, g)
        } else {
            (b, g)
        },
        State::FadeIn => if step >= 8 {
            (Bobby { state: State::Down, start_frame: frame, ..b }, g)
        } else {
            (b, g)
        },
        State::FadeOut => if step >= 8 {
            (Bobby { faded_out: true, ..b }, g)
        } else {
            (b, g)
        },
        State::Left | State::Right | State::Up | State::Down => {
            let walking = b.coord_src != b.coord_dest;
            if step == 6 && walking && b.next_state == Some(State::Death) {
                (Bobby { state: State::Death, start_frame: frame, ..b }, g)
            } else if step == 8 && walking {
                resolve_arrival_spec(b, frame, g)
            } else {
                (b, g)
            }
        },
    }
}

/// Whether the given frame sits on a step boundary of the actor's current
/// state: the end of a death or fade sequence, the trap-death step of a
/// traversal with a scheduled death, or the arrival step of a traversal.
pub open spec fn at_step_boundary(b: Bobby, frame: u32) -> bool {
    let step = elapsed_steps(b, frame);
    match b.state {
        State::Idle => false,
        State::Death => step >= 36,
        State::FadeIn => step >= 8,
        State::FadeOut => step >= 8,
        State::Left | State::Right | State::Up | State::Down => b.coord_src != b.coord_dest && ((
        step == 6 && b.next_state == Some(State::Death)) || step == 8),
    }
}

/// Advancing the clock to a frame that crosses no step boundary changes
/// nothing: the grid and every discrete actor field stay exactly as they
/// were. Only the interpolated render position, a pure function of the
/// frame, moves between boundaries.
pub proof fn lemma_advance_between_boundaries(b: Bobby, frame: u32, g: Seq<u8>)
    requires
        !at_step_boundary(b, frame),
    ensures
        advance_spec(b, frame, g) == (b, g),
{
}

/// A red-switch arrival is globally consistent: when a traversal completes
/// onto a cell holding the active red switch, the resolved grid is exactly
/// the board-wide red toggle of the grid after the departure effect —
/// every matching cell flips, wherever it lies on the board.
pub proof fn lemma_red_switch_arrival_toggles(b: Bobby, frame: u32, g: Seq<u8>)
    requires
        b.wf(),
        g.len() == 256,
        b.coord_src != b.coord_dest,
        ({
            let g1 = g.update(cell_index(b.coord_src), departed(g[cell_index(b.coord_src)]));
            g1[cell_index(b.coord_dest)] == 22
        }),
    ensures
        resolve_arrival_spec(b, frame, g).1 == toggled(
            g.update(cell_index(b.coord_src), departed(g[cell_index(b.coord_src)])),
            SwitchKind::Red,
        ),
{
}

/// A move request never aims outside the board: for every direction and
/// every well-formed actor, the target cell after a directional input
/// still lies within the 16x16 bounds.
pub proof fn lemma_request_direction_in_bounds(
    b: Bobby,
    d: State,
    frame: u32,
    now: u32,
    g: Seq<u8>,
)
    requires
        b.wf(),
        g.len() == 256,
    ensures
        in_bounds(request_direction_spec(b, d, frame, now, g).coord_dest),
{
}

/// Arriving at a lock without the matching key rejects the move outright:
/// the actor — target cell and inventory included — is left exactly as it
/// was.
pub proof fn lemma_lock_without_key_rejects(b: Bobby, g: Seq<u8>)
    requires
        b.wf(),
        b.coord_src == b.coord_dest,
        g.len() == 256,
        ({
            let t = g[cell_index(shifted(b.coord_dest, b.state))];
            (t == 33 && b.key_gray == 0) || (t == 35 && b.key_yellow == 0) || (t == 37 && b.key_red
                == 0)
        }),
    ensures
        update_dest_spec(b, g) == b,
{
}

} // verus!
