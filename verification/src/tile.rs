//! The tile rule table: how each tile code affects traversal, what a tile
//! becomes when the actor departs it, and the board-wide switch toggles.
//!
//! Tile codes (one byte per cell):
//! - 0..=17 solid art, never walkable; 18 open floor; 21 start marker;
//! - 19 carrot (collected: 20); 45 egg (collected husk: 46, impassable);
//! - 22/23 red switch pair; 38/39 yellow switch pair;
//! - 24..=27 one-way rotator corner (cycles forward on departure);
//! - 28/29 straight barrier pair; 30 latent trap (arms to 31 on departure);
//! - 32/33, 34/35, 36/37 gray/yellow/red key and lock; 44 finish;
//! - 40..=43 conveyors flowing left, right, up, down.

use vstd::prelude::*;

verus! {

/// Which switch was stepped on; selects the board-wide toggle group.
#[derive(Clone, Copy, Debug, PartialEq, Eq, Structural)]
pub enum SwitchKind {
    Red,
    Yellow,
}

/// What a tile becomes when the actor departs the cell holding it:
/// rotators cycle forward, barriers flip, a latent trap arms, an egg
/// turns into its impassable husk; every other tile is unchanged.
pub open spec fn departed(t: u8) -> u8 {
    if t == 24 {
        25
    } else if t == 25 {
        26
    } else if t == 26 {
        27
    } else if t == 27 {
        24
    } else if t == 28 {
        29
    } else if t == 29 {
        28
    } else if t == 30 {
        31
    } else if t == 45 {
        46
    } else {
        t
    }
}

/// One red-switch application to a single tile: the switch pair 22/23
/// flips, each rotator 24..=27 advances one step, the barrier pair 28/29
/// flips; every other tile is unchanged.
pub open spec fn red_flipped(t: u8) -> u8 {
    if t == 22 {
        23
    } else if t == 23 {
        22
    } else if t == 24 {
        25
    } else if t == 25 {
        26
    } else if t == 26 {
        27
    } else if t == 27 {
        24
    } else if t == 28 {
        29
    } else if t == 29 {
        28
    } else {
        t
    }
}

/// One yellow-switch application to a single tile: the switch pair 38/39
/// flips and each conveyor reverses (40/41 and 42/43 swap); every other
/// tile is unchanged.
pub open spec fn yellow_flipped(t: u8) -> u8 {
    if t == 38 {
        39
    } else if t == 39 {
        38
    } else if t == 40 {
        41
    } else if t == 41 {
        40
    } else if t == 42 {
        43
    } else if t == 43 {
        42
    } else {
        t
    }
}

/// A single tile after the board-wide toggle of the given switch kind.
pub open spec fn flipped(t: u8, kind: SwitchKind) -> u8 {
    match kind {
        SwitchKind::Red => red_flipped(t),
        SwitchKind::Yellow => yellow_flipped(t),
    }
}

/// The whole grid after a board-wide switch toggle.
pub open spec fn toggled(g: Seq<u8>, kind: SwitchKind) -> Seq<u8> {
    g.map_values(|t: u8| flipped(t, kind))
}

/// A rotator corner tile (the only codes whose toggle cycle has length 4).
pub open spec fn is_rotator(t: u8) -> bool {
    t == 24 || t == 25 || t == 26 || t == 27
}

/// How many cells of the grid hold the tile code `c`.
pub open spec fn count_code(g: Seq<u8>, c: u8) -> nat
    decreases g.len(),
{
    if g.len() == 0 {
        0
    } else {
        count_code(g.drop_last(), c) + if g.last() == c {
            1nat
        } else {
            0nat
        }
    }
}

/// A grid cannot hold more cells of one code than it has cells.
pub proof fn lemma_count_le_len(g: Seq<u8>, c: u8)
    ensures
        count_code(g, c) <= g.len(),
    decreases g.len(),
{
    if g.len() > 0 {
        lemma_count_le_len(g.drop_last(), c);
    }
}

/// A grid holding the code `c` somewhere counts it at least once.
pub proof fn lemma_count_pos(g: Seq<u8>, c: u8, i: int)
    requires
        0 <= i < g.len(),
        g[i] == c,
    ensures
        count_code(g, c) >= 1,
    decreases g.len(),
{
    if i < g.len() - 1 {
        lemma_count_pos(g.drop_last(), c, i);
    }
}

/// Updating one cell changes the count of `c` exactly by what leaves and
/// what arrives at that cell.
pub proof fn lemma_count_update(g: Seq<u8>, i: int, v: u8, c: u8)
    requires
        0 <= i < g.len(),
    ensures
        count_code(g.update(i, v), c) == count_code(g, c) + (if v == c {
            1int
        } else {
            0int
        }) - (if g[i] == c {
            1int
        } else {
            0int
        }),
    decreases g.len(),
{
    let gu = g.update(i, v);
    if i == g.len() - 1 {
        assert(gu.drop_last() =~= g.drop_last());
    } else {
        assert(gu.drop_last() =~= g.drop_last().update(i, v));
        lemma_count_update(g.drop_last(), i, v, c);
    }
}

/// One cell update, measured against every code the inventory counts.
pub proof fn lemma_count_update_inventory(g: Seq<u8>, i: int, v: u8)
    requires
        0 <= i < g.len(),
    ensures
        count_code(g.update(i, v), 19) == count_code(g, 19) + (if v == 19 {
            1int
        } else {
            0int
        }) - (if g[i] == 19 {
            1int
        } else {
            0int
        }),
        count_code(g.update(i, v), 45) == count_code(g, 45) + (if v == 45 {
            1int
        } else {
            0int
        }) - (if g[i] == 45 {
            1int
        } else {
            0int
        }),
        count_code(g.update(i, v), 32) == count_code(g, 32) + (if v == 32 {
            1int
        } else {
            0int
        }) - (if g[i] == 32 {
            1int
        } else {
            0int
        }),
        count_code(g.update(i, v), 34) == count_code(g, 34) + (if v == 34 {
            1int
        } else {
            0int
        }) - (if g[i] == 34 {
            1int
        } else {
            0int
        }),
        count_code(g.update(i, v), 36) == count_code(g, 36) + (if v == 36 {
            1int
        } else {
            0int
        }) - (if g[i] == 36 {
            1int
        } else {
            0int
        }),
{
    lemma_count_update(g, i, v, 19);
    lemma_count_update(g, i, v, 45);
    lemma_count_update(g, i, v, 32);
    lemma_count_update(g, i, v, 34);
    lemma_count_update(g, i, v, 36);
}

/// A switch toggle that neither creates nor destroys the code `c` leaves
/// the count of `c` unchanged.
pub proof fn lemma_count_toggled(g: Seq<u8>, kind: SwitchKind, c: u8)
    requires
        forall|t: u8| (#[trigger] flipped(t, kind) == c) <==> (t == c),
    ensures
        count_code(toggled(g, kind), c) == count_code(g, c),
    decreases g.len(),
{
    if g.len() > 0 {
        assert(toggled(g, kind).drop_last() =~= toggled(g.drop_last(), kind));
        lemma_count_toggled(g.drop_last(), kind, c);
    }
}

/// No switch toggle touches a collectible or a key tile, so the counts the
/// inventory is measured against survive any board-wide toggle.
pub proof fn lemma_toggle_keeps_inventory_counts(g: Seq<u8>, kind: SwitchKind)
    ensures
        count_code(toggled(g, kind), 19) == count_code(g, 19),
        count_code(toggled(g, kind), 45) == count_code(g, 45),
        count_code(toggled(g, kind), 32) == count_code(g, 32),
        count_code(toggled(g, kind), 34) == count_code(g, 34),
        count_code(toggled(g, kind), 36) == count_code(g, 36),
{
    lemma_count_toggled(g, kind, 19);
    lemma_count_toggled(g, kind, 45);
    lemma_count_toggled(g, kind, 32);
    lemma_count_toggled(g, kind, 34);
    lemma_count_toggled(g, kind, 36);
}

/// The red-switch toggle is globally consistent and cyclic: one
/// application flips every switch-pair cell and advances every rotator one
/// step; two applications restore every cell that is not a rotator; four
/// applications restore the whole grid exactly.
pub proof fn lemma_red_toggle_cycles(g: Seq<u8>)
    ensures
        forall|i: int|
            0 <= i < g.len() ==> toggled(g, SwitchKind::Red)[i] == red_flipped(#[trigger] g[i]),
        forall|i: int|
            0 <= i < g.len() && !is_rotator(#[trigger] g[i]) ==> toggled(
                toggled(g, SwitchKind::Red),
                SwitchKind::Red,
            )[i] == g[i],
        toggled(toggled(toggled(toggled(g, SwitchKind::Red), SwitchKind::Red), SwitchKind::Red),
            SwitchKind::Red,
        ) == g,
{
    let g4 = toggled(
        toggled(toggled(toggled(g, SwitchKind::Red), SwitchKind::Red), SwitchKind::Red),
        SwitchKind::Red,
    );
    assert(g4 =~= g);
}

/// The yellow-switch toggle is its own inverse: every affected tile sits
/// in a two-cycle, so two applications restore the whole grid exactly.
pub proof fn lemma_yellow_toggle_involution(g: Seq<u8>)
    ensures
        forall|i: int|
            0 <= i < g.len() ==> toggled(g, SwitchKind::Yellow)[i] == yellow_flipped(
                #[trigger] g[i],
            ),
        toggled(toggled(g, SwitchKind::Yellow), SwitchKind::Yellow) == g,
{
    assert(toggled(toggled(g, SwitchKind::Yellow), SwitchKind::Yellow) =~= g);
}

/// Applies the tile departure rule, as a computation on one code.
pub fn depart_code(t: u8) -> (r: u8)
    ensures
        r == departed(t),
{
    match t {
        24 => 25,
        25 => 26,
        26 => 27,
        27 => 24,
        28 => 29,
        29 => 28,
        30 => 31,
        45 => 46,
        _ => t,
    }
}

/// Applies one switch toggle, as a computation on one code.
pub fn flip_code(t: u8, kind: SwitchKind) -> (r: u8)
    ensures
        r == flipped(t, kind),
{
    match kind {
        SwitchKind::Red => match t {
            22 => 23,
            23 => 22,
            24 => 25,
            25 => 26,
            26 => 27,
            27 => 24,
            28 => 29,
            29 => 28,
            _ => t,
        },
        SwitchKind::Yellow => match t {
            38 => 39,
            39 => 38,
            40 => 41,
            41 => 40,
            42 => 43,
            43 => 42,
            _ => t,
        },
    }
}

/// Flips every cell of the grid that belongs to the toggle group of the
/// given switch kind, exactly as stepping on that switch does.
pub fn apply_global_toggle(grid: &mut Vec<u8>, kind: SwitchKind)
    ensures
        final(grid)@ == toggled(old(grid)@, kind),
{
    let n = grid.len();
    let mut i: usize = 0;
    while i < n
        invariant
            n == grid@.len(),
            n == old(grid)@.len(),
            i <= n,
            forall|j: int| 0 <= j < i ==> grid@[j] == flipped(old(grid)@[j], kind),
            forall|j: int| i <= j < n ==> grid@[j] == old(grid)@[j],
        decreases n - i,
    {
        let t = grid[i];
        let f = flip_code(t, kind);
        grid.set(i, f);
        i = i + 1;
    }
    proof {
        assert(grid@ =~= toggled(old(grid)@, kind));
    }
}

/// Counts how many cells of the grid hold the tile code `c`.
pub fn count_tiles(grid: &Vec<u8>, c: u8) -> (n: usize)
    ensures
        n == count_code(grid@, c),
{
    let mut n: usize = 0;
    let mut i: usize = 0;
    while i < grid.len()
        invariant
            i <= grid@.len(),
            n == count_code(grid@.subrange(0, i as int), c),
            n <= i,
        decreases grid@.len() - i,
    {
        proof {
            assert(grid@.subrange(0, i + 1).drop_last() =~= grid@.subrange(0, i as int));
        }
        if grid[i] == c {
            n = n + 1;
        }
        i = i + 1;
    }
    proof {
        assert(grid@.subrange(0, grid@.len() as int) =~= grid@);
    }
    n
}

} // verus!
