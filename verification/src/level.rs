//! The binary level format and the level identifiers.
//!
//! A level asset is a 4-byte header (ignored) followed by exactly 256 tile
//! codes, row-major for a 16x16 board (`index = x + y * 16`). Decoding
//! derives the start cell and the totals of uncollected carrots and eggs;
//! re-serialising the payload behind any 4-byte header reproduces the
//! original bytes.

use vstd::prelude::*;

use crate::tile::count_code;

verus! {

/// The number of cells on the board: 16 columns by 16 rows.
pub const GRID_CELLS: usize = 256;

/// The bytes a level asset must hold: the 4-byte header plus the grid.
pub const LEVEL_BYTES: usize = 260;

/// Why a level asset could not be decoded.
#[derive(Clone, Copy, Debug, PartialEq, Eq, Structural)]
pub enum DecodeError {
    /// Fewer than 256 payload bytes follow the 4-byte header.
    Truncated,
}

/// The grid a full-length asset decodes to: the 256 bytes after the
/// 4-byte header.
pub open spec fn payload(bytes: Seq<u8>) -> Seq<u8> {
    bytes.subrange(4, 260)
}

/// The bytes a grid serialises to behind a header.
pub open spec fn serialized(header: Seq<u8>, grid: Seq<u8>) -> Seq<u8> {
    header + grid
}

/// The cell where the actor spawns: the last cell holding the start
/// marker 21, or cell 0 when the grid has no start marker.
pub open spec fn start_cell(g: Seq<u8>) -> int
    decreases g.len(),
{
    if g.len() == 0 {
        0
    } else if g.last() == 21 {
        g.len() - 1
    } else {
        start_cell(g.drop_last())
    }
}

/// The start cell is always a valid cell index (and 0 on an empty grid).
pub proof fn lemma_start_cell_in_range(g: Seq<u8>)
    ensures
        0 <= start_cell(g),
        g.len() > 0 ==> start_cell(g) < g.len(),
        g.len() == 0 ==> start_cell(g) == 0,
    decreases g.len(),
{
    if g.len() > 0 && g.last() != 21 {
        lemma_start_cell_in_range(g.drop_last());
    }
}

/// A decoded level: the working grid and the totals derived from it.
pub struct MapInfo {
    /// The 256 tile codes, row-major.
    pub data: Vec<u8>,
    /// The spawn cell as `(x, y)` coordinates.
    pub coord_start: (u32, u32),
    /// How many uncollected carrots (code 19) the grid held when decoded.
    pub carrot_total: usize,
    /// How many uncollected eggs (code 45) the grid held when decoded.
    pub egg_total: usize,
}

impl MapInfo {
    /// The derived fields agree with the grid: 256 cells, the totals count
    /// the carrot and egg codes, and the spawn coordinates name the start
    /// cell.
    pub open spec fn wf(self) -> bool {
        &&& self.data@.len() == 256
        &&& self.carrot_total == count_code(self.data@, 19)
        &&& self.egg_total == count_code(self.data@, 45)
        &&& self.coord_start.0 == start_cell(self.data@) % 16
        &&& self.coord_start.1 == start_cell(self.data@) / 16
    }

    /// Decodes a level asset: skips the 4-byte header, takes the 256 tile
    /// codes that follow, and scans them once for the totals and the start
    /// cell. Fails exactly when fewer than 260 bytes are given.
    pub fn decode(bytes: &Vec<u8>) -> (r: Result<MapInfo, DecodeError>)
        ensures
            bytes@.len() < 260 <==> r == Result::<MapInfo, DecodeError>::Err(
                DecodeError::Truncated,
            ),
            r matches Ok(m) ==> m.wf() && m.data@ == payload(bytes@),
    {
        if bytes.len() < LEVEL_BYTES {
            return Err(DecodeError::Truncated);
        }
        let mut data: Vec<u8> = Vec::new();
        let mut start_idx: u32 = 0;
        let mut carrot_total: usize = 0;
        let mut egg_total: usize = 0;
        let mut i: usize = 0;
        while i < GRID_CELLS
            invariant
                bytes@.len() >= 260,
                i <= 256,
                data@ =~= bytes@.subrange(4, 4 + i as int),
                carrot_total == count_code(data@, 19),
                egg_total == count_code(data@, 45),
                carrot_total <= i,
                egg_total <= i,
                start_idx == start_cell(data@),
            decreases 256 - i,
        {
            let b = bytes[4 + i];
            proof {
                assert(bytes@.subrange(4, 4 + (i + 1) as int).drop_last() =~= bytes@.subrange(
                    4,
                    4 + i as int,
                ));
                assert(data@.push(b).drop_last() =~= data@);
            }
            data.push(b);
            match b {
                19 => carrot_total = carrot_total + 1,
                45 => egg_total = egg_total + 1,
                21 => start_idx = i as u32,
                _ => (),
            }
            i = i + 1;
        }
        proof {
            lemma_start_cell_in_range(data@);
        }
        Ok(
            MapInfo {
                data,
                coord_start: (start_idx % 16, start_idx / 16),
                carrot_total,
                egg_total,
            },
        )
    }

    /// Re-serialises the level: the given 4-byte header followed by the
    /// 256-cell payload.
    pub fn encode(&self, header: &Vec<u8>) -> (r: Vec<u8>)
        requires
            header@.len() == 4,
        ensures
            r@ == serialized(header@, self.data@),
    {
        let mut out: Vec<u8> = Vec::new();
        let mut i: usize = 0;
        while i < header.len()
            invariant
                header@.len() == 4,
                i <= 4,
                out@ =~= header@.subrange(0, i as int),
            decreases header@.len() - i,
        {
            out.push(header[i]);
            proof {
                assert(out@ =~= header@.subrange(0, i + 1));
            }
            i = i + 1;
        }
        let mut j: usize = 0;
        while j < self.data.len()
            invariant
                header@.len() == 4,
                j <= self.data@.len(),
                out@ =~= header@ + self.data@.subrange(0, j as int),
            decreases self.data@.len() - j,
        {
            out.push(self.data[j]);
            proof {
                assert(out@ =~= header@ + self.data@.subrange(0, j + 1));
            }
            j = j + 1;
        }
        proof {
            assert(out@ =~= header@ + self.data@);
        }
        out
    }
}

/// Decoding a full-length asset and re-serialising its grid behind the
/// original header reproduces the asset byte for byte: [`MapInfo::decode`]
/// yields exactly `payload(bytes)` as the grid, and [`MapInfo::encode`]
/// with the asset's own first 4 bytes yields `serialized` of the two,
/// which is the asset again.
pub proof fn lemma_decode_encode_round_trip(bytes: Seq<u8>)
    requires
        bytes.len() == 260,
    ensures
        serialized(bytes.subrange(0, 4), payload(bytes)) == bytes,
{
    assert(bytes.subrange(0, 4) + bytes.subrange(4, 260) =~= bytes);
}

/// A level identity: one of the bounded normal series or the bounded egg
/// series, each indexed from 1.
#[derive(Clone, Copy, Debug, PartialEq, Eq, Structural)]
pub enum LevelId {
    /// The normal series, levels 1 through 30.
    Normal(u32),
    /// The egg series, levels 1 through 20.
    Egg(u32),
}

/// The level after `l` in the cyclic order: normal 1..=30, then egg
/// 1..=20, then normal 1 again.
pub open spec fn next_level(l: LevelId) -> LevelId {
    match l {
        LevelId::Normal(n) => if n < 30 {
            LevelId::Normal((n + 1) as u32)
        } else {
            LevelId::Egg(1)
        },
        LevelId::Egg(n) => if n < 20 {
            LevelId::Egg((n + 1) as u32)
        } else {
            LevelId::Normal(1)
        },
    }
}

/// The level before `l` in the cyclic order.
pub open spec fn previous_level(l: LevelId) -> LevelId {
    match l {
        LevelId::Normal(n) => if n <= 1 {
            LevelId::Egg(20)
        } else {
            LevelId::Normal((n - 1) as u32)
        },
        LevelId::Egg(n) => if n <= 1 {
            LevelId::Normal(30)
        } else {
            LevelId::Egg((n - 1) as u32)
        },
    }
}

impl LevelId {
    /// Steps forward through the cyclic level order.
    pub fn next(self) -> (r: LevelId)
        ensures
            r == next_level(self),
    {
        match self {
            LevelId::Normal(n) => if n < 30 {
                LevelId::Normal(n + 1)
            } else {
                LevelId::Egg(1)
            },
            LevelId::Egg(n) => if n < 20 {
                LevelId::Egg(n + 1)
            } else {
                LevelId::Normal(1)
            },
        }
    }

    /// Steps backward through the cyclic level order.
    pub fn previous(self) -> (r: LevelId)
        ensures
            r == previous_level(self),
    {
        match self {
            LevelId::Normal(n) => if n <= 1 {
                LevelId::Egg(20)
            } else {
                LevelId::Normal(n - 1)
            },
            LevelId::Egg(n) => if n <= 1 {
                LevelId::Normal(30)
            } else {
                LevelId::Egg(n - 1)
            },
        }
    }
}

} // verus!
