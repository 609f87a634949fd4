use vstd::prelude::*;

use std::collections::VecDeque;

use crate::state::InGameState;
use crate::table::{spec_before, spec_in_interior, spec_in_square, spec_interior_width, TileGrid};

use crate::path::{
    ARIS_IMG_TEXTURE_PATH, ARIS_PLAYER_TEXTURE_PATH, MIDORI_IMG_TEXTURE_PATH,
    MIDORI_PLAYER_TEXTURE_PATH, MOMOI_IMG_TEXTURE_PATH, MOMOI_PLAYER_TEXTURE_PATH,
    YUZU_IMG_TEXTURE_PATH, YUZU_PLAYER_TEXTURE_PATH,
};

verus! {

pub const NUM_TILE_ROWS: usize = 100;

pub const NUM_TILE_COLS: usize = 100;

/// The number of tiles of a stage.
pub const NUM_TILES: usize = NUM_TILE_ROWS * NUM_TILE_COLS;

/// The characters that the player can play.
#[derive(Debug, Clone, Copy, PartialEq, Eq, Structural, Hash)]
pub enum Actor {
    Aris,
    Momoi,
    Midori,
    Yuzu,
}

/// The picture that a character's stage uncovers.
pub fn stage_image_path(actor: Actor) -> (res: &'static str)
    ensures
        res == match actor {
            Actor::Aris => ARIS_IMG_TEXTURE_PATH,
            Actor::Momoi => MOMOI_IMG_TEXTURE_PATH,
            Actor::Midori => MIDORI_IMG_TEXTURE_PATH,
            Actor::Yuzu => YUZU_IMG_TEXTURE_PATH,
        },
{
    match actor {
        Actor::Aris => ARIS_IMG_TEXTURE_PATH,
        Actor::Momoi => MOMOI_IMG_TEXTURE_PATH,
        Actor::Midori => MIDORI_IMG_TEXTURE_PATH,
        Actor::Yuzu => YUZU_IMG_TEXTURE_PATH,
    }
}

/// The sprite sheet of a character's faces during its stage.
pub fn player_texture_path(actor: Actor) -> (res: &'static str)
    ensures
        res == match actor {
            Actor::Aris => ARIS_PLAYER_TEXTURE_PATH,
            Actor::Momoi => MOMOI_PLAYER_TEXTURE_PATH,
            Actor::Midori => MIDORI_PLAYER_TEXTURE_PATH,
            Actor::Yuzu => YUZU_PLAYER_TEXTURE_PATH,
        },
{
    match actor {
        Actor::Aris => ARIS_PLAYER_TEXTURE_PATH,
        Actor::Momoi => MOMOI_PLAYER_TEXTURE_PATH,
        Actor::Midori => MIDORI_PLAYER_TEXTURE_PATH,
        Actor::Yuzu => YUZU_PLAYER_TEXTURE_PATH,
    }
}

/// The best result of each character: the most tiles owned at the end of a stage.
#[derive(Debug, Clone, Copy, PartialEq, Eq, Structural, Hash)]
pub struct SaveData {
    pub stage_aris: u16,
    pub stage_momoi: u16,
    pub stage_midori: u16,
    pub stage_yuzu: u16,
}

/// The best result of `actor` in `save`.
pub open spec fn spec_best(save: SaveData, actor: Actor) -> u16 {
    match actor {
        Actor::Aris => save.stage_aris,
        Actor::Momoi => save.stage_momoi,
        Actor::Midori => save.stage_midori,
        Actor::Yuzu => save.stage_yuzu,
    }
}

/// The best result after a stage ended with `owned_tiles` tiles owned, when it was `best`.
/// The count is stored in 16 bits, so it is taken modulo 2^16, which no stage's tile count
/// reaches.
pub open spec fn spec_recorded_best(best: u16, owned_tiles: u32) -> u16 {
    if best < (owned_tiles as u16) {
        owned_tiles as u16
    } else {
        best
    }
}

impl SaveData {
    /// The best result of `actor`.
    pub fn best(&self, actor: Actor) -> (res: u16)
        ensures
            res == spec_best(*self, actor),
    {
        match actor {
            Actor::Aris => self.stage_aris,
            Actor::Momoi => self.stage_momoi,
            Actor::Midori => self.stage_midori,
            Actor::Yuzu => self.stage_yuzu,
        }
    }

    /// Records that `actor` ended a stage owning `owned_tiles` tiles. The best result of
    /// `actor` rises to it when it is higher; returns whether it rose, that is whether the
    /// save file must be written.
    pub fn record_stage_result(&mut self, actor: Actor, owned_tiles: u32) -> (res: bool)
        ensures
            res == (spec_best(*old(self), actor) < (owned_tiles as u16)),
            spec_best(*final(self), actor) == spec_recorded_best(spec_best(*old(self), actor), owned_tiles),
            forall|other: Actor|
                other != actor ==> #[trigger] spec_best(*final(self), other) == spec_best(
                    *old(self),
                    other,
                ),
    {
        let owned = #[verifier::truncate] (owned_tiles as u16);
        match actor {
            Actor::Aris => {
                if self.stage_aris < owned {
                    self.stage_aris = owned;
                    true
                } else {
                    false
                }
            },
            Actor::Momoi => {
                if self.stage_momoi < owned {
                    self.stage_momoi = owned;
                    true
                } else {
                    false
                }
            },
            Actor::Midori => {
                if self.stage_midori < owned {
                    self.stage_midori = owned;
                    true
                } else {
                    false
                }
            },
            Actor::Yuzu => {
                if self.stage_yuzu < owned {
                    self.stage_yuzu = owned;
                    true
                } else {
                    false
                }
            },
        }
    }

    /// Whether every character has owned every tile of its stage, which unlocks the hidden
    /// image of the credits.
    pub fn all_stages_cleared(&self) -> (res: bool)
        ensures
            res == (self.stage_aris == NUM_TILES && self.stage_momoi == NUM_TILES
                && self.stage_midori == NUM_TILES && self.stage_yuzu == NUM_TILES),
    {
        let full = NUM_TILES as u16;
        self.stage_aris == full && self.stage_momoi == full && self.stage_midori == full
            && self.stage_yuzu == full
    }
}

/// A stage result never lowers a best result; after it the best result is at least the
/// stage result and is one of the two; recording the same result again changes nothing.
pub proof fn lemma_best_never_decreases(best: u16, owned_tiles: u32)
    requires
        owned_tiles <= NUM_TILES,
    ensures
        spec_recorded_best(best, owned_tiles) >= best,
        spec_recorded_best(best, owned_tiles) >= owned_tiles,
        spec_recorded_best(best, owned_tiles) == best || spec_recorded_best(best, owned_tiles)
            == owned_tiles,
        spec_recorded_best(spec_recorded_best(best, owned_tiles), owned_tiles)
            == spec_recorded_best(best, owned_tiles),
{
}

/// The rank of a result by the share of the stage owned: 0 below 20%, 1 below 50%,
/// 2 below 80%, 3 below 100% and 4 for the whole stage.
pub open spec fn spec_star_rank(owned: int, total: int) -> usize {
    if owned * 100 < 20 * total {
        0
    } else if owned * 100 < 50 * total {
        1
    } else if owned * 100 < 80 * total {
        2
    } else if owned * 100 < 100 * total {
        3
    } else {
        4
    }
}

/// The rank of a result in which `owned` of `total` tiles are owned.
pub fn star_rank(owned: u32, total: u32) -> (res: usize)
    ensures
        res == spec_star_rank(owned as int, total as int),
{
    let owned = owned as u64;
    let total = total as u64;
    if owned * 100 < 20 * total {
        0
    } else if owned * 100 < 50 * total {
        1
    } else if owned * 100 < 80 * total {
        2
    } else if owned * 100 < 100 * total {
        3
    } else {
        4
    }
}

/// The number of result conditions shown as achieved for a rank.
pub fn achieved_conditions(rank: usize) -> (res: usize)
    ensures
        res == if rank < 3 {
            rank
        } else {
            3
        },
{
    if rank < 3 {
        rank
    } else {
        3
    }
}

/// Whether the player owns the whole stage, which ends it.
pub fn stage_complete(owned: u32, total: u32) -> (res: bool)
    ensures
        res == (owned >= total),
{
    owned >= total
}

/// More owned tiles never give a lower rank.
pub proof fn lemma_star_rank_monotonic(a: int, b: int, total: int)
    requires
        0 <= a <= b,
        total > 0,
    ensures
        spec_star_rank(a, total) <= spec_star_rank(b, total),
{
    assert(a * 100 <= b * 100) by (nonlinear_arith)
        requires
            a <= b,
    ;
}

/// The progress of a stage being played: its state, how many of its tiles are owned, the
/// rank its result would have now, and the batches of tiles just captured that are still
/// fading in, each with the timer `W` of its fade.
pub struct StageProgress<W> {
    pub state: InGameState,
    pub num_total_tiles: u32,
    pub num_owned_tiles: u32,
    pub result_star_index: usize,
    pub owned_tiles: VecDeque<(W, Vec<(usize, usize)>)>,
}

impl<W> StageProgress<W> {
    /// A stage as it starts: entering, with none of its `NUM_TILES` tiles owned, the lowest
    /// rank and no capture fading in.
    pub fn new() -> (res: Self)
        ensures
            res.state == InGameState::Enter,
            res.num_total_tiles == NUM_TILES,
            res.num_owned_tiles == 0,
            res.result_star_index == 0,
            res.owned_tiles@.len() == 0,
    {
        StageProgress {
            state: InGameState::Enter,
            num_total_tiles: NUM_TILES as u32,
            num_owned_tiles: 0,
            result_star_index: 0,
            owned_tiles: VecDeque::new(),
        }
    }

    /// The entering fade is over: the spawn area, the square of half size `hs` around the
    /// spawn tile `(r, c)`, is claimed on `grid` (its inside owned, its border unowned, the
    /// rest as it was); the tiles of its inside are added to the owned count and queued, row
    /// by row, as a batch that fades in from the timer `start`; the stage moves on to
    /// spawning the player. The rank of the result is left to the next capture, as before.
    pub fn finish_entering(
        &mut self,
        grid: &mut TileGrid,
        r: usize,
        c: usize,
        hs: usize,
        start: W,
    )
        requires
            old(grid).wf(),
            hs <= r,
            hs <= c,
            r + hs < old(grid).spec_num_rows(),
            c + hs < old(grid).spec_num_cols(),
            old(self).num_owned_tiles + spec_interior_width(hs as int) * spec_interior_width(
                hs as int,
            ) <= u32::MAX,
        ensures
            final(grid).wf(),
            final(grid).spec_num_rows() == old(grid).spec_num_rows(),
            final(grid).spec_num_cols() == old(grid).spec_num_cols(),
            forall|i: int, j: int|
                0 <= i < old(grid).spec_num_rows() && 0 <= j < old(grid).spec_num_cols()
                    ==> #[trigger] final(grid).cells()[i][j] == if spec_in_square(
                    i,
                    j,
                    r as int,
                    c as int,
                    hs as int,
                ) {
                    spec_in_interior(i, j, r as int, c as int, hs as int)
                } else {
                    old(grid).cells()[i][j]
                },
            final(self).num_owned_tiles == old(self).num_owned_tiles + spec_interior_width(
                hs as int,
            ) * spec_interior_width(hs as int),
            final(self).owned_tiles@.len() == old(self).owned_tiles@.len() + 1,
            final(self).owned_tiles@.drop_last() == old(self).owned_tiles@,
            final(self).owned_tiles@.last().0 == start,
            forall|k: int|
                0 <= k < final(self).owned_tiles@.last().1@.len() ==> spec_in_interior(
                    (#[trigger] final(self).owned_tiles@.last().1@[k]).0 as int,
                    final(self).owned_tiles@.last().1@[k].1 as int,
                    r as int,
                    c as int,
                    hs as int,
                ),
            forall|i: usize, j: usize|
                spec_in_interior(i as int, j as int, r as int, c as int, hs as int)
                    ==> #[trigger] final(self).owned_tiles@.last().1@.contains((i, j)),
            forall|a: int, b: int|
                0 <= a < b < final(self).owned_tiles@.last().1@.len() ==> spec_before(
                    final(self).owned_tiles@.last().1@[a],
                    final(self).owned_tiles@.last().1@[b],
                ),
            final(self).owned_tiles@.last().1@.len() == spec_interior_width(hs as int)
                * spec_interior_width(hs as int),
            final(self).state == InGameState::Spawn,
            final(self).num_total_tiles == old(self).num_total_tiles,
            final(self).result_star_index == old(self).result_star_index,
    {
        let tiles = grid.claim_spawn_area(r, c, hs);
        let count = tiles.len();
        self.num_owned_tiles = self.num_owned_tiles + count as u32;
        self.owned_tiles.push_back((start, tiles));
        self.state = InGameState::Spawn;
        proof {
            assert(self.owned_tiles@.drop_last() =~= old(self).owned_tiles@);
        }
    }

    /// After a capture the player owns `owned` tiles: the count is kept and the rank of the
    /// result follows it; nothing else changes.
    pub fn record_owned(&mut self, owned: u32)
        ensures
            final(self).num_owned_tiles == owned,
            final(self).result_star_index == spec_star_rank(
                owned as int,
                old(self).num_total_tiles as int,
            ),
            final(self).state == old(self).state,
            final(self).num_total_tiles == old(self).num_total_tiles,
            final(self).owned_tiles@ == old(self).owned_tiles@,
    {
        self.num_owned_tiles = owned;
        self.result_star_index = star_rank(owned, self.num_total_tiles);
    }
}

/// The player loses a life: the last heart still owned, if any, moves to the lost hearts
/// with the timer `start` of its vanishing animation. Returns the number of hearts left.
pub fn decrease_player_life_count<T, W>(
    owned_hearts: &mut VecDeque<T>,
    lost_hearts: &mut VecDeque<(W, T)>,
    start: W,
) -> (res: usize)
    ensures
        old(owned_hearts)@.len() > 0 ==> {
            &&& final(owned_hearts)@ == old(owned_hearts)@.drop_last()
            &&& final(lost_hearts)@ == old(lost_hearts)@.push((start, old(owned_hearts)@.last()))
        },
        old(owned_hearts)@.len() == 0 ==> {
            &&& final(owned_hearts)@ == old(owned_hearts)@
            &&& final(lost_hearts)@ == old(lost_hearts)@
        },
        res == final(owned_hearts)@.len(),
{
    match owned_hearts.pop_back() {
        Some(heart) => lost_hearts.push_back((start, heart)),
        None => {},
    }
    owned_hearts.len()
}

} // verus!
