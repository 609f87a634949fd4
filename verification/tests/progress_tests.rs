use millennium_run::progress::{player_texture_path, stage_image_path, StageProgress};
use millennium_run::state::InGameState;
use millennium_run::table::TileGrid;
use std::collections::VecDeque;

use millennium_run::progress::{
    achieved_conditions, decrease_player_life_count, stage_complete, star_rank, Actor, SaveData,
    NUM_TILES,
};

fn save() -> SaveData {
    SaveData { stage_aris: 10, stage_momoi: 20, stage_midori: 30, stage_yuzu: 40 }
}

#[test]
fn better_result_is_recorded() {
    let mut s = save();
    assert!(s.record_stage_result(Actor::Momoi, 25));
    assert_eq!(s, SaveData { stage_aris: 10, stage_momoi: 25, stage_midori: 30, stage_yuzu: 40 });
    assert_eq!(s.best(Actor::Momoi), 25);
}

#[test]
fn worse_or_equal_result_is_not_recorded() {
    let mut s = save();
    assert!(!s.record_stage_result(Actor::Yuzu, 39));
    assert!(!s.record_stage_result(Actor::Yuzu, 40));
    assert_eq!(s, save());
}

#[test]
fn recording_twice_changes_nothing_the_second_time() {
    let mut s = save();
    assert!(s.record_stage_result(Actor::Aris, 5000));
    assert!(!s.record_stage_result(Actor::Aris, 5000));
    assert_eq!(s.best(Actor::Aris), 5000);
}

#[test]
fn hidden_image_needs_every_stage_cleared() {
    let full = NUM_TILES as u16;
    let all = SaveData { stage_aris: full, stage_momoi: full, stage_midori: full, stage_yuzu: full };
    assert!(all.all_stages_cleared());
    let almost = SaveData { stage_yuzu: full - 1, ..all };
    assert!(!almost.all_stages_cleared());
}

#[test]
fn star_rank_bands() {
    let t = NUM_TILES as u32;
    assert_eq!(star_rank(0, t), 0);
    assert_eq!(star_rank(1999, t), 0);
    assert_eq!(star_rank(2000, t), 1);
    assert_eq!(star_rank(4999, t), 1);
    assert_eq!(star_rank(5000, t), 2);
    assert_eq!(star_rank(7999, t), 2);
    assert_eq!(star_rank(8000, t), 3);
    assert_eq!(star_rank(9999, t), 3);
    assert_eq!(star_rank(10000, t), 4);
}

#[test]
fn star_rank_of_an_empty_board_is_full() {
    assert_eq!(star_rank(5, 0), 4);
    assert_eq!(star_rank(0, 0), 4);
}

#[test]
fn star_rank_never_falls_with_more_tiles() {
    let t = NUM_TILES as u32;
    let mut last = 0;
    for owned in 0..=t {
        let r = star_rank(owned, t);
        assert!(r >= last);
        last = r;
    }
}

#[test]
fn conditions_shown_for_each_rank() {
    assert_eq!(achieved_conditions(0), 0);
    assert_eq!(achieved_conditions(1), 1);
    assert_eq!(achieved_conditions(2), 2);
    assert_eq!(achieved_conditions(3), 3);
    assert_eq!(achieved_conditions(4), 3);
}

#[test]
fn stage_complete_when_all_tiles_owned() {
    assert!(!stage_complete(9999, 10000));
    assert!(stage_complete(10000, 10000));
}

#[test]
fn losing_a_life_moves_the_last_heart() {
    let mut owned: VecDeque<&str> = VecDeque::from(vec!["h0", "h1", "h2"]);
    let mut lost: VecDeque<(u8, &str)> = VecDeque::new();
    assert_eq!(decrease_player_life_count(&mut owned, &mut lost, 0), 2);
    assert_eq!(owned, VecDeque::from(vec!["h0", "h1"]));
    assert_eq!(lost, VecDeque::from(vec![(0, "h2")]));
    assert_eq!(decrease_player_life_count(&mut owned, &mut lost, 0), 1);
    assert_eq!(decrease_player_life_count(&mut owned, &mut lost, 0), 0);
    assert_eq!(decrease_player_life_count(&mut owned, &mut lost, 0), 0);
    assert_eq!(lost.len(), 3);
}

use millennium_run::collision::is_player_collide;

#[test]
fn invincible_player_is_never_hit() {
    let mut bullets = vec![1, 2, 3];
    assert!(!is_player_collide(true, true, &mut bullets, &vec![true, true, true]));
    assert_eq!(bullets, vec![1, 2, 3]);
}

#[test]
fn hit_bullets_vanish_and_the_rest_reverse() {
    let mut bullets = vec![1, 2, 3, 4];
    assert!(is_player_collide(false, false, &mut bullets, &vec![false, true, false, false]));
    assert_eq!(bullets, vec![4, 3, 1]);
    let mut bullets = vec![1, 2];
    assert!(!is_player_collide(false, false, &mut bullets, &vec![false, false]));
    assert_eq!(bullets, vec![2, 1]);
    let mut bullets: Vec<u8> = vec![];
    assert!(is_player_collide(false, true, &mut bullets, &vec![]));
}

#[test]
fn stage_textures_of_each_character() {
    assert_eq!(stage_image_path(Actor::Aris), "textures/img/aris.dds");
    assert_eq!(stage_image_path(Actor::Yuzu), "textures/img/yuzu.dds");
    assert_eq!(player_texture_path(Actor::Momoi), "textures/character/momoi_player.dds");
    assert_eq!(player_texture_path(Actor::Midori), "textures/character/midori_player.dds");
}

#[test]
fn a_stage_starts_entering_with_nothing_owned() {
    let mut p: StageProgress<f64> = StageProgress::new();
    assert_eq!(p.state, InGameState::Enter);
    assert_eq!(p.num_total_tiles, 10000);
    assert_eq!(p.num_owned_tiles, 0);
    assert_eq!(p.result_star_index, 0);
    assert!(p.owned_tiles.is_empty());
    p.record_owned(5000);
    assert_eq!(p.num_owned_tiles, 5000);
    assert_eq!(p.result_star_index, 2);
    p.record_owned(10000);
    assert_eq!(p.result_star_index, 4);
    assert_eq!(p.state, InGameState::Enter);
}

#[test]
fn entering_claims_the_spawn_area() {
    let mut grid = TileGrid::new(100, 100);
    let mut p: StageProgress<f64> = StageProgress::new();
    p.finish_entering(&mut grid, 50, 40, 6, 0.0);
    assert_eq!(p.state, InGameState::Spawn);
    assert_eq!(p.num_owned_tiles, 121);
    assert_eq!(p.result_star_index, 0);
    assert_eq!(p.owned_tiles.len(), 1);
    let (timer, tiles) = &p.owned_tiles[0];
    assert_eq!(*timer, 0.0);
    assert_eq!(tiles.len(), 121);
    assert_eq!(tiles[0], (45, 35));
    assert_eq!(tiles[120], (55, 45));
    assert!(grid.is_visited(50, 40));
    assert!(grid.is_visited(45, 35));
    assert!(!grid.is_visited(44, 40));
    assert!(!grid.is_visited(50, 46));
    assert!(!grid.is_visited(0, 0));
}

#[test]
fn entering_with_no_spawn_area_owns_nothing() {
    let mut grid = TileGrid::new(10, 10);
    let mut p: StageProgress<u32> = StageProgress::new();
    p.finish_entering(&mut grid, 3, 3, 0, 7);
    assert_eq!(p.num_owned_tiles, 0);
    assert_eq!(p.owned_tiles.len(), 1);
    assert!(p.owned_tiles[0].1.is_empty());
    assert_eq!(p.state, InGameState::Spawn);
}
