use std::collections::VecDeque;

use millennium_run::scene::{apply_scene_state, InitScene, SceneState};

fn stack(items: &[u32]) -> VecDeque<u32> {
    items.iter().copied().collect()
}

#[test]
fn keep_changes_nothing() {
    let mut s = stack(&[1, 2]);
    let c = apply_scene_state(&mut s, SceneState::Keep);
    assert_eq!(s, stack(&[1, 2]));
    assert!(c.exited.is_empty());
    assert!(!c.entered);
    assert!(!c.finished);
}

#[test]
fn push_then_pop_restores_the_stack() {
    let mut s = stack(&[1]);
    let c = apply_scene_state(&mut s, SceneState::Push(7));
    assert_eq!(s, stack(&[1, 7]));
    assert!(c.entered && c.exited.is_empty());
    let c = apply_scene_state(&mut s, SceneState::Pop);
    assert_eq!(s, stack(&[1]));
    assert_eq!(c.exited, vec![7]);
    assert!(!c.entered);
    assert!(!c.finished);
}

#[test]
fn popping_the_last_scene_finishes() {
    let mut s = stack(&[3]);
    let c = apply_scene_state(&mut s, SceneState::Pop);
    assert!(s.is_empty());
    assert_eq!(c.exited, vec![3]);
    assert!(c.finished);
}

#[test]
fn change_replaces_the_top_scene() {
    let mut s = stack(&[1, 2, 3]);
    let c = apply_scene_state(&mut s, SceneState::Change(9));
    assert_eq!(s, stack(&[1, 2, 9]));
    assert_eq!(c.exited, vec![3]);
    assert!(c.entered);
    assert!(!c.finished);
}

#[test]
fn reset_leaves_every_scene_top_first() {
    let mut s = stack(&[1, 2, 3]);
    let c = apply_scene_state(&mut s, SceneState::Reset(5));
    assert_eq!(s, stack(&[5]));
    assert_eq!(c.exited, vec![3, 2, 1]);
    assert!(c.entered);
    let mut empty: VecDeque<u32> = VecDeque::new();
    let c = apply_scene_state(&mut empty, SceneState::Reset(4));
    assert_eq!(empty, stack(&[4]));
    assert!(c.exited.is_empty());
}

#[test]
fn default_scene_state_keeps() {
    assert!(matches!(SceneState::<u32>::default(), SceneState::Keep));
}

#[test]
fn init_scene_records_its_render_objects() {
    let mut scene: InitScene<u64> = InitScene::new();
    assert_eq!(scene.shader(), None);
    assert_eq!(scene.pipeline(), None);
    scene.set_render_objects(11, 12);
    assert_eq!(scene.shader(), Some(&11));
    assert_eq!(scene.pipeline(), Some(&12));
}

use millennium_run::scene::{apply_next_scene, NextScene};

#[test]
fn next_scene_requests_of_the_running_scene() {
    let mut s = stack(&[1]);
    let c = apply_next_scene(&mut s, 2, NextScene::Keep);
    assert_eq!(s, stack(&[1, 2]));
    assert!(c.exited.is_empty() && !c.entered);
    let mut s = stack(&[1]);
    let c = apply_next_scene(&mut s, 2, NextScene::Push(3));
    assert_eq!(s, stack(&[1, 2, 3]));
    assert!(c.entered);
    let mut s = stack(&[1]);
    let c = apply_next_scene(&mut s, 2, NextScene::Change(3));
    assert_eq!(s, stack(&[1, 3]));
    assert_eq!(c.exited, vec![2]);
    let mut s = stack(&[]);
    let c = apply_next_scene(&mut s, 2, NextScene::Pop);
    assert!(s.is_empty());
    assert_eq!(c.exited, vec![2]);
    assert!(c.finished);
}
