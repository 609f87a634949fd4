use millennium_run::control::{
    handle_control_key, handle_direction_key, Control, ControlKey as K, Direction,
    PlayerControlState as S,
};

#[test]
fn pressing_a_key_steers() {
    assert_eq!(handle_direction_key(S::Idle, Direction::Up, true, false, false), S::Up);
    assert_eq!(handle_direction_key(S::Left, Direction::Right, true, false, false), S::Right);
    assert_eq!(handle_direction_key(S::Up, Direction::Left, true, false, true), S::Left);
}

#[test]
fn no_turning_back_while_drawing() {
    assert_eq!(handle_direction_key(S::Down, Direction::Up, true, false, true), S::Down);
    assert_eq!(handle_direction_key(S::Up, Direction::Down, true, false, true), S::Up);
    assert_eq!(handle_direction_key(S::Right, Direction::Left, true, false, true), S::Right);
    assert_eq!(handle_direction_key(S::Left, Direction::Right, true, false, true), S::Left);
}

#[test]
fn releasing_the_current_key_stops() {
    assert_eq!(handle_direction_key(S::Up, Direction::Up, false, false, true), S::Idle);
    assert_eq!(handle_direction_key(S::Up, Direction::Left, false, false, true), S::Up);
}

#[test]
fn repeated_events_change_nothing() {
    assert_eq!(handle_direction_key(S::Idle, Direction::Up, true, true, false), S::Idle);
    assert_eq!(handle_direction_key(S::Up, Direction::Up, false, true, false), S::Up);
}

#[test]
fn default_bindings_are_the_arrow_keys() {
    let c = Control::default();
    assert_eq!(handle_control_key(&c, S::Idle, K::ArrowUp, true, false, false), S::Up);
    assert_eq!(handle_control_key(&c, S::Idle, K::ArrowRight, true, false, false), S::Right);
    assert_eq!(handle_control_key(&c, S::Right, K::ArrowRight, false, false, false), S::Idle);
    assert_eq!(handle_control_key(&c, S::Right, K::ArrowLeft, true, false, true), S::Right);
    assert_eq!(handle_control_key(&c, S::Down, K::KeyW, true, false, false), S::Down);
}

#[test]
fn rebound_keys_steer() {
    let c = Control { up: K::KeyW, down: K::KeyS, left: K::KeyA, right: K::KeyD };
    assert_eq!(handle_control_key(&c, S::Idle, K::KeyA, true, false, false), S::Left);
    assert_eq!(handle_control_key(&c, S::Idle, K::ArrowUp, true, false, false), S::Idle);
    assert_eq!(handle_control_key(&c, S::Left, K::KeyA, true, true, false), S::Left);
}

#[test]
fn shared_key_follows_the_binding_order() {
    // one key for up and down: down's turn comes after up's
    let c = Control { up: K::KeyW, down: K::KeyW, left: K::KeyA, right: K::KeyD };
    assert_eq!(handle_control_key(&c, S::Idle, K::KeyW, true, false, false), S::Down);
    // drawing while steering down: up refuses the press and the handling ends there
    assert_eq!(handle_control_key(&c, S::Down, K::KeyW, true, false, true), S::Down);
    // drawing while steering up: up keeps up, then down refuses
    assert_eq!(handle_control_key(&c, S::Up, K::KeyW, true, false, true), S::Up);
}
