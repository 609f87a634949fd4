use vstd::prelude::*;

verus! {

/// The direction in which the player is steered.
#[derive(Debug, Clone, Copy, PartialEq, Eq, Structural, Hash)]
pub enum PlayerControlState {
    Idle,
    Up,
    Down,
    Left,
    Right,
}

/// The four direction keys of the control settings.
#[derive(Debug, Clone, Copy, PartialEq, Eq, Structural, Hash)]
pub enum Direction {
    Up,
    Down,
    Left,
    Right,
}

/// The steering state that a direction key selects.
pub open spec fn spec_steer(d: Direction) -> PlayerControlState {
    match d {
        Direction::Up => PlayerControlState::Up,
        Direction::Down => PlayerControlState::Down,
        Direction::Left => PlayerControlState::Left,
        Direction::Right => PlayerControlState::Right,
    }
}

/// The steering state opposite to a direction key.
pub open spec fn spec_reverse(d: Direction) -> PlayerControlState {
    match d {
        Direction::Up => PlayerControlState::Down,
        Direction::Down => PlayerControlState::Up,
        Direction::Left => PlayerControlState::Right,
        Direction::Right => PlayerControlState::Left,
    }
}

/// The steering state after a direction key event while the player is steered by `state`.
/// `drawing` holds while the player is drawing a path outside its area; then it cannot turn
/// back on the path.
pub open spec fn spec_after_key(
    state: PlayerControlState,
    key: Direction,
    pressed: bool,
    repeat: bool,
    drawing: bool,
) -> PlayerControlState {
    if repeat {
        state
    } else if pressed {
        if drawing && state == spec_reverse(key) {
            state
        } else {
            spec_steer(key)
        }
    } else if state == spec_steer(key) {
        PlayerControlState::Idle
    } else {
        state
    }
}

fn steer(d: Direction) -> (res: PlayerControlState)
    ensures
        res == spec_steer(d),
{
    match d {
        Direction::Up => PlayerControlState::Up,
        Direction::Down => PlayerControlState::Down,
        Direction::Left => PlayerControlState::Left,
        Direction::Right => PlayerControlState::Right,
    }
}

fn reverse(d: Direction) -> (res: PlayerControlState)
    ensures
        res == spec_reverse(d),
{
    match d {
        Direction::Up => PlayerControlState::Down,
        Direction::Down => PlayerControlState::Up,
        Direction::Left => PlayerControlState::Right,
        Direction::Right => PlayerControlState::Left,
    }
}

/// Steers the player by a direction key: pressing a key steers towards it, except back along
/// the path being drawn; releasing the key of the current direction stops the player;
/// repeated key events change nothing.
pub fn handle_direction_key(
    state: PlayerControlState,
    key: Direction,
    pressed: bool,
    repeat: bool,
    drawing: bool,
) -> (res: PlayerControlState)
    ensures
        res == spec_after_key(state, key, pressed, repeat, drawing),
{
    if repeat {
        state
    } else if pressed {
        if drawing && state == reverse(key) {
            state
        } else {
            steer(key)
        }
    } else if state == steer(key) {
        PlayerControlState::Idle
    } else {
        state
    }
}

/// While a path is drawn the player never turns straight back: a key event never moves the
/// steering state to the direction opposite the current one.
pub proof fn lemma_no_reversal_while_drawing(
    state: PlayerControlState,
    key: Direction,
    pressed: bool,
    repeat: bool,
)
    ensures
        state == spec_reverse(key) ==> spec_after_key(state, key, pressed, repeat, true)
            == state,
        spec_after_key(state, key, pressed, repeat, true) == state || spec_after_key(
            state,
            key,
            pressed,
            repeat,
            true,
        ) == spec_steer(key) || spec_after_key(state, key, pressed, repeat, true)
            == PlayerControlState::Idle,
{
}

/// Repeated key events leave the steering unchanged, and so does releasing a key other
/// than the one the player is steered by.
pub proof fn lemma_only_own_release_stops(
    state: PlayerControlState,
    key: Direction,
    pressed: bool,
    drawing: bool,
)
    ensures
        spec_after_key(state, key, pressed, true, drawing) == state,
        state != spec_steer(key) ==> spec_after_key(state, key, false, false, drawing) == state,
        spec_after_key(spec_steer(key), key, false, false, drawing) == PlayerControlState::Idle,
{
}

/// What a direction key does, in terms of the directions themselves: a fresh press of the
/// key of `d` steers towards `d`, unless it would turn straight back along the path being
/// drawn, which is refused; releasing the key of the direction being steered stops the
/// player, and releasing any other key changes nothing; repeated events change nothing.
pub proof fn lemma_direction_key_steers(
    state: PlayerControlState,
    d: Direction,
    pressed: bool,
    repeat: bool,
    drawing: bool,
)
    ensures
        ({
            let toward = match d {
                Direction::Up => PlayerControlState::Up,
                Direction::Down => PlayerControlState::Down,
                Direction::Left => PlayerControlState::Left,
                Direction::Right => PlayerControlState::Right,
            };
            let back = match d {
                Direction::Up => PlayerControlState::Down,
                Direction::Down => PlayerControlState::Up,
                Direction::Left => PlayerControlState::Right,
                Direction::Right => PlayerControlState::Left,
            };
            &&& (!repeat && pressed && !(drawing && state == back)) ==> spec_after_key(
                state,
                d,
                pressed,
                repeat,
                drawing,
            ) == toward
            &&& (!repeat && pressed && drawing && state == back) ==> spec_after_key(
                state,
                d,
                pressed,
                repeat,
                drawing,
            ) == state
            &&& (!repeat && !pressed) ==> spec_after_key(state, d, pressed, repeat, drawing) == if state
                == toward {
                PlayerControlState::Idle
            } else {
                state
            }
            &&& repeat ==> spec_after_key(state, d, pressed, repeat, drawing) == state
        }),
{
}

/// The keys that the direction bindings can use.
#[derive(Debug, Clone, Copy, PartialEq, Eq, Structural, Hash)]
pub enum ControlKey {
    ArrowUp,
    ArrowDown,
    ArrowLeft,
    ArrowRight,
    KeyW,
    KeyA,
    KeyS,
    KeyD,
}

/// The user's key bindings: the key that steers in each direction.
#[derive(Debug, Clone, Copy, PartialEq, Eq, Structural, Hash)]
pub struct Control {
    pub up: ControlKey,
    pub down: ControlKey,
    pub left: ControlKey,
    pub right: ControlKey,
}

impl Default for Control {
    /// The arrow keys.
    fn default() -> (res: Self)
        ensures
            res == (Control {
                up: ControlKey::ArrowUp,
                down: ControlKey::ArrowDown,
                left: ControlKey::ArrowLeft,
                right: ControlKey::ArrowRight,
            }),
    {
        Control {
            up: ControlKey::ArrowUp,
            down: ControlKey::ArrowDown,
            left: ControlKey::ArrowLeft,
            right: ControlKey::ArrowRight,
        }
    }
}

/// Whether a key event for direction `d` is refused and ends the handling of the event:
/// pressing the key of the direction opposite the current one while drawing.
pub open spec fn spec_key_refused(
    state: PlayerControlState,
    d: Direction,
    pressed: bool,
    repeat: bool,
    drawing: bool,
) -> bool {
    !repeat && pressed && drawing && state == spec_reverse(d)
}

/// One binding's turn at a key event: when the key is `bound` to `d`, the steering state
/// after it and whether the handling stops there; else nothing changes.
pub open spec fn spec_binding_step(
    state: PlayerControlState,
    bound: bool,
    d: Direction,
    pressed: bool,
    repeat: bool,
    drawing: bool,
) -> (PlayerControlState, bool) {
    if bound {
        (
            spec_after_key(state, d, pressed, repeat, drawing),
            spec_key_refused(state, d, pressed, repeat, drawing),
        )
    } else {
        (state, false)
    }
}

/// The steering state after an event of `key`: the bindings of up, down, left and right
/// take their turns in that order, each on the state the ones before it left, until one
/// refuses the event.
pub open spec fn spec_after_control(
    control: Control,
    state: PlayerControlState,
    key: ControlKey,
    pressed: bool,
    repeat: bool,
    drawing: bool,
) -> PlayerControlState {
    let a = spec_binding_step(state, key == control.up, Direction::Up, pressed, repeat, drawing);
    if a.1 {
        a.0
    } else {
        let b = spec_binding_step(a.0, key == control.down, Direction::Down, pressed, repeat, drawing);
        if b.1 {
            b.0
        } else {
            let l = spec_binding_step(
                b.0,
                key == control.left,
                Direction::Left,
                pressed,
                repeat,
                drawing,
            );
            if l.1 {
                l.0
            } else {
                spec_binding_step(
                    l.0,
                    key == control.right,
                    Direction::Right,
                    pressed,
                    repeat,
                    drawing,
                ).0
            }
        }
    }
}

/// One binding's turn at a key event, as `spec_binding_step` says.
fn binding_step(
    state: PlayerControlState,
    bound: bool,
    d: Direction,
    pressed: bool,
    repeat: bool,
    drawing: bool,
) -> (res: (PlayerControlState, bool))
    ensures
        res == spec_binding_step(state, bound, d, pressed, repeat, drawing),
{
    if bound {
        let refused = !repeat && pressed && drawing && state == reverse(d);
        (handle_direction_key(state, d, pressed, repeat, drawing), refused)
    } else {
        (state, false)
    }
}

/// Steers the player by a key event under the user's bindings `control`: each direction
/// whose key it is handles it in turn (up, down, left, right), as `handle_direction_key`
/// does, and a press that would turn back along the drawn path ends the handling.
pub fn handle_control_key(
    control: &Control,
    state: PlayerControlState,
    key: ControlKey,
    pressed: bool,
    repeat: bool,
    drawing: bool,
) -> (res: PlayerControlState)
    ensures
        res == spec_after_control(*control, state, key, pressed, repeat, drawing),
{
    let a = binding_step(state, key == control.up, Direction::Up, pressed, repeat, drawing);
    if a.1 {
        return a.0;
    }
    let b = binding_step(a.0, key == control.down, Direction::Down, pressed, repeat, drawing);
    if b.1 {
        return b.0;
    }
    let l = binding_step(b.0, key == control.left, Direction::Left, pressed, repeat, drawing);
    if l.1 {
        return l.0;
    }
    binding_step(l.0, key == control.right, Direction::Right, pressed, repeat, drawing).0
}

/// With four different keys bound, an event of the key bound to a direction steers as that
/// direction's key does, and an event of an unbound key changes nothing.
pub proof fn lemma_distinct_bindings_steer_one(
    control: Control,
    state: PlayerControlState,
    key: ControlKey,
    pressed: bool,
    repeat: bool,
    drawing: bool,
)
    requires
        control.up != control.down,
        control.up != control.left,
        control.up != control.right,
        control.down != control.left,
        control.down != control.right,
        control.left != control.right,
    ensures
        key == control.up ==> spec_after_control(control, state, key, pressed, repeat, drawing)
            == spec_after_key(state, Direction::Up, pressed, repeat, drawing),
        key == control.down ==> spec_after_control(control, state, key, pressed, repeat, drawing)
            == spec_after_key(state, Direction::Down, pressed, repeat, drawing),
        key == control.left ==> spec_after_control(control, state, key, pressed, repeat, drawing)
            == spec_after_key(state, Direction::Left, pressed, repeat, drawing),
        key == control.right ==> spec_after_control(control, state, key, pressed, repeat, drawing)
            == spec_after_key(state, Direction::Right, pressed, repeat, drawing),
        (key != control.up && key != control.down && key != control.left && key
            != control.right) ==> spec_after_control(control, state, key, pressed, repeat, drawing)
            == state,
{
}

} // verus!
