use vstd::prelude::*;

use std::collections::VecDeque;

verus! {

/// What the running scene asks of the scene stack at the end of a frame.
pub enum SceneState<S> {
    /// Stay in the current scene.
    Keep,
    /// Leave the current scene and return to the one below it.
    Pop,
    /// Enter a new scene above the current one.
    Push(S),
    /// Leave the current scene and enter a new one in its place.
    Change(S),
    /// Leave every scene and enter a new one.
    Reset(S),
}

impl<S> Default for SceneState<S> {
    fn default() -> (res: Self)
        ensures
            res is Keep,
    {
        SceneState::Keep
    }
}

/// What the game loop must do after the scene stack has changed: leave the scenes in
/// `exited`, in that order, then enter the scene on top of the stack when `entered` holds.
/// `finished` holds when the last scene has been left and the application ends.
pub struct SceneChange<S> {
    pub exited: Vec<S>,
    pub entered: bool,
    pub finished: bool,
}

/// The stack after `state` is applied to the stack `stack`.
pub open spec fn spec_next_stack<S>(stack: Seq<S>, state: SceneState<S>) -> Seq<S> {
    match state {
        SceneState::Keep => stack,
        SceneState::Pop => stack.drop_last(),
        SceneState::Push(new) => stack.push(new),
        SceneState::Change(new) => stack.drop_last().push(new),
        SceneState::Reset(new) => seq![new],
    }
}

/// The scenes that applying `state` to the stack `stack` leaves, in the order they are left.
pub open spec fn spec_exited<S>(stack: Seq<S>, state: SceneState<S>) -> Seq<S> {
    match state {
        SceneState::Keep => seq![],
        SceneState::Pop => seq![stack.last()],
        SceneState::Push(_) => seq![],
        SceneState::Change(_) => seq![stack.last()],
        SceneState::Reset(_) => stack.reverse(),
    }
}

/// Whether applying `state` enters a new scene.
pub open spec fn spec_enters<S>(state: SceneState<S>) -> bool {
    state is Push || state is Change || state is Reset
}

/// Whether `state` may be applied to a stack of `len` scenes: leaving the current
/// scene needs one.
pub open spec fn spec_applicable<S>(len: nat, state: SceneState<S>) -> bool {
    (state is Pop || state is Change) ==> len > 0
}

/// Applies the scene state that the current scene asked for to the scene stack.
pub fn apply_scene_state<S>(stack: &mut VecDeque<S>, state: SceneState<S>) -> (res: SceneChange<S>)
    requires
        spec_applicable(old(stack)@.len(), state),
    ensures
        final(stack)@ == spec_next_stack(old(stack)@, state),
        res.exited@ == spec_exited(old(stack)@, state),
        res.entered == spec_enters(state),
        res.finished == (state is Pop && final(stack)@.len() == 0),
{
    let mut exited: Vec<S> = Vec::new();
    match state {
        SceneState::Keep => {
            assert(exited@ =~= spec_exited(old(stack)@, SceneState::<S>::Keep));
            SceneChange { exited, entered: false, finished: false }
        },
        SceneState::Pop => {
            let old_scene = stack.pop_back().unwrap();
            exited.push(old_scene);
            let finished = stack.len() == 0;
            SceneChange { exited, entered: false, finished }
        },
        SceneState::Push(new) => {
            stack.push_back(new);
            SceneChange { exited, entered: true, finished: false }
        },
        SceneState::Change(new) => {
            let old_scene = stack.pop_back().unwrap();
            exited.push(old_scene);
            stack.push_back(new);
            SceneChange { exited, entered: true, finished: false }
        },
        SceneState::Reset(new) => {
            let ghost start = stack@;
            while stack.len() > 0
                invariant
                    start == stack@ + exited@.reverse(),
                decreases stack@.len(),
            {
                let ghost before = stack@;
                let old_scene = stack.pop_back().unwrap();
                exited.push(old_scene);
                proof {
                    assert(before == stack@.push(old_scene));
                    assert(exited@.reverse() =~= seq![old_scene] + exited@.drop_last().reverse());
                    assert(start =~= stack@ + exited@.reverse());
                }
            }
            proof {
                assert(exited@.reverse().reverse() =~= exited@);
                assert(start.reverse() =~= exited@);
            }
            stack.push_back(new);
            assert(stack@ =~= seq![new]);
            SceneChange { exited, entered: true, finished: false }
        },
    }
}

/// What a scene of the scene-graph loop asks for after a frame.
pub enum NextScene<S> {
    /// Stay in the current scene.
    Keep,
    /// Leave the current scene and enter a new one in its place.
    Change(S),
    /// Enter a new scene above the current one.
    Push(S),
    /// Leave the current scene.
    Pop,
}

/// The scene state that a `NextScene` request amounts to.
pub open spec fn spec_as_scene_state<S>(next: NextScene<S>) -> SceneState<S> {
    match next {
        NextScene::Keep => SceneState::Keep,
        NextScene::Change(s) => SceneState::Change(s),
        NextScene::Push(s) => SceneState::Push(s),
        NextScene::Pop => SceneState::Pop,
    }
}

/// Puts the scene that just ran, `current`, taken off the top of `stack`, back according to
/// its request `next`: the same as applying the matching scene state to the stack with
/// `current` on top.
pub fn apply_next_scene<S>(stack: &mut VecDeque<S>, current: S, next: NextScene<S>) -> (res:
    SceneChange<S>)
    ensures
        final(stack)@ == spec_next_stack(old(stack)@.push(current), spec_as_scene_state(next)),
        res.exited@ == spec_exited(old(stack)@.push(current), spec_as_scene_state(next)),
        res.entered == spec_enters(spec_as_scene_state(next)),
        res.finished == (next is Pop && final(stack)@.len() == 0),
{
    stack.push_back(current);
    let state = match next {
        NextScene::Keep => SceneState::Keep,
        NextScene::Change(s) => SceneState::Change(s),
        NextScene::Push(s) => SceneState::Push(s),
        NextScene::Pop => SceneState::Pop,
    };
    apply_scene_state(stack, state)
}

/// Pushing a scene and then popping it leaves the stack as it was, and the pop leaves
/// exactly the pushed scene.
pub proof fn lemma_push_then_pop_restores<S>(stack: Seq<S>, scene: S)
    ensures
        spec_next_stack(spec_next_stack(stack, SceneState::Push(scene)), SceneState::Pop) == stack,
        spec_exited(spec_next_stack(stack, SceneState::Push(scene)), SceneState::<S>::Pop) == seq![
            scene,
        ],
        spec_applicable(spec_next_stack(stack, SceneState::Push(scene)).len(), SceneState::<S>::Pop),
{
    assert(stack.push(scene).drop_last() =~= stack);
}

/// Only a pop can empty the scene stack: every other applicable scene state leaves at least
/// one scene on a stack that had one.
pub proof fn lemma_only_pop_empties<S>(stack: Seq<S>, state: SceneState<S>)
    requires
        stack.len() > 0,
        spec_applicable(stack.len(), state),
    ensures
        spec_next_stack(stack, state).len() == 0 ==> (state is Pop && stack.len() == 1),
{
}

/// A change replaces the top scene and keeps the depth of the stack and every scene below.
pub proof fn lemma_change_keeps_depth<S>(stack: Seq<S>, scene: S)
    requires
        stack.len() > 0,
    ensures
        spec_next_stack(stack, SceneState::Change(scene)).len() == stack.len(),
        spec_next_stack(stack, SceneState::Change(scene)).last() == scene,
        forall|i: int|
            0 <= i < stack.len() - 1 ==> #[trigger] spec_next_stack(
                stack,
                SceneState::Change(scene),
            )[i] == stack[i],
{
}

/// A reset leaves only the new scene on the stack and leaves every old scene, the top one
/// first.
pub proof fn lemma_reset_leaves_all<S>(stack: Seq<S>, scene: S)
    ensures
        spec_next_stack(stack, SceneState::Reset(scene)) == seq![scene],
        spec_exited(stack, SceneState::Reset(scene)).len() == stack.len(),
        forall|i: int|
            0 <= i < stack.len() ==> #[trigger] spec_exited(stack, SceneState::Reset(scene))[i]
                == stack[stack.len() - 1 - i],
{
}

/// The scene that prepares the rendering test: it creates a shader module and a render
/// pipeline when entered and draws with the pipeline.
pub struct InitScene<H> {
    test_shader: Option<H>,
    test_pipeline: Option<H>,
}

impl<H> InitScene<H> {
    pub closed spec fn spec_shader(&self) -> Option<H> {
        self.test_shader
    }

    pub closed spec fn spec_pipeline(&self) -> Option<H> {
        self.test_pipeline
    }

    /// A scene that has created neither its shader module nor its pipeline.
    pub fn new() -> (res: Self)
        ensures
            res.spec_shader() is None,
            res.spec_pipeline() is None,
    {
        Self { test_shader: None, test_pipeline: None }
    }

    /// Records the shader module and the render pipeline created on entering the scene.
    pub fn set_render_objects(&mut self, shader: H, pipeline: H)
        ensures
            final(self).spec_shader() == Some(shader),
            final(self).spec_pipeline() == Some(pipeline),
    {
        self.test_shader = Some(shader);
        self.test_pipeline = Some(pipeline);
    }

    /// The shader module, once created.
    pub fn shader(&self) -> (res: Option<&H>)
        ensures
            res == match self.spec_shader() {
                Some(h) => Some(&h),
                None => None,
            },
    {
        match &self.test_shader {
            Some(h) => Some(h),
            None => None,
        }
    }

    /// The render pipeline, once created.
    pub fn pipeline(&self) -> (res: Option<&H>)
        ensures
            res == match self.spec_pipeline() {
                Some(h) => Some(&h),
                None => None,
            },
    {
        match &self.test_pipeline {
            Some(h) => Some(h),
            None => None,
        }
    }
}

} // verus!
