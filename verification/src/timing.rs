use vstd::prelude::*;

verus! {

/// The most scene updates the game loop runs before it draws a frame.
pub const MAX_UPDATE_COUNT: usize = 30;

/// The most scene updates the logic loop runs on one pass.
pub const MAX_LOGIC_UPDATE_COUNT: usize = 16;

/// The number of fixed steps that fit in `elapsed`, at most `max`.
pub open spec fn spec_steps_due(elapsed: int, step: int, max: int) -> int {
    if elapsed / step < max {
        elapsed / step
    } else {
        max
    }
}

/// The number of fixed steps that leave time over, at most `max`: a step is taken only while
/// more than a whole step's time is owed.
pub open spec fn spec_steps_due_strictly(elapsed: int, step: int, max: int) -> int {
    if elapsed == 0 {
        0
    } else {
        spec_steps_due(elapsed - 1, step, max)
    }
}

/// Runs fixed steps of `step` time units against the `elapsed` time owed, while a whole step
/// is owed (or, with `strict`, more than a whole step) and fewer than `max` were run.
/// Returns the number of steps and the time still owed.
fn take_steps(elapsed: u64, step: u64, max: usize, strict: bool) -> (res: (usize, u64))
    requires
        step > 0,
    ensures
        res.0 <= max,
        res.0 * step + res.1 == elapsed,
        res.0 < max ==> if strict {
            res.1 <= step
        } else {
            res.1 < step
        },
        strict && res.0 > 0 ==> res.1 > 0,
{
    let mut count: usize = 0;
    let mut left: u64 = elapsed;
    while count < max && (left > step || (!strict && left == step))
        invariant
            step > 0,
            count <= max,
            count * step + left == elapsed,
            strict && count > 0 ==> left > 0,
        decreases max - count,
    {
        left = left - step;
        count = count + 1;
        assert(count * step == (count - 1) * step + step) by (nonlinear_arith);
    }
    (count, left)
}

/// The scene updates the game loop runs for the `elapsed` time owed, in fixed steps of
/// `step`: one per whole step owed, at most `MAX_UPDATE_COUNT`. Returns their number and the
/// time still owed after them.
pub fn frame_updates(elapsed: u64, step: u64) -> (res: (usize, u64))
    requires
        step > 0,
    ensures
        res.0 == spec_steps_due(elapsed as int, step as int, MAX_UPDATE_COUNT as int),
        res.1 == elapsed - res.0 * step,
{
    let (count, left) = take_steps(elapsed, step, MAX_UPDATE_COUNT, false);
    proof {
        if count < MAX_UPDATE_COUNT {
            vstd::arithmetic::div_mod::lemma_fundamental_div_mod_converse(
                elapsed as int,
                step as int,
                count as int,
                left as int,
            );
        } else {
            assert(count * step <= elapsed);
            assert((count as int) <= (elapsed as int) / (step as int)) by (nonlinear_arith)
                requires
                    count * step <= elapsed,
                    step > 0,
            ;
        }
    }
    (count, left)
}

/// The scene updates the logic loop runs for the `elapsed` time owed, in fixed steps of
/// `step`: one while more than a whole step is owed, at most `MAX_LOGIC_UPDATE_COUNT`.
/// Returns their number and the time still owed after them.
pub fn logic_updates(elapsed: u64, step: u64) -> (res: (usize, u64))
    requires
        step > 0,
    ensures
        res.0 == spec_steps_due_strictly(
            elapsed as int,
            step as int,
            MAX_LOGIC_UPDATE_COUNT as int,
        ),
        res.1 == elapsed - res.0 * step,
{
    let (count, left) = take_steps(elapsed, step, MAX_LOGIC_UPDATE_COUNT, true);
    proof {
        if elapsed > 0 {
            assert(left >= 1) by (nonlinear_arith)
                requires
                    count * step + left == elapsed,
                    elapsed > 0,
                    count > 0 ==> left > 0,
            ;
            if count < MAX_LOGIC_UPDATE_COUNT {
                vstd::arithmetic::div_mod::lemma_fundamental_div_mod_converse(
                    elapsed - 1,
                    step as int,
                    count as int,
                    left - 1,
                );
            } else {
                assert((count as int) <= (elapsed - 1) / (step as int)) by (nonlinear_arith)
                    requires
                        count * step <= elapsed - 1,
                        step > 0,
                ;
            }
        }
    }
    (count, left)
}

proof fn lemma_steps_bounded(elapsed: int, step: int, max: int)
    requires
        elapsed >= 0,
        step > 0,
        max >= 0,
    ensures
        0 <= spec_steps_due(elapsed, step, max) * step <= elapsed,
        spec_steps_due(elapsed, step, max) < max ==> elapsed - spec_steps_due(elapsed, step, max)
            * step < step,
{
    vstd::arithmetic::div_mod::lemma_fundamental_div_mod(elapsed, step);
    vstd::arithmetic::div_mod::lemma_mod_pos_bound(elapsed, step);
    let q = elapsed / step;
    let r = elapsed % step;
    let n = spec_steps_due(elapsed, step, max);
    assert(0 <= q) by (nonlinear_arith)
        requires
            elapsed >= 0,
            step > 0,
            q == elapsed / step,
    ;
    assert(0 <= n * step <= q * step) by (nonlinear_arith)
        requires
            0 <= n <= q,
            step > 0,
    ;
    assert(step * q == q * step) by (nonlinear_arith);
}

/// The updates never owe more time than was owed, and unless the cap was reached less than a
/// whole step is still owed afterwards (no more than a step for the logic loop).
pub proof fn lemma_updates_catch_up(elapsed: int, step: int, max: int)
    requires
        elapsed >= 0,
        step > 0,
        max >= 0,
    ensures
        0 <= spec_steps_due(elapsed, step, max) * step <= elapsed,
        spec_steps_due(elapsed, step, max) < max ==> elapsed - spec_steps_due(elapsed, step, max)
            * step < step,
        0 <= spec_steps_due_strictly(elapsed, step, max) * step <= elapsed,
        spec_steps_due_strictly(elapsed, step, max) < max ==> elapsed - spec_steps_due_strictly(
            elapsed,
            step,
            max,
        ) * step <= step,
{
    lemma_steps_bounded(elapsed, step, max);
    if elapsed > 0 {
        lemma_steps_bounded(elapsed - 1, step, max);
    }
}

} // verus!
