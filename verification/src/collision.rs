use vstd::prelude::*;

verus! {

/// The bullets that miss the player, as the collision check leaves them: it takes the
/// bullets from the back, so they come out in reverse order. `hits[i]` says whether bullet
/// `i` touches the player.
pub open spec fn spec_survivors<T>(bullets: Seq<T>, hits: Seq<bool>) -> Seq<T>
    decreases bullets.len(),
{
    if bullets.len() == 0 {
        seq![]
    } else {
        let rest = spec_survivors(bullets.drop_last(), hits.drop_last());
        if hits.last() {
            rest
        } else {
            seq![bullets.last()] + rest
        }
    }
}

/// Whether some bullet touches the player.
pub open spec fn spec_any_hit(hits: Seq<bool>) -> bool {
    exists|i: int| 0 <= i < hits.len() && hits[i]
}

/// Whether the player is hit this frame, and the bullets that remain: an invincible player
/// is never hit and the bullets stay as they are; otherwise the player is hit when touching
/// the boss (`boss_hit`) or a bullet, and every bullet that touches the player vanishes.
/// `hits[i]` says whether bullet `i` touches the player.
pub fn is_player_collide<T>(
    invincible: bool,
    boss_hit: bool,
    bullets: &mut Vec<T>,
    hits: &Vec<bool>,
) -> (res: bool)
    requires
        old(bullets)@.len() == hits@.len(),
    ensures
        invincible ==> !res && final(bullets)@ == old(bullets)@,
        !invincible ==> res == (boss_hit || spec_any_hit(hits@)),
        !invincible ==> final(bullets)@ == spec_survivors(old(bullets)@, hits@),
{
    if invincible {
        return false;
    }
    let ghost orig = bullets@;
    let mut is_collide = boss_hit;
    let mut next: Vec<T> = Vec::new();
    proof {
        assert(hits@.take(hits@.len() as int) =~= hits@);
        assert(orig.take(orig.len() as int) =~= orig);
        assert(next@ + spec_survivors(orig, hits@) =~= spec_survivors(orig, hits@));
    }
    while bullets.len() > 0
        invariant
            bullets@.len() <= orig.len(),
            orig.len() == hits@.len(),
            bullets@ == orig.take(bullets@.len() as int),
            spec_survivors(orig, hits@) == next@ + spec_survivors(
                bullets@,
                hits@.take(bullets@.len() as int),
            ),
            is_collide == (boss_hit || exists|i: int|
                bullets@.len() <= i < hits@.len() && hits@[i]),
        decreases bullets@.len(),
    {
        let n = bullets.len();
        let ghost before = bullets@;
        let bullet = bullets.pop().unwrap();
        proof {
            assert(before.drop_last() =~= orig.take(n - 1));
            assert(hits@.take(n as int).drop_last() =~= hits@.take(n - 1));
            assert(hits@.take(n as int).last() == hits@[n - 1]);
        }
        if hits[n - 1] {
            is_collide = true;
        } else {
            let ghost next_before = next@;
            next.push(bullet);
            proof {
                assert(next@ + spec_survivors(bullets@, hits@.take(bullets@.len() as int)) =~=
                    next_before + (seq![bullet] + spec_survivors(bullets@, hits@.take(bullets@.len() as int))));
            }
        }
    }
    proof {
        assert(spec_survivors(bullets@, hits@.take(0)) =~= Seq::<T>::empty());
        assert(next@ + Seq::<T>::empty() =~= next@);
    }
    bullets.append(&mut next);
    proof {
        assert(spec_any_hit(hits@) == exists|i: int| 0 <= i < hits@.len() && hits@[i]);
    }
    is_collide
}

/// The check never adds bullets: at most as many remain as there were; and when no bullet
/// touches the player, all of them remain, in reverse order.
pub proof fn lemma_survivors_missed<T>(bullets: Seq<T>, hits: Seq<bool>)
    requires
        bullets.len() == hits.len(),
    ensures
        spec_survivors(bullets, hits).len() <= bullets.len(),
        !spec_any_hit(hits) ==> spec_survivors(bullets, hits) == bullets.reverse(),
    decreases bullets.len(),
{
    if bullets.len() > 0 {
        lemma_survivors_missed(bullets.drop_last(), hits.drop_last());
        if !spec_any_hit(hits) {
            assert(!hits.last()) by {
                assert(hits[hits.len() - 1] == hits.last());
            }
            assert(!spec_any_hit(hits.drop_last())) by {
                if spec_any_hit(hits.drop_last()) {
                    let i = choose|i: int| 0 <= i < hits.drop_last().len() && hits.drop_last()[i];
                    assert(hits[i]);
                }
            }
            assert(seq![bullets.last()] + bullets.drop_last().reverse() =~= bullets.reverse());
        }
    }
}

/// The number of bullets that miss the player.
pub open spec fn spec_misses(hits: Seq<bool>) -> nat
    decreases hits.len(),
{
    if hits.len() == 0 {
        0
    } else {
        spec_misses(hits.drop_last()) + if hits.last() {
            0nat
        } else {
            1nat
        }
    }
}

/// `idx` gives, for each bullet in `remaining`, the position among `bullets` that it came
/// from: a bullet that misses the player, taken from the back to the front.
pub open spec fn spec_taken_from_misses<T>(
    bullets: Seq<T>,
    hits: Seq<bool>,
    remaining: Seq<T>,
    idx: Seq<int>,
) -> bool {
    &&& idx.len() == remaining.len()
    &&& forall|j: int|
        0 <= j < idx.len() ==> 0 <= #[trigger] idx[j] < bullets.len() && !hits[idx[j]]
            && remaining[j] == bullets[idx[j]]
    &&& forall|a: int, b: int| 0 <= a < b < idx.len() ==> idx[a] > idx[b]
}

proof fn survivor_positions<T>(bullets: Seq<T>, hits: Seq<bool>) -> (idx: Seq<int>)
    requires
        bullets.len() == hits.len(),
    ensures
        spec_taken_from_misses(bullets, hits, spec_survivors(bullets, hits), idx),
        spec_survivors(bullets, hits).len() == spec_misses(hits),
    decreases bullets.len(),
{
    if bullets.len() == 0 {
        Seq::empty()
    } else {
        let n = bullets.len() - 1;
        let rest = survivor_positions(bullets.drop_last(), hits.drop_last());
        if hits.last() {
            rest
        } else {
            let idx = seq![n as int] + rest;
            let s = spec_survivors(bullets, hits);
            assert(s == seq![bullets.last()] + spec_survivors(bullets.drop_last(), hits.drop_last()));
            assert forall|j: int| 0 <= j < idx.len() implies 0 <= #[trigger] idx[j] < bullets.len()
                && !hits[idx[j]] && s[j] == bullets[idx[j]] by {
                if j > 0 {
                    assert(idx[j] == rest[j - 1]);
                    assert(bullets.drop_last()[rest[j - 1]] == bullets[rest[j - 1]]);
                    assert(hits.drop_last()[rest[j - 1]] == hits[rest[j - 1]]);
                }
            }
            assert forall|a: int, b: int| 0 <= a < b < idx.len() implies idx[a] > idx[b] by {
                if a > 0 {
                    assert(idx[a] == rest[a - 1]);
                }
                assert(idx[b] == rest[b - 1]);
            }
            idx
        }
    }
}

/// Every bullet that touches the player vanishes and every other one remains: the
/// remaining bullets are as many as the misses, and each is a missing bullet, taken once,
/// from the back of the list to the front.
pub proof fn lemma_only_misses_remain<T>(bullets: Seq<T>, hits: Seq<bool>)
    requires
        bullets.len() == hits.len(),
    ensures
        spec_survivors(bullets, hits).len() == spec_misses(hits),
        exists|idx: Seq<int>|
            #[trigger] spec_taken_from_misses(bullets, hits, spec_survivors(bullets, hits), idx),
{
    let idx = survivor_positions(bullets, hits);
    assert(spec_taken_from_misses(bullets, hits, spec_survivors(bullets, hits), idx));
}

} // verus!
