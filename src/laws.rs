use vstd::prelude::*;

use crate::game::GameView;

verus! {

/// The state after a session of steps, where `dirs[i]` is the worm's
/// direction chosen before step `i`.
pub open spec fn run(s: GameView, dirs: Seq<bool>) -> GameView
    decreases dirs.len(),
{
    if dirs.len() == 0 {
        s
    } else {
        run(s, dirs.drop_last()).steered(dirs.last()).step()
    }
}

/// A step keeps a well-formed state well-formed, whatever the worm's
/// direction.
pub proof fn lemma_step_wf(s: GameView)
    requires
        s.wf(),
    ensures
        s.step().wf(),
        s.step().worm.len() == s.worm.len(),
        s.step().above.len() == s.above.len(),
        s.step().ahead.len() == s.ahead.len(),
{
}

/// However the worm is steered, each of the three tracks keeps the length
/// it had, and the state stays well-formed.
pub proof fn lemma_run_keeps_lengths(s: GameView, dirs: Seq<bool>)
    requires
        s.wf(),
    ensures
        run(s, dirs).wf(),
        run(s, dirs).worm.len() == s.worm.len(),
        run(s, dirs).above.len() == s.above.len(),
        run(s, dirs).ahead.len() == s.ahead.len(),
    decreases dirs.len(),
{
    if dirs.len() > 0 {
        lemma_run_keeps_lengths(s, dirs.drop_last());
        lemma_step_wf(run(s, dirs.drop_last()).steered(dirs.last()));
    }
}

/// A step either keeps the gap or narrows it by one from a gap wider than
/// one: it never narrows it below one.
pub proof fn lemma_step_gap(s: GameView)
    ensures
        s.step().gap == s.gap || (s.gap > 1 && s.step().gap == s.gap - 1),
{
}

/// A gap of at least one stays at least one, and never widens, however the
/// worm is steered.
pub proof fn lemma_run_gap_at_least_one(s: GameView, dirs: Seq<bool>)
    requires
        s.gap >= 1,
    ensures
        1 <= run(s, dirs).gap <= s.gap,
    decreases dirs.len(),
{
    if dirs.len() > 0 {
        lemma_run_gap_at_least_one(s, dirs.drop_last());
        lemma_step_gap(run(s, dirs.drop_last()).steered(dirs.last()));
    }
}

/// Equal states steered alike reach equal states, with the same tracks and
/// the same verdict on the worm: nothing but the state and the directions
/// decides a session.
pub proof fn lemma_run_deterministic(a: GameView, b: GameView, dirs: Seq<bool>)
    requires
        a == b,
    ensures
        run(a, dirs).worm == run(b, dirs).worm,
        run(a, dirs).above == run(b, dirs).above,
        run(a, dirs).ahead == run(b, dirs).ahead,
        run(a, dirs).alive() == run(b, dirs).alive(),
{
}

/// When the far wall's newest height plus the gap reaches the bottom of the
/// screen, the cave turns to falling heights and a gap wider than one
/// narrows by exactly one; a gap of one stays one.
pub proof fn lemma_reversal_at_floor(s: GameView)
    requires
        s.ahead.last() + s.gap >= s.max_y,
    ensures
        !s.step().cave_incr,
        s.gap > 1 ==> s.step().gap == s.gap - 1,
        s.gap <= 1 ==> s.step().gap == s.gap,
{
}

/// A step slides the walls: the near wall's new newest height is the far
/// wall's old oldest one, and the far wall's new newest height is its old
/// newest one moved by one in the cave's new direction.
pub proof fn lemma_sliding(s: GameView)
    requires
        s.wf(),
    ensures
        s.step().above.last() == s.ahead[0],
        s.step().ahead.last() == s.ahead.last() + (if s.step().cave_incr {
            1int
        } else {
            -1int
        }),
        s.step().worm.last() == s.worm.last() + (if s.worm_decr {
            -1int
        } else {
            1int
        }),
{
}

} // verus!
