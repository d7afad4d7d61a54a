use std::collections::VecDeque;
use vstd::prelude::*;

verus! {

/// The error returned when a game cannot be built on the given screen.
#[derive(Debug, Clone, Copy, PartialEq, Eq)]
pub enum GameError {
    /// The screen is too small (or has a non-positive side) to hold the tracks.
    InvalidDimension,
}

/// Screen dimensions on which a game can be built: a positive height, and a
/// width that leaves at least one column for the far-wall track.
pub open spec fn valid_dims(y: int, x: int) -> bool {
    y >= 1 && x >= 3
}

/// The heights of a track as mathematical integers.
pub open spec fn ints(s: Seq<i32>) -> Seq<int> {
    s.map_values(|v: i32| v as int)
}

proof fn lemma_ints_push(s: Seq<i32>, v: i32)
    ensures
        ints(s.push(v)) == ints(s).push(v as int),
{
    assert(ints(s.push(v)) =~= ints(s).push(v as int));
}

proof fn lemma_ints_drop_first(s: Seq<i32>)
    requires
        s.len() >= 1,
    ensures
        ints(s.drop_first()) == ints(s).drop_first(),
{
    assert(ints(s.drop_first()) =~= ints(s).drop_first());
}

/// The worm's direction after a key: space sends it up (not decreasing),
/// any other key down.
pub open spec fn decr_after_key(key: char) -> bool {
    key != ' '
}

/// The worm's direction after a batch of keys: the last key wins, and no
/// key leaves the direction `cur` as it was.
pub open spec fn decr_after_keys(keys: Seq<char>, cur: bool) -> bool {
    if keys.len() == 0 {
        cur
    } else {
        decr_after_key(keys.last())
    }
}

/// The abstract state of a game.
pub struct GameView {
    /// Worm positions, oldest first; the last one is the head.
    pub worm: Seq<int>,
    /// Ceiling heights under the worm's span.
    pub above: Seq<int>,
    /// Ceiling heights of the cave still ahead.
    pub ahead: Seq<int>,
    pub gap: int,
    pub cave_incr: bool,
    pub worm_decr: bool,
    pub max_y: int,
    pub max_x: int,
    pub worm_len: int,
    pub score: int,
}

/// Length of the worm track (and of the near-wall track) on a screen `x` wide.
pub open spec fn worm_len_of(x: int) -> int {
    x / 2 + 1
}

/// The state a game starts in on a screen of height `y` and width `x`.
pub open spec fn initial(y: int, x: int) -> GameView {
    let w = worm_len_of(x);
    GameView {
        worm: Seq::new(w as nat, |i: int| y / 4),
        above: Seq::new(w as nat, |i: int| y / 8),
        ahead: Seq::new((x - w) as nat, |i: int| y / 8),
        gap: 7 * (y / 8),
        cave_incr: false,
        worm_decr: false,
        max_y: y,
        max_x: x,
        worm_len: w,
        score: 0,
    }
}

impl GameView {
    /// The worm's head: its newest position.
    pub open spec fn head(self) -> int {
        self.worm.last()
    }

    /// The ceiling over the worm's head.
    pub open spec fn ceiling(self) -> int {
        self.above.last()
    }

    /// The floor under the worm's head, one gap below the ceiling.
    pub open spec fn floor(self) -> int {
        self.ceiling() + self.gap
    }

    /// The worm lies strictly between the ceiling and the floor.
    pub open spec fn alive(self) -> bool {
        self.ceiling() < self.head() && self.head() < self.floor()
    }

    /// What the tracks and the bounds must satisfy for the game to go on.
    pub open spec fn wf(self) -> bool {
        &&& self.max_y >= 1
        &&& self.worm_len >= 1
        &&& self.worm.len() == self.worm_len
        &&& self.above.len() == self.worm_len
        &&& self.ahead.len() == self.max_x - self.worm_len
        &&& self.ahead.len() >= 1
        &&& 0 <= self.gap < self.max_y
        &&& 0 <= self.ahead.last() <= self.max_y
    }

    /// The direction of the cave after the reversal rule has looked at the
    /// far wall's newest height.
    pub open spec fn next_cave_incr(self) -> bool {
        let back = self.ahead.last();
        if back + self.gap >= self.max_y {
            false
        } else if back <= 0 {
            true
        } else {
            self.cave_incr
        }
    }

    /// The gap after the reversal rule: one narrower when the ceiling turns
    /// against the floor boundary, but never below one.
    pub open spec fn next_gap(self) -> int {
        if self.ahead.last() + self.gap >= self.max_y && self.gap > 1 {
            self.gap - 1
        } else {
            self.gap
        }
    }

    /// The height that the worm's head moves to on the next step.
    pub open spec fn next_head(self) -> int {
        if self.worm_decr {
            self.head() - 1
        } else {
            self.head() + 1
        }
    }

    /// One step of the simulation: every track slides by one position.
    pub open spec fn step(self) -> GameView {
        let incr = self.next_cave_incr();
        let back = self.ahead.last();
        GameView {
            worm: self.worm.drop_first().push(self.next_head()),
            above: self.above.drop_first().push(self.ahead[0]),
            ahead: self.ahead.drop_first().push(if incr { back + 1 } else { back - 1 }),
            gap: self.next_gap(),
            cave_incr: incr,
            ..self
        }
    }

    /// The state once the player has chosen the worm's direction.
    pub open spec fn steered(self, decr: bool) -> GameView {
        GameView { worm_decr: decr, ..self }
    }

    /// One tick of a session: the pending keys set the worm's direction, the
    /// game steps, and a worm that is still alive scores one point.
    pub open spec fn tick(self, keys: Seq<char>) -> GameView {
        let s = self.steered(decr_after_keys(keys, self.worm_decr)).step();
        if s.alive() {
            GameView { score: s.score + 1, ..s }
        } else {
            s
        }
    }

    /// The head's next height fits the track's machine integers.
    pub open spec fn head_step_fits(self) -> bool {
        i32::MIN <= self.next_head() <= i32::MAX
    }
}

/// A game in progress.
pub struct Game {
    worm_height: VecDeque<i32>,
    cave_above_height: VecDeque<i32>,
    cave_ahead_height: VecDeque<i32>,
    gap: i32,
    cave_incr: bool,
    worm_decr: bool,
    max_y: i32,
    max_x: i32,
    worm_len: usize,
    score: i64,
}

impl View for Game {
    type V = GameView;

    closed spec fn view(&self) -> GameView {
        GameView {
            worm: ints(self.worm_height@),
            above: ints(self.cave_above_height@),
            ahead: ints(self.cave_ahead_height@),
            gap: self.gap as int,
            cave_incr: self.cave_incr,
            worm_decr: self.worm_decr,
            max_y: self.max_y as int,
            max_x: self.max_x as int,
            worm_len: self.worm_len as int,
            score: self.score as int,
        }
    }
}

/// A track of `n` copies of `v`.
fn flat_track(v: i32, n: usize) -> (r: VecDeque<i32>)
    ensures
        ints(r@) == Seq::new(n as nat, |i: int| v as int),
{
    let mut r: VecDeque<i32> = VecDeque::with_capacity(n);
    let mut i: usize = 0;
    while i < n
        invariant
            i <= n,
            ints(r@) == Seq::new(i as nat, |j: int| v as int),
        decreases n - i,
    {
        proof {
            lemma_ints_push(r@, v);
        }
        r.push_back(v);
        i = i + 1;
        assert(ints(r@) =~= Seq::new(i as nat, |j: int| v as int));
    }
    r
}

impl Game {
    /// Builds the starting state for a screen `y` rows high and `x` columns
    /// wide: a flat cave ceiling at `y / 8`, a flat worm at `y / 4`, a gap of
    /// seven ceilings, and a worm track of `x / 2 + 1` columns.
    pub fn with_size(y: i32, x: i32) -> (r: Result<Game, GameError>)
        ensures
            match r {
                Ok(g) => {
                    &&& valid_dims(y as int, x as int)
                    &&& g@ == initial(y as int, x as int)
                    &&& g@.wf()
                },
                Err(e) => !valid_dims(y as int, x as int) && e == GameError::InvalidDimension,
            },
    {
        if y < 1 || x < 3 {
            return Err(GameError::InvalidDimension);
        }
        let cave_init: i32 = y / 8;
        let worm_init: i32 = y / 4;
        let worm_len: i32 = x / 2 + 1;
        let ahead_len: i32 = x - worm_len;
        let worm_ring = flat_track(worm_init, worm_len as usize);
        let above_ring = flat_track(cave_init, worm_len as usize);
        let ahead_ring = flat_track(cave_init, ahead_len as usize);
        let g = Game {
            worm_height: worm_ring,
            cave_above_height: above_ring,
            cave_ahead_height: ahead_ring,
            gap: cave_init * 7,
            cave_incr: false,
            worm_decr: false,
            max_y: y,
            max_x: x,
            worm_len: worm_len as usize,
            score: 0,
        };
        assert(g@.worm =~= initial(y as int, x as int).worm);
        assert(g@.above =~= initial(y as int, x as int).above);
        assert(g@.ahead =~= initial(y as int, x as int).ahead);
        assert(7 * (y / 8) < y) by (nonlinear_arith)
            requires
                y >= 1,
        ;
        Ok(g)
    }

    /// Whether the worm's head lies strictly between the ceiling and the
    /// floor over it; touching either is death.
    pub fn worm_alive(&self) -> (r: bool)
        requires
            self@.wf(),
        ensures
            r == self@.alive(),
    {
        let ceil: i32 = self.cave_above_height[self.cave_above_height.len() - 1];
        let worm: i32 = self.worm_height[self.worm_height.len() - 1];
        ceil < worm && (worm as i64) < (ceil as i64) + (self.gap as i64)
    }

    /// Moves the game on by one tick: the cave may reverse (narrowing the
    /// gap when it turns against the floor boundary), both wall tracks slide
    /// by one, the far wall grows by one extrapolated height, and the worm's
    /// head moves one row in its direction.
    pub fn advance_one_step(&mut self)
        requires
            old(self)@.wf(),
            old(self)@.head_step_fits(),
        ensures
            final(self)@ == old(self)@.step(),
            final(self)@.wf(),
    {
        let ghost pre = self@;
        let back: i32 = self.cave_ahead_height[self.cave_ahead_height.len() - 1];
        if (back as i64) + (self.gap as i64) >= (self.max_y as i64) {
            self.cave_incr = false;
            if self.gap > 1 {
                self.gap = self.gap - 1;
            }
        } else if back <= 0 {
            self.cave_incr = true;
        }
        proof {
            lemma_ints_drop_first(self.cave_above_height@);
            lemma_ints_drop_first(self.cave_ahead_height@);
            lemma_ints_drop_first(self.worm_height@);
        }
        let _ = self.cave_above_height.pop_front();
        let front: i32 = self.cave_ahead_height.pop_front().unwrap();
        proof {
            lemma_ints_push(self.cave_above_height@, front);
        }
        self.cave_above_height.push_back(front);
        let next_back: i32 = if self.cave_incr {
            back + 1
        } else {
            back - 1
        };
        proof {
            lemma_ints_push(self.cave_ahead_height@, next_back);
        }
        self.cave_ahead_height.push_back(next_back);

        let head: i32 = self.worm_height[self.worm_height.len() - 1];
        let _ = self.worm_height.pop_front();
        let next_head: i32 = if self.worm_decr {
            head - 1
        } else {
            head + 1
        };
        proof {
            lemma_ints_push(self.worm_height@, next_head);
        }
        self.worm_height.push_back(next_head);
        assert(self@.worm =~= pre.step().worm);
        assert(self@.above =~= pre.step().above);
        assert(self@.ahead =~= pre.step().ahead);
    }

    /// Sets the worm's direction from one key press.
    pub fn steer(&mut self, key: char)
        ensures
            final(self)@ == old(self)@.steered(decr_after_key(key)),
    {
        self.worm_decr = key != ' ';
    }

    /// Sets the worm's direction: `true` moves the head to smaller heights.
    pub fn set_worm_decr(&mut self, decr: bool)
        ensures
            final(self)@ == old(self)@.steered(decr),
    {
        self.worm_decr = decr;
    }

    /// Runs one tick of a session on the keys pressed since the last one:
    /// the last key sets the direction, the game advances, and the score
    /// goes up by one if the worm survived. Returns whether it survived.
    pub fn tick(&mut self, keys: &Vec<char>) -> (alive: bool)
        requires
            old(self)@.wf(),
            old(self)@.steered(decr_after_keys(keys@, old(self)@.worm_decr)).head_step_fits(),
            old(self)@.score < i64::MAX,
        ensures
            final(self)@ == old(self)@.tick(keys@),
            alive == old(self)@.steered(decr_after_keys(keys@, old(self)@.worm_decr)).step().alive(),
            final(self)@.wf(),
    {
        let ghost pre = self@;
        let mut i: usize = 0;
        while i < keys.len()
            invariant
                i <= keys.len(),
                self@ == pre.steered(decr_after_keys(keys@.take(i as int), pre.worm_decr)),
            decreases keys.len() - i,
        {
            self.steer(keys[i]);
            i = i + 1;
            assert(keys@.take(i as int).last() == keys@[i - 1]);
        }
        assert(keys@.take(i as int) =~= keys@);
        self.advance_one_step();
        let alive = self.worm_alive();
        if alive {
            self.score = self.score + 1;
        }
        alive
    }

    /// The worm's positions, oldest first; the last is the head.
    pub fn worm_track(&self) -> (r: &VecDeque<i32>)
        ensures
            ints(r@) == self@.worm,
    {
        &self.worm_height
    }

    /// The ceiling heights under the worm's span.
    pub fn near_wall(&self) -> (r: &VecDeque<i32>)
        ensures
            ints(r@) == self@.above,
    {
        &self.cave_above_height
    }

    /// The ceiling heights of the cave ahead of the worm.
    pub fn far_wall(&self) -> (r: &VecDeque<i32>)
        ensures
            ints(r@) == self@.ahead,
    {
        &self.cave_ahead_height
    }

    /// The distance from the ceiling down to the floor.
    pub fn gap(&self) -> (r: i32)
        ensures
            r as int == self@.gap,
    {
        self.gap
    }

    /// Whether the cave ceiling is trending towards larger heights.
    pub fn cave_incr(&self) -> (r: bool)
        ensures
            r == self@.cave_incr,
    {
        self.cave_incr
    }

    /// Whether the worm's head is trending towards smaller heights.
    pub fn worm_decr(&self) -> (r: bool)
        ensures
            r == self@.worm_decr,
    {
        self.worm_decr
    }

    /// The number of columns the worm spans; the far wall starts there.
    pub fn worm_len(&self) -> (r: usize)
        ensures
            r as int == self@.worm_len,
    {
        self.worm_len
    }

    /// The number of ticks survived.
    pub fn score(&self) -> (r: i64)
        ensures
            r as int == self@.score,
    {
        self.score
    }
}

} // verus!
