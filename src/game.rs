//! The game state store: entity collections and the last valid terminal size.

use vstd::prelude::*;
use crate::entities::{Alien, FallingStar, Player, Projectile};
use vstd::set_lib::{lemma_int_range, lemma_len_subset, set_int_range};

verus! {

/// The smallest number of rows and of columns a frame can be drawn on.
pub const MIN_TERMINAL_SIDE: u16 = 8;

/// Terminal dimensions in character cells.
#[derive(Debug, Clone, Copy, PartialEq, Eq, Structural)]
pub struct TermSize {
    pub rows: u16,
    pub cols: u16,
}

/// What can stop a tick.
#[derive(Debug, Clone, Copy, PartialEq, Eq, Structural)]
pub enum GameError {
    /// The terminal size could not be read.
    TerminalQueryFailed,
    /// The terminal has fewer than eight rows or columns.
    TerminalTooSmall,
    /// Clearing the screen failed.
    ScreenClearFailed,
}

/// The configuration the game is started with.
#[derive(Debug, Clone, Copy, PartialEq, Eq, Structural)]
pub struct Arguments {
    /// Target ticks per second; `None` or zero means uncapped.
    pub frame_rate: Option<u8>,
    pub bullet_time: u8,
    pub enemy_time: u8,
    /// Whether a tick error ends the game.
    pub panic_on_errors: bool,
}

/// The abstract content of a game state.
pub struct GameStateView {
    pub size: TermSize,
    pub enemies: Seq<Alien>,
    pub projectiles: Seq<Projectile>,
    pub falling_stars: Seq<FallingStar>,
    pub player: Player,
}

/// All entities of a running game and the terminal size they live in.
#[derive(Debug)]
pub struct GameState {
    size: TermSize,
    enemies: Vec<Alien>,
    projectiles: Vec<Projectile>,
    falling_stars: Vec<FallingStar>,
    player: Player,
}

impl View for GameState {
    type V = GameStateView;

    closed spec fn view(&self) -> GameStateView {
        GameStateView {
            size: self.size,
            enemies: self.enemies@,
            projectiles: self.projectiles@,
            falling_stars: self.falling_stars@,
            player: self.player,
        }
    }
}

/// The glyph of a newly spawned falling star.
pub const STAR_GLYPH: char = '*';

/// Whether some star stands in column `c`.
pub open spec fn column_taken(stars: Seq<FallingStar>, c: int) -> bool {
    exists|j: int| 0 <= j < stars.len() && stars[j].col == c
}

/// Whether no two stars share a column.
pub open spec fn columns_distinct(stars: Seq<FallingStar>) -> bool {
    forall|i: int, j: int| 0 <= i < j < stars.len() ==> stars[i].col != stars[j].col
}

/// Relies on `rand::thread_rng` and `Rng::gen_range`: a value drawn from
/// `0..high`, which must not be empty (`gen_range` panics on an empty range).
#[verifier::external_body]
fn random_below(high: usize) -> (r: usize)
    requires
        0 < high,
    ensures
        r < high,
{
    rand::Rng::gen_range(&mut rand::thread_rng(), 0..high)
}

/// Whether some star stands in column `c`.
fn has_column(stars: &Vec<FallingStar>, c: u16) -> (r: bool)
    ensures
        r == column_taken(stars@, c as int),
{
    let mut i: usize = 0;
    while i < stars.len()
        invariant
            i <= stars@.len(),
            forall|j: int| 0 <= j < i ==> stars@[j].col != c,
        decreases stars.len() - i,
    {
        if stars[i].col == c {
            return true;
        }
        i = i + 1;
    }
    false
}

/// The columns in `1..cols` that no star stands in, in increasing order.
fn free_columns(stars: &Vec<FallingStar>, cols: u16) -> (r: Vec<u16>)
    ensures
        forall|i: int|
            0 <= i < r@.len() ==> 1 <= r@[i] < cols && !column_taken(stars@, r@[i] as int),
        forall|c: int|
            1 <= c < cols && !column_taken(stars@, c) ==> r@.contains(c as u16),
{
    let mut r: Vec<u16> = Vec::new();
    let mut c: u16 = 1;
    while c < cols
        invariant
            1 <= c,
            c <= cols || cols == 0,
            forall|i: int|
                0 <= i < r@.len() ==> 1 <= r@[i] < cols && !column_taken(stars@, r@[i] as int),
            forall|d: int| 1 <= d < c && !column_taken(stars@, d) ==> r@.contains(d as u16),
        decreases cols - c,
    {
        let ghost prev = r@;
        if !has_column(stars, c) {
            r.push(c);
            assert(r@[r@.len() - 1] == c);
            assert forall|x: u16| prev.contains(x) implies r@.contains(x) by {
                let k = choose|k: int| 0 <= k < prev.len() && prev[k] == x;
                assert(r@[k] == x);
            }
        }
        c = c + 1;
    }
    r
}

/// When every column in `1..cols` is taken, there are at least `cols - 1`
/// stars.
proof fn lemma_full_columns_need_stars(stars: Seq<FallingStar>, cols: int)
    requires
        1 <= cols,
        forall|c: int| 1 <= c < cols ==> column_taken(stars, c),
    ensures
        stars.len() >= cols - 1,
{
    let m = stars.map_values(|s: FallingStar| s.col as int);
    assert forall|c: int| set_int_range(1, cols).contains(c) implies m.to_set().contains(c) by {
        assert(column_taken(stars, c));
        let j = choose|j: int| 0 <= j < stars.len() && stars[j].col == c;
        assert(m[j] == c);
        assert(m.contains(c));
    }
    lemma_int_range(1, cols);
    m.lemma_cardinality_of_set();
    lemma_len_subset(set_int_range(1, cols), m.to_set());
}

/// Whether a terminal of this size can hold a frame.
pub open spec fn size_is_playable(size: TermSize) -> bool {
    size.rows >= MIN_TERMINAL_SIDE && size.cols >= MIN_TERMINAL_SIDE
}

impl GameState {
    /// A state with a zero terminal size, no entities and the player at 0.
    pub fn new() -> (r: GameState)
        ensures
            r@.size == (TermSize { rows: 0, cols: 0 }),
            r@.enemies.len() == 0,
            r@.projectiles.len() == 0,
            r@.falling_stars.len() == 0,
            r@.player == (Player { pos: 0 }),
    {
        GameState {
            size: TermSize { rows: 0, cols: 0 },
            enemies: Vec::new(),
            projectiles: Vec::new(),
            falling_stars: Vec::new(),
            player: Player { pos: 0 },
        }
    }

    /// Validates the freshly queried terminal size (`None` when the query
    /// failed) and stores it when it is playable. On an error the state is
    /// left as it was.
    pub fn evaluate_state(&mut self, queried: Option<TermSize>) -> (r: Result<(), GameError>)
        ensures
            queried is None ==> r == Err::<(), GameError>(GameError::TerminalQueryFailed),
            queried matches Some(s) && !size_is_playable(s) ==> r == Err::<(), GameError>(
                GameError::TerminalTooSmall,
            ),
            queried matches Some(s) && size_is_playable(s) ==> r is Ok,
            r is Ok ==> final(self)@.size == queried->Some_0,
            r is Err ==> final(self)@.size == old(self)@.size,
            final(self)@.enemies == old(self)@.enemies,
            final(self)@.projectiles == old(self)@.projectiles,
            final(self)@.falling_stars == old(self)@.falling_stars,
            final(self)@.player == old(self)@.player,
    {
        match queried {
            None => Err(GameError::TerminalQueryFailed),
            Some(size) => {
                if size.rows < MIN_TERMINAL_SIDE || size.cols < MIN_TERMINAL_SIDE {
                    Err(GameError::TerminalTooSmall)
                } else {
                    self.size = size;
                    Ok(())
                }
            },
        }
    }

    /// The last playable terminal size.
    pub fn size(&self) -> (r: TermSize)
        ensures
            r == self@.size,
    {
        self.size
    }

    /// The falling stars, in the order they were added.
    pub fn falling_stars(&self) -> (r: &Vec<FallingStar>)
        ensures
            r@ == self@.falling_stars,
    {
        &self.falling_stars
    }

    /// Adds a falling star after the existing ones.
    pub fn add_falling_star(&mut self, star: FallingStar)
        ensures
            final(self)@.falling_stars == old(self)@.falling_stars.push(star),
            final(self)@.size == old(self)@.size,
            final(self)@.enemies == old(self)@.enemies,
            final(self)@.projectiles == old(self)@.projectiles,
            final(self)@.player == old(self)@.player,
    {
        self.falling_stars.push(star);
    }

    /// Spawns up to `count` falling stars at row 0, each in a column of
    /// `1..cols` that no star takes yet, drawn at random among the free ones.
    /// Fewer are spawned only when every such column is taken.
    pub fn spawn_falling_stars(&mut self, count: usize)
        ensures
            ({
                let before = old(self)@.falling_stars;
                let after = final(self)@.falling_stars;
                &&& before.len() <= after.len() <= before.len() + count
                &&& after.subrange(0, before.len() as int) == before
                &&& forall|i: int|
                    before.len() <= i < after.len() ==> after[i].pos == 0 && after[i].entity
                        == STAR_GLYPH && 1 <= after[i].col < old(self)@.size.cols
                        && !column_taken(after.subrange(0, i), after[i].col as int)
                &&& after.len() == before.len() + count || forall|c: int|
                    1 <= c < old(self)@.size.cols ==> column_taken(after, c)
                &&& before.len() + count < old(self)@.size.cols ==> after.len() == before.len()
                    + count
                &&& columns_distinct(before) ==> columns_distinct(after)
            }),
            final(self)@.size == old(self)@.size,
            final(self)@.enemies == old(self)@.enemies,
            final(self)@.projectiles == old(self)@.projectiles,
            final(self)@.player == old(self)@.player,
    {
        let ghost before = self.falling_stars@;
        let cols = self.size.cols;
        let mut spawned: usize = 0;
        while spawned < count
            invariant_except_break
                spawned <= count,
            invariant
                cols == self.size.cols,
                self.size == old(self)@.size,
                self.enemies@ == old(self)@.enemies,
                self.projectiles@ == old(self)@.projectiles,
                self.player == old(self)@.player,
                before == old(self)@.falling_stars,
                self.falling_stars@.len() == before.len() + spawned,
                self.falling_stars@.subrange(0, before.len() as int) == before,
                forall|i: int|
                    before.len() <= i < self.falling_stars@.len() ==> self.falling_stars@[i].pos
                        == 0 && self.falling_stars@[i].entity == STAR_GLYPH && 1
                        <= self.falling_stars@[i].col < cols && !column_taken(
                        self.falling_stars@.subrange(0, i),
                        self.falling_stars@[i].col as int,
                    ),
            ensures
                spawned <= count,
                spawned == count || forall|c: int|
                    1 <= c < cols ==> column_taken(self.falling_stars@, c),
            decreases count - spawned,
        {
            let free = free_columns(&self.falling_stars, cols);
            if free.len() == 0 {
                assert forall|c: int| 1 <= c < cols implies column_taken(
                    self.falling_stars@,
                    c,
                ) by {
                    if !column_taken(self.falling_stars@, c) {
                        assert(free@.contains(c as u16));
                    }
                }
                break;
            }
            let col = free[random_below(free.len())];
            let ghost prev = self.falling_stars@;
            self.falling_stars.push(FallingStar { pos: 0, col, entity: STAR_GLYPH });
            assert(self.falling_stars@.subrange(0, prev.len() as int) =~= prev);
            assert(self.falling_stars@.subrange(0, before.len() as int) =~= before) by {
                assert(prev.subrange(0, before.len() as int) == before);
            }
            assert forall|i: int|
                before.len() <= i < self.falling_stars@.len() implies !column_taken(
                self.falling_stars@.subrange(0, i),
                self.falling_stars@[i].col as int,
            ) by {
                if i < prev.len() {
                    assert(self.falling_stars@.subrange(0, i) =~= prev.subrange(0, i));
                }
            }
            spawned = spawned + 1;
        }
        let ghost after = self.falling_stars@;
        proof {
            if spawned < count && 1 <= cols {
                lemma_full_columns_need_stars(after, cols as int);
            }
            if columns_distinct(before) {
                assert forall|i: int, j: int| 0 <= i < j < after.len() implies after[i].col
                    != after[j].col by {
                    if j >= before.len() {
                        assert(after.subrange(0, j)[i] == after[i]);
                    } else {
                        assert(before[i] == after[i] && before[j] == after[j]);
                    }
                }
            }
        }
    }

    /// Puts the player in the middle row of the terminal.
    pub fn center_player(&mut self)
        ensures
            final(self)@.player == (Player { pos: (old(self)@.size.rows / 2) as u16 }),
            final(self)@.size == old(self)@.size,
            final(self)@.enemies == old(self)@.enemies,
            final(self)@.projectiles == old(self)@.projectiles,
            final(self)@.falling_stars == old(self)@.falling_stars,
    {
        self.player = Player { pos: self.size.rows / 2 };
    }

    /// Takes the state apart and returns its enemies.
    pub fn enemies(self) -> (r: Vec<Alien>)
        ensures
            r@ == self@.enemies,
    {
        self.enemies
    }

    /// Takes the state apart and returns its projectiles.
    pub fn projectiles(self) -> (r: Vec<Projectile>)
        ensures
            r@ == self@.projectiles,
    {
        self.projectiles
    }

    /// Takes the state apart and returns its player.
    pub fn player(self) -> (r: Player)
        ensures
            r == self@.player,
    {
        self.player
    }
}

} // verus!
