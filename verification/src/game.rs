//! The game: the grid, the food, the difficulty and the state machine that
//! leads from choosing a difficulty through play to the end of a round and
//! on to the next.

use crate::clock::{exceeds, moving_period, BASE_MOVING_PERIOD, RESTART_TIME};
use crate::direction::Direction;
use crate::keys::{difficulty_for_key, direction_for_key, key_difficulty_is_a_level, Key};
use crate::random::random_coordinate;
use crate::snake::{
    cell_of, distinct_cells_keep_head_clear, move_keeps_cell_free, move_keeps_cells_distinct,
    move_then_restore_grows_by_one, Snake, SnakeView,
};
use vstd::prelude::*;

verus! {

/// The game as a mathematical value.
pub struct GameView {
    /// The snake of the current round.
    pub snake: SnakeView,
    /// The cell of the food, if there is food on the board.
    pub food: Option<(int, int)>,
    /// The number of columns of the grid, walls included.
    pub width: int,
    /// The number of rows of the grid, walls included.
    pub height: int,
    /// Whether the round has ended and the board waits for the next one.
    pub game_over: bool,
    /// Nanoseconds counted since the snake last stepped or the round ended.
    pub waiting_time: nat,
    /// The difficulty level, from 1 to 10.
    pub difficulty: int,
    /// Whether a difficulty has been chosen.
    pub difficulty_selected: bool,
    /// Whether play has begun.
    pub game_started: bool,
    /// The turn commanded since the latest step, if any.
    pub pending: Option<Direction>,
}

impl GameView {
    /// The game as it is made for a grid of `width` by `height` cells.
    pub open spec fn initial(width: int, height: int) -> GameView {
        GameView {
            snake: SnakeView::initial(2, 2),
            food: Some((6, 4)),
            width,
            height,
            game_over: false,
            waiting_time: 0,
            difficulty: 5,
            difficulty_selected: false,
            game_started: false,
            pending: None,
        }
    }

    /// True when `cell` lies inside the wall that rings the grid.
    pub open spec fn interior(self, cell: (int, int)) -> bool {
        &&& 0 < cell.0 < self.width - 1
        &&& 0 < cell.1 < self.height - 1
    }

    /// True once a difficulty is chosen and play has begun: only then does
    /// time count.
    pub open spec fn running(self) -> bool {
        self.difficulty_selected && self.game_started
    }

    /// True when food may be put on `cell`: the cell is inside the wall and
    /// no segment of the snake lies on it.
    pub open spec fn free_for_food(self, cell: (int, int)) -> bool {
        self.interior(cell) && !self.snake.occupies(cell)
    }

    /// True when some cell is free for food.
    pub open spec fn has_free_cell(self) -> bool {
        exists|cell: (int, int)| self.free_for_food(cell)
    }

    /// True when `taken` says which of `cells` food goes on if they are
    /// tried in turn: the index of the first that is free for food, or
    /// nothing where none of them is.
    pub open spec fn takes_first_free(self, cells: Seq<(int, int)>, taken: Option<int>) -> bool {
        match taken {
            Some(i) => {
                &&& 0 <= i < cells.len()
                &&& self.free_for_food(cells[i])
                &&& forall|j: int| 0 <= j < i ==> !self.free_for_food(#[trigger] cells[j])
            },
            None => forall|j: int| 0 <= j < cells.len() ==> !self.free_for_food(#[trigger] cells[j]),
        }
    }

    /// True when a step commanded by `dir` keeps the snake alive: the next
    /// head is inside the wall and not on the body behind the head.
    pub open spec fn survives(self, dir: Option<Direction>) -> bool {
        let next = self.snake.next_head(dir);
        !self.snake.overlaps_tail(next) && self.interior(next)
    }

    /// The game after one step of the simulation commanded by `dir`. A
    /// snake that survives the step advances, and eats and grows if its
    /// head lands on the food; one that does not ends the round. Either
    /// way the count of time starts again and the command is used up.
    pub open spec fn stepped(self, dir: Option<Direction>) -> GameView {
        if self.survives(dir) {
            let moved = self.snake.moved(dir);
            if self.food == Some(moved.head()) {
                GameView {
                    snake: moved.restored(),
                    food: None,
                    waiting_time: 0,
                    pending: None,
                    ..self
                }
            } else {
                GameView { snake: moved, waiting_time: 0, pending: None, ..self }
            }
        } else {
            GameView { game_over: true, waiting_time: 0, pending: None, ..self }
        }
    }

    /// The game at the start of a new round: snake and food back in their
    /// first places, nothing commanded, no time counted. Grid, difficulty
    /// and the two flags of the session stay.
    pub open spec fn restarted(self) -> GameView {
        GameView {
            snake: SnakeView::initial(2, 2),
            food: Some((6, 4)),
            game_over: false,
            waiting_time: 0,
            pending: None,
            ..self
        }
    }

    /// The game after `key` is pressed.
    ///
    /// Before a difficulty is chosen a digit key chooses it and starts
    /// play; other keys do nothing. After the end of a round no key does
    /// anything. In play an arrow key commands its direction and any other
    /// key the current one; a command to turn straight back is dropped.
    pub open spec fn on_key(self, key: Key) -> GameView {
        if !self.difficulty_selected {
            match key.difficulty() {
                Some(d) => GameView {
                    difficulty: d,
                    difficulty_selected: true,
                    game_started: true,
                    ..self
                },
                None => self,
            }
        } else if self.game_over {
            self
        } else {
            let intended = match key.direction() {
                Some(d) => d,
                None => self.snake.direction,
            };
            if intended == self.snake.direction.opposite() {
                self
            } else {
                GameView { pending: Some(intended), ..self }
            }
        }
    }

    /// True when `spawn` is a possible outcome of looking for a cell for
    /// new food: a cell that is free for food, or nothing where no cell is
    /// free.
    pub open spec fn may_spawn(self, spawn: Option<(int, int)>) -> bool {
        match spawn {
            Some(c) => self.free_for_food(c),
            None => !self.has_free_cell(),
        }
    }

    /// Some possible outcome of looking for a cell for new food.
    pub open spec fn some_spawn(self) -> Option<(int, int)> {
        if self.has_free_cell() {
            Some(choose|cell: (int, int)| self.free_for_food(cell))
        } else {
            None
        }
    }

    /// The game after `delta` nanoseconds have passed, where `spawn` is the
    /// outcome of looking for a cell for new food.
    ///
    /// Nothing happens before play has begun. After the end of a round the
    /// time is counted, and a new round starts once more than the restart
    /// time has passed. In play, missing food is put on the cell found, the
    /// time is counted, and the snake steps once more than the moving
    /// period has passed.
    pub open spec fn tick(self, delta: nat, spawn: Option<(int, int)>) -> GameView {
        if !self.running() {
            self
        } else if self.game_over {
            if self.waiting_time + delta > RESTART_TIME {
                self.restarted()
            } else {
                GameView { waiting_time: self.waiting_time + delta, ..self }
            }
        } else {
            let fed = GameView {
                food: if self.food is None { spawn } else { self.food },
                ..self
            };
            if self.waiting_time + delta > moving_period(self.difficulty) {
                fed.stepped(self.pending)
            } else {
                GameView { waiting_time: self.waiting_time + delta, ..fed }
            }
        }
    }

    /// What holds of the game in every state it can reach.
    pub open spec fn wf(self) -> bool {
        &&& self.snake.body.len() > 0
        &&& self.snake.has_distinct_cells()
        &&& i32::MIN < self.snake.head().0 < i32::MAX
        &&& i32::MIN < self.snake.head().1 < i32::MAX
        &&& self.width <= i32::MAX
        &&& self.height <= i32::MAX
        &&& 1 <= self.difficulty <= 10
        &&& self.pending matches Some(d) ==> d != self.snake.direction.opposite()
        &&& self.food matches Some(c) ==> !self.snake.occupies(c)
    }
}

/// True when cell `a` comes before cell `b` as one reads the grid: row by
/// row from the top, each row from the left.
pub open spec fn reads_before(a: (int, int), b: (int, int)) -> bool {
    a.1 < b.1 || (a.1 == b.1 && a.0 < b.0)
}

/// How many cells `add_food` draws at random before it searches the grid
/// cell by cell.
pub const SPAWN_TRIES: usize = 64;

/// The game. A driver makes one for a grid, feeds it key presses and the
/// time that passes, and draws what it reports.
pub struct Game {
    snake: Snake,
    food_exists: bool,
    food_x: i32,
    food_y: i32,
    width: i32,
    height: i32,
    game_over: bool,
    waiting_time: u64,
    difficulty: i32,
    difficulty_selected: bool,
    game_started: bool,
    next_direction: Option<Direction>,
}

impl View for Game {
    type V = GameView;

    closed spec fn view(&self) -> GameView {
        GameView {
            snake: self.snake@,
            food: if self.food_exists {
                Some((self.food_x as int, self.food_y as int))
            } else {
                None
            },
            width: self.width as int,
            height: self.height as int,
            game_over: self.game_over,
            waiting_time: self.waiting_time as nat,
            difficulty: self.difficulty as int,
            difficulty_selected: self.difficulty_selected,
            game_started: self.game_started,
            pending: self.next_direction,
        }
    }
}

impl Game {
    /// A game is well formed when its value is. `new` makes such a game and
    /// every method keeps it so.
    pub open spec fn wf(&self) -> bool {
        self@.wf()
    }

    /// Makes a game on a grid of `width` by `height` cells. It waits for a
    /// difficulty to be chosen.
    pub fn new(width: i32, height: i32) -> (g: Game)
        ensures
            g.wf(),
            g@ == GameView::initial(width as int, height as int),
    {
        Game {
            snake: Snake::new(2, 2),
            waiting_time: 0,
            food_exists: true,
            food_x: 6,
            food_y: 4,
            width,
            height,
            game_over: false,
            difficulty: 5,
            difficulty_selected: false,
            game_started: false,
            next_direction: None,
        }
    }

    /// Takes a key press: a digit chooses the difficulty while none is
    /// chosen, an arrow commands a turn for the next step while a round is
    /// played. No key moves the snake by itself.
    pub fn key_pressed(&mut self, key: Key)
        requires
            old(self).wf(),
        ensures
            final(self).wf(),
            final(self)@ == old(self)@.on_key(key),
    {
        if !self.difficulty_selected {
            match difficulty_for_key(key) {
                Some(level) => {
                    self.difficulty = level;
                    self.difficulty_selected = true;
                    self.game_started = true;
                    return ;
                },
                None => {
                    return ;
                },
            }
        }
        if self.game_over {
            return ;
        }
        let dir = match direction_for_key(key) {
            Some(d) => d,
            None => self.snake.head_direction(),
        };
        if dir == self.snake.head_direction().opposite() {
            return ;
        }
        self.next_direction = Some(dir);
    }

    /// Lets `delta_time` nanoseconds pass.
    ///
    /// What follows is fixed by the game and the time but for one thing,
    /// the cell on which missing food appears: that is drawn at random
    /// among the cells free for food. In play the food comes back at once
    /// wherever a cell is free for it.
    pub fn update(&mut self, delta_time: u64)
        requires
            old(self).wf(),
        ensures
            final(self).wf(),
            exists|spawn: Option<(int, int)>|
                old(self)@.may_spawn(spawn) && final(self)@ == #[trigger] old(self)@.tick(
                    delta_time as nat,
                    spawn,
                ),
            old(self)@.food is Some || old(self)@.game_over || !old(self)@.running()
                ==> final(self)@ == old(self)@.tick(delta_time as nat, None),
    {
        let ghost any = old(self)@.some_spawn();
        if !self.difficulty_selected || !self.game_started {
            assert(old(self)@.may_spawn(any) && self@ == old(self)@.tick(delta_time as nat, any));
            return ;
        }
        if self.game_over {
            if exceeds(self.waiting_time, delta_time, RESTART_TIME) {
                self.restart();
            } else {
                self.waiting_time = self.waiting_time + delta_time;
            }
            assert(old(self)@.may_spawn(any) && self@ == old(self)@.tick(delta_time as nat, any));
            return ;
        }
        if !self.food_exists {
            self.add_food();
        }
        let ghost spawn = if old(self)@.food is None {
            self@.food
        } else {
            any
        };
        if exceeds(self.waiting_time, delta_time, self.get_moving_period()) {
            let dir = self.next_direction;
            self.update_snake(dir);
        } else {
            self.waiting_time = self.waiting_time + delta_time;
        }
        assert(old(self)@.may_spawn(spawn) && self@ == old(self)@.tick(delta_time as nat, spawn));
    }

    /// The time between two steps of the snake at the current difficulty,
    /// in nanoseconds.
    pub fn get_moving_period(&self) -> (r: u64)
        requires
            self.wf(),
        ensures
            r == moving_period(self@.difficulty),
    {
        BASE_MOVING_PERIOD * ((11 - self.difficulty) as u64) / 10
    }

    /// Whether food may be put on `(x, y)`: the cell is inside the wall and
    /// the snake does not lie on it.
    pub fn free_for_food(&self, x: i32, y: i32) -> (r: bool)
        requires
            self.wf(),
        ensures
            r == self@.free_for_food((x as int, y as int)),
    {
        let inside = x > 0 && y > 0 && self.width > 1 && x < self.width - 1 && self.height > 1
            && y < self.height - 1;
        inside && !self.snake.occupies(x, y)
    }

    /// Puts food on `(x, y)` if the board has none and the cell is free for
    /// it, and says whether it did. Otherwise the game stays as it is.
    pub fn place_food(&mut self, x: i32, y: i32) -> (placed: bool)
        requires
            old(self).wf(),
        ensures
            final(self).wf(),
            placed == (old(self)@.food is None && old(self)@.free_for_food((x as int, y as int))),
            placed ==> final(self)@ == (GameView {
                food: Some((x as int, y as int)),
                ..old(self)@
            }),
            !placed ==> final(self)@ == old(self)@,
    {
        if self.food_exists || !self.free_for_food(x, y) {
            return false;
        }
        self.food_x = x;
        self.food_y = y;
        self.food_exists = true;
        true
    }

    /// Tries `cells` in turn and puts food on the first that is free for
    /// it. Says which one that was by its index, or nothing where none of
    /// them is free. A board that has food already takes none.
    pub fn place_first_free(&mut self, cells: &Vec<(i32, i32)>) -> (taken: Option<usize>)
        requires
            old(self).wf(),
        ensures
            final(self).wf(),
            old(self)@.food is Some ==> taken is None,
            old(self)@.food is None ==> old(self)@.takes_first_free(
                cells@.map_values(|c: (i32, i32)| cell_of(c)),
                match taken {
                    Some(i) => Some(i as int),
                    None => None,
                },
            ),
            match taken {
                Some(i) => i < cells@.len() && final(self)@ == (GameView {
                    food: Some(cell_of(cells@[i as int])),
                    ..old(self)@
                }),
                None => final(self)@ == old(self)@,
            },
    {
        if self.food_exists {
            return None;
        }
        let ghost tried = cells@.map_values(|c: (i32, i32)| cell_of(c));
        let mut i: usize = 0;
        while i < cells.len()
            invariant
                i <= cells@.len(),
                self.wf(),
                self@ == old(self)@,
                self@.food is None,
                tried == cells@.map_values(|c: (i32, i32)| cell_of(c)),
                forall|j: int| 0 <= j < i ==> !self@.free_for_food(#[trigger] tried[j]),
            decreases cells@.len() - i,
        {
            let (x, y) = cells[i];
            assert(tried[i as int] == (x as int, y as int));
            if self.place_food(x, y) {
                return Some(i);
            }
            i += 1;
        }
        None
    }

    /// The first cell that is free for food as one reads the grid row by
    /// row, or nothing where no cell is free.
    pub fn first_free_cell(&self) -> (r: Option<(i32, i32)>)
        requires
            self.wf(),
        ensures
            r is Some == self@.has_free_cell(),
            r matches Some(c) ==> {
                &&& self@.free_for_food(cell_of(c))
                &&& forall|x: int, y: int|
                    reads_before((x, y), cell_of(c)) ==> !#[trigger] self@.free_for_food((x, y))
            },
    {
        if self.width < 3 || self.height < 3 {
            return None;
        }
        let mut y: i32 = 1;
        while y < self.height - 1
            invariant
                self.wf(),
                self.width >= 3,
                1 <= y <= self.height - 1,
                forall|cx: int, cy: int| cy < y ==> !#[trigger] self@.free_for_food((cx, cy)),
            decreases self.height - 1 - y,
        {
            let mut x: i32 = 1;
            while x < self.width - 1
                invariant
                    self.wf(),
                    1 <= x <= self.width - 1,
                    1 <= y < self.height - 1,
                    forall|cx: int, cy: int| cy < y ==> !#[trigger] self@.free_for_food((cx, cy)),
                    forall|cx: int| cx < x ==> !#[trigger] self@.free_for_food((cx, y as int)),
                decreases self.width - 1 - x,
            {
                if self.free_for_food(x, y) {
                    assert(self@.free_for_food((x as int, y as int)));
                    return Some((x, y));
                }
                x += 1;
            }
            y += 1;
        }
        assert forall|cell: (int, int)| !self@.free_for_food(cell) by {
            assert(cell == (cell.0, cell.1));
        }
        None
    }

    /// Draws `SPAWN_TRIES` cells inside the wall at random, each cell as
    /// likely as any other. Where the wall leaves no cell inside it, none
    /// is drawn.
    fn draw_cells(&self) -> (cells: Vec<(i32, i32)>)
        ensures
            cells@.len() == (if self@.width >= 3 && self@.height >= 3 {
                SPAWN_TRIES as int
            } else {
                0
            }),
            forall|i: int| 0 <= i < cells@.len() ==> self@.interior(cell_of(#[trigger] cells@[i])),
    {
        let mut cells: Vec<(i32, i32)> = Vec::new();
        if self.width < 3 || self.height < 3 {
            return cells;
        }
        while cells.len() < SPAWN_TRIES
            invariant
                self.width >= 3,
                self.height >= 3,
                cells@.len() <= SPAWN_TRIES,
                forall|i: int|
                    0 <= i < cells@.len() ==> self@.interior(cell_of(#[trigger] cells@[i])),
            decreases SPAWN_TRIES - cells@.len(),
        {
            let new_x = random_coordinate(1, self.width - 1);
            let new_y = random_coordinate(1, self.height - 1);
            cells.push((new_x, new_y));
        }
        cells
    }

    /// Brings food back to a board without food, wherever a cell is free
    /// for it. It draws `SPAWN_TRIES` cells at random and takes the first
    /// that is free; should every one of them lie on the snake, it takes
    /// the first free cell of the grid in reading order.
    fn add_food(&mut self)
        requires
            old(self).wf(),
        ensures
            final(self).wf(),
            final(self)@ == (GameView { food: final(self)@.food, ..old(self)@ }),
            old(self)@.food is Some ==> final(self)@.food == old(self)@.food,
            old(self)@.food is None ==> old(self)@.may_spawn(final(self)@.food),
            old(self)@.food is None && old(self)@.has_free_cell() ==> final(self)@.food is Some,
    {
        if self.food_exists {
            return ;
        }
        let cells = self.draw_cells();
        if self.place_first_free(&cells).is_none() {
            match self.first_free_cell() {
                Some((x, y)) => {
                    self.place_food(x, y);
                },
                None => {},
            }
        }
    }

    /// Whether a step commanded by `dir` keeps the snake alive.
    fn check_if_snake_alive(&self, dir: Option<Direction>) -> (r: bool)
        requires
            self.wf(),
        ensures
            r == self@.survives(dir),
    {
        let (next_x, next_y) = self.snake.next_head(dir);
        if self.snake.overlap_tail(next_x, next_y) {
            return false;
        }
        next_x > 0 && next_y > 0 && self.width > 1 && next_x < self.width - 1 && self.height > 1
            && next_y < self.height - 1
    }

    /// Lets the snake eat the food if its head is on it: the food goes and
    /// the snake grows back the cell it last left.
    fn check_eating(&mut self)
        requires
            old(self).snake.wf(),
            old(self)@.snake.dropped is Some,
        ensures
            old(self)@.food == Some(old(self)@.snake.head()) ==> final(self)@ == (GameView {
                food: None,
                snake: old(self)@.snake.restored(),
                ..old(self)@
            }),
            old(self)@.food != Some(old(self)@.snake.head()) ==> final(self)@ == old(self)@,
    {
        let (head_x, head_y): (i32, i32) = self.snake.head_position();
        if self.food_exists && self.food_x == head_x && self.food_y == head_y {
            self.food_exists = false;
            self.snake.restore_tail();
        }
    }

    /// Makes one step of the simulation, commanded by `dir`.
    fn update_snake(&mut self, dir: Option<Direction>)
        requires
            old(self).wf(),
        ensures
            final(self).wf(),
            final(self)@ == old(self)@.stepped(dir),
    {
        proof {
            step_keeps_well_formed(old(self)@, dir);
        }
        if self.check_if_snake_alive(dir) {
            self.snake.move_forward(dir);
            self.check_eating();
        } else {
            self.game_over = true;
        }
        self.waiting_time = 0;
        self.next_direction = None;
    }

    /// Starts a new round.
    fn restart(&mut self)
        requires
            old(self).wf(),
        ensures
            final(self).wf(),
            final(self)@ == old(self)@.restarted(),
    {
        self.snake = Snake::new(2, 2);
        self.waiting_time = 0;
        self.food_exists = true;
        self.food_x = 6;
        self.food_y = 4;
        self.game_over = false;
        self.next_direction = None;
    }

    /// The snake of the current round.
    pub fn snake(&self) -> (r: &Snake)
        requires
            self.wf(),
        ensures
            r.wf(),
            r@ == self@.snake,
    {
        &self.snake
    }

    /// The cell of the food, if there is food on the board.
    pub fn food(&self) -> (r: Option<(i32, i32)>)
        ensures
            r is Some == self@.food is Some,
            r matches Some(c) ==> self@.food == Some(cell_of(c)),
    {
        if self.food_exists {
            Some((self.food_x, self.food_y))
        } else {
            None
        }
    }

    /// The number of columns of the grid, walls included.
    pub fn width(&self) -> (r: i32)
        ensures
            r == self@.width,
    {
        self.width
    }

    /// The number of rows of the grid, walls included.
    pub fn height(&self) -> (r: i32)
        ensures
            r == self@.height,
    {
        self.height
    }

    /// The difficulty level.
    pub fn difficulty(&self) -> (r: i32)
        ensures
            r == self@.difficulty,
    {
        self.difficulty
    }

    /// Whether a difficulty has been chosen.
    pub fn difficulty_selected(&self) -> (r: bool)
        ensures
            r == self@.difficulty_selected,
    {
        self.difficulty_selected
    }

    /// Whether play has begun.
    pub fn game_started(&self) -> (r: bool)
        ensures
            r == self@.game_started,
    {
        self.game_started
    }

    /// Whether the round has ended and the board waits for the next one.
    pub fn game_over(&self) -> (r: bool)
        ensures
            r == self@.game_over,
    {
        self.game_over
    }

    /// Nanoseconds counted since the snake last stepped or the round ended.
    pub fn waiting_time(&self) -> (r: u64)
        ensures
            r == self@.waiting_time,
    {
        self.waiting_time
    }
}

/// A digit key of the number row and the key with the same digit on the
/// number pad have the same effect in every state. Before a difficulty is
/// chosen, either of them chooses the level of its digit and starts play.
pub proof fn digit_families_select_alike(g: GameView, a: Key, b: Key)
    requires
        a.digit() is Some,
        a.digit() == b.digit(),
    ensures
        g.on_key(a) == g.on_key(b),
        !g.difficulty_selected ==> g.on_key(a) == (GameView {
            difficulty: a.difficulty().unwrap(),
            difficulty_selected: true,
            game_started: true,
            ..g
        }),
{
}

/// A key press keeps the game well formed.
pub proof fn key_keeps_well_formed(g: GameView, key: Key)
    requires
        g.wf(),
    ensures
        g.on_key(key).wf(),
{
    key_difficulty_is_a_level(key, key);
}

/// A step of the simulation keeps the game well formed. It leaves the
/// length of the snake as it was or makes it one longer, and after it the
/// head is not on the body behind it.
pub proof fn step_keeps_well_formed(g: GameView, dir: Option<Direction>)
    requires
        g.wf(),
    ensures
        g.stepped(dir).wf(),
        g.stepped(dir).snake.body.len() == g.snake.body.len() || g.stepped(dir).snake.body.len()
            == g.snake.body.len() + 1,
        !g.stepped(dir).snake.overlaps_tail(g.stepped(dir).snake.head()),
{
    let v = g.snake;
    if g.survives(dir) {
        move_then_restore_grows_by_one(v, dir);
        move_keeps_cells_distinct(v, dir);
        if g.food is Some {
            let c = g.food.unwrap();
            if c != v.next_head(dir) {
                move_keeps_cell_free(v, dir, c);
            }
        }
    }
    distinct_cells_keep_head_clear(g.stepped(dir).snake);
}

/// The passing of time keeps the game well formed, whatever cell free for
/// food was found. So in every state the game reaches, the food is on no
/// segment of the snake and the head is not on the body behind it.
pub proof fn tick_keeps_well_formed(g: GameView, delta: nat, spawn: Option<(int, int)>)
    requires
        g.wf(),
        g.may_spawn(spawn),
    ensures
        g.tick(delta, spawn).wf(),
        g.tick(delta, spawn).food matches Some(c) ==> !g.tick(delta, spawn).snake.occupies(c),
        !g.tick(delta, spawn).snake.overlaps_tail(g.tick(delta, spawn).snake.head()),
{
    if g.running() && !g.game_over {
        let fed = GameView { food: if g.food is None { spawn } else { g.food }, ..g };
        assert(fed.wf());
        step_keeps_well_formed(fed, g.pending);
    }
    distinct_cells_keep_head_clear(g.tick(delta, spawn).snake);
}

/// In play, missing food comes back as soon as time passes, wherever a cell
/// is free for it: it is on the board afterwards unless the snake stepped
/// and ate it in the same moment.
pub proof fn food_comes_back_where_there_is_room(
    g: GameView,
    delta: nat,
    spawn: Option<(int, int)>,
)
    requires
        g.wf(),
        g.may_spawn(spawn),
        g.running(),
        !g.game_over,
        g.food is None,
        g.has_free_cell(),
    ensures
        spawn is Some,
        g.waiting_time + delta <= moving_period(g.difficulty) ==> g.tick(delta, spawn).food
            == spawn,
        g.tick(delta, spawn).food is None ==> g.tick(delta, spawn).snake.head() == spawn.unwrap(),
{
}

/// In play, food appears only where nothing is: when the board had no food
/// and has some after time has passed, that food lies inside the wall and
/// on no segment of the snake as it was.
pub proof fn food_appears_on_a_free_cell(g: GameView, delta: nat, spawn: Option<(int, int)>)
    requires
        g.wf(),
        g.may_spawn(spawn),
        !g.game_over,
        g.food is None,
        g.tick(delta, spawn).food is Some,
    ensures
        g.free_for_food(g.tick(delta, spawn).food.unwrap()),
{
}

/// A command to turn straight back is dropped: the key changes nothing,
/// and no step taken in play turns the snake round. With nothing else
/// commanded the snake keeps its direction through the next step.
pub proof fn reversal_is_discarded(g: GameView, key: Key, delta: nat, spawn: Option<(int, int)>)
    requires
        g.wf(),
        g.difficulty_selected,
        !g.game_over,
        key.direction() == Some(g.snake.direction.opposite()),
    ensures
        g.on_key(key) == g,
        g.on_key(key).tick(delta, spawn).snake.direction != g.snake.direction.opposite(),
        g.pending is None ==> g.on_key(key).tick(delta, spawn).snake.direction
            == g.snake.direction,
{
}

} // verus!
