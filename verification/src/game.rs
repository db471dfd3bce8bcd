//! The game state and the rules that advance it once per tick.

use vstd::prelude::*;
use crate::constants::{
    FLASH_INTERVAL, MARKER_INTERVAL, MAX_SNAKE_FLASH_COUNT, MOVE_INTERVAL, SPECIAL_DENOMINATOR,
    SPECIAL_NUMERATOR, START_EGGS, START_VIRUSES,
};
use crate::geometry::{Direction, Point};
use crate::objs::{Collectible, CollectibleType, SnakeCell};
use crate::snake::{advanced, bubbled, grown, marked, refuses, starting_cells, steered, Snake};
use crate::timer::{Timer, TimerView};
use crate::utils::{random_position_on_screen, random_ratio};

verus! {

/// A decoded input event.
#[derive(Clone, Copy, PartialEq, Eq, Structural, Debug)]
pub enum Command {
    Quit,
    Direction(Direction),
}

/// What the host should do after a step.
#[derive(Clone, Copy, PartialEq, Eq, Structural, Debug)]
pub enum StepOutcome {
    Continue,
    Quit,
}

/// The game state as mathematical values.
pub struct GameView {
    pub snake: Seq<SnakeCell>,
    pub collectibles: Seq<Collectible>,
    pub score: nat,
    pub flash_count: nat,
    pub move_timer: TimerView,
    pub marker_timer: TimerView,
    pub flash_timer: TimerView,
}

/// The position of the first `Quit` among `commands`, or their number where
/// there is none.
pub open spec fn first_quit(commands: Seq<Command>) -> int
    decreases commands.len(),
{
    if commands.len() == 0 {
        0
    } else {
        let earlier = first_quit(commands.drop_last());
        if earlier < commands.len() - 1 || commands.last() is Quit {
            earlier
        } else {
            commands.len() as int
        }
    }
}

/// One of `commands` is `Quit`.
pub open spec fn quits(commands: Seq<Command>) -> bool {
    first_quit(commands) < commands.len()
}

impl GameView {
    /// The state in which a game with the body `snake` starts, given what
    /// lies on the field: nothing is scored, no flash is under way, the
    /// movement and marker timers run and the flash timer is paused.
    pub open spec fn opening(snake: Seq<SnakeCell>, collectibles: Seq<Collectible>) -> GameView {
        GameView {
            snake,
            collectibles,
            score: 0,
            flash_count: 0,
            move_timer: TimerView::fresh(MOVE_INTERVAL as nat),
            marker_timer: TimerView::fresh(MARKER_INTERVAL as nat),
            flash_timer: TimerView::fresh(FLASH_INTERVAL as nat).paused(),
        }
    }

    /// The state that a game starts in, given what lies on the field.
    pub open spec fn starting(collectibles: Seq<Collectible>) -> GameView {
        GameView::opening(starting_cells(), collectibles)
    }

    /// What holds of every state that the game can be in.
    ///
    /// The snake has a head, and has gained at least one cell for every
    /// point scored; the flash timer runs exactly while flashes remain, and
    /// holds nothing while none does.
    pub open spec fn wf(self) -> bool {
        &&& self.snake.len() >= 1
        &&& self.score < self.snake.len()
        &&& self.flash_count <= MAX_SNAKE_FLASH_COUNT
        &&& self.flash_timer.interval > 0
        &&& (self.flash_count > 0 <==> self.flash_timer.running)
        &&& (self.flash_count == 0 ==> self.flash_timer.accumulated == 0)
    }

    /// The state after the player asked for `direction`. A refused turn
    /// leaves the snake alone and raises the flash; any other turn is taken
    /// by the head at once.
    pub open spec fn turned(self, direction: Direction) -> GameView {
        if refuses(self.snake, direction.heading()) {
            GameView {
                flash_count: MAX_SNAKE_FLASH_COUNT as nat,
                flash_timer: self.flash_timer.played(),
                ..self
            }
        } else {
            GameView { snake: steered(self.snake, direction.heading()), ..self }
        }
    }

    /// The state after `commands` were applied in order, `Quit` being
    /// skipped.
    pub open spec fn turned_all(self, commands: Seq<Command>) -> GameView
        decreases commands.len(),
    {
        if commands.len() == 0 {
            self
        } else {
            let before = self.turned_all(commands.drop_last());
            match commands.last() {
                Command::Direction(direction) => before.turned(direction),
                Command::Quit => before,
            }
        }
    }

    /// The state after the commands that come before the first `Quit` were
    /// applied.
    pub open spec fn commanded(self, commands: Seq<Command>) -> GameView {
        self.turned_all(commands.take(first_quit(commands)))
    }

    /// The collectible at `index` is an egg that lies under the head.
    pub open spec fn eats(self, index: int) -> bool {
        &&& 0 <= index < self.collectibles.len()
        &&& self.collectibles[index].class is Egg
        &&& self.collectibles[index].position == self.snake[0].position
    }

    /// The state after the head was offered the collectible at `index`.
    /// Where it eats it, the head is marked, the credit goes to the score,
    /// the egg moves to `position` with the flag `special`, and the snake
    /// grows by the credit. Else nothing changes.
    pub open spec fn ate(self, index: int, position: Point, special: bool) -> GameView {
        if self.eats(index) {
            let credit = self.collectibles[index].credit();
            GameView {
                snake: grown(marked(self.snake), credit),
                collectibles: self.collectibles.update(
                    index,
                    Collectible { position, class: CollectibleType::Egg { special } },
                ),
                score: self.score + credit,
                ..self
            }
        } else {
            self
        }
    }

    /// The state after the head was offered the first `upto` collectibles in
    /// turn, but for where the eaten eggs went.
    pub open spec fn fed_upto(self, upto: int) -> GameView
        decreases upto,
    {
        if upto <= 0 {
            self
        } else {
            let before = self.fed_upto(upto - 1);
            if self.eats(upto - 1) {
                let credit = self.collectibles[upto - 1].credit();
                GameView {
                    snake: grown(marked(before.snake), credit),
                    score: before.score + credit,
                    ..before
                }
            } else {
                before
            }
        }
    }

    /// The state after the head was offered every collectible in turn, but
    /// for where the eaten eggs went.
    pub open spec fn fed(self) -> GameView {
        self.fed_upto(self.collectibles.len() as int)
    }

    /// `after` is what may lie on the field once the head was offered every
    /// collectible: an eaten egg is an egg again, on some cell of the field;
    /// everything else is as it was.
    pub open spec fn respawned(self, after: Seq<Collectible>) -> bool {
        &&& after.len() == self.collectibles.len()
        &&& forall|i: int|
            0 <= i < after.len() ==> if self.eats(i) {
                after[i].class is Egg && (#[trigger] after[i]).position.on_grid()
            } else {
                after[i] == self.collectibles[i]
            }
    }

    /// The state after the movement timer was polled: where it was due, the
    /// snake has moved by one step.
    pub open spec fn moved(self) -> GameView {
        GameView {
            snake: if self.move_timer.due() {
                advanced(self.snake)
            } else {
                self.snake
            },
            move_timer: self.move_timer.polled(),
            ..self
        }
    }

    /// The state after the marker timer was polled: where it was due, the
    /// swallowed-egg marker has moved by one cell.
    pub open spec fn marker_moved(self) -> GameView {
        GameView {
            snake: if self.marker_timer.due() {
                bubbled(self.snake)
            } else {
                self.snake
            },
            marker_timer: self.marker_timer.polled(),
            ..self
        }
    }

    /// The state after the flash timer was polled: where it was due, one
    /// flash is used up, and with the last one the timer stops.
    pub open spec fn flash_decayed(self) -> GameView {
        if self.flash_timer.due() {
            let remaining = (self.flash_count - 1) as nat;
            GameView {
                flash_count: remaining,
                flash_timer: if remaining == 0 {
                    self.flash_timer.polled().stopped()
                } else {
                    self.flash_timer.polled()
                },
                ..self
            }
        } else {
            self
        }
    }

    /// The state after `delta` nanoseconds were fed to every timer.
    pub open spec fn ticked(self, delta: nat) -> GameView {
        GameView {
            move_timer: self.move_timer.ticked(delta),
            marker_timer: self.marker_timer.ticked(delta),
            flash_timer: self.flash_timer.ticked(delta),
            ..self
        }
    }

    /// The state after the rules of one tick were applied, but for where the
    /// eaten eggs went: eggs are eaten, then the snake moves, then the marker
    /// moves, then the flash decays.
    pub open spec fn updated(self) -> GameView {
        self.fed().moved().marker_moved().flash_decayed()
    }

    /// `self` with `collectibles` on the field.
    pub open spec fn with_field(self, collectibles: Seq<Collectible>) -> GameView {
        GameView { collectibles, ..self }
    }

    /// The snake draws an outline round its cells: the number of flashes
    /// that remain is odd.
    pub open spec fn outlined(self) -> bool {
        self.flash_count % 2 == 1
    }
}

/// What lies on the field when a game starts: `START_EGGS` ordinary eggs,
/// then `START_VIRUSES` viruses, each on a cell of the field.
pub open spec fn starting_field(collectibles: Seq<Collectible>) -> bool {
    &&& collectibles.len() == START_EGGS + START_VIRUSES
    &&& forall|i: int|
        0 <= i < collectibles.len() ==> (#[trigger] collectibles[i]).position.on_grid()
    &&& forall|i: int|
        0 <= i < collectibles.len() ==> (#[trigger] collectibles[i]).class == if i < START_EGGS {
            CollectibleType::Egg { special: false }
        } else {
            CollectibleType::Virus
        }
}

/// The authoritative state of one game.
#[derive(Debug)]
pub struct GameState {
    snake: Snake,
    collectibles: Vec<Collectible>,
    score: u64,
    flash_count: u8,
    move_timer: Timer,
    marker_timer: Timer,
    flash_timer: Timer,
}

impl View for GameState {
    type V = GameView;

    closed spec fn view(&self) -> GameView {
        GameView {
            snake: self.snake@,
            collectibles: self.collectibles@,
            score: self.score as nat,
            flash_count: self.flash_count as nat,
            move_timer: self.move_timer@,
            marker_timer: self.marker_timer@,
            flash_timer: self.flash_timer@,
        }
    }
}

impl GameState {
    /// The state is one that the game can be in.
    pub open spec fn wf(&self) -> bool {
        self@.wf()
    }

    /// A new game with `collectibles` on the field.
    pub fn with_collectibles(collectibles: Vec<Collectible>) -> (state: GameState)
        ensures
            state@ == GameView::starting(collectibles@),
            state.wf(),
    {
        GameState::with_snake(Snake::starting(), collectibles)
    }

    /// A new game that starts with the body `snake` and with `collectibles`
    /// on the field.
    pub fn with_snake(snake: Snake, collectibles: Vec<Collectible>) -> (state: GameState)
        requires
            snake.wf(),
        ensures
            state@ == GameView::opening(snake@, collectibles@),
            state.wf(),
    {
        let mut flash_timer = Timer::new(FLASH_INTERVAL);
        flash_timer.pause();
        GameState {
            snake,
            collectibles,
            score: 0,
            flash_count: 0,
            move_timer: Timer::new(MOVE_INTERVAL),
            marker_timer: Timer::new(MARKER_INTERVAL),
            flash_timer,
        }
    }

    /// A new game with eggs and viruses placed at random.
    pub fn new() -> (state: GameState)
        ensures
            state@ == GameView::starting(state@.collectibles),
            starting_field(state@.collectibles),
            state.wf(),
    {
        let mut collectibles: Vec<Collectible> = Vec::new();
        let mut placed: usize = 0;
        while placed < START_EGGS + START_VIRUSES
            invariant
                placed <= START_EGGS + START_VIRUSES,
                collectibles@.len() == placed,
                forall|i: int|
                    0 <= i < placed ==> (#[trigger] collectibles@[i]).position.on_grid(),
                forall|i: int|
                    0 <= i < placed ==> (#[trigger] collectibles@[i]).class == if i < START_EGGS {
                        CollectibleType::Egg { special: false }
                    } else {
                        CollectibleType::Virus
                    },
            decreases START_EGGS + START_VIRUSES - placed,
        {
            let class = if placed < START_EGGS {
                CollectibleType::Egg { special: false }
            } else {
                CollectibleType::Virus
            };
            collectibles.push(Collectible { position: random_position_on_screen(), class });
            placed += 1;
        }
        GameState::with_collectibles(collectibles)
    }

    pub fn snake(&self) -> (snake: &Snake)
        ensures
            snake@ == self@.snake,
    {
        &self.snake
    }

    pub fn collectibles(&self) -> (collectibles: &Vec<Collectible>)
        ensures
            collectibles@ == self@.collectibles,
    {
        &self.collectibles
    }

    pub fn score(&self) -> (score: u64)
        ensures
            score == self@.score,
    {
        self.score
    }

    /// The number of flashes that remain.
    pub fn flash_count(&self) -> (count: u8)
        ensures
            count == self@.flash_count,
    {
        self.flash_count
    }

    /// Tells whether the renderer should outline the snake's cells.
    pub fn flash_outline(&self) -> (outlined: bool)
        ensures
            outlined == self@.outlined(),
    {
        self.flash_count % 2 == 1
    }

    /// Tells whether a flash is under way.
    pub fn flash_active(&self) -> (active: bool)
        ensures
            active == self@.flash_timer.running,
    {
        self.flash_timer.is_running()
    }

    pub fn move_timer(&self) -> (timer: &Timer)
        ensures
            timer@ == self@.move_timer,
    {
        &self.move_timer
    }

    pub fn marker_timer(&self) -> (timer: &Timer)
        ensures
            timer@ == self@.marker_timer,
    {
        &self.marker_timer
    }

    pub fn flash_timer(&self) -> (timer: &Timer)
        ensures
            timer@ == self@.flash_timer,
    {
        &self.flash_timer
    }

    /// Applies one directional command. Returns whether the turn was taken.
    pub fn handle_direction(&mut self, direction: Direction) -> (accepted: bool)
        requires
            old(self).wf(),
        ensures
            accepted == !refuses(old(self)@.snake, direction.heading()),
            final(self)@ == old(self)@.turned(direction),
            final(self).wf(),
    {
        let accepted = self.snake.steer(direction.vector());
        if !accepted {
            self.flash_count = MAX_SNAKE_FLASH_COUNT;
            self.flash_timer.play();
        }
        accepted
    }

    /// Applies the commands of one tick in order, up to the first `Quit`.
    pub fn handle_commands(&mut self, commands: &Vec<Command>) -> (outcome: StepOutcome)
        requires
            old(self).wf(),
        ensures
            outcome == if quits(commands@) {
                StepOutcome::Quit
            } else {
                StepOutcome::Continue
            },
            final(self)@ == old(self)@.commanded(commands@),
            final(self).wf(),
    {
        let mut index: usize = 0;
        while index < commands.len()
            invariant
                index <= commands@.len(),
                first_quit(commands@.take(index as int)) == index,
                self@ == old(self)@.turned_all(commands@.take(index as int)),
                self.wf(),
            decreases commands@.len() - index,
        {
            proof {
                assert(commands@.take(index + 1).drop_last() == commands@.take(index as int));
            }
            match commands[index] {
                Command::Quit => {
                    proof {
                        lemma_first_quit_found(commands@, index as int);
                    }
                    return StepOutcome::Quit;
                },
                Command::Direction(direction) => {
                    self.handle_direction(direction);
                },
            }
            index += 1;
        }
        proof {
            assert(commands@.take(index as int) == commands@);
        }
        StepOutcome::Continue
    }

    /// Tells whether the collectible at `index` is an egg under the head.
    pub fn is_eaten(&self, index: usize) -> (eaten: bool)
        requires
            self.wf(),
        ensures
            eaten == self@.eats(index as int),
    {
        if index < self.collectibles.len() {
            let head = self.snake.head();
            let collectible = &self.collectibles[index];
            let is_egg = match collectible.class {
                CollectibleType::Egg { .. } => true,
                CollectibleType::Virus => false,
            };
            is_egg && head.position.x == collectible.position.x && head.position.y
                == collectible.position.y
        } else {
            false
        }
    }

    /// Offers the collectible at `index` to the head. An egg under the head
    /// is eaten and laid again at `position`, special or not as `special`
    /// says. Returns whether anything was eaten.
    pub fn try_eat(&mut self, index: usize, position: Point, special: bool) -> (eaten: bool)
        requires
            old(self).wf(),
        ensures
            eaten == old(self)@.eats(index as int),
            final(self)@ == old(self)@.ate(index as int, position, special),
            final(self).wf(),
    {
        if !self.is_eaten(index) {
            return false;
        }
        let credit = self.collectibles[index].credit_value();
        self.snake.mark_head();
        self.collectibles.set(
            index,
            Collectible { position, class: CollectibleType::Egg { special } },
        );
        self.snake.grow(credit);
        proof {
            self.snake.lemma_length_fits();
        }
        self.score = self.score + credit as u64;
        true
    }

    /// Offers every collectible to the head in turn. Each eaten egg is laid
    /// again on a cell chosen at random, and is special three times out of
    /// ten.
    pub fn resolve_consumption(&mut self)
        requires
            old(self).wf(),
        ensures
            final(self)@ == old(self)@.fed().with_field(final(self)@.collectibles),
            old(self)@.respawned(final(self)@.collectibles),
            final(self).wf(),
    {
        let mut index: usize = 0;
        while index < self.collectibles.len()
            invariant
                index <= self@.collectibles.len(),
                self@.collectibles.len() == old(self)@.collectibles.len(),
                self@ == old(self)@.fed_upto(index as int).with_field(self@.collectibles),
                self@.snake[0].position == old(self)@.snake[0].position,
                forall|i: int|
                    0 <= i < index ==> if old(self)@.eats(i) {
                        self@.collectibles[i].class is Egg
                            && (#[trigger] self@.collectibles[i]).position.on_grid()
                    } else {
                        self@.collectibles[i] == old(self)@.collectibles[i]
                    },
                forall|i: int|
                    index <= i < self@.collectibles.len() ==> #[trigger] self@.collectibles[i]
                        == old(self)@.collectibles[i],
                self.wf(),
            decreases self@.collectibles.len() - index,
        {
            if self.is_eaten(index) {
                let position = random_position_on_screen();
                let special = random_ratio(SPECIAL_NUMERATOR, SPECIAL_DENOMINATOR);
                self.try_eat(index, position, special);
            }
            index += 1;
        }
    }

    /// Polls the movement timer and, where it is due, moves the snake.
    pub fn move_snake(&mut self)
        requires
            old(self).wf(),
        ensures
            final(self)@ == old(self)@.moved(),
            final(self).wf(),
    {
        if self.move_timer.triggered() {
            self.snake.advance();
        }
    }

    /// Polls the marker timer and, where it is due, moves the swallowed-egg
    /// marker.
    pub fn move_marker(&mut self)
        requires
            old(self).wf(),
        ensures
            final(self)@ == old(self)@.marker_moved(),
            final(self).wf(),
    {
        if self.marker_timer.triggered() {
            self.snake.advance_marker();
        }
    }

    /// Polls the flash timer and, where it is due, uses up one flash.
    pub fn decay_flash(&mut self)
        requires
            old(self).wf(),
        ensures
            final(self)@ == old(self)@.flash_decayed(),
            final(self).wf(),
    {
        if self.flash_timer.triggered() {
            self.flash_count -= 1;
            if self.flash_count == 0 {
                self.flash_timer.stop();
            }
        }
    }

    /// Feeds `delta` nanoseconds to every timer.
    pub fn tick_timers(&mut self, delta: u64)
        requires
            old(self).wf(),
        ensures
            final(self)@ == old(self)@.ticked(delta as nat),
            final(self).wf(),
    {
        self.move_timer.tick(delta);
        self.marker_timer.tick(delta);
        self.flash_timer.tick(delta);
    }

    /// Applies the rules of one tick: eggs are eaten, then the snake moves,
    /// then the marker moves, then the flash decays.
    pub fn update(&mut self)
        requires
            old(self).wf(),
        ensures
            final(self)@ == old(self)@.updated().with_field(final(self)@.collectibles),
            old(self)@.respawned(final(self)@.collectibles),
            final(self).wf(),
    {
        self.resolve_consumption();
        self.move_snake();
        self.move_marker();
        self.decay_flash();
    }

    /// Advances the game by one tick: the commands are applied, then the
    /// rules, then `delta` nanoseconds pass on every timer. A `Quit` among
    /// the commands ends the tick on the spot.
    pub fn step(&mut self, commands: &Vec<Command>, delta: u64) -> (outcome: StepOutcome)
        requires
            old(self).wf(),
        ensures
            outcome == if quits(commands@) {
                StepOutcome::Quit
            } else {
                StepOutcome::Continue
            },
            quits(commands@) ==> final(self)@ == old(self)@.commanded(commands@),
            !quits(commands@) ==> {
                let commanded = old(self)@.commanded(commands@);
                &&& final(self)@ == commanded.updated().ticked(delta as nat).with_field(
                    final(self)@.collectibles,
                )
                &&& commanded.respawned(final(self)@.collectibles)
            },
            final(self).wf(),
    {
        match self.handle_commands(commands) {
            StepOutcome::Quit => StepOutcome::Quit,
            StepOutcome::Continue => {
                self.update();
                self.tick_timers(delta);
                StepOutcome::Continue
            },
        }
    }
}

/// Reversal rejection: where the snake has two cells or more and the player
/// asks for the exact reverse of the head's heading, the snake stays as it
/// is, the flash counter is set to its maximum and the flash timer runs.
/// Nothing else changes.
pub proof fn lemma_reversal_raises_flash(state: GameView, direction: Direction)
    requires
        state.snake.len() >= 2,
        state.snake[0].direction.opposes(direction.heading()),
    ensures
        state.turned(direction).snake == state.snake,
        state.turned(direction).flash_count == MAX_SNAKE_FLASH_COUNT,
        state.turned(direction).flash_timer == state.flash_timer.played(),
        state.turned(direction).flash_timer.running,
        state.turned(direction) == (GameView {
            flash_count: state.turned(direction).flash_count,
            flash_timer: state.turned(direction).flash_timer,
            ..state
        }),
{
}

/// Single-cell exception: a snake of one cell takes every turn, a reversal
/// too, and no flash is raised.
pub proof fn lemma_single_cell_turns_freely(state: GameView, direction: Direction)
    requires
        state.snake.len() == 1,
    ensures
        state.turned(direction).snake.len() == 1,
        state.turned(direction).snake[0].direction == direction.heading(),
        state.turned(direction).snake[0].position == state.snake[0].position,
        state.turned(direction).flash_count == state.flash_count,
        state.turned(direction).flash_timer == state.flash_timer,
{
}

/// Any turn that is not refused is taken by the head at once, whether or
/// not the movement timer is due, and touches nothing but the head's
/// heading.
pub proof fn lemma_turn_is_immediate(state: GameView, direction: Direction)
    requires
        state.snake.len() >= 1,
        !refuses(state.snake, direction.heading()),
    ensures
        state.turned(direction).snake.len() == state.snake.len(),
        state.turned(direction).snake[0].direction == direction.heading(),
        forall|i: int|
            1 <= i < state.snake.len() ==> (#[trigger] state.turned(direction).snake[i])
                == state.snake[i],
        state.turned(direction) == (GameView { snake: state.turned(direction).snake, ..state }),
{
}

/// Growth accounting: eating an ordinary egg adds exactly 1 to the score and
/// exactly 1 cell to the body; eating a special egg adds exactly 3 and 3.
/// The head keeps its place and carries the marker, and the egg lies where
/// it was sent.
pub proof fn lemma_growth_accounting(state: GameView, index: int, position: Point, special: bool)
    requires
        state.snake.len() >= 1,
        state.eats(index),
    ensures
        ({
            let after = state.ate(index, position, special);
            let credit: nat = if state.collectibles[index].class == (CollectibleType::Egg {
                special: true,
            }) {
                3
            } else {
                1
            };
            &&& after.score == state.score + credit
            &&& after.snake.len() == state.snake.len() + credit
            &&& after.snake[0].position == state.snake[0].position
            &&& after.snake[0].just_swallowed_egg
            &&& after.collectibles.len() == state.collectibles.len()
            &&& after.collectibles[index] == (Collectible {
                position,
                class: CollectibleType::Egg { special },
            })
        }),
{
}

/// Whatever the head is offered in one tick, the body gains exactly one
/// cell for every point that the score gains, and neither ever goes down.
pub proof fn lemma_fed_accounting(state: GameView, upto: int)
    requires
        state.snake.len() >= 1,
    ensures
        state.fed_upto(upto).score >= state.score,
        state.fed_upto(upto).snake.len() - state.snake.len() == state.fed_upto(upto).score
            - state.score,
        state.fed_upto(upto).snake[0].position == state.snake[0].position,
        state.fed_upto(upto) == (GameView {
            snake: state.fed_upto(upto).snake,
            score: state.fed_upto(upto).score,
            ..state
        }),
    decreases upto,
{
    if upto > 0 {
        lemma_fed_accounting(state, upto - 1);
    }
}

/// Where the head lies on no egg, a tick's meal changes nothing.
pub proof fn lemma_fed_nothing(state: GameView, upto: int)
    requires
        forall|i: int| 0 <= i < upto ==> !state.eats(i),
    ensures
        state.fed_upto(upto) == state,
    decreases upto,
{
    if upto > 0 {
        lemma_fed_nothing(state, upto - 1);
    }
}

/// Every rule keeps a valid state valid.
pub proof fn lemma_rules_keep_wf(
    state: GameView,
    direction: Direction,
    index: int,
    position: Point,
    special: bool,
    delta: nat,
)
    requires
        state.wf(),
    ensures
        state.turned(direction).wf(),
        state.ate(index, position, special).wf(),
        state.fed().wf(),
        state.moved().wf(),
        state.marker_moved().wf(),
        state.flash_decayed().wf(),
        state.ticked(delta).wf(),
        state.updated().wf(),
{
    lemma_fed_accounting(state, state.collectibles.len() as int);
}

/// The score never goes down and the snake never shrinks in a tick, and the
/// snake gains exactly one cell for every point scored.
pub proof fn lemma_update_accounting(state: GameView, delta: nat)
    requires
        state.wf(),
    ensures
        state.updated().ticked(delta).score >= state.score,
        state.updated().ticked(delta).snake.len() - state.snake.len()
            == state.updated().ticked(delta).score - state.score,
{
    lemma_fed_accounting(state, state.collectibles.len() as int);
}

/// A flash lasts as many firings of the flash timer as the counter says:
/// each firing uses up one, the snake is outlined while an odd number
/// remains, and the timer stops with the last one.
pub proof fn lemma_flash_decay(state: GameView)
    requires
        state.wf(),
        state.flash_timer.due(),
    ensures
        state.flash_count >= 1,
        state.flash_decayed().flash_count == state.flash_count - 1,
        state.flash_decayed().flash_timer.accumulated == 0,
        state.flash_decayed().flash_timer.running == (state.flash_count > 1),
        state.flash_decayed().outlined() == !state.outlined(),
{
}

/// Once a `Quit` stands at `index` with none before it, it is the first one
/// however the commands go on.
pub proof fn lemma_first_quit_found(commands: Seq<Command>, index: int)
    requires
        0 <= index < commands.len(),
        commands[index] is Quit,
        first_quit(commands.take(index)) == index,
    ensures
        first_quit(commands) == index,
    decreases commands.len(),
{
    if commands.len() == index + 1 {
        assert(commands.drop_last() == commands.take(index));
    } else {
        assert(commands.drop_last().take(index) == commands.take(index));
        lemma_first_quit_found(commands.drop_last(), index);
    }
}

} // verus!
