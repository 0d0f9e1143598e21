//! The rules of the match, stated on values.
//!
//! A [`GameCoreView`] is what a match is at one instant: the match state, the
//! registered players and the snakes, both in name order, and the fruit. Every
//! rule is a function from one such value to the next. The executable
//! [`GameCore`](crate::game::game_core::GameCore) is proved to follow them.

use crate::common::{
    player_color_spec, yellow, MyVec2, PLAYER_COUNT_MAX, SCREEN_HEIGHT, SCREEN_WIDTH, SNAKE_SIZE,
};
use crate::game::fruit::is_cell;
use crate::game::game_core::PlayerState;
use crate::game::snake::{Direction, Rectangle, SnakeView, SnakesColission};
use crate::names::{
    lemma_name_lt_asymmetric, lemma_name_lt_irreflexive, name_lt, strictly_sorted,
};
use vstd::prelude::*;

verus! {

/// The character that marks a player as ready: carriage return.
pub const ENTER: char = '\x0D';

/// The character that takes a player's readiness back: escape.
pub const ESCAPE: char = '\x1B';

/// A registered player.
pub struct PlayerView {
    pub name: Seq<char>,
    pub state: PlayerState,
}

/// How a match ended.
pub struct FinishDetailsView {
    pub draw: bool,
    pub winner: Seq<char>,
}

/// The state of the match.
pub enum GameStateView {
    NotStarted,
    Paused,
    Playing,
    Finished(FinishDetailsView),
}

/// A snake and the name of the player it belongs to.
pub struct NamedSnakeView {
    pub name: Seq<char>,
    pub snake: SnakeView,
}

/// The first collision that a look at the field finds.
pub enum PlayerColissionView {
    /// The named player's head lies on its own tail.
    SelfColission(Seq<char>),
    /// The head of the first named player met the snake of the second.
    InBetween(SnakesColission, Seq<char>, Seq<char>),
    /// The named player's head lies on the fruit.
    FruitColission(Seq<char>),
}

/// A match at one instant.
pub struct GameCoreView {
    pub state: GameStateView,
    /// The registered players, in name order.
    pub players: Seq<PlayerView>,
    /// The snakes, in the name order of their players.
    pub snakes: Seq<NamedSnakeView>,
    /// The cell the fruit lies on, while there is one.
    pub fruit_pos: Option<MyVec2>,
    /// Whether this side decides where a new fruit goes.
    pub is_server: bool,
}

/// `i` is where `name` belongs in `names`: every name before `i` comes before
/// `name`, and the name at `i`, if there is one, does not.
pub open spec fn is_lower_bound(names: Seq<Seq<char>>, name: Seq<char>, i: int) -> bool {
    &&& 0 <= i <= names.len()
    &&& forall|j: int| 0 <= j < i ==> name_lt(#[trigger] names[j], name)
    &&& i < names.len() ==> !name_lt(names[i], name)
}

/// The index at which `name` stands in `names`, or at which it is to be inserted.
pub open spec fn lower_bound(names: Seq<Seq<char>>, name: Seq<char>) -> int {
    choose|i: int| is_lower_bound(names, name, i)
}

/// Any two indices that satisfy [`is_lower_bound`] are the same.
pub proof fn lemma_lower_bound_unique(names: Seq<Seq<char>>, name: Seq<char>, i: int)
    requires
        is_lower_bound(names, name, i),
    ensures
        lower_bound(names, name) == i,
{
}

/// Every name has its place in every sequence of names.
pub proof fn lemma_lower_bound_exists(names: Seq<Seq<char>>, name: Seq<char>)
    ensures
        is_lower_bound(names, name, lower_bound(names, name)),
{
    lemma_lower_bound_from(names, name, 0);
}

proof fn lemma_lower_bound_from(names: Seq<Seq<char>>, name: Seq<char>, i: int)
    requires
        0 <= i <= names.len(),
        forall|j: int| 0 <= j < i ==> name_lt(#[trigger] names[j], name),
    ensures
        is_lower_bound(names, name, lower_bound(names, name)),
    decreases names.len() - i,
{
    if i < names.len() && name_lt(names[i], name) {
        lemma_lower_bound_from(names, name, i + 1);
    } else {
        assert(is_lower_bound(names, name, i));
    }
}

/// The largest multiple of the cell size that is not above `v`.
pub open spec fn align_down(v: int) -> int {
    v - v % (SNAKE_SIZE as int)
}

/// Where the snake of the player at `index` starts: the field's width is cut
/// into as many parts as there are players and one more, and the snake starts
/// at the end of part `index`, at half height, both on the grid.
pub open spec fn start_position(index: int) -> MyVec2 {
    MyVec2 {
        x: align_down(SCREEN_WIDTH * (index + 1) / (PLAYER_COUNT_MAX + 1)) as i32,
        y: align_down(SCREEN_HEIGHT as int / 2) as i32,
    }
}

/// The heading that a command character asks for.
pub open spec fn direction_of(c: char) -> Option<Direction> {
    if c == 'w' {
        Some(Direction::Up)
    } else if c == 's' {
        Some(Direction::Down)
    } else if c == 'a' {
        Some(Direction::Left)
    } else if c == 'd' {
        Some(Direction::Right)
    } else {
        None
    }
}

/// The squares that show `snakes`, snake after snake.
pub open spec fn snakes_rectangles(snakes: Seq<NamedSnakeView>) -> Seq<Rectangle>
    decreases snakes.len(),
{
    if snakes.len() == 0 {
        Seq::empty()
    } else {
        snakes_rectangles(snakes.drop_last()) + snakes.last().snake.rectangles()
    }
}

/// The square that shows a fruit at `p`.
pub open spec fn fruit_rectangle(p: MyVec2) -> Rectangle {
    Rectangle { position: p, size: SNAKE_SIZE, color: yellow() }
}

impl GameCoreView {
    /// The squares that show the match: every snake in name order, then
    /// the fruit if there is one.
    pub open spec fn rectangles(self) -> Seq<Rectangle> {
        snakes_rectangles(self.snakes) + match self.fruit_pos {
            Some(p) => seq![fruit_rectangle(p)],
            None => Seq::empty(),
        }
    }

    /// An empty lobby.
    pub open spec fn new(is_server: bool) -> GameCoreView {
        GameCoreView {
            state: GameStateView::NotStarted,
            players: Seq::empty(),
            snakes: Seq::empty(),
            fruit_pos: None,
            is_server,
        }
    }

    /// The names of the players, in the order the players stand in.
    pub open spec fn player_names(self) -> Seq<Seq<char>> {
        self.players.map_values(|p: PlayerView| p.name)
    }

    /// The names of the snakes' players, in the order the snakes stand in.
    pub open spec fn snake_names(self) -> Seq<Seq<char>> {
        self.snakes.map_values(|s: NamedSnakeView| s.name)
    }

    /// A player called `name` is registered.
    pub open spec fn has_player(self, name: Seq<char>) -> bool {
        exists|i: int| 0 <= i < self.players.len() && #[trigger] self.players[i].name == name
    }

    /// The index of the player called `name`.
    pub open spec fn player_index(self, name: Seq<char>) -> int {
        choose|i: int| 0 <= i < self.players.len() && #[trigger] self.players[i].name == name
    }

    /// The player called `name` has a snake.
    pub open spec fn has_snake(self, name: Seq<char>) -> bool {
        exists|i: int| 0 <= i < self.snakes.len() && #[trigger] self.snakes[i].name == name
    }

    /// The index of the snake of the player called `name`.
    pub open spec fn snake_index(self, name: Seq<char>) -> int {
        choose|i: int| 0 <= i < self.snakes.len() && #[trigger] self.snakes[i].name == name
    }

    /// Every registered player is ready.
    pub open spec fn all_ready(self) -> bool {
        forall|i: int|
            0 <= i < self.players.len() ==> (#[trigger] self.players[i]).state
                == PlayerState::Ready
    }

    /// The full number of players is registered.
    pub open spec fn is_full(self) -> bool {
        self.players.len() == PLAYER_COUNT_MAX
    }

    /// The full number of players is registered and each has a snake, and
    /// there is no other snake.
    pub open spec fn in_match(self) -> bool {
        self.is_full() && self.snake_names() == self.player_names()
    }

    /// What holds of every match: players and snakes stand in name order with
    /// no name twice, every snake is one, the fruit lies on a cell of the
    /// grid, no more players are registered than a match takes, and while
    /// the match is played or paused each of them has a snake.
    pub open spec fn wf(self) -> bool {
        &&& strictly_sorted(self.player_names())
        &&& strictly_sorted(self.snake_names())
        &&& forall|i: int| 0 <= i < self.snakes.len() ==> (#[trigger] self.snakes[i]).snake.inv()
        &&& self.fruit_pos matches Some(p) ==> is_cell(p)
        &&& self.players.len() <= PLAYER_COUNT_MAX
        &&& (self.state is Playing || self.state is Paused) ==> self.in_match()
    }

    /// In a match the two players are distinct, each has an opponent, and
    /// the snakes stand as the players do.
    pub proof fn lemma_in_match_names(self)
        requires
            self.wf(),
            self.in_match(),
        ensures
            self.snakes.len() == 2,
            self.snakes[0].name == self.players[0].name,
            self.snakes[1].name == self.players[1].name,
            self.players[0].name != self.players[1].name,
            forall|name: Seq<char>| self.has_enemy(name),
            self.enemy_name(self.players[0].name) == self.players[1].name,
            self.enemy_name(self.players[1].name) == self.players[0].name,
    {
        let names = self.player_names();
        assert(self.snake_names().len() == names.len());
        lemma_name_lt_asymmetric(names[0], names[1]);
        assert forall|name: Seq<char>| self.has_enemy(name) by {
            assert(self.players[0].name != name || self.players[1].name != name);
        }
        assert(self.is_first_enemy(names[0], 1));
        assert(self.is_first_enemy(names[1], 0));
    }

    /// Once registered, a player is there, not ready, at the place of its name.
    pub proof fn lemma_with_player(self, name: Seq<char>)
        ensures
            self.with_player(name).has_player(name),
            self.has_player(name) && strictly_sorted(self.player_names()) ==> self.with_player(
                name,
            ).players.len() == self.players.len(),
            !self.has_player(name) ==> self.with_player(name).players.len() == self.players.len()
                + 1,
            self.with_player(name).players[lower_bound(self.player_names(), name)]
                == (PlayerView { name, state: PlayerState::NotReady }),
    {
        let names = self.player_names();
        lemma_lower_bound_exists(names, name);
        let i = lower_bound(names, name);
        let after = self.with_player(name);
        assert(after.players[i].name == name);
        if self.has_player(name) && strictly_sorted(names) {
            let k = self.player_index(name);
            if k < i {
                assert(name_lt(names[k], name));
                lemma_name_lt_irreflexive(name);
            } else if k > i {
                assert(name_lt(names[i], names[k]));
            }
        }
    }

    /// A command changes neither who is registered nor whose the snakes are.
    pub proof fn lemma_input_keeps_names(self, name: Seq<char>, c: char)
        requires
            self.wf(),
            self.has_player(name),
        ensures
            self.input_applied(name, c).player_names() == self.player_names(),
            self.input_applied(name, c).snake_names() == self.snake_names(),
    {
        if self.state is Playing {
            self.lemma_in_match_names();
            let k = self.snake_index(name);
            let i = self.player_index(name);
            assert(self.snake_names()[i] == name);
            assert(0 <= k < self.snakes.len());
        }
    }

    /// A collision changes neither who is registered nor whose the snakes are.
    pub proof fn lemma_resolved_keeps_names(self)
        requires
            self.wf(),
            self.in_match(),
        ensures
            self.resolved().player_names() == self.player_names(),
            self.resolved().snake_names() == self.snake_names(),
    {
        self.lemma_in_match_names();
        if let Some(PlayerColissionView::FruitColission(name)) = self.collisions() {
            assert(0 <= self.snake_index(name) < self.snakes.len());
        }
    }

    /// A tick changes nothing about who is registered.
    pub proof fn lemma_advanced_keeps_names(self)
        requires
            self.wf(),
        ensures
            self.advanced().player_names() == self.player_names(),
    {
        if self.state is Playing && self.all_ready() {
            self.lemma_resolved_keeps_names();
        }
    }

    /// The match with a player called `name` registered as not ready. A
    /// player of that name who is there already is replaced.
    pub open spec fn with_player(self, name: Seq<char>) -> GameCoreView {
        let i = lower_bound(self.player_names(), name);
        let p = PlayerView { name, state: PlayerState::NotReady };
        GameCoreView {
            players: if i < self.players.len() && self.players[i].name == name {
                self.players.update(i, p)
            } else {
                self.players.insert(i, p)
            },
            ..self
        }
    }

    /// The match back in the lobby: not started, no fruit, no snakes.
    pub open spec fn reset(self) -> GameCoreView {
        GameCoreView {
            state: GameStateView::NotStarted,
            fruit_pos: None,
            snakes: Seq::empty(),
            ..self
        }
    }

    /// The match back in the lobby and without the player called `name`.
    pub open spec fn without_player(self, name: Seq<char>) -> GameCoreView {
        let r = self.reset();
        if self.has_player(name) {
            GameCoreView { players: self.players.remove(self.player_index(name)), ..r }
        } else {
            r
        }
    }

    /// The match with a fresh snake for every player, at the start position
    /// and in the colour of the player's index.
    pub open spec fn started(self) -> GameCoreView {
        GameCoreView {
            snakes: Seq::new(
                self.players.len(),
                |i: int|
                    NamedSnakeView {
                        name: self.players[i].name,
                        snake: SnakeView::fresh(player_color_spec(i), start_position(i)),
                    },
            ),
            ..self
        }
    }

    /// The match ended, with `winner` or as a draw, and every player not
    /// ready again.
    pub open spec fn finished(self, winner: Option<Seq<char>>) -> GameCoreView {
        GameCoreView {
            state: GameStateView::Finished(
                FinishDetailsView {
                    draw: winner is None,
                    winner: match winner {
                        Some(w) => w,
                        None => Seq::empty(),
                    },
                },
            ),
            players: self.players.map_values(
                |p: PlayerView| PlayerView { state: PlayerState::NotReady, ..p },
            ),
            ..self
        }
    }

    /// A player other than the one called `name` exists.
    pub open spec fn has_enemy(self, name: Seq<char>) -> bool {
        exists|i: int| 0 <= i < self.players.len() && (#[trigger] self.players[i]).name != name
    }

    /// `i` is the first player in name order who is not called `name`.
    pub open spec fn is_first_enemy(self, name: Seq<char>, i: int) -> bool {
        &&& 0 <= i < self.players.len()
        &&& self.players[i].name != name
        &&& forall|j: int| 0 <= j < i ==> (#[trigger] self.players[j]).name == name
    }

    /// The name of the first player in name order who is not called `name`.
    pub open spec fn enemy_name(self, name: Seq<char>) -> Seq<char> {
        self.players[choose|i: int| self.is_first_enemy(name, i)].name
    }

    /// No snake has a segment on `p`.
    pub open spec fn is_free(self, p: MyVec2) -> bool {
        forall|i: int|
            0 <= i < self.snakes.len() ==> !(#[trigger] self.snakes[i]).snake.collides_object(p)
    }

    /// The first collision on the field of a match of two snakes. Looked
    /// for, in this order: a snake on its own tail; a head on the fruit; the
    /// two heads on one cell; a head on the other snake's tail. Within each,
    /// the first snake in name order is looked at first.
    pub open spec fn collisions(self) -> Option<PlayerColissionView> {
        let a = self.snakes[0];
        let b = self.snakes[1];
        if a.snake.collides_self() {
            Some(PlayerColissionView::SelfColission(a.name))
        } else if b.snake.collides_self() {
            Some(PlayerColissionView::SelfColission(b.name))
        } else if self.fruit_pos is Some && a.snake.collides_head(self.fruit_pos->0) {
            Some(PlayerColissionView::FruitColission(a.name))
        } else if self.fruit_pos is Some && b.snake.collides_head(self.fruit_pos->0) {
            Some(PlayerColissionView::FruitColission(b.name))
        } else if a.snake.collides_other(b.snake) is Some {
            Some(PlayerColissionView::InBetween(a.snake.collides_other(b.snake)->0, a.name, b.name))
        } else if b.snake.collides_other(a.snake) is Some {
            Some(PlayerColissionView::InBetween(b.snake.collides_other(a.snake)->0, b.name, a.name))
        } else {
            None
        }
    }

    /// The match after the collision `c` has had its effect: the snake on the
    /// fruit grows and the fruit is gone; a snake on its own tail loses to
    /// its opponent; two heads on one cell end the match in a draw; a head on
    /// the other's tail loses to the other.
    pub open spec fn after_collision(self, c: PlayerColissionView) -> GameCoreView {
        match c {
            PlayerColissionView::FruitColission(name) => {
                let k = self.snake_index(name);
                GameCoreView {
                    snakes: self.snakes.update(
                        k,
                        NamedSnakeView { snake: self.snakes[k].snake.grown(), ..self.snakes[k] },
                    ),
                    fruit_pos: None,
                    ..self
                }
            },
            PlayerColissionView::SelfColission(name) => self.finished(Some(self.enemy_name(name))),
            PlayerColissionView::InBetween(kind, _loser, winner) => match kind {
                SnakesColission::HeadToHeadColission => self.finished(None),
                SnakesColission::HeadToTailColission => self.finished(Some(winner)),
            },
        }
    }

    /// The match after a look for collisions.
    pub open spec fn resolved(self) -> GameCoreView {
        match self.collisions() {
            Some(c) => self.after_collision(c),
            None => self,
        }
    }

    /// The match with the player at `i` in state `state`.
    pub open spec fn with_player_state(self, i: int, state: PlayerState) -> GameCoreView {
        GameCoreView {
            players: self.players.update(i, PlayerView { state, ..self.players[i] }),
            ..self
        }
    }

    /// The match with the snake at `k` asked to head towards `d`.
    pub open spec fn with_snake_turned(self, k: int, d: Direction) -> GameCoreView {
        GameCoreView {
            snakes: self.snakes.update(
                k,
                NamedSnakeView { snake: self.snakes[k].snake.turned(d), ..self.snakes[k] },
            ),
            ..self
        }
    }

    /// The match after the player called `name` has sent the command `c`.
    ///
    /// A player who is not ready becomes ready on [`ENTER`]. A player who is
    /// ready stops being so on [`ESCAPE`]; while the match is played, `w`,
    /// `s`, `a` and `d` ask the player's snake to head up, down, left and
    /// right. Anything else changes nothing.
    pub open spec fn input_applied(self, name: Seq<char>, c: char) -> GameCoreView {
        let i = self.player_index(name);
        match self.players[i].state {
            PlayerState::NotReady => if c == ENTER {
                self.with_player_state(i, PlayerState::Ready)
            } else {
                self
            },
            PlayerState::Ready => if c == ESCAPE {
                self.with_player_state(i, PlayerState::NotReady)
            } else if self.state is Playing && direction_of(c) is Some {
                self.with_snake_turned(self.snake_index(name), direction_of(c)->0)
            } else {
                self
            },
        }
    }

    /// The match with every snake one tick older.
    pub open spec fn snakes_ticked(self) -> GameCoreView {
        GameCoreView {
            snakes: self.snakes.map_values(
                |s: NamedSnakeView| NamedSnakeView { snake: s.snake.ticked(), ..s },
            ),
            ..self
        }
    }

    /// The match after one tick, but for the placing of a new fruit.
    ///
    /// Not started: with the full number of players, all ready, the match
    /// starts with fresh snakes. Played: paused as soon as a player is not
    /// ready; else collisions take effect and every snake ticks. Paused:
    /// played again once the full number of players is ready. Finished: back
    /// to the lobby if a player is missing; started anew once all are ready.
    pub open spec fn advanced(self) -> GameCoreView {
        match self.state {
            GameStateView::NotStarted => if self.is_full() && self.all_ready() {
                GameCoreView { state: GameStateView::Playing, ..self }.started()
            } else {
                self
            },
            GameStateView::Playing => if !self.all_ready() {
                GameCoreView { state: GameStateView::Paused, ..self }
            } else {
                self.resolved().snakes_ticked()
            },
            GameStateView::Paused => if self.is_full() && self.all_ready() {
                GameCoreView { state: GameStateView::Playing, ..self }
            } else {
                self
            },
            GameStateView::Finished(_) => if self.players.len() < PLAYER_COUNT_MAX {
                GameCoreView { state: GameStateView::NotStarted, ..self }
            } else if self.all_ready() {
                GameCoreView { state: GameStateView::Playing, ..self }.started()
            } else {
                self
            },
        }
    }

    /// A tick of this match ends with the placing of a fruit: the match is
    /// played with every player ready, on the side that decides, and after
    /// the tick's collisions no fruit is left.
    pub open spec fn places_fruit(self) -> bool {
        &&& self.state is Playing
        &&& self.all_ready()
        &&& self.is_server
        &&& self.advanced().fruit_pos is None
    }
}

} // verus!
