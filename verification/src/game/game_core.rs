//! The authoritative match: who has joined, who is ready, where the snakes
//! and the fruit are, and what a tick or a key press makes of it.

use crate::common::{
    fruit_color, player_color, MyVec2, PLAYER_COUNT_MAX, SCREEN_HEIGHT, SCREEN_WIDTH, SNAKE_SIZE,
};
use crate::game::fruit::is_grid_cell;
use crate::game::rules::{
    align_down, is_lower_bound, lemma_lower_bound_unique, snakes_rectangles, start_position,
    FinishDetailsView, GameCoreView, GameStateView, NamedSnakeView, PlayerColissionView,
    PlayerView, ENTER, ESCAPE,
};
use crate::game::snake::{Direction, Rectangle, Snake, SnakeView, SnakesColission};
use crate::names::{
    compare_names, lemma_adjacent_sorted, lemma_name_lt_asymmetric, lemma_name_lt_irreflexive,
    lemma_name_lt_transitive, lemma_sorted_names_distinct, name_lt, same_name, strictly_sorted,
    NameOrder,
};
use vstd::prelude::*;

verus! {

/// How a match ended: in a draw, or with a winner.
#[derive(Debug)]
pub struct FinishDetails {
    pub draw: bool,
    /// The winner's name; empty after a draw.
    pub winner: String,
}

impl View for FinishDetails {
    type V = FinishDetailsView;

    open spec fn view(&self) -> FinishDetailsView {
        FinishDetailsView { draw: self.draw, winner: self.winner@ }
    }
}

/// The state of the match.
#[derive(Debug)]
pub enum GameState {
    NotStarted,
    Paused,
    Playing,
    Finished(FinishDetails),
}

impl View for GameState {
    type V = GameStateView;

    open spec fn view(&self) -> GameStateView {
        match self {
            GameState::NotStarted => GameStateView::NotStarted,
            GameState::Paused => GameStateView::Paused,
            GameState::Playing => GameStateView::Playing,
            GameState::Finished(d) => GameStateView::Finished(d@),
        }
    }
}

/// Whether a player has declared to be ready for the match.
#[derive(Clone, Copy, PartialEq, Eq, Structural, Debug)]
pub enum PlayerState {
    NotReady,
    Ready,
}

/// A registered player.
#[derive(Debug)]
pub struct Player {
    pub name: String,
    pub state: PlayerState,
}

impl View for Player {
    type V = PlayerView;

    open spec fn view(&self) -> PlayerView {
        PlayerView { name: self.name@, state: self.state }
    }
}

/// A snake and the name of the player it belongs to.
#[derive(Debug)]
pub struct NamedSnake {
    pub name: String,
    pub snake: Snake,
}

impl View for NamedSnake {
    type V = NamedSnakeView;

    open spec fn view(&self) -> NamedSnakeView {
        NamedSnakeView { name: self.name@, snake: self.snake@ }
    }
}

/// The first collision that a look at the field finds.
#[derive(Debug)]
pub enum PlayerColission {
    /// The named player's head lies on its own tail.
    SelfColission(String),
    /// The head of the first named player met the snake of the second.
    InBetween(SnakesColission, String, String),
    /// The named player's head lies on the fruit.
    FruitColission(String),
}

impl View for PlayerColission {
    type V = PlayerColissionView;

    open spec fn view(&self) -> PlayerColissionView {
        match self {
            PlayerColission::SelfColission(n) => PlayerColissionView::SelfColission(n@),
            PlayerColission::InBetween(k, a, b) => PlayerColissionView::InBetween(*k, a@, b@),
            PlayerColission::FruitColission(n) => PlayerColissionView::FruitColission(n@),
        }
    }
}

/// The match. Players and snakes are kept in name order.
#[derive(Debug)]
pub struct GameCore {
    pub state: GameState,
    /// The registered players, in name order.
    pub players: Vec<Player>,
    /// The snakes, in the name order of their players.
    pub snakes: Vec<NamedSnake>,
    /// The cell the fruit lies on, while there is one.
    pub fruit_pos: Option<MyVec2>,
    /// Whether this side decides where a new fruit goes.
    pub is_server: bool,
}

impl View for GameCore {
    type V = GameCoreView;

    open spec fn view(&self) -> GameCoreView {
        GameCoreView {
            state: self.state@,
            players: self.players@.map_values(|p: Player| p@),
            snakes: self.snakes@.map_values(|s: NamedSnake| s@),
            fruit_pos: self.fruit_pos,
            is_server: self.is_server,
        }
    }
}

impl Clone for FinishDetails {
    fn clone(&self) -> (r: Self)
        ensures
            r@ == self@,
    {
        Self { draw: self.draw, winner: self.winner.clone() }
    }
}

impl Clone for GameState {
    fn clone(&self) -> (r: Self)
        ensures
            r@ == self@,
    {
        match self {
            GameState::NotStarted => GameState::NotStarted,
            GameState::Paused => GameState::Paused,
            GameState::Playing => GameState::Playing,
            GameState::Finished(d) => GameState::Finished(d.clone()),
        }
    }
}

impl Clone for Player {
    fn clone(&self) -> (r: Self)
        ensures
            r@ == self@,
    {
        Self { name: self.name.clone(), state: self.state }
    }
}

impl Clone for NamedSnake {
    fn clone(&self) -> (r: Self)
        ensures
            r@ == self@,
    {
        Self { name: self.name.clone(), snake: self.snake.clone() }
    }
}

impl Clone for GameCore {
    /// A copy of the whole match, as it is sent to the clients.
    fn clone(&self) -> (r: Self)
        ensures
            r@ == self@,
    {
        let mut players: Vec<Player> = Vec::new();
        let mut i: usize = 0;
        while i < self.players.len()
            invariant
                i <= self.players@.len(),
                players@.len() == i,
                forall|j: int| 0 <= j < i ==> (#[trigger] players@[j])@ == self.players@[j]@,
            decreases self.players@.len() - i,
        {
            players.push(self.players[i].clone());
            i += 1;
        }
        let mut snakes: Vec<NamedSnake> = Vec::new();
        let mut k: usize = 0;
        while k < self.snakes.len()
            invariant
                k <= self.snakes@.len(),
                snakes@.len() == k,
                forall|j: int| 0 <= j < k ==> (#[trigger] snakes@[j])@ == self.snakes@[j]@,
            decreases self.snakes@.len() - k,
        {
            snakes.push(self.snakes[k].clone());
            k += 1;
        }
        let r = Self {
            state: self.state.clone(),
            players,
            snakes,
            fruit_pos: self.fruit_pos,
            is_server: self.is_server,
        };
        assert(r@.players =~= self@.players);
        assert(r@.snakes =~= self@.snakes);
        r
    }
}

/// The name in `w`, as a value.
pub open spec fn winner_view(w: Option<&str>) -> Option<Seq<char>> {
    match w {
        Some(n) => Some(n@),
        None => None,
    }
}

/// The collision in `c`, as a value.
pub open spec fn colission_view(c: Option<PlayerColission>) -> Option<PlayerColissionView> {
    match c {
        Some(k) => Some(k@),
        None => None,
    }
}

/// The largest multiple of the cell size that is not above `pos`.
pub fn align_to_snake_size(pos: u32) -> (r: u32)
    ensures
        r == align_down(pos as int),
{
    let cell: u32 = SNAKE_SIZE as u32;
    let remainder = pos % cell;
    pos - remainder
}

impl GameCore {
    /// An empty lobby. `is_server` says whether this side decides where the fruit goes.
    pub fn new(is_server: bool) -> (g: Self)
        ensures
            g@ == GameCoreView::new(is_server),
            g@.wf(),
    {
        let g = Self {
            state: GameState::NotStarted,
            snakes: Vec::new(),
            players: Vec::new(),
            fruit_pos: None,
            is_server,
        };
        assert(g@.players =~= Seq::empty());
        assert(g@.snakes =~= Seq::empty());
        g
    }

    /// Whether the players stand in name order, no name twice.
    fn players_sorted(&self) -> (r: bool)
        ensures
            r == strictly_sorted(self@.player_names()),
    {
        let n = self.players.len();
        if n < 2 {
            return true;
        }
        let ghost names = self@.player_names();
        let mut i: usize = 0;
        while i < n - 1
            invariant
                2 <= n == self.players@.len(),
                i <= n - 1,
                names == self@.player_names(),
                forall|j: int| 0 <= j < i ==> name_lt(#[trigger] names[j], names[j + 1]),
            decreases n - i,
        {
            let order = compare_names(
                self.players[i].name.as_str(),
                self.players[i + 1].name.as_str(),
            );
            assert(names[i as int] == self.players@[i as int].name@);
            assert(names[i + 1] == self.players@[i + 1].name@);
            if order != NameOrder::Before {
                return false;
            }
            i += 1;
        }
        proof {
            lemma_adjacent_sorted(names);
        }
        true
    }

    /// Whether the snakes stand in the name order of their players, no name twice.
    fn snakes_sorted(&self) -> (r: bool)
        ensures
            r == strictly_sorted(self@.snake_names()),
    {
        let n = self.snakes.len();
        if n < 2 {
            return true;
        }
        let ghost names = self@.snake_names();
        let mut i: usize = 0;
        while i < n - 1
            invariant
                2 <= n == self.snakes@.len(),
                i <= n - 1,
                names == self@.snake_names(),
                forall|j: int| 0 <= j < i ==> name_lt(#[trigger] names[j], names[j + 1]),
            decreases n - i,
        {
            let order = compare_names(
                self.snakes[i].name.as_str(),
                self.snakes[i + 1].name.as_str(),
            );
            assert(names[i as int] == self.snakes@[i as int].name@);
            assert(names[i + 1] == self.snakes@[i + 1].name@);
            if order != NameOrder::Before {
                return false;
            }
            i += 1;
        }
        proof {
            lemma_adjacent_sorted(names);
        }
        true
    }

    /// Whether every snake is one: see [`SnakeView::inv`].
    fn snakes_valid(&self) -> (r: bool)
        ensures
            r == (forall|i: int|
                0 <= i < self@.snakes.len() ==> (#[trigger] self@.snakes[i]).snake.inv()),
    {
        let n = self.snakes.len();
        let mut i: usize = 0;
        while i < n
            invariant
                i <= n,
                n == self.snakes@.len(),
                forall|j: int| 0 <= j < i ==> (#[trigger] self@.snakes[j]).snake.inv(),
            decreases n - i,
        {
            if !self.snakes[i].snake.is_valid() {
                return false;
            }
            assert(self@.snakes[i as int].snake.inv());
            i += 1;
        }
        true
    }

    /// Whether the full number of players is registered and the snakes are
    /// theirs, one each.
    pub fn in_match(&self) -> (r: bool)
        ensures
            r == self@.in_match(),
    {
        let n = self.players.len();
        if n != PLAYER_COUNT_MAX || self.snakes.len() != n {
            assert(self@.player_names().len() == self.players@.len());
            return false;
        }
        let mut i: usize = 0;
        while i < n
            invariant
                i <= n,
                n == self.players@.len(),
                n == self.snakes@.len(),
                n == PLAYER_COUNT_MAX,
                forall|j: int|
                    0 <= j < i ==> (#[trigger] self@.snake_names()[j]) == self@.player_names()[j],
            decreases n - i,
        {
            if !same_name(self.snakes[i].name.as_str(), self.players[i].name.as_str()) {
                assert(self@.snake_names()[i as int] != self@.player_names()[i as int]);
                return false;
            }
            i += 1;
        }
        assert(self@.snake_names() =~= self@.player_names());
        true
    }

    /// Whether this is a match as the rules can leave one behind: see
    /// [`GameCoreView::wf`]. A match that was put together from parts, or
    /// came over the wire, is to be checked before the rules are applied to it.
    pub fn is_valid(&self) -> (r: bool)
        ensures
            r == self@.wf(),
    {
        if self.players.len() > PLAYER_COUNT_MAX {
            return false;
        }
        if !self.players_sorted() || !self.snakes_sorted() || !self.snakes_valid() {
            return false;
        }
        if let Some(fruit_pos) = self.fruit_pos {
            if !is_grid_cell(&fruit_pos) {
                return false;
            }
        }
        match &self.state {
            GameState::Playing => self.in_match(),
            GameState::Paused => self.in_match(),
            _ => true,
        }
    }

    /// The index of the first player called `name`, if there is one.
    pub fn find_player(&self, name: &str) -> (r: Option<usize>)
        ensures
            r is Some <==> self@.has_player(name@),
            r matches Some(i) ==> i < self.players@.len() && self@.players[i as int].name == name@,
            r matches Some(i) ==> forall|j: int|
                0 <= j < i ==> (#[trigger] self@.players[j]).name != name@,
            self@.wf() ==> (r matches Some(i) ==> i == self@.player_index(name@)),
    {
        let n = self.players.len();
        let mut i: usize = 0;
        while i < n
            invariant
                i <= n,
                n == self.players@.len(),
                forall|j: int| 0 <= j < i ==> (#[trigger] self@.players[j]).name != name@,
            decreases n - i,
        {
            if same_name(self.players[i].name.as_str(), name) {
                assert(self@.players[i as int].name == name@);
                proof {
                    if self@.wf() {
                        lemma_sorted_names_distinct(
                            self@.player_names(),
                            i as int,
                            self@.player_index(name@),
                        );
                    }
                }
                return Some(i);
            }
            i += 1;
        }
        None
    }

    /// The index of the first snake of a player called `name`, if there is one.
    pub fn find_snake(&self, name: &str) -> (r: Option<usize>)
        ensures
            r is Some <==> self@.has_snake(name@),
            r matches Some(i) ==> i < self.snakes@.len() && self@.snakes[i as int].name == name@,
            r matches Some(i) ==> forall|j: int|
                0 <= j < i ==> (#[trigger] self@.snakes[j]).name != name@,
            self@.wf() ==> (r matches Some(i) ==> i == self@.snake_index(name@)),
    {
        let n = self.snakes.len();
        let mut i: usize = 0;
        while i < n
            invariant
                i <= n,
                n == self.snakes@.len(),
                forall|j: int| 0 <= j < i ==> (#[trigger] self@.snakes[j]).name != name@,
            decreases n - i,
        {
            if same_name(self.snakes[i].name.as_str(), name) {
                assert(self@.snakes[i as int].name == name@);
                proof {
                    if self@.wf() {
                        lemma_sorted_names_distinct(
                            self@.snake_names(),
                            i as int,
                            self@.snake_index(name@),
                        );
                    }
                }
                return Some(i);
            }
            i += 1;
        }
        None
    }

    /// Registers a player called `name`, not ready. A player of that name who
    /// is registered already starts over as not ready.
    pub fn add_player(&mut self, name: &str)
        requires
            old(self)@.wf(),
            old(self)@.has_player(name@) || old(self)@.players.len() < PLAYER_COUNT_MAX,
        ensures
            final(self)@ == old(self)@.with_player(name@),
            final(self)@.wf(),
    {
        let n = self.players.len();
        let ghost names = self@.player_names();
        let mut i: usize = 0;
        let mut found = false;
        while i < n
            invariant_except_break
                !found,
            invariant
                i <= n,
                n == self.players@.len(),
                names == self@.player_names(),
                forall|j: int| 0 <= j < i ==> name_lt(#[trigger] names[j], name@),
            ensures
                is_lower_bound(names, name@, i as int),
                found <==> (i < n && names[i as int] == name@),
                !found && i < n ==> name_lt(name@, names[i as int]),
            decreases n - i,
        {
            let order = compare_names(self.players[i].name.as_str(), name);
            if order == NameOrder::Same {
                found = true;
                proof {
                    lemma_name_lt_irreflexive(name@);
                }
                break ;
            }
            if order == NameOrder::After {
                proof {
                    lemma_name_lt_asymmetric(name@, names[i as int]);
                }
                break ;
            }
            i += 1;
        }
        proof {
            lemma_lower_bound_unique(names, name@, i as int);
        }
        let player = Player { name: name.to_owned(), state: PlayerState::NotReady };
        if found {
            self.players[i] = player;
            assert(self@.players =~= old(self)@.with_player(name@).players);
            assert(self@.player_names() =~= names);
        } else {
            assert(!old(self)@.has_player(name@)) by {
                if old(self)@.has_player(name@) {
                    let k = old(self)@.player_index(name@);
                    assert(names[k] == name@);
                    if k < i {
                        lemma_name_lt_irreflexive(name@);
                    } else if k > i {
                        lemma_name_lt_transitive(name@, names[i as int], names[k]);
                        lemma_name_lt_irreflexive(name@);
                    }
                }
            }
            self.players.insert(i, player);
            assert(self@.players =~= old(self)@.with_player(name@).players);
            assert(strictly_sorted(self@.player_names())) by {
                let after = self@.player_names();
                assert forall|a: int, b: int| 0 <= a < b < after.len() implies name_lt(
                    after[a],
                    after[b],
                ) by {
                    if b == i {
                        assert(name_lt(names[a], name@));
                    } else if a <= i && i < b {
                        if i < b - 1 {
                            lemma_name_lt_transitive(name@, names[i as int], names[b - 1]);
                        }
                        if a < i {
                            lemma_name_lt_transitive(names[a], name@, names[b - 1]);
                        }
                    }
                }
            }
        }
    }

    /// Where the snake of the player at `player_index` starts.
    pub fn create_player_position(player_index: usize) -> (p: MyVec2)
        requires
            player_index < PLAYER_COUNT_MAX,
        ensures
            p == start_position(player_index as int),
            p.grid_aligned(),
    {
        let parts: u32 = PLAYER_COUNT_MAX as u32 + 1;
        let block: u32 = SCREEN_WIDTH as u32 * (player_index as u32 + 1) / parts;
        let x = align_to_snake_size(block);
        let y = align_to_snake_size(SCREEN_HEIGHT as u32 / 2);
        MyVec2 { x: x as i32, y: y as i32 }
    }

    /// Replaces all snakes by a fresh one for every player.
    pub fn start(&mut self)
        requires
            old(self)@.wf(),
        ensures
            final(self)@ == old(self)@.started(),
            final(self)@.wf(),
    {
        self.snakes.clear();
        let n = self.players.len();
        let mut index: usize = 0;
        while index < n
            invariant
                index <= n,
                n == self.players@.len(),
                n <= PLAYER_COUNT_MAX,
                self.players == old(self).players,
                self.state == old(self).state,
                self.fruit_pos == old(self).fruit_pos,
                self.is_server == old(self).is_server,
                self.snakes@.len() == index,
                forall|j: int|
                    0 <= j < index ==> (#[trigger] self.snakes@[j])@ == old(self)@.started().snakes[j],
            decreases n - index,
        {
            let name = self.players[index].name.clone();
            let snake = Snake::new(player_color(index), Self::create_player_position(index));
            self.snakes.push(NamedSnake { name, snake });
            index += 1;
        }
        assert(self@.snakes =~= old(self)@.started().snakes);
        assert(self@.snake_names() =~= self@.player_names());
    }

    /// Takes the match back to the lobby: not started, no fruit, no snakes.
    pub fn reset_game_state(&mut self)
        requires
            old(self)@.wf(),
        ensures
            final(self)@ == old(self)@.reset(),
            final(self)@.wf(),
    {
        self.state = GameState::NotStarted;
        self.fruit_pos = None;
        self.snakes.clear();
        assert(self@.snakes =~= Seq::empty());
    }

    /// Takes the match back to the lobby and removes the player called
    /// `name`, if there is one.
    pub fn remove_player(&mut self, name: &str)
        requires
            old(self)@.wf(),
        ensures
            final(self)@ == old(self)@.without_player(name@),
            final(self)@.wf(),
    {
        self.reset_game_state();
        match self.find_player(name) {
            Some(i) => {
                let ghost names = self@.player_names();
                self.players.remove(i);
                assert(self@.players =~= old(self)@.players.remove(i as int));
                assert(self@.player_names() =~= names.remove(i as int));
            },
            None => {},
        }
    }

    /// Ends the match, with `winner` or, where there is none, as a draw.
    /// Every player is not ready afterwards.
    pub fn finish_the_game(&mut self, winner: Option<&str>)
        requires
            old(self)@.wf(),
        ensures
            final(self)@ == old(self)@.finished(winner_view(winner)),
            final(self)@.wf(),
    {
        let n = self.players.len();
        let mut i: usize = 0;
        while i < n
            invariant
                i <= n,
                n == self.players@.len(),
                n == old(self).players@.len(),
                self.snakes == old(self).snakes,
                self.fruit_pos == old(self).fruit_pos,
                self.is_server == old(self).is_server,
                forall|j: int|
                    0 <= j < i ==> (#[trigger] self.players@[j])@ == (PlayerView {
                        state: PlayerState::NotReady,
                        ..old(self).players@[j]@
                    }),
                forall|j: int| i <= j < n ==> (#[trigger] self.players@[j]) == old(self).players@[j],
            decreases n - i,
        {
            self.players[i].state = PlayerState::NotReady;
            i += 1;
        }
        let details = match winner {
            Some(w) => FinishDetails { draw: false, winner: w.to_owned() },
            None => FinishDetails { draw: true, winner: String::new() },
        };
        self.state = GameState::Finished(details);
        assert(self@.players =~= old(self)@.finished(winner_view(winner)).players);
        assert(self@.player_names() =~= old(self)@.player_names());
    }

    /// The name of the first player in name order who is not called `player_name`.
    pub fn get_enemy_name(&self, player_name: &str) -> (r: String)
        requires
            self@.has_enemy(player_name@),
        ensures
            r@ == self@.enemy_name(player_name@),
    {
        let n = self.players.len();
        let mut i: usize = 0;
        while i < n
            invariant
                i <= n,
                n == self.players@.len(),
                forall|j: int| 0 <= j < i ==> (#[trigger] self@.players[j]).name == player_name@,
            decreases n - i,
        {
            if !same_name(self.players[i].name.as_str(), player_name) {
                assert(self@.is_first_enemy(player_name@, i as int));
                return self.players[i].name.clone();
            }
            i += 1;
        }
        String::new()
    }

    /// Whether every registered player is ready.
    pub fn all_ready(&self) -> (r: bool)
        ensures
            r == self@.all_ready(),
    {
        let n = self.players.len();
        let mut i: usize = 0;
        while i < n
            invariant
                i <= n,
                n == self.players@.len(),
                forall|j: int|
                    0 <= j < i ==> (#[trigger] self@.players[j]).state == PlayerState::Ready,
            decreases n - i,
        {
            if self.players[i].state == PlayerState::NotReady {
                assert(self@.players[i as int].state != PlayerState::Ready);
                return false;
            }
            i += 1;
        }
        true
    }

    /// The first collision on the field, if there is one.
    pub fn get_colissions(&self) -> (r: Option<PlayerColission>)
        requires
            self@.wf(),
            self@.snakes.len() == 2,
        ensures
            colission_view(r) == self@.collisions(),
    {
        let a = &self.snakes[0];
        let b = &self.snakes[1];
        if a.snake.collides_self() {
            return Some(PlayerColission::SelfColission(a.name.clone()));
        }
        if b.snake.collides_self() {
            return Some(PlayerColission::SelfColission(b.name.clone()));
        }
        if let Some(fruit_pos) = self.fruit_pos {
            if a.snake.collides_head(&fruit_pos) {
                return Some(PlayerColission::FruitColission(a.name.clone()));
            }
            if b.snake.collides_head(&fruit_pos) {
                return Some(PlayerColission::FruitColission(b.name.clone()));
            }
        }
        if let Some(colission) = a.snake.collides_other(&b.snake) {
            return Some(PlayerColission::InBetween(colission, a.name.clone(), b.name.clone()));
        }
        if let Some(colission) = b.snake.collides_other(&a.snake) {
            return Some(PlayerColission::InBetween(colission, b.name.clone(), a.name.clone()));
        }
        None
    }

    /// Looks for a collision and lets it take effect.
    pub fn check_collissions(&mut self)
        requires
            old(self)@.wf(),
            old(self)@.in_match(),
        ensures
            final(self)@ == old(self)@.resolved(),
            final(self)@.wf(),
            final(self)@.snake_names() == old(self)@.snake_names(),
            final(self)@.player_names() == old(self)@.player_names(),
    {
        proof {
            old(self)@.lemma_in_match_names();
        }
        match self.get_colissions() {
            Some(PlayerColission::FruitColission(player_name)) => {
                match self.find_snake(player_name.as_str()) {
                    Some(k) => {
                        self.snakes[k].snake.grow();
                        self.fruit_pos = None;
                        assert(self@.snakes =~= old(self)@.resolved().snakes);
                        assert(self@.snake_names() =~= old(self)@.snake_names());
                    },
                    None => {},
                }
            },
            Some(PlayerColission::SelfColission(player_name)) => {
                let winner_name = self.get_enemy_name(player_name.as_str());
                self.finish_the_game(Some(winner_name.as_str()));
            },
            Some(PlayerColission::InBetween(snakes_colission, _loser, winner)) => {
                match snakes_colission {
                    SnakesColission::HeadToHeadColission => {
                        self.finish_the_game(None);
                    },
                    SnakesColission::HeadToTailColission => {
                        self.finish_the_game(Some(winner.as_str()));
                    },
                }
            },
            None => {},
        }
    }

    /// Lets every snake count one tick, and move if its move is due.
    pub fn tick_snakes(&mut self)
        requires
            old(self)@.wf(),
        ensures
            final(self)@ == old(self)@.snakes_ticked(),
            final(self)@.wf(),
    {
        let n = self.snakes.len();
        let mut i: usize = 0;
        while i < n
            invariant
                i <= n,
                n == self.snakes@.len(),
                n == old(self).snakes@.len(),
                self.players == old(self).players,
                self.state == old(self).state,
                self.fruit_pos == old(self).fruit_pos,
                self.is_server == old(self).is_server,
                old(self)@.wf(),
                forall|j: int|
                    0 <= j < i ==> (#[trigger] self.snakes@[j])@ == (NamedSnakeView {
                        snake: old(self).snakes@[j].snake@.ticked(),
                        ..old(self).snakes@[j]@
                    }) && self.snakes@[j]@.snake.inv(),
                forall|j: int| i <= j < n ==> (#[trigger] self.snakes@[j]) == old(self).snakes@[j],
            decreases n - i,
        {
            assert(old(self)@.snakes[i as int].snake.inv());
            self.snakes[i].snake.move_step_tick();
            i += 1;
        }
        assert(self@.snakes =~= old(self)@.snakes_ticked().snakes);
        assert(self@.snake_names() =~= old(self)@.snake_names());
    }

    /// Advances the match by one tick.
    ///
    /// Not started: with the full number of players, all ready, the match
    /// starts with fresh snakes. Played: paused as soon as a player is not
    /// ready; else collisions take effect, every snake ticks, and where this
    /// side decides and no fruit is left, a new one is placed. Paused: played
    /// again once the full number of players is ready. Finished: back to the
    /// lobby if a player is missing; started anew once all are ready.
    pub fn update(&mut self)
        requires
            old(self)@.wf(),
        ensures
            old(self)@.ticks_to(final(self)@),
            final(self)@.wf(),
    {
        match &self.state {
            GameState::NotStarted => {
                if self.players.len() == PLAYER_COUNT_MAX && self.all_ready() {
                    self.start();
                    self.state = GameState::Playing;
                    assert(self@.snake_names() =~= self@.player_names());
                }
            },
            GameState::Playing => {
                if !self.all_ready() {
                    self.state = GameState::Paused;
                    return ;
                }
                self.check_collissions();
                self.tick_snakes();
                if self.is_server && self.fruit_pos.is_none() {
                    self.update_fruit_pos();
                }
            },
            GameState::Paused => {
                if self.players.len() == PLAYER_COUNT_MAX && self.all_ready() {
                    self.state = GameState::Playing;
                }
            },
            GameState::Finished(_finish_details) => {
                if self.players.len() < PLAYER_COUNT_MAX {
                    self.state = GameState::NotStarted;
                    return ;
                }
                if self.all_ready() {
                    self.start();
                    self.state = GameState::Playing;
                    assert(self@.snake_names() =~= self@.player_names());
                }
            },
        }
    }

    /// The squares to draw for the match: every snake in name order, then
    /// the fruit if there is one.
    pub fn draw_objects(&self) -> (r: Vec<Rectangle>)
        ensures
            r@ == self@.rectangles(),
    {
        let mut out: Vec<Rectangle> = Vec::new();
        let n = self.snakes.len();
        let mut i: usize = 0;
        while i < n
            invariant
                i <= n,
                n == self.snakes@.len(),
                out@ == snakes_rectangles(self@.snakes.take(i as int)),
            decreases n - i,
        {
            let mut squares = self.snakes[i].snake.draw();
            out.append(&mut squares);
            proof {
                let upto = self@.snakes.take(i + 1);
                assert(upto.drop_last() =~= self@.snakes.take(i as int));
            }
            i += 1;
        }
        assert(self@.snakes.take(n as int) =~= self@.snakes);
        if let Some(fruit_pos) = self.fruit_pos {
            out.push(Rectangle { position: fruit_pos, size: SNAKE_SIZE, color: fruit_color() });
        }
        out
    }

    /// Lets the player called `player_name` act on the command `c`.
    ///
    /// A player who is not ready becomes ready on carriage return. A player
    /// who is ready stops being so on escape; while the match is played,
    /// `w`, `s`, `a` and `d` turn the player's snake up, down, left and
    /// right. Anything else changes nothing.
    pub fn handle_input(&mut self, player_name: &str, c: char)
        requires
            old(self)@.wf(),
            old(self)@.has_player(player_name@),
        ensures
            final(self)@ == old(self)@.input_applied(player_name@, c),
            final(self)@.wf(),
    {
        let i = match self.find_player(player_name) {
            Some(i) => i,
            None => {
                return ;
            },
        };
        match self.players[i].state {
            PlayerState::NotReady => {
                if c == ENTER {
                    self.players[i].state = PlayerState::Ready;
                    assert(self@.players =~= old(self)@.input_applied(player_name@, c).players);
                    assert(self@.player_names() =~= old(self)@.player_names());
                }
            },
            PlayerState::Ready => {
                if c == ESCAPE {
                    self.players[i].state = PlayerState::NotReady;
                    assert(self@.players =~= old(self)@.input_applied(player_name@, c).players);
                    assert(self@.player_names() =~= old(self)@.player_names());
                    return ;
                }
                let playing = match &self.state {
                    GameState::Playing => true,
                    _ => false,
                };
                if playing {
                    let direction = if c == 'w' {
                        Some(Direction::Up)
                    } else if c == 's' {
                        Some(Direction::Down)
                    } else if c == 'a' {
                        Some(Direction::Left)
                    } else if c == 'd' {
                        Some(Direction::Right)
                    } else {
                        None
                    };
                    if let Some(d) = direction {
                        assert(self@.snake_names()[i as int] == player_name@);
                        match self.find_snake(player_name) {
                            Some(k) => {
                                self.snakes[k].snake.change_direction(d);
                                assert(self@.snakes =~= old(self)@.input_applied(
                                    player_name@,
                                    c,
                                ).snakes);
                                assert(self@.snake_names() =~= old(self)@.snake_names());
                            },
                            None => {},
                        }
                    }
                }
            },
        }
    }
}

} // verus!
