//! What follows from the rules, whatever the match.

use crate::common::{MyVec2, PLAYER_COUNT_MAX, SCREEN_HEIGHT, SCREEN_WIDTH, SNAKE_SIZE};
use crate::game::game_core::PlayerState;
use crate::game::rules::{
    lemma_lower_bound_exists, lower_bound, FinishDetailsView, GameCoreView, GameStateView,
};
use crate::game::snake::{
    advance, lemma_advance_stays_on_field, lemma_wrap, Direction, SnakeView,
};
use crate::names::lemma_sorted_names_distinct;
use vstd::prelude::*;

verus! {

/// One thing that can happen to a snake in the course of a match.
pub enum SnakeStep {
    /// The snake counts a tick, and moves if its move is due.
    Tick,
    /// The snake grows by a segment.
    Grow,
}

/// The snake after `steps`, one after the other.
pub open spec fn after_steps(s: SnakeView, steps: Seq<SnakeStep>) -> SnakeView
    decreases steps.len(),
{
    if steps.len() == 0 {
        s
    } else {
        let before = after_steps(s, steps.drop_last());
        match steps.last() {
            SnakeStep::Tick => before.ticked(),
            SnakeStep::Grow => before.grown(),
        }
    }
}

/// How many of `steps` are growths.
pub open spec fn growths(steps: Seq<SnakeStep>) -> nat
    decreases steps.len(),
{
    if steps.len() == 0 {
        0
    } else {
        growths(steps.drop_last()) + if steps.last() is Grow {
            1nat
        } else {
            0nat
        }
    }
}

/// A step on the field moves one coordinate by one cell and leaves the
/// other. A step off the field comes back in at the other side: from
/// column 0 to the left into the last column, from the last column to the
/// right into column 0, and the same for the rows.
pub proof fn lemma_step_wraps(p: MyVec2)
    requires
        p.in_bounds(),
    ensures
        advance(p, Direction::Left) == (MyVec2 {
            x: (if p.x >= SNAKE_SIZE {
                p.x - SNAKE_SIZE
            } else {
                p.x - SNAKE_SIZE + SCREEN_WIDTH
            }) as i32,
            y: p.y,
        }),
        advance(p, Direction::Right) == (MyVec2 {
            x: (if p.x + SNAKE_SIZE < SCREEN_WIDTH {
                p.x + SNAKE_SIZE
            } else {
                p.x + SNAKE_SIZE - SCREEN_WIDTH
            }) as i32,
            y: p.y,
        }),
        advance(p, Direction::Up) == (MyVec2 {
            x: p.x,
            y: (if p.y >= SNAKE_SIZE {
                p.y - SNAKE_SIZE
            } else {
                p.y - SNAKE_SIZE + SCREEN_HEIGHT
            }) as i32,
        }),
        advance(p, Direction::Down) == (MyVec2 {
            x: p.x,
            y: (if p.y + SNAKE_SIZE < SCREEN_HEIGHT {
                p.y + SNAKE_SIZE
            } else {
                p.y + SNAKE_SIZE - SCREEN_HEIGHT
            }) as i32,
        }),
{
    lemma_wrap(p.x as int, SCREEN_WIDTH as int);
    lemma_wrap(p.x - SNAKE_SIZE, SCREEN_WIDTH as int);
    lemma_wrap(p.x + SNAKE_SIZE, SCREEN_WIDTH as int);
    lemma_wrap(p.y as int, SCREEN_HEIGHT as int);
    lemma_wrap(p.y - SNAKE_SIZE, SCREEN_HEIGHT as int);
    lemma_wrap(p.y + SNAKE_SIZE, SCREEN_HEIGHT as int);
}

/// A tick keeps a snake's length; a growth adds one segment. Neither takes
/// the head off the field or off the grid.
pub proof fn lemma_snake_step(s: SnakeView)
    requires
        s.inv(),
    ensures
        s.ticked().inv(),
        s.moved().inv(),
        s.grown().inv(),
        s.ticked().len() == s.len(),
        s.moved().len() == s.len(),
        s.grown().len() == s.len() + 1,
        s.grown().head() == s.head(),
        s.moved().head() == advance(s.head(), s.direction),
        !s.move_due() ==> s.ticked().positions == s.positions,
{
    lemma_advance_stays_on_field(s.head(), s.direction);
}

/// Whatever happens to a snake, and in whatever order: it stays a snake,
/// with its head on the field and on the grid; it never gets shorter; and
/// it gets longer by exactly the number of growths.
pub proof fn lemma_snake_never_shrinks(s: SnakeView, steps: Seq<SnakeStep>)
    requires
        s.inv(),
    ensures
        after_steps(s, steps).inv(),
        after_steps(s, steps).head().in_bounds(),
        after_steps(s, steps).head().grid_aligned(),
        after_steps(s, steps).len() >= s.len(),
        after_steps(s, steps).len() == s.len() + growths(steps),
    decreases steps.len(),
{
    if steps.len() > 0 {
        let earlier = steps.drop_last();
        lemma_snake_never_shrinks(s, earlier);
        lemma_snake_step(after_steps(s, earlier));
    }
}

/// A new snake has two segments, and its head is on the field. Made at a
/// position on the grid, it is a snake.
pub proof fn lemma_fresh_snake(color: crate::common::MyColor, pos: MyVec2)
    ensures
        pos.grid_aligned() ==> SnakeView::fresh(color, pos).inv(),
        SnakeView::fresh(color, pos).len() == 2,
        SnakeView::fresh(color, pos).head() == advance(pos, Direction::Left),
        SnakeView::fresh(color, pos).head().in_bounds(),
        SnakeView::fresh(color, pos).positions[1] == pos,
        SnakeView::fresh(color, pos).direction == Direction::Left,
{
    lemma_advance_stays_on_field(pos, Direction::Left);
}

/// A snake cannot be turned round on the spot, and a request for the
/// heading it has changes nothing either. A request across its heading is
/// taken up.
pub proof fn lemma_no_reversal(s: SnakeView, d: Direction)
    ensures
        s.turned(s.direction.reverse()) == s,
        s.turned(s.direction) == s,
        d.is_orthogonal_to(s.direction) ==> s.turned(d).direction == d,
        !d.is_orthogonal_to(s.direction) ==> s.turned(d).direction == s.direction,
        s.turned(d).positions == s.positions,
{
}

/// In a match of two snakes without a snake on its own tail: if the head
/// of the snake at `eater` lies on the fruit, and the head of a snake
/// before it in name order does not, then a look for collisions takes the
/// fruit away and lets that snake grow by exactly one segment. Nothing else
/// changes.
pub proof fn lemma_fruit_is_eaten(g: GameCoreView, eater: int)
    requires
        g.wf(),
        g.in_match(),
        0 <= eater < 2,
        g.fruit_pos matches Some(fruit) && g.snakes[eater].snake.head() == fruit,
        !g.snakes[0].snake.collides_self(),
        !g.snakes[1].snake.collides_self(),
        eater == 1 ==> g.snakes[0].snake.head() != g.fruit_pos->0,
    ensures
        g.resolved().fruit_pos is None,
        g.resolved().snakes.len() == 2,
        g.resolved().snakes[eater].snake == g.snakes[eater].snake.grown(),
        g.resolved().snakes[eater].snake.len() == g.snakes[eater].snake.len() + 1,
        g.resolved().snakes[eater].name == g.snakes[eater].name,
        g.resolved().snakes[1 - eater] == g.snakes[1 - eater],
        g.resolved().state == g.state,
        g.resolved().players == g.players,
{
    g.lemma_in_match_names();
    let name = g.snakes[eater].name;
    let k = g.snake_index(name);
    lemma_sorted_names_distinct(g.snake_names(), k, eater);
}

/// The match that ends with `winner`, or in a draw where there is none.
pub open spec fn ended(winner: Option<Seq<char>>) -> GameStateView {
    GameStateView::Finished(
        FinishDetailsView {
            draw: winner is None,
            winner: match winner {
                Some(w) => w,
                None => Seq::empty(),
            },
        },
    )
}

/// A snake on its own tail loses the match to the other player, whatever
/// else is on the field. Where both snakes lie on their own tails, the
/// first player in name order is the one who loses.
pub proof fn lemma_self_collision_loses(g: GameCoreView)
    requires
        g.wf(),
        g.in_match(),
        g.snakes[0].snake.collides_self() || g.snakes[1].snake.collides_self(),
    ensures
        g.snakes[0].snake.collides_self() ==> g.resolved().state == ended(
            Some(g.players[1].name),
        ),
        !g.snakes[0].snake.collides_self() ==> g.resolved().state == ended(
            Some(g.players[0].name),
        ),
        g.resolved().snakes == g.snakes,
        g.resolved().fruit_pos == g.fruit_pos,
        !g.resolved().all_ready(),
{
    g.lemma_in_match_names();
    lemma_finish_unreadies(g, Some(g.players[0].name));
    lemma_finish_unreadies(g, Some(g.players[1].name));
}

/// Where no snake lies on its own tail and no head lies on the fruit, two
/// heads on one cell end the match in a draw.
pub proof fn lemma_head_to_head_is_a_draw(g: GameCoreView)
    requires
        g.wf(),
        g.in_match(),
        !g.snakes[0].snake.collides_self(),
        !g.snakes[1].snake.collides_self(),
        g.fruit_pos matches Some(fruit) ==> g.snakes[0].snake.head() != fruit,
        g.snakes[0].snake.head() == g.snakes[1].snake.head(),
    ensures
        g.resolved().state == ended(None),
        g.resolved().snakes == g.snakes,
{
}

/// Where no snake lies on its own tail, no head lies on the fruit and the
/// heads are apart, a head on the other snake's tail loses the match to
/// the other player. Where each head lies on the other's tail, the first
/// player in name order is the one who loses.
pub proof fn lemma_head_on_tail_loses(g: GameCoreView)
    requires
        g.wf(),
        g.in_match(),
        !g.snakes[0].snake.collides_self(),
        !g.snakes[1].snake.collides_self(),
        g.fruit_pos matches Some(fruit) ==> g.snakes[0].snake.head() != fruit
            && g.snakes[1].snake.head() != fruit,
        g.snakes[0].snake.head() != g.snakes[1].snake.head(),
        g.snakes[1].snake.collides_tail(g.snakes[0].snake.head())
            || g.snakes[0].snake.collides_tail(g.snakes[1].snake.head()),
    ensures
        g.snakes[1].snake.collides_tail(g.snakes[0].snake.head()) ==> g.resolved().state
            == ended(Some(g.players[1].name)),
        !g.snakes[1].snake.collides_tail(g.snakes[0].snake.head()) ==> g.resolved().state
            == ended(Some(g.players[0].name)),
        g.resolved().snakes == g.snakes,
{
    g.lemma_in_match_names();
}

/// Where nothing collides, a look for collisions changes nothing.
pub proof fn lemma_no_collision(g: GameCoreView)
    requires
        g.wf(),
        g.in_match(),
        !g.snakes[0].snake.collides_self(),
        !g.snakes[1].snake.collides_self(),
        g.fruit_pos matches Some(fruit) ==> g.snakes[0].snake.head() != fruit
            && g.snakes[1].snake.head() != fruit,
        g.snakes[0].snake.head() != g.snakes[1].snake.head(),
        !g.snakes[1].snake.collides_tail(g.snakes[0].snake.head()),
        !g.snakes[0].snake.collides_tail(g.snakes[1].snake.head()),
    ensures
        g.resolved() == g,
{
}

/// From the lobby, with the full number of players and all of them ready,
/// one tick starts the match: it is played, and each player has a snake of
/// two segments heading left, the first player's with its head at (240,
/// 300), the second's with its head at (500, 300). The snakes share no
/// cell, and the tick places no fruit.
pub proof fn lemma_match_starts(g: GameCoreView)
    requires
        g.wf(),
        g.state is NotStarted,
        g.players.len() == PLAYER_COUNT_MAX,
        g.all_ready(),
    ensures
        g.advanced().state is Playing,
        !g.places_fruit(),
        g.advanced().wf(),
        g.advanced().players == g.players,
        g.advanced().fruit_pos == g.fruit_pos,
        g.advanced().snakes.len() == 2,
        g.advanced().snakes[0].name == g.players[0].name,
        g.advanced().snakes[1].name == g.players[1].name,
        g.advanced().snakes[0].snake.positions == seq![
            MyVec2 { x: 240, y: 300 },
            MyVec2 { x: 260, y: 300 },
        ],
        g.advanced().snakes[1].snake.positions == seq![
            MyVec2 { x: 500, y: 300 },
            MyVec2 { x: 520, y: 300 },
        ],
        g.advanced().snakes[0].snake.direction == Direction::Left,
        g.advanced().snakes[1].snake.direction == Direction::Left,
        forall|p: MyVec2|
            !(g.advanced().snakes[0].snake.collides_object(p)
                && g.advanced().snakes[1].snake.collides_object(p)),
{
    let h = g.advanced();
    let a = h.snakes[0].snake;
    let b = h.snakes[1].snake;
    assert(h.snake_names() =~= h.player_names());
    assert forall|p: MyVec2| !(a.collides_object(p) && b.collides_object(p)) by {
        if a.collides_object(p) && b.collides_object(p) {
            lemma_two_cells(a, p);
            lemma_two_cells(b, p);
        }
    }
}

/// A position that a snake of two segments lies on is one of the two.
proof fn lemma_two_cells(s: SnakeView, p: MyVec2)
    requires
        s.positions.len() == 2,
        s.collides_object(p),
    ensures
        p == s.positions[0] || p == s.positions[1],
{
    if s.collides_tail(p) {
        let k = choose|k: int| 0 <= k < s.tail().len() && s.tail()[k] == p;
    }
}

/// A match that is played is paused by the tick that finds a player not
/// ready, and a paused match is played again by the tick that finds the
/// full number of players ready. The snakes stay as they are in both.
pub proof fn lemma_pause_and_resume(g: GameCoreView)
    requires
        g.wf(),
    ensures
        g.state is Playing && !g.all_ready() ==> g.advanced() == (GameCoreView {
            state: GameStateView::Paused,
            ..g
        }),
        g.state is Paused && g.all_ready() ==> g.advanced() == (GameCoreView {
            state: GameStateView::Playing,
            ..g
        }),
        g.state is Paused && !g.all_ready() ==> g.advanced() == g,
{
}

/// After a match has ended no player is ready, whoever has won.
pub proof fn lemma_finish_unreadies(g: GameCoreView, winner: Option<Seq<char>>)
    ensures
        g.finished(winner).state is Finished,
        g.finished(winner).players.len() == g.players.len(),
        forall|i: int|
            0 <= i < g.players.len() ==> (#[trigger] g.finished(winner).players[i]).state
                == PlayerState::NotReady && g.finished(winner).players[i].name
                == g.players[i].name,
        g.players.len() > 0 ==> !g.finished(winner).all_ready(),
{
    if g.players.len() > 0 {
        assert(g.finished(winner).players[0].state == PlayerState::NotReady);
    }
}

/// A match that has ended goes back to the lobby with the tick that finds a
/// player missing.
pub proof fn lemma_finished_returns_to_lobby(g: GameCoreView)
    requires
        g.state is Finished,
        g.players.len() < PLAYER_COUNT_MAX,
    ensures
        g.advanced() == (GameCoreView { state: GameStateView::NotStarted, ..g }),
{
}

/// Registering one player leaves every other player as it is: there or
/// not, and ready or not.
pub proof fn lemma_joining_keeps_others(g: GameCoreView, name: Seq<char>, other: Seq<char>)
    requires
        g.wf(),
        other != name,
    ensures
        g.with_player(name).has_player(other) <==> g.has_player(other),
        g.has_player(other) ==> g.with_player(name).players[g.with_player(name).player_index(other)]
            == g.players[g.player_index(other)],
{
    let names = g.player_names();
    lemma_lower_bound_exists(names, name);
    let i = lower_bound(names, name);
    let after = g.with_player(name);
    let replaced = i < g.players.len() && g.players[i].name == name;
    if g.has_player(other) {
        let k = g.player_index(other);
        let k2 = if replaced || k < i {
            k
        } else {
            k + 1
        };
        assert(after.players[k2] == g.players[k]);
    }
    if after.has_player(other) {
        let j = after.player_index(other);
        let j0 = if replaced || j < i {
            j
        } else {
            j - 1
        };
        if g.has_player(other) {
            let k = g.player_index(other);
            lemma_sorted_names_distinct(names, j0, k);
        }
    }
}

/// Whoever leaves, the match is back in the lobby: not started, without
/// snakes and without a fruit, and the player is gone.
pub proof fn lemma_leaving_resets(g: GameCoreView, name: Seq<char>)
    requires
        g.wf(),
    ensures
        g.without_player(name).state is NotStarted,
        g.without_player(name).snakes.len() == 0,
        g.without_player(name).fruit_pos is None,
        !g.without_player(name).has_player(name),
{
    let after = g.without_player(name);
    if after.has_player(name) {
        let j = choose|j: int| 0 <= j < after.players.len() && after.players[j].name == name;
        let names = g.player_names();
        if g.has_player(name) {
            let i = g.player_index(name);
            let j0 = if j < i {
                j
            } else {
                j + 1
            };
            lemma_sorted_names_distinct(names, i, j0);
        }
    }
}

} // verus!
