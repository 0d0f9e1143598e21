//! One player's snake: its body on the grid, its heading, and the questions
//! the match asks of it.

use crate::common::{MyColor, MyVec2, SCREEN_HEIGHT, SCREEN_WIDTH, SNAKE_SIZE, SNAKE_TICKS_PER_MOVE};
use vstd::arithmetic::div_mod::{
    lemma_fundamental_div_mod, lemma_fundamental_div_mod_converse, lemma_mod_bound,
};
use vstd::prelude::*;

verus! {

/// The four headings a snake can have.
#[derive(Clone, Copy, PartialEq, Eq, Structural, Debug)]
pub enum Direction {
    Up,
    Down,
    Left,
    Right,
}

impl Direction {
    /// The heading runs along the horizontal axis.
    pub open spec fn is_horizontal(self) -> bool {
        self == Direction::Left || self == Direction::Right
    }

    /// The two headings run along different axes.
    pub open spec fn is_orthogonal_to(self, other: Direction) -> bool {
        self.is_horizontal() != other.is_horizontal()
    }

    /// The heading pointing the other way.
    pub open spec fn reverse(self) -> Direction {
        match self {
            Direction::Up => Direction::Down,
            Direction::Down => Direction::Up,
            Direction::Left => Direction::Right,
            Direction::Right => Direction::Left,
        }
    }
}

/// How the head of one snake meets another snake.
#[derive(Clone, Copy, PartialEq, Eq, Structural, Debug)]
pub enum SnakesColission {
    HeadToTailColission,
    HeadToHeadColission,
}

/// The coordinate `v` taken modulo `limit`, the extent of the field: a
/// coordinate on the field stays, one below 0 comes back in from the far
/// edge, one at the far edge or past it comes back in from 0.
pub open spec fn wrap(v: int, limit: int) -> int {
    v % limit
}

/// What [`wrap`] comes to for a coordinate that is off the field by less
/// than the field's extent, as it is after one step: it lies on the field;
/// below 0 it is `v + limit`, at or above `limit` it is `v - limit`.
pub proof fn lemma_wrap(v: int, limit: int)
    requires
        limit > 0,
    ensures
        0 <= wrap(v, limit) < limit,
        0 <= v < limit ==> wrap(v, limit) == v,
        -limit <= v < 0 ==> wrap(v, limit) == v + limit,
        limit <= v < 2 * limit ==> wrap(v, limit) == v - limit,
{
    lemma_mod_bound(v, limit);
    if 0 <= v < limit {
        lemma_fundamental_div_mod_converse(v, limit, 0, v);
    } else if -limit <= v < 0 {
        lemma_fundamental_div_mod_converse(v, limit, -1, v + limit);
    } else if limit <= v < 2 * limit {
        lemma_fundamental_div_mod_converse(v, limit, 1, v - limit);
    }
}

/// The coordinate `v` taken modulo `limit`.
fn wrap_coordinate(v: i64, limit: i32) -> (r: i32)
    requires
        limit > 0,
        v > i64::MIN,
    ensures
        r == wrap(v as int, limit as int),
{
    let extent = limit as i64;
    if v >= 0 {
        proof {
            lemma_mod_bound(v as int, limit as int);
        }
        (v % extent) as i32
    } else {
        let back = (-v) % extent;
        proof {
            let q = (-v) / (limit as int);
            lemma_mod_bound(-v, limit as int);
            lemma_fundamental_div_mod(-v, limit as int);
            if back == 0 {
                assert(v == (-q) * limit + 0) by (nonlinear_arith)
                    requires
                        -v == limit * q + 0,
                ;
                lemma_fundamental_div_mod_converse(v as int, limit as int, -q, 0);
            } else {
                assert(v == (-q - 1) * limit + (limit - back)) by (nonlinear_arith)
                    requires
                        -v == limit * q + back,
                ;
                lemma_fundamental_div_mod_converse(
                    v as int,
                    limit as int,
                    -q - 1,
                    limit - back,
                );
            }
        }
        if back == 0 {
            0
        } else {
            (extent - back) as i32
        }
    }
}

/// Where a head at `p` stands after one step towards `d`.
pub open spec fn advance(p: MyVec2, d: Direction) -> MyVec2 {
    let x = match d {
        Direction::Left => p.x - SNAKE_SIZE,
        Direction::Right => p.x + SNAKE_SIZE,
        _ => p.x as int,
    };
    let y = match d {
        Direction::Up => p.y - SNAKE_SIZE,
        Direction::Down => p.y + SNAKE_SIZE,
        _ => p.y as int,
    };
    MyVec2 { x: wrap(x, SCREEN_WIDTH as int) as i32, y: wrap(y, SCREEN_HEIGHT as int) as i32 }
}

/// A coordinate on the grid is on the grid after it is wrapped: the extent
/// of the field is a whole number of cells both ways.
pub proof fn lemma_wrap_keeps_grid(v: int)
    requires
        v % (SNAKE_SIZE as int) == 0,
    ensures
        wrap(v, SCREEN_WIDTH as int) % (SNAKE_SIZE as int) == 0,
        wrap(v, SCREEN_HEIGHT as int) % (SNAKE_SIZE as int) == 0,
{
}

/// Wherever a step starts, it ends on the field; and a step from a
/// position on the grid ends on the grid.
pub proof fn lemma_advance_stays_on_field(p: MyVec2, d: Direction)
    ensures
        advance(p, d).in_bounds(),
        p.grid_aligned() ==> advance(p, d).grid_aligned(),
{
    if p.grid_aligned() {
        lemma_wrap_keeps_grid(p.x as int);
        lemma_wrap_keeps_grid(p.x - SNAKE_SIZE);
        lemma_wrap_keeps_grid(p.x + SNAKE_SIZE);
        lemma_wrap_keeps_grid(p.y as int);
        lemma_wrap_keeps_grid(p.y - SNAKE_SIZE);
        lemma_wrap_keeps_grid(p.y + SNAKE_SIZE);
    }
}

/// A filled square to be drawn: its top left corner, the length of its
/// edges and its colour.
#[derive(Clone, Copy, PartialEq, Eq, Structural, Debug)]
pub struct Rectangle {
    pub position: MyVec2,
    pub size: i32,
    pub color: MyColor,
}

/// What a snake is, as a value: the head is `positions[0]`, the rest is the tail.
pub struct SnakeView {
    /// The segments, head first.
    pub positions: Seq<MyVec2>,
    /// The cell that the tail left at the last move. A growth fills it.
    pub previous_tail_position: MyVec2,
    pub direction: Direction,
    pub color: MyColor,
    /// Ticks counted since the last move.
    pub update_counter: u32,
}

impl SnakeView {
    /// What holds of every snake: it has a head, and the head lies on the
    /// field and on the grid.
    pub open spec fn inv(self) -> bool {
        &&& self.positions.len() >= 1
        &&& self.positions[0].in_bounds()
        &&& self.positions[0].grid_aligned()
    }

    /// The first segment.
    pub open spec fn head(self) -> MyVec2 {
        self.positions[0]
    }

    /// Every segment but the head.
    pub open spec fn tail(self) -> Seq<MyVec2> {
        self.positions.subrange(1, self.positions.len() as int)
    }

    /// Number of segments, the head included.
    pub open spec fn len(self) -> nat {
        self.positions.len()
    }

    /// The one-segment snake that construction starts from.
    pub open spec fn seed(color: MyColor, pos: MyVec2) -> SnakeView {
        SnakeView {
            positions: seq![pos],
            previous_tail_position: pos,
            direction: Direction::Left,
            color,
            update_counter: 0,
        }
    }

    /// A freshly made snake: the seed after one move and one growth, so two
    /// segments, with the head one cell to the left of `pos`.
    pub open spec fn fresh(color: MyColor, pos: MyVec2) -> SnakeView {
        Self::seed(color, pos).moved().grown()
    }

    /// The snake after one move: the head advances, each other segment takes
    /// the place of the one before it, and the cell the tail left is noted.
    pub open spec fn moved(self) -> SnakeView {
        SnakeView {
            positions: Seq::new(
                self.positions.len(),
                |i: int|
                    if i == 0 {
                        advance(self.positions[0], self.direction)
                    } else {
                        self.positions[i - 1]
                    },
            ),
            previous_tail_position: self.positions.last(),
            ..self
        }
    }

    /// The counter after one more tick. It counts the ticks since the last
    /// move and starts over when a move is due.
    pub open spec fn next_counter(self) -> u32 {
        ((self.update_counter % SNAKE_TICKS_PER_MOVE + 1) % SNAKE_TICKS_PER_MOVE as int) as u32
    }

    /// This tick is one on which the snake moves.
    pub open spec fn move_due(self) -> bool {
        self.next_counter() == 0
    }

    /// The snake after one tick: it moves on every [`SNAKE_TICKS_PER_MOVE`]th.
    pub open spec fn ticked(self) -> SnakeView {
        let counted = SnakeView { update_counter: self.next_counter(), ..self };
        if self.move_due() {
            counted.moved()
        } else {
            counted
        }
    }

    /// The snake with one more segment, on the cell its tail left last.
    pub open spec fn grown(self) -> SnakeView {
        SnakeView { positions: self.positions.push(self.previous_tail_position), ..self }
    }

    /// The snake after a request to head towards `d`: taken up if `d` runs
    /// across the present heading, ignored otherwise.
    pub open spec fn turned(self, d: Direction) -> SnakeView {
        if d.is_orthogonal_to(self.direction) {
            SnakeView { direction: d, ..self }
        } else {
            self
        }
    }

    /// The squares that show the snake: one per segment, head first.
    pub open spec fn rectangles(self) -> Seq<Rectangle> {
        self.positions.map_values(
            |p: MyVec2| Rectangle { position: p, size: SNAKE_SIZE, color: self.color },
        )
    }

    /// The head lies on `object`.
    pub open spec fn collides_head(self, object: MyVec2) -> bool {
        self.head() == object
    }

    /// A segment of the tail lies on `object`.
    pub open spec fn collides_tail(self, object: MyVec2) -> bool {
        self.tail().contains(object)
    }

    /// The head lies on a cell of the snake's own tail.
    pub open spec fn collides_self(self) -> bool {
        self.collides_tail(self.head())
    }

    /// Some segment lies on `object`.
    pub open spec fn collides_object(self, object: MyVec2) -> bool {
        self.collides_head(object) || self.collides_tail(object)
    }

    /// How this snake's head meets `other`, if it does. A meeting of the two
    /// heads is reported before one of head and tail.
    pub open spec fn collides_other(self, other: SnakeView) -> Option<SnakesColission> {
        if other.collides_head(self.head()) {
            Some(SnakesColission::HeadToHeadColission)
        } else if other.collides_tail(self.head()) {
            Some(SnakesColission::HeadToTailColission)
        } else {
            None
        }
    }
}

/// The body of one player's snake.
#[derive(Debug)]
pub struct Snake {
    positions: Vec<MyVec2>,
    previous_tail_position: MyVec2,
    direction: Direction,
    color: MyColor,
    update_counter: u32,
}

impl View for Snake {
    type V = SnakeView;

    closed spec fn view(&self) -> SnakeView {
        SnakeView {
            positions: self.positions@,
            previous_tail_position: self.previous_tail_position,
            direction: self.direction,
            color: self.color,
            update_counter: self.update_counter,
        }
    }
}

impl Clone for Snake {
    fn clone(&self) -> (r: Self)
        ensures
            r@ == self@,
    {
        Self {
            positions: self.positions.clone(),
            previous_tail_position: self.previous_tail_position,
            direction: self.direction,
            color: self.color,
            update_counter: self.update_counter,
        }
    }
}

impl Snake {
    /// A snake of two segments heading left, its head one cell to the left
    /// of `pos`, which is a position on the grid.
    pub fn new(color: MyColor, pos: MyVec2) -> (s: Self)
        requires
            pos.grid_aligned(),
        ensures
            s@ == SnakeView::fresh(color, pos),
            s@.inv(),
    {
        let mut positions: Vec<MyVec2> = Vec::new();
        positions.push(pos);
        let mut ret = Self {
            direction: Direction::Left,
            previous_tail_position: pos,
            positions,
            color,
            update_counter: 0,
        };
        ret.step();
        ret.grow();
        ret
    }

    /// Builds a snake from its parts, or nothing where they make no snake:
    /// where `positions` is empty, or its first element lies off the field
    /// or off the grid.
    pub fn from_parts(
        positions: Vec<MyVec2>,
        previous_tail_position: MyVec2,
        direction: Direction,
        color: MyColor,
        update_counter: u32,
    ) -> (r: Option<Self>)
        ensures
            r is Some <==> (SnakeView {
                positions: positions@,
                previous_tail_position,
                direction,
                color,
                update_counter,
            }).inv(),
            r matches Some(s) ==> s@ == (SnakeView {
                positions: positions@,
                previous_tail_position,
                direction,
                color,
                update_counter,
            }),
    {
        let s = Self { positions, previous_tail_position, direction, color, update_counter };
        if s.is_valid() {
            Some(s)
        } else {
            None
        }
    }

    /// Whether this is a snake as the functions here leave one behind: see
    /// [`SnakeView::inv`].
    pub fn is_valid(&self) -> (r: bool)
        ensures
            r == self@.inv(),
    {
        if self.positions.len() == 0 {
            return false;
        }
        let head = self.positions[0];
        0 <= head.x && head.x < SCREEN_WIDTH && 0 <= head.y && head.y < SCREEN_HEIGHT && head.x
            % SNAKE_SIZE == 0 && head.y % SNAKE_SIZE == 0
    }

    /// Where the head is.
    pub fn get_head_pos(&self) -> (p: MyVec2)
        requires
            self@.inv(),
        ensures
            p == self@.head(),
    {
        self.positions[0]
    }

    /// Every segment but the head.
    pub fn get_tail(&self) -> (t: &[MyVec2])
        requires
            self@.inv(),
        ensures
            t@ == self@.tail(),
    {
        vstd::slice::slice_subrange(self.positions.as_slice(), 1, self.positions.len())
    }

    /// All segments, head first.
    pub fn positions(&self) -> (v: &Vec<MyVec2>)
        ensures
            v@ == self@.positions,
    {
        &self.positions
    }

    /// The cell that the tail left at the last move.
    pub fn previous_tail_position(&self) -> (p: MyVec2)
        ensures
            p == self@.previous_tail_position,
    {
        self.previous_tail_position
    }

    /// The heading.
    pub fn direction(&self) -> (d: Direction)
        ensures
            d == self@.direction,
    {
        self.direction
    }

    /// The colour the snake is drawn in.
    pub fn color(&self) -> (c: MyColor)
        ensures
            c == self@.color,
    {
        self.color
    }

    /// Ticks counted since the last move.
    pub fn update_counter(&self) -> (c: u32)
        ensures
            c == self@.update_counter,
    {
        self.update_counter
    }

    /// Number of segments, the head included.
    pub fn len(&self) -> (n: usize)
        ensures
            n == self@.len(),
    {
        self.positions.len()
    }

    /// Moves the snake by one cell.
    pub fn move_step(&mut self)
        requires
            old(self)@.inv(),
        ensures
            final(self)@ == old(self)@.moved(),
            final(self)@.inv(),
    {
        self.step();
    }

    /// Moves a body of at least one segment by one cell.
    fn step(&mut self)
        requires
            old(self)@.positions.len() >= 1,
        ensures
            final(self)@ == old(self)@.moved(),
            old(self)@.positions[0].grid_aligned() ==> final(self)@.inv(),
    {
        let n = self.positions.len();
        self.previous_tail_position = self.positions[n - 1];
        let mut i: usize = n - 1;
        while i > 0
            invariant
                i < n,
                n == self.positions@.len(),
                n == old(self).positions@.len(),
                forall|j: int| 0 <= j <= i ==> self.positions@[j] == old(self).positions@[j],
                forall|j: int| i < j < n ==> self.positions@[j] == old(self).positions@[j - 1],
                self.previous_tail_position == old(self).positions@.last(),
                self.direction == old(self).direction,
                self.color == old(self).color,
                self.update_counter == old(self).update_counter,
            decreases i,
        {
            let before = self.positions[i - 1];
            self.positions[i] = before;
            i -= 1;
        }
        let head = self.positions[0];
        let mut x: i64 = head.x as i64;
        let mut y: i64 = head.y as i64;
        match self.direction {
            Direction::Up => {
                y = y - SNAKE_SIZE as i64;
            },
            Direction::Down => {
                y = y + SNAKE_SIZE as i64;
            },
            Direction::Left => {
                x = x - SNAKE_SIZE as i64;
            },
            Direction::Right => {
                x = x + SNAKE_SIZE as i64;
            },
        }
        proof {
            lemma_advance_stays_on_field(head, self.direction);
        }
        self.positions[0] = MyVec2 {
            x: wrap_coordinate(x, SCREEN_WIDTH),
            y: wrap_coordinate(y, SCREEN_HEIGHT),
        };
        assert(self.positions@ =~= old(self)@.moved().positions);
    }

    /// Counts one tick, and moves the snake if this is a tick on which it moves.
    pub fn move_step_tick(&mut self)
        requires
            old(self)@.inv(),
        ensures
            final(self)@ == old(self)@.ticked(),
            final(self)@.inv(),
    {
        let next = (self.update_counter % SNAKE_TICKS_PER_MOVE + 1) % SNAKE_TICKS_PER_MOVE;
        self.update_counter = next;
        if next != 0 {
            return ;
        }
        self.move_step();
    }

    /// Appends a segment on the cell the tail left at the last move.
    pub fn grow(&mut self)
        ensures
            final(self)@ == old(self)@.grown(),
            old(self)@.inv() ==> final(self)@.inv(),
    {
        self.positions.push(self.previous_tail_position);
    }

    /// The squares to draw for this snake, head first.
    pub fn draw(&self) -> (r: Vec<Rectangle>)
        ensures
            r@ == self@.rectangles(),
    {
        let mut out: Vec<Rectangle> = Vec::new();
        let n = self.positions.len();
        let mut i: usize = 0;
        while i < n
            invariant
                i <= n,
                n == self.positions@.len(),
                out@ == self@.rectangles().take(i as int),
            decreases n - i,
        {
            out.push(Rectangle { position: self.positions[i], size: SNAKE_SIZE, color: self.color });
            i += 1;
        }
        out
    }

    /// Turns the snake towards `direction` if that runs across its present
    /// heading; a request along the present axis changes nothing.
    pub fn change_direction(&mut self, direction: Direction)
        ensures
            final(self)@ == old(self)@.turned(direction),
            old(self)@.inv() ==> final(self)@.inv(),
    {
        match self.direction {
            Direction::Left | Direction::Right => match direction {
                Direction::Down | Direction::Up => {
                    self.direction = direction;
                },
                _ => {},
            },
            Direction::Up | Direction::Down => match direction {
                Direction::Left | Direction::Right => {
                    self.direction = direction;
                },
                _ => {},
            },
        }
    }

    /// Whether the head lies on `object`.
    pub fn collides_head(&self, object: &MyVec2) -> (r: bool)
        requires
            self@.inv(),
        ensures
            r == self@.collides_head(*object),
    {
        self.get_head_pos() == *object
    }

    /// Whether a segment of the tail lies on `object`.
    pub fn collides_tail(&self, object: &MyVec2) -> (r: bool)
        requires
            self@.inv(),
        ensures
            r == self@.collides_tail(*object),
    {
        let n = self.positions.len();
        let mut i: usize = 1;
        while i < n
            invariant
                1 <= i <= n,
                n == self.positions@.len(),
                forall|j: int| 1 <= j < i ==> self.positions@[j] != *object,
            decreases n - i,
        {
            if self.positions[i] == *object {
                assert(self@.tail()[i - 1] == *object);
                return true;
            }
            i += 1;
        }
        assert forall|k: int| 0 <= k < self@.tail().len() implies self@.tail()[k] != *object by {
            assert(self@.tail()[k] == self.positions@[k + 1]);
        }
        false
    }

    /// Whether the head lies on the snake's own tail.
    pub fn collides_self(&self) -> (r: bool)
        requires
            self@.inv(),
        ensures
            r == self@.collides_self(),
    {
        let head_pos = self.get_head_pos();
        self.collides_tail(&head_pos)
    }

    /// How this snake's head meets `other`, if it does.
    pub fn collides_other(&self, other: &Snake) -> (r: Option<SnakesColission>)
        requires
            self@.inv(),
            other@.inv(),
        ensures
            r == self@.collides_other(other@),
    {
        let head_pos = self.get_head_pos();
        if other.collides_head(&head_pos) {
            return Some(SnakesColission::HeadToHeadColission);
        }
        if other.collides_tail(&head_pos) {
            return Some(SnakesColission::HeadToTailColission);
        }
        None
    }

    /// Whether any segment lies on `object`.
    pub fn collides_object(&self, object: &MyVec2) -> (r: bool)
        requires
            self@.inv(),
        ensures
            r == self@.collides_object(*object),
    {
        self.collides_head(object) || self.collides_tail(object)
    }
}

} // verus!
