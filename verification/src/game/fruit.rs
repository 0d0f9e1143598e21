//! Where a new fruit may go, and the choice among those places.
//!
//! A fruit lies on one cell of the grid that covers the field. It may only be
//! put on a cell that no snake has a segment on. Cells are drawn at random
//! until one is free. So that this ends whatever is drawn, the number of
//! draws is bounded; after that many in vain, the free cells are listed row
//! by row and one of them is drawn.

use crate::common::{MyVec2, SCREEN_HEIGHT, SCREEN_WIDTH, SNAKE_SIZE};
use crate::game::game_core::GameCore;
use crate::game::rules::GameCoreView;
use rand::Rng;
use vstd::prelude::*;

verus! {

/// Cells in one row of the grid.
pub const FRUIT_COLUMNS: usize = 40;

/// Rows of the grid.
pub const FRUIT_ROWS: usize = 30;

/// Cells of the grid.
pub const FRUIT_CELLS: usize = 1200;

/// How many cells are drawn in the hope of a free one before a free one is
/// drawn from the list of free cells.
pub const FRUIT_ATTEMPTS: usize = 64;

/// The top left corner of cell `c`, the cells counted row by row.
pub open spec fn cell_position(c: int) -> MyVec2 {
    MyVec2 {
        x: (SNAKE_SIZE * (c % FRUIT_COLUMNS as int)) as i32,
        y: (SNAKE_SIZE * (c / FRUIT_COLUMNS as int)) as i32,
    }
}

/// `p` is the corner of a cell of the grid.
pub open spec fn is_cell(p: MyVec2) -> bool {
    &&& p.grid_aligned()
    &&& p.in_bounds()
}

/// The number of the cell whose corner is `p`.
pub open spec fn cell_number(p: MyVec2) -> int {
    (p.y as int / SNAKE_SIZE as int) * FRUIT_COLUMNS as int + p.x as int / SNAKE_SIZE as int
}

/// The top left corner of the cell in column `column` of row `row`.
pub fn cell_at(column: u32, row: u32) -> (pos: MyVec2)
    requires
        column < FRUIT_COLUMNS,
        row < FRUIT_ROWS,
    ensures
        pos == cell_position(row * FRUIT_COLUMNS + column),
        is_cell(pos),
{
    MyVec2 { x: SNAKE_SIZE * (column as i32), y: SNAKE_SIZE * (row as i32) }
}

/// A cell of the grid, drawn at random: its column and its row are drawn
/// one after the other.
pub fn generate_fruit_pos() -> (pos: MyVec2)
    ensures
        is_cell(pos),
{
    let column = random_below(FRUIT_COLUMNS as u32);
    let row = random_below(FRUIT_ROWS as u32);
    cell_at(column, row)
}

/// Whether `p` is the corner of a cell of the grid.
pub fn is_grid_cell(p: &MyVec2) -> (r: bool)
    ensures
        r == is_cell(*p),
{
    0 <= p.x && p.x < SCREEN_WIDTH && 0 <= p.y && p.y < SCREEN_HEIGHT && p.x % SNAKE_SIZE == 0
        && p.y % SNAKE_SIZE == 0
}

impl GameCoreView {
    /// The free cells among the first `c` cells, in the order of the grid.
    pub open spec fn free_cells_upto(self, c: int) -> Seq<MyVec2>
        decreases c,
    {
        if c <= 0 {
            Seq::empty()
        } else {
            let before = self.free_cells_upto(c - 1);
            if self.is_free(cell_position(c - 1)) {
                before.push(cell_position(c - 1))
            } else {
                before
            }
        }
    }

    /// All free cells, in the order of the grid.
    pub open spec fn free_cells(self) -> Seq<MyVec2> {
        self.free_cells_upto(FRUIT_CELLS as int)
    }

    /// `fruit` is what placing a fruit may leave behind: a free cell, or
    /// nothing where no cell is free.
    pub open spec fn fruit_placed(self, fruit: Option<MyVec2>) -> bool {
        match fruit {
            Some(p) => self.free_cells().contains(p),
            None => self.free_cells().len() == 0,
        }
    }

    /// `after` is what one tick can make of this match: what the rules say,
    /// and where the tick ends with the placing of a fruit, with a fruit on
    /// any free cell, or with none if no cell is free.
    pub open spec fn ticks_to(self, after: GameCoreView) -> bool {
        if self.places_fruit() {
            &&& after == (GameCoreView { fruit_pos: after.fruit_pos, ..self.advanced() })
            &&& self.advanced().fruit_placed(after.fruit_pos)
        } else {
            after == self.advanced()
        }
    }

    /// The match with the fruit on the free cell number `pick`.
    pub open spec fn with_fruit(self, pick: int) -> GameCoreView {
        GameCoreView { fruit_pos: Some(self.free_cells()[pick]), ..self }
    }

    /// The free cells among the first `c` are exactly the cells among them
    /// that no snake lies on.
    pub proof fn lemma_free_cells_upto(self, c: int, p: MyVec2)
        requires
            0 <= c <= FRUIT_CELLS,
        ensures
            self.free_cells_upto(c).len() <= c,
            self.free_cells_upto(c).contains(p) <==> is_cell(p) && cell_number(p) < c
                && self.is_free(p),
        decreases c,
    {
        if c > 0 {
            self.lemma_free_cells_upto(c - 1, p);
            let before = self.free_cells_upto(c - 1);
            let q = cell_position(c - 1);
            if self.is_free(q) {
                let now = before.push(q);
                assert(now[before.len() as int] == q);
                if before.contains(p) {
                    let k = choose|k: int| 0 <= k < before.len() && before[k] == p;
                    assert(now[k] == p);
                }
            }
        }
    }

    /// A position is among the free cells exactly if it is a cell of the
    /// grid that no snake lies on.
    pub proof fn lemma_free_cells(self, p: MyVec2)
        ensures
            self.free_cells().contains(p) <==> is_cell(p) && self.is_free(p),
    {
        self.lemma_free_cells_upto(FRUIT_CELLS as int, p);
    }

    /// There are no more free cells than cells.
    pub proof fn lemma_free_cells_len(self)
        ensures
            self.free_cells().len() <= FRUIT_CELLS,
    {
        self.lemma_free_cells_upto(FRUIT_CELLS as int, cell_position(0));
    }
}

/// Draws a number below `n` with `rand::Rng::random_range` on the generator
/// of the calling thread, `rand::rng()`. Of the number drawn the contract
/// says only that it is below `n`; which one it is depends on chance.
#[verifier::external_body]
fn random_below(n: u32) -> (r: u32)
    requires
        n > 0,
    ensures
        r < n,
{
    rand::rng().random_range(0..n)
}

impl GameCore {
    /// Whether no snake has a segment on `p`.
    pub fn is_free(&self, p: &MyVec2) -> (r: bool)
        requires
            self@.wf(),
        ensures
            r == self@.is_free(*p),
    {
        let n = self.snakes.len();
        let mut i: usize = 0;
        while i < n
            invariant
                i <= n,
                n == self.snakes@.len(),
                self@.wf(),
                forall|j: int|
                    0 <= j < i ==> !(#[trigger] self@.snakes[j]).snake.collides_object(*p),
            decreases n - i,
        {
            assert(self@.snakes[i as int].snake == self.snakes@[i as int].snake@);
            if self.snakes[i].snake.collides_object(p) {
                return false;
            }
            i += 1;
        }
        true
    }

    /// The cells that no snake lies on, in the order of the grid.
    pub fn free_cells(&self) -> (cells: Vec<MyVec2>)
        requires
            self@.wf(),
        ensures
            cells@ == self@.free_cells(),
    {
        let mut cells: Vec<MyVec2> = Vec::new();
        let mut c: usize = 0;
        while c < FRUIT_CELLS
            invariant
                c <= FRUIT_CELLS,
                self@.wf(),
                cells@ == self@.free_cells_upto(c as int),
            decreases FRUIT_CELLS - c,
        {
            let p = cell_at((c % FRUIT_COLUMNS) as u32, (c / FRUIT_COLUMNS) as u32);
            if self.is_free(&p) {
                cells.push(p);
            }
            c += 1;
        }
        cells
    }

    /// Puts the fruit on the free cell number `pick`, the free cells counted
    /// in the order of the grid from 0.
    pub fn place_fruit(&mut self, pick: usize)
        requires
            old(self)@.wf(),
            pick < old(self)@.free_cells().len(),
        ensures
            final(self)@ == old(self)@.with_fruit(pick as int),
            final(self)@.wf(),
    {
        let cells = self.free_cells();
        proof {
            self@.lemma_free_cells(cells@[pick as int]);
        }
        self.fruit_pos = Some(cells[pick]);
    }

    /// Puts the fruit on a free cell drawn at random: cells are drawn until
    /// one is free, and after [`FRUIT_ATTEMPTS`] draws in vain one of the
    /// free cells is drawn. Where no cell is free, no fruit is left.
    pub fn update_fruit_pos(&mut self)
        requires
            old(self)@.wf(),
        ensures
            final(self)@ == (GameCoreView { fruit_pos: final(self)@.fruit_pos, ..old(self)@ }),
            old(self)@.fruit_placed(final(self)@.fruit_pos),
            final(self)@.wf(),
    {
        let mut attempts: usize = FRUIT_ATTEMPTS;
        while attempts > 0
            invariant
                *self == *old(self),
                self@.wf(),
            decreases attempts,
        {
            let new_fruit_pos = generate_fruit_pos();
            if self.is_free(&new_fruit_pos) {
                proof {
                    self@.lemma_free_cells(new_fruit_pos);
                }
                self.fruit_pos = Some(new_fruit_pos);
                return ;
            }
            attempts -= 1;
        }
        let free = self.free_cells().len();
        proof {
            self@.lemma_free_cells_len();
        }
        if free == 0 {
            self.fruit_pos = None;
        } else {
            let pick = random_below(free as u32);
            self.place_fruit(pick as usize);
        }
    }
}

} // verus!
