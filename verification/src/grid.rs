//! The grid engine: cell storage, neighbor counting, the generation
//! transition rule, single-cell activation, and pointer hit-testing.
use vstd::prelude::*;

verus! {

/// Side length of the square grid.
pub const SIZE: usize = 32;

/// Number of cells in the grid.
pub const CELL_COUNT: usize = SIZE * SIZE;

/// One cell of the grid: a plain binary state, copied freely.
#[derive(Clone, Copy, Debug, PartialEq, Eq, Structural)]
pub enum Cell {
    Unpopulated,
    Populated,
}

impl Default for Cell {
    fn default() -> (c: Self)
        ensures
            c == Cell::Unpopulated,
    {
        Cell::Unpopulated
    }
}

/// A cell-activation intent emitted by the edit session.
#[derive(Clone, Copy, Debug, PartialEq, Eq, Structural)]
pub enum Message {
    Populate { i: usize, j: usize },
}

/// Position of cell (i, j) in the row-major cell sequence.
pub open spec fn idx(i: int, j: int) -> int {
    i * (SIZE as int) + j
}

/// A sequence is grid-shaped when it holds exactly one cell per position.
pub open spec fn wf_cells(s: Seq<Cell>) -> bool {
    s.len() == CELL_COUNT
}

/// 1 if (i, j) is in bounds and populated, else 0.
pub open spec fn occupied(s: Seq<Cell>, i: int, j: int) -> int {
    if 0 <= i < (SIZE as int) && 0 <= j < (SIZE as int) && s[idx(i, j)] == Cell::Populated {
        1int
    } else {
        0int
    }
}

/// Number of populated cells among the up-to-8 neighbors of (i, j);
/// positions outside the grid are excluded, never wrapped around.
pub open spec fn neighbor_count(s: Seq<Cell>, i: int, j: int) -> int {
    occupied(s, i - 1, j - 1) + occupied(s, i - 1, j) + occupied(s, i - 1, j + 1)
        + occupied(s, i, j - 1) + occupied(s, i, j + 1)
        + occupied(s, i + 1, j - 1) + occupied(s, i + 1, j) + occupied(s, i + 1, j + 1)
}

/// The transition rule: survival on 2 or 3 neighbors, birth on exactly 3.
pub open spec fn next_cell(c: Cell, neighbors: int) -> Cell {
    if neighbors == 3 || (neighbors == 2 && c == Cell::Populated) {
        Cell::Populated
    } else {
        Cell::Unpopulated
    }
}

/// One whole generation: every cell transitions simultaneously, each from
/// the same snapshot of the previous generation.
pub open spec fn step(s: Seq<Cell>) -> Seq<Cell> {
    Seq::new(
        CELL_COUNT as nat,
        |k: int| next_cell(s[k], neighbor_count(s, k / (SIZE as int), k % (SIZE as int))),
    )
}

/// The all-unpopulated grid contents.
pub open spec fn blank() -> Seq<Cell> {
    Seq::new(CELL_COUNT as nat, |k: int| Cell::Unpopulated)
}

/// The largest centered square inside a viewport; all hit-testing is done
/// against this square, never the raw viewport.
#[derive(Clone, Copy, Debug, PartialEq, Eq, Structural)]
pub struct Region {
    pub x: u32,
    pub y: u32,
    pub side: u32,
}

/// The centered square drawing region for a viewport of the given size.
pub open spec fn region_of(width: u32, height: u32) -> Region {
    let side = if width <= height {
        width
    } else {
        height
    };
    Region {
        x: (((width - side) / 2) as u32),
        y: (((height - side) / 2) as u32),
        side,
    }
}

/// Whether a position lies inside the region (half-open on both axes).
pub open spec fn region_contains(r: Region, px: u32, py: u32) -> bool {
    r.x <= px < r.x + r.side && r.y <= py < r.y + r.side
}

/// The cell coordinate hit by an offset of d into a region of the given
/// side length: the cell whose span covers d, with positions on a cell
/// boundary snapped to the cell ending there (and offset 0 to cell 0).
pub open spec fn hit_coord(d: int, side: int) -> int {
    let c = (d * (SIZE as int) + side - 1) / side;
    if c <= 1 {
        0int
    } else {
        c - 1
    }
}

/// A pointer-contact event, in the coordinate space of the viewport.
#[derive(Clone, Copy, Debug, PartialEq, Eq, Structural)]
pub enum PointerEvent {
    LeftPressed,
    LeftReleased,
    CursorMoved,
}

/// Whether the edit session consumed an event or passed it on unhandled.
#[derive(Clone, Copy, Debug, PartialEq, Eq, Structural)]
pub enum Status {
    Captured,
    Ignored,
}

/// The drag flag after an event: pressing starts a drag, releasing always
/// ends it, moving leaves it as it was.
pub open spec fn pressed_after(event: PointerEvent, before: bool) -> bool {
    match event {
        PointerEvent::LeftPressed => true,
        PointerEvent::LeftReleased => false,
        PointerEvent::CursorMoved => before,
    }
}

/// The activation intent for a hit cell: only an unpopulated cell yields
/// one — dragging never de-populates.
pub open spec fn populate_intent(s: Seq<Cell>, i: int, j: int) -> Option<Message> {
    if s[idx(i, j)] != Cell::Populated {
        Some(Message::Populate { i: i as usize, j: j as usize })
    } else {
        None
    }
}

/// What the edit session answers for one pointer event over grid contents
/// s, given the drag flag as it stood before the event.
pub open spec fn pointer_response(
    s: Seq<Cell>,
    pressed_before: bool,
    event: PointerEvent,
    width: u32,
    height: u32,
    cursor: Option<(u32, u32)>,
) -> (Status, Option<Message>) {
    let pressed = pressed_after(event, pressed_before);
    let r = region_of(width, height);
    match cursor {
        None => (Status::Ignored, None),
        Some(pos) => if !region_contains(r, pos.0, pos.1) {
            (Status::Ignored, None)
        } else {
            let i = hit_coord(pos.1 - r.y, r.side as int);
            let j = hit_coord(pos.0 - r.x, r.side as int);
            let intent = populate_intent(s, i, j);
            match event {
                PointerEvent::LeftPressed => (Status::Captured, intent),
                PointerEvent::CursorMoved => if pressed {
                    (Status::Captured, intent)
                } else {
                    (Status::Ignored, None)
                },
                PointerEvent::LeftReleased => (Status::Ignored, None),
            }
        },
    }
}

/// The square cell matrix together with the edit-session drag flag and the
/// render-cache dirty signal.
pub struct Grid {
    cells: Vec<Cell>,
    mouse_pressed: bool,
    dirty: bool,
}

impl View for Grid {
    type V = Seq<Cell>;

    closed spec fn view(&self) -> Seq<Cell> {
        self.cells@
    }
}

impl Grid {
    /// Whether a left-button drag is currently in progress.
    pub closed spec fn pressed(&self) -> bool {
        self.mouse_pressed
    }

    /// Whether the grid has mutated since it was last rendered.
    pub closed spec fn is_dirty(&self) -> bool {
        self.dirty
    }

    pub open spec fn wf(&self) -> bool {
        wf_cells(self@)
    }

    /// A fresh, fully unpopulated grid.
    pub fn new() -> (g: Grid)
        ensures
            g.wf(),
            g@ == blank(),
            !g.pressed(),
            g.is_dirty(),
    {
        let mut cells: Vec<Cell> = Vec::new();
        let mut k: usize = 0;
        while k < CELL_COUNT
            invariant
                k <= CELL_COUNT,
                cells@.len() == k,
                forall|m: int| 0 <= m < k ==> cells@[m] == Cell::Unpopulated,
            decreases CELL_COUNT - k,
        {
            cells.push(Cell::Unpopulated);
            k = k + 1;
        }
        proof {
            assert(cells@ =~= blank());
        }
        Grid { cells, mouse_pressed: false, dirty: true }
    }

    /// A grid built from one populated/unpopulated decision per cell, in
    /// row-major order. A randomized grid is made this way: the caller
    /// draws each decision from its own seedable random source (populated
    /// with probability 1/3) and injects the draws here, so construction
    /// itself is deterministic in its input.
    pub fn from_pattern(populated: &Vec<bool>) -> (g: Grid)
        requires
            populated@.len() == CELL_COUNT,
        ensures
            g.wf(),
            !g.pressed(),
            g.is_dirty(),
            forall|k: int| 0 <= k < (CELL_COUNT as int) ==> g@[k] == (if populated@[k] {
                Cell::Populated
            } else {
                Cell::Unpopulated
            }),
    {
        let mut cells: Vec<Cell> = Vec::new();
        let mut k: usize = 0;
        while k < CELL_COUNT
            invariant
                populated@.len() == CELL_COUNT,
                k <= CELL_COUNT,
                cells@.len() == k,
                forall|m: int| 0 <= m < k ==> cells@[m] == (if populated@[m] {
                    Cell::Populated
                } else {
                    Cell::Unpopulated
                }),
            decreases CELL_COUNT - k,
        {
            if populated[k] {
                cells.push(Cell::Populated);
            } else {
                cells.push(Cell::Unpopulated);
            }
            k = k + 1;
        }
        Grid { cells, mouse_pressed: false, dirty: true }
    }

    /// Whether cell (i, j) is populated.
    pub fn populated_at(&self, i: usize, j: usize) -> (b: bool)
        requires
            self.wf(),
            i < SIZE,
            j < SIZE,
        ensures
            b == (self@[idx(i as int, j as int)] == Cell::Populated),
    {
        self.cells[i * SIZE + j] == Cell::Populated
    }

    /// Applies one edit intent: forces the addressed cell to Populated.
    /// Idempotent; never de-populates.
    pub fn update(&mut self, message: Message)
        requires
            old(self).wf(),
            message matches Message::Populate { i, j } ==> i < SIZE && j < SIZE,
        ensures
            final(self).wf(),
            message matches Message::Populate { i, j } ==> final(self)@ == old(self)@.update(
                idx(i as int, j as int),
                Cell::Populated,
            ),
            final(self).pressed() == old(self).pressed(),
            final(self).is_dirty(),
    {
        match message {
            Message::Populate { i, j } => {
                let k: usize = i * SIZE + j;
                self.cells[k] = Cell::Populated;
                self.dirty = true;
            },
        }
    }

    /// Counts the populated cells among the up-to-8 neighbors of
    /// (row, column), from the current generation only; out-of-bounds
    /// positions are excluded, not wrapped.
    pub fn populated_neighbors(&self, row: usize, column: usize) -> (count: usize)
        requires
            self.wf(),
            row < SIZE,
            column < SIZE,
        ensures
            count == neighbor_count(self@, row as int, column as int),
            count <= 8,
    {
        let mut count: usize = 0;
        if row > 0 {
            if column > 0 && self.populated_at(row - 1, column - 1) {
                count = count + 1;
            }
            if self.populated_at(row - 1, column) {
                count = count + 1;
            }
            if column + 1 < SIZE && self.populated_at(row - 1, column + 1) {
                count = count + 1;
            }
        }
        if column > 0 && self.populated_at(row, column - 1) {
            count = count + 1;
        }
        if column + 1 < SIZE && self.populated_at(row, column + 1) {
            count = count + 1;
        }
        if row + 1 < SIZE {
            if column > 0 && self.populated_at(row + 1, column - 1) {
                count = count + 1;
            }
            if self.populated_at(row + 1, column) {
                count = count + 1;
            }
            if column + 1 < SIZE && self.populated_at(row + 1, column + 1) {
                count = count + 1;
            }
        }
        count
    }

    /// Advances the whole grid by one generation. Every neighbor count is
    /// taken from the current generation before any cell changes, so the
    /// next state is derived from a single consistent snapshot.
    pub fn tick(&mut self)
        requires
            old(self).wf(),
        ensures
            final(self).wf(),
            final(self)@ == step(old(self)@),
            final(self).pressed() == old(self).pressed(),
            final(self).is_dirty(),
    {
        let ghost s0 = self@;
        let mut counts: Vec<usize> = Vec::new();
        let mut i: usize = 0;
        while i < SIZE
            invariant
                self.wf(),
                self@ == s0,
                i <= SIZE,
                counts@.len() == i * SIZE,
                forall|m: int| 0 <= m < counts@.len() ==> counts@[m] == neighbor_count(
                    s0,
                    m / (SIZE as int),
                    m % (SIZE as int),
                ),
            decreases SIZE - i,
        {
            let mut j: usize = 0;
            while j < SIZE
                invariant
                    self.wf(),
                    self@ == s0,
                    i < SIZE,
                    j <= SIZE,
                    counts@.len() == i * SIZE + j,
                    forall|m: int| 0 <= m < counts@.len() ==> counts@[m] == neighbor_count(
                        s0,
                        m / (SIZE as int),
                        m % (SIZE as int),
                    ),
                decreases SIZE - j,
            {
                let n = self.populated_neighbors(i, j);
                proof {
                    assert((i * SIZE + j) as int / (SIZE as int) == i as int);
                    assert((i * SIZE + j) as int % (SIZE as int) == j as int);
                }
                counts.push(n);
                j = j + 1;
            }
            i = i + 1;
        }
        let ghost pressed0 = self.pressed();
        let mut i: usize = 0;
        while i < SIZE
            invariant
                self@.len() == CELL_COUNT,
                self.pressed() == pressed0,
                counts@.len() == CELL_COUNT,
                forall|m: int| 0 <= m < CELL_COUNT ==> counts@[m] == neighbor_count(
                    s0,
                    m / (SIZE as int),
                    m % (SIZE as int),
                ),
                i <= SIZE,
                forall|m: int| 0 <= m < i * SIZE ==> self@[m] == step(s0)[m],
                forall|m: int| i * SIZE <= m < CELL_COUNT ==> self@[m] == s0[m],
            decreases SIZE - i,
        {
            let mut j: usize = 0;
            while j < SIZE
                invariant
                    self@.len() == CELL_COUNT,
                    self.pressed() == pressed0,
                    counts@.len() == CELL_COUNT,
                    forall|m: int| 0 <= m < CELL_COUNT ==> counts@[m] == neighbor_count(
                        s0,
                        m / (SIZE as int),
                        m % (SIZE as int),
                    ),
                    i < SIZE,
                    j <= SIZE,
                    forall|m: int| 0 <= m < i * SIZE + j ==> self@[m] == step(s0)[m],
                    forall|m: int| i * SIZE + j <= m < CELL_COUNT ==> self@[m] == s0[m],
                decreases SIZE - j,
            {
                let k: usize = i * SIZE + j;
                let was_populated = self.cells[k] == Cell::Populated;
                let amount = counts[k];
                let next = if amount == 3 || (amount == 2 && was_populated) {
                    Cell::Populated
                } else {
                    Cell::Unpopulated
                };
                self.cells[k] = next;
                proof {
                    assert(k as int / (SIZE as int) == i as int);
                    assert(k as int % (SIZE as int) == j as int);
                    assert(self@[k as int] == step(s0)[k as int]);
                }
                j = j + 1;
            }
            i = i + 1;
        }
        proof {
            assert(self@ =~= step(s0));
        }
        self.dirty = true;
    }

    /// The largest centered square inside a viewport of the given size.
    pub fn region(&self, width: u32, height: u32) -> (r: Region)
        ensures
            r == region_of(width, height),
    {
        let side = if width <= height {
            width
        } else {
            height
        };
        Region { x: (width - side) / 2, y: (height - side) / 2, side }
    }

    /// Maps a position to the cell it hits, or None when the position lies
    /// outside the drawing region.
    pub fn cell_at(&self, region: Region, px: u32, py: u32) -> (r: Option<(usize, usize)>)
        ensures
            region_contains(region, px, py) ==> (r matches Some(cell)
                && cell.0 < SIZE && cell.1 < SIZE
                && cell.0 as int == hit_coord(py - region.y, region.side as int)
                && cell.1 as int == hit_coord(px - region.x, region.side as int)),
            !region_contains(region, px, py) ==> r is None,
    {
        if px >= region.x && py >= region.y && px - region.x < region.side && py - region.y
            < region.side {
            let dx = px - region.x;
            let dy = py - region.y;
            let side: u64 = region.side as u64;
            let ni: u64 = (dy as u64) * (SIZE as u64) + side - 1;
            let nj: u64 = (dx as u64) * (SIZE as u64) + side - 1;
            let ci: u64 = ni / side;
            let cj: u64 = nj / side;
            proof {
                assert(ni < 33 * side);
                assert(nj < 33 * side);
                assert(ni / side < 33) by (nonlinear_arith)
                    requires ni < 33 * side && side > 0,
                ;
                assert(nj / side < 33) by (nonlinear_arith)
                    requires nj < 33 * side && side > 0,
                ;
            }
            let i: usize = if ci <= 1 {
                0
            } else {
                (ci - 1) as usize
            };
            let j: usize = if cj <= 1 {
                0
            } else {
                (cj - 1) as usize
            };
            Some((i, j))
        } else {
            None
        }
    }

    /// Processes one pointer-contact event against the grid drawn in a
    /// viewport of the given size: updates the drag flag, and answers
    /// whether the event was consumed together with at most one activation
    /// intent. The grid contents themselves are never mutated here — every
    /// intent is applied separately through `update`.
    pub fn handle_pointer(
        &mut self,
        event: PointerEvent,
        width: u32,
        height: u32,
        cursor: Option<(u32, u32)>,
    ) -> (r: (Status, Option<Message>))
        requires
            old(self).wf(),
        ensures
            final(self).wf(),
            final(self)@ == old(self)@,
            final(self).is_dirty() == old(self).is_dirty(),
            final(self).pressed() == pressed_after(event, old(self).pressed()),
            r == pointer_response(old(self)@, old(self).pressed(), event, width, height, cursor),
            r.1 matches Some(m) ==> (m matches Message::Populate { i, j } && i < SIZE && j < SIZE),
    {
        match event {
            PointerEvent::LeftPressed => {
                self.mouse_pressed = true;
            },
            PointerEvent::LeftReleased => {
                self.mouse_pressed = false;
            },
            PointerEvent::CursorMoved => {},
        }
        let region = self.region(width, height);
        let (cx, cy) = match cursor {
            Some(pos) => pos,
            None => {
                return (Status::Ignored, None);
            },
        };
        let (i, j) = match self.cell_at(region, cx, cy) {
            Some(cell) => cell,
            None => {
                return (Status::Ignored, None);
            },
        };
        let intent = if !self.populated_at(i, j) {
            Some(Message::Populate { i, j })
        } else {
            None
        };
        match event {
            PointerEvent::LeftPressed => (Status::Captured, intent),
            PointerEvent::CursorMoved => if self.mouse_pressed {
                (Status::Captured, intent)
            } else {
                (Status::Ignored, None)
            },
            PointerEvent::LeftReleased => (Status::Ignored, None),
        }
    }

    /// Replaces the contents with a fresh all-unpopulated grid of the same
    /// size; never a partial reset.
    pub fn clear(&mut self)
        ensures
            final(self).wf(),
            final(self)@ == blank(),
            !final(self).pressed(),
            final(self).is_dirty(),
    {
        *self = Grid::new();
    }

    /// Whether a drag is in progress, for the renderer's read-only use.
    pub fn is_dragging(&self) -> (b: bool)
        ensures
            b == self.pressed(),
    {
        self.mouse_pressed
    }

    /// The cell under the cursor, if the cursor lies inside the drawing
    /// region: the renderer's read-only hover-highlight index, and the
    /// condition under which a crosshair cursor is shown.
    pub fn hovered_cell(&self, width: u32, height: u32, cursor: Option<(u32, u32)>) -> (r: Option<
        (usize, usize),
    >)
        ensures
            (cursor matches Some(pos) && region_contains(region_of(width, height), pos.0, pos.1))
                ==> (r matches Some(cell)
                && cell.0 < SIZE && cell.1 < SIZE
                && cell.0 as int == hit_coord(
                    cursor->Some_0.1 - region_of(width, height).y,
                    region_of(width, height).side as int,
                )
                && cell.1 as int == hit_coord(
                    cursor->Some_0.0 - region_of(width, height).x,
                    region_of(width, height).side as int,
                )),
            !(cursor matches Some(pos) && region_contains(region_of(width, height), pos.0, pos.1))
                ==> r is None,
    {
        let region = self.region(width, height);
        match cursor {
            Some(pos) => self.cell_at(region, pos.0, pos.1),
            None => None,
        }
    }

    /// Whether the grid has mutated since the renderer last fetched it.
    pub fn dirty(&self) -> (b: bool)
        ensures
            b == self.is_dirty(),
    {
        self.dirty
    }

    /// Lowers the dirty signal once the renderer has re-fetched the cells.
    pub fn mark_rendered(&mut self)
        ensures
            final(self)@ == old(self)@,
            final(self).pressed() == old(self).pressed(),
            !final(self).is_dirty(),
    {
        self.dirty = false;
    }
}

impl Default for Grid {
    /// Same as `Grid::new`: a fresh, fully unpopulated grid.
    fn default() -> (g: Self)
        ensures
            g.wf(),
            g@ == blank(),
            !g.pressed(),
            g.is_dirty(),
    {
        Grid::new()
    }
}

/// The generation step never changes the shape of the grid, and the cell
/// at (i, j) of the next generation is exactly the transition rule applied
/// to that cell's previous state and previous-generation neighbor count.
pub proof fn lemma_step_cell(s: Seq<Cell>, i: int, j: int)
    requires
        wf_cells(s),
        0 <= i < (SIZE as int),
        0 <= j < (SIZE as int),
    ensures
        wf_cells(step(s)),
        step(s)[idx(i, j)] == next_cell(s[idx(i, j)], neighbor_count(s, i, j)),
{
    let k = idx(i, j);
    assert(k / (SIZE as int) == i && k % (SIZE as int) == j) by (nonlinear_arith)
        requires 0 <= i && 0 <= j < (SIZE as int) && k == i * (SIZE as int) + j,
    ;
}

/// A populated cell survives one advance exactly when it has 2 or 3
/// populated neighbors; an unpopulated cell becomes populated exactly when
/// it has 3; every other cell is unpopulated afterwards.
pub proof fn lemma_transition_rule(s: Seq<Cell>, i: int, j: int)
    requires
        wf_cells(s),
        0 <= i < (SIZE as int),
        0 <= j < (SIZE as int),
    ensures
        s[idx(i, j)] == Cell::Populated ==> (step(s)[idx(i, j)] == Cell::Populated <==> (
        neighbor_count(s, i, j) == 2 || neighbor_count(s, i, j) == 3)),
        s[idx(i, j)] == Cell::Unpopulated ==> (step(s)[idx(i, j)] == Cell::Populated <==>
        neighbor_count(s, i, j) == 3),
{
    lemma_step_cell(s, i, j);
}

/// No spontaneous life: advancing an all-unpopulated grid yields the same
/// all-unpopulated grid.
pub proof fn lemma_no_spontaneous_life(s: Seq<Cell>)
    requires
        wf_cells(s),
        forall|k: int| 0 <= k < s.len() ==> s[k] == Cell::Unpopulated,
    ensures
        step(s) == s,
{
    assert forall|k: int| 0 <= k < (CELL_COUNT as int) implies step(s)[k] == s[k] by {
        assert(neighbor_count(s, k / (SIZE as int), k % (SIZE as int)) == 0);
    }
    assert(step(s) =~= s);
}

/// A neighbor count always lies between 0 and 8; a cell on the boundary
/// sees at most 5 candidates; a corner cell at most 3 (no wraparound).
pub proof fn lemma_neighbor_count_caps(s: Seq<Cell>, i: int, j: int)
    requires
        wf_cells(s),
        0 <= i < (SIZE as int),
        0 <= j < (SIZE as int),
    ensures
        0 <= neighbor_count(s, i, j) <= 8,
        (i == 0 || i == (SIZE as int) - 1 || j == 0 || j == (SIZE as int) - 1)
            ==> neighbor_count(s, i, j) <= 5,
        ((i == 0 || i == (SIZE as int) - 1) && (j == 0 || j == (SIZE as int) - 1))
            ==> neighbor_count(s, i, j) <= 3,
{
}

/// A 2x2 block of populated cells, alone on the grid, is a still life:
/// one advance leaves the grid unchanged, so any number of advances does.
pub proof fn lemma_block_is_still_life(s: Seq<Cell>, r: int, c: int)
    requires
        wf_cells(s),
        0 <= r,
        r + 1 < (SIZE as int),
        0 <= c,
        c + 1 < (SIZE as int),
        forall|k: int| 0 <= k < s.len() ==> (s[k] == Cell::Populated <==> (k == idx(r, c) || k
            == idx(r, c + 1) || k == idx(r + 1, c) || k == idx(r + 1, c + 1))),
    ensures
        step(s) == s,
{
    assert forall|k: int| 0 <= k < (CELL_COUNT as int) implies step(s)[k] == s[k] by {
        let i = k / (SIZE as int);
        let j = k % (SIZE as int);
        assert(0 <= i < (SIZE as int) && 0 <= j < (SIZE as int) && k == idx(i, j))
            by (nonlinear_arith)
            requires
                0 <= k < (CELL_COUNT as int),
                i == k / (SIZE as int),
                j == k % (SIZE as int),
        ;
        if (i == r || i == r + 1) && (j == c || j == c + 1) {
            assert(neighbor_count(s, i, j) == 3);
            assert(s[k] == Cell::Populated);
        } else {
            assert(neighbor_count(s, i, j) <= 2);
            assert(s[k] == Cell::Unpopulated);
        }
    }
    assert(step(s) =~= s);
}

/// Activating a cell is idempotent: a second activation of the same cell
/// changes nothing, and activating an already-populated cell leaves the
/// whole grid as it was — its only effect is that the cell stays populated.
pub proof fn lemma_activation_idempotent(s: Seq<Cell>, i: int, j: int)
    requires
        wf_cells(s),
        0 <= i < (SIZE as int),
        0 <= j < (SIZE as int),
    ensures
        s.update(idx(i, j), Cell::Populated).update(idx(i, j), Cell::Populated) == s.update(
            idx(i, j),
            Cell::Populated,
        ),
        s[idx(i, j)] == Cell::Populated ==> s.update(idx(i, j), Cell::Populated) == s,
{
    assert(s.update(idx(i, j), Cell::Populated).update(idx(i, j), Cell::Populated) =~= s.update(
        idx(i, j),
        Cell::Populated,
    ));
    if s[idx(i, j)] == Cell::Populated {
        assert(s.update(idx(i, j), Cell::Populated) =~= s);
    }
}

/// Starvation: an isolated populated cell (no populated neighbors) is
/// unpopulated after one advance.
pub proof fn lemma_starvation(s: Seq<Cell>, i: int, j: int)
    requires
        wf_cells(s),
        0 <= i < (SIZE as int),
        0 <= j < (SIZE as int),
        s[idx(i, j)] == Cell::Populated,
        neighbor_count(s, i, j) == 0,
    ensures
        step(s)[idx(i, j)] == Cell::Unpopulated,
{
    lemma_step_cell(s, i, j);
}

} // verus!
