//! The layout state of one workspace: the placed modules and their ids.
use vstd::prelude::*;

use crate::grid::{clamp_size, clamped, snap_position, snapped, GridPosition, GridSize};
use crate::placed::{ModuleInstanceId, PlacedModule};

verus! {

/// Columns of a workspace grid.
pub const GRID_COLS: u32 = 12;

/// Rows of a workspace grid.
pub const GRID_ROWS: u32 = 24;

/// In-memory layout state for one workspace.
#[derive(Clone)]
pub struct WorkspaceLayoutState {
    pub modules: Vec<PlacedModule>,
    pub next_id: u64,
    pub grid_cols: u32,
    pub grid_rows: u32,
}

/// The mathematical content of a [`WorkspaceLayoutState`].
pub struct LayoutModel {
    pub modules: Seq<PlacedModule>,
    pub next_id: u64,
    pub grid_cols: u32,
    pub grid_rows: u32,
}

impl View for WorkspaceLayoutState {
    type V = LayoutModel;

    open spec fn view(&self) -> LayoutModel {
        LayoutModel {
            modules: self.modules@,
            next_id: self.next_id,
            grid_cols: self.grid_cols,
            grid_rows: self.grid_rows,
        }
    }
}

/// Keeps every module but those with id `id`.
pub open spec fn other_than(id: ModuleInstanceId) -> spec_fn(PlacedModule) -> bool {
    |m: PlacedModule| m.id != id
}

/// Ids grow strictly along `s`.
pub open spec fn ids_increasing(s: Seq<PlacedModule>) -> bool {
    forall|i: int, j: int| 0 <= i < j < s.len() ==> (#[trigger] s[i]).id.0 < (#[trigger] s[j]).id.0
}

/// `m` is anchored inside a `cols` by `rows` grid, has a size in range, and an
/// id below `next_id`.
pub open spec fn placed_ok(m: PlacedModule, cols: u32, rows: u32, next_id: u64) -> bool {
    m.position.is_inside(cols, rows) && m.size.is_valid() && m.id.0 < next_id
}

impl LayoutModel {
    /// A new workspace: no module, ids from 1, a 12 by 24 grid.
    pub open spec fn fresh() -> LayoutModel {
        LayoutModel {
            modules: Seq::empty(),
            next_id: 1,
            grid_cols: GRID_COLS,
            grid_rows: GRID_ROWS,
        }
    }

    /// The invariant the engine keeps: a non-empty grid, every module anchored
    /// inside it with a size in range, and ids that were handed out in order and
    /// never reused.
    pub open spec fn wf(self) -> bool {
        &&& self.grid_cols >= 1
        &&& self.grid_rows >= 1
        &&& self.next_id >= 1
        &&& ids_increasing(self.modules)
        &&& forall|i: int|
            0 <= i < self.modules.len() ==> placed_ok(
                #[trigger] self.modules[i],
                self.grid_cols,
                self.grid_rows,
                self.next_id,
            )
    }

    /// The same grid and id counter as `other`.
    pub open spec fn same_frame(self, other: LayoutModel) -> bool {
        self.next_id == other.next_id && self.grid_cols == other.grid_cols && self.grid_rows
            == other.grid_rows
    }

    /// The module that `add_module` appends.
    pub open spec fn new_module(self, kind: String, p: GridPosition, s: GridSize) -> PlacedModule {
        PlacedModule {
            id: ModuleInstanceId(self.next_id),
            kind,
            position: snapped(p, self.grid_cols, self.grid_rows),
            size: clamped(s),
        }
    }

    /// The state after adding a module of `kind` at `p` with size `s`.
    pub open spec fn add(self, kind: String, p: GridPosition, s: GridSize) -> LayoutModel {
        LayoutModel {
            modules: self.modules.push(self.new_module(kind, p, s)),
            next_id: (self.next_id + 1) as u64,
            ..self
        }
    }

    /// The state after the first module with id `id` is anchored at `p` snapped.
    pub open spec fn moved(self, id: ModuleInstanceId, p: GridPosition) -> LayoutModel {
        let q = snapped(p, self.grid_cols, self.grid_rows);
        LayoutModel {
            modules: update_first(self.modules, id, |m: PlacedModule| m.with_position(q)),
            ..self
        }
    }

    /// The state after the first module with id `id` takes the size `s` clamped.
    pub open spec fn resized(self, id: ModuleInstanceId, s: GridSize) -> LayoutModel {
        let t = clamped(s);
        LayoutModel {
            modules: update_first(self.modules, id, |m: PlacedModule| m.with_size(t)),
            ..self
        }
    }

    /// Some module's footprint holds cell (`c`, `r`).
    pub open spec fn occupied(self, c: int, r: int) -> bool {
        exists|i: int| 0 <= i < self.modules.len() && (#[trigger] self.modules[i]).covers(c, r)
    }

    /// No cell of the `w` by `h` rectangle anchored at (`col`, `row`) is occupied.
    pub open spec fn region_free(self, col: int, row: int, w: int, h: int) -> bool {
        forall|c: int, r: int|
            col <= c < col + w && row <= r < row + h ==> !#[trigger] self.occupied(c, r)
    }

    /// (`col`, `row`) is one of the anchors that the search for a `w` by `h`
    /// region tries: `row` in `[0, grid_rows - h)`, `col` in `[0, grid_cols - w)`.
    pub open spec fn is_candidate(self, col: int, row: int, w: int, h: int) -> bool {
        0 <= col && col + w < self.grid_cols && 0 <= row && row + h < self.grid_rows
    }

    /// `p` is the first free candidate for a `w` by `h` region in reading order
    /// (row by row from the top, each row from the left).
    pub open spec fn is_first_free(self, p: GridPosition, w: int, h: int) -> bool {
        &&& self.is_candidate(p.col as int, p.row as int, w, h)
        &&& self.region_free(p.col as int, p.row as int, w, h)
        &&& forall|c: int, r: int|
            #![trigger self.region_free(c, r, w, h)]
            self.is_candidate(c, r, w, h) && (r < p.row || (r == p.row && c < p.col))
                ==> !self.region_free(c, r, w, h)
    }

    /// The first free anchor for a `w` by `h` region, if there is one.
    pub open spec fn first_free(self, w: int, h: int) -> Option<GridPosition> {
        if exists|p: GridPosition| self.is_first_free(p, w, h) {
            Some(choose|p: GridPosition| self.is_first_free(p, w, h))
        } else {
            None
        }
    }

    /// Where auto-placement anchors a `w` by `h` module: the first free anchor,
    /// or the origin where there is none.
    pub open spec fn auto_position(self, w: int, h: int) -> GridPosition {
        match self.first_free(w, h) {
            Some(p) => p,
            None => GridPosition { col: 0, row: 0 },
        }
    }

    /// The state after adding one module for each request, in order.
    pub open spec fn add_all(self, reqs: Seq<(String, GridPosition, GridSize)>) -> LayoutModel
        decreases reqs.len(),
    {
        if reqs.len() == 0 {
            self
        } else {
            let (kind, p, s) = reqs.last();
            self.add_all(reqs.drop_last()).add(kind, p, s)
        }
    }

    /// The state after removing every module with id `id`.
    pub open spec fn remove(self, id: ModuleInstanceId) -> LayoutModel {
        LayoutModel { modules: self.modules.filter(other_than(id)), ..self }
    }
}

/// `i` is the first index of `s` that holds a module with id `id`.
pub open spec fn is_first_with_id(s: Seq<PlacedModule>, id: ModuleInstanceId, i: int) -> bool {
    0 <= i < s.len() && s[i].id == id && forall|j: int| 0 <= j < i ==> (#[trigger] s[j]).id != id
}

/// The first index of `s` that holds a module with id `id`, or -1 where none does.
pub open spec fn index_of_id(s: Seq<PlacedModule>, id: ModuleInstanceId) -> int {
    if exists|i: int| is_first_with_id(s, id, i) {
        choose|i: int| is_first_with_id(s, id, i)
    } else {
        -1
    }
}

/// `s` with the first module of id `id` replaced by `f` of it; `s` where none has that id.
pub open spec fn update_first(
    s: Seq<PlacedModule>,
    id: ModuleInstanceId,
    f: spec_fn(PlacedModule) -> PlacedModule,
) -> Seq<PlacedModule> {
    let i = index_of_id(s, id);
    if 0 <= i {
        s.update(i, f(s[i]))
    } else {
        s
    }
}

/// There is one first index with a given id.
pub(crate) proof fn lemma_index_of_id(s: Seq<PlacedModule>, id: ModuleInstanceId, i: int)
    requires
        is_first_with_id(s, id, i),
    ensures
        index_of_id(s, id) == i,
{
    let k = choose|k: int| is_first_with_id(s, id, k);
    assert(is_first_with_id(s, id, k));
    if k < i {
        assert(s[k].id != id);
    } else if i < k {
        assert(s[i].id != id);
    }
}

/// Where no module has id `id`, there is no first index of it.
pub(crate) proof fn lemma_index_of_absent(s: Seq<PlacedModule>, id: ModuleInstanceId)
    requires
        forall|j: int| 0 <= j < s.len() ==> (#[trigger] s[j]).id != id,
    ensures
        index_of_id(s, id) == -1,
{
}

/// There is one first free anchor.
proof fn lemma_first_free_unique(s: LayoutModel, p: GridPosition, w: int, h: int)
    requires
        s.is_first_free(p, w, h),
    ensures
        s.first_free(w, h) == Some(p),
{
    let q = choose|q: GridPosition| s.is_first_free(q, w, h);
    assert(s.is_first_free(q, w, h));
    if q.row < p.row || (q.row == p.row && q.col < p.col) {
        assert(!s.region_free(q.col as int, q.row as int, w, h));
    } else if p.row < q.row || (p.row == q.row && p.col < q.col) {
        assert(!s.region_free(p.col as int, p.row as int, w, h));
    }
}

/// `(a ++ [x])` filtered is `a` filtered, then `x` if it is kept.
proof fn lemma_filter_push(a: Seq<PlacedModule>, x: PlacedModule, keep: spec_fn(PlacedModule) -> bool)
    ensures
        a.push(x).filter(keep) == if keep(x) {
            a.filter(keep).push(x)
        } else {
            a.filter(keep)
        },
{
    reveal(Seq::filter);
    assert(a.push(x).drop_last() =~= a);
}

/// Filtering keeps a sequence whose items all pass as it is.
proof fn lemma_filter_all_kept(a: Seq<PlacedModule>, keep: spec_fn(PlacedModule) -> bool)
    requires
        forall|i: int| 0 <= i < a.len() ==> keep(#[trigger] a[i]),
    ensures
        a.filter(keep) == a,
    decreases a.len(),
{
    reveal(Seq::filter);
    if a.len() > 0 {
        lemma_filter_all_kept(a.drop_last(), keep);
        assert(a.drop_last().push(a.last()) =~= a);
    }
}

/// Filtering keeps ids in increasing order and every kept module as it was.
proof fn lemma_filter_keeps_wf(
    a: Seq<PlacedModule>,
    keep: spec_fn(PlacedModule) -> bool,
    cols: u32,
    rows: u32,
    next_id: u64,
)
    requires
        ids_increasing(a),
        forall|i: int| 0 <= i < a.len() ==> placed_ok(#[trigger] a[i], cols, rows, next_id),
    ensures
        ids_increasing(a.filter(keep)),
        forall|i: int|
            0 <= i < a.filter(keep).len() ==> placed_ok(
                #[trigger] a.filter(keep)[i],
                cols,
                rows,
                next_id,
            ),
    decreases a.len(),
{
    reveal(Seq::filter);
    if a.len() > 0 {
        let rest = a.drop_last();
        lemma_filter_keeps_wf(rest, keep, cols, rows, next_id);
        let fr = rest.filter(keep);
        assert forall|i: int| 0 <= i < fr.len() implies (#[trigger] fr[i]).id.0 < a.last().id.0 by {
            rest.lemma_filter_contains_rev(keep, fr[i]);
            let k = choose|k: int| 0 <= k < rest.len() && rest[k] == fr[i];
            assert(a[k] == rest[k]);
        }
    }
}

impl WorkspaceLayoutState {
    pub fn new() -> (r: Self)
        ensures
            r@ == LayoutModel::fresh(),
            r@.wf(),
    {
        WorkspaceLayoutState {
            modules: Vec::new(),
            next_id: 1,
            grid_cols: GRID_COLS,
            grid_rows: GRID_ROWS,
        }
    }

    /// Appends a module with the next id, its position snapped to the grid and
    /// its size clamped. The id counter moves on even where the new module
    /// overlaps others.
    pub fn add_module(&mut self, kind: String, position: GridPosition, size: GridSize)
        requires
            old(self).next_id < u64::MAX,
        ensures
            final(self)@ == old(self)@.add(kind, position, size),
            old(self)@.wf() ==> final(self)@.wf(),
    {
        let id = ModuleInstanceId(self.next_id);
        self.next_id = self.next_id + 1;
        let position = snap_position(position, self.grid_cols, self.grid_rows);
        let size = clamp_size(size);
        self.modules.push(PlacedModule::new(id, kind, position, size));
        assert(self@.modules =~= old(self)@.add(kind, position, size).modules);
    }

    /// The index of the first module with id `id`, if any.
    pub(crate) fn find_index(&self, id: ModuleInstanceId) -> (r: Option<usize>)
        ensures
            match r {
                Some(i) => is_first_with_id(self.modules@, id, i as int),
                None => forall|j: int|
                    0 <= j < self.modules@.len() ==> (#[trigger] self.modules@[j]).id != id,
            },
    {
        let mut i: usize = 0;
        while i < self.modules.len()
            invariant
                i <= self.modules@.len(),
                forall|j: int| 0 <= j < i ==> (#[trigger] self.modules@[j]).id != id,
            decreases self.modules.len() - i,
        {
            if self.modules[i].id == id {
                return Some(i);
            }
            i = i + 1;
        }
        None
    }

    /// Anchors the module with id `id` at `position` snapped to the grid; does
    /// nothing where there is none.
    pub fn move_module(&mut self, id: ModuleInstanceId, position: GridPosition)
        ensures
            final(self)@ == old(self)@.moved(id, position),
            old(self)@.wf() ==> final(self)@.wf(),
    {
        match self.find_index(id) {
            Some(i) => {
                proof {
                    lemma_index_of_id(self.modules@, id, i as int);
                }
                let p = snap_position(position, self.grid_cols, self.grid_rows);
                self.modules[i].position = p;
                assert(self@.modules =~= old(self)@.moved(id, position).modules);
            },
            None => {
                proof {
                    lemma_index_of_absent(self.modules@, id);
                }
            },
        }
    }

    /// Gives the module with id `id` the size `size` clamped; does nothing where
    /// there is none.
    pub fn resize_module(&mut self, id: ModuleInstanceId, size: GridSize)
        ensures
            final(self)@ == old(self)@.resized(id, size),
            old(self)@.wf() ==> final(self)@.wf(),
    {
        match self.find_index(id) {
            Some(i) => {
                proof {
                    lemma_index_of_id(self.modules@, id, i as int);
                }
                let s = clamp_size(size);
                self.modules[i].size = s;
                assert(self@.modules =~= old(self)@.resized(id, size).modules);
            },
            None => {
                proof {
                    lemma_index_of_absent(self.modules@, id);
                }
            },
        }
    }

    /// Whether some module's footprint holds cell (`c`, `r`).
    fn cell_occupied(&self, c: u64, r: u64) -> (b: bool)
        ensures
            b == self@.occupied(c as int, r as int),
    {
        let mut i: usize = 0;
        while i < self.modules.len()
            invariant
                i <= self.modules@.len(),
                forall|j: int| 0 <= j < i ==> !(#[trigger] self.modules@[j]).covers(c as int, r as int),
            decreases self.modules.len() - i,
        {
            let m = &self.modules[i];
            let col = m.position.col as u64;
            let row = m.position.row as u64;
            if col <= c && c < col + m.size.w as u64 && row <= r && r < row + m.size.h as u64 {
                assert(self@.modules[i as int].covers(c as int, r as int));
                return true;
            }
            i = i + 1;
        }
        false
    }

    /// Whether no cell of the `w` by `h` rectangle at (`col`, `row`) is occupied.
    fn region_is_free(&self, col: u32, row: u32, w: u32, h: u32) -> (b: bool)
        ensures
            b == self@.region_free(col as int, row as int, w as int, h as int),
    {
        let c_end: u64 = col as u64 + w as u64;
        let r_end: u64 = row as u64 + h as u64;
        let mut c: u64 = col as u64;
        while c < c_end
            invariant
                col <= c <= c_end,
                c_end == col + w,
                r_end == row + h,
                forall|c2: int, r2: int|
                    col <= c2 < c && row <= r2 < r_end ==> !#[trigger] self@.occupied(c2, r2),
            decreases c_end - c,
        {
            let mut r: u64 = row as u64;
            while r < r_end
                invariant
                    col <= c < c_end,
                    row <= r <= r_end,
                    c_end == col + w,
                    r_end == row + h,
                    forall|c2: int, r2: int|
                        (col <= c2 < c && row <= r2 < r_end) || (c2 == c && row <= r2 < r)
                            ==> !#[trigger] self@.occupied(c2, r2),
                decreases r_end - r,
            {
                if self.cell_occupied(c, r) {
                    return false;
                }
                r = r + 1;
            }
            c = c + 1;
        }
        true
    }

    /// The first anchor, in reading order, where a `w` by `h` region meets no
    /// placed module. Anchors run over rows `[0, grid_rows - h)` and columns
    /// `[0, grid_cols - w)`; `None` where none is free or the region cannot fit.
    pub fn find_free_region(&self, w: u32, h: u32) -> (r: Option<GridPosition>)
        ensures
            r == self@.first_free(w as int, h as int),
            r matches Some(p) ==> self@.is_candidate(p.col as int, p.row as int, w as int, h as int)
                && self@.region_free(p.col as int, p.row as int, w as int, h as int),
            r is None ==> forall|c: int, rw: int|
                #![trigger self@.region_free(c, rw, w as int, h as int)]
                self@.is_candidate(c, rw, w as int, h as int) ==> !self@.region_free(
                    c,
                    rw,
                    w as int,
                    h as int,
                ),
    {
        let row_end = self.grid_rows.saturating_sub(h);
        let col_end = self.grid_cols.saturating_sub(w);
        let mut row: u32 = 0;
        while row < row_end
            invariant
                row_end as int == (if h < self.grid_rows { self.grid_rows - h } else { 0 }),
                col_end as int == (if w < self.grid_cols { self.grid_cols - w } else { 0 }),
                forall|c: int, rw: int|
                    #![trigger self@.region_free(c, rw, w as int, h as int)]
                    self@.is_candidate(c, rw, w as int, h as int) && rw < row
                        ==> !self@.region_free(c, rw, w as int, h as int),
            decreases row_end - row,
        {
            let mut col: u32 = 0;
            while col < col_end
                invariant
                    row < row_end,
                    row_end as int == (if h < self.grid_rows { self.grid_rows - h } else { 0 }),
                    col_end as int == (if w < self.grid_cols { self.grid_cols - w } else { 0 }),
                    forall|c: int, rw: int|
                        #![trigger self@.region_free(c, rw, w as int, h as int)]
                        self@.is_candidate(c, rw, w as int, h as int) && (rw < row || (rw == row
                            && c < col)) ==> !self@.region_free(c, rw, w as int, h as int),
                decreases col_end - col,
            {
                if self.region_is_free(col, row, w, h) {
                    let p = GridPosition { col, row };
                    proof {
                        lemma_first_free_unique(self@, p, w as int, h as int);
                    }
                    return Some(p);
                }
                col = col + 1;
            }
            row = row + 1;
        }
        None
    }

    /// Adds a `w` by `h` module of `kind` at the first free anchor, or at the
    /// origin where no anchor is free (the new module then overlaps others).
    pub fn add_module_auto(&mut self, kind: String, w: u32, h: u32)
        requires
            old(self).next_id < u64::MAX,
        ensures
            final(self)@ == old(self)@.add(
                kind,
                old(self)@.auto_position(w as int, h as int),
                GridSize { w, h },
            ),
            old(self)@.wf() ==> final(self)@.wf(),
    {
        let pos = match self.find_free_region(w, h) {
            Some(p) => p,
            None => GridPosition { col: 0, row: 0 },
        };
        self.add_module(kind, pos, GridSize { w, h });
    }

    /// Deletes the module with id `id`; does nothing where there is none.
    pub fn remove_module(&mut self, id: ModuleInstanceId)
        ensures
            final(self)@ == old(self)@.remove(id),
            old(self)@.wf() ==> final(self)@.wf(),
    {
        let ghost before = self.modules@;
        let ghost keep = other_than(id);
        let mut i: usize = 0;
        let ghost mut j: int = 0;
        while i < self.modules.len()
            invariant
                0 <= j <= before.len(),
                keep == other_than(id),
                i == before.subrange(0, j).filter(keep).len(),
                self.modules@ == before.subrange(0, j).filter(keep) + before.subrange(
                    j,
                    before.len() as int,
                ),
                self@.same_frame(old(self)@),
            decreases self.modules.len() - i,
        {
            proof {
                assert(before.subrange(0, j + 1) =~= before.subrange(0, j).push(before[j]));
                lemma_filter_push(before.subrange(0, j), before[j], keep);
                assert(self.modules@[i as int] == before[j]);
                assert(keep(before[j]) == (before[j].id != id));
                assert(before.subrange(j, before.len() as int) =~= seq![before[j]] + before.subrange(
                    j + 1,
                    before.len() as int,
                ));
            }
            if self.modules[i].id == id {
                self.modules.remove(i);
                proof {
                    assert(self.modules@ =~= before.subrange(0, j + 1).filter(keep) + before.subrange(
                        j + 1,
                        before.len() as int,
                    ));
                }
            } else {
                i = i + 1;
                proof {
                    assert(self.modules@ =~= before.subrange(0, j + 1).filter(keep) + before.subrange(
                        j + 1,
                        before.len() as int,
                    ));
                }
            }
            proof {
                j = j + 1;
            }
        }
        proof {
            assert(before.subrange(0, j) =~= before);
            assert(self.modules@ =~= before.filter(keep));
            if old(self)@.wf() {
                lemma_filter_keeps_wf(before, keep, self.grid_cols, self.grid_rows, self.next_id);
            }
        }
    }
}


/// On a fresh workspace, request `i` of a run of adds gets id `i + 1`.
proof fn lemma_fresh_add_all(reqs: Seq<(String, GridPosition, GridSize)>)
    requires
        reqs.len() < u64::MAX,
    ensures
        LayoutModel::fresh().add_all(reqs).next_id == reqs.len() + 1,
        LayoutModel::fresh().add_all(reqs).modules.len() == reqs.len(),
        forall|i: int|
            0 <= i < reqs.len() ==> (#[trigger] LayoutModel::fresh().add_all(reqs).modules[i]).id.0
                == i + 1,
    decreases reqs.len(),
{
    if reqs.len() > 0 {
        lemma_fresh_add_all(reqs.drop_last());
    }
}

/// After any run of `add_module` calls on a fresh workspace, the ids handed
/// out are pairwise distinct and increase in the order of the calls.
pub proof fn lemma_add_ids_unique(reqs: Seq<(String, GridPosition, GridSize)>)
    requires
        reqs.len() < u64::MAX,
    ensures
        LayoutModel::fresh().add_all(reqs).modules.len() == reqs.len(),
        forall|i: int, j: int|
            0 <= i < j < reqs.len() ==> (#[trigger] LayoutModel::fresh().add_all(
                reqs,
            ).modules[i]).id.0 < (#[trigger] LayoutModel::fresh().add_all(reqs).modules[j]).id.0,
{
    lemma_fresh_add_all(reqs);
}

/// Removing an id a second time leaves the collection as the first removal
/// left it, and removing an id that no module has changes nothing.
pub proof fn lemma_remove_idempotent(s: LayoutModel, id: ModuleInstanceId)
    ensures
        s.remove(id).remove(id) == s.remove(id),
        (forall|i: int| 0 <= i < s.modules.len() ==> (#[trigger] s.modules[i]).id != id)
            ==> s.remove(id) == s,
{
    let keep = other_than(id);
    let once = s.modules.filter(keep);
    assert forall|i: int| 0 <= i < once.len() implies keep(#[trigger] once[i]) by {
        s.modules.lemma_filter_pred(keep, i);
    }
    lemma_filter_all_kept(once, keep);
    if forall|i: int| 0 <= i < s.modules.len() ==> (#[trigger] s.modules[i]).id != id {
        lemma_filter_all_kept(s.modules, keep);
    }
}

} // verus!
