//! The interactive resize gesture: pointer input turned into clamped sizes.
//!
//! A [`ResizeController`] is idle or dragging. Pointer-down on the module's
//! resize handle starts a session anchored at the pointer and the module's
//! current size; every pointer-move while dragging writes the size that the
//! drag amounts to into the layout; pointer-up ends the session. The caller
//! keeps window-wide pointer listeners exactly while a session is open, as the
//! returned [`ListenerAction`]s tell it.
use vstd::prelude::*;

use crate::grid::{clamp_int, GridSize, MAX_MODULE_H, MAX_MODULE_W};
use crate::layout::{index_of_id, LayoutModel, WorkspaceLayoutState};
use crate::placed::ModuleInstanceId;

verus! {

/// Screen pixels that a drag takes to change the width by one column.
pub const PX_PER_COL: u32 = 56;

/// Screen pixels that a drag takes to change the height by one row.
pub const PX_PER_ROW: u32 = 48;

/// Span taken as the starting size when the module is not in the layout.
pub const FALLBACK_SPAN: u32 = 2;

/// The anchor of an open gesture: where the pointer went down, and the size
/// the module had then.
#[derive(Clone, Copy, Debug, PartialEq, Eq, Structural)]
pub struct ResizeSession {
    pub start_x: i32,
    pub start_y: i32,
    pub start_w: u32,
    pub start_h: u32,
}

/// What the caller does with its window-wide pointer-move and pointer-up
/// listeners after a transition.
#[derive(Clone, Copy, Debug, PartialEq, Eq, Structural)]
pub enum ListenerAction {
    /// Register them: a gesture has begun.
    Attach,
    /// Unregister them: the gesture has ended.
    Detach,
    /// Leave them as they are.
    Keep,
}

/// The resize gesture of one module; dragging while `session` is `Some`.
#[derive(Clone, Copy, Debug)]
pub struct ResizeController {
    pub module: ModuleInstanceId,
    pub session: Option<ResizeSession>,
}

/// `d / u` rounded to the nearest integer, halves away from zero.
pub open spec fn rounded_quotient(d: int, u: int) -> int {
    if d >= 0 {
        (2 * d + u) / (2 * u)
    } else {
        -((-2 * d + u) / (2 * u))
    }
}

/// [`rounded_quotient`] is the nearest integer to `d / u`, halves going away
/// from zero: `d - q * u` lies in `[-u/2, u/2)` for `d >= 0` and in
/// `(-u/2, u/2]` for `d < 0`.
pub proof fn lemma_rounded_quotient_nearest(d: int, u: int)
    requires
        u > 0,
    ensures
        d >= 0 ==> -u <= 2 * (d - rounded_quotient(d, u) * u) < u,
        d < 0 ==> -u < 2 * (d - rounded_quotient(d, u) * u) <= u,
{
    let n = if d >= 0 {
        2 * d + u
    } else {
        -2 * d + u
    };
    let q = n / (2 * u);
    let m = n % (2 * u);
    vstd::arithmetic::div_mod::lemma_fundamental_div_mod(n, 2 * u);
    vstd::arithmetic::div_mod::lemma_mod_bound(n, 2 * u);
    assert(n == 2 * u * q + m);
    assert(2 * u * q == 2 * (q * u)) by (nonlinear_arith);
    assert((-q) * u == -(q * u)) by (nonlinear_arith);
}

/// The span that a drag of `d` pixels, at `unit` pixels a cell, gives a side
/// that was `start` cells long, held to `[1, hi]`.
pub open spec fn dragged_span(start: int, d: int, unit: int, hi: int) -> int {
    clamp_int(start + rounded_quotient(d, unit), 1, hi)
}

/// The size that session `s` gives its module with the pointer at (`x`, `y`).
pub open spec fn drag_target(s: ResizeSession, x: i32, y: i32) -> GridSize {
    GridSize {
        w: dragged_span(s.start_w as int, x - s.start_x, PX_PER_COL as int, MAX_MODULE_W as int)
            as u32,
        h: dragged_span(s.start_h as int, y - s.start_y, PX_PER_ROW as int, MAX_MODULE_H as int)
            as u32,
    }
}

/// The size a gesture on module `id` starts from: the module's size, or
/// `FALLBACK_SPAN` by `FALLBACK_SPAN` where the layout holds no such module.
pub open spec fn start_size(layout: LayoutModel, id: ModuleInstanceId) -> GridSize {
    let i = index_of_id(layout.modules, id);
    if 0 <= i {
        layout.modules[i].size
    } else {
        GridSize { w: FALLBACK_SPAN, h: FALLBACK_SPAN }
    }
}

/// `start + d / unit` rounded, held to `[1, hi]`.
fn drag_span(start: u32, d: i64, unit: u32, hi: u32) -> (r: u32)
    requires
        unit > 0,
        hi >= 1,
        -0x1_0000_0000 <= d <= 0x1_0000_0000,
    ensures
        r == dragged_span(start as int, d as int, unit as int, hi as int),
{
    let mag: u64 = if d >= 0 {
        d as u64
    } else {
        (-d) as u64
    };
    let q: u64 = (2 * mag + unit as u64) / (2 * unit as u64);
    proof {
        vstd::arithmetic::div_mod::lemma_div_is_ordered_by_denominator(
            2 * mag + unit,
            1,
            2 * unit as int,
        );
    }
    let step: i64 = if d >= 0 {
        q as i64
    } else {
        -(q as i64)
    };
    let total: i64 = start as i64 + step;
    if total < 1 {
        1
    } else if total > hi as i64 {
        hi
    } else {
        total as u32
    }
}

/// The size that session `s` gives its module with the pointer at (`x`, `y`):
/// the pointer's offset from the session's start, in whole grid cells
/// (rounded to nearest), added to the starting size and clamped to the limits.
pub fn drag_target_size(s: ResizeSession, x: i32, y: i32) -> (r: GridSize)
    ensures
        r == drag_target(s, x, y),
        r.is_valid(),
{
    let w = drag_span(s.start_w, x as i64 - s.start_x as i64, PX_PER_COL, MAX_MODULE_W);
    let h = drag_span(s.start_h, y as i64 - s.start_y as i64, PX_PER_ROW, MAX_MODULE_H);
    GridSize { w, h }
}

impl ResizeController {
    /// The layout after a pointer-move to (`x`, `y`): resized where a session
    /// is open, unchanged otherwise.
    pub open spec fn after_move(self, layout: LayoutModel, x: i32, y: i32) -> LayoutModel {
        match self.session {
            Some(s) => layout.resized(self.module, drag_target(s, x, y)),
            None => layout,
        }
    }

    /// The controller once the gesture is over.
    pub open spec fn released(self) -> ResizeController {
        ResizeController { session: None, ..self }
    }

    /// An idle controller for module `module`.
    pub fn new(module: ModuleInstanceId) -> (r: Self)
        ensures
            r.module == module,
            r.session is None,
    {
        ResizeController { module, session: None }
    }

    /// Whether a gesture is open.
    pub fn is_dragging(&self) -> (b: bool)
        ensures
            b == self.session is Some,
    {
        self.session.is_some()
    }

    /// Pointer-down on the resize handle at (`x`, `y`): opens a session
    /// anchored there and at the module's current size. A session already
    /// open is replaced; the listeners are attached only when none was.
    pub fn pointer_down(&mut self, layout: &WorkspaceLayoutState, x: i32, y: i32) -> (a:
        ListenerAction)
        ensures
            final(self).module == old(self).module,
            final(self).session == Some(
                ResizeSession {
                    start_x: x,
                    start_y: y,
                    start_w: start_size(layout@, old(self).module).w,
                    start_h: start_size(layout@, old(self).module).h,
                },
            ),
            a == (if old(self).session is Some {
                ListenerAction::Keep
            } else {
                ListenerAction::Attach
            }),
    {
        let size = match layout.find_index(self.module) {
            Some(i) => {
                proof {
                    crate::layout::lemma_index_of_id(layout.modules@, self.module, i as int);
                }
                layout.modules[i].size
            },
            None => {
                proof {
                    crate::layout::lemma_index_of_absent(layout.modules@, self.module);
                }
                GridSize { w: FALLBACK_SPAN, h: FALLBACK_SPAN }
            },
        };
        let a = if self.session.is_some() {
            ListenerAction::Keep
        } else {
            ListenerAction::Attach
        };
        self.session = Some(
            ResizeSession { start_x: x, start_y: y, start_w: size.w, start_h: size.h },
        );
        a
    }

    /// Pointer-move to (`x`, `y`): while dragging, writes the size the drag
    /// amounts to into `layout`; otherwise leaves `layout` alone.
    pub fn pointer_move(&self, layout: &mut WorkspaceLayoutState, x: i32, y: i32)
        ensures
            final(layout)@ == self.after_move(old(layout)@, x, y),
            old(layout)@.wf() ==> final(layout)@.wf(),
    {
        match self.session {
            Some(s) => {
                let size = drag_target_size(s, x, y);
                layout.resize_module(self.module, size);
            },
            None => {},
        }
    }

    /// Pointer-up anywhere: closes the session. The listeners are detached
    /// exactly when a session was open.
    pub fn pointer_up(&mut self) -> (a: ListenerAction)
        ensures
            *final(self) == old(self).released(),
            a == (if old(self).session is Some {
                ListenerAction::Detach
            } else {
                ListenerAction::Keep
            }),
    {
        let a = if self.session.is_some() {
            ListenerAction::Detach
        } else {
            ListenerAction::Keep
        };
        self.session = None;
        a
    }
}

/// Once the gesture is released, a pointer-move changes nothing in the layout,
/// wherever the pointer goes.
pub proof fn lemma_no_resize_after_release(
    c: ResizeController,
    layout: LayoutModel,
    x: i32,
    y: i32,
)
    ensures
        c.released().after_move(layout, x, y) == layout,
{
}

} // verus!
