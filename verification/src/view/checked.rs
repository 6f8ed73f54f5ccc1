//! Laying a view out without knowing beforehand whether it can be laid out:
//! every number is checked as it is computed.

use vstd::prelude::*;
use crate::bounding_rect::center_offset;
use crate::style::Theme;
use crate::view::stable::{
    element_alike_itself, laying_out_keeps_alike, moving_keeps_alike, putting_keeps_alike,
    view_alike_itself,
};
use crate::view::stack::{sized, ElementView, Stack, StackView, ViewElement};
use crate::Orientation;

verus! {

/// What it means that the element `i` of a view fits, and how the cursor and
/// the breadth go on from it.
proof fn lemma_child<C, S, H>(
    view: StackView<C, S, H>,
    theme: Theme,
    constraints: (u32, u32),
    is_root: bool,
    i: int,
)
    requires
        0 <= i < view.children.len(),
    ensures
        view.child_fits(theme, constraints, is_root, i) == ({
            &&& view.cursor(theme, is_root, i).0 <= i32::MAX
            &&& view.cursor(theme, is_root, i).1 <= i32::MAX
            &&& view.cursor(theme, is_root, i + 1).0 <= u32::MAX
            &&& view.cursor(theme, is_root, i + 1).1 <= u32::MAX
            &&& view.children[i].can_put(
                theme,
                constraints,
                view.children[i].spot(
                    theme,
                    constraints,
                    view.centered(theme) && view.orientation is Vertical,
                    view.cursor(theme, is_root, i),
                ),
            )
        }),
        view.arranged_child(theme, constraints, is_root, i) == view.children[i].put(
            theme,
            constraints,
            view.children[i].spot(
                theme,
                constraints,
                view.centered(theme) && view.orientation is Vertical,
                view.cursor(theme, is_root, i),
            ),
        ),
        view.cursor(theme, is_root, i + 1) == (match view.orientation {
            Orientation::Vertical => (
                view.cursor(theme, is_root, i).0,
                view.cursor(theme, is_root, i).1 + view.children[i].extent(theme).1
                    + theme.widget_padding.vertical,
            ),
            Orientation::Horizontal => (
                view.cursor(theme, is_root, i).0 + view.children[i].extent(theme).0
                    + theme.widget_padding.horizontal,
                view.cursor(theme, is_root, i).1,
            ),
        }),
        view.breadth(theme, i + 1) == (match view.orientation {
            Orientation::Vertical => if view.children[i].extent(theme).0 > view.breadth(theme, i) {
                view.children[i].extent(theme).0
            } else {
                view.breadth(theme, i)
            },
            Orientation::Horizontal => if view.children[i].extent(theme).1 > view.breadth(theme, i) {
                view.children[i].extent(theme).1
            } else {
                view.breadth(theme, i)
            },
        }),
        view.children_fit(theme, constraints, is_root, i + 1) == (view.children_fit(
            theme,
            constraints,
            is_root,
            i,
        ) && view.child_fits(theme, constraints, is_root, i)),
{
    reveal(StackView::child_fits);
    reveal(StackView::arranged_child);
    reveal(ElementView::can_put);
    reveal(ElementView::put);
}

/// A view of which an element does not fit does not fit.
proof fn lemma_misfit<C, S, H>(
    view: StackView<C, S, H>,
    theme: Theme,
    constraints: (u32, u32),
    is_root: bool,
    n: int,
    i: int,
)
    requires
        0 <= i < n <= view.children.len(),
        !view.child_fits(theme, constraints, is_root, i),
    ensures
        !view.children_fit(theme, constraints, is_root, n),
    decreases n,
{
    reveal(StackView::child_fits);
    if i < n - 1 {
        lemma_misfit(view, theme, constraints, is_root, n - 1, i);
    }
}

/// What it means that the bounds of a view fit.
proof fn lemma_bounds<C, S, H>(view: StackView<C, S, H>, theme: Theme, constraints: (u32, u32), is_root: bool)
    ensures
        view.bounds_fit(theme, constraints, is_root) == ({
            let end = view.cursor(theme, is_root, view.children.len() as int);
            let size = sized(
                theme,
                view.orientation is Vertical,
                is_root,
                end,
                view.breadth(theme, view.children.len() as int),
            );
            &&& is_root ==> end.0 + theme.view_padding.horizontal <= u32::MAX
            &&& is_root ==> end.1 + theme.view_padding.vertical <= u32::MAX
            &&& 0 <= size.0 <= u32::MAX
            &&& 0 <= size.1 <= u32::MAX
            &&& view.centered(theme) ==> view.arranged(theme, constraints, is_root).can_translate(
                0,
                constraints.1 / 2 - size.1 / 2,
            )
        }),
        view.extent(theme, is_root) == sized(
            theme,
            view.orientation is Vertical,
            is_root,
            view.cursor(theme, is_root, view.children.len() as int),
            view.breadth(theme, view.children.len() as int),
        ),
{
    reveal(StackView::bounds_fit);
}

impl<C, S, H> Stack<C, S, H> {
    /// Whether the view can move by `(dx, dy)`, and all that is in it.
    pub fn check_translate(&self, dx: i32, dy: i32) -> (ok: bool)
        ensures
            ok == self@.can_translate(dx as int, dy as int),
        decreases *self,
    {
        if !self.bounds.check_move(dx, dy) {
            return false;
        }
        let n = self.children.len();
        let mut i: usize = 0;
        while i < n
            invariant
                0 <= i <= n,
                n == self.children@.len(),
                self.bounds.can_move(dx as int, dy as int),
                forall|j: int|
                    0 <= j < i ==> (#[trigger] self@.children[j]).can_translate(dx as int, dy as int),
            decreases n - i,
        {
            assert(self@.children[i as int] == self.children@[i as int]@);
            let here = match &self.children[i] {
                ViewElement::Widget(widget) => widget.check_translate(dx, dy),
                ViewElement::View(view) => view.check_translate(dx, dy),
            };
            if !here {
                return false;
            }
            i = i + 1;
        }
        true
    }
}

impl<C, S, H> ViewElement<C, S, H> {
    /// Lays the element out and puts it where the cursor `(x, y)` is, or, if
    /// `center` is set, at the cursor's height in the middle of the width
    /// available, if that can be done. Returns the element's size if it was
    /// done.
    pub fn try_arrange(
        &mut self,
        theme: &Theme,
        constraints: (u32, u32),
        center: bool,
        x: u32,
        y: u32,
    ) -> (size: Option<(u32, u32)>)
        requires
            x <= i32::MAX,
            y <= i32::MAX,
        ensures
            size is Some == old(self)@.can_put(
                *theme,
                constraints,
                old(self)@.spot(*theme, constraints, center, (x as int, y as int)),
            ),
            size matches Some(size) ==> {
                &&& final(self)@ == old(self)@.put(
                    *theme,
                    constraints,
                    old(self)@.spot(*theme, constraints, center, (x as int, y as int)),
                )
                &&& size.0 == old(self)@.extent(*theme).0
                &&& size.1 == old(self)@.extent(*theme).1
            },
            final(self)@.alike(old(self)@),
        decreases *old(self),
    {
        proof {
            reveal(ElementView::put);
            reveal(ElementView::can_put);
            element_alike_itself(self@);
            putting_keeps_alike(
                self@,
                *theme,
                constraints,
                self@.spot(*theme, constraints, center, (x as int, y as int)),
            );
        }
        match self {
            ViewElement::View(view) => {
                proof {
                    lemma_bounds(view@, *theme, constraints, false);
                    laying_out_keeps_alike(view@, *theme, constraints, false);
                }
                if !view.try_layout(theme, constraints, false) {
                    return None;
                }
                let size = view.render_size();
                let to = if center {
                    center_offset(constraints.0, size.0)
                } else {
                    x as i32
                };
                if !view.check_translate(to, y as i32) {
                    return None;
                }
                view.translate(to, y as i32);
                Some(size)
            },
            ViewElement::Widget(widget) => {
                let size = widget.render_size(theme);
                let to = if center {
                    center_offset(constraints.0, size.0)
                } else {
                    x as i32
                };
                if !widget.check_place(to, y as i32) {
                    return None;
                }
                widget.place(to, y as i32);
                Some(size)
            },
        }
    }
}

impl<C, S, H> Stack<C, S, H> {
    /// Lays the view out if it can be laid out: see [`Stack::layout`]. Says
    /// whether it was done. A view that cannot be laid out is left with some
    /// of its elements put in their places and others where they were:
    /// nothing but the places of the widgets and the bounds of the views has
    /// changed.
    pub fn try_layout(&mut self, theme: &Theme, constraints: (u32, u32), is_root: bool) -> (done: bool)
        ensures
            done == old(self)@.fits(*theme, constraints, is_root),
            done ==> final(self)@ == old(self)@.laid_out(*theme, constraints, is_root),
            final(self)@.alike(old(self)@),
        decreases *old(self),
    {
        let alignment = match self.alignment {
            Some(alignment) => alignment,
            None => theme.default_alignment,
        };
        let centered = alignment.is_centered();
        let vertical = self.orientation.is_vertical();
        let mut current_x: u32 = 0;
        let mut current_y: u32 = 0;
        let mut view_width: u32 = 0;
        let mut view_height: u32 = 0;
        if is_root {
            if !centered {
                current_x = current_x + theme.view_padding.horizontal;
            }
            current_y = current_y + theme.view_padding.vertical;
        }
        let n = self.children.len();
        let ghost before = old(self)@;
        let mut i: usize = 0;
        proof {
            assert forall|j: int| 0 <= j < n implies (#[trigger] self.children@[j])@.alike(
                before.children[j],
            ) by {
                element_alike_itself(before.children[j]);
            }
        }
        while i < n
            invariant
                0 <= i <= n,
                n == self.children@.len(),
                n == old(self).children@.len(),
                n == before.children.len(),
                self.orientation == before.orientation,
                self.alignment == before.alignment,
                self.state == before.state,
                self.bounds == before.bounds,
                centered == before.centered(*theme),
                vertical == (before.orientation is Vertical),
                current_x == before.cursor(*theme, is_root, i as int).0,
                current_y == before.cursor(*theme, is_root, i as int).1,
                vertical ==> view_width == before.breadth(*theme, i as int) && view_height == 0,
                !vertical ==> view_height == before.breadth(*theme, i as int) && view_width == 0,
                forall|j: int|
                    0 <= j < i ==> (#[trigger] self.children@[j])@ == before.arranged_child(
                        *theme,
                        constraints,
                        is_root,
                        j,
                    ),
                forall|j: int| i <= j < n ==> self.children@[j] == old(self).children@[j],
                forall|j: int| 0 <= j < n ==> (#[trigger] old(self).children@[j])@ == before.children[j],
                before.children_fit(*theme, constraints, is_root, i as int),
                before == old(self)@,
                forall|j: int| 0 <= j < n ==> (#[trigger] self.children@[j])@.alike(before.children[j]),
            decreases n - i,
        {
            proof {
                lemma_child(before, *theme, constraints, is_root, i as int);
                assert(old(self).children@[i as int]@ == before.children[i as int]);
                if !before.child_fits(*theme, constraints, is_root, i as int) {
                    lemma_misfit(before, *theme, constraints, is_root, n as int, i as int);
                }
            }
            if current_x > i32::MAX as u32 || current_y > i32::MAX as u32 {
                return false;
            }
            let size = match self.children[i].try_arrange(
                theme,
                constraints,
                centered && vertical,
                current_x,
                current_y,
            ) {
                Some(size) => size,
                None => {
                    return false;
                },
            };
            if vertical {
                let next: u64 = current_y as u64 + size.1 as u64 + theme.widget_padding.vertical as u64;
                if next > u32::MAX as u64 {
                    return false;
                }
                current_y = next as u32;
                view_width = if size.0 > view_width {
                    size.0
                } else {
                    view_width
                };
            } else {
                let next: u64 = current_x as u64 + size.0 as u64 + theme.widget_padding.horizontal as u64;
                if next > u32::MAX as u64 {
                    return false;
                }
                current_x = next as u32;
                view_height = if size.1 > view_height {
                    size.1
                } else {
                    view_height
                };
            }
            i = i + 1;
        }
        proof {
            lemma_bounds(before, *theme, constraints, is_root);
        }
        let breadth: i64 = if vertical {
            view_width as i64
        } else {
            view_height as i64
        };
        let (width, height): (i64, i64) = if is_root {
            if current_x as i64 + theme.view_padding.horizontal as i64 > u32::MAX as i64
                || current_y as i64 + theme.view_padding.vertical as i64 > u32::MAX as i64 {
                return false;
            }
            if vertical {
                (
                    current_x as i64 + breadth + theme.view_padding.horizontal as i64,
                    current_y as i64 + theme.view_padding.vertical as i64
                        - theme.widget_padding.vertical as i64,
                )
            } else {
                (
                    current_x as i64 + theme.view_padding.horizontal as i64
                        - theme.widget_padding.horizontal as i64,
                    current_y as i64 + breadth + theme.view_padding.vertical as i64,
                )
            }
        } else {
            if vertical {
                (breadth, current_y as i64 - theme.widget_padding.vertical as i64)
            } else {
                (current_x as i64 - theme.widget_padding.horizontal as i64, breadth)
            }
        };
        if width < 0 || width > u32::MAX as i64 || height < 0 || height > u32::MAX as i64 {
            return false;
        }
        self.bounds.width = width as u32;
        self.bounds.height = height as u32;
        proof {
            reveal(StackView::arranged_child);
            let goal = before.arranged(*theme, constraints, is_root);
            assert(self@.children =~= goal.children);
            assert(self@ == goal);
        }
        proof {
            laying_out_keeps_alike(before, *theme, constraints, is_root);
            if centered {
                moving_keeps_alike(
                    self@,
                    before,
                    0,
                    before.lift(*theme, constraints, is_root),
                );
            }
        }
        if centered {
            let lift = center_offset(constraints.1, self.bounds.height);
            if !self.check_translate(0, lift) {
                return false;
            }
            self.translate(0, lift);
        }
        true
    }
}

} // verus!
