//! Laying a view out again changes nothing: where the widgets go depends on
//! what is in the tree, not on where the widgets were before.

use vstd::prelude::*;
use crate::style::Theme;
use crate::view::stack::{ElementView, StackView};
use crate::widget::Widget;

verus! {

/// Whether two widgets differ in nothing but where they are: put at the same
/// place they are the same.
pub open spec fn widgets_alike<C, S, H>(a: Widget<C, S, H>, b: Widget<C, S, H>) -> bool {
    a.placed(0, 0) == b.placed(0, 0)
}

impl<C, S, H> ElementView<C, S, H> {
    /// Whether two elements differ in nothing but where their widgets are
    /// and in the bounds of their views.
    pub open spec fn alike(self, other: Self) -> bool
        decreases self,
    {
        match self {
            ElementView::Widget(a) => other matches ElementView::Widget(b) && widgets_alike(a, b),
            ElementView::View(a) => other matches ElementView::View(b) && a.alike(b),
        }
    }

    /// Whether two elements hold the same widgets at the same places, and
    /// views of the same sizes; where the bounds of the views are is not
    /// asked.
    pub open spec fn same_frames(self, other: Self) -> bool
        decreases self,
    {
        match self {
            ElementView::Widget(a) => other == self,
            ElementView::View(a) => other matches ElementView::View(b) && a.same_frames(b),
        }
    }
}

impl<C, S, H> StackView<C, S, H> {
    /// Whether two views differ in nothing but where their widgets are and in
    /// their own bounds and those of the views in them.
    pub open spec fn alike(self, other: Self) -> bool
        decreases self,
    {
        &&& self.orientation == other.orientation
        &&& self.alignment == other.alignment
        &&& self.state == other.state
        &&& self.children.len() == other.children.len()
        &&& forall|i: int|
            0 <= i < self.children.len() ==> (#[trigger] self.children[i]).alike(other.children[i])
    }

    /// Whether two views hold the same widgets at the same places and are of
    /// the same size, as are the views in them; where the bounds of the views
    /// are is not asked.
    pub open spec fn same_frames(self, other: Self) -> bool
        decreases self,
    {
        &&& self.orientation == other.orientation
        &&& self.alignment == other.alignment
        &&& self.state == other.state
        &&& self.bounds.width == other.bounds.width
        &&& self.bounds.height == other.bounds.height
        &&& self.children.len() == other.children.len()
        &&& forall|i: int|
            0 <= i < self.children.len() ==> (#[trigger] self.children[i]).same_frames(
                other.children[i],
            )
    }
}

/// Widgets that are alike are the same wherever they are put, and of the
/// same size.
proof fn lemma_alike_widgets_place_alike<C, S, H>(a: Widget<C, S, H>, b: Widget<C, S, H>, x: i32, y: i32)
    requires
        widgets_alike(a, b),
    ensures
        a.placed(x, y) == b.placed(x, y),
        a.size() == b.size(),
{
}

/// A widget that was put somewhere or moved is like the widget it was.
pub proof fn placing_keeps_alike<C, S, H>(w: Widget<C, S, H>, x: i32, y: i32, dx: int, dy: int)
    ensures
        widgets_alike(w.placed(x, y), w),
        widgets_alike(w.translated(dx, dy), w),
{
}

/// Views that are alike put their elements at the same places.
proof fn lemma_alike_measure<C, S, H>(
    a: StackView<C, S, H>,
    b: StackView<C, S, H>,
    theme: Theme,
    is_root: bool,
    n: int,
)
    requires
        a.alike(b),
    ensures
        a.cursor(theme, is_root, n) == b.cursor(theme, is_root, n),
        a.breadth(theme, n) == b.breadth(theme, n),
    decreases a, n,
{
    if 0 < n <= a.children.len() {
        lemma_alike_measure(a, b, theme, is_root, n - 1);
        lemma_alike_extent(a.children[n - 1], b.children[n - 1], theme);
    }
}

/// Elements that are alike have the same extent once they are laid out.
proof fn lemma_alike_extent<C, S, H>(a: ElementView<C, S, H>, b: ElementView<C, S, H>, theme: Theme)
    requires
        a.alike(b),
    ensures
        a.extent(theme) == b.extent(theme),
    decreases a, 0int,
{
    match a {
        ElementView::Widget(w) => {
            lemma_alike_widgets_place_alike(w, b->Widget_0, 0, 0);
        },
        ElementView::View(v) => {
            lemma_alike_size(v, b->View_0, theme, false);
        },
    }
}

/// Views that are alike have the same extent once they are laid out.
proof fn lemma_alike_size<C, S, H>(a: StackView<C, S, H>, b: StackView<C, S, H>, theme: Theme, is_root: bool)
    requires
        a.alike(b),
    ensures
        a.extent(theme, is_root) == b.extent(theme, is_root),
    decreases a, a.children.len() + 1,
{
    lemma_alike_measure(a, b, theme, is_root, a.children.len() as int);
}

/// An element that was moved is like what the element was like.
proof fn lemma_moved_element_alike<C, S, H>(
    a: ElementView<C, S, H>,
    b: ElementView<C, S, H>,
    dx: int,
    dy: int,
)
    requires
        a.alike(b),
    ensures
        a.translated(dx, dy).alike(b),
    decreases a,
{
    match a {
        ElementView::Widget(w) => {
            placing_keeps_alike(w, 0, 0, dx, dy);
        },
        ElementView::View(v) => {
            moving_keeps_alike(v, b->View_0, dx, dy);
        },
    }
}

/// A view that was moved is like what the view was like.
pub proof fn moving_keeps_alike<C, S, H>(a: StackView<C, S, H>, b: StackView<C, S, H>, dx: int, dy: int)
    requires
        a.alike(b),
    ensures
        a.translated(dx, dy).alike(b),
    decreases a,
{
    let moved = a.translated(dx, dy);
    assert forall|i: int| 0 <= i < moved.children.len() implies (#[trigger] moved.children[i]).alike(
        b.children[i],
    ) by {
        assert(a.children[i].alike(b.children[i]));
        lemma_moved_element_alike(a.children[i], b.children[i], dx, dy);
    }
}

/// Elements with the same frames have the same frames when both are moved
/// alike.
proof fn lemma_moved_element_frames<C, S, H>(
    a: ElementView<C, S, H>,
    b: ElementView<C, S, H>,
    dx: int,
    dy: int,
)
    requires
        a.same_frames(b),
    ensures
        a.translated(dx, dy).same_frames(b.translated(dx, dy)),
    decreases a,
{
    match a {
        ElementView::Widget(w) => {},
        ElementView::View(v) => {
            lemma_moved_frames(v, b->View_0, dx, dy);
        },
    }
}

/// Views with the same frames have the same frames when both are moved
/// alike.
proof fn lemma_moved_frames<C, S, H>(a: StackView<C, S, H>, b: StackView<C, S, H>, dx: int, dy: int)
    requires
        a.same_frames(b),
    ensures
        a.translated(dx, dy).same_frames(b.translated(dx, dy)),
    decreases a,
{
    let moved = a.translated(dx, dy);
    let other = b.translated(dx, dy);
    assert forall|i: int| 0 <= i < moved.children.len() implies (
    #[trigger] moved.children[i]).same_frames(other.children[i]) by {
        assert(a.children[i].same_frames(b.children[i]));
        lemma_moved_element_frames(a.children[i], b.children[i], dx, dy);
    }
}

/// Views that are alike have the same frames once they are laid out.
proof fn lemma_alike_lay_out_alike<C, S, H>(
    a: StackView<C, S, H>,
    b: StackView<C, S, H>,
    theme: Theme,
    constraints: (u32, u32),
    is_root: bool,
)
    requires
        a.alike(b),
    ensures
        a.laid_out(theme, constraints, is_root).same_frames(b.laid_out(theme, constraints, is_root)),
    decreases a,
{
    reveal(StackView::arranged_child);
    reveal(ElementView::put);
    let arranged = a.arranged(theme, constraints, is_root);
    let other = b.arranged(theme, constraints, is_root);
    lemma_alike_size(a, b, theme, is_root);
    assert forall|i: int| 0 <= i < arranged.children.len() implies (
    #[trigger] arranged.children[i]).same_frames(other.children[i]) by {
        assert(a.children[i].alike(b.children[i]));
        lemma_alike_measure(a, b, theme, is_root, i);
        lemma_alike_extent(a.children[i], b.children[i], theme);
        let at = a.position(theme, constraints, is_root, i);
        assert(at == b.position(theme, constraints, is_root, i));
        match a.children[i] {
            ElementView::Widget(w) => {
                lemma_alike_widgets_place_alike(w, b.children[i]->Widget_0, at.0 as i32, at.1 as i32);
            },
            ElementView::View(v) => {
                let u = b.children[i]->View_0;
                lemma_alike_lay_out_alike(v, u, theme, constraints, false);
                lemma_moved_frames(
                    v.laid_out(theme, constraints, false),
                    u.laid_out(theme, constraints, false),
                    at.0,
                    at.1,
                );
            },
        }
    }
    assert(arranged.same_frames(other));
    if a.centered(theme) {
        lemma_moved_frames(arranged, other, 0, a.lift(theme, constraints, is_root));
    }
}

/// A view that was laid out is like the view it was.
pub proof fn laying_out_keeps_alike<C, S, H>(
    a: StackView<C, S, H>,
    theme: Theme,
    constraints: (u32, u32),
    is_root: bool,
)
    ensures
        a.laid_out(theme, constraints, is_root).alike(a),
    decreases a,
{
    reveal(StackView::arranged_child);
    reveal(ElementView::put);
    let arranged = a.arranged(theme, constraints, is_root);
    assert forall|i: int| 0 <= i < arranged.children.len() implies (#[trigger] arranged.children[i]).alike(
        a.children[i],
    ) by {
        let at = a.position(theme, constraints, is_root, i);
        match a.children[i] {
            ElementView::Widget(w) => {
                placing_keeps_alike(w, at.0 as i32, at.1 as i32, 0, 0);
            },
            ElementView::View(v) => {
                laying_out_keeps_alike(v, theme, constraints, false);
                moving_keeps_alike(v.laid_out(theme, constraints, false), v, at.0, at.1);
            },
        }
    }
    assert(arranged.alike(a));
    if a.centered(theme) {
        moving_keeps_alike(arranged, a, 0, a.lift(theme, constraints, is_root));
    }
}

/// Laying a view out twice under the same theme in a window of the same size
/// puts every widget where laying it out once puts it, and gives every view
/// the same size.
pub proof fn layout_is_stable<C, S, H>(
    view: StackView<C, S, H>,
    theme: Theme,
    constraints: (u32, u32),
    is_root: bool,
)
    ensures
        view.laid_out(theme, constraints, is_root).laid_out(theme, constraints, is_root).same_frames(
            view.laid_out(theme, constraints, is_root),
        ),
{
    laying_out_keeps_alike(view, theme, constraints, is_root);
    lemma_alike_lay_out_alike(
        view.laid_out(theme, constraints, is_root),
        view,
        theme,
        constraints,
        is_root,
    );
}

/// Where the widgets of a view go when it is laid out depends on what is in
/// the view, not on where the widgets were: views that differ in that alone
/// are laid out the same.
pub proof fn layout_forgets_positions<C, S, H>(
    view: StackView<C, S, H>,
    other: StackView<C, S, H>,
    theme: Theme,
    constraints: (u32, u32),
    is_root: bool,
)
    requires
        view.alike(other),
    ensures
        view.laid_out(theme, constraints, is_root).same_frames(
            other.laid_out(theme, constraints, is_root),
        ),
{
    lemma_alike_lay_out_alike(view, other, theme, constraints, is_root);
}

/// Every element is like itself.
pub proof fn element_alike_itself<C, S, H>(element: ElementView<C, S, H>)
    ensures
        element.alike(element),
    decreases element,
{
    match element {
        ElementView::Widget(_) => {},
        ElementView::View(view) => {
            view_alike_itself(view);
        },
    }
}

/// Every view is like itself.
pub proof fn view_alike_itself<C, S, H>(view: StackView<C, S, H>)
    ensures
        view.alike(view),
    decreases view,
{
    assert forall|i: int| 0 <= i < view.children.len() implies (#[trigger] view.children[i]).alike(
        view.children[i],
    ) by {
        element_alike_itself(view.children[i]);
    }
}

/// An element that was laid out and put somewhere is like the element it
/// was.
pub proof fn putting_keeps_alike<C, S, H>(
    element: ElementView<C, S, H>,
    theme: Theme,
    constraints: (u32, u32),
    at: (int, int),
)
    ensures
        element.put(theme, constraints, at).alike(element),
{
    reveal(ElementView::put);
    match element {
        ElementView::Widget(w) => {
            placing_keeps_alike(w, at.0 as i32, at.1 as i32, 0, 0);
        },
        ElementView::View(v) => {
            laying_out_keeps_alike(v, theme, constraints, false);
            moving_keeps_alike(v.laid_out(theme, constraints, false), v, at.0, at.1);
        },
    }
}

} // verus!
