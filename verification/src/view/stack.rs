//! The stack: the view that lines its elements up along one axis.

use vstd::prelude::*;
use crate::bounding_rect::{center_offset, BoundingRect};
use crate::state::State;
use crate::style::Theme;
use crate::widget::Widget;
use crate::{Alignment, Orientation};

verus! {

/// An element of a view: a widget, or a view nested in the view.
pub enum ViewElement<C, S, H> {
    Widget(Widget<C, S, H>),
    View(Stack<C, S, H>),
}

/// A view that lines its elements up along one axis: from top to bottom if it
/// is vertical, from left to right if it is horizontal.
pub struct Stack<C, S, H> {
    pub orientation: Orientation,
    /// How the elements are aligned; the theme's alignment where none is set.
    pub alignment: Option<Alignment>,
    /// The store of the tree, in the root view; nested views have none of
    /// their own and work on their root's.
    pub state: Option<State>,
    pub children: Vec<ViewElement<C, S, H>>,
    pub bounds: BoundingRect,
}

/// A view element as a value: see [`StackView`].
pub enum ElementView<C, S, H> {
    Widget(Widget<C, S, H>),
    View(StackView<C, S, H>),
}

/// A stack as a value: what [`Stack`] holds, with the elements as a sequence.
pub struct StackView<C, S, H> {
    pub orientation: Orientation,
    pub alignment: Option<Alignment>,
    pub state: Option<State>,
    pub children: Seq<ElementView<C, S, H>>,
    pub bounds: BoundingRect,
}

impl<C, S, H> ViewElement<C, S, H> {
    /// The element as a value.
    pub open spec fn view(&self) -> ElementView<C, S, H>
        decreases self,
    {
        match self {
            ViewElement::Widget(widget) => ElementView::Widget(*widget),
            ViewElement::View(stack) => ElementView::View(stack.view()),
        }
    }
}

impl<C, S, H> Stack<C, S, H> {
    /// The stack as a value.
    pub open spec fn view(&self) -> StackView<C, S, H>
        decreases self,
    {
        StackView {
            orientation: self.orientation,
            alignment: self.alignment,
            state: self.state,
            children: Seq::new(
                self.children@.len(),
                |i: int|
                    if 0 <= i < self.children@.len() {
                        self.children@[i].view()
                    } else {
                        arbitrary()
                    },
            ),
            bounds: self.bounds,
        }
    }
}

/// The width and the height of a view whose cursor ended at `end` and whose
/// widest element is `breadth` across: see [`StackView::extent`].
pub open spec fn sized(theme: Theme, vertical: bool, is_root: bool, end: (int, int), breadth: int) -> (
    int,
    int,
) {
    if is_root {
        if vertical {
            (
                end.0 + breadth + theme.view_padding.horizontal,
                end.1 + theme.view_padding.vertical - theme.widget_padding.vertical,
            )
        } else {
            (
                end.0 + theme.view_padding.horizontal - theme.widget_padding.horizontal,
                end.1 + breadth + theme.view_padding.vertical,
            )
        }
    } else {
        if vertical {
            (breadth, end.1 - theme.widget_padding.vertical)
        } else {
            (end.0 - theme.widget_padding.horizontal, breadth)
        }
    }
}

/// Sizes the bounds of a view whose elements are in their places: see
/// [`sized`].
fn bounds_size(theme: &Theme, vertical: bool, is_root: bool, end: (u32, u32), breadth: u32) -> (size: (
    u32,
    u32,
))
    requires
        is_root ==> end.0 + theme.view_padding.horizontal <= u32::MAX,
        is_root ==> end.1 + theme.view_padding.vertical <= u32::MAX,
        0 <= sized(*theme, vertical, is_root, (end.0 as int, end.1 as int), breadth as int).0
            <= u32::MAX,
        0 <= sized(*theme, vertical, is_root, (end.0 as int, end.1 as int), breadth as int).1
            <= u32::MAX,
    ensures
        size.0 == sized(*theme, vertical, is_root, (end.0 as int, end.1 as int), breadth as int).0,
        size.1 == sized(*theme, vertical, is_root, (end.0 as int, end.1 as int), breadth as int).1,
{
    if is_root {
        if vertical {
            (
                end.0 + breadth + theme.view_padding.horizontal,
                end.1 + theme.view_padding.vertical - theme.widget_padding.vertical,
            )
        } else {
            (
                end.0 + theme.view_padding.horizontal - theme.widget_padding.horizontal,
                end.1 + breadth + theme.view_padding.vertical,
            )
        }
    } else {
        if vertical {
            (breadth, end.1 - theme.widget_padding.vertical)
        } else {
            (end.0 - theme.widget_padding.horizontal, breadth)
        }
    }
}

impl<C, S, H> ViewElement<C, S, H> {
    /// Lays the element out and puts it where the cursor `(x, y)` is, or, if
    /// `center` is set, at the cursor's height in the middle of the width
    /// available. Returns the element's size.
    pub fn arrange(
        &mut self,
        theme: &Theme,
        constraints: (u32, u32),
        center: bool,
        x: u32,
        y: u32,
    ) -> (size: (u32, u32))
        requires
            x <= i32::MAX,
            y <= i32::MAX,
            old(self)@.can_put(
                *theme,
                constraints,
                old(self)@.spot(*theme, constraints, center, (x as int, y as int)),
            ),
        ensures
            final(self)@ == old(self)@.put(
                *theme,
                constraints,
                old(self)@.spot(*theme, constraints, center, (x as int, y as int)),
            ),
            size.0 == old(self)@.extent(*theme).0,
            size.1 == old(self)@.extent(*theme).1,
        decreases *old(self),
    {
        proof {
            reveal(ElementView::put);
            reveal(ElementView::can_put);
        }
        match self {
            ViewElement::View(view) => {
                proof {
                    lemma_layout_end(view@, *theme, constraints, false);
                }
                view.layout(theme, constraints, false);
                let size = view.render_size();
                if center {
                    view.translate(center_offset(constraints.0, size.0), y as i32);
                } else {
                    view.translate(x as i32, y as i32);
                }
                size
            },
            ViewElement::Widget(widget) => {
                let size = widget.render_size(theme);
                if center {
                    widget.place(center_offset(constraints.0, size.0), y as i32);
                } else {
                    widget.place(x as i32, y as i32);
                }
                size
            },
        }
    }
}

impl<C, S, H> Stack<C, S, H> {
    /// A stack of the given elements, without an alignment or a state of its
    /// own and without extent.
    pub fn new(orientation: Orientation, children: Vec<ViewElement<C, S, H>>) -> (stack: Self)
        ensures
            stack == (Stack {
                orientation,
                alignment: None,
                state: None,
                children,
                bounds: BoundingRect { x: 0, y: 0, width: 0, height: 0 },
            }),
    {
        Stack { orientation, alignment: None, state: None, children, bounds: BoundingRect::new() }
    }

    /// Sets how the elements are aligned.
    pub fn alignment(self, alignment: Alignment) -> (stack: Self)
        ensures
            stack == (Stack { alignment: Some(alignment), ..self }),
    {
        let mut stack = self;
        stack.alignment = Some(alignment);
        stack
    }

    pub fn render_width(&self) -> (width: u32)
        ensures
            width == self@.bounds.width,
    {
        self.bounds.width
    }

    pub fn render_height(&self) -> (height: u32)
        ensures
            height == self@.bounds.height,
    {
        self.bounds.height
    }

    /// The size of the view as it was last laid out.
    pub fn render_size(&self) -> (size: (u32, u32))
        ensures
            size == (self@.bounds.width, self@.bounds.height),
    {
        (self.render_width(), self.render_height())
    }

    /// Moves the view by `(dx, dy)`, and every element with it.
    pub fn translate(&mut self, dx: i32, dy: i32)
        requires
            old(self)@.can_translate(dx as int, dy as int),
        ensures
            final(self)@ == old(self)@.translated(dx as int, dy as int),
        decreases *old(self),
    {
        self.bounds.x = self.bounds.x + dx;
        self.bounds.y = self.bounds.y + dy;
        let n = self.children.len();
        let mut i: usize = 0;
        while i < n
            invariant
                0 <= i <= n,
                n == self.children@.len(),
                n == old(self).children@.len(),
                self.orientation == old(self).orientation,
                self.alignment == old(self).alignment,
                self.state == old(self).state,
                self.bounds == old(self).bounds.moved(dx as int, dy as int),
                forall|j: int|
                    0 <= j < i ==> (#[trigger] self.children@[j])@ == old(self).children@[j]@.translated(
                        dx as int,
                        dy as int,
                    ),
                forall|j: int| i <= j < n ==> self.children@[j] == old(self).children@[j],
                old(self)@.can_translate(dx as int, dy as int),
            decreases n - i,
        {
            assert(old(self)@.children[i as int].can_translate(dx as int, dy as int));
            match &mut self.children[i] {
                ViewElement::Widget(widget) => {
                    widget.translate(dx, dy);
                },
                ViewElement::View(view) => {
                    view.translate(dx, dy);
                },
            }
            i = i + 1;
        }
        assert(self@.children =~= old(self)@.translated(dx as int, dy as int).children);
    }

    /// Lays the view out under `theme` in a window of the size `constraints`:
    /// puts every element in its place, one after the other along the axis,
    /// sizes the bounds to hold them all, and, if the view is centered, moves
    /// it so that its middle is at the middle of the window's height. A root
    /// view keeps the theme's view padding free round its elements; a nested
    /// view is laid out like a widget, without it.
    pub fn layout(&mut self, theme: &Theme, constraints: (u32, u32), is_root: bool)
        requires
            old(self)@.fits(*theme, constraints, is_root),
        ensures
            final(self)@ == old(self)@.laid_out(*theme, constraints, is_root),
        decreases *old(self),
    {
        let alignment = match self.alignment {
            Some(alignment) => alignment,
            None => theme.default_alignment,
        };
        let centered = alignment.is_centered();
        let vertical = self.orientation.is_vertical();
        let mut current_x: u32 = 0;
        let mut current_y: u32 = 0;
        let mut view_width: u32 = 0;
        let mut view_height: u32 = 0;
        if is_root {
            if !centered {
                current_x = current_x + theme.view_padding.horizontal;
            }
            current_y = current_y + theme.view_padding.vertical;
        }
        let n = self.children.len();
        let ghost before = old(self)@;
        let mut i: usize = 0;
        while i < n
            invariant
                0 <= i <= n,
                n == self.children@.len(),
                n == old(self).children@.len(),
                n == before.children.len(),
                self.orientation == before.orientation,
                self.alignment == before.alignment,
                self.state == before.state,
                self.bounds == before.bounds,
                centered == before.centered(*theme),
                vertical == (before.orientation is Vertical),
                current_x == before.cursor(*theme, is_root, i as int).0,
                current_y == before.cursor(*theme, is_root, i as int).1,
                vertical ==> view_width == before.breadth(*theme, i as int) && view_height == 0,
                !vertical ==> view_height == before.breadth(*theme, i as int) && view_width == 0,
                forall|j: int|
                    0 <= j < i ==> (#[trigger] self.children@[j])@ == before.arranged_child(
                        *theme,
                        constraints,
                        is_root,
                        j,
                    ),
                forall|j: int| i <= j < n ==> self.children@[j] == old(self).children@[j],
                forall|j: int| 0 <= j < n ==> (#[trigger] old(self).children@[j])@ == before.children[j],
                before.fits(*theme, constraints, is_root),
            decreases n - i,
        {
            proof {
                lemma_layout_step(before, *theme, constraints, is_root, i as int);
                assert(old(self).children@[i as int]@ == before.children[i as int]);
            }
            let size = self.children[i].arrange(
                theme,
                constraints,
                centered && vertical,
                current_x,
                current_y,
            );
            let child_width = size.0;
            let child_height = size.1;
            if vertical {
                current_y = current_y + (child_height + theme.widget_padding.vertical);
                view_width = if child_width > view_width {
                    child_width
                } else {
                    view_width
                };
            } else {
                current_x = current_x + (child_width + theme.widget_padding.horizontal);
                view_height = if child_height > view_height {
                    child_height
                } else {
                    view_height
                };
            }
            i = i + 1;
        }
        proof {
            lemma_layout_end(before, *theme, constraints, is_root);
        }
        let size = bounds_size(
            theme,
            vertical,
            is_root,
            (current_x, current_y),
            if vertical {
                view_width
            } else {
                view_height
            },
        );
        self.bounds.width = size.0;
        self.bounds.height = size.1;
        proof {
            reveal(StackView::arranged_child);
            let goal = before.arranged(*theme, constraints, is_root);
            assert(self@.children =~= goal.children);
            assert(self@ == goal);
        }
        if centered {
            let height = self.bounds.height;
            self.translate(0, center_offset(constraints.1, height));
        }
    }
}

/// A view whose first `n` elements fit has each of them fit.
proof fn lemma_child_fits<C, S, H>(
    view: StackView<C, S, H>,
    theme: Theme,
    constraints: (u32, u32),
    is_root: bool,
    n: int,
    i: int,
)
    requires
        view.children_fit(theme, constraints, is_root, n),
        0 <= i < n <= view.children.len(),
    ensures
        view.child_fits(theme, constraints, is_root, i),
    decreases n,
{
    reveal(StackView::child_fits);
    if i < n - 1 {
        lemma_child_fits(view, theme, constraints, is_root, n - 1, i);
    }
}

/// What fitting says of the element `i` of a view, and how the cursor and the
/// breadth go on from it.
proof fn lemma_layout_step<C, S, H>(
    view: StackView<C, S, H>,
    theme: Theme,
    constraints: (u32, u32),
    is_root: bool,
    i: int,
)
    requires
        view.fits(theme, constraints, is_root),
        0 <= i < view.children.len(),
    ensures
        view.cursor(theme, is_root, i).0 <= i32::MAX,
        view.cursor(theme, is_root, i).1 <= i32::MAX,
        view.cursor(theme, is_root, i + 1).0 <= u32::MAX,
        view.cursor(theme, is_root, i + 1).1 <= u32::MAX,
        view.children[i].can_put(
            theme,
            constraints,
            view.children[i].spot(
                theme,
                constraints,
                view.centered(theme) && view.orientation is Vertical,
                view.cursor(theme, is_root, i),
            ),
        ),
        view.arranged_child(theme, constraints, is_root, i) == view.children[i].put(
            theme,
            constraints,
            view.children[i].spot(
                theme,
                constraints,
                view.centered(theme) && view.orientation is Vertical,
                view.cursor(theme, is_root, i),
            ),
        ),
        view.cursor(theme, is_root, i + 1) == (match view.orientation {
            Orientation::Vertical => (
                view.cursor(theme, is_root, i).0,
                view.cursor(theme, is_root, i).1 + view.children[i].extent(theme).1
                    + theme.widget_padding.vertical,
            ),
            Orientation::Horizontal => (
                view.cursor(theme, is_root, i).0 + view.children[i].extent(theme).0
                    + theme.widget_padding.horizontal,
                view.cursor(theme, is_root, i).1,
            ),
        }),
        view.breadth(theme, i + 1) == (match view.orientation {
            Orientation::Vertical => if view.children[i].extent(theme).0 > view.breadth(theme, i) {
                view.children[i].extent(theme).0
            } else {
                view.breadth(theme, i)
            },
            Orientation::Horizontal => if view.children[i].extent(theme).1 > view.breadth(theme, i) {
                view.children[i].extent(theme).1
            } else {
                view.breadth(theme, i)
            },
        }),
{
    lemma_child_fits(view, theme, constraints, is_root, view.children.len() as int, i);
    reveal(StackView::child_fits);
    reveal(StackView::arranged_child);
    reveal(ElementView::can_put);
    reveal(ElementView::put);
}

/// What fitting says of the bounds of a view.
proof fn lemma_layout_end<C, S, H>(
    view: StackView<C, S, H>,
    theme: Theme,
    constraints: (u32, u32),
    is_root: bool,
)
    requires
        view.fits(theme, constraints, is_root),
    ensures
        ({
            let end = view.cursor(theme, is_root, view.children.len() as int);
            let size = sized(
                theme,
                view.orientation is Vertical,
                is_root,
                end,
                view.breadth(theme, view.children.len() as int),
            );
            &&& is_root ==> end.0 + theme.view_padding.horizontal <= u32::MAX
            &&& is_root ==> end.1 + theme.view_padding.vertical <= u32::MAX
            &&& 0 <= size.0 <= u32::MAX
            &&& 0 <= size.1 <= u32::MAX
            &&& view.extent(theme, is_root) == size
            &&& view.centered(theme) ==> view.arranged(theme, constraints, is_root).can_translate(
                0,
                constraints.1 / 2 - size.1 / 2,
            )
        }),
{
    reveal(StackView::bounds_fit);
}

impl<C, S, H> ElementView<C, S, H> {
    /// Whether the element can move by `(dx, dy)`.
    pub open spec fn can_translate(self, dx: int, dy: int) -> bool
        decreases self,
    {
        match self {
            ElementView::Widget(widget) => widget.can_translate(dx, dy),
            ElementView::View(view) => view.can_translate(dx, dy),
        }
    }

    /// The element moved by `(dx, dy)`.
    pub open spec fn translated(self, dx: int, dy: int) -> Self
        decreases self,
    {
        match self {
            ElementView::Widget(widget) => ElementView::Widget(widget.translated(dx, dy)),
            ElementView::View(view) => ElementView::View(view.translated(dx, dy)),
        }
    }

    /// The width and the height that the element has once it is laid out.
    pub open spec fn extent(self, theme: Theme) -> (int, int)
        decreases self, 0int,
    {
        match self {
            ElementView::Widget(widget) => (widget.size().0 as int, widget.size().1 as int),
            ElementView::View(view) => view.extent(theme, false),
        }
    }

    /// Where the element is put when the cursor is at `cursor`: there, or, if
    /// `center` is set, at the cursor's height in the middle of the width
    /// available.
    pub open spec fn spot(
        self,
        theme: Theme,
        constraints: (u32, u32),
        center: bool,
        cursor: (int, int),
    ) -> (int, int) {
        if center {
            (constraints.0 / 2 - (self.extent(theme).0 / 2), cursor.1)
        } else {
            cursor
        }
    }

    /// The element laid out and put at `at`: a widget is placed there, a
    /// nested view is laid out and then moved there.
    #[verifier::opaque]
    pub open spec fn put(self, theme: Theme, constraints: (u32, u32), at: (int, int)) -> Self
        decreases self, 3int,
    {
        match self {
            ElementView::Widget(widget) => ElementView::Widget(widget.placed(at.0 as i32, at.1 as i32)),
            ElementView::View(view) => ElementView::View(
                view.laid_out(theme, constraints, false).translated(at.0, at.1),
            ),
        }
    }

    /// Whether the element can be laid out and put at `at`.
    #[verifier::opaque]
    pub open spec fn can_put(self, theme: Theme, constraints: (u32, u32), at: (int, int)) -> bool
        decreases self, 4int,
    {
        match self {
            ElementView::Widget(widget) => widget.can_place(at.0 as i32, at.1 as i32),
            ElementView::View(view) => view.fits(theme, constraints, false) && view.laid_out(
                theme,
                constraints,
                false,
            ).can_translate(at.0, at.1),
        }
    }
}

impl<C, S, H> StackView<C, S, H> {
    /// Whether the view can move by `(dx, dy)`: whether its bounds and all
    /// its elements can.
    pub open spec fn can_translate(self, dx: int, dy: int) -> bool
        decreases self,
    {
        &&& self.bounds.can_move(dx, dy)
        &&& forall|i: int|
            0 <= i < self.children.len() ==> (#[trigger] self.children[i]).can_translate(dx, dy)
    }

    /// The view moved by `(dx, dy)`, all its elements with it.
    pub open spec fn translated(self, dx: int, dy: int) -> Self
        decreases self,
    {
        StackView {
            bounds: self.bounds.moved(dx, dy),
            children: Seq::new(
                self.children.len(),
                |i: int|
                    if 0 <= i < self.children.len() {
                        self.children[i].translated(dx, dy)
                    } else {
                        arbitrary()
                    },
            ),
            ..self
        }
    }

    /// The alignment of the view under a theme.
    pub open spec fn alignment_under(self, theme: Theme) -> Alignment {
        match self.alignment {
            Some(alignment) => alignment,
            None => theme.default_alignment,
        }
    }

    /// Whether the view centers its elements under a theme.
    pub open spec fn centered(self, theme: Theme) -> bool {
        self.alignment_under(theme) is Center
    }

    /// Where the first element goes. A root view keeps the theme's view
    /// padding free above it, and to its left unless it is centered.
    pub open spec fn origin(self, theme: Theme, is_root: bool) -> (int, int) {
        (
            if is_root && !self.centered(theme) {
                theme.view_padding.horizontal as int
            } else {
                0
            },
            if is_root {
                theme.view_padding.vertical as int
            } else {
                0
            },
        )
    }

    /// Where the element after the first `n` goes, were it put right after
    /// them: each element takes its extent along the axis and the theme's
    /// widget padding after it.
    pub open spec fn cursor(self, theme: Theme, is_root: bool, n: int) -> (int, int)
        decreases self, n,
    {
        if n <= 0 || n > self.children.len() {
            self.origin(theme, is_root)
        } else {
            let before = self.cursor(theme, is_root, n - 1);
            let extent = self.children[n - 1].extent(theme);
            match self.orientation {
                Orientation::Vertical => (
                    before.0,
                    before.1 + extent.1 + theme.widget_padding.vertical,
                ),
                Orientation::Horizontal => (
                    before.0 + extent.0 + theme.widget_padding.horizontal,
                    before.1,
                ),
            }
        }
    }

    /// The largest extent across the axis among the first `n` elements.
    pub open spec fn breadth(self, theme: Theme, n: int) -> int
        decreases self, n,
    {
        if n <= 0 || n > self.children.len() {
            0
        } else {
            let before = self.breadth(theme, n - 1);
            let extent = self.children[n - 1].extent(theme);
            let across = match self.orientation {
                Orientation::Vertical => extent.0,
                Orientation::Horizontal => extent.1,
            };
            if across > before {
                across
            } else {
                before
            }
        }
    }

    /// The width and the height of the view once it is laid out. Along the
    /// axis it reaches to the end of the last element; a root view keeps the
    /// view padding free after it too. Across the axis it is as wide as its
    /// widest element, and a root view has the view padding on both sides.
    pub open spec fn extent(self, theme: Theme, is_root: bool) -> (int, int)
        decreases self, self.children.len() + 1,
    {
        sized(
            theme,
            self.orientation is Vertical,
            is_root,
            self.cursor(theme, is_root, self.children.len() as int),
            self.breadth(theme, self.children.len() as int),
        )
    }

    /// Where the element `i` is put: in a centered vertical view in the
    /// middle of the width available, else where the cursor is.
    pub open spec fn position(self, theme: Theme, constraints: (u32, u32), is_root: bool, i: int) -> (
        int,
        int,
    ) {
        self.children[i].spot(
            theme,
            constraints,
            self.centered(theme) && self.orientation is Vertical,
            self.cursor(theme, is_root, i),
        )
    }

    /// How far the whole view is moved down at the end so that its middle is
    /// at the middle of the height available, if it is centered.
    pub open spec fn lift(self, theme: Theme, constraints: (u32, u32), is_root: bool) -> int {
        constraints.1 / 2 - self.extent(theme, is_root).1 / 2
    }

    /// The element `i` laid out and put in its place, before the view is
    /// moved as a whole.
    #[verifier::opaque]
    pub open spec fn arranged_child(
        self,
        theme: Theme,
        constraints: (u32, u32),
        is_root: bool,
        i: int,
    ) -> ElementView<C, S, H>
        decreases self, 0int,
    {
        if 0 <= i < self.children.len() {
            self.children[i].put(theme, constraints, self.position(theme, constraints, is_root, i))
        } else {
            arbitrary()
        }
    }

    /// The view with every element in its place and the bounds sized, before
    /// the view is moved as a whole.
    pub open spec fn arranged(self, theme: Theme, constraints: (u32, u32), is_root: bool) -> Self
        decreases self, 1int,
    {
        StackView {
            children: Seq::new(
                self.children.len(),
                |i: int| self.arranged_child(theme, constraints, is_root, i),
            ),
            bounds: BoundingRect {
                width: self.extent(theme, is_root).0 as u32,
                height: self.extent(theme, is_root).1 as u32,
                ..self.bounds
            },
            ..self
        }
    }

    /// The view laid out under `theme` in a window of the size `constraints`.
    pub open spec fn laid_out(self, theme: Theme, constraints: (u32, u32), is_root: bool) -> Self
        decreases self, 2int,
    {
        if self.centered(theme) {
            self.arranged(theme, constraints, is_root).translated(
                0,
                self.lift(theme, constraints, is_root),
            )
        } else {
            self.arranged(theme, constraints, is_root)
        }
    }

    /// Whether the element `i` can be laid out and put in its place: the place
    /// must be a coordinate, and the element must be able to go there.
    #[verifier::opaque]
    pub open spec fn child_fits(self, theme: Theme, constraints: (u32, u32), is_root: bool, i: int) -> bool
        decreases self, 0int,
    {
        if 0 <= i < self.children.len() {
            let at = self.position(theme, constraints, is_root, i);
            let cursor = self.cursor(theme, is_root, i);
            &&& cursor.0 <= i32::MAX
            &&& cursor.1 <= i32::MAX
            &&& self.cursor(theme, is_root, i + 1).0 <= u32::MAX
            &&& self.cursor(theme, is_root, i + 1).1 <= u32::MAX
            &&& self.children[i].can_put(theme, constraints, at)
        } else {
            true
        }
    }

    /// Whether the view can be laid out: whether every number that the layout
    /// computes is one that its type can hold.
    pub open spec fn fits(self, theme: Theme, constraints: (u32, u32), is_root: bool) -> bool
        decreases self, self.children.len() + 3,
    {
        &&& self.children_fit(theme, constraints, is_root, self.children.len() as int)
        &&& self.bounds_fit(theme, constraints, is_root)
    }

    /// Whether each of the first `n` elements can be laid out and put in its
    /// place.
    pub open spec fn children_fit(
        self,
        theme: Theme,
        constraints: (u32, u32),
        is_root: bool,
        n: int,
    ) -> bool
        decreases self, n,
    {
        if n <= 0 || n > self.children.len() {
            true
        } else {
            self.children_fit(theme, constraints, is_root, n - 1) && self.child_fits(
                theme,
                constraints,
                is_root,
                n - 1,
            )
        }
    }

    /// Whether the bounds of the view can be sized once the elements are in
    /// their places, and the view then be moved as a whole if it is centered.
    #[verifier::opaque]
    pub open spec fn bounds_fit(self, theme: Theme, constraints: (u32, u32), is_root: bool) -> bool {
        let end = self.cursor(theme, is_root, self.children.len() as int);
        let extent = self.extent(theme, is_root);
        &&& is_root ==> end.0 + theme.view_padding.horizontal <= u32::MAX
        &&& is_root ==> end.1 + theme.view_padding.vertical <= u32::MAX
        &&& 0 <= extent.0 <= u32::MAX
        &&& 0 <= extent.1 <= u32::MAX
        &&& self.centered(theme) ==> self.arranged(theme, constraints, is_root).can_translate(
            0,
            self.lift(theme, constraints, is_root),
        )
    }
}

} // verus!

