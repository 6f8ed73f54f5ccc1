//! How a view tree is initialized and drawn.

use vstd::prelude::*;
use crate::render::{measures_all, DrawCommand, Metric};
use crate::style::Theme;
use crate::view::stack::{ElementView, Stack, StackView, ViewElement};

verus! {

impl<C, S, H> ElementView<C, S, H> {
    /// Whether every widget of the element can be initialized under `theme`.
    pub open spec fn can_init(self, theme: Theme) -> bool
        decreases self,
    {
        match self {
            ElementView::Widget(widget) => widget.can_init(theme),
            ElementView::View(view) => view.can_init(theme),
        }
    }

    /// Whether `after` is what initializing the element can give, with
    /// `measure` as the renderer.
    pub open spec fn initializes_to<M: Fn(&Metric) -> (u32, u32)>(
        self,
        theme: Theme,
        measure: &M,
        after: Self,
    ) -> bool
        decreases self,
    {
        match self {
            ElementView::Widget(widget) => after matches ElementView::Widget(widget_after)
                && widget.initializes_to(theme, measure, widget_after),
            ElementView::View(view) => after matches ElementView::View(view_after)
                && view.initializes_to(theme, measure, view_after),
        }
    }

    /// Whether every widget of the element has all it needs to be drawn.
    pub open spec fn can_render(self) -> bool
        decreases self,
    {
        match self {
            ElementView::Widget(widget) => widget.can_render(),
            ElementView::View(view) => view.can_render(),
        }
    }

    /// What the element draws.
    pub open spec fn drawn(self) -> Seq<DrawCommand>
        decreases self, 0int,
    {
        match self {
            ElementView::Widget(widget) => widget.drawn(),
            ElementView::View(view) => view.drawn(),
        }
    }
}

impl<C, S, H> StackView<C, S, H> {
    /// Whether every widget of the view can be initialized under `theme`.
    pub open spec fn can_init(self, theme: Theme) -> bool
        decreases self,
    {
        forall|i: int| 0 <= i < self.children.len() ==> (#[trigger] self.children[i]).can_init(theme)
    }

    /// Whether `after` is what initializing the view can give, with `measure`
    /// as the renderer: the alignment is filled in from the theme, and every
    /// element is initialized.
    pub open spec fn initializes_to<M: Fn(&Metric) -> (u32, u32)>(
        self,
        theme: Theme,
        measure: &M,
        after: Self,
    ) -> bool
        decreases self,
    {
        &&& after == (StackView {
            alignment: Some(self.alignment_under(theme)),
            children: after.children,
            ..self
        })
        &&& after.children.len() == self.children.len()
        &&& forall|i: int|
            0 <= i < self.children.len() ==> (#[trigger] self.children[i]).initializes_to(
                theme,
                measure,
                after.children[i],
            )
    }

    /// Whether every widget of the view has all it needs to be drawn.
    pub open spec fn can_render(self) -> bool
        decreases self,
    {
        forall|i: int| 0 <= i < self.children.len() ==> (#[trigger] self.children[i]).can_render()
    }

    /// What the first `n` elements of the view draw, one after the other.
    pub open spec fn drawn_by(self, n: int) -> Seq<DrawCommand>
        decreases self, n,
    {
        if n <= 0 || n > self.children.len() {
            Seq::empty()
        } else {
            self.drawn_by(n - 1) + self.children[n - 1].drawn()
        }
    }

    /// What the view draws: what its elements draw, in their order. A view
    /// draws nothing of its own.
    pub open spec fn drawn(self) -> Seq<DrawCommand>
        decreases self, self.children.len() + 1,
    {
        self.drawn_by(self.children.len() as int)
    }
}

impl<C, S, H> Stack<C, S, H> {
    /// Whether every widget of the view can be initialized under `theme`.
    pub fn check_init(&self, theme: &Theme) -> (ok: bool)
        ensures
            ok == self@.can_init(*theme),
        decreases *self,
    {
        let n = self.children.len();
        let mut i: usize = 0;
        while i < n
            invariant
                0 <= i <= n,
                n == self.children@.len(),
                forall|j: int| 0 <= j < i ==> (#[trigger] self@.children[j]).can_init(*theme),
            decreases n - i,
        {
            assert(self@.children[i as int] == self.children@[i as int]@);
            let here = match &self.children[i] {
                ViewElement::Widget(widget) => widget.check_init(theme),
                ViewElement::View(view) => view.check_init(theme),
            };
            if !here {
                return false;
            }
            i = i + 1;
        }
        true
    }

    /// Whether every widget of the view has all it needs to be drawn.
    pub fn check_render(&self) -> (ok: bool)
        ensures
            ok == self@.can_render(),
        decreases *self,
    {
        let n = self.children.len();
        let mut i: usize = 0;
        while i < n
            invariant
                0 <= i <= n,
                n == self.children@.len(),
                forall|j: int| 0 <= j < i ==> (#[trigger] self@.children[j]).can_render(),
            decreases n - i,
        {
            assert(self@.children[i as int] == self.children@[i as int]@);
            let here = match &self.children[i] {
                ViewElement::Widget(widget) => widget.check_render(),
                ViewElement::View(view) => view.check_render(),
            };
            if !here {
                return false;
            }
            i = i + 1;
        }
        true
    }

    /// Initializes the view and all that is in it: the views fill in their
    /// alignment from the theme; the widgets fill in their style and take
    /// their sizes from what the renderer measures. On the first
    /// initialization every widget is initialized, later on those that ask
    /// to be.
    pub fn _init<M: Fn(&Metric) -> (u32, u32)>(&mut self, measure: &M, theme: &Theme, initial_init: bool)
        requires
            measures_all(measure),
            old(self)@.can_init(*theme),
        ensures
            old(self)@.initializes_to(*theme, measure, final(self)@),
        decreases *old(self),
    {
        let ghost before = old(self)@;
        self.init(theme);
        let n = self.children.len();
        let mut i: usize = 0;
        while i < n
            invariant
                0 <= i <= n,
                n == self.children@.len(),
                n == old(self).children@.len(),
                n == before.children.len(),
                self.orientation == before.orientation,
                self.alignment == Some(before.alignment_under(*theme)),
                self.state == before.state,
                self.bounds == before.bounds,
                forall|j: int|
                    0 <= j < i ==> before.children[j].initializes_to(
                        *theme,
                        measure,
                        (#[trigger] self.children@[j])@,
                    ),
                forall|j: int| i <= j < n ==> self.children@[j] == old(self).children@[j],
                forall|j: int| 0 <= j < n ==> (#[trigger] old(self).children@[j])@ == before.children[j],
                before.can_init(*theme),
                measures_all(measure),
            decreases n - i,
        {
            proof {
                assert(old(self).children@[i as int]@ == before.children[i as int]);
                assert(before.children[i as int].can_init(*theme));
            }
            match &mut self.children[i] {
                ViewElement::Widget(widget) => {
                    if widget.should_reinit_before_layout() || initial_init {
                        widget.init(measure, theme);
                    }
                },
                ViewElement::View(view) => {
                    view._init(measure, theme, initial_init);
                },
            }
            i = i + 1;
        }
        proof {
            assert forall|j: int| 0 <= j < n implies (#[trigger] before.children[j]).initializes_to(
                *theme,
                measure,
                self@.children[j],
            ) by {
                assert(self@.children[j] == self.children@[j]@);
            }
        }
    }

    /// The commands that draw the view: those of its elements, in their
    /// order.
    pub fn render(&self, theme: &Theme) -> (commands: Vec<DrawCommand>)
        requires
            self@.can_render(),
        ensures
            commands@ == self@.drawn(),
        decreases *self,
    {
        let mut commands: Vec<DrawCommand> = Vec::new();
        let n = self.children.len();
        let mut i: usize = 0;
        while i < n
            invariant
                0 <= i <= n,
                n == self.children@.len(),
                commands@ == self@.drawn_by(i as int),
                self@.can_render(),
            decreases n - i,
        {
            proof {
                assert(self@.children[i as int] == self.children@[i as int]@);
                assert(self@.children[i as int].can_render());
            }
            let mut more = match &self.children[i] {
                ViewElement::View(view) => view.render(theme),
                ViewElement::Widget(widget) => widget.render(theme),
            };
            assert(more@ == self@.children[i as int].drawn());
            commands.append(&mut more);
            assert(self@.drawn_by(i as int + 1) == self@.drawn_by(i as int) + self@.children[i as int].drawn());
            i = i + 1;
        }
        commands
    }
}

} // verus!
