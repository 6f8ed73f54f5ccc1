//! Finding a widget in a view tree by its name.

use vstd::prelude::*;
use crate::state::same_text;
use crate::view::stack::{ElementView, Stack, StackView, ViewElement};
use crate::widget::Widget;

verus! {

impl<C, S, H> StackView<C, S, H> {
    /// The first widget of the name `id` in the view from the element `from`
    /// on, if there is one. The search goes depth first: the elements are
    /// gone through in their order, and a nested view is searched to its end
    /// before the element after it is looked at.
    pub open spec fn first_named(self, id: Seq<char>, from: int) -> Option<Widget<C, S, H>>
        decreases self, self.children.len() - from,
    {
        if from < 0 || from >= self.children.len() {
            None
        } else {
            match self.children[from] {
                ElementView::Widget(widget) => if widget.name()@ == id {
                    Some(widget)
                } else {
                    self.first_named(id, from + 1)
                },
                ElementView::View(view) => match view.first_named(id, 0) {
                    Some(widget) => Some(widget),
                    None => self.first_named(id, from + 1),
                },
            }
        }
    }

    /// The elements of the view with `widget` in the place of the first
    /// widget of the name `id` that the search finds from the element `from`
    /// on.
    pub open spec fn with_named(self, id: Seq<char>, widget: Widget<C, S, H>, from: int) -> Seq<
        ElementView<C, S, H>,
    >
        decreases self, self.children.len() - from,
    {
        if from < 0 || from >= self.children.len() {
            self.children
        } else {
            match self.children[from] {
                ElementView::Widget(found) => if found.name()@ == id {
                    self.children.update(from, ElementView::Widget(widget))
                } else {
                    self.with_named(id, widget, from + 1)
                },
                ElementView::View(view) => if view.first_named(id, 0) is Some {
                    self.children.update(
                        from,
                        ElementView::View(
                            StackView { children: view.with_named(id, widget, 0), ..view },
                        ),
                    )
                } else {
                    self.with_named(id, widget, from + 1)
                },
            }
        }
    }

    /// The view with `widget` in the place of the first widget of the name
    /// `id`.
    pub open spec fn replaced(self, id: Seq<char>, widget: Widget<C, S, H>) -> Self {
        StackView { children: self.with_named(id, widget, 0), ..self }
    }
}

impl<C, S, H> ElementView<C, S, H> {
    /// Whether the search for `id` ends in the element: whether it is a
    /// widget of that name, or a view that holds one.
    pub open spec fn holds_named(self, id: Seq<char>) -> bool {
        match self {
            ElementView::Widget(widget) => widget.name()@ == id,
            ElementView::View(view) => view.first_named(id, 0) is Some,
        }
    }
}

/// A search that finds nothing in the elements before `at` goes on from
/// `at`.
proof fn lemma_search_skips<C, S, H>(view: StackView<C, S, H>, id: Seq<char>, widget: Widget<C, S, H>, from: int, at: int)
    requires
        0 <= from <= at <= view.children.len(),
        forall|j: int| from <= j < at ==> !(#[trigger] view.children[j]).holds_named(id),
    ensures
        view.first_named(id, from) == view.first_named(id, at),
        view.with_named(id, widget, from) == view.with_named(id, widget, at),
    decreases at - from,
{
    if from < at {
        assert(!view.children[from].holds_named(id));
        lemma_search_skips(view, id, widget, from + 1, at);
    }
}

impl<C, S, H> Stack<C, S, H> {
    /// Whether the view holds a widget of the name `id`, in itself or in a
    /// view nested in it.
    pub fn has_widget(&self, id: &str) -> (found: bool)
        ensures
            found == (self@.first_named(id@, 0) is Some),
        decreases *self,
    {
        let n = self.children.len();
        let mut i: usize = 0;
        while i < n
            invariant
                0 <= i <= n,
                n == self.children@.len(),
                self@.first_named(id@, 0) == self@.first_named(id@, i as int),
            decreases n - i,
        {
            assert(self@.children[i as int] == self.children@[i as int]@);
            let here = match &self.children[i] {
                ViewElement::Widget(widget) => same_text(widget.id(), id),
                ViewElement::View(view) => view.has_widget(id),
            };
            if here {
                return true;
            }
            i = i + 1;
        }
        false
    }

    /// The first widget of the name `id` in the view, searched depth first;
    /// `None` if the view holds no such widget.
    pub fn widget_by_id(&self, id: &str) -> (found: Option<&Widget<C, S, H>>)
        ensures
            match self@.first_named(id@, 0) {
                Some(widget) => found matches Some(w) && *w == widget,
                None => found is None,
            },
        decreases *self,
    {
        let n = self.children.len();
        let mut i: usize = 0;
        while i < n
            invariant
                0 <= i <= n,
                n == self.children@.len(),
                self@.first_named(id@, 0) == self@.first_named(id@, i as int),
            decreases n - i,
        {
            assert(self@.children[i as int] == self.children@[i as int]@);
            match &self.children[i] {
                ViewElement::Widget(widget) => {
                    if same_text(widget.id(), id) {
                        return Some(widget);
                    }
                },
                ViewElement::View(view) => {
                    let inner = view.widget_by_id(id);
                    if inner.is_some() {
                        return inner;
                    }
                },
            }
            i = i + 1;
        }
        None
    }

    /// The first widget of the name `id` in the view, searched depth first,
    /// to be changed in its place; `None` if the view holds no such widget.
    pub fn get_widget_by_id(&mut self, id: &str) -> (found: Option<&mut Widget<C, S, H>>)
        ensures
            match old(self)@.first_named(id@, 0) {
                Some(widget) => {
                    &&& found is Some
                    &&& *found.unwrap() == widget
                    &&& final(self)@.children =~= old(self)@.with_named(
                        id@,
                        *final(found.unwrap()),
                        0,
                    )
                },
                None => found is None && final(self)@.children == old(self)@.children,
            },
            final(self)@ == (StackView { children: final(self)@.children, ..old(self)@ }),
        decreases *old(self),
    {
        let n = self.children.len();
        let mut i: usize = 0;
        let mut found = false;
        while i < n && !found
            invariant
                0 <= i <= n,
                n == self.children@.len(),
                *self == *old(self),
                forall|j: int| 0 <= j < i ==> !(#[trigger] self@.children[j]).holds_named(id@),
                found ==> i < n && self@.children[i as int].holds_named(id@),
            decreases n - i + (if found { 0int } else { 1int }),
        {
            assert(self@.children[i as int] == self.children@[i as int]@);
            let here = match &self.children[i] {
                ViewElement::Widget(widget) => same_text(widget.id(), id),
                ViewElement::View(view) => view.has_widget(id),
            };
            if here {
                found = true;
            } else {
                i = i + 1;
            }
        }
        if !found {
            proof {
                lemma_search_skips(self@, id@, arbitrary(), 0, n as int);
            }
            return None;
        }
        let ghost before = old(self)@;
        assert(before.children[i as int] == self.children@[i as int]@);
        match &mut self.children[i] {
            ViewElement::Widget(widget) => {
                proof {
                    lemma_search_skips(before, id@, *final(widget), 0, i as int);
                }
                Some(widget)
            },
            ViewElement::View(view) => {
                let inner = view.get_widget_by_id(id);
                proof {
                    lemma_search_skips(before, id@, *final(inner.unwrap()), 0, i as int);
                }
                inner
            },
        }
    }
}

} // verus!
