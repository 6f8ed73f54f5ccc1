//! Views: the inner nodes of a view tree, and what can be done with every
//! view.

use vstd::prelude::*;

pub mod checked;
pub mod dispatch;
pub mod element;
pub mod lookup;
pub mod render;
pub mod root;
pub mod stable;
pub mod stack;

pub use element::IntoViewElement;
pub use root::{call_hook, Root};
pub use stack::{ElementView, Stack, StackView, ViewElement};

use crate::state::{same_text, State};
use crate::style::Theme;

verus! {

/// Why a view refused to change its elements.
#[derive(Clone, Copy, Debug, PartialEq, Eq, Structural)]
pub enum ViewError {
    /// The view has no widget of that name among its elements.
    NotFound,
}

impl<C, S, H> ElementView<C, S, H> {
    /// Whether the element is a widget of the name `id`.
    pub open spec fn is_named(self, id: Seq<char>) -> bool {
        self matches ElementView::Widget(widget) && widget.name()@ == id
    }

    /// The element without a state of its own, anywhere in it.
    pub open spec fn stateless(self) -> Self
        decreases self,
    {
        match self {
            ElementView::Widget(widget) => ElementView::Widget(widget),
            ElementView::View(view) => ElementView::View(view.stateless()),
        }
    }
}

impl<C, S, H> StackView<C, S, H> {
    /// The place of the first element from `from` on that is a widget of the
    /// name `id`; the number of elements if there is none. Nested views are
    /// passed over.
    pub open spec fn index_of(self, id: Seq<char>, from: int) -> int
        decreases self.children.len() - from,
    {
        if from < 0 || from >= self.children.len() {
            self.children.len() as int
        } else if self.children[from].is_named(id) {
            from
        } else {
            self.index_of(id, from + 1)
        }
    }

    /// The view without a state of its own, in itself and in every view
    /// nested in it.
    pub open spec fn stateless(self) -> Self
        decreases self,
    {
        StackView {
            state: None,
            children: Seq::new(
                self.children.len(),
                |i: int|
                    if 0 <= i < self.children.len() {
                        self.children[i].stateless()
                    } else {
                        arbitrary()
                    },
            ),
            ..self
        }
    }

    /// The view as the root of its tree, with `state` as the one store: no
    /// view nested in it keeps a store of its own.
    pub open spec fn with_state(self, state: State) -> Self {
        StackView { state: Some(state), ..self.stateless() }
    }
}

impl<C, S, H> Stack<C, S, H> {
    /// The store of the tree. Only a view that was given one has it.
    pub fn state(&self) -> (state: &State)
        requires
            self@.state is Some,
        ensures
            *state == self@.state->0,
    {
        self.state.as_ref().unwrap()
    }

    /// Takes away the store of the view and of every view nested in it.
    fn drop_state(&mut self)
        ensures
            final(self)@ == old(self)@.stateless(),
        decreases *old(self),
    {
        self.state = None;
        let n = self.children.len();
        let mut i: usize = 0;
        while i < n
            invariant
                0 <= i <= n,
                n == self.children@.len(),
                n == old(self).children@.len(),
                self.orientation == old(self).orientation,
                self.alignment == old(self).alignment,
                self.state is None,
                self.bounds == old(self).bounds,
                forall|j: int|
                    0 <= j < i ==> (#[trigger] self.children@[j])@ == old(self).children@[j]@.stateless(),
                forall|j: int| i <= j < n ==> self.children@[j] == old(self).children@[j],
            decreases n - i,
        {
            match &mut self.children[i] {
                ViewElement::View(view) => {
                    view.drop_state();
                },
                ViewElement::Widget(_) => {},
            }
            i = i + 1;
        }
        assert(self@.children =~= old(self)@.stateless().children);
    }

    /// Makes the view the root of its tree, with `state` as the tree's one
    /// store. Views nested in it work on that store from now on; a store that
    /// one of them had is gone.
    pub fn assign_state(&mut self, state: State)
        ensures
            final(self)@ == old(self)@.with_state(state),
    {
        self.drop_state();
        self.state = Some(state);
    }

    /// Fills in from the theme what the application left open on the view
    /// itself: the alignment.
    pub fn init(&mut self, theme: &Theme)
        ensures
            *final(self) == (Stack {
                alignment: Some(old(self)@.alignment_under(*theme)),
                ..*old(self)
            }),
            final(self)@ == (StackView {
                alignment: Some(old(self)@.alignment_under(*theme)),
                ..old(self)@
            }),
    {
        if self.alignment.is_none() {
            self.alignment = Some(theme.default_alignment);
        }
    }

    /// The elements of the view, to be read and changed.
    pub fn children(&mut self) -> (children: &mut Vec<ViewElement<C, S, H>>)
        ensures
            *children == old(self).children,
            *final(self) == (Stack { children: *final(children), ..*old(self) }),
    {
        &mut self.children
    }

    /// Adds an element at the end of the view.
    pub fn append(&mut self, item: ViewElement<C, S, H>)
        ensures
            final(self)@ == (StackView {
                children: old(self)@.children.push(item@),
                ..old(self)@
            }),
    {
        self.children.push(item);
        assert(self@.children =~= old(self)@.children.push(item@));
    }

    /// Where the first widget of the name `id` stands among the elements, if
    /// there is one.
    fn find(&self, id: &str) -> (at: usize)
        ensures
            at == self@.index_of(id@, 0),
            at <= self.children@.len(),
            at < self.children@.len() ==> self@.children[at as int].is_named(id@),
    {
        let n = self.children.len();
        let mut i: usize = 0;
        while i < n
            invariant
                0 <= i <= n,
                n == self.children@.len(),
                self@.index_of(id@, 0) == self@.index_of(id@, i as int),
            decreases n - i,
        {
            assert(self@.children[i as int] == self.children@[i as int]@);
            match &self.children[i] {
                ViewElement::Widget(widget) => {
                    if same_text(widget.id(), id) {
                        return i;
                    }
                },
                ViewElement::View(_) => {},
            }
            i = i + 1;
        }
        n
    }

    /// Takes the first widget of the name `id` out of the view. Only the
    /// view's own elements are looked at, not those of nested views. A view
    /// without such a widget stays as it is.
    pub fn delete(&mut self, id: &str) -> (deleted: Result<(), ViewError>)
        ensures
            old(self)@.index_of(id@, 0) < old(self)@.children.len() ==> deleted is Ok && final(self)@
                == (StackView {
                children: old(self)@.children.remove(old(self)@.index_of(id@, 0)),
                ..old(self)@
            }),
            old(self)@.index_of(id@, 0) >= old(self)@.children.len() ==> deleted == Err::<
                (),
                ViewError,
            >(ViewError::NotFound) && final(self)@ == old(self)@,
    {
        let index = self.find(id);
        if index == self.children.len() {
            return Err(ViewError::NotFound);
        }
        let _ = self.children.remove(index);
        assert(self@.children =~= old(self)@.children.remove(index as int));
        Ok(())
    }

    /// Puts an element right after the first widget of the name `after_id`.
    /// Only the view's own elements are looked at, not those of nested
    /// views. A view without such a widget stays as it is.
    pub fn insert_after(&mut self, after_id: &str, item: ViewElement<C, S, H>) -> (inserted: Result<
        (),
        ViewError,
    >)
        ensures
            old(self)@.index_of(after_id@, 0) < old(self)@.children.len() ==> inserted is Ok
                && final(self)@ == (StackView {
                children: old(self)@.children.insert(old(self)@.index_of(after_id@, 0) + 1, item@),
                ..old(self)@
            }),
            old(self)@.index_of(after_id@, 0) >= old(self)@.children.len() ==> inserted == Err::<
                (),
                ViewError,
            >(ViewError::NotFound) && final(self)@ == old(self)@,
    {
        let index = self.find(after_id);
        if index == self.children.len() {
            return Err(ViewError::NotFound);
        }
        self.children.insert(index + 1, item);
        assert(self@.children =~= old(self)@.children.insert(index as int + 1, item@));
        Ok(())
    }
}

} // verus!
