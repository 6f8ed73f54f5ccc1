//! How input events and application messages travel through a view tree.

use vstd::prelude::*;
use crate::event::ApplicationEvent;
use crate::handler::{ran, ran_joins, ran_none, Firing, Fraction};
use crate::message::{EmptyMessage, MessageQueue};
use crate::state::State;
use crate::view::stack::{ElementView, Stack, StackView, ViewElement};
use crate::EventResponse;

verus! {

/// What came of offering an event to some of the elements of a view.
pub struct Offer<C, S, H> {
    /// The elements of the view afterwards.
    pub children: Seq<ElementView<C, S, H>>,
    /// Whether an element asked for the view to be drawn again.
    pub redraw: bool,
    /// The handlers that the event set off, in the order they were called in.
    pub firings: Seq<Firing<C, S>>,
    /// Whether a widget used the event up.
    pub consumed: bool,
}

impl<C, S, H> ElementView<C, S, H> {
    /// Whether the element, with all that is in it, can take the event.
    pub open spec fn accepts(self, event: ApplicationEvent) -> bool
        decreases self,
    {
        match self {
            ElementView::Widget(widget) => widget.accepts(event),
            ElementView::View(view) => view.accepts(event),
        }
    }
}

impl<C, S, H> StackView<C, S, H> {
    /// Whether every widget in the view can take the event.
    pub open spec fn accepts(self, event: ApplicationEvent) -> bool
        decreases self,
    {
        forall|i: int| 0 <= i < self.children.len() ==> (#[trigger] self.children[i]).accepts(event)
    }

    /// What comes of offering an event to the first `n` elements of the view,
    /// one after the other. Each widget takes the event and answers; a nested
    /// view offers it to all its own elements. Once a widget has used the
    /// event up, the elements after it at its level are passed over; what a
    /// widget inside a nested view used up is used up in that view only.
    pub open spec fn offered(self, event: ApplicationEvent, n: int) -> Offer<C, S, H>
        decreases self, n,
    {
        if n <= 0 || n > self.children.len() {
            Offer { children: self.children, redraw: false, firings: Seq::empty(), consumed: false }
        } else {
            let before = self.offered(event, n - 1);
            if before.consumed {
                before
            } else {
                match self.children[n - 1] {
                    ElementView::Widget(widget) => Offer {
                        children: before.children.update(
                            n - 1,
                            ElementView::Widget(widget.after_event(event)),
                        ),
                        redraw: before.redraw || widget.response(event) is Redraw,
                        firings: before.firings + widget.firings(event),
                        consumed: widget.response(event) is Consume,
                    },
                    ElementView::View(view) => {
                        let inner = view.offered(event, view.children.len() as int);
                        Offer {
                            children: before.children.update(
                                n - 1,
                                ElementView::View(StackView { children: inner.children, ..view }),
                            ),
                            redraw: before.redraw || inner.redraw,
                            firings: before.firings + inner.firings,
                            consumed: false,
                        }
                    },
                }
            }
        }
    }

    /// The view after an event went through it.
    pub open spec fn after_event(self, event: ApplicationEvent) -> Self {
        StackView { children: self.offered(event, self.children.len() as int).children, ..self }
    }

    /// Whether an event makes a widget in the view ask for a redraw.
    pub open spec fn redraws(self, event: ApplicationEvent) -> bool {
        self.offered(event, self.children.len() as int).redraw
    }

    /// The handlers that an event sets off in the view, in the order they are
    /// called in.
    pub open spec fn firings(self, event: ApplicationEvent) -> Seq<Firing<C, S>> {
        self.offered(event, self.children.len() as int).firings
    }
}

/// Once an event is used up, offering it to more elements changes nothing.
pub proof fn consumed_is_final<C, S, H>(view: StackView<C, S, H>, event: ApplicationEvent, n: int, m: int)
    requires
        0 <= n <= m <= view.children.len(),
        view.offered(event, n).consumed,
    ensures
        view.offered(event, m) == view.offered(event, n),
    decreases m - n,
{
    if n < m {
        consumed_is_final(view, event, n, m - 1);
    }
}

/// Once a widget has used an event up, the elements after it stay as they
/// are, and no handler of theirs is called: what the event does to the view
/// is what it did up to that widget.
pub proof fn consumed_event_stops<C, S, H>(view: StackView<C, S, H>, event: ApplicationEvent, i: int)
    requires
        0 <= i < view.children.len(),
        !view.offered(event, i).consumed,
        view.children[i] matches ElementView::Widget(widget) && widget.response(event) is Consume,
    ensures
        view.offered(event, view.children.len() as int) == view.offered(event, i + 1),
        view.firings(event) == view.offered(event, i).firings + view.children[i]->Widget_0.firings(
            event,
        ),
        forall|j: int|
            i < j < view.children.len() ==> #[trigger] view.after_event(event).children[j]
                == view.children[j],
{
    consumed_is_final(view, event, i + 1, view.children.len() as int);
    offered_keeps_rest(view, event, i + 1);
}

/// What comes of offering an event to a view depends on its elements alone.
pub proof fn offered_by_elements<C, S, H>(
    view: StackView<C, S, H>,
    other: StackView<C, S, H>,
    event: ApplicationEvent,
    n: int,
)
    requires
        view.children == other.children,
    ensures
        view.offered(event, n) == other.offered(event, n),
    decreases n,
{
    if 0 < n <= view.children.len() {
        offered_by_elements(view, other, event, n - 1);
    }
}

/// Offering an event to the first `n` elements leaves the number of elements
/// as it is, and the elements after them as they are.
pub proof fn offered_keeps_rest<C, S, H>(view: StackView<C, S, H>, event: ApplicationEvent, n: int)
    requires
        0 <= n <= view.children.len(),
    ensures
        view.offered(event, n).children.len() == view.children.len(),
        forall|j: int|
            n <= j < view.children.len() ==> view.offered(event, n).children[j] == view.children[j],
    decreases n,
{
    if n > 0 {
        offered_keeps_rest(view, event, n - 1);
    }
}

impl<
    Msg: EmptyMessage,
    C: Fn(State) -> (State, Msg),
    S: Fn(Fraction, State) -> (State, Msg),
    H: Fn(&Msg, State) -> (State, Option<String>),
> ElementView<C, S, H> {
    /// Whether every handler in the element can be called on whatever it may
    /// be called on.
    pub open spec fn handlers_total(self) -> bool
        decreases self,
    {
        match self {
            ElementView::Widget(widget) => widget.handlers_total(),
            ElementView::View(view) => view.handlers_total(),
        }
    }
}

impl<
    Msg: EmptyMessage,
    C: Fn(State) -> (State, Msg),
    S: Fn(Fraction, State) -> (State, Msg),
    H: Fn(&Msg, State) -> (State, Option<String>),
> StackView<C, S, H> {
    /// Whether every handler in the view can be called on whatever it may be
    /// called on.
    pub open spec fn handlers_total(self) -> bool
        decreases self,
    {
        forall|i: int| 0 <= i < self.children.len() ==> (#[trigger] self.children[i]).handlers_total()
    }
}

impl<C, S, H> Stack<C, S, H> {
    /// Whether every widget in the view can take the event.
    pub fn check_event(&self, event: &ApplicationEvent) -> (ok: bool)
        ensures
            ok == self@.accepts(*event),
        decreases *self,
    {
        let n = self.children.len();
        let mut i: usize = 0;
        while i < n
            invariant
                0 <= i <= n,
                n == self.children@.len(),
                forall|j: int| 0 <= j < i ==> (#[trigger] self@.children[j]).accepts(*event),
            decreases n - i,
        {
            assert(self@.children[i as int] == self.children@[i as int]@);
            let here = match &self.children[i] {
                ViewElement::Widget(widget) => widget.check_event(event),
                ViewElement::View(view) => view.check_event(event),
            };
            if !here {
                return false;
            }
            i = i + 1;
        }
        true
    }
}

impl<
    Msg: EmptyMessage,
    C: Fn(State) -> (State, Msg),
    S: Fn(Fraction, State) -> (State, Msg),
    H: Fn(&Msg, State) -> (State, Option<String>),
> Stack<C, S, H> {
    /// Offers an event to the elements of the view, one after the other, with
    /// `state` as the store that the handlers work on. Returns whether an
    /// element asked for a redraw.
    pub fn propagate_event_in(
        &mut self,
        event: &ApplicationEvent,
        state: &mut State,
        message_queue: &mut MessageQueue<Msg>,
    ) -> (redraw: bool)
        requires
            old(self)@.handlers_total(),
            old(self)@.accepts(*event),
        ensures
            final(self)@ == old(self)@.after_event(*event),
            redraw == old(self)@.redraws(*event),
            ran(
                old(self)@.firings(*event),
                *old(state),
                old(message_queue)@,
                *final(state),
                final(message_queue)@,
            ),
            final(self)@.handlers_total(),
        decreases *old(self),
    {
        let ghost before = old(self)@;
        let ghost state_before = *state;
        let ghost queue_before = message_queue@;
        let mut redraw = false;
        let mut consumed = false;
        let n = self.children.len();
        let mut i: usize = 0;
        proof {
            ran_none::<Msg, C, S>(state_before, queue_before);
            assert forall|j: int| 0 <= j < n implies (#[trigger] self.children@[j])@.handlers_total() by {
                assert(before.children[j] == self.children@[j]@);
            }
        }
        while i < n && !consumed
            invariant
                0 <= i <= n,
                n == self.children@.len(),
                n == old(self).children@.len(),
                n == before.children.len(),
                self.orientation == before.orientation,
                self.alignment == before.alignment,
                self.state == before.state,
                self.bounds == before.bounds,
                before.offered(*event, i as int).children.len() == n,
                forall|j: int|
                    0 <= j < n ==> (#[trigger] self.children@[j])@ == before.offered(
                        *event,
                        i as int,
                    ).children[j],
                forall|j: int| i <= j < n ==> self.children@[j] == old(self).children@[j],
                forall|j: int| 0 <= j < n ==> (#[trigger] old(self).children@[j])@ == before.children[j],
                forall|j: int| 0 <= j < n ==> (#[trigger] self.children@[j])@.handlers_total(),
                redraw == before.offered(*event, i as int).redraw,
                consumed == before.offered(*event, i as int).consumed,
                ran(
                    before.offered(*event, i as int).firings,
                    state_before,
                    queue_before,
                    *state,
                    message_queue@,
                ),
                before.handlers_total(),
                before.accepts(*event),
            decreases n - i,
        {
            let ghost offer = before.offered(*event, i as int);
            let ghost state_then = *state;
            let ghost queue_then = message_queue@;
            proof {
                offered_keeps_rest(before, *event, i as int + 1);
                assert(old(self).children@[i as int]@ == before.children[i as int]);
                assert(before.children[i as int].handlers_total());
                assert(before.children[i as int].accepts(*event));
            }
            match &mut self.children[i] {
                ViewElement::View(view) => {
                    let inner = view.propagate_event_in(event, state, message_queue);
                    redraw = redraw || inner;
                    proof {
                        ran_joins(
                            offer.firings,
                            before.children[i as int]->View_0.firings(*event),
                            state_before,
                            queue_before,
                            state_then,
                            queue_then,
                            *state,
                            message_queue@,
                        );
                    }
                },
                ViewElement::Widget(widget) => {
                    let response = widget.handle_event(event, state, message_queue);
                    match response {
                        EventResponse::Consume => {
                            consumed = true;
                        },
                        EventResponse::Redraw => {
                            redraw = true;
                        },
                        EventResponse::Pass => {},
                    }
                    proof {
                        ran_joins(
                            offer.firings,
                            before.children[i as int]->Widget_0.firings(*event),
                            state_before,
                            queue_before,
                            state_then,
                            queue_then,
                            *state,
                            message_queue@,
                        );
                    }
                },
            }
            i = i + 1;
        }
        proof {
            if i < n {
                consumed_is_final(before, *event, i as int, n as int);
            }
            assert(self@.children =~= before.after_event(*event).children);
        }
        redraw
    }

    /// Sends an event through the tree that the view is the root of. Every
    /// handler that the event sets off works on the tree's store. Returns
    /// whether a widget asked for a redraw.
    pub fn propagate_event(&mut self, event: &ApplicationEvent, message_queue: &mut MessageQueue<Msg>) -> (redraw:
        bool)
        requires
            old(self)@.state is Some,
            old(self)@.handlers_total(),
            old(self)@.accepts(*event),
        ensures
            final(self)@.state is Some,
            final(self)@ == (StackView { state: final(self)@.state, ..old(self)@.after_event(*event) }),
            redraw == old(self)@.redraws(*event),
            ran(
                old(self)@.firings(*event),
                old(self)@.state->0,
                old(message_queue)@,
                final(self)@.state->0,
                final(message_queue)@,
            ),
            final(self)@.handlers_total(),
    {
        let mut state = self.state.take().unwrap();
        proof {
            offered_by_elements(self@, old(self)@, *event, self@.children.len() as int);
            assert(self@.children == old(self)@.children);
        }
        let redraw = self.propagate_event_in(event, &mut state, message_queue);
        let ghost offered = self@;
        self.state = Some(state);
        proof {
            assert(self@.children == offered.children);
            assert forall|j: int| 0 <= j < self@.children.len() implies (
            #[trigger] self@.children[j]).handlers_total() by {
                assert(offered.children[j].handlers_total());
            }
        }
        redraw
    }
}

/// Marks what a message passed through on its way past one element: the
/// state that the element found, whether an element before it asked for a new
/// layout, and whether it did itself.
pub open spec fn passes(found: State, earlier: bool, here: bool) -> bool {
    true
}

impl<C, S, H> ElementView<C, S, H> {
    /// Whether no widget of the element asks for a new layout.
    pub open spec fn quiet(self) -> bool
        decreases self,
    {
        match self {
            ElementView::Widget(widget) => !widget.resize_pending(),
            ElementView::View(view) => view.quiet(),
        }
    }
}

impl<C, S, H> StackView<C, S, H> {
    /// Whether no widget of the view asks for a new layout. This is so of the
    /// widgets that are elements of views; what a widget holds inside itself
    /// is not asked.
    pub open spec fn quiet(self) -> bool
        decreases self,
    {
        forall|i: int| 0 <= i < self.children.len() ==> (#[trigger] self.children[i]).quiet()
    }
}

impl<
    Msg: EmptyMessage,
    C: Fn(State) -> (State, Msg),
    S: Fn(Fraction, State) -> (State, Msg),
    H: Fn(&Msg, State) -> (State, Option<String>),
> ElementView<C, S, H> {
    /// Whether a message that reaches the element at `state` can leave the
    /// element as `after` and the state as `state_after`, with `resize`
    /// telling whether a widget asked for a new layout. A widget handles the
    /// message, is asked whether it wants a new layout, and has the request
    /// cleared; a nested view hands the message to all its elements.
    pub open spec fn delivered_to(
        self,
        message: &Msg,
        state: State,
        after: Self,
        state_after: State,
        resize: bool,
    ) -> bool
        decreases self, 0int,
    {
        match self {
            ElementView::Widget(widget) => exists|handled: crate::widget::Widget<C, S, H>|
                #[trigger] widget.handles(message, state, handled, state_after) && after
                    == ElementView::Widget(handled.settled()) && resize == handled.resize_pending(),
            ElementView::View(view) => after matches ElementView::View(view_after) && view_after == (
            StackView { children: view_after.children, ..view }) && view.delivered(
                message,
                view.children.len() as int,
                state,
                view_after.children,
                state_after,
                resize,
            ),
        }
    }
}

impl<
    Msg: EmptyMessage,
    C: Fn(State) -> (State, Msg),
    S: Fn(Fraction, State) -> (State, Msg),
    H: Fn(&Msg, State) -> (State, Option<String>),
> StackView<C, S, H> {
    /// Whether handing a message to the first `n` elements of the view, one
    /// after the other from `state` on, can leave the elements as `after` and
    /// the state as `state_after`, with `resize` telling whether a widget
    /// among them asked for a new layout. Each element finds the state that
    /// the one before it left.
    pub open spec fn delivered(
        self,
        message: &Msg,
        n: int,
        state: State,
        after: Seq<ElementView<C, S, H>>,
        state_after: State,
        resize: bool,
    ) -> bool
        decreases self, n,
    {
        if n <= 0 || n > self.children.len() {
            after == self.children && state_after == state && !resize
        } else {
            exists|found: State, earlier: bool, here: bool|
                {
                    &&& #[trigger] passes(found, earlier, here)
                    &&& after.len() == self.children.len()
                    &&& self.delivered(
                        message,
                        n - 1,
                        state,
                        after.update(n - 1, self.children[n - 1]),
                        found,
                        earlier,
                    )
                    &&& self.children[n - 1].delivered_to(message, found, after[n - 1], state_after, here)
                    &&& resize == (earlier || here)
                }
        }
    }
}

/// One more element has had the message.
pub proof fn delivered_grows<
    Msg: EmptyMessage,
    C: Fn(State) -> (State, Msg),
    S: Fn(Fraction, State) -> (State, Msg),
    H: Fn(&Msg, State) -> (State, Option<String>),
>(
    view: StackView<C, S, H>,
    message: &Msg,
    n: int,
    state: State,
    after: Seq<ElementView<C, S, H>>,
    found: State,
    earlier: bool,
    state_after: State,
    here: bool,
)
    requires
        0 < n <= view.children.len(),
        after.len() == view.children.len(),
        view.delivered(message, n - 1, state, after.update(n - 1, view.children[n - 1]), found, earlier),
        view.children[n - 1].delivered_to(message, found, after[n - 1], state_after, here),
    ensures
        view.delivered(message, n, state, after, state_after, earlier || here),
{
    assert(passes(found, earlier, here));
}

/// What a message leaves of a view depends on the view's elements alone.
pub proof fn delivered_by_elements<
    Msg: EmptyMessage,
    C: Fn(State) -> (State, Msg),
    S: Fn(Fraction, State) -> (State, Msg),
    H: Fn(&Msg, State) -> (State, Option<String>),
>(
    view: StackView<C, S, H>,
    other: StackView<C, S, H>,
    message: &Msg,
    n: int,
    state: State,
    after: Seq<ElementView<C, S, H>>,
    state_after: State,
    resize: bool,
)
    requires
        view.children == other.children,
        view.delivered(message, n, state, after, state_after, resize),
    ensures
        other.delivered(message, n, state, after, state_after, resize),
    decreases n,
{
    if 0 < n <= view.children.len() {
        let (found, earlier, here) = choose|found: State, earlier: bool, here: bool|
            {
                &&& #[trigger] passes(found, earlier, here)
                &&& after.len() == view.children.len()
                &&& view.delivered(
                    message,
                    n - 1,
                    state,
                    after.update(n - 1, view.children[n - 1]),
                    found,
                    earlier,
                )
                &&& view.children[n - 1].delivered_to(message, found, after[n - 1], state_after, here)
                &&& resize == (earlier || here)
            };
        delivered_by_elements(
            view,
            other,
            message,
            n - 1,
            state,
            after.update(n - 1, view.children[n - 1]),
            found,
            earlier,
        );
        assert(passes(found, earlier, here));
    }
}

impl<
    Msg: EmptyMessage,
    C: Fn(State) -> (State, Msg),
    S: Fn(Fraction, State) -> (State, Msg),
    H: Fn(&Msg, State) -> (State, Option<String>),
> Stack<C, S, H> {
    /// Hands a message to every widget of the view, one after the other, with
    /// `state` as the store that the handlers work on, and asks each whether
    /// it wants a new layout, which clears the request. Returns whether one
    /// did.
    pub fn propagate_message_in(&mut self, message: &Msg, state: &mut State) -> (should_resize: bool)
        requires
            old(self)@.handlers_total(),
        ensures
            final(self)@ == (StackView { children: final(self)@.children, ..old(self)@ }),
            old(self)@.delivered(
                message,
                old(self)@.children.len() as int,
                *old(state),
                final(self)@.children,
                *final(state),
                should_resize,
            ),
            final(self)@.quiet(),
            final(self)@.handlers_total(),
        decreases *old(self),
    {
        let ghost before = old(self)@;
        let ghost state_before = *state;
        let mut should_resize = false;
        let n = self.children.len();
        let mut i: usize = 0;
        assert(self@.children =~= before.children);
        assert forall|j: int| 0 <= j < n implies (#[trigger] self.children@[j])@.handlers_total() by {
            assert(before.children[j] == self.children@[j]@);
        }
        while i < n
            invariant
                0 <= i <= n,
                n == self.children@.len(),
                n == old(self).children@.len(),
                n == before.children.len(),
                self.orientation == before.orientation,
                self.alignment == before.alignment,
                self.state == before.state,
                self.bounds == before.bounds,
                forall|j: int| 0 <= j < i ==> (#[trigger] self.children@[j])@.quiet(),
                forall|j: int| 0 <= j < n ==> (#[trigger] self.children@[j])@.handlers_total(),
                forall|j: int| i <= j < n ==> self.children@[j] == old(self).children@[j],
                forall|j: int| 0 <= j < n ==> (#[trigger] old(self).children@[j])@ == before.children[j],
                before.delivered(
                    message,
                    i as int,
                    state_before,
                    self@.children,
                    *state,
                    should_resize,
                ),
                before.handlers_total(),
            decreases n - i,
        {
            let ghost elements_then = self@.children;
            let ghost state_then = *state;
            let ghost resize_then = should_resize;
            proof {
                assert(old(self).children@[i as int]@ == before.children[i as int]);
                assert(before.children[i as int].handlers_total());
                assert(elements_then[i as int] == before.children[i as int]);
            }
            let here: bool;
            match &mut self.children[i] {
                ViewElement::View(view) => {
                    here = view.propagate_message_in(message, state);
                },
                ViewElement::Widget(widget) => {
                    widget.handle_message(message, state);
                    here = widget.check_if_should_resize_then_reset_to_false();
                },
            }
            should_resize = here || should_resize;
            proof {
                let elements_now = self@.children;
                assert(elements_now.update(i as int, before.children[i as int]) =~= elements_then);
                delivered_grows(
                    before,
                    message,
                    i as int + 1,
                    state_before,
                    elements_now,
                    state_then,
                    resize_then,
                    *state,
                    here,
                );
            }
            i = i + 1;
        }
        should_resize
    }

    /// Sends a message through the tree that the view is the root of. Every
    /// handler works on the tree's store. Returns whether a widget asked for
    /// a new layout; no widget still asks afterwards.
    pub fn propagate_message(&mut self, message: &Msg) -> (should_resize: bool)
        requires
            old(self)@.state is Some,
            old(self)@.handlers_total(),
        ensures
            final(self)@.state is Some,
            final(self)@ == (StackView {
                state: final(self)@.state,
                children: final(self)@.children,
                ..old(self)@
            }),
            old(self)@.delivered(
                message,
                old(self)@.children.len() as int,
                old(self)@.state->0,
                final(self)@.children,
                final(self)@.state->0,
                should_resize,
            ),
            final(self)@.quiet(),
            final(self)@.handlers_total(),
    {
        let mut state = self.state.take().unwrap();
        let ghost taken = self@;
        let ghost state_before = state;
        proof {
            assert(self@.children == old(self)@.children);
        }
        let should_resize = self.propagate_message_in(message, &mut state);
        proof {
            delivered_by_elements(
                taken,
                old(self)@,
                message,
                taken.children.len() as int,
                state_before,
                self@.children,
                state,
                should_resize,
            );
        }
        self.state = Some(state);
        should_resize
    }
}

} // verus!
