//! The handlers that an application hangs on its widgets, and what it means
//! that a run of them took a state and a message queue from one value to
//! another.
//!
//! A handler is any function value. It takes the state of the view tree by
//! value and gives it back, changed or not, together with the message to be
//! queued. Nothing is asked of a handler but that it can be called; what is
//! known of its result is what its own contract says.

use vstd::prelude::*;
use crate::message::{enqueued, enqueued_all, EmptyMessage};
use crate::state::State;

verus! {

/// How far a scroll bar is scrolled: `numerator / denominator` of the way.
/// A fraction whose denominator is 0 stands for no position at all, as of a
/// bar that has no room to scroll in.
#[derive(Clone, Copy, Debug, PartialEq, Eq, Structural)]
pub struct Fraction {
    pub numerator: u32,
    pub denominator: u32,
}

impl Fraction {
    /// Whether the fraction is a position between none and all of the way.
    pub open spec fn is_share(self) -> bool {
        self.denominator > 0 && self.numerator <= self.denominator
    }

    /// Whether two fractions differ as numbers. What is no number differs
    /// from everything, itself too.
    pub open spec fn differs_from(self, other: Fraction) -> bool {
        self.denominator == 0 || other.denominator == 0 || self.numerator * other.denominator
            != other.numerator * self.denominator
    }

    /// Whether two fractions differ as numbers: see [`Fraction::differs_from`].
    pub fn differs(&self, other: &Fraction) -> (differ: bool)
        ensures
            differ == self.differs_from(*other),
    {
        if self.denominator == 0 || other.denominator == 0 {
            true
        } else {
            assert(self.numerator * other.denominator <= 0xffff_ffff * 0xffff_ffff) by (nonlinear_arith)
                requires
                    self.numerator <= 0xffff_ffff,
                    other.denominator <= 0xffff_ffff,
            ;
            assert(other.numerator * self.denominator <= 0xffff_ffff * 0xffff_ffff) by (nonlinear_arith)
                requires
                    other.numerator <= 0xffff_ffff,
                    self.denominator <= 0xffff_ffff,
            ;
            self.numerator as u64 * other.denominator as u64 != other.numerator as u64
                * self.denominator as u64
        }
    }
}

/// A handler that an event has set off, with what it is called on.
pub enum Firing<C, S> {
    /// The click handler of a button.
    Click(C),
    /// The scroll handler of a scroll bar, and the position scrolled to.
    Scroll(S, Fraction),
}

impl<Msg, C: Fn(State) -> (State, Msg), S: Fn(Fraction, State) -> (State, Msg)> Firing<C, S> {
    /// Whether the handler can be called on every state.
    pub open spec fn total(self) -> bool {
        match self {
            Firing::Click(handler) => forall|state: State| call_requires(handler, (state,)),
            Firing::Scroll(handler, at) => forall|state: State| call_requires(handler, (at, state)),
        }
    }

    /// Whether the handler, called at `state`, can answer `out`.
    pub open spec fn yields(self, state: State, out: (State, Msg)) -> bool {
        match self {
            Firing::Click(handler) => call_ensures(handler, (state,), out),
            Firing::Scroll(handler, at) => call_ensures(handler, (at, state), out),
        }
    }
}

/// The state that the `i`th handler of a run is called at: the state at the
/// start for the first, and for every other the state that the handler before
/// it gave back.
pub open spec fn state_before<Msg>(start: State, outs: Seq<(State, Msg)>, i: int) -> State {
    if i <= 0 {
        start
    } else {
        outs[i - 1].0
    }
}

/// The messages that the handlers of a run answered with, in their order.
pub open spec fn messages_of<Msg>(outs: Seq<(State, Msg)>) -> Seq<Msg> {
    Seq::new(outs.len(), |i: int| outs[i].1)
}

/// Whether `outs` is what the handlers `firings`, called one after the other
/// from the state `start`, can answer: each is called at the state that the
/// one before it gave back.
pub open spec fn answers<Msg, C: Fn(State) -> (State, Msg), S: Fn(Fraction, State) -> (State, Msg)>(
    firings: Seq<Firing<C, S>>,
    start: State,
    outs: Seq<(State, Msg)>,
) -> bool {
    &&& outs.len() == firings.len()
    &&& forall|i: int|
        0 <= i < firings.len() ==> (#[trigger] firings[i]).yields(state_before(start, outs, i), outs[i])
}

/// Whether running the handlers `firings` one after the other can take the
/// state from `state` to `state_after` and the queue from `queue` to
/// `queue_after`: every handler is called at the state that the one before it
/// left, and the messages they answer with are pushed in that order.
pub open spec fn ran<
    Msg: EmptyMessage,
    C: Fn(State) -> (State, Msg),
    S: Fn(Fraction, State) -> (State, Msg),
>(
    firings: Seq<Firing<C, S>>,
    state: State,
    queue: Seq<Msg>,
    state_after: State,
    queue_after: Seq<Msg>,
) -> bool {
    exists|outs: Seq<(State, Msg)>|
        {
            &&& #[trigger] answers(firings, state, outs)
            &&& state_after == state_before(state, outs, outs.len() as int)
            &&& queue_after == enqueued_all(queue, messages_of(outs))
        }
}

/// Pushing one run of messages and then another is pushing the two runs
/// joined.
pub proof fn enqueued_all_joins<Msg: EmptyMessage>(queue: Seq<Msg>, first: Seq<Msg>, second: Seq<Msg>)
    ensures
        enqueued_all(enqueued_all(queue, first), second) == enqueued_all(queue, first + second),
    decreases second.len(),
{
    if second.len() == 0 {
        assert(first + second =~= first);
    } else {
        enqueued_all_joins(queue, first, second.drop_last());
        assert((first + second).drop_last() =~= first + second.drop_last());
        assert((first + second).last() == second.last());
    }
}

/// Pushing a run of one message is pushing that message.
pub proof fn enqueued_all_one<Msg: EmptyMessage>(queue: Seq<Msg>, message: Msg)
    ensures
        enqueued_all(queue, seq![message]) == enqueued(queue, message),
{
    reveal_with_fuel(enqueued_all, 2);
    assert(seq![message].drop_last() =~= Seq::<Msg>::empty());
    assert(seq![message].last() == message);
}

/// No handler leaves the state and the queue as they are.
pub proof fn ran_none<
    Msg: EmptyMessage,
    C: Fn(State) -> (State, Msg),
    S: Fn(Fraction, State) -> (State, Msg),
>(state: State, queue: Seq<Msg>)
    ensures
        ran(Seq::<Firing<C, S>>::empty(), state, queue, state, queue),
{
    let outs = Seq::<(State, Msg)>::empty();
    assert(answers(Seq::<Firing<C, S>>::empty(), state, outs));
    assert(messages_of(outs) =~= Seq::<Msg>::empty());
}

/// One handler takes the state to the one it gives back, and the queue to
/// the one with its message pushed.
pub proof fn ran_one<
    Msg: EmptyMessage,
    C: Fn(State) -> (State, Msg),
    S: Fn(Fraction, State) -> (State, Msg),
>(firing: Firing<C, S>, state: State, queue: Seq<Msg>, out: (State, Msg))
    requires
        firing.yields(state, out),
    ensures
        ran(seq![firing], state, queue, out.0, enqueued(queue, out.1)),
{
    let outs = seq![out];
    assert(answers(seq![firing], state, outs));
    assert(messages_of(outs) =~= seq![out.1]);
    enqueued_all_one(queue, out.1);
}

/// A run of exactly one handler is one call of it.
pub proof fn ran_one_means<
    Msg: EmptyMessage,
    C: Fn(State) -> (State, Msg),
    S: Fn(Fraction, State) -> (State, Msg),
>(firing: Firing<C, S>, state: State, queue: Seq<Msg>, state_after: State, queue_after: Seq<Msg>)
    requires
        ran(seq![firing], state, queue, state_after, queue_after),
    ensures
        exists|message: Msg|
            #[trigger] firing.yields(state, (state_after, message)) && queue_after == enqueued(
                queue,
                message,
            ),
{
    let outs = choose|outs: Seq<(State, Msg)>|
        {
            &&& #[trigger] answers(seq![firing], state, outs)
            &&& state_after == state_before(state, outs, outs.len() as int)
            &&& queue_after == enqueued_all(queue, messages_of(outs))
        };
    assert(seq![firing][0] == firing);
    assert(firing.yields(state, outs[0]));
    assert(messages_of(outs) =~= seq![outs[0].1]);
    enqueued_all_one(queue, outs[0].1);
    assert(outs[0] == (state_after, outs[0].1));
    assert(firing.yields(state, (state_after, outs[0].1)));
}

/// Two runs, the second from where the first ended, are one run of the
/// handlers of both.
pub proof fn ran_joins<
    Msg: EmptyMessage,
    C: Fn(State) -> (State, Msg),
    S: Fn(Fraction, State) -> (State, Msg),
>(
    first: Seq<Firing<C, S>>,
    second: Seq<Firing<C, S>>,
    state: State,
    queue: Seq<Msg>,
    state_between: State,
    queue_between: Seq<Msg>,
    state_after: State,
    queue_after: Seq<Msg>,
)
    requires
        ran(first, state, queue, state_between, queue_between),
        ran(second, state_between, queue_between, state_after, queue_after),
    ensures
        ran(first + second, state, queue, state_after, queue_after),
{
    let outs1 = choose|outs: Seq<(State, Msg)>|
        {
            &&& #[trigger] answers(first, state, outs)
            &&& state_between == state_before(state, outs, outs.len() as int)
            &&& queue_between == enqueued_all(queue, messages_of(outs))
        };
    let outs2 = choose|outs: Seq<(State, Msg)>|
        {
            &&& #[trigger] answers(second, state_between, outs)
            &&& state_after == state_before(state_between, outs, outs.len() as int)
            &&& queue_after == enqueued_all(queue_between, messages_of(outs))
        };
    let outs = outs1 + outs2;
    let all = first + second;
    assert forall|i: int| 0 <= i < all.len() implies (#[trigger] all[i]).yields(
        state_before(state, outs, i),
        outs[i],
    ) by {
        if i < first.len() {
            assert(all[i] == first[i]);
            assert(state_before(state, outs, i) == state_before(state, outs1, i));
        } else {
            let j = i - first.len();
            assert(all[i] == second[j]);
            assert(outs[i] == outs2[j]);
            assert(state_before(state, outs, i) == state_before(state_between, outs2, j));
        }
    }
    assert(answers(all, state, outs));
    assert(messages_of(outs) =~= messages_of(outs1) + messages_of(outs2));
    enqueued_all_joins(queue, messages_of(outs1), messages_of(outs2));
}

/// A run without handlers leaves the state and the queue as they are.
pub proof fn ran_none_means<
    Msg: EmptyMessage,
    C: Fn(State) -> (State, Msg),
    S: Fn(Fraction, State) -> (State, Msg),
>(state: State, queue: Seq<Msg>, state_after: State, queue_after: Seq<Msg>)
    requires
        ran(Seq::<Firing<C, S>>::empty(), state, queue, state_after, queue_after),
    ensures
        state_after == state,
        queue_after == queue,
{
    let outs = choose|outs: Seq<(State, Msg)>|
        {
            &&& #[trigger] answers(Seq::<Firing<C, S>>::empty(), state, outs)
            &&& state_after == state_before(state, outs, outs.len() as int)
            &&& queue_after == enqueued_all(queue, messages_of(outs))
        };
    assert(messages_of(outs) =~= Seq::<Msg>::empty());
}

/// The handlers of a tree work on one store: what a handler wrote is what
/// the handler after it finds, whichever widgets the two belong to.
pub proof fn each_handler_finds_what_the_last_left<
    Msg,
    C: Fn(State) -> (State, Msg),
    S: Fn(Fraction, State) -> (State, Msg),
>(firings: Seq<Firing<C, S>>, start: State, outs: Seq<(State, Msg)>, i: int)
    requires
        answers(firings, start, outs),
        0 <= i < firings.len(),
    ensures
        i == 0 ==> firings[i].yields(start, outs[i]),
        i > 0 ==> firings[i].yields(outs[i - 1].0, outs[i]),
{
}

} // verus!
