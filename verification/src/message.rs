//! Application messages and the queue that carries them from event handlers
//! to message handlers.

use vstd::prelude::*;

verus! {

/// What a message type has to tell the queue: which of its values stand for
/// "no message".
pub trait EmptyMessage {
    /// Whether the value is a real message rather than the empty one.
    spec fn is_message_spec(&self) -> bool;

    /// Whether the value is a real message rather than the empty one.
    fn is_message(&self) -> (is_real: bool)
        ensures
            is_real == self.is_message_spec(),
    ;
}

/// Views that send no messages use `()`, which is always empty.
impl EmptyMessage for () {
    open spec fn is_message_spec(&self) -> bool {
        false
    }

    fn is_message(&self) -> (is_real: bool) {
        false
    }
}

/// `queue` with `message` at its end when it is a real message, `queue` itself
/// when it is the empty one.
pub open spec fn enqueued<Msg: EmptyMessage>(queue: Seq<Msg>, message: Msg) -> Seq<Msg> {
    if message.is_message_spec() {
        queue.push(message)
    } else {
        queue
    }
}

/// `queue` after each of `messages` was pushed in turn.
pub open spec fn enqueued_all<Msg: EmptyMessage>(queue: Seq<Msg>, messages: Seq<Msg>) -> Seq<Msg>
    decreases messages.len(),
{
    if messages.len() == 0 {
        queue
    } else {
        enqueued(enqueued_all(queue, messages.drop_last()), messages.last())
    }
}

/// Whether no element of `queue` is the empty message.
pub open spec fn all_real<Msg: EmptyMessage>(queue: Seq<Msg>) -> bool {
    forall|i: int| 0 <= i < queue.len() ==> (#[trigger] queue[i]).is_message_spec()
}

/// The messages waiting to be delivered, oldest first. The empty message is
/// never among them.
pub struct MessageQueue<Msg: EmptyMessage> {
    queue: Vec<Msg>,
}

impl<Msg: EmptyMessage> MessageQueue<Msg> {
    /// The waiting messages, oldest first.
    pub closed spec fn view(&self) -> Seq<Msg> {
        self.queue@
    }

    #[verifier::type_invariant]
    spec fn only_real_messages(&self) -> bool {
        all_real(self.queue@)
    }

    /// A queue with nothing in it.
    pub fn new() -> (queue: Self)
        ensures
            queue@ == Seq::<Msg>::empty(),
    {
        MessageQueue { queue: Vec::new() }
    }

    /// Adds a message to the end of the queue, unless it is the empty message.
    pub fn push(&mut self, message: Msg)
        ensures
            final(self)@ == enqueued(old(self)@, message),
    {
        proof {
            use_type_invariant(&*self);
        }
        if message.is_message() {
            let mut queue: Vec<Msg> = Vec::new();
            core::mem::swap(&mut self.queue, &mut queue);
            queue.push(message);
            self.queue = queue;
        }
    }

    /// Empties the queue and hands out what it held, oldest first.
    pub fn drain(&mut self) -> (messages: Vec<Msg>)
        ensures
            messages@ == old(self)@,
            final(self)@ == Seq::<Msg>::empty(),
            all_real(messages@),
    {
        proof {
            use_type_invariant(&*self);
        }
        let mut messages: Vec<Msg> = Vec::new();
        core::mem::swap(&mut self.queue, &mut messages);
        messages
    }

    /// How many messages are waiting.
    pub fn len(&self) -> (n: usize)
        ensures
            n == self@.len(),
    {
        self.queue.len()
    }
}

/// Pushing empty messages leaves a queue as it was.
pub proof fn empty_messages_are_dropped<Msg: EmptyMessage>(queue: Seq<Msg>, messages: Seq<Msg>)
    requires
        forall|i: int| 0 <= i < messages.len() ==> !(#[trigger] messages[i]).is_message_spec(),
    ensures
        enqueued_all(queue, messages) == queue,
    decreases messages.len(),
{
    if messages.len() > 0 {
        empty_messages_are_dropped(queue, messages.drop_last());
    }
}

/// Any number of empty messages followed by one real message leave exactly
/// that message in a queue that was empty before.
pub proof fn only_the_real_message_is_queued<Msg: EmptyMessage>(empties: Seq<Msg>, last: Msg)
    requires
        forall|i: int| 0 <= i < empties.len() ==> !(#[trigger] empties[i]).is_message_spec(),
        last.is_message_spec(),
    ensures
        enqueued_all(Seq::<Msg>::empty(), empties.push(last)) == seq![last],
{
    let all = empties.push(last);
    assert(all.drop_last() =~= empties);
    empty_messages_are_dropped(Seq::<Msg>::empty(), empties);
    assert(Seq::<Msg>::empty().push(last) =~= seq![last]);
}

} // verus!
