//! The root of a view tree, with the hook that the application hangs on it.

use vstd::prelude::*;
use crate::view::stack::Stack;
use crate::Orientation;

verus! {

/// The root view of a tree together with its hook. The hook is called with
/// every message before the message goes through the tree. It takes the whole
/// root view by value and gives it back, changed or not: it may look widgets
/// up, change them, and add or remove elements.
pub struct Root<C, S, H, K> {
    pub view: Stack<C, S, H>,
    pub hook: Option<K>,
}

impl<C, S, H, K> Root<C, S, H, K> {
    /// A root view without a hook.
    pub fn new(view: Stack<C, S, H>) -> (root: Self)
        ensures
            root == (Root::<C, S, H, K> { view, hook: None }),
    {
        Root { view, hook: None }
    }

    /// Hangs a hook on the root view, in the place of the one it had.
    pub fn register_hook(&mut self, hook: K)
        ensures
            *final(self) == (Root { view: old(self).view, hook: Some(hook) }),
    {
        self.hook = Some(hook);
    }

    /// The hook of the root view, if it has one.
    pub fn get_hook(&self) -> (hook: Option<&K>)
        ensures
            match self.hook {
                Some(k) => hook matches Some(h) && *h == k,
                None => hook is None,
            },
    {
        self.hook.as_ref()
    }

    /// Whether the hook, if there is one, can be called on every view with
    /// every message.
    pub open spec fn hook_total<Msg>(self) -> bool where K: Fn(Stack<C, S, H>, &Msg) -> Stack<C, S, H> {
        self.hook matches Some(hook) ==> forall|view: Stack<C, S, H>, message: &Msg|
            call_requires(hook, (view, message))
    }

    /// Whether `after` is what the hook can make of the view `before` on
    /// `message`. Without a hook the view stays as it is.
    pub open spec fn hooked<Msg>(self, before: Stack<C, S, H>, message: &Msg, after: Stack<C, S, H>) -> bool where
        K: Fn(Stack<C, S, H>, &Msg) -> Stack<C, S, H>,
     {
        match self.hook {
            Some(hook) => call_ensures(hook, (before, message), after),
            None => after == before,
        }
    }
}

/// Calls the hook of the root view, if it has one, with the view and the
/// message.
pub fn call_hook<Msg, C, S, H, K: Fn(Stack<C, S, H>, &Msg) -> Stack<C, S, H>>(
    root: &mut Root<C, S, H, K>,
    message: &Msg,
)
    requires
        old(root).hook_total::<Msg>(),
    ensures
        final(root).hook == old(root).hook,
        old(root).hooked(old(root).view, message, final(root).view),
{
    match &root.hook {
        Some(hook) => {
            let mut taken = Stack::new(Orientation::Vertical, Vec::new());
            core::mem::swap(&mut root.view, &mut taken);
            let next = hook(taken, message);
            root.view = next;
        },
        None => {},
    }
}

} // verus!
