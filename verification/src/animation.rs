//! Animations: a change that is applied to a target step by step, for a
//! while.

use vstd::prelude::*;

verus! {

/// Whether an animation still runs.
#[derive(Clone, Copy, Debug, PartialEq, Eq, Structural)]
pub enum AnimationStatus {
    InProgress,
    Complete,
}

/// An animation of a target of the type `T`. Its function takes the target
/// and the time that the animation has run, and gives the target back as it
/// is at that time.
pub struct Animation<T, F> {
    pub animation: F,
    /// How long the animation runs, in milliseconds.
    pub duration: u32,
    /// How long the animation has run, in milliseconds.
    pub elapsed: u32,
    pub target: core::marker::PhantomData<T>,
}

impl<T, F: Fn(T, u32) -> T> Animation<T, F> {
    /// Whether the function of the animation can be called on every target
    /// at every time.
    pub open spec fn total(self) -> bool {
        forall|target: T, elapsed: u32| call_requires(self.animation, (target, elapsed))
    }

    /// An animation that has not run yet.
    pub fn new(animation: F, duration: u32) -> (made: Self)
        ensures
            made.animation == animation,
            made.duration == duration,
            made.elapsed == 0,
    {
        Animation { animation, duration, elapsed: 0, target: core::marker::PhantomData }
    }

    /// Lets `dt` milliseconds go by. While the animation has not run longer
    /// than it lasts, its function is applied to the target; after that the
    /// target stays as it is and the animation is complete.
    pub fn animate(&mut self, target: T, dt: u32) -> (out: (T, AnimationStatus))
        requires
            old(self).total(),
            old(self).elapsed + dt <= u32::MAX,
        ensures
            final(self).elapsed == old(self).elapsed + dt,
            final(self).duration == old(self).duration,
            final(self).animation == old(self).animation,
            final(self).elapsed <= final(self).duration ==> out.1 == AnimationStatus::InProgress
                && call_ensures(old(self).animation, (target, final(self).elapsed), out.0),
            final(self).elapsed > final(self).duration ==> out.1 == AnimationStatus::Complete && out.0
                == target,
    {
        self.elapsed = self.elapsed + dt;
        if self.elapsed <= self.duration {
            let moved = (self.animation)(target, self.elapsed);
            (moved, AnimationStatus::InProgress)
        } else {
            (target, AnimationStatus::Complete)
        }
    }
}

} // verus!
