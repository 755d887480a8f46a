//! Callbacks, and what it means to call them on the application's state.
//!
//! A callback takes the application's state by mutable reference, alone
//! (`Callback`) or together with a shared view of what the library has
//! gathered (`CallbackWith`). Each callback says in `allows` which changes
//! of the state a call may make; the library's contracts then say which
//! callbacks were called, and in which order, by chaining those relations.
//!
//! A function that changes the state in place can be made a callback with
//! `Action` or `Reaction`. Called directly, such a callback leaves the
//! state as the function's own contract says; among other callbacks, in a
//! run of calls, it allows every change. A function that computes the new
//! state from the old one can be made a callback with `Rewrite` or
//! `RewriteWith`; such a callback allows what the function's own contract
//! allows, wherever it is called.

use std::marker::PhantomData;
use vstd::prelude::*;

verus! {

/// A callback that works on the application's state alone.
pub trait Callback<D> {
    /// A call may turn the state `before` into `after`.
    spec fn allows(&self, before: D, after: D) -> bool;

    /// Calls the callback.
    fn call(&self, state: &mut D)
        ensures
            self.allows(*old(state), *final(state)),
    ;
}

/// A callback that works on the application's state and is shown `seen`.
pub trait CallbackWith<D, S> {
    /// A call that is shown `seen` may turn the state `before` into `after`.
    spec fn allows_with(&self, seen: &S, before: D, after: D) -> bool;

    /// Calls the callback.
    fn call_with(&self, state: &mut D, seen: &S)
        ensures
            self.allows_with(seen, *old(state), *final(state)),
    ;
}

/// A function of the state, as a callback. A call changes the state as the
/// function does; in a run of calls such a callback allows every change.
pub struct Action<D, F: Fn(&mut D)> {
    function: F,
    state: PhantomData<D>,
}

impl<D, F: Fn(&mut D)> Action<D, F> {
    #[verifier::type_invariant]
    spec fn callable(&self) -> bool {
        forall|state: &mut D| call_requires(self.function, (state,))
    }

    /// The function that is called.
    pub closed spec fn function(&self) -> F {
        self.function
    }

    /// Makes a callback of a function that can be called on any state.
    pub fn new(function: F) -> (action: Self)
        requires
            forall|state: &mut D| call_requires(function, (state,)),
        ensures
            action.function() == function,
    {
        Action { function, state: PhantomData }
    }
}

impl<D, F: Fn(&mut D) + Copy> Clone for Action<D, F> {
    fn clone(&self) -> (copy: Self)
        ensures
            copy == *self,
    {
        *self
    }
}

impl<D, F: Fn(&mut D) + Copy> Copy for Action<D, F> {

}

impl<D, F: Fn(&mut D)> Callback<D> for Action<D, F> {
    open spec fn allows(&self, before: D, after: D) -> bool {
        true
    }

    fn call(&self, state: &mut D)
        ensures
            exists|borrowed: &mut D|
                mut_ref_current(borrowed) == *old(state) && mut_ref_future(borrowed) == *final(state)
                    && call_ensures(self.function(), (borrowed,), ()),
    {
        proof {
            use_type_invariant(self);
        }
        (self.function)(state);
    }
}

/// A function of the state and of what the library shows it, as a callback.
/// A call changes the state as the function does; in a run of calls such a
/// callback allows every change.
pub struct Reaction<D, S, G: Fn(&mut D, &S)> {
    function: G,
    state: PhantomData<D>,
    seen: PhantomData<S>,
}

impl<D, S, G: Fn(&mut D, &S)> Reaction<D, S, G> {
    #[verifier::type_invariant]
    spec fn callable(&self) -> bool {
        forall|state: &mut D, seen: &S| call_requires(self.function, (state, seen))
    }

    /// The function that is called.
    pub closed spec fn function(&self) -> G {
        self.function
    }

    /// Makes a callback of a function that can be called on any state and
    /// with any second argument.
    pub fn new(function: G) -> (reaction: Self)
        requires
            forall|state: &mut D, seen: &S| call_requires(function, (state, seen)),
        ensures
            reaction.function() == function,
    {
        Reaction { function, state: PhantomData, seen: PhantomData }
    }
}

impl<D, S, G: Fn(&mut D, &S) + Copy> Clone for Reaction<D, S, G> {
    fn clone(&self) -> (copy: Self)
        ensures
            copy == *self,
    {
        *self
    }
}

impl<D, S, G: Fn(&mut D, &S) + Copy> Copy for Reaction<D, S, G> {

}

impl<D, S, G: Fn(&mut D, &S)> CallbackWith<D, S> for Reaction<D, S, G> {
    open spec fn allows_with(&self, seen: &S, before: D, after: D) -> bool {
        true
    }

    fn call_with(&self, state: &mut D, seen: &S)
        ensures
            exists|borrowed: &mut D|
                mut_ref_current(borrowed) == *old(state) && mut_ref_future(borrowed) == *final(state)
                    && call_ensures(self.function(), (borrowed, seen), ()),
    {
        proof {
            use_type_invariant(self);
        }
        (self.function)(state, seen);
    }
}

/// A function from the old state to the new one, as a callback. A call may
/// change the state in every way in which the function may answer.
#[verifier::reject_recursive_types(D)]
pub struct Rewrite<D, F: Fn(&D) -> D> {
    function: F,
    state: PhantomData<D>,
}

impl<D, F: Fn(&D) -> D> Rewrite<D, F> {
    #[verifier::type_invariant]
    spec fn callable(&self) -> bool {
        forall|state: &D| call_requires(self.function, (state,))
    }

    /// The function that computes the new state.
    pub closed spec fn function(&self) -> F {
        self.function
    }

    /// Makes a callback of a function that can be called on any state.
    pub fn new(function: F) -> (rewrite: Self)
        requires
            forall|state: &D| call_requires(function, (state,)),
        ensures
            rewrite.function() == function,
    {
        Rewrite { function, state: PhantomData }
    }
}

impl<D, F: Fn(&D) -> D + Copy> Clone for Rewrite<D, F> {
    fn clone(&self) -> (copy: Self)
        ensures
            copy == *self,
    {
        *self
    }
}

impl<D, F: Fn(&D) -> D + Copy> Copy for Rewrite<D, F> {

}

impl<D, F: Fn(&D) -> D> Callback<D> for Rewrite<D, F> {
    open spec fn allows(&self, before: D, after: D) -> bool {
        call_ensures(self.function(), (&before,), after)
    }

    fn call(&self, state: &mut D) {
        proof {
            use_type_invariant(self);
        }
        let after = (self.function)(&*state);
        *state = after;
    }
}

/// A function from the old state and what the library shows it to the new
/// state, as a callback. A call may change the state in every way in which
/// the function may answer.
#[verifier::reject_recursive_types(D)]
pub struct RewriteWith<D, S, G: Fn(&D, &S) -> D> {
    function: G,
    state: PhantomData<D>,
    seen: PhantomData<S>,
}

impl<D, S, G: Fn(&D, &S) -> D> RewriteWith<D, S, G> {
    #[verifier::type_invariant]
    spec fn callable(&self) -> bool {
        forall|state: &D, seen: &S| call_requires(self.function, (state, seen))
    }

    /// The function that computes the new state.
    pub closed spec fn function(&self) -> G {
        self.function
    }

    /// Makes a callback of a function that can be called on any state and
    /// with any second argument.
    pub fn new(function: G) -> (rewrite: Self)
        requires
            forall|state: &D, seen: &S| call_requires(function, (state, seen)),
        ensures
            rewrite.function() == function,
    {
        RewriteWith { function, state: PhantomData, seen: PhantomData }
    }
}

impl<D, S, G: Fn(&D, &S) -> D + Copy> Clone for RewriteWith<D, S, G> {
    fn clone(&self) -> (copy: Self)
        ensures
            copy == *self,
    {
        *self
    }
}

impl<D, S, G: Fn(&D, &S) -> D + Copy> Copy for RewriteWith<D, S, G> {

}

impl<D, S, G: Fn(&D, &S) -> D> CallbackWith<D, S> for RewriteWith<D, S, G> {
    open spec fn allows_with(&self, seen: &S, before: D, after: D) -> bool {
        call_ensures(self.function(), (&before, seen), after)
    }

    fn call_with(&self, state: &mut D, seen: &S) {
        proof {
            use_type_invariant(self);
        }
        let after = (self.function)(&*state, seen);
        *state = after;
    }
}

/// Calling the callbacks one after the other, in the order of the sequence,
/// may turn the state `before` into `after`.
pub open spec fn effects<D, C: Callback<D>>(callbacks: Seq<C>, before: D, after: D) -> bool
    decreases callbacks.len(),
{
    if callbacks.len() == 0 {
        after == before
    } else {
        exists|between: D|
            effects(callbacks.drop_last(), before, between) && #[trigger] callbacks.last().allows(
                between,
                after,
            )
    }
}

/// Calling the callbacks one after the other, each being shown `seen`, may
/// turn the state `before` into `after`.
pub open spec fn effects_with<D, S, C: CallbackWith<D, S>>(
    callbacks: Seq<C>,
    seen: &S,
    before: D,
    after: D,
) -> bool
    decreases callbacks.len(),
{
    if callbacks.len() == 0 {
        after == before
    } else {
        exists|between: D|
            effects_with(callbacks.drop_last(), seen, before, between)
                && #[trigger] callbacks.last().allows_with(seen, between, after)
    }
}

/// One more call at the end of a run of calls.
pub proof fn effects_extend<D, C: Callback<D>>(
    callbacks: Seq<C>,
    next: C,
    before: D,
    between: D,
    after: D,
)
    requires
        effects(callbacks, before, between),
        next.allows(between, after),
    ensures
        effects(callbacks.push(next), before, after),
{
    assert(callbacks.push(next).drop_last() =~= callbacks);
    assert(callbacks.push(next).last() == next);
}

/// One more call at the end of a run of calls.
pub proof fn effects_with_extend<D, S, C: CallbackWith<D, S>>(
    callbacks: Seq<C>,
    next: C,
    seen: &S,
    before: D,
    between: D,
    after: D,
)
    requires
        effects_with(callbacks, seen, before, between),
        next.allows_with(seen, between, after),
    ensures
        effects_with(callbacks.push(next), seen, before, after),
{
    assert(callbacks.push(next).drop_last() =~= callbacks);
    assert(callbacks.push(next).last() == next);
}

/// Runs of calls that follow one another add up.
pub proof fn effects_compose<D, C: Callback<D>>(
    earlier: Seq<C>,
    later: Seq<C>,
    before: D,
    between: D,
    after: D,
)
    requires
        effects(earlier, before, between),
        effects(later, between, after),
    ensures
        effects(earlier + later, before, after),
    decreases later.len(),
{
    if later.len() == 0 {
        assert(earlier + later =~= earlier);
    } else {
        let joint = choose|joint: D|
            effects(later.drop_last(), between, joint) && later.last().allows(joint, after);
        effects_compose(earlier, later.drop_last(), before, between, joint);
        assert((earlier + later).drop_last() =~= earlier + later.drop_last());
        assert((earlier + later).last() == later.last());
    }
}

/// Calls every callback of `callbacks` on the state, first to last.
pub fn call_all<D, C: Callback<D>>(callbacks: &Vec<C>, state: &mut D)
    ensures
        effects(callbacks@, *old(state), *final(state)),
{
    let mut i: usize = 0;
    while i < callbacks.len()
        invariant
            i <= callbacks@.len(),
            effects(callbacks@.take(i as int), *old(state), *state),
        decreases callbacks@.len() - i,
    {
        let ghost between = *state;
        callbacks[i].call(state);
        proof {
            effects_extend(callbacks@.take(i as int), callbacks@[i as int], *old(state), between, *state);
            assert(callbacks@.take(i as int).push(callbacks@[i as int]) =~= callbacks@.take(i + 1));
        }
        i += 1;
    }
    assert(callbacks@.take(i as int) =~= callbacks@);
}

} // verus!
