//! Which inputs are held, and which went down or up since the last step.

use crate::clock;
use crate::clock::span;
use crate::default_ahashmap::DefaultAHashMap;
use crate::definitions::{ElementState, KeyCode, MouseButton, Symbol, KEY_BASE};
use crate::dispatch::{Callback, CallbackWith};
use crate::tables::{
    held_clear, held_clone, held_contains, held_get, held_insert, held_keys, held_new, held_remove,
    held_since, members, members_clear, members_clone, members_contains, members_insert,
    members_list, members_new, members_remove,
};
use ahash::AHashMap;
use ahash::AHashSet;
use std::marker::PhantomData;
use std::time::Duration;
use std::time::Instant;
use vstd::prelude::*;

pub mod callbacks;
pub mod data;

verus! {

/// What a tracker knows, as mathematics.
#[verifier::reject_recursive_types(T)]
pub struct InputView<T> {
    /// The inputs that are held, each with the instant at which it went down.
    pub pressed: Map<T, Instant>,
    /// The inputs that went down since the last `clear` and are still held.
    pub just_pressed: Set<T>,
    /// The inputs that went up since the last `clear`.
    pub just_released: Set<T>,
}

impl<T> InputView<T> {
    /// Nothing held, nothing pressed or released.
    pub open spec fn empty() -> Self {
        InputView { pressed: Map::empty(), just_pressed: Set::empty(), just_released: Set::empty() }
    }

    /// Whether `input` is held.
    pub open spec fn is_pressed(self, input: T) -> bool {
        self.pressed.dom().contains(input)
    }

    /// `input` goes down at instant `at`. An input that is already held
    /// keeps its instant and is not reported again. An input that was
    /// released earlier in the step is, once it is held again, no longer
    /// reported as just released.
    pub open spec fn press(self, input: T, at: Instant) -> Self {
        if self.pressed.dom().contains(input) {
            self
        } else {
            InputView {
                pressed: self.pressed.insert(input, at),
                just_pressed: self.just_pressed.insert(input),
                just_released: self.just_released.remove(input),
            }
        }
    }

    /// `input` goes up.
    pub open spec fn release(self, input: T) -> Self {
        InputView {
            pressed: self.pressed.remove(input),
            just_pressed: self.just_pressed.remove(input),
            just_released: self.just_released.insert(input),
        }
    }

    /// A step ends: what was just pressed or released is forgotten, what is
    /// held stays.
    pub open spec fn clear(self) -> Self {
        InputView { pressed: self.pressed, just_pressed: Set::empty(), just_released: Set::empty() }
    }

    /// Every input in `inputs` is held.
    pub open spec fn all_pressed(self, inputs: Seq<T>) -> bool {
        forall|i: int| 0 <= i < inputs.len() ==> self.pressed.dom().contains(#[trigger] inputs[i])
    }

    /// Some input in `inputs` is held.
    pub open spec fn any_pressed(self, inputs: Seq<T>) -> bool {
        exists|i: int| 0 <= i < inputs.len() && self.pressed.dom().contains(#[trigger] inputs[i])
    }

    /// Every input in `inputs` was just pressed.
    pub open spec fn all_just_pressed(self, inputs: Seq<T>) -> bool {
        forall|i: int| 0 <= i < inputs.len() ==> self.just_pressed.contains(#[trigger] inputs[i])
    }

    /// Some input in `inputs` was just pressed.
    pub open spec fn any_just_pressed(self, inputs: Seq<T>) -> bool {
        exists|i: int| 0 <= i < inputs.len() && self.just_pressed.contains(#[trigger] inputs[i])
    }

    /// Every input in `inputs` was just released.
    pub open spec fn all_just_released(self, inputs: Seq<T>) -> bool {
        forall|i: int| 0 <= i < inputs.len() ==> self.just_released.contains(#[trigger] inputs[i])
    }

    /// Some input in `inputs` was just released.
    pub open spec fn any_just_released(self, inputs: Seq<T>) -> bool {
        exists|i: int| 0 <= i < inputs.len() && self.just_released.contains(#[trigger] inputs[i])
    }

    /// How long `input` has been held when the clock reads `now`: the time
    /// from the instant at which it went down; nothing, if it is not held.
    pub open spec fn pressed_for(self, input: T, now: Instant) -> Option<Duration> {
        if self.pressed.dom().contains(input) {
            Some(span(now, self.pressed[input]))
        } else {
            None
        }
    }

    /// What is reported as just pressed is held, and what is held is not
    /// reported as just released.
    pub open spec fn consistent(self) -> bool {
        &&& self.just_pressed.subset_of(self.pressed.dom())
        &&& self.just_released.disjoint(self.pressed.dom())
    }

    /// Right after a press the input is held. It is also reported as just
    /// pressed, unless it was already held and that report had been cleared.
    pub proof fn press_is_seen(self, input: T, at: Instant)
        requires
            self.pressed.dom().contains(input) ==> self.just_pressed.contains(input),
        ensures
            self.press(input, at).pressed.dom().contains(input),
            self.press(input, at).just_pressed.contains(input),
    {
    }

    /// Pressing an input a second time changes nothing: the instant of the
    /// first press stays, and so does the report of the press.
    pub proof fn press_is_idempotent(self, input: T, first: Instant, second: Instant)
        ensures
            self.press(input, first).press(input, second) == self.press(input, first),
            self.press(input, first).press(input, second).pressed[input] == self.press(
                input,
                first,
            ).pressed[input],
            self.press(input, first).just_pressed.contains(input) ==> self.press(input, first).press(
                input,
                second,
            ).just_pressed.contains(input),
    {
    }

    /// An input that goes down and up again within one step leaves no trace
    /// once the step has ended.
    pub proof fn press_release_clear_leaves_nothing(self, input: T, at: Instant)
        ensures
            !self.press(input, at).release(input).clear().pressed.dom().contains(input),
            !self.press(input, at).release(input).clear().just_pressed.contains(input),
            !self.press(input, at).release(input).clear().just_released.contains(input),
    {
    }

    /// After `clear` nothing is reported as just pressed or just released,
    /// and exactly the inputs that were held are still held, since the same
    /// instants.
    pub proof fn clear_keeps_held(self)
        ensures
            self.clear().just_pressed == Set::<T>::empty(),
            self.clear().just_released == Set::<T>::empty(),
            self.clear().pressed == self.pressed,
            forall|input: T|
                self.pressed.dom().contains(input) ==> #[trigger] self.clear().pressed.dom().contains(
                    input,
                ),
    {
    }

    /// For two inputs, "all held" means both are held and "any held" means
    /// at least one is.
    pub proof fn all_and_any_of_two(self, a: T, b: T)
        ensures
            self.all_pressed(seq![a, b]) <==> self.is_pressed(a) && self.is_pressed(b),
            self.any_pressed(seq![a, b]) <==> self.is_pressed(a) || self.is_pressed(b),
    {
        let both = seq![a, b];
        assert(both[0] == a && both[1] == b);
        if self.is_pressed(a) || self.is_pressed(b) {
            if self.is_pressed(a) {
                assert(self.pressed.dom().contains(both[0]));
            } else {
                assert(self.pressed.dom().contains(both[1]));
            }
        }
    }

    /// A released input is no longer held, no longer reported as just
    /// pressed, and reported as just released.
    pub proof fn release_is_seen(self, input: T)
        ensures
            !self.release(input).pressed.dom().contains(input),
            !self.release(input).just_pressed.contains(input),
            self.release(input).just_released.contains(input),
    {
    }

    /// Every operation keeps the reports consistent with what is held: no
    /// input is ever held and reported as just released at once, and none is
    /// reported as just pressed without being held.
    pub proof fn operations_keep_consistency(self, input: T, at: Instant)
        requires
            self.consistent(),
        ensures
            Self::empty().consistent(),
            self.press(input, at).consistent(),
            self.release(input).consistent(),
            self.clear().consistent(),
            forall|held: T| #[trigger]
                self.press(input, at).pressed.dom().contains(held) ==> !self.press(
                    input,
                    at,
                ).just_released.contains(held),
    {
    }

    /// An input that goes up and down again within one step is held, is
    /// reported as just pressed, and is not reported as just released.
    pub proof fn release_then_press_is_held_only(self, input: T, at: Instant)
        ensures
            self.release(input).press(input, at).pressed.dom().contains(input),
            self.release(input).press(input, at).just_pressed.contains(input),
            !self.release(input).press(input, at).just_released.contains(input),
    {
    }
}

/// Tracks, for one kind of symbol, which inputs are held and which changed
/// since the last step.
pub struct Input<T: Symbol> {
    pressed: AHashMap<u64, Instant>,
    just_pressed: AHashSet<u64>,
    just_released: AHashSet<u64>,
    symbol: PhantomData<T>,
}

impl<T: Symbol> View for Input<T> {
    type V = InputView<T>;

    closed spec fn view(&self) -> InputView<T> {
        InputView {
            pressed: Map::new(
                |s: T| held_since(self.pressed).dom().contains(s.code()),
                |s: T| held_since(self.pressed)[s.code()],
            ),
            just_pressed: Set::new(|s: T| members(self.just_pressed).contains(s.code())),
            just_released: Set::new(|s: T| members(self.just_released).contains(s.code())),
        }
    }
}

impl<T: Symbol> Input<T> {
    /// A tracker that knows of no input.
    pub fn new() -> (tracker: Self)
        ensures
            tracker@ == InputView::<T>::empty(),
            tracker@.consistent(),
    {
        let tracker = Input {
            pressed: held_new(),
            just_pressed: members_new(),
            just_released: members_new(),
            symbol: PhantomData,
        };
        assert(tracker@.pressed =~= Map::empty());
        assert(tracker@.just_pressed =~= Set::empty());
        assert(tracker@.just_released =~= Set::empty());
        tracker
    }

    /// Whether `input` is held.
    pub fn pressed(&self, input: T) -> (held: bool)
        ensures
            held == self@.pressed.dom().contains(input),
    {
        held_contains(&self.pressed, input.to_code())
    }

    /// Whether `input` went down since the last `clear` and is still held.
    pub fn just_pressed(&self, input: T) -> (fresh: bool)
        ensures
            fresh == self@.just_pressed.contains(input),
    {
        members_contains(&self.just_pressed, input.to_code())
    }

    /// Whether `input` went up since the last `clear`.
    pub fn just_released(&self, input: T) -> (fresh: bool)
        ensures
            fresh == self@.just_released.contains(input),
    {
        members_contains(&self.just_released, input.to_code())
    }

    /// The instant at which `input` went down, if it is held.
    pub fn pressed_since(&self, input: T) -> (since: Option<Instant>)
        ensures
            since == if self@.pressed.dom().contains(input) {
                Some(self@.pressed[input])
            } else {
                None::<Instant>
            },
    {
        held_get(&self.pressed, input.to_code())
    }

    /// How long `input` has been held when the clock reads `now`, if it is
    /// held: the time from the instant at which it went down to `now`.
    pub fn pressed_for_at(&self, input: T, now: Instant) -> (held_for: Option<Duration>)
        ensures
            held_for == self@.pressed_for(input, now),
    {
        match held_get(&self.pressed, input.to_code()) {
            Some(since) => Some(clock::since(&now, &since)),
            None => None,
        }
    }

    /// How long `input` has been held, if it is held: the time from the
    /// instant at which it went down to the reading of the clock that the
    /// call takes.
    pub fn pressed_for(&self, input: T) -> (held_for: Option<Duration>)
        ensures
            exists|now: Instant| held_for == self@.pressed_for(input, now),
            held_for is Some == self@.pressed.dom().contains(input),
    {
        let now = clock::now();
        self.pressed_for_at(input, now)
    }

    /// Registers `input` as pressed at the instant `at`. Pressing an input
    /// that is already held changes nothing; an input that was not held is
    /// held and just pressed afterwards, and no longer just released.
    pub fn press_at(&mut self, input: T, at: Instant)
        ensures
            final(self)@ == old(self)@.press(input, at),
            old(self)@.consistent() ==> final(self)@.consistent(),
    {
        let code = input.to_code();
        if !held_contains(&self.pressed, code) {
            held_insert(&mut self.pressed, code, at);
            members_insert(&mut self.just_pressed, code);
            members_remove(&mut self.just_released, code);
            proof {
                let before = old(self)@;
                let after = self@;
                assert forall|s: T| s.code() == code implies s == input by {
                    T::code_is_injective(s, input);
                }
                assert(after.pressed =~= before.pressed.insert(input, at));
                assert(after.just_pressed =~= before.just_pressed.insert(input));
                assert(after.just_released =~= before.just_released.remove(input));
            }
        }
    }

    /// Registers `input` as pressed now. Pressing an input that is already
    /// held changes nothing; in particular it keeps its instant.
    pub fn press(&mut self, input: T)
        ensures
            exists|at: Instant| final(self)@ == old(self)@.press(input, at),
            final(self)@.pressed.dom().contains(input),
            old(self)@.pressed.dom().contains(input) ==> final(self)@ == old(self)@,
            !old(self)@.pressed.dom().contains(input) ==> final(self)@.just_pressed.contains(input)
                && !final(self)@.just_released.contains(input),
            old(self)@.consistent() ==> final(self)@.consistent(),
    {
        let at = clock::now();
        self.press_at(input, at);
    }

    /// Registers `input` as released.
    pub fn release(&mut self, input: T)
        ensures
            final(self)@ == old(self)@.release(input),
            old(self)@.consistent() ==> final(self)@.consistent(),
    {
        let code = input.to_code();
        members_remove(&mut self.just_pressed, code);
        held_remove(&mut self.pressed, code);
        members_insert(&mut self.just_released, code);
        proof {
            let before = old(self)@;
            let after = self@;
            assert forall|s: T| s.code() == code implies s == input by {
                T::code_is_injective(s, input);
            }
            assert(after.pressed =~= before.pressed.remove(input));
            assert(after.just_pressed =~= before.just_pressed.remove(input));
            assert(after.just_released =~= before.just_released.insert(input));
        }
    }

    /// Forgets what was just pressed and just released. What is held stays.
    pub fn clear(&mut self)
        ensures
            final(self)@ == old(self)@.clear(),
            old(self)@.consistent() ==> final(self)@.consistent(),
    {
        members_clear(&mut self.just_pressed);
        members_clear(&mut self.just_released);
        proof {
            assert(self@.pressed =~= old(self)@.pressed);
            assert(self@.just_pressed =~= Set::empty());
            assert(self@.just_released =~= Set::empty());
        }
    }

    /// Forgets everything.
    pub fn reset(&mut self)
        ensures
            final(self)@ == InputView::<T>::empty(),
            final(self)@.consistent(),
    {
        members_clear(&mut self.just_pressed);
        held_clear(&mut self.pressed);
        members_clear(&mut self.just_released);
        proof {
            assert(self@.pressed =~= Map::empty());
            assert(self@.just_pressed =~= Set::empty());
            assert(self@.just_released =~= Set::empty());
        }
    }

    /// Whether every input in `inputs` is held.
    pub fn pressed_all(&self, inputs: &[T]) -> (all: bool)
        ensures
            all == self@.all_pressed(inputs@),
    {
        let mut i: usize = 0;
        while i < inputs.len()
            invariant
                i <= inputs@.len(),
                forall|j: int| 0 <= j < i ==> self@.pressed.dom().contains(#[trigger] inputs@[j]),
            decreases inputs@.len() - i,
        {
            if !self.pressed(inputs[i]) {
                return false;
            }
            i += 1;
        }
        true
    }

    /// Whether some input in `inputs` is held.
    pub fn pressed_any(&self, inputs: &[T]) -> (any: bool)
        ensures
            any == self@.any_pressed(inputs@),
    {
        let mut i: usize = 0;
        while i < inputs.len()
            invariant
                i <= inputs@.len(),
                forall|j: int| 0 <= j < i ==> !self@.pressed.dom().contains(#[trigger] inputs@[j]),
            decreases inputs@.len() - i,
        {
            if self.pressed(inputs[i]) {
                return true;
            }
            i += 1;
        }
        false
    }

    /// Whether every input in `inputs` was just pressed.
    pub fn just_pressed_all(&self, inputs: &[T]) -> (all: bool)
        ensures
            all == self@.all_just_pressed(inputs@),
    {
        let mut i: usize = 0;
        while i < inputs.len()
            invariant
                i <= inputs@.len(),
                forall|j: int| 0 <= j < i ==> self@.just_pressed.contains(#[trigger] inputs@[j]),
            decreases inputs@.len() - i,
        {
            if !self.just_pressed(inputs[i]) {
                return false;
            }
            i += 1;
        }
        true
    }

    /// Whether some input in `inputs` was just pressed.
    pub fn just_pressed_any(&self, inputs: &[T]) -> (any: bool)
        ensures
            any == self@.any_just_pressed(inputs@),
    {
        let mut i: usize = 0;
        while i < inputs.len()
            invariant
                i <= inputs@.len(),
                forall|j: int| 0 <= j < i ==> !self@.just_pressed.contains(#[trigger] inputs@[j]),
            decreases inputs@.len() - i,
        {
            if self.just_pressed(inputs[i]) {
                return true;
            }
            i += 1;
        }
        false
    }

    /// Whether every input in `inputs` was just released.
    pub fn just_released_all(&self, inputs: &[T]) -> (all: bool)
        ensures
            all == self@.all_just_released(inputs@),
    {
        let mut i: usize = 0;
        while i < inputs.len()
            invariant
                i <= inputs@.len(),
                forall|j: int| 0 <= j < i ==> self@.just_released.contains(#[trigger] inputs@[j]),
            decreases inputs@.len() - i,
        {
            if !self.just_released(inputs[i]) {
                return false;
            }
            i += 1;
        }
        true
    }

    /// Whether some input in `inputs` was just released.
    pub fn just_released_any(&self, inputs: &[T]) -> (any: bool)
        ensures
            any == self@.any_just_released(inputs@),
    {
        let mut i: usize = 0;
        while i < inputs.len()
            invariant
                i <= inputs@.len(),
                forall|j: int| 0 <= j < i ==> !self@.just_released.contains(#[trigger] inputs@[j]),
            decreases inputs@.len() - i,
        {
            if self.just_released(inputs[i]) {
                return true;
            }
            i += 1;
        }
        false
    }

    /// The inputs that are held, each once, in no particular order.
    pub fn pressed_iter(&self) -> (held: Vec<T>)
        ensures
            held@.no_duplicates(),
            held@.to_set() == self@.pressed.dom(),
    {
        let held = symbols_of(held_keys(&self.pressed));
        assert(held@.to_set() =~= self@.pressed.dom());
        held
    }

    /// The inputs that were just pressed, each once, in no particular order.
    pub fn just_pressed_iter(&self) -> (fresh: Vec<T>)
        ensures
            fresh@.no_duplicates(),
            fresh@.to_set() == self@.just_pressed,
    {
        let fresh = symbols_of(members_list(&self.just_pressed));
        assert(fresh@.to_set() =~= self@.just_pressed);
        fresh
    }

    /// The inputs that were just released, each once, in no particular order.
    pub fn just_released_iter(&self) -> (fresh: Vec<T>)
        ensures
            fresh@.no_duplicates(),
            fresh@.to_set() == self@.just_released,
    {
        let fresh = symbols_of(members_list(&self.just_released));
        assert(fresh@.to_set() =~= self@.just_released);
        fresh
    }
}

impl<T: Symbol> Clone for Input<T> {
    /// A second tracker that knows what this one knows.
    fn clone(&self) -> (copy: Self)
        ensures
            copy@ == self@,
    {
        let copy = Input {
            pressed: held_clone(&self.pressed),
            just_pressed: members_clone(&self.just_pressed),
            just_released: members_clone(&self.just_released),
            symbol: PhantomData,
        };
        assert(copy@.pressed =~= self@.pressed);
        assert(copy@.just_pressed =~= self@.just_pressed);
        assert(copy@.just_released =~= self@.just_released);
        copy
    }
}

impl<T: Symbol> Default for Input<T> {
    fn default() -> (tracker: Self)
        ensures
            tracker@ == InputView::<T>::empty(),
    {
        Input::new()
    }
}

/// The symbols whose codes are in `codes`, in the order of their codes.
/// A code that names no symbol contributes nothing, and no symbol comes
/// twice unless its code does.
pub fn symbols_of<T: Symbol>(codes: Vec<u64>) -> (symbols: Vec<T>)
    ensures
        forall|s: T| symbols@.contains(s) <==> codes@.contains(#[trigger] s.code()),
        codes@.no_duplicates() ==> symbols@.no_duplicates(),
        symbols@.len() <= codes@.len(),
{
    let mut symbols: Vec<T> = Vec::new();
    let mut i: usize = 0;
    while i < codes.len()
        invariant
            i <= codes@.len(),
            symbols@.len() <= i,
            codes@.no_duplicates() ==> symbols@.no_duplicates(),
            forall|s: T|
                symbols@.contains(s) <==> exists|j: int|
                    0 <= j < i && codes@[j] == #[trigger] s.code(),
        decreases codes@.len() - i,
    {
        let code = codes[i];
        let ghost before = symbols@;
        match T::from_code(code) {
            Some(symbol) => {
                symbols.push(symbol);
                proof {
                    if codes@.no_duplicates() {
                        assert(!before.contains(symbol));
                    }
                    assert forall|s: T|
                        symbols@.contains(s) <==> exists|j: int|
                            0 <= j < i + 1 && codes@[j] == #[trigger] s.code() by {
                        if symbols@.contains(s) {
                            let k = choose|k: int| 0 <= k < symbols@.len() && symbols@[k] == s;
                            if k < before.len() {
                                assert(before[k] == s);
                                assert(before.contains(s));
                            } else {
                                assert(codes@[i as int] == s.code());
                            }
                        }
                        if exists|j: int| 0 <= j < i + 1 && codes@[j] == s.code() {
                            let j = choose|j: int| 0 <= j < i + 1 && codes@[j] == s.code();
                            if j < i {
                                assert(before.contains(s));
                                let k = choose|k: int| 0 <= k < before.len() && before[k] == s;
                                assert(symbols@[k] == s);
                            } else {
                                T::code_is_injective(s, symbol);
                                assert(symbols@[before.len() as int] == s);
                            }
                        }
                    }
                }
            },
            None => {
                proof {
                    assert forall|s: T|
                        symbols@.contains(s) <==> exists|j: int|
                            0 <= j < i + 1 && codes@[j] == #[trigger] s.code() by {
                        if exists|j: int| 0 <= j < i + 1 && codes@[j] == s.code() {
                            let j = choose|j: int| 0 <= j < i + 1 && codes@[j] == s.code();
                            assert(j < i);
                        }
                    }
                }
            },
        }
        i += 1;
    }
    proof {
        assert forall|s: T| symbols@.contains(s) <==> codes@.contains(#[trigger] s.code()) by {
            if codes@.contains(s.code()) {
                let j = choose|j: int| 0 <= j < codes@.len() && codes@[j] == s.code();
                assert(codes@[j] == s.code());
            }
        }
    }
    symbols
}

/// What a raw press or release means to a callback: the input went down,
/// it is (still) down, or it went up.
#[derive(Clone, Copy, Debug, PartialEq, Eq, Hash, Structural)]
pub enum State {
    Pressed,
    Held,
    Released,
}

/// The signals that one raw press or release event stands for, in the order
/// in which callbacks get them.
///
/// A raw "pressed" event always means that the input is held, and it means
/// that the input went down only if it was not held before: a key that
/// repeats while it is held gives `Held` again and again, but `Pressed`
/// once.
pub open spec fn signals_of(state: ElementState, newly_pressed: bool) -> Seq<State> {
    match state {
        ElementState::Pressed => if newly_pressed {
            seq![State::Pressed, State::Held]
        } else {
            seq![State::Held]
        },
        ElementState::Released => seq![State::Released],
    }
}

/// Computes the signals that one raw press or release event stands for.
pub fn element_state_callbacks(state: ElementState, newly_pressed: bool) -> (signals: Vec<State>)
    ensures
        signals@ == signals_of(state, newly_pressed),
{
    let mut signals: Vec<State> = Vec::new();
    match state {
        ElementState::Pressed => {
            if newly_pressed {
                signals.push(State::Pressed);
            }
            signals.push(State::Held);
        },
        ElementState::Released => {
            signals.push(State::Released);
        },
    }
    assert(signals@ =~= signals_of(state, newly_pressed));
    signals
}

/// What a callback for any input of a kind is shown: the input, and what
/// the raw event means for it.
pub struct Signal<T> {
    pub input: T,
    pub state: State,
}

impl State {
    /// The place of the signal among the three signals.
    pub open spec fn index_of(self) -> u64 {
        match self {
            State::Pressed => 0,
            State::Held => 1,
            State::Released => 2,
        }
    }

    /// Computes the place of the signal among the three signals.
    pub fn index(self) -> (index: u64)
        ensures
            index == self.index_of(),
    {
        match self {
            State::Pressed => 0,
            State::Held => 1,
            State::Released => 2,
        }
    }
}

/// The number under which the callback for an input and a signal is kept,
/// given the number of the input.
pub open spec fn signal_code(input_code: u64, state: State) -> u64 {
    (input_code * 3 + state.index_of()) as u64
}

/// The callback that is kept under a number, if there is one.
pub open spec fn kept_under<C>(keyed: Map<u64, Option<C>>, code: u64) -> Option<C> {
    if keyed.dom().contains(code) {
        keyed[code]
    } else {
        None
    }
}

/// Calling the callback for any input, if there is one, and showing it the
/// input and the signal may turn the state `before` into `after`.
pub open spec fn any_effect<S, T, A: CallbackWith<S, Signal<T>>>(
    any: Option<A>,
    input: T,
    state: State,
    before: S,
    after: S,
) -> bool {
    match any {
        Some(callback) => callback.allows_with(&Signal { input, state }, before, after),
        None => after == before,
    }
}

/// Calling the callback that is kept under a number, if there is one, may
/// turn the state `before` into `after`.
pub open spec fn keyed_effect<S, C: Callback<S>>(
    keyed: Map<u64, Option<C>>,
    code: u64,
    before: S,
    after: S,
) -> bool {
    match kept_under(keyed, code) {
        Some(callback) => callback.allows(before, after),
        None => after == before,
    }
}

/// Sending one signal about an input may turn the state `before` into
/// `after`: first the callback for any input is called and shown the input
/// and the signal, then the callback for this very input and signal. A
/// callback that is not registered is not called.
pub open spec fn signal_effect<S, T, C: Callback<S>, A: CallbackWith<S, Signal<T>>>(
    any: Option<A>,
    keyed: Map<u64, Option<C>>,
    input: T,
    input_code: u64,
    state: State,
    before: S,
    after: S,
) -> bool {
    exists|between: S| #[trigger]
        any_effect(any, input, state, before, between) && keyed_effect(
            keyed,
            signal_code(input_code, state),
            between,
            after,
        )
}

/// Sending the signals one after the other may turn the state `before` into
/// `after`.
pub open spec fn signals_effect<S, T, C: Callback<S>, A: CallbackWith<S, Signal<T>>>(
    any: Option<A>,
    keyed: Map<u64, Option<C>>,
    input: T,
    input_code: u64,
    signals: Seq<State>,
    before: S,
    after: S,
) -> bool
    decreases signals.len(),
{
    if signals.len() == 0 {
        after == before
    } else {
        exists|between: S|
            signals_effect(any, keyed, input, input_code, signals.drop_last(), before, between)
                && #[trigger] signal_effect(any, keyed, input, input_code, signals.last(), between, after)
    }
}

/// Sends the signals about an input, one after the other: for each signal
/// the callback for any input is called first, then the callback for this
/// very input and signal.
pub fn send_signals<S, T: Copy, C: Callback<S>, A: CallbackWith<S, Signal<T>>>(
    any: &Option<A>,
    keyed: &DefaultAHashMap<Option<C>>,
    input: T,
    input_code: u64,
    signals: &Vec<State>,
    state: &mut S,
)
    requires
        keyed.wf(),
        keyed.default_value() is None,
        input_code <= 0xffff_ffff_ffff,
    ensures
        signals_effect(*any, keyed@, input, input_code, signals@, *old(state), *final(state)),
{
    let ghost start = *state;
    let mut i: usize = 0;
    while i < signals.len()
        invariant
            i <= signals@.len(),
            keyed.wf(),
            keyed.default_value() is None,
            input_code <= 0xffff_ffff_ffff,
            signals_effect(*any, keyed@, input, input_code, signals@.take(i as int), start, *state),
        decreases signals@.len() - i,
    {
        let ghost before = *state;
        let signal = signals[i];
        match any {
            Some(callback) => {
                callback.call_with(state, &Signal { input, state: signal });
            },
            None => {},
        }
        let ghost between = *state;
        match keyed.get(input_code * 3 + signal.index()) {
            Some(callback) => {
                callback.call(state);
            },
            None => {},
        }
        proof {
            assert(any_effect(*any, input, signal, before, between));
            assert(signal_effect(*any, keyed@, input, input_code, signal, before, *state));
            assert(signals@.take(i + 1).drop_last() =~= signals@.take(i as int));
            assert(signals@.take(i + 1).last() == signal);
        }
        i += 1;
    }
    assert(signals@.take(i as int) =~= signals@);
}

/// A mouse button or a key by meaning.
#[derive(Clone, Copy, Debug, PartialEq, Eq, Hash, Structural)]
pub enum GeneralInput {
    MouseButton(MouseButton),
    KeyCode(KeyCode),
}

impl Symbol for GeneralInput {
    open spec fn code(self) -> u64 {
        match self {
            GeneralInput::MouseButton(button) => button.code(),
            GeneralInput::KeyCode(key) => (KEY_BASE + key.0) as u64,
        }
    }

    fn to_code(self) -> (c: u64) {
        match self {
            GeneralInput::MouseButton(button) => button.to_code(),
            GeneralInput::KeyCode(key) => KEY_BASE + key.0 as u64,
        }
    }

    fn from_code(c: u64) -> (found: Option<Self>) {
        if c < KEY_BASE {
            match MouseButton::from_code(c) {
                Some(button) => Some(GeneralInput::MouseButton(button)),
                None => None,
            }
        } else if c <= KEY_BASE + 0xffff_ffff {
            Some(GeneralInput::KeyCode(KeyCode((c - KEY_BASE) as u32)))
        } else {
            None
        }
    }

    proof fn code_is_injective(a: Self, b: Self) {
    }
}

impl From<MouseButton> for GeneralInput {
    fn from(value: MouseButton) -> (input: Self) {
        GeneralInput::MouseButton(value)
    }
}

impl vstd::std_specs::convert::FromSpecImpl<MouseButton> for GeneralInput {
    open spec fn obeys_from_spec() -> bool {
        true
    }

    open spec fn from_spec(value: MouseButton) -> Self {
        GeneralInput::MouseButton(value)
    }
}

impl From<KeyCode> for GeneralInput {
    fn from(value: KeyCode) -> (input: Self) {
        GeneralInput::KeyCode(value)
    }
}

impl vstd::std_specs::convert::FromSpecImpl<KeyCode> for GeneralInput {
    open spec fn obeys_from_spec() -> bool {
        true
    }

    open spec fn from_spec(value: KeyCode) -> Self {
        GeneralInput::KeyCode(value)
    }
}

/// What `pick` picks out of `inputs`, in their order; an input of which it
/// picks nothing is passed over.
pub open spec fn picked<A, B>(inputs: Seq<A>, pick: spec_fn(A) -> Option<B>) -> Seq<B>
    decreases inputs.len(),
{
    if inputs.len() == 0 {
        Seq::empty()
    } else {
        let earlier = picked(inputs.drop_last(), pick);
        match pick(inputs.last()) {
            Some(found) => earlier.push(found),
            None => earlier,
        }
    }
}

/// Something is among what is picked exactly if it is picked of one of the
/// inputs; and where no input comes twice and different inputs are never
/// picked alike, nothing is picked twice.
pub proof fn picked_membership<A, B>(inputs: Seq<A>, pick: spec_fn(A) -> Option<B>)
    ensures
        forall|found: B|
            picked(inputs, pick).contains(found) <==> exists|i: int|
                0 <= i < inputs.len() && pick(#[trigger] inputs[i]) == Some(found),
        inputs.no_duplicates() && (forall|x: A, y: A|
            (#[trigger] pick(x)) is Some && pick(x) == #[trigger] pick(y) ==> x == y) ==> picked(
            inputs,
            pick,
        ).no_duplicates(),
    decreases inputs.len(),
{
    if inputs.len() > 0 {
        let shorter = inputs.drop_last();
        let earlier = picked(shorter, pick);
        let all = picked(inputs, pick);
        picked_membership(shorter, pick);
        assert forall|found: B|
            all.contains(found) <==> exists|i: int|
                0 <= i < inputs.len() && pick(#[trigger] inputs[i]) == Some(found) by {
            if all.contains(found) {
                if earlier.contains(found) {
                    let j = choose|j: int| 0 <= j < shorter.len() && pick(#[trigger] shorter[j]) == Some(found);
                    assert(pick(inputs[j]) == Some(found));
                } else {
                    assert(pick(inputs[inputs.len() - 1]) == Some(found));
                }
            }
            if exists|i: int| 0 <= i < inputs.len() && pick(#[trigger] inputs[i]) == Some(found) {
                let j = choose|j: int| 0 <= j < inputs.len() && pick(#[trigger] inputs[j]) == Some(found);
                if j < shorter.len() {
                    assert(pick(shorter[j]) == Some(found));
                    assert(earlier.contains(found));
                    let k = choose|k: int| 0 <= k < earlier.len() && earlier[k] == found;
                    assert(all[k] == found);
                } else {
                    assert(all[earlier.len() as int] == found);
                }
            }
        }
        if inputs.no_duplicates() && (forall|x: A, y: A|
            (#[trigger] pick(x)) is Some && pick(x) == #[trigger] pick(y) ==> x == y) {
            assert(shorter.no_duplicates());
            if let Some(found) = pick(inputs.last()) {
                if earlier.contains(found) {
                    let j = choose|j: int| 0 <= j < shorter.len() && pick(#[trigger] shorter[j]) == Some(found);
                    assert(inputs[j] == inputs[inputs.len() - 1]);
                }
            }
        }
    }
}

/// The keys among `inputs`, in their order.
pub open spec fn keyboard_keys_of(inputs: Seq<GeneralInput>) -> Seq<KeyCode> {
    picked(
        inputs,
        |input: GeneralInput|
            match input {
                GeneralInput::KeyCode(key) => Some(key),
                _ => None,
            },
    )
}

/// The mouse buttons among `inputs`, in their order.
pub open spec fn mouse_buttons_of(inputs: Seq<GeneralInput>) -> Seq<MouseButton> {
    picked(
        inputs,
        |input: GeneralInput|
            match input {
                GeneralInput::MouseButton(button) => Some(button),
                _ => None,
            },
    )
}

/// Picks the keys out of `inputs`; inputs of another kind are passed over.
pub fn filter_keyboard_keys(inputs: &[GeneralInput]) -> (keys: Vec<KeyCode>)
    ensures
        keys@ == keyboard_keys_of(inputs@),
{
    let mut keys: Vec<KeyCode> = Vec::new();
    let mut i: usize = 0;
    while i < inputs.len()
        invariant
            i <= inputs@.len(),
            keys@ == keyboard_keys_of(inputs@.take(i as int)),
        decreases inputs@.len() - i,
    {
        assert(inputs@.take(i + 1).drop_last() =~= inputs@.take(i as int));
        match inputs[i] {
            GeneralInput::KeyCode(key) => {
                keys.push(key);
            },
            _ => {},
        }
        i += 1;
    }
    assert(inputs@.take(i as int) =~= inputs@);
    keys
}

/// Picks the mouse buttons out of `inputs`; inputs of another kind are
/// passed over.
pub fn filter_mouse_buttons(inputs: &[GeneralInput]) -> (buttons: Vec<MouseButton>)
    ensures
        buttons@ == mouse_buttons_of(inputs@),
{
    let mut buttons: Vec<MouseButton> = Vec::new();
    let mut i: usize = 0;
    while i < inputs.len()
        invariant
            i <= inputs@.len(),
            buttons@ == mouse_buttons_of(inputs@.take(i as int)),
        decreases inputs@.len() - i,
    {
        assert(inputs@.take(i + 1).drop_last() =~= inputs@.take(i as int));
        match inputs[i] {
            GeneralInput::MouseButton(button) => {
                buttons.push(button);
            },
            _ => {},
        }
        i += 1;
    }
    assert(inputs@.take(i as int) =~= inputs@);
    buttons
}

} // verus!
