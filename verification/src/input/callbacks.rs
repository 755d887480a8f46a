//! Callbacks that are bound to combinations of inputs and modifier keys.

use crate::definitions::{GenericInput, Modifiers, Symbol};
use crate::tables::{combos, combos_clone, combos_get, combos_insert, combos_new};
use ahash::AHashMap;
use vstd::prelude::*;

verus! {

/// A callback and the combination that it is bound to, as mathematics.
pub struct Bound<C> {
    /// The inputs of the combination.
    pub inputs: Seq<GenericInput>,
    /// The modifier keys of the combination.
    pub modifiers: Modifiers,
    /// What to call when the combination holds.
    pub callback: C,
}

impl<C> Bound<C> {
    /// Whether the binding is for the given combination.
    pub open spec fn is_for(self, inputs: Seq<GenericInput>, modifiers: Modifiers) -> bool {
        self.inputs == inputs && self.modifiers == modifiers
    }
}

/// The position of the first binding for the given combination, or the
/// length of `entries` if there is none.
pub open spec fn position_of<C>(
    entries: Seq<Bound<C>>,
    inputs: Seq<GenericInput>,
    modifiers: Modifiers,
) -> int
    decreases entries.len(),
{
    if entries.len() == 0 {
        0
    } else if entries.first().is_for(inputs, modifiers) {
        0
    } else {
        1 + position_of(entries.drop_first(), inputs, modifiers)
    }
}

/// Binds `callback` to the combination: a combination that already has a
/// callback keeps its place and gets the new one, a new combination goes
/// to the end.
pub open spec fn bind<C>(
    entries: Seq<Bound<C>>,
    inputs: Seq<GenericInput>,
    modifiers: Modifiers,
    callback: C,
) -> Seq<Bound<C>> {
    let position = position_of(entries, inputs, modifiers);
    if position < entries.len() {
        entries.update(position, Bound { inputs, modifiers, callback })
    } else {
        entries.push(Bound { inputs, modifiers, callback })
    }
}

/// Binds `callback` to each input of `inputs` on its own, without
/// modifiers, one input after the other.
pub open spec fn bind_each<C>(entries: Seq<Bound<C>>, inputs: Seq<GenericInput>, callback: C) -> Seq<Bound<C>>
    decreases inputs.len(),
{
    if inputs.len() == 0 {
        entries
    } else {
        bind(
            bind_each(entries, inputs.drop_last(), callback),
            seq![inputs.last()],
            Modifiers { bits: 0 },
            callback,
        )
    }
}

/// The callback that is bound to the combination, if there is one.
pub open spec fn bound_to<C>(
    entries: Seq<Bound<C>>,
    inputs: Seq<GenericInput>,
    modifiers: Modifiers,
) -> Option<C> {
    let position = position_of(entries, inputs, modifiers);
    if position < entries.len() {
        Some(entries[position].callback)
    } else {
        None
    }
}

/// No two bindings are for the same combination.
pub open spec fn distinct_combinations<C>(entries: Seq<Bound<C>>) -> bool {
    forall|i: int, j: int|
        0 <= i < j < entries.len() ==> !(#[trigger] entries[i]).is_for(
            (#[trigger] entries[j]).inputs,
            entries[j].modifiers,
        )
}

/// `position_of` finds the first binding for the combination.
pub proof fn position_of_is_first<C>(
    entries: Seq<Bound<C>>,
    inputs: Seq<GenericInput>,
    modifiers: Modifiers,
)
    ensures
        0 <= position_of(entries, inputs, modifiers) <= entries.len(),
        position_of(entries, inputs, modifiers) < entries.len() ==> entries[position_of(
            entries,
            inputs,
            modifiers,
        )].is_for(inputs, modifiers),
        forall|i: int|
            0 <= i < position_of(entries, inputs, modifiers) ==> !(#[trigger] entries[i]).is_for(
                inputs,
                modifiers,
            ),
    decreases entries.len(),
{
    if entries.len() > 0 && !entries.first().is_for(inputs, modifiers) {
        let rest = entries.drop_first();
        position_of_is_first(rest, inputs, modifiers);
        let found = position_of(rest, inputs, modifiers);
        if found < rest.len() {
            assert(entries[found + 1] == rest[found]);
        }
        assert forall|i: int| 0 <= i < found + 1 implies !(#[trigger] entries[i]).is_for(
            inputs,
            modifiers,
        ) by {
            if i > 0 {
                assert(entries[i] == rest[i - 1]);
            }
        }
    }
}

/// The last callback bound to a combination is the one that the
/// combination has; the callbacks of other combinations stay; and the
/// combinations stay distinct.
pub proof fn last_binding_wins<C>(
    entries: Seq<Bound<C>>,
    inputs: Seq<GenericInput>,
    modifiers: Modifiers,
    callback: C,
    other_inputs: Seq<GenericInput>,
    other_modifiers: Modifiers,
)
    ensures
        bound_to(bind(entries, inputs, modifiers, callback), inputs, modifiers) == Some(callback),
        !(other_inputs == inputs && other_modifiers == modifiers) ==> bound_to(
            bind(entries, inputs, modifiers, callback),
            other_inputs,
            other_modifiers,
        ) == bound_to(entries, other_inputs, other_modifiers),
        distinct_combinations(entries) ==> distinct_combinations(
            bind(entries, inputs, modifiers, callback),
        ),
{
    let after = bind(entries, inputs, modifiers, callback);
    position_of_is_first(entries, inputs, modifiers);
    position_of_is_first(after, inputs, modifiers);
    position_of_is_first(entries, other_inputs, other_modifiers);
    position_of_is_first(after, other_inputs, other_modifiers);
    let at = position_of(entries, inputs, modifiers);
    assert(after[at].is_for(inputs, modifiers));
    assert(position_of(after, inputs, modifiers) == at) by {
        assert forall|i: int| 0 <= i < at implies after[i] == entries[i] by {}
    }
    if !(other_inputs == inputs && other_modifiers == modifiers) {
        let before_other = position_of(entries, other_inputs, other_modifiers);
        let after_other = position_of(after, other_inputs, other_modifiers);
        assert forall|i: int| 0 <= i < entries.len() implies (#[trigger] after[i]).is_for(
            other_inputs,
            other_modifiers,
        ) == entries[i].is_for(other_inputs, other_modifiers) by {}
        if before_other < entries.len() {
            assert(after[before_other].is_for(other_inputs, other_modifiers));
            assert(after_other == before_other);
        } else {
            if after_other < after.len() {
                assert(after[after_other].is_for(other_inputs, other_modifiers));
                assert(false);
            }
        }
    }
}

/// A callback together with the combination that it is bound to.
pub struct Binding<C> {
    inputs: Vec<GenericInput>,
    modifiers: Modifiers,
    callback: C,
}

impl<C> View for Binding<C> {
    type V = Bound<C>;

    closed spec fn view(&self) -> Bound<C> {
        Bound { inputs: self.inputs@, modifiers: self.modifiers, callback: self.callback }
    }
}

impl<C> Binding<C> {
    /// The inputs of the combination.
    pub fn inputs(&self) -> (inputs: &[GenericInput])
        ensures
            inputs@ == self@.inputs,
    {
        self.inputs.as_slice()
    }

    /// The modifier keys of the combination.
    pub fn modifiers(&self) -> (modifiers: Modifiers)
        ensures
            modifiers == self@.modifiers,
    {
        self.modifiers
    }

    /// What to call when the combination holds.
    pub fn callback(&self) -> (callback: &C)
        ensures
            *callback == self@.callback,
    {
        &self.callback
    }
}

/// The list of numbers under which a combination is looked up: the codes of
/// its inputs, in their order, and then the bits of its modifier keys.
pub open spec fn combination_code(inputs: Seq<GenericInput>, modifiers: Modifiers) -> Seq<u64> {
    inputs.map_values(|input: GenericInput| input.code()).push(modifiers.bits as u64)
}

/// Different combinations are looked up under different lists.
pub proof fn combination_codes_are_distinct(
    inputs: Seq<GenericInput>,
    modifiers: Modifiers,
    other_inputs: Seq<GenericInput>,
    other_modifiers: Modifiers,
)
    requires
        combination_code(inputs, modifiers) == combination_code(other_inputs, other_modifiers),
    ensures
        inputs == other_inputs,
        modifiers == other_modifiers,
{
    let code = combination_code(inputs, modifiers);
    let other = combination_code(other_inputs, other_modifiers);
    assert(code.len() == inputs.len() + 1);
    assert(other.len() == other_inputs.len() + 1);
    assert(code[inputs.len() as int] == modifiers.bits as u64);
    assert(other[other_inputs.len() as int] == other_modifiers.bits as u64);
    assert forall|i: int| 0 <= i < inputs.len() implies inputs[i] == other_inputs[i] by {
        assert(code[i] == inputs[i].code());
        assert(other[i] == other_inputs[i].code());
        GenericInput::code_is_injective(inputs[i], other_inputs[i]);
    }
    assert(inputs =~= other_inputs);
}

/// Computes the list of numbers under which a combination is looked up.
pub fn combination_key(inputs: &[GenericInput], modifiers: Modifiers) -> (key: Vec<u64>)
    ensures
        key@ == combination_code(inputs@, modifiers),
{
    let mut key: Vec<u64> = Vec::new();
    let mut i: usize = 0;
    while i < inputs.len()
        invariant
            i <= inputs@.len(),
            key@ == inputs@.take(i as int).map_values(|input: GenericInput| input.code()),
        decreases inputs@.len() - i,
    {
        key.push(inputs[i].to_code());
        assert(key@ =~= inputs@.take(i + 1).map_values(|input: GenericInput| input.code()));
        i += 1;
    }
    assert(inputs@.take(i as int) =~= inputs@);
    key.push(modifiers.bits as u64);
    key
}

/// Callbacks bound to combinations, in the order in which the combinations
/// were first bound. A hash table says where the binding of a combination
/// lies.
pub struct Bindings<C> {
    index: AHashMap<Vec<u64>, usize>,
    entries: Vec<Binding<C>>,
}

impl<C> View for Bindings<C> {
    type V = Seq<Bound<C>>;

    closed spec fn view(&self) -> Seq<Bound<C>> {
        self.entries@.map_values(|binding: Binding<C>| binding@)
    }
}

impl<C> Bindings<C> {
    /// The table and the bindings fit together: the table knows every
    /// binding by its combination, and nothing else.
    pub closed spec fn wf(&self) -> bool {
        &&& forall|i: int|
            0 <= i < self@.len() ==> combos(self.index).dom().contains(
                combination_code((#[trigger] self@[i]).inputs, self@[i].modifiers),
            ) && combos(self.index)[combination_code(self@[i].inputs, self@[i].modifiers)] == i
        &&& forall|key: Seq<u64>| #[trigger]
            combos(self.index).dom().contains(key) ==> combos(self.index)[key] < self@.len()
                && combination_code(
                self@[combos(self.index)[key] as int].inputs,
                self@[combos(self.index)[key] as int].modifiers,
            ) == key
    }

    /// Where the bindings fit the table, no two bindings are for the same
    /// combination.
    pub proof fn wf_means_distinct(&self)
        requires
            self.wf(),
        ensures
            distinct_combinations(self@),
    {
    }

    /// No binding at all.
    pub fn new() -> (bindings: Self)
        ensures
            bindings.wf(),
            bindings@ == Seq::<Bound<C>>::empty(),
    {
        let bindings = Bindings { index: combos_new(), entries: Vec::new() };
        assert(bindings@ =~= Seq::<Bound<C>>::empty());
        bindings
    }

    /// The number of combinations that have a callback.
    pub fn len(&self) -> (count: usize)
        ensures
            count == self@.len(),
    {
        self.entries.len()
    }

    /// The binding at a position.
    pub fn entry(&self, position: usize) -> (binding: &Binding<C>)
        requires
            position < self@.len(),
        ensures
            binding@ == self@[position as int],
    {
        &self.entries[position]
    }

    /// The position of the binding for the combination, or the number of
    /// bindings if the combination has none.
    pub fn find(&self, inputs: &[GenericInput], modifiers: Modifiers) -> (position: usize)
        requires
            self.wf(),
        ensures
            position == position_of(self@, inputs@, modifiers),
    {
        let key = combination_key(inputs, modifiers);
        let found = combos_get(&self.index, &key);
        proof {
            position_of_is_first(self@, inputs@, modifiers);
            let first = position_of(self@, inputs@, modifiers);
            if first < self@.len() {
                assert(self@[first].is_for(inputs@, modifiers));
                assert(combos(self.index).dom().contains(key@));
            }
            if combos(self.index).dom().contains(key@) {
                let place = combos(self.index)[key@] as int;
                combination_codes_are_distinct(
                    self@[place].inputs,
                    self@[place].modifiers,
                    inputs@,
                    modifiers,
                );
                assert(self@[place].is_for(inputs@, modifiers));
                assert(first <= place);
            }
        }
        match found {
            Some(position) => position,
            None => self.entries.len(),
        }
    }

    /// The callback of the combination, if it has one.
    pub fn get(&self, inputs: &[GenericInput], modifiers: Modifiers) -> (callback: Option<&C>)
        requires
            self.wf(),
        ensures
            callback == match bound_to(self@, inputs@, modifiers) {
                Some(found) => Some(&found),
                None => None::<&C>,
            },
    {
        let position = self.find(inputs, modifiers);
        if position < self.entries.len() {
            assert(self.entries@[position as int]@ == self@[position as int]);
            Some(&self.entries[position].callback)
        } else {
            None
        }
    }

    /// Binds `callback` to the combination. A combination that already has
    /// a callback keeps its place and gets the new callback; the old one is
    /// handed back. A new combination goes to the end.
    pub fn insert(&mut self, inputs: Vec<GenericInput>, modifiers: Modifiers, callback: C) -> (previous: Option<C>)
        requires
            old(self).wf(),
        ensures
            final(self).wf(),
            final(self)@ == bind(old(self)@, inputs@, modifiers, callback),
            previous == bound_to(old(self)@, inputs@, modifiers),
    {
        let key = combination_key(inputs.as_slice(), modifiers);
        let position = self.find(inputs.as_slice(), modifiers);
        proof {
            position_of_is_first(self@, inputs@, modifiers);
        }
        let binding = Binding { inputs, modifiers, callback };
        if position < self.entries.len() {
            let mut replaced = binding;
            assert(self.entries@[position as int]@ == self@[position as int]);
            std::mem::swap(&mut self.entries[position], &mut replaced);
            proof {
                assert(self@ =~= old(self)@.update(position as int, binding@));
            }
            Some(replaced.callback)
        } else {
            let place = self.entries.len();
            self.entries.push(binding);
            combos_insert(&mut self.index, key, place);
            proof {
                assert(self@ =~= old(self)@.push(binding@));
                assert forall|i: int| 0 <= i < old(self)@.len() implies combination_code(
                    (#[trigger] old(self)@[i]).inputs,
                    old(self)@[i].modifiers,
                ) != key@ by {
                    if combination_code(old(self)@[i].inputs, old(self)@[i].modifiers) == key@ {
                        combination_codes_are_distinct(
                            old(self)@[i].inputs,
                            old(self)@[i].modifiers,
                            inputs@,
                            modifiers,
                        );
                    }
                }
            }
            None
        }
    }
}

impl<C: Copy> Clone for Binding<C> {
    fn clone(&self) -> (copy: Self)
        ensures
            copy@ == self@,
    {
        let mut inputs: Vec<GenericInput> = Vec::new();
        let mut i: usize = 0;
        while i < self.inputs.len()
            invariant
                i <= self.inputs@.len(),
                inputs@ == self.inputs@.take(i as int),
            decreases self.inputs@.len() - i,
        {
            inputs.push(self.inputs[i]);
            assert(inputs@ =~= self.inputs@.take(i + 1));
            i += 1;
        }
        assert(self.inputs@.take(i as int) =~= self.inputs@);
        Binding { inputs, modifiers: self.modifiers, callback: self.callback }
    }
}

impl<C: Copy> Clone for Bindings<C> {
    fn clone(&self) -> (copy: Self)
        ensures
            copy@ == self@,
            self.wf() ==> copy.wf(),
    {
        let mut entries: Vec<Binding<C>> = Vec::new();
        let mut i: usize = 0;
        while i < self.entries.len()
            invariant
                i <= self.entries@.len(),
                entries@.len() == i,
                forall|j: int| 0 <= j < i ==> (#[trigger] entries@[j])@ == self.entries@[j]@,
            decreases self.entries@.len() - i,
        {
            entries.push(self.entries[i].clone());
            i += 1;
        }
        let copy = Bindings { index: combos_clone(&self.index), entries };
        assert(copy@ =~= self@);
        copy
    }
}

impl<C: Copy> Clone for InputCallbacks<C> {
    fn clone(&self) -> (copy: Self)
        ensures
            copy.pressed@ == self.pressed@,
            copy.just_pressed@ == self.just_pressed@,
            copy.just_released@ == self.just_released@,
            self.wf() ==> copy.wf(),
    {
        InputCallbacks {
            pressed: self.pressed.clone(),
            just_pressed: self.just_pressed.clone(),
            just_released: self.just_released.clone(),
        }
    }
}

/// The callbacks of the bindings whose combination satisfies `holds`, in
/// the order of the bindings.
pub open spec fn fired<C>(
    entries: Seq<Bound<C>>,
    holds: spec_fn(Seq<GenericInput>, Modifiers) -> bool,
) -> Seq<C>
    decreases entries.len(),
{
    if entries.len() == 0 {
        Seq::empty()
    } else {
        let earlier = fired(entries.drop_last(), holds);
        if holds(entries.last().inputs, entries.last().modifiers) {
            earlier.push(entries.last().callback)
        } else {
            earlier
        }
    }
}

/// The callbacks that are bound to input combinations.
pub struct InputCallbacks<C> {
    /// Called at every step while the combination is held.
    pub pressed: Bindings<C>,
    /// Called at the step in which the combination went down.
    pub just_pressed: Bindings<C>,
    /// Called at the step in which the combination went up.
    pub just_released: Bindings<C>,
}

impl<C> Default for InputCallbacks<C> {
    fn default() -> (callbacks: Self)
        ensures
            callbacks.wf(),
            callbacks.pressed@ == Seq::<Bound<C>>::empty(),
            callbacks.just_pressed@ == Seq::<Bound<C>>::empty(),
            callbacks.just_released@ == Seq::<Bound<C>>::empty(),
    {
        InputCallbacks {
            pressed: Bindings::new(),
            just_pressed: Bindings::new(),
            just_released: Bindings::new(),
        }
    }
}

/// Binds `callback` to each input of `inputs` on its own, without modifiers.
fn insert_each<C: Copy>(bindings: &mut Bindings<C>, inputs: &[GenericInput], callback: C)
    requires
        old(bindings).wf(),
    ensures
        final(bindings).wf(),
        final(bindings)@ == bind_each(old(bindings)@, inputs@, callback),
{
    let mut i: usize = 0;
    while i < inputs.len()
        invariant
            i <= inputs@.len(),
            bindings.wf(),
            bindings@ == bind_each(old(bindings)@, inputs@.take(i as int), callback),
        decreases inputs@.len() - i,
    {
        assert(inputs@.take(i + 1).drop_last() =~= inputs@.take(i as int));
        let mut single: Vec<GenericInput> = Vec::new();
        single.push(inputs[i]);
        assert(single@ =~= seq![inputs@[i as int]]);
        bindings.insert(single, Modifiers::empty(), callback);
        i += 1;
    }
    assert(inputs@.take(i as int) =~= inputs@);
}

impl<C> InputCallbacks<C> {
    /// The three lists of bindings fit their tables.
    pub open spec fn wf(&self) -> bool {
        self.pressed.wf() && self.just_pressed.wf() && self.just_released.wf()
    }

    /// The callback is called at every step at which `input` is held.
    pub fn pressed(&mut self, input: GenericInput, callback: C)
        requires
            old(self).wf(),
        ensures
            final(self).wf(),
            final(self).pressed@ == bind(old(self).pressed@, seq![input], Modifiers { bits: 0 }, callback),
            final(self).just_pressed == old(self).just_pressed,
            final(self).just_released == old(self).just_released,
    {
        let mut single: Vec<GenericInput> = Vec::new();
        single.push(input);
        assert(single@ =~= seq![input]);
        self.pressed.insert(single, Modifiers::empty(), callback);
    }

    /// The callback is called at the step at which `input` went down.
    pub fn just_pressed(&mut self, input: GenericInput, callback: C)
        requires
            old(self).wf(),
        ensures
            final(self).wf(),
            final(self).just_pressed@ == bind(
                old(self).just_pressed@,
                seq![input],
                Modifiers { bits: 0 },
                callback,
            ),
            final(self).pressed == old(self).pressed,
            final(self).just_released == old(self).just_released,
    {
        let mut single: Vec<GenericInput> = Vec::new();
        single.push(input);
        assert(single@ =~= seq![input]);
        self.just_pressed.insert(single, Modifiers::empty(), callback);
    }

    /// The callback is called at the step at which `input` went up.
    pub fn just_released(&mut self, input: GenericInput, callback: C)
        requires
            old(self).wf(),
        ensures
            final(self).wf(),
            final(self).just_released@ == bind(
                old(self).just_released@,
                seq![input],
                Modifiers { bits: 0 },
                callback,
            ),
            final(self).pressed == old(self).pressed,
            final(self).just_pressed == old(self).just_pressed,
    {
        let mut single: Vec<GenericInput> = Vec::new();
        single.push(input);
        assert(single@ =~= seq![input]);
        self.just_released.insert(single, Modifiers::empty(), callback);
    }

    /// The callback is called at every step at which all of `inputs` are
    /// held while all of `modifiers` are down.
    pub fn pressed_combination(&mut self, inputs: Vec<GenericInput>, modifiers: Modifiers, callback: C)
        requires
            old(self).wf(),
        ensures
            final(self).wf(),
            final(self).pressed@ == bind(old(self).pressed@, inputs@, modifiers, callback),
            final(self).just_pressed == old(self).just_pressed,
            final(self).just_released == old(self).just_released,
    {
        self.pressed.insert(inputs, modifiers, callback);
    }

    /// The callback is called at the step at which all of `inputs` were just
    /// pressed while all of `modifiers` are down.
    pub fn just_pressed_combination(&mut self, inputs: Vec<GenericInput>, modifiers: Modifiers, callback: C)
        requires
            old(self).wf(),
        ensures
            final(self).wf(),
            final(self).just_pressed@ == bind(old(self).just_pressed@, inputs@, modifiers, callback),
            final(self).pressed == old(self).pressed,
            final(self).just_released == old(self).just_released,
    {
        self.just_pressed.insert(inputs, modifiers, callback);
    }

    /// The callback is called at the step at which all of `inputs` were just
    /// released while all of `modifiers` are down.
    pub fn just_released_combination(&mut self, inputs: Vec<GenericInput>, modifiers: Modifiers, callback: C)
        requires
            old(self).wf(),
        ensures
            final(self).wf(),
            final(self).just_released@ == bind(old(self).just_released@, inputs@, modifiers, callback),
            final(self).pressed == old(self).pressed,
            final(self).just_pressed == old(self).just_pressed,
    {
        self.just_released.insert(inputs, modifiers, callback);
    }

    /// The callback is called at every step at which all of `inputs` are
    /// held.
    pub fn pressed_all(&mut self, inputs: Vec<GenericInput>, callback: C)
        requires
            old(self).wf(),
        ensures
            final(self).wf(),
            final(self).pressed@ == bind(old(self).pressed@, inputs@, Modifiers { bits: 0 }, callback),
            final(self).just_pressed == old(self).just_pressed,
            final(self).just_released == old(self).just_released,
    {
        self.pressed.insert(inputs, Modifiers::empty(), callback);
    }

    /// The callback is called at the step at which all of `inputs` were just
    /// pressed.
    pub fn just_pressed_all(&mut self, inputs: Vec<GenericInput>, callback: C)
        requires
            old(self).wf(),
        ensures
            final(self).wf(),
            final(self).just_pressed@ == bind(
                old(self).just_pressed@,
                inputs@,
                Modifiers { bits: 0 },
                callback,
            ),
            final(self).pressed == old(self).pressed,
            final(self).just_released == old(self).just_released,
    {
        self.just_pressed.insert(inputs, Modifiers::empty(), callback);
    }
}

impl<C: Copy> InputCallbacks<C> {
    /// The callback is called at every step at which one of `inputs` is
    /// held, once for each input that is.
    pub fn pressed_any(&mut self, inputs: &[GenericInput], callback: C)
        requires
            old(self).wf(),
        ensures
            final(self).wf(),
            final(self).pressed@ == bind_each(old(self).pressed@, inputs@, callback),
            final(self).just_pressed == old(self).just_pressed,
            final(self).just_released == old(self).just_released,
    {
        insert_each(&mut self.pressed, inputs, callback);
    }

    /// The callback is called at the step at which one of `inputs` went
    /// down, once for each input that did.
    pub fn just_pressed_any(&mut self, inputs: &[GenericInput], callback: C)
        requires
            old(self).wf(),
        ensures
            final(self).wf(),
            final(self).just_pressed@ == bind_each(old(self).just_pressed@, inputs@, callback),
            final(self).pressed == old(self).pressed,
            final(self).just_released == old(self).just_released,
    {
        insert_each(&mut self.just_pressed, inputs, callback);
    }

    /// The callback is called at the step at which one of `inputs` went up,
    /// once for each input that did.
    pub fn just_released_any(&mut self, inputs: &[GenericInput], callback: C)
        requires
            old(self).wf(),
        ensures
            final(self).wf(),
            final(self).just_released@ == bind_each(old(self).just_released@, inputs@, callback),
            final(self).pressed == old(self).pressed,
            final(self).just_pressed == old(self).just_pressed,
    {
        insert_each(&mut self.just_released, inputs, callback);
    }

    /// The callback is bound to each of `inputs` on its own: it is called at
    /// the step at which one of them went up, once for each input that did.
    pub fn just_released_all(&mut self, inputs: &[GenericInput], callback: C)
        requires
            old(self).wf(),
        ensures
            final(self).wf(),
            final(self).just_released@ == bind_each(old(self).just_released@, inputs@, callback),
            final(self).pressed == old(self).pressed,
            final(self).just_pressed == old(self).just_pressed,
    {
        insert_each(&mut self.just_released, inputs, callback);
    }
}

} // verus!
