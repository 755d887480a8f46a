//! Callbacks that are registered for single texts, such as the paths of
//! files.

use crate::tables::{places, places_get, places_insert, places_new};
use ahash::AHashMap;
use vstd::prelude::*;

verus! {

/// At most one callback for each text. A hash table says where the callback
/// of a text lies in a vector.
pub struct TextCallbacks<C> {
    index: AHashMap<String, usize>,
    callbacks: Vec<C>,
}

impl<C> View for TextCallbacks<C> {
    type V = Map<Seq<char>, Option<C>>;

    closed spec fn view(&self) -> Map<Seq<char>, Option<C>> {
        Map::new(
            |text: Seq<char>| places(self.index).dom().contains(text),
            |text: Seq<char>| Some(self.callbacks@[places(self.index)[text] as int]),
        )
    }
}

impl<C> TextCallbacks<C> {
    /// The table and the callbacks fit together.
    pub closed spec fn wf(&self) -> bool {
        &&& forall|text: Seq<char>| #[trigger]
            places(self.index).dom().contains(text) ==> places(self.index)[text] < self.callbacks@.len()
        &&& forall|first: Seq<char>, second: Seq<char>|
            places(self.index).dom().contains(first) && places(self.index).dom().contains(second)
                && first != second ==> #[trigger] places(self.index)[first] != #[trigger] places(
                self.index,
            )[second]
    }

    /// The callback that is registered for the text, if there is one.
    pub open spec fn callback_for(&self, text: Seq<char>) -> Option<C> {
        if self@.dom().contains(text) {
            self@[text]
        } else {
            None
        }
    }

    /// No callback at all.
    pub fn new() -> (registered: Self)
        ensures
            registered.wf(),
            registered@ == Map::<Seq<char>, Option<C>>::empty(),
    {
        let registered = TextCallbacks { index: places_new(), callbacks: Vec::new() };
        assert(registered@ =~= Map::<Seq<char>, Option<C>>::empty());
        registered
    }

    /// The callback that is registered for the text, if there is one.
    pub fn get(&self, text: &String) -> (callback: Option<&C>)
        requires
            self.wf(),
        ensures
            callback == match self.callback_for(text@) {
                Some(found) => Some(&found),
                None => None::<&C>,
            },
    {
        match places_get(&self.index, text) {
            Some(position) => Some(&self.callbacks[position]),
            None => None,
        }
    }

    /// Registers the callback for the text. A callback that was registered
    /// for the text before is replaced and handed back.
    pub fn insert(&mut self, text: String, callback: C) -> (previous: Option<C>)
        requires
            old(self).wf(),
        ensures
            final(self).wf(),
            final(self)@ == old(self)@.insert(text@, Some(callback)),
            previous == old(self).callback_for(text@),
    {
        match places_get(&self.index, &text) {
            Some(position) => {
                let mut replaced = callback;
                std::mem::swap(&mut self.callbacks[position], &mut replaced);
                assert(self@ =~= old(self)@.insert(text@, Some(callback)));
                Some(replaced)
            },
            None => {
                let position = self.callbacks.len();
                self.callbacks.push(callback);
                places_insert(&mut self.index, text, position);
                assert(self@ =~= old(self)@.insert(text@, Some(callback)));
                None
            },
        }
    }
}

} // verus!
