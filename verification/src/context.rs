//! The shared evaluation context: one mutable store from string keys to
//! tagged values, passed by exclusive reference through a whole evaluation
//! and mutated in place by leaf expressions.

use vstd::prelude::*;

verus! {

use vstd::hash_map::StringHashMap;

use crate::emission::emit;

/// An opaque, valueless marker standing for one ingredient. The caller seeds
/// the context with named markers; `MakeSandwich` consumes them.
#[derive(Clone, Copy, PartialEq, Eq, Structural)]
pub struct Ingredient {}

/// The record built by consuming ingredient markers, in order; destroyed
/// again when it is eaten.
pub struct Sandwich {
    pub ingredients: Vec<Ingredient>,
}

impl View for Sandwich {
    type V = Seq<Ingredient>;

    open spec fn view(&self) -> Seq<Ingredient> {
        self.ingredients@
    }
}

impl Sandwich {
    /// An empty sandwich, ready to receive consumed markers.
    pub fn new() -> (sandwich: Self)
        ensures
            sandwich@ == Seq::<Ingredient>::empty(),
    {
        Sandwich { ingredients: Vec::new() }
    }

    /// Eating the sandwich consumes it; the noise is an observable emission.
    pub(crate) fn eat(self) {
        emit("*sandwich eating noises*");
    }
}

impl Clone for Sandwich {
    fn clone(&self) -> (cloned: Self)
        ensures
            cloned@ == self@,
    {
        let mut ingredients: Vec<Ingredient> = Vec::new();
        let mut i: usize = 0;
        while i < self.ingredients.len()
            invariant
                i <= self.ingredients@.len(),
                ingredients@.len() == i,
                forall|j: int| 0 <= j < i ==> ingredients@[j] == self.ingredients@[j],
            decreases self.ingredients@.len() - i,
        {
            let marker = self.ingredients[i];
            ingredients.push(marker);
            i = i + 1;
        }
        proof {
            assert(ingredients@ =~= self.ingredients@);
        }
        Sandwich { ingredients }
    }
}

/// A value held by the context: either an ingredient marker or a sandwich.
/// The set of kinds is closed, so a retrieval is checked by matching on the
/// variant rather than by a runtime downcast.
pub enum Value {
    Ingredient,
    Sandwich(Sandwich),
}

/// The mathematical shape of a context value: a sandwich is seen as the
/// sequence of markers it holds.
pub enum ValueView {
    Ingredient,
    Sandwich(Seq<Ingredient>),
}

impl View for Value {
    type V = ValueView;

    open spec fn view(&self) -> ValueView {
        match self {
            Value::Ingredient => ValueView::Ingredient,
            Value::Sandwich(sandwich) => ValueView::Sandwich(sandwich@),
        }
    }
}

impl Clone for Value {
    fn clone(&self) -> (cloned: Self)
        ensures
            cloned@ == self@,
    {
        match self {
            Value::Ingredient => Value::Ingredient,
            Value::Sandwich(sandwich) => Value::Sandwich(sandwich.clone()),
        }
    }
}

/// The shared mutable store. Its mathematical content is a map from key
/// (a sequence of characters) to the view of the value held under it.
pub struct Context {
    entries: StringHashMap<Value>,
}

impl View for Context {
    type V = Map<Seq<char>, ValueView>;

    closed spec fn view(&self) -> Map<Seq<char>, ValueView> {
        self.entries@.map_values(|value: Value| value@)
    }
}

impl Context {
    /// An empty store.
    pub fn new() -> (context: Self)
        ensures
            context@ == Map::<Seq<char>, ValueView>::empty(),
    {
        let context = Context { entries: StringHashMap::new() };
        proof {
            assert(context@ =~= Map::<Seq<char>, ValueView>::empty());
        }
        context
    }

    /// Put `value` in under `key`, replacing whatever was there.
    pub fn insert(&mut self, key: String, value: Value)
        ensures
            final(self)@ == old(self)@.insert(key@, value@),
    {
        let ghost value_view = value@;
        self.entries.insert(key, value);
        proof {
            assert(self@ =~= old(self)@.insert(key@, value_view));
        }
    }

    /// Take the entry under `key` out, handing its value back; the store is
    /// unchanged when the key is absent.
    pub fn remove(&mut self, key: &str) -> (removed: Option<Value>)
        ensures
            final(self)@ == old(self)@.remove(key@),
            match removed {
                Some(value) => old(self)@.contains_key(key@) && value@ == old(self)@[key@],
                None => !old(self)@.contains_key(key@),
            },
    {
        let taken: Option<Value> = match self.entries.get(key) {
            Some(value) => Some(value.clone()),
            None => None,
        };
        self.entries.remove(key);
        proof {
            assert(self@ =~= old(self)@.remove(key@));
        }
        taken
    }

    /// Look at the entry under `key` without touching it.
    pub fn get<'a>(&'a self, key: &str) -> (found: Option<&'a Value>)
        ensures
            match found {
                Some(value) => self@.contains_key(key@) && value@ == self@[key@],
                None => !self@.contains_key(key@),
            },
    {
        self.entries.get(key)
    }
}

} // verus!
