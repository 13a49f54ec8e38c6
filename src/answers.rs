use vstd::prelude::*;
use std::collections::HashMap;
use crate::question::text_of;

verus! {

broadcast use vstd::std_specs::hash::group_hash_axioms;

/// The answers given so far in one session, by question identifier.
pub struct AnswerStore {
    answers: HashMap<u64, String>,
}

/// What is stored for `id`, if anything.
pub open spec fn stored(m: Map<u64, Seq<char>>, id: u64) -> Option<Seq<char>> {
    if m.contains_key(id) {
        Some(m[id])
    } else {
        None
    }
}

impl View for AnswerStore {
    type V = Map<u64, Seq<char>>;

    closed spec fn view(&self) -> Map<u64, Seq<char>> {
        self.answers@.map_values(|s: String| s@)
    }
}

impl AnswerStore {
    /// A store with no answers.
    pub fn new() -> (r: AnswerStore)
        ensures
            r@ == Map::<u64, Seq<char>>::empty(),
    {
        let r = AnswerStore { answers: HashMap::new() };
        assert(r@ =~= Map::<u64, Seq<char>>::empty());
        r
    }

    /// Records `answer` for question `id`, replacing what was there.
    pub fn submit(&mut self, id: u64, answer: String)
        ensures
            final(self)@ == old(self)@.insert(id, answer@),
    {
        let ghost a = answer@;
        self.answers.insert(id, answer);
        assert(self@ =~= old(self)@.insert(id, a));
    }

    /// The answer stored for question `id`, if any.
    pub fn get(&self, id: u64) -> (r: Option<&String>)
        ensures
            text_of(r) == stored(self@, id),
    {
        self.answers.get(&id)
    }
}

} // verus!
