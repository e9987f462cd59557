//! Sets of texts.

use crate::table::{Table, Value};
use vstd::prelude::*;

verus! {

/// The value of a table that only tells whether a key is there.
#[derive(Debug, Clone, Copy, PartialEq, Eq, Structural)]
pub struct Present;

impl View for Present {
    type V = Present;

    open spec fn view(&self) -> Present {
        *self
    }
}

impl Value for Present {
    fn copied(&self) -> (present: Present) {
        *self
    }
}

/// A set of texts.
#[derive(Debug)]
pub struct TextSet {
    texts: Table<String, Present>,
}

impl View for TextSet {
    type V = Set<Seq<char>>;

    closed spec fn view(&self) -> Set<Seq<char>> {
        self.texts@.dom()
    }
}

impl TextSet {
    /// The set without texts.
    pub fn new() -> (set: TextSet)
        ensures
            set@ == Set::<Seq<char>>::empty(),
    {
        let set = TextSet { texts: Table::new() };
        assert(set@ =~= Set::<Seq<char>>::empty());
        set
    }

    /// Whether a text is in the set.
    pub fn contains(&self, text: &String) -> (found: bool)
        ensures
            found == self@.contains(text@),
    {
        self.texts.contains_key(text)
    }

    /// Puts a text into the set.
    pub fn insert(&mut self, text: String)
        ensures
            final(self)@ == old(self)@.insert(text@),
    {
        let ghost before = self@;
        self.texts.insert(text, Present);
        assert(self@ =~= before.insert(text@));
    }

    /// Puts every text of a list into the set.
    pub fn extend(&mut self, texts: Vec<String>)
        ensures
            final(self)@ == old(self)@.union(texts_of(texts@)),
    {
        let ghost before = self@;
        let mut i: usize = 0;
        assert(before.union(texts_of(texts@.take(0))) =~= before);
        while i < texts.len()
            invariant
                i <= texts@.len(),
                self@ == before.union(texts_of(texts@.take(i as int))),
            decreases texts@.len() - i,
        {
            let ghost done = texts@.take(i as int);
            let ghost more = texts@.take(i + 1);
            self.insert(texts[i].clone());
            proof {
                assert(more =~= done.push(texts@[i as int]));
                assert forall|t: Seq<char>| #[trigger]
                    texts_of(more).contains(t) <==> texts_of(done).contains(t) || t
                        == texts@[i as int]@ by {
                    if texts_of(done).contains(t) {
                        let j = choose|j: int| 0 <= j < done.len() && #[trigger] done[j]@ == t;
                        assert(more[j]@ == t);
                    }
                    if t == texts@[i as int]@ {
                        assert(more[i as int]@ == t);
                    }
                }
                assert(self@ =~= before.union(texts_of(more)));
            }
            i += 1;
        }
        assert(texts@.take(i as int) =~= texts@);
    }
}

/// The texts of a list.
pub open spec fn texts_of(texts: Seq<String>) -> Set<Seq<char>> {
    Set::new(|t: Seq<char>| exists|i: int| 0 <= i < texts.len() && #[trigger] texts[i]@ == t)
}

/// A text is among those of a list exactly where it stands at some place of it.
pub proof fn texts_of_a_list_are_its_entries(texts: Seq<String>, text: Seq<char>, i: int)
    ensures
        0 <= i < texts.len() ==> texts_of(texts).contains(texts[i]@),
        (forall|j: int| 0 <= j < texts.len() ==> (#[trigger] texts[j])@ != text) ==> !texts_of(
            texts,
        ).contains(text),
{
    if 0 <= i < texts.len() {
        assert(texts[i]@ == texts[i]@);
    }
}

} // verus!
