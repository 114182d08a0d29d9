//! Keyword tables: each configured keyword with its lowercase form.

use vstd::prelude::*;
use crate::text::{lowercase, to_lowercase};

verus! {

/// Maps each keyword it was built from to the keyword's lowercase form.
/// Built once and never changed.
pub struct KeywordTable {
    keys: Vec<String>,
    lowered: Vec<String>,
}

impl View for KeywordTable {
    type V = Map<Seq<char>, Seq<char>>;

    /// The table as a map from each keyword to its lowercase form.
    open spec fn view(&self) -> Map<Seq<char>, Seq<char>> {
        Map::new(|k: Seq<char>| self.domain().contains(k), |k: Seq<char>| lowercase(k))
    }
}

impl KeywordTable {
    #[verifier::type_invariant]
    spec fn well_formed(&self) -> bool {
        &&& self.keys.len() == self.lowered.len()
        &&& forall|i: int|
            0 <= i < self.keys.len() ==> (#[trigger] self.lowered[i])@ == lowercase(self.keys[i]@)
    }

    /// The keywords that the table holds.
    pub closed spec fn domain(&self) -> Set<Seq<char>> {
        Set::new(
            |k: Seq<char>| exists|i: int| 0 <= i < self.keys.len() && (#[trigger] self.keys[i])@ == k,
        )
    }

    /// Builds the table of the given keywords.
    pub fn new(keywords: &[String]) -> (table: KeywordTable)
        ensures
            forall|k: Seq<char>|
                table.domain().contains(k) <==> exists|i: int|
                    0 <= i < keywords.len() && (#[trigger] keywords[i])@ == k,
    {
        let mut keys: Vec<String> = Vec::new();
        let mut lowered: Vec<String> = Vec::new();
        let mut i: usize = 0;
        while i < keywords.len()
            invariant
                i <= keywords.len(),
                keys.len() == i,
                lowered.len() == i,
                forall|j: int| 0 <= j < i ==> (#[trigger] keys[j])@ == keywords[j]@,
                forall|j: int| 0 <= j < i ==> (#[trigger] lowered[j])@ == lowercase(keywords[j]@),
            decreases keywords.len() - i,
        {
            let keyword = &keywords[i];
            keys.push(keyword.clone());
            lowered.push(to_lowercase(keyword.as_str()));
            i += 1;
        }
        let table = KeywordTable { keys, lowered };
        proof {
            assert forall|k: Seq<char>|
                table.domain().contains(k) <==> exists|i: int|
                    0 <= i < keywords.len() && (#[trigger] keywords[i])@ == k by {
                if table.domain().contains(k) {
                    let j = choose|j: int| 0 <= j < table.keys.len() && (#[trigger] table.keys[j])@ == k;
                    assert(keywords[j]@ == k);
                }
                if exists|i: int| 0 <= i < keywords.len() && (#[trigger] keywords[i])@ == k {
                    let j = choose|j: int| 0 <= j < keywords.len() && (#[trigger] keywords[j])@ == k;
                    assert(table.keys[j]@ == k);
                }
            }
        }
        table
    }

    /// The lowercase form of a keyword of the table.
    pub fn get(&self, keyword: &String) -> (low: &String)
        requires
            self.domain().contains(keyword@),
        ensures
            low@ == lowercase(keyword@),
            low@ == self@[keyword@],
    {
        proof {
            use_type_invariant(self);
        }
        let ghost at = choose|j: int| 0 <= j < self.keys.len() && (#[trigger] self.keys[j])@ == keyword@;
        let mut i: usize = 0;
        loop
            invariant
                i <= at < self.keys.len(),
                self.keys[at]@ == keyword@,
                self.keys.len() == self.lowered.len(),
                forall|j: int|
                    0 <= j < self.keys.len() ==> (#[trigger] self.lowered[j])@ == lowercase(
                        self.keys[j]@,
                    ),
            decreases self.keys.len() - i,
        {
            if self.keys[i] == *keyword {
                return &self.lowered[i];
            }
            i += 1;
        }
    }
}

} // verus!
