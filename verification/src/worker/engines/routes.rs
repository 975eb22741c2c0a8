//! A table from model names to engine addresses, with the names kept in
//! ascending order beside it.

use crate::text::{
    comes_before, lemma_lex_total, lemma_lex_transitive, lex_less,
};
use vstd::hash_map::StringHashMap;
use vstd::prelude::*;

verus! {

/// Whether each name comes before every name that follows it.
pub open spec fn ascending(names: Seq<String>) -> bool {
    forall|i: int, j: int|
        0 <= i < j < names.len() ==> lex_less((#[trigger] names[i])@, (#[trigger] names[j])@)
}

/// Whether `m` is one of `names`.
pub open spec fn has_name(names: Seq<String>, m: Seq<char>) -> bool {
    exists|i: int| 0 <= i < names.len() && (#[trigger] names[i])@ == m
}

/// A place at which `m` stands in `names`.
pub open spec fn place_of(names: Seq<String>, m: Seq<char>) -> int {
    choose|i: int| 0 <= i < names.len() && (#[trigger] names[i])@ == m
}

/// The characters of each name.
pub open spec fn texts(names: Seq<String>) -> Seq<Seq<char>> {
    names.map_values(|s: String| s@)
}

/// A table from names to addresses.
pub struct RouteTable {
    urls: StringHashMap<String>,
    names: Vec<String>,
}

impl View for RouteTable {
    type V = Map<Seq<char>, Seq<char>>;

    closed spec fn view(&self) -> Map<Seq<char>, Seq<char>> {
        Map::new(|m: Seq<char>| self.urls@.contains_key(m), |m: Seq<char>| self.urls@[m]@)
    }
}

impl RouteTable {
    #[verifier::type_invariant]
    spec fn inv(self) -> bool {
        &&& ascending(self.names@)
        &&& forall|m: Seq<char>| #[trigger] self.urls@.contains_key(m) <==> has_name(self.names@, m)
    }

    /// The names of the table, in ascending order.
    pub closed spec fn names(self) -> Seq<Seq<char>> {
        texts(self.names@)
    }

    /// The names are those that the table has an address for, each once, in
    /// ascending order.
    pub open spec fn names_fit(names: Seq<Seq<char>>, routes: Map<Seq<char>, Seq<char>>) -> bool {
        &&& forall|i: int, j: int|
            0 <= i < j < names.len() ==> lex_less(#[trigger] names[i], #[trigger] names[j])
        &&& forall|m: Seq<char>| routes.contains_key(m) <==> names.contains(m)
    }

    /// A table without names.
    pub fn new() -> (t: RouteTable)
        ensures
            t@ == Map::<Seq<char>, Seq<char>>::empty(),
            t.names() == Seq::<Seq<char>>::empty(),
    {
        let t = RouteTable { urls: StringHashMap::new(), names: Vec::new() };
        assert(t@ =~= Map::<Seq<char>, Seq<char>>::empty());
        assert(t.names() =~= Seq::<Seq<char>>::empty());
        t
    }

    proof fn lemma_names_fit(self)
        requires
            self.inv(),
        ensures
            Self::names_fit(self.names(), self@),
    {
        let names = self.names();
        assert forall|m: Seq<char>| self@.contains_key(m) <==> names.contains(m) by {
            if self@.contains_key(m) {
                assert(has_name(self.names@, m));
                let i = place_of(self.names@, m);
                assert(names[i] == m);
            }
            if names.contains(m) {
                let i = choose|i: int| 0 <= i < names.len() && names[i] == m;
                assert(self.names@[i]@ == m);
                assert(has_name(self.names@, m));
            }
        }
        assert forall|i: int, j: int| 0 <= i < j < names.len() implies lex_less(
            #[trigger] names[i],
            #[trigger] names[j],
        ) by {
            assert(lex_less(self.names@[i]@, self.names@[j]@));
        }
    }

    /// How many names the table has.
    pub fn len(&self) -> (n: usize)
        ensures
            n == self.names().len(),
    {
        self.names.len()
    }

    /// The names, in ascending order.
    pub fn name_list(&self) -> (r: &[String])
        ensures
            texts(r@) == self.names(),
            Self::names_fit(self.names(), self@),
    {
        proof {
            use_type_invariant(self);
            self.lemma_names_fit();
        }
        self.names.as_slice()
    }

    /// The address for `name`, where the table has one.
    pub fn get(&self, name: &str) -> (r: Option<&String>)
        ensures
            match r {
                Some(url) => self@.contains_key(name@) && url@ == self@[name@],
                None => !self@.contains_key(name@),
            },
    {
        self.urls.get(name)
    }

    /// The table in which `name` has the address `url`, unless it had an
    /// address already: then the table is returned as it was.
    pub fn with_route(self, name: &str, url: &str) -> (t: RouteTable)
        ensures
            t@ == if self@.contains_key(name@) {
                self@
            } else {
                self@.insert(name@, url@)
            },
    {
        proof {
            use_type_invariant(&self);
        }
        let ghost before_map = self@;
        let RouteTable { urls, names } = self;
        let mut urls = urls;
        let mut names = names;
        if urls.contains_key(name) {
            return RouteTable { urls, names };
        }
        let ghost before = names@;
        let ghost before_urls = urls@;
        assert(!has_name(before, name@));
        let n: usize = names.len();
        let mut i: usize = 0;
        while i < n && comes_before(names[i].as_str(), name)
            invariant
                i <= n == names@.len(),
                names@ == before,
                forall|j: int| 0 <= j < i ==> lex_less((#[trigger] names@[j])@, name@),
            decreases n - i,
        {
            i += 1;
        }
        proof {
            // the name is new, and stands before all names from place i on
            assert forall|j: int| i <= j < n implies lex_less(name@, (#[trigger] before[j])@) by {
                lemma_lex_total(before[i as int]@, name@);
                assert(before[i as int]@ != name@);
                if j > i {
                    lemma_lex_transitive(name@, before[i as int]@, before[j]@);
                }
            }
        }
        urls.insert(name.to_owned(), url.to_owned());
        names.insert(i, name.to_owned());
        proof {
            let after = names@;
            assert(ascending(after)) by {
                assert forall|a: int, b: int| 0 <= a < b < after.len() implies lex_less(
                    (#[trigger] after[a])@,
                    (#[trigger] after[b])@,
                ) by {
                    if b < i {
                        assert(after[a] == before[a] && after[b] == before[b]);
                    } else if b == i {
                        assert(after[a] == before[a]);
                    } else if a < i {
                        assert(after[a] == before[a] && after[b] == before[b - 1]);
                    } else if a == i {
                        assert(after[b] == before[b - 1]);
                    } else {
                        assert(after[a] == before[a - 1] && after[b] == before[b - 1]);
                    }
                }
            }
            assert forall|m: Seq<char>| #[trigger] urls@.contains_key(m) <==> has_name(after, m) by {
                if has_name(after, m) {
                    let p = place_of(after, m);
                    if p < i {
                        assert(before[p]@ == m);
                    } else if p > i {
                        assert(before[p - 1]@ == m);
                    }
                }
                if before_urls.contains_key(m) {
                    assert(has_name(before, m));
                    let p = place_of(before, m);
                    if p < i {
                        assert(after[p]@ == m);
                    } else {
                        assert(after[p + 1]@ == m);
                    }
                }
                if m == name@ {
                    assert(after[i as int]@ == m);
                }
            }
        }
        let t = RouteTable { urls, names };
        assert(t@ =~= before_map.insert(name@, url@));
        t
    }
}

} // verus!
