//! The set of unique hostnames that one scan works on.

use crate::hostname::Subdomain;
use vstd::prelude::*;

verus! {

/// The names of `hosts`, in the same order.
pub open spec fn names_of(hosts: Seq<Subdomain>) -> Seq<Seq<char>> {
    hosts.map_values(|host: Subdomain| host@)
}

/// The views of raw hostname strings, in the same order.
pub open spec fn raw_names(raw: Seq<String>) -> Seq<Seq<char>> {
    raw.map_values(|name: String| name@)
}

/// How many different names `names` holds: equal names count once, and names
/// are equal only if they agree character for character.
pub open spec fn distinct_count(names: Seq<Seq<char>>) -> nat {
    names.to_set().len()
}

/// The names of `names` in the order of their first occurrence, each once.
pub open spec fn first_occurrences(names: Seq<Seq<char>>) -> Seq<Seq<char>>
    decreases names.len(),
{
    if names.len() == 0 {
        Seq::empty()
    } else {
        let front = first_occurrences(names.drop_last());
        if front.contains(names.last()) {
            front
        } else {
            front.push(names.last())
        }
    }
}

/// `first_occurrences` keeps every name of its input, and none twice.
pub proof fn lemma_first_occurrences(names: Seq<Seq<char>>)
    ensures
        first_occurrences(names).no_duplicates(),
        first_occurrences(names).to_set() == names.to_set(),
        first_occurrences(names).len() == distinct_count(names),
    decreases names.len(),
{
    let kept = first_occurrences(names);
    if names.len() == 0 {
        assert(kept.to_set() =~= names.to_set());
    } else {
        let front = first_occurrences(names.drop_last());
        lemma_first_occurrences(names.drop_last());
        assert forall|name: Seq<char>| kept.to_set().contains(name) <==> names.to_set().contains(name) by {
            if kept.contains(name) {
                let k = choose|k: int| 0 <= k < kept.len() && kept[k] == name;
                if k < front.len() {
                    assert(front.contains(name));
                    assert(names.drop_last().to_set().contains(name));
                    let j = choose|j: int| 0 <= j < names.drop_last().len() && names.drop_last()[j] == name;
                    assert(names[j] == name);
                } else {
                    assert(names[names.len() - 1] == name);
                }
            }
            if names.contains(name) {
                let j = choose|j: int| 0 <= j < names.len() && names[j] == name;
                if j < names.len() - 1 {
                    assert(names.drop_last()[j] == name);
                    assert(names.drop_last().to_set().contains(name));
                    assert(front.contains(name));
                    let k = choose|k: int| 0 <= k < front.len() && front[k] == name;
                    assert(kept[k] == name);
                } else if front.contains(name) {
                    let k = choose|k: int| 0 <= k < front.len() && front[k] == name;
                    assert(kept[k] == name);
                } else {
                    assert(kept[front.len() as int] == name);
                }
            }
        }
        assert(kept.to_set() =~= names.to_set());
    }
    kept.unique_seq_to_set();
}

/// The number of distinct names depends only on which names occur, not on
/// their order nor on how often each occurs.
pub proof fn lemma_distinct_count_ignores_order_and_repeats(a: Seq<Seq<char>>, b: Seq<Seq<char>>)
    requires
        forall|name: Seq<char>| a.contains(name) <==> b.contains(name),
    ensures
        distinct_count(a) == distinct_count(b),
        first_occurrences(a).len() == first_occurrences(b).len(),
{
    assert(a.to_set() =~= b.to_set());
    lemma_first_occurrences(a);
    lemma_first_occurrences(b);
}

/// Unique hostnames. Equal names collapse to one entry.
pub struct SubdomainSet {
    hosts: Vec<Subdomain>,
}

impl View for SubdomainSet {
    type V = Set<Seq<char>>;

    open spec fn view(&self) -> Set<Seq<char>> {
        self.listing().to_set()
    }
}

impl SubdomainSet {
    /// The names held, each once, in the order in which `hosts` lists them.
    pub closed spec fn listing(&self) -> Seq<Seq<char>> {
        names_of(self.hosts@)
    }

    #[verifier::type_invariant]
    spec fn no_repeats(&self) -> bool {
        self.listing().no_duplicates()
    }

    /// The empty set.
    pub fn new() -> (set: SubdomainSet)
        ensures
            set@ == Set::<Seq<char>>::empty(),
            set.listing() == Seq::<Seq<char>>::empty(),
    {
        let set = SubdomainSet { hosts: Vec::new() };
        assert(set.listing() =~= Seq::<Seq<char>>::empty());
        assert(set@ =~= Set::<Seq<char>>::empty());
        set
    }

    /// Number of unique hostnames.
    pub fn len(&self) -> (n: usize)
        ensures
            n == self@.len(),
            n == self.listing().len(),
    {
        proof {
            use_type_invariant(self);
            self.listing().unique_seq_to_set();
        }
        self.hosts.len()
    }

    /// Whether no hostname is held.
    pub fn is_empty(&self) -> (empty: bool)
        ensures
            empty == (self@.len() == 0),
            empty == (self@ == Set::<Seq<char>>::empty()),
    {
        proof {
            use_type_invariant(self);
            self.listing().unique_seq_to_set();
            if self.hosts@.len() == 0 {
                assert(self@ =~= Set::<Seq<char>>::empty());
            } else {
                assert(self.listing().contains(self.listing()[0]));
            }
        }
        self.hosts.len() == 0
    }

    /// Whether `host` is held.
    pub fn contains(&self, host: &Subdomain) -> (found: bool)
        ensures
            found == self@.contains(host@),
    {
        let mut i: usize = 0;
        while i < self.hosts.len()
            invariant
                i <= self.hosts.len(),
                forall|j: int| 0 <= j < i ==> self.listing()[j] != host@,
            decreases self.hosts.len() - i,
        {
            if self.hosts[i].same_name(host) {
                assert(self.listing()[i as int] == host@);
                assert(self.listing().contains(host@));
                return true;
            }
            i += 1;
        }
        false
    }

    /// Adds `host` unless a host of the same name is held already, and says
    /// whether it was added.
    pub fn insert(&mut self, host: Subdomain) -> (added: bool)
        ensures
            final(self)@ == old(self)@.insert(host@),
            added == !old(self)@.contains(host@),
            added ==> final(self).listing() == old(self).listing().push(host@),
            !added ==> final(self).listing() == old(self).listing(),
    {
        if self.contains(&host) {
            assert(self@.insert(host@) =~= self@);
            false
        } else {
            let mut hosts: Vec<Subdomain> = Vec::new();
            proof {
                use_type_invariant(&*self);
                let before = self.listing();
                let after = before.push(host@);
                assert(names_of(self.hosts@.push(host)) =~= after);
                assert(after.no_duplicates());
                assert(after.to_set() =~= before.to_set().insert(host@)) by {
                    assert forall|name: Seq<char>| after.to_set().contains(name) implies before.to_set().insert(host@).contains(name) by {
                        let k = choose|k: int| 0 <= k < after.len() && after[k] == name;
                        if k < before.len() {
                            assert(before[k] == name);
                        }
                    }
                    assert forall|name: Seq<char>| before.to_set().insert(host@).contains(name) implies after.to_set().contains(name) by {
                        if name == host@ {
                            assert(after[before.len() as int] == name);
                        } else {
                            let k = choose|k: int| 0 <= k < before.len() && before[k] == name;
                            assert(after[k] == name);
                        }
                    }
                }
            }
            std::mem::swap(&mut self.hosts, &mut hosts);
            hosts.push(host);
            std::mem::swap(&mut self.hosts, &mut hosts);
            true
        }
    }

    /// Collects the provider's raw names. The set holds every name that
    /// occurs in `raw`, once, in the order of first occurrence.
    pub fn from_raw(raw: &Vec<String>) -> (set: SubdomainSet)
        ensures
            set@ == raw_names(raw@).to_set(),
            set@.len() == distinct_count(raw_names(raw@)),
            set.listing() == first_occurrences(raw_names(raw@)),
    {
        let mut set = SubdomainSet::new();
        let mut i: usize = 0;
        while i < raw.len()
            invariant
                i <= raw.len(),
                set.listing() == first_occurrences(raw_names(raw@).take(i as int)),
            decreases raw.len() - i,
        {
            let ghost seen = raw_names(raw@).take(i as int);
            let ghost next = raw_names(raw@).take(i + 1);
            proof {
                lemma_first_occurrences(seen);
                assert(next.drop_last() =~= seen);
                assert(next.last() == raw@[i as int]@);
            }
            set.insert(Subdomain::new(raw[i].clone()));
            i += 1;
        }
        proof {
            assert(raw_names(raw@).take(raw.len() as int) =~= raw_names(raw@));
            lemma_first_occurrences(raw_names(raw@));
        }
        set
    }

    /// The hostnames held, each once.
    pub fn hosts(&self) -> (hosts: &Vec<Subdomain>)
        ensures
            names_of(hosts@) == self.listing(),
            names_of(hosts@).no_duplicates(),
            names_of(hosts@).to_set() == self@,
    {
        proof {
            use_type_invariant(self);
        }
        &self.hosts
    }
}

} // verus!
