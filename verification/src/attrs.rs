use vstd::prelude::*;

verus! {

/// The implicit attribute name under which a role is exposed.
pub open spec fn role_key() -> Seq<char> {
    "role"@
}

/// A string-to-string attribute mapping with unique keys. Its view is the
/// mathematical map from key text to value text; two maps are equal exactly
/// when their views are.
#[derive(Debug)]
pub struct AttrMap {
    entries: Vec<(String, String)>,
}

/// The stored pairs as text pairs, in storage order.
spec fn kv_of(entries: Seq<(String, String)>) -> Seq<(Seq<char>, Seq<char>)> {
    entries.map_values(|e: (String, String)| (e.0@, e.1@))
}

impl AttrMap {
    /// The entries as text pairs, in storage order.
    spec fn kv(&self) -> Seq<(Seq<char>, Seq<char>)> {
        kv_of(self.entries@)
    }

    #[verifier::type_invariant]
    spec fn keys_unique(&self) -> bool {
        forall|i: int, j: int|
            0 <= i < j < self.kv().len() ==> (#[trigger] self.kv()[i]).0 != (#[trigger] self.kv()[j]).0
    }

    spec fn has_key(&self, k: Seq<char>) -> bool {
        exists|i: int| 0 <= i < self.kv().len() && (#[trigger] self.kv()[i]).0 == k
    }

    spec fn index_of(&self, k: Seq<char>) -> int {
        choose|i: int| 0 <= i < self.kv().len() && (#[trigger] self.kv()[i]).0 == k
    }

    /// The entry at position i is in the map, with its value.
    proof fn lemma_entry(&self, i: int)
        requires
            self.keys_unique(),
            0 <= i < self.kv().len(),
        ensures
            self@.contains_key(self.kv()[i].0),
            self@[self.kv()[i].0] == self.kv()[i].1,
    {
        let k = self.kv()[i].0;
        assert(self.has_key(k));
        let j = self.index_of(k);
        assert(0 <= j < self.kv().len() && self.kv()[j].0 == k);
        if i < j {
            assert(self.kv()[i].0 != self.kv()[j].0);
        }
        if j < i {
            assert(self.kv()[j].0 != self.kv()[i].0);
        }
        assert(j == i);
    }

    /// Every view fact of a well-formed map comes through some entry.
    proof fn lemma_contained(&self, k: Seq<char>)
        requires
            self.keys_unique(),
            self@.contains_key(k),
        ensures
            0 <= self.index_of(k) < self.kv().len(),
            self.kv()[self.index_of(k)].0 == k,
            self@[k] == self.kv()[self.index_of(k)].1,
    {
        assert(self.has_key(k));
        let j = self.index_of(k);
        assert(0 <= j < self.kv().len() && self.kv()[j].0 == k);
    }

    /// An empty attribute mapping.
    pub fn new() -> (r: AttrMap)
        ensures
            r@ == Map::<Seq<char>, Seq<char>>::empty(),
    {
        let r = AttrMap { entries: Vec::new() };
        proof {
            assert(r@ =~= Map::<Seq<char>, Seq<char>>::empty());
        }
        r
    }

    /// Whether the mapping holds no attribute at all.
    pub fn is_empty(&self) -> (r: bool)
        ensures
            r == (self@ == Map::<Seq<char>, Seq<char>>::empty()),
    {
        let r = self.entries.is_empty();
        proof {
            use_type_invariant(self);
            if self.entries@.len() == 0 {
                assert(self@ =~= Map::<Seq<char>, Seq<char>>::empty());
            } else {
                self.lemma_entry(0);
                assert(self@.contains_key(self.kv()[0].0));
            }
        }
        r
    }

    /// The value stored under `name`, if any.
    pub fn get(&self, name: &String) -> (r: Option<&String>)
        ensures
            match r {
                Some(v) => self@.contains_key(name@) && v@ == self@[name@],
                None => !self@.contains_key(name@),
            },
    {
        proof {
            use_type_invariant(self);
        }
        let mut i: usize = 0;
        while i < self.entries.len()
            invariant
                i <= self.entries@.len(),
                forall|j: int| 0 <= j < i ==> (#[trigger] self.kv()[j]).0 != name@,
            decreases self.entries@.len() - i,
        {
            if self.entries[i].0.eq(name) {
                proof {
                    use_type_invariant(self);
                    self.lemma_entry(i as int);
                }
                return Some(&self.entries[i].1);
            }
            i += 1;
        }
        proof {
            if self@.contains_key(name@) {
                use_type_invariant(self);
                self.lemma_contained(name@);
            }
        }
        None
    }

    /// Stores `value` under `name`, replacing any previous value.
    pub fn insert(&mut self, name: String, value: String)
        ensures
            final(self)@ == old(self)@.insert(name@, value@),
    {
        proof {
            use_type_invariant(&*self);
        }
        let ghost m0 = self@;
        let ghost kv0 = self.kv();
        let mut entries: Vec<(String, String)> = Vec::new();
        std::mem::swap(&mut entries, &mut self.entries);
        let mut i: usize = 0;
        let mut found: bool = false;
        while i < entries.len() && !found
            invariant
                i <= entries@.len(),
                kv_of(entries@) == kv0,
                !found ==> forall|j: int| 0 <= j < i ==> (#[trigger] kv0[j]).0 != name@,
                found ==> i < kv0.len() && kv0[i as int].0 == name@,
            decreases entries@.len() - i + (if found { 0int } else { 1int }),
        {
            if entries[i].0.eq(&name) {
                found = true;
            } else {
                i += 1;
            }
        }
        if found {
            entries.set(i, (name, value));
        } else {
            entries.push((name, value));
        }
        let ghost kv1 = kv_of(entries@);
        proof {
            if found {
                assert(kv1 =~= kv0.update(i as int, (name@, value@)));
                assert(forall|j: int| 0 <= j < kv1.len() ==> (#[trigger] kv1[j]).0 == kv0[j].0);
            } else {
                assert(kv1 =~= kv0.push((name@, value@)));
            }
        }
        self.entries = entries;
        proof {
            let m1 = self@;
            assert(self.kv() == kv1);
            assert forall|k: Seq<char>| m1.contains_key(k) implies m0.insert(name@, value@).contains_key(k) by {
                let j = choose|j: int|
                    0 <= j < self.kv().len() && (#[trigger] self.kv()[j]).0 == k;
                if self.kv()[j].0 != name@ {
                    assert(0 <= j < kv0.len() && kv0[j].0 == k);
                    assert(old(self).has_key(k));
                }
            }
            assert forall|k: Seq<char>| m0.insert(name@, value@).contains_key(k) implies m1.contains_key(
                k,
            ) by {
                if k == name@ {
                    if found {
                        assert(self.kv()[i as int].0 == k);
                    } else {
                        assert(self.kv()[kv0.len() as int].0 == k);
                    }
                    assert(self.has_key(k));
                } else {
                    let j = choose|j: int| 0 <= j < kv0.len() && (#[trigger] kv0[j]).0 == k;
                    assert(self.kv()[j].0 == k);
                    assert(self.has_key(k));
                }
            }
            assert forall|k: Seq<char>| m1.contains_key(k) implies m1[k] == m0.insert(
                name@,
                value@,
            )[k] by {
                self.lemma_contained(k);
                let j = self.index_of(k);
                if k == name@ {
                    if found {
                        if j != i as int {
                            assert(self.kv()[j].0 != self.kv()[i as int].0);
                        }
                        assert(j == i as int);
                    } else {
                        if j != kv0.len() as int {
                            assert(kv0[j].0 == name@);
                        }
                        assert(j == kv0.len() as int);
                    }
                    assert(m1[k] == value@);
                } else {
                    assert(self.kv()[j].0 == k);
                    assert(0 <= j < kv0.len() && kv0[j] == self.kv()[j]);
                    old(self).lemma_entry(j);
                }
            }
            assert(m1 =~= m0.insert(name@, value@));
        }
    }

    /// Whether every attribute of this map stands, with the same value, in
    /// `other`.
    fn maps_into(&self, other: &AttrMap) -> (r: bool)
        ensures
            r == self@.submap_of(other@),
    {
        proof {
            use_type_invariant(self);
            use_type_invariant(other);
        }
        let mut i: usize = 0;
        while i < self.entries.len()
            invariant
                i <= self.entries@.len(),
                forall|j: int| 0 <= j < i ==> other@.contains_key((#[trigger] self.kv()[j]).0)
                    && other@[self.kv()[j].0] == self.kv()[j].1,
            decreases self.entries@.len() - i,
        {
            proof {
                use_type_invariant(self);
                self.lemma_entry(i as int);
            }
            let ok: bool = match other.get(&self.entries[i].0) {
                Some(v) => v.eq(&self.entries[i].1),
                None => false,
            };
            if !ok {
                proof {
                    assert(self@.contains_key(self.kv()[i as int].0));
                }
                return false;
            }
            i += 1;
        }
        proof {
            use_type_invariant(self);
            assert forall|k: Seq<char>| self@.contains_key(k) implies #[trigger] other@.contains_key(
                k,
            ) && self@[k] == other@[k] by {
                self.lemma_contained(k);
            }
        }
        true
    }
}

impl View for AttrMap {
    type V = Map<Seq<char>, Seq<char>>;

    closed spec fn view(&self) -> Map<Seq<char>, Seq<char>> {
        Map::new(|k: Seq<char>| self.has_key(k), |k: Seq<char>| self.kv()[self.index_of(k)].1)
    }
}

impl Clone for AttrMap {
    fn clone(&self) -> (r: Self)
        ensures
            r@ == self@,
    {
        proof {
            use_type_invariant(self);
        }
        let mut entries: Vec<(String, String)> = Vec::new();
        let mut i: usize = 0;
        while i < self.entries.len()
            invariant
                i <= self.entries@.len(),
                entries@.len() == i,
                forall|j: int| 0 <= j < i ==> entries@[j] == self.entries@[j],
            decreases self.entries@.len() - i,
        {
            entries.push((self.entries[i].0.clone(), self.entries[i].1.clone()));
            i += 1;
        }
        proof {
            assert(entries@ =~= self.entries@);
            assert(kv_of(entries@) == self.kv());
            assert(forall|i: int, j: int|
                0 <= i < j < kv_of(entries@).len() ==> (#[trigger] kv_of(entries@)[i]).0 != (
                #[trigger] kv_of(entries@)[j]).0);
        }
        let r = AttrMap { entries };
        proof {
            assert(r.kv() == self.kv());
            assert forall|k: Seq<char>| r@.contains_key(k) implies self@.contains_key(k) && r@[k]
                == self@[k] by {
                r.lemma_contained(k);
                let j = r.index_of(k);
                self.lemma_entry(j);
            }
            assert forall|k: Seq<char>| self@.contains_key(k) implies r@.contains_key(k) by {
                self.lemma_contained(k);
                let j = self.index_of(k);
                r.lemma_entry(j);
            }
            assert(r@ =~= self@);
        }
        r
    }
}

impl PartialEq for AttrMap {
    fn eq(&self, other: &Self) -> (r: bool) {
        let forward = self.maps_into(other);
        let backward = other.maps_into(self);
        proof {
            self@.lemma_submap_eq_iff(other@);
        }
        forward && backward
    }
}

impl vstd::std_specs::cmp::PartialEqSpecImpl for AttrMap {
    open spec fn obeys_eq_spec() -> bool {
        true
    }

    open spec fn eq_spec(&self, other: &Self) -> bool {
        self@ == other@
    }
}

/// A closed set of attribute states: no attributes, a single implicit
/// role-derived attribute, or an arbitrary caller-supplied mapping.
#[derive(Debug)]
pub enum Attributes {
    /// No attributes.
    Empty,
    /// A single implicit attribute named "role" with the given value.
    RoleOnly(String),
    /// An arbitrary mapping supplied by the caller at construction.
    Explicit(AttrMap),
}

impl Attributes {
    /// The canonical form: every state as one uniform mapping.
    pub open spec fn spec_as_map(&self) -> Map<Seq<char>, Seq<char>> {
        match self {
            Attributes::Empty => Map::empty(),
            Attributes::RoleOnly(role) => Map::empty().insert(role_key(), role@),
            Attributes::Explicit(map) => map@,
        }
    }

    /// Equality of attribute bags: the same state, holding the same text.
    pub open spec fn spec_eq(&self, other: &Attributes) -> bool {
        match (self, other) {
            (Attributes::Empty, Attributes::Empty) => true,
            (Attributes::RoleOnly(a), Attributes::RoleOnly(b)) => a@ == b@,
            (Attributes::Explicit(a), Attributes::Explicit(b)) => a@ == b@,
            _ => false,
        }
    }

    /// Law: an empty bag canonicalizes to the empty mapping, so an
    /// anonymous identity has no attribute at all, "role" included.
    pub proof fn lemma_empty_canonical(bag: &Attributes)
        requires
            bag is Empty,
        ensures
            bag.spec_as_map() == Map::<Seq<char>, Seq<char>>::empty(),
    {
    }

    /// Law: a role-derived bag canonicalizes to exactly one attribute: the
    /// role under the name "role", and nothing under any other name.
    pub proof fn lemma_role_only_canonical(bag: &Attributes, role: Seq<char>, name: Seq<char>)
        requires
            bag matches Attributes::RoleOnly(r) && r@ == role,
        ensures
            bag.spec_as_map().contains_key(name) <==> name == role_key(),
            name == role_key() ==> bag.spec_as_map()[name] == role,
    {
    }

    /// Law: a caller-supplied bag canonicalizes to exactly the supplied
    /// mapping, a round trip with no attribute added, dropped or changed.
    pub proof fn lemma_explicit_round_trip(bag: &Attributes, m: Map<Seq<char>, Seq<char>>)
        requires
            bag matches Attributes::Explicit(a) && a@ == m,
        ensures
            bag.spec_as_map() == m,
    {
    }

    /// Two bags that both equal a third equal each other.
    pub proof fn lemma_spec_eq_common(a: &Attributes, b: &Attributes, c: &Attributes)
        requires
            a.spec_eq(c),
            b.spec_eq(c),
        ensures
            a.spec_eq(b),
    {
    }

    /// The value of one attribute, if present: defined directly on each
    /// state, without full canonicalization. For a role-derived bag the
    /// single attribute answers to the name "role".
    pub fn attribute(&self, name: &String) -> (r: Option<String>)
        ensures
            match r {
                Some(v) => self.spec_as_map().contains_key(name@) && v@
                    == self.spec_as_map()[name@],
                None => !self.spec_as_map().contains_key(name@),
            },
    {
        match self {
            Attributes::Explicit(map) => match map.get(name) {
                Some(v) => Some(v.clone()),
                None => None,
            },
            Attributes::RoleOnly(role) => {
                if name.eq(&"role".to_owned()) {
                    Some(role.clone())
                } else {
                    None
                }
            },
            Attributes::Empty => None,
        }
    }

    /// Canonicalizes this bag into a uniform string-to-string mapping.
    pub fn as_map(&self) -> (r: AttrMap)
        ensures
            r@ == self.spec_as_map(),
    {
        match self {
            Attributes::Explicit(map) => map.clone(),
            Attributes::RoleOnly(role) => {
                let mut map = AttrMap::new();
                map.insert("role".to_owned(), role.clone());
                map
            },
            Attributes::Empty => AttrMap::new(),
        }
    }
}

impl Clone for Attributes {
    fn clone(&self) -> (r: Self)
        ensures
            r.spec_eq(self),
    {
        match self {
            Attributes::Empty => Attributes::Empty,
            Attributes::RoleOnly(role) => Attributes::RoleOnly(role.clone()),
            Attributes::Explicit(map) => Attributes::Explicit(map.clone()),
        }
    }
}

impl PartialEq for Attributes {
    fn eq(&self, other: &Self) -> (r: bool) {
        match (self, other) {
            (Attributes::Empty, Attributes::Empty) => true,
            (Attributes::RoleOnly(a), Attributes::RoleOnly(b)) => *a == *b,
            (Attributes::Explicit(a), Attributes::Explicit(b)) => *a == *b,
            _ => false,
        }
    }
}

impl vstd::std_specs::cmp::PartialEqSpecImpl for Attributes {
    open spec fn obeys_eq_spec() -> bool {
        true
    }

    open spec fn eq_spec(&self, other: &Self) -> bool {
        self.spec_eq(other)
    }
}

} // verus!
