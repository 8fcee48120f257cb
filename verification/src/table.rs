//! A map from text keys to values whose keys can be listed.
use vstd::hash_map::StringHashMap;
use vstd::prelude::*;

verus! {

/// A map from text to `V`. Its keys are compared by their characters.
#[verifier::reject_recursive_types(V)]
pub struct Table<V> {
    map: StringHashMap<V>,
    keys: Vec<String>,
}

impl<V> Table<V> {
    /// The listed keys are those of the map, each once.
    #[verifier::type_invariant]
    spec fn keys_listed(self) -> bool {
        &&& self.keys.deep_view().no_duplicates()
        &&& forall|key: Seq<char>| #[trigger]
            self.keys.deep_view().contains(key) == self.map@.contains_key(key)
    }
}

impl<V: DeepView> Table<V> {
    /// What the table holds.
    pub closed spec fn contents(self) -> Map<Seq<char>, V::V> {
        Map::new(
            |key: Seq<char>| self.map@.contains_key(key),
            |key: Seq<char>| self.map@[key].deep_view(),
        )
    }

    /// An empty table.
    pub fn new() -> (r: Self)
        ensures
            r@ == Map::<Seq<char>, V::V>::empty(),
    {
        let keys: Vec<String> = Vec::new();
        assert(keys.deep_view() =~= Seq::<Seq<char>>::empty());
        let table = Table { map: StringHashMap::new(), keys };
        assert(table@ =~= Map::<Seq<char>, V::V>::empty());
        table
    }

    /// The value at `key`.
    pub fn get(&self, key: &str) -> (r: Option<&V>)
        ensures
            r is Some == self@.contains_key(key@),
            r matches Some(value) ==> value.deep_view() == self@[key@],
    {
        self.map.get(key)
    }

    /// Puts `value` at `key`, in place of what stood there.
    pub fn insert(&mut self, key: String, value: V)
        ensures
            final(self)@ == old(self)@.insert(key@, value.deep_view()),
    {
        proof {
            use_type_invariant(&*self);
        }
        let ghost before = *self;
        let mut taken = Table::new();
        std::mem::swap(self, &mut taken);
        let Table { map: mut map, keys: mut keys } = taken;
        if !map.contains_key(key.as_str()) {
            keys.push(key.clone());
            proof {
                let listed = before.keys.deep_view();
                assert(!listed.contains(key@));
                assert(keys.deep_view() =~= listed.push(key@));
                lemma_push_contains(listed, key@);
                lemma_push_new(listed, key@);
            }
        }
        map.insert(key, value);
        *self = Table { map, keys };
        assert(self@ =~= before@.insert(key@, value.deep_view()));
    }

    /// Takes the entry at `key` away, if there is one.
    pub fn remove(&mut self, key: &str)
        ensures
            final(self)@ == old(self)@.remove(key@),
    {
        proof {
            use_type_invariant(&*self);
        }
        let ghost before = *self;
        let mut taken = Table::new();
        std::mem::swap(self, &mut taken);
        let Table { map: mut map, keys: mut keys } = taken;
        let ghost listed = keys.deep_view();
        let mut i: usize = 0;
        while i < keys.len() && !crate::text::text_eq(keys[i].as_str(), key)
            invariant
                0 <= i <= keys@.len(),
                listed == keys.deep_view(),
                forall|j: int| 0 <= j < i ==> #[trigger] listed[j] != key@,
            decreases keys@.len() - i,
        {
            assert(listed[i as int] == keys@[i as int]@);
            i = i + 1;
        }
        if i < keys.len() {
            assert(listed[i as int] == keys@[i as int]@);
            let _key = keys.remove(i);
            proof {
                assert(keys.deep_view() =~= listed.remove(i as int));
                lemma_remove(listed, i as int);
            }
        } else {
            assert(!listed.contains(key@));
        }
        map.remove(key);
        *self = Table { map, keys };
        assert(self@ =~= before@.remove(key@));
    }

    /// The keys, each once.
    pub fn keys(&self) -> (r: Vec<String>)
        ensures
            r.deep_view().no_duplicates(),
            forall|key: Seq<char>| #[trigger]
                r.deep_view().contains(key) == self@.contains_key(key),
    {
        proof {
            use_type_invariant(self);
        }
        let mut keys: Vec<String> = Vec::new();
        let mut i: usize = 0;
        while i < self.keys.len()
            invariant
                0 <= i <= self.keys@.len(),
                keys@.len() == i,
                forall|j: int| 0 <= j < i ==> #[trigger] keys@[j] == self.keys@[j],
            decreases self.keys@.len() - i,
        {
            keys.push(self.keys[i].clone());
            i = i + 1;
        }
        assert(keys@ =~= self.keys@);
        assert(keys.deep_view() =~= self.keys.deep_view());
        keys
    }
}

/// The elements of a sequence with one more at its end.
pub(crate) proof fn lemma_push_contains<A>(s: Seq<A>, last: A)
    ensures
        forall|a: A| #[trigger] s.push(last).contains(a) == (s.contains(a) || a == last),
{
    assert forall|a: A| #[trigger] s.push(last).contains(a) == (s.contains(a) || a == last) by {
        if s.contains(a) {
            let j = choose|j: int| 0 <= j < s.len() && s[j] == a;
            assert(s.push(last)[j] == a);
        }
        assert(s.push(last)[s.len() as int] == last);
    }
}

/// A sequence of different elements with a new one at its end.
pub(crate) proof fn lemma_push_new<A>(s: Seq<A>, last: A)
    requires
        s.no_duplicates(),
        !s.contains(last),
    ensures
        s.push(last).no_duplicates(),
{
    let longer = s.push(last);
    assert forall|i: int, j: int| 0 <= i < longer.len() && 0 <= j < longer.len() && i
        != j implies longer[i] != longer[j] by {
        if i < s.len() {
            assert(s.contains(s[i]));
        }
        if j < s.len() {
            assert(s.contains(s[j]));
        }
    }
}

/// Different texts without one of them.
proof fn lemma_remove(texts: Seq<Seq<char>>, place: int)
    requires
        texts.no_duplicates(),
        0 <= place < texts.len(),
    ensures
        texts.remove(place).no_duplicates(),
        forall|text: Seq<char>| #[trigger]
            texts.remove(place).contains(text) == (texts.contains(text) && text != texts[place]),
{
    let shorter = texts.remove(place);
    assert forall|text: Seq<char>| #[trigger]
        shorter.contains(text) == (texts.contains(text) && text != texts[place]) by {
        if shorter.contains(text) {
            let j = choose|j: int| 0 <= j < shorter.len() && shorter[j] == text;
            let from = if j < place {
                j
            } else {
                j + 1
            };
            assert(texts[from] == text);
        }
        if texts.contains(text) && text != texts[place] {
            let j = choose|j: int| 0 <= j < texts.len() && texts[j] == text;
            let to = if j < place {
                j
            } else {
                j - 1
            };
            assert(shorter[to] == text);
        }
    }
}

impl<V: DeepView> View for Table<V> {
    type V = Map<Seq<char>, V::V>;

    open spec fn view(&self) -> Map<Seq<char>, V::V> {
        self.contents()
    }
}

} // verus!
