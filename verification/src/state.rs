use vstd::prelude::*;
use vstd::hash_map::StringHashMap;

verus! {

/// The application state: serialized values keyed by the identity of their type.
pub struct State {
    map: StringHashMap<Vec<u8>>,
}

impl State {
    /// The stored bytes of each key.
    pub closed spec fn spec_map(self) -> Map<Seq<char>, Seq<u8>> {
        self.map@.map_values(|v: Vec<u8>| v@)
    }

    /// The empty state.
    pub fn new() -> (r: Self)
        ensures
            r.spec_map() == Map::<Seq<char>, Seq<u8>>::empty(),
    {
        let r = State { map: StringHashMap::new() };
        assert(r.spec_map() =~= Map::<Seq<char>, Seq<u8>>::empty());
        r
    }

    /// Store `bytes` under `key`, replacing what was stored there.
    pub fn set(&mut self, key: String, bytes: Vec<u8>)
        ensures
            final(self).spec_map() == old(self).spec_map().insert(key@, bytes@),
    {
        let ghost k = key@;
        let ghost v = bytes@;
        self.map.insert(key, bytes);
        assert(self.spec_map() =~= old(self).spec_map().insert(k, v));
    }

    /// The bytes stored under `key`, if any.
    pub fn get(&self, key: &String) -> (r: Option<Vec<u8>>)
        ensures
            r is Some <==> self.spec_map().dom().contains(key@),
            r matches Some(bytes) ==> bytes@ == self.spec_map()[key@],
    {
        match self.map.get(key.as_str()) {
            Some(bytes) => Some(vstd::slice::slice_to_vec(bytes.as_slice())),
            None => None,
        }
    }
}

impl Default for State {
    /// The empty state.
    fn default() -> (r: Self)
        ensures
            r.spec_map() == Map::<Seq<char>, Seq<u8>>::empty(),
    {
        State::new()
    }
}

/// A read gives back what the last write of the same key wrote.
pub proof fn lemma_get_after_set(before: State, after: State, key: Seq<char>, bytes: Seq<u8>)
    requires
        after.spec_map() == before.spec_map().insert(key, bytes),
    ensures
        after.spec_map().dom().contains(key),
        after.spec_map()[key] == bytes,
{
}

/// A write leaves every other key as it was.
pub proof fn lemma_set_keeps_other_keys(before: State, after: State, key: Seq<char>, bytes: Seq<u8>, other: Seq<char>)
    requires
        after.spec_map() == before.spec_map().insert(key, bytes),
        other != key,
    ensures
        after.spec_map().dom().contains(other) == before.spec_map().dom().contains(other),
        before.spec_map().dom().contains(other) ==> after.spec_map()[other] == before.spec_map()[other],
{
}

/// Writing the same key twice keeps only the second value.
pub proof fn lemma_set_twice(before: State, middle: State, after: State, key: Seq<char>, first: Seq<u8>, second: Seq<u8>)
    requires
        middle.spec_map() == before.spec_map().insert(key, first),
        after.spec_map() == middle.spec_map().insert(key, second),
    ensures
        after.spec_map() == before.spec_map().insert(key, second),
{
    assert(after.spec_map() =~= before.spec_map().insert(key, second));
}

} // verus!
