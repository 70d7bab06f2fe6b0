use vstd::prelude::*;

use crate::json::json_ok;

verus! {

/// The durable mapping from version label to configuration document.
///
/// The contents live in an `ic_stable_structures::BTreeMap` over a
/// `DefaultMemoryImpl`, which supplies durability; this crate reasons about
/// the contents only through `store_map` and `store_key_order`.
#[verifier::external_body]
pub struct ConfigStore {
    map: ic_stable_structures::BTreeMap<String, String, ic_stable_structures::DefaultMemoryImpl>,
}

/// The mapping held by the store: version label to stored document text.
pub uninterp spec fn store_map(s: ConfigStore) -> Map<Seq<char>, Seq<char>>;

/// The store's native key iteration order, as a sequence of keys.
pub uninterp spec fn store_key_order(s: ConfigStore) -> Seq<Seq<char>>;

/// The view of a store that holds no entry at all.
pub open spec fn empty_store_view() -> Map<Seq<char>, Seq<char>> {
    Map::empty()
}

/// The key order lists each key of the mapping exactly once.
pub open spec fn store_inv(s: ConfigStore) -> bool {
    &&& store_key_order(s).no_duplicates()
    &&& forall|k: Seq<char>|
        #[trigger] store_key_order(s).contains(k) <==> store_map(s).dom().contains(k)
}

/// Every document held by the store is valid JSON text.
pub open spec fn store_json_inv(s: ConfigStore) -> bool {
    forall|k: Seq<char>|
        #[trigger] store_map(s).dom().contains(k) ==> json_ok(store_map(s)[k])
}

impl ConfigStore {
    /// Relies on `ic_stable_structures::BTreeMap::init` on a fresh
    /// `DefaultMemoryImpl`: the resulting map is empty.
    #[verifier::external_body]
    pub fn new() -> (s: ConfigStore)
        ensures
            store_map(s) == empty_store_view(),
            store_key_order(s) == Seq::<Seq<char>>::empty(),
    {
        ConfigStore {
            map: ic_stable_structures::BTreeMap::init(
                ic_stable_structures::DefaultMemoryImpl::default(),
            ),
        }
    }

    /// Relies on `ic_stable_structures::BTreeMap::get`: returns the value
    /// stored under the key, if one is present.
    #[verifier::external_body]
    fn btree_get(&self, key: &String) -> (r: Option<String>)
        ensures
            r is Some <==> store_map(*self).dom().contains(key@),
            r matches Some(c) ==> c@ == store_map(*self)[key@],
    {
        self.map.get(key)
    }

    /// Returns the document stored under the key, if one is present.
    pub fn get_config(&self, key: String) -> (r: Option<String>)
        ensures
            r is Some <==> store_map(*self).dom().contains(key@),
            r matches Some(c) ==> c@ == store_map(*self)[key@],
    {
        self.btree_get(&key)
    }

    /// Relies on `ic_stable_structures::BTreeMap::insert`: inserts or
    /// replaces the value under the key; the keys of a B-tree map are
    /// pairwise distinct and its key iteration covers exactly its contents.
    #[verifier::external_body]
    fn btree_insert(&mut self, key: String, value: String)
        ensures
            store_map(*final(self)) == store_map(*old(self)).insert(key@, value@),
            store_inv(*final(self)),
    {
        self.map.insert(key, value);
    }

    /// Inserts or replaces the document stored under the key.
    pub fn put_config(&mut self, key: String, value: String)
        ensures
            store_map(*final(self)) == store_map(*old(self)).insert(key@, value@),
            store_inv(*final(self)),
    {
        self.btree_insert(key, value);
    }

    /// Relies on `ic_stable_structures::BTreeMap::keys`: yields every key of
    /// the map in the map's native iteration order.
    #[verifier::external_body]
    fn btree_keys(&self) -> (r: Vec<String>)
        ensures
            r.deep_view() == store_key_order(*self),
    {
        self.map.keys().collect()
    }

    /// Returns every version label present, in the store's native key order.
    pub fn get_keys(&self) -> (r: Vec<String>)
        ensures
            r.deep_view() == store_key_order(*self),
    {
        self.btree_keys()
    }
}

} // verus!
