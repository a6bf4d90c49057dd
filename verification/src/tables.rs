//! Name-keyed tables of the configuration, kept in hash maps.

use crate::config::{ArgumentMapping, ArgumentMappingView, TypeConfig, TypeConfigView};
use vstd::prelude::*;

verus! {

/// The modeled types of a schema, by name.
#[verifier::external_body]
#[derive(Debug)]
pub struct TypeTable {
    entries: rustc_hash::FxHashMap<String, TypeConfig>,
}

/// What a type table holds: for each name in it, the type stored under it.
pub uninterp spec fn type_table_model(table: TypeTable) -> Map<Seq<char>, TypeConfigView>;

impl View for TypeTable {
    type V = Map<Seq<char>, TypeConfigView>;

    open spec fn view(&self) -> Map<Seq<char>, TypeConfigView> {
        type_table_model(*self)
    }
}

/// Whether `keys` is a finite set of `n` names.
pub open spec fn has_size(keys: Set<Seq<char>>, n: nat) -> bool {
    keys.finite() && keys.len() == n
}

/// Whether `names` lists each key of `keys` exactly once.
pub open spec fn lists_keys(names: Seq<Seq<char>>, keys: Set<Seq<char>>) -> bool {
    &&& names.no_duplicates()
    &&& forall|name: Seq<char>| names.contains(name) <==> keys.contains(name)
}

impl TypeTable {
    /// Makes an empty map with `FxHashMap::default`.
    #[verifier::external_body]
    fn empty() -> (table: TypeTable)
        ensures
            type_table_model(table) == (Map::<Seq<char>, TypeConfigView>::empty()),
    {
        TypeTable { entries: rustc_hash::FxHashMap::default() }
    }

    /// Calls `HashMap::insert`. The contract claims that the entry stands
    /// under its name afterwards, in place of any earlier one, and that no
    /// other entry changes.
    #[verifier::external_body]
    fn put(&mut self, name: String, config: TypeConfig)
        ensures
            type_table_model(*final(self)) == type_table_model(*old(self)).insert(name@, config@),
    {
        self.entries.insert(name, config);
    }

    /// Calls `HashMap::get`. The contract claims the entry stored under the
    /// name, and nothing where the table has no such name.
    #[verifier::external_body]
    fn find(&self, name: &str) -> (found: Option<&TypeConfig>)
        ensures
            match found {
                Some(config) => type_table_model(*self).contains_key(name@) && config@ == type_table_model(*self)[name@],
                None => !type_table_model(*self).contains_key(name@),
            },
    {
        self.entries.get(name)
    }

    /// Calls `HashMap::len`. The contract claims the number of names, of
    /// which there are finitely many.
    #[verifier::external_body]
    fn count(&self) -> (n: usize)
        ensures
            has_size(type_table_model(*self).dom(), n as nat),
    {
        self.entries.len()
    }

    /// Collects `HashMap::keys`. The contract claims each name once, in no
    /// stated order.
    #[verifier::external_body]
    fn keys(&self) -> (names: Vec<String>)
        ensures
            lists_keys(names.deep_view(), type_table_model(*self).dom()),
    {
        self.entries.keys().cloned().collect()
    }

    /// An empty table.
    pub fn new() -> (table: TypeTable)
        ensures
            table@ == Map::<Seq<char>, TypeConfigView>::empty(),
    {
        TypeTable::empty()
    }

    /// Stores a type under a name. An earlier type under that name is replaced.
    pub fn insert(&mut self, name: String, config: TypeConfig)
        ensures
            final(self)@ == old(self)@.insert(name@, config@),
    {
        self.put(name, config)
    }

    /// The type stored under a name.
    pub fn get(&self, name: &str) -> (found: Option<&TypeConfig>)
        ensures
            match found {
                Some(config) => self@.contains_key(name@) && config@ == self@[name@],
                None => !self@.contains_key(name@),
            },
    {
        self.find(name)
    }

    /// Whether a type is stored under a name.
    pub fn contains_key(&self, name: &str) -> (present: bool)
        ensures
            present == self@.contains_key(name@),
    {
        self.find(name).is_some()
    }

    /// The number of types.
    pub fn len(&self) -> (n: usize)
        ensures
            self@.dom().finite(),
            n == self@.dom().len(),
    {
        self.count()
    }

    /// Whether the table holds no type.
    pub fn is_empty(&self) -> (empty: bool)
        ensures
            self@.dom().finite(),
            empty == (self@ == Map::<Seq<char>, TypeConfigView>::empty()),
    {
        let n = self.count();
        proof {
            if n == 0 {
                assert(self@ =~= Map::empty());
            }
        }
        n == 0
    }

    /// The names of the types, each once, in no stated order.
    pub fn names(&self) -> (names: Vec<String>)
        ensures
            lists_keys(names.deep_view(), self@.dom()),
    {
        self.keys()
    }
}

impl Default for TypeTable {
    fn default() -> (table: TypeTable)
        ensures
            table@ == Map::<Seq<char>, TypeConfigView>::empty(),
    {
        TypeTable::empty()
    }
}

impl Clone for TypeTable {
    /// Calls `HashMap::clone`, which clones each name and each type.
    #[verifier::external_body]
    fn clone(&self) -> (copy: TypeTable) {
        TypeTable { entries: self.entries.clone() }
    }
}

/// The argument wiring of a called resolver: for each input of the resolver,
/// where its value comes from.
#[verifier::external_body]
#[derive(Debug)]
pub struct ArgumentMappings {
    entries: rustc_hash::FxHashMap<String, ArgumentMapping>,
}

/// What an argument wiring holds: for each input name in it, its source.
pub uninterp spec fn argument_mappings_model(mappings: ArgumentMappings) -> Map<
    Seq<char>,
    ArgumentMappingView,
>;

impl View for ArgumentMappings {
    type V = Map<Seq<char>, ArgumentMappingView>;

    open spec fn view(&self) -> Map<Seq<char>, ArgumentMappingView> {
        argument_mappings_model(*self)
    }
}

impl ArgumentMappings {
    /// Makes an empty map with `FxHashMap::default`.
    #[verifier::external_body]
    fn empty() -> (mappings: ArgumentMappings)
        ensures
            argument_mappings_model(mappings) == (Map::<Seq<char>, ArgumentMappingView>::empty()),
    {
        ArgumentMappings { entries: rustc_hash::FxHashMap::default() }
    }

    /// Calls `HashMap::insert`. The contract claims that the source stands
    /// under the input's name afterwards, in place of any earlier one, and
    /// that no other entry changes.
    #[verifier::external_body]
    fn put(&mut self, name: String, mapping: ArgumentMapping)
        ensures
            argument_mappings_model(*final(self)) == argument_mappings_model(*old(self)).insert(name@, mapping@),
    {
        self.entries.insert(name, mapping);
    }

    /// Calls `HashMap::get`. The contract claims the source stored under the
    /// name, and nothing where the wiring has no such name.
    #[verifier::external_body]
    fn find(&self, name: &str) -> (found: Option<&ArgumentMapping>)
        ensures
            match found {
                Some(mapping) => argument_mappings_model(*self).contains_key(name@) && mapping@ == argument_mappings_model(*self)[name@],
                None => !argument_mappings_model(*self).contains_key(name@),
            },
    {
        self.entries.get(name)
    }

    /// Calls `HashMap::len`. The contract claims the number of names, of
    /// which there are finitely many.
    #[verifier::external_body]
    fn count(&self) -> (n: usize)
        ensures
            has_size(argument_mappings_model(*self).dom(), n as nat),
    {
        self.entries.len()
    }

    /// Collects `HashMap::keys`. The contract claims each name once, in no
    /// stated order.
    #[verifier::external_body]
    fn keys(&self) -> (names: Vec<String>)
        ensures
            lists_keys(names.deep_view(), argument_mappings_model(*self).dom()),
    {
        self.entries.keys().cloned().collect()
    }

    /// An empty wiring.
    pub fn new() -> (mappings: ArgumentMappings)
        ensures
            mappings@ == Map::<Seq<char>, ArgumentMappingView>::empty(),
    {
        ArgumentMappings::empty()
    }

    /// Wires an input. An earlier source under that name is replaced.
    pub fn insert(&mut self, name: String, mapping: ArgumentMapping)
        ensures
            final(self)@ == old(self)@.insert(name@, mapping@),
    {
        self.put(name, mapping)
    }

    /// The source wired to an input.
    pub fn get(&self, name: &str) -> (found: Option<&ArgumentMapping>)
        ensures
            match found {
                Some(mapping) => self@.contains_key(name@) && mapping@ == self@[name@],
                None => !self@.contains_key(name@),
            },
    {
        self.find(name)
    }

    /// Whether an input is wired.
    pub fn contains_key(&self, name: &str) -> (present: bool)
        ensures
            present == self@.contains_key(name@),
    {
        self.find(name).is_some()
    }

    /// The number of wired inputs.
    pub fn len(&self) -> (n: usize)
        ensures
            self@.dom().finite(),
            n == self@.dom().len(),
    {
        self.count()
    }

    /// Whether no input is wired.
    pub fn is_empty(&self) -> (empty: bool)
        ensures
            self@.dom().finite(),
            empty == (self@ == Map::<Seq<char>, ArgumentMappingView>::empty()),
    {
        let n = self.count();
        proof {
            if n == 0 {
                assert(self@ =~= Map::empty());
            }
        }
        n == 0
    }

    /// The names of the wired inputs, each once, in no stated order.
    pub fn names(&self) -> (names: Vec<String>)
        ensures
            lists_keys(names.deep_view(), self@.dom()),
    {
        self.keys()
    }
}

impl Default for ArgumentMappings {
    fn default() -> (mappings: ArgumentMappings)
        ensures
            mappings@ == Map::<Seq<char>, ArgumentMappingView>::empty(),
    {
        ArgumentMappings::empty()
    }
}

impl Clone for ArgumentMappings {
    /// Calls `HashMap::clone`, which clones each name and each source.
    #[verifier::external_body]
    fn clone(&self) -> (copy: ArgumentMappings) {
        ArgumentMappings { entries: self.entries.clone() }
    }
}

/// A set of names, as the detector keeps of the types on its current path.
#[verifier::external_body]
pub struct NameSet {
    names: rustc_hash::FxHashSet<String>,
}

/// What a name set holds.
pub uninterp spec fn name_set_model(set: NameSet) -> Set<Seq<char>>;

impl View for NameSet {
    type V = Set<Seq<char>>;

    open spec fn view(&self) -> Set<Seq<char>> {
        name_set_model(*self)
    }
}

impl NameSet {
    /// Makes an empty set with `FxHashSet::default`.
    #[verifier::external_body]
    pub(crate) fn new() -> (set: NameSet)
        ensures
            name_set_model(set) == Set::<Seq<char>>::empty(),
    {
        NameSet { names: rustc_hash::FxHashSet::default() }
    }

    /// Calls `HashSet::contains`. The contract claims that it tells whether
    /// the name is in the set.
    #[verifier::external_body]
    pub(crate) fn contains(&self, name: &str) -> (present: bool)
        ensures
            present == name_set_model(*self).contains(name@),
    {
        self.names.contains(name)
    }

    /// Calls `HashSet::insert`. The contract claims that the name is in the
    /// set afterwards and that no other name comes or goes.
    #[verifier::external_body]
    pub(crate) fn insert(&mut self, name: String)
        ensures
            name_set_model(*final(self)) == name_set_model(*old(self)).insert(name@),
    {
        self.names.insert(name);
    }

    /// Calls `HashSet::remove`. The contract claims that the name is not in
    /// the set afterwards and that no other name comes or goes.
    #[verifier::external_body]
    pub(crate) fn remove(&mut self, name: &str)
        ensures
            name_set_model(*final(self)) == name_set_model(*old(self)).remove(name@),
    {
        self.names.remove(name);
    }
}

} // verus!
