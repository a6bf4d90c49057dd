//! The resolver registry: resolvers and batch resolvers by name, in two
//! namespaces that do not see each other.

use crate::error::ResolverError;
use crate::text::str_equal;
use vstd::prelude::*;

verus! {

/// The handle stored under the first entry of that name, if any.
pub open spec fn first_under<H>(entries: Seq<(String, H)>, name: Seq<char>) -> Option<H>
    decreases entries.len(),
{
    if entries.len() == 0 {
        None
    } else if entries[0].0@ == name {
        Some(entries[0].1)
    } else {
        first_under(entries.drop_first(), name)
    }
}

/// The handles of the entries by name, the first entry of a name counting.
pub open spec fn by_name<H>(entries: Seq<(String, H)>) -> Map<Seq<char>, H> {
    Map::new(
        |name: Seq<char>| first_under(entries, name) is Some,
        |name: Seq<char>| first_under(entries, name)->0,
    )
}

/// Looking a name up among entries of which the first `i` have other names
/// is looking it up among the rest.
proof fn lemma_first_under_skip<H>(entries: Seq<(String, H)>, name: Seq<char>, i: int)
    requires
        0 <= i <= entries.len(),
        forall|k: int| 0 <= k < i ==> entries[k].0@ != name,
    ensures
        first_under(entries, name) == first_under(entries.skip(i), name),
    decreases i,
{
    if i == 0 {
        assert(entries.skip(0) =~= entries);
    } else {
        lemma_first_under_skip(entries, name, i - 1);
        let rest = entries.skip(i - 1);
        assert(rest.drop_first() =~= entries.skip(i));
    }
}

/// Replacing the first entry of a name changes what that name gives, and
/// nothing else.
proof fn lemma_first_under_update<H>(
    entries: Seq<(String, H)>,
    i: int,
    entry: (String, H),
    name: Seq<char>,
)
    requires
        0 <= i < entries.len(),
        entries[i].0@ == entry.0@,
        forall|k: int| 0 <= k < i ==> entries[k].0@ != entry.0@,
    ensures
        first_under(entries.update(i, entry), name) == if name == entry.0@ {
            Some(entry.1)
        } else {
            first_under(entries, name)
        },
    decreases i,
{
    let updated = entries.update(i, entry);
    if i == 0 {
        assert(updated.drop_first() =~= entries.drop_first());
    } else {
        assert(updated.drop_first() =~= entries.drop_first().update(i - 1, entry));
        lemma_first_under_update(entries.drop_first(), i - 1, entry, name);
    }
}

/// Adding an entry at the end gives its name a handle only where the name had
/// none.
proof fn lemma_first_under_push<H>(entries: Seq<(String, H)>, entry: (String, H), name: Seq<char>)
    ensures
        first_under(entries.push(entry), name) == if first_under(entries, name) is Some {
            first_under(entries, name)
        } else if name == entry.0@ {
            Some(entry.1)
        } else {
            None
        },
    decreases entries.len(),
{
    let pushed = entries.push(entry);
    if entries.len() == 0 {
        assert(first_under(pushed.drop_first(), name) is None);
    } else {
        assert(pushed.drop_first() =~= entries.drop_first().push(entry));
        lemma_first_under_push(entries.drop_first(), entry, name);
    }
}

/// A table from names to handles, searched in order.
struct Namespace<H> {
    entries: Vec<(String, H)>,
}

/// A name has a handle exactly where an entry has that name.
proof fn lemma_first_under_is_some<H>(entries: Seq<(String, H)>, name: Seq<char>)
    ensures
        first_under(entries, name) is Some <==> exists|k: int|
            0 <= k < entries.len() && (#[trigger] entries[k]).0@ == name,
    decreases entries.len(),
{
    if entries.len() > 0 && entries[0].0@ != name {
        lemma_first_under_is_some(entries.drop_first(), name);
        if first_under(entries.drop_first(), name) is Some {
            let k = choose|k: int|
                0 <= k < entries.drop_first().len() && (#[trigger] entries.drop_first()[k]).0@
                    == name;
            assert(entries[k + 1].0@ == name);
        }
        if exists|k: int| 0 <= k < entries.len() && (#[trigger] entries[k]).0@ == name {
            let k = choose|k: int| 0 <= k < entries.len() && (#[trigger] entries[k]).0@ == name;
            assert(entries.drop_first()[k - 1].0@ == name);
        }
    }
}

impl<H> Namespace<H> {
    spec fn contents(self) -> Map<Seq<char>, H> {
        by_name(self.entries@)
    }

    /// The names of the entries, each once, in the order of first registration.
    fn names(&self) -> (names: Vec<String>)
        ensures
            crate::tables::lists_keys(names.deep_view(), self.contents().dom()),
    {
        let mut names: Vec<String> = Vec::new();
        let ghost mut places: Seq<int> = Seq::empty();
        let mut i: usize = 0;
        while i < self.entries.len()
            invariant
                i <= self.entries.len(),
                names@.len() == places.len(),
                forall|a: int|
                    0 <= a < places.len() ==> 0 <= #[trigger] places[a] < i && names@[a]@
                        == self.entries@[places[a]].0@,
                forall|a: int, k: int|
                    #![trigger places[a], self.entries@[k]]
                    0 <= a < places.len() && 0 <= k < places[a] ==> self.entries@[k].0@
                        != self.entries@[places[a]].0@,
                forall|a: int, b: int| 0 <= a < b < places.len() ==> places[a] < places[b],
                forall|k: int|
                    0 <= k < i ==> exists|a: int|
                        0 <= a < places.len() && names@[a]@ == (#[trigger] self.entries@[k]).0@,
            decreases self.entries.len() - i,
        {
            let ghost listed_before = names@;
            let ghost places_before = places;
            let found = self.position(self.entries[i].0.as_str());
            proof {
                lemma_first_under_is_some(self.entries@, self.entries@[i as int].0@);
            }
            let first = found.unwrap();
            if first == i {
                names.push(self.entries[i].0.clone());
                proof {
                    places = places.push(i as int);
                }
            }
            assert forall|k: int| 0 <= k < i + 1 implies exists|a: int|
                0 <= a < places.len() && names@[a]@ == (#[trigger] self.entries@[k]).0@ by {
                let source = if k < i {
                    k
                } else {
                    first as int
                };
                if source < i {
                    let a = choose|a: int|
                        0 <= a < places_before.len() && listed_before[a]@ == (
                        #[trigger] self.entries@[source]).0@;
                    assert(names@[a]@ == self.entries@[k].0@);
                } else {
                    assert(names@[places.len() - 1]@ == self.entries@[k].0@);
                }
            }
            i += 1;
        }
        proof {
            let listed = names.deep_view();
            assert forall|name: Seq<char>| listed.contains(name) <==> self.contents().dom().contains(
                name,
            ) by {
                lemma_first_under_is_some(self.entries@, name);
                if listed.contains(name) {
                    let a = choose|a: int| 0 <= a < listed.len() && listed[a] == name;
                    assert(self.entries@[places[a]].0@ == name);
                }
                if first_under(self.entries@, name) is Some {
                    let k = choose|k: int|
                        0 <= k < self.entries@.len() && (#[trigger] self.entries@[k]).0@ == name;
                    let a = choose|a: int|
                        0 <= a < places.len() && names@[a]@ == (#[trigger] self.entries@[k]).0@;
                    assert(listed[a] == name);
                }
            }
            assert forall|a: int, b: int| 0 <= a < b < listed.len() implies listed[a]
                != listed[b] by {
                assert(self.entries@[places[a]].0@ != self.entries@[places[b]].0@);
            }
        }
        names
    }

    fn new() -> (namespace: Namespace<H>)
        ensures
            namespace.contents() == Map::<Seq<char>, H>::empty(),
    {
        let namespace = Namespace { entries: Vec::new() };
        namespace
    }

    /// The place of the first entry under the name.
    fn position(&self, name: &str) -> (place: Option<usize>)
        ensures
            match place {
                Some(i) => i < self.entries@.len() && self.entries@[i as int].0@ == name@
                    && first_under(self.entries@, name@) == Some(self.entries@[i as int].1)
                    && forall|k: int| 0 <= k < i ==> self.entries@[k].0@ != name@,
                None => first_under(self.entries@, name@) is None,
            },
    {
        let mut i: usize = 0;
        while i < self.entries.len()
            invariant
                i <= self.entries.len(),
                forall|k: int| 0 <= k < i ==> self.entries@[k].0@ != name@,
            decreases self.entries.len() - i,
        {
            if str_equal(self.entries[i].0.as_str(), name) {
                proof {
                    lemma_first_under_skip(self.entries@, name@, i as int);
                }
                return Some(i);
            }
            i += 1;
        }
        proof {
            lemma_first_under_skip(self.entries@, name@, i as int);
        }
        None
    }

    fn insert(&mut self, name: String, handle: H)
        ensures
            final(self).contents() == old(self).contents().insert(name@, handle),
    {
        let ghost before = self.entries@;
        match self.position(name.as_str()) {
            Some(i) => {
                self.entries.set(i, (name, handle));
                assert forall|other: Seq<char>|
                    first_under(self.entries@, other) == if other == name@ {
                        Some(handle)
                    } else {
                        first_under(before, other)
                    } by {
                    lemma_first_under_update(before, i as int, (name, handle), other);
                }
            },
            None => {
                self.entries.push((name, handle));
                assert forall|other: Seq<char>|
                    first_under(self.entries@, other) == if other == name@ {
                        Some(handle)
                    } else {
                        first_under(before, other)
                    } by {
                    lemma_first_under_push(before, (name, handle), other);
                }
            },
        }
    }

    fn get(&self, name: &str) -> (found: Option<&H>)
        ensures
            match found {
                Some(handle) => self.contents().contains_key(name@) && *handle
                    == self.contents()[name@],
                None => !self.contents().contains_key(name@),
            },
    {
        match self.position(name) {
            Some(i) => Some(&self.entries[i].1),
            None => None,
        }
    }
}

/// What is registered for one resolver: the resolver and its name.
pub struct ResolverRegistration<R> {
    pub resolver: R,
    pub name: &'static str,
}

impl<R> ResolverRegistration<R> {
    pub fn new(resolver: R, name: &'static str) -> (registration: Self)
        ensures
            registration.resolver == resolver,
            registration.name@ == name@,
    {
        ResolverRegistration { resolver, name }
    }
}

/// What is registered for one batch resolver: the resolver, its name, and
/// the field of the parent object that carries the batch key.
pub struct BatchResolverRegistration<B> {
    pub resolver: B,
    pub name: &'static str,
    pub batch_key: &'static str,
}

impl<B> BatchResolverRegistration<B> {
    pub fn new(resolver: B, name: &'static str, batch_key: &'static str) -> (registration: Self)
        ensures
            registration.resolver == resolver,
            registration.name@ == name@,
            registration.batch_key@ == batch_key@,
    {
        BatchResolverRegistration { resolver, name, batch_key }
    }
}

/// The resolvers left after the registrations, taken in order: a later
/// registration of a name replaces an earlier one.
pub open spec fn registered<R>(registrations: Seq<ResolverRegistration<R>>) -> Map<Seq<char>, R>
    decreases registrations.len(),
{
    if registrations.len() == 0 {
        Map::empty()
    } else {
        registered(registrations.drop_last()).insert(
            registrations.last().name@,
            registrations.last().resolver,
        )
    }
}

/// The batch resolvers left after the registrations, taken in order.
pub open spec fn registered_batch<B>(registrations: Seq<BatchResolverRegistration<B>>) -> Map<
    Seq<char>,
    B,
>
    decreases registrations.len(),
{
    if registrations.len() == 0 {
        Map::empty()
    } else {
        registered_batch(registrations.drop_last()).insert(
            registrations.last().name@,
            registrations.last().resolver,
        )
    }
}

/// A store of resolvers of type `R` and batch resolvers of type `B`, each
/// under the name it reports. The two kinds have separate namespaces: a
/// resolver and a batch resolver may share a name.
pub struct TraitRegistry<R, B> {
    resolvers: Namespace<R>,
    batch_resolvers: Namespace<B>,
}

impl<R, B> TraitRegistry<R, B> {
    /// The registered resolvers, by name.
    pub closed spec fn resolvers(self) -> Map<Seq<char>, R> {
        self.resolvers.contents()
    }

    /// The registered batch resolvers, by name.
    pub closed spec fn batch_resolvers(self) -> Map<Seq<char>, B> {
        self.batch_resolvers.contents()
    }

    /// The names under which a batch resolver is registered.
    pub open spec fn batch_names(self) -> Set<Seq<char>> {
        self.batch_resolvers().dom()
    }

    /// A registry without resolvers.
    pub fn new() -> (registry: Self)
        ensures
            registry.resolvers() == Map::<Seq<char>, R>::empty(),
            registry.batch_resolvers() == Map::<Seq<char>, B>::empty(),
    {
        TraitRegistry { resolvers: Namespace::new(), batch_resolvers: Namespace::new() }
    }

    /// A registry filled from registrations collected beforehand, each taken
    /// in order.
    pub fn from_inventory(
        resolvers: Vec<ResolverRegistration<R>>,
        batch_resolvers: Vec<BatchResolverRegistration<B>>,
    ) -> (registry: Self)
        ensures
            registry.resolvers() == registered(resolvers@),
            registry.batch_resolvers() == registered_batch(batch_resolvers@),
    {
        let ghost all = resolvers@;
        let ghost all_batch = batch_resolvers@;
        let mut registry = TraitRegistry::new();
        for registration in it: resolvers
            invariant
                it.seq() == all,
                registry.resolvers() == registered(all.take(it.index())),
                registry.batch_resolvers() == Map::<Seq<char>, B>::empty(),
        {
            assert(all.take(it.index() + 1).drop_last() =~= all.take(it.index()));
            registry.register_resolver(registration.name.to_owned(), registration.resolver);
        }
        assert(all.take(all.len() as int) =~= all);
        for registration in it: batch_resolvers
            invariant
                it.seq() == all_batch,
                registry.resolvers() == registered(all),
                registry.batch_resolvers() == registered_batch(all_batch.take(it.index())),
        {
            assert(all_batch.take(it.index() + 1).drop_last() =~= all_batch.take(it.index()));
            registry.register_batch_resolver(
                registration.name.to_owned(),
                registration.resolver,
            );
        }
        assert(all_batch.take(all_batch.len() as int) =~= all_batch);
        registry
    }

    /// Registers a resolver under its name. An earlier resolver of that name
    /// is replaced; batch resolvers are not touched.
    pub fn register_resolver(&mut self, name: String, resolver: R)
        ensures
            final(self).resolvers() == old(self).resolvers().insert(name@, resolver),
            final(self).batch_resolvers() == old(self).batch_resolvers(),
    {
        self.resolvers.insert(name, resolver);
    }

    /// Registers a batch resolver under its name. An earlier batch resolver
    /// of that name is replaced; plain resolvers are not touched.
    pub fn register_batch_resolver(&mut self, name: String, resolver: B)
        ensures
            final(self).batch_resolvers() == old(self).batch_resolvers().insert(name@, resolver),
            final(self).resolvers() == old(self).resolvers(),
    {
        self.batch_resolvers.insert(name, resolver);
    }

    /// The resolver registered under a name, or `NotFound` with that name.
    pub fn get_resolver(&self, name: &str) -> (found: Result<&R, ResolverError>)
        ensures
            match found {
                Ok(resolver) => self.resolvers().contains_key(name@) && *resolver
                    == self.resolvers()[name@],
                Err(ResolverError::NotFound(missing)) => !self.resolvers().contains_key(name@)
                    && missing@ == name@,
                Err(_) => false,
            },
    {
        match self.resolvers.get(name) {
            Some(resolver) => Ok(resolver),
            None => Err(ResolverError::NotFound(name.to_owned())),
        }
    }

    /// The batch resolver registered under a name, or `NotFound` with that
    /// name.
    pub fn get_batch_resolver(&self, name: &str) -> (found: Result<&B, ResolverError>)
        ensures
            match found {
                Ok(resolver) => self.batch_resolvers().contains_key(name@) && *resolver
                    == self.batch_resolvers()[name@],
                Err(ResolverError::NotFound(missing)) => !self.batch_resolvers().contains_key(
                    name@,
                ) && missing@ == name@,
                Err(_) => false,
            },
    {
        match self.batch_resolvers.get(name) {
            Some(resolver) => Ok(resolver),
            None => Err(ResolverError::NotFound(name.to_owned())),
        }
    }

    /// The names under which a resolver is registered, each once.
    pub fn resolver_names(&self) -> (names: Vec<String>)
        ensures
            crate::tables::lists_keys(names.deep_view(), self.resolvers().dom()),
    {
        self.resolvers.names()
    }

    /// The names under which a batch resolver is registered, each once.
    pub fn batch_resolver_names(&self) -> (names: Vec<String>)
        ensures
            crate::tables::lists_keys(names.deep_view(), self.batch_names()),
    {
        self.batch_resolvers.names()
    }

    /// Whether a resolver is registered under a name.
    pub fn has_resolver(&self, name: &str) -> (present: bool)
        ensures
            present == self.resolvers().contains_key(name@),
    {
        self.resolvers.get(name).is_some()
    }

    /// Whether a batch resolver is registered under a name.
    pub fn has_batch_resolver(&self, name: &str) -> (present: bool)
        ensures
            present == self.batch_names().contains(name@),
    {
        self.batch_resolvers.get(name).is_some()
    }
}

impl<R, B> Default for TraitRegistry<R, B> {
    fn default() -> (registry: Self)
        ensures
            registry.resolvers() == Map::<Seq<char>, R>::empty(),
            registry.batch_resolvers() == Map::<Seq<char>, B>::empty(),
    {
        TraitRegistry::new()
    }
}

} // verus!
