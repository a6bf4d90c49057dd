//! The walk itself.

use crate::config::{FieldConfig, GraphQLConfig, GraphQLConfigView};
use crate::error::N1Error;
use crate::n1::model::{
    field_named, field_violations, in_list_context, lemma_entering_shrinks, list_on_walk,
    open_types, type_violations, violations, walk_violations,
};
use crate::registry::TraitRegistry;
use crate::tables::NameSet;
use crate::text::str_equal;
use vstd::prelude::*;

verus! {

/// A copy of a path.
fn clone_path(path: &Vec<String>) -> (copy: Vec<String>)
    ensures
        copy.deep_view() == path.deep_view(),
{
    let mut copy: Vec<String> = Vec::new();
    let mut i: usize = 0;
    while i < path.len()
        invariant
            i <= path.len(),
            copy@.len() == i,
            forall|k: int| 0 <= k < i ==> copy@[k]@ == path@[k]@,
        decreases path.len() - i,
    {
        copy.push(path[i].clone());
        i += 1;
    }
    copy
}

/// The first field of that name.
fn find_field<'a>(fields: &'a Vec<FieldConfig>, name: &str) -> (found: Option<&'a FieldConfig>)
    ensures
        found.deep_view() == field_named(fields.deep_view(), name@),
{
    let mut i: usize = 0;
    assert(fields.deep_view().skip(0) =~= fields.deep_view());
    while i < fields.len()
        invariant
            i <= fields.len(),
            field_named(fields.deep_view(), name@) == field_named(
                fields.deep_view().skip(i as int),
                name@,
            ),
        decreases fields.len() - i,
    {
        let ghost rest = fields.deep_view().skip(i as int);
        assert(rest.drop_first() =~= fields.deep_view().skip(i + 1));
        if str_equal(fields[i].name.as_str(), name) {
            return Some(&fields[i]);
        }
        i += 1;
    }
    None
}

/// The detector of one configuration against one registry.
pub struct N1Detector<'a, R, B> {
    config: &'a GraphQLConfig,
    registry: &'a TraitRegistry<R, B>,
}

impl<'a, R, B> N1Detector<'a, R, B> {
    /// The configuration that is walked.
    pub closed spec fn config(self) -> GraphQLConfigView {
        self.config@
    }

    /// The names under which the registry has a batch resolver.
    pub closed spec fn batch(self) -> Set<Seq<char>> {
        self.registry.batch_names()
    }

    /// A detector that reads, and does not change, the two.
    pub fn new(config: &'a GraphQLConfig, registry: &'a TraitRegistry<R, B>) -> (detector: Self)
        ensures
            detector.config() == config@,
            detector.batch() == registry.batch_names(),
    {
        N1Detector { config, registry }
    }

    /// Walks the configuration from the query root. The outcome is `Ok` where
    /// the walk finds no violation, and else all violations, in the order of
    /// the walk.
    pub fn detect(self) -> (outcome: Result<(), Vec<N1Error>>)
        ensures
            match outcome {
                Ok(()) => violations(self.config(), self.batch()).len() == 0,
                Err(errors) => errors.deep_view() == violations(self.config(), self.batch())
                    && errors@.len() > 0,
            },
    {
        let mut errors: Vec<N1Error> = Vec::new();
        if self.config.types.is_empty() {
            return Ok(());
        }
        if let Some(query_type) = &self.config.query_type {
            let mut visited = NameSet::new();
            let mut path: Vec<String> = Vec::new();
            path.push(query_type.clone());
            assert(path.deep_view() =~= seq![query_type@]);
            self.traverse(query_type.as_str(), path, &mut visited, &mut errors);
        }
        if errors.len() == 0 {
            Ok(())
        } else {
            Err(errors)
        }
    }

    /// Enters a type by `path`, unless the configuration does not model it or
    /// it is on the current path, and visits its fields in order. The types
    /// on the current path are the same after the call as before.
    fn traverse(
        &self,
        owner: &str,
        path: Vec<String>,
        visited: &mut NameSet,
        errors: &mut Vec<N1Error>,
    )
        requires
            self.config@.types.dom().finite(),
        ensures
            final(visited)@ == old(visited)@,
            final(errors).deep_view() == old(errors).deep_view() + type_violations(
                self.config@,
                self.registry.batch_names(),
                owner@,
                path.deep_view(),
                old(visited)@,
            ),
        decreases open_types(self.config@, old(visited)@).len(),
    {
        let ghost config = self.config@;
        let ghost batch = self.registry.batch_names();
        let ghost before = errors.deep_view();
        let ghost entered = visited@;
        let type_config = match self.config.types.get(owner) {
            Some(type_config) => type_config,
            None => {
                return ;
            },
        };
        if visited.contains(owner) {
            return ;
        }
        visited.insert(owner.to_owned());
        proof {
            lemma_entering_shrinks(config, entered, owner@);
        }
        let ghost on_path = visited@;
        let mut i: usize = 0;
        while i < type_config.fields.len()
            invariant
                i <= type_config.fields.len(),
                config == self.config@,
                batch == self.registry.batch_names(),
                config.types.dom().finite(),
                config.types.contains_key(owner@),
                type_config@ == config.types[owner@],
                on_path == entered.insert(owner@),
                visited@ == on_path,
                open_types(config, on_path).len() < open_types(config, entered).len(),
                entered == old(visited)@,
                errors.deep_view() + walk_violations(
                    config,
                    batch,
                    owner@,
                    path.deep_view(),
                    on_path,
                    i as nat,
                ) == before + walk_violations(config, batch, owner@, path.deep_view(), on_path, 0),
            decreases type_config.fields.len() - i,
        {
            let field = &type_config.fields[i];
            let mut field_path = clone_path(&path);
            field_path.push(field.name.clone());
            assert(field_path.deep_view() =~= path.deep_view().push(field@.name));
            self.check_field(owner, field, &field_path, errors);
            if let Some(inner) = field.field_type.inner_type_name() {
                if self.config.types.contains_key(inner) {
                    self.traverse(inner, field_path, visited, errors);
                }
            }
            i += 1;
        }
        visited.remove(owner);
    }

    /// Visits a field reached by `path`, and reports it where it is a risk.
    fn check_field(
        &self,
        parent_type: &str,
        field: &FieldConfig,
        path: &Vec<String>,
        errors: &mut Vec<N1Error>,
    )
        ensures
            final(errors).deep_view() == old(errors).deep_view() + field_violations(
                self.config@,
                self.registry.batch_names(),
                parent_type@,
                field@,
                path.deep_view(),
            ),
    {
        let resolver = match &field.resolver {
            Some(resolver) => resolver,
            None => {
                return ;
            },
        };
        let in_list_context = self.is_in_list_context(path);
        let is_batched = resolver.is_batched() || self.registry.has_batch_resolver(
            resolver.resolver_name(),
        );
        if in_list_context && !is_batched {
            let mut message = "Field '".to_owned();
            message.append(field.name.as_str());
            message.append("' on type '");
            message.append(parent_type);
            message.append(
                "' has a resolver in list context without batching. Add @batchKey directive or use a BatchResolver.",
            );
            let error = N1Error {
                path: clone_path(path),
                field_name: field.name.clone(),
                parent_type: parent_type.to_owned(),
                message,
            };
            errors.push(error);
        }
    }

    /// Whether the field at the end of `path` is in list context.
    fn is_in_list_context(&self, path: &Vec<String>) -> (in_list: bool)
        ensures
            in_list == in_list_context(self.config@, path.deep_view()),
    {
        if path.len() < 2 {
            return false;
        }
        let mut current: &str = self.config.query_root();
        let mut i: usize = 1;
        while i < path.len() - 1
            invariant
                1 <= i <= path.len() - 1,
                in_list_context(self.config@, path.deep_view()) == list_on_walk(
                    self.config@,
                    current@,
                    path.deep_view(),
                    i as int,
                ),
            decreases path.len() - i,
        {
            let type_config = match self.config.types.get(current) {
                Some(type_config) => type_config,
                None => {
                    return false;
                },
            };
            let field = match find_field(&type_config.fields, path[i].as_str()) {
                Some(field) => field,
                None => {
                    return false;
                },
            };
            if field.field_type.is_list() {
                return true;
            }
            if let Some(inner) = field.field_type.inner_type_name() {
                if self.config.types.contains_key(inner) {
                    current = inner;
                }
            }
            i += 1;
        }
        false
    }
}

} // verus!
