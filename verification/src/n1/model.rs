//! What the detector reports, as a function of the configuration and of the
//! names that have a batch resolver.

use crate::config::{FieldConfigView, GraphQLConfigView};
use crate::error::N1ErrorView;
use vstd::prelude::*;

verus! {

/// The first field of that name, if any.
pub open spec fn field_named(fields: Seq<FieldConfigView>, name: Seq<char>) -> Option<
    FieldConfigView,
>
    decreases fields.len(),
{
    if fields.len() == 0 {
        None
    } else if fields[0].name == name {
        Some(fields[0])
    } else {
        field_named(fields.drop_first(), name)
    }
}

/// The type on which the segment after `field` is looked up: the field's
/// inner type where the configuration models it, and `current` otherwise.
pub open spec fn type_after(
    config: GraphQLConfigView,
    current: Seq<char>,
    field: FieldConfigView,
) -> Seq<char> {
    if config.types.contains_key(field.field_type.inner_type_name()) {
        field.field_type.inner_type_name()
    } else {
        current
    }
}

/// Whether the walk along `path` from its segment `from`, which is looked up
/// on the type `current`, meets a list-shaped field before the last segment.
/// The walk ends without one where a type or a field is not found.
pub open spec fn list_on_walk(
    config: GraphQLConfigView,
    current: Seq<char>,
    path: Seq<Seq<char>>,
    from: int,
) -> bool
    decreases path.len() - from,
{
    if from < 1 || from >= path.len() - 1 {
        false
    } else if !config.types.contains_key(current) {
        false
    } else {
        match field_named(config.types[current].fields, path[from]) {
            None => false,
            Some(field) => field.field_type.is_list() || list_on_walk(
                config,
                type_after(config, current, field),
                path,
                from + 1,
            ),
        }
    }
}

/// Whether the field at the end of `path` is in list context: some field
/// before it on the path, looked up by name from the root type, is
/// list-shaped. The first segment of a path names the root itself, and the
/// field's own shape does not count.
pub open spec fn in_list_context(config: GraphQLConfigView, path: Seq<Seq<char>>) -> bool {
    list_on_walk(config, config.query_root(), path, 1)
}

/// The message of a violation.
pub open spec fn violation_message(field_name: Seq<char>, parent_type: Seq<char>) -> Seq<char> {
    "Field '"@ + field_name + "' on type '"@ + parent_type
        + "' has a resolver in list context without batching. Add @batchKey directive or use a BatchResolver."@
}

/// Whether a field reached by `path` is an N+1 risk: it has a resolver, it is
/// in list context, its binding declares no batch key, and no batch resolver
/// is registered under the resolver's name.
pub open spec fn is_violation(
    config: GraphQLConfigView,
    batch: Set<Seq<char>>,
    field: FieldConfigView,
    path: Seq<Seq<char>>,
) -> bool {
    match field.resolver {
        Some(resolver) => in_list_context(config, path) && !resolver.is_batched()
            && !batch.contains(resolver.resolver_name()),
        None => false,
    }
}

/// The record of a violation: the path, the field's name, the type that
/// declares the field, and the message for the two.
pub open spec fn violation_of(
    parent_type: Seq<char>,
    field: FieldConfigView,
    path: Seq<Seq<char>>,
) -> N1ErrorView {
    N1ErrorView {
        path,
        field_name: field.name,
        parent_type,
        message: violation_message(field.name, parent_type),
    }
}

/// What one visit of a field reports: one violation where the field is a
/// risk, and nothing otherwise.
pub open spec fn field_violations(
    config: GraphQLConfigView,
    batch: Set<Seq<char>>,
    parent_type: Seq<char>,
    field: FieldConfigView,
    path: Seq<Seq<char>>,
) -> Seq<N1ErrorView> {
    if is_violation(config, batch, field, path) {
        seq![violation_of(parent_type, field, path)]
    } else {
        Seq::empty()
    }
}

/// The types that the walk may still enter: those modeled and not on the
/// current path.
pub open spec fn open_types(config: GraphQLConfigView, on_path: Set<Seq<char>>) -> Set<Seq<char>> {
    config.types.dom().difference(on_path)
}

/// What the walk reports for the fields of `owner` from the `i`-th on,
/// in order: for each field what its visit reports, then what the walk of its
/// inner type reports, where the configuration models that type and it is not
/// on the current path. `path` leads to `owner`, and `on_path` holds the
/// types entered and not yet left, `owner` among them.
pub open spec fn walk_violations(
    config: GraphQLConfigView,
    batch: Set<Seq<char>>,
    owner: Seq<char>,
    path: Seq<Seq<char>>,
    on_path: Set<Seq<char>>,
    i: nat,
) -> Seq<N1ErrorView>
    decreases open_types(config, on_path).len(), config.types[owner].fields.len() - i,
    when config.types.dom().finite()
{
    let fields = config.types[owner].fields;
    if i >= fields.len() {
        Seq::empty()
    } else {
        let field = fields[i as int];
        let field_path = path.push(field.name);
        let inner = field.field_type.inner_type_name();
        let below = if config.types.contains_key(inner) && !on_path.contains(inner) {
            proof {
                lemma_entering_shrinks(config, on_path, inner);
            }
            walk_violations(config, batch, inner, field_path, on_path.insert(inner), 0)
        } else {
            Seq::empty()
        };
        field_violations(config, batch, owner, field, field_path) + below + walk_violations(
            config,
            batch,
            owner,
            path,
            on_path,
            i + 1,
        )
    }
}

/// Entering a modeled type that is not on the path leaves fewer types to enter.
pub proof fn lemma_entering_shrinks(
    config: GraphQLConfigView,
    on_path: Set<Seq<char>>,
    owner: Seq<char>,
)
    requires
        config.types.dom().finite(),
        config.types.contains_key(owner),
        !on_path.contains(owner),
    ensures
        open_types(config, on_path.insert(owner)).len() < open_types(config, on_path).len(),
{
    assert(open_types(config, on_path.insert(owner)) =~= open_types(config, on_path).remove(
        owner,
    ));
}

/// What the walk reports on entering a type by `path`: nothing where the
/// configuration does not model the type or the type is on the current path,
/// and else what its fields give.
pub open spec fn type_violations(
    config: GraphQLConfigView,
    batch: Set<Seq<char>>,
    owner: Seq<char>,
    path: Seq<Seq<char>>,
    on_path: Set<Seq<char>>,
) -> Seq<N1ErrorView> {
    if config.types.contains_key(owner) && !on_path.contains(owner) {
        walk_violations(config, batch, owner, path, on_path.insert(owner), 0)
    } else {
        Seq::empty()
    }
}

/// All violations of a configuration, in the order of the walk from the
/// query root. A configuration without a query root has none.
pub open spec fn violations(config: GraphQLConfigView, batch: Set<Seq<char>>) -> Seq<N1ErrorView> {
    match config.query_type {
        Some(root) => type_violations(config, batch, root, seq![root], Set::empty()),
        None => Seq::empty(),
    }
}

} // verus!
