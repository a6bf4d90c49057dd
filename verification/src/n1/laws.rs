//! What holds of the violations of every configuration.

use crate::config::{FieldConfigView, GraphQLConfigView};
use crate::error::N1ErrorView;
use crate::n1::model::{
    field_named, field_violations, in_list_context, is_violation, lemma_entering_shrinks,
    list_on_walk, open_types, type_after, type_violations, violation_message,
    violation_of, violations, walk_violations,
};
use vstd::prelude::*;

verus! {

/// Whether `error` is what a visit of `field` by the path of the error
/// reports: the field is a risk there, and the error carries the field's
/// name and the message for it.
pub open spec fn reports_field(
    config: GraphQLConfigView,
    batch: Set<Seq<char>>,
    error: N1ErrorView,
    field: FieldConfigView,
) -> bool {
    &&& error.field_name == field.name
    &&& error.path.len() > 0
    &&& error.path.last() == field.name
    &&& error.message == violation_message(field.name, error.parent_type)
    &&& is_violation(config, batch, field, error.path)
}

/// Whether `error` is the report of some field of its parent type.
pub open spec fn is_justified(
    config: GraphQLConfigView,
    batch: Set<Seq<char>>,
    error: N1ErrorView,
) -> bool {
    &&& config.types.contains_key(error.parent_type)
    &&& exists|k: int|
        0 <= k < config.types[error.parent_type].fields.len() && reports_field(
            config,
            batch,
            error,
            #[trigger] config.types[error.parent_type].fields[k],
        )
}

/// Every violation that the walk of a type reports is the report of a field.
proof fn lemma_walk_is_justified(
    config: GraphQLConfigView,
    batch: Set<Seq<char>>,
    owner: Seq<char>,
    path: Seq<Seq<char>>,
    on_path: Set<Seq<char>>,
    i: nat,
    n: int,
)
    requires
        config.types.dom().finite(),
        config.types.contains_key(owner),
        0 <= n < walk_violations(config, batch, owner, path, on_path, i).len(),
    ensures
        is_justified(config, batch, walk_violations(config, batch, owner, path, on_path, i)[n]),
    decreases open_types(config, on_path).len(), config.types[owner].fields.len() - i,
{
    let fields = config.types[owner].fields;
    if i < fields.len() {
        let field = fields[i as int];
        let field_path = path.push(field.name);
        let inner = field.field_type.inner_type_name();
        let at_field = field_violations(config, batch, owner, field, field_path);
        let enters = config.types.contains_key(inner) && !on_path.contains(inner);
        let below = if enters {
            walk_violations(config, batch, inner, field_path, on_path.insert(inner), 0)
        } else {
            Seq::empty()
        };
        let after = walk_violations(config, batch, owner, path, on_path, i + 1);
        assert(walk_violations(config, batch, owner, path, on_path, i) == at_field + below + after);
        if n < at_field.len() {
            assert(reports_field(config, batch, at_field[n], fields[i as int]));
        } else if n < at_field.len() + below.len() {
            lemma_entering_shrinks(config, on_path, inner);
            lemma_walk_is_justified(
                config,
                batch,
                inner,
                field_path,
                on_path.insert(inner),
                0,
                n - at_field.len(),
            );
        } else {
            lemma_walk_is_justified(
                config,
                batch,
                owner,
                path,
                on_path,
                i + 1,
                n - at_field.len() - below.len(),
            );
        }
    }
}

/// Every reported violation is the report of a field of its parent type:
/// the field has that name, it is a risk on the path of the violation, and
/// the message is the one for it.
pub proof fn lemma_violations_are_justified(
    config: GraphQLConfigView,
    batch: Set<Seq<char>>,
    n: int,
)
    requires
        config.types.dom().finite(),
        0 <= n < violations(config, batch).len(),
    ensures
        is_justified(config, batch, violations(config, batch)[n]),
{
    let root = config.query_type->0;
    lemma_walk_is_justified(config, batch, root, seq![root], Set::empty().insert(root), 0, n);
}

/// The type on which the walk along `path` looks its segment `at` up: the
/// root type for the first field, and after a field its inner type where
/// the configuration models it.
pub open spec fn walk_owner(config: GraphQLConfigView, path: Seq<Seq<char>>, at: int) -> Seq<char>
    decreases at,
{
    if at <= 1 {
        config.query_root()
    } else {
        let before = walk_owner(config, path, at - 1);
        if config.types.contains_key(before) {
            match field_named(config.types[before].fields, path[at - 1]) {
                Some(field) => type_after(config, before, field),
                None => before,
            }
        } else {
            before
        }
    }
}

/// The field that the segment `at` of `path` names on the type where the
/// walk looks it up.
pub open spec fn walk_field(config: GraphQLConfigView, path: Seq<Seq<char>>, at: int) -> Option<
    FieldConfigView,
> {
    if 1 <= at < path.len() && config.types.contains_key(walk_owner(config, path, at)) {
        field_named(config.types[walk_owner(config, path, at)].fields, path[at])
    } else {
        None
    }
}

/// Whether the segment `at` of `path` names a list-shaped field.
pub open spec fn is_list_at(config: GraphQLConfigView, path: Seq<Seq<char>>, at: int) -> bool {
    match walk_field(config, path, at) {
        Some(field) => field.field_type.is_list(),
        None => false,
    }
}

/// Whether some field before the last on `path`, from the segment `from`
/// on, is list-shaped.
pub open spec fn has_list_ancestor(config: GraphQLConfigView, path: Seq<Seq<char>>, from: int) -> bool {
    exists|k: int| from <= k < path.len() - 1 && #[trigger] is_list_at(config, path, k)
}

/// A walk that meets a list-shaped field meets it at a field before the last.
proof fn lemma_list_on_walk_has_list_ancestor(
    config: GraphQLConfigView,
    path: Seq<Seq<char>>,
    from: int,
)
    requires
        1 <= from,
        list_on_walk(config, walk_owner(config, path, from), path, from),
    ensures
        has_list_ancestor(config, path, from),
    decreases path.len() - from,
{
    let current = walk_owner(config, path, from);
    let field = field_named(config.types[current].fields, path[from])->0;
    if field.field_type.is_list() {
        assert(is_list_at(config, path, from));
    } else {
        assert(walk_owner(config, path, from + 1) == type_after(config, current, field));
        lemma_list_on_walk_has_list_ancestor(config, path, from + 1);
        let k = choose|k: int| from + 1 <= k < path.len() - 1 && #[trigger] is_list_at(config, path, k);
        assert(from <= k && is_list_at(config, path, k));
    }
}

/// List-context detection: every reported violation has, before its last
/// segment, a segment whose field is list-shaped. So a field whose ancestors
/// on the path are all non-list is never reported, whatever its own shape
/// and batching.
pub proof fn lemma_violations_have_list_ancestor(
    config: GraphQLConfigView,
    batch: Set<Seq<char>>,
    n: int,
)
    requires
        config.types.dom().finite(),
        0 <= n < violations(config, batch).len(),
    ensures
        in_list_context(config, violations(config, batch)[n].path),
        has_list_ancestor(config, violations(config, batch)[n].path, 1),
{
    lemma_violations_are_justified(config, batch, n);
    lemma_list_on_walk_has_list_ancestor(config, violations(config, batch)[n].path, 1);
}

/// Batching escape hatches: a reported violation is of a field with a
/// resolver whose binding declares no batch key and under whose name no
/// batch resolver is registered. So a field with a batch key is never
/// reported, nor one whose resolver name has a batch resolver.
pub proof fn lemma_violations_are_unbatched(
    config: GraphQLConfigView,
    batch: Set<Seq<char>>,
    n: int,
)
    requires
        config.types.dom().finite(),
        0 <= n < violations(config, batch).len(),
    ensures
        ({
            let error = violations(config, batch)[n];
            &&& config.types.contains_key(error.parent_type)
            &&& exists|k: int|
                #![trigger config.types[error.parent_type].fields[k]]
                {
                    let field = config.types[error.parent_type].fields[k];
                    &&& 0 <= k < config.types[error.parent_type].fields.len()
                    &&& field.name == error.field_name
                    &&& field.resolver matches Some(resolver)
                    &&& !resolver.is_batched()
                    &&& !batch.contains(resolver.resolver_name())
                }
        }),
{
    lemma_violations_are_justified(config, batch, n);
    let error = violations(config, batch)[n];
    let k = choose|k: int|
        0 <= k < config.types[error.parent_type].fields.len() && reports_field(
            config,
            batch,
            error,
            #[trigger] config.types[error.parent_type].fields[k],
        );
    assert(config.types[error.parent_type].fields[k].name == error.field_name);
}

/// Batching escape hatches: one visit of a resolver-backed field in list
/// context reports nothing where the binding declares a batch key or a batch
/// resolver is registered under the resolver's name, and else exactly one
/// violation, which carries the field's name, its parent type and the path.
pub proof fn lemma_visit_reports_once(
    config: GraphQLConfigView,
    batch: Set<Seq<char>>,
    parent_type: Seq<char>,
    field: FieldConfigView,
    path: Seq<Seq<char>>,
)
    requires
        field.resolver is Some,
        in_list_context(config, path),
    ensures
        ({
            let resolver = field.resolver->0;
            let reported = field_violations(config, batch, parent_type, field, path);
            if resolver.is_batched() || batch.contains(resolver.resolver_name()) {
                reported.len() == 0
            } else {
                &&& reported.len() == 1
                &&& reported[0].field_name == field.name
                &&& reported[0].parent_type == parent_type
                &&& reported[0].path == path
            }
        }),
{
}

/// Cycle safety: a type that is on the current path is not entered again,
/// so the walk reports nothing for it there.
pub proof fn lemma_type_on_path_is_not_reentered(
    config: GraphQLConfigView,
    batch: Set<Seq<char>>,
    owner: Seq<char>,
    path: Seq<Seq<char>>,
    on_path: Set<Seq<char>>,
)
    requires
        on_path.contains(owner),
    ensures
        type_violations(config, batch, owner, path, on_path).len() == 0,
{
}

/// Cycle safety: a configuration in which no field has a resolver has no
/// violations, whatever cycles its types form.
pub proof fn lemma_no_resolvers_no_violations(config: GraphQLConfigView, batch: Set<Seq<char>>)
    requires
        config.types.dom().finite(),
        forall|owner: Seq<char>, k: int|
            config.types.contains_key(owner) && 0 <= k < config.types[owner].fields.len()
                ==> (#[trigger] config.types[owner].fields[k]).resolver is None,
    ensures
        violations(config, batch).len() == 0,
{
    if violations(config, batch).len() > 0 {
        lemma_violations_are_justified(config, batch, 0);
    }
}

/// Whether `steps` are the places of the fields of a walk that the detector
/// makes from the fields of `owner`: each step takes a field of the type the
/// walk stands on, and every step but the last enters the field's inner
/// type, which the configuration models and which is not on the current
/// path.
pub open spec fn is_walk(
    config: GraphQLConfigView,
    owner: Seq<char>,
    on_path: Set<Seq<char>>,
    steps: Seq<int>,
) -> bool
    decreases steps.len(),
{
    &&& steps.len() > 0
    &&& config.types.contains_key(owner)
    &&& 0 <= steps[0] < config.types[owner].fields.len()
    &&& steps.len() > 1 ==> {
        let inner = config.types[owner].fields[steps[0]].field_type.inner_type_name();
        &&& config.types.contains_key(inner)
        &&& !on_path.contains(inner)
        &&& is_walk(config, inner, on_path.insert(inner), steps.drop_first())
    }
}

/// Whether the field at the end of a walk is a risk on the path of the walk.
pub open spec fn walk_ends_in_risk(
    config: GraphQLConfigView,
    batch: Set<Seq<char>>,
    owner: Seq<char>,
    path: Seq<Seq<char>>,
    steps: Seq<int>,
) -> bool
    decreases steps.len(),
{
    let field = config.types[owner].fields[steps[0]];
    if steps.len() <= 1 {
        is_violation(config, batch, field, path.push(field.name))
    } else {
        walk_ends_in_risk(
            config,
            batch,
            field.field_type.inner_type_name(),
            path.push(field.name),
            steps.drop_first(),
        )
    }
}

/// The record of the violation of the field at the end of a walk.
pub open spec fn walk_report(
    config: GraphQLConfigView,
    owner: Seq<char>,
    path: Seq<Seq<char>>,
    steps: Seq<int>,
) -> N1ErrorView
    decreases steps.len(),
{
    let field = config.types[owner].fields[steps[0]];
    if steps.len() <= 1 {
        violation_of(owner, field, path.push(field.name))
    } else {
        walk_report(
            config,
            field.field_type.inner_type_name(),
            path.push(field.name),
            steps.drop_first(),
        )
    }
}

/// What one of three parts holds, their concatenation holds.
proof fn lemma_parts_contain<A>(first: Seq<A>, second: Seq<A>, third: Seq<A>, item: A)
    requires
        first.contains(item) || second.contains(item) || third.contains(item),
    ensures
        (first + second + third).contains(item),
{
    let all = first + second + third;
    if first.contains(item) {
        let n = choose|n: int| 0 <= n < first.len() && first[n] == item;
        assert(all[n] == item);
    } else if second.contains(item) {
        let n = choose|n: int| 0 <= n < second.len() && second[n] == item;
        assert(all[first.len() + n] == item);
    } else {
        let n = choose|n: int| 0 <= n < third.len() && third[n] == item;
        assert(all[first.len() + second.len() + n] == item);
    }
}

/// The walk of the fields of a type from the `i`-th on reports the risk at
/// the end of every walk that starts at one of these fields.
proof fn lemma_walk_reports_risk(
    config: GraphQLConfigView,
    batch: Set<Seq<char>>,
    owner: Seq<char>,
    path: Seq<Seq<char>>,
    on_path: Set<Seq<char>>,
    i: nat,
    steps: Seq<int>,
)
    requires
        config.types.dom().finite(),
        is_walk(config, owner, on_path, steps),
        i <= steps[0],
        walk_ends_in_risk(config, batch, owner, path, steps),
    ensures
        walk_violations(config, batch, owner, path, on_path, i).contains(
            walk_report(config, owner, path, steps),
        ),
    decreases steps.len(), steps[0] - i,
{
    let fields = config.types[owner].fields;
    let field = fields[i as int];
    let field_path = path.push(field.name);
    let inner = field.field_type.inner_type_name();
    let at_field = field_violations(config, batch, owner, field, field_path);
    let enters = config.types.contains_key(inner) && !on_path.contains(inner);
    let below = if enters {
        walk_violations(config, batch, inner, field_path, on_path.insert(inner), 0)
    } else {
        Seq::empty()
    };
    let after = walk_violations(config, batch, owner, path, on_path, i + 1);
    let report = walk_report(config, owner, path, steps);
    assert(walk_violations(config, batch, owner, path, on_path, i) == at_field + below + after);
    if i < steps[0] {
        lemma_walk_reports_risk(config, batch, owner, path, on_path, i + 1, steps);
    } else if steps.len() == 1 {
        assert(at_field[0] == report);
    } else {
        assert(0 <= steps.drop_first()[0]) by {
            reveal_with_fuel(is_walk, 2);
        }
        lemma_walk_reports_risk(
            config,
            batch,
            inner,
            field_path,
            on_path.insert(inner),
            0,
            steps.drop_first(),
        );
    }
    lemma_parts_contain(at_field, below, after, report);
}

/// Every risk that the walk from the query root visits is reported: where
/// `steps` is a walk from the root and the field at its end is a risk on
/// the path of the walk, the violations hold its record.
pub proof fn lemma_visited_risk_is_reported(
    config: GraphQLConfigView,
    batch: Set<Seq<char>>,
    steps: Seq<int>,
)
    requires
        config.types.dom().finite(),
        config.query_type is Some,
        is_walk(config, config.query_type->0, set![config.query_type->0], steps),
        walk_ends_in_risk(config, batch, config.query_type->0, seq![config.query_type->0], steps),
    ensures
        violations(config, batch).contains(
            walk_report(config, config.query_type->0, seq![config.query_type->0], steps),
        ),
{
    let root = config.query_type->0;
    assert(set![root] =~= Set::empty().insert(root));
    lemma_walk_reports_risk(config, batch, root, seq![root], set![root], 0, steps);
}

/// Whether no type of the configuration has two fields of the same name.
pub open spec fn has_distinct_field_names(config: GraphQLConfigView) -> bool {
    forall|owner: Seq<char>, a: int, b: int|
        #![trigger config.types[owner].fields[a], config.types[owner].fields[b]]
        config.types.contains_key(owner) && 0 <= a < b < config.types[owner].fields.len()
            ==> config.types[owner].fields[a].name != config.types[owner].fields[b].name
}

/// Whether `path` goes on from `stem` with the name of one of the fields of
/// `owner` from the `i`-th on.
pub open spec fn goes_on_from(
    config: GraphQLConfigView,
    owner: Seq<char>,
    stem: Seq<Seq<char>>,
    i: nat,
    path: Seq<Seq<char>>,
) -> bool {
    &&& path.len() > stem.len()
    &&& path.subrange(0, stem.len() as int) == stem
    &&& exists|k: int|
        i <= k < config.types[owner].fields.len() && (#[trigger] config.types[owner].fields[k]).name
            == path[stem.len() as int]
}

/// The path of every violation that the walk of a type reports goes on from
/// the path to the type with the name of one of the fields walked.
proof fn lemma_walk_paths_go_on(
    config: GraphQLConfigView,
    batch: Set<Seq<char>>,
    owner: Seq<char>,
    path: Seq<Seq<char>>,
    on_path: Set<Seq<char>>,
    i: nat,
    n: int,
)
    requires
        config.types.dom().finite(),
        config.types.contains_key(owner),
        0 <= n < walk_violations(config, batch, owner, path, on_path, i).len(),
    ensures
        goes_on_from(
            config,
            owner,
            path,
            i,
            walk_violations(config, batch, owner, path, on_path, i)[n].path,
        ),
    decreases open_types(config, on_path).len(), config.types[owner].fields.len() - i,
{
    let fields = config.types[owner].fields;
    if i < fields.len() {
        let field = fields[i as int];
        let field_path = path.push(field.name);
        let inner = field.field_type.inner_type_name();
        let at_field = field_violations(config, batch, owner, field, field_path);
        let enters = config.types.contains_key(inner) && !on_path.contains(inner);
        let below = if enters {
            walk_violations(config, batch, inner, field_path, on_path.insert(inner), 0)
        } else {
            Seq::empty()
        };
        let after = walk_violations(config, batch, owner, path, on_path, i + 1);
        let all = walk_violations(config, batch, owner, path, on_path, i);
        assert(all == at_field + below + after);
        let found = all[n].path;
        if n < at_field.len() {
            assert(found == field_path);
            assert(found.subrange(0, path.len() as int) =~= path);
            assert(fields[i as int].name == found[path.len() as int]);
        } else if n < at_field.len() + below.len() {
            lemma_entering_shrinks(config, on_path, inner);
            lemma_walk_paths_go_on(
                config,
                batch,
                inner,
                field_path,
                on_path.insert(inner),
                0,
                n - at_field.len(),
            );
            assert(found.subrange(0, field_path.len() as int) == field_path);
            assert(found.subrange(0, path.len() as int) =~= found.subrange(
                0,
                field_path.len() as int,
            ).subrange(0, path.len() as int));
            assert(field_path.subrange(0, path.len() as int) =~= path);
            assert(found[path.len() as int] == found.subrange(0, field_path.len() as int)[path.len() as int]);
            assert(fields[i as int].name == found[path.len() as int]);
        } else {
            lemma_walk_paths_go_on(
                config,
                batch,
                owner,
                path,
                on_path,
                i + 1,
                n - at_field.len() - below.len(),
            );
            let k = choose|k: int|
                i + 1 <= k < fields.len() && (#[trigger] fields[k]).name == found[path.len() as int];
            assert(i <= k && fields[k].name == found[path.len() as int]);
        }
    }
}

/// Where no type has two fields of the same name, no two violations that the
/// walk of a type reports have the same path.
proof fn lemma_walk_paths_differ(
    config: GraphQLConfigView,
    batch: Set<Seq<char>>,
    owner: Seq<char>,
    path: Seq<Seq<char>>,
    on_path: Set<Seq<char>>,
    i: nat,
    a: int,
    b: int,
)
    requires
        config.types.dom().finite(),
        has_distinct_field_names(config),
        config.types.contains_key(owner),
        0 <= a < b < walk_violations(config, batch, owner, path, on_path, i).len(),
    ensures
        walk_violations(config, batch, owner, path, on_path, i)[a].path != walk_violations(
            config,
            batch,
            owner,
            path,
            on_path,
            i,
        )[b].path,
    decreases open_types(config, on_path).len(), config.types[owner].fields.len() - i,
{
    let fields = config.types[owner].fields;
    if i < fields.len() {
        let field = fields[i as int];
        let field_path = path.push(field.name);
        let inner = field.field_type.inner_type_name();
        let at_field = field_violations(config, batch, owner, field, field_path);
        let enters = config.types.contains_key(inner) && !on_path.contains(inner);
        let below = if enters {
            walk_violations(config, batch, inner, field_path, on_path.insert(inner), 0)
        } else {
            Seq::empty()
        };
        let after = walk_violations(config, batch, owner, path, on_path, i + 1);
        let all = walk_violations(config, batch, owner, path, on_path, i);
        assert(all == at_field + below + after);
        let here = at_field.len() as int;
        let under = here + below.len();
        lemma_walk_paths_go_on(config, batch, owner, path, on_path, i, a);
        lemma_walk_paths_go_on(config, batch, owner, path, on_path, i, b);
        if b < under {
            // the second is under the field, so the first is the field itself or under it
            lemma_entering_shrinks(config, on_path, inner);
            lemma_walk_paths_go_on(config, batch, inner, field_path, on_path.insert(inner), 0, b - here);
            if a < here {
                assert(all[a].path.len() == field_path.len());
            } else {
                lemma_walk_paths_differ(
                    config,
                    batch,
                    inner,
                    field_path,
                    on_path.insert(inner),
                    0,
                    a - here,
                    b - here,
                );
            }
        } else if a < under {
            // the first goes on with the name of this field, the second with that of a later one
            lemma_walk_paths_go_on(config, batch, owner, path, on_path, i + 1, b - under);
            let k = choose|k: int|
                i + 1 <= k < fields.len() && (#[trigger] fields[k]).name == all[b].path[path.len() as int];
            assert(fields[i as int].name != fields[k].name);
            if a < here {
                assert(all[a].path[path.len() as int] == field.name);
            } else {
                lemma_entering_shrinks(config, on_path, inner);
                lemma_walk_paths_go_on(
                    config,
                    batch,
                    inner,
                    field_path,
                    on_path.insert(inner),
                    0,
                    a - here,
                );
                assert(all[a].path.subrange(0, field_path.len() as int)[path.len() as int]
                    == field.name);
            }
        } else {
            lemma_walk_paths_differ(config, batch, owner, path, on_path, i + 1, a - under, b - under);
        }
    }
}

/// Where no type has two fields of the same name, no two violations have the
/// same path: a risk is reported once, not more often.
pub proof fn lemma_violation_paths_differ(
    config: GraphQLConfigView,
    batch: Set<Seq<char>>,
    a: int,
    b: int,
)
    requires
        config.types.dom().finite(),
        has_distinct_field_names(config),
        0 <= a < b < violations(config, batch).len(),
    ensures
        violations(config, batch)[a].path != violations(config, batch)[b].path,
{
    let root = config.query_type->0;
    lemma_walk_paths_differ(config, batch, root, seq![root], Set::empty().insert(root), 0, a, b);
}

/// The path of a walk: `stem`, which leads to `owner`, and then the names
/// of the fields that the steps take.
pub open spec fn walk_path(
    config: GraphQLConfigView,
    owner: Seq<char>,
    stem: Seq<Seq<char>>,
    steps: Seq<int>,
) -> Seq<Seq<char>>
    decreases steps.len(),
{
    if steps.len() == 0 {
        stem
    } else {
        let field = config.types[owner].fields[steps[0]];
        walk_path(
            config,
            field.field_type.inner_type_name(),
            stem.push(field.name),
            steps.drop_first(),
        )
    }
}

/// Whether a walk takes a list-shaped field before its last step.
pub open spec fn has_list_step(config: GraphQLConfigView, owner: Seq<char>, steps: Seq<int>) -> bool
    decreases steps.len(),
{
    let field = config.types[owner].fields[steps[0]];
    steps.len() > 1 && (field.field_type.is_list() || has_list_step(
        config,
        field.field_type.inner_type_name(),
        steps.drop_first(),
    ))
}

/// The path of a walk starts with its stem, and has one more segment for
/// each step.
proof fn lemma_walk_path_extends_stem(
    config: GraphQLConfigView,
    owner: Seq<char>,
    stem: Seq<Seq<char>>,
    steps: Seq<int>,
)
    ensures
        walk_path(config, owner, stem, steps).len() == stem.len() + steps.len(),
        walk_path(config, owner, stem, steps).subrange(0, stem.len() as int) == stem,
    decreases steps.len(),
{
    if steps.len() == 0 {
        assert(stem.subrange(0, stem.len() as int) =~= stem);
    } else {
        let field = config.types[owner].fields[steps[0]];
        let longer = stem.push(field.name);
        let inner = field.field_type.inner_type_name();
        lemma_walk_path_extends_stem(config, inner, longer, steps.drop_first());
        let full = walk_path(config, owner, stem, steps);
        assert(full.subrange(0, stem.len() as int) =~= full.subrange(
            0,
            longer.len() as int,
        ).subrange(0, stem.len() as int));
        assert(longer.subrange(0, stem.len() as int) =~= stem);
    }
}

/// Among fields with distinct names, a name gives the field that has it.
proof fn lemma_field_named_finds(fields: Seq<FieldConfigView>, k: int)
    requires
        0 <= k < fields.len(),
        forall|a: int, b: int| 0 <= a < b < fields.len() ==> fields[a].name != fields[b].name,
    ensures
        field_named(fields, fields[k].name) == Some(fields[k]),
    decreases k,
{
    if k > 0 {
        let rest = fields.drop_first();
        assert(fields[0].name != fields[k].name);
        assert forall|a: int, b: int| 0 <= a < b < rest.len() implies rest[a].name
            != rest[b].name by {
            assert(fields[a + 1].name != fields[b + 1].name);
        }
        lemma_field_named_finds(rest, k - 1);
    }
}

/// Where no type has two fields of the same name, looking the path of a walk
/// up by name meets a list-shaped field exactly where the walk takes one
/// before its last step.
proof fn lemma_list_on_walk_of_steps(
    config: GraphQLConfigView,
    owner: Seq<char>,
    on_path: Set<Seq<char>>,
    stem: Seq<Seq<char>>,
    steps: Seq<int>,
)
    requires
        has_distinct_field_names(config),
        is_walk(config, owner, on_path, steps),
        stem.len() >= 1,
    ensures
        list_on_walk(config, owner, walk_path(config, owner, stem, steps), stem.len() as int)
            == has_list_step(config, owner, steps),
    decreases steps.len(),
{
    let fields = config.types[owner].fields;
    let field = fields[steps[0]];
    let longer = stem.push(field.name);
    let inner = field.field_type.inner_type_name();
    let full = walk_path(config, owner, stem, steps);
    lemma_walk_path_extends_stem(config, owner, stem, steps);
    lemma_walk_path_extends_stem(config, inner, longer, steps.drop_first());
    if steps.len() > 1 {
        assert(full[stem.len() as int] == full.subrange(0, longer.len() as int)[stem.len() as int]);
        assert(full[stem.len() as int] == field.name);
        assert forall|a: int, b: int| 0 <= a < b < fields.len() implies fields[a].name
            != fields[b].name by {
            assert(config.types[owner].fields[a].name != config.types[owner].fields[b].name);
        }
        lemma_field_named_finds(fields, steps[0]);
        assert(type_after(config, owner, field) == inner);
        lemma_list_on_walk_of_steps(config, inner, on_path.insert(inner), longer, steps.drop_first());
    }
}

/// The field at the end of a walk is a risk only where the path of the walk
/// is in list context.
proof fn lemma_risk_is_in_list_context(
    config: GraphQLConfigView,
    batch: Set<Seq<char>>,
    owner: Seq<char>,
    stem: Seq<Seq<char>>,
    steps: Seq<int>,
)
    requires
        steps.len() > 0,
        walk_ends_in_risk(config, batch, owner, stem, steps),
    ensures
        in_list_context(config, walk_path(config, owner, stem, steps)),
        walk_report(config, owner, stem, steps).path == walk_path(config, owner, stem, steps),
    decreases steps.len(),
{
    let field = config.types[owner].fields[steps[0]];
    if steps.len() > 1 {
        lemma_risk_is_in_list_context(
            config,
            batch,
            field.field_type.inner_type_name(),
            stem.push(field.name),
            steps.drop_first(),
        );
    } else {
        reveal_with_fuel(walk_path, 2);
    }
}

/// The walk behind a violation that the walk of a type reports.
proof fn lemma_walk_of_violation(
    config: GraphQLConfigView,
    batch: Set<Seq<char>>,
    owner: Seq<char>,
    path: Seq<Seq<char>>,
    on_path: Set<Seq<char>>,
    i: nat,
    n: int,
) -> (steps: Seq<int>)
    requires
        config.types.dom().finite(),
        config.types.contains_key(owner),
        0 <= n < walk_violations(config, batch, owner, path, on_path, i).len(),
    ensures
        is_walk(config, owner, on_path, steps),
        i <= steps[0],
        walk_ends_in_risk(config, batch, owner, path, steps),
        walk_report(config, owner, path, steps) == walk_violations(
            config,
            batch,
            owner,
            path,
            on_path,
            i,
        )[n],
    decreases open_types(config, on_path).len(), config.types[owner].fields.len() - i,
{
    let fields = config.types[owner].fields;
    let field = fields[i as int];
    let field_path = path.push(field.name);
    let inner = field.field_type.inner_type_name();
    let at_field = field_violations(config, batch, owner, field, field_path);
    let enters = config.types.contains_key(inner) && !on_path.contains(inner);
    let below = if enters {
        walk_violations(config, batch, inner, field_path, on_path.insert(inner), 0)
    } else {
        Seq::empty()
    };
    let after = walk_violations(config, batch, owner, path, on_path, i + 1);
    assert(walk_violations(config, batch, owner, path, on_path, i) == at_field + below + after);
    if n < at_field.len() {
        seq![i as int]
    } else if n < at_field.len() + below.len() {
        lemma_entering_shrinks(config, on_path, inner);
        let rest = lemma_walk_of_violation(
            config,
            batch,
            inner,
            field_path,
            on_path.insert(inner),
            0,
            n - at_field.len(),
        );
        let steps = seq![i as int] + rest;
        assert(steps.drop_first() =~= rest);
        steps
    } else {
        lemma_walk_of_violation(
            config,
            batch,
            owner,
            path,
            on_path,
            i + 1,
            n - at_field.len() - below.len(),
        )
    }
}

/// Every reported violation is at the end of a walk from the query root: the
/// walk ends in a risk, and the violation is its record.
pub proof fn lemma_violation_is_at_end_of_walk(
    config: GraphQLConfigView,
    batch: Set<Seq<char>>,
    n: int,
) -> (steps: Seq<int>)
    requires
        config.types.dom().finite(),
        0 <= n < violations(config, batch).len(),
    ensures
        config.query_type is Some,
        is_walk(config, config.query_type->0, set![config.query_type->0], steps),
        walk_ends_in_risk(config, batch, config.query_type->0, seq![config.query_type->0], steps),
        walk_report(config, config.query_type->0, seq![config.query_type->0], steps) == violations(
            config,
            batch,
        )[n],
{
    let root = config.query_type->0;
    assert(set![root] =~= Set::empty().insert(root));
    lemma_walk_of_violation(config, batch, root, seq![root], set![root], 0, n)
}

/// List-context detection: where no type has two fields of the same name, a
/// walk from the query root whose steps before the last are all non-list
/// does not end in a risk, and no violation has its path. So a
/// resolver-backed field that is reached only through non-list fields is
/// never reported, whatever its own shape and batching.
pub proof fn lemma_walk_through_non_list_is_not_reported(
    config: GraphQLConfigView,
    batch: Set<Seq<char>>,
    steps: Seq<int>,
)
    requires
        config.types.dom().finite(),
        has_distinct_field_names(config),
        config.query_type is Some,
        is_walk(config, config.query_type->0, set![config.query_type->0], steps),
        !has_list_step(config, config.query_type->0, steps),
    ensures
        !walk_ends_in_risk(config, batch, config.query_type->0, seq![config.query_type->0], steps),
        forall|n: int|
            0 <= n < violations(config, batch).len() ==> (#[trigger] violations(
                config,
                batch,
            )[n]).path != walk_path(
                config,
                config.query_type->0,
                seq![config.query_type->0],
                steps,
            ),
{
    let root = config.query_type->0;
    lemma_list_on_walk_of_steps(config, root, set![root], seq![root], steps);
    if walk_ends_in_risk(config, batch, root, seq![root], steps) {
        lemma_risk_is_in_list_context(config, batch, root, seq![root], steps);
    }
    assert forall|n: int| 0 <= n < violations(config, batch).len() implies (#[trigger] violations(
        config,
        batch,
    )[n]).path != walk_path(config, root, seq![root], steps) by {
        lemma_violations_have_list_ancestor(config, batch, n);
    }
}

/// List-context detection: where no type has two fields of the same name,
/// every reported violation is at the end of a walk from the query root that
/// takes a list-shaped field before its last step.
pub proof fn lemma_violation_is_below_a_list(
    config: GraphQLConfigView,
    batch: Set<Seq<char>>,
    n: int,
) -> (steps: Seq<int>)
    requires
        config.types.dom().finite(),
        has_distinct_field_names(config),
        0 <= n < violations(config, batch).len(),
    ensures
        config.query_type is Some,
        is_walk(config, config.query_type->0, set![config.query_type->0], steps),
        walk_report(config, config.query_type->0, seq![config.query_type->0], steps) == violations(
            config,
            batch,
        )[n],
        has_list_step(config, config.query_type->0, steps),
{
    let root = config.query_type->0;
    let steps = lemma_violation_is_at_end_of_walk(config, batch, n);
    lemma_risk_is_in_list_context(config, batch, root, seq![root], steps);
    lemma_list_on_walk_of_steps(config, root, set![root], seq![root], steps);
    steps
}

/// Batching escape hatches: where no type has two fields of the same name, a
/// risk at the end of a walk from the query root, which is a resolver-backed
/// field in list context with neither a batch key nor a registered batch
/// resolver, is reported exactly once: one violation is its record, with its
/// name, and no other violation has its path.
pub proof fn lemma_visited_risk_is_reported_once(
    config: GraphQLConfigView,
    batch: Set<Seq<char>>,
    steps: Seq<int>,
) -> (n: int)
    requires
        config.types.dom().finite(),
        has_distinct_field_names(config),
        config.query_type is Some,
        is_walk(config, config.query_type->0, set![config.query_type->0], steps),
        walk_ends_in_risk(config, batch, config.query_type->0, seq![config.query_type->0], steps),
    ensures
        0 <= n < violations(config, batch).len(),
        violations(config, batch)[n] == walk_report(
            config,
            config.query_type->0,
            seq![config.query_type->0],
            steps,
        ),
        forall|m: int|
            0 <= m < violations(config, batch).len() && m != n ==> (#[trigger] violations(
                config,
                batch,
            )[m]).path != violations(config, batch)[n].path,
{
    let root = config.query_type->0;
    let report = walk_report(config, root, seq![root], steps);
    lemma_visited_risk_is_reported(config, batch, steps);
    let n = choose|n: int| 0 <= n < violations(config, batch).len() && violations(config, batch)[n] == report;
    assert forall|m: int| 0 <= m < violations(config, batch).len() && m != n implies (
    #[trigger] violations(config, batch)[m]).path != violations(config, batch)[n].path by {
        if m < n {
            lemma_violation_paths_differ(config, batch, m, n);
        } else {
            lemma_violation_paths_differ(config, batch, n, m);
        }
    }
    n
}

} // verus!
