//! The configuration model: types, fields and the resolver bound to each field.

use crate::json::{JsonValue, JsonView};
use crate::tables::{ArgumentMappings, TypeTable};
use vstd::prelude::*;

verus! {

/// The declared shape of a field or argument: a named type under any number of
/// list and non-null wrappers.
#[derive(Debug)]
pub enum FieldType {
    Named(String),
    List(Box<FieldType>),
    NonNull(Box<FieldType>),
}

/// Mathematical model of a [`FieldType`].
pub enum FieldTypeView {
    Named(Seq<char>),
    List(Box<FieldTypeView>),
    NonNull(Box<FieldTypeView>),
}

impl FieldTypeView {
    /// The terminal named type under all wrappers.
    pub open spec fn inner_type_name(self) -> Seq<char>
        decreases self,
    {
        match self {
            FieldTypeView::Named(name) => name,
            FieldTypeView::List(inner) => inner.inner_type_name(),
            FieldTypeView::NonNull(inner) => inner.inner_type_name(),
        }
    }

    /// Whether a list wrapper is met before the first name or list, looking
    /// through non-null wrappers only.
    pub open spec fn is_list(self) -> bool
        decreases self,
    {
        match self {
            FieldTypeView::Named(_) => false,
            FieldTypeView::List(_) => true,
            FieldTypeView::NonNull(inner) => inner.is_list(),
        }
    }
}

/// The model of a shape, by recursion on its wrappers.
pub open spec fn field_type_view(shape: FieldType) -> FieldTypeView
    decreases shape,
{
    match shape {
        FieldType::Named(name) => FieldTypeView::Named(name@),
        FieldType::List(inner) => FieldTypeView::List(Box::new(field_type_view(*inner))),
        FieldType::NonNull(inner) => FieldTypeView::NonNull(Box::new(field_type_view(*inner))),
    }
}

impl DeepView for FieldType {
    type V = FieldTypeView;

    open spec fn deep_view(&self) -> FieldTypeView {
        field_type_view(*self)
    }
}

impl View for FieldType {
    type V = FieldTypeView;

    open spec fn view(&self) -> FieldTypeView {
        field_type_view(*self)
    }
}

/// A copy of a shape, wrapper by wrapper.
pub fn clone_field_type(shape: &FieldType) -> (copy: FieldType)
    ensures
        copy@ == shape@,
    decreases shape,
{
    match shape {
        FieldType::Named(name) => FieldType::Named(name.clone()),
        FieldType::List(inner) => FieldType::List(Box::new(clone_field_type(inner))),
        FieldType::NonNull(inner) => FieldType::NonNull(Box::new(clone_field_type(inner))),
    }
}

impl Clone for FieldType {
    fn clone(&self) -> (copy: Self)
        ensures
            copy@ == self@,
    {
        clone_field_type(self)
    }
}

impl FieldType {
    /// The terminal named type. Every shape has exactly one, so the result is
    /// always `Some`.
    pub fn inner_type_name(&self) -> (name: Option<&str>)
        ensures
            name is Some,
            name->0@ == self@.inner_type_name(),
        decreases self,
    {
        match self {
            FieldType::Named(name) => Some(name.as_str()),
            FieldType::List(inner) => inner.inner_type_name(),
            FieldType::NonNull(inner) => inner.inner_type_name(),
        }
    }

    /// Whether the shape is a list, possibly under non-null wrappers.
    pub fn is_list(&self) -> (list: bool)
        ensures
            list == self@.is_list(),
        decreases self,
    {
        match self {
            FieldType::List(_) => true,
            FieldType::NonNull(inner) => inner.is_list(),
            FieldType::Named(_) => false,
        }
    }
}

/// One declared argument of a field. Fixed once extracted.
#[derive(Debug, Clone)]
pub struct ArgumentConfig {
    pub name: String,
    pub arg_type: FieldType,
    pub default_value: Option<JsonValue>,
}

/// Mathematical model of an [`ArgumentConfig`].
pub struct ArgumentConfigView {
    pub name: Seq<char>,
    pub arg_type: FieldTypeView,
    pub default_value: Option<JsonView>,
}

impl DeepView for ArgumentConfig {
    type V = ArgumentConfigView;

    open spec fn deep_view(&self) -> ArgumentConfigView {
        ArgumentConfigView {
            name: self.name@,
            arg_type: self.arg_type@,
            default_value: self.default_value.deep_view(),
        }
    }
}

impl View for ArgumentConfig {
    type V = ArgumentConfigView;

    open spec fn view(&self) -> ArgumentConfigView {
        self.deep_view()
    }
}

/// Where one input of a called resolver comes from.
#[derive(Debug, Clone)]
pub enum ArgumentMapping {
    /// Read from the named field of the resolved parent object.
    ParentField(String),
    /// A fixed value.
    Literal(JsonValue),
    /// Read from the named argument of the query.
    Argument(String),
}

/// Mathematical model of an [`ArgumentMapping`].
pub enum ArgumentMappingView {
    ParentField(Seq<char>),
    Literal(JsonView),
    Argument(Seq<char>),
}

impl DeepView for ArgumentMapping {
    type V = ArgumentMappingView;

    open spec fn deep_view(&self) -> ArgumentMappingView {
        match self {
            ArgumentMapping::ParentField(name) => ArgumentMappingView::ParentField(name@),
            ArgumentMapping::Literal(value) => ArgumentMappingView::Literal(value@),
            ArgumentMapping::Argument(name) => ArgumentMappingView::Argument(name@),
        }
    }
}

impl View for ArgumentMapping {
    type V = ArgumentMappingView;

    open spec fn view(&self) -> ArgumentMappingView {
        self.deep_view()
    }
}

/// The resolver bound to a field.
#[derive(Debug, Clone)]
pub enum ResolverConfig {
    /// Served by a named resolver. With a batch key the field is key-batched:
    /// the key is the value of that field of the parent object.
    Trait { name: String, batch_key: Option<String> },
    /// Served by a named resolver with explicit argument wiring.
    Call { trait_name: String, args: ArgumentMappings },
}

/// Mathematical model of a [`ResolverConfig`].
pub enum ResolverConfigView {
    Trait { name: Seq<char>, batch_key: Option<Seq<char>> },
    Call { trait_name: Seq<char>, args: Map<Seq<char>, ArgumentMappingView> },
}

impl ResolverConfigView {
    /// Only a `Trait` binding that carries a batch key is batched.
    pub open spec fn is_batched(self) -> bool {
        match self {
            ResolverConfigView::Trait { batch_key, .. } => batch_key is Some,
            ResolverConfigView::Call { .. } => false,
        }
    }

    /// The name of the bound resolver, whatever the variant.
    pub open spec fn resolver_name(self) -> Seq<char> {
        match self {
            ResolverConfigView::Trait { name, .. } => name,
            ResolverConfigView::Call { trait_name, .. } => trait_name,
        }
    }
}

impl DeepView for ResolverConfig {
    type V = ResolverConfigView;

    open spec fn deep_view(&self) -> ResolverConfigView {
        match self {
            ResolverConfig::Trait { name, batch_key } => ResolverConfigView::Trait {
                name: name@,
                batch_key: batch_key.deep_view(),
            },
            ResolverConfig::Call { trait_name, args } => ResolverConfigView::Call {
                trait_name: trait_name@,
                args: args@,
            },
        }
    }
}

impl View for ResolverConfig {
    type V = ResolverConfigView;

    open spec fn view(&self) -> ResolverConfigView {
        self.deep_view()
    }
}

impl ResolverConfig {
    /// Whether the binding declares key-based batching.
    pub fn is_batched(&self) -> (batched: bool)
        ensures
            batched == self@.is_batched(),
    {
        match self {
            ResolverConfig::Trait { batch_key, .. } => batch_key.is_some(),
            ResolverConfig::Call { .. } => false,
        }
    }

    /// The name of the bound resolver.
    pub fn resolver_name(&self) -> (name: &str)
        ensures
            name@ == self@.resolver_name(),
    {
        match self {
            ResolverConfig::Trait { name, .. } => name.as_str(),
            ResolverConfig::Call { trait_name, .. } => trait_name.as_str(),
        }
    }
}

/// One field of a type: its shape, its arguments in declared order, and the
/// resolver that serves it, if any.
#[derive(Debug, Clone)]
pub struct FieldConfig {
    pub name: String,
    pub field_type: FieldType,
    pub arguments: Vec<ArgumentConfig>,
    pub resolver: Option<ResolverConfig>,
}

/// Mathematical model of a [`FieldConfig`].
pub struct FieldConfigView {
    pub name: Seq<char>,
    pub field_type: FieldTypeView,
    pub arguments: Seq<ArgumentConfigView>,
    pub resolver: Option<ResolverConfigView>,
}

impl DeepView for FieldConfig {
    type V = FieldConfigView;

    open spec fn deep_view(&self) -> FieldConfigView {
        FieldConfigView {
            name: self.name@,
            field_type: self.field_type@,
            arguments: self.arguments.deep_view(),
            resolver: self.resolver.deep_view(),
        }
    }
}

impl View for FieldConfig {
    type V = FieldConfigView;

    open spec fn view(&self) -> FieldConfigView {
        self.deep_view()
    }
}

/// One object or interface type: its fields in declared order.
#[derive(Debug, Clone)]
pub struct TypeConfig {
    pub name: String,
    pub fields: Vec<FieldConfig>,
}

/// Mathematical model of a [`TypeConfig`].
pub struct TypeConfigView {
    pub name: Seq<char>,
    pub fields: Seq<FieldConfigView>,
}

impl DeepView for TypeConfig {
    type V = TypeConfigView;

    open spec fn deep_view(&self) -> TypeConfigView {
        TypeConfigView { name: self.name@, fields: self.fields.deep_view() }
    }
}

impl View for TypeConfig {
    type V = TypeConfigView;

    open spec fn view(&self) -> TypeConfigView {
        self.deep_view()
    }
}

/// The whole configuration of a schema: its modeled types by name, and the
/// names of its root types.
#[derive(Debug, Clone)]
pub struct GraphQLConfig {
    pub types: TypeTable,
    pub query_type: Option<String>,
    pub mutation_type: Option<String>,
}

/// Mathematical model of a [`GraphQLConfig`].
pub struct GraphQLConfigView {
    pub types: Map<Seq<char>, TypeConfigView>,
    pub query_type: Option<Seq<char>>,
    pub mutation_type: Option<Seq<char>>,
}

impl GraphQLConfigView {
    /// The configuration without types or roots.
    pub open spec fn empty() -> GraphQLConfigView {
        GraphQLConfigView { types: Map::empty(), query_type: None, mutation_type: None }
    }

    /// The name of the type at which queries start: the query root, and
    /// `Query` where none is set.
    pub open spec fn query_root(self) -> Seq<char> {
        match self.query_type {
            Some(name) => name,
            None => "Query"@,
        }
    }
}

impl GraphQLConfig {
    /// The name of the type at which queries start.
    pub fn query_root(&self) -> (name: &str)
        ensures
            name@ == self@.query_root(),
    {
        match &self.query_type {
            Some(name) => name.as_str(),
            None => "Query",
        }
    }
}

impl View for GraphQLConfig {
    type V = GraphQLConfigView;

    open spec fn view(&self) -> GraphQLConfigView {
        GraphQLConfigView {
            types: self.types@,
            query_type: self.query_type.deep_view(),
            mutation_type: self.mutation_type.deep_view(),
        }
    }
}

impl Default for GraphQLConfig {
    fn default() -> (config: GraphQLConfig)
        ensures
            config@ == GraphQLConfigView::empty(),
    {
        GraphQLConfig { types: TypeTable::new(), query_type: None, mutation_type: None }
    }
}

} // verus!
