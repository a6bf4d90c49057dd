//! A schema document as plain values: what the configuration extraction reads
//! of each definition, field, argument, directive and literal.

use vstd::prelude::*;

verus! {

/// What is read of a numeric literal: its value as each of the three number
/// kinds, where it has one. The float is held as the bit pattern of the
/// 64-bit float.
#[derive(Debug, Clone, Copy, PartialEq, Eq, Structural)]
pub struct NumberLiteral {
    pub as_i64: Option<i64>,
    pub as_u64: Option<u64>,
    pub as_f64_bits: Option<u64>,
}

/// A constant literal, as a directive argument or an argument default holds it.
#[derive(Debug)]
pub enum Constant {
    Null,
    Number(NumberLiteral),
    String(String),
    Boolean(bool),
    Binary(Vec<u8>),
    Enum(String),
    List(Vec<Constant>),
    Object(Vec<(String, Constant)>),
}

/// Mathematical model of a [`Constant`].
pub enum ConstantView {
    Null,
    Number(NumberLiteral),
    String(Seq<char>),
    Boolean(bool),
    Binary(Seq<u8>),
    Enum(Seq<char>),
    List(Seq<ConstantView>),
    Object(Seq<(Seq<char>, ConstantView)>),
}

/// The model of a literal, by recursion on its members.
pub open spec fn constant_view(value: Constant) -> ConstantView
    decreases value,
{
    match value {
        Constant::Null => ConstantView::Null,
        Constant::Number(n) => ConstantView::Number(n),
        Constant::String(s) => ConstantView::String(s@),
        Constant::Boolean(b) => ConstantView::Boolean(b),
        Constant::Binary(bytes) => ConstantView::Binary(bytes@),
        Constant::Enum(name) => ConstantView::Enum(name@),
        Constant::List(items) => ConstantView::List(
            Seq::new(
                items@.len(),
                |i: int|
                    if 0 <= i < items@.len() {
                        constant_view(items@[i])
                    } else {
                        ConstantView::Null
                    },
            ),
        ),
        Constant::Object(members) => ConstantView::Object(
            Seq::new(
                members@.len(),
                |i: int|
                    if 0 <= i < members@.len() {
                        (members@[i].0@, constant_view(members@[i].1))
                    } else {
                        (Seq::empty(), ConstantView::Null)
                    },
            ),
        ),
    }
}

impl DeepView for Constant {
    type V = ConstantView;

    open spec fn deep_view(&self) -> ConstantView {
        constant_view(*self)
    }
}

impl View for Constant {
    type V = ConstantView;

    open spec fn view(&self) -> ConstantView {
        constant_view(*self)
    }
}

/// One directive on a field: its name and its arguments in written order.
#[derive(Debug)]
pub struct Directive {
    pub name: String,
    pub arguments: Vec<(String, Constant)>,
}

/// Mathematical model of a [`Directive`].
pub struct DirectiveView {
    pub name: Seq<char>,
    pub arguments: Seq<(Seq<char>, ConstantView)>,
}

impl DeepView for Directive {
    type V = DirectiveView;

    open spec fn deep_view(&self) -> DirectiveView {
        DirectiveView { name: self.name@, arguments: self.arguments.deep_view() }
    }
}

impl View for Directive {
    type V = DirectiveView;

    open spec fn view(&self) -> DirectiveView {
        self.deep_view()
    }
}

/// A named type or a list, before nullability is applied.
#[derive(Debug)]
pub enum BaseType {
    Named(String),
    List(Box<TypeNotation>),
}

/// A type as written in the schema: a base and whether `null` is allowed.
#[derive(Debug)]
pub struct TypeNotation {
    pub base: BaseType,
    pub nullable: bool,
}

/// Mathematical model of a [`BaseType`].
pub enum BaseTypeView {
    Named(Seq<char>),
    List(Box<TypeNotationView>),
}

/// Mathematical model of a [`TypeNotation`].
pub struct TypeNotationView {
    pub base: BaseTypeView,
    pub nullable: bool,
}

/// The model of a written type, by recursion on its list wrappers.
pub open spec fn type_ref_view(ty: TypeNotation) -> TypeNotationView
    decreases ty,
{
    TypeNotationView { base: base_type_view(ty.base), nullable: ty.nullable }
}

/// The model of a base, by recursion on its list wrappers.
pub open spec fn base_type_view(base: BaseType) -> BaseTypeView
    decreases base,
{
    match base {
        BaseType::Named(name) => BaseTypeView::Named(name@),
        BaseType::List(inner) => BaseTypeView::List(Box::new(type_ref_view(*inner))),
    }
}

impl DeepView for BaseType {
    type V = BaseTypeView;

    open spec fn deep_view(&self) -> BaseTypeView {
        base_type_view(*self)
    }
}

impl View for BaseType {
    type V = BaseTypeView;

    open spec fn view(&self) -> BaseTypeView {
        base_type_view(*self)
    }
}

impl DeepView for TypeNotation {
    type V = TypeNotationView;

    open spec fn deep_view(&self) -> TypeNotationView {
        type_ref_view(*self)
    }
}

impl View for TypeNotation {
    type V = TypeNotationView;

    open spec fn view(&self) -> TypeNotationView {
        type_ref_view(*self)
    }
}

/// One declared argument of a field.
#[derive(Debug)]
pub struct ArgumentDeclaration {
    pub name: String,
    pub ty: TypeNotation,
    pub default_value: Option<Constant>,
}

/// Mathematical model of an [`ArgumentDeclaration`].
pub struct ArgumentDeclarationView {
    pub name: Seq<char>,
    pub ty: TypeNotationView,
    pub default_value: Option<ConstantView>,
}

impl DeepView for ArgumentDeclaration {
    type V = ArgumentDeclarationView;

    open spec fn deep_view(&self) -> ArgumentDeclarationView {
        ArgumentDeclarationView {
            name: self.name@,
            ty: self.ty@,
            default_value: self.default_value.deep_view(),
        }
    }
}

impl View for ArgumentDeclaration {
    type V = ArgumentDeclarationView;

    open spec fn view(&self) -> ArgumentDeclarationView {
        self.deep_view()
    }
}

/// One field of an object or interface type.
#[derive(Debug)]
pub struct FieldDeclaration {
    pub name: String,
    pub arguments: Vec<ArgumentDeclaration>,
    pub ty: TypeNotation,
    pub directives: Vec<Directive>,
}

/// Mathematical model of a [`FieldDeclaration`].
pub struct FieldDeclarationView {
    pub name: Seq<char>,
    pub arguments: Seq<ArgumentDeclarationView>,
    pub ty: TypeNotationView,
    pub directives: Seq<DirectiveView>,
}

impl DeepView for FieldDeclaration {
    type V = FieldDeclarationView;

    open spec fn deep_view(&self) -> FieldDeclarationView {
        FieldDeclarationView {
            name: self.name@,
            arguments: self.arguments.deep_view(),
            ty: self.ty@,
            directives: self.directives.deep_view(),
        }
    }
}

impl View for FieldDeclaration {
    type V = FieldDeclarationView;

    open spec fn view(&self) -> FieldDeclarationView {
        self.deep_view()
    }
}

/// The kind of a type definition. Only objects and interfaces carry fields
/// that the configuration models.
#[derive(Debug)]
pub enum TypeKind {
    Scalar,
    Object(Vec<FieldDeclaration>),
    Interface(Vec<FieldDeclaration>),
    Union,
    Enum,
    InputObject,
}

/// Mathematical model of a [`TypeKind`].
pub enum TypeKindView {
    Scalar,
    Object(Seq<FieldDeclarationView>),
    Interface(Seq<FieldDeclarationView>),
    Union,
    Enum,
    InputObject,
}

impl DeepView for TypeKind {
    type V = TypeKindView;

    open spec fn deep_view(&self) -> TypeKindView {
        match self {
            TypeKind::Scalar => TypeKindView::Scalar,
            TypeKind::Object(fields) => TypeKindView::Object(fields.deep_view()),
            TypeKind::Interface(fields) => TypeKindView::Interface(fields.deep_view()),
            TypeKind::Union => TypeKindView::Union,
            TypeKind::Enum => TypeKindView::Enum,
            TypeKind::InputObject => TypeKindView::InputObject,
        }
    }
}

impl View for TypeKind {
    type V = TypeKindView;

    open spec fn view(&self) -> TypeKindView {
        self.deep_view()
    }
}

/// A type definition: its name and kind.
#[derive(Debug)]
pub struct TypeDeclaration {
    pub name: String,
    pub kind: TypeKind,
}

/// Mathematical model of a [`TypeDeclaration`].
pub struct TypeDeclarationView {
    pub name: Seq<char>,
    pub kind: TypeKindView,
}

impl DeepView for TypeDeclaration {
    type V = TypeDeclarationView;

    open spec fn deep_view(&self) -> TypeDeclarationView {
        TypeDeclarationView { name: self.name@, kind: self.kind@ }
    }
}

impl View for TypeDeclaration {
    type V = TypeDeclarationView;

    open spec fn view(&self) -> TypeDeclarationView {
        self.deep_view()
    }
}

/// A `schema { .. }` block: the root operation types it names.
#[derive(Debug)]
pub struct SchemaDefinition {
    pub query: Option<String>,
    pub mutation: Option<String>,
}

/// Mathematical model of a [`SchemaDefinition`].
pub struct SchemaDefinitionView {
    pub query: Option<Seq<char>>,
    pub mutation: Option<Seq<char>>,
}

impl DeepView for SchemaDefinition {
    type V = SchemaDefinitionView;

    open spec fn deep_view(&self) -> SchemaDefinitionView {
        SchemaDefinitionView {
            query: self.query.deep_view(),
            mutation: self.mutation.deep_view(),
        }
    }
}

impl View for SchemaDefinition {
    type V = SchemaDefinitionView;

    open spec fn view(&self) -> SchemaDefinitionView {
        self.deep_view()
    }
}

/// One top-level definition of a schema document.
#[derive(Debug)]
pub enum Definition {
    Schema(SchemaDefinition),
    Type(TypeDeclaration),
    Directive,
}

/// Mathematical model of a [`Definition`].
pub enum DefinitionView {
    Schema(SchemaDefinitionView),
    Type(TypeDeclarationView),
    Directive,
}

impl DeepView for Definition {
    type V = DefinitionView;

    open spec fn deep_view(&self) -> DefinitionView {
        match self {
            Definition::Schema(schema) => DefinitionView::Schema(schema@),
            Definition::Type(ty) => DefinitionView::Type(ty@),
            Definition::Directive => DefinitionView::Directive,
        }
    }
}

impl View for Definition {
    type V = DefinitionView;

    open spec fn view(&self) -> DefinitionView {
        self.deep_view()
    }
}

/// A parsed schema document: its definitions in written order.
#[derive(Debug)]
pub struct SchemaDocument {
    pub definitions: Vec<Definition>,
}

impl DeepView for SchemaDocument {
    type V = Seq<DefinitionView>;

    open spec fn deep_view(&self) -> Seq<DefinitionView> {
        self.definitions.deep_view()
    }
}

impl View for SchemaDocument {
    type V = Seq<DefinitionView>;

    open spec fn view(&self) -> Seq<DefinitionView> {
        self.deep_view()
    }
}

} // verus!
