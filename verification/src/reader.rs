//! Reading schema text. The grammar is the GraphQL parser's; this module turns
//! what the parser returns into a [`SchemaDocument`], node by node.

use crate::document::{
    ArgumentDeclaration, ArgumentDeclarationView, BaseType, BaseTypeView, Constant, ConstantView,
    Definition, DefinitionView, Directive, DirectiveView, FieldDeclaration, FieldDeclarationView,
    NumberLiteral, SchemaDefinition, SchemaDocument, TypeDeclaration, TypeDeclarationView,
    TypeKind, TypeKindView, TypeNotation, TypeNotationView,
};
use async_graphql_parser::types as parsed;
use async_graphql_value::ConstValue as ParsedValue;
use vstd::prelude::*;

verus! {

/// The parser's schema document. Nothing of it is seen here but through the
/// functions below.
#[verifier::external_type_specification]
#[verifier::external_body]
pub struct ExServiceDocument(async_graphql_parser::types::ServiceDocument);

/// The parser's type definition.
#[verifier::external_type_specification]
#[verifier::external_body]
pub struct ExTypeDefinition(async_graphql_parser::types::TypeDefinition);

/// The parser's field definition.
#[verifier::external_type_specification]
#[verifier::external_body]
pub struct ExFieldDefinition(async_graphql_parser::types::FieldDefinition);

/// The parser's argument definition.
#[verifier::external_type_specification]
#[verifier::external_body]
pub struct ExInputValueDefinition(async_graphql_parser::types::InputValueDefinition);

/// The parser's type reference.
#[verifier::external_type_specification]
#[verifier::external_body]
pub struct ExType(async_graphql_parser::types::Type);

/// The parser's directive with constant arguments.
#[verifier::external_type_specification]
#[verifier::external_body]
pub struct ExConstDirective(async_graphql_parser::types::ConstDirective);

/// The constant value of the GraphQL value crate, which is also the engine's
/// value type.
#[verifier::external_type_specification]
#[verifier::external_body]
pub struct ExConstValue(async_graphql_value::ConstValue);

/// The parser's error.
#[verifier::external_type_specification]
#[verifier::external_body]
pub struct ExParserError(async_graphql_parser::Error);

/// The number of `serde_json`, which GraphQL values use for their numbers.
#[verifier::external_type_specification]
#[verifier::external_body]
pub struct ExNumber(serde_json::Number);

/// The definitions that the schema grammar makes of a text that it accepts.
pub uninterp spec fn grammar_document(sdl: Seq<char>) -> Seq<DefinitionView>;

/// The message of a parser error, as its `Display` gives it.
pub uninterp spec fn parser_error_message(error: async_graphql_parser::Error) -> Seq<char>;

/// Whether a text is the message of a parser error.
pub open spec fn is_parser_message(message: Seq<char>) -> bool {
    exists|error: async_graphql_parser::Error| #[trigger] parser_error_message(error) == message
}

/// What a parsed document holds.
pub uninterp spec fn parsed_document_model(document: parsed::ServiceDocument) -> Seq<
    DefinitionView,
>;

/// What a parsed type definition holds.
pub uninterp spec fn parsed_type_model(definition: parsed::TypeDefinition) -> TypeDeclarationView;

/// What a parsed field definition holds.
pub uninterp spec fn parsed_field_model(field: parsed::FieldDefinition) -> FieldDeclarationView;

/// What a parsed argument definition holds.
pub uninterp spec fn parsed_argument_model(
    argument: parsed::InputValueDefinition,
) -> ArgumentDeclarationView;

/// What a parsed type reference holds.
pub uninterp spec fn parsed_type_ref_model(ty: parsed::Type) -> TypeNotationView;

/// What a parsed directive holds.
pub uninterp spec fn parsed_directive_model(directive: parsed::ConstDirective) -> DirectiveView;

/// What is read of a parsed number.
pub uninterp spec fn parsed_number_model(number: serde_json::Number) -> NumberLiteral;

/// What a parsed literal holds.
pub uninterp spec fn parsed_value_model(value: ParsedValue) -> ConstantView;

/// One top-level definition, with a type definition still as the parser's own.
enum DefinitionParts<'a> {
    Schema(SchemaDefinition),
    Type(&'a parsed::TypeDefinition),
    Directive,
}

impl<'a> DefinitionParts<'a> {
    spec fn model(self) -> DefinitionView {
        match self {
            DefinitionParts::Schema(schema) => DefinitionView::Schema(schema@),
            DefinitionParts::Type(definition) => DefinitionView::Type(
                parsed_type_model(*definition),
            ),
            DefinitionParts::Directive => DefinitionView::Directive,
        }
    }
}

/// The kind of a type definition, with its fields still as the parser's own.
enum KindParts<'a> {
    Scalar,
    Object(Vec<&'a parsed::FieldDefinition>),
    Interface(Vec<&'a parsed::FieldDefinition>),
    Union,
    Enum,
    InputObject,
}

/// The models of parsed fields, in order.
spec fn field_models(fields: Seq<&parsed::FieldDefinition>) -> Seq<FieldDeclarationView> {
    Seq::new(fields.len(), |i: int| parsed_field_model(*fields[i]))
}

impl<'a> KindParts<'a> {
    spec fn model(self) -> TypeKindView {
        match self {
            KindParts::Scalar => TypeKindView::Scalar,
            KindParts::Object(fields) => TypeKindView::Object(field_models(fields@)),
            KindParts::Interface(fields) => TypeKindView::Interface(field_models(fields@)),
            KindParts::Union => TypeKindView::Union,
            KindParts::Enum => TypeKindView::Enum,
            KindParts::InputObject => TypeKindView::InputObject,
        }
    }
}

/// A field definition, one level deep.
struct FieldParts<'a> {
    name: String,
    arguments: Vec<&'a parsed::InputValueDefinition>,
    ty: &'a parsed::Type,
    directives: Vec<&'a parsed::ConstDirective>,
}

impl<'a> FieldParts<'a> {
    spec fn model(self) -> FieldDeclarationView {
        FieldDeclarationView {
            name: self.name@,
            arguments: Seq::new(
                self.arguments@.len(),
                |i: int| parsed_argument_model(*self.arguments@[i]),
            ),
            ty: parsed_type_ref_model(*self.ty),
            directives: Seq::new(
                self.directives@.len(),
                |i: int| parsed_directive_model(*self.directives@[i]),
            ),
        }
    }
}

/// An argument definition, one level deep.
struct ArgumentParts<'a> {
    name: String,
    ty: &'a parsed::Type,
    default_value: Option<&'a ParsedValue>,
}

impl<'a> ArgumentParts<'a> {
    spec fn model(self) -> ArgumentDeclarationView {
        ArgumentDeclarationView {
            name: self.name@,
            ty: parsed_type_ref_model(*self.ty),
            default_value: match self.default_value {
                Some(value) => Some(parsed_value_model(*value)),
                None => None,
            },
        }
    }
}

/// The base of a type reference, with a list's item type still as the parser's own.
enum BaseParts<'a> {
    Named(String),
    List(&'a parsed::Type),
}

impl<'a> BaseParts<'a> {
    spec fn model(self) -> BaseTypeView {
        match self {
            BaseParts::Named(name) => BaseTypeView::Named(name@),
            BaseParts::List(inner) => BaseTypeView::List(Box::new(parsed_type_ref_model(*inner))),
        }
    }
}

/// The models of named parsed values, in order.
spec fn member_models(members: Seq<(String, &ParsedValue)>) -> Seq<
    (Seq<char>, ConstantView),
> {
    Seq::new(members.len(), |i: int| (members[i].0@, parsed_value_model(*members[i].1)))
}

/// A directive, with its argument values still as the parser's own.
struct DirectiveParts<'a> {
    name: String,
    arguments: Vec<(String, &'a ParsedValue)>,
}

impl<'a> DirectiveParts<'a> {
    spec fn model(self) -> DirectiveView {
        DirectiveView { name: self.name@, arguments: member_models(self.arguments@) }
    }
}

/// One level of a parsed literal: its variant, with scalars as plain values
/// and members still as the parser's own.
enum ValueParts<'a> {
    Null,
    Number(&'a serde_json::Number),
    String(String),
    Boolean(bool),
    Binary(Vec<u8>),
    Enum(String),
    List(Vec<&'a ParsedValue>),
    Object(Vec<(String, &'a ParsedValue)>),
}

impl<'a> ValueParts<'a> {
    spec fn model(self) -> ConstantView {
        match self {
            ValueParts::Null => ConstantView::Null,
            ValueParts::Number(n) => ConstantView::Number(parsed_number_model(*n)),
            ValueParts::String(s) => ConstantView::String(s@),
            ValueParts::Boolean(b) => ConstantView::Boolean(b),
            ValueParts::Binary(bytes) => ConstantView::Binary(bytes@),
            ValueParts::Enum(name) => ConstantView::Enum(name@),
            ValueParts::List(items) => ConstantView::List(
                Seq::new(items@.len(), |i: int| parsed_value_model(*items@[i])),
            ),
            ValueParts::Object(members) => ConstantView::Object(member_models(members@)),
        }
    }
}

/// Calls `async_graphql_parser::parse_schema` on the text. The contract
/// claims that a document that comes back holds what the grammar makes of the
/// text. Of an error it claims nothing: the text may be invalid, or the parser
/// may have met one of its limits on stack and calls, and how much its message
/// tells is a setting of the process.
#[verifier::external_body]
fn parse_schema_text(sdl: &str) -> (outcome: Result<
    parsed::ServiceDocument,
    async_graphql_parser::Error,
>)
    ensures
        outcome matches Ok(document) ==> parsed_document_model(document) == grammar_document(sdl@),
{
    async_graphql_parser::parse_schema(sdl)
}

/// Formats a parser error with its `Display`. The contract names the text:
/// it is the message of that error.
#[verifier::external_body]
fn parser_error_text(error: &async_graphql_parser::Error) -> (text: String)
    ensures
        text@ == parser_error_message(*error),
{
    error.to_string()
}

/// Reads the field `definitions` of `ServiceDocument`. The contract claims
/// one part for each definition, in order, each holding what the definition
/// holds; of a schema block, the names in its fields `query` and `mutation`.
#[verifier::external_body]
fn document_parts<'a>(document: &'a parsed::ServiceDocument) -> (parts: Vec<DefinitionParts<'a>>)
    ensures
        parts@.len() == parsed_document_model(*document).len(),
        forall|i: int|
            0 <= i < parts@.len() ==> parts@[i].model() == #[trigger] parsed_document_model(
                *document,
            )[i],
{
    document.definitions.iter().map(|definition| match definition {
        parsed::TypeSystemDefinition::Schema(schema) => DefinitionParts::Schema(SchemaDefinition {
            query: schema.node.query.as_ref().map(|name| name.node.to_string()),
            mutation: schema.node.mutation.as_ref().map(|name| name.node.to_string()),
        }),
        parsed::TypeSystemDefinition::Type(definition) => DefinitionParts::Type(&definition.node),
        parsed::TypeSystemDefinition::Directive(_) => DefinitionParts::Directive,
    }).collect()
}

/// Reads the fields `name` and `kind` of `TypeDefinition`, telling the
/// variants of `TypeKind` apart. The contract claims the definition's name
/// and kind, and for an object or an interface its fields, in order.
#[verifier::external_body]
fn type_parts<'a>(definition: &'a parsed::TypeDefinition) -> (parts: (String, KindParts<'a>))
    ensures
        parsed_type_model(*definition) == (TypeDeclarationView {
            name: parts.0@,
            kind: parts.1.model(),
        }),
{
    let kind = match &definition.kind {
        parsed::TypeKind::Scalar => KindParts::Scalar,
        parsed::TypeKind::Object(object) => KindParts::Object(
            object.fields.iter().map(|field| &field.node).collect(),
        ),
        parsed::TypeKind::Interface(interface) => KindParts::Interface(
            interface.fields.iter().map(|field| &field.node).collect(),
        ),
        parsed::TypeKind::Union(_) => KindParts::Union,
        parsed::TypeKind::Enum(_) => KindParts::Enum,
        parsed::TypeKind::InputObject(_) => KindParts::InputObject,
    };
    (definition.name.node.to_string(), kind)
}

/// Reads the fields `name`, `arguments`, `ty` and `directives` of
/// `FieldDefinition`. The contract claims that the parts hold what the field
/// holds, arguments and directives in order.
#[verifier::external_body]
fn field_parts<'a>(field: &'a parsed::FieldDefinition) -> (parts: FieldParts<'a>)
    ensures
        parts.model() == parsed_field_model(*field),
{
    FieldParts {
        name: field.name.node.to_string(),
        arguments: field.arguments.iter().map(|argument| &argument.node).collect(),
        ty: &field.ty.node,
        directives: field.directives.iter().map(|directive| &directive.node).collect(),
    }
}

/// Reads the fields `name`, `ty` and `default_value` of
/// `InputValueDefinition`. The contract claims that the parts hold what the
/// argument holds.
#[verifier::external_body]
fn argument_parts<'a>(argument: &'a parsed::InputValueDefinition) -> (parts: ArgumentParts<'a>)
    ensures
        parts.model() == parsed_argument_model(*argument),
{
    ArgumentParts {
        name: argument.name.node.to_string(),
        ty: &argument.ty.node,
        default_value: argument.default_value.as_ref().map(|value| &value.node),
    }
}

/// Reads the fields `base` and `nullable` of `Type`, telling the variants of
/// `BaseType` apart. The contract claims the same base and the same flag.
#[verifier::external_body]
fn type_ref_parts<'a>(ty: &'a parsed::Type) -> (parts: (BaseParts<'a>, bool))
    ensures
        parsed_type_ref_model(*ty) == (TypeNotationView { base: parts.0.model(), nullable: parts.1 }),
{
    let base = match &ty.base {
        parsed::BaseType::Named(name) => BaseParts::Named(name.to_string()),
        parsed::BaseType::List(inner) => BaseParts::List(&**inner),
    };
    (base, ty.nullable)
}

/// Reads the fields `name` and `arguments` of `ConstDirective`. The contract
/// claims the directive's name, and its arguments in order, each with its
/// name.
#[verifier::external_body]
fn directive_parts<'a>(directive: &'a parsed::ConstDirective) -> (parts: DirectiveParts<'a>)
    ensures
        parts.model() == parsed_directive_model(*directive),
{
    DirectiveParts {
        name: directive.name.node.to_string(),
        arguments: directive.arguments.iter().map(
            |(name, value)| (name.node.to_string(), &value.node),
        ).collect(),
    }
}

/// Calls `Number::as_i64`, `Number::as_u64` and `Number::as_f64` of
/// `serde_json`, which the GraphQL values use for their numbers. The contract
/// names the result: the three readings of that number, the float as its bits.
#[verifier::external_body]
fn number_parts(number: &serde_json::Number) -> (parts: NumberLiteral)
    ensures
        parts == parsed_number_model(*number),
{
    NumberLiteral {
        as_i64: number.as_i64(),
        as_u64: number.as_u64(),
        as_f64_bits: number.as_f64().map(|x| x.to_bits()),
    }
}

/// Tells the variants of `async_graphql_value::ConstValue` apart. The
/// contract claims the same variant, the same scalar, and the literal's
/// members in order, those of an object each with its key.
#[verifier::external_body]
fn value_parts<'a>(value: &'a ParsedValue) -> (parts: ValueParts<'a>)
    ensures
        parts.model() == parsed_value_model(*value),
{
    match value {
        ParsedValue::Null => ValueParts::Null,
        ParsedValue::Number(n) => ValueParts::Number(n),
        ParsedValue::String(s) => ValueParts::String(s.clone()),
        ParsedValue::Boolean(b) => ValueParts::Boolean(*b),
        ParsedValue::Binary(bytes) => ValueParts::Binary(bytes.to_vec()),
        ParsedValue::Enum(name) => ValueParts::Enum(name.to_string()),
        ParsedValue::List(items) => ValueParts::List(items.iter().collect()),
        ParsedValue::Object(o) => ValueParts::Object(o.iter().map(|(k, v)| (k.to_string(), v)).collect()),
    }
}

/// Reads a parsed literal into a plain one.
pub fn read_value(value: &ParsedValue) -> (own: Constant)
    ensures
        own@ == parsed_value_model(*value),
    decreases parsed_value_model(*value),
{
    let ghost model = parsed_value_model(*value);
    let parts = value_parts(value);
    match parts {
        ValueParts::Null => Constant::Null,
        ValueParts::Number(n) => Constant::Number(number_parts(n)),
        ValueParts::String(s) => Constant::String(s),
        ValueParts::Boolean(b) => Constant::Boolean(b),
        ValueParts::Binary(bytes) => Constant::Binary(bytes),
        ValueParts::Enum(name) => Constant::Enum(name),
        ValueParts::List(items) => {
            let mut out: Vec<Constant> = Vec::new();
            let mut i: usize = 0;
            while i < items.len()
                invariant
                    i <= items.len(),
                    out@.len() == i,
                    forall|k: int| 0 <= k < i ==> out@[k]@ == parsed_value_model(*items@[k]),
                    model == parsed_value_model(*value),
                    model == ConstantView::List(
                        Seq::new(items@.len(), |i: int| parsed_value_model(*items@[i])),
                    ),
                decreases items.len() - i,
            {
                assert(model->List_0[i as int] == parsed_value_model(*items@[i as int]));
                out.push(read_value(items[i]));
                i += 1;
            }
            let own = Constant::List(out);
            assert(own@->List_0 =~= model->List_0);
            own
        },
        ValueParts::Object(members) => {
            let mut out: Vec<(String, Constant)> = Vec::new();
            let mut i: usize = 0;
            while i < members.len()
                invariant
                    i <= members.len(),
                    out@.len() == i,
                    forall|k: int|
                        0 <= k < i ==> out@[k].0@ == members@[k].0@ && out@[k].1@
                            == parsed_value_model(*members@[k].1),
                    model == parsed_value_model(*value),
                    model == ConstantView::Object(member_models(members@)),
                decreases members.len() - i,
            {
                let ghost member = model->Object_0[i as int];
                assert(decreases_to!(member => member.1));
                let key = members[i].0.clone();
                out.push((key, read_value(members[i].1)));
                i += 1;
            }
            let own = Constant::Object(out);
            assert(own@->Object_0 =~= model->Object_0);
            own
        },
    }
}

/// Reads a parsed directive into a plain one.
pub fn read_directive(directive: &parsed::ConstDirective) -> (own: Directive)
    ensures
        own@ == parsed_directive_model(*directive),
{
    let parts = directive_parts(directive);
    let mut arguments: Vec<(String, Constant)> = Vec::new();
    let mut i: usize = 0;
    while i < parts.arguments.len()
        invariant
            i <= parts.arguments.len(),
            arguments@.len() == i,
            forall|k: int|
                0 <= k < i ==> arguments@[k].0@ == parts.arguments@[k].0@ && arguments@[k].1@
                    == parsed_value_model(*parts.arguments@[k].1),
        decreases parts.arguments.len() - i,
    {
        let key = parts.arguments[i].0.clone();
        arguments.push((key, read_value(parts.arguments[i].1)));
        i += 1;
    }
    assert(arguments.deep_view() =~= member_models(parts.arguments@));
    Directive { name: parts.name, arguments }
}

/// Reads a parsed type reference into a plain one.
pub fn read_type_ref(ty: &parsed::Type) -> (own: TypeNotation)
    ensures
        own@ == parsed_type_ref_model(*ty),
    decreases parsed_type_ref_model(*ty),
{
    let (base, nullable) = type_ref_parts(ty);
    match base {
        BaseParts::Named(name) => TypeNotation { base: BaseType::Named(name), nullable },
        BaseParts::List(inner) => {
            let ghost model = parsed_type_ref_model(*ty);
            assert(decreases_to!(model.base => model.base->List_0));
            let item = read_type_ref(inner);
            TypeNotation { base: BaseType::List(Box::new(item)), nullable }
        },
    }
}

/// Reads a parsed argument definition into a plain one.
pub fn read_argument(argument: &parsed::InputValueDefinition) -> (own: ArgumentDeclaration)
    ensures
        own@ == parsed_argument_model(*argument),
{
    let parts = argument_parts(argument);
    let default_value = match parts.default_value {
        Some(value) => Some(read_value(value)),
        None => None,
    };
    ArgumentDeclaration { name: parts.name, ty: read_type_ref(parts.ty), default_value }
}

/// Reads a parsed field definition into a plain one.
pub fn read_field(field: &parsed::FieldDefinition) -> (own: FieldDeclaration)
    ensures
        own@ == parsed_field_model(*field),
{
    let parts = field_parts(field);
    let mut arguments: Vec<ArgumentDeclaration> = Vec::new();
    let mut i: usize = 0;
    while i < parts.arguments.len()
        invariant
            i <= parts.arguments.len(),
            arguments@.len() == i,
            forall|k: int|
                0 <= k < i ==> arguments@[k]@ == parsed_argument_model(*parts.arguments@[k]),
        decreases parts.arguments.len() - i,
    {
        arguments.push(read_argument(parts.arguments[i]));
        i += 1;
    }
    let mut directives: Vec<Directive> = Vec::new();
    let mut j: usize = 0;
    while j < parts.directives.len()
        invariant
            j <= parts.directives.len(),
            directives@.len() == j,
            forall|k: int|
                0 <= k < j ==> directives@[k]@ == parsed_directive_model(*parts.directives@[k]),
        decreases parts.directives.len() - j,
    {
        directives.push(read_directive(parts.directives[j]));
        j += 1;
    }
    let ty = read_type_ref(parts.ty);
    let own = FieldDeclaration { name: parts.name, arguments, ty, directives };
    assert(own@.arguments =~= parts.model().arguments);
    assert(own@.directives =~= parts.model().directives);
    own
}

/// Reads parsed field definitions into plain ones, in order.
fn read_fields(fields: &Vec<&parsed::FieldDefinition>) -> (own: Vec<FieldDeclaration>)
    ensures
        own.deep_view() == field_models(fields@),
{
    let mut out: Vec<FieldDeclaration> = Vec::new();
    let mut i: usize = 0;
    while i < fields.len()
        invariant
            i <= fields.len(),
            out@.len() == i,
            forall|k: int| 0 <= k < i ==> out@[k]@ == parsed_field_model(*fields@[k]),
        decreases fields.len() - i,
    {
        out.push(read_field(fields[i]));
        i += 1;
    }
    out
}

/// Reads a parsed type definition into a plain one.
pub fn read_type(definition: &parsed::TypeDefinition) -> (own: TypeDeclaration)
    ensures
        own@ == parsed_type_model(*definition),
{
    let (name, kind) = type_parts(definition);
    let kind = match kind {
        KindParts::Scalar => TypeKind::Scalar,
        KindParts::Object(fields) => TypeKind::Object(read_fields(&fields)),
        KindParts::Interface(fields) => TypeKind::Interface(read_fields(&fields)),
        KindParts::Union => TypeKind::Union,
        KindParts::Enum => TypeKind::Enum,
        KindParts::InputObject => TypeKind::InputObject,
    };
    TypeDeclaration { name, kind }
}

/// Reads a parsed document into a plain one.
pub fn read_document(document: &parsed::ServiceDocument) -> (own: SchemaDocument)
    ensures
        own@ == parsed_document_model(*document),
{
    let parts = document_parts(document);
    let mut definitions: Vec<Definition> = Vec::new();
    let mut i: usize = 0;
    while i < parts.len()
        invariant
            i <= parts.len(),
            definitions@.len() == i,
            forall|k: int| 0 <= k < i ==> (#[trigger] definitions@[k])@ == parts@[k].model(),
        decreases parts.len() - i,
    {
        let definition = match &parts[i] {
            DefinitionParts::Schema(schema) => Definition::Schema(
                SchemaDefinition { query: schema.query.clone(), mutation: schema.mutation.clone() },
            ),
            DefinitionParts::Type(definition) => Definition::Type(read_type(definition)),
            DefinitionParts::Directive => Definition::Directive,
        };
        definitions.push(definition);
        i += 1;
    }
    let own = SchemaDocument { definitions };
    own
}

/// Reads what the parser returned: its document as plain values, or the
/// message of its error.
pub fn read_outcome(parsed: Result<parsed::ServiceDocument, async_graphql_parser::Error>) -> (outcome:
    Result<SchemaDocument, String>)
    ensures
        match parsed {
            Ok(document) => outcome matches Ok(own) && own@ == parsed_document_model(document),
            Err(error) => outcome matches Err(message) && message@ == parser_error_message(
                error,
            ),
        },
{
    match parsed {
        Ok(document) => Ok(read_document(&document)),
        Err(error) => Err(parser_error_text(&error)),
    }
}

/// Parses schema text into a document of plain values. A document that comes
/// back is what the grammar makes of the text; an error carries the message
/// of the parser's error.
pub fn read_schema(sdl: &str) -> (outcome: Result<SchemaDocument, String>)
    ensures
        outcome matches Ok(document) ==> document@ == grammar_document(sdl@),
        outcome matches Err(message) ==> is_parser_message(message@),
{
    read_outcome(parse_schema_text(sdl))
}

} // verus!
