//! Extraction of the configuration model from schema text.

use crate::config::{
    ArgumentConfig, ArgumentConfigView, FieldConfig, FieldConfigView, FieldType, FieldTypeView,
    GraphQLConfig, GraphQLConfigView, ResolverConfig, ResolverConfigView, TypeConfig,
    TypeConfigView,
};
use crate::directive::{
    call_args_of, call_target_of, const_value_to_json, directive_named, find_directive,
    json_of_constant, parse_batch_key_directive, parse_call_directive, parse_resolver_directive,
    parse_trait_directive, string_argument_named,
};
use crate::document::{
    ArgumentDeclaration, ArgumentDeclarationView, BaseType, BaseTypeView, Definition,
    DefinitionView, Directive, DirectiveView, FieldDeclaration, FieldDeclarationView,
    SchemaDefinition, SchemaDefinitionView, SchemaDocument, TypeDeclaration, TypeDeclarationView,
    TypeKind, TypeKindView, TypeNotation, TypeNotationView,
};
use crate::reader::{grammar_document, is_parser_message, read_schema};
use crate::text::{has_prefix, strip_prefix};
use vstd::prelude::*;

verus! {

/// Why schema text gave no configuration.
#[derive(Debug)]
pub enum ParseError {
    /// The parser did not take the text; the message is the parser's.
    SdlParseError(String),
}

impl ParseError {
    /// The text of the error: `Failed to parse SDL: ` and the parser's message.
    pub open spec fn text(self) -> Seq<char> {
        match self {
            ParseError::SdlParseError(message) => "Failed to parse SDL: "@ + message@,
        }
    }

    /// The error as text.
    pub fn to_string(&self) -> (text: String)
        ensures
            text@ == self.text(),
    {
        match self {
            ParseError::SdlParseError(message) => {
                let mut text = "Failed to parse SDL: ".to_owned();
                text.append(message.as_str());
                text
            },
        }
    }
}

/// The shape a written type gives: its base, a name or a list of the item's
/// shape, under a non-null wrapper unless it is nullable.
pub open spec fn field_type_of(ty: TypeNotationView) -> FieldTypeView
    decreases ty,
{
    let inner = match ty.base {
        BaseTypeView::Named(name) => FieldTypeView::Named(name),
        BaseTypeView::List(item) => FieldTypeView::List(Box::new(field_type_of(*item))),
    };
    if ty.nullable {
        inner
    } else {
        FieldTypeView::NonNull(Box::new(inner))
    }
}

/// The configuration of a declared argument.
pub open spec fn argument_config_of(argument: ArgumentDeclarationView) -> ArgumentConfigView {
    ArgumentConfigView {
        name: argument.name,
        arg_type: field_type_of(argument.ty),
        default_value: match argument.default_value {
            Some(value) => Some(json_of_constant(value)),
            None => None,
        },
    }
}

/// What the first directive of that name gives when read as a `call`.
pub open spec fn call_binding_of(directives: Seq<DirectiveView>) -> Option<ResolverConfigView> {
    match directive_named(directives, "call"@) {
        Some(directive) => match call_target_of(directive) {
            Some(trait_name) => Some(
                ResolverConfigView::Call { trait_name, args: call_args_of(directive) },
            ),
            None => None,
        },
        None => None,
    }
}

/// The resolver name that the first directive of the given name binds: its
/// string argument `name`.
pub open spec fn bound_name_of(directives: Seq<DirectiveView>, directive_name: Seq<char>) -> Option<
    Seq<char>,
> {
    match directive_named(directives, directive_name) {
        Some(directive) => string_argument_named(directive.arguments, "name"@),
        None => None,
    }
}

/// The batch key that the first `batchKey` directive declares: its string
/// argument `field`.
pub open spec fn batch_key_of(directives: Seq<DirectiveView>) -> Option<Seq<char>> {
    match directive_named(directives, "batchKey"@) {
        Some(directive) => string_argument_named(directive.arguments, "field"@),
        None => None,
    }
}

/// The resolver that the directives of a field bind. A `call` directive that
/// names a resolver comes first; else a `resolver` directive, else a `trait`
/// directive, each with the batch key of a sibling `batchKey` directive; else
/// the field has no resolver.
pub open spec fn resolver_of(directives: Seq<DirectiveView>) -> Option<ResolverConfigView> {
    if call_binding_of(directives) is Some {
        call_binding_of(directives)
    } else if let Some(name) = bound_name_of(directives, "resolver"@) {
        Some(ResolverConfigView::Trait { name, batch_key: batch_key_of(directives) })
    } else if let Some(name) = bound_name_of(directives, "trait"@) {
        Some(ResolverConfigView::Trait { name, batch_key: batch_key_of(directives) })
    } else {
        None
    }
}

/// The configuration of a declared field.
pub open spec fn field_config_of(field: FieldDeclarationView) -> FieldConfigView {
    FieldConfigView {
        name: field.name,
        field_type: field_type_of(field.ty),
        arguments: Seq::new(field.arguments.len(), |i: int| argument_config_of(field.arguments[i])),
        resolver: resolver_of(field.directives),
    }
}

/// The configurations of declared fields, in order.
pub open spec fn field_configs_of(fields: Seq<FieldDeclarationView>) -> Seq<FieldConfigView> {
    Seq::new(fields.len(), |i: int| field_config_of(fields[i]))
}

/// The modeled type that a type definition gives: one for an object or an
/// interface whose name does not start with `__`, and none for any other.
pub open spec fn type_config_of(definition: TypeDeclarationView) -> Option<TypeConfigView> {
    if has_prefix(definition.name, "__"@) {
        None
    } else {
        match definition.kind {
            TypeKindView::Object(fields) => Some(
                TypeConfigView { name: definition.name, fields: field_configs_of(fields) },
            ),
            TypeKindView::Interface(fields) => Some(
                TypeConfigView { name: definition.name, fields: field_configs_of(fields) },
            ),
            _ => None,
        }
    }
}

/// The configuration after a schema block: each root it names replaces the
/// one known before.
pub open spec fn with_schema_roots(
    config: GraphQLConfigView,
    schema: SchemaDefinitionView,
) -> GraphQLConfigView {
    GraphQLConfigView {
        types: config.types,
        query_type: if schema.query is Some {
            schema.query
        } else {
            config.query_type
        },
        mutation_type: if schema.mutation is Some {
            schema.mutation
        } else {
            config.mutation_type
        },
    }
}

/// The configuration after one more definition.
pub open spec fn with_definition(
    config: GraphQLConfigView,
    definition: DefinitionView,
) -> GraphQLConfigView {
    match definition {
        DefinitionView::Schema(schema) => with_schema_roots(config, schema),
        DefinitionView::Type(ty) => match type_config_of(ty) {
            Some(type_config) => GraphQLConfigView {
                types: config.types.insert(type_config.name, type_config),
                query_type: config.query_type,
                mutation_type: config.mutation_type,
            },
            None => config,
        },
        DefinitionView::Directive => config,
    }
}

/// The configuration after the definitions, taken in order.
pub open spec fn with_definitions(definitions: Seq<DefinitionView>) -> GraphQLConfigView
    decreases definitions.len(),
{
    if definitions.len() == 0 {
        GraphQLConfigView::empty()
    } else {
        with_definition(with_definitions(definitions.drop_last()), definitions.last())
    }
}

/// The configuration with its roots inferred: a root that no schema block
/// named is the type literally called `Query`, or `Mutation`, where the
/// configuration has one.
pub open spec fn with_inferred_roots(config: GraphQLConfigView) -> GraphQLConfigView {
    GraphQLConfigView {
        types: config.types,
        query_type: if config.query_type is None && config.types.contains_key("Query"@) {
            Some("Query"@)
        } else {
            config.query_type
        },
        mutation_type: if config.mutation_type is None && config.types.contains_key(
            "Mutation"@,
        ) {
            Some("Mutation"@)
        } else {
            config.mutation_type
        },
    }
}

/// The configuration of a document.
pub open spec fn config_of_document(definitions: Seq<DefinitionView>) -> GraphQLConfigView {
    with_inferred_roots(with_definitions(definitions))
}

/// The configuration of a schema text that the grammar accepts: that of the
/// document that the grammar makes of it.
pub open spec fn config_of_text(sdl: Seq<char>) -> GraphQLConfigView {
    config_of_document(grammar_document(sdl))
}

/// Whether an outcome is one that parsing the text may give: a configuration
/// that comes back is the configuration of the text, and an error carries the
/// message of a parser error.
pub open spec fn is_parse_of(outcome: Result<GraphQLConfig, ParseError>, sdl: Seq<char>) -> bool {
    match outcome {
        Ok(config) => config@ == config_of_text(sdl),
        Err(ParseError::SdlParseError(message)) => is_parser_message(message@),
    }
}

/// Parses schema text into its configuration. Text that the parser does not
/// take gives `SdlParseError` with the parser's message, and no
/// configuration.
pub fn parse_sdl(sdl: &str) -> (outcome: Result<GraphQLConfig, ParseError>)
    ensures
        is_parse_of(outcome, sdl@),
{
    build_config_from_outcome(read_schema(sdl))
}

/// Builds the configuration from what the parser made of a text: that of the
/// document, or for the parser's message the error that carries it.
pub fn build_config_from_outcome(parsed: Result<SchemaDocument, String>) -> (outcome: Result<
    GraphQLConfig,
    ParseError,
>)
    ensures
        match parsed {
            Ok(document) => outcome matches Ok(config) && config@ == config_of_document(
                document@,
            ),
            Err(message) => outcome matches Err(ParseError::SdlParseError(text)) && text@
                == message@,
        },
{
    match parsed {
        Ok(document) => build_config_from_document(document),
        Err(message) => Err(ParseError::SdlParseError(message)),
    }
}

/// Builds the configuration of a document, definition by definition. It
/// never fails.
pub fn build_config_from_document(document: SchemaDocument) -> (outcome: Result<
    GraphQLConfig,
    ParseError,
>)
    ensures
        outcome matches Ok(config) && config@ == config_of_document(document@),
{
    let mut config = GraphQLConfig::default();
    let mut i: usize = 0;
    while i < document.definitions.len()
        invariant
            i <= document.definitions.len(),
            config@ == with_definitions(document@.take(i as int)),
        decreases document.definitions.len() - i,
    {
        let ghost before = document@.take(i as int);
        let ghost after = document@.take(i + 1);
        assert(after.drop_last() =~= before);
        match &document.definitions[i] {
            Definition::Schema(schema) => {
                process_schema_definition(schema, &mut config);
            },
            Definition::Type(definition) => {
                match process_type_definition(definition) {
                    Ok(Some(type_config)) => {
                        let name = type_config.name.clone();
                        config.types.insert(name, type_config);
                    },
                    Ok(None) => {},
                    Err(error) => {
                        return Err(error);
                    },
                }
            },
            Definition::Directive => {},
        }
        i += 1;
    }
    assert(document@.take(document.definitions.len() as int) =~= document@);
    infer_root_types(&mut config);
    Ok(config)
}

/// Takes over the roots that a schema block names.
pub fn process_schema_definition(schema: &SchemaDefinition, config: &mut GraphQLConfig)
    ensures
        final(config)@ == with_schema_roots(old(config)@, schema@),
{
    if let Some(query) = &schema.query {
        config.query_type = Some(query.clone());
    }
    if let Some(mutation) = &schema.mutation {
        config.mutation_type = Some(mutation.clone());
    }
}

/// Models a type definition, where it is an object or an interface outside
/// the reserved `__` names. It never fails.
pub fn process_type_definition(definition: &TypeDeclaration) -> (outcome: Result<
    Option<TypeConfig>,
    ParseError,
>)
    ensures
        outcome matches Ok(modeled) && modeled.deep_view() == type_config_of(definition@),
{
    if strip_prefix(definition.name.as_str(), "__").is_some() {
        return Ok(None);
    }
    let fields = match &definition.kind {
        TypeKind::Object(fields) => process_fields(fields),
        TypeKind::Interface(fields) => process_fields(fields),
        _ => {
            return Ok(None);
        },
    };
    Ok(Some(TypeConfig { name: definition.name.clone(), fields }))
}

/// Models the fields of a type, in order.
pub fn process_fields(fields: &Vec<FieldDeclaration>) -> (configs: Vec<FieldConfig>)
    ensures
        configs.deep_view() == field_configs_of(fields.deep_view()),
{
    let mut configs: Vec<FieldConfig> = Vec::new();
    let mut i: usize = 0;
    while i < fields.len()
        invariant
            i <= fields.len(),
            configs@.len() == i,
            forall|k: int| 0 <= k < i ==> configs@[k]@ == field_config_of(fields@[k]@),
        decreases fields.len() - i,
    {
        configs.push(process_field(&fields[i]));
        i += 1;
    }
    configs
}

/// Models one field: its name, shape, arguments and resolver.
pub fn process_field(field: &FieldDeclaration) -> (config: FieldConfig)
    ensures
        config@ == field_config_of(field@),
{
    let name = field.name.clone();
    let field_type = convert_type(&field.ty);
    let arguments = process_arguments(&field.arguments);
    let resolver = extract_resolver(&field.directives);
    let config = FieldConfig { name, field_type, arguments, resolver };
    assert(config@.arguments =~= field_config_of(field@).arguments);
    config
}

/// The shape of a written type.
pub fn convert_type(ty: &TypeNotation) -> (shape: FieldType)
    ensures
        shape@ == field_type_of(ty@),
    decreases ty,
{
    convert_base_type(&ty.base, ty.nullable)
}

/// The shape of a base under the given nullability.
pub fn convert_base_type(base: &BaseType, nullable: bool) -> (shape: FieldType)
    ensures
        shape@ == field_type_of(TypeNotationView { base: base@, nullable }),
    decreases base,
{
    let inner = match base {
        BaseType::Named(name) => FieldType::Named(name.clone()),
        BaseType::List(item) => FieldType::List(Box::new(convert_type(item))),
    };
    assert(inner@ == match base@ {
        BaseTypeView::Named(name) => FieldTypeView::Named(name),
        BaseTypeView::List(item) => FieldTypeView::List(Box::new(field_type_of(*item))),
    });
    if nullable {
        inner
    } else {
        FieldType::NonNull(Box::new(inner))
    }
}

/// Models the declared arguments of a field, in order.
pub fn process_arguments(arguments: &Vec<ArgumentDeclaration>) -> (configs: Vec<ArgumentConfig>)
    ensures
        configs.deep_view() == Seq::new(
            arguments@.len(),
            |i: int| argument_config_of(arguments@[i]@),
        ),
{
    let mut configs: Vec<ArgumentConfig> = Vec::new();
    let mut i: usize = 0;
    while i < arguments.len()
        invariant
            i <= arguments.len(),
            configs@.len() == i,
            forall|k: int| 0 <= k < i ==> configs@[k]@ == argument_config_of(arguments@[k]@),
        decreases arguments.len() - i,
    {
        let argument = &arguments[i];
        let default_value = match &argument.default_value {
            Some(value) => Some(const_value_to_json(value)),
            None => None,
        };
        configs.push(
            ArgumentConfig {
                name: argument.name.clone(),
                arg_type: convert_type(&argument.ty),
                default_value,
            },
        );
        i += 1;
    }
    configs
}

/// The batch key that a sibling `batchKey` directive declares.
fn extract_batch_key(directives: &Vec<Directive>) -> (batch_key: Option<String>)
    ensures
        batch_key.deep_view() == batch_key_of(directives.deep_view()),
{
    match find_directive(directives, "batchKey") {
        Some(directive) => match parse_batch_key_directive(directive) {
            Some(parsed) => Some(parsed.field),
            None => None,
        },
        None => None,
    }
}

/// The resolver that the directives of a field bind, if any.
pub fn extract_resolver(directives: &Vec<Directive>) -> (resolver: Option<ResolverConfig>)
    ensures
        resolver.deep_view() == resolver_of(directives.deep_view()),
{
    if let Some(directive) = find_directive(directives, "call") {
        if let Some(call) = parse_call_directive(directive) {
            return Some(ResolverConfig::Call { trait_name: call.trait_name, args: call.args });
        }
    }
    if let Some(directive) = find_directive(directives, "resolver") {
        if let Some(parsed) = parse_resolver_directive(directive) {
            let batch_key = extract_batch_key(directives);
            return Some(ResolverConfig::Trait { name: parsed.name, batch_key });
        }
    }
    if let Some(directive) = find_directive(directives, "trait") {
        if let Some(parsed) = parse_trait_directive(directive) {
            let batch_key = extract_batch_key(directives);
            return Some(ResolverConfig::Trait { name: parsed.name, batch_key });
        }
    }
    None
}

/// Infers the roots that no schema block named.
pub fn infer_root_types(config: &mut GraphQLConfig)
    ensures
        final(config)@ == with_inferred_roots(old(config)@),
{
    if config.query_type.is_none() && config.types.contains_key("Query") {
        config.query_type = Some("Query".to_owned());
    }
    if config.mutation_type.is_none() && config.types.contains_key("Mutation") {
        config.mutation_type = Some("Mutation".to_owned());
    }
}

/// Parsing the same text twice gives structurally identical configurations.
pub proof fn lemma_parse_is_idempotent(
    sdl: Seq<char>,
    first: Result<GraphQLConfig, ParseError>,
    second: Result<GraphQLConfig, ParseError>,
)
    requires
        is_parse_of(first, sdl),
        is_parse_of(second, sdl),
    ensures
        first matches Ok(one) ==> (second matches Ok(other) ==> one@ == other@),
{
}

/// Whether the definition is a schema block that names a query root.
pub open spec fn names_query_root(definition: DefinitionView) -> bool {
    definition matches DefinitionView::Schema(schema) && schema.query is Some
}

/// Whether the definition is a modeled type of that name: an object or an
/// interface outside the reserved `__` names.
pub open spec fn models_type(definition: DefinitionView, name: Seq<char>) -> bool {
    definition matches DefinitionView::Type(ty) && ty.name == name && type_config_of(ty) is Some
}

/// The configuration holds a type under a name exactly where the document
/// has a modeled type of that name.
pub proof fn lemma_types_of_document(definitions: Seq<DefinitionView>, name: Seq<char>)
    ensures
        config_of_document(definitions).types.contains_key(name) <==> exists|i: int|
            0 <= i < definitions.len() && models_type(#[trigger] definitions[i], name),
    decreases definitions.len(),
{
    if definitions.len() > 0 {
        let earlier = definitions.drop_last();
        lemma_types_of_document(earlier, name);
        if exists|i: int| 0 <= i < earlier.len() && models_type(#[trigger] earlier[i], name) {
            let i = choose|i: int| 0 <= i < earlier.len() && models_type(#[trigger] earlier[i], name);
            assert(models_type(definitions[i], name));
        }
        if models_type(definitions.last(), name) {
            assert(models_type(definitions[definitions.len() - 1], name));
        }
        if exists|i: int| 0 <= i < definitions.len() && models_type(#[trigger] definitions[i], name) {
            let i = choose|i: int|
                0 <= i < definitions.len() && models_type(#[trigger] definitions[i], name);
            if i < earlier.len() {
                assert(models_type(earlier[i], name));
            }
        }
    }
}

/// The query root that the definitions name is that of the last schema block
/// that names one.
pub proof fn lemma_explicit_query_root(definitions: Seq<DefinitionView>, last: int)
    requires
        0 <= last < definitions.len(),
        names_query_root(definitions[last]),
        forall|j: int| last < j < definitions.len() ==> !names_query_root(#[trigger] definitions[j]),
    ensures
        with_definitions(definitions).query_type == definitions[last]->Schema_0.query,
    decreases definitions.len(),
{
    if last < definitions.len() - 1 {
        let earlier = definitions.drop_last();
        lemma_explicit_query_root(earlier, last);
    }
}

/// Definitions without a schema block that names a query root name none.
pub proof fn lemma_no_explicit_query_root(definitions: Seq<DefinitionView>)
    requires
        forall|i: int| 0 <= i < definitions.len() ==> !names_query_root(#[trigger] definitions[i]),
    ensures
        with_definitions(definitions).query_type is None,
    decreases definitions.len(),
{
    if definitions.len() > 0 {
        lemma_no_explicit_query_root(definitions.drop_last());
    }
}

/// Root inference: where no schema block names a query root and the
/// document has an object or interface type literally named `Query`, the
/// query root is `Query`.
pub proof fn lemma_query_root_is_inferred(definitions: Seq<DefinitionView>, at: int)
    requires
        forall|i: int| 0 <= i < definitions.len() ==> !names_query_root(#[trigger] definitions[i]),
        0 <= at < definitions.len(),
        definitions[at] matches DefinitionView::Type(ty) && ty.name == "Query"@ && (ty.kind is Object
            || ty.kind is Interface),
    ensures
        config_of_document(definitions).query_type == Some("Query"@),
{
    reveal_strlit("Query");
    reveal_strlit("__");
    assert(!has_prefix("Query"@, "__"@)) by {
        assert("__"@[0] == '_');
    }
    lemma_no_explicit_query_root(definitions);
    lemma_types_of_document(definitions, "Query"@);
}

/// Root inference: the query root that a schema block names is the query
/// root, whether or not the document has a type named `Query`. Of several
/// blocks the last one that names a root counts.
pub proof fn lemma_explicit_query_root_wins(definitions: Seq<DefinitionView>, last: int)
    requires
        0 <= last < definitions.len(),
        names_query_root(definitions[last]),
        forall|j: int| last < j < definitions.len() ==> !names_query_root(#[trigger] definitions[j]),
    ensures
        config_of_document(definitions).query_type == definitions[last]->Schema_0.query,
{
    lemma_explicit_query_root(definitions, last);
}

/// Introspection exclusion: no name that starts with `__` is a key of the
/// configuration of a document.
pub proof fn lemma_no_introspection_types(definitions: Seq<DefinitionView>, name: Seq<char>)
    requires
        has_prefix(name, "__"@),
    ensures
        !config_of_document(definitions).types.contains_key(name),
{
    lemma_types_of_document(definitions, name);
}

/// Introspection exclusion: no name that starts with `__` is a key of a
/// configuration that parsing gave.
pub proof fn lemma_parse_gives_no_introspection_types(
    sdl: Seq<char>,
    outcome: Result<GraphQLConfig, ParseError>,
    name: Seq<char>,
)
    requires
        is_parse_of(outcome, sdl),
        outcome is Ok,
        has_prefix(name, "__"@),
    ensures
        !outcome->Ok_0@.types.contains_key(name),
{
    lemma_no_introspection_types(grammar_document(sdl), name);
}

} // verus!
