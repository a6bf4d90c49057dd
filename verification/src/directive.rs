//! The recognized field directives (`resolver` with its legacy alias `trait`,
//! `batchKey`, `call`) and the literals of their arguments.

use crate::config::{ArgumentMapping, ArgumentMappingView};
use crate::document::{Constant, ConstantView, Directive, DirectiveView, NumberLiteral};
use crate::json::{JsonNumber, JsonValue, JsonView};
use crate::tables::ArgumentMappings;
use crate::text::{has_prefix, str_equal, strip_prefix};
use vstd::prelude::*;

verus! {

/// The bits of a 64-bit float that hold its exponent. A float is finite
/// unless all of them are set.
pub const FLOAT_EXPONENT_BITS: u64 = 0x7ff0_0000_0000_0000;

/// The first argument of that name, if any.
pub open spec fn argument_named(
    arguments: Seq<(Seq<char>, ConstantView)>,
    name: Seq<char>,
) -> Option<ConstantView>
    decreases arguments.len(),
{
    if arguments.len() == 0 {
        None
    } else if arguments[0].0 == name {
        Some(arguments[0].1)
    } else {
        argument_named(arguments.drop_first(), name)
    }
}

/// The text of the first argument of that name, where it is a string literal.
pub open spec fn string_argument_named(
    arguments: Seq<(Seq<char>, ConstantView)>,
    name: Seq<char>,
) -> Option<Seq<char>> {
    match argument_named(arguments, name) {
        Some(ConstantView::String(text)) => Some(text),
        _ => None,
    }
}

/// The first directive of that name, if any.
pub open spec fn directive_named(directives: Seq<DirectiveView>, name: Seq<char>) -> Option<
    DirectiveView,
>
    decreases directives.len(),
{
    if directives.len() == 0 {
        None
    } else if directives[0].name == name {
        Some(directives[0])
    } else {
        directive_named(directives.drop_first(), name)
    }
}

/// The directive found under a name has that name.
pub proof fn lemma_directive_named_has_name(directives: Seq<DirectiveView>, name: Seq<char>)
    ensures
        directive_named(directives, name) matches Some(directive) ==> directive.name == name,
    decreases directives.len(),
{
    if directives.len() > 0 && directives[0].name != name {
        lemma_directive_named_has_name(directives.drop_first(), name);
    }
}

/// The JSON value of a numeric literal: the first of its `i64`, `u64` and
/// finite float readings that it has, and `null` where it has none.
pub open spec fn json_of_number(number: NumberLiteral) -> JsonView {
    if let Some(i) = number.as_i64 {
        JsonView::Number(JsonNumber::Int(i))
    } else if let Some(u) = number.as_u64 {
        JsonView::Number(JsonNumber::UInt(u))
    } else if let Some(bits) = number.as_f64_bits {
        if bits & FLOAT_EXPONENT_BITS != FLOAT_EXPONENT_BITS {
            JsonView::Number(JsonNumber::Float(bits))
        } else {
            JsonView::Null
        }
    } else {
        JsonView::Null
    }
}

/// The JSON value of a literal. An enum value becomes its name as a string,
/// binary data the array of its bytes; lists and objects convert member by
/// member, in order.
pub open spec fn json_of_constant(value: ConstantView) -> JsonView
    decreases value,
{
    match value {
        ConstantView::Null => JsonView::Null,
        ConstantView::Boolean(b) => JsonView::Bool(b),
        ConstantView::Number(number) => json_of_number(number),
        ConstantView::String(text) => JsonView::String(text),
        ConstantView::Enum(name) => JsonView::String(name),
        ConstantView::List(items) => JsonView::Array(
            Seq::new(
                items.len(),
                |i: int|
                    if 0 <= i < items.len() {
                        json_of_constant(items[i])
                    } else {
                        JsonView::Null
                    },
            ),
        ),
        ConstantView::Object(members) => JsonView::Object(
            Seq::new(
                members.len(),
                |i: int|
                    if 0 <= i < members.len() {
                        (members[i].0, json_of_constant(members[i].1))
                    } else {
                        (Seq::empty(), JsonView::Null)
                    },
            ),
        ),
        ConstantView::Binary(bytes) => JsonView::Array(
            Seq::new(bytes.len(), |i: int| JsonView::Number(JsonNumber::Int(bytes[i] as i64))),
        ),
    }
}

/// Where an input of a called resolver comes from, by the literal wired to it:
/// the string `$parent.X` names the parent's field `X`, `$arg.X` the query's
/// argument `X`, and anything else is a literal value.
pub open spec fn argument_mapping_of(value: ConstantView) -> ArgumentMappingView {
    match value {
        ConstantView::String(text) => if has_prefix(text, "$parent."@) {
            ArgumentMappingView::ParentField(
                text.subrange("$parent."@.len() as int, text.len() as int),
            )
        } else if has_prefix(text, "$arg."@) {
            ArgumentMappingView::Argument(text.subrange("$arg."@.len() as int, text.len() as int))
        } else {
            ArgumentMappingView::Literal(json_of_constant(value))
        },
        _ => ArgumentMappingView::Literal(json_of_constant(value)),
    }
}

/// The wiring that the members of an `args` object give, a later member of
/// the same name replacing an earlier one.
pub open spec fn mappings_of(members: Seq<(Seq<char>, ConstantView)>) -> Map<
    Seq<char>,
    ArgumentMappingView,
>
    decreases members.len(),
{
    if members.len() == 0 {
        Map::empty()
    } else {
        mappings_of(members.drop_last()).insert(
            members.last().0,
            argument_mapping_of(members.last().1),
        )
    }
}

/// The wiring of a `call` directive: that of its `args` argument where it is
/// an object, and none otherwise.
pub open spec fn call_args_of(directive: DirectiveView) -> Map<Seq<char>, ArgumentMappingView> {
    match argument_named(directive.arguments, "args"@) {
        Some(ConstantView::Object(members)) => mappings_of(members),
        _ => Map::empty(),
    }
}

/// The resolver name a `call` directive gives: its string argument `trait`,
/// or, where it has none, its string argument `resolver`.
pub open spec fn call_target_of(directive: DirectiveView) -> Option<Seq<char>> {
    match string_argument_named(directive.arguments, "trait"@) {
        Some(name) => Some(name),
        None => string_argument_named(directive.arguments, "resolver"@),
    }
}

/// A parsed `resolver` directive.
#[derive(Debug, Clone)]
pub struct ResolverDirective {
    pub name: String,
}

/// A parsed `trait` directive, the legacy spelling of `resolver`.
#[derive(Debug, Clone)]
pub struct TraitDirective {
    pub name: String,
}

/// A parsed `batchKey` directive.
#[derive(Debug, Clone)]
pub struct BatchKeyDirective {
    pub field: String,
}

/// A parsed `call` directive.
#[derive(Debug, Clone)]
pub struct CallDirective {
    pub trait_name: String,
    pub args: ArgumentMappings,
}

/// The first argument of a directive that has the given name.
pub fn get_directive_argument<'a>(directive: &'a Directive, name: &str) -> (found: Option<
    &'a Constant,
>)
    ensures
        found.deep_view() == argument_named(directive@.arguments, name@),
{
    let mut i: usize = 0;
    assert(directive@.arguments.skip(0) =~= directive@.arguments);
    while i < directive.arguments.len()
        invariant
            i <= directive.arguments.len(),
            argument_named(directive@.arguments, name@) == argument_named(
                directive@.arguments.skip(i as int),
                name@,
            ),
        decreases directive.arguments.len() - i,
    {
        let ghost rest = directive@.arguments.skip(i as int);
        assert(rest.drop_first() =~= directive@.arguments.skip(i + 1));
        if str_equal(directive.arguments[i].0.as_str(), name) {
            return Some(&directive.arguments[i].1);
        }
        i += 1;
    }
    None
}

/// The text of the first argument of that name, where it is a string literal.
pub fn get_string_argument(directive: &Directive, name: &str) -> (text: Option<String>)
    ensures
        text.deep_view() == string_argument_named(directive@.arguments, name@),
{
    match get_directive_argument(directive, name) {
        Some(Constant::String(text)) => Some(text.clone()),
        _ => None,
    }
}

/// The first directive of a field that has the given name.
pub fn find_directive<'a>(directives: &'a Vec<Directive>, name: &str) -> (found: Option<
    &'a Directive,
>)
    ensures
        found.deep_view() == directive_named(directives.deep_view(), name@),
        found matches Some(directive) ==> directive@.name == name@,
{
    proof {
        lemma_directive_named_has_name(directives.deep_view(), name@);
    }
    let mut i: usize = 0;
    assert(directives.deep_view().skip(0) =~= directives.deep_view());
    while i < directives.len()
        invariant
            i <= directives.len(),
            directive_named(directives.deep_view(), name@) == directive_named(
                directives.deep_view().skip(i as int),
                name@,
            ),
        decreases directives.len() - i,
    {
        let ghost rest = directives.deep_view().skip(i as int);
        assert(rest.drop_first() =~= directives.deep_view().skip(i + 1));
        if str_equal(directives[i].name.as_str(), name) {
            return Some(&directives[i]);
        }
        i += 1;
    }
    None
}

/// Reads a `resolver` directive: its string argument `name`.
pub fn parse_resolver_directive(directive: &Directive) -> (parsed: Option<ResolverDirective>)
    ensures
        parsed is Some <==> directive@.name == "resolver"@ && string_argument_named(
            directive@.arguments,
            "name"@,
        ) is Some,
        parsed matches Some(d) ==> Some(d.name@) == string_argument_named(
            directive@.arguments,
            "name"@,
        ),
{
    if !str_equal(directive.name.as_str(), "resolver") {
        return None;
    }
    match get_string_argument(directive, "name") {
        Some(name) => Some(ResolverDirective { name }),
        None => None,
    }
}

/// Reads a `trait` directive: its string argument `name`.
pub fn parse_trait_directive(directive: &Directive) -> (parsed: Option<TraitDirective>)
    ensures
        parsed is Some <==> directive@.name == "trait"@ && string_argument_named(
            directive@.arguments,
            "name"@,
        ) is Some,
        parsed matches Some(d) ==> Some(d.name@) == string_argument_named(
            directive@.arguments,
            "name"@,
        ),
{
    if !str_equal(directive.name.as_str(), "trait") {
        return None;
    }
    match get_string_argument(directive, "name") {
        Some(name) => Some(TraitDirective { name }),
        None => None,
    }
}

/// Reads a `batchKey` directive: its string argument `field`.
pub fn parse_batch_key_directive(directive: &Directive) -> (parsed: Option<BatchKeyDirective>)
    ensures
        parsed is Some <==> directive@.name == "batchKey"@ && string_argument_named(
            directive@.arguments,
            "field"@,
        ) is Some,
        parsed matches Some(d) ==> Some(d.field@) == string_argument_named(
            directive@.arguments,
            "field"@,
        ),
{
    if !str_equal(directive.name.as_str(), "batchKey") {
        return None;
    }
    match get_string_argument(directive, "field") {
        Some(field) => Some(BatchKeyDirective { field }),
        None => None,
    }
}

/// Converts a numeric literal to JSON.
pub fn number_to_json(number: &NumberLiteral) -> (json: JsonValue)
    ensures
        json@ == json_of_number(*number),
{
    if let Some(i) = number.as_i64 {
        JsonValue::Number(JsonNumber::Int(i))
    } else if let Some(u) = number.as_u64 {
        JsonValue::Number(JsonNumber::UInt(u))
    } else if let Some(bits) = number.as_f64_bits {
        if bits & FLOAT_EXPONENT_BITS != FLOAT_EXPONENT_BITS {
            JsonValue::Number(JsonNumber::Float(bits))
        } else {
            JsonValue::Null
        }
    } else {
        JsonValue::Null
    }
}

/// Converts a literal to JSON.
pub fn const_value_to_json(value: &Constant) -> (json: JsonValue)
    ensures
        json@ == json_of_constant(value@),
    decreases value,
{
    match value {
        Constant::Null => JsonValue::Null,
        Constant::Boolean(b) => JsonValue::Bool(*b),
        Constant::Number(number) => number_to_json(number),
        Constant::String(text) => JsonValue::String(text.clone()),
        Constant::Enum(name) => JsonValue::String(name.clone()),
        Constant::List(items) => {
            let mut out: Vec<JsonValue> = Vec::new();
            let mut i: usize = 0;
            while i < items.len()
                invariant
                    i <= items.len(),
                    out@.len() == i,
                    forall|k: int| 0 <= k < i ==> out@[k]@ == json_of_constant(items@[k]@),
                    *value == Constant::List(*items),
                decreases items.len() - i,
            {
                assert(decreases_to!(*value => value->List_0));
                out.push(const_value_to_json(&items[i]));
                i += 1;
            }
            let json = JsonValue::Array(out);
            assert(json@->Array_0 =~= json_of_constant(value@)->Array_0);
            json
        },
        Constant::Object(members) => {
            let mut out: Vec<(String, JsonValue)> = Vec::new();
            let mut i: usize = 0;
            while i < members.len()
                invariant
                    i <= members.len(),
                    out@.len() == i,
                    forall|k: int|
                        0 <= k < i ==> out@[k].0@ == members@[k].0@ && out@[k].1@
                            == json_of_constant(members@[k].1@),
                    *value == Constant::Object(*members),
                decreases members.len() - i,
            {
                assert(decreases_to!(*value => value->Object_0));
                let key = members[i].0.clone();
                out.push((key, const_value_to_json(&members[i].1)));
                i += 1;
            }
            let json = JsonValue::Object(out);
            assert(json@->Object_0 =~= json_of_constant(value@)->Object_0);
            json
        },
        Constant::Binary(bytes) => {
            let mut out: Vec<JsonValue> = Vec::new();
            let mut i: usize = 0;
            while i < bytes.len()
                invariant
                    i <= bytes.len(),
                    out@.len() == i,
                    forall|k: int|
                        0 <= k < i ==> out@[k]@ == JsonView::Number(
                            JsonNumber::Int(bytes@[k] as i64),
                        ),
                decreases bytes.len() - i,
            {
                let byte: u8 = bytes[i];
                out.push(JsonValue::Number(JsonNumber::Int(byte as i64)));
                i += 1;
            }
            let json = JsonValue::Array(out);
            assert(json@->Array_0 =~= json_of_constant(value@)->Array_0);
            json
        },
    }
}

/// Reads the wiring of one input from the literal given for it. Every
/// literal gives one, so the result is always `Some`.
pub fn parse_argument_mapping(value: &Constant) -> (mapping: Option<ArgumentMapping>)
    ensures
        mapping.deep_view() == Some(argument_mapping_of(value@)),
{
    match value {
        Constant::String(text) => {
            if let Some(field) = strip_prefix(text.as_str(), "$parent.") {
                Some(ArgumentMapping::ParentField(field.to_owned()))
            } else if let Some(argument) = strip_prefix(text.as_str(), "$arg.") {
                Some(ArgumentMapping::Argument(argument.to_owned()))
            } else {
                Some(ArgumentMapping::Literal(const_value_to_json(value)))
            }
        },
        _ => Some(ArgumentMapping::Literal(const_value_to_json(value))),
    }
}

/// Reads the wiring of a `call` directive from its `args` argument.
pub fn parse_call_args(directive: &Directive) -> (args: ArgumentMappings)
    ensures
        args@ == call_args_of(directive@),
{
    let mut args = ArgumentMappings::new();
    if let Some(Constant::Object(members)) = get_directive_argument(directive, "args") {
        let mut i: usize = 0;
        while i < members.len()
            invariant
                i <= members.len(),
                args@ == mappings_of(members.deep_view().take(i as int)),
            decreases members.len() - i,
        {
            let ghost before = members.deep_view().take(i as int);
            let ghost after = members.deep_view().take(i + 1);
            assert(after.drop_last() =~= before);
            if let Some(mapping) = parse_argument_mapping(&members[i].1) {
                args.insert(members[i].0.clone(), mapping);
            }
            i += 1;
        }
        assert(members.deep_view().take(members.len() as int) =~= members.deep_view());
        assert(Constant::Object(*members)@->Object_0 =~= members.deep_view());
    }
    args
}

/// Reads a `call` directive: the resolver it names and its wiring.
pub fn parse_call_directive(directive: &Directive) -> (parsed: Option<CallDirective>)
    ensures
        parsed is Some <==> directive@.name == "call"@ && call_target_of(directive@) is Some,
        parsed matches Some(call) ==> Some(call.trait_name@) == call_target_of(directive@)
            && call.args@ == call_args_of(directive@),
{
    if !str_equal(directive.name.as_str(), "call") {
        return None;
    }
    let trait_name = match get_string_argument(directive, "trait") {
        Some(name) => name,
        None => match get_string_argument(directive, "resolver") {
            Some(name) => name,
            None => { return None; },
        },
    };
    let args = parse_call_args(directive);
    Some(CallDirective { trait_name, args })
}

} // verus!
