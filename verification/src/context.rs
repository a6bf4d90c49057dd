//! What a resolver is told of the field it resolves.

use async_graphql_value::ConstValue as Value;
use vstd::prelude::*;

verus! {

/// The context of one resolution: the name of the field, its path from the
/// root, and the resolved value of the parent object, where there is one.
pub struct ResolverContext {
    parent_value: Option<Value>,
    field_name: String,
    path: Vec<String>,
}

impl ResolverContext {
    /// The resolved parent, if any.
    pub closed spec fn parent(self) -> Option<Value> {
        self.parent_value
    }

    /// The name of the field being resolved.
    pub closed spec fn name(self) -> Seq<char> {
        self.field_name@
    }

    /// The names from the root to the field.
    pub closed spec fn segments(self) -> Seq<String> {
        self.path@
    }

    /// The context of a field, without parent and with an empty path.
    pub fn new(field_name: String) -> (context: Self)
        ensures
            context.name() == field_name@,
            context.parent() == None::<Value>,
            context.segments() == Seq::<String>::empty(),
    {
        ResolverContext { parent_value: None, field_name, path: Vec::new() }
    }

    /// The same context with the given parent.
    pub fn with_parent(self, parent_value: Value) -> (context: Self)
        ensures
            context.parent() == Some(parent_value),
            context.name() == self.name(),
            context.segments() == self.segments(),
    {
        let mut context = self;
        context.parent_value = Some(parent_value);
        context
    }

    /// The same context with the given path.
    pub fn with_path(self, path: Vec<String>) -> (context: Self)
        ensures
            context.segments() == path@,
            context.name() == self.name(),
            context.parent() == self.parent(),
    {
        let mut context = self;
        context.path = path;
        context
    }

    /// The resolved parent, if any.
    pub fn parent_value(&self) -> (parent: Option<&Value>)
        ensures
            match parent {
                Some(value) => self.parent() == Some(*value),
                None => self.parent() is None,
            },
    {
        self.parent_value.as_ref()
    }

    /// The name of the field being resolved.
    pub fn field_name(&self) -> (name: &str)
        ensures
            name@ == self.name(),
    {
        self.field_name.as_str()
    }

    /// The names from the root to the field.
    pub fn path(&self) -> (path: &[String])
        ensures
            path@ == self.segments(),
    {
        self.path.as_slice()
    }
}

} // verus!
