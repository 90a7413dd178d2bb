//! Tool definitions: the immutable descriptor of one tool.

use vstd::prelude::*;
use crate::error::ToolError;
use crate::schema::Schema;

verus! {

/// Hints about a tool's behaviour, carried along for clients.
pub struct ToolAnnotations {
    pub title: Option<String>,
    pub read_only_hint: Option<bool>,
    pub destructive_hint: Option<bool>,
    pub idempotent_hint: Option<bool>,
    pub open_world_hint: Option<bool>,
}

/// A tool's name, description, input schema and annotations. The name is
/// never empty.
pub struct ToolDefinition {
    name: String,
    description: Option<String>,
    input_schema: Schema,
    annotations: Option<ToolAnnotations>,
}

impl ToolDefinition {
    #[verifier::type_invariant]
    spec fn inv(self) -> bool {
        self.name@.len() > 0
    }

    pub closed spec fn name_spec(self) -> Seq<char> {
        self.name@
    }

    pub closed spec fn description_spec(self) -> Option<String> {
        self.description
    }

    pub closed spec fn schema_spec(self) -> Schema {
        self.input_schema
    }

    pub closed spec fn annotations_spec(self) -> Option<ToolAnnotations> {
        self.annotations
    }

    /// Builds a definition; fails with `InvalidDefinition` exactly when the
    /// name is empty.
    pub fn new(
        name: String,
        description: Option<String>,
        input_schema: Schema,
        annotations: Option<ToolAnnotations>,
    ) -> (r: Result<ToolDefinition, ToolError>)
        ensures
            r is Ok <==> name@.len() > 0,
            r matches Ok(d) ==> {
                &&& d.name_spec() == name@
                &&& d.description_spec() == description
                &&& d.schema_spec() == input_schema
                &&& d.annotations_spec() == annotations
            },
            r matches Err(e) ==> e is InvalidDefinition,
    {
        if name.as_str().is_empty() {
            return Err(ToolError::InvalidDefinition);
        }
        Ok(ToolDefinition { name, description, input_schema, annotations })
    }

    /// The tool's name, never empty.
    pub fn name(&self) -> (r: &str)
        ensures
            r@ == self.name_spec(),
            r@.len() > 0,
    {
        proof {
            use_type_invariant(self);
        }
        self.name.as_str()
    }

    /// The tool's name, as the owned string.
    pub(crate) fn name_string(&self) -> (r: &String)
        ensures
            r@ == self.name_spec(),
    {
        &self.name
    }

    pub fn description(&self) -> (r: &Option<String>)
        ensures
            *r == self.description_spec(),
    {
        &self.description
    }

    pub fn input_schema(&self) -> (r: &Schema)
        ensures
            *r == self.schema_spec(),
    {
        &self.input_schema
    }

    pub fn annotations(&self) -> (r: &Option<ToolAnnotations>)
        ensures
            *r == self.annotations_spec(),
    {
        &self.annotations
    }
}

} // verus!
