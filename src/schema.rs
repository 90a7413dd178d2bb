//! The input schema of a tool: an object type with named, typed properties
//! and a list of required property names.

use vstd::prelude::*;
use crate::error::ToolError;

verus! {

/// The primitive type declared for a schema property.
#[derive(Clone, Copy, Debug, PartialEq, Eq, Structural)]
pub enum PropertyType {
    String,
    Number,
    Integer,
    Boolean,
    Object,
    Array,
}

/// One declared property of a schema.
pub struct SchemaProperty {
    pub name: String,
    pub property_type: PropertyType,
    pub description: Option<String>,
}

/// An object schema. Every required name is the name of a declared property.
pub struct Schema {
    properties: Vec<SchemaProperty>,
    required: Vec<String>,
}

/// Whether `props` declares a property named `name`.
pub open spec fn declares(props: Seq<SchemaProperty>, name: Seq<char>) -> bool {
    exists|j: int| 0 <= j < props.len() && (#[trigger] props[j]).name@ == name
}

/// Whether every name in `required` is declared in `props`.
pub open spec fn required_declared(props: Seq<SchemaProperty>, required: Seq<String>) -> bool {
    forall|i: int| 0 <= i < required.len() ==> declares(props, #[trigger] required[i]@)
}

impl SchemaProperty {
    /// A property of the given name and type, described by `description`.
    pub fn new(name: &str, property_type: PropertyType, description: &str) -> (r: SchemaProperty)
        ensures
            r.name@ == name@,
            r.property_type == property_type,
            r.description matches Some(d) && d@ == description@,
    {
        SchemaProperty {
            name: name.to_owned(),
            property_type,
            description: Some(description.to_owned()),
        }
    }
}

/// Whether some property of `props` is named `name`.
fn find_property(props: &Vec<SchemaProperty>, name: &String) -> (r: bool)
    ensures
        r == declares(props@, name@),
{
    let mut j: usize = 0;
    while j < props.len()
        invariant
            0 <= j <= props.len(),
            forall|k: int| 0 <= k < j ==> (#[trigger] props@[k]).name@ != name@,
        decreases props.len() - j,
    {
        if props[j].name == *name {
            return true;
        }
        j = j + 1;
    }
    false
}

impl Schema {
    #[verifier::type_invariant]
    spec fn inv(self) -> bool {
        required_declared(self.properties@, self.required@)
    }

    /// The declared properties, in declaration order.
    pub closed spec fn properties_spec(self) -> Seq<SchemaProperty> {
        self.properties@
    }

    /// The required property names.
    pub closed spec fn required_spec(self) -> Seq<String> {
        self.required@
    }

    /// Builds a schema; fails with `InvalidDefinition` exactly when a required
    /// name is not among the declared properties.
    pub fn new(properties: Vec<SchemaProperty>, required: Vec<String>) -> (r: Result<Schema, ToolError>)
        ensures
            r is Ok <==> required_declared(properties@, required@),
            r matches Ok(s) ==> s.properties_spec() == properties@ && s.required_spec() == required@,
            r matches Err(e) ==> e is InvalidDefinition,
    {
        let mut i: usize = 0;
        while i < required.len()
            invariant
                0 <= i <= required.len(),
                forall|k: int| 0 <= k < i ==> declares(properties@, #[trigger] required@[k]@),
            decreases required.len() - i,
        {
            if !find_property(&properties, &required[i]) {
                return Err(ToolError::InvalidDefinition);
            }
            i = i + 1;
        }
        Ok(Schema { properties, required })
    }

    /// The declared properties, in declaration order.
    pub fn properties(&self) -> (r: &Vec<SchemaProperty>)
        ensures
            r@ == self.properties_spec(),
    {
        &self.properties
    }

    /// The required property names; each one names a declared property.
    pub fn required(&self) -> (r: &Vec<String>)
        ensures
            r@ == self.required_spec(),
            required_declared(self.properties_spec(), r@),
    {
        proof {
            use_type_invariant(self);
        }
        &self.required
    }
}

} // verus!
