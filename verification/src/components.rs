//! Component descriptors: what an arena stores for each of its entities,
//! and the singleton components of a world.

use crate::names::valid_name;
use vstd::prelude::*;

verus! {

/// How the values of a component are stored.
#[derive(Debug, Clone, Copy, PartialEq, Eq, Hash, Structural)]
pub enum Storage {
    /// One value for every entity.
    Linear,
    /// One slot for every entity, with or without a value.
    LinearOption,
}

/// The text of the type that holds a component of `data_type` in its arena.
pub open spec fn component_data_type(storage: Storage, data_type: Seq<char>) -> Seq<char> {
    match storage {
        Storage::Linear => "Component<Self, "@ + data_type + ">"@,
        Storage::LinearOption => "Component<Self, Option<"@ + data_type + ">>"@,
    }
}

/// The text of the type that a row of new values has for a component of
/// `data_type`.
pub open spec fn row_data_type(storage: Storage, data_type: Seq<char>) -> Seq<char> {
    match storage {
        Storage::Linear => data_type,
        Storage::LinearOption => "Option<"@ + data_type + ">"@,
    }
}

impl Storage {
    /// The type that holds the component in its arena.
    pub fn get_component_data_type(&self, data_type: &str) -> (text: String)
        ensures
            text@ == component_data_type(*self, data_type@),
    {
        match self {
            Storage::Linear => String::from_str("Component<Self, ").concat(data_type).concat(">"),
            Storage::LinearOption => String::from_str("Component<Self, Option<").concat(
                data_type,
            ).concat(">>"),
        }
    }

    /// The type of the component's field in a row of new values.
    pub fn get_row_data_type(&self, data_type: &str) -> (text: String)
        ensures
            text@ == row_data_type(*self, data_type@),
    {
        match self {
            Storage::Linear => String::from_str(data_type),
            Storage::LinearOption => String::from_str("Option<").concat(data_type).concat(">"),
        }
    }
}

/// What a component descriptor says.
pub struct ComponentView {
    pub name: Seq<char>,
    pub data_type: Seq<char>,
    pub storage: Storage,
}

/// One component of an arena: its name, the type of its values and how
/// they are stored.
#[derive(Debug)]
pub struct ComponentType {
    pub name: String,
    pub data_type: String,
    pub storage: Storage,
}

impl ComponentType {
    pub open spec fn view(&self) -> ComponentView {
        ComponentView { name: self.name@, data_type: self.data_type@, storage: self.storage }
    }

    /// A component with a value for every entity.
    pub fn dense(name: &str, data_type: &str) -> (component: ComponentType)
        requires
            valid_name(name@),
        ensures
            component@ == (ComponentView {
                name: name@,
                data_type: data_type@,
                storage: Storage::Linear,
            }),
    {
        ComponentType {
            name: String::from_str(name),
            data_type: String::from_str(data_type),
            storage: Storage::Linear,
        }
    }

    /// A component with a value for every entity, named after its type.
    pub fn dense_from_type(data_type: &str) -> (component: ComponentType)
        requires
            valid_name(data_type@),
        ensures
            component@ == (ComponentView {
                name: data_type@,
                data_type: data_type@,
                storage: Storage::Linear,
            }),
    {
        ComponentType::dense(data_type, data_type)
    }

    /// A component that an entity may lack.
    pub fn sparse(name: &str, data_type: &str) -> (component: ComponentType)
        requires
            valid_name(name@),
        ensures
            component@ == (ComponentView {
                name: name@,
                data_type: data_type@,
                storage: Storage::LinearOption,
            }),
    {
        ComponentType {
            name: String::from_str(name),
            data_type: String::from_str(data_type),
            storage: Storage::LinearOption,
        }
    }

    /// A component that an entity may lack, named after its type.
    pub fn sparse_from_type(data_type: &str) -> (component: ComponentType)
        requires
            valid_name(data_type@),
        ensures
            component@ == (ComponentView {
                name: data_type@,
                data_type: data_type@,
                storage: Storage::LinearOption,
            }),
    {
        ComponentType::sparse(data_type, data_type)
    }
}

impl Clone for ComponentType {
    fn clone(&self) -> (copy: ComponentType)
        ensures
            copy@ == self@,
    {
        ComponentType {
            name: self.name.clone(),
            data_type: self.data_type.clone(),
            storage: self.storage,
        }
    }
}

/// A singleton component of the world: one value, outside every arena.
#[derive(Debug)]
pub struct StaticComponent {
    pub name: String,
    pub data_type: String,
}

impl StaticComponent {
    /// The name and the type of the value.
    pub open spec fn view(&self) -> (Seq<char>, Seq<char>) {
        (self.name@, self.data_type@)
    }

    pub fn new(name: &str, data_type: &str) -> (component: StaticComponent)
        requires
            valid_name(name@),
        ensures
            component@ == (name@, data_type@),
    {
        StaticComponent { name: String::from_str(name), data_type: String::from_str(data_type) }
    }

    /// A singleton named after its type.
    pub fn from_type(data_type: &str) -> (component: StaticComponent)
        requires
            valid_name(data_type@),
        ensures
            component@ == (data_type@, data_type@),
    {
        StaticComponent::new(data_type, data_type)
    }
}

impl Clone for StaticComponent {
    fn clone(&self) -> (copy: StaticComponent)
        ensures
            copy@ == self@,
    {
        StaticComponent { name: self.name.clone(), data_type: self.data_type.clone() }
    }
}

} // verus!
